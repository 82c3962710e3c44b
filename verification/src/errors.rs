//! Error taxonomy of the relay: per-message decode failures are terminal for
//! that message only, while selecting the unimplemented template mode is a
//! distinct fatal condition.

use vstd::prelude::*;

verus! {

/// An argument blob did not fit the schema it was decoded against.
#[derive(Clone, Copy, PartialEq, Eq, Structural, Debug)]
pub struct DecodeError;

/// Why the dispatcher refused an envelope.
#[derive(Clone, Copy, PartialEq, Eq, Structural, Debug)]
pub enum DispatchError {
    /// `required_args` did not decode against the brand-identity schema.
    RequiredArgs,
    /// `other_args` did not decode against the schema the mode selects.
    OtherArgs,
    /// The mode has no implementation; a configuration mismatch, not bad data.
    Unimplemented,
}

} // verus!
