//! Notification relay library: the envelope schema shared by producer and
//! consumer, the tag-directed argument codec, the template dispatcher that
//! assembles provider-ready parameter sets, and the delivery planner that
//! fixes the acknowledgment policy. Broker and HTTP plumbing live outside.

pub mod args;
pub mod blob;
pub mod body;
pub mod config;
pub mod deliver;
pub mod dispatch;
pub mod errors;
pub mod ingress;
pub mod modes;
pub mod text;
pub mod timefmt;
