//! The delivery executor's view of a dequeued message: what to send, for
//! which recipient and template, and the acknowledgment policy. The broker
//! and provider calls themselves happen outside; this module fixes every
//! decision they act on.

use vstd::prelude::*;

use crate::blob::Blob;
use crate::body::EmailNotification;
use crate::dispatch::build_params;
use crate::dispatch::dispatch_err;
use crate::dispatch::params_match;
use crate::dispatch::params_ok;
use crate::errors::DispatchError;
use crate::modes::TemplateMode;

verus! {

/// A provider-ready request: sender identity (also the reply-to), one
/// recipient, the template, the subject, and the assembled parameter set.
#[derive(Debug)]
pub struct SendRequest {
    pub sender_name: String,
    pub sender_email: String,
    pub reply_to_name: String,
    pub reply_to_email: String,
    pub to_name: String,
    pub to_email: String,
    pub template_id: i32,
    pub subject: String,
    pub params: Blob,
}

/// The request carries the envelope's identities verbatim, the sender
/// doubling as reply-to, and a parameter set the dispatcher stands behind.
pub open spec fn request_match(env: EmailNotification, q: SendRequest) -> bool {
    &&& q.sender_name@ == env.sender.name@
    &&& q.sender_email@ == env.sender.email@
    &&& q.reply_to_name@ == env.sender.name@
    &&& q.reply_to_email@ == env.sender.email@
    &&& q.to_name@ == env.customer.name@
    &&& q.to_email@ == env.customer.email@
    &&& q.template_id == env.template.id
    &&& q.subject@ == env.template.subject@
    &&& params_match(env, q.params)
}

/// Builds the provider request for `env`, or says exactly why none can be
/// built.
pub fn build_send_request(env: EmailNotification) -> (r: Result<SendRequest, DispatchError>)
    ensures
        match r {
            Ok(q) => params_ok(env) && request_match(env, q),
            Err(e) => !params_ok(env) && e == dispatch_err(env),
        },
{
    let sender_name = env.sender.name.clone();
    let sender_email = env.sender.email.clone();
    let reply_to_name = env.sender.name.clone();
    let reply_to_email = env.sender.email.clone();
    let to_name = env.customer.name.clone();
    let to_email = env.customer.email.clone();
    let template_id = env.template.id;
    let subject = env.template.subject.clone();
    let params = match build_params(env) {
        Ok(p) => p,
        Err(e) => {
            return Err(e);
        },
    };
    Ok(
        SendRequest {
            sender_name,
            sender_email,
            reply_to_name,
            reply_to_email,
            to_name,
            to_email,
            template_id,
            subject,
            params,
        },
    )
}

/// Why a delivery is dropped without a provider call.
#[derive(Clone, Copy, PartialEq, Eq, Structural, Debug)]
pub enum DiscardReason {
    /// The message body was no envelope at all.
    BadEnvelope,
    /// The brand-identity blob failed its schema.
    BadRequiredArgs,
    /// The mode's own blob failed the schema the mode selects.
    BadOtherArgs,
}

/// What to do with one dequeued delivery.
#[derive(Debug)]
pub enum DeliveryPlan {
    /// Attempt the provider call, then acknowledge — whether or not the
    /// call succeeds.
    Send(SendRequest),
    /// Log and acknowledge without sending: a terminal per-message failure.
    Discard(DiscardReason),
    /// The unimplemented mode was selected: abort this delivery path,
    /// leaving the message unacknowledged. Never a silent drop.
    Fatal,
}

/// The acknowledgment policy: every delivery is acknowledged after the
/// attempt, failures included — only the fatal path withholds it.
pub open spec fn must_ack(p: DeliveryPlan) -> bool {
    !(p is Fatal)
}

/// Decides one delivery: `decoded` is the envelope if the message body
/// decoded as one. Decode failures of either kind are discarded (and still
/// acknowledged); the unimplemented mode is fatal; anything else is sent.
pub fn plan_delivery(decoded: Option<EmailNotification>) -> (r: DeliveryPlan)
    ensures
        match decoded {
            None => r == DeliveryPlan::Discard(DiscardReason::BadEnvelope),
            Some(env) => {
                if env.template.mode == TemplateMode::WarehouseDelivered {
                    r == DeliveryPlan::Fatal
                } else if params_ok(env) {
                    r matches DeliveryPlan::Send(q) && request_match(env, q)
                } else if dispatch_err(env) == DispatchError::RequiredArgs {
                    r == DeliveryPlan::Discard(DiscardReason::BadRequiredArgs)
                } else {
                    r == DeliveryPlan::Discard(DiscardReason::BadOtherArgs)
                }
            },
        },
{
    let env = match decoded {
        Some(env) => env,
        None => {
            return DeliveryPlan::Discard(DiscardReason::BadEnvelope);
        },
    };
    if matches!(env.template.mode, TemplateMode::WarehouseDelivered) {
        return DeliveryPlan::Fatal;
    }
    match build_send_request(env) {
        Ok(q) => DeliveryPlan::Send(q),
        Err(DispatchError::RequiredArgs) => DeliveryPlan::Discard(DiscardReason::BadRequiredArgs),
        Err(_) => DeliveryPlan::Discard(DiscardReason::BadOtherArgs),
    }
}

/// Whether the broker acknowledgment is owed for this plan.
pub fn should_ack(p: &DeliveryPlan) -> (r: bool)
    ensures
        r == must_ack(*p),
{
    !matches!(p, DeliveryPlan::Fatal)
}

} // verus!
