//! The notification envelope: the unit of queued work, built incrementally by
//! the producer, carried opaquely by the broker, and decoded once by the
//! consumer.

use vstd::prelude::*;

use crate::args::RequiredData;
use crate::blob::Blob;
use crate::modes::TemplateMode;

verus! {

/// Seconds since the epoch for the placeholder creation instant a fresh
/// envelope carries before the producer sets one.
pub const DEFAULT_CREATED_AT: i64 = 1577836800;

/// Which provider template to render, and under which subject line.
pub struct Template {
    pub id: i32,
    pub mode: TemplateMode,
    pub subject: String,
}

/// The recipient of the notification.
pub struct Customer {
    pub email: String,
    pub name: String,
}

/// The identity the notification is sent as.
pub struct Sender {
    pub id: i32,
    pub name: String,
    pub email: String,
}

/// The unit of queued work. `required_args` always carries the brand
/// identity; `other_args` decodes against the schema `template.mode`
/// selects. Timestamps are seconds since the Unix epoch, UTC.
pub struct EmailNotification {
    pub brand_id: i64,
    pub template: Template,
    pub customer: Customer,
    pub sender: Sender,
    pub required_args: Blob,
    pub other_args: Blob,
    pub created_at: i64,
}

impl Default for Template {
    fn default() -> (r: Self)
        ensures
            r.id == 0,
            r.mode == TemplateMode::CreateOrder,
            r.subject@ == Seq::<char>::empty(),
    {
        Template { id: 0, mode: TemplateMode::CreateOrder, subject: String::new() }
    }
}

impl Default for Customer {
    fn default() -> (r: Self)
        ensures
            r.email@ == Seq::<char>::empty(),
            r.name@ == Seq::<char>::empty(),
    {
        Customer { email: String::new(), name: String::new() }
    }
}

impl Default for Sender {
    fn default() -> (r: Self)
        ensures
            r.id == 0,
            r.name@ == Seq::<char>::empty(),
            r.email@ == Seq::<char>::empty(),
    {
        Sender { id: 0, name: String::new(), email: String::new() }
    }
}

/// A fresh envelope: zeroed identifiers, empty names, empty blobs, the
/// placeholder creation instant.
pub open spec fn is_default_envelope(e: EmailNotification) -> bool {
    &&& e.brand_id == 0
    &&& e.template.id == 0
    &&& e.template.mode == TemplateMode::CreateOrder
    &&& e.template.subject@ == Seq::<char>::empty()
    &&& e.customer.email@ == Seq::<char>::empty()
    &&& e.customer.name@ == Seq::<char>::empty()
    &&& e.sender.id == 0
    &&& e.sender.name@ == Seq::<char>::empty()
    &&& e.sender.email@ == Seq::<char>::empty()
    &&& e.required_args.fields@ == Seq::<(String, crate::blob::FieldValue)>::empty()
    &&& e.other_args.fields@ == Seq::<(String, crate::blob::FieldValue)>::empty()
    &&& e.created_at == DEFAULT_CREATED_AT
}

impl Default for EmailNotification {
    fn default() -> (r: Self)
        ensures
            is_default_envelope(r),
    {
        EmailNotification {
            brand_id: 0,
            template: Template::default(),
            customer: Customer::default(),
            sender: Sender::default(),
            required_args: Blob::new(),
            other_args: Blob::new(),
            created_at: DEFAULT_CREATED_AT,
        }
    }
}

impl EmailNotification {
    /// Starts building an envelope from the defaults.
    pub fn builder() -> (r: EmailNotificationBuilder)
        ensures
            is_default_envelope(r.0),
    {
        EmailNotificationBuilder(Self::default())
    }
}

/// Incremental construction of an envelope; each step sets one field and
/// leaves the rest as they were.
pub struct EmailNotificationBuilder(pub EmailNotification);

impl EmailNotificationBuilder {
    pub fn brand_id(self, brand_id: i64) -> (r: Self)
        ensures
            r.0 == (EmailNotification { brand_id, ..self.0 }),
    {
        let mut inner = self.0;
        inner.brand_id = brand_id;
        Self(inner)
    }

    pub fn template_id(self, template_id: i32) -> (r: Self)
        ensures
            r.0 == (EmailNotification {
                template: Template { id: template_id, ..self.0.template },
                ..self.0
            }),
    {
        let mut inner = self.0;
        inner.template.id = template_id;
        Self(inner)
    }

    pub fn template_mode(self, template_mode: TemplateMode) -> (r: Self)
        ensures
            r.0 == (EmailNotification {
                template: Template { mode: template_mode, ..self.0.template },
                ..self.0
            }),
    {
        let mut inner = self.0;
        inner.template.mode = template_mode;
        Self(inner)
    }

    pub fn template_subject(self, template_subject: String) -> (r: Self)
        ensures
            r.0 == (EmailNotification {
                template: Template { subject: template_subject, ..self.0.template },
                ..self.0
            }),
    {
        let mut inner = self.0;
        inner.template.subject = template_subject;
        Self(inner)
    }

    pub fn customer_email(self, customer_email: String) -> (r: Self)
        ensures
            r.0 == (EmailNotification {
                customer: Customer { email: customer_email, ..self.0.customer },
                ..self.0
            }),
    {
        let mut inner = self.0;
        inner.customer.email = customer_email;
        Self(inner)
    }

    pub fn customer_name(self, customer_name: String) -> (r: Self)
        ensures
            r.0 == (EmailNotification {
                customer: Customer { name: customer_name, ..self.0.customer },
                ..self.0
            }),
    {
        let mut inner = self.0;
        inner.customer.name = customer_name;
        Self(inner)
    }

    pub fn sender_id(self, sender_id: i32) -> (r: Self)
        ensures
            r.0 == (EmailNotification {
                sender: Sender { id: sender_id, ..self.0.sender },
                ..self.0
            }),
    {
        let mut inner = self.0;
        inner.sender.id = sender_id;
        Self(inner)
    }

    pub fn sender_name(self, sender_name: String) -> (r: Self)
        ensures
            r.0 == (EmailNotification {
                sender: Sender { name: sender_name, ..self.0.sender },
                ..self.0
            }),
    {
        let mut inner = self.0;
        inner.sender.name = sender_name;
        Self(inner)
    }

    pub fn sender_email(self, sender_email: String) -> (r: Self)
        ensures
            r.0 == (EmailNotification {
                sender: Sender { email: sender_email, ..self.0.sender },
                ..self.0
            }),
    {
        let mut inner = self.0;
        inner.sender.email = sender_email;
        Self(inner)
    }

    pub fn required_args(self, args: Blob) -> (r: Self)
        ensures
            r.0 == (EmailNotification { required_args: args, ..self.0 }),
    {
        let mut inner = self.0;
        inner.required_args = args;
        Self(inner)
    }

    /// Fills `required_args` with the placeholder brand identity: every
    /// brand field present and empty.
    pub fn default_required_args(self) -> (r: Self)
        ensures
            r.0.brand_id == self.0.brand_id,
            r.0.template == self.0.template,
            r.0.customer == self.0.customer,
            r.0.sender == self.0.sender,
            r.0.other_args == self.0.other_args,
            r.0.created_at == self.0.created_at,
            RequiredData::blob_ok(r.0.required_args),
            r.0.required_args.get_str("brand_name"@) == Some(Seq::<char>::empty()),
            r.0.required_args.get_str("banner"@) == Some(Seq::<char>::empty()),
            r.0.required_args.get_str("homepage_link"@) == Some(Seq::<char>::empty()),
            r.0.required_args.get_str("facebook_link"@) == Some(Seq::<char>::empty()),
            r.0.required_args.get_str("instagram_link"@) == Some(Seq::<char>::empty()),
    {
        let mut inner = self.0;
        inner.required_args = RequiredData::default().encode();
        Self(inner)
    }

    pub fn other_args(self, args: Blob) -> (r: Self)
        ensures
            r.0 == (EmailNotification { other_args: args, ..self.0 }),
    {
        let mut inner = self.0;
        inner.other_args = args;
        Self(inner)
    }

    pub fn created_at(self, created_at: i64) -> (r: Self)
        ensures
            r.0 == (EmailNotification { created_at, ..self.0 }),
    {
        let mut inner = self.0;
        inner.created_at = created_at;
        Self(inner)
    }

    /// Finishes the build.
    pub fn create(self) -> (r: EmailNotification)
        ensures
            r == self.0,
    {
        self.0
    }
}

} // verus!
