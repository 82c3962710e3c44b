//! The closed set of template modes and the snake_case wire tag each one
//! carries inside a serialized envelope.

use vstd::prelude::*;

verus! {

/// Which provider template a notification is for. The set is closed: the
/// dispatcher matches it exhaustively.
#[derive(Clone, Copy, PartialEq, Eq, Structural, Debug)]
pub enum TemplateMode {
    CreateOrder,
    WarehouseDelivered,
    LogisticsStatusChanged,
    PaymentReturned,
    AccountRegister,
    AccountForgotPassword,
    EarlyDelivery,
    ShippingInfo,
    CvsArriveInfo,
    CsatSurvey,
    NewCreateOrder,
}

/// The snake_case tag a mode is written as on the wire.
pub open spec fn tag_of(m: TemplateMode) -> Seq<char> {
    match m {
        TemplateMode::CreateOrder => "create_order"@,
        TemplateMode::WarehouseDelivered => "warehouse_delivered"@,
        TemplateMode::LogisticsStatusChanged => "logistics_status_changed"@,
        TemplateMode::PaymentReturned => "payment_returned"@,
        TemplateMode::AccountRegister => "account_register"@,
        TemplateMode::AccountForgotPassword => "account_forgot_password"@,
        TemplateMode::EarlyDelivery => "early_delivery"@,
        TemplateMode::ShippingInfo => "shipping_info"@,
        TemplateMode::CvsArriveInfo => "cvs_arrive_info"@,
        TemplateMode::CsatSurvey => "csat_survey"@,
        TemplateMode::NewCreateOrder => "new_create_order"@,
    }
}

/// Distinct modes never share a wire tag.
pub proof fn lemma_tag_injective(a: TemplateMode, b: TemplateMode)
    requires
        tag_of(a) == tag_of(b),
    ensures
        a == b,
{
    reveal_strlit("create_order");
    reveal_strlit("warehouse_delivered");
    reveal_strlit("logistics_status_changed");
    reveal_strlit("payment_returned");
    reveal_strlit("account_register");
    reveal_strlit("account_forgot_password");
    reveal_strlit("early_delivery");
    reveal_strlit("shipping_info");
    reveal_strlit("cvs_arrive_info");
    reveal_strlit("csat_survey");
    reveal_strlit("new_create_order");
    assert("create_order"@.len() == 12);
    assert("warehouse_delivered"@.len() == 19);
    assert("logistics_status_changed"@.len() == 24);
    assert("payment_returned"@.len() == 16 && "payment_returned"@[0] == 'p');
    assert("account_register"@.len() == 16 && "account_register"@[0] == 'a');
    assert("account_forgot_password"@.len() == 23);
    assert("early_delivery"@.len() == 14);
    assert("shipping_info"@.len() == 13);
    assert("cvs_arrive_info"@.len() == 15);
    assert("csat_survey"@.len() == 11);
    assert("new_create_order"@.len() == 16 && "new_create_order"@[0] == 'n');
}

impl TemplateMode {
    /// The wire tag of this mode.
    pub fn tag(&self) -> (r: &'static str)
        ensures
            r@ == tag_of(*self),
    {
        match self {
            TemplateMode::CreateOrder => "create_order",
            TemplateMode::WarehouseDelivered => "warehouse_delivered",
            TemplateMode::LogisticsStatusChanged => "logistics_status_changed",
            TemplateMode::PaymentReturned => "payment_returned",
            TemplateMode::AccountRegister => "account_register",
            TemplateMode::AccountForgotPassword => "account_forgot_password",
            TemplateMode::EarlyDelivery => "early_delivery",
            TemplateMode::ShippingInfo => "shipping_info",
            TemplateMode::CvsArriveInfo => "cvs_arrive_info",
            TemplateMode::CsatSurvey => "csat_survey",
            TemplateMode::NewCreateOrder => "new_create_order",
        }
    }

    /// Parses a wire tag back into its mode: `Some` exactly on the eleven
    /// known tags, and always the mode whose tag was given.
    pub fn parse_tag(s: &String) -> (r: Option<TemplateMode>)
        ensures
            match r {
                Some(m) => s@ == tag_of(m),
                None => forall|m: TemplateMode| s@ != tag_of(m),
            },
    {
        if s.eq(&"create_order".to_owned()) {
            Some(TemplateMode::CreateOrder)
        } else if s.eq(&"warehouse_delivered".to_owned()) {
            Some(TemplateMode::WarehouseDelivered)
        } else if s.eq(&"logistics_status_changed".to_owned()) {
            Some(TemplateMode::LogisticsStatusChanged)
        } else if s.eq(&"payment_returned".to_owned()) {
            Some(TemplateMode::PaymentReturned)
        } else if s.eq(&"account_register".to_owned()) {
            Some(TemplateMode::AccountRegister)
        } else if s.eq(&"account_forgot_password".to_owned()) {
            Some(TemplateMode::AccountForgotPassword)
        } else if s.eq(&"early_delivery".to_owned()) {
            Some(TemplateMode::EarlyDelivery)
        } else if s.eq(&"shipping_info".to_owned()) {
            Some(TemplateMode::ShippingInfo)
        } else if s.eq(&"cvs_arrive_info".to_owned()) {
            Some(TemplateMode::CvsArriveInfo)
        } else if s.eq(&"csat_survey".to_owned()) {
            Some(TemplateMode::CsatSurvey)
        } else if s.eq(&"new_create_order".to_owned()) {
            Some(TemplateMode::NewCreateOrder)
        } else {
            None
        }
    }

    /// Parsing a mode's own tag always gives that mode back.
    pub proof fn lemma_tag_roundtrip(m: TemplateMode, r: Option<TemplateMode>)
        requires
            match r {
                Some(n) => tag_of(m) == tag_of(n),
                None => forall|n: TemplateMode| tag_of(m) != tag_of(n),
            },
        ensures
            r == Some(m),
    {
        match r {
            Some(n) => lemma_tag_injective(m, n),
            None => assert(tag_of(m) == tag_of(m)),
        }
    }
}

impl Default for TemplateMode {
    /// A freshly built envelope defaults to the order-created template.
    fn default() -> (r: Self)
        ensures
            r == TemplateMode::CreateOrder,
    {
        TemplateMode::CreateOrder
    }
}

} // verus!
