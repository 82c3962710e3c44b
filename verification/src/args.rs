//! The argument schemas of the template table: one struct per mode that
//! carries extra fields, plus the brand-identity data every notification
//! carries. Each schema decodes from and encodes to an argument blob, and a
//! blob pins the schema fields, so decoding an encoding gives the original
//! back (the round-trip lemmas).

use vstd::prelude::*;

use crate::blob::Blob;
use crate::blob::FieldValue;
use crate::errors::DecodeError;
use crate::timefmt::fmt_taipei;
use crate::timefmt::format_taipei;
use crate::timefmt::ts_in_range;
use crate::timefmt::LOCAL_SECS_LIMIT;
use crate::timefmt::TZ_OFFSET_SECS;

verus! {

/// Length and head of every field name used by the schemas: enough for the
/// solver to tell any two distinct names apart.
pub(crate) proof fn lemma_arg_keys()
    ensures
        "brand_name"@.len() == 10 && "brand_name"@[0] == 'b',
        "banner"@.len() == 6 && "banner"@[0] == 'b',
        "homepage_link"@.len() == 13 && "homepage_link"@[0] == 'h',
        "facebook_link"@.len() == 13 && "facebook_link"@[0] == 'f',
        "instagram_link"@.len() == 14 && "instagram_link"@[0] == 'i',
        "order_number"@.len() == 12 && "order_number"@[0] == 'o',
        "order_created_at"@.len() == 16 && "order_created_at"@[0] == 'o',
        "customer_name"@.len() == 13 && "customer_name"@[0] == 'c',
        "link"@.len() == 4 && "link"@[0] == 'l',
        "package_numbers"@.len() == 15 && "package_numbers"@[0] == 'p',
        "package_number"@.len() == 14 && "package_number"@[0] == 'p',
        "logistics_type_name"@.len() == 19 && "logistics_type_name"@[0] == 'l',
        "branch_name"@.len() == 11 && "branch_name"@[0] == 'b',
        "addressee_name"@.len() == 14 && "addressee_name"@[0] == 'a',
        "name"@.len() == 4 && "name"@[0] == 'n',
        "price"@.len() == 5 && "price"@[0] == 'p',
        "amount"@.len() == 6 && "amount"@[0] == 'a',
        "subtotal"@.len() == 8 && "subtotal"@[0] == 's',
        "picture_url"@.len() == 11 && "picture_url"@[0] == 'p',
        "products"@.len() == 8 && "products"@[0] == 'p',
        "products_subtotal"@.len() == 17 && "products_subtotal"@[0] == 'p',
        "promotion_discount"@.len() == 18 && "promotion_discount"@[0] == 'p',
        "delivery_fee"@.len() == 12 && "delivery_fee"@[0] == 'd',
        "total"@.len() == 5 && "total"@[0] == 't',
{
    reveal_strlit("brand_name");
    reveal_strlit("banner");
    reveal_strlit("homepage_link");
    reveal_strlit("facebook_link");
    reveal_strlit("instagram_link");
    reveal_strlit("order_number");
    reveal_strlit("order_created_at");
    reveal_strlit("customer_name");
    reveal_strlit("link");
    reveal_strlit("package_numbers");
    reveal_strlit("package_number");
    reveal_strlit("logistics_type_name");
    reveal_strlit("branch_name");
    reveal_strlit("addressee_name");
    reveal_strlit("name");
    reveal_strlit("price");
    reveal_strlit("amount");
    reveal_strlit("subtotal");
    reveal_strlit("picture_url");
    reveal_strlit("products");
    reveal_strlit("products_subtotal");
    reveal_strlit("promotion_discount");
    reveal_strlit("delivery_fee");
    reveal_strlit("total");
}

/// Brand-identity parameters present on every notification.
pub struct RequiredData {
    pub brand_name: String,
    pub banner: String,
    pub homepage_link: String,
    pub facebook_link: String,
    pub instagram_link: String,
}

impl RequiredData {
    /// The blob decodes against the brand-identity schema.
    pub open spec fn blob_ok(b: Blob) -> bool {
        &&& b.get_str("brand_name"@) is Some
        &&& b.get_str("banner"@) is Some
        &&& b.get_str("homepage_link"@) is Some
        &&& b.get_str("facebook_link"@) is Some
        &&& b.get_str("instagram_link"@) is Some
    }

    /// `a` holds exactly the brand-identity fields of `b`.
    pub open spec fn matches_blob(a: RequiredData, b: Blob) -> bool {
        &&& b.get_str("brand_name"@) == Some(a.brand_name@)
        &&& b.get_str("banner"@) == Some(a.banner@)
        &&& b.get_str("homepage_link"@) == Some(a.homepage_link@)
        &&& b.get_str("facebook_link"@) == Some(a.facebook_link@)
        &&& b.get_str("instagram_link"@) == Some(a.instagram_link@)
    }

    pub fn decode(b: &Blob) -> (r: Result<RequiredData, DecodeError>)
        ensures
            match r {
                Ok(a) => Self::matches_blob(a, *b),
                Err(_) => !Self::blob_ok(*b),
            },
    {
        let brand_name = match b.get_str_field("brand_name") {
            Some(s) => s,
            None => {
                return Err(DecodeError);
            },
        };
        let banner = match b.get_str_field("banner") {
            Some(s) => s,
            None => {
                return Err(DecodeError);
            },
        };
        let homepage_link = match b.get_str_field("homepage_link") {
            Some(s) => s,
            None => {
                return Err(DecodeError);
            },
        };
        let facebook_link = match b.get_str_field("facebook_link") {
            Some(s) => s,
            None => {
                return Err(DecodeError);
            },
        };
        let instagram_link = match b.get_str_field("instagram_link") {
            Some(s) => s,
            None => {
                return Err(DecodeError);
            },
        };
        Ok(RequiredData { brand_name, banner, homepage_link, facebook_link, instagram_link })
    }

    pub fn encode(&self) -> (r: Blob)
        ensures
            Self::matches_blob(*self, r),
            r.fields@.len() == 5,
    {
        proof {
            lemma_arg_keys();
        }
        let mut b = Blob::new();
        b.push("brand_name".to_owned(), FieldValue::Str(self.brand_name.clone()));
        b.push("banner".to_owned(), FieldValue::Str(self.banner.clone()));
        b.push("homepage_link".to_owned(), FieldValue::Str(self.homepage_link.clone()));
        b.push("facebook_link".to_owned(), FieldValue::Str(self.facebook_link.clone()));
        b.push("instagram_link".to_owned(), FieldValue::Str(self.instagram_link.clone()));
        b
    }

    /// Round trip: whatever decodes from an encoding of `a` agrees with `a`
    /// on every brand-identity field.
    pub proof fn lemma_roundtrip(a: RequiredData, d: RequiredData, b: Blob)
        requires
            Self::matches_blob(a, b),
            Self::matches_blob(d, b),
        ensures
            d.brand_name@ == a.brand_name@,
            d.banner@ == a.banner@,
            d.homepage_link@ == a.homepage_link@,
            d.facebook_link@ == a.facebook_link@,
            d.instagram_link@ == a.instagram_link@,
    {
    }
}

impl Default for RequiredData {
    /// Placeholder brand identity: every field empty.
    fn default() -> (r: Self)
        ensures
            r.brand_name@ == Seq::<char>::empty(),
            r.banner@ == Seq::<char>::empty(),
            r.homepage_link@ == Seq::<char>::empty(),
            r.facebook_link@ == Seq::<char>::empty(),
            r.instagram_link@ == Seq::<char>::empty(),
    {
        RequiredData {
            brand_name: String::new(),
            banner: String::new(),
            homepage_link: String::new(),
            facebook_link: String::new(),
            instagram_link: String::new(),
        }
    }
}

/// Extra fields of the order-created template.
pub struct CreateOrder {
    pub order_number: String,
    pub order_created_at: i64,
    pub customer_name: String,
}

impl CreateOrder {
    /// A decodable timestamp: nonnegative and inside the renderable range.
    pub open spec fn ts_ok(t: i64) -> bool {
        ts_in_range(t as int)
    }

    pub open spec fn blob_ok(b: Blob) -> bool {
        &&& b.get_str("order_number"@) is Some
        &&& match b.get_int("order_created_at"@) {
            Some(t) => Self::ts_ok(t),
            None => false,
        }
        &&& b.get_str("customer_name"@) is Some
    }

    pub open spec fn matches_blob(a: CreateOrder, b: Blob) -> bool {
        &&& b.get_str("order_number"@) == Some(a.order_number@)
        &&& b.get_int("order_created_at"@) == Some(a.order_created_at)
        &&& Self::ts_ok(a.order_created_at)
        &&& b.get_str("customer_name"@) == Some(a.customer_name@)
    }

    pub fn decode(b: &Blob) -> (r: Result<CreateOrder, DecodeError>)
        ensures
            match r {
                Ok(a) => Self::matches_blob(a, *b),
                Err(_) => !Self::blob_ok(*b),
            },
    {
        let order_number = match b.get_str_field("order_number") {
            Some(s) => s,
            None => {
                return Err(DecodeError);
            },
        };
        let order_created_at = match b.get_int_field("order_created_at") {
            Some(t) => t,
            None => {
                return Err(DecodeError);
            },
        };
        if !(0 <= order_created_at && order_created_at < LOCAL_SECS_LIMIT - TZ_OFFSET_SECS) {
            return Err(DecodeError);
        }
        let customer_name = match b.get_str_field("customer_name") {
            Some(s) => s,
            None => {
                return Err(DecodeError);
            },
        };
        Ok(CreateOrder { order_number, order_created_at, customer_name })
    }

    pub fn encode(&self) -> (r: Blob)
        requires
            Self::ts_ok(self.order_created_at),
        ensures
            Self::matches_blob(*self, r),
            r.fields@.len() == 3,
    {
        proof {
            lemma_arg_keys();
        }
        let mut b = Blob::new();
        b.push("order_number".to_owned(), FieldValue::Str(self.order_number.clone()));
        b.push("order_created_at".to_owned(), FieldValue::Int(self.order_created_at));
        b.push("customer_name".to_owned(), FieldValue::Str(self.customer_name.clone()));
        b
    }

    /// Round trip: whatever decodes from an encoding of `a` agrees with `a`.
    pub proof fn lemma_roundtrip(a: CreateOrder, d: CreateOrder, b: Blob)
        requires
            Self::matches_blob(a, b),
            Self::matches_blob(d, b),
        ensures
            d.order_number@ == a.order_number@,
            d.order_created_at == a.order_created_at,
            d.customer_name@ == a.customer_name@,
    {
    }

    /// The order creation instant rendered in UTC+8.
    pub fn formatted_dt(&self) -> (r: String)
        requires
            Self::ts_ok(self.order_created_at),
        ensures
            r@ == fmt_taipei(self.order_created_at as int),
    {
        format_taipei(self.order_created_at)
    }
}

/// Extra fields of the account-registration template.
pub struct Signup {
    pub brand_name: String,
    pub customer_name: String,
    pub link: String,
}

impl Signup {
    pub open spec fn blob_ok(b: Blob) -> bool {
        &&& b.get_str("brand_name"@) is Some
        &&& b.get_str("customer_name"@) is Some
        &&& b.get_str("link"@) is Some
    }

    pub open spec fn matches_blob(a: Signup, b: Blob) -> bool {
        &&& b.get_str("brand_name"@) == Some(a.brand_name@)
        &&& b.get_str("customer_name"@) == Some(a.customer_name@)
        &&& b.get_str("link"@) == Some(a.link@)
    }

    pub fn decode(b: &Blob) -> (r: Result<Signup, DecodeError>)
        ensures
            match r {
                Ok(a) => Self::matches_blob(a, *b),
                Err(_) => !Self::blob_ok(*b),
            },
    {
        let brand_name = match b.get_str_field("brand_name") {
            Some(s) => s,
            None => {
                return Err(DecodeError);
            },
        };
        let customer_name = match b.get_str_field("customer_name") {
            Some(s) => s,
            None => {
                return Err(DecodeError);
            },
        };
        let link = match b.get_str_field("link") {
            Some(s) => s,
            None => {
                return Err(DecodeError);
            },
        };
        Ok(Signup { brand_name, customer_name, link })
    }

    pub fn encode(&self) -> (r: Blob)
        ensures
            Self::matches_blob(*self, r),
            r.fields@.len() == 3,
    {
        proof {
            lemma_arg_keys();
        }
        let mut b = Blob::new();
        b.push("brand_name".to_owned(), FieldValue::Str(self.brand_name.clone()));
        b.push("customer_name".to_owned(), FieldValue::Str(self.customer_name.clone()));
        b.push("link".to_owned(), FieldValue::Str(self.link.clone()));
        b
    }

    pub proof fn lemma_roundtrip(a: Signup, d: Signup, b: Blob)
        requires
            Self::matches_blob(a, b),
            Self::matches_blob(d, b),
        ensures
            d.brand_name@ == a.brand_name@,
            d.customer_name@ == a.customer_name@,
            d.link@ == a.link@,
    {
    }
}

/// Extra fields of the forgot-password template.
pub struct ForgotPassword {
    pub customer_name: String,
    pub link: String,
}

impl ForgotPassword {
    pub open spec fn blob_ok(b: Blob) -> bool {
        &&& b.get_str("customer_name"@) is Some
        &&& b.get_str("link"@) is Some
    }

    pub open spec fn matches_blob(a: ForgotPassword, b: Blob) -> bool {
        &&& b.get_str("customer_name"@) == Some(a.customer_name@)
        &&& b.get_str("link"@) == Some(a.link@)
    }

    pub fn decode(b: &Blob) -> (r: Result<ForgotPassword, DecodeError>)
        ensures
            match r {
                Ok(a) => Self::matches_blob(a, *b),
                Err(_) => !Self::blob_ok(*b),
            },
    {
        let customer_name = match b.get_str_field("customer_name") {
            Some(s) => s,
            None => {
                return Err(DecodeError);
            },
        };
        let link = match b.get_str_field("link") {
            Some(s) => s,
            None => {
                return Err(DecodeError);
            },
        };
        Ok(ForgotPassword { customer_name, link })
    }

    pub fn encode(&self) -> (r: Blob)
        ensures
            Self::matches_blob(*self, r),
            r.fields@.len() == 2,
    {
        proof {
            lemma_arg_keys();
        }
        let mut b = Blob::new();
        b.push("customer_name".to_owned(), FieldValue::Str(self.customer_name.clone()));
        b.push("link".to_owned(), FieldValue::Str(self.link.clone()));
        b
    }

    pub proof fn lemma_roundtrip(a: ForgotPassword, d: ForgotPassword, b: Blob)
        requires
            Self::matches_blob(a, b),
            Self::matches_blob(d, b),
        ensures
            d.customer_name@ == a.customer_name@,
            d.link@ == a.link@,
    {
    }
}

/// Extra fields of the early-delivery template.
pub struct EarlyDelivery {
    pub customer_name: String,
    pub order_number: String,
}

impl EarlyDelivery {
    pub open spec fn blob_ok(b: Blob) -> bool {
        &&& b.get_str("customer_name"@) is Some
        &&& b.get_str("order_number"@) is Some
    }

    pub open spec fn matches_blob(a: EarlyDelivery, b: Blob) -> bool {
        &&& b.get_str("customer_name"@) == Some(a.customer_name@)
        &&& b.get_str("order_number"@) == Some(a.order_number@)
    }

    pub fn decode(b: &Blob) -> (r: Result<EarlyDelivery, DecodeError>)
        ensures
            match r {
                Ok(a) => Self::matches_blob(a, *b),
                Err(_) => !Self::blob_ok(*b),
            },
    {
        let customer_name = match b.get_str_field("customer_name") {
            Some(s) => s,
            None => {
                return Err(DecodeError);
            },
        };
        let order_number = match b.get_str_field("order_number") {
            Some(s) => s,
            None => {
                return Err(DecodeError);
            },
        };
        Ok(EarlyDelivery { customer_name, order_number })
    }

    pub fn encode(&self) -> (r: Blob)
        ensures
            Self::matches_blob(*self, r),
            r.fields@.len() == 2,
    {
        proof {
            lemma_arg_keys();
        }
        let mut b = Blob::new();
        b.push("customer_name".to_owned(), FieldValue::Str(self.customer_name.clone()));
        b.push("order_number".to_owned(), FieldValue::Str(self.order_number.clone()));
        b
    }

    pub proof fn lemma_roundtrip(a: EarlyDelivery, d: EarlyDelivery, b: Blob)
        requires
            Self::matches_blob(a, b),
            Self::matches_blob(d, b),
        ensures
            d.customer_name@ == a.customer_name@,
            d.order_number@ == a.order_number@,
    {
    }
}

/// Extra fields of the shipping-information template.
pub struct ShippingInfo {
    pub customer_name: String,
    pub order_number: String,
    pub package_numbers: String,
    pub logistics_type_name: String,
}

impl ShippingInfo {
    pub open spec fn blob_ok(b: Blob) -> bool {
        &&& b.get_str("customer_name"@) is Some
        &&& b.get_str("order_number"@) is Some
        &&& b.get_str("package_numbers"@) is Some
        &&& b.get_str("logistics_type_name"@) is Some
    }

    pub open spec fn matches_blob(a: ShippingInfo, b: Blob) -> bool {
        &&& b.get_str("customer_name"@) == Some(a.customer_name@)
        &&& b.get_str("order_number"@) == Some(a.order_number@)
        &&& b.get_str("package_numbers"@) == Some(a.package_numbers@)
        &&& b.get_str("logistics_type_name"@) == Some(a.logistics_type_name@)
    }

    pub fn decode(b: &Blob) -> (r: Result<ShippingInfo, DecodeError>)
        ensures
            match r {
                Ok(a) => Self::matches_blob(a, *b),
                Err(_) => !Self::blob_ok(*b),
            },
    {
        let customer_name = match b.get_str_field("customer_name") {
            Some(s) => s,
            None => {
                return Err(DecodeError);
            },
        };
        let order_number = match b.get_str_field("order_number") {
            Some(s) => s,
            None => {
                return Err(DecodeError);
            },
        };
        let package_numbers = match b.get_str_field("package_numbers") {
            Some(s) => s,
            None => {
                return Err(DecodeError);
            },
        };
        let logistics_type_name = match b.get_str_field("logistics_type_name") {
            Some(s) => s,
            None => {
                return Err(DecodeError);
            },
        };
        Ok(ShippingInfo { customer_name, order_number, package_numbers, logistics_type_name })
    }

    pub fn encode(&self) -> (r: Blob)
        ensures
            Self::matches_blob(*self, r),
            r.fields@.len() == 4,
    {
        proof {
            lemma_arg_keys();
        }
        let mut b = Blob::new();
        b.push("customer_name".to_owned(), FieldValue::Str(self.customer_name.clone()));
        b.push("order_number".to_owned(), FieldValue::Str(self.order_number.clone()));
        b.push("package_numbers".to_owned(), FieldValue::Str(self.package_numbers.clone()));
        b.push(
            "logistics_type_name".to_owned(),
            FieldValue::Str(self.logistics_type_name.clone()),
        );
        b
    }

    pub proof fn lemma_roundtrip(a: ShippingInfo, d: ShippingInfo, b: Blob)
        requires
            Self::matches_blob(a, b),
            Self::matches_blob(d, b),
        ensures
            d.customer_name@ == a.customer_name@,
            d.order_number@ == a.order_number@,
            d.package_numbers@ == a.package_numbers@,
            d.logistics_type_name@ == a.logistics_type_name@,
    {
    }
}

/// Extra fields of the store-arrival template.
pub struct CvsArriveInfo {
    pub customer_name: String,
    pub order_number: String,
    pub branch_name: String,
    pub addressee_name: String,
    pub package_number: String,
}

impl CvsArriveInfo {
    pub open spec fn blob_ok(b: Blob) -> bool {
        &&& b.get_str("customer_name"@) is Some
        &&& b.get_str("order_number"@) is Some
        &&& b.get_str("branch_name"@) is Some
        &&& b.get_str("addressee_name"@) is Some
        &&& b.get_str("package_number"@) is Some
    }

    pub open spec fn matches_blob(a: CvsArriveInfo, b: Blob) -> bool {
        &&& b.get_str("customer_name"@) == Some(a.customer_name@)
        &&& b.get_str("order_number"@) == Some(a.order_number@)
        &&& b.get_str("branch_name"@) == Some(a.branch_name@)
        &&& b.get_str("addressee_name"@) == Some(a.addressee_name@)
        &&& b.get_str("package_number"@) == Some(a.package_number@)
    }

    pub fn decode(b: &Blob) -> (r: Result<CvsArriveInfo, DecodeError>)
        ensures
            match r {
                Ok(a) => Self::matches_blob(a, *b),
                Err(_) => !Self::blob_ok(*b),
            },
    {
        let customer_name = match b.get_str_field("customer_name") {
            Some(s) => s,
            None => {
                return Err(DecodeError);
            },
        };
        let order_number = match b.get_str_field("order_number") {
            Some(s) => s,
            None => {
                return Err(DecodeError);
            },
        };
        let branch_name = match b.get_str_field("branch_name") {
            Some(s) => s,
            None => {
                return Err(DecodeError);
            },
        };
        let addressee_name = match b.get_str_field("addressee_name") {
            Some(s) => s,
            None => {
                return Err(DecodeError);
            },
        };
        let package_number = match b.get_str_field("package_number") {
            Some(s) => s,
            None => {
                return Err(DecodeError);
            },
        };
        Ok(
            CvsArriveInfo {
                customer_name,
                order_number,
                branch_name,
                addressee_name,
                package_number,
            },
        )
    }

    pub fn encode(&self) -> (r: Blob)
        ensures
            Self::matches_blob(*self, r),
            r.fields@.len() == 5,
    {
        proof {
            lemma_arg_keys();
        }
        let mut b = Blob::new();
        b.push("customer_name".to_owned(), FieldValue::Str(self.customer_name.clone()));
        b.push("order_number".to_owned(), FieldValue::Str(self.order_number.clone()));
        b.push("branch_name".to_owned(), FieldValue::Str(self.branch_name.clone()));
        b.push("addressee_name".to_owned(), FieldValue::Str(self.addressee_name.clone()));
        b.push("package_number".to_owned(), FieldValue::Str(self.package_number.clone()));
        b
    }

    pub proof fn lemma_roundtrip(a: CvsArriveInfo, d: CvsArriveInfo, b: Blob)
        requires
            Self::matches_blob(a, b),
            Self::matches_blob(d, b),
        ensures
            d.customer_name@ == a.customer_name@,
            d.order_number@ == a.order_number@,
            d.branch_name@ == a.branch_name@,
            d.addressee_name@ == a.addressee_name@,
            d.package_number@ == a.package_number@,
    {
    }
}

/// Extra fields of the satisfaction-survey template.
pub struct CsatSurvey {
    pub customer_name: String,
    pub order_number: String,
    pub link: String,
}

impl CsatSurvey {
    pub open spec fn blob_ok(b: Blob) -> bool {
        &&& b.get_str("customer_name"@) is Some
        &&& b.get_str("order_number"@) is Some
        &&& b.get_str("link"@) is Some
    }

    pub open spec fn matches_blob(a: CsatSurvey, b: Blob) -> bool {
        &&& b.get_str("customer_name"@) == Some(a.customer_name@)
        &&& b.get_str("order_number"@) == Some(a.order_number@)
        &&& b.get_str("link"@) == Some(a.link@)
    }

    pub fn decode(b: &Blob) -> (r: Result<CsatSurvey, DecodeError>)
        ensures
            match r {
                Ok(a) => Self::matches_blob(a, *b),
                Err(_) => !Self::blob_ok(*b),
            },
    {
        let customer_name = match b.get_str_field("customer_name") {
            Some(s) => s,
            None => {
                return Err(DecodeError);
            },
        };
        let order_number = match b.get_str_field("order_number") {
            Some(s) => s,
            None => {
                return Err(DecodeError);
            },
        };
        let link = match b.get_str_field("link") {
            Some(s) => s,
            None => {
                return Err(DecodeError);
            },
        };
        Ok(CsatSurvey { customer_name, order_number, link })
    }

    pub fn encode(&self) -> (r: Blob)
        ensures
            Self::matches_blob(*self, r),
            r.fields@.len() == 3,
    {
        proof {
            lemma_arg_keys();
        }
        let mut b = Blob::new();
        b.push("customer_name".to_owned(), FieldValue::Str(self.customer_name.clone()));
        b.push("order_number".to_owned(), FieldValue::Str(self.order_number.clone()));
        b.push("link".to_owned(), FieldValue::Str(self.link.clone()));
        b
    }

    pub proof fn lemma_roundtrip(a: CsatSurvey, d: CsatSurvey, b: Blob)
        requires
            Self::matches_blob(a, b),
            Self::matches_blob(d, b),
        ensures
            d.customer_name@ == a.customer_name@,
            d.order_number@ == a.order_number@,
            d.link@ == a.link@,
    {
    }
}

/// One product line of an order-content notification.
pub struct Product {
    pub name: String,
    pub price: i64,
    pub amount: i64,
    pub subtotal: i64,
    pub picture_url: String,
}

impl Product {
    pub open spec fn blob_ok(b: Blob) -> bool {
        &&& b.get_str("name"@) is Some
        &&& b.get_int("price"@) is Some
        &&& b.get_int("amount"@) is Some
        &&& b.get_int("subtotal"@) is Some
        &&& b.get_str("picture_url"@) is Some
    }

    pub open spec fn matches_blob(a: Product, b: Blob) -> bool {
        &&& b.get_str("name"@) == Some(a.name@)
        &&& b.get_int("price"@) == Some(a.price)
        &&& b.get_int("amount"@) == Some(a.amount)
        &&& b.get_int("subtotal"@) == Some(a.subtotal)
        &&& b.get_str("picture_url"@) == Some(a.picture_url@)
    }

    pub fn decode(b: &Blob) -> (r: Result<Product, DecodeError>)
        ensures
            match r {
                Ok(a) => Self::matches_blob(a, *b),
                Err(_) => !Self::blob_ok(*b),
            },
    {
        let name = match b.get_str_field("name") {
            Some(s) => s,
            None => {
                return Err(DecodeError);
            },
        };
        let price = match b.get_int_field("price") {
            Some(v) => v,
            None => {
                return Err(DecodeError);
            },
        };
        let amount = match b.get_int_field("amount") {
            Some(v) => v,
            None => {
                return Err(DecodeError);
            },
        };
        let subtotal = match b.get_int_field("subtotal") {
            Some(v) => v,
            None => {
                return Err(DecodeError);
            },
        };
        let picture_url = match b.get_str_field("picture_url") {
            Some(s) => s,
            None => {
                return Err(DecodeError);
            },
        };
        Ok(Product { name, price, amount, subtotal, picture_url })
    }

    pub fn encode(&self) -> (r: Blob)
        ensures
            Self::matches_blob(*self, r),
            r.fields@.len() == 5,
    {
        proof {
            lemma_arg_keys();
        }
        let mut b = Blob::new();
        b.push("name".to_owned(), FieldValue::Str(self.name.clone()));
        b.push("price".to_owned(), FieldValue::Int(self.price));
        b.push("amount".to_owned(), FieldValue::Int(self.amount));
        b.push("subtotal".to_owned(), FieldValue::Int(self.subtotal));
        b.push("picture_url".to_owned(), FieldValue::Str(self.picture_url.clone()));
        b
    }

    pub proof fn lemma_roundtrip(a: Product, d: Product, b: Blob)
        requires
            Self::matches_blob(a, b),
            Self::matches_blob(d, b),
        ensures
            d.name@ == a.name@,
            d.price == a.price,
            d.amount == a.amount,
            d.subtotal == a.subtotal,
            d.picture_url@ == a.picture_url@,
    {
    }
}

/// Every product in `ps` holds exactly the fields of the blob at the same
/// position in `bs`.
pub open spec fn products_match(ps: Seq<Product>, bs: Seq<Blob>) -> bool {
    &&& ps.len() == bs.len()
    &&& forall|i: int| 0 <= i < ps.len() ==> Product::matches_blob(ps[i], #[trigger] bs[i])
}

/// Extra fields of the full order-content template.
pub struct OrderContent {
    pub customer_name: String,
    pub order_number: String,
    pub products: Vec<Product>,
    pub products_subtotal: i64,
    pub promotion_discount: i64,
    pub delivery_fee: i64,
    pub total: i64,
    pub order_created_at: i64,
    pub addressee_name: String,
    pub package_numbers: String,
    pub logistics_type_name: String,
    pub branch_name: String,
}

impl OrderContent {
    pub open spec fn blob_ok(b: Blob) -> bool {
        &&& b.get_str("customer_name"@) is Some
        &&& b.get_str("order_number"@) is Some
        &&& match b.get_list("products"@) {
            Some(bs) => forall|i: int| 0 <= i < bs.len() ==> Product::blob_ok(#[trigger] bs[i]),
            None => false,
        }
        &&& b.get_int("products_subtotal"@) is Some
        &&& b.get_int("promotion_discount"@) is Some
        &&& b.get_int("delivery_fee"@) is Some
        &&& b.get_int("total"@) is Some
        &&& match b.get_int("order_created_at"@) {
            Some(t) => CreateOrder::ts_ok(t),
            None => false,
        }
        &&& b.get_str("addressee_name"@) is Some
        &&& b.get_str("package_numbers"@) is Some
        &&& b.get_str("logistics_type_name"@) is Some
        &&& b.get_str("branch_name"@) is Some
    }

    pub open spec fn matches_blob(a: OrderContent, b: Blob) -> bool {
        &&& b.get_str("customer_name"@) == Some(a.customer_name@)
        &&& b.get_str("order_number"@) == Some(a.order_number@)
        &&& match b.get_list("products"@) {
            Some(bs) => products_match(a.products@, bs),
            None => false,
        }
        &&& b.get_int("products_subtotal"@) == Some(a.products_subtotal)
        &&& b.get_int("promotion_discount"@) == Some(a.promotion_discount)
        &&& b.get_int("delivery_fee"@) == Some(a.delivery_fee)
        &&& b.get_int("total"@) == Some(a.total)
        &&& b.get_int("order_created_at"@) == Some(a.order_created_at)
        &&& CreateOrder::ts_ok(a.order_created_at)
        &&& b.get_str("addressee_name"@) == Some(a.addressee_name@)
        &&& b.get_str("package_numbers"@) == Some(a.package_numbers@)
        &&& b.get_str("logistics_type_name"@) == Some(a.logistics_type_name@)
        &&& b.get_str("branch_name"@) == Some(a.branch_name@)
    }

    pub fn decode(b: &Blob) -> (r: Result<OrderContent, DecodeError>)
        ensures
            match r {
                Ok(a) => Self::matches_blob(a, *b),
                Err(_) => !Self::blob_ok(*b),
            },
    {
        let customer_name = match b.get_str_field("customer_name") {
            Some(s) => s,
            None => {
                return Err(DecodeError);
            },
        };
        let order_number = match b.get_str_field("order_number") {
            Some(s) => s,
            None => {
                return Err(DecodeError);
            },
        };
        let product_blobs = match b.get_list_field("products") {
            Some(v) => v,
            None => {
                return Err(DecodeError);
            },
        };
        let mut products: Vec<Product> = Vec::new();
        let mut i: usize = 0;
        while i < product_blobs.len()
            invariant
                i <= product_blobs.len(),
                b.get_list("products"@) == Some(product_blobs@),
                products@.len() == i,
                forall|j: int|
                    0 <= j < i ==> Product::matches_blob(products@[j], #[trigger] product_blobs@[j]),
            decreases product_blobs.len() - i,
        {
            match Product::decode(&product_blobs[i]) {
                Ok(p) => products.push(p),
                Err(e) => {
                    proof {
                        assert(!Product::blob_ok(product_blobs@[i as int]));
                        if Self::blob_ok(*b) {
                            let bs = b.get_list("products"@).unwrap();
                            assert(bs == product_blobs@);
                            assert(Product::blob_ok(bs[i as int]));
                        }
                    }
                    return Err(e);
                },
            }
            i = i + 1;
        }
        let products_subtotal = match b.get_int_field("products_subtotal") {
            Some(v) => v,
            None => {
                return Err(DecodeError);
            },
        };
        let promotion_discount = match b.get_int_field("promotion_discount") {
            Some(v) => v,
            None => {
                return Err(DecodeError);
            },
        };
        let delivery_fee = match b.get_int_field("delivery_fee") {
            Some(v) => v,
            None => {
                return Err(DecodeError);
            },
        };
        let total = match b.get_int_field("total") {
            Some(v) => v,
            None => {
                return Err(DecodeError);
            },
        };
        let order_created_at = match b.get_int_field("order_created_at") {
            Some(t) => t,
            None => {
                return Err(DecodeError);
            },
        };
        if !(0 <= order_created_at && order_created_at < LOCAL_SECS_LIMIT - TZ_OFFSET_SECS) {
            return Err(DecodeError);
        }
        let addressee_name = match b.get_str_field("addressee_name") {
            Some(s) => s,
            None => {
                return Err(DecodeError);
            },
        };
        let package_numbers = match b.get_str_field("package_numbers") {
            Some(s) => s,
            None => {
                return Err(DecodeError);
            },
        };
        let logistics_type_name = match b.get_str_field("logistics_type_name") {
            Some(s) => s,
            None => {
                return Err(DecodeError);
            },
        };
        let branch_name = match b.get_str_field("branch_name") {
            Some(s) => s,
            None => {
                return Err(DecodeError);
            },
        };
        Ok(
            OrderContent {
                customer_name,
                order_number,
                products,
                products_subtotal,
                promotion_discount,
                delivery_fee,
                total,
                order_created_at,
                addressee_name,
                package_numbers,
                logistics_type_name,
                branch_name,
            },
        )
    }

    pub fn encode(&self) -> (r: Blob)
        requires
            CreateOrder::ts_ok(self.order_created_at),
        ensures
            Self::matches_blob(*self, r),
            r.fields@.len() == 12,
    {
        proof {
            lemma_arg_keys();
        }
        let mut product_blobs: Vec<Blob> = Vec::new();
        let mut i: usize = 0;
        while i < self.products.len()
            invariant
                i <= self.products@.len(),
                product_blobs@.len() == i,
                forall|j: int|
                    0 <= j < i ==> Product::matches_blob(
                        self.products@[j],
                        #[trigger] product_blobs@[j],
                    ),
            decreases self.products@.len() - i,
        {
            product_blobs.push(self.products[i].encode());
            i = i + 1;
        }
        let mut b = Blob::new();
        b.push("customer_name".to_owned(), FieldValue::Str(self.customer_name.clone()));
        b.push("order_number".to_owned(), FieldValue::Str(self.order_number.clone()));
        b.push("products".to_owned(), FieldValue::List(product_blobs));
        b.push("products_subtotal".to_owned(), FieldValue::Int(self.products_subtotal));
        b.push("promotion_discount".to_owned(), FieldValue::Int(self.promotion_discount));
        b.push("delivery_fee".to_owned(), FieldValue::Int(self.delivery_fee));
        b.push("total".to_owned(), FieldValue::Int(self.total));
        b.push("order_created_at".to_owned(), FieldValue::Int(self.order_created_at));
        b.push("addressee_name".to_owned(), FieldValue::Str(self.addressee_name.clone()));
        b.push("package_numbers".to_owned(), FieldValue::Str(self.package_numbers.clone()));
        b.push(
            "logistics_type_name".to_owned(),
            FieldValue::Str(self.logistics_type_name.clone()),
        );
        b.push("branch_name".to_owned(), FieldValue::Str(self.branch_name.clone()));
        b
    }

    /// Round trip: whatever decodes from an encoding of `a` agrees with `a`
    /// on every field, the product list included.
    pub proof fn lemma_roundtrip(a: OrderContent, d: OrderContent, b: Blob)
        requires
            Self::matches_blob(a, b),
            Self::matches_blob(d, b),
        ensures
            d.customer_name@ == a.customer_name@,
            d.order_number@ == a.order_number@,
            d.products@.len() == a.products@.len(),
            forall|i: int|
                0 <= i < a.products@.len() ==> {
                    &&& (#[trigger] d.products@[i]).name@ == a.products@[i].name@
                    &&& d.products@[i].price == a.products@[i].price
                    &&& d.products@[i].amount == a.products@[i].amount
                    &&& d.products@[i].subtotal == a.products@[i].subtotal
                    &&& d.products@[i].picture_url@ == a.products@[i].picture_url@
                },
            d.products_subtotal == a.products_subtotal,
            d.promotion_discount == a.promotion_discount,
            d.delivery_fee == a.delivery_fee,
            d.total == a.total,
            d.order_created_at == a.order_created_at,
            d.addressee_name@ == a.addressee_name@,
            d.package_numbers@ == a.package_numbers@,
            d.logistics_type_name@ == a.logistics_type_name@,
            d.branch_name@ == a.branch_name@,
    {
        let bs = b.get_list("products"@).unwrap();
        assert forall|i: int| 0 <= i < a.products@.len() implies {
            &&& (#[trigger] d.products@[i]).name@ == a.products@[i].name@
            &&& d.products@[i].price == a.products@[i].price
            &&& d.products@[i].amount == a.products@[i].amount
            &&& d.products@[i].subtotal == a.products@[i].subtotal
            &&& d.products@[i].picture_url@ == a.products@[i].picture_url@
        } by {
            Product::lemma_roundtrip(a.products@[i], d.products@[i], bs[i]);
        }
    }

    /// The order creation instant rendered in UTC+8.
    pub fn formatted_dt(&self) -> (r: String)
        requires
            CreateOrder::ts_ok(self.order_created_at),
        ensures
            r@ == fmt_taipei(self.order_created_at as int),
    {
        format_taipei(self.order_created_at)
    }
}

} // verus!
