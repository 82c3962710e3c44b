//! The template dispatcher: decodes an envelope's argument blobs against the
//! schema its mode selects and assembles the flat provider parameter set.
//! Pure: a decode failure is reported, never thrown, and the unimplemented
//! mode is a distinct fatal answer. On a field-name collision the mode's own
//! arguments take precedence over the brand identity: mode parameters stand
//! first and lookup takes the first match.

use vstd::prelude::*;

use crate::args::lemma_arg_keys;
use crate::args::CreateOrder;
use crate::args::CsatSurvey;
use crate::args::CvsArriveInfo;
use crate::args::EarlyDelivery;
use crate::args::ForgotPassword;
use crate::args::OrderContent;
use crate::args::Product;
use crate::args::RequiredData;
use crate::args::ShippingInfo;
use crate::args::Signup;
use crate::blob::Blob;
use crate::blob::FieldValue;
use crate::body::EmailNotification;
use crate::errors::DispatchError;
use crate::modes::TemplateMode;
use crate::timefmt::fmt_taipei;

verus! {

/// The mode's own argument blob decodes against the schema the mode selects.
/// The two modes without extra fields accept anything; the unimplemented
/// mode accepts nothing.
pub open spec fn other_ok(env: EmailNotification) -> bool {
    match env.template.mode {
        TemplateMode::CreateOrder => CreateOrder::blob_ok(env.other_args),
        TemplateMode::WarehouseDelivered => false,
        TemplateMode::LogisticsStatusChanged => true,
        TemplateMode::PaymentReturned => true,
        TemplateMode::AccountRegister => Signup::blob_ok(env.other_args),
        TemplateMode::AccountForgotPassword => ForgotPassword::blob_ok(env.other_args),
        TemplateMode::EarlyDelivery => EarlyDelivery::blob_ok(env.other_args),
        TemplateMode::ShippingInfo => ShippingInfo::blob_ok(env.other_args),
        TemplateMode::CvsArriveInfo => CvsArriveInfo::blob_ok(env.other_args),
        TemplateMode::CsatSurvey => CsatSurvey::blob_ok(env.other_args),
        TemplateMode::NewCreateOrder => OrderContent::blob_ok(env.other_args),
    }
}

/// The dispatcher produces a parameter set for this envelope. The
/// passthrough modes always do; the schema modes need both blobs to decode.
pub open spec fn params_ok(env: EmailNotification) -> bool {
    match env.template.mode {
        TemplateMode::WarehouseDelivered => false,
        TemplateMode::LogisticsStatusChanged | TemplateMode::PaymentReturned => true,
        _ => RequiredData::blob_ok(env.required_args) && other_ok(env),
    }
}

/// Which error the dispatcher reports when it produces no parameter set:
/// the unimplemented mode first, then the brand-identity blob, then the
/// mode's own blob.
pub open spec fn dispatch_err(env: EmailNotification) -> DispatchError {
    if env.template.mode == TemplateMode::WarehouseDelivered {
        DispatchError::Unimplemented
    } else if !RequiredData::blob_ok(env.required_args) {
        DispatchError::RequiredArgs
    } else {
        DispatchError::OtherArgs
    }
}

/// The parameter set carries the brand-identity fields other than
/// `brand_name` exactly as the brand blob holds them.
pub open spec fn required_params_match(req: Blob, p: Blob) -> bool {
    &&& p.get_str("banner"@) == req.get_str("banner"@)
    &&& p.get_str("homepage_link"@) == req.get_str("homepage_link"@)
    &&& p.get_str("facebook_link"@) == req.get_str("facebook_link"@)
    &&& p.get_str("instagram_link"@) == req.get_str("instagram_link"@)
}

/// Two product blobs carry the same product fields.
pub open spec fn product_blob_equiv(x: Blob, y: Blob) -> bool {
    &&& x.get_str("name"@) == y.get_str("name"@)
    &&& x.get_int("price"@) == y.get_int("price"@)
    &&& x.get_int("amount"@) == y.get_int("amount"@)
    &&& x.get_int("subtotal"@) == y.get_int("subtotal"@)
    &&& x.get_str("picture_url"@) == y.get_str("picture_url"@)
}

/// What the parameter set holds, mode by mode: every schema field of the
/// table, the brand identity, and for the order templates the creation
/// instant rendered in UTC+8 under `order_created_at`.
pub open spec fn params_match(env: EmailNotification, p: Blob) -> bool {
    let o = env.other_args;
    let req = env.required_args;
    match env.template.mode {
        TemplateMode::WarehouseDelivered => false,
        TemplateMode::LogisticsStatusChanged | TemplateMode::PaymentReturned => (p.fields@
            == o.fields@ + req.fields@),
        TemplateMode::CreateOrder => {
            &&& p.get_str("order_number"@) == o.get_str("order_number"@)
            &&& match o.get_int("order_created_at"@) {
                Some(t) => p.get_str("order_created_at"@) == Some(fmt_taipei(t as int)),
                None => false,
            }
            &&& p.get_str("customer_name"@) == o.get_str("customer_name"@)
            &&& p.get_str("brand_name"@) == req.get_str("brand_name"@)
            &&& required_params_match(req, p)
            &&& p.fields@.len() == 8
        },
        TemplateMode::AccountRegister => {
            &&& p.get_str("brand_name"@) == o.get_str("brand_name"@)
            &&& p.get_str("customer_name"@) == o.get_str("customer_name"@)
            &&& p.get_str("link"@) == o.get_str("link"@)
            &&& required_params_match(req, p)
            &&& p.fields@.len() == 8
        },
        TemplateMode::AccountForgotPassword => {
            &&& p.get_str("customer_name"@) == o.get_str("customer_name"@)
            &&& p.get_str("link"@) == o.get_str("link"@)
            &&& p.get_str("brand_name"@) == req.get_str("brand_name"@)
            &&& required_params_match(req, p)
            &&& p.fields@.len() == 7
        },
        TemplateMode::EarlyDelivery => {
            &&& p.get_str("customer_name"@) == o.get_str("customer_name"@)
            &&& p.get_str("order_number"@) == o.get_str("order_number"@)
            &&& p.get_str("brand_name"@) == req.get_str("brand_name"@)
            &&& required_params_match(req, p)
            &&& p.fields@.len() == 7
        },
        TemplateMode::ShippingInfo => {
            &&& p.get_str("customer_name"@) == o.get_str("customer_name"@)
            &&& p.get_str("order_number"@) == o.get_str("order_number"@)
            &&& p.get_str("package_numbers"@) == o.get_str("package_numbers"@)
            &&& p.get_str("logistics_type_name"@) == o.get_str("logistics_type_name"@)
            &&& p.get_str("brand_name"@) == req.get_str("brand_name"@)
            &&& required_params_match(req, p)
            &&& p.fields@.len() == 9
        },
        TemplateMode::CvsArriveInfo => {
            &&& p.get_str("customer_name"@) == o.get_str("customer_name"@)
            &&& p.get_str("order_number"@) == o.get_str("order_number"@)
            &&& p.get_str("branch_name"@) == o.get_str("branch_name"@)
            &&& p.get_str("addressee_name"@) == o.get_str("addressee_name"@)
            &&& p.get_str("package_number"@) == o.get_str("package_number"@)
            &&& p.get_str("brand_name"@) == req.get_str("brand_name"@)
            &&& required_params_match(req, p)
            &&& p.fields@.len() == 10
        },
        TemplateMode::CsatSurvey => {
            &&& p.get_str("customer_name"@) == o.get_str("customer_name"@)
            &&& p.get_str("order_number"@) == o.get_str("order_number"@)
            &&& p.get_str("link"@) == o.get_str("link"@)
            &&& p.get_str("brand_name"@) == req.get_str("brand_name"@)
            &&& required_params_match(req, p)
            &&& p.fields@.len() == 8
        },
        TemplateMode::NewCreateOrder => {
            &&& p.get_str("customer_name"@) == o.get_str("customer_name"@)
            &&& p.get_str("order_number"@) == o.get_str("order_number"@)
            &&& match (p.get_list("products"@), o.get_list("products"@)) {
                (Some(ps), Some(os)) => ps.len() == os.len() && forall|i: int|
                    0 <= i < ps.len() ==> product_blob_equiv(#[trigger] ps[i], os[i]),
                _ => false,
            }
            &&& p.get_int("products_subtotal"@) == o.get_int("products_subtotal"@)
            &&& p.get_int("promotion_discount"@) == o.get_int("promotion_discount"@)
            &&& p.get_int("delivery_fee"@) == o.get_int("delivery_fee"@)
            &&& p.get_int("total"@) == o.get_int("total"@)
            &&& match o.get_int("order_created_at"@) {
                Some(t) => p.get_str("order_created_at"@) == Some(fmt_taipei(t as int)),
                None => false,
            }
            &&& p.get_str("addressee_name"@) == o.get_str("addressee_name"@)
            &&& p.get_str("package_numbers"@) == o.get_str("package_numbers"@)
            &&& p.get_str("logistics_type_name"@) == o.get_str("logistics_type_name"@)
            &&& p.get_str("branch_name"@) == o.get_str("branch_name"@)
            &&& p.get_str("brand_name"@) == req.get_str("brand_name"@)
            &&& required_params_match(req, p)
            &&& p.fields@.len() == 17
        },
    }
}

/// The field names of the argument-schema table, mode by mode. The two
/// passthrough modes and the unimplemented mode list none of their own.
pub open spec fn schema_keys(m: TemplateMode) -> Seq<Seq<char>> {
    match m {
        TemplateMode::CreateOrder => seq!["order_number"@, "order_created_at"@, "customer_name"@],
        TemplateMode::WarehouseDelivered => seq![],
        TemplateMode::LogisticsStatusChanged => seq![],
        TemplateMode::PaymentReturned => seq![],
        TemplateMode::AccountRegister => seq!["brand_name"@, "customer_name"@, "link"@],
        TemplateMode::AccountForgotPassword => seq!["customer_name"@, "link"@],
        TemplateMode::EarlyDelivery => seq!["customer_name"@, "order_number"@],
        TemplateMode::ShippingInfo => seq![
            "customer_name"@,
            "order_number"@,
            "package_numbers"@,
            "logistics_type_name"@,
        ],
        TemplateMode::CvsArriveInfo => seq![
            "customer_name"@,
            "order_number"@,
            "branch_name"@,
            "addressee_name"@,
            "package_number"@,
        ],
        TemplateMode::CsatSurvey => seq!["customer_name"@, "order_number"@, "link"@],
        TemplateMode::NewCreateOrder => seq![
            "customer_name"@,
            "order_number"@,
            "products"@,
            "products_subtotal"@,
            "promotion_discount"@,
            "delivery_fee"@,
            "total"@,
            "order_created_at"@,
            "addressee_name"@,
            "package_numbers"@,
            "logistics_type_name"@,
            "branch_name"@,
        ],
    }
}

/// The brand-identity field names every notification carries.
pub open spec fn required_keys() -> Seq<Seq<char>> {
    seq!["brand_name"@, "banner"@, "homepage_link"@, "facebook_link"@, "instagram_link"@]
}

/// Completeness of the dispatch: a parameter set the dispatcher produced
/// holds every schema field of the envelope's mode and every brand-identity
/// field, with no omissions.
pub proof fn lemma_params_complete(env: EmailNotification, p: Blob)
    requires
        params_ok(env),
        RequiredData::blob_ok(env.required_args),
        params_match(env, p),
    ensures
        forall|i: int|
            0 <= i < schema_keys(env.template.mode).len() ==> p.spec_get(
                #[trigger] schema_keys(env.template.mode)[i],
            ) is Some,
        forall|i: int|
            0 <= i < required_keys().len() ==> p.spec_get(#[trigger] required_keys()[i]) is Some,
{
    match env.template.mode {
        TemplateMode::LogisticsStatusChanged | TemplateMode::PaymentReturned => {
            let o = env.other_args.fields@;
            let rq = env.required_args.fields@;
            crate::blob::lemma_lookup_append(o, rq, "brand_name"@);
            crate::blob::lemma_lookup_append(o, rq, "banner"@);
            crate::blob::lemma_lookup_append(o, rq, "homepage_link"@);
            crate::blob::lemma_lookup_append(o, rq, "facebook_link"@);
            crate::blob::lemma_lookup_append(o, rq, "instagram_link"@);
        },
        _ => {},
    }
}

/// Appends the five brand-identity parameters; existing parameters keep
/// priority under first-match lookup.
fn push_required(p: &mut Blob, d: RequiredData)
    ensures
        final(p).fields@.len() == old(p).fields@.len() + 5,
        forall|k: Seq<char>|
            old(p).spec_get(k) is Some ==> #[trigger] final(p).spec_get(k) == old(p).spec_get(k),
        old(p).spec_get("brand_name"@) is None ==> final(p).get_str("brand_name"@) == Some(
            d.brand_name@,
        ),
        old(p).spec_get("banner"@) is None ==> final(p).get_str("banner"@) == Some(d.banner@),
        old(p).spec_get("homepage_link"@) is None ==> final(p).get_str("homepage_link"@) == Some(
            d.homepage_link@,
        ),
        old(p).spec_get("facebook_link"@) is None ==> final(p).get_str("facebook_link"@) == Some(
            d.facebook_link@,
        ),
        old(p).spec_get("instagram_link"@) is None ==> final(p).get_str("instagram_link"@)
            == Some(d.instagram_link@),
{
    proof {
        lemma_arg_keys();
    }
    p.push("brand_name".to_owned(), FieldValue::Str(d.brand_name));
    p.push("banner".to_owned(), FieldValue::Str(d.banner));
    p.push("homepage_link".to_owned(), FieldValue::Str(d.homepage_link));
    p.push("facebook_link".to_owned(), FieldValue::Str(d.facebook_link));
    p.push("instagram_link".to_owned(), FieldValue::Str(d.instagram_link));
}

/// Assembles the provider parameter set for `env`, or says exactly why none
/// can be assembled.
pub fn build_params(env: EmailNotification) -> (r: Result<Blob, DispatchError>)
    ensures
        match r {
            Ok(p) => params_ok(env) && params_match(env, p),
            Err(e) => !params_ok(env) && e == dispatch_err(env),
        },
{
    proof {
        lemma_arg_keys();
    }
    match env.template.mode {
        TemplateMode::WarehouseDelivered => Err(DispatchError::Unimplemented),
        TemplateMode::LogisticsStatusChanged | TemplateMode::PaymentReturned => {
            let mut fields = env.other_args.fields;
            let mut req_fields = env.required_args.fields;
            fields.append(&mut req_fields);
            Ok(Blob { fields })
        },
        TemplateMode::CreateOrder => {
            let req = match RequiredData::decode(&env.required_args) {
                Ok(d) => d,
                Err(_) => {
                    return Err(DispatchError::RequiredArgs);
                },
            };
            let a = match CreateOrder::decode(&env.other_args) {
                Ok(a) => a,
                Err(_) => {
                    return Err(DispatchError::OtherArgs);
                },
            };
            let stamp = a.formatted_dt();
            let mut p = Blob::new();
            p.push("order_number".to_owned(), FieldValue::Str(a.order_number));
            p.push("order_created_at".to_owned(), FieldValue::Str(stamp));
            p.push("customer_name".to_owned(), FieldValue::Str(a.customer_name));
            push_required(&mut p, req);
            Ok(p)
        },
        TemplateMode::AccountRegister => {
            let req = match RequiredData::decode(&env.required_args) {
                Ok(d) => d,
                Err(_) => {
                    return Err(DispatchError::RequiredArgs);
                },
            };
            let a = match Signup::decode(&env.other_args) {
                Ok(a) => a,
                Err(_) => {
                    return Err(DispatchError::OtherArgs);
                },
            };
            let mut p = Blob::new();
            p.push("brand_name".to_owned(), FieldValue::Str(a.brand_name));
            p.push("customer_name".to_owned(), FieldValue::Str(a.customer_name));
            p.push("link".to_owned(), FieldValue::Str(a.link));
            push_required(&mut p, req);
            Ok(p)
        },
        TemplateMode::AccountForgotPassword => {
            let req = match RequiredData::decode(&env.required_args) {
                Ok(d) => d,
                Err(_) => {
                    return Err(DispatchError::RequiredArgs);
                },
            };
            let a = match ForgotPassword::decode(&env.other_args) {
                Ok(a) => a,
                Err(_) => {
                    return Err(DispatchError::OtherArgs);
                },
            };
            let mut p = Blob::new();
            p.push("customer_name".to_owned(), FieldValue::Str(a.customer_name));
            p.push("link".to_owned(), FieldValue::Str(a.link));
            push_required(&mut p, req);
            Ok(p)
        },
        TemplateMode::EarlyDelivery => {
            let req = match RequiredData::decode(&env.required_args) {
                Ok(d) => d,
                Err(_) => {
                    return Err(DispatchError::RequiredArgs);
                },
            };
            let a = match EarlyDelivery::decode(&env.other_args) {
                Ok(a) => a,
                Err(_) => {
                    return Err(DispatchError::OtherArgs);
                },
            };
            let mut p = Blob::new();
            p.push("customer_name".to_owned(), FieldValue::Str(a.customer_name));
            p.push("order_number".to_owned(), FieldValue::Str(a.order_number));
            push_required(&mut p, req);
            Ok(p)
        },
        TemplateMode::ShippingInfo => {
            let req = match RequiredData::decode(&env.required_args) {
                Ok(d) => d,
                Err(_) => {
                    return Err(DispatchError::RequiredArgs);
                },
            };
            let a = match ShippingInfo::decode(&env.other_args) {
                Ok(a) => a,
                Err(_) => {
                    return Err(DispatchError::OtherArgs);
                },
            };
            let mut p = Blob::new();
            p.push("customer_name".to_owned(), FieldValue::Str(a.customer_name));
            p.push("order_number".to_owned(), FieldValue::Str(a.order_number));
            p.push("package_numbers".to_owned(), FieldValue::Str(a.package_numbers));
            p.push("logistics_type_name".to_owned(), FieldValue::Str(a.logistics_type_name));
            push_required(&mut p, req);
            Ok(p)
        },
        TemplateMode::CvsArriveInfo => {
            let req = match RequiredData::decode(&env.required_args) {
                Ok(d) => d,
                Err(_) => {
                    return Err(DispatchError::RequiredArgs);
                },
            };
            let a = match CvsArriveInfo::decode(&env.other_args) {
                Ok(a) => a,
                Err(_) => {
                    return Err(DispatchError::OtherArgs);
                },
            };
            let mut p = Blob::new();
            p.push("customer_name".to_owned(), FieldValue::Str(a.customer_name));
            p.push("order_number".to_owned(), FieldValue::Str(a.order_number));
            p.push("branch_name".to_owned(), FieldValue::Str(a.branch_name));
            p.push("addressee_name".to_owned(), FieldValue::Str(a.addressee_name));
            p.push("package_number".to_owned(), FieldValue::Str(a.package_number));
            push_required(&mut p, req);
            Ok(p)
        },
        TemplateMode::CsatSurvey => {
            let req = match RequiredData::decode(&env.required_args) {
                Ok(d) => d,
                Err(_) => {
                    return Err(DispatchError::RequiredArgs);
                },
            };
            let a = match CsatSurvey::decode(&env.other_args) {
                Ok(a) => a,
                Err(_) => {
                    return Err(DispatchError::OtherArgs);
                },
            };
            let mut p = Blob::new();
            p.push("customer_name".to_owned(), FieldValue::Str(a.customer_name));
            p.push("order_number".to_owned(), FieldValue::Str(a.order_number));
            p.push("link".to_owned(), FieldValue::Str(a.link));
            push_required(&mut p, req);
            Ok(p)
        },
        TemplateMode::NewCreateOrder => {
            let req = match RequiredData::decode(&env.required_args) {
                Ok(d) => d,
                Err(_) => {
                    return Err(DispatchError::RequiredArgs);
                },
            };
            let a = match OrderContent::decode(&env.other_args) {
                Ok(a) => a,
                Err(_) => {
                    return Err(DispatchError::OtherArgs);
                },
            };
            let stamp = a.formatted_dt();
            let ghost products_ghost = a.products@;
            let mut product_blobs: Vec<Blob> = Vec::new();
            let products = a.products;
            let mut i: usize = 0;
            while i < products.len()
                invariant
                    i <= products@.len(),
                    products@ == products_ghost,
                    product_blobs@.len() == i,
                    forall|j: int|
                        0 <= j < i ==> Product::matches_blob(
                            products@[j],
                            #[trigger] product_blobs@[j],
                        ),
                decreases products@.len() - i,
            {
                product_blobs.push(products[i].encode());
                i = i + 1;
            }
            let mut p = Blob::new();
            p.push("customer_name".to_owned(), FieldValue::Str(a.customer_name));
            p.push("order_number".to_owned(), FieldValue::Str(a.order_number));
            p.push("products".to_owned(), FieldValue::List(product_blobs));
            p.push("products_subtotal".to_owned(), FieldValue::Int(a.products_subtotal));
            p.push("promotion_discount".to_owned(), FieldValue::Int(a.promotion_discount));
            p.push("delivery_fee".to_owned(), FieldValue::Int(a.delivery_fee));
            p.push("total".to_owned(), FieldValue::Int(a.total));
            p.push("order_created_at".to_owned(), FieldValue::Str(stamp));
            p.push("addressee_name".to_owned(), FieldValue::Str(a.addressee_name));
            p.push("package_numbers".to_owned(), FieldValue::Str(a.package_numbers));
            p.push("logistics_type_name".to_owned(), FieldValue::Str(a.logistics_type_name));
            p.push("branch_name".to_owned(), FieldValue::Str(a.branch_name));
            push_required(&mut p, req);
            proof {
                let os = env.other_args.get_list("products"@).unwrap();
                let ps = p.get_list("products"@).unwrap();
                assert forall|j: int| 0 <= j < ps.len() implies product_blob_equiv(
                    #[trigger] ps[j],
                    os[j],
                ) by {
                    assert(Product::matches_blob(products_ghost[j], product_blobs@[j]));
                    assert(Product::matches_blob(products_ghost[j], os[j]));
                }
            }
            Ok(p)
        },
    }
}

} // verus!
