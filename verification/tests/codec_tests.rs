//! Blob codec tests: round trips for every schema, mismatched-schema decode
//! failures, and the mode tag wire codec.

use haku::args::CreateOrder;
use haku::args::CsatSurvey;
use haku::args::CvsArriveInfo;
use haku::args::EarlyDelivery;
use haku::args::ForgotPassword;
use haku::args::OrderContent;
use haku::args::Product;
use haku::args::RequiredData;
use haku::args::ShippingInfo;
use haku::args::Signup;
use haku::blob::Blob;
use haku::blob::FieldValue;
use haku::modes::TemplateMode;

fn s(x: &str) -> String {
    x.to_string()
}

fn sample_required() -> RequiredData {
    RequiredData {
        brand_name: s("Acme"),
        banner: s("https://cdn/banner.png"),
        homepage_link: s("https://acme.example"),
        facebook_link: s("https://fb/acme"),
        instagram_link: s("https://ig/acme"),
    }
}

#[test]
fn required_data_roundtrip() {
    let a = sample_required();
    let b = a.encode();
    let d = RequiredData::decode(&b).expect("well-formed blob must decode");
    assert_eq!(d.brand_name, "Acme");
    assert_eq!(d.banner, "https://cdn/banner.png");
    assert_eq!(d.homepage_link, "https://acme.example");
    assert_eq!(d.facebook_link, "https://fb/acme");
    assert_eq!(d.instagram_link, "https://ig/acme");
}

#[test]
fn create_order_roundtrip() {
    let a = CreateOrder {
        order_number: s("A-1001"),
        order_created_at: 1704067200,
        customer_name: s("Alice"),
    };
    let b = a.encode();
    let d = CreateOrder::decode(&b).expect("well-formed blob must decode");
    assert_eq!(d.order_number, "A-1001");
    assert_eq!(d.order_created_at, 1704067200);
    assert_eq!(d.customer_name, "Alice");
}

#[test]
fn signup_roundtrip() {
    let a = Signup { brand_name: s("Acme"), customer_name: s("Bob"), link: s("https://x/verify") };
    let b = a.encode();
    let d = Signup::decode(&b).unwrap();
    assert_eq!(d.brand_name, "Acme");
    assert_eq!(d.customer_name, "Bob");
    assert_eq!(d.link, "https://x/verify");
}

#[test]
fn forgot_password_roundtrip() {
    let a = ForgotPassword { customer_name: s("Alice"), link: s("https://x/reset") };
    let b = a.encode();
    let d = ForgotPassword::decode(&b).unwrap();
    assert_eq!(d.customer_name, "Alice");
    assert_eq!(d.link, "https://x/reset");
}

#[test]
fn early_delivery_roundtrip() {
    let a = EarlyDelivery { customer_name: s("Eve"), order_number: s("B-7") };
    let b = a.encode();
    let d = EarlyDelivery::decode(&b).unwrap();
    assert_eq!(d.customer_name, "Eve");
    assert_eq!(d.order_number, "B-7");
}

#[test]
fn shipping_info_roundtrip() {
    let a = ShippingInfo {
        customer_name: s("Eve"),
        order_number: s("B-7"),
        package_numbers: s("PKG-1,PKG-2"),
        logistics_type_name: s("home"),
    };
    let b = a.encode();
    let d = ShippingInfo::decode(&b).unwrap();
    assert_eq!(d.customer_name, "Eve");
    assert_eq!(d.order_number, "B-7");
    assert_eq!(d.package_numbers, "PKG-1,PKG-2");
    assert_eq!(d.logistics_type_name, "home");
}

#[test]
fn cvs_arrive_info_roundtrip() {
    let a = CvsArriveInfo {
        customer_name: s("Eve"),
        order_number: s("B-7"),
        branch_name: s("Main St"),
        addressee_name: s("Eve A."),
        package_number: s("PKG-9"),
    };
    let b = a.encode();
    let d = CvsArriveInfo::decode(&b).unwrap();
    assert_eq!(d.customer_name, "Eve");
    assert_eq!(d.order_number, "B-7");
    assert_eq!(d.branch_name, "Main St");
    assert_eq!(d.addressee_name, "Eve A.");
    assert_eq!(d.package_number, "PKG-9");
}

#[test]
fn csat_survey_roundtrip() {
    let a = CsatSurvey { customer_name: s("Eve"), order_number: s("B-7"), link: s("https://x/s") };
    let b = a.encode();
    let d = CsatSurvey::decode(&b).unwrap();
    assert_eq!(d.customer_name, "Eve");
    assert_eq!(d.order_number, "B-7");
    assert_eq!(d.link, "https://x/s");
}

fn sample_products() -> Vec<Product> {
    vec![
        Product {
            name: s("Widget"),
            price: 250,
            amount: 2,
            subtotal: 500,
            picture_url: s("https://cdn/w.png"),
        },
        Product {
            name: s("Gadget"),
            price: 1000,
            amount: 1,
            subtotal: 1000,
            picture_url: s("https://cdn/g.png"),
        },
    ]
}

#[test]
fn order_content_roundtrip() {
    let a = OrderContent {
        customer_name: s("Alice"),
        order_number: s("A-1001"),
        products: sample_products(),
        products_subtotal: 1500,
        promotion_discount: -100,
        delivery_fee: 60,
        total: 1460,
        order_created_at: 1704067200,
        addressee_name: s("Alice A."),
        package_numbers: s("PKG-1"),
        logistics_type_name: s("cvs"),
        branch_name: s("Main St"),
    };
    let b = a.encode();
    let d = OrderContent::decode(&b).unwrap();
    assert_eq!(d.customer_name, "Alice");
    assert_eq!(d.order_number, "A-1001");
    assert_eq!(d.products.len(), 2);
    assert_eq!(d.products[0].name, "Widget");
    assert_eq!(d.products[0].price, 250);
    assert_eq!(d.products[0].amount, 2);
    assert_eq!(d.products[0].subtotal, 500);
    assert_eq!(d.products[0].picture_url, "https://cdn/w.png");
    assert_eq!(d.products[1].name, "Gadget");
    assert_eq!(d.products_subtotal, 1500);
    assert_eq!(d.promotion_discount, -100);
    assert_eq!(d.delivery_fee, 60);
    assert_eq!(d.total, 1460);
    assert_eq!(d.order_created_at, 1704067200);
    assert_eq!(d.addressee_name, "Alice A.");
    assert_eq!(d.package_numbers, "PKG-1");
    assert_eq!(d.logistics_type_name, "cvs");
    assert_eq!(d.branch_name, "Main St");
}

#[test]
fn mismatched_schema_is_a_decode_error() {
    // ShippingInfo fields decoded against CreateOrder's schema: no
    // order_created_at field, so the decode fails without crashing.
    let shipping = ShippingInfo {
        customer_name: s("Eve"),
        order_number: s("B-7"),
        package_numbers: s("PKG-1"),
        logistics_type_name: s("home"),
    }
    .encode();
    assert!(CreateOrder::decode(&shipping).is_err());

    // And the other way: CreateOrder fields lack package_numbers.
    let create = CreateOrder {
        order_number: s("A-1"),
        order_created_at: 0,
        customer_name: s("Alice"),
    }
    .encode();
    assert!(ShippingInfo::decode(&create).is_err());
}

#[test]
fn wrong_field_kind_is_a_decode_error() {
    let mut b = Blob::new();
    b.push(s("customer_name"), FieldValue::Int(5));
    b.push(s("link"), FieldValue::Str(s("https://x")));
    assert!(ForgotPassword::decode(&b).is_err());
}

#[test]
fn out_of_range_timestamp_is_a_decode_error() {
    let mut b = CreateOrder { order_number: s("A"), order_created_at: 0, customer_name: s("C") }
        .encode();
    assert!(CreateOrder::decode(&b).is_ok());
    b = Blob::new();
    b.push(s("order_number"), FieldValue::Str(s("A")));
    b.push(s("order_created_at"), FieldValue::Int(-1));
    b.push(s("customer_name"), FieldValue::Str(s("C")));
    assert!(CreateOrder::decode(&b).is_err());
    b = Blob::new();
    b.push(s("order_number"), FieldValue::Str(s("A")));
    b.push(s("order_created_at"), FieldValue::Int(i64::MAX));
    b.push(s("customer_name"), FieldValue::Str(s("C")));
    assert!(CreateOrder::decode(&b).is_err());
}

#[test]
fn duplicate_field_names_resolve_to_the_first() {
    let mut b = Blob::new();
    b.push(s("customer_name"), FieldValue::Str(s("first")));
    b.push(s("customer_name"), FieldValue::Str(s("second")));
    b.push(s("link"), FieldValue::Str(s("https://x")));
    let d = ForgotPassword::decode(&b).unwrap();
    assert_eq!(d.customer_name, "first");
}

#[test]
fn mode_tags_roundtrip() {
    let modes = [
        TemplateMode::CreateOrder,
        TemplateMode::WarehouseDelivered,
        TemplateMode::LogisticsStatusChanged,
        TemplateMode::PaymentReturned,
        TemplateMode::AccountRegister,
        TemplateMode::AccountForgotPassword,
        TemplateMode::EarlyDelivery,
        TemplateMode::ShippingInfo,
        TemplateMode::CvsArriveInfo,
        TemplateMode::CsatSurvey,
        TemplateMode::NewCreateOrder,
    ];
    for m in modes {
        let parsed = TemplateMode::parse_tag(&m.tag().to_string());
        assert_eq!(parsed, Some(m));
    }
    assert_eq!(TemplateMode::parse_tag(&s("create_order")), Some(TemplateMode::CreateOrder));
    assert_eq!(TemplateMode::parse_tag(&s("CreateOrder")), None);
    assert_eq!(TemplateMode::parse_tag(&s("")), None);
}
