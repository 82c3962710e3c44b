//! Dispatcher and delivery-planner tests: the parameter set of every mode,
//! the UTC+8 timestamp rendering, the error taxonomy, and the
//! acknowledgment policy.

use haku::args::CreateOrder;
use haku::args::CsatSurvey;
use haku::args::CvsArriveInfo;
use haku::args::EarlyDelivery;
use haku::args::ForgotPassword;
use haku::args::OrderContent;
use haku::args::Product;
use haku::args::RequiredData;
use haku::args::ShippingInfo;
use haku::args::Signup;
use haku::blob::Blob;
use haku::blob::FieldValue;
use haku::body::EmailNotification;
use haku::deliver::plan_delivery;
use haku::deliver::should_ack;
use haku::deliver::DeliveryPlan;
use haku::deliver::DiscardReason;
use haku::dispatch::build_params;
use haku::errors::DispatchError;
use haku::modes::TemplateMode;

fn s(x: &str) -> String {
    x.to_string()
}

fn str_param(p: &Blob, key: &str) -> String {
    p.get_str_field(key)
        .unwrap_or_else(|| panic!("missing string parameter {key}"))
}

fn required_blob() -> Blob {
    RequiredData {
        brand_name: s("Acme"),
        banner: s("https://cdn/banner.png"),
        homepage_link: s("https://acme.example"),
        facebook_link: s("https://fb/acme"),
        instagram_link: s("https://ig/acme"),
    }
    .encode()
}

fn envelope(mode: TemplateMode, other: Blob) -> EmailNotification {
    EmailNotification::builder()
        .brand_id(7)
        .template_id(42)
        .template_mode(mode)
        .template_subject(s("Hello"))
        .customer_email(s("alice@example.com"))
        .customer_name(s("Alice"))
        .sender_id(3)
        .sender_name(s("Acme Store"))
        .sender_email(s("noreply@acme.example"))
        .required_args(required_blob())
        .other_args(other)
        .created_at(1704067200)
        .create()
}

fn assert_brand_params(p: &Blob) {
    assert_eq!(str_param(p, "banner"), "https://cdn/banner.png");
    assert_eq!(str_param(p, "homepage_link"), "https://acme.example");
    assert_eq!(str_param(p, "facebook_link"), "https://fb/acme");
    assert_eq!(str_param(p, "instagram_link"), "https://ig/acme");
}

#[test]
fn create_order_params_carry_every_field() {
    let other = CreateOrder {
        order_number: s("A-1001"),
        order_created_at: 1704067200,
        customer_name: s("Alice"),
    }
    .encode();
    let p = build_params(envelope(TemplateMode::CreateOrder, other)).unwrap();
    assert_eq!(str_param(&p, "order_number"), "A-1001");
    assert_eq!(str_param(&p, "customer_name"), "Alice");
    assert_eq!(str_param(&p, "order_created_at"), "2024-01-01 08:00:00");
    assert_eq!(str_param(&p, "brand_name"), "Acme");
    assert_brand_params(&p);
}

#[test]
fn new_create_order_params_carry_every_field() {
    let other = OrderContent {
        customer_name: s("Alice"),
        order_number: s("A-1001"),
        products: vec![Product {
            name: s("Widget"),
            price: 250,
            amount: 2,
            subtotal: 500,
            picture_url: s("https://cdn/w.png"),
        }],
        products_subtotal: 500,
        promotion_discount: -50,
        delivery_fee: 60,
        total: 510,
        order_created_at: 1704067200,
        addressee_name: s("Alice A."),
        package_numbers: s("PKG-1"),
        logistics_type_name: s("cvs"),
        branch_name: s("Main St"),
    }
    .encode();
    let p = build_params(envelope(TemplateMode::NewCreateOrder, other)).unwrap();
    assert_eq!(str_param(&p, "customer_name"), "Alice");
    assert_eq!(str_param(&p, "order_number"), "A-1001");
    assert_eq!(str_param(&p, "order_created_at"), "2024-01-01 08:00:00");
    assert_eq!(p.get_int_field("products_subtotal"), Some(500));
    assert_eq!(p.get_int_field("promotion_discount"), Some(-50));
    assert_eq!(p.get_int_field("delivery_fee"), Some(60));
    assert_eq!(p.get_int_field("total"), Some(510));
    assert_eq!(str_param(&p, "addressee_name"), "Alice A.");
    assert_eq!(str_param(&p, "package_numbers"), "PKG-1");
    assert_eq!(str_param(&p, "logistics_type_name"), "cvs");
    assert_eq!(str_param(&p, "branch_name"), "Main St");
    assert_eq!(str_param(&p, "brand_name"), "Acme");
    assert_brand_params(&p);
    let products = p.get_list_field("products").expect("products param must be a list");
    assert_eq!(products.len(), 1);
    assert_eq!(products[0].get_str_field("name"), Some(s("Widget")));
    assert_eq!(products[0].get_int_field("price"), Some(250));
    assert_eq!(products[0].get_int_field("amount"), Some(2));
    assert_eq!(products[0].get_int_field("subtotal"), Some(500));
    assert_eq!(products[0].get_str_field("picture_url"), Some(s("https://cdn/w.png")));
}

#[test]
fn signup_params_carry_every_field() {
    let other = Signup {
        brand_name: s("Acme Club"),
        customer_name: s("Bob"),
        link: s("https://x/verify"),
    }
    .encode();
    let p = build_params(envelope(TemplateMode::AccountRegister, other)).unwrap();
    // The mode's own brand_name takes precedence over the brand identity.
    assert_eq!(str_param(&p, "brand_name"), "Acme Club");
    assert_eq!(str_param(&p, "customer_name"), "Bob");
    assert_eq!(str_param(&p, "link"), "https://x/verify");
    assert_brand_params(&p);
}

#[test]
fn forgot_password_params_carry_every_field() {
    let other = ForgotPassword { customer_name: s("Alice"), link: s("https://x/reset") }.encode();
    let p = build_params(envelope(TemplateMode::AccountForgotPassword, other)).unwrap();
    assert_eq!(str_param(&p, "customer_name"), "Alice");
    assert_eq!(str_param(&p, "link"), "https://x/reset");
    assert_eq!(str_param(&p, "brand_name"), "Acme");
    assert_brand_params(&p);
}

#[test]
fn early_delivery_params_carry_every_field() {
    let other = EarlyDelivery { customer_name: s("Eve"), order_number: s("B-7") }.encode();
    let p = build_params(envelope(TemplateMode::EarlyDelivery, other)).unwrap();
    assert_eq!(str_param(&p, "customer_name"), "Eve");
    assert_eq!(str_param(&p, "order_number"), "B-7");
    assert_eq!(str_param(&p, "brand_name"), "Acme");
    assert_brand_params(&p);
}

#[test]
fn shipping_info_params_carry_every_field() {
    let other = ShippingInfo {
        customer_name: s("Eve"),
        order_number: s("B-7"),
        package_numbers: s("PKG-1,PKG-2"),
        logistics_type_name: s("home"),
    }
    .encode();
    let p = build_params(envelope(TemplateMode::ShippingInfo, other)).unwrap();
    assert_eq!(str_param(&p, "customer_name"), "Eve");
    assert_eq!(str_param(&p, "order_number"), "B-7");
    assert_eq!(str_param(&p, "package_numbers"), "PKG-1,PKG-2");
    assert_eq!(str_param(&p, "logistics_type_name"), "home");
    assert_eq!(str_param(&p, "brand_name"), "Acme");
    assert_brand_params(&p);
}

#[test]
fn cvs_arrive_info_params_carry_every_field() {
    let other = CvsArriveInfo {
        customer_name: s("Eve"),
        order_number: s("B-7"),
        branch_name: s("Main St"),
        addressee_name: s("Eve A."),
        package_number: s("PKG-9"),
    }
    .encode();
    let p = build_params(envelope(TemplateMode::CvsArriveInfo, other)).unwrap();
    assert_eq!(str_param(&p, "customer_name"), "Eve");
    assert_eq!(str_param(&p, "order_number"), "B-7");
    assert_eq!(str_param(&p, "branch_name"), "Main St");
    assert_eq!(str_param(&p, "addressee_name"), "Eve A.");
    assert_eq!(str_param(&p, "package_number"), "PKG-9");
    assert_eq!(str_param(&p, "brand_name"), "Acme");
    assert_brand_params(&p);
}

#[test]
fn csat_survey_params_carry_every_field() {
    let other = CsatSurvey {
        customer_name: s("Eve"),
        order_number: s("B-7"),
        link: s("https://x/survey"),
    }
    .encode();
    let p = build_params(envelope(TemplateMode::CsatSurvey, other)).unwrap();
    assert_eq!(str_param(&p, "customer_name"), "Eve");
    assert_eq!(str_param(&p, "order_number"), "B-7");
    assert_eq!(str_param(&p, "link"), "https://x/survey");
    assert_eq!(str_param(&p, "brand_name"), "Acme");
    assert_brand_params(&p);
}

#[test]
fn passthrough_modes_forward_both_blobs() {
    for mode in [TemplateMode::LogisticsStatusChanged, TemplateMode::PaymentReturned] {
        let mut other = Blob::new();
        other.push(s("anything"), FieldValue::Str(s("goes")));
        other.push(s("count"), FieldValue::Int(3));
        let p = build_params(envelope(mode, other)).unwrap();
        assert_eq!(str_param(&p, "anything"), "goes");
        assert_eq!(p.get_int_field("count"), Some(3));
        assert_eq!(str_param(&p, "brand_name"), "Acme");
        assert_brand_params(&p);
        assert_eq!(p.fields.len(), 7);
    }
}

#[test]
fn passthrough_mode_arguments_take_precedence() {
    let mut other = Blob::new();
    other.push(s("brand_name"), FieldValue::Str(s("Override")));
    let p = build_params(envelope(TemplateMode::LogisticsStatusChanged, other)).unwrap();
    assert_eq!(str_param(&p, "brand_name"), "Override");
}

#[test]
fn warehouse_delivered_is_a_distinct_fatal_error() {
    let r = build_params(envelope(TemplateMode::WarehouseDelivered, Blob::new()));
    assert_eq!(r.err(), Some(DispatchError::Unimplemented));

    // Distinct from a decode failure of the same envelope shape.
    let r2 = build_params(envelope(TemplateMode::CreateOrder, Blob::new()));
    assert_eq!(r2.err(), Some(DispatchError::OtherArgs));
}

#[test]
fn bad_required_args_are_reported_first() {
    let mut env = envelope(
        TemplateMode::AccountForgotPassword,
        ForgotPassword { customer_name: s("Alice"), link: s("https://x/reset") }.encode(),
    );
    env.required_args = Blob::new();
    let r = build_params(env);
    assert_eq!(r.err(), Some(DispatchError::RequiredArgs));
}

#[test]
fn forgot_password_delivery_scenario() {
    let other = ForgotPassword { customer_name: s("Alice"), link: s("https://x/reset") }.encode();
    let env = envelope(TemplateMode::AccountForgotPassword, other);
    let plan = plan_delivery(Some(env));
    match plan {
        DeliveryPlan::Send(ref q) => {
            assert_eq!(q.to_name, "Alice");
            assert_eq!(q.to_email, "alice@example.com");
            assert_eq!(q.sender_name, "Acme Store");
            assert_eq!(q.sender_email, "noreply@acme.example");
            assert_eq!(q.reply_to_name, "Acme Store");
            assert_eq!(q.reply_to_email, "noreply@acme.example");
            assert_eq!(q.template_id, 42);
            assert_eq!(q.subject, "Hello");
            assert_eq!(str_param(&q.params, "customer_name"), "Alice");
            assert_eq!(str_param(&q.params, "link"), "https://x/reset");
            assert_eq!(str_param(&q.params, "brand_name"), "Acme");
            assert_brand_params(&q.params);
            assert_eq!(q.params.fields.len(), 7);
        },
        other => panic!("expected a send plan, got {other:?}"),
    }
    // Acknowledged regardless of how the provider call turns out.
    assert!(should_ack(&plan));
}

#[test]
fn delivery_planner_error_paths() {
    // No envelope at all: discarded, still acknowledged.
    let p0 = plan_delivery(None);
    assert!(matches!(p0, DeliveryPlan::Discard(DiscardReason::BadEnvelope)));
    assert!(should_ack(&p0));

    // Bad mode arguments: discarded, still acknowledged.
    let p1 = plan_delivery(Some(envelope(TemplateMode::CreateOrder, Blob::new())));
    assert!(matches!(p1, DeliveryPlan::Discard(DiscardReason::BadOtherArgs)));
    assert!(should_ack(&p1));

    // Bad brand identity: discarded, still acknowledged.
    let mut env = envelope(
        TemplateMode::CsatSurvey,
        CsatSurvey { customer_name: s("Eve"), order_number: s("B-7"), link: s("https://x") }
            .encode(),
    );
    env.required_args = Blob::new();
    let p2 = plan_delivery(Some(env));
    assert!(matches!(p2, DeliveryPlan::Discard(DiscardReason::BadRequiredArgs)));
    assert!(should_ack(&p2));

    // The unimplemented mode: fatal, never acknowledged, never a Discard.
    let p3 = plan_delivery(Some(envelope(TemplateMode::WarehouseDelivered, Blob::new())));
    assert!(matches!(p3, DeliveryPlan::Fatal));
    assert!(!should_ack(&p3));
}
