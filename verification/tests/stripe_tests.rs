use storm_backend::stripe::errors::{PaymentInfoParsingError, WebhookProcessingError};
use storm_backend::stripe::product::Product;
use storm_backend::stripe::signature::signature_timestamp_is_stale;
use storm_backend::stripe::shipping::{
    Address, CheckoutAddressDetails, ShippingDetails, ShippingMethod,
};
use storm_backend::stripe::{
    payment_info_from_event, CheckoutSessionData, CustomerDetails, PaymentInfo,
    StripeWebhookHandler, WebhookEvent,
};
use storm_backend::utils::{amount_to_string, str_eq, to_ascii_uppercase};

const ALL_METHODS: [ShippingMethod; 6] = [
    ShippingMethod::InPerson,
    ShippingMethod::FranceStandard,
    ShippingMethod::FranceTracking,
    ShippingMethod::FranceExpressTracking,
    ShippingMethod::International,
    ShippingMethod::InternationalTracking,
];

fn address() -> CheckoutAddressDetails {
    CheckoutAddressDetails {
        name: "Jeanne Martin".to_string(),
        address: Address {
            city: Some("Annecy".to_string()),
            country: Some("FR".to_string()),
            line1: Some("1 rue du Lac".to_string()),
            line2: None,
            postal_code: Some("74000".to_string()),
            state: None,
        },
    }
}

fn session() -> CheckoutSessionData {
    CheckoutSessionData {
        id: "cs_test_123".to_string(),
        currency: Some("eur".to_string()),
        amount_total: Some(24990),
        customer_details: Some(CustomerDetails {
            name: Some("Jeanne Martin".to_string()),
            email: Some("jeanne@example.com".to_string()),
        }),
        client_reference_id: Some("visitor-42".to_string()),
        shipping_rate: Some("shr_1TiyIfPB7bMAkkZ4CTkSVxKw".to_string()),
        shipping_details: Some(address()),
        line_item_products: Some(vec![
            Some("prod_Tx78EpjfgGBXBY".to_string()),
            Some("prod_UeYkOsu0lehYzY".to_string()),
        ]),
    }
}

fn missing_field(r: Result<PaymentInfo, PaymentInfoParsingError>) -> &'static str {
    match r {
        Err(PaymentInfoParsingError::MissingField(f)) => f,
        other => panic!("expected a missing field, got {:?}", other),
    }
}

#[test]
fn product_ids_are_read() {
    assert!(matches!(Product::from_str("prod_Tx78EpjfgGBXBY"), Ok(Product::Storm)));
    assert!(matches!(Product::from_str("prod_UeYnwJRcC0Bdjd"), Ok(Product::ChargingCable)));
    assert!(matches!(Product::from_str("prod_UeYkOsu0lehYzY"), Ok(Product::Velcro)));
    match Product::from_str("prod_unknown") {
        Err(PaymentInfoParsingError::UnknownProduct(s)) => assert_eq!(s, "prod_unknown"),
        other => panic!("unexpected {:?}", other),
    }
}

#[test]
fn product_round_trip_and_labels() {
    for p in [Product::Storm, Product::ChargingCable, Product::Velcro] {
        assert_eq!(Product::from_str(p.stripe_id()).unwrap(), p);
    }
    assert_eq!(Product::Storm.to_string(), "Vario STORM");
    assert_eq!(Product::ChargingCable.to_string(), "Câble de charge USB-C");
    assert_eq!(Product::Velcro.to_string(), "Option velcro extra");
}

#[test]
fn shipping_ids_are_read() {
    assert_eq!(ShippingMethod::from_str("shr_1Tiu9nPB7bMAkkZ4zSCGHOUr").unwrap(), ShippingMethod::InPerson);
    assert_eq!(ShippingMethod::from_str("shr_1TiyHqPB7bMAkkZ4ndxsCgTc").unwrap(), ShippingMethod::FranceStandard);
    assert_eq!(ShippingMethod::from_str("shr_1TiyIfPB7bMAkkZ4CTkSVxKw").unwrap(), ShippingMethod::FranceTracking);
    assert_eq!(ShippingMethod::from_str("shr_1UDJy1PB7bMAkkZ4nTNP2cTe").unwrap(), ShippingMethod::FranceTracking);
    assert_eq!(ShippingMethod::from_str("shr_1TiyJFPB7bMAkkZ4XEZdfomw").unwrap(), ShippingMethod::FranceExpressTracking);
    assert_eq!(ShippingMethod::from_str("shr_1TiyJpPB7bMAkkZ4LdAkJKwu").unwrap(), ShippingMethod::International);
    assert_eq!(ShippingMethod::from_str("shr_1TiyKOPB7bMAkkZ4k81e2V4f").unwrap(), ShippingMethod::InternationalTracking);
    match ShippingMethod::from_str("shr_other") {
        Err(PaymentInfoParsingError::UnknownShippingRate(s)) => assert_eq!(s, "shr_other"),
        other => panic!("unexpected {:?}", other),
    }
}

#[test]
fn shipping_round_trip_labels_and_names() {
    for m in ALL_METHODS {
        assert_eq!(ShippingMethod::from_str(m.stripe_id()).unwrap(), m);
        assert_eq!(m.variant_name(), format!("{:?}", m));
    }
    assert_eq!(ShippingMethod::InPerson.stripe_id(), "shr_1Tiu9nPB7bMAkkZ4zSCGHOUr");
    assert_eq!(ShippingMethod::InPerson.to_string(), "Remise en main propre");
    assert_eq!(ShippingMethod::FranceStandard.to_string(), "France standard");
    assert_eq!(ShippingMethod::FranceTracking.to_string(), "France suivi");
    assert_eq!(ShippingMethod::FranceExpressTracking.to_string(), "France express + suivi");
    assert_eq!(ShippingMethod::International.to_string(), "Hors France");
    assert_eq!(ShippingMethod::InternationalTracking.to_string(), "Hors France + suivi");
}

#[test]
fn shipping_details_come_from_the_address() {
    let d = ShippingDetails::try_from(address()).unwrap();
    assert_eq!(d.name, "Jeanne Martin");
    assert_eq!(d.city.as_deref(), Some("Annecy"));
    assert_eq!(d.country.as_deref(), Some("FR"));
    assert_eq!(d.line1.as_deref(), Some("1 rue du Lac"));
    assert_eq!(d.line2, None);
    assert_eq!(d.postal_code.as_deref(), Some("74000"));
    assert_eq!(d.state, None);
}

#[test]
fn text_helpers() {
    assert_eq!(amount_to_string(1234), "12.34");
    assert_eq!(amount_to_string(5), "0.05");
    assert_eq!(amount_to_string(0), "0.00");
    assert_eq!(amount_to_string(100), "1.00");
    assert_eq!(amount_to_string(-5), "-0.05");
    assert_eq!(amount_to_string(-123456), "-1234.56");
    assert_eq!(amount_to_string(i64::MIN), "-92233720368547758.08");
    assert_eq!(amount_to_string(i64::MAX), "92233720368547758.07");
    assert_eq!(to_ascii_uppercase("eur"), "EUR");
    assert_eq!(to_ascii_uppercase("Usd-é"), "USD-é");
    assert!(str_eq("abc", "abc"));
    assert!(!str_eq("abc", "abd"));
}

#[test]
fn a_complete_session_is_a_payment() {
    let info = PaymentInfo::try_from(session()).unwrap();
    assert_eq!(info.payment_id, "cs_test_123");
    assert_eq!(info.revenue_cents, 24990);
    assert_eq!(info.currency, "EUR");
    assert_eq!(info.customer_name, "Jeanne Martin");
    assert_eq!(info.customer_email, "jeanne@example.com");
    assert_eq!(info.analytics_id.as_deref(), Some("visitor-42"));
    assert_eq!(info.shipping_method, ShippingMethod::FranceTracking);
    assert_eq!(info.shipping_details.name, "Jeanne Martin");
    assert_eq!(info.shipping_details.postal_code.as_deref(), Some("74000"));
    assert_eq!(info.products, vec![Product::Storm, Product::Velcro]);
}

#[test]
fn usd_is_taken_and_upper_cased() {
    let mut s = session();
    s.currency = Some("usd".to_string());
    s.client_reference_id = None;
    let info = PaymentInfo::try_from(s).unwrap();
    assert_eq!(info.currency, "USD");
    assert_eq!(info.analytics_id, None);
}

#[test]
fn missing_fields_are_reported_in_order() {
    let mut s = session();
    s.currency = None;
    s.amount_total = None;
    assert_eq!(missing_field(PaymentInfo::try_from(s)), "currency");

    let mut s = session();
    s.amount_total = None;
    s.currency = Some("gbp".to_string());
    assert_eq!(missing_field(PaymentInfo::try_from(s)), "amount_total");

    let mut s = session();
    s.customer_details = None;
    assert_eq!(missing_field(PaymentInfo::try_from(s)), "customer_details");

    let mut s = session();
    s.customer_details = Some(CustomerDetails { name: None, email: None });
    assert_eq!(missing_field(PaymentInfo::try_from(s)), "customer_details.name");

    let mut s = session();
    s.customer_details = Some(CustomerDetails { name: Some("A".to_string()), email: None });
    assert_eq!(missing_field(PaymentInfo::try_from(s)), "customer_details.email");

    let mut s = session();
    s.shipping_rate = None;
    assert_eq!(missing_field(PaymentInfo::try_from(s)), "shipping_cost.shipping_rate");

    let mut s = session();
    s.shipping_details = None;
    assert_eq!(missing_field(PaymentInfo::try_from(s)), "collected_information.shipping_details");

    let mut s = session();
    s.line_item_products = None;
    assert_eq!(missing_field(PaymentInfo::try_from(s)), "line_items");

    let mut s = session();
    s.line_item_products = Some(vec![Some("prod_Tx78EpjfgGBXBY".to_string()), None]);
    assert_eq!(missing_field(PaymentInfo::try_from(s)), "line_items.price");
}

#[test]
fn unhandled_currency_is_refused() {
    let mut s = session();
    s.currency = Some("gbp".to_string());
    match PaymentInfo::try_from(s) {
        Err(PaymentInfoParsingError::UnhandledCurrency(c)) => assert_eq!(c, "GBP"),
        other => panic!("unexpected {:?}", other),
    }
}

#[test]
fn unknown_rate_and_product_are_refused() {
    let mut s = session();
    s.shipping_rate = Some("shr_nope".to_string());
    match PaymentInfo::try_from(s) {
        Err(PaymentInfoParsingError::UnknownShippingRate(r)) => assert_eq!(r, "shr_nope"),
        other => panic!("unexpected {:?}", other),
    }
    let mut s = session();
    s.line_item_products = Some(vec![
        Some("prod_Tx78EpjfgGBXBY".to_string()),
        Some("prod_first_unknown".to_string()),
        Some("prod_second_unknown".to_string()),
    ]);
    match PaymentInfo::try_from(s) {
        Err(PaymentInfoParsingError::UnknownProduct(p)) => assert_eq!(p, "prod_first_unknown"),
        other => panic!("unexpected {:?}", other),
    }
}

#[test]
fn an_empty_order_has_no_products() {
    let mut s = session();
    s.line_item_products = Some(vec![]);
    assert!(PaymentInfo::try_from(s).unwrap().products.is_empty());
}

#[test]
fn webhook_outcomes() {
    assert!(matches!(payment_info_from_event(None), Err(WebhookProcessingError::InvalidSignature)));
    match payment_info_from_event(Some(WebhookEvent::Other("invoice.paid".to_string()))) {
        Err(WebhookProcessingError::UnhandledEvent(t)) => assert_eq!(t, "invoice.paid"),
        other => panic!("unexpected {:?}", other),
    }
    let mut s = session();
    s.currency = None;
    assert!(matches!(
        payment_info_from_event(Some(WebhookEvent::CheckoutSessionCompleted(s))),
        Err(WebhookProcessingError::ParseError(PaymentInfoParsingError::MissingField("currency")))
    ));
    let info = payment_info_from_event(Some(WebhookEvent::CheckoutSessionCompleted(session()))).unwrap();
    assert_eq!(info.payment_id, "cs_test_123");
}

const EVENT_PAYLOAD: &str = r#"{
    "id": "evt_test",
    "object": "event",
    "api_version": "2017-05-25",
    "created": 1492774577,
    "livemode": false,
    "pending_webhooks": 1,
    "data": {
        "object": {
            "object": "bank_account",
            "country": "us",
            "currency": "usd",
            "id": "ba_test",
            "last4": "6789",
            "status": "verified"
        }
    },
    "type": "account.external_account.created"
}"#;

const SIGNED_AT: i64 = 1_492_774_577;
const NOW: i64 = SIGNED_AT + 60;

#[test]
fn a_signed_webhook_is_accepted_only_near_its_time() {
    let handler = StripeWebhookHandler::from_env("whsec_test_secret".to_string());
    let header = stripe_webhook::Webhook::generate_test_header(EVENT_PAYLOAD, "whsec_test_secret", Some(SIGNED_AT));
    assert!(matches!(
        handler.get_payment_info(Some(&header), EVENT_PAYLOAD, SIGNED_AT + 300),
        Err(WebhookProcessingError::UnhandledEvent(_))
    ));
    assert!(matches!(
        handler.get_payment_info(Some(&header), EVENT_PAYLOAD, SIGNED_AT + 301),
        Err(WebhookProcessingError::InvalidSignature)
    ));
    assert!(matches!(
        handler.get_payment_info(Some(&header), EVENT_PAYLOAD, SIGNED_AT - 301),
        Err(WebhookProcessingError::InvalidSignature)
    ));
}

#[test]
fn a_timestamp_far_from_now_is_refused_without_panic() {
    let handler = StripeWebhookHandler::from_env("whsec_test_secret".to_string());
    for header in [
        "t=-9223372036854775808,v1=00",
        "t=9223372036854775807,v1=00",
        "t=99999999999999999999999,v1=00",
    ] {
        assert!(matches!(
            handler.get_payment_info(Some(header), EVENT_PAYLOAD, NOW),
            Err(WebhookProcessingError::InvalidSignature)
        ));
        assert!(matches!(
            handler.get_payment_info(Some(header), EVENT_PAYLOAD, i64::MAX),
            Err(WebhookProcessingError::InvalidSignature)
        ));
    }
}

#[test]
fn signature_timestamps_are_read_from_the_last_t_item() {
    assert!(!signature_timestamp_is_stale("t=1000,v1=ab", 1200));
    assert!(!signature_timestamp_is_stale("t=1000,v1=ab", 1300));
    assert!(signature_timestamp_is_stale("t=1000,v1=ab", 1301));
    assert!(signature_timestamp_is_stale("t=1000,v1=ab", 699));
    assert!(!signature_timestamp_is_stale("t=5,v1=ab,t=1000", 1000));
    assert!(signature_timestamp_is_stale("t=1000,v1=ab,t=5", 1000));
    assert!(!signature_timestamp_is_stale("t=+1000,v1=ab", 1000));
    assert!(signature_timestamp_is_stale("t=-1000,v1=ab", 1000));
    assert!(!signature_timestamp_is_stale("t=abc,v1=ab", 1000));
    assert!(!signature_timestamp_is_stale("v1=ab", 1000));
    assert!(!signature_timestamp_is_stale("", 1000));
    assert!(!signature_timestamp_is_stale("tt=5,v1=ab", 1000));
    assert!(signature_timestamp_is_stale("t=-9223372036854775808,v1=00", 0));
    assert!(signature_timestamp_is_stale("t=123456789012345678901234567890", i64::MIN));
}

#[test]
fn webhook_without_signature_is_refused() {
    let handler = StripeWebhookHandler::from_env("whsec_test_secret".to_string());
    assert!(matches!(
        handler.get_payment_info(None, EVENT_PAYLOAD, NOW),
        Err(WebhookProcessingError::MissingSignatureHeader)
    ));
}

#[test]
fn webhook_with_a_bad_signature_is_refused() {
    let handler = StripeWebhookHandler::from_env("whsec_test_secret".to_string());
    let header = stripe_webhook::Webhook::generate_test_header(EVENT_PAYLOAD, "another_secret", Some(SIGNED_AT));
    assert!(matches!(
        handler.get_payment_info(Some(&header), EVENT_PAYLOAD, NOW),
        Err(WebhookProcessingError::InvalidSignature)
    ));
    assert!(matches!(
        handler.get_payment_info(Some("t=1,v1=00"), EVENT_PAYLOAD, NOW),
        Err(WebhookProcessingError::InvalidSignature)
    ));
}

#[test]
fn signed_webhook_of_another_event_is_unhandled() {
    let handler = StripeWebhookHandler::from_env("whsec_test_secret".to_string());
    let header = stripe_webhook::Webhook::generate_test_header(EVENT_PAYLOAD, "whsec_test_secret", Some(SIGNED_AT));
    match handler.get_payment_info(Some(&header), EVENT_PAYLOAD, NOW) {
        Err(WebhookProcessingError::UnhandledEvent(t)) => assert_eq!(t, "account.external_account.created"),
        other => panic!("unexpected {:?}", other),
    }
}

#[test]
fn error_messages() {
    assert_eq!(PaymentInfoParsingError::MissingField("currency").message(), "missing field: currency");
    assert_eq!(PaymentInfoParsingError::UnhandledCurrency("GBP".to_string()).message(), "unhandled currency: GBP");
    assert_eq!(PaymentInfoParsingError::UnknownShippingRate("shr_x".to_string()).message(), "unknown shipping rate id: shr_x");
    assert_eq!(PaymentInfoParsingError::UnknownProduct("prod_x".to_string()).message(), "unknown product id: prod_x");
    assert_eq!(WebhookProcessingError::MissingSignatureHeader.message(), "missing signature header");
    assert_eq!(WebhookProcessingError::InvalidPayload.message(), "invalid payload");
    assert_eq!(WebhookProcessingError::InvalidSignature.message(), "invalid signature");
    assert_eq!(WebhookProcessingError::UnhandledEvent("invoice.paid".to_string()).message(), "unhandled event type: invoice.paid");
    assert_eq!(
        WebhookProcessingError::ParseError(PaymentInfoParsingError::MissingField("amount_total")).message(),
        "failed to build PaymentInfo from CheckoutSession: missing field: amount_total"
    );
    assert_eq!(WebhookProcessingError::Stripe("rate limited".to_string()).message(), "stripe api error: rate limited");
}
