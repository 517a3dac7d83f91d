use storm_backend::db::models::{NewOrderProduct, OrderOrigin, OrderStatus};
use storm_backend::db::{DbError, DbRequest, InsertAction, InsertPaymentError, InsertStep, PaymentInsertion};
use storm_backend::routes::{first_stage, next_stage, PaymentPipelineError, PipelineAction, PipelineStage};
use storm_backend::services::analytics::checkout_completed_event;
use storm_backend::services::discord::{checkout_completed_message, new_order_message, MEME_URLS};
use storm_backend::services::mailer::{checkout_confirmation, confirmation_message, MailerError};
use storm_backend::stripe::errors::{PaymentInfoParsingError, WebhookProcessingError};
use storm_backend::stripe::product::Product;
use storm_backend::stripe::shipping::{ShippingDetails, ShippingMethod};
use storm_backend::stripe::{PaymentInfo, StripeWebhookHandler};

fn payment(products: Vec<Product>, method: ShippingMethod) -> PaymentInfo {
    PaymentInfo {
        payment_id: "cs_test_1".to_string(),
        revenue_cents: 19900,
        currency: "EUR".to_string(),
        customer_name: "Paul".to_string(),
        customer_email: "paul@example.com".to_string(),
        analytics_id: Some("visitor-7".to_string()),
        shipping_method: method,
        shipping_details: ShippingDetails {
            name: "Paul".to_string(),
            city: Some("Lyon".to_string()),
            country: Some("FR".to_string()),
            line1: None,
            line2: None,
            postal_code: None,
            state: None,
        },
        products,
    }
}

fn address_error() -> lettre::address::AddressError {
    "not an address".parse::<lettre::message::Mailbox>().unwrap_err()
}

fn request(a: InsertAction) -> DbRequest {
    match a {
        InsertAction::Request(r) => r,
        InsertAction::Finish(f) => panic!("finished early: {:?}", f),
    }
}

fn finish(a: InsertAction) -> Result<(), InsertPaymentError> {
    match a {
        InsertAction::Finish(f) => f,
        InsertAction::Request(r) => panic!("unexpected request {:?}", r),
    }
}

#[test]
fn new_payment_is_recorded_in_one_transaction() {
    let (mut m, first) = PaymentInsertion::new(payment(vec![Product::Storm, Product::ChargingCable], ShippingMethod::InPerson));
    assert!(matches!(first, DbRequest::StartTransaction));
    match request(m.advance(Ok(0))) {
        DbRequest::FindOrderByPaymentId(id) => assert_eq!(id, "cs_test_1"),
        r => panic!("unexpected {:?}", r),
    }
    match request(m.advance(Err(DbError::RecordNotFound))) {
        DbRequest::FindCustomerByEmail(e) => assert_eq!(e, "paul@example.com"),
        r => panic!("unexpected {:?}", r),
    }
    match request(m.advance(Ok(11))) {
        DbRequest::FindShippingMethod(s) => assert_eq!(s, "shr_1Tiu9nPB7bMAkkZ4zSCGHOUr"),
        r => panic!("unexpected {:?}", r),
    }
    match request(m.advance(Ok(3))) {
        DbRequest::CreateOrder(o) => {
            assert_eq!(o.stripe_payment_id, "cs_test_1");
            assert_eq!(o.amount_cents, 19900);
            assert_eq!(o.status, OrderStatus::Ordered);
            assert_eq!(o.origin, OrderOrigin::Stripe);
            assert_eq!(o.customer_id, 11);
            assert_eq!(o.shipping_method_id, 3);
            assert_eq!(o.shipping.city.as_deref(), Some("Lyon"));
        }
        r => panic!("unexpected {:?}", r),
    }
    match request(m.advance(Ok(500))) {
        DbRequest::FindProduct(s) => assert_eq!(s, "prod_Tx78EpjfgGBXBY"),
        r => panic!("unexpected {:?}", r),
    }
    match request(m.advance(Ok(21))) {
        DbRequest::CreateOrderProduct(op) => assert_eq!(op, NewOrderProduct { order_id: 500, product_id: 21 }),
        r => panic!("unexpected {:?}", r),
    }
    match request(m.advance(Ok(1))) {
        DbRequest::FindProduct(s) => assert_eq!(s, "prod_UeYnwJRcC0Bdjd"),
        r => panic!("unexpected {:?}", r),
    }
    match request(m.advance(Ok(22))) {
        DbRequest::CreateOrderProduct(op) => assert_eq!(op, NewOrderProduct { order_id: 500, product_id: 22 }),
        r => panic!("unexpected {:?}", r),
    }
    assert!(matches!(request(m.advance(Ok(2))), DbRequest::Commit));
    assert_eq!(m.step(), InsertStep::AwaitCommit);
    assert!(finish(m.advance(Ok(0))).is_ok());
    assert!(m.is_finished());
}

#[test]
fn unknown_customer_is_created() {
    let (mut m, _) = PaymentInsertion::new(payment(vec![], ShippingMethod::FranceStandard));
    request(m.advance(Ok(0)));
    request(m.advance(Err(DbError::Other)));
    match request(m.advance(Err(DbError::RecordNotFound))) {
        DbRequest::CreateCustomer(c) => {
            assert_eq!(c.name, "Paul");
            assert_eq!(c.email, "paul@example.com");
        }
        r => panic!("unexpected {:?}", r),
    }
    match request(m.advance(Ok(77))) {
        DbRequest::FindShippingMethod(s) => assert_eq!(s, "shr_1TiyHqPB7bMAkkZ4ndxsCgTc"),
        r => panic!("unexpected {:?}", r),
    }
    match request(m.advance(Ok(4))) {
        DbRequest::CreateOrder(o) => assert_eq!(o.customer_id, 77),
        r => panic!("unexpected {:?}", r),
    }
    assert!(matches!(request(m.advance(Ok(9))), DbRequest::Commit));
    assert!(finish(m.advance(Ok(0))).is_ok());
}

#[test]
fn recorded_payment_is_refused() {
    let (mut m, _) = PaymentInsertion::new(payment(vec![Product::Storm], ShippingMethod::InPerson));
    request(m.advance(Ok(0)));
    assert!(matches!(finish(m.advance(Ok(123))), Err(InsertPaymentError::AlreadyExists)));
    assert!(m.is_finished());
}

#[test]
fn each_failure_has_its_error() {
    let p = || payment(vec![Product::Velcro], ShippingMethod::International);

    let (mut m, _) = PaymentInsertion::new(p());
    assert!(matches!(finish(m.advance(Err(DbError::Other))), Err(InsertPaymentError::StartTx)));

    let (mut m, _) = PaymentInsertion::new(p());
    request(m.advance(Ok(0)));
    request(m.advance(Err(DbError::RecordNotFound)));
    assert!(matches!(finish(m.advance(Err(DbError::Other))), Err(InsertPaymentError::QueryCustomer)));

    let (mut m, _) = PaymentInsertion::new(p());
    request(m.advance(Ok(0)));
    request(m.advance(Err(DbError::RecordNotFound)));
    request(m.advance(Err(DbError::RecordNotFound)));
    assert!(matches!(finish(m.advance(Err(DbError::Other))), Err(InsertPaymentError::CreateCustomer)));

    let (mut m, _) = PaymentInsertion::new(p());
    request(m.advance(Ok(0)));
    request(m.advance(Err(DbError::RecordNotFound)));
    request(m.advance(Ok(1)));
    match finish(m.advance(Err(DbError::RecordNotFound))) {
        Err(InsertPaymentError::ShippingMethodNotFound(s)) => assert_eq!(s, "shr_1TiyJpPB7bMAkkZ4LdAkJKwu"),
        other => panic!("unexpected {:?}", other),
    }

    let (mut m, _) = PaymentInsertion::new(p());
    request(m.advance(Ok(0)));
    request(m.advance(Err(DbError::RecordNotFound)));
    request(m.advance(Ok(1)));
    request(m.advance(Ok(2)));
    assert!(matches!(finish(m.advance(Err(DbError::Other))), Err(InsertPaymentError::CreateOrder)));

    let (mut m, _) = PaymentInsertion::new(p());
    request(m.advance(Ok(0)));
    request(m.advance(Err(DbError::RecordNotFound)));
    request(m.advance(Ok(1)));
    request(m.advance(Ok(2)));
    request(m.advance(Ok(3)));
    match finish(m.advance(Err(DbError::RecordNotFound))) {
        Err(InsertPaymentError::ProductNotFound(s)) => assert_eq!(s, "prod_UeYkOsu0lehYzY"),
        other => panic!("unexpected {:?}", other),
    }

    let (mut m, _) = PaymentInsertion::new(p());
    request(m.advance(Ok(0)));
    request(m.advance(Err(DbError::RecordNotFound)));
    request(m.advance(Ok(1)));
    request(m.advance(Ok(2)));
    request(m.advance(Ok(3)));
    request(m.advance(Ok(4)));
    assert!(matches!(finish(m.advance(Err(DbError::Other))), Err(InsertPaymentError::CreateOrderProduct)));

    let (mut m, _) = PaymentInsertion::new(p());
    request(m.advance(Ok(0)));
    request(m.advance(Err(DbError::RecordNotFound)));
    request(m.advance(Ok(1)));
    request(m.advance(Ok(2)));
    request(m.advance(Ok(3)));
    request(m.advance(Ok(4)));
    request(m.advance(Ok(5)));
    assert!(matches!(finish(m.advance(Err(DbError::Other))), Err(InsertPaymentError::CommitTx)));
}

#[test]
fn status_codes() {
    let s = |e: PaymentPipelineError| e.status_code();
    assert_eq!(s(PaymentPipelineError::Stripe(WebhookProcessingError::MissingSignatureHeader)), 400);
    assert_eq!(s(PaymentPipelineError::Stripe(WebhookProcessingError::InvalidPayload)), 400);
    assert_eq!(s(PaymentPipelineError::Stripe(WebhookProcessingError::ParseError(PaymentInfoParsingError::MissingField("currency")))), 400);
    assert_eq!(s(PaymentPipelineError::Stripe(WebhookProcessingError::InvalidSignature)), 401);
    assert_eq!(s(PaymentPipelineError::Stripe(WebhookProcessingError::UnhandledEvent("x".to_string()))), 404);
    assert_eq!(s(PaymentPipelineError::Stripe(WebhookProcessingError::Stripe("x".to_string()))), 500);
    assert_eq!(s(PaymentPipelineError::Database(InsertPaymentError::AlreadyExists)), 200);
    assert_eq!(s(PaymentPipelineError::Database(InsertPaymentError::ProductNotFound("p".to_string()))), 404);
    assert_eq!(s(PaymentPipelineError::Database(InsertPaymentError::ShippingMethodNotFound("s".to_string()))), 404);
    for e in [
        InsertPaymentError::StartTx,
        InsertPaymentError::CommitTx,
        InsertPaymentError::CreateOrder,
        InsertPaymentError::QueryCustomer,
        InsertPaymentError::CreateCustomer,
        InsertPaymentError::CreateOrderProduct,
    ] {
        assert_eq!(s(PaymentPipelineError::Database(e)), 500);
    }
    assert_eq!(s(PaymentPipelineError::Mailer(MailerError::Parse(address_error()))), 200);
    assert_eq!(s(PaymentPipelineError::Discord("timeout".to_string())), 200);
}

#[test]
fn pipeline_runs_stages_in_order() {
    assert!(matches!(first_stage(), PipelineAction::Run(PipelineStage::RecordPayment)));
    assert!(matches!(next_stage(PipelineStage::RecordPayment, Ok(())), PipelineAction::Run(PipelineStage::SendConfirmation)));
    assert!(matches!(next_stage(PipelineStage::SendConfirmation, Ok(())), PipelineAction::Run(PipelineStage::SendAnalytics)));
    assert!(matches!(next_stage(PipelineStage::SendAnalytics, Ok(())), PipelineAction::Run(PipelineStage::NotifyDiscord)));
    assert!(matches!(next_stage(PipelineStage::NotifyDiscord, Ok(())), PipelineAction::Succeed));
}

#[test]
fn pipeline_stops_at_the_first_failure() {
    assert!(matches!(
        next_stage(PipelineStage::RecordPayment, Err(PaymentPipelineError::Database(InsertPaymentError::AlreadyExists))),
        PipelineAction::ReportAndFail(PaymentPipelineError::Database(InsertPaymentError::AlreadyExists))
    ));
    assert!(matches!(
        next_stage(PipelineStage::SendConfirmation, Err(PaymentPipelineError::Mailer(MailerError::Parse(address_error())))),
        PipelineAction::ReportAndFail(PaymentPipelineError::Mailer(_))
    ));
    assert!(matches!(
        next_stage(PipelineStage::SendAnalytics, Err(PaymentPipelineError::Discord("x".to_string()))),
        PipelineAction::Run(PipelineStage::NotifyDiscord)
    ));
    assert!(matches!(
        next_stage(PipelineStage::NotifyDiscord, Err(PaymentPipelineError::Discord("x".to_string()))),
        PipelineAction::ReportAndFail(PaymentPipelineError::Discord(_))
    ));
}

#[test]
fn confirmation_emails_follow_the_shipping_method() {
    let e = checkout_confirmation("shop@storm.fr", &payment(vec![], ShippingMethod::InPerson));
    assert_eq!(e.to, "paul@example.com");
    assert_eq!(e.subject, "Votre STORM est prêt, à vous de jouer 🪂");
    assert_eq!(
        e.body,
        "\nBonjour Paul,\n\nVotre commande a bien été reçue et votre paiement confirmé, merci pour votre confiance !\n\nVous avez choisi la remise en main propre. Pour convenir d'un rendez-vous, contactez-nous directement à shop@storm.fr en précisant vos disponibilités.\n\nÀ très vite sur le terrain,\nL'équipe STORM Gear\n                "
    );
    for m in [ShippingMethod::FranceStandard, ShippingMethod::International] {
        let e = checkout_confirmation("shop@storm.fr", &payment(vec![], m));
        assert_eq!(e.subject, "Votre STORM est en route ✈️");
        assert_eq!(
            e.body,
            "\nBonjour Paul,\n\nVotre commande a bien été reçue et votre paiement confirmé, merci pour votre confiance !\n\nVotre variomètre STORM est en cours de préparation. Vous recevrez un email dès qu'il sera expédié.\n\nSi vous avez la moindre question d'ici là, n'hésitez pas à nous écrire à shop@storm.fr.\n\nBons vols,\nL'équipe STORM Gear\n        "
        );
    }
    for m in [ShippingMethod::FranceTracking, ShippingMethod::FranceExpressTracking, ShippingMethod::InternationalTracking] {
        let e = checkout_confirmation("shop@storm.fr", &payment(vec![], m));
        assert_eq!(e.subject, "Votre STORM est en route ✈️");
        assert!(e.body.contains("Vous recevrez un email de suivi dès qu'il sera expédié."));
        assert!(e.body.ends_with("L'équipe STORM Gear\n                "));
    }
}

#[test]
fn analytics_event_carries_the_payment() {
    let info = payment(vec![], ShippingMethod::InPerson);
    let r = checkout_completed_event("site-1", &info);
    assert_eq!(r.kind, "event");
    assert_eq!(r.payload.website, "site-1");
    assert_eq!(r.payload.name, "checkout-completed");
    assert_eq!(r.payload.data.revenue_cents, 19900);
    assert_eq!(r.payload.data.currency, "EUR");
    assert_eq!(r.payload.data.customer_name, "Paul");
    assert_eq!(r.payload.data.customer_email, "paul@example.com");
    assert_eq!(r.payload.id.as_deref(), Some("visitor-7"));
    let mut anonymous = info.clone();
    anonymous.analytics_id = None;
    assert_eq!(checkout_completed_event("site-1", &anonymous).payload.id, None);
}

#[test]
fn discord_message_shows_amount_and_shipping() {
    let info = payment(vec![], ShippingMethod::FranceExpressTracking);
    let m = new_order_message(&info, "https://example.com/a.gif");
    assert_eq!(m.embeds.len(), 1);
    let e = &m.embeds[0];
    assert_eq!(e.color, 0x451bea);
    assert_eq!(e.title, "🪂 Nouvelle commande !");
    assert_eq!(e.image_url, "https://example.com/a.gif");
    assert_eq!(e.fields.len(), 2);
    assert_eq!(e.fields[0].name, "💶  Montant");
    assert_eq!(e.fields[0].value, "199.00 EUR");
    assert!(!e.fields[0].inline);
    assert_eq!(e.fields[1].name, "📦  Mode de livraison");
    assert_eq!(e.fields[1].value, "France express + suivi");
    assert!(!e.fields[1].inline);
}

#[test]
fn discord_message_picks_a_meme() {
    let info = payment(vec![], ShippingMethod::InPerson);
    for _ in 0..20 {
        let m = checkout_completed_message(&info);
        assert!(MEME_URLS.contains(&m.embeds[0].image_url.as_str()));
        assert_eq!(m.embeds[0].fields[1].value, "Remise en main propre");
    }
}

#[test]
fn confirmation_message_is_addressed_to_the_customer() {
    let info = payment(vec![], ShippingMethod::FranceTracking);
    let message = confirmation_message("STORM Gear <shop@storm.fr>", &info, 1_700_000_000).unwrap().unwrap();
    assert_eq!(message.from, "STORM Gear <shop@storm.fr>");
    assert_eq!(message.to, "paul@example.com");
    let text = String::from_utf8(message.bytes.clone()).unwrap();
    assert!(text.contains("To: paul@example.com"));
    assert!(text.contains("From: \"STORM Gear\" <shop@storm.fr>") || text.contains("From: STORM Gear <shop@storm.fr>"));
    assert!(text.contains("Date: Tue, 14 Nov 2023 22:13:20 +0000"));
    assert!(text.contains("Bonjour Paul,"));
    let again = confirmation_message("STORM Gear <shop@storm.fr>", &info, 1_700_000_000).unwrap().unwrap();
    assert_eq!(again.bytes, message.bytes);
}

#[test]
fn confirmation_message_refuses_bad_addresses() {
    let mut info = payment(vec![], ShippingMethod::InPerson);
    assert!(confirmation_message("not an address", &info, 0).is_none());
    info.customer_email = "nobody".to_string();
    assert!(matches!(confirmation_message("shop@storm.fr", &info, 0), Some(Err(MailerError::Parse(_)))));
}

#[test]
fn confirmation_message_that_lettre_cannot_build() {
    let mut info = payment(vec![], ShippingMethod::InPerson);
    info.customer_email = "\"\\\"a b\\\"\"@example.com".to_string();
    assert!(matches!(confirmation_message("shop@storm.fr", &info, 0), Some(Err(MailerError::Build(_)))));
}

/// Runs a recording against an in-memory store of order payment ids.
fn record(p: PaymentInfo, orders: &mut Vec<String>, writes: &mut usize) -> Result<(), InsertPaymentError> {
    let (mut m, mut next) = PaymentInsertion::new(p);
    let mut pending: Vec<String> = Vec::new();
    loop {
        let reply = match &next {
            DbRequest::FindOrderByPaymentId(id) => {
                if orders.contains(id) { Ok(1) } else { Err(DbError::RecordNotFound) }
            }
            DbRequest::CreateOrder(o) => {
                pending.push(o.stripe_payment_id.clone());
                Ok(1)
            }
            DbRequest::CreateCustomer(_) | DbRequest::CreateOrderProduct(_) => {
                *writes += 1;
                Ok(1)
            }
            DbRequest::Commit => {
                orders.append(&mut pending);
                Ok(0)
            }
            _ => Ok(1),
        };
        match m.advance(reply) {
            InsertAction::Request(r) => next = r,
            InsertAction::Finish(outcome) => return outcome,
        }
    }
}

#[test]
fn replayed_payment_is_refused_and_writes_nothing() {
    let mut orders = Vec::new();
    let mut writes = 0;
    let p = payment(vec![Product::Storm, Product::Velcro], ShippingMethod::FranceStandard);
    assert!(record(p.clone(), &mut orders, &mut writes).is_ok());
    assert_eq!(orders, vec!["cs_test_1".to_string()]);
    let after_first = writes;
    assert!(matches!(record(p, &mut orders, &mut writes), Err(InsertPaymentError::AlreadyExists)));
    assert_eq!(orders.len(), 1);
    assert_eq!(writes, after_first);
}

const CHECKOUT_PAYLOAD: &str = r#"{
  "id": "evt_checkout_1",
  "object": "event",
  "api_version": "2017-05-25",
  "created": 1700000000,
  "livemode": false,
  "pending_webhooks": 1,
  "type": "checkout.session.completed",
  "data": {
    "object": {
      "id": "cs_test_webhook",
      "object": "checkout.session",
      "amount_total": 19900,
      "automatic_tax": { "enabled": false },
      "client_reference_id": "visitor-42",
      "collected_information": {
        "shipping_details": {
          "name": "Jeanne Martin",
          "address": { "city": "Annecy", "country": "FR", "line1": "1 rue du Lac", "line2": null, "postal_code": "74000", "state": null }
        }
      },
      "created": 1700000000,
      "currency": "eur",
      "custom_fields": [],
      "custom_text": {},
      "customer_details": { "name": "Jeanne Martin", "email": "jeanne@example.com" },
      "expires_at": 1700086400,
      "line_items": {
        "object": "list",
        "has_more": false,
        "url": "/v1/checkout/sessions/cs_test_webhook/line_items",
        "data": [
          {
            "id": "li_1",
            "object": "item",
            "amount_discount": 0,
            "amount_subtotal": 19000,
            "amount_tax": 0,
            "amount_total": 19000,
            "currency": "eur",
            "price": {
              "id": "price_1",
              "object": "price",
              "active": true,
              "billing_scheme": "per_unit",
              "created": 1700000000,
              "currency": "eur",
              "livemode": false,
              "metadata": {},
              "product": "prod_Tx78EpjfgGBXBY",
              "type": "one_time"
            },
            "quantity": 1
          }
        ]
      },
      "livemode": false,
      "mode": "payment",
      "payment_method_types": ["card"],
      "payment_status": "paid",
      "shipping_cost": { "amount_subtotal": 900, "amount_tax": 0, "amount_total": 900, "shipping_rate": "shr_1TiyHqPB7bMAkkZ4ndxsCgTc" },
      "shipping_options": [],
      "status": "complete"
    }
  }
}"#;

#[test]
fn signed_checkout_webhook_gives_its_payment_and_is_recorded_once() {
    let handler = StripeWebhookHandler::from_env("whsec_test_secret".to_string());
    let signed_at = 1_700_000_000;
    let header = stripe_webhook::Webhook::generate_test_header(CHECKOUT_PAYLOAD, "whsec_test_secret", Some(signed_at));
    let info = handler.get_payment_info(Some(&header), CHECKOUT_PAYLOAD, signed_at + 5).unwrap();
    assert_eq!(info.payment_id, "cs_test_webhook");
    assert_eq!(info.revenue_cents, 19900);
    assert_eq!(info.currency, "EUR");
    assert_eq!(info.customer_name, "Jeanne Martin");
    assert_eq!(info.customer_email, "jeanne@example.com");
    assert_eq!(info.analytics_id.as_deref(), Some("visitor-42"));
    assert_eq!(info.shipping_method, ShippingMethod::FranceStandard);
    assert_eq!(info.shipping_details.name, "Jeanne Martin");
    assert_eq!(info.shipping_details.city.as_deref(), Some("Annecy"));
    assert_eq!(info.shipping_details.postal_code.as_deref(), Some("74000"));
    assert_eq!(info.products, vec![Product::Storm]);

    // The same payload with another secret is refused.
    let other = StripeWebhookHandler::from_env("whsec_other".to_string());
    assert!(matches!(
        other.get_payment_info(Some(&header), CHECKOUT_PAYLOAD, signed_at + 5),
        Err(WebhookProcessingError::InvalidSignature)
    ));

    // A second delivery, signed later, gives the same payment, whose recording is refused.
    let later = signed_at + 3600;
    let header2 = stripe_webhook::Webhook::generate_test_header(CHECKOUT_PAYLOAD, "whsec_test_secret", Some(later));
    let again = handler.get_payment_info(Some(&header2), CHECKOUT_PAYLOAD, later).unwrap();
    assert_eq!(again.payment_id, info.payment_id);
    let mut orders = Vec::new();
    let mut writes = 0;
    assert!(record(info, &mut orders, &mut writes).is_ok());
    let after_first = writes;
    let refused = record(again, &mut orders, &mut writes).unwrap_err();
    assert!(matches!(refused, InsertPaymentError::AlreadyExists));
    assert_eq!(orders.len(), 1);
    assert_eq!(writes, after_first);
    assert_eq!(PaymentPipelineError::Database(refused).status_code(), 200);
}
