//! Stripe webhooks: the shop's products and shipping rates, and the
//! reading of a completed checkout session as a payment.
use vstd::prelude::*;

pub mod errors;
pub mod product;
pub mod shipping;
pub mod signature;

use crate::utils::{ascii_upper, str_eq, to_ascii_uppercase};
use errors::{ParseErrorView, PaymentInfoParsingError, WebhookErrorView, WebhookProcessingError};
use product::{lemma_product_id_unique, product_from_stripe_id, product_stripe_id, Product};
use stripe_webhook::{EventObject, Webhook};
use signature::{signature_timestamp, signature_timestamp_is_stale, timestamp_is_stale};
use shipping::{
    shipping_details_of, shipping_from_stripe_id, CheckoutAddressDetails, ShippingDetails,
    ShippingMethod,
};

verus! {

/// Checks the webhooks that Stripe sends with the endpoint's signing secret.
pub struct StripeWebhookHandler {
    secret: String,
}

/// A completed payment, as the rest of the backend needs it.
#[derive(Debug, Clone)]
pub struct PaymentInfo {
    /// The id of the Stripe checkout session that was paid.
    pub payment_id: String,
    /// The amount paid, in minor units of the currency (cents).
    pub revenue_cents: i64,
    /// The currency's ISO code in upper case: `USD` or `EUR`.
    pub currency: String,
    pub customer_name: String,
    pub customer_email: String,
    /// The analytics visitor id that the shop page passed to Stripe.
    pub analytics_id: Option<String>,
    pub shipping_method: ShippingMethod,
    pub shipping_details: ShippingDetails,
    pub products: Vec<Product>,
}

/// The customer's name and e-mail as a checkout session collected them.
#[derive(Debug, Clone)]
pub struct CustomerDetails {
    pub name: Option<String>,
    pub email: Option<String>,
}

/// What the backend reads of a Stripe checkout session.
#[derive(Debug, Clone)]
pub struct CheckoutSessionData {
    /// The session's id.
    pub id: String,
    /// The currency's ISO code as Stripe writes it (lower case).
    pub currency: Option<String>,
    /// The total, in minor units of the currency.
    pub amount_total: Option<i64>,
    pub customer_details: Option<CustomerDetails>,
    /// The reference that the shop page attached to the session.
    pub client_reference_id: Option<String>,
    /// The id of the chosen shipping rate.
    pub shipping_rate: Option<String>,
    /// The shipping name and address collected.
    pub shipping_details: Option<CheckoutAddressDetails>,
    /// For each line item, the Stripe id of its price's product, when the
    /// session carries its line items.
    pub line_item_products: Option<Vec<Option<String>>>,
}

/// The event that a verified webhook carries, as far as the backend reads it.
#[derive(Debug, Clone)]
pub enum WebhookEvent {
    /// A checkout session was completed.
    CheckoutSessionCompleted(CheckoutSessionData),
    /// Any other event; it holds the event type.
    Other(String),
}

/// The currencies the shop takes.
pub open spec fn handled_currency(code: Seq<char>) -> bool {
    code == "USD"@ || code == "EUR"@
}

/// The products that a sequence of line-item product ids names, or the
/// first entry that names none (`None` for an item without a price).
pub open spec fn products_of(ids: Seq<Option<Seq<char>>>) -> Result<Seq<Product>, Option<Seq<char>>>
    decreases ids.len(),
{
    if ids.len() == 0 {
        Ok(Seq::empty())
    } else {
        match products_of(ids.drop_last()) {
            Err(e) => Err(e),
            Ok(ps) => match ids.last() {
                None => Err(None),
                Some(id) => match product_from_stripe_id(id) {
                    Some(p) => Ok(ps.push(p)),
                    None => Err(Some(id)),
                },
            },
        }
    }
}

/// The line-item product ids of a session as plain values.
pub open spec fn line_item_ids(v: Vec<Option<String>>) -> Seq<Option<Seq<char>>> {
    v@.map_values(|o: Option<String>| match o {
        Some(s) => Some(s@),
        None => None,
    })
}

/// Why a checkout session is not a payment, checked in this order; `None`
/// when it is one.
pub open spec fn session_error(s: CheckoutSessionData) -> Option<ParseErrorView> {
    if s.currency is None {
        Some(ParseErrorView::MissingField("currency"@))
    } else if s.amount_total is None {
        Some(ParseErrorView::MissingField("amount_total"@))
    } else if !handled_currency(ascii_upper(s.currency->0@)) {
        Some(ParseErrorView::UnhandledCurrency(ascii_upper(s.currency->0@)))
    } else if s.customer_details is None {
        Some(ParseErrorView::MissingField("customer_details"@))
    } else if s.customer_details->0.name is None {
        Some(ParseErrorView::MissingField("customer_details.name"@))
    } else if s.customer_details->0.email is None {
        Some(ParseErrorView::MissingField("customer_details.email"@))
    } else if s.shipping_rate is None {
        Some(ParseErrorView::MissingField("shipping_cost.shipping_rate"@))
    } else if shipping_from_stripe_id(s.shipping_rate->0@) is None {
        Some(ParseErrorView::UnknownShippingRate(s.shipping_rate->0@))
    } else if s.shipping_details is None {
        Some(ParseErrorView::MissingField("collected_information.shipping_details"@))
    } else if s.line_item_products is None {
        Some(ParseErrorView::MissingField("line_items"@))
    } else {
        match products_of(line_item_ids(s.line_item_products->0)) {
            Err(None) => Some(ParseErrorView::MissingField("line_items.price"@)),
            Err(Some(id)) => Some(ParseErrorView::UnknownProduct(id)),
            Ok(_) => None,
        }
    }
}

/// `info` is the payment that the session `s` describes.
pub open spec fn is_payment_of(info: PaymentInfo, s: CheckoutSessionData) -> bool {
    &&& info.payment_id@ == s.id@
    &&& info.revenue_cents == s.amount_total->0
    &&& info.currency@ == ascii_upper(s.currency->0@)
    &&& info.customer_name == s.customer_details->0.name->0
    &&& info.customer_email == s.customer_details->0.email->0
    &&& info.analytics_id == s.client_reference_id
    &&& Some(info.shipping_method) == shipping_from_stripe_id(s.shipping_rate->0@)
    &&& info.shipping_details == shipping_details_of(s.shipping_details->0)
    &&& Ok::<Seq<Product>, Option<Seq<char>>>(info.products@) == products_of(line_item_ids(s.line_item_products->0))
}

/// A payment read from a checkout session is that session's: its id, total,
/// upper-cased currency (US dollars or euros), customer and client
/// reference, and it is shipped to
/// exactly the name and address that the session collected, field by field.
pub proof fn lemma_payment_is_the_sessions(info: PaymentInfo, s: CheckoutSessionData)
    requires
        session_error(s) is None,
        is_payment_of(info, s),
    ensures
        info.payment_id@ == s.id@,
        s.amount_total == Some(info.revenue_cents),
        s.currency matches Some(c) && info.currency@ == ascii_upper(c@),
        info.currency@ == "USD"@ || info.currency@ == "EUR"@,
        s.customer_details matches Some(cd) && cd.name == Some(info.customer_name) && cd.email == Some(info.customer_email),
        info.analytics_id == s.client_reference_id,
        s.shipping_details matches Some(d) && {
            &&& info.shipping_details.name == d.name
            &&& info.shipping_details.city == d.address.city
            &&& info.shipping_details.country == d.address.country
            &&& info.shipping_details.line1 == d.address.line1
            &&& info.shipping_details.line2 == d.address.line2
            &&& info.shipping_details.postal_code == d.address.postal_code
            &&& info.shipping_details.state == d.address.state
        },
{
}

/// The products read from line-item ids are, in order, the products those
/// ids name: one per line item, each with the line item's id as its own.
pub proof fn lemma_products_of_ids(ids: Seq<Option<Seq<char>>>)
    ensures
        products_of(ids) matches Ok(ps) ==> {
            &&& ps.len() == ids.len()
            &&& forall|i: int| 0 <= i < ids.len() ==> ids[i] == Some(#[trigger] product_stripe_id(ps[i]))
        },
    decreases ids.len(),
{
    if ids.len() > 0 {
        lemma_products_of_ids(ids.drop_last());
        if let Ok(ps) = products_of(ids) {
            let prev = products_of(ids.drop_last())->Ok_0;
            lemma_product_id_unique(ids.last()->Some_0);
            assert forall|i: int| 0 <= i < ids.len() implies ids[i] == Some(#[trigger] product_stripe_id(ps[i])) by {
                if i < ids.len() - 1 {
                    assert(ps[i] == prev[i]);
                    assert(ids[i] == ids.drop_last()[i]);
                }
            }
        }
    }
}

proof fn lemma_products_of_prefix_error(ids: Seq<Option<Seq<char>>>, k: int)
    requires
        0 <= k <= ids.len(),
        products_of(ids.take(k)) is Err,
    ensures
        products_of(ids) == products_of(ids.take(k)),
    decreases ids.len(),
{
    if k < ids.len() {
        assert(ids.drop_last().take(k) =~= ids.take(k));
        lemma_products_of_prefix_error(ids.drop_last(), k);
    } else {
        assert(ids.take(k) =~= ids);
    }
}

fn products_from_line_items(ids: &Vec<Option<String>>) -> (r: Result<Vec<Product>, PaymentInfoParsingError>)
    ensures
        match products_of(line_item_ids(*ids)) {
            Ok(ps) => r matches Ok(v) && v@ == ps,
            Err(None) => r matches Err(e) && e@ == ParseErrorView::MissingField("line_items.price"@),
            Err(Some(id)) => r matches Err(e) && e@ == ParseErrorView::UnknownProduct(id),
        },
{
    let ghost all = line_item_ids(*ids);
    let mut products: Vec<Product> = Vec::new();
    let mut i: usize = 0;
    assert(all.take(0) =~= Seq::<Option<Seq<char>>>::empty());
    while i < ids.len()
        invariant
            0 <= i <= ids.len(),
            all == line_item_ids(*ids),
            all.len() == ids.len(),
            products_of(all.take(i as int)) == Ok::<Seq<Product>, Option<Seq<char>>>(products@),
        decreases ids.len() - i,
    {
        assert(all.take(i + 1).drop_last() =~= all.take(i as int));
        assert(all.take(i + 1).last() == all[i as int]);
        match &ids[i] {
            None => {
                proof {
                    lemma_products_of_prefix_error(all, i + 1);
                }
                return Err(PaymentInfoParsingError::MissingField("line_items.price"));
            },
            Some(id) => {
                match Product::from_str(id.as_str()) {
                    Ok(p) => {
                        products.push(p);
                    },
                    Err(e) => {
                        proof {
                            lemma_products_of_prefix_error(all, i + 1);
                        }
                        return Err(e);
                    },
                }
            },
        }
        i = i + 1;
    }
    assert(all.take(i as int) =~= all);
    Ok(products)
}

impl PaymentInfo {
    /// Reads a completed checkout session as a payment. The session must be
    /// in USD or EUR and carry its total, the customer's name and e-mail,
    /// one of the shop's shipping rates, the shipping address and line items
    /// that name the shop's products; the first of these that fails, in that
    /// order, is the error.
    pub fn try_from(session: CheckoutSessionData) -> (r: Result<PaymentInfo, PaymentInfoParsingError>)
        ensures
            match session_error(session) {
                Some(e) => r matches Err(x) && x@ == e,
                None => r matches Ok(info) && is_payment_of(info, session),
            },
    {
        let currency_raw = match &session.currency {
            Some(c) => c,
            None => { return Err(PaymentInfoParsingError::MissingField("currency")); },
        };
        let currency = to_ascii_uppercase(currency_raw.as_str());
        let revenue_raw: i64 = match session.amount_total {
            Some(a) => a,
            None => { return Err(PaymentInfoParsingError::MissingField("amount_total")); },
        };
        if !(str_eq(currency.as_str(), "USD") || str_eq(currency.as_str(), "EUR")) {
            return Err(PaymentInfoParsingError::UnhandledCurrency(currency));
        }
        let customer_details = match session.customer_details {
            Some(d) => d,
            None => { return Err(PaymentInfoParsingError::MissingField("customer_details")); },
        };
        let name = match customer_details.name {
            Some(n) => n,
            None => { return Err(PaymentInfoParsingError::MissingField("customer_details.name")); },
        };
        let email = match customer_details.email {
            Some(e) => e,
            None => { return Err(PaymentInfoParsingError::MissingField("customer_details.email")); },
        };
        let shipping_method = match &session.shipping_rate {
            Some(rate) => ShippingMethod::from_str(rate.as_str())?,
            None => { return Err(PaymentInfoParsingError::MissingField("shipping_cost.shipping_rate")); },
        };
        let shipping_details = match session.shipping_details {
            Some(d) => ShippingDetails::try_from(d)?,
            None => {
                return Err(PaymentInfoParsingError::MissingField("collected_information.shipping_details"));
            },
        };
        let products = match &session.line_item_products {
            Some(ids) => products_from_line_items(ids)?,
            None => { return Err(PaymentInfoParsingError::MissingField("line_items")); },
        };
        Ok(PaymentInfo {
            payment_id: session.id,
            revenue_cents: revenue_raw,
            currency,
            customer_name: name,
            customer_email: email,
            analytics_id: session.client_reference_id,
            shipping_method,
            shipping_details,
            products,
        })
    }
}

/// The error that a webhook gives, from the outcome of its verification
/// (`None` when the signature, its age or the payload was refused, else the
/// event it carries); `None` when it gives a payment.
pub open spec fn webhook_outcome_error(event: Option<WebhookEvent>) -> Option<WebhookErrorView> {
    match event {
        None => Some(WebhookErrorView::InvalidSignature),
        Some(WebhookEvent::Other(t)) => Some(WebhookErrorView::UnhandledEvent(t@)),
        Some(WebhookEvent::CheckoutSessionCompleted(s)) => match session_error(s) {
            Some(e) => Some(WebhookErrorView::ParseError(e)),
            None => None,
        },
    }
}

/// Turns the outcome of a webhook's verification into a payment: a webhook
/// whose signature was not accepted is `InvalidSignature`, an event other
/// than a completed checkout session is `UnhandledEvent` with its type, and a
/// completed checkout session is read by `PaymentInfo::try_from`, whose
/// errors come back as `ParseError`.
pub fn payment_info_from_event(event: Option<WebhookEvent>) -> (r: Result<PaymentInfo, WebhookProcessingError>)
    ensures
        match webhook_outcome_error(event) {
            Some(e) => r matches Err(x) && x@ == e,
            None => event matches Some(WebhookEvent::CheckoutSessionCompleted(s))
                && r matches Ok(info) && is_payment_of(info, s),
        },
{
    match event {
        None => Err(WebhookProcessingError::InvalidSignature),
        Some(WebhookEvent::Other(t)) => Err(WebhookProcessingError::UnhandledEvent(t)),
        Some(WebhookEvent::CheckoutSessionCompleted(session)) => match PaymentInfo::try_from(session) {
            Ok(info) => Ok(info),
            Err(e) => Err(WebhookProcessingError::ParseError(e)),
        },
    }
}

/// Whether Stripe's webhook check accepts a payload with this signature
/// header and endpoint secret at time `now` (seconds since the epoch): a `v1`
/// signature of the header is the HMAC-SHA256 of the timestamp and payload
/// under the secret, the timestamp is within five minutes of `now`, and the
/// payload parses as an event. It depends on these four values alone.
pub uninterp spec fn stripe_accepts(payload: Seq<char>, signature: Seq<char>, secret: Seq<char>, now: i64) -> bool;

/// The event that Stripe's webhook library parses from a payload, as the
/// backend reads it: a completed checkout session as `CheckoutSessionData`
/// (its id; its currency as `Currency`'s `Display` writes it; its total,
/// customer name and e-mail, and client reference id; the id of its shipping
/// rate; its collected shipping name and address; the product id of each
/// line item's price, when it carries its line items), any other event as
/// its type (`EventType::as_str`). The parse depends on the payload alone;
/// it is read only from payloads that the check accepts.
pub uninterp spec fn stripe_event(payload: Seq<char>) -> WebhookEvent;

/// An event with the parts of a checkout session that `read_event` leaves
/// out (shipping rate, shipping details, line items) set to `None`.
pub open spec fn event_summary(e: WebhookEvent) -> WebhookEvent {
    match e {
        WebhookEvent::CheckoutSessionCompleted(s) => WebhookEvent::CheckoutSessionCompleted(CheckoutSessionData {
            shipping_rate: None,
            shipping_details: None,
            line_item_products: None,
            ..s
        }),
        WebhookEvent::Other(t) => WebhookEvent::Other(t),
    }
}

/// The checkout session of the event that an accepted payload carries.
pub open spec fn accepted_session(payload: Seq<char>, signature: Seq<char>, secret: Seq<char>, now: i64) -> Option<CheckoutSessionData> {
    if stripe_accepts(payload, signature, secret, now) && stripe_event(payload) is CheckoutSessionCompleted {
        Some(stripe_event(payload)->CheckoutSessionCompleted_0)
    } else {
        None
    }
}

/// Calls `Webhook::construct_event_with_timestamp` and reads the event: the
/// summary of a completed checkout session, or another event's type. It is
/// `Some` exactly when the check accepts (`stripe_accepts`), and then holds
/// `stripe_event(payload)` without the parts that the other readers give.
/// Once the signature matches, the library computes `(now - t).abs()` with
/// the header's timestamp `t`, the integer of its last `t` item, which
/// overflows unless `now - t` is above `i64::MIN` and at most `i64::MAX`:
/// `requires` leaves those headers out; so do the readers below.
#[verifier::external_body]
fn read_event(payload: &str, signature: &str, secret: &str, now: i64) -> (r: Option<WebhookEvent>)
    requires
        signature_timestamp(signature@) matches Some(t) ==> i64::MIN < now - t <= i64::MAX,
    ensures
        r is Some <==> stripe_accepts(payload@, signature@, secret@, now),
        r matches Some(e) ==> e == event_summary(stripe_event(payload@)),
{
    let event = Webhook::construct_event_with_timestamp(payload, signature, secret, now).ok()?;
    let s = match event.data.object {
        EventObject::CheckoutSessionCompleted(s) => s,
        _ => return Some(WebhookEvent::Other(event.type_.as_str().to_string())),
    };
    Some(WebhookEvent::CheckoutSessionCompleted(CheckoutSessionData {
        id: s.id.as_str().to_string(),
        currency: s.currency.as_ref().map(|c| c.to_string()),
        amount_total: s.amount_total,
        customer_details: s.customer_details.as_ref().map(|d| CustomerDetails { name: d.name.clone(), email: d.email.clone() }),
        client_reference_id: s.client_reference_id.clone(),
        shipping_rate: None,
        shipping_details: None,
        line_item_products: None,
    }))
}

/// Calls `Webhook::construct_event_with_timestamp` and reads the id of the
/// shipping rate of an accepted checkout session: `stripe_event(payload)`'s.
#[verifier::external_body]
fn read_shipping_rate(payload: &str, signature: &str, secret: &str, now: i64) -> (r: Option<String>)
    requires
        signature_timestamp(signature@) matches Some(t) ==> i64::MIN < now - t <= i64::MAX,
    ensures
        accepted_session(payload@, signature@, secret@, now) matches Some(s) ==> r == s.shipping_rate,
{
    let event = Webhook::construct_event_with_timestamp(payload, signature, secret, now).ok()?;
    let s = match event.data.object {
        EventObject::CheckoutSessionCompleted(s) => s,
        _ => return None,
    };
    let rate = s.shipping_cost.as_ref()?.shipping_rate.as_ref()?;
    Some(rate.id().as_str().to_string())
}

/// Calls `Webhook::construct_event_with_timestamp` and reads the shipping
/// name and address collected by an accepted checkout session:
/// `stripe_event(payload)`'s.
#[verifier::external_body]
fn read_shipping_details(payload: &str, signature: &str, secret: &str, now: i64) -> (r: Option<CheckoutAddressDetails>)
    requires
        signature_timestamp(signature@) matches Some(t) ==> i64::MIN < now - t <= i64::MAX,
    ensures
        accepted_session(payload@, signature@, secret@, now) matches Some(s) ==> r == s.shipping_details,
{
    let event = Webhook::construct_event_with_timestamp(payload, signature, secret, now).ok()?;
    let s = match event.data.object {
        EventObject::CheckoutSessionCompleted(s) => s,
        _ => return None,
    };
    let d = s.collected_information.as_ref()?.shipping_details.as_ref()?;
    let a = &d.address;
    let address = shipping::Address { city: a.city.clone(), country: a.country.clone(), line1: a.line1.clone(), line2: a.line2.clone(), postal_code: a.postal_code.clone(), state: a.state.clone() };
    Some(CheckoutAddressDetails { name: d.name.clone(), address })
}

/// Calls `Webhook::construct_event_with_timestamp` and reads, for each line
/// item of an accepted checkout session, the id of its price's product:
/// `stripe_event(payload)`'s.
#[verifier::external_body]
fn read_line_item_products(payload: &str, signature: &str, secret: &str, now: i64) -> (r: Option<Vec<Option<String>>>)
    requires
        signature_timestamp(signature@) matches Some(t) ==> i64::MIN < now - t <= i64::MAX,
    ensures
        accepted_session(payload@, signature@, secret@, now) matches Some(s) ==> r == s.line_item_products,
{
    let event = Webhook::construct_event_with_timestamp(payload, signature, secret, now).ok()?;
    let s = match event.data.object {
        EventObject::CheckoutSessionCompleted(s) => s,
        _ => return None,
    };
    let items = s.line_items.as_ref()?;
    Some(items.data.iter().map(|item| item.price.as_ref().map(|p| p.product.id().as_str().to_string())).collect())
}

/// The event that a webhook with this payload, signature header and secret
/// carries at time `now`: `None` when its signature's timestamp is stale or
/// Stripe's check refuses it, else the event its payload holds.
pub open spec fn webhook_event(payload: Seq<char>, signature: Seq<char>, secret: Seq<char>, now: i64) -> Option<WebhookEvent> {
    if !timestamp_is_stale(signature, now) && stripe_accepts(payload, signature, secret, now) {
        Some(stripe_event(payload))
    } else {
        None
    }
}

/// The webhooks that are accepted: those whose signature timestamp is within
/// `SIGNATURE_TOLERANCE` of `now` and that Stripe's check accepts with the
/// endpoint secret.
pub open spec fn webhook_accepted(payload: Seq<char>, signature: Seq<char>, secret: Seq<char>, now: i64) -> bool {
    webhook_event(payload, signature, secret, now) is Some
}

/// Two accepted deliveries of one payload carry the same event, whatever
/// their signature headers, secrets and times; so their payments are the
/// same, with the same payment id.
pub proof fn lemma_redelivered_webhook_same_payment(
    payload: Seq<char>,
    signature1: Seq<char>,
    secret1: Seq<char>,
    now1: i64,
    signature2: Seq<char>,
    secret2: Seq<char>,
    now2: i64,
    info1: PaymentInfo,
    info2: PaymentInfo,
)
    requires
        webhook_accepted(payload, signature1, secret1, now1),
        webhook_accepted(payload, signature2, secret2, now2),
        webhook_event(payload, signature1, secret1, now1) matches Some(WebhookEvent::CheckoutSessionCompleted(s)) && is_payment_of(info1, s),
        webhook_event(payload, signature2, secret2, now2) matches Some(WebhookEvent::CheckoutSessionCompleted(s)) && is_payment_of(info2, s),
    ensures
        webhook_event(payload, signature1, secret1, now1) == webhook_event(payload, signature2, secret2, now2),
        info1.payment_id@ == info2.payment_id@,
        info1.revenue_cents == info2.revenue_cents,
        info1.customer_email == info2.customer_email,
        info1.products@ == info2.products@,
{
}

/// Verifies a webhook's signature and reads the event it carries, as
/// `webhook_event` says. A signature whose timestamp is stale is refused
/// before the check.
fn verified_event(payload: &str, signature: &str, secret: &str, now: i64) -> (r: Option<WebhookEvent>)
    ensures
        r == webhook_event(payload@, signature@, secret@, now),
{
    if signature_timestamp_is_stale(signature, now) {
        return None;
    }
    match read_event(payload, signature, secret, now) {
        None => None,
        Some(WebhookEvent::Other(t)) => Some(WebhookEvent::Other(t)),
        Some(WebhookEvent::CheckoutSessionCompleted(summary)) => {
            let data = session_data(summary, payload, signature, secret, now);
            Some(WebhookEvent::CheckoutSessionCompleted(data))
        },
    }
}

/// Completes the summary of an accepted checkout session with its shipping
/// rate, shipping details and line items, read from the same webhook.
fn session_data(summary: CheckoutSessionData, payload: &str, signature: &str, secret: &str, now: i64) -> (r: CheckoutSessionData)
    requires
        signature_timestamp(signature@) matches Some(t) ==> i64::MIN < now - t <= i64::MAX,
        accepted_session(payload@, signature@, secret@, now) is Some,
        WebhookEvent::CheckoutSessionCompleted(summary) == event_summary(stripe_event(payload@)),
    ensures
        Some(r) == accepted_session(payload@, signature@, secret@, now),
{
    let mut data = summary;
    data.shipping_rate = read_shipping_rate(payload, signature, secret, now);
    data.shipping_details = read_shipping_details(payload, signature, secret, now);
    data.line_item_products = read_line_item_products(payload, signature, secret, now);
    data
}

impl StripeWebhookHandler {
    /// The handler for the endpoint whose signing secret is `secret` (the
    /// `STRIPE_SECRET` environment variable).
    pub fn from_env(secret: String) -> (r: StripeWebhookHandler)
        ensures
            r.secret() == secret@,
    {
        StripeWebhookHandler { secret }
    }

    /// The endpoint's signing secret.
    pub closed spec fn secret(&self) -> Seq<char> {
        self.secret@
    }

    /// Reads the payment that a Stripe webhook reports, at time `now`
    /// (seconds since the epoch). Without a `Stripe-Signature` header it is
    /// `MissingSignatureHeader`; otherwise the event that the webhook
    /// carries (`webhook_event`: `None` unless it is signed with the
    /// endpoint's secret) is read as `payment_info_from_event` says. So a
    /// payment comes only from a webhook signed with the endpoint's secret,
    /// and it is the payment of the checkout session in its payload.
    pub fn get_payment_info(&self, signature: Option<&str>, payload: &str, now: i64) -> (r: Result<PaymentInfo, WebhookProcessingError>)
        ensures
            signature is None ==> (r matches Err(e) && e@ == WebhookErrorView::MissingSignatureHeader),
            signature matches Some(s) ==> match webhook_outcome_error(webhook_event(payload@, s@, self.secret(), now)) {
                Some(e) => r matches Err(x) && x@ == e,
                None => webhook_event(payload@, s@, self.secret(), now) matches Some(WebhookEvent::CheckoutSessionCompleted(session))
                    && r matches Ok(info) && is_payment_of(info, session),
            },
            r is Ok ==> (signature matches Some(s) && webhook_accepted(payload@, s@, self.secret(), now)),
    {
        match signature {
            None => Err(WebhookProcessingError::MissingSignatureHeader),
            Some(sig) => {
                let event = verified_event(payload, sig, self.secret.as_str(), now);
                payment_info_from_event(event)
            },
        }
    }
}

} // verus!
