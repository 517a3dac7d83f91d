//! The `checkout-completed` event sent to the umami analytics server.
use vstd::prelude::*;

use crate::stripe::PaymentInfo;

verus! {

/// The name of the event sent when a checkout is completed.
pub const CHECKOUT_COMPLETED_EVENT: &'static str = "checkout-completed";

/// The kind of request that carries an analytics event.
pub const EVENT_REQUEST_KIND: &'static str = "event";

/// What an event says of the payment.
#[derive(Debug, Clone)]
pub struct CheckoutEventData {
    /// The amount paid, in minor units of the currency (cents).
    pub revenue_cents: i64,
    pub currency: String,
    pub customer_name: String,
    pub customer_email: String,
}

/// An event of a website.
#[derive(Debug, Clone)]
pub struct EventPayload {
    /// The website id of the shop.
    pub website: String,
    /// The event's name.
    pub name: String,
    pub data: CheckoutEventData,
    /// The visitor id the event is attributed to, when known.
    pub id: Option<String>,
}

/// A request to the analytics server.
#[derive(Debug, Clone)]
pub struct AnalyticsRequest {
    /// The request kind (`type`): always `event`.
    pub kind: String,
    pub payload: EventPayload,
}

/// The `checkout-completed` event of a payment, for the website
/// `website_id`: it carries the revenue, currency and customer, and is
/// attributed to the payment's analytics id when it has one.
pub fn checkout_completed_event(website_id: &str, info: &PaymentInfo) -> (r: AnalyticsRequest)
    ensures
        r.kind@ == EVENT_REQUEST_KIND@,
        r.payload.website@ == website_id@,
        r.payload.name@ == CHECKOUT_COMPLETED_EVENT@,
        r.payload.data.revenue_cents == info.revenue_cents,
        r.payload.data.currency == info.currency,
        r.payload.data.customer_name == info.customer_name,
        r.payload.data.customer_email == info.customer_email,
        r.payload.id == info.analytics_id,
{
    let id = match &info.analytics_id {
        Some(id) => Some(id.clone()),
        None => None,
    };
    AnalyticsRequest {
        kind: String::from_str(EVENT_REQUEST_KIND),
        payload: EventPayload {
            website: String::from_str(website_id),
            name: String::from_str(CHECKOUT_COMPLETED_EVENT),
            data: CheckoutEventData {
                revenue_cents: info.revenue_cents,
                currency: info.currency.clone(),
                customer_name: info.customer_name.clone(),
                customer_email: info.customer_email.clone(),
            },
            id,
        },
    }
}

} // verus!
