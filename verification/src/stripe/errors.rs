//! Errors raised while turning a Stripe webhook into a payment.
use vstd::prelude::*;

verus! {

/// Why a Stripe webhook could not be turned into a payment.
#[derive(Debug)]
pub enum WebhookProcessingError {
    /// The request carries no `Stripe-Signature` header.
    MissingSignatureHeader,
    /// The request body is not a valid payload.
    InvalidPayload,
    /// The signature does not match the payload and the endpoint secret.
    InvalidSignature,
    /// The event is not one this backend handles; it holds the event type.
    UnhandledEvent(String),
    /// The checkout session could not be read as a payment.
    ParseError(PaymentInfoParsingError),
    /// An error reported by the Stripe API; it holds its description.
    Stripe(String),
}

/// Why a checkout session could not be read as a payment.
#[derive(Debug)]
pub enum PaymentInfoParsingError {
    /// A field that the payment needs is absent; it holds the field's name.
    MissingField(&'static str),
    /// The session is in a currency other than USD or EUR.
    UnhandledCurrency(String),
    /// The session's shipping rate is not one of the shop's.
    UnknownShippingRate(String),
    /// A purchased product is not one of the shop's.
    UnknownProduct(String),
}

/// A parsing error as plain values.
pub enum ParseErrorView {
    MissingField(Seq<char>),
    UnhandledCurrency(Seq<char>),
    UnknownShippingRate(Seq<char>),
    UnknownProduct(Seq<char>),
}

impl View for PaymentInfoParsingError {
    type V = ParseErrorView;

    open spec fn view(&self) -> ParseErrorView {
        match self {
            PaymentInfoParsingError::MissingField(f) => ParseErrorView::MissingField(f@),
            PaymentInfoParsingError::UnhandledCurrency(c) => ParseErrorView::UnhandledCurrency(c@),
            PaymentInfoParsingError::UnknownShippingRate(s) => ParseErrorView::UnknownShippingRate(s@),
            PaymentInfoParsingError::UnknownProduct(p) => ParseErrorView::UnknownProduct(p@),
        }
    }
}

/// A webhook error as plain values.
pub enum WebhookErrorView {
    MissingSignatureHeader,
    InvalidPayload,
    InvalidSignature,
    UnhandledEvent(Seq<char>),
    ParseError(ParseErrorView),
    Stripe(Seq<char>),
}

impl View for WebhookProcessingError {
    type V = WebhookErrorView;

    open spec fn view(&self) -> WebhookErrorView {
        match self {
            WebhookProcessingError::MissingSignatureHeader => WebhookErrorView::MissingSignatureHeader,
            WebhookProcessingError::InvalidPayload => WebhookErrorView::InvalidPayload,
            WebhookProcessingError::InvalidSignature => WebhookErrorView::InvalidSignature,
            WebhookProcessingError::UnhandledEvent(t) => WebhookErrorView::UnhandledEvent(t@),
            WebhookProcessingError::ParseError(e) => WebhookErrorView::ParseError(e@),
            WebhookProcessingError::Stripe(s) => WebhookErrorView::Stripe(s@),
        }
    }
}

fn prefixed(prefix: &str, detail: &str) -> (r: String)
    ensures
        r@ == prefix@ + detail@,
{
    let mut s = String::from_str(prefix);
    s.append(detail);
    s
}

/// How a parsing error is described to people.
pub open spec fn parse_error_text(e: ParseErrorView) -> Seq<char> {
    match e {
        ParseErrorView::MissingField(f) => "missing field: "@ + f,
        ParseErrorView::UnhandledCurrency(c) => "unhandled currency: "@ + c,
        ParseErrorView::UnknownShippingRate(s) => "unknown shipping rate id: "@ + s,
        ParseErrorView::UnknownProduct(p) => "unknown product id: "@ + p,
    }
}

/// How a webhook error is described to people.
pub open spec fn webhook_error_text(e: WebhookErrorView) -> Seq<char> {
    match e {
        WebhookErrorView::MissingSignatureHeader => "missing signature header"@,
        WebhookErrorView::InvalidPayload => "invalid payload"@,
        WebhookErrorView::InvalidSignature => "invalid signature"@,
        WebhookErrorView::UnhandledEvent(t) => "unhandled event type: "@ + t,
        WebhookErrorView::ParseError(p) => "failed to build PaymentInfo from CheckoutSession: "@ + parse_error_text(p),
        WebhookErrorView::Stripe(s) => "stripe api error: "@ + s,
    }
}

impl PaymentInfoParsingError {
    /// The description of the error, as `parse_error_text` gives it.
    pub fn message(&self) -> (r: String)
        ensures
            r@ == parse_error_text(self@),
    {
        match self {
            PaymentInfoParsingError::MissingField(f) => prefixed("missing field: ", f),
            PaymentInfoParsingError::UnhandledCurrency(c) => prefixed("unhandled currency: ", c.as_str()),
            PaymentInfoParsingError::UnknownShippingRate(s) => prefixed("unknown shipping rate id: ", s.as_str()),
            PaymentInfoParsingError::UnknownProduct(p) => prefixed("unknown product id: ", p.as_str()),
        }
    }
}

impl WebhookProcessingError {
    /// The description of the error, as `webhook_error_text` gives it.
    pub fn message(&self) -> (r: String)
        ensures
            r@ == webhook_error_text(self@),
    {
        match self {
            WebhookProcessingError::MissingSignatureHeader => String::from_str("missing signature header"),
            WebhookProcessingError::InvalidPayload => String::from_str("invalid payload"),
            WebhookProcessingError::InvalidSignature => String::from_str("invalid signature"),
            WebhookProcessingError::UnhandledEvent(t) => prefixed("unhandled event type: ", t.as_str()),
            WebhookProcessingError::ParseError(p) => {
                let detail = p.message();
                prefixed("failed to build PaymentInfo from CheckoutSession: ", detail.as_str())
            },
            WebhookProcessingError::Stripe(s) => prefixed("stripe api error: ", s.as_str()),
        }
    }
}

} // verus!
