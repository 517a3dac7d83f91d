//! The Stripe webhook endpoint: the order in which a payment is processed,
//! and the HTTP status that answers each failure.
use vstd::prelude::*;

use crate::db::InsertPaymentError;
use crate::services::mailer::MailerError;
use crate::stripe::errors::WebhookProcessingError;

verus! {

/// Why the processing of a Stripe webhook failed.
#[derive(Debug)]
pub enum PaymentPipelineError {
    /// The webhook could not be read as a payment.
    Stripe(WebhookProcessingError),
    /// The payment could not be recorded.
    Database(InsertPaymentError),
    /// The confirmation e-mail could not be sent.
    Mailer(MailerError),
    /// The Discord message could not be posted; it holds the description of
    /// the HTTP error.
    Discord(String),
}

pub const STATUS_OK: u16 = 200;
pub const STATUS_BAD_REQUEST: u16 = 400;
pub const STATUS_UNAUTHORIZED: u16 = 401;
pub const STATUS_NOT_FOUND: u16 = 404;
pub const STATUS_INTERNAL_SERVER_ERROR: u16 = 500;

/// The HTTP status that answers a failure. A malformed webhook is a bad
/// request, a bad signature is unauthorized, an event or record that does
/// not exist is not found, and a failure of Stripe or of the database is an
/// internal error. A payment already recorded, and a failure of the e-mail
/// or of Discord, are answered `200 OK`: they are not worth Stripe sending
/// the webhook again.
pub open spec fn pipeline_status(e: PaymentPipelineError) -> u16 {
    match e {
        PaymentPipelineError::Stripe(w) => match w {
            WebhookProcessingError::MissingSignatureHeader
            | WebhookProcessingError::InvalidPayload
            | WebhookProcessingError::ParseError(_) => STATUS_BAD_REQUEST,
            WebhookProcessingError::InvalidSignature => STATUS_UNAUTHORIZED,
            WebhookProcessingError::UnhandledEvent(_) => STATUS_NOT_FOUND,
            WebhookProcessingError::Stripe(_) => STATUS_INTERNAL_SERVER_ERROR,
        },
        PaymentPipelineError::Database(d) => match d {
            InsertPaymentError::AlreadyExists => STATUS_OK,
            InsertPaymentError::ProductNotFound(_)
            | InsertPaymentError::ShippingMethodNotFound(_) => STATUS_NOT_FOUND,
            _ => STATUS_INTERNAL_SERVER_ERROR,
        },
        PaymentPipelineError::Mailer(_) | PaymentPipelineError::Discord(_) => STATUS_OK,
    }
}

impl PaymentPipelineError {
    /// The HTTP status that answers this failure, as `pipeline_status` says.
    pub fn status_code(&self) -> (r: u16)
        ensures
            r == pipeline_status(*self),
    {
        match self {
            PaymentPipelineError::Stripe(e) => match e {
                WebhookProcessingError::MissingSignatureHeader
                | WebhookProcessingError::InvalidPayload
                | WebhookProcessingError::ParseError(_) => STATUS_BAD_REQUEST,
                WebhookProcessingError::InvalidSignature => STATUS_UNAUTHORIZED,
                WebhookProcessingError::UnhandledEvent(_) => STATUS_NOT_FOUND,
                WebhookProcessingError::Stripe(_) => STATUS_INTERNAL_SERVER_ERROR,
            },
            PaymentPipelineError::Database(e) => match e {
                InsertPaymentError::AlreadyExists => STATUS_OK,
                InsertPaymentError::ProductNotFound(_)
                | InsertPaymentError::ShippingMethodNotFound(_) => STATUS_NOT_FOUND,
                InsertPaymentError::StartTx
                | InsertPaymentError::CommitTx
                | InsertPaymentError::CreateOrder
                | InsertPaymentError::QueryCustomer
                | InsertPaymentError::CreateCustomer
                | InsertPaymentError::CreateOrderProduct => STATUS_INTERNAL_SERVER_ERROR,
            },
            PaymentPipelineError::Mailer(_) | PaymentPipelineError::Discord(_) => STATUS_OK,
        }
    }
}

/// The stages of the processing of a payment, in order.
#[derive(Debug, Clone, Copy, PartialEq, Eq, Structural)]
pub enum PipelineStage {
    /// Record the payment in the database.
    RecordPayment,
    /// Send the confirmation e-mail to the customer.
    SendConfirmation,
    /// Send the `checkout-completed` event to the analytics server; its
    /// failure is only logged.
    SendAnalytics,
    /// Post the new-order message to Discord.
    NotifyDiscord,
}

/// What the webhook endpoint does next.
#[derive(Debug)]
pub enum PipelineAction {
    /// Run this stage and report how it went.
    Run(PipelineStage),
    /// Every stage succeeded: answer the webhook with success.
    Succeed,
    /// A stage failed: report the failure to Discord (whatever comes of that
    /// report) and answer the webhook with this error.
    ReportAndFail(PaymentPipelineError),
}

/// The stage after `s`, if any.
pub open spec fn stage_after(s: PipelineStage) -> Option<PipelineStage> {
    match s {
        PipelineStage::RecordPayment => Some(PipelineStage::SendConfirmation),
        PipelineStage::SendConfirmation => Some(PipelineStage::SendAnalytics),
        PipelineStage::SendAnalytics => Some(PipelineStage::NotifyDiscord),
        PipelineStage::NotifyDiscord => None,
    }
}

/// The first stage of the processing of a payment.
pub fn first_stage() -> (r: PipelineAction)
    ensures
        r matches PipelineAction::Run(PipelineStage::RecordPayment),
{
    PipelineAction::Run(PipelineStage::RecordPayment)
}

/// What follows the stage `stage`, which ended with `outcome`: the first
/// failure stops the processing and is reported and answered; otherwise the
/// next stage runs, and after the last one the webhook succeeds. The
/// analytics stage cannot fail: its outcome is ignored.
pub fn next_stage(stage: PipelineStage, outcome: Result<(), PaymentPipelineError>) -> (r: PipelineAction)
    ensures
        (outcome is Err && stage != PipelineStage::SendAnalytics) ==> (r matches PipelineAction::ReportAndFail(e) && outcome == Err::<(), PaymentPipelineError>(e)),
        (outcome is Ok || stage == PipelineStage::SendAnalytics) ==> match stage_after(stage) {
            Some(next) => r matches PipelineAction::Run(s) && s == next,
            None => r is Succeed,
        },
{
    if let Err(e) = outcome {
        if stage != PipelineStage::SendAnalytics {
            return PipelineAction::ReportAndFail(e);
        }
    }
    match stage {
        PipelineStage::RecordPayment => PipelineAction::Run(PipelineStage::SendConfirmation),
        PipelineStage::SendConfirmation => PipelineAction::Run(PipelineStage::SendAnalytics),
        PipelineStage::SendAnalytics => PipelineAction::Run(PipelineStage::NotifyDiscord),
        PipelineStage::NotifyDiscord => PipelineAction::Succeed,
    }
}

} // verus!
