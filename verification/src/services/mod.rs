//! What the backend sends after a payment: the confirmation e-mail, the
//! analytics event and the Discord message.
pub mod analytics;
pub mod discord;
pub mod mailer;
