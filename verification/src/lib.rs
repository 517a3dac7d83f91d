//! The payment logic of the STORM shop backend: turning Stripe checkout
//! sessions into payments, recording them in the shop database, and
//! preparing the confirmation e-mail, analytics event and Discord message.
use vstd::prelude::*;

pub mod db;
pub mod routes;
pub mod services;
pub mod stripe;
pub mod utils;

verus! {
}
