//! The records of the shop database.
use vstd::prelude::*;

verus! {

/// A product on sale, known by its Stripe product id.
#[derive(Debug, Clone)]
pub struct Product {
    pub id: u64,
    pub stripe_id: String,
    pub name: String,
    pub stock: u32,
}

/// A shipping method, known by its Stripe shipping rate id.
#[derive(Debug, Clone)]
pub struct ShippingMethod {
    pub id: u64,
    pub stripe_id: String,
    pub name: String,
}

/// A customer, known by their e-mail.
#[derive(Debug, Clone)]
pub struct Customer {
    pub id: u64,
    pub name: String,
    pub email: String,
}

/// One product of an order.
#[derive(Debug, Clone)]
pub struct OrderProduct {
    pub id: u64,
    pub order_id: u64,
    pub product_id: u64,
    pub quantity: u32,
}

/// How far an order has gone.
#[derive(Debug, Clone, Copy, PartialEq, Eq, Structural)]
pub enum OrderStatus {
    Ordered,
    Shipped,
    Received,
}

/// Where an order was placed.
#[derive(Debug, Clone, Copy, PartialEq, Eq, Structural)]
pub enum OrderOrigin {
    Amazon,
    Leboncoin,
    Stripe,
    Vinted,
}

/// Where an order is sent.
#[derive(Debug, Clone)]
pub struct ShippingDetails {
    pub name: String,
    pub city: Option<String>,
    pub country: Option<String>,
    pub line1: Option<String>,
    pub line2: Option<String>,
    pub postal_code: Option<String>,
    pub state: Option<String>,
}

/// An order. The amount is in minor units of the currency (cents).
#[derive(Debug, Clone)]
pub struct Order {
    pub id: u64,
    pub stripe_payment_id: String,
    pub amount_cents: i64,
    pub status: OrderStatus,
    pub origin: OrderOrigin,
    pub tracking_id: Option<String>,
    pub shipping: Option<ShippingDetails>,
    pub customer_id: u64,
    pub shipping_method_id: u64,
}

/// A customer to create.
#[derive(Debug, Clone)]
pub struct NewCustomer {
    pub name: String,
    pub email: String,
}

/// An order to create.
#[derive(Debug, Clone)]
pub struct NewOrder {
    pub stripe_payment_id: String,
    pub amount_cents: i64,
    pub status: OrderStatus,
    pub origin: OrderOrigin,
    pub customer_id: u64,
    pub shipping_method_id: u64,
    pub shipping: ShippingDetails,
}

/// An order product to create.
#[derive(Debug, Clone, Copy, PartialEq, Eq, Structural)]
pub struct NewOrderProduct {
    pub order_id: u64,
    pub product_id: u64,
}

} // verus!
