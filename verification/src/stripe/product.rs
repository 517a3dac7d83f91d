//! The products the shop sells, known by their Stripe product ids.
use vstd::prelude::*;

use crate::stripe::errors::PaymentInfoParsingError;
use crate::utils::str_eq;

verus! {

/// A product of the shop.
#[derive(Debug, Clone, Copy, PartialEq, Eq, Structural)]
pub enum Product {
    Storm,
    ChargingCable,
    Velcro,
}

/// The Stripe product id of a product.
pub open spec fn product_stripe_id(p: Product) -> Seq<char> {
    match p {
        Product::Storm => "prod_Tx78EpjfgGBXBY"@,
        Product::ChargingCable => "prod_UeYnwJRcC0Bdjd"@,
        Product::Velcro => "prod_UeYkOsu0lehYzY"@,
    }
}

/// The product that a Stripe product id names, if it is one of the shop's.
pub open spec fn product_from_stripe_id(s: Seq<char>) -> Option<Product> {
    if s == "prod_Tx78EpjfgGBXBY"@ {
        Some(Product::Storm)
    } else if s == "prod_UeYnwJRcC0Bdjd"@ {
        Some(Product::ChargingCable)
    } else if s == "prod_UeYkOsu0lehYzY"@ {
        Some(Product::Velcro)
    } else {
        None
    }
}

/// The name under which a product is shown to people.
pub open spec fn product_label(p: Product) -> Seq<char> {
    match p {
        Product::Storm => "Vario STORM"@,
        Product::ChargingCable => "Câble de charge USB-C"@,
        Product::Velcro => "Option velcro extra"@,
    }
}

impl Product {
    /// Reads a Stripe product id: one of the shop's three ids gives its
    /// product, any other string is an `UnknownProduct` error holding it.
    pub fn from_str(s: &str) -> (r: Result<Product, PaymentInfoParsingError>)
        ensures
            match product_from_stripe_id(s@) {
                Some(p) => r == Ok::<Product, PaymentInfoParsingError>(p),
                None => r matches Err(e) && e@ == crate::stripe::errors::ParseErrorView::UnknownProduct(s@),
            },
    {
        if str_eq(s, "prod_Tx78EpjfgGBXBY") {
            Ok(Product::Storm)
        } else if str_eq(s, "prod_UeYnwJRcC0Bdjd") {
            Ok(Product::ChargingCable)
        } else if str_eq(s, "prod_UeYkOsu0lehYzY") {
            Ok(Product::Velcro)
        } else {
            Err(PaymentInfoParsingError::UnknownProduct(s.to_string()))
        }
    }

    /// The product's Stripe product id.
    pub fn stripe_id(&self) -> (r: &'static str)
        ensures
            r@ == product_stripe_id(*self),
    {
        match self {
            Product::Storm => "prod_Tx78EpjfgGBXBY",
            Product::ChargingCable => "prod_UeYnwJRcC0Bdjd",
            Product::Velcro => "prod_UeYkOsu0lehYzY",
        }
    }

    /// The name under which the product is shown to people.
    pub fn to_string(&self) -> (r: String)
        ensures
            r@ == product_label(*self),
    {
        match self {
            Product::Storm => String::from_str("Vario STORM"),
            Product::ChargingCable => String::from_str("Câble de charge USB-C"),
            Product::Velcro => String::from_str("Option velcro extra"),
        }
    }
}

/// A Stripe id that names a product is that product's own id.
pub proof fn lemma_product_id_unique(s: Seq<char>)
    ensures
        product_from_stripe_id(s) matches Some(p) ==> product_stripe_id(p) == s,
{
}

/// Reading a product's own Stripe id gives the product back.
pub proof fn lemma_product_id_round_trip(p: Product)
    ensures
        product_from_stripe_id(product_stripe_id(p)) == Some(p),
{
    reveal_strlit("prod_Tx78EpjfgGBXBY");
    reveal_strlit("prod_UeYnwJRcC0Bdjd");
    reveal_strlit("prod_UeYkOsu0lehYzY");
    assert("prod_UeYnwJRcC0Bdjd"@[5] != "prod_Tx78EpjfgGBXBY"@[5]);
    assert("prod_UeYkOsu0lehYzY"@[5] != "prod_Tx78EpjfgGBXBY"@[5]);
    assert("prod_UeYkOsu0lehYzY"@[8] != "prod_UeYnwJRcC0Bdjd"@[8]);
}

} // verus!
