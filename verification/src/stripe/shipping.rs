//! The shop's shipping rates, known by their Stripe shipping rate ids, and
//! the shipping address collected at checkout.
use vstd::prelude::*;

use crate::stripe::errors::{ParseErrorView, PaymentInfoParsingError};
use crate::utils::str_eq;

verus! {

/// Where and how an order is sent.
#[derive(Debug, Clone)]
pub struct ShippingDetails {
    pub name: String,
    pub city: Option<String>,
    pub country: Option<String>,
    pub line1: Option<String>,
    pub line2: Option<String>,
    pub postal_code: Option<String>,
    pub state: Option<String>,
}

/// A postal address as Stripe collects it at checkout.
#[derive(Debug, Clone)]
pub struct Address {
    pub city: Option<String>,
    pub country: Option<String>,
    pub line1: Option<String>,
    pub line2: Option<String>,
    pub postal_code: Option<String>,
    pub state: Option<String>,
}

/// The shipping name and address collected by a Stripe checkout session.
#[derive(Debug, Clone)]
pub struct CheckoutAddressDetails {
    pub name: String,
    pub address: Address,
}

/// The shipping rates of the shop.
#[derive(Debug, Clone, Copy, PartialEq, Eq, Structural)]
pub enum ShippingMethod {
    InPerson,
    FranceStandard,
    FranceTracking,
    FranceExpressTracking,
    International,
    InternationalTracking,
}

/// The Stripe shipping rate id of a shipping method.
pub open spec fn shipping_stripe_id(m: ShippingMethod) -> Seq<char> {
    match m {
        ShippingMethod::InPerson => "shr_1Tiu9nPB7bMAkkZ4zSCGHOUr"@,
        ShippingMethod::FranceStandard => "shr_1TiyHqPB7bMAkkZ4ndxsCgTc"@,
        ShippingMethod::FranceTracking => "shr_1TiyIfPB7bMAkkZ4CTkSVxKw"@,
        ShippingMethod::FranceExpressTracking => "shr_1TiyJFPB7bMAkkZ4XEZdfomw"@,
        ShippingMethod::International => "shr_1TiyJpPB7bMAkkZ4LdAkJKwu"@,
        ShippingMethod::InternationalTracking => "shr_1TiyKOPB7bMAkkZ4k81e2V4f"@,
    }
}

/// The shipping method that a Stripe shipping rate id names, if it is one of
/// the shop's. A second, older rate id also names `FranceTracking`.
pub open spec fn shipping_from_stripe_id(s: Seq<char>) -> Option<ShippingMethod> {
    if s == "shr_1Tiu9nPB7bMAkkZ4zSCGHOUr"@ {
        Some(ShippingMethod::InPerson)
    } else if s == "shr_1TiyHqPB7bMAkkZ4ndxsCgTc"@ {
        Some(ShippingMethod::FranceStandard)
    } else if s == "shr_1TiyIfPB7bMAkkZ4CTkSVxKw"@ || s == "shr_1UDJy1PB7bMAkkZ4nTNP2cTe"@ {
        Some(ShippingMethod::FranceTracking)
    } else if s == "shr_1TiyJFPB7bMAkkZ4XEZdfomw"@ {
        Some(ShippingMethod::FranceExpressTracking)
    } else if s == "shr_1TiyJpPB7bMAkkZ4LdAkJKwu"@ {
        Some(ShippingMethod::International)
    } else if s == "shr_1TiyKOPB7bMAkkZ4k81e2V4f"@ {
        Some(ShippingMethod::InternationalTracking)
    } else {
        None
    }
}

/// The name under which a shipping method is shown to people.
pub open spec fn shipping_label(m: ShippingMethod) -> Seq<char> {
    match m {
        ShippingMethod::InPerson => "Remise en main propre"@,
        ShippingMethod::FranceStandard => "France standard"@,
        ShippingMethod::FranceTracking => "France suivi"@,
        ShippingMethod::FranceExpressTracking => "France express + suivi"@,
        ShippingMethod::International => "Hors France"@,
        ShippingMethod::InternationalTracking => "Hors France + suivi"@,
    }
}

/// The name of the shipping method's variant, as its derived `Debug` writes it.
pub open spec fn shipping_variant_name(m: ShippingMethod) -> Seq<char> {
    match m {
        ShippingMethod::InPerson => "InPerson"@,
        ShippingMethod::FranceStandard => "FranceStandard"@,
        ShippingMethod::FranceTracking => "FranceTracking"@,
        ShippingMethod::FranceExpressTracking => "FranceExpressTracking"@,
        ShippingMethod::International => "International"@,
        ShippingMethod::InternationalTracking => "InternationalTracking"@,
    }
}

/// The shipping details that a collected address gives: its name and each
/// of its address fields.
pub open spec fn shipping_details_of(d: CheckoutAddressDetails) -> ShippingDetails {
    ShippingDetails {
        name: d.name,
        city: d.address.city,
        country: d.address.country,
        line1: d.address.line1,
        line2: d.address.line2,
        postal_code: d.address.postal_code,
        state: d.address.state,
    }
}

impl ShippingDetails {
    /// Takes the shipping details from the address collected at checkout.
    /// This never fails.
    pub fn try_from(value: CheckoutAddressDetails) -> (r: Result<ShippingDetails, PaymentInfoParsingError>)
        ensures
            r == Ok::<ShippingDetails, PaymentInfoParsingError>(shipping_details_of(value)),
    {
        Ok(ShippingDetails {
            name: value.name,
            city: value.address.city,
            country: value.address.country,
            line1: value.address.line1,
            line2: value.address.line2,
            postal_code: value.address.postal_code,
            state: value.address.state,
        })
    }
}

impl ShippingMethod {
    /// The method's Stripe shipping rate id.
    pub fn stripe_id(&self) -> (r: &'static str)
        ensures
            r@ == shipping_stripe_id(*self),
    {
        match self {
            ShippingMethod::InPerson => "shr_1Tiu9nPB7bMAkkZ4zSCGHOUr",
            ShippingMethod::FranceStandard => "shr_1TiyHqPB7bMAkkZ4ndxsCgTc",
            ShippingMethod::FranceTracking => "shr_1TiyIfPB7bMAkkZ4CTkSVxKw",
            ShippingMethod::FranceExpressTracking => "shr_1TiyJFPB7bMAkkZ4XEZdfomw",
            ShippingMethod::International => "shr_1TiyJpPB7bMAkkZ4LdAkJKwu",
            ShippingMethod::InternationalTracking => "shr_1TiyKOPB7bMAkkZ4k81e2V4f",
        }
    }

    /// Reads a Stripe shipping rate id: one of the shop's ids gives its
    /// method, any other string is an `UnknownShippingRate` error holding it.
    pub fn from_str(s: &str) -> (r: Result<ShippingMethod, PaymentInfoParsingError>)
        ensures
            match shipping_from_stripe_id(s@) {
                Some(m) => r == Ok::<ShippingMethod, PaymentInfoParsingError>(m),
                None => r matches Err(e) && e@ == ParseErrorView::UnknownShippingRate(s@),
            },
    {
        if str_eq(s, "shr_1Tiu9nPB7bMAkkZ4zSCGHOUr") {
            Ok(ShippingMethod::InPerson)
        } else if str_eq(s, "shr_1TiyHqPB7bMAkkZ4ndxsCgTc") {
            Ok(ShippingMethod::FranceStandard)
        } else if str_eq(s, "shr_1TiyIfPB7bMAkkZ4CTkSVxKw") || str_eq(s, "shr_1UDJy1PB7bMAkkZ4nTNP2cTe") {
            Ok(ShippingMethod::FranceTracking)
        } else if str_eq(s, "shr_1TiyJFPB7bMAkkZ4XEZdfomw") {
            Ok(ShippingMethod::FranceExpressTracking)
        } else if str_eq(s, "shr_1TiyJpPB7bMAkkZ4LdAkJKwu") {
            Ok(ShippingMethod::International)
        } else if str_eq(s, "shr_1TiyKOPB7bMAkkZ4k81e2V4f") {
            Ok(ShippingMethod::InternationalTracking)
        } else {
            Err(PaymentInfoParsingError::UnknownShippingRate(s.to_string()))
        }
    }

    /// The name under which the method is shown to people.
    pub fn to_string(&self) -> (r: String)
        ensures
            r@ == shipping_label(*self),
    {
        match self {
            ShippingMethod::InPerson => String::from_str("Remise en main propre"),
            ShippingMethod::FranceStandard => String::from_str("France standard"),
            ShippingMethod::FranceTracking => String::from_str("France suivi"),
            ShippingMethod::FranceExpressTracking => String::from_str("France express + suivi"),
            ShippingMethod::International => String::from_str("Hors France"),
            ShippingMethod::InternationalTracking => String::from_str("Hors France + suivi"),
        }
    }

    /// The name of the method's variant, as its derived `Debug` writes it.
    pub fn variant_name(&self) -> (r: &'static str)
        ensures
            r@ == shipping_variant_name(*self),
    {
        match self {
            ShippingMethod::InPerson => "InPerson",
            ShippingMethod::FranceStandard => "FranceStandard",
            ShippingMethod::FranceTracking => "FranceTracking",
            ShippingMethod::FranceExpressTracking => "FranceExpressTracking",
            ShippingMethod::International => "International",
            ShippingMethod::InternationalTracking => "InternationalTracking",
        }
    }
}

/// A Stripe rate id that names a shipping method is that method's own id,
/// except the older rate id that also names `FranceTracking`.
pub proof fn lemma_shipping_id_unique(s: Seq<char>)
    ensures
        shipping_from_stripe_id(s) matches Some(m) ==> (shipping_stripe_id(m) == s || (m == ShippingMethod::FranceTracking && s == "shr_1UDJy1PB7bMAkkZ4nTNP2cTe"@)),
{
}

/// Reading a shipping method's own Stripe rate id gives the method back; so
/// no two methods share a rate id.
pub proof fn lemma_shipping_id_round_trip(m: ShippingMethod)
    ensures
        shipping_from_stripe_id(shipping_stripe_id(m)) == Some(m),
{
    reveal_strlit("shr_1Tiu9nPB7bMAkkZ4zSCGHOUr");
    reveal_strlit("shr_1TiyHqPB7bMAkkZ4ndxsCgTc");
    reveal_strlit("shr_1TiyIfPB7bMAkkZ4CTkSVxKw");
    reveal_strlit("shr_1UDJy1PB7bMAkkZ4nTNP2cTe");
    reveal_strlit("shr_1TiyJFPB7bMAkkZ4XEZdfomw");
    reveal_strlit("shr_1TiyJpPB7bMAkkZ4LdAkJKwu");
    reveal_strlit("shr_1TiyKOPB7bMAkkZ4k81e2V4f");
    let ids = seq![
        "shr_1Tiu9nPB7bMAkkZ4zSCGHOUr"@,
        "shr_1TiyHqPB7bMAkkZ4ndxsCgTc"@,
        "shr_1TiyIfPB7bMAkkZ4CTkSVxKw"@,
        "shr_1UDJy1PB7bMAkkZ4nTNP2cTe"@,
        "shr_1TiyJFPB7bMAkkZ4XEZdfomw"@,
        "shr_1TiyJpPB7bMAkkZ4LdAkJKwu"@,
        "shr_1TiyKOPB7bMAkkZ4k81e2V4f"@,
    ];
    assert(ids[0][7] != ids[1][7]);
    assert(ids[0][7] != ids[2][7]);
    assert(ids[0][5] != ids[3][5]);
    assert(ids[0][7] != ids[4][7]);
    assert(ids[0][7] != ids[5][7]);
    assert(ids[0][7] != ids[6][7]);
    assert(ids[1][8] != ids[2][8]);
    assert(ids[1][5] != ids[3][5]);
    assert(ids[1][8] != ids[4][8]);
    assert(ids[1][8] != ids[5][8]);
    assert(ids[1][8] != ids[6][8]);
    assert(ids[2][5] != ids[3][5]);
    assert(ids[2][8] != ids[4][8]);
    assert(ids[2][8] != ids[5][8]);
    assert(ids[2][8] != ids[6][8]);
    assert(ids[3][5] != ids[4][5]);
    assert(ids[3][5] != ids[5][5]);
    assert(ids[3][5] != ids[6][5]);
    assert(ids[4][9] != ids[5][9]);
    assert(ids[4][8] != ids[6][8]);
    assert(ids[5][8] != ids[6][8]);
}

} // verus!
