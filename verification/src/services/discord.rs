//! The message posted to the shop's Discord channel for a new order.
use vstd::prelude::*;

use crate::stripe::shipping::shipping_label;
use crate::stripe::PaymentInfo;
use crate::utils::{amount_text, amount_to_string};

verus! {

/// The pictures that illustrate a new order; one is picked at random.
pub const MEME_URLS: [&'static str; 4] = [
    "https://media.giphy.com/media/v1.Y2lkPTc5MGI3NjExd214Z3p5bm1ycDVidjJzMTJidTUzYnc0MHFybWR0ZHJjeWJ6OWx4dSZlcD12MV9naWZzX3NlYXJjaCZjdD1n/YnkMcHgNIMW4Yfmjxr/giphy.gif",
    "https://media.giphy.com/media/v1.Y2lkPTc5MGI3NjExd214Z3p5bm1ycDVidjJzMTJidTUzYnc0MHFybWR0ZHJjeWJ6OWx4dSZlcD12MV9naWZzX3NlYXJjaCZjdD1n/Opgs8NUosTAnRSFYzc/giphy.gif",
    "https://media.giphy.com/media/v1.Y2lkPTc5MGI3NjExd214Z3p5bm1ycDVidjJzMTJidTUzYnc0MHFybWR0ZHJjeWJ6OWx4dSZlcD12MV9naWZzX3NlYXJjaCZjdD1n/JtBZm3Getg3dqxK0zP/giphy.gif",
    "https://media.giphy.com/media/v1.Y2lkPWVjZjA1ZTQ3dGN5bGFuNGpsaGtzaGFpdWFodzVsa3Y3b2pubWpzc2YzYWhkOTdqbiZlcD12MV9naWZzX3NlYXJjaCZjdD1n/w6NLkHuoWlcdXIHktr/giphy.gif",
];

/// The colour of the embed, as an RGB number.
pub const EMBED_COLOR: u32 = 0x451bea;
/// The embed's title.
pub const EMBED_TITLE: &'static str = "🪂 Nouvelle commande !";
/// The name of the field that holds the amount.
pub const AMOUNT_FIELD: &'static str = "💶  Montant";
/// The name of the field that holds the shipping method.
pub const SHIPPING_FIELD: &'static str = "📦  Mode de livraison";

/// A field of an embed.
#[derive(Debug, Clone)]
pub struct EmbedField {
    pub name: String,
    pub value: String,
    pub inline: bool,
}

/// A Discord embed.
#[derive(Debug, Clone)]
pub struct Embed {
    pub color: u32,
    pub title: String,
    pub image_url: String,
    pub fields: Vec<EmbedField>,
}

/// A message for a Discord webhook.
#[derive(Debug, Clone)]
pub struct DiscordMessage {
    pub embeds: Vec<Embed>,
}

/// The amount of a payment as the message shows it: two decimals, a space
/// and the currency.
pub open spec fn amount_field_text(info: PaymentInfo) -> Seq<char> {
    amount_text(info.revenue_cents as int) + " "@ + info.currency@
}

/// `m` is the new-order message of payment `info`, illustrated by the
/// picture at `image_url`: one embed with the shop's colour and title, and
/// the amount and shipping method as its two fields, neither inline.
pub open spec fn is_new_order_message(m: DiscordMessage, info: PaymentInfo, image_url: Seq<char>) -> bool {
    &&& m.embeds@.len() == 1
    &&& m.embeds@[0].color == EMBED_COLOR
    &&& m.embeds@[0].title@ == EMBED_TITLE@
    &&& m.embeds@[0].image_url@ == image_url
    &&& m.embeds@[0].fields@.len() == 2
    &&& m.embeds@[0].fields@[0].name@ == AMOUNT_FIELD@
    &&& m.embeds@[0].fields@[0].value@ == amount_field_text(info)
    &&& !m.embeds@[0].fields@[0].inline
    &&& m.embeds@[0].fields@[1].name@ == SHIPPING_FIELD@
    &&& m.embeds@[0].fields@[1].value@ == shipping_label(info.shipping_method)
    &&& !m.embeds@[0].fields@[1].inline
}

/// The amount field of a new-order message writes the payment's amount in
/// minor units with two decimals, then a space and the payment's own
/// currency code; its shipping field names the payment's shipping method.
pub proof fn lemma_new_order_message_states_amount_and_currency(m: DiscordMessage, info: PaymentInfo, image_url: Seq<char>)
    requires
        is_new_order_message(m, info, image_url),
    ensures
        ({
            let value = m.embeds@[0].fields@[0].value@;
            let n = info.currency@.len() as int;
            &&& value.len() == amount_text(info.revenue_cents as int).len() + 1 + n
            &&& value.subrange(0, value.len() - n - 1) == amount_text(info.revenue_cents as int)
            &&& value[value.len() - n - 1] == ' '
            &&& value.subrange(value.len() - n, value.len() as int) == info.currency@
        }),
        m.embeds@[0].fields@[1].value@ == shipping_label(info.shipping_method),
{
    reveal_strlit(" ");
    let value = m.embeds@[0].fields@[0].value@;
    let a = amount_text(info.revenue_cents as int);
    let n = info.currency@.len() as int;
    assert(value == a + " "@ + info.currency@);
    assert(value.subrange(0, value.len() - n - 1) =~= a);
    assert(value.subrange(value.len() - n, value.len() as int) =~= info.currency@);
    assert(value[value.len() - n - 1] == " "@[0]);
}

/// The new-order message of a payment, illustrated by `image_url`.
pub fn new_order_message(info: &PaymentInfo, image_url: &str) -> (r: DiscordMessage)
    ensures
        is_new_order_message(r, *info, image_url@),
{
    let mut amount = amount_to_string(info.revenue_cents);
    amount.append(" ");
    amount.append(info.currency.as_str());
    let mut fields: Vec<EmbedField> = Vec::new();
    fields.push(EmbedField { name: String::from_str(AMOUNT_FIELD), value: amount, inline: false });
    fields.push(EmbedField {
        name: String::from_str(SHIPPING_FIELD),
        value: info.shipping_method.to_string(),
        inline: false,
    });
    let embed = Embed {
        color: EMBED_COLOR,
        title: String::from_str(EMBED_TITLE),
        image_url: String::from_str(image_url),
        fields,
    };
    let mut embeds: Vec<Embed> = Vec::new();
    embeds.push(embed);
    DiscordMessage { embeds }
}

/// Calls `rand::seq::IndexedRandom::choose` on `urls` with `rand::rng()`.
/// Its source returns, for a non-empty slice, `Some` of the element at an
/// index drawn below the slice's length; which one is left to chance.
#[verifier::external_body]
fn choose_url(urls: &[&'static str]) -> (r: &'static str)
    requires
        urls@.len() > 0,
    ensures
        urls@.contains(r),
{
    *rand::seq::IndexedRandom::choose(urls, &mut rand::rng()).unwrap()
}

/// The new-order message of a payment, illustrated by one of `MEME_URLS`
/// picked at random.
pub fn checkout_completed_message(info: &PaymentInfo) -> (r: DiscordMessage)
    ensures
        exists|i: int| 0 <= i < 4 && is_new_order_message(r, *info, MEME_URLS@[i]@),
{
    let urls = MEME_URLS;
    let url = choose_url(urls.as_slice());
    new_order_message(info, url)
}

} // verus!
