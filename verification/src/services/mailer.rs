//! The checkout confirmation e-mail.
use vstd::prelude::*;

use crate::stripe::shipping::ShippingMethod;
use crate::stripe::PaymentInfo;

verus! {

/// The subject when the order is handed over in person.
pub const SUBJECT_IN_PERSON: &'static str = "Votre STORM est prêt, à vous de jouer 🪂";
/// The subject when the order is posted.
pub const SUBJECT_POSTED: &'static str = "Votre STORM est en route ✈️";

/// The parts of the e-mail for an order handed over in person, around the
/// customer's name and the shop's address.
pub const IN_PERSON_OPENING: &'static str = "\nBonjour ";
pub const IN_PERSON_MIDDLE: &'static str = ",\n\nVotre commande a bien été reçue et votre paiement confirmé, merci pour votre confiance !\n\nVous avez choisi la remise en main propre. Pour convenir d'un rendez-vous, contactez-nous directement à ";
pub const IN_PERSON_CLOSING: &'static str = " en précisant vos disponibilités.\n\nÀ très vite sur le terrain,\nL'équipe STORM Gear\n                ";

/// The parts of the e-mail for an order posted without tracking.
pub const STANDARD_OPENING: &'static str = "\nBonjour ";
pub const STANDARD_MIDDLE: &'static str = ",\n\nVotre commande a bien été reçue et votre paiement confirmé, merci pour votre confiance !\n\nVotre variomètre STORM est en cours de préparation. Vous recevrez un email dès qu'il sera expédié.\n\nSi vous avez la moindre question d'ici là, n'hésitez pas à nous écrire à ";
pub const STANDARD_CLOSING: &'static str = ".\n\nBons vols,\nL'équipe STORM Gear\n        ";

/// The parts of the e-mail for an order posted with tracking.
pub const TRACKING_OPENING: &'static str = "\nBonjour ";
pub const TRACKING_MIDDLE: &'static str = ",\n\nVotre commande a bien été reçue et votre paiement confirmé, merci pour votre confiance !\n\nVotre variomètre STORM est en cours de préparation. Vous recevrez un email de suivi dès qu'il sera expédié.\n\nSi vous avez la moindre question d'ici là, n'hésitez pas à nous écrire à ";
pub const TRACKING_CLOSING: &'static str = ".\n\nBons vols,\nL'équipe STORM Gear\n                ";

#[verifier::external_type_specification]
#[verifier::external_body]
pub struct ExMailbox(lettre::message::Mailbox);

#[verifier::external_type_specification]
#[verifier::external_body]
pub struct ExAddressError(lettre::address::AddressError);

#[verifier::external_type_specification]
#[verifier::external_body]
pub struct ExEmailError(lettre::error::Error);

#[verifier::external_type_specification]
#[verifier::external_body]
pub struct ExSmtpError(lettre::transport::smtp::Error);

/// Why the confirmation e-mail could not be sent.
#[derive(Debug)]
pub enum MailerError {
    /// The customer's e-mail address is not a valid mailbox.
    Parse(lettre::address::AddressError),
    /// The SMTP server refused or failed the delivery.
    SMTP(lettre::transport::smtp::Error),
    /// `lettre` refused to build the message from the two addresses.
    Build(lettre::error::Error),
}

/// The confirmation e-mail of a checkout.
#[derive(Debug, Clone)]
pub struct ConfirmationEmail {
    /// The recipient: the customer's e-mail address.
    pub to: String,
    pub subject: String,
    pub body: String,
}

/// The subject of the confirmation e-mail for a shipping method.
pub open spec fn confirmation_subject_text(m: ShippingMethod) -> Seq<char> {
    match m {
        ShippingMethod::InPerson => SUBJECT_IN_PERSON@,
        _ => SUBJECT_POSTED@,
    }
}

/// The e-mail for an order handed over in person.
pub open spec fn in_person_email_text(name: Seq<char>, from_email: Seq<char>) -> Seq<char> {
    IN_PERSON_OPENING@ + name + IN_PERSON_MIDDLE@ + from_email + IN_PERSON_CLOSING@
}

/// The e-mail for an order posted without tracking.
pub open spec fn standard_email_text(name: Seq<char>, from_email: Seq<char>) -> Seq<char> {
    STANDARD_OPENING@ + name + STANDARD_MIDDLE@ + from_email + STANDARD_CLOSING@
}

/// The e-mail for an order posted with tracking.
pub open spec fn tracking_email_text(name: Seq<char>, from_email: Seq<char>) -> Seq<char> {
    TRACKING_OPENING@ + name + TRACKING_MIDDLE@ + from_email + TRACKING_CLOSING@
}

/// The body of the confirmation e-mail for a shipping method: handed over
/// in person, posted (France standard, international), or posted with
/// tracking (France tracking, France express, international tracking).
pub open spec fn confirmation_body_text(m: ShippingMethod, name: Seq<char>, from_email: Seq<char>) -> Seq<char> {
    match m {
        ShippingMethod::InPerson => in_person_email_text(name, from_email),
        ShippingMethod::FranceStandard | ShippingMethod::International => standard_email_text(name, from_email),
        _ => tracking_email_text(name, from_email),
    }
}

/// Every confirmation e-mail greets the customer by name ("Bonjour", then
/// the name) and gives the shop's address `from_email` as the address to
/// write to, whatever the shipping method.
pub proof fn lemma_confirmation_greets_customer_and_gives_shop_address(m: ShippingMethod, name: Seq<char>, from_email: Seq<char>)
    ensures
        ({
            let body = confirmation_body_text(m, name, from_email);
            &&& body.len() >= 9 + name.len()
            &&& body.subrange(0, 9 + name.len() as int) == "\nBonjour "@ + name
            &&& exists|i: int| 9 + name.len() <= i && i + from_email.len() <= body.len()
                && #[trigger] body.subrange(i, i + from_email.len() as int) == from_email
        }),
{
    reveal_strlit("\nBonjour ");
    let body = confirmation_body_text(m, name, from_email);
    let (opening, middle, closing) = match m {
        ShippingMethod::InPerson => (IN_PERSON_OPENING@, IN_PERSON_MIDDLE@, IN_PERSON_CLOSING@),
        ShippingMethod::FranceStandard | ShippingMethod::International => (STANDARD_OPENING@, STANDARD_MIDDLE@, STANDARD_CLOSING@),
        _ => (TRACKING_OPENING@, TRACKING_MIDDLE@, TRACKING_CLOSING@),
    };
    assert(opening == "\nBonjour "@);
    assert(body == opening + name + middle + from_email + closing);
    let i: int = (opening.len() + name.len() + middle.len()) as int;
    assert(body.subrange(0, 9 + name.len() as int) =~= "\nBonjour "@ + name);
    assert(body.subrange(i, i + from_email.len() as int) =~= from_email);
}

/// Whether `needle` occurs in `text`.
pub open spec fn mentions(text: Seq<char>, needle: Seq<char>) -> bool {
    exists|i: int| 0 <= i && i + needle.len() <= text.len() && #[trigger] text.subrange(i, i + needle.len()) == needle
}

/// The e-mail for a shipping method with tracking announces a tracking
/// e-mail ("email de suivi"), and the e-mail for an order handed over in
/// person says so ("remise en main propre").
pub proof fn lemma_confirmation_follows_shipping_method(m: ShippingMethod, name: Seq<char>, from_email: Seq<char>)
    ensures
        (m == ShippingMethod::FranceTracking || m == ShippingMethod::FranceExpressTracking
            || m == ShippingMethod::InternationalTracking)
            ==> mentions(confirmation_body_text(m, name, from_email), "email de suivi"@),
        m == ShippingMethod::InPerson ==> mentions(confirmation_body_text(m, name, from_email), "remise en main propre"@),
{
    let body = confirmation_body_text(m, name, from_email);
    match m {
        ShippingMethod::InPerson => {
            reveal_strlit("remise en main propre");
            reveal_strlit(",\n\nVotre commande a bien été reçue et votre paiement confirmé, merci pour votre confiance !\n\nVous avez choisi la remise en main propre. Pour convenir d'un rendez-vous, contactez-nous directement à ");
            let k = (IN_PERSON_OPENING@.len() + name.len()) as int;
            assert(IN_PERSON_MIDDLE@.subrange(113, 134) =~= "remise en main propre"@);
            let needle = "remise en main propre"@;
            assert(body.subrange(k + 113, k + 113 + needle.len()) =~= IN_PERSON_MIDDLE@.subrange(113, 134));
            assert(mentions(body, needle));
        },
        ShippingMethod::FranceTracking | ShippingMethod::FranceExpressTracking | ShippingMethod::InternationalTracking => {
            reveal_strlit("email de suivi");
            reveal_strlit(",\n\nVotre commande a bien été reçue et votre paiement confirmé, merci pour votre confiance !\n\nVotre variomètre STORM est en cours de préparation. Vous recevrez un email de suivi dès qu'il sera expédié.\n\nSi vous avez la moindre question d'ici là, n'hésitez pas à nous écrire à ");
            let k = (TRACKING_OPENING@.len() + name.len()) as int;
            assert(TRACKING_MIDDLE@.subrange(162, 176) =~= "email de suivi"@);
            let needle = "email de suivi"@;
            assert(body.subrange(k + 162, k + 162 + needle.len()) =~= TRACKING_MIDDLE@.subrange(162, 176));
            assert(mentions(body, needle));
        },
        _ => {},
    }
}

fn fill(opening: &str, name: &str, middle: &str, from_email: &str, closing: &str) -> (r: String)
    ensures
        r@ == opening@ + name@ + middle@ + from_email@ + closing@,
{
    let mut s = String::from_str(opening);
    s.append(name);
    s.append(middle);
    s.append(from_email);
    s.append(closing);
    s
}

/// The subject of the confirmation e-mail for a shipping method.
pub fn confirmation_subject(m: ShippingMethod) -> (r: &'static str)
    ensures
        r@ == confirmation_subject_text(m),
{
    match m {
        ShippingMethod::InPerson => SUBJECT_IN_PERSON,
        _ => SUBJECT_POSTED,
    }
}

/// The e-mail for an order handed over in person: it invites the customer
/// to write to `from_email` to arrange a meeting.
pub fn render_inperson_email(from_email: &str, info: &PaymentInfo) -> (r: String)
    ensures
        r@ == in_person_email_text(info.customer_name@, from_email@),
{
    fill(IN_PERSON_OPENING, info.customer_name.as_str(), IN_PERSON_MIDDLE, from_email, IN_PERSON_CLOSING)
}

/// The e-mail for an order posted without tracking.
pub fn render_standard_email(from_email: &str, info: &PaymentInfo) -> (r: String)
    ensures
        r@ == standard_email_text(info.customer_name@, from_email@),
{
    fill(STANDARD_OPENING, info.customer_name.as_str(), STANDARD_MIDDLE, from_email, STANDARD_CLOSING)
}

/// The e-mail for an order posted with tracking.
pub fn render_tracking_email(from_email: &str, info: &PaymentInfo) -> (r: String)
    ensures
        r@ == tracking_email_text(info.customer_name@, from_email@),
{
    fill(TRACKING_OPENING, info.customer_name.as_str(), TRACKING_MIDDLE, from_email, TRACKING_CLOSING)
}

/// The confirmation e-mail that the shop, writing from `from_email`, sends
/// to the customer of a payment: its subject and body follow the shipping
/// method.
pub fn checkout_confirmation(from_email: &str, info: &PaymentInfo) -> (r: ConfirmationEmail)
    ensures
        r.to == info.customer_email,
        r.subject@ == confirmation_subject_text(info.shipping_method),
        r.body@ == confirmation_body_text(info.shipping_method, info.customer_name@, from_email@),
{
    let body = match info.shipping_method {
        ShippingMethod::InPerson => render_inperson_email(from_email, info),
        ShippingMethod::FranceStandard | ShippingMethod::International => render_standard_email(from_email, info),
        ShippingMethod::FranceTracking
        | ShippingMethod::InternationalTracking
        | ShippingMethod::FranceExpressTracking => render_tracking_email(from_email, info),
    };
    ConfirmationEmail {
        to: info.customer_email.clone(),
        subject: String::from_str(confirmation_subject(info.shipping_method)),
        body,
    }
}

/// Whether `lettre` reads a string as a mailbox (an e-mail address, with an
/// optional display name), as its `Mailbox::from_str` grammar decides.
pub uninterp spec fn mailbox_parses(s: Seq<char>) -> bool;

/// Calls `lettre::message::Mailbox::from_str`. Its result depends on the
/// string alone: it is `Ok` exactly when the string is a mailbox, which is
/// named `mailbox_parses`. The mailbox it gives is not described.
#[verifier::external_body]
fn parse_mailbox(s: &str) -> (r: Result<lettre::message::Mailbox, lettre::address::AddressError>)
    ensures
        r is Ok <==> mailbox_parses(s@),
{
    s.parse()
}

/// The latest time, in seconds since the epoch, that a message can carry as
/// its date: the start of the year 10000.
pub const LAST_MESSAGE_DATE: u64 = 253402300800;

/// The bytes of the message that `lettre` builds from a `From` and a `To`
/// mailbox, a subject, a plain-text body and a date (seconds since the
/// epoch), as `Message::formatted` writes them; `None` when its builder
/// refuses the message. It depends on these five values alone.
pub uninterp spec fn formatted_message(from: Seq<char>, to: Seq<char>, subject: Seq<char>, body: Seq<char>, date_secs: u64) -> Option<Seq<u8>>;

/// Calls `lettre::Message::builder()` with the `From` and `To` mailboxes that
/// `Mailbox::from_str` reads from `from` and `to`, the subject, the date and
/// a plain-text body, then `Message::formatted`. The outcome is what
/// `formatted_message` names: the builder adds no random header (no
/// `Message-ID` unless asked) and the date is given, so it depends on the
/// arguments alone. The builder reads the two mailboxes back from their
/// header text and may refuse the message then, so success is not promised.
/// The date must be before the year 10000, past which `httpdate` panics.
#[verifier::external_body]
fn format_message(from: &str, to: &str, subject: &str, body: String, date_secs: u64) -> (r: Result<Vec<u8>, lettre::error::Error>)
    requires
        mailbox_parses(from@),
        mailbox_parses(to@),
        date_secs < LAST_MESSAGE_DATE,
    ensures
        match r {
            Ok(bytes) => formatted_message(from@, to@, subject@, body@, date_secs) == Some(bytes@),
            Err(_) => formatted_message(from@, to@, subject@, body@, date_secs) is None,
        },
{
    let from: lettre::message::Mailbox = from.parse().expect("a mailbox");
    let to: lettre::message::Mailbox = to.parse().expect("a mailbox");
    let date = std::time::UNIX_EPOCH + std::time::Duration::from_secs(date_secs);
    let message = lettre::Message::builder().from(from).to(to).subject(subject).date(date).body(body)?;
    Ok(message.formatted())
}

/// A message ready to send over SMTP: its sender and its one recipient, for
/// the envelope, and its bytes.
#[derive(Debug, Clone)]
pub struct OutgoingEmail {
    pub from: String,
    pub to: String,
    pub bytes: Vec<u8>,
}

/// The confirmation e-mail of a payment as a message ready to send, dated
/// `date_secs` (seconds since the epoch), from the shop's address
/// `from_email` to the customer's address alone, with the subject and body
/// of `checkout_confirmation`. It is `None` when the shop's address is not a
/// mailbox, `Parse` when the customer's address is not one, and `Build` when
/// `lettre` refuses to build the message.
pub fn confirmation_message(from_email: &str, info: &PaymentInfo, date_secs: u64) -> (r: Option<Result<OutgoingEmail, MailerError>>)
    requires
        date_secs < LAST_MESSAGE_DATE,
    ensures
        r is None <==> !mailbox_parses(from_email@),
        mailbox_parses(from_email@) && !mailbox_parses(info.customer_email@)
            ==> (r matches Some(Err(e)) && e is Parse),
        mailbox_parses(from_email@) && mailbox_parses(info.customer_email@) ==> match formatted_message(
            from_email@,
            info.customer_email@,
            confirmation_subject_text(info.shipping_method),
            confirmation_body_text(info.shipping_method, info.customer_name@, from_email@),
            date_secs,
        ) {
            Some(bytes) => r matches Some(Ok(m)) && m.from@ == from_email@ && m.to@ == info.customer_email@
                && m.bytes@ == bytes,
            None => r matches Some(Err(e)) && e is Build,
        },
{
    match parse_mailbox(from_email) {
        Ok(_) => {},
        Err(_) => { return None; },
    }
    match parse_mailbox(info.customer_email.as_str()) {
        Ok(_) => {},
        Err(e) => { return Some(Err(MailerError::Parse(e))); },
    }
    let email = checkout_confirmation(from_email, info);
    match format_message(from_email, email.to.as_str(), email.subject.as_str(), email.body, date_secs) {
        Ok(bytes) => Some(Ok(OutgoingEmail { from: String::from_str(from_email), to: email.to, bytes })),
        Err(e) => Some(Err(MailerError::Build(e))),
    }
}

} // verus!
