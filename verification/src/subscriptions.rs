//! The subscription flow's computing parts: parsing a signup form into a
//! validated subscriber, generating the confirmation token, and building
//! the confirmation message.  Persisting the subscriber and sending the
//! message are the driver's work.

use vstd::prelude::*;
use vstd::string::StringExecFns;

use crate::domain::NewSubscriber;
use crate::domain::SubscriberName;
use crate::domain::contains_forbidden_char;
use crate::domain::count_graphemes;
use crate::domain::name_valid;
use crate::domain::subscriber_email::SubscriberEmail;
use crate::domain::subscriber_email::email_valid;
use crate::text::is_blank;

verus! {

/// The raw signup form: an address and a name, both still unvalidated.
pub struct FormData {
    pub email: String,
    pub name: String,
}

impl NewSubscriber {
    /// Validate a signup form: the name first, then the address; the first
    /// failure's message is returned.
    pub fn parse(form: FormData) -> (r: Result<NewSubscriber, String>)
        ensures
            !name_valid(form.name@) ==> (r matches Err(e) && e@ == form.name@
                + " is not valid subscriber name."@),
            name_valid(form.name@) && !email_valid(form.email@) ==> (r matches Err(e) && e@
                == form.email@ + " is not a valid subscriber email"@),
            name_valid(form.name@) && email_valid(form.email@) ==> (r matches Ok(s) && s.name@
                == form.name@ && s.email@ == form.email@),
    {
        let name = match SubscriberName::parse(form.name) {
            Ok(name) => name,
            Err(e) => {
                return Err(e);
            },
        };
        let email = match SubscriberEmail::parse(form.email) {
            Ok(email) => email,
            Err(e) => {
                return Err(e);
            },
        };
        Ok(NewSubscriber { email, name })
    }
}

/// Returns `true` if the input satisfies all the validation constraints on
/// subscriber names, `false` otherwise.
pub fn is_valid_name(s: &str) -> (r: bool)
    ensures
        r == name_valid(s@),
{
    let is_empty_or_whitespace = is_blank(s);
    let is_too_long = count_graphemes(s) > 256;
    let contains_forbidden = contains_forbidden_char(s);
    !(is_empty_or_whitespace || is_too_long || contains_forbidden)
}

/// An ASCII letter or digit, the alphabet of subscription tokens.
pub open spec fn is_token_char(c: char) -> bool {
    let u = c as u32;
    ||| (0x30 <= u && u <= 0x39)
    ||| (0x41 <= u && u <= 0x5a)
    ||| (0x61 <= u && u <= 0x7a)
}

/// Relies on `rand`'s `Alphanumeric` distribution over the thread rng:
/// every sample is an ASCII letter or digit.  Nothing links one sample to
/// the next; only the alphabet is promised.
#[verifier::external_body]
fn sample_alphanumeric() -> (b: u8)
    ensures
        (0x30 <= b && b <= 0x39) || (0x41 <= b && b <= 0x5a) || (0x61 <= b && b <= 0x7a),
{
    rand::Rng::sample(&mut rand::thread_rng(), rand::distributions::Alphanumeric)
}

/// Relies on `String::push`: it appends exactly the one character.
#[verifier::external_body]
fn push_char(s: &mut String, c: char)
    ensures
        final(s)@ == old(s)@.push(c),
{
    s.push(c);
}

/// Generate a random 25-character case-sensitive subscription token of
/// ASCII letters and digits.
pub fn generate_subscription_token() -> (t: String)
    ensures
        t@.len() == 25,
        forall|i: int| 0 <= i < t@.len() ==> is_token_char(#[trigger] t@[i]),
{
    let mut t = String::new();
    let mut i: usize = 0;
    while i < 25
        invariant
            0 <= i <= 25,
            t@.len() == i,
            forall|j: int| 0 <= j < i ==> is_token_char(#[trigger] t@[j]),
        decreases 25 - i,
    {
        let b = sample_alphanumeric();
        push_char(&mut t, b as char);
        i = i + 1;
    }
    t
}

/// The confirmation link for a token, under the application's base url.
pub fn build_confirmation_link(base_url: &str, subscription_token: &str) -> (r: String)
    ensures
        r@ == base_url@ + "/subscriptions/confirm?subscription_token="@ + subscription_token@,
{
    String::from_str(base_url).concat("/subscriptions/confirm?subscription_token=").concat(
        subscription_token,
    )
}

/// The html rendering of the confirmation message around a link.
pub fn confirmation_html_body(confirmation_link: &str) -> (r: String)
    ensures
        r@ == "Welcome to our newsletter!<br />Click <a href=\""@ + confirmation_link@
            + "\">here</a> to confirm your subscription."@,
{
    String::from_str("Welcome to our newsletter!<br />Click <a href=\"").concat(
        confirmation_link,
    ).concat("\">here</a> to confirm your subscription.")
}

/// The plain-text rendering of the confirmation message around a link.
pub fn confirmation_text_body(confirmation_link: &str) -> (r: String)
    ensures
        r@ == "Welcome to our newsletter!\nVisit "@ + confirmation_link@
            + " to confirm your subscription."@,
{
    String::from_str("Welcome to our newsletter!\nVisit ").concat(confirmation_link).concat(
        " to confirm your subscription.",
    )
}

/// A failure while storing a subscription token; the cause is recorded for
/// the operator.
pub struct StoreTokenError(pub String);

impl StoreTokenError {
    /// The brief description of the failure, as the caller sees it.
    pub fn message(&self) -> (r: String)
        ensures
            r@ == "A database error was encountered while trying to store a subscription token."@,
    {
        String::from_str(
            "A database error was encountered while trying to store a subscription token.",
        )
    }
}

} // verus!
