//! A subscriber address validated against the HTML5 e-mail shape.  The rule
//! itself is the `validator` crate's; the type records that it passed.

use vstd::prelude::*;
use vstd::string::StringExecFns;

verus! {

/// Whether `validator` accepts the string as an e-mail address under the
/// HTML5 rules.  The answer depends on the characters alone.
pub uninterp spec fn email_valid(s: Seq<char>) -> bool;

/// Relies on `validator::validate_email`: the answer is a function of the
/// input alone; it rejects the empty string and any string without `'@'`.
#[verifier::external_body]
fn check_email(s: &str) -> (r: bool)
    ensures
        r == email_valid(s@),
        s@.len() == 0 ==> !r,
        (forall|i: int| 0 <= i < s@.len() ==> s@[i] != '@') ==> !r,
{
    validator::validate_email(s)
}

/// A subscriber address that passed the e-mail validation when it was built.
#[derive(Debug)]
pub struct SubscriberEmail {
    email: String,
}

impl View for SubscriberEmail {
    type V = Seq<char>;

    closed spec fn view(&self) -> Seq<char> {
        self.email@
    }
}

impl SubscriberEmail {
    /// Every value of the type was accepted by `parse`.
    pub open spec fn valid(&self) -> bool {
        email_valid(self@)
    }

    /// Returns a `SubscriberEmail` wrapping the input unchanged if the input
    /// is a valid address, and the rejection message otherwise.
    pub fn parse(s: String) -> (r: Result<SubscriberEmail, String>)
        ensures
            email_valid(s@) ==> (r matches Ok(e) && e@ == s@),
            !email_valid(s@) ==> (r matches Err(m) && m@ == s@ + " is not a valid subscriber email"@),
    {
        if check_email(s.as_str()) {
            Ok(SubscriberEmail { email: s })
        } else {
            Err(s.concat(" is not a valid subscriber email"))
        }
    }

    /// Read-only access to the wrapped string; the invariant stays intact.
    pub fn as_str(&self) -> (r: &str)
        ensures
            r@ == self@,
    {
        self.email.as_str()
    }
}

} // verus!
