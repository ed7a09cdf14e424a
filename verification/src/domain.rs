//! Subscriber domain types.  A `SubscriberName` can only be built through its
//! validating factory, so every value of the type satisfies the name rules:
//! not blank, at most 256 extended grapheme clusters, and free of the
//! characters that are unsafe for storage and rendering.

use unicode_segmentation::UnicodeSegmentation;
use vstd::prelude::*;
use vstd::string::StrSliceExecFns;
use vstd::string::StringExecFns;

use crate::domain::subscriber_email::SubscriberEmail;
use crate::domain::subscriber_email::email_valid;
use crate::text::all_whitespace;
use crate::text::is_blank;

pub mod subscriber_email;

verus! {

/// The number of extended grapheme clusters of a string, as
/// `unicode_segmentation` counts them.  The count depends on the characters
/// alone.
pub uninterp spec fn grapheme_count(s: Seq<char>) -> nat;

/// Relies on `unicode_segmentation::UnicodeSegmentation::graphemes` with the
/// extended grapheme definition: counting the clusters it yields.  An empty
/// string yields no cluster.
#[verifier::external_body]
pub(crate) fn count_graphemes(s: &str) -> (n: usize)
    ensures
        n as nat == grapheme_count(s@),
        s@.len() == 0 ==> n == 0,
{
    s.graphemes(true).count()
}

/// The characters a subscriber name may not contain.
pub open spec fn is_forbidden_char(c: char) -> bool {
    ||| c == '/'
    ||| c == '('
    ||| c == ')'
    ||| c == '"'
    ||| c == '<'
    ||| c == '>'
    ||| c == '\\'
    ||| c == '{'
    ||| c == '}'
}

/// Whether some character of the string is forbidden in a name.
pub open spec fn has_forbidden_char(s: Seq<char>) -> bool {
    exists|i: int| 0 <= i < s.len() && is_forbidden_char(#[trigger] s[i])
}

/// The validation rule for subscriber names.
pub open spec fn name_valid(s: Seq<char>) -> bool {
    &&& !all_whitespace(s)
    &&& grapheme_count(s) <= 256
    &&& !has_forbidden_char(s)
}

pub(crate) fn contains_forbidden_char(s: &str) -> (r: bool)
    ensures
        r == has_forbidden_char(s@),
{
    let n: usize = s.unicode_len();
    let mut i: usize = 0;
    while i < n
        invariant
            n == s@.len(),
            0 <= i <= n,
            forall|j: int| 0 <= j < i ==> !is_forbidden_char(#[trigger] s@[j]),
        decreases n - i,
    {
        let c = s.get_char(i);
        if c == '/' || c == '(' || c == ')' || c == '"' || c == '<' || c == '>' || c == '\\'
            || c == '{' || c == '}' {
            return true;
        }
        i = i + 1;
    }
    false
}

/// A subscriber name that satisfied every name rule when it was built.
#[derive(Debug)]
pub struct SubscriberName {
    name: String,
}

impl View for SubscriberName {
    type V = Seq<char>;

    closed spec fn view(&self) -> Seq<char> {
        self.name@
    }
}

impl SubscriberName {
    /// Every value of the type was accepted by `parse`.
    pub open spec fn valid(&self) -> bool {
        name_valid(self@)
    }

    /// Returns a `SubscriberName` wrapping the input unchanged if the input
    /// satisfies all the validation constraints on subscriber names, and the
    /// rejection message otherwise.
    pub fn parse(s: String) -> (r: Result<SubscriberName, String>)
        ensures
            name_valid(s@) ==> (r matches Ok(n) && n@ == s@),
            !name_valid(s@) ==> (r matches Err(e) && e@ == s@ + " is not valid subscriber name."@),
    {
        let is_empty_or_whitespace = is_blank(s.as_str());
        let is_too_long = count_graphemes(s.as_str()) > 256;
        let contains_forbidden = contains_forbidden_char(s.as_str());
        if is_empty_or_whitespace || is_too_long || contains_forbidden {
            Err(s.concat(" is not valid subscriber name."))
        } else {
            Ok(SubscriberName { name: s })
        }
    }

    /// Read-only access to the wrapped string; the invariant stays intact.
    pub fn as_str(&self) -> (r: &str)
        ensures
            r@ == self@,
    {
        self.name.as_str()
    }
}

/// A subscriber whose name and address both passed validation.
#[derive(Debug)]
pub struct NewSubscriber {
    pub email: SubscriberEmail,
    pub name: SubscriberName,
}

} // verus!
