//! Credential extraction and the login decision.  `basic_authentication`
//! parses an `Authorization` header value of the `Basic` scheme into a
//! username and password; `login_decision` maps the outcome of credential
//! validation to the redirect the caller receives.

use base64::Engine;
use vstd::prelude::*;
use vstd::string::StrSliceExecFns;
use vstd::string::StringExecFns;
use vstd::utf8::decode_utf8;
use vstd::utf8::valid_utf8;

use crate::idempotency::IdentityId;

verus! {

/// What `base64`'s `STANDARD` alphabet decodes the string to, if anything.
/// The result depends on the input alone.
pub uninterp spec fn b64_standard_decoded(s: Seq<char>) -> Option<Seq<u8>>;

/// Relies on `base64::engine::general_purpose::STANDARD`'s `decode`: a pure
/// decoder of the standard alphabet.
#[verifier::external_body]
fn base64_decode(s: &str) -> (r: Option<Vec<u8>>)
    ensures
        r matches Some(v) ==> b64_standard_decoded(s@) == Some(v@),
        r is None ==> b64_standard_decoded(s@) is None,
{
    base64::engine::general_purpose::STANDARD.decode(s).ok()
}

/// Relies on `String::from_utf8`: it succeeds exactly on valid UTF-8 input
/// and returns the string those bytes encode.
#[verifier::external_body]
fn utf8_to_string(bytes: Vec<u8>) -> (r: Option<String>)
    ensures
        r matches Some(s) ==> valid_utf8(bytes@) && s@ == decode_utf8(bytes@),
        r is None ==> !valid_utf8(bytes@),
{
    String::from_utf8(bytes).ok()
}

/// A username and password extracted from the request.
#[derive(Debug)]
pub struct Credentials {
    pub username: String,
    pub password: String,
}

/// Why an `Authorization` header value was rejected.
#[derive(Clone, Copy, PartialEq, Eq, Structural, Debug)]
pub enum BasicAuthError {
    /// The value does not start with the `Basic ` scheme marker.
    SchemeNotBasic,
    /// The part after the scheme is not valid standard base64.
    InvalidBase64,
    /// The decoded bytes are not valid UTF-8.
    NotUtf8,
    /// The decoded string holds no `':'`, so no password was provided.
    MissingPassword,
}

impl BasicAuthError {
    /// The brief description of the failure.
    pub fn message(&self) -> (r: String)
        ensures
            match self {
                BasicAuthError::SchemeNotBasic => r@ == "The authorization scheme was not 'Basic'."@,
                BasicAuthError::InvalidBase64 => r@
                    == "Failed to base64-decode 'Basic' credentials."@,
                BasicAuthError::NotUtf8 => r@ == "The decoded credential string is not valid UTF8."@,
                BasicAuthError::MissingPassword => r@
                    == "A password must be provided in 'Basic' auth."@,
            },
    {
        match self {
            BasicAuthError::SchemeNotBasic => String::from_str(
                "The authorization scheme was not 'Basic'.",
            ),
            BasicAuthError::InvalidBase64 => String::from_str(
                "Failed to base64-decode 'Basic' credentials.",
            ),
            BasicAuthError::NotUtf8 => String::from_str(
                "The decoded credential string is not valid UTF8.",
            ),
            BasicAuthError::MissingPassword => String::from_str(
                "A password must be provided in 'Basic' auth.",
            ),
        }
    }
}

/// Whether the header value starts with the `Basic ` scheme marker.
pub open spec fn has_basic_prefix(s: Seq<char>) -> bool {
    s.len() >= 6 && s.subrange(0, 6) == "Basic "@
}

/// `i` is the position of the first `':'` of `s`.
pub open spec fn is_first_colon(s: Seq<char>, i: int) -> bool {
    &&& 0 <= i < s.len()
    &&& s[i] == ':'
    &&& forall|j: int| 0 <= j < i ==> s[j] != ':'
}

/// The pieces before and after the first `':'` of `s`, if `s` has one.
pub open spec fn split_at_first_colon(s: Seq<char>) -> Option<(Seq<char>, Seq<char>)>
    decreases s.len(),
{
    if s.len() == 0 {
        None
    } else if s[0] == ':' {
        Some((Seq::empty(), s.drop_first()))
    } else {
        match split_at_first_colon(s.drop_first()) {
            None => None,
            Some(p) => Some((seq![s[0]] + p.0, p.1)),
        }
    }
}

proof fn lemma_split_at_first_colon(s: Seq<char>, i: int)
    requires
        is_first_colon(s, i),
    ensures
        split_at_first_colon(s) == Some((s.subrange(0, i), s.subrange(i + 1, s.len() as int))),
    decreases i,
{
    if i == 0 {
        assert(s.subrange(0, 0) =~= Seq::<char>::empty());
        assert(s.drop_first() =~= s.subrange(1, s.len() as int));
    } else {
        assert(s[0] != ':');
        assert(is_first_colon(s.drop_first(), i - 1)) by {
            assert(s.drop_first()[i - 1] == s[i]);
            assert(forall|j: int|
                0 <= j < i - 1 ==> #[trigger] s.drop_first()[j] == s[j + 1] && s[j + 1] != ':');
        }
        lemma_split_at_first_colon(s.drop_first(), i - 1);
        assert(seq![s[0]] + s.drop_first().subrange(0, i - 1) =~= s.subrange(0, i));
        assert(s.drop_first().subrange(i, s.drop_first().len() as int) =~= s.subrange(
            i + 1,
            s.len() as int,
        ));
    }
}

proof fn lemma_split_no_colon(s: Seq<char>)
    requires
        forall|j: int| 0 <= j < s.len() ==> s[j] != ':',
    ensures
        split_at_first_colon(s) is None,
    decreases s.len(),
{
    if s.len() > 0 {
        lemma_split_no_colon(s.drop_first());
    }
}

/// What `basic_authentication` extracts from a header value: the username
/// before the first `':'` of the decoded credentials and the password after
/// it, or the first reason the value is unusable.
pub open spec fn spec_basic_auth(h: Seq<char>) -> Result<
    (Seq<char>, Seq<char>),
    BasicAuthError,
> {
    if !has_basic_prefix(h) {
        Err(BasicAuthError::SchemeNotBasic)
    } else {
        match b64_standard_decoded(h.subrange(6, h.len() as int)) {
            None => Err(BasicAuthError::InvalidBase64),
            Some(bytes) => {
                if !valid_utf8(bytes) {
                    Err(BasicAuthError::NotUtf8)
                } else {
                    match split_at_first_colon(decode_utf8(bytes)) {
                        None => Err(BasicAuthError::MissingPassword),
                        Some(p) => Ok(p),
                    }
                }
            },
        }
    }
}

/// Extract `Basic` credentials from an `Authorization` header value: strip
/// the scheme marker, base64-decode the remainder, read it as UTF-8, and
/// split it at the first `':'` into username and password.
pub fn basic_authentication(header: &str) -> (r: Result<Credentials, BasicAuthError>)
    ensures
        match r {
            Ok(c) => (spec_basic_auth(header@) matches Ok(parts) && c.username@ == parts.0
                && c.password@ == parts.1),
            Err(e) => spec_basic_auth(header@) == Err::<(Seq<char>, Seq<char>), BasicAuthError>(e),
        },
{
    proof {
        reveal_strlit("Basic ");
    }
    let n: usize = header.unicode_len();
    if n < 6 {
        return Err(BasicAuthError::SchemeNotBasic);
    }
    if header.get_char(0) != 'B' || header.get_char(1) != 'a' || header.get_char(2) != 's'
        || header.get_char(3) != 'i' || header.get_char(4) != 'c' || header.get_char(5) != ' ' {
        proof {
            assert(!has_basic_prefix(header@)) by {
                if header@.subrange(0, 6) == "Basic "@ {
                    assert(header@[0] == "Basic "@[0]);
                    assert(header@[1] == "Basic "@[1]);
                    assert(header@[2] == "Basic "@[2]);
                    assert(header@[3] == "Basic "@[3]);
                    assert(header@[4] == "Basic "@[4]);
                    assert(header@[5] == "Basic "@[5]);
                }
            }
        }
        return Err(BasicAuthError::SchemeNotBasic);
    }
    proof {
        assert(header@.subrange(0, 6) =~= "Basic "@);
        assert(has_basic_prefix(header@));
    }
    let encoded = header.substring_char(6, n);
    let decoded_bytes = match base64_decode(encoded) {
        Some(bytes) => bytes,
        None => {
            return Err(BasicAuthError::InvalidBase64);
        },
    };
    let ghost gb: Seq<u8> = decoded_bytes@;
    let decoded = match utf8_to_string(decoded_bytes) {
        Some(s) => s,
        None => {
            return Err(BasicAuthError::NotUtf8);
        },
    };
    let m: usize = decoded.as_str().unicode_len();
    let mut i: usize = 0;
    while i < m
        invariant
            m == decoded@.len(),
            0 <= i <= m,
            forall|j: int| 0 <= j < i ==> decoded@[j] != ':',
            has_basic_prefix(header@),
            b64_standard_decoded(header@.subrange(6, header@.len() as int)) == Some(gb),
            valid_utf8(gb),
            decoded@ == decode_utf8(gb),
        decreases m - i,
    {
        if decoded.as_str().get_char(i) == ':' {
            proof {
                assert(is_first_colon(decoded@, i as int));
                lemma_split_at_first_colon(decoded@, i as int);
            }
            let username = String::from_str(decoded.as_str().substring_char(0, i));
            let password = String::from_str(decoded.as_str().substring_char(i + 1, m));
            return Ok(Credentials { username, password });
        }
        i = i + 1;
    }
    proof {
        lemma_split_no_colon(decoded@);
    }
    Err(BasicAuthError::MissingPassword)
}

/// What credential validation can fail with.
pub enum AuthError {
    /// The username or password is wrong; the cause is recorded.
    InvalidCredentials(String),
    /// An unexpected collaborator failure; the cause is recorded.
    UnexpectedError(String),
}

/// What a login attempt can fail with at the HTTP boundary.
pub enum LoginError {
    /// The caller's credentials were rejected.
    AuthError(String),
    /// An unexpected collaborator failure; the cause is recorded.
    UnexpectedError(String),
}

impl LoginError {
    /// The brief description of the failure, as the caller sees it.
    pub fn message(&self) -> (r: String)
        ensures
            match self {
                LoginError::AuthError(_) => r@ == "Authentication failed"@,
                LoginError::UnexpectedError(_) => r@ == "Something went wrong"@,
            },
    {
        match self {
            LoginError::AuthError(_) => String::from_str("Authentication failed"),
            LoginError::UnexpectedError(_) => String::from_str("Something went wrong"),
        }
    }

    /// Wrap a credential validation failure, keeping its cause: rejected
    /// credentials stay an authentication failure, anything else is
    /// unexpected.
    pub fn from_auth(e: AuthError) -> (r: LoginError)
        ensures
            (e matches AuthError::InvalidCredentials(c) ==> (r matches LoginError::AuthError(c2)
                && c2@ == c@)),
            (e matches AuthError::UnexpectedError(c) ==> (r matches LoginError::UnexpectedError(c2)
                && c2@ == c@)),
    {
        match e {
            AuthError::InvalidCredentials(c) => LoginError::AuthError(c),
            AuthError::UnexpectedError(c) => LoginError::UnexpectedError(c),
        }
    }
}

/// Where a login attempt sends the caller next.
pub enum LoginDecision {
    /// The credentials were accepted: the session is renewed for this
    /// identity and the caller lands on the dashboard.
    Dashboard(IdentityId),
    /// The attempt failed: the caller is sent back to the login form with
    /// the error's message flashed.
    RetryLogin(LoginError),
}

impl LoginDecision {
    /// The redirect target of the decision.
    pub fn location(&self) -> (r: String)
        ensures
            match self {
                LoginDecision::Dashboard(_) => r@ == "/admin/dashboard"@,
                LoginDecision::RetryLogin(_) => r@ == "/login"@,
            },
    {
        match self {
            LoginDecision::Dashboard(_) => String::from_str("/admin/dashboard"),
            LoginDecision::RetryLogin(_) => String::from_str("/login"),
        }
    }
}

/// Decide a login attempt from the outcome of credential validation: success
/// lands on the dashboard as the resolved identity, any failure sends the
/// caller back to the login form carrying the wrapped error.
pub fn login_decision(auth: Result<IdentityId, AuthError>) -> (r: LoginDecision)
    ensures
        (auth matches Ok(id) ==> (r matches LoginDecision::Dashboard(id2) && id2 == id)),
        (auth matches Err(AuthError::InvalidCredentials(c)) ==> (r matches
            LoginDecision::RetryLogin(le) && (le matches LoginError::AuthError(c2) && c2@ == c@))),
        (auth matches Err(AuthError::UnexpectedError(c)) ==> (r matches LoginDecision::RetryLogin(
            le,
        ) && (le matches LoginError::UnexpectedError(c2) && c2@ == c@))),
{
    match auth {
        Ok(id) => LoginDecision::Dashboard(id),
        Err(e) => LoginDecision::RetryLogin(LoginError::from_auth(e)),
    }
}

} // verus!
