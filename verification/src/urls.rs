//! Validated server URLs: normalization of configured overrides and
//! construction of loopback base URLs from allocated ports.

use vstd::prelude::*;
use crate::text::{
    dec_digits, lemma_dec_digits_shape, lemma_strip_no_trailing_slash, push_decimal,
    str_equal, strip_trailing_slashes, strip_trailing_slashes_str, trim_str, trimmed,
};

verus! {

/// What `url::Url::parse` decides about a string: `Some` of the lower-cased
/// scheme when the string parses as an absolute URL, `None` when it does not.
/// The outcome depends on the characters of the string alone.
pub uninterp spec fn parsed_scheme(s: Seq<char>) -> Option<Seq<char>>;

/// Relies on `url::Url::parse` (whether the string is an absolute URL) and
/// `url::Url::scheme` (its lower-cased scheme, without the `':'`).
#[verifier::external_body]
fn parse_url_scheme(s: &str) -> (r: Option<String>)
    ensures
        r is Some <==> parsed_scheme(s@) is Some,
        r is Some ==> r->0@ == parsed_scheme(s@)->0,
{
    match url::Url::parse(s) {
        Ok(u) => Some(u.scheme().to_string()),
        Err(_) => None,
    }
}

/// Whether a scheme is one the supervisor accepts for a backend endpoint.
pub open spec fn is_http_scheme(s: Seq<char>) -> bool {
    s == "http"@ || s == "https"@
}

/// Decides whether a parsed scheme is accepted (`http` or `https`).
pub fn scheme_is_supported(scheme: &str) -> (r: bool)
    ensures
        r == is_http_scheme(scheme@),
{
    str_equal(scheme, "http") || str_equal(scheme, "https")
}

/// The result of validating a configured server URL: trimmed input, accepted
/// only when it parses as an absolute `http` or `https` URL, with every
/// trailing slash stripped.
pub open spec fn normalized_url(s: Seq<char>) -> Option<Seq<char>> {
    let t = trimmed(s);
    if t.len() > 0 && (parsed_scheme(t) matches Some(sch) && is_http_scheme(sch)) {
        Some(strip_trailing_slashes(t))
    } else {
        None
    }
}

/// Validates a configured server URL: trims it, rejects empty input and any
/// scheme other than `http` or `https`, and strips trailing slashes.
pub fn normalize_server_url(input: &str) -> (r: Option<String>)
    ensures
        r is Some <==> normalized_url(input@) is Some,
        r is Some ==> r->0@ == normalized_url(input@)->0,
{
    let t = trim_str(input);
    if t.unicode_len() == 0 {
        return None;
    }
    match parse_url_scheme(t) {
        None => None,
        Some(sch) => {
            if scheme_is_supported(sch.as_str()) {
                Some(strip_trailing_slashes_str(t))
            } else {
                None
            }
        },
    }
}

/// Whether the trimmed input is non-empty.
pub fn is_nonempty_string(value: &str) -> (r: bool)
    ensures
        r == (trimmed(value@).len() != 0),
{
    let t = trim_str(value);
    t.unicode_len() != 0
}

/// The loopback base URL for an allocated port.
pub open spec fn local_url_chars(port: u16) -> Seq<char> {
    "http://127.0.0.1:"@ + dec_digits(port as nat)
}

/// The loopback base URL for an allocated port, `http://127.0.0.1:<port>`.
pub fn build_local_url(port: u16) -> (r: String)
    ensures
        r@ == local_url_chars(port),
{
    let mut s = String::from_str("http://127.0.0.1:");
    push_decimal(&mut s, port);
    s
}

/// A base URL is valid when it is non-empty, has no trailing slash, and was
/// derived either from validated configuration or from an allocated port.
pub open spec fn valid_base_url(s: Seq<char>) -> bool {
    &&& s.len() > 0
    &&& s.last() != '/'
    &&& ((exists|t: Seq<char>| normalized_url(t) == Some(s)) || (exists|p: u16|
        s == local_url_chars(p)))
}

/// A validated `http` or `https` origin string with no trailing slash, derived
/// either from an allocated loopback port or from validated configuration.
pub struct BaseUrl {
    url: String,
}

impl View for BaseUrl {
    type V = Seq<char>;

    closed spec fn view(&self) -> Seq<char> {
        self.url@
    }
}

impl BaseUrl {
    /// The validity invariant every constructed value satisfies.
    pub open spec fn wf(&self) -> bool {
        valid_base_url(self@)
    }

    /// The base URL for a locally allocated port.
    pub fn local(port: u16) -> (r: BaseUrl)
        ensures
            r@ == local_url_chars(port),
            r.wf(),
    {
        let url = build_local_url(port);
        proof {
            reveal_strlit("http://127.0.0.1:");
            lemma_dec_digits_shape(port as nat);
            let s = local_url_chars(port);
            let last = s.len() - 1;
            assert(s[last] == dec_digits(port as nat).last());
            assert(exists|d: nat|
                d < 10 && #[trigger] dec_digits(port as nat)[dec_digits(port as nat).len() - 1]
                    == crate::text::digit_char(d));
        }
        BaseUrl { url }
    }

    /// Validates configured input and wraps it when accepted and non-empty
    /// after normalization.
    pub fn from_config(input: &str) -> (r: Option<BaseUrl>)
        ensures
            r is Some <==> (normalized_url(input@) matches Some(u) && u.len() > 0),
            r is Some ==> r->0@ == normalized_url(input@)->0 && r->0.wf(),
    {
        match normalize_server_url(input) {
            None => None,
            Some(s) => {
                if s.as_str().unicode_len() == 0 {
                    None
                } else {
                    proof {
                        lemma_strip_no_trailing_slash(trimmed(input@));
                    }
                    Some(BaseUrl { url: s })
                }
            },
        }
    }

    /// The URL as a string slice.
    pub fn as_str(&self) -> (r: &str)
        ensures
            r@ == self@,
    {
        self.url.as_str()
    }

    /// A copy of the URL as an owned string.
    pub fn as_string(&self) -> (r: String)
        ensures
            r@ == self@,
    {
        String::from_str(self.url.as_str())
    }

    /// The URL as an owned string.
    pub fn into_string(self) -> (r: String)
        ensures
            r@ == self@,
    {
        self.url
    }
}

} // verus!
