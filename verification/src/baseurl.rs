//! Validated API base URLs.
//!
//! A `BaseUrl` holds the normalized serialization of a parsed URL whose
//! scheme is `http` or `https` and which can serve as a base; the text is
//! kept with a trailing slash so endpoint paths can be appended directly.

use vstd::prelude::*;
use vstd::string::*;

use crate::errors::ApiError;

verus! {

// --- names for what `url::Url::parse` computes ------------------------------

/// Whether `url::Url::parse` accepts this text.
pub uninterp spec fn url_parse_ok(s: Seq<char>) -> bool;

/// The normalized serialization `Url::as_str` returns after a successful
/// parse of this text.
pub uninterp spec fn url_serialized(s: Seq<char>) -> Seq<char>;

/// The scheme `Url::scheme` returns after a successful parse of this text.
pub uninterp spec fn url_scheme(s: Seq<char>) -> Seq<char>;

/// What `Url::cannot_be_a_base` returns after a successful parse of this
/// text.
pub uninterp spec fn url_is_opaque(s: Seq<char>) -> bool;

/// The parse error's description when the parse of this text fails.
pub uninterp spec fn url_error_text(s: Seq<char>) -> Seq<char>;

/// The plain parts of a parsed URL that the library reads.
pub struct UrlParts {
    pub serialized: String,
    pub scheme: String,
    pub opaque: bool,
}

/// Relies on `url::Url::parse`, reading the result through `Url::as_str`
/// (the normalized serialization), `Url::scheme` and
/// `Url::cannot_be_a_base`; all are functions of the input text alone.
/// A failed parse is reported through the error's description.
#[verifier::external_body]
fn parse_url_parts(s: &str) -> (r: Result<UrlParts, String>)
    ensures
        r is Ok <==> url_parse_ok(s@),
        r matches Ok(p) ==> p.serialized@ == url_serialized(s@) && p.scheme@ == url_scheme(s@)
            && p.opaque == url_is_opaque(s@),
        r matches Err(e) ==> e@ == url_error_text(s@),
{
    match url::Url::parse(s) {
        Ok(u) => Ok(UrlParts {
            scheme: u.scheme().to_string(),
            opaque: u.cannot_be_a_base(),
            serialized: u.as_str().to_string(),
        }),
        Err(e) => Err(e.to_string()),
    }
}

// --- the base URL type -------------------------------------------------------

/// `s` with exactly one trailing slash appended if it has none.
pub open spec fn with_slash(s: Seq<char>) -> Seq<char> {
    if s.len() > 0 && s[s.len() - 1] == '/' {
        s
    } else {
        s + seq!['/']
    }
}

/// The schemes a base URL may use.
pub open spec fn scheme_ok(sch: Seq<char>) -> bool {
    sch == "http"@ || sch == "https"@
}

/// Whether this text is accepted as a base URL.
pub open spec fn base_url_ok(s: Seq<char>) -> bool {
    url_parse_ok(s) && scheme_ok(url_scheme(s)) && !url_is_opaque(s)
}

/// The normalized text a base URL keeps for this input.
pub open spec fn normalized_base(s: Seq<char>) -> Seq<char> {
    with_slash(url_serialized(s))
}

/// A validated base URL; the view is its normalized text.
#[derive(Debug)]
pub struct BaseUrl {
    text: String,
}

impl Clone for BaseUrl {
    fn clone(&self) -> (r: Self)
        ensures
            r@ == self@,
    {
        BaseUrl { text: self.text.clone() }
    }
}

impl View for BaseUrl {
    type V = Seq<char>;

    closed spec fn view(&self) -> Seq<char> {
        self.text@
    }
}

impl BaseUrl {
    /// The kept text always ends with a slash.
    pub open spec fn wf(&self) -> bool {
        self@.len() > 0 && self@[self@.len() - 1] == '/'
    }

    /// Parse and validate a base URL.
    ///
    /// Accepts exactly the texts that parse as a URL with scheme `http` or
    /// `https` and that can serve as a base; the kept text is the parser's
    /// normalized serialization with a trailing slash ensured.
    ///
    /// The slash is appended to the whole serialization, so a base that
    /// carries a query or fragment gets it after that text; sensible bases
    /// are scheme, host and path only.
    pub fn parse(s: &str) -> (r: Result<BaseUrl, ApiError>)
        ensures
            r is Ok <==> base_url_ok(s@),
            r matches Ok(b) ==> b@ == normalized_base(s@) && b.wf(),
            !url_parse_ok(s@) ==> (r matches Err(e) && e matches ApiError::UrlParse(m)
                && m@ == url_error_text(s@)),
            url_parse_ok(s@) && !scheme_ok(url_scheme(s@)) ==> (r matches Err(e)
                && e matches ApiError::InvalidScheme(m) && m@ == url_scheme(s@)),
            url_parse_ok(s@) && scheme_ok(url_scheme(s@)) && url_is_opaque(s@) ==> (
            r matches Err(e) && e matches ApiError::UrlNotBase(m) && m@ == url_serialized(s@)),
    {
        match parse_url_parts(s) {
            Err(e) => Err(ApiError::UrlParse(e)),
            Ok(p) => {
                let is_http = crate::text::str_eq(p.scheme.as_str(), "http");
                let is_https = crate::text::str_eq(p.scheme.as_str(), "https");
                if !is_http && !is_https {
                    return Err(ApiError::InvalidScheme(p.scheme));
                }
                if p.opaque {
                    return Err(ApiError::UrlNotBase(p.serialized));
                }
                let mut text = p.serialized;
                if !crate::text::ends_with_char(text.as_str(), '/') {
                    text.append("/");
                    proof {
                        reveal_strlit("/");
                        assert("/"@ =~= seq!['/']);
                    }
                }
                Ok(BaseUrl { text })
            },
        }
    }

    /// The kept normalized text.
    pub fn as_str(&self) -> (r: &str)
        ensures
            r@ == self@,
    {
        self.text.as_str()
    }

    /// The kept text with a trailing slash guaranteed.
    pub fn with_trailing_slash(&self) -> (r: String)
        ensures
            r@ == with_slash(self@),
    {
        let mut url_str = self.text.clone();
        if !crate::text::ends_with_char(url_str.as_str(), '/') {
            url_str.append("/");
            proof {
                reveal_strlit("/");
                assert("/"@ =~= seq!['/']);
            }
        }
        url_str
    }
}

impl core::str::FromStr for BaseUrl {
    type Err = ApiError;

    fn from_str(s: &str) -> Result<BaseUrl, ApiError> {
        BaseUrl::parse(s)
    }
}

} // verus!
