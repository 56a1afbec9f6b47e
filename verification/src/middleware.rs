//! The request context that the HTTP layer reads from request headers.
use vstd::prelude::*;

use crate::text::spec_parse_i64;
use crate::types::{option_reference_view, spec_reference, Reference, ReferenceView};

verus! {

/// The header that carries the session token.
pub const SESSION_TOKEN_HEADER: &'static str = "X-Deepwell-Session-Token";

/// The header that carries the site id.
pub const SITE_ID_HEADER: &'static str = "X-Deepwell-Site-Id";

/// The header that carries the page, by id or slug.
pub const PAGE_HEADER: &'static str = "X-Deepwell-Page";

/// The header that carries the client's IP address.
pub const IP_ADDRESS_HEADER: &'static str = "X-Deepwell-IP-Address";

/// What a request says about its caller, taken from its headers.
#[derive(Debug, Clone)]
pub struct RequestContextHeaders {
    pub session_token: Option<String>,
    pub site_id: Option<i64>,
    pub page_ref: Option<Reference>,
    pub ip_address: Option<String>,
}

/// The view of an optional text.
pub open spec fn option_text(s: Option<&str>) -> Option<Seq<char>> {
    match s {
        Some(s) => Some(s@),
        None => None,
    }
}

/// The view of an optional owned text.
pub open spec fn option_string(s: Option<String>) -> Option<Seq<char>> {
    match s {
        Some(s) => Some(s@),
        None => None,
    }
}

fn owned(s: Option<&str>) -> (r: Option<String>)
    ensures
        option_string(r) == option_text(s),
{
    match s {
        Some(s) => Some(s.to_owned()),
        None => None,
    }
}

/// A byte that header text may hold: visible ASCII (32 to 126) or a tab.
pub open spec fn is_header_text_byte(b: u8) -> bool {
    b == 9 || (32 <= b && b <= 126)
}

/// The text of a header value: its bytes as characters when every byte is
/// visible ASCII or a tab, `None` otherwise.
pub open spec fn header_text(b: Seq<u8>) -> Option<Seq<char>> {
    if forall|i: int| 0 <= i < b.len() ==> #[trigger] is_header_text_byte(b[i]) {
        Some(b.map_values(|x: u8| x as char))
    } else {
        None
    }
}

/// The text of an optional header value.
pub open spec fn option_header_text(b: Option<&[u8]>) -> Option<Seq<char>> {
    match b {
        Some(b) => header_text(b@),
        None => None,
    }
}

/// The text of a header value, by `http::HeaderValue::from_bytes` and
/// `HeaderValue::to_str`. The contract claims what those functions' source
/// shows: `from_bytes` refuses a value holding a byte below 32 other than a
/// tab, or the byte 127; `to_str` then refuses any byte outside 32..=126
/// other than a tab, and otherwise gives the bytes unchanged as a string,
/// whose characters are therefore the bytes read as ASCII.
#[verifier::external_body]
pub fn header_value_text(b: &[u8]) -> (r: Option<String>)
    ensures
        option_string(r) == header_text(b@),
{
    match http::HeaderValue::from_bytes(b) {
        Ok(v) => v.to_str().ok().map(|s| s.to_owned()),
        Err(_) => None,
    }
}

fn optional_header_text(b: Option<&[u8]>) -> (r: Option<String>)
    ensures
        option_string(r) == option_header_text(b),
{
    match b {
        Some(b) => header_value_text(b),
        None => None,
    }
}

fn as_text(s: &Option<String>) -> (r: Option<&str>)
    ensures
        option_text(r) == option_string(*s),
{
    match s {
        Some(s) => Some(s.as_str()),
        None => None,
    }
}

impl RequestContextHeaders {
    /// Builds the context from the text of the four headers (each `None`
    /// when absent or not valid header text). The site id is kept only when
    /// it reads as an `i64`; the page is an id when it reads as an `i64` and a
    /// slug otherwise; the token and the address are kept as they are.
    pub fn from_header_values(
        session_token: Option<&str>,
        site_id: Option<&str>,
        page: Option<&str>,
        ip_address: Option<&str>,
    ) -> (r: RequestContextHeaders)
        ensures
            option_string(r.session_token) == option_text(session_token),
            r.site_id == match site_id {
                Some(s) => spec_parse_i64(s@),
                None => None,
            },
            option_reference_view(r.page_ref) == match page {
                Some(s) => Some(spec_reference(s@)),
                None => None::<ReferenceView>,
            },
            option_string(r.ip_address) == option_text(ip_address),
    {
        let site_id = match site_id {
            Some(s) => {
                let chars = crate::text::chars_of(s);
                assert(chars@.subrange(0, chars@.len() as int) =~= s@);
                crate::text::parse_i64_range(&chars, 0, chars.len())
            },
            None => None,
        };
        let page_ref = match page {
            Some(s) => Some(Reference::from_text(s)),
            None => None,
        };
        RequestContextHeaders {
            session_token: owned(session_token),
            site_id,
            page_ref,
            ip_address: owned(ip_address),
        }
    }

    /// Builds the context from the raw bytes of the four headers (each
    /// `None` when absent). A value that is not header text counts as
    /// absent; the rest is read as `from_header_values` reads it.
    pub fn from_header_bytes(
        session_token: Option<&[u8]>,
        site_id: Option<&[u8]>,
        page: Option<&[u8]>,
        ip_address: Option<&[u8]>,
    ) -> (r: RequestContextHeaders)
        ensures
            option_string(r.session_token) == option_header_text(session_token),
            r.site_id == match option_header_text(site_id) {
                Some(s) => spec_parse_i64(s),
                None => None,
            },
            option_reference_view(r.page_ref) == match option_header_text(page) {
                Some(s) => Some(spec_reference(s)),
                None => None::<ReferenceView>,
            },
            option_string(r.ip_address) == option_header_text(ip_address),
    {
        let session_token = optional_header_text(session_token);
        let site_id = optional_header_text(site_id);
        let page = optional_header_text(page);
        let ip_address = optional_header_text(ip_address);
        RequestContextHeaders::from_header_values(
            as_text(&session_token),
            as_text(&site_id),
            as_text(&page),
            as_text(&ip_address),
        )
    }
}

/// Wraps a service so that every request carries its `RequestContextHeaders`.
#[derive(Debug, Clone, Copy)]
pub struct RequestContextLayer;

/// A service wrapped by `RequestContextLayer`.
#[derive(Debug, Clone)]
pub struct RequestContextService<S> {
    pub service: S,
}

impl RequestContextLayer {
    /// Wraps `service`.
    pub fn layer<S>(&self, service: S) -> (r: RequestContextService<S>)
        ensures
            r.service == service,
    {
        RequestContextService { service }
    }
}

impl<S> RequestContextService<S> {
    /// The wrapped service.
    pub fn inner(&mut self) -> (r: &mut S)
        ensures
            *r == old(self).service,
            final(self).service == *final(r),
    {
        &mut self.service
    }
}

} // verus!
