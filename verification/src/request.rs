//! The header section of a captured request.

use vstd::prelude::*;
use vstd::string::*;

use crate::headers::{append_headers, has_header, header_block, header_entries, names_header};
use crate::text::{append_text, nat_text, push_decimal, utf8};

verus! {

/// Where a URL points: its host, if it has one, and the port written in it.
pub struct UrlAuthority {
    pub host: Option<String>,
    pub port: Option<u16>,
}

impl View for UrlAuthority {
    type V = (Option<Seq<char>>, Option<u16>);

    open spec fn view(&self) -> (Option<Seq<char>>, Option<u16>) {
        let host = match self.host {
            Some(host) => Some(host@),
            None => None,
        };
        (host, self.port)
    }
}

/// The view of an authority that may be missing.
pub open spec fn authority_view(
    authority: Option<UrlAuthority>,
) -> Option<(Option<Seq<char>>, Option<u16>)> {
    match authority {
        Some(authority) => Some(authority@),
        None => None,
    }
}

/// What `Url::parse` reads out of a text: nothing where it is no absolute URL, else the host
/// as `Url::host_str` gives it and the port as `Url::port` does.
pub uninterp spec fn url_authority(url: Seq<char>) -> Option<(Option<Seq<char>>, Option<u16>)>;

/// `Url::parse` of the `url` crate, read through `Url::host_str` and `Url::port`. The result
/// depends on the text alone, and `url_authority` is its name.
#[verifier::external_body]
fn parse_authority(url: &str) -> (authority: Option<UrlAuthority>)
    ensures
        authority_view(authority) == url_authority(url@),
{
    match url::Url::parse(url) {
        Ok(parsed) => Some(
            UrlAuthority { host: parsed.host_str().map(|host| host.to_string()), port: parsed.port() },
        ),
        Err(_) => None,
    }
}

/// The host line that a URL stands in for.
pub open spec fn host_line(authority: Option<(Option<Seq<char>>, Option<u16>)>) -> Seq<u8> {
    match authority {
        Some((Some(host), Some(port))) => utf8("host: "@) + utf8(host) + utf8(":"@) + utf8(
            nat_text(port as nat),
        ) + utf8("\r\n"@),
        Some((Some(host), None)) => utf8("host: "@) + utf8(host) + utf8("\r\n"@),
        _ => Seq::empty(),
    }
}

/// The content length line of a body.
pub open spec fn content_length_line(body_len: nat) -> Seq<u8> {
    utf8("content-length: "@) + utf8(nat_text(body_len)) + utf8("\r\n"@)
}

/// The lines that complete a request's headers: a host line from its URL and a content length
/// line from its body, each only where the headers have none.
pub open spec fn completing_lines(
    has_host: bool,
    has_content_length: bool,
    authority: Option<(Option<Seq<char>>, Option<u16>)>,
    body_len: nat,
) -> Seq<u8> {
    (if has_host {
        Seq::empty()
    } else {
        host_line(authority)
    }) + (if has_content_length {
        Seq::empty()
    } else {
        content_length_line(body_len)
    })
}

/// The header section of a request: the headers it carries, then the completing lines.
pub open spec fn request_header_block(
    url: Seq<char>,
    entries: Seq<(Seq<char>, Seq<u8>)>,
    body_len: nat,
) -> Seq<u8> {
    header_block(entries) + completing_lines(
        has_header(entries, "host"@),
        has_header(entries, "content-length"@),
        url_authority(url),
        body_len,
    )
}

/// Adds a number in decimal at the end of a buffer.
pub fn append_decimal(output: &mut Vec<u8>, n: u64)
    ensures
        final(output)@ == old(output)@ + utf8(nat_text(n as nat)),
{
    let mut digits = String::new();
    push_decimal(&mut digits, n);
    assert(digits@ =~= nat_text(n as nat));
    append_text(output, digits.as_str());
}

/// Adds the host line that a URL stands in for, if it names a host.
pub fn append_host_line(output: &mut Vec<u8>, authority: &Option<UrlAuthority>)
    ensures
        final(output)@ == old(output)@ + host_line(authority_view(*authority)),
{
    if let Some(authority) = authority {
        if let Some(host) = &authority.host {
            append_text(output, "host: ");
            append_text(output, host.as_str());
            if let Some(port) = authority.port {
                append_text(output, ":");
                append_decimal(output, port as u64);
            }
            append_text(output, "\r\n");
        }
    }
    assert(output@ =~= old(output)@ + host_line(authority_view(*authority)));
}

/// Adds the content length line of a body.
pub fn append_content_length_line(output: &mut Vec<u8>, body_len: usize)
    ensures
        final(output)@ == old(output)@ + content_length_line(body_len as nat),
{
    append_text(output, "content-length: ");
    append_decimal(output, body_len as u64);
    append_text(output, "\r\n");
    assert(output@ =~= old(output)@ + content_length_line(body_len as nat));
}

/// Adds the header section of a request. The URL is looked into only where no host header
/// is given.
pub fn append_request_headers(
    output: &mut Vec<u8>,
    url: &str,
    headers: &http::HeaderMap<http::HeaderValue>,
    body_len: usize,
)
    ensures
        final(output)@ == old(output)@ + request_header_block(
            url@,
            header_entries(*headers),
            body_len as nat,
        ),
{
    let has_host = names_header(headers, "host");
    let has_content_length = names_header(headers, "content-length");
    append_headers(output, headers);
    if !has_host {
        let authority = parse_authority(url);
        append_host_line(output, &authority);
    }
    if !has_content_length {
        append_content_length_line(output, body_len);
    }
    assert(output@ =~= old(output)@ + request_header_block(
        url@,
        header_entries(*headers),
        body_len as nat,
    ));
}

} // verus!
