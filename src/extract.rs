//! What a request hands the browser and what it hands back to the caller:
//! the URL to navigate to, the screenshot as a data URI, and the short
//! messages of each failure.
use crate::session::{BrowserError, Extraction};
use base64::Engine;
use vstd::prelude::*;

verus! {

/// What base64's standard, padded alphabet makes of `bytes`.
pub uninterp spec fn base64_of(bytes: Seq<u8>) -> Seq<char>;

/// Relies on base64's `STANDARD` engine `encode`: the padded standard
/// encoding, four characters for each started group of three bytes. Its
/// length computation overflows only beyond `usize::MAX / 4 * 3` bytes,
/// which no `Vec` reaches.
#[verifier::external_body]
fn encode_base64(bytes: &Vec<u8>) -> (r: String)
    ensures
        r@ == base64_of(bytes@),
        r@.len() == 4 * ((bytes@.len() + 2) / 3),
{
    base64::engine::general_purpose::STANDARD.encode(bytes)
}

/// The rewriting proxy placed in front of the target URL when the caller
/// asks to get past a paywall.
pub open spec fn proxy_prefix(op: Extraction) -> Seq<char> {
    match op {
        Extraction::Html => "https://12ft.io/"@,
        _ => "https://12ft.io/api/proxy?ref=&q="@,
    }
}

/// The URL the request's tab navigates to.
pub open spec fn navigation_target(url: Seq<char>, bypass_paywall: bool, op: Extraction) -> Seq<char> {
    if bypass_paywall {
        proxy_prefix(op) + url
    } else {
        url
    }
}

/// The URL to navigate to: `url` itself, or `url` behind the paywall proxy.
pub fn navigation_url(url: &str, bypass_paywall: bool, op: Extraction) -> (r: String)
    ensures
        r@ == navigation_target(url@, bypass_paywall, op),
{
    if bypass_paywall {
        let mut r = match op {
            Extraction::Html => String::from_str("https://12ft.io/"),
            _ => String::from_str("https://12ft.io/api/proxy?ref=&q="),
        };
        r.append(url);
        r
    } else {
        String::from_str(url)
    }
}

/// The known-good page that the readiness probe renders end to end.
pub fn health_check_url() -> (r: String)
    ensures
        r@ == "https://example.com"@,
{
    String::from_str("https://example.com")
}

pub open spec fn png_data_uri_prefix() -> Seq<char> {
    "data:image/png;base64,"@
}

/// Wraps an already encoded PNG image into a data URI.
pub fn png_data_uri(encoded: &str) -> (r: String)
    ensures
        r@ == png_data_uri_prefix() + encoded@,
{
    let mut r = String::from_str("data:image/png;base64,");
    r.append(encoded);
    r
}

/// The screenshot handed to the caller: the PNG bytes, base64 encoded, as a
/// data URI.
pub fn screenshot_data_uri(png: &Vec<u8>) -> (r: String)
    ensures
        r@ == png_data_uri_prefix() + base64_of(png@),
{
    let encoded = encode_base64(png);
    png_data_uri(encoded.as_str())
}

pub open spec fn extraction_message(op: Extraction) -> Seq<char> {
    match op {
        Extraction::Html => "Failed to get page source"@,
        Extraction::Text => "Failed to get the body of the page"@,
        Extraction::Screenshot => "Failed to get the screenshot of the page"@,
        Extraction::Images => "Failed to get the images of the page"@,
    }
}

/// The short message the caller receives for a failure; driver details
/// never reach it.
pub open spec fn error_message(e: BrowserError) -> Seq<char> {
    match e {
        BrowserError::Setup => "Failed to setup driver"@,
        BrowserError::Extraction(op) => extraction_message(op),
        BrowserError::Cleanup => "Failed to cleanup driver"@,
        BrowserError::SessionLost => "Browser session lost its home window"@,
    }
}

impl BrowserError {
    pub fn message(&self) -> (r: String)
        ensures
            r@ == error_message(*self),
    {
        match self {
            BrowserError::Setup => String::from_str("Failed to setup driver"),
            BrowserError::Extraction(Extraction::Html) => String::from_str("Failed to get page source"),
            BrowserError::Extraction(Extraction::Text) => String::from_str(
                "Failed to get the body of the page",
            ),
            BrowserError::Extraction(Extraction::Screenshot) => String::from_str(
                "Failed to get the screenshot of the page",
            ),
            BrowserError::Extraction(Extraction::Images) => String::from_str(
                "Failed to get the images of the page",
            ),
            BrowserError::Cleanup => String::from_str("Failed to cleanup driver"),
            BrowserError::SessionLost => String::from_str("Browser session lost its home window"),
        }
    }
}

} // verus!
