//! One crawl: which URI to crawl, and the page made of what was fetched.

use vstd::prelude::*;
use vstd::string::*;
use crate::scrape::WebScraper;
use crate::text::opt_text;
use crate::web::{is_valid_uri_scheme, scraped, valid_uri_scheme, GenWebScraper, Target, TargetView};

verus! {

/// The order to crawl one URI.
#[derive(Debug)]
pub struct Crawl(pub String);

impl View for Crawl {
    type V = Seq<char>;

    open spec fn view(&self) -> Seq<char> {
        self.0@
    }
}

impl Crawl {
    /// The URI to crawl.
    pub fn target(&self) -> (r: &str)
        ensures
            r@ == self@,
    {
        self.0.as_str()
    }
}

/// The text of `url` once parsed as a `hyper::Uri` and written back, or
/// `None` where `url` is no URI for `hyper`.
pub uninterp spec fn uri_normal_form(url: Seq<char>) -> Option<Seq<char>>;

/// Parses `url` with `hyper::Uri`'s `FromStr` and writes it back with its
/// `Display`. The claim is only that the result is the one named
/// [`uri_normal_form`] of `url`.
#[verifier::external_body]
fn normalize_uri(url: &str) -> (r: Option<String>)
    ensures
        opt_text(r) == uri_normal_form(url@),
{
    url.parse::<hyper::Uri>().ok().map(|u| u.to_string())
}

/// The URI that a crawl order is carried out on, as `hyper` reads it;
/// `None` where the order names no URI (a crawler cannot carry it out).
pub fn crawl_uri(msg: &Crawl) -> (r: Option<String>)
    ensures
        opt_text(r) == uri_normal_form(msg@),
{
    normalize_uri(msg.target())
}

/// The page that the HTML `body` makes, before it is given a URI.
pub fn parse_target_body(body: &str) -> (r: Target)
    ensures
        scraped(r@, body@),
{
    let scraper = GenWebScraper::new(body);
    scraper.scrape()
}

/// The page crawled at `uri` whose HTML was `body`.
pub fn crawled_target(uri: String, body: &str) -> (r: Target)
    ensures
        scraped(TargetView { uri: Seq::empty(), ..r@ }, body@),
        r@.uri == uri@,
{
    let target_result = parse_target_body(body);
    Target { uri, ..target_result }
}

/// The order to crawl `url`, if its scheme is one a crawl follows
/// (see [`is_valid_uri_scheme`]); `None` otherwise, and then nothing is sent.
pub fn crawl_order(url: &str) -> (r: Option<Crawl>)
    ensures
        r is Some <==> valid_uri_scheme(url@),
        r matches Some(c) ==> c@ == url@,
{
    if is_valid_uri_scheme(url) {
        Some(Crawl(url.to_string()))
    } else {
        None
    }
}

/// The text that `String::from_utf8_lossy` makes of `bytes`: each invalid
/// UTF-8 sequence replaced by U+FFFD.
pub uninterp spec fn utf8_lossy_text(bytes: Seq<u8>) -> Seq<char>;

/// Calls `String::from_utf8_lossy` on `bytes`. The claim is only that the
/// result is the one named [`utf8_lossy_text`] of `bytes`.
#[verifier::external_body]
fn decode_lossy(bytes: &[u8]) -> (r: String)
    ensures
        r@ == utf8_lossy_text(bytes@),
{
    String::from_utf8_lossy(bytes).into_owned()
}

/// Adds one fetched chunk of a page's body to the text read so far, each
/// chunk decoded on its own.
pub fn append_chunk(buf: &mut String, chunk: &[u8])
    ensures
        final(buf)@ == old(buf)@ + utf8_lossy_text(chunk@),
{
    let text = decode_lossy(chunk);
    buf.append(text.as_str());
}

} // verus!
