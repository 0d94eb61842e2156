//! Pages, the scraper that reads them, and URI scheme checks.

use vstd::prelude::*;
use vstd::string::*;
use crate::text::{copy_opt_text, copy_texts, opt_text, texts};
use crate::scrape::{ScrapeReducer, WebExtractor, WebScraper};

verus! {

/// `s` has the two characters `//` starting at index `i`.
pub open spec fn double_slash_at(s: Seq<char>, i: int) -> bool {
    &&& 0 <= i
    &&& i + 1 < s.len()
    &&& s[i] == '/'
    &&& s[i + 1] == '/'
}

/// `i` is the first place in `s` where `//` starts.
pub open spec fn first_double_slash_at(s: Seq<char>, i: int) -> bool {
    &&& double_slash_at(s, i)
    &&& forall|j: int| 0 <= j < i ==> !double_slash_at(s, j)
}

/// The schemes (with their trailing colon) that a crawl may follow.
pub open spec fn accepted_scheme(p: Seq<char>) -> bool {
    ||| p == seq!['h', 't', 't', 'p', ':']
    ||| p == seq!['h', 't', 't', 'p', 's', ':']
    ||| p == seq!['f', 'i', 'l', 'e', ':']
    ||| p == seq!['f', 't', 'p', ':']
    ||| p == seq!['s', 'f', 't', 'p', ':']
    ||| p == seq!['w', 's', ':']
}

/// What comes before the first `//` of `s` is an accepted scheme.
pub open spec fn valid_uri_scheme(s: Seq<char>) -> bool {
    exists|i: int| first_double_slash_at(s, i) && accepted_scheme(s.take(i))
}

/// Every accepted scheme followed by `//` makes a valid URI scheme,
/// whatever comes after.
pub proof fn lemma_accepted_scheme_is_valid(scheme: Seq<char>, rest: Seq<char>)
    requires
        accepted_scheme(scheme),
    ensures
        valid_uri_scheme(scheme + seq!['/', '/'] + rest),
{
    let s = scheme + seq!['/', '/'] + rest;
    let i = scheme.len() as int;
    assert(s[i] == '/' && s[i + 1] == '/');
    assert forall|j: int| 0 <= j < i implies !double_slash_at(s, j) by {
        assert(s[j] == scheme[j]);
        assert(scheme[j] != '/');
    }
    assert(s.take(i) =~= scheme);
    assert(first_double_slash_at(s, i));
}

/// A text without `//` names no scheme.
pub proof fn lemma_no_double_slash_is_invalid(s: Seq<char>)
    requires
        forall|j: int| !double_slash_at(s, j),
    ensures
        !valid_uri_scheme(s),
{
}

/// A URI is accepted only when the text before its first `//` is one of
/// `http:`, `https:`, `file:`, `ftp:`, `sftp:` or `ws:`: that text is then
/// not empty and ends with a colon. In particular a text that begins with
/// `//` (a link relative to the page's protocol) is refused.
pub proof fn lemma_valid_scheme_is_listed(s: Seq<char>)
    ensures
        valid_uri_scheme(s) ==> exists|i: int| {
            &&& 0 < i < s.len()
            &&& s[i - 1] == ':'
            &&& s[i] == '/' && s[i + 1] == '/'
            &&& forall|j: int| 0 <= j < i ==> !(#[trigger] s[j] == '/' && j + 1 < s.len() && s[j + 1] == '/')
            &&& {
                ||| s.take(i) == seq!['h', 't', 't', 'p', ':']
                ||| s.take(i) == seq!['h', 't', 't', 'p', 's', ':']
                ||| s.take(i) == seq!['f', 'i', 'l', 'e', ':']
                ||| s.take(i) == seq!['f', 't', 'p', ':']
                ||| s.take(i) == seq!['s', 'f', 't', 'p', ':']
                ||| s.take(i) == seq!['w', 's', ':']
            }
        },
        s.len() >= 2 && s[0] == '/' && s[1] == '/' ==> !valid_uri_scheme(s),
{
    if valid_uri_scheme(s) {
        let i = choose|i: int| first_double_slash_at(s, i) && accepted_scheme(s.take(i));
        assert(s.take(i).len() > 0);
        assert(s.take(i)[i - 1] == ':');
        assert(s[i - 1] == s.take(i)[i - 1]);
        assert forall|j: int| 0 <= j < i implies !(#[trigger] s[j] == '/' && j + 1 < s.len() && s[j + 1] == '/') by {
            assert(!double_slash_at(s, j));
        }
    }
    if s.len() >= 2 && s[0] == '/' && s[1] == '/' {
        assert forall|i: int| !(first_double_slash_at(s, i) && accepted_scheme(#[trigger] s.take(i))) by {
            if first_double_slash_at(s, i) {
                if i > 0 {
                    assert(double_slash_at(s, 0));
                } else {
                    assert(s.take(i).len() == 0);
                }
            }
        }
    }
}

/// Whether the first `n` characters of `s` are exactly `lit`.
fn prefix_is(s: &str, n: usize, lit: &[char]) -> (r: bool)
    requires
        n <= s@.len(),
    ensures
        r == (s@.take(n as int) == lit@),
{
    if n != lit.len() {
        assert(s@.take(n as int).len() != lit@.len());
        return false;
    }
    let mut k: usize = 0;
    while k < n
        invariant
            n == lit@.len(),
            n <= s@.len(),
            k <= n,
            forall|j: int| 0 <= j < k ==> s@[j] == lit@[j],
        decreases n - k,
    {
        if s.get_char(k) != lit[k] {
            assert(s@.take(n as int)[k as int] != lit@[k as int]);
            return false;
        }
        k = k + 1;
    }
    assert(s@.take(n as int) =~= lit@);
    true
}

/// Whether `uri` names one of the schemes a crawl follows: the text before
/// its first `//` must be `http:`, `https:`, `file:`, `ftp:`, `sftp:` or `ws:`.
/// A text without `//` has no scheme and is refused.
pub fn is_valid_uri_scheme(uri: &str) -> (r: bool)
    ensures
        r == valid_uri_scheme(uri@),
{
    let len = uri.unicode_len();
    let mut i: usize = 0;
    while i < len && len - i > 1
        invariant
            len == uri@.len(),
            i <= len,
            forall|j: int| 0 <= j < i ==> !double_slash_at(uri@, j),
        decreases len - i,
    {
        if uri.get_char(i) == '/' && uri.get_char(i + 1) == '/' {
            assert(first_double_slash_at(uri@, i as int));
            let ok = prefix_is(uri, i, &['h', 't', 't', 'p', ':'])
                || prefix_is(uri, i, &['h', 't', 't', 'p', 's', ':'])
                || prefix_is(uri, i, &['f', 'i', 'l', 'e', ':'])
                || prefix_is(uri, i, &['f', 't', 'p', ':'])
                || prefix_is(uri, i, &['s', 'f', 't', 'p', ':'])
                || prefix_is(uri, i, &['w', 's', ':']);
            proof {
                assert forall|k: int| first_double_slash_at(uri@, k) implies k == i by {
                    if k < i {
                    } else if k > i {
                        assert(!double_slash_at(uri@, i as int));
                    }
                }
            }
            return ok;
        }
        i = i + 1;
    }
    assert forall|k: int| !first_double_slash_at(uri@, k) by {
        if 0 <= k && k + 1 < uri@.len() {
            assert(k < i);
        }
    }
    false
}

} // verus!

verus! {

/// The moment a page was taken.
#[verifier::external_type_specification]
#[verifier::external_body]
pub struct ExSystemTime(std::time::SystemTime);

/// Calls `std::time::SystemTime::now`. Nothing is claimed of the moment
/// it returns: it is the machine's clock.
#[verifier::external_body]
fn current_time() -> std::time::SystemTime {
    std::time::SystemTime::now()
}

/// One crawled page: where it was, what it held and where it links to.
#[derive(Debug, PartialEq, Eq, Hash)]
pub struct Target {
    pub timestamp: std::time::SystemTime,
    pub uri: String,
    pub page_raw: String,
    pub child_links: Vec<String>,
    pub parent_link: Option<String>,
}

/// The content of a [`Target`], its strings taken as text.
pub struct TargetView {
    pub timestamp: std::time::SystemTime,
    pub uri: Seq<char>,
    pub page_raw: Seq<char>,
    pub child_links: Seq<Seq<char>>,
    pub parent_link: Option<Seq<char>>,
}

impl View for Target {
    type V = TargetView;

    open spec fn view(&self) -> TargetView {
        TargetView {
            timestamp: self.timestamp,
            uri: self.uri@,
            page_raw: self.page_raw@,
            child_links: texts(self.child_links@),
            parent_link: opt_text(self.parent_link),
        }
    }
}

impl Clone for Target {
    fn clone(&self) -> (r: Self)
        ensures
            r@ == self@,
    {
        Target {
            timestamp: self.timestamp,
            uri: self.uri.clone(),
            page_raw: self.page_raw.clone(),
            child_links: copy_texts(&self.child_links),
            parent_link: copy_opt_text(&self.parent_link),
        }
    }
}

/// An empty page taken at `timestamp`: no URI, no content, no links, no parent.
pub open spec fn empty_page(timestamp: std::time::SystemTime) -> TargetView {
    TargetView {
        timestamp,
        uri: Seq::empty(),
        page_raw: Seq::empty(),
        child_links: Seq::empty(),
        parent_link: None,
    }
}

impl Default for Target {
    /// An empty page taken now (see [`Target::taken_at`]).
    fn default() -> (r: Self)
        ensures
            r@ == empty_page(r@.timestamp),
    {
        Target::taken_at(current_time())
    }
}

impl Target {
    /// An empty page taken at `timestamp`.
    pub fn taken_at(timestamp: std::time::SystemTime) -> (r: Self)
        ensures
            r@ == empty_page(timestamp),
    {
        let r = Target {
            timestamp,
            uri: String::new(),
            page_raw: String::new(),
            child_links: Vec::new(),
            parent_link: None,
        };
        assert(texts(r.child_links@) =~= Seq::<Seq<char>>::empty());
        r
    }

    /// The page's URI.
    pub fn uri(&self) -> (r: &str)
        ensures
            r@ == self@.uri,
    {
        self.uri.as_str()
    }

    /// The links found on the page, in the order the parsed tree holds them.
    pub fn child_links(&self) -> (r: &Vec<String>)
        ensures
            texts(r@) == self@.child_links,
    {
        &self.child_links
    }
}

} // verus!

verus! {

/// The values of attribute `attr` on each element of the HTML document
/// read from `body` that the CSS selector `selector` matches, in the order
/// the `scraper` crate's tree holds its nodes (`None` where an element has
/// no such attribute); `None` as a whole where `scraper` does not parse
/// `selector`.
pub uninterp spec fn selected_attrs(body: Seq<char>, selector: Seq<char>, attr: Seq<char>) -> Option<
    Seq<Option<Seq<char>>>,
>;

/// The `href` of each `a` element of the document read from `body`: what
/// a link is to a crawl. Were the selector refused, there would be none.
pub open spec fn anchor_hrefs(body: Seq<char>) -> Seq<Option<Seq<char>>> {
    match selected_attrs(body, "a"@, "href"@) {
        Some(values) => values,
        None => Seq::empty(),
    }
}

/// The HTML that the `scraper` crate serializes back from the document it
/// parses out of `body`.
pub uninterp spec fn document_html(body: Seq<char>) -> Seq<char>;

/// The characters of each optional string.
pub open spec fn opt_texts(v: Seq<Option<String>>) -> Seq<Option<Seq<char>>> {
    v.map_values(|o: Option<String>| opt_text(o))
}

/// Parses `body` with `scraper::Html::parse_document`, parses `selector`
/// with `scraper::Selector::parse`, selects the matching elements and reads
/// each one's `attr` with `scraper::node::Element::attr`. The claim is only
/// that it gives a list exactly where the one named [`selected_attrs`] of
/// the three arguments exists, and then that list, element by element.
#[verifier::external_body]
fn select_attr_values(body: &str, selector: &str, attr: &str) -> (r: Option<Vec<Option<String>>>)
    ensures
        r is Some <==> selected_attrs(body@, selector@, attr@) is Some,
        r matches Some(values) ==> opt_texts(values@) == selected_attrs(body@, selector@, attr@)->0,
{
    let document = scraper::Html::parse_document(body);
    match scraper::Selector::parse(selector) {
        Ok(sel) => Some(document.select(&sel).map(|e| e.value().attr(attr).map(|s| s.to_owned())).collect()),
        Err(_) => None,
    }
}

/// Parses `body` with `scraper::Html::parse_document` and serializes it
/// back with `scraper::Html::html`. The claim is only that the result is
/// the one named [`document_html`] of `body`.
#[verifier::external_body]
fn serialize_document(body: &str) -> (r: String)
    ensures
        r@ == document_html(body@),
{
    scraper::Html::parse_document(body).html()
}

/// What the scraping reads of a parsed HTML document: the `href` of each
/// anchor, and the document serialized back.
#[derive(Debug)]
pub struct Document {
    anchor_hrefs: Vec<Option<String>>,
    html: String,
}

/// The content of a [`Document`].
pub struct DocumentView {
    pub anchor_hrefs: Seq<Option<Seq<char>>>,
    pub html: Seq<char>,
}

/// What parsing `body` gives.
pub open spec fn parsed(body: Seq<char>) -> DocumentView {
    DocumentView { anchor_hrefs: anchor_hrefs(body), html: document_html(body) }
}

impl View for Document {
    type V = DocumentView;

    closed spec fn view(&self) -> DocumentView {
        DocumentView { anchor_hrefs: opt_texts(self.anchor_hrefs@), html: self.html@ }
    }
}

impl Clone for Document {
    fn clone(&self) -> (r: Self)
        ensures
            r@ == self@,
    {
        let mut hrefs: Vec<Option<String>> = Vec::new();
        let mut i: usize = 0;
        while i < self.anchor_hrefs.len()
            invariant
                i <= self.anchor_hrefs@.len(),
                hrefs@.len() == i,
                opt_texts(hrefs@) == opt_texts(self.anchor_hrefs@.take(i as int)),
            decreases self.anchor_hrefs@.len() - i,
        {
            let ghost before = hrefs@;
            hrefs.push(copy_opt_text(&self.anchor_hrefs[i]));
            assert(opt_texts(hrefs@) =~= opt_texts(before).push(opt_text(self.anchor_hrefs@[i as int])));
            assert(opt_texts(self.anchor_hrefs@.take(i + 1)) =~= opt_texts(self.anchor_hrefs@.take(i as int)).push(
                opt_text(self.anchor_hrefs@[i as int]),
            ));
            i = i + 1;
        }
        assert(self.anchor_hrefs@.take(self.anchor_hrefs@.len() as int) =~= self.anchor_hrefs@);
        Document { anchor_hrefs: hrefs, html: self.html.clone() }
    }
}

impl Document {
    /// Parses the HTML document `body`.
    pub fn parse(body: &str) -> (r: Self)
        ensures
            r@ == parsed(body@),
    {
        let anchor_hrefs = match select_attr_values(body, "a", "href") {
            Some(values) => values,
            None => {
                let none: Vec<Option<String>> = Vec::new();
                assert(opt_texts(none@) =~= Seq::<Option<Seq<char>>>::empty());
                none
            },
        };
        Document { anchor_hrefs, html: serialize_document(body) }
    }

    /// The `href` of each anchor, in the order the parsed tree holds them.
    pub fn anchor_hrefs(&self) -> (r: &Vec<Option<String>>)
        ensures
            opt_texts(r@) == self@.anchor_hrefs,
    {
        &self.anchor_hrefs
    }

    /// The document serialized back to HTML.
    pub fn html(&self) -> (r: &str)
        ensures
            r@ == self@.html,
    {
        self.html.as_str()
    }
}

/// The links that anchors carry, in order: anchors without `href` are passed over.
pub open spec fn present_links(hrefs: Seq<Option<Seq<char>>>) -> Seq<Seq<char>>
    decreases hrefs.len(),
{
    if hrefs.len() == 0 {
        Seq::empty()
    } else {
        let rest = present_links(hrefs.drop_last());
        match hrefs.last() {
            Some(link) => rest.push(link),
            None => rest,
        }
    }
}

/// Every anchor that carries an `href` gives its link, in order, and no
/// other anchor gives one: an anchor without `href` adds nothing, one with
/// `href` adds exactly its link at the end, and no anchors give no links.
pub proof fn lemma_each_href_gives_a_link(hrefs: Seq<Option<Seq<char>>>, link: Seq<char>)
    ensures
        present_links(Seq::empty()) == Seq::<Seq<char>>::empty(),
        present_links(hrefs.push(Some(link))) == present_links(hrefs).push(link),
        present_links(hrefs.push(None)) == present_links(hrefs),
        present_links(hrefs).len() <= hrefs.len(),
    decreases hrefs.len(),
{
    assert(hrefs.push(Some(link)).drop_last() =~= hrefs);
    assert(hrefs.push(None).drop_last() =~= hrefs);
    if hrefs.len() > 0 {
        lemma_each_href_gives_a_link(hrefs.drop_last(), link);
    }
}

/// `acc` with the document's links added after its own.
pub open spec fn with_links(acc: TargetView, doc: DocumentView) -> TargetView {
    TargetView { child_links: acc.child_links + present_links(doc.anchor_hrefs), ..acc }
}

/// `acc` with the document's HTML as its content.
pub open spec fn with_raw_page(acc: TargetView, doc: DocumentView) -> TargetView {
    TargetView { page_raw: doc.html, ..acc }
}

/// Collects the links of a page's anchors.
pub struct LinkExtractor;

impl WebExtractor<Target> for LinkExtractor {
    open spec fn extracts(&self, acc: Target, doc: DocumentView, out: Target) -> bool {
        out@ == with_links(acc@, doc)
    }

    fn extract_into(&self, acc: &Target, doc: &Document) -> (r: Target) {
        let mut child_links = copy_texts(&acc.child_links);
        let hrefs = doc.anchor_hrefs();
        let mut i: usize = 0;
        while i < hrefs.len()
            invariant
                i <= hrefs@.len(),
                texts(child_links@) == acc@.child_links + present_links(opt_texts(hrefs@).take(i as int)),
            decreases hrefs@.len() - i,
        {
            let ghost before = texts(child_links@);
            assert(opt_texts(hrefs@).take(i + 1).drop_last() =~= opt_texts(hrefs@).take(i as int));
            match &hrefs[i] {
                Some(link) => {
                    child_links.push(link.clone());
                    assert(texts(child_links@) =~= before.push(link@));
                },
                None => {},
            }
            i = i + 1;
        }
        assert(opt_texts(hrefs@).take(hrefs@.len() as int) =~= opt_texts(hrefs@));
        Target {
            timestamp: acc.timestamp,
            uri: acc.uri.clone(),
            page_raw: acc.page_raw.clone(),
            child_links,
            parent_link: copy_opt_text(&acc.parent_link),
        }
    }
}

/// Keeps a page's HTML.
pub struct RawExtractor;

impl WebExtractor<Target> for RawExtractor {
    open spec fn extracts(&self, acc: Target, doc: DocumentView, out: Target) -> bool {
        out@ == with_raw_page(acc@, doc)
    }

    fn extract_into(&self, acc: &Target, doc: &Document) -> (r: Target) {
        Target {
            timestamp: acc.timestamp,
            uri: acc.uri.clone(),
            page_raw: doc.html().to_string(),
            child_links: copy_texts(&acc.child_links),
            parent_link: copy_opt_text(&acc.parent_link),
        }
    }
}

/// A scraper that reads links and content out of a page's HTML.
#[derive(Debug)]
pub struct GenWebScraper {
    body: String,
    document: Document,
}

/// What scraping the page `body` gives, but for the moment it is taken:
/// no URI yet, the document's links and HTML, and no parent.
pub open spec fn scraped(target: TargetView, body: Seq<char>) -> bool {
    &&& target.uri == Seq::<char>::empty()
    &&& target.page_raw == document_html(body)
    &&& target.child_links == present_links(anchor_hrefs(body))
    &&& target.parent_link is None
}

impl View for GenWebScraper {
    type V = Seq<char>;

    /// The text of the page.
    closed spec fn view(&self) -> Seq<char> {
        self.body@
    }
}

impl GenWebScraper {
    /// The document is the one parsed from the page's text.
    #[verifier::type_invariant]
    closed spec fn parsed_from_body(&self) -> bool {
        self.document@ == parsed(self.body@)
    }
}

impl Clone for GenWebScraper {
    fn clone(&self) -> (r: Self)
        ensures
            r@ == self@,
    {
        proof { use_type_invariant(self); }
        GenWebScraper { body: self.body.clone(), document: self.document.clone() }
    }
}

impl WebScraper for GenWebScraper {
    /// The page taken now (see [`GenWebScraper::scrape_at`]).
    fn scrape(&self) -> (r: Target)
        ensures
            scraped(r@, self@),
    {
        self.scrape_at(current_time())
    }
}

impl GenWebScraper {
    /// The page scraped, taken at `timestamp`: its links, then its HTML,
    /// are read into an empty page.
    pub fn scrape_at(&self, timestamp: std::time::SystemTime) -> (r: Target)
        ensures
            scraped(r@, self@),
            r@.timestamp == timestamp,
    {
        proof { use_type_invariant(self); }
        let target = ScrapeReducer(Target::taken_at(timestamp));
        let r = target.extract(&self.document, &LinkExtractor).extract(&self.document, &RawExtractor).0;
        assert(Seq::<Seq<char>>::empty() + present_links(anchor_hrefs(self.body@)) =~= present_links(anchor_hrefs(self.body@)));
        r
    }

    /// A scraper of the page `body`, parsed once.
    pub fn new(body: &str) -> (r: Self)
        ensures
            r@ == body@,
    {
        GenWebScraper { body: body.to_string(), document: Document::parse(body) }
    }

    /// The page's text as it was given.
    pub fn body(&self) -> (r: &str)
        ensures
            r@ == self@,
    {
        self.body.as_str()
    }
}

} // verus!
