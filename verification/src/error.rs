//! Error values of the spider and of the metadata store.

use vstd::prelude::*;
use vstd::string::*;
use crate::text::{debug_quoted, debug_text};

verus! {

/// Why the spider as a whole gave up.
#[derive(Debug)]
pub struct SpiderFailure(pub String);

impl Clone for SpiderFailure {
    fn clone(&self) -> (r: Self)
        ensures
            r.0@ == self.0@,
    {
        SpiderFailure(self.0.clone())
    }
}

impl SpiderFailure {
    /// The failure as it is shown to a user: `SpiderFailure(` and the
    /// reason, quoted and escaped, then `)`.
    pub fn to_display_string(&self) -> (r: String)
        ensures
            r@ == "SpiderFailure("@ + debug_text(self.0@) + ")"@,
    {
        let mut r = "SpiderFailure(".to_string();
        r.append(debug_quoted(self.0.as_str()).as_str());
        r.append(")");
        r
    }
}

/// The kind of connection on which a crawl failed.
#[derive(Debug, Clone, Copy)]
pub enum ConnectionErrorType {
    HTTP,
    HTTPS,
    TLS,
    FTP,
    SFTP,
    SSH,
    WebSocket,
}

/// What went wrong during one crawl.
#[derive(Debug)]
pub enum CrawlErrorInfo {
    Connection(ConnectionErrorType, String),
    Parse(String),
}

/// The text-level content of a [`CrawlErrorInfo`].
pub enum CrawlErrorInfoView {
    Connection(ConnectionErrorType, Seq<char>),
    Parse(Seq<char>),
}

impl View for CrawlErrorInfo {
    type V = CrawlErrorInfoView;

    open spec fn view(&self) -> CrawlErrorInfoView {
        match self {
            CrawlErrorInfo::Connection(kind, reason) => CrawlErrorInfoView::Connection(*kind, reason@),
            CrawlErrorInfo::Parse(reason) => CrawlErrorInfoView::Parse(reason@),
        }
    }
}

impl Clone for CrawlErrorInfo {
    fn clone(&self) -> (r: Self)
        ensures
            r@ == self@,
    {
        match self {
            CrawlErrorInfo::Connection(kind, reason) => CrawlErrorInfo::Connection(*kind, reason.clone()),
            CrawlErrorInfo::Parse(reason) => CrawlErrorInfo::Parse(reason.clone()),
        }
    }
}

/// A crawl of `uri` that failed, and why.
#[derive(Debug)]
pub struct CrawlError {
    uri: String,
    info: CrawlErrorInfo,
}

/// The text-level content of a [`CrawlError`].
pub struct CrawlErrorView {
    pub uri: Seq<char>,
    pub info: CrawlErrorInfoView,
}

impl View for CrawlError {
    type V = CrawlErrorView;

    closed spec fn view(&self) -> CrawlErrorView {
        CrawlErrorView { uri: self.uri@, info: self.info@ }
    }
}

impl Clone for CrawlError {
    fn clone(&self) -> (r: Self)
        ensures
            r@ == self@,
    {
        CrawlError { uri: self.uri.clone(), info: self.info.clone() }
    }
}

impl CrawlError {
    /// A failed crawl of `uri`.
    pub fn new(uri: String, info: CrawlErrorInfo) -> (r: Self)
        ensures
            r@ == (CrawlErrorView { uri: uri@, info: info@ }),
    {
        CrawlError { uri, info }
    }

    /// The URI whose crawl failed.
    pub fn at_uri(&self) -> (r: &str)
        ensures
            r@ == self@.uri,
    {
        self.uri.as_str()
    }

    /// Why the crawl failed.
    pub fn info(&self) -> (r: &CrawlErrorInfo)
        ensures
            r@ == self@.info,
    {
        &self.info
    }
}

/// A refused operation on the metadata store.
#[derive(Debug)]
pub struct TransactionError(pub String);

impl Clone for TransactionError {
    fn clone(&self) -> (r: Self)
        ensures
            r.0@ == self.0@,
    {
        TransactionError(self.0.clone())
    }
}

impl TransactionError {
    /// The error as it is shown to a user: `TransactionError(` and the
    /// reason, quoted and escaped, then `)`.
    pub fn to_display_string(&self) -> (r: String)
        ensures
            r@ == "TransactionError("@ + debug_text(self.0@) + ")"@,
    {
        let mut r = "TransactionError(".to_string();
        r.append(debug_quoted(self.0.as_str()).as_str());
        r.append(")");
        r
    }
}

} // verus!
