//! Scraping a page: a scraper gives a [`Target`], built up by extractors
//! that each read one thing out of the parsed document.

use vstd::prelude::*;
use crate::web::{Document, DocumentView, Target};

verus! {

/// Something that can scrape a page into a [`Target`].
pub trait WebScraper {
    fn scrape(&self) -> Target;
}

/// Reads one thing out of a document into an accumulated value.
pub trait WebExtractor<T> {
    /// `out` is what this extractor makes of `acc` and `doc`.
    spec fn extracts(&self, acc: T, doc: DocumentView, out: T) -> bool;

    /// What this extractor makes of `acc` and `doc`.
    fn extract_into(&self, acc: &T, doc: &Document) -> (r: T)
        ensures
            self.extracts(*acc, doc@, r),
    ;
}

/// A value built up by extractors, one after the other.
pub struct ScrapeReducer<T>(pub T) where T: Clone;

impl<T> ScrapeReducer<T> where T: Clone {
    /// The value once `extr` has read `doc` into it.
    pub fn extract<Extr>(self, doc: &Document, extr: &Extr) -> (r: Self)
        where Extr: WebExtractor<T>,
        ensures
            extr.extracts(self.0, doc@, r.0),
    {
        ScrapeReducer(extr.extract_into(&self.0, doc))
    }

    /// A clone of the value built so far.
    pub fn result(&self) -> (r: T)
        ensures
            vstd::pervasive::cloned(self.0, r),
    {
        self.0.clone()
    }
}

} // verus!
