//! A spider's configuration, and how the spider reads its supervisor's
//! status while it waits for the crawl to end.

use vstd::prelude::*;
use crate::common::{copy_results, result_views, CrawlResult, CrawlResultView};
use crate::error::SpiderFailure;
use crate::spider_sup::{fresh_supervisor, SpiderStatus, SpiderSupervisor, StatusView, DEFAULT_NUM_CRAWLERS};
use crate::text::{copy_opt_text, copy_texts, opt_text, texts};

verus! {

/// How long a spider waits between two looks at its supervisor, unless
/// told otherwise: ten seconds.
pub const DEFAULT_POLL_MILLIS: u64 = 10000;

/// What a spider crawls: its starting URIs, and what to search for, if anything.
#[derive(Debug)]
pub struct SpiderTargets {
    search_term: Option<String>,
    uris: Vec<String>,
}

/// The content of [`SpiderTargets`].
pub struct SpiderTargetsView {
    pub search_term: Option<Seq<char>>,
    pub uris: Seq<Seq<char>>,
}

impl View for SpiderTargets {
    type V = SpiderTargetsView;

    closed spec fn view(&self) -> SpiderTargetsView {
        SpiderTargetsView { search_term: opt_text(self.search_term), uris: texts(self.uris@) }
    }
}

impl Clone for SpiderTargets {
    fn clone(&self) -> (r: Self)
        ensures
            r@ == self@,
    {
        SpiderTargets { search_term: copy_opt_text(&self.search_term), uris: copy_texts(&self.uris) }
    }
}

impl Default for SpiderTargets {
    /// No search term and no URIs.
    fn default() -> (r: Self)
        ensures
            r@ == (SpiderTargetsView { search_term: None, uris: Seq::empty() }),
    {
        let r = SpiderTargets { search_term: None, uris: Vec::new() };
        assert(texts(r.uris@) =~= Seq::<Seq<char>>::empty());
        r
    }
}

impl SpiderTargets {
    /// Targets made of a search term, if any, and starting URIs.
    pub fn new(search_term: Option<String>, uris: Vec<String>) -> (r: Self)
        ensures
            r@ == (SpiderTargetsView { search_term: opt_text(search_term), uris: texts(uris@) }),
    {
        SpiderTargets { search_term, uris }
    }

    /// What to search for, if anything.
    pub fn search_term(&self) -> (r: Option<&str>)
        ensures
            match r {
                Some(t) => self@.search_term == Some(t@),
                None => self@.search_term is None,
            },
    {
        match &self.search_term {
            Some(t) => Some(t.as_str()),
            None => None,
        }
    }

    /// The starting URIs.
    pub fn uris(&self) -> (r: &[String])
        ensures
            texts(r@) == self@.uris,
    {
        self.uris.as_slice()
    }
}

/// How a spider is set up.
#[derive(Debug)]
pub struct SpiderConfig {
    pub target_file: Option<String>,
    pub targets: SpiderTargets,
    pub num_crawlers: u32,
    pub poll_interval_millisec: u64,
}

impl Clone for SpiderConfig {
    fn clone(&self) -> (r: Self)
        ensures
            opt_text(r.target_file) == opt_text(self.target_file),
            r.targets@ == self.targets@,
            r.num_crawlers == self.num_crawlers,
            r.poll_interval_millisec == self.poll_interval_millisec,
    {
        SpiderConfig {
            target_file: copy_opt_text(&self.target_file),
            targets: self.targets.clone(),
            num_crawlers: self.num_crawlers,
            poll_interval_millisec: self.poll_interval_millisec,
        }
    }
}

impl Default for SpiderConfig {
    /// No target file, no targets, the default number of crawlers and the
    /// default poll interval.
    fn default() -> (r: Self)
        ensures
            r.target_file is None,
            r.targets@ == (SpiderTargetsView { search_term: None, uris: Seq::empty() }),
            r.num_crawlers == DEFAULT_NUM_CRAWLERS,
            r.poll_interval_millisec == DEFAULT_POLL_MILLIS,
    {
        SpiderConfig {
            target_file: None,
            targets: SpiderTargets::default(),
            num_crawlers: DEFAULT_NUM_CRAWLERS as u32,
            poll_interval_millisec: DEFAULT_POLL_MILLIS,
        }
    }
}

/// The list of strings that `serde_json` reads out of the JSON text
/// `json`, or `None` where `json` holds no such list.
pub uninterp spec fn json_string_list(json: Seq<char>) -> Option<Seq<Seq<char>>>;

/// A JSON error of `serde_json`.
#[verifier::external_type_specification]
#[verifier::external_body]
pub struct ExJsonError(serde_json::Error);

/// Reads a list of strings out of `json` with
/// `serde_json::from_str::<Vec<String>>`. The claim is only that it
/// succeeds exactly where the list named [`json_string_list`] of `json`
/// exists, and then gives that list; of the error nothing is claimed.
#[verifier::external_body]
fn parse_json_strings(json: &str) -> (r: Result<Vec<String>, serde_json::Error>)
    ensures
        r is Ok <==> json_string_list(json@) is Some,
        r matches Ok(v) ==> texts(v@) == json_string_list(json@)->0,
{
    serde_json::from_str::<Vec<String>>(json)
}

/// Why a list of targets could not be read.
#[derive(Debug)]
pub enum TargetsError {
    /// The text is no JSON list of strings.
    Json(serde_json::Error),
}

impl SpiderConfig {
    /// Replaces the configured URIs by the JSON list of strings `json`,
    /// and gives them; the search term is left alone. Where `json` holds
    /// no such list, nothing changes and the JSON error is given.
    pub fn populate_targets_from_json(&mut self, json: &str) -> (r: Result<&[String], TargetsError>)
        ensures
            r is Ok <==> json_string_list(json@) is Some,
            opt_text(final(self).target_file) == opt_text(old(self).target_file),
            final(self).num_crawlers == old(self).num_crawlers,
            final(self).poll_interval_millisec == old(self).poll_interval_millisec,
            final(self).targets@.search_term == old(self).targets@.search_term,
            match r {
                Ok(uris) => {
                    &&& final(self).targets@.uris == json_string_list(json@)->0
                    &&& texts(uris@) == json_string_list(json@)->0
                },
                Err(_) => final(self).targets@.uris == old(self).targets@.uris,
            },
    {
        match parse_json_strings(json) {
            Ok(uris) => {
                self.targets.uris = uris;
                Ok(self.targets.uris.as_slice())
            },
            Err(e) => Err(TargetsError::Json(e)),
        }
    }

    /// The supervisor a spider with this configuration starts: it crawls
    /// the configured URIs with the configured number of crawlers, and
    /// searches for the search term where there is one.
    pub fn supervisor(&self) -> (r: SpiderSupervisor)
        ensures
            r@ == fresh_supervisor(self.targets@.uris, self.num_crawlers as nat, self.targets@.search_term),
    {
        let num_crawlers = self.num_crawlers as usize;
        match &self.targets.search_term {
            Some(search_term) => SpiderSupervisor::with_search(&self.targets.uris, num_crawlers, search_term.as_str()),
            None => SpiderSupervisor::with_ncrawlers(&self.targets.uris, num_crawlers),
        }
    }
}

/// What a spider does after it has looked at its supervisor's status.
#[derive(Debug)]
pub enum PollStep {
    /// The crawl goes on: look again later.
    Wait,
    /// The crawl is over, with these results or this failure.
    Finish(Result<Vec<CrawlResult>, SpiderFailure>),
}

/// The content of a [`PollStep`].
pub enum PollStepView {
    Wait,
    Finish(Result<Seq<CrawlResultView>, Seq<char>>),
}

impl View for PollStep {
    type V = PollStepView;

    open spec fn view(&self) -> PollStepView {
        match self {
            PollStep::Wait => PollStepView::Wait,
            PollStep::Finish(Ok(results)) => PollStepView::Finish(Ok(result_views(results@))),
            PollStep::Finish(Err(failure)) => PollStepView::Finish(Err(failure.0@)),
        }
    }
}

/// The reason given when the supervisor could not be asked for its status.
pub open spec fn unreachable_supervisor_reason() -> Seq<char> {
    "Unknown Error when polling GetSpiderStatus :: Actor is probably dead"@
}

/// What a spider does with `polled`, the status its supervisor gave, or
/// `None` where the supervisor could not be asked: a finished crawl ends
/// with its results, a failed one with its reason, an unreachable
/// supervisor ends the crawl with a failure; otherwise the spider waits.
pub open spec fn poll_outcome(polled: Option<StatusView>) -> PollStepView {
    match polled {
        Some(StatusView::Done(results)) => PollStepView::Finish(Ok(results)),
        Some(StatusView::Failed(reason)) => PollStepView::Finish(Err(reason)),
        Some(_) => PollStepView::Wait,
        None => PollStepView::Finish(Err(unreachable_supervisor_reason())),
    }
}

/// The content of an optional status.
pub open spec fn polled_view(polled: Option<SpiderStatus>) -> Option<StatusView> {
    match polled {
        Some(s) => Some(s@),
        None => None,
    }
}

/// Decides, from one look at the supervisor, whether the spider's run
/// ends and how (see [`poll_outcome`]).
pub fn poll_step(polled: &Option<SpiderStatus>) -> (r: PollStep)
    ensures
        r@ == poll_outcome(polled_view(*polled)),
{
    match polled {
        Some(SpiderStatus::Done(new_targets)) => PollStep::Finish(Ok(copy_results(new_targets))),
        Some(SpiderStatus::Failed(reason)) => PollStep::Finish(Err(SpiderFailure(reason.clone()))),
        Some(_) => PollStep::Wait,
        None => PollStep::Finish(
            Err(SpiderFailure("Unknown Error when polling GetSpiderStatus :: Actor is probably dead".to_string())),
        ),
    }
}

} // verus!
