//! The spider's supervisor: it keeps the URIs still to crawl, hands them
//! out to idle crawlers, records what comes back, and says when the crawl
//! is over. Crawlers are known by number; starting them and carrying the
//! messages is the caller's part.

use std::collections::HashMap;
use vstd::prelude::*;
use crate::common::{copy_results, result_views, CrawlResult, CrawlResultView, DoneCrawl, outcome_view};
use crate::error::{CrawlError, CrawlErrorView};
use crate::text::{contains_text, copy_opt_text, copy_texts, opt_text, texts};
use crate::web::TargetView;

verus! {

broadcast use vstd::std_specs::hash::group_hash_axioms;

/// The number of crawlers a supervisor starts unless told otherwise.
pub const DEFAULT_NUM_CRAWLERS: usize = 8;

/// Where a crawl stands.
#[derive(Debug)]
pub enum SpiderStatus {
    Running,
    Done(Vec<CrawlResult>),
    Failed(String),
    PendingStart,
}

/// The content of a [`SpiderStatus`].
pub enum StatusView {
    Running,
    Done(Seq<CrawlResultView>),
    Failed(Seq<char>),
    PendingStart,
}

impl View for SpiderStatus {
    type V = StatusView;

    open spec fn view(&self) -> StatusView {
        match self {
            SpiderStatus::Running => StatusView::Running,
            SpiderStatus::Done(results) => StatusView::Done(result_views(results@)),
            SpiderStatus::Failed(reason) => StatusView::Failed(reason@),
            SpiderStatus::PendingStart => StatusView::PendingStart,
        }
    }
}

impl Clone for SpiderStatus {
    fn clone(&self) -> (r: Self)
        ensures
            r@ == self@,
    {
        match self {
            SpiderStatus::Running => SpiderStatus::Running,
            SpiderStatus::Done(results) => SpiderStatus::Done(copy_results(results)),
            SpiderStatus::Failed(reason) => SpiderStatus::Failed(reason.clone()),
            SpiderStatus::PendingStart => SpiderStatus::PendingStart,
        }
    }
}

/// What the supervisor asks to be done after an event.
#[derive(Debug)]
pub enum SupervisorAction {
    /// Order crawler `0` to crawl URI `1`.
    Dispatch(u64, String),
    /// Tell the supervisor itself that the crawl is over, with these results.
    NotifyDone(Vec<CrawlResult>),
    /// Report a crawl that failed.
    ReportError(CrawlError),
}

/// The content of a [`SupervisorAction`].
pub enum ActionView {
    Dispatch(u64, Seq<char>),
    NotifyDone(Seq<CrawlResultView>),
    ReportError(CrawlErrorView),
}

impl View for SupervisorAction {
    type V = ActionView;

    open spec fn view(&self) -> ActionView {
        match self {
            SupervisorAction::Dispatch(c, uri) => ActionView::Dispatch(*c, uri@),
            SupervisorAction::NotifyDone(results) => ActionView::NotifyDone(result_views(results@)),
            SupervisorAction::ReportError(e) => ActionView::ReportError(e@),
        }
    }
}

/// The content of each action, in order.
pub open spec fn action_views(v: Seq<SupervisorAction>) -> Seq<ActionView> {
    v.map_values(|a: SupervisorAction| a@)
}

/// Crawlers by number: those waiting for work, and those crawling a URI.
struct CrawlerQueue {
    idle: Vec<u64>,
    active: HashMap<u64, String>,
}

/// The URI text each busy crawler is on.
pub open spec fn active_view(m: Map<u64, String>) -> Map<u64, Seq<char>> {
    m.map_values(|s: String| s@)
}

impl CrawlerQueue {
    fn with_capacity(n: usize) -> (r: Self)
        ensures
            r.idle@ == Seq::<u64>::empty(),
            r.active@ == Map::<u64, String>::empty(),
    {
        CrawlerQueue { idle: Vec::with_capacity(n), active: HashMap::with_capacity(n) }
    }

    fn clear(&mut self)
        ensures
            final(self).idle@ == Seq::<u64>::empty(),
            final(self).active@ == Map::<u64, String>::empty(),
    {
        self.idle.clear();
        self.active.clear();
    }
}

/// The supervisor of one crawl.
pub struct SpiderSupervisor {
    targets: Vec<String>,
    targets_vistited: Vec<String>,
    results: Vec<CrawlResult>,
    crawlers: CrawlerQueue,
    num_crawlers: usize,
    status: SpiderStatus,
    search_term: Option<String>,
}

/// The content of a supervisor. `targets` is a stack: the last URI is
/// handed out first.
pub struct SupervisorView {
    pub targets: Seq<Seq<char>>,
    pub visited: Seq<Seq<char>>,
    pub results: Seq<CrawlResultView>,
    pub idle: Seq<u64>,
    pub active: Map<u64, Seq<char>>,
    pub num_crawlers: nat,
    pub status: StatusView,
    pub search_term: Option<Seq<char>>,
}

impl View for SpiderSupervisor {
    type V = SupervisorView;

    closed spec fn view(&self) -> SupervisorView {
        SupervisorView {
            targets: texts(self.targets@),
            visited: texts(self.targets_vistited@),
            results: result_views(self.results@),
            idle: self.crawlers.idle@,
            active: active_view(self.crawlers.active@),
            num_crawlers: self.num_crawlers as nat,
            status: self.status@,
            search_term: opt_text(self.search_term),
        }
    }
}

/// The links of `links` that are not among `visited`, in order.
pub open spec fn unvisited(visited: Seq<Seq<char>>, links: Seq<Seq<char>>) -> Seq<Seq<char>>
    decreases links.len(),
{
    if links.len() == 0 {
        Seq::empty()
    } else {
        let rest = unvisited(visited, links.drop_last());
        if visited.contains(links.last()) {
            rest
        } else {
            rest.push(links.last())
        }
    }
}

/// Hands the last targets to the idle crawlers, last idle crawler first,
/// until no crawler is idle. A crawler that finds no target left is let go,
/// and if no crawler is busy at that moment the crawl is reported done.
/// Gives the targets left, the busy crawlers and the actions.
pub open spec fn dispatch_idle(
    idle: Seq<u64>,
    targets: Seq<Seq<char>>,
    active: Map<u64, Seq<char>>,
    results: Seq<CrawlResultView>,
) -> (Seq<Seq<char>>, Map<u64, Seq<char>>, Seq<ActionView>)
    decreases idle.len(),
{
    if idle.len() == 0 {
        (targets, active, Seq::empty())
    } else {
        let c = idle.last();
        if targets.len() > 0 {
            let t = targets.last();
            let rest = dispatch_idle(idle.drop_last(), targets.drop_last(), active.insert(c, t), results);
            (rest.0, rest.1, seq![ActionView::Dispatch(c, t)] + rest.2)
        } else {
            let rest = dispatch_idle(idle.drop_last(), targets, active, results);
            if active.len() == 0 {
                (rest.0, rest.1, seq![ActionView::NotifyDone(results)] + rest.2)
            } else {
                rest
            }
        }
    }
}

/// The targets to visit once a crawl's outcome is taken in: on success the
/// unvisited links of the page are added after the current ones.
pub open spec fn pending_targets(s: SupervisorView, outcome: Result<TargetView, CrawlErrorView>) -> Seq<Seq<char>> {
    match outcome {
        Ok(t) => s.targets + unvisited(s.visited, t.child_links),
        Err(_) => s.targets,
    }
}

/// The results once a crawl's outcome is taken in: a page is recorded
/// under its own URI, an error records nothing.
pub open spec fn recorded_results(s: SupervisorView, outcome: Result<TargetView, CrawlErrorView>) -> Seq<CrawlResultView> {
    match outcome {
        Ok(t) => s.results.push((t.uri, t)),
        Err(_) => s.results,
    }
}

/// The report of a failed crawl, if it failed.
pub open spec fn error_reports(outcome: Result<TargetView, CrawlErrorView>) -> Seq<ActionView> {
    match outcome {
        Ok(_) => Seq::empty(),
        Err(e) => seq![ActionView::ReportError(e)],
    }
}

/// What the supervisor becomes, and asks for, when crawler `sender`
/// reports `outcome`. While targets are pending, they go to the idle
/// crawlers (the reporting crawler stays busy); with none pending and no
/// crawler busy the crawl is reported done; otherwise the reporting crawler
/// becomes idle.
pub open spec fn after_done_crawl(
    s: SupervisorView,
    sender: u64,
    outcome: Result<TargetView, CrawlErrorView>,
) -> (SupervisorView, Seq<ActionView>) {
    let targets1 = pending_targets(s, outcome);
    let results1 = recorded_results(s, outcome);
    let reports = error_reports(outcome);
    if targets1.len() > 0 {
        let d = dispatch_idle(s.idle, targets1, s.active, results1);
        (
            SupervisorView { targets: d.0, results: results1, idle: Seq::empty(), active: d.1, ..s },
            reports + d.2,
        )
    } else if s.active.len() == 0 {
        (
            SupervisorView { targets: targets1, results: results1, ..s },
            reports + seq![ActionView::NotifyDone(results1)],
        )
    } else {
        (
            SupervisorView {
                targets: targets1,
                results: results1,
                idle: s.idle.push(sender),
                active: s.active.remove(sender),
                ..s
            },
            reports,
        )
    }
}

/// Gives the freshly started crawlers `ids` their first work, in order:
/// each takes the last pending target if there is one, and waits idle
/// otherwise. Gives the targets left, the idle and busy crawlers and the
/// orders sent.
pub open spec fn setup_steps(
    targets: Seq<Seq<char>>,
    idle: Seq<u64>,
    active: Map<u64, Seq<char>>,
    ids: Seq<u64>,
) -> (Seq<Seq<char>>, Seq<u64>, Map<u64, Seq<char>>, Seq<ActionView>)
    decreases ids.len(),
{
    if ids.len() == 0 {
        (targets, idle, active, Seq::empty())
    } else {
        let r = setup_steps(targets, idle, active, ids.drop_last());
        let c = ids.last();
        if r.0.len() > 0 {
            (r.0.drop_last(), r.1, r.2.insert(c, r.0.last()), r.3.push(ActionView::Dispatch(c, r.0.last())))
        } else {
            (r.0, r.1.push(c), r.2, r.3)
        }
    }
}

/// The supervisor once it has started running with the crawlers `ids`.
pub open spec fn after_setup(s: SupervisorView, ids: Seq<u64>) -> (SupervisorView, Seq<ActionView>) {
    let r = setup_steps(s.targets, s.idle, s.active, ids);
    (SupervisorView { status: StatusView::Running, targets: r.0, idle: r.1, active: r.2, ..s }, r.3)
}

/// The supervisor once it is told that the crawl is over with `results`.
pub open spec fn after_spider_done(s: SupervisorView, results: Seq<CrawlResultView>) -> SupervisorView {
    SupervisorView { status: StatusView::Done(results), ..s }
}

/// A fresh supervisor of a crawl of `targets` with `n` crawlers.
pub open spec fn fresh_supervisor(targets: Seq<Seq<char>>, n: nat, search_term: Option<Seq<char>>) -> SupervisorView {
    SupervisorView {
        targets,
        visited: Seq::empty(),
        results: Seq::empty(),
        idle: Seq::empty(),
        active: Map::empty(),
        num_crawlers: n,
        status: StatusView::PendingStart,
        search_term,
    }
}

proof fn lemma_active_view_insert(m: Map<u64, String>, k: u64, v: String)
    ensures
        active_view(m.insert(k, v)) == active_view(m).insert(k, v@),
        active_view(m).dom() == m.dom(),
{
    assert(active_view(m.insert(k, v)) =~= active_view(m).insert(k, v@));
    assert(active_view(m).dom() =~= m.dom());
}

proof fn lemma_active_view_remove(m: Map<u64, String>, k: u64)
    ensures
        active_view(m.remove(k)) == active_view(m).remove(k),
        active_view(m).dom() == m.dom(),
{
    assert(active_view(m.remove(k)) =~= active_view(m).remove(k));
    assert(active_view(m).dom() =~= m.dom());
}

impl Default for SpiderSupervisor {
    /// A supervisor with nothing to crawl and the default number of crawlers.
    fn default() -> (r: Self)
        ensures
            r@ == fresh_supervisor(Seq::empty(), DEFAULT_NUM_CRAWLERS as nat, None),
    {
        let r = SpiderSupervisor {
            targets: Vec::new(),
            targets_vistited: Vec::new(),
            crawlers: CrawlerQueue::with_capacity(DEFAULT_NUM_CRAWLERS),
            num_crawlers: DEFAULT_NUM_CRAWLERS,
            status: SpiderStatus::PendingStart,
            search_term: None,
            results: Vec::new(),
        };
        assert(texts(r.targets@) =~= Seq::<Seq<char>>::empty());
        assert(texts(r.targets_vistited@) =~= Seq::<Seq<char>>::empty());
        assert(result_views(r.results@) =~= Seq::<CrawlResultView>::empty());
        assert(active_view(r.crawlers.active@) =~= Map::<u64, Seq<char>>::empty());
        r
    }
}

impl SpiderSupervisor {
    /// The URIs still to crawl, the next one last.
    pub fn targets(&self) -> (r: &Vec<String>)
        ensures
            texts(r@) == self@.targets,
    {
        &self.targets
    }

    /// Only finitely many crawlers are ever busy.
    pub proof fn busy_crawlers_finite(&self)
        ensures
            self@.active.dom().finite(),
    {
        assert(active_view(self.crawlers.active@).dom() =~= self.crawlers.active@.dom());
    }

    /// The crawlers waiting for work, the next to get work last.
    pub fn idle_crawlers(&self) -> (r: &Vec<u64>)
        ensures
            r@ == self@.idle,
    {
        &self.crawlers.idle
    }

    /// The URI that `crawler` is busy with, if it is busy.
    pub fn busy_on(&self, crawler: u64) -> (r: Option<String>)
        ensures
            match r {
                Some(uri) => self@.active.contains_key(crawler) && self@.active[crawler] == uri@,
                None => !self@.active.contains_key(crawler),
            },
    {
        match self.crawlers.active.get(&crawler) {
            Some(uri) => Some(uri.clone()),
            None => None,
        }
    }

    /// The pages recorded so far, in the order their crawls were reported.
    pub fn results(&self) -> (r: &Vec<CrawlResult>)
        ensures
            result_views(r@) == self@.results,
    {
        &self.results
    }

    /// What the crawl searches for, if anything.
    pub fn search_term(&self) -> (r: Option<String>)
        ensures
            opt_text(r) == self@.search_term,
    {
        copy_opt_text(&self.search_term)
    }

    /// How many crawlers the supervisor works with.
    pub fn ncrawlers(&self) -> (r: usize)
        ensures
            r as nat == self@.num_crawlers,
    {
        self.num_crawlers
    }

    /// A supervisor for `targets` with the default number of crawlers.
    pub fn new(targets: &Vec<String>) -> (r: Self)
        ensures
            r@ == fresh_supervisor(texts(targets@), DEFAULT_NUM_CRAWLERS as nat, None),
    {
        Self::with_ncrawlers(targets, DEFAULT_NUM_CRAWLERS)
    }

    /// A supervisor for `targets` with `num_crawlers` crawlers, not started.
    pub fn with_ncrawlers(targets: &Vec<String>, num_crawlers: usize) -> (r: Self)
        ensures
            r@ == fresh_supervisor(texts(targets@), num_crawlers as nat, None),
    {
        let ntargets = targets.len();
        let r = SpiderSupervisor {
            targets: copy_texts(targets),
            targets_vistited: Vec::with_capacity(ntargets),
            crawlers: CrawlerQueue::with_capacity(num_crawlers),
            num_crawlers,
            status: SpiderStatus::PendingStart,
            search_term: None,
            results: Vec::new(),
        };
        assert(texts(r.targets_vistited@) =~= Seq::<Seq<char>>::empty());
        assert(result_views(r.results@) =~= Seq::<CrawlResultView>::empty());
        assert(active_view(r.crawlers.active@) =~= Map::<u64, Seq<char>>::empty());
        r
    }

    /// A supervisor for `targets` with `num_crawlers` crawlers that searches for `term`.
    pub fn with_search(targets: &Vec<String>, num_crawlers: usize, term: &str) -> (r: Self)
        ensures
            r@ == fresh_supervisor(texts(targets@), num_crawlers as nat, Some(term@)),
    {
        let mut inst = Self::with_ncrawlers(targets, num_crawlers);
        inst.search_term = Some(term.to_string());
        inst
    }

    /// Hands the pending targets to the idle crawlers (see [`dispatch_idle`]).
    fn dispatch_to_idle(&mut self, actions: &mut Vec<SupervisorAction>)
        requires
            old(self).crawlers.active@.dom().finite(),
        ensures
            ({
                let d = dispatch_idle(old(self)@.idle, old(self)@.targets, old(self)@.active, old(self)@.results);
                &&& final(self)@ == (SupervisorView { targets: d.0, idle: Seq::empty(), active: d.1, ..old(self)@ })
                &&& action_views(final(actions)@) == action_views(old(actions)@) + d.2
            }),
    {
        let ghost s0 = self@;
        let ghost a0 = action_views(actions@);
        let ghost d0 = dispatch_idle(s0.idle, s0.targets, s0.active, s0.results);
        assert(a0 + Seq::<ActionView>::empty() =~= a0);
        while self.crawlers.idle.len() > 0
            invariant
                self@ == (SupervisorView { targets: self@.targets, idle: self@.idle, active: self@.active, ..s0 }),
                self.crawlers.active@.dom().finite(),
                ({
                    let d = dispatch_idle(self@.idle, self@.targets, self@.active, s0.results);
                    &&& d.0 == d0.0
                    &&& d.1 == d0.1
                    &&& action_views(actions@) + d.2 == a0 + d0.2
                }),
            decreases self.crawlers.idle@.len(),
        {
            let ghost before = self@;
            let ghost acts_before = action_views(actions@);
            let crawler = self.crawlers.idle.pop().unwrap();
            assert(self.crawlers.idle@ == before.idle.drop_last());
            if self.targets.len() > 0 {
                let target_uri = self.targets.pop().unwrap();
                assert(texts(self.targets@) =~= before.targets.drop_last());
                proof { lemma_active_view_insert(self.crawlers.active@, crawler, target_uri); }
                self.crawlers.active.insert(crawler, target_uri.clone());
                actions.push(SupervisorAction::Dispatch(crawler, target_uri));
                let ghost rest = dispatch_idle(self@.idle, self@.targets, self@.active, s0.results);
                assert(action_views(actions@) =~= acts_before.push(ActionView::Dispatch(crawler, before.targets.last())));
                assert(action_views(actions@) + rest.2 =~= acts_before + (seq![ActionView::Dispatch(crawler, before.targets.last())] + rest.2));
            } else {
                proof { lemma_active_view_remove(self.crawlers.active@, crawler); }
                if self.crawlers.active.len() == 0 {
                    actions.push(SupervisorAction::NotifyDone(copy_results(&self.results)));
                    let ghost rest = dispatch_idle(self@.idle, self@.targets, self@.active, s0.results);
                    assert(action_views(actions@) =~= acts_before.push(ActionView::NotifyDone(s0.results)));
                    assert(action_views(actions@) + rest.2 =~= acts_before + (seq![ActionView::NotifyDone(s0.results)] + rest.2));
                }
            }
        }
        assert(self@.idle =~= Seq::<u64>::empty());
        assert(action_views(actions@) + Seq::<ActionView>::empty() =~= action_views(actions@));
    }

    /// Queues the links of `links` that are not among the visited URIs,
    /// after the targets already queued.
    fn queue_unvisited(&mut self, links: &Vec<String>)
        ensures
            final(self)@ == (SupervisorView {
                targets: old(self)@.targets + unvisited(old(self)@.visited, texts(links@)),
                ..old(self)@
            }),
    {
        let ghost s0 = self@;
        let mut i: usize = 0;
        assert(s0.targets + unvisited(s0.visited, texts(links@.take(0))) =~= s0.targets);
        while i < links.len()
            invariant
                i <= links@.len(),
                self@ == (SupervisorView {
                    targets: s0.targets + unvisited(s0.visited, texts(links@.take(i as int))),
                    ..s0
                }),
            decreases links@.len() - i,
        {
            let ghost before = self@.targets;
            let uri = &links[i];
            assert(texts(links@.take(i + 1)) =~= texts(links@.take(i as int)).push(uri@));
            assert(texts(links@.take(i + 1)).drop_last() == texts(links@.take(i as int)));
            let seen = contains_text(&self.targets_vistited, uri);
            assert(seen == s0.visited.contains(uri@)) by {
                if seen {
                    let j = choose|j: int| 0 <= j < self.targets_vistited@.len() && self.targets_vistited@[j]@ == uri@;
                    assert(s0.visited[j] == uri@);
                }
                if s0.visited.contains(uri@) {
                    let j = choose|j: int| 0 <= j < s0.visited.len() && s0.visited[j] == uri@;
                    assert(self.targets_vistited@[j]@ == uri@);
                }
            }
            if !seen {
                self.targets.push(uri.clone());
                assert(texts(self.targets@) =~= before.push(uri@));
            }
            i = i + 1;
        }
        assert(links@.take(links@.len() as int) =~= links@);
    }

    /// Takes in what crawler `msg.sender` reports (see [`after_done_crawl`]):
    /// the page's links are queued and the page recorded, or the error is
    /// reported; then pending targets go to idle crawlers, or the crawl is
    /// reported done, or the crawler becomes idle.
    pub fn handle_done_crawl(&mut self, msg: DoneCrawl) -> (actions: Vec<SupervisorAction>)
        ensures
            ({
                let r = after_done_crawl(old(self)@, msg.sender, outcome_view(msg.result));
                &&& final(self)@ == r.0
                &&& action_views(actions@) == r.1
            }),
    {
        let ghost s0 = self@;
        let ghost outcome = outcome_view(msg.result);
        let DoneCrawl { result, sender } = msg;
        let mut actions: Vec<SupervisorAction> = Vec::new();
        match result {
            Ok(target) => {
                self.queue_unvisited(&target.child_links);
                let ghost before = self@.results;
                let uri = target.uri.clone();
                self.results.push(CrawlResult(uri, target));
                assert(result_views(self.results@) =~= before.push((target@.uri, target@)));
            },
            Err(err) => {
                actions.push(SupervisorAction::ReportError(err));
            },
        }
        assert(action_views(actions@) =~= error_reports(outcome));
        assert(self@.targets == pending_targets(s0, outcome));
        assert(self@.results == recorded_results(s0, outcome));
        proof { lemma_active_view_remove(self.crawlers.active@, sender); }
        if self.targets.len() > 0 {
            self.dispatch_to_idle(&mut actions);
        } else if self.crawlers.active.len() == 0 {
            let ghost before = action_views(actions@);
            actions.push(SupervisorAction::NotifyDone(copy_results(&self.results)));
            assert(action_views(actions@) =~= before + seq![ActionView::NotifyDone(self@.results)]);
        } else {
            self.crawlers.active.remove(&sender);
            self.crawlers.idle.push(sender);
        }
        actions
    }

    /// Whether the supervisor has yet to start its crawlers: only a
    /// supervisor pending start sets up, a restarted one does not.
    pub fn needs_setup(&self) -> (r: bool)
        ensures
            r == (self@.status is PendingStart),
    {
        match self.status {
            SpiderStatus::PendingStart => true,
            _ => false,
        }
    }

    /// Starts the crawl with the freshly started crawlers `crawler_ids`
    /// (see [`after_setup`]): the status becomes running, and each crawler
    /// in turn is ordered to crawl the last pending target, or waits idle.
    pub fn setup_once(&mut self, crawler_ids: &Vec<u64>) -> (actions: Vec<SupervisorAction>)
        requires
            crawler_ids@.len() == old(self)@.num_crawlers,
            crawler_ids@.no_duplicates(),
        ensures
            ({
                let r = after_setup(old(self)@, crawler_ids@);
                &&& final(self)@ == r.0
                &&& action_views(actions@) == r.1
            }),
    {
        let ghost s0 = self@;
        self.status = SpiderStatus::Running;
        let ghost s1 = self@;
        let mut actions: Vec<SupervisorAction> = Vec::new();
        let mut i: usize = 0;
        assert(crawler_ids@.take(0) =~= Seq::<u64>::empty());
        assert(action_views(actions@) =~= Seq::<ActionView>::empty());
        while i < crawler_ids.len()
            invariant
                i <= crawler_ids@.len(),
                ({
                    let r = setup_steps(s0.targets, s0.idle, s0.active, crawler_ids@.take(i as int));
                    &&& self@ == (SupervisorView { targets: r.0, idle: r.1, active: r.2, ..s1 })
                    &&& action_views(actions@) == r.3
                }),
            decreases crawler_ids@.len() - i,
        {
            let ghost before = self@;
            let ghost acts_before = action_views(actions@);
            let crawler = crawler_ids[i];
            assert(crawler_ids@.take(i + 1).drop_last() =~= crawler_ids@.take(i as int));
            if self.targets.len() > 0 {
                let uri = self.targets.pop().unwrap();
                assert(texts(self.targets@) =~= before.targets.drop_last());
                proof { lemma_active_view_insert(self.crawlers.active@, crawler, uri); }
                self.crawlers.active.insert(crawler, uri.clone());
                actions.push(SupervisorAction::Dispatch(crawler, uri));
                assert(action_views(actions@) =~= acts_before.push(ActionView::Dispatch(crawler, before.targets.last())));
            } else {
                self.crawlers.idle.push(crawler);
            }
            i = i + 1;
        }
        assert(crawler_ids@.take(crawler_ids@.len() as int) =~= crawler_ids@);
        actions
    }

    /// The crawl is over with `results`: the status becomes done with them.
    pub fn handle_spider_done(&mut self, results: Vec<CrawlResult>)
        ensures
            final(self)@ == after_spider_done(old(self)@, result_views(results@)),
    {
        self.status = SpiderStatus::Done(results);
    }

    /// Where the crawl stands; asking changes nothing.
    pub fn status(&self) -> (r: SpiderStatus)
        ensures
            r@ == self@.status,
    {
        self.status.clone()
    }

    /// The supervisor is restarted: it forgets all its crawlers.
    pub fn restarting(&mut self)
        ensures
            final(self)@ == (SupervisorView { idle: Seq::empty(), active: Map::empty(), ..old(self)@ }),
    {
        self.crawlers.clear();
        assert(active_view(self.crawlers.active@) =~= Map::<u64, Seq<char>>::empty());
    }
}

} // verus!
