//! Properties of the supervisor that hold across its events: no target is
//! lost, a crawler is never both idle and busy, an order names the work
//! the crawler is booked for, and the crawl is reported done only when
//! nothing is left to do.

use vstd::prelude::*;
use crate::spider_sup::{
    after_done_crawl, after_setup, after_spider_done, dispatch_idle, pending_targets, recorded_results,
    setup_steps, unvisited, error_reports, ActionView, StatusView, SupervisorView,
};
use crate::common::CrawlResultView;
use crate::error::CrawlErrorView;
use crate::web::TargetView;
use crate::spider::{poll_outcome, PollStepView};

verus! {

/// The URIs handed out by the orders among `acts`, the last order's first.
pub open spec fn handed_out(acts: Seq<ActionView>) -> Seq<Seq<char>>
    decreases acts.len(),
{
    if acts.len() == 0 {
        Seq::empty()
    } else {
        let head = match acts[0] {
            ActionView::Dispatch(_, u) => seq![u],
            _ => Seq::empty(),
        };
        handed_out(acts.drop_first()) + head
    }
}

/// Every crawler of the supervisor, idle or busy.
pub open spec fn crawlers(s: SupervisorView) -> Set<u64> {
    s.idle.to_set() + s.active.dom()
}

/// The supervisor's books on its crawlers are consistent: no crawler waits
/// twice, and no waiting crawler is also busy.
pub open spec fn books_consistent(s: SupervisorView) -> bool {
    &&& s.idle.no_duplicates()
    &&& forall|i: int| 0 <= i < s.idle.len() ==> !s.active.contains_key(#[trigger] s.idle[i])
}

proof fn lemma_handed_out_concat(a: Seq<ActionView>, b: Seq<ActionView>)
    ensures
        handed_out(a + b) == handed_out(b) + handed_out(a),
    decreases a.len(),
{
    if a.len() == 0 {
        assert(a + b =~= b);
        assert(handed_out(b) + handed_out(a) =~= handed_out(b));
    } else {
        assert((a + b).drop_first() =~= a.drop_first() + b);
        assert((a + b)[0] == a[0]);
        lemma_handed_out_concat(a.drop_first(), b);
        let head = match a[0] {
            ActionView::Dispatch(_, u) => seq![u],
            _ => Seq::empty(),
        };
        assert(handed_out(a + b) =~= handed_out(b) + handed_out(a.drop_first()) + head);
        assert(handed_out(b) + handed_out(a) =~= handed_out(b) + (handed_out(a.drop_first()) + head));
    }
}

proof fn lemma_handed_out_single(a: ActionView)
    ensures
        handed_out(seq![a]) == match a {
            ActionView::Dispatch(_, u) => seq![u],
            _ => Seq::<Seq<char>>::empty(),
        },
{
    assert(seq![a].drop_first() =~= Seq::<ActionView>::empty());
    assert(handed_out(Seq::<ActionView>::empty()) == Seq::<Seq<char>>::empty());
    let head = match a {
        ActionView::Dispatch(_, u) => seq![u],
        _ => Seq::<Seq<char>>::empty(),
    };
    assert(Seq::<Seq<char>>::empty() + head =~= head);
}

proof fn lemma_dispatch_keeps_targets(
    idle: Seq<u64>,
    targets: Seq<Seq<char>>,
    active: Map<u64, Seq<char>>,
    results: Seq<CrawlResultView>,
)
    ensures
        ({
            let d = dispatch_idle(idle, targets, active, results);
            targets == d.0 + handed_out(d.2)
        }),
    decreases idle.len(),
{
    let d = dispatch_idle(idle, targets, active, results);
    if idle.len() == 0 {
        assert(handed_out(Seq::<ActionView>::empty()) == Seq::<Seq<char>>::empty());
        assert(targets =~= targets + Seq::<Seq<char>>::empty());
    } else {
        let c = idle.last();
        if targets.len() > 0 {
            let t = targets.last();
            let rest = dispatch_idle(idle.drop_last(), targets.drop_last(), active.insert(c, t), results);
            lemma_dispatch_keeps_targets(idle.drop_last(), targets.drop_last(), active.insert(c, t), results);
            lemma_handed_out_concat(seq![ActionView::Dispatch(c, t)], rest.2);
            lemma_handed_out_single(ActionView::Dispatch(c, t));
            assert(targets =~= targets.drop_last().push(t));
            assert(d.0 + handed_out(d.2) =~= (rest.0 + handed_out(rest.2)).push(t));
        } else {
            let rest = dispatch_idle(idle.drop_last(), targets, active, results);
            lemma_dispatch_keeps_targets(idle.drop_last(), targets, active, results);
            if active.len() == 0 {
                lemma_handed_out_concat(seq![ActionView::NotifyDone(results)], rest.2);
                lemma_handed_out_single(ActionView::NotifyDone(results));
                assert(handed_out(d.2) =~= handed_out(rest.2));
            }
        }
    }
}

proof fn lemma_dispatch_busy_never_done(
    idle: Seq<u64>,
    targets: Seq<Seq<char>>,
    active: Map<u64, Seq<char>>,
    results: Seq<CrawlResultView>,
)
    requires
        active.dom().finite(),
        active.len() > 0,
    ensures
        ({
            let d = dispatch_idle(idle, targets, active, results);
            &&& d.1.dom().finite()
            &&& d.1.len() > 0
            &&& forall|i: int| 0 <= i < d.2.len() ==> !(#[trigger] d.2[i] is NotifyDone)
        }),
    decreases idle.len(),
{
    if idle.len() > 0 {
        let c = idle.last();
        if targets.len() > 0 {
            let t = targets.last();
            let a2 = active.insert(c, t);
            assert(a2.dom().contains(c));
            vstd::set_lib::lemma_set_empty_equivalency_len(a2.dom());
            lemma_dispatch_busy_never_done(idle.drop_last(), targets.drop_last(), a2, results);
        } else {
            lemma_dispatch_busy_never_done(idle.drop_last(), targets, active, results);
        }
    }
}

proof fn lemma_dispatch_with_work_never_done(
    idle: Seq<u64>,
    targets: Seq<Seq<char>>,
    active: Map<u64, Seq<char>>,
    results: Seq<CrawlResultView>,
)
    requires
        active.dom().finite(),
        targets.len() > 0,
    ensures
        ({
            let d = dispatch_idle(idle, targets, active, results);
            forall|i: int| 0 <= i < d.2.len() ==> !(#[trigger] d.2[i] is NotifyDone)
        }),
{
    if idle.len() > 0 {
        let c = idle.last();
        let t = targets.last();
        let a2 = active.insert(c, t);
        assert(a2.dom().contains(c));
        vstd::set_lib::lemma_set_empty_equivalency_len(a2.dom());
        lemma_dispatch_busy_never_done(idle.drop_last(), targets.drop_last(), a2, results);
    }
}

proof fn lemma_dispatch_books(
    idle: Seq<u64>,
    targets: Seq<Seq<char>>,
    active: Map<u64, Seq<char>>,
    results: Seq<CrawlResultView>,
)
    requires
        idle.no_duplicates(),
    ensures
        ({
            let d = dispatch_idle(idle, targets, active, results);
            &&& forall|k: u64| !idle.contains(k) ==> (#[trigger] d.1.contains_key(k) <==> active.contains_key(k))
            &&& forall|k: u64| !idle.contains(k) && active.contains_key(k) ==> #[trigger] d.1[k] == active[k]
            &&& forall|k: u64| #[trigger] d.1.contains_key(k) ==> active.contains_key(k) || idle.contains(k)
            &&& forall|i: int| 0 <= i < d.2.len() ==> match #[trigger] d.2[i] {
                ActionView::Dispatch(c, u) => d.1.contains_key(c) && d.1[c] == u,
                _ => true,
            }
        }),
    decreases idle.len(),
{
    let d = dispatch_idle(idle, targets, active, results);
    if idle.len() > 0 {
        let c = idle.last();
        let rest_idle = idle.drop_last();
        assert(forall|k: u64| rest_idle.contains(k) ==> idle.contains(k));
        assert(!rest_idle.contains(c)) by {
            if rest_idle.contains(c) {
                let j = choose|j: int| 0 <= j < rest_idle.len() && rest_idle[j] == c;
                assert(idle[j] == idle[idle.len() - 1]);
            }
        }
        assert(rest_idle.no_duplicates());
        assert(idle.contains(c)) by { assert(idle[idle.len() - 1] == c); }
        assert(forall|k: u64| idle.contains(k) && k != c ==> rest_idle.contains(k)) by {
            assert forall|k: u64| idle.contains(k) && k != c implies rest_idle.contains(k) by {
                let j = choose|j: int| 0 <= j < idle.len() && idle[j] == k;
                assert(rest_idle[j] == k);
            }
        }
        if targets.len() > 0 {
            let t = targets.last();
            let a2 = active.insert(c, t);
            let rest = dispatch_idle(rest_idle, targets.drop_last(), a2, results);
            lemma_dispatch_books(rest_idle, targets.drop_last(), a2, results);
            assert forall|i: int| 0 <= i < d.2.len() implies match #[trigger] d.2[i] {
                ActionView::Dispatch(c2, u) => d.1.contains_key(c2) && d.1[c2] == u,
                _ => true,
            } by {
                if i == 0 {
                    assert(d.2[0] == ActionView::Dispatch(c, t));
                } else {
                    assert(d.2[i] == rest.2[i - 1]);
                }
            }
        } else {
            let rest = dispatch_idle(rest_idle, targets, active, results);
            lemma_dispatch_books(rest_idle, targets, active, results);
            if active.len() == 0 {
                assert forall|i: int| 0 <= i < d.2.len() implies match #[trigger] d.2[i] {
                    ActionView::Dispatch(c2, u) => d.1.contains_key(c2) && d.1[c2] == u,
                    _ => true,
                } by {
                    if i > 0 {
                        assert(d.2[i] == rest.2[i - 1]);
                    }
                }
            }
        }
    }
}

/// A report never loses or repeats a target: the targets to visit once
/// the outcome is taken in are exactly those still queued followed by
/// those just handed out to crawlers, the last order's URI first.
pub proof fn lemma_report_keeps_every_target(
    s: SupervisorView,
    sender: u64,
    outcome: Result<TargetView, CrawlErrorView>,
)
    ensures
        ({
            let r = after_done_crawl(s, sender, outcome);
            pending_targets(s, outcome) == r.0.targets + handed_out(r.1)
        }),
{
    let targets1 = pending_targets(s, outcome);
    let results1 = recorded_results(s, outcome);
    let reports = error_reports(outcome);
    let r = after_done_crawl(s, sender, outcome);
    assert(handed_out(reports) == Seq::<Seq<char>>::empty()) by {
        match outcome {
            Ok(_) => {},
            Err(e) => { lemma_handed_out_single(ActionView::ReportError(e)); },
        }
    }
    if targets1.len() > 0 {
        let d = dispatch_idle(s.idle, targets1, s.active, results1);
        lemma_dispatch_keeps_targets(s.idle, targets1, s.active, results1);
        lemma_handed_out_concat(reports, d.2);
        assert(handed_out(r.1) =~= handed_out(d.2));
    } else if s.active.len() == 0 {
        lemma_handed_out_concat(reports, seq![ActionView::NotifyDone(results1)]);
        lemma_handed_out_single(ActionView::NotifyDone(results1));
        assert(handed_out(r.1) =~= Seq::<Seq<char>>::empty());
        assert(targets1 =~= targets1 + Seq::<Seq<char>>::empty());
    } else {
        assert(targets1 =~= targets1 + Seq::<Seq<char>>::empty());
    }
}

/// The crawl is reported done only when no target is left to visit and no
/// crawler is busy, and it is reported with all results recorded so far.
pub proof fn lemma_done_only_when_nothing_left(
    s: SupervisorView,
    sender: u64,
    outcome: Result<TargetView, CrawlErrorView>,
)
    requires
        s.active.dom().finite(),
    ensures
        ({
            let r = after_done_crawl(s, sender, outcome);
            forall|i: int| 0 <= i < r.1.len() && (#[trigger] r.1[i] is NotifyDone) ==> {
                &&& r.1[i] == ActionView::NotifyDone(r.0.results)
                &&& r.0.targets.len() == 0
                &&& r.0.active.len() == 0
            }
        }),
{
    let targets1 = pending_targets(s, outcome);
    let results1 = recorded_results(s, outcome);
    let reports = error_reports(outcome);
    let r = after_done_crawl(s, sender, outcome);
    if targets1.len() > 0 {
        let d = dispatch_idle(s.idle, targets1, s.active, results1);
        lemma_dispatch_with_work_never_done(s.idle, targets1, s.active, results1);
        assert forall|i: int| 0 <= i < r.1.len() implies !(#[trigger] r.1[i] is NotifyDone) by {
            if i < reports.len() {
                assert(r.1[i] == reports[i]);
            } else {
                assert(r.1[i] == d.2[i - reports.len()]);
            }
        }
    } else if s.active.len() == 0 {
        assert forall|i: int| 0 <= i < r.1.len() && (#[trigger] r.1[i] is NotifyDone) implies r.1[i] == ActionView::NotifyDone(r.0.results) by {
            if i < reports.len() {
                assert(r.1[i] == reports[i]);
            } else {
                assert(r.1[i] == ActionView::NotifyDone(results1));
            }
        }
    } else {
        assert forall|i: int| 0 <= i < r.1.len() implies !(#[trigger] r.1[i] is NotifyDone) by {
            assert(r.1[i] == reports[i]);
        }
    }
}

/// Each order sent on a report names the URI that the crawler is then
/// booked for, provided no crawler was waiting twice.
pub proof fn lemma_report_orders_match_bookings(
    s: SupervisorView,
    sender: u64,
    outcome: Result<TargetView, CrawlErrorView>,
)
    requires
        s.idle.no_duplicates(),
    ensures
        ({
            let r = after_done_crawl(s, sender, outcome);
            forall|i: int| 0 <= i < r.1.len() ==> match #[trigger] r.1[i] {
                ActionView::Dispatch(c, u) => r.0.active.contains_key(c) && r.0.active[c] == u,
                _ => true,
            }
        }),
{
    let targets1 = pending_targets(s, outcome);
    let results1 = recorded_results(s, outcome);
    let reports = error_reports(outcome);
    let r = after_done_crawl(s, sender, outcome);
    if targets1.len() > 0 {
        let d = dispatch_idle(s.idle, targets1, s.active, results1);
        lemma_dispatch_books(s.idle, targets1, s.active, results1);
        assert forall|i: int| 0 <= i < r.1.len() implies match #[trigger] r.1[i] {
            ActionView::Dispatch(c, u) => r.0.active.contains_key(c) && r.0.active[c] == u,
            _ => true,
        } by {
            if i < reports.len() {
                assert(r.1[i] == reports[i]);
            } else {
                assert(r.1[i] == d.2[i - reports.len()]);
            }
        }
    } else {
        assert forall|i: int| 0 <= i < r.1.len() implies !(#[trigger] r.1[i] is Dispatch) by {
            if i < reports.len() {
                assert(r.1[i] == reports[i]);
            } else {
                assert(r.1[i] == ActionView::NotifyDone(results1));
            }
        }
    }
}

/// A report keeps the books on crawlers consistent, as long as the crawler
/// that reports was not waiting idle; and it brings in no crawler other
/// than the one that reports.
pub proof fn lemma_report_keeps_books(
    s: SupervisorView,
    sender: u64,
    outcome: Result<TargetView, CrawlErrorView>,
)
    requires
        books_consistent(s),
        !s.idle.contains(sender),
    ensures
        ({
            let r = after_done_crawl(s, sender, outcome);
            &&& books_consistent(r.0)
            &&& crawlers(r.0) <= crawlers(s).insert(sender)
        }),
{
    let targets1 = pending_targets(s, outcome);
    let results1 = recorded_results(s, outcome);
    let r = after_done_crawl(s, sender, outcome);
    if targets1.len() > 0 {
        let d = dispatch_idle(s.idle, targets1, s.active, results1);
        lemma_dispatch_books(s.idle, targets1, s.active, results1);
        assert(r.0.idle.to_set() =~= Set::<u64>::empty());
        assert(crawlers(r.0) <= crawlers(s).insert(sender)) by {
            assert forall|k: u64| crawlers(r.0).contains(k) implies crawlers(s).insert(sender).contains(k) by {
                assert(d.1.contains_key(k));
                if s.idle.contains(k) {
                    assert(s.idle.to_set().contains(k));
                }
            }
        }
    } else if s.active.len() == 0 {
    } else {
        let idle2 = s.idle.push(sender);
        assert forall|i: int, j: int| 0 <= i < idle2.len() && 0 <= j < idle2.len() && i != j implies idle2[i] != idle2[j] by {
            if i == s.idle.len() {
                assert(idle2[j] == s.idle[j]);
            } else if j == s.idle.len() {
                assert(idle2[i] == s.idle[i]);
            } else {
                assert(idle2[i] == s.idle[i] && idle2[j] == s.idle[j]);
            }
        }
        assert forall|i: int| 0 <= i < idle2.len() implies !r.0.active.contains_key(#[trigger] idle2[i]) by {
            if i < s.idle.len() {
                assert(idle2[i] == s.idle[i]);
            }
        }
        assert forall|k: u64| crawlers(r.0).contains(k) implies crawlers(s).insert(sender).contains(k) by {
            if idle2.to_set().contains(k) && k != sender {
                let j = choose|j: int| 0 <= j < idle2.len() && idle2[j] == k;
                assert(s.idle[j] == k);
                assert(s.idle.to_set().contains(k));
            }
        }
    }
}

proof fn lemma_setup_steps(
    targets: Seq<Seq<char>>,
    idle: Seq<u64>,
    active: Map<u64, Seq<char>>,
    ids: Seq<u64>,
)
    requires
        ids.no_duplicates(),
    ensures
        ({
            let r = setup_steps(targets, idle, active, ids);
            &&& targets == r.0 + handed_out(r.3)
            &&& forall|i: int| 0 <= i < r.3.len() ==> match #[trigger] r.3[i] {
                ActionView::Dispatch(c, u) => r.2.contains_key(c) && r.2[c] == u && ids.contains(c),
                _ => false,
            }
            &&& forall|k: u64| #[trigger] r.2.contains_key(k) ==> active.contains_key(k) || ids.contains(k)
            &&& forall|k: u64| !ids.contains(k) ==> (#[trigger] r.2.contains_key(k) <==> active.contains_key(k))
            &&& forall|k: u64| #[trigger] r.1.contains(k) ==> idle.contains(k) || ids.contains(k)
            &&& forall|k: u64| !ids.contains(k) ==> (#[trigger] r.1.contains(k) <==> idle.contains(k))
            &&& r.1.len() >= idle.len()
            &&& forall|i: int| 0 <= i < idle.len() ==> r.1[i] == idle[i]
            &&& forall|i: int| idle.len() <= i < r.1.len() ==> ids.contains(#[trigger] r.1[i])
            &&& forall|i: int, j: int| idle.len() <= i < j < r.1.len() ==> r.1[i] != r.1[j]
            &&& forall|k: u64| ids.contains(k) && !idle.contains(k) && !active.contains_key(k)
                ==> !(#[trigger] r.1.contains(k) && r.2.contains_key(k))
        }),
    decreases ids.len(),
{
    let r = setup_steps(targets, idle, active, ids);
    if ids.len() == 0 {
        assert(targets =~= targets + Seq::<Seq<char>>::empty());
    } else {
        let rest_ids = ids.drop_last();
        let c = ids.last();
        assert(rest_ids.no_duplicates());
        assert(ids.contains(c)) by { assert(ids[ids.len() - 1] == c); }
        assert(!rest_ids.contains(c)) by {
            if rest_ids.contains(c) {
                let j = choose|j: int| 0 <= j < rest_ids.len() && rest_ids[j] == c;
                assert(ids[j] == ids[ids.len() - 1]);
            }
        }
        assert(forall|k: u64| rest_ids.contains(k) ==> ids.contains(k));
        assert forall|k: u64| ids.contains(k) && k != c implies rest_ids.contains(k) by {
            let j = choose|j: int| 0 <= j < ids.len() && ids[j] == k;
            assert(rest_ids[j] == k);
        }
        let p = setup_steps(targets, idle, active, rest_ids);
        lemma_setup_steps(targets, idle, active, rest_ids);
        assert forall|k: u64| ids.contains(k) && !idle.contains(k) && !active.contains_key(k)
            implies !(#[trigger] r.1.contains(k) && r.2.contains_key(k)) by {
            if k == c {
                assert(!p.1.contains(c));
                assert(!p.2.contains_key(c));
                if p.0.len() > 0 {
                    assert(r.1 == p.1);
                } else {
                    assert(r.2 == p.2);
                }
            } else {
                assert(rest_ids.contains(k));
                assert(!(p.1.contains(k) && p.2.contains_key(k)));
                if p.0.len() > 0 {
                    assert(r.1 == p.1);
                    assert(r.2 == p.2.insert(c, p.0.last()));
                    assert(r.2.contains_key(k) == p.2.contains_key(k));
                } else {
                    assert(r.2 == p.2);
                    assert(r.1 == p.1.push(c));
                    if r.1.contains(k) {
                        let j = choose|j: int| 0 <= j < r.1.len() && r.1[j] == k;
                        if j < p.1.len() {
                            assert(p.1[j] == k);
                        }
                        assert(p.1.contains(k));
                    }
                }
            }
        }
        if p.0.len() > 0 {
            let t = p.0.last();
            lemma_handed_out_concat(p.3, seq![ActionView::Dispatch(c, t)]);
            lemma_handed_out_single(ActionView::Dispatch(c, t));
            assert(p.3.push(ActionView::Dispatch(c, t)) =~= p.3 + seq![ActionView::Dispatch(c, t)]);
            assert(p.0 =~= p.0.drop_last().push(t));
            assert(targets =~= p.0.drop_last() + (seq![t] + handed_out(p.3)));
            assert forall|i: int| 0 <= i < r.3.len() implies match #[trigger] r.3[i] {
                ActionView::Dispatch(c2, u) => r.2.contains_key(c2) && r.2[c2] == u && ids.contains(c2),
                _ => false,
            } by {
                if i < p.3.len() {
                    assert(r.3[i] == p.3[i]);
                    match p.3[i] {
                        ActionView::Dispatch(c2, u) => { assert(c2 != c); },
                        _ => {},
                    }
                }
            }
        } else {
            assert forall|i: int, j: int| idle.len() <= i < j < r.1.len() implies r.1[i] != r.1[j] by {
                if j == r.1.len() - 1 {
                    assert(r.1[j] == c);
                    assert(r.1[i] == p.1[i]);
                    assert(rest_ids.contains(p.1[i]));
                }
            }
            assert forall|k: u64| #[trigger] r.1.contains(k) implies idle.contains(k) || ids.contains(k) by {
                if p.1.contains(k) {
                } else {
                    let j = choose|j: int| 0 <= j < r.1.len() && r.1[j] == k;
                    if j < p.1.len() {
                        assert(p.1[j] == k);
                    }
                }
            }
            assert forall|k: u64| !ids.contains(k) implies (#[trigger] r.1.contains(k) <==> idle.contains(k)) by {
                if r.1.contains(k) {
                    let j = choose|j: int| 0 <= j < r.1.len() && r.1[j] == k;
                    if j < p.1.len() {
                        assert(p.1[j] == k);
                    }
                }
                if idle.contains(k) {
                    assert(p.1.contains(k));
                    let j = choose|j: int| 0 <= j < p.1.len() && p.1[j] == k;
                    assert(r.1[j] == k);
                }
            }
        }
    }
}

/// Starting the crawl loses no target: the targets given to the new
/// crawlers are exactly those taken off the queue, the last order's URI
/// first; each order names the URI its crawler is booked for; the books on
/// crawlers stay consistent when the crawlers are new and distinct; and the
/// supervisor is then running, so it never sets up again.
pub proof fn lemma_setup_books_new_crawlers(s: SupervisorView, ids: Seq<u64>)
    requires
        books_consistent(s),
        ids.no_duplicates(),
        forall|k: u64| #[trigger] ids.contains(k) ==> !s.idle.contains(k) && !s.active.contains_key(k),
    ensures
        ({
            let r = after_setup(s, ids);
            &&& s.targets == r.0.targets + handed_out(r.1)
            &&& forall|i: int| 0 <= i < r.1.len() ==> match #[trigger] r.1[i] {
                ActionView::Dispatch(c, u) => r.0.active.contains_key(c) && r.0.active[c] == u,
                _ => false,
            }
            &&& books_consistent(r.0)
            &&& crawlers(r.0) <= crawlers(s) + ids.to_set()
            &&& r.0.status == StatusView::Running
        }),
{
    let r = after_setup(s, ids);
    let p = setup_steps(s.targets, s.idle, s.active, ids);
    lemma_setup_steps(s.targets, s.idle, s.active, ids);
    assert forall|i: int, j: int| 0 <= i < p.1.len() && 0 <= j < p.1.len() && i != j implies p.1[i] != p.1[j] by {
        if i < s.idle.len() && j < s.idle.len() {
            assert(p.1[i] == s.idle[i] && p.1[j] == s.idle[j]);
        } else if i < s.idle.len() {
            assert(ids.contains(p.1[j]));
            assert(p.1[i] == s.idle[i]);
            assert(s.idle.contains(p.1[i]));
        } else if j < s.idle.len() {
            assert(ids.contains(p.1[i]));
            assert(p.1[j] == s.idle[j]);
            assert(s.idle.contains(p.1[j]));
        } else if i < j {
            assert(p.1[i] != p.1[j]);
        } else {
            assert(p.1[j] != p.1[i]);
        }
    }
    assert forall|i: int| 0 <= i < p.1.len() implies !p.2.contains_key(#[trigger] p.1[i]) by {
        let k = p.1[i];
        if i < s.idle.len() {
            assert(p.1[i] == s.idle[i]);
            assert(s.idle.contains(k));
            assert(!ids.contains(k));
        } else {
            assert(ids.contains(k));
            assert(!s.active.contains_key(k));
            assert(!s.idle.contains(k));
            assert(p.1.contains(k));
        }
    }
    assert forall|k: u64| crawlers(r.0).contains(k) implies (crawlers(s) + ids.to_set()).contains(k) by {
        if p.1.to_set().contains(k) {
            assert(p.1.contains(k));
            if s.idle.contains(k) {
                assert(s.idle.to_set().contains(k));
            }
        }
    }
}

/// A crawl report changes neither where the crawl stands, nor the number
/// of crawlers, the search term or the visited URIs; it records the page
/// under its own URI when the crawl succeeded and nothing otherwise.
pub proof fn lemma_report_records_only_results(
    s: SupervisorView,
    sender: u64,
    outcome: Result<TargetView, CrawlErrorView>,
)
    ensures
        ({
            let r = after_done_crawl(s, sender, outcome);
            &&& r.0.status == s.status
            &&& r.0.num_crawlers == s.num_crawlers
            &&& r.0.search_term == s.search_term
            &&& r.0.visited == s.visited
            &&& r.0.results == match outcome {
                Ok(t) => s.results.push((t.uri, t)),
                Err(_) => s.results,
            }
        }),
{
}

/// When a report makes the supervisor announce the end of the crawl, and
/// that announcement comes back to it, the spider that then looks at its
/// status ends its run with exactly the results recorded at that report.
pub proof fn lemma_run_returns_recorded_results(
    s: SupervisorView,
    sender: u64,
    outcome: Result<TargetView, CrawlErrorView>,
    i: int,
)
    requires
        s.active.dom().finite(),
        0 <= i < after_done_crawl(s, sender, outcome).1.len(),
        after_done_crawl(s, sender, outcome).1[i] is NotifyDone,
    ensures
        ({
            let r = after_done_crawl(s, sender, outcome);
            let announced = r.1[i]->NotifyDone_0;
            poll_outcome(Some(after_spider_done(r.0, announced).status)) == PollStepView::Finish(Ok(r.0.results))
        }),
{
    lemma_done_only_when_nothing_left(s, sender, outcome);
    let r = after_done_crawl(s, sender, outcome);
    assert(r.1[i] == ActionView::NotifyDone(r.0.results));
}

proof fn lemma_unvisited_is_filter(visited: Seq<Seq<char>>, links: Seq<Seq<char>>)
    ensures
        unvisited(visited, links) == links.filter(|l: Seq<char>| !visited.contains(l)),
    decreases links.len(),
{
    reveal(Seq::filter);
    if links.len() > 0 {
        lemma_unvisited_is_filter(visited, links.drop_last());
    }
}

/// No queued URI is ever lost or reordered by a report: what is still
/// queued followed by what was just handed out (last order first) is the
/// queue before the report followed, on success, by the page's links that
/// were not visited, in the page's order; after an error, by nothing. So
/// the queue before the report is a prefix of the pending queue.
pub proof fn lemma_report_appends_links_to_queue(
    s: SupervisorView,
    sender: u64,
    outcome: Result<TargetView, CrawlErrorView>,
)
    ensures
        ({
            let r = after_done_crawl(s, sender, outcome);
            r.0.targets + handed_out(r.1) == match outcome {
                Ok(t) => s.targets + t.child_links.filter(|l: Seq<char>| !s.visited.contains(l)),
                Err(_) => s.targets,
            }
        }),
        ({
            let r = after_done_crawl(s, sender, outcome);
            (r.0.targets + handed_out(r.1)).take(s.targets.len() as int) == s.targets
        }),
{
    lemma_report_keeps_every_target(s, sender, outcome);
    let r = after_done_crawl(s, sender, outcome);
    match outcome {
        Ok(t) => {
            lemma_unvisited_is_filter(s.visited, t.child_links);
            let extra = t.child_links.filter(|l: Seq<char>| !s.visited.contains(l));
            assert((s.targets + extra).take(s.targets.len() as int) =~= s.targets);
        },
        Err(_) => {
            assert(s.targets.take(s.targets.len() as int) =~= s.targets);
        },
    }
}

proof fn lemma_setup_counts(
    targets: Seq<Seq<char>>,
    idle: Seq<u64>,
    active: Map<u64, Seq<char>>,
    ids: Seq<u64>,
)
    ensures
        ({
            let r = setup_steps(targets, idle, active, ids);
            &&& r.3.len() == if ids.len() <= targets.len() { ids.len() } else { targets.len() }
            &&& r.0.len() + r.3.len() == targets.len()
            &&& r.1.len() + r.3.len() == idle.len() + ids.len()
        }),
    decreases ids.len(),
{
    if ids.len() > 0 {
        lemma_setup_counts(targets, idle, active, ids.drop_last());
    }
}

/// Starting the crawl gives work to as many new crawlers as there are
/// targets: the number of orders is the smaller of the number of new
/// crawlers and the number of targets, every order goes to a distinct new
/// crawler, and a new crawler is left waiting only once no target is left.
pub proof fn lemma_setup_busies_crawlers_while_targets_last(s: SupervisorView, ids: Seq<u64>)
    requires
        ids.no_duplicates(),
    ensures
        ({
            let r = after_setup(s, ids);
            &&& r.1.len() == if ids.len() <= s.targets.len() { ids.len() } else { s.targets.len() }
            &&& forall|i: int| 0 <= i < r.1.len() ==> (#[trigger] r.1[i]) is Dispatch
            &&& r.0.idle.len() > s.idle.len() ==> r.0.targets.len() == 0
            &&& r.0.targets.len() + r.1.len() == s.targets.len()
        }),
{
    lemma_setup_counts(s.targets, s.idle, s.active, ids);
    lemma_setup_steps(s.targets, s.idle, s.active, ids);
    let r = after_setup(s, ids);
    assert forall|i: int| 0 <= i < r.1.len() implies (#[trigger] r.1[i]) is Dispatch by {
        match r.1[i] {
            ActionView::Dispatch(_, _) => {},
            _ => {},
        }
    }
}

} // verus!
