use std::time::SystemTime;

use webspider::common::{CrawlResult, DoneCrawl};
use webspider::error::{ConnectionErrorType, CrawlError, CrawlErrorInfo};
use webspider::spider_sup::{SpiderStatus, SpiderSupervisor, SupervisorAction, DEFAULT_NUM_CRAWLERS};
use webspider::web::Target;

fn strings(v: &[&str]) -> Vec<String> {
    v.iter().map(|s| s.to_string()).collect()
}

fn page(uri: &str, links: &[&str]) -> Target {
    Target {
        timestamp: SystemTime::now(),
        uri: uri.to_string(),
        page_raw: String::new(),
        child_links: strings(links),
        parent_link: None,
    }
}

fn dispatches(actions: &[SupervisorAction]) -> Vec<(u64, String)> {
    actions
        .iter()
        .filter_map(|a| match a {
            SupervisorAction::Dispatch(c, u) => Some((*c, u.clone())),
            _ => None,
        })
        .collect()
}

#[test]
fn new_supervisor_is_pending_with_default_crawlers() {
    let sup = SpiderSupervisor::new(&strings(&["http://a/"]));
    assert_eq!(sup.ncrawlers(), DEFAULT_NUM_CRAWLERS);
    assert_eq!(sup.ncrawlers(), 8);
    assert_eq!(sup.targets(), &strings(&["http://a/"]));
    assert!(sup.needs_setup());
    assert!(matches!(sup.status(), SpiderStatus::PendingStart));
    assert_eq!(sup.search_term(), None);
    assert!(sup.idle_crawlers().is_empty());
    assert!(sup.results().is_empty());
}

#[test]
fn default_supervisor_has_nothing_to_crawl() {
    let sup = SpiderSupervisor::default();
    assert!(sup.targets().is_empty());
    assert_eq!(sup.ncrawlers(), 8);
    assert!(sup.needs_setup());
}

#[test]
fn with_search_keeps_the_term() {
    let sup = SpiderSupervisor::with_search(&strings(&["x"]), 3, "rust");
    assert_eq!(sup.ncrawlers(), 3);
    assert_eq!(sup.search_term(), Some("rust".to_string()));
}

#[test]
fn setup_hands_out_last_targets_first() {
    let mut sup = SpiderSupervisor::with_ncrawlers(&strings(&["a", "b", "c"]), 2);
    let actions = sup.setup_once(&vec![1, 2]);
    assert_eq!(dispatches(&actions), vec![(1, "c".to_string()), (2, "b".to_string())]);
    assert_eq!(actions.len(), 2);
    assert_eq!(sup.targets(), &strings(&["a"]));
    assert_eq!(sup.busy_on(1), Some("c".to_string()));
    assert_eq!(sup.busy_on(2), Some("b".to_string()));
    assert!(sup.idle_crawlers().is_empty());
    assert!(matches!(sup.status(), SpiderStatus::Running));
    assert!(!sup.needs_setup());
}

#[test]
fn setup_with_more_crawlers_than_targets_leaves_some_idle() {
    let mut sup = SpiderSupervisor::with_ncrawlers(&strings(&["a"]), 3);
    let actions = sup.setup_once(&vec![10, 11, 12]);
    assert_eq!(dispatches(&actions), vec![(10, "a".to_string())]);
    assert_eq!(sup.idle_crawlers(), &vec![11, 12]);
    assert_eq!(sup.busy_on(11), None);
    assert!(sup.targets().is_empty());
}

#[test]
fn success_with_links_queues_them_and_feeds_idle_crawlers() {
    let mut sup = SpiderSupervisor::with_ncrawlers(&strings(&["a"]), 3);
    sup.setup_once(&vec![10, 11, 12]);
    let actions = sup.handle_done_crawl(DoneCrawl { result: Ok(page("a", &["x", "y"])), sender: 10 });
    // idle crawlers are taken last first, targets too
    assert_eq!(dispatches(&actions), vec![(12, "y".to_string()), (11, "x".to_string())]);
    assert_eq!(actions.len(), 2);
    assert!(sup.targets().is_empty());
    assert!(sup.idle_crawlers().is_empty());
    assert_eq!(sup.busy_on(12), Some("y".to_string()));
    assert_eq!(sup.busy_on(11), Some("x".to_string()));
    // the reporting crawler stays booked on its old URI
    assert_eq!(sup.busy_on(10), Some("a".to_string()));
    assert_eq!(sup.results().len(), 1);
    assert_eq!(sup.results()[0].0, "a");
    assert_eq!(sup.results()[0].1.child_links, strings(&["x", "y"]));
}

#[test]
fn targets_left_after_crawlers_run_out() {
    let mut sup = SpiderSupervisor::with_ncrawlers(&strings(&["a"]), 2);
    sup.setup_once(&vec![1, 2]);
    let actions = sup.handle_done_crawl(DoneCrawl { result: Ok(page("a", &["p", "q", "r"])), sender: 1 });
    assert_eq!(dispatches(&actions), vec![(2, "r".to_string())]);
    assert_eq!(sup.targets(), &strings(&["p", "q"]));
}

#[test]
fn last_report_with_nothing_left_frees_the_crawler() {
    let mut sup = SpiderSupervisor::with_ncrawlers(&strings(&["a"]), 1);
    sup.setup_once(&vec![7]);
    let actions = sup.handle_done_crawl(DoneCrawl { result: Ok(page("a", &[])), sender: 7 });
    assert!(actions.is_empty());
    assert_eq!(sup.idle_crawlers(), &vec![7]);
    assert_eq!(sup.busy_on(7), None);
    assert!(matches!(sup.status(), SpiderStatus::Running));
}

#[test]
fn report_with_nothing_pending_and_no_one_busy_ends_the_crawl() {
    let mut sup = SpiderSupervisor::with_ncrawlers(&vec![], 2);
    sup.setup_once(&vec![1, 2]);
    let err = CrawlError::new(
        "http://down/".to_string(),
        CrawlErrorInfo::Connection(ConnectionErrorType::HTTP, "refused".to_string()),
    );
    let actions = sup.handle_done_crawl(DoneCrawl { result: Err(err), sender: 1 });
    assert_eq!(actions.len(), 2);
    match &actions[0] {
        SupervisorAction::ReportError(e) => assert_eq!(e.at_uri(), "http://down/"),
        _ => panic!("the failed crawl is reported first"),
    }
    match &actions[1] {
        SupervisorAction::NotifyDone(results) => assert!(results.is_empty()),
        _ => panic!("then the crawl is over"),
    }
    // an error records nothing
    assert!(sup.results().is_empty());
}

#[test]
fn done_announcement_sets_status() {
    let mut sup = SpiderSupervisor::with_ncrawlers(&vec![], 1);
    sup.setup_once(&vec![1]);
    let actions = sup.handle_done_crawl(DoneCrawl { result: Ok(page("z", &[])), sender: 1 });
    assert_eq!(actions.len(), 1);
    let announced = match actions.into_iter().next().unwrap() {
        SupervisorAction::NotifyDone(results) => results,
        _ => panic!("expected the end of the crawl"),
    };
    assert_eq!(announced.len(), 1);
    sup.handle_spider_done(announced);
    match sup.status() {
        SpiderStatus::Done(results) => {
            assert_eq!(results.len(), 1);
            assert_eq!(results[0].0, "z");
        },
        _ => panic!("status must be done"),
    }
}

#[test]
fn restarting_forgets_crawlers_and_does_not_set_up_again() {
    let mut sup = SpiderSupervisor::with_ncrawlers(&strings(&["a", "b"]), 3);
    sup.setup_once(&vec![1, 2, 3]);
    sup.restarting();
    assert!(sup.idle_crawlers().is_empty());
    assert_eq!(sup.busy_on(1), None);
    assert_eq!(sup.busy_on(2), None);
    assert!(!sup.needs_setup());
}

#[test]
fn no_target_is_lost_on_a_report() {
    // pending targets == still queued ++ handed out (last order first)
    let mut sup = SpiderSupervisor::with_ncrawlers(&strings(&["s"]), 3);
    sup.setup_once(&vec![1, 2, 3]);
    let actions = sup.handle_done_crawl(DoneCrawl { result: Ok(page("s", &["l1", "l2", "l3", "l4"])), sender: 1 });
    let mut rebuilt: Vec<String> = sup.targets().clone();
    let mut handed: Vec<String> = dispatches(&actions).into_iter().map(|(_, u)| u).collect();
    handed.reverse();
    rebuilt.extend(handed);
    assert_eq!(rebuilt, strings(&["l1", "l2", "l3", "l4"]));
    for (c, u) in dispatches(&actions) {
        assert_eq!(sup.busy_on(c), Some(u));
    }
}

#[test]
fn crawl_result_clone_keeps_content() {
    let r = CrawlResult("u".to_string(), page("u", &["k"]));
    let c = r.clone();
    assert_eq!(c.0, "u");
    assert_eq!(c.1.child_links, strings(&["k"]));
    assert_eq!(c.1.timestamp, r.1.timestamp);
}
