use webspider::common::{Channel, ChannelError};
use webspider::db::{check_write, TxnMode};
use webspider::error::{CrawlError, CrawlErrorInfo, SpiderFailure, TransactionError};
use webspider::spider::{poll_step, PollStep, SpiderConfig, SpiderTargets, DEFAULT_POLL_MILLIS};
use webspider::spider_sup::SpiderStatus;
use webspider::common::CrawlResult;
use webspider::web::Target;

#[test]
fn channel_is_first_in_first_out() {
    let ch: Channel<u32> = Channel::new();
    ch.send(1);
    assert!(ch.try_send(2).is_ok());
    assert_eq!(ch.try_recv().unwrap(), 1);
    assert_eq!(ch.try_recv().unwrap(), 2);
    assert_eq!(ch.try_recv().err(), Some(ChannelError::Empty));
}

#[test]
fn cloned_sender_feeds_the_same_channel() {
    let ch: Channel<&str> = Channel::new();
    let tx = ch.clone_sender();
    tx.send("from clone").unwrap();
    assert_eq!(ch.try_recv().unwrap(), "from clone");
    assert_eq!(ch.receiver().try_recv().err(), Some(std::sync::mpsc::TryRecvError::Empty));
}

#[test]
fn only_read_write_transactions_write() {
    assert!(check_write(TxnMode::ReadWrite).is_ok());
    let e = check_write(TxnMode::ReadOnly).unwrap_err();
    assert_eq!(e.0, "Tried to write to a ReadOnly Transaction");
    assert_eq!(e.to_display_string(), "TransactionError(\"Tried to write to a ReadOnly Transaction\")");
}

#[test]
fn failures_display_like_their_debug_form() {
    let f = SpiderFailure("a \"quoted\" reason".to_string());
    assert_eq!(f.to_display_string(), format!("{:?}", f));
    let t = TransactionError("x".to_string());
    assert_eq!(t.to_display_string(), format!("{:?}", t));
}

#[test]
fn crawl_error_accessors() {
    let e = CrawlError::new("u".to_string(), CrawlErrorInfo::Parse("bad".to_string()));
    assert_eq!(e.at_uri(), "u");
    assert!(matches!(e.info(), CrawlErrorInfo::Parse(r) if r == "bad"));
    assert_eq!(e.clone().at_uri(), "u");
}

#[test]
fn default_config() {
    let c = SpiderConfig::default();
    assert_eq!(c.num_crawlers, 8);
    assert_eq!(c.poll_interval_millisec, 10000);
    assert_eq!(DEFAULT_POLL_MILLIS, 10000);
    assert!(c.target_file.is_none());
    assert!(c.targets.uris().is_empty());
    assert_eq!(c.targets.search_term(), None);
}

#[test]
fn targets_from_json_replace_uris_and_keep_the_term() {
    let mut c = SpiderConfig::default();
    c.targets = SpiderTargets::new(Some("term".to_string()), vec!["old".to_string()]);
    let got = c.populate_targets_from_json("[\"http://a\", \"http://b\"]").unwrap().to_vec();
    assert_eq!(got, vec!["http://a".to_string(), "http://b".to_string()]);
    assert_eq!(c.targets.uris(), &["http://a".to_string(), "http://b".to_string()]);
    assert_eq!(c.targets.search_term(), Some("term"));
}

#[test]
fn malformed_targets_change_nothing() {
    let mut c = SpiderConfig::default();
    c.targets = SpiderTargets::new(None, vec!["keep".to_string()]);
    assert!(c.populate_targets_from_json("{\"not\": \"a list\"}").is_err());
    assert!(c.populate_targets_from_json("[1, 2]").is_err());
    assert_eq!(c.targets.uris(), &["keep".to_string()]);
}

#[test]
fn config_gives_its_supervisor() {
    let mut c = SpiderConfig::default();
    c.num_crawlers = 4;
    c.targets = SpiderTargets::new(Some("s".to_string()), vec!["a".to_string()]);
    let sup = c.supervisor();
    assert_eq!(sup.ncrawlers(), 4);
    assert_eq!(sup.search_term(), Some("s".to_string()));
    assert_eq!(sup.targets(), &vec!["a".to_string()]);
    c.targets = SpiderTargets::new(None, vec![]);
    assert_eq!(c.supervisor().search_term(), None);
}

#[test]
fn poll_decisions() {
    assert!(matches!(poll_step(&Some(SpiderStatus::Running)), PollStep::Wait));
    assert!(matches!(poll_step(&Some(SpiderStatus::PendingStart)), PollStep::Wait));
    match poll_step(&Some(SpiderStatus::Failed("boom".to_string()))) {
        PollStep::Finish(Err(f)) => assert_eq!(f.0, "boom"),
        _ => panic!("a failed crawl ends the run"),
    }
    match poll_step(&None) {
        PollStep::Finish(Err(f)) => assert_eq!(f.0, "Unknown Error when polling GetSpiderStatus :: Actor is probably dead"),
        _ => panic!("an unreachable supervisor ends the run"),
    }
    let done = SpiderStatus::Done(vec![CrawlResult("u".to_string(), Target::default())]);
    match poll_step(&Some(done)) {
        PollStep::Finish(Ok(results)) => {
            assert_eq!(results.len(), 1);
            assert_eq!(results[0].0, "u");
        },
        _ => panic!("a finished crawl ends the run with its results"),
    }
}

#[test]
fn chunks_are_decoded_lossily_one_by_one() {
    let mut buf = String::from("ab");
    webspider::crawl::append_chunk(&mut buf, b"cd");
    assert_eq!(buf, "abcd");
    webspider::crawl::append_chunk(&mut buf, &[0xff, b'e']);
    assert_eq!(buf, "abcd\u{FFFD}e");
}
