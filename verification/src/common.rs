//! Values passed between the spider's parts, and the channel they can use.

use vstd::prelude::*;
use crate::error::{CrawlError, CrawlErrorView};
use crate::web::{Target, TargetView};

verus! {

/// A crawled page together with the URI it was crawled at.
#[derive(Debug)]
pub struct CrawlResult(pub String, pub Target);

/// The content of a [`CrawlResult`]: the URI's text and the page.
pub type CrawlResultView = (Seq<char>, TargetView);

impl View for CrawlResult {
    type V = CrawlResultView;

    open spec fn view(&self) -> CrawlResultView {
        (self.0@, self.1@)
    }
}

impl Clone for CrawlResult {
    fn clone(&self) -> (r: Self)
        ensures
            r@ == self@,
    {
        CrawlResult(self.0.clone(), self.1.clone())
    }
}

/// The content of each result, in order.
pub open spec fn result_views(v: Seq<CrawlResult>) -> Seq<CrawlResultView> {
    v.map_values(|r: CrawlResult| r@)
}

/// A copy of a list of results, result by result.
pub fn copy_results(v: &Vec<CrawlResult>) -> (r: Vec<CrawlResult>)
    ensures
        result_views(r@) == result_views(v@),
{
    let mut r: Vec<CrawlResult> = Vec::new();
    let mut i: usize = 0;
    while i < v.len()
        invariant
            i <= v@.len(),
            r@.len() == i,
            result_views(r@) == result_views(v@.take(i as int)),
        decreases v@.len() - i,
    {
        let ghost before = r@;
        r.push(v[i].clone());
        assert(r@ =~= before.push(r@[i as int]));
        assert(result_views(r@) =~= result_views(before).push(v@[i as int]@));
        assert(result_views(v@.take(i + 1)) =~= result_views(v@.take(i as int)).push(v@[i as int]@));
        i = i + 1;
    }
    assert(v@.take(v@.len() as int) =~= v@);
    r
}

/// What a crawler reports when it is done with its URI: the page, or why
/// there is none, and which crawler it is.
#[derive(Debug)]
pub struct DoneCrawl {
    pub result: Result<Target, CrawlError>,
    pub sender: u64,
}

/// The content of a crawl's outcome.
pub open spec fn outcome_view(r: Result<Target, CrawlError>) -> Result<TargetView, CrawlErrorView> {
    match r {
        Ok(t) => Ok(t@),
        Err(e) => Err(e@),
    }
}

impl DoneCrawl {
    /// The page that was crawled, or the error.
    pub fn result(&self) -> (r: &Result<Target, CrawlError>)
        ensures
            *r == self.result,
    {
        &self.result
    }

    /// The crawler that reports.
    pub fn sender(&self) -> (r: u64)
        ensures
            r == self.sender,
    {
        self.sender
    }
}

/// The sending half of a `std::sync::mpsc` channel.
#[verifier::external_type_specification]
#[verifier::external_body]
#[verifier::reject_recursive_types(T)]
pub struct ExSender<T>(std::sync::mpsc::Sender<T>);

/// The receiving half of a `std::sync::mpsc` channel.
#[verifier::external_type_specification]
#[verifier::external_body]
#[verifier::reject_recursive_types(T)]
pub struct ExReceiver<T>(std::sync::mpsc::Receiver<T>);

/// Why a value could not be taken out of a channel at once.
#[derive(Debug, Clone, Copy, PartialEq, Eq)]
pub enum ChannelError {
    /// No value is waiting.
    Empty,
    /// Every sender is gone: no value will ever come.
    Disconnected,
}

/// An unbounded first-in first-out channel whose two ends are kept
/// together; more senders can be handed out.
#[verifier::reject_recursive_types(T)]
pub struct Channel<T> {
    sender: std::sync::mpsc::Sender<T>,
    recvr: std::sync::mpsc::Receiver<T>,
}

/// Calls `std::sync::mpsc::channel`: the two ends of a new channel.
/// Nothing is claimed of them here.
#[verifier::external_body]
fn open_channel<T>() -> (std::sync::mpsc::Sender<T>, std::sync::mpsc::Receiver<T>) {
    std::sync::mpsc::channel::<T>()
}

/// Calls `std::sync::mpsc::Sender::send` on the channel's own sender. By
/// std's documentation a send fails only once the receiver is gone; the
/// receiver here is the channel's own, alive as long as `chan` is borrowed,
/// so the claim is that the send succeeds.
#[verifier::external_body]
fn send_on<T>(chan: &Channel<T>, v: T) -> (r: Result<(), T>)
    ensures
        r is Ok,
{
    chan.sender.send(v).map_err(|e| e.0)
}

/// Calls `std::sync::mpsc::Receiver::try_recv` on the channel's own
/// receiver, with its error told apart by variant. By std's documentation
/// it reports a disconnection only once every sender is gone; the
/// channel's own sender is alive as long as `chan` is borrowed. Which value
/// comes out, if any, depends on what other senders did and is not claimed.
#[verifier::external_body]
fn try_recv_on<T>(chan: &Channel<T>) -> (r: Result<T, ChannelError>)
    ensures
        r is Err ==> r->Err_0 == ChannelError::Empty,
{
    match chan.recvr.try_recv() {
        Ok(v) => Ok(v),
        Err(std::sync::mpsc::TryRecvError::Empty) => Err(ChannelError::Empty),
        Err(std::sync::mpsc::TryRecvError::Disconnected) => Err(ChannelError::Disconnected),
    }
}

/// Calls `Clone::clone` on the channel's own sender: another sender into
/// the same channel. Nothing is claimed of it here.
#[verifier::external_body]
fn clone_sender_of<T>(chan: &Channel<T>) -> std::sync::mpsc::Sender<T> {
    chan.sender.clone()
}

impl<T> Channel<T> {
    /// A new, empty channel.
    pub fn new() -> (r: Self) {
        let (sender, recvr) = open_channel::<T>();
        Channel { sender, recvr }
    }

    /// Puts `v` into the channel; this never fails, since the channel keeps
    /// its own receiver.
    pub fn send(&self, v: T) {
        let sent = send_on(self, v);
        assert(sent is Ok);
    }

    /// The channel's own receiving end. Waiting on it for a value, which
    /// may never come, is left to the caller.
    pub fn receiver(&self) -> &std::sync::mpsc::Receiver<T> {
        &self.recvr
    }

    /// Puts `v` into the channel, reporting a failure; there never is one,
    /// since the channel keeps its own receiver.
    pub fn try_send(&self, v: T) -> (r: Result<(), ChannelError>)
        ensures
            r is Ok,
    {
        match send_on(self, v) {
            Ok(()) => Ok(()),
            Err(_) => Err(ChannelError::Disconnected),
        }
    }

    /// Takes the next value out of the channel if one is there; otherwise
    /// reports that it is empty. It is never disconnected, since the
    /// channel keeps its own sender.
    pub fn try_recv(&self) -> (r: Result<T, ChannelError>)
        ensures
            r is Err ==> r->Err_0 == ChannelError::Empty,
    {
        try_recv_on(self)
    }

    /// Another sender into this channel.
    pub fn clone_sender(&self) -> std::sync::mpsc::Sender<T> {
        clone_sender_of(self)
    }
}

} // verus!
