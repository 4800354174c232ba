//! Waiting for a transaction to be buried under a number of blocks.
//!
//! The waiter decides; its driver performs the RPC calls and the waits, and
//! hands back what came of each one.
use vstd::prelude::*;

use crate::types::{H256, Receipt};

verus! {

/// What the driver observed after the last action.
#[derive(Clone, Copy, Debug)]
pub enum WaitEvent {
    /// The receipt of the transaction; `None` while it is pending.
    Receipt(Option<Receipt>),
    /// The current head height of the chain.
    BlockNumber(u64),
    /// An RPC error worth retrying.
    TransientError,
    /// An RPC error that ends the wait.
    PermanentError,
}

/// What the driver is to do next.
#[derive(Clone, Copy, Debug)]
pub enum WaitAction {
    /// Fetch the transaction receipt, after one poll interval if asked.
    FetchReceipt { after_interval: bool },
    /// Fetch the current block number, after one poll interval if asked.
    FetchBlockNumber { after_interval: bool },
    /// The transaction is buried deep enough: here is its receipt.
    Confirmed(Receipt),
    /// The wait failed for good.
    Abort,
    /// The wait is over; nothing more will come of it.
    Done,
}

/// The transaction of `receipt` lies at least `depth` blocks below `head`.
pub open spec fn is_buried(receipt: Receipt, head: u64, depth: u64) -> bool {
    head as int >= receipt.block_number as int + depth as int
}

/// Polls for a transaction receipt, then for the head height, until the head
/// is `depth` blocks past the receipt's block.
#[derive(Clone, Copy, Debug)]
pub struct ConfirmationWaiter {
    pub tx_hash: H256,
    pub depth: u64,
    /// The receipt, once it has been seen.
    pub receipt: Option<Receipt>,
    pub finished: bool,
}

impl ConfirmationWaiter {
    /// The next state and action after `event`.
    pub open spec fn step_spec(self, event: WaitEvent) -> (ConfirmationWaiter, WaitAction) {
        if self.finished {
            (self, WaitAction::Done)
        } else {
            match event {
                WaitEvent::Receipt(None) => (self, WaitAction::FetchReceipt { after_interval: true }),
                WaitEvent::Receipt(Some(r)) => (
                    ConfirmationWaiter { receipt: Some(r), ..self },
                    WaitAction::FetchBlockNumber { after_interval: false },
                ),
                WaitEvent::BlockNumber(head) => match self.receipt {
                    None => (self, WaitAction::FetchReceipt { after_interval: false }),
                    Some(r) => if is_buried(r, head, self.depth) {
                        (ConfirmationWaiter { finished: true, ..self }, WaitAction::Confirmed(r))
                    } else {
                        (self, WaitAction::FetchBlockNumber { after_interval: true })
                    },
                },
                WaitEvent::TransientError => match self.receipt {
                    None => (self, WaitAction::FetchReceipt { after_interval: true }),
                    Some(_) => (self, WaitAction::FetchBlockNumber { after_interval: true }),
                },
                WaitEvent::PermanentError => (
                    ConfirmationWaiter { finished: true, ..self },
                    WaitAction::Abort,
                ),
            }
        }
    }

    pub fn new(tx_hash: H256, depth: u64) -> (r: ConfirmationWaiter)
        ensures
            r.tx_hash == tx_hash,
            r.depth == depth,
            r.receipt is None,
            !r.finished,
    {
        ConfirmationWaiter { tx_hash, depth, receipt: None, finished: false }
    }

    /// The first action: fetch the receipt at once.
    pub fn start(&self) -> (r: WaitAction)
        ensures
            self.finished ==> r == WaitAction::Done,
            !self.finished ==> r == (WaitAction::FetchReceipt { after_interval: false }),
    {
        if self.finished {
            WaitAction::Done
        } else {
            WaitAction::FetchReceipt { after_interval: false }
        }
    }

    /// Takes in what the last action observed and says what to do next.
    /// A receipt is handed out only once the observed head is `depth` blocks past
    /// its block, and at most once over the waiter's life.
    pub fn step(&mut self, event: WaitEvent) -> (r: WaitAction)
        ensures
            (*final(self), r) == old(self).step_spec(event),
            final(self).tx_hash == old(self).tx_hash,
            final(self).depth == old(self).depth,
            old(self).finished ==> final(self).finished,
            r matches WaitAction::Confirmed(rc) ==> {
                &&& !old(self).finished
                &&& final(self).finished
                &&& old(self).receipt == Some(rc)
                &&& event matches WaitEvent::BlockNumber(head) && is_buried(rc, head, old(self).depth)
            },
    {
        if self.finished {
            return WaitAction::Done;
        }
        match event {
            WaitEvent::Receipt(None) => WaitAction::FetchReceipt { after_interval: true },
            WaitEvent::Receipt(Some(r)) => {
                self.receipt = Some(r);
                WaitAction::FetchBlockNumber { after_interval: false }
            },
            WaitEvent::BlockNumber(head) => match self.receipt {
                None => WaitAction::FetchReceipt { after_interval: false },
                Some(r) => {
                    if head >= r.block_number && head - r.block_number >= self.depth {
                        self.finished = true;
                        WaitAction::Confirmed(r)
                    } else {
                        WaitAction::FetchBlockNumber { after_interval: true }
                    }
                },
            },
            WaitEvent::TransientError => match self.receipt {
                None => WaitAction::FetchReceipt { after_interval: true },
                Some(_) => WaitAction::FetchBlockNumber { after_interval: true },
            },
            WaitEvent::PermanentError => {
                self.finished = true;
                WaitAction::Abort
            },
        }
    }
}

/// A receipt is handed out only on a head height at least `depth` blocks past
/// the receipt's block.
pub proof fn lemma_confirmation_depth(w: ConfirmationWaiter, event: WaitEvent)
    ensures
        w.step_spec(event).1 matches WaitAction::Confirmed(r) ==> (event matches WaitEvent::BlockNumber(
            head,
        ) && is_buried(r, head, w.depth) && w.receipt == Some(r)),
{
}

/// After a receipt has been handed out, every later event is answered with
/// `Done`: a waiter confirms its transaction at most once.
pub proof fn lemma_confirmed_once(w: ConfirmationWaiter, first: WaitEvent, later: Seq<WaitEvent>)
    requires
        w.step_spec(first).1 is Confirmed,
    ensures
        forall|i: int|
            0 <= i < later.len() ==> #[trigger] run(w.step_spec(first).0, later.take(i)).step_spec(
                later[i],
            ).1 == WaitAction::Done,
{
    let w1 = w.step_spec(first).0;
    assert forall|i: int| 0 <= i < later.len() implies #[trigger] run(w1, later.take(i)).step_spec(
        later[i],
    ).1 == WaitAction::Done by {
        lemma_run_stays_finished(w1, later.take(i));
    }
}

/// The state after feeding `events` to `w`, one after another.
pub open spec fn run(w: ConfirmationWaiter, events: Seq<WaitEvent>) -> ConfirmationWaiter
    decreases events.len(),
{
    if events.len() == 0 {
        w
    } else {
        run(w, events.drop_last()).step_spec(events.last()).0
    }
}

proof fn lemma_run_stays_finished(w: ConfirmationWaiter, events: Seq<WaitEvent>)
    requires
        w.finished,
    ensures
        run(w, events).finished,
    decreases events.len(),
{
    if events.len() > 0 {
        lemma_run_stays_finished(w, events.drop_last());
    }
}

} // verus!
