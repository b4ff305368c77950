//! The computable pieces of the pipeline that couples a strategy to
//! the submitter: the pacing period of the submission stage, and the
//! consumer's per-tick decision.
//!
//! The pipeline itself is a single producer and a single consumer
//! joined by one bounded first-in-first-out queue, so submission order
//! equals generation order — mandatory, because the node enforces
//! strictly increasing sequence numbers per sender.  The queue, the
//! timer and the network calls live with the embedding application;
//! what is decidable from plain values is here.

use vstd::prelude::*;
use crate::tx::SignedTransaction;

verus! {

/// How many signed transactions may wait between the producer and the
/// consumer: the bound on how far signing runs ahead of submission.
pub const QUEUE_BOUND: usize = 100;

/// The period between two submissions, in microseconds: at a target
/// rate of `tps` transactions per second, one submission every
/// `1 / tps` seconds.  A rate of zero has no period.
pub fn pacing_interval_micros(tps: u16) -> (r: u64)
    requires
        tps >= 1,
    ensures
        r == 1_000_000u64 / (tps as u64),
{
    1_000_000u64 / (tps as u64)
}

/// What the consumer does after one timer tick.
pub enum ConsumerAction {
    /// Submit this transaction to the node, exactly once.
    Submit(SignedTransaction),
    /// Stop the pipeline: the producer side closed the queue.
    Stop,
}

/// The consumer's decision on each tick, from what the queue handed
/// it: every received transaction is submitted, in the order the
/// queue delivered it; a closed queue ends the pipeline.
pub fn consumer_step(received: Option<SignedTransaction>) -> (r: ConsumerAction)
    ensures
        received matches Some(tx) ==> (r matches ConsumerAction::Submit(t) && t == tx),
        received is None ==> r is Stop,
{
    match received {
        Option::Some(tx) => ConsumerAction::Submit(tx),
        Option::None => ConsumerAction::Stop,
    }
}

} // verus!
