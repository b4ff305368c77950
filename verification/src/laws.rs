//! The general laws of the generation strategies, stated and proved
//! once over the counter model that every strategy's `generate`
//! contract speaks of.
//!
//! Each strategy advances a pair of counters per call: the sequence
//! number of the next transaction, and a cyclic cursor (the
//! round-robin position over its account list, or the next item id).
//! `Generate::generate` ensures that a call takes the counters from
//! `c` to `step(c)` and emits `c.nonce`; so the state after `n` calls
//! is `run(c, n)`, and the laws below describe every such run.

use vstd::prelude::*;
use vstd::arithmetic::div_mod::{
    lemma_add_mod_noop, lemma_fundamental_div_mod, lemma_mod_bound, lemma_small_mod,
};
use vstd::arithmetic::mul::lemma_mul_inequality;
use crate::types::AccountAddr;

verus! {

/// The counters a strategy advances on every call.
pub ghost struct Counters {
    /// The sequence number the next produced transaction will carry.
    pub nonce: u64,
    /// The cyclic cursor: a round-robin position, or the next item id.
    pub cursor: nat,
    /// The cursor's modulus: the account-list length, or the id space.
    pub len: nat,
}

impl Counters {
    pub open spec fn wf(self) -> bool {
        self.len > 0 && self.cursor < self.len
    }
}

/// How one `generate` call advances the counters.
pub open spec fn step(c: Counters) -> Counters
    recommends
        c.nonce < u64::MAX,
        c.len > 0,
{
    Counters {
        nonce: (c.nonce + 1) as u64,
        cursor: (c.cursor + 1) % c.len,
        len: c.len,
    }
}

/// The counters after `n` calls.
pub open spec fn run(c: Counters, n: nat) -> Counters
    decreases n,
{
    if n == 0 {
        c
    } else {
        step(run(c, (n - 1) as nat))
    }
}

/// After `n` calls the sequence number has grown by exactly `n` and
/// the cursor has moved `n` places around its cycle.
pub proof fn lemma_run(c: Counters, n: nat)
    requires
        c.wf(),
        c.nonce + n <= u64::MAX,
    ensures
        run(c, n).nonce == c.nonce + n,
        run(c, n).cursor == (c.cursor + n) % c.len,
        run(c, n).len == c.len,
    decreases n,
{
    lemma_mod_bound((c.cursor + n) as int, c.len as int);
    if n == 0 {
        lemma_small_mod(c.cursor, c.len);
    } else {
        lemma_run(c, (n - 1) as nat);
        lemma_add_mod_noop((c.cursor + n - 1) as int, 1, c.len as int);
        if c.len == 1 {
            lemma_mod_bound((c.cursor + n - 1) as int, 1);
        } else {
            lemma_small_mod(1, c.len);
        }
    }
}

/// Law: over any run of `n` calls the emitted sequence numbers are
/// exactly `c.nonce + i` at call `i` — a strictly increasing, gapless
/// run of length `n` that starts at the value obtained at setup.
pub proof fn lemma_sequence_numbers(c: Counters, n: nat)
    requires
        c.wf(),
        c.nonce + n <= u64::MAX,
    ensures
        forall|i: int| 0 <= i <= n ==> #[trigger] run(c, i as nat).nonce == c.nonce + i,
        forall|i: int, j: int|
            0 <= i < j <= n ==> #[trigger] run(c, i as nat).nonce < #[trigger] run(
                c,
                j as nat,
            ).nonce,
{
    assert forall|i: int| 0 <= i <= n implies #[trigger] run(c, i as nat).nonce == c.nonce
        + i by {
        lemma_run(c, i as nat);
    };
}

/// Law: round-robin selection repeats with period `len`: call `i` and
/// call `i + len` stand at the same cursor, so they select the same
/// address.
pub proof fn lemma_round_robin_period(c: Counters, i: nat)
    requires
        c.wf(),
        c.nonce + i + c.len <= u64::MAX,
    ensures
        run(c, i + c.len).cursor == run(c, i).cursor,
{
    lemma_run(c, i);
    lemma_run(c, i + c.len);
    lemma_add_mod_noop((c.cursor + i) as int, c.len as int, c.len as int);
    lemma_mod_bound((c.cursor + i) as int, c.len as int);
    assert(c.len as int % c.len as int == 0) by {
        lemma_fundamental_div_mod(c.len as int, c.len as int);
        lemma_mod_bound(c.len as int, c.len as int);
    }
    lemma_small_mod((c.cursor + i) % c.len, c.len);
}

/// Law: from a fresh cursor, the first `len` calls walk the positions
/// `0, 1, …, len − 1` in order: call `i` stands at cursor `i`.
pub proof fn lemma_round_robin_first_pass(c: Counters, i: nat)
    requires
        c.wf(),
        c.cursor == 0,
        i < c.len,
        c.nonce + i <= u64::MAX,
    ensures
        run(c, i).cursor == i,
{
    lemma_run(c, i);
    lemma_small_mod(i, c.len);
}

/// Law: from a fresh cursor over a list of length `K`, the first `K`
/// calls select all `K` addresses exactly once, in list order.
pub proof fn lemma_first_cycle_in_order(accounts: Seq<AccountAddr>, c: Counters)
    requires
        c.wf(),
        c.len == accounts.len(),
        c.cursor == 0,
        c.nonce + accounts.len() <= u64::MAX,
    ensures
        Seq::new(accounts.len(), |i: int| accounts[run(c, i as nat).cursor as int])
            =~= accounts,
{
    assert forall|i: int| 0 <= i < accounts.len() implies accounts[#[trigger] run(
        c,
        i as nat,
    ).cursor as int] == accounts[i] by {
        lemma_round_robin_first_pass(c, i as nat);
    };
}

// ------------------------------------------------------------------
// Partitioned selection: the chunk ranges of different instances.
// ------------------------------------------------------------------

/// Law: the index ranges of two different instances never overlap:
/// one range ends before the other begins.
pub proof fn lemma_partition_disjoint(len: nat, chunks: nat, k1: nat, k2: nat)
    requires
        chunks > 0,
        k1 < chunks,
        k2 < chunks,
        k1 != k2,
    ensures
        ({
            let step = len as int / chunks as int;
            (k1 + 1) * step <= k2 * step || (k2 + 1) * step <= k1 * step
        }),
{
    let step = len as int / chunks as int;
    lemma_fundamental_div_mod(len as int, chunks as int);
    lemma_mod_bound(len as int, chunks as int);
    if k1 < k2 {
        lemma_mul_inequality(k1 as int + 1, k2 as int, step);
    } else {
        lemma_mul_inequality(k2 as int + 1, k1 as int, step);
    }
}

/// Law: every instance's range lies inside `[0, chunks * step)`, and
/// the union of all ranges, `[0, chunks * step)`, omits exactly the
/// `len % chunks` trailing indices — fewer than one chunk's worth.
pub proof fn lemma_partition_covers(len: nat, chunks: nat, k: nat)
    requires
        chunks > 0,
        k < chunks,
    ensures
        ({
            let step = len as int / chunks as int;
            0 <= k * step && (k + 1) * step <= chunks * step && chunks * step == len - (len
                % chunks) && len % chunks < chunks
        }),
{
    let step = len as int / chunks as int;
    lemma_fundamental_div_mod(len as int, chunks as int);
    lemma_mod_bound(len as int, chunks as int);
    vstd::arithmetic::mul::lemma_mul_nonnegative(k as int, step);
    lemma_mul_inequality(k as int + 1, chunks as int, step);
}

} // verus!
