//! Receiver-selection policy: how each call picks the next receiver
//! from the fixed, ordered account list.

use vstd::prelude::*;
use vstd::arithmetic::div_mod::*;
use vstd::arithmetic::mul::*;
use crate::error::Error;
use crate::types::AccountAddr;

verus! {

/// How the next receiver account is chosen from the fixed list.  When
/// no mode is configured the list is walked round-robin as a whole.
#[derive(Clone, Copy, Debug, PartialEq, Eq)]
pub enum Mode {
    /// Uniformly random pick, with replacement, on every call.
    Random,
    /// The list is split into this many contiguous chunks of size
    /// `floor(len / chunks)`; the instance is bound to the chunk picked
    /// by the node's validator index modulo the chunk count, and walks
    /// that chunk round-robin.  Trailing accounts beyond
    /// `chunks * floor(len / chunks)` are never visited.
    Every(usize),
}

// ------------------------------------------------------------------
// Parsing a mode from its textual form.
// ------------------------------------------------------------------

pub open spec fn is_digit(c: char) -> bool {
    48 <= c as u32 && c as u32 <= 57
}

pub open spec fn digit_val(c: char) -> nat {
    (c as u32 - 48) as nat
}

pub open spec fn all_digits(s: Seq<char>) -> bool {
    forall|i: int| 0 <= i < s.len() ==> is_digit(#[trigger] s[i])
}

/// The value of a run of decimal digits, most significant first.
pub open spec fn digits_value(s: Seq<char>) -> nat
    decreases s.len(),
{
    if s.len() == 0 {
        0
    } else {
        digits_value(s.drop_last()) * 10 + digit_val(s.last())
    }
}

/// The unsigned decimal literals the platform accepts: an optional
/// leading `+`, then at least one digit, value within the machine word.
pub open spec fn spec_parse_usize(s: Seq<char>) -> Option<nat> {
    let ds = if s.len() > 0 && s[0] == '+' {
        s.subrange(1, s.len() as int)
    } else {
        s
    };
    if ds.len() > 0 && all_digits(ds) && digits_value(ds) <= usize::MAX as nat {
        Some(digits_value(ds))
    } else {
        None
    }
}

pub open spec fn random_chars() -> Seq<char> {
    seq!['r', 'a', 'n', 'd', 'o', 'm']
}

/// The word `random` selects random mode; anything else must be a
/// chunk count for partitioned selection.
pub open spec fn spec_parse_mode(s: Seq<char>) -> Option<Mode> {
    if s == random_chars() {
        Some(Mode::Random)
    } else {
        match spec_parse_usize(s) {
            Some(v) => Some(Mode::Every(v as usize)),
            None => None,
        }
    }
}

/// A longer run of digits never has a smaller value.
proof fn lemma_digits_prefix_le(s: Seq<char>, j: int)
    requires
        0 <= j <= s.len(),
    ensures
        digits_value(s.take(j)) <= digits_value(s),
    decreases s.len() - j,
{
    if j == s.len() {
        assert(s.take(j) =~= s);
    } else {
        assert(s.take(j + 1).drop_last() =~= s.take(j));
        assert(s.take(j + 1).last() == s[j]);
        lemma_digits_prefix_le(s, j + 1);
    }
}

/// Parse a selection mode, exactly as the platform's own integer
/// parsing would: `random`, or an optionally `+`-prefixed digit run
/// whose value fits the machine word.
pub fn parse_mode(s: &str) -> (r: Option<Mode>)
    ensures
        r == spec_parse_mode(s@),
{
    let n = s.unicode_len();
    if n == 6 && s.get_char(0) == 'r' && s.get_char(1) == 'a' && s.get_char(2) == 'n'
        && s.get_char(3) == 'd' && s.get_char(4) == 'o' && s.get_char(5) == 'm' {
        proof {
            assert(s@ =~= random_chars());
        }
        return Some(Mode::Random);
    }
    let offset: usize = if n > 0 && s.get_char(0) == '+' {
        1
    } else {
        0
    };
    let ghost ds = if s@.len() > 0 && s@[0] == '+' {
        s@.subrange(1, s@.len() as int)
    } else {
        s@
    };
    if n == offset {
        return None;
    }
    let mut acc: usize = 0;
    let mut i: usize = offset;
    while i < n
        invariant
            offset <= 1,
            offset <= i <= n,
            n == s@.len(),
            offset == 1 ==> s@.len() > 0 && s@[0] == '+' && ds == s@.subrange(1, s@.len() as int),
            offset == 0 ==> !(s@.len() > 0 && s@[0] == '+') && ds == s@,
            ds.len() == n - offset,
            forall|j: int| 0 <= j < ds.len() ==> ds[j] == s@[j + offset],
            all_digits(ds.take(i - offset)),
            acc as nat == digits_value(ds.take(i - offset)),
            s@ != random_chars(),
        decreases n - i,
    {
        let c = s.get_char(i);
        let cv = c as u32;
        if cv < 48 || cv > 57 {
            proof {
                assert(!is_digit(ds[i - offset]));
            }
            return None;
        }
        let d: u32 = cv - 48;
        let wide: u128 = acc as u128 * 10 + d as u128;
        if wide > usize::MAX as u128 {
            proof {
                assert(ds.take(i - offset + 1).drop_last() =~= ds.take(i - offset));
                assert(ds.take(i - offset + 1).last() == ds[i - offset]);
                assert(digits_value(ds.take(i - offset + 1)) > usize::MAX as nat);
                lemma_digits_prefix_le(ds, i - offset + 1);
            }
            return None;
        }
        acc = wide as usize;
        proof {
            assert(ds.take(i - offset + 1).drop_last() =~= ds.take(i - offset));
            assert(ds.take(i - offset + 1).last() == ds[i - offset]);
        }
        i += 1;
    }
    proof {
        assert(ds.take(n - offset) =~= ds);
    }
    Some(Mode::Every(acc))
}

// ------------------------------------------------------------------
// Partitioned selection: the chunk bound to one instance.
// ------------------------------------------------------------------

/// Split the account list into `chunks` contiguous chunks of size
/// `floor(len / chunks)` and return the one chunk that the given
/// validator index selects: the half-open index range
/// `[k * step, (k + 1) * step)` with `k = validator_index % chunks`
/// and `step = len / chunks`.  Trailing accounts are never part of any
/// chunk; a chunk count of zero is a configuration error.
pub fn partition_chunk(accounts: &Vec<AccountAddr>, chunks: usize, validator_index: u64) -> (r:
    Result<Vec<AccountAddr>, Error>)
    ensures
        chunks == 0 ==> (r matches Err(e) && e == Error::ZeroPartitionCount),
        chunks > 0 ==> (r matches Ok(c) && c@ == chunk_of(accounts@, chunks as nat,
            validator_index as nat)),
{
    if chunks == 0 {
        return Err(Error::ZeroPartitionCount);
    }
    let step: usize = accounts.len() / chunks;
    let k: usize = (validator_index % (chunks as u64)) as usize;
    proof {
        let li = accounts@.len() as int;
        let ci = chunks as int;
        lemma_fundamental_div_mod(li, ci);
        lemma_mod_bound(li, ci);
        lemma_mul_inequality(k as int + 1, ci, step as int);
        assert((k as int + 1) * (step as int) <= li);
        lemma_mul_is_distributive_add_other_way(step as int, k as int, 1);
    }
    let lo: usize = k * step;
    let hi: usize = lo + step;
    let mut out: Vec<AccountAddr> = Vec::new();
    let mut i: usize = lo;
    while i < hi
        invariant
            lo <= i <= hi,
            hi <= accounts@.len(),
            out@ =~= accounts@.subrange(lo as int, i as int),
        decreases hi - i,
    {
        out.push(accounts[i]);
        i += 1;
    }
    proof {
        assert(out@ =~= chunk_of(accounts@, chunks as nat, validator_index as nat));
    }
    Ok(out)
}

/// The chunk of the list that instance `index` of `chunks` instances
/// is bound to.
pub open spec fn chunk_of(accounts: Seq<AccountAddr>, chunks: nat, index: nat) -> Seq<AccountAddr>
    recommends
        chunks > 0,
{
    let step = accounts.len() as int / chunks as int;
    let k = index as int % chunks as int;
    accounts.subrange(k * step, (k + 1) * step)
}

} // verus!
