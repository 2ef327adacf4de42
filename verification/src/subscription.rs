//! The subscription filter.
//!
//! The chain provider delivers a stream of block headers in arrival order.
//! The pipeline forwards a header only when its block number falls on the
//! configured interval; every other header is discarded without side effect.

use vstd::prelude::*;

verus! {

/// A header with block number `n` triggers a pipeline run exactly when `n`
/// is a multiple of the configured interval.
pub open spec fn triggers(n: u64, interval: u64) -> bool
    recommends
        interval > 0,
{
    n % interval == 0
}

/// The subsequence of `headers` that triggers pipeline runs, in arrival order.
pub open spec fn triggered_spec(headers: Seq<u64>, interval: u64) -> Seq<u64>
    decreases headers.len(),
{
    if headers.len() == 0 {
        Seq::empty()
    } else if triggers(headers.last(), interval) {
        triggered_spec(headers.drop_last(), interval).push(headers.last())
    } else {
        triggered_spec(headers.drop_last(), interval)
    }
}

/// The stateless filter predicate applied to each incoming header.
pub fn block_triggers(n: u64, interval: u64) -> (r: bool)
    requires
        interval > 0,
    ensures
        r == triggers(n, interval),
{
    n % interval == 0
}

/// Applies the filter to a whole header sequence, keeping arrival order.
pub fn triggered_blocks(headers: &Vec<u64>, interval: u64) -> (r: Vec<u64>)
    requires
        interval > 0,
    ensures
        r@ == triggered_spec(headers@, interval),
{
    let mut out: Vec<u64> = Vec::new();
    let mut i: usize = 0;
    while i < headers.len()
        invariant
            interval > 0,
            i <= headers.len(),
            out@ == triggered_spec(headers@.take(i as int), interval),
        decreases headers.len() - i,
    {
        proof {
            assert(headers@.take(i + 1).drop_last() =~= headers@.take(i as int));
            assert(headers@.take(i + 1).last() == headers@[i as int]);
        }
        if block_triggers(headers[i], interval) {
            out.push(headers[i]);
        }
        i += 1;
    }
    proof {
        assert(headers@.take(headers@.len() as int) =~= headers@);
    }
    out
}

} // verus!
