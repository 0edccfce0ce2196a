//! Orchestration decisions for the download path: building the one
//! download command from the first usable catalog snapshot, and
//! grouping the incoming per-page batches into fixed-size chunks for
//! the storage sink's bulk insert.
use vstd::prelude::*;

use std::sync::Arc;

use crate::downloader::DownloadCandlesticks;
use crate::symbol::{SymbolFilter, Symbols};
use crate::timeframe::Timeframe;
use crate::timestamp::Timestamp;

verus! {

/// The default number of per-page batches handed to one bulk insert.
pub const DEFAULT_CHUNK_SIZE: usize = 8;

/// Builds the one download command the pipeline issues, from the
/// catalog snapshot and the configured timeframe, start and filter.
pub fn download_candlesticks_command(
    timeframe: Timeframe,
    start_date: Timestamp,
    symbols: Arc<Symbols>,
    filter: SymbolFilter,
) -> (r: DownloadCandlesticks)
    ensures
        r.timeframe == timeframe,
        r.start_date == start_date,
        r.symbols == symbols,
        r.filter == filter,
{
    DownloadCandlesticks { symbols, timeframe, start_date, filter }
}

/// The end index of chunk `i` when `items` of length `n` are grouped
/// in chunks of `size`: one full chunk further, or the end of the
/// items, whichever comes first.
pub open spec fn chunk_end(n: int, size: int, i: int) -> int {
    if (i + 1) * size <= n {
        (i + 1) * size
    } else {
        n
    }
}

/// Whether `chunks` is exactly `items` grouped into chunks of `size`:
/// as many chunks as `size` fits into the item count rounded up, the
/// chunk at index `i` holding the items from `i*size` on, `size` of
/// them or whatever remains.
pub open spec fn is_chunking<T>(chunks: Seq<Seq<T>>, items: Seq<T>, size: int) -> bool {
    &&& chunks.len() == (items.len() + size - 1) / size
    &&& forall|i: int|
        0 <= i < chunks.len() ==> #[trigger] chunks[i] == items.subrange(
            i * size,
            chunk_end(items.len() as int, size, i),
        )
}

/// Multiplying both sides of an inequality by a nonnegative factor
/// keeps it.
proof fn lemma_mul_le(a: int, b: int, c: int)
    requires
        a <= b,
        c >= 0,
    ensures
        a * c <= b * c,
{
    assert(a * c <= b * c) by (nonlinear_arith)
        requires
            a <= b,
            c >= 0,
    ;
}

/// Groups `items` into chunks of `size`, in order: every chunk holds
/// `size` items except possibly the last, which holds the remainder.
#[verifier::loop_isolation(false)]
pub fn chunks_of<T>(items: Vec<T>, size: usize) -> (r: Vec<Vec<T>>)
    requires
        1 <= size,
    ensures
        is_chunking(r@.map_values(|c: Vec<T>| c@), items@, size as int),
{
    let ghost all = items@;
    let mut rest = items;
    let mut r: Vec<Vec<T>> = Vec::new();
    proof {
        assert(r@.len() * size == 0) by (nonlinear_arith)
            requires
                r@.len() == 0,
        ;
    }
    while rest.len() > size
        invariant
            r@.len() * size == all.len() - rest@.len(),
            rest@ == all.subrange(all.len() - rest@.len(), all.len() as int),
            forall|i: int|
                0 <= i < r@.len() ==> (#[trigger] r@[i])@ == all.subrange(
                    i * size,
                    (i + 1) * size,
                ),
        decreases rest@.len(),
    {
        let ghost len0 = r@.len() as int;
        let mut tail = rest.split_off(size);
        core::mem::swap(&mut rest, &mut tail);
        r.push(tail);
        proof {
            assert((len0 + 1) * size == len0 * size + size) by (nonlinear_arith);
            assert(r@[len0]@ =~= all.subrange(len0 * size, (len0 + 1) * size));
            assert(rest@ =~= all.subrange(all.len() - rest@.len(), all.len() as int));
        }
    }
    let ghost n = all.len() as int;
    let ghost done = n - rest@.len();
    let ghost full = r@.len() as int;
    proof {
        assert(full * size == done);
    }
    if rest.len() > 0 {
        let ghost restv = rest@;
        r.push(rest);
        proof {
            assert((full + 1) * size == full * size + size) by (nonlinear_arith);
            assert(restv =~= all.subrange(full * size, n));
            let ghost chunksv = r@.map_values(|c: Vec<T>| c@);
            assert(chunksv.len() == full + 1);
            assert forall|i: int| 0 <= i < chunksv.len() implies #[trigger] chunksv[i]
                == all.subrange(i * size, chunk_end(n, size as int, i)) by {
                assert(chunksv[i] == r@[i]@);
                if i < full {
                    lemma_mul_le(i + 1, full, size as int);
                    assert(chunk_end(n, size as int, i) == (i + 1) * size);
                } else {
                    assert(chunk_end(n, size as int, full) == n);
                }
            }
            vstd::arithmetic::div_mod::lemma_fundamental_div_mod_converse_div(
                n + size - 1,
                size as int,
                full + 1,
                n - 1 - full * size,
            );
        }
    } else {
        proof {
            assert(n == done);
            let ghost chunksv = r@.map_values(|c: Vec<T>| c@);
            assert(chunksv.len() == full);
            assert forall|i: int| 0 <= i < chunksv.len() implies #[trigger] chunksv[i]
                == all.subrange(i * size, chunk_end(n, size as int, i)) by {
                assert(chunksv[i] == r@[i]@);
                lemma_mul_le(i + 1, full, size as int);
                assert(chunk_end(n, size as int, i) == (i + 1) * size);
            }
            vstd::arithmetic::div_mod::lemma_fundamental_div_mod_converse_div(
                n + size - 1,
                size as int,
                full,
                size - 1,
            );
        }
    }
    r
}

} // verus!
