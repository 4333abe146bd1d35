use vstd::prelude::*;

use std::sync::atomic::{AtomicBool, AtomicU64, Ordering};
use std::sync::Arc;

verus! {

/// The value that a live read installs over the stored value `last` when the
/// wall clock reads `wall`: one past the larger of the two, saturating at the
/// top of the range.
pub open spec fn live_next(last: u64, wall: u64) -> u64 {
    let m = if last >= wall { last } else { wall };
    if m == u64::MAX {
        u64::MAX
    } else {
        (m + 1) as u64
    }
}

/// The stored value after adding `delta` to `prev`; the atomic add wraps.
pub open spec fn advanced(prev: u64, delta: u64) -> u64 {
    ((prev + delta) % 0x1_0000_0000_0000_0000) as u64
}

/// `installed` is what successive live reads stored, in the order in which
/// they completed, starting over `start`, with wall readings `walls`: each
/// read stored at least the live step over the value it replaced. (A read
/// that lost a race may store more than that step, never less.)
pub open spec fn is_live_history(start: u64, walls: Seq<u64>, installed: Seq<u64>) -> bool {
    &&& installed.len() == walls.len()
    &&& forall|i: int|
        0 <= i < installed.len() ==> installed[i] >= live_next(
            if i == 0 {
                start
            } else {
                installed[i - 1]
            },
            #[trigger] walls[i],
        )
}

/// One operation on a clock in static mode.
#[derive(PartialEq, Eq, Structural)]
pub enum StaticOp {
    Read,
    Advance(u64),
}

/// The stored value of a static clock after applying `ops` to `start`.
pub open spec fn static_stored(start: u64, ops: Seq<StaticOp>) -> u64
    decreases ops.len(),
{
    if ops.len() == 0 {
        start
    } else {
        let prev = static_stored(start, ops.drop_last());
        match ops.last() {
            StaticOp::Read => prev,
            StaticOp::Advance(d) => advanced(prev, d),
        }
    }
}

/// What the `i`-th operation of `ops` returns on a static clock that held `start`:
/// a read returns the stored value, an advance the value it stored.
pub open spec fn static_result(start: u64, ops: Seq<StaticOp>, i: int) -> u64 {
    static_stored(start, ops.take(i + 1))
}

/// Over the model of live reads (`is_live_history`, the values installed in
/// the order in which the reads complete): they strictly increase, each is
/// greater than the value stored before the first of them and than the wall
/// reading it was computed against, as long as none reaches the top of the
/// range. No executable contract establishes the model for `AtomicTime`:
/// the values held by std's atomics are not visible to the proofs, and
/// `time_after` follows it step by step through `retry_candidate`.
pub proof fn lemma_live_reads_increase(start: u64, walls: Seq<u64>, installed: Seq<u64>)
    requires
        is_live_history(start, walls, installed),
        forall|i: int| 0 <= i < installed.len() ==> installed[i] < u64::MAX,
    ensures
        forall|i: int| 0 <= i < installed.len() ==> installed[i] > walls[i],
        forall|i: int| 0 <= i < installed.len() ==> installed[i] > start,
        forall|i: int, j: int| 0 <= i < j < installed.len() ==> installed[i] < installed[j],
{
    assert forall|i: int| 0 <= i < installed.len() implies installed[i] > walls[i] && installed[i]
        > (if i == 0 {
        start
    } else {
        installed[i - 1]
    }) by {
        assert(installed[i] >= live_next(
            if i == 0 {
                start
            } else {
                installed[i - 1]
            },
            walls[i],
        ));
    }
    assert forall|i: int, j: int| 0 <= i < j < installed.len() implies installed[i]
        < installed[j] by {
        lemma_history_grows(start, walls, installed, i, j);
    }
    assert forall|i: int| 0 <= i < installed.len() implies installed[i] > start by {
        assert(installed[0] >= live_next(start, walls[0]));
        if i > 0 {
            lemma_history_grows(start, walls, installed, 0, i);
        }
    }
}

proof fn lemma_history_grows(start: u64, walls: Seq<u64>, installed: Seq<u64>, i: int, j: int)
    requires
        is_live_history(start, walls, installed),
        forall|k: int| 0 <= k < installed.len() ==> installed[k] < u64::MAX,
        0 <= i < j < installed.len(),
    ensures
        installed[i] < installed[j],
    decreases j - i,
{
    assert(installed[j] >= live_next(installed[j - 1], walls[j]));
    if j - 1 > i {
        lemma_history_grows(start, walls, installed, i, j - 1);
    }
}

/// Over the model of a static clock (`static_stored`, `static_result`): an
/// advance returns the value stored before it plus its delta (exactly, where
/// the sum fits in a `u64`), and reads with no advance between them return the
/// same value. No executable contract establishes the model for `AtomicTime`,
/// whose stored value is not visible to the proofs; `increment_time` computes
/// its result through `advance_from`, the model's advance step.
pub proof fn lemma_static_clock(start: u64, ops: Seq<StaticOp>)
    ensures
        forall|i: int, d: u64|
            0 <= i < ops.len() && ops[i] == StaticOp::Advance(d) ==> static_result(start, ops, i)
                == advanced(static_stored(start, ops.take(i)), d),
        forall|i: int, d: u64|
            0 <= i < ops.len() && ops[i] == StaticOp::Advance(d) && static_stored(start, ops.take(i))
                + d <= u64::MAX ==> static_result(start, ops, i) == static_stored(start, ops.take(i))
                + d,
        forall|i: int, j: int|
            0 <= i < j < ops.len() && (forall|k: int| i < k <= j ==> ops[k] == StaticOp::Read)
                ==> static_result(start, ops, i) == static_result(start, ops, j),
{
    assert forall|i: int, d: u64|
        0 <= i < ops.len() && ops[i] == StaticOp::Advance(d) implies static_result(start, ops, i)
        == advanced(static_stored(start, ops.take(i)), d) by {
        assert(ops.take(i + 1).drop_last() =~= ops.take(i));
    }
    assert forall|i: int, d: u64|
        0 <= i < ops.len() && ops[i] == StaticOp::Advance(d) && static_stored(start, ops.take(i))
            + d <= u64::MAX implies static_result(start, ops, i) == static_stored(start, ops.take(i))
        + d by {
        assert(ops.take(i + 1).drop_last() =~= ops.take(i));
        let prev = static_stored(start, ops.take(i));
        vstd::arithmetic::div_mod::lemma_small_mod((prev + d) as nat, 0x1_0000_0000_0000_0000);
    }
    assert forall|i: int, j: int|
        0 <= i < j < ops.len() && (forall|k: int| i < k <= j ==> ops[k] == StaticOp::Read)
        implies static_result(start, ops, i) == static_result(start, ops, j) by {
        lemma_reads_keep_value(start, ops, i, j);
    }
}

proof fn lemma_reads_keep_value(start: u64, ops: Seq<StaticOp>, i: int, j: int)
    requires
        0 <= i <= j < ops.len(),
        forall|k: int| i < k <= j ==> ops[k] == StaticOp::Read,
    ensures
        static_result(start, ops, i) == static_result(start, ops, j),
    decreases j - i,
{
    if j > i {
        lemma_reads_keep_value(start, ops, i, j - 1);
        assert(ops.take(j + 1).drop_last() =~= ops.take(j));
    }
}

/// Monotonic nanosecond clock whose state is shared by all its clones.
///
/// In live mode each read installs and returns a value past both the wall
/// clock and every value installed before; in static mode a read returns the
/// stored value, which only `increment_time` moves.
#[derive(Clone, Debug)]
pub struct AtomicTime {
    mode: Arc<AtomicBool>,
    timestamp_ns: Arc<AtomicU64>,
}

/// The live step: what a live read installs over `last` when the wall clock
/// reads `wall`.
pub fn next_live_ns(last: u64, wall: u64) -> (r: u64)
    ensures
        r == live_next(last, wall),
{
    let m = if last >= wall { last } else { wall };
    if m == u64::MAX {
        u64::MAX
    } else {
        m + 1
    }
}

/// The advance step: what adding `delta` to a stored `prev` stores and returns.
pub fn advance_from(prev: u64, delta: u64) -> (r: u64)
    ensures
        r == advanced(prev, delta),
{
    prev.wrapping_add(delta)
}

/// The candidate that a live read tries to install over `last`, after
/// candidates up to `tried` lost their race (`tried == 0` before the first
/// try): the live step, raised past `tried` where it falls short.
pub open spec fn retry_next(last: u64, wall: u64, tried: u64) -> u64 {
    if live_next(last, wall) > tried {
        live_next(last, wall)
    } else {
        (tried + 1) as u64
    }
}

/// The retry step of a live read; see `retry_next`.
pub fn retry_candidate(last: u64, wall: u64, tried: u64) -> (r: u64)
    requires
        tried < u64::MAX,
    ensures
        r == retry_next(last, wall, tried),
        r > tried,
        r >= live_next(last, wall),
{
    let next = next_live_ns(last, wall);
    if next > tried {
        next
    } else {
        tried + 1
    }
}

impl AtomicTime {
    /// A clock in live mode when `mode` holds, else in static mode, storing `time`.
    pub fn new(mode: bool, time: u64) -> (r: AtomicTime) {
        AtomicTime { mode: Arc::new(AtomicBool::new(mode)), timestamp_ns: Arc::new(AtomicU64::new(time)) }
    }

    /// Switches every clone of this clock to live mode, keeping the stored value.
    pub fn live(&self) {
        self.mode.store(true, Ordering::SeqCst)
    }

    /// Switches every clone of this clock to static mode, keeping the stored value.
    pub fn static_mode(&self) {
        self.mode.store(false, Ordering::SeqCst)
    }

    /// Adds `delta` to the stored value in one atomic step and returns the
    /// value stored by that step.
    pub fn increment_time(&self, delta: u64) -> (r: u64) {
        let prev = self.timestamp_ns.fetch_add(delta, Ordering::SeqCst);
        advance_from(prev, delta)
    }

    /// The current time: a live read in live mode, the stored value in static mode.
    pub fn get_time_ns(&self) -> (r: u64) {
        if self.mode.load(Ordering::SeqCst) {
            self.time_since_epoch()
        } else {
            self.timestamp_ns.load(Ordering::SeqCst)
        }
    }

    /// A live read against the wall clock; see `time_after`.
    pub fn time_since_epoch(&self) -> (r: u64)
        ensures
            r > 0,
    {
        self.time_after(crate::wall::wall_clock_ns())
    }

    /// A live read when the wall clock reads `wall_ns`.
    ///
    /// Installs a value greater than the one it replaces and greater than
    /// `wall_ns`, by compare-and-exchange, and returns it. After a lost race
    /// the next candidate is computed against the value that won, and is
    /// also past the candidate that lost, so the retries end. Only once the
    /// counter reaches `u64::MAX` is that value returned without a new install.
    pub fn time_after(&self, wall_ns: u64) -> (r: u64)
        ensures
            r > wall_ns || r == u64::MAX,
    {
        let mut last = self.timestamp_ns.load(Ordering::SeqCst);
        let mut tried: u64 = 0;
        loop
            invariant
                tried < u64::MAX,
            decreases u64::MAX - tried,
        {
            let candidate = retry_candidate(last, wall_ns, tried);
            match self.timestamp_ns.compare_exchange(last, candidate, Ordering::SeqCst, Ordering::SeqCst) {
                Ok(_) => {
                    return candidate;
                },
                Err(current) => {
                    if candidate == u64::MAX {
                        return u64::MAX;
                    }
                    last = current;
                    tried = candidate;
                },
            }
        }
    }
}

} // verus!
