//! Speed over a sliding window and the progress of one transfer. Times are
//! milliseconds on a monotonic clock; rates, which are floating point, are
//! computed by the runtime from the integers given here.
use vstd::prelude::*;

verus! {

/// The points of `h` at or after `cutoff`: the oldest points go first.
pub open spec fn drop_before(h: Seq<(u64, u64)>, cutoff: u64) -> Seq<(u64, u64)>
    decreases h.len(),
{
    if h.len() > 0 && h[0].0 < cutoff {
        drop_before(h.drop_first(), cutoff)
    } else {
        h
    }
}

/// The newest `n` points of `h`.
pub open spec fn keep_newest(h: Seq<(u64, u64)>, n: nat) -> Seq<(u64, u64)> {
    if h.len() > n {
        h.subrange(h.len() - n, h.len() as int)
    } else {
        h
    }
}

/// The history of (time, bytes so far) points of the last `window_ms`, at
/// most `max_entries` of them.
pub struct SpeedCalculator {
    pub history: Vec<(u64, u64)>,
    pub window_ms: u64,
    pub max_entries: usize,
}

impl SpeedCalculator {
    pub fn new(window_ms: u64) -> (r: SpeedCalculator)
        ensures
            r.history@.len() == 0,
            r.window_ms == window_ms,
            r.max_entries == 100,
    {
        SpeedCalculator { history: Vec::new(), window_ms, max_entries: 100 }
    }

    /// Adds the point (`now`, `bytes`); points older than the window go, then
    /// the oldest beyond the limit.
    pub fn add_data_point(&mut self, bytes: u64, now: u64)
        requires
            now >= old(self).window_ms,
        ensures
            final(self).window_ms == old(self).window_ms,
            final(self).max_entries == old(self).max_entries,
            final(self).history@ == keep_newest(
                drop_before(old(self).history@.push((now, bytes)), (now - old(self).window_ms) as u64),
                old(self).max_entries as nat,
            ),
    {
        self.history.push((now, bytes));
        let cutoff = now - self.window_ms;
        let ghost all = self.history@;
        assert(all.subrange(0, all.len() as int) == all);
        let mut start: usize = 0;
        while start < self.history.len() && self.history[start].0 < cutoff
            invariant
                all == self.history@,
                start <= all.len(),
                drop_before(all, cutoff) == drop_before(all.subrange(start as int, all.len() as int), cutoff),
            decreases all.len() - start,
        {
            proof {
                let rest = all.subrange(start as int, all.len() as int);
                assert(rest.drop_first() =~= all.subrange(start + 1, all.len() as int));
            }
            start = start + 1;
        }
        let ghost rest = all.subrange(start as int, all.len() as int);
        assert(drop_before(rest, cutoff) == rest);
        let len = self.history.len();
        let keep_from = if len - start > self.max_entries { len - self.max_entries } else { start };
        let mut kept: Vec<(u64, u64)> = Vec::new();
        let mut i: usize = keep_from;
        while i < len
            invariant
                all == self.history@,
                len == all.len(),
                start <= keep_from <= i <= len,
                kept@ == all.subrange(keep_from as int, i as int),
            decreases len - i,
        {
            kept.push(self.history[i]);
            assert(kept@ =~= all.subrange(keep_from as int, i + 1));
            i = i + 1;
        }
        proof {
            let n = self.max_entries as nat;
            if rest.len() > n {
                assert(kept@ =~= rest.subrange(rest.len() - n, rest.len() as int));
            } else {
                assert(kept@ =~= rest);
            }
        }
        self.history = kept;
    }

    /// The bytes and the time between the oldest and the newest point, where
    /// there are two or more; the bytes are not expected to go down.
    pub fn speed_window(&self) -> (r: Option<(u64, u64)>)
        requires
            self.history@.len() >= 2 ==> self.history@.last().1 >= self.history@[0].1,
        ensures
            self.history@.len() < 2 ==> r is None,
            self.history@.len() >= 2 ==> r == Some(
                (
                    (self.history@.last().1 - self.history@[0].1) as u64,
                    if self.history@.last().0 >= self.history@[0].0 {
                        (self.history@.last().0 - self.history@[0].0) as u64
                    } else {
                        0u64
                    },
                ),
            ),
    {
        let len = self.history.len();
        if len < 2 {
            return None;
        }
        let first = self.history[0];
        let last = self.history[len - 1];
        let time = if last.0 >= first.0 { last.0 - first.0 } else { 0 };
        Some((last.1 - first.1, time))
    }
}

/// The progress of one transfer: its size, the bytes so far, when it started,
/// and the speed over the last five seconds.
pub struct ProgressTracker {
    pub total_bytes: u64,
    pub transferred_bytes: u64,
    pub start_time: u64,
    pub speed_calculator: SpeedCalculator,
}

impl ProgressTracker {
    pub fn new(total_bytes: u64, now: u64) -> (r: ProgressTracker)
        ensures
            r.total_bytes == total_bytes,
            r.transferred_bytes == 0,
            r.start_time == now,
            r.speed_calculator.window_ms == 5000,
            r.speed_calculator.max_entries == 100,
            r.speed_calculator.history@.len() == 0,
    {
        ProgressTracker { total_bytes, transferred_bytes: 0, start_time: now, speed_calculator: SpeedCalculator::new(5000) }
    }

    /// The transfer is at `bytes` at `now`.
    pub fn update(&mut self, bytes: u64, now: u64)
        requires
            now >= old(self).speed_calculator.window_ms,
        ensures
            final(self).transferred_bytes == bytes,
            final(self).total_bytes == old(self).total_bytes,
            final(self).start_time == old(self).start_time,
            final(self).speed_calculator.window_ms == old(self).speed_calculator.window_ms,
            final(self).speed_calculator.max_entries == old(self).speed_calculator.max_entries,
            final(self).speed_calculator.history@ == keep_newest(
                drop_before(
                    old(self).speed_calculator.history@.push((now, bytes)),
                    (now - old(self).speed_calculator.window_ms) as u64,
                ),
                old(self).speed_calculator.max_entries as nat,
            ),
    {
        self.transferred_bytes = bytes;
        self.speed_calculator.add_data_point(bytes, now);
    }

    /// `bytes` more were sent at `now`.
    pub fn add_bytes(&mut self, bytes: u64, now: u64)
        requires
            old(self).transferred_bytes + bytes <= u64::MAX,
            now >= old(self).speed_calculator.window_ms,
        ensures
            final(self).transferred_bytes == old(self).transferred_bytes + bytes,
            final(self).total_bytes == old(self).total_bytes,
            final(self).start_time == old(self).start_time,
            final(self).speed_calculator.window_ms == old(self).speed_calculator.window_ms,
            final(self).speed_calculator.max_entries == old(self).speed_calculator.max_entries,
            final(self).speed_calculator.history@ == keep_newest(
                drop_before(
                    old(self).speed_calculator.history@.push((now, final(self).transferred_bytes)),
                    (now - old(self).speed_calculator.window_ms) as u64,
                ),
                old(self).speed_calculator.max_entries as nat,
            ),
    {
        self.transferred_bytes = self.transferred_bytes + bytes;
        let total = self.transferred_bytes;
        self.speed_calculator.add_data_point(total, now);
    }

    /// The bytes still to send (none where more than the total was sent).
    pub fn remaining(&self) -> (r: u64)
        ensures
            r == if self.total_bytes >= self.transferred_bytes {
                (self.total_bytes - self.transferred_bytes) as u64
            } else {
                0u64
            },
    {
        if self.total_bytes >= self.transferred_bytes {
            self.total_bytes - self.transferred_bytes
        } else {
            0
        }
    }
}

} // verus!
