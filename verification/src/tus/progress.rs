//! Progress of one upload: a ring buffer of speed samples and the tracker
//! that decides when progress is reported. Times are milliseconds on a
//! monotonic clock; rates and percentages are computed by the caller from
//! the integers given here.
use vstd::prelude::*;

verus! {

/// The last `n` entries of `s` (all of them where there are fewer).
pub open spec fn last_n<A>(s: Seq<A>, n: nat) -> Seq<A> {
    if s.len() <= n {
        s
    } else {
        s.subrange(s.len() - n, s.len() as int)
    }
}

/// How many of the newest samples give the instant speed: a quarter of them,
/// at least two.
pub open spec fn recent_count(len: nat) -> nat {
    if len / 4 >= 2 {
        len / 4
    } else {
        2
    }
}

/// The sum of the byte counts of the samples.
pub open spec fn sum_bytes(s: Seq<(u64, u64)>) -> nat
    decreases s.len(),
{
    if s.len() == 0 {
        0
    } else {
        sum_bytes(s.drop_last()) + s.last().1 as nat
    }
}

/// Speed samples, (time, bytes), in a ring buffer of `max_samples` entries:
/// once full, each new sample overwrites the oldest.
pub struct SpeedCalculator {
    pub samples: Vec<(u64, u64)>,
    pub max_samples: usize,
    /// Where the next sample goes once the buffer is full.
    pub current_index: usize,
    /// All bytes ever sampled.
    pub total_bytes: u64,
    pub start_time_ms: u64,
}

impl SpeedCalculator {
    pub open spec fn wf(&self) -> bool {
        &&& self.samples@.len() <= self.max_samples
        &&& self.samples@.len() < self.max_samples ==> self.current_index == 0
        &&& self.samples@.len() == self.max_samples ==> (self.current_index < self.max_samples
            || self.current_index == 0)
    }

    /// The samples from the oldest to the newest.
    pub open spec fn history(&self) -> Seq<(u64, u64)> {
        if self.samples@.len() < self.max_samples {
            self.samples@
        } else {
            self.samples@.subrange(self.current_index as int, self.samples@.len() as int)
                + self.samples@.subrange(0, self.current_index as int)
        }
    }

    /// An empty buffer for `max_samples` samples, started at `now_ms`.
    pub fn new(max_samples: usize, now_ms: u64) -> (r: SpeedCalculator)
        ensures
            r.wf(),
            r.history().len() == 0,
            r.max_samples == max_samples,
            r.total_bytes == 0,
            r.start_time_ms == now_ms,
    {
        SpeedCalculator {
            max_samples,
            samples: Vec::new(),
            current_index: 0,
            total_bytes: 0,
            start_time_ms: now_ms,
        }
    }

    /// Records that `bytes` were sent at `now_ms`: the newest `max_samples`
    /// samples are kept.
    pub fn add_sample(&mut self, bytes: u64, now_ms: u64)
        requires
            old(self).wf(),
            old(self).max_samples > 0,
            old(self).total_bytes + bytes <= u64::MAX,
        ensures
            final(self).wf(),
            final(self).max_samples == old(self).max_samples,
            final(self).history() == last_n(
                old(self).history().push((now_ms, bytes)),
                old(self).max_samples as nat,
            ),
            final(self).total_bytes == old(self).total_bytes + bytes,
            final(self).start_time_ms == old(self).start_time_ms,
    {
        let ghost h = self.history();
        self.total_bytes = self.total_bytes + bytes;
        if self.samples.len() < self.max_samples {
            self.samples.push((now_ms, bytes));
            proof {
                assert(self.samples@.subrange(0, self.samples@.len() as int) == self.samples@);
                assert(self.samples@.subrange(0, 0) =~= Seq::<(u64, u64)>::empty());
                assert(self.history() =~= h.push((now_ms, bytes)));
            }
        } else {
            let ghost s = self.samples@;
            let ci = self.current_index;
            let m = self.max_samples;
            self.samples.set(ci, (now_ms, bytes));
            self.current_index = if ci + 1 == m { 0 } else { ci + 1 };
            proof {
                let s2 = self.samples@;
                let x = (now_ms, bytes);
                let hp = h.push(x);
                assert(h =~= s.subrange(ci as int, m as int) + s.subrange(0, ci as int));
                assert(last_n(hp, m as nat) =~= hp.subrange(1, hp.len() as int));
                if ci + 1 == m {
                    assert(s2.subrange(0, m as int) =~= s.subrange(0, ci as int).push(x));
                    assert(s2.subrange(0, 0) =~= Seq::<(u64, u64)>::empty());
                    assert(self.history() =~= hp.subrange(1, hp.len() as int));
                } else {
                    assert(s2.subrange(ci + 1, m as int) =~= s.subrange(ci + 1, m as int));
                    assert(s2.subrange(0, ci + 1) =~= s.subrange(0, ci as int).push(x));
                    assert(self.history() =~= hp.subrange(1, hp.len() as int));
                }
            }
        }
    }

    /// The `j`th sample from the oldest.
    pub fn history_at(&self, j: usize) -> (r: (u64, u64))
        requires
            self.wf(),
            j < self.samples@.len(),
        ensures
            r == self.history()[j as int],
    {
        if self.samples.len() < self.max_samples {
            self.samples[j]
        } else {
            let ci = self.current_index;
            let m = self.samples.len();
            if j < m - ci {
                self.samples[ci + j]
            } else {
                self.samples[j - (m - ci)]
            }
        }
    }

    /// The newest quarter of the samples, at least two, oldest first.
    pub fn recent_samples(&self) -> (r: Vec<(u64, u64)>)
        requires
            self.wf(),
            self.samples@.len() >= 2,
        ensures
            r@ == last_n(self.history(), recent_count(self.samples@.len() as nat)),
    {
        let len = self.samples.len();
        let rc = if len / 4 >= 2 { len / 4 } else { 2 };
        let mut r: Vec<(u64, u64)> = Vec::new();
        let mut j: usize = len - rc;
        assert(self.history().len() == len);
        while j < len
            invariant
                self.wf(),
                len == self.samples@.len(),
                self.history().len() == len,
                2 <= rc <= len,
                len - rc <= j <= len,
                r@ == self.history().subrange(len - rc, j as int),
            decreases len - j,
        {
            let x = self.history_at(j);
            r.push(x);
            assert(r@ =~= self.history().subrange(len - rc, j + 1));
            j = j + 1;
        }
        proof {
            if self.history().len() <= rc {
                assert(self.history().subrange(0, len as int) =~= self.history());
            }
        }
        r
    }

    /// The bytes of the recent samples and the time between the first and the
    /// last of them, where there are two samples or more.
    pub open spec fn recent_totals_of(&self) -> Option<(u128, u64)> {
        if self.samples@.len() < 2 {
            None
        } else {
            let recent = last_n(self.history(), recent_count(self.samples@.len() as nat));
            Some(
                (
                    sum_bytes(recent) as u128,
                    if recent.last().0 >= recent[0].0 {
                        (recent.last().0 - recent[0].0) as u64
                    } else {
                        0u64
                    },
                ),
            )
        }
    }

    pub fn recent_totals(&self) -> (r: Option<(u128, u64)>)
        requires
            self.wf(),
        ensures
            r == self.recent_totals_of(),
    {
        if self.samples.len() < 2 {
            return None;
        }
        let recent = self.recent_samples();
        let mut sum: u128 = 0;
        let mut i: usize = 0;
        while i < recent.len()
            invariant
                i <= recent@.len(),
                sum == sum_bytes(recent@.subrange(0, i as int)),
                sum <= i * 0xffff_ffff_ffff_ffffu128,
                recent@.len() <= self.samples@.len(),
            decreases recent@.len() - i,
        {
            assert(recent@.subrange(0, i + 1).drop_last() =~= recent@.subrange(0, i as int));
            sum = sum + recent[i].1 as u128;
            i = i + 1;
        }
        assert(recent@.subrange(0, recent@.len() as int) == recent@);
        let first = recent[0].0;
        let last = recent[recent.len() - 1].0;
        let d = if last >= first { last - first } else { 0 };
        Some((sum, d))
    }
}

/// What a progress report is made of: the upload's position, the recent
/// samples' bytes and time span, and the bytes sampled since the start.
pub struct ProgressSample {
    pub bytes_uploaded: u64,
    pub total_bytes: u64,
    pub remaining_bytes: u64,
    pub recent: Option<(u128, u64)>,
    pub sampled_bytes: u64,
    pub start_time_ms: u64,
}

/// Follows the bytes read from a file and reports at most once per interval.
pub struct ProgressTracker {
    pub total_bytes: u64,
    /// Bytes the server held before this transfer.
    pub initial_offset: u64,
    pub bytes_transferred: u64,
    pub speed_calc: SpeedCalculator,
    pub last_update_ms: u64,
    pub update_interval_ms: u64,
}

impl ProgressTracker {
    pub open spec fn wf(&self) -> bool {
        &&& self.speed_calc.wf()
        &&& self.speed_calc.max_samples > 0
        &&& self.speed_calc.total_bytes <= self.bytes_transferred
    }

    /// A tracker for a file of `total_bytes` of which the server holds
    /// `initial_offset`, reporting once a second with 20 speed samples.
    pub fn new(total_bytes: u64, initial_offset: u64, now_ms: u64) -> (r: ProgressTracker)
        ensures
            r.wf(),
            r.total_bytes == total_bytes,
            r.initial_offset == initial_offset,
            r.bytes_transferred == 0,
            r.last_update_ms == now_ms,
            r.update_interval_ms == 1000,
            r.speed_calc.max_samples == 20,
            r.speed_calc.history().len() == 0,
    {
        ProgressTracker {
            total_bytes,
            initial_offset,
            bytes_transferred: 0,
            speed_calc: SpeedCalculator::new(20, now_ms),
            last_update_ms: now_ms,
            update_interval_ms: 1000,
        }
    }

    /// The same tracker with another reporting interval.
    pub fn with_update_interval(self, interval_ms: u64) -> (r: ProgressTracker)
        ensures
            r == (ProgressTracker { update_interval_ms: interval_ms, ..self }),
    {
        ProgressTracker { update_interval_ms: interval_ms, ..self }
    }

    /// Counts `bytes` more, read at `now_ms`. Where an interval has passed
    /// since the last report, the bytes become a speed sample and a report is
    /// given; else nothing is.
    pub fn record_bytes(&mut self, bytes: u64, now_ms: u64) -> (r: Option<ProgressSample>)
        requires
            old(self).wf(),
            old(self).initial_offset + old(self).bytes_transferred + bytes <= u64::MAX,
        ensures
            final(self).wf(),
            final(self).bytes_transferred == old(self).bytes_transferred + bytes,
            final(self).total_bytes == old(self).total_bytes,
            final(self).initial_offset == old(self).initial_offset,
            final(self).update_interval_ms == old(self).update_interval_ms,
            (r is Some) <==> (now_ms >= old(self).last_update_ms + old(self).update_interval_ms
                || (now_ms < old(self).last_update_ms && old(self).update_interval_ms == 0)),
            r is None ==> final(self).speed_calc == old(self).speed_calc && final(self).last_update_ms
                == old(self).last_update_ms,
            r matches Some(p) ==> {
                let uploaded = old(self).initial_offset + old(self).bytes_transferred + bytes;
                &&& final(self).speed_calc.history() == last_n(
                    old(self).speed_calc.history().push((now_ms, bytes)),
                    old(self).speed_calc.max_samples as nat,
                )
                &&& final(self).last_update_ms == now_ms
                &&& p.bytes_uploaded == uploaded
                &&& p.total_bytes == old(self).total_bytes
                &&& p.remaining_bytes == if old(self).total_bytes >= uploaded {
                    old(self).total_bytes - uploaded
                } else {
                    0
                }
                &&& p.sampled_bytes == final(self).speed_calc.total_bytes
                &&& p.start_time_ms == old(self).speed_calc.start_time_ms
                &&& p.recent == final(self).speed_calc.recent_totals_of()
            },
    {
        self.bytes_transferred = self.bytes_transferred + bytes;
        let since = if now_ms >= self.last_update_ms { now_ms - self.last_update_ms } else { 0 };
        if since < self.update_interval_ms {
            return None;
        }
        self.speed_calc.add_sample(bytes, now_ms);
        let actual_uploaded = self.initial_offset + self.bytes_transferred;
        let remaining_bytes = if self.total_bytes >= actual_uploaded {
            self.total_bytes - actual_uploaded
        } else {
            0
        };
        let recent = self.speed_calc.recent_totals();
        self.last_update_ms = now_ms;
        Some(
            ProgressSample {
                bytes_uploaded: actual_uploaded,
                total_bytes: self.total_bytes,
                remaining_bytes,
                recent,
                sampled_bytes: self.speed_calc.total_bytes,
                start_time_ms: self.speed_calc.start_time_ms,
            },
        )
    }
}

} // verus!
