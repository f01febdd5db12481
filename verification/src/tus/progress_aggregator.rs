//! The state of the progress aggregator: which uploads it follows, their
//! samples, and what each periodic report is computed from. Times are
//! milliseconds on a monotonic clock; the rates themselves, which are
//! floating point, are computed by the runtime from the integers given here.
use vstd::prelude::*;
use crate::tus::progress::last_n;
use crate::tus::types::UploadId;

verus! {

/// `a - b`, or 0 where `b` is later (a duration never goes below zero).
pub open spec fn since(a: u64, b: u64) -> u64 {
    if a >= b {
        (a - b) as u64
    } else {
        0
    }
}

fn elapsed(a: u64, b: u64) -> (r: u64)
    ensures
        r == since(a, b),
{
    if a >= b {
        a - b
    } else {
        0
    }
}

/// What the instant speed is to be computed from.
#[derive(Clone, Copy, Debug, PartialEq, Eq, Structural)]
pub enum SpeedBasis {
    /// Fewer than two samples: the speed is zero.
    TooFewSamples,
    /// In the first ten seconds after the first bytes: all bytes so far over
    /// the time since then, blended into the smoothed speed with weight 0.3.
    Initial { bytes: u64, elapsed_ms: u64 },
    /// Later: the bytes between the oldest sample of the window and the
    /// newest over the time between them, blended in with weight 0.15.
    Window { bytes: u64, elapsed_ms: u64 },
    /// The window spans 100 ms or less: the smoothed speed stays.
    Keep,
}

/// Where the window starts, scanning from sample `i` down: a sample more than
/// 5 s older than the newest ends the scan before it, one at least 1 s older
/// ends it on itself.
pub open spec fn window_scan(s: Seq<(u64, u64)>, newest: u64, i: int, best: int) -> int
    decreases i + 1,
{
    if i < 0 {
        best
    } else {
        let diff = since(newest, s[i].1);
        if diff > 5000 {
            best
        } else if diff >= 1000 {
            i
        } else {
            window_scan(s, newest, i - 1, i)
        }
    }
}

/// The oldest sample of the window.
pub open spec fn window_start(s: Seq<(u64, u64)>) -> int {
    window_scan(s, s.last().1, s.len() - 2, s.len() - 1)
}

/// Speed samples of one upload, (bytes so far, time), the newest 30 kept.
pub struct SpeedCalculator {
    pub samples: Vec<(u64, u64)>,
    pub max_samples: usize,
    /// When the first bytes were seen.
    pub first_sample_time: Option<u64>,
}

/// What the speed is computed from, for samples `s` first seeing bytes at
/// `first` and asked at `now`.
pub open spec fn speed_basis_of(s: Seq<(u64, u64)>, first: Option<u64>, now: u64) -> SpeedBasis {
    if s.len() < 2 {
        SpeedBasis::TooFewSamples
    } else if first is Some && since(now, first->0) < 10_000 {
        SpeedBasis::Initial { bytes: s.last().0, elapsed_ms: since(now, first->0) }
    } else {
        let o = s[window_start(s)];
        let t = since(s.last().1, o.1);
        if t > 100 {
            SpeedBasis::Window { bytes: since(s.last().0, o.0), elapsed_ms: t }
        } else {
            SpeedBasis::Keep
        }
    }
}

impl SpeedCalculator {
    pub open spec fn wf(&self) -> bool {
        &&& 0 < self.max_samples
        &&& self.samples@.len() <= self.max_samples
    }

    pub fn new() -> (r: SpeedCalculator)
        ensures
            r.wf(),
            r.samples@.len() == 0,
            r.max_samples == 30,
            r.first_sample_time is None,
    {
        SpeedCalculator { samples: Vec::new(), max_samples: 30, first_sample_time: None }
    }

    /// Records that `bytes_total` bytes were sent by `timestamp`; the time of
    /// the first bytes is kept.
    pub fn add_sample(&mut self, bytes_total: u64, timestamp: u64)
        requires
            old(self).wf(),
        ensures
            final(self).wf(),
            final(self).max_samples == old(self).max_samples,
            final(self).samples@ == last_n(
                old(self).samples@.push((bytes_total, timestamp)),
                old(self).max_samples as nat,
            ),
            final(self).first_sample_time == if old(self).first_sample_time is None && bytes_total
                > 0 {
                Some(timestamp)
            } else {
                old(self).first_sample_time
            },
    {
        if self.first_sample_time.is_none() && bytes_total > 0 {
            self.first_sample_time = Some(timestamp);
        }
        let ghost pushed = self.samples@.push((bytes_total, timestamp));
        self.samples.push((bytes_total, timestamp));
        if self.samples.len() > self.max_samples {
            self.samples.remove(0);
            assert(self.samples@ =~= pushed.subrange(1, pushed.len() as int));
        }
    }

    /// What the instant speed at `now` is computed from.
    pub fn speed_basis(&self, now: u64) -> (r: SpeedBasis)
        requires
            self.wf(),
        ensures
            r == speed_basis_of(self.samples@, self.first_sample_time, now),
    {
        let len = self.samples.len();
        if len < 2 {
            return SpeedBasis::TooFewSamples;
        }
        if let Some(first_time) = self.first_sample_time {
            let e = elapsed(now, first_time);
            if e < 10_000 {
                let last_bytes = self.samples[len - 1].0;
                return SpeedBasis::Initial { bytes: last_bytes, elapsed_ms: e };
            }
        }
        let newest = self.samples[len - 1];
        let ghost s = self.samples@;
        let mut oldest_idx: usize = len - 1;
        let mut i: usize = len - 1;
        let mut done = false;
        while i > 0 && !done
            invariant
                s == self.samples@,
                len == s.len(),
                len >= 2,
                newest == s.last(),
                i <= len - 1,
                oldest_idx <= len - 1,
                !done ==> window_start(s) == window_scan(s, newest.1, i - 1, oldest_idx as int),
                done ==> window_start(s) == oldest_idx,
            decreases 2 * i + (if done { 0int } else { 1int }),
        {
            let t = self.samples[i - 1].1;
            let diff = elapsed(newest.1, t);
            if diff > 5000 {
                done = true;
            } else {
                oldest_idx = i - 1;
                if diff >= 1000 {
                    done = true;
                } else {
                    i = i - 1;
                }
            }
        }
        assert(window_start(s) == oldest_idx);
        let oldest = self.samples[oldest_idx];
        let time_diff = elapsed(newest.1, oldest.1);
        if time_diff > 100 {
            SpeedBasis::Window { bytes: elapsed(newest.0, oldest.0), elapsed_ms: time_diff }
        } else {
            SpeedBasis::Keep
        }
    }
}

/// What the aggregator knows of one upload.
pub struct TaskTracker {
    pub upload_id: UploadId,
    pub total_bytes: u64,
    pub bytes_uploaded: u64,
    pub start_time: u64,
    pub last_update_time: u64,
    pub speed_calculator: SpeedCalculator,
}

impl TaskTracker {
    pub open spec fn wf(&self) -> bool {
        self.speed_calculator.wf()
    }

    pub fn new(upload_id: UploadId, total_bytes: u64, now: u64) -> (r: TaskTracker)
        ensures
            r.wf(),
            r.upload_id == upload_id,
            r.total_bytes == total_bytes,
            r.bytes_uploaded == 0,
            r.start_time == now,
            r.last_update_time == now,
            r.speed_calculator.samples@.len() == 0,
            r.speed_calculator.first_sample_time is None,
    {
        TaskTracker {
            upload_id,
            total_bytes,
            bytes_uploaded: 0,
            start_time: now,
            last_update_time: now,
            speed_calculator: SpeedCalculator::new(),
        }
    }

    /// Records the upload's position at `timestamp`.
    pub fn update(&mut self, bytes_uploaded: u64, timestamp: u64)
        requires
            old(self).wf(),
        ensures
            final(self).wf(),
            final(self).upload_id == old(self).upload_id,
            final(self).total_bytes == old(self).total_bytes,
            final(self).start_time == old(self).start_time,
            final(self).bytes_uploaded == bytes_uploaded,
            final(self).last_update_time == timestamp,
            final(self).speed_calculator.samples@ == last_n(
                old(self).speed_calculator.samples@.push((bytes_uploaded, timestamp)),
                old(self).speed_calculator.max_samples as nat,
            ),
    {
        self.bytes_uploaded = bytes_uploaded;
        self.last_update_time = timestamp;
        self.speed_calculator.add_sample(bytes_uploaded, timestamp);
    }

    /// The bytes still to send (none where more than the total was sent).
    pub fn remaining(&self) -> (r: u64)
        ensures
            r == since(self.total_bytes, self.bytes_uploaded),
    {
        elapsed(self.total_bytes, self.bytes_uploaded)
    }
}

/// What the aggregator is told.
pub enum AggregatorCommand {
    RegisterTask { upload_id: UploadId, total_bytes: u64 },
    UnregisterTask { upload_id: UploadId },
    UpdateProgress { upload_id: UploadId, bytes_uploaded: u64, timestamp: u64 },
    SetEnabled(bool),
}

/// The ids of the followed uploads, in order.
pub open spec fn tracker_ids(t: Seq<TaskTracker>) -> Seq<UploadId> {
    t.map_values(|x: TaskTracker| x.upload_id)
}

/// The aggregator's state: one tracker per upload, whether it reports, and
/// the number of uploads it follows.
pub struct AggregatorWorker {
    pub tasks: Vec<TaskTracker>,
    pub update_interval_ms: u64,
    pub enabled: bool,
    pub active_task_count: usize,
}

/// The sum of the totals and of the uploaded bytes of the trackers.
pub open spec fn byte_totals(t: Seq<TaskTracker>) -> (nat, nat)
    decreases t.len(),
{
    if t.len() == 0 {
        (0, 0)
    } else {
        let r = byte_totals(t.drop_last());
        (r.0 + t.last().total_bytes as nat, r.1 + t.last().bytes_uploaded as nat)
    }
}

impl AggregatorWorker {
    pub open spec fn wf(&self) -> bool {
        &&& crate::idlist::distinct(tracker_ids(self.tasks@))
        &&& forall|i: int| 0 <= i < self.tasks@.len() ==> (#[trigger] self.tasks@[i]).wf()
        &&& self.tasks@.len() == self.active_task_count
    }

    /// A worker that follows nothing, reports every second and is enabled.
    pub fn new() -> (r: AggregatorWorker)
        ensures
            r.wf(),
            r.tasks@.len() == 0,
            r.update_interval_ms == 1000,
            r.enabled,
            r.active_task_count == 0,
    {
        AggregatorWorker { tasks: Vec::new(), update_interval_ms: 1000, enabled: true, active_task_count: 0 }
    }

    fn find(&self, upload_id: UploadId) -> (r: Option<usize>)
        ensures
            r matches Some(i) ==> i < self.tasks@.len() && self.tasks@[i as int].upload_id == upload_id,
            r is None ==> !tracker_ids(self.tasks@).contains(upload_id),
    {
        let mut i: usize = 0;
        while i < self.tasks.len()
            invariant
                i <= self.tasks@.len(),
                forall|k: int| 0 <= k < i ==> self.tasks@[k].upload_id != upload_id,
            decreases self.tasks@.len() - i,
        {
            if self.tasks[i].upload_id == upload_id {
                return Some(i);
            }
            i = i + 1;
        }
        proof {
            if tracker_ids(self.tasks@).contains(upload_id) {
                let k = choose|k: int| 0 <= k < tracker_ids(self.tasks@).len() && tracker_ids(self.tasks@)[k] == upload_id;
                assert(self.tasks@[k].upload_id == upload_id);
            }
        }
        None
    }

    /// Carries out one command at `now`. Registering an upload that is
    /// followed already starts it afresh; the count of active uploads grows
    /// only for an upload not followed before.
    pub fn handle_command(&mut self, command: AggregatorCommand, now: u64)
        requires
            old(self).wf(),
        ensures
            final(self).wf(),
            final(self).update_interval_ms == old(self).update_interval_ms,
            match command {
                AggregatorCommand::RegisterTask { upload_id, total_bytes } => {
                    &&& tracker_ids(final(self).tasks@).to_set() == tracker_ids(old(self).tasks@).to_set().insert(
                        upload_id,
                    )
                    &&& exists|i: int|
                        0 <= i < final(self).tasks@.len() && (#[trigger] final(self).tasks@[i]).upload_id
                            == upload_id && final(self).tasks@[i].total_bytes == total_bytes
                            && final(self).tasks@[i].bytes_uploaded == 0
                            && final(self).tasks@[i].start_time == now
                    &&& final(self).active_task_count == if tracker_ids(old(self).tasks@).contains(
                        upload_id,
                    ) {
                        old(self).active_task_count
                    } else {
                        (old(self).active_task_count + 1) as usize
                    }
                    &&& final(self).enabled == old(self).enabled
                },
                AggregatorCommand::UnregisterTask { upload_id } => {
                    &&& tracker_ids(final(self).tasks@) == crate::idlist::without(
                        tracker_ids(old(self).tasks@),
                        upload_id,
                    )
                    &&& final(self).active_task_count == if tracker_ids(old(self).tasks@).contains(
                        upload_id,
                    ) {
                        (old(self).active_task_count - 1) as usize
                    } else {
                        old(self).active_task_count
                    }
                    &&& final(self).enabled == old(self).enabled
                },
                AggregatorCommand::UpdateProgress { upload_id, bytes_uploaded, timestamp } => {
                    &&& tracker_ids(final(self).tasks@) == tracker_ids(old(self).tasks@)
                    &&& final(self).active_task_count == old(self).active_task_count
                    &&& final(self).enabled == old(self).enabled
                    &&& forall|i: int|
                        0 <= i < final(self).tasks@.len() ==> if (#[trigger] old(self).tasks@[i]).upload_id
                            == upload_id {
                            final(self).tasks@[i].bytes_uploaded == bytes_uploaded
                                && final(self).tasks@[i].last_update_time == timestamp
                        } else {
                            final(self).tasks@[i] == old(self).tasks@[i]
                        }
                },
                AggregatorCommand::SetEnabled(enabled) => {
                    &&& final(self).tasks@ == old(self).tasks@
                    &&& final(self).active_task_count == old(self).active_task_count
                    &&& final(self).enabled == enabled
                },
            },
    {
        match command {
            AggregatorCommand::RegisterTask { upload_id, total_bytes } => {
                let tracker = TaskTracker::new(upload_id, total_bytes, now);
                match self.find(upload_id) {
                    Some(i) => {
                        let ghost before = self.tasks@;
                        self.tasks.set(i, tracker);
                        proof {
                            assert(tracker_ids(self.tasks@) =~= tracker_ids(before));
                            assert(tracker_ids(before).contains(upload_id)) by {
                                assert(tracker_ids(before)[i as int] == upload_id);
                            }
                            assert(tracker_ids(self.tasks@).to_set() =~= tracker_ids(before).to_set().insert(upload_id));
                            assert(self.tasks@[i as int].upload_id == upload_id);
                        }
                    },
                    None => {
                        let ghost before = self.tasks@;
                        self.tasks.push(tracker);
                        proof {
                            assert(tracker_ids(self.tasks@) =~= tracker_ids(before).push(upload_id));
                            assert(tracker_ids(self.tasks@).to_set() =~= tracker_ids(before).to_set().insert(upload_id)) by {
                                assert forall|x: UploadId| tracker_ids(self.tasks@).to_set().contains(x) <==> tracker_ids(before).to_set().insert(upload_id).contains(x) by {
                                    if tracker_ids(self.tasks@).contains(x) && x != upload_id {
                                        let k = choose|k: int| 0 <= k < tracker_ids(self.tasks@).len() && tracker_ids(self.tasks@)[k] == x;
                                        assert(k < before.len());
                                        assert(tracker_ids(before)[k] == x);
                                    }
                                    if tracker_ids(before).contains(x) {
                                        let k = choose|k: int| 0 <= k < tracker_ids(before).len() && tracker_ids(before)[k] == x;
                                        assert(tracker_ids(self.tasks@)[k] == x);
                                    }
                                    if x == upload_id {
                                        assert(tracker_ids(self.tasks@)[before.len() as int] == x);
                                    }
                                }
                            }
                            assert(self.tasks@[before.len() as int].upload_id == upload_id);
                        }
                        self.active_task_count = self.tasks.len();
                    },
                }
            },
            AggregatorCommand::UnregisterTask { upload_id } => {
                match self.find(upload_id) {
                    Some(i) => {
                        let ghost before = self.tasks@;
                        self.tasks.remove(i);
                        proof {
                            crate::idlist::lemma_remove_distinct_at(tracker_ids(before), i as int);
                            assert(tracker_ids(self.tasks@) =~= tracker_ids(before).remove(i as int));
                            assert(tracker_ids(before).contains(upload_id)) by {
                                assert(tracker_ids(before)[i as int] == upload_id);
                            }
                        }
                        self.active_task_count = self.active_task_count - 1;
                    },
                    None => {
                        proof {
                            crate::idlist::lemma_without_absent(tracker_ids(self.tasks@), upload_id);
                        }
                    },
                }
            },
            AggregatorCommand::UpdateProgress { upload_id, bytes_uploaded, timestamp } => {
                match self.find(upload_id) {
                    Some(i) => {
                        let ghost before = self.tasks@;
                        let mut t = self.tasks.remove(i);
                        t.update(bytes_uploaded, timestamp);
                        self.tasks.insert(i, t);
                        proof {
                            assert(self.tasks@ =~= before.update(i as int, self.tasks@[i as int]));
                            assert(tracker_ids(self.tasks@) =~= tracker_ids(before));
                            assert forall|k: int| 0 <= k < self.tasks@.len() && (#[trigger] before[k]).upload_id == upload_id implies k == i by {
                                if k != i {
                                    assert(tracker_ids(before)[k] == tracker_ids(before)[i as int]);
                                }
                            }
                        }
                    },
                    None => {
                        proof {
                            assert forall|k: int| 0 <= k < self.tasks@.len() implies (#[trigger] self.tasks@[k]).upload_id != upload_id by {
                                assert(tracker_ids(self.tasks@)[k] == self.tasks@[k].upload_id);
                            }
                        }
                    },
                }
            },
            AggregatorCommand::SetEnabled(enabled) => {
                self.enabled = enabled;
            },
        }
    }

    /// Whether a periodic report is due: reporting is on and an upload is
    /// followed.
    pub fn should_report(&self) -> (r: bool)
        ensures
            r == (self.enabled && self.tasks@.len() > 0),
    {
        self.enabled && self.tasks.len() > 0
    }

    /// The sums of the totals and of the uploaded bytes over all followed
    /// uploads.
    pub fn report_totals(&self) -> (r: (u64, u64))
        requires
            byte_totals(self.tasks@).0 <= u64::MAX,
            byte_totals(self.tasks@).1 <= u64::MAX,
        ensures
            r.0 == byte_totals(self.tasks@).0,
            r.1 == byte_totals(self.tasks@).1,
    {
        let mut total_bytes: u64 = 0;
        let mut total_uploaded: u64 = 0;
        let mut i: usize = 0;
        while i < self.tasks.len()
            invariant
                i <= self.tasks@.len(),
                byte_totals(self.tasks@).0 <= u64::MAX,
                byte_totals(self.tasks@).1 <= u64::MAX,
                total_bytes == byte_totals(self.tasks@.subrange(0, i as int)).0,
                total_uploaded == byte_totals(self.tasks@.subrange(0, i as int)).1,
            decreases self.tasks@.len() - i,
        {
            proof {
                assert(self.tasks@.subrange(0, i + 1).drop_last() =~= self.tasks@.subrange(0, i as int));
                lemma_byte_totals_prefix(self.tasks@, i + 1);
            }
            total_bytes = total_bytes + self.tasks[i].total_bytes;
            total_uploaded = total_uploaded + self.tasks[i].bytes_uploaded;
            i = i + 1;
        }
        assert(self.tasks@.subrange(0, self.tasks@.len() as int) == self.tasks@);
        (total_bytes, total_uploaded)
    }
}

/// The sums over a prefix are at most the sums over the whole.
pub proof fn lemma_byte_totals_prefix(t: Seq<TaskTracker>, n: int)
    requires
        0 <= n <= t.len(),
    ensures
        byte_totals(t.subrange(0, n)).0 <= byte_totals(t).0,
        byte_totals(t.subrange(0, n)).1 <= byte_totals(t).1,
    decreases t.len(),
{
    if n < t.len() {
        assert(t.drop_last().subrange(0, n) =~= t.subrange(0, n));
        lemma_byte_totals_prefix(t.drop_last(), n);
    } else {
        assert(t.subrange(0, n) =~= t);
    }
}

} // verus!
