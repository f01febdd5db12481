//! Counting the bytes of a file stream, and the progress of one transfer.
//! Times are milliseconds on a monotonic clock; rates, which are floating
//! point, are computed by the runtime from the integers given here.
use vstd::prelude::*;

verus! {

/// What a file stream has counted: the size of the last chunk it gave, not
/// yet reported.
pub struct FileStreamCounter {
    pub read_bytes: Option<u64>,
}

impl FileStreamCounter {
    pub fn new() -> (r: FileStreamCounter)
        ensures
            r.read_bytes is None,
    {
        FileStreamCounter { read_bytes: None }
    }

    /// A chunk of `len` bytes came: the size of the one before, if any, is
    /// reported now.
    pub fn on_chunk(&mut self, len: u64) -> (r: Option<u64>)
        ensures
            r == old(self).read_bytes,
            final(self).read_bytes == Some(len),
    {
        let before = self.read_bytes;
        self.read_bytes = Some(len);
        before
    }

    /// The stream ended: the size of the last chunk is reported, and nothing
    /// is left to report. A stream that gave no chunk has nothing to report,
    /// and must not end here.
    pub fn on_end(&mut self) -> (r: u64)
        requires
            old(self).read_bytes is Some,
        ensures
            r == old(self).read_bytes->0,
            final(self).read_bytes == Some(0u64),
    {
        let last = match self.read_bytes {
            Some(n) => n,
            None => 0,
        };
        self.read_bytes = Some(0);
        last
    }
}

/// The samples of a transfer: (bytes so far, time).
pub open spec fn kept_after(s: Seq<(u64, u64)>, cutoff: u64) -> Seq<(u64, u64)> {
    s.filter(|x: (u64, u64)| x.1 > cutoff)
}

/// The progress of one transfer: the bytes so far and up to five recent
/// samples from the last five seconds.
pub struct TaskProgress {
    pub samples: Vec<(u64, u64)>,
    pub max_samples: usize,
    pub window_time_ms: u64,
    pub bytes_transferred: u64,
    pub total_bytes: u64,
    pub bytes_last_update: u64,
    pub start_time: u64,
    pub last_update: u64,
}

impl TaskProgress {
    /// The progress of a transfer of `total_bytes` starting at `now`.
    pub fn new(total_bytes: u64, now: u64) -> (r: TaskProgress)
        ensures
            r.bytes_transferred == 0,
            r.total_bytes == total_bytes,
            r.window_time_ms == 5000,
            r.samples@.len() == 0,
            r.max_samples == 5,
            r.bytes_last_update == now,
            r.start_time == now,
            r.last_update == now,
    {
        TaskProgress {
            bytes_transferred: 0,
            total_bytes,
            window_time_ms: 5000,
            samples: Vec::new(),
            max_samples: 5,
            bytes_last_update: now,
            start_time: now,
            last_update: now,
        }
    }

    /// Counts `bytes` more at `now`. Less than a second after the last
    /// sample nothing else changes; else a sample is taken, the oldest goes
    /// beyond five samples, and samples from before the window go.
    pub fn update(&mut self, bytes: u64, now: u64)
        requires
            old(self).bytes_transferred + bytes <= u64::MAX,
            now >= old(self).window_time_ms,
        ensures
            final(self).bytes_transferred == old(self).bytes_transferred + bytes,
            final(self).total_bytes == old(self).total_bytes,
            final(self).max_samples == old(self).max_samples,
            final(self).window_time_ms == old(self).window_time_ms,
            final(self).start_time == old(self).start_time,
            final(self).bytes_last_update == now,
            (now >= old(self).last_update && now - old(self).last_update < 1000) ==> {
                &&& final(self).samples@ == old(self).samples@
                &&& final(self).last_update == old(self).last_update
            },
            !(now >= old(self).last_update && now - old(self).last_update < 1000) ==> {
                let pushed = old(self).samples@.push((final(self).bytes_transferred, now));
                let bounded = if pushed.len() > old(self).max_samples {
                    pushed.drop_first()
                } else {
                    pushed
                };
                &&& final(self).samples@ == kept_after(bounded, (now - old(self).window_time_ms) as u64)
                &&& final(self).last_update == now
            },
    {
        self.bytes_transferred = self.bytes_transferred + bytes;
        if now >= self.last_update && now - self.last_update < 1000 {
            self.bytes_last_update = now;
            return;
        }
        let ghost pushed = self.samples@.push((self.bytes_transferred, now));
        self.samples.push((self.bytes_transferred, now));
        if self.samples.len() > self.max_samples {
            self.samples.remove(0);
            assert(self.samples@ =~= pushed.drop_first());
        }
        let cutoff = now - self.window_time_ms;
        let ghost bounded = self.samples@;
        let mut kept: Vec<(u64, u64)> = Vec::new();
        let mut i: usize = 0;
        while i < self.samples.len()
            invariant
                bounded == self.samples@,
                i <= bounded.len(),
                kept@ == kept_after(bounded.subrange(0, i as int), cutoff),
            decreases bounded.len() - i,
        {
            let x = self.samples[i];
            proof {
                let f = |x: (u64, u64)| x.1 > cutoff;
                assert(bounded.subrange(0, i + 1) =~= bounded.subrange(0, i as int).push(x));
                bounded.subrange(0, i as int).lemma_filter_push(x, f);
            }
            if x.1 > cutoff {
                kept.push(x);
            }
            i = i + 1;
        }
        assert(bounded.subrange(0, bounded.len() as int) == bounded);
        self.samples = kept;
        self.last_update = now;
        self.bytes_last_update = now;
    }

    /// The bytes between the oldest and the newest sample and the time
    /// between them, where there are two samples or more.
    pub fn speed_window(&self) -> (r: Option<(u64, u64)>)
        ensures
            self.samples@.len() < 2 ==> r is None,
            self.samples@.len() >= 2 ==> {
                let first = self.samples@[0];
                let last = self.samples@.last();
                r == Some(
                    (
                        if last.0 >= first.0 {
                            (last.0 - first.0) as u64
                        } else {
                            0u64
                        },
                        if last.1 >= first.1 {
                            (last.1 - first.1) as u64
                        } else {
                            0u64
                        },
                    ),
                )
            },
    {
        let len = self.samples.len();
        if len < 2 {
            return None;
        }
        let first = self.samples[0];
        let last = self.samples[len - 1];
        let bytes = if last.0 >= first.0 { last.0 - first.0 } else { 0 };
        let time = if last.1 >= first.1 { last.1 - first.1 } else { 0 };
        Some((bytes, time))
    }
}

} // verus!
