use tunnel::progress::progress::{FileStreamCounter, TaskProgress};
use tunnel::tus::progress::{ProgressTracker, SpeedCalculator};
use tunnel::tus::progress_aggregator::{AggregatorCommand, AggregatorWorker, SpeedBasis, SpeedCalculator as AggregatorSpeed};
use tunnel::tus::progress_stream::ProgressCounter;
use tunnel::tus::types::UploadId;
use tunnel::tus::worker::{plan_after_offset, UploadPlan};
use tunnel::utils::progress::{ProgressTracker as SimpleTracker, SpeedCalculator as WindowSpeed};

#[test]
fn ring_buffer_keeps_the_newest_samples() {
    let mut s = SpeedCalculator::new(3, 0);
    for i in 1..=5u64 {
        s.add_sample(10 * i, 1000 * i);
    }
    let recent = s.recent_samples();
    assert_eq!(recent, vec![(4000, 40), (5000, 50)]);
    let history: Vec<_> = (0..3).map(|j| s.history_at(j)).collect();
    assert_eq!(history, vec![(3000, 30), (4000, 40), (5000, 50)]);
    assert_eq!(s.total_bytes, 150);
    assert_eq!(s.recent_totals(), Some((90, 1000)));
}

#[test]
fn recent_quarter_of_a_full_buffer() {
    let mut s = SpeedCalculator::new(8, 0);
    for i in 1..=11u64 {
        s.add_sample(i, 100 * i);
    }
    // the eight newest are 4..=11; a quarter of them is two
    assert_eq!(s.recent_samples(), vec![(1000, 10), (1100, 11)]);
    let mut big = SpeedCalculator::new(20, 0);
    for i in 1..=20u64 {
        big.add_sample(1, i);
    }
    assert_eq!(big.recent_samples().len(), 5);
}

#[test]
fn tracker_reports_once_per_interval() {
    let mut t = ProgressTracker::new(100, 10, 0);
    assert!(t.record_bytes(5, 500).is_none());
    let first = t.record_bytes(5, 1000).unwrap();
    assert_eq!(first.bytes_uploaded, 20);
    assert_eq!(first.remaining_bytes, 80);
    assert_eq!(first.recent, None);
    assert!(t.record_bytes(5, 1500).is_none());
    let second = t.record_bytes(5, 2100).unwrap();
    assert_eq!(second.bytes_uploaded, 30);
    assert_eq!(second.recent, Some((10, 1100)));
    assert_eq!(second.sampled_bytes, 10);
    let t2 = ProgressTracker::new(1, 0, 0).with_update_interval(0);
    assert_eq!(t2.update_interval_ms, 0);
}

#[test]
fn aggregator_follows_registered_uploads() {
    let mut w = AggregatorWorker::new();
    let a = UploadId(1);
    let b = UploadId(2);
    w.handle_command(AggregatorCommand::RegisterTask { upload_id: a, total_bytes: 100 }, 0);
    w.handle_command(AggregatorCommand::RegisterTask { upload_id: b, total_bytes: 50 }, 0);
    assert_eq!(w.active_task_count, 2);
    // registering a followed upload again starts it afresh without counting it twice
    w.handle_command(AggregatorCommand::RegisterTask { upload_id: b, total_bytes: 50 }, 0);
    assert_eq!(w.active_task_count, 2);
    assert_eq!(w.tasks.len(), 2);
    w.handle_command(AggregatorCommand::UpdateProgress { upload_id: a, bytes_uploaded: 40, timestamp: 10 }, 10);
    assert_eq!(w.report_totals(), (150, 40));
    assert!(w.should_report());
    w.handle_command(AggregatorCommand::SetEnabled(false), 11);
    assert!(!w.should_report());
    w.handle_command(AggregatorCommand::UnregisterTask { upload_id: a }, 12);
    w.handle_command(AggregatorCommand::UnregisterTask { upload_id: a }, 13);
    assert_eq!(w.active_task_count, 1);
    assert_eq!(w.report_totals(), (50, 0));
    assert_eq!(w.tasks[0].remaining(), 50);
}

#[test]
fn aggregator_speed_basis() {
    let mut s = AggregatorSpeed::new();
    assert_eq!(s.speed_basis(0), SpeedBasis::TooFewSamples);
    s.add_sample(0, 0);
    s.add_sample(1000, 1000);
    // the first bytes came at 1000: for ten seconds the average is used
    assert_eq!(s.speed_basis(3000), SpeedBasis::Initial { bytes: 1000, elapsed_ms: 2000 });
    for i in 2..=20u64 {
        s.add_sample(1000 * i, 1000 * i);
    }
    assert_eq!(s.samples.len(), 21);
    // newest at 20 s; the sample one second older starts the window
    assert_eq!(s.speed_basis(20_000), SpeedBasis::Window { bytes: 1000, elapsed_ms: 1000 });
    let mut t = AggregatorSpeed::new();
    t.add_sample(5, 0);
    t.add_sample(6, 50);
    assert_eq!(t.speed_basis(20_000), SpeedBasis::Keep);
    for i in 0..40u64 {
        t.add_sample(i, i);
    }
    assert_eq!(t.samples.len(), 30);
}

#[test]
fn counters_of_streams() {
    let mut c = FileStreamCounter::new();
    assert_eq!(c.on_chunk(10), None);
    assert_eq!(c.on_chunk(7), Some(10));
    assert_eq!(c.on_end(), 7);
    assert_eq!(c.read_bytes, Some(0));

    let (mut p, first) = ProgressCounter::new(UploadId(3), 100);
    assert_eq!(first, Some(100));
    assert_eq!(p.on_chunk(0), None);
    assert_eq!(p.on_chunk(20), Some(120));
    assert_eq!(p.on_finish(), 120);
    let (_, none) = ProgressCounter::new(UploadId(3), 0);
    assert_eq!(none, None);
}

#[test]
fn task_progress_samples_once_a_second() {
    let mut p = TaskProgress::new(1000, 10_000);
    p.update(100, 10_500);
    assert!(p.samples.is_empty());
    p.update(100, 11_000);
    p.update(100, 12_000);
    assert_eq!(p.samples, vec![(200, 11_000), (300, 12_000)]);
    assert_eq!(p.speed_window(), Some((100, 1000)));
    p.update(0, 20_000);
    assert_eq!(p.samples, vec![(300, 20_000)]);
    assert_eq!(p.bytes_transferred, 300);
}

#[test]
fn window_speed_and_tracker() {
    let mut s = WindowSpeed::new(5000);
    s.add_data_point(0, 10_000);
    s.add_data_point(500, 11_000);
    assert_eq!(s.speed_window(), Some((500, 1000)));
    s.add_data_point(900, 20_000);
    assert_eq!(s.history, vec![(20_000, 900)]);
    let mut t = SimpleTracker::new(1000, 10_000);
    t.add_bytes(100, 10_000);
    t.add_bytes(100, 11_000);
    assert_eq!(t.transferred_bytes, 200);
    assert_eq!(t.remaining(), 800);
    t.update(1500, 12_000);
    assert_eq!(t.remaining(), 0);
}

#[test]
fn worker_plans() {
    assert_eq!(plan_after_offset("u".to_string(), 10, 10), UploadPlan::AlreadyComplete("u".to_string()));
    assert_eq!(plan_after_offset("u".to_string(), 10, 3), UploadPlan::Stream { offset: 3 });
}
