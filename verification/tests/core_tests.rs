use tunnel::keys::{action_for_key, KeyAction};
use tunnel::transfer::task::TransferTask;
use tunnel::transfer::types::{Priority, TransferContext, TransferId, TransferState};
use tunnel::transfer::types::TransferState::{Cancelled, Completed, Failed, Paused, Preparing, Queued, Transferring};
use tunnel::utils::format::{format_bytes, format_duration};

#[test]
fn test_transfer_state_transition() {

    // valid
    assert!(TransferTask::is_valid_transition(Queued, Preparing));
    assert!(TransferTask::is_valid_transition(Preparing, Transferring));
    assert!(TransferTask::is_valid_transition(Transferring, Completed));
    assert!(TransferTask::is_valid_transition(Transferring, Paused));
    assert!(TransferTask::is_valid_transition(Paused, Transferring));
    assert!(TransferTask::is_valid_transition(Failed, Queued));

    // invalid
    assert!(!TransferTask::is_valid_transition(Completed, Transferring));
    assert!(!TransferTask::is_valid_transition(Failed, Transferring));
    assert!(!TransferTask::is_valid_transition(Failed, Preparing));
    assert!(!TransferTask::is_valid_transition(Cancelled, Preparing));
}

#[test]
fn test_transfer_id_generation() {
    let id1 = TransferId::new();
    let id2 = TransferId::new();

    assert_ne!(id1, id2);
    assert_eq!(id1, id1);

    let id_str = id1.to_string();
    assert!(!id_str.is_empty());
}

#[test]
fn test_priority_ordering() {
    assert!(Priority::HIGH > Priority::NORMAL);
    assert!(Priority::NORMAL > Priority::LOW);
    assert_eq!(Priority::default(), Priority::NORMAL);
}

#[test]
fn transfer_id_text_is_the_hyphenated_uuid() {
    let id = TransferId(0x0123_4567_89ab_cdef_0011_2233_4455_6677);
    assert_eq!(id.to_string(), "01234567-89ab-cdef-0011-223344556677");
    assert_eq!(TransferId(0).to_string(), "00000000-0000-0000-0000-000000000000");
    let fresh = TransferId::new();
    let text = fresh.to_string();
    assert_eq!(text.len(), 36);
    assert_eq!(text, format!("{}", uuid::Uuid::from_u128(fresh.0)));
}

#[test]
fn priority_comparison_by_rank() {
    assert!(Priority::HIGH.is_higher_than(&Priority::LOW));
    assert!(!Priority::LOW.is_higher_than(&Priority::NORMAL));
    assert!(!Priority::NORMAL.is_higher_than(&Priority::NORMAL));
}

#[test]
fn can_to_follows_the_state_rules() {
    assert!(Queued.can_to(&Cancelled));
    assert!(Preparing.can_to(&Transferring));
    assert!(!Preparing.can_to(&Queued));
    assert!(Transferring.can_to(&Queued));
    assert!(!Completed.can_to(&Queued));
    assert!(Paused.can_to(&Transferring));
    assert!(!Paused.can_to(&Queued));
    assert!(Failed.can_to(&Queued));
    assert!(!Failed.can_to(&Transferring));
    assert!(!Cancelled.can_to(&Queued));
}

#[test]
fn fresh_context_is_empty() {
    let ctx = TransferContext::new("a.bin".to_string());
    assert_eq!(ctx.source, "a.bin");
    assert_eq!(ctx.destination, "");
    assert_eq!(ctx.total_bytes, 0);
    assert_eq!(ctx.transferred_bytes, 0);
}

#[test]
fn format_bytes_and_durations() {
    assert_eq!(format_bytes(1024), "1.00 KB");
    assert_eq!(format_bytes(1048576), "1.00 MB");
    assert_eq!(format_bytes(1073741824), "1.00 GB");
    assert_eq!(format_bytes(0), "0.00 B");
    assert_eq!(format_bytes(1023), "1023.00 B");
    assert_eq!(format_bytes(1536), "1.50 KB");
    assert_eq!(format_duration(59), "59s");
    assert_eq!(format_duration(120), "2m 0s");
    assert_eq!(format_duration(3661), "1h 1m 1s");
    assert_eq!(format_duration(0), "0s");
}

#[test]
fn format_bytes_matches_float_formatting() {
    let samples: [u64; 12] = [
        1, 999, 1025, 10_000, 123_456, 1_000_000, 5_368_709_120, 1_099_511_627_776,
        1_125_899_906_842_624, 18_446_744_073_709_551_615, 1_100_585_369_600, 1_610_612_736,
    ];
    let units = ["B", "KB", "MB", "GB", "TB"];
    for &b in samples.iter() {
        let mut size = b as f64;
        let mut unit = 0;
        while size >= 1024.0 && unit < units.len() - 1 {
            size /= 1024.0;
            unit += 1;
        }
        assert_eq!(format_bytes(b), format!("{:.2} {}", size, units[unit]));
    }
}

#[test]
fn keys_of_the_interactive_uploader() {
    assert_eq!(action_for_key('q'), Some(KeyAction::Quit));
    assert_eq!(action_for_key('p'), Some(KeyAction::PauseAll));
    assert_eq!(action_for_key('r'), Some(KeyAction::ResumeAll));
    assert_eq!(action_for_key('c'), Some(KeyAction::CancelAll));
    assert_eq!(action_for_key('a'), Some(KeyAction::AddSample));
    assert_eq!(action_for_key('l'), Some(KeyAction::List));
    assert_eq!(action_for_key('x'), None);
    assert_eq!(action_for_key('Q'), None);
}

#[test]
fn fresh_identifiers_are_version_four_uuids() {
    for _ in 0..8 {
        let t = TransferId::new();
        assert_eq!((t.0 >> 76) & 0xf, 4);
        assert_eq!((t.0 >> 62) & 0x3, 2);
        let u = tunnel::tus::types::UploadId::new();
        assert_eq!((u.0 >> 76) & 0xf, 4);
        assert_eq!((u.0 >> 62) & 0x3, 2);
    }
}
