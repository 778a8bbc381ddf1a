use bili_sync::status::{
    classify_error, word_failed, word_succeeded, word_waiting, DownloadErrorKind, DownloadStatus,
    ExecutionStatus, STATUS_MAX_RETRY, STATUS_OK,
};

#[test]
fn word_zero_decodes_to_waiting() {
    let s = DownloadStatus::from_word(0);
    for i in 0..5 {
        assert_eq!(s.get(i), 0);
    }
    assert!(s.is_waiting());
    assert!(!s.is_succeeded());
    assert!(!s.is_failed());
    assert_eq!(s.to_word(), 0);
}

#[test]
fn all_terminal_word_is_32767() {
    let mut s = DownloadStatus::new();
    for i in 0..5 {
        s.set(i, STATUS_OK);
    }
    assert_eq!(s.to_word(), 32767);
    assert!(s.is_succeeded());
    assert!(word_succeeded(32767));
}

#[test]
fn encode_decode_round_trip() {
    let mut s = DownloadStatus::new();
    s.set(0, 3);
    s.set(1, 7);
    s.set(2, 0);
    s.set(3, 1);
    s.set(4, 6);
    let word = s.to_word();
    assert_eq!(word, 3 + 8 * 7 + 512 + 4096 * 6);
    let d = DownloadStatus::from_word(word);
    assert_eq!(d.get(0), 3);
    assert_eq!(d.get(1), 7);
    assert_eq!(d.get(2), 0);
    assert_eq!(d.get(3), 1);
    assert_eq!(d.get(4), 6);
}

#[test]
fn upper_bits_are_discarded() {
    let s = DownloadStatus::from_word(0x8000 + 5);
    assert_eq!(s.get(0), 5);
    assert_eq!(s.to_word(), 5);
}

#[test]
fn reset_failed_clears_only_retry_counters() {
    let mut s = DownloadStatus::new();
    s.set(0, 7);
    s.set(1, 3);
    s.set(2, 6);
    s.set(3, 0);
    s.set(4, 7);
    let changed = s.reset_failed();
    assert!(changed);
    assert_eq!(s.get(0), 7);
    assert_eq!(s.get(1), 0);
    assert_eq!(s.get(2), 0);
    assert_eq!(s.get(3), 0);
    assert_eq!(s.get(4), 7);
}

#[test]
fn reset_failed_reports_no_change_on_terminal_word() {
    let mut s = DownloadStatus::from_word(32767);
    assert!(!s.reset_failed());
    assert_eq!(s.to_word(), 32767);
}

#[test]
fn force_reset_clears_terminal_slots_too() {
    let mut s = DownloadStatus::new();
    s.set(0, 7);
    s.set(1, 2);
    let changed = s.force_reset_failed();
    assert!(changed);
    for i in 0..5 {
        assert_eq!(s.get(i), 0);
    }
    assert!(!s.force_reset_failed());
}

#[test]
fn update_status_applies_each_rule() {
    let mut s = DownloadStatus::new();
    s.set(1, 6);
    s.set(2, 2);
    s.set(4, 4);
    let results = [
        ExecutionStatus::Skipped,
        ExecutionStatus::Failed(DownloadErrorKind::Transient),
        ExecutionStatus::Succeeded,
        ExecutionStatus::Ignored(DownloadErrorKind::NotFound),
        ExecutionStatus::Fixed(4),
    ];
    s.update_status(&results);
    assert_eq!(s.get(0), STATUS_OK);
    assert_eq!(s.get(1), STATUS_MAX_RETRY);
    assert_eq!(s.get(2), STATUS_OK);
    assert_eq!(s.get(3), STATUS_OK);
    assert_eq!(s.get(4), 4);
}

#[test]
fn failed_counter_saturates_at_six() {
    let mut s = DownloadStatus::new();
    for _ in 0..10 {
        s.update_status(&[
            ExecutionStatus::Failed(DownloadErrorKind::Transient),
            ExecutionStatus::Fixed(0),
            ExecutionStatus::Fixed(0),
            ExecutionStatus::Fixed(0),
            ExecutionStatus::Fixed(0),
        ]);
    }
    assert_eq!(s.get(0), STATUS_MAX_RETRY);
}

#[test]
fn reset_then_failed_retry_counts_one_failure() {
    let mut s = DownloadStatus::new();
    s.set(1, 5);
    assert!(s.reset_failed());
    assert_eq!(s.get(1), 0);
    s.update_status(&[
        ExecutionStatus::Fixed(0),
        ExecutionStatus::Failed(DownloadErrorKind::Transient),
        ExecutionStatus::Fixed(0),
        ExecutionStatus::Fixed(0),
        ExecutionStatus::Fixed(0),
    ]);
    assert_eq!(s.get(1), 1);
}

#[test]
fn word_predicates_on_mixed_words() {
    assert!(word_waiting(0));
    assert!(!word_waiting(8));
    assert!(word_failed(8));
    assert!(!word_failed(7 * 8));
    assert!(!word_succeeded(0));
    let mut s = DownloadStatus::new();
    for i in 0..5 {
        s.set(i, if i == 2 { 4 } else { 7 });
    }
    let w = s.to_word();
    assert!(word_failed(w));
    assert!(!word_succeeded(w));
}

#[test]
fn not_found_is_ignored_other_errors_fail() {
    assert!(matches!(
        classify_error(DownloadErrorKind::NotFound),
        ExecutionStatus::Ignored(DownloadErrorKind::NotFound)
    ));
    assert!(matches!(
        classify_error(DownloadErrorKind::Transient),
        ExecutionStatus::Failed(DownloadErrorKind::Transient)
    ));
    assert!(matches!(
        classify_error(DownloadErrorKind::LocalIo),
        ExecutionStatus::Failed(DownloadErrorKind::LocalIo)
    ));
}
