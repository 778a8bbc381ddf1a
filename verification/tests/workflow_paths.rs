use bili_sync::status::{DownloadErrorKind, DownloadStatus, ExecutionStatus};
use bili_sync::workflow::{
    apply_retry_result, derive_page_base, page_dimension, page_file_paths, page_stem,
    pages_aggregate, strip_suffix, subtask_should_run, update_pages_aggregate, upper_file_paths,
    video_is_skipped,
};

fn status_with_slot1(v: u32) -> DownloadStatus {
    let mut s = DownloadStatus::new();
    s.set(1, v);
    s
}

#[test]
fn aggregate_is_the_minimum_of_page_video_slots() {
    let pages = vec![status_with_slot1(7), status_with_slot1(3), status_with_slot1(5)];
    assert_eq!(pages_aggregate(&pages), 3);
    assert_eq!(pages_aggregate(&Vec::new()), 7);
    let mut video = DownloadStatus::new();
    update_pages_aggregate(&mut video, &pages);
    assert_eq!(video.get(4), 3);
}

#[test]
fn one_page_stuck_at_404_holds_the_video_back() {
    // Three single-page videos; the second one's file fetch fails.
    let mut page = DownloadStatus::new();
    apply_retry_result(&mut page, 1, ExecutionStatus::Failed(DownloadErrorKind::Transient));
    assert_eq!(page.get(1), 1);

    let mut video = DownloadStatus::new();
    for i in 0..4 {
        apply_retry_result(&mut video, i, ExecutionStatus::Succeeded);
    }
    update_pages_aggregate(&mut video, &vec![page]);
    assert_eq!(video.get(4), 1);
    assert!(!video.is_succeeded());

    // The next cycle fails again: the counter advances to 2.
    let mut page = status_with_slot1(1);
    apply_retry_result(&mut page, 1, ExecutionStatus::Failed(DownloadErrorKind::Transient));
    assert_eq!(page.get(1), 2);

    // A forced reset clears the counter to 0.
    let mut page = status_with_slot1(2);
    assert!(page.force_reset_failed());
    assert_eq!(page.get(1), 0);
}

#[test]
fn retry_masks_every_other_slot() {
    let mut s = DownloadStatus::new();
    s.set(0, 7);
    s.set(1, 2);
    s.set(3, 4);
    apply_retry_result(&mut s, 2, ExecutionStatus::Succeeded);
    assert_eq!(s.get(0), 7);
    assert_eq!(s.get(1), 2);
    assert_eq!(s.get(2), 7);
    assert_eq!(s.get(3), 4);
    assert_eq!(s.get(4), 0);
}

#[test]
fn terminal_slots_short_circuit() {
    assert!(!subtask_should_run(7));
    assert!(subtask_should_run(0));
    assert!(subtask_should_run(3));
    assert!(video_is_skipped(false, false));
    assert!(video_is_skipped(true, true));
    assert!(!video_is_skipped(true, false));
}

#[test]
fn missing_dimension_yields_nothing() {
    assert!(page_dimension(None, None).is_none());
    assert!(page_dimension(Some(1920), None).is_none());
    assert!(page_dimension(None, Some(1080)).is_none());
    let d = page_dimension(Some(1920), Some(1080)).unwrap();
    assert_eq!(d.width, 1920);
    assert_eq!(d.height, 1080);
    assert_eq!(d.rotate, 0);
}

#[test]
fn page_stems_pad_the_episode_number() {
    assert_eq!(page_stem(true, "My Video", 1), "My Video");
    assert_eq!(page_stem(false, "My Video", 1), "My Video - S01E01");
    assert_eq!(page_stem(false, "My Video", 12), "My Video - S01E12");
    assert_eq!(page_stem(false, "My Video", 123), "My Video - S01E123");
}

#[test]
fn single_page_files_sit_at_the_video_root() {
    let p = page_file_paths(true, "/srv/bili/fav/Title", "Title", 1);
    assert_eq!(p.poster, "/srv/bili/fav/Title/Title-poster.jpg");
    assert_eq!(p.video, "/srv/bili/fav/Title/Title.mp4");
    assert_eq!(p.nfo, "/srv/bili/fav/Title/Title.nfo");
    assert_eq!(p.danmaku, "/srv/bili/fav/Title/Title.zh-CN.default.ass");
    assert_eq!(p.fanart.unwrap(), "/srv/bili/fav/Title/Title-fanart.jpg");
    assert_eq!(p.subtitle, "/srv/bili/fav/Title/Title.srt");
}

#[test]
fn multi_page_files_sit_under_season_one() {
    let p = page_file_paths(false, "/srv/bili/fav/Title", "Title", 2);
    assert_eq!(p.poster, "/srv/bili/fav/Title/Season 1/Title - S01E02-thumb.jpg");
    assert_eq!(p.video, "/srv/bili/fav/Title/Season 1/Title - S01E02.mp4");
    assert_eq!(p.nfo, "/srv/bili/fav/Title/Season 1/Title - S01E02.nfo");
    assert_eq!(
        p.danmaku,
        "/srv/bili/fav/Title/Season 1/Title - S01E02.zh-CN.default.ass"
    );
    assert!(p.fanart.is_none());
    assert_eq!(p.subtitle, "/srv/bili/fav/Title/Season 1/Title - S01E02.srt");
}

#[test]
fn stored_single_page_path_recovers_dir_and_stem() {
    let (dir, stem) = derive_page_base("/srv/bili/fav/Title/Title.mp4", true).unwrap();
    assert_eq!(dir, "/srv/bili/fav/Title");
    assert_eq!(stem, "Title");
    assert!(derive_page_base("no-separator.mp4", true).is_none());
}

#[test]
fn stored_multi_page_path_recovers_the_season_parent() {
    let (dir, stem) =
        derive_page_base("/srv/bili/fav/Title/Season 1/Title - S01E02.mp4", false).unwrap();
    assert_eq!(dir, "/srv/bili/fav/Title");
    assert_eq!(stem, "Title");
}

#[test]
fn unsplittable_paths_recover_nothing() {
    // No separator at all.
    assert!(derive_page_base("plain.mp4", false).is_none());
    // Only one separator: the season folder has no parent.
    assert!(derive_page_base("Season 1/Title - S01E02.mp4", false).is_none());
    // No episode separator in the file name.
    assert!(derive_page_base("/srv/bili/Title/Season 1/plain.mp4", false).is_none());
    // Any separator suffices for a single-page path.
    assert!(derive_page_base("/plain.mkv", true).is_some());
}

#[test]
fn suffix_stripping_removes_every_repetition() {
    assert_eq!(strip_suffix("a.mp4", ".mp4"), "a");
    assert_eq!(strip_suffix("a.mp4.mp4", ".mp4"), "a");
    assert_eq!(strip_suffix("a.mkv", ".mp4"), "a.mkv");
}

#[test]
fn uploader_files_are_sharded_by_the_first_digit() {
    let paths = upper_file_paths("/srv/bili/upper_face", 10023);
    assert_eq!(paths.face, "/srv/bili/upper_face/1/10023/folder.jpg");
    assert_eq!(paths.nfo, "/srv/bili/upper_face/1/10023/person.nfo");
}
