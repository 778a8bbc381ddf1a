use bili_sync::api::{
    apply_download_flags, apply_status_updates, clear_and_reset_video_row, effective_sort,
    find_page_by_id, id_selected, plan_status_update, words_of_video, PageRow, PageStatusUpdate,
    UpdateVideoStatusRequest,
    matches_status_filter, matches_videos_request, plan_video_reset, reset_word,
    test_notification_message, test_notifier_response, validate_status_value, SortOrder,
    StatusFilter, StatusUpdate, VideoSortBy, VideosRequest,
};
use bili_sync::notify::Notifier;
use bili_sync::scan::VideoRow;
use bili_sync::status::DownloadStatus;

fn request() -> VideosRequest {
    VideosRequest {
        collection: None,
        favorite: None,
        submission: None,
        watch_later: None,
        query: None,
        status_filter: None,
        page: None,
        page_size: None,
        sort_by: None,
        sort_order: None,
    }
}

fn row(status: u32) -> VideoRow {
    VideoRow {
        id: 5,
        bvid: String::from("BV1xy"),
        name: String::from("Rust and rockets"),
        upper_id: 77,
        upper_name: String::from("up"),
        pubtime: 10,
        favtime: 20,
        collection_id: None,
        favorite_id: Some(9),
        submission_id: None,
        watch_later_id: None,
        path: String::from("/srv/bili/fav/Rust and rockets"),
        single_page: Some(true),
        should_download: true,
        is_paid_video: false,
        valid: true,
        download_status: status,
    }
}

fn word_of(slots: [u32; 5]) -> u32 {
    let mut s = DownloadStatus::new();
    for (i, v) in slots.iter().enumerate() {
        s.set(i, *v);
    }
    s.to_word()
}

#[test]
fn status_values_above_seven_are_rejected() {
    assert!(validate_status_value(0));
    assert!(validate_status_value(7));
    assert!(!validate_status_value(8));
}

#[test]
fn status_filters_read_word_and_columns() {
    assert!(matches_status_filter(&row(32767), &StatusFilter::Succeeded));
    assert!(!matches_status_filter(&row(32766), &StatusFilter::Succeeded));
    assert!(matches_status_filter(&row(8), &StatusFilter::Failed));
    assert!(matches_status_filter(&row(0), &StatusFilter::Waiting));
    let mut blacklisted = row(0);
    blacklisted.should_download = false;
    assert!(matches_status_filter(&blacklisted, &StatusFilter::Skipped));
    let mut paid = row(0);
    paid.is_paid_video = true;
    assert!(matches_status_filter(&paid, &StatusFilter::Paid));
    assert!(!matches_status_filter(&paid, &StatusFilter::Skipped));
}

#[test]
fn listing_query_matches_name_or_bvid() {
    let mut req = request();
    req.query = Some(String::from("rockets"));
    assert!(matches_videos_request(&row(0), &req));
    req.query = Some(String::from("BV1xy"));
    assert!(matches_videos_request(&row(0), &req));
    req.query = Some(String::from("absent"));
    assert!(!matches_videos_request(&row(0), &req));
    let mut by_source = request();
    by_source.favorite = Some(9);
    assert!(matches_videos_request(&row(0), &by_source));
    by_source.favorite = Some(8);
    assert!(!matches_videos_request(&row(0), &by_source));
}

#[test]
fn default_sort_depends_on_the_source_filter() {
    let plain = request();
    let (by, order) = effective_sort(&plain);
    assert!(matches!(by, VideoSortBy::DownloadTime));
    assert!(matches!(order, SortOrder::Desc));
    let mut filtered = request();
    filtered.favorite = Some(1);
    let (by, _) = effective_sort(&filtered);
    assert!(matches!(by, VideoSortBy::SubscribeTime));
    let mut explicit = request();
    explicit.sort_by = Some(VideoSortBy::PublishTime);
    explicit.sort_order = Some(SortOrder::Asc);
    let (by, order) = effective_sort(&explicit);
    assert!(matches!(by, VideoSortBy::PublishTime));
    assert!(matches!(order, SortOrder::Asc));
}

#[test]
fn slot_overwrites_apply_in_order() {
    let mut status = DownloadStatus::new();
    let updates = vec![
        StatusUpdate { status_index: 1, status_value: 7 },
        StatusUpdate { status_index: 1, status_value: 3 },
        StatusUpdate { status_index: 4, status_value: 7 },
    ];
    apply_status_updates(&mut status, &updates);
    assert_eq!(status.get(1), 3);
    assert_eq!(status.get(4), 7);
}

#[test]
fn reset_word_keeps_terminal_slots_unless_forced() {
    let word = word_of([7, 3, 0, 6, 7]);
    assert_eq!(reset_word(word, false).unwrap(), word_of([7, 0, 0, 0, 7]));
    assert_eq!(reset_word(word, true).unwrap(), 0);
    assert!(reset_word(word_of([7, 0, 0, 0, 7]), false).is_none());
    assert!(reset_word(0, true).is_none());
}

#[test]
fn resetting_a_page_requeues_the_video_aggregate() {
    let video_word = word_of([7, 7, 7, 7, 7]);
    let page_words = vec![word_of([7, 2, 7, 7, 7]), word_of([7, 7, 7, 7, 7])];
    let plan = plan_video_reset(video_word, &page_words, false);
    assert_eq!(plan.page_words.len(), 2);
    assert_eq!(plan.page_words[0].unwrap(), word_of([7, 0, 7, 7, 7]));
    assert!(plan.page_words[1].is_none());
    // The video's own word had nothing to reset, but the page reset
    // clears its pages aggregate.
    assert_eq!(plan.video_word.unwrap(), word_of([7, 7, 7, 7, 0]));
}

#[test]
fn untouched_statuses_plan_no_writes() {
    let plan = plan_video_reset(word_of([7, 7, 7, 7, 7]), &vec![word_of([7, 7, 7, 7, 7])], false);
    assert!(plan.video_word.is_none());
    assert!(plan.page_words[0].is_none());
}

#[test]
fn marking_paid_forces_the_blacklist() {
    let mut r = row(0);
    apply_download_flags(&mut r, Some(true), Some(true));
    assert!(r.is_paid_video);
    assert!(!r.should_download);
    let mut r = row(0);
    apply_download_flags(&mut r, Some(false), None);
    assert!(!r.should_download);
    assert!(!r.is_paid_video);
    let mut r = row(0);
    apply_download_flags(&mut r, None, Some(false));
    assert!(r.should_download);
}

#[test]
fn clear_and_reset_empties_the_row_state() {
    let mut r = row(word_of([7, 3, 0, 1, 7]));
    clear_and_reset_video_row(&mut r);
    assert_eq!(r.download_status, 0);
    assert!(r.single_page.is_none());
    assert_eq!(r.path, "/srv/bili/fav/Rust and rockets");
    assert_eq!(r.bvid, "BV1xy");
}

#[test]
fn test_notifier_response_names_the_channel() {
    let webhook = Notifier::Webhook {
        url: String::from("https://example.test/hook"),
        template: None,
        ignore_cache: Some(()),
    };
    let ok = test_notifier_response(Ok(()), &webhook);
    assert!(ok.success);
    assert_eq!(ok.message, "测试通知已发送");
    assert_eq!(ok.details.unwrap(), "已发送到: https://example.test/hook");
    let err = test_notifier_response(Err(String::from("HTTP 400")), &webhook);
    assert!(!err.success);
    assert_eq!(err.message, "测试通知发送失败: HTTP 400");
    assert_eq!(
        err.details.unwrap(),
        "请检查 Webhook URL (https://example.test/hook) 是否可访问，以及模板格式是否正确"
    );
    let telegram = Notifier::Telegram {
        bot_token: String::from("SECRET-REDACTED"),
        chat_id: String::from("1"),
    };
    let ok = test_notifier_response(Ok(()), &telegram);
    assert_eq!(ok.details.unwrap(), "请检查 Telegram 是否收到消息");
    assert!(test_notification_message().starts_with("✅ 测试通知"));
}

#[test]
fn bulk_helpers_group_and_select() {
    let page = |id: i32, video_id: i32, status: u32| PageRow {
        id,
        video_id,
        pid: 1,
        cid: 100,
        name: String::from("p"),
        duration: 10,
        width: None,
        height: None,
        path: None,
        download_status: status,
    };
    let pages = vec![page(1, 10, 5), page(2, 11, 6), page(3, 10, 7)];
    assert_eq!(words_of_video(&pages, 10), vec![5, 7]);
    assert_eq!(words_of_video(&pages, 12), Vec::<u32>::new());
    assert_eq!(find_page_by_id(&pages, 2), Some(1));
    assert_eq!(find_page_by_id(&pages, 9), None);
    assert!(id_selected(&None, 42));
    assert!(id_selected(&Some(vec![1, 42]), 42));
    assert!(!id_selected(&Some(vec![1, 2]), 42));
    assert!(!id_selected(&Some(Vec::new()), 42));
}

#[test]
fn status_update_plan_touches_each_page_once() {
    let page = |id: i32, status: u32| PageRow {
        id,
        video_id: 10,
        pid: 1,
        cid: 100,
        name: String::from("p"),
        duration: 10,
        width: None,
        height: None,
        path: None,
        download_status: status,
    };
    let pages = vec![page(1, 0), page(2, word_of([0, 3, 0, 0, 0]))];
    let request = UpdateVideoStatusRequest {
        video_updates: vec![StatusUpdate { status_index: 0, status_value: 7 }],
        page_updates: vec![
            PageStatusUpdate {
                page_id: 2,
                updates: vec![StatusUpdate { status_index: 1, status_value: 0 }],
            },
            PageStatusUpdate {
                page_id: 2,
                updates: vec![StatusUpdate { status_index: 1, status_value: 5 }],
            },
            PageStatusUpdate {
                page_id: 9,
                updates: vec![StatusUpdate { status_index: 0, status_value: 7 }],
            },
        ],
        should_download: None,
        is_paid_video: None,
    };
    let (video_word, page_words) = plan_status_update(word_of([0, 0, 0, 0, 7]), &pages, &request);
    assert_eq!(video_word.unwrap(), word_of([7, 0, 0, 0, 7]));
    assert_eq!(page_words.len(), 3);
    assert_eq!(page_words[0].unwrap(), (1, 0));
    assert!(page_words[1].is_none());
    assert!(page_words[2].is_none());

    let empty = UpdateVideoStatusRequest {
        video_updates: Vec::new(),
        page_updates: Vec::new(),
        should_download: Some(false),
        is_paid_video: None,
    };
    let (video_word, page_words) = plan_status_update(0, &pages, &empty);
    assert!(video_word.is_none());
    assert!(page_words.is_empty());
}
