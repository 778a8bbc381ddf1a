use bili_sync::scan::{
    mark_unobserved_invalid, scan_source, source_of_row, RemoteItem, ScanAction, SourceKind,
    VideoRow, VideoSourceState,
};

fn favorite_source(watermark: Option<i64>) -> VideoSourceState {
    VideoSourceState {
        id: 9,
        kind: SourceKind::Favorite,
        enabled: true,
        path: String::from("/srv/bili/fav"),
        latest_row_at: watermark,
    }
}

fn item(bvid: &str, favtime: i64) -> RemoteItem {
    RemoteItem {
        bvid: String::from(bvid),
        name: format!("video {}", bvid),
        upper_id: 1000,
        upper_name: String::from("up"),
        pubtime: favtime - 50,
        favtime,
    }
}

fn row_for(bvid: &str, favtime: i64) -> VideoRow {
    VideoRow {
        id: 1,
        bvid: String::from(bvid),
        name: format!("video {}", bvid),
        upper_id: 1000,
        upper_name: String::from("up"),
        pubtime: favtime - 50,
        favtime,
        collection_id: None,
        favorite_id: Some(9),
        submission_id: None,
        watch_later_id: None,
        path: String::new(),
        single_page: None,
        should_download: true,
        is_paid_video: false,
        valid: true,
        download_status: 0,
    }
}

#[test]
fn fresh_favorite_list_inserts_three_distinct_rows() {
    let source = favorite_source(None);
    let existing: Vec<VideoRow> = Vec::new();
    let items = vec![item("BVaaa", 300), item("BVbbb", 200), item("BVccc", 100)];
    let plan = scan_source(&source, &existing, &items);
    assert_eq!(plan.actions.len(), 3);
    let mut bvids: Vec<String> = Vec::new();
    for (k, action) in plan.actions.iter().enumerate() {
        match action {
            ScanAction::Insert(row) => {
                assert_eq!(row.bvid, items[k].bvid);
                assert_eq!(row.favtime, items[k].favtime);
                assert_eq!(row.favorite_id, Some(9));
                assert_eq!(row.collection_id, None);
                assert_eq!(row.submission_id, None);
                assert_eq!(row.watch_later_id, None);
                assert_eq!(row.download_status, 0);
                assert!(row.should_download);
                assert!(row.valid);
                assert!(row.single_page.is_none());
                assert_eq!(row.path, "");
                assert!(!bvids.contains(&row.bvid));
                bvids.push(row.bvid.clone());
            }
            ScanAction::Refresh { .. } => panic!("nothing was stored yet"),
        }
    }
    assert_eq!(plan.new_watermark, Some(300));
}

#[test]
fn immediate_rerun_plans_no_work_and_keeps_the_watermark() {
    let source = favorite_source(Some(300));
    let existing = vec![row_for("BVaaa", 300), row_for("BVbbb", 200), row_for("BVccc", 100)];
    let items = vec![item("BVaaa", 300), item("BVbbb", 200), item("BVccc", 100)];
    let plan = scan_source(&source, &existing, &items);
    assert_eq!(plan.actions.len(), 0);
    assert_eq!(plan.new_watermark, Some(300));
}

#[test]
fn known_item_above_watermark_is_refreshed_not_duplicated() {
    let source = favorite_source(Some(100));
    let existing = vec![row_for("BVccc", 100)];
    let items = vec![item("BVnew", 400), item("BVccc", 250), item("BVold", 50)];
    let plan = scan_source(&source, &existing, &items);
    assert_eq!(plan.actions.len(), 2);
    assert!(matches!(&plan.actions[0], ScanAction::Insert(row) if row.bvid == "BVnew"));
    match &plan.actions[1] {
        ScanAction::Refresh { row_index, favtime, name } => {
            assert_eq!(*row_index, 0);
            assert_eq!(*favtime, 250);
            assert_eq!(name, "video BVccc");
        }
        ScanAction::Insert(_) => panic!("BVccc is already stored"),
    }
    assert_eq!(plan.new_watermark, Some(400));
}

#[test]
fn partial_failure_keeps_watermark_by_not_persisting_the_plan() {
    // The watermark lives in the plan; a cycle that aborts simply never
    // persists it, so the source still scans from the old watermark.
    let source = favorite_source(Some(100));
    let items = vec![item("BVnew", 400)];
    let plan = scan_source(&source, &Vec::new(), &items);
    assert_eq!(plan.new_watermark, Some(400));
    let replan = scan_source(&source, &Vec::new(), &items);
    assert_eq!(replan.actions.len(), 1);
    assert_eq!(replan.new_watermark, Some(400));
}

#[test]
fn unobserved_rows_are_soft_deleted() {
    let mut rows = vec![row_for("BVkeep", 10), row_for("BVgone", 20)];
    let observed = vec![String::from("BVkeep")];
    mark_unobserved_invalid(&mut rows, &observed);
    assert!(rows[0].valid);
    assert!(!rows[1].valid);
    assert_eq!(rows[1].bvid, "BVgone");
}

#[test]
fn source_of_row_probes_in_fixed_order() {
    let row = row_for("BVx", 1);
    assert_eq!(source_of_row(&row), Some((SourceKind::Favorite, 9)));
    let mut none = row_for("BVy", 1);
    none.favorite_id = None;
    assert_eq!(source_of_row(&none), None);
    let mut wl = row_for("BVz", 1);
    wl.favorite_id = None;
    wl.watch_later_id = Some(3);
    assert_eq!(source_of_row(&wl), Some((SourceKind::WatchLater, 3)));
}
