//! The per-source scan pipeline: enumerating a source's remote items
//! newest first, upserting video rows, and advancing the watermark only
//! on a full success so an interrupted scan resumes where it stopped.

use vstd::prelude::*;

verus! {

/// The four kinds of video source.
#[derive(Clone, Copy, PartialEq, Eq, Structural, Debug)]
pub enum SourceKind {
    Collection,
    Favorite,
    Submission,
    WatchLater,
}

/// One configured video source.
pub struct VideoSourceState {
    pub id: i32,
    pub kind: SourceKind,
    pub enabled: bool,
    /// Absolute base directory of this source's artifacts.
    pub path: String,
    /// The subscription timestamp of the newest item observed on the
    /// previous successful scan; the enumeration watermark.
    pub latest_row_at: Option<i64>,
}

/// One item of a source's remote feed.
pub struct RemoteItem {
    pub bvid: String,
    pub name: String,
    pub upper_id: i64,
    pub upper_name: String,
    pub pubtime: i64,
    pub favtime: i64,
}

/// One persisted video row.
pub struct VideoRow {
    pub id: i32,
    pub bvid: String,
    pub name: String,
    pub upper_id: i64,
    pub upper_name: String,
    pub pubtime: i64,
    pub favtime: i64,
    pub collection_id: Option<i32>,
    pub favorite_id: Option<i32>,
    pub submission_id: Option<i32>,
    pub watch_later_id: Option<i32>,
    /// Resolved artifact directory; empty until the first workflow run.
    pub path: String,
    /// Whether the video has exactly one page; unresolved while `None`.
    pub single_page: Option<bool>,
    pub should_download: bool,
    pub is_paid_video: bool,
    pub valid: bool,
    pub download_status: u32,
}

impl VideoRow {
    /// Exactly one source foreign key is set.
    pub open spec fn has_exactly_one_source(&self) -> bool {
        ((if self.collection_id is Some {
            1int
        } else {
            0int
        }) + (if self.favorite_id is Some {
            1int
        } else {
            0int
        }) + (if self.submission_id is Some {
            1int
        } else {
            0int
        }) + (if self.watch_later_id is Some {
            1int
        } else {
            0int
        })) == 1
    }
}

/// Which source a row belongs to, probing the foreign keys in a fixed
/// order; `None` for a row with no source key set.
pub fn source_of_row(row: &VideoRow) -> (r: Option<(SourceKind, i32)>)
    ensures
        row.collection_id matches Some(id) ==> r == Some((SourceKind::Collection, id)),
        row.collection_id is None ==> (row.favorite_id matches Some(id) ==> r == Some(
            (SourceKind::Favorite, id),
        )),
        row.collection_id is None && row.favorite_id is None ==> (row.watch_later_id matches Some(
            id,
        ) ==> r == Some((SourceKind::WatchLater, id))),
        row.collection_id is None && row.favorite_id is None && row.watch_later_id is None ==> (
        row.submission_id matches Some(id) ==> r == Some((SourceKind::Submission, id))),
        row.collection_id is None && row.favorite_id is None && row.watch_later_id is None
            && row.submission_id is None ==> r is None,
{
    if let Some(id) = row.collection_id {
        Some((SourceKind::Collection, id))
    } else if let Some(id) = row.favorite_id {
        Some((SourceKind::Favorite, id))
    } else if let Some(id) = row.watch_later_id {
        Some((SourceKind::WatchLater, id))
    } else if let Some(id) = row.submission_id {
        Some((SourceKind::Submission, id))
    } else {
        None
    }
}

/// Whether some row already carries this platform identifier.
pub open spec fn spec_known_bvid(rows: Seq<VideoRow>, bvid: Seq<char>) -> bool {
    exists|i: int| 0 <= i < rows.len() && (#[trigger] rows[i]).bvid@ == bvid
}

fn find_row_by_bvid(rows: &Vec<VideoRow>, bvid: &String) -> (r: Option<usize>)
    ensures
        match r {
            Some(i) => i < rows@.len() && rows@[i as int].bvid@ == bvid@,
            None => !spec_known_bvid(rows@, bvid@),
        },
{
    let n = rows.len();
    let mut i: usize = 0;
    while i < n
        invariant
            i <= n,
            n == rows@.len(),
            forall|j: int| 0 <= j < i ==> (#[trigger] rows@[j]).bvid@ != bvid@,
        decreases n - i,
    {
        if rows[i].bvid == *bvid {
            return Some(i);
        }
        i = i + 1;
    }
    None
}

/// How many leading items the scan visits: enumeration stops at the first
/// item whose subscription time does not exceed the watermark, and a
/// source without a watermark (first ingestion) is scanned in full.
pub open spec fn scanned_len_from(items: Seq<RemoteItem>, watermark: Option<i64>, i: int) -> int
    decreases items.len() - i,
{
    if i < 0 || i >= items.len() {
        items.len() as int
    } else if watermark matches Some(w) && items[i].favtime <= w {
        i
    } else {
        scanned_len_from(items, watermark, i + 1)
    }
}

/// The length of the scanned prefix of the feed.
pub open spec fn spec_scanned_len(items: Seq<RemoteItem>, watermark: Option<i64>) -> int {
    scanned_len_from(items, watermark, 0)
}

/// The largest subscription time among the first `n` items.
pub open spec fn max_favtime_upto(items: Seq<RemoteItem>, n: int) -> i64
    decreases n,
{
    if n <= 0 || n > items.len() {
        i64::MIN
    } else if n == 1 {
        items[0].favtime
    } else {
        let rest = max_favtime_upto(items, n - 1);
        if items[n - 1].favtime > rest {
            items[n - 1].favtime
        } else {
            rest
        }
    }
}

/// What one scanned item does to the store.
pub enum ScanAction {
    /// The item's identifier is new: insert this row.
    Insert(VideoRow),
    /// The item is already stored at this index: refresh its subscription
    /// time and name and mark it valid again.
    Refresh { row_index: usize, favtime: i64, name: String },
}

/// The database work of one source scan, and the watermark to persist
/// once all of it lands.
pub struct ScanPlan {
    /// One action per scanned item, feed order.
    pub actions: Vec<ScanAction>,
    /// The watermark after the scan: advanced to the largest subscription
    /// time seen, untouched when nothing new was scanned.
    pub new_watermark: Option<i64>,
}

/// The row a newly observed item is inserted as.
pub open spec fn spec_inserted_row(
    row: VideoRow,
    item: RemoteItem,
    source: VideoSourceState,
) -> bool {
    &&& row.bvid@ == item.bvid@
    &&& row.name@ == item.name@
    &&& row.upper_id == item.upper_id
    &&& row.upper_name@ == item.upper_name@
    &&& row.pubtime == item.pubtime
    &&& row.favtime == item.favtime
    &&& row.collection_id == (if source.kind is Collection {
        Some(source.id)
    } else {
        None::<i32>
    })
    &&& row.favorite_id == (if source.kind is Favorite {
        Some(source.id)
    } else {
        None::<i32>
    })
    &&& row.submission_id == (if source.kind is Submission {
        Some(source.id)
    } else {
        None::<i32>
    })
    &&& row.watch_later_id == (if source.kind is WatchLater {
        Some(source.id)
    } else {
        None::<i32>
    })
    &&& row.path@.len() == 0
    &&& row.single_page is None
    &&& row.should_download
    &&& !row.is_paid_video
    &&& row.valid
    &&& row.download_status == 0
}

/// Scans one source's feed against the stored rows: the scanned prefix
/// runs to the watermark, a known identifier is refreshed rather than
/// duplicated, a new one becomes an insert, and the watermark advances to
/// the largest subscription time seen (it stays put when nothing was
/// scanned, so an interrupted or idle cycle resumes unchanged).
pub fn scan_source(source: &VideoSourceState, existing: &Vec<VideoRow>, items: &Vec<RemoteItem>) -> (r:
    ScanPlan)
    ensures
        r.actions@.len() == spec_scanned_len(items@, source.latest_row_at),
        forall|i: int|
            0 <= i < r.actions@.len() ==> match #[trigger] r.actions@[i] {
                ScanAction::Insert(row) => !spec_known_bvid(existing@, items@[i].bvid@)
                    && spec_inserted_row(row, items@[i], *source),
                ScanAction::Refresh { row_index, favtime, name } => {
                    &&& spec_known_bvid(existing@, items@[i].bvid@)
                    &&& row_index < existing@.len()
                    &&& existing@[row_index as int].bvid@ == items@[i].bvid@
                    &&& favtime == items@[i].favtime
                    &&& name@ == items@[i].name@
                },
            },
        r.new_watermark == (if spec_scanned_len(items@, source.latest_row_at) > 0 {
            Some(max_favtime_upto(items@, spec_scanned_len(items@, source.latest_row_at)))
        } else {
            source.latest_row_at
        }),
{
    let n = items.len();
    let mut actions: Vec<ScanAction> = Vec::new();
    let mut max_seen: i64 = i64::MIN;
    let mut i: usize = 0;
    loop
        invariant_except_break
            i <= n,
            n == items@.len(),
            actions@.len() == i,
            spec_scanned_len(items@, source.latest_row_at) == scanned_len_from(
                items@,
                source.latest_row_at,
                i as int,
            ),
            i > 0 ==> max_seen == max_favtime_upto(items@, i as int),
            i == 0 ==> max_seen == i64::MIN,
            forall|j: int|
                0 <= j < i ==> match #[trigger] actions@[j] {
                    ScanAction::Insert(row) => !spec_known_bvid(existing@, items@[j].bvid@)
                        && spec_inserted_row(row, items@[j], *source),
                    ScanAction::Refresh { row_index, favtime, name } => {
                        &&& spec_known_bvid(existing@, items@[j].bvid@)
                        &&& row_index < existing@.len()
                        &&& existing@[row_index as int].bvid@ == items@[j].bvid@
                        &&& favtime == items@[j].favtime
                        &&& name@ == items@[j].name@
                    },
                },
        ensures
            actions@.len() == spec_scanned_len(items@, source.latest_row_at),
            i == actions@.len(),
            i > 0 ==> max_seen == max_favtime_upto(items@, i as int),
            forall|j: int|
                0 <= j < i ==> match #[trigger] actions@[j] {
                    ScanAction::Insert(row) => !spec_known_bvid(existing@, items@[j].bvid@)
                        && spec_inserted_row(row, items@[j], *source),
                    ScanAction::Refresh { row_index, favtime, name } => {
                        &&& spec_known_bvid(existing@, items@[j].bvid@)
                        &&& row_index < existing@.len()
                        &&& existing@[row_index as int].bvid@ == items@[j].bvid@
                        &&& favtime == items@[j].favtime
                        &&& name@ == items@[j].name@
                    },
                },
        decreases n - i,
    {
        if i >= n {
            break ;
        }
        let item = &items[i];
        if let Some(w) = source.latest_row_at {
            if item.favtime <= w {
                break ;
            }
        }
        if item.favtime > max_seen || i == 0 {
            max_seen = item.favtime;
        }
        match find_row_by_bvid(existing, &item.bvid) {
            Some(row_index) => {
                actions.push(
                    ScanAction::Refresh {
                        row_index,
                        favtime: item.favtime,
                        name: item.name.clone(),
                    },
                );
            },
            None => {
                let row = VideoRow {
                    id: 0,
                    bvid: item.bvid.clone(),
                    name: item.name.clone(),
                    upper_id: item.upper_id,
                    upper_name: item.upper_name.clone(),
                    pubtime: item.pubtime,
                    favtime: item.favtime,
                    collection_id: if let SourceKind::Collection = source.kind {
                        Some(source.id)
                    } else {
                        None
                    },
                    favorite_id: if let SourceKind::Favorite = source.kind {
                        Some(source.id)
                    } else {
                        None
                    },
                    submission_id: if let SourceKind::Submission = source.kind {
                        Some(source.id)
                    } else {
                        None
                    },
                    watch_later_id: if let SourceKind::WatchLater = source.kind {
                        Some(source.id)
                    } else {
                        None
                    },
                    path: String::new(),
                    single_page: None,
                    should_download: true,
                    is_paid_video: false,
                    valid: true,
                    download_status: 0,
                };
                actions.push(ScanAction::Insert(row));
            },
        }
        i = i + 1;
    }
    let new_watermark = if actions.len() > 0 {
        Some(max_seen)
    } else {
        source.latest_row_at
    };
    ScanPlan { actions, new_watermark }
}

/// The watermark a full scan leaves behind.
pub open spec fn spec_watermark_after(items: Seq<RemoteItem>, watermark: Option<i64>) -> Option<
    i64,
> {
    if spec_scanned_len(items, watermark) > 0 {
        Some(max_favtime_upto(items, spec_scanned_len(items, watermark)))
    } else {
        watermark
    }
}

proof fn lemma_scanned_len_bounds(items: Seq<RemoteItem>, watermark: Option<i64>, i: int)
    requires
        0 <= i <= items.len(),
    ensures
        i <= scanned_len_from(items, watermark, i) <= items.len(),
    decreases items.len() - i,
{
    if i < items.len() {
        lemma_scanned_len_bounds(items, watermark, i + 1);
    }
}

proof fn lemma_max_ge_first(items: Seq<RemoteItem>, n: int)
    requires
        1 <= n <= items.len(),
    ensures
        max_favtime_upto(items, n) >= items[0].favtime,
    decreases n,
{
    if n > 1 {
        lemma_max_ge_first(items, n - 1);
    }
}

/// Scanning the same feed twice is idle the second time: the watermark a
/// scan leaves behind is at least the newest item's subscription time, so
/// an immediate re-scan of an unchanged feed visits no item and keeps the
/// watermark — no rows are inserted or refreshed.
pub proof fn lemma_rescan_is_idle(items: Seq<RemoteItem>, watermark: Option<i64>)
    ensures
        spec_scanned_len(items, spec_watermark_after(items, watermark)) == 0,
        spec_watermark_after(items, spec_watermark_after(items, watermark))
            == spec_watermark_after(items, watermark),
{
    if items.len() > 0 {
        let n = spec_scanned_len(items, watermark);
        lemma_scanned_len_bounds(items, watermark, 0);
        if n > 0 {
            lemma_max_ge_first(items, n);
        } else {
            lemma_scanned_len_bounds(items, watermark, 1);
            assert(watermark matches Some(w) && items[0].favtime <= w);
        }
    }
}

/// Soft deletion after a full scan window: a stored row not re-observed
/// in the feed is marked invalid but kept; a re-observed one keeps its
/// validity (the refresh itself re-validates it).
pub fn mark_unobserved_invalid(rows: &mut Vec<VideoRow>, observed: &Vec<String>)
    ensures
        final(rows)@.len() == old(rows)@.len(),
        forall|i: int|
            0 <= i < old(rows)@.len() ==> {
                let was = old(rows)@[i];
                let now = #[trigger] final(rows)@[i];
                if spec_observed_contains(observed@, was.bvid@) {
                    now == was
                } else {
                    now == VideoRow { valid: false, ..was }
                }
            },
{
    let n = rows.len();
    let mut i: usize = 0;
    while i < n
        invariant
            i <= n,
            n == rows@.len(),
            old(rows)@.len() == n,
            forall|j: int|
                0 <= j < i ==> {
                    let was = old(rows)@[j];
                    let now = #[trigger] rows@[j];
                    if spec_observed_contains(observed@, was.bvid@) {
                        now == was
                    } else {
                        now == VideoRow { valid: false, ..was }
                    }
                },
            forall|j: int| i <= j < n ==> #[trigger] rows@[j] == old(rows)@[j],
        decreases n - i,
    {
        let mut seen = false;
        let m = observed.len();
        let mut k: usize = 0;
        while k < m
            invariant
                k <= m,
                m == observed@.len(),
                i < n,
                n == rows@.len(),
                rows@[i as int] == old(rows)@[i as int],
                seen == exists|p: int|
                    0 <= p < k && (#[trigger] observed@[p])@ == rows@[i as int].bvid@,
            decreases m - k,
        {
            if observed[k] == rows[i].bvid {
                seen = true;
            }
            k = k + 1;
        }
        if !seen {
            rows[i].valid = false;
        }
        i = i + 1;
    }
}

/// Whether some observed identifier equals `bvid`.
pub open spec fn spec_observed_contains(observed: Seq<String>, bvid: Seq<char>) -> bool {
    exists|i: int| 0 <= i < observed.len() && (#[trigger] observed[i])@ == bvid
}

} // verus!
