//! The admin surface over the status model: listing filters, bulk status
//! updates, the reset endpoints, and the test-notification response.

use vstd::prelude::*;
use crate::notify::Notifier;
use crate::scan::VideoRow;
use crate::status::{spec_slot_of_word, spec_word_failed, spec_word_succeeded, spec_word_waiting,
    word_failed, word_succeeded, word_waiting, DownloadStatus, lemma_from_word_slots,
    lemma_encoded_word_valid};
use crate::strutil::{contains_sub, str_contains};

verus! {

/// Which status class a listing filters on.
pub enum StatusFilter {
    Failed,
    Succeeded,
    Waiting,
    Skipped,
    Paid,
}

/// Which column a listing sorts on.
pub enum VideoSortBy {
    /// By publish time.
    PublishTime,
    /// By subscription time (when it was favorited / queued / followed).
    SubscribeTime,
    /// By local insertion time.
    DownloadTime,
}

/// Sort direction.
pub enum SortOrder {
    Asc,
    Desc,
}

/// The listing query: source filters, a free-text query over name and
/// identifier, a status filter, pagination and sorting.
pub struct VideosRequest {
    pub collection: Option<i32>,
    pub favorite: Option<i32>,
    pub submission: Option<i32>,
    pub watch_later: Option<i32>,
    pub query: Option<String>,
    pub status_filter: Option<StatusFilter>,
    pub page: Option<u64>,
    pub page_size: Option<u64>,
    pub sort_by: Option<VideoSortBy>,
    pub sort_order: Option<SortOrder>,
}

/// The reset request of one video.
pub struct ResetVideoStatusRequest {
    pub force: bool,
}

/// The bulk reset request over a filtered listing.
pub struct ResetFilteredVideoStatusRequest {
    pub collection: Option<i32>,
    pub favorite: Option<i32>,
    pub submission: Option<i32>,
    pub watch_later: Option<i32>,
    pub query: Option<String>,
    pub status_filter: Option<StatusFilter>,
    pub force: bool,
}

/// One slot overwrite.
pub struct StatusUpdate {
    pub status_index: usize,
    pub status_value: u32,
}

impl StatusUpdate {
    /// The overwrite addresses one of the five slots with a 3-bit value.
    pub open spec fn valid(&self) -> bool {
        self.status_index <= 4 && self.status_value <= 7
    }
}

/// Whether a slot value is accepted by the update endpoints.
pub fn validate_status_value(value: u32) -> (r: bool)
    ensures
        r == (value <= 7),
{
    value <= 7
}

/// The slot overwrites of one page.
pub struct PageStatusUpdate {
    pub page_id: i32,
    pub updates: Vec<StatusUpdate>,
}

/// The status-update request of one video and its pages.
pub struct UpdateVideoStatusRequest {
    pub video_updates: Vec<StatusUpdate>,
    pub page_updates: Vec<PageStatusUpdate>,
    /// Operator blacklist override; marking a video paid forces it off.
    pub should_download: Option<bool>,
    pub is_paid_video: Option<bool>,
}

/// The bulk status-update request over a filtered listing or an explicit
/// id selection.
pub struct UpdateFilteredVideoStatusRequest {
    pub collection: Option<i32>,
    pub favorite: Option<i32>,
    pub submission: Option<i32>,
    pub watch_later: Option<i32>,
    pub query: Option<String>,
    pub status_filter: Option<StatusFilter>,
    pub video_ids: Option<Vec<i32>>,
    pub video_updates: Vec<StatusUpdate>,
    pub page_updates: Vec<StatusUpdate>,
    pub should_download: Option<bool>,
    pub is_paid_video: Option<bool>,
}

/// Pagination of the followed-collections listing.
pub struct FollowedCollectionsRequest {
    pub page_num: Option<i32>,
    pub page_size: Option<i32>,
}

/// Pagination and name filter of the followed-uploaders listing.
pub struct FollowedUppersRequest {
    pub page_num: Option<i32>,
    pub page_size: Option<i32>,
    pub name: Option<String>,
}

/// Subscribes a favorite list.
pub struct InsertFavoriteRequest {
    pub fid: i64,
    pub path: String,
}

/// The two flavours of remote collection.
pub enum CollectionType {
    Series,
    Season,
}

/// Subscribes a collection.
pub struct InsertCollectionRequest {
    pub sid: i64,
    pub mid: i64,
    pub collection_type: CollectionType,
    pub path: String,
}

/// Subscribes an uploader's submission feed.
pub struct InsertSubmissionRequest {
    pub upper_id: i64,
    pub path: String,
}

/// Asks for a source kind's default directory rendered for a name.
pub struct DefaultPathRequest {
    pub name: String,
}

/// Polls a login QR code.
pub struct PollQrcodeRequest {
    pub qrcode_key: String,
}

/// The answer of the notifier test endpoint.
pub struct TestNotifierResponse {
    pub success: bool,
    pub message: String,
    pub details: Option<String>,
}

/// One persisted page row.
pub struct PageRow {
    pub id: i32,
    pub video_id: i32,
    /// 1-based ordinal within the video; the episode number.
    pub pid: i32,
    pub cid: i64,
    pub name: String,
    pub duration: u32,
    pub width: Option<i32>,
    pub height: Option<i32>,
    /// Resolved video-file path; set on first successful download.
    pub path: Option<String>,
    pub download_status: u32,
}

/// Whether a row falls in the filtered status class: the three word
/// classes read the packed word alone, while the skipped and paid classes
/// read the operator columns.
pub open spec fn spec_matches_status_filter(row: VideoRow, filter: StatusFilter) -> bool {
    match filter {
        StatusFilter::Failed => spec_word_failed(row.download_status),
        StatusFilter::Succeeded => spec_word_succeeded(row.download_status),
        StatusFilter::Waiting => spec_word_waiting(row.download_status),
        StatusFilter::Skipped => !row.should_download && !row.is_paid_video,
        StatusFilter::Paid => row.is_paid_video,
    }
}

/// Tests a row against a status filter.
pub fn matches_status_filter(row: &VideoRow, filter: &StatusFilter) -> (r: bool)
    ensures
        r == spec_matches_status_filter(*row, *filter),
{
    match filter {
        StatusFilter::Failed => word_failed(row.download_status),
        StatusFilter::Succeeded => word_succeeded(row.download_status),
        StatusFilter::Waiting => word_waiting(row.download_status),
        StatusFilter::Skipped => !row.should_download && !row.is_paid_video,
        StatusFilter::Paid => row.is_paid_video,
    }
}

/// Whether a row satisfies the listing query: every given source filter
/// pins the matching foreign key, the free-text query must occur in the
/// name or the identifier, and the status filter must hold.
pub open spec fn spec_matches_videos_request(row: VideoRow, req: VideosRequest) -> bool {
    &&& (req.collection matches Some(id) ==> row.collection_id == Some(id))
    &&& (req.favorite matches Some(id) ==> row.favorite_id == Some(id))
    &&& (req.submission matches Some(id) ==> row.submission_id == Some(id))
    &&& (req.watch_later matches Some(id) ==> row.watch_later_id == Some(id))
    &&& (req.query matches Some(q) ==> contains_sub(row.name@, q@) || contains_sub(row.bvid@, q@))
    &&& (req.status_filter matches Some(f) ==> spec_matches_status_filter(row, f))
}

/// Tests a row against the listing query.
pub fn matches_videos_request(row: &VideoRow, req: &VideosRequest) -> (r: bool)
    ensures
        r == spec_matches_videos_request(*row, *req),
{
    if let Some(id) = req.collection {
        if row.collection_id != Some(id) {
            return false;
        }
    }
    if let Some(id) = req.favorite {
        if row.favorite_id != Some(id) {
            return false;
        }
    }
    if let Some(id) = req.submission {
        if row.submission_id != Some(id) {
            return false;
        }
    }
    if let Some(id) = req.watch_later {
        if row.watch_later_id != Some(id) {
            return false;
        }
    }
    if let Some(q) = &req.query {
        if !str_contains(row.name.as_str(), q.as_str()) && !str_contains(
            row.bvid.as_str(),
            q.as_str(),
        ) {
            return false;
        }
    }
    if let Some(f) = &req.status_filter {
        if !matches_status_filter(row, f) {
            return false;
        }
    }
    true
}

/// The sort a listing uses when none is given: listings filtered to one
/// source default to subscription time, the rest to insertion time, both
/// newest first.
pub fn effective_sort(req: &VideosRequest) -> (r: (VideoSortBy, SortOrder))
    ensures
        req.sort_by matches Some(s) ==> r.0 == s,
        req.sort_by is None ==> (if req.collection is Some || req.favorite is Some
            || req.submission is Some || req.watch_later is Some {
            r.0 is SubscribeTime
        } else {
            r.0 is DownloadTime
        }),
        req.sort_order matches Some(o) ==> r.1 == o,
        req.sort_order is None ==> r.1 is Desc,
{
    let sort_by = match &req.sort_by {
        Some(s) => match s {
            VideoSortBy::PublishTime => VideoSortBy::PublishTime,
            VideoSortBy::SubscribeTime => VideoSortBy::SubscribeTime,
            VideoSortBy::DownloadTime => VideoSortBy::DownloadTime,
        },
        None => {
            if req.collection.is_some() || req.favorite.is_some() || req.submission.is_some()
                || req.watch_later.is_some() {
                VideoSortBy::SubscribeTime
            } else {
                VideoSortBy::DownloadTime
            }
        },
    };
    let sort_order = match &req.sort_order {
        Some(SortOrder::Asc) => SortOrder::Asc,
        Some(SortOrder::Desc) => SortOrder::Desc,
        None => SortOrder::Desc,
    };
    (sort_by, sort_order)
}

/// The slots after a list of overwrites is applied in order.
pub open spec fn spec_apply_updates(s: Seq<u32>, updates: Seq<StatusUpdate>, n: int) -> Seq<u32>
    decreases n,
{
    if n <= 0 || n > updates.len() {
        s
    } else {
        spec_apply_updates(s, updates, n - 1).update(
            updates[n - 1].status_index as int,
            updates[n - 1].status_value,
        )
    }
}

proof fn lemma_apply_updates_wf(s: Seq<u32>, updates: Seq<StatusUpdate>, n: int)
    requires
        s.len() == 5,
        forall|i: int| 0 <= i < 5 ==> s[i] <= 7,
        forall|i: int| 0 <= i < updates.len() ==> (#[trigger] updates[i]).valid(),
    ensures
        spec_apply_updates(s, updates, n).len() == 5,
        forall|i: int| 0 <= i < 5 ==> spec_apply_updates(s, updates, n)[i] <= 7,
    decreases n,
{
    if 0 < n <= updates.len() {
        lemma_apply_updates_wf(s, updates, n - 1);
    }
}

/// Applies a list of slot overwrites to a status, in order.
pub fn apply_status_updates(status: &mut DownloadStatus, updates: &Vec<StatusUpdate>)
    requires
        old(status).well_formed(),
        forall|i: int| 0 <= i < updates@.len() ==> (#[trigger] updates@[i]).valid(),
    ensures
        final(status).well_formed(),
        final(status)@ == spec_apply_updates(old(status)@, updates@, updates@.len() as int),
{
    let n = updates.len();
    let mut i: usize = 0;
    while i < n
        invariant
            i <= n,
            n == updates@.len(),
            old(status).well_formed(),
            forall|j: int| 0 <= j < n ==> (#[trigger] updates@[j]).valid(),
            status@ == spec_apply_updates(old(status)@, updates@, i as int),
            status.well_formed(),
        decreases n - i,
    {
        status.set(updates[i].status_index, updates[i].status_value);
        i = i + 1;
    }
}

/// The word after a list of slot overwrites.
pub open spec fn spec_update_word(word: u32, updates: Seq<StatusUpdate>) -> int {
    crate::status::word_of_slots(
        spec_apply_updates(
            Seq::new(5, |i: int| spec_slot_of_word(word, i)),
            updates,
            updates.len() as int,
        ),
    )
}

/// Applies a list of slot overwrites to a packed word.
pub fn update_word(word: u32, updates: &Vec<StatusUpdate>) -> (r: u32)
    requires
        forall|i: int| 0 <= i < updates@.len() ==> (#[trigger] updates@[i]).valid(),
    ensures
        r == spec_update_word(word, updates@),
        crate::status::valid_status_word(r),
{
    let mut status = DownloadStatus::from_word(word);
    proof {
        lemma_from_word_slots(status@, word);
        assert(status@ =~= Seq::new(5, |i: int| spec_slot_of_word(word, i)));
    }
    apply_status_updates(&mut status, updates);
    proof {
        lemma_encoded_word_valid(status);
    }
    status.to_word()
}

/// The verified core of the status-update endpoint: the new video word
/// when the request carries video overwrites, and per page-update entry
/// the targeted row and its new word.  An entry whose page is unknown is
/// dropped, and only the first entry for any page takes effect, as the
/// endpoint consumes each page once.
pub fn plan_status_update(
    video_word: u32,
    pages: &Vec<PageRow>,
    request: &UpdateVideoStatusRequest,
) -> (r: (Option<u32>, Vec<Option<(usize, u32)>>))
    requires
        forall|i: int| 0 <= i < request.video_updates@.len() ==> (#[trigger] request.video_updates@[i]).valid(),
        forall|p: int, i: int|
            0 <= p < request.page_updates@.len() && 0 <= i
                < request.page_updates@[p].updates@.len() ==> (
            #[trigger] request.page_updates@[p].updates@[i]).valid(),
    ensures
        r.0 is Some <==> request.video_updates@.len() > 0,
        r.0 matches Some(w) ==> w == spec_update_word(video_word, request.video_updates@),
        r.1@.len() == request.page_updates@.len(),
        forall|j: int|
            0 <= j < request.page_updates@.len() ==> match #[trigger] r.1@[j] {
                Some(entry) => {
                    &&& entry.0 < pages@.len()
                    &&& pages@[entry.0 as int].id == request.page_updates@[j].page_id
                    &&& (forall|j2: int|
                        0 <= j2 < j ==> (#[trigger] request.page_updates@[j2]).page_id
                            != request.page_updates@[j].page_id)
                    &&& entry.1 == spec_update_word(
                        pages@[entry.0 as int].download_status,
                        request.page_updates@[j].updates@,
                    )
                },
                None => (exists|j2: int|
                    0 <= j2 < j && (#[trigger] request.page_updates@[j2]).page_id
                        == request.page_updates@[j].page_id) || (forall|p: int|
                    0 <= p < pages@.len() ==> (#[trigger] pages@[p]).id
                        != request.page_updates@[j].page_id),
            },
{
    let video_out = if request.video_updates.len() > 0 {
        Some(update_word(video_word, &request.video_updates))
    } else {
        None
    };
    let n = request.page_updates.len();
    let mut out: Vec<Option<(usize, u32)>> = Vec::new();
    let mut j: usize = 0;
    while j < n
        invariant
            j <= n,
            n == request.page_updates@.len(),
            out@.len() == j,
            forall|i: int| 0 <= i < request.video_updates@.len() ==> (#[trigger] request.video_updates@[i]).valid(),
            forall|p: int, i: int|
                0 <= p < request.page_updates@.len() && 0 <= i
                    < request.page_updates@[p].updates@.len() ==> (
                #[trigger] request.page_updates@[p].updates@[i]).valid(),
            forall|q: int|
                0 <= q < j ==> match #[trigger] out@[q] {
                    Some(entry) => {
                        &&& entry.0 < pages@.len()
                        &&& pages@[entry.0 as int].id == request.page_updates@[q].page_id
                        &&& (forall|j2: int|
                            0 <= j2 < q ==> (#[trigger] request.page_updates@[j2]).page_id
                                != request.page_updates@[q].page_id)
                        &&& entry.1 == spec_update_word(
                            pages@[entry.0 as int].download_status,
                            request.page_updates@[q].updates@,
                        )
                    },
                    None => (exists|j2: int|
                        0 <= j2 < q && (#[trigger] request.page_updates@[j2]).page_id
                            == request.page_updates@[q].page_id) || (forall|p: int|
                        0 <= p < pages@.len() ==> (#[trigger] pages@[p]).id
                            != request.page_updates@[q].page_id),
                },
        decreases n - j,
    {
        let page_id = request.page_updates[j].page_id;
        let mut already_seen = false;
        let mut j2: usize = 0;
        while j2 < j
            invariant
                j2 <= j,
                j < n,
                n == request.page_updates@.len(),
                already_seen == exists|q: int|
                    0 <= q < j2 && (#[trigger] request.page_updates@[q]).page_id == page_id,
                page_id == request.page_updates@[j as int].page_id,
            decreases j - j2,
        {
            if request.page_updates[j2].page_id == page_id {
                already_seen = true;
            }
            j2 = j2 + 1;
        }
        if already_seen {
            out.push(None);
        } else {
            match find_page_by_id(pages, page_id) {
                Some(idx) => {
                    let w = update_word(
                        pages[idx].download_status,
                        &request.page_updates[j].updates,
                    );
                    out.push(Some((idx, w)));
                },
                None => {
                    out.push(None);
                },
            }
        }
        j = j + 1;
    }
    (video_out, out)
}

/// One slot after a reset: a forced reset clears every started slot, an
/// ordinary one clears only the retry counters and keeps terminal marks.
pub open spec fn spec_reset_slot(v: u32, force: bool) -> u32 {
    if force {
        0u32
    } else if 1 <= v <= 6 {
        0u32
    } else {
        v
    }
}

/// Whether a reset changes the word.
pub open spec fn spec_reset_changes(word: u32, force: bool) -> bool {
    exists|i: int|
        0 <= i < 5 && #[trigger] spec_slot_of_word(word, i) != spec_reset_slot(
            spec_slot_of_word(word, i),
            force,
        )
}

/// The word after a reset.
pub open spec fn spec_reset_word(word: u32, force: bool) -> int {
    crate::status::word_of_slots(
        Seq::new(5, |i: int| spec_reset_slot(spec_slot_of_word(word, i), force)),
    )
}

/// Resets one packed word: the new word when anything changed, nothing
/// otherwise.
pub fn reset_word(word: u32, force: bool) -> (r: Option<u32>)
    ensures
        r is Some <==> spec_reset_changes(word, force),
        r matches Some(w) ==> w == spec_reset_word(word, force) && crate::status::valid_status_word(
            w,
        ),
{
    let mut status = DownloadStatus::from_word(word);
    proof {
        lemma_from_word_slots(status@, word);
    }
    let ghost before = status@;
    let changed = if force {
        status.force_reset_failed()
    } else {
        status.reset_failed()
    };
    proof {
        assert(status@ =~= Seq::new(5, |i: int| spec_reset_slot(spec_slot_of_word(word, i), force)));
        lemma_encoded_word_valid(status);
    }
    if changed {
        Some(status.to_word())
    } else {
        None
    }
}

/// The reset plan of one video and its pages.
pub struct ResetPlan {
    /// The video's new word, when its own reset or a page reset touched it.
    pub video_word: Option<u32>,
    /// Per page, aligned with the input: the new word when it changed.
    pub page_words: Vec<Option<u32>>,
}

/// The video word after a reset that also requeues the pages aggregate.
pub open spec fn spec_reset_video_word(word: u32, force: bool, any_page_reset: bool) -> int {
    crate::status::word_of_slots(
        Seq::new(
            5,
            |i: int|
                if any_page_reset && i == 4 {
                    0u32
                } else {
                    spec_reset_slot(spec_slot_of_word(word, i), force)
                },
        ),
    )
}

/// Plans the reset endpoint's work for one video: every page whose word
/// holds resettable slots gets a cleared word; the video's own word is
/// reset likewise, and whenever any page was requeued the video's pages
/// aggregate returns to "not started" so the next cycle re-runs it.
pub fn plan_video_reset(video_word: u32, page_words: &Vec<u32>, force: bool) -> (r: ResetPlan)
    ensures
        r.page_words@.len() == page_words@.len(),
        forall|p: int|
            0 <= p < page_words@.len() ==> #[trigger] r.page_words@[p] == (if spec_reset_changes(
                page_words@[p],
                force,
            ) {
                Some(spec_reset_word(page_words@[p], force) as u32)
            } else {
                None::<u32>
            }),
        ({
            let any_page = exists|p: int|
                0 <= p < page_words@.len() && spec_reset_changes(#[trigger] page_words@[p], force);
            &&& (r.video_word is Some <==> (spec_reset_changes(video_word, force) || any_page))
            &&& (r.video_word matches Some(w) ==> w == spec_reset_video_word(
                video_word,
                force,
                any_page,
            ))
        }),
{
    let n = page_words.len();
    let mut out: Vec<Option<u32>> = Vec::new();
    let mut any_page = false;
    let mut p: usize = 0;
    while p < n
        invariant
            p <= n,
            n == page_words@.len(),
            out@.len() == p,
            forall|j: int|
                0 <= j < p ==> #[trigger] out@[j] == (if spec_reset_changes(
                    page_words@[j],
                    force,
                ) {
                    Some(spec_reset_word(page_words@[j], force) as u32)
                } else {
                    None::<u32>
                }),
            any_page == exists|j: int|
                0 <= j < p && spec_reset_changes(#[trigger] page_words@[j], force),
        decreases n - p,
    {
        let new_word = reset_word(page_words[p], force);
        if new_word.is_some() {
            any_page = true;
        }
        out.push(new_word);
        p = p + 1;
    }
    let mut video_status = DownloadStatus::from_word(video_word);
    proof {
        lemma_from_word_slots(video_status@, video_word);
    }
    let video_changed = if force {
        video_status.force_reset_failed()
    } else {
        video_status.reset_failed()
    };
    let video_word_out = if any_page {
        video_status.set(4, 0);
        proof {
            assert(video_status@ =~= Seq::new(
                5,
                |i: int|
                    if i == 4 {
                        0u32
                    } else {
                        spec_reset_slot(spec_slot_of_word(video_word, i), force)
                    },
            ));
            lemma_encoded_word_valid(video_status);
        }
        Some(video_status.to_word())
    } else if video_changed {
        proof {
            assert(video_status@ =~= Seq::new(
                5,
                |i: int| spec_reset_slot(spec_slot_of_word(video_word, i), force),
            ));
            lemma_encoded_word_valid(video_status);
        }
        Some(video_status.to_word())
    } else {
        None
    };
    ResetPlan { video_word: video_word_out, page_words: out }
}

/// Finds the page row with this identifier.
pub fn find_page_by_id(pages: &Vec<PageRow>, page_id: i32) -> (r: Option<usize>)
    ensures
        match r {
            Some(i) => i < pages@.len() && pages@[i as int].id == page_id,
            None => forall|j: int| 0 <= j < pages@.len() ==> (#[trigger] pages@[j]).id != page_id,
        },
{
    let n = pages.len();
    let mut i: usize = 0;
    while i < n
        invariant
            i <= n,
            n == pages@.len(),
            forall|j: int| 0 <= j < i ==> (#[trigger] pages@[j]).id != page_id,
        decreases n - i,
    {
        if pages[i].id == page_id {
            return Some(i);
        }
        i = i + 1;
    }
    None
}

/// Whether a bulk request's explicit id selection admits this video; a
/// request without a selection admits every video the filters admit.
pub fn id_selected(video_ids: &Option<Vec<i32>>, id: i32) -> (r: bool)
    ensures
        match *video_ids {
            Some(ref ids) => r == ids@.contains(id),
            None => r,
        },
{
    match video_ids {
        None => true,
        Some(ids) => {
            let n = ids.len();
            let mut i: usize = 0;
            while i < n
                invariant
                    i <= n,
                    n == ids@.len(),
                    *video_ids == Some(*ids),
                    forall|j: int| 0 <= j < i ==> (#[trigger] ids@[j]) != id,
                decreases n - i,
            {
                if ids[i] == id {
                    proof {
                        assert(ids@.contains(id)) by {
                            assert(ids@[i as int] == id);
                        }
                    }
                    return true;
                }
                i = i + 1;
            }
            false
        },
    }
}

/// The status words of the pages belonging to one video, among the first
/// `n` page rows, in row order.
pub open spec fn spec_words_of_video(pages: Seq<PageRow>, video_id: i32, n: int) -> Seq<u32>
    decreases n,
{
    if n <= 0 || n > pages.len() {
        Seq::empty()
    } else if pages[n - 1].video_id == video_id {
        spec_words_of_video(pages, video_id, n - 1).push(pages[n - 1].download_status)
    } else {
        spec_words_of_video(pages, video_id, n - 1)
    }
}

/// Collects the status words of one video's pages, as the bulk reset
/// endpoint groups them.
pub fn words_of_video(pages: &Vec<PageRow>, video_id: i32) -> (r: Vec<u32>)
    ensures
        r@ == spec_words_of_video(pages@, video_id, pages@.len() as int),
{
    let n = pages.len();
    let mut r: Vec<u32> = Vec::new();
    let mut i: usize = 0;
    while i < n
        invariant
            i <= n,
            n == pages@.len(),
            r@ == spec_words_of_video(pages@, video_id, i as int),
        decreases n - i,
    {
        if pages[i].video_id == video_id {
            r.push(pages[i].download_status);
        }
        i = i + 1;
    }
    r
}

/// The operator flags after an update: marking a video paid forces the
/// blacklist flag off whatever the request also said, so paid videos are
/// never downloaded.
pub fn apply_download_flags(
    row: &mut VideoRow,
    should_download: Option<bool>,
    is_paid_video: Option<bool>,
)
    ensures
        final(row).is_paid_video == (match is_paid_video {
            Some(p) => p,
            None => old(row).is_paid_video,
        }),
        final(row).should_download == (if is_paid_video == Some(true) {
            false
        } else {
            match should_download {
                Some(b) => b,
                None => old(row).should_download,
            }
        }),
        *final(row) == (VideoRow {
            should_download: final(row).should_download,
            is_paid_video: final(row).is_paid_video,
            ..*old(row)
        }),
{
    if let Some(b) = should_download {
        row.should_download = b;
    }
    if let Some(p) = is_paid_video {
        row.is_paid_video = p;
        if p {
            row.should_download = false;
        }
    }
}

/// Clear-and-reset of one video row: the status word returns to "nothing
/// started" and the page count is unresolved again.  Its page rows are
/// deleted and the artifact directory removed alongside, outside this
/// model.
pub fn clear_and_reset_video_row(row: &mut VideoRow)
    ensures
        final(row).download_status == 0,
        final(row).single_page is None,
        *final(row) == (VideoRow { download_status: 0, single_page: None, ..*old(row) }),
{
    row.download_status = 0;
    row.single_page = None;
}

/// The body of the test notification.
pub fn test_notification_message() -> (r: String)
    ensures
        r@ == "✅ 测试通知\n\n这是一条来自 BiliSync 的测试通知，如果您收到此消息，说明通知配置正常。"@,
{
    String::from_str(
        "✅ 测试通知\n\n这是一条来自 BiliSync 的测试通知，如果您收到此消息，说明通知配置正常。",
    )
}

/// Builds the test endpoint's answer from the send outcome: a success
/// names where to look for the message, a failure carries the underlying
/// error and channel-specific advice.
pub fn test_notifier_response(outcome: Result<(), String>, notifier: &Notifier) -> (r:
    TestNotifierResponse)
    ensures
        r.success == (outcome is Ok),
        outcome is Ok ==> r.message@ == "测试通知已发送"@,
        outcome is Ok ==> (match notifier {
            Notifier::Telegram { .. } => r.details matches Some(d) && d@
                == "请检查 Telegram 是否收到消息"@,
            Notifier::Webhook { url, .. } => r.details matches Some(d) && d@ == "已发送到: "@
                + url@,
        }),
        outcome matches Err(e) ==> r.message@ == "测试通知发送失败: "@ + e@,
        outcome is Err ==> (match notifier {
            Notifier::Telegram { .. } => r.details matches Some(d) && d@
                == "请检查 Bot Token 和 Chat ID 是否正确，以及网络连接是否正常"@,
            Notifier::Webhook { url, .. } => r.details matches Some(d) && d@
                == "请检查 Webhook URL ("@ + url@ + ") 是否可访问，以及模板格式是否正确"@,
        }),
{
    match outcome {
        Ok(_) => TestNotifierResponse {
            success: true,
            message: String::from_str("测试通知已发送"),
            details: match notifier {
                Notifier::Telegram { .. } => Some(
                    String::from_str("请检查 Telegram 是否收到消息"),
                ),
                Notifier::Webhook { url, .. } => {
                    let mut d = String::from_str("已发送到: ");
                    d.append(url.as_str());
                    Some(d)
                },
            },
        },
        Err(e) => TestNotifierResponse {
            success: false,
            message: {
                let mut m = String::from_str("测试通知发送失败: ");
                m.append(e.as_str());
                m
            },
            details: match notifier {
                Notifier::Telegram { .. } => Some(
                    String::from_str(
                        "请检查 Bot Token 和 Chat ID 是否正确，以及网络连接是否正常",
                    ),
                ),
                Notifier::Webhook { url, .. } => {
                    let mut d = String::from_str("请检查 Webhook URL (");
                    d.append(url.as_str());
                    d.append(") 是否可访问，以及模板格式是否正确");
                    Some(d)
                },
            },
        },
    }
}

} // verus!
