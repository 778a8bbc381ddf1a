//! Per-video download workflow over the status codec: which subtasks run,
//! how a single retried subtask is folded back into the packed word, the
//! video-level "pages downloaded" aggregate, and the on-disk names of a
//! page's artifacts.

use vstd::prelude::*;
use crate::status::{DownloadStatus, ExecutionStatus, slot_after, STATUS_OK};
use crate::strutil::{contains_sub, dec_digits, is_sub_at, push_char, str_ends_with, str_find_last,
    two_digits, u64_to_dec, u64_to_two_digits, ends_with};

verus! {

/// Slot of the video word that aggregates the pages' video-file fetches.
pub const VIDEO_PAGES_SLOT: usize = 4;

/// Slot of a page word that tracks its video-file fetch.
pub const PAGE_VIDEO_SLOT: usize = 1;

/// Whether the whole video is skipped this cycle: blacklisted by the
/// operator or behind a paywall (a paid video is never downloaded).
pub fn video_is_skipped(should_download: bool, is_paid_video: bool) -> (r: bool)
    ensures
        r == (!should_download || is_paid_video),
{
    !should_download || is_paid_video
}

/// Whether a subtask with current slot value `slot` still runs: terminal
/// slots short-circuit to `Skipped`.
pub fn subtask_should_run(slot: u32) -> (r: bool)
    ensures
        r == (slot != STATUS_OK),
{
    slot != STATUS_OK
}

/// The minimum of the pages' video-file slots from index `i` on; the
/// terminal value for no pages.
pub open spec fn pages_aggregate_from(pages: Seq<Seq<u32>>, i: int) -> u32
    decreases pages.len() - i,
{
    if i < 0 || i >= pages.len() {
        STATUS_OK
    } else {
        let rest = pages_aggregate_from(pages, i + 1);
        if pages[i][1] < rest {
            pages[i][1]
        } else {
            rest
        }
    }
}

/// The video's "pages downloaded" aggregate: the lattice meet (minimum)
/// of every page's video-file slot, terminal when there are no pages.
pub open spec fn spec_pages_aggregate(pages: Seq<Seq<u32>>) -> u32 {
    pages_aggregate_from(pages, 0)
}

/// The aggregate bounds every page's video-file slot from below.
pub proof fn lemma_aggregate_le_page(pages: Seq<Seq<u32>>, i: int, p: int)
    requires
        0 <= i <= p < pages.len(),
    ensures
        pages_aggregate_from(pages, i) <= pages[p][1],
    decreases p - i,
{
    if i < p {
        lemma_aggregate_le_page(pages, i + 1, p);
    }
}

/// Computes the pages aggregate: the minimum over every page's
/// video-file slot, the terminal value when the video has no pages.
pub fn pages_aggregate(pages: &Vec<DownloadStatus>) -> (r: u32)
    requires
        forall|p: int| 0 <= p < pages@.len() ==> (#[trigger] pages@[p]).well_formed(),
    ensures
        r == spec_pages_aggregate(pages@.map_values(|s: DownloadStatus| s@)),
        r <= STATUS_OK,
{
    let ghost views = pages@.map_values(|s: DownloadStatus| s@);
    let mut acc: u32 = STATUS_OK;
    let mut i: usize = pages.len();
    while i > 0
        invariant
            i <= pages@.len(),
            views == pages@.map_values(|s: DownloadStatus| s@),
            forall|p: int| 0 <= p < pages@.len() ==> (#[trigger] pages@[p]).well_formed(),
            acc == pages_aggregate_from(views, i as int),
            acc <= STATUS_OK,
        decreases i,
    {
        i = i - 1;
        let v = pages[i].get(1);
        if v < acc {
            acc = v;
        }
    }
    acc
}

/// Writes the pages aggregate into the video word's dedicated slot.
pub fn update_pages_aggregate(video: &mut DownloadStatus, pages: &Vec<DownloadStatus>)
    requires
        old(video).well_formed(),
        forall|p: int| 0 <= p < pages@.len() ==> (#[trigger] pages@[p]).well_formed(),
    ensures
        final(video)@ == old(video)@.update(
            VIDEO_PAGES_SLOT as int,
            spec_pages_aggregate(pages@.map_values(|s: DownloadStatus| s@)),
        ),
        final(video).well_formed(),
{
    let agg = pages_aggregate(pages);
    video.set(VIDEO_PAGES_SLOT, agg);
}

/// A fully succeeded video has every page's video file fetched: when the
/// video word is all-terminal and its aggregate slot is the minimum over
/// the pages' video-file slots, each of those slots is terminal.
pub proof fn lemma_succeeded_video_pages_done(video: Seq<u32>, pages: Seq<Seq<u32>>)
    requires
        video.len() == 5,
        forall|i: int| 0 <= i < 5 ==> video[i] == STATUS_OK,
        video[VIDEO_PAGES_SLOT as int] == spec_pages_aggregate(pages),
        forall|p: int| 0 <= p < pages.len() ==> (#[trigger] pages[p]).len() == 5,
        forall|p: int| 0 <= p < pages.len() ==> #[trigger] pages[p][1] <= STATUS_OK,
    ensures
        forall|p: int| 0 <= p < pages.len() ==> #[trigger] pages[p][1] == STATUS_OK,
{
    assert forall|p: int| 0 <= p < pages.len() implies #[trigger] pages[p][1] == STATUS_OK by {
        lemma_aggregate_le_page(pages, 0, p);
    }
}

/// A cycle in which every subtask short-circuits leaves the word as it
/// was: on an all-terminal status, a round of `Skipped` results changes
/// no slot, so an unchanged remote state incurs no status write.
pub proof fn lemma_idle_cycle_keeps_status(s: DownloadStatus)
    requires
        s.well_formed(),
        s.spec_succeeded(),
    ensures
        forall|i: int| 0 <= i < 5 ==> slot_after(s@[i], ExecutionStatus::Skipped) == s@[i],
{
}

/// Folds the outcome of one retried subtask into the packed word: the
/// chosen slot advances by the ordinary rules while every other slot is
/// masked with its preserved value.  Subtasks never report `Fixed`
/// themselves; only this masking path injects it.
pub fn apply_retry_result(status: &mut DownloadStatus, task_index: usize, result: ExecutionStatus)
    requires
        old(status).well_formed(),
        task_index < 5,
        !(result is Fixed),
    ensures
        final(status).well_formed(),
        final(status)@ == old(status)@.update(
            task_index as int,
            slot_after(old(status)@[task_index as int], result),
        ),
{
    let all_results = if task_index == 0 {
        [result, ExecutionStatus::Fixed(status.get(1)), ExecutionStatus::Fixed(status.get(2)),
            ExecutionStatus::Fixed(status.get(3)), ExecutionStatus::Fixed(status.get(4))]
    } else if task_index == 1 {
        [ExecutionStatus::Fixed(status.get(0)), result, ExecutionStatus::Fixed(status.get(2)),
            ExecutionStatus::Fixed(status.get(3)), ExecutionStatus::Fixed(status.get(4))]
    } else if task_index == 2 {
        [ExecutionStatus::Fixed(status.get(0)), ExecutionStatus::Fixed(status.get(1)), result,
            ExecutionStatus::Fixed(status.get(3)), ExecutionStatus::Fixed(status.get(4))]
    } else if task_index == 3 {
        [ExecutionStatus::Fixed(status.get(0)), ExecutionStatus::Fixed(status.get(1)),
            ExecutionStatus::Fixed(status.get(2)), result, ExecutionStatus::Fixed(status.get(4))]
    } else {
        [ExecutionStatus::Fixed(status.get(0)), ExecutionStatus::Fixed(status.get(1)),
            ExecutionStatus::Fixed(status.get(2)), ExecutionStatus::Fixed(status.get(3)), result]
    };
    status.update_status(&all_results);
    proof {
        assert(status@ =~= old(status)@.update(
            task_index as int,
            slot_after(old(status)@[task_index as int], result),
        ));
    }
}

/// A synthesized width/height pair of a playable segment.
pub struct Dimension {
    pub width: i32,
    pub height: i32,
    pub rotate: i32,
}

/// Synthesizes the dimension of a stored page: only a page that recorded
/// both a width and a height yields one, with no rotation.
pub fn page_dimension(width: Option<i32>, height: Option<i32>) -> (r: Option<Dimension>)
    ensures
        r is Some <==> width is Some && height is Some,
        r matches Some(d) ==> d.width == width->0 && d.height == height->0 && d.rotate == 0,
{
    match (width, height) {
        (Some(w), Some(h)) => Some(Dimension { width: w, height: h, rotate: 0 }),
        _ => None,
    }
}

/// The zero-padded episode ordinal: at least two digits.
pub open spec fn spec_episode_digits(pid: int) -> Seq<char> {
    if pid < 100 {
        two_digits(pid)
    } else {
        dec_digits(pid)
    }
}

/// The base file name of one page: the rendered page name alone for a
/// single-page video, and `<name> - S01E<pid>` under a season for a
/// multi-page one.
pub open spec fn spec_page_stem(single_page: bool, base_name: Seq<char>, pid: int) -> Seq<char> {
    if single_page {
        base_name
    } else {
        base_name + " - S01E"@ + spec_episode_digits(pid)
    }
}

/// Renders the base file name of one page.
pub fn page_stem(single_page: bool, base_name: &str, pid: u64) -> (r: String)
    ensures
        r@ == spec_page_stem(single_page, base_name@, pid as int),
{
    if single_page {
        String::from_str(base_name)
    } else {
        let mut r = String::from_str(base_name);
        r.append(" - S01E");
        if pid < 100 {
            r.append(u64_to_two_digits(pid).as_str());
        } else {
            r.append(u64_to_dec(pid).as_str());
        }
        r
    }
}

/// The artifact paths of one page.
pub struct PageFilePaths {
    pub poster: String,
    pub video: String,
    pub nfo: String,
    pub danmaku: String,
    pub fanart: Option<String>,
    pub subtitle: String,
}

/// The directory the page's files live in: the video root for a
/// single-page video, its `Season 1` subdirectory otherwise.
pub open spec fn spec_page_dir(single_page: bool, base_path: Seq<char>) -> Seq<char> {
    if single_page {
        base_path + "/"@
    } else {
        base_path + "/Season 1/"@
    }
}

/// Lays out the artifact paths of one page.  A single-page video keeps
/// its files at the video root with a `-poster`/`-fanart` pair; a
/// multi-page video files them under `Season 1` with a `-thumb` cover and
/// no fanart.
pub fn page_file_paths(single_page: bool, base_path: &str, base_name: &str, pid: u64) -> (r:
    PageFilePaths)
    ensures
        ({
            let dir = spec_page_dir(single_page, base_path@);
            let stem = spec_page_stem(single_page, base_name@, pid as int);
            &&& r.poster@ == dir + stem + (if single_page {
                "-poster.jpg"@
            } else {
                "-thumb.jpg"@
            })
            &&& r.video@ == dir + stem + ".mp4"@
            &&& r.nfo@ == dir + stem + ".nfo"@
            &&& r.danmaku@ == dir + stem + ".zh-CN.default.ass"@
            &&& (single_page <==> r.fanart is Some)
            &&& r.fanart matches Some(f) ==> f@ == dir + stem + "-fanart.jpg"@
            &&& r.subtitle@ == dir + stem + ".srt"@
        }),
{
    let mut dir = String::from_str(base_path);
    if single_page {
        dir.append("/");
    } else {
        dir.append("/Season 1/");
    }
    let stem = page_stem(single_page, base_name, pid);
    let mut prefix = String::from_str(dir.as_str());
    prefix.append(stem.as_str());
    let mut poster = String::from_str(prefix.as_str());
    if single_page {
        poster.append("-poster.jpg");
    } else {
        poster.append("-thumb.jpg");
    }
    let mut video = String::from_str(prefix.as_str());
    video.append(".mp4");
    let mut nfo = String::from_str(prefix.as_str());
    nfo.append(".nfo");
    let mut danmaku = String::from_str(prefix.as_str());
    danmaku.append(".zh-CN.default.ass");
    let fanart = if single_page {
        let mut f = String::from_str(prefix.as_str());
        f.append("-fanart.jpg");
        Some(f)
    } else {
        None
    };
    let mut subtitle = String::from_str(prefix.as_str());
    subtitle.append(".srt");
    PageFilePaths { poster, video, nfo, danmaku, fanart, subtitle }
}

/// The artifact files of one uploader.
pub struct UpperFilePaths {
    /// The avatar, `folder.jpg`.
    pub face: String,
    /// The uploader NFO, `person.nfo`.
    pub nfo: String,
}

/// The directory of one uploader's artifacts: the configured avatar root,
/// then the first digit of the uploader id, then the full id.
pub open spec fn spec_upper_dir(upper_path: Seq<char>, upper_id: int) -> Seq<char> {
    upper_path + "/"@ + seq![dec_digits(upper_id)[0]] + "/"@ + dec_digits(upper_id) + "/"@
}

/// Lays out the avatar and NFO paths of one uploader, sharded by the
/// first digit of the uploader id.
pub fn upper_file_paths(upper_path: &str, upper_id: i64) -> (r: UpperFilePaths)
    requires
        upper_id >= 0,
    ensures
        r.face@ == spec_upper_dir(upper_path@, upper_id as int) + "folder.jpg"@,
        r.nfo@ == spec_upper_dir(upper_path@, upper_id as int) + "person.nfo"@,
{
    let uid = u64_to_dec(upper_id as u64);
    let mut dir = String::from_str(upper_path);
    dir.append("/");
    proof {
        lemma_dec_digits_nonempty(upper_id as int);
    }
    push_char(&mut dir, uid.as_str().get_char(0));
    dir.append("/");
    dir.append(uid.as_str());
    dir.append("/");
    let mut face = String::from_str(dir.as_str());
    face.append("folder.jpg");
    let mut nfo = String::from_str(dir.as_str());
    nfo.append("person.nfo");
    proof {
        assert(dir@ =~= spec_upper_dir(upper_path@, upper_id as int));
    }
    UpperFilePaths { face, nfo }
}

proof fn lemma_dec_digits_nonempty(n: int)
    ensures
        dec_digits(n).len() >= 1,
    decreases n,
{
    if n >= 10 {
        lemma_dec_digits_nonempty(n / 10);
    }
}

/// `s` with every trailing repetition of `suffix` removed.
pub open spec fn strip_suffix_all(s: Seq<char>, suffix: Seq<char>) -> Seq<char>
    decreases s.len(),
{
    if suffix.len() > 0 && ends_with(s, suffix) {
        strip_suffix_all(s.subrange(0, s.len() - suffix.len()), suffix)
    } else {
        s
    }
}

/// Removes every trailing repetition of `suffix` from `s`.
pub fn strip_suffix(s: &str, suffix: &str) -> (r: String)
    requires
        suffix@.len() > 0,
    ensures
        r@ == strip_suffix_all(s@, suffix@),
{
    let mut cur = String::from_str(s);
    while str_ends_with(cur.as_str(), suffix)
        invariant
            suffix@.len() > 0,
            strip_suffix_all(cur@, suffix@) == strip_suffix_all(s@, suffix@),
        decreases cur@.len(),
    {
        let keep = cur.as_str().unicode_len() - suffix.unicode_len();
        let shorter = String::from_str(cur.as_str().substring_char(0, keep));
        proof {
            assert(shorter@ =~= cur@.subrange(0, cur@.len() - suffix@.len()));
        }
        cur = shorter;
    }
    cur
}

/// Whether `k` is the index of the last `/` of `path`.
pub open spec fn last_slash_at(path: Seq<char>, k: int) -> bool {
    &&& 0 <= k < path.len()
    &&& path[k] == '/'
    &&& forall|m: int| k < m < path.len() ==> path[m] != '/'
}

/// Whether a single-page video path can be split at all: it has a
/// separator to cut the file name off.
pub open spec fn single_page_path_splits(path: Seq<char>) -> bool {
    contains_sub(path, "/"@)
}

/// Whether a multi-page video path can be split: a last separator, a
/// second separator before it (the season folder's parent), and a ` - `
/// inside the file name.
pub open spec fn multi_page_path_splits(path: Seq<char>) -> bool {
    exists|k: int|
        {
            &&& #[trigger] last_slash_at(path, k)
            &&& contains_sub(path.subrange(0, k), "/"@)
            &&& contains_sub(path.subrange(k + 1, path.len() as int), " - "@)
        }
}

proof fn lemma_last_slash_unique(path: Seq<char>, k1: int, k2: int)
    requires
        last_slash_at(path, k1),
        last_slash_at(path, k2),
    ensures
        k1 == k2,
{
    if k1 < k2 {
        assert(path[k2] != '/');
    } else if k2 < k1 {
        assert(path[k1] != '/');
    }
}

/// Recovers the artifact directory and base name of a page from its
/// stored video path, which is authoritative on re-observation.  For a
/// single-page video the directory is the path's parent and the name is
/// the file name with its `.mp4` suffix removed; for a multi-page video
/// the directory is the parent of the `Season 1` folder and the name is
/// everything before the last ` - ` of the file name.  Recovery succeeds
/// exactly when the path has the separators its layout demands; a path
/// that cannot be split yields nothing.
pub fn derive_page_base(page_path: &str, single_page: bool) -> (r: Option<(String, String)>)
    ensures
        single_page ==> (r is Some <==> single_page_path_splits(page_path@)),
        !single_page ==> (r is Some <==> multi_page_path_splits(page_path@)),
        r matches Some(parts) ==> (if single_page {
            single_page_base_of(page_path@, parts.0@, parts.1@)
        } else {
            multi_page_base_of(page_path@, parts.0@, parts.1@)
        }),
{
    if single_page {
        derive_single_page_base(page_path)
    } else {
        derive_multi_page_base(page_path)
    }
}

/// The parent directory and `.mp4`-stripped file name of a single-page
/// video path.
pub open spec fn single_page_base_of(path: Seq<char>, dir: Seq<char>, stem: Seq<char>) -> bool {
    exists|k: int|
        {
            &&& 0 <= k < path.len()
            &&& #[trigger] path[k] == '/'
            &&& (forall|m: int| k < m < path.len() ==> path[m] != '/')
            &&& dir == path.subrange(0, k)
            &&& stem == strip_suffix_all(path.subrange(k + 1, path.len() as int), ".mp4"@)
        }
}

/// The grandparent directory, and the file name cut at its last ` - `,
/// of a multi-page video path.
pub open spec fn multi_page_base_of(path: Seq<char>, dir: Seq<char>, stem: Seq<char>) -> bool {
    exists|k: int, k2: int|
        {
            &&& 0 <= k2 < k < path.len()
            &&& #[trigger] path[k] == '/'
            &&& (forall|m: int| k < m < path.len() ==> path[m] != '/')
            &&& #[trigger] path[k2] == '/'
            &&& (forall|m: int| k2 < m < k ==> path[m] != '/')
            &&& dir == path.subrange(0, k2)
            &&& exists|j: int|
                {
                    &&& #[trigger] is_sub_at(path.subrange(k + 1, path.len() as int), " - "@, j)
                    &&& (forall|m: int|
                        j < m ==> !#[trigger] is_sub_at(
                            path.subrange(k + 1, path.len() as int),
                            " - "@,
                            m,
                        ))
                    &&& stem == path.subrange(k + 1, path.len() as int).subrange(0, j)
                }
        }
}

fn derive_single_page_base(page_path: &str) -> (r: Option<(String, String)>)
    ensures
        r is Some <==> single_page_path_splits(page_path@),
        r matches Some(parts) ==> single_page_base_of(page_path@, parts.0@, parts.1@),
{
    let len = page_path.unicode_len();
    proof {
        reveal_strlit("/");
        reveal_strlit(".mp4");
    }
    let k = match str_find_last(page_path, "/") {
        Some(k) => k,
        None => {
            return None;
        },
    };
    let dir = page_path.substring_char(0, k);
    let file_name = page_path.substring_char(k + 1, len);
    let stem = strip_suffix(file_name, ".mp4");
    proof {
        assert(page_path@.subrange(k as int, k + 1) == "/"@);
        assert(page_path@[k as int] == page_path@.subrange(k as int, k + 1)[0]);
        assert(page_path@[k as int] == '/');
        assert forall|m: int| k < m < page_path@.len() implies page_path@[m] != '/' by {
            if page_path@[m] == '/' {
                assert(page_path@.subrange(m, m + 1) =~= "/"@);
                assert(is_sub_at(page_path@, "/"@, m));
            }
        }
    }
    Some((String::from_str(dir), stem))
}

#[verifier::rlimit(30)]
fn derive_multi_page_base(page_path: &str) -> (r: Option<(String, String)>)
    ensures
        r is Some <==> multi_page_path_splits(page_path@),
        r matches Some(parts) ==> multi_page_base_of(page_path@, parts.0@, parts.1@),
{
    let len = page_path.unicode_len();
    proof {
        reveal_strlit("/");
        reveal_strlit(" - ");
    }
    let k = match str_find_last(page_path, "/") {
        Some(k) => k,
        None => {
            proof {
                assert forall|kx: int| !#[trigger] last_slash_at(page_path@, kx) by {
                    if last_slash_at(page_path@, kx) {
                        assert(page_path@.subrange(kx, kx + 1) =~= "/"@);
                        assert(is_sub_at(page_path@, "/"@, kx));
                    }
                }
            }
            return None;
        },
    };
    let dir = page_path.substring_char(0, k);
    let file_name = page_path.substring_char(k + 1, len);
    proof {
        assert(page_path@.subrange(k as int, k + 1) == "/"@);
        assert(page_path@[k as int] == page_path@.subrange(k as int, k + 1)[0]);
        assert(page_path@[k as int] == '/');
        assert forall|m: int| k < m < page_path@.len() implies page_path@[m] != '/' by {
            if page_path@[m] == '/' {
                assert(page_path@.subrange(m, m + 1) =~= "/"@);
                assert(is_sub_at(page_path@, "/"@, m));
            }
        }
        assert(last_slash_at(page_path@, k as int));
    }
    let k2 = match str_find_last(dir, "/") {
        Some(k2) => k2,
        None => {
            proof {
                assert forall|kx: int|
                    !(#[trigger] last_slash_at(page_path@, kx) && contains_sub(
                        page_path@.subrange(0, kx),
                        "/"@,
                    ) && contains_sub(
                        page_path@.subrange(kx + 1, page_path@.len() as int),
                        " - "@,
                    )) by {
                    if last_slash_at(page_path@, kx) {
                        lemma_last_slash_unique(page_path@, kx, k as int);
                    }
                }
                assert(!multi_page_path_splits(page_path@));
            }
            return None;
        },
    };
    let base_dir = dir.substring_char(0, k2);
    let j = match str_find_last(file_name, " - ") {
        Some(j) => j,
        None => {
            proof {
                assert forall|kx: int|
                    !(#[trigger] last_slash_at(page_path@, kx) && contains_sub(
                        page_path@.subrange(0, kx),
                        "/"@,
                    ) && contains_sub(
                        page_path@.subrange(kx + 1, page_path@.len() as int),
                        " - "@,
                    )) by {
                    if last_slash_at(page_path@, kx) {
                        lemma_last_slash_unique(page_path@, kx, k as int);
                    }
                }
                assert(!multi_page_path_splits(page_path@));
            }
            return None;
        },
    };
    let stem = file_name.substring_char(0, j);
    proof {
        assert(dir@.subrange(k2 as int, k2 + 1) == "/"@);
        assert(dir@[k2 as int] == dir@.subrange(k2 as int, k2 + 1)[0]);
        assert(dir@[k2 as int] == '/');
        assert(page_path@[k2 as int] == '/');
        assert forall|m: int| k2 < m < k implies page_path@[m] != '/' by {
            if page_path@[m] == '/' {
                assert(dir@.subrange(m, m + 1) =~= "/"@);
                assert(is_sub_at(dir@, "/"@, m));
            }
        }
        assert(base_dir@ =~= page_path@.subrange(0, k2 as int));
        assert(stem@ =~= page_path@.subrange(k + 1, page_path@.len() as int).subrange(0, j as int));
        assert(contains_sub(page_path@.subrange(0, k as int), "/"@));
        assert(contains_sub(page_path@.subrange(k + 1, page_path@.len() as int), " - "@));
        assert(multi_page_path_splits(page_path@));
    }
    Some((String::from_str(base_dir), String::from_str(stem)))
}

} // verus!
