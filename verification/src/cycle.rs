//! One download cycle over all enabled sources: tallying scans per source
//! kind, aborting on the remote platform's risk control without advancing
//! any further watermark, and the summary texts the cycle and the daily
//! job send.

use vstd::prelude::*;
use crate::scan::{SourceKind, VideoRow, VideoSourceState};
use crate::status::{spec_word_failed, spec_word_succeeded, spec_word_waiting, word_failed,
    word_succeeded, word_waiting};
use crate::strutil::{dec_digits, join_parts, spec_join, u64_to_dec};

verus! {

/// How the scan of one source ended, as the pipeline classifies it.
#[derive(Clone, Copy, PartialEq, Eq, Structural)]
pub enum SourceScanResult {
    /// The source was scanned in full.
    Success,
    /// The platform's anti-abuse throttle fired: the cycle stops here.
    RiskControl,
    /// Any other error: the source is skipped, the cycle goes on.
    OtherError,
}

/// How many of the first `n` sources are of kind `k`.
pub open spec fn count_kind_upto(kinds: Seq<SourceKind>, k: SourceKind, n: int) -> int
    decreases n,
{
    if n <= 0 || n > kinds.len() {
        0
    } else {
        count_kind_upto(kinds, k, n - 1) + (if kinds[n - 1] == k {
            1int
        } else {
            0int
        })
    }
}

/// How many of the sources from index `from` on are of kind `k`.
pub open spec fn count_kind_from(kinds: Seq<SourceKind>, k: SourceKind, from: int) -> int
    decreases kinds.len() - from,
{
    if from < 0 || from >= kinds.len() {
        0
    } else {
        (if kinds[from] == k {
            1int
        } else {
            0int
        }) + count_kind_from(kinds, k, from + 1)
    }
}

/// How many of the first `n` sources of kind `k` scanned successfully.
pub open spec fn count_success_upto(
    kinds: Seq<SourceKind>,
    results: Seq<SourceScanResult>,
    k: SourceKind,
    n: int,
) -> int
    decreases n,
{
    if n <= 0 || n > kinds.len() || n > results.len() {
        0
    } else {
        count_success_upto(kinds, results, k, n - 1) + (
        if kinds[n - 1] == k && results[n - 1] is Success {
            1int
        } else {
            0int
        })
    }
}

/// The index of the first risk-control hit at or after `i`; the length
/// when none fires.
pub open spec fn first_risk_from(results: Seq<SourceScanResult>, i: int) -> int
    decreases results.len() - i,
{
    if i < 0 || i >= results.len() {
        results.len() as int
    } else if results[i] is RiskControl {
        i
    } else {
        first_risk_from(results, i + 1)
    }
}

/// What one cycle did, per source kind.
pub struct CycleReport {
    pub total_collections: usize,
    pub total_favorites: usize,
    pub total_submissions: usize,
    pub total_watch_later: usize,
    pub succeeded_collections: usize,
    pub succeeded_favorites: usize,
    pub succeeded_submissions: usize,
    pub succeeded_watch_later: usize,
    pub risk_control_collections: usize,
    pub risk_control_favorites: usize,
    pub risk_control_submissions: usize,
    pub risk_control_watch_later: usize,
    /// Whether risk control cut the cycle short.
    pub aborted: bool,
}

proof fn lemma_count_kind_bounds(kinds: Seq<SourceKind>, k: SourceKind, n: int)
    requires
        0 <= n <= kinds.len(),
    ensures
        0 <= count_kind_upto(kinds, k, n) <= n,
    decreases n,
{
    if n > 0 {
        lemma_count_kind_bounds(kinds, k, n - 1);
    }
}

proof fn lemma_count_kind_from_bounds(kinds: Seq<SourceKind>, k: SourceKind, from: int)
    requires
        0 <= from <= kinds.len(),
    ensures
        0 <= count_kind_from(kinds, k, from) <= kinds.len() - from,
    decreases kinds.len() - from,
{
    if from < kinds.len() {
        lemma_count_kind_from_bounds(kinds, k, from + 1);
    }
}

proof fn lemma_count_success_bounds(
    kinds: Seq<SourceKind>,
    results: Seq<SourceScanResult>,
    k: SourceKind,
    n: int,
)
    requires
        0 <= n,
    ensures
        0 <= count_success_upto(kinds, results, k, n) <= n,
    decreases n,
{
    if n > 0 {
        lemma_count_success_bounds(kinds, results, k, n - 1);
    }
}

/// Tallies one cycle: every source counts toward its kind's total;
/// sources scanned before the first risk-control hit count as succeeded
/// when their scan succeeded; the cycle aborts at that hit, and the
/// aborting source together with every source after it is left pending
/// ("to scan") for the next tick.
pub fn tally_cycle(kinds: &Vec<SourceKind>, results: &Vec<SourceScanResult>) -> (r: CycleReport)
    requires
        kinds@.len() == results@.len(),
    ensures
        ({
            let ks = kinds@;
            let rs = results@;
            let n = ks.len() as int;
            let abort = first_risk_from(rs, 0);
            &&& r.total_collections == count_kind_upto(ks, SourceKind::Collection, n)
            &&& r.total_favorites == count_kind_upto(ks, SourceKind::Favorite, n)
            &&& r.total_submissions == count_kind_upto(ks, SourceKind::Submission, n)
            &&& r.total_watch_later == count_kind_upto(ks, SourceKind::WatchLater, n)
            &&& r.succeeded_collections == count_success_upto(ks, rs, SourceKind::Collection, abort)
            &&& r.succeeded_favorites == count_success_upto(ks, rs, SourceKind::Favorite, abort)
            &&& r.succeeded_submissions == count_success_upto(ks, rs, SourceKind::Submission, abort)
            &&& r.succeeded_watch_later == count_success_upto(ks, rs, SourceKind::WatchLater, abort)
            &&& r.aborted == (abort < n)
            &&& r.risk_control_collections == (if abort < n {
                count_kind_from(ks, SourceKind::Collection, abort)
            } else {
                0int
            })
            &&& r.risk_control_favorites == (if abort < n {
                count_kind_from(ks, SourceKind::Favorite, abort)
            } else {
                0int
            })
            &&& r.risk_control_submissions == (if abort < n {
                count_kind_from(ks, SourceKind::Submission, abort)
            } else {
                0int
            })
            &&& r.risk_control_watch_later == (if abort < n {
                count_kind_from(ks, SourceKind::WatchLater, abort)
            } else {
                0int
            })
        }),
{
    let n = kinds.len();
    let mut total_collections: usize = 0;
    let mut total_favorites: usize = 0;
    let mut total_submissions: usize = 0;
    let mut total_watch_later: usize = 0;
    let mut i: usize = 0;
    while i < n
        invariant
            i <= n,
            n == kinds@.len(),
            total_collections == count_kind_upto(kinds@, SourceKind::Collection, i as int),
            total_favorites == count_kind_upto(kinds@, SourceKind::Favorite, i as int),
            total_submissions == count_kind_upto(kinds@, SourceKind::Submission, i as int),
            total_watch_later == count_kind_upto(kinds@, SourceKind::WatchLater, i as int),
        decreases n - i,
    {
        proof {
            lemma_count_kind_bounds(kinds@, SourceKind::Collection, i as int);
            lemma_count_kind_bounds(kinds@, SourceKind::Favorite, i as int);
            lemma_count_kind_bounds(kinds@, SourceKind::Submission, i as int);
            lemma_count_kind_bounds(kinds@, SourceKind::WatchLater, i as int);
        }
        match kinds[i] {
            SourceKind::Collection => {
                total_collections = total_collections + 1;
            },
            SourceKind::Favorite => {
                total_favorites = total_favorites + 1;
            },
            SourceKind::Submission => {
                total_submissions = total_submissions + 1;
            },
            SourceKind::WatchLater => {
                total_watch_later = total_watch_later + 1;
            },
        }
        i = i + 1;
    }
    let mut succeeded_collections: usize = 0;
    let mut succeeded_favorites: usize = 0;
    let mut succeeded_submissions: usize = 0;
    let mut succeeded_watch_later: usize = 0;
    let mut j: usize = 0;
    while j < n && !matches!(results[j], SourceScanResult::RiskControl)
        invariant
            j <= n,
            n == kinds@.len(),
            n == results@.len(),
            first_risk_from(results@, 0) == first_risk_from(results@, j as int),
            succeeded_collections == count_success_upto(
                kinds@,
                results@,
                SourceKind::Collection,
                j as int,
            ),
            succeeded_favorites == count_success_upto(
                kinds@,
                results@,
                SourceKind::Favorite,
                j as int,
            ),
            succeeded_submissions == count_success_upto(
                kinds@,
                results@,
                SourceKind::Submission,
                j as int,
            ),
            succeeded_watch_later == count_success_upto(
                kinds@,
                results@,
                SourceKind::WatchLater,
                j as int,
            ),
        decreases n - j,
    {
        proof {
            lemma_count_success_bounds(kinds@, results@, SourceKind::Collection, j as int);
            lemma_count_success_bounds(kinds@, results@, SourceKind::Favorite, j as int);
            lemma_count_success_bounds(kinds@, results@, SourceKind::Submission, j as int);
            lemma_count_success_bounds(kinds@, results@, SourceKind::WatchLater, j as int);
        }
        if matches!(results[j], SourceScanResult::Success) {
            match kinds[j] {
                SourceKind::Collection => {
                    succeeded_collections = succeeded_collections + 1;
                },
                SourceKind::Favorite => {
                    succeeded_favorites = succeeded_favorites + 1;
                },
                SourceKind::Submission => {
                    succeeded_submissions = succeeded_submissions + 1;
                },
                SourceKind::WatchLater => {
                    succeeded_watch_later = succeeded_watch_later + 1;
                },
            }
        }
        j = j + 1;
    }
    let aborted = j < n;
    proof {
        assert(first_risk_from(results@, 0) == j as int || (j == n && first_risk_from(results@, 0)
            == n as int));
    }
    let mut risk_control_collections: usize = 0;
    let mut risk_control_favorites: usize = 0;
    let mut risk_control_submissions: usize = 0;
    let mut risk_control_watch_later: usize = 0;
    if aborted {
        let mut p: usize = n;
        while p > j
            invariant
                j <= p <= n,
                n == kinds@.len(),
                risk_control_collections == count_kind_from(kinds@, SourceKind::Collection, p as int),
                risk_control_favorites == count_kind_from(kinds@, SourceKind::Favorite, p as int),
                risk_control_submissions == count_kind_from(kinds@, SourceKind::Submission, p as int),
                risk_control_watch_later == count_kind_from(kinds@, SourceKind::WatchLater, p as int),
            decreases p,
        {
            p = p - 1;
            proof {
                lemma_count_kind_from_bounds(kinds@, SourceKind::Collection, p + 1);
                lemma_count_kind_from_bounds(kinds@, SourceKind::Favorite, p + 1);
                lemma_count_kind_from_bounds(kinds@, SourceKind::Submission, p + 1);
                lemma_count_kind_from_bounds(kinds@, SourceKind::WatchLater, p + 1);
            }
            match kinds[p] {
                SourceKind::Collection => {
                    risk_control_collections = risk_control_collections + 1;
                },
                SourceKind::Favorite => {
                    risk_control_favorites = risk_control_favorites + 1;
                },
                SourceKind::Submission => {
                    risk_control_submissions = risk_control_submissions + 1;
                },
                SourceKind::WatchLater => {
                    risk_control_watch_later = risk_control_watch_later + 1;
                },
            }
        }
    }
    CycleReport {
        total_collections,
        total_favorites,
        total_submissions,
        total_watch_later,
        succeeded_collections,
        succeeded_favorites,
        succeeded_submissions,
        succeeded_watch_later,
        risk_control_collections,
        risk_control_favorites,
        risk_control_submissions,
        risk_control_watch_later,
        aborted,
    }
}

/// One kind's fragment of the scan statistics: succeeded over total, and
/// the pending count when risk control left some of this kind unscanned.
pub open spec fn spec_source_part(label: Seq<char>, s: int, t: int, p: int) -> Seq<char> {
    label + ": "@ + dec_digits(s) + " / "@ + dec_digits(t) + (if p > 0 {
        " - 待扫描: "@ + dec_digits(p)
    } else {
        Seq::empty()
    })
}

fn source_part(label: &str, s: u64, t: u64, p: u64) -> (r: String)
    ensures
        r@ == spec_source_part(label@, s as int, t as int, p as int),
{
    let mut r = String::from_str(label);
    r.append(": ");
    r.append(u64_to_dec(s).as_str());
    r.append(" / ");
    r.append(u64_to_dec(t).as_str());
    if p > 0 {
        r.append(" - 待扫描: ");
        r.append(u64_to_dec(p).as_str());
    }
    r
}

/// The statistics line one cycle logs and sends: one fragment per source
/// kind that has sources, joined with a separator bar.
pub open spec fn spec_scan_stats_message(r: CycleReport) -> Seq<char> {
    let parts = (if r.total_collections > 0 {
        seq![
            spec_source_part(
                "合集"@,
                r.succeeded_collections as int,
                r.total_collections as int,
                r.risk_control_collections as int,
            ),
        ]
    } else {
        Seq::empty()
    }) + (if r.total_favorites > 0 {
        seq![
            spec_source_part(
                "收藏夹"@,
                r.succeeded_favorites as int,
                r.total_favorites as int,
                r.risk_control_favorites as int,
            ),
        ]
    } else {
        Seq::empty()
    }) + (if r.total_submissions > 0 {
        seq![
            spec_source_part(
                "投稿"@,
                r.succeeded_submissions as int,
                r.total_submissions as int,
                r.risk_control_submissions as int,
            ),
        ]
    } else {
        Seq::empty()
    }) + (if r.total_watch_later > 0 {
        seq![
            spec_source_part(
                "稍后再看"@,
                r.succeeded_watch_later as int,
                r.total_watch_later as int,
                r.risk_control_watch_later as int,
            ),
        ]
    } else {
        Seq::empty()
    });
    "视频源扫描统计 - "@ + spec_join(parts, " | "@)
}

/// Renders the cycle's statistics notification.
pub fn scan_stats_message(report: &CycleReport) -> (r: String)
    ensures
        r@ == spec_scan_stats_message(*report),
{
    let mut parts: Vec<String> = Vec::new();
    if report.total_collections > 0 {
        parts.push(
            source_part(
                "合集",
                report.succeeded_collections as u64,
                report.total_collections as u64,
                report.risk_control_collections as u64,
            ),
        );
    }
    if report.total_favorites > 0 {
        parts.push(
            source_part(
                "收藏夹",
                report.succeeded_favorites as u64,
                report.total_favorites as u64,
                report.risk_control_favorites as u64,
            ),
        );
    }
    if report.total_submissions > 0 {
        parts.push(
            source_part(
                "投稿",
                report.succeeded_submissions as u64,
                report.total_submissions as u64,
                report.risk_control_submissions as u64,
            ),
        );
    }
    if report.total_watch_later > 0 {
        parts.push(
            source_part(
                "稍后再看",
                report.succeeded_watch_later as u64,
                report.total_watch_later as u64,
                report.risk_control_watch_later as u64,
            ),
        );
    }
    proof {
        assert(parts.deep_view() =~~= (if report.total_collections > 0 {
            seq![
                spec_source_part(
                    "合集"@,
                    report.succeeded_collections as int,
                    report.total_collections as int,
                    report.risk_control_collections as int,
                ),
            ]
        } else {
            Seq::empty()
        }) + (if report.total_favorites > 0 {
            seq![
                spec_source_part(
                    "收藏夹"@,
                    report.succeeded_favorites as int,
                    report.total_favorites as int,
                    report.risk_control_favorites as int,
                ),
            ]
        } else {
            Seq::empty()
        }) + (if report.total_submissions > 0 {
            seq![
                spec_source_part(
                    "投稿"@,
                    report.succeeded_submissions as int,
                    report.total_submissions as int,
                    report.risk_control_submissions as int,
                ),
            ]
        } else {
            Seq::empty()
        }) + (if report.total_watch_later > 0 {
            seq![
                spec_source_part(
                    "稍后再看"@,
                    report.succeeded_watch_later as int,
                    report.total_watch_later as int,
                    report.risk_control_watch_later as int,
                ),
            ]
        } else {
            Seq::empty()
        }));
    }
    let joined = join_parts(&parts, " | ");
    let mut r = String::from_str("视频源扫描统计 - ");
    r.append(joined.as_str());
    r
}

/// The pre-check a cycle makes before scanning: with every source
/// disabled there is nothing to do and the cycle fails.
pub fn cycle_sources_check(sources: &Vec<VideoSourceState>) -> (r: Result<(), String>)
    ensures
        r is Ok <==> sources@.len() > 0,
        r matches Err(m) ==> m@ == "没有可用的视频源"@,
{
    if sources.len() == 0 {
        Err(String::from_str("没有可用的视频源"))
    } else {
        Ok(())
    }
}

/// The notification sent when a cycle finds no enabled source.
pub fn no_sources_message() -> (r: String)
    ensures
        r@ == "⚠️ 没有可用的视频源 所有视频源均未启用，请检查视频源配置。"@,
{
    String::from_str("⚠️ 没有可用的视频源 所有视频源均未启用，请检查视频源配置。")
}

/// The per-status counts of the daily summary.
pub struct DailySummary {
    /// Every stored video.
    pub total: usize,
    /// Videos with all five subtasks terminal.
    pub succeeded: usize,
    /// Still-valid videos with a retryable failure.
    pub failed: usize,
    /// Downloadable, unpaid videos that have not started.
    pub waiting: usize,
    /// Videos the operator or a filter rule blacklisted, paid ones aside.
    pub skipped: usize,
    /// Paywalled videos.
    pub paid: usize,
}

/// How many of the first `n` rows are fully succeeded.
pub open spec fn count_succeeded_upto(rows: Seq<VideoRow>, n: int) -> int
    decreases n,
{
    if n <= 0 || n > rows.len() {
        0
    } else {
        count_succeeded_upto(rows, n - 1) + (if spec_word_succeeded(rows[n - 1].download_status) {
            1int
        } else {
            0int
        })
    }
}

/// How many of the first `n` rows are valid and carry a retryable failure.
pub open spec fn count_failed_upto(rows: Seq<VideoRow>, n: int) -> int
    decreases n,
{
    if n <= 0 || n > rows.len() {
        0
    } else {
        count_failed_upto(rows, n - 1) + (if spec_word_failed(rows[n - 1].download_status) && rows[n
            - 1].valid {
            1int
        } else {
            0int
        })
    }
}

/// How many of the first `n` rows wait to be downloaded: nothing started,
/// downloadable, not paywalled.
pub open spec fn count_waiting_upto(rows: Seq<VideoRow>, n: int) -> int
    decreases n,
{
    if n <= 0 || n > rows.len() {
        0
    } else {
        count_waiting_upto(rows, n - 1) + (if spec_word_waiting(rows[n - 1].download_status)
            && rows[n - 1].should_download && !rows[n - 1].is_paid_video {
            1int
        } else {
            0int
        })
    }
}

/// How many of the first `n` rows are blacklisted but not paywalled.
pub open spec fn count_skipped_upto(rows: Seq<VideoRow>, n: int) -> int
    decreases n,
{
    if n <= 0 || n > rows.len() {
        0
    } else {
        count_skipped_upto(rows, n - 1) + (if !rows[n - 1].should_download && !rows[n
            - 1].is_paid_video {
            1int
        } else {
            0int
        })
    }
}

/// How many of the first `n` rows are paywalled.
pub open spec fn count_paid_upto(rows: Seq<VideoRow>, n: int) -> int
    decreases n,
{
    if n <= 0 || n > rows.len() {
        0
    } else {
        count_paid_upto(rows, n - 1) + (if rows[n - 1].is_paid_video {
            1int
        } else {
            0int
        })
    }
}

proof fn lemma_summary_counts_bounds(rows: Seq<VideoRow>, n: int)
    requires
        0 <= n,
    ensures
        0 <= count_succeeded_upto(rows, n) <= n,
        0 <= count_failed_upto(rows, n) <= n,
        0 <= count_waiting_upto(rows, n) <= n,
        0 <= count_skipped_upto(rows, n) <= n,
        0 <= count_paid_upto(rows, n) <= n,
    decreases n,
{
    if n > 0 {
        lemma_summary_counts_bounds(rows, n - 1);
    }
}

/// Counts the stored videos for the daily summary, one pass over the
/// rows.  The failed count intentionally filters on still-valid rows
/// while the other counts do not.
pub fn summarize_videos(videos: &Vec<VideoRow>) -> (r: DailySummary)
    ensures
        r.total == videos@.len(),
        r.succeeded == count_succeeded_upto(videos@, videos@.len() as int),
        r.failed == count_failed_upto(videos@, videos@.len() as int),
        r.waiting == count_waiting_upto(videos@, videos@.len() as int),
        r.skipped == count_skipped_upto(videos@, videos@.len() as int),
        r.paid == count_paid_upto(videos@, videos@.len() as int),
{
    let n = videos.len();
    let mut succeeded: usize = 0;
    let mut failed: usize = 0;
    let mut waiting: usize = 0;
    let mut skipped: usize = 0;
    let mut paid: usize = 0;
    let mut i: usize = 0;
    while i < n
        invariant
            i <= n,
            n == videos@.len(),
            succeeded == count_succeeded_upto(videos@, i as int),
            failed == count_failed_upto(videos@, i as int),
            waiting == count_waiting_upto(videos@, i as int),
            skipped == count_skipped_upto(videos@, i as int),
            paid == count_paid_upto(videos@, i as int),
        decreases n - i,
    {
        proof {
            lemma_summary_counts_bounds(videos@, i as int);
        }
        let word = videos[i].download_status;
        if word_succeeded(word) {
            succeeded = succeeded + 1;
        }
        if word_failed(word) && videos[i].valid {
            failed = failed + 1;
        }
        if word_waiting(word) && videos[i].should_download && !videos[i].is_paid_video {
            waiting = waiting + 1;
        }
        if !videos[i].should_download && !videos[i].is_paid_video {
            skipped = skipped + 1;
        }
        if videos[i].is_paid_video {
            paid = paid + 1;
        }
        i = i + 1;
    }
    DailySummary { total: n, succeeded, failed, waiting, skipped, paid }
}

/// Counts the enabled sources of kind `k`.
pub fn count_sources_of_kind(sources: &Vec<VideoSourceState>, k: SourceKind) -> (r: usize)
    ensures
        r == count_kind_upto(
            sources@.map_values(|s: VideoSourceState| s.kind),
            k,
            sources@.len() as int,
        ),
{
    let ghost kinds = sources@.map_values(|s: VideoSourceState| s.kind);
    let n = sources.len();
    let mut count: usize = 0;
    let mut i: usize = 0;
    while i < n
        invariant
            i <= n,
            n == sources@.len(),
            kinds == sources@.map_values(|s: VideoSourceState| s.kind),
            count == count_kind_upto(kinds, k, i as int),
        decreases n - i,
    {
        proof {
            lemma_count_kind_bounds(kinds, k, i as int);
        }
        if sources[i].kind == k {
            count = count + 1;
        }
        i = i + 1;
    }
    count
}

/// The daily-summary notification text.
pub open spec fn spec_daily_summary_message(
    s: DailySummary,
    favorite_sources: int,
    collection_sources: int,
    submission_sources: int,
    total_sources: int,
) -> Seq<char> {
    "📊 BiliSync 每日汇总 | 📹 视频总数: "@ + dec_digits(s.total as int) + " | ✅ 成功: "@
        + dec_digits(s.succeeded as int) + " | ❌ 失败: "@ + dec_digits(s.failed as int)
        + " | ⏳ 等待: "@ + dec_digits(s.waiting as int) + " | 🔄 失效: "@ + dec_digits(
        s.skipped as int,
    ) + " | 💰 收费: "@ + dec_digits(s.paid as int) + " | 📚 视频源: 收藏夹 "@ + dec_digits(
        favorite_sources,
    ) + " 合集 "@ + dec_digits(collection_sources) + " UP投稿 "@ + dec_digits(submission_sources)
        + " 总计 "@ + dec_digits(total_sources)
}

/// Renders the daily-summary notification.
pub fn daily_summary_message(
    s: &DailySummary,
    favorite_sources: usize,
    collection_sources: usize,
    submission_sources: usize,
    total_sources: usize,
) -> (r: String)
    ensures
        r@ == spec_daily_summary_message(
            *s,
            favorite_sources as int,
            collection_sources as int,
            submission_sources as int,
            total_sources as int,
        ),
{
    let mut r = String::from_str("📊 BiliSync 每日汇总 | 📹 视频总数: ");
    r.append(u64_to_dec(s.total as u64).as_str());
    r.append(" | ✅ 成功: ");
    r.append(u64_to_dec(s.succeeded as u64).as_str());
    r.append(" | ❌ 失败: ");
    r.append(u64_to_dec(s.failed as u64).as_str());
    r.append(" | ⏳ 等待: ");
    r.append(u64_to_dec(s.waiting as u64).as_str());
    r.append(" | 🔄 失效: ");
    r.append(u64_to_dec(s.skipped as u64).as_str());
    r.append(" | 💰 收费: ");
    r.append(u64_to_dec(s.paid as u64).as_str());
    r.append(" | 📚 视频源: 收藏夹 ");
    r.append(u64_to_dec(favorite_sources as u64).as_str());
    r.append(" 合集 ");
    r.append(u64_to_dec(collection_sources as u64).as_str());
    r.append(" UP投稿 ");
    r.append(u64_to_dec(submission_sources as u64).as_str());
    r.append(" 总计 ");
    r.append(u64_to_dec(total_sources as u64).as_str());
    r
}


} // verus!
