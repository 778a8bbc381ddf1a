//! The configuration snapshot: recognized options, their defaults, and
//! the validation run on load and on every update attempt.

use vstd::prelude::*;
use crate::notify::Notifier;
use crate::strutil::push_char;

verus! {

/// The five opaque credential strings of the remote platform session.
#[derive(Clone)]
pub struct Credential {
    pub sessdata: String,
    pub bili_jct: String,
    pub buvid3: String,
    pub dedeuserid: String,
    pub ac_time_value: String,
}

impl Credential {
    /// All five strings are present.
    pub open spec fn complete(&self) -> bool {
        &&& self.sessdata@.len() > 0
        &&& self.bili_jct@.len() > 0
        &&& self.buvid3@.len() > 0
        &&& self.dedeuserid@.len() > 0
        &&& self.ac_time_value@.len() > 0
    }

    /// Builds the empty credential.
    pub fn new() -> (r: Credential)
        ensures
            r.sessdata@.len() == 0,
            r.bili_jct@.len() == 0,
            r.buvid3@.len() == 0,
            r.dedeuserid@.len() == 0,
            r.ac_time_value@.len() == 0,
    {
        Credential {
            sessdata: String::new(),
            bili_jct: String::new(),
            buvid3: String::new(),
            dedeuserid: String::new(),
            ac_time_value: String::new(),
        }
    }
}

/// Feature toggles that suppress individual subtasks.
#[derive(Clone, Copy)]
pub struct SkipOption {
    pub no_poster: bool,
    pub no_video_nfo: bool,
    pub no_upper: bool,
    pub no_danmaku: bool,
    pub no_subtitle: bool,
}

impl SkipOption {
    /// Builds the all-enabled default: nothing is skipped.
    pub fn new() -> (r: SkipOption)
        ensures
            !r.no_poster && !r.no_video_nfo && !r.no_upper && !r.no_danmaku && !r.no_subtitle,
    {
        SkipOption {
            no_poster: false,
            no_video_nfo: false,
            no_upper: false,
            no_danmaku: false,
            no_subtitle: false,
        }
    }
}

/// Quality bounds and stream toggles consumed by the video-file fetch
/// when it picks among the remote's offered streams.  The values are the
/// platform's quality ladder codes.
#[derive(Clone, Copy)]
pub struct FilterOption {
    pub video_max_quality: u32,
    pub video_min_quality: u32,
    pub audio_max_quality: u32,
    pub audio_min_quality: u32,
    pub no_dolby_video: bool,
    pub no_dolby_audio: bool,
    pub no_hdr: bool,
    pub no_hires: bool,
}

impl FilterOption {
    /// Builds the default bounds: the full ladder, nothing excluded.
    pub fn new() -> (r: FilterOption)
        ensures
            r.video_max_quality >= r.video_min_quality,
            r.audio_max_quality >= r.audio_min_quality,
            !r.no_dolby_video && !r.no_dolby_audio && !r.no_hdr && !r.no_hires,
    {
        FilterOption {
            video_max_quality: 127,
            video_min_quality: 16,
            audio_max_quality: 30251,
            audio_min_quality: 30216,
            no_dolby_video: false,
            no_dolby_audio: false,
            no_hdr: false,
            no_hires: false,
        }
    }
}

/// Rendering options of the scrolling-comment subtitles.  The renderer's
/// floating-point geometry (durations, ratios, opacity curve) lives with
/// the renderer itself, outside this model.
#[derive(Clone)]
pub struct DanmakuOption {
    pub font: String,
    pub font_size: u32,
    pub lane_size: u32,
    pub bold: bool,
}

impl DanmakuOption {
    /// Builds the default rendering options.
    pub fn new() -> (r: DanmakuOption)
        ensures
            r.font@ == "黑体"@,
            r.font_size == 25,
            r.lane_size == 32,
            r.bold,
    {
        DanmakuOption { font: String::from_str("黑体"), font_size: 25, lane_size: 32, bold: true }
    }
}

/// The two layers of download parallelism.
#[derive(Clone, Copy)]
pub struct ConcurrentLimit {
    pub video: usize,
    pub page: usize,
}

impl ConcurrentLimit {
    /// Both layers admit at least one worker.
    pub open spec fn positive(&self) -> bool {
        self.video > 0 && self.page > 0
    }

    /// Builds the default limits.
    pub fn new() -> (r: ConcurrentLimit)
        ensures
            r.positive(),
            r.video == 3 && r.page == 2,
    {
        ConcurrentLimit { video: 3, page: 2 }
    }
}

/// Which timestamp feeds NFO metadata.
#[derive(Clone, Copy, PartialEq, Eq, Structural)]
pub enum NFOTimeType {
    FavTime,
    PubTime,
}

/// When the periodic download cycle fires: a plain interval in seconds or
/// a six-field cron expression evaluated in local time.
#[derive(Clone)]
pub enum Trigger {
    Interval(u64),
    Cron(String),
}

/// A name for what croner's parser accepts: whether `pattern` is a valid
/// six-field cron expression (seconds required, day-of-month and
/// day-of-week both restricted means both must match).
pub uninterp spec fn cron_accepts(pattern: Seq<char>) -> bool;

/// Relies on croner's `CronParser` built with seconds required and
/// `dom_and_dow`: parsing succeeds exactly on the cron expressions that
/// configuration accepts, and the outcome depends on the pattern alone.
#[verifier::external_body]
pub fn cron_expr_valid(pattern: &str) -> (r: bool)
    ensures
        r == cron_accepts(pattern@),
{
    croner::parser::CronParser::builder()
        .seconds(croner::parser::Seconds::Required)
        .dom_and_dow(true)
        .build()
        .parse(pattern)
        .is_ok()
}

/// Relies on `rand::random_range` over `0..n`: a uniform draw below `n`.
#[verifier::external_body]
fn random_index(n: usize) -> (r: usize)
    requires
        n > 0,
    ensures
        r < n,
{
    rand::random_range(0..n)
}

/// Relies on `dirs::config_dir`: the platform's configuration directory,
/// if the platform defines one.  The result depends on the environment,
/// so nothing is promised of it.
#[verifier::external_body]
fn os_config_dir() -> Option<String> {
    dirs::config_dir().map(|p| p.to_string_lossy().into_owned())
}

/// The characters an authentication token draws from.
pub open spec fn auth_token_alphabet() -> Seq<char> {
    "abcdefghijklmnopqrstuvwxyzABCDEFGHIJKLMNOPQRSTUVWXYZ0123456789!@#$%^&*()_+-="@
}

/// Generates the default authentication token: sixteen characters drawn
/// from the token alphabet.
pub fn default_auth_token() -> (r: String)
    ensures
        r@.len() == 16,
        forall|i: int| 0 <= i < 16 ==> auth_token_alphabet().contains(#[trigger] r@[i]),
{
    let alphabet = "abcdefghijklmnopqrstuvwxyzABCDEFGHIJKLMNOPQRSTUVWXYZ0123456789!@#$%^&*()_+-=";
    let len = alphabet.unicode_len();
    proof {
        reveal_strlit(
            "abcdefghijklmnopqrstuvwxyzABCDEFGHIJKLMNOPQRSTUVWXYZ0123456789!@#$%^&*()_+-=",
        );
    }
    let mut r = String::new();
    let mut i: usize = 0;
    while i < 16
        invariant
            i <= 16,
            len == auth_token_alphabet().len(),
            len > 0,
            alphabet@ == auth_token_alphabet(),
            r@.len() == i,
            forall|m: int| 0 <= m < i ==> auth_token_alphabet().contains(#[trigger] r@[m]),
        decreases 16 - i,
    {
        let k = random_index(len);
        let c = alphabet.get_char(k);
        push_char(&mut r, c);
        i = i + 1;
    }
    r
}

/// The default address the admin interface binds.
pub fn default_bind_address() -> (r: String)
    ensures
        r@ == "0.0.0.0:12345"@,
{
    String::from_str("0.0.0.0:12345")
}

/// The default date rendering used in path templates.
pub fn default_time_format() -> (r: String)
    ensures
        r@ == "%Y-%m-%d"@,
{
    String::from_str("%Y-%m-%d")
}

/// The default relative directory template of favorite-list sources.
pub fn default_favorite_path() -> (r: String)
    ensures
        r@ == "收藏夹/{{name}}"@,
{
    String::from_str("收藏夹/{{name}}")
}

/// The default relative directory template of collection sources.
pub fn default_collection_path() -> (r: String)
    ensures
        r@ == "合集/{{name}}"@,
{
    String::from_str("合集/{{name}}")
}

/// The default relative directory template of submission sources.
pub fn default_submission_path() -> (r: String)
    ensures
        r@ == "投稿/{{name}}"@,
{
    String::from_str("投稿/{{name}}")
}

/// Whether newly observed videos are announced by default.
pub fn default_notify_new_videos() -> (r: bool)
    ensures
        r == false,
{
    false
}

/// Whether the daily summary is sent by default.
pub fn default_notify_daily_summary() -> (r: bool)
    ensures
        r == false,
{
    false
}

/// The default pause between two queued notification sends, in seconds.
pub fn default_notification_interval() -> (r: u64)
    ensures
        r == 5,
{
    5
}

/// The default cron of the daily summary: nine in the morning.
pub fn default_daily_summary_cron() -> (r: String)
    ensures
        r@ == "0 0 9 * * *"@,
{
    String::from_str("0 0 9 * * *")
}

/// Whether the quiet-hours window is observed by default.
pub fn default_enable_notification_quiet_hours() -> (r: bool)
    ensures
        r == false,
{
    false
}

/// The default first quiet hour.
pub fn default_quiet_hours_start() -> (r: u8)
    ensures
        r == 22,
{
    22
}

/// The default hour the quiet window opens again.
pub fn default_quiet_hours_end() -> (r: u8)
    ensures
        r == 9,
{
    9
}

/// The singleton message list when `cond` holds, else nothing.
pub open spec fn optional_line(cond: bool, msg: Seq<char>) -> Seq<Seq<char>> {
    if cond {
        seq![msg]
    } else {
        Seq::empty()
    }
}

fn push_if(errors: &mut Vec<String>, cond: bool, msg: String)
    ensures
        final(errors).deep_view() =~~= old(errors).deep_view() + optional_line(cond, msg@),
{
    if cond {
        errors.push(msg);
    }
}

/// One immutable configuration snapshot.  A writer replaces the whole
/// snapshot and bumps `version`; readers keep a snapshot for the duration
/// of an operation.
#[derive(Clone)]
pub struct Config {
    pub auth_token: String,
    pub bind_address: String,
    pub credential: Credential,
    pub filter_option: FilterOption,
    pub danmaku_option: DanmakuOption,
    pub skip_option: SkipOption,
    pub video_name: String,
    pub page_name: String,
    pub notifiers: Option<Vec<Notifier>>,
    pub favorite_default_path: String,
    pub collection_default_path: String,
    pub submission_default_path: String,
    pub interval: Trigger,
    pub upper_path: String,
    pub nfo_time_type: NFOTimeType,
    pub concurrent_limit: ConcurrentLimit,
    pub time_format: String,
    pub cdn_sorting: bool,
    pub enable_cover_background: bool,
    pub notify_new_videos: bool,
    pub notify_daily_summary: bool,
    pub daily_summary_cron: String,
    pub notification_interval: u64,
    pub enable_notification_quiet_hours: bool,
    pub quiet_hours_start: u8,
    pub quiet_hours_end: u8,
    pub version: u64,
}

/// Whether a path string is absolute.
pub open spec fn spec_is_absolute(s: Seq<char>) -> bool {
    s.len() > 0 && s[0] == '/'
}

impl Config {
    /// Whether the download trigger is acceptable: an interval strictly
    /// above sixty seconds, or a parseable six-field cron expression.
    pub open spec fn interval_valid(&self) -> bool {
        match self.interval {
            Trigger::Interval(secs) => secs > 60,
            Trigger::Cron(ref c) => cron_accepts(c@),
        }
    }

    /// Whether the quiet-hours bounds are in range when the window is on.
    pub open spec fn quiet_hours_valid(&self) -> bool {
        self.enable_notification_quiet_hours ==> self.quiet_hours_start <= 23
            && self.quiet_hours_end <= 23
    }

    /// Everything `check` accepts.
    pub open spec fn spec_valid(&self) -> bool {
        &&& spec_is_absolute(self.upper_path@)
        &&& self.video_name@.len() > 0
        &&& self.page_name@.len() > 0
        &&& self.credential.complete()
        &&& self.concurrent_limit.positive()
        &&& self.interval_valid()
        &&& cron_accepts(self.daily_summary_cron@)
        &&& self.quiet_hours_valid()
    }

    /// The validation messages of this snapshot, one per violated rule,
    /// in the order `check` reports them.
    pub open spec fn spec_check_errors(&self) -> Seq<Seq<char>> {
        (if !spec_is_absolute(self.upper_path@) {
            seq!["up 主头像保存的路径应为绝对路径"@]
        } else {
            Seq::empty()
        }) + (if self.video_name@.len() == 0 {
            seq!["未设置 video_name 模板"@]
        } else {
            Seq::empty()
        }) + (if self.page_name@.len() == 0 {
            seq!["未设置 page_name 模板"@]
        } else {
            Seq::empty()
        }) + (if !self.credential.complete() {
            seq!["Credential 信息不完整，请确保填写完整"@]
        } else {
            Seq::empty()
        }) + (if !self.concurrent_limit.positive() {
            seq!["video 和 page 允许的并发数必须大于 0"@]
        } else {
            Seq::empty()
        }) + (if !self.interval_valid() {
            seq![
                match self.interval {
                    Trigger::Interval(_) => "下载任务执行间隔时间必须大于 60 秒"@,
                    Trigger::Cron(_) => "Cron 表达式无效，正确格式为：秒 分 时 日 月 周"@,
                },
            ]
        } else {
            Seq::empty()
        }) + (if !cron_accepts(self.daily_summary_cron@) {
            seq!["每日汇总任务的 Cron 表达式无效，正确格式为：秒 分 时 日 月 周"@]
        } else {
            Seq::empty()
        }) + (if !self.quiet_hours_valid() {
            seq!["静默时间段的开始和结束时间必须在 0-23 之间"@]
        } else {
            Seq::empty()
        })
    }

    /// Validates the snapshot.  Failures are collected rather than
    /// short-circuited: the result is `Ok` exactly on valid snapshots,
    /// and otherwise lists one message per violated rule, in a fixed
    /// order.
    #[verifier::rlimit(100)]
    pub fn check(&self) -> (r: Result<(), Vec<String>>)
        ensures
            r is Ok <==> self.spec_valid(),
            r matches Err(errs) ==> errs@.len() > 0 && errs.deep_view()
                == self.spec_check_errors(),
    {
        let mut errors: Vec<String> = Vec::new();
        let abs_ok = self.upper_path.as_str().unicode_len() > 0 && self.upper_path.as_str().get_char(0) == '/';
        push_if(&mut errors, !abs_ok, String::from_str("up 主头像保存的路径应为绝对路径"));
        push_if(
            &mut errors,
            self.video_name.as_str().unicode_len() == 0,
            String::from_str("未设置 video_name 模板"),
        );
        push_if(
            &mut errors,
            self.page_name.as_str().unicode_len() == 0,
            String::from_str("未设置 page_name 模板"),
        );
        let credential_ok = self.credential.sessdata.as_str().unicode_len() > 0
            && self.credential.bili_jct.as_str().unicode_len() > 0
            && self.credential.buvid3.as_str().unicode_len() > 0
            && self.credential.dedeuserid.as_str().unicode_len() > 0
            && self.credential.ac_time_value.as_str().unicode_len() > 0;
        push_if(&mut errors, !credential_ok, String::from_str("Credential 信息不完整，请确保填写完整"));
        push_if(
            &mut errors,
            !(self.concurrent_limit.video > 0 && self.concurrent_limit.page > 0),
            String::from_str("video 和 page 允许的并发数必须大于 0"),
        );
        match &self.interval {
            Trigger::Interval(secs) => {
                push_if(
                    &mut errors,
                    *secs <= 60,
                    String::from_str("下载任务执行间隔时间必须大于 60 秒"),
                );
            },
            Trigger::Cron(cron) => {
                let ok = cron_expr_valid(cron.as_str());
                push_if(
                    &mut errors,
                    !ok,
                    String::from_str("Cron 表达式无效，正确格式为：秒 分 时 日 月 周"),
                );
            },
        }
        let summary_cron_ok = cron_expr_valid(self.daily_summary_cron.as_str());
        push_if(
            &mut errors,
            !summary_cron_ok,
            String::from_str("每日汇总任务的 Cron 表达式无效，正确格式为：秒 分 时 日 月 周"),
        );
        push_if(
            &mut errors,
            self.enable_notification_quiet_hours && (self.quiet_hours_start > 23
                || self.quiet_hours_end > 23),
            String::from_str("静默时间段的开始和结束时间必须在 0-23 之间"),
        );
        proof {
            assert(errors.deep_view() =~~= self.spec_check_errors());
        }
        if errors.len() > 0 {
            Err(errors)
        } else {
            Ok(())
        }
    }
}

/// The hot-reloadable configuration slot: one immutable snapshot at a
/// time, replaced whole.  Every accepted update bumps the monotonic
/// version, and a rejected one leaves the slot untouched; readers keep a
/// snapshot for the duration of an operation.  The change broadcast that
/// drives the job rebuild hangs off the version outside this model.
pub struct VersionedConfig {
    current: Config,
}

impl VersionedConfig {
    /// The snapshot readers currently see.
    pub closed spec fn spec_current(&self) -> Config {
        self.current
    }

    /// Builds the slot over an initial snapshot.
    pub fn new(initial: Config) -> (r: VersionedConfig)
        ensures
            r.spec_current() == initial,
    {
        VersionedConfig { current: initial }
    }

    /// Reads the current snapshot.
    pub fn read(&self) -> (r: &Config)
        ensures
            *r == self.spec_current(),
    {
        &self.current
    }

    /// The version of the current snapshot.
    pub fn version(&self) -> (r: u64)
        ensures
            r == self.spec_current().version,
    {
        self.current.version
    }

    /// Replaces the snapshot: an update is validated first and rejected
    /// whole on any error, leaving the slot untouched; an accepted one
    /// lands with the next version number.
    pub fn update(&mut self, new_config: Config) -> (r: Result<u64, Vec<String>>)
        requires
            old(self).spec_current().version < u64::MAX,
        ensures
            r is Ok <==> new_config.spec_valid(),
            r matches Ok(v) ==> {
                &&& v == old(self).spec_current().version + 1
                &&& final(self).spec_current() == (Config { version: v, ..new_config })
            },
            r matches Err(errs) ==> final(self).spec_current() == old(self).spec_current()
                && errs.deep_view() == new_config.spec_check_errors(),
    {
        match new_config.check() {
            Err(errs) => Err(errs),
            Ok(_) => {
                let mut accepted = new_config;
                let next_version = self.current.version + 1;
                accepted.version = next_version;
                self.current = accepted;
                Ok(next_version)
            },
        }
    }
}

impl Default for Config {
    /// Builds the default snapshot.  The authentication token is freshly
    /// drawn and the avatar directory comes from the platform's
    /// configuration directory (left empty when the platform names none,
    /// in which case `check` rejects the snapshot until it is set).
    fn default() -> (r: Config)
        ensures
            r.auth_token@.len() == 16,
            r.bind_address@ == "0.0.0.0:12345"@,
            r.video_name@ == "{{title}}"@,
            r.page_name@ == "{{bvid}}"@,
            r.notifiers is None,
            r.favorite_default_path@ == "收藏夹/{{name}}"@,
            r.collection_default_path@ == "合集/{{name}}"@,
            r.submission_default_path@ == "投稿/{{name}}"@,
            r.interval matches Trigger::Interval(secs) && secs == 1200,
            r.nfo_time_type is FavTime,
            r.concurrent_limit.positive(),
            r.time_format@ == "%Y-%m-%d"@,
            !r.cdn_sorting,
            !r.enable_cover_background,
            !r.notify_new_videos,
            !r.notify_daily_summary,
            r.daily_summary_cron@ == "0 0 9 * * *"@,
            r.notification_interval == 5,
            !r.enable_notification_quiet_hours,
            r.quiet_hours_start == 22,
            r.quiet_hours_end == 9,
            r.version == 0,
    {
        let upper_path = match os_config_dir() {
            Some(dir) => dir.concat("/bili-sync/upper_face"),
            None => String::new(),
        };
        Config {
            auth_token: default_auth_token(),
            bind_address: default_bind_address(),
            credential: Credential::new(),
            filter_option: FilterOption::new(),
            danmaku_option: DanmakuOption::new(),
            skip_option: SkipOption::new(),
            video_name: String::from_str("{{title}}"),
            page_name: String::from_str("{{bvid}}"),
            notifiers: None,
            favorite_default_path: default_favorite_path(),
            collection_default_path: default_collection_path(),
            submission_default_path: default_submission_path(),
            interval: Trigger::Interval(1200),
            upper_path,
            nfo_time_type: NFOTimeType::FavTime,
            concurrent_limit: ConcurrentLimit::new(),
            time_format: default_time_format(),
            cdn_sorting: false,
            enable_cover_background: false,
            notify_new_videos: default_notify_new_videos(),
            notify_daily_summary: default_notify_daily_summary(),
            daily_summary_cron: default_daily_summary_cron(),
            notification_interval: default_notification_interval(),
            enable_notification_quiet_hours: default_enable_notification_quiet_hours(),
            quiet_hours_start: default_quiet_hours_start(),
            quiet_hours_end: default_quiet_hours_end(),
            version: 0,
        }
    }
}

} // verus!
