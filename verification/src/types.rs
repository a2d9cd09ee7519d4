//! Shared domain types: platforms, hotspot sources, task states and the
//! plain records exchanged between the services.
use vstd::prelude::*;

verus! {

/// A platform that content can be published to.
#[derive(Debug, Clone, Copy, PartialEq, Eq, Hash, Structural)]
pub enum Platform {
    Xiaohongshu,
    Douyin,
    WeChatOfficial,
    Bilibili,
    Weibo,
    Toutiao,
}

/// Number of publishing platforms.
pub const PLATFORM_COUNT: usize = 6;

impl Platform {
    /// Position of the platform in declaration order.
    pub open spec fn slot(self) -> int {
        match self {
            Platform::Xiaohongshu => 0,
            Platform::Douyin => 1,
            Platform::WeChatOfficial => 2,
            Platform::Bilibili => 3,
            Platform::Weibo => 4,
            Platform::Toutiao => 5,
        }
    }

    /// Position of the platform in declaration order.
    pub fn index(&self) -> (r: usize)
        ensures
            r == self.slot(),
            r < PLATFORM_COUNT,
    {
        match self {
            Platform::Xiaohongshu => 0,
            Platform::Douyin => 1,
            Platform::WeChatOfficial => 2,
            Platform::Bilibili => 3,
            Platform::Weibo => 4,
            Platform::Toutiao => 5,
        }
    }

    /// The variant's name, as `{:?}` prints it.
    pub open spec fn debug_text(self) -> Seq<char> {
        match self {
            Platform::Xiaohongshu => "Xiaohongshu"@,
            Platform::Douyin => "Douyin"@,
            Platform::WeChatOfficial => "WeChatOfficial"@,
            Platform::Bilibili => "Bilibili"@,
            Platform::Weibo => "Weibo"@,
            Platform::Toutiao => "Toutiao"@,
        }
    }

    /// The variant's name, as `{:?}` prints it.
    pub fn debug_name(&self) -> (r: &'static str)
        ensures
            r@ == self.debug_text(),
    {
        match self {
            Platform::Xiaohongshu => "Xiaohongshu",
            Platform::Douyin => "Douyin",
            Platform::WeChatOfficial => "WeChatOfficial",
            Platform::Bilibili => "Bilibili",
            Platform::Weibo => "Weibo",
            Platform::Toutiao => "Toutiao",
        }
    }
}

/// A source of trending topics (includes Zhihu, which is not a publishing
/// platform).
#[derive(Debug, Clone, Copy, PartialEq, Eq, Hash, Structural)]
pub enum HotspotSource {
    Weibo,
    Douyin,
    Xiaohongshu,
    Bilibili,
    Toutiao,
    Zhihu,
}

/// Number of hotspot sources.
pub const HOTSPOT_SOURCE_COUNT: usize = 6;

impl HotspotSource {
    /// Position of the source in declaration order.
    pub open spec fn slot(self) -> int {
        match self {
            HotspotSource::Weibo => 0,
            HotspotSource::Douyin => 1,
            HotspotSource::Xiaohongshu => 2,
            HotspotSource::Bilibili => 3,
            HotspotSource::Toutiao => 4,
            HotspotSource::Zhihu => 5,
        }
    }

    /// Position of the source in declaration order.
    pub fn index(&self) -> (r: usize)
        ensures
            r == self.slot(),
            r < HOTSPOT_SOURCE_COUNT,
    {
        match self {
            HotspotSource::Weibo => 0,
            HotspotSource::Douyin => 1,
            HotspotSource::Xiaohongshu => 2,
            HotspotSource::Bilibili => 3,
            HotspotSource::Toutiao => 4,
            HotspotSource::Zhihu => 5,
        }
    }
}

/// Lifecycle state of a task.
#[derive(Debug, Clone, Copy, PartialEq, Eq, Structural)]
pub enum TaskStatus {
    Pending,
    Running,
    Completed,
    Failed,
    Cancelled,
}

/// Kind of content a task produces.
#[derive(Debug, Clone, Copy, PartialEq, Eq, Structural)]
pub enum TaskMode {
    Text,
    Video,
}

impl TaskMode {
    /// The text form of the mode, as it is stored and displayed.
    pub open spec fn text(self) -> Seq<char> {
        match self {
            TaskMode::Text => "text"@,
            TaskMode::Video => "video"@,
        }
    }

    /// The text form of the mode (`"text"` or `"video"`), which is what
    /// `Display` writes.
    pub fn as_str(&self) -> (r: &'static str)
        ensures
            r@ == self.text(),
    {
        match self {
            TaskMode::Text => "text",
            TaskMode::Video => "video",
        }
    }
}

/// Region of the AI service.
#[derive(Debug, Clone, Copy, PartialEq, Eq, Structural)]
pub enum MiniMaxRegion {
    CN,
    Global,
}

impl MiniMaxRegion {
    /// Base URL of the region's endpoint.
    pub open spec fn url(self) -> Seq<char> {
        match self {
            MiniMaxRegion::CN => "https://api.minimax.chat"@,
            MiniMaxRegion::Global => "https://api.minimaxi.chat"@,
        }
    }

    /// Base URL of the region's endpoint.
    pub fn base_url(&self) -> (r: &'static str)
        ensures
            r@ == self.url(),
    {
        match self {
            MiniMaxRegion::CN => "https://api.minimax.chat",
            MiniMaxRegion::Global => "https://api.minimaxi.chat",
        }
    }
}

/// Uniform error body of the HTTP API.
#[derive(Debug, Clone)]
pub struct ApiError {
    pub code: String,
    pub message: String,
}

impl ApiError {
    /// An error body with the given code and message.
    pub fn new(code: &str, message: &str) -> (r: ApiError)
        ensures
            r.code@ == code@,
            r.message@ == message@,
    {
        ApiError { code: code.to_owned(), message: message.to_owned() }
    }
}

/// Login material of a platform account: the cookie header and further
/// named values (each name once, in the order they were recorded).
#[derive(Debug, Clone)]
pub struct PlatformCredential {
    pub platform: Platform,
    pub cookies: String,
    pub extra: Vec<(String, String)>,
}

impl PlatformCredential {
    /// The named values as text pairs.
    pub open spec fn extra_view(self) -> Seq<(Seq<char>, Seq<char>)> {
        Seq::new(self.extra@.len(), |i: int| (self.extra@[i].0@, self.extra@[i].1@))
    }
}

/// An article to publish.
#[derive(Debug, Clone)]
pub struct ArticleContent {
    pub title: String,
    pub body: String,
    pub image_urls: Vec<String>,
    pub tags: Vec<String>,
    pub topic: Option<String>,
}

/// A video to publish.
#[derive(Debug, Clone)]
pub struct VideoContent {
    pub title: String,
    pub description: String,
    pub video_path: String,
    pub cover_image: Option<String>,
    pub tags: Vec<String>,
}

/// Outcome of publishing to one platform.
#[derive(Debug, Clone)]
pub struct PublishResult {
    pub platform: Platform,
    pub success: bool,
    pub post_id: Option<String>,
    pub post_url: Option<String>,
    pub error_code: Option<String>,
    pub error_message: Option<String>,
}

/// Result of a cookie health check; `last_checked` is a Unix timestamp in
/// seconds.
#[derive(Debug, Clone)]
pub struct CookieStatus {
    pub platform: Platform,
    pub valid: bool,
    pub last_checked: i64,
}

/// A calendar date (year, month 1..=12, day 1..=31).
#[derive(Debug, Clone, Copy, PartialEq, Eq, Structural)]
pub struct CalendarDate {
    pub year: i32,
    pub month: u32,
    pub day: u32,
}

/// A leap year of the proleptic Gregorian calendar.
pub open spec fn is_leap_year(y: int) -> bool {
    y % 4 == 0 && (y % 100 != 0 || y % 400 == 0)
}

/// The number of days of month `m` of year `y`.
pub open spec fn days_in_month(y: int, m: int) -> int {
    if m == 2 {
        if is_leap_year(y) { 29 } else { 28 }
    } else if m == 4 || m == 6 || m == 9 || m == 11 {
        30
    } else {
        31
    }
}

/// The day is one of chrono's calendar: a year from -262143 to 262142, a
/// month from 1 to 12 and a day of that month.
pub open spec fn is_calendar_day(d: CalendarDate) -> bool {
    &&& -262143 <= d.year <= 262142
    &&& 1 <= d.month <= 12
    &&& 1 <= d.day <= days_in_month(d.year as int, d.month as int)
}

/// `s` with zeros in front up to `n` characters.
pub open spec fn zero_padded(s: Seq<char>, n: nat) -> Seq<char> {
    if s.len() >= n {
        s
    } else {
        Seq::new((n - s.len()) as nat, |i: int| '0') + s
    }
}

/// A year as chrono's `%Y` writes it: at least four digits, with a sign
/// outside 0 to 9999.
pub open spec fn year_text(y: int) -> Seq<char> {
    if 0 <= y <= 9999 {
        zero_padded(crate::text::decimal(y as nat), 4)
    } else if y < 0 {
        seq!['-'] + zero_padded(crate::text::decimal((-y) as nat), 4)
    } else {
        seq!['+'] + zero_padded(crate::text::decimal(y as nat), 4)
    }
}

/// A month or day as chrono's `%m` and `%d` write it: two digits.
pub open spec fn two_digits(n: nat) -> Seq<char> {
    zero_padded(crate::text::decimal(n), 2)
}

/// A trending topic; `fetched_at` is a Unix timestamp in seconds.
#[derive(Debug, Clone)]
pub struct Hotspot {
    pub title: String,
    pub hot_score: u64,
    pub source: HotspotSource,
    pub url: Option<String>,
    pub category: Option<String>,
    pub fetched_at: i64,
    pub event_date: Option<CalendarDate>,
}

} // verus!
