//! The bodies of the HTTP API's requests and replies, and the small
//! decisions of the endpoints that build them.
use crate::error::AiError;
use crate::config::{PlatformConfig, UserPreferences};
use crate::draft::{Draft, DraftStatus};
use crate::error::{AppError, INPUT_001};
use crate::publish::qr_login::{LoginResult, QrCodeInfo, QrCodeStatus};
use crate::publish::run::RunSummary;
use crate::task::executor::{ExecutionResult, GenerationResult};
use crate::task::flows::{lowercase_text, to_lowercase};
use crate::task::model::Task;
use crate::text::{cut_ok, push_all, push_str, starts_with, starts_with_exec, chars_of, str_eq, string_of, truncate_bytes};
use crate::types::{CalendarDate, Hotspot, Platform, PublishResult, TaskMode};
use crate::user::UserModelConfig;
use vstd::prelude::*;
use vstd::string::StringSliceAdditionalSpecFns;

verus! {

broadcast use vstd::string::group_string_axioms;

// ---------------------------------------------------------------------
// QR-code login endpoints
// ---------------------------------------------------------------------

/// The reply of the QR-code login endpoints.
#[derive(Debug)]
pub struct ApiResponse<T> {
    pub success: bool,
    pub data: Option<T>,
    pub error: Option<String>,
}

impl<T> ApiResponse<T> {
    /// A successful reply carrying `data`.
    pub fn success(data: T) -> (r: ApiResponse<T>)
        ensures
            r.success && r.data == Some(data) && r.error.is_none(),
    {
        ApiResponse { success: true, data: Some(data), error: None }
    }

    /// A failed reply with the message `msg`.
    pub fn error(msg: String) -> (r: ApiResponse<T>)
        ensures
            !r.success && r.data.is_none() && r.error == Some(msg),
    {
        ApiResponse { success: false, data: None, error: Some(msg) }
    }
}

/// A request for a login code.
#[derive(Debug)]
pub struct GenerateQrRequest {
    pub platform: String,
}

/// A request to confirm a login.
#[derive(Debug)]
pub struct ConfirmLoginRequest {
    pub qr_id: String,
}

/// How long the wait for a confirmation may take, in seconds.
pub const QR_WAIT_TIMEOUT_SECS: u64 = 300;

/// The platform a client names for QR-code login (any case): any
/// platform, by the name a settings path uses or by its Chinese name.
pub open spec fn qr_platform_of(lower: Seq<char>) -> Option<Platform> {
    if lower == "微博"@ {
        Some(Platform::Weibo)
    } else if lower == "b站"@ {
        Some(Platform::Bilibili)
    } else if lower == "头条"@ {
        Some(Platform::Toutiao)
    } else if lower == "抖音"@ {
        Some(Platform::Douyin)
    } else if lower == "小红书"@ {
        Some(Platform::Xiaohongshu)
    } else if lower == "微信公众号"@ || lower == "公众号"@ {
        Some(Platform::WeChatOfficial)
    } else {
        path_platform(lower)
    }
}

/// The QR-code login platform `name` names, or the reply's message where
/// it names none.
pub fn qr_platform_named(name: &str) -> (r: Result<Platform, String>)
    ensures
        match qr_platform_of(lowercase_text(name@)) {
            Some(p) => r == Ok::<Platform, String>(p),
            None => r matches Err(m) && m@ == "不支持的平台: "@ + name@,
        },
{
    let lower = to_lowercase(name);
    let l = lower.as_str();
    if str_eq(l, "微博") {
        Ok(Platform::Weibo)
    } else if str_eq(l, "b站") {
        Ok(Platform::Bilibili)
    } else if str_eq(l, "头条") {
        Ok(Platform::Toutiao)
    } else if str_eq(l, "抖音") {
        Ok(Platform::Douyin)
    } else if str_eq(l, "小红书") {
        Ok(Platform::Xiaohongshu)
    } else if str_eq(l, "微信公众号") || str_eq(l, "公众号") {
        Ok(Platform::WeChatOfficial)
    } else {
        match platform_of_lower(l) {
            Some(p) => Ok(p),
            None => {
                let mut out: Vec<char> = Vec::new();
                push_str(&mut out, "不支持的平台: ");
                push_str(&mut out, name);
                Err(string_of(&out))
            },
        }
    }
}

/// The name a reply gives a code's state.
pub open spec fn status_name(s: QrCodeStatus) -> Seq<char> {
    match s {
        QrCodeStatus::Pending => "pending"@,
        QrCodeStatus::Scanned => "scanned"@,
        QrCodeStatus::Confirmed => "confirmed"@,
        QrCodeStatus::Expired => "expired"@,
        QrCodeStatus::Failed => "failed"@,
    }
}

/// The name a reply gives a code's state.
pub fn qr_status_name(s: QrCodeStatus) -> (r: &'static str)
    ensures
        r@ == status_name(s),
{
    match s {
        QrCodeStatus::Pending => "pending",
        QrCodeStatus::Scanned => "scanned",
        QrCodeStatus::Confirmed => "confirmed",
        QrCodeStatus::Expired => "expired",
        QrCodeStatus::Failed => "failed",
    }
}

/// The platform a code id's prefix names: the prefix each platform's
/// codes are made with.
pub open spec fn id_platform(id: Seq<char>) -> Option<Platform> {
    if starts_with(id, "weibo_"@) {
        Some(Platform::Weibo)
    } else if starts_with(id, "bilibili_"@) {
        Some(Platform::Bilibili)
    } else if starts_with(id, "toutiao_"@) {
        Some(Platform::Toutiao)
    } else if starts_with(id, "douyin_"@) {
        Some(Platform::Douyin)
    } else if starts_with(id, "xiaohongshu_"@) {
        Some(Platform::Xiaohongshu)
    } else if starts_with(id, "wechat_"@) {
        Some(Platform::WeChatOfficial)
    } else {
        None
    }
}

/// The platform of a code id, by its prefix.
pub fn qr_platform_of_id(id: &str) -> (r: Option<Platform>)
    ensures
        r == id_platform(id@),
{
    let iv = chars_of(id);
    if starts_with_exec(&iv, &chars_of("weibo_")) {
        Some(Platform::Weibo)
    } else if starts_with_exec(&iv, &chars_of("bilibili_")) {
        Some(Platform::Bilibili)
    } else if starts_with_exec(&iv, &chars_of("toutiao_")) {
        Some(Platform::Toutiao)
    } else if starts_with_exec(&iv, &chars_of("douyin_")) {
        Some(Platform::Douyin)
    } else if starts_with_exec(&iv, &chars_of("xiaohongshu_")) {
        Some(Platform::Xiaohongshu)
    } else if starts_with_exec(&iv, &chars_of("wechat_")) {
        Some(Platform::WeChatOfficial)
    } else {
        None
    }
}

// ---------------------------------------------------------------------
// Account endpoints
// ---------------------------------------------------------------------

/// A registration request.
#[derive(Debug)]
pub struct RegisterRequest {
    pub username: String,
    pub password: String,
}

/// A login request.
#[derive(Debug)]
pub struct LoginRequest {
    pub username: String,
    pub password: String,
}

/// A request to change the password.
#[derive(Debug)]
pub struct ChangePasswordRequest {
    pub old_password: String,
    pub new_password: String,
}

// ---------------------------------------------------------------------
// Configuration endpoints
// ---------------------------------------------------------------------

/// The stored API key as shown to its owner.
#[derive(Debug)]
pub struct ApiKeyResponse {
    pub provider: String,
    pub key: String,
    pub region: String,
}

/// An API key as shown: its first four bytes and `****` where it is
/// longer than four bytes, else only `****`.
pub open spec fn masked(key: Seq<char>) -> Seq<char> {
    if vstd::utf8::encode_utf8(key).len() > 4 {
        truncate_bytes(key, 4) + "****"@
    } else {
        "****"@
    }
}

/// The reply showing the (decrypted) stored key, if there is one; the
/// key's first four bytes must end a character, as cutting there does.
pub fn api_key_response(decrypted: Option<&str>) -> (r: ApiKeyResponse)
    requires
        decrypted matches Some(k) ==> cut_ok(k@, 4),
    ensures
        r.provider@ == "minimax"@,
        r.region@ == "cn"@,
        match decrypted {
            Some(k) => r.key@ == masked(k@),
            None => r.key@.len() == 0,
        },
{
    let key = match decrypted {
        Some(k) => {
            if k.as_bytes().len() > 4 {
                let head = crate::task::executor::truncated_chars(k, 4);
                let mut out: Vec<char> = Vec::new();
                push_all(&mut out, &head);
                push_str(&mut out, "****");
                string_of(&out)
            } else {
                "****".to_owned()
            }
        },
        None => String::new(),
    };
    ApiKeyResponse { provider: "minimax".to_owned(), key, region: "cn".to_owned() }
}

/// A request to store an API key.
#[derive(Debug)]
pub struct SetApiKeyRequest {
    pub provider: String,
    pub key: String,
    pub region: String,
}

/// The reply listing the platform settings.
#[derive(Debug)]
pub struct PlatformListResponse {
    pub platforms: Vec<PlatformConfig>,
}

/// A request to store a platform's settings.
#[derive(Debug)]
pub struct SetPlatformRequest {
    pub enabled: bool,
    pub image_count: u32,
    pub cookies: Option<String>,
    pub extra: Option<Vec<(String, String)>>,
}

/// The platform a settings path names (any case).
pub open spec fn path_platform(lower: Seq<char>) -> Option<Platform> {
    if lower == "weibo"@ {
        Some(Platform::Weibo)
    } else if lower == "bilibili"@ {
        Some(Platform::Bilibili)
    } else if lower == "toutiao"@ {
        Some(Platform::Toutiao)
    } else if lower == "xiaohongshu"@ {
        Some(Platform::Xiaohongshu)
    } else if lower == "douyin"@ {
        Some(Platform::Douyin)
    } else if lower == "wechatofficial"@ || lower == "wechat"@ || lower == "wechat_official"@ {
        Some(Platform::WeChatOfficial)
    } else {
        None
    }
}

/// The platform an already lower-cased settings name names.
fn platform_of_lower(l: &str) -> (r: Option<Platform>)
    ensures
        r == path_platform(l@),
{
    if str_eq(l, "weibo") {
        Some(Platform::Weibo)
    } else if str_eq(l, "bilibili") {
        Some(Platform::Bilibili)
    } else if str_eq(l, "toutiao") {
        Some(Platform::Toutiao)
    } else if str_eq(l, "xiaohongshu") {
        Some(Platform::Xiaohongshu)
    } else if str_eq(l, "douyin") {
        Some(Platform::Douyin)
    } else if str_eq(l, "wechatofficial") || str_eq(l, "wechat") || str_eq(l, "wechat_official") {
        Some(Platform::WeChatOfficial)
    } else {
        None
    }
}

/// The platform a settings path names; a validation error where it names
/// none.
pub fn platform_of_path(name: &str) -> (r: Result<Platform, AppError>)
    ensures
        match path_platform(lowercase_text(name@)) {
            Some(p) => r == Ok::<Platform, AppError>(p),
            None => r matches Err(AppError::Validation { code, message }) && code@ == INPUT_001@
                && message@ == "未知平台"@,
        },
{
    let lower = to_lowercase(name);
    match platform_of_lower(lower.as_str()) {
        Some(p) => Ok(p),
        None => Err(AppError::validation(INPUT_001, "未知平台")),
    }
}

/// The settings a request stores for `platform`; no named values where it
/// sends none.
pub fn platform_config_of(platform: Platform, req: SetPlatformRequest) -> (r: PlatformConfig)
    ensures
        r.platform == platform,
        r.enabled == req.enabled,
        r.image_count == req.image_count,
        r.cookies == req.cookies,
        match req.extra {
            Some(e) => r.extra == e,
            None => r.extra@.len() == 0,
        },
{
    let extra = match req.extra {
        Some(e) => e,
        None => Vec::new(),
    };
    PlatformConfig {
        platform,
        enabled: req.enabled,
        image_count: req.image_count,
        cookies: req.cookies,
        extra,
    }
}

/// The reply showing the preferences.
#[derive(Debug)]
pub struct PreferencesResponse {
    pub preferences: UserPreferences,
}

/// A request to change some preferences.
#[derive(Debug)]
pub struct SetPreferencesRequest {
    pub default_mode: Option<TaskMode>,
    pub default_tags: Option<Vec<String>>,
    pub auto_publish: Option<bool>,
}

/// The preferences after a request: each field it sends replaces the
/// current one, the others stay.
pub fn merged_preferences(current: UserPreferences, req: SetPreferencesRequest) -> (r: UserPreferences)
    ensures
        r.default_mode == (match req.default_mode {
            Some(m) => m,
            None => current.default_mode,
        }),
        r.default_tags == (match req.default_tags {
            Some(t) => t,
            None => current.default_tags,
        }),
        r.auto_publish == (match req.auto_publish {
            Some(a) => a,
            None => current.auto_publish,
        }),
{
    UserPreferences {
        default_mode: match req.default_mode {
            Some(m) => m,
            None => current.default_mode,
        },
        default_tags: match req.default_tags {
            Some(t) => t,
            None => current.default_tags,
        },
        auto_publish: match req.auto_publish {
            Some(a) => a,
            None => current.auto_publish,
        },
    }
}

/// The reply showing the model choice.
#[derive(Debug)]
pub struct ModelConfigResponse {
    pub text_model: String,
    pub image_model: String,
    pub video_model: String,
    pub speech_model: String,
    pub music_model: String,
}

/// A request to store the model choice.
#[derive(Debug)]
pub struct SetModelConfigRequest {
    pub text_model: String,
    pub image_model: String,
    pub video_model: String,
    pub speech_model: String,
    pub music_model: String,
}

/// The reply showing a model choice.
pub fn model_config_response(c: UserModelConfig) -> (r: ModelConfigResponse)
    ensures
        r.text_model == c.text_model,
        r.image_model == c.image_model,
        r.video_model == c.video_model,
        r.speech_model == c.speech_model,
        r.music_model == c.music_model,
{
    ModelConfigResponse {
        text_model: c.text_model,
        image_model: c.image_model,
        video_model: c.video_model,
        speech_model: c.speech_model,
        music_model: c.music_model,
    }
}

/// The model choice a request stores.
pub fn model_config_of(req: SetModelConfigRequest) -> (r: UserModelConfig)
    ensures
        r.text_model == req.text_model,
        r.image_model == req.image_model,
        r.video_model == req.video_model,
        r.speech_model == req.speech_model,
        r.music_model == req.music_model,
{
    UserModelConfig {
        text_model: req.text_model,
        image_model: req.image_model,
        video_model: req.video_model,
        speech_model: req.speech_model,
        music_model: req.music_model,
    }
}

// ---------------------------------------------------------------------
// Draft endpoints
// ---------------------------------------------------------------------

/// The filter of a draft listing.
#[derive(Debug)]
pub struct ListDraftsQuery {
    pub status: Option<String>,
}

impl ListDraftsQuery {
    /// The status the listing is restricted to, if any.
    pub fn status_filter(&self) -> (r: Option<DraftStatus>)
        ensures
            match self.status {
                Some(s) => r == Some(DraftStatus::of_text(s@)),
                None => r.is_none(),
            },
    {
        match &self.status {
            Some(s) => Some(DraftStatus::from_text(s.as_str())),
            None => None,
        }
    }
}

/// A request to publish a draft, to one platform (by its lower-case
/// name) or to all.
#[derive(Debug)]
pub struct PublishDraftRequest {
    pub platform: Option<String>,
}

/// A request to create a draft.
#[derive(Debug)]
pub struct CreateDraftRequest {
    pub mode: String,
    pub topic: String,
    pub platforms: Vec<Platform>,
    pub original_content: Option<String>,
    pub adapted_contents: Vec<(Platform, String)>,
    pub generated_images: Vec<String>,
}

/// The reply to publishing a draft.
#[derive(Debug)]
pub struct DraftPublishResponse {
    pub publish_results: Vec<PublishResult>,
    pub warning: Option<String>,
}

// ---------------------------------------------------------------------
// Hotspot endpoints
// ---------------------------------------------------------------------

/// The query of the topic listing.
#[derive(Debug)]
pub struct FetchAllQuery {
    pub force_refresh: Option<bool>,
}

/// The query of the topic search.
#[derive(Debug)]
pub struct SearchQuery {
    pub keyword: String,
}

/// The reply listing topics.
#[derive(Debug)]
pub struct HotspotListResponse {
    pub hotspots: Vec<Hotspot>,
}

/// The refusal of an unknown topic source.
pub fn unknown_source(source: &str) -> (r: AppError)
    ensures
        r matches AppError::Validation { code, message } && code@ == INPUT_001@ && message@
            == "未知热点源: "@ + source@,
{
    let mut out: Vec<char> = Vec::new();
    push_str(&mut out, "未知热点源: ");
    push_str(&mut out, source);
    AppError::validation(INPUT_001, string_of(&out).as_str())
}

/// The error of a failed topic search.
pub fn search_failed(e: &AiError) -> (r: AppError)
    ensures
        r matches AppError::Ai { code, message } && code@ == INPUT_001@ && message@ == "搜索失败: "@
            + e.display_text(),
{
    let mut out: Vec<char> = Vec::new();
    push_str(&mut out, "搜索失败: ");
    let t = e.to_display_string();
    push_str(&mut out, t.as_str());
    AppError::ai(INPUT_001, string_of(&out).as_str())
}

// ---------------------------------------------------------------------
// Task endpoints
// ---------------------------------------------------------------------

/// A request to create a task.
#[derive(Debug)]
pub struct CreateTaskRequest {
    pub mode: TaskMode,
    pub topic: String,
    pub platforms: Vec<Platform>,
    pub event_date: Option<CalendarDate>,
}

/// The reply carrying a task.
#[derive(Debug)]
pub struct TaskResponse {
    pub task: Task,
}

/// The reply listing tasks.
#[derive(Debug)]
pub struct TaskListResponse {
    pub tasks: Vec<Task>,
}

/// The reply to generating a task's content into a draft.
#[derive(Debug)]
pub struct GenerateToDraftResponse {
    pub success: bool,
    pub generated_text: Option<String>,
    pub generated_images: Vec<String>,
    pub draft_id: Option<String>,
    pub error_message: Option<String>,
}

/// The reply to generating into the draft `draft_id`.
pub fn generate_to_draft_response(g: GenerationResult, draft_id: String) -> (r: GenerateToDraftResponse)
    ensures
        r.success == g.success,
        r.generated_text == g.generated_text,
        r.generated_images == g.generated_images,
        r.draft_id == Some(draft_id),
        r.error_message == g.error_message,
{
    GenerateToDraftResponse {
        success: g.success,
        generated_text: g.generated_text,
        generated_images: g.generated_images,
        draft_id: Some(draft_id),
        error_message: g.error_message,
    }
}

/// The reply to executing a task.
#[derive(Debug)]
pub struct PublishTaskResponse {
    pub success: bool,
    pub generated_text: Option<String>,
    pub generated_images: Vec<String>,
    pub publish_results: Vec<PublishResult>,
    pub error_message: Option<String>,
    pub saved_to_draft: bool,
    pub warning: Option<String>,
}

/// The reply to executing a task: what the execution produced, and what
/// publishing it ended in (nothing where there was no publishing run).
pub fn publish_task_response(e: ExecutionResult, run: Option<RunSummary>) -> (r: PublishTaskResponse)
    ensures
        r.success == e.success,
        r.generated_text == e.generated_text,
        r.generated_images == e.generated_images,
        r.error_message == e.error_message,
        match run {
            Some(s) => r.publish_results == s.publish_results && r.saved_to_draft == s.saved_to_draft
                && r.warning == s.warning,
            None => r.publish_results@.len() == 0 && !r.saved_to_draft && r.warning.is_none(),
        },
{
    let (publish_results, saved_to_draft, warning) = match run {
        Some(s) => (s.publish_results, s.saved_to_draft, s.warning),
        None => (Vec::new(), false, None),
    };
    PublishTaskResponse {
        success: e.success,
        generated_text: e.generated_text,
        generated_images: e.generated_images,
        publish_results,
        error_message: e.error_message,
        saved_to_draft,
        warning,
    }
}

/// Whether an executed task is published: it succeeded in text mode.
pub fn publishes_after_execution(success: bool, mode: TaskMode) -> (r: bool)
    ensures
        r == (success && mode == TaskMode::Text),
{
    success && mode == TaskMode::Text
}

} // verus!
