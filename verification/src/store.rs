//! The decisions the services make around their stored records: accounts
//! and sessions, API keys, preferences and platform settings, drafts, and
//! new tasks. The records are read and written by the caller.
use crate::config::{PlatformConfig, UserPreferences};
use crate::crypto::hash::{generate_salt, hash_password, password_hash_text, password_matches, verify_password};
use crate::crypto::primitives::{base64_standard_bytes, AES_GCM_P_MAX};
use crate::crypto::sealed::{open_sealed, Opened};
use crate::crypto::system_key::SystemKey;
use crate::crypto::user_key::{derived_key, UserKey};
use crate::draft::{Draft, DraftStatus};
use crate::error::{AppError, CryptoError, AUTH_001, AUTH_002, AUTH_003, AUTH_005, CONFIG_001, INPUT_001};
use crate::json::{json_document, json_str, parse_json, Json};
use crate::publish::qr_platforms::random_state;
use crate::records::{adapted_json, platforms_json, strings_json};
use crate::task::model::{mode_of_text, parse_mode};
use crate::task::scheduler::{admission, admit_task, steps_of, task_steps};
use crate::text::{chars_of, push_str, string_of, trim, trim_exec};
use crate::types::{is_calendar_day, two_digits, year_text, CalendarDate, MiniMaxRegion, Platform, PublishResult, TaskMode};
use crate::user::{password_problem, validate_password, RegisterRequest};
use chrono::Datelike;
use vstd::prelude::*;
use vstd::string::StringSliceAdditionalSpecFns;

verus! {

broadcast use vstd::string::group_string_axioms;

// ---------------------------------------------------------------------
// Accounts and sessions
// ---------------------------------------------------------------------

/// A user name is taken where a user of that name exists.
pub fn check_username_free(existing: i64) -> (r: Result<(), AppError>)
    ensures
        existing > 0 ==> (r matches Err(AppError::Auth { code, message }) && code@ == AUTH_001@
            && message@ == "用户名已存在"@),
        existing <= 0 ==> r is Ok,
{
    if existing > 0 {
        Err(AppError::auth(AUTH_001, "用户名已存在"))
    } else {
        Ok(())
    }
}

/// What a registration stores besides the name: the salt, the password's
/// hash, the sealed API key and the phone number (empty where none).
#[derive(Debug)]
pub struct RegistrationRecord {
    pub salt: String,
    pub password_hash: String,
    pub encrypted_api_key: String,
    pub phone: String,
}

/// The record of a (validated) registration: a fresh salt, the hash of the
/// password with it, the API key sealed under the system key.
pub fn registration_record(system_key: &SystemKey, req: &RegisterRequest) -> (r: Result<RegistrationRecord, AppError>)
    ensures
        r matches Ok(rec) ==> password_matches(req.password@, rec.password_hash@, rec.salt@) == Some(true)
            && open_sealed(system_key@, rec.encrypted_api_key@) == Opened::Text(req.minimax_api_key@)
            && rec.phone@ == (match req.phone {
            Some(p) => p@,
            None => Seq::<char>::empty(),
        }),
        r matches Err(e) ==> e is Crypto,
        vstd::utf8::encode_utf8(req.password@).len() <= crate::crypto::primitives::ARGON2_MAX_INPUT
            && vstd::utf8::encode_utf8(req.minimax_api_key@).len()
            <= crate::crypto::primitives::AES_GCM_P_MAX ==> r is Ok,
{
    let salt = generate_salt();
    let hash = match hash_password(req.password.as_str(), salt.as_str()) {
        Ok(h) => h,
        Err(e) => {
            return Err(AppError::from_crypto(e));
        },
    };
    let sealed = match system_key.encrypt(req.minimax_api_key.as_str()) {
        Ok(c) => c,
        Err(e) => {
            return Err(AppError::from_crypto(e));
        },
    };
    let phone = match &req.phone {
        Some(p) => p.clone(),
        None => String::new(),
    };
    Ok(RegistrationRecord { salt, password_hash: hash, encrypted_api_key: sealed, phone })
}

/// What a login with `password` gives for the stored hash and salt of the
/// user (`None` where no user has the name): the user's key where the
/// password matches; the same refusal for an unknown name and a wrong
/// password.
pub fn login_key(stored: Option<(&str, &str)>, password: &str) -> (r: Result<UserKey, AppError>)
    ensures
        stored.is_none() ==> (r matches Err(AppError::Auth { code, message }) && code@ == AUTH_002@
            && message@ == "用户名或密码错误"@),
        stored matches Some((h, s)) ==> (match password_matches(password@, h@, s@) {
            Some(false) => r matches Err(AppError::Auth { code, message }) && code@ == AUTH_002@
                && message@ == "用户名或密码错误"@,
            Some(true) => match derived_key(password@, s@) {
                Some(k) => r matches Ok(key) && key@ == k,
                None => r matches Err(e) && e is Crypto,
            },
            None => r matches Err(e) && e is Crypto,
        }),
{
    let (hash, salt) = match stored {
        Some(p) => p,
        None => {
            return Err(AppError::auth(AUTH_002, "用户名或密码错误"));
        },
    };
    match verify_password(password, hash, salt) {
        Ok(true) => {},
        Ok(false) => {
            return Err(AppError::auth(AUTH_002, "用户名或密码错误"));
        },
        Err(e) => {
            return Err(AppError::from_crypto(e));
        },
    }
    match UserKey::derive_from_password(password, salt) {
        Ok(k) => Ok(k),
        Err(e) => Err(AppError::from_crypto(e)),
    }
}

/// What a password change stores and re-encrypts with.
pub struct PasswordChange {
    /// The key derived from the old password.
    pub old_key: UserKey,
    /// The fresh salt.
    pub new_salt: String,
    /// The new password's hash with it.
    pub new_hash: String,
    /// The key derived from the new password.
    pub new_key: UserKey,
}

/// A password change: the new password must be acceptable and the old one
/// must match the stored hash; then both keys and the new hash.
pub fn change_password_plan(old_password: &str, new_password: &str, hash: &str, salt: &str) -> (r: Result<PasswordChange, AppError>)
    ensures
        password_problem(new_password@) matches Some(m) ==> (r matches Err(
            AppError::Validation { code, message },
        ) && code@ == AUTH_005@ && message@ == m),
        password_problem(new_password@) is None && password_matches(old_password@, hash@, salt@)
            is None ==> (r matches Err(e) && e is Crypto),
        password_problem(new_password@) is None && password_matches(old_password@, hash@, salt@)
            == Some(true) ==> r is Ok,
        password_problem(new_password@) is None && password_matches(old_password@, hash@, salt@)
            == Some(false) ==> (r matches Err(AppError::Auth { code, message }) && code@ == AUTH_002@
            && message@ == "旧密码错误"@),
        r matches Ok(c) ==> Some(c.old_key@) == derived_key(old_password@, salt@) && password_matches(
            new_password@,
            c.new_hash@,
            c.new_salt@,
        ) == Some(true) && Some(c.new_key@) == derived_key(new_password@, c.new_salt@),
{
    match validate_password(new_password) {
        Ok(()) => {},
        Err(e) => {
            return Err(e);
        },
    }
    match verify_password(old_password, hash, salt) {
        Ok(true) => {},
        Ok(false) => {
            return Err(AppError::auth(AUTH_002, "旧密码错误"));
        },
        Err(e) => {
            return Err(AppError::from_crypto(e));
        },
    }
    let old_key = match UserKey::derive_from_password(old_password, salt) {
        Ok(k) => k,
        Err(e) => {
            return Err(AppError::from_crypto(e));
        },
    };
    let new_salt = generate_salt();
    let new_hash = match hash_password(new_password, new_salt.as_str()) {
        Ok(h) => h,
        Err(e) => {
            return Err(AppError::from_crypto(e));
        },
    };
    let new_key = match UserKey::derive_from_password(new_password, new_salt.as_str()) {
        Ok(k) => k,
        Err(e) => {
            return Err(AppError::from_crypto(e));
        },
    };
    Ok(PasswordChange { old_key, new_salt, new_hash, new_key })
}

/// Re-encrypts stored platform cookies from the old user key to the new:
/// cookies that open under the old key are sealed again, and what the new
/// sealing opens to is what the old one opened to.
pub fn reencrypt_cookies(old_key: &UserKey, new_key: &UserKey, cookies: &str) -> (r: Result<String, AppError>)
    ensures
        open_sealed(old_key@, cookies@) matches Opened::Text(p) && vstd::utf8::encode_utf8(p).len()
            <= AES_GCM_P_MAX ==> r is Ok,
        r matches Ok(c) ==> (open_sealed(old_key@, cookies@) matches Opened::Text(p) && open_sealed(
            new_key@,
            c@,
        ) == Opened::Text(p)),
        !(open_sealed(old_key@, cookies@) is Text) ==> (r matches Err(e) && e is Crypto),
{
    let plain = match old_key.decrypt(cookies) {
        Ok(p) => p,
        Err(e) => {
            return Err(AppError::from_crypto(e));
        },
    };
    match new_key.encrypt(plain.as_str()) {
        Ok(c) => Ok(c),
        Err(e) => Err(AppError::from_crypto(e)),
    }
}

/// The cookies sealed under `old_key` as `cookies` can be sealed again:
/// they open to a text short enough for AES-GCM.
pub open spec fn reseals(old_key: Seq<u8>, cookies: Seq<char>) -> bool {
    open_sealed(old_key, cookies) matches Opened::Text(p) && vstd::utf8::encode_utf8(p).len() <= AES_GCM_P_MAX
}

/// Re-encrypts a user's stored cookies, in order, from the old user key to
/// the new, stopping at the first that fails: the re-sealed cookies before
/// it (which the caller stores in their place) and the failure, if any.
/// Each re-sealed cookie opens under the new key to what it opened to under
/// the old one; where every cookie can be sealed again, all are.
pub fn reencrypt_all_cookies(old_key: &UserKey, new_key: &UserKey, cookies: &Vec<String>) -> (r: (
    Vec<String>,
    Option<AppError>,
))
    ensures
        r.0.len() <= cookies.len(),
        forall|i: int|
            0 <= i < r.0.len() ==> (open_sealed(old_key@, cookies@[i]@) matches Opened::Text(p)
                && open_sealed(new_key@, (#[trigger] r.0@[i])@) == Opened::Text(p)),
        r.1 is None <==> r.0.len() == cookies.len(),
        r.1 is Some ==> !reseals(old_key@, cookies@[r.0.len() as int]@),
        (forall|i: int| 0 <= i < cookies.len() ==> reseals(old_key@, (#[trigger] cookies@[i])@)) ==> r.1 is None,
{
    let mut out: Vec<String> = Vec::new();
    let mut i: usize = 0;
    while i < cookies.len()
        invariant
            i <= cookies.len(),
            out.len() == i,
            forall|k: int|
                0 <= k < i ==> (open_sealed(old_key@, cookies@[k]@) matches Opened::Text(p)
                    && open_sealed(new_key@, (#[trigger] out@[k])@) == Opened::Text(p)),
        decreases cookies.len() - i,
    {
        match reencrypt_cookies(old_key, new_key, cookies[i].as_str()) {
            Ok(c) => {
                out.push(c);
            },
            Err(e) => {
                return (out, Some(e));
            },
        }
        i = i + 1;
    }
    (out, None)
}

/// The refusal of a session that is unknown or expired.
pub fn session_expired() -> (r: AppError)
    ensures
        r matches AppError::Auth { code, message } && code@ == AUTH_003@ && message@ == "会话已过期"@,
{
    AppError::auth(AUTH_003, "会话已过期")
}

/// A user's MiniMax key from its sealed copy: refused where none is
/// stored; an internal error naming the failure where it does not open.
pub fn open_minimax_key(system_key: &SystemKey, stored: Option<&str>) -> (r: Result<String, AppError>)
    ensures
        stored.is_none() ==> (r matches Err(AppError::Config { code, message }) && code@ == CONFIG_001@
            && message@ == "用户不存在或API Key未设置"@),
        stored matches Some(s) ==> (match open_sealed(system_key@, s@) {
            Opened::Text(k) => r matches Ok(key) && key@ == k,
            _ => r matches Err(AppError::Internal(_)),
        }),
{
    let s = match stored {
        Some(s) => s,
        None => {
            return Err(AppError::config(CONFIG_001, "用户不存在或API Key未设置"));
        },
    };
    match system_key.decrypt(s) {
        Ok(k) => Ok(k),
        Err(e) => {
            let mut out: Vec<char> = Vec::new();
            push_str(&mut out, "API Key 解密失败: ");
            let t = e.to_display_string();
            push_str(&mut out, t.as_str());
            Err(AppError::Internal(string_of(&out)))
        },
    }
}

/// The refusal where a user's model choice cannot be found.
pub fn user_missing() -> (r: AppError)
    ensures
        r matches AppError::Config { code, message } && code@ == CONFIG_001@ && message@ == "用户不存在"@,
{
    AppError::config(CONFIG_001, "用户不存在")
}

// ---------------------------------------------------------------------
// API keys, preferences, platform settings
// ---------------------------------------------------------------------

/// An API key to store, sealed under the system key; a blank key is
/// refused.
pub fn seal_api_key(system_key: &SystemKey, key: &str) -> (r: Result<String, AppError>)
    ensures
        trim(key@).len() == 0 ==> (r matches Err(AppError::Validation { code, message }) && code@
            == INPUT_001@ && message@ == "API Key 不能为空"@),
        trim(key@).len() > 0 && vstd::utf8::encode_utf8(key@).len() <= crate::crypto::primitives::AES_GCM_P_MAX
            ==> r is Ok,
        r matches Ok(c) ==> open_sealed(system_key@, c@) == Opened::Text(key@),
{
    let k = chars_of(key);
    let t = trim_exec(&k);
    if t.len() == 0 {
        return Err(AppError::validation(INPUT_001, "API Key 不能为空"));
    }
    match system_key.encrypt(key) {
        Ok(c) => Ok(c),
        Err(e) => Err(AppError::from_crypto(e)),
    }
}

/// The stored API key, opened: refused where none is stored; a
/// cryptographic error where it does not open. The region is always CN.
pub fn open_api_key(system_key: &SystemKey, stored: Option<&str>) -> (r: Result<(String, MiniMaxRegion), AppError>)
    ensures
        stored.is_none() ==> (r matches Err(AppError::Config { code, message }) && code@ == CONFIG_001@
            && message@ == "未配置 MiniMax API Key"@),
        stored matches Some(s) ==> (match open_sealed(system_key@, s@) {
            Opened::Text(k) => r matches Ok((key, region)) && key@ == k && region == MiniMaxRegion::CN,
            _ => r matches Err(e) && e is Crypto,
        }),
{
    let s = match stored {
        Some(s) => s,
        None => {
            return Err(AppError::config(CONFIG_001, "未配置 MiniMax API Key"));
        },
    };
    match system_key.decrypt(s) {
        Ok(k) => Ok((k, MiniMaxRegion::CN)),
        Err(e) => Err(AppError::from_crypto(e)),
    }
}

/// The preferences of a stored row (mode text, tags as JSON, flag), or the
/// defaults where there is no row.
pub fn preferences_of_row(row: Option<(&str, &str, i32)>) -> (r: UserPreferences)
    ensures
        match row {
            Some((mode, tags, flag)) => r.default_mode == mode_of_text(mode@) && crate::task::flows::strings_view(
                r.default_tags@,
            ) == crate::records::stored_strings(tags@) && r.auto_publish == (flag != 0),
            None => r.default_mode == TaskMode::Text && r.default_tags@.len() == 0 && !r.auto_publish,
        },
{
    match row {
        Some((mode, tags, flag)) => UserPreferences {
            default_mode: parse_mode(mode),
            default_tags: crate::records::read_stored_strings(tags),
            auto_publish: flag != 0,
        },
        None => crate::config::default_preferences(),
    }
}

/// `j` is an array of the texts `v`.
pub open spec fn text_array(j: Json, v: Seq<String>) -> bool {
    &&& j is Array
    &&& crate::json::json_items(j).len() == v.len()
    &&& forall|i: int| 0 <= i < v.len() ==> json_str(#[trigger] crate::json::json_items(j)[i]) == Some(v[i]@)
}

/// `j` is an array of the variant names of `ps`.
pub open spec fn platform_array(j: Json, ps: Seq<Platform>) -> bool {
    &&& j is Array
    &&& crate::json::json_items(j).len() == ps.len()
    &&& forall|i: int| 0 <= i < ps.len() ==> json_str(#[trigger] crate::json::json_items(j)[i]) == Some(ps[i].debug_text())
}

/// The stored columns of preferences: mode text, tags as JSON, flag.
pub fn preferences_columns(p: &UserPreferences) -> (r: (&'static str, String, i32))
    ensures
        r.0@ == p.default_mode.text(),
        exists|j: Json| text_array(j, p.default_tags@) && r.1@ == crate::json::json_text(j),
        crate::records::stored_strings(r.1@) == crate::task::flows::strings_view(p.default_tags@),
        r.2 == (if p.auto_publish {
            1i32
        } else {
            0i32
        }),
{
    let tags = strings_json(&p.default_tags);
    assert(crate::json::strings_array(tags)) by {
        assert forall|i: int| 0 <= i < crate::json::json_items(tags).len() implies #[trigger] crate::json::json_items(tags)[i] is Str by {
            assert(json_str(crate::json::json_items(tags)[i]) == Some(p.default_tags@[i]@));
        }
    }
    let text = tags.to_text();
    assert(text_array(tags, p.default_tags@));
    proof {
        let items = crate::json::json_array_document(text@)->0@;
        assert forall|i: int| 0 <= i < items.len() implies (#[trigger] json_str(items[i])) is Some by {
            assert(json_str(items[i]) == json_str(crate::json::json_items(tags)[i]));
        }
        crate::records::lemma_string_entries_of_strings(items);
        assert(crate::task::flows::string_entries(items) =~= crate::task::flows::strings_view(p.default_tags@)) by {
            assert forall|i: int| 0 <= i < items.len() implies crate::task::flows::string_entries(items)[i] == crate::task::flows::strings_view(p.default_tags@)[i] by {
                assert(Some(crate::task::flows::string_entries(items)[i]) == json_str(items[i]));
                assert(json_str(items[i]) == json_str(crate::json::json_items(tags)[i]));
            }
        }
    }
    (p.default_mode.as_str(), text, if p.auto_publish {
        1
    } else {
        0
    })
}

/// Preferences read back from the columns they were stored in are the
/// preferences stored: the mode text names the mode, the tags text holds
/// the tags, and the flag is set exactly for automatic publishing.
pub proof fn lemma_preferences_read_back(p: UserPreferences, mode: Seq<char>, tags: Seq<char>, flag: i32)
    requires
        mode == p.default_mode.text(),
        crate::records::stored_strings(tags) == crate::task::flows::strings_view(p.default_tags@),
        flag == (if p.auto_publish {
            1i32
        } else {
            0i32
        }),
    ensures
        mode_of_text(mode) == p.default_mode,
        crate::records::stored_strings(tags) == crate::task::flows::strings_view(p.default_tags@),
        (flag != 0) == p.auto_publish,
{
    crate::task::model::lemma_mode_text_round_trip(p.default_mode);
}

/// The refusal where a platform has no stored settings.
pub fn platform_config_missing() -> (r: AppError)
    ensures
        r matches AppError::Config { code, message } && code@ == CONFIG_001@ && message@ == "平台配置不存在"@,
{
    AppError::config(CONFIG_001, "平台配置不存在")
}

// ---------------------------------------------------------------------
// Drafts
// ---------------------------------------------------------------------

/// The refusal of an unknown draft.
pub fn draft_not_found() -> (r: AppError)
    ensures
        r matches AppError::Config { code, message } && code@ == "DRAFT_001"@ && message@ == "草稿不存在"@,
{
    AppError::config("DRAFT_001", "草稿不存在")
}

/// A status update must change a row.
pub fn check_status_updated(rows: u64) -> (r: Result<(), AppError>)
    ensures
        rows == 0 ==> (r matches Err(AppError::Config { code, message }) && code@ == "DRAFT_002"@
            && message@ == "草稿不存在或无权修改"@),
        rows > 0 ==> r is Ok,
{
    if rows == 0 {
        Err(AppError::config("DRAFT_002", "草稿不存在或无权修改"))
    } else {
        Ok(())
    }
}

/// A deletion must remove a row.
pub fn check_deleted(rows: u64) -> (r: Result<(), AppError>)
    ensures
        rows == 0 ==> (r matches Err(AppError::Config { code, message }) && code@ == "DRAFT_003"@
            && message@ == "草稿不存在或无权删除"@),
        rows > 0 ==> r is Ok,
{
    if rows == 0 {
        Err(AppError::config("DRAFT_003", "草稿不存在或无权删除"))
    } else {
        Ok(())
    }
}

/// A new draft: a fresh id, the status `draft`, no publication yet, and
/// `now` as its creation and update time.
pub fn new_draft(
    user_id: i64,
    task_id: Option<String>,
    mode: &str,
    topic: &str,
    platforms: Vec<Platform>,
    original_content: Option<String>,
    adapted_contents: Vec<(Platform, String)>,
    generated_images: Vec<String>,
    now: &str,
) -> (r: Draft)
    ensures
        r.id@.len() == 36,
        r.user_id == user_id,
        r.task_id == task_id,
        r.mode@ == mode@,
        r.topic@ == topic@,
        r.platforms == platforms,
        r.original_content == original_content,
        r.adapted_contents == adapted_contents,
        r.generated_images == generated_images,
        r.status == DraftStatus::Draft,
        r.publish_results@.len() == 0,
        r.created_at@ == now@,
        r.updated_at@ == now@,
{
    Draft {
        id: random_state(),
        user_id,
        task_id,
        mode: mode.to_owned(),
        topic: topic.to_owned(),
        platforms,
        original_content,
        adapted_contents,
        generated_images,
        status: DraftStatus::Draft,
        publish_results: Vec::new(),
        created_at: now.to_owned(),
        updated_at: now.to_owned(),
    }
}

// ---------------------------------------------------------------------
// New tasks
// ---------------------------------------------------------------------

/// The text `chrono` prints for the date with `%Y-%m-%d`, where the
/// numbers form a day of its calendar.
pub open spec fn ymd_text(year: i32, month: u32, day: u32) -> Option<Seq<char>> {
    if is_calendar_day(CalendarDate { year, month, day }) {
        Some(year_text(year as int) + "-"@ + two_digits(month as nat) + "-"@ + two_digits(day as nat))
    } else {
        None
    }
}

/// `NaiveDate::from_ymd_opt(..).format("%Y-%m-%d")` of chrono: a date
/// where the numbers form a day of chrono's calendar, written with its
/// year (`%Y`), month and day.
#[verifier::external_body]
fn format_ymd(d: CalendarDate) -> (r: Option<String>)
    ensures
        match r {
            Some(t) => ymd_text(d.year, d.month, d.day) == Some(t@),
            None => ymd_text(d.year, d.month, d.day).is_none(),
        },
{
    chrono::NaiveDate::from_ymd_opt(d.year, d.month, d.day).map(|n| n.format("%Y-%m-%d").to_string())
}

/// What a new task is stored with.
#[derive(Debug)]
pub struct NewTask {
    /// A fresh id.
    pub id: String,
    /// The mode's text.
    pub mode_text: &'static str,
    /// The platforms as JSON.
    pub platforms_text: String,
    /// The steps, in order.
    pub steps: Vec<&'static str>,
    /// The event date as `YYYY-MM-DD`, where there is one.
    pub event_date_text: Option<String>,
}

/// A new task, checked against the scheduler's rules: refused where the
/// limit of concurrent tasks is reached or the topic is blank or too long.
pub fn plan_task(
    active: usize,
    limit: usize,
    mode: TaskMode,
    topic: &str,
    platforms: &Vec<Platform>,
    event_date: Option<CalendarDate>,
) -> (r: Result<NewTask, AppError>)
    ensures
        r is Ok <==> admission(active as nat, limit as nat, topic@) is None,
        r matches Err(e) ==> admission(active as nat, limit as nat, topic@) == Some(
            (e.code_text(), match e {
                AppError::Task { message, .. } => message@,
                AppError::Validation { message, .. } => message@,
                _ => Seq::<char>::empty(),
            }),
        ),
        r matches Err(e) ==> (active >= limit <==> e is Task) && (active < limit <==> e is Validation),
        r matches Ok(t) ==> (exists|j: Json| platform_array(j, platforms@) && t.platforms_text@
            == crate::json::json_text(j)),
        r matches Ok(t) ==> t.id@.len() == 36 && t.mode_text@ == mode.text() && t.steps@.map_values(
            |s: &'static str| s@,
        ) == steps_of(mode) && match event_date {
            Some(d) => match t.event_date_text {
                Some(x) => ymd_text(d.year, d.month, d.day) == Some(x@),
                None => ymd_text(d.year, d.month, d.day).is_none(),
            },
            None => t.event_date_text.is_none(),
        },
{
    match admit_task(active, limit, topic) {
        Ok(()) => {},
        Err(e) => {
            return Err(e);
        },
    }
    let date = match event_date {
        Some(d) => format_ymd(d),
        None => None,
    };
    let pj = platforms_json(platforms);
    let platforms_text = pj.to_text();
    assert(platform_array(pj, platforms@));
    Ok(NewTask {
        id: random_state(),
        mode_text: mode.as_str(),
        platforms_text,
        steps: task_steps(mode),
        event_date_text: date,
    })
}

} // verus!
