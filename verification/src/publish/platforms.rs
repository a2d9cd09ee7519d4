//! What each platform's publishing endpoints are sent and what their
//! replies mean: the request bodies as JSON values, the reading of the
//! replies into publication results, and the limits of each platform.
//!
//! The requests themselves (and reading files) are made by the caller.
use crate::json::{json_array, json_get, json_i64, json_index, json_items, json_keys, json_str, member_str, Json, JsonNumber};
use crate::publish::error::PublishError;
use crate::text::{push_signed_decimal, push_str, signed_decimal, string_of, has_sub, contains, chars_of};
use crate::types::{ArticleContent, Platform, PublishResult, VideoContent};
use vstd::prelude::*;

verus! {

broadcast use vstd::string::group_string_axioms;

// ---------------------------------------------------------------------
// Common
// ---------------------------------------------------------------------

/// The view of an optional string.
pub open spec fn ov(o: Option<String>) -> Option<Seq<char>> {
    match o {
        Some(s) => Some(s@),
        None => None,
    }
}

/// `r` is the result with these fields.
pub open spec fn result_is(
    r: PublishResult,
    platform: Platform,
    success: bool,
    post_id: Option<Seq<char>>,
    post_url: Option<Seq<char>>,
    error_code: Option<Seq<char>>,
    error_message: Option<Seq<char>>,
) -> bool {
    &&& r.platform == platform
    &&& r.success == success
    &&& ov(r.post_id) == post_id
    &&& ov(r.post_url) == post_url
    &&& ov(r.error_code) == error_code
    &&& ov(r.error_message) == error_message
}

/// `doc[k1][k2]`, `Null` where missing.
pub open spec fn at2(doc: Json, k1: Seq<char>, k2: Seq<char>) -> Json {
    json_index(json_index(doc, k1), k2)
}

/// The text of a string at `doc[k]`.
pub open spec fn str_at(doc: Json, k: Seq<char>) -> Option<Seq<char>> {
    json_str(json_index(doc, k))
}

/// The text of a string at `doc[k1][k2]`.
pub open spec fn str_at2(doc: Json, k1: Seq<char>, k2: Seq<char>) -> Option<Seq<char>> {
    json_str(at2(doc, k1, k2))
}

/// The integer at `doc[k]`.
pub open spec fn i64_at(doc: Json, k: Seq<char>) -> Option<i64> {
    json_i64(json_index(doc, k))
}

/// An integer code as text.
pub open spec fn code_view(c: Option<i64>) -> Option<Seq<char>> {
    match c {
        Some(n) => Some(signed_decimal(n as int)),
        None => None,
    }
}

/// A text, or `d` where there is none.
pub open spec fn or_text(o: Option<Seq<char>>, d: Seq<char>) -> Seq<char> {
    match o {
        Some(s) => s,
        None => d,
    }
}

proof fn lemma_field_at(fields: Seq<(String, Json)>, k: int, key: Seq<char>)
    requires
        0 <= k < fields.len(),
        fields[k].0@ == key,
        forall|j: int| 0 <= j < k ==> (#[trigger] fields[j]).0@ != key,
    ensures
        crate::json::field_lookup(fields, key) == Some(fields[k].1),
    decreases k,
{
    if k > 0 {
        lemma_field_at(fields.drop_first(), k - 1, key);
    }
}

fn index<'a>(j: &'a Json, k: &str, null: &'a Json) -> (r: &'a Json)
    requires
        *null == Json::Null,
    ensures
        *r == json_index(*j, k@),
{
    match j.get(k) {
        Some(v) => v,
        None => null,
    }
}

fn str_at_exec(doc: &Json, k: &str) -> (r: Option<String>)
    ensures
        ov(r) == str_at(*doc, k@),
{
    let null = Json::Null;
    match index(doc, k, &null).as_str() {
        Some(s) => Some(s.to_owned()),
        None => None,
    }
}

fn str_at2_exec(doc: &Json, k1: &str, k2: &str) -> (r: Option<String>)
    ensures
        ov(r) == str_at2(*doc, k1@, k2@),
{
    let null = Json::Null;
    let a = index(doc, k1, &null);
    let null2 = Json::Null;
    match index(a, k2, &null2).as_str() {
        Some(s) => Some(s.to_owned()),
        None => None,
    }
}

fn i64_at_exec(doc: &Json, k: &str) -> (r: Option<i64>)
    ensures
        r == i64_at(*doc, k@),
{
    let null = Json::Null;
    index(doc, k, &null).as_i64()
}

fn is_code(o: Option<i64>, v: i64) -> (r: bool)
    ensures
        r == (o == Some(v)),
{
    match o {
        Some(c) => c == v,
        None => false,
    }
}

fn code_text(c: Option<i64>) -> (r: Option<String>)
    ensures
        ov(r) == code_view(c),
{
    match c {
        Some(n) => {
            let mut out: Vec<char> = Vec::new();
            push_signed_decimal(&mut out, n);
            Some(string_of(&out))
        },
        None => None,
    }
}

fn or_default(o: Option<String>, d: &str) -> (r: String)
    ensures
        r@ == or_text(ov(o), d@),
{
    match o {
        Some(s) => s,
        None => d.to_owned(),
    }
}

fn concat(a: &str, b: &str) -> (r: String)
    ensures
        r@ == a@ + b@,
{
    let mut out: Vec<char> = Vec::new();
    push_str(&mut out, a);
    push_str(&mut out, b);
    string_of(&out)
}

fn take_chars(v: &[char], n: usize) -> (r: Vec<char>)
    ensures
        r@ == crate::text::take_at_most(v@, n as nat),
{
    if n <= v.len() {
        crate::pattern::slice_to(v, n)
    } else {
        let r = crate::pattern::slice_to(v, v.len());
        assert(v@.take(v.len() as int) =~= v@);
        r
    }
}

fn field(name: &str, v: Json) -> (r: (String, Json))
    ensures
        r.0@ == name@,
        r.1 == v,
{
    (name.to_owned(), v)
}

/// A successful result.
pub fn success_result(platform: Platform, post_id: Option<String>, post_url: Option<String>) -> (r: PublishResult)
    ensures
        result_is(r, platform, true, ov(post_id), ov(post_url), None, None),
{
    PublishResult { platform, success: true, post_id, post_url, error_code: None, error_message: None }
}

/// A failed result.
pub fn failure_result(platform: Platform, error_code: Option<String>, error_message: Option<String>) -> (r: PublishResult)
    ensures
        result_is(r, platform, false, None, None, ov(error_code), ov(error_message)),
{
    PublishResult { platform, success: false, post_id: None, post_url: None, error_code, error_message }
}

/// The refusal of a video over the platform's size limit, if it is over.
pub fn video_size_check(platform: Platform, size: usize) -> (r: Option<PublishResult>)
    ensures
        platform == Platform::Weibo && size > WEIBO_VIDEO_MAX ==> (r matches Some(res) && result_is(
            res,
            platform,
            false,
            None,
            None,
            Some("SIZE_EXCEED"@),
            Some("视频大小超过500MB限制"@),
        )),
        platform == Platform::Xiaohongshu && size > XIAOHONGSHU_VIDEO_MAX ==> (r matches Some(res)
            && result_is(
            res,
            platform,
            false,
            None,
            None,
            Some("SIZE_EXCEED"@),
            Some("视频大小超过1GB限制"@),
        )),
        !(platform == Platform::Weibo && size > WEIBO_VIDEO_MAX) && !(platform
            == Platform::Xiaohongshu && size > XIAOHONGSHU_VIDEO_MAX) ==> r.is_none(),
{
    if platform == Platform::Weibo && size > WEIBO_VIDEO_MAX {
        Some(failure_result(platform, Some("SIZE_EXCEED".to_owned()), Some("视频大小超过500MB限制".to_owned())))
    } else if platform == Platform::Xiaohongshu && size > XIAOHONGSHU_VIDEO_MAX {
        Some(failure_result(platform, Some("SIZE_EXCEED".to_owned()), Some("视频大小超过1GB限制".to_owned())))
    } else {
        None
    }
}

/// Weibo's video size limit: 500 MiB.
pub const WEIBO_VIDEO_MAX: usize = 524288000;

/// Xiaohongshu's video size limit: 1 GiB.
pub const XIAOHONGSHU_VIDEO_MAX: usize = 1073741824;

/// The shortest spacing of two publications to a platform, in seconds.
pub open spec fn min_interval_secs(p: Platform) -> u64 {
    match p {
        Platform::Weibo => 60,
        Platform::Toutiao => 30,
        Platform::WeChatOfficial => 60,
        Platform::Bilibili => 30,
        Platform::Xiaohongshu => 60,
        Platform::Douyin => 60,
    }
}

/// The shortest spacing of two publications to a platform, in seconds.
pub fn rate_limit_seconds(p: Platform) -> (r: u64)
    ensures
        r == min_interval_secs(p),
{
    match p {
        Platform::Weibo => 60,
        Platform::Toutiao => 30,
        Platform::WeChatOfficial => 60,
        Platform::Bilibili => 30,
        Platform::Xiaohongshu => 60,
        Platform::Douyin => 60,
    }
}

/// Why a platform does not log in with a password.
pub open spec fn qr_only_text(p: Platform) -> Seq<char> {
    match p {
        Platform::Weibo => "微博仅支持扫码登录，请使用 QR 码登录流程"@,
        Platform::Bilibili => "B站仅支持扫码登录"@,
        Platform::Xiaohongshu => "小红书仅支持扫码登录"@,
        Platform::WeChatOfficial => "微信公众号仅支持扫码登录"@,
        Platform::Toutiao => "头条号仅支持扫码登录"@,
        Platform::Douyin => "抖音仅支持扫码登录"@,
    }
}

/// The refusal of a password login: every platform logs in by QR code.
pub fn password_login_refused(p: Platform) -> (r: PublishError)
    ensures
        r matches PublishError::PlatformError(m) && m@ == qr_only_text(p),
{
    match p {
        Platform::Weibo => PublishError::platform("微博仅支持扫码登录，请使用 QR 码登录流程"),
        Platform::Bilibili => PublishError::platform("B站仅支持扫码登录"),
        Platform::Xiaohongshu => PublishError::platform("小红书仅支持扫码登录"),
        Platform::WeChatOfficial => PublishError::platform("微信公众号仅支持扫码登录"),
        Platform::Toutiao => PublishError::platform("头条号仅支持扫码登录"),
        Platform::Douyin => PublishError::platform("抖音仅支持扫码登录"),
    }
}

/// A login check by the page a request ends on: logged in unless it was
/// sent to a page whose address holds `marker` (`login`, or `bizlogin`
/// for the WeChat official account).
pub fn login_page_check(final_url: &str, marker: &str) -> (r: bool)
    ensures
        r == !has_sub(final_url@, marker@),
{
    let u = chars_of(final_url);
    let m = chars_of(marker);
    !contains(&u, &m)
}

// ---------------------------------------------------------------------
// Weibo
// ---------------------------------------------------------------------

/// Logged in to Weibo: the profile reply has an object at `data.user`.
pub fn weibo_logged_in(doc: &Json) -> (r: bool)
    ensures
        r == (at2(*doc, "data"@, "user"@) is Object),
{
    let null = Json::Null;
    let d = index(doc, "data", &null);
    let null2 = Json::Null;
    match index(d, "user", &null2) {
        Json::Object(_) => true,
        _ => false,
    }
}

/// The body creating a Weibo article: its title and content.
pub fn weibo_article_body(content: &ArticleContent) -> (r: Json)
    ensures
        json_keys(r) == seq!["title"@, "content"@],
        member_str(r, "title"@) == Some(content.title@),
        member_str(r, "content"@) == Some(content.body@),
{
    let fields = vec![
        field("title", Json::string(content.title.as_str())),
        field("content", Json::string(content.body.as_str())),
    ];
    let r = Json::Object(fields);
    proof {
        reveal_strlit("title");
        reveal_strlit("content");
        assert("title"@.len() == 5 && "content"@.len() == 7);
        assert(json_keys(r) =~= seq!["title"@, "content"@]);
        lemma_field_at(fields@, 0, "title"@);
        lemma_field_at(fields@, 1, "content"@);
    }
    r
}

/// What creating a Weibo article ended in: published where the request
/// succeeded and `ok` is 1 (post `data.mid`), else failed with `errno`
/// and `message` (or a generic message).
pub fn weibo_article_result(request_ok: bool, doc: &Json) -> (r: PublishResult)
    ensures
        request_ok && i64_at(*doc, "ok"@) == Some(1i64) ==> ({
            let mid = or_text(str_at2(*doc, "data"@, "mid"@), ""@);
            result_is(r, Platform::Weibo, true, Some(mid), Some("https://weibo.com/detail/"@ + mid), None, None)
        }),
        !(request_ok && i64_at(*doc, "ok"@) == Some(1i64)) ==> result_is(
            r,
            Platform::Weibo,
            false,
            None,
            None,
            code_view(i64_at(*doc, "errno"@)),
            Some(or_text(str_at(*doc, "message"@), "发布失败"@)),
        ),
{
    if request_ok && is_code(i64_at_exec(doc, "ok"), 1) {
        let mid = or_default(str_at2_exec(doc, "data", "mid"), "");
        let url = concat("https://weibo.com/detail/", mid.as_str());
        success_result(Platform::Weibo, Some(mid), Some(url))
    } else {
        let code = code_text(i64_at_exec(doc, "errno"));
        let msg = or_default(str_at_exec(doc, "message"), "发布失败");
        failure_result(Platform::Weibo, code, Some(msg))
    }
}

/// The upload token of Weibo's token reply.
pub fn weibo_upload_token(doc: &Json) -> (r: Result<String, PublishError>)
    ensures
        match str_at(*doc, "upload_token"@) {
            Some(t) => r matches Ok(s) && s@ == t,
            None => r matches Err(PublishError::PlatformError(m)) && m@ == "无法获取上传令牌"@,
        },
{
    match str_at_exec(doc, "upload_token") {
        Some(t) => Ok(t),
        None => Err(PublishError::platform("无法获取上传令牌")),
    }
}

/// How a multi-step publication goes on after a reply.
#[derive(Debug)]
pub enum Step<T> {
    /// On, with what the reply gave.
    Next(T),
    /// Stop with this result.
    Stop(PublishResult),
}

/// The video id of Weibo's upload reply: a failed result where `code` is
/// not 0 (with the code and `msg`), an error where the id is missing.
pub fn weibo_video_id(doc: &Json) -> (r: Result<Step<String>, PublishError>)
    ensures
        i64_at(*doc, "code"@) != Some(0i64) ==> (r matches Ok(Step::Stop(res)) && result_is(
            res,
            Platform::Weibo,
            false,
            None,
            None,
            code_view(i64_at(*doc, "code"@)),
            Some(or_text(str_at(*doc, "msg"@), "视频上传失败"@)),
        )),
        i64_at(*doc, "code"@) == Some(0i64) ==> (match str_at2(*doc, "video"@, "video_id"@) {
            Some(v) => r matches Ok(Step::Next(s)) && s@ == v,
            None => r matches Err(PublishError::PlatformError(m)) && m@ == "未获取到视频ID"@,
        }),
{
    let code = i64_at_exec(doc, "code");
    if !is_code(code, 0) {
        let msg = or_default(str_at_exec(doc, "msg"), "视频上传失败");
        return Ok(Step::Stop(failure_result(Platform::Weibo, code_text(code), Some(msg))));
    }
    match str_at2_exec(doc, "video", "video_id") {
        Some(v) => Ok(Step::Next(v)),
        None => Err(PublishError::platform("未获取到视频ID")),
    }
}

/// `r` is the body publishing a Weibo video: its description as text, the
/// video id, and its first tag as topic (`null` where it has none).
pub open spec fn weibo_video_post(r: Json, content: VideoContent, video_id: Seq<char>) -> bool {
    &&& json_keys(r) == seq!["text"@, "video_id"@, "topic_id"@]
    &&& member_str(r, "text"@) == Some(content.description@)
    &&& member_str(r, "video_id"@) == Some(video_id)
    &&& content.tags@.len() > 0 ==> member_str(r, "topic_id"@) == Some(content.tags@[0]@)
    &&& content.tags@.len() == 0 ==> json_get(r, "topic_id"@) == Some(Json::Null)
}

/// The body publishing a Weibo video: its description as text, the video
/// id, and its first tag as topic (`null` where it has none).
pub fn weibo_video_body(content: &VideoContent, video_id: &str) -> (r: Json)
    ensures
        weibo_video_post(r, *content, video_id@),
{
    let topic = if content.tags.len() > 0 {
        Json::string(content.tags[0].as_str())
    } else {
        Json::Null
    };
    let fields = vec![
        field("text", Json::string(content.description.as_str())),
        field("video_id", Json::string(video_id)),
        field("topic_id", topic),
    ];
    let r = Json::Object(fields);
    proof {
        reveal_strlit("text");
        reveal_strlit("video_id");
        reveal_strlit("topic_id");
        assert("video_id"@[0] != "topic_id"@[0]);
        assert("text"@.len() == 4 && "video_id"@.len() == 8 && "topic_id"@.len() == 8);
        assert("video_id"@ != "topic_id"@);
        assert(json_keys(r) =~= seq!["text"@, "video_id"@, "topic_id"@]);
        lemma_field_at(fields@, 0, "text"@);
        lemma_field_at(fields@, 1, "video_id"@);
        lemma_field_at(fields@, 2, "topic_id"@);
    }
    r
}

/// `r` is what publishing a Weibo video ended in, by the reply `doc`:
/// published where `ok` is 1 (post `mid`), else failed with `errno` and
/// `msg`.
pub open spec fn weibo_video_outcome(r: PublishResult, doc: Json) -> bool {
    &&& i64_at(doc, "ok"@) == Some(1i64) ==> ({
        let mid = or_text(str_at(doc, "mid"@), ""@);
        result_is(r, Platform::Weibo, true, Some(mid), Some("https://weibo.com/detail/"@ + mid), None, None)
    })
    &&& i64_at(doc, "ok"@) != Some(1i64) ==> result_is(
        r,
        Platform::Weibo,
        false,
        None,
        None,
        code_view(i64_at(doc, "errno"@)),
        str_at(doc, "msg"@),
    )
}

/// What publishing a Weibo video ended in: published where `ok` is 1
/// (post `mid`), else failed with `errno` and `msg`.
pub fn weibo_video_result(doc: &Json) -> (r: PublishResult)
    ensures
        weibo_video_outcome(r, *doc),
{
    if is_code(i64_at_exec(doc, "ok"), 1) {
        let mid = or_default(str_at_exec(doc, "mid"), "");
        let url = concat("https://weibo.com/detail/", mid.as_str());
        success_result(Platform::Weibo, Some(mid), Some(url))
    } else {
        failure_result(Platform::Weibo, code_text(i64_at_exec(doc, "errno")), str_at_exec(doc, "msg"))
    }
}

/// The picture id of Weibo's image upload reply.
pub fn weibo_image_pid(doc: &Json) -> (r: Result<String, PublishError>)
    ensures
        match str_at2(*doc, "data"@, "pic_pid"@) {
            Some(t) => r matches Ok(s) && s@ == t,
            None => r matches Err(PublishError::UploadFailed(m)) && m@ == "图片上传失败：未返回 pid"@,
        },
{
    match str_at2_exec(doc, "data", "pic_pid") {
        Some(t) => Ok(t),
        None => Err(PublishError::UploadFailed("图片上传失败：未返回 pid".to_owned())),
    }
}

// ---------------------------------------------------------------------
// Toutiao
// ---------------------------------------------------------------------

/// The body creating a Toutiao article: title, content, and `save` 0 for
/// publishing at once.
pub fn toutiao_article_body(content: &ArticleContent) -> (r: Json)
    ensures
        json_keys(r) == seq!["title"@, "content"@, "save"@],
        member_str(r, "title"@) == Some(content.title@),
        member_str(r, "content"@) == Some(content.body@),
        json_get(r, "save"@) == Some(Json::Number(JsonNumber::PosInt(0))),
{
    let fields = vec![
        field("title", Json::string(content.title.as_str())),
        field("content", Json::string(content.body.as_str())),
        field("save", Json::Number(JsonNumber::PosInt(0))),
    ];
    let r = Json::Object(fields);
    proof {
        reveal_strlit("title");
        reveal_strlit("content");
        reveal_strlit("save");
        assert("title"@.len() == 5 && "content"@.len() == 7 && "save"@.len() == 4);
        assert(json_keys(r) =~= seq!["title"@, "content"@, "save"@]);
        lemma_field_at(fields@, 0, "title"@);
        lemma_field_at(fields@, 1, "content"@);
        lemma_field_at(fields@, 2, "save"@);
    }
    r
}

/// What creating a Toutiao article ended in: published where the request
/// succeeded (post `data.article_id`, if given), else failed with `code`
/// and `message`.
pub fn toutiao_article_result(request_ok: bool, doc: &Json) -> (r: PublishResult)
    ensures
        request_ok ==> result_is(
            r,
            Platform::Toutiao,
            true,
            str_at2(*doc, "data"@, "article_id"@),
            match str_at2(*doc, "data"@, "article_id"@) {
                Some(id) => Some("https://www.toutiao.com/article/"@ + id),
                None => None,
            },
            None,
            None,
        ),
        !request_ok ==> result_is(
            r,
            Platform::Toutiao,
            false,
            None,
            None,
            code_view(i64_at(*doc, "code"@)),
            Some(or_text(str_at(*doc, "message"@), "发布失败"@)),
        ),
{
    if request_ok {
        let id = str_at2_exec(doc, "data", "article_id");
        let url = match &id {
            Some(i) => Some(concat("https://www.toutiao.com/article/", i.as_str())),
            None => None,
        };
        success_result(Platform::Toutiao, id, url)
    } else {
        let msg = or_default(str_at_exec(doc, "message"), "发布失败");
        failure_result(Platform::Toutiao, code_text(i64_at_exec(doc, "code")), Some(msg))
    }
}

/// The address of an uploaded image at `data.url`, else an upload error
/// with the platform's message.
pub fn image_url_at_data(doc: &Json, missing: &str) -> (r: Result<String, PublishError>)
    ensures
        match str_at2(*doc, "data"@, "url"@) {
            Some(t) => r matches Ok(s) && s@ == t,
            None => r matches Err(PublishError::UploadFailed(m)) && m@ == missing@,
        },
{
    match str_at2_exec(doc, "data", "url") {
        Some(t) => Ok(t),
        None => Err(PublishError::UploadFailed(missing.to_owned())),
    }
}

/// Why a platform cannot publish a kind of content yet.
pub fn not_supported(message: &str) -> (r: PublishError)
    ensures
        r matches PublishError::PlatformError(m) && m@ == message@,
{
    PublishError::platform(message)
}

// ---------------------------------------------------------------------
// Douyin
// ---------------------------------------------------------------------

fn string_array(v: &Vec<String>) -> (r: Json)
    ensures
        json_items(r).len() == v@.len(),
        forall|i: int| 0 <= i < v@.len() ==> json_str(#[trigger] json_items(r)[i]) == Some(v@[i]@),
        r is Array,
{
    let mut items: Vec<Json> = Vec::new();
    let mut i: usize = 0;
    while i < v.len()
        invariant
            i <= v.len(),
            items@.len() == i,
            forall|k: int| 0 <= k < i ==> json_str(#[trigger] items@[k]) == Some(v@[k]@),
        decreases v.len() - i,
    {
        items.push(Json::string(v[i].as_str()));
        i = i + 1;
    }
    Json::Array(items)
}

/// The body creating a Douyin video: title, description and tags.
pub fn douyin_video_body(content: &VideoContent) -> (r: Json)
    ensures
        json_keys(r) == seq!["title"@, "desc"@, "tags"@],
        member_str(r, "title"@) == Some(content.title@),
        member_str(r, "desc"@) == Some(content.description@),
        json_get(r, "tags"@) matches Some(t) && t is Array && json_items(t).len() == content.tags@.len()
            && forall|i: int| 0 <= i < content.tags@.len() ==> json_str(#[trigger] json_items(t)[i])
            == Some(content.tags@[i]@),
{
    let tags = string_array(&content.tags);
    let fields = vec![
        field("title", Json::string(content.title.as_str())),
        field("desc", Json::string(content.description.as_str())),
        field("tags", tags),
    ];
    let r = Json::Object(fields);
    proof {
        reveal_strlit("title");
        reveal_strlit("desc");
        reveal_strlit("tags");
        assert("desc"@[0] != "tags"@[0]);
        assert("title"@.len() == 5 && "desc"@.len() == 4 && "tags"@.len() == 4);
        assert("desc"@ != "tags"@);
        assert(json_keys(r) =~= seq!["title"@, "desc"@, "tags"@]);
        lemma_field_at(fields@, 0, "title"@);
        lemma_field_at(fields@, 1, "desc"@);
        lemma_field_at(fields@, 2, "tags"@);
    }
    r
}

/// What creating a Douyin video ended in: published where `status_code`
/// is 0 (post `item_id`), else failed with the code and `status_msg`.
pub fn douyin_video_result(doc: &Json) -> (r: PublishResult)
    ensures
        i64_at(*doc, "status_code"@) == Some(0i64) ==> ({
            let id = or_text(str_at(*doc, "item_id"@), ""@);
            result_is(r, Platform::Douyin, true, Some(id), Some("https://www.douyin.com/video/"@ + id), None, None)
        }),
        i64_at(*doc, "status_code"@) != Some(0i64) ==> result_is(
            r,
            Platform::Douyin,
            false,
            None,
            None,
            code_view(i64_at(*doc, "status_code"@)),
            Some(or_text(str_at(*doc, "status_msg"@), "抖音发布失败"@)),
        ),
{
    let code = i64_at_exec(doc, "status_code");
    if is_code(code, 0) {
        let id = or_default(str_at_exec(doc, "item_id"), "");
        let url = concat("https://www.douyin.com/video/", id.as_str());
        success_result(Platform::Douyin, Some(id), Some(url))
    } else {
        let msg = or_default(str_at_exec(doc, "status_msg"), "抖音发布失败");
        failure_result(Platform::Douyin, code_text(code), Some(msg))
    }
}

// ---------------------------------------------------------------------
// Bilibili
// ---------------------------------------------------------------------

/// The flag at `doc[k1][k2]`.
pub open spec fn bool_at2(doc: Json, k1: Seq<char>, k2: Seq<char>) -> Option<bool> {
    match at2(doc, k1, k2) {
        Json::Bool(b) => Some(b),
        _ => None,
    }
}

/// Logged in to Bilibili: the navigation reply says `data.isLogin`.
pub fn bilibili_logged_in(doc: &Json) -> (r: bool)
    ensures
        r == (bool_at2(*doc, "data"@, "isLogin"@) == Some(true)),
{
    let null = Json::Null;
    let d = index(doc, "data", &null);
    let null2 = Json::Null;
    match index(d, "isLogin", &null2) {
        Json::Bool(b) => *b,
        _ => false,
    }
}

/// The CSRF token of a Bilibili login: its `bili_jct` cookie; an expired
/// cookie error where there is none.
pub fn bilibili_csrf(cookies: &str) -> (r: Result<String, PublishError>)
    ensures
        match crate::web::session::cookie_named(cookies@, "bili_jct="@) {
            Some(t) => r matches Ok(s) && s@ == t,
            None => r matches Err(PublishError::CookieExpired(m)) && m@ == "缺少 bili_jct (CSRF Token)"@,
        },
{
    match crate::web::session::cookie_named_exec(cookies, "bili_jct=") {
        Some(t) => Ok(t),
        None => Err(PublishError::CookieExpired("缺少 bili_jct (CSRF Token)".to_owned())),
    }
}

/// The body saving a Bilibili article: title, content, the CSRF token,
/// and the first image as banner where there is one.
pub fn bilibili_article_body(content: &ArticleContent, csrf: &str) -> (r: Json)
    ensures
        content.image_urls@.len() > 0 ==> json_keys(r) == seq!["title"@, "content"@, "csrf"@, "banner_url"@]
            && member_str(r, "banner_url"@) == Some(content.image_urls@[0]@),
        content.image_urls@.len() == 0 ==> json_keys(r) == seq!["title"@, "content"@, "csrf"@],
        member_str(r, "title"@) == Some(content.title@),
        member_str(r, "content"@) == Some(content.body@),
        member_str(r, "csrf"@) == Some(csrf@),
{
    let mut fields = vec![
        field("title", Json::string(content.title.as_str())),
        field("content", Json::string(content.body.as_str())),
        field("csrf", Json::string(csrf)),
    ];
    if content.image_urls.len() > 0 {
        fields.push(field("banner_url", Json::string(content.image_urls[0].as_str())));
    }
    let r = Json::Object(fields);
    proof {
        reveal_strlit("title");
        reveal_strlit("content");
        reveal_strlit("csrf");
        reveal_strlit("banner_url");
        assert("title"@.len() == 5 && "content"@.len() == 7 && "csrf"@.len() == 4 && "banner_url"@.len() == 10);
        if content.image_urls@.len() > 0 {
            assert(json_keys(r) =~= seq!["title"@, "content"@, "csrf"@, "banner_url"@]);
            lemma_field_at(fields@, 3, "banner_url"@);
        } else {
            assert(json_keys(r) =~= seq!["title"@, "content"@, "csrf"@]);
        }
        lemma_field_at(fields@, 0, "title"@);
        lemma_field_at(fields@, 1, "content"@);
        lemma_field_at(fields@, 2, "csrf"@);
    }
    r
}

/// What saving a Bilibili article ended in: published where `code` is 0
/// (post `data.aid`, if given), else failed with the code and `message`.
pub fn bilibili_article_result(doc: &Json) -> (r: PublishResult)
    ensures
        i64_at(*doc, "code"@) == Some(0i64) ==> ({
            let aid = code_view(json_i64(at2(*doc, "data"@, "aid"@)));
            result_is(
                r,
                Platform::Bilibili,
                true,
                aid,
                match aid {
                    Some(id) => Some("https://www.bilibili.com/read/cv"@ + id),
                    None => None,
                },
                None,
                None,
            )
        }),
        i64_at(*doc, "code"@) != Some(0i64) ==> result_is(
            r,
            Platform::Bilibili,
            false,
            None,
            None,
            code_view(i64_at(*doc, "code"@)),
            Some(or_text(str_at(*doc, "message"@), "B站发布失败"@)),
        ),
{
    let code = i64_at_exec(doc, "code");
    if is_code(code, 0) {
        let null = Json::Null;
        let d = index(doc, "data", &null);
        let null2 = Json::Null;
        let aid = code_text(index(d, "aid", &null2).as_i64());
        let url = match &aid {
            Some(id) => Some(concat("https://www.bilibili.com/read/cv", id.as_str())),
            None => None,
        };
        success_result(Platform::Bilibili, aid, url)
    } else {
        let msg = or_default(str_at_exec(doc, "message"), "B站发布失败");
        failure_result(Platform::Bilibili, code_text(code), Some(msg))
    }
}

/// The size of one uploaded piece of a Bilibili video: 4 MiB.
pub const BILIBILI_CHUNK: usize = 4194304;

/// How many pieces a Bilibili video of `len` bytes is uploaded in.
pub fn bilibili_chunk_count(len: usize) -> (r: usize)
    requires
        len + BILIBILI_CHUNK <= usize::MAX,
    ensures
        r == (len + BILIBILI_CHUNK - 1) / (BILIBILI_CHUNK as int),
{
    (len + BILIBILI_CHUNK - 1) / BILIBILI_CHUNK
}

/// One piece of a Bilibili video upload: the bytes `start..end` of the
/// video, the name its file part is sent under, and its form fields in
/// the order they are sent.
#[derive(Debug)]
pub struct ChunkRequest {
    pub start: usize,
    pub end: usize,
    pub file_name: String,
    pub fields: Vec<(String, String)>,
}

/// The text pairs of a list of form fields.
pub open spec fn pairs_view(v: Seq<(String, String)>) -> Seq<(Seq<char>, Seq<char>)> {
    Seq::new(v.len(), |i: int| (v[i].0@, v[i].1@))
}

/// The form fields of piece `i` of `chunks`, of a video of `filesize`
/// bytes under the upload id and CSRF token given.
pub open spec fn chunk_fields(i: nat, chunks: nat, filesize: nat, upload_id: Seq<char>, csrf: Seq<char>) -> Seq<(Seq<char>, Seq<char>)> {
    seq![
        ("chunk"@, crate::text::decimal(i)),
        ("chunks"@, crate::text::decimal(chunks)),
        ("filesize"@, crate::text::decimal(filesize)),
        ("upload_id"@, upload_id),
        ("csrf"@, csrf),
    ]
}

/// Piece `i` of a video of `len` bytes is the request `c`: the `i`-th
/// 4 MiB of the video (the last piece what is left), sent as
/// `video_part_i` with its fields.
pub open spec fn chunk_is(c: ChunkRequest, i: nat, chunks: nat, len: nat, upload_id: Seq<char>, csrf: Seq<char>) -> bool {
    &&& c.start == i * BILIBILI_CHUNK
    &&& c.end == if len < (i + 1) * BILIBILI_CHUNK { len as int } else { (i + 1) * BILIBILI_CHUNK }
    &&& c.file_name@ == "video_part_"@ + crate::text::decimal(i)
    &&& pairs_view(c.fields@) == chunk_fields(i, chunks, len, upload_id, csrf)
}

fn text_pair(k: &str, v: String) -> (r: (String, String))
    ensures
        r.0@ == k@,
        r.1@ == v@,
{
    (k.to_owned(), v)
}

fn decimal_string(n: usize) -> (r: String)
    ensures
        r@ == crate::text::decimal(n as nat),
{
    let mut out: Vec<char> = Vec::new();
    crate::text::push_decimal(&mut out, n as u64);
    string_of(&out)
}

/// Piece `i` of the `chunks` pieces of a Bilibili video of `len` bytes.
pub fn bilibili_chunk(i: usize, chunks: usize, len: usize, upload_id: &str, csrf: &str) -> (r: ChunkRequest)
    requires
        i * BILIBILI_CHUNK < len,
        len + BILIBILI_CHUNK <= usize::MAX,
    ensures
        chunk_is(r, i as nat, chunks as nat, len as nat, upload_id@, csrf@),
{
    let start = i * BILIBILI_CHUNK;
    let end = if len - start < BILIBILI_CHUNK {
        len
    } else {
        start + BILIBILI_CHUNK
    };
    let mut name: Vec<char> = Vec::new();
    push_str(&mut name, "video_part_");
    crate::text::push_decimal(&mut name, i as u64);
    let fields = vec![
        text_pair("chunk", decimal_string(i)),
        text_pair("chunks", decimal_string(chunks)),
        text_pair("filesize", decimal_string(len)),
        text_pair("upload_id", upload_id.to_owned()),
        text_pair("csrf", csrf.to_owned()),
    ];
    let c = ChunkRequest { start, end, file_name: string_of(&name), fields };
    assert(pairs_view(c.fields@) =~= chunk_fields(i as nat, chunks as nat, len as nat, upload_id@, csrf@));
    c
}

/// The requests uploading a Bilibili video of `len` bytes in 4 MiB pieces,
/// in order: piece `i` carries bytes `i * 4 MiB` up to the next piece or
/// the end, with its index, the number of pieces, the size, the shared
/// upload id and the CSRF token.
pub fn bilibili_chunk_plan(len: usize, upload_id: &str, csrf: &str) -> (r: Vec<ChunkRequest>)
    requires
        len + BILIBILI_CHUNK <= usize::MAX,
    ensures
        r.len() == (len + BILIBILI_CHUNK - 1) / (BILIBILI_CHUNK as int),
        forall|i: int|
            0 <= i < r.len() ==> chunk_is(
                #[trigger] r[i],
                i as nat,
                r.len() as nat,
                len as nat,
                upload_id@,
                csrf@,
            ),
{
    let chunks = bilibili_chunk_count(len);
    let mut plan: Vec<ChunkRequest> = Vec::new();
    let mut i: usize = 0;
    let mut start: usize = 0;
    while start < len
        invariant
            chunks == (len + BILIBILI_CHUNK - 1) / (BILIBILI_CHUNK as int),
            len + BILIBILI_CHUNK <= usize::MAX,
            start <= len,
            start < len ==> start == i * BILIBILI_CHUNK,
            start == len ==> i * BILIBILI_CHUNK >= len,
            start < len ==> i < chunks,
            start >= len ==> i == chunks,
            plan.len() == i,
            forall|k: int|
                0 <= k < i ==> chunk_is(
                    #[trigger] plan[k],
                    k as nat,
                    chunks as nat,
                    len as nat,
                    upload_id@,
                    csrf@,
                ),
        decreases len - start,
    {
        let c = bilibili_chunk(i, chunks, len, upload_id, csrf);
        let end = c.end;
        plan.push(c);
        proof {
            assert((i + 1) * BILIBILI_CHUNK == i * BILIBILI_CHUNK + BILIBILI_CHUNK);
        }
        i = i + 1;
        start = end;
    }
    plan
}

/// A fresh upload id: a random UUID without its hyphens.
pub fn bilibili_upload_id() -> (r: String)
    ensures
        exists|u: Seq<char>| u.len() == 36 && r@ == crate::text::remove_all(u, seq!['-']),
{
    let u = crate::publish::qr_platforms::random_state();
    let uv = chars_of(u.as_str());
    let dash = vec!['-'];
    assert(dash@ =~= seq!['-']);
    let r = crate::text::remove_all_exec(&uv, &dash);
    string_of(&r)
}

/// What uploading a Bilibili video ends in: marked successful with the
/// upload id, but flagged as still to be submitted.
pub fn bilibili_video_result(upload_id: &str, chunks: usize, title: &str) -> (r: PublishResult)
    ensures
        result_is(
            r,
            Platform::Bilibili,
            true,
            Some("upload_"@ + upload_id@),
            None,
            Some("NEED_SUBMIT"@),
            Some("视频上传成功("@ + crate::text::decimal(chunks as nat) + "个分片)，标题: "@ + title@
                + "，但发布提交需进一步完善API"@),
        ),
{
    let mut m: Vec<char> = Vec::new();
    push_str(&mut m, "视频上传成功(");
    crate::text::push_decimal(&mut m, chunks as u64);
    push_str(&mut m, "个分片)，标题: ");
    push_str(&mut m, title);
    push_str(&mut m, "，但发布提交需进一步完善API");
    PublishResult {
        platform: Platform::Bilibili,
        success: true,
        post_id: Some(concat("upload_", upload_id)),
        post_url: None,
        error_code: Some("NEED_SUBMIT".to_owned()),
        error_message: Some(string_of(&m)),
    }
}

// ---------------------------------------------------------------------
// WeChat official account
// ---------------------------------------------------------------------

/// The body adding a WeChat draft: one article with title, content, cover
/// material (empty where there is none), no author, and the first 64
/// characters of the content as digest.
pub fn wechat_article_body(content: &ArticleContent, thumb_media_id: Option<String>) -> (r: Json)
    ensures
        json_keys(r) == seq!["articles"@],
        json_get(r, "articles"@) matches Some(a) && json_items(a).len() == 1 && ({
            let art = json_items(a)[0];
            &&& json_keys(art) == seq!["title"@, "content"@, "thumb_media_id"@, "author"@, "digest"@]
            &&& member_str(art, "title"@) == Some(content.title@)
            &&& member_str(art, "content"@) == Some(content.body@)
            &&& member_str(art, "thumb_media_id"@) == Some(or_text(ov(thumb_media_id), ""@))
            &&& member_str(art, "author"@) == Some(""@)
            &&& member_str(art, "digest"@) == Some(crate::text::take_at_most(content.body@, 64))
        }),
{
    let body_chars = chars_of(content.body.as_str());
    let digest_chars = take_chars(&body_chars, 64);
    let thumb = or_default(thumb_media_id, "");
    let fields = vec![
        field("title", Json::string(content.title.as_str())),
        field("content", Json::string(content.body.as_str())),
        field("thumb_media_id", Json::Str(thumb)),
        field("author", Json::string("")),
        field("digest", Json::Str(string_of(&digest_chars))),
    ];
    let art = Json::Object(fields);
    proof {
        reveal_strlit("title");
        reveal_strlit("content");
        reveal_strlit("thumb_media_id");
        reveal_strlit("author");
        reveal_strlit("digest");
        assert("title"@.len() == 5 && "content"@.len() == 7 && "thumb_media_id"@.len() == 14
            && "author"@.len() == 6 && "digest"@.len() == 6);
        assert("author"@[0] != "digest"@[0]);
        assert(json_keys(art) =~= seq!["title"@, "content"@, "thumb_media_id"@, "author"@, "digest"@]);
        lemma_field_at(fields@, 0, "title"@);
        lemma_field_at(fields@, 1, "content"@);
        lemma_field_at(fields@, 2, "thumb_media_id"@);
        lemma_field_at(fields@, 3, "author"@);
        lemma_field_at(fields@, 4, "digest"@);
    }
    let arts = Json::Array(vec![art]);
    let outer = vec![field("articles", arts)];
    let r = Json::Object(outer);
    proof {
        assert(json_keys(r) =~= seq!["articles"@]);
        lemma_field_at(outer@, 0, "articles"@);
    }
    r
}

/// The failure a WeChat step ends in: its `errcode` and `errmsg`, or a
/// generic message where there is none.
pub open spec fn wechat_failure(r: PublishResult, doc: Json) -> bool {
    result_is(
        r,
        Platform::WeChatOfficial,
        false,
        None,
        None,
        code_view(i64_at(doc, "errcode"@)),
        Some(or_text(str_at(doc, "errmsg"@), "微信公众号发布失败"@)),
    )
}

fn wechat_failure_result(doc: &Json) -> (r: PublishResult)
    ensures
        wechat_failure(r, *doc),
{
    let msg = or_default(str_at_exec(doc, "errmsg"), "微信公众号发布失败");
    failure_result(Platform::WeChatOfficial, code_text(i64_at_exec(doc, "errcode")), Some(msg))
}

/// The first of the two publishing steps, adding the draft: the draft's
/// `media_id` where the request succeeded and it is a string; else the
/// failed result, with `errcode` and `errmsg`.
pub fn wechat_draft_media(request_ok: bool, doc: &Json) -> (r: Result<String, PublishResult>)
    ensures
        request_ok && str_at(*doc, "media_id"@) is Some ==> (r matches Ok(m) && Some(m@) == str_at(
            *doc,
            "media_id"@,
        )),
        !(request_ok && str_at(*doc, "media_id"@) is Some) ==> (r matches Err(res) && wechat_failure(
            res,
            *doc,
        )),
{
    let media = str_at_exec(doc, "media_id");
    match media {
        Some(m) => {
            if request_ok {
                Ok(m)
            } else {
                Err(wechat_failure_result(doc))
            }
        },
        None => Err(wechat_failure_result(doc)),
    }
}

/// The body of the second step, submitting the draft `media_id` for
/// publication.
pub fn wechat_submit_body(media_id: &str) -> (r: Json)
    ensures
        json_keys(r) == seq!["media_id"@],
        member_str(r, "media_id"@) == Some(media_id@),
{
    let fields = vec![field("media_id", Json::string(media_id))];
    let r = Json::Object(fields);
    proof {
        assert(json_keys(r) =~= seq!["media_id"@]);
        lemma_field_at(fields@, 0, "media_id"@);
    }
    r
}

/// What submitting the draft ended in: published where the request
/// succeeded and `publish_id` is a string (the post); else failed with
/// `errcode` and `errmsg`. Only this second step publishes the article.
pub fn wechat_submit_result(request_ok: bool, doc: &Json) -> (r: PublishResult)
    ensures
        request_ok && str_at(*doc, "publish_id"@) is Some ==> result_is(
            r,
            Platform::WeChatOfficial,
            true,
            str_at(*doc, "publish_id"@),
            None,
            None,
            None,
        ),
        !(request_ok && str_at(*doc, "publish_id"@) is Some) ==> wechat_failure(r, *doc),
{
    let publish = str_at_exec(doc, "publish_id");
    if request_ok && publish.is_some() {
        success_result(Platform::WeChatOfficial, publish, None)
    } else {
        wechat_failure_result(doc)
    }
}

/// Uploading a cover as WeChat material is not implemented: it always
/// fails, so drafts go without cover.
pub fn wechat_thumb_media(image_url: &str) -> (r: Result<String, PublishError>)
    ensures
        r matches Err(PublishError::UploadFailed(m)) && m@ == "缩略图上传暂未实现"@,
{
    Err(PublishError::UploadFailed("缩略图上传暂未实现".to_owned()))
}

/// The address of an image uploaded to WeChat (`content`).
pub fn wechat_image_url(doc: &Json) -> (r: Result<String, PublishError>)
    ensures
        match str_at(*doc, "content"@) {
            Some(t) => r matches Ok(s) && s@ == t,
            None => r matches Err(PublishError::UploadFailed(m)) && m@ == "微信图片上传失败"@,
        },
{
    match str_at_exec(doc, "content") {
        Some(t) => Ok(t),
        None => Err(PublishError::UploadFailed("微信图片上传失败".to_owned())),
    }
}

// ---------------------------------------------------------------------
// Xiaohongshu
// ---------------------------------------------------------------------

/// Logged in to Xiaohongshu: the self-info reply has a string at
/// `data.user_id`.
pub fn xiaohongshu_logged_in(doc: &Json) -> (r: bool)
    ensures
        r == (str_at2(*doc, "data"@, "user_id"@) is Some),
{
    str_at2_exec(doc, "data", "user_id").is_some()
}

/// `e` is the image entry `{"url", "width", "height"}` for `url`.
pub open spec fn image_entry(e: Json, url: Seq<char>, width: u64, height: u64) -> bool {
    &&& json_keys(e) == seq!["url"@, "width"@, "height"@]
    &&& member_str(e, "url"@) == Some(url)
    &&& json_get(e, "width"@) == Some(Json::Number(JsonNumber::PosInt(width)))
    &&& json_get(e, "height"@) == Some(Json::Number(JsonNumber::PosInt(height)))
}

fn image_entry_exec(url: &str, width: u64, height: u64) -> (r: Json)
    ensures
        image_entry(r, url@, width, height),
{
    let fields = vec![
        field("url", Json::string(url)),
        field("width", Json::Number(JsonNumber::PosInt(width))),
        field("height", Json::Number(JsonNumber::PosInt(height))),
    ];
    let r = Json::Object(fields);
    proof {
        reveal_strlit("url");
        reveal_strlit("width");
        reveal_strlit("height");
        assert("url"@.len() == 3 && "width"@.len() == 5 && "height"@.len() == 6);
        assert(json_keys(r) =~= seq!["url"@, "width"@, "height"@]);
        lemma_field_at(fields@, 0, "url"@);
        lemma_field_at(fields@, 1, "width"@);
        lemma_field_at(fields@, 2, "height"@);
    }
    r
}

/// `e` is the entry `{key: text}`.
pub open spec fn named_entry(e: Json, key: Seq<char>, text: Seq<char>) -> bool {
    json_keys(e) == seq![key] && member_str(e, key) == Some(text)
}

fn named_entry_exec(key: &str, text: &str) -> (r: Json)
    ensures
        named_entry(r, key@, text@),
{
    let fields = vec![field(key, Json::string(text))];
    let r = Json::Object(fields);
    proof {
        assert(json_keys(r) =~= seq![key@]);
        lemma_field_at(fields@, 0, key@);
    }
    r
}

fn named_entries(texts: &Vec<String>, key: &str) -> (r: Json)
    ensures
        r is Array,
        json_items(r).len() == texts@.len(),
        forall|i: int| 0 <= i < texts@.len() ==> named_entry(#[trigger] json_items(r)[i], key@, texts@[i]@),
{
    let mut items: Vec<Json> = Vec::new();
    let mut i: usize = 0;
    while i < texts.len()
        invariant
            i <= texts.len(),
            items@.len() == i,
            forall|k: int| 0 <= k < i ==> named_entry(#[trigger] items@[k], key@, texts@[k]@),
        decreases texts.len() - i,
    {
        items.push(named_entry_exec(key, texts[i].as_str()));
        i = i + 1;
    }
    Json::Array(items)
}

/// The body creating a Xiaohongshu note: title, text, type `normal`, each
/// image at 1080 by 1080, and each tag by `name`; an error where there is
/// no image.
pub fn xiaohongshu_article_body(content: &ArticleContent) -> (r: Result<Json, PublishError>)
    ensures
        content.image_urls@.len() == 0 ==> (r matches Err(PublishError::PlatformError(m)) && m@
            == "小红书笔记至少需要一张图片"@),
        content.image_urls@.len() > 0 ==> (r matches Ok(j) && {
            &&& json_keys(j) == seq!["title"@, "desc"@, "type"@, "image_info"@, "tag_list"@]
            &&& member_str(j, "title"@) == Some(content.title@)
            &&& member_str(j, "desc"@) == Some(content.body@)
            &&& member_str(j, "type"@) == Some("normal"@)
            &&& json_get(j, "image_info"@) matches Some(a) && json_items(a).len() == content.image_urls@.len()
                && forall|i: int| 0 <= i < content.image_urls@.len() ==> image_entry(
                #[trigger] json_items(a)[i],
                content.image_urls@[i]@,
                1080,
                1080,
            )
            &&& json_get(j, "tag_list"@) matches Some(t) && json_items(t).len() == content.tags@.len()
                && forall|i: int| 0 <= i < content.tags@.len() ==> named_entry(
                #[trigger] json_items(t)[i],
                "name"@,
                content.tags@[i]@,
            )
        }),
{
    if content.image_urls.len() == 0 {
        return Err(PublishError::platform("小红书笔记至少需要一张图片"));
    }
    let mut images: Vec<Json> = Vec::new();
    let mut i: usize = 0;
    while i < content.image_urls.len()
        invariant
            i <= content.image_urls.len(),
            images@.len() == i,
            forall|k: int| 0 <= k < i ==> image_entry(#[trigger] images@[k], content.image_urls@[k]@, 1080, 1080),
        decreases content.image_urls.len() - i,
    {
        images.push(image_entry_exec(content.image_urls[i].as_str(), 1080, 1080));
        i = i + 1;
    }
    let tags = named_entries(&content.tags, "name");
    let fields = vec![
        field("title", Json::string(content.title.as_str())),
        field("desc", Json::string(content.body.as_str())),
        field("type", Json::string("normal")),
        field("image_info", Json::Array(images)),
        field("tag_list", tags),
    ];
    let r = Json::Object(fields);
    proof {
        reveal_strlit("title");
        reveal_strlit("desc");
        reveal_strlit("type");
        reveal_strlit("image_info");
        reveal_strlit("tag_list");
        assert("title"@.len() == 5 && "desc"@.len() == 4 && "type"@.len() == 4 && "image_info"@.len()
            == 10 && "tag_list"@.len() == 8);
        assert("desc"@[0] != "type"@[0]);
        assert(json_keys(r) =~= seq!["title"@, "desc"@, "type"@, "image_info"@, "tag_list"@]);
        lemma_field_at(fields@, 0, "title"@);
        lemma_field_at(fields@, 1, "desc"@);
        lemma_field_at(fields@, 2, "type"@);
        lemma_field_at(fields@, 3, "image_info"@);
        lemma_field_at(fields@, 4, "tag_list"@);
    }
    Ok(r)
}

/// The flag at `doc[k]`.
pub open spec fn bool_at(doc: Json, k: Seq<char>) -> Option<bool> {
    match json_index(doc, k) {
        Json::Bool(b) => Some(b),
        _ => None,
    }
}

fn flag_at(doc: &Json, k: &str) -> (r: bool)
    ensures
        r == (bool_at(*doc, k@) == Some(true)),
{
    let null = Json::Null;
    match index(doc, k, &null) {
        Json::Bool(b) => *b,
        _ => false,
    }
}

/// `r` is what creating a Xiaohongshu note ended in, by the reply `doc`:
/// published where `success` is true (post `data.note_id`), else failed
/// with `msg`, or with `fallback` where the reply has none.
pub open spec fn xiaohongshu_note_outcome(r: PublishResult, doc: Json, fallback: Option<Seq<char>>) -> bool {
    &&& bool_at(doc, "success"@) == Some(true) ==> ({
        let id = or_text(str_at2(doc, "data"@, "note_id"@), ""@);
        result_is(
            r,
            Platform::Xiaohongshu,
            true,
            Some(id),
            Some("https://www.xiaohongshu.com/explore/"@ + id),
            None,
            None,
        )
    })
    &&& bool_at(doc, "success"@) != Some(true) ==> result_is(
        r,
        Platform::Xiaohongshu,
        false,
        None,
        None,
        None,
        match (str_at(doc, "msg"@), fallback) {
            (Some(m), _) => Some(m),
            (None, Some(f)) => Some(f),
            (None, None) => None,
        },
    )
}

/// What creating a Xiaohongshu note ended in: published where `success`
/// is true (post `data.note_id`), else failed with `msg`, or with
/// `fallback` where the reply has none (no message at all where there is
/// no fallback).
pub fn xiaohongshu_note_result(doc: &Json, fallback: Option<&str>) -> (r: PublishResult)
    ensures
        xiaohongshu_note_outcome(r, *doc, match fallback {
            Some(f) => Some(f@),
            None => None,
        }),
{
    if flag_at(doc, "success") {
        let id = or_default(str_at2_exec(doc, "data", "note_id"), "");
        let url = concat("https://www.xiaohongshu.com/explore/", id.as_str());
        success_result(Platform::Xiaohongshu, Some(id), Some(url))
    } else {
        let msg = match str_at_exec(doc, "msg") {
            Some(m) => Some(m),
            None => match fallback {
                Some(f) => Some(f.to_owned()),
                None => None,
            },
        };
        failure_result(Platform::Xiaohongshu, None, msg)
    }
}

/// The address and id of an uploaded Xiaohongshu video: a failed result
/// where `success` is not true (with `msg`), an error where either is
/// missing.
pub fn xiaohongshu_uploaded_video(doc: &Json) -> (r: Result<Step<(String, String)>, PublishError>)
    ensures
        bool_at(*doc, "success"@) != Some(true) ==> (r matches Ok(Step::Stop(res)) && result_is(
            res,
            Platform::Xiaohongshu,
            false,
            None,
            None,
            None,
            Some(or_text(str_at(*doc, "msg"@), "视频上传失败"@)),
        )),
        bool_at(*doc, "success"@) == Some(true) ==> (match (str_at2(*doc, "data"@, "url"@), str_at2(*doc, "data"@, "video_id"@)) {
            (None, _) => r matches Err(PublishError::PlatformError(m)) && m@ == "未获取到视频URL"@,
            (Some(_), None) => r matches Err(PublishError::PlatformError(m)) && m@ == "未获取到视频ID"@,
            (Some(u), Some(v)) => r matches Ok(Step::Next((a, b))) && a@ == u && b@ == v,
        }),
{
    if !flag_at(doc, "success") {
        let msg = or_default(str_at_exec(doc, "msg"), "视频上传失败");
        return Ok(Step::Stop(failure_result(Platform::Xiaohongshu, None, Some(msg))));
    }
    let url = match str_at2_exec(doc, "data", "url") {
        Some(u) => u,
        None => {
            return Err(PublishError::platform("未获取到视频URL"));
        },
    };
    match str_at2_exec(doc, "data", "video_id") {
        Some(v) => Ok(Step::Next((url, v))),
        None => Err(PublishError::platform("未获取到视频ID")),
    }
}

/// The address of an uploaded cover (`data.url`), where the upload gave
/// one.
pub fn xiaohongshu_cover_url(doc: &Json) -> (r: Option<String>)
    ensures
        ov(r) == str_at2(*doc, "data"@, "url"@),
{
    str_at2_exec(doc, "data", "url")
}

/// `r` is the body creating a Xiaohongshu video note: type `video`,
/// title, text, the video's id and address, each tag by `Name`, and the
/// cover at 1080 by 1920 where there is one.
pub open spec fn xiaohongshu_video_note(
    r: Json,
    content: VideoContent,
    video_id: Seq<char>,
    video_url: Seq<char>,
    cover: Option<Seq<char>>,
) -> bool {
    &&& cover.is_none() ==> json_keys(r) == seq!["type"@, "title"@, "desc"@, "video_id"@, "video"@, "tag_list"@]
    &&& cover.is_some() ==> json_keys(r) == seq![
        "type"@,
        "title"@,
        "desc"@,
        "video_id"@,
        "video"@,
        "tag_list"@,
        "image_list"@,
    ]
    &&& member_str(r, "type"@) == Some("video"@)
    &&& member_str(r, "title"@) == Some(content.title@)
    &&& member_str(r, "desc"@) == Some(content.description@)
    &&& member_str(r, "video_id"@) == Some(video_id)
    &&& json_get(r, "video"@) matches Some(v) && named_entry(v, "url"@, video_url)
    &&& json_get(r, "tag_list"@) matches Some(t) && json_items(t).len() == content.tags@.len()
        && forall|i: int| 0 <= i < content.tags@.len() ==> named_entry(
        #[trigger] json_items(t)[i],
        "Name"@,
        content.tags@[i]@,
    )
    &&& cover matches Some(c) ==> (json_get(r, "image_list"@) matches Some(l) && json_items(l).len() == 1
        && image_entry(json_items(l)[0], c, 1080, 1920))
}

/// The body creating a Xiaohongshu video note: type `video`, title, text,
/// the video's id and address, each tag by `Name`, and the cover at 1080
/// by 1920 where there is one.
pub fn xiaohongshu_video_body(content: &VideoContent, video_id: &str, video_url: &str, cover: Option<String>) -> (r: Json)
    ensures
        xiaohongshu_video_note(r, *content, video_id@, video_url@, ov(cover)),
{
    let tags = named_entries(&content.tags, "Name");
    let mut fields = vec![
        field("type", Json::string("video")),
        field("title", Json::string(content.title.as_str())),
        field("desc", Json::string(content.description.as_str())),
        field("video_id", Json::string(video_id)),
        field("video", named_entry_exec("url", video_url)),
        field("tag_list", tags),
    ];
    match &cover {
        Some(c) => {
            let img = image_entry_exec(c.as_str(), 1080, 1920);
            fields.push(field("image_list", Json::Array(vec![img])));
        },
        None => {},
    }
    let r = Json::Object(fields);
    proof {
        reveal_strlit("type");
        reveal_strlit("title");
        reveal_strlit("desc");
        reveal_strlit("video_id");
        reveal_strlit("video");
        reveal_strlit("tag_list");
        reveal_strlit("image_list");
        assert("type"@.len() == 4 && "title"@.len() == 5 && "desc"@.len() == 4 && "video_id"@.len() == 8
            && "video"@.len() == 5 && "tag_list"@.len() == 8 && "image_list"@.len() == 10);
        assert("type"@[0] != "desc"@[0]);
        assert("title"@[0] != "video"@[0]);
        assert("video_id"@[0] != "tag_list"@[0]);
        if cover.is_some() {
            assert(json_keys(r) =~= seq!["type"@, "title"@, "desc"@, "video_id"@, "video"@, "tag_list"@, "image_list"@]);
            lemma_field_at(fields@, 6, "image_list"@);
        } else {
            assert(json_keys(r) =~= seq!["type"@, "title"@, "desc"@, "video_id"@, "video"@, "tag_list"@]);
        }
        lemma_field_at(fields@, 0, "type"@);
        lemma_field_at(fields@, 1, "title"@);
        lemma_field_at(fields@, 2, "desc"@);
        lemma_field_at(fields@, 3, "video_id"@);
        lemma_field_at(fields@, 4, "video"@);
        lemma_field_at(fields@, 5, "tag_list"@);
    }
    r
}

} // verus!
