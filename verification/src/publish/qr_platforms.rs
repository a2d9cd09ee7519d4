//! The QR-code login of each platform: what the platforms' replies mean,
//! and the credentials a confirmed login yields.
//!
//! Bilibili and Weibo are queried for a code's state; Toutiao, Douyin,
//! Xiaohongshu and the WeChat official account go through an OAuth page,
//! whose code stays pending here.
use crate::json::{json_get, json_i64, json_index, json_str, json_text, json_to_text, member_str, Json};
use crate::pattern::{split, split_exec};
use crate::publish::encoding::{cookie_value, extract_cookie_value, url_decoded, url_encoded, urlencoding_decode, urlencoding_encode};
use crate::publish::error::PublishError;
use crate::publish::qr_login::{qr_id, qr_image_url, QrCodeInfo, QrCodeStatus, QR_IMAGE_SERVICE};
use crate::text::{chars_eq, chars_of, push_all, push_signed_decimal, push_str, signed_decimal, str_eq, string_of};
use crate::types::{Platform, PlatformCredential};
use vstd::prelude::*;

verus! {

broadcast use vstd::string::group_string_axioms;

/// Prefix of Bilibili code ids.
pub const BILIBILI_PREFIX: &'static str = "bilibili_";

/// Prefix of Weibo code ids.
pub const WEIBO_PREFIX: &'static str = "weibo_";

/// Bilibili's status code of a code that waits to be scanned.
pub const BILIBILI_WAITING: i32 = 86101;

/// Bilibili's status code of a scanned code.
pub const BILIBILI_SCANNED: i32 = 86090;

/// Bilibili's status code of a confirmed login.
pub const BILIBILI_CONFIRMED: i32 = 86038;

/// Bilibili's status code of an expired code.
pub const BILIBILI_EXPIRED: i32 = -4;

fn text2(a: &str, b: &str) -> (r: String)
    ensures
        r@ == a@ + b@,
{
    let mut out: Vec<char> = Vec::new();
    push_str(&mut out, a);
    push_str(&mut out, b);
    string_of(&out)
}

fn text4(a: &str, b: &str, c: &str, d: &str) -> (r: String)
    ensures
        r@ == a@ + b@ + c@ + d@,
{
    let mut out: Vec<char> = Vec::new();
    push_str(&mut out, a);
    push_str(&mut out, b);
    push_str(&mut out, c);
    push_str(&mut out, d);
    string_of(&out)
}

/// A fresh code in the pending state.
pub open spec fn pending_code(info: QrCodeInfo, id: Seq<char>, image: Seq<char>, url: Seq<char>, now: i64) -> bool {
    &&& info.id@ == id
    &&& info.image@ == image
    &&& info.url@ == url
    &&& info.status == QrCodeStatus::Pending
    &&& info.created_at == now
}

// ---------------------------------------------------------------------
// Bilibili
// ---------------------------------------------------------------------

/// The error for a code-generation reply that is not the expected JSON.
pub fn bilibili_generate_error(err: &str, body: &str) -> (r: PublishError)
    ensures
        r matches PublishError::ParseError(m) && m@ == "B站二维码生成响应解析失败: "@ + err@ + " - "@
            + body@,
{
    PublishError::ParseError(text4("B站二维码生成响应解析失败: ", err, " - ", body))
}

/// The link and key of a generated Bilibili code: the key is `oauthKey`,
/// else `qrcode_key`; both key and link must be present.
pub fn bilibili_qr_keys(oauth_key: Option<String>, qrcode_key: Option<String>, url: Option<String>) -> (r: Result<(String, String), PublishError>)
    ensures
        (oauth_key.is_none() && qrcode_key.is_none()) ==> (r matches Err(PublishError::PlatformError(m))
            && m@ == "B站未返回 oauthKey"@),
        (oauth_key.is_some() || qrcode_key.is_some()) && url.is_none() ==> (r matches Err(
            PublishError::PlatformError(m),
        ) && m@ == "B站未返回二维码 URL"@),
        (oauth_key.is_some() || qrcode_key.is_some()) && url.is_some() ==> (r matches Ok((u, k))
            && u == url.unwrap() && k == (if oauth_key.is_some() {
            oauth_key.unwrap()
        } else {
            qrcode_key.unwrap()
        })),
{
    let key = match oauth_key {
        Some(k) => k,
        None => match qrcode_key {
            Some(k) => k,
            None => {
                return Err(PublishError::platform("B站未返回 oauthKey"));
            },
        },
    };
    match url {
        Some(u) => Ok((u, key)),
        None => Err(PublishError::platform("B站未返回二维码 URL")),
    }
}

/// The Bilibili code for the link `url` and key `oauth_key`, issued `now`.
pub fn bilibili_qr_info(url: String, oauth_key: &str, now: i64) -> (r: QrCodeInfo)
    ensures
        pending_code(r, BILIBILI_PREFIX@ + oauth_key@, QR_IMAGE_SERVICE@ + url_encoded(url@), url@, now),
{
    let image = qr_image_url(url.as_str());
    QrCodeInfo {
        id: qr_id(BILIBILI_PREFIX, oauth_key),
        image,
        url,
        status: QrCodeStatus::Pending,
        created_at: now,
    }
}

/// The error for a status reply that is not the expected JSON.
pub fn bilibili_query_error(err: &str, body: &str) -> (r: PublishError)
    ensures
        r matches PublishError::ParseError(m) && m@ == "B站状态查询响应解析失败: "@ + err@ + " - "@
            + body@,
{
    PublishError::ParseError(text4("B站状态查询响应解析失败: ", err, " - ", body))
}

/// The state Bilibili's status code stands for.
pub open spec fn bilibili_status(code: i32) -> QrCodeStatus {
    if code == 0 || code == BILIBILI_WAITING {
        QrCodeStatus::Pending
    } else if code == BILIBILI_SCANNED {
        QrCodeStatus::Scanned
    } else if code == BILIBILI_CONFIRMED {
        QrCodeStatus::Confirmed
    } else if code == BILIBILI_EXPIRED {
        QrCodeStatus::Expired
    } else {
        QrCodeStatus::Failed
    }
}

/// The state of a Bilibili code from its status code.
pub fn bilibili_qr_status(code: i32) -> (r: QrCodeStatus)
    ensures
        r == bilibili_status(code),
{
    if code == 0 || code == BILIBILI_WAITING {
        QrCodeStatus::Pending
    } else if code == BILIBILI_SCANNED {
        QrCodeStatus::Scanned
    } else if code == BILIBILI_CONFIRMED {
        QrCodeStatus::Confirmed
    } else if code == BILIBILI_EXPIRED {
        QrCodeStatus::Expired
    } else {
        QrCodeStatus::Failed
    }
}

/// Where a confirmed Bilibili login continues: `redirect_url`, else
/// `url`; an error where the login is not confirmed or no link came.
pub fn bilibili_confirm_url(code: i32, redirect_url: Option<String>, url: Option<String>) -> (r: Result<String, PublishError>)
    ensures
        code != BILIBILI_CONFIRMED ==> (r matches Err(PublishError::PlatformError(m)) && m@
            == "用户尚未确认登录"@),
        code == BILIBILI_CONFIRMED && redirect_url.is_some() ==> r == Ok::<String, PublishError>(redirect_url.unwrap()),
        code == BILIBILI_CONFIRMED && redirect_url.is_none() && url.is_some() ==> r == Ok::<String, PublishError>(url.unwrap()),
        code == BILIBILI_CONFIRMED && redirect_url.is_none() && url.is_none() ==> (r matches Err(
            PublishError::PlatformError(m),
        ) && m@ == "B站未返回跳转 URL"@),
{
    if code != BILIBILI_CONFIRMED {
        return Err(PublishError::platform("用户尚未确认登录"));
    }
    match redirect_url {
        Some(u) => Ok(u),
        None => match url {
            Some(u) => Ok(u),
            None => Err(PublishError::platform("B站未返回跳转 URL")),
        },
    }
}

/// The named values of a Bilibili login: `buvid3`, `SESSDATA` and
/// `bili_jct` where the cookies carry them, then the platform's name.
pub open spec fn bilibili_extra(cookies: Seq<char>) -> Seq<(Seq<char>, Seq<char>)> {
    let a = match cookie_value(cookies, "buvid3"@) {
        Some(v) => seq![("buvid3"@, v)],
        None => seq![],
    };
    let b = match cookie_value(cookies, "SESSDATA"@) {
        Some(v) => seq![("SESSDATA"@, v)],
        None => seq![],
    };
    let c = match cookie_value(cookies, "bili_jct"@) {
        Some(v) => seq![("bili_jct"@, v)],
        None => seq![],
    };
    a + b + c + seq![("platform"@, "bilibili"@)]
}

fn push_pair(extra: &mut Vec<(String, String)>, name: &str, value: String)
    ensures
        final(extra)@.len() == old(extra)@.len() + 1,
        forall|i: int| 0 <= i < old(extra)@.len() ==> final(extra)@[i] == old(extra)@[i],
        final(extra)@.last().0@ == name@,
        final(extra)@.last().1 == value,
{
    extra.push((name.to_owned(), value));
}

/// The credential of a Bilibili login with the cookie header `cookies`;
/// an error where the login set no cookie.
pub fn bilibili_credential(cookies: String) -> (r: Result<PlatformCredential, PublishError>)
    ensures
        cookies@.len() == 0 ==> (r matches Err(PublishError::PlatformError(m)) && m@
            == "B站登录后未返回 Cookie"@),
        cookies@.len() > 0 ==> (r matches Ok(c) && c.platform == Platform::Bilibili && c.cookies
            == cookies && c.extra_view() == bilibili_extra(cookies@)),
{
    if cookies.as_str().is_empty() {
        return Err(PublishError::platform("B站登录后未返回 Cookie"));
    }
    let mut extra: Vec<(String, String)> = Vec::new();
    let ghost e0 = Seq::<(Seq<char>, Seq<char>)>::empty();
    match extract_cookie_value(cookies.as_str(), "buvid3") {
        Some(v) => push_pair(&mut extra, "buvid3", v),
        None => {},
    }
    let ghost l1 = extra@.len();
    match extract_cookie_value(cookies.as_str(), "SESSDATA") {
        Some(v) => push_pair(&mut extra, "SESSDATA", v),
        None => {},
    }
    let ghost l2 = extra@.len();
    match extract_cookie_value(cookies.as_str(), "bili_jct") {
        Some(v) => push_pair(&mut extra, "bili_jct", v),
        None => {},
    }
    let ghost l3 = extra@.len();
    push_pair(&mut extra, "platform", "bilibili".to_owned());
    let c = PlatformCredential { platform: Platform::Bilibili, cookies, extra };
    assert(c.extra_view() =~= bilibili_extra(c.cookies@));
    Ok(c)
}

// ---------------------------------------------------------------------
// Weibo
// ---------------------------------------------------------------------

/// The link and key a Weibo reply `qr_url=...&oauthKey=...` carries: each
/// `&`-separated piece that is one `name=value` pair is read; `qr_url` is
/// percent-decoded; a later pair of a name wins.
pub open spec fn weibo_fields(pairs: Seq<Seq<char>>) -> (Seq<char>, Seq<char>)
    decreases pairs.len(),
{
    if pairs.len() == 0 {
        (seq![], seq![])
    } else {
        let prev = weibo_fields(pairs.drop_last());
        let parts = split(pairs.last(), seq!['=']);
        if parts.len() == 2 {
            if parts[0] == "qr_url"@ {
                (url_decoded(parts[1]), prev.1)
            } else if parts[0] == "oauthKey"@ || parts[0] == "oauth_key"@ {
                (prev.0, parts[1])
            } else {
                prev
            }
        } else {
            prev
        }
    }
}

/// The link and key of a Weibo code-generation reply: an error where the
/// request failed (with its status) or the reply carries no key.
pub fn weibo_qrcode_reply(success: bool, status_text: &str, body: &str) -> (r: Result<(String, String), PublishError>)
    ensures
        !success ==> (r matches Err(PublishError::PlatformError(m)) && m@ == "微博二维码获取失败: "@
            + status_text@),
        success ==> ({
            let f = weibo_fields(split(body@, seq!['&']));
            &&& f.1.len() == 0 ==> (r matches Err(PublishError::PlatformError(m)) && m@
                == "微博未返回 oauthKey"@)
            &&& f.1.len() > 0 ==> (r matches Ok((u, k)) && u@ == f.0 && k@ == f.1)
        }),
{
    if !success {
        return Err(PublishError::PlatformError(text2("微博二维码获取失败: ", status_text)));
    }
    let b = chars_of(body);
    let amp = vec!['&'];
    let eq = vec!['='];
    assert(amp@ =~= seq!['&']);
    assert(eq@ =~= seq!['=']);
    let pairs = split_exec(&b, &amp);
    let mut qr_url: Vec<char> = Vec::new();
    let mut oauth_key: Vec<char> = Vec::new();
    let qr_name = chars_of("qr_url");
    let key_a = chars_of("oauthKey");
    let key_b = chars_of("oauth_key");
    let mut i: usize = 0;
    while i < pairs.len()
        invariant
            i <= pairs.len(),
            pairs.deep_view() == split(body@, seq!['&']),
            eq@ == seq!['='],
            qr_name@ == "qr_url"@,
            key_a@ == "oauthKey"@,
            key_b@ == "oauth_key"@,
            (qr_url@, oauth_key@) == weibo_fields(pairs.deep_view().take(i as int)),
        decreases pairs.len() - i,
    {
        assert(pairs.deep_view().take(i + 1).drop_last() =~= pairs.deep_view().take(i as int));
        assert(pairs.deep_view()[i as int] == pairs[i as int]@);
        let parts = split_exec(&pairs[i], &eq);
        if parts.len() == 2 {
            assert(parts.deep_view()[0] == parts[0]@);
            assert(parts.deep_view()[1] == parts[1]@);
            if chars_eq(&parts[0], &qr_name) {
                let decoded = urlencoding_decode(string_of(&parts[1]).as_str());
                qr_url = chars_of(decoded.as_str());
            } else if chars_eq(&parts[0], &key_a) || chars_eq(&parts[0], &key_b) {
                oauth_key = crate::pattern::slice_from(&parts[1], 0);
                assert(parts[1]@.skip(0) =~= parts[1]@);
            }
        }
        i = i + 1;
    }
    assert(pairs.deep_view().take(pairs.len() as int) =~= pairs.deep_view());
    if oauth_key.len() == 0 {
        return Err(PublishError::platform("微博未返回 oauthKey"));
    }
    Ok((string_of(&qr_url), string_of(&oauth_key)))
}

/// The Weibo code for the link `qr_url` and key `oauth_key`, issued `now`;
/// the link doubles as the image.
pub fn weibo_qr_info(qr_url: String, oauth_key: &str, now: i64) -> (r: QrCodeInfo)
    ensures
        pending_code(r, WEIBO_PREFIX@ + oauth_key@, qr_url@, qr_url@, now),
{
    QrCodeInfo {
        id: qr_id(WEIBO_PREFIX, oauth_key),
        image: qr_url.clone(),
        url: qr_url,
        status: QrCodeStatus::Pending,
        created_at: now,
    }
}

/// The state of a Weibo code: an error where the reply carries one, else
/// 1 pending, 2 scanned, 3 confirmed, and pending for anything else.
pub fn weibo_qr_status(status: i32, error: Option<String>) -> (r: Result<QrCodeStatus, PublishError>)
    ensures
        error.is_some() ==> (r matches Err(PublishError::PlatformError(m)) && m@ == "微博扫码错误: "@
            + error.unwrap()@),
        error.is_none() ==> r == Ok::<QrCodeStatus, PublishError>(
            if status == 2 {
                QrCodeStatus::Scanned
            } else if status == 3 {
                QrCodeStatus::Confirmed
            } else {
                QrCodeStatus::Pending
            },
        ),
{
    if let Some(e) = error {
        return Err(PublishError::PlatformError(text2("微博扫码错误: ", e.as_str())));
    }
    if status == 1 {
        Ok(QrCodeStatus::Pending)
    } else if status == 2 {
        Ok(QrCodeStatus::Scanned)
    } else if status == 3 {
        Ok(QrCodeStatus::Confirmed)
    } else {
        Ok(QrCodeStatus::Pending)
    }
}

/// The authorization code of a Weibo login: only once authorized (state
/// 3), and only where the reply carries one.
pub fn weibo_auth_code(status: i32, code: Option<String>) -> (r: Result<String, PublishError>)
    ensures
        status != 3 ==> (r matches Err(PublishError::PlatformError(m)) && m@ == "用户尚未授权登录"@),
        status == 3 && code.is_none() ==> (r matches Err(PublishError::PlatformError(m)) && m@
            == "微博未返回授权码"@),
        status == 3 && code.is_some() ==> r == Ok::<String, PublishError>(code.unwrap()),
{
    if status != 3 {
        return Err(PublishError::platform("用户尚未授权登录"));
    }
    match code {
        Some(c) => Ok(c),
        None => Err(PublishError::platform("微博未返回授权码")),
    }
}

/// The credential of a Weibo login from its token reply: an error where
/// the reply carries one or lacks the token or the user id.
pub fn weibo_credential(
    error: Option<String>,
    access_token: Option<String>,
    uid: Option<String>,
    expires_in: Option<i64>,
) -> (r: Result<PlatformCredential, PublishError>)
    ensures
        error.is_some() ==> (r matches Err(PublishError::PlatformError(m)) && m@ == "微博令牌获取失败: "@
            + error.unwrap()@),
        error.is_none() && access_token.is_none() ==> (r matches Err(PublishError::PlatformError(m))
            && m@ == "微博未返回 access_token"@),
        error.is_none() && access_token.is_some() && uid.is_none() ==> (r matches Err(
            PublishError::PlatformError(m),
        ) && m@ == "微博未返回 uid"@),
        error.is_none() && access_token.is_some() && uid.is_some() ==> (r matches Ok(c) && c.platform
            == Platform::Weibo && c.cookies@ == "access_token="@ + access_token.unwrap()@
            && c.extra_view() == seq![
            ("uid"@, uid.unwrap()@),
            ("access_token"@, access_token.unwrap()@),
            (
                "expires_in"@,
                signed_decimal(
                    (match expires_in {
                        Some(n) => n,
                        None => 0,
                    }) as int,
                ),
            ),
        ]),
{
    if let Some(e) = error {
        return Err(PublishError::PlatformError(text2("微博令牌获取失败: ", e.as_str())));
    }
    let token = match access_token {
        Some(t) => t,
        None => {
            return Err(PublishError::platform("微博未返回 access_token"));
        },
    };
    let uid = match uid {
        Some(u) => u,
        None => {
            return Err(PublishError::platform("微博未返回 uid"));
        },
    };
    let secs: i64 = match expires_in {
        Some(n) => n,
        None => 0,
    };
    let mut digits: Vec<char> = Vec::new();
    push_signed_decimal(&mut digits, secs);
    let cookies = text2("access_token=", token.as_str());
    let mut extra: Vec<(String, String)> = Vec::new();
    push_pair(&mut extra, "uid", uid);
    push_pair(&mut extra, "access_token", token);
    push_pair(&mut extra, "expires_in", string_of(&digits));
    let c = PlatformCredential { platform: Platform::Weibo, cookies, extra };
    assert(c.extra_view() =~= seq![
        ("uid"@, c.extra@[0].1@),
        ("access_token"@, c.extra@[1].1@),
        ("expires_in"@, signed_decimal(secs as int)),
    ]);
    Ok(c)
}

// ---------------------------------------------------------------------
// OAuth platforms: Toutiao, Douyin, Xiaohongshu, WeChat official account
// ---------------------------------------------------------------------

/// The platforms whose login goes through an OAuth page.
pub open spec fn is_oauth(p: Platform) -> bool {
    p == Platform::Toutiao || p == Platform::Douyin || p == Platform::Xiaohongshu || p
        == Platform::WeChatOfficial
}

/// The prefix of an OAuth platform's code ids.
pub open spec fn oauth_prefix(p: Platform) -> Seq<char> {
    match p {
        Platform::Toutiao => "toutiao_"@,
        Platform::Douyin => "douyin_"@,
        Platform::Xiaohongshu => "xiaohongshu_"@,
        _ => "wechat_"@,
    }
}

/// The authorization page of an OAuth platform for the client `client`,
/// the callback `redirect` (percent-encoded) and the state `state`.
pub open spec fn oauth_url(p: Platform, client: Seq<char>, redirect: Seq<char>, state: Seq<char>) -> Seq<char> {
    match p {
        Platform::Toutiao => "https://open.toutiao.com/oauth/authorize?client_key="@ + client
            + "&response_type=code&redirect_uri="@ + url_encoded(redirect) + "&state="@ + state,
        Platform::Douyin => "https://open.douyin.com/connect/qrcode/auth?client_key="@ + client
            + "&response_type=code&redirect_uri="@ + url_encoded(redirect)
            + "&scope=user_info&state="@ + state,
        Platform::Xiaohongshu => "https://www.xiaohongshu.com/oauth2/login?client_id="@ + client
            + "&redirect_uri="@ + url_encoded(redirect) + "&response_type=code&state="@ + state
            + "&scope=login"@,
        _ => "https://open.weixin.qq.com/connect/qrconnect?appid="@ + client + "&redirect_uri="@
            + url_encoded(redirect) + "&response_type=code&scope=snsapi_login&state="@ + state
            + "#wechat_redirect"@,
    }
}

/// The authorization page of an OAuth platform.
pub fn oauth_auth_url(p: Platform, client: &str, redirect: &str, state: &str) -> (r: String)
    requires
        is_oauth(p),
    ensures
        r@ == oauth_url(p, client@, redirect@, state@),
{
    let enc = urlencoding_encode(redirect);
    let mut out: Vec<char> = Vec::new();
    match p {
        Platform::Toutiao => {
            push_str(&mut out, "https://open.toutiao.com/oauth/authorize?client_key=");
            push_str(&mut out, client);
            push_str(&mut out, "&response_type=code&redirect_uri=");
            push_str(&mut out, enc.as_str());
            push_str(&mut out, "&state=");
            push_str(&mut out, state);
        },
        Platform::Douyin => {
            push_str(&mut out, "https://open.douyin.com/connect/qrcode/auth?client_key=");
            push_str(&mut out, client);
            push_str(&mut out, "&response_type=code&redirect_uri=");
            push_str(&mut out, enc.as_str());
            push_str(&mut out, "&scope=user_info&state=");
            push_str(&mut out, state);
        },
        Platform::Xiaohongshu => {
            push_str(&mut out, "https://www.xiaohongshu.com/oauth2/login?client_id=");
            push_str(&mut out, client);
            push_str(&mut out, "&redirect_uri=");
            push_str(&mut out, enc.as_str());
            push_str(&mut out, "&response_type=code&state=");
            push_str(&mut out, state);
            push_str(&mut out, "&scope=login");
        },
        _ => {
            push_str(&mut out, "https://open.weixin.qq.com/connect/qrconnect?appid=");
            push_str(&mut out, client);
            push_str(&mut out, "&redirect_uri=");
            push_str(&mut out, enc.as_str());
            push_str(&mut out, "&response_type=code&scope=snsapi_login&state=");
            push_str(&mut out, state);
            push_str(&mut out, "#wechat_redirect");
        },
    }
    string_of(&out)
}

/// `uuid::Uuid::new_v4().to_string()`: a random version-4 UUID in its
/// hyphenated form, 36 characters long.
#[verifier::external_body]
pub(crate) fn random_state() -> (r: String)
    ensures
        r@.len() == 36,
{
    uuid::Uuid::new_v4().to_string()
}

/// The prefix of an OAuth platform's code ids.
pub fn oauth_id_prefix(p: Platform) -> (r: &'static str)
    requires
        is_oauth(p),
    ensures
        r@ == oauth_prefix(p),
{
    match p {
        Platform::Toutiao => "toutiao_",
        Platform::Douyin => "douyin_",
        Platform::Xiaohongshu => "xiaohongshu_",
        _ => "wechat_",
    }
}

/// A code for an OAuth platform: its link is the authorization page with
/// a fresh random state, its id the platform's prefix and that state.
pub fn oauth_qr_info(p: Platform, client: &str, redirect: &str, now: i64) -> (r: QrCodeInfo)
    requires
        is_oauth(p),
    ensures
        exists|state: Seq<char>|
            state.len() == 36 && pending_code(
                r,
                oauth_prefix(p) + state,
                QR_IMAGE_SERVICE@ + url_encoded(oauth_url(p, client@, redirect@, state)),
                oauth_url(p, client@, redirect@, state),
                now,
            ),
{
    let state = random_state();
    let url = oauth_auth_url(p, client, redirect, state.as_str());
    let image = qr_image_url(url.as_str());
    let r = QrCodeInfo {
        id: qr_id(oauth_id_prefix(p), state.as_str()),
        image,
        url,
        status: QrCodeStatus::Pending,
        created_at: now,
    };
    assert(pending_code(
        r,
        oauth_prefix(p) + state@,
        QR_IMAGE_SERVICE@ + url_encoded(oauth_url(p, client@, redirect@, state@)),
        oauth_url(p, client@, redirect@, state@),
        now,
    ));
    r
}

/// Why an OAuth platform's login cannot be confirmed from its code.
pub open spec fn oauth_confirm_text(p: Platform) -> Seq<char> {
    match p {
        Platform::Toutiao => "头条扫码登录需要通过 OAuth 授权页面获取 code，请使用 /api/qr/authorize 接口"@,
        Platform::Douyin => "抖音扫码登录需要通过 OAuth 授权页面获取 code"@,
        Platform::Xiaohongshu => "小红书扫码登录需要通过 OAuth 授权页面获取 code"@,
        _ => "微信公众号扫码登录需要通过 OAuth 授权页面获取 code"@,
    }
}

/// The error of confirming an OAuth platform's login from its code.
pub fn oauth_confirm_error(p: Platform) -> (r: PublishError)
    requires
        is_oauth(p),
    ensures
        r matches PublishError::PlatformError(m) && m@ == oauth_confirm_text(p),
{
    match p {
        Platform::Toutiao => PublishError::platform(
            "头条扫码登录需要通过 OAuth 授权页面获取 code，请使用 /api/qr/authorize 接口",
        ),
        Platform::Douyin => PublishError::platform("抖音扫码登录需要通过 OAuth 授权页面获取 code"),
        Platform::Xiaohongshu => PublishError::platform(
            "小红书扫码登录需要通过 OAuth 授权页面获取 code",
        ),
        _ => PublishError::platform("微信公众号扫码登录需要通过 OAuth 授权页面获取 code"),
    }
}

/// The page where a WeChat authorization code is exchanged for a token.
pub fn wechat_token_url(app_id: &str, app_secret: &str, code: &str) -> (r: String)
    ensures
        r@ == "https://api.weixin.qq.com/sns/oauth2/access_token?appid="@ + app_id@ + "&secret="@
            + app_secret@ + "&code="@ + code@ + "&grant_type=authorization_code"@,
{
    let mut out: Vec<char> = Vec::new();
    push_str(&mut out, "https://api.weixin.qq.com/sns/oauth2/access_token?appid=");
    push_str(&mut out, app_id);
    push_str(&mut out, "&secret=");
    push_str(&mut out, app_secret);
    push_str(&mut out, "&code=");
    push_str(&mut out, code);
    push_str(&mut out, "&grant_type=authorization_code");
    string_of(&out)
}

/// The error code of a WeChat reply, where it is an integer.
pub open spec fn wechat_errcode(doc: Json) -> Option<i64> {
    match json_get(doc, "errcode"@) {
        Some(v) => json_i64(v),
        None => None,
    }
}

/// The credential of a WeChat token reply `doc`: an error where it carries
/// a non-zero error code (with its message as JSON) or lacks the token or
/// the open id.
pub fn wechat_credential(doc: &Json) -> (r: Result<PlatformCredential, PublishError>)
    ensures
        (wechat_errcode(*doc) matches Some(e) && e != 0) ==> (r matches Err(
            PublishError::PlatformError(m),
        ) && m@ == "微信获取 access_token 失败: "@ + json_text(json_index(*doc, "errmsg"@))),
        !(wechat_errcode(*doc) matches Some(e) && e != 0) ==> ({
            let token = member_str(*doc, "access_token"@);
            let openid = member_str(*doc, "openid"@);
            &&& token.is_none() ==> (r matches Err(PublishError::PlatformError(m)) && m@
                == "微信未返回 access_token"@)
            &&& token.is_some() && openid.is_none() ==> (r matches Err(
                PublishError::PlatformError(m),
            ) && m@ == "微信未返回 openid"@)
            &&& token.is_some() && openid.is_some() ==> (r matches Ok(c) && c.platform
                == Platform::WeChatOfficial && c.cookies@ == "access_token="@ + token.unwrap()
                && c.extra_view() == seq![
                ("openid"@, openid.unwrap()),
                ("access_token"@, token.unwrap()),
            ])
        }),
{
    let code = match doc.get("errcode") {
        Some(v) => v.as_i64(),
        None => None,
    };
    if let Some(e) = code {
        if e != 0 {
            let shown = match doc.get("errmsg") {
                Some(v) => json_to_text(v),
                None => {
                    let null = Json::Null;
                    json_to_text(&null)
                },
            };
            return Err(PublishError::PlatformError(text2("微信获取 access_token 失败: ", shown.as_str())));
        }
    }
    let token = match doc.get("access_token") {
        Some(v) => match v.as_str() {
            Some(t) => t,
            None => {
                return Err(PublishError::platform("微信未返回 access_token"));
            },
        },
        None => {
            return Err(PublishError::platform("微信未返回 access_token"));
        },
    };
    let openid = match doc.get("openid") {
        Some(v) => match v.as_str() {
            Some(t) => t,
            None => {
                return Err(PublishError::platform("微信未返回 openid"));
            },
        },
        None => {
            return Err(PublishError::platform("微信未返回 openid"));
        },
    };
    let mut extra: Vec<(String, String)> = Vec::new();
    push_pair(&mut extra, "openid", openid.to_owned());
    push_pair(&mut extra, "access_token", token.to_owned());
    let c = PlatformCredential {
        platform: Platform::WeChatOfficial,
        cookies: text2("access_token=", token),
        extra,
    };
    assert(c.extra_view() =~= seq![("openid"@, openid@), ("access_token"@, token@)]);
    Ok(c)
}

} // verus!
