//! QR-code login: the state of a code, what a login ends in, the cache of
//! issued codes, and the decisions of the wait for a user to confirm.
//!
//! The caller queries the platform and sleeps; this module decides, from
//! the time spent and the status read, whether to stop, confirm or wait.
use crate::publish::encoding::{url_encoded, urlencoding_encode};
use crate::publish::error::PublishError;
use crate::text::{chars_eq, chars_of, push_all, push_str, starts_with, starts_with_exec, string_of, str_eq};
use crate::pattern::slice_from;
use crate::types::{Platform, PlatformCredential};
use vstd::prelude::*;

verus! {

broadcast use vstd::string::group_string_axioms;

/// The state of a login QR code.
#[derive(Debug, Clone, Copy, PartialEq, Eq, Structural)]
pub enum QrCodeStatus {
    /// Waiting to be scanned.
    Pending,
    /// Scanned, waiting for the user to confirm.
    Scanned,
    /// Confirmed: the login succeeded.
    Confirmed,
    /// Expired.
    Expired,
    /// The login failed.
    Failed,
}

/// An issued login QR code.
#[derive(Debug, Clone)]
pub struct QrCodeInfo {
    /// The code's id: the platform's prefix and the platform's key.
    pub id: String,
    /// Where the code's image can be fetched.
    pub image: String,
    /// The link the code encodes.
    pub url: String,
    /// The code's state.
    pub status: QrCodeStatus,
    /// When it was issued, in Unix seconds.
    pub created_at: i64,
}

/// What a QR-code login ended in.
#[derive(Debug, Clone)]
pub struct LoginResult {
    pub platform: Platform,
    pub success: bool,
    pub credential: Option<PlatformCredential>,
    pub error_message: Option<String>,
}

/// The service that draws a code's image from its link.
pub const QR_IMAGE_SERVICE: &'static str = "https://api.qrserver.com/v1/create-qr-code/?size=200x200&data=";

/// Seconds between two status queries while waiting.
pub const POLL_INTERVAL_SECS: u64 = 2;

/// The image address of a code for the link `url`.
pub fn qr_image_url(url: &str) -> (r: String)
    ensures
        r@ == QR_IMAGE_SERVICE@ + url_encoded(url@),
{
    let enc = urlencoding_encode(url);
    let mut out: Vec<char> = Vec::new();
    push_str(&mut out, QR_IMAGE_SERVICE);
    push_str(&mut out, enc.as_str());
    string_of(&out)
}

/// The id of a code: the platform's prefix and the platform's key.
pub fn qr_id(prefix: &str, key: &str) -> (r: String)
    ensures
        r@ == prefix@ + key@,
{
    let mut out: Vec<char> = Vec::new();
    push_str(&mut out, prefix);
    push_str(&mut out, key);
    string_of(&out)
}

/// The platform's key in a code id with the given prefix; a
/// `PlatformError` where the id does not start with it.
pub fn qr_key(id: &str, prefix: &str) -> (r: Result<String, PublishError>)
    ensures
        starts_with(id@, prefix@) ==> (r matches Ok(k) && k@ == id@.skip(prefix@.len() as int)),
        !starts_with(id@, prefix@) ==> (r matches Err(PublishError::PlatformError(m)) && m@
            == "无效的二维码 ID"@),
{
    let iv = chars_of(id);
    let pv = chars_of(prefix);
    if starts_with_exec(&iv, &pv) {
        let rest = slice_from(&iv, pv.len());
        Ok(string_of(&rest))
    } else {
        Err(PublishError::platform("无效的二维码 ID"))
    }
}

/// The error for a platform without QR-code login.
pub fn unsupported_platform(platform: Platform) -> (r: PublishError)
    ensures
        r matches PublishError::PlatformError(m) && m@ == "平台 "@ + platform.debug_text()
            + " 不支持扫码登录"@,
{
    let mut out: Vec<char> = Vec::new();
    push_str(&mut out, "平台 ");
    push_str(&mut out, platform.debug_name());
    push_str(&mut out, " 不支持扫码登录");
    PublishError::PlatformError(string_of(&out))
}

/// A failed login with the message `m`.
pub open spec fn failed_login(r: LoginResult, platform: Platform, m: Seq<char>) -> bool {
    &&& r.platform == platform
    &&& !r.success
    &&& r.credential.is_none()
    &&& r.error_message matches Some(s) && s@ == m
}

fn failure(platform: Platform, m: &str) -> (r: LoginResult)
    ensures
        failed_login(r, platform, m@),
{
    LoginResult { platform, success: false, credential: None, error_message: Some(m.to_owned()) }
}

/// What a confirmation ends in: the credential on success, else a failed
/// login with the error's text.
pub fn login_result_of(platform: Platform, outcome: Result<PlatformCredential, PublishError>) -> (r: LoginResult)
    ensures
        match outcome {
            Ok(c) => r.platform == platform && r.success && r.credential == Some(c)
                && r.error_message.is_none(),
            Err(e) => failed_login(r, platform, e.display_text()),
        },
{
    match outcome {
        Ok(c) => LoginResult { platform, success: true, credential: Some(c), error_message: None },
        Err(e) => LoginResult {
            platform,
            success: false,
            credential: None,
            error_message: Some(e.to_display_string()),
        },
    }
}

/// The next step of the wait for a confirmation.
#[derive(Debug)]
pub enum WaitAction {
    /// Query the code's status.
    Query,
    /// Confirm the login and return what the confirmation ends in.
    Confirm,
    /// Sleep this many seconds, then go on.
    Sleep(u64),
    /// Stop with this result.
    Finish(LoginResult),
}

/// The step before each query: stop with a timeout once more than
/// `timeout_secs` whole seconds have passed, else query.
pub fn wait_before_query(platform: Platform, elapsed_secs: u64, timeout_secs: u64) -> (r: WaitAction)
    ensures
        elapsed_secs > timeout_secs ==> (r matches WaitAction::Finish(res) && failed_login(
            res,
            platform,
            "登录超时"@,
        )),
        elapsed_secs <= timeout_secs ==> r matches WaitAction::Query,
{
    if elapsed_secs > timeout_secs {
        WaitAction::Finish(failure(platform, "登录超时"))
    } else {
        WaitAction::Query
    }
}

/// The step after a status was read: confirm once confirmed, stop on an
/// expired or failed code, else sleep for the polling interval.
pub fn wait_after_status(platform: Platform, status: QrCodeStatus) -> (r: WaitAction)
    ensures
        status == QrCodeStatus::Confirmed ==> r matches WaitAction::Confirm,
        status == QrCodeStatus::Expired ==> (r matches WaitAction::Finish(res) && failed_login(
            res,
            platform,
            "二维码已过期"@,
        )),
        status == QrCodeStatus::Failed ==> (r matches WaitAction::Finish(res) && failed_login(
            res,
            platform,
            "登录失败"@,
        )),
        (status == QrCodeStatus::Pending || status == QrCodeStatus::Scanned) ==> r
            == WaitAction::Sleep(POLL_INTERVAL_SECS),
{
    match status {
        QrCodeStatus::Confirmed => WaitAction::Confirm,
        QrCodeStatus::Expired => WaitAction::Finish(failure(platform, "二维码已过期")),
        QrCodeStatus::Failed => WaitAction::Finish(failure(platform, "登录失败")),
        _ => WaitAction::Sleep(POLL_INTERVAL_SECS),
    }
}

// ---------------------------------------------------------------------
// The cache of issued codes
// ---------------------------------------------------------------------

/// The codes a list of entries records: by id, a later entry of an id
/// standing over an earlier one.
pub open spec fn entries_map(es: Seq<QrCodeInfo>) -> Map<Seq<char>, (QrCodeStatus, i64)>
    decreases es.len(),
{
    if es.len() == 0 {
        Map::empty()
    } else {
        entries_map(es.drop_last()).insert(es.last().id@, (es.last().status, es.last().created_at))
    }
}

/// The issued codes: their status and issue time, by id.
pub struct QrStatusCache {
    entries: Vec<QrCodeInfo>,
}

impl View for QrStatusCache {
    type V = Map<Seq<char>, (QrCodeStatus, i64)>;

    closed spec fn view(&self) -> Map<Seq<char>, (QrCodeStatus, i64)> {
        entries_map(self.entries@)
    }
}

impl QrStatusCache {
    /// An empty cache.
    pub fn new() -> (r: QrStatusCache)
        ensures
            r@ == Map::<Seq<char>, (QrCodeStatus, i64)>::empty(),
    {
        QrStatusCache { entries: Vec::new() }
    }

    /// Takes the entries of `id` out; returns the one the cache showed.
    fn take_out(&mut self, id: &str) -> (r: Option<QrCodeInfo>)
        ensures
            final(self)@ == old(self)@.remove(id@),
            match r {
                Some(e) => e.id@ == id@ && old(self)@.contains_key(id@) && old(self)@[id@] == (
                    e.status,
                    e.created_at,
                ),
                None => !old(self)@.contains_key(id@),
            },
    {
        let ghost orig = self.entries@;
        let total: usize = self.entries.len();
        let mut rest: Vec<QrCodeInfo> = Vec::new();
        std::mem::swap(&mut rest, &mut self.entries);
        let mut kept: Vec<QrCodeInfo> = Vec::new();
        let mut found: Option<QrCodeInfo> = None;
        let mut n: usize = 0;
        while rest.len() > 0
            invariant
                orig.len() == total,
                n + rest@.len() == orig.len(),
                rest@ == orig.skip(n as int),
                entries_map(kept@) == entries_map(orig.take(n as int)).remove(id@),
                match found {
                    Some(e) => e.id@ == id@ && entries_map(orig.take(n as int)).contains_key(id@)
                        && entries_map(orig.take(n as int))[id@] == (e.status, e.created_at),
                    None => !entries_map(orig.take(n as int)).contains_key(id@),
                },
            decreases rest@.len(),
        {
            let e = rest.remove(0);
            assert(e == orig[n as int]);
            assert(orig.take(n + 1).drop_last() =~= orig.take(n as int));
            assert(orig.take(n + 1).last() == e);
            let ghost prev = entries_map(orig.take(n as int));
            let ghost next = entries_map(orig.take(n + 1));
            assert(next == prev.insert(e.id@, (e.status, e.created_at)));
            if str_eq(e.id.as_str(), id) {
                assert(next.remove(id@) =~= prev.remove(id@));
                found = Some(e);
            } else {
                let ghost before = kept@;
                kept.push(e);
                assert(kept@.drop_last() =~= before);
                assert(entries_map(kept@) =~= next.remove(id@));
            }
            assert(rest@ =~= orig.skip(n + 1));
            n = n + 1;
        }
        assert(orig.take(n as int) =~= orig);
        self.entries = kept;
        found
    }

    /// The status of the code `id`, if it is cached.
    pub fn status_of(&self, id: &str) -> (r: Option<QrCodeStatus>)
        ensures
            match r {
                Some(s) => self@.contains_key(id@) && self@[id@].0 == s,
                None => !self@.contains_key(id@),
            },
    {
        let ghost orig = self.entries@;
        let mut found: Option<QrCodeStatus> = None;
        let mut i: usize = 0;
        while i < self.entries.len()
            invariant
                i <= self.entries@.len(),
                orig == self.entries@,
                match found {
                    Some(s) => entries_map(orig.take(i as int)).contains_key(id@)
                        && entries_map(orig.take(i as int))[id@].0 == s,
                    None => !entries_map(orig.take(i as int)).contains_key(id@),
                },
            decreases self.entries.len() - i,
        {
            assert(orig.take(i + 1).drop_last() =~= orig.take(i as int));
            if str_eq(self.entries[i].id.as_str(), id) {
                found = Some(self.entries[i].status);
            }
            i = i + 1;
        }
        assert(orig.take(i as int) =~= orig);
        found
    }

    /// Records an issued code, replacing a cached code of the same id.
    pub fn insert(&mut self, info: QrCodeInfo)
        ensures
            final(self)@ == old(self)@.insert(info.id@, (info.status, info.created_at)),
    {
        let _ = self.take_out(info.id.as_str());
        let ghost mid = self.entries@;
        self.entries.push(info);
        assert(self.entries@.drop_last() =~= mid);
        assert(self@ =~= old(self)@.insert(info.id@, (info.status, info.created_at)));
    }

    /// Sets the status of the cached code `id`; nothing where it is not
    /// cached.
    pub fn set_status(&mut self, id: &str, status: QrCodeStatus)
        ensures
            old(self)@.contains_key(id@) ==> final(self)@ == old(self)@.insert(
                id@,
                (status, old(self)@[id@].1),
            ),
            !old(self)@.contains_key(id@) ==> final(self)@ == old(self)@,
    {
        match self.take_out(id) {
            Some(e) => {
                let e2 = QrCodeInfo {
                    id: e.id,
                    image: e.image,
                    url: e.url,
                    status,
                    created_at: e.created_at,
                };
                let ghost mid = self.entries@;
                self.entries.push(e2);
                assert(self.entries@.drop_last() =~= mid);
                assert(self@ =~= old(self)@.insert(id@, (status, old(self)@[id@].1)));
            },
            None => {
                assert(self@ =~= old(self)@);
            },
        }
    }

    /// Forgets the code `id`.
    pub fn remove(&mut self, id: &str)
        ensures
            final(self)@ == old(self)@.remove(id@),
    {
        let _ = self.take_out(id);
    }
}

} // verus!
