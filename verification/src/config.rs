//! Per-user configuration: platform settings and preferences, and how
//! their fields are stored as text.
use crate::json::{distinct_keys, json_document, object_reads_back, object_strings, parse_json, string_members, Json};
use crate::task::model::{mode_of_text, parse_mode};
use crate::text::str_eq;
use crate::types::{Platform, TaskMode};
use vstd::prelude::*;

verus! {

broadcast use vstd::string::group_string_axioms;

/// A user's settings for one platform.
#[derive(Debug, Clone)]
pub struct PlatformConfig {
    pub platform: Platform,
    pub enabled: bool,
    pub image_count: u32,
    pub cookies: Option<String>,
    pub extra: Vec<(String, String)>,
}

/// A user's preferences.
#[derive(Debug, Clone)]
pub struct UserPreferences {
    pub default_mode: TaskMode,
    pub default_tags: Vec<String>,
    pub auto_publish: bool,
}

/// The platform a stored platform name stands for: the variant's name, and
/// Weibo for any other text.
pub open spec fn platform_of_stored(s: Seq<char>) -> Platform {
    if s == "Xiaohongshu"@ {
        Platform::Xiaohongshu
    } else if s == "Douyin"@ {
        Platform::Douyin
    } else if s == "WeChatOfficial"@ {
        Platform::WeChatOfficial
    } else if s == "Bilibili"@ {
        Platform::Bilibili
    } else if s == "Weibo"@ {
        Platform::Weibo
    } else if s == "Toutiao"@ {
        Platform::Toutiao
    } else {
        Platform::Weibo
    }
}

/// The name under which a platform is stored: its variant's name.
pub fn stored_platform_name(p: Platform) -> (r: &'static str)
    ensures
        r@ == p.debug_text(),
{
    p.debug_name()
}

/// The platform a stored platform name stands for.
pub fn parse_stored_platform(s: &str) -> (r: Platform)
    ensures
        r == platform_of_stored(s@),
{
    if str_eq(s, "Xiaohongshu") {
        Platform::Xiaohongshu
    } else if str_eq(s, "Douyin") {
        Platform::Douyin
    } else if str_eq(s, "WeChatOfficial") {
        Platform::WeChatOfficial
    } else if str_eq(s, "Bilibili") {
        Platform::Bilibili
    } else if str_eq(s, "Weibo") {
        Platform::Weibo
    } else if str_eq(s, "Toutiao") {
        Platform::Toutiao
    } else {
        Platform::Weibo
    }
}

/// The stored text of a default mode.
pub fn stored_mode_name(m: TaskMode) -> (r: &'static str)
    ensures
        r@ == m.text(),
{
    m.as_str()
}

/// The default mode a stored mode text stands for (`"video"`, else text).
pub fn parse_stored_mode(s: &str) -> (r: TaskMode)
    ensures
        r == mode_of_text(s@),
{
    parse_mode(s)
}

/// A stored enabled flag: non-zero is enabled.
pub fn stored_flag(v: i32) -> (r: bool)
    ensures
        r == (v != 0),
{
    v != 0
}

/// The preferences of a user who has stored none.
pub fn default_preferences() -> (r: UserPreferences)
    ensures
        r.default_mode == TaskMode::Text,
        r.default_tags@.len() == 0,
        !r.auto_publish,
{
    UserPreferences { default_mode: TaskMode::Text, default_tags: Vec::new(), auto_publish: false }
}

/// The named values a stored `extra` column holds: the members of a JSON
/// object of strings; none where there is no text, it is no JSON, no
/// object, or a member is not a string.
pub open spec fn stored_named_values(text: Option<Seq<char>>) -> Seq<(Seq<char>, Seq<char>)> {
    match text {
        Some(t) => match json_document(t) {
            Some(Json::Object(fields)) => match string_members(fields@) {
                Some(pairs) => pairs,
                None => seq![],
            },
            _ => seq![],
        },
        None => seq![],
    }
}

/// The named values as text pairs.
pub open spec fn pairs_text(v: Seq<(String, String)>) -> Seq<(Seq<char>, Seq<char>)> {
    Seq::new(v.len(), |i: int| (v[i].0@, v[i].1@))
}

fn string_members_exec(fields: &Vec<(String, Json)>) -> (r: Option<Vec<(String, String)>>)
    ensures
        match r {
            Some(v) => string_members(fields@) == Some(pairs_text(v@)),
            None => string_members(fields@).is_none(),
        },
{
    let mut out: Vec<(String, String)> = Vec::new();
    let mut i: usize = 0;
    while i < fields.len()
        invariant
            i <= fields.len(),
            string_members(fields@.take(i as int)) == Some(pairs_text(out@)),
        decreases fields.len() - i,
    {
        assert(fields@.take(i + 1).drop_last() =~= fields@.take(i as int));
        match &fields[i].1 {
            Json::Str(v) => {
                out.push((fields[i].0.clone(), v.clone()));
                assert(pairs_text(out@) =~= pairs_text(out@.drop_last()).push(
                    (fields@[i as int].0@, v@),
                ));
            },
            _ => {
                proof {
                    assert(string_members(fields@.take(i + 1)).is_none());
                    lemma_string_members_stays_none(fields@, i + 1);
                }
                return None;
            },
        }
        i = i + 1;
    }
    assert(fields@.take(fields.len() as int) =~= fields@);
    Some(out)
}

proof fn lemma_string_members_stays_none(fields: Seq<(String, Json)>, n: int)
    requires
        0 <= n <= fields.len(),
        string_members(fields.take(n)).is_none(),
    ensures
        string_members(fields).is_none(),
    decreases fields.len() - n,
{
    if n < fields.len() {
        assert(fields.take(n + 1).drop_last() =~= fields.take(n));
        lemma_string_members_stays_none(fields, n + 1);
    } else {
        assert(fields.take(n) =~= fields);
    }
}

/// The named values of a stored `extra` column.
pub fn read_named_values(text: Option<&str>) -> (r: Vec<(String, String)>)
    ensures
        pairs_text(r@) == stored_named_values(match text {
            Some(t) => Some(t@),
            None => None,
        }),
{
    let t = match text {
        Some(t) => t,
        None => {
            let r: Vec<(String, String)> = Vec::new();
            assert(pairs_text(r@) =~= Seq::<(Seq<char>, Seq<char>)>::empty());
            return r;
        },
    };
    let none: Vec<(String, String)> = Vec::new();
    assert(pairs_text(none@) =~= Seq::<(Seq<char>, Seq<char>)>::empty());
    match parse_json(t) {
        Some(Json::Object(fields)) => match string_members_exec(&fields) {
            Some(v) => v,
            None => none,
        },
        _ => none,
    }
}

/// A user's settings for a platform as stored in a row: the flag, the
/// image count (read as `i32 as u32` reads it), the cookies and the named
/// values of the `extra` column.
pub fn platform_config_of_row(
    platform: Platform,
    enabled: i32,
    image_count: i32,
    cookies: Option<String>,
    extra: Option<&str>,
) -> (r: PlatformConfig)
    ensures
        r.platform == platform,
        r.enabled == (enabled != 0),
        r.image_count == image_count as u32,
        r.cookies == cookies,
        pairs_text(r.extra@) == stored_named_values(match extra {
            Some(t) => Some(t@),
            None => None,
        }),
{
    PlatformConfig {
        platform,
        enabled: enabled != 0,
        image_count: image_count as u32,
        cookies,
        extra: read_named_values(extra),
    }
}

/// A platform's settings as a stored row: the platform's name, the flag
/// as 0 or 1, the image count as an `i32`, the cookies, and the named
/// values as the text of a JSON object.
pub struct PlatformRow {
    pub platform: String,
    pub enabled: i32,
    pub image_count: i32,
    pub cookies: Option<String>,
    pub extra: String,
}

/// `row` stores `c`: its name, flag, count and cookies, and an `extra`
/// text that reads back (where no two named values share a name) as the
/// same named values, in the order the stored object keeps them.
pub open spec fn row_of(row: PlatformRow, c: PlatformConfig) -> bool {
    &&& row.platform@ == c.platform.debug_text()
    &&& row.enabled == (if c.enabled { 1i32 } else { 0i32 })
    &&& row.image_count == c.image_count as i32
    &&& row.cookies == c.cookies
    &&& distinct_keys(pairs_text(c.extra@)) ==> ({
        let back = stored_named_values(Some(row.extra@));
        back.len() == c.extra@.len() && back.to_set() == pairs_text(c.extra@).to_set()
    })
}

fn named_values_json(extra: &Vec<(String, String)>) -> (r: Json)
    ensures
        object_strings(r) == Some(pairs_text(extra@)),
{
    let mut fields: Vec<(String, Json)> = Vec::new();
    let mut i: usize = 0;
    while i < extra.len()
        invariant
            i <= extra.len(),
            string_members(fields@) == Some(pairs_text(extra@.take(i as int))),
        decreases extra.len() - i,
    {
        let ghost before = fields@;
        fields.push((extra[i].0.clone(), Json::Str(extra[i].1.clone())));
        assert(fields@.drop_last() =~= before);
        assert(pairs_text(extra@.take(i + 1)) =~= pairs_text(extra@.take(i as int)).push(
            (extra@[i as int].0@, extra@[i as int].1@),
        ));
        i = i + 1;
    }
    assert(extra@.take(extra.len() as int) =~= extra@);
    Json::Object(fields)
}

/// The row a platform's settings are stored as.
pub fn platform_config_row(c: &PlatformConfig) -> (r: PlatformRow)
    ensures
        row_of(r, *c),
{
    let named = named_values_json(&c.extra);
    let extra = named.to_text();
    let cookies = match &c.cookies {
        Some(t) => Some(t.clone()),
        None => None,
    };
    PlatformRow {
        platform: stored_platform_name(c.platform).to_owned(),
        enabled: if c.enabled { 1 } else { 0 },
        image_count: c.image_count as i32,
        cookies,
        extra,
    }
}

/// A platform's settings come back from their row: reading the columns of
/// `platform_config_row(c)` (the name with `parse_stored_platform`, the
/// rest with `platform_config_of_row`) gives the same platform, flag,
/// image count and cookies, and, where no two named values share a name,
/// the same named values.
pub proof fn lemma_platform_config_round_trip(c: PlatformConfig, row: PlatformRow, back: PlatformConfig)
    requires
        row_of(row, c),
        back.platform == platform_of_stored(row.platform@),
        back.enabled == (row.enabled != 0),
        back.image_count == row.image_count as u32,
        back.cookies == row.cookies,
        pairs_text(back.extra@) == stored_named_values(Some(row.extra@)),
        distinct_keys(pairs_text(c.extra@)),
    ensures
        back.platform == c.platform,
        back.enabled == c.enabled,
        back.image_count == c.image_count,
        back.cookies == c.cookies,
        back.extra@.len() == c.extra@.len(),
        pairs_text(back.extra@).to_set() == pairs_text(c.extra@).to_set(),
{
    lemma_platform_name_round_trip(c.platform);
    let n = c.image_count;
    assert((n as i32) as u32 == n) by (bit_vector);
}

/// Reading back the stored name of a platform gives the platform.
pub proof fn lemma_platform_name_round_trip(p: Platform)
    ensures
        platform_of_stored(p.debug_text()) == p,
{
    reveal_strlit("Xiaohongshu");
    reveal_strlit("Douyin");
    reveal_strlit("WeChatOfficial");
    reveal_strlit("Bilibili");
    reveal_strlit("Weibo");
    reveal_strlit("Toutiao");
    assert("Xiaohongshu"@.len() == 11);
    assert("Douyin"@.len() == 6);
    assert("WeChatOfficial"@.len() == 14);
    assert("Bilibili"@.len() == 8);
    assert("Weibo"@.len() == 5);
    assert("Toutiao"@.len() == 7);
}

} // verus!
