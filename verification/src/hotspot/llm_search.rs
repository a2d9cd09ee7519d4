//! Searching trending topics through a language model: the prompt, the
//! recovery of a JSON array from the model's free-form reply, and the
//! reading of the array's objects as hotspots.
//!
//! The reply is cleaned (code fences, the end of a reasoning block and a
//! stray `]>` removed, a byte-order mark dropped), the array is located,
//! parsed directly, read out of a JSON string that holds it, or cut out by
//! a bracket scan that respects string literals, and each object with a
//! `title` becomes a hotspot.
use crate::json::{
    json_array_document, json_document, member_str, member_string, parse_json,
    parse_json_array, Json,
};
use crate::pattern::{
    find, find_char, find_exec, replace_all, replace_all_exec, rfind_char, rfind_char_exec,
    slice_from, slice_to, strip_leading, strip_leading_exec, without_ws, without_ws_exec,
};
use crate::text::{chars_of, push_str, remove_all, remove_all_exec, str_eq, string_of, trim, trim_exec};
use crate::types::{CalendarDate, Hotspot, HotspotSource};
use chrono::Datelike;
use vstd::prelude::*;

verus! {

broadcast use vstd::string::group_string_axioms;

/// The model asked for the search.
pub const SEARCH_MODEL: &'static str = "MiniMax-M2.7";

/// The prompt up to the keyword.
pub const PROMPT_HEAD: &'static str = "请搜索并推荐10个与关键词\"";

/// The prompt after the keyword.
pub const PROMPT_TAIL: &'static str = "\"相关的最热门话题，覆盖不同平台（微博、抖音、小红书、B站、头条、知乎等）。\n\n请使用联网搜索获取每个话题的最新信息，确保数据真实可靠。\n\n返回JSON数组格式，数组中每个对象必须包含以下字段：\n- title: 话题标题\n- snippet: 话题简介或摘要（50-100字）\n- source: 来源平台，必须是以下之一：微博、抖音、小红书、B站、头条、知乎\n- event_date: 事件发生日期，格式为 YYYY-MM-DD（如：2026-04-11），如果是当天的事件用\"今天\"\n\n只返回JSON数组，不要包含其他文字。";

/// Opening fence of a JSON code block.
pub const FENCE_JSON: &'static str = "```json";

/// A code fence.
pub const FENCE: &'static str = "```";

/// The end of a reasoning block, with the line breaks around it.
pub const THINK_END: &'static str = "\n</think>\n\n";

/// A stray tail some replies carry.
pub const STRAY_TAIL: &'static str = "]>";

/// The event date a reply gives for events of the day.
pub const TODAY_WORD: &'static str = "今天";

/// The source assumed where the reply names none.
pub const DEFAULT_SOURCE_NAME: &'static str = "微博";

/// The byte-order mark.
pub const BOM: char = '\u{FEFF}';

/// The zero-width space.
pub const ZERO_WIDTH_SPACE: char = '\u{200B}';

/// The prompt that asks for topics on `keyword`.
pub fn search_prompt(keyword: &str) -> (r: String)
    ensures
        r@ == PROMPT_HEAD@ + keyword@ + PROMPT_TAIL@,
{
    let mut out: Vec<char> = Vec::new();
    push_str(&mut out, PROMPT_HEAD);
    push_str(&mut out, keyword);
    push_str(&mut out, PROMPT_TAIL);
    string_of(&out)
}

// ---------------------------------------------------------------------
// Cleaning the reply
// ---------------------------------------------------------------------

/// The reply trimmed, with fences, the reasoning end and the stray tail
/// removed, and trimmed again.
pub open spec fn stripped_reply(content: Seq<char>) -> Seq<char> {
    trim(
        remove_all(
            remove_all(remove_all(remove_all(trim(content), FENCE_JSON@), FENCE@), THINK_END@),
            STRAY_TAIL@,
        ),
    )
}

/// Where the array starts: the first `"[\n"`, else the first `"[ "`, else
/// the first `"[\""`, else the first `"[{"`.
pub open spec fn array_start(j: Seq<char>) -> Option<int> {
    match find(j, seq!['[', '\n']) {
        Some(p) => Some(p),
        None => match find(j, seq!['[', ' ']) {
            Some(p) => Some(p),
            None => match find(j, seq!['[', '"']) {
                Some(p) => Some(p),
                None => find(j, seq!['[', '{']),
            },
        },
    }
}

/// `t` trimmed, without leading byte-order marks and then zero-width
/// spaces, trimmed; and once more without a byte-order mark left in front.
pub open spec fn without_marks(t: Seq<char>) -> Seq<char> {
    let a = trim(strip_leading(strip_leading(trim(t), BOM), ZERO_WIDTH_SPACE));
    if a.len() > 0 && a[0] == BOM {
        trim(a.drop_first())
    } else {
        a
    }
}

/// The text to parse as the array, or `None` where the reply has no array
/// start, is empty, is `[]` or does not start with `[`.
pub open spec fn json_candidate(content: Seq<char>) -> Option<Seq<char>> {
    let j = stripped_reply(content);
    match array_start(j) {
        None => None,
        Some(p) => {
            let t = without_marks(j.skip(p));
            if t.len() == 0 || t == seq!['[', ']'] || t[0] != '[' {
                None
            } else {
                Some(t)
            }
        },
    }
}

fn remove_all_str(s: &[char], p: &str) -> (r: Vec<char>)
    requires
        p@.len() > 0,
    ensures
        r@ == remove_all(s@, p@),
{
    let pv = chars_of(p);
    remove_all_exec(s, &pv)
}

fn find_pair(s: &[char], a: char, b: char) -> (r: Option<usize>)
    ensures
        match r {
            Some(i) => find(s@, seq![a, b]) == Some(i as int),
            None => find(s@, seq![a, b]).is_none(),
        },
{
    let p = vec![a, b];
    assert(p@ =~= seq![a, b]);
    find_exec(s, &p)
}

fn without_marks_exec(t: &[char]) -> (r: Vec<char>)
    ensures
        r@ == without_marks(t@),
{
    let a0 = trim_exec(t);
    let a1 = strip_leading_exec(&a0, BOM);
    let a2 = strip_leading_exec(&a1, ZERO_WIDTH_SPACE);
    let a = trim_exec(&a2);
    if a.len() > 0 && a[0] == BOM {
        let rest = slice_from(&a, 1);
        assert(rest@ =~= a@.drop_first());
        trim_exec(&rest)
    } else {
        a
    }
}

/// The text of the reply to parse as the array, or `None` where the reply
/// yields no topics before parsing.
pub fn clean_llm_content(content: &str) -> (r: Option<String>)
    ensures
        match r {
            Some(t) => json_candidate(content@) == Some(t@),
            None => json_candidate(content@).is_none(),
        },
{
    proof {
        reveal_strlit("```json");
        reveal_strlit("```");
        reveal_strlit("\n</think>\n\n");
        reveal_strlit("]>");
    }
    let c = chars_of(content);
    let c0 = trim_exec(&c);
    let c1 = remove_all_str(&c0, FENCE_JSON);
    let c2 = remove_all_str(&c1, FENCE);
    let c3 = remove_all_str(&c2, THINK_END);
    let c4 = remove_all_str(&c3, STRAY_TAIL);
    let j = trim_exec(&c4);
    assert(j@ == stripped_reply(content@));
    let start = match find_pair(&j, '[', '\n') {
        Some(p) => p,
        None => match find_pair(&j, '[', ' ') {
            Some(p) => p,
            None => match find_pair(&j, '[', '"') {
                Some(p) => p,
                None => match find_pair(&j, '[', '{') {
                    Some(p) => p,
                    None => {
                        return None;
                    },
                },
            },
        },
    };
    assert(array_start(j@) == Some(start as int));
    proof {
        crate::pattern::lemma_find_bound(j@, seq!['[', '\n']);
        crate::pattern::lemma_find_bound(j@, seq!['[', ' ']);
        crate::pattern::lemma_find_bound(j@, seq!['[', '"']);
        crate::pattern::lemma_find_bound(j@, seq!['[', '{']);
    }
    let tail = slice_from(&j, start);
    let t = without_marks_exec(&tail);
    if t.len() == 0 || (t.len() == 2 && t[0] == '[' && t[1] == ']') || t[0] != '[' {
        proof {
            if t.len() == 2 && t[0] == '[' && t[1] == ']' {
                assert(t@ =~= seq!['[', ']']);
            }
        }
        return None;
    }
    proof {
        if t@ == seq!['[', ']'] {
            assert(t@.len() == 2);
        }
    }
    Some(string_of(&t))
}

// ---------------------------------------------------------------------
// Locating the end of the array
// ---------------------------------------------------------------------

/// The scanner's state after a prefix: the number of brackets opened, the
/// number closed, inside a string literal, after a backslash.
pub open spec fn scan_step(st: (nat, nat, bool, bool), c: char) -> (nat, nat, bool, bool) {
    let (opened, closed, in_string, escaped) = st;
    if escaped {
        (opened, closed, in_string, false)
    } else if c == '\\' {
        (opened, closed, in_string, true)
    } else if c == '"' {
        (opened, closed, !in_string, false)
    } else if in_string {
        st
    } else if c == '[' || c == '{' {
        (opened + 1, closed, in_string, false)
    } else if c == ']' || c == '}' {
        (opened, closed + 1, in_string, false)
    } else {
        st
    }
}

/// The scanner's state after the first `n` characters of `s`.
pub open spec fn scan_state(s: Seq<char>, n: nat) -> (nat, nat, bool, bool)
    decreases n,
{
    if n == 0 || n > s.len() {
        (0, 0, false, false)
    } else {
        scan_step(scan_state(s, (n - 1) as nat), s[n - 1])
    }
}

/// The character at `k` closes a bracket outside any string literal and
/// brings the nesting back to zero.
pub open spec fn closes_at(s: Seq<char>, k: int) -> bool {
    0 <= k < s.len() && {
        let st = scan_state(s, k as nat);
        let after = scan_state(s, (k + 1) as nat);
        &&& !st.3
        &&& !st.2
        &&& (s[k] == ']' || s[k] == '}')
        &&& after.0 == after.1
    }
}

/// The first position at or after `k` where the nesting closes.
pub open spec fn bracket_end_from(s: Seq<char>, k: int) -> Option<int>
    decreases s.len() - k,
{
    if k < 0 || k >= s.len() {
        None
    } else if closes_at(s, k) {
        Some(k)
    } else {
        bracket_end_from(s, k + 1)
    }
}

/// The position where the outermost bracket of `s` closes.
pub open spec fn bracket_end(s: Seq<char>) -> Option<int> {
    bracket_end_from(s, 0)
}

/// The position where the outermost bracket of `s` closes, skipping
/// brackets inside string literals and escaped characters.
pub fn bracket_end_exec(s: &[char]) -> (r: Option<usize>)
    ensures
        match r {
            Some(k) => bracket_end(s@) == Some(k as int),
            None => bracket_end(s@).is_none(),
        },
{
    let mut opened: usize = 0;
    let mut closed: usize = 0;
    let mut in_string = false;
    let mut escaped = false;
    let mut i: usize = 0;
    while i < s.len()
        invariant
            i <= s.len(),
            opened <= i,
            closed <= i,
            scan_state(s@, i as nat) == (opened as nat, closed as nat, in_string, escaped),
            bracket_end(s@) == bracket_end_from(s@, i as int),
        decreases s.len() - i,
    {
        let c = s[i];
        let was_escaped = escaped;
        let was_in_string = in_string;
        let ghost before = (opened as nat, closed as nat, in_string, escaped);
        if escaped {
            escaped = false;
        } else if c == '\\' {
            escaped = true;
        } else if c == '"' {
            in_string = !in_string;
        } else if in_string {
        } else if c == '[' || c == '{' {
            opened = opened + 1;
        } else if c == ']' || c == '}' {
            closed = closed + 1;
        }
        assert(scan_state(s@, (i + 1) as nat) == scan_step(before, c));
        if !was_escaped && !was_in_string && (c == ']' || c == '}') && opened == closed {
            assert(closes_at(s@, i as int));
            return Some(i);
        }
        assert(!closes_at(s@, i as int));
        i = i + 1;
    }
    None
}

// ---------------------------------------------------------------------
// Parsing the array
// ---------------------------------------------------------------------

/// `s` with `\"` read as `"` and then `\\` as `\`.
pub open spec fn unescaped(s: Seq<char>) -> Seq<char> {
    replace_all(replace_all(s, seq!['\\', '"'], seq!['"']), seq!['\\', '\\'], seq!['\\'])
}

/// The view of an optional vector of values.
pub open spec fn opt_items(o: Option<Vec<Json>>) -> Option<Seq<Json>> {
    match o {
        Some(v) => Some(v@),
        None => None,
    }
}

/// The array inside a JSON string `c`: `c` itself as an array, else `c`
/// unescaped, else the unescaped span from the first `[` to the last `]`
/// after it.
pub open spec fn items_in_string(c: Seq<char>) -> Option<Seq<Json>> {
    match json_array_document(c) {
        Some(v) => Some(v@),
        None => match json_array_document(unescaped(c)) {
            Some(v) => Some(v@),
            None => match find(c, seq!['[']) {
                Some(st) => match rfind_char(c.skip(st), ']') {
                    Some(e) => opt_items(json_array_document(unescaped(c.skip(st).take(e + 1)))),
                    None => None,
                },
                None => None,
            },
        },
    }
}

/// The array that `t` holds when parsed as it stands: an array, or a
/// string that holds one.
pub open spec fn direct_items(t: Seq<char>) -> Option<Seq<Json>> {
    match json_document(t) {
        Some(Json::Array(a)) => Some(a@),
        Some(Json::Str(c)) => items_in_string(c@),
        _ => None,
    }
}

/// The array cut out of `t` from its first `[` to where the nesting
/// closes (or to the end), parsed without white space, else as it stands.
pub open spec fn balanced_items(t: Seq<char>) -> Option<Seq<Json>> {
    match find(t, seq!['[']) {
        None => None,
        Some(b) => {
            let ex = t.skip(b);
            let clean = match bracket_end(ex) {
                Some(k) => ex.take(k + 1),
                None => ex,
            };
            match json_array_document(without_ws(clean)) {
                Some(v) => Some(v@),
                None => opt_items(json_array_document(clean)),
            }
        },
    }
}

/// The array recovered from the cleaned text `t`.
pub open spec fn recovered_items(t: Seq<char>) -> Option<Seq<Json>> {
    match direct_items(t) {
        Some(v) => Some(v),
        None => balanced_items(t),
    }
}

fn unescape_exec(s: &[char]) -> (r: Vec<char>)
    ensures
        r@ == unescaped(s@),
{
    let p1 = vec!['\\', '"'];
    let q1 = vec!['"'];
    let p2 = vec!['\\', '\\'];
    let q2 = vec!['\\'];
    assert(p1@ =~= seq!['\\', '"']);
    assert(q1@ =~= seq!['"']);
    assert(p2@ =~= seq!['\\', '\\']);
    assert(q2@ =~= seq!['\\']);
    let a = replace_all_exec(s, &p1, &q1);
    replace_all_exec(&a, &p2, &q2)
}

fn parse_chars_array(s: &[char]) -> (r: Option<Vec<Json>>)
    ensures
        r == json_array_document(s@),
{
    let text = string_of(s);
    parse_json_array(text.as_str())
}

/// The array held by the text of a JSON string.
pub fn items_in_string_exec(c: &str) -> (r: Option<Vec<Json>>)
    ensures
        opt_items(r) == items_in_string(c@),
{
    if let Some(v) = parse_json_array(c) {
        return Some(v);
    }
    let cv = chars_of(c);
    let u = unescape_exec(&cv);
    if let Some(v) = parse_chars_array(&u) {
        return Some(v);
    }
    match find_char(&cv, '[') {
        Some(st) => {
            proof {
                crate::pattern::lemma_find_bound(cv@, seq!['[']);
            }
            let inner = slice_from(&cv, st);
            match rfind_char_exec(&inner, ']') {
                Some(e) => {
                    proof {
                        crate::pattern::lemma_rfind_bound(inner@, ']');
                    }
                    let span = slice_to(&inner, e + 1);
                    let us = unescape_exec(&span);
                    parse_chars_array(&us)
                },
                None => None,
            }
        },
        None => None,
    }
}

/// The array recovered from the cleaned reply `t`: parsed directly, read
/// from a JSON string, or cut out by the bracket scan.
pub fn recover_items(t: &str) -> (r: Option<Vec<Json>>)
    ensures
        opt_items(r) == recovered_items(t@),
{
    let direct: Option<Vec<Json>> = match parse_json(t) {
        Some(Json::Array(a)) => Some(a),
        Some(Json::Str(c)) => items_in_string_exec(c.as_str()),
        _ => None,
    };
    if direct.is_some() {
        return direct;
    }
    let tv = chars_of(t);
    match find_char(&tv, '[') {
        None => None,
        Some(b) => {
            proof {
                crate::pattern::lemma_find_bound(tv@, seq!['[']);
            }
            let ex = slice_from(&tv, b);
            let clean = match bracket_end_exec(&ex) {
                Some(k) => {
                    proof {
                        lemma_bracket_end_bound(ex@);
                    }
                    slice_to(&ex, k + 1)
                },
                None => ex,
            };
            let squeezed = without_ws_exec(&clean);
            match parse_chars_array(&squeezed) {
                Some(v) => Some(v),
                None => parse_chars_array(&clean),
            }
        },
    }
}

proof fn lemma_bracket_end_from_bound(s: Seq<char>, k: int)
    ensures
        bracket_end_from(s, k) matches Some(e) ==> k <= e < s.len(),
    decreases s.len() - k,
{
    if k >= 0 && k < s.len() && !closes_at(s, k) {
        lemma_bracket_end_from_bound(s, k + 1);
    }
}

proof fn lemma_bracket_end_bound(s: Seq<char>)
    ensures
        bracket_end(s) matches Some(e) ==> 0 <= e < s.len(),
{
    lemma_bracket_end_from_bound(s, 0);
}

// ---------------------------------------------------------------------
// Reading the topics
// ---------------------------------------------------------------------

/// The source a reply names: Chinese or Latin names of each platform;
/// anything else counts as Weibo.
pub open spec fn source_named(s: Seq<char>) -> HotspotSource {
    if s == "微博"@ || s == "weibo"@ || s == "新浪微博"@ {
        HotspotSource::Weibo
    } else if s == "抖音"@ || s == "douyin"@ || s == "字节跳动"@ {
        HotspotSource::Douyin
    } else if s == "小红书"@ || s == "xiaohongshu"@ || s == "redbook"@ {
        HotspotSource::Xiaohongshu
    } else if s == "B站"@ || s == "bilibili"@ || s == "哔哩哔哩"@ {
        HotspotSource::Bilibili
    } else if s == "头条"@ || s == "toutiao"@ || s == "今日头条"@ {
        HotspotSource::Toutiao
    } else if s == "知乎"@ || s == "zhihu"@ || s == "zhihu.com"@ {
        HotspotSource::Zhihu
    } else {
        HotspotSource::Weibo
    }
}

/// Each source name the search prompt allows maps to its own platform:
/// 微博 to Weibo, 抖音 to Douyin, 小红书 to Xiaohongshu, B站 to Bilibili,
/// 头条 to Toutiao and 知乎 to Zhihu.
pub proof fn lemma_prompt_sources_map_to_their_platforms()
    ensures
        source_named("微博"@) == HotspotSource::Weibo,
        source_named("抖音"@) == HotspotSource::Douyin,
        source_named("小红书"@) == HotspotSource::Xiaohongshu,
        source_named("B站"@) == HotspotSource::Bilibili,
        source_named("头条"@) == HotspotSource::Toutiao,
        source_named("知乎"@) == HotspotSource::Zhihu,
{
    reveal_strlit("微博");
    reveal_strlit("weibo");
    reveal_strlit("新浪微博");
    reveal_strlit("抖音");
    reveal_strlit("douyin");
    reveal_strlit("字节跳动");
    reveal_strlit("小红书");
    reveal_strlit("xiaohongshu");
    reveal_strlit("redbook");
    reveal_strlit("B站");
    reveal_strlit("bilibili");
    reveal_strlit("哔哩哔哩");
    reveal_strlit("头条");
    reveal_strlit("toutiao");
    reveal_strlit("今日头条");
    reveal_strlit("知乎");
    reveal_strlit("zhihu");
    reveal_strlit("zhihu.com");
    assert("微博"@.len() == 2);
    assert("weibo"@.len() == 5);
    assert("新浪微博"@.len() == 4);
    assert("抖音"@.len() == 2);
    assert("douyin"@.len() == 6);
    assert("字节跳动"@.len() == 4);
    assert("小红书"@.len() == 3);
    assert("xiaohongshu"@.len() == 11);
    assert("redbook"@.len() == 7);
    assert("B站"@.len() == 2);
    assert("bilibili"@.len() == 8);
    assert("哔哩哔哩"@.len() == 4);
    assert("头条"@.len() == 2);
    assert("toutiao"@.len() == 7);
    assert("今日头条"@.len() == 4);
    assert("知乎"@.len() == 2);
    assert("zhihu"@.len() == 5);
    assert("zhihu.com"@.len() == 9);
    assert("抖音"@[0] != "微博"@[0]);
    assert("B站"@[0] != "微博"@[0]);
    assert("B站"@[0] != "抖音"@[0]);
    assert("头条"@[0] != "微博"@[0]);
    assert("头条"@[0] != "抖音"@[0]);
    assert("头条"@[0] != "B站"@[0]);
    assert("知乎"@[0] != "微博"@[0]);
    assert("知乎"@[0] != "抖音"@[0]);
    assert("知乎"@[0] != "B站"@[0]);
    assert("知乎"@[0] != "头条"@[0]);
}

/// The source of a reply's source name.
pub fn source_from_name(s: &str) -> (r: HotspotSource)
    ensures
        r == source_named(s@),
{
    if str_eq(s, "微博") || str_eq(s, "weibo") || str_eq(s, "新浪微博") {
        HotspotSource::Weibo
    } else if str_eq(s, "抖音") || str_eq(s, "douyin") || str_eq(s, "字节跳动") {
        HotspotSource::Douyin
    } else if str_eq(s, "小红书") || str_eq(s, "xiaohongshu") || str_eq(s, "redbook") {
        HotspotSource::Xiaohongshu
    } else if str_eq(s, "B站") || str_eq(s, "bilibili") || str_eq(s, "哔哩哔哩") {
        HotspotSource::Bilibili
    } else if str_eq(s, "头条") || str_eq(s, "toutiao") || str_eq(s, "今日头条") {
        HotspotSource::Toutiao
    } else if str_eq(s, "知乎") || str_eq(s, "zhihu") || str_eq(s, "zhihu.com") {
        HotspotSource::Zhihu
    } else {
        HotspotSource::Weibo
    }
}

/// The calendar date that `chrono::NaiveDate::parse_from_str` reads from
/// `text` with the format `%Y-%m-%d`, or `None` where it refuses it.
pub uninterp spec fn ymd_date(text: Seq<char>) -> Option<CalendarDate>;

/// `chrono::NaiveDate::parse_from_str(text, "%Y-%m-%d")`, as year, month
/// and day.
#[verifier::external_body]
pub(crate) fn parse_ymd(text: &str) -> (r: Option<CalendarDate>)
    ensures
        r == ymd_date(text@),
{
    chrono::NaiveDate::parse_from_str(text, "%Y-%m-%d").ok().map(
        |d| CalendarDate { year: d.year(), month: d.month(), day: d.day() },
    )
}

/// The event date of a reply's `event_date`: the day itself for "今天",
/// else the date it spells.
pub open spec fn event_date_of(text: Option<Seq<char>>, today: CalendarDate) -> Option<CalendarDate> {
    match text {
        Some(t) => if t == TODAY_WORD@ {
            Some(today)
        } else {
            ymd_date(t)
        },
        None => None,
    }
}

/// The view of an optional string.
pub open spec fn opt_string_view(o: Option<String>) -> Option<Seq<char>> {
    match o {
        Some(s) => Some(s@),
        None => None,
    }
}

/// `h` is the hotspot read from the reply object `item`.
pub open spec fn llm_hotspot(h: Hotspot, item: Json, today: CalendarDate, now: i64) -> bool {
    &&& member_str(item, "title"@) == Some(h.title@)
    &&& h.hot_score == 0
    &&& h.source == source_named(
        match member_str(item, "source"@) {
            Some(s) => s,
            None => DEFAULT_SOURCE_NAME@,
        },
    )
    &&& h.url.is_none()
    &&& opt_string_view(h.category) == member_str(item, "snippet"@)
    &&& h.fetched_at == now
    &&& h.event_date == event_date_of(member_str(item, "event_date"@), today)
}

/// A reply object without a source counts as Weibo's, and one dated
/// "今天" happened on the day of the search.
pub proof fn lemma_reply_defaults(h: Hotspot, item: Json, today: CalendarDate, now: i64)
    requires
        llm_hotspot(h, item, today, now),
    ensures
        member_str(item, "source"@) is None ==> h.source == HotspotSource::Weibo,
        member_str(item, "event_date"@) == Some("今天"@) ==> h.event_date == Some(today),
{
    reveal_strlit("微博");
    reveal_strlit("今天");
}

/// The reply objects that carry a string `title`, in order.
pub open spec fn titled(items: Seq<Json>) -> Seq<Json>
    decreases items.len(),
{
    if items.len() == 0 {
        seq![]
    } else if member_str(items.last(), "title"@) is Some {
        titled(items.drop_last()).push(items.last())
    } else {
        titled(items.drop_last())
    }
}

/// `hs` are the hotspots read from the reply objects `items`.
pub open spec fn llm_hotspots(hs: Seq<Hotspot>, items: Seq<Json>, today: CalendarDate, now: i64) -> bool {
    let kept = titled(items);
    &&& hs.len() == kept.len()
    &&& forall|i: int| 0 <= i < hs.len() ==> #[trigger] llm_hotspot(hs[i], kept[i], today, now)
}

fn hotspot_of_item(item: &Json, today: CalendarDate, now: i64) -> (r: Option<Hotspot>)
    ensures
        match r {
            Some(h) => llm_hotspot(h, *item, today, now),
            None => member_str(*item, "title"@).is_none(),
        },
{
    let title = match member_string(item, "title") {
        Some(t) => t,
        None => {
            return None;
        },
    };
    let category = member_string(item, "snippet");
    let source = match item.get("source") {
        Some(v) => match v.as_str() {
            Some(s) => source_from_name(s),
            None => source_from_name(DEFAULT_SOURCE_NAME),
        },
        None => source_from_name(DEFAULT_SOURCE_NAME),
    };
    let event_date = match item.get("event_date") {
        Some(v) => match v.as_str() {
            Some(s) => if str_eq(s, TODAY_WORD) {
                Some(today)
            } else {
                parse_ymd(s)
            },
            None => None,
        },
        None => None,
    };
    Some(
        Hotspot {
            title,
            hot_score: 0,
            source,
            url: None,
            category,
            fetched_at: now,
            event_date,
        },
    )
}

/// The hotspots read from the reply objects: one for each object with a
/// string `title`, in order; `today` stands for "今天" and `now` is the
/// fetch time.
pub fn hotspots_from_llm_items(items: &Vec<Json>, today: CalendarDate, now: i64) -> (r: Vec<Hotspot>)
    ensures
        llm_hotspots(r@, items@, today, now),
{
    let mut out: Vec<Hotspot> = Vec::new();
    let mut i: usize = 0;
    while i < items.len()
        invariant
            i <= items.len(),
            llm_hotspots(out@, items@.take(i as int), today, now),
        decreases items.len() - i,
    {
        assert(items@.take(i + 1).drop_last() =~= items@.take(i as int));
        let h = hotspot_of_item(&items[i], today, now);
        match h {
            Some(h) => {
                out.push(h);
            },
            None => {},
        }
        i = i + 1;
    }
    assert(items@.take(items.len() as int) =~= items@);
    out
}

/// The topics a reply yields: none where no array can be recovered from
/// it, else one for each object with a string `title`.
pub open spec fn llm_reply_items(content: Seq<char>) -> Option<Seq<Json>> {
    match json_candidate(content) {
        None => None,
        Some(t) => recovered_items(t),
    }
}

/// The hotspots of a model's reply `content` to the search prompt.
pub fn hotspots_from_llm_content(content: &str, today: CalendarDate, now: i64) -> (r: Vec<Hotspot>)
    ensures
        match llm_reply_items(content@) {
            None => r@.len() == 0,
            Some(items) => llm_hotspots(r@, items, today, now),
        },
{
    let t = match clean_llm_content(content) {
        Some(t) => t,
        None => {
            return Vec::new();
        },
    };
    match recover_items(t.as_str()) {
        Some(items) => hotspots_from_llm_items(&items, today, now),
        None => Vec::new(),
    }
}

} // verus!
