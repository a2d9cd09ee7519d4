//! Reading the trending lists of each source out of its JSON response, and
//! ranking the lists of all sources together.
//!
//! A missing or mistyped field reads as its default: an empty title, a
//! score of zero (or, where the source ranks by position, a hundred per
//! place from the bottom), no link, no category.
use crate::json::{json_get, json_array, json_str, json_u64, json_i64, member_str, member_string, Json};
use crate::hotspot::llm_search::opt_string_view;
use crate::publish::rate_limiter::elapsed;
use crate::text::str_eq;
use crate::types::{Hotspot, HotspotSource};
use vstd::prelude::*;

verus! {

broadcast use vstd::string::group_string_axioms;

/// How long a source's list stays fresh: five minutes, in nanoseconds.
pub const CACHE_TTL_NANOS: u64 = 300_000_000_000;

/// The member `k` of `j`, where `j` is present.
pub open spec fn member(j: Option<Json>, k: Seq<char>) -> Option<Json> {
    match j {
        Some(v) => json_get(v, k),
        None => None,
    }
}

/// The array at `doc[k1][k2]`.
pub open spec fn array_at2(doc: Json, k1: Seq<char>, k2: Seq<char>) -> Option<Seq<Json>> {
    match member(json_get(doc, k1), k2) {
        Some(v) => json_array(v),
        None => None,
    }
}

/// The array at `doc[k]`.
pub open spec fn array_at(doc: Json, k: Seq<char>) -> Option<Seq<Json>> {
    match json_get(doc, k) {
        Some(v) => json_array(v),
        None => None,
    }
}

/// The rows of a response: those at the path, or none.
pub open spec fn rows_or_none(a: Option<Seq<Json>>) -> Seq<Json> {
    match a {
        Some(s) => s,
        None => seq![],
    }
}

/// The text of a string member, or the empty text.
pub open spec fn str_or_empty(j: Json, k: Seq<char>) -> Seq<char> {
    match member_str(j, k) {
        Some(s) => s,
        None => seq![],
    }
}

/// A non-negative integer member.
pub open spec fn member_u64(j: Json, k: Seq<char>) -> Option<u64> {
    match json_get(j, k) {
        Some(v) => json_u64(v),
        None => None,
    }
}

/// An integer member within `i64`.
pub open spec fn member_i64(j: Json, k: Seq<char>) -> Option<i64> {
    match json_get(j, k) {
        Some(v) => json_i64(v),
        None => None,
    }
}

/// The score of a row that ranks by position: the row's own score if it
/// has one, else a hundred for each place from the bottom.
pub open spec fn positional_score(own: Option<u64>, len: int, idx: int) -> u64 {
    match own {
        Some(n) => n,
        None => ((len - idx) * 100) as u64,
    }
}

fn member_u64_exec(j: &Json, k: &str) -> (r: Option<u64>)
    ensures
        r == member_u64(*j, k@),
{
    match j.get(k) {
        Some(v) => v.as_u64(),
        None => None,
    }
}

fn string_or_empty(j: &Json, k: &str) -> (r: String)
    ensures
        r@ == str_or_empty(*j, k@),
{
    match member_string(j, k) {
        Some(s) => s,
        None => String::new(),
    }
}

fn rows_at<'a>(doc: &'a Json, k: &str) -> (r: Option<&'a Vec<Json>>)
    ensures
        match r {
            Some(v) => array_at(*doc, k@) == Some(v@),
            None => array_at(*doc, k@).is_none(),
        },
{
    match doc.get(k) {
        Some(v) => v.as_array(),
        None => None,
    }
}

fn rows_at2<'a>(doc: &'a Json, k1: &str, k2: &str) -> (r: Option<&'a Vec<Json>>)
    ensures
        match r {
            Some(v) => array_at2(*doc, k1@, k2@) == Some(v@),
            None => array_at2(*doc, k1@, k2@).is_none(),
        },
{
    match doc.get(k1) {
        Some(d) => match d.get(k2) {
            Some(v) => v.as_array(),
            None => None,
        },
        None => None,
    }
}

// ---------------------------------------------------------------------
// Weibo
// ---------------------------------------------------------------------

/// `h` is the Weibo row `item`: `word`, `num`, `url`, `category`.
pub open spec fn weibo_row(h: Hotspot, item: Json, now: i64) -> bool {
    &&& h.title@ == str_or_empty(item, "word"@)
    &&& h.hot_score == (match member_u64(item, "num"@) { Some(n) => n, None => 0 })
    &&& h.source == HotspotSource::Weibo
    &&& opt_string_view(h.url) == member_str(item, "url"@)
    &&& opt_string_view(h.category) == member_str(item, "category"@)
    &&& h.fetched_at == now
    &&& h.event_date.is_none()
}

/// The rows of Weibo's hot-search response (`data.realtime`).
pub open spec fn weibo_rows(doc: Json) -> Seq<Json> {
    rows_or_none(array_at2(doc, "data"@, "realtime"@))
}

/// Weibo's hot searches, read from its response `doc` at time `now`.
pub fn weibo_hotspots(doc: &Json, now: i64) -> (r: Vec<Hotspot>)
    ensures
        r@.len() == weibo_rows(*doc).len(),
        forall|i: int| 0 <= i < r@.len() ==> #[trigger] weibo_row(r@[i], weibo_rows(*doc)[i], now),
{
    let mut out: Vec<Hotspot> = Vec::new();
    let data = match rows_at2(doc, "data", "realtime") {
        Some(d) => d,
        None => {
            return out;
        },
    };
    let mut i: usize = 0;
    while i < data.len()
        invariant
            i <= data.len(),
            data@ == weibo_rows(*doc),
            out@.len() == i,
            forall|k: int| 0 <= k < i ==> #[trigger] weibo_row(out@[k], data@[k], now),
        decreases data.len() - i,
    {
        let item = &data[i];
        let h = Hotspot {
            title: string_or_empty(item, "word"),
            hot_score: match member_u64_exec(item, "num") {
                Some(n) => n,
                None => 0,
            },
            source: HotspotSource::Weibo,
            url: member_string(item, "url"),
            category: member_string(item, "category"),
            fetched_at: now,
            event_date: None,
        };
        out.push(h);
        i = i + 1;
    }
    out
}

// ---------------------------------------------------------------------
// Bilibili
// ---------------------------------------------------------------------

/// `h` is the Bilibili row `item` at place `idx` of `len`.
pub open spec fn bilibili_row(h: Hotspot, item: Json, len: int, idx: int, now: i64) -> bool {
    &&& h.title@ == str_or_empty(item, "keyword"@)
    &&& h.hot_score == positional_score(member_u64(item, "hot_score"@), len, idx)
    &&& h.source == HotspotSource::Bilibili
    &&& h.url.is_none()
    &&& h.category.is_none()
    &&& h.fetched_at == now
    &&& h.event_date.is_none()
}

/// The rows of Bilibili's hot-word response (`data`).
pub open spec fn bilibili_rows(doc: Json) -> Seq<Json> {
    rows_or_none(array_at(doc, "data"@))
}

/// Bilibili's hot words, read from its response `doc` at time `now`.
pub fn bilibili_hotspots(doc: &Json, now: i64) -> (r: Vec<Hotspot>)
    requires
        bilibili_rows(*doc).len() * 100 <= u64::MAX,
    ensures
        r@.len() == bilibili_rows(*doc).len(),
        forall|i: int|
            0 <= i < r@.len() ==> #[trigger] bilibili_row(
                r@[i],
                bilibili_rows(*doc)[i],
                bilibili_rows(*doc).len() as int,
                i,
                now,
            ),
{
    let mut out: Vec<Hotspot> = Vec::new();
    let data = match rows_at(doc, "data") {
        Some(d) => d,
        None => {
            return out;
        },
    };
    let n = data.len();
    let mut i: usize = 0;
    while i < n
        invariant
            i <= n,
            n == data.len(),
            n * 100 <= u64::MAX,
            data@ == bilibili_rows(*doc),
            out@.len() == i,
            forall|k: int| 0 <= k < i ==> #[trigger] bilibili_row(out@[k], data@[k], n as int, k, now),
        decreases n - i,
    {
        let item = &data[i];
        let own = member_u64_exec(item, "hot_score");
        let score: u64 = match own {
            Some(s) => s,
            None => ((n - i) as u64) * 100,
        };
        let h = Hotspot {
            title: string_or_empty(item, "keyword"),
            hot_score: score,
            source: HotspotSource::Bilibili,
            url: None,
            category: None,
            fetched_at: now,
            event_date: None,
        };
        out.push(h);
        i = i + 1;
    }
    out
}

/// Bilibili's hot words rank by their place: of two rows without a score
/// of their own, the earlier one scores strictly higher, and the first of
/// `n` rows scores `n * 100`.
pub proof fn lemma_bilibili_scores_fall_with_place(doc: Json, hs: Seq<Hotspot>, now: i64, i: int, j: int)
    requires
        bilibili_rows(doc).len() * 100 <= u64::MAX,
        hs.len() == bilibili_rows(doc).len(),
        forall|k: int|
            0 <= k < hs.len() ==> #[trigger] bilibili_row(
                hs[k],
                bilibili_rows(doc)[k],
                bilibili_rows(doc).len() as int,
                k,
                now,
            ),
        0 <= i < j < hs.len(),
        member_u64(bilibili_rows(doc)[i], "hot_score"@) is None,
        member_u64(bilibili_rows(doc)[j], "hot_score"@) is None,
    ensures
        hs[i].hot_score > hs[j].hot_score,
        i == 0 ==> hs[i].hot_score == hs.len() * 100,
{
    let n = hs.len() as int;
    assert(bilibili_row(hs[i], bilibili_rows(doc)[i], n, i, now));
    assert(bilibili_row(hs[j], bilibili_rows(doc)[j], n, j, now));
    assert(0 < (n - i) * 100 <= u64::MAX) by (nonlinear_arith)
        requires
            0 <= i < n,
            n * 100 <= u64::MAX,
    ;
    assert(0 < (n - j) * 100 < (n - i) * 100) by (nonlinear_arith)
        requires
            0 <= i < j < n,
    ;
}

// ---------------------------------------------------------------------
// Douyin
// ---------------------------------------------------------------------

/// The category Douyin's `word_type` stands for.
pub open spec fn douyin_category(word_type: i64) -> Seq<char> {
    if word_type == 1 {
        "新词"@
    } else if word_type == 2 {
        "推荐"@
    } else if word_type == 3 {
        "热搜"@
    } else {
        "普通"@
    }
}

/// `h` is the Douyin row `item`: `word`, `hot_value`, `scheme`, `word_type`.
pub open spec fn douyin_row(h: Hotspot, item: Json, now: i64) -> bool {
    &&& h.title@ == str_or_empty(item, "word"@)
    &&& h.hot_score == (match member_u64(item, "hot_value"@) { Some(n) => n, None => 0 })
    &&& h.source == HotspotSource::Douyin
    &&& opt_string_view(h.url) == member_str(item, "scheme"@)
    &&& opt_string_view(h.category) == (match member_i64(item, "word_type"@) {
        Some(t) => Some(douyin_category(t)),
        None => None,
    })
    &&& h.fetched_at == now
    &&& h.event_date.is_none()
}

/// The rows of Douyin's hot-search response (`data.word_list`).
pub open spec fn douyin_rows(doc: Json) -> Seq<Json> {
    rows_or_none(array_at2(doc, "data"@, "word_list"@))
}

fn douyin_category_exec(t: i64) -> (r: String)
    ensures
        r@ == douyin_category(t),
{
    if t == 1 {
        "新词".to_owned()
    } else if t == 2 {
        "推荐".to_owned()
    } else if t == 3 {
        "热搜".to_owned()
    } else {
        "普通".to_owned()
    }
}

/// Douyin's hot searches, read from its response `doc` at time `now`.
pub fn douyin_hotspots(doc: &Json, now: i64) -> (r: Vec<Hotspot>)
    ensures
        r@.len() == douyin_rows(*doc).len(),
        forall|i: int| 0 <= i < r@.len() ==> #[trigger] douyin_row(r@[i], douyin_rows(*doc)[i], now),
{
    let mut out: Vec<Hotspot> = Vec::new();
    let data = match rows_at2(doc, "data", "word_list") {
        Some(d) => d,
        None => {
            return out;
        },
    };
    let mut i: usize = 0;
    while i < data.len()
        invariant
            i <= data.len(),
            data@ == douyin_rows(*doc),
            out@.len() == i,
            forall|k: int| 0 <= k < i ==> #[trigger] douyin_row(out@[k], data@[k], now),
        decreases data.len() - i,
    {
        let item = &data[i];
        let category = match item.get("word_type") {
            Some(v) => match v.as_i64() {
                Some(t) => Some(douyin_category_exec(t)),
                None => None,
            },
            None => None,
        };
        let h = Hotspot {
            title: string_or_empty(item, "word"),
            hot_score: match member_u64_exec(item, "hot_value") {
                Some(n) => n,
                None => 0,
            },
            source: HotspotSource::Douyin,
            url: member_string(item, "scheme"),
            category,
            fetched_at: now,
            event_date: None,
        };
        out.push(h);
        i = i + 1;
    }
    out
}

// ---------------------------------------------------------------------
// Zhihu
// ---------------------------------------------------------------------

/// The title of a Zhihu row: `target.title`, else `title`, else empty.
pub open spec fn zhihu_title(item: Json) -> Seq<char> {
    match member(json_get(item, "target"@), "title"@) {
        Some(t) if json_str(t) is Some => json_str(t).unwrap(),
        _ => str_or_empty(item, "title"@),
    }
}

/// `h` is the Zhihu row `item` at place `idx` of `len`.
pub open spec fn zhihu_row(h: Hotspot, item: Json, len: int, idx: int, now: i64) -> bool {
    &&& h.title@ == zhihu_title(item)
    &&& h.hot_score == positional_score(
        match member_u64(item, "score"@) {
            Some(n) => Some(n),
            None => member_u64(item, "hot_score"@),
        },
        len,
        idx,
    )
    &&& h.source == HotspotSource::Zhihu
    &&& opt_string_view(h.url) == member_str(item, "url"@)
    &&& opt_string_view(h.category) == member_str(item, "type"@)
    &&& h.fetched_at == now
    &&& h.event_date.is_none()
}

/// The rows of Zhihu's hot list (`data`).
pub open spec fn zhihu_rows(doc: Json) -> Seq<Json> {
    rows_or_none(array_at(doc, "data"@))
}

fn zhihu_title_exec(item: &Json) -> (r: String)
    ensures
        r@ == zhihu_title(*item),
{
    match item.get("target") {
        Some(t) => match member_string(t, "title") {
            Some(s) => {
                return s;
            },
            None => {},
        },
        None => {},
    }
    string_or_empty(item, "title")
}

/// Zhihu's hot list ranks by place: of two rows with neither `score` nor
/// `hot_score`, the earlier one scores strictly higher, and the first of
/// `n` rows scores `n * 100`.
pub proof fn lemma_zhihu_scores_fall_with_place(doc: Json, hs: Seq<Hotspot>, now: i64, i: int, j: int)
    requires
        zhihu_rows(doc).len() * 100 <= u64::MAX,
        hs.len() == zhihu_rows(doc).len(),
        forall|k: int|
            0 <= k < hs.len() ==> #[trigger] zhihu_row(hs[k], zhihu_rows(doc)[k], zhihu_rows(doc).len() as int, k, now),
        0 <= i < j < hs.len(),
        member_u64(zhihu_rows(doc)[i], "score"@) is None,
        member_u64(zhihu_rows(doc)[i], "hot_score"@) is None,
        member_u64(zhihu_rows(doc)[j], "score"@) is None,
        member_u64(zhihu_rows(doc)[j], "hot_score"@) is None,
    ensures
        hs[i].hot_score > hs[j].hot_score,
        i == 0 ==> hs[i].hot_score == hs.len() * 100,
{
    let n = hs.len() as int;
    assert(zhihu_row(hs[i], zhihu_rows(doc)[i], n, i, now));
    assert(zhihu_row(hs[j], zhihu_rows(doc)[j], n, j, now));
    assert(0 < (n - i) * 100 <= u64::MAX) by (nonlinear_arith)
        requires
            0 <= i < n,
            n * 100 <= u64::MAX,
    ;
    assert(0 < (n - j) * 100 < (n - i) * 100) by (nonlinear_arith)
        requires
            0 <= i < j < n,
    ;
}

/// Zhihu's hot list, read from its response `doc` at time `now`.
pub fn zhihu_hotspots(doc: &Json, now: i64) -> (r: Vec<Hotspot>)
    requires
        zhihu_rows(*doc).len() * 100 <= u64::MAX,
    ensures
        r@.len() == zhihu_rows(*doc).len(),
        forall|i: int|
            0 <= i < r@.len() ==> #[trigger] zhihu_row(
                r@[i],
                zhihu_rows(*doc)[i],
                zhihu_rows(*doc).len() as int,
                i,
                now,
            ),
{
    let mut out: Vec<Hotspot> = Vec::new();
    let data = match rows_at(doc, "data") {
        Some(d) => d,
        None => {
            return out;
        },
    };
    let n = data.len();
    let mut i: usize = 0;
    while i < n
        invariant
            i <= n,
            n == data.len(),
            n * 100 <= u64::MAX,
            data@ == zhihu_rows(*doc),
            out@.len() == i,
            forall|k: int| 0 <= k < i ==> #[trigger] zhihu_row(out@[k], data@[k], n as int, k, now),
        decreases n - i,
    {
        let item = &data[i];
        let own = match member_u64_exec(item, "score") {
            Some(s) => Some(s),
            None => member_u64_exec(item, "hot_score"),
        };
        let score: u64 = match own {
            Some(s) => s,
            None => ((n - i) as u64) * 100,
        };
        let h = Hotspot {
            title: zhihu_title_exec(item),
            hot_score: score,
            source: HotspotSource::Zhihu,
            url: member_string(item, "url"),
            category: member_string(item, "type"),
            fetched_at: now,
            event_date: None,
        };
        out.push(h);
        i = i + 1;
    }
    out
}

// ---------------------------------------------------------------------
// Toutiao and Xiaohongshu: rows without a title are left out
// ---------------------------------------------------------------------

/// `h` is the Toutiao row `item`: `title`, `go_detail_count`,
/// `article_url`, `tag`.
pub open spec fn toutiao_row(h: Hotspot, item: Json, now: i64) -> bool {
    &&& h.title@ == str_or_empty(item, "title"@)
    &&& h.hot_score == (match member_u64(item, "go_detail_count"@) { Some(n) => n, None => 0 })
    &&& h.source == HotspotSource::Toutiao
    &&& opt_string_view(h.url) == member_str(item, "article_url"@)
    &&& opt_string_view(h.category) == member_str(item, "tag"@)
    &&& h.fetched_at == now
    &&& h.event_date.is_none()
}

/// The Toutiao rows with a non-empty title, in order.
pub open spec fn toutiao_kept(items: Seq<Json>) -> Seq<Json>
    decreases items.len(),
{
    if items.len() == 0 {
        seq![]
    } else if str_or_empty(items.last(), "title"@).len() > 0 {
        toutiao_kept(items.drop_last()).push(items.last())
    } else {
        toutiao_kept(items.drop_last())
    }
}

/// The rows of Toutiao's feed response (`data`).
pub open spec fn toutiao_rows(doc: Json) -> Seq<Json> {
    rows_or_none(array_at(doc, "data"@))
}

/// Toutiao's hot feed, read from its response `doc` at time `now`.
pub fn toutiao_hotspots(doc: &Json, now: i64) -> (r: Vec<Hotspot>)
    ensures
        r@.len() == toutiao_kept(toutiao_rows(*doc)).len(),
        forall|i: int|
            0 <= i < r@.len() ==> #[trigger] toutiao_row(
                r@[i],
                toutiao_kept(toutiao_rows(*doc))[i],
                now,
            ),
{
    let mut out: Vec<Hotspot> = Vec::new();
    let data = match rows_at(doc, "data") {
        Some(d) => d,
        None => {
            return out;
        },
    };
    let mut i: usize = 0;
    while i < data.len()
        invariant
            i <= data.len(),
            data@ == toutiao_rows(*doc),
            out@.len() == toutiao_kept(data@.take(i as int)).len(),
            forall|k: int|
                0 <= k < out@.len() ==> #[trigger] toutiao_row(
                    out@[k],
                    toutiao_kept(data@.take(i as int))[k],
                    now,
                ),
        decreases data.len() - i,
    {
        assert(data@.take(i + 1).drop_last() =~= data@.take(i as int));
        let item = &data[i];
        let title = string_or_empty(item, "title");
        if !title.as_str().is_empty() {
            let h = Hotspot {
                title,
                hot_score: match member_u64_exec(item, "go_detail_count") {
                    Some(n) => n,
                    None => 0,
                },
                source: HotspotSource::Toutiao,
                url: member_string(item, "article_url"),
                category: member_string(item, "tag"),
                fetched_at: now,
                event_date: None,
            };
            out.push(h);
        }
        i = i + 1;
    }
    assert(data@.take(data.len() as int) =~= data@);
    out
}

/// The note card of a Xiaohongshu row, `Null` where it has none.
pub open spec fn note_card(item: Json) -> Json {
    match json_get(item, "note_card"@) {
        Some(c) => c,
        None => Json::Null,
    }
}

/// `h` is the Xiaohongshu row `item`: its note card's `title`,
/// `liked_count`, `share_url`, `type`.
pub open spec fn xiaohongshu_row(h: Hotspot, item: Json, now: i64) -> bool {
    let card = note_card(item);
    &&& h.title@ == str_or_empty(card, "title"@)
    &&& h.hot_score == (match member_u64(card, "liked_count"@) { Some(n) => n, None => 0 })
    &&& h.source == HotspotSource::Xiaohongshu
    &&& opt_string_view(h.url) == member_str(card, "share_url"@)
    &&& opt_string_view(h.category) == member_str(card, "type"@)
    &&& h.fetched_at == now
    &&& h.event_date.is_none()
}

/// The Xiaohongshu rows whose note card has a non-empty title, in order.
pub open spec fn xiaohongshu_kept(items: Seq<Json>) -> Seq<Json>
    decreases items.len(),
{
    if items.len() == 0 {
        seq![]
    } else if str_or_empty(note_card(items.last()), "title"@).len() > 0 {
        xiaohongshu_kept(items.drop_last()).push(items.last())
    } else {
        xiaohongshu_kept(items.drop_last())
    }
}

/// The rows of Xiaohongshu's note search response (`data.items`).
pub open spec fn xiaohongshu_rows(doc: Json) -> Seq<Json> {
    rows_or_none(array_at2(doc, "data"@, "items"@))
}

/// Xiaohongshu's trending notes, read from its response `doc` at `now`.
pub fn xiaohongshu_hotspots(doc: &Json, now: i64) -> (r: Vec<Hotspot>)
    ensures
        r@.len() == xiaohongshu_kept(xiaohongshu_rows(*doc)).len(),
        forall|i: int|
            0 <= i < r@.len() ==> #[trigger] xiaohongshu_row(
                r@[i],
                xiaohongshu_kept(xiaohongshu_rows(*doc))[i],
                now,
            ),
{
    let mut out: Vec<Hotspot> = Vec::new();
    let data = match rows_at2(doc, "data", "items") {
        Some(d) => d,
        None => {
            return out;
        },
    };
    let mut i: usize = 0;
    while i < data.len()
        invariant
            i <= data.len(),
            data@ == xiaohongshu_rows(*doc),
            out@.len() == xiaohongshu_kept(data@.take(i as int)).len(),
            forall|k: int|
                0 <= k < out@.len() ==> #[trigger] xiaohongshu_row(
                    out@[k],
                    xiaohongshu_kept(data@.take(i as int))[k],
                    now,
                ),
        decreases data.len() - i,
    {
        assert(data@.take(i + 1).drop_last() =~= data@.take(i as int));
        let item = &data[i];
        let (title, score, url, category) = match item.get("note_card") {
            Some(card) => (
                string_or_empty(card, "title"),
                match member_u64_exec(card, "liked_count") {
                    Some(n) => n,
                    None => 0,
                },
                member_string(card, "share_url"),
                member_string(card, "type"),
            ),
            None => (String::new(), 0, None, None),
        };
        if !title.as_str().is_empty() {
            let h = Hotspot {
                title,
                hot_score: score,
                source: HotspotSource::Xiaohongshu,
                url,
                category,
                fetched_at: now,
                event_date: None,
            };
            out.push(h);
        }
        i = i + 1;
    }
    assert(data@.take(data.len() as int) =~= data@);
    out
}

// ---------------------------------------------------------------------
// Caching and ranking
// ---------------------------------------------------------------------

/// A list fetched at `last_fetch` is still fresh at `now`: less than the
/// lifetime has passed (a list never fetched is not).
pub open spec fn cache_fresh(last_fetch: Option<u64>, now: u64) -> bool {
    match last_fetch {
        Some(last) => elapsed(last, now) < CACHE_TTL_NANOS,
        None => false,
    }
}

/// Whether a source's cached list, fetched at `last_fetch` (a monotonic
/// reading in nanoseconds), may still be served at `now`.
pub fn cache_is_fresh(last_fetch: Option<u64>, now: u64) -> (r: bool)
    ensures
        r == cache_fresh(last_fetch, now),
{
    match last_fetch {
        Some(last) => {
            let gone: u64 = if now >= last {
                now - last
            } else {
                0
            };
            gone < CACHE_TTL_NANOS
        },
        None => false,
    }
}

/// `x` inserted into `s` before the first item with a lower score: behind
/// every item of equal or higher score.
pub open spec fn insert_by_score(s: Seq<Hotspot>, x: Hotspot) -> Seq<Hotspot>
    decreases s.len(),
{
    if s.len() == 0 {
        seq![x]
    } else if s[0].hot_score < x.hot_score {
        seq![x] + s
    } else {
        seq![s[0]] + insert_by_score(s.drop_first(), x)
    }
}

/// `s` in order of falling score, items of equal score in their original
/// order (a stable sort).
pub open spec fn sort_by_score(s: Seq<Hotspot>) -> Seq<Hotspot>
    decreases s.len(),
{
    if s.len() == 0 {
        seq![]
    } else {
        insert_by_score(sort_by_score(s.drop_last()), s.last())
    }
}

/// `s` with each item dropped whose title equals that of the item kept
/// before it (runs of one title shrink to their first item).
pub open spec fn dedup_titles(s: Seq<Hotspot>) -> Seq<Hotspot>
    decreases s.len(),
{
    if s.len() == 0 {
        seq![]
    } else {
        let d = dedup_titles(s.drop_last());
        if d.len() > 0 && d.last().title@ == s.last().title@ {
            d
        } else {
            d.push(s.last())
        }
    }
}

/// The scores of `s` do not rise.
pub open spec fn score_descending(s: Seq<Hotspot>) -> bool {
    forall|i: int, j: int| 0 <= i < j < s.len() ==> s[i].hot_score >= s[j].hot_score
}

proof fn lemma_insert_position(s: Seq<Hotspot>, x: Hotspot, j: int)
    requires
        0 <= j <= s.len(),
        forall|k: int| 0 <= k < j ==> !(s[k].hot_score < x.hot_score),
        j == s.len() || s[j].hot_score < x.hot_score,
    ensures
        insert_by_score(s, x) == s.insert(j, x),
    decreases s.len(),
{
    if s.len() == 0 {
        assert(s.insert(j, x) =~= seq![x]);
    } else if j == 0 {
        assert(s.insert(0, x) =~= seq![x] + s);
    } else {
        let t = s.drop_first();
        assert forall|k: int| 0 <= k < j - 1 implies !(t[k].hot_score < x.hot_score) by {
            assert(t[k] == s[k + 1]);
        }
        lemma_insert_position(t, x, j - 1);
        assert(s.insert(j, x) =~= seq![s[0]] + t.insert(j - 1, x));
    }
}

proof fn lemma_insert_keeps_descending(s: Seq<Hotspot>, x: Hotspot)
    requires
        score_descending(s),
    ensures
        score_descending(insert_by_score(s, x)),
        insert_by_score(s, x).len() == s.len() + 1,
    decreases s.len(),
{
    if s.len() > 0 && !(s[0].hot_score < x.hot_score) {
        let t = s.drop_first();
        lemma_insert_keeps_descending(t, x);
        let r = insert_by_score(s, x);
        let rt = insert_by_score(t, x);
        assert(r == seq![s[0]] + rt);
        assert forall|i: int, j: int| 0 <= i < j < r.len() implies r[i].hot_score >= r[j].hot_score by {
            if i == 0 {
                lemma_insert_members(t, x, j - 1);
            }
        }
    }
}

proof fn lemma_insert_len(s: Seq<Hotspot>, x: Hotspot)
    ensures
        insert_by_score(s, x).len() == s.len() + 1,
    decreases s.len(),
{
    if s.len() > 0 && !(s[0].hot_score < x.hot_score) {
        lemma_insert_len(s.drop_first(), x);
    }
}

proof fn lemma_insert_members(s: Seq<Hotspot>, x: Hotspot, k: int)
    requires
        0 <= k < s.len() + 1,
    ensures
        insert_by_score(s, x).len() == s.len() + 1,
        insert_by_score(s, x)[k] == x || exists|m: int| 0 <= m < s.len() && insert_by_score(s, x)[k] == s[m],
    decreases s.len(),
{
    lemma_insert_len(s, x);
    if s.len() > 0 && !(s[0].hot_score < x.hot_score) {
        if k > 0 {
            lemma_insert_members(s.drop_first(), x, k - 1);
            let r = insert_by_score(s.drop_first(), x);
            if r[k - 1] != x {
                let m = choose|m: int| 0 <= m < s.len() - 1 && r[k - 1] == s.drop_first()[m];
                assert(insert_by_score(s, x)[k] == s[m + 1]);
            }
        } else {
            assert(insert_by_score(s, x)[0] == s[0]);
        }
    } else if s.len() > 0 {
        if k > 0 {
            assert(insert_by_score(s, x)[k] == s[k - 1]);
        }
    }
}

/// The stable sort by falling score leaves the scores in falling order.
pub proof fn lemma_sort_by_score_descending(s: Seq<Hotspot>)
    ensures
        score_descending(sort_by_score(s)),
        sort_by_score(s).len() == s.len(),
    decreases s.len(),
{
    if s.len() > 0 {
        lemma_sort_by_score_descending(s.drop_last());
        lemma_insert_keeps_descending(sort_by_score(s.drop_last()), s.last());
    }
}

proof fn lemma_insert_multiset(s: Seq<Hotspot>, x: Hotspot)
    ensures
        insert_by_score(s, x).to_multiset() =~= s.to_multiset().insert(x),
    decreases s.len(),
{
    broadcast use vstd::seq_lib::group_to_multiset_ensures;
    broadcast use vstd::multiset::group_multiset_axioms;

    if s.len() == 0 {
        assert(seq![x] =~= s.insert(0, x));
    } else if s[0].hot_score < x.hot_score {
        assert(seq![x] + s =~= s.insert(0, x));
    } else {
        let t = s.drop_first();
        lemma_insert_multiset(t, x);
        let r = insert_by_score(t, x);
        assert(seq![s[0]] + r =~= r.insert(0, s[0]));
        assert(s =~= t.insert(0, s[0]));
        assert(t.to_multiset().insert(x).insert(s[0]) =~= t.to_multiset().insert(s[0]).insert(x));
    }
}

/// Ranking's sort neither loses nor adds a topic: the sorted list holds
/// each topic as often as the list it sorts.
pub proof fn lemma_sort_by_score_permutes(s: Seq<Hotspot>)
    ensures
        sort_by_score(s).to_multiset() =~= s.to_multiset(),
    decreases s.len(),
{
    broadcast use vstd::seq_lib::group_to_multiset_ensures;

    if s.len() > 0 {
        lemma_sort_by_score_permutes(s.drop_last());
        lemma_insert_multiset(sort_by_score(s.drop_last()), s.last());
        assert(s =~= s.drop_last().push(s.last()));
    } else {
        assert(sort_by_score(s) =~= s);
    }
}

/// No two neighbours of the de-duplicated list share a title.
pub proof fn lemma_dedup_titles_distinct_neighbours(s: Seq<Hotspot>)
    ensures
        forall|i: int| 0 <= i < dedup_titles(s).len() - 1 ==> #[trigger] dedup_titles(s)[i].title@
            != dedup_titles(s)[i + 1].title@,
        dedup_titles(s).len() <= s.len(),
    decreases s.len(),
{
    if s.len() > 0 {
        lemma_dedup_titles_distinct_neighbours(s.drop_last());
    }
}

/// Dropping repeated titles keeps every title: each topic's title is the
/// title of a topic kept, and each topic kept is one of the list's.
pub proof fn lemma_dedup_titles_keeps_titles(s: Seq<Hotspot>)
    ensures
        forall|i: int|
            0 <= i < s.len() ==> exists|j: int|
                0 <= j < dedup_titles(s).len() && #[trigger] dedup_titles(s)[j].title@ == (
                #[trigger] s[i]).title@,
        forall|j: int| 0 <= j < dedup_titles(s).len() ==> s.contains(#[trigger] dedup_titles(s)[j]),
    decreases s.len(),
{
    if s.len() > 0 {
        let dl = s.drop_last();
        lemma_dedup_titles_keeps_titles(dl);
        let d = dedup_titles(dl);
        let r = dedup_titles(s);
        assert forall|i: int| 0 <= i < s.len() implies exists|j: int|
            0 <= j < r.len() && #[trigger] r[j].title@ == (#[trigger] s[i]).title@ by {
            if i < s.len() - 1 {
                assert(s[i] == dl[i]);
                let j = choose|j: int| 0 <= j < d.len() && #[trigger] d[j].title@ == dl[i].title@;
                assert(r[j] == d[j]);
                assert(r[j].title@ == s[i].title@);
            } else if d.len() > 0 && d.last().title@ == s.last().title@ {
                assert(r[d.len() - 1] == d.last());
                assert(r[d.len() - 1].title@ == s[i].title@);
            } else {
                assert(r[d.len() as int] == s.last());
                assert(r[d.len() as int].title@ == s[i].title@);
            }
        }
        assert forall|j: int| 0 <= j < r.len() implies s.contains(#[trigger] r[j]) by {
            if j < d.len() {
                assert(r[j] == d[j]);
                assert(dl.contains(d[j]));
                let k = choose|k: int| 0 <= k < dl.len() && dl[k] == d[j];
                assert(s[k] == dl[k]);
            } else {
                assert(r[j] == s.last());
                assert(s[s.len() - 1] == s.last());
            }
        }
    }
}

fn sort_by_score_exec(items: Vec<Hotspot>) -> (r: Vec<Hotspot>)
    ensures
        r@ == sort_by_score(items@),
{
    let ghost orig = items@;
    let total: usize = items.len();
    let mut rest = items;
    let mut out: Vec<Hotspot> = Vec::new();
    let mut n: usize = 0;
    while rest.len() > 0
        invariant
            orig.len() == total,
            n + rest@.len() == orig.len(),
            rest@ == orig.skip(n as int),
            out@ == sort_by_score(orig.take(n as int)),
        decreases rest@.len(),
    {
        let x = rest.remove(0);
        assert(x == orig[n as int]);
        assert(orig.take(n + 1).drop_last() =~= orig.take(n as int));
        let mut j: usize = 0;
        while j < out.len() && !(out[j].hot_score < x.hot_score)
            invariant
                j <= out.len(),
                forall|k: int| 0 <= k < j ==> !(#[trigger] out@[k].hot_score < x.hot_score),
            decreases out.len() - j,
        {
            j = j + 1;
        }
        proof {
            lemma_insert_position(out@, x, j as int);
        }
        out.insert(j, x);
        assert(rest@ =~= orig.skip(n + 1));
        n = n + 1;
    }
    assert(orig.take(n as int) =~= orig);
    out
}

fn dedup_titles_exec(items: Vec<Hotspot>) -> (r: Vec<Hotspot>)
    ensures
        r@ == dedup_titles(items@),
{
    let ghost orig = items@;
    let total: usize = items.len();
    let mut rest = items;
    let mut out: Vec<Hotspot> = Vec::new();
    let mut n: usize = 0;
    while rest.len() > 0
        invariant
            orig.len() == total,
            n + rest@.len() == orig.len(),
            rest@ == orig.skip(n as int),
            out@ == dedup_titles(orig.take(n as int)),
        decreases rest@.len(),
    {
        let x = rest.remove(0);
        assert(x == orig[n as int]);
        assert(orig.take(n + 1).drop_last() =~= orig.take(n as int));
        let same = out.len() > 0 && crate::text::str_eq(out[out.len() - 1].title.as_str(), x.title.as_str());
        if !same {
            out.push(x);
        }
        assert(rest@ =~= orig.skip(n + 1));
        n = n + 1;
    }
    assert(orig.take(n as int) =~= orig);
    out
}

/// All sources' topics together: in order of falling score (equal scores
/// keep their order), each run of one title reduced to its first topic.
pub fn rank_hotspots(all: Vec<Hotspot>) -> (r: Vec<Hotspot>)
    ensures
        r@ == dedup_titles(sort_by_score(all@)),
{
    let sorted = sort_by_score_exec(all);
    dedup_titles_exec(sorted)
}

/// Each source tags its topics with itself, stamps them with the time of
/// the fetch, and scores a row by its own count where it has one (Weibo
/// `num`, Douyin `hot_value`, Toutiao `go_detail_count`, Xiaohongshu the
/// note card's `liked_count`, Bilibili `hot_score`, Zhihu `score`).
pub proof fn lemma_rows_name_their_source(h: Hotspot, item: Json, len: int, idx: int, now: i64)
    ensures
        weibo_row(h, item, now) ==> h.source == HotspotSource::Weibo && h.fetched_at == now && (member_u64(
            item,
            "num"@,
        ) matches Some(n) ==> h.hot_score == n),
        douyin_row(h, item, now) ==> h.source == HotspotSource::Douyin && h.fetched_at == now && (
        member_u64(item, "hot_value"@) matches Some(n) ==> h.hot_score == n),
        toutiao_row(h, item, now) ==> h.source == HotspotSource::Toutiao && h.fetched_at == now && (
        member_u64(item, "go_detail_count"@) matches Some(n) ==> h.hot_score == n),
        xiaohongshu_row(h, item, now) ==> h.source == HotspotSource::Xiaohongshu && h.fetched_at == now
            && (member_u64(note_card(item), "liked_count"@) matches Some(n) ==> h.hot_score == n),
        bilibili_row(h, item, len, idx, now) ==> h.source == HotspotSource::Bilibili && h.fetched_at == now
            && (member_u64(item, "hot_score"@) matches Some(n) ==> h.hot_score == n),
        zhihu_row(h, item, len, idx, now) ==> h.source == HotspotSource::Zhihu && h.fetched_at == now && (
        member_u64(item, "score"@) matches Some(n) ==> h.hot_score == n),
{
}

/// Toutiao keeps exactly its rows with a title: every kept row has a
/// non-empty title and is a row of the feed, and no row with a title is
/// lost (as many are kept as have one).
pub proof fn lemma_toutiao_keeps_titled_rows(items: Seq<Json>)
    ensures
        forall|i: int|
            0 <= i < toutiao_kept(items).len() ==> str_or_empty(#[trigger] toutiao_kept(items)[i], "title"@).len()
                > 0 && items.contains(toutiao_kept(items)[i]),
        toutiao_kept(items).len() == items.filter(|x: Json| str_or_empty(x, "title"@).len() > 0).len(),
    decreases items.len(),
{
    reveal(Seq::filter);
    if items.len() > 0 {
        let d = items.drop_last();
        lemma_toutiao_keeps_titled_rows(d);
        assert forall|i: int| 0 <= i < toutiao_kept(items).len() implies str_or_empty(
            #[trigger] toutiao_kept(items)[i],
            "title"@,
        ).len() > 0 && items.contains(toutiao_kept(items)[i]) by {
            if i < toutiao_kept(d).len() {
                let x = toutiao_kept(d)[i];
                assert(toutiao_kept(items)[i] == x);
                let j = choose|j: int| 0 <= j < d.len() && d[j] == x;
                assert(items[j] == x);
            } else {
                assert(items[items.len() - 1] == items.last());
            }
        }
    }
}

/// Xiaohongshu keeps exactly its rows whose note card has a title: every
/// kept row has one and is a row of the response, and as many are kept as
/// have one.
pub proof fn lemma_xiaohongshu_keeps_titled_rows(items: Seq<Json>)
    ensures
        forall|i: int|
            0 <= i < xiaohongshu_kept(items).len() ==> str_or_empty(
                note_card(#[trigger] xiaohongshu_kept(items)[i]),
                "title"@,
            ).len() > 0 && items.contains(xiaohongshu_kept(items)[i]),
        xiaohongshu_kept(items).len() == items.filter(|x: Json| str_or_empty(note_card(x), "title"@).len() > 0).len(),
    decreases items.len(),
{
    reveal(Seq::filter);
    if items.len() > 0 {
        let d = items.drop_last();
        lemma_xiaohongshu_keeps_titled_rows(d);
        assert forall|i: int| 0 <= i < xiaohongshu_kept(items).len() implies str_or_empty(
            note_card(#[trigger] xiaohongshu_kept(items)[i]),
            "title"@,
        ).len() > 0 && items.contains(xiaohongshu_kept(items)[i]) by {
            if i < xiaohongshu_kept(d).len() {
                let x = xiaohongshu_kept(d)[i];
                assert(xiaohongshu_kept(items)[i] == x);
                let j = choose|j: int| 0 <= j < d.len() && d[j] == x;
                assert(items[j] == x);
            } else {
                assert(items[items.len() - 1] == items.last());
            }
        }
    }
}

} // verus!
