use self_media::hotspot::cache::HotspotCache;
use self_media::hotspot::llm_search::{
    clean_llm_content, hotspots_from_llm_content, recover_items, search_prompt, source_from_name,
};
use self_media::hotspot::rate_limiter::{SourceRateLimiter, SOURCE_MIN_INTERVAL_NANOS};
use self_media::hotspot::sources::{
    cache_is_fresh, rank_hotspots, weibo_hotspots, zhihu_hotspots, CACHE_TTL_NANOS,
};
use self_media::json::{Json, JsonNumber};
use self_media::types::{CalendarDate, Hotspot, HotspotSource};

fn hot(title: &str, score: u64) -> Hotspot {
    Hotspot {
        title: title.to_string(),
        hot_score: score,
        source: HotspotSource::Weibo,
        url: None,
        category: None,
        fetched_at: 0,
        event_date: None,
    }
}

fn obj(fields: Vec<(&str, Json)>) -> Json {
    Json::Object(fields.into_iter().map(|(k, v)| (k.to_string(), v)).collect())
}

fn s(text: &str) -> Json {
    Json::Str(text.to_string())
}

fn n(v: u64) -> Json {
    Json::Number(JsonNumber::PosInt(v))
}

const TODAY: CalendarDate = CalendarDate { year: 2025, month: 3, day: 14 };

#[test]
fn search_prompt_wraps_the_keyword() {
    let p = search_prompt("AI");
    assert!(p.starts_with("请搜索并推荐10个与关键词\"AI\"相关的最热门话题"));
}

#[test]
fn source_names_map_to_sources() {
    assert_eq!(source_from_name("抖音"), HotspotSource::Douyin);
    assert_eq!(source_from_name("redbook"), HotspotSource::Xiaohongshu);
    assert_eq!(source_from_name("哔哩哔哩"), HotspotSource::Bilibili);
    assert_eq!(source_from_name("今日头条"), HotspotSource::Toutiao);
    assert_eq!(source_from_name("zhihu.com"), HotspotSource::Zhihu);
    assert_eq!(source_from_name("somewhere"), HotspotSource::Weibo);
}

#[test]
fn reply_is_cleaned_of_fences_and_reasoning() {
    let reply = "```json\n[{\"title\":\"x\"}]\n```";
    assert_eq!(clean_llm_content(reply), Some("[{\"title\":\"x\"}]".to_string()));
}

#[test]
fn reply_without_array_yields_nothing() {
    assert_eq!(clean_llm_content("no topics today"), None);
    assert_eq!(clean_llm_content("[]"), None);
}

#[test]
fn reply_topics_become_hotspots() {
    let reply = "[{\"title\":\"新品发布\",\"source\":\"抖音\",\"snippet\":\"摘要\",\"event_date\":\"今天\"},{\"title\":\"旧闻\",\"event_date\":\"2024-12-01\"},{\"no_title\":1}]";
    let hs = hotspots_from_llm_content(reply, TODAY, 42);
    assert_eq!(hs.len(), 2);
    assert_eq!(hs[0].title, "新品发布");
    assert_eq!(hs[0].source, HotspotSource::Douyin);
    assert_eq!(hs[0].category, Some("摘要".to_string()));
    assert_eq!(hs[0].event_date, Some(TODAY));
    assert_eq!(hs[0].fetched_at, 42);
    assert_eq!(hs[0].hot_score, 0);
    assert_eq!(hs[1].source, HotspotSource::Weibo);
    assert_eq!(hs[1].event_date, Some(CalendarDate { year: 2024, month: 12, day: 1 }));
}

#[test]
fn reply_with_bad_date_keeps_topic_without_date() {
    let reply = "[{\"title\":\"t\",\"event_date\":\"someday\"}]";
    let hs = hotspots_from_llm_content(reply, TODAY, 1);
    assert_eq!(hs.len(), 1);
    assert_eq!(hs[0].event_date, None);
}

#[test]
fn unparseable_reply_yields_no_hotspots() {
    assert_eq!(hotspots_from_llm_content("sorry, I cannot help", TODAY, 1).len(), 0);
}

#[test]
fn truncated_array_is_recovered_up_to_its_balanced_end() {
    let items = recover_items("[{\"title\":\"a\"}] trailing words");
    assert_eq!(items.map(|v| v.len()), Some(1));
}

#[test]
fn ranking_sorts_by_score_and_drops_repeated_titles() {
    let ranked = rank_hotspots(vec![hot("a", 1), hot("b", 5), hot("b", 5), hot("c", 3)]);
    let titles: Vec<&str> = ranked.iter().map(|h| h.title.as_str()).collect();
    assert_eq!(titles, vec!["b", "c", "a"]);
}

#[test]
fn ranking_is_stable_for_equal_scores() {
    let ranked = rank_hotspots(vec![hot("x", 2), hot("y", 2), hot("z", 9)]);
    let titles: Vec<&str> = ranked.iter().map(|h| h.title.as_str()).collect();
    assert_eq!(titles, vec!["z", "x", "y"]);
    for w in ranked.windows(2) {
        assert!(w[0].hot_score >= w[1].hot_score);
    }
}

#[test]
fn cache_freshness_follows_the_lifetime() {
    assert!(!cache_is_fresh(None, 10));
    assert!(cache_is_fresh(Some(100), 100 + CACHE_TTL_NANOS - 1));
    assert!(!cache_is_fresh(Some(100), 100 + CACHE_TTL_NANOS));
    assert!(cache_is_fresh(Some(500), 100));
}

#[test]
fn source_limiter_spaces_requests_per_source() {
    let mut l = SourceRateLimiter::new();
    assert_eq!(l.wait_before(&HotspotSource::Weibo, 1_000), None);
    l.record_request(&HotspotSource::Weibo, 1_000);
    assert_eq!(l.wait_before(&HotspotSource::Weibo, 1_000), Some(SOURCE_MIN_INTERVAL_NANOS));
    assert_eq!(l.wait_before(&HotspotSource::Weibo, 1_000 + 10), Some(SOURCE_MIN_INTERVAL_NANOS - 10));
    assert_eq!(l.wait_before(&HotspotSource::Weibo, 1_000 + SOURCE_MIN_INTERVAL_NANOS), None);
    assert_eq!(l.wait_before(&HotspotSource::Zhihu, 1_000), None);
}

#[test]
fn weibo_rows_become_hotspots() {
    let doc = obj(vec![(
        "data",
        obj(vec![(
            "realtime",
            Json::Array(vec![
                obj(vec![("word", s("热搜一")), ("num", n(1200)), ("category", s("社会"))]),
                obj(vec![("word", s("热搜二"))]),
            ]),
        )]),
    )]);
    let hs = weibo_hotspots(&doc, 7);
    assert_eq!(hs.len(), 2);
    assert_eq!(hs[0].title, "热搜一");
    assert_eq!(hs[0].hot_score, 1200);
    assert_eq!(hs[0].source, HotspotSource::Weibo);
    assert_eq!(hs[0].fetched_at, 7);
    assert_eq!(hs[1].hot_score, 0);
}

#[test]
fn missing_rows_give_no_hotspots() {
    assert_eq!(weibo_hotspots(&Json::Null, 0).len(), 0);
    assert_eq!(zhihu_hotspots(&obj(vec![]), 0).len(), 0);
}

#[test]
fn cached_lists_are_served_while_fresh() {
    let mut c = HotspotCache::new();
    assert!(c.cached(&HotspotSource::Zhihu, 0).is_none());
    c.store(&HotspotSource::Zhihu, vec![hot("q", 3)], 1_000);
    let served = c.cached(&HotspotSource::Zhihu, 1_000 + CACHE_TTL_NANOS - 1).unwrap();
    assert_eq!(served.len(), 1);
    assert_eq!(served[0].title, "q");
    assert!(c.cached(&HotspotSource::Zhihu, 1_000 + CACHE_TTL_NANOS).is_none());
    assert!(c.cached(&HotspotSource::Weibo, 1_000).is_none());
}
