use self_media::json::Json;
use self_media::publish::platforms::{
    bilibili_chunk_plan, wechat_draft_media, wechat_submit_body, wechat_submit_result, BILIBILI_CHUNK,
};
use self_media::publish::rate_limiter::RateLimiter;
use self_media::types::Platform;

fn obj(fields: Vec<(&str, Json)>) -> Json {
    Json::Object(fields.into_iter().map(|(k, v)| (k.to_string(), v)).collect())
}

fn text(t: &str) -> Json {
    Json::Str(t.to_string())
}

#[test]
fn wechat_draft_step_gives_the_media_id() {
    let doc = obj(vec![("media_id", text("m-1"))]);
    assert_eq!(wechat_draft_media(true, &doc).unwrap(), "m-1");
}

#[test]
fn wechat_draft_step_failure_is_the_result() {
    let doc = obj(vec![("errcode", Json::Number(self_media::json::JsonNumber::NegInt(-1))), ("errmsg", text("busy"))]);
    let r = wechat_draft_media(true, &doc).unwrap_err();
    assert_eq!(r.platform, Platform::WeChatOfficial);
    assert!(!r.success);
    assert_eq!(r.error_code.as_deref(), Some("-1"));
    assert_eq!(r.error_message.as_deref(), Some("busy"));
    let refused = wechat_draft_media(false, &obj(vec![("media_id", text("m-1"))])).unwrap_err();
    assert!(!refused.success);
    assert_eq!(refused.error_code, None);
    assert_eq!(refused.error_message.as_deref(), Some("微信公众号发布失败"));
}

#[test]
fn wechat_submit_body_names_the_draft() {
    let body = wechat_submit_body("m-1");
    assert_eq!(body.to_text(), "{\"media_id\":\"m-1\"}");
}

#[test]
fn wechat_publishes_only_after_the_submit_step() {
    let ok = wechat_submit_result(true, &obj(vec![("errcode", Json::Number(self_media::json::JsonNumber::PosInt(0))), ("publish_id", text("p-9"))]));
    assert!(ok.success);
    assert_eq!(ok.platform, Platform::WeChatOfficial);
    assert_eq!(ok.post_id.as_deref(), Some("p-9"));
    assert_eq!(ok.error_code, None);
    let failed = wechat_submit_result(true, &obj(vec![("errcode", Json::Number(self_media::json::JsonNumber::PosInt(48001))), ("errmsg", text("api unauthorized"))]));
    assert!(!failed.success);
    assert_eq!(failed.error_code.as_deref(), Some("48001"));
    assert_eq!(failed.error_message.as_deref(), Some("api unauthorized"));
}

#[test]
fn bilibili_pieces_cover_the_video_in_order() {
    let len = 2 * BILIBILI_CHUNK + 5;
    let plan = bilibili_chunk_plan(len, "u1", "c1");
    assert_eq!(plan.len(), 3);
    assert_eq!((plan[0].start, plan[0].end), (0, BILIBILI_CHUNK));
    assert_eq!((plan[1].start, plan[1].end), (BILIBILI_CHUNK, 2 * BILIBILI_CHUNK));
    assert_eq!((plan[2].start, plan[2].end), (2 * BILIBILI_CHUNK, len));
    assert_eq!(plan[2].file_name, "video_part_2");
    let fields: Vec<(&str, &str)> = plan[1].fields.iter().map(|(k, v)| (k.as_str(), v.as_str())).collect();
    assert_eq!(
        fields,
        vec![("chunk", "1"), ("chunks", "3"), ("filesize", "8388613"), ("upload_id", "u1"), ("csrf", "c1")]
    );
}

#[test]
fn bilibili_exact_and_empty_videos() {
    let plan = bilibili_chunk_plan(BILIBILI_CHUNK, "u", "c");
    assert_eq!(plan.len(), 1);
    assert_eq!((plan[0].start, plan[0].end), (0, BILIBILI_CHUNK));
    assert!(bilibili_chunk_plan(0, "u", "c").is_empty());
}

#[test]
fn every_limiter_caps_at_three() {
    let limiter = RateLimiter::new();
    assert!(limiter.can_publish(&Platform::Douyin, 0, 0).is_ok());
    let mut l = RateLimiter::new();
    for _ in 0..3 {
        l.record_publish_start(Platform::Douyin);
    }
    assert_eq!(
        l.can_publish(&Platform::Douyin, 0, 0).unwrap_err(),
        "平台 Douyin 并发请求数已达上限 (3/3)"
    );
}
