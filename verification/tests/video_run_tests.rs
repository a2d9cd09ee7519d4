use self_media::json::{Json, JsonNumber};
use self_media::publish::error::PublishError;
use self_media::publish::platforms::BILIBILI_CHUNK;
use self_media::publish::video_runs::{
    bilibili_video_start, bilibili_video_step, weibo_video_start, weibo_video_step, xiaohongshu_video_start,
    xiaohongshu_video_step, BilibiliVideo, VideoAction, VideoEvent, WeiboVideo, XiaohongshuVideo,
    BILIBILI_UPLOAD_INFO_URL, WEIBO_PUBLISH_VIDEO_URL, WEIBO_TOKEN_URL, WEIBO_UPLOAD_URL, XIAOHONGSHU_FEED_URL,
    XIAOHONGSHU_UPLOAD_VIDEO_URL,
};
use self_media::types::{Platform, VideoContent};

fn obj(fields: Vec<(&str, Json)>) -> Json {
    Json::Object(fields.into_iter().map(|(k, v)| (k.to_string(), v)).collect())
}

fn text(t: &str) -> Json {
    Json::Str(t.to_string())
}

fn video(cover: Option<&str>) -> VideoContent {
    VideoContent {
        title: "标题".to_string(),
        description: "描述".to_string(),
        video_path: "/tmp/v.mp4".to_string(),
        cover_image: cover.map(|c| c.to_string()),
        tags: vec!["旅行".to_string()],
    }
}

fn finished(a: VideoAction) -> Result<self_media::types::PublishResult, PublishError> {
    match a {
        VideoAction::Finish(r) => r,
        other => panic!("expected the end, got {:?}", other),
    }
}

#[test]
fn xiaohongshu_refuses_an_oversize_video_before_uploading() {
    let c = video(None);
    let (s, a) = xiaohongshu_video_start(&c);
    assert!(matches!(a, VideoAction::ReadVideo(ref p) if p == "/tmp/v.mp4"));
    let (s, a) = xiaohongshu_video_step(s, &c, VideoEvent::VideoRead(1024 * 1024 * 1024 + 1));
    assert!(matches!(s, XiaohongshuVideo::Done));
    let r = finished(a).unwrap();
    assert!(!r.success);
    assert_eq!(r.error_code.as_deref(), Some("SIZE_EXCEED"));
    assert_eq!(r.error_message.as_deref(), Some("视频大小超过1GB限制"));
}

#[test]
fn xiaohongshu_uploads_then_covers_then_creates_the_note() {
    let c = video(Some("/tmp/c.jpg"));
    let (s, _) = xiaohongshu_video_start(&c);
    let (s, a) = xiaohongshu_video_step(s, &c, VideoEvent::VideoRead(10));
    match a {
        VideoAction::UploadVideo { url, part, fields } => {
            assert_eq!(url, XIAOHONGSHU_UPLOAD_VIDEO_URL);
            assert_eq!(part, "file");
            assert_eq!(fields, vec![("usage".to_string(), "video".to_string())]);
        },
        other => panic!("unexpected: {:?}", other),
    }
    let reply = obj(vec![
        ("success", Json::Bool(true)),
        ("data", obj(vec![("url", text("http://v")), ("video_id", text("vid"))])),
    ]);
    let (s, a) = xiaohongshu_video_step(s, &c, VideoEvent::Replied(reply));
    assert!(matches!(a, VideoAction::UploadCover(ref p) if p == "/tmp/c.jpg"));
    let cover = obj(vec![("data", obj(vec![("url", text("http://c"))]))]);
    let (s, a) = xiaohongshu_video_step(s, &c, VideoEvent::CoverReply(Some(cover)));
    match &a {
        VideoAction::PostJson(url, body) => {
            assert_eq!(*url, XIAOHONGSHU_FEED_URL);
            let t = body.to_text();
            assert!(t.contains("\"video_id\":\"vid\""));
            assert!(t.contains("\"url\":\"http://c\""));
        },
        other => panic!("unexpected: {:?}", other),
    }
    let done = obj(vec![("success", Json::Bool(true)), ("data", obj(vec![("note_id", text("n1"))]))]);
    let (s, a) = xiaohongshu_video_step(s, &c, VideoEvent::Replied(done));
    assert!(matches!(s, XiaohongshuVideo::Done));
    let r = finished(a).unwrap();
    assert!(r.success);
    assert_eq!(r.platform, Platform::Xiaohongshu);
    assert_eq!(r.post_url.as_deref(), Some("https://www.xiaohongshu.com/explore/n1"));
}

#[test]
fn xiaohongshu_upload_failures() {
    let c = video(None);
    let (s, a) = xiaohongshu_video_step(XiaohongshuVideo::ReadingVideo, &c, VideoEvent::ReadFailed("gone".into()));
    assert!(matches!(s, XiaohongshuVideo::Done));
    assert!(matches!(finished(a), Err(PublishError::PlatformError(m)) if m == "读取视频文件失败: gone"));
    let (_, a) = xiaohongshu_video_step(
        XiaohongshuVideo::UploadingVideo,
        &c,
        VideoEvent::Replied(obj(vec![("success", Json::Bool(false))])),
    );
    assert_eq!(finished(a).unwrap().error_message.as_deref(), Some("视频上传失败"));
    let (_, a) = xiaohongshu_video_step(XiaohongshuVideo::CreatingNote, &c, VideoEvent::UnreadableReply("eof".into()));
    assert!(matches!(finished(a), Err(PublishError::Network(m)) if m == "eof"));
    let (_, a) = xiaohongshu_video_step(
        XiaohongshuVideo::UploadingVideo,
        &c,
        VideoEvent::Replied(obj(vec![("success", Json::Bool(true)), ("data", obj(vec![("url", text("u"))]))])),
    );
    assert!(matches!(finished(a), Err(PublishError::PlatformError(m)) if m == "未获取到视频ID"));
}

#[test]
fn weibo_gets_a_token_reads_uploads_and_publishes() {
    let c = video(None);
    let (s, a) = weibo_video_start();
    assert!(matches!(a, VideoAction::Get(u) if u == WEIBO_TOKEN_URL));
    let (s, a) = weibo_video_step(s, &c, VideoEvent::Replied(obj(vec![("upload_token", text("tk"))])));
    assert!(matches!(a, VideoAction::ReadVideo(_)));
    let (s, a) = weibo_video_step(s, &c, VideoEvent::VideoRead(100));
    match a {
        VideoAction::UploadVideo { url, part, fields } => {
            assert_eq!(url, WEIBO_UPLOAD_URL);
            assert_eq!(part, "video");
            let f: Vec<(&str, &str)> = fields.iter().map(|(k, v)| (k.as_str(), v.as_str())).collect();
            assert_eq!(f, vec![("upload_token", "tk"), ("title", "标题"), ("description", "描述")]);
        },
        other => panic!("unexpected: {:?}", other),
    }
    let up = obj(vec![("code", Json::Number(JsonNumber::PosInt(0))), ("video", obj(vec![("video_id", text("k1"))]))]);
    let (s, a) = weibo_video_step(s, &c, VideoEvent::Replied(up));
    match &a {
        VideoAction::PostJson(url, body) => {
            assert_eq!(*url, WEIBO_PUBLISH_VIDEO_URL);
            assert_eq!(body.to_text(), "{\"text\":\"描述\",\"topic_id\":\"旅行\",\"video_id\":\"k1\"}");
        },
        other => panic!("unexpected: {:?}", other),
    }
    let (s, a) = weibo_video_step(s, &c, VideoEvent::Replied(obj(vec![("ok", Json::Number(JsonNumber::PosInt(1))), ("mid", text("m9"))])));
    assert!(matches!(s, WeiboVideo::Done));
    let r = finished(a).unwrap();
    assert!(r.success);
    assert_eq!(r.post_url.as_deref(), Some("https://weibo.com/detail/m9"));
}

#[test]
fn weibo_refuses_an_oversize_video_before_uploading() {
    let c = video(None);
    let (s, a) = weibo_video_step(WeiboVideo::ReadingVideo { token: "tk".into() }, &c, VideoEvent::VideoRead(500 * 1024 * 1024 + 1));
    assert!(matches!(s, WeiboVideo::Done));
    assert_eq!(finished(a).unwrap().error_message.as_deref(), Some("视频大小超过500MB限制"));
    let (_, a) = weibo_video_step(WeiboVideo::GettingToken, &c, VideoEvent::Replied(obj(vec![])));
    assert!(matches!(finished(a), Err(PublishError::PlatformError(m)) if m == "无法获取上传令牌"));
    let (_, a) = weibo_video_step(
        WeiboVideo::UploadingVideo,
        &c,
        VideoEvent::Replied(obj(vec![("code", Json::Number(JsonNumber::NegInt(-3))), ("msg", text("bad"))])),
    );
    let r = finished(a).unwrap();
    assert_eq!(r.error_code.as_deref(), Some("-3"));
    assert_eq!(r.error_message.as_deref(), Some("bad"));
}

#[test]
fn bilibili_sends_every_piece_in_order() {
    let c = video(None);
    let (s, a) = bilibili_video_start(&c, "SESSDATA=x; bili_jct=tok", "uid".to_string());
    assert!(matches!(a, VideoAction::ReadVideo(_)));
    let size = BILIBILI_CHUNK + 7;
    let (s, a) = bilibili_video_step(s, &c, VideoEvent::VideoRead(size));
    assert!(matches!(a, VideoAction::Get(u) if u == BILIBILI_UPLOAD_INFO_URL));
    let (s, a) = bilibili_video_step(s, &c, VideoEvent::Replied(obj(vec![])));
    match a {
        VideoAction::UploadChunk(p) => {
            assert_eq!((p.start, p.end), (0, BILIBILI_CHUNK));
            assert_eq!(p.fields[4], ("csrf".to_string(), "tok".to_string()));
        },
        other => panic!("unexpected: {:?}", other),
    }
    let (s, a) = bilibili_video_step(s, &c, VideoEvent::Replied(obj(vec![])));
    match a {
        VideoAction::UploadChunk(p) => {
            assert_eq!((p.start, p.end), (BILIBILI_CHUNK, size));
            assert_eq!(p.file_name, "video_part_1");
        },
        other => panic!("unexpected: {:?}", other),
    }
    let (s, a) = bilibili_video_step(s, &c, VideoEvent::UnreadableReply("html".into()));
    assert!(matches!(s, BilibiliVideo::Done));
    let r = finished(a).unwrap();
    assert_eq!(r.post_id.as_deref(), Some("upload_uid"));
    assert_eq!(r.error_code.as_deref(), Some("NEED_SUBMIT"));
    assert_eq!(r.error_message.as_deref(), Some("视频上传成功(2个分片)，标题: 标题，但发布提交需进一步完善API"));
}

#[test]
fn bilibili_failures() {
    let c = video(None);
    let (s, a) = bilibili_video_start(&c, "SESSDATA=x", "uid".to_string());
    assert!(matches!(s, BilibiliVideo::Done));
    assert!(matches!(finished(a), Err(PublishError::CookieExpired(m)) if m == "缺少 bili_jct (CSRF Token)"));
    let state = BilibiliVideo::UploadingChunks { csrf: "t".into(), upload_id: "u".into(), size: 10, chunks: 1, next: 0 };
    let (_, a) = bilibili_video_step(state, &c, VideoEvent::SendFailed("reset".into()));
    assert!(matches!(finished(a), Err(PublishError::PlatformError(m)) if m == "分片 0 上传失败: reset"));
    let empty = BilibiliVideo::GettingUploadInfo { csrf: "t".into(), upload_id: "u".into(), size: 0 };
    let r = finished(bilibili_video_step(empty, &c, VideoEvent::Replied(obj(vec![]))).1).unwrap();
    assert_eq!(r.error_message.as_deref(), Some("视频上传成功(0个分片)，标题: 标题，但发布提交需进一步完善API"));
}
