//! The order of the steps that publish a video to Xiaohongshu, Weibo and
//! Bilibili, each as a run: from its state and what came of the last
//! action, the next state and action.
//!
//! The caller performs each action (reading the video file, sending a
//! request) and reports what came of it as an event. A run ends with a
//! `Finish` action; an oversize video is refused as soon as its size is
//! known, before it is uploaded.
use crate::json::Json;
use crate::publish::error::PublishError;
use crate::publish::platforms::{
    bilibili_chunk, bilibili_chunk_count, bilibili_csrf, bilibili_video_result, bool_at, chunk_is,
    code_view, i64_at, or_text, pairs_view, result_is, str_at, str_at2, video_size_check,
    weibo_upload_token, weibo_video_body, weibo_video_id, weibo_video_outcome, weibo_video_post,
    weibo_video_result, xiaohongshu_cover_url, xiaohongshu_note_outcome, xiaohongshu_note_result,
    xiaohongshu_uploaded_video, xiaohongshu_video_body, xiaohongshu_video_note, ChunkRequest, Step,
    BILIBILI_CHUNK, WEIBO_VIDEO_MAX, XIAOHONGSHU_VIDEO_MAX,
};
use crate::text::{decimal, push_decimal, push_str, string_of};
use crate::types::{Platform, PublishResult, VideoContent};
use vstd::prelude::*;

verus! {

broadcast use vstd::string::group_string_axioms;

/// Where a Xiaohongshu video is uploaded.
pub const XIAOHONGSHU_UPLOAD_VIDEO_URL: &'static str = "https://edith.xiaohongshu.com/api/sns/web/v1/upload_video";

/// Where a Xiaohongshu note is created.
pub const XIAOHONGSHU_FEED_URL: &'static str = "https://edith.xiaohongshu.com/api/sns/web/v1/feed";

/// Where Weibo hands out an upload token for a video.
pub const WEIBO_TOKEN_URL: &'static str = "https://video.weibo.com/upload/get_upload_token.json?type=video";

/// Where a Weibo video is uploaded.
pub const WEIBO_UPLOAD_URL: &'static str = "https://video.weibo.com/upload/upload.json";

/// Where a Weibo video post is published.
pub const WEIBO_PUBLISH_VIDEO_URL: &'static str = "https://weibo.com/ajax/statuses/publish_video";

/// Where Bilibili is asked for upload information.
pub const BILIBILI_UPLOAD_INFO_URL: &'static str = "https://member.bilibili.com/x/vuclient/ajax/uploadinfo";

/// What the caller does next.
#[derive(Debug)]
pub enum VideoAction {
    /// Read the video file at this path and report its size.
    ReadVideo(String),
    /// Send a GET request to the address and report the reply.
    Get(&'static str),
    /// Upload the video file just read to `url` as the file part `part`
    /// (named `video.mp4`, type `video/mp4`), with these text fields.
    UploadVideo { url: &'static str, part: &'static str, fields: Vec<(String, String)> },
    /// Upload the cover image at this path (as `cover.jpg`, usage
    /// `image`) and report the reply, if any came.
    UploadCover(String),
    /// Send this piece of the video file just read.
    UploadChunk(ChunkRequest),
    /// Post the JSON body to the address and report the reply.
    PostJson(&'static str, Json),
    /// Stop with this outcome.
    Finish(Result<PublishResult, PublishError>),
}

/// What came of the last action.
#[derive(Debug)]
pub enum VideoEvent {
    /// The video file was read; its size in bytes.
    VideoRead(usize),
    /// The video file could not be read, with the error's text.
    ReadFailed(String),
    /// The request was answered with this JSON.
    Replied(Json),
    /// The request could not be sent, with the error's text.
    SendFailed(String),
    /// The reply was not JSON, with the error's text.
    UnreadableReply(String),
    /// The cover upload ended: its JSON reply, or none where it failed.
    CoverReply(Option<Json>),
}

/// The action uploads the video to `url` as `part` with the fields given.
pub open spec fn video_upload(a: VideoAction, url: Seq<char>, part: Seq<char>, fields: Seq<(Seq<char>, Seq<char>)>) -> bool {
    a matches VideoAction::UploadVideo { url: u, part: p, fields: f } && u@ == url && p@ == part
        && pairs_view(f@) == fields
}

/// The action stops with the platform error `m`.
pub open spec fn platform_failure(a: VideoAction, m: Seq<char>) -> bool {
    a matches VideoAction::Finish(Err(PublishError::PlatformError(t))) && t@ == m
}

/// The action stops with the network error `m`.
pub open spec fn network_failure(a: VideoAction, m: Seq<char>) -> bool {
    a matches VideoAction::Finish(Err(PublishError::Network(t))) && t@ == m
}

/// The action stops with the refusal of a video over the size limit.
pub open spec fn size_refusal(a: VideoAction, p: Platform, message: Seq<char>) -> bool {
    a matches VideoAction::Finish(Ok(res)) && result_is(res, p, false, None, None, Some("SIZE_EXCEED"@), Some(message))
}

/// The request is answered: a reply, a send failure or an unreadable reply.
pub open spec fn is_reply(e: VideoEvent) -> bool {
    e is Replied || e is SendFailed || e is UnreadableReply
}

/// The file was read, or could not be.
pub open spec fn is_read(e: VideoEvent) -> bool {
    e is VideoRead || e is ReadFailed
}

fn platform_error(prefix: &str, e: &str) -> (r: VideoAction)
    ensures
        platform_failure(r, prefix@ + e@),
{
    let mut out: Vec<char> = Vec::new();
    push_str(&mut out, prefix);
    push_str(&mut out, e);
    VideoAction::Finish(Err(PublishError::PlatformError(string_of(&out))))
}

fn pair(k: &str, v: &str) -> (r: (String, String))
    ensures
        r.0@ == k@,
        r.1@ == v@,
{
    (k.to_owned(), v.to_owned())
}

// ---------------------------------------------------------------------
// Xiaohongshu
// ---------------------------------------------------------------------

/// Where a Xiaohongshu video publication stands.
#[derive(Debug)]
pub enum XiaohongshuVideo {
    /// The video file is being read.
    ReadingVideo,
    /// The video is being uploaded.
    UploadingVideo,
    /// The cover is being uploaded, for the uploaded video.
    UploadingCover { video_id: String, video_url: String },
    /// The note is being created.
    CreatingNote,
    /// Nothing more.
    Done,
}

/// The event is one the state waits for.
pub open spec fn xiaohongshu_expects(s: XiaohongshuVideo, e: VideoEvent) -> bool {
    match s {
        XiaohongshuVideo::ReadingVideo => is_read(e),
        XiaohongshuVideo::UploadingVideo => is_reply(e),
        XiaohongshuVideo::UploadingCover { .. } => e is CoverReply,
        XiaohongshuVideo::CreatingNote => is_reply(e),
        XiaohongshuVideo::Done => false,
    }
}

/// A Xiaohongshu video publication starts by reading the video file.
pub fn xiaohongshu_video_start(content: &VideoContent) -> (r: (XiaohongshuVideo, VideoAction))
    ensures
        r.0 is ReadingVideo,
        r.1 matches VideoAction::ReadVideo(p) && p@ == content.video_path@,
{
    (XiaohongshuVideo::ReadingVideo, VideoAction::ReadVideo(content.video_path.clone()))
}

/// The next step of a Xiaohongshu video publication: the file is read and
/// refused over 1 GiB; the video is uploaded; the cover, where there is
/// one, is uploaded (its failure only leaves the note without cover); the
/// note is created.
pub fn xiaohongshu_video_step(state: XiaohongshuVideo, content: &VideoContent, event: VideoEvent) -> (r: (XiaohongshuVideo, VideoAction))
    requires
        xiaohongshu_expects(state, event),
    ensures
        match (state, event) {
            (XiaohongshuVideo::ReadingVideo, VideoEvent::VideoRead(n)) => if n > XIAOHONGSHU_VIDEO_MAX {
                r.0 is Done && size_refusal(r.1, Platform::Xiaohongshu, "视频大小超过1GB限制"@)
            } else {
                r.0 is UploadingVideo && video_upload(
                    r.1,
                    XIAOHONGSHU_UPLOAD_VIDEO_URL@,
                    "file"@,
                    seq![("usage"@, "video"@)],
                )
            },
            (XiaohongshuVideo::ReadingVideo, VideoEvent::ReadFailed(m)) => r.0 is Done && platform_failure(
                r.1,
                "读取视频文件失败: "@ + m@,
            ),
            (XiaohongshuVideo::UploadingVideo, VideoEvent::Replied(doc)) => if bool_at(doc, "success"@)
                != Some(true) {
                r.0 is Done && (r.1 matches VideoAction::Finish(Ok(res)) && result_is(
                    res,
                    Platform::Xiaohongshu,
                    false,
                    None,
                    None,
                    None,
                    Some(or_text(str_at(doc, "msg"@), "视频上传失败"@)),
                ))
            } else {
                match (str_at2(doc, "data"@, "url"@), str_at2(doc, "data"@, "video_id"@)) {
                    (None, _) => r.0 is Done && platform_failure(r.1, "未获取到视频URL"@),
                    (Some(_), None) => r.0 is Done && platform_failure(r.1, "未获取到视频ID"@),
                    (Some(u), Some(v)) => match content.cover_image {
                        Some(c) => (r.0 matches XiaohongshuVideo::UploadingCover { video_id, video_url }
                            && video_id@ == v && video_url@ == u) && (r.1 matches VideoAction::UploadCover(p)
                            && p@ == c@),
                        None => r.0 is CreatingNote && (r.1 matches VideoAction::PostJson(url, body) && url@
                            == XIAOHONGSHU_FEED_URL@ && xiaohongshu_video_note(body, *content, v, u, None)),
                    },
                }
            },
            (XiaohongshuVideo::UploadingVideo, VideoEvent::SendFailed(m)) => r.0 is Done && platform_failure(
                r.1,
                "视频上传失败: "@ + m@,
            ),
            (XiaohongshuVideo::UploadingVideo, VideoEvent::UnreadableReply(m)) => r.0 is Done
                && platform_failure(r.1, "解析上传响应失败: "@ + m@),
            (XiaohongshuVideo::UploadingCover { video_id, video_url }, VideoEvent::CoverReply(reply)) => r.0 is CreatingNote
                && (r.1 matches VideoAction::PostJson(url, body) && url@ == XIAOHONGSHU_FEED_URL@
                && xiaohongshu_video_note(
                body,
                *content,
                video_id@,
                video_url@,
                match reply {
                    Some(d) => str_at2(d, "data"@, "url"@),
                    None => None,
                },
            )),
            (XiaohongshuVideo::CreatingNote, VideoEvent::Replied(doc)) => r.0 is Done && (r.1 matches VideoAction::Finish(Ok(res))
                && xiaohongshu_note_outcome(res, doc, None)),
            (XiaohongshuVideo::CreatingNote, VideoEvent::SendFailed(m)) => r.0 is Done && platform_failure(
                r.1,
                "发布失败: "@ + m@,
            ),
            (XiaohongshuVideo::CreatingNote, VideoEvent::UnreadableReply(m)) => r.0 is Done
                && network_failure(r.1, m@),
            _ => true,
        },
{
    match state {
        XiaohongshuVideo::ReadingVideo => match event {
            VideoEvent::VideoRead(n) => match video_size_check(Platform::Xiaohongshu, n) {
                Some(res) => (XiaohongshuVideo::Done, VideoAction::Finish(Ok(res))),
                None => {
                    let fields = vec![pair("usage", "video")];
                    proof {
                        assert(pairs_view(fields@) =~= seq![("usage"@, "video"@)]);
                    }
                    (
                        XiaohongshuVideo::UploadingVideo,
                        VideoAction::UploadVideo { url: XIAOHONGSHU_UPLOAD_VIDEO_URL, part: "file", fields },
                    )
                },
            },
            VideoEvent::ReadFailed(m) => (XiaohongshuVideo::Done, platform_error("读取视频文件失败: ", m.as_str())),
            _ => (XiaohongshuVideo::Done, platform_error("", "")),
        },
        XiaohongshuVideo::UploadingVideo => match event {
            VideoEvent::Replied(doc) => match xiaohongshu_uploaded_video(&doc) {
                Ok(Step::Stop(res)) => (XiaohongshuVideo::Done, VideoAction::Finish(Ok(res))),
                Err(e) => (XiaohongshuVideo::Done, VideoAction::Finish(Err(e))),
                Ok(Step::Next((u, v))) => match &content.cover_image {
                    Some(c) => (
                        XiaohongshuVideo::UploadingCover { video_id: v, video_url: u },
                        VideoAction::UploadCover(c.clone()),
                    ),
                    None => {
                        let body = xiaohongshu_video_body(content, v.as_str(), u.as_str(), None);
                        (XiaohongshuVideo::CreatingNote, VideoAction::PostJson(XIAOHONGSHU_FEED_URL, body))
                    },
                },
            },
            VideoEvent::SendFailed(m) => (XiaohongshuVideo::Done, platform_error("视频上传失败: ", m.as_str())),
            VideoEvent::UnreadableReply(m) => (
                XiaohongshuVideo::Done,
                platform_error("解析上传响应失败: ", m.as_str()),
            ),
            _ => (XiaohongshuVideo::Done, platform_error("", "")),
        },
        XiaohongshuVideo::UploadingCover { video_id, video_url } => {
            let cover = match &event {
                VideoEvent::CoverReply(Some(d)) => xiaohongshu_cover_url(d),
                _ => None,
            };
            let body = xiaohongshu_video_body(content, video_id.as_str(), video_url.as_str(), cover);
            (XiaohongshuVideo::CreatingNote, VideoAction::PostJson(XIAOHONGSHU_FEED_URL, body))
        },
        XiaohongshuVideo::CreatingNote => match event {
            VideoEvent::Replied(doc) => (
                XiaohongshuVideo::Done,
                VideoAction::Finish(Ok(xiaohongshu_note_result(&doc, None))),
            ),
            VideoEvent::SendFailed(m) => (XiaohongshuVideo::Done, platform_error("发布失败: ", m.as_str())),
            VideoEvent::UnreadableReply(m) => (XiaohongshuVideo::Done, VideoAction::Finish(Err(PublishError::Network(m)))),
            _ => (XiaohongshuVideo::Done, platform_error("", "")),
        },
        XiaohongshuVideo::Done => (XiaohongshuVideo::Done, platform_error("", "")),
    }
}

// ---------------------------------------------------------------------
// Weibo
// ---------------------------------------------------------------------

/// Where a Weibo video publication stands.
#[derive(Debug)]
pub enum WeiboVideo {
    /// The upload token is being fetched.
    GettingToken,
    /// The video file is being read, with the upload token.
    ReadingVideo { token: String },
    /// The video is being uploaded.
    UploadingVideo,
    /// The post is being published.
    Publishing,
    /// Nothing more.
    Done,
}

/// The event is one the state waits for.
pub open spec fn weibo_expects(s: WeiboVideo, e: VideoEvent) -> bool {
    match s {
        WeiboVideo::GettingToken => is_reply(e),
        WeiboVideo::ReadingVideo { .. } => is_read(e),
        WeiboVideo::UploadingVideo => is_reply(e),
        WeiboVideo::Publishing => is_reply(e),
        WeiboVideo::Done => false,
    }
}

/// A Weibo video publication starts by fetching an upload token.
pub fn weibo_video_start() -> (r: (WeiboVideo, VideoAction))
    ensures
        r.0 is GettingToken,
        r.1 matches VideoAction::Get(u) && u@ == WEIBO_TOKEN_URL@,
{
    (WeiboVideo::GettingToken, VideoAction::Get(WEIBO_TOKEN_URL))
}

/// The next step of a Weibo video publication: the upload token is
/// fetched; the file is read and refused over 500 MiB; the video is
/// uploaded with the token, title and description; the post is published.
pub fn weibo_video_step(state: WeiboVideo, content: &VideoContent, event: VideoEvent) -> (r: (WeiboVideo, VideoAction))
    requires
        weibo_expects(state, event),
    ensures
        match (state, event) {
            (WeiboVideo::GettingToken, VideoEvent::Replied(doc)) => match str_at(doc, "upload_token"@) {
                Some(t) => (r.0 matches WeiboVideo::ReadingVideo { token } && token@ == t) && (r.1 matches VideoAction::ReadVideo(p)
                    && p@ == content.video_path@),
                None => r.0 is Done && platform_failure(r.1, "无法获取上传令牌"@),
            },
            (WeiboVideo::GettingToken, VideoEvent::SendFailed(m)) => r.0 is Done && network_failure(r.1, m@),
            (WeiboVideo::GettingToken, VideoEvent::UnreadableReply(m)) => r.0 is Done && platform_failure(
                r.1,
                "获取上传令牌失败: "@ + m@,
            ),
            (WeiboVideo::ReadingVideo { token }, VideoEvent::VideoRead(n)) => if n > WEIBO_VIDEO_MAX {
                r.0 is Done && size_refusal(r.1, Platform::Weibo, "视频大小超过500MB限制"@)
            } else {
                r.0 is UploadingVideo && video_upload(
                    r.1,
                    WEIBO_UPLOAD_URL@,
                    "video"@,
                    seq![("upload_token"@, token@), ("title"@, content.title@), ("description"@, content.description@)],
                )
            },
            (WeiboVideo::ReadingVideo { .. }, VideoEvent::ReadFailed(m)) => r.0 is Done && platform_failure(
                r.1,
                "读取视频文件失败: "@ + m@,
            ),
            (WeiboVideo::UploadingVideo, VideoEvent::Replied(doc)) => if i64_at(doc, "code"@) != Some(0i64) {
                r.0 is Done && (r.1 matches VideoAction::Finish(Ok(res)) && result_is(
                    res,
                    Platform::Weibo,
                    false,
                    None,
                    None,
                    code_view(i64_at(doc, "code"@)),
                    Some(or_text(str_at(doc, "msg"@), "视频上传失败"@)),
                ))
            } else {
                match str_at2(doc, "video"@, "video_id"@) {
                    Some(v) => r.0 is Publishing && (r.1 matches VideoAction::PostJson(url, body) && url@
                        == WEIBO_PUBLISH_VIDEO_URL@ && weibo_video_post(body, *content, v)),
                    None => r.0 is Done && platform_failure(r.1, "未获取到视频ID"@),
                }
            },
            (WeiboVideo::UploadingVideo, VideoEvent::SendFailed(m)) => r.0 is Done && platform_failure(
                r.1,
                "视频上传失败: "@ + m@,
            ),
            (WeiboVideo::UploadingVideo, VideoEvent::UnreadableReply(m)) => r.0 is Done && platform_failure(
                r.1,
                "解析上传响应失败: "@ + m@,
            ),
            (WeiboVideo::Publishing, VideoEvent::Replied(doc)) => r.0 is Done && (r.1 matches VideoAction::Finish(Ok(res))
                && weibo_video_outcome(res, doc)),
            (WeiboVideo::Publishing, VideoEvent::SendFailed(m)) => r.0 is Done && platform_failure(
                r.1,
                "发布失败: "@ + m@,
            ),
            (WeiboVideo::Publishing, VideoEvent::UnreadableReply(m)) => r.0 is Done && network_failure(r.1, m@),
            _ => true,
        },
{
    match state {
        WeiboVideo::GettingToken => match event {
            VideoEvent::Replied(doc) => match weibo_upload_token(&doc) {
                Ok(token) => (WeiboVideo::ReadingVideo { token }, VideoAction::ReadVideo(content.video_path.clone())),
                Err(e) => (WeiboVideo::Done, VideoAction::Finish(Err(e))),
            },
            VideoEvent::SendFailed(m) => (WeiboVideo::Done, VideoAction::Finish(Err(PublishError::Network(m)))),
            VideoEvent::UnreadableReply(m) => (WeiboVideo::Done, platform_error("获取上传令牌失败: ", m.as_str())),
            _ => (WeiboVideo::Done, platform_error("", "")),
        },
        WeiboVideo::ReadingVideo { token } => match event {
            VideoEvent::VideoRead(n) => match video_size_check(Platform::Weibo, n) {
                Some(res) => (WeiboVideo::Done, VideoAction::Finish(Ok(res))),
                None => {
                    let fields = vec![
                        pair("upload_token", token.as_str()),
                        pair("title", content.title.as_str()),
                        pair("description", content.description.as_str()),
                    ];
                    proof {
                        assert(pairs_view(fields@) =~= seq![
                            ("upload_token"@, token@),
                            ("title"@, content.title@),
                            ("description"@, content.description@),
                        ]);
                    }
                    (WeiboVideo::UploadingVideo, VideoAction::UploadVideo { url: WEIBO_UPLOAD_URL, part: "video", fields })
                },
            },
            VideoEvent::ReadFailed(m) => (WeiboVideo::Done, platform_error("读取视频文件失败: ", m.as_str())),
            _ => (WeiboVideo::Done, platform_error("", "")),
        },
        WeiboVideo::UploadingVideo => match event {
            VideoEvent::Replied(doc) => match weibo_video_id(&doc) {
                Ok(Step::Stop(res)) => (WeiboVideo::Done, VideoAction::Finish(Ok(res))),
                Ok(Step::Next(v)) => {
                    let body = weibo_video_body(content, v.as_str());
                    (WeiboVideo::Publishing, VideoAction::PostJson(WEIBO_PUBLISH_VIDEO_URL, body))
                },
                Err(e) => (WeiboVideo::Done, VideoAction::Finish(Err(e))),
            },
            VideoEvent::SendFailed(m) => (WeiboVideo::Done, platform_error("视频上传失败: ", m.as_str())),
            VideoEvent::UnreadableReply(m) => (WeiboVideo::Done, platform_error("解析上传响应失败: ", m.as_str())),
            _ => (WeiboVideo::Done, platform_error("", "")),
        },
        WeiboVideo::Publishing => match event {
            VideoEvent::Replied(doc) => (WeiboVideo::Done, VideoAction::Finish(Ok(weibo_video_result(&doc)))),
            VideoEvent::SendFailed(m) => (WeiboVideo::Done, platform_error("发布失败: ", m.as_str())),
            VideoEvent::UnreadableReply(m) => (WeiboVideo::Done, VideoAction::Finish(Err(PublishError::Network(m)))),
            _ => (WeiboVideo::Done, platform_error("", "")),
        },
        WeiboVideo::Done => (WeiboVideo::Done, platform_error("", "")),
    }
}

// ---------------------------------------------------------------------
// Bilibili
// ---------------------------------------------------------------------

/// Where a Bilibili video upload stands.
#[derive(Debug)]
pub enum BilibiliVideo {
    /// The video file is being read.
    ReadingVideo { csrf: String, upload_id: String },
    /// Upload information is being asked for, for a video of `size` bytes.
    GettingUploadInfo { csrf: String, upload_id: String, size: usize },
    /// Piece `next` of `chunks` is being sent.
    UploadingChunks { csrf: String, upload_id: String, size: usize, chunks: usize, next: usize },
    /// Nothing more.
    Done,
}

/// The number of 4 MiB pieces of a video of `size` bytes.
pub open spec fn chunk_count(size: nat) -> int {
    (size + BILIBILI_CHUNK - 1) / (BILIBILI_CHUNK as int)
}

/// The event is one the state waits for (a video size that leaves room to
/// count its pieces).
pub open spec fn bilibili_expects(s: BilibiliVideo, e: VideoEvent) -> bool {
    match s {
        BilibiliVideo::ReadingVideo { .. } => is_read(e) && (e matches VideoEvent::VideoRead(n) ==> n
            + BILIBILI_CHUNK <= usize::MAX),
        BilibiliVideo::GettingUploadInfo { size, .. } => is_reply(e) && size + BILIBILI_CHUNK <= usize::MAX,
        BilibiliVideo::UploadingChunks { size, chunks, next, .. } => {
            &&& is_reply(e)
            &&& size + BILIBILI_CHUNK <= usize::MAX
            &&& chunks == chunk_count(size as nat)
            &&& next < chunks
        },
        BilibiliVideo::Done => false,
    }
}

/// `res` is the result of an uploaded Bilibili video: marked successful
/// with the upload id, but flagged as still to be submitted.
pub open spec fn bilibili_uploaded(res: PublishResult, upload_id: Seq<char>, chunks: nat, title: Seq<char>) -> bool {
    result_is(
        res,
        Platform::Bilibili,
        true,
        Some("upload_"@ + upload_id),
        None,
        Some("NEED_SUBMIT"@),
        Some("视频上传成功("@ + decimal(chunks) + "个分片)，标题: "@ + title + "，但发布提交需进一步完善API"@),
    )
}

/// A Bilibili video upload under the login `cookies` and the fresh
/// `upload_id` starts by reading the video file; without a CSRF token in
/// the cookies it stops at once.
pub fn bilibili_video_start(content: &VideoContent, cookies: &str, upload_id: String) -> (r: (BilibiliVideo, VideoAction))
    ensures
        match crate::web::session::cookie_named(cookies@, "bili_jct="@) {
            Some(t) => (r.0 matches BilibiliVideo::ReadingVideo { csrf, upload_id: u } && csrf@ == t && u@
                == upload_id@) && (r.1 matches VideoAction::ReadVideo(p) && p@ == content.video_path@),
            None => r.0 is Done && (r.1 matches VideoAction::Finish(Err(PublishError::CookieExpired(m))) && m@
                == "缺少 bili_jct (CSRF Token)"@),
        },
{
    match bilibili_csrf(cookies) {
        Ok(csrf) => (BilibiliVideo::ReadingVideo { csrf, upload_id }, VideoAction::ReadVideo(content.video_path.clone())),
        Err(e) => (BilibiliVideo::Done, VideoAction::Finish(Err(e))),
    }
}

/// The next step of a Bilibili video upload: the file is read; upload
/// information is asked for; the pieces are sent one after another, in
/// order; the upload ends flagged as still to be submitted.
pub fn bilibili_video_step(state: BilibiliVideo, content: &VideoContent, event: VideoEvent) -> (r: (BilibiliVideo, VideoAction))
    requires
        bilibili_expects(state, event),
    ensures
        match (state, event) {
            (BilibiliVideo::ReadingVideo { csrf, upload_id }, VideoEvent::VideoRead(n)) => (r.0 matches BilibiliVideo::GettingUploadInfo {
                csrf: c,
                upload_id: u,
                size,
            } && c@ == csrf@ && u@ == upload_id@ && size == n) && (r.1 matches VideoAction::Get(url) && url@
                == BILIBILI_UPLOAD_INFO_URL@),
            (BilibiliVideo::ReadingVideo { .. }, VideoEvent::ReadFailed(m)) => r.0 is Done && platform_failure(
                r.1,
                "读取视频文件失败: "@ + m@,
            ),
            (BilibiliVideo::GettingUploadInfo { csrf, upload_id, size }, VideoEvent::Replied(_)) => if size == 0 {
                r.0 is Done && (r.1 matches VideoAction::Finish(Ok(res)) && bilibili_uploaded(
                    res,
                    upload_id@,
                    0,
                    content.title@,
                ))
            } else {
                (r.0 matches BilibiliVideo::UploadingChunks { csrf: c, upload_id: u, size: z, chunks, next }
                    && c@ == csrf@ && u@ == upload_id@ && z == size && chunks == chunk_count(size as nat)
                    && next == 0) && (r.1 matches VideoAction::UploadChunk(piece) && chunk_is(
                    piece,
                    0,
                    chunk_count(size as nat) as nat,
                    size as nat,
                    upload_id@,
                    csrf@,
                ))
            },
            (BilibiliVideo::GettingUploadInfo { .. }, VideoEvent::SendFailed(m)) => r.0 is Done && network_failure(
                r.1,
                m@,
            ),
            (BilibiliVideo::GettingUploadInfo { .. }, VideoEvent::UnreadableReply(m)) => r.0 is Done
                && platform_failure(r.1, "获取上传信息失败: "@ + m@),
            (BilibiliVideo::UploadingChunks { csrf, upload_id, size, chunks, next }, VideoEvent::SendFailed(m)) => r.0 is Done
                && platform_failure(r.1, "分片 "@ + decimal(next as nat) + " 上传失败: "@ + m@),
            (BilibiliVideo::UploadingChunks { csrf, upload_id, size, chunks, next }, _) => if next + 1 < chunks {
                (r.0 matches BilibiliVideo::UploadingChunks { csrf: c, upload_id: u, size: z, chunks: k, next: x }
                    && c@ == csrf@ && u@ == upload_id@ && z == size && k == chunks && x == next + 1) && (r.1 matches VideoAction::UploadChunk(
                    piece,
                ) && chunk_is(piece, (next + 1) as nat, chunks as nat, size as nat, upload_id@, csrf@))
            } else {
                r.0 is Done && (r.1 matches VideoAction::Finish(Ok(res)) && bilibili_uploaded(
                    res,
                    upload_id@,
                    chunks as nat,
                    content.title@,
                ))
            },
            _ => true,
        },
{
    match state {
        BilibiliVideo::ReadingVideo { csrf, upload_id } => match event {
            VideoEvent::VideoRead(n) => (
                BilibiliVideo::GettingUploadInfo { csrf, upload_id, size: n },
                VideoAction::Get(BILIBILI_UPLOAD_INFO_URL),
            ),
            VideoEvent::ReadFailed(m) => (BilibiliVideo::Done, platform_error("读取视频文件失败: ", m.as_str())),
            _ => (BilibiliVideo::Done, platform_error("", "")),
        },
        BilibiliVideo::GettingUploadInfo { csrf, upload_id, size } => match event {
            VideoEvent::Replied(_) => {
                let chunks = bilibili_chunk_count(size);
                if chunks == 0 {
                    let res = bilibili_video_result(upload_id.as_str(), 0, content.title.as_str());
                    (BilibiliVideo::Done, VideoAction::Finish(Ok(res)))
                } else {
                    let piece = bilibili_chunk(0, chunks, size, upload_id.as_str(), csrf.as_str());
                    (
                        BilibiliVideo::UploadingChunks { csrf, upload_id, size, chunks, next: 0 },
                        VideoAction::UploadChunk(piece),
                    )
                }
            },
            VideoEvent::SendFailed(m) => (BilibiliVideo::Done, VideoAction::Finish(Err(PublishError::Network(m)))),
            VideoEvent::UnreadableReply(m) => (BilibiliVideo::Done, platform_error("获取上传信息失败: ", m.as_str())),
            _ => (BilibiliVideo::Done, platform_error("", "")),
        },
        BilibiliVideo::UploadingChunks { csrf, upload_id, size, chunks, next } => match event {
            VideoEvent::SendFailed(m) => {
                let mut out: Vec<char> = Vec::new();
                push_str(&mut out, "分片 ");
                push_decimal(&mut out, next as u64);
                push_str(&mut out, " 上传失败: ");
                push_str(&mut out, m.as_str());
                (BilibiliVideo::Done, VideoAction::Finish(Err(PublishError::PlatformError(string_of(&out)))))
            },
            _ => {
                if next + 1 < chunks {
                    let piece = bilibili_chunk(next + 1, chunks, size, upload_id.as_str(), csrf.as_str());
                    (
                        BilibiliVideo::UploadingChunks { csrf, upload_id, size, chunks, next: next + 1 },
                        VideoAction::UploadChunk(piece),
                    )
                } else {
                    let res = bilibili_video_result(upload_id.as_str(), chunks, content.title.as_str());
                    (BilibiliVideo::Done, VideoAction::Finish(Ok(res)))
                }
            },
        },
        BilibiliVideo::Done => (BilibiliVideo::Done, platform_error("", "")),
    }
}

} // verus!
