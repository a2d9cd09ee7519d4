//! The generation runs of a task: writing the article or the video script,
//! drawing the pictures, speaking the narration, rendering, downloading and
//! merging the video, in the order each mode takes them.
//!
//! The service around this module makes the calls (the AI service, the file
//! system, ffmpeg) that the run asks for and reports what came of each; the
//! run decides what comes next, which progress marks to record first, and
//! how a failure is reported.
use crate::ai::{ImageRequest, Message, VideoRequest};
use crate::error::{AppError, AI_001, AI_002, AI_003, INPUT_001};
use crate::hotspot::llm_search::{parse_ymd, ymd_date};
use crate::task::executor::{
    adapted_text, adapted_video_text, cuts_ok, default_voice, narration, video_prompt,
    ExecutionResult, GenerationResult, TaskExecutor,
};
use crate::task::model::{mode_of_text, Task};
use crate::text::{cut_ok, push_str, string_of, truncate_bytes};
use crate::types::{is_calendar_day, two_digits, year_text, CalendarDate, Platform, TaskMode};
use crate::web::storage::{path_join, path_join_exec};
use vstd::prelude::*;

verus! {

broadcast use vstd::string::group_string_axioms;

// ---------------------------------------------------------------------
// Requests
// ---------------------------------------------------------------------

/// Instructions given to the model that writes articles.
pub const ARTICLE_SYSTEM: &'static str = "你是一位资深新媒体编辑，擅长撰写贴近生活、文笔流畅的社交媒体文章。\n\n写作要求：\n1. **真实可信**：基于搜索到的真实信息创作，内容详实有据\n2. **时效性强**：严格使用指定日期范围内的最新信息\n3. **语言自然**：\n   - 避免AI味的套话，如\"首先\"、\"其次\"、\"综上所述\"、\"值得注意的是\"等\n   - 避免机械的连接词，多用短句和自然的过渡\n   - 多用口语化表达，让人感觉是真实的人在说话\n4. **吸引读者**：开头要抓人，用具体的场景、数字或争议性话题引入\n5. **结构清晰**：重点突出，段落短小，一般不超过3-4行\n\n文章长度：800-1500字";

/// Instructions given to the model that writes video scripts.
pub const SCRIPT_SYSTEM: &'static str = "你是一位资深短视频策划，擅长创作接地气、有创意的短视频脚本。\n\n写作要求：\n1. **真实可信**：基于搜索到的真实信息创作，内容详实有据\n2. **语言自然**：\n   - 避免AI味的开场白，如\"大家好我是xxx\"等套话\n   - 口语化表达，像朋友聊天一样自然\n   - 避免机械的连接词和总结性话语\n3. **节奏明快**：开头3秒要有吸引力，能留住观众\n4. **结构清晰**：场景描述简洁，配音文字短小有力\n\n脚本格式：\n- 场景/画面描述：[画面内容]\n- 配音：[配音文字]\n- 时长提示：（X秒）";

/// The request for an article opens with this text, then the topic.
pub const ARTICLE_ASK_HEAD: &'static str = "请搜索关于\"";

/// Between the topic and the date rule of an article request.
pub const ARTICLE_ASK_MID: &'static str = "\"的最新信息，然后基于真实搜索结果创作一篇社交媒体文章。\n\n要求：\n1. 搜索并引用真实的事件内容、数据、评论\n2. ";

/// The close of an article request.
pub const ARTICLE_ASK_TAIL: &'static str = "\n3. 写作风格要像真实的人类编辑写的，避免任何AI味\n4. 直接开始写作，不需要自我介绍或结尾总结";

/// Between the topic and the date rule of a script request.
pub const SCRIPT_ASK_MID: &'static str = "\"的最新信息，然后基于真实搜索结果创作一个短视频脚本。\n\n要求：\n1. 搜索并引用真实的事件内容、数据\n2. ";

/// The close of a script request.
pub const SCRIPT_ASK_TAIL: &'static str = "\n3. 脚本要像真实的人类创作者写的，避免AI味\n4. 时长控制在60-90秒\n5. 开头要有吸引力，能在3秒内抓住观众";

/// The date `chrono` writes with the format `%Y年%m月%d日` for the calendar
/// day, or `None` where chrono has no such day.
pub open spec fn cn_date_text(year: i32, month: u32, day: u32) -> Option<Seq<char>> {
    if is_calendar_day(CalendarDate { year, month, day }) {
        Some(year_text(year as int) + "年"@ + two_digits(month as nat) + "月"@ + two_digits(day as nat) + "日"@)
    } else {
        None
    }
}

/// `NaiveDate::from_ymd_opt(..)` of chrono, formatted with `%Y年%m月%d日`:
/// a date where the numbers form a day of chrono's calendar, written with
/// its year (`%Y`), month and day.
#[verifier::external_body]
fn format_cn_date(d: CalendarDate) -> (r: Option<String>)
    ensures
        match r {
            Some(t) => cn_date_text(d.year, d.month, d.day) == Some(t@),
            None => cn_date_text(d.year, d.month, d.day).is_none(),
        },
{
    chrono::NaiveDate::from_ymd_opt(d.year, d.month, d.day).map(|n| n.format("%Y年%m月%d日").to_string())
}

impl Task {
    /// The event date of the task: its stored text read as `%Y-%m-%d`,
    /// none where there is no text or it is no date.
    pub fn get_event_date(&self) -> (r: Option<CalendarDate>)
        ensures
            r == match self.event_date {
                Some(t) => ymd_date(t@),
                None => None,
            },
    {
        match &self.event_date {
            Some(t) => parse_ymd(t.as_str()),
            None => None,
        }
    }
}

/// The written form of an event day, if it has one.
pub open spec fn day_text(day: Option<CalendarDate>) -> Option<Seq<char>> {
    match day {
        Some(d) => cn_date_text(d.year, d.month, d.day),
        None => None,
    }
}

/// The rule on the date of the information used: the given day, else today.
pub open spec fn date_rule(day: Option<Seq<char>>) -> Seq<char> {
    match day {
        Some(t) => "请务必使用 "@ + t + " 当天的最新信息。"@,
        None => "请务必使用今天的最新信息。"@,
    }
}

/// The rule on the date of the information used, for an event day.
pub fn date_constraint(day: Option<CalendarDate>) -> (r: String)
    ensures
        r@ == date_rule(day_text(day)),
{
    let written = match day {
        Some(d) => format_cn_date(d),
        None => None,
    };
    match written {
        Some(t) => {
            let mut out: Vec<char> = Vec::new();
            push_str(&mut out, "请务必使用 ");
            push_str(&mut out, t.as_str());
            push_str(&mut out, " 当天的最新信息。");
            string_of(&out)
        },
        None => "请务必使用今天的最新信息。".to_owned(),
    }
}

/// What the user asks for: an article (else a video script) on the topic,
/// under the date rule.
pub open spec fn ask_text(article: bool, topic: Seq<char>, rule: Seq<char>) -> Seq<char> {
    if article {
        ARTICLE_ASK_HEAD@ + topic + ARTICLE_ASK_MID@ + rule + ARTICLE_ASK_TAIL@
    } else {
        ARTICLE_ASK_HEAD@ + topic + SCRIPT_ASK_MID@ + rule + SCRIPT_ASK_TAIL@
    }
}

/// The system instructions for an article (else a video script).
pub open spec fn system_text(article: bool) -> Seq<char> {
    if article {
        ARTICLE_SYSTEM@
    } else {
        SCRIPT_SYSTEM@
    }
}

/// The messages sent to the text model: the system instructions, then the
/// user's request.
pub open spec fn writing_messages(msgs: Seq<Message>, article: bool, topic: Seq<char>, day: Option<CalendarDate>) -> bool {
    &&& msgs.len() == 2
    &&& msgs[0].role@ == "system"@
    &&& msgs[0].content@ == system_text(article)
    &&& msgs[1].role@ == "user"@
    &&& msgs[1].content@ == ask_text(article, topic, date_rule(day_text(day)))
}

/// The two messages that ask for an article (else a video script) on the
/// topic, with the rule on the date of the information.
pub fn writing_request(article: bool, topic: &str, day: Option<CalendarDate>) -> (r: Vec<Message>)
    ensures
        writing_messages(r@, article, topic@, day),
{
    let rule = date_constraint(day);
    let system = if article {
        ARTICLE_SYSTEM.to_owned()
    } else {
        SCRIPT_SYSTEM.to_owned()
    };
    let mut ask: Vec<char> = Vec::new();
    push_str(&mut ask, ARTICLE_ASK_HEAD);
    push_str(&mut ask, topic);
    if article {
        push_str(&mut ask, ARTICLE_ASK_MID);
        push_str(&mut ask, rule.as_str());
        push_str(&mut ask, ARTICLE_ASK_TAIL);
    } else {
        push_str(&mut ask, SCRIPT_ASK_MID);
        push_str(&mut ask, rule.as_str());
        push_str(&mut ask, SCRIPT_ASK_TAIL);
    }
    let user = string_of(&ask);
    let mut r: Vec<Message> = Vec::new();
    r.push(Message { role: "system".to_owned(), content: system });
    r.push(Message { role: "user".to_owned(), content: user });
    r
}

/// The prompt for the pictures of an article.
pub open spec fn picture_prompt(text: Seq<char>) -> Seq<char> {
    "用于社交媒体的配图，主题："@ + text
}

/// The request for `count` square pictures illustrating the article.
pub fn picture_request(text: &str, count: u32, model: &str) -> (r: ImageRequest)
    ensures
        r.model@ == model@,
        r.prompt@ == picture_prompt(text@),
        r.n == Some(count),
        r.aspect_ratio matches Some(a) && a@ == "1:1"@,
{
    let mut p: Vec<char> = Vec::new();
    push_str(&mut p, "用于社交媒体的配图，主题：");
    push_str(&mut p, text);
    ImageRequest {
        model: model.to_owned(),
        prompt: string_of(&p),
        n: Some(count),
        aspect_ratio: Some("1:1".to_owned()),
    }
}

/// Where the narration audio of a task is kept.
pub open spec fn audio_path(task_id: Seq<char>) -> Seq<char> {
    path_join("./data/audio"@, task_id + ".mp3"@)
}

/// Where the video downloaded for a task is kept before the merge.
pub open spec fn raw_video_path(task_id: Seq<char>) -> Seq<char> {
    path_join("./data/video"@, task_id + "_raw.mp4"@)
}

/// Where the merged video of a task is kept.
pub open spec fn final_video_path(task_id: Seq<char>) -> Seq<char> {
    path_join("./data/video"@, task_id + ".mp4"@)
}

fn file_in(dir: &str, task_id: &str, suffix: &str) -> (r: String)
    ensures
        r@ == path_join(dir@, task_id@ + suffix@),
{
    let mut name: Vec<char> = Vec::new();
    push_str(&mut name, task_id);
    push_str(&mut name, suffix);
    let n = string_of(&name);
    path_join_exec(dir, n.as_str())
}

/// The arguments of the ffmpeg run that lays the audio under the video:
/// the video stream is copied, the audio encoded as AAC, and the output
/// ends with the shorter of the two.
pub open spec fn merge_arguments(video: Seq<char>, audio: Seq<char>, output: Seq<char>) -> Seq<Seq<char>> {
    seq![
        "-i"@, video, "-i"@, audio, "-c:v"@, "copy"@, "-c:a"@, "aac"@, "-map"@, "0:v:0"@,
        "-map"@, "1:a:0"@, "-shortest"@, "-y"@, output,
    ]
}

/// The view of a list of strings.
pub open spec fn texts(v: Seq<String>) -> Seq<Seq<char>> {
    Seq::new(v.len(), |i: int| v[i]@)
}

/// The ffmpeg arguments that merge `video` and `audio` into `output`.
pub fn merge_args(video: &str, audio: &str, output: &str) -> (r: Vec<String>)
    ensures
        texts(r@) == merge_arguments(video@, audio@, output@),
{
    let r: Vec<String> = vec![
        "-i".to_owned(),
        video.to_owned(),
        "-i".to_owned(),
        audio.to_owned(),
        "-c:v".to_owned(),
        "copy".to_owned(),
        "-c:a".to_owned(),
        "aac".to_owned(),
        "-map".to_owned(),
        "0:v:0".to_owned(),
        "-map".to_owned(),
        "1:a:0".to_owned(),
        "-shortest".to_owned(),
        "-y".to_owned(),
        output.to_owned(),
    ];
    assert(texts(r@) =~= merge_arguments(video@, audio@, output@));
    r
}

// ---------------------------------------------------------------------
// The run
// ---------------------------------------------------------------------

/// What a generation run produces.
#[derive(Debug, Clone, Copy, PartialEq, Eq, Structural)]
pub enum RunKind {
    /// The article and its pictures, nothing more.
    ContentText,
    /// The video script, nothing more.
    ContentVideo,
    /// The article, its pictures and its adaptation to each platform.
    Article,
    /// The script, its spoken narration, the video with the narration laid
    /// under it, and the announcement adapted to each platform.
    Video,
}

/// The run that generates content only (else the whole task) in the mode.
pub open spec fn run_kind(content_only: bool, mode: TaskMode) -> RunKind {
    match (content_only, mode) {
        (true, TaskMode::Text) => RunKind::ContentText,
        (true, TaskMode::Video) => RunKind::ContentVideo,
        (false, TaskMode::Text) => RunKind::Article,
        (false, TaskMode::Video) => RunKind::Video,
    }
}

/// Runs of this kind write an article (else a video script).
pub open spec fn writes_article(kind: RunKind) -> bool {
    kind == RunKind::ContentText || kind == RunKind::Article
}

/// The progress marks a run of the kind records, in order: the name of the
/// step, its place and the number of steps.
pub open spec fn plan(kind: RunKind) -> Seq<(Seq<char>, u32, u32)> {
    match kind {
        RunKind::ContentText => seq![("generate_text"@, 1u32, 2u32), ("generate_images"@, 2u32, 2u32)],
        RunKind::ContentVideo => seq![("generate_script"@, 1u32, 2u32)],
        RunKind::Article => seq![
            ("generate_text"@, 1u32, 4u32),
            ("generate_images"@, 2u32, 4u32),
            ("adapt_content"@, 3u32, 4u32),
            ("publish"@, 4u32, 4u32),
        ],
        RunKind::Video => seq![
            ("generate_script"@, 1u32, 6u32),
            ("extract_narration"@, 2u32, 6u32),
            ("generate_tts"@, 3u32, 6u32),
            ("generate_video"@, 4u32, 6u32),
            ("download_and_merge"@, 5u32, 6u32),
            ("adapt_content"@, 6u32, 6u32),
        ],
    }
}

/// A progress mark: the step reached, its place among the steps of the
/// run, and the progress in percent it stands for.
#[derive(Debug, Clone, Copy)]
pub struct StepMark {
    pub name: &'static str,
    pub current: u32,
    pub total: u32,
    pub progress: u32,
}

/// The steps named by marks, with their places.
pub open spec fn marks_view(ms: Seq<StepMark>) -> Seq<(Seq<char>, u32, u32)> {
    Seq::new(ms.len(), |i: int| (ms[i].name@, ms[i].current, ms[i].total))
}

/// Each mark carries the progress of its place, rounded down.
pub open spec fn progress_ok(ms: Seq<StepMark>) -> bool {
    forall|i: int|
        0 <= i < ms.len() ==> #[trigger] ms[i].total > 0 && ms[i].progress == (ms[i].current * 100)
            / (ms[i].total as int)
}

fn step_mark(name: &'static str, current: u32, total: u32) -> (r: StepMark)
    requires
        0 < current <= total <= 100,
    ensures
        r.name == name,
        r.current == current,
        r.total == total,
        r.progress == (current * 100) / (total as int),
{
    StepMark { name, current, total, progress: crate::task::scheduler::step_progress(current, total) }
}

/// How ffmpeg's merge ended.
#[derive(Debug)]
pub enum MergeOutcome {
    /// ffmpeg could not be run; the failure's text.
    NotRun(String),
    /// ffmpeg ran: whether it succeeded, and what it wrote on its error
    /// stream.
    Exited { success: bool, stderr: String },
}

/// What the service does next.
#[derive(Debug)]
pub enum GenAction {
    /// Ask the text model for the messages.
    Write { model: String, messages: Vec<Message> },
    /// Ask for pictures.
    Draw(ImageRequest),
    /// Synthesize the text with the voice.
    Speak { text: String, voice: String },
    /// Store the synthesized audio at the path.
    SaveAudio(String),
    /// Submit the video task, wait for it and fetch the download address.
    Render(VideoRequest),
    /// Download the video at the address to the path.
    Download { url: String, path: String },
    /// Run ffmpeg with the arguments; it writes the output path.
    Merge { args: Vec<String>, output: String },
    /// Content generation is over.
    Generated(GenerationResult),
    /// The task's run is over.
    Executed(ExecutionResult),
    /// The run stops with the error.
    Fail(AppError),
}

/// A decision of the run: the progress marks to record, then the action.
#[derive(Debug)]
pub struct GenStep {
    pub marks: Vec<StepMark>,
    pub action: GenAction,
}

/// What the run waits for.
#[derive(Debug, Clone, Copy, PartialEq, Eq, Structural)]
pub enum GenStage {
    /// To be started.
    Start,
    /// The written article or script.
    Writing,
    /// The pictures.
    Drawing,
    /// The synthesized narration.
    Speaking,
    /// The stored narration.
    Saving,
    /// The address of the rendered video.
    Rendering,
    /// The downloaded video.
    Downloading,
    /// The merged video.
    Merging,
    /// Nothing more.
    Over,
}

/// The number of marks recorded when the run waits at the stage.
pub open spec fn marks_at(stage: GenStage) -> int {
    match stage {
        GenStage::Start => 0,
        GenStage::Writing => 1,
        GenStage::Drawing => 2,
        GenStage::Speaking => 3,
        GenStage::Saving => 3,
        GenStage::Rendering => 4,
        GenStage::Downloading => 5,
        GenStage::Merging => 5,
        GenStage::Over => 0,
    }
}

/// The stages a run of the kind passes through.
pub open spec fn stage_of_kind(kind: RunKind, stage: GenStage) -> bool {
    match stage {
        GenStage::Drawing => writes_article(kind),
        GenStage::Speaking | GenStage::Saving | GenStage::Rendering | GenStage::Downloading
        | GenStage::Merging => kind == RunKind::Video,
        _ => true,
    }
}

/// The articles adapted to the platforms, in order.
pub open spec fn adapted_ok(v: Seq<(Platform, String)>, ps: Seq<Platform>, text: Seq<char>) -> bool {
    &&& v.len() == ps.len()
    &&& forall|i: int|
        0 <= i < ps.len() ==> (#[trigger] v[i]).0 == ps[i] && v[i].1@ == adapted_text(text, ps[i])
}

/// The video announcements adapted to the platforms, in order.
pub open spec fn adapted_video_ok(
    v: Seq<(Platform, String)>,
    ps: Seq<Platform>,
    script: Seq<char>,
    video: Seq<char>,
    audio: Seq<char>,
) -> bool {
    &&& v.len() == ps.len()
    &&& forall|i: int|
        0 <= i < ps.len() ==> (#[trigger] v[i]).0 == ps[i] && v[i].1@ == adapted_video_text(
            script,
            video,
            audio,
            ps[i],
        )
}

/// The error is an error of the AI service with the code and message.
pub open spec fn is_ai_error(e: AppError, code: Seq<char>, message: Seq<char>) -> bool {
    e matches AppError::Ai { code: c, message: m } && c@ == code && m@ == message
}

/// The error is an internal error with the message.
pub open spec fn is_internal_error(e: AppError, message: Seq<char>) -> bool {
    e matches AppError::Internal(m) && m@ == message
}

/// The voice used for a configured speech model.
pub open spec fn voice_of(model: Seq<char>) -> Seq<char> {
    if model.len() == 0 {
        default_voice()
    } else {
        model
    }
}

/// The marks of the plan of the kind.
fn full_plan(kind: RunKind) -> (r: Vec<StepMark>)
    ensures
        marks_view(r@) == plan(kind),
        progress_ok(r@),
{
    let r = match kind {
        RunKind::ContentText => vec![step_mark("generate_text", 1, 2), step_mark("generate_images", 2, 2)],
        RunKind::ContentVideo => vec![step_mark("generate_script", 1, 2)],
        RunKind::Article => vec![
            step_mark("generate_text", 1, 4),
            step_mark("generate_images", 2, 4),
            step_mark("adapt_content", 3, 4),
            step_mark("publish", 4, 4),
        ],
        RunKind::Video => vec![
            step_mark("generate_script", 1, 6),
            step_mark("extract_narration", 2, 6),
            step_mark("generate_tts", 3, 6),
            step_mark("generate_video", 4, 6),
            step_mark("download_and_merge", 5, 6),
            step_mark("adapt_content", 6, 6),
        ],
    };
    assert(marks_view(r@) =~= plan(kind));
    r
}

/// The marks of the plan of the kind from place `from` to place `to`.
fn plan_marks(kind: RunKind, from: usize, to: usize) -> (r: Vec<StepMark>)
    requires
        from <= to <= plan(kind).len(),
    ensures
        marks_view(r@) == plan(kind).subrange(from as int, to as int),
        progress_ok(r@),
{
    let all = full_plan(kind);
    let mut r: Vec<StepMark> = Vec::new();
    let mut i: usize = from;
    while i < to
        invariant
            from <= i <= to <= all.len(),
            marks_view(all@) == plan(kind),
            progress_ok(all@),
            progress_ok(r@),
            marks_view(r@) == plan(kind).subrange(from as int, i as int),
        decreases to - i,
    {
        let m = all[i];
        let ghost prev = r@;
        r.push(m);
        proof {
            assert(marks_view(all@)[i as int] == plan(kind)[i as int]);
            assert(marks_view(prev).len() == prev.len());
            assert(prev.len() == i - from);
            assert forall|k: int| 0 <= k < r@.len() implies #[trigger] marks_view(r@)[k] == plan(
                kind,
            ).subrange(from as int, i + 1)[k] by {
                if k < prev.len() {
                    assert(r@[k] == prev[k]);
                    assert(marks_view(prev)[k] == plan(kind).subrange(from as int, i as int)[k]);
                } else {
                    assert(r@[k] == all@[i as int]);
                    assert(marks_view(r@)[k] == marks_view(all@)[i as int]);
                }
            }
            assert(marks_view(r@) =~= plan(kind).subrange(from as int, i + 1));
            assert(all@[i as int].total > 0);
            assert forall|k: int| 0 <= k < r@.len() implies #[trigger] r@[k].total > 0 && r@[k].progress
                == (r@[k].current * 100) / (r@[k].total as int) by {
                if k < prev.len() {
                    assert(r@[k] == prev[k]);
                    assert(prev[k].total > 0);
                } else {
                    assert(r@[k] == all@[i as int]);
                }
            }
        }
        i = i + 1;
    }
    r
}

/// The action stops the run with an error of the AI service.
pub open spec fn fails_ai(a: GenAction, code: Seq<char>, message: Seq<char>) -> bool {
    match a {
        GenAction::Fail(e) => is_ai_error(e, code, message),
        _ => false,
    }
}

/// The action stops the run with an internal error.
pub open spec fn fails_internal(a: GenAction, message: Seq<char>) -> bool {
    match a {
        GenAction::Fail(e) => is_internal_error(e, message),
        _ => false,
    }
}

/// The action asks for three square pictures of the article.
pub open spec fn asks_pictures(a: GenAction, model: Seq<char>, text: Seq<char>) -> bool {
    match a {
        GenAction::Draw(req) => {
            &&& req.model@ == model
            &&& req.prompt@ == picture_prompt(text)
            &&& req.n == Some(3u32)
            &&& match req.aspect_ratio {
                Some(x) => x@ == "1:1"@,
                None => false,
            }
        },
        _ => false,
    }
}

/// The action ends content generation with the text and the pictures.
pub open spec fn generated(a: GenAction, text: Seq<char>, images: Seq<String>) -> bool {
    match a {
        GenAction::Generated(g) => {
            &&& g.success
            &&& match g.generated_text {
                Some(x) => x@ == text,
                None => false,
            }
            &&& g.generated_images@ == images
            &&& g.error_message is None
        },
        _ => false,
    }
}

/// The action asks to speak the text with the voice.
pub open spec fn speaks(a: GenAction, text: Seq<char>, voice: Seq<char>) -> bool {
    match a {
        GenAction::Speak { text: t, voice: v } => t@ == text && v@ == voice,
        _ => false,
    }
}

/// The action ends the task's run with the article, its pictures and its
/// adaptation to the platforms.
pub open spec fn executed_article(a: GenAction, text: Seq<char>, images: Seq<String>, ps: Seq<Platform>) -> bool {
    match a {
        GenAction::Executed(x) => {
            &&& x.success
            &&& match x.generated_text {
                Some(t) => t@ == text,
                None => false,
            }
            &&& x.generated_images@ == images
            &&& x.generated_video is None
            &&& x.generated_audio is None
            &&& adapted_ok(x.adapted_contents@, ps, text)
            &&& x.results@.len() == 0
            &&& x.error_message is None
        },
        _ => false,
    }
}

/// The action ends the task's run with the script, the merged video, the
/// narration and the announcement adapted to the platforms.
pub open spec fn executed_video(
    a: GenAction,
    script: Seq<char>,
    video: Seq<char>,
    audio: Seq<char>,
    ps: Seq<Platform>,
) -> bool {
    match a {
        GenAction::Executed(x) => {
            &&& x.success
            &&& match x.generated_text {
                Some(t) => t@ == script,
                None => false,
            }
            &&& x.generated_images@.len() == 0
            &&& match x.generated_video {
                Some(v) => v@ == video,
                None => false,
            }
            &&& match x.generated_audio {
                Some(v) => v@ == audio,
                None => false,
            }
            &&& adapted_video_ok(x.adapted_contents@, ps, script, video, audio)
            &&& x.results@.len() == 0
            &&& x.error_message is None
        },
        _ => false,
    }
}

/// The article adapted to the platforms read, if they were.
fn adapt_article(text: &String, platforms: &Result<Vec<Platform>, String>) -> (r: Vec<(Platform, String)>)
    requires
        platforms matches Ok(ps) ==> cuts_ok(text@, ps@),
    ensures
        platforms matches Ok(ps) ==> adapted_ok(r@, ps@, text@),
{
    match platforms {
        Ok(ps) => TaskExecutor::adapt_content(text.as_str(), ps.as_slice()),
        Err(_) => Vec::new(),
    }
}

/// A run reports its steps in order: its k-th mark is step k of one and
/// the same number of steps, so the progress it reports never falls, and
/// every run but a content-only video run ends its plan at 100 percent.
pub proof fn lemma_plan_in_order(kind: RunKind, i: int, j: int)
    requires
        0 <= i <= j < plan(kind).len(),
    ensures
        plan(kind)[i].1 == i + 1,
        plan(kind)[i].2 == plan(kind)[j].2,
        (plan(kind)[i].1 * 100) / (plan(kind)[i].2 as int) <= (plan(kind)[j].1 * 100) / (
        plan(kind)[j].2 as int),
        kind != RunKind::ContentVideo ==> (plan(kind).last().1 * 100) / (plan(kind).last().2 as int)
            == 100,
{
    let t = plan(kind)[i].2 as int;
    crate::task::scheduler::lemma_progress_monotone(plan(kind)[i].1 as int, plan(kind)[j].1 as int, t);
}

/// A generation run of a task.
pub struct GenerationRun {
    kind: RunKind,
    stage: GenStage,
    task_id: String,
    topic: String,
    day: Option<CalendarDate>,
    platforms: Result<Vec<Platform>, String>,
    models: crate::user::UserModelConfig,
    text: String,
    marked: Ghost<Seq<(Seq<char>, u32, u32)>>,
}

impl GenerationRun {
    /// What the run produces.
    pub closed spec fn kind(self) -> RunKind {
        self.kind
    }

    /// What the run waits for.
    pub closed spec fn stage(self) -> GenStage {
        self.stage
    }

    /// The progress marks asked for so far.
    pub closed spec fn marked(self) -> Seq<(Seq<char>, u32, u32)> {
        self.marked@
    }

    /// The written article or script, once written.
    pub closed spec fn text(self) -> Seq<char> {
        self.text@
    }

    /// The task's identifier.
    pub closed spec fn task_id(self) -> Seq<char> {
        self.task_id@
    }

    /// The task's topic.
    pub closed spec fn topic(self) -> Seq<char> {
        self.topic@
    }

    /// The event day of the task.
    pub closed spec fn day(self) -> Option<CalendarDate> {
        self.day
    }

    /// The task's platforms, or why they could not be read.
    pub closed spec fn platforms(self) -> Result<Seq<Platform>, Seq<char>> {
        match self.platforms {
            Ok(v) => Ok(v@),
            Err(e) => Err(e@),
        }
    }

    /// The models to use.
    pub closed spec fn models(self) -> crate::user::UserModelConfig {
        self.models
    }

    /// The run is consistent: it waits at a stage of its kind, and the
    /// marks asked for are the plan's first ones.
    pub closed spec fn wf(self) -> bool {
        &&& stage_of_kind(self.kind, self.stage)
        &&& self.marked@.len() <= plan(self.kind).len()
        &&& self.marked@ =~= plan(self.kind).take(self.marked@.len() as int)
        &&& self.stage != GenStage::Over ==> self.marked@.len() == marks_at(self.stage)
        &&& self.kind == RunKind::Article && self.stage == GenStage::Drawing ==> self.platforms is Ok
    }

    /// A run over the task's data; `content_only` stops it once the
    /// content is generated. `platforms` is the task's list of platforms
    /// as read from its stored text, or why that failed.
    pub fn new(
        content_only: bool,
        mode: TaskMode,
        task_id: String,
        topic: String,
        day: Option<CalendarDate>,
        platforms: Result<Vec<Platform>, String>,
        models: crate::user::UserModelConfig,
    ) -> (r: GenerationRun)
        ensures
            r.wf(),
            r.kind() == run_kind(content_only, mode),
            r.stage() == GenStage::Start,
            r.marked().len() == 0,
            r.task_id() == task_id@,
            r.topic() == topic@,
            r.day() == day,
            r.platforms() == match platforms {
                Ok(v) => Ok::<Seq<Platform>, Seq<char>>(v@),
                Err(e) => Err(e@),
            },
            r.models() == models,
    {
        let kind = match (content_only, mode) {
            (true, TaskMode::Text) => RunKind::ContentText,
            (true, TaskMode::Video) => RunKind::ContentVideo,
            (false, TaskMode::Text) => RunKind::Article,
            (false, TaskMode::Video) => RunKind::Video,
        };
        let r = GenerationRun {
            kind,
            stage: GenStage::Start,
            task_id,
            topic,
            day,
            platforms,
            models,
            text: String::new(),
            marked: Ghost(Seq::empty()),
        };
        assert(r.marked@ =~= plan(kind).take(0));
        r
    }

    /// The run keeps the task's data of `other`.
    pub open spec fn same_task(self, other: GenerationRun) -> bool {
        &&& self.kind() == other.kind()
        &&& self.task_id() == other.task_id()
        &&& self.topic() == other.topic()
        &&& self.day() == other.day()
        &&& self.platforms() == other.platforms()
        &&& self.models() == other.models()
    }

    /// The step records the plan's marks from `from` to `to`, and the run
    /// has recorded them.
    pub open spec fn records(self, step: GenStep, old_run: GenerationRun, from: int, to: int) -> bool {
        &&& marks_view(step.marks@) == plan(old_run.kind()).subrange(from, to)
        &&& progress_ok(step.marks@)
        &&& self.marked() == old_run.marked() + marks_view(step.marks@)
    }

    /// The step only stops the run with the error.
    pub open spec fn stops(self, step: GenStep, old_run: GenerationRun) -> bool {
        &&& step.marks@.len() == 0
        &&& self.stage() == GenStage::Over
        &&& self.marked() == old_run.marked()
        &&& self.text() == old_run.text()
    }

    /// Starts the run: record the first step, then ask the text model for
    /// the article (or the script) on the topic.
    pub fn start(&mut self) -> (r: GenStep)
        requires
            old(self).wf(),
            old(self).stage() == GenStage::Start,
        ensures
            final(self).wf(),
            final(self).same_task(*old(self)),
            final(self).stage() == GenStage::Writing,
            final(self).records(r, *old(self), 0, 1),
            r.action matches GenAction::Write { model, messages } && model@ == old(
                self,
            ).models().text_model@ && writing_messages(
                messages@,
                writes_article(old(self).kind()),
                old(self).topic(),
                old(self).day(),
            ),
    {
        let article = self.kind == RunKind::ContentText || self.kind == RunKind::Article;
        let messages = writing_request(article, self.topic.as_str(), self.day);
        let marks = plan_marks(self.kind, 0, 1);
        self.marked = Ghost(self.marked@ + marks_view(marks@));
        self.stage = GenStage::Writing;
        proof {
            assert(self.marked@ =~= plan(self.kind).take(1));
        }
        GenStep { marks, action: GenAction::Write { model: self.models.text_model.clone(), messages } }
    }

    /// The written article or script arrived (its first choice's content)
    /// or writing failed with the text. The pictures of an article come
    /// next; a script's narration is spoken next; a content-only script is
    /// the end of its run. A whole task also needs its platforms read.
    pub fn on_written(&mut self, outcome: Result<String, String>) -> (r: GenStep)
        requires
            old(self).wf(),
            old(self).stage() == GenStage::Writing,
            old(self).kind() == RunKind::Video ==> (outcome matches Ok(t) ==> cut_ok(
                narration(t@),
                1000,
            )),
        ensures
            final(self).wf(),
            final(self).same_task(*old(self)),
            match outcome {
                Err(e) => final(self).stops(r, *old(self)) && fails_ai(r.action, AI_001@, e@),
                Ok(t) => final(self).text() == t@ && match old(self).kind() {
                    RunKind::ContentText => {
                        &&& final(self).stage() == GenStage::Drawing
                        &&& final(self).records(r, *old(self), 1, 2)
                        &&& asks_pictures(r.action, old(self).models().image_model@, t@)
                    },
                    RunKind::ContentVideo => {
                        &&& final(self).stage() == GenStage::Over
                        &&& r.marks@.len() == 0
                        &&& final(self).marked() == plan(RunKind::ContentVideo)
                        &&& generated(r.action, t@, Seq::empty())
                    },
                    RunKind::Article => {
                        &&& final(self).records(r, *old(self), 1, 2)
                        &&& match old(self).platforms() {
                            Err(e) => final(self).stage() == GenStage::Over && fails_internal(
                                r.action,
                                e,
                            ),
                            Ok(_) => final(self).stage() == GenStage::Drawing && asks_pictures(
                                r.action,
                                old(self).models().image_model@,
                                t@,
                            ),
                        }
                    },
                    RunKind::Video => {
                        &&& final(self).stage() == GenStage::Speaking
                        &&& final(self).records(r, *old(self), 1, 3)
                        &&& speaks(
                            r.action,
                            truncate_bytes(narration(t@), 1000),
                            voice_of(old(self).models().speech_model@),
                        )
                    },
                },
            },
    {
        match outcome {
            Err(e) => {
                self.stage = GenStage::Over;
                GenStep { marks: Vec::new(), action: GenAction::Fail(AppError::ai(AI_001, e.as_str())) }
            },
            Ok(t) => {
                self.text = t;
                match self.kind {
                    RunKind::ContentText => {
                        let marks = plan_marks(self.kind, 1, 2);
                        self.marked = Ghost(self.marked@ + marks_view(marks@));
                        self.stage = GenStage::Drawing;
                        proof {
                            assert(self.marked@ =~= plan(self.kind).take(2));
                        }
                        let req = picture_request(self.text.as_str(), 3, self.models.image_model.as_str());
                        GenStep { marks, action: GenAction::Draw(req) }
                    },
                    RunKind::ContentVideo => {
                        self.stage = GenStage::Over;
                        proof {
                            assert(self.marked@ =~= plan(self.kind));
                        }
                        let g = GenerationResult {
                            success: true,
                            generated_text: Some(self.text.clone()),
                            generated_images: Vec::new(),
                            error_message: None,
                        };
                        GenStep { marks: Vec::new(), action: GenAction::Generated(g) }
                    },
                    RunKind::Article => {
                        let marks = plan_marks(self.kind, 1, 2);
                        self.marked = Ghost(self.marked@ + marks_view(marks@));
                        proof {
                            assert(self.marked@ =~= plan(self.kind).take(2));
                        }
                        match &self.platforms {
                            Err(e) => {
                                let err = AppError::Internal(e.clone());
                                self.stage = GenStage::Over;
                                GenStep { marks, action: GenAction::Fail(err) }
                            },
                            Ok(_) => {
                                self.stage = GenStage::Drawing;
                                let req = picture_request(
                                    self.text.as_str(),
                                    3,
                                    self.models.image_model.as_str(),
                                );
                                GenStep { marks, action: GenAction::Draw(req) }
                            },
                        }
                    },
                    RunKind::Video => {
                        let marks = plan_marks(self.kind, 1, 3);
                        self.marked = Ghost(self.marked@ + marks_view(marks@));
                        self.stage = GenStage::Speaking;
                        proof {
                            assert(self.marked@ =~= plan(self.kind).take(3));
                        }
                        let spoken = TaskExecutor::extract_narration_from_script(self.text.as_str());
                        let (text, voice) = TaskExecutor::tts_input(
                            spoken.as_str(),
                            self.models.speech_model.as_str(),
                        );
                        GenStep { marks, action: GenAction::Speak { text, voice: voice.to_owned() } }
                    },
                }
            },
        }
    }

    /// The pictures arrived (their addresses) or drawing failed with the
    /// text. Content generation ends with the article and its pictures; a
    /// whole task records its last steps and ends with the article adapted
    /// to each platform.
    pub fn on_drawn(&mut self, outcome: Result<Vec<String>, String>) -> (r: GenStep)
        requires
            old(self).wf(),
            old(self).stage() == GenStage::Drawing,
            old(self).kind() == RunKind::Article ==> (outcome is Ok ==> (old(
                self,
            ).platforms() matches Ok(ps) ==> cuts_ok(old(self).text(), ps))),
        ensures
            final(self).wf(),
            final(self).same_task(*old(self)),
            final(self).text() == old(self).text(),
            match outcome {
                Err(e) => final(self).stops(r, *old(self)) && fails_ai(r.action, AI_001@, e@),
                Ok(urls) => {
                    &&& final(self).stage() == GenStage::Over
                    &&& final(self).marked() == plan(old(self).kind())
                    &&& if old(self).kind() == RunKind::ContentText {
                        r.marks@.len() == 0 && generated(r.action, old(self).text(), urls@)
                    } else {
                        &&& final(self).records(r, *old(self), 2, 4)
                        &&& old(self).platforms() matches Ok(ps) && executed_article(
                            r.action,
                            old(self).text(),
                            urls@,
                            ps,
                        )
                    }
                },
            },
    {
        match outcome {
            Err(e) => {
                self.stage = GenStage::Over;
                GenStep { marks: Vec::new(), action: GenAction::Fail(AppError::ai(AI_001, e.as_str())) }
            },
            Ok(urls) => {
                self.stage = GenStage::Over;
                if self.kind == RunKind::ContentText {
                    proof {
                        assert(self.marked@ =~= plan(self.kind));
                    }
                    let g = GenerationResult {
                        success: true,
                        generated_text: Some(self.text.clone()),
                        generated_images: urls,
                        error_message: None,
                    };
                    GenStep { marks: Vec::new(), action: GenAction::Generated(g) }
                } else {
                    let marks = plan_marks(self.kind, 2, 4);
                    self.marked = Ghost(self.marked@ + marks_view(marks@));
                    proof {
                        assert(self.marked@ =~= plan(self.kind));
                    }
                    let adapted = adapt_article(&self.text, &self.platforms);
                    let x = ExecutionResult {
                        success: true,
                        generated_text: Some(self.text.clone()),
                        generated_images: urls,
                        generated_video: None,
                        generated_audio: None,
                        adapted_contents: adapted,
                        results: Vec::new(),
                        error_message: None,
                    };
                    GenStep { marks, action: GenAction::Executed(x) }
                }
            },
        }
    }

    /// The narration was synthesized, or synthesis failed with the text;
    /// the audio is stored next.
    pub fn on_spoken(&mut self, outcome: Result<(), String>) -> (r: GenStep)
        requires
            old(self).wf(),
            old(self).stage() == GenStage::Speaking,
        ensures
            final(self).wf(),
            final(self).same_task(*old(self)),
            final(self).text() == old(self).text(),
            match outcome {
                Err(e) => final(self).stops(r, *old(self)) && fails_ai(
                    r.action,
                    AI_002@,
                    "TTS 生成失败: "@ + e@,
                ),
                Ok(_) => {
                    &&& final(self).stage() == GenStage::Saving
                    &&& r.marks@.len() == 0
                    &&& final(self).marked() == old(self).marked()
                    &&& r.action matches GenAction::SaveAudio(path) && path@ == audio_path(
                        old(self).task_id(),
                    )
                },
            },
    {
        match outcome {
            Err(e) => {
                self.stage = GenStage::Over;
                let mut m: Vec<char> = Vec::new();
                push_str(&mut m, "TTS 生成失败: ");
                push_str(&mut m, e.as_str());
                let msg = string_of(&m);
                GenStep { marks: Vec::new(), action: GenAction::Fail(AppError::ai(AI_002, msg.as_str())) }
            },
            Ok(_) => {
                self.stage = GenStage::Saving;
                let path = file_in("./data/audio", self.task_id.as_str(), ".mp3");
                GenStep { marks: Vec::new(), action: GenAction::SaveAudio(path) }
            },
        }
    }

    /// The audio was stored, or storing failed with the text; the video is
    /// rendered next from the script's scenes.
    pub fn on_saved(&mut self, outcome: Result<(), String>) -> (r: GenStep)
        requires
            old(self).wf(),
            old(self).stage() == GenStage::Saving,
        ensures
            final(self).wf(),
            final(self).same_task(*old(self)),
            final(self).text() == old(self).text(),
            match outcome {
                Err(e) => final(self).stops(r, *old(self)) && fails_internal(
                    r.action,
                    "音频文件保存失败: "@ + e@,
                ),
                Ok(_) => {
                    &&& final(self).stage() == GenStage::Rendering
                    &&& final(self).records(r, *old(self), 3, 4)
                    &&& r.action matches GenAction::Render(req) && req.model@ == old(
                        self,
                    ).models().video_model@ && req.prompt@ == video_prompt(old(self).text())
                        && req.image is None
                },
            },
    {
        match outcome {
            Err(e) => {
                self.stage = GenStage::Over;
                let mut m: Vec<char> = Vec::new();
                push_str(&mut m, "音频文件保存失败: ");
                push_str(&mut m, e.as_str());
                GenStep { marks: Vec::new(), action: GenAction::Fail(AppError::Internal(string_of(&m))) }
            },
            Ok(_) => {
                let marks = plan_marks(self.kind, 3, 4);
                self.marked = Ghost(self.marked@ + marks_view(marks@));
                self.stage = GenStage::Rendering;
                proof {
                    assert(self.marked@ =~= plan(self.kind).take(4));
                }
                let prompt = TaskExecutor::build_video_prompt(self.text.as_str());
                let req = VideoRequest { model: self.models.video_model.clone(), prompt, image: None };
                GenStep { marks, action: GenAction::Render(req) }
            },
        }
    }

    /// The video was rendered (its download address) or rendering failed
    /// with the text; the video is downloaded next.
    pub fn on_rendered(&mut self, outcome: Result<String, String>) -> (r: GenStep)
        requires
            old(self).wf(),
            old(self).stage() == GenStage::Rendering,
        ensures
            final(self).wf(),
            final(self).same_task(*old(self)),
            final(self).text() == old(self).text(),
            match outcome {
                Err(e) => final(self).stops(r, *old(self)) && fails_ai(
                    r.action,
                    AI_003@,
                    "视频生成失败: "@ + e@,
                ),
                Ok(url) => {
                    &&& final(self).stage() == GenStage::Downloading
                    &&& final(self).records(r, *old(self), 4, 5)
                    &&& r.action matches GenAction::Download { url: u, path } && u@ == url@ && path@
                        == raw_video_path(old(self).task_id())
                },
            },
    {
        match outcome {
            Err(e) => {
                self.stage = GenStage::Over;
                let mut m: Vec<char> = Vec::new();
                push_str(&mut m, "视频生成失败: ");
                push_str(&mut m, e.as_str());
                let msg = string_of(&m);
                GenStep { marks: Vec::new(), action: GenAction::Fail(AppError::ai(AI_003, msg.as_str())) }
            },
            Ok(url) => {
                let marks = plan_marks(self.kind, 4, 5);
                self.marked = Ghost(self.marked@ + marks_view(marks@));
                self.stage = GenStage::Downloading;
                proof {
                    assert(self.marked@ =~= plan(self.kind).take(5));
                }
                let path = file_in("./data/video", self.task_id.as_str(), "_raw.mp4");
                GenStep { marks, action: GenAction::Download { url, path } }
            },
        }
    }

    /// The video was downloaded, or the download failed with the text; the
    /// narration is laid under the video next.
    pub fn on_downloaded(&mut self, outcome: Result<(), String>) -> (r: GenStep)
        requires
            old(self).wf(),
            old(self).stage() == GenStage::Downloading,
        ensures
            final(self).wf(),
            final(self).same_task(*old(self)),
            final(self).text() == old(self).text(),
            match outcome {
                Err(e) => final(self).stops(r, *old(self)) && fails_internal(
                    r.action,
                    "视频下载失败: "@ + e@,
                ),
                Ok(_) => {
                    &&& final(self).stage() == GenStage::Merging
                    &&& r.marks@.len() == 0
                    &&& final(self).marked() == old(self).marked()
                    &&& r.action matches GenAction::Merge { args, output } && output@
                        == final_video_path(old(self).task_id()) && texts(args@) == merge_arguments(
                        raw_video_path(old(self).task_id()),
                        audio_path(old(self).task_id()),
                        final_video_path(old(self).task_id()),
                    )
                },
            },
    {
        match outcome {
            Err(e) => {
                self.stage = GenStage::Over;
                let mut m: Vec<char> = Vec::new();
                push_str(&mut m, "视频下载失败: ");
                push_str(&mut m, e.as_str());
                GenStep { marks: Vec::new(), action: GenAction::Fail(AppError::Internal(string_of(&m))) }
            },
            Ok(_) => {
                self.stage = GenStage::Merging;
                let raw = file_in("./data/video", self.task_id.as_str(), "_raw.mp4");
                let audio = file_in("./data/audio", self.task_id.as_str(), ".mp3");
                let output = file_in("./data/video", self.task_id.as_str(), ".mp4");
                let args = merge_args(raw.as_str(), audio.as_str(), output.as_str());
                GenStep { marks: Vec::new(), action: GenAction::Merge { args, output } }
            },
        }
    }

    /// ffmpeg's merge ended. On success the last step is recorded and the
    /// task's run ends with the script, the videos and the announcement
    /// adapted to each platform; the platforms must be readable.
    pub fn on_merged(&mut self, outcome: MergeOutcome) -> (r: GenStep)
        requires
            old(self).wf(),
            old(self).stage() == GenStage::Merging,
        ensures
            final(self).wf(),
            final(self).same_task(*old(self)),
            final(self).text() == old(self).text(),
            final(self).stage() == GenStage::Over,
            match outcome {
                MergeOutcome::NotRun(e) => final(self).stops(r, *old(self)) && fails_internal(
                    r.action,
                    "音视频合并失败: "@ + e@,
                ),
                MergeOutcome::Exited { success, stderr } => if !success {
                    final(self).stops(r, *old(self)) && fails_internal(
                        r.action,
                        "音视频合并失败: ffmpeg 合并失败: "@ + stderr@,
                    )
                } else {
                    &&& final(self).records(r, *old(self), 5, 6)
                    &&& final(self).marked() == plan(RunKind::Video)
                    &&& match old(self).platforms() {
                        Err(e) => r.action matches GenAction::Fail(err) && err matches AppError::Validation {
                            code,
                            message,
                        } && code@ == INPUT_001@ && message@ == "平台配置解析失败: "@ + e,
                        Ok(ps) => executed_video(
                            r.action,
                            old(self).text(),
                            final_video_path(old(self).task_id()),
                            audio_path(old(self).task_id()),
                            ps,
                        ),
                    }
                },
            },
    {
        match outcome {
            MergeOutcome::NotRun(e) => {
                self.stage = GenStage::Over;
                let mut m: Vec<char> = Vec::new();
                push_str(&mut m, "音视频合并失败: ");
                push_str(&mut m, e.as_str());
                GenStep { marks: Vec::new(), action: GenAction::Fail(AppError::Internal(string_of(&m))) }
            },
            MergeOutcome::Exited { success, stderr } => {
                self.stage = GenStage::Over;
                if !success {
                    let mut m: Vec<char> = Vec::new();
                    push_str(&mut m, "音视频合并失败: ffmpeg 合并失败: ");
                    push_str(&mut m, stderr.as_str());
                    return GenStep {
                        marks: Vec::new(),
                        action: GenAction::Fail(AppError::Internal(string_of(&m))),
                    };
                }
                let marks = plan_marks(self.kind, 5, 6);
                self.marked = Ghost(self.marked@ + marks_view(marks@));
                proof {
                    assert(self.marked@ =~= plan(self.kind));
                }
                match &self.platforms {
                    Err(e) => {
                        let mut m: Vec<char> = Vec::new();
                        push_str(&mut m, "平台配置解析失败: ");
                        push_str(&mut m, e.as_str());
                        let msg = string_of(&m);
                        GenStep {
                            marks,
                            action: GenAction::Fail(AppError::validation(INPUT_001, msg.as_str())),
                        }
                    },
                    Ok(ps) => {
                        let audio = file_in("./data/audio", self.task_id.as_str(), ".mp3");
                        let video = file_in("./data/video", self.task_id.as_str(), ".mp4");
                        let adapted = TaskExecutor::adapt_video_content(
                            self.text.as_str(),
                            video.as_str(),
                            audio.as_str(),
                            ps.as_slice(),
                        );
                        let x = ExecutionResult {
                            success: true,
                            generated_text: Some(self.text.clone()),
                            generated_images: Vec::new(),
                            generated_video: Some(video),
                            generated_audio: Some(audio),
                            adapted_contents: adapted,
                            results: Vec::new(),
                            error_message: None,
                        };
                        GenStep { marks, action: GenAction::Executed(x) }
                    },
                }
            },
        }
    }
}


/// `r` is a fresh run of the given kind over the task's data.
pub open spec fn fresh_run(
    r: GenerationRun,
    kind: RunKind,
    task: Task,
    platforms: Result<Vec<Platform>, String>,
    models: crate::user::UserModelConfig,
) -> bool {
    &&& r.wf()
    &&& r.kind() == kind
    &&& r.stage() == GenStage::Start
    &&& r.marked().len() == 0
    &&& r.task_id() == task.id@
    &&& r.topic() == task.topic@
    &&& r.day() == match task.event_date {
        Some(t) => ymd_date(t@),
        None => None,
    }
    &&& r.platforms() == match platforms {
        Ok(v) => Ok::<Seq<Platform>, Seq<char>>(v@),
        Err(e) => Err(e@),
    }
    &&& r.models() == models
}

impl TaskExecutor {
    /// The run that only generates a task's content: the article and its
    /// pictures, or the video script, as the task's mode says.
    pub fn generate_content(
        task: &Task,
        platforms: Result<Vec<Platform>, String>,
        models: crate::user::UserModelConfig,
    ) -> (r: GenerationRun)
        ensures
            fresh_run(r, run_kind(true, mode_of_text(task.mode@)), *task, platforms, models),
    {
        let day = task.get_event_date();
        GenerationRun::new(true, task.get_mode(), task.id.clone(), task.topic.clone(), day, platforms, models)
    }

    /// The run of a text task: the article, its pictures, and the article
    /// adapted to each of the task's platforms.
    pub fn execute_text_mode(
        task: &Task,
        platforms: Result<Vec<Platform>, String>,
        models: crate::user::UserModelConfig,
    ) -> (r: GenerationRun)
        ensures
            fresh_run(r, RunKind::Article, *task, platforms, models),
    {
        let day = task.get_event_date();
        GenerationRun::new(false, TaskMode::Text, task.id.clone(), task.topic.clone(), day, platforms, models)
    }

    /// The run of a video task: the script, the spoken narration, the video
    /// with the narration under it, and the announcement adapted to each of
    /// the task's platforms.
    pub fn execute_video_mode(
        task: &Task,
        platforms: Result<Vec<Platform>, String>,
        models: crate::user::UserModelConfig,
    ) -> (r: GenerationRun)
        ensures
            fresh_run(r, RunKind::Video, *task, platforms, models),
    {
        let day = task.get_event_date();
        GenerationRun::new(false, TaskMode::Video, task.id.clone(), task.topic.clone(), day, platforms, models)
    }
}

} // verus!
