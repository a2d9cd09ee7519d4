//! Content shaping of the task pipeline: what is read out of a generated
//! video script, the prompt for the video model, the input of speech
//! synthesis, and the text adapted to each platform.
//!
//! The calls to the AI service, the file system and ffmpeg are made by the
//! service around this module; everything decided on their results is here.
use crate::text::{
    chars_of, contains, cut_ok, has_sub, join, join_exec, lines, lines_exec, push_all, push_str,
    remove_all, remove_all_exec, string_of, take_at_most, take_lines, trim, trim_exec,
    truncate_bytes,
};
use crate::types::{Platform, PublishResult};
use vstd::prelude::*;
use vstd::string::StringSliceAdditionalSpecFns;

verus! {

broadcast use vstd::string::group_string_axioms;

/// Result of running a task.
#[derive(Debug)]
pub struct ExecutionResult {
    pub success: bool,
    pub generated_text: Option<String>,
    pub generated_images: Vec<String>,
    pub generated_video: Option<String>,
    pub generated_audio: Option<String>,
    pub adapted_contents: Vec<(Platform, String)>,
    pub results: Vec<PublishResult>,
    pub error_message: Option<String>,
}

/// Result of generating content only (no adaptation to platforms).
#[derive(Debug)]
pub struct GenerationResult {
    pub success: bool,
    pub generated_text: Option<String>,
    pub generated_images: Vec<String>,
    pub error_message: Option<String>,
}

/// Result of generating a video.
#[derive(Debug)]
pub struct VideoGenerationResult {
    pub script: String,
    pub video_url: Option<String>,
    pub audio_url: Option<String>,
}

/// The task pipeline.
pub struct TaskExecutor;

// ---------------------------------------------------------------------
// What each step produces
// ---------------------------------------------------------------------

/// The first `n` lines of `s`, joined by line feeds.
pub open spec fn first_lines(s: Seq<char>, n: nat) -> Seq<char> {
    join(take_at_most(lines(s), n), "\n"@)
}

/// A script line that carries narration.
pub open spec fn is_narration_line(l: Seq<char>) -> bool {
    has_sub(l, "配音："@) || has_sub(l, "配音:"@)
}

/// The narration a script line carries, without its label.
pub open spec fn narration_text(l: Seq<char>) -> Seq<char> {
    trim(remove_all(remove_all(l, "配音："@), "配音:"@))
}

/// The non-empty narration texts of the narration lines, in order.
pub open spec fn narration_parts(ls: Seq<Seq<char>>) -> Seq<Seq<char>>
    decreases ls.len(),
{
    if ls.len() == 0 {
        seq![]
    } else {
        let rest = narration_parts(ls.drop_last());
        let l = ls.last();
        if is_narration_line(l) && narration_text(l).len() > 0 {
            rest.push(narration_text(l))
        } else {
            rest
        }
    }
}

/// A script line that describes a scene, a picture or a duration.
pub open spec fn is_direction_line(l: Seq<char>) -> bool {
    has_sub(l, "场景"@) || has_sub(l, "画面"@) || has_sub(l, "时长"@)
}

/// The lines that are not directions, in order.
pub open spec fn plain_lines(ls: Seq<Seq<char>>) -> Seq<Seq<char>>
    decreases ls.len(),
{
    if ls.len() == 0 {
        seq![]
    } else {
        let rest = plain_lines(ls.drop_last());
        if is_direction_line(ls.last()) {
            rest
        } else {
            rest.push(ls.last())
        }
    }
}

/// The narration of a script: its narration texts one per line; without
/// any, its first ten lines that are not directions.
pub open spec fn narration(script: Seq<char>) -> Seq<char> {
    let parts = narration_parts(lines(script));
    if parts.len() == 0 {
        join(take_at_most(plain_lines(lines(script)), 10), "\n"@)
    } else {
        join(parts, "\n"@)
    }
}

/// A script line that describes a scene or a picture.
pub open spec fn is_scene_line(l: Seq<char>) -> bool {
    has_sub(l, "场景"@) || has_sub(l, "画面"@)
}

/// The scene lines, in order.
pub open spec fn scene_lines(ls: Seq<Seq<char>>) -> Seq<Seq<char>>
    decreases ls.len(),
{
    if ls.len() == 0 {
        seq![]
    } else {
        let rest = scene_lines(ls.drop_last());
        if is_scene_line(ls.last()) {
            rest.push(ls.last())
        } else {
            rest
        }
    }
}

/// A scene line without its labels.
pub open spec fn scene_text(l: Seq<char>) -> Seq<char> {
    trim(remove_all(remove_all(remove_all(l, "场景/画面描述："@), "场景:"@), "画面:"@))
}

/// `scene_text` of each line.
pub open spec fn scene_texts(ls: Seq<Seq<char>>) -> Seq<Seq<char>>
    decreases ls.len(),
{
    if ls.len() == 0 {
        seq![]
    } else {
        scene_texts(ls.drop_last()).push(scene_text(ls.last()))
    }
}

/// The prompt for the video model: the texts of the first five scene
/// lines joined by full-width commas; without scene lines, a request built
/// from the first three lines of the script.
pub open spec fn video_prompt(script: Seq<char>) -> Seq<char> {
    let parts = scene_texts(take_at_most(scene_lines(lines(script)), 5));
    if parts.len() == 0 {
        "根据以下内容创作短视频画面："@ + join(take_at_most(lines(script), 3), " "@)
    } else {
        join(parts, "，"@)
    }
}

/// The text of a generated article adapted to platform `p`.
pub open spec fn adapted_text(t: Seq<char>, p: Platform) -> Seq<char> {
    match p {
        Platform::Weibo => truncate_bytes(t, 2000) + "\n\n#新媒体# #内容创作#"@,
        Platform::Bilibili => first_lines(t, 50) + "\n\n欢迎观看！记得一键三连哦～"@,
        Platform::Toutiao => "【今日热文】\n\n"@ + t,
        Platform::Xiaohongshu => "✨ 今日分享 ✨\n\n"@ + t + "\n\n#种草 #好物推荐"@,
        Platform::Douyin => truncate_bytes(t, 150) + "\n\n#抖音 #热门"@,
        Platform::WeChatOfficial => t,
    }
}

/// The announcement of a generated video adapted to platform `p`.
pub open spec fn adapted_video_text(
    script: Seq<char>,
    video: Seq<char>,
    audio: Seq<char>,
    p: Platform,
) -> Seq<char> {
    match p {
        Platform::Weibo => "🎬 新视频发布\n\n"@ + first_lines(script, 5) + "\n\n视频链接："@ + video
            + "\n音频："@ + audio + "\n\n#短视频# #创作#"@,
        Platform::Bilibili => "📹 "@ + first_lines(script, 3) + "\n\n视频已生成，欢迎观看！\n\n视频链接："@
            + video + "\n\n记得一键三连哦～"@,
        Platform::Douyin => "🎬 "@ + first_lines(script, 2) + "\n\n视频链接："@ + video
            + "\n\n#抖音 #热门 #短视频"@,
        Platform::Xiaohongshu => "✨ 视频创作 ✨\n\n"@ + first_lines(script, 5) + "\n\n视频链接："@
            + video + "\n\n#视频 #创作 #分享"@,
        Platform::Toutiao => "【视频】"@ + first_lines(script, 3) + "\n\n视频链接："@ + video
            + "\n\n#热门视频#"@,
        Platform::WeChatOfficial => "视频内容\n\n"@ + script + "\n\n视频链接："@ + video + "\n音频文件："@
            + audio,
    }
}

/// Cutting the article for the platforms in `ps` does not split a
/// character: Weibo keeps its first 2000 bytes, Douyin its first 150.
pub open spec fn cuts_ok(t: Seq<char>, ps: Seq<Platform>) -> bool {
    &&& ps.contains(Platform::Weibo) ==> cut_ok(t, 2000)
    &&& ps.contains(Platform::Douyin) ==> cut_ok(t, 150)
}

/// The voice used when none is configured.
pub open spec fn default_voice() -> Seq<char> {
    "male-qn-qingse"@
}

// ---------------------------------------------------------------------
// Executable steps
// ---------------------------------------------------------------------

/// The characters of `text` within its first `n` bytes, all of them if it
/// is no longer; cutting inside a character is excluded by `requires`.
pub fn truncated_chars(text: &str, n: usize) -> (r: Vec<char>)
    requires
        cut_ok(text@, n as nat),
    ensures
        r@ == truncate_bytes(text@, n as nat),
{
    let len = text.as_bytes().len();
    if len > n {
        let (head, _) = text.split_at(n);
        proof {
            vstd::utf8::encode_utf8_decode_utf8(head@);
            assert(head.spec_bytes() =~= vstd::utf8::encode_utf8(text@).take(n as int));
        }
        chars_of(head)
    } else {
        chars_of(text)
    }
}

/// The first `n` lines of `s`, joined by line feeds.
pub fn first_lines_exec(s: &[char], n: usize) -> (r: Vec<char>)
    ensures
        r@ == first_lines(s@, n as nat),
{
    let ls = lines_exec(s);
    let ls = take_lines(ls, n);
    let nl = chars_of("\n");
    join_exec(&ls, &nl)
}

fn narration_of_line(l: &[char]) -> (r: Vec<char>)
    ensures
        r@ == narration_text(l@),
{
    let p1 = chars_of("配音：");
    proof {
        reveal_strlit("配音：");
    }
    let p2 = chars_of("配音:");
    proof {
        reveal_strlit("配音:");
    }
    let a = remove_all_exec(l, &p1);
    let b = remove_all_exec(&a, &p2);
    trim_exec(&b)
}

fn is_narration_line_exec(l: &[char]) -> (r: bool)
    ensures
        r == is_narration_line(l@),
{
    let p1 = chars_of("配音：");
    proof {
        reveal_strlit("配音：");
    }
    let p2 = chars_of("配音:");
    proof {
        reveal_strlit("配音:");
    }
    contains(l, &p1) || contains(l, &p2)
}

fn is_direction_line_exec(l: &[char]) -> (r: bool)
    ensures
        r == is_direction_line(l@),
{
    let a = chars_of("场景");
    let b = chars_of("画面");
    let c = chars_of("时长");
    contains(l, &a) || contains(l, &b) || contains(l, &c)
}

fn is_scene_line_exec(l: &[char]) -> (r: bool)
    ensures
        r == is_scene_line(l@),
{
    let a = chars_of("场景");
    let b = chars_of("画面");
    contains(l, &a) || contains(l, &b)
}

fn scene_text_exec(l: &[char]) -> (r: Vec<char>)
    ensures
        r@ == scene_text(l@),
{
    let p1 = chars_of("场景/画面描述：");
    proof {
        reveal_strlit("场景/画面描述：");
    }
    let p2 = chars_of("场景:");
    proof {
        reveal_strlit("场景:");
    }
    let p3 = chars_of("画面:");
    proof {
        reveal_strlit("画面:");
    }
    let a = remove_all_exec(l, &p1);
    let b = remove_all_exec(&a, &p2);
    let c = remove_all_exec(&b, &p3);
    trim_exec(&c)
}

proof fn lemma_take_last<A>(s: Seq<A>, i: int)
    requires
        0 <= i < s.len(),
    ensures
        s.take(i + 1).drop_last() == s.take(i),
        s.take(i + 1).last() == s[i],
{
    assert(s.take(i + 1).drop_last() =~= s.take(i));
}

proof fn lemma_push_deep_view(v: Vec<Vec<char>>, x: Vec<char>, w: Vec<Vec<char>>)
    requires
        w@ == v@.push(x),
    ensures
        w.deep_view() == v.deep_view().push(x@),
{
    assert(x.deep_view() =~= x@);
    assert(w.deep_view() =~= v.deep_view().push(x@));
}

fn narration_parts_exec(ls: &Vec<Vec<char>>) -> (r: Vec<Vec<char>>)
    ensures
        r.deep_view() == narration_parts(ls.deep_view()),
{
    let mut out: Vec<Vec<char>> = Vec::new();
    let mut i: usize = 0;
    while i < ls.len()
        invariant
            i <= ls.len(),
            out.deep_view() == narration_parts(ls.deep_view().take(i as int)),
        decreases ls.len() - i,
    {
        proof {
            lemma_take_last(ls.deep_view(), i as int);
        }
        let l = &ls[i];
        assert(l.deep_view() =~= l@);
        if is_narration_line_exec(l) {
            let t = narration_of_line(l);
            if t.len() > 0 {
                let ghost before = out;
                out.push(t);
                proof {
                    lemma_push_deep_view(before, t, out);
                }
            }
        }
        i = i + 1;
    }
    assert(ls.deep_view().take(ls.len() as int) =~= ls.deep_view());
    out
}

fn plain_lines_exec(ls: &Vec<Vec<char>>) -> (r: Vec<Vec<char>>)
    ensures
        r.deep_view() == plain_lines(ls.deep_view()),
{
    let mut out: Vec<Vec<char>> = Vec::new();
    let mut i: usize = 0;
    while i < ls.len()
        invariant
            i <= ls.len(),
            out.deep_view() == plain_lines(ls.deep_view().take(i as int)),
        decreases ls.len() - i,
    {
        proof {
            lemma_take_last(ls.deep_view(), i as int);
        }
        let l = &ls[i];
        assert(l.deep_view() =~= l@);
        if !is_direction_line_exec(l) {
            let c = l.clone();
            assert(c@ == l@);
            let ghost before = out;
            out.push(c);
            proof {
                lemma_push_deep_view(before, c, out);
            }
        }
        i = i + 1;
    }
    assert(ls.deep_view().take(ls.len() as int) =~= ls.deep_view());
    out
}

fn scene_lines_exec(ls: &Vec<Vec<char>>) -> (r: Vec<Vec<char>>)
    ensures
        r.deep_view() == scene_lines(ls.deep_view()),
{
    let mut out: Vec<Vec<char>> = Vec::new();
    let mut i: usize = 0;
    while i < ls.len()
        invariant
            i <= ls.len(),
            out.deep_view() == scene_lines(ls.deep_view().take(i as int)),
        decreases ls.len() - i,
    {
        proof {
            lemma_take_last(ls.deep_view(), i as int);
        }
        let l = &ls[i];
        assert(l.deep_view() =~= l@);
        if is_scene_line_exec(l) {
            let c = l.clone();
            assert(c@ == l@);
            let ghost before = out;
            out.push(c);
            proof {
                lemma_push_deep_view(before, c, out);
            }
        }
        i = i + 1;
    }
    assert(ls.deep_view().take(ls.len() as int) =~= ls.deep_view());
    out
}

fn scene_texts_exec(ls: &Vec<Vec<char>>) -> (r: Vec<Vec<char>>)
    ensures
        r.deep_view() == scene_texts(ls.deep_view()),
{
    let mut out: Vec<Vec<char>> = Vec::new();
    let mut i: usize = 0;
    while i < ls.len()
        invariant
            i <= ls.len(),
            out.deep_view() == scene_texts(ls.deep_view().take(i as int)),
        decreases ls.len() - i,
    {
        proof {
            lemma_take_last(ls.deep_view(), i as int);
        }
        let l = &ls[i];
        assert(l.deep_view() =~= l@);
        let t = scene_text_exec(l);
        let ghost before = out;
        out.push(t);
        proof {
            lemma_push_deep_view(before, t, out);
        }
        i = i + 1;
    }
    assert(ls.deep_view().take(ls.len() as int) =~= ls.deep_view());
    out
}

/// Appends the text of `v` and of `s` to `out`.
fn push_chars_and_str(out: &mut Vec<char>, v: &[char], s: &str)
    ensures
        final(out)@ == old(out)@ + v@ + s@,
{
    push_all(out, v);
    push_str(out, s);
}

impl TaskExecutor {
    /// The narration of a video script: the text of its narration lines
    /// (`配音：` / `配音:`), one per line; without any, its first ten lines
    /// that are not scene, picture or duration directions.
    pub fn extract_narration_from_script(script: &str) -> (r: String)
        ensures
            r@ == narration(script@),
    {
        let s = chars_of(script);
        let ls = lines_exec(&s);
        let parts = narration_parts_exec(&ls);
        let nl = chars_of("\n");
        if parts.len() == 0 {
            let plain = plain_lines_exec(&ls);
            let first = take_lines(plain, 10);
            let joined = join_exec(&first, &nl);
            string_of(&joined)
        } else {
            let joined = join_exec(&parts, &nl);
            string_of(&joined)
        }
    }

    /// The prompt for the video model built from a script.
    pub fn build_video_prompt(script: &str) -> (r: String)
        ensures
            r@ == video_prompt(script@),
    {
        let s = chars_of(script);
        let ls = lines_exec(&s);
        let scenes = scene_lines_exec(&ls);
        let scenes = take_lines(scenes, 5);
        let parts = scene_texts_exec(&scenes);
        if parts.len() == 0 {
            let first = take_lines(ls, 3);
            let sp = chars_of(" ");
            let joined = join_exec(&first, &sp);
            let mut out: Vec<char> = Vec::new();
            push_str(&mut out, "根据以下内容创作短视频画面：");
            push_all(&mut out, &joined);
            string_of(&out)
        } else {
            let comma = chars_of("，");
            let joined = join_exec(&parts, &comma);
            string_of(&joined)
        }
    }

    /// The input of speech synthesis: the text cut to its first 1000 bytes
    /// and the voice, or the default voice if none is given.
    pub fn tts_input<'a>(text: &'a str, voice_id: &'a str) -> (r: (String, &'a str))
        requires
            cut_ok(text@, 1000),
        ensures
            r.0@ == truncate_bytes(text@, 1000),
            r.1@ == if voice_id@.len() == 0 {
                default_voice()
            } else {
                voice_id@
            },
    {
        let voice: &'a str = if voice_id.is_empty() {
            "male-qn-qingse"
        } else {
            voice_id
        };
        let t = truncated_chars(text, 1000);
        (string_of(&t), voice)
    }

    /// The article text adapted to one platform.
    pub fn adapt_for(text: &str, p: Platform) -> (r: String)
        requires
            p == Platform::Weibo ==> cut_ok(text@, 2000),
            p == Platform::Douyin ==> cut_ok(text@, 150),
        ensures
            r@ == adapted_text(text@, p),
    {
        let mut out: Vec<char> = Vec::new();
        match p {
            Platform::Weibo => {
                let t = truncated_chars(text, 2000);
                push_chars_and_str(&mut out, &t, "\n\n#新媒体# #内容创作#");
            },
            Platform::Bilibili => {
                let s = chars_of(text);
                let f = first_lines_exec(&s, 50);
                push_chars_and_str(&mut out, &f, "\n\n欢迎观看！记得一键三连哦～");
            },
            Platform::Toutiao => {
                push_str(&mut out, "【今日热文】\n\n");
                push_str(&mut out, text);
            },
            Platform::Xiaohongshu => {
                push_str(&mut out, "✨ 今日分享 ✨\n\n");
                push_str(&mut out, text);
                push_str(&mut out, "\n\n#种草 #好物推荐");
            },
            Platform::Douyin => {
                let t = truncated_chars(text, 150);
                push_chars_and_str(&mut out, &t, "\n\n#抖音 #热门");
            },
            Platform::WeChatOfficial => {
                push_str(&mut out, text);
            },
        }
        string_of(&out)
    }

    /// The article text adapted to each platform, in the order given.
    pub fn adapt_content(text: &str, platforms: &[Platform]) -> (r: Vec<(Platform, String)>)
        requires
            cuts_ok(text@, platforms@),
        ensures
            r.len() == platforms.len(),
            forall|i: int|
                0 <= i < platforms.len() ==> (#[trigger] r@[i]).0 == platforms@[i] && r@[i].1@
                    == adapted_text(text@, platforms@[i]),
    {
        let mut out: Vec<(Platform, String)> = Vec::new();
        let mut i: usize = 0;
        while i < platforms.len()
            invariant
                i <= platforms.len(),
                cuts_ok(text@, platforms@),
                out.len() == i,
                forall|k: int|
                    0 <= k < i ==> (#[trigger] out@[k]).0 == platforms@[k] && out@[k].1@
                        == adapted_text(text@, platforms@[k]),
            decreases platforms.len() - i,
        {
            let p = platforms[i];
            proof {
                assert(platforms@.contains(platforms@[i as int]));
            }
            let a = Self::adapt_for(text, p);
            out.push((p, a));
            i = i + 1;
        }
        out
    }

    /// The video announcement adapted to one platform.
    pub fn adapt_video_for(script: &str, video_url: &str, audio_path: &str, p: Platform) -> (r:
        String)
        ensures
            r@ == adapted_video_text(script@, video_url@, audio_path@, p),
    {
        let s = chars_of(script);
        let mut out: Vec<char> = Vec::new();
        match p {
            Platform::Weibo => {
                let f = first_lines_exec(&s, 5);
                push_str(&mut out, "🎬 新视频发布\n\n");
                push_chars_and_str(&mut out, &f, "\n\n视频链接：");
                push_str(&mut out, video_url);
                push_str(&mut out, "\n音频：");
                push_str(&mut out, audio_path);
                push_str(&mut out, "\n\n#短视频# #创作#");
            },
            Platform::Bilibili => {
                let f = first_lines_exec(&s, 3);
                push_str(&mut out, "📹 ");
                push_chars_and_str(&mut out, &f, "\n\n视频已生成，欢迎观看！\n\n视频链接：");
                push_str(&mut out, video_url);
                push_str(&mut out, "\n\n记得一键三连哦～");
            },
            Platform::Douyin => {
                let f = first_lines_exec(&s, 2);
                push_str(&mut out, "🎬 ");
                push_chars_and_str(&mut out, &f, "\n\n视频链接：");
                push_str(&mut out, video_url);
                push_str(&mut out, "\n\n#抖音 #热门 #短视频");
            },
            Platform::Xiaohongshu => {
                let f = first_lines_exec(&s, 5);
                push_str(&mut out, "✨ 视频创作 ✨\n\n");
                push_chars_and_str(&mut out, &f, "\n\n视频链接：");
                push_str(&mut out, video_url);
                push_str(&mut out, "\n\n#视频 #创作 #分享");
            },
            Platform::Toutiao => {
                let f = first_lines_exec(&s, 3);
                push_str(&mut out, "【视频】");
                push_chars_and_str(&mut out, &f, "\n\n视频链接：");
                push_str(&mut out, video_url);
                push_str(&mut out, "\n\n#热门视频#");
            },
            Platform::WeChatOfficial => {
                push_str(&mut out, "视频内容\n\n");
                push_str(&mut out, script);
                push_str(&mut out, "\n\n视频链接：");
                push_str(&mut out, video_url);
                push_str(&mut out, "\n音频文件：");
                push_str(&mut out, audio_path);
            },
        }
        string_of(&out)
    }

    /// The video announcement adapted to each platform, in the order given.
    pub fn adapt_video_content(
        script: &str,
        video_url: &str,
        audio_path: &str,
        platforms: &[Platform],
    ) -> (r: Vec<(Platform, String)>)
        ensures
            r.len() == platforms.len(),
            forall|i: int|
                0 <= i < platforms.len() ==> (#[trigger] r@[i]).0 == platforms@[i] && r@[i].1@
                    == adapted_video_text(script@, video_url@, audio_path@, platforms@[i]),
    {
        let mut out: Vec<(Platform, String)> = Vec::new();
        let mut i: usize = 0;
        while i < platforms.len()
            invariant
                i <= platforms.len(),
                out.len() == i,
                forall|k: int|
                    0 <= k < i ==> (#[trigger] out@[k]).0 == platforms@[k] && out@[k].1@
                        == adapted_video_text(script@, video_url@, audio_path@, platforms@[k]),
            decreases platforms.len() - i,
        {
            let p = platforms[i];
            let a = Self::adapt_video_for(script, video_url, audio_path, p);
            out.push((p, a));
            i = i + 1;
        }
        out
    }
}

// ---------------------------------------------------------------------
// Laws
// ---------------------------------------------------------------------

proof fn lemma_no_narration_parts(ls: Seq<Seq<char>>)
    requires
        forall|k: int| 0 <= k < ls.len() ==> !has_sub(#[trigger] ls[k], "配音："@) && !has_sub(ls[k], "配音:"@),
    ensures
        narration_parts(ls).len() == 0,
    decreases ls.len(),
{
    if ls.len() > 0 {
        assert(!has_sub(ls[ls.len() - 1], "配音："@));
        lemma_no_narration_parts(ls.drop_last());
    }
}

proof fn lemma_plain_lines_are_plain(ls: Seq<Seq<char>>)
    ensures
        forall|k: int|
            0 <= k < plain_lines(ls).len() ==> ls.contains(#[trigger] plain_lines(ls)[k]) && !has_sub(
                plain_lines(ls)[k],
                "场景"@,
            ) && !has_sub(plain_lines(ls)[k], "画面"@) && !has_sub(plain_lines(ls)[k], "时长"@),
    decreases ls.len(),
{
    if ls.len() > 0 {
        let d = ls.drop_last();
        lemma_plain_lines_are_plain(d);
        assert forall|k: int| 0 <= k < plain_lines(ls).len() implies ls.contains(
            #[trigger] plain_lines(ls)[k],
        ) && !has_sub(plain_lines(ls)[k], "场景"@) && !has_sub(plain_lines(ls)[k], "画面"@) && !has_sub(
            plain_lines(ls)[k],
            "时长"@,
        ) by {
            if k < plain_lines(d).len() {
                let x = plain_lines(d)[k];
                assert(plain_lines(ls)[k] == x);
                let j = choose|j: int| 0 <= j < d.len() && d[j] == x;
                assert(ls[j] == x);
            } else {
                assert(plain_lines(ls)[k] == ls.last());
                assert(ls[ls.len() - 1] == ls.last());
            }
        }
    }
}

/// Without narration lines, the narration is read from at most ten lines
/// of the script, none of which names a scene, a picture or a duration
/// (`场景`, `画面`, `时长`): directions are never read out.
pub proof fn lemma_fallback_narration_has_no_directions(script: Seq<char>)
    requires
        forall|k: int|
            0 <= k < lines(script).len() ==> !has_sub(#[trigger] lines(script)[k], "配音："@) && !has_sub(
                lines(script)[k],
                "配音:"@,
            ),
    ensures
        exists|ps: Seq<Seq<char>>|
            narration(script) == join(ps, "\n"@) && ps.len() <= 10 && forall|k: int|
                0 <= k < ps.len() ==> lines(script).contains(#[trigger] ps[k]) && !has_sub(ps[k], "场景"@)
                    && !has_sub(ps[k], "画面"@) && !has_sub(ps[k], "时长"@),
{
    let ls = lines(script);
    lemma_no_narration_parts(ls);
    lemma_plain_lines_are_plain(ls);
    let pl = plain_lines(ls);
    let ps = take_at_most(pl, 10);
    assert forall|k: int| 0 <= k < ps.len() implies ls.contains(#[trigger] ps[k]) && !has_sub(ps[k], "场景"@)
        && !has_sub(ps[k], "画面"@) && !has_sub(ps[k], "时长"@) by {
        assert(ps[k] == pl[k]);
    }
    assert(narration(script) == join(ps, "\n"@));
}

/// Bilibili keeps an article of at most fifty lines whole: every line, in
/// order, joined by line feeds, followed by the closing greeting.
pub proof fn lemma_bilibili_keeps_short_articles(t: Seq<char>)
    requires
        lines(t).len() <= 50,
    ensures
        adapted_text(t, Platform::Bilibili) == join(lines(t), "\n"@) + "\n\n欢迎观看！记得一键三连哦～"@,
{
    assert(take_at_most(lines(t), 50) =~= lines(t));
}

proof fn lemma_truncate_keeps_a_prefix(t: Seq<char>, n: nat)
    requires
        cut_ok(t, n),
    ensures
        truncate_bytes(t, n).is_prefix_of(t),
        vstd::utf8::encode_utf8(t).len() > n ==> vstd::utf8::encode_utf8(truncate_bytes(t, n)).len() == n,
        vstd::utf8::encode_utf8(t).len() <= n ==> truncate_bytes(t, n) == t,
{
    let b = vstd::utf8::encode_utf8(t);
    if b.len() > n {
        vstd::utf8::encode_utf8_valid_utf8(t);
        vstd::utf8::encode_utf8_decode_utf8(t);
        vstd::utf8::decode_utf8_split(b, n as int);
        vstd::utf8::valid_utf8_split(b, n as int);
        assert(b.take(n as int) =~= b.subrange(0, n as int));
        let kept = vstd::utf8::decode_utf8(b.subrange(0, n as int));
        let rest = vstd::utf8::decode_utf8(b.subrange(n as int, b.len() as int));
        vstd::utf8::decode_utf8_encode_utf8(b.subrange(0, n as int));
        assert(t == kept + rest);
        assert(truncate_bytes(t, n) == kept);
        assert((kept + rest).subrange(0, kept.len() as int) =~= kept);
    } else {
        assert(t.subrange(0, t.len() as int) =~= t);
    }
}

/// Each platform's text holds the article: WeChat takes it as it is,
/// Toutiao and Xiaohongshu frame it; Weibo and Douyin keep it whole up to
/// 2000 and 150 UTF-8 bytes, and of a longer one exactly that many bytes
/// from its start, each followed by its tags.
pub proof fn lemma_adapted_text_holds_the_article(t: Seq<char>)
    ensures
        adapted_text(t, Platform::WeChatOfficial) == t,
        adapted_text(t, Platform::Toutiao) == "【今日热文】\n\n"@ + t,
        adapted_text(t, Platform::Xiaohongshu) == "✨ 今日分享 ✨\n\n"@ + t + "\n\n#种草 #好物推荐"@,
        vstd::utf8::encode_utf8(t).len() <= 2000 ==> adapted_text(t, Platform::Weibo) == t
            + "\n\n#新媒体# #内容创作#"@,
        vstd::utf8::encode_utf8(t).len() <= 150 ==> adapted_text(t, Platform::Douyin) == t
            + "\n\n#抖音 #热门"@,
        cut_ok(t, 2000) && vstd::utf8::encode_utf8(t).len() > 2000 ==> exists|kept: Seq<char>|
            #[trigger] kept.is_prefix_of(t) && vstd::utf8::encode_utf8(kept).len() == 2000 && adapted_text(
                t,
                Platform::Weibo,
            ) == kept + "\n\n#新媒体# #内容创作#"@,
        cut_ok(t, 150) && vstd::utf8::encode_utf8(t).len() > 150 ==> exists|kept: Seq<char>|
            #[trigger] kept.is_prefix_of(t) && vstd::utf8::encode_utf8(kept).len() == 150 && adapted_text(
                t,
                Platform::Douyin,
            ) == kept + "\n\n#抖音 #热门"@,
{
    if cut_ok(t, 2000) {
        lemma_truncate_keeps_a_prefix(t, 2000);
        let k = truncate_bytes(t, 2000);
        assert(k.is_prefix_of(t));
    }
    if cut_ok(t, 150) {
        lemma_truncate_keeps_a_prefix(t, 150);
        let k = truncate_bytes(t, 150);
        assert(k.is_prefix_of(t));
    }
}

/// A script without narration lines and without directions, of at most
/// ten lines, is read out whole: the narration is all its lines, joined by
/// line feeds.
pub proof fn lemma_short_plain_script_read_whole(script: Seq<char>)
    requires
        lines(script).len() <= 10,
        forall|k: int|
            0 <= k < lines(script).len() ==> {
                let l = #[trigger] lines(script)[k];
                !has_sub(l, "配音："@) && !has_sub(l, "配音:"@) && !has_sub(l, "场景"@) && !has_sub(l, "画面"@)
                    && !has_sub(l, "时长"@)
            },
    ensures
        narration(script) == join(lines(script), "\n"@),
{
    let ls = lines(script);
    lemma_no_narration_parts(ls);
    lemma_plain_lines_all(ls);
    assert(take_at_most(plain_lines(ls), 10) =~= ls);
}

proof fn lemma_plain_lines_all(ls: Seq<Seq<char>>)
    requires
        forall|k: int|
            0 <= k < ls.len() ==> !has_sub(#[trigger] ls[k], "场景"@) && !has_sub(ls[k], "画面"@) && !has_sub(
                ls[k],
                "时长"@,
            ),
    ensures
        plain_lines(ls) == ls,
    decreases ls.len(),
{
    if ls.len() > 0 {
        lemma_plain_lines_all(ls.drop_last());
        assert(!has_sub(ls[ls.len() - 1], "场景"@));
        assert(ls.drop_last().push(ls.last()) =~= ls);
    }
}

/// A script without scene lines, of at most three lines, is asked for
/// whole: the video prompt is the request followed by all its lines,
/// joined by spaces.
pub proof fn lemma_short_script_prompt_whole(script: Seq<char>)
    requires
        lines(script).len() <= 3,
        forall|k: int|
            0 <= k < lines(script).len() ==> !has_sub(#[trigger] lines(script)[k], "场景"@) && !has_sub(
                lines(script)[k],
                "画面"@,
            ),
    ensures
        video_prompt(script) == "根据以下内容创作短视频画面："@ + join(lines(script), " "@),
{
    let ls = lines(script);
    lemma_no_scene_lines(ls);
    assert(take_at_most(ls, 3) =~= ls);
}

proof fn lemma_no_scene_lines(ls: Seq<Seq<char>>)
    requires
        forall|k: int| 0 <= k < ls.len() ==> !has_sub(#[trigger] ls[k], "场景"@) && !has_sub(ls[k], "画面"@),
    ensures
        scene_lines(ls).len() == 0,
    decreases ls.len(),
{
    if ls.len() > 0 {
        assert(!has_sub(ls[ls.len() - 1], "场景"@));
        lemma_no_scene_lines(ls.drop_last());
    }
}

/// A longer Bilibili article keeps its first fifty lines, in order,
/// joined by line feeds, followed by the closing greeting.
pub proof fn lemma_bilibili_keeps_fifty_lines(t: Seq<char>)
    requires
        lines(t).len() > 50,
    ensures
        adapted_text(t, Platform::Bilibili) == join(lines(t).take(50), "\n"@) + "\n\n欢迎观看！记得一键三连哦～"@,
{
}

/// A video announcement quotes the script's first lines: Weibo and
/// Xiaohongshu five, Bilibili and Toutiao three, Douyin two (the whole
/// script where it is no longer), in order and joined by line feeds, with
/// the video's address; WeChat quotes the whole script with both
/// addresses.
pub proof fn lemma_video_announcements_quote_the_script(script: Seq<char>, video: Seq<char>, audio: Seq<char>)
    ensures
        lines(script).len() <= 5 ==> adapted_video_text(script, video, audio, Platform::Weibo) == "🎬 新视频发布\n\n"@ + join(lines(script), "\n"@) + "\n\n视频链接："@ + video + "\n音频："@ + audio + "\n\n#短视频# #创作#"@,
        lines(script).len() > 5 ==> adapted_video_text(script, video, audio, Platform::Weibo) == "🎬 新视频发布\n\n"@ + join(lines(script).take(5), "\n"@) + "\n\n视频链接："@ + video + "\n音频："@ + audio + "\n\n#短视频# #创作#"@,
        lines(script).len() <= 3 ==> adapted_video_text(script, video, audio, Platform::Bilibili) == "📹 "@ + join(lines(script), "\n"@) + "\n\n视频已生成，欢迎观看！\n\n视频链接："@ + video + "\n\n记得一键三连哦～"@,
        lines(script).len() > 3 ==> adapted_video_text(script, video, audio, Platform::Bilibili) == "📹 "@ + join(lines(script).take(3), "\n"@) + "\n\n视频已生成，欢迎观看！\n\n视频链接："@ + video + "\n\n记得一键三连哦～"@,
        lines(script).len() <= 2 ==> adapted_video_text(script, video, audio, Platform::Douyin) == "🎬 "@ + join(lines(script), "\n"@) + "\n\n视频链接："@ + video + "\n\n#抖音 #热门 #短视频"@,
        lines(script).len() > 2 ==> adapted_video_text(script, video, audio, Platform::Douyin) == "🎬 "@ + join(lines(script).take(2), "\n"@) + "\n\n视频链接："@ + video + "\n\n#抖音 #热门 #短视频"@,
        lines(script).len() <= 5 ==> adapted_video_text(script, video, audio, Platform::Xiaohongshu) == "✨ 视频创作 ✨\n\n"@ + join(lines(script), "\n"@) + "\n\n视频链接："@ + video + "\n\n#视频 #创作 #分享"@,
        lines(script).len() > 5 ==> adapted_video_text(script, video, audio, Platform::Xiaohongshu) == "✨ 视频创作 ✨\n\n"@ + join(lines(script).take(5), "\n"@) + "\n\n视频链接："@ + video + "\n\n#视频 #创作 #分享"@,
        lines(script).len() <= 3 ==> adapted_video_text(script, video, audio, Platform::Toutiao) == "【视频】"@ + join(lines(script), "\n"@) + "\n\n视频链接："@ + video + "\n\n#热门视频#"@,
        lines(script).len() > 3 ==> adapted_video_text(script, video, audio, Platform::Toutiao) == "【视频】"@ + join(lines(script).take(3), "\n"@) + "\n\n视频链接："@ + video + "\n\n#热门视频#"@,
        adapted_video_text(script, video, audio, Platform::WeChatOfficial) == "视频内容\n\n"@ + script + "\n\n视频链接："@ + video + "\n音频文件："@ + audio,
{
    assert(lines(script).len() <= 2 ==> take_at_most(lines(script), 2) =~= lines(script));
    assert(lines(script).len() > 2 ==> take_at_most(lines(script), 2) =~= lines(script).take(2));
    assert(lines(script).len() <= 3 ==> take_at_most(lines(script), 3) =~= lines(script));
    assert(lines(script).len() > 3 ==> take_at_most(lines(script), 3) =~= lines(script).take(3));
    assert(lines(script).len() <= 5 ==> take_at_most(lines(script), 5) =~= lines(script));
    assert(lines(script).len() > 5 ==> take_at_most(lines(script), 5) =~= lines(script).take(5));
}

} // verus!
