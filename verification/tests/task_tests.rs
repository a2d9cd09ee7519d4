use self_media::draft::{draft_publish_warning, platform_selected, publish_status, DraftStatus};
use self_media::error::AppError;
use self_media::task::executor::TaskExecutor;
use self_media::task::flows::{check_saveable, check_task_owner, draft_parts_of_result};
use self_media::task::model::{parse_mode, Task};
use self_media::task::pipeline::{
    date_constraint, merge_args, picture_request, writing_request, GenAction, GenerationRun,
    MergeOutcome, ARTICLE_SYSTEM, SCRIPT_SYSTEM,
};
use self_media::task::scheduler::{admit_task, check_cancellable, step_progress, task_steps};
use self_media::types::{CalendarDate, Platform, TaskMode, TaskStatus};
use self_media::user::UserModelConfig;

fn models() -> UserModelConfig {
    UserModelConfig {
        text_model: "text-m".to_string(),
        image_model: "image-m".to_string(),
        video_model: "video-m".to_string(),
        speech_model: String::new(),
        music_model: "music-m".to_string(),
    }
}

#[test]
fn mode_text_is_read_back() {
    assert_eq!(parse_mode("video"), TaskMode::Video);
    assert_eq!(parse_mode("text"), TaskMode::Text);
    assert_eq!(parse_mode("anything"), TaskMode::Text);
    assert_eq!(parse_mode(TaskMode::Video.as_str()), TaskMode::Video);
    assert_eq!(parse_mode(TaskMode::Text.as_str()), TaskMode::Text);
}

#[test]
fn admission_checks_limit_then_topic() {
    assert!(admit_task(0, 3, "话题").is_ok());
    match admit_task(3, 3, "话题") {
        Err(AppError::Task { code, message }) => {
            assert_eq!(code, "TASK_003");
            assert_eq!(message, "并发任务数已达上限 (3/3), 请等待");
        },
        other => panic!("unexpected: {:?}", other),
    }
    match admit_task(0, 3, "   ") {
        Err(AppError::Validation { message, .. }) => assert_eq!(message, "主题不能为空"),
        other => panic!("unexpected: {:?}", other),
    }
    let long = "字".repeat(167);
    match admit_task(0, 3, &long) {
        Err(AppError::Validation { message, .. }) => assert_eq!(message, "主题长度不能超过 500 字"),
        other => panic!("unexpected: {:?}", other),
    }
    assert!(admit_task(0, 3, &"字".repeat(166)).is_ok());
}

#[test]
fn steps_and_progress_of_a_mode() {
    assert_eq!(task_steps(TaskMode::Text), vec!["generate_text", "generate_images", "adapt_content", "publish"]);
    assert_eq!(task_steps(TaskMode::Video), vec!["generate_script", "generate_video", "generate_tts", "publish"]);
    assert_eq!(step_progress(1, 4), 25);
    assert_eq!(step_progress(1, 6), 16);
    assert_eq!(step_progress(6, 6), 100);
}

#[test]
fn only_pending_or_running_tasks_can_be_cancelled() {
    assert!(check_cancellable(TaskStatus::Pending).is_ok());
    assert!(check_cancellable(TaskStatus::Running).is_ok());
    match check_cancellable(TaskStatus::Completed) {
        Err(AppError::Task { code, message }) => {
            assert_eq!(code, "TASK_002");
            assert_eq!(message, "只能取消待执行或执行中的任务");
        },
        other => panic!("unexpected: {:?}", other),
    }
}

#[test]
fn ownership_and_saveability_checks() {
    assert!(check_task_owner(1, 1, "x").is_ok());
    match check_task_owner(1, 2, "无权操作此任务") {
        Err(AppError::Auth { code, message }) => {
            assert_eq!(code, "AUTH_006");
            assert_eq!(message, "无权操作此任务");
        },
        other => panic!("unexpected: {:?}", other),
    }
    assert!(check_saveable(TaskStatus::Completed).is_ok());
    match check_saveable(TaskStatus::Failed) {
        Err(AppError::Validation { code, message }) => {
            assert_eq!(code, "TASK_004");
            assert_eq!(message, "只能保存已完成的任务到草稿箱");
        },
        other => panic!("unexpected: {:?}", other),
    }
}

#[test]
fn draft_parts_come_from_the_stored_result() {
    let stored = "{\"generated_text\":\"正文\",\"adapted_contents\":[{\"platform\":\"Weibo\",\"content\":\"w\"},{\"platform\":\"Mars\",\"content\":\"m\"}],\"generated_images\":[\"a.png\",3,\"b.png\"]}";
    let parts = draft_parts_of_result(Some(stored));
    assert_eq!(parts.original_content, Some("正文".to_string()));
    assert_eq!(parts.adapted_contents, vec![(Platform::Weibo, "w".to_string())]);
    assert_eq!(parts.generated_images, vec!["a.png".to_string(), "b.png".to_string()]);
    let none = draft_parts_of_result(None);
    assert_eq!(none.original_content, None);
    assert!(none.adapted_contents.is_empty());
    let broken = draft_parts_of_result(Some("not json"));
    assert!(broken.generated_images.is_empty());
}

#[test]
fn draft_status_after_publishing() {
    assert_eq!(publish_status(0, 3), DraftStatus::Draft);
    assert_eq!(publish_status(3, 3), DraftStatus::Published);
    assert_eq!(publish_status(1, 3), DraftStatus::PartiallyPublished);
    assert_eq!(draft_publish_warning(0, 2), Some("所选平台均未连接登录，请先在平台管理中连接平台".to_string()));
    assert_eq!(draft_publish_warning(0, 0), None);
    assert_eq!(draft_publish_warning(1, 2), None);
    assert_eq!(DraftStatus::from_text(DraftStatus::PartiallyPublished.as_str()), DraftStatus::PartiallyPublished);
    assert_eq!(DraftStatus::from_text("unknown"), DraftStatus::Draft);
}

#[test]
fn platform_selection_by_lower_case_name() {
    assert!(platform_selected(None, Platform::Douyin));
    assert!(platform_selected(Some("wechatofficial"), Platform::WeChatOfficial));
    assert!(!platform_selected(Some("Weibo"), Platform::Weibo));
}

#[test]
fn narration_is_read_from_the_script() {
    let script = "场景：城市夜景\n配音：今晚的灯光很美\n时长：5秒\n配音: 我们出发吧";
    assert_eq!(TaskExecutor::extract_narration_from_script(script), "今晚的灯光很美\n我们出发吧");
    let plain = "第一行\n场景：略过\n第二行";
    assert_eq!(TaskExecutor::extract_narration_from_script(plain), "第一行\n第二行");
}

#[test]
fn video_prompt_joins_the_scenes() {
    let script = "场景:海边\n配音：你好\n画面:日落";
    assert_eq!(TaskExecutor::build_video_prompt(script), "海边，日落");
    assert_eq!(TaskExecutor::build_video_prompt("a\nb\nc\nd"), "根据以下内容创作短视频画面：a b c");
}

#[test]
fn speech_input_is_cut_and_has_a_voice() {
    let (t, v) = TaskExecutor::tts_input("hello", "");
    assert_eq!(t, "hello");
    assert_eq!(v, "male-qn-qingse");
    let long = "a".repeat(1200);
    let (t, v) = TaskExecutor::tts_input(&long, "voice-x");
    assert_eq!(t.len(), 1000);
    assert_eq!(v, "voice-x");
}

#[test]
fn articles_are_adapted_per_platform() {
    let out = TaskExecutor::adapt_content("正文", &[Platform::Toutiao, Platform::Xiaohongshu, Platform::WeChatOfficial]);
    assert_eq!(out[0].1, "【今日热文】\n\n正文");
    assert_eq!(out[1].1, "✨ 今日分享 ✨\n\n正文\n\n#种草 #好物推荐");
    assert_eq!(out[2].1, "正文");
    let long = "b".repeat(300);
    let d = TaskExecutor::adapt_for(&long, Platform::Douyin);
    assert_eq!(d, format!("{}\n\n#抖音 #热门", "b".repeat(150)));
}

#[test]
fn date_rule_names_the_event_day() {
    assert_eq!(
        date_constraint(Some(CalendarDate { year: 2025, month: 1, day: 5 })),
        "请务必使用 2025年01月05日 当天的最新信息。"
    );
    assert_eq!(date_constraint(None), "请务必使用今天的最新信息。");
    assert_eq!(date_constraint(Some(CalendarDate { year: 2025, month: 2, day: 30 })), "请务必使用今天的最新信息。");
}

#[test]
fn event_days_follow_the_calendar_and_the_year_format() {
    assert_eq!(
        date_constraint(Some(CalendarDate { year: 2024, month: 2, day: 29 })),
        "请务必使用 2024年02月29日 当天的最新信息。"
    );
    assert_eq!(date_constraint(Some(CalendarDate { year: 1900, month: 2, day: 29 })), "请务必使用今天的最新信息。");
    assert_eq!(
        date_constraint(Some(CalendarDate { year: 2000, month: 2, day: 29 })),
        "请务必使用 2000年02月29日 当天的最新信息。"
    );
    assert_eq!(
        date_constraint(Some(CalendarDate { year: 987, month: 11, day: 30 })),
        "请务必使用 0987年11月30日 当天的最新信息。"
    );
    assert_eq!(
        date_constraint(Some(CalendarDate { year: 12345, month: 1, day: 1 })),
        "请务必使用 +12345年01月01日 当天的最新信息。"
    );
    assert_eq!(
        date_constraint(Some(CalendarDate { year: -44, month: 3, day: 15 })),
        "请务必使用 -0044年03月15日 当天的最新信息。"
    );
    assert_eq!(date_constraint(Some(CalendarDate { year: 2025, month: 4, day: 31 })), "请务必使用今天的最新信息。");
    assert_eq!(date_constraint(Some(CalendarDate { year: 2025, month: 13, day: 1 })), "请务必使用今天的最新信息。");
    assert_eq!(date_constraint(Some(CalendarDate { year: 262143, month: 1, day: 1 })), "请务必使用今天的最新信息。");
    assert_eq!(
        date_constraint(Some(CalendarDate { year: 262142, month: 12, day: 31 })),
        "请务必使用 +262142年12月31日 当天的最新信息。"
    );
}

#[test]
fn writing_request_has_system_and_user_messages() {
    let m = writing_request(true, "春节", None);
    assert_eq!(m.len(), 2);
    assert_eq!(m[0].role, "system");
    assert_eq!(m[0].content, ARTICLE_SYSTEM);
    assert_eq!(m[1].role, "user");
    assert!(m[1].content.starts_with("请搜索关于\"春节\"的最新信息，然后基于真实搜索结果创作一篇社交媒体文章。"));
    assert!(m[1].content.contains("2. 请务必使用今天的最新信息。\n3. "));
    let s = writing_request(false, "春节", None);
    assert_eq!(s[0].content, SCRIPT_SYSTEM);
    assert!(s[1].content.contains("创作一个短视频脚本"));
}

#[test]
fn picture_request_is_square() {
    let r = picture_request("文章", 3, "image-01");
    assert_eq!(r.prompt, "用于社交媒体的配图，主题：文章");
    assert_eq!(r.n, Some(3));
    assert_eq!(r.aspect_ratio, Some("1:1".to_string()));
    assert_eq!(r.model, "image-01");
}

#[test]
fn merge_arguments_copy_video_and_encode_audio() {
    let a = merge_args("v.mp4", "a.mp3", "o.mp4");
    assert_eq!(
        a,
        vec!["-i", "v.mp4", "-i", "a.mp3", "-c:v", "copy", "-c:a", "aac", "-map", "0:v:0", "-map", "1:a:0", "-shortest", "-y", "o.mp4"]
    );
}

#[test]
fn article_run_walks_its_steps() {
    let mut run = GenerationRun::new(
        false,
        TaskMode::Text,
        "t1".to_string(),
        "topic".to_string(),
        None,
        Ok(vec![Platform::Toutiao]),
        models(),
    );
    let s = run.start();
    assert_eq!(s.marks.len(), 1);
    assert_eq!((s.marks[0].name, s.marks[0].current, s.marks[0].total, s.marks[0].progress), ("generate_text", 1, 4, 25));
    assert!(matches!(s.action, GenAction::Write { ref model, .. } if model == "text-m"));
    let s = run.on_written(Ok("文章".to_string()));
    assert_eq!(s.marks[0].name, "generate_images");
    match s.action {
        GenAction::Draw(req) => assert_eq!(req.prompt, "用于社交媒体的配图，主题：文章"),
        other => panic!("unexpected: {:?}", other),
    }
    let s = run.on_drawn(Ok(vec!["u1".to_string()]));
    let names: Vec<&str> = s.marks.iter().map(|m| m.name).collect();
    assert_eq!(names, vec!["adapt_content", "publish"]);
    assert_eq!(s.marks[1].progress, 100);
    match s.action {
        GenAction::Executed(x) => {
            assert!(x.success);
            assert_eq!(x.generated_text, Some("文章".to_string()));
            assert_eq!(x.generated_images, vec!["u1".to_string()]);
            assert_eq!(x.adapted_contents, vec![(Platform::Toutiao, "【今日热文】\n\n文章".to_string())]);
        },
        other => panic!("unexpected: {:?}", other),
    }
}

#[test]
fn article_run_fails_on_unreadable_platforms() {
    let mut run = GenerationRun::new(false, TaskMode::Text, "t".to_string(), "x".to_string(), None, Err("bad list".to_string()), models());
    run.start();
    let s = run.on_written(Ok("文章".to_string()));
    assert_eq!(s.marks.len(), 1);
    match s.action {
        GenAction::Fail(AppError::Internal(m)) => assert_eq!(m, "bad list"),
        other => panic!("unexpected: {:?}", other),
    }
}

#[test]
fn writing_failure_is_an_ai_error() {
    let mut run = GenerationRun::new(true, TaskMode::Text, "t".to_string(), "x".to_string(), None, Ok(vec![]), models());
    run.start();
    match run.on_written(Err("quota".to_string())).action {
        GenAction::Fail(AppError::Ai { code, message }) => {
            assert_eq!(code, "AI_001");
            assert_eq!(message, "quota");
        },
        other => panic!("unexpected: {:?}", other),
    }
}

#[test]
fn content_only_video_run_ends_with_the_script() {
    let mut run = GenerationRun::new(true, TaskMode::Video, "t".to_string(), "x".to_string(), None, Ok(vec![]), models());
    let s = run.start();
    assert_eq!((s.marks[0].name, s.marks[0].progress), ("generate_script", 50));
    match run.on_written(Ok("脚本".to_string())).action {
        GenAction::Generated(g) => {
            assert_eq!(g.generated_text, Some("脚本".to_string()));
            assert!(g.generated_images.is_empty());
        },
        other => panic!("unexpected: {:?}", other),
    }
}

#[test]
fn video_run_walks_all_its_steps() {
    let mut run = GenerationRun::new(false, TaskMode::Video, "42".to_string(), "x".to_string(), None, Ok(vec![Platform::Douyin]), models());
    run.start();
    let s = run.on_written(Ok("场景:海边\n配音：你好".to_string()));
    let names: Vec<&str> = s.marks.iter().map(|m| m.name).collect();
    assert_eq!(names, vec!["extract_narration", "generate_tts"]);
    match s.action {
        GenAction::Speak { text, voice } => {
            assert_eq!(text, "你好");
            assert_eq!(voice, "male-qn-qingse");
        },
        other => panic!("unexpected: {:?}", other),
    }
    match run.on_spoken(Ok(())).action {
        GenAction::SaveAudio(p) => assert_eq!(p, "./data/audio/42.mp3"),
        other => panic!("unexpected: {:?}", other),
    }
    let s = run.on_saved(Ok(()));
    assert_eq!(s.marks[0].name, "generate_video");
    match s.action {
        GenAction::Render(req) => {
            assert_eq!(req.prompt, "海边");
            assert_eq!(req.model, "video-m");
        },
        other => panic!("unexpected: {:?}", other),
    }
    match run.on_rendered(Ok("https://cdn/v".to_string())).action {
        GenAction::Download { url, path } => {
            assert_eq!(url, "https://cdn/v");
            assert_eq!(path, "./data/video/42_raw.mp4");
        },
        other => panic!("unexpected: {:?}", other),
    }
    match run.on_downloaded(Ok(())).action {
        GenAction::Merge { args, output } => {
            assert_eq!(output, "./data/video/42.mp4");
            assert_eq!(args[1], "./data/video/42_raw.mp4");
            assert_eq!(args[3], "./data/audio/42.mp3");
        },
        other => panic!("unexpected: {:?}", other),
    }
    let s = run.on_merged(MergeOutcome::Exited { success: true, stderr: String::new() });
    assert_eq!(s.marks[0].progress, 100);
    match s.action {
        GenAction::Executed(x) => {
            assert_eq!(x.generated_video, Some("./data/video/42.mp4".to_string()));
            assert_eq!(x.generated_audio, Some("./data/audio/42.mp3".to_string()));
            assert_eq!(x.adapted_contents.len(), 1);
            assert_eq!(x.adapted_contents[0].1, "🎬 场景:海边\n配音：你好\n\n视频链接：./data/video/42.mp4\n\n#抖音 #热门 #短视频");
        },
        other => panic!("unexpected: {:?}", other),
    }
}

#[test]
fn video_run_failures_carry_their_step() {
    let mut run = GenerationRun::new(false, TaskMode::Video, "9".to_string(), "x".to_string(), None, Ok(vec![]), models());
    run.start();
    run.on_written(Ok("配音：嗨".to_string()));
    match run.on_spoken(Err("busy".to_string())).action {
        GenAction::Fail(AppError::Ai { code, message }) => {
            assert_eq!(code, "AI_002");
            assert_eq!(message, "TTS 生成失败: busy");
        },
        other => panic!("unexpected: {:?}", other),
    }
    let mut run = GenerationRun::new(false, TaskMode::Video, "9".to_string(), "x".to_string(), None, Err("oops".to_string()), models());
    run.start();
    run.on_written(Ok("配音：嗨".to_string()));
    run.on_spoken(Ok(()));
    run.on_saved(Ok(()));
    match run.on_rendered(Err("slow".to_string())).action {
        GenAction::Fail(AppError::Ai { code, message }) => {
            assert_eq!(code, "AI_003");
            assert_eq!(message, "视频生成失败: slow");
        },
        other => panic!("unexpected: {:?}", other),
    }
    let mut run = GenerationRun::new(false, TaskMode::Video, "9".to_string(), "x".to_string(), None, Err("oops".to_string()), models());
    run.start();
    run.on_written(Ok("配音：嗨".to_string()));
    run.on_spoken(Ok(()));
    run.on_saved(Ok(()));
    run.on_rendered(Ok("u".to_string()));
    run.on_downloaded(Ok(()));
    match run.on_merged(MergeOutcome::Exited { success: true, stderr: String::new() }).action {
        GenAction::Fail(AppError::Validation { code, message }) => {
            assert_eq!(code, "INPUT_001");
            assert_eq!(message, "平台配置解析失败: oops");
        },
        other => panic!("unexpected: {:?}", other),
    }
}

#[test]
fn merge_failure_reports_ffmpeg_output() {
    let mut run = GenerationRun::new(false, TaskMode::Video, "9".to_string(), "x".to_string(), None, Ok(vec![]), models());
    run.start();
    run.on_written(Ok("配音：嗨".to_string()));
    run.on_spoken(Ok(()));
    run.on_saved(Ok(()));
    run.on_rendered(Ok("u".to_string()));
    run.on_downloaded(Ok(()));
    match run.on_merged(MergeOutcome::Exited { success: false, stderr: "bad codec".to_string() }).action {
        GenAction::Fail(AppError::Internal(m)) => assert_eq!(m, "音视频合并失败: ffmpeg 合并失败: bad codec"),
        other => panic!("unexpected: {:?}", other),
    }
}

fn task(mode: &str, event_date: Option<&str>) -> Task {
    Task {
        id: "task-1".to_string(),
        user_id: 1,
        task_type: "content".to_string(),
        status: TaskStatus::Pending,
        mode: mode.to_string(),
        topic: "春节".to_string(),
        platforms: "[\"Weibo\"]".to_string(),
        progress: 0,
        total_steps: 4,
        current_step: None,
        result: None,
        error: None,
        retry_count: 0,
        max_retries: 3,
        created_at: String::new(),
        updated_at: String::new(),
        event_date: event_date.map(|d| d.to_string()),
    }
}

#[test]
fn task_event_date_is_read_from_its_text() {
    assert_eq!(task("text", Some("2025-01-28")).get_event_date(), Some(CalendarDate { year: 2025, month: 1, day: 28 }));
    assert_eq!(task("text", Some("28/01/2025")).get_event_date(), None);
    assert_eq!(task("text", None).get_event_date(), None);
}

#[test]
fn task_runs_start_with_the_first_step_of_their_mode() {
    let t = task("video", Some("2025-01-28"));
    let mut run = TaskExecutor::execute_video_mode(&t, Ok(vec![Platform::Weibo]), models());
    let s = run.start();
    assert_eq!((s.marks[0].name, s.marks[0].total), ("generate_script", 6));
    match s.action {
        GenAction::Write { messages, .. } => {
            assert_eq!(messages[0].content, SCRIPT_SYSTEM);
            assert!(messages[1].content.contains("请务必使用 2025年01月28日 当天的最新信息。"));
        },
        other => panic!("unexpected: {:?}", other),
    }
    let mut content = TaskExecutor::generate_content(&task("text", None), Ok(vec![]), models());
    assert_eq!(content.start().marks[0].total, 2);
    let mut text = TaskExecutor::execute_text_mode(&t, Ok(vec![]), models());
    assert_eq!(text.start().marks[0].name, "generate_text");
}
