use self_media::store::{plan_task, preferences_columns};
use self_media::config::UserPreferences;
use self_media::types::CalendarDate;
use self_media::config::{parse_stored_platform, stored_platform_name};
use self_media::publish::health::{batch_status, CookieHealthChecker};
use self_media::config::{
    platform_config_of_row, platform_config_row, read_named_values, PlatformConfig,
};
use self_media::ai::{decide_video_poll, VideoPoll, VideoTaskStatus};
use self_media::error::{AppError, CryptoError, DbError};
use self_media::publish::error::PublishError;
use self_media::publish::platforms::{
    bilibili_chunk_count, bilibili_csrf, bilibili_upload_id, login_page_check, rate_limit_seconds,
    video_size_check,
};
use self_media::publish::qr_login::QrCodeStatus;
use self_media::publish::qr_platforms::{
    bilibili_credential, bilibili_qr_keys, bilibili_qr_status, weibo_auth_code, weibo_qr_status,
    wechat_token_url,
};
use self_media::records::read_stored_strings;
use self_media::store::preferences_of_row;
use self_media::types::{Platform, TaskMode};
use self_media::user::{
    validate_email, validate_password, validate_phone, validate_registration, validate_username,
    RegisterRequest,
};
use self_media::web::bodies::{
    api_key_response, platform_of_path, publishes_after_execution, qr_platform_named,
    qr_platform_of_id, qr_status_name, unknown_source,
};

fn refusal(r: Result<(), AppError>) -> (&'static str, String) {
    match r {
        Err(AppError::Validation { code, message }) => (code, message),
        other => panic!("unexpected: {:?}", other),
    }
}

#[test]
fn user_names_are_checked() {
    assert!(validate_username("alice_01").is_ok());
    assert!(validate_username("张三丰").is_ok());
    assert_eq!(refusal(validate_username("ab")), ("AUTH_004", "用户名长度需在 3-32 之间".to_string()));
    assert_eq!(refusal(validate_username("bad-name")), ("AUTH_004", "用户名仅允许字母、数字、下划线".to_string()));
}

#[test]
fn passwords_are_checked() {
    assert!(validate_password("abcdefg1").is_ok());
    assert_eq!(refusal(validate_password("short1")), ("AUTH_005", "密码长度需在 8-64 之间".to_string()));
    assert_eq!(refusal(validate_password("abcdefgh")), ("AUTH_005", "密码必须包含字母和数字".to_string()));
    assert_eq!(refusal(validate_password("12345678")), ("AUTH_005", "密码必须包含字母和数字".to_string()));
}

#[test]
fn phones_and_emails_are_checked() {
    assert!(validate_phone("13800138000").is_ok());
    assert_eq!(refusal(validate_phone("1380013800")).1, "手机号码必须为11位");
    assert_eq!(refusal(validate_phone("1380013800a")).1, "手机号码只能包含数字");
    assert!(validate_email("a.b+c@example.co").is_ok());
    assert_eq!(refusal(validate_email("")).1, "邮箱不能为空");
    assert_eq!(refusal(validate_email("a@b.c")).1, "邮箱格式不正确");
    assert_eq!(refusal(validate_email("no-at.example.com")).1, "邮箱格式不正确");
}

#[test]
fn registration_is_checked_in_order() {
    let mut req = RegisterRequest {
        username: "ab".to_string(),
        password: "x".to_string(),
        email: String::new(),
        minimax_api_key: "k".to_string(),
        phone: Some("1".to_string()),
    };
    assert_eq!(refusal(validate_registration(&req)).0, "AUTH_004");
    req.username = "alice".to_string();
    assert_eq!(refusal(validate_registration(&req)).0, "AUTH_005");
    req.password = "password1".to_string();
    assert_eq!(refusal(validate_registration(&req)).1, "邮箱不能为空");
    req.email = "a@example.com".to_string();
    assert_eq!(refusal(validate_registration(&req)).1, "手机号码必须为11位");
    req.phone = None;
    assert!(validate_registration(&req).is_ok());
}

#[test]
fn error_texts_and_codes() {
    let e = AppError::task("TASK_001", "不存在");
    assert_eq!(e.code(), "TASK_001");
    assert_eq!(e.to_display_string(), "任务错误: 不存在");
    let d = AppError::from_db(DbError::Connection("refused".to_string()));
    assert_eq!(d.code(), "DB_001");
    assert_eq!(d.to_display_string(), "数据库错误: 数据库连接失败: refused");
    let c = AppError::from_crypto(CryptoError::Decrypt("x".to_string()));
    assert_eq!(c.code(), "CRYPTO_001");
    let api = AppError::Internal("boom".to_string()).to_api_error();
    assert_eq!(api.code, "INTERNAL_001");
    assert_eq!(api.message, "内部错误: boom");
    assert_eq!(PublishError::CookieExpired("x".to_string()).to_display_string(), "Cookie 过期: x");
}

#[test]
fn video_polling_decisions() {
    let st = |s: &str, f: Option<&str>| VideoTaskStatus { status: s.to_string(), file_id: f.map(|x| x.to_string()), error: None };
    assert!(matches!(decide_video_poll(&st("success", Some("f1"))), VideoPoll::Ready(f) if f == "f1"));
    assert!(matches!(decide_video_poll(&st("success", None)), VideoPoll::MissingFile));
    assert!(matches!(decide_video_poll(&st("fail", None)), VideoPoll::Failed));
    assert!(matches!(decide_video_poll(&st("processing", None)), VideoPoll::Wait));
}

#[test]
fn stored_string_lists_are_read_leniently() {
    assert_eq!(read_stored_strings("[\"a\",\"b\"]"), vec!["a".to_string(), "b".to_string()]);
    assert!(read_stored_strings("not json").is_empty());
}

#[test]
fn preferences_default_without_a_row() {
    let p = preferences_of_row(None);
    assert_eq!(p.default_mode, TaskMode::Text);
    assert!(p.default_tags.is_empty());
    assert!(!p.auto_publish);
    let p = preferences_of_row(Some(("video", "[\"科技\"]", 1)));
    assert_eq!(p.default_mode, TaskMode::Video);
    assert_eq!(p.default_tags, vec!["科技".to_string()]);
    assert!(p.auto_publish);
}

#[test]
fn bilibili_login_codes() {
    assert_eq!(bilibili_qr_status(0), QrCodeStatus::Pending);
    assert_eq!(bilibili_qr_status(86101), QrCodeStatus::Pending);
    assert_eq!(bilibili_qr_status(86090), QrCodeStatus::Scanned);
    assert_eq!(bilibili_qr_status(86038), QrCodeStatus::Confirmed);
    assert_eq!(bilibili_qr_status(-4), QrCodeStatus::Expired);
    assert_eq!(bilibili_qr_status(1), QrCodeStatus::Failed);
    let (url, key) = bilibili_qr_keys(None, Some("k2".to_string()), Some("u".to_string())).unwrap();
    assert_eq!((url.as_str(), key.as_str()), ("u", "k2"));
    match bilibili_qr_keys(None, None, Some("u".to_string())) {
        Err(PublishError::PlatformError(m)) => assert_eq!(m, "B站未返回 oauthKey"),
        other => panic!("unexpected: {:?}", other),
    }
}

#[test]
fn bilibili_credential_keeps_the_key_cookies() {
    let c = bilibili_credential("buvid3=b; SESSDATA=s; other=o".to_string()).unwrap();
    assert_eq!(c.platform, Platform::Bilibili);
    let names: Vec<(&str, &str)> = c.extra.iter().map(|(a, b)| (a.as_str(), b.as_str())).collect();
    assert_eq!(names, vec![("buvid3", "b"), ("SESSDATA", "s"), ("platform", "bilibili")]);
    match bilibili_credential(String::new()) {
        Err(PublishError::PlatformError(m)) => assert_eq!(m, "B站登录后未返回 Cookie"),
        other => panic!("unexpected: {:?}", other),
    }
}

#[test]
fn weibo_login_replies() {
    assert_eq!(weibo_qr_status(2, None).unwrap(), QrCodeStatus::Scanned);
    assert_eq!(weibo_qr_status(3, None).unwrap(), QrCodeStatus::Confirmed);
    assert_eq!(weibo_qr_status(1, None).unwrap(), QrCodeStatus::Pending);
    match weibo_qr_status(1, Some("bad".to_string())) {
        Err(PublishError::PlatformError(m)) => assert_eq!(m, "微博扫码错误: bad"),
        other => panic!("unexpected: {:?}", other),
    }
    assert_eq!(weibo_auth_code(3, Some("c".to_string())).unwrap(), "c");
    assert!(matches!(weibo_auth_code(2, Some("c".to_string())), Err(PublishError::PlatformError(m)) if m == "用户尚未授权登录"));
    assert_eq!(
        wechat_token_url("id", "sec", "c"),
        "https://api.weixin.qq.com/sns/oauth2/access_token?appid=id&secret=sec&code=c&grant_type=authorization_code"
    );
}

#[test]
fn platform_publishing_rules() {
    assert_eq!(rate_limit_seconds(Platform::Bilibili), 30);
    assert_eq!(rate_limit_seconds(Platform::Weibo), 60);
    assert!(video_size_check(Platform::Weibo, 10).is_none());
    let r = video_size_check(Platform::Weibo, 600 * 1024 * 1024).unwrap();
    assert!(!r.success);
    assert_eq!(r.error_code, Some("SIZE_EXCEED".to_string()));
    assert_eq!(r.error_message, Some("视频大小超过500MB限制".to_string()));
    assert_eq!(bilibili_chunk_count(0), 0);
    assert_eq!(bilibili_chunk_count(1), 1);
    assert!(login_page_check("https://weibo.com/home", "login"));
    assert!(!login_page_check("https://passport.weibo.com/login", "login"));
    assert_eq!(bilibili_csrf("SESSDATA=s; bili_jct=tok").unwrap(), "tok");
    assert!(matches!(bilibili_csrf("SESSDATA=s"), Err(PublishError::CookieExpired(_))));
    let id = bilibili_upload_id();
    assert_eq!(id.len(), 32);
    assert!(!id.contains('-'));
}

#[test]
fn request_names_map_to_platforms() {
    assert_eq!(qr_platform_named("WeiBo").unwrap(), Platform::Weibo);
    assert_eq!(qr_platform_named("B站").unwrap(), Platform::Bilibili);
    assert_eq!(qr_platform_named("douyin").unwrap(), Platform::Douyin);
    assert_eq!(qr_platform_named("Toutiao").unwrap(), Platform::Toutiao);
    assert_eq!(qr_platform_named("头条").unwrap(), Platform::Toutiao);
    assert_eq!(qr_platform_named("小红书").unwrap(), Platform::Xiaohongshu);
    assert_eq!(qr_platform_named("公众号").unwrap(), Platform::WeChatOfficial);
    assert_eq!(qr_platform_named("wechat").unwrap(), Platform::WeChatOfficial);
    assert_eq!(qr_platform_named("mars").unwrap_err(), "不支持的平台: mars");
    assert_eq!(platform_of_path("WeChat").unwrap(), Platform::WeChatOfficial);
    assert!(matches!(platform_of_path("mars"), Err(AppError::Validation { message, .. }) if message == "未知平台"));
    assert_eq!(qr_platform_of_id("bilibili_k"), Some(Platform::Bilibili));
    assert_eq!(qr_platform_of_id("toutiao_k"), Some(Platform::Toutiao));
    assert_eq!(qr_platform_of_id("wechat_k"), Some(Platform::WeChatOfficial));
    assert_eq!(qr_platform_of_id("x_k"), None);
    assert_eq!(qr_status_name(QrCodeStatus::Scanned), "scanned");
    assert!(matches!(unknown_source("mars"), AppError::Validation { message, .. } if message == "未知热点源: mars"));
    assert!(publishes_after_execution(true, TaskMode::Text));
    assert!(!publishes_after_execution(true, TaskMode::Video));
}

#[test]
fn stored_api_keys_are_shown_masked() {
    let r = api_key_response(Some("sk-abcdef"));
    assert_eq!(r.key, "sk-a****");
    assert_eq!(r.provider, "minimax");
    assert_eq!(r.region, "cn");
    assert_eq!(api_key_response(Some("abc")).key, "****");
    assert_eq!(api_key_response(None).key, "");
}

#[test]
fn stored_platform_rows_are_read_back() {
    let c = platform_config_of_row(Platform::Douyin, 1, 3, Some("k=v".to_string()), Some("{\"b\":\"2\",\"a\":\"1\"}"));
    assert_eq!(c.platform, Platform::Douyin);
    assert!(c.enabled);
    assert_eq!(c.image_count, 3);
    assert_eq!(c.cookies, Some("k=v".to_string()));
    let mut extra = c.extra.clone();
    extra.sort();
    assert_eq!(extra, vec![("a".to_string(), "1".to_string()), ("b".to_string(), "2".to_string())]);
    assert!(read_named_values(Some("{\"a\":1}")).is_empty());
    assert!(read_named_values(Some("[]")).is_empty());
    assert!(read_named_values(None).is_empty());
    assert!(!platform_config_of_row(Platform::Weibo, 0, 0, None, None).enabled);
}

#[test]
fn platform_settings_come_back_from_their_row() {
    let c = PlatformConfig {
        platform: Platform::Xiaohongshu,
        enabled: true,
        image_count: 4_000_000_000,
        cookies: Some("a=1; b=\"2\"".to_string()),
        extra: vec![("z".to_string(), "中文\n".to_string()), ("m".to_string(), "".to_string())],
    };
    let row = platform_config_row(&c);
    assert_eq!(row.platform, "Xiaohongshu");
    assert_eq!(row.enabled, 1);
    let back = platform_config_of_row(
        parse_stored_platform(&row.platform),
        row.enabled,
        row.image_count,
        row.cookies.clone(),
        Some(row.extra.as_str()),
    );
    assert_eq!(back.platform, c.platform);
    assert!(back.enabled);
    assert_eq!(back.image_count, c.image_count);
    assert_eq!(back.cookies, c.cookies);
    let mut a = back.extra.clone();
    let mut b = c.extra.clone();
    a.sort();
    b.sort();
    assert_eq!(a, b);
}

#[test]
fn health_checks_record_the_time_of_answered_checks() {
    let mut h = CookieHealthChecker::new();
    assert_eq!(h.check(Platform::Toutiao, None, 5).unwrap_err(), "平台 Toutiao 未注册");
    assert_eq!(h.last_checked(&Platform::Toutiao), None);
    let e = h.check(Platform::Weibo, Some(Err(PublishError::Network("down".to_string()))), 6).unwrap_err();
    assert_eq!(e, "网络错误: down");
    assert_eq!(h.last_checked(&Platform::Weibo), None);
    let s = h.check(Platform::Weibo, Some(Ok(true)), 7).unwrap();
    assert!(s.valid);
    assert_eq!(s.last_checked, 7);
    assert_eq!(h.last_checked(&Platform::Weibo), Some(7));
    assert_eq!(h.last_checked(&Platform::Douyin), None);
    let b = batch_status(Platform::Douyin, Err("x".to_string()), 9);
    assert!(!b.valid);
    assert_eq!(b.last_checked, 9);
}

#[test]
fn stored_platform_names_read_back() {
    for p in [Platform::Xiaohongshu, Platform::Douyin, Platform::WeChatOfficial, Platform::Bilibili, Platform::Weibo, Platform::Toutiao] {
        assert_eq!(parse_stored_platform(stored_platform_name(p)), p);
    }
    assert_eq!(stored_platform_name(Platform::WeChatOfficial), "WeChatOfficial");
    assert_eq!(parse_stored_platform("Mars"), Platform::Weibo);
}

#[test]
fn preferences_are_stored_as_columns() {
    let p = UserPreferences { default_mode: TaskMode::Video, default_tags: vec!["a".to_string(), "b".to_string()], auto_publish: true };
    let (mode, tags, flag) = preferences_columns(&p);
    assert_eq!(mode, "video");
    assert_eq!(tags, "[\"a\",\"b\"]");
    assert_eq!(flag, 1);
    let back = preferences_of_row(Some((mode, &tags, flag)));
    assert_eq!(back.default_tags, p.default_tags);
    assert_eq!(back.default_mode, TaskMode::Video);
}

#[test]
fn planned_tasks_carry_their_stored_texts() {
    let t = plan_task(0, 3, TaskMode::Text, "话题", &vec![Platform::Weibo, Platform::Douyin], Some(CalendarDate { year: 2025, month: 3, day: 9 })).unwrap();
    assert_eq!(t.id.len(), 36);
    assert_eq!(t.mode_text, "text");
    assert_eq!(t.platforms_text, "[\"Weibo\",\"Douyin\"]");
    assert_eq!(t.steps, vec!["generate_text", "generate_images", "adapt_content", "publish"]);
    assert_eq!(t.event_date_text, Some("2025-03-09".to_string()));
    match plan_task(2, 2, TaskMode::Video, "x", &vec![], None) {
        Err(AppError::Task { code, .. }) => assert_eq!(code, "TASK_003"),
        other => panic!("unexpected: {:?}", other.map(|t| t.id)),
    }
}

#[test]
fn batch_checks_report_every_platform() {
    let mut h = CookieHealthChecker::new();
    let answers = vec![
        (Platform::Weibo, Some(Ok(false))),
        (Platform::Douyin, None),
        (Platform::Bilibili, Some(Err(PublishError::Network("x".to_string())))),
        (Platform::Toutiao, Some(Ok(true))),
    ];
    let all = h.check_all(&answers, 50);
    let got: Vec<(Platform, bool, i64)> = all.iter().map(|s| (s.platform, s.valid, s.last_checked)).collect();
    assert_eq!(got, vec![(Platform::Weibo, false, 50), (Platform::Douyin, false, 50), (Platform::Bilibili, false, 50), (Platform::Toutiao, true, 50)]);
    assert_eq!(h.last_checked(&Platform::Weibo), Some(50));
    assert_eq!(h.last_checked(&Platform::Douyin), None);
    assert_eq!(h.last_checked(&Platform::Bilibili), None);
    assert_eq!(h.last_checked(&Platform::Toutiao), Some(50));
}
