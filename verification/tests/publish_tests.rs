use self_media::error::AppError;
use self_media::publish::error::PublishError;
use self_media::publish::qr_login::{
    login_result_of, qr_id, qr_image_url, qr_key, unsupported_platform, wait_after_status,
    wait_before_query, QrCodeInfo, QrCodeStatus, QrStatusCache, WaitAction, POLL_INTERVAL_SECS,
};
use self_media::publish::rate_limiter::RateLimiter;
use self_media::publish::run::{PublishRun, RunAction};
use self_media::types::{Platform, PlatformCredential};

const SEC: u64 = 1_000_000_000;

#[test]
fn limiter_refuses_when_too_soon_and_rounds_the_seconds() {
    let mut l = RateLimiter::new();
    assert!(l.can_publish(&Platform::Weibo, 60 * SEC, 0).is_ok());
    l.record_publish(Platform::Weibo, 10 * SEC);
    let err = l.can_publish(&Platform::Weibo, 60 * SEC, 10 * SEC + SEC / 4).unwrap_err();
    assert_eq!(err, "发布频率限制：距下次可发布还需 60 秒");
    assert_eq!(l.wait_duration(&Platform::Weibo, 60 * SEC, 40 * SEC), 30 * SEC);
    assert_eq!(l.wait_duration(&Platform::Weibo, 60 * SEC, 70 * SEC), 0);
    assert!(l.can_publish(&Platform::Weibo, 60 * SEC, 70 * SEC).is_ok());
    assert!(l.can_publish(&Platform::Douyin, 60 * SEC, 10 * SEC).is_ok());
}

#[test]
fn limiter_caps_concurrent_requests() {
    let mut l = RateLimiter::new();
    for _ in 0..3 {
        l.record_publish_start(Platform::Bilibili);
    }
    assert_eq!(l.get_active_count(&Platform::Bilibili), 3);
    assert_eq!(
        l.can_publish(&Platform::Bilibili, 0, 0).unwrap_err(),
        "平台 Bilibili 并发请求数已达上限 (3/3)"
    );
    l.record_publish_end(Platform::Bilibili);
    assert_eq!(l.get_active_count(&Platform::Bilibili), 2);
    assert!(l.can_publish(&Platform::Bilibili, 0, 0).is_ok());
}

#[test]
fn limiter_end_without_start_stays_at_zero() {
    let mut l = RateLimiter::new();
    l.record_publish_end(Platform::Toutiao);
    assert_eq!(l.get_active_count(&Platform::Toutiao), 0);
    l.record_publish_start(Platform::Toutiao);
    l.record_publish_end(Platform::Toutiao);
    assert_eq!(l.get_active_count(&Platform::Toutiao), 0);
}

#[test]
fn qr_image_url_encodes_the_login_url() {
    assert_eq!(
        qr_image_url("https://x.cn/a?b=1"),
        "https://api.qrserver.com/v1/create-qr-code/?size=200x200&data=https%3A%2F%2Fx.cn%2Fa%3Fb%3D1"
    );
}

#[test]
fn qr_ids_carry_their_key() {
    let id = qr_id("bilibili_", "abc123");
    assert_eq!(id, "bilibili_abc123");
    assert_eq!(qr_key(&id, "bilibili_").unwrap(), "abc123");
    match qr_key("weibo_x", "bilibili_") {
        Err(PublishError::PlatformError(m)) => assert_eq!(m, "无效的二维码 ID"),
        other => panic!("unexpected: {:?}", other),
    }
}

#[test]
fn unsupported_platform_names_it() {
    match unsupported_platform(Platform::WeChatOfficial) {
        PublishError::PlatformError(m) => assert_eq!(m, "平台 WeChatOfficial 不支持扫码登录"),
        other => panic!("unexpected: {:?}", other),
    }
}

#[test]
fn login_results_report_success_or_the_error_text() {
    let cred = PlatformCredential { platform: Platform::Weibo, cookies: "c=1".to_string(), extra: vec![] };
    let ok = login_result_of(Platform::Weibo, Ok(cred));
    assert!(ok.success);
    assert_eq!(ok.credential.unwrap().cookies, "c=1");
    let bad = login_result_of(Platform::Weibo, Err(PublishError::Network("timeout".to_string())));
    assert!(!bad.success);
    assert_eq!(bad.error_message, Some("网络错误: timeout".to_string()));
}

#[test]
fn waiting_for_a_scan_times_out() {
    assert!(matches!(wait_before_query(Platform::Douyin, 300, 300), WaitAction::Query));
    match wait_before_query(Platform::Douyin, 301, 300) {
        WaitAction::Finish(r) => {
            assert!(!r.success);
            assert_eq!(r.error_message, Some("登录超时".to_string()));
        },
        other => panic!("unexpected: {:?}", other),
    }
}

#[test]
fn status_decides_the_next_wait_step() {
    assert!(matches!(wait_after_status(Platform::Weibo, QrCodeStatus::Confirmed), WaitAction::Confirm));
    assert!(matches!(
        wait_after_status(Platform::Weibo, QrCodeStatus::Scanned),
        WaitAction::Sleep(s) if s == POLL_INTERVAL_SECS
    ));
    match wait_after_status(Platform::Weibo, QrCodeStatus::Expired) {
        WaitAction::Finish(r) => assert_eq!(r.error_message, Some("二维码已过期".to_string())),
        other => panic!("unexpected: {:?}", other),
    }
    match wait_after_status(Platform::Weibo, QrCodeStatus::Failed) {
        WaitAction::Finish(r) => assert_eq!(r.error_message, Some("登录失败".to_string())),
        other => panic!("unexpected: {:?}", other),
    }
}

fn info(id: &str, status: QrCodeStatus) -> QrCodeInfo {
    QrCodeInfo { id: id.to_string(), image: String::new(), url: String::new(), status, created_at: 5 }
}

#[test]
fn status_cache_reads_back_what_was_written() {
    let mut c = QrStatusCache::new();
    assert_eq!(c.status_of("a"), None);
    c.insert(info("a", QrCodeStatus::Pending));
    c.insert(info("b", QrCodeStatus::Scanned));
    assert_eq!(c.status_of("a"), Some(QrCodeStatus::Pending));
    c.set_status("a", QrCodeStatus::Confirmed);
    assert_eq!(c.status_of("a"), Some(QrCodeStatus::Confirmed));
    assert_eq!(c.status_of("b"), Some(QrCodeStatus::Scanned));
    c.insert(info("a", QrCodeStatus::Expired));
    assert_eq!(c.status_of("a"), Some(QrCodeStatus::Expired));
    c.remove("a");
    assert_eq!(c.status_of("a"), None);
    assert_eq!(c.status_of("b"), Some(QrCodeStatus::Scanned));
}

#[test]
fn task_run_publishes_connected_platforms_and_keeps_the_rest() {
    let mut run = PublishRun::new(
        true,
        None,
        "topic".to_string(),
        vec!["img".to_string()],
        vec![(Platform::Weibo, "w".to_string()), (Platform::Bilibili, "b".to_string())],
    );
    assert!(matches!(run.next_action(), RunAction::LookupConfig(Platform::Weibo)));
    assert!(matches!(run.on_config(None), RunAction::Done));
    assert!(matches!(run.next_action(), RunAction::LookupConfig(Platform::Bilibili)));
    assert!(matches!(run.on_config(Some("k=v".to_string())), RunAction::LookupPublisher(Platform::Bilibili)));
    match run.on_publisher(true) {
        RunAction::Publish(cred, art) => {
            assert_eq!(cred.platform, Platform::Bilibili);
            assert_eq!(cred.cookies, "k=v");
            assert_eq!(art.title, "topic");
            assert_eq!(art.body, "b");
            assert_eq!(art.image_urls, vec!["img".to_string()]);
            assert_eq!(art.topic, Some("topic".to_string()));
        },
        other => panic!("unexpected: {:?}", other),
    }
    assert!(matches!(run.on_published(Err(PublishError::UploadFailed("x".to_string()))), RunAction::Done));
    assert!(matches!(run.next_action(), RunAction::Done));
    let s = run.finish();
    assert_eq!(s.publish_results.len(), 1);
    assert_eq!(s.publish_results[0].error_code, Some("PUBLISH_ERROR".to_string()));
    assert_eq!(s.publish_results[0].error_message, Some("上传失败: x".to_string()));
    assert_eq!(s.unconnected.len(), 1);
    assert_eq!(s.unconnected[0].0, Platform::Weibo);
    assert!(s.saved_to_draft);
    assert_eq!(s.warning, None);
}

#[test]
fn task_run_without_connected_platforms_warns() {
    let mut run = PublishRun::new(true, None, "t".to_string(), vec![], vec![(Platform::Douyin, "d".to_string())]);
    assert!(matches!(run.next_action(), RunAction::LookupConfig(Platform::Douyin)));
    assert!(matches!(run.on_config_error(AppError::Internal("db".to_string())), RunAction::Done));
    assert!(matches!(run.next_action(), RunAction::Done));
    let s = run.finish();
    assert!(s.saved_to_draft);
    assert_eq!(s.warning, Some("所有目标平台均未连接登录，内容已保存到草稿箱".to_string()));
}

#[test]
fn draft_run_only_visits_the_platform_asked_for() {
    let mut run = PublishRun::new(
        false,
        Some("bilibili".to_string()),
        "t".to_string(),
        vec![],
        vec![(Platform::Weibo, "w".to_string()), (Platform::Bilibili, "b".to_string())],
    );
    assert!(matches!(run.next_action(), RunAction::LookupConfig(Platform::Bilibili)));
    assert!(matches!(run.on_config_error(AppError::Internal("gone".to_string())), RunAction::Abort(_)));
    let s = run.finish();
    assert!(!s.saved_to_draft);
    assert_eq!(s.warning, Some("所选平台均未连接登录，请先在平台管理中连接平台".to_string()));
}
