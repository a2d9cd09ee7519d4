use self_media::crypto::system_key::SystemKey;
use self_media::error::{AppError, DbError};
use self_media::web::csrf::{csrf_cookie, csrf_cookie_token, csrf_decision, generate_csrf_token, CsrfDecision};
use self_media::web::errors::WebError;
use self_media::web::events::SseEvent;
use self_media::web::session::{authenticate, request_token, session_cookie};
use self_media::web::storage::{
    check_request_path, check_upload_name, compute_hash, content_disposition, plan_upload,
    served_file, storage_type_named, stored_file_path, user_upload_dir, StorageConfig, StorageType,
};

#[test]
fn errors_map_to_http_statuses() {
    assert_eq!(WebError(AppError::auth("AUTH_001", "x")).status(), 409);
    assert_eq!(WebError(AppError::auth("AUTH_002", "x")).status(), 401);
    assert_eq!(WebError(AppError::auth("AUTH_004", "x")).status(), 400);
    assert_eq!(WebError(AppError::auth("AUTH_006", "x")).status(), 401);
    assert_eq!(WebError(AppError::validation("INPUT_001", "x")).status(), 400);
    assert_eq!(WebError(AppError::ai("AI_003", "x")).status(), 429);
    assert_eq!(WebError(AppError::ai("AI_001", "x")).status(), 500);
    assert_eq!(WebError(AppError::task("TASK_003", "x")).status(), 429);
    assert_eq!(WebError(AppError::task("TASK_001", "x")).status(), 400);
    assert_eq!(WebError(AppError::platform("PLAT_003", "x")).status(), 429);
    assert_eq!(WebError(AppError::config("CONFIG_001", "x")).status(), 404);
    assert_eq!(WebError(AppError::Internal("x".to_string())).status(), 500);
}

#[test]
fn internal_errors_hide_their_details() {
    let b = WebError(AppError::Db(DbError::Query("secret table".to_string()))).body();
    assert_eq!(b.code, "INTERNAL_001");
    assert_eq!(b.message, "内部错误");
    let b = WebError(AppError::validation("INPUT_001", "主题不能为空")).body();
    assert_eq!(b.code, "INPUT_001");
    assert_eq!(b.message, "校验错误: 主题不能为空");
}

#[test]
fn csrf_passes_safe_methods() {
    assert!(matches!(csrf_decision(true, None, None), CsrfDecision::Pass));
}

#[test]
fn csrf_needs_matching_header_and_cookie() {
    let cookies = Some("token=abc; csrf_token=xyz");
    assert!(matches!(csrf_decision(false, Some("xyz"), cookies), CsrfDecision::Verified(v) if v.0));
    match csrf_decision(false, Some("other"), cookies) {
        CsrfDecision::Reject(s, m) => {
            assert_eq!(s, 403);
            assert_eq!(m, "CSRF 验证失败");
        },
        other => panic!("unexpected: {:?}", other),
    }
    assert!(matches!(csrf_decision(false, None, cookies), CsrfDecision::Reject(403, _)));
    assert!(matches!(csrf_decision(false, Some("xyz"), None), CsrfDecision::Reject(403, _)));
    assert_eq!(csrf_cookie_token(cookies), Some("xyz".to_string()));
    assert_eq!(csrf_cookie_token(None), None);
}

#[test]
fn csrf_tokens_are_fresh_and_url_safe() {
    let a = generate_csrf_token();
    let b = generate_csrf_token();
    assert_eq!(a.len(), 43);
    assert_ne!(a, b);
    assert!(a.chars().all(|c| c.is_ascii_alphanumeric() || c == '-' || c == '_'));
    assert_eq!(csrf_cookie("t"), "csrf_token=t; HttpOnly; SameSite=Strict; Path=/; Max-Age=86400");
}

#[test]
fn session_token_comes_from_cookie_then_bearer_header() {
    let headers = vec![None, Some("a=1; token=tok1".to_string())];
    assert_eq!(request_token(&headers, Some("Bearer tok2")), Some("tok1".to_string()));
    assert_eq!(request_token(&vec![], Some("Bearer tok2")), Some("tok2".to_string()));
    assert_eq!(request_token(&vec![], Some("Basic xyz")), None);
    assert_eq!(session_cookie("t"), "token=t; HttpOnly; SameSite=Strict; Path=/; Max-Age=604800");
}

#[test]
fn authentication_accepts_issued_tokens_only() {
    let key = SystemKey::from_bytes(&[1u8; 32]);
    let token = key.generate_jwt(12).unwrap();
    let headers = vec![Some(format!("token={}", token))];
    let user = authenticate(&key, &headers, None).unwrap();
    assert_eq!(user.user_id, 12);
    assert_eq!(user.token, token);
    let (status, body) = authenticate(&key, &vec![], None).unwrap_err();
    assert_eq!(status, 401);
    assert_eq!(body.message, "未登录");
    let (status, body) = authenticate(&key, &vec![], Some("Bearer forged")).unwrap_err();
    assert_eq!(status, 401);
    assert_eq!(body.code, "AUTH_003");
    assert_eq!(body.message, "会话已过期");
}

#[test]
fn events_reach_their_user_only() {
    let e = SseEvent::TaskCompleted { user_id: 3, task_id: "t".to_string(), result: "ok".to_string() };
    assert_eq!(e.user_id(), Some(3));
    assert!(e.delivered_to(3));
    assert!(!e.delivered_to(4));
}

#[test]
fn request_paths_are_checked() {
    assert_eq!(check_request_path("user_1/a.png", 1).unwrap(), "./data/uploads/user_1/a.png");
    assert_eq!(check_request_path("user_-2/b.mp4", -2).unwrap(), "./data/uploads/user_-2/b.mp4");
    for (p, m) in [
        ("", "路径不能为空"),
        ("../etc/passwd", "非法路径：禁止路径穿越"),
        ("/abs", "非法路径：禁止路径穿越"),
        ("a\\b", "非法路径：禁止路径穿越"),
        ("dir/.env", "禁止访问隐藏文件"),
        ("user_2/a.png", "路径超出允许范围"),
        ("user_12/a.png", "路径超出允许范围"),
        ("user_1", "路径超出允许范围"),
        ("a.png", "路径超出允许范围"),
    ] {
        match check_request_path(p, 1) {
            Err(AppError::Validation { code, message }) => {
                assert_eq!(code, "INPUT_001");
                assert_eq!(message, m);
            },
            other => panic!("unexpected for {}: {:?}", p, other),
        }
    }
}

#[test]
fn upload_names_must_not_climb() {
    assert!(check_upload_name("photo.png").is_ok());
    for n in ["../x", "a/b", "a\\b"] {
        match check_upload_name(n) {
            Err(AppError::Validation { message, .. }) => assert_eq!(message, "非法文件名"),
            other => panic!("unexpected: {:?}", other),
        }
    }
}

#[test]
fn upload_directory_and_served_files() {
    assert_eq!(user_upload_dir(5), "./data/uploads/user_5");
    assert_eq!(user_upload_dir(-2), "./data/uploads/user_-2");
    assert_eq!(served_file("./data/uploads/x/pic.jpg"), ("pic.jpg".to_string(), "image/jpeg"));
    assert_eq!(served_file("./data/uploads/x/notes.md").0, "notes.md");
    assert_eq!(content_disposition("a.png"), "inline; filename=\"a.png\"");
}

#[test]
fn storage_type_is_named() {
    assert_eq!(storage_type_named("oss"), StorageType::Oss);
    assert_eq!(storage_type_named("s3"), StorageType::S3);
    assert_eq!(storage_type_named("local"), StorageType::Local);
    assert_eq!(storage_type_named("anything"), StorageType::Local);
}

#[test]
fn content_hash_is_sha256_in_hex() {
    assert_eq!(compute_hash(b"abc"), "ba7816bf8f01cfea414140de5dae2223b00361a396177a9cb410ff61f20015ad");
    assert_eq!(compute_hash(b""), "e3b0c44298fc1c149afbf4c8996fb92427ae41e4649b934ca495991b7852b855");
}

#[test]
fn uploads_are_named_by_time_and_hash() {
    let config = StorageConfig::default();
    let plan = plan_upload(&config, b"abc", "photo.PNG", "image/png", 1700, "2025", "03");
    assert_eq!(plan.info.filename, "1700_ba7816bf.PNG");
    assert_eq!(plan.sub_dir, "2025/03");
    assert_eq!(plan.file_path, "./data/uploads/2025/03/1700_ba7816bf.PNG");
    assert_eq!(plan.info.url, "/uploads/2025/03/1700_ba7816bf.PNG");
    assert_eq!(plan.info.size, 3);
    assert_eq!(plan.info.original_filename, "photo.PNG");
    let noext = plan_upload(&config, b"abc", "README", "text/plain", 1, "2025", "03");
    assert_eq!(noext.info.filename, "1_ba7816bf");
}

#[test]
fn stored_file_path_follows_the_base_url() {
    let config = StorageConfig::default();
    assert_eq!(stored_file_path(&config, "/uploads/2025/03/x.png"), "./data/uploads/2025/03/x.png");
}

#[test]
fn an_upload_address_leads_back_to_its_file() {
    let config = StorageConfig::default();
    let plan = plan_upload(&config, b"hello", "a.jpg", "image/jpeg", 1700000000123, "2025-03-09", "09");
    assert_eq!(stored_file_path(&config, &plan.info.url), plan.file_path);
}

#[test]
fn served_names_follow_the_path_rules() {
    for p in [
        "a/b.png", "a/b/", "a//b.mp4", "a/.", "./x.jpg", ".", "..", "a/..", "/", "", "x.tar.gz", ".hidden",
        "dir/.env", "foo.", "a/./", "./.", "a/b/./.", "中文/图片.webp", "a.b/c",
    ] {
        let (name, _) = served_file(p);
        let expected = std::path::Path::new(p).file_name().and_then(|n| n.to_str()).unwrap_or("file");
        assert_eq!(name, expected, "file name of {:?}", p);
    }
    assert_eq!(served_file("x/a.tar.gz").1, "application/octet-stream");
    assert_eq!(served_file("x/a.mp4/.").1, "video/mp4");
    assert_eq!(served_file("x/.png").1, "application/octet-stream");
    assert_eq!(served_file("x/a.JPG").1, "application/octet-stream");
}

#[test]
fn stored_names_take_the_extension_by_the_path_rules() {
    let config = StorageConfig::default();
    for (name, ext) in [("a.b.png", Some("png")), (".bashrc", None), ("foo.", None), ("x", None), ("d/.e.jpg", Some("jpg"))] {
        let plan = plan_upload(&config, b"abc", name, "t", 1, "2025", "03");
        let std_ext = std::path::Path::new(name).extension().and_then(|e| e.to_str()).filter(|e| !e.is_empty());
        assert_eq!(std_ext, ext);
        match ext {
            Some(e) => assert!(plan.info.filename.ends_with(&format!(".{}", e)), "{}", plan.info.filename),
            None => assert_eq!(plan.info.filename, "1_ba7816bf"),
        }
    }
}
