use self_media::publish::encoding::{
    cookie_header, extract_cookie_value, extract_json_from_js_callback, urlencoding_decode,
    urlencoding_encode,
};
use self_media::publish::error::PublishError;

#[test]
fn url_encoding_keeps_unreserved_characters() {
    assert_eq!(urlencoding_encode("abcXYZ019-_.~"), "abcXYZ019-_.~");
}

#[test]
fn url_encoding_escapes_reserved_and_multibyte_characters() {
    assert_eq!(urlencoding_encode("a b&c=d/"), "a%20b%26c%3Dd%2F");
    assert_eq!(urlencoding_encode("热点"), "%E7%83%AD%E7%82%B9");
    assert_eq!(urlencoding_encode(""), "");
}

#[test]
fn url_decoding_reads_escapes_and_plus() {
    assert_eq!(urlencoding_decode("a%20b+c"), "a b c");
    assert_eq!(urlencoding_decode("%41%4a%4A"), "AJJ");
}

#[test]
fn url_decoding_keeps_broken_escapes() {
    assert_eq!(urlencoding_decode("100%"), "100%");
    assert_eq!(urlencoding_decode("%zz!"), "%zz!");
    assert_eq!(urlencoding_decode("%4"), "%4");
}

#[test]
fn url_decoding_undoes_encoding_of_ascii_text() {
    let original = "key=value & more/stuff?x=1";
    assert_eq!(urlencoding_decode(&urlencoding_encode(original)), original);
}

#[test]
fn url_decoding_reads_the_bytes_as_utf8() {
    assert_eq!(urlencoding_decode("%E7%83%AD%E7%82%B9"), "热点");
    assert_eq!(urlencoding_decode("%E4%B8%AD"), "中");
    assert_eq!(urlencoding_decode("a%E4%B8%AD+b"), "a中 b");
    assert_eq!(urlencoding_decode("中%zz"), "中%zz");
    let text = "热点 news/中文?x=1";
    assert_eq!(urlencoding_decode(&urlencoding_encode(text)), text);
}

#[test]
fn url_decoding_reads_bytes_that_are_not_utf8_one_by_one() {
    assert_eq!(urlencoding_decode("%E9"), "\u{e9}");
    assert_eq!(urlencoding_decode("%FFa"), "\u{ff}a");
}

#[test]
fn js_callback_payload_is_between_the_parentheses() {
    let r = extract_json_from_js_callback("cb({\"a\":1});");
    assert_eq!(r.unwrap(), "{\"a\":1}");
}

#[test]
fn js_callback_plain_object_is_kept() {
    let r = extract_json_from_js_callback("{\"retcode\":0}");
    assert_eq!(r.unwrap(), "{\"retcode\":0}");
}

#[test]
fn js_callback_without_payload_is_a_parse_error() {
    match extract_json_from_js_callback("nothing here") {
        Err(PublishError::ParseError(m)) => assert_eq!(m, "无法解析响应: nothing here"),
        other => panic!("unexpected: {:?}", other),
    }
}

#[test]
fn cookie_value_is_found_by_name() {
    let cookies = "buvid3=abc; SESSDATA=s%2C1; bili_jct=token";
    assert_eq!(extract_cookie_value(cookies, "SESSDATA"), Some("s%2C1".to_string()));
    assert_eq!(extract_cookie_value(cookies, "bili_jct"), Some("token".to_string()));
    assert_eq!(extract_cookie_value(cookies, "missing"), None);
}

#[test]
fn cookie_value_takes_the_first_of_repeated_names() {
    assert_eq!(extract_cookie_value("a=1; a=2", "a"), Some("1".to_string()));
}

#[test]
fn cookie_header_joins_the_name_value_parts() {
    let headers = vec![
        Some("SESSDATA=x; Path=/; HttpOnly".to_string()),
        None,
        Some("no-separator".to_string()),
        Some("bili_jct=y; Domain=.bilibili.com".to_string()),
    ];
    assert_eq!(cookie_header(&headers), "SESSDATA=x; bili_jct=y");
    assert_eq!(cookie_header(&Vec::new()), "");
}
