//! Failures of the platform adapters.
use crate::text::{push_str, string_of};
use vstd::prelude::*;

verus! {

/// A failure of a platform adapter. `Network` carries the text of the
/// transport error; `ParseError` a response that could not be read.
#[derive(Debug)]
pub enum PublishError {
    CookieExpired(String),
    UploadFailed(String),
    RateLimited(String),
    SignatureFailed(String),
    PlatformError(String),
    Network(String),
    ParseError(String),
}

impl PublishError {
    /// What the error displays.
    pub open spec fn display_text(self) -> Seq<char> {
        match self {
            PublishError::CookieExpired(m) => "Cookie 过期: "@ + m@,
            PublishError::UploadFailed(m) => "上传失败: "@ + m@,
            PublishError::RateLimited(m) => "发布限流: "@ + m@,
            PublishError::SignatureFailed(m) => "签名验证失败: "@ + m@,
            PublishError::PlatformError(m) => "平台错误: "@ + m@,
            PublishError::Network(m) => "网络错误: "@ + m@,
            PublishError::ParseError(m) => "解析错误: "@ + m@,
        }
    }

    /// What the error displays.
    pub fn to_display_string(&self) -> (r: String)
        ensures
            r@ == self.display_text(),
    {
        let mut out: Vec<char> = Vec::new();
        let m = match self {
            PublishError::CookieExpired(m) => {
                push_str(&mut out, "Cookie 过期: ");
                m
            },
            PublishError::UploadFailed(m) => {
                push_str(&mut out, "上传失败: ");
                m
            },
            PublishError::RateLimited(m) => {
                push_str(&mut out, "发布限流: ");
                m
            },
            PublishError::SignatureFailed(m) => {
                push_str(&mut out, "签名验证失败: ");
                m
            },
            PublishError::PlatformError(m) => {
                push_str(&mut out, "平台错误: ");
                m
            },
            PublishError::Network(m) => {
                push_str(&mut out, "网络错误: ");
                m
            },
            PublishError::ParseError(m) => {
                push_str(&mut out, "解析错误: ");
                m
            },
        };
        push_str(&mut out, m.as_str());
        string_of(&out)
    }

    /// A `PlatformError` with the message `m`.
    pub fn platform(m: &str) -> (r: PublishError)
        ensures
            r matches PublishError::PlatformError(s) && s@ == m@,
    {
        PublishError::PlatformError(m.to_owned())
    }
}

} // verus!
