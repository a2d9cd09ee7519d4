//! Error codes and error types of the service, with the texts they display.
use crate::text::{push_str, string_of};
use crate::types::ApiError;
use vstd::prelude::*;

verus! {

/// User name already exists.
pub const AUTH_001: &'static str = "AUTH_001";
/// Wrong password.
pub const AUTH_002: &'static str = "AUTH_002";
/// Session expired.
pub const AUTH_003: &'static str = "AUTH_003";
/// Malformed user name.
pub const AUTH_004: &'static str = "AUTH_004";
/// Password too weak.
pub const AUTH_005: &'static str = "AUTH_005";
/// Access to the resource denied.
pub const AUTH_006: &'static str = "AUTH_006";
/// Invalid API key.
pub const AI_001: &'static str = "AI_001";
/// Generation timed out.
pub const AI_002: &'static str = "AI_002";
/// Quota exhausted.
pub const AI_003: &'static str = "AI_003";
/// Cookie expired.
pub const PLAT_001: &'static str = "PLAT_001";
/// Upload failed.
pub const PLAT_002: &'static str = "PLAT_002";
/// Publishing rate limited.
pub const PLAT_003: &'static str = "PLAT_003";
/// Signature check failed.
pub const PLAT_004: &'static str = "PLAT_004";
/// Task does not exist.
pub const TASK_001: &'static str = "TASK_001";
/// Task cancelled.
pub const TASK_002: &'static str = "TASK_002";
/// Too many concurrent tasks.
pub const TASK_003: &'static str = "TASK_003";
/// Configuration item missing.
pub const CONFIG_001: &'static str = "CONFIG_001";
/// Encryption or decryption failed.
pub const CRYPTO_001: &'static str = "CRYPTO_001";
/// Input validation failed.
pub const INPUT_001: &'static str = "INPUT_001";

/// Database failure.
#[derive(Debug)]
pub enum DbError {
    Connection(String),
    Query(String),
    Migration(String),
}

impl DbError {
    /// What the error displays.
    pub open spec fn display_text(self) -> Seq<char> {
        match self {
            DbError::Connection(m) => "数据库连接失败: "@ + m@,
            DbError::Query(m) => "查询失败: "@ + m@,
            DbError::Migration(m) => "迁移失败: "@ + m@,
        }
    }

    /// What the error displays.
    pub fn to_display_string(&self) -> (r: String)
        ensures
            r@ == self.display_text(),
    {
        let mut out: Vec<char> = Vec::new();
        match self {
            DbError::Connection(m) => {
                push_str(&mut out, "数据库连接失败: ");
                push_str(&mut out, m.as_str());
            },
            DbError::Query(m) => {
                push_str(&mut out, "查询失败: ");
                push_str(&mut out, m.as_str());
            },
            DbError::Migration(m) => {
                push_str(&mut out, "迁移失败: ");
                push_str(&mut out, m.as_str());
            },
        }
        string_of(&out)
    }
}

/// Failure of a cryptographic operation.
#[derive(Debug)]
pub enum CryptoError {
    Encrypt(String),
    Decrypt(String),
    KeyDerivation(String),
    PasswordHash(String),
    Jwt(String),
    Encoding(String),
    Format(String),
}

impl CryptoError {
    /// What the error displays.
    pub open spec fn display_text(self) -> Seq<char> {
        match self {
            CryptoError::Encrypt(m) => "加密失败: "@ + m@,
            CryptoError::Decrypt(m) => "解密失败: "@ + m@,
            CryptoError::KeyDerivation(m) => "密钥派生失败: "@ + m@,
            CryptoError::PasswordHash(m) => "密码哈希失败: "@ + m@,
            CryptoError::Jwt(m) => "JWT 错误: "@ + m@,
            CryptoError::Encoding(m) => "编码错误: "@ + m@,
            CryptoError::Format(m) => "格式错误: "@ + m@,
        }
    }

    /// What the error displays.
    pub fn to_display_string(&self) -> (r: String)
        ensures
            r@ == self.display_text(),
    {
        let mut out: Vec<char> = Vec::new();
        match self {
            CryptoError::Encrypt(m) => {
                push_str(&mut out, "加密失败: ");
                push_str(&mut out, m.as_str());
            },
            CryptoError::Decrypt(m) => {
                push_str(&mut out, "解密失败: ");
                push_str(&mut out, m.as_str());
            },
            CryptoError::KeyDerivation(m) => {
                push_str(&mut out, "密钥派生失败: ");
                push_str(&mut out, m.as_str());
            },
            CryptoError::PasswordHash(m) => {
                push_str(&mut out, "密码哈希失败: ");
                push_str(&mut out, m.as_str());
            },
            CryptoError::Jwt(m) => {
                push_str(&mut out, "JWT 错误: ");
                push_str(&mut out, m.as_str());
            },
            CryptoError::Encoding(m) => {
                push_str(&mut out, "编码错误: ");
                push_str(&mut out, m.as_str());
            },
            CryptoError::Format(m) => {
                push_str(&mut out, "格式错误: ");
                push_str(&mut out, m.as_str());
            },
        }
        string_of(&out)
    }
}

/// Failure of a call to the AI service.
#[derive(Debug)]
pub enum AiError {
    InvalidApiKey(String),
    Timeout(String),
    QuotaExceeded(String),
    ApiError(String),
    Network(String),
    Parse(String),
}

impl AiError {
    /// What the error displays.
    pub open spec fn display_text(self) -> Seq<char> {
        match self {
            AiError::InvalidApiKey(m) => "API Key 无效: "@ + m@,
            AiError::Timeout(m) => "生成超时: "@ + m@,
            AiError::QuotaExceeded(m) => "配额不足: "@ + m@,
            AiError::ApiError(m) => "API 错误: "@ + m@,
            AiError::Network(m) => "网络错误: "@ + m@,
            AiError::Parse(m) => "解析错误: "@ + m@,
        }
    }

    /// What the error displays.
    pub fn to_display_string(&self) -> (r: String)
        ensures
            r@ == self.display_text(),
    {
        let mut out: Vec<char> = Vec::new();
        match self {
            AiError::InvalidApiKey(m) => {
                push_str(&mut out, "API Key 无效: ");
                push_str(&mut out, m.as_str());
            },
            AiError::Timeout(m) => {
                push_str(&mut out, "生成超时: ");
                push_str(&mut out, m.as_str());
            },
            AiError::QuotaExceeded(m) => {
                push_str(&mut out, "配额不足: ");
                push_str(&mut out, m.as_str());
            },
            AiError::ApiError(m) => {
                push_str(&mut out, "API 错误: ");
                push_str(&mut out, m.as_str());
            },
            AiError::Network(m) => {
                push_str(&mut out, "网络错误: ");
                push_str(&mut out, m.as_str());
            },
            AiError::Parse(m) => {
                push_str(&mut out, "解析错误: ");
                push_str(&mut out, m.as_str());
            },
        }
        string_of(&out)
    }
}

/// Error of the application layer. `Internal` carries the text of an
/// internal failure.
#[derive(Debug)]
pub enum AppError {
    Auth { code: &'static str, message: String },
    Ai { code: &'static str, message: String },
    Platform { code: &'static str, message: String },
    Task { code: &'static str, message: String },
    Config { code: &'static str, message: String },
    Crypto { code: &'static str, message: String },
    Validation { code: &'static str, message: String },
    Db(DbError),
    Internal(String),
}

impl AppError {
    /// The error code.
    pub open spec fn code_text(self) -> Seq<char> {
        match self {
            AppError::Auth { code, .. } => code@,
            AppError::Ai { code, .. } => code@,
            AppError::Platform { code, .. } => code@,
            AppError::Task { code, .. } => code@,
            AppError::Config { code, .. } => code@,
            AppError::Crypto { code, .. } => code@,
            AppError::Validation { code, .. } => code@,
            AppError::Db(_) => "DB_001"@,
            AppError::Internal(_) => "INTERNAL_001"@,
        }
    }

    /// What the error displays.
    pub open spec fn display_text(self) -> Seq<char> {
        match self {
            AppError::Auth { message, .. } => "认证错误: "@ + message@,
            AppError::Ai { message, .. } => "AI 错误: "@ + message@,
            AppError::Platform { message, .. } => "平台错误: "@ + message@,
            AppError::Task { message, .. } => "任务错误: "@ + message@,
            AppError::Config { message, .. } => "配置错误: "@ + message@,
            AppError::Crypto { message, .. } => "加密错误: "@ + message@,
            AppError::Validation { message, .. } => "校验错误: "@ + message@,
            AppError::Db(e) => "数据库错误: "@ + e.display_text(),
            AppError::Internal(m) => "内部错误: "@ + m@,
        }
    }

    /// An authentication error.
    pub fn auth(code: &'static str, message: &str) -> (r: AppError)
        ensures
            r matches AppError::Auth { code: c, message: m } && c == code && m@ == message@,
    {
        AppError::Auth { code, message: message.to_owned() }
    }

    /// An error of the AI service.
    pub fn ai(code: &'static str, message: &str) -> (r: AppError)
        ensures
            r matches AppError::Ai { code: c, message: m } && c == code && m@ == message@,
    {
        AppError::Ai { code, message: message.to_owned() }
    }

    /// An error of a publishing platform.
    pub fn platform(code: &'static str, message: &str) -> (r: AppError)
        ensures
            r matches AppError::Platform { code: c, message: m } && c == code && m@ == message@,
    {
        AppError::Platform { code, message: message.to_owned() }
    }

    /// A task error.
    pub fn task(code: &'static str, message: &str) -> (r: AppError)
        ensures
            r matches AppError::Task { code: c, message: m } && c == code && m@ == message@,
    {
        AppError::Task { code, message: message.to_owned() }
    }

    /// A configuration error.
    pub fn config(code: &'static str, message: &str) -> (r: AppError)
        ensures
            r matches AppError::Config { code: c, message: m } && c == code && m@ == message@,
    {
        AppError::Config { code, message: message.to_owned() }
    }

    /// A cryptographic error.
    pub fn crypto(code: &'static str, message: &str) -> (r: AppError)
        ensures
            r matches AppError::Crypto { code: c, message: m } && c == code && m@ == message@,
    {
        AppError::Crypto { code, message: message.to_owned() }
    }

    /// An input validation error.
    pub fn validation(code: &'static str, message: &str) -> (r: AppError)
        ensures
            r matches AppError::Validation { code: c, message: m } && c == code && m@ == message@,
    {
        AppError::Validation { code, message: message.to_owned() }
    }

    /// A cryptographic failure as an application error: code `CRYPTO_001`
    /// and the failure's text.
    pub fn from_crypto(e: CryptoError) -> (r: AppError)
        ensures
            r matches AppError::Crypto { code: c, message: m } && c@ == CRYPTO_001@ && m@
                == e.display_text(),
    {
        let text = e.to_display_string();
        AppError::Crypto { code: CRYPTO_001, message: text }
    }

    /// A database failure as an application error.
    pub fn from_db(e: DbError) -> (r: AppError)
        ensures
            r == AppError::Db(e),
    {
        AppError::Db(e)
    }

    /// The error code.
    pub fn code(&self) -> (r: &str)
        ensures
            r@ == self.code_text(),
    {
        match self {
            AppError::Auth { code, .. } => code,
            AppError::Ai { code, .. } => code,
            AppError::Platform { code, .. } => code,
            AppError::Task { code, .. } => code,
            AppError::Config { code, .. } => code,
            AppError::Crypto { code, .. } => code,
            AppError::Validation { code, .. } => code,
            AppError::Db(_) => "DB_001",
            AppError::Internal(_) => "INTERNAL_001",
        }
    }

    /// What the error displays (its `to_string`).
    pub fn to_display_string(&self) -> (r: String)
        ensures
            r@ == self.display_text(),
    {
        let mut out: Vec<char> = Vec::new();
        match self {
            AppError::Auth { message, .. } => {
                push_str(&mut out, "认证错误: ");
                push_str(&mut out, message.as_str());
            },
            AppError::Ai { message, .. } => {
                push_str(&mut out, "AI 错误: ");
                push_str(&mut out, message.as_str());
            },
            AppError::Platform { message, .. } => {
                push_str(&mut out, "平台错误: ");
                push_str(&mut out, message.as_str());
            },
            AppError::Task { message, .. } => {
                push_str(&mut out, "任务错误: ");
                push_str(&mut out, message.as_str());
            },
            AppError::Config { message, .. } => {
                push_str(&mut out, "配置错误: ");
                push_str(&mut out, message.as_str());
            },
            AppError::Crypto { message, .. } => {
                push_str(&mut out, "加密错误: ");
                push_str(&mut out, message.as_str());
            },
            AppError::Validation { message, .. } => {
                push_str(&mut out, "校验错误: ");
                push_str(&mut out, message.as_str());
            },
            AppError::Db(e) => {
                push_str(&mut out, "数据库错误: ");
                let t = e.to_display_string();
                push_str(&mut out, t.as_str());
            },
            AppError::Internal(m) => {
                push_str(&mut out, "内部错误: ");
                push_str(&mut out, m.as_str());
            },
        }
        string_of(&out)
    }

    /// The error as an API error body: its code and its text.
    pub fn to_api_error(&self) -> (r: ApiError)
        ensures
            r.code@ == self.code_text(),
            r.message@ == self.display_text(),
    {
        let text = self.to_display_string();
        ApiError::new(self.code(), text.as_str())
    }
}

} // verus!
