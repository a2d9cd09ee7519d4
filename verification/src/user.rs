//! Users and sessions: the stored records, the default AI models, and the
//! rules that registration and password changes check their input against.
use crate::error::{AppError, AUTH_004, AUTH_005, INPUT_001};
use crate::text::chars_of;
use vstd::prelude::*;
use vstd::string::StringSliceAdditionalSpecFns;

verus! {

broadcast use vstd::string::group_string_axioms;

/// A registered user.
#[derive(Debug, Clone)]
pub struct User {
    pub id: i64,
    pub username: String,
    pub password_hash: String,
    pub salt: String,
    pub email: Option<String>,
    pub minimax_api_key: Option<String>,
    pub phone: Option<String>,
    pub created_at: String,
    pub updated_at: String,
    pub text_model: String,
    pub image_model: String,
    pub video_model: String,
    pub speech_model: String,
    pub music_model: String,
}

/// A login session.
#[derive(Debug, Clone)]
pub struct Session {
    pub id: i64,
    pub user_id: i64,
    pub token: String,
    pub expires_at: String,
    pub created_at: String,
}

/// A registration request.
#[derive(Debug, Clone)]
pub struct RegisterRequest {
    pub username: String,
    pub password: String,
    pub email: String,
    pub minimax_api_key: String,
    pub phone: Option<String>,
}

/// The answer to a registration.
#[derive(Debug, Clone)]
pub struct RegisterResponse {
    pub user: UserInfo,
    pub session: Session,
}

/// What is shown of a user.
#[derive(Debug, Clone)]
pub struct UserInfo {
    pub id: i64,
    pub username: String,
    pub email: Option<String>,
    pub phone: Option<String>,
    pub created_at: String,
}

/// The AI models a user has chosen.
#[derive(Debug, Clone)]
pub struct UserModelConfig {
    pub text_model: String,
    pub image_model: String,
    pub video_model: String,
    pub speech_model: String,
    pub music_model: String,
}

/// Default text model.
pub fn default_text_model() -> (r: String)
    ensures
        r@ == "MiniMax-M2.7"@,
{
    "MiniMax-M2.7".to_owned()
}

/// Default image model.
pub fn default_image_model() -> (r: String)
    ensures
        r@ == "image-01"@,
{
    "image-01".to_owned()
}

/// Default video model.
pub fn default_video_model() -> (r: String)
    ensures
        r@ == "video-01"@,
{
    "video-01".to_owned()
}

/// Default speech model.
pub fn default_speech_model() -> (r: String)
    ensures
        r@ == "speech-02-hd"@,
{
    "speech-02-hd".to_owned()
}

/// Default music model.
pub fn default_music_model() -> (r: String)
    ensures
        r@ == "music-01"@,
{
    "music-01".to_owned()
}

// ---------------------------------------------------------------------
// Character classes
// ---------------------------------------------------------------------

/// Whether `c` has the Unicode `Alphabetic` property (`char::is_alphabetic`).
pub uninterp spec fn unicode_alphabetic(c: char) -> bool;

/// Whether `c` is in a Unicode numeric category, `Nd`, `Nl` or `No`
/// (`char::is_numeric`).
pub uninterp spec fn unicode_numeric(c: char) -> bool;

/// `char::is_alphabetic` of std; its result is named, since the property
/// comes from the Unicode tables.
#[verifier::external_body]
fn is_alphabetic(c: char) -> (r: bool)
    ensures
        r == unicode_alphabetic(c),
{
    c.is_alphabetic()
}

/// `char::is_numeric` of std; its result is named, since the categories
/// come from the Unicode tables.
#[verifier::external_body]
fn is_numeric(c: char) -> (r: bool)
    ensures
        r == unicode_numeric(c),
{
    c.is_numeric()
}

/// `char::is_alphanumeric` of std, which its documentation defines as
/// `is_alphabetic() || is_numeric()`.
#[verifier::external_body]
fn is_alphanumeric(c: char) -> (r: bool)
    ensures
        r == (unicode_alphabetic(c) || unicode_numeric(c)),
{
    c.is_alphanumeric()
}

/// ASCII letter.
pub open spec fn ascii_letter(c: char) -> bool {
    ('a' <= c && c <= 'z') || ('A' <= c && c <= 'Z')
}

/// ASCII digit.
pub open spec fn ascii_digit(c: char) -> bool {
    '0' <= c && c <= '9'
}

/// A character of the local part of an e-mail address: `[a-zA-Z0-9._%+-]`.
pub open spec fn local_char(c: char) -> bool {
    ascii_letter(c) || ascii_digit(c) || c == '.' || c == '_' || c == '%' || c == '+' || c == '-'
}

/// A character of the domain of an e-mail address: `[a-zA-Z0-9.-]`.
pub open spec fn domain_char(c: char) -> bool {
    ascii_letter(c) || ascii_digit(c) || c == '.' || c == '-'
}

/// `s` matches `^[a-zA-Z0-9._%+-]+@[a-zA-Z0-9.-]+\.[a-zA-Z]{2,}$`: a
/// non-empty local part, `@`, a non-empty domain part, a dot and at least
/// two ASCII letters, and nothing else.
pub open spec fn email_shape(s: Seq<char>) -> bool {
    exists|at: int, dot: int|
        #![trigger s[at], s[dot]]
        0 < at && at + 1 < dot && dot + 3 <= s.len() && s[at] == '@' && s[dot] == '.' && (forall|k: int|
            0 <= k < at ==> local_char(#[trigger] s[k])) && (forall|k: int|
            at < k < dot ==> domain_char(#[trigger] s[k])) && (forall|k: int|
            dot < k < s.len() ==> ascii_letter(#[trigger] s[k]))
}

/// `regex::Regex::is_match` for the e-mail pattern
/// `^[a-zA-Z0-9._%+-]+@[a-zA-Z0-9.-]+\.[a-zA-Z]{2,}$`. The contract states
/// the language of that pattern; the pattern is valid, so `Regex::new`
/// succeeds on it.
#[verifier::external_body]
fn matches_email_pattern(email: &str) -> (r: bool)
    ensures
        r == email_shape(email@),
{
    match regex::Regex::new(r"^[a-zA-Z0-9._%+-]+@[a-zA-Z0-9.-]+\.[a-zA-Z]{2,}$") {
        Ok(re) => re.is_match(email),
        Err(_) => false,
    }
}

// ---------------------------------------------------------------------
// Input rules
// ---------------------------------------------------------------------

/// Length of `s` in bytes (UTF-8).
pub open spec fn byte_len(s: Seq<char>) -> nat {
    vstd::utf8::encode_utf8(s).len()
}

/// Why a user name is refused, if it is: its length must be 3 to 32 bytes
/// and it may hold only letters, digits (in the Unicode sense) and `_`.
pub open spec fn username_problem(u: Seq<char>) -> Option<Seq<char>> {
    if byte_len(u) < 3 || byte_len(u) > 32 {
        Some("用户名长度需在 3-32 之间"@)
    } else if !(forall|i: int|
        0 <= i < u.len() ==> unicode_alphabetic(#[trigger] u[i]) || unicode_numeric(u[i]) || u[i]
            == '_') {
        Some("用户名仅允许字母、数字、下划线"@)
    } else {
        None
    }
}

/// Why a password is refused, if it is: its length must be 8 to 64 bytes
/// and it must hold a letter and a digit.
pub open spec fn password_problem(p: Seq<char>) -> Option<Seq<char>> {
    if byte_len(p) < 8 || byte_len(p) > 64 {
        Some("密码长度需在 8-64 之间"@)
    } else if !(exists|i: int| 0 <= i < p.len() && unicode_alphabetic(#[trigger] p[i])) || !(exists|
        i: int,
    | 0 <= i < p.len() && unicode_numeric(#[trigger] p[i])) {
        Some("密码必须包含字母和数字"@)
    } else {
        None
    }
}

/// Why a phone number is refused, if it is: it must be 11 bytes long and
/// made of digits only.
pub open spec fn phone_problem(p: Seq<char>) -> Option<Seq<char>> {
    if byte_len(p) != 11 {
        Some("手机号码必须为11位"@)
    } else if !(forall|i: int| 0 <= i < p.len() ==> unicode_numeric(#[trigger] p[i])) {
        Some("手机号码只能包含数字"@)
    } else {
        None
    }
}

/// Why an e-mail address is refused, if it is.
pub open spec fn email_problem(e: Seq<char>) -> Option<Seq<char>> {
    if e.len() == 0 {
        Some("邮箱不能为空"@)
    } else if !email_shape(e) {
        Some("邮箱格式不正确"@)
    } else {
        None
    }
}

/// `r` is the validation error with `code` and the refusal `problem`, or
/// success when there is none.
pub open spec fn refused_as(r: Result<(), AppError>, code: Seq<char>, problem: Option<Seq<char>>) -> bool {
    match problem {
        None => r is Ok,
        Some(m) => r matches Err(e) && (e matches AppError::Validation { code: c, message } && c@
            == code && message@ == m),
    }
}

fn all_username_chars(u: &Vec<char>) -> (r: bool)
    ensures
        r == (forall|i: int|
            0 <= i < u@.len() ==> unicode_alphabetic(#[trigger] u@[i]) || unicode_numeric(u@[i])
                || u@[i] == '_'),
{
    let mut i: usize = 0;
    while i < u.len()
        invariant
            i <= u.len(),
            forall|k: int|
                0 <= k < i ==> unicode_alphabetic(#[trigger] u@[k]) || unicode_numeric(u@[k])
                    || u@[k] == '_',
        decreases u.len() - i,
    {
        if !(is_alphanumeric(u[i]) || u[i] == '_') {
            return false;
        }
        i = i + 1;
    }
    true
}

/// Checks a user name.
pub fn validate_username(username: &str) -> (r: Result<(), AppError>)
    ensures
        refused_as(r, AUTH_004@, username_problem(username@)),
{
    let n = username.as_bytes().len();
    if n < 3 || n > 32 {
        return Err(AppError::validation(AUTH_004, "用户名长度需在 3-32 之间"));
    }
    let u = chars_of(username);
    if !all_username_chars(&u) {
        return Err(AppError::validation(AUTH_004, "用户名仅允许字母、数字、下划线"));
    }
    Ok(())
}

/// Checks a password.
pub fn validate_password(password: &str) -> (r: Result<(), AppError>)
    ensures
        refused_as(r, AUTH_005@, password_problem(password@)),
{
    let n = password.as_bytes().len();
    if n < 8 || n > 64 {
        return Err(AppError::validation(AUTH_005, "密码长度需在 8-64 之间"));
    }
    let p = chars_of(password);
    let mut has_letter = false;
    let mut has_digit = false;
    let mut i: usize = 0;
    while i < p.len()
        invariant
            i <= p.len(),
            has_letter == (exists|k: int| 0 <= k < i && unicode_alphabetic(#[trigger] p@[k])),
            has_digit == (exists|k: int| 0 <= k < i && unicode_numeric(#[trigger] p@[k])),
        decreases p.len() - i,
    {
        if is_alphabetic(p[i]) {
            has_letter = true;
        }
        if is_numeric(p[i]) {
            has_digit = true;
        }
        i = i + 1;
    }
    if !has_letter || !has_digit {
        return Err(AppError::validation(AUTH_005, "密码必须包含字母和数字"));
    }
    Ok(())
}

/// Checks a phone number.
pub fn validate_phone(phone: &str) -> (r: Result<(), AppError>)
    ensures
        refused_as(r, INPUT_001@, phone_problem(phone@)),
{
    if phone.as_bytes().len() != 11 {
        return Err(AppError::validation(INPUT_001, "手机号码必须为11位"));
    }
    let p = chars_of(phone);
    let mut i: usize = 0;
    while i < p.len()
        invariant
            i <= p.len(),
            p@ == phone@,
            byte_len(phone@) == 11,
            forall|k: int| 0 <= k < i ==> unicode_numeric(#[trigger] p@[k]),
        decreases p.len() - i,
    {
        if !is_numeric(p[i]) {
            assert(!unicode_numeric(phone@[i as int]));
            return Err(AppError::validation(INPUT_001, "手机号码只能包含数字"));
        }
        i = i + 1;
    }
    assert(forall|k: int| 0 <= k < phone@.len() ==> unicode_numeric(#[trigger] phone@[k]));
    Ok(())
}

/// Checks an e-mail address.
pub fn validate_email(email: &str) -> (r: Result<(), AppError>)
    ensures
        refused_as(r, INPUT_001@, email_problem(email@)),
{
    if email.is_empty() {
        return Err(AppError::validation(INPUT_001, "邮箱不能为空"));
    }
    if !matches_email_pattern(email) {
        return Err(AppError::validation(INPUT_001, "邮箱格式不正确"));
    }
    Ok(())
}

/// The first refusal of a registration, checking the user name, the
/// password, the e-mail address and the phone number (if given) in turn.
pub open spec fn registration_problem(req: RegisterRequest) -> Option<(Seq<char>, Seq<char>)> {
    if username_problem(req.username@) is Some {
        Some((AUTH_004@, username_problem(req.username@)->0))
    } else if password_problem(req.password@) is Some {
        Some((AUTH_005@, password_problem(req.password@)->0))
    } else if email_problem(req.email@) is Some {
        Some((INPUT_001@, email_problem(req.email@)->0))
    } else if req.phone is Some && phone_problem(req.phone->0@) is Some {
        Some((INPUT_001@, phone_problem(req.phone->0@)->0))
    } else {
        None
    }
}

/// Checks the input of a registration, in the order the service does.
pub fn validate_registration(req: &RegisterRequest) -> (r: Result<(), AppError>)
    ensures
        match registration_problem(*req) {
            None => r is Ok,
            Some((code, m)) => r matches Err(e) && (e matches AppError::Validation {
                code: c,
                message,
            } && c@ == code && message@ == m),
        },
{
    validate_username(req.username.as_str())?;
    validate_password(req.password.as_str())?;
    validate_email(req.email.as_str())?;
    if let Some(phone) = &req.phone {
        validate_phone(phone.as_str())?;
    }
    Ok(())
}

} // verus!
