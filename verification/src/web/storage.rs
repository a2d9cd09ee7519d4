//! Stored files: where an upload is written and under which name, how a
//! file's address maps back to its place, and which request paths are
//! let through.
use crate::error::{AppError, INPUT_001};
use crate::pattern::{find, find_exec, rfind_char, slice_from, slice_to, strip_leading, strip_leading_exec};
use crate::text::{
    chars_of, contains, decimal, has_sub, push_all, push_decimal, push_str, starts_with,
    starts_with_exec, str_eq, string_of,
};
use sha2::Digest;
use vstd::prelude::*;

verus! {

broadcast use vstd::string::group_string_axioms;

/// Where files are kept.
#[derive(Debug, Clone, Copy, PartialEq, Eq, Structural)]
pub enum StorageType {
    Local,
    Oss,
    S3,
}

/// The storage settings.
#[derive(Debug, Clone)]
pub struct StorageConfig {
    /// Where files are kept.
    pub storage_type: StorageType,
    /// The directory of local files.
    pub local_path: String,
    /// The address prefix of stored files.
    pub base_url: String,
}

/// The directory of uploaded files.
pub const UPLOAD_ROOT: &'static str = "./data/uploads";

impl Default for StorageConfig {
    fn default() -> (r: StorageConfig)
        ensures
            r.storage_type == StorageType::Local,
            r.local_path@ == "./data/uploads"@,
            r.base_url@ == "/uploads"@,
    {
        StorageConfig {
            storage_type: StorageType::Local,
            local_path: "./data/uploads".to_owned(),
            base_url: "/uploads".to_owned(),
        }
    }
}

/// The storage type a setting names: `oss`, `s3`, anything else local.
pub fn storage_type_named(name: &str) -> (r: StorageType)
    ensures
        name@ == "oss"@ ==> r == StorageType::Oss,
        name@ == "s3"@ ==> r == StorageType::S3,
        name@ != "oss"@ && name@ != "s3"@ ==> r == StorageType::Local,
{
    proof {
        reveal_strlit("oss");
        reveal_strlit("s3");
        assert("oss"@.len() == 3);
    }
    if str_eq(name, "oss") {
        StorageType::Oss
    } else if str_eq(name, "s3") {
        StorageType::S3
    } else {
        StorageType::Local
    }
}

/// A stored file.
#[derive(Debug, Clone)]
pub struct FileInfo {
    /// The name it is stored under.
    pub filename: String,
    /// The name it was uploaded with.
    pub original_filename: String,
    /// Its address.
    pub url: String,
    /// Its size in bytes.
    pub size: i64,
    /// Its MIME type.
    pub content_type: String,
    /// The SHA-256 of its content, in lower-case hexadecimal.
    pub hash: String,
}

/// A description of an upload.
#[derive(Debug)]
pub struct UploadRequest {
    pub filename: String,
    pub content_type: String,
    pub category: Option<String>,
}

/// The reply to an upload.
#[derive(Debug)]
pub struct UploadResponse {
    pub file: FileInfo,
}

/// The file store.
#[derive(Debug, Clone)]
pub struct StorageService {
    config: StorageConfig,
}

impl StorageService {
    /// The store's settings.
    pub closed spec fn settings(self) -> StorageConfig {
        self.config
    }

    /// A store with the settings `config`.
    pub fn new(config: StorageConfig) -> (r: StorageService)
        ensures
            r.settings() == config,
    {
        StorageService { config }
    }

    /// The store's settings.
    pub fn config(&self) -> (r: &StorageConfig)
        ensures
            *r == self.settings(),
    {
        &self.config
    }
}

// ---------------------------------------------------------------------
// Hashing
// ---------------------------------------------------------------------

/// The SHA-256 digest of `data`.
pub uninterp spec fn sha256(data: Seq<u8>) -> Seq<u8>;

/// `Sha256::digest` of sha2: the 32-byte digest of `data`.
#[verifier::external_body]
fn sha256_digest(data: &[u8]) -> (r: Vec<u8>)
    ensures
        r@ == sha256(data@),
        r@.len() == 32,
{
    sha2::Sha256::digest(data).to_vec()
}

/// The lower-case hexadecimal digit for `d < 16`.
pub open spec fn hex_lower(d: nat) -> char {
    if d < 10 {
        crate::text::digit(d)
    } else if d == 10 {
        'a'
    } else if d == 11 {
        'b'
    } else if d == 12 {
        'c'
    } else if d == 13 {
        'd'
    } else if d == 14 {
        'e'
    } else {
        'f'
    }
}

/// Each byte of `bs` as two lower-case hexadecimal digits.
pub open spec fn hex_text(bs: Seq<u8>) -> Seq<char>
    decreases bs.len(),
{
    if bs.len() == 0 {
        seq![]
    } else {
        hex_text(bs.drop_last()) + seq![hex_lower((bs.last() / 16) as nat), hex_lower((bs.last() % 16) as nat)]
    }
}

proof fn lemma_hex_text_len(bs: Seq<u8>)
    ensures
        hex_text(bs).len() == 2 * bs.len(),
    decreases bs.len(),
{
    if bs.len() > 0 {
        lemma_hex_text_len(bs.drop_last());
    }
}

/// `hex::encode`: each byte as two lower-case hexadecimal digits, as its
/// documentation states.
#[verifier::external_body]
fn hex_encode(bytes: &[u8]) -> (r: String)
    ensures
        r@ == hex_text(bytes@),
{
    hex::encode(bytes)
}

/// The hash a stored file is known by: its SHA-256 in lower-case
/// hexadecimal.
pub fn compute_hash(data: &[u8]) -> (r: String)
    ensures
        r@ == hex_text(sha256(data@)),
        r@.len() == 64,
{
    let digest = sha256_digest(data);
    proof {
        lemma_hex_text_len(digest@);
    }
    hex_encode(&digest)
}

// ---------------------------------------------------------------------
// Paths
// ---------------------------------------------------------------------

/// `PathBuf::push` on Unix: an absolute `b` replaces `a`; otherwise `b`
/// follows `a`, with a `/` between them unless `a` is empty or ends with
/// one.
pub open spec fn path_join(a: Seq<char>, b: Seq<char>) -> Seq<char> {
    if b.len() > 0 && b[0] == '/' {
        b
    } else if a.len() == 0 || a.last() == '/' {
        a + b
    } else {
        a + seq!['/'] + b
    }
}

/// `a` joined with `b`, as `Path::join`.
pub fn path_join_exec(a: &str, b: &str) -> (r: String)
    ensures
        r@ == path_join(a@, b@),
{
    let av = chars_of(a);
    let bv = chars_of(b);
    if bv.len() > 0 && bv[0] == '/' {
        return b.to_owned();
    }
    let mut out: Vec<char> = Vec::new();
    push_all(&mut out, &av);
    if !(av.len() == 0 || av[av.len() - 1] == '/') {
        out.push('/');
    }
    push_all(&mut out, &bv);
    string_of(&out)
}

/// The last place of `c` in `s` lies in `s` and holds `c`.
pub proof fn lemma_rfind_char_bound(s: Seq<char>, c: char)
    ensures
        rfind_char(s, c) matches Some(i) ==> 0 <= i < s.len() && s[i] == c,
    decreases s.len(),
{
    if s.len() > 0 && s.last() != c {
        lemma_rfind_char_bound(s.drop_last(), c);
    }
}

/// The file name `Path::file_name` reads from `text` on Unix: its last
/// component, where that is a name. Trailing slashes are passed over, and
/// so is a `.` component; a final `..`, or no component at all, gives
/// none.
pub open spec fn path_file_name(text: Seq<char>) -> Option<Seq<char>>
    decreases text.len(),
{
    if text.len() == 0 {
        None
    } else if text.last() == '/' {
        path_file_name(text.drop_last())
    } else {
        proof {
            lemma_rfind_char_bound(text, '/');
        }
        let start = match rfind_char(text, '/') {
            Some(i) => i + 1,
            None => 0,
        };
        let last = text.subrange(start, text.len() as int);
        if last == seq!['.'] {
            path_file_name(text.subrange(0, start))
        } else if last == seq!['.', '.'] {
            None
        } else {
            Some(last)
        }
    }
}

/// The extension `Path::extension` reads from `text`: the part of its
/// file name after the last dot, where the dot is not its first character.
pub open spec fn path_extension(text: Seq<char>) -> Option<Seq<char>> {
    match path_file_name(text) {
        None => None,
        Some(n) => match rfind_char(n, '.') {
            Some(i) => if i == 0 {
                None
            } else {
                Some(n.subrange(i + 1, n.len() as int))
            },
            None => None,
        },
    }
}

/// The file name of a path, as `Path::file_name` reads it on Unix.
fn file_name_of(text: &str) -> (r: Option<String>)
    ensures
        match r {
            Some(e) => path_file_name(text@) == Some(e@),
            None => path_file_name(text@).is_none(),
        },
{
    let pv = chars_of(text);
    let mut end: usize = pv.len();
    assert(pv@.take(end as int) =~= pv@);
    loop
        invariant
            end <= pv.len(),
            pv@ == text@,
            path_file_name(pv@) == path_file_name(pv@.take(end as int)),
        decreases end,
    {
        let ghost t = pv@.take(end as int);
        if end == 0 {
            assert(t.len() == 0);
            return None;
        }
        assert(t.last() == pv@[end - 1]);
        if pv[end - 1] == '/' {
            assert(t.drop_last() =~= pv@.take(end - 1));
            end = end - 1;
        } else {
            let head = slice_to(&pv, end);
            proof {
                lemma_rfind_char_bound(t, '/');
            }
            let start: usize = match crate::pattern::rfind_char_exec(&head, '/') {
                Some(i) => i + 1,
                None => 0,
            };
            let seg = slice_from(&head, start);
            assert(seg@ =~= t.subrange(start as int, end as int));
            if seg.len() == 1 && seg[0] == '.' {
                assert(seg@ =~= seq!['.']);
                assert(t.subrange(0, start as int) =~= pv@.take(start as int));
                end = start;
            } else if seg.len() == 2 && seg[0] == '.' && seg[1] == '.' {
                assert(seg@ =~= seq!['.', '.']);
                return None;
            } else {
                assert(seg@ != seq!['.']);
                assert(seg@ != seq!['.', '.']);
                return Some(string_of(&seg));
            }
        }
    }
}

/// The extension of a path, as `Path::extension` reads it on Unix.
fn extension_of(text: &str) -> (r: Option<String>)
    ensures
        match r {
            Some(e) => path_extension(text@) == Some(e@),
            None => path_extension(text@).is_none(),
        },
{
    let name = match file_name_of(text) {
        Some(n) => n,
        None => {
            return None;
        },
    };
    let nv = chars_of(name.as_str());
    match crate::pattern::rfind_char_exec(&nv, '.') {
        Some(i) => {
            assert(rfind_char(nv@, '.') == Some(i as int));
            proof {
                lemma_rfind_char_bound(nv@, '.');
            }
            assert(i < nv.len());
            if i == 0 {
                None
            } else {
                let e = slice_from(&nv, i + 1);
                assert(e@ =~= nv@.subrange(i + 1, nv@.len() as int));
                Some(string_of(&e))
            }
        },
        None => None,
    }
}

/// The name an upload is stored under: the upload time in milliseconds,
/// `_`, the first eight digits of its hash, and its extension if any.
pub open spec fn stored_name(millis: u64, hash: Seq<char>, filename: Seq<char>) -> Seq<char> {
    let base = decimal(millis as nat) + seq!['_'] + hash.take(8);
    match path_extension(filename) {
        Some(e) => if e.len() == 0 {
            base
        } else {
            base + seq!['.'] + e
        },
        None => base,
    }
}

/// Where and under which name an upload goes.
#[derive(Debug)]
pub struct UploadPlan {
    /// The directory below the storage directory: the day's date and the
    /// day of the month.
    pub sub_dir: String,
    /// The file to write.
    pub file_path: String,
    /// The stored file's description.
    pub info: FileInfo,
}

/// Where an upload of `data` named `filename` goes: under the storage
/// directory, in the directory of the day (`date_text`, the date as
/// `%Y-%m-%d`, and `day_text`, the day as `%d`), named by the time
/// `millis` and the content's hash, with its address below the base URL.
pub fn plan_upload(
    config: &StorageConfig,
    data: &[u8],
    filename: &str,
    content_type: &str,
    millis: u64,
    date_text: &str,
    day_text: &str,
) -> (r: UploadPlan)
    requires
        data@.len() <= i64::MAX,
    ensures
        r.info.hash@ == hex_text(sha256(data@)),
        r.info.filename@ == stored_name(millis, r.info.hash@, filename@),
        r.sub_dir@ == date_text@ + seq!['/'] + day_text@,
        r.file_path@ == path_join(path_join(config.local_path@, r.sub_dir@), r.info.filename@),
        r.info.url@ == config.base_url@ + seq!['/'] + r.sub_dir@ + seq!['/'] + r.info.filename@,
        r.info.original_filename@ == filename@,
        r.info.size == data@.len(),
        r.info.content_type@ == content_type@,
{
    let hash = compute_hash(data);
    let hv = chars_of(hash.as_str());
    let mut name: Vec<char> = Vec::new();
    push_decimal(&mut name, millis);
    name.push('_');
    let head = crate::pattern::slice_to(&hv, 8);
    push_all(&mut name, &head);
    match extension_of(filename) {
        Some(e) => {
            if !e.as_str().is_empty() {
                name.push('.');
                push_str(&mut name, e.as_str());
            }
        },
        None => {},
    }
    let unique = string_of(&name);
    let mut sd: Vec<char> = Vec::new();
    push_str(&mut sd, date_text);
    sd.push('/');
    push_str(&mut sd, day_text);
    let sub_dir = string_of(&sd);
    let dir = path_join_exec(config.local_path.as_str(), sub_dir.as_str());
    let file_path = path_join_exec(dir.as_str(), unique.as_str());
    let mut u: Vec<char> = Vec::new();
    push_str(&mut u, config.base_url.as_str());
    u.push('/');
    push_str(&mut u, sub_dir.as_str());
    u.push('/');
    push_str(&mut u, unique.as_str());
    let info = FileInfo {
        filename: unique,
        original_filename: filename.to_owned(),
        url: string_of(&u),
        size: data.len() as i64,
        content_type: content_type.to_owned(),
        hash,
    };
    UploadPlan { sub_dir, file_path, info }
}

/// `s` without its leading copies of `p`, as `str::trim_start_matches`
/// with a string pattern.
pub open spec fn strip_leading_str(s: Seq<char>, p: Seq<char>) -> Seq<char>
    decreases s.len(),
{
    if p.len() > 0 && starts_with(s, p) {
        strip_leading_str(s.skip(p.len() as int), p)
    } else {
        s
    }
}

/// The file a stored file's address stands for: the address without its
/// leading base URL and slashes, below the storage directory.
pub open spec fn stored_path(config: StorageConfig, url: Seq<char>) -> Seq<char> {
    path_join(config.local_path@, strip_leading(strip_leading_str(url, config.base_url@), '/'))
}

/// The file a stored file's address stands for.
pub fn stored_file_path(config: &StorageConfig, url: &str) -> (r: String)
    ensures
        r@ == stored_path(*config, url@),
{
    let uv = chars_of(url);
    let bv = chars_of(config.base_url.as_str());
    let mut a: usize = 0;
    assert(uv@.skip(0) =~= uv@);
    while bv.len() > 0 && a <= uv.len() && starts_with_exec(&slice_from(&uv, a), &bv)
        invariant
            a <= uv.len(),
            bv@ == config.base_url@,
            strip_leading_str(uv@, bv@) == strip_leading_str(uv@.skip(a as int), bv@),
        decreases uv.len() - a,
    {
        assert(uv@.skip(a as int).skip(bv@.len() as int) =~= uv@.skip(a + bv.len()));
        a = a + bv.len();
    }
    let rest = slice_from(&uv, a);
    let path = strip_leading_exec(&rest, '/');
    path_join_exec(config.local_path.as_str(), string_of(&path).as_str())
}

proof fn lemma_decimal_head(n: nat)
    ensures
        decimal(n).len() > 0,
        decimal(n)[0] != '/',
    decreases n,
{
    if n >= 10 {
        lemma_decimal_head(n / 10);
    }
}

/// An upload's address, after the base URL, begins with the base URL
/// again (its stripping would then take more than the base).
pub open spec fn base_repeats(base: Seq<char>, after_base: Seq<char>) -> bool {
    base.len() > 0 && starts_with(after_base, base)
}

/// An upload's address leads back to the file it was written to: the
/// file that the address `plan_upload` gives stands for is the file it
/// plans to write, for dates without a slash at their outer ends, and
/// unless the address after the base URL begins with the base URL again.
pub proof fn lemma_upload_address_leads_back(
    config: StorageConfig,
    millis: u64,
    hash: Seq<char>,
    filename: Seq<char>,
    date: Seq<char>,
    day: Seq<char>,
)
    requires
        date.len() > 0,
        date[0] != '/',
        day.len() > 0,
        day.last() != '/',
        !base_repeats(
            config.base_url@,
            seq!['/'] + (date + seq!['/'] + day) + seq!['/'] + stored_name(millis, hash, filename),
        ),
    ensures
        ({
            let sub = date + seq!['/'] + day;
            let name = stored_name(millis, hash, filename);
            stored_path(config, config.base_url@ + seq!['/'] + sub + seq!['/'] + name) == path_join(
                path_join(config.local_path@, sub),
                name,
            )
        }),
{
    let base = config.base_url@;
    let local = config.local_path@;
    let sub = date + seq!['/'] + day;
    let name = stored_name(millis, hash, filename);
    lemma_decimal_head(millis as nat);
    assert(name[0] == decimal(millis as nat)[0]);
    let tail = sub + seq!['/'] + name;
    let rest = seq!['/'] + tail;
    let url = base + seq!['/'] + sub + seq!['/'] + name;
    assert(url =~= base + rest);
    assert(strip_leading_str(url, base) == rest) by {
        if base.len() > 0 {
            assert(url.subrange(0, base.len() as int) =~= base);
            assert(url.skip(base.len() as int) =~= rest);
            assert(rest =~= seq!['/'] + (date + seq!['/'] + day) + seq!['/'] + name);
            assert(!starts_with(rest, base));
            assert(strip_leading_str(rest, base) == rest);
        } else {
            assert(url =~= rest);
        }
    }
    assert(rest.drop_first() =~= tail);
    assert(tail[0] == date[0]);
    assert(strip_leading(tail, '/') == tail);
    assert(strip_leading(rest, '/') == tail);
    let joined = path_join(local, sub);
    assert(sub[0] == date[0]);
    assert(joined.len() > 0 && joined.last() == day.last());
    assert(path_join(joined, name) =~= joined + seq!['/'] + name);
    if local.len() == 0 || local.last() == '/' {
        assert(path_join(local, tail) =~= path_join(joined, name));
    } else {
        assert(path_join(local, tail) =~= path_join(joined, name));
    }
}

// ---------------------------------------------------------------------
// Request paths and names
// ---------------------------------------------------------------------

/// The refusal of a request path, if any: an empty path, one that climbs
/// (`..`), has a backslash or is absolute, or names a hidden file.
pub open spec fn path_refusal(path: Seq<char>) -> Option<Seq<char>> {
    if path.len() == 0 {
        Some("路径不能为空"@)
    } else if has_sub(path, ".."@) || has_sub(path, seq!['\\']) || (path.len() > 0 && path[0] == '/') {
        Some("非法路径：禁止路径穿越"@)
    } else if ({
        let name = match path_file_name(path) {
            Some(n) => n,
            None => seq![],
        };
        name.len() > 0 && name[0] == '.'
    }) {
        Some("禁止访问隐藏文件"@)
    } else {
        None
    }
}

/// The part of request paths that leads into a user's own directory.
pub open spec fn user_dir_prefix(user_id: i64) -> Seq<char> {
    "user_"@ + crate::text::signed_decimal(user_id as int) + "/"@
}

/// The refusal of a request by `user_id` for `path`: the path's own
/// refusal, or a path outside the user's own directory.
pub open spec fn request_refusal(path: Seq<char>, user_id: i64) -> Option<Seq<char>> {
    match path_refusal(path) {
        Some(m) => Some(m),
        None => if starts_with(path, user_dir_prefix(user_id)) {
            None
        } else {
            Some("路径超出允许范围"@)
        },
    }
}

/// A path requested by `user_id`, checked and placed below the upload
/// directory: it must lie in the user's own directory; a validation error
/// naming the refusal otherwise. (Whether the place lies inside the upload
/// directory once links are resolved is checked on the file system.)
pub fn check_request_path(path: &str, user_id: i64) -> (r: Result<String, AppError>)
    ensures
        match request_refusal(path@, user_id) {
            Some(m) => r matches Err(AppError::Validation { code, message }) && code@ == INPUT_001@
                && message@ == m,
            None => r matches Ok(p) && p@ == path_join(UPLOAD_ROOT@, path@),
        },
{
    proof {
        reveal_strlit("..");
    }
    let pv = chars_of(path);
    if pv.len() == 0 {
        return Err(AppError::validation(INPUT_001, "路径不能为空"));
    }
    let dots = chars_of("..");
    let bs = vec!['\\'];
    assert(bs@ =~= seq!['\\']);
    if contains(&pv, &dots) || contains(&pv, &bs) || pv[0] == '/' {
        return Err(AppError::validation(INPUT_001, "非法路径：禁止路径穿越"));
    }
    let name = match file_name_of(path) {
        Some(n) => n,
        None => String::new(),
    };
    let nv = chars_of(name.as_str());
    if nv.len() > 0 && nv[0] == '.' {
        return Err(AppError::validation(INPUT_001, "禁止访问隐藏文件"));
    }
    let mut own: Vec<char> = Vec::new();
    push_str(&mut own, "user_");
    crate::text::push_signed_decimal(&mut own, user_id);
    push_str(&mut own, "/");
    if !starts_with_exec(&pv, &own) {
        return Err(AppError::validation(INPUT_001, "路径超出允许范围"));
    }
    Ok(path_join_exec(UPLOAD_ROOT, path))
}

/// An upload's name is refused if it climbs (`..`) or holds a separator.
pub open spec fn bad_upload_name(name: Seq<char>) -> bool {
    has_sub(name, ".."@) || has_sub(name, seq!['\\']) || has_sub(name, seq!['/'])
}

/// Checks an upload's name: refused with a validation error if it climbs
/// or holds a separator.
pub fn check_upload_name(name: &str) -> (r: Result<(), AppError>)
    ensures
        bad_upload_name(name@) ==> (r matches Err(AppError::Validation { code, message }) && code@
            == INPUT_001@ && message@ == "非法文件名"@),
        !bad_upload_name(name@) ==> r is Ok,
{
    let nv = chars_of(name);
    let dots = chars_of("..");
    let bs = vec!['\\'];
    let sl = vec!['/'];
    assert(bs@ =~= seq!['\\']);
    assert(sl@ =~= seq!['/']);
    if contains(&nv, &dots) || contains(&nv, &bs) || contains(&nv, &sl) {
        Err(AppError::validation(INPUT_001, "非法文件名"))
    } else {
        Ok(())
    }
}

/// The upload directory of a user.
pub fn user_upload_dir(user_id: i64) -> (r: String)
    ensures
        r@ == path_join(UPLOAD_ROOT@, "user_"@ + crate::text::signed_decimal(user_id as int)),
{
    let mut d: Vec<char> = Vec::new();
    push_str(&mut d, "user_");
    crate::text::push_signed_decimal(&mut d, user_id);
    path_join_exec(UPLOAD_ROOT, string_of(&d).as_str())
}

/// The MIME type a served file's extension stands for.
pub open spec fn mime_of(ext: Seq<char>) -> Seq<char> {
    if ext == "jpg"@ || ext == "jpeg"@ {
        "image/jpeg"@
    } else if ext == "png"@ {
        "image/png"@
    } else if ext == "gif"@ {
        "image/gif"@
    } else if ext == "webp"@ {
        "image/webp"@
    } else if ext == "mp4"@ {
        "video/mp4"@
    } else if ext == "mp3"@ {
        "audio/mpeg"@
    } else if ext == "pdf"@ {
        "application/pdf"@
    } else {
        "application/octet-stream"@
    }
}

/// The name and MIME type a served file is sent with: the file name of
/// the request path (`file` where it has none) and the type of its
/// extension.
pub fn served_file(path: &str) -> (r: (String, &'static str))
    ensures
        r.0@ == (match path_file_name(path@) {
            Some(n) => n,
            None => "file"@,
        }),
        r.1@ == mime_of(match path_extension(r.0@) {
            Some(e) => e,
            None => seq![],
        }),
{
    let name = match file_name_of(path) {
        Some(n) => n,
        None => "file".to_owned(),
    };
    let ext = match extension_of(name.as_str()) {
        Some(e) => e,
        None => String::new(),
    };
    let e = ext.as_str();
    let mime = if str_eq(e, "jpg") || str_eq(e, "jpeg") {
        "image/jpeg"
    } else if str_eq(e, "png") {
        "image/png"
    } else if str_eq(e, "gif") {
        "image/gif"
    } else if str_eq(e, "webp") {
        "image/webp"
    } else if str_eq(e, "mp4") {
        "video/mp4"
    } else if str_eq(e, "mp3") {
        "audio/mpeg"
    } else if str_eq(e, "pdf") {
        "application/pdf"
    } else {
        "application/octet-stream"
    };
    (name, mime)
}

/// The `Content-Disposition` of a served file.
pub fn content_disposition(filename: &str) -> (r: String)
    ensures
        r@ == "inline; filename=\""@ + filename@ + "\""@,
{
    let mut out: Vec<char> = Vec::new();
    push_str(&mut out, "inline; filename=\"");
    push_str(&mut out, filename);
    push_str(&mut out, "\"");
    string_of(&out)
}

} // verus!
