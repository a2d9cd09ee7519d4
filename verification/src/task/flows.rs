//! The decisions of the task endpoints: who may act on a task, which
//! tasks may be saved, and what a stored task result puts into a draft.
use crate::error::{AppError, AUTH_006};
use crate::json::{json_array, json_document, json_get, json_str, member_str, member_string, parse_json, Json};
use crate::text::str_eq;
use crate::types::{Platform, TaskStatus};
use vstd::prelude::*;

verus! {

broadcast use vstd::string::group_string_axioms;

/// The code of the refusal to save an unfinished task.
pub const TASK_004: &'static str = "TASK_004";

/// A user may act on a task only if it is theirs; `message` says what was
/// refused.
pub fn check_task_owner(task_user_id: i64, user_id: i64, message: &str) -> (r: Result<(), AppError>)
    ensures
        task_user_id == user_id ==> r is Ok,
        task_user_id != user_id ==> (r matches Err(AppError::Auth { code, message: m }) && code@
            == AUTH_006@ && m@ == message@),
{
    if task_user_id != user_id {
        Err(AppError::auth(AUTH_006, message))
    } else {
        Ok(())
    }
}

/// Only a completed task can be saved to the drafts.
pub fn check_saveable(status: TaskStatus) -> (r: Result<(), AppError>)
    ensures
        status == TaskStatus::Completed ==> r is Ok,
        status != TaskStatus::Completed ==> (r matches Err(AppError::Validation { code, message: m })
            && code@ == TASK_004@ && m@ == "只能保存已完成的任务到草稿箱"@),
{
    if status != TaskStatus::Completed {
        Err(AppError::validation(TASK_004, "只能保存已完成的任务到草稿箱"))
    } else {
        Ok(())
    }
}

/// `str::to_lowercase`: the Unicode lower-case mapping of `s`.
pub uninterp spec fn lowercase_text(s: Seq<char>) -> Seq<char>;

/// `s` with the ASCII capitals `A` to `Z` made small, the rest kept.
pub open spec fn ascii_lowercase(s: Seq<char>) -> Seq<char> {
    Seq::new(
        s.len(),
        |i: int|
            if 'A' <= s[i] && s[i] <= 'Z' {
                ((s[i] as u32) + 32) as char
            } else {
                s[i]
            },
    )
}

/// For an ASCII text `s`, `r` is `s` with its ASCII capitals made small.
pub open spec fn ascii_lowercased(s: Seq<char>, r: Seq<char>) -> bool {
    vstd::utf8::is_ascii_chars(s) ==> r == ascii_lowercase(s)
}

/// `str::to_lowercase`: the Unicode lower-case mapping, which on ASCII
/// letters is the ASCII one (`A`..`Z` to `a`..`z`) and keeps the other
/// ASCII characters.
#[verifier::external_body]
pub(crate) fn to_lowercase(s: &str) -> (r: String)
    ensures
        r@ == lowercase_text(s@),
        ascii_lowercased(s@, r@),
{
    s.to_lowercase()
}

/// The platform a lower-cased label names.
pub open spec fn platform_of_label(l: Seq<char>) -> Option<Platform> {
    if l == "xiaohongshu"@ {
        Some(Platform::Xiaohongshu)
    } else if l == "douyin"@ {
        Some(Platform::Douyin)
    } else if l == "wechatofficial"@ || l == "wechat"@ {
        Some(Platform::WeChatOfficial)
    } else if l == "bilibili"@ {
        Some(Platform::Bilibili)
    } else if l == "weibo"@ {
        Some(Platform::Weibo)
    } else if l == "toutiao"@ {
        Some(Platform::Toutiao)
    } else {
        None
    }
}

/// The label of every platform is the lower-case form of its variant
/// name, and reading it back gives the platform; `wechat` is WeChat too.
pub proof fn lemma_labels_read_back(p: Platform)
    ensures
        platform_of_label(ascii_lowercase(p.debug_text())) == Some(p),
        platform_of_label("wechat"@) == Some(Platform::WeChatOfficial),
{
    reveal_strlit("Xiaohongshu");
    reveal_strlit("Douyin");
    reveal_strlit("WeChatOfficial");
    reveal_strlit("Bilibili");
    reveal_strlit("Weibo");
    reveal_strlit("Toutiao");
    reveal_strlit("xiaohongshu");
    reveal_strlit("douyin");
    reveal_strlit("wechatofficial");
    reveal_strlit("wechat");
    reveal_strlit("bilibili");
    reveal_strlit("weibo");
    reveal_strlit("toutiao");
    let l = ascii_lowercase(p.debug_text());
    match p {
        Platform::Xiaohongshu => assert(l =~= "xiaohongshu"@),
        Platform::Douyin => {
            assert(l =~= "douyin"@);
            assert(l[0] != "xiaohongshu"@[0]);
        },
        Platform::WeChatOfficial => {
            assert(l =~= "wechatofficial"@);
            assert(l[0] != "xiaohongshu"@[0]);
            assert(l[0] != "douyin"@[0]);
        },
        Platform::Bilibili => {
            assert(l =~= "bilibili"@);
            assert(l.len() != "xiaohongshu"@.len());
            assert(l[0] != "douyin"@[0]);
            assert(l.len() != "wechatofficial"@.len());
            assert(l[0] != "wechat"@[0]);
        },
        Platform::Weibo => {
            assert(l =~= "weibo"@);
            assert(l.len() != "xiaohongshu"@.len());
            assert(l.len() != "douyin"@.len());
            assert(l.len() != "wechatofficial"@.len());
            assert(l.len() != "wechat"@.len());
            assert(l.len() != "bilibili"@.len());
        },
        Platform::Toutiao => {
            assert(l =~= "toutiao"@);
            assert(l.len() != "xiaohongshu"@.len());
            assert(l.len() != "douyin"@.len());
            assert(l.len() != "wechatofficial"@.len());
            assert(l.len() != "wechat"@.len());
            assert(l.len() != "bilibili"@.len());
            assert(l.len() != "weibo"@.len());
        },
    }
    assert("wechat"@.len() != "xiaohongshu"@.len());
    assert("wechat"@.len() != "douyin"@.len() || "wechat"@[0] != "douyin"@[0]);
    assert("wechat"@.len() != "wechatofficial"@.len());
}

fn platform_of_label_exec(l: &str) -> (r: Option<Platform>)
    ensures
        r == platform_of_label(l@),
{
    if str_eq(l, "xiaohongshu") {
        Some(Platform::Xiaohongshu)
    } else if str_eq(l, "douyin") {
        Some(Platform::Douyin)
    } else if str_eq(l, "wechatofficial") || str_eq(l, "wechat") {
        Some(Platform::WeChatOfficial)
    } else if str_eq(l, "bilibili") {
        Some(Platform::Bilibili)
    } else if str_eq(l, "weibo") {
        Some(Platform::Weibo)
    } else if str_eq(l, "toutiao") {
        Some(Platform::Toutiao)
    } else {
        None
    }
}

/// The adapted content an entry of `adapted_contents` stands for: a
/// platform label (any case) and a text, both strings.
pub open spec fn adapted_entry(item: Json) -> Option<(Platform, Seq<char>)> {
    match (member_str(item, "platform"@), member_str(item, "content"@)) {
        (Some(p), Some(c)) => match platform_of_label(lowercase_text(p)) {
            Some(pl) => Some((pl, c)),
            None => None,
        },
        _ => None,
    }
}

/// The adapted contents the entries stand for, in order; entries that
/// stand for none are passed over.
pub open spec fn adapted_entries(items: Seq<Json>) -> Seq<(Platform, Seq<char>)>
    decreases items.len(),
{
    if items.len() == 0 {
        seq![]
    } else {
        match adapted_entry(items.last()) {
            Some(e) => adapted_entries(items.drop_last()).push(e),
            None => adapted_entries(items.drop_last()),
        }
    }
}

/// The strings among `items`, in order.
pub open spec fn string_entries(items: Seq<Json>) -> Seq<Seq<char>>
    decreases items.len(),
{
    if items.len() == 0 {
        seq![]
    } else {
        match json_str(items.last()) {
            Some(s) => string_entries(items.drop_last()).push(s),
            None => string_entries(items.drop_last()),
        }
    }
}

/// The elements of the array member `key`, none where there is no array.
pub open spec fn array_member(doc: Json, key: Seq<char>) -> Seq<Json> {
    match json_get(doc, key) {
        Some(v) => match json_array(v) {
            Some(items) => items,
            None => seq![],
        },
        None => seq![],
    }
}

/// The stored result as a document: `{}` where there is none, `null`
/// where it is no JSON.
pub open spec fn result_document(result: Option<Seq<char>>) -> Json {
    let text = match result {
        Some(t) => t,
        None => "{}"@,
    };
    match json_document(text) {
        Some(d) => d,
        None => Json::Null,
    }
}

/// The view of a list of adapted contents.
pub open spec fn pairs_view(v: Seq<(Platform, String)>) -> Seq<(Platform, Seq<char>)> {
    Seq::new(v.len(), |i: int| (v[i].0, v[i].1@))
}

/// The view of a list of strings.
pub open spec fn strings_view(v: Seq<String>) -> Seq<Seq<char>> {
    Seq::new(v.len(), |i: int| v[i]@)
}

/// What a draft takes from a stored task result.
#[derive(Debug)]
pub struct DraftParts {
    pub original_content: Option<String>,
    pub adapted_contents: Vec<(Platform, String)>,
    pub generated_images: Vec<String>,
}

fn adapted_of(items: &Vec<Json>) -> (r: Vec<(Platform, String)>)
    ensures
        pairs_view(r@) == adapted_entries(items@),
{
    let mut out: Vec<(Platform, String)> = Vec::new();
    let mut i: usize = 0;
    while i < items.len()
        invariant
            i <= items.len(),
            pairs_view(out@) == adapted_entries(items@.take(i as int)),
        decreases items.len() - i,
    {
        assert(items@.take(i + 1).drop_last() =~= items@.take(i as int));
        let item = &items[i];
        let p = member_string(item, "platform");
        let c = member_string(item, "content");
        match (p, c) {
            (Some(p), Some(c)) => {
                let lower = to_lowercase(p.as_str());
                match platform_of_label_exec(lower.as_str()) {
                    Some(pl) => {
                        let ghost before = out@;
                        out.push((pl, c));
                        assert(pairs_view(out@) =~= pairs_view(before).push((pl, c@)));
                    },
                    None => {},
                }
            },
            _ => {},
        }
        i = i + 1;
    }
    assert(items@.take(items.len() as int) =~= items@);
    out
}

fn strings_of(items: &Vec<Json>) -> (r: Vec<String>)
    ensures
        strings_view(r@) == string_entries(items@),
{
    let mut out: Vec<String> = Vec::new();
    let mut i: usize = 0;
    while i < items.len()
        invariant
            i <= items.len(),
            strings_view(out@) == string_entries(items@.take(i as int)),
        decreases items.len() - i,
    {
        assert(items@.take(i + 1).drop_last() =~= items@.take(i as int));
        match items[i].as_str() {
            Some(s) => {
                let ghost before = out@;
                out.push(s.to_owned());
                assert(strings_view(out@) =~= strings_view(before).push(s@));
            },
            None => {},
        }
        i = i + 1;
    }
    assert(items@.take(items.len() as int) =~= items@);
    out
}

/// What a draft takes from the stored result of a task: the generated
/// text, the adapted contents whose platform label is known, and the
/// image links.
pub fn draft_parts_of_result(result: Option<&str>) -> (r: DraftParts)
    ensures
        ({
            let doc = result_document(opt_view(result));
            &&& (match r.original_content {
                Some(s) => member_str(doc, "generated_text"@) == Some(s@),
                None => member_str(doc, "generated_text"@).is_none(),
            })
            &&& pairs_view(r.adapted_contents@) == adapted_entries(array_member(doc, "adapted_contents"@))
            &&& strings_view(r.generated_images@) == string_entries(array_member(doc, "generated_images"@))
        }),
{
    let text: &str = match result {
        Some(t) => t,
        None => "{}",
    };
    let parsed = parse_json(text);
    let doc = match parsed {
        Some(d) => d,
        None => Json::Null,
    };
    let original_content = member_string(&doc, "generated_text");
    let adapted_contents = match doc.get("adapted_contents") {
        Some(v) => match v.as_array() {
            Some(items) => adapted_of(items),
            None => Vec::new(),
        },
        None => Vec::new(),
    };
    let generated_images = match doc.get("generated_images") {
        Some(v) => match v.as_array() {
            Some(items) => strings_of(items),
            None => Vec::new(),
        },
        None => Vec::new(),
    };
    proof {
        assert(pairs_view(Seq::<(Platform, String)>::empty()) =~= Seq::empty());
        assert(strings_view(Seq::<String>::empty()) =~= Seq::empty());
    }
    DraftParts { original_content, adapted_contents, generated_images }
}

/// The view of an optional string slice.
pub open spec fn opt_view(o: Option<&str>) -> Option<Seq<char>> {
    match o {
        Some(s) => Some(s@),
        None => None,
    }
}

} // verus!
