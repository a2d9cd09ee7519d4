//! Drafts: generated content kept for later publication, its status, and
//! the decisions taken when a draft is published.
use crate::task::flows::ascii_lowercase;
use crate::text::str_eq;
use crate::types::{Platform, PublishResult};
use vstd::prelude::*;

verus! {

broadcast use vstd::string::group_string_axioms;

/// A saved draft.
#[derive(Debug, Clone)]
pub struct Draft {
    pub id: String,
    pub user_id: i64,
    pub task_id: Option<String>,
    pub mode: String,
    pub topic: String,
    pub platforms: Vec<Platform>,
    pub original_content: Option<String>,
    pub adapted_contents: Vec<(Platform, String)>,
    pub generated_images: Vec<String>,
    pub status: DraftStatus,
    pub publish_results: Vec<PublishResult>,
    pub created_at: String,
    pub updated_at: String,
}

/// Publication state of a draft.
#[derive(Debug, Clone, Copy, PartialEq, Eq, Structural)]
pub enum DraftStatus {
    Draft,
    Published,
    PartiallyPublished,
}

impl DraftStatus {
    /// The stored and displayed text of the status.
    pub open spec fn text(self) -> Seq<char> {
        match self {
            DraftStatus::Draft => "draft"@,
            DraftStatus::Published => "published"@,
            DraftStatus::PartiallyPublished => "partially_published"@,
        }
    }

    /// The stored and displayed text of the status (what `Display` writes).
    pub fn as_str(&self) -> (r: &'static str)
        ensures
            r@ == self.text(),
    {
        match self {
            DraftStatus::Draft => "draft",
            DraftStatus::Published => "published",
            DraftStatus::PartiallyPublished => "partially_published",
        }
    }

    /// The status a stored text stands for; unknown texts are drafts.
    pub open spec fn of_text(s: Seq<char>) -> DraftStatus {
        if s == "published"@ {
            DraftStatus::Published
        } else if s == "partially_published"@ {
            DraftStatus::PartiallyPublished
        } else {
            DraftStatus::Draft
        }
    }

    /// The status a stored text stands for (the `From<String>` conversion).
    pub fn from_text(s: &str) -> (r: DraftStatus)
        ensures
            r == DraftStatus::of_text(s@),
    {
        if str_eq(s, "published") {
            DraftStatus::Published
        } else if str_eq(s, "partially_published") {
            DraftStatus::PartiallyPublished
        } else {
            DraftStatus::Draft
        }
    }
}

/// Reading back the text of a status gives the status.
pub proof fn lemma_status_text_round_trip(s: DraftStatus)
    ensures
        DraftStatus::of_text(s.text()) == s,
{
    reveal_strlit("draft");
    reveal_strlit("published");
    reveal_strlit("partially_published");
    assert("draft"@.len() == 5);
    assert("published"@.len() == 9);
    assert("partially_published"@.len() == 19);
}

/// The status of a draft after publishing it: still a draft if nothing was
/// published, published if every adapted content was, and partially
/// published otherwise.
pub open spec fn status_after_publish(published: nat, contents: nat) -> DraftStatus {
    if published == 0 {
        DraftStatus::Draft
    } else if published == contents {
        DraftStatus::Published
    } else {
        DraftStatus::PartiallyPublished
    }
}

/// Publishing moves a draft on: with nothing published it stays a draft
/// (and, if it had contents, a warning says why); with something
/// published it is a draft no more, published when every content was.
pub proof fn lemma_status_follows_what_was_published(published: nat, contents: nat)
    requires
        published <= contents,
    ensures
        published == 0 ==> status_after_publish(published, contents) == DraftStatus::Draft,
        published > 0 ==> status_after_publish(published, contents) != DraftStatus::Draft,
        0 < published && published == contents ==> status_after_publish(published, contents)
            == DraftStatus::Published,
        0 < published && published < contents ==> status_after_publish(published, contents)
            == DraftStatus::PartiallyPublished,
        publish_warning(published, contents) is Some <==> (published == 0 && contents > 0),
{
}

/// The status of a draft after publishing `published` of its `contents`
/// adapted contents.
pub fn publish_status(published: usize, contents: usize) -> (r: DraftStatus)
    ensures
        r == status_after_publish(published as nat, contents as nat),
{
    if published == 0 {
        DraftStatus::Draft
    } else if published == contents {
        DraftStatus::Published
    } else {
        DraftStatus::PartiallyPublished
    }
}

/// The warning when nothing of a non-empty draft could be published.
pub open spec fn publish_warning(published: nat, contents: nat) -> Option<Seq<char>> {
    if published == 0 && contents > 0 {
        Some("所选平台均未连接登录，请先在平台管理中连接平台"@)
    } else {
        None
    }
}

/// The warning when nothing of a non-empty draft could be published.
pub fn draft_publish_warning(published: usize, contents: usize) -> (r: Option<String>)
    ensures
        match publish_warning(published as nat, contents as nat) {
            Some(w) => r matches Some(x) && x@ == w,
            None => r is None,
        },
{
    if published == 0 && contents > 0 {
        Some("所选平台均未连接登录，请先在平台管理中连接平台".to_owned())
    } else {
        None
    }
}

/// The lower-case name of a platform, by which a client selects it.
pub open spec fn lowercase_name(p: Platform) -> Seq<char> {
    match p {
        Platform::Xiaohongshu => "xiaohongshu"@,
        Platform::Douyin => "douyin"@,
        Platform::WeChatOfficial => "wechatofficial"@,
        Platform::Bilibili => "bilibili"@,
        Platform::Weibo => "weibo"@,
        Platform::Toutiao => "toutiao"@,
    }
}

/// Whether a content for platform `p` is published when the client asked
/// for `requested` (all platforms when it named none).
pub fn platform_selected(requested: Option<&str>, p: Platform) -> (r: bool)
    ensures
        r == match requested {
            None => true,
            Some(name) => name@ == lowercase_name(p),
        },
{
    match requested {
        None => true,
        Some(name) => {
            let lower: &str = match p {
                Platform::Xiaohongshu => "xiaohongshu",
                Platform::Douyin => "douyin",
                Platform::WeChatOfficial => "wechatofficial",
                Platform::Bilibili => "bilibili",
                Platform::Weibo => "weibo",
                Platform::Toutiao => "toutiao",
            };
            str_eq(name, lower)
        },
    }
}

/// A platform is selected by exactly the lower-case form of its variant
/// name (as `format!("{:?}", p).to_lowercase()` writes it): a requested
/// name selects `p` if and only if it is that text.
pub proof fn lemma_selected_by_lowercase_variant_name(p: Platform, name: Seq<char>)
    ensures
        lowercase_name(p) == ascii_lowercase(p.debug_text()),
        (name == lowercase_name(p)) <==> (name == ascii_lowercase(p.debug_text())),
{
    reveal_strlit("Xiaohongshu");
    reveal_strlit("Douyin");
    reveal_strlit("WeChatOfficial");
    reveal_strlit("Bilibili");
    reveal_strlit("Weibo");
    reveal_strlit("Toutiao");
    reveal_strlit("xiaohongshu");
    reveal_strlit("douyin");
    reveal_strlit("wechatofficial");
    reveal_strlit("bilibili");
    reveal_strlit("weibo");
    reveal_strlit("toutiao");
    assert(lowercase_name(p) =~= ascii_lowercase(p.debug_text()));
}

/// The record of a failed publication to `platform` with the error text.
pub fn failed_publish_result(platform: Platform, message: String) -> (r: PublishResult)
    ensures
        r.platform == platform,
        !r.success,
        r.post_id is None,
        r.post_url is None,
        r.error_code matches Some(c) && c@ == "PUBLISH_ERROR"@,
        r.error_message matches Some(m) && m@ == message@,
{
    PublishResult {
        platform,
        success: false,
        post_id: None,
        post_url: None,
        error_code: Some("PUBLISH_ERROR".to_owned()),
        error_message: Some(message),
    }
}

} // verus!
