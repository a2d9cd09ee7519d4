//! The stored task record.
use crate::text::str_eq;
use crate::types::{TaskMode, TaskStatus};
use vstd::prelude::*;

verus! {

/// A content task as stored.
#[derive(Debug, Clone)]
pub struct Task {
    pub id: String,
    pub user_id: i64,
    pub task_type: String,
    pub status: TaskStatus,
    pub mode: String,
    pub topic: String,
    pub platforms: String,
    pub progress: u32,
    pub total_steps: u32,
    pub current_step: Option<String>,
    pub result: Option<String>,
    pub error: Option<String>,
    pub retry_count: u32,
    pub max_retries: u32,
    pub created_at: String,
    pub updated_at: String,
    pub event_date: Option<String>,
}

/// The mode a stored mode text stands for: `"video"` is the video mode,
/// anything else the text mode.
pub open spec fn mode_of_text(s: Seq<char>) -> TaskMode {
    if s == "video"@ {
        TaskMode::Video
    } else {
        TaskMode::Text
    }
}

/// The mode a stored mode text stands for.
pub fn parse_mode(s: &str) -> (r: TaskMode)
    ensures
        r == mode_of_text(s@),
{
    if str_eq(s, "video") {
        TaskMode::Video
    } else {
        TaskMode::Text
    }
}

impl Task {
    /// The task's mode.
    pub fn get_mode(&self) -> (r: TaskMode)
        ensures
            r == mode_of_text(self.mode@),
    {
        parse_mode(self.mode.as_str())
    }
}

/// Reading back the stored text of a mode gives the mode.
pub proof fn lemma_mode_text_round_trip(m: TaskMode)
    ensures
        mode_of_text(m.text()) == m,
{
    reveal_strlit("video");
    reveal_strlit("text");
    if m == TaskMode::Text {
        assert("text"@ != "video"@) by {
            assert("text"@.len() != "video"@.len());
        }
    }
}

} // verus!
