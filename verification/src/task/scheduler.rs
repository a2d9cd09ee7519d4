//! Admission and cancellation rules of the task scheduler, the steps of
//! each mode and the progress figure of a step.
use crate::error::{AppError, INPUT_001, TASK_002, TASK_003};
use crate::text::{chars_of, decimal, push_decimal, push_str, string_of, trim, trim_exec};
use crate::types::{TaskMode, TaskStatus};
use vstd::prelude::*;

verus! {

broadcast use vstd::string::group_string_axioms;

/// Longest topic accepted, in bytes.
pub const MAX_TOPIC_BYTES: usize = 500;

/// The refusal when the concurrency limit is reached.
pub open spec fn saturated_message(active: nat, limit: nat) -> Seq<char> {
    "并发任务数已达上限 ("@ + decimal(active) + "/"@ + decimal(limit) + "), 请等待"@
}

/// Why a new task is refused, if it is: the limit of concurrent tasks is
/// reached, the topic is blank, or the topic is longer than 500 bytes, in
/// that order of precedence.
pub open spec fn admission(active: nat, limit: nat, topic: Seq<char>) -> Option<(Seq<char>, Seq<char>)> {
    if active >= limit {
        Some((TASK_003@, saturated_message(active, limit)))
    } else if trim(topic).len() == 0 {
        Some((INPUT_001@, "主题不能为空"@))
    } else if vstd::utf8::encode_utf8(topic).len() > MAX_TOPIC_BYTES {
        Some((INPUT_001@, "主题长度不能超过 500 字"@))
    } else {
        None
    }
}

/// Checks a new task against the scheduler's rules; on refusal, the error
/// is a task error (limit reached) or a validation error (topic).
pub fn admit_task(active: usize, limit: usize, topic: &str) -> (r: Result<(), AppError>)
    ensures
        r is Ok <==> admission(active as nat, limit as nat, topic@) is None,
        r matches Err(e) ==> admission(active as nat, limit as nat, topic@) == Some(
            (e.code_text(), match e {
                AppError::Task { message, .. } => message@,
                AppError::Validation { message, .. } => message@,
                _ => Seq::<char>::empty(),
            }),
        ),
        r matches Err(e) ==> (active >= limit <==> e is Task) && (active < limit <==> e is Validation),
{
    if active >= limit {
        let mut out: Vec<char> = Vec::new();
        push_str(&mut out, "并发任务数已达上限 (");
        push_decimal(&mut out, active as u64);
        push_str(&mut out, "/");
        push_decimal(&mut out, limit as u64);
        push_str(&mut out, "), 请等待");
        let msg = string_of(&out);
        return Err(AppError::task(TASK_003, msg.as_str()));
    }
    let chars = chars_of(topic);
    let trimmed = trim_exec(&chars);
    if trimmed.len() == 0 {
        return Err(AppError::validation(INPUT_001, "主题不能为空"));
    }
    if topic.as_bytes().len() > MAX_TOPIC_BYTES {
        return Err(AppError::validation(INPUT_001, "主题长度不能超过 500 字"));
    }
    Ok(())
}

/// The steps of a task of the given mode, in order.
pub open spec fn steps_of(mode: TaskMode) -> Seq<Seq<char>> {
    match mode {
        TaskMode::Text => seq!["generate_text"@, "generate_images"@, "adapt_content"@, "publish"@],
        TaskMode::Video => seq!["generate_script"@, "generate_video"@, "generate_tts"@, "publish"@],
    }
}

/// The steps of a task of the given mode, in order.
pub fn task_steps(mode: TaskMode) -> (r: Vec<&'static str>)
    ensures
        r@.map_values(|s: &'static str| s@) == steps_of(mode),
{
    let r = match mode {
        TaskMode::Text => vec!["generate_text", "generate_images", "adapt_content", "publish"],
        TaskMode::Video => vec!["generate_script", "generate_video", "generate_tts", "publish"],
    };
    assert(r@.map_values(|s: &'static str| s@) =~= steps_of(mode));
    r
}

/// Only pending or running tasks can be cancelled.
pub open spec fn cancellable(status: TaskStatus) -> bool {
    status == TaskStatus::Pending || status == TaskStatus::Running
}

/// Checks that a task in the given state may be cancelled.
pub fn check_cancellable(status: TaskStatus) -> (r: Result<(), AppError>)
    ensures
        r is Ok <==> cancellable(status),
        r matches Err(e) ==> (e matches AppError::Task { code, message } && code@ == TASK_002@
            && message@ == "只能取消待执行或执行中的任务"@),
{
    if status == TaskStatus::Pending || status == TaskStatus::Running {
        Ok(())
    } else {
        Err(AppError::task(TASK_002, "只能取消待执行或执行中的任务"))
    }
}

/// Progress in percent after step `current` of `total`, rounded down.
pub fn step_progress(current: u32, total: u32) -> (r: u32)
    requires
        total > 0,
        current * 100 <= u32::MAX,
    ensures
        r == (current * 100) / (total as int),
{
    (current * 100) / total
}

/// The progress after the last step is 100 percent, and progress never
/// falls as the steps advance.
pub proof fn lemma_progress_monotone(a: int, b: int, total: int)
    requires
        total > 0,
        0 <= a <= b,
    ensures
        (a * 100) / total <= (b * 100) / total,
        (total * 100) / total == 100,
{
    assert((a * 100) / total <= (b * 100) / total) by (nonlinear_arith)
        requires
            0 <= a <= b,
            total > 0,
    ;
    assert((total * 100) / total == 100) by (nonlinear_arith)
        requires
            total > 0,
    ;
}

} // verus!
