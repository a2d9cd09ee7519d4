//! Progress events pushed to clients, and who receives each.
use vstd::prelude::*;

verus! {

/// An event of the progress stream. All but the heartbeat belong to one
/// user.
#[derive(Debug, Clone)]
pub enum SseEvent {
    /// A task made progress.
    TaskProgress { user_id: i64, task_id: String, step: String, progress: u32, message: String },
    /// A task completed.
    TaskCompleted { user_id: i64, task_id: String, result: String },
    /// A task failed.
    TaskFailed { user_id: i64, task_id: String, error: String },
    /// Progress of AI generation.
    AiGeneration { user_id: i64, task_id: String, stage: String, content_type: String },
    /// Progress of publishing to a platform.
    PlatformPublish { user_id: i64, task_id: String, platform: String, status: String },
    /// A heartbeat, for everyone.
    Heartbeat,
}

/// The user an event belongs to; none for the heartbeat.
pub open spec fn owner(e: SseEvent) -> Option<i64> {
    match e {
        SseEvent::TaskProgress { user_id, .. } => Some(user_id),
        SseEvent::TaskCompleted { user_id, .. } => Some(user_id),
        SseEvent::TaskFailed { user_id, .. } => Some(user_id),
        SseEvent::AiGeneration { user_id, .. } => Some(user_id),
        SseEvent::PlatformPublish { user_id, .. } => Some(user_id),
        SseEvent::Heartbeat => None,
    }
}

/// The stream of `user_id` receives `e`: events without an owner reach
/// everyone, the others only their owner.
pub open spec fn delivered(e: SseEvent, user_id: i64) -> bool {
    owner(e).is_none() || owner(e) == Some(user_id)
}

/// Streams are kept apart: an event that belongs to one user never reaches
/// another user's stream, an event reaches its owner's stream, and one
/// without an owner reaches every stream.
pub proof fn lemma_streams_kept_apart(e: SseEvent, u: i64, v: i64)
    ensures
        owner(e) == Some(v) && v != u ==> !delivered(e, u),
        owner(e) == Some(u) ==> delivered(e, u),
        owner(e).is_none() ==> delivered(e, u),
        delivered(e, u) ==> owner(e).is_none() || owner(e) == Some(u),
{
}

impl SseEvent {
    /// The user the event belongs to.
    pub fn user_id(&self) -> (r: Option<i64>)
        ensures
            r == owner(*self),
    {
        match self {
            SseEvent::TaskProgress { user_id, .. } => Some(*user_id),
            SseEvent::TaskCompleted { user_id, .. } => Some(*user_id),
            SseEvent::TaskFailed { user_id, .. } => Some(*user_id),
            SseEvent::AiGeneration { user_id, .. } => Some(*user_id),
            SseEvent::PlatformPublish { user_id, .. } => Some(*user_id),
            SseEvent::Heartbeat => None,
        }
    }

    /// Whether the stream of `user_id` receives the event: events without
    /// an owner reach everyone, the others only their owner.
    pub fn delivered_to(&self, user_id: i64) -> (r: bool)
        ensures
            r == delivered(*self, user_id),
    {
        match self.user_id() {
            None => true,
            Some(u) => u == user_id,
        }
    }
}

} // verus!
