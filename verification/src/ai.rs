//! Records exchanged with the AI service, and the decisions taken on its
//! answers.
use crate::text::str_eq;
use vstd::prelude::*;

verus! {

/// A chat message.
#[derive(Debug, Clone)]
pub struct Message {
    pub role: String,
    pub content: String,
}

/// Answer of a text generation.
#[derive(Debug)]
pub struct TextResponse {
    pub choices: Vec<Choice>,
    pub usage: Usage,
}

/// One generated choice.
#[derive(Debug)]
pub struct Choice {
    pub message: Message,
    pub finish_reason: Option<String>,
}

/// Token usage of a generation.
#[derive(Debug)]
pub struct Usage {
    pub total_tokens: u64,
}

/// A chunk of a streamed generation.
#[derive(Debug)]
pub struct TextChunk {
    pub choices: Vec<ChunkChoice>,
}

/// One choice of a streamed chunk.
#[derive(Debug)]
pub struct ChunkChoice {
    pub delta: ChunkDelta,
    pub finish_reason: Option<String>,
}

/// The text a streamed chunk adds.
#[derive(Debug)]
pub struct ChunkDelta {
    pub content: String,
}

/// Request of an image generation.
#[derive(Debug)]
pub struct ImageRequest {
    pub model: String,
    pub prompt: String,
    pub n: Option<u32>,
    pub aspect_ratio: Option<String>,
}

/// Answer of an image generation.
#[derive(Debug)]
pub struct ImageResponse {
    pub data: Vec<ImageData>,
}

/// One generated image.
#[derive(Debug)]
pub struct ImageData {
    pub url: String,
}

/// Request of a video generation.
#[derive(Debug)]
pub struct VideoRequest {
    pub model: String,
    pub prompt: String,
    pub image: Option<String>,
}

/// Answer to a submitted video task.
#[derive(Debug)]
pub struct VideoTaskResponse {
    pub task_id: String,
}

/// State of a video task.
#[derive(Debug)]
pub struct VideoTaskStatus {
    pub status: String,
    pub file_id: Option<String>,
    pub error: Option<String>,
}

/// Audio settings of speech synthesis.
#[derive(Debug)]
pub struct AudioSetting {
    pub sample_rate: u32,
    pub format: String,
    pub channel: u32,
}

/// Answer of speech synthesis.
#[derive(Debug)]
pub struct SpeechResponse {
    pub data: SpeechData,
}

/// Synthesized audio, hex encoded.
#[derive(Debug)]
pub struct SpeechData {
    pub hex: String,
}

/// The content of the first choice of an answer, or the empty text if it
/// has none.
pub open spec fn first_content(choices: Seq<Choice>) -> Seq<char> {
    if choices.len() > 0 {
        choices[0].message.content@
    } else {
        Seq::empty()
    }
}

impl TextResponse {
    /// The content of the first choice, or the empty text.
    pub fn first_content(&self) -> (r: String)
        ensures
            r@ == first_content(self.choices@),
    {
        if self.choices.len() > 0 {
            self.choices[0].message.content.clone()
        } else {
            String::new()
        }
    }
}

/// What polling a video task decides next.
#[derive(Debug)]
pub enum VideoPoll {
    /// The time allowed is over.
    TimedOut,
    /// The video is ready: its file id.
    Ready(String),
    /// The task succeeded without naming a file.
    MissingFile,
    /// The task failed.
    Failed,
    /// Not done yet: wait and poll again.
    Wait,
}

/// The decision on a poll result, once the deadline check has passed:
/// `"success"` with a file id is ready, `"success"` without one is an error,
/// `"fail"` failed, anything else waits.
pub fn decide_video_poll(status: &VideoTaskStatus) -> (r: VideoPoll)
    ensures
        status.status@ == "success"@ ==> match status.file_id {
            Some(f) => r matches VideoPoll::Ready(x) && x@ == f@,
            None => r is MissingFile,
        },
        status.status@ != "success"@ && status.status@ == "fail"@ ==> r is Failed,
        status.status@ != "success"@ && status.status@ != "fail"@ ==> r is Wait,
{
    if str_eq(status.status.as_str(), "success") {
        match &status.file_id {
            Some(f) => VideoPoll::Ready(f.clone()),
            None => VideoPoll::MissingFile,
        }
    } else if str_eq(status.status.as_str(), "fail") {
        VideoPoll::Failed
    } else {
        VideoPoll::Wait
    }
}

} // verus!
