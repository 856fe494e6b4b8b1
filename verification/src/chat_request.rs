//! The request shapes of the chat variant. Building requests is plain
//! data assembly; sampling knobs keep their exact number lexemes as
//! text. The defaults mirror the backend's documented defaults.

use vstd::prelude::*;

use crate::json::Json;
use crate::model::GeminiModel;

verus! {

/// The payload of one part: text, inline data, or a file reference.
#[derive(Clone, Debug, PartialEq)]
pub enum PartData {
    Text(String),
    InlineData { mime_type: String, data: String },
    FileData { mime_type: String, file_uri: String },
}

/// An offset into a video, in seconds and nanoseconds.
#[derive(Clone, Copy, Debug, PartialEq, Eq, Structural)]
pub struct TimeOffset {
    pub seconds: i64,
    pub nanos: i32,
}

/// The time range of a video part.
#[derive(Clone, Copy, Debug, PartialEq, Eq, Structural)]
pub struct VideoMetadata {
    pub start_offset: TimeOffset,
    pub end_offset: TimeOffset,
}

/// One request part with optional video metadata.
#[derive(Clone, Debug, PartialEq)]
pub struct Part {
    pub data: PartData,
    pub video_metadata: Option<VideoMetadata>,
}

/// One turn of the conversation.
#[derive(Clone, Debug, PartialEq)]
pub struct Content {
    pub role: String,
    pub parts: Vec<Part>,
}

/// The system instruction of a request.
#[derive(Clone, Debug, PartialEq)]
pub struct SystemInstruction {
    pub role: String,
    pub parts: Vec<Part>,
}

/// One declared function a model may call.
#[derive(Debug, PartialEq)]
pub struct FunctionDeclaration {
    pub name: String,
    pub description: String,
    pub parameters: Json,
}

/// The declared functions of a request.
#[derive(Debug, PartialEq)]
pub struct Tool {
    pub function_declarations: Vec<FunctionDeclaration>,
}

/// One safety setting: a category and its block threshold.
#[derive(Clone, Debug, PartialEq)]
pub struct Setting {
    pub category: String,
    pub threshold: String,
}

/// The safety settings of a request.
#[derive(Clone, Debug, PartialEq)]
pub struct SafetySetting(pub Vec<Setting>);

impl Default for SafetySetting {
    /// The default safety settings: the four harm categories, each
    /// with blocking switched off.
    fn default() -> (r: SafetySetting)
        ensures
            r.0@.len() == 4,
            r.0@[0].category@ == "HARM_CATEGORY_HATE_SPEECH"@,
            r.0@[1].category@ == "HARM_CATEGORY_DANGEROUS_CONTENT"@,
            r.0@[2].category@ == "HARM_CATEGORY_SEXUALLY_EXPLICIT"@,
            r.0@[3].category@ == "HARM_CATEGORY_HARASSMENT"@,
            forall|i: int| 0 <= i < 4 ==> (#[trigger] r.0@[i].threshold)@ == "OFF"@,
    {
        let mut v: Vec<Setting> = Vec::new();
        v.push(Setting { category: owned("HARM_CATEGORY_HATE_SPEECH"), threshold: owned("OFF") });
        v.push(
            Setting { category: owned("HARM_CATEGORY_DANGEROUS_CONTENT"), threshold: owned("OFF") },
        );
        v.push(
            Setting { category: owned("HARM_CATEGORY_SEXUALLY_EXPLICIT"), threshold: owned("OFF") },
        );
        v.push(Setting { category: owned("HARM_CATEGORY_HARASSMENT"), threshold: owned("OFF") });
        SafetySetting(v)
    }
}

/// Sampling and output knobs; number-valued knobs keep their exact
/// lexemes as text.
#[derive(Debug, PartialEq)]
pub struct GenerationConfig {
    pub temperature: Option<String>,
    pub top_p: Option<String>,
    pub top_k: Option<i32>,
    pub candidate_count: Option<i32>,
    pub max_output_tokens: Option<i32>,
    pub presence_penalty: Option<String>,
    pub frequency_penalty: Option<String>,
    pub stop_sequences: Option<Vec<String>>,
    pub response_mime_type: Option<String>,
    pub response_schema: Option<Json>,
    pub seed: Option<i64>,
    pub response_logprobs: Option<bool>,
    pub logprobs: Option<i32>,
    pub audio_timestamp: Option<bool>,
}

impl Default for GenerationConfig {
    /// The default knobs: temperature 1.0, at most 1024 output tokens,
    /// nucleus sampling at 0.95, everything else unset.
    fn default() -> (r: GenerationConfig)
        ensures
            r.temperature matches Some(t) && t@ == "1.0"@,
            r.max_output_tokens == Some(1024i32),
            r.top_p matches Some(p) && p@ == "0.95"@,
            r.top_k is None,
            r.candidate_count is None,
            r.presence_penalty is None,
            r.frequency_penalty is None,
            r.stop_sequences is None,
            r.response_mime_type is None,
            r.response_schema is None,
            r.seed is None,
            r.response_logprobs is None,
            r.logprobs is None,
            r.audio_timestamp is None,
    {
        GenerationConfig {
            temperature: Some(owned("1.0")),
            top_p: Some(owned("0.95")),
            top_k: None,
            candidate_count: None,
            max_output_tokens: Some(1024),
            presence_penalty: None,
            frequency_penalty: None,
            stop_sequences: None,
            response_mime_type: None,
            response_schema: None,
            seed: None,
            response_logprobs: None,
            logprobs: None,
            audio_timestamp: None,
        }
    }
}

/// A chat request.
#[derive(Debug, PartialEq)]
pub struct GeminiChatRequest {
    pub cached_content: Option<String>,
    pub contents: Vec<Content>,
    pub system_instruction: Option<SystemInstruction>,
    pub tools: Option<Vec<Tool>>,
    pub safety_settings: Option<SafetySetting>,
    pub generation_config: Option<GenerationConfig>,
    pub labels: Option<Vec<(String, String)>>,
    pub model: Option<GeminiModel>,
}

/// An owned copy of a string slice.
fn owned(s: &str) -> (r: String)
    ensures
        r@ == s@,
{
    let cs = crate::text::str_to_chars(s);
    crate::text::chars_to_string(&cs)
}

} // verus!
