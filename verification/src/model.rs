//! The model identifiers of the chat variant.

use vstd::prelude::*;

verus! {

/// A chat model, named by its versioned endpoint identifier.
#[derive(Clone, Copy, Debug, PartialEq, Eq, Structural)]
pub enum GeminiModel {
    Gemini15Flash001,
    Gemini15Pro001,
    Gemini15Pro002,
    Gemini10Pro001,
    Gemini10ProVision001,
    Gemini10Pro,
    Gemini10Pro002,
}

/// The endpoint identifier of a chat model.
pub open spec fn gemini_model_name(m: GeminiModel) -> Seq<char> {
    match m {
        GeminiModel::Gemini15Flash001 => "gemini-1.5-flash-001"@,
        GeminiModel::Gemini15Pro001 => "gemini-1.5-pro-001"@,
        GeminiModel::Gemini15Pro002 => "gemini-1.5-pro-002"@,
        GeminiModel::Gemini10Pro001 => "gemini-1.0-pro-001"@,
        GeminiModel::Gemini10ProVision001 => "gemini-1.0-pro-vision-001"@,
        GeminiModel::Gemini10Pro => "gemini-1.0-pro"@,
        GeminiModel::Gemini10Pro002 => "gemini-1.0-pro-002"@,
    }
}

impl GeminiModel {
    /// The endpoint identifier.
    pub fn name(&self) -> (r: &'static str)
        ensures
            r@ == gemini_model_name(*self),
    {
        match self {
            GeminiModel::Gemini15Flash001 => "gemini-1.5-flash-001",
            GeminiModel::Gemini15Pro001 => "gemini-1.5-pro-001",
            GeminiModel::Gemini15Pro002 => "gemini-1.5-pro-002",
            GeminiModel::Gemini10Pro001 => "gemini-1.0-pro-001",
            GeminiModel::Gemini10ProVision001 => "gemini-1.0-pro-vision-001",
            GeminiModel::Gemini10Pro => "gemini-1.0-pro",
            GeminiModel::Gemini10Pro002 => "gemini-1.0-pro-002",
        }
    }
}

} // verus!
