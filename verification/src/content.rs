//! The wire objects of the array-framed backend: the success response
//! tree, the error envelope, and their strict decoding from parsed
//! JSON. Unknown additional fields are ignored; a present field of the
//! wrong kind is a mismatch; number fields that carry measures keep
//! their exact lexeme as text, so nothing is rounded while decoding.

use vstd::prelude::*;

use crate::decode::{
    get_field, opt_num_field, opt_text_field, opt_u32_field, opt_num_field_x, opt_text_field_x,
    opt_u32_field_x, req_text_field, req_text_field_x, get_field_x, str_eq, view_opt_string,
    lemma_jview_seq_index,
};
use crate::json::{jview, jview_seq, Json, JsonView};

verus! {

// ---------------------------------------------------------------------
// Enumerations, with their wire tags
// ---------------------------------------------------------------------

/// Harm categories a safety rating may name.
#[derive(Clone, Copy, Debug, PartialEq, Eq, Structural)]
pub enum HarmCategory {
    HarmCategoryUnspecified,
    HarmCategoryHateSpeech,
    HarmCategoryDangerousContent,
    HarmCategoryHarassment,
    HarmCategorySexuallyExplicit,
}

/// The wire tag of a harm category.
pub open spec fn harm_category_tag(x: HarmCategory) -> Seq<char> {
    match x {
        HarmCategory::HarmCategoryUnspecified => "HARM_CATEGORY_UNSPECIFIED"@,
        HarmCategory::HarmCategoryHateSpeech => "HARM_CATEGORY_HATE_SPEECH"@,
        HarmCategory::HarmCategoryDangerousContent => "HARM_CATEGORY_DANGEROUS_CONTENT"@,
        HarmCategory::HarmCategoryHarassment => "HARM_CATEGORY_HARASSMENT"@,
        HarmCategory::HarmCategorySexuallyExplicit => "HARM_CATEGORY_SEXUALLY_EXPLICIT"@,
    }
}

/// The harm category a wire tag names.
pub open spec fn harm_category_of(t: Seq<char>) -> Option<HarmCategory> {
    if t == "HARM_CATEGORY_UNSPECIFIED"@ {
        Some(HarmCategory::HarmCategoryUnspecified)
    } else if t == "HARM_CATEGORY_HATE_SPEECH"@ {
        Some(HarmCategory::HarmCategoryHateSpeech)
    } else if t == "HARM_CATEGORY_DANGEROUS_CONTENT"@ {
        Some(HarmCategory::HarmCategoryDangerousContent)
    } else if t == "HARM_CATEGORY_HARASSMENT"@ {
        Some(HarmCategory::HarmCategoryHarassment)
    } else if t == "HARM_CATEGORY_SEXUALLY_EXPLICIT"@ {
        Some(HarmCategory::HarmCategorySexuallyExplicit)
    } else {
        None
    }
}

/// Reads a harm category tag.
pub fn harm_category_from(t: &str) -> (r: Option<HarmCategory>)
    ensures
        r == harm_category_of(t@),
{
    if str_eq(t, "HARM_CATEGORY_UNSPECIFIED") {
        Some(HarmCategory::HarmCategoryUnspecified)
    } else if str_eq(t, "HARM_CATEGORY_HATE_SPEECH") {
        Some(HarmCategory::HarmCategoryHateSpeech)
    } else if str_eq(t, "HARM_CATEGORY_DANGEROUS_CONTENT") {
        Some(HarmCategory::HarmCategoryDangerousContent)
    } else if str_eq(t, "HARM_CATEGORY_HARASSMENT") {
        Some(HarmCategory::HarmCategoryHarassment)
    } else if str_eq(t, "HARM_CATEGORY_SEXUALLY_EXPLICIT") {
        Some(HarmCategory::HarmCategorySexuallyExplicit)
    } else {
        None
    }
}

/// Harm probabilities a safety rating may carry.
#[derive(Clone, Copy, Debug, PartialEq, Eq, Structural)]
pub enum HarmProbability {
    HarmProbabilityUnspecified,
    Negligible,
    Low,
    Medium,
    High,
}

/// The wire tag of a harm probability.
pub open spec fn harm_probability_tag(x: HarmProbability) -> Seq<char> {
    match x {
        HarmProbability::HarmProbabilityUnspecified => "HARM_PROBABILITY_UNSPECIFIED"@,
        HarmProbability::Negligible => "NEGLIGIBLE"@,
        HarmProbability::Low => "LOW"@,
        HarmProbability::Medium => "MEDIUM"@,
        HarmProbability::High => "HIGH"@,
    }
}

/// The harm probability a wire tag names.
pub open spec fn harm_probability_of(t: Seq<char>) -> Option<HarmProbability> {
    if t == "HARM_PROBABILITY_UNSPECIFIED"@ {
        Some(HarmProbability::HarmProbabilityUnspecified)
    } else if t == "NEGLIGIBLE"@ {
        Some(HarmProbability::Negligible)
    } else if t == "LOW"@ {
        Some(HarmProbability::Low)
    } else if t == "MEDIUM"@ {
        Some(HarmProbability::Medium)
    } else if t == "HIGH"@ {
        Some(HarmProbability::High)
    } else {
        None
    }
}

/// Reads a harm probability tag.
pub fn harm_probability_from(t: &str) -> (r: Option<HarmProbability>)
    ensures
        r == harm_probability_of(t@),
{
    if str_eq(t, "HARM_PROBABILITY_UNSPECIFIED") {
        Some(HarmProbability::HarmProbabilityUnspecified)
    } else if str_eq(t, "NEGLIGIBLE") {
        Some(HarmProbability::Negligible)
    } else if str_eq(t, "LOW") {
        Some(HarmProbability::Low)
    } else if str_eq(t, "MEDIUM") {
        Some(HarmProbability::Medium)
    } else if str_eq(t, "HIGH") {
        Some(HarmProbability::High)
    } else {
        None
    }
}

/// Harm severities a safety rating may carry.
#[derive(Clone, Copy, Debug, PartialEq, Eq, Structural)]
pub enum HarmSeverity {
    HarmSeverityUnspecified,
    HarmSeverityNegligible,
    HarmSeverityLow,
    HarmSeverityMedium,
    HarmSeverityHigh,
}

/// The wire tag of a harm severity.
pub open spec fn harm_severity_tag(x: HarmSeverity) -> Seq<char> {
    match x {
        HarmSeverity::HarmSeverityUnspecified => "HARM_SEVERITY_UNSPECIFIED"@,
        HarmSeverity::HarmSeverityNegligible => "HARM_SEVERITY_NEGLIGIBLE"@,
        HarmSeverity::HarmSeverityLow => "HARM_SEVERITY_LOW"@,
        HarmSeverity::HarmSeverityMedium => "HARM_SEVERITY_MEDIUM"@,
        HarmSeverity::HarmSeverityHigh => "HARM_SEVERITY_HIGH"@,
    }
}

/// The harm severity a wire tag names.
pub open spec fn harm_severity_of(t: Seq<char>) -> Option<HarmSeverity> {
    if t == "HARM_SEVERITY_UNSPECIFIED"@ {
        Some(HarmSeverity::HarmSeverityUnspecified)
    } else if t == "HARM_SEVERITY_NEGLIGIBLE"@ {
        Some(HarmSeverity::HarmSeverityNegligible)
    } else if t == "HARM_SEVERITY_LOW"@ {
        Some(HarmSeverity::HarmSeverityLow)
    } else if t == "HARM_SEVERITY_MEDIUM"@ {
        Some(HarmSeverity::HarmSeverityMedium)
    } else if t == "HARM_SEVERITY_HIGH"@ {
        Some(HarmSeverity::HarmSeverityHigh)
    } else {
        None
    }
}

/// Reads a harm severity tag.
pub fn harm_severity_from(t: &str) -> (r: Option<HarmSeverity>)
    ensures
        r == harm_severity_of(t@),
{
    if str_eq(t, "HARM_SEVERITY_UNSPECIFIED") {
        Some(HarmSeverity::HarmSeverityUnspecified)
    } else if str_eq(t, "HARM_SEVERITY_NEGLIGIBLE") {
        Some(HarmSeverity::HarmSeverityNegligible)
    } else if str_eq(t, "HARM_SEVERITY_LOW") {
        Some(HarmSeverity::HarmSeverityLow)
    } else if str_eq(t, "HARM_SEVERITY_MEDIUM") {
        Some(HarmSeverity::HarmSeverityMedium)
    } else if str_eq(t, "HARM_SEVERITY_HIGH") {
        Some(HarmSeverity::HarmSeverityHigh)
    } else {
        None
    }
}

/// Why a prompt was blocked.
#[derive(Clone, Copy, Debug, PartialEq, Eq, Structural)]
pub enum BlockedReason {
    BlockedReasonUnspecified,
    Safety,
    Other,
    Blocklist,
    ProhibitedContent,
}

/// The wire tag of a blocked reason.
pub open spec fn blocked_reason_tag(x: BlockedReason) -> Seq<char> {
    match x {
        BlockedReason::BlockedReasonUnspecified => "BLOCKED_REASON_UNSPECIFIED"@,
        BlockedReason::Safety => "SAFETY"@,
        BlockedReason::Other => "OTHER"@,
        BlockedReason::Blocklist => "BLOCKLIST"@,
        BlockedReason::ProhibitedContent => "PROHIBITED_CONTENT"@,
    }
}

/// The blocked reason a wire tag names.
pub open spec fn blocked_reason_of(t: Seq<char>) -> Option<BlockedReason> {
    if t == "BLOCKED_REASON_UNSPECIFIED"@ {
        Some(BlockedReason::BlockedReasonUnspecified)
    } else if t == "SAFETY"@ {
        Some(BlockedReason::Safety)
    } else if t == "OTHER"@ {
        Some(BlockedReason::Other)
    } else if t == "BLOCKLIST"@ {
        Some(BlockedReason::Blocklist)
    } else if t == "PROHIBITED_CONTENT"@ {
        Some(BlockedReason::ProhibitedContent)
    } else {
        None
    }
}

/// Reads a blocked reason tag.
pub fn blocked_reason_from(t: &str) -> (r: Option<BlockedReason>)
    ensures
        r == blocked_reason_of(t@),
{
    if str_eq(t, "BLOCKED_REASON_UNSPECIFIED") {
        Some(BlockedReason::BlockedReasonUnspecified)
    } else if str_eq(t, "SAFETY") {
        Some(BlockedReason::Safety)
    } else if str_eq(t, "OTHER") {
        Some(BlockedReason::Other)
    } else if str_eq(t, "BLOCKLIST") {
        Some(BlockedReason::Blocklist)
    } else if str_eq(t, "PROHIBITED_CONTENT") {
        Some(BlockedReason::ProhibitedContent)
    } else {
        None
    }
}

/// Why a candidate stopped.
#[derive(Clone, Copy, Debug, PartialEq, Eq, Structural)]
pub enum FinishReason {
    FinishReasonUnspecified,
    Stop,
    MaxTokens,
    Safety,
    Recitation,
    Other,
    Blocklist,
    ProhibitedContent,
    Spii,
}

/// The wire tag of a finish reason.
pub open spec fn finish_reason_tag(x: FinishReason) -> Seq<char> {
    match x {
        FinishReason::FinishReasonUnspecified => "FINISH_REASON_UNSPECIFIED"@,
        FinishReason::Stop => "STOP"@,
        FinishReason::MaxTokens => "MAX_TOKENS"@,
        FinishReason::Safety => "SAFETY"@,
        FinishReason::Recitation => "RECITATION"@,
        FinishReason::Other => "OTHER"@,
        FinishReason::Blocklist => "BLOCKLIST"@,
        FinishReason::ProhibitedContent => "PROHIBITED_CONTENT"@,
        FinishReason::Spii => "SPII"@,
    }
}

/// The finish reason a wire tag names.
pub open spec fn finish_reason_of(t: Seq<char>) -> Option<FinishReason> {
    if t == "FINISH_REASON_UNSPECIFIED"@ {
        Some(FinishReason::FinishReasonUnspecified)
    } else if t == "STOP"@ {
        Some(FinishReason::Stop)
    } else if t == "MAX_TOKENS"@ {
        Some(FinishReason::MaxTokens)
    } else if t == "SAFETY"@ {
        Some(FinishReason::Safety)
    } else if t == "RECITATION"@ {
        Some(FinishReason::Recitation)
    } else if t == "OTHER"@ {
        Some(FinishReason::Other)
    } else if t == "BLOCKLIST"@ {
        Some(FinishReason::Blocklist)
    } else if t == "PROHIBITED_CONTENT"@ {
        Some(FinishReason::ProhibitedContent)
    } else if t == "SPII"@ {
        Some(FinishReason::Spii)
    } else {
        None
    }
}

/// Reads a finish reason tag.
pub fn finish_reason_from(t: &str) -> (r: Option<FinishReason>)
    ensures
        r == finish_reason_of(t@),
{
    if str_eq(t, "FINISH_REASON_UNSPECIFIED") {
        Some(FinishReason::FinishReasonUnspecified)
    } else if str_eq(t, "STOP") {
        Some(FinishReason::Stop)
    } else if str_eq(t, "MAX_TOKENS") {
        Some(FinishReason::MaxTokens)
    } else if str_eq(t, "SAFETY") {
        Some(FinishReason::Safety)
    } else if str_eq(t, "RECITATION") {
        Some(FinishReason::Recitation)
    } else if str_eq(t, "OTHER") {
        Some(FinishReason::Other)
    } else if str_eq(t, "BLOCKLIST") {
        Some(FinishReason::Blocklist)
    } else if str_eq(t, "PROHIBITED_CONTENT") {
        Some(FinishReason::ProhibitedContent)
    } else if str_eq(t, "SPII") {
        Some(FinishReason::Spii)
    } else {
        None
    }
}

// ---------------------------------------------------------------------
// The success response tree
// ---------------------------------------------------------------------

/// Inline binary content, base64 text with its media type.
#[derive(Clone, Debug, PartialEq)]
pub struct GenerativeContentBlob {
    pub mime_type: String,
    pub data: String,
}

/// A file referenced by URI with its media type.
#[derive(Clone, Debug, PartialEq)]
pub struct FileData {
    pub mime_type: String,
    pub file_uri: String,
}

/// A named function response payload.
#[derive(Debug, PartialEq)]
pub struct FunctionResponse {
    pub name: String,
    pub response: Json,
}

/// A named function call with its arguments.
#[derive(Debug, PartialEq)]
pub struct FunctionCall {
    pub name: String,
    pub args: Json,
}

/// A text part.
#[derive(Clone, Debug, PartialEq)]
pub struct TextPart {
    pub text: String,
}

/// An inline-data part.
#[derive(Clone, Debug, PartialEq)]
pub struct InlineDataPart {
    pub inline_data: GenerativeContentBlob,
}

/// A file-data part.
#[derive(Clone, Debug, PartialEq)]
pub struct FileDataPart {
    pub file_data: FileData,
}

/// A function-response part.
#[derive(Debug, PartialEq)]
pub struct FunctionResponsePart {
    pub function_response: FunctionResponse,
}

/// A function-call part.
#[derive(Debug, PartialEq)]
pub struct FunctionCallPart {
    pub function_call: FunctionCall,
}

/// One part of a content turn; the variant is told by which single
/// field the wire object carries, tried in this order.
#[derive(Debug, PartialEq)]
pub enum Part {
    TextPart(TextPart),
    InlineDataPart(InlineDataPart),
    FileDataPart(FileDataPart),
    FunctionResponsePart(FunctionResponsePart),
    FunctionCallPart(FunctionCallPart),
}

/// A content turn: its parts and the role that produced them.
#[derive(Debug, PartialEq)]
pub struct Content {
    pub parts: Vec<Part>,
    pub role: String,
}

/// One safety rating; scores keep their exact number lexeme.
#[derive(Clone, Debug, PartialEq)]
pub struct SafetyRating {
    pub category: Option<HarmCategory>,
    pub probability: Option<HarmProbability>,
    pub probability_score: Option<String>,
    pub severity: Option<HarmSeverity>,
    pub severity_score: Option<String>,
}

/// A calendar date as the backend sends it.
#[derive(Clone, Copy, Debug, PartialEq, Eq, Structural)]
pub struct GoogleDate {
    pub year: Option<u32>,
    pub month: Option<u32>,
    pub day: Option<u32>,
}

/// One citation.
#[derive(Clone, Debug, PartialEq)]
pub struct Citation {
    pub start_index: Option<u32>,
    pub end_index: Option<u32>,
    pub uri: Option<String>,
    pub title: Option<String>,
    pub license: Option<String>,
    pub publication_date: Option<GoogleDate>,
}

/// The citations of a candidate.
#[derive(Clone, Debug, PartialEq)]
pub struct CitationMetadata {
    pub citations: Vec<Citation>,
}

/// Token counts for one exchange.
#[derive(Clone, Copy, Debug, PartialEq, Eq, Structural)]
pub struct UsageMetadata {
    pub prompt_token_count: Option<u32>,
    pub candidates_token_count: Option<u32>,
    pub total_token_count: Option<u32>,
    pub cached_content_token_count: Option<u32>,
}

/// Why and how a prompt was blocked.
#[derive(Clone, Debug, PartialEq)]
pub struct PromptFeedback {
    pub block_reason: Option<BlockedReason>,
    pub safety_ratings: Vec<SafetyRating>,
    pub block_reason_message: Option<String>,
}

/// One response candidate.
#[derive(Debug, PartialEq)]
pub struct GenerateContentCandidate {
    pub content: Content,
    pub index: Option<u32>,
    pub finish_reason: Option<FinishReason>,
    pub finish_message: Option<String>,
    pub safety_ratings: Option<Vec<SafetyRating>>,
    pub citation_metadata: Option<CitationMetadata>,
}

/// The success object of the array-framed backend.
#[derive(Debug, PartialEq)]
pub struct GenerateContentResponse {
    pub candidates: Option<Vec<GenerateContentCandidate>>,
    pub prompt_feedback: Option<PromptFeedback>,
    pub usage_metadata: Option<UsageMetadata>,
}

/// The machine-readable part of an error envelope.
#[derive(Clone, Debug, PartialEq)]
pub struct GenerateContentError {
    pub code: u32,
    pub message: String,
    pub status: Option<String>,
}

/// The error envelope of the array-framed backend.
#[derive(Clone, Debug, PartialEq)]
pub struct GenerateContentErrorResponse {
    pub error: GenerateContentError,
}

// ---------------------------------------------------------------------
// Shapes
// ---------------------------------------------------------------------

/// The shape of a part.
pub enum PartView {
    TextPart(Seq<char>),
    InlineDataPart(Seq<char>, Seq<char>),
    FileDataPart(Seq<char>, Seq<char>),
    FunctionResponsePart(Seq<char>, JsonView),
    FunctionCallPart(Seq<char>, JsonView),
}

/// The shape of a content turn.
pub struct ContentView {
    pub parts: Seq<PartView>,
    pub role: Seq<char>,
}

/// The shape of a safety rating.
pub struct SafetyRatingView {
    pub category: Option<HarmCategory>,
    pub probability: Option<HarmProbability>,
    pub probability_score: Option<Seq<char>>,
    pub severity: Option<HarmSeverity>,
    pub severity_score: Option<Seq<char>>,
}

/// The shape of a citation.
pub struct CitationView {
    pub start_index: Option<u32>,
    pub end_index: Option<u32>,
    pub uri: Option<Seq<char>>,
    pub title: Option<Seq<char>>,
    pub license: Option<Seq<char>>,
    pub publication_date: Option<GoogleDate>,
}

/// The shape of prompt feedback.
pub struct PromptFeedbackView {
    pub block_reason: Option<BlockedReason>,
    pub safety_ratings: Seq<SafetyRatingView>,
    pub block_reason_message: Option<Seq<char>>,
}

/// The shape of a candidate.
pub struct CandidateView {
    pub content: ContentView,
    pub index: Option<u32>,
    pub finish_reason: Option<FinishReason>,
    pub finish_message: Option<Seq<char>>,
    pub safety_ratings: Option<Seq<SafetyRatingView>>,
    pub citation_metadata: Option<Seq<CitationView>>,
}

/// The shape of a success response.
pub struct ResponseView {
    pub candidates: Option<Seq<CandidateView>>,
    pub prompt_feedback: Option<PromptFeedbackView>,
    pub usage_metadata: Option<UsageMetadata>,
}

/// The shape of an error envelope.
pub struct ErrorResponseView {
    pub code: u32,
    pub message: Seq<char>,
    pub status: Option<Seq<char>>,
}

/// The shape of a part value.
pub open spec fn part_view(x: Part) -> PartView {
    match x {
        Part::TextPart(t) => PartView::TextPart(t.text@),
        Part::InlineDataPart(d) => PartView::InlineDataPart(d.inline_data.mime_type@, d.inline_data.data@),
        Part::FileDataPart(d) => PartView::FileDataPart(d.file_data.mime_type@, d.file_data.file_uri@),
        Part::FunctionResponsePart(d) => PartView::FunctionResponsePart(
            d.function_response.name@,
            jview(d.function_response.response),
        ),
        Part::FunctionCallPart(d) => PartView::FunctionCallPart(
            d.function_call.name@,
            jview(d.function_call.args),
        ),
    }
}

/// The shape of a content value.
pub open spec fn content_view(x: Content) -> ContentView {
    ContentView {
        parts: Seq::new(x.parts@.len(), |i: int| part_view(x.parts@[i])),
        role: x.role@,
    }
}

/// The shape of a safety rating value.
pub open spec fn rating_view(x: SafetyRating) -> SafetyRatingView {
    SafetyRatingView {
        category: x.category,
        probability: x.probability,
        probability_score: view_opt_string(x.probability_score),
        severity: x.severity,
        severity_score: view_opt_string(x.severity_score),
    }
}

/// The shapes of a vector of safety ratings.
pub open spec fn ratings_views(v: Seq<SafetyRating>) -> Seq<SafetyRatingView> {
    Seq::new(v.len(), |i: int| rating_view(v[i]))
}

/// The shape of a citation value.
pub open spec fn citation_view(x: Citation) -> CitationView {
    CitationView {
        start_index: x.start_index,
        end_index: x.end_index,
        uri: view_opt_string(x.uri),
        title: view_opt_string(x.title),
        license: view_opt_string(x.license),
        publication_date: x.publication_date,
    }
}

/// The shapes of a vector of citations.
pub open spec fn citations_views(v: Seq<Citation>) -> Seq<CitationView> {
    Seq::new(v.len(), |i: int| citation_view(v[i]))
}

/// The shape of prompt feedback.
pub open spec fn feedback_view(x: PromptFeedback) -> PromptFeedbackView {
    PromptFeedbackView {
        block_reason: x.block_reason,
        safety_ratings: ratings_views(x.safety_ratings@),
        block_reason_message: view_opt_string(x.block_reason_message),
    }
}

/// The shape of a candidate value.
pub open spec fn candidate_view(x: GenerateContentCandidate) -> CandidateView {
    CandidateView {
        content: content_view(x.content),
        index: x.index,
        finish_reason: x.finish_reason,
        finish_message: view_opt_string(x.finish_message),
        safety_ratings: match x.safety_ratings {
            Some(v) => Some(ratings_views(v@)),
            None => None,
        },
        citation_metadata: match x.citation_metadata {
            Some(m) => Some(citations_views(m.citations@)),
            None => None,
        },
    }
}

/// The shapes of a vector of candidates.
pub open spec fn candidates_views(v: Seq<GenerateContentCandidate>) -> Seq<CandidateView> {
    Seq::new(v.len(), |i: int| candidate_view(v[i]))
}

/// The shape of a success response value.
pub open spec fn response_view(x: GenerateContentResponse) -> ResponseView {
    ResponseView {
        candidates: match x.candidates {
            Some(v) => Some(candidates_views(v@)),
            None => None,
        },
        prompt_feedback: match x.prompt_feedback {
            Some(f) => Some(feedback_view(f)),
            None => None,
        },
        usage_metadata: x.usage_metadata,
    }
}

/// The shape of an error envelope value.
pub open spec fn error_response_view(x: GenerateContentErrorResponse) -> ErrorResponseView {
    ErrorResponseView {
        code: x.error.code,
        message: x.error.message@,
        status: view_opt_string(x.error.status),
    }
}

// ---------------------------------------------------------------------
// Strict decoding
// ---------------------------------------------------------------------

/// Decodes one part: the variant is chosen by the first of these
/// fields that fits: `text`, `inlineData`, `fileData`,
/// `functionResponse`, `functionCall`.
pub open spec fn decode_part(j: JsonView) -> Option<PartView> {
    match j {
        JsonView::Obj(fs) => {
            match req_text_field(fs, "text"@) {
                Some(t) => Some(PartView::TextPart(t)),
                None => match get_field(fs, "inlineData"@) {
                    Some(JsonView::Obj(bs)) => match (
                        req_text_field(bs, "mimeType"@),
                        req_text_field(bs, "data"@),
                    ) {
                        (Some(mt), Some(d)) => Some(PartView::InlineDataPart(mt, d)),
                        _ => None,
                    },
                    _ => match get_field(fs, "fileData"@) {
                        Some(JsonView::Obj(bs)) => match (
                            req_text_field(bs, "mimeType"@),
                            req_text_field(bs, "fileUri"@),
                        ) {
                            (Some(mt), Some(u)) => Some(PartView::FileDataPart(mt, u)),
                            _ => None,
                        },
                        _ => match get_field(fs, "functionResponse"@) {
                            Some(JsonView::Obj(bs)) => match (
                                req_text_field(bs, "name"@),
                                get_field(bs, "response"@),
                            ) {
                                (Some(n), Some(v)) => Some(PartView::FunctionResponsePart(n, v)),
                                _ => None,
                            },
                            _ => match get_field(fs, "functionCall"@) {
                                Some(JsonView::Obj(bs)) => match (
                                    req_text_field(bs, "name"@),
                                    get_field(bs, "args"@),
                                ) {
                                    (Some(n), Some(v)) => Some(PartView::FunctionCallPart(n, v)),
                                    _ => None,
                                },
                                _ => None,
                            },
                        },
                    },
                },
            }
        },
        _ => None,
    }
}

/// Decodes the parts from `i` on.
pub open spec fn decode_parts_from(es: Seq<JsonView>, i: int) -> Option<Seq<PartView>>
    decreases es.len() - i,
{
    if !(0 <= i < es.len()) {
        Some(Seq::empty())
    } else {
        match (decode_part(es[i]), decode_parts_from(es, i + 1)) {
            (Some(p), Some(ps)) => Some(seq![p] + ps),
            _ => None,
        }
    }
}

/// Decodes a content turn: required `parts` array and `role` text.
pub open spec fn decode_content(j: JsonView) -> Option<ContentView> {
    match j {
        JsonView::Obj(fs) => match (get_field(fs, "parts"@), req_text_field(fs, "role"@)) {
            (Some(JsonView::Arr(es)), Some(role)) => match decode_parts_from(es, 0) {
                Some(ps) => Some(ContentView { parts: ps, role }),
                None => None,
            },
            _ => None,
        },
        _ => None,
    }
}

/// Decodes one safety rating; all its fields are optional.
pub open spec fn decode_rating(j: JsonView) -> Option<SafetyRatingView> {
    match j {
        JsonView::Obj(fs) => {
            match (
                crate::decode::lift_tag(
                    opt_text_field(fs, "category"@),
                    |t: Seq<char>| harm_category_of(t),
                ),
                crate::decode::lift_tag(
                    opt_text_field(fs, "probability"@),
                    |t: Seq<char>| harm_probability_of(t),
                ),
                opt_num_field(fs, "probabilityScore"@),
                crate::decode::lift_tag(
                    opt_text_field(fs, "severity"@),
                    |t: Seq<char>| harm_severity_of(t),
                ),
                opt_num_field(fs, "severityScore"@),
            ) {
                (Some(c), Some(p), Some(ps), Some(sv), Some(ss)) => Some(
                    SafetyRatingView {
                        category: c,
                        probability: p,
                        probability_score: ps,
                        severity: sv,
                        severity_score: ss,
                    },
                ),
                _ => None,
            }
        },
        _ => None,
    }
}

/// Decodes the safety ratings from `i` on.
pub open spec fn decode_ratings_from(es: Seq<JsonView>, i: int) -> Option<Seq<SafetyRatingView>>
    decreases es.len() - i,
{
    if !(0 <= i < es.len()) {
        Some(Seq::empty())
    } else {
        match (decode_rating(es[i]), decode_ratings_from(es, i + 1)) {
            (Some(p), Some(ps)) => Some(seq![p] + ps),
            _ => None,
        }
    }
}

/// Decodes a calendar date.
pub open spec fn decode_date(j: JsonView) -> Option<GoogleDate> {
    match j {
        JsonView::Obj(fs) => match (
            opt_u32_field(fs, "year"@),
            opt_u32_field(fs, "month"@),
            opt_u32_field(fs, "day"@),
        ) {
            (Some(y), Some(m), Some(d)) => Some(GoogleDate { year: y, month: m, day: d }),
            _ => None,
        },
        _ => None,
    }
}

/// Decodes one citation.
pub open spec fn decode_citation(j: JsonView) -> Option<CitationView> {
    match j {
        JsonView::Obj(fs) => {
            let pd = match get_field(fs, "publicationDate"@) {
                None => Some(None),
                Some(JsonView::Null) => Some(None),
                Some(d) => match decode_date(d) {
                    Some(v) => Some(Some(v)),
                    None => None,
                },
            };
            match (
                opt_u32_field(fs, "startIndex"@),
                opt_u32_field(fs, "endIndex"@),
                opt_text_field(fs, "uri"@),
                opt_text_field(fs, "title"@),
                opt_text_field(fs, "license"@),
                pd,
            ) {
                (Some(si), Some(ei), Some(u), Some(t), Some(l), Some(p)) => Some(
                    CitationView {
                        start_index: si,
                        end_index: ei,
                        uri: u,
                        title: t,
                        license: l,
                        publication_date: p,
                    },
                ),
                _ => None,
            }
        },
        _ => None,
    }
}

/// Decodes the citations from `i` on.
pub open spec fn decode_citations_from(es: Seq<JsonView>, i: int) -> Option<Seq<CitationView>>
    decreases es.len() - i,
{
    if !(0 <= i < es.len()) {
        Some(Seq::empty())
    } else {
        match (decode_citation(es[i]), decode_citations_from(es, i + 1)) {
            (Some(p), Some(ps)) => Some(seq![p] + ps),
            _ => None,
        }
    }
}

/// Decodes citation metadata: a required `citations` array.
pub open spec fn decode_citation_metadata(j: JsonView) -> Option<Seq<CitationView>> {
    match j {
        JsonView::Obj(fs) => match get_field(fs, "citations"@) {
            Some(JsonView::Arr(es)) => decode_citations_from(es, 0),
            _ => None,
        },
        _ => None,
    }
}

/// Decodes usage metadata: four optional token counts.
pub open spec fn decode_usage(j: JsonView) -> Option<UsageMetadata> {
    match j {
        JsonView::Obj(fs) => match (
            opt_u32_field(fs, "promptTokenCount"@),
            opt_u32_field(fs, "candidatesTokenCount"@),
            opt_u32_field(fs, "totalTokenCount"@),
            opt_u32_field(fs, "cachedContentTokenCount"@),
        ) {
            (Some(p), Some(c), Some(t), Some(cc)) => Some(
                UsageMetadata {
                    prompt_token_count: p,
                    candidates_token_count: c,
                    total_token_count: t,
                    cached_content_token_count: cc,
                },
            ),
            _ => None,
        },
        _ => None,
    }
}

/// Decodes prompt feedback: a required `safetyRatings` array, the rest
/// optional.
pub open spec fn decode_feedback(j: JsonView) -> Option<PromptFeedbackView> {
    match j {
        JsonView::Obj(fs) => {
            let rs = match get_field(fs, "safetyRatings"@) {
                Some(JsonView::Arr(es)) => decode_ratings_from(es, 0),
                _ => None,
            };
            match (
                crate::decode::lift_tag(
                    opt_text_field(fs, "blockReason"@),
                    |t: Seq<char>| blocked_reason_of(t),
                ),
                rs,
                opt_text_field(fs, "blockReasonMessage"@),
            ) {
                (Some(br), Some(r), Some(m)) => Some(
                    PromptFeedbackView {
                        block_reason: br,
                        safety_ratings: r,
                        block_reason_message: m,
                    },
                ),
                _ => None,
            }
        },
        _ => None,
    }
}

/// Decodes one candidate: a required `content`, the rest optional.
pub open spec fn decode_candidate(j: JsonView) -> Option<CandidateView> {
    match j {
        JsonView::Obj(fs) => {
            let content = match get_field(fs, "content"@) {
                Some(c) => decode_content(c),
                None => None,
            };
            let ratings = match get_field(fs, "safetyRatings"@) {
                None => Some(None),
                Some(JsonView::Null) => Some(None),
                Some(JsonView::Arr(es)) => match decode_ratings_from(es, 0) {
                    Some(rs) => Some(Some(rs)),
                    None => None,
                },
                Some(_) => None,
            };
            let cm = match get_field(fs, "citationMetadata"@) {
                None => Some(None),
                Some(JsonView::Null) => Some(None),
                Some(m) => match decode_citation_metadata(m) {
                    Some(cs) => Some(Some(cs)),
                    None => None,
                },
            };
            match (
                content,
                opt_u32_field(fs, "index"@),
                crate::decode::lift_tag(
                    opt_text_field(fs, "finishReason"@),
                    |t: Seq<char>| finish_reason_of(t),
                ),
                opt_text_field(fs, "finishMessage"@),
                ratings,
                cm,
            ) {
                (Some(c), Some(ix), Some(fr), Some(fm), Some(r), Some(m)) => Some(
                    CandidateView {
                        content: c,
                        index: ix,
                        finish_reason: fr,
                        finish_message: fm,
                        safety_ratings: r,
                        citation_metadata: m,
                    },
                ),
                _ => None,
            }
        },
        _ => None,
    }
}

/// Decodes the candidates from `i` on.
pub open spec fn decode_candidates_from(es: Seq<JsonView>, i: int) -> Option<Seq<CandidateView>>
    decreases es.len() - i,
{
    if !(0 <= i < es.len()) {
        Some(Seq::empty())
    } else {
        match (decode_candidate(es[i]), decode_candidates_from(es, i + 1)) {
            (Some(p), Some(ps)) => Some(seq![p] + ps),
            _ => None,
        }
    }
}

/// Decodes the success object: every top-level field optional.
pub open spec fn decode_response(j: JsonView) -> Option<ResponseView> {
    match j {
        JsonView::Obj(fs) => {
            let cands = match get_field(fs, "candidates"@) {
                None => Some(None),
                Some(JsonView::Null) => Some(None),
                Some(JsonView::Arr(es)) => match decode_candidates_from(es, 0) {
                    Some(cs) => Some(Some(cs)),
                    None => None,
                },
                Some(_) => None,
            };
            let fb = match get_field(fs, "promptFeedback"@) {
                None => Some(None),
                Some(JsonView::Null) => Some(None),
                Some(f) => match decode_feedback(f) {
                    Some(v) => Some(Some(v)),
                    None => None,
                },
            };
            let um = match get_field(fs, "usageMetadata"@) {
                None => Some(None),
                Some(JsonView::Null) => Some(None),
                Some(u) => match decode_usage(u) {
                    Some(v) => Some(Some(v)),
                    None => None,
                },
            };
            match (cands, fb, um) {
                (Some(c), Some(f), Some(u)) => Some(
                    ResponseView { candidates: c, prompt_feedback: f, usage_metadata: u },
                ),
                _ => None,
            }
        },
        _ => None,
    }
}

/// Decodes the error envelope: a required `error` object with a
/// required numeric `code` and text `message`.
pub open spec fn decode_error_response(j: JsonView) -> Option<ErrorResponseView> {
    match j {
        JsonView::Obj(fs) => match get_field(fs, "error"@) {
            Some(JsonView::Obj(es)) => match (
                crate::decode::req_u32_field(es, "code"@),
                req_text_field(es, "message"@),
                opt_text_field(es, "status"@),
            ) {
                (Some(c), Some(m), Some(s)) => Some(
                    ErrorResponseView { code: c, message: m, status: s },
                ),
                _ => None,
            },
            _ => None,
        },
        _ => None,
    }
}

// ---------------------------------------------------------------------
// Executable decoders
// ---------------------------------------------------------------------

/// Decodes one part, as `decode_part` describes.
pub fn decode_part_x(j: &Json) -> (r: Option<Part>)
    ensures
        r matches Some(x) ==> decode_part(jview(*j)) == Some(part_view(x)),
        r is None ==> decode_part(jview(*j)) is None,
{
    match j {
        Json::Obj(fs) => {
            match req_text_field_x(fs, "text") {
                Some(t) => {
                    return Some(Part::TextPart(TextPart { text: t }));
                },
                None => {},
            }
            match get_field_x(fs, "inlineData") {
                Some(Json::Obj(bs)) => {
                    return match (req_text_field_x(bs, "mimeType"), req_text_field_x(bs, "data")) {
                        (Some(mt), Some(d)) => Some(
                            Part::InlineDataPart(
                                InlineDataPart {
                                    inline_data: GenerativeContentBlob { mime_type: mt, data: d },
                                },
                            ),
                        ),
                        _ => None,
                    };
                },
                _ => {},
            }
            match get_field_x(fs, "fileData") {
                Some(Json::Obj(bs)) => {
                    return match (
                        req_text_field_x(bs, "mimeType"),
                        req_text_field_x(bs, "fileUri"),
                    ) {
                        (Some(mt), Some(u)) => Some(
                            Part::FileDataPart(
                                FileDataPart {
                                    file_data: FileData { mime_type: mt, file_uri: u },
                                },
                            ),
                        ),
                        _ => None,
                    };
                },
                _ => {},
            }
            match get_field_x(fs, "functionResponse") {
                Some(Json::Obj(bs)) => {
                    return match (req_text_field_x(bs, "name"), get_field_x(bs, "response")) {
                        (Some(n), Some(v)) => Some(
                            Part::FunctionResponsePart(
                                FunctionResponsePart {
                                    function_response: FunctionResponse {
                                        name: n,
                                        response: crate::json_exec::json_clone(v),
                                    },
                                },
                            ),
                        ),
                        _ => None,
                    };
                },
                _ => {},
            }
            match get_field_x(fs, "functionCall") {
                Some(Json::Obj(bs)) => {
                    match (req_text_field_x(bs, "name"), get_field_x(bs, "args")) {
                        (Some(n), Some(v)) => Some(
                            Part::FunctionCallPart(
                                FunctionCallPart {
                                    function_call: FunctionCall {
                                        name: n,
                                        args: crate::json_exec::json_clone(v),
                                    },
                                },
                            ),
                        ),
                        _ => None,
                    }
                },
                _ => None,
            }
        },
        _ => None,
    }
}

/// Decodes an array of parts, as `decode_parts_from` describes.
fn decode_parts_x(es: &Vec<Json>) -> (r: Option<Vec<Part>>)
    ensures
        r matches Some(v) ==> decode_parts_from(jview_seq(es@), 0) == Some(
            Seq::new(v@.len(), |i: int| part_view(v@[i])),
        ),
        r is None ==> decode_parts_from(jview_seq(es@), 0) is None,
{
    let ghost esv = jview_seq(es@);
    proof {
        crate::json::lemma_jview_seq_len(es@);
    }
    let mut out: Vec<Part> = Vec::new();
    let mut i: usize = 0;
    while i < es.len()
        invariant
            0 <= i <= es@.len(),
            esv == jview_seq(es@),
            esv.len() == es@.len(),
            match decode_parts_from(esv, i as int) {
                Some(tail) => decode_parts_from(esv, 0) == Some(
                    Seq::new(out@.len(), |k: int| part_view(out@[k])) + tail,
                ),
                None => decode_parts_from(esv, 0) is None,
            },
        decreases es@.len() - i,
    {
        proof {
            lemma_jview_seq_index(es@, i as int);
        }
        match decode_part_x(&es[i]) {
            Some(x) => {
                let ghost old_out = out@;
                let ghost gx = x;
                out.push(x);
                proof {
                    assert(Seq::new(out@.len(), |k: int| part_view(out@[k])) =~= Seq::new(
                        old_out.len(),
                        |k: int| part_view(old_out[k]),
                    ).push(part_view(gx)));
                    if let Some(tail2) = decode_parts_from(esv, i + 1) {
                        assert(decode_parts_from(esv, i as int) == Some(
                            seq![part_view(gx)] + tail2,
                        ));
                        assert(Seq::new(old_out.len(), |k: int| part_view(old_out[k])) + (seq![
                            part_view(gx),
                        ] + tail2) =~= Seq::new(out@.len(), |k: int| part_view(out@[k])) + tail2);
                    }
                }
            },
            None => {
                return None;
            },
        }
        i = i + 1;
    }
    proof {
        assert(Seq::new(out@.len(), |k: int| part_view(out@[k])) + Seq::<PartView>::empty()
            =~= Seq::new(out@.len(), |k: int| part_view(out@[k])));
    }
    Some(out)
}

/// Decodes a content turn, as `decode_content` describes.
pub fn decode_content_x(j: &Json) -> (r: Option<Content>)
    ensures
        r matches Some(x) ==> decode_content(jview(*j)) == Some(content_view(x)),
        r is None ==> decode_content(jview(*j)) is None,
{
    match j {
        Json::Obj(fs) => {
            let role = match req_text_field_x(fs, "role") {
                Some(t) => t,
                None => {
                    return None;
                },
            };
            match get_field_x(fs, "parts") {
                Some(Json::Arr(es)) => match decode_parts_x(es) {
                    Some(ps) => Some(Content { parts: ps, role }),
                    None => None,
                },
                _ => None,
            }
        },
        _ => None,
    }
}

/// Decodes one safety rating, as `decode_rating` describes.
pub fn decode_rating_x(j: &Json) -> (r: Option<SafetyRating>)
    ensures
        r matches Some(x) ==> decode_rating(jview(*j)) == Some(rating_view(x)),
        r is None ==> decode_rating(jview(*j)) is None,
{
    match j {
        Json::Obj(fs) => {
            let category: Option<HarmCategory> = match opt_text_field_x(fs, "category") {
                None => {
                    return None;
                },
                Some(None) => None,
                Some(Some(t)) => match harm_category_from(t.as_str()) {
                    Some(v) => Some(v),
                    None => {
                        return None;
                    },
                },
            };
            let probability: Option<HarmProbability> = match opt_text_field_x(fs, "probability") {
                None => {
                    return None;
                },
                Some(None) => None,
                Some(Some(t)) => match harm_probability_from(t.as_str()) {
                    Some(v) => Some(v),
                    None => {
                        return None;
                    },
                },
            };
            let probability_score = match opt_num_field_x(fs, "probabilityScore") {
                None => {
                    return None;
                },
                Some(o) => o,
            };
            let severity: Option<HarmSeverity> = match opt_text_field_x(fs, "severity") {
                None => {
                    return None;
                },
                Some(None) => None,
                Some(Some(t)) => match harm_severity_from(t.as_str()) {
                    Some(v) => Some(v),
                    None => {
                        return None;
                    },
                },
            };
            let severity_score = match opt_num_field_x(fs, "severityScore") {
                None => {
                    return None;
                },
                Some(o) => o,
            };
            Some(
                SafetyRating {
                    category,
                    probability,
                    probability_score,
                    severity,
                    severity_score,
                },
            )
        },
        _ => None,
    }
}

/// Decodes an array of safety ratings, as `decode_ratings_from`
/// describes.
fn decode_ratings_x(es: &Vec<Json>) -> (r: Option<Vec<SafetyRating>>)
    ensures
        r matches Some(v) ==> decode_ratings_from(jview_seq(es@), 0) == Some(ratings_views(v@)),
        r is None ==> decode_ratings_from(jview_seq(es@), 0) is None,
{
    let ghost esv = jview_seq(es@);
    proof {
        crate::json::lemma_jview_seq_len(es@);
    }
    let mut out: Vec<SafetyRating> = Vec::new();
    let mut i: usize = 0;
    while i < es.len()
        invariant
            0 <= i <= es@.len(),
            esv == jview_seq(es@),
            esv.len() == es@.len(),
            match decode_ratings_from(esv, i as int) {
                Some(tail) => decode_ratings_from(esv, 0) == Some(ratings_views(out@) + tail),
                None => decode_ratings_from(esv, 0) is None,
            },
        decreases es@.len() - i,
    {
        proof {
            lemma_jview_seq_index(es@, i as int);
        }
        match decode_rating_x(&es[i]) {
            Some(x) => {
                let ghost old_out = out@;
                let ghost gx = x;
                out.push(x);
                proof {
                    assert(ratings_views(out@) =~= ratings_views(old_out).push(rating_view(gx)));
                    if let Some(tail2) = decode_ratings_from(esv, i + 1) {
                        assert(decode_ratings_from(esv, i as int) == Some(
                            seq![rating_view(gx)] + tail2,
                        ));
                        assert(ratings_views(old_out) + (seq![rating_view(gx)] + tail2)
                            =~= ratings_views(out@) + tail2);
                    }
                }
            },
            None => {
                return None;
            },
        }
        i = i + 1;
    }
    proof {
        assert(ratings_views(out@) + Seq::<SafetyRatingView>::empty() =~= ratings_views(out@));
    }
    Some(out)
}

/// Decodes a calendar date, as `decode_date` describes.
pub fn decode_date_x(j: &Json) -> (r: Option<GoogleDate>)
    ensures
        r == decode_date(jview(*j)),
{
    match j {
        Json::Obj(fs) => {
            match (
                opt_u32_field_x(fs, "year"),
                opt_u32_field_x(fs, "month"),
                opt_u32_field_x(fs, "day"),
            ) {
                (Some(y), Some(m), Some(d)) => Some(GoogleDate { year: y, month: m, day: d }),
                _ => None,
            }
        },
        _ => None,
    }
}

/// Decodes one citation, as `decode_citation` describes.
pub fn decode_citation_x(j: &Json) -> (r: Option<Citation>)
    ensures
        r matches Some(x) ==> decode_citation(jview(*j)) == Some(citation_view(x)),
        r is None ==> decode_citation(jview(*j)) is None,
{
    match j {
        Json::Obj(fs) => {
            let publication_date: Option<GoogleDate> = match get_field_x(fs, "publicationDate") {
                None => None,
                Some(Json::Null) => None,
                Some(d) => match decode_date_x(d) {
                    Some(v) => Some(v),
                    None => {
                        return None;
                    },
                },
            };
            let start_index = match opt_u32_field_x(fs, "startIndex") {
                None => {
                    return None;
                },
                Some(o) => o,
            };
            let end_index = match opt_u32_field_x(fs, "endIndex") {
                None => {
                    return None;
                },
                Some(o) => o,
            };
            let uri = match opt_text_field_x(fs, "uri") {
                None => {
                    return None;
                },
                Some(o) => o,
            };
            let title = match opt_text_field_x(fs, "title") {
                None => {
                    return None;
                },
                Some(o) => o,
            };
            let license = match opt_text_field_x(fs, "license") {
                None => {
                    return None;
                },
                Some(o) => o,
            };
            Some(Citation { start_index, end_index, uri, title, license, publication_date })
        },
        _ => None,
    }
}

/// Decodes an array of citations, as `decode_citations_from`
/// describes.
fn decode_citations_x(es: &Vec<Json>) -> (r: Option<Vec<Citation>>)
    ensures
        r matches Some(v) ==> decode_citations_from(jview_seq(es@), 0) == Some(
            citations_views(v@),
        ),
        r is None ==> decode_citations_from(jview_seq(es@), 0) is None,
{
    let ghost esv = jview_seq(es@);
    proof {
        crate::json::lemma_jview_seq_len(es@);
    }
    let mut out: Vec<Citation> = Vec::new();
    let mut i: usize = 0;
    while i < es.len()
        invariant
            0 <= i <= es@.len(),
            esv == jview_seq(es@),
            esv.len() == es@.len(),
            match decode_citations_from(esv, i as int) {
                Some(tail) => decode_citations_from(esv, 0) == Some(citations_views(out@) + tail),
                None => decode_citations_from(esv, 0) is None,
            },
        decreases es@.len() - i,
    {
        proof {
            lemma_jview_seq_index(es@, i as int);
        }
        match decode_citation_x(&es[i]) {
            Some(x) => {
                let ghost old_out = out@;
                let ghost gx = x;
                out.push(x);
                proof {
                    assert(citations_views(out@) =~= citations_views(old_out).push(
                        citation_view(gx),
                    ));
                    if let Some(tail2) = decode_citations_from(esv, i + 1) {
                        assert(decode_citations_from(esv, i as int) == Some(
                            seq![citation_view(gx)] + tail2,
                        ));
                        assert(citations_views(old_out) + (seq![citation_view(gx)] + tail2)
                            =~= citations_views(out@) + tail2);
                    }
                }
            },
            None => {
                return None;
            },
        }
        i = i + 1;
    }
    proof {
        assert(citations_views(out@) + Seq::<CitationView>::empty() =~= citations_views(out@));
    }
    Some(out)
}

/// Decodes citation metadata, as `decode_citation_metadata` describes.
pub fn decode_citation_metadata_x(j: &Json) -> (r: Option<CitationMetadata>)
    ensures
        r matches Some(x) ==> decode_citation_metadata(jview(*j)) == Some(
            citations_views(x.citations@),
        ),
        r is None ==> decode_citation_metadata(jview(*j)) is None,
{
    match j {
        Json::Obj(fs) => match get_field_x(fs, "citations") {
            Some(Json::Arr(es)) => match decode_citations_x(es) {
                Some(cs) => Some(CitationMetadata { citations: cs }),
                None => None,
            },
            _ => None,
        },
        _ => None,
    }
}

/// Decodes usage metadata, as `decode_usage` describes.
pub fn decode_usage_x(j: &Json) -> (r: Option<UsageMetadata>)
    ensures
        r == decode_usage(jview(*j)),
{
    match j {
        Json::Obj(fs) => {
            match (
                opt_u32_field_x(fs, "promptTokenCount"),
                opt_u32_field_x(fs, "candidatesTokenCount"),
                opt_u32_field_x(fs, "totalTokenCount"),
                opt_u32_field_x(fs, "cachedContentTokenCount"),
            ) {
                (Some(p), Some(c), Some(t), Some(cc)) => Some(
                    UsageMetadata {
                        prompt_token_count: p,
                        candidates_token_count: c,
                        total_token_count: t,
                        cached_content_token_count: cc,
                    },
                ),
                _ => None,
            }
        },
        _ => None,
    }
}

/// Decodes prompt feedback, as `decode_feedback` describes.
pub fn decode_feedback_x(j: &Json) -> (r: Option<PromptFeedback>)
    ensures
        r matches Some(x) ==> decode_feedback(jview(*j)) == Some(feedback_view(x)),
        r is None ==> decode_feedback(jview(*j)) is None,
{
    match j {
        Json::Obj(fs) => {
            let block_reason: Option<BlockedReason> = match opt_text_field_x(fs, "blockReason") {
                None => {
                    return None;
                },
                Some(None) => None,
                Some(Some(t)) => match blocked_reason_from(t.as_str()) {
                    Some(v) => Some(v),
                    None => {
                        return None;
                    },
                },
            };
            let block_reason_message = match opt_text_field_x(fs, "blockReasonMessage") {
                None => {
                    return None;
                },
                Some(o) => o,
            };
            match get_field_x(fs, "safetyRatings") {
                Some(Json::Arr(es)) => match decode_ratings_x(es) {
                    Some(rs) => Some(
                        PromptFeedback {
                            block_reason,
                            safety_ratings: rs,
                            block_reason_message,
                        },
                    ),
                    None => None,
                },
                _ => None,
            }
        },
        _ => None,
    }
}

/// Decodes one candidate, as `decode_candidate` describes.
pub fn decode_candidate_x(j: &Json) -> (r: Option<GenerateContentCandidate>)
    ensures
        r matches Some(x) ==> decode_candidate(jview(*j)) == Some(candidate_view(x)),
        r is None ==> decode_candidate(jview(*j)) is None,
{
    match j {
        Json::Obj(fs) => {
            let content = match get_field_x(fs, "content") {
                Some(c) => match decode_content_x(c) {
                    Some(v) => v,
                    None => {
                        return None;
                    },
                },
                None => {
                    return None;
                },
            };
            let index = match opt_u32_field_x(fs, "index") {
                None => {
                    return None;
                },
                Some(o) => o,
            };
            let finish_reason: Option<FinishReason> = match opt_text_field_x(fs, "finishReason") {
                None => {
                    return None;
                },
                Some(None) => None,
                Some(Some(t)) => match finish_reason_from(t.as_str()) {
                    Some(v) => Some(v),
                    None => {
                        return None;
                    },
                },
            };
            let finish_message = match opt_text_field_x(fs, "finishMessage") {
                None => {
                    return None;
                },
                Some(o) => o,
            };
            let safety_ratings: Option<Vec<SafetyRating>> = match get_field_x(
                fs,
                "safetyRatings",
            ) {
                None => None,
                Some(Json::Null) => None,
                Some(Json::Arr(es)) => match decode_ratings_x(es) {
                    Some(rs) => Some(rs),
                    None => {
                        return None;
                    },
                },
                Some(_) => {
                    return None;
                },
            };
            let citation_metadata: Option<CitationMetadata> = match get_field_x(
                fs,
                "citationMetadata",
            ) {
                None => None,
                Some(Json::Null) => None,
                Some(m) => match decode_citation_metadata_x(m) {
                    Some(cm) => Some(cm),
                    None => {
                        return None;
                    },
                },
            };
            Some(
                GenerateContentCandidate {
                    content,
                    index,
                    finish_reason,
                    finish_message,
                    safety_ratings,
                    citation_metadata,
                },
            )
        },
        _ => None,
    }
}

/// Decodes an array of candidates, as `decode_candidates_from`
/// describes.
fn decode_candidates_x(es: &Vec<Json>) -> (r: Option<Vec<GenerateContentCandidate>>)
    ensures
        r matches Some(v) ==> decode_candidates_from(jview_seq(es@), 0) == Some(
            candidates_views(v@),
        ),
        r is None ==> decode_candidates_from(jview_seq(es@), 0) is None,
{
    let ghost esv = jview_seq(es@);
    proof {
        crate::json::lemma_jview_seq_len(es@);
    }
    let mut out: Vec<GenerateContentCandidate> = Vec::new();
    let mut i: usize = 0;
    while i < es.len()
        invariant
            0 <= i <= es@.len(),
            esv == jview_seq(es@),
            esv.len() == es@.len(),
            match decode_candidates_from(esv, i as int) {
                Some(tail) => decode_candidates_from(esv, 0) == Some(
                    candidates_views(out@) + tail,
                ),
                None => decode_candidates_from(esv, 0) is None,
            },
        decreases es@.len() - i,
    {
        proof {
            lemma_jview_seq_index(es@, i as int);
        }
        match decode_candidate_x(&es[i]) {
            Some(x) => {
                let ghost old_out = out@;
                let ghost gx = x;
                out.push(x);
                proof {
                    assert(candidates_views(out@) =~= candidates_views(old_out).push(
                        candidate_view(gx),
                    ));
                    if let Some(tail2) = decode_candidates_from(esv, i + 1) {
                        assert(decode_candidates_from(esv, i as int) == Some(
                            seq![candidate_view(gx)] + tail2,
                        ));
                        assert(candidates_views(old_out) + (seq![candidate_view(gx)] + tail2)
                            =~= candidates_views(out@) + tail2);
                    }
                }
            },
            None => {
                return None;
            },
        }
        i = i + 1;
    }
    proof {
        assert(candidates_views(out@) + Seq::<CandidateView>::empty() =~= candidates_views(out@));
    }
    Some(out)
}

/// Decodes the success object, as `decode_response` describes.
pub fn decode_response_x(j: &Json) -> (r: Option<GenerateContentResponse>)
    ensures
        r matches Some(x) ==> decode_response(jview(*j)) == Some(response_view(x)),
        r is None ==> decode_response(jview(*j)) is None,
{
    match j {
        Json::Obj(fs) => {
            let candidates: Option<Vec<GenerateContentCandidate>> = match get_field_x(
                fs,
                "candidates",
            ) {
                None => None,
                Some(Json::Null) => None,
                Some(Json::Arr(es)) => match decode_candidates_x(es) {
                    Some(cs) => Some(cs),
                    None => {
                        return None;
                    },
                },
                Some(_) => {
                    return None;
                },
            };
            let prompt_feedback: Option<PromptFeedback> = match get_field_x(fs, "promptFeedback") {
                None => None,
                Some(Json::Null) => None,
                Some(f) => match decode_feedback_x(f) {
                    Some(v) => Some(v),
                    None => {
                        return None;
                    },
                },
            };
            let usage_metadata: Option<UsageMetadata> = match get_field_x(fs, "usageMetadata") {
                None => None,
                Some(Json::Null) => None,
                Some(u) => match decode_usage_x(u) {
                    Some(v) => Some(v),
                    None => {
                        return None;
                    },
                },
            };
            Some(GenerateContentResponse { candidates, prompt_feedback, usage_metadata })
        },
        _ => None,
    }
}

/// Decodes the error envelope, as `decode_error_response` describes.
pub fn decode_error_response_x(j: &Json) -> (r: Option<GenerateContentErrorResponse>)
    ensures
        r matches Some(x) ==> decode_error_response(jview(*j)) == Some(error_response_view(x)),
        r is None ==> decode_error_response(jview(*j)) is None,
{
    match j {
        Json::Obj(fs) => match get_field_x(fs, "error") {
            Some(Json::Obj(es)) => {
                let code = match crate::decode::req_u32_field_x(es, "code") {
                    Some(c) => c,
                    None => {
                        return None;
                    },
                };
                let message = match req_text_field_x(es, "message") {
                    Some(m) => m,
                    None => {
                        return None;
                    },
                };
                let status = match opt_text_field_x(es, "status") {
                    None => {
                        return None;
                    },
                    Some(o) => o,
                };
                Some(
                    GenerateContentErrorResponse {
                        error: GenerateContentError { code, message, status },
                    },
                )
            },
            _ => None,
        },
        _ => None,
    }
}

// ---------------------------------------------------------------------
// Request-side shapes
// ---------------------------------------------------------------------

/// Authentication options handed to the credential provider.
#[derive(Clone, Debug, PartialEq, Eq, Structural)]
pub struct GoogleAuthOptions {}

/// Connection settings for the backend.
#[derive(Clone, Debug, PartialEq)]
pub struct VertexInit {
    pub project: Option<String>,
    pub location: Option<String>,
    pub api_endpoint: Option<String>,
    pub google_auth_options: Option<GoogleAuthOptions>,
}

/// A system instruction: plain text or a content turn.
#[derive(Debug, PartialEq)]
pub enum SystemInstruction {
    Text(String),
    Content(Content),
}

/// A safety setting of a request.
#[derive(Clone, Copy, Debug, PartialEq, Eq, Structural)]
pub struct SafetySetting {
    pub category: Option<HarmCategory>,
    pub threshold: Option<HarmBlockThreshold>,
}

/// How strongly a harm category is blocked.
#[derive(Clone, Copy, Debug, PartialEq, Eq, Structural)]
pub enum HarmBlockThreshold {
    HarmBlockThresholdUnspecified,
    BlockLowAndAbove,
    BlockMediumAndAbove,
    BlockOnlyHigh,
    BlockNone,
}

/// A response schema constraint.
#[derive(Clone, Debug, PartialEq, Eq, Structural)]
pub struct ResponseSchema {}

/// Sampling and output knobs of a request; number-valued knobs keep
/// their exact lexemes as text.
#[derive(Debug, PartialEq)]
pub struct GenerationConfig {
    pub candidate_count: Option<u32>,
    pub stop_sequences: Option<Vec<String>>,
    pub max_output_tokens: Option<u32>,
    pub temperature: Option<String>,
    pub top_p: Option<String>,
    pub top_k: Option<u32>,
    pub frequency_penalty: Option<String>,
    pub response_mime_type: Option<String>,
    pub response_schema: Option<ResponseSchema>,
}

/// The kind of a declared parameter.
#[derive(Clone, Copy, Debug, PartialEq, Eq, Structural)]
pub enum SchemaType {
    Object,
    String,
    Number,
    Integer,
    Boolean,
    Array,
}

/// One declared function a model may call.
#[derive(Debug, PartialEq)]
pub struct FunctionDeclaration {
    pub name: String,
    pub description: Option<String>,
    pub parameters: Option<FunctionDeclarationSchema>,
}

/// The parameter schema of a declared function; properties are held as
/// key–schema pairs in their declared order.
#[derive(Debug, PartialEq)]
pub struct FunctionDeclarationSchema {
    pub schema_type: SchemaType,
    pub properties: Vec<(String, crate::schema::Schema)>,
    pub description: Option<String>,
    pub required: Option<Vec<String>>,
}

/// The declared functions of a request.
#[derive(Debug, PartialEq)]
pub struct FunctionDeclarationsTool {
    pub function_declarations: Option<Vec<FunctionDeclaration>>,
}

/// A data store search.
#[derive(Clone, Debug, PartialEq)]
pub struct VertexAISearch {
    pub datastore: String,
}

/// One retrieval resource.
#[derive(Clone, Debug, PartialEq)]
pub struct RagResource {
    pub rag_corpus: Option<String>,
    pub rag_file_ids: Option<Vec<String>>,
}

/// A retrieval store; the distance threshold keeps its exact lexeme.
#[derive(Clone, Debug, PartialEq)]
pub struct VertexRagStore {
    pub rag_resources: Option<Vec<RagResource>>,
    pub similarity_top_k: Option<u32>,
    pub vector_distance_threshold: Option<String>,
}

/// A retrieval tool.
#[derive(Clone, Debug, PartialEq)]
pub struct Retrieval {
    pub vertex_ai_search: Option<VertexAISearch>,
    pub vertex_rag_store: Option<VertexRagStore>,
    pub disable_attribution: Option<bool>,
}

/// The retrieval variant of a tool.
#[derive(Clone, Debug, PartialEq)]
pub struct RetrievalTool {
    pub retrieval: Option<Retrieval>,
}

/// A web search retrieval.
#[derive(Clone, Debug, PartialEq, Eq, Structural)]
pub struct GoogleSearchRetrieval {}

/// The web search variant of a tool.
#[derive(Clone, Debug, PartialEq)]
pub struct GoogleSearchRetrievalTool {
    pub google_search_retrieval: Option<GoogleSearchRetrieval>,
}

/// One tool of a request.
#[derive(Debug, PartialEq)]
pub enum Tool {
    FunctionDeclarationsTool(FunctionDeclarationsTool),
    RetrievalTool(RetrievalTool),
    GoogleSearchRetrievalTool(GoogleSearchRetrievalTool),
}

/// Configuration shared by all tools of a request.
#[derive(Clone, Debug, PartialEq, Eq, Structural)]
pub struct ToolConfig {}

/// The shared parameters of a request.
#[derive(Debug, PartialEq)]
pub struct BaseModelParams {
    pub safety_settings: Option<Vec<SafetySetting>>,
    pub generation_config: Option<GenerationConfig>,
    pub tools: Option<Vec<Tool>>,
    pub tool_config: Option<ToolConfig>,
    pub system_instruction: Option<SystemInstruction>,
}

/// A request to the array-framed backend.
#[derive(Debug, PartialEq)]
pub struct GenerateContentRequest {
    pub base_model_params: BaseModelParams,
    pub contents: Vec<Content>,
    pub cached_content: Option<String>,
}

/// The credential provider handle.
#[derive(Clone, Debug, PartialEq, Eq, Structural)]
pub struct GoogleAuth {}

/// Parameters for starting a chat session.
#[derive(Debug, PartialEq)]
pub struct StartChatParams {
    pub history: Option<Vec<Content>>,
    pub safety_settings: Option<Vec<SafetySetting>>,
    pub generation_config: Option<GenerationConfig>,
    pub tools: Option<Vec<Tool>>,
    pub tool_config: Option<ToolConfig>,
    pub api_endpoint: Option<String>,
    pub system_instruction: Option<SystemInstruction>,
    pub cached_content: Option<String>,
}

/// A request for starting a chat session against one resource.
#[derive(Debug, PartialEq)]
pub struct StartChatSessionRequest {
    pub start_chat_params: StartChatParams,
    pub project: String,
    pub location: String,
    pub google_auth: GoogleAuth,
    pub publisher_model_endpoint: String,
    pub resource_path: String,
    pub system_instruction: Option<SystemInstruction>,
}

/// Options for one request.
#[derive(Clone, Debug, PartialEq)]
pub struct RequestOptions {
    pub timeout: Option<u64>,
    pub api_client: Option<String>,
    pub custom_headers: Option<Vec<(String, String)>>,
}

/// Usage counts of one cached content entry.
#[derive(Clone, Copy, Debug, PartialEq, Eq, Structural)]
pub struct CachedContentUsageMetadata {
    pub total_token_count: Option<u32>,
    pub text_count: Option<u32>,
    pub image_count: Option<u32>,
    pub video_duration_seconds: Option<u32>,
    pub audio_duration_seconds: Option<u32>,
}

/// One cached content entry.
#[derive(Debug, PartialEq)]
pub struct CachedContent {
    pub name: Option<String>,
    pub display_name: Option<String>,
    pub model: Option<String>,
    pub system_instruction: Option<SystemInstruction>,
    pub contents: Option<Vec<Content>>,
    pub tools: Option<Vec<Tool>>,
    pub tool_config: Option<ToolConfig>,
    pub create_time: Option<String>,
    pub update_time: Option<String>,
    pub usage_metadata: Option<CachedContentUsageMetadata>,
    pub expire_time: Option<String>,
    pub ttl: Option<String>,
}

/// One page of cached content entries.
#[derive(Debug, PartialEq)]
pub struct ListCachedContentsResponse {
    pub cached_contents: Option<Vec<CachedContent>>,
    pub next_page_token: Option<String>,
}

} // verus!
