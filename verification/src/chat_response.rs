//! The wire objects of the chat variant of the array-framed backend,
//! and their strict decoding. Log-probability fields keep their exact
//! number lexeme as text.

use vstd::prelude::*;

use crate::decode::{
    get_field, opt_num_field, opt_text_field, opt_num_field_x, opt_text_field_x, req_text_field,
    req_text_field_x, req_u32_field, req_u32_field_x, get_field_x, str_eq, view_opt_string,
    lemma_jview_seq_index, lift_tag,
};
use crate::json::{jview, jview_seq, Json, JsonView};

verus! {

/// Why a chat candidate stopped.
#[derive(Clone, Copy, Debug, PartialEq, Eq, Structural)]
pub enum FinishReason {
    Stop,
    MaxTokens,
    Safety,
    Recitation,
    Other,
}

/// The finish reason a wire tag names.
pub open spec fn finish_reason_of(t: Seq<char>) -> Option<FinishReason> {
    if t == "STOP"@ {
        Some(FinishReason::Stop)
    } else if t == "MAX_TOKENS"@ {
        Some(FinishReason::MaxTokens)
    } else if t == "SAFETY"@ {
        Some(FinishReason::Safety)
    } else if t == "RECITATION"@ {
        Some(FinishReason::Recitation)
    } else if t == "OTHER"@ {
        Some(FinishReason::Other)
    } else {
        None
    }
}

/// Reads a finish reason tag.
pub fn finish_reason_from(t: &str) -> (r: Option<FinishReason>)
    ensures
        r == finish_reason_of(t@),
{
    if str_eq(t, "STOP") {
        Some(FinishReason::Stop)
    } else if str_eq(t, "MAX_TOKENS") {
        Some(FinishReason::MaxTokens)
    } else if str_eq(t, "SAFETY") {
        Some(FinishReason::Safety)
    } else if str_eq(t, "RECITATION") {
        Some(FinishReason::Recitation)
    } else if str_eq(t, "OTHER") {
        Some(FinishReason::Other)
    } else {
        None
    }
}

/// A harm category in a chat safety rating.
#[derive(Clone, Copy, Debug, PartialEq, Eq, Structural)]
pub enum HarmCategory {
    Harassment,
    HateSpeech,
    SexuallyExplicit,
    DangerousContent,
}

/// The harm category a wire tag names.
pub open spec fn harm_category_of(t: Seq<char>) -> Option<HarmCategory> {
    if t == "HARASSMENT"@ {
        Some(HarmCategory::Harassment)
    } else if t == "HATE_SPEECH"@ {
        Some(HarmCategory::HateSpeech)
    } else if t == "SEXUALLY_EXPLICIT"@ {
        Some(HarmCategory::SexuallyExplicit)
    } else if t == "DANGEROUS_CONTENT"@ {
        Some(HarmCategory::DangerousContent)
    } else {
        None
    }
}

/// Reads a harm category tag.
pub fn harm_category_from(t: &str) -> (r: Option<HarmCategory>)
    ensures
        r == harm_category_of(t@),
{
    if str_eq(t, "HARASSMENT") {
        Some(HarmCategory::Harassment)
    } else if str_eq(t, "HATE_SPEECH") {
        Some(HarmCategory::HateSpeech)
    } else if str_eq(t, "SEXUALLY_EXPLICIT") {
        Some(HarmCategory::SexuallyExplicit)
    } else if str_eq(t, "DANGEROUS_CONTENT") {
        Some(HarmCategory::DangerousContent)
    } else {
        None
    }
}

/// A harm probability in a chat safety rating.
#[derive(Clone, Copy, Debug, PartialEq, Eq, Structural)]
pub enum HarmProbability {
    Negligible,
    Low,
    Medium,
    High,
}

/// The harm probability a wire tag names.
pub open spec fn harm_probability_of(t: Seq<char>) -> Option<HarmProbability> {
    if t == "NEGLIGIBLE"@ {
        Some(HarmProbability::Negligible)
    } else if t == "LOW"@ {
        Some(HarmProbability::Low)
    } else if t == "MEDIUM"@ {
        Some(HarmProbability::Medium)
    } else if t == "HIGH"@ {
        Some(HarmProbability::High)
    } else {
        None
    }
}

/// Reads a harm probability tag.
pub fn harm_probability_from(t: &str) -> (r: Option<HarmProbability>)
    ensures
        r == harm_probability_of(t@),
{
    if str_eq(t, "NEGLIGIBLE") {
        Some(HarmProbability::Negligible)
    } else if str_eq(t, "LOW") {
        Some(HarmProbability::Low)
    } else if str_eq(t, "MEDIUM") {
        Some(HarmProbability::Medium)
    } else if str_eq(t, "HIGH") {
        Some(HarmProbability::High)
    } else {
        None
    }
}

/// One text part of a chat candidate.
#[derive(Clone, Debug, PartialEq)]
pub struct Part {
    pub text: String,
}

/// The content of a chat candidate: its text parts.
#[derive(Clone, Debug, PartialEq)]
pub struct Content {
    pub parts: Vec<Part>,
}

/// One chat safety rating; every field is required.
#[derive(Clone, Copy, Debug, PartialEq, Eq, Structural)]
pub struct SafetyRating {
    pub category: HarmCategory,
    pub probability: HarmProbability,
    pub blocked: bool,
}

/// One chat citation; every field is required.
#[derive(Clone, Debug, PartialEq)]
pub struct Citation {
    pub start_index: u32,
    pub end_index: u32,
    pub uri: String,
    pub title: String,
    pub license: String,
}

/// The citations of a chat candidate.
#[derive(Clone, Debug, PartialEq)]
pub struct CitationMetadata {
    pub citations: Vec<Citation>,
}

/// One token with its log probability, kept as its exact lexeme.
#[derive(Clone, Debug, PartialEq)]
pub struct TokenProbability {
    pub token: String,
    pub log_probability: String,
}

/// The alternatives considered at one position.
#[derive(Clone, Debug, PartialEq)]
pub struct TopCandidate {
    pub candidates: Vec<TokenProbability>,
}

/// One chosen token with its log probability.
#[derive(Clone, Debug, PartialEq)]
pub struct ChosenCandidate {
    pub token: String,
    pub log_probability: String,
}

/// The log-probability report of a chat candidate.
#[derive(Clone, Debug, PartialEq)]
pub struct LogprobsResult {
    pub top_candidates: Vec<TopCandidate>,
    pub chosen_candidates: Vec<ChosenCandidate>,
}

/// Token counts for one chat exchange; every field is required.
#[derive(Clone, Copy, Debug, PartialEq, Eq, Structural)]
pub struct UsageMetadata {
    pub prompt_token_count: u32,
    pub candidates_token_count: u32,
    pub total_token_count: u32,
}

/// One chat candidate.
#[derive(Clone, Debug, PartialEq)]
pub struct Candidate {
    pub content: Content,
    pub finish_reason: Option<FinishReason>,
    pub safety_ratings: Option<Vec<SafetyRating>>,
    pub citation_metadata: Option<CitationMetadata>,
    pub avg_logprobs: Option<String>,
    pub logprobs_result: Option<LogprobsResult>,
}

/// The success object of the chat variant.
#[derive(Clone, Debug, PartialEq)]
pub struct GeminiChatResponse {
    pub candidates: Option<Vec<Candidate>>,
    pub usage_metadata: Option<UsageMetadata>,
    pub model_version: Option<String>,
}

// ---------------------------------------------------------------------
// Shapes
// ---------------------------------------------------------------------

/// The shape of a chat citation.
pub struct CitationView {
    pub start_index: u32,
    pub end_index: u32,
    pub uri: Seq<char>,
    pub title: Seq<char>,
    pub license: Seq<char>,
}

/// The shape of a token probability.
pub struct TokenProbabilityView {
    pub token: Seq<char>,
    pub log_probability: Seq<char>,
}

/// The shape of the log-probability report.
pub struct LogprobsResultView {
    pub top_candidates: Seq<Seq<TokenProbabilityView>>,
    pub chosen_candidates: Seq<TokenProbabilityView>,
}

/// The shape of a chat candidate.
pub struct CandidateView {
    pub content: Seq<Seq<char>>,
    pub finish_reason: Option<FinishReason>,
    pub safety_ratings: Option<Seq<SafetyRating>>,
    pub citation_metadata: Option<Seq<CitationView>>,
    pub avg_logprobs: Option<Seq<char>>,
    pub logprobs_result: Option<LogprobsResultView>,
}

/// The shape of a chat response.
pub struct ChatResponseView {
    pub candidates: Option<Seq<CandidateView>>,
    pub usage_metadata: Option<UsageMetadata>,
    pub model_version: Option<Seq<char>>,
}

/// The shape of a citation value.
pub open spec fn citation_view(x: Citation) -> CitationView {
    CitationView {
        start_index: x.start_index,
        end_index: x.end_index,
        uri: x.uri@,
        title: x.title@,
        license: x.license@,
    }
}

/// The shapes of a vector of citations.
pub open spec fn citations_views(v: Seq<Citation>) -> Seq<CitationView> {
    Seq::new(v.len(), |i: int| citation_view(v[i]))
}

/// The shape of a token probability value.
pub open spec fn tokprob_view_of(token: Seq<char>, lp: Seq<char>) -> TokenProbabilityView {
    TokenProbabilityView { token: token, log_probability: lp }
}

/// The shapes of a vector of token probabilities.
pub open spec fn tokprobs_views(v: Seq<TokenProbability>) -> Seq<TokenProbabilityView> {
    Seq::new(v.len(), |i: int| tokprob_view_of(v[i].token@, v[i].log_probability@))
}

/// The shapes of a vector of chosen candidates.
pub open spec fn chosen_views(v: Seq<ChosenCandidate>) -> Seq<TokenProbabilityView> {
    Seq::new(v.len(), |i: int| tokprob_view_of(v[i].token@, v[i].log_probability@))
}

/// The shapes of a vector of top candidates.
pub open spec fn tops_views(v: Seq<TopCandidate>) -> Seq<Seq<TokenProbabilityView>> {
    Seq::new(v.len(), |i: int| tokprobs_views(v[i].candidates@))
}

/// The shape of the log-probability report.
pub open spec fn logprobs_view(x: LogprobsResult) -> LogprobsResultView {
    LogprobsResultView {
        top_candidates: tops_views(x.top_candidates@),
        chosen_candidates: chosen_views(x.chosen_candidates@),
    }
}

/// The shape of a content value: its part texts.
pub open spec fn content_texts(x: Content) -> Seq<Seq<char>> {
    Seq::new(x.parts@.len(), |i: int| x.parts@[i].text@)
}

/// The shape of a candidate value.
pub open spec fn candidate_view(x: Candidate) -> CandidateView {
    CandidateView {
        content: content_texts(x.content),
        finish_reason: x.finish_reason,
        safety_ratings: match x.safety_ratings {
            Some(v) => Some(v@),
            None => None,
        },
        citation_metadata: match x.citation_metadata {
            Some(m) => Some(citations_views(m.citations@)),
            None => None,
        },
        avg_logprobs: view_opt_string(x.avg_logprobs),
        logprobs_result: match x.logprobs_result {
            Some(l) => Some(logprobs_view(l)),
            None => None,
        },
    }
}

/// The shapes of a vector of candidates.
pub open spec fn candidates_views(v: Seq<Candidate>) -> Seq<CandidateView> {
    Seq::new(v.len(), |i: int| candidate_view(v[i]))
}

/// The shape of a chat response value.
pub open spec fn chat_response_view(x: GeminiChatResponse) -> ChatResponseView {
    ChatResponseView {
        candidates: match x.candidates {
            Some(v) => Some(candidates_views(v@)),
            None => None,
        },
        usage_metadata: x.usage_metadata,
        model_version: view_opt_string(x.model_version),
    }
}

// ---------------------------------------------------------------------
// Strict decoding
// ---------------------------------------------------------------------

/// Decodes one text part.
pub open spec fn decode_part(j: JsonView) -> Option<Seq<char>> {
    match j {
        JsonView::Obj(fs) => req_text_field(fs, "text"@),
        _ => None,
    }
}

/// Decodes the text parts from `i` on.
pub open spec fn decode_parts_from(es: Seq<JsonView>, i: int) -> Option<Seq<Seq<char>>>
    decreases es.len() - i,
{
    if !(0 <= i < es.len()) {
        Some(Seq::empty())
    } else {
        match (decode_part(es[i]), decode_parts_from(es, i + 1)) {
            (Some(p), Some(ps)) => Some(seq![p] + ps),
            _ => None,
        }
    }
}

/// Decodes a chat content turn: a required `parts` array.
pub open spec fn decode_content(j: JsonView) -> Option<Seq<Seq<char>>> {
    match j {
        JsonView::Obj(fs) => match get_field(fs, "parts"@) {
            Some(JsonView::Arr(es)) => decode_parts_from(es, 0),
            _ => None,
        },
        _ => None,
    }
}

/// Decodes one chat safety rating; every field is required.
pub open spec fn decode_rating(j: JsonView) -> Option<SafetyRating> {
    match j {
        JsonView::Obj(fs) => {
            let b = match get_field(fs, "blocked"@) {
                Some(JsonView::Bool(v)) => Some(v),
                _ => None,
            };
            match (req_text_field(fs, "category"@), req_text_field(fs, "probability"@), b) {
                (Some(ct), Some(pt), Some(bv)) => match (
                    harm_category_of(ct),
                    harm_probability_of(pt),
                ) {
                    (Some(c), Some(p)) => Some(
                        SafetyRating { category: c, probability: p, blocked: bv },
                    ),
                    _ => None,
                },
                _ => None,
            }
        },
        _ => None,
    }
}

/// Decodes the chat safety ratings from `i` on.
pub open spec fn decode_ratings_from(es: Seq<JsonView>, i: int) -> Option<Seq<SafetyRating>>
    decreases es.len() - i,
{
    if !(0 <= i < es.len()) {
        Some(Seq::empty())
    } else {
        match (decode_rating(es[i]), decode_ratings_from(es, i + 1)) {
            (Some(p), Some(ps)) => Some(seq![p] + ps),
            _ => None,
        }
    }
}

/// Decodes one chat citation; every field is required.
pub open spec fn decode_citation(j: JsonView) -> Option<CitationView> {
    match j {
        JsonView::Obj(fs) => match (
            req_u32_field(fs, "startIndex"@),
            req_u32_field(fs, "endIndex"@),
            req_text_field(fs, "uri"@),
            req_text_field(fs, "title"@),
            req_text_field(fs, "license"@),
        ) {
            (Some(si), Some(ei), Some(u), Some(t), Some(l)) => Some(
                CitationView { start_index: si, end_index: ei, uri: u, title: t, license: l },
            ),
            _ => None,
        },
        _ => None,
    }
}

/// Decodes the chat citations from `i` on.
pub open spec fn decode_citations_from(es: Seq<JsonView>, i: int) -> Option<Seq<CitationView>>
    decreases es.len() - i,
{
    if !(0 <= i < es.len()) {
        Some(Seq::empty())
    } else {
        match (decode_citation(es[i]), decode_citations_from(es, i + 1)) {
            (Some(p), Some(ps)) => Some(seq![p] + ps),
            _ => None,
        }
    }
}

/// Decodes one token probability; both fields required, the number
/// kept as its lexeme.
pub open spec fn decode_tokprob(j: JsonView) -> Option<TokenProbabilityView> {
    match j {
        JsonView::Obj(fs) => {
            let lp = match get_field(fs, "logProbability"@) {
                Some(JsonView::Num(t)) => Some(t),
                _ => None,
            };
            match (req_text_field(fs, "token"@), lp) {
                (Some(t), Some(l)) => Some(tokprob_view_of(t, l)),
                _ => None,
            }
        },
        _ => None,
    }
}

/// Decodes token probabilities from `i` on.
pub open spec fn decode_tokprobs_from(es: Seq<JsonView>, i: int) -> Option<
    Seq<TokenProbabilityView>,
>
    decreases es.len() - i,
{
    if !(0 <= i < es.len()) {
        Some(Seq::empty())
    } else {
        match (decode_tokprob(es[i]), decode_tokprobs_from(es, i + 1)) {
            (Some(p), Some(ps)) => Some(seq![p] + ps),
            _ => None,
        }
    }
}

/// Decodes one top-candidate entry: a required `candidates` array.
pub open spec fn decode_top(j: JsonView) -> Option<Seq<TokenProbabilityView>> {
    match j {
        JsonView::Obj(fs) => match get_field(fs, "candidates"@) {
            Some(JsonView::Arr(es)) => decode_tokprobs_from(es, 0),
            _ => None,
        },
        _ => None,
    }
}

/// Decodes top-candidate entries from `i` on.
pub open spec fn decode_tops_from(es: Seq<JsonView>, i: int) -> Option<
    Seq<Seq<TokenProbabilityView>>,
>
    decreases es.len() - i,
{
    if !(0 <= i < es.len()) {
        Some(Seq::empty())
    } else {
        match (decode_top(es[i]), decode_tops_from(es, i + 1)) {
            (Some(p), Some(ps)) => Some(seq![p] + ps),
            _ => None,
        }
    }
}

/// Decodes the log-probability report: both arrays required.
pub open spec fn decode_logprobs(j: JsonView) -> Option<LogprobsResultView> {
    match j {
        JsonView::Obj(fs) => match (get_field(fs, "topCandidates"@), get_field(
            fs,
            "chosenCandidates"@,
        )) {
            (Some(JsonView::Arr(ts)), Some(JsonView::Arr(cs))) => match (
                decode_tops_from(ts, 0),
                decode_tokprobs_from(cs, 0),
            ) {
                (Some(t), Some(c)) => Some(
                    LogprobsResultView { top_candidates: t, chosen_candidates: c },
                ),
                _ => None,
            },
            _ => None,
        },
        _ => None,
    }
}

/// Decodes chat usage metadata; every count is required.
pub open spec fn decode_usage(j: JsonView) -> Option<UsageMetadata> {
    match j {
        JsonView::Obj(fs) => match (
            req_u32_field(fs, "promptTokenCount"@),
            req_u32_field(fs, "candidatesTokenCount"@),
            req_u32_field(fs, "totalTokenCount"@),
        ) {
            (Some(p), Some(c), Some(t)) => Some(
                UsageMetadata {
                    prompt_token_count: p,
                    candidates_token_count: c,
                    total_token_count: t,
                },
            ),
            _ => None,
        },
        _ => None,
    }
}

/// Decodes one chat candidate: a required `content`, the rest
/// optional.
pub open spec fn decode_candidate(j: JsonView) -> Option<CandidateView> {
    match j {
        JsonView::Obj(fs) => {
            let content = match get_field(fs, "content"@) {
                Some(c) => decode_content(c),
                None => None,
            };
            let ratings = match get_field(fs, "safetyRatings"@) {
                None => Some(None),
                Some(JsonView::Null) => Some(None),
                Some(JsonView::Arr(es)) => match decode_ratings_from(es, 0) {
                    Some(rs) => Some(Some(rs)),
                    None => None,
                },
                Some(_) => None,
            };
            let cm = match get_field(fs, "citationMetadata"@) {
                None => Some(None),
                Some(JsonView::Null) => Some(None),
                Some(JsonView::Obj(ms)) => match get_field(ms, "citations"@) {
                    Some(JsonView::Arr(es)) => match decode_citations_from(es, 0) {
                        Some(cs) => Some(Some(cs)),
                        None => None,
                    },
                    _ => None,
                },
                Some(_) => None,
            };
            let lp = match get_field(fs, "logprobsResult"@) {
                None => Some(None),
                Some(JsonView::Null) => Some(None),
                Some(l) => match decode_logprobs(l) {
                    Some(v) => Some(Some(v)),
                    None => None,
                },
            };
            match (
                content,
                lift_tag(opt_text_field(fs, "finishReason"@), |t: Seq<char>| finish_reason_of(t)),
                ratings,
                cm,
                opt_num_field(fs, "avgLogprobs"@),
                lp,
            ) {
                (Some(c), Some(fr), Some(r), Some(m), Some(al), Some(l)) => Some(
                    CandidateView {
                        content: c,
                        finish_reason: fr,
                        safety_ratings: r,
                        citation_metadata: m,
                        avg_logprobs: al,
                        logprobs_result: l,
                    },
                ),
                _ => None,
            }
        },
        _ => None,
    }
}

/// Decodes the chat candidates from `i` on.
pub open spec fn decode_candidates_from(es: Seq<JsonView>, i: int) -> Option<Seq<CandidateView>>
    decreases es.len() - i,
{
    if !(0 <= i < es.len()) {
        Some(Seq::empty())
    } else {
        match (decode_candidate(es[i]), decode_candidates_from(es, i + 1)) {
            (Some(p), Some(ps)) => Some(seq![p] + ps),
            _ => None,
        }
    }
}

/// Decodes the chat success object: every top-level field optional.
pub open spec fn decode_chat_response(j: JsonView) -> Option<ChatResponseView> {
    match j {
        JsonView::Obj(fs) => {
            let cands = match get_field(fs, "candidates"@) {
                None => Some(None),
                Some(JsonView::Null) => Some(None),
                Some(JsonView::Arr(es)) => match decode_candidates_from(es, 0) {
                    Some(cs) => Some(Some(cs)),
                    None => None,
                },
                Some(_) => None,
            };
            let um = match get_field(fs, "usageMetadata"@) {
                None => Some(None),
                Some(JsonView::Null) => Some(None),
                Some(u) => match decode_usage(u) {
                    Some(v) => Some(Some(v)),
                    None => None,
                },
            };
            match (cands, um, opt_text_field(fs, "modelVersion"@)) {
                (Some(c), Some(u), Some(mv)) => Some(
                    ChatResponseView { candidates: c, usage_metadata: u, model_version: mv },
                ),
                _ => None,
            }
        },
        _ => None,
    }
}

// ---------------------------------------------------------------------
// Executable decoders
// ---------------------------------------------------------------------

/// Decodes one text part, as `decode_part` describes.
fn decode_part_x(j: &Json) -> (r: Option<Part>)
    ensures
        r matches Some(x) ==> decode_part(jview(*j)) == Some(x.text@),
        r is None ==> decode_part(jview(*j)) is None,
{
    match j {
        Json::Obj(fs) => match req_text_field_x(fs, "text") {
            Some(t) => Some(Part { text: t }),
            None => None,
        },
        _ => None,
    }
}

/// Decodes an array of text parts, as `decode_parts_from` describes.
fn decode_parts_x(es: &Vec<Json>) -> (r: Option<Vec<Part>>)
    ensures
        r matches Some(v) ==> decode_parts_from(jview_seq(es@), 0) == Some(
            Seq::new(v@.len(), |i: int| v@[i].text@),
        ),
        r is None ==> decode_parts_from(jview_seq(es@), 0) is None,
{
    let ghost esv = jview_seq(es@);
    proof {
        crate::json::lemma_jview_seq_len(es@);
    }
    let mut out: Vec<Part> = Vec::new();
    let mut i: usize = 0;
    while i < es.len()
        invariant
            0 <= i <= es@.len(),
            esv == jview_seq(es@),
            esv.len() == es@.len(),
            match decode_parts_from(esv, i as int) {
                Some(tail) => decode_parts_from(esv, 0) == Some(
                    Seq::new(out@.len(), |k: int| out@[k].text@) + tail,
                ),
                None => decode_parts_from(esv, 0) is None,
            },
        decreases es@.len() - i,
    {
        proof {
            lemma_jview_seq_index(es@, i as int);
        }
        match decode_part_x(&es[i]) {
            Some(x) => {
                let ghost old_out = out@;
                let ghost gx = x;
                out.push(x);
                proof {
                    assert(Seq::new(out@.len(), |k: int| out@[k].text@) =~= Seq::new(
                        old_out.len(),
                        |k: int| old_out[k].text@,
                    ).push(gx.text@));
                    if let Some(tail2) = decode_parts_from(esv, i + 1) {
                        assert(decode_parts_from(esv, i as int) == Some(seq![gx.text@] + tail2));
                        assert(Seq::new(old_out.len(), |k: int| old_out[k].text@) + (seq![gx.text@]
                            + tail2) =~= Seq::new(out@.len(), |k: int| out@[k].text@) + tail2);
                    }
                }
            },
            None => {
                return None;
            },
        }
        i = i + 1;
    }
    proof {
        assert(Seq::new(out@.len(), |k: int| out@[k].text@) + Seq::<Seq<char>>::empty()
            =~= Seq::new(out@.len(), |k: int| out@[k].text@));
    }
    Some(out)
}

/// Decodes a chat content turn, as `decode_content` describes.
fn decode_content_x(j: &Json) -> (r: Option<Content>)
    ensures
        r matches Some(x) ==> decode_content(jview(*j)) == Some(content_texts(x)),
        r is None ==> decode_content(jview(*j)) is None,
{
    match j {
        Json::Obj(fs) => match get_field_x(fs, "parts") {
            Some(Json::Arr(es)) => match decode_parts_x(es) {
                Some(ps) => Some(Content { parts: ps }),
                None => None,
            },
            _ => None,
        },
        _ => None,
    }
}

/// Decodes one chat safety rating, as `decode_rating` describes.
fn decode_rating_x(j: &Json) -> (r: Option<SafetyRating>)
    ensures
        r == decode_rating(jview(*j)),
{
    match j {
        Json::Obj(fs) => {
            let blocked = match get_field_x(fs, "blocked") {
                Some(Json::Bool(v)) => *v,
                _ => {
                    return None;
                },
            };
            let ct = match req_text_field_x(fs, "category") {
                Some(t) => t,
                None => {
                    return None;
                },
            };
            let pt = match req_text_field_x(fs, "probability") {
                Some(t) => t,
                None => {
                    return None;
                },
            };
            match (harm_category_from(ct.as_str()), harm_probability_from(pt.as_str())) {
                (Some(c), Some(p)) => Some(SafetyRating { category: c, probability: p, blocked }),
                _ => None,
            }
        },
        _ => None,
    }
}

/// Decodes an array of chat safety ratings, as `decode_ratings_from`
/// describes.
fn decode_ratings_x(es: &Vec<Json>) -> (r: Option<Vec<SafetyRating>>)
    ensures
        r matches Some(v) ==> decode_ratings_from(jview_seq(es@), 0) == Some(v@),
        r is None ==> decode_ratings_from(jview_seq(es@), 0) is None,
{
    let ghost esv = jview_seq(es@);
    proof {
        crate::json::lemma_jview_seq_len(es@);
    }
    let mut out: Vec<SafetyRating> = Vec::new();
    let mut i: usize = 0;
    while i < es.len()
        invariant
            0 <= i <= es@.len(),
            esv == jview_seq(es@),
            esv.len() == es@.len(),
            match decode_ratings_from(esv, i as int) {
                Some(tail) => decode_ratings_from(esv, 0) == Some(out@ + tail),
                None => decode_ratings_from(esv, 0) is None,
            },
        decreases es@.len() - i,
    {
        proof {
            lemma_jview_seq_index(es@, i as int);
        }
        match decode_rating_x(&es[i]) {
            Some(x) => {
                let ghost old_out = out@;
                let ghost gx = x;
                out.push(x);
                proof {
                    if let Some(tail2) = decode_ratings_from(esv, i + 1) {
                        assert(decode_ratings_from(esv, i as int) == Some(seq![gx] + tail2));
                        assert(old_out + (seq![gx] + tail2) =~= out@ + tail2);
                    }
                }
            },
            None => {
                return None;
            },
        }
        i = i + 1;
    }
    proof {
        assert(out@ + Seq::<SafetyRating>::empty() =~= out@);
    }
    Some(out)
}

/// Decodes one chat citation, as `decode_citation` describes.
fn decode_citation_x(j: &Json) -> (r: Option<Citation>)
    ensures
        r matches Some(x) ==> decode_citation(jview(*j)) == Some(citation_view(x)),
        r is None ==> decode_citation(jview(*j)) is None,
{
    match j {
        Json::Obj(fs) => {
            match (
                req_u32_field_x(fs, "startIndex"),
                req_u32_field_x(fs, "endIndex"),
                req_text_field_x(fs, "uri"),
                req_text_field_x(fs, "title"),
                req_text_field_x(fs, "license"),
            ) {
                (Some(si), Some(ei), Some(u), Some(t), Some(l)) => Some(
                    Citation { start_index: si, end_index: ei, uri: u, title: t, license: l },
                ),
                _ => None,
            }
        },
        _ => None,
    }
}

/// Decodes an array of chat citations, as `decode_citations_from`
/// describes.
fn decode_citations_x(es: &Vec<Json>) -> (r: Option<Vec<Citation>>)
    ensures
        r matches Some(v) ==> decode_citations_from(jview_seq(es@), 0) == Some(
            citations_views(v@),
        ),
        r is None ==> decode_citations_from(jview_seq(es@), 0) is None,
{
    let ghost esv = jview_seq(es@);
    proof {
        crate::json::lemma_jview_seq_len(es@);
    }
    let mut out: Vec<Citation> = Vec::new();
    let mut i: usize = 0;
    while i < es.len()
        invariant
            0 <= i <= es@.len(),
            esv == jview_seq(es@),
            esv.len() == es@.len(),
            match decode_citations_from(esv, i as int) {
                Some(tail) => decode_citations_from(esv, 0) == Some(citations_views(out@) + tail),
                None => decode_citations_from(esv, 0) is None,
            },
        decreases es@.len() - i,
    {
        proof {
            lemma_jview_seq_index(es@, i as int);
        }
        match decode_citation_x(&es[i]) {
            Some(x) => {
                let ghost old_out = out@;
                let ghost gx = x;
                out.push(x);
                proof {
                    assert(citations_views(out@) =~= citations_views(old_out).push(
                        citation_view(gx),
                    ));
                    if let Some(tail2) = decode_citations_from(esv, i + 1) {
                        assert(decode_citations_from(esv, i as int) == Some(
                            seq![citation_view(gx)] + tail2,
                        ));
                        assert(citations_views(old_out) + (seq![citation_view(gx)] + tail2)
                            =~= citations_views(out@) + tail2);
                    }
                }
            },
            None => {
                return None;
            },
        }
        i = i + 1;
    }
    proof {
        assert(citations_views(out@) + Seq::<CitationView>::empty() =~= citations_views(out@));
    }
    Some(out)
}

/// Decodes one token probability, as `decode_tokprob` describes.
fn decode_tokprob_x(j: &Json) -> (r: Option<TokenProbability>)
    ensures
        r matches Some(x) ==> decode_tokprob(jview(*j)) == Some(
            tokprob_view_of(x.token@, x.log_probability@),
        ),
        r is None ==> decode_tokprob(jview(*j)) is None,
{
    match j {
        Json::Obj(fs) => {
            let lp = match get_field_x(fs, "logProbability") {
                Some(Json::Num(t)) => {
                    let cs = crate::text::str_to_chars(t.as_str());
                    crate::text::chars_to_string(&cs)
                },
                _ => {
                    return None;
                },
            };
            match req_text_field_x(fs, "token") {
                Some(t) => Some(TokenProbability { token: t, log_probability: lp }),
                None => None,
            }
        },
        _ => None,
    }
}

/// Decodes an array of token probabilities, as `decode_tokprobs_from`
/// describes.
fn decode_tokprobs_x(es: &Vec<Json>) -> (r: Option<Vec<TokenProbability>>)
    ensures
        r matches Some(v) ==> decode_tokprobs_from(jview_seq(es@), 0) == Some(tokprobs_views(v@)),
        r is None ==> decode_tokprobs_from(jview_seq(es@), 0) is None,
{
    let ghost esv = jview_seq(es@);
    proof {
        crate::json::lemma_jview_seq_len(es@);
    }
    let mut out: Vec<TokenProbability> = Vec::new();
    let mut i: usize = 0;
    while i < es.len()
        invariant
            0 <= i <= es@.len(),
            esv == jview_seq(es@),
            esv.len() == es@.len(),
            match decode_tokprobs_from(esv, i as int) {
                Some(tail) => decode_tokprobs_from(esv, 0) == Some(tokprobs_views(out@) + tail),
                None => decode_tokprobs_from(esv, 0) is None,
            },
        decreases es@.len() - i,
    {
        proof {
            lemma_jview_seq_index(es@, i as int);
        }
        match decode_tokprob_x(&es[i]) {
            Some(x) => {
                let ghost old_out = out@;
                let ghost gx = x;
                out.push(x);
                proof {
                    assert(tokprobs_views(out@) =~= tokprobs_views(old_out).push(
                        tokprob_view_of(gx.token@, gx.log_probability@),
                    ));
                    if let Some(tail2) = decode_tokprobs_from(esv, i + 1) {
                        assert(decode_tokprobs_from(esv, i as int) == Some(
                            seq![tokprob_view_of(gx.token@, gx.log_probability@)] + tail2,
                        ));
                        assert(tokprobs_views(old_out) + (seq![
                            tokprob_view_of(gx.token@, gx.log_probability@),
                        ] + tail2) =~= tokprobs_views(out@) + tail2);
                    }
                }
            },
            None => {
                return None;
            },
        }
        i = i + 1;
    }
    proof {
        assert(tokprobs_views(out@) + Seq::<TokenProbabilityView>::empty() =~= tokprobs_views(
            out@,
        ));
    }
    Some(out)
}

/// Decodes an array of chosen candidates; the wire shape is that of a
/// token probability.
fn decode_chosen_x(es: &Vec<Json>) -> (r: Option<Vec<ChosenCandidate>>)
    ensures
        r matches Some(v) ==> decode_tokprobs_from(jview_seq(es@), 0) == Some(chosen_views(v@)),
        r is None ==> decode_tokprobs_from(jview_seq(es@), 0) is None,
{
    let ghost esv = jview_seq(es@);
    proof {
        crate::json::lemma_jview_seq_len(es@);
    }
    let mut out: Vec<ChosenCandidate> = Vec::new();
    let mut i: usize = 0;
    while i < es.len()
        invariant
            0 <= i <= es@.len(),
            esv == jview_seq(es@),
            esv.len() == es@.len(),
            match decode_tokprobs_from(esv, i as int) {
                Some(tail) => decode_tokprobs_from(esv, 0) == Some(chosen_views(out@) + tail),
                None => decode_tokprobs_from(esv, 0) is None,
            },
        decreases es@.len() - i,
    {
        proof {
            lemma_jview_seq_index(es@, i as int);
        }
        match decode_tokprob_x(&es[i]) {
            Some(x) => {
                let ghost old_out = out@;
                let c = ChosenCandidate { token: x.token, log_probability: x.log_probability };
                let ghost gc = c;
                out.push(c);
                proof {
                    assert(chosen_views(out@) =~= chosen_views(old_out).push(
                        tokprob_view_of(gc.token@, gc.log_probability@),
                    ));
                    if let Some(tail2) = decode_tokprobs_from(esv, i + 1) {
                        assert(decode_tokprobs_from(esv, i as int) == Some(
                            seq![tokprob_view_of(gc.token@, gc.log_probability@)] + tail2,
                        ));
                        assert(chosen_views(old_out) + (seq![
                            tokprob_view_of(gc.token@, gc.log_probability@),
                        ] + tail2) =~= chosen_views(out@) + tail2);
                    }
                }
            },
            None => {
                return None;
            },
        }
        i = i + 1;
    }
    proof {
        assert(chosen_views(out@) + Seq::<TokenProbabilityView>::empty() =~= chosen_views(out@));
    }
    Some(out)
}

/// Decodes one top-candidate entry, as `decode_top` describes.
fn decode_top_x(j: &Json) -> (r: Option<TopCandidate>)
    ensures
        r matches Some(x) ==> decode_top(jview(*j)) == Some(tokprobs_views(x.candidates@)),
        r is None ==> decode_top(jview(*j)) is None,
{
    match j {
        Json::Obj(fs) => match get_field_x(fs, "candidates") {
            Some(Json::Arr(es)) => match decode_tokprobs_x(es) {
                Some(cs) => Some(TopCandidate { candidates: cs }),
                None => None,
            },
            _ => None,
        },
        _ => None,
    }
}

/// Decodes an array of top-candidate entries, as `decode_tops_from`
/// describes.
fn decode_tops_x(es: &Vec<Json>) -> (r: Option<Vec<TopCandidate>>)
    ensures
        r matches Some(v) ==> decode_tops_from(jview_seq(es@), 0) == Some(tops_views(v@)),
        r is None ==> decode_tops_from(jview_seq(es@), 0) is None,
{
    let ghost esv = jview_seq(es@);
    proof {
        crate::json::lemma_jview_seq_len(es@);
    }
    let mut out: Vec<TopCandidate> = Vec::new();
    let mut i: usize = 0;
    while i < es.len()
        invariant
            0 <= i <= es@.len(),
            esv == jview_seq(es@),
            esv.len() == es@.len(),
            match decode_tops_from(esv, i as int) {
                Some(tail) => decode_tops_from(esv, 0) == Some(tops_views(out@) + tail),
                None => decode_tops_from(esv, 0) is None,
            },
        decreases es@.len() - i,
    {
        proof {
            lemma_jview_seq_index(es@, i as int);
        }
        match decode_top_x(&es[i]) {
            Some(x) => {
                let ghost old_out = out@;
                let ghost gx = x;
                out.push(x);
                proof {
                    assert(tops_views(out@) =~= tops_views(old_out).push(
                        tokprobs_views(gx.candidates@),
                    ));
                    if let Some(tail2) = decode_tops_from(esv, i + 1) {
                        assert(decode_tops_from(esv, i as int) == Some(
                            seq![tokprobs_views(gx.candidates@)] + tail2,
                        ));
                        assert(tops_views(old_out) + (seq![tokprobs_views(gx.candidates@)] + tail2)
                            =~= tops_views(out@) + tail2);
                    }
                }
            },
            None => {
                return None;
            },
        }
        i = i + 1;
    }
    proof {
        assert(tops_views(out@) + Seq::<Seq<TokenProbabilityView>>::empty() =~= tops_views(out@));
    }
    Some(out)
}

/// Decodes the log-probability report, as `decode_logprobs` describes.
fn decode_logprobs_x(j: &Json) -> (r: Option<LogprobsResult>)
    ensures
        r matches Some(x) ==> decode_logprobs(jview(*j)) == Some(logprobs_view(x)),
        r is None ==> decode_logprobs(jview(*j)) is None,
{
    match j {
        Json::Obj(fs) => match (get_field_x(fs, "topCandidates"), get_field_x(
            fs,
            "chosenCandidates",
        )) {
            (Some(Json::Arr(ts)), Some(Json::Arr(cs))) => match (
                decode_tops_x(ts),
                decode_chosen_x(cs),
            ) {
                (Some(t), Some(c)) => Some(
                    LogprobsResult { top_candidates: t, chosen_candidates: c },
                ),
                _ => None,
            },
            _ => None,
        },
        _ => None,
    }
}

/// Decodes chat usage metadata, as `decode_usage` describes.
pub fn decode_usage_x(j: &Json) -> (r: Option<UsageMetadata>)
    ensures
        r == decode_usage(jview(*j)),
{
    match j {
        Json::Obj(fs) => {
            match (
                req_u32_field_x(fs, "promptTokenCount"),
                req_u32_field_x(fs, "candidatesTokenCount"),
                req_u32_field_x(fs, "totalTokenCount"),
            ) {
                (Some(p), Some(c), Some(t)) => Some(
                    UsageMetadata {
                        prompt_token_count: p,
                        candidates_token_count: c,
                        total_token_count: t,
                    },
                ),
                _ => None,
            }
        },
        _ => None,
    }
}

/// Decodes one chat candidate, as `decode_candidate` describes.
pub fn decode_candidate_x(j: &Json) -> (r: Option<Candidate>)
    ensures
        r matches Some(x) ==> decode_candidate(jview(*j)) == Some(candidate_view(x)),
        r is None ==> decode_candidate(jview(*j)) is None,
{
    match j {
        Json::Obj(fs) => {
            let content = match get_field_x(fs, "content") {
                Some(c) => match decode_content_x(c) {
                    Some(v) => v,
                    None => {
                        return None;
                    },
                },
                None => {
                    return None;
                },
            };
            let finish_reason: Option<FinishReason> = match opt_text_field_x(fs, "finishReason") {
                None => {
                    return None;
                },
                Some(None) => None,
                Some(Some(t)) => match finish_reason_from(t.as_str()) {
                    Some(v) => Some(v),
                    None => {
                        return None;
                    },
                },
            };
            let safety_ratings: Option<Vec<SafetyRating>> = match get_field_x(
                fs,
                "safetyRatings",
            ) {
                None => None,
                Some(Json::Null) => None,
                Some(Json::Arr(es)) => match decode_ratings_x(es) {
                    Some(rs) => Some(rs),
                    None => {
                        return None;
                    },
                },
                Some(_) => {
                    return None;
                },
            };
            let citation_metadata: Option<CitationMetadata> = match get_field_x(
                fs,
                "citationMetadata",
            ) {
                None => None,
                Some(Json::Null) => None,
                Some(Json::Obj(ms)) => match get_field_x(ms, "citations") {
                    Some(Json::Arr(es)) => match decode_citations_x(es) {
                        Some(cs) => Some(CitationMetadata { citations: cs }),
                        None => {
                            return None;
                        },
                    },
                    _ => {
                        return None;
                    },
                },
                Some(_) => {
                    return None;
                },
            };
            let avg_logprobs = match opt_num_field_x(fs, "avgLogprobs") {
                None => {
                    return None;
                },
                Some(o) => o,
            };
            let logprobs_result: Option<LogprobsResult> = match get_field_x(
                fs,
                "logprobsResult",
            ) {
                None => None,
                Some(Json::Null) => None,
                Some(l) => match decode_logprobs_x(l) {
                    Some(v) => Some(v),
                    None => {
                        return None;
                    },
                },
            };
            Some(
                Candidate {
                    content,
                    finish_reason,
                    safety_ratings,
                    citation_metadata,
                    avg_logprobs,
                    logprobs_result,
                },
            )
        },
        _ => None,
    }
}

/// Decodes an array of chat candidates, as `decode_candidates_from`
/// describes.
fn decode_candidates_x(es: &Vec<Json>) -> (r: Option<Vec<Candidate>>)
    ensures
        r matches Some(v) ==> decode_candidates_from(jview_seq(es@), 0) == Some(
            candidates_views(v@),
        ),
        r is None ==> decode_candidates_from(jview_seq(es@), 0) is None,
{
    let ghost esv = jview_seq(es@);
    proof {
        crate::json::lemma_jview_seq_len(es@);
    }
    let mut out: Vec<Candidate> = Vec::new();
    let mut i: usize = 0;
    while i < es.len()
        invariant
            0 <= i <= es@.len(),
            esv == jview_seq(es@),
            esv.len() == es@.len(),
            match decode_candidates_from(esv, i as int) {
                Some(tail) => decode_candidates_from(esv, 0) == Some(
                    candidates_views(out@) + tail,
                ),
                None => decode_candidates_from(esv, 0) is None,
            },
        decreases es@.len() - i,
    {
        proof {
            lemma_jview_seq_index(es@, i as int);
        }
        match decode_candidate_x(&es[i]) {
            Some(x) => {
                let ghost old_out = out@;
                let ghost gx = x;
                out.push(x);
                proof {
                    assert(candidates_views(out@) =~= candidates_views(old_out).push(
                        candidate_view(gx),
                    ));
                    if let Some(tail2) = decode_candidates_from(esv, i + 1) {
                        assert(decode_candidates_from(esv, i as int) == Some(
                            seq![candidate_view(gx)] + tail2,
                        ));
                        assert(candidates_views(old_out) + (seq![candidate_view(gx)] + tail2)
                            =~= candidates_views(out@) + tail2);
                    }
                }
            },
            None => {
                return None;
            },
        }
        i = i + 1;
    }
    proof {
        assert(candidates_views(out@) + Seq::<CandidateView>::empty() =~= candidates_views(out@));
    }
    Some(out)
}

/// Decodes the chat success object, as `decode_chat_response`
/// describes.
pub fn decode_chat_response_x(j: &Json) -> (r: Option<GeminiChatResponse>)
    ensures
        r matches Some(x) ==> decode_chat_response(jview(*j)) == Some(chat_response_view(x)),
        r is None ==> decode_chat_response(jview(*j)) is None,
{
    match j {
        Json::Obj(fs) => {
            let candidates: Option<Vec<Candidate>> = match get_field_x(fs, "candidates") {
                None => None,
                Some(Json::Null) => None,
                Some(Json::Arr(es)) => match decode_candidates_x(es) {
                    Some(cs) => Some(cs),
                    None => {
                        return None;
                    },
                },
                Some(_) => {
                    return None;
                },
            };
            let usage_metadata: Option<UsageMetadata> = match get_field_x(fs, "usageMetadata") {
                None => None,
                Some(Json::Null) => None,
                Some(u) => match decode_usage_x(u) {
                    Some(v) => Some(v),
                    None => {
                        return None;
                    },
                },
            };
            let model_version = match opt_text_field_x(fs, "modelVersion") {
                None => {
                    return None;
                },
                Some(o) => o,
            };
            Some(GeminiChatResponse { candidates, usage_metadata, model_version })
        },
        _ => None,
    }
}

} // verus!
