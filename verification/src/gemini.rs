//! The text-generation service: the request that is sent to it and the reading
//! of what comes back.

use vstd::prelude::*;
use vstd::string::StringExecFns;

verus! {

/// Where the models of the service live.
pub const ENDPOINT: &'static str = "https://generativelanguage.googleapis.com/v1beta/models/";

/// The model that is asked.
pub const MODEL: &'static str = "gemini-3-flash-preview";

/// What follows the model's name in the address, up to the key.
pub const GENERATE_CONTENT: &'static str = ":generateContent?key=";

/// The sampling temperature, in hundredths.
pub const TEMPERATURE_HUNDREDTHS: u32 = 20;

/// The ceiling on the number of tokens in an answer.
pub const MAX_OUTPUT_TOKENS: u32 = 1_000_000;

/// One piece of text of a request.
#[derive(Debug, PartialEq, Eq)]
pub struct Part {
    pub text: String,
}

/// One turn of a request.
#[derive(Debug, PartialEq, Eq)]
pub struct Content {
    pub parts: Vec<Part>,
}

/// The generation parameters of a request.
#[derive(Clone, Copy, Debug, PartialEq, Eq, Structural)]
pub struct GenerationConfig {
    pub temperature_hundredths: u32,
    pub max_output_tokens: u32,
}

/// The body of a request to the service.
#[derive(Debug, PartialEq, Eq)]
pub struct GeminiRequest {
    pub contents: Vec<Content>,
    pub generation_config: GenerationConfig,
}

/// One piece of text of an answer.
#[derive(Debug, PartialEq, Eq)]
pub struct CandidatePart {
    pub text: String,
}

/// The content of one candidate.
#[derive(Debug, PartialEq, Eq)]
pub struct CandidateContent {
    pub parts: Vec<CandidatePart>,
}

/// One of the answers the service proposes.
#[derive(Debug, PartialEq, Eq)]
pub struct Candidate {
    pub content: CandidateContent,
}

/// The decoded body of an answer.
#[derive(Debug, PartialEq, Eq)]
pub struct GeminiResponse {
    pub candidates: Vec<Candidate>,
}

/// Why a completion gave no text.
#[derive(Debug, PartialEq, Eq)]
pub enum CompletionError {
    /// The request did not get through, or the answer could not be read.
    Transport { detail: String },
    /// The service answered with a status that is no success.
    Api { body: String },
    /// The answer was not of the expected shape.
    Malformed { detail: String },
    /// The answer held no text.
    Empty,
}

/// A `CompletionError` with its texts as character sequences.
pub enum CompletionErrorView {
    Transport { detail: Seq<char> },
    Api { body: Seq<char> },
    Malformed { detail: Seq<char> },
    Empty,
}

impl View for CompletionError {
    type V = CompletionErrorView;

    open spec fn view(&self) -> CompletionErrorView {
        match self {
            CompletionError::Transport { detail } => CompletionErrorView::Transport {
                detail: detail@,
            },
            CompletionError::Api { body } => CompletionErrorView::Api { body: body@ },
            CompletionError::Malformed { detail } => CompletionErrorView::Malformed {
                detail: detail@,
            },
            CompletionError::Empty => CompletionErrorView::Empty,
        }
    }
}

/// What came back from the service, as the driver saw it.
#[derive(Debug, PartialEq, Eq)]
pub enum CompletionReply {
    /// The request did not get through, or the answer could not be read.
    Unreachable { detail: String },
    /// The status was no success; `body` is the text that came with it.
    Rejected { body: String },
    /// The status was a success, but the body could not be decoded.
    Undecodable { detail: String },
    /// The decoded body of a successful answer.
    Decoded { response: GeminiResponse },
}

/// The address a completion is asked at with `api_key`.
pub open spec fn completion_url_text(api_key: Seq<char>) -> Seq<char> {
    ENDPOINT@ + MODEL@ + GENERATE_CONTENT@ + api_key
}

/// The message that stands for each error.
pub open spec fn completion_error_text(e: CompletionErrorView) -> Seq<char> {
    match e {
        CompletionErrorView::Transport { detail } => "Failed to call Gemini API"@,
        CompletionErrorView::Api { body } => "Gemini API error: "@ + body,
        CompletionErrorView::Malformed { detail } => "Failed to parse Gemini response"@,
        CompletionErrorView::Empty => "Empty response from Gemini"@,
    }
}

impl GeminiRequest {
    /// The request is a single turn with a single piece of text, `prompt`, and
    /// the fixed generation parameters.
    pub open spec fn asks(&self, prompt: Seq<char>) -> bool {
        &&& self.contents@.len() == 1
        &&& self.contents@[0].parts@.len() == 1
        &&& self.contents@[0].parts@[0].text@ == prompt
        &&& self.generation_config.temperature_hundredths == TEMPERATURE_HUNDREDTHS
        &&& self.generation_config.max_output_tokens == MAX_OUTPUT_TOKENS
    }
}

impl GeminiResponse {
    /// The text of the first part of the first candidate, if there is one.
    pub open spec fn first_text(&self) -> Option<Seq<char>> {
        if self.candidates@.len() > 0 && self.candidates@[0].content.parts@.len() > 0 {
            Some(self.candidates@[0].content.parts@[0].text@)
        } else {
            None
        }
    }
}

impl CompletionReply {
    /// What a reply amounts to: the generated text, or the error that stands for
    /// the way it went wrong.
    pub open spec fn outcome(&self) -> Result<Seq<char>, CompletionErrorView> {
        match self {
            CompletionReply::Unreachable { detail } => Err(
                CompletionErrorView::Transport { detail: detail@ },
            ),
            CompletionReply::Rejected { body } => Err(CompletionErrorView::Api { body: body@ }),
            CompletionReply::Undecodable { detail } => Err(
                CompletionErrorView::Malformed { detail: detail@ },
            ),
            CompletionReply::Decoded { response } => match response.first_text() {
                Some(text) => Ok(text),
                None => Err(CompletionErrorView::Empty),
            },
        }
    }
}

impl CompletionError {
    /// The message for a reader.
    pub fn message(&self) -> (m: String)
        ensures
            m@ == completion_error_text(self@),
    {
        match self {
            CompletionError::Transport { detail } => String::from_str("Failed to call Gemini API"),
            CompletionError::Api { body } => {
                let mut m = String::from_str("Gemini API error: ");
                m.append(body.as_str());
                m
            },
            CompletionError::Malformed { detail } => String::from_str(
                "Failed to parse Gemini response",
            ),
            CompletionError::Empty => String::from_str("Empty response from Gemini"),
        }
    }
}

/// Builds the address a completion is asked at.
pub fn completion_url(api_key: &str) -> (url: String)
    ensures
        url@ == completion_url_text(api_key@),
{
    let mut url = String::from_str(ENDPOINT);
    url.append(MODEL);
    url.append(GENERATE_CONTENT);
    url.append(api_key);
    url
}

/// Builds the body of the request that asks for a completion of `prompt`.
pub fn build_request(prompt: &str) -> (request: GeminiRequest)
    ensures
        request.asks(prompt@),
{
    let mut parts: Vec<Part> = Vec::new();
    parts.push(Part { text: String::from_str(prompt) });
    let mut contents: Vec<Content> = Vec::new();
    contents.push(Content { parts });
    GeminiRequest {
        contents,
        generation_config: GenerationConfig {
            temperature_hundredths: TEMPERATURE_HUNDREDTHS,
            max_output_tokens: MAX_OUTPUT_TOKENS,
        },
    }
}

/// What a completion asks the service: where, and with what body.
#[derive(Debug, PartialEq, Eq)]
pub struct CompletionRequest {
    pub url: String,
    pub body: GeminiRequest,
}

/// The request that asks for a completion of `prompt` with `api_key`: a POST
/// of the body to the address.
pub fn completion_request(prompt: &str, api_key: &str) -> (request: CompletionRequest)
    ensures
        request.url@ == completion_url_text(api_key@),
        request.body.asks(prompt@),
{
    CompletionRequest { url: completion_url(api_key), body: build_request(prompt) }
}

/// Takes the generated text out of a decoded answer: the text of the first
/// part of the first candidate. An answer without candidates, or whose first
/// candidate has no parts, is an empty answer.
pub fn completion_text(response: &GeminiResponse) -> (r: Result<String, CompletionError>)
    ensures
        match r {
            Ok(text) => response.first_text() == Some(text@),
            Err(e) => e@ == CompletionErrorView::Empty && response.first_text().is_none(),
        },
        r.is_err() <==> (response.candidates@.len() == 0
            || response.candidates@[0].content.parts@.len() == 0),
{
    if response.candidates.len() == 0 {
        return Err(CompletionError::Empty);
    }
    let first = &response.candidates[0];
    if first.content.parts.len() == 0 {
        return Err(CompletionError::Empty);
    }
    Ok(first.content.parts[0].text.clone())
}

/// Reads a reply: the generated text, or the error that stands for the way the
/// exchange went wrong.
pub fn completion_result(reply: CompletionReply) -> (r: Result<String, CompletionError>)
    ensures
        match r {
            Ok(text) => reply.outcome() == Ok::<Seq<char>, CompletionErrorView>(text@),
            Err(e) => reply.outcome() == Err::<Seq<char>, CompletionErrorView>(e@),
        },
{
    match reply {
        CompletionReply::Unreachable { detail } => Err(CompletionError::Transport { detail }),
        CompletionReply::Rejected { body } => Err(CompletionError::Api { body }),
        CompletionReply::Undecodable { detail } => Err(CompletionError::Malformed { detail }),
        CompletionReply::Decoded { response } => completion_text(&response),
    }
}

} // verus!
