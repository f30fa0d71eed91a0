//! The two commands, step by step.
//!
//! A `Pipeline` is the state of one run of a command. It never acts itself: it
//! names the next `Action`, a driver carries the action out and reports what
//! came of it as an `Event`, and the pipeline answers with the action after
//! that, until it names `Action::Finish`.

use vstd::prelude::*;
use vstd::string::StringExecFns;
use crate::animation::{
    extract_manim_script, extraction, missing_section_text, MissingSection, RenderError,
    RenderErrorView, Rendered, RenderedView, Section, render_error_text,
};
use crate::gemini::{completion_error_text, CompletionError, CompletionErrorView};
use crate::paths::{
    explain_path, explain_path_text, implement_path, implement_path_text, script_path,
    script_path_text, EXPLAIN_DIR, IMPLEMENT_DIR, SCRIPT_DIR,
};
use crate::prompt::{
    build_explain_prompt, build_implement_prompt, explain_prompt, implement_prompt, Language,
    Scope, GO, MINIMAL, PRACTICAL, PYTHON, RUST,
};
use crate::rfc::{fetch_error_text, FetchError, FetchErrorView};

verus! {

/// What is asked of the program.
#[derive(Debug, PartialEq, Eq)]
pub enum Command {
    /// Explain RFC `rfc_num`, with an animation.
    Explain { rfc_num: u32 },
    /// Write an implementation guide of RFC `rfc_num` for the language and the
    /// scope that go by the names `lang` and `scope`.
    Implement { rfc_num: u32, lang: String, scope: String },
}

/// A `Command` with its texts as character sequences.
pub enum CommandView {
    Explain { rfc_num: u32 },
    Implement { rfc_num: u32, lang: Seq<char>, scope: Seq<char> },
}

impl View for Command {
    type V = CommandView;

    open spec fn view(&self) -> CommandView {
        match self {
            Command::Explain { rfc_num } => CommandView::Explain { rfc_num: *rfc_num },
            Command::Implement { rfc_num, lang, scope } => CommandView::Implement {
                rfc_num: *rfc_num,
                lang: lang@,
                scope: scope@,
            },
        }
    }
}

/// An argument of the implement command names nothing that is supported.
#[derive(Debug, PartialEq, Eq)]
pub enum ValidationError {
    /// No language goes by the given name.
    Language { given: String },
    /// No scope goes by the given name.
    Scope { given: String },
}

/// A `ValidationError` with its text as a character sequence.
pub enum ValidationErrorView {
    Language { given: Seq<char> },
    Scope { given: Seq<char> },
}

impl View for ValidationError {
    type V = ValidationErrorView;

    open spec fn view(&self) -> ValidationErrorView {
        match self {
            ValidationError::Language { given } => ValidationErrorView::Language {
                given: given@,
            },
            ValidationError::Scope { given } => ValidationErrorView::Scope { given: given@ },
        }
    }
}

/// The message that stands for each error.
pub open spec fn validation_error_text(e: ValidationErrorView) -> Seq<char> {
    match e {
        ValidationErrorView::Language { given } => "Unsupported language: "@ + given
            + ". Use rust, python, or go"@,
        ValidationErrorView::Scope { given } => "Invalid scope: "@ + given
            + ". Use minimal or practical"@,
    }
}

impl ValidationError {
    /// The message for a reader.
    pub fn message(&self) -> (m: String)
        ensures
            m@ == validation_error_text(self@),
    {
        match self {
            ValidationError::Language { given } => {
                let mut m = String::from_str("Unsupported language: ");
                m.append(given.as_str());
                m.append(". Use rust, python, or go");
                m
            },
            ValidationError::Scope { given } => {
                let mut m = String::from_str("Invalid scope: ");
                m.append(given.as_str());
                m.append(". Use minimal or practical");
                m
            },
        }
    }
}

/// What the arguments of the implement command name: the language and the
/// scope, or the first of the two that is not supported, the language before
/// the scope.
pub open spec fn validation(lang: Seq<char>, scope: Seq<char>) -> Result<
    (Language, Scope),
    ValidationErrorView,
> {
    match Language::named(lang) {
        None => Err(ValidationErrorView::Language { given: lang }),
        Some(language) => match Scope::named(scope) {
            None => Err(ValidationErrorView::Scope { given: scope }),
            Some(scope) => Ok((language, scope)),
        },
    }
}

/// Checks the arguments of the implement command.
pub fn validate(lang: &str, scope: &str) -> (r: Result<(Language, Scope), ValidationError>)
    ensures
        match r {
            Ok(pair) => validation(lang@, scope@) == Ok::<(Language, Scope), ValidationErrorView>(
                pair,
            ),
            Err(e) => validation(lang@, scope@) == Err::<(Language, Scope), ValidationErrorView>(
                e@,
            ),
        },
{
    match Language::parse(lang) {
        None => Err(ValidationError::Language { given: String::from_str(lang) }),
        Some(language) => match Scope::parse(scope) {
            None => Err(ValidationError::Scope { given: String::from_str(scope) }),
            Some(scope) => Ok((language, scope)),
        },
    }
}

/// The variable of the environment that holds the key of the service.
pub const API_KEY_VARIABLE: &'static str = "GEMINI_API_KEY";

/// What a reader is told where the key is not set.
pub const MISSING_KEY: &'static str =
    "GEMINI_API_KEY not set. Get one at https://makersuite.google.com/app/apikey";

/// Why a run ended without its output.
#[derive(Debug, PartialEq, Eq)]
pub enum PipelineError {
    /// The key of the service is not set.
    Config,
    /// An argument of the command is not supported.
    Validation(ValidationError),
    /// The text of the RFC could not be had.
    Fetch(FetchError),
    /// The service gave no text.
    Completion(CompletionError),
    /// The completion lacks a section.
    Section(MissingSection),
    /// An output file could not be written; the text says why.
    Write(String),
    /// The driver reported something the pipeline was not waiting for.
    OutOfOrder,
}

/// A `PipelineError` with its texts as character sequences.
pub enum PipelineErrorView {
    Config,
    Validation(ValidationErrorView),
    Fetch(FetchErrorView),
    Completion(CompletionErrorView),
    Section(MissingSection),
    Write(Seq<char>),
    OutOfOrder,
}

impl View for PipelineError {
    type V = PipelineErrorView;

    open spec fn view(&self) -> PipelineErrorView {
        match self {
            PipelineError::Config => PipelineErrorView::Config,
            PipelineError::Validation(e) => PipelineErrorView::Validation(e@),
            PipelineError::Fetch(e) => PipelineErrorView::Fetch(e@),
            PipelineError::Completion(e) => PipelineErrorView::Completion(e@),
            PipelineError::Section(e) => PipelineErrorView::Section(*e),
            PipelineError::Write(detail) => PipelineErrorView::Write(detail@),
            PipelineError::OutOfOrder => PipelineErrorView::OutOfOrder,
        }
    }
}

/// The message that stands for each error.
pub open spec fn pipeline_error_text(e: PipelineErrorView) -> Seq<char> {
    match e {
        PipelineErrorView::Config => MISSING_KEY@,
        PipelineErrorView::Validation(e) => validation_error_text(e),
        PipelineErrorView::Fetch(e) => fetch_error_text(e),
        PipelineErrorView::Completion(e) => completion_error_text(e),
        PipelineErrorView::Section(e) => missing_section_text(e.section),
        PipelineErrorView::Write(detail) => detail,
        PipelineErrorView::OutOfOrder => "Unexpected report from the driver"@,
    }
}

impl PipelineError {
    /// The message for a reader.
    pub fn message(&self) -> (m: String)
        ensures
            m@ == pipeline_error_text(self@),
    {
        match self {
            PipelineError::Config => String::from_str(MISSING_KEY),
            PipelineError::Validation(e) => e.message(),
            PipelineError::Fetch(e) => e.message(),
            PipelineError::Completion(e) => e.message(),
            PipelineError::Section(e) => e.message(),
            PipelineError::Write(detail) => detail.clone(),
            PipelineError::OutOfOrder => String::from_str("Unexpected report from the driver"),
        }
    }
}

/// How a run ended.
#[derive(Debug, PartialEq, Eq)]
pub enum Outcome {
    /// The output was there before the run: nothing was done.
    AlreadyPresent { markdown: String, script: Option<String> },
    /// The explanation was written and the animation rendered.
    Explained { markdown: String, video: Rendered },
    /// The explanation was written; the render failed, and the script was
    /// saved to be rendered by hand.
    ExplainedWithoutVideo { markdown: String, saved_script: String, cause: RenderError },
    /// The implementation guide was written.
    Implemented { markdown: String },
    /// The run failed.
    Failed(PipelineError),
}

/// An `Outcome` with its texts as character sequences.
pub enum OutcomeView {
    AlreadyPresent { markdown: Seq<char>, script: Option<Seq<char>> },
    Explained { markdown: Seq<char>, video: RenderedView },
    ExplainedWithoutVideo { markdown: Seq<char>, saved_script: Seq<char>, cause: RenderErrorView },
    Implemented { markdown: Seq<char> },
    Failed(PipelineErrorView),
}

/// The text of an optional string.
pub open spec fn option_text(s: Option<String>) -> Option<Seq<char>> {
    match s {
        Some(s) => Some(s@),
        None => None,
    }
}

impl View for Outcome {
    type V = OutcomeView;

    open spec fn view(&self) -> OutcomeView {
        match self {
            Outcome::AlreadyPresent { markdown, script } => OutcomeView::AlreadyPresent {
                markdown: markdown@,
                script: option_text(*script),
            },
            Outcome::Explained { markdown, video } => OutcomeView::Explained {
                markdown: markdown@,
                video: video@,
            },
            Outcome::ExplainedWithoutVideo {
                markdown,
                saved_script,
                cause,
            } => OutcomeView::ExplainedWithoutVideo {
                markdown: markdown@,
                saved_script: saved_script@,
                cause: cause@,
            },
            Outcome::Implemented { markdown } => OutcomeView::Implemented { markdown: markdown@ },
            Outcome::Failed(e) => OutcomeView::Failed(e@),
        }
    }
}

/// The warning that goes with an outcome, if there is one: that the render
/// failed and why, where the script was saved in place of a video.
pub open spec fn warning_text(outcome: OutcomeView) -> Option<Seq<char>> {
    match outcome {
        OutcomeView::ExplainedWithoutVideo { cause, .. } => Some(
            "Animation rendering failed: "@ + render_error_text(cause),
        ),
        _ => None,
    }
}

impl OutcomeView {
    /// Whether the command succeeded: every outcome but `Failed`.
    pub open spec fn succeeded(self) -> bool {
        !(self is Failed)
    }
}

impl Outcome {
    /// Tells whether the command succeeded.
    pub fn is_success(&self) -> (r: bool)
        ensures
            r == self@.succeeded(),
    {
        match self {
            Outcome::Failed(_) => false,
            _ => true,
        }
    }

    /// The warning that goes with the outcome, if there is one.
    pub fn warning(&self) -> (r: Option<String>)
        ensures
            option_text(r) == warning_text(self@),
    {
        match self {
            Outcome::ExplainedWithoutVideo { cause, .. } => {
                let mut m = String::from_str("Animation rendering failed: ");
                let detail = cause.message();
                m.append(detail.as_str());
                Some(m)
            },
            _ => None,
        }
    }
}

/// What the driver has to do next.
#[derive(Debug, PartialEq, Eq)]
pub enum Action {
    /// Find out whether the output is there already: the file at
    /// `markdown_path` and, where one is named, the file at `script_path`.
    CheckPresent { markdown_path: String, script_path: Option<String> },
    /// Fetch the text of RFC `rfc_num` and clean it.
    Fetch { rfc_num: u32 },
    /// Ask the service, with the key `api_key`, for a completion of `prompt`.
    Complete { prompt: String, api_key: String },
    /// Make the directory `dir` and write `content` to the file at `path`.
    Write { dir: String, path: String, content: String },
    /// Render the animation `script` of RFC `rfc_num`.
    Render { rfc_num: u32, script: String },
    /// Nothing more: the run is over.
    Finish(Outcome),
}

/// An `Action` with its texts as character sequences.
pub enum ActionView {
    CheckPresent { markdown_path: Seq<char>, script_path: Option<Seq<char>> },
    Fetch { rfc_num: u32 },
    Complete { prompt: Seq<char>, api_key: Seq<char> },
    Write { dir: Seq<char>, path: Seq<char>, content: Seq<char> },
    Render { rfc_num: u32, script: Seq<char> },
    Finish(OutcomeView),
}

impl View for Action {
    type V = ActionView;

    open spec fn view(&self) -> ActionView {
        match self {
            Action::CheckPresent { markdown_path, script_path } => ActionView::CheckPresent {
                markdown_path: markdown_path@,
                script_path: option_text(*script_path),
            },
            Action::Fetch { rfc_num } => ActionView::Fetch { rfc_num: *rfc_num },
            Action::Complete { prompt, api_key } => ActionView::Complete {
                prompt: prompt@,
                api_key: api_key@,
            },
            Action::Write { dir, path, content } => ActionView::Write {
                dir: dir@,
                path: path@,
                content: content@,
            },
            Action::Render { rfc_num, script } => ActionView::Render {
                rfc_num: *rfc_num,
                script: script@,
            },
            Action::Finish(outcome) => ActionView::Finish(outcome@),
        }
    }
}

impl ActionView {
    /// The action goes out to the network.
    pub open spec fn uses_network(self) -> bool {
        self is Fetch || self is Complete
    }

    /// The action changes something outside the program.
    pub open spec fn has_effect(self) -> bool {
        self is Write || self is Render
    }
}

/// What the driver reports of the action it carried out.
#[derive(Debug, PartialEq, Eq)]
pub enum Event {
    /// Of `CheckPresent`: whether every file named is there.
    Present(bool),
    /// Of `Fetch`: the cleaned text, or why there is none.
    Fetched(Result<String, FetchError>),
    /// Of `Complete`: the generated text, or why there is none.
    Completed(Result<String, CompletionError>),
    /// Of `Write`: that the file is written, or why it is not.
    Written(Result<(), String>),
    /// Of `Render`: where the outcome is, or why there is none.
    Rendered(Result<Rendered, RenderError>),
}

/// An `Event` with its texts as character sequences.
pub enum EventView {
    Present(bool),
    Fetched(Result<Seq<char>, FetchErrorView>),
    Completed(Result<Seq<char>, CompletionErrorView>),
    Written(Result<(), Seq<char>>),
    Rendered(Result<RenderedView, RenderErrorView>),
}

impl View for Event {
    type V = EventView;

    open spec fn view(&self) -> EventView {
        match self {
            Event::Present(all) => EventView::Present(*all),
            Event::Fetched(r) => EventView::Fetched(
                match r {
                    Ok(text) => Ok(text@),
                    Err(e) => Err(e@),
                },
            ),
            Event::Completed(r) => EventView::Completed(
                match r {
                    Ok(text) => Ok(text@),
                    Err(e) => Err(e@),
                },
            ),
            Event::Written(r) => EventView::Written(
                match r {
                    Ok(_) => Ok(()),
                    Err(detail) => Err(detail@),
                },
            ),
            Event::Rendered(r) => EventView::Rendered(
                match r {
                    Ok(outcome) => Ok(outcome@),
                    Err(e) => Err(e@),
                },
            ),
        }
    }
}

impl EventView {
    /// The report is of a failure that no run goes on after: of the fetch, of
    /// the completion, or of a write.
    pub open spec fn is_fatal(self) -> bool {
        match self {
            EventView::Fetched(r) => r.is_err(),
            EventView::Completed(r) => r.is_err(),
            EventView::Written(r) => r.is_err(),
            _ => false,
        }
    }
}

/// The state of a run: what the pipeline is waiting for, and what it keeps
/// until then.
#[derive(Debug, PartialEq, Eq)]
pub enum Pipeline {
    /// Explain: waiting to hear whether the output is there.
    ExplainChecking { rfc_num: u32, api_key: String },
    /// Explain: waiting for the text of the RFC.
    ExplainFetching { rfc_num: u32, api_key: String },
    /// Explain: waiting for the completion.
    ExplainCompleting { rfc_num: u32 },
    /// Explain: waiting for the explanation to be written; `script` is kept
    /// for the render.
    ExplainWriting { rfc_num: u32, script: String },
    /// Explain: waiting for the render; `script` is kept in case it fails.
    ExplainRendering { rfc_num: u32, script: String },
    /// Explain: the render failed because of `cause`; waiting for the script
    /// to be saved.
    ExplainSaving { rfc_num: u32, cause: RenderError },
    /// Implement: waiting to hear whether the output is there.
    ImplementChecking { rfc_num: u32, language: Language, scope: Scope, api_key: String },
    /// Implement: waiting for the text of the RFC.
    ImplementFetching { rfc_num: u32, language: Language, scope: Scope, api_key: String },
    /// Implement: waiting for the completion.
    ImplementCompleting { rfc_num: u32 },
    /// Implement: waiting for the guide to be written.
    ImplementWriting { rfc_num: u32 },
    /// The run is over.
    Finished,
}

/// A `Pipeline` with its texts as character sequences.
pub enum PipelineView {
    ExplainChecking { rfc_num: u32, api_key: Seq<char> },
    ExplainFetching { rfc_num: u32, api_key: Seq<char> },
    ExplainCompleting { rfc_num: u32 },
    ExplainWriting { rfc_num: u32, script: Seq<char> },
    ExplainRendering { rfc_num: u32, script: Seq<char> },
    ExplainSaving { rfc_num: u32, cause: RenderErrorView },
    ImplementChecking { rfc_num: u32, language: Language, scope: Scope, api_key: Seq<char> },
    ImplementFetching { rfc_num: u32, language: Language, scope: Scope, api_key: Seq<char> },
    ImplementCompleting { rfc_num: u32 },
    ImplementWriting { rfc_num: u32 },
    Finished,
}

impl View for Pipeline {
    type V = PipelineView;

    open spec fn view(&self) -> PipelineView {
        match self {
            Pipeline::ExplainChecking { rfc_num, api_key } => PipelineView::ExplainChecking {
                rfc_num: *rfc_num,
                api_key: api_key@,
            },
            Pipeline::ExplainFetching { rfc_num, api_key } => PipelineView::ExplainFetching {
                rfc_num: *rfc_num,
                api_key: api_key@,
            },
            Pipeline::ExplainCompleting { rfc_num } => PipelineView::ExplainCompleting {
                rfc_num: *rfc_num,
            },
            Pipeline::ExplainWriting { rfc_num, script } => PipelineView::ExplainWriting {
                rfc_num: *rfc_num,
                script: script@,
            },
            Pipeline::ExplainRendering { rfc_num, script } => PipelineView::ExplainRendering {
                rfc_num: *rfc_num,
                script: script@,
            },
            Pipeline::ExplainSaving { rfc_num, cause } => PipelineView::ExplainSaving {
                rfc_num: *rfc_num,
                cause: cause@,
            },
            Pipeline::ImplementChecking {
                rfc_num,
                language,
                scope,
                api_key,
            } => PipelineView::ImplementChecking {
                rfc_num: *rfc_num,
                language: *language,
                scope: *scope,
                api_key: api_key@,
            },
            Pipeline::ImplementFetching {
                rfc_num,
                language,
                scope,
                api_key,
            } => PipelineView::ImplementFetching {
                rfc_num: *rfc_num,
                language: *language,
                scope: *scope,
                api_key: api_key@,
            },
            Pipeline::ImplementCompleting { rfc_num } => PipelineView::ImplementCompleting {
                rfc_num: *rfc_num,
            },
            Pipeline::ImplementWriting { rfc_num } => PipelineView::ImplementWriting {
                rfc_num: *rfc_num,
            },
            Pipeline::Finished => PipelineView::Finished,
        }
    }
}

impl PipelineView {
    /// The state belongs to an explain run.
    pub open spec fn explains(self) -> bool {
        ||| self is ExplainChecking
        ||| self is ExplainFetching
        ||| self is ExplainCompleting
        ||| self is ExplainWriting
        ||| self is ExplainRendering
        ||| self is ExplainSaving
    }

    /// How many reports a run in this state can still take before it is over,
    /// at most.
    pub open spec fn reports_left(self) -> nat {
        match self {
            PipelineView::ExplainChecking { .. } => 6,
            PipelineView::ExplainFetching { .. } => 5,
            PipelineView::ExplainCompleting { .. } => 4,
            PipelineView::ExplainWriting { .. } => 3,
            PipelineView::ExplainRendering { .. } => 2,
            PipelineView::ExplainSaving { .. } => 1,
            PipelineView::ImplementChecking { .. } => 4,
            PipelineView::ImplementFetching { .. } => 3,
            PipelineView::ImplementCompleting { .. } => 2,
            PipelineView::ImplementWriting { .. } => 1,
            PipelineView::Finished => 0,
        }
    }
}

/// The run ends with `outcome`.
pub open spec fn finish(outcome: OutcomeView) -> (PipelineView, ActionView) {
    (PipelineView::Finished, ActionView::Finish(outcome))
}

/// The run ends with `error`.
pub open spec fn fail(error: PipelineErrorView) -> (PipelineView, ActionView) {
    finish(OutcomeView::Failed(error))
}

/// How a run of `command` begins with the key `api_key`.
///
/// Without a key the run ends at once. With one, explain asks whether the
/// explanation and the script are there. Implement first checks its arguments,
/// and ends where one is not supported; else it asks whether the guide is
/// there.
pub open spec fn begin(command: CommandView, api_key: Option<Seq<char>>) -> (
    PipelineView,
    ActionView,
) {
    match api_key {
        None => fail(PipelineErrorView::Config),
        Some(api_key) => match command {
            CommandView::Explain { rfc_num } => (
                PipelineView::ExplainChecking { rfc_num, api_key },
                ActionView::CheckPresent {
                    markdown_path: explain_path_text(rfc_num),
                    script_path: Some(script_path_text(rfc_num)),
                },
            ),
            CommandView::Implement { rfc_num, lang, scope } => match validation(lang, scope) {
                Err(e) => fail(PipelineErrorView::Validation(e)),
                Ok((language, scope)) => (
                    PipelineView::ImplementChecking { rfc_num, language, scope, api_key },
                    ActionView::CheckPresent {
                        markdown_path: implement_path_text(rfc_num),
                        script_path: None,
                    },
                ),
            },
        },
    }
}

/// How an explain run goes on from `state` when the driver reports `event`.
///
/// Output that is there ends the run. Else the text is fetched, the prompt
/// completed, and the completion taken apart; the explanation is written, and
/// only then is the animation rendered. A render that fails does not fail the
/// run: the script is saved as it came, and the run ends well, with a warning.
pub open spec fn next_explain(state: PipelineView, event: EventView) -> (PipelineView, ActionView) {
    match state {
        PipelineView::ExplainChecking { rfc_num, api_key } => match event {
            EventView::Present(all) => if all {
                finish(
                    OutcomeView::AlreadyPresent {
                        markdown: explain_path_text(rfc_num),
                        script: Some(script_path_text(rfc_num)),
                    },
                )
            } else {
                (PipelineView::ExplainFetching { rfc_num, api_key }, ActionView::Fetch { rfc_num })
            },
            _ => fail(PipelineErrorView::OutOfOrder),
        },
        PipelineView::ExplainFetching { rfc_num, api_key } => match event {
            EventView::Fetched(Ok(text)) => (
                PipelineView::ExplainCompleting { rfc_num },
                ActionView::Complete { prompt: explain_prompt(rfc_num, text), api_key },
            ),
            EventView::Fetched(Err(e)) => fail(PipelineErrorView::Fetch(e)),
            _ => fail(PipelineErrorView::OutOfOrder),
        },
        PipelineView::ExplainCompleting { rfc_num } => match event {
            EventView::Completed(Ok(text)) => match extraction(text) {
                Ok((markdown, script)) => (
                    PipelineView::ExplainWriting { rfc_num, script },
                    ActionView::Write {
                        dir: EXPLAIN_DIR@,
                        path: explain_path_text(rfc_num),
                        content: markdown,
                    },
                ),
                Err(section) => fail(PipelineErrorView::Section(MissingSection { section })),
            },
            EventView::Completed(Err(e)) => fail(PipelineErrorView::Completion(e)),
            _ => fail(PipelineErrorView::OutOfOrder),
        },
        PipelineView::ExplainWriting { rfc_num, script } => match event {
            EventView::Written(Ok(_)) => (
                PipelineView::ExplainRendering { rfc_num, script },
                ActionView::Render { rfc_num, script },
            ),
            EventView::Written(Err(detail)) => fail(PipelineErrorView::Write(detail)),
            _ => fail(PipelineErrorView::OutOfOrder),
        },
        PipelineView::ExplainRendering { rfc_num, script } => match event {
            EventView::Rendered(Ok(video)) => finish(
                OutcomeView::Explained { markdown: explain_path_text(rfc_num), video },
            ),
            EventView::Rendered(Err(cause)) => (
                PipelineView::ExplainSaving { rfc_num, cause },
                ActionView::Write {
                    dir: SCRIPT_DIR@,
                    path: script_path_text(rfc_num),
                    content: script,
                },
            ),
            _ => fail(PipelineErrorView::OutOfOrder),
        },
        PipelineView::ExplainSaving { rfc_num, cause } => match event {
            EventView::Written(Ok(_)) => finish(
                OutcomeView::ExplainedWithoutVideo {
                    markdown: explain_path_text(rfc_num),
                    saved_script: script_path_text(rfc_num),
                    cause,
                },
            ),
            EventView::Written(Err(detail)) => fail(PipelineErrorView::Write(detail)),
            _ => fail(PipelineErrorView::OutOfOrder),
        },
        _ => fail(PipelineErrorView::OutOfOrder),
    }
}

/// How an implement run goes on from `state` when the driver reports `event`.
///
/// Output that is there ends the run. Else the text is fetched, the prompt
/// completed, and the completion written as it came.
pub open spec fn next_implement(state: PipelineView, event: EventView) -> (
    PipelineView,
    ActionView,
) {
    match state {
        PipelineView::ImplementChecking { rfc_num, language, scope, api_key } => match event {
            EventView::Present(all) => if all {
                finish(
                    OutcomeView::AlreadyPresent {
                        markdown: implement_path_text(rfc_num),
                        script: None,
                    },
                )
            } else {
                (
                    PipelineView::ImplementFetching { rfc_num, language, scope, api_key },
                    ActionView::Fetch { rfc_num },
                )
            },
            _ => fail(PipelineErrorView::OutOfOrder),
        },
        PipelineView::ImplementFetching { rfc_num, language, scope, api_key } => match event {
            EventView::Fetched(Ok(text)) => (
                PipelineView::ImplementCompleting { rfc_num },
                ActionView::Complete {
                    prompt: implement_prompt(rfc_num, text, language.name_text(), scope.name_text()),
                    api_key,
                },
            ),
            EventView::Fetched(Err(e)) => fail(PipelineErrorView::Fetch(e)),
            _ => fail(PipelineErrorView::OutOfOrder),
        },
        PipelineView::ImplementCompleting { rfc_num } => match event {
            EventView::Completed(Ok(text)) => (
                PipelineView::ImplementWriting { rfc_num },
                ActionView::Write {
                    dir: IMPLEMENT_DIR@,
                    path: implement_path_text(rfc_num),
                    content: text,
                },
            ),
            EventView::Completed(Err(e)) => fail(PipelineErrorView::Completion(e)),
            _ => fail(PipelineErrorView::OutOfOrder),
        },
        PipelineView::ImplementWriting { rfc_num } => match event {
            EventView::Written(Ok(_)) => finish(
                OutcomeView::Implemented { markdown: implement_path_text(rfc_num) },
            ),
            EventView::Written(Err(detail)) => fail(PipelineErrorView::Write(detail)),
            _ => fail(PipelineErrorView::OutOfOrder),
        },
        _ => fail(PipelineErrorView::OutOfOrder),
    }
}

/// How a run goes on from `state` when the driver reports `event`: the state
/// after it and the next action. A report that the state is not waiting for
/// ends the run with `OutOfOrder`, and so does any report after the end.
pub open spec fn next(state: PipelineView, event: EventView) -> (PipelineView, ActionView) {
    if state.explains() {
        next_explain(state, event)
    } else {
        next_implement(state, event)
    }
}

/// Ends the run with `outcome`.
fn finished(outcome: Outcome) -> (r: (Pipeline, Action))
    ensures
        (r.0@, r.1@) == finish(outcome@),
{
    (Pipeline::Finished, Action::Finish(outcome))
}

/// Ends the run with `error`.
fn failed(error: PipelineError) -> (r: (Pipeline, Action))
    ensures
        (r.0@, r.1@) == fail(error@),
{
    finished(Outcome::Failed(error))
}

impl Pipeline {
    /// Begins a run of `command` with the key that the environment holds, if
    /// it holds one: the state the run starts in and the first action.
    pub fn start(command: Command, api_key: Option<String>) -> (r: (Pipeline, Action))
        ensures
            (r.0@, r.1@) == begin(command@, option_text(api_key)),
    {
        let api_key = match api_key {
            Some(api_key) => api_key,
            None => {
                return failed(PipelineError::Config);
            },
        };
        match command {
            Command::Explain { rfc_num } => (
                Pipeline::ExplainChecking { rfc_num, api_key },
                Action::CheckPresent {
                    markdown_path: explain_path(rfc_num),
                    script_path: Some(script_path(rfc_num)),
                },
            ),
            Command::Implement { rfc_num, lang, scope } => match validate(
                lang.as_str(),
                scope.as_str(),
            ) {
                Err(e) => failed(PipelineError::Validation(e)),
                Ok((language, scope)) => (
                    Pipeline::ImplementChecking { rfc_num, language, scope, api_key },
                    Action::CheckPresent {
                        markdown_path: implement_path(rfc_num),
                        script_path: None,
                    },
                ),
            },
        }
    }

    /// Takes the driver's report of the last action and names the next one.
    pub fn step(self, event: Event) -> (r: (Pipeline, Action))
        ensures
            (r.0@, r.1@) == next(self@, event@),
    {
        match self {
            Pipeline::ExplainChecking { rfc_num, api_key } => match event {
                Event::Present(all) => if all {
                    finished(
                        Outcome::AlreadyPresent {
                            markdown: explain_path(rfc_num),
                            script: Some(script_path(rfc_num)),
                        },
                    )
                } else {
                    (Pipeline::ExplainFetching { rfc_num, api_key }, Action::Fetch { rfc_num })
                },
                _ => failed(PipelineError::OutOfOrder),
            },
            Pipeline::ExplainFetching { rfc_num, api_key } => match event {
                Event::Fetched(Ok(text)) => (
                    Pipeline::ExplainCompleting { rfc_num },
                    Action::Complete {
                        prompt: build_explain_prompt(rfc_num, text.as_str()),
                        api_key,
                    },
                ),
                Event::Fetched(Err(e)) => failed(PipelineError::Fetch(e)),
                _ => failed(PipelineError::OutOfOrder),
            },
            Pipeline::ExplainCompleting { rfc_num } => match event {
                Event::Completed(Ok(text)) => match extract_manim_script(text.as_str()) {
                    Ok((markdown, script)) => (
                        Pipeline::ExplainWriting { rfc_num, script },
                        Action::Write {
                            dir: String::from_str(EXPLAIN_DIR),
                            path: explain_path(rfc_num),
                            content: markdown,
                        },
                    ),
                    Err(e) => failed(PipelineError::Section(e)),
                },
                Event::Completed(Err(e)) => failed(PipelineError::Completion(e)),
                _ => failed(PipelineError::OutOfOrder),
            },
            Pipeline::ExplainWriting { rfc_num, script } => match event {
                Event::Written(Ok(_)) => {
                    let copy = script.clone();
                    (
                        Pipeline::ExplainRendering { rfc_num, script },
                        Action::Render { rfc_num, script: copy },
                    )
                },
                Event::Written(Err(detail)) => failed(PipelineError::Write(detail)),
                _ => failed(PipelineError::OutOfOrder),
            },
            Pipeline::ExplainRendering { rfc_num, script } => match event {
                Event::Rendered(Ok(video)) => finished(
                    Outcome::Explained { markdown: explain_path(rfc_num), video },
                ),
                Event::Rendered(Err(cause)) => (
                    Pipeline::ExplainSaving { rfc_num, cause },
                    Action::Write {
                        dir: String::from_str(SCRIPT_DIR),
                        path: script_path(rfc_num),
                        content: script,
                    },
                ),
                _ => failed(PipelineError::OutOfOrder),
            },
            Pipeline::ExplainSaving { rfc_num, cause } => match event {
                Event::Written(Ok(_)) => finished(
                    Outcome::ExplainedWithoutVideo {
                        markdown: explain_path(rfc_num),
                        saved_script: script_path(rfc_num),
                        cause,
                    },
                ),
                Event::Written(Err(detail)) => failed(PipelineError::Write(detail)),
                _ => failed(PipelineError::OutOfOrder),
            },
            Pipeline::ImplementChecking { rfc_num, language, scope, api_key } => match event {
                Event::Present(all) => if all {
                    finished(
                        Outcome::AlreadyPresent { markdown: implement_path(rfc_num), script: None },
                    )
                } else {
                    (
                        Pipeline::ImplementFetching { rfc_num, language, scope, api_key },
                        Action::Fetch { rfc_num },
                    )
                },
                _ => failed(PipelineError::OutOfOrder),
            },
            Pipeline::ImplementFetching { rfc_num, language, scope, api_key } => match event {
                Event::Fetched(Ok(text)) => (
                    Pipeline::ImplementCompleting { rfc_num },
                    Action::Complete {
                        prompt: build_implement_prompt(
                            rfc_num,
                            text.as_str(),
                            language.name(),
                            scope.name(),
                        ),
                        api_key,
                    },
                ),
                Event::Fetched(Err(e)) => failed(PipelineError::Fetch(e)),
                _ => failed(PipelineError::OutOfOrder),
            },
            Pipeline::ImplementCompleting { rfc_num } => match event {
                Event::Completed(Ok(text)) => (
                    Pipeline::ImplementWriting { rfc_num },
                    Action::Write {
                        dir: String::from_str(IMPLEMENT_DIR),
                        path: implement_path(rfc_num),
                        content: text,
                    },
                ),
                Event::Completed(Err(e)) => failed(PipelineError::Completion(e)),
                _ => failed(PipelineError::OutOfOrder),
            },
            Pipeline::ImplementWriting { rfc_num } => match event {
                Event::Written(Ok(_)) => finished(
                    Outcome::Implemented { markdown: implement_path(rfc_num) },
                ),
                Event::Written(Err(detail)) => failed(PipelineError::Write(detail)),
                _ => failed(PipelineError::OutOfOrder),
            },
            Pipeline::Finished => failed(PipelineError::OutOfOrder),
        }
    }
}

/// The pairs of names that the implement command supports.
pub open spec fn is_supported(lang: Seq<char>, scope: Seq<char>) -> bool {
    &&& lang == RUST@ || lang == PYTHON@ || lang == GO@
    &&& scope == MINIMAL@ || scope == PRACTICAL@
}

/// Without a key nothing is done: whatever the command, the run is over at
/// the start, it has failed for want of the key, and the driver has been
/// asked for nothing.
pub proof fn missing_key_ends_the_run(command: CommandView)
    ensures
        begin(command, None) == fail(PipelineErrorView::Config),
{
}

/// An implement command is turned down exactly when its language is none of
/// rust, python and go, or its scope neither minimal nor practical. It is
/// turned down at the start: the run is over with a validation error, the
/// language's before the scope's, and the driver has been asked for nothing.
/// With supported names the run begins by asking whether the guide is there.
pub proof fn unsupported_arguments_end_the_run(
    rfc_num: u32,
    lang: Seq<char>,
    scope: Seq<char>,
    api_key: Seq<char>,
)
    ensures
        ({
            let (state, action) = begin(
                CommandView::Implement { rfc_num, lang, scope },
                Some(api_key),
            );
            if is_supported(lang, scope) {
                &&& state is ImplementChecking
                &&& action == ActionView::CheckPresent {
                    markdown_path: implement_path_text(rfc_num),
                    script_path: None,
                }
            } else {
                &&& state == PipelineView::Finished
                &&& action == ActionView::Finish(
                    OutcomeView::Failed(
                        PipelineErrorView::Validation(
                            if Language::named(lang).is_none() {
                                ValidationErrorView::Language { given: lang }
                            } else {
                                ValidationErrorView::Scope { given: scope }
                            },
                        ),
                    ),
                )
            }
        }),
{
}

/// A run whose output is already there does nothing: whatever the command, it
/// begins with no action but the question whether the output is there, and on
/// the answer that it is, the run is over with `AlreadyPresent`. Neither of the
/// two actions goes out to the network or changes anything.
pub proof fn present_output_ends_the_run(command: CommandView, api_key: Option<Seq<char>>)
    ensures
        ({
            let (state, first) = begin(command, api_key);
            let (after, second) = next(state, EventView::Present(true));
            &&& !first.uses_network() && !first.has_effect()
            &&& !second.uses_network() && !second.has_effect()
            &&& after == PipelineView::Finished
            &&& first matches ActionView::CheckPresent { markdown_path, script_path } ==> second
                == ActionView::Finish(
                OutcomeView::AlreadyPresent { markdown: markdown_path, script: script_path },
            )
        }),
{
}

/// Every report brings a run nearer to its end, and a run that is over stays
/// over: the driver's loop ends after six reports at most.
pub proof fn every_report_advances(state: PipelineView, event: EventView)
    ensures
        ({
            let (after, action) = next(state, event);
            &&& after.reports_left() < state.reports_left() || after == PipelineView::Finished
            &&& after == PipelineView::Finished <==> action is Finish
        }),
{
}

/// A failure of the fetch, of the completion or of a write ends the run at
/// once, and the run has failed: nothing is asked of the driver after it.
pub proof fn failures_end_the_run(state: PipelineView, event: EventView)
    requires
        event.is_fatal(),
    ensures
        next(state, event).0 == PipelineView::Finished,
        next(state, event).1 matches ActionView::Finish(OutcomeView::Failed(_)),
{
}

/// A render that fails does not fail the run: the script is saved where the
/// renderer would have read it, and once it is, the run ends well, with the
/// warning that the render failed.
pub proof fn failed_render_is_recovered(rfc_num: u32, script: Seq<char>, cause: RenderErrorView)
    ensures
        ({
            let state = PipelineView::ExplainRendering { rfc_num, script };
            let (saving, save) = next(state, EventView::Rendered(Err(cause)));
            let (after, last) = next(saving, EventView::Written(Ok(())));
            &&& save == ActionView::Write {
                dir: SCRIPT_DIR@,
                path: script_path_text(rfc_num),
                content: script,
            }
            &&& after == PipelineView::Finished
            &&& last matches ActionView::Finish(outcome)
            &&& outcome.succeeded()
            &&& warning_text(outcome).is_some()
        }),
{
}

} // verus!
