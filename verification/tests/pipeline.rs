use rfcbit::animation::{MissingSection, RenderError, Rendered, Section};
use rfcbit::gemini::CompletionError;
use rfcbit::pipeline::{
    validate, Action, Command, Event, Outcome, Pipeline, PipelineError, ValidationError,
};
use rfcbit::prompt::{build_explain_prompt, build_implement_prompt, Language, Scope};
use rfcbit::rfc::FetchError;

/// A driver that answers from what it was given and records what it was asked.
struct Mock {
    present: bool,
    fetch: Result<String, FetchError>,
    completion: Result<String, CompletionError>,
    render: Result<Rendered, RenderError>,
    write_fails: bool,
    asked: Vec<&'static str>,
    prompts: Vec<String>,
    keys: Vec<String>,
    written: Vec<(String, String, String)>,
    rendered: Vec<(u32, String)>,
}

impl Mock {
    fn new(fetch: &str, completion: &str) -> Mock {
        Mock {
            present: false,
            fetch: Ok(fetch.to_string()),
            completion: Ok(completion.to_string()),
            render: Ok(Rendered::Video { path: "/abs/Scene.mp4".to_string() }),
            write_fails: false,
            asked: Vec::new(),
            prompts: Vec::new(),
            keys: Vec::new(),
            written: Vec::new(),
            rendered: Vec::new(),
        }
    }

    fn run(&mut self, command: Command) -> Outcome {
        self.run_with(command, Some("k3y".to_string()))
    }

    fn run_with(&mut self, command: Command, api_key: Option<String>) -> Outcome {
        let (mut state, mut action) = Pipeline::start(command, api_key);
        let mut steps = 0;
        loop {
            let event = match action {
                Action::CheckPresent { .. } => {
                    self.asked.push("check");
                    Event::Present(self.present)
                }
                Action::Fetch { .. } => {
                    self.asked.push("fetch");
                    Event::Fetched(std::mem::replace(&mut self.fetch, Ok(String::new())))
                }
                Action::Complete { prompt, api_key } => {
                    self.asked.push("complete");
                    self.prompts.push(prompt);
                    self.keys.push(api_key);
                    Event::Completed(std::mem::replace(&mut self.completion, Ok(String::new())))
                }
                Action::Write { dir, path, content } => {
                    self.asked.push("write");
                    if self.write_fails {
                        Event::Written(Err("disk full".to_string()))
                    } else {
                        self.written.push((dir, path, content));
                        Event::Written(Ok(()))
                    }
                }
                Action::Render { rfc_num, script } => {
                    self.asked.push("render");
                    self.rendered.push((rfc_num, script));
                    Event::Rendered(std::mem::replace(
                        &mut self.render,
                        Ok(Rendered::Directory { path: String::new() }),
                    ))
                }
                Action::Finish(outcome) => {
                    assert_eq!(state, Pipeline::Finished);
                    return outcome;
                }
            };
            steps += 1;
            assert!(steps <= 6);
            let (after, following) = state.step(event);
            state = after;
            action = following;
        }
    }
}

fn implement(rfc_num: u32, lang: &str, scope: &str) -> Command {
    Command::Implement { rfc_num, lang: lang.to_string(), scope: scope.to_string() }
}

const WELL_FORMED: &str = "Here you go.\n---MARKDOWN---\n# TCP\n\nIt is reliable.\n---MANIM---\nfrom manim import *\n---END---\n";

#[test]
fn implement_writes_the_guide_and_nothing_else() {
    let mut mock = Mock::new("Fixed RFC text.", "<guide markdown>");
    let outcome = mock.run(implement(9110, "go", "practical"));
    assert_eq!(outcome, Outcome::Implemented { markdown: "rfc/implement/9110.md".to_string() });
    assert_eq!(
        mock.written,
        vec![(
            "rfc/implement".to_string(),
            "rfc/implement/9110.md".to_string(),
            "<guide markdown>".to_string()
        )]
    );
    assert_eq!(mock.asked, vec!["check", "fetch", "complete", "write"]);
    assert!(mock.rendered.is_empty());
    assert_eq!(
        mock.prompts,
        vec![build_implement_prompt(9110, "Fixed RFC text.", "go", "practical")]
    );
    assert_eq!(mock.keys, vec!["k3y".to_string()]);
    assert!(outcome.is_success());
    assert_eq!(outcome.warning(), None);
}

#[test]
fn without_a_key_nothing_is_done() {
    for command in [
        Command::Explain { rfc_num: 9293 },
        implement(9110, "go", "practical"),
        implement(9110, "cobol", "everything"),
    ] {
        let mut mock = Mock::new("unused", "unused");
        mock.present = true;
        let outcome = mock.run_with(command, None);
        assert_eq!(outcome, Outcome::Failed(PipelineError::Config));
        assert!(mock.asked.is_empty());
        assert!(!outcome.is_success());
    }
}

#[test]
fn the_key_goes_to_the_completion_only() {
    let mut mock = Mock::new("text", WELL_FORMED);
    mock.run_with(Command::Explain { rfc_num: 1 }, Some("secret".to_string()));
    assert_eq!(mock.keys, vec!["secret".to_string()]);
    assert!(mock.prompts.iter().all(|prompt| !prompt.contains("secret")));
    assert!(mock.written.iter().all(|(_, _, content)| !content.contains("secret")));
}

#[test]
fn explain_with_a_failing_renderer_saves_the_script_and_succeeds() {
    let mut mock = Mock::new("TCP text.", WELL_FORMED);
    mock.render = Err(RenderError::Failed { stdout: String::new(), stderr: "boom".to_string() });
    let outcome = mock.run(Command::Explain { rfc_num: 9293 });
    assert_eq!(
        mock.written,
        vec![
            (
                "rfc/explain".to_string(),
                "rfc/explain/9293.md".to_string(),
                "# TCP\n\nIt is reliable.".to_string()
            ),
            (
                "rfc/animations".to_string(),
                "rfc/animations/rfc_9293.py".to_string(),
                "from manim import *".to_string()
            ),
        ]
    );
    assert_eq!(mock.asked, vec!["check", "fetch", "complete", "write", "render", "write"]);
    assert_eq!(
        outcome,
        Outcome::ExplainedWithoutVideo {
            markdown: "rfc/explain/9293.md".to_string(),
            saved_script: "rfc/animations/rfc_9293.py".to_string(),
            cause: RenderError::Failed { stdout: String::new(), stderr: "boom".to_string() },
        }
    );
    assert!(outcome.is_success());
    assert_eq!(
        outcome.warning(),
        Some("Animation rendering failed: Manim rendering failed".to_string())
    );
}

#[test]
fn explain_with_a_working_renderer_reports_the_video() {
    let mut mock = Mock::new("TCP text.", WELL_FORMED);
    let outcome = mock.run(Command::Explain { rfc_num: 9293 });
    assert_eq!(
        outcome,
        Outcome::Explained {
            markdown: "rfc/explain/9293.md".to_string(),
            video: Rendered::Video { path: "/abs/Scene.mp4".to_string() },
        }
    );
    assert_eq!(mock.asked, vec!["check", "fetch", "complete", "write", "render"]);
    assert_eq!(mock.rendered, vec![(9293, "from manim import *".to_string())]);
    assert_eq!(mock.written.len(), 1);
    assert_eq!(mock.prompts, vec![build_explain_prompt(9293, "TCP text.")]);
    assert!(outcome.is_success());
    assert_eq!(outcome.warning(), None);
}

#[test]
fn explain_does_nothing_when_its_output_is_there() {
    let mut mock = Mock::new("unused", "unused");
    mock.present = true;
    let outcome = mock.run(Command::Explain { rfc_num: 9293 });
    assert_eq!(
        outcome,
        Outcome::AlreadyPresent {
            markdown: "rfc/explain/9293.md".to_string(),
            script: Some("rfc/animations/rfc_9293.py".to_string()),
        }
    );
    assert_eq!(mock.asked, vec!["check"]);
    assert!(outcome.is_success());
}

#[test]
fn implement_does_nothing_when_its_output_is_there() {
    let mut mock = Mock::new("unused", "unused");
    mock.present = true;
    let outcome = mock.run(implement(9110, "rust", "minimal"));
    assert_eq!(
        outcome,
        Outcome::AlreadyPresent { markdown: "rfc/implement/9110.md".to_string(), script: None }
    );
    assert_eq!(mock.asked, vec!["check"]);
}

#[test]
fn explain_asks_for_both_files() {
    let (state, action) = Pipeline::start(Command::Explain { rfc_num: 793 }, Some("k".to_string()));
    assert_eq!(state, Pipeline::ExplainChecking { rfc_num: 793, api_key: "k".to_string() });
    assert_eq!(
        action,
        Action::CheckPresent {
            markdown_path: "rfc/explain/793.md".to_string(),
            script_path: Some("rfc/animations/rfc_793.py".to_string()),
        }
    );
}

#[test]
fn implement_asks_for_the_guide_only() {
    let (state, action) =
        Pipeline::start(implement(793, "python", "practical"), Some("k".to_string()));
    assert_eq!(
        state,
        Pipeline::ImplementChecking {
            rfc_num: 793,
            language: Language::Python,
            scope: Scope::Practical,
            api_key: "k".to_string(),
        }
    );
    assert_eq!(
        action,
        Action::CheckPresent {
            markdown_path: "rfc/implement/793.md".to_string(),
            script_path: None
        }
    );
}

#[test]
fn an_unsupported_language_ends_the_run_at_once() {
    let mut mock = Mock::new("unused", "unused");
    mock.present = true;
    let outcome = mock.run(implement(9110, "cobol", "minimal"));
    assert_eq!(
        outcome,
        Outcome::Failed(PipelineError::Validation(ValidationError::Language {
            given: "cobol".to_string()
        }))
    );
    assert!(mock.asked.is_empty());
    assert!(!outcome.is_success());
}

#[test]
fn an_unsupported_scope_ends_the_run_at_once() {
    let mut mock = Mock::new("unused", "unused");
    let outcome = mock.run(implement(9110, "go", "everything"));
    assert_eq!(
        outcome,
        Outcome::Failed(PipelineError::Validation(ValidationError::Scope {
            given: "everything".to_string()
        }))
    );
    assert!(mock.asked.is_empty());
}

#[test]
fn the_language_is_checked_before_the_scope() {
    assert_eq!(
        validate("cobol", "everything"),
        Err(ValidationError::Language { given: "cobol".to_string() })
    );
    assert_eq!(
        validate("rust", "everything"),
        Err(ValidationError::Scope { given: "everything".to_string() })
    );
}

#[test]
fn every_supported_pair_is_accepted() {
    for (lang, language) in
        [("rust", Language::Rust), ("python", Language::Python), ("go", Language::Go)]
    {
        for (name, scope) in [("minimal", Scope::Minimal), ("practical", Scope::Practical)] {
            assert_eq!(validate(lang, name), Ok((language, scope)));
        }
    }
}

#[test]
fn validation_error_messages() {
    assert_eq!(
        ValidationError::Language { given: "cobol".to_string() }.message(),
        "Unsupported language: cobol. Use rust, python, or go"
    );
    assert_eq!(
        ValidationError::Scope { given: "all".to_string() }.message(),
        "Invalid scope: all. Use minimal or practical"
    );
}

#[test]
fn a_failed_fetch_ends_the_run_before_anything_is_written() {
    let mut mock = Mock::new("", "unused");
    mock.fetch = Err(FetchError::NotFound { rfc_num: 99999 });
    let outcome = mock.run(Command::Explain { rfc_num: 99999 });
    assert_eq!(
        outcome,
        Outcome::Failed(PipelineError::Fetch(FetchError::NotFound { rfc_num: 99999 }))
    );
    assert_eq!(mock.asked, vec!["check", "fetch"]);
    let mut mock = Mock::new("", "unused");
    mock.fetch = Err(FetchError::Status { status: 503 });
    let outcome = mock.run(implement(1, "go", "minimal"));
    assert_eq!(outcome, Outcome::Failed(PipelineError::Fetch(FetchError::Status { status: 503 })));
    assert_eq!(mock.asked, vec!["check", "fetch"]);
}

#[test]
fn a_failed_completion_ends_the_run_before_anything_is_written() {
    let mut mock = Mock::new("text", "");
    mock.completion = Err(CompletionError::Empty);
    let outcome = mock.run(Command::Explain { rfc_num: 1 });
    assert_eq!(outcome, Outcome::Failed(PipelineError::Completion(CompletionError::Empty)));
    assert_eq!(mock.asked, vec!["check", "fetch", "complete"]);
    let mut mock = Mock::new("text", "");
    mock.completion = Err(CompletionError::Api { body: "quota".to_string() });
    let outcome = mock.run(implement(1, "rust", "practical"));
    assert_eq!(
        outcome,
        Outcome::Failed(PipelineError::Completion(CompletionError::Api {
            body: "quota".to_string()
        }))
    );
    assert!(mock.written.is_empty());
}

#[test]
fn a_completion_without_a_section_ends_the_run_before_anything_is_written() {
    for (completion, section) in [
        ("no delimiters", Section::Markdown),
        ("---MARKDOWN---text only", Section::Manim),
        ("---MARKDOWN---text---MANIM---script", Section::End),
    ] {
        let mut mock = Mock::new("text", completion);
        let outcome = mock.run(Command::Explain { rfc_num: 1 });
        assert_eq!(outcome, Outcome::Failed(PipelineError::Section(MissingSection { section })));
        assert_eq!(mock.asked, vec!["check", "fetch", "complete"]);
        assert!(mock.written.is_empty());
    }
}

#[test]
fn implement_takes_the_completion_as_it_comes() {
    let mut mock = Mock::new("text", "  no delimiters needed \n");
    let outcome = mock.run(implement(2, "python", "minimal"));
    assert!(outcome.is_success());
    assert_eq!(mock.written[0].2, "  no delimiters needed \n");
}

#[test]
fn a_failed_write_fails_the_run() {
    let mut mock = Mock::new("text", WELL_FORMED);
    mock.write_fails = true;
    let outcome = mock.run(Command::Explain { rfc_num: 1 });
    assert_eq!(outcome, Outcome::Failed(PipelineError::Write("disk full".to_string())));
    assert_eq!(mock.asked, vec!["check", "fetch", "complete", "write"]);
    assert!(mock.rendered.is_empty());
}

#[test]
fn the_renderer_gets_the_script_as_it_was_extracted() {
    let completion = "---MARKDOWN---m---MANIM---\n```python\nx = 1\n```\n---END---";
    let mut mock = Mock::new("text", completion);
    mock.render = Err(RenderError::Launch { detail: "not found".to_string() });
    let outcome = mock.run(Command::Explain { rfc_num: 5 });
    assert_eq!(mock.rendered, vec![(5, "```python\nx = 1\n```".to_string())]);
    assert_eq!(mock.written[1].2, "```python\nx = 1\n```");
    assert_eq!(
        outcome.warning(),
        Some(
            "Animation rendering failed: Failed to run manim. Is it installed? (pip install manim)"
                .to_string()
        )
    );
}

#[test]
fn a_render_without_a_video_is_still_rendered() {
    let mut mock = Mock::new("text", WELL_FORMED);
    mock.render = Ok(Rendered::Directory { path: "media/videos/rfc_5/480p15".to_string() });
    let outcome = mock.run(Command::Explain { rfc_num: 5 });
    assert_eq!(
        outcome,
        Outcome::Explained {
            markdown: "rfc/explain/5.md".to_string(),
            video: Rendered::Directory { path: "media/videos/rfc_5/480p15".to_string() },
        }
    );
}

#[test]
fn a_report_that_was_not_waited_for_ends_the_run() {
    let (state, _) = Pipeline::start(Command::Explain { rfc_num: 1 }, Some("k".to_string()));
    let (state, action) = state.step(Event::Written(Ok(())));
    assert_eq!(state, Pipeline::Finished);
    assert_eq!(action, Action::Finish(Outcome::Failed(PipelineError::OutOfOrder)));
    let (state, action) = state.step(Event::Present(false));
    assert_eq!(state, Pipeline::Finished);
    assert_eq!(action, Action::Finish(Outcome::Failed(PipelineError::OutOfOrder)));
    let (state, _) = Pipeline::start(implement(1, "go", "minimal"), Some("k".to_string()));
    let (state, action) = state.step(Event::Rendered(Ok(Rendered::Video { path: "v".to_string() })));
    assert_eq!(state, Pipeline::Finished);
    assert_eq!(action, Action::Finish(Outcome::Failed(PipelineError::OutOfOrder)));
}

#[test]
fn pipeline_error_messages() {
    assert_eq!(
        PipelineError::Fetch(FetchError::NotFound { rfc_num: 12 }).message(),
        "RFC 12 not found"
    );
    assert_eq!(
        PipelineError::Completion(CompletionError::Empty).message(),
        "Empty response from Gemini"
    );
    assert_eq!(
        PipelineError::Section(MissingSection { section: Section::End }).message(),
        "Response missing END marker"
    );
    assert_eq!(
        PipelineError::Validation(ValidationError::Scope { given: "x".to_string() }).message(),
        "Invalid scope: x. Use minimal or practical"
    );
    assert_eq!(PipelineError::Write("disk full".to_string()).message(), "disk full");
    assert_eq!(PipelineError::OutOfOrder.message(), "Unexpected report from the driver");
    assert_eq!(
        PipelineError::Config.message(),
        "GEMINI_API_KEY not set. Get one at https://makersuite.google.com/app/apikey"
    );
}
