use rfcbit::prompt::{
    build_explain_prompt, build_implement_prompt, get_language_notes, get_scope_description,
    Language, Scope, BASE_SYSTEM,
};

const SYSTEM: &str = "You are a protocol implementation assistant. You help developers understand and implement IETF RFCs. Be concise, accurate, and cite section numbers. Never invent protocol details not in the specification.";

fn expected_explain(rfc_num: u32, spec_text: &str) -> String {
    format!(
        r#"{system}

        RFC {rfc_num} excerpt:

        {spec_text}

        Generate TWO outputs:

        ## Part 1: Explanation (Markdown)
        Generate a clear explanation covering:
        1. What problem this protocol solves
        2. Key concepts and terminology
        3. How the protocol works (high-level flow)
        4. Common use cases

        Length: 500-800 words. Use examples where helpful.

        ## Part 2: Manim Animation Script
        Generate a complete, runnable Manim Python script that visualizes the protocol.

        Requirements:
        - Use manim.Scene as base class
        - Create 30-60 second animation showing the protocol flow
        - Use Text, Arrow, Rectangle, Circle, Lines, Networks for diagrams
        -Once components are used, clean the slate reguarly to keep it fresh
        - Make sure no overlap in between components
        - Include self.wait() between transitions
        - Add narrative text annotations
        - Show data flow, state transitions, or message exchanges and all other required sorts of animations
        - Keep it clean but informative

        Format the output as:

        ---MARKDOWN---
        [markdown explanation here]
        ---MANIM---
        [complete Python manim script here]
        ---END---"#,
        system = SYSTEM,
        rfc_num = rfc_num,
        spec_text = spec_text
    )
}

fn expected_implement(
    rfc_num: u32,
    spec_text: &str,
    lang: &str,
    scope: &str,
    scope_desc: &str,
    lang_notes: &str,
) -> String {
    format!(
        r#"{system}

RFC {rfc_num} excerpt:

{spec_text}

Generate an implementation guide for {lang} with {scope} scope:

1. **Architecture Overview**: What components are needed
2. **Core Data Structures**: Key types (structs/classes)
3. **Code Skeleton**: Functions with TODO comments for complex logic
4. **Implementation Steps**: Suggested order to build features

{scope_desc}

{lang_notes}

CRITICAL RULES:
- Mark complex logic as TODO with section references
- Example: // TODO: Implement chunked encoding per Section 7.1
- Focus on structure and interfaces, not full implementations
- Include error handling patterns

Format: Markdown with {lang} code blocks."#,
        system = SYSTEM,
        rfc_num = rfc_num,
        spec_text = spec_text,
        lang = lang,
        scope = scope,
        scope_desc = scope_desc,
        lang_notes = lang_notes,
    )
}

const MINIMAL_TEXT: &str = "Minimal scope: Core functionality only for demo/learning.\nExample for HTTP: Handle GET only, parse basic headers, return 200 OK.\nTarget: ~150-200 lines, implementable in 2-3 hours.";

const PRACTICAL_TEXT: &str = "Practical scope: Common real-world features.\nExample for HTTP: Multiple methods, 20+ headers, proper error codes.\nTarget: ~400-500 lines, solid foundation for projects.";

const RUST_TEXT: &str = "Language-specific notes for Rust:\n- Use Result<T, Box<dyn Error>> for error handling\n- Use tokio for async I/O (async fn, .await)\n- Prefer std::net::TcpStream or tokio::net::TcpStream\n- Use Vec<u8> for byte buffers";

const PYTHON_TEXT: &str = "Language-specific notes for Python:\n- Use async/await with asyncio\n- Use dataclasses or NamedTuple for structures\n- Use bytes/bytearray for buffers\n- Raise custom exceptions for errors";

const GO_TEXT: &str = "Language-specific notes for Go:\n- Use net.Conn for TCP connections\n- Return (result, error) tuples\n- Use []byte for buffers\n- Define custom error types";

#[test]
fn preamble_is_fixed() {
    assert_eq!(BASE_SYSTEM, SYSTEM);
}

#[test]
fn explain_prompt_is_the_template_filled_in() {
    assert_eq!(
        build_explain_prompt(9293, "TCP is a protocol."),
        expected_explain(9293, "TCP is a protocol.")
    );
    assert_eq!(build_explain_prompt(0, ""), expected_explain(0, ""));
    assert_eq!(
        build_explain_prompt(u32::MAX, "line one\nline two"),
        expected_explain(u32::MAX, "line one\nline two")
    );
}

#[test]
fn explain_prompt_asks_for_the_three_delimiters_in_order() {
    let prompt = build_explain_prompt(793, "text");
    let markdown = prompt.find("---MARKDOWN---").unwrap();
    let manim = prompt.find("---MANIM---").unwrap();
    let end = prompt.find("---END---").unwrap();
    assert!(markdown < manim && manim < end);
    assert!(prompt.ends_with("---END---"));
    assert!(prompt.contains("Length: 500-800 words."));
}

#[test]
fn every_prompt_begins_with_the_preamble() {
    assert!(build_explain_prompt(1, "x").starts_with(SYSTEM));
    assert!(build_implement_prompt(1, "x", "rust", "minimal").starts_with(SYSTEM));
    assert!(build_implement_prompt(1, "x", "cobol", "huge").starts_with(SYSTEM));
}

#[test]
fn implement_prompt_is_the_template_filled_in() {
    assert_eq!(
        build_implement_prompt(9110, "HTTP text", "go", "practical"),
        expected_implement(9110, "HTTP text", "go", "practical", PRACTICAL_TEXT, GO_TEXT)
    );
    assert_eq!(
        build_implement_prompt(793, "", "rust", "minimal"),
        expected_implement(793, "", "rust", "minimal", MINIMAL_TEXT, RUST_TEXT)
    );
    assert_eq!(
        build_implement_prompt(2616, "a\nb", "python", "minimal"),
        expected_implement(2616, "a\nb", "python", "minimal", MINIMAL_TEXT, PYTHON_TEXT)
    );
}

#[test]
fn implement_prompt_with_names_that_name_nothing() {
    assert_eq!(
        build_implement_prompt(1, "t", "cobol", "huge"),
        expected_implement(1, "t", "cobol", "huge", "Standard implementation", "")
    );
}

#[test]
fn scope_descriptions() {
    assert_eq!(get_scope_description("minimal"), MINIMAL_TEXT);
    assert_eq!(get_scope_description("practical"), PRACTICAL_TEXT);
    assert_eq!(get_scope_description("Minimal"), "Standard implementation");
    assert_eq!(get_scope_description(""), "Standard implementation");
    assert_eq!(get_scope_description("minimal "), "Standard implementation");
}

#[test]
fn language_notes() {
    assert_eq!(get_language_notes("rust"), RUST_TEXT);
    assert_eq!(get_language_notes("python"), PYTHON_TEXT);
    assert_eq!(get_language_notes("go"), GO_TEXT);
    assert_eq!(get_language_notes("Go"), "");
    assert_eq!(get_language_notes(""), "");
    assert_eq!(get_language_notes("c"), "");
}

#[test]
fn languages_go_by_their_names() {
    assert_eq!(Language::parse("rust"), Some(Language::Rust));
    assert_eq!(Language::parse("python"), Some(Language::Python));
    assert_eq!(Language::parse("go"), Some(Language::Go));
    assert_eq!(Language::parse("Rust"), None);
    assert_eq!(Language::parse("golang"), None);
    assert_eq!(Language::parse(""), None);
    for language in [Language::Rust, Language::Python, Language::Go] {
        assert_eq!(Language::parse(language.name()), Some(language));
    }
}

#[test]
fn scopes_go_by_their_names() {
    assert_eq!(Scope::parse("minimal"), Some(Scope::Minimal));
    assert_eq!(Scope::parse("practical"), Some(Scope::Practical));
    assert_eq!(Scope::parse("full"), None);
    assert_eq!(Scope::parse("MINIMAL"), None);
    for scope in [Scope::Minimal, Scope::Practical] {
        assert_eq!(Scope::parse(scope.name()), Some(scope));
    }
}
