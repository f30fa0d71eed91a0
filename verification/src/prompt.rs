//! The prompts: a fixed preamble, then what is asked of the service about one
//! RFC.

use vstd::prelude::*;
use vstd::string::StringExecFns;
use crate::text::{decimal, push_decimal, same_text};

verus! {

/// The preamble of every prompt: who the assistant is and what it must not do.
pub const BASE_SYSTEM: &'static str = "You are a protocol implementation assistant. You help developers understand and implement IETF RFCs. Be concise, accurate, and cite section numbers. Never invent protocol details not in the specification.";

/// In an explain prompt, what stands between the preamble and the number.
pub const EXPLAIN_NUMBER_LEAD: &'static str = "\n\n        RFC ";

/// In an explain prompt, what stands between the number and the text.
pub const EXPLAIN_TEXT_LEAD: &'static str = " excerpt:\n\n        ";

/// In an explain prompt, what follows the text: the two outputs asked for, and the
/// delimiters the answer has to be wrapped in.
pub const EXPLAIN_TASK: &'static str = r#"

        Generate TWO outputs:

        ## Part 1: Explanation (Markdown)
        Generate a clear explanation covering:
        1. What problem this protocol solves
        2. Key concepts and terminology
        3. How the protocol works (high-level flow)
        4. Common use cases

        Length: 500-800 words. Use examples where helpful.

        ## Part 2: Manim Animation Script
        Generate a complete, runnable Manim Python script that visualizes the protocol.

        Requirements:
        - Use manim.Scene as base class
        - Create 30-60 second animation showing the protocol flow
        - Use Text, Arrow, Rectangle, Circle, Lines, Networks for diagrams
        -Once components are used, clean the slate reguarly to keep it fresh
        - Make sure no overlap in between components
        - Include self.wait() between transitions
        - Add narrative text annotations
        - Show data flow, state transitions, or message exchanges and all other required sorts of animations
        - Keep it clean but informative

        Format the output as:

        ---MARKDOWN---
        [markdown explanation here]
        ---MANIM---
        [complete Python manim script here]
        ---END---"#;

/// In an implement prompt, what stands between the preamble and the number.
pub const IMPLEMENT_NUMBER_LEAD: &'static str = "\n\n\
    RFC ";

/// In an implement prompt, what stands between the number and the text.
pub const IMPLEMENT_TEXT_LEAD: &'static str = " excerpt:\n\n";

/// In an implement prompt, what stands between the text and the language.
pub const IMPLEMENT_LANGUAGE_LEAD: &'static str = "\n\n\
    Generate an implementation guide for ";

/// In an implement prompt, what stands between the language and the scope.
pub const IMPLEMENT_SCOPE_LEAD: &'static str = " with ";

/// In an implement prompt, the parts of the guide that is asked for.
pub const IMPLEMENT_TASK: &'static str = " scope:\n\n\
    1. **Architecture Overview**: What components are needed\n\
    2. **Core Data Structures**: Key types (structs/classes)\n\
    3. **Code Skeleton**: Functions with TODO comments for complex logic\n\
    4. **Implementation Steps**: Suggested order to build features\n\n";

/// In an implement prompt, what stands between the description of the scope and
/// the notes on the language.
pub const IMPLEMENT_BLOCK_GAP: &'static str = "\n\n";

/// In an implement prompt, the rules the guide has to keep.
pub const IMPLEMENT_RULES: &'static str = "\n\n\
    CRITICAL RULES:\n\
    - Mark complex logic as TODO with section references\n\
    - Example: // TODO: Implement chunked encoding per Section 7.1\n\
    - Focus on structure and interfaces, not full implementations\n\
    - Include error handling patterns\n\n\
    Format: Markdown with ";

/// In an implement prompt, what follows the last mention of the language.
pub const IMPLEMENT_CLOSE: &'static str = " code blocks.";

/// What the minimal scope asks for.
pub const MINIMAL_SCOPE: &'static str = "Minimal scope: Core functionality only for demo/learning.\n\
    Example for HTTP: Handle GET only, parse basic headers, return 200 OK.\n\
    Target: ~150-200 lines, implementable in 2-3 hours.";

/// What the practical scope asks for.
pub const PRACTICAL_SCOPE: &'static str = "Practical scope: Common real-world features.\n\
    Example for HTTP: Multiple methods, 20+ headers, proper error codes.\n\
    Target: ~400-500 lines, solid foundation for projects.";

/// The notes on Rust.
pub const RUST_NOTES: &'static str = "Language-specific notes for Rust:\n\
    - Use Result<T, Box<dyn Error>> for error handling\n\
    - Use tokio for async I/O (async fn, .await)\n\
    - Prefer std::net::TcpStream or tokio::net::TcpStream\n\
    - Use Vec<u8> for byte buffers";

/// The notes on Python.
pub const PYTHON_NOTES: &'static str = "Language-specific notes for Python:\n\
    - Use async/await with asyncio\n\
    - Use dataclasses or NamedTuple for structures\n\
    - Use bytes/bytearray for buffers\n\
    - Raise custom exceptions for errors";

/// The notes on Go.
pub const GO_NOTES: &'static str = "Language-specific notes for Go:\n\
    - Use net.Conn for TCP connections\n\
    - Return (result, error) tuples\n\
    - Use []byte for buffers\n\
    - Define custom error types";

/// The name of the minimal scope.
pub const MINIMAL: &'static str = "minimal";

/// The name of the practical scope.
pub const PRACTICAL: &'static str = "practical";

/// The name of Rust as a target language.
pub const RUST: &'static str = "rust";

/// The name of Python as a target language.
pub const PYTHON: &'static str = "python";

/// The name of Go as a target language.
pub const GO: &'static str = "go";

/// What stands for a scope that has no description of its own.
pub const OTHER_SCOPE: &'static str = "Standard implementation";

/// How much of a protocol an implementation guide covers.
#[derive(Clone, Copy, Debug, PartialEq, Eq, Structural)]
pub enum Scope {
    Minimal,
    Practical,
}

/// The language an implementation guide is written for.
#[derive(Clone, Copy, Debug, PartialEq, Eq, Structural)]
pub enum Language {
    Rust,
    Python,
    Go,
}

impl Scope {
    /// The name a scope goes by.
    pub open spec fn name_text(self) -> Seq<char> {
        match self {
            Scope::Minimal => MINIMAL@,
            Scope::Practical => PRACTICAL@,
        }
    }

    /// The scope that goes by `name`, if there is one.
    pub open spec fn named(name: Seq<char>) -> Option<Scope> {
        if name == MINIMAL@ {
            Some(Scope::Minimal)
        } else if name == PRACTICAL@ {
            Some(Scope::Practical)
        } else {
            None
        }
    }

    /// The name the scope goes by.
    pub fn name(&self) -> (r: &'static str)
        ensures
            r@ == self.name_text(),
    {
        match self {
            Scope::Minimal => MINIMAL,
            Scope::Practical => PRACTICAL,
        }
    }

    /// Finds the scope that goes by `name`.
    pub fn parse(name: &str) -> (r: Option<Scope>)
        ensures
            r == Scope::named(name@),
    {
        if same_text(name, MINIMAL) {
            Some(Scope::Minimal)
        } else if same_text(name, PRACTICAL) {
            Some(Scope::Practical)
        } else {
            None
        }
    }
}

impl Language {
    /// The name a language goes by.
    pub open spec fn name_text(self) -> Seq<char> {
        match self {
            Language::Rust => RUST@,
            Language::Python => PYTHON@,
            Language::Go => GO@,
        }
    }

    /// The language that goes by `name`, if there is one.
    pub open spec fn named(name: Seq<char>) -> Option<Language> {
        if name == RUST@ {
            Some(Language::Rust)
        } else if name == PYTHON@ {
            Some(Language::Python)
        } else if name == GO@ {
            Some(Language::Go)
        } else {
            None
        }
    }

    /// The name the language goes by.
    pub fn name(&self) -> (r: &'static str)
        ensures
            r@ == self.name_text(),
    {
        match self {
            Language::Rust => RUST,
            Language::Python => PYTHON,
            Language::Go => GO,
        }
    }

    /// Finds the language that goes by `name`.
    pub fn parse(name: &str) -> (r: Option<Language>)
        ensures
            r == Language::named(name@),
    {
        if same_text(name, RUST) {
            Some(Language::Rust)
        } else if same_text(name, PYTHON) {
            Some(Language::Python)
        } else if same_text(name, GO) {
            Some(Language::Go)
        } else {
            None
        }
    }
}

/// The description that goes with the scope called `scope`.
pub open spec fn scope_description(scope: Seq<char>) -> Seq<char> {
    match Scope::named(scope) {
        Some(Scope::Minimal) => MINIMAL_SCOPE@,
        Some(Scope::Practical) => PRACTICAL_SCOPE@,
        None => OTHER_SCOPE@,
    }
}

/// The notes that go with the language called `lang`; none for a name that is
/// no language.
pub open spec fn language_notes(lang: Seq<char>) -> Seq<char> {
    match Language::named(lang) {
        Some(Language::Rust) => RUST_NOTES@,
        Some(Language::Python) => PYTHON_NOTES@,
        Some(Language::Go) => GO_NOTES@,
        None => Seq::empty(),
    }
}

/// The prompt that asks for an explanation and an animation of RFC `rfc_num`,
/// whose cleaned text is `spec_text`.
pub open spec fn explain_prompt(rfc_num: u32, spec_text: Seq<char>) -> Seq<char> {
    BASE_SYSTEM@ + EXPLAIN_NUMBER_LEAD@ + decimal(rfc_num as nat) + EXPLAIN_TEXT_LEAD@ + spec_text
        + EXPLAIN_TASK@
}

/// The prompt that asks for an implementation guide of RFC `rfc_num`, whose
/// cleaned text is `spec_text`, in the language and the scope that go by the
/// names `lang` and `scope`.
pub open spec fn implement_prompt(
    rfc_num: u32,
    spec_text: Seq<char>,
    lang: Seq<char>,
    scope: Seq<char>,
) -> Seq<char> {
    BASE_SYSTEM@ + IMPLEMENT_NUMBER_LEAD@ + decimal(rfc_num as nat) + IMPLEMENT_TEXT_LEAD@
        + spec_text + IMPLEMENT_LANGUAGE_LEAD@ + lang + IMPLEMENT_SCOPE_LEAD@ + scope
        + IMPLEMENT_TASK@ + scope_description(scope) + IMPLEMENT_BLOCK_GAP@ + language_notes(lang)
        + IMPLEMENT_RULES@ + lang + IMPLEMENT_CLOSE@
}

/// Each language and each scope is found again by its name, and with it the
/// text that goes with it: a prompt built from their names never holds the
/// text that stands in for a name that names nothing.
pub proof fn names_are_found_again(language: Language, scope: Scope)
    ensures
        Language::named(language.name_text()) == Some(language),
        Scope::named(scope.name_text()) == Some(scope),
        language_notes(language.name_text()) == match language {
            Language::Rust => RUST_NOTES@,
            Language::Python => PYTHON_NOTES@,
            Language::Go => GO_NOTES@,
        },
        scope_description(scope.name_text()) == match scope {
            Scope::Minimal => MINIMAL_SCOPE@,
            Scope::Practical => PRACTICAL_SCOPE@,
        },
{
    reveal_strlit("rust");
    reveal_strlit("python");
    reveal_strlit("go");
    reveal_strlit("minimal");
    reveal_strlit("practical");
    assert(RUST@.len() == 4 && PYTHON@.len() == 6 && GO@.len() == 2);
    assert(MINIMAL@.len() == 7 && PRACTICAL@.len() == 9);
}

/// The description that goes with the scope called `scope`.
pub fn get_scope_description(scope: &str) -> (r: &'static str)
    ensures
        r@ == scope_description(scope@),
{
    match Scope::parse(scope) {
        Some(Scope::Minimal) => MINIMAL_SCOPE,
        Some(Scope::Practical) => PRACTICAL_SCOPE,
        None => OTHER_SCOPE,
    }
}

/// The notes that go with the language called `lang`.
pub fn get_language_notes(lang: &str) -> (r: &'static str)
    ensures
        r@ == language_notes(lang@),
{
    match Language::parse(lang) {
        Some(Language::Rust) => RUST_NOTES,
        Some(Language::Python) => PYTHON_NOTES,
        Some(Language::Go) => GO_NOTES,
        None => {
            proof {
                reveal_strlit("");
                assert(""@ =~= Seq::<char>::empty());
            }
            ""
        },
    }
}

/// Builds the prompt that asks for an explanation and an animation.
pub fn build_explain_prompt(rfc_num: u32, spec_text: &str) -> (prompt: String)
    ensures
        prompt@ == explain_prompt(rfc_num, spec_text@),
        BASE_SYSTEM@.is_prefix_of(prompt@),
{
    let mut prompt = String::from_str(BASE_SYSTEM);
    prompt.append(EXPLAIN_NUMBER_LEAD);
    push_decimal(&mut prompt, rfc_num);
    prompt.append(EXPLAIN_TEXT_LEAD);
    prompt.append(spec_text);
    prompt.append(EXPLAIN_TASK);
    prompt
}

/// Builds the prompt that asks for an implementation guide.
pub fn build_implement_prompt(rfc_num: u32, spec_text: &str, lang: &str, scope: &str) -> (prompt:
    String)
    ensures
        prompt@ == implement_prompt(rfc_num, spec_text@, lang@, scope@),
        BASE_SYSTEM@.is_prefix_of(prompt@),
{
    let lang_notes = get_language_notes(lang);
    let scope_desc = get_scope_description(scope);
    let mut prompt = String::from_str(BASE_SYSTEM);
    prompt.append(IMPLEMENT_NUMBER_LEAD);
    push_decimal(&mut prompt, rfc_num);
    prompt.append(IMPLEMENT_TEXT_LEAD);
    prompt.append(spec_text);
    prompt.append(IMPLEMENT_LANGUAGE_LEAD);
    prompt.append(lang);
    prompt.append(IMPLEMENT_SCOPE_LEAD);
    prompt.append(scope);
    prompt.append(IMPLEMENT_TASK);
    prompt.append(scope_desc);
    prompt.append(IMPLEMENT_BLOCK_GAP);
    prompt.append(lang_notes);
    prompt.append(IMPLEMENT_RULES);
    prompt.append(lang);
    prompt.append(IMPLEMENT_CLOSE);
    prompt
}

} // verus!
