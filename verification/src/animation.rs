//! The animation: taking the explanation and the script out of a completion,
//! and what surrounds a run of the renderer.

use vstd::prelude::*;
use vstd::string::StringExecFns;
use crate::paths::{video_dir, video_dir_text};
use crate::text::{
    after_first, before_first, before_first_slice, contains_sub, find_sub, from_chars,
    is_only_match, is_trimmed, lemma_before_first_is_prefix, lemma_find_sub,
    lemma_first_match_is_found, lemma_match_in_part, lemma_parts_hold_no_more,
    lemma_trim_is_trimmed, matches_at, split_first, strip_prefix_all, strip_prefix_all_slice,
    strip_suffix_all, strip_suffix_all_slice, to_chars, trim, trim_slice,
};

verus! {

/// Opens the explanation in a completion.
pub const MARKDOWN_DELIMITER: &'static str = "---MARKDOWN---";

/// Closes the explanation and opens the script.
pub const MANIM_DELIMITER: &'static str = "---MANIM---";

/// Closes the script.
pub const END_DELIMITER: &'static str = "---END---";

/// The fence that may open a script, with its language tag.
pub const TAGGED_FENCE: &'static str = "```python";

/// The fence that may open or close a script.
pub const FENCE: &'static str = "```";

/// The program that renders a script.
pub const RENDERER: &'static str = "manim";

/// The flags of a render: preview, low quality.
pub const RENDER_FLAGS: &'static str = "-pql";

/// The extension of a rendered video.
pub const VIDEO_EXTENSION: &'static str = "mp4";

/// The delimited parts of a completion.
#[derive(Clone, Copy, Debug, PartialEq, Eq, Structural)]
pub enum Section {
    Markdown,
    Manim,
    End,
}

/// A completion lacks the delimiter of a section.
#[derive(Clone, Copy, Debug, PartialEq, Eq, Structural)]
pub struct MissingSection {
    pub section: Section,
}

/// What a completion holds: the explanation and the script, or the first
/// section whose delimiter is not where it has to be.
///
/// The explanation opens at the first `---MARKDOWN---`; what is read ends at
/// the next one, if there is one. In that, the explanation runs up to the first
/// `---MANIM---`, and the script from there to the next `---MANIM---` or the
/// end; the script proper ends at the first `---END---` in it. Both are trimmed.
pub open spec fn extraction(response: Seq<char>) -> Result<(Seq<char>, Seq<char>), Section> {
    match after_first(response, MARKDOWN_DELIMITER@) {
        None => Err(Section::Markdown),
        Some(tail) => {
            let rest = before_first(tail, MARKDOWN_DELIMITER@);
            match after_first(rest, MANIM_DELIMITER@) {
                None => Err(Section::Manim),
                Some(after) => {
                    let script_part = before_first(after, MANIM_DELIMITER@);
                    if contains_sub(script_part, END_DELIMITER@) {
                        Ok(
                            (
                                trim(before_first(rest, MANIM_DELIMITER@)),
                                trim(before_first(script_part, END_DELIMITER@)),
                            ),
                        )
                    } else {
                        Err(Section::End)
                    }
                },
            }
        },
    }
}

/// The name of a section, as it stands between the dashes of its delimiter.
pub open spec fn section_name(section: Section) -> Seq<char> {
    match section {
        Section::Markdown => "MARKDOWN"@,
        Section::Manim => "MANIM"@,
        Section::End => "END"@,
    }
}

/// The message that stands for a missing section.
pub open spec fn missing_section_text(section: Section) -> Seq<char> {
    match section {
        Section::Markdown => "Response missing MARKDOWN section"@,
        Section::Manim => "Response missing MANIM section"@,
        Section::End => "Response missing END marker"@,
    }
}

/// A script without the code fences around it: every leading "```python", then
/// every leading "```", then every trailing "```" is taken away, and what is
/// left is trimmed.
pub open spec fn without_fences(script: Seq<char>) -> Seq<char> {
    trim(
        strip_suffix_all(
            strip_prefix_all(strip_prefix_all(script, TAGGED_FENCE@), FENCE@),
            FENCE@,
        ),
    )
}

impl Section {
    /// The name of the section.
    pub fn name(&self) -> (r: &'static str)
        ensures
            r@ == section_name(*self),
    {
        match self {
            Section::Markdown => "MARKDOWN",
            Section::Manim => "MANIM",
            Section::End => "END",
        }
    }
}

impl MissingSection {
    /// The message for a reader.
    pub fn message(&self) -> (m: String)
        ensures
            m@ == missing_section_text(self.section),
    {
        match self.section {
            Section::Markdown => String::from_str("Response missing MARKDOWN section"),
            Section::Manim => String::from_str("Response missing MANIM section"),
            Section::End => String::from_str("Response missing END marker"),
        }
    }
}

/// Takes the explanation and the animation script out of a completion.
///
/// Fails with the first section whose delimiter is missing; `extraction` says
/// where each delimiter is looked for.
pub fn extract_manim_script(response: &str) -> (r: Result<(String, String), MissingSection>)
    ensures
        match r {
            Ok((markdown, script)) => extraction(response@) == Ok::<
                (Seq<char>, Seq<char>),
                Section,
            >((markdown@, script@)),
            Err(e) => extraction(response@) == Err::<(Seq<char>, Seq<char>), Section>(e.section),
        },
{
    let text = to_chars(response);
    let markdown_delim = to_chars(MARKDOWN_DELIMITER);
    let manim_delim = to_chars(MANIM_DELIMITER);
    let end_delim = to_chars(END_DELIMITER);
    let tail = match split_first(text.as_slice(), markdown_delim.as_slice()) {
        Some((_, tail)) => tail,
        None => {
            return Err(MissingSection { section: Section::Markdown });
        },
    };
    let rest = before_first_slice(tail, markdown_delim.as_slice());
    let (markdown_part, after) = match split_first(rest, manim_delim.as_slice()) {
        Some(parts) => parts,
        None => {
            return Err(MissingSection { section: Section::Manim });
        },
    };
    let script_part = before_first_slice(after, manim_delim.as_slice());
    let script = match split_first(script_part, end_delim.as_slice()) {
        Some((script, _)) => script,
        None => {
            proof {
                lemma_find_sub(script_part@, end_delim@);
            }
            return Err(MissingSection { section: Section::End });
        },
    };
    proof {
        lemma_find_sub(script_part@, end_delim@);
    }
    Ok((from_chars(trim_slice(markdown_part)), from_chars(trim_slice(script))))
}

/// A delimiter that stands in a text once, at `at`, is found there, and what
/// follows it does not hold it.
proof fn lemma_only_match(s: Seq<char>, delim: Seq<char>, at: int)
    requires
        delim.len() > 0,
        is_only_match(s, delim, at),
    ensures
        find_sub(s, delim) == Some(at),
        before_first(s, delim) == s.subrange(0, at),
        after_first(s, delim) == Some(s.subrange(at + delim.len(), s.len() as int)),
        !contains_sub(s.subrange(at + delim.len(), s.len() as int), delim),
{
    lemma_first_match_is_found(s, delim, at);
    let after = s.subrange(at + delim.len(), s.len() as int);
    if contains_sub(after, delim) {
        let j = choose|j: int| matches_at(after, delim, j);
        lemma_match_in_part(s, at + delim.len(), s.len() as int, delim, j);
    }
}

/// A delimiter that stands once in a text stands once, or not at all, in each
/// of its parts.
proof fn lemma_only_match_in_part(s: Seq<char>, delim: Seq<char>, at: int, a: int, b: int, i: int)
    requires
        0 <= a <= b <= s.len(),
        is_only_match(s, delim, at),
        matches_at(s.subrange(a, b), delim, i),
    ensures
        is_only_match(s.subrange(a, b), delim, i),
        i == at - a,
{
    lemma_match_in_part(s, a, b, delim, i);
    assert forall|j: int| matches_at(s.subrange(a, b), delim, j) implies j == i by {
        lemma_match_in_part(s, a, b, delim, j);
    }
}

/// A completion in which each delimiter stands once, the three in their
/// order, holds what stands between them: trimmed, the text between the first
/// and the second is the explanation, and the text between the second and the
/// third is the script. What stands before the first and after the third does
/// not count.
pub proof fn delimited_sections_are_extracted(
    before: Seq<char>,
    markdown: Seq<char>,
    script: Seq<char>,
    after: Seq<char>,
)
    requires
        ({
            let response = before + MARKDOWN_DELIMITER@ + markdown + MANIM_DELIMITER@ + script
                + END_DELIMITER@ + after;
            &&& exists|i: int| is_only_match(response, MARKDOWN_DELIMITER@, i)
            &&& exists|i: int| is_only_match(response, MANIM_DELIMITER@, i)
            &&& exists|i: int| is_only_match(response, END_DELIMITER@, i)
        }),
    ensures
        extraction(
            before + MARKDOWN_DELIMITER@ + markdown + MANIM_DELIMITER@ + script + END_DELIMITER@
                + after,
        ) == Ok::<(Seq<char>, Seq<char>), Section>((trim(markdown), trim(script))),
{
    reveal_strlit("---MARKDOWN---");
    reveal_strlit("---MANIM---");
    reveal_strlit("---END---");
    let md = MARKDOWN_DELIMITER@;
    let mn = MANIM_DELIMITER@;
    let en = END_DELIMITER@;
    let response = before + md + markdown + mn + script + en + after;
    let at_md = before.len() as int;
    let at_mn = at_md + md.len() + markdown.len();
    let at_en = at_mn + mn.len() + script.len();
    let n = response.len() as int;
    // Each delimiter stands where the response was put together from it.
    assert(response.subrange(at_md, at_md + md.len()) =~= md);
    assert(response.subrange(at_mn, at_mn + mn.len()) =~= mn);
    assert(response.subrange(at_en, at_en + en.len()) =~= en);
    let once_md = choose|i: int| is_only_match(response, md, i);
    let once_mn = choose|i: int| is_only_match(response, mn, i);
    let once_en = choose|i: int| is_only_match(response, en, i);
    assert(matches_at(response, md, at_md));
    assert(once_md == at_md);
    assert(matches_at(response, mn, at_mn));
    assert(once_mn == at_mn);
    assert(matches_at(response, en, at_en));
    assert(once_en == at_en);
    // The explanation opens once, so all that follows is read.
    lemma_only_match(response, md, at_md);
    let tail = response.subrange(at_md + md.len(), n);
    lemma_find_sub(tail, md);
    assert(before_first(tail, md) == tail);
    // In it, the script opens once.
    let in_tail = at_mn - (at_md + md.len());
    assert(tail.subrange(in_tail, in_tail + mn.len()) =~= mn);
    lemma_only_match_in_part(response, mn, at_mn, at_md + md.len(), n, in_tail);
    lemma_only_match(tail, mn, in_tail);
    assert(tail.subrange(0, in_tail) =~= markdown);
    let rest = tail.subrange(in_tail + mn.len(), tail.len() as int);
    lemma_find_sub(rest, mn);
    assert(before_first(rest, mn) == rest);
    // And in that, the script closes once.
    let in_rest = script.len() as int;
    assert(rest =~= response.subrange(at_mn + mn.len(), n));
    assert(rest.subrange(in_rest, in_rest + en.len()) =~= en);
    lemma_only_match_in_part(response, en, at_en, at_mn + mn.len(), n, in_rest);
    lemma_only_match(rest, en, in_rest);
    assert(rest.subrange(0, in_rest) =~= script);
}

/// The three delimiters stand in `response` in their order, none into another.
pub open spec fn has_delimiters_in_order(response: Seq<char>) -> bool {
    exists|i: int, j: int, k: int|
        #![trigger
            matches_at(response, MARKDOWN_DELIMITER@, i),
            matches_at(response, MANIM_DELIMITER@, j),
            matches_at(response, END_DELIMITER@, k),
        ]
        {
            &&& matches_at(response, MARKDOWN_DELIMITER@, i)
            &&& matches_at(response, MANIM_DELIMITER@, j)
            &&& matches_at(response, END_DELIMITER@, k)
            &&& i + MARKDOWN_DELIMITER@.len() <= j
            &&& j + MANIM_DELIMITER@.len() <= k
        }
}

/// Nothing is taken out of a completion unless the three delimiters stand in
/// it in their order; and what is taken out, the explanation and the script,
/// neither begins nor ends with whitespace.
pub proof fn extraction_needs_the_delimiters_in_order(response: Seq<char>)
    requires
        extraction(response).is_ok(),
    ensures
        has_delimiters_in_order(response),
        is_trimmed(extraction(response).unwrap().0),
        is_trimmed(extraction(response).unwrap().1),
{
    let md = MARKDOWN_DELIMITER@;
    let mn = MANIM_DELIMITER@;
    let en = END_DELIMITER@;
    let n = response.len() as int;
    lemma_find_sub(response, md);
    let i = find_sub(response, md).unwrap();
    let a = i + md.len();
    let tail = response.subrange(a, n);
    let rest = before_first(tail, md);
    lemma_before_first_is_prefix(tail, md);
    lemma_find_sub(rest, mn);
    let in_rest = find_sub(rest, mn).unwrap();
    assert(rest =~= response.subrange(a, a + rest.len()));
    lemma_match_in_part(response, a, a + rest.len(), mn, in_rest);
    let b = a + in_rest + mn.len();
    let after = rest.subrange(in_rest + mn.len(), rest.len() as int);
    let script_part = before_first(after, mn);
    lemma_before_first_is_prefix(after, mn);
    let in_part = choose|k: int| matches_at(script_part, en, k);
    assert(script_part =~= response.subrange(b, b + script_part.len()));
    lemma_match_in_part(response, b, b + script_part.len(), en, in_part);
    assert(matches_at(response, md, i));
    assert(matches_at(response, mn, a + in_rest));
    assert(matches_at(response, en, b + in_part));
    lemma_trim_is_trimmed(before_first(rest, mn));
    lemma_trim_is_trimmed(before_first(script_part, en));
}

/// A completion that lacks a delimiter is turned down.
///
/// One without the opening delimiter of the explanation is turned down for
/// that, and no other is. One that has it but lacks the delimiter of the
/// script is turned down for the script. And whatever is taken out of a
/// completion, all three delimiters were in it: one that lacks the closing
/// delimiter is turned down, for the first section that is not found.
pub proof fn missing_delimiter_is_reported(response: Seq<char>)
    ensures
        !contains_sub(response, MARKDOWN_DELIMITER@) <==> extraction(response) == Err::<
            (Seq<char>, Seq<char>),
            Section,
        >(Section::Markdown),
        contains_sub(response, MARKDOWN_DELIMITER@) && !contains_sub(response, MANIM_DELIMITER@)
            ==> extraction(response) == Err::<(Seq<char>, Seq<char>), Section>(Section::Manim),
        extraction(response).is_ok() ==> contains_sub(response, MARKDOWN_DELIMITER@)
            && contains_sub(response, MANIM_DELIMITER@) && contains_sub(response, END_DELIMITER@),
{
    let markdown = MARKDOWN_DELIMITER@;
    let manim = MANIM_DELIMITER@;
    let end = END_DELIMITER@;
    lemma_find_sub(response, markdown);
    if let Some(tail) = after_first(response, markdown) {
        let rest = before_first(tail, markdown);
        lemma_find_sub(rest, manim);
        lemma_parts_hold_no_more(response, markdown, manim);
        lemma_parts_hold_no_more(tail, markdown, manim);
        lemma_parts_hold_no_more(response, markdown, end);
        lemma_parts_hold_no_more(tail, markdown, end);
        if let Some(after) = after_first(rest, manim) {
            let script_part = before_first(after, manim);
            lemma_parts_hold_no_more(rest, manim, end);
            lemma_parts_hold_no_more(after, manim, end);
        }
    }
}

/// Takes the code fences off a script, as `without_fences` describes.
pub fn strip_code_fences(script: &str) -> (r: String)
    ensures
        r@ == without_fences(script@),
{
    let text = to_chars(script);
    let tagged = to_chars(TAGGED_FENCE);
    let fence = to_chars(FENCE);
    let a = strip_prefix_all_slice(text.as_slice(), tagged.as_slice());
    let b = strip_prefix_all_slice(a, fence.as_slice());
    let c = strip_suffix_all_slice(b, fence.as_slice());
    from_chars(trim_slice(c))
}

/// A run of the renderer: the program and its arguments.
#[derive(Debug, PartialEq, Eq)]
pub struct RenderCommand {
    pub program: String,
    pub args: Vec<String>,
}

impl RenderCommand {
    /// The command renders the script at `script_path`, and nothing else: the
    /// renderer, its fixed flags, and the path as the only positional argument.
    pub open spec fn renders(&self, script_path: Seq<char>) -> bool {
        &&& self.program@ == RENDERER@
        &&& self.args@.len() == 2
        &&& self.args@[0]@ == RENDER_FLAGS@
        &&& self.args@[1]@ == script_path
    }
}

/// The command that renders the script at `script_path`, which is absolute.
pub fn render_command(script_path: &str) -> (command: RenderCommand)
    ensures
        command.renders(script_path@),
{
    let mut args: Vec<String> = Vec::new();
    args.push(String::from_str(RENDER_FLAGS));
    args.push(String::from_str(script_path));
    RenderCommand { program: String::from_str(RENDERER), args }
}

/// Why a render gave no video.
#[derive(Debug, PartialEq, Eq)]
pub enum RenderError {
    /// The script could not be put where the renderer reads it, or the video
    /// could not be reached.
    File { detail: String },
    /// The renderer could not be started.
    Launch { detail: String },
    /// The renderer ran and reported failure.
    Failed { stdout: String, stderr: String },
}

/// A `RenderError` with its texts as character sequences.
pub enum RenderErrorView {
    File { detail: Seq<char> },
    Launch { detail: Seq<char> },
    Failed { stdout: Seq<char>, stderr: Seq<char> },
}

impl View for RenderError {
    type V = RenderErrorView;

    open spec fn view(&self) -> RenderErrorView {
        match self {
            RenderError::File { detail } => RenderErrorView::File { detail: detail@ },
            RenderError::Launch { detail } => RenderErrorView::Launch { detail: detail@ },
            RenderError::Failed { stdout, stderr } => RenderErrorView::Failed {
                stdout: stdout@,
                stderr: stderr@,
            },
        }
    }
}

/// The message that stands for each error.
pub open spec fn render_error_text(e: RenderErrorView) -> Seq<char> {
    match e {
        RenderErrorView::File { detail } => detail,
        RenderErrorView::Launch { detail } =>
            "Failed to run manim. Is it installed? (pip install manim)"@,
        RenderErrorView::Failed { stdout, stderr } => "Manim rendering failed"@,
    }
}

impl RenderError {
    /// The message for a reader.
    pub fn message(&self) -> (m: String)
        ensures
            m@ == render_error_text(self@),
    {
        match self {
            RenderError::File { detail } => detail.clone(),
            RenderError::Launch { detail } => String::from_str(
                "Failed to run manim. Is it installed? (pip install manim)",
            ),
            RenderError::Failed { stdout, stderr } => String::from_str("Manim rendering failed"),
        }
    }
}

/// How a run of the renderer ended, as the driver saw it.
#[derive(Debug, PartialEq, Eq)]
pub enum RunReport {
    /// The renderer could not be started.
    NotStarted { detail: String },
    /// The renderer ran to its end.
    Exited { success: bool, stdout: String, stderr: String },
}

impl RunReport {
    /// The error that a run amounts to, if it is one: a renderer that did not
    /// start, or one that did not exit with success.
    pub open spec fn failure(&self) -> Option<RenderErrorView> {
        match self {
            RunReport::NotStarted { detail } => Some(RenderErrorView::Launch { detail: detail@ }),
            RunReport::Exited { success, stdout, stderr } => if *success {
                None
            } else {
                Some(RenderErrorView::Failed { stdout: stdout@, stderr: stderr@ })
            },
        }
    }
}

/// Judges a run of the renderer: it went well only if the renderer started and
/// exited with success.
pub fn render_verdict(report: RunReport) -> (r: Result<(), RenderError>)
    ensures
        match r {
            Ok(_) => report.failure().is_none(),
            Err(e) => report.failure() == Some(e@),
        },
{
    match report {
        RunReport::NotStarted { detail } => Err(RenderError::Launch { detail }),
        RunReport::Exited { success, stdout, stderr } => {
            if success {
                Ok(())
            } else {
                Err(RenderError::Failed { stdout, stderr })
            }
        },
    }
}

/// Where the outcome of a render is to be found.
#[derive(Debug, PartialEq, Eq)]
pub enum Rendered {
    /// The video file.
    Video { path: String },
    /// No video was found: the directory in which it was looked for.
    Directory { path: String },
}

/// A `Rendered` with its path as a character sequence.
pub enum RenderedView {
    Video { path: Seq<char> },
    Directory { path: Seq<char> },
}

impl View for Rendered {
    type V = RenderedView;

    open spec fn view(&self) -> RenderedView {
        match self {
            Rendered::Video { path } => RenderedView::Video { path: path@ },
            Rendered::Directory { path } => RenderedView::Directory { path: path@ },
        }
    }
}

impl Rendered {
    /// The location, whichever it is.
    pub fn location(&self) -> (r: &String)
        ensures
            r@ == match self@ {
                RenderedView::Video { path } => path,
                RenderedView::Directory { path } => path,
            },
    {
        match self {
            Rendered::Video { path } => path,
            Rendered::Directory { path } => path,
        }
    }
}

/// The entry at `i` has the extension of a video.
pub open spec fn is_video_at(extensions: Seq<Option<String>>, i: int) -> bool {
    &&& 0 <= i < extensions.len()
    &&& extensions[i] matches Some(e)
    &&& e@ == VIDEO_EXTENSION@
}

/// Picks the video among the entries of a directory, each given by the
/// extension of its name: the first entry whose extension is that of a video.
pub fn first_video(extensions: &Vec<Option<String>>) -> (r: Option<usize>)
    ensures
        match r {
            Some(i) => is_video_at(extensions@, i as int) && forall|j: int|
                0 <= j < i ==> !is_video_at(extensions@, j),
            None => forall|j: int| !is_video_at(extensions@, j),
        },
{
    let wanted = String::from_str(VIDEO_EXTENSION);
    let mut i: usize = 0;
    while i < extensions.len()
        invariant
            i <= extensions.len(),
            wanted@ == VIDEO_EXTENSION@,
            forall|j: int| 0 <= j < i ==> !is_video_at(extensions@, j),
        decreases extensions.len() - i,
    {
        match &extensions[i] {
            Some(e) => {
                if *e == wanted {
                    return Some(i);
                }
            },
            None => {},
        }
        i += 1;
    }
    None
}

/// Where the outcome of a successful render of RFC `rfc_num` is: at `video`
/// where a video was found, else in the directory where it was looked for.
pub fn locate_video(rfc_num: u32, video: Option<String>) -> (r: Rendered)
    ensures
        r@ == match video {
            Some(path) => RenderedView::Video { path: path@ },
            None => RenderedView::Directory { path: video_dir_text(rfc_num) },
        },
{
    match video {
        Some(path) => Rendered::Video { path },
        None => Rendered::Directory { path: video_dir(rfc_num) },
    }
}

} // verus!
