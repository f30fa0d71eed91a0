//! The text of an RFC: where it is fetched from, how the answer of the server
//! is judged, and how the raw text is cleaned.

use vstd::prelude::*;
use vstd::string::StringExecFns;
use crate::http::{is_success, is_success_status, status_display, status_text, NOT_FOUND};
use crate::lines::{
    are_lines, cut_lines, ends_visibly, has_cr_lf, has_no_newline, join_lines,
    lemma_cut_lines_are_prefixes, lemma_join_contains, lemma_join_filter_len, lemma_join_front,
    lemma_join_push, lemma_joined_lines_len, lemma_last_line_is_blank,
    lemma_lines_have_no_newline, lemma_lines_last, lemma_lines_of_cut, lemma_lines_step, lines,
    newline, without_cr,
};
use crate::text::{
    contains_char, contains_sub, decimal, find_slice, from_chars, is_blank, is_whitespace,
    lemma_contains_sub_of_prefix, lemma_find_sub, lemma_trim, lemma_trim_of_prefix, matches_at,
    push_decimal, starts_with_slice, to_chars, trim, trim_slice,
};

verus! {

/// What comes before the number in the address of an RFC.
pub const RFC_URL_PREFIX: &'static str = "https://www.rfc-editor.org/rfc/rfc";

/// What comes after the number in the address of an RFC.
pub const RFC_URL_SUFFIX: &'static str = ".txt";

/// The user agent a fetch announces.
pub const USER_AGENT: &'static str = "rfcbit/0.1";

/// The seconds a fetch may take.
pub const FETCH_TIMEOUT_SECS: u64 = 15;

/// The largest number of characters a cleaned text may hold.
pub const MAX_TEXT_CHARS: usize = 500_000;

/// What the trimmed footer of a page begins with.
pub const PAGE_MARKER: &'static str = "[Page ";

/// What the trimmed running header of a page begins with.
pub const HEADER_MARKER: &'static str = "RFC ";

/// The run of dots that marks a line of a table of contents.
pub const LEADER: &'static str = "................";

/// The character that separates pages.
pub const FORM_FEED: char = '\x0C';

/// The address of RFC `rfc_num`.
pub open spec fn rfc_url_text(rfc_num: u32) -> Seq<char> {
    RFC_URL_PREFIX@ + decimal(rfc_num as nat) + RFC_URL_SUFFIX@
}

/// The address of RFC `rfc_num`.
pub fn rfc_url(rfc_num: u32) -> (url: String)
    ensures
        url@ == rfc_url_text(rfc_num),
{
    let mut url = String::from_str(RFC_URL_PREFIX);
    push_decimal(&mut url, rfc_num);
    url.append(RFC_URL_SUFFIX);
    url
}

/// What a fetch asks the server, and how.
#[derive(Debug, PartialEq, Eq)]
pub struct FetchRequest {
    pub url: String,
    pub user_agent: String,
    pub timeout_secs: u64,
}

impl FetchRequest {
    /// The request is the one for RFC `rfc_num`: a GET of its address, under
    /// the fixed user agent, given up after the fixed time.
    pub open spec fn asks_for(&self, rfc_num: u32) -> bool {
        &&& self.url@ == rfc_url_text(rfc_num)
        &&& self.user_agent@ == USER_AGENT@
        &&& self.timeout_secs == FETCH_TIMEOUT_SECS
    }
}

/// The request that fetches RFC `rfc_num`.
pub fn fetch_request(rfc_num: u32) -> (request: FetchRequest)
    ensures
        request.asks_for(rfc_num),
{
    FetchRequest {
        url: rfc_url(rfc_num),
        user_agent: String::from_str(USER_AGENT),
        timeout_secs: FETCH_TIMEOUT_SECS,
    }
}

/// Why a fetch gave no text.
#[derive(Debug, PartialEq, Eq)]
pub enum FetchError {
    /// The server has no RFC of that number.
    NotFound { rfc_num: u32 },
    /// The server answered with another status that is no success.
    Status { status: u16 },
    /// The request did not get through, or the answer could not be read.
    Transport { detail: String },
}

/// A `FetchError` with its text as a character sequence.
pub enum FetchErrorView {
    NotFound { rfc_num: u32 },
    Status { status: u16 },
    Transport { detail: Seq<char> },
}

impl View for FetchError {
    type V = FetchErrorView;

    open spec fn view(&self) -> FetchErrorView {
        match self {
            FetchError::NotFound { rfc_num } => FetchErrorView::NotFound { rfc_num: *rfc_num },
            FetchError::Status { status } => FetchErrorView::Status { status: *status },
            FetchError::Transport { detail } => FetchErrorView::Transport { detail: detail@ },
        }
    }
}

/// The message that stands for each error.
pub open spec fn fetch_error_text(e: FetchErrorView) -> Seq<char> {
    match e {
        FetchErrorView::NotFound { rfc_num } => "RFC "@ + decimal(rfc_num as nat) + " not found"@,
        FetchErrorView::Status { status } => "HTTP error: "@ + status_display(status),
        FetchErrorView::Transport { detail } => "Failed to fetch RFC"@,
    }
}

impl FetchError {
    /// The message for a reader.
    pub fn message(&self) -> (m: String)
        ensures
            m@ == fetch_error_text(self@),
    {
        match self {
            FetchError::NotFound { rfc_num } => {
                let mut m = String::from_str("RFC ");
                push_decimal(&mut m, *rfc_num);
                m.append(" not found");
                m
            },
            FetchError::Status { status } => {
                let mut m = String::from_str("HTTP error: ");
                let shown = status_text(*status);
                m.append(shown.as_str());
                m
            },
            FetchError::Transport { detail } => String::from_str("Failed to fetch RFC"),
        }
    }
}

/// What the status of the server's answer means for the fetch of RFC
/// `rfc_num`: nothing where it is a success, else the error it stands for.
pub open spec fn status_error(rfc_num: u32, status: u16) -> Option<FetchErrorView> {
    if status == NOT_FOUND {
        Some(FetchErrorView::NotFound { rfc_num })
    } else if !is_success_status(status) {
        Some(FetchErrorView::Status { status })
    } else {
        None
    }
}

/// Judges the status of the server's answer to the fetch of RFC `rfc_num`.
pub fn check_status(rfc_num: u32, status: u16) -> (r: Result<(), FetchError>)
    ensures
        match r {
            Ok(_) => status_error(rfc_num, status).is_none(),
            Err(e) => status_error(rfc_num, status) == Some(e@),
        },
{
    if status == NOT_FOUND {
        Err(FetchError::NotFound { rfc_num })
    } else if !is_success(status) {
        Err(FetchError::Status { status })
    } else {
        Ok(())
    }
}

/// Whether `line` is none of what cleaning takes out for what it holds: its
/// trimmed form begins with neither the page marker nor the header marker, and
/// the line holds neither a form feed nor a run of leader dots.
pub open spec fn is_unmarked(line: Seq<char>) -> bool {
    &&& !PAGE_MARKER@.is_prefix_of(trim(line))
    &&& !HEADER_MARKER@.is_prefix_of(trim(line))
    &&& !line.contains(FORM_FEED)
    &&& !contains_sub(line, LEADER@)
}

/// Whether cleaning keeps `line`: it is unmarked, and not blank.
pub open spec fn keeps(line: Seq<char>) -> bool {
    &&& trim(line).len() > 0
    &&& is_unmarked(line)
}

/// `keeps`, as a predicate to filter with.
pub open spec fn keeps_pred() -> spec_fn(Seq<char>) -> bool {
    |line: Seq<char>| keeps(line)
}

/// The lines of `raw` that cleaning keeps, in their order.
pub open spec fn kept_lines(raw: Seq<char>) -> Seq<Seq<char>> {
    lines(raw).filter(keeps_pred())
}

/// The kept lines of `raw`, joined.
pub open spec fn joined(raw: Seq<char>) -> Seq<char> {
    join_lines(kept_lines(raw))
}

/// Whether the kept lines of `raw` are more than a cleaned text may hold.
pub open spec fn is_truncated(raw: Seq<char>) -> bool {
    joined(raw).len() > MAX_TEXT_CHARS
}

/// The cleaned text of `raw`: its kept lines, joined, and cut after
/// `MAX_TEXT_CHARS` characters where they are more.
pub open spec fn cleaned(raw: Seq<char>) -> Seq<char> {
    if is_truncated(raw) {
        joined(raw).take(MAX_TEXT_CHARS as int)
    } else {
        joined(raw)
    }
}

/// The number of characters that cleaning leaves of `raw`.
pub open spec fn cleaned_len(raw: Seq<char>) -> int {
    if is_truncated(raw) {
        MAX_TEXT_CHARS as int
    } else {
        joined(raw).len() as int
    }
}

/// The markers cleaning looks for, as characters.
struct Markers {
    page: Vec<char>,
    header: Vec<char>,
    leader: Vec<char>,
}

impl Markers {
    spec fn wf(&self) -> bool {
        &&& self.page@ == PAGE_MARKER@
        &&& self.header@ == HEADER_MARKER@
        &&& self.leader@ == LEADER@
    }

    fn new() -> (m: Markers)
        ensures
            m.wf(),
    {
        Markers {
            page: to_chars(PAGE_MARKER),
            header: to_chars(HEADER_MARKER),
            leader: to_chars(LEADER),
        }
    }

    fn keeps_line(&self, line: &[char]) -> (r: bool)
        requires
            self.wf(),
        ensures
            r == keeps(line@),
    {
        let trimmed = trim_slice(line);
        if trimmed.len() == 0 {
            return false;
        }
        if starts_with_slice(trimmed, self.page.as_slice()) {
            return false;
        }
        if starts_with_slice(trimmed, self.header.as_slice()) {
            return false;
        }
        if contains_char(line, FORM_FEED) {
            return false;
        }
        proof {
            lemma_find_sub(line@, self.leader@);
        }
        find_slice(line, self.leader.as_slice()).is_none()
    }
}

/// Appends the characters of `s` to `out`.
fn push_all(out: &mut Vec<char>, s: &[char])
    ensures
        final(out)@ == old(out)@ + s@,
{
    let mut i: usize = 0;
    while i < s.len()
        invariant
            i <= s.len(),
            out@ == old(out)@ + s@.take(i as int),
        decreases s.len() - i,
    {
        out.push(s[i]);
        i += 1;
    }
}

/// A cleaned text, and whether the cap cut it.
#[derive(Debug, PartialEq, Eq)]
pub struct CleanedText {
    pub text: String,
    pub truncated: bool,
}

/// Cleans the raw text of an RFC.
///
/// Keeps the lines that `keeps` describes, in their order, and joins them with
/// line feeds. Where that is more than `MAX_TEXT_CHARS` characters, the text is
/// cut after that many and `truncated` is set: the caller owes a warning.
pub fn clean_rfc_text(raw: &str) -> (r: CleanedText)
    ensures
        r.text@ == cleaned(raw@),
        r.truncated == is_truncated(raw@),
        r.text@.len() <= MAX_TEXT_CHARS,
        r.truncated ==> r.text@.len() == MAX_TEXT_CHARS,
        !r.truncated ==> r.text@ == joined(raw@),
{
    let chars = to_chars(raw);
    let s = chars.as_slice();
    let n = s.len();
    let markers = Markers::new();
    let mut out: Vec<char> = Vec::new();
    let mut any_kept = false;
    let mut pos: usize = 0;
    let ghost mut done: Seq<Seq<char>> = Seq::empty();
    proof {
        assert(s@.skip(0) =~= s@);
        assert(done + lines(s@) =~= lines(s@));
        reveal(Seq::filter);
    }
    while pos < n
        invariant
            pos <= n,
            n == s@.len(),
            markers.wf(),
            lines(s@) == done + lines(s@.skip(pos as int)),
            out@ == join_lines(done.filter(keeps_pred())),
            any_kept == (done.filter(keeps_pred()).len() > 0),
        decreases n - pos,
    {
        let mut j: usize = pos;
        while j < n && s[j] != '\n'
            invariant
                pos <= j <= n,
                n == s@.len(),
                forall|k: int| pos <= k < j ==> s@[k] != '\n',
            decreases n - j,
        {
            j += 1;
        }
        let line: &[char];
        let next: usize;
        if j < n {
            let end = if j > pos && s[j - 1] == '\r' {
                j - 1
            } else {
                j
            };
            line = vstd::slice::slice_subrange(s, pos, end);
            next = j + 1;
            proof {
                lemma_lines_step(s@, pos as int, j as int);
                assert(line@ =~= without_cr(s@.subrange(pos as int, j as int)));
            }
        } else {
            line = vstd::slice::slice_subrange(s, pos, n);
            next = n;
            proof {
                lemma_lines_last(s@, pos as int);
                assert(line@ =~= s@.skip(pos as int));
                assert(lines(s@.skip(n as int)) =~= Seq::<Seq<char>>::empty());
            }
        }
        proof {
            assert(lines(s@.skip(pos as int)) == seq![line@] + lines(s@.skip(next as int)));
            assert(done + (seq![line@] + lines(s@.skip(next as int))) =~= done.push(line@) + lines(
                s@.skip(next as int),
            ));
            done.lemma_filter_push(line@, keeps_pred());
            lemma_join_push(done.filter(keeps_pred()), line@);
        }
        if markers.keeps_line(line) {
            if any_kept {
                out.push('\n');
            }
            push_all(&mut out, line);
            any_kept = true;
        }
        proof {
            done = done.push(line@);
        }
        pos = next;
    }
    proof {
        assert(lines(s@.skip(n as int)) =~= Seq::<Seq<char>>::empty());
        assert(done + Seq::<Seq<char>>::empty() =~= done);
    }
    let truncated = out.len() > MAX_TEXT_CHARS;
    if truncated {
        out.truncate(MAX_TEXT_CHARS);
    }
    CleanedText { text: from_chars(out.as_slice()), truncated }
}

/// What is taken out of a line for what it holds is not in a part of its front.
proof fn lemma_prefix_is_unmarked(p: Seq<char>, k: Seq<char>)
    requires
        p.is_prefix_of(k),
        is_unmarked(k),
    ensures
        is_unmarked(p),
{
    reveal_strlit("[Page ");
    reveal_strlit("RFC ");
    lemma_trim(p);
    if !is_blank(p) {
        lemma_trim_of_prefix(p, k);
        let tp = trim(p);
        let tk = trim(k);
        if PAGE_MARKER@.is_prefix_of(tp) {
            assert(PAGE_MARKER@ =~= tk.subrange(0, PAGE_MARKER@.len() as int));
        }
        if HEADER_MARKER@.is_prefix_of(tp) {
            assert(HEADER_MARKER@ =~= tk.subrange(0, HEADER_MARKER@.len() as int));
        }
    }
    if p.contains(FORM_FEED) {
        let i = choose|i: int| 0 <= i < p.len() && p[i] == FORM_FEED;
        assert(p[i] == k.subrange(0, p.len() as int)[i]);
        assert(k[i] == FORM_FEED);
    }
    if contains_sub(p, LEADER@) {
        lemma_contains_sub_of_prefix(p, k, LEADER@);
    }
}

/// The kept lines of a text are lines, and each is one that cleaning keeps.
proof fn lemma_kept_lines(raw: Seq<char>)
    ensures
        are_lines(kept_lines(raw)),
        forall|i: int|
            0 <= i < kept_lines(raw).len() ==> keeps(#[trigger] kept_lines(raw)[i]) && lines(
                raw,
            ).contains(kept_lines(raw)[i]),
{
    let all = lines(raw);
    let kept = kept_lines(raw);
    lemma_lines_have_no_newline(raw);
    assert forall|i: int| 0 <= i < kept.len() implies keeps(#[trigger] kept[i]) && all.contains(
        kept[i],
    ) && kept[i].len() > 0 && has_no_newline(kept[i]) by {
        all.lemma_filter_pred(keeps_pred(), i);
        all.lemma_filter_contains_rev(keeps_pred(), kept[i]);
        let j = choose|j: int| 0 <= j < all.len() && all[j] == kept[i];
        assert(has_no_newline(all[j]));
        lemma_trim(kept[i]);
        if kept[i].len() == 0 {
            assert(is_blank(kept[i]));
        }
    }
}

/// What cleaning leaves of a text: the first `cleaned_len` characters of its
/// joined kept lines.
proof fn lemma_cleaned_is_cut(raw: Seq<char>)
    ensures
        0 <= cleaned_len(raw) <= joined(raw).len(),
        cleaned(raw) == joined(raw).take(cleaned_len(raw)),
        lines(cleaned(raw)) == cut_lines(kept_lines(raw), cleaned_len(raw)),
{
    lemma_kept_lines(raw);
    if !is_truncated(raw) {
        assert(joined(raw).take(joined(raw).len() as int) =~= joined(raw));
    }
    lemma_lines_of_cut(kept_lines(raw), cleaned_len(raw));
}

/// Filtering lines that are all to be kept changes nothing.
proof fn lemma_filter_keeps_all(ls: Seq<Seq<char>>)
    requires
        forall|i: int| 0 <= i < ls.len() ==> keeps(#[trigger] ls[i]),
    ensures
        ls.filter(keeps_pred()) == ls,
    decreases ls.len(),
{
    reveal(Seq::filter);
    if ls.len() > 0 {
        let front = ls.drop_last();
        assert forall|i: int| 0 <= i < front.len() implies keeps(#[trigger] front[i]) by {
            assert(front[i] == ls[i]);
        }
        lemma_filter_keeps_all(front);
        assert(keeps(ls[ls.len() - 1]));
        assert(front.push(ls.last()) =~= ls);
    }
}

/// The run of leader dots is not empty and holds no line feed.
proof fn lemma_leader_is_plain()
    ensures
        LEADER@.len() > 0,
        has_no_newline(LEADER@),
{
    reveal_strlit("................");
}

/// No line of a cleaned text holds what cleaning takes a line out for.
proof fn lemma_cleaned_lines_are_unmarked(raw: Seq<char>)
    ensures
        forall|j: int|
            0 <= j < lines(cleaned(raw)).len() ==> is_unmarked(#[trigger] lines(cleaned(raw))[j]),
{
    let kept = kept_lines(raw);
    let text = cleaned(raw);
    lemma_kept_lines(raw);
    lemma_cleaned_is_cut(raw);
    assert forall|j: int| 0 <= j < lines(text).len() implies is_unmarked(
        #[trigger] lines(text)[j],
    ) by {
        lemma_cut_lines_are_prefixes(kept, cleaned_len(raw), j);
        let i = choose|i: int|
            0 <= i < kept.len() && cut_lines(kept, cleaned_len(raw))[j].is_prefix_of(
                #[trigger] kept[i],
            );
        assert(keeps(kept[i]));
        lemma_prefix_is_unmarked(lines(text)[j], kept[i]);
    }
}

/// What a cleaned text holds, one of its kept lines holds, as long as it is a
/// text without a line feed, and not the empty one.
proof fn lemma_cleaned_contains(raw: Seq<char>, needle: Seq<char>)
    requires
        needle.len() > 0,
        has_no_newline(needle),
        contains_sub(cleaned(raw), needle),
    ensures
        exists|i: int|
            0 <= i < kept_lines(raw).len() && keeps(#[trigger] kept_lines(raw)[i]) && contains_sub(
                kept_lines(raw)[i],
                needle,
            ),
{
    let kept = kept_lines(raw);
    lemma_kept_lines(raw);
    lemma_cleaned_is_cut(raw);
    assert(cleaned(raw).is_prefix_of(joined(raw)));
    lemma_contains_sub_of_prefix(cleaned(raw), joined(raw), needle);
    lemma_join_contains(kept, needle);
    let i = choose|i: int| 0 <= i < kept.len() && contains_sub(#[trigger] kept[i], needle);
    assert(keeps(kept[i]));
}

/// Cleaning never gives more than the cap allows, nor more than it was given.
///
/// Where the kept lines, joined, are more than the cap allows, the cleaned
/// text is their first `MAX_TEXT_CHARS` characters, exactly that many; else it
/// is the kept lines, joined, and nothing is cut.
pub proof fn cleaned_text_is_capped(raw: Seq<char>)
    ensures
        cleaned(raw).len() <= MAX_TEXT_CHARS,
        cleaned(raw).len() <= raw.len(),
        is_truncated(raw) ==> cleaned(raw).len() == MAX_TEXT_CHARS && cleaned(raw) == joined(
            raw,
        ).take(MAX_TEXT_CHARS as int),
        !is_truncated(raw) ==> cleaned(raw) == joined(raw),
{
    lemma_joined_lines_len(raw);
    lemma_join_filter_len(lines(raw), keeps_pred());
}

/// Cleaning takes out what it is to take out.
///
/// The cleaned text holds no form feed and no run of leader dots, and none of
/// its lines, trimmed, begins with the page marker or the header marker. This
/// holds of every text, cut by the cap or not.
pub proof fn cleaned_text_is_unmarked(raw: Seq<char>)
    ensures
        !cleaned(raw).contains(FORM_FEED),
        !contains_sub(cleaned(raw), LEADER@),
        forall|j: int|
            0 <= j < lines(cleaned(raw)).len() ==> is_unmarked(#[trigger] lines(cleaned(raw))[j]),
{
    let text = cleaned(raw);
    lemma_cleaned_lines_are_unmarked(raw);
    if contains_sub(text, LEADER@) {
        lemma_leader_is_plain();
        lemma_cleaned_contains(raw, LEADER@);
    }
    if text.contains(FORM_FEED) {
        let at = choose|at: int| 0 <= at < text.len() && text[at] == FORM_FEED;
        let needle = seq![FORM_FEED];
        assert(text.subrange(at, at + 1) =~= needle);
        assert(matches_at(text, needle, at));
        lemma_cleaned_contains(raw, needle);
        let kept = kept_lines(raw);
        let i = choose|i: int|
            0 <= i < kept.len() && keeps(#[trigger] kept[i]) && contains_sub(kept[i], needle);
        let inner = choose|inner: int| matches_at(kept[i], needle, inner);
        assert(kept[i].subrange(inner, inner + 1)[0] == kept[i][inner]);
        assert(kept[i].contains(FORM_FEED));
    }
}

/// Cleaning keeps every other line, in the order of the text.
///
/// The kept lines are lines of the text, and each is one that cleaning keeps;
/// every line of the text that cleaning keeps is among them; and wherever the
/// text is parted in two, what is kept of the first part comes before what is
/// kept of the second. The cleaned text is these lines joined, or, where that
/// is more than the cap allows, the front of it.
pub proof fn kept_lines_are_the_other_lines(raw: Seq<char>)
    ensures
        forall|i: int|
            0 <= i < kept_lines(raw).len() ==> keeps(#[trigger] kept_lines(raw)[i]) && lines(
                raw,
            ).contains(kept_lines(raw)[i]),
        forall|i: int|
            0 <= i < lines(raw).len() && keeps(#[trigger] lines(raw)[i]) ==> kept_lines(
                raw,
            ).contains(lines(raw)[i]),
        forall|n: int|
            0 <= n <= lines(raw).len() ==> kept_lines(raw) == (#[trigger] lines(raw).take(
                n,
            )).filter(keeps_pred()) + lines(raw).skip(n).filter(keeps_pred()),
        cleaned(raw).is_prefix_of(join_lines(kept_lines(raw))),
        !is_truncated(raw) ==> cleaned(raw) == join_lines(kept_lines(raw)),
{
    let all = lines(raw);
    lemma_kept_lines(raw);
    lemma_cleaned_is_cut(raw);
    assert forall|i: int| 0 <= i < all.len() && keeps(#[trigger] all[i]) implies kept_lines(
        raw,
    ).contains(all[i]) by {
        all.lemma_filter_contains(keeps_pred(), i);
    }
    assert forall|n: int| 0 <= n <= all.len() implies kept_lines(raw) == (#[trigger] all.take(
        n,
    )).filter(keeps_pred()) + all.skip(n).filter(keeps_pred()) by {
        assert(all.take(n) + all.skip(n) =~= all);
        Seq::filter_distributes_over_add(all.take(n), all.skip(n), keeps_pred());
    }
}

/// What keeps a cut text unchanged when it is cleaned again: its lines are
/// all kept, and joined they are the text.
proof fn lemma_cut_is_fixed(ls: Seq<Seq<char>>, c: int)
    requires
        are_lines(ls),
        forall|i: int| 0 <= i < ls.len() ==> keeps(#[trigger] ls[i]),
        0 <= c <= join_lines(ls).len(),
        !has_cr_lf(join_lines(ls).take(c)),
        ends_visibly(join_lines(ls).take(c)),
    ensures
        forall|j: int| 0 <= j < cut_lines(ls, c).len() ==> keeps(#[trigger] cut_lines(ls, c)[j]),
        join_lines(cut_lines(ls, c)) == join_lines(ls).take(c),
        c > 0 ==> cut_lines(ls, c).len() > 0,
    decreases ls.len(),
{
    let text = join_lines(ls).take(c);
    if ls.len() == 0 || c <= 0 {
        assert(text.len() == 0);
    } else {
        let k = ls[0];
        let rest = ls.drop_first();
        assert(ls =~= seq![k] + rest);
        assert(keeps(k));
        assert(k.len() > 0 && has_no_newline(k));
        if rest.len() > 0 {
            lemma_join_front(k, rest);
        }
        let seen = choose|i: int|
            0 <= i < text.len() && !is_whitespace(#[trigger] text[i]) && forall|j: int|
                i < j < text.len() ==> text[j] != '\n';
        if c <= k.len() {
            let p = k.take(c);
            assert(text =~= p);
            assert(!is_blank(p));
            lemma_trim(p);
            lemma_prefix_is_unmarked(p, k);
            assert(cut_lines(ls, c) =~= seq![p]);
        } else {
            let n = k.len() as int;
            let c2 = c - n - 1;
            let tail = join_lines(rest).take(c2);
            assert(text =~= k + newline() + tail);
            assert(text[n] == '\n');
            assert(text[n - 1] == k[n - 1]);
            assert(without_cr(k) == k) by {
                if k.last() == '\r' {
                    assert(text[n - 1] == '\r' && text[n - 1 + 1] == '\n');
                }
            }
            assert(seen > n);
            assert(tail.len() > 0);
            assert forall|i: int| 0 <= i < rest.len() implies keeps(#[trigger] rest[i])
                && rest[i].len() > 0 && has_no_newline(rest[i]) by {
                assert(rest[i] == ls[i + 1]);
            }
            assert(!has_cr_lf(tail)) by {
                if has_cr_lf(tail) {
                    let i = choose|i: int|
                        0 <= i < tail.len() - 1 && #[trigger] tail[i] == '\r' && tail[i + 1]
                            == '\n';
                    assert(text[i + n + 1] == '\r' && text[i + n + 1 + 1] == '\n');
                }
            }
            assert(ends_visibly(tail)) by {
                let i = seen - n - 1;
                assert(tail[i] == text[seen]);
                assert forall|j: int| i < j < tail.len() implies tail[j] != '\n' by {
                    assert(tail[j] == text[j + n + 1]);
                }
            }
            lemma_cut_is_fixed(rest, c2);
            let below = cut_lines(rest, c2);
            assert(cut_lines(ls, c) =~= seq![k] + below);
            lemma_join_front(k, below);
            assert forall|j: int| 0 <= j < cut_lines(ls, c).len() implies keeps(
                #[trigger] cut_lines(ls, c)[j],
            ) by {
                if j > 0 {
                    assert(cut_lines(ls, c)[j] == below[j - 1]);
                }
            }
        }
    }
}

/// Cleaning a cleaned text changes nothing, as long as the cleaned text has no
/// carriage return just before a line feed and does not end in a blank line
/// or a line feed.
///
/// Cleaning reads a carriage return before a line feed as a part of the line
/// ending, so a line that was kept with a carriage return at its end loses it
/// the second time. And where the cap cuts the text just after a line feed, or
/// in the blank front of a line, the second cleaning drops what is left of
/// that line.
pub proof fn cleaning_is_idempotent(raw: Seq<char>)
    requires
        !has_cr_lf(cleaned(raw)),
        ends_visibly(cleaned(raw)),
    ensures
        cleaned(cleaned(raw)) == cleaned(raw),
{
    let kept = kept_lines(raw);
    let text = cleaned(raw);
    lemma_kept_lines(raw);
    lemma_cleaned_is_cut(raw);
    lemma_cut_is_fixed(kept, cleaned_len(raw));
    lemma_filter_keeps_all(lines(text));
    assert(joined(text) == text);
}

/// Cleaning makes every other text shorter: one that has a carriage return
/// just before a line feed, or that ends in a blank line or in a line feed.
/// So the two conditions of `cleaning_is_idempotent` leave out no text that
/// cleaning would leave as it is.
pub proof fn cleaning_shortens_the_rest(text: Seq<char>)
    requires
        has_cr_lf(text) || !ends_visibly(text),
    ensures
        cleaned(text).len() < text.len(),
        cleaned(text) != text,
{
    let all = lines(text);
    lemma_joined_lines_len(text);
    lemma_join_filter_len(all, keeps_pred());
    if !has_cr_lf(text) && text.last() != '\n' {
        lemma_last_line_is_blank(text);
        lemma_trim(all.last());
        assert(!keeps(all.last()));
    }
}

} // verus!
