//! Lines: how a text falls into lines, how lines are joined into a text, and
//! what the two have to do with each other.

use vstd::prelude::*;
use crate::text::{
    contains_sub, find_sub, is_blank, is_whitespace, lemma_find_sub, lemma_first_match_is_found,
    matches_at,
};

verus! {

/// The line feed, as a text of its own.
pub open spec fn newline() -> Seq<char> {
    seq!['\n']
}

/// Where the first line feed of `s` stands; the length of `s` where it has none.
pub open spec fn line_end(s: Seq<char>) -> int {
    match find_sub(s, newline()) {
        Some(i) => i,
        None => s.len() as int,
    }
}

/// `line` without the carriage return at its end, if it has one.
pub open spec fn without_cr(line: Seq<char>) -> Seq<char> {
    if line.len() > 0 && line.last() == '\r' {
        line.drop_last()
    } else {
        line
    }
}

/// The lines of `s`. A line ends at a line feed, or at the end of `s`; the line
/// feed is not part of it, nor is a carriage return just before it. After the
/// last line feed there is one more line only if something follows.
pub open spec fn lines(s: Seq<char>) -> Seq<Seq<char>>
    decreases s.len(),
{
    let i = line_end(s);
    if s.len() == 0 {
        Seq::empty()
    } else if 0 <= i < s.len() {
        // A line feed that is found is within the text: the bounds are
        // written out so that what follows it is seen to be shorter.
        seq![without_cr(s.take(i))] + lines(s.skip(i + 1))
    } else {
        seq![s]
    }
}

/// The lines `ls`, each two separated by a line feed.
pub open spec fn join_lines(ls: Seq<Seq<char>>) -> Seq<char>
    decreases ls.len(),
{
    if ls.len() == 0 {
        Seq::empty()
    } else if ls.len() == 1 {
        ls[0]
    } else {
        join_lines(ls.drop_last()) + newline() + ls.last()
    }
}

/// `s` holds no line feed.
pub open spec fn has_no_newline(s: Seq<char>) -> bool {
    forall|i: int| 0 <= i < s.len() ==> #[trigger] s[i] != '\n'
}

/// Each of `ls` can be a line of a text: it is not empty and holds no line feed.
pub open spec fn are_lines(ls: Seq<Seq<char>>) -> bool {
    forall|i: int| 0 <= i < ls.len() ==> (#[trigger] ls[i]).len() > 0 && has_no_newline(ls[i])
}

/// The lines of the first `c` characters of the text that joins `ls`: the
/// lines before the cut, each without a carriage return at its end, and then
/// what the cut leaves of the line it falls in.
pub open spec fn cut_lines(ls: Seq<Seq<char>>, c: int) -> Seq<Seq<char>>
    decreases ls.len(),
{
    if ls.len() == 0 || c <= 0 {
        Seq::empty()
    } else if c <= ls[0].len() {
        seq![ls[0].take(c)]
    } else {
        seq![without_cr(ls[0])] + cut_lines(ls.drop_first(), c - ls[0].len() - 1)
    }
}

/// A carriage return stands just before a line feed somewhere in `t`.
pub open spec fn has_cr_lf(t: Seq<char>) -> bool {
    exists|i: int| 0 <= i < t.len() - 1 && #[trigger] t[i] == '\r' && t[i + 1] == '\n'
}

/// `t` is empty, or something visible follows its last line feed.
pub open spec fn ends_visibly(t: Seq<char>) -> bool {
    t.len() == 0 || exists|i: int|
        0 <= i < t.len() && !is_whitespace(#[trigger] t[i]) && forall|j: int|
            i < j < t.len() ==> t[j] != '\n'
}

/// The line feed stands at `i` exactly where the character at `i` is one.
pub proof fn lemma_newline_at(s: Seq<char>, i: int)
    requires
        0 <= i < s.len(),
    ensures
        matches_at(s, newline(), i) <==> s[i] == '\n',
{
    let part = s.subrange(i, i + 1);
    assert(part[0] == s[i]);
    if s[i] == '\n' {
        assert(part =~= newline());
    }
}

/// A line feed ends the first line of what follows `pos`.
pub proof fn lemma_lines_step(s: Seq<char>, pos: int, j: int)
    requires
        0 <= pos <= j < s.len(),
        s[j] == '\n',
        forall|k: int| pos <= k < j ==> s[k] != '\n',
    ensures
        lines(s.skip(pos)) == seq![without_cr(s.subrange(pos, j))] + lines(s.skip(j + 1)),
{
    let t = s.skip(pos);
    let nl = newline();
    lemma_newline_at(t, j - pos);
    assert forall|k: int| 0 <= k < j - pos implies !matches_at(t, nl, k) by {
        lemma_newline_at(t, k);
    }
    lemma_first_match_is_found(t, nl, j - pos);
    assert(t.take(j - pos) =~= s.subrange(pos, j));
    assert(t.skip(j - pos + 1) =~= s.skip(j + 1));
}

/// Without a line feed, what follows `pos` is one line.
pub proof fn lemma_lines_last(s: Seq<char>, pos: int)
    requires
        0 <= pos < s.len(),
        forall|k: int| pos <= k < s.len() ==> s[k] != '\n',
    ensures
        lines(s.skip(pos)) == seq![s.skip(pos)],
{
    let t = s.skip(pos);
    let nl = newline();
    assert forall|k: int| !matches_at(t, nl, k) by {
        if matches_at(t, nl, k) {
            lemma_newline_at(t, k);
        }
    }
    lemma_find_sub(t, nl);
}

/// A text without a line feed is one line, unless it is empty.
pub proof fn lemma_single_line(s: Seq<char>)
    requires
        s.len() > 0,
        has_no_newline(s),
    ensures
        lines(s) == seq![s],
{
    lemma_lines_last(s, 0);
    assert(s.skip(0) =~= s);
}

/// The lines of a line, a line feed and a text: the line, and the lines of the
/// text.
pub proof fn lemma_lines_head(k: Seq<char>, rest: Seq<char>)
    requires
        has_no_newline(k),
    ensures
        lines(k + newline() + rest) == seq![without_cr(k)] + lines(rest),
{
    let s = k + newline() + rest;
    let n = k.len() as int;
    assert(s[n] == '\n');
    assert forall|j: int| 0 <= j < n implies s[j] != '\n' by {
        assert(s[j] == k[j]);
    }
    lemma_lines_step(s, 0, n);
    assert(s.skip(0) =~= s);
    assert(s.subrange(0, n) =~= k);
    assert(s.skip(n + 1) =~= rest);
}

/// No line holds a line feed.
pub proof fn lemma_lines_have_no_newline(s: Seq<char>)
    ensures
        forall|i: int| 0 <= i < lines(s).len() ==> has_no_newline(#[trigger] lines(s)[i]),
    decreases s.len(),
{
    let nl = newline();
    let i = line_end(s);
    lemma_find_sub(s, nl);
    if s.len() == 0 {
    } else if 0 <= i < s.len() {
        let first = without_cr(s.take(i));
        let rest = lines(s.skip(i + 1));
        lemma_lines_have_no_newline(s.skip(i + 1));
        assert forall|j: int| 0 <= j < first.len() implies first[j] != '\n' by {
            assert(first[j] == s[j]);
            lemma_newline_at(s, j);
        }
        assert forall|j: int| 0 <= j < lines(s).len() implies has_no_newline(
            #[trigger] lines(s)[j],
        ) by {
            if j > 0 {
                assert(lines(s)[j] == rest[j - 1]);
            }
        }
    } else {
        assert forall|j: int| 0 <= j < s.len() implies s[j] != '\n' by {
            lemma_newline_at(s, j);
            if find_sub(s, nl).is_none() {
                assert(!matches_at(s, nl, j));
            }
        }
    }
}

/// Joining one more line.
pub proof fn lemma_join_push(ls: Seq<Seq<char>>, line: Seq<char>)
    ensures
        join_lines(ls.push(line)) == if ls.len() == 0 {
            line
        } else {
            join_lines(ls) + newline() + line
        },
{
    assert(ls.push(line).drop_last() =~= ls);
}

/// Joining with one more line in front.
pub proof fn lemma_join_front(k: Seq<char>, rest: Seq<Seq<char>>)
    requires
        rest.len() > 0,
    ensures
        join_lines(seq![k] + rest) == k + newline() + join_lines(rest),
    decreases rest.len(),
{
    let all = seq![k] + rest;
    assert(all.drop_last() =~= seq![k] + rest.drop_last());
    assert(all.last() == rest.last());
    if rest.len() == 1 {
        assert(seq![k] + rest.drop_last() =~= seq![k]);
        assert(all.drop_last()[0] == k);
        assert(join_lines(all.drop_last()) == k);
        assert(join_lines(rest) == rest[0]);
        assert(join_lines(all) =~= k + newline() + rest[0]);
    } else {
        lemma_join_front(k, rest.drop_last());
        assert(join_lines(all) =~= k + newline() + join_lines(rest));
    }
}

/// What `cut_lines` says: it gives the lines of the cut text.
pub proof fn lemma_lines_of_cut(ls: Seq<Seq<char>>, c: int)
    requires
        are_lines(ls),
        0 <= c <= join_lines(ls).len(),
    ensures
        lines(join_lines(ls).take(c)) == cut_lines(ls, c),
    decreases ls.len(),
{
    let joined = join_lines(ls);
    let cut = joined.take(c);
    if ls.len() == 0 || c <= 0 {
        assert(cut.len() == 0);
    } else {
        let k = ls[0];
        let rest = ls.drop_first();
        assert(ls =~= seq![k] + rest);
        assert(k.len() > 0 && has_no_newline(k));
        if rest.len() > 0 {
            lemma_join_front(k, rest);
        }
        if c <= k.len() {
            assert(cut =~= k.take(c));
            assert(has_no_newline(k.take(c))) by {
                assert forall|j: int| 0 <= j < c implies k.take(c)[j] != '\n' by {
                    assert(k.take(c)[j] == k[j]);
                }
            }
            lemma_single_line(k.take(c));
        } else {
            assert(rest.len() > 0);
            let c2 = c - k.len() - 1;
            assert(cut =~= k + newline() + join_lines(rest).take(c2));
            lemma_lines_head(k, join_lines(rest).take(c2));
            assert forall|i: int| 0 <= i < rest.len() implies (#[trigger] rest[i]).len() > 0
                && has_no_newline(rest[i]) by {
                assert(rest[i] == ls[i + 1]);
            }
            lemma_lines_of_cut(rest, c2);
        }
    }
}

/// Each of the lines of a cut text is a part of the front of one of the lines
/// that were joined.
pub proof fn lemma_cut_lines_are_prefixes(ls: Seq<Seq<char>>, c: int, j: int)
    requires
        0 <= j < cut_lines(ls, c).len(),
    ensures
        exists|i: int| 0 <= i < ls.len() && cut_lines(ls, c)[j].is_prefix_of(#[trigger] ls[i]),
    decreases ls.len(),
{
    if ls.len() == 0 || c <= 0 {
    } else if c <= ls[0].len() {
        assert(ls[0].take(c).is_prefix_of(ls[0]));
    } else {
        let rest = ls.drop_first();
        let c2 = c - ls[0].len() - 1;
        if j == 0 {
            assert(without_cr(ls[0]).is_prefix_of(ls[0])) by {
                assert(ls[0].subrange(0, ls[0].len() as int) =~= ls[0]);
            }
        } else {
            assert(cut_lines(ls, c)[j] == cut_lines(rest, c2)[j - 1]);
            lemma_cut_lines_are_prefixes(rest, c2, j - 1);
            let i = choose|i: int|
                0 <= i < rest.len() && cut_lines(rest, c2)[j - 1].is_prefix_of(#[trigger] rest[i]);
            assert(rest[i] == ls[i + 1]);
        }
    }
}

/// A text that holds neither a line feed nor nothing is found in joined lines
/// only where one of the lines holds it.
pub proof fn lemma_join_contains(ls: Seq<Seq<char>>, needle: Seq<char>)
    requires
        needle.len() > 0,
        has_no_newline(needle),
        contains_sub(join_lines(ls), needle),
    ensures
        exists|i: int| 0 <= i < ls.len() && contains_sub(#[trigger] ls[i], needle),
    decreases ls.len(),
{
    let joined = join_lines(ls);
    let at = choose|at: int| matches_at(joined, needle, at);
    let n = needle.len() as int;
    if ls.len() == 0 {
    } else if ls.len() == 1 {
        assert(contains_sub(ls[0], needle));
    } else {
        let front = join_lines(ls.drop_last());
        let last = ls.last();
        let f = front.len() as int;
        if at + n <= f {
            assert(front.subrange(at, at + n) =~= joined.subrange(at, at + n));
            assert(matches_at(front, needle, at));
            lemma_join_contains(ls.drop_last(), needle);
            let i = choose|i: int|
                0 <= i < ls.drop_last().len() && contains_sub(
                    #[trigger] ls.drop_last()[i],
                    needle,
                );
            assert(ls.drop_last()[i] == ls[i]);
        } else if at > f {
            assert(last.subrange(at - f - 1, at - f - 1 + n) =~= joined.subrange(at, at + n));
            assert(matches_at(last, needle, at - f - 1));
            assert(contains_sub(ls[ls.len() - 1], needle));
        } else {
            // The occurrence would lie across the line feed.
            assert(joined.subrange(at, at + n)[f - at] == joined[f]);
            assert(joined[f] == '\n');
            assert(needle[f - at] != '\n');
        }
    }
}

/// How a text that is not empty falls apart at its first line feed, if it has
/// one: the line before it, and what follows it.
proof fn lemma_first_line(s: Seq<char>)
    requires
        s.len() > 0,
    ensures
        ({
            let i = line_end(s);
            if 0 <= i < s.len() {
                &&& s[i] == '\n'
                &&& has_no_newline(s.take(i))
                &&& s =~= s.take(i) + newline() + s.skip(i + 1)
                &&& lines(s) == seq![without_cr(s.take(i))] + lines(s.skip(i + 1))
            } else {
                has_no_newline(s) && lines(s) == seq![s]
            }
        }),
{
    let nl = newline();
    let i = line_end(s);
    lemma_find_sub(s, nl);
    if 0 <= i < s.len() {
        lemma_newline_at(s, i);
        assert forall|j: int| 0 <= j < i implies s.take(i)[j] != '\n' by {
            lemma_newline_at(s, j);
        }
    } else {
        assert forall|j: int| 0 <= j < s.len() implies s[j] != '\n' by {
            lemma_newline_at(s, j);
            if find_sub(s, nl).is_none() {
                assert(!matches_at(s, nl, j));
            }
        }
    }
}

/// A text has lines unless it is empty.
pub proof fn lemma_lines_of_nonempty(s: Seq<char>)
    requires
        s.len() > 0,
    ensures
        lines(s).len() > 0,
{
}

/// The lines of a text, joined, are no longer than the text; and they are
/// shorter where the text has a carriage return before a line feed, or ends in
/// a line feed.
pub proof fn lemma_joined_lines_len(s: Seq<char>)
    ensures
        join_lines(lines(s)).len() <= s.len(),
        has_cr_lf(s) || (s.len() > 0 && s.last() == '\n') ==> join_lines(lines(s)).len()
            < s.len(),
    decreases s.len(),
{
    if s.len() > 0 {
        lemma_first_line(s);
        let i = line_end(s);
        if 0 <= i < s.len() {
            let head = s.take(i);
            let rest = s.skip(i + 1);
            let below = lines(rest);
            lemma_joined_lines_len(rest);
            if rest.len() > 0 {
                lemma_lines_of_nonempty(rest);
                lemma_join_front(without_cr(head), below);
                assert(rest.last() == s.last());
            } else {
                assert(lines(s) =~= seq![without_cr(head)]);
            }
            if has_cr_lf(s) {
                let at = choose|at: int|
                    0 <= at < s.len() - 1 && #[trigger] s[at] == '\r' && s[at + 1] == '\n';
                if at + 1 == i {
                    assert(head.last() == '\r');
                } else {
                    assert(at + 1 > i) by {
                        if at + 1 < i {
                            assert(head[at + 1] == s[at + 1]);
                        }
                    }
                    assert(rest[at - i - 1] == '\r' && rest[at - i - 1 + 1] == '\n');
                    assert(has_cr_lf(rest));
                }
            }
        } else {
            if has_cr_lf(s) {
                let at = choose|at: int|
                    0 <= at < s.len() - 1 && #[trigger] s[at] == '\r' && s[at + 1] == '\n';
                assert(s[at + 1] != '\n');
            }
        }
    }
}

/// The last line of a text that does not end in a line feed is blank where
/// nothing visible follows the last line feed.
pub proof fn lemma_last_line_is_blank(s: Seq<char>)
    requires
        s.len() > 0,
        s.last() != '\n',
        !ends_visibly(s),
    ensures
        lines(s).len() > 0,
        lines(s).last().len() > 0,
        is_blank(lines(s).last()),
    decreases s.len(),
{
    lemma_first_line(s);
    let i = line_end(s);
    if 0 <= i < s.len() {
        let rest = s.skip(i + 1);
        assert(rest.len() > 0);
        assert(rest.last() == s.last());
        assert(!ends_visibly(rest)) by {
            if ends_visibly(rest) {
                let at = choose|at: int|
                    0 <= at < rest.len() && !is_whitespace(#[trigger] rest[at]) && forall|j: int|
                        at < j < rest.len() ==> rest[j] != '\n';
                assert(s[at + i + 1] == rest[at]);
                assert forall|j: int| at + i + 1 < j < s.len() implies s[j] != '\n' by {
                    assert(s[j] == rest[j - i - 1]);
                }
            }
        }
        lemma_last_line_is_blank(rest);
        assert(lines(s).last() == lines(rest).last());
    } else {
        assert forall|j: int| 0 <= j < s.len() implies is_whitespace(#[trigger] s[j]) by {
            if !is_whitespace(s[j]) {
                assert(forall|k: int| j < k < s.len() ==> s[k] != '\n');
            }
        }
    }
}

/// Joined, the lines that a filter lets through are no longer than all the
/// lines; they are shorter where the last line is held back and not empty.
pub proof fn lemma_join_filter_len(ls: Seq<Seq<char>>, pred: spec_fn(Seq<char>) -> bool)
    ensures
        join_lines(ls.filter(pred)).len() <= join_lines(ls).len(),
        ls.len() > 0 && !pred(ls.last()) && ls.last().len() > 0 ==> join_lines(
            ls.filter(pred),
        ).len() < join_lines(ls).len(),
    decreases ls.len(),
{
    reveal(Seq::filter);
    if ls.len() > 0 {
        let front = ls.drop_last();
        let through = front.filter(pred);
        lemma_join_filter_len(front, pred);
        through.lemma_filter_len(pred);
        front.lemma_filter_len(pred);
        assert(front.push(ls.last()) =~= ls);
        lemma_join_push(front, ls.last());
        if pred(ls.last()) {
            lemma_join_push(through, ls.last());
        }
    }
}

} // verus!
