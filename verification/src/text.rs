//! Character sequences: the mathematical model of text used throughout the
//! crate, and the executable helpers that compute on slices of `char`.

use vstd::prelude::*;

verus! {

// What texts are: whitespace, occurrences, numbers.

/// Whether `c` is whitespace as Unicode has it (`White_Space`).
pub open spec fn is_whitespace(c: char) -> bool {
    let n = c as u32;
    ||| 0x09 <= n <= 0x0D
    ||| n == 0x20
    ||| n == 0x85
    ||| n == 0xA0
    ||| n == 0x1680
    ||| 0x2000 <= n <= 0x200A
    ||| n == 0x2028
    ||| n == 0x2029
    ||| n == 0x202F
    ||| n == 0x205F
    ||| n == 0x3000
}

/// `s` neither begins nor ends with whitespace.
pub open spec fn is_trimmed(s: Seq<char>) -> bool {
    s.len() > 0 ==> !is_whitespace(s[0]) && !is_whitespace(s.last())
}

/// Every character of `s` is whitespace.
pub open spec fn is_blank(s: Seq<char>) -> bool {
    forall|i: int| 0 <= i < s.len() ==> is_whitespace(#[trigger] s[i])
}

/// `s` without its leading whitespace.
pub open spec fn trim_start(s: Seq<char>) -> Seq<char>
    decreases s.len(),
{
    if s.len() > 0 && is_whitespace(s[0]) {
        trim_start(s.drop_first())
    } else {
        s
    }
}

/// `s` without its trailing whitespace.
pub open spec fn trim_end(s: Seq<char>) -> Seq<char>
    decreases s.len(),
{
    if s.len() > 0 && is_whitespace(s.last()) {
        trim_end(s.drop_last())
    } else {
        s
    }
}

/// `s` without leading and trailing whitespace.
pub open spec fn trim(s: Seq<char>) -> Seq<char> {
    trim_end(trim_start(s))
}

/// The number of whitespace characters at the front of `s`: the index of its
/// first visible character, or its length where it has none.
pub open spec fn visible_start(s: Seq<char>) -> int
    decreases s.len(),
{
    if s.len() > 0 && is_whitespace(s[0]) {
        1 + visible_start(s.drop_first())
    } else {
        0
    }
}

/// The index after the last visible character of `s`; 0 where it has none.
pub open spec fn visible_end(s: Seq<char>) -> int
    decreases s.len(),
{
    if s.len() > 0 && is_whitespace(s.last()) {
        visible_end(s.drop_last())
    } else {
        s.len() as int
    }
}

/// `[a, b)` is the part of `s` that `trim` keeps: whitespace before `a` and from
/// `b` on, and, unless the part is empty, a visible character at each end.
pub open spec fn is_trim_bounds(s: Seq<char>, a: int, b: int) -> bool {
    &&& 0 <= a <= b <= s.len()
    &&& forall|i: int| 0 <= i < a ==> is_whitespace(#[trigger] s[i])
    &&& forall|i: int| b <= i < s.len() ==> is_whitespace(#[trigger] s[i])
    &&& a < b ==> !is_whitespace(s[a]) && !is_whitespace(s[b - 1])
}

/// `needle` stands in `hay` at index `i`.
pub open spec fn matches_at(hay: Seq<char>, needle: Seq<char>, i: int) -> bool {
    &&& 0 <= i
    &&& i + needle.len() <= hay.len()
    &&& hay.subrange(i, i + needle.len()) == needle
}

/// `needle` occurs somewhere in `hay`.
pub open spec fn contains_sub(hay: Seq<char>, needle: Seq<char>) -> bool {
    exists|i: int| matches_at(hay, needle, i)
}

/// `needle` stands in `hay` at `i` and nowhere else.
pub open spec fn is_only_match(hay: Seq<char>, needle: Seq<char>, i: int) -> bool {
    &&& matches_at(hay, needle, i)
    &&& forall|j: int| matches_at(hay, needle, j) ==> j == i
}

/// `needle` stands in `hay` at `i` and nowhere before.
pub open spec fn is_first_match(hay: Seq<char>, needle: Seq<char>, i: int) -> bool {
    &&& matches_at(hay, needle, i)
    &&& forall|j: int| 0 <= j < i ==> !matches_at(hay, needle, j)
}

/// Where `needle` first occurs in `hay`, if it does.
pub open spec fn find_sub(hay: Seq<char>, needle: Seq<char>) -> Option<int> {
    if contains_sub(hay, needle) {
        Some(choose|i: int| is_first_match(hay, needle, i))
    } else {
        None
    }
}

/// The part of `s` before the first occurrence of `delim`; all of `s` where
/// `delim` does not occur.
pub open spec fn before_first(s: Seq<char>, delim: Seq<char>) -> Seq<char> {
    match find_sub(s, delim) {
        Some(i) => s.subrange(0, i),
        None => s,
    }
}

/// The part of `s` after the first occurrence of `delim`, if there is one.
pub open spec fn after_first(s: Seq<char>, delim: Seq<char>) -> Option<Seq<char>> {
    match find_sub(s, delim) {
        Some(i) => Some(s.subrange(i + delim.len(), s.len() as int)),
        None => None,
    }
}

/// `s` after `prefix` has been taken from its front as often as it stands there.
pub open spec fn strip_prefix_all(s: Seq<char>, prefix: Seq<char>) -> Seq<char>
    decreases s.len(),
{
    if prefix.len() > 0 && prefix.is_prefix_of(s) {
        strip_prefix_all(s.skip(prefix.len() as int), prefix)
    } else {
        s
    }
}

/// `s` after `suffix` has been taken from its end as often as it stands there.
pub open spec fn strip_suffix_all(s: Seq<char>, suffix: Seq<char>) -> Seq<char>
    decreases s.len(),
{
    if suffix.len() > 0 && suffix.is_suffix_of(s) {
        strip_suffix_all(s.take(s.len() - suffix.len()), suffix)
    } else {
        s
    }
}

/// The character that stands for the decimal digit `d`.
pub open spec fn digit_char(d: nat) -> char
    recommends
        d < 10,
{
    ((48 + d) as u8) as char
}

/// `n` written in decimal, without leading zeros.
pub open spec fn decimal(n: nat) -> Seq<char>
    decreases n,
{
    if n < 10 {
        seq![digit_char(n)]
    } else {
        decimal(n / 10).push(digit_char(n % 10))
    }
}

// What holds of them.

/// Where the whitespace at the front of `s` ends, `trim_start` begins.
pub proof fn lemma_trim_start_bounds(s: Seq<char>, a: int)
    requires
        0 <= a <= s.len(),
        forall|i: int| 0 <= i < a ==> is_whitespace(#[trigger] s[i]),
        a < s.len() ==> !is_whitespace(s[a]),
    ensures
        trim_start(s) == s.subrange(a, s.len() as int),
    decreases s.len(),
{
    if a == 0 {
        assert(s.subrange(0, s.len() as int) =~= s);
    } else {
        assert(is_whitespace(s[0]));
        let t = s.drop_first();
        assert forall|i: int| 0 <= i < a - 1 implies is_whitespace(#[trigger] t[i]) by {
            assert(t[i] == s[i + 1]);
        }
        lemma_trim_start_bounds(t, a - 1);
        assert(t.subrange(a - 1, t.len() as int) =~= s.subrange(a, s.len() as int));
    }
}

/// Where the whitespace at the end of `s` begins, `trim_end` ends.
pub proof fn lemma_trim_end_bounds(s: Seq<char>, b: int)
    requires
        0 <= b <= s.len(),
        forall|i: int| b <= i < s.len() ==> is_whitespace(#[trigger] s[i]),
        0 < b ==> !is_whitespace(s[b - 1]),
    ensures
        trim_end(s) == s.subrange(0, b),
    decreases s.len(),
{
    if b == s.len() {
        assert(s.subrange(0, s.len() as int) =~= s);
    } else {
        assert(is_whitespace(s[s.len() - 1]));
        let t = s.drop_last();
        assert forall|i: int| b <= i < t.len() implies is_whitespace(#[trigger] t[i]) by {
            assert(t[i] == s[i]);
        }
        lemma_trim_end_bounds(t, b);
        assert(t.subrange(0, b) =~= s.subrange(0, b));
    }
}

/// The bounds that `is_trim_bounds` describes are those of `trim`.
pub proof fn lemma_trim_bounds(s: Seq<char>, a: int, b: int)
    requires
        is_trim_bounds(s, a, b),
    ensures
        trim(s) == s.subrange(a, b),
{
    if a < b {
        lemma_trim_start_bounds(s, a);
        let t = s.subrange(a, s.len() as int);
        assert forall|i: int| b - a <= i < t.len() implies is_whitespace(#[trigger] t[i]) by {
            assert(t[i] == s[i + a]);
        }
        assert(t[b - a - 1] == s[b - 1]);
        lemma_trim_end_bounds(t, b - a);
        assert(t.subrange(0, b - a) =~= s.subrange(a, b));
    } else {
        // Nothing visible: everything from `a` on is whitespace as well.
        assert forall|i: int| 0 <= i < s.len() implies is_whitespace(#[trigger] s[i]) by {}
        lemma_trim_start_bounds(s, s.len() as int);
        let t = s.subrange(s.len() as int, s.len() as int);
        assert(t.len() == 0);
        assert(s.subrange(a, b) =~= t);
    }
}

/// What `visible_start` counts.
pub proof fn lemma_visible_start(s: Seq<char>)
    ensures
        0 <= visible_start(s) <= s.len(),
        forall|i: int| 0 <= i < visible_start(s) ==> is_whitespace(#[trigger] s[i]),
        visible_start(s) < s.len() ==> !is_whitespace(s[visible_start(s)]),
        trim_start(s) == s.subrange(visible_start(s), s.len() as int),
    decreases s.len(),
{
    if s.len() > 0 && is_whitespace(s[0]) {
        let t = s.drop_first();
        lemma_visible_start(t);
        let a = visible_start(s);
        assert forall|i: int| 0 <= i < a implies is_whitespace(#[trigger] s[i]) by {
            if i > 0 {
                assert(s[i] == t[i - 1]);
            }
        }
        if a < s.len() {
            assert(s[a] == t[a - 1]);
        }
    }
    lemma_trim_start_bounds(s, visible_start(s));
}

/// What `visible_end` marks.
pub proof fn lemma_visible_end(s: Seq<char>)
    ensures
        0 <= visible_end(s) <= s.len(),
        forall|i: int| visible_end(s) <= i < s.len() ==> is_whitespace(#[trigger] s[i]),
        0 < visible_end(s) ==> !is_whitespace(s[visible_end(s) - 1]),
        trim_end(s) == s.subrange(0, visible_end(s)),
    decreases s.len(),
{
    if s.len() > 0 && is_whitespace(s.last()) {
        let t = s.drop_last();
        lemma_visible_end(t);
        let b = visible_end(s);
        assert forall|i: int| b <= i < s.len() implies is_whitespace(#[trigger] s[i]) by {
            if i < s.len() - 1 {
                assert(s[i] == t[i]);
            }
        }
        if 0 < b {
            assert(s[b - 1] == t[b - 1]);
        }
    }
    lemma_trim_end_bounds(s, visible_end(s));
}

/// What `trim` keeps: nothing of a blank text, and of any other the part from
/// its first to its last visible character.
pub proof fn lemma_trim(s: Seq<char>)
    ensures
        is_blank(s) <==> trim(s).len() == 0,
        is_blank(s) <==> visible_end(s) == 0,
        is_blank(s) <==> visible_start(s) == s.len(),
        !is_blank(s) ==> visible_start(s) < visible_end(s) && trim(s) == s.subrange(
            visible_start(s),
            visible_end(s),
        ),
{
    lemma_visible_start(s);
    lemma_visible_end(s);
    let a = visible_start(s);
    let b = visible_end(s);
    if a < s.len() {
        // The first visible character is no later than the last.
        assert(!is_whitespace(s[a]));
        assert(a < b);
        assert(!is_whitespace(s[b - 1]));
        assert(is_trim_bounds(s, a, b));
        lemma_trim_bounds(s, a, b);
        assert(s.subrange(a, b).len() == b - a);
    } else {
        assert(is_blank(s));
        if b > 0 {
            assert(is_whitespace(s[b - 1]));
        }
        assert(is_trim_bounds(s, a, a));
        lemma_trim_bounds(s, a, a);
        assert(s.subrange(a, a).len() == 0);
    }
}

/// What `trim` gives is trimmed, and trimming it again changes nothing.
pub proof fn lemma_trim_is_trimmed(s: Seq<char>)
    ensures
        is_trimmed(trim(s)),
        trim(trim(s)) == trim(s),
{
    lemma_trim(s);
    let t = trim(s);
    if t.len() > 0 {
        lemma_visible_start(s);
        lemma_visible_end(s);
        assert(t[0] == s[visible_start(s)]);
        assert(t.last() == s[visible_end(s) - 1]);
        assert(is_trim_bounds(t, 0, t.len() as int));
        lemma_trim_bounds(t, 0, t.len() as int);
        assert(t.subrange(0, t.len() as int) =~= t);
    } else {
        assert(is_trim_bounds(t, 0, 0));
        lemma_trim_bounds(t, 0, 0);
        assert(t.subrange(0, 0) =~= t);
    }
}

/// Trimming a part of the front of a text gives a part of the front of the
/// trimmed text, unless the part is blank.
pub proof fn lemma_trim_of_prefix(p: Seq<char>, s: Seq<char>)
    requires
        p.is_prefix_of(s),
        !is_blank(p),
    ensures
        !is_blank(s),
        trim(p).is_prefix_of(trim(s)),
{
    lemma_trim(p);
    lemma_trim(s);
    lemma_visible_start(p);
    lemma_visible_start(s);
    lemma_visible_end(p);
    lemma_visible_end(s);
    let a = visible_start(p);
    let b = visible_end(p);
    assert forall|i: int| 0 <= i < p.len() implies p[i] == s[i] by {
        assert(p[i] == s.subrange(0, p.len() as int)[i]);
    }
    assert(s[a] == p[a]);
    assert(s[b - 1] == p[b - 1]);
    let sa = visible_start(s);
    let sb = visible_end(s);
    if sa < a {
        assert(is_whitespace(p[sa]));
    }
    if a < sa {
        assert(is_whitespace(s[a]));
    }
    assert(sa == a);
    if sb < b {
        assert(is_whitespace(s[b - 1]));
    }
    assert(b <= sb);
    assert(!is_blank(s)) by {
        if is_blank(s) {
            assert(is_whitespace(s[a]));
        }
    }
    assert(p.subrange(a, b) =~= s.subrange(a, sb).subrange(0, b - a));
}

/// A first occurrence is the one that `find_sub` names.
pub proof fn lemma_first_match_is_found(hay: Seq<char>, needle: Seq<char>, i: int)
    requires
        is_first_match(hay, needle, i),
    ensures
        find_sub(hay, needle) == Some(i),
{
    let k = choose|k: int| is_first_match(hay, needle, k);
    assert(is_first_match(hay, needle, k));
    if k < i {
        assert(!matches_at(hay, needle, k));
    } else if i < k {
        assert(!matches_at(hay, needle, i));
    }
}

/// Below any occurrence there is a first one.
proof fn lemma_first_match_exists(hay: Seq<char>, needle: Seq<char>, i: int)
    requires
        matches_at(hay, needle, i),
    ensures
        exists|k: int| 0 <= k <= i && is_first_match(hay, needle, k),
    decreases i,
{
    if exists|j: int| 0 <= j < i && matches_at(hay, needle, j) {
        let j = choose|j: int| 0 <= j < i && matches_at(hay, needle, j);
        lemma_first_match_exists(hay, needle, j);
        let k = choose|k: int| 0 <= k <= j && is_first_match(hay, needle, k);
        assert(0 <= k <= i && is_first_match(hay, needle, k));
    } else {
        assert(is_first_match(hay, needle, i));
    }
}

/// What `find_sub` returns: a first occurrence, or nothing where there is none.
pub proof fn lemma_find_sub(hay: Seq<char>, needle: Seq<char>)
    ensures
        match find_sub(hay, needle) {
            Some(i) => is_first_match(hay, needle, i),
            None => !contains_sub(hay, needle),
        },
{
    if contains_sub(hay, needle) {
        let i = choose|i: int| matches_at(hay, needle, i);
        lemma_first_match_exists(hay, needle, i);
    }
}

/// Where `needle` stands in a part of a text, it stands in the text.
pub proof fn lemma_match_in_part(s: Seq<char>, a: int, b: int, needle: Seq<char>, i: int)
    requires
        0 <= a <= b <= s.len(),
        matches_at(s.subrange(a, b), needle, i),
    ensures
        matches_at(s, needle, a + i),
{
    let part = s.subrange(a, b);
    assert(part.subrange(i, i + needle.len()) =~= s.subrange(a + i, a + i + needle.len()));
}

/// A text that holds `needle` in one of its parts holds it.
pub proof fn lemma_contains_sub_of_part(s: Seq<char>, a: int, b: int, needle: Seq<char>)
    requires
        0 <= a <= b <= s.len(),
        contains_sub(s.subrange(a, b), needle),
    ensures
        contains_sub(s, needle),
{
    let i = choose|i: int| matches_at(s.subrange(a, b), needle, i);
    lemma_match_in_part(s, a, b, needle, i);
}

/// What stands before the first occurrence of a delimiter is a part of the
/// front of the text.
pub proof fn lemma_before_first_is_prefix(s: Seq<char>, delim: Seq<char>)
    ensures
        before_first(s, delim).is_prefix_of(s),
        before_first(s, delim) == s.subrange(0, before_first(s, delim).len() as int),
{
    lemma_find_sub(s, delim);
    assert(s.subrange(0, s.len() as int) =~= s);
}

/// What is cut off a text at the first occurrence of a delimiter, before it or
/// after it, holds nothing that the text does not hold.
pub proof fn lemma_parts_hold_no_more(s: Seq<char>, delim: Seq<char>, needle: Seq<char>)
    ensures
        contains_sub(before_first(s, delim), needle) ==> contains_sub(s, needle),
        after_first(s, delim) matches Some(after) ==> (contains_sub(after, needle)
            ==> contains_sub(s, needle)),
{
    lemma_find_sub(s, delim);
    match find_sub(s, delim) {
        Some(i) => {
            if contains_sub(before_first(s, delim), needle) {
                lemma_contains_sub_of_part(s, 0, i, needle);
            }
            if contains_sub(after_first(s, delim).unwrap(), needle) {
                lemma_contains_sub_of_part(s, i + delim.len(), s.len() as int, needle);
            }
        },
        None => {},
    }
}

/// A text that holds `needle` in a part of its front holds it.
pub proof fn lemma_contains_sub_of_prefix(p: Seq<char>, s: Seq<char>, needle: Seq<char>)
    requires
        p.is_prefix_of(s),
        contains_sub(p, needle),
    ensures
        contains_sub(s, needle),
{
    let i = choose|i: int| matches_at(p, needle, i);
    assert(p.subrange(i, i + needle.len()) =~= s.subrange(i, i + needle.len())) by {
        assert forall|j: int| 0 <= j < p.len() implies p[j] == s[j] by {
            assert(p[j] == s.subrange(0, p.len() as int)[j]);
        }
    }
    assert(matches_at(s, needle, i));
}

// Computing on strings and on slices of characters.

/// `String::push` appends one character to the string.
pub assume_specification[ String::push ](s: &mut String, ch: char)
    ensures
        final(s)@ == old(s)@.push(ch),
;

/// The characters of `s`, one by one.
pub fn to_chars(s: &str) -> (v: Vec<char>)
    ensures
        v@ == s@,
{
    let mut v: Vec<char> = Vec::new();
    for c in it: s.chars()
        invariant
            v@ == it.seq().take(it.index() as int),
            it.seq() == s@,
    {
        v.push(c);
    }
    v
}

/// The string made of the characters of `v`.
pub fn from_chars(v: &[char]) -> (s: String)
    ensures
        s@ == v@,
{
    let mut s = String::new();
    let mut i: usize = 0;
    while i < v.len()
        invariant
            i <= v.len(),
            s@ == v@.take(i as int),
        decreases v.len() - i,
    {
        s.push(v[i]);
        i += 1;
    }
    s
}

/// Tells whether `a` and `b` are the same text.
pub fn same_text(a: &str, b: &str) -> (r: bool)
    ensures
        r == (a@ == b@),
{
    let x = to_chars(a);
    let y = to_chars(b);
    if x.len() != y.len() {
        return false;
    }
    let r = matches_at_index(x.as_slice(), y.as_slice(), 0);
    proof {
        if r {
            assert(x@.subrange(0, y@.len() as int) =~= x@);
        } else if x@ == y@ {
            assert(x@.subrange(0, y@.len() as int) =~= y@);
        }
    }
    r
}

/// Appends `n`, written in decimal, to `out`.
pub fn push_decimal(out: &mut String, n: u32)
    ensures
        final(out)@ == old(out)@ + decimal(n as nat),
    decreases n,
{
    if n >= 10 {
        push_decimal(out, n / 10);
    }
    let d: u8 = (n % 10) as u8;
    out.push((48u8 + d) as char);
}

/// Tells whether `c` is whitespace.
pub fn is_whitespace_char(c: char) -> (r: bool)
    ensures
        r == is_whitespace(c),
{
    let n: u32 = c as u32;
    (0x09 <= n && n <= 0x0D) || n == 0x20 || n == 0x85 || n == 0xA0 || n == 0x1680 || (0x2000 <= n
        && n <= 0x200A) || n == 0x2028 || n == 0x2029 || n == 0x202F || n == 0x205F || n == 0x3000
}

/// The part of `s` that is left when whitespace is taken from both ends.
pub fn trim_slice(s: &[char]) -> (r: &[char])
    ensures
        r@ == trim(s@),
{
    let n = s.len();
    let mut a: usize = 0;
    while a < n && is_whitespace_char(s[a])
        invariant
            a <= n,
            n == s@.len(),
            forall|i: int| 0 <= i < a ==> is_whitespace(#[trigger] s@[i]),
        decreases n - a,
    {
        a += 1;
    }
    let mut b: usize = n;
    while b > a && is_whitespace_char(s[b - 1])
        invariant
            a <= b <= n,
            n == s@.len(),
            forall|i: int| b <= i < n ==> is_whitespace(#[trigger] s@[i]),
        decreases b,
    {
        b -= 1;
    }
    proof {
        lemma_trim_bounds(s@, a as int, b as int);
    }
    vstd::slice::slice_subrange(s, a, b)
}

/// Tells whether `needle` stands in `hay` at index `i`.
pub fn matches_at_index(hay: &[char], needle: &[char], i: usize) -> (r: bool)
    ensures
        r == matches_at(hay@, needle@, i as int),
{
    let h = hay.len();
    let n = needle.len();
    if i > h || n > h - i {
        return false;
    }
    let mut j: usize = 0;
    while j < n
        invariant
            j <= n,
            n == needle@.len(),
            h == hay@.len(),
            i + n <= h,
            forall|t: int| 0 <= t < j ==> hay@[i + t] == needle@[t],
        decreases n - j,
    {
        if hay[i + j] != needle[j] {
            proof {
                let part = hay@.subrange(i as int, i + n);
                assert(part[j as int] == hay@[i + j]);
            }
            return false;
        }
        j += 1;
    }
    assert(hay@.subrange(i as int, i + n) =~= needle@);
    true
}

/// Finds the first occurrence of `needle` in `hay`.
pub fn find_slice(hay: &[char], needle: &[char]) -> (r: Option<usize>)
    ensures
        match r {
            Some(i) => find_sub(hay@, needle@) == Some(i as int) && i + needle@.len() <= hay@.len(),
            None => find_sub(hay@, needle@).is_none(),
        },
{
    let h = hay.len();
    let n = needle.len();
    if n == 0 {
        proof {
            assert(hay@.subrange(0, 0) =~= needle@);
            lemma_first_match_is_found(hay@, needle@, 0);
        }
        return Some(0);
    }
    let mut i: usize = 0;
    while i < h && n <= h - i
        invariant
            i <= h,
            0 < n,
            h == hay@.len(),
            n == needle@.len(),
            forall|j: int| 0 <= j < i ==> !matches_at(hay@, needle@, j),
        decreases h - i,
    {
        if matches_at_index(hay, needle, i) {
            proof {
                lemma_first_match_is_found(hay@, needle@, i as int);
            }
            return Some(i);
        }
        i += 1;
    }
    assert(forall|j: int| !matches_at(hay@, needle@, j));
    None
}

/// Tells whether `s` begins with `prefix`.
pub fn starts_with_slice(s: &[char], prefix: &[char]) -> (r: bool)
    ensures
        r == prefix@.is_prefix_of(s@),
{
    matches_at_index(s, prefix, 0)
}

/// Tells whether `s` ends with `suffix`.
pub fn ends_with_slice(s: &[char], suffix: &[char]) -> (r: bool)
    ensures
        r == suffix@.is_suffix_of(s@),
{
    if suffix.len() > s.len() {
        return false;
    }
    matches_at_index(s, suffix, s.len() - suffix.len())
}

/// Tells whether the character `c` occurs in `s`.
pub fn contains_char(s: &[char], c: char) -> (r: bool)
    ensures
        r == s@.contains(c),
{
    let mut i: usize = 0;
    while i < s.len()
        invariant
            i <= s.len(),
            forall|j: int| 0 <= j < i ==> s@[j] != c,
        decreases s.len() - i,
    {
        if s[i] == c {
            return true;
        }
        i += 1;
    }
    false
}

/// Splits `s` at the first occurrence of `delim`: what stands before it and what
/// stands after it.
pub fn split_first<'a>(s: &'a [char], delim: &[char]) -> (r: Option<(&'a [char], &'a [char])>)
    ensures
        match r {
            Some((before, after)) => before@ == before_first(s@, delim@) && after_first(
                s@,
                delim@,
            ) == Some(after@),
            None => after_first(s@, delim@).is_none() && before_first(s@, delim@) == s@,
        },
{
    let n = s.len();
    match find_slice(s, delim) {
        Some(i) => {
            assert(i + delim@.len() <= n);
            let before = vstd::slice::slice_subrange(s, 0, i);
            let after = vstd::slice::slice_subrange(s, i + delim.len(), n);
            Some((before, after))
        },
        None => None,
    }
}

/// The part of `s` before the first occurrence of `delim`.
pub fn before_first_slice<'a>(s: &'a [char], delim: &[char]) -> (r: &'a [char])
    ensures
        r@ == before_first(s@, delim@),
{
    match find_slice(s, delim) {
        Some(i) => vstd::slice::slice_subrange(s, 0, i),
        None => s,
    }
}

/// Takes `prefix` from the front of `s` as often as it stands there.
pub fn strip_prefix_all_slice<'a>(s: &'a [char], prefix: &[char]) -> (r: &'a [char])
    ensures
        r@ == strip_prefix_all(s@, prefix@),
{
    let n = prefix.len();
    if n == 0 {
        return s;
    }
    let mut rest = s;
    while starts_with_slice(rest, prefix)
        invariant
            n == prefix@.len(),
            n > 0,
            strip_prefix_all(rest@, prefix@) == strip_prefix_all(s@, prefix@),
        decreases rest@.len(),
    {
        rest = vstd::slice::slice_subrange(rest, n, rest.len());
    }
    rest
}

/// Takes `suffix` from the end of `s` as often as it stands there.
pub fn strip_suffix_all_slice<'a>(s: &'a [char], suffix: &[char]) -> (r: &'a [char])
    ensures
        r@ == strip_suffix_all(s@, suffix@),
{
    let n = suffix.len();
    if n == 0 {
        return s;
    }
    let mut rest = s;
    while ends_with_slice(rest, suffix)
        invariant
            n == suffix@.len(),
            n > 0,
            strip_suffix_all(rest@, suffix@) == strip_suffix_all(s@, suffix@),
        decreases rest@.len(),
    {
        rest = vstd::slice::slice_subrange(rest, 0, rest.len() - n);
    }
    rest
}

} // verus!
