//! Line-level text handling: splitting the input into lines, trimming
//! whitespace, counting indentation, and locating the field separator.
//!
//! The database format is line oriented.  Each non-comment, non-blank line
//! carries an identifier field and a name field separated by the first run of
//! two consecutive spaces; nesting depth is the count of leading tab
//! characters, capped at two; the class section begins at the first line
//! whose first non-whitespace character is a literal `C` followed by a space.

use vstd::prelude::*;

verus! {

/// The whitespace characters this format can contain around fields.
pub open spec fn is_ws(c: char) -> bool {
    c == ' ' || c == '\t' || c == '\r' || c == '\n'
}

/// The sequence with its leading whitespace removed.
pub open spec fn trim_left(s: Seq<char>) -> Seq<char>
    decreases s.len(),
{
    if s.len() > 0 && is_ws(s[0]) {
        trim_left(s.drop_first())
    } else {
        s
    }
}

/// The sequence with its trailing whitespace removed.
pub open spec fn trim_right(s: Seq<char>) -> Seq<char>
    decreases s.len(),
{
    if s.len() > 0 && is_ws(s.last()) {
        trim_right(s.drop_last())
    } else {
        s
    }
}

/// The sequence with whitespace removed at both ends.
pub open spec fn trim(s: Seq<char>) -> Seq<char> {
    trim_right(trim_left(s))
}

/// The input split at every line feed; `n` line feeds give `n + 1` lines.
pub open spec fn split_lines(s: Seq<char>) -> Seq<Seq<char>>
    decreases s.len(),
{
    if s.len() == 0 {
        seq![Seq::<char>::empty()]
    } else if s[0] == '\n' {
        seq![Seq::<char>::empty()] + split_lines(s.drop_first())
    } else {
        let rest = split_lines(s.drop_first());
        seq![seq![s[0]] + rest[0]] + rest.drop_first()
    }
}

/// The count of leading tab characters.
pub open spec fn leading_tabs(s: Seq<char>) -> int
    decreases s.len(),
{
    if s.len() > 0 && s[0] == '\t' {
        1 + leading_tabs(s.drop_first())
    } else {
        0
    }
}

/// Nesting depth of a line: its leading tabs, capped at two.
pub open spec fn depth(s: Seq<char>) -> int {
    if leading_tabs(s) >= 2 {
        2
    } else {
        leading_tabs(s)
    }
}

/// A line the scanner passes over: a comment (first character `#`) or a line
/// that is empty once trailing whitespace is removed.
pub open spec fn line_skipped(s: Seq<char>) -> bool {
    (s.len() > 0 && s[0] == '#') || trim_right(s).len() == 0
}

/// A line that opens (or continues) the class section: its first
/// non-whitespace character is a literal `C` followed by a space.
pub open spec fn is_class_start(s: Seq<char>) -> bool {
    let t = trim_left(s);
    t.len() >= 2 && t[0] == 'C' && t[1] == ' '
}

/// The position of the first run of two consecutive spaces at or after
/// `from`: the separator between the identifier field and the name field.
pub open spec fn first_sep(s: Seq<char>, from: int) -> Option<int>
    decreases s.len() - from,
{
    if from < 0 || from + 1 >= s.len() {
        None
    } else if s[from] == ' ' && s[from + 1] == ' ' {
        Some(from)
    } else {
        first_sep(s, from + 1)
    }
}

/// The position of the first space character at or after `from`.
pub open spec fn first_space(s: Seq<char>, from: int) -> Option<int>
    decreases s.len() - from,
{
    if from < 0 || from >= s.len() {
        None
    } else if s[from] == ' ' {
        Some(from)
    } else {
        first_space(s, from + 1)
    }
}

pub proof fn lemma_first_sep_some(s: Seq<char>, from: int, j: int)
    requires
        first_sep(s, from) == Some(j),
    ensures
        from <= j,
        j + 1 < s.len(),
        s[j] == ' ',
        s[j + 1] == ' ',
    decreases s.len() - from,
{
    if !(from < 0 || from + 1 >= s.len()) && !(s[from] == ' ' && s[from + 1] == ' ') {
        lemma_first_sep_some(s, from + 1, j);
    }
}

pub proof fn lemma_first_space_some(s: Seq<char>, from: int, k: int)
    requires
        first_space(s, from) == Some(k),
    ensures
        from <= k,
        k < s.len(),
        s[k] == ' ',
    decreases s.len() - from,
{
    if !(from < 0 || from >= s.len()) && s[from] != ' ' {
        lemma_first_space_some(s, from + 1, k);
    }
}

pub proof fn lemma_trim_left_at(s: Seq<char>, a: int)
    requires
        0 <= a <= s.len(),
        forall|i: int| 0 <= i < a ==> is_ws(s[i]),
        a == s.len() || !is_ws(s[a]),
    ensures
        trim_left(s) == s.subrange(a, s.len() as int),
    decreases a,
{
    if a == 0 {
        assert(s.subrange(0, s.len() as int) =~= s);
    } else {
        let t = s.drop_first();
        assert(forall|i: int| 0 <= i < a - 1 ==> is_ws(#[trigger] t[i]) && t[i] == s[i + 1]);
        lemma_trim_left_at(t, a - 1);
        assert(t.subrange(a - 1, t.len() as int) =~= s.subrange(a, s.len() as int));
    }
}

pub proof fn lemma_trim_right_at(s: Seq<char>, b: int)
    requires
        -1 <= b < s.len(),
        forall|i: int| b < i < s.len() ==> is_ws(s[i]),
        b == -1 || !is_ws(s[b]),
    ensures
        trim_right(s) == s.subrange(0, b + 1),
    decreases s.len() - b,
{
    if b == s.len() - 1 {
        assert(s.subrange(0, s.len() as int) =~= s);
    } else {
        let t = s.drop_last();
        assert(is_ws(s.last()));
        assert(forall|i: int| b < i < t.len() ==> is_ws(#[trigger] t[i]));
        lemma_trim_right_at(t, b);
        assert(t.subrange(0, b + 1) =~= s.subrange(0, b + 1));
    }
}

pub proof fn lemma_leading_tabs_at(s: Seq<char>, a: int)
    requires
        0 <= a <= s.len(),
        forall|i: int| 0 <= i < a ==> s[i] == '\t',
        a == s.len() || s[a] != '\t',
    ensures
        leading_tabs(s) == a,
    decreases a,
{
    if a > 0 {
        let t = s.drop_first();
        assert(forall|i: int| 0 <= i < a - 1 ==> #[trigger] t[i] == s[i + 1]);
        lemma_leading_tabs_at(t, a - 1);
    }
}

pub proof fn lemma_split_lines_len(s: Seq<char>)
    ensures
        split_lines(s).len() >= 1,
    decreases s.len(),
{
    if s.len() != 0 {
        lemma_split_lines_len(s.drop_first());
    }
}

/// Splitting a text that begins with a line-feed-free prefix `a` yields `a`
/// glued onto the first line of the rest.
pub proof fn lemma_split_lines_prefix(a: Seq<char>, b: Seq<char>)
    requires
        forall|i: int| 0 <= i < a.len() ==> a[i] != '\n',
    ensures
        split_lines(a + b) == seq![a + split_lines(b)[0]] + split_lines(b).drop_first(),
    decreases a.len(),
{
    lemma_split_lines_len(b);
    if a.len() == 0 {
        assert(a + b =~= b);
        assert(a + split_lines(b)[0] =~= split_lines(b)[0]);
        assert(seq![split_lines(b)[0]] + split_lines(b).drop_first() =~= split_lines(b));
    } else {
        let c = a[0];
        let a2 = a.drop_first();
        assert((a + b)[0] == c);
        assert(c != '\n');
        assert((a + b).len() > 0);
        assert((a + b).drop_first() =~= a2 + b);
        assert(forall|i: int| 0 <= i < a2.len() ==> #[trigger] a2[i] == a[i + 1]);
        lemma_split_lines_prefix(a2, b);
        let sb = split_lines(b);
        let r0 = split_lines(a2 + b);
        assert(r0 == seq![a2 + sb[0]] + sb.drop_first());
        assert(r0[0] == a2 + sb[0]);
        assert(seq![c] + r0[0] =~= a + sb[0]);
        assert(r0.drop_first() =~= sb.drop_first());
        assert(split_lines(a + b) == seq![seq![c] + r0[0]] + r0.drop_first());
        assert(seq![seq![c] + r0[0]] + r0.drop_first() =~= seq![a + sb[0]] + sb.drop_first());
    }
}

/// A text without a line feed is one single line.
pub proof fn lemma_split_lines_whole(a: Seq<char>)
    requires
        forall|i: int| 0 <= i < a.len() ==> a[i] != '\n',
    ensures
        split_lines(a) == seq![a],
{
    lemma_split_lines_prefix(a, Seq::<char>::empty());
    assert(a + Seq::<char>::empty() =~= a);
    assert(a + split_lines(Seq::<char>::empty())[0] =~= a);
    assert(seq![a + split_lines(Seq::<char>::empty())[0]] + split_lines(
        Seq::<char>::empty(),
    ).drop_first() =~= seq![a]);
}

/// A line-feed-free prefix closed by a line feed is one whole line before the
/// lines of the rest.
pub proof fn lemma_split_lines_step(a: Seq<char>, c: Seq<char>)
    requires
        forall|i: int| 0 <= i < a.len() ==> a[i] != '\n',
    ensures
        split_lines(a + (seq!['\n'] + c)) == seq![a] + split_lines(c),
{
    let b = seq!['\n'] + c;
    lemma_split_lines_prefix(a, b);
    assert(b[0] == '\n');
    assert(b.drop_first() =~= c);
    assert(split_lines(b) == seq![Seq::<char>::empty()] + split_lines(c));
    lemma_split_lines_len(c);
    assert(split_lines(b)[0] =~= Seq::<char>::empty());
    assert(a + split_lines(b)[0] =~= a);
    assert(split_lines(b).drop_first() =~= split_lines(c));
    assert(seq![a + split_lines(b)[0]] + split_lines(b).drop_first() =~= seq![a] + split_lines(c));
}

/// Splits the input at every line feed.
pub fn split_lines_exec(data: &str) -> (r: Vec<String>)
    ensures
        r.deep_view() == split_lines(data@),
{
    let n = data.unicode_len();
    let mut r: Vec<String> = Vec::new();
    let mut start: usize = 0;
    let mut i: usize = 0;
    proof {
        assert(data@.subrange(0, n as int) =~= data@);
        assert(r.deep_view() + split_lines(data@) =~= split_lines(data@));
    }
    while i < n
        invariant
            n == data@.len(),
            start <= i <= n,
            forall|k: int| start <= k < i ==> data@[k] != '\n',
            split_lines(data@) == r.deep_view() + split_lines(
                data@.subrange(start as int, n as int),
            ),
        decreases n - i,
    {
        if data.get_char(i) == '\n' {
            let line = data.substring_char(start, i).to_owned();
            proof {
                let cur = data@.subrange(start as int, i as int);
                let rest = data@.subrange(i + 1, n as int);
                assert(data@.subrange(start as int, n as int) =~= cur + (seq!['\n'] + rest));
                lemma_split_lines_step(cur, rest);
                assert(r.deep_view().push(line@) + split_lines(rest) =~= r.deep_view() + (seq![
                    cur,
                ] + split_lines(rest)));
            }
            r.push(line);
            start = i + 1;
        }
        i = i + 1;
    }
    let line = data.substring_char(start, n).to_owned();
    proof {
        let cur = data@.subrange(start as int, n as int);
        lemma_split_lines_whole(cur);
        assert(r.deep_view().push(line@) =~= r.deep_view() + seq![cur]);
    }
    r.push(line);
    r
}

/// Removes whitespace at both ends.
pub fn trim_exec<'a>(s: &'a str) -> (r: &'a str)
    ensures
        r@ == trim(s@),
{
    let n = s.unicode_len();
    let mut a: usize = 0;
    while a < n && ws_char(s.get_char(a))
        invariant
            n == s@.len(),
            0 <= a <= n,
            forall|i: int| 0 <= i < a ==> is_ws(s@[i]),
        decreases n - a,
    {
        a = a + 1;
    }
    proof {
        lemma_trim_left_at(s@, a as int);
    }
    if a == n {
        let r = s.substring_char(n, n);
        proof {
            assert(trim_left(s@) =~= Seq::<char>::empty());
            assert(trim(s@) =~= Seq::<char>::empty());
        }
        return r;
    }
    let mut b: usize = n - 1;
    while b > a && ws_char(s.get_char(b))
        invariant
            n == s@.len(),
            a <= b < n,
            !is_ws(s@[a as int]),
            forall|i: int| b < i < n ==> is_ws(s@[i]),
        decreases b,
    {
        b = b - 1;
    }
    let r = s.substring_char(a, b + 1);
    proof {
        let t = trim_left(s@);
        assert(t == s@.subrange(a as int, n as int));
        assert(forall|i: int| b - a < i < t.len() ==> is_ws(#[trigger] t[i]));
        assert(t[b - a] == s@[b as int]);
        assert(!is_ws(s@[b as int]));
        lemma_trim_right_at(t, b - a);
        assert(t.subrange(0, b - a + 1) =~= s@.subrange(a as int, b + 1));
    }
    r
}

/// Whether a character counts as whitespace here.
fn ws_char(c: char) -> (r: bool)
    ensures
        r == is_ws(c),
{
    c == ' ' || c == '\t' || c == '\r' || c == '\n'
}

/// Nesting depth of a line: leading tabs, capped at two.
pub fn depth_exec(s: &str) -> (r: usize)
    ensures
        r == depth(s@),
{
    let n = s.unicode_len();
    let mut i: usize = 0;
    while i < n && s.get_char(i) == '\t'
        invariant
            n == s@.len(),
            0 <= i <= n,
            forall|k: int| 0 <= k < i ==> s@[k] == '\t',
        decreases n - i,
    {
        i = i + 1;
    }
    proof {
        lemma_leading_tabs_at(s@, i as int);
    }
    if i >= 2 {
        2
    } else {
        i
    }
}

/// Whether the scanner passes over this line.
pub fn line_skipped_exec(s: &str) -> (r: bool)
    ensures
        r == line_skipped(s@),
{
    let n = s.unicode_len();
    if n > 0 && s.get_char(0) == '#' {
        return true;
    }
    let mut b: usize = n;
    while b > 0 && ws_char(s.get_char(b - 1))
        invariant
            n == s@.len(),
            0 <= b <= n,
            forall|i: int| b <= i < n ==> is_ws(s@[i]),
        decreases b,
    {
        b = b - 1;
    }
    proof {
        lemma_trim_right_at(s@, b - 1);
    }
    b == 0
}

/// Whether this line opens or continues the class section.
pub fn class_start_exec(s: &str) -> (r: bool)
    ensures
        r == is_class_start(s@),
{
    let n = s.unicode_len();
    let mut a: usize = 0;
    while a < n && ws_char(s.get_char(a))
        invariant
            n == s@.len(),
            0 <= a <= n,
            forall|i: int| 0 <= i < a ==> is_ws(s@[i]),
        decreases n - a,
    {
        a = a + 1;
    }
    proof {
        lemma_trim_left_at(s@, a as int);
    }
    if a < n && s.get_char(a) == 'C' {
        a + 1 < n && s.get_char(a + 1) == ' '
    } else {
        false
    }
}

/// The first identifier/name separator (two consecutive spaces), if any.
pub fn find_sep(s: &str) -> (r: Option<usize>)
    ensures
        r matches Some(j) ==> first_sep(s@, 0) == Some(j as int),
        r is None ==> first_sep(s@, 0) is None,
{
    let n = s.unicode_len();
    if n == 0 {
        return None;
    }
    let mut i: usize = 0;
    while i < n - 1
        invariant
            n == s@.len(),
            0 < n,
            0 <= i,
            first_sep(s@, 0) == first_sep(s@, i as int),
        decreases n - i,
    {
        if s.get_char(i) == ' ' && s.get_char(i + 1) == ' ' {
            return Some(i);
        }
        i = i + 1;
    }
    None
}

/// The first space character, if any.
pub fn find_space(s: &str) -> (r: Option<usize>)
    ensures
        r matches Some(j) ==> first_space(s@, 0) == Some(j as int),
        r is None ==> first_space(s@, 0) is None,
{
    let n = s.unicode_len();
    let mut i: usize = 0;
    while i < n
        invariant
            n == s@.len(),
            0 <= i,
            first_space(s@, 0) == first_space(s@, i as int),
        decreases n - i,
    {
        if s.get_char(i) == ' ' {
            return Some(i);
        }
        i = i + 1;
    }
    None
}

} // verus!
