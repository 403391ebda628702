//! Character-level string helpers shared by the parsers of this crate:
//! searching, prefix and suffix tests, splitting on a separator, trimming,
//! joining, and lower-casing.

use vstd::prelude::*;

verus! {

// ---------------------------------------------------------------------------
// Searching
// ---------------------------------------------------------------------------

/// `pat` occurs in `s` starting at position `i`.
pub open spec fn matches_at(s: Seq<char>, pat: Seq<char>, i: int) -> bool {
    0 <= i && i + pat.len() <= s.len() && s.subrange(i, i + pat.len()) == pat
}

/// Position of the first occurrence of `pat` in `s` at or after `i`.
pub open spec fn find_from(s: Seq<char>, pat: Seq<char>, i: int) -> Option<int>
    decreases s.len() - i,
{
    if i < 0 || i + pat.len() > s.len() {
        None
    } else if matches_at(s, pat, i) {
        Some(i)
    } else if i >= s.len() {
        None
    } else {
        find_from(s, pat, i + 1)
    }
}

/// Position of the first occurrence of `pat` in `s`.
pub open spec fn find(s: Seq<char>, pat: Seq<char>) -> Option<int> {
    find_from(s, pat, 0)
}

/// `pat` occurs somewhere in `s`.
pub open spec fn contains(s: Seq<char>, pat: Seq<char>) -> bool {
    find(s, pat) is Some
}

/// A pattern that occurs at some position is found.
pub proof fn lemma_contains_at(s: Seq<char>, pat: Seq<char>, i: int)
    requires
        matches_at(s, pat, i),
    ensures
        contains(s, pat),
{
    lemma_find(s, pat);
}

/// `s` begins with `p`.
pub open spec fn has_prefix(s: Seq<char>, p: Seq<char>) -> bool {
    matches_at(s, p, 0)
}

/// `s` ends with `p`.
pub open spec fn has_suffix(s: Seq<char>, p: Seq<char>) -> bool {
    matches_at(s, p, s.len() - p.len())
}

/// The part of `s` before the first occurrence of `sep` (all of `s` when
/// `sep` does not occur).
pub open spec fn before(s: Seq<char>, sep: Seq<char>) -> Seq<char> {
    match find(s, sep) {
        Some(i) => s.take(i),
        None => s,
    }
}

/// The part of `s` after the first occurrence of `sep`, if `sep` occurs.
pub open spec fn after(s: Seq<char>, sep: Seq<char>) -> Option<Seq<char>> {
    match find(s, sep) {
        Some(i) => Some(s.skip(i + sep.len())),
        None => None,
    }
}

proof fn lemma_find_from_bounds(s: Seq<char>, pat: Seq<char>, i: int)
    requires
        0 <= i,
    ensures
        find_from(s, pat, i) matches Some(j) ==> i <= j && matches_at(s, pat, j) && forall|k: int|
            i <= k < j ==> !matches_at(s, pat, k),
        find_from(s, pat, i) is None ==> forall|k: int| i <= k ==> !matches_at(s, pat, k),
    decreases s.len() - i,
{
    if i < 0 || i + pat.len() > s.len() {
    } else if matches_at(s, pat, i) {
    } else if i >= s.len() {
    } else {
        lemma_find_from_bounds(s, pat, i + 1);
    }
}

/// `find(s, pat)` is the least position where `pat` occurs.
pub proof fn lemma_find(s: Seq<char>, pat: Seq<char>)
    ensures
        find(s, pat) matches Some(j) ==> 0 <= j && j + pat.len() <= s.len() && s.subrange(
            j,
            j + pat.len(),
        ) == pat && forall|k: int| 0 <= k < j ==> !matches_at(s, pat, k),
        find(s, pat) is None ==> forall|k: int| !matches_at(s, pat, k),
{
    lemma_find_from_bounds(s, pat, 0);
    if find(s, pat) is None {
        assert forall|k: int| !matches_at(s, pat, k) by {
            if k < 0 {
            }
        }
    }
}

/// The characters of `s`, in order.
pub fn chars_of(s: &str) -> (out: Vec<char>)
    ensures
        out@ == s@,
{
    let mut out: Vec<char> = Vec::new();
    for c in it: s.chars()
        invariant
            out@ == it.seq().take(it.index() as int),
            it.seq() == s@,
    {
        out.push(c);
    }
    out
}

/// Whether `pat` occurs in `s` at position `i`.
pub fn matches_at_exec(s: &Vec<char>, pat: &Vec<char>, i: usize) -> (r: bool)
    ensures
        r == matches_at(s@, pat@, i as int),
{
    if pat.len() > s.len() || i > s.len() - pat.len() {
        return false;
    }
    let mut k: usize = 0;
    while k < pat.len()
        invariant
            i + pat.len() <= s.len(),
            k <= pat.len(),
            forall|m: int| 0 <= m < k ==> s@[i + m] == pat@[m],
        decreases pat.len() - k,
    {
        if s[i + k] != pat[k] {
            assert(s@.subrange(i as int, i + pat.len())[k as int] != pat@[k as int]);
            return false;
        }
        k = k + 1;
    }
    assert(s@.subrange(i as int, i + pat.len()) =~= pat@);
    true
}

/// Position of the first occurrence of `pat` in `s` at or after `from`.
pub fn find_from_exec(s: &Vec<char>, pat: &Vec<char>, from: usize) -> (r: Option<usize>)
    ensures
        r matches Some(i) ==> find_from(s@, pat@, from as int) == Some(i as int),
        r is None ==> find_from(s@, pat@, from as int) is None,
{
    if pat.len() > s.len() || from > s.len() - pat.len() {
        return None;
    }
    if pat.len() == 0 {
        proof {
            assert(s@.subrange(from as int, from as int) =~= pat@);
        }
        return Some(from);
    }
    let mut i: usize = from;
    while i <= s.len() - pat.len()
        invariant
            1 <= pat.len() <= s.len(),
            from <= i,
            find_from(s@, pat@, from as int) == find_from(s@, pat@, i as int),
        decreases s.len() - i,
    {
        if matches_at_exec(s, pat, i) {
            return Some(i);
        }
        i = i + 1;
    }
    None
}

/// Position of the first occurrence of `pat` in `s`.
pub fn find_exec(s: &Vec<char>, pat: &Vec<char>) -> (r: Option<usize>)
    ensures
        r matches Some(i) ==> find(s@, pat@) == Some(i as int),
        r is None ==> find(s@, pat@) is None,
{
    find_from_exec(s, pat, 0)
}

/// Whether `pat` occurs in `s`.
pub fn contains_exec(s: &Vec<char>, pat: &Vec<char>) -> (r: bool)
    ensures
        r == contains(s@, pat@),
{
    find_exec(s, pat).is_some()
}

/// Whether `s` begins with `p`.
pub fn has_prefix_exec(s: &Vec<char>, p: &Vec<char>) -> (r: bool)
    ensures
        r == has_prefix(s@, p@),
{
    matches_at_exec(s, p, 0)
}

/// Whether `s` ends with `p`.
pub fn has_suffix_exec(s: &Vec<char>, p: &Vec<char>) -> (r: bool)
    ensures
        r == has_suffix(s@, p@),
{
    if p.len() > s.len() {
        return false;
    }
    matches_at_exec(s, p, s.len() - p.len())
}

/// Whether the two character sequences are equal.
pub fn chars_eq(a: &Vec<char>, b: &Vec<char>) -> (r: bool)
    ensures
        r == (a@ == b@),
{
    if a.len() != b.len() {
        return false;
    }
    let r = matches_at_exec(a, b, 0);
    proof {
        assert(a@.subrange(0, b@.len() as int) =~= a@);
    }
    r
}

/// A copy of the characters of `s` from position `from` up to (not
/// including) `to`.
pub fn slice_chars(s: &Vec<char>, from: usize, to: usize) -> (out: Vec<char>)
    requires
        from <= to <= s.len(),
    ensures
        out@ == s@.subrange(from as int, to as int),
{
    let mut out: Vec<char> = Vec::new();
    let mut i: usize = from;
    while i < to
        invariant
            from <= i <= to <= s.len(),
            out@ == s@.subrange(from as int, i as int),
        decreases to - i,
    {
        out.push(s[i]);
        i = i + 1;
        assert(out@ =~= s@.subrange(from as int, i as int));
    }
    out
}

// ---------------------------------------------------------------------------
// Building strings
// ---------------------------------------------------------------------------

/// Builds a `String` holding the given characters.
pub fn string_of(chars: &Vec<char>) -> (out: String)
    ensures
        out@ == chars@,
{
    let mut out = String::new();
    let mut i: usize = 0;
    while i < chars.len()
        invariant
            i <= chars.len(),
            out@ == chars@.take(i as int),
        decreases chars.len() - i,
    {
        push_char(&mut out, chars[i]);
        i = i + 1;
        assert(out@ =~= chars@.take(i as int));
    }
    assert(chars@.take(chars.len() as int) =~= chars@);
    out
}

/// `String::push`: appends one character.
#[verifier::external_body]
fn push_char(s: &mut String, c: char)
    ensures
        final(s)@ == old(s)@.push(c),
{
    s.push(c);
}

// ---------------------------------------------------------------------------
// Trimming
// ---------------------------------------------------------------------------

/// The characters with the Unicode `White_Space` property, which is what
/// `char::is_whitespace` and `str::trim` go by.
pub open spec fn is_white_space(c: char) -> bool {
    let u = c as u32;
    ||| 0x09 <= u <= 0x0D
    ||| u == 0x20
    ||| u == 0x85
    ||| u == 0xA0
    ||| u == 0x1680
    ||| 0x2000 <= u <= 0x200A
    ||| u == 0x2028
    ||| u == 0x2029
    ||| u == 0x202F
    ||| u == 0x205F
    ||| u == 0x3000
}

/// `s` without its leading white space.
pub open spec fn trim_start(s: Seq<char>) -> Seq<char>
    decreases s.len(),
{
    if s.len() > 0 && is_white_space(s[0]) {
        trim_start(s.drop_first())
    } else {
        s
    }
}

/// `s` without its trailing white space.
pub open spec fn trim_end(s: Seq<char>) -> Seq<char>
    decreases s.len(),
{
    if s.len() > 0 && is_white_space(s.last()) {
        trim_end(s.drop_last())
    } else {
        s
    }
}

/// `s` without leading and trailing white space.
pub open spec fn trim(s: Seq<char>) -> Seq<char> {
    trim_end(trim_start(s))
}

proof fn lemma_trim_start_keeps(s: Seq<char>, i: int)
    requires
        0 <= i < s.len(),
        !is_white_space(s[i]),
    ensures
        exists|k: int| 0 <= k <= i && trim_start(s) == s.skip(k),
    decreases s.len(),
{
    if s.len() > 0 && is_white_space(s[0]) {
        let t = s.drop_first();
        assert(t[i - 1] == s[i]);
        lemma_trim_start_keeps(t, i - 1);
        let k = choose|k: int| 0 <= k <= i - 1 && trim_start(t) == t.skip(k);
        assert(t.skip(k) =~= s.skip(k + 1));
    } else {
        assert(s.skip(0) =~= s);
    }
}

proof fn lemma_trim_end_keeps(s: Seq<char>, i: int)
    requires
        0 <= i < s.len(),
        !is_white_space(s[i]),
    ensures
        trim_end(s).len() > i,
    decreases s.len(),
{
    if s.len() > 0 && is_white_space(s.last()) {
        let t = s.drop_last();
        assert(t[i] == s[i]);
        lemma_trim_end_keeps(t, i);
    }
}

/// Text with a character that is not white space does not trim to nothing.
pub proof fn lemma_trim_nonempty(s: Seq<char>, i: int)
    requires
        0 <= i < s.len(),
        !is_white_space(s[i]),
    ensures
        trim(s).len() > 0,
{
    lemma_trim_start_keeps(s, i);
    let k = choose|k: int| 0 <= k <= i && trim_start(s) == s.skip(k);
    assert(s.skip(k)[i - k] == s[i]);
    lemma_trim_end_keeps(s.skip(k), i - k);
}

/// Whether `c` is white space (`White_Space`).
pub fn is_white_space_exec(c: char) -> (r: bool)
    ensures
        r == is_white_space(c),
{
    let u = c as u32;
    (0x09 <= u && u <= 0x0D) || u == 0x20 || u == 0x85 || u == 0xA0 || u == 0x1680 || (0x2000
        <= u && u <= 0x200A) || u == 0x2028 || u == 0x2029 || u == 0x202F || u == 0x205F || u
        == 0x3000
}

proof fn lemma_trim_start_skip(s: Seq<char>, i: int)
    requires
        0 <= i <= s.len(),
        forall|k: int| 0 <= k < i ==> is_white_space(s[k]),
    ensures
        trim_start(s) == trim_start(s.skip(i)),
    decreases i,
{
    if i > 0 {
        assert(s.drop_first().skip(i - 1) =~= s.skip(i));
        lemma_trim_start_skip(s.drop_first(), i - 1);
    } else {
        assert(s.skip(0) =~= s);
    }
}

proof fn lemma_trim_end_take(s: Seq<char>, j: int)
    requires
        0 <= j <= s.len(),
        forall|k: int| j <= k < s.len() ==> is_white_space(s[k]),
    ensures
        trim_end(s) == trim_end(s.take(j)),
    decreases s.len() - j,
{
    if j < s.len() {
        assert(s.drop_last().take(j) =~= s.take(j));
        lemma_trim_end_take(s.drop_last(), j);
    } else {
        assert(s.take(j) =~= s);
    }
}

/// The characters of `s` without leading and trailing white space.
pub fn trim_chars(s: &Vec<char>) -> (out: Vec<char>)
    ensures
        out@ == trim(s@),
{
    let mut i: usize = 0;
    while i < s.len() && is_white_space_exec(s[i])
        invariant
            i <= s.len(),
            forall|k: int| 0 <= k < i ==> is_white_space(s@[k]),
        decreases s.len() - i,
    {
        i = i + 1;
    }
    proof {
        lemma_trim_start_skip(s@, i as int);
    }
    let ghost rest = s@.skip(i as int);
    let mut j: usize = s.len();
    while j > i && is_white_space_exec(s[j - 1])
        invariant
            i <= j <= s.len(),
            forall|k: int| j <= k < s.len() ==> is_white_space(s@[k]),
        decreases j,
    {
        j = j - 1;
    }
    proof {
        assert(!(rest.len() > 0 && is_white_space(rest[0])));
        assert(trim_start(rest) == rest);
        assert forall|k: int| j - i <= k < rest.len() implies is_white_space(rest[k]) by {}
        lemma_trim_end_take(rest, j - i);
        assert(rest.take(j - i) =~= s@.subrange(i as int, j as int));
        let t = rest.take(j - i);
        assert(!(t.len() > 0 && is_white_space(t.last())));
    }
    slice_chars(s, i, j)
}

// ---------------------------------------------------------------------------
// Splitting and joining
// ---------------------------------------------------------------------------

/// The pieces of `s` between occurrences of the character `sep`, as
/// `str::split` yields them (always at least one piece).
pub open spec fn split_on(s: Seq<char>, sep: char) -> Seq<Seq<char>>
    decreases s.len(),
{
    match find(s, seq![sep]) {
        Some(i) => {
            if 0 <= i < s.len() {
                seq![s.take(i)] + split_on(s.skip(i + 1), sep)
            } else {
                seq![s]
            }
        },
        None => seq![s],
    }
}

/// Splits the characters of `s` on the character `sep`.
pub fn split_chars(s: &Vec<char>, sep: char) -> (out: Vec<Vec<char>>)
    ensures
        out@.len() == split_on(s@, sep).len(),
        forall|k: int| 0 <= k < out@.len() ==> #[trigger] out@[k]@ == split_on(s@, sep)[k],
    decreases s.len(),
{
    let sep_v: Vec<char> = vec![sep];
    let found = find_exec(s, &sep_v);
    proof {
        assert(sep_v@ =~= seq![sep]);
        lemma_find(s@, seq![sep]);
    }
    match found {
        Some(i) => {
            let head = slice_chars(s, 0, i);
            let tail = slice_chars(s, i + 1, s.len());
            proof {
                assert(head@ =~= s@.take(i as int));
                assert(tail@ =~= s@.skip(i + 1));
            }
            let rest = split_chars(&tail, sep);
            let mut out: Vec<Vec<char>> = Vec::new();
            out.push(head);
            let mut k: usize = 0;
            while k < rest.len()
                invariant
                    k <= rest.len(),
                    out@.len() == k + 1,
                    out@[0]@ == s@.take(i as int),
                    rest@.len() == split_on(tail@, sep).len(),
                    forall|m: int| 0 <= m < rest@.len() ==> #[trigger] rest@[m]@ == split_on(tail@, sep)[m],
                    forall|m: int| 1 <= m < out@.len() ==> #[trigger] out@[m]@ == rest@[m - 1]@,
                decreases rest.len() - k,
            {
                out.push(slice_chars(&rest[k], 0, rest[k].len()));
                proof {
                    assert(rest@[k as int]@.subrange(0, rest@[k as int]@.len() as int) =~= rest@[k as int]@);
                }
                k = k + 1;
            }
            proof {
                let whole = split_on(s@, sep);
                assert(whole == seq![s@.take(i as int)] + split_on(tail@, sep));
                assert forall|m: int| 0 <= m < out@.len() implies #[trigger] out@[m]@ == whole[m] by {
                    if m >= 1 {
                        assert(out@[m]@ == rest@[m - 1]@);
                    }
                }
            }
            out
        },
        None => {
            let mut out: Vec<Vec<char>> = Vec::new();
            out.push(slice_chars(s, 0, s.len()));
            proof {
                assert(s@.subrange(0, s@.len() as int) =~= s@);
            }
            out
        },
    }
}

/// `s` does not contain the character `c`.
pub open spec fn lacks(s: Seq<char>, c: char) -> bool {
    forall|k: int| 0 <= k < s.len() ==> s[k] != c
}

proof fn lemma_find_from_char(s: Seq<char>, c: char, from: int, i: int)
    requires
        0 <= from <= i < s.len(),
        s[i] == c,
        forall|k: int| from <= k < i ==> s[k] != c,
    ensures
        find_from(s, seq![c], from) == Some(i),
    decreases i - from,
{
    if from < i {
        assert(s.subrange(from, from + 1)[0] == s[from]);
        assert(!matches_at(s, seq![c], from));
        lemma_find_from_char(s, c, from + 1, i);
    } else {
        assert(s.subrange(i, i + 1) =~= seq![c]);
    }
}

proof fn lemma_find_from_no_char(s: Seq<char>, c: char, from: int)
    requires
        0 <= from <= s.len(),
        forall|k: int| from <= k < s.len() ==> s[k] != c,
    ensures
        find_from(s, seq![c], from) is None,
    decreases s.len() - from,
{
    if from < s.len() {
        assert(s.subrange(from, from + 1)[0] == s[from]);
        assert(!matches_at(s, seq![c], from));
        lemma_find_from_no_char(s, c, from + 1);
    }
}

/// A text without the separator is one piece.
pub proof fn lemma_split_lacking(s: Seq<char>, c: char)
    requires
        lacks(s, c),
    ensures
        split_on(s, c) == seq![s],
{
    lemma_find_from_no_char(s, c, 0);
}

/// Splitting `x`, the separator, then `y` gives the pieces of `x` followed
/// by the pieces of `y`.
pub proof fn lemma_split_concat(x: Seq<char>, c: char, y: Seq<char>)
    ensures
        split_on(x + seq![c] + y, c) == split_on(x, c) + split_on(y, c),
    decreases x.len(),
{
    let s = x + seq![c] + y;
    if lacks(x, c) {
        assert(s[x.len() as int] == c);
        lemma_find_from_char(s, c, 0, x.len() as int);
        lemma_split_lacking(x, c);
        assert(s.take(x.len() as int) =~= x);
        assert(s.skip(x.len() + 1int) =~= y);
    } else {
        let i = choose|i: int| 0 <= i < x.len() && x[i] == c;
        let j = choose|j: int| 0 <= j < x.len() && x[j] == c && forall|k: int| 0 <= k < j ==> x[k] != c;
        assert(exists|j: int| 0 <= j < x.len() && x[j] == c && forall|k: int| 0 <= k < j ==> x[k] != c) by {
            lemma_first_char(x, c, i);
        }
        lemma_find_from_char(x, c, 0, j);
        lemma_find_from_char(s, c, 0, j);
        assert(s.take(j) =~= x.take(j));
        assert(s.skip(j + 1) =~= x.skip(j + 1) + seq![c] + y);
        lemma_split_concat(x.skip(j + 1), c, y);
    }
}

proof fn lemma_first_char(x: Seq<char>, c: char, i: int)
    requires
        0 <= i < x.len(),
        x[i] == c,
    ensures
        exists|j: int| 0 <= j < x.len() && x[j] == c && forall|k: int| 0 <= k < j ==> x[k] != c,
    decreases i,
{
    if exists|k: int| 0 <= k < i && x[k] == c {
        let k = choose|k: int| 0 <= k < i && x[k] == c;
        lemma_first_char(x, c, k);
    } else {
        assert(forall|k: int| 0 <= k < i ==> x[k] != c);
    }
}

/// Joining pieces that do not contain the separator and splitting the
/// result on it gives the pieces back.
pub proof fn lemma_split_join(parts: Seq<Seq<char>>, c: char)
    requires
        parts.len() >= 1,
        forall|k: int| 0 <= k < parts.len() ==> lacks(#[trigger] parts[k], c),
    ensures
        split_on(join(parts, seq![c]), c) == parts,
    decreases parts.len(),
{
    if parts.len() == 1 {
        lemma_split_lacking(parts[0], c);
        assert(parts =~= seq![parts[0]]);
    } else {
        let init = parts.drop_last();
        assert forall|k: int| 0 <= k < init.len() implies lacks(#[trigger] init[k], c) by {
            assert(init[k] == parts[k]);
        }
        lemma_split_join(init, c);
        lemma_split_concat(join(init, seq![c]), c, parts.last());
        lemma_split_lacking(parts.last(), c);
        assert(init + seq![parts.last()] =~= parts);
    }
}

/// The strings of `items` joined with `sep` between consecutive ones.
pub open spec fn join(items: Seq<Seq<char>>, sep: Seq<char>) -> Seq<char>
    decreases items.len(),
{
    if items.len() == 0 {
        Seq::empty()
    } else if items.len() == 1 {
        items[0]
    } else {
        join(items.drop_last(), sep) + sep + items.last()
    }
}

/// The total number of characters in `items`.
pub open spec fn total_len(items: Seq<Seq<char>>) -> int
    decreases items.len(),
{
    if items.len() == 0 {
        0
    } else {
        total_len(items.drop_last()) + items.last().len()
    }
}

/// Where item `k` starts in `join(items, sep)`: after the items before it
/// and one separator for each of them.
pub open spec fn join_offset(items: Seq<Seq<char>>, sep: Seq<char>, k: int) -> int {
    total_len(items.take(k)) + k * sep.len()
}

/// The layout of a joined text: its length is the items' total length plus
/// one separator between each two consecutive items; each item stands, in
/// order, at its offset, and a separator follows every item but the last.
pub proof fn lemma_join_layout(items: Seq<Seq<char>>, sep: Seq<char>)
    ensures
        items.len() == 0 ==> join(items, sep).len() == 0,
        items.len() > 0 ==> join(items, sep).len() == total_len(items) + (items.len() - 1)
            * sep.len(),
        forall|k: int|
            0 <= k < items.len() ==> join(items, sep).subrange(
                join_offset(items, sep, k),
                join_offset(items, sep, k) + items[k].len(),
            ) == #[trigger] items[k],
        forall|k: int|
            0 <= k < items.len() - 1 ==> #[trigger] join(items, sep).subrange(
                join_offset(items, sep, k) + items[k].len(),
                join_offset(items, sep, k) + items[k].len() + sep.len(),
            ) == sep,
{
    lemma_join_len(items, sep);
    assert forall|k: int| 0 <= k < items.len() implies join(items, sep).subrange(
        join_offset(items, sep, k),
        join_offset(items, sep, k) + items[k].len(),
    ) == #[trigger] items[k] by {
        lemma_join_item(items, sep, k);
    }
    assert forall|k: int| 0 <= k < items.len() - 1 implies #[trigger] join(items, sep).subrange(
        join_offset(items, sep, k) + items[k].len(),
        join_offset(items, sep, k) + items[k].len() + sep.len(),
    ) == sep by {
        lemma_join_sep(items, sep, k);
    }
}

proof fn lemma_join_len(items: Seq<Seq<char>>, sep: Seq<char>)
    ensures
        items.len() == 0 ==> join(items, sep).len() == 0,
        items.len() > 0 ==> join(items, sep).len() == total_len(items) + (items.len() - 1)
            * sep.len(),
    decreases items.len(),
{
    let n = items.len() as int;
    let l = sep.len() as int;
    if n == 1 {
        assert(items.drop_last() =~= Seq::<Seq<char>>::empty());
        assert(total_len(items.drop_last()) == 0);
        assert(items.last() == items[0]);
    } else if n > 1 {
        lemma_join_len(items.drop_last(), sep);
        assert((n - 2) * l + l == (n - 1) * l) by (nonlinear_arith);
    }
}

/// Items before the last one lie at the same offsets without the last item.
proof fn lemma_offset_init(items: Seq<Seq<char>>, sep: Seq<char>, k: int)
    requires
        0 <= k < items.len() - 1,
    ensures
        join_offset(items, sep, k) == join_offset(items.drop_last(), sep, k),
        items.drop_last()[k] == items[k],
{
    assert(items.take(k) =~= items.drop_last().take(k));
}

proof fn lemma_subrange_of_front(front: Seq<char>, back: Seq<char>, a: int, b: int)
    requires
        0 <= a <= b <= front.len(),
    ensures
        (front + back).subrange(a, b) == front.subrange(a, b),
{
    assert((front + back).subrange(a, b) =~= front.subrange(a, b));
}

proof fn lemma_join_item(items: Seq<Seq<char>>, sep: Seq<char>, k: int)
    requires
        0 <= k < items.len(),
    ensures
        join(items, sep).subrange(join_offset(items, sep, k), join_offset(items, sep, k)
            + items[k].len()) == items[k],
    decreases items.len(),
{
    let n = items.len() as int;
    let l = sep.len() as int;
    if n == 1 {
        assert(items.take(0) =~= Seq::<Seq<char>>::empty());
        assert(join(items, sep).subrange(0, items[0].len() as int) =~= items[0]);
    } else {
        let init = items.drop_last();
        let ji = join(init, sep);
        lemma_join_len(init, sep);
        if k < n - 1 {
            lemma_offset_init(items, sep, k);
            lemma_join_item(init, sep, k);
            lemma_offset_fits(init, sep, k);
            lemma_subrange_of_front(
                ji,
                sep + items.last(),
                join_offset(init, sep, k),
                join_offset(init, sep, k) + init[k].len(),
            );
            assert(ji + sep + items.last() =~= ji + (sep + items.last()));
        } else {
            assert(items.take(n - 1) =~= init);
            assert((n - 1) * l == (n - 2) * l + l) by (nonlinear_arith);
            assert(join_offset(items, sep, n - 1) == ji.len() + l);
            assert(join(items, sep).subrange(ji.len() + l, ji.len() + l + items[k].len())
                =~= items.last());
        }
    }
}

proof fn lemma_join_sep(items: Seq<Seq<char>>, sep: Seq<char>, k: int)
    requires
        0 <= k < items.len() - 1,
    ensures
        join(items, sep).subrange(
            join_offset(items, sep, k) + items[k].len(),
            join_offset(items, sep, k) + items[k].len() + sep.len(),
        ) == sep,
    decreases items.len(),
{
    let n = items.len() as int;
    let l = sep.len() as int;
    let init = items.drop_last();
    let ji = join(init, sep);
    lemma_join_len(init, sep);
    lemma_offset_init(items, sep, k);
    if k < n - 2 {
        lemma_join_sep(init, sep, k);
        lemma_offset_fits(init, sep, k);
        lemma_offset_fits(init, sep, k + 1);
        lemma_offset_step(init, sep, k);
        lemma_subrange_of_front(
            ji,
            sep + items.last(),
            join_offset(init, sep, k) + init[k].len(),
            join_offset(init, sep, k) + init[k].len() + l,
        );
        assert(ji + sep + items.last() =~= ji + (sep + items.last()));
    } else {
        lemma_offset_step(items, sep, k);
        assert(items.take(n - 1) =~= init);
        assert((n - 1) * l == (n - 2) * l + l) by (nonlinear_arith);
        assert(join_offset(items, sep, k) + items[k].len() == ji.len());
        assert(join(items, sep).subrange(ji.len() as int, ji.len() + l) =~= sep);
    }
}

/// The offset of the next item is one item and one separator further.
proof fn lemma_offset_step(items: Seq<Seq<char>>, sep: Seq<char>, k: int)
    requires
        0 <= k < items.len(),
    ensures
        join_offset(items, sep, k + 1) == join_offset(items, sep, k) + items[k].len() + sep.len(),
{
    assert(items.take(k + 1).drop_last() =~= items.take(k));
    assert(items.take(k + 1).last() == items[k]);
    assert((k + 1) * sep.len() == k * sep.len() + sep.len()) by (nonlinear_arith);
}

/// An item ends inside the joined text of all the items: item `k` ends at or
/// before the last item's start, less one separator.
proof fn lemma_offset_fits(items: Seq<Seq<char>>, sep: Seq<char>, k: int)
    requires
        0 <= k < items.len(),
    ensures
        join_offset(items, sep, k) >= 0,
        join_offset(items, sep, k) + items[k].len() <= total_len(items) + (items.len() - 1)
            * sep.len(),
    decreases items.len() - k,
{
    lemma_total_len_nonneg(items.take(k));
    assert(k * sep.len() >= 0) by (nonlinear_arith)
        requires
            k >= 0,
    ;
    if k == items.len() - 1 {
        assert(items.take(k) =~= items.drop_last());
    } else {
        lemma_offset_fits(items, sep, k + 1);
        lemma_offset_step(items, sep, k);
    }
}

proof fn lemma_total_len_nonneg(items: Seq<Seq<char>>)
    ensures
        total_len(items) >= 0,
    decreases items.len(),
{
    if items.len() > 0 {
        lemma_total_len_nonneg(items.drop_last());
    }
}

/// Joins `items` with `sep` between consecutive ones (`[..].join(sep)`).
pub fn join_strings(items: &Vec<String>, sep: &str) -> (out: String)
    ensures
        out@ == join(items@.map_values(|s: String| s@), sep@),
{
    let ghost views = items@.map_values(|s: String| s@);
    let mut out = String::new();
    let mut i: usize = 0;
    while i < items.len()
        invariant
            i <= items.len(),
            views == items@.map_values(|s: String| s@),
            out@ == join(views.take(i as int), sep@),
        decreases items.len() - i,
    {
        proof {
            assert(views.take(i + 1).drop_last() =~= views.take(i as int));
            assert(views.take(i + 1).last() == items@[i as int]@);
        }
        if i > 0 {
            out.append(sep);
        } else {
            assert(views.take(1) =~= seq![views[0]]);
        }
        out.append(items[i].as_str());
        i = i + 1;
    }
    assert(views.take(items.len() as int) =~= views);
    out
}

// ---------------------------------------------------------------------------
// Lower-casing
// ---------------------------------------------------------------------------

/// What `str::to_lowercase` returns for the given characters: the Unicode
/// lower-case mapping, applied character by character with the Unicode
/// context rules (final sigma and the like).
pub uninterp spec fn unicode_lowercase(s: Seq<char>) -> Seq<char>;

/// `c` with `A`-`Z` mapped to `a`-`z`.
pub open spec fn ascii_lower_char(c: char) -> char {
    if 'A' <= c <= 'Z' {
        ((c as u32) + 32) as char
    } else {
        c
    }
}

/// Whether all characters are ASCII.
pub open spec fn all_ascii(s: Seq<char>) -> bool {
    forall|i: int| 0 <= i < s.len() ==> (s[i] as u32) < 128
}

/// `str::to_lowercase`: the Unicode lower-case mapping of `s`, named by
/// `unicode_lowercase`; what the mapping does to each character is left to
/// the name.
#[verifier::external_body]
pub(crate) fn to_lowercase(s: &str) -> (out: String)
    ensures
        out@ == unicode_lowercase(s@),
{
    s.to_lowercase()
}

/// Lower case of `s`: ASCII text maps `A`-`Z` to `a`-`z`; other text goes
/// by the Unicode mapping (`str::to_lowercase`), which agrees with the ASCII
/// one on ASCII text.
pub open spec fn lower(s: Seq<char>) -> Seq<char> {
    if all_ascii(s) {
        s.map_values(|c: char| ascii_lower_char(c))
    } else {
        unicode_lowercase(s)
    }
}

/// The lower case of the characters `s` (see `lower`).
pub fn lowercase_chars(s: &Vec<char>) -> (out: Vec<char>)
    ensures
        out@ == lower(s@),
{
    let mut ascii = true;
    let mut i: usize = 0;
    while i < s.len()
        invariant
            i <= s.len(),
            ascii == forall|k: int| 0 <= k < i ==> (s@[k] as u32) < 128,
        decreases s.len() - i,
    {
        if (s[i] as u32) >= 128 {
            ascii = false;
        }
        i = i + 1;
    }
    if ascii {
        let mut out: Vec<char> = Vec::new();
        let mut j: usize = 0;
        while j < s.len()
            invariant
                j <= s.len(),
                out@ == s@.take(j as int).map_values(|c: char| ascii_lower_char(c)),
            decreases s.len() - j,
        {
            let c = s[j];
            let l = if 'A' <= c && c <= 'Z' {
                ((c as u32) + 32) as u8 as char
            } else {
                c
            };
            assert(l == ascii_lower_char(c));
            out.push(l);
            j = j + 1;
            assert(out@ =~= s@.take(j as int).map_values(|c: char| ascii_lower_char(c)));
        }
        assert(s@.take(s.len() as int) =~= s@);
        out
    } else {
        let lowered = to_lowercase(string_of(s).as_str());
        chars_of(lowered.as_str())
    }
}

} // verus!
