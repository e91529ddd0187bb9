//! Character-level text operations with their meaning stated over `Seq<char>`.

use vstd::prelude::*;

verus! {

/// The characters of `s`, in order.
pub fn chars_of(s: &str) -> (v: Vec<char>)
    ensures
        v@ == s@,
{
    let mut v: Vec<char> = Vec::new();
    for c in it: s.chars()
        invariant
            v@ == it.seq().take(it.index() as int),
    {
        v.push(c);
    }
    v
}

/// Builds a `String` from characters, with `Iterator::collect` into `String`.
/// The result holds exactly those characters.
#[verifier::external_body]
pub(crate) fn string_of(v: &[char]) -> (s: String)
    ensures
        s@ == v@,
{
    v.iter().collect::<String>()
}

/// `s` begins with `p`.
pub open spec fn spec_starts_with(s: Seq<char>, p: Seq<char>) -> bool {
    p.len() <= s.len() && s.subrange(0, p.len() as int) == p
}

/// `p` occurs in `s` starting at position `i`.
pub open spec fn occurs_at(s: Seq<char>, p: Seq<char>, i: int) -> bool {
    0 <= i && i + p.len() <= s.len() && s.subrange(i, i + p.len()) == p
}

/// `p` occurs somewhere in `s` (the empty text occurs everywhere).
pub open spec fn spec_contains(s: Seq<char>, p: Seq<char>) -> bool {
    exists|i: int| occurs_at(s, p, i)
}

/// Whether `p` occurs in `s` at position `i`.
pub fn occurs_at_exec(s: &[char], p: &[char], i: usize) -> (r: bool)
    ensures
        r == occurs_at(s@, p@, i as int),
{
    if p.len() > s.len() || i > s.len() - p.len() {
        return false;
    }
    let mut k: usize = 0;
    while k < p.len()
        invariant
            i + p@.len() <= s@.len(),
            s@.len() <= usize::MAX,
            k <= p@.len(),
            forall|j: int| 0 <= j < k ==> s@[i + j] == p@[j],
        decreases p@.len() - k,
    {
        if s[i + k] != p[k] {
            assert(s@.subrange(i as int, i + p@.len())[k as int] != p@[k as int]);
            return false;
        }
        k = k + 1;
    }
    assert(s@.subrange(i as int, i + p@.len()) =~= p@);
    true
}

pub fn starts_with(s: &[char], p: &[char]) -> (r: bool)
    ensures
        r == spec_starts_with(s@, p@),
{
    occurs_at_exec(s, p, 0)
}

pub fn chars_equal(a: &[char], b: &[char]) -> (r: bool)
    ensures
        r == (a@ == b@),
{
    if a.len() != b.len() {
        return false;
    }
    let r = occurs_at_exec(a, b, 0);
    proof {
        if r { assert(a@ =~= a@.subrange(0, b@.len() as int)); }
        if a@ == b@ { assert(a@.subrange(0, b@.len() as int) =~= b@); }
    }
    r
}

pub fn contains(s: &[char], p: &[char]) -> (r: bool)
    ensures
        r == spec_contains(s@, p@),
{
    if p.len() > s.len() {
        return false;
    }
    let last = s.len() - p.len();
    let mut i: usize = 0;
    loop
        invariant
            last == s@.len() - p@.len(),
            i <= last,
            forall|j: int| 0 <= j < i ==> !occurs_at(s@, p@, j),
        decreases last - i,
    {
        if occurs_at_exec(s, p, i) {
            return true;
        }
        if i == last {
            assert forall|j: int| occurs_at(s@, p@, j) implies j <= last && j < i + 1 by {}
            return false;
        }
        i = i + 1;
    }
}


/// Whether `s` contains any of the texts in `terms`.
pub open spec fn spec_contains_any(s: Seq<char>, terms: Seq<&str>) -> bool {
    exists|k: int| 0 <= k < terms.len() && spec_contains(s, #[trigger] terms[k]@)
}

pub fn contains_any(s: &[char], terms: &[&str]) -> (r: bool)
    ensures
        r == spec_contains_any(s@, terms@),
{
    let mut i: usize = 0;
    while i < terms.len()
        invariant
            i <= terms@.len(),
            forall|k: int| 0 <= k < i ==> !spec_contains(s@, #[trigger] terms@[k]@),
        decreases terms@.len() - i,
    {
        let t = chars_of(terms[i]);
        if contains(s, t.as_slice()) {
            return true;
        }
        i = i + 1;
    }
    false
}

/// The number of non-overlapping occurrences of a non-empty `p` in `s` at or after
/// position `i`, found left to right (each search resumes after the previous match).
pub open spec fn count_from(s: Seq<char>, p: Seq<char>, i: int) -> nat
    decreases s.len() - i,
{
    if p.len() == 0 || i < 0 || i + p.len() > s.len() {
        0
    } else if occurs_at(s, p, i) {
        1 + count_from(s, p, i + p.len())
    } else {
        count_from(s, p, i + 1)
    }
}

/// How many times `str::matches(p)` finds `p` in `s`: the empty pattern matches
/// at every character boundary.
pub open spec fn spec_count_matches(s: Seq<char>, p: Seq<char>) -> nat {
    if p.len() == 0 { s.len() + 1 } else { count_from(s, p, 0) }
}

/// `s` from position `i` on with every non-empty occurrence of `p` (left to
/// right, non-overlapping) replaced by `r`.
pub open spec fn replace_from(s: Seq<char>, p: Seq<char>, r: Seq<char>, i: int) -> Seq<char>
    decreases s.len() - i,
{
    if p.len() == 0 || i < 0 || i >= s.len() {
        seq![]
    } else if i + p.len() > s.len() {
        s.subrange(i, s.len() as int)
    } else if occurs_at(s, p, i) {
        r + replace_from(s, p, r, i + p.len())
    } else {
        seq![s[i]] + replace_from(s, p, r, i + 1)
    }
}

/// `s` from position `i` on with `r` put before every character and at the end:
/// what replacing the empty pattern does.
pub open spec fn interleave_from(s: Seq<char>, r: Seq<char>, i: int) -> Seq<char>
    decreases s.len() - i,
{
    if i < 0 || i >= s.len() {
        r
    } else {
        r + seq![s[i]] + interleave_from(s, r, i + 1)
    }
}

/// `str::replace(p, r)` on `s`.
pub open spec fn spec_replace_all(s: Seq<char>, p: Seq<char>, r: Seq<char>) -> Seq<char> {
    if p.len() == 0 { interleave_from(s, r, 0) } else { replace_from(s, p, r, 0) }
}

/// The first position at or after `i` where `p` occurs in `s`.
pub open spec fn first_from(s: Seq<char>, p: Seq<char>, i: int) -> Option<int>
    decreases s.len() + 1 - i,
{
    if i < 0 || i + p.len() > s.len() {
        None
    } else if occurs_at(s, p, i) {
        Some(i)
    } else {
        first_from(s, p, i + 1)
    }
}

/// `str::replacen(p, r, 1)` on `s`: the first occurrence of `p`, if any, replaced by `r`.
pub open spec fn spec_replace_first(s: Seq<char>, p: Seq<char>, r: Seq<char>) -> Seq<char> {
    match first_from(s, p, 0) {
        Some(j) => s.subrange(0, j) + r + s.subrange(j + p.len(), s.len() as int),
        None => s,
    }
}

/// Counts the matches of `p` in `s` as `str::matches(p).count()` does.
pub fn count_matches(s: &[char], p: &[char]) -> (n: usize)
    requires
        s@.len() < usize::MAX,
    ensures
        n == spec_count_matches(s@, p@),
{
    if p.len() == 0 {
        return s.len() + 1;
    }
    let mut i: usize = 0;
    let mut n: usize = 0;
    while i < s.len()
        invariant
            p@.len() > 0,
            i <= s@.len(),
            s@.len() < usize::MAX,
            n <= i,
            count_from(s@, p@, 0) == n + count_from(s@, p@, i as int),
        decreases s@.len() - i,
    {
        if p.len() > s.len() - i {
            i = s.len();
        } else if occurs_at_exec(s, p, i) {
            n = n + 1;
            i = i + p.len();
        } else {
            i = i + 1;
        }
    }
    n
}

/// Replaces every match of `p` in `s` by `r`, as `str::replace` does.
pub fn replace_all(s: &[char], p: &[char], r: &[char]) -> (out: Vec<char>)
    ensures
        out@ == spec_replace_all(s@, p@, r@),
{
    let mut out: Vec<char> = Vec::new();
    let mut i: usize = 0;
    if p.len() == 0 {
        while i < s.len()
            invariant
                i <= s@.len(),
                out@ + interleave_from(s@, r@, i as int) == interleave_from(s@, r@, 0),
            decreases s@.len() - i,
        {
            let ghost before = out@;
            append_chars(&mut out, r);
            out.push(s[i]);
            proof {
                assert(before + interleave_from(s@, r@, i as int)
                    =~= out@ + interleave_from(s@, r@, i + 1));
            }
            i = i + 1;
        }
        let ghost before = out@;
        append_chars(&mut out, r);
        assert(out@ =~= before + interleave_from(s@, r@, i as int));
        return out;
    }
    while i < s.len()
        invariant
            p@.len() > 0,
            i <= s@.len(),
            out@ + replace_from(s@, p@, r@, i as int) == replace_from(s@, p@, r@, 0),
        decreases s@.len() - i,
    {
        let ghost before = out@;
        if p.len() > s.len() - i {
            append_range(&mut out, s, i);
            i = s.len();
            assert(out@ =~= out@ + replace_from(s@, p@, r@, i as int));
        } else if occurs_at_exec(s, p, i) {
            append_chars(&mut out, r);
            proof {
                assert(before + replace_from(s@, p@, r@, i as int)
                    =~= out@ + replace_from(s@, p@, r@, i + p@.len()));
            }
            i = i + p.len();
        } else {
            out.push(s[i]);
            proof {
                assert(before + replace_from(s@, p@, r@, i as int)
                    =~= out@ + replace_from(s@, p@, r@, i + 1));
            }
            i = i + 1;
        }
    }
    assert(out@ =~= out@ + replace_from(s@, p@, r@, i as int));
    out
}

/// The position of the first match of `p` in `s`.
pub fn find_first(s: &[char], p: &[char]) -> (j: Option<usize>)
    ensures
        j matches Some(k) ==> first_from(s@, p@, 0) == Some(k as int) && k + p@.len() <= s@.len(),
        j is None ==> first_from(s@, p@, 0) is None,
{
    if p.len() > s.len() {
        return None;
    }
    let last = s.len() - p.len();
    let mut i: usize = 0;
    loop
        invariant
            last == s@.len() - p@.len(),
            i <= last,
            first_from(s@, p@, 0) == first_from(s@, p@, i as int),
        decreases last - i,
    {
        if occurs_at_exec(s, p, i) {
            return Some(i);
        }
        if i == last {
            assert(first_from(s@, p@, i + 1) is None);
            return None;
        }
        i = i + 1;
    }
}

/// Replaces the first match of `p` in `s` by `r`, as `str::replacen(p, r, 1)` does.
pub fn replace_first(s: &[char], p: &[char], r: &[char]) -> (out: Vec<char>)
    ensures
        out@ == spec_replace_first(s@, p@, r@),
{
    match find_first(s, p) {
        Some(j) => {
            let mut out: Vec<char> = Vec::new();
            let mut i: usize = 0;
            while i < j
                invariant
                    j + p@.len() <= s@.len(),
                    i <= j,
                    out@ == s@.subrange(0, i as int),
                decreases j - i,
            {
                out.push(s[i]);
                assert(out@ =~= s@.subrange(0, i + 1));
                i = i + 1;
            }
            append_chars(&mut out, r);
            let total = s.len();
            assert(j + p@.len() <= total);
            let mut k: usize = j + p.len();
            while k < s.len()
                invariant
                    j + p@.len() <= k <= s@.len(),
                    out@ == s@.subrange(0, j as int) + r@ + s@.subrange(j + p@.len(), k as int),
                decreases s@.len() - k,
            {
                out.push(s[k]);
                assert(out@ =~= s@.subrange(0, j as int) + r@ + s@.subrange(j + p@.len(), k + 1));
                k = k + 1;
            }
            out
        },
        None => {
            let mut out: Vec<char> = Vec::new();
            append_chars(&mut out, s);
            out
        },
    }
}

/// Appends the characters of `s` from position `from` on to `out`.
pub fn append_range(out: &mut Vec<char>, s: &[char], from: usize)
    requires
        from <= s@.len(),
    ensures
        final(out)@ == old(out)@ + s@.subrange(from as int, s@.len() as int),
{
    let mut i: usize = from;
    while i < s.len()
        invariant
            from <= i <= s@.len(),
            out@ == old(out)@ + s@.subrange(from as int, i as int),
        decreases s@.len() - i,
    {
        out.push(s[i]);
        assert(out@ =~= old(out)@ + s@.subrange(from as int, i + 1));
        i = i + 1;
    }
}

/// Appends the characters of `r` to `out`.
pub fn append_chars(out: &mut Vec<char>, r: &[char])
    ensures
        final(out)@ == old(out)@ + r@,
{
    let mut i: usize = 0;
    while i < r.len()
        invariant
            i <= r@.len(),
            out@ == old(out)@ + r@.subrange(0, i as int),
        decreases r@.len() - i,
    {
        out.push(r[i]);
        assert(out@ =~= old(out)@ + r@.subrange(0, i + 1));
        i = i + 1;
    }
    assert(r@.subrange(0, r@.len() as int) =~= r@);
}


/// The position of the first line feed at or after `i`, or the length of `s`.
pub open spec fn next_newline(s: Seq<char>, i: int) -> int
    decreases s.len() - i,
{
    if i < 0 || i >= s.len() {
        s.len() as int
    } else if s[i] == '\n' {
        i
    } else {
        next_newline(s, i + 1)
    }
}

/// The next newline at or after `i` lies between `i` and the end of the text.
pub proof fn lemma_next_newline_bounds(s: Seq<char>, i: int)
    requires
        0 <= i <= s.len(),
    ensures
        i <= next_newline(s, i) <= s.len(),
        next_newline(s, i) < s.len() ==> s[next_newline(s, i)] == '\n',
        forall|k: int| i <= k < next_newline(s, i) ==> s[k] != '\n',
    decreases s.len() - i,
{
    if i < s.len() && s[i] != '\n' {
        lemma_next_newline_bounds(s, i + 1);
    }
}

/// A line that ended in a line feed loses a trailing carriage return.
pub open spec fn strip_cr(x: Seq<char>) -> Seq<char> {
    if x.len() > 0 && x.last() == '\r' { x.drop_last() } else { x }
}

/// The lines of `s` from position `i` on, as `str::lines` gives them: split at
/// each line feed, a carriage return before the line feed dropped, and no empty
/// line after a final line feed.
pub open spec fn lines_from(s: Seq<char>, i: int) -> Seq<Seq<char>>
    decreases s.len() - i,
{
    if i < 0 || i >= s.len() {
        seq![]
    } else {
        let j = next_newline(s, i);
        proof { lemma_next_newline_bounds(s, i); }
        if j < s.len() {
            seq![strip_cr(s.subrange(i, j))] + lines_from(s, j + 1)
        } else {
            seq![s.subrange(i, s.len() as int)]
        }
    }
}

pub open spec fn spec_lines(s: Seq<char>) -> Seq<Seq<char>> {
    lines_from(s, 0)
}

/// The characters of `s` from `from` up to (not including) `to`.
pub fn slice_range(s: &[char], from: usize, to: usize) -> (out: Vec<char>)
    requires
        from <= to <= s@.len(),
    ensures
        out@ == s@.subrange(from as int, to as int),
{
    let mut out: Vec<char> = Vec::new();
    let mut i: usize = from;
    while i < to
        invariant
            from <= i <= to <= s@.len(),
            out@ == s@.subrange(from as int, i as int),
        decreases to - i,
    {
        out.push(s[i]);
        assert(out@ =~= s@.subrange(from as int, i + 1));
        i = i + 1;
    }
    out
}

/// Splits `s` into lines as `str::lines` does.
pub fn lines(s: &[char]) -> (out: Vec<Vec<char>>)
    ensures
        out@.len() == spec_lines(s@).len(),
        forall|k: int| 0 <= k < out@.len() ==> #[trigger] out@[k]@ == spec_lines(s@)[k],
{
    let mut out: Vec<Vec<char>> = Vec::new();
    let mut i: usize = 0;
    while i < s.len()
        invariant
            i <= s@.len(),
            out@.len() + lines_from(s@, i as int).len() == spec_lines(s@).len(),
            forall|k: int| 0 <= k < out@.len() ==> #[trigger] out@[k]@ == spec_lines(s@)[k],
            forall|k: int| 0 <= k < lines_from(s@, i as int).len() ==>
                #[trigger] lines_from(s@, i as int)[k] == spec_lines(s@)[out@.len() + k],
        decreases s@.len() - i,
    {
        let mut j: usize = i;
        while j < s.len() && s[j] != '\n'
            invariant
                i <= j <= s@.len(),
                forall|k: int| i <= k < j ==> s@[k] != '\n',
            decreases s@.len() - j,
        {
            j = j + 1;
        }
        proof {
            lemma_next_newline_bounds(s@, i as int);
            lemma_next_newline_is_first(s@, i as int, j as int);
        }
        let ghost rest = lines_from(s@, i as int);
        if j < s.len() {
            let mut line = slice_range(s, i, j);
            if line.len() > 0 && line[line.len() - 1] == '\r' {
                line.pop();
            }
            proof {
                assert(line@ =~= strip_cr(s@.subrange(i as int, j as int)));
                assert(rest[0] == line@);
                assert forall|k: int| 0 <= k < lines_from(s@, j + 1).len() implies
                    #[trigger] lines_from(s@, j + 1)[k] == rest[k + 1] by {}
            }
            out.push(line);
            i = j + 1;
        } else {
            let line = slice_range(s, i, j);
            proof { assert(rest[0] == line@); }
            out.push(line);
            i = j;
        }
    }
    out
}

proof fn lemma_next_newline_is_first(s: Seq<char>, i: int, j: int)
    requires
        0 <= i <= j <= s.len(),
        forall|k: int| i <= k < j ==> s[k] != '\n',
        j == s.len() || s[j] == '\n',
    ensures
        next_newline(s, i) == j,
    decreases j - i,
{
    if i < j {
        lemma_next_newline_is_first(s, i + 1, j);
    }
}


/// The decimal digit for `d`.
pub open spec fn digit_char(d: nat) -> char {
    if d == 0 { '0' } else if d == 1 { '1' } else if d == 2 { '2' } else if d == 3 { '3' }
    else if d == 4 { '4' } else if d == 5 { '5' } else if d == 6 { '6' } else if d == 7 { '7' }
    else if d == 8 { '8' } else { '9' }
}

/// The decimal rendering of `n`, as `Display` prints an unsigned integer.
pub open spec fn spec_decimal(n: nat) -> Seq<char>
    decreases n,
{
    if n < 10 { seq![digit_char(n)] } else { spec_decimal(n / 10) + seq![digit_char(n % 10)] }
}

fn digit(d: usize) -> (c: char)
    requires
        d < 10,
    ensures
        c == digit_char(d as nat),
{
    if d == 0 { '0' } else if d == 1 { '1' } else if d == 2 { '2' } else if d == 3 { '3' }
    else if d == 4 { '4' } else if d == 5 { '5' } else if d == 6 { '6' } else if d == 7 { '7' }
    else if d == 8 { '8' } else { '9' }
}

/// The decimal digits of `n`.
pub fn decimal(n: usize) -> (v: Vec<char>)
    ensures
        v@ == spec_decimal(n as nat),
    decreases n,
{
    if n < 10 {
        let mut v: Vec<char> = Vec::new();
        v.push(digit(n));
        assert(v@ =~= spec_decimal(n as nat));
        v
    } else {
        let mut v = decimal(n / 10);
        v.push(digit(n % 10));
        v
    }
}

/// `s` with every trailing `c` removed (`str::trim_end_matches` with a character).
pub open spec fn trim_end_char(s: Seq<char>, c: char) -> Seq<char>
    decreases s.len(),
{
    if s.len() > 0 && s.last() == c { trim_end_char(s.drop_last(), c) } else { s }
}

pub fn trim_end_matches_char(s: &[char], c: char) -> (out: Vec<char>)
    ensures
        out@ == trim_end_char(s@, c),
{
    let mut end: usize = s.len();
    assert(s@.subrange(0, end as int) =~= s@);
    while end > 0 && s[end - 1] == c
        invariant
            end <= s@.len(),
            trim_end_char(s@, c) == trim_end_char(s@.subrange(0, end as int), c),
        decreases end,
    {
        assert(s@.subrange(0, end as int).drop_last() =~= s@.subrange(0, end - 1));
        end = end - 1;
    }
    slice_range(s, 0, end)
}

/// `s` with `p` removed from its front as many times as it is there
/// (`str::trim_start_matches` with a non-empty text).
pub open spec fn trim_start_text(s: Seq<char>, p: Seq<char>) -> Seq<char>
    decreases s.len(),
{
    if p.len() > 0 && spec_starts_with(s, p) { trim_start_text(s.subrange(p.len() as int, s.len() as int), p) } else { s }
}

/// `s` with every leading `c` removed (`str::trim_start_matches` with a character).
pub open spec fn trim_start_char(s: Seq<char>, c: char) -> Seq<char> {
    trim_start_text(s, seq![c])
}

pub fn trim_start_matches_text(s: &[char], p: &[char]) -> (out: Vec<char>)
    ensures
        out@ == trim_start_text(s@, p@),
{
    if p.len() == 0 {
        return slice_range(s, 0, s.len());
    }
    let mut start: usize = 0;
    assert(s@.subrange(0, s@.len() as int) =~= s@);
    while start < s.len() && p.len() <= s.len() - start && occurs_at_exec(s, p, start)
        invariant
            p@.len() > 0,
            start <= s@.len(),
            trim_start_text(s@, p@) == trim_start_text(s@.subrange(start as int, s@.len() as int), p@),
        decreases s@.len() - start,
    {
        proof {
            let rest = s@.subrange(start as int, s@.len() as int);
            assert(rest.subrange(0, p@.len() as int) =~= s@.subrange(start as int, start + p@.len()));
            assert(rest.subrange(p@.len() as int, rest.len() as int) =~= s@.subrange(start + p@.len(), s@.len() as int));
        }
        start = start + p.len();
    }
    proof {
        let rest = s@.subrange(start as int, s@.len() as int);
        if spec_starts_with(rest, p@) {
            assert(rest.subrange(0, p@.len() as int) =~= s@.subrange(start as int, start + p@.len()));
        }
    }
    slice_range(s, start, s.len())
}


/// `char::to_ascii_uppercase`: a lowercase ASCII letter becomes its capital, every
/// other character stays.
pub open spec fn ascii_upper(c: char) -> char {
    if 'a' <= c && c <= 'z' { ((c as u32) - 32) as char } else { c }
}

pub fn to_ascii_uppercase(c: char) -> (u: char)
    ensures
        u == ascii_upper(c),
{
    if 'a' <= c && c <= 'z' {
        let b: u8 = c as u8;
        (b - 32) as char
    } else {
        c
    }
}

/// Whether `char::is_uppercase` holds of `c` (the Unicode `Uppercase` property).
/// It is named here, not stated.
pub uninterp spec fn is_uppercase_char(c: char) -> bool;

/// `char::is_uppercase`. The contract says only that the answer is `is_uppercase_char`.
#[verifier::external_body]
pub(crate) fn is_uppercase(c: char) -> (r: bool)
    ensures
        r == is_uppercase_char(c),
{
    c.is_uppercase()
}

/// Whether `c` has the Unicode `White_Space` property, which is what
/// `char::is_whitespace` tests: the controls U+0009 to U+000D, the space, U+0085,
/// the no-break space U+00A0, U+1680, U+2000 to U+200A, the line and paragraph
/// separators U+2028 and U+2029, U+202F, U+205F and U+3000.
pub open spec fn is_whitespace_char(c: char) -> bool {
    let u = c as u32;
    ||| 0x9 <= u <= 0xD
    ||| u == 0x20
    ||| u == 0x85
    ||| u == 0xA0
    ||| u == 0x1680
    ||| 0x2000 <= u <= 0x200A
    ||| u == 0x2028
    ||| u == 0x2029
    ||| u == 0x202F
    ||| u == 0x205F
    ||| u == 0x3000
}

/// Whether `c` is white space.
pub(crate) fn is_whitespace(c: char) -> (r: bool)
    ensures
        r == is_whitespace_char(c),
{
    let u = c as u32;
    (0x9 <= u && u <= 0xD) || u == 0x20 || u == 0x85 || u == 0xA0 || u == 0x1680 || (0x2000 <= u && u <= 0x200A)
        || u == 0x2028 || u == 0x2029 || u == 0x202F || u == 0x205F || u == 0x3000
}

/// Whether `char::is_numeric` holds of `c` (the Unicode numeric categories).
/// It is named here, not stated.
pub uninterp spec fn is_numeric_char(c: char) -> bool;

/// `char::is_numeric`. The contract says only that the answer is `is_numeric_char`.
#[verifier::external_body]
pub(crate) fn is_numeric(c: char) -> (r: bool)
    ensures
        r == is_numeric_char(c),
{
    c.is_numeric()
}

/// The Unicode lowercase of a text, as `str::to_lowercase` makes it. It is named
/// here, not stated.
pub uninterp spec fn lowercase_text(s: Seq<char>) -> Seq<char>;

/// `str::to_lowercase`. The contract says only that the result is `lowercase_text` of `s`.
#[verifier::external_body]
pub(crate) fn to_lowercase(s: &str) -> (l: String)
    ensures
        l@ == lowercase_text(s@),
{
    s.to_lowercase()
}

/// Whether the text `s` is exactly `lit`.
pub fn text_is(s: &str, lit: &str) -> (r: bool)
    ensures
        r == (s@ == lit@),
{
    let a = chars_of(s);
    let b = chars_of(lit);
    chars_equal(a.as_slice(), b.as_slice())
}

/// `s` without leading and trailing white space (`str::trim`).
pub open spec fn spec_trim(s: Seq<char>) -> Seq<char> {
    trim_ws_end(trim_ws_start(s))
}

pub open spec fn trim_ws_start(s: Seq<char>) -> Seq<char>
    decreases s.len(),
{
    if s.len() > 0 && is_whitespace_char(s[0]) { trim_ws_start(s.drop_first()) } else { s }
}

pub open spec fn trim_ws_end(s: Seq<char>) -> Seq<char>
    decreases s.len(),
{
    if s.len() > 0 && is_whitespace_char(s.last()) { trim_ws_end(s.drop_last()) } else { s }
}

/// Trims white space from both ends, as `str::trim` does.
pub fn trim(s: &[char]) -> (out: Vec<char>)
    ensures
        out@ == spec_trim(s@),
{
    let mut start: usize = 0;
    assert(s@.subrange(0, s@.len() as int) =~= s@);
    while start < s.len() && is_whitespace(s[start])
        invariant
            start <= s@.len(),
            trim_ws_start(s@) == trim_ws_start(s@.subrange(start as int, s@.len() as int)),
        decreases s@.len() - start,
    {
        assert(s@.subrange(start as int, s@.len() as int).drop_first() =~= s@.subrange(start + 1, s@.len() as int));
        start = start + 1;
    }
    let mut end: usize = s.len();
    let ghost front = s@.subrange(start as int, s@.len() as int);
    assert(front.subrange(0, front.len() as int) =~= front);
    while end > start && is_whitespace(s[end - 1])
        invariant
            start <= end <= s@.len(),
            front == s@.subrange(start as int, s@.len() as int),
            trim_ws_end(front) == trim_ws_end(s@.subrange(start as int, end as int)),
        decreases end,
    {
        assert(s@.subrange(start as int, end as int).drop_last() =~= s@.subrange(start as int, end - 1));
        end = end - 1;
    }
    slice_range(s, start, end)
}

/// Joins texts end to end.
pub fn concat_strs(parts: &[&str]) -> (s: String)
    ensures
        s@ == concat_views(parts@),
{
    let mut s = String::new();
    let mut i: usize = 0;
    while i < parts.len()
        invariant
            i <= parts@.len(),
            s@ == concat_views(parts@.take(i as int)),
        decreases parts@.len() - i,
    {
        s.append(parts[i]);
        assert(parts@.take(i + 1).drop_last() =~= parts@.take(i as int));
        i = i + 1;
    }
    assert(parts@.take(parts@.len() as int) =~= parts@);
    s
}

/// The texts of `parts` one after another.
pub open spec fn concat_views(parts: Seq<&str>) -> Seq<char>
    decreases parts.len(),
{
    if parts.len() == 0 { seq![] } else { concat_views(parts.drop_last()) + parts.last()@ }
}

/// The first position at or after `i` holding white space (or the end).
pub open spec fn next_ws(s: Seq<char>, i: int) -> int
    decreases s.len() - i,
{
    if i < 0 || i >= s.len() { s.len() as int } else if is_whitespace_char(s[i]) { i } else { next_ws(s, i + 1) }
}

/// The first position at or after `i` holding something other than white space (or the end).
pub open spec fn next_non_ws(s: Seq<char>, i: int) -> int
    decreases s.len() - i,
{
    if i < 0 || i >= s.len() { s.len() as int } else if !is_whitespace_char(s[i]) { i } else { next_non_ws(s, i + 1) }
}

/// The next white space at or after `i` lies between `i` and the end of the text.
pub proof fn lemma_next_ws_bounds(s: Seq<char>, i: int)
    requires
        0 <= i <= s.len(),
    ensures
        i <= next_ws(s, i) <= s.len(),
        i <= next_non_ws(s, i) <= s.len(),
        next_ws(s, i) < s.len() ==> is_whitespace_char(s[next_ws(s, i)]),
        next_non_ws(s, i) < s.len() ==> !is_whitespace_char(s[next_non_ws(s, i)]),
        forall|k: int| i <= k < next_ws(s, i) ==> !is_whitespace_char(s[k]),
        forall|k: int| i <= k < next_non_ws(s, i) ==> is_whitespace_char(s[k]),
    decreases s.len() - i,
{
    if i < s.len() {
        lemma_next_ws_bounds(s, i + 1);
    }
}

/// The words of `s` from position `i` on, as `str::split_whitespace` finds them.
pub open spec fn words_from(s: Seq<char>, i: int) -> Seq<Seq<char>>
    decreases s.len() - i,
{
    if i < 0 || i >= s.len() {
        seq![]
    } else {
        let a = next_non_ws(s, i);
        proof { lemma_next_ws_bounds(s, i); }
        if a >= s.len() {
            seq![]
        } else {
            let b = next_ws(s, a);
            proof { lemma_next_ws_bounds(s, a); }
            seq![s.subrange(a, b)] + words_from(s, b)
        }
    }
}

pub open spec fn spec_split_whitespace(s: Seq<char>) -> Seq<Seq<char>> {
    words_from(s, 0)
}

proof fn lemma_next_ws_is_first(s: Seq<char>, i: int, j: int, ws: bool)
    requires
        0 <= i <= j <= s.len(),
        forall|k: int| i <= k < j ==> is_whitespace_char(s[k]) != ws,
        j == s.len() || is_whitespace_char(s[j]) == ws,
    ensures
        ws ==> next_ws(s, i) == j,
        !ws ==> next_non_ws(s, i) == j,
    decreases j - i,
{
    if i < j {
        lemma_next_ws_is_first(s, i + 1, j, ws);
    }
}

/// Splits `s` into its words, as `str::split_whitespace` does.
pub fn split_whitespace(s: &[char]) -> (out: Vec<Vec<char>>)
    ensures
        out@.len() == spec_split_whitespace(s@).len(),
        forall|k: int| 0 <= k < out@.len() ==> #[trigger] out@[k]@ == spec_split_whitespace(s@)[k],
{
    let mut out: Vec<Vec<char>> = Vec::new();
    let mut i: usize = 0;
    while i < s.len()
        invariant
            i <= s@.len(),
            out@.len() + words_from(s@, i as int).len() == spec_split_whitespace(s@).len(),
            forall|k: int| 0 <= k < out@.len() ==> #[trigger] out@[k]@ == spec_split_whitespace(s@)[k],
            forall|k: int| 0 <= k < words_from(s@, i as int).len() ==>
                #[trigger] words_from(s@, i as int)[k] == spec_split_whitespace(s@)[out@.len() + k],
        decreases s@.len() - i,
    {
        let ghost rest = words_from(s@, i as int);
        let mut a: usize = i;
        while a < s.len() && is_whitespace(s[a])
            invariant
                i <= a <= s@.len(),
                forall|k: int| i <= k < a ==> is_whitespace_char(s@[k]),
            decreases s@.len() - a,
        {
            a = a + 1;
        }
        proof { lemma_next_ws_is_first(s@, i as int, a as int, false); }
        if a >= s.len() {
            assert(rest.len() == 0);
            i = a;
        } else {
            let mut b: usize = a;
            while b < s.len() && !is_whitespace(s[b])
                invariant
                    a <= b <= s@.len(),
                    forall|k: int| a <= k < b ==> !is_whitespace_char(s@[k]),
                decreases s@.len() - b,
            {
                b = b + 1;
            }
            proof {
                lemma_next_ws_is_first(s@, a as int, b as int, true);
                lemma_next_ws_bounds(s@, a as int);
            }
            let w = slice_range(s, a, b);
            proof {
                assert(rest[0] == w@);
                assert forall|k: int| 0 <= k < words_from(s@, b as int).len() implies
                    #[trigger] words_from(s@, b as int)[k] == rest[k + 1] by {}
            }
            out.push(w);
            i = b;
        }
    }
    out
}

/// The words joined with single spaces.
pub open spec fn join_spaces(ws: Seq<Seq<char>>) -> Seq<char>
    decreases ws.len(),
{
    if ws.len() == 0 {
        seq![]
    } else if ws.len() == 1 {
        ws[0]
    } else {
        join_spaces(ws.drop_last()) + seq![' '] + ws.last()
    }
}

/// Joins the words from `from` up to `to` with single spaces, as `[&str]::join(" ")` does.
pub fn join_words(ws: &Vec<Vec<char>>, from: usize, to: usize) -> (out: Vec<char>)
    requires
        from <= to <= ws@.len(),
    ensures
        out@ == join_spaces(ws@.subrange(from as int, to as int).map_values(|w: Vec<char>| w@)),
{
    let mut out: Vec<char> = Vec::new();
    let mut i: usize = from;
    while i < to
        invariant
            from <= i <= to <= ws@.len(),
            out@ == join_spaces(ws@.subrange(from as int, i as int).map_values(|w: Vec<char>| w@)),
        decreases to - i,
    {
        let ghost prev = ws@.subrange(from as int, i as int).map_values(|w: Vec<char>| w@);
        let ghost next = ws@.subrange(from as int, i + 1).map_values(|w: Vec<char>| w@);
        assert(next.drop_last() =~= prev);
        if i > from {
            out.push(' ');
        }
        append_chars(&mut out, ws[i].as_slice());
        i = i + 1;
    }
    out
}

/// The decimal text of `n`.
pub fn num_text(n: usize) -> (s: String)
    ensures
        s@ == spec_decimal(n as nat),
{
    let d = decimal(n);
    string_of(d.as_slice())
}

/// Two texts end to end.
pub fn join2(a: &str, b: &str) -> (s: String)
    ensures
        s@ == a@ + b@,
{
    let mut s = a.to_string();
    s.append(b);
    s
}

/// Three texts end to end.
pub fn join3(a: &str, b: &str, c: &str) -> (s: String)
    ensures
        s@ == a@ + b@ + c@,
{
    let mut s = a.to_string();
    s.append(b);
    s.append(c);
    s
}

/// Four texts end to end.
pub fn join4(a: &str, b: &str, c: &str, d: &str) -> (s: String)
    ensures
        s@ == a@ + b@ + c@ + d@,
{
    let mut s = a.to_string();
    s.append(b);
    s.append(c);
    s.append(d);
    s
}

/// Six texts end to end.
pub fn join6(a: &str, b: &str, c: &str, d: &str, e: &str, f: &str) -> (s: String)
    ensures
        s@ == a@ + b@ + c@ + d@ + e@ + f@,
{
    let mut s = a.to_string();
    s.append(b);
    s.append(c);
    s.append(d);
    s.append(e);
    s.append(f);
    s
}

} // verus!
