//! Character-level text helpers shared by the parsers and renderers.
use vstd::prelude::*;

verus! {

// ---------------------------------------------------------------------------
// Specifications
// ---------------------------------------------------------------------------

/// Unicode `White_Space`, the set that `char::is_whitespace` tests.
pub open spec fn spec_is_ws(c: char) -> bool {
    ||| ('\u{9}' <= c && c <= '\u{d}')
    ||| c == ' '
    ||| c == '\u{85}'
    ||| c == '\u{a0}'
    ||| c == '\u{1680}'
    ||| ('\u{2000}' <= c && c <= '\u{200a}')
    ||| c == '\u{2028}'
    ||| c == '\u{2029}'
    ||| c == '\u{202f}'
    ||| c == '\u{205f}'
    ||| c == '\u{3000}'
}

/// Every character of `s` is whitespace (so trimming leaves nothing).
pub open spec fn spec_is_blank(s: Seq<char>) -> bool {
    forall|i: int| 0 <= i < s.len() ==> spec_is_ws(#[trigger] s[i])
}

/// `s` without its leading whitespace.
pub open spec fn spec_trim_start(s: Seq<char>) -> Seq<char>
    decreases s.len(),
{
    if s.len() > 0 && spec_is_ws(s[0]) {
        spec_trim_start(s.drop_first())
    } else {
        s
    }
}

/// `s` without its trailing whitespace.
pub open spec fn spec_trim_end(s: Seq<char>) -> Seq<char>
    decreases s.len(),
{
    if s.len() > 0 && spec_is_ws(s.last()) {
        spec_trim_end(s.drop_last())
    } else {
        s
    }
}

/// `s` without leading and trailing whitespace, as `str::trim` gives it.
pub open spec fn spec_trim(s: Seq<char>) -> Seq<char> {
    spec_trim_end(spec_trim_start(s))
}

/// `p` is a prefix of `s`.
pub open spec fn spec_starts_with(s: Seq<char>, p: Seq<char>) -> bool {
    p.len() <= s.len() && s.take(p.len() as int) == p
}

/// `p` is a suffix of `s`.
pub open spec fn spec_ends_with(s: Seq<char>, p: Seq<char>) -> bool {
    p.len() <= s.len() && s.skip(s.len() - p.len()) == p
}

/// `p` occurs in `s` at position `i`.
pub open spec fn spec_occurs_at(s: Seq<char>, p: Seq<char>, i: int) -> bool {
    0 <= i && i + p.len() <= s.len() && s.subrange(i, i + p.len()) == p
}

/// `p` occurs somewhere in `s`.
pub open spec fn spec_contains(s: Seq<char>, p: Seq<char>) -> bool {
    exists|i: int| spec_occurs_at(s, p, i)
}

/// `i` is the first position, not before `from`, at which `p` occurs in `s`.
pub open spec fn spec_first_occurrence_from(s: Seq<char>, p: Seq<char>, from: int, i: int) -> bool {
    &&& from <= i
    &&& spec_occurs_at(s, p, i)
    &&& forall|j: int| from <= j < i ==> !spec_occurs_at(s, p, j)
}

/// The value of an ASCII decimal digit.
pub open spec fn spec_digit_value(c: char) -> nat {
    (c as nat - '0' as nat) as nat
}

pub open spec fn spec_is_digit(c: char) -> bool {
    '0' <= c && c <= '9'
}

pub open spec fn spec_all_digits(s: Seq<char>) -> bool {
    forall|i: int| 0 <= i < s.len() ==> spec_is_digit(#[trigger] s[i])
}

/// The number written by the decimal digits `s`.
pub open spec fn spec_digits_value(s: Seq<char>) -> nat
    decreases s.len(),
{
    if s.len() == 0 {
        0
    } else {
        spec_digits_value(s.drop_last()) * 10 + spec_digit_value(s.last())
    }
}

/// The digits of an integer accepted by Rust's unsigned `FromStr`: an optional `+`
/// followed by at least one ASCII digit.
pub open spec fn spec_unsigned_digits(s: Seq<char>) -> Option<Seq<char>> {
    let body = if s.len() > 0 && s[0] == '+' { s.drop_first() } else { s };
    if body.len() > 0 && spec_all_digits(body) {
        Some(body)
    } else {
        None
    }
}

/// What `s.parse::<u64>()` gives: the value when `s` is an unsigned decimal that fits.
pub open spec fn spec_parse_u64(s: Seq<char>) -> Option<u64> {
    match spec_unsigned_digits(s) {
        Some(d) => if spec_digits_value(d) <= u64::MAX {
            Some(spec_digits_value(d) as u64)
        } else {
            None
        },
        None => None,
    }
}

/// What `s.parse::<usize>()` gives.
pub open spec fn spec_parse_usize(s: Seq<char>) -> Option<usize> {
    match spec_unsigned_digits(s) {
        Some(d) => if spec_digits_value(d) <= usize::MAX {
            Some(spec_digits_value(d) as usize)
        } else {
            None
        },
        None => None,
    }
}

/// The decimal rendering of `n`, without leading zeros.
pub open spec fn spec_decimal(n: nat) -> Seq<char>
    decreases n,
{
    if n < 10 {
        seq![spec_digit_char(n)]
    } else {
        spec_decimal(n / 10).push(spec_digit_char(n % 10))
    }
}

pub open spec fn spec_digit_char(d: nat) -> char {
    if d == 0 { '0' } else if d == 1 { '1' } else if d == 2 { '2' } else if d == 3 { '3' }
    else if d == 4 { '4' } else if d == 5 { '5' } else if d == 6 { '6' } else if d == 7 { '7' }
    else if d == 8 { '8' } else { '9' }
}

/// The decimal digits of `n` are digits, and they read back as `n`.
pub proof fn lemma_decimal_reads_back(n: nat)
    ensures
        spec_decimal(n).len() > 0,
        spec_all_digits(spec_decimal(n)),
        spec_digits_value(spec_decimal(n)) == n,
    decreases n,
{
    if n < 10 {
        let d = spec_decimal(n);
        assert(d.drop_last() =~= Seq::<char>::empty());
        assert(spec_digit_value(spec_digit_char(n)) == n);
        assert(spec_digits_value(d) == spec_digits_value(d.drop_last()) * 10 + spec_digit_value(d.last()));
    } else {
        lemma_decimal_reads_back(n / 10);
        let d = spec_decimal(n);
        assert(d.drop_last() =~= spec_decimal(n / 10));
        assert(spec_digit_value(spec_digit_char(n % 10)) == n % 10);
        assert((n / 10) * 10 + n % 10 == n) by (nonlinear_arith);
        assert(spec_digits_value(d) == spec_digits_value(d.drop_last()) * 10 + spec_digit_value(d.last()));
        assert forall|i: int| 0 <= i < d.len() implies spec_is_digit(#[trigger] d[i]) by {
            if i < d.len() - 1 {
                assert(d[i] == spec_decimal(n / 10)[i]);
            }
        }
    }
}

/// The position of the first `c` in `s`, or the length of `s` when there is none.
pub open spec fn spec_find_char(s: Seq<char>, c: char) -> int
    decreases s.len(),
{
    if s.len() == 0 {
        0
    } else if s[0] == c {
        0
    } else {
        1 + spec_find_char(s.drop_first(), c)
    }
}

pub proof fn lemma_find_char(s: Seq<char>, c: char)
    ensures
        0 <= spec_find_char(s, c) <= s.len(),
        spec_find_char(s, c) < s.len() ==> s[spec_find_char(s, c)] == c,
        forall|j: int| 0 <= j < spec_find_char(s, c) ==> s[j] != c,
    decreases s.len(),
{
    if s.len() > 0 && s[0] != c {
        lemma_find_char(s.drop_first(), c);
        assert forall|j: int| 0 <= j < spec_find_char(s, c) implies s[j] != c by {
            if j > 0 {
                assert(s[j] == s.drop_first()[j - 1]);
            }
        }
    }
}

pub proof fn lemma_find_char_is(s: Seq<char>, c: char, i: int)
    requires
        0 <= i <= s.len(),
        i < s.len() ==> s[i] == c,
        forall|j: int| 0 <= j < i ==> s[j] != c,
    ensures
        spec_find_char(s, c) == i,
{
    lemma_find_char(s, c);
    let k = spec_find_char(s, c);
    if k < i {
        assert(s[k] != c);
    }
    if i < k {
        assert(s[i] != c);
    }
}

/// The lines of `s` as `str::lines` yields them: split at `\n`, a `\r` before the `\n`
/// dropped, and no empty line after a final line ending.
pub open spec fn spec_lines(s: Seq<char>) -> Seq<Seq<char>>
    decreases s.len(),
{
    if s.len() == 0 {
        Seq::empty()
    } else if spec_find_char(s, '\n') >= s.len() {
        seq![s]
    } else {
        proof {
            lemma_find_char(s, '\n');
        }
        seq![spec_strip_cr(s.take(spec_find_char(s, '\n')))] + spec_lines(
            s.skip(spec_find_char(s, '\n') + 1),
        )
    }
}

/// The pieces of `s` between occurrences of `c`, empty pieces dropped: what
/// `s.split(c).filter(|p| !p.is_empty())` yields.
pub open spec fn spec_split_nonempty(s: Seq<char>, c: char) -> Seq<Seq<char>>
    decreases s.len(),
{
    if s.len() == 0 {
        Seq::empty()
    } else if spec_find_char(s, c) >= s.len() {
        seq![s]
    } else {
        proof {
            lemma_find_char(s, c);
        }
        (if spec_find_char(s, c) > 0 {
            seq![s.take(spec_find_char(s, c))]
        } else {
            Seq::empty()
        }) + spec_split_nonempty(s.skip(spec_find_char(s, c) + 1), c)
    }
}

/// A line without the `\r` that ended it.
pub open spec fn spec_strip_cr(s: Seq<char>) -> Seq<char> {
    if s.len() > 0 && s.last() == '\r' { s.drop_last() } else { s }
}

/// The pieces joined with `sep` between each two, as `[String]::join` gives them.
pub open spec fn spec_join(pieces: Seq<Seq<char>>, sep: Seq<char>) -> Seq<char>
    decreases pieces.len(),
{
    if pieces.len() == 0 {
        Seq::empty()
    } else if pieces.len() == 1 {
        pieces[0]
    } else {
        spec_join(pieces.drop_last(), sep) + sep + pieces.last()
    }
}

/// `n` copies of `c`.
pub open spec fn spec_repeat(c: char, n: nat) -> Seq<char> {
    Seq::new(n, |_i: int| c)
}

/// `s` padded with spaces on the right to `w` characters, as `format!("{s:<w$}")`
/// gives it.
pub open spec fn spec_pad_right(s: Seq<char>, w: nat) -> Seq<char> {
    if s.len() < w {
        s + spec_repeat(' ', (w - s.len()) as nat)
    } else {
        s
    }
}

/// The views of a sequence of strings.
pub open spec fn strings_view(v: Seq<String>) -> Seq<Seq<char>> {
    v.map_values(|s: String| s@)
}

// ---------------------------------------------------------------------------
// Trusted std calls that vstd does not specify
// ---------------------------------------------------------------------------

/// Appends one character to a string: `String::push`.
#[verifier::external_body]
pub fn push_char(s: &mut String, c: char)
    ensures
        final(s)@ == old(s)@.push(c),
{
    s.push(c);
}

// ---------------------------------------------------------------------------
// Conversions between strings and character vectors
// ---------------------------------------------------------------------------

/// The characters of a string slice, in order.
pub fn chars_of(s: &str) -> (v: Vec<char>)
    ensures
        v@ == s@,
{
    let mut v: Vec<char> = Vec::new();
    for c in it: s.chars()
        invariant
            v@ == it.seq().take(it.index() as int),
    {
        v.push(c);
    }
    v
}

/// A string made of the given characters.
pub fn string_of(v: &[char]) -> (s: String)
    ensures
        s@ == v@,
{
    let mut s = String::new();
    let mut i: usize = 0;
    while i < v.len()
        invariant
            i <= v.len(),
            s@ == v@.take(i as int),
        decreases v.len() - i,
    {
        push_char(&mut s, v[i]);
        i = i + 1;
        assert(s@ == v@.take(i as int));
    }
    assert(v@.take(v.len() as int) == v@);
    s
}

/// A string made of the characters `v[start..end]`.
pub fn string_of_range(v: &[char], start: usize, end: usize) -> (s: String)
    requires
        start <= end <= v.len(),
    ensures
        s@ == v@.subrange(start as int, end as int),
{
    let mut s = String::new();
    let mut i: usize = start;
    while i < end
        invariant
            start <= i <= end <= v.len(),
            s@ == v@.subrange(start as int, i as int),
        decreases end - i,
    {
        push_char(&mut s, v[i]);
        i = i + 1;
        assert(s@ == v@.subrange(start as int, i as int));
    }
    s
}

/// A copy of a string.
pub fn copy_str(s: &str) -> (r: String)
    ensures
        r@ == s@,
{
    s.to_owned()
}

/// Appends `t` to `s`.
pub fn push_str(s: &mut String, t: &str)
    ensures
        final(s)@ == old(s)@ + t@,
{
    s.append(t);
}

/// Appends the characters `v` to `s`.
pub fn push_chars(s: &mut String, v: &[char])
    ensures
        final(s)@ == old(s)@ + v@,
{
    let ghost s0 = s@;
    let mut i: usize = 0;
    while i < v.len()
        invariant
            i <= v.len(),
            s@ == s0 + v@.take(i as int),
        decreases v.len() - i,
    {
        push_char(s, v[i]);
        i = i + 1;
        assert(s@ == s0 + v@.take(i as int));
    }
    assert(v@.take(v.len() as int) == v@);
}

// ---------------------------------------------------------------------------
// Character classes, trimming and searching
// ---------------------------------------------------------------------------

/// Whether `c` is Unicode whitespace.
pub fn is_ws(c: char) -> (b: bool)
    ensures
        b == spec_is_ws(c),
{
    ('\u{9}' <= c && c <= '\u{d}') || c == ' ' || c == '\u{85}' || c == '\u{a0}' || c
        == '\u{1680}' || ('\u{2000}' <= c && c <= '\u{200a}') || c == '\u{2028}' || c
        == '\u{2029}' || c == '\u{202f}' || c == '\u{205f}' || c == '\u{3000}'
}

pub proof fn lemma_trim_start_is_suffix(s: Seq<char>)
    ensures
        spec_trim_start(s).len() <= s.len(),
        spec_trim_start(s) == s.skip(s.len() - spec_trim_start(s).len()),
        spec_trim_start(s).len() > 0 ==> !spec_is_ws(spec_trim_start(s)[0]),
        spec_trim_start(s).len() == 0 ==> spec_is_blank(s),
        forall|i: int| 0 <= i < s.len() - spec_trim_start(s).len() ==> spec_is_ws(#[trigger] s[i]),
    decreases s.len(),
{
    if s.len() > 0 && spec_is_ws(s[0]) {
        lemma_trim_start_is_suffix(s.drop_first());
        assert(s.drop_first().skip(s.drop_first().len() - spec_trim_start(s).len()) == s.skip(
            s.len() - spec_trim_start(s).len(),
        ));
        assert forall|i: int| 0 <= i < s.len() - spec_trim_start(s).len() implies spec_is_ws(
            #[trigger] s[i],
        ) by {
            if i > 0 {
                assert(s[i] == s.drop_first()[i - 1]);
            }
        }
    } else {
        assert(s.skip(0) == s);
    }
}

pub proof fn lemma_trim_end_is_prefix(s: Seq<char>)
    ensures
        spec_trim_end(s).len() <= s.len(),
        spec_trim_end(s) == s.take(spec_trim_end(s).len() as int),
        spec_trim_end(s).len() > 0 ==> !spec_is_ws(spec_trim_end(s).last()),
        forall|i: int| spec_trim_end(s).len() <= i < s.len() ==> spec_is_ws(#[trigger] s[i]),
    decreases s.len(),
{
    if s.len() > 0 && spec_is_ws(s.last()) {
        lemma_trim_end_is_prefix(s.drop_last());
        assert(s.drop_last().take(spec_trim_end(s).len() as int) == s.take(
            spec_trim_end(s).len() as int,
        ));
        assert forall|i: int| spec_trim_end(s).len() <= i < s.len() implies spec_is_ws(
            #[trigger] s[i],
        ) by {
            if i < s.len() - 1 {
                assert(s[i] == s.drop_last()[i]);
            }
        }
    } else {
        assert(s.take(s.len() as int) == s);
    }
}

/// The trimmed string is blank exactly when the string is.
pub proof fn lemma_trim_empty_iff_blank(s: Seq<char>)
    ensures
        (spec_trim(s).len() == 0) == spec_is_blank(s),
{
    lemma_trim_start_is_suffix(s);
    let t = spec_trim_start(s);
    lemma_trim_end_is_prefix(t);
    if spec_trim(s).len() == 0 {
        assert forall|i: int| 0 <= i < s.len() implies spec_is_ws(#[trigger] s[i]) by {
            if i >= s.len() - t.len() {
                assert(s[i] == t[i - (s.len() - t.len())]);
            }
        }
    }
    if spec_is_blank(s) && t.len() > 0 {
        assert(t[0] == s[s.len() - t.len()]);
    }
}

/// Bounds `(start, end)` such that `s[start..end]` is `s` trimmed.
pub fn trim_bounds(s: &[char]) -> (r: (usize, usize))
    ensures
        r.0 <= r.1 <= s.len(),
        s@.subrange(r.0 as int, r.1 as int) == spec_trim(s@),
{
    let mut start: usize = 0;
    assert(s@.skip(0) == s@);
    while start < s.len() && is_ws(s[start])
        invariant
            start <= s.len(),
            spec_trim_start(s@) == spec_trim_start(s@.skip(start as int)),
        decreases s.len() - start,
    {
        assert(s@.skip(start as int).drop_first() == s@.skip(start + 1));
        start = start + 1;
    }
    let ghost t = s@.skip(start as int);
    assert(spec_trim_start(t) == t);
    let mut end: usize = s.len();
    while end > start && is_ws(s[end - 1])
        invariant
            start <= end <= s.len(),
            spec_trim_end(t) == spec_trim_end(s@.subrange(start as int, end as int)),
        decreases end,
    {
        assert(s@.subrange(start as int, end as int).drop_last() == s@.subrange(
            start as int,
            end - 1,
        ));
        end = end - 1;
    }
    (start, end)
}

/// `s` trimmed.
pub fn trim(s: &[char]) -> (r: Vec<char>)
    ensures
        r@ == spec_trim(s@),
{
    let (a, b) = trim_bounds(s);
    slice_range(s, a, b)
}

/// The characters `s[a..b]` as a vector.
pub fn slice_range(s: &[char], a: usize, b: usize) -> (r: Vec<char>)
    requires
        a <= b <= s.len(),
    ensures
        r@ == s@.subrange(a as int, b as int),
{
    let mut r: Vec<char> = Vec::new();
    let mut i = a;
    while i < b
        invariant
            a <= i <= b <= s.len(),
            r@ == s@.subrange(a as int, i as int),
        decreases b - i,
    {
        r.push(s[i]);
        i = i + 1;
        assert(r@ == s@.subrange(a as int, i as int));
    }
    r
}

/// Whether `s` consists of whitespace only.
pub fn is_blank(s: &[char]) -> (b: bool)
    ensures
        b == spec_is_blank(s@),
{
    let mut i: usize = 0;
    while i < s.len()
        invariant
            i <= s.len(),
            forall|j: int| 0 <= j < i ==> spec_is_ws(#[trigger] s@[j]),
        decreases s.len() - i,
    {
        if !is_ws(s[i]) {
            return false;
        }
        i = i + 1;
    }
    true
}

/// Whether the string `s` consists of whitespace only, as `s.trim().is_empty()` tells.
pub fn str_is_blank(s: &str) -> (b: bool)
    ensures
        b == spec_is_blank(s@),
{
    let v = chars_of(s);
    is_blank(&v)
}

/// Whether `s` begins with `p`.
pub fn starts_with(s: &[char], p: &[char]) -> (b: bool)
    ensures
        b == spec_starts_with(s@, p@),
{
    if p.len() > s.len() {
        return false;
    }
    let mut i: usize = 0;
    while i < p.len()
        invariant
            p.len() <= s.len(),
            i <= p.len(),
            forall|j: int| 0 <= j < i ==> s@[j] == p@[j],
        decreases p.len() - i,
    {
        if s[i] != p[i] {
            assert(s@.take(p.len() as int)[i as int] != p@[i as int]);
            return false;
        }
        i = i + 1;
    }
    assert(s@.take(p.len() as int) == p@);
    true
}

/// Whether `p` occurs in `s` at position `at`.
pub fn occurs_at(s: &[char], p: &[char], at: usize) -> (b: bool)
    ensures
        b == spec_occurs_at(s@, p@, at as int),
{
    if at > s.len() || p.len() > s.len() - at {
        return false;
    }
    let mut i: usize = 0;
    while i < p.len()
        invariant
            at + p.len() <= s.len(),
            i <= p.len(),
            forall|j: int| 0 <= j < i ==> s@[at + j] == p@[j],
        decreases p.len() - i,
    {
        if s[at + i] != p[i] {
            assert(s@.subrange(at as int, at + p.len())[i as int] != p@[i as int]);
            return false;
        }
        i = i + 1;
    }
    assert(s@.subrange(at as int, at + p.len()) == p@);
    true
}

/// The first position not before `from` at which `p` occurs in `s`.
pub fn find_from(s: &[char], p: &[char], from: usize) -> (r: Option<usize>)
    ensures
        match r {
            Some(i) => spec_first_occurrence_from(s@, p@, from as int, i as int),
            None => forall|j: int| from <= j ==> !spec_occurs_at(s@, p@, j),
        },
{
    if p.len() > s.len() || from > s.len() - p.len() {
        return None;
    }
    let last = s.len() - p.len();
    let mut i = from;
    loop
        invariant
            from <= i <= last,
            last + p.len() == s.len(),
            forall|j: int| from <= j < i ==> !spec_occurs_at(s@, p@, j),
        decreases last - i,
    {
        if occurs_at(s, p, i) {
            return Some(i);
        }
        if i == last {
            return None;
        }
        i = i + 1;
    }
}

/// Whether `p` occurs in `s`.
pub fn contains(s: &[char], p: &[char]) -> (b: bool)
    ensures
        b == spec_contains(s@, p@),
{
    match find_from(s, p, 0) {
        Some(_) => true,
        None => false,
    }
}

/// The first position at which the character `c` occurs in `s`, at or after `from`.
pub fn find_char_from(s: &[char], c: char, from: usize) -> (r: Option<usize>)
    ensures
        match r {
            Some(i) => from <= i < s.len() && s@[i as int] == c && forall|j: int|
                from <= j < i ==> s@[j] != c,
            None => forall|j: int| from <= j < s.len() ==> s@[j] != c,
        },
{
    let mut i = from;
    while i < s.len()
        invariant
            from <= i,
            forall|j: int| from <= j < i && j < s.len() ==> s@[j] != c,
        decreases s.len() - i,
    {
        if s[i] == c {
            return Some(i);
        }
        i = i + 1;
    }
    None
}

/// Whether two character slices are equal.
pub fn chars_eq(a: &[char], b: &[char]) -> (r: bool)
    ensures
        r == (a@ == b@),
{
    if a.len() != b.len() {
        return false;
    }
    let mut i: usize = 0;
    while i < a.len()
        invariant
            a.len() == b.len(),
            i <= a.len(),
            forall|j: int| 0 <= j < i ==> a@[j] == b@[j],
        decreases a.len() - i,
    {
        if a[i] != b[i] {
            return false;
        }
        i = i + 1;
    }
    assert(a@ == b@);
    true
}

/// Whether the string `s` equals the literal `t`.
pub fn str_eq(s: &str, t: &str) -> (r: bool)
    ensures
        r == (s@ == t@),
{
    let a = chars_of(s);
    let b = chars_of(t);
    chars_eq(&a, &b)
}

/// Whether the string `s` begins with `p`.
pub fn str_starts_with(s: &str, p: &str) -> (r: bool)
    ensures
        r == spec_starts_with(s@, p@),
{
    let a = chars_of(s);
    let b = chars_of(p);
    starts_with(&a, &b)
}

/// Whether the string `s` ends with `p`.
pub fn str_ends_with(s: &str, p: &str) -> (r: bool)
    ensures
        r == spec_ends_with(s@, p@),
{
    let a = chars_of(s);
    let b = chars_of(p);
    if b.len() > a.len() {
        return false;
    }
    let k = a.len() - b.len();
    let mut i: usize = 0;
    while i < b.len()
        invariant
            k + b.len() == a.len(),
            a@ == s@,
            b@ == p@,
            i <= b.len(),
            forall|j: int| 0 <= j < i ==> a@[k + j] == b@[j],
        decreases b.len() - i,
    {
        if a[k + i] != b[i] {
            assert(a@.skip(k as int)[i as int] != b@[i as int]);
            return false;
        }
        i = i + 1;
    }
    assert(a@.skip(k as int) == b@);
    true
}

/// Whether the string `p` occurs in `s`.
pub fn str_contains(s: &str, p: &str) -> (r: bool)
    ensures
        r == spec_contains(s@, p@),
{
    let a = chars_of(s);
    let b = chars_of(p);
    contains(&a, &b)
}

// ---------------------------------------------------------------------------
// Numbers
// ---------------------------------------------------------------------------

pub proof fn lemma_digits_value_monotone(s: Seq<char>, i: int)
    requires
        0 <= i <= s.len(),
    ensures
        spec_digits_value(s.take(i)) <= spec_digits_value(s),
    decreases s.len() - i,
{
    if i < s.len() {
        lemma_digits_value_monotone(s, i + 1);
        assert(s.take(i + 1).drop_last() == s.take(i));
    } else {
        assert(s.take(i) == s);
    }
}

/// The value of the decimal digits `d`, if it is at most `limit`.
fn digits_value_upto(d: &[char], start: usize, limit: u64) -> (r: Option<u64>)
    requires
        start <= d.len(),
        spec_all_digits(d@.skip(start as int)),
    ensures
        match r {
            Some(v) => v as nat == spec_digits_value(d@.skip(start as int)) && v <= limit,
            None => spec_digits_value(d@.skip(start as int)) > limit,
        },
{
    let ghost body = d@.skip(start as int);
    let mut acc: u64 = 0;
    let mut i = start;
    while i < d.len()
        invariant
            start <= i <= d.len(),
            body == d@.skip(start as int),
            spec_all_digits(body),
            acc as nat == spec_digits_value(body.take(i - start)),
            acc <= limit,
        decreases d.len() - i,
    {
        let ghost k = i - start;
        assert(body[k] == d@[i as int]);
        let digit = (d[i] as u32 - '0' as u32) as u64;
        assert(body.take(k + 1).drop_last() == body.take(k));
        assert(body.take(k + 1).last() == d@[i as int]);
        if acc > limit / 10 || (acc == limit / 10 && digit > limit % 10) {
            proof {
                assert(spec_digits_value(body.take(k + 1)) > limit);
                lemma_digits_value_monotone(body, k + 1);
            }
            return None;
        }
        acc = acc * 10 + digit;
        i = i + 1;
    }
    assert(body.take(d.len() - start) == body);
    Some(acc)
}

/// The parsed value of an unsigned decimal no greater than `limit`.
fn parse_unsigned(s: &[char], limit: u64) -> (r: Option<u64>)
    ensures
        match r {
            Some(v) => spec_unsigned_digits(s@) is Some && v as nat == spec_digits_value(
                spec_unsigned_digits(s@)->0,
            ) && v <= limit,
            None => spec_unsigned_digits(s@) is None || spec_digits_value(
                spec_unsigned_digits(s@)->0,
            ) > limit,
        },
{
    let start: usize = if s.len() > 0 && s[0] == '+' { 1 } else { 0 };
    assert(start == 1 ==> s@.drop_first() == s@.skip(1));
    assert(start == 0 ==> s@ == s@.skip(0));
    if start >= s.len() {
        assert(s@.skip(start as int).len() == 0);
        return None;
    }
    let mut i = start;
    while i < s.len()
        invariant
            start <= i <= s.len(),
            start < s.len(),
            (start == 1) == (s@.len() > 0 && s@[0] == '+'),
            start <= 1,
            start == 1 ==> s@.drop_first() == s@.skip(1),
            start == 0 ==> s@ == s@.skip(0),
            forall|j: int| start <= j < i ==> spec_is_digit(#[trigger] s@[j]),
        decreases s.len() - i,
    {
        if !(s[i] >= '0' && s[i] <= '9') {
            assert(!spec_is_digit(s@.skip(start as int)[i - start]));
            return None;
        }
        i = i + 1;
    }
    assert(spec_all_digits(s@.skip(start as int)));
    digits_value_upto(s, start, limit)
}

/// `s.parse::<u64>()`.
pub fn parse_u64(s: &[char]) -> (r: Option<u64>)
    ensures
        r == spec_parse_u64(s@),
{
    parse_unsigned(s, u64::MAX)
}

/// `s.parse::<usize>()`.
pub fn parse_usize(s: &[char]) -> (r: Option<usize>)
    ensures
        r == spec_parse_usize(s@),
{
    match parse_unsigned(s, usize::MAX as u64) {
        Some(v) => Some(v as usize),
        None => None,
    }
}

/// The decimal digit character for `d < 10`.
pub fn digit_char(d: u64) -> (c: char)
    requires
        d < 10,
    ensures
        c == spec_digit_char(d as nat),
{
    if d == 0 { '0' } else if d == 1 { '1' } else if d == 2 { '2' } else if d == 3 { '3' }
    else if d == 4 { '4' } else if d == 5 { '5' } else if d == 6 { '6' } else if d == 7 { '7' }
    else if d == 8 { '8' } else { '9' }
}

/// The decimal rendering of `n`, as `n.to_string()` gives it.
pub fn u64_to_string(n: u64) -> (s: String)
    ensures
        s@ == spec_decimal(n as nat),
    decreases n,
{
    if n < 10 {
        let mut s = String::new();
        push_char(&mut s, digit_char(n));
        s
    } else {
        let mut s = u64_to_string(n / 10);
        push_char(&mut s, digit_char(n % 10));
        s
    }
}

// ---------------------------------------------------------------------------
// Lines, joining and repetition
// ---------------------------------------------------------------------------

/// `s` stripped of a final `\r`.
fn strip_cr(s: &[char], a: usize, b: usize) -> (r: Vec<char>)
    requires
        a <= b <= s.len(),
    ensures
        r@ == spec_strip_cr(s@.subrange(a as int, b as int)),
{
    if b > a && s[b - 1] == '\r' {
        assert(s@.subrange(a as int, b as int).drop_last() == s@.subrange(a as int, b - 1));
        slice_range(s, a, b - 1)
    } else {
        slice_range(s, a, b)
    }
}

/// The lines of `s`, as `s.lines()` yields them.
pub fn lines(s: &[char]) -> (r: Vec<Vec<char>>)
    ensures
        r@.map_values(|l: Vec<char>| l@) == spec_lines(s@),
{
    let mut out: Vec<Vec<char>> = Vec::new();
    let mut start: usize = 0;
    assert(s@.skip(0) == s@);
    assert(out@.map_values(|l: Vec<char>| l@) == Seq::<Seq<char>>::empty());
    while start < s.len()
        invariant
            start <= s.len(),
            spec_lines(s@) == out@.map_values(|l: Vec<char>| l@) + spec_lines(s@.skip(start as int)),
        decreases s.len() - start,
    {
        let ghost rest = s@.skip(start as int);
        match find_char_from(s, '\n', start) {
            Some(i) => {
                proof {
                    assert forall|j: int| 0 <= j < i - start implies rest[j] != '\n' by {
                        assert(rest[j] == s@[start + j]);
                    }
                    lemma_find_char_is(rest, '\n', i - start);
                    assert(rest.take(i - start) == s@.subrange(start as int, i as int));
                    assert(rest.skip(i - start + 1) == s@.skip(i + 1));
                }
                let line = strip_cr(s, start, i);
                let ghost before = out@.map_values(|l: Vec<char>| l@);
                out.push(line);
                assert(out@.map_values(|l: Vec<char>| l@) == before.push(line@));
                start = i + 1;
            },
            None => {
                proof {
                    assert forall|j: int| 0 <= j < rest.len() implies rest[j] != '\n' by {
                        assert(rest[j] == s@[start + j]);
                    }
                    lemma_find_char_is(rest, '\n', rest.len() as int);
                }
                let line = slice_range(s, start, s.len());
                assert(line@ == rest);
                let ghost before = out@.map_values(|l: Vec<char>| l@);
                out.push(line);
                assert(out@.map_values(|l: Vec<char>| l@) == before.push(line@));
                assert(s@.skip(s.len() as int).len() == 0);
                start = s.len();
            },
        }
    }
    assert(spec_lines(s@.skip(start as int)) == Seq::<Seq<char>>::empty());
    out
}

/// The pieces of `s` between occurrences of `c`, empty pieces dropped.
pub fn split_nonempty(s: &[char], c: char) -> (r: Vec<Vec<char>>)
    ensures
        r@.map_values(|l: Vec<char>| l@) == spec_split_nonempty(s@, c),
{
    let mut out: Vec<Vec<char>> = Vec::new();
    let mut start: usize = 0;
    assert(s@.skip(0) == s@);
    assert(out@.map_values(|l: Vec<char>| l@) == Seq::<Seq<char>>::empty());
    while start < s.len()
        invariant
            start <= s.len(),
            spec_split_nonempty(s@, c) == out@.map_values(|l: Vec<char>| l@)
                + spec_split_nonempty(s@.skip(start as int), c),
        decreases s.len() - start,
    {
        let ghost rest = s@.skip(start as int);
        match find_char_from(s, c, start) {
            Some(i) => {
                proof {
                    assert forall|j: int| 0 <= j < i - start implies rest[j] != c by {
                        assert(rest[j] == s@[start + j]);
                    }
                    lemma_find_char_is(rest, c, i - start);
                    assert(rest.take(i - start) == s@.subrange(start as int, i as int));
                    assert(rest.skip(i - start + 1) == s@.skip(i + 1));
                }
                if i > start {
                    let piece = slice_range(s, start, i);
                    let ghost before = out@.map_values(|l: Vec<char>| l@);
                    out.push(piece);
                    assert(out@.map_values(|l: Vec<char>| l@) == before.push(piece@));
                } else {
                    assert(spec_split_nonempty(rest, c) == spec_split_nonempty(s@.skip(i + 1), c));
                }
                start = i + 1;
            },
            None => {
                proof {
                    assert forall|j: int| 0 <= j < rest.len() implies rest[j] != c by {
                        assert(rest[j] == s@[start + j]);
                    }
                    lemma_find_char_is(rest, c, rest.len() as int);
                }
                let piece = slice_range(s, start, s.len());
                assert(piece@ == rest);
                let ghost before = out@.map_values(|l: Vec<char>| l@);
                out.push(piece);
                assert(out@.map_values(|l: Vec<char>| l@) == before.push(piece@));
                assert(s@.skip(s.len() as int).len() == 0);
                start = s.len();
            },
        }
    }
    assert(spec_split_nonempty(s@.skip(start as int), c) == Seq::<Seq<char>>::empty());
    out
}

/// `s` without its trailing whitespace.
pub fn trim_end_str(s: &str) -> (r: String)
    ensures
        r@ == spec_trim_end(s@),
{
    let chars = chars_of(s);
    let mut end = chars.len();
    assert(chars@.take(end as int) == chars@);
    while end > 0 && is_ws(chars[end - 1])
        invariant
            end <= chars.len(),
            chars@ == s@,
            spec_trim_end(s@) == spec_trim_end(chars@.take(end as int)),
        decreases end,
    {
        assert(chars@.take(end as int).drop_last() == chars@.take(end - 1));
        end = end - 1;
    }
    string_of_range(chars.as_slice(), 0, end)
}

/// `s` padded with spaces on the right to `width` characters.
pub fn pad_right(s: &str, width: usize) -> (r: String)
    ensures
        r@ == spec_pad_right(s@, width as nat),
{
    let chars = chars_of(s);
    let mut out = copy_str(s);
    if chars.len() < width {
        let pad = repeat_char(' ', width - chars.len());
        out.append(pad.as_str());
    }
    out
}

/// The strings `pieces` joined with `sep`.
pub fn join(pieces: &[String], sep: &str) -> (r: String)
    ensures
        r@ == spec_join(strings_view(pieces@), sep@),
{
    let mut out = String::new();
    let mut i: usize = 0;
    while i < pieces.len()
        invariant
            i <= pieces.len(),
            out@ == spec_join(strings_view(pieces@.take(i as int)), sep@),
        decreases pieces.len() - i,
    {
        let ghost prev = strings_view(pieces@.take(i as int));
        if i > 0 {
            out.append(sep);
        }
        out.append(pieces[i].as_str());
        i = i + 1;
        proof {
            let cur = strings_view(pieces@.take(i as int));
            assert(cur.drop_last() == prev);
            assert(cur.last() == pieces@[i - 1]@);
            if i == 1 {
                assert(cur.len() == 1);
            }
        }
    }
    assert(pieces@.take(pieces.len() as int) == pieces@);
    out
}

/// `n` copies of `c`.
pub fn repeat_char(c: char, n: usize) -> (r: String)
    ensures
        r@ == spec_repeat(c, n as nat),
{
    let mut out = String::new();
    let mut i: usize = 0;
    while i < n
        invariant
            i <= n,
            out@ == spec_repeat(c, i as nat),
        decreases n - i,
    {
        push_char(&mut out, c);
        i = i + 1;
        assert(out@ == spec_repeat(c, i as nat));
    }
    out
}

/// Copies of the strings from position `start` on.
pub fn strings_from(v: &[String], start: usize) -> (r: Vec<String>)
    requires
        start <= v.len(),
    ensures
        strings_view(r@) == strings_view(v@).skip(start as int),
{
    let ghost sv = strings_view(v@);
    let mut out: Vec<String> = Vec::new();
    let mut i: usize = start;
    while i < v.len()
        invariant
            start <= i <= v.len(),
            sv == strings_view(v@),
            strings_view(out@) == sv.subrange(start as int, i as int),
        decreases v.len() - i,
    {
        let ghost before = strings_view(out@);
        out.push(v[i].clone());
        assert(strings_view(out@) == before.push(v@[i as int]@));
        assert(sv.subrange(start as int, i + 1) == sv.subrange(start as int, i as int).push(sv[i as int]));
        i = i + 1;
    }
    out
}

/// A copy of each string.
pub fn clone_strings(v: &[String]) -> (r: Vec<String>)
    ensures
        strings_view(r@) == strings_view(v@),
        r@.len() == v@.len(),
{
    let mut out: Vec<String> = Vec::new();
    let mut i: usize = 0;
    while i < v.len()
        invariant
            i <= v.len(),
            out@.len() == i,
            forall|j: int| 0 <= j < i ==> (#[trigger] out@[j])@ == v@[j]@,
        decreases v.len() - i,
    {
        out.push(v[i].clone());
        i = i + 1;
    }
    assert(strings_view(out@) == strings_view(v@));
    out
}

} // verus!
