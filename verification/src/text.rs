//! Character classes, substring search, trimming and string building over
//! the character sequence of a string.
use vstd::prelude::*;

verus! {

/// The Unicode `White_Space` property: the characters that
/// `char::is_whitespace`, `str::trim` and the regular-expression class `\s`
/// treat as whitespace.
pub open spec fn spec_is_whitespace(c: char) -> bool {
    ||| ('\u{9}' <= c && c <= '\u{d}')
    ||| c == ' '
    ||| c == '\u{85}'
    ||| c == '\u{a0}'
    ||| c == '\u{1680}'
    ||| ('\u{2000}' <= c && c <= '\u{200a}')
    ||| c == '\u{2028}'
    ||| c == '\u{2029}'
    ||| c == '\u{202f}'
    ||| c == '\u{205f}'
    ||| c == '\u{3000}'
}

/// Executable test for the Unicode `White_Space` property.
pub fn is_whitespace(c: char) -> (r: bool)
    ensures
        r == spec_is_whitespace(c),
{
    ('\u{9}' <= c && c <= '\u{d}') || c == ' ' || c == '\u{85}' || c == '\u{a0}' || c == '\u{1680}'
        || ('\u{2000}' <= c && c <= '\u{200a}') || c == '\u{2028}' || c == '\u{2029}' || c
        == '\u{202f}' || c == '\u{205f}' || c == '\u{3000}'
}

/// A decimal digit: a character of the Unicode general category `Nd`
/// (Unicode 16.0), the class `\d` of the `regex` crate.
pub open spec fn is_decimal_digit(c: char) -> bool {
    ||| ('0' <= c && c <= '9')
    ||| ('\u{660}' <= c && c <= '\u{669}')
    ||| ('\u{6f0}' <= c && c <= '\u{6f9}')
    ||| ('\u{7c0}' <= c && c <= '\u{7c9}')
    ||| ('\u{966}' <= c && c <= '\u{96f}')
    ||| ('\u{9e6}' <= c && c <= '\u{9ef}')
    ||| ('\u{a66}' <= c && c <= '\u{a6f}')
    ||| ('\u{ae6}' <= c && c <= '\u{aef}')
    ||| ('\u{b66}' <= c && c <= '\u{b6f}')
    ||| ('\u{be6}' <= c && c <= '\u{bef}')
    ||| ('\u{c66}' <= c && c <= '\u{c6f}')
    ||| ('\u{ce6}' <= c && c <= '\u{cef}')
    ||| ('\u{d66}' <= c && c <= '\u{d6f}')
    ||| ('\u{de6}' <= c && c <= '\u{def}')
    ||| ('\u{e50}' <= c && c <= '\u{e59}')
    ||| ('\u{ed0}' <= c && c <= '\u{ed9}')
    ||| ('\u{f20}' <= c && c <= '\u{f29}')
    ||| ('\u{1040}' <= c && c <= '\u{1049}')
    ||| ('\u{1090}' <= c && c <= '\u{1099}')
    ||| ('\u{17e0}' <= c && c <= '\u{17e9}')
    ||| ('\u{1810}' <= c && c <= '\u{1819}')
    ||| ('\u{1946}' <= c && c <= '\u{194f}')
    ||| ('\u{19d0}' <= c && c <= '\u{19d9}')
    ||| ('\u{1a80}' <= c && c <= '\u{1a89}')
    ||| ('\u{1a90}' <= c && c <= '\u{1a99}')
    ||| ('\u{1b50}' <= c && c <= '\u{1b59}')
    ||| ('\u{1bb0}' <= c && c <= '\u{1bb9}')
    ||| ('\u{1c40}' <= c && c <= '\u{1c49}')
    ||| ('\u{1c50}' <= c && c <= '\u{1c59}')
    ||| ('\u{a620}' <= c && c <= '\u{a629}')
    ||| ('\u{a8d0}' <= c && c <= '\u{a8d9}')
    ||| ('\u{a900}' <= c && c <= '\u{a909}')
    ||| ('\u{a9d0}' <= c && c <= '\u{a9d9}')
    ||| ('\u{a9f0}' <= c && c <= '\u{a9f9}')
    ||| ('\u{aa50}' <= c && c <= '\u{aa59}')
    ||| ('\u{abf0}' <= c && c <= '\u{abf9}')
    ||| ('\u{ff10}' <= c && c <= '\u{ff19}')
    ||| ('\u{104a0}' <= c && c <= '\u{104a9}')
    ||| ('\u{10d30}' <= c && c <= '\u{10d39}')
    ||| ('\u{10d40}' <= c && c <= '\u{10d49}')
    ||| ('\u{11066}' <= c && c <= '\u{1106f}')
    ||| ('\u{110f0}' <= c && c <= '\u{110f9}')
    ||| ('\u{11136}' <= c && c <= '\u{1113f}')
    ||| ('\u{111d0}' <= c && c <= '\u{111d9}')
    ||| ('\u{112f0}' <= c && c <= '\u{112f9}')
    ||| ('\u{11450}' <= c && c <= '\u{11459}')
    ||| ('\u{114d0}' <= c && c <= '\u{114d9}')
    ||| ('\u{11650}' <= c && c <= '\u{11659}')
    ||| ('\u{116c0}' <= c && c <= '\u{116c9}')
    ||| ('\u{116d0}' <= c && c <= '\u{116e3}')
    ||| ('\u{11730}' <= c && c <= '\u{11739}')
    ||| ('\u{118e0}' <= c && c <= '\u{118e9}')
    ||| ('\u{11950}' <= c && c <= '\u{11959}')
    ||| ('\u{11bf0}' <= c && c <= '\u{11bf9}')
    ||| ('\u{11c50}' <= c && c <= '\u{11c59}')
    ||| ('\u{11d50}' <= c && c <= '\u{11d59}')
    ||| ('\u{11da0}' <= c && c <= '\u{11da9}')
    ||| ('\u{11f50}' <= c && c <= '\u{11f59}')
    ||| ('\u{16130}' <= c && c <= '\u{16139}')
    ||| ('\u{16a60}' <= c && c <= '\u{16a69}')
    ||| ('\u{16ac0}' <= c && c <= '\u{16ac9}')
    ||| ('\u{16b50}' <= c && c <= '\u{16b59}')
    ||| ('\u{16d70}' <= c && c <= '\u{16d79}')
    ||| ('\u{1ccf0}' <= c && c <= '\u{1ccf9}')
    ||| ('\u{1d7ce}' <= c && c <= '\u{1d7ff}')
    ||| ('\u{1e140}' <= c && c <= '\u{1e149}')
    ||| ('\u{1e2f0}' <= c && c <= '\u{1e2f9}')
    ||| ('\u{1e4f0}' <= c && c <= '\u{1e4f9}')
    ||| ('\u{1e5f1}' <= c && c <= '\u{1e5fa}')
    ||| ('\u{1e950}' <= c && c <= '\u{1e959}')
    ||| ('\u{1fbf0}' <= c && c <= '\u{1fbf9}')
}

/// Executable test for `is_decimal_digit`.
pub fn decimal_digit(c: char) -> (r: bool)
    ensures
        r == is_decimal_digit(c),
{
    if c <= '\u{7f}' {
        '0' <= c && c <= '9'
    } else {
        ('0' <= c && c <= '9') || ('\u{660}' <= c && c <= '\u{669}') || ('\u{6f0}' <= c && c <= '\u{6f9}') || ('\u{7c0}' <= c && c <= '\u{7c9}') || ('\u{966}' <= c && c <= '\u{96f}') || ('\u{9e6}' <= c && c <= '\u{9ef}') || ('\u{a66}' <= c && c <= '\u{a6f}') || ('\u{ae6}' <= c && c <= '\u{aef}') || ('\u{b66}' <= c && c <= '\u{b6f}') || ('\u{be6}' <= c && c <= '\u{bef}') || ('\u{c66}' <= c && c <= '\u{c6f}') || ('\u{ce6}' <= c && c <= '\u{cef}') || ('\u{d66}' <= c && c <= '\u{d6f}') || ('\u{de6}' <= c && c <= '\u{def}') || ('\u{e50}' <= c && c <= '\u{e59}') || ('\u{ed0}' <= c && c <= '\u{ed9}') || ('\u{f20}' <= c && c <= '\u{f29}') || ('\u{1040}' <= c && c <= '\u{1049}') || ('\u{1090}' <= c && c <= '\u{1099}') || ('\u{17e0}' <= c && c <= '\u{17e9}') || ('\u{1810}' <= c && c <= '\u{1819}') || ('\u{1946}' <= c && c <= '\u{194f}') || ('\u{19d0}' <= c && c <= '\u{19d9}') || ('\u{1a80}' <= c && c <= '\u{1a89}') || ('\u{1a90}' <= c && c <= '\u{1a99}') || ('\u{1b50}' <= c && c <= '\u{1b59}') || ('\u{1bb0}' <= c && c <= '\u{1bb9}') || ('\u{1c40}' <= c && c <= '\u{1c49}') || ('\u{1c50}' <= c && c <= '\u{1c59}') || ('\u{a620}' <= c && c <= '\u{a629}') || ('\u{a8d0}' <= c && c <= '\u{a8d9}') || ('\u{a900}' <= c && c <= '\u{a909}') || ('\u{a9d0}' <= c && c <= '\u{a9d9}') || ('\u{a9f0}' <= c && c <= '\u{a9f9}') || ('\u{aa50}' <= c && c <= '\u{aa59}') || ('\u{abf0}' <= c && c <= '\u{abf9}') || ('\u{ff10}' <= c && c <= '\u{ff19}') || ('\u{104a0}' <= c && c <= '\u{104a9}') || ('\u{10d30}' <= c && c <= '\u{10d39}') || ('\u{10d40}' <= c && c <= '\u{10d49}') || ('\u{11066}' <= c && c <= '\u{1106f}') || ('\u{110f0}' <= c && c <= '\u{110f9}') || ('\u{11136}' <= c && c <= '\u{1113f}') || ('\u{111d0}' <= c && c <= '\u{111d9}') || ('\u{112f0}' <= c && c <= '\u{112f9}') || ('\u{11450}' <= c && c <= '\u{11459}') || ('\u{114d0}' <= c && c <= '\u{114d9}') || ('\u{11650}' <= c && c <= '\u{11659}') || ('\u{116c0}' <= c && c <= '\u{116c9}') || ('\u{116d0}' <= c && c <= '\u{116e3}') || ('\u{11730}' <= c && c <= '\u{11739}') || ('\u{118e0}' <= c && c <= '\u{118e9}') || ('\u{11950}' <= c && c <= '\u{11959}') || ('\u{11bf0}' <= c && c <= '\u{11bf9}') || ('\u{11c50}' <= c && c <= '\u{11c59}') || ('\u{11d50}' <= c && c <= '\u{11d59}') || ('\u{11da0}' <= c && c <= '\u{11da9}') || ('\u{11f50}' <= c && c <= '\u{11f59}') || ('\u{16130}' <= c && c <= '\u{16139}') || ('\u{16a60}' <= c && c <= '\u{16a69}') || ('\u{16ac0}' <= c && c <= '\u{16ac9}') || ('\u{16b50}' <= c && c <= '\u{16b59}') || ('\u{16d70}' <= c && c <= '\u{16d79}') || ('\u{1ccf0}' <= c && c <= '\u{1ccf9}') || ('\u{1d7ce}' <= c && c <= '\u{1d7ff}') || ('\u{1e140}' <= c && c <= '\u{1e149}') || ('\u{1e2f0}' <= c && c <= '\u{1e2f9}') || ('\u{1e4f0}' <= c && c <= '\u{1e4f9}') || ('\u{1e5f1}' <= c && c <= '\u{1e5fa}') || ('\u{1e950}' <= c && c <= '\u{1e959}') || ('\u{1fbf0}' <= c && c <= '\u{1fbf9}')
    }
}

/// The character classes that the progress-line grammar is written with.
#[derive(Clone, Copy, Debug, PartialEq, Eq)]
pub enum CharClass {
    Whitespace,
    NonWhitespace,
    Digit,
    DigitOrDot,
    DigitOrColon,
    NotNewline,
}

pub open spec fn in_class(cls: CharClass, c: char) -> bool {
    match cls {
        CharClass::Whitespace => spec_is_whitespace(c),
        CharClass::NonWhitespace => !spec_is_whitespace(c),
        CharClass::Digit => is_decimal_digit(c),
        CharClass::DigitOrDot => is_decimal_digit(c) || c == '.',
        CharClass::DigitOrColon => is_decimal_digit(c) || c == ':',
        CharClass::NotNewline => c != '\n',
    }
}

pub fn class_contains(cls: CharClass, c: char) -> (r: bool)
    ensures
        r == in_class(cls, c),
{
    match cls {
        CharClass::Whitespace => is_whitespace(c),
        CharClass::NonWhitespace => !is_whitespace(c),
        CharClass::Digit => decimal_digit(c),
        CharClass::DigitOrDot => decimal_digit(c) || c == '.',
        CharClass::DigitOrColon => decimal_digit(c) || c == ':',
        CharClass::NotNewline => c != '\n',
    }
}

/// The end of the longest run of characters of class `cls` that starts at `i`.
pub open spec fn run_end(s: Seq<char>, i: int, cls: CharClass) -> int
    decreases s.len() - i,
{
    if 0 <= i < s.len() && in_class(cls, s[i]) {
        run_end(s, i + 1, cls)
    } else {
        i
    }
}

pub proof fn lemma_run_end(s: Seq<char>, i: int, cls: CharClass)
    requires
        0 <= i <= s.len(),
    ensures
        i <= run_end(s, i, cls) <= s.len(),
        forall|k: int| i <= k < run_end(s, i, cls) ==> in_class(cls, #[trigger] s[k]),
        run_end(s, i, cls) < s.len() ==> !in_class(cls, s[run_end(s, i, cls)]),
    decreases s.len() - i,
{
    if i < s.len() && in_class(cls, s[i]) {
        lemma_run_end(s, i + 1, cls);
    }
}

/// Computes `run_end`.
pub fn scan_run(v: &Vec<char>, i: usize, cls: CharClass) -> (e: usize)
    requires
        i <= v.len(),
    ensures
        e as int == run_end(v@, i as int, cls),
        i <= e <= v.len(),
{
    let mut j = i;
    while j < v.len() && class_contains(cls, v[j])
        invariant
            i <= j <= v.len(),
            run_end(v@, j as int, cls) == run_end(v@, i as int, cls),
        decreases v.len() - j,
    {
        j += 1;
    }
    j
}

/// `pat` stands in `s` at position `i`.
pub open spec fn occurs_at(s: Seq<char>, pat: Seq<char>, i: int) -> bool {
    0 <= i && i + pat.len() <= s.len() && s.subrange(i, i + pat.len()) == pat
}

/// `pat` stands somewhere in `s` (what `str::contains` answers).
pub open spec fn seq_contains(s: Seq<char>, pat: Seq<char>) -> bool {
    exists|i: int| #[trigger] occurs_at(s, pat, i)
}

/// The first position at or after `start` where `pat` stands in `s`.
pub open spec fn find_from(s: Seq<char>, pat: Seq<char>, start: int) -> Option<int>
    decreases s.len() - start,
{
    if start < 0 || start + pat.len() > s.len() {
        None
    } else if occurs_at(s, pat, start) {
        Some(start)
    } else if start >= s.len() {
        None
    } else {
        find_from(s, pat, start + 1)
    }
}

pub proof fn lemma_find_from(s: Seq<char>, pat: Seq<char>, start: int)
    requires
        0 <= start,
    ensures
        find_from(s, pat, start) matches Some(k) ==> {
            &&& start <= k
            &&& occurs_at(s, pat, k)
            &&& forall|j: int| start <= j < k ==> !occurs_at(s, pat, j)
        },
        find_from(s, pat, start) is None ==> forall|j: int| start <= j ==> !occurs_at(s, pat, j),
    decreases s.len() - start,
{
    if start + pat.len() > s.len() {
    } else if occurs_at(s, pat, start) {
    } else if start >= s.len() {
        assert(s.subrange(start, start + pat.len()) =~= pat);
    } else {
        lemma_find_from(s, pat, start + 1);
    }
}

pub proof fn lemma_contains_find(s: Seq<char>, pat: Seq<char>)
    ensures
        seq_contains(s, pat) <==> find_from(s, pat, 0) is Some,
{
    lemma_find_from(s, pat, 0);
    if find_from(s, pat, 0) is Some {
        assert(occurs_at(s, pat, find_from(s, pat, 0)->0));
    }
}

/// Tests whether `pat` stands in `v` at position `i`.
pub fn occurs_at_exec(v: &Vec<char>, pat: &Vec<char>, i: usize) -> (r: bool)
    ensures
        r == occurs_at(v@, pat@, i as int),
{
    if i > v.len() || pat.len() > v.len() - i {
        return false;
    }
    let mut k: usize = 0;
    while k < pat.len()
        invariant
            k <= pat.len(),
            i + pat.len() <= v.len(),
            forall|j: int| 0 <= j < k ==> v@[i + j] == pat@[j],
        decreases pat.len() - k,
    {
        if v[i + k] != pat[k] {
            assert(v@.subrange(i as int, i + pat.len())[k as int] != pat@[k as int]);
            return false;
        }
        k += 1;
    }
    assert(v@.subrange(i as int, i + pat.len()) =~= pat@);
    true
}

/// The first position at or after `start` where `pat` stands in `v`.
pub fn find_from_exec(v: &Vec<char>, pat: &Vec<char>, start: usize) -> (r: Option<usize>)
    ensures
        r matches Some(k) ==> find_from(v@, pat@, start as int) == Some(k as int),
        r is None ==> find_from(v@, pat@, start as int) is None,
{
    if start > v.len() || pat.len() > v.len() - start {
        return None;
    }
    let last = v.len() - pat.len();
    let mut i = start;
    while i <= last
        invariant
            start <= i,
            last == v.len() - pat.len(),
            pat.len() <= v.len(),
            i <= last + 1,
            find_from(v@, pat@, i as int) == find_from(v@, pat@, start as int),
        decreases last + 1 - i,
    {
        if occurs_at_exec(v, pat, i) {
            return Some(i);
        }
        if i == last {
            assert(find_from(v@, pat@, i + 1) is None);
            return None;
        }
        i += 1;
    }
    None
}

/// Whether `pat` stands anywhere in `v`.
pub fn contains(v: &Vec<char>, pat: &Vec<char>) -> (r: bool)
    ensures
        r == seq_contains(v@, pat@),
{
    proof {
        lemma_contains_find(v@, pat@);
    }
    find_from_exec(v, pat, 0).is_some()
}

/// The characters of a string slice, in order.
pub fn chars_of(s: &str) -> (v: Vec<char>)
    ensures
        v@ == s@,
{
    let mut v: Vec<char> = Vec::new();
    for c in it: s.chars()
        invariant
            v@ == it.seq().take(it.index() as int),
            it.seq() == s@,
    {
        v.push(c);
    }
    v
}

/// `String::push` appends one character at the end of the string (as its
/// documentation says); nothing else of it is claimed.
pub assume_specification[ String::push ](s: &mut String, ch: char)
    ensures
        final(s)@ == old(s)@.push(ch),
;

/// A copy of the characters `v[start..end]`.
pub fn slice_chars(v: &Vec<char>, start: usize, end: usize) -> (r: Vec<char>)
    requires
        start <= end <= v.len(),
    ensures
        r@ == v@.subrange(start as int, end as int),
{
    let mut r: Vec<char> = Vec::new();
    let mut i = start;
    while i < end
        invariant
            start <= i <= end <= v.len(),
            r@ == v@.subrange(start as int, i as int),
        decreases end - i,
    {
        r.push(v[i]);
        i += 1;
        assert(r@ =~= v@.subrange(start as int, i as int));
    }
    r
}

/// The string made of the characters `v[start..end]`.
pub fn string_of(v: &Vec<char>, start: usize, end: usize) -> (r: String)
    requires
        start <= end <= v.len(),
    ensures
        r@ == v@.subrange(start as int, end as int),
{
    let mut r = String::new();
    let mut i = start;
    while i < end
        invariant
            start <= i <= end <= v.len(),
            r@ == v@.subrange(start as int, i as int),
        decreases end - i,
    {
        r.push(v[i]);
        i += 1;
        assert(r@ =~= v@.subrange(start as int, i as int));
    }
    r
}

/// Appends the characters of `s` to `out`.
pub fn push_str(out: &mut String, s: &str)
    ensures
        final(out)@ == old(out)@ + s@,
{
    let v = chars_of(s);
    let ghost start = out@;
    let mut i: usize = 0;
    while i < v.len()
        invariant
            i <= v.len(),
            v@ == s@,
            out@ == start + v@.subrange(0, i as int),
        decreases v.len() - i,
    {
        out.push(v[i]);
        i += 1;
        assert(out@ =~= start + v@.subrange(0, i as int));
    }
    assert(v@.subrange(0, v.len() as int) =~= v@);
}

/// An owned copy of a string slice.
pub fn owned(s: &str) -> (r: String)
    ensures
        r@ == s@,
{
    let mut r = String::new();
    push_str(&mut r, s);
    assert(r@ =~= s@);
    r
}

/// Whether two strings hold the same characters.
pub fn same_text(a: &str, b: &str) -> (r: bool)
    ensures
        r == (a@ == b@),
{
    let va = chars_of(a);
    let vb = chars_of(b);
    if va.len() != vb.len() {
        return false;
    }
    let r = occurs_at_exec(&va, &vb, 0);
    assert(va@.subrange(0, va@.len() as int) =~= va@);
    r
}

/// The end of the whitespace run that ends at `j` read backwards: the
/// smallest `k <= j` such that `s[k..j]` is all whitespace.
pub open spec fn back_run(s: Seq<char>, j: int) -> int
    decreases j,
{
    if 0 < j <= s.len() && spec_is_whitespace(s[j - 1]) {
        back_run(s, j - 1)
    } else {
        j
    }
}

pub proof fn lemma_back_run(s: Seq<char>, j: int)
    requires
        0 <= j <= s.len(),
    ensures
        0 <= back_run(s, j) <= j,
        forall|k: int| back_run(s, j) <= k < j ==> spec_is_whitespace(#[trigger] s[k]),
        back_run(s, j) > 0 ==> !spec_is_whitespace(s[back_run(s, j) - 1]),
    decreases j,
{
    if 0 < j && spec_is_whitespace(s[j - 1]) {
        lemma_back_run(s, j - 1);
    }
}

/// `s` with leading and trailing whitespace removed, as `str::trim` does.
pub open spec fn spec_trim(s: Seq<char>) -> Seq<char> {
    let a = run_end(s, 0, CharClass::Whitespace);
    if a == s.len() {
        Seq::empty()
    } else {
        s.subrange(a, back_run(s, s.len() as int))
    }
}

pub proof fn lemma_trim_bounds(s: Seq<char>)
    ensures
        run_end(s, 0, CharClass::Whitespace) < s.len() ==> run_end(s, 0, CharClass::Whitespace)
            < back_run(s, s.len() as int) <= s.len(),
{
    lemma_run_end(s, 0, CharClass::Whitespace);
    lemma_back_run(s, s.len() as int);
    let a = run_end(s, 0, CharClass::Whitespace);
    let b = back_run(s, s.len() as int);
    if a < s.len() && b <= a {
        assert(spec_is_whitespace(s[a]));
    }
}

/// A trimmed text neither starts nor ends with whitespace.
pub proof fn law_trim_edges(s: Seq<char>)
    ensures
        spec_trim(s).len() > 0 ==> !spec_is_whitespace(spec_trim(s)[0]) && !spec_is_whitespace(
            spec_trim(s)[spec_trim(s).len() - 1],
        ),
        spec_trim(s).len() <= s.len(),
{
    lemma_trim_bounds(s);
    lemma_run_end(s, 0, CharClass::Whitespace);
    lemma_back_run(s, s.len() as int);
}

/// Trimming is idempotent: trimming a trimmed text changes nothing.
pub proof fn law_trim_idempotent(s: Seq<char>)
    ensures
        spec_trim(spec_trim(s)) == spec_trim(s),
{
    let t = spec_trim(s);
    law_trim_edges(s);
    if t.len() > 0 {
        lemma_run_end(t, 0, CharClass::Whitespace);
        assert(run_end(t, 0, CharClass::Whitespace) == 0);
        assert(back_run(t, t.len() as int) == t.len());
        assert(t.subrange(0, t.len() as int) =~= t);
    }
}

/// Computes `back_run`.
pub fn scan_back_whitespace(v: &Vec<char>, j: usize) -> (k: usize)
    requires
        j <= v.len(),
    ensures
        k as int == back_run(v@, j as int),
{
    let mut k = j;
    while k > 0 && is_whitespace(v[k - 1])
        invariant
            k <= j <= v.len(),
            back_run(v@, k as int) == back_run(v@, j as int),
        decreases k,
    {
        k -= 1;
    }
    k
}

/// Removes leading and trailing whitespace, as `str::trim` does.
pub fn trim(s: &str) -> (r: String)
    ensures
        r@ == spec_trim(s@),
{
    let v = chars_of(s);
    let a = scan_run(&v, 0, CharClass::Whitespace);
    if a == v.len() {
        let r = String::new();
        assert(r@ =~= spec_trim(s@));
        r
    } else {
        let b = scan_back_whitespace(&v, v.len());
        proof {
            lemma_trim_bounds(v@);
        }
        string_of(&v, a, b)
    }
}

} // verus!
