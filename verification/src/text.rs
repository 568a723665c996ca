//! Character-level text handling: whitespace trimming, searching,
//! splitting, line breaking, integer parsing and formatting.
//!
//! Strings are handled as slices of `char`; each operation is stated
//! over the `Seq<char>` view of its input.

use vstd::prelude::*;

verus! {

/// Unicode `White_Space`, the set that `char::is_whitespace` tests.
pub open spec fn is_ws(c: char) -> bool {
    ||| c == '\t'
    ||| c == '\n'
    ||| c == '\u{0B}'
    ||| c == '\u{0C}'
    ||| c == '\r'
    ||| c == ' '
    ||| c == '\u{85}'
    ||| c == '\u{A0}'
    ||| c == '\u{1680}'
    ||| ('\u{2000}' <= c && c <= '\u{200A}')
    ||| c == '\u{2028}'
    ||| c == '\u{2029}'
    ||| c == '\u{202F}'
    ||| c == '\u{205F}'
    ||| c == '\u{3000}'
}

/// `s` without its leading whitespace.
pub open spec fn trim_start(s: Seq<char>) -> Seq<char>
    decreases s.len(),
{
    if s.len() > 0 && is_ws(s[0]) {
        trim_start(s.drop_first())
    } else {
        s
    }
}

/// `s` without its trailing whitespace.
pub open spec fn trim_end(s: Seq<char>) -> Seq<char>
    decreases s.len(),
{
    if s.len() > 0 && is_ws(s.last()) {
        trim_end(s.drop_last())
    } else {
        s
    }
}

/// `s` without leading and trailing whitespace (`str::trim`).
pub open spec fn trim(s: Seq<char>) -> Seq<char> {
    trim_end(trim_start(s))
}

/// Whether `c` is whitespace.
pub fn char_is_whitespace(c: char) -> (b: bool)
    ensures
        b == is_ws(c),
{
    c == '\t' || c == '\n' || c == '\u{0B}' || c == '\u{0C}' || c == '\r' || c == ' ' || c
        == '\u{85}' || c == '\u{A0}' || c == '\u{1680}' || ('\u{2000}' <= c && c <= '\u{200A}')
        || c == '\u{2028}' || c == '\u{2029}' || c == '\u{202F}' || c == '\u{205F}' || c
        == '\u{3000}'
}

/// `s` with leading and trailing whitespace removed.
pub fn trim_chars(s: &[char]) -> (r: &[char])
    ensures
        r@ == trim(s@),
{
    let n = s.len();
    let mut lo: usize = 0;
    assert(s@.subrange(0, n as int) =~= s@);
    while lo < n && char_is_whitespace(s[lo])
        invariant
            lo <= n,
            n == s@.len(),
            trim_start(s@) == trim_start(s@.subrange(lo as int, n as int)),
        decreases n - lo,
    {
        assert(s@.subrange(lo as int, n as int).drop_first() =~= s@.subrange(lo + 1, n as int));
        lo = lo + 1;
    }
    assert(trim_start(s@.subrange(lo as int, n as int)) == s@.subrange(lo as int, n as int));
    let mut hi: usize = n;
    while hi > lo && char_is_whitespace(s[hi - 1])
        invariant
            lo <= hi <= n,
            n == s@.len(),
            trim(s@) == trim_end(s@.subrange(lo as int, hi as int)),
        decreases hi,
    {
        assert(s@.subrange(lo as int, hi as int).drop_last() =~= s@.subrange(
            lo as int,
            hi - 1,
        ));
        hi = hi - 1;
    }
    &s[lo..hi]
}

} // verus!

verus! {

/// Position of the first `c` in `s`, or -1 when `s` holds none.
pub open spec fn index_of_char(s: Seq<char>, c: char) -> int
    decreases s.len(),
{
    if s.len() == 0 {
        -1
    } else if s[0] == c {
        0
    } else {
        let r = index_of_char(s.drop_first(), c);
        if r < 0 {
            -1
        } else {
            r + 1
        }
    }
}

/// Position of the last `c` in `s`, or -1 when `s` holds none.
pub open spec fn last_index_of_char(s: Seq<char>, c: char) -> int
    decreases s.len(),
{
    if s.len() == 0 {
        -1
    } else if s.last() == c {
        s.len() - 1
    } else {
        last_index_of_char(s.drop_last(), c)
    }
}

pub proof fn lemma_index_of_char(s: Seq<char>, c: char)
    ensures
        -1 <= index_of_char(s, c) < s.len(),
        index_of_char(s, c) >= 0 ==> s[index_of_char(s, c)] == c,
        forall|j: int| 0 <= j < s.len() && (index_of_char(s, c) < 0 || j < index_of_char(s, c)) ==> s[j] != c,
    decreases s.len(),
{
    if s.len() > 0 && s[0] != c {
        lemma_index_of_char(s.drop_first(), c);
        assert forall|j: int| 0 <= j < s.len() && (index_of_char(s, c) < 0 || j < index_of_char(s, c)) implies s[j] != c by {
            if j > 0 {
                assert(s[j] == s.drop_first()[j - 1]);
            }
        }
    }
}

pub proof fn lemma_last_index_of_char(s: Seq<char>, c: char)
    ensures
        -1 <= last_index_of_char(s, c) < s.len(),
        last_index_of_char(s, c) >= 0 ==> s[last_index_of_char(s, c)] == c,
        forall|j: int| 0 <= j < s.len() && j > last_index_of_char(s, c) ==> s[j] != c,
    decreases s.len(),
{
    if s.len() > 0 && s.last() != c {
        lemma_last_index_of_char(s.drop_last(), c);
        assert forall|j: int| 0 <= j < s.len() && j > last_index_of_char(s, c) implies s[j] != c by {
            if j < s.len() - 1 {
                assert(s[j] == s.drop_last()[j]);
            }
        }
    }
}

/// `str::split_once` with a character separator.
pub open spec fn split_once_char(s: Seq<char>, c: char) -> Option<(Seq<char>, Seq<char>)> {
    let i = index_of_char(s, c);
    if i < 0 {
        None
    } else {
        Some((s.subrange(0, i), s.subrange(i + 1, s.len() as int)))
    }
}

/// `str::rsplit_once` with a character separator.
pub open spec fn rsplit_once_char(s: Seq<char>, c: char) -> Option<(Seq<char>, Seq<char>)> {
    let i = last_index_of_char(s, c);
    if i < 0 {
        None
    } else {
        Some((s.subrange(0, i), s.subrange(i + 1, s.len() as int)))
    }
}

/// Position of the first `c` in `s`.
pub fn find_char(s: &[char], c: char) -> (r: Option<usize>)
    ensures
        match r {
            Some(i) => i == index_of_char(s@, c),
            None => index_of_char(s@, c) < 0,
        },
{
    proof {
        lemma_index_of_char(s@, c);
    }
    let mut i: usize = 0;
    while i < s.len()
        invariant
            i <= s@.len(),
            forall|j: int| 0 <= j < i ==> s@[j] != c,
        decreases s@.len() - i,
    {
        if s[i] == c {
            proof {
                lemma_index_of_char(s@, c);
            }
            return Some(i);
        }
        i = i + 1;
    }
    None
}

/// Position of the last `c` in `s`.
pub fn rfind_char(s: &[char], c: char) -> (r: Option<usize>)
    ensures
        match r {
            Some(i) => i == last_index_of_char(s@, c),
            None => last_index_of_char(s@, c) < 0,
        },
{
    proof {
        lemma_last_index_of_char(s@, c);
    }
    let mut i: usize = s.len();
    while i > 0
        invariant
            i <= s@.len(),
            forall|j: int| i <= j < s@.len() ==> s@[j] != c,
        decreases i,
    {
        if s[i - 1] == c {
            proof {
                lemma_last_index_of_char(s@, c);
            }
            return Some(i - 1);
        }
        i = i - 1;
    }
    None
}

/// Whether `s` contains `c`.
pub fn contains_char(s: &[char], c: char) -> (b: bool)
    ensures
        b == s@.contains(c),
{
    proof {
        lemma_index_of_char(s@, c);
    }
    match find_char(s, c) {
        Some(i) => {
            assert(s@[i as int] == c);
            true
        },
        None => false,
    }
}

/// `s.split_once(c)`.
pub fn split_once(s: &[char], c: char) -> (r: Option<(&[char], &[char])>)
    ensures
        match r {
            Some((a, b)) => split_once_char(s@, c) == Some((a@, b@)),
            None => split_once_char(s@, c) is None,
        },
{
    proof {
        lemma_index_of_char(s@, c);
    }
    match find_char(s, c) {
        Some(i) => {
            assert(i < s.len());
            Some((&s[0..i], &s[i + 1..s.len()]))
        },
        None => None,
    }
}

/// `s.rsplit_once(c)`.
pub fn rsplit_once(s: &[char], c: char) -> (r: Option<(&[char], &[char])>)
    ensures
        match r {
            Some((a, b)) => rsplit_once_char(s@, c) == Some((a@, b@)),
            None => rsplit_once_char(s@, c) is None,
        },
{
    proof {
        lemma_last_index_of_char(s@, c);
    }
    match rfind_char(s, c) {
        Some(i) => {
            assert(i < s.len());
            Some((&s[0..i], &s[i + 1..s.len()]))
        },
        None => None,
    }
}

/// Whether `p` is a prefix of `s`.
pub open spec fn has_prefix(s: Seq<char>, p: Seq<char>) -> bool {
    p.len() <= s.len() && s.subrange(0, p.len() as int) == p
}

/// `s.starts_with(p)`.
pub fn starts_with(s: &[char], p: &[char]) -> (b: bool)
    ensures
        b == has_prefix(s@, p@),
{
    if p.len() > s.len() {
        return false;
    }
    let mut i: usize = 0;
    while i < p.len()
        invariant
            i <= p@.len() <= s@.len(),
            forall|j: int| 0 <= j < i ==> s@[j] == p@[j],
        decreases p@.len() - i,
    {
        if s[i] != p[i] {
            assert(s@.subrange(0, p@.len() as int)[i as int] != p@[i as int]);
            return false;
        }
        i = i + 1;
    }
    assert(s@.subrange(0, p@.len() as int) =~= p@);
    true
}

/// Whether `s` and `t` hold the same characters.
pub fn chars_eq(s: &[char], t: &[char]) -> (b: bool)
    ensures
        b == (s@ == t@),
{
    if s.len() != t.len() {
        return false;
    }
    let b = starts_with(s, t);
    proof {
        if b {
            assert(s@.subrange(0, t@.len() as int) =~= s@);
        } else {
            assert(s@.subrange(0, t@.len() as int) =~= s@);
        }
    }
    b
}

/// The characters of `s`.
pub fn str_to_chars(s: &str) -> (v: Vec<char>)
    ensures
        v@ == s@,
{
    let mut v: Vec<char> = Vec::new();
    for c in it: s.chars()
        invariant
            v@ == it.seq().take(it.index() as int),
    {
        v.push(c);
    }
    v
}

/// The `String` made of the characters of `s`.
#[verifier::external_body]
pub fn chars_to_string(s: &[char]) -> (r: String)
    ensures
        r@ == s@,
{
    s.iter().collect()
}

} // verus!

verus! {

/// Whether `p` occurs in `s` at position `i`.
pub open spec fn occurs_at(s: Seq<char>, p: Seq<char>, i: int) -> bool {
    0 <= i && i + p.len() <= s.len() && s.subrange(i, i + p.len()) == p
}

/// Position of the first occurrence of the non-empty pattern `p` in `s`,
/// or -1 when there is none.
pub open spec fn index_of(s: Seq<char>, p: Seq<char>) -> int
    decreases s.len(),
{
    if s.len() < p.len() || p.len() == 0 {
        -1
    } else if s.subrange(0, p.len() as int) == p {
        0
    } else {
        let r = index_of(s.drop_first(), p);
        if r < 0 {
            -1
        } else {
            r + 1
        }
    }
}

pub proof fn lemma_index_of(s: Seq<char>, p: Seq<char>)
    requires
        p.len() > 0,
    ensures
        -1 <= index_of(s, p),
        index_of(s, p) >= 0 ==> occurs_at(s, p, index_of(s, p)),
        forall|j: int|
            0 <= j && (index_of(s, p) < 0 || j < index_of(s, p)) ==> !occurs_at(s, p, j),
    decreases s.len(),
{
    if s.len() >= p.len() && s.subrange(0, p.len() as int) != p {
        let t = s.drop_first();
        lemma_index_of(t, p);
        let r = index_of(t, p);
        if r >= 0 {
            assert(t.subrange(r, r + p.len()) =~= s.subrange(r + 1, r + 1 + p.len()));
        }
        assert forall|j: int|
            0 <= j && (index_of(s, p) < 0 || j < index_of(s, p)) implies !occurs_at(s, p, j) by {
            if j > 0 && occurs_at(s, p, j) {
                assert(t.subrange(j - 1, j - 1 + p.len()) =~= s.subrange(j, j + p.len()));
                assert(occurs_at(t, p, j - 1));
            }
        }
    }
}

/// `str::split_once` with a string separator.
pub open spec fn split_once_str(s: Seq<char>, p: Seq<char>) -> Option<(Seq<char>, Seq<char>)> {
    let i = index_of(s, p);
    if i < 0 {
        None
    } else {
        Some((s.subrange(0, i), s.subrange(i + p.len(), s.len() as int)))
    }
}

/// Whether `p` occurs in `s` at `i`.
fn matches_at(s: &[char], p: &[char], i: usize) -> (b: bool)
    requires
        i <= s@.len(),
    ensures
        b == occurs_at(s@, p@, i as int),
{
    if p.len() > s.len() - i {
        return false;
    }
    let mut k: usize = 0;
    while k < p.len()
        invariant
            i + p@.len() <= s@.len(),
            s@.len() == s.len(),
            k <= p@.len(),
            forall|j: int| 0 <= j < k ==> s@[i + j] == p@[j],
        decreases p@.len() - k,
    {
        if s[i + k] != p[k] {
            assert(s@.subrange(i as int, i + p@.len())[k as int] != p@[k as int]);
            return false;
        }
        k = k + 1;
    }
    assert(s@.subrange(i as int, i + p@.len()) =~= p@);
    true
}

/// Position of the first occurrence of `p` in `s`.
pub fn find_str(s: &[char], p: &[char]) -> (r: Option<usize>)
    requires
        p@.len() > 0,
    ensures
        match r {
            Some(i) => i == index_of(s@, p@),
            None => index_of(s@, p@) < 0,
        },
{
    let mut i: usize = 0;
    while i < s.len()
        invariant
            i <= s@.len(),
            p@.len() > 0,
            forall|j: int| 0 <= j < i ==> !occurs_at(s@, p@, j),
        decreases s@.len() - i,
    {
        if matches_at(s, p, i) {
            proof {
                lemma_index_of(s@, p@);
            }
            return Some(i);
        }
        i = i + 1;
    }
    proof {
        lemma_index_of(s@, p@);
        if index_of(s@, p@) >= 0 {
            assert(!occurs_at(s@, p@, index_of(s@, p@)));
        }
    }
    None
}

/// `s.split_once(p)` with a string separator.
pub fn split_once_pat<'a>(s: &'a [char], p: &[char]) -> (r: Option<(&'a [char], &'a [char])>)
    requires
        p@.len() > 0,
    ensures
        match r {
            Some((a, b)) => split_once_str(s@, p@) == Some((a@, b@)),
            None => split_once_str(s@, p@) is None,
        },
{
    proof {
        lemma_index_of(s@, p@);
    }
    match find_str(s, p) {
        Some(i) => {
            assert(i + p.len() <= s.len());
            Some((&s[0..i], &s[i + p.len()..s.len()]))
        },
        None => None,
    }
}

/// A line as `str::lines` yields it: without one trailing carriage return.
pub open spec fn line_content(l: Seq<char>) -> Seq<char> {
    if l.len() > 0 && l.last() == '\r' {
        l.drop_last()
    } else {
        l
    }
}

/// `str::lines`: the pieces between line feeds, each without a final
/// carriage return, with no empty piece after a final line feed.
pub open spec fn lines(s: Seq<char>) -> Seq<Seq<char>>
    decreases s.len(),
{
    if s.len() == 0 {
        seq![]
    } else {
        let i = index_of_char(s, '\n');
        if i < 0 {
            seq![s]
        } else {
            proof {
                lemma_index_of_char(s, '\n');
            }
            seq![line_content(s.subrange(0, i))] + lines(s.subrange(i + 1, s.len() as int))
        }
    }
}

/// `str::split` with a character separator.
pub open spec fn split_char(s: Seq<char>, c: char) -> Seq<Seq<char>>
    decreases s.len(),
{
    let i = index_of_char(s, c);
    if i < 0 {
        seq![s]
    } else {
        proof {
            lemma_index_of_char(s, c);
        }
        seq![s.subrange(0, i)] + split_char(s.subrange(i + 1, s.len() as int), c)
    }
}

/// The first line of the non-empty `s` and the start of the text after it:
/// `lines(s)` is that line followed by the lines of the rest.
pub fn first_line(s: &[char]) -> (r: (&[char], &[char]))
    requires
        s@.len() > 0,
    ensures
        lines(s@) == seq![r.0@] + lines(r.1@),
        r.1@.len() < s@.len(),
{
    proof {
        lemma_index_of_char(s@, '\n');
    }
    match find_char(s, '\n') {
        Some(i) => {
            assert(i < s.len());
            let mut line = &s[0..i];
            if line.len() > 0 && line[line.len() - 1] == '\r' {
                line = &s[0..i - 1];
                assert(line@ =~= s@.subrange(0, i as int).drop_last());
            }
            (line, &s[i + 1..s.len()])
        },
        None => {
            let empty: &[char] = &s[s.len()..s.len()];
            assert(lines(empty@) =~= Seq::<Seq<char>>::empty());
            assert(seq![s@] + lines(empty@) =~= seq![s@]);
            (s, empty)
        },
    }
}

} // verus!

verus! {

/// The value of `c` as a digit, `radix` or more when it is none
/// (`char::to_digit`, for radix 10 and 16).
pub open spec fn digit_val(c: char, radix: int) -> int {
    if '0' <= c && c <= '9' {
        (c as int) - ('0' as int)
    } else if 'a' <= c && c <= 'z' {
        (c as int) - ('a' as int) + 10
    } else if 'A' <= c && c <= 'Z' {
        (c as int) - ('A' as int) + 10
    } else {
        radix
    }
}

/// Whether every character of `d` is a digit in `radix`.
pub open spec fn all_digits(d: Seq<char>, radix: int) -> bool {
    forall|i: int| 0 <= i < d.len() ==> #[trigger] digit_val(d[i], radix) < radix
}

/// The number that the digits `d` spell in `radix`.
pub open spec fn digits_value(d: Seq<char>, radix: int) -> int
    decreases d.len(),
{
    if d.len() == 0 {
        0
    } else {
        digits_value(d.drop_last(), radix) * radix + digit_val(d.last(), radix)
    }
}

/// `from_str_radix` for an unsigned type whose largest value is `max`:
/// an optional `+`, then at least one digit, and a value of at most `max`.
pub open spec fn parse_unsigned(s: Seq<char>, radix: int, max: int) -> Option<int> {
    let d = if s.len() > 0 && s[0] == '+' {
        s.drop_first()
    } else {
        s
    };
    if d.len() > 0 && all_digits(d, radix) && digits_value(d, radix) <= max {
        Some(digits_value(d, radix))
    } else {
        None
    }
}

proof fn lemma_digits_value_nonneg(d: Seq<char>, radix: int)
    requires
        radix == 10 || radix == 16,
        all_digits(d, radix),
    ensures
        digits_value(d, radix) >= 0,
    decreases d.len(),
{
    if d.len() > 0 {
        assert(digit_val(d[d.len() - 1], radix) < radix);
        assert(all_digits(d.drop_last(), radix)) by {
            assert forall|i: int| 0 <= i < d.drop_last().len() implies #[trigger] digit_val(
                d.drop_last()[i],
                radix,
            ) < radix by {
                assert(d.drop_last()[i] == d[i]);
            }
        }
        lemma_digits_value_nonneg(d.drop_last(), radix);
    }
}

fn digit_of(c: char, radix: u32) -> (r: u32)
    requires
        radix == 10 || radix == 16,
    ensures
        r == (if digit_val(c, radix as int) < radix { digit_val(c, radix as int) } else {
            radix as int
        }),
{
    if '0' <= c && c <= '9' {
        let v = (c as u32) - ('0' as u32);
        if v < radix { v } else { radix }
    } else if 'a' <= c && c <= 'z' {
        let v = (c as u32) - ('a' as u32) + 10;
        if v < radix { v } else { radix }
    } else if 'A' <= c && c <= 'Z' {
        let v = (c as u32) - ('A' as u32) + 10;
        if v < radix { v } else { radix }
    } else {
        radix
    }
}

/// `from_str_radix(s, radix)` into an unsigned type whose largest value is `max`.
pub fn parse_radix(s: &[char], radix: u32, max: u32) -> (r: Option<u32>)
    requires
        radix == 10 || radix == 16,
        max <= 0xFFFF,
    ensures
        match r {
            Some(v) => parse_unsigned(s@, radix as int, max as int) == Some(v as int),
            None => parse_unsigned(s@, radix as int, max as int) is None,
        },
{
    let d: &[char] = if s.len() > 0 && s[0] == '+' {
        &s[1..s.len()]
    } else {
        s
    };
    assert(s@.len() > 0 && s@[0] == '+' ==> d@ =~= s@.drop_first());
    let ghost stripped = if s@.len() > 0 && s@[0] == '+' {
        s@.drop_first()
    } else {
        s@
    };
    assert(d@ == stripped);
    if d.len() == 0 {
        return None;
    }
    let mut acc: u32 = 0;
    let mut over = false;
    let mut i: usize = 0;
    while i < d.len()
        invariant
            radix == 10 || radix == 16,
            max <= 0xFFFF,
            d@ == stripped,
            stripped == (if s@.len() > 0 && s@[0] == '+' {
                s@.drop_first()
            } else {
                s@
            }),
            i <= d@.len(),
            all_digits(d@.subrange(0, i as int), radix as int),
            over == (digits_value(d@.subrange(0, i as int), radix as int) > max),
            !over ==> acc == digits_value(d@.subrange(0, i as int), radix as int),
        decreases d@.len() - i,
    {
        let dv = digit_of(d[i], radix);
        if dv >= radix {
            assert(!all_digits(d@, radix as int)) by {
                assert(digit_val(d@[i as int], radix as int) >= radix);
            }
            return None;
        }
        proof {
            let pre = d@.subrange(0, i as int);
            let nxt = d@.subrange(0, i + 1);
            assert(nxt.drop_last() =~= pre);
            assert(nxt.last() == d@[i as int]);
            lemma_digits_value_nonneg(pre, radix as int);
            assert(all_digits(nxt, radix as int)) by {
                assert forall|k: int| 0 <= k < nxt.len() implies #[trigger] digit_val(
                    nxt[k],
                    radix as int,
                ) < radix by {
                    if k < i {
                        assert(nxt[k] == pre[k]);
                    }
                }
            }
        }
        if !over {
            let next = acc * radix + dv;
            if next > max {
                over = true;
            } else {
                acc = next;
            }
        }
        i = i + 1;
    }
    assert(d@.subrange(0, d@.len() as int) =~= d@);
    if over {
        None
    } else {
        Some(acc)
    }
}

/// The lower-case hexadecimal digit for `v` (`v < 16`).
pub open spec fn hex_char(v: int) -> char {
    if v < 10 {
        ((v + ('0' as int)) as u32) as char
    } else {
        ((v - 10 + ('a' as int)) as u32) as char
    }
}

/// `format!("{:04x}", v)` for a `u16`: exactly four lower-case hex digits.
pub open spec fn hex4(v: u16) -> Seq<char> {
    seq![
        hex_char((v as int / 4096) % 16),
        hex_char((v as int / 256) % 16),
        hex_char((v as int / 16) % 16),
        hex_char(v as int % 16),
    ]
}

fn hex_digit_char(v: u16) -> (c: char)
    requires
        v < 16,
    ensures
        c == hex_char(v as int),
{
    if v < 10 {
        ((v as u8) + 48u8) as char
    } else {
        ((v as u8) - 10 + 97u8) as char
    }
}

/// `format!("{:04x}", v)`.
pub fn format_hex4(v: u16) -> (r: Vec<char>)
    ensures
        r@ == hex4(v),
{
    let mut r: Vec<char> = Vec::new();
    r.push(hex_digit_char((v / 4096) % 16));
    r.push(hex_digit_char((v / 256) % 16));
    r.push(hex_digit_char((v / 16) % 16));
    r.push(hex_digit_char(v % 16));
    assert(r@ =~= hex4(v));
    r
}

/// The decimal digit character for `d` (`d < 10`).
pub open spec fn dec_char(d: int) -> char {
    ((d + ('0' as int)) as u32) as char
}

/// `format!("{}", n)` for an unsigned integer: its decimal digits, no sign,
/// no leading zeros.
pub open spec fn dec_digits(n: nat) -> Seq<char>
    decreases n,
{
    if n < 10 {
        seq![dec_char(n as int)]
    } else {
        dec_digits(n / 10).push(dec_char((n % 10) as int))
    }
}

/// `n.to_string()` for a `u64`, as characters.
pub fn format_dec(n: u64) -> (r: Vec<char>)
    ensures
        r@ == dec_digits(n as nat),
{
    // digits collected from the least significant one
    let mut rev: Vec<char> = Vec::new();
    let mut m: u64 = n;
    while m >= 10
        invariant
            dec_digits(n as nat) == dec_digits(m as nat) + rev@.reverse(),
        decreases m,
    {
        let c = (((m % 10) as u8) + 48u8) as char;
        let ghost before = rev@;
        rev.push(c);
        proof {
            assert(dec_digits(m as nat) == dec_digits((m / 10) as nat).push(c));
            assert(rev@.reverse() =~= seq![c] + before.reverse());
            assert(dec_digits(m as nat) + before.reverse() =~= dec_digits((m / 10) as nat)
                + rev@.reverse());
        }
        m = m / 10;
    }
    let c = ((m as u8) + 48u8) as char;
    let ghost before = rev@;
    rev.push(c);
    proof {
        assert(dec_digits(m as nat) =~= seq![c]);
        assert(rev@.reverse() =~= seq![c] + before.reverse());
    }
    let mut r: Vec<char> = Vec::new();
    let mut i: usize = rev.len();
    while i > 0
        invariant
            i <= rev@.len(),
            r@ =~= rev@.reverse().subrange(0, (rev@.len() - i) as int),
        decreases i,
    {
        i = i - 1;
        r.push(rev[i]);
    }
    assert(r@ =~= rev@.reverse());
    r
}

} // verus!
