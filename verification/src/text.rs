//! Text helpers over characters: building strings, the decimal rendering of
//! integers, trimming, and splitting into lines and fields, each with the
//! meaning that std gives the function of the same name.

use vstd::prelude::*;
use vstd::string::StringExecFns;

verus! {

/// Calls `String::push`: appends one character.
#[verifier::external_body]
pub(crate) fn push_char(s: &mut String, c: char)
    ensures
        final(s)@ == old(s)@.push(c),
{
    s.push(c);
}

/// Appends a string.
pub fn push_str(s: &mut String, t: &str)
    ensures
        final(s)@ == old(s)@ + t@,
{
    s.append(t);
}

/// The characters of a string.
pub fn chars_of(s: &str) -> (v: Vec<char>)
    ensures
        v@ == s@,
{
    let mut v: Vec<char> = Vec::new();
    for c in it: s.chars()
        invariant
            v@ == it.seq().take(it.index()),
            it.seq() == s@,
    {
        v.push(c);
    }
    v
}


/// A string with these characters.
pub fn string_from_chars(v: &Vec<char>) -> (s: String)
    ensures
        s@ == v@,
{
    let mut s = String::new();
    let mut i: usize = 0;
    while i < v.len()
        invariant
            i <= v@.len(),
            s@ == v@.take(i as int),
        decreases v@.len() - i,
    {
        push_char(&mut s, v[i]);
        assert(v@.take(i as int).push(v@[i as int]) =~= v@.take(i + 1));
        i = i + 1;
    }
    assert(v@.take(v@.len() as int) =~= v@);
    s
}

/// The character of a decimal digit.
pub open spec fn digit_char(d: nat) -> char {
    if d == 0 { '0' } else if d == 1 { '1' } else if d == 2 { '2' } else if d == 3 { '3' }
    else if d == 4 { '4' } else if d == 5 { '5' } else if d == 6 { '6' } else if d == 7 { '7' }
    else if d == 8 { '8' } else { '9' }
}

/// The decimal rendering of a natural number, as `Display` writes it.
pub open spec fn decimal(n: nat) -> Seq<char>
    decreases n,
{
    if n < 10 {
        seq![digit_char(n)]
    } else {
        decimal(n / 10).push(digit_char(n % 10))
    }
}

fn digit_to_char(d: u64) -> (c: char)
    requires
        d < 10,
    ensures
        c == digit_char(d as nat),
{
    if d == 0 { '0' } else if d == 1 { '1' } else if d == 2 { '2' } else if d == 3 { '3' }
    else if d == 4 { '4' } else if d == 5 { '5' } else if d == 6 { '6' } else if d == 7 { '7' }
    else if d == 8 { '8' } else { '9' }
}

/// Appends the decimal rendering of `n`.
pub fn push_decimal(s: &mut String, n: u64)
    ensures
        final(s)@ == old(s)@ + decimal(n as nat),
    decreases n,
{
    if n >= 10 {
        push_decimal(s, n / 10);
    }
    push_char(s, digit_to_char(n % 10));
    proof {
        if n >= 10 {
            assert(old(s)@ + decimal(n as nat) =~= old(s)@ + decimal((n / 10) as nat) + seq![digit_char((n % 10) as nat)]);
        } else {
            assert(decimal(n as nat) =~= seq![digit_char(n as nat)]);
        }
    }
}

/// The decimal rendering of `n`, as `n.to_string()` gives it.
pub fn u64_to_decimal(n: u64) -> (s: String)
    ensures
        s@ == decimal(n as nat),
{
    let mut s = String::new();
    push_decimal(&mut s, n);
    assert(Seq::<char>::empty() + decimal(n as nat) =~= decimal(n as nat));
    s
}

/// Whether `char::is_whitespace` holds: the Unicode `White_Space` characters.
pub open spec fn is_ws(c: char) -> bool {
    ||| ('\u{9}' <= c && c <= '\u{d}')
    ||| c == ' '
    ||| c == '\u{85}'
    ||| c == '\u{a0}'
    ||| c == '\u{1680}'
    ||| ('\u{2000}' <= c && c <= '\u{200a}')
    ||| c == '\u{2028}'
    ||| c == '\u{2029}'
    ||| c == '\u{202f}'
    ||| c == '\u{205f}'
    ||| c == '\u{3000}'
}

pub fn is_whitespace(c: char) -> (b: bool)
    ensures
        b == is_ws(c),
{
    ('\u{9}' <= c && c <= '\u{d}') || c == ' ' || c == '\u{85}' || c == '\u{a0}' || c == '\u{1680}'
        || ('\u{2000}' <= c && c <= '\u{200a}') || c == '\u{2028}' || c == '\u{2029}'
        || c == '\u{202f}' || c == '\u{205f}' || c == '\u{3000}'
}

/// Drops leading whitespace.
pub open spec fn trim_start(s: Seq<char>) -> Seq<char>
    decreases s.len(),
{
    if s.len() > 0 && is_ws(s[0]) {
        trim_start(s.drop_first())
    } else {
        s
    }
}

/// Drops trailing whitespace.
pub open spec fn trim_end(s: Seq<char>) -> Seq<char>
    decreases s.len(),
{
    if s.len() > 0 && is_ws(s.last()) {
        trim_end(s.drop_last())
    } else {
        s
    }
}

/// `str::trim`: drops leading and trailing whitespace.
pub open spec fn trim(s: Seq<char>) -> Seq<char> {
    trim_end(trim_start(s))
}

proof fn lemma_trim_start_skip(s: Seq<char>, i: int)
    requires
        0 <= i <= s.len(),
        forall|j: int| 0 <= j < i ==> is_ws(#[trigger] s[j]),
    ensures
        trim_start(s) == trim_start(s.subrange(i, s.len() as int)),
    decreases i,
{
    if i > 0 {
        assert(s.drop_first() =~= s.subrange(1, s.len() as int));
        lemma_trim_start_skip(s.drop_first(), i - 1);
        assert(s.drop_first().subrange(i - 1, s.drop_first().len() as int) =~= s.subrange(i, s.len() as int));
    } else {
        assert(s.subrange(0, s.len() as int) =~= s);
    }
}

proof fn lemma_trim_end_skip(s: Seq<char>, k: int)
    requires
        0 <= k <= s.len(),
        forall|j: int| k <= j < s.len() ==> is_ws(#[trigger] s[j]),
    ensures
        trim_end(s) == trim_end(s.subrange(0, k)),
    decreases s.len() - k,
{
    if k < s.len() {
        assert(s.drop_last() =~= s.subrange(0, s.len() - 1));
        lemma_trim_end_skip(s.drop_last(), k);
        assert(s.drop_last().subrange(0, k) =~= s.subrange(0, k));
    } else {
        assert(s.subrange(0, s.len() as int) =~= s);
    }
}

/// The characters of `s` between `from` and `to`.
pub fn slice_chars(s: &Vec<char>, from: usize, to: usize) -> (r: Vec<char>)
    requires
        from <= to <= s@.len(),
    ensures
        r@ == s@.subrange(from as int, to as int),
{
    let mut r: Vec<char> = Vec::new();
    let mut i: usize = from;
    while i < to
        invariant
            from <= i <= to <= s@.len(),
            r@ == s@.subrange(from as int, i as int),
        decreases to - i,
    {
        r.push(s[i]);
        assert(s@.subrange(from as int, i as int).push(s@[i as int]) =~= s@.subrange(from as int, i + 1));
        i = i + 1;
    }
    r
}

/// `str::trim` over characters.
pub fn trim_chars(s: &Vec<char>) -> (r: Vec<char>)
    ensures
        r@ == trim(s@),
{
    let n = s.len();
    let mut i: usize = 0;
    while i < n && is_whitespace(s[i])
        invariant
            i <= n == s@.len(),
            forall|j: int| 0 <= j < i ==> is_ws(#[trigger] s@[j]),
        decreases n - i,
    {
        i = i + 1;
    }
    proof {
        lemma_trim_start_skip(s@, i as int);
    }
    let ghost rest = s@.subrange(i as int, n as int);
    assert(trim_start(rest) == rest);
    let mut k: usize = n;
    while k > i && is_whitespace(s[k - 1])
        invariant
            i <= k <= n == s@.len(),
            forall|j: int| k <= j < n ==> is_ws(#[trigger] s@[j]),
        decreases k,
    {
        k = k - 1;
    }
    proof {
        let off = i as int;
        assert forall|j: int| (k - off) <= j < rest.len() implies is_ws(#[trigger] rest[j]) by {
            assert(rest[j] == s@[j + off]);
        }
        lemma_trim_end_skip(rest, k - off);
        assert(rest.subrange(0, k - off) =~= s@.subrange(off, k as int));
        if k > i {
            assert(!is_ws(s@[k - 1]));
        }
        assert(trim_end(s@.subrange(off, k as int)) == s@.subrange(off, k as int));
    }
    slice_chars(s, i, k)
}


/// The index of the first `c` in `s`, or the length of `s` where there is none.
pub open spec fn first_index(s: Seq<char>, c: char) -> int
    decreases s.len(),
{
    if s.len() == 0 {
        0
    } else if s[0] == c {
        0
    } else {
        1 + first_index(s.drop_first(), c)
    }
}

pub proof fn lemma_first_index(s: Seq<char>, c: char)
    ensures
        0 <= first_index(s, c) <= s.len(),
        forall|j: int| 0 <= j < first_index(s, c) ==> s[j] != c,
        first_index(s, c) < s.len() ==> s[first_index(s, c)] == c,
    decreases s.len(),
{
    if s.len() > 0 && s[0] != c {
        lemma_first_index(s.drop_first(), c);
        assert forall|j: int| 0 <= j < first_index(s, c) implies s[j] != c by {
            if j > 0 {
                assert(s[j] == s.drop_first()[j - 1]);
            }
        }
    }
}

/// Characteristic of `first_index`: the first position holding `c`.
pub proof fn lemma_first_index_unique(s: Seq<char>, c: char, k: int)
    requires
        0 <= k <= s.len(),
        forall|j: int| 0 <= j < k ==> s[j] != c,
        k < s.len() ==> s[k] == c,
    ensures
        first_index(s, c) == k,
    decreases s.len(),
{
    if s.len() > 0 && k > 0 {
        assert forall|j: int| 0 <= j < k - 1 implies s.drop_first()[j] != c by {
            assert(s.drop_first()[j] == s[j + 1]);
        }
        lemma_first_index_unique(s.drop_first(), c, k - 1);
    }
}

/// A line without its carriage return, as `str::lines` strips it before a
/// line feed.
pub open spec fn strip_cr(l: Seq<char>) -> Seq<char> {
    if l.len() > 0 && l.last() == '\r' {
        l.drop_last()
    } else {
        l
    }
}

/// `str::lines`: the text split at line feeds, each line that ends in a line
/// feed without a carriage return before it; a final line feed starts no
/// further line.
pub open spec fn lines(s: Seq<char>) -> Seq<Seq<char>>
    decreases s.len(),
{
    if s.len() == 0 {
        seq![]
    } else {
        let k = first_index(s, '\n');
        if k >= s.len() || k < 0 {
            seq![s]
        } else {
            seq![strip_cr(s.subrange(0, k))] + lines(s.subrange(k + 1, s.len() as int))
        }
    }
}

/// `str::split` on a character: the pieces between the separators, empty
/// ones included.
pub open spec fn split(s: Seq<char>, c: char) -> Seq<Seq<char>>
    decreases s.len(),
{
    let k = first_index(s, c);
    if k >= s.len() || k < 0 {
        seq![s]
    } else {
        seq![s.subrange(0, k)] + split(s.subrange(k + 1, s.len() as int), c)
    }
}

/// The position of the first `c` at or after `from`, or the length.
pub fn find_char_from(s: &Vec<char>, c: char, from: usize) -> (k: usize)
    requires
        from <= s@.len(),
    ensures
        from <= k <= s@.len(),
        k - from == first_index(s@.subrange(from as int, s@.len() as int), c),
{
    let mut k: usize = from;
    while k < s.len() && s[k] != c
        invariant
            from <= k <= s@.len(),
            forall|j: int| from <= j < k ==> s@[j] != c,
        decreases s@.len() - k,
    {
        k = k + 1;
    }
    proof {
        let t = s@.subrange(from as int, s@.len() as int);
        assert forall|j: int| 0 <= j < k - from implies t[j] != c by {
            assert(t[j] == s@[j + from]);
        }
        if k < s@.len() {
            assert(t[k - from] == s@[k as int]);
        }
        lemma_first_index_unique(t, c, k - from);
    }
    k
}

/// `str::lines` over characters.
pub fn lines_of(s: &Vec<char>) -> (ls: Vec<Vec<char>>)
    ensures
        ls@.map_values(|l: Vec<char>| l@) == lines(s@),
{
    let n = s.len();
    let mut ls: Vec<Vec<char>> = Vec::new();
    let mut start: usize = 0;
    assert(s@.subrange(0, n as int) =~= s@);
    assert(ls@.map_values(|l: Vec<char>| l@) + lines(s@) =~= lines(s@));
    while start < n
        invariant
            start <= n == s@.len(),
            ls@.map_values(|l: Vec<char>| l@) + lines(s@.subrange(start as int, n as int)) == lines(s@),
        decreases n - start,
    {
        let ghost rest = s@.subrange(start as int, n as int);
        let ghost before = ls@.map_values(|l: Vec<char>| l@);
        let k = find_char_from(s, '\n', start);
        proof {
            lemma_first_index(rest, '\n');
        }
        if k == n {
            ls.push(slice_chars(s, start, n));
            assert(lines(rest) == seq![rest]);
            assert(ls@.map_values(|l: Vec<char>| l@) =~= before + seq![rest]);
            assert(lines(s@.subrange(n as int, n as int)) =~= Seq::<Seq<char>>::empty());
            assert(before + seq![rest] =~= before + seq![rest] + Seq::<Seq<char>>::empty());
            start = n;
        } else {
            let mut line = slice_chars(s, start, k);
            if line.len() > 0 && line[line.len() - 1] == '\r' {
                line.pop();
            }
            proof {
                let kk = k - start;
                assert(rest.subrange(0, kk) =~= s@.subrange(start as int, k as int));
                assert(rest.subrange(kk + 1, rest.len() as int) =~= s@.subrange(k + 1, n as int));
                assert(line@ == strip_cr(rest.subrange(0, kk)));
            }
            ls.push(line);
            assert(ls@.map_values(|l: Vec<char>| l@) =~= before + seq![strip_cr(rest.subrange(0, (k - start) as int))]);
            start = k + 1;
        }
    }
    assert(lines(s@.subrange(n as int, n as int)) =~= Seq::<Seq<char>>::empty());
    assert(ls@.map_values(|l: Vec<char>| l@) =~= ls@.map_values(|l: Vec<char>| l@) + Seq::<Seq<char>>::empty());
    ls
}

/// `str::split` on a character, over characters.
pub fn split_of(s: &Vec<char>, c: char) -> (ps: Vec<Vec<char>>)
    ensures
        ps@.map_values(|l: Vec<char>| l@) == split(s@, c),
{
    let n = s.len();
    let mut ps: Vec<Vec<char>> = Vec::new();
    let mut start: usize = 0;
    assert(s@.subrange(0, n as int) =~= s@);
    assert(ps@.map_values(|l: Vec<char>| l@) + split(s@, c) =~= split(s@, c));
    loop
        invariant_except_break
            ps@.map_values(|l: Vec<char>| l@) + split(s@.subrange(start as int, n as int), c) == split(s@, c),
        invariant
            start <= n == s@.len(),
        ensures
            ps@.map_values(|l: Vec<char>| l@) == split(s@, c),
        decreases n - start,
    {
        let ghost rest = s@.subrange(start as int, n as int);
        let ghost before = ps@.map_values(|l: Vec<char>| l@);
        let k = find_char_from(s, c, start);
        proof {
            lemma_first_index(rest, c);
        }
        ps.push(slice_chars(s, start, k));
        if k == n {
            assert(split(rest, c) == seq![rest]);
            assert(ps@.map_values(|l: Vec<char>| l@) =~= before + seq![rest]);
            break;
        }
        proof {
            let kk = k - start;
            assert(rest.subrange(0, kk) =~= s@.subrange(start as int, k as int));
            assert(rest.subrange(kk + 1, rest.len() as int) =~= s@.subrange(k + 1, n as int));
        }
        assert(ps@.map_values(|l: Vec<char>| l@) =~= before + seq![rest.subrange(0, (k - start) as int)]);
        start = k + 1;
    }
    ps
}

/// Whether `s` begins with `p`.
pub open spec fn starts_with(s: Seq<char>, p: Seq<char>) -> bool {
    p.len() <= s.len() && s.subrange(0, p.len() as int) == p
}

pub fn starts_with_chars(s: &Vec<char>, p: &Vec<char>) -> (b: bool)
    ensures
        b == starts_with(s@, p@),
{
    if p.len() > s.len() {
        return false;
    }
    let mut i: usize = 0;
    while i < p.len()
        invariant
            p@.len() <= s@.len(),
            i <= p@.len(),
            forall|j: int| 0 <= j < i ==> s@[j] == p@[j],
        decreases p@.len() - i,
    {
        if s[i] != p[i] {
            assert(s@.subrange(0, p@.len() as int)[i as int] != p@[i as int]);
            return false;
        }
        i = i + 1;
    }
    assert(s@.subrange(0, p@.len() as int) =~= p@);
    true
}


/// Whether a character is an ASCII decimal digit.
pub open spec fn is_digit(c: char) -> bool {
    '0' <= c && c <= '9'
}

/// The value of a digit character.
pub open spec fn digit_value(c: char) -> int {
    (c as int) - ('0' as int)
}

/// The value of a string of decimal digits.
pub open spec fn digits_value(s: Seq<char>) -> int
    decreases s.len(),
{
    if s.len() == 0 {
        0
    } else {
        digits_value(s.drop_last()) * 10 + digit_value(s.last())
    }
}

/// The digits that `u32::from_str` reads: the text after an optional `+`.
pub open spec fn unsigned_body(s: Seq<char>) -> Seq<char> {
    if s.len() > 0 && s[0] == '+' {
        s.drop_first()
    } else {
        s
    }
}

/// `u32::from_str`: an optional `+` and then one or more decimal digits
/// whose value fits in a `u32`.
pub open spec fn parse_u32(s: Seq<char>) -> Option<u32> {
    let body = unsigned_body(s);
    if body.len() > 0 && (forall|i: int| 0 <= i < body.len() ==> is_digit(#[trigger] body[i]))
        && digits_value(body) <= u32::MAX {
        Some(digits_value(body) as u32)
    } else {
        None
    }
}

proof fn lemma_digits_value_nonneg(s: Seq<char>)
    requires
        forall|i: int| 0 <= i < s.len() ==> is_digit(#[trigger] s[i]),
    ensures
        digits_value(s) >= 0,
    decreases s.len(),
{
    if s.len() > 0 {
        assert forall|i: int| 0 <= i < s.drop_last().len() implies is_digit(#[trigger] s.drop_last()[i]) by {
            assert(s.drop_last()[i] == s[i]);
        }
        lemma_digits_value_nonneg(s.drop_last());
    }
}

/// `u32::from_str` over characters.
pub fn parse_u32_chars(s: &Vec<char>) -> (r: Option<u32>)
    ensures
        r == parse_u32(s@),
{
    let n = s.len();
    let start: usize = if n > 0 && s[0] == '+' { 1 } else { 0 };
    let ghost body = unsigned_body(s@);
    assert(body =~= s@.subrange(start as int, n as int));
    if start >= n {
        return None;
    }
    let cap: u64 = 4294967296;
    let mut acc: u64 = 0;
    let mut i: usize = start;
    while i < n
        invariant
            start <= i <= n == s@.len(),
            body == unsigned_body(s@),
            body == s@.subrange(start as int, n as int),
            forall|j: int| start <= j < i ==> is_digit(#[trigger] s@[j]),
            cap == 4294967296,
            acc <= cap,
            acc == if digits_value(s@.subrange(start as int, i as int)) < cap {
                digits_value(s@.subrange(start as int, i as int))
            } else {
                cap as int
            },
            digits_value(s@.subrange(start as int, i as int)) >= 0,
        decreases n - i,
    {
        let c = s[i];
        if !('0' <= c && c <= '9') {
            assert(body[i - start] == c);
            assert(!is_digit(body[i - start]));
            return None;
        }
        let d: u64 = (c as u64) - ('0' as u64);
        let ghost prev = s@.subrange(start as int, i as int);
        let ghost next = s@.subrange(start as int, i + 1);
        assert(next.drop_last() =~= prev);
        assert(next.last() == c);
        assert(digits_value(next) == digits_value(prev) * 10 + digit_value(c));
        assert(0 <= digit_value(c) <= 9);
        assert(d as int == digit_value(c));
        if acc >= 429496730 {
            assert(digits_value(next) >= cap);
            acc = cap;
        } else {
            assert(acc == digits_value(prev));
            let v = acc * 10 + d;
            assert(v == digits_value(next));
            acc = if v < cap { v } else { cap };
        }
        i = i + 1;
    }
    assert(s@.subrange(start as int, n as int) == body);
    assert forall|j: int| 0 <= j < body.len() implies is_digit(#[trigger] body[j]) by {
        assert(body[j] == s@[j + start]);
    }
    if acc < cap {
        Some(acc as u32)
    } else {
        None
    }
}

/// Whether `p` occurs in `s` at position `i`.
pub open spec fn occurs_at(s: Seq<char>, p: Seq<char>, i: int) -> bool {
    0 <= i && i + p.len() <= s.len() && s.subrange(i, i + p.len()) == p
}

/// The position of the first occurrence of `p` in `s`, or -1 where it does not occur.
pub open spec fn first_occurrence(s: Seq<char>, p: Seq<char>) -> int
    decreases s.len(),
{
    if s.len() < p.len() {
        -1
    } else if occurs_at(s, p, 0) {
        0
    } else if s.len() == 0 {
        -1
    } else {
        let r = first_occurrence(s.drop_first(), p);
        if r < 0 { -1 } else { r + 1 }
    }
}

proof fn lemma_occurs_shift(s: Seq<char>, p: Seq<char>, j: int)
    requires
        s.len() > 0,
        0 <= j,
    ensures
        occurs_at(s.drop_first(), p, j) == occurs_at(s, p, j + 1),
{
    if j + 1 + p.len() <= s.len() {
        assert(s.drop_first().subrange(j, j + p.len()) =~= s.subrange(j + 1, j + 1 + p.len()));
    }
}

proof fn lemma_first_occurrence_unique(s: Seq<char>, p: Seq<char>, k: int)
    requires
        -1 <= k,
        k >= 0 ==> occurs_at(s, p, k),
        forall|j: int| 0 <= j && (k < 0 || j < k) ==> !occurs_at(s, p, j),
    ensures
        first_occurrence(s, p) == k,
    decreases s.len(),
{
    if s.len() < p.len() {
    } else if occurs_at(s, p, 0) {
    } else if s.len() == 0 {
        if p.len() == 0 {
            assert(occurs_at(s, p, 0)) by {
                assert(s.subrange(0, 0) =~= p);
            }
        }
    } else {
        let k2 = if k < 0 { -1 } else { k - 1 };
        assert forall|j: int| 0 <= j && (k2 < 0 || j < k2) implies !occurs_at(s.drop_first(), p, j) by {
            lemma_occurs_shift(s, p, j);
        }
        if k >= 0 {
            lemma_occurs_shift(s, p, k - 1);
        }
        lemma_first_occurrence_unique(s.drop_first(), p, k2);
    }
}

/// Whether `p` occurs in `s` at position `i`, computed.
pub fn occurs_at_exec(s: &Vec<char>, p: &Vec<char>, i: usize) -> (b: bool)
    ensures
        b == occurs_at(s@, p@, i as int),
{
    let sl = s.len();
    if i > sl || p.len() > sl - i {
        return false;
    }
    let mut j: usize = 0;
    while j < p.len()
        invariant
            sl == s@.len(),
            i <= s@.len(),
            i + p@.len() <= sl,
            j <= p@.len(),
            forall|t: int| 0 <= t < j ==> s@[i + t] == p@[t],
        decreases p@.len() - j,
    {
        assert(i + j < s@.len());
        if s[i + j] != p[j] {
            assert(s@.subrange(i as int, i + p@.len())[j as int] != p@[j as int]);
            return false;
        }
        j = j + 1;
    }
    assert(s@.subrange(i as int, i + p@.len()) =~= p@);
    true
}

/// The first occurrence of `p` in `s`, by position.
pub fn find_occurrence(s: &Vec<char>, p: &Vec<char>) -> (r: Option<usize>)
    ensures
        match r {
            Some(k) => first_occurrence(s@, p@) == k as int,
            None => first_occurrence(s@, p@) == -1,
        },
{
    let mut i: usize = 0;
    while i < s.len()
        invariant
            i <= s@.len(),
            forall|j: int| 0 <= j < i ==> !occurs_at(s@, p@, j),
        decreases s@.len() - i,
    {
        if occurs_at_exec(s, p, i) {
            proof {
                lemma_first_occurrence_unique(s@, p@, i as int);
            }
            return Some(i);
        }
        i = i + 1;
    }
    if occurs_at_exec(s, p, i) {
        proof {
            lemma_first_occurrence_unique(s@, p@, i as int);
        }
        return Some(i);
    }
    proof {
        assert forall|j: int| 0 <= j implies !occurs_at(s@, p@, j) by {
            if j > i {
                assert(!(j + p@.len() <= s@.len()));
            }
        }
        lemma_first_occurrence_unique(s@, p@, -1);
    }
    None
}

/// The piece of `s` between the first and the second occurrence of `p` (or
/// the end): what `s.split(p).nth(1)` gives, `None` where `p` does not occur.
pub open spec fn second_piece(s: Seq<char>, p: Seq<char>) -> Option<Seq<char>> {
    let k = first_occurrence(s, p);
    if k < 0 {
        None
    } else {
        let rest = s.subrange(k + p.len(), s.len() as int);
        let k2 = first_occurrence(rest, p);
        Some(if k2 < 0 { rest } else { rest.subrange(0, k2) })
    }
}

proof fn lemma_first_occurrence_bounds(s: Seq<char>, p: Seq<char>)
    ensures
        first_occurrence(s, p) >= 0 ==> occurs_at(s, p, first_occurrence(s, p)),
        first_occurrence(s, p) >= -1,
    decreases s.len(),
{
    if s.len() >= p.len() && !occurs_at(s, p, 0) && s.len() > 0 {
        lemma_first_occurrence_bounds(s.drop_first(), p);
        let r = first_occurrence(s.drop_first(), p);
        if r >= 0 {
            lemma_occurs_shift(s, p, r);
        }
    }
}

/// `s.split(p).nth(1)` over characters, for a pattern that is not empty.
pub fn second_piece_exec(s: &Vec<char>, p: &Vec<char>) -> (r: Option<Vec<char>>)
    ensures
        match r {
            Some(v) => second_piece(s@, p@) == Some(v@),
            None => second_piece(s@, p@) is None,
        },
{
    match find_occurrence(s, p) {
        None => None,
        Some(k) => {
            proof {
                lemma_first_occurrence_bounds(s@, p@);
                assert(occurs_at(s@, p@, k as int));
            }
            let sl = s.len();
            let pl = p.len();
            assert(k + pl <= sl);
            let rest = slice_chars(s, k + pl, sl);
            match find_occurrence(&rest, p) {
                None => Some(rest),
                Some(k2) => {
                    proof {
                        lemma_first_occurrence_bounds(rest@, p@);
                    }
                    Some(slice_chars(&rest, 0, k2))
                },
            }
        },
    }
}

/// Calls `String::from_utf8`: the text that the bytes encode, `None` where
/// they are not valid UTF-8 (std documents the error exactly for bytes that
/// are not UTF-8).
#[verifier::external_body]
fn text_from_utf8(bytes: Vec<u8>) -> (r: Option<String>)
    ensures
        r is Some <==> vstd::utf8::valid_utf8(bytes@),
        r matches Some(s) ==> s@ == vstd::utf8::decode_utf8(bytes@),
{
    String::from_utf8(bytes).ok()
}

/// The text of a fetched document: the characters that its bytes encode,
/// `None` where they are not valid UTF-8.
pub fn utf8_text(bytes: Vec<u8>) -> (r: Option<String>)
    ensures
        r is Some <==> vstd::utf8::valid_utf8(bytes@),
        r matches Some(s) ==> s@ == vstd::utf8::decode_utf8(bytes@),
{
    text_from_utf8(bytes)
}


proof fn lemma_digit_char(d: nat)
    requires
        d < 10,
    ensures
        is_digit(digit_char(d)),
        digit_value(digit_char(d)) == d,
{
}

proof fn lemma_decimal_digits(n: nat)
    ensures
        decimal(n).len() > 0,
        forall|i: int| 0 <= i < decimal(n).len() ==> is_digit(#[trigger] decimal(n)[i]),
        digits_value(decimal(n)) == n,
    decreases n,
{
    lemma_digit_char(n % 10);
    if n < 10 {
        assert(decimal(n).drop_last() =~= Seq::<char>::empty());
        assert(decimal(n).last() == digit_char(n));
        assert(digits_value(decimal(n)) == digits_value(Seq::<char>::empty()) * 10 + digit_value(digit_char(n)));
    }
    if n >= 10 {
        lemma_decimal_digits(n / 10);
        let d = decimal(n / 10);
        assert(decimal(n) == d.push(digit_char(n % 10)));
        assert(decimal(n).drop_last() =~= d);
        assert(decimal(n).last() == digit_char(n % 10));
        assert(digits_value(decimal(n)) == digits_value(d) * 10 + digit_value(digit_char(n % 10)));
        assert((n / 10) * 10 + n % 10 == n) by (nonlinear_arith);
        assert forall|i: int| 0 <= i < decimal(n).len() implies is_digit(#[trigger] decimal(n)[i]) by {
            if i < d.len() {
                assert(decimal(n)[i] == d[i]);
            }
        }
    }
}

/// Law: reading back the decimal rendering of a number that fits in a
/// `u32` gives the number.
pub proof fn lemma_parse_decimal_roundtrip(n: u32)
    ensures
        parse_u32(decimal(n as nat)) == Some(n),
{
    lemma_decimal_digits(n as nat);
    let d = decimal(n as nat);
    assert(d[0] != '+');
    assert(unsigned_body(d) == d);
}

proof fn lemma_trim_start_shape(s: Seq<char>)
    ensures
        trim_start(s).len() > 0 ==> !is_ws(trim_start(s)[0]),
        trim_start(trim_start(s)) == trim_start(s),
    decreases s.len(),
{
    if s.len() > 0 && is_ws(s[0]) {
        lemma_trim_start_shape(s.drop_first());
    }
}

proof fn lemma_trim_end_keeps_start(s: Seq<char>)
    requires
        s.len() > 0 ==> !is_ws(s[0]),
    ensures
        trim_end(s).len() > 0 ==> !is_ws(trim_end(s).last()),
        trim_end(s).len() > 0 ==> trim_end(s)[0] == s[0],
        trim_start(trim_end(s)) == trim_end(s),
        trim_end(trim_end(s)) == trim_end(s),
    decreases s.len(),
{
    if s.len() > 0 && is_ws(s.last()) {
        let t = s.drop_last();
        if t.len() > 0 {
            assert(t[0] == s[0]);
        }
        lemma_trim_end_keeps_start(t);
    }
}

/// Law: trimming twice is trimming once.
pub proof fn lemma_trim_idempotent(s: Seq<char>)
    ensures
        trim(trim(s)) == trim(s),
{
    lemma_trim_start_shape(s);
    lemma_trim_end_keeps_start(trim_start(s));
}

} // verus!
