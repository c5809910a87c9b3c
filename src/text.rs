//! String helpers shared by the library: exact character comparison,
//! prefix tests, decimal and hexadecimal rendering, and the two Unicode
//! operations (case folding and whitespace trimming) that std performs.

use vstd::prelude::*;
use vstd::string::*;

verus! {

/// What `str::to_lowercase` returns for a string; it depends on the
/// characters alone.
pub uninterp spec fn lower_of(s: Seq<char>) -> Seq<char>;

/// Whether a character has the Unicode White_Space property.
pub open spec fn is_white_space(c: char) -> bool {
    ('\u{9}' <= c <= '\u{d}') || c == ' ' || c == '\u{85}' || c == '\u{a0}' || c == '\u{1680}'
        || ('\u{2000}' <= c <= '\u{200a}') || c == '\u{2028}' || c == '\u{2029}' || c
        == '\u{202f}' || c == '\u{205f}' || c == '\u{3000}'
}

/// A string without its leading white space.
pub open spec fn trim_start_ws(s: Seq<char>) -> Seq<char>
    decreases s.len(),
{
    if s.len() > 0 && is_white_space(s[0]) {
        trim_start_ws(s.drop_first())
    } else {
        s
    }
}

/// A string without its trailing white space.
pub open spec fn trim_end_ws(s: Seq<char>) -> Seq<char>
    decreases s.len(),
{
    if s.len() > 0 && is_white_space(s.last()) {
        trim_end_ws(s.drop_last())
    } else {
        s
    }
}

/// A string without leading and trailing white space.
pub open spec fn trim_of(s: Seq<char>) -> Seq<char> {
    trim_end_ws(trim_start_ws(s))
}

/// Relies on `str::to_lowercase`: the result depends on the characters alone.
#[verifier::external_body]
pub(crate) fn lowercase(s: &str) -> (r: String)
    ensures
        r@ == lower_of(s@),
{
    s.to_lowercase()
}

/// Relies on `str::trim`: the input with leading and trailing characters
/// of the Unicode White_Space property removed.
#[verifier::external_body]
pub(crate) fn trim(s: &str) -> (r: &str)
    ensures
        r@ == trim_of(s@),
{
    s.trim()
}

/// Character-by-character equality of two strings.
pub fn str_eq(a: &str, b: &str) -> (r: bool)
    ensures
        r == (a@ == b@),
{
    let n = a.unicode_len();
    if n != b.unicode_len() {
        return false;
    }
    let mut i: usize = 0;
    while i < n
        invariant
            n == a@.len(),
            n == b@.len(),
            i <= n,
            forall|j: int| 0 <= j < i ==> a@[j] == b@[j],
        decreases n - i,
    {
        if a.get_char(i) != b.get_char(i) {
            return false;
        }
        i += 1;
    }
    assert(a@ =~= b@);
    true
}

/// A list of string slices as character sequences.
pub open spec fn str_views(s: Seq<&str>) -> Seq<Seq<char>> {
    s.map_values(|x: &str| x@)
}

/// A list of strings as character sequences.
pub open spec fn string_views(s: Seq<String>) -> Seq<Seq<char>> {
    s.map_values(|x: String| x@)
}

/// Strings joined with a separator between them.
pub open spec fn join_with(parts: Seq<Seq<char>>, sep: Seq<char>) -> Seq<char>
    decreases parts.len(),
{
    if parts.len() == 0 {
        seq![]
    } else if parts.len() == 1 {
        parts[0]
    } else {
        join_with(parts.drop_last(), sep) + sep + parts.last()
    }
}

/// Whether `c` occurs in `s`.
pub open spec fn has_char(s: Seq<char>, c: char) -> bool {
    exists|i: int| 0 <= i < s.len() && s[i] == c
}

/// The position of the first `c` in `s`, for an `s` that holds one.
pub open spec fn first_index(s: Seq<char>, c: char) -> int {
    choose|i: int| 0 <= i < s.len() && s[i] == c && forall|j: int| 0 <= j < i ==> s[j] != c
}

/// The position of the last `c` in `s`, for an `s` that holds one.
pub open spec fn last_index(s: Seq<char>, c: char) -> int {
    choose|i: int| 0 <= i < s.len() && s[i] == c && forall|j: int| i < j < s.len() ==> s[j] != c
}

/// The position of the first `c` in `s`, if any.
pub fn find_char(s: &str, c: char) -> (r: Option<usize>)
    ensures
        r is Some <==> has_char(s@, c),
        r matches Some(i) ==> i == first_index(s@, c) && i < s@.len() && s@[i as int] == c
            && forall|j: int| 0 <= j < i ==> s@[j] != c,
{
    let n = s.unicode_len();
    let mut i: usize = 0;
    while i < n
        invariant
            n == s@.len(),
            i <= n,
            forall|j: int| 0 <= j < i ==> s@[j] != c,
        decreases n - i,
    {
        if s.get_char(i) == c {
            assert(first_index(s@, c) == i) by {
                assert(0 <= i < s@.len() && s@[i as int] == c && forall|j: int|
                    0 <= j < i ==> s@[j] != c);
                let k = first_index(s@, c);
                if k < i {
                } else if k > i {
                }
            }
            return Some(i);
        }
        i += 1;
    }
    None
}

/// The position of the last `c` in `s`, if any.
pub fn rfind_char(s: &str, c: char) -> (r: Option<usize>)
    ensures
        r is Some <==> has_char(s@, c),
        r matches Some(i) ==> i == last_index(s@, c) && i < s@.len() && s@[i as int] == c
            && forall|j: int| i < j < s@.len() ==> s@[j] != c,
{
    let n = s.unicode_len();
    let mut i: usize = n;
    while i > 0
        invariant
            n == s@.len(),
            i <= n,
            forall|j: int| i <= j < n ==> s@[j] != c,
        decreases i,
    {
        if s.get_char(i - 1) == c {
            let k: usize = i - 1;
            assert(last_index(s@, c) == k) by {
                assert(0 <= k < s@.len() && s@[k as int] == c && forall|j: int|
                    k < j < s@.len() ==> s@[j] != c);
                let m = last_index(s@, c);
                if m < k {
                } else if m > k {
                }
            }
            return Some(k);
        }
        i -= 1;
    }
    None
}

/// Whether `p` is a prefix of `s`.
pub open spec fn has_prefix(s: Seq<char>, p: Seq<char>) -> bool {
    p.len() <= s.len() && s.subrange(0, p.len() as int) == p
}

/// Whether `s` starts with `p`.
pub fn starts_with(s: &str, p: &str) -> (r: bool)
    ensures
        r == has_prefix(s@, p@),
{
    let n = s.unicode_len();
    let m = p.unicode_len();
    if m > n {
        return false;
    }
    let mut i: usize = 0;
    while i < m
        invariant
            n == s@.len(),
            m == p@.len(),
            m <= n,
            i <= m,
            forall|j: int| 0 <= j < i ==> s@[j] == p@[j],
        decreases m - i,
    {
        if s.get_char(i) != p.get_char(i) {
            assert(s@.subrange(0, m as int)[i as int] != p@[i as int]);
            return false;
        }
        i += 1;
    }
    assert(s@.subrange(0, m as int) =~= p@);
    true
}

/// An owned copy of a string slice.
pub fn owned(s: &str) -> (r: String)
    ensures
        r@ == s@,
{
    String::from_str(s)
}

/// `a` followed by `b`, as a new string.
pub fn join2(a: &str, b: &str) -> (r: String)
    ensures
        r@ == a@ + b@,
{
    let mut r = String::from_str(a);
    r.append(b);
    r
}

/// Strings joined with a separator, as one new string.
pub fn join_strings(parts: &Vec<String>, sep: &str) -> (r: String)
    ensures
        r@ == join_with(string_views(parts@), sep@),
{
    if parts.len() == 0 {
        return String::new();
    }
    let mut r = parts[0].clone();
    let mut k: usize = 1;
    while k < parts.len()
        invariant
            1 <= k <= parts@.len(),
            r@ == join_with(string_views(parts@.subrange(0, k as int)), sep@),
        decreases parts@.len() - k,
    {
        assert(string_views(parts@.subrange(0, k + 1)).drop_last() =~= string_views(
            parts@.subrange(0, k as int),
        ));
        r.append(sep);
        r.append(parts[k].as_str());
        k += 1;
    }
    assert(parts@.subrange(0, parts@.len() as int) =~= parts@);
    r
}

/// The digit character for a value below sixteen (lower-case letters).
pub open spec fn digit_char(d: nat) -> char {
    if d == 0 { '0' } else if d == 1 { '1' } else if d == 2 { '2' } else if d == 3 { '3' }
    else if d == 4 { '4' } else if d == 5 { '5' } else if d == 6 { '6' } else if d == 7 { '7' }
    else if d == 8 { '8' } else if d == 9 { '9' } else if d == 10 { 'a' } else if d == 11 { 'b' }
    else if d == 12 { 'c' } else if d == 13 { 'd' } else if d == 14 { 'e' } else { 'f' }
}

/// The value of a digit character in a given base, if it is one.
pub open spec fn digit_value(c: char) -> int {
    if c == '0' { 0 } else if c == '1' { 1 } else if c == '2' { 2 } else if c == '3' { 3 }
    else if c == '4' { 4 } else if c == '5' { 5 } else if c == '6' { 6 } else if c == '7' { 7 }
    else if c == '8' { 8 } else if c == '9' { 9 } else if c == 'a' { 10 } else if c == 'b' { 11 }
    else if c == 'c' { 12 } else if c == 'd' { 13 } else if c == 'e' { 14 } else if c == 'f' { 15 }
    else { -1 }
}

/// The bases in which numbers are rendered.
pub open spec fn is_base(b: nat) -> bool {
    b == 10 || b == 16
}

/// The digits of `n` in base `b` (ten or sixteen), most significant first,
/// without leading zeros (zero is written as one digit).
pub open spec fn digits(n: nat, b: nat) -> Seq<char>
    decreases n,
{
    if b == 10 {
        if n < 10 {
            seq![digit_char(n)]
        } else {
            digits(n / 10, 10).push(digit_char(n % 10))
        }
    } else if b == 16 {
        if n < 16 {
            seq![digit_char(n)]
        } else {
            digits(n / 16, 16).push(digit_char(n % 16))
        }
    } else {
        seq![]
    }
}

/// The numeric value of a digit string in base `b`.
pub open spec fn value_of(s: Seq<char>, b: nat) -> int
    decreases s.len(),
{
    if s.len() == 0 {
        0
    } else {
        value_of(s.drop_last(), b) * b + digit_value(s.last())
    }
}

/// The decimal rendering of `n`.
pub open spec fn decimal(n: nat) -> Seq<char> {
    digits(n, 10)
}

/// The lower-case hexadecimal rendering of `n`, left-padded with zeros to at
/// least `width` digits.
pub open spec fn hex_padded(n: nat, width: nat) -> Seq<char> {
    let d = digits(n, 16);
    if d.len() >= width {
        d
    } else {
        Seq::new((width - d.len()) as nat, |i: int| '0') + d
    }
}

proof fn lemma_digit_roundtrip(d: nat)
    requires
        d < 16,
    ensures
        digit_value(digit_char(d)) == d,
{
}

/// Reading the digits of `n` back gives `n`.
pub proof fn lemma_digits_value(n: nat, b: nat)
    requires
        is_base(b),
    ensures
        value_of(digits(n, b), b) == n,
        digits(n, b).len() >= 1,
    decreases n,
{
    let d = digits(n, b);
    if n < b {
        lemma_digit_roundtrip(n);
        assert(d.drop_last() =~= seq![]);
        assert(value_of(d.drop_last(), b) == 0);
        assert(d.last() == digit_char(n));
        assert(value_of(d, b) == value_of(d.drop_last(), b) * b + digit_value(d.last()));
        assert(0 * b == 0);
    } else if b == 10 {
        lemma_digits_value(n / 10, 10);
        assert(d.drop_last() =~= digits(n / 10, 10));
        lemma_digit_roundtrip(n % 10);
        assert(value_of(d, 10) == value_of(d.drop_last(), 10) * 10 + digit_value(d.last()));
    } else {
        lemma_digits_value(n / 16, 16);
        assert(d.drop_last() =~= digits(n / 16, 16));
        lemma_digit_roundtrip(n % 16);
        assert(value_of(d, 16) == value_of(d.drop_last(), 16) * 16 + digit_value(d.last()));
    }
}

/// Leading zeros do not change the value of a digit string.
pub proof fn lemma_zero_padding_value(k: nat, s: Seq<char>, b: nat)
    ensures
        value_of(Seq::new(k, |i: int| '0') + s, b) == value_of(s, b),
    decreases s.len() + k,
{
    let z = Seq::new(k, |i: int| '0');
    if s.len() == 0 {
        assert(z + s =~= z);
        if k > 0 {
            let z1 = Seq::new((k - 1) as nat, |i: int| '0');
            assert(z.drop_last() =~= z1 + seq![]);
            lemma_zero_padding_value((k - 1) as nat, seq![], b);
            assert(value_of(seq![], b) == 0);
        }
    } else {
        assert((z + s).drop_last() =~= z + s.drop_last());
        lemma_zero_padding_value(k, s.drop_last(), b);
    }
}

/// Distinct numbers have distinct padded hexadecimal renderings.
pub proof fn lemma_hex_padded_injective(n: nat, m: nat, width: nat)
    requires
        hex_padded(n, width) == hex_padded(m, width),
    ensures
        n == m,
{
    lemma_digits_value(n, 16);
    lemma_digits_value(m, 16);
    let dn = digits(n, 16);
    let dm = digits(m, 16);
    if dn.len() < width {
        lemma_zero_padding_value((width - dn.len()) as nat, dn, 16);
    }
    if dm.len() < width {
        lemma_zero_padding_value((width - dm.len()) as nat, dm, 16);
    }
}

/// The string for a single digit.
fn digit_str(d: u64) -> (r: &'static str)
    requires
        d < 16,
    ensures
        r@ == seq![digit_char(d as nat)],
{
    proof {
        reveal_strlit("0");
        reveal_strlit("1");
        reveal_strlit("2");
        reveal_strlit("3");
        reveal_strlit("4");
        reveal_strlit("5");
        reveal_strlit("6");
        reveal_strlit("7");
        reveal_strlit("8");
        reveal_strlit("9");
        reveal_strlit("a");
        reveal_strlit("b");
        reveal_strlit("c");
        reveal_strlit("d");
        reveal_strlit("e");
        reveal_strlit("f");
    }
    if d == 0 { "0" } else if d == 1 { "1" } else if d == 2 { "2" } else if d == 3 { "3" }
    else if d == 4 { "4" } else if d == 5 { "5" } else if d == 6 { "6" } else if d == 7 { "7" }
    else if d == 8 { "8" } else if d == 9 { "9" } else if d == 10 { "a" } else if d == 11 { "b" }
    else if d == 12 { "c" } else if d == 13 { "d" } else if d == 14 { "e" } else { "f" }
}

/// The digits of `n` in base `b`.
fn render_digits(n: u128, b: u64) -> (r: String)
    requires
        b == 10 || b == 16,
    ensures
        r@ == digits(n as nat, b as nat),
    decreases n,
{
    let bb = b as u128;
    if n < bb {
        let s = digit_str(n as u64);
        String::from_str(s)
    } else {
        let (q, m) = if b == 10 {
            (n / 10, n % 10)
        } else {
            (n / 16, n % 16)
        };
        let mut r = render_digits(q, b);
        let s = digit_str(m as u64);
        r.append(s);
        r
    }
}

/// The decimal rendering of a number.
pub fn decimal_string(n: u128) -> (r: String)
    ensures
        r@ == decimal(n as nat),
{
    render_digits(n, 10)
}

/// The lower-case hexadecimal rendering of a number, zero-padded to at least
/// `width` digits.
pub fn hex_string(n: u128, width: usize) -> (r: String)
    ensures
        r@ == hex_padded(n as nat, width as nat),
{
    let d = render_digits(n, 16);
    let len = d.as_str().unicode_len();
    if len >= width {
        return d;
    }
    let mut r = String::new();
    let mut i: usize = 0;
    while i < width - len
        invariant
            i <= width - len,
            r@ == Seq::new(i as nat, |k: int| '0'),
        decreases width - len - i,
    {
        proof {
            reveal_strlit("0");
        }
        r.append("0");
        assert(r@ =~= Seq::new((i + 1) as nat, |k: int| '0'));
        i += 1;
    }
    r.append(d.as_str());
    r
}

} // verus!
