//! Character-level text building: decimal numbers, dates, joins and escapes.
use vstd::prelude::*;

verus! {

/// The ASCII digit for `d` (taken modulo 10).
pub open spec fn digit_char(d: nat) -> char {
    let r = d % 10;
    if r == 0 { '0' }
    else if r == 1 { '1' }
    else if r == 2 { '2' }
    else if r == 3 { '3' }
    else if r == 4 { '4' }
    else if r == 5 { '5' }
    else if r == 6 { '6' }
    else if r == 7 { '7' }
    else if r == 8 { '8' }
    else { '9' }
}

/// Decimal digits of `n`, most significant first, without leading zeros ("0" for zero).
pub open spec fn digits(n: nat) -> Seq<char>
    decreases n,
{
    if n < 10 {
        seq![digit_char(n)]
    } else {
        digits(n / 10).push(digit_char(n % 10))
    }
}

/// Decimal text of an integer: a leading '-' for negative values.
pub open spec fn int_text(i: int) -> Seq<char> {
    if i < 0 {
        seq!['-'] + digits((-i) as nat)
    } else {
        digits(i as nat)
    }
}

/// `s` left-padded with '0' up to `width` characters.
pub open spec fn zero_pad(s: Seq<char>, width: nat) -> Seq<char> {
    if s.len() >= width {
        s
    } else {
        Seq::new((width - s.len()) as nat, |j: int| '0') + s
    }
}

/// Sign-aware zero padding to `width` characters, the sign counted in the width
/// (what `{:0width$}` writes for an integer).
pub open spec fn int_zero_padded(i: int, width: nat) -> Seq<char> {
    if i < 0 {
        seq!['-'] + zero_pad(digits((-i) as nat), if width > 0 { (width - 1) as nat } else { 0 })
    } else {
        zero_pad(digits(i as nat), width)
    }
}

/// Two-digit rendering used for months, days, hours, minutes and seconds.
pub open spec fn two_digits(v: nat) -> Seq<char> {
    zero_pad(digits(v), 2)
}

/// A calendar year as ISO 8601 writes it: four digits within 0..=9999,
/// otherwise an explicit sign followed by at least four digits.
pub open spec fn year_text(y: int) -> Seq<char> {
    if 0 <= y <= 9999 {
        zero_pad(digits(y as nat), 4)
    } else if y < 0 {
        seq!['-'] + zero_pad(digits((-y) as nat), 4)
    } else {
        seq!['+'] + zero_pad(digits(y as nat), 4)
    }
}

/// Appends `c` to `s`.
///
/// Calls `String::push`, which std documents as appending the character to
/// the end of the string; the contract claims exactly that of the text.
#[verifier::external_body]
pub fn push_char(s: &mut String, c: char)
    ensures
        final(s)@ == old(s)@.push(c),
{
    s.push(c)
}

/// A new `String` holding the text of `s`.
pub fn owned(s: &str) -> (r: String)
    ensures
        r@ == s@,
{
    String::from_str(s)
}

/// Copy of an optional string.
pub fn clone_opt(o: &Option<String>) -> (r: Option<String>)
    ensures
        r == *o,
{
    match o {
        Some(s) => Some(s.clone()),
        None => None,
    }
}

/// Whether two string slices hold the same characters.
pub fn str_equal(a: &str, b: &str) -> (r: bool)
    ensures
        r == (a@ == b@),
{
    let sa = String::from_str(a);
    let sb = String::from_str(b);
    sa == sb
}

fn digit(d: u64) -> (c: char)
    requires
        d < 10,
    ensures
        c == digit_char(d as nat),
{
    if d == 0 { '0' }
    else if d == 1 { '1' }
    else if d == 2 { '2' }
    else if d == 3 { '3' }
    else if d == 4 { '4' }
    else if d == 5 { '5' }
    else if d == 6 { '6' }
    else if d == 7 { '7' }
    else if d == 8 { '8' }
    else { '9' }
}

/// Appends the decimal digits of `n` to `s`.
pub fn push_digits(s: &mut String, n: u64)
    ensures
        final(s)@ == old(s)@ + digits(n as nat),
    decreases n,
{
    if n >= 10 {
        push_digits(s, n / 10);
        push_char(s, digit(n % 10));
        assert(digits(n as nat) == digits((n / 10) as nat).push(digit_char((n % 10) as nat)));
    } else {
        push_char(s, digit(n));
    }
}

/// Appends `count` zero characters to `s`.
fn push_zeros(s: &mut String, count: u64)
    ensures
        final(s)@ == old(s)@ + Seq::new(count as nat, |j: int| '0'),
{
    let mut i: u64 = 0;
    while i < count
        invariant
            i <= count,
            s@ == old(s)@ + Seq::new(i as nat, |j: int| '0'),
        decreases count - i,
    {
        push_char(s, '0');
        i = i + 1;
        assert(s@ =~= old(s)@ + Seq::new(i as nat, |j: int| '0'));
    }
}

/// Appends the digits of `n` left-padded with zeros to `width`.
pub fn push_zero_padded(s: &mut String, n: u64, width: u64)
    ensures
        final(s)@ == old(s)@ + zero_pad(digits(n as nat), width as nat),
{
    let mut t = String::new();
    push_digits(&mut t, n);
    let k = t.as_str().unicode_len() as u64;
    let ghost s0 = s@;
    if k < width {
        push_zeros(s, width - k);
    }
    s.append(t.as_str());
    assert(s@ =~= s0 + zero_pad(digits(n as nat), width as nat));
}

/// Magnitude of a signed integer as `u64`.
fn magnitude(i: i64) -> (r: u64)
    ensures
        r as int == if i < 0 { -i } else { i as int },
{
    if i < 0 {
        if i == i64::MIN {
            9223372036854775808u64
        } else {
            (-i) as u64
        }
    } else {
        i as u64
    }
}

/// Decimal text of `i`.
pub fn int_to_text(i: i64) -> (r: String)
    ensures
        r@ == int_text(i as int),
{
    let mut s = String::new();
    if i < 0 {
        push_char(&mut s, '-');
    }
    push_digits(&mut s, magnitude(i));
    assert(s@ =~= int_text(i as int));
    s
}

/// Decimal text of `n`.
pub fn usize_to_text(n: usize) -> (r: String)
    ensures
        r@ == digits(n as nat),
{
    let mut s = String::new();
    push_digits(&mut s, n as u64);
    assert(s@ =~= digits(n as nat));
    s
}

/// Appends `i` with sign-aware zero padding to `width` characters.
pub fn push_int_zero_padded(s: &mut String, i: i64, width: u64)
    ensures
        final(s)@ == old(s)@ + int_zero_padded(i as int, width as nat),
{
    let ghost s0 = s@;
    if i < 0 {
        push_char(s, '-');
        push_zero_padded(s, magnitude(i), if width > 0 { width - 1 } else { 0 });
    } else {
        push_zero_padded(s, magnitude(i), width);
    }
    assert(s@ =~= s0 + int_zero_padded(i as int, width as nat));
}

/// Appends a year in ISO 8601 form.
pub fn push_year(s: &mut String, y: i32)
    ensures
        final(s)@ == old(s)@ + year_text(y as int),
{
    let ghost s0 = s@;
    if 0 <= y && y <= 9999 {
        push_zero_padded(s, y as u64, 4);
    } else if y < 0 {
        push_char(s, '-');
        push_zero_padded(s, magnitude(y as i64), 4);
    } else {
        push_char(s, '+');
        push_zero_padded(s, y as u64, 4);
    }
    assert(s@ =~= s0 + year_text(y as int));
}

/// Appends a two-digit field (month, day, hour, ...).
pub fn push_two_digits(s: &mut String, v: u32)
    ensures
        final(s)@ == old(s)@ + two_digits(v as nat),
{
    push_zero_padded(s, v as u64, 2);
}

/// `parts` joined with `sep` between consecutive parts.
pub open spec fn seq_join(parts: Seq<Seq<char>>, sep: Seq<char>) -> Seq<char>
    decreases parts.len(),
{
    if parts.len() == 0 {
        seq![]
    } else if parts.len() == 1 {
        parts[0]
    } else {
        seq_join(parts.drop_last(), sep) + sep + parts.last()
    }
}

/// The character views of a list of strings.
pub open spec fn views(v: Seq<String>) -> Seq<Seq<char>> {
    v.map_values(|s: String| s@)
}

/// Joins `parts` with `sep`.
pub fn join(parts: &Vec<String>, sep: &str) -> (r: String)
    ensures
        r@ == seq_join(views(parts@), sep@),
{
    let mut res = String::new();
    let ghost all = views(parts@);
    let mut i: usize = 0;
    while i < parts.len()
        invariant
            i <= parts.len(),
            all == views(parts@),
            res@ == seq_join(all.take(i as int), sep@),
        decreases parts.len() - i,
    {
        if i != 0 {
            res.append(sep);
        }
        res.append(parts[i].as_str());
        assert(all.take(i + 1).drop_last() =~= all.take(i as int));
        i = i + 1;
    }
    assert(all.take(parts.len() as int) =~= all);
    res
}

/// Unicode white space (the `White_Space` property).
pub open spec fn is_white_space(c: char) -> bool {
    ('\u{9}' <= c <= '\u{d}') || c == ' ' || c == '\u{85}' || c == '\u{a0}' || c == '\u{1680}'
        || ('\u{2000}' <= c <= '\u{200a}') || c == '\u{2028}' || c == '\u{2029}' || c == '\u{202f}'
        || c == '\u{205f}' || c == '\u{3000}'
}

/// Whether `c` is Unicode white space.
pub fn white_space(c: char) -> (r: bool)
    ensures
        r == is_white_space(c),
{
    ('\u{9}' <= c && c <= '\u{d}') || c == ' ' || c == '\u{85}' || c == '\u{a0}' || c == '\u{1680}'
        || ('\u{2000}' <= c && c <= '\u{200a}') || c == '\u{2028}' || c == '\u{2029}' || c == '\u{202f}'
        || c == '\u{205f}' || c == '\u{3000}'
}

/// `s` without leading and trailing white space: the part from the first
/// character that is not white space to the last one (empty when all is).
pub open spec fn trimmed(s: Seq<char>) -> Seq<char> {
    if forall|i: int| 0 <= i < s.len() ==> is_white_space(#[trigger] s[i]) {
        Seq::empty()
    } else {
        let a = choose|a: int| 0 <= a < s.len() && !is_white_space(s[a])
            && forall|j: int| 0 <= j < a ==> is_white_space(#[trigger] s[j]);
        let b = choose|b: int| 0 <= b < s.len() && !is_white_space(s[b])
            && forall|j: int| b < j < s.len() ==> is_white_space(#[trigger] s[j]);
        s.subrange(a, b + 1)
    }
}

/// `s` without leading and trailing white space.
pub fn trim(s: &str) -> (r: String)
    ensures
        r@ == trimmed(s@),
{
    let n = s.unicode_len();
    let mut a: usize = 0;
    while a < n && white_space(s.get_char(a))
        invariant
            a <= n,
            n == s@.len(),
            forall|j: int| 0 <= j < a ==> is_white_space(#[trigger] s@[j]),
        decreases n - a,
    {
        a = a + 1;
    }
    if a == n {
        return String::new();
    }
    let mut b: usize = n - 1;
    while white_space(s.get_char(b))
        invariant
            a <= b < n,
            n == s@.len(),
            !is_white_space(s@[a as int]),
            forall|j: int| b < j < n ==> is_white_space(#[trigger] s@[j]),
        decreases b,
    {
        b = b - 1;
    }
    proof {
        let sq = s@;
        assert(!is_white_space(sq[a as int]));
        let ca = choose|x: int| 0 <= x < sq.len() && !is_white_space(sq[x])
            && forall|j: int| 0 <= j < x ==> is_white_space(#[trigger] sq[j]);
        let cb = choose|x: int| 0 <= x < sq.len() && !is_white_space(sq[x])
            && forall|j: int| x < j < sq.len() ==> is_white_space(#[trigger] sq[j]);
        assert(0 <= a < sq.len() && !is_white_space(sq[a as int])
            && forall|j: int| 0 <= j < a ==> is_white_space(#[trigger] sq[j]));
        assert(0 <= b < sq.len() && !is_white_space(sq[b as int])
            && forall|j: int| b < j < sq.len() ==> is_white_space(#[trigger] sq[j]));
        if ca < a {
            assert(is_white_space(sq[ca]));
        }
        if ca > a {
            assert(is_white_space(sq[a as int]));
        }
        if cb < b {
            assert(is_white_space(sq[b as int]));
        }
        if cb > b {
            assert(is_white_space(sq[cb]));
        }
        assert(!(forall|i: int| 0 <= i < sq.len() ==> is_white_space(#[trigger] sq[i])));
    }
    let mut r = String::new();
    let mut i: usize = a;
    while i <= b
        invariant
            a <= i <= b + 1,
            b < n,
            n == s@.len(),
            r@ == s@.subrange(a as int, i as int),
        decreases b + 1 - i,
    {
        push_char(&mut r, s.get_char(i));
        assert(r@ =~= s@.subrange(a as int, i + 1));
        i = i + 1;
    }
    r
}

} // verus!
