use vstd::prelude::*;
use vstd::string::*;

verus! {

/// `String::push`: the string afterwards is the string before with the
/// character appended at its end.
#[verifier::external_body]
pub(crate) fn string_push(s: &mut String, c: char)
    ensures
        final(s)@ == old(s)@.push(c),
{
    s.push(c);
}

/// The characters of a string slice, in order.
pub fn chars_of(s: &str) -> (v: Vec<char>)
    ensures
        v@ == s@,
{
    let mut v: Vec<char> = Vec::new();
    for c in it: s.chars()
        invariant
            v@ == it.seq().take(it.index() as int),
    {
        v.push(c);
    }
    assert(v@ =~= s@);
    v
}

/// Whether two strings hold the same characters.
pub fn str_equals(a: &str, b: &str) -> (same: bool)
    ensures
        same == (a@ == b@),
{
    let va = chars_of(a);
    let vb = chars_of(b);
    if va.len() != vb.len() {
        return false;
    }
    for i in 0..va.len()
        invariant
            va@ == a@,
            vb@ == b@,
            va@.len() == vb@.len(),
            forall|j: int| 0 <= j < i ==> va@[j] == vb@[j],
    {
        if va[i] != vb[i] {
            return false;
        }
    }
    assert(va@ =~= vb@);
    true
}

/// The characters of `parts`, with `sep` between each two neighbours.
pub open spec fn join_chars(parts: Seq<Seq<char>>, sep: char) -> Seq<char>
    decreases parts.len(),
{
    if parts.len() == 0 {
        seq![]
    } else if parts.len() == 1 {
        parts[0]
    } else {
        join_chars(parts.drop_last(), sep).push(sep) + parts.last()
    }
}

/// Whether `c` has the Unicode `White_Space` property.
pub open spec fn is_white_space(c: char) -> bool {
    ||| '\u{9}' <= c <= '\u{d}'
    ||| c == ' '
    ||| c == '\u{85}'
    ||| c == '\u{a0}'
    ||| c == '\u{1680}'
    ||| '\u{2000}' <= c <= '\u{200a}'
    ||| c == '\u{2028}'
    ||| c == '\u{2029}'
    ||| c == '\u{202f}'
    ||| c == '\u{205f}'
    ||| c == '\u{3000}'
}

/// Checks the Unicode `White_Space` property of one character.
pub fn char_is_white_space(c: char) -> (r: bool)
    ensures
        r == is_white_space(c),
{
    ('\u{9}' <= c && c <= '\u{d}') || c == ' ' || c == '\u{85}' || c == '\u{a0}' || c == '\u{1680}'
        || ('\u{2000}' <= c && c <= '\u{200a}') || c == '\u{2028}' || c == '\u{2029}'
        || c == '\u{202f}' || c == '\u{205f}' || c == '\u{3000}'
}

/// The first index at or after `from` whose character is not white space, or `s.len()`.
pub open spec fn first_non_blank(s: Seq<char>, from: int) -> int
    decreases s.len() - from,
{
    if from >= s.len() {
        s.len() as int
    } else if !is_white_space(s[from]) {
        from
    } else {
        first_non_blank(s, from + 1)
    }
}

/// One past the last index below `to` whose character is not white space, or `lo`.
pub open spec fn end_non_blank(s: Seq<char>, lo: int, to: int) -> int
    decreases to - lo,
{
    if to <= lo {
        lo
    } else if !is_white_space(s[to - 1]) {
        to
    } else {
        end_non_blank(s, lo, to - 1)
    }
}

/// The characters of `s` with leading and trailing white space removed.
pub open spec fn trim_chars(s: Seq<char>) -> Seq<char> {
    let a = first_non_blank(s, 0);
    s.subrange(a, end_non_blank(s, a, s.len() as int))
}


proof fn lemma_first_non_blank(s: Seq<char>, from: int)
    requires
        0 <= from <= s.len(),
    ensures
        from <= first_non_blank(s, from) <= s.len(),
        forall|i: int| from <= i < first_non_blank(s, from) ==> is_white_space(#[trigger] s[i]),
        first_non_blank(s, from) < s.len() ==> !is_white_space(s[first_non_blank(s, from)]),
    decreases s.len() - from,
{
    if from < s.len() && is_white_space(s[from]) {
        lemma_first_non_blank(s, from + 1);
    }
}

proof fn lemma_end_non_blank(s: Seq<char>, lo: int, to: int)
    requires
        0 <= lo <= to <= s.len(),
    ensures
        lo <= end_non_blank(s, lo, to) <= to,
        forall|i: int| end_non_blank(s, lo, to) <= i < to ==> is_white_space(#[trigger] s[i]),
        end_non_blank(s, lo, to) > lo ==> !is_white_space(s[end_non_blank(s, lo, to) - 1]),
    decreases to - lo,
{
    if to > lo && is_white_space(s[to - 1]) {
        lemma_end_non_blank(s, lo, to - 1);
    }
}

/// Trimming removes exactly the white space around the text: the result is
/// the part of `s` between a white-space prefix and a white-space suffix,
/// and where it is not empty it starts and ends with a character that is not
/// white space.  It is empty exactly when `s` is white space only.
pub proof fn law_trim(s: Seq<char>)
    ensures
        exists|a: int, b: int|
            #![trigger s.subrange(a, b)]
            0 <= a <= b <= s.len() && trim_chars(s) == s.subrange(a, b) && (forall|i: int|
                0 <= i < a ==> is_white_space(#[trigger] s[i])) && (forall|i: int|
                b <= i < s.len() ==> is_white_space(#[trigger] s[i])) && (a < b ==> !is_white_space(
                s[a],
            ) && !is_white_space(s[b - 1])),
        trim_chars(s).len() == 0 <==> (forall|i: int| 0 <= i < s.len() ==> is_white_space(#[trigger] s[i])),
{
    let a = first_non_blank(s, 0);
    lemma_first_non_blank(s, 0);
    let b = end_non_blank(s, a, s.len() as int);
    lemma_end_non_blank(s, a, s.len() as int);
    assert(trim_chars(s) == s.subrange(a, b));
    if trim_chars(s).len() == 0 {
        assert(a == b);
        assert forall|i: int| 0 <= i < s.len() implies is_white_space(#[trigger] s[i]) by {
            if i >= a {
                assert(b <= i);
            }
        }
    } else {
        assert(a < b);
        assert(!is_white_space(s[a]));
    }
}

/// Removes leading and trailing white space, as `str::trim` does.
pub fn trim(s: &str) -> (t: String)
    ensures
        t@ == trim_chars(s@),
{
    let v = chars_of(s);
    let n = v.len();
    let mut a: usize = 0;
    while a < n && char_is_white_space(v[a])
        invariant
            n == v@.len(),
            a <= n,
            first_non_blank(v@, 0) == first_non_blank(v@, a as int),
        decreases n - a,
    {
        a = a + 1;
    }
    let mut b: usize = n;
    while b > a && char_is_white_space(v[b - 1])
        invariant
            n == v@.len(),
            a <= b <= n,
            a == first_non_blank(v@, 0),
            end_non_blank(v@, a as int, n as int) == end_non_blank(v@, a as int, b as int),
        decreases b,
    {
        b = b - 1;
    }
    let mut t = String::new();
    for k in a..b
        invariant
            n == v@.len(),
            a <= b <= n,
            t@ == v@.subrange(a as int, k as int),
    {
        string_push(&mut t, v[k]);
        assert(v@.subrange(a as int, k + 1) =~= v@.subrange(a as int, k as int).push(v@[k as int]));
    }
    t
}


/// Whether a string is empty or white space only, as `s.trim().is_empty()` tells.
pub fn is_blank(s: &str) -> (blank: bool)
    ensures
        blank == (trim_chars(s@).len() == 0),
{
    let t = trim(s);
    t.as_str().unicode_len() == 0
}


/// The decimal digit of a number below ten.
pub open spec fn decimal_digit(d: nat) -> char {
    if d == 0 { '0' }
    else if d == 1 { '1' }
    else if d == 2 { '2' }
    else if d == 3 { '3' }
    else if d == 4 { '4' }
    else if d == 5 { '5' }
    else if d == 6 { '6' }
    else if d == 7 { '7' }
    else if d == 8 { '8' }
    else { '9' }
}

/// The decimal digits of a natural number, most significant first, without
/// leading zeros.
pub open spec fn decimal_digits(n: nat) -> Seq<char>
    decreases n,
{
    if n < 10 {
        seq![decimal_digit(n)]
    } else {
        decimal_digits(n / 10).push(decimal_digit(n % 10))
    }
}

/// An integer as `Display` writes it: its decimal digits, after a minus
/// sign where it is negative.
pub open spec fn decimal(n: int) -> Seq<char> {
    if n < 0 {
        seq!['-'] + decimal_digits((-n) as nat)
    } else {
        decimal_digits(n as nat)
    }
}

/// The number that a string of decimal digits stands for.
pub open spec fn decimal_value(s: Seq<char>) -> int
    decreases s.len(),
{
    if s.len() == 0 {
        0
    } else {
        decimal_value(s.drop_last()) * 10 + (s.last() as int - '0' as int)
    }
}

proof fn lemma_decimal_digits(n: nat)
    ensures
        decimal_digits(n).len() > 0,
        forall|i: int| 0 <= i < decimal_digits(n).len() ==> '0' <= #[trigger] decimal_digits(n)[i] <= '9',
        decimal_value(decimal_digits(n)) == n,
        n >= 1 ==> decimal_digits(n)[0] != '0',
        n == 0 ==> decimal_digits(n) == seq!['0'],
    decreases n,
{
    if n >= 10 {
        let q = n / 10;
        let r = n % 10;
        lemma_decimal_digits(q);
        let d = decimal_digits(n);
        assert(d == decimal_digits(q).push(decimal_digit(r)));
        assert(d.drop_last() =~= decimal_digits(q));
        assert(d.last() as int - '0' as int == r);
        assert(q * 10 + r == n);
        assert(d[0] == decimal_digits(q)[0]);
        assert forall|i: int| 0 <= i < d.len() implies '0' <= #[trigger] d[i] <= '9' by {
            if i < d.len() - 1 {
                assert(d[i] == decimal_digits(q)[i]);
            }
        }
    } else {
        let d = decimal_digits(n);
        assert(d.drop_last() =~= Seq::<char>::empty());
        assert(decimal_value(d.drop_last()) == 0);
    }
}

/// An integer is written as its decimal digits, after a `-` where it is
/// negative: only the characters `0`-`9` follow, with no leading zero, and
/// reading them as a decimal number gives back the integer's magnitude.
pub proof fn law_decimal(n: int)
    ensures
        n >= 0 ==> decimal_value(decimal(n)) == n,
        n < 0 ==> decimal(n)[0] == '-' && decimal_value(decimal(n).drop_first()) == -n,
        ({
            let d = if n < 0 { decimal(n).drop_first() } else { decimal(n) };
            &&& d.len() > 0
            &&& forall|i: int| 0 <= i < d.len() ==> '0' <= #[trigger] d[i] <= '9'
            &&& d.len() > 1 ==> d[0] != '0'
        }),
{
    if n < 0 {
        lemma_decimal_digits((-n) as nat);
        assert(decimal(n).drop_first() =~= decimal_digits((-n) as nat));
    } else {
        lemma_decimal_digits(n as nat);
    }
}

fn digit_char(d: u128) -> (c: char)
    requires
        d < 10,
    ensures
        c == decimal_digit(d as nat),
{
    if d == 0 { '0' }
    else if d == 1 { '1' }
    else if d == 2 { '2' }
    else if d == 3 { '3' }
    else if d == 4 { '4' }
    else if d == 5 { '5' }
    else if d == 6 { '6' }
    else if d == 7 { '7' }
    else if d == 8 { '8' }
    else { '9' }
}

fn push_decimal_digits(s: &mut String, n: u128)
    ensures
        final(s)@ == old(s)@ + decimal_digits(n as nat),
    decreases n,
{
    if n >= 10 {
        push_decimal_digits(s, n / 10);
    }
    string_push(s, digit_char(n % 10));
    assert(final(s)@ =~= old(s)@ + decimal_digits(n as nat)) by {
        if n >= 10 {
            assert(decimal_digits(n as nat) == decimal_digits((n / 10) as nat).push(decimal_digit((n % 10) as nat)));
        }
    }
}

/// Appends an integer written in decimal, as `Display` writes it.
pub fn push_decimal(s: &mut String, n: isize)
    ensures
        final(s)@ == old(s)@ + decimal(n as int),
{
    let wide = n as i128;
    if wide < 0 {
        string_push(s, '-');
        push_decimal_digits(s, (-wide) as u128);
        assert(final(s)@ =~= old(s)@ + decimal(n as int));
    } else {
        push_decimal_digits(s, wide as u128);
    }
}

} // verus!
