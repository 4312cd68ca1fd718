//! Small text helpers: the characters of a string, numbers in decimal, and
//! the lookup of a key among pairs of texts.

use vstd::prelude::*;

verus! {

/// The character that stands for the decimal digit `d`.
pub open spec fn spec_digit(d: int) -> char {
    if d == 0 {
        '0'
    } else if d == 1 {
        '1'
    } else if d == 2 {
        '2'
    } else if d == 3 {
        '3'
    } else if d == 4 {
        '4'
    } else if d == 5 {
        '5'
    } else if d == 6 {
        '6'
    } else if d == 7 {
        '7'
    } else if d == 8 {
        '8'
    } else {
        '9'
    }
}

/// `n` in decimal notation, without leading zeros.
pub open spec fn spec_decimal(n: nat) -> Seq<char>
    decreases n,
{
    if n < 10 {
        seq![spec_digit(n as int)]
    } else {
        spec_decimal(n / 10).push(spec_digit((n % 10) as int))
    }
}

/// `n`, which is below one hundred, as two decimal digits.
pub open spec fn spec_two_digits(n: int) -> Seq<char> {
    seq![spec_digit(n / 10), spec_digit(n % 10)]
}

/// The characters of `s`, in order.
pub fn to_chars(s: &str) -> (chars: Vec<char>)
    ensures
        chars@ == s@,
{
    let mut chars: Vec<char> = Vec::new();
    for c in iter: s.chars()
        invariant
            iter.seq() == s@,
            chars@ == s@.take(iter.index() as int),
    {
        chars.push(c);
        assert(s@.take(iter.index() + 1) =~= s@.take(iter.index() as int).push(c));
    }
    assert(s@.take(s@.len() as int) =~= s@);
    chars
}

/// The one-character text of the decimal digit `d`.
fn digit(d: u8) -> (text: &'static str)
    requires
        d < 10,
    ensures
        text@ == seq![spec_digit(d as int)],
{
    proof {
        reveal_strlit("0");
        reveal_strlit("1");
        reveal_strlit("2");
        reveal_strlit("3");
        reveal_strlit("4");
        reveal_strlit("5");
        reveal_strlit("6");
        reveal_strlit("7");
        reveal_strlit("8");
        reveal_strlit("9");
    }
    let text: &'static str = if d == 0 {
        "0"
    } else if d == 1 {
        "1"
    } else if d == 2 {
        "2"
    } else if d == 3 {
        "3"
    } else if d == 4 {
        "4"
    } else if d == 5 {
        "5"
    } else if d == 6 {
        "6"
    } else if d == 7 {
        "7"
    } else if d == 8 {
        "8"
    } else {
        "9"
    };
    assert(text@ =~= seq![spec_digit(d as int)]);
    text
}

/// Appends `n` in decimal notation to `out`.
pub fn push_decimal(out: &mut String, n: usize)
    ensures
        final(out)@ == old(out)@ + spec_decimal(n as nat),
    decreases n,
{
    if n < 10 {
        out.append(digit(n as u8));
    } else {
        push_decimal(out, n / 10);
        out.append(digit((n % 10) as u8));
        assert(old(out)@ + spec_decimal((n / 10) as nat) + seq![spec_digit((n % 10) as int)]
            =~= old(out)@ + spec_decimal(n as nat));
    }
}

/// Appends `n` as two decimal digits to `out`.
pub(crate) fn push_two_digits(out: &mut String, n: u32)
    requires
        n < 100,
    ensures
        final(out)@ == old(out)@ + spec_two_digits(n as int),
{
    out.append(digit((n / 10) as u8));
    out.append(digit((n % 10) as u8));
    assert(old(out)@ + seq![spec_digit(n as int / 10)] + seq![spec_digit(n as int % 10)]
        =~= old(out)@ + spec_two_digits(n as int));
}

/// The value of the first of `pairs` whose key is `key`.
pub open spec fn spec_first_value(pairs: Seq<(Seq<char>, Seq<char>)>, key: Seq<char>) -> Option<
    Seq<char>,
>
    decreases pairs.len(),
{
    if pairs.len() == 0 {
        None
    } else if pairs[0].0 == key {
        Some(pairs[0].1)
    } else {
        spec_first_value(pairs.drop_first(), key)
    }
}

/// The value of the first of `pairs` whose key is `key`.
pub fn first_value(pairs: &Vec<(String, String)>, key: &str) -> (value: Option<String>)
    ensures
        value.deep_view() == spec_first_value(pairs.deep_view(), key@),
{
    let wanted: String = String::from_str(key);
    let mut at: usize = 0;
    assert(pairs.deep_view().skip(0) =~= pairs.deep_view());
    while at < pairs.len()
        invariant
            at <= pairs.len(),
            wanted@ == key@,
            spec_first_value(pairs.deep_view(), key@) == spec_first_value(
                pairs.deep_view().skip(at as int),
                key@,
            ),
        decreases pairs.len() - at,
    {
        let ghost rest = pairs.deep_view().skip(at as int);
        assert(rest[0] == pairs.deep_view()[at as int]);
        assert(rest.drop_first() =~= pairs.deep_view().skip(at + 1));
        if pairs[at].0 == wanted {
            return Some(pairs[at].1.clone());
        }
        at = at + 1;
    }
    None
}

} // verus!
