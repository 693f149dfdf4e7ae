//! Decimal rendering of integers and the small amount of string assembly that
//! URLs and header values need.

use crate::util::request::strs_view;
use crate::util::request::texts_view;
use vstd::prelude::*;

verus! {

/// The character that stands for one decimal digit.
pub open spec fn digit_char(d: nat) -> char
    recommends
        d < 10,
{
    if d == 0 {
        '0'
    } else if d == 1 {
        '1'
    } else if d == 2 {
        '2'
    } else if d == 3 {
        '3'
    } else if d == 4 {
        '4'
    } else if d == 5 {
        '5'
    } else if d == 6 {
        '6'
    } else if d == 7 {
        '7'
    } else if d == 8 {
        '8'
    } else {
        '9'
    }
}

/// The decimal digits of a natural number, most significant first, without
/// leading zeros; zero is the single digit `0`.
pub open spec fn decimal_digits(n: nat) -> Seq<char>
    decreases n,
{
    if n < 10 {
        seq![digit_char(n)]
    } else {
        decimal_digits(n / 10).push(digit_char(n % 10))
    }
}

/// The decimal text of an integer: a minus sign for negative numbers, then the
/// digits of the magnitude.
pub open spec fn decimal(n: int) -> Seq<char> {
    if n < 0 {
        seq!['-'] + decimal_digits((-n) as nat)
    } else {
        decimal_digits(n as nat)
    }
}

/// The one-character string for a decimal digit.
fn digit_str(d: u64) -> (s: &'static str)
    requires
        d < 10,
    ensures
        s@ == seq![digit_char(d as nat)],
{
    proof {
        reveal_strlit("0");
        reveal_strlit("1");
        reveal_strlit("2");
        reveal_strlit("3");
        reveal_strlit("4");
        reveal_strlit("5");
        reveal_strlit("6");
        reveal_strlit("7");
        reveal_strlit("8");
        reveal_strlit("9");
    }
    let s = if d == 0 {
        "0"
    } else if d == 1 {
        "1"
    } else if d == 2 {
        "2"
    } else if d == 3 {
        "3"
    } else if d == 4 {
        "4"
    } else if d == 5 {
        "5"
    } else if d == 6 {
        "6"
    } else if d == 7 {
        "7"
    } else if d == 8 {
        "8"
    } else {
        "9"
    };
    s
}

/// Appends the decimal digits of `n` to `out`.
pub fn push_decimal_digits(out: &mut String, n: u64)
    ensures
        final(out)@ == old(out)@ + decimal_digits(n as nat),
    decreases n,
{
    if n >= 10 {
        push_decimal_digits(out, n / 10);
    }
    out.append(digit_str(n % 10));
}

/// Appends the decimal text of `n` to `out`.
pub fn push_decimal(out: &mut String, n: i64)
    ensures
        final(out)@ == old(out)@ + decimal(n as int),
{
    if n < 0 {
        proof {
            reveal_strlit("-");
        }
        out.append("-");
        let magnitude: u64 = ((-(n + 1)) as u64) + 1;
        push_decimal_digits(out, magnitude);
    } else {
        push_decimal_digits(out, n as u64);
    }
}

/// Writes `prefix`, then the decimal text of `id`.
pub fn text_with_id(prefix: &str, id: i64) -> (out: String)
    ensures
        out@ == prefix@ + decimal(id as int),
{
    let mut out = String::from_str(prefix);
    push_decimal(&mut out, id);
    out
}

/// Writes `prefix`, the decimal text of `id`, then `suffix`.
pub fn text_around_id(prefix: &str, id: i64, suffix: &str) -> (out: String)
    ensures
        out@ == prefix@ + decimal(id as int) + suffix@,
{
    let mut out = text_with_id(prefix, id);
    out.append(suffix);
    out
}

/// Writes `prefix`, the decimal text of `first`, `middle`, then the decimal
/// text of `second`.
pub fn text_with_two_ids(prefix: &str, first: i64, middle: &str, second: i64) -> (out: String)
    ensures
        out@ == prefix@ + decimal(first as int) + middle@ + decimal(second as int),
{
    let mut out = text_around_id(prefix, first, middle);
    push_decimal(&mut out, second);
    out
}

/// Writes `prefix`, the decimal text of `first`, `middle`, the decimal text
/// of `second`, then `suffix`.
pub fn text_around_two_ids(
    prefix: &str,
    first: i64,
    middle: &str,
    second: i64,
    suffix: &str,
) -> (out: String)
    ensures
        out@ == prefix@ + decimal(first as int) + middle@ + decimal(second as int) + suffix@,
{
    let mut out = text_with_two_ids(prefix, first, middle, second);
    out.append(suffix);
    out
}

/// The decimal texts of a list of integers, separated by commas.
pub open spec fn comma_separated(ids: Seq<i64>) -> Seq<char>
    decreases ids.len(),
{
    if ids.len() == 0 {
        Seq::empty()
    } else if ids.len() == 1 {
        decimal(ids[0] as int)
    } else {
        comma_separated(ids.drop_last()) + seq![','] + decimal(ids.last() as int)
    }
}

/// Appends the decimal texts of `ids`, separated by commas, to `out`.
pub fn push_comma_separated(out: &mut String, ids: &Vec<i64>)
    ensures
        final(out)@ == old(out)@ + comma_separated(ids@),
{
    let mut i: usize = 0;
    while i < ids.len()
        invariant
            i <= ids.len(),
            out@ == old(out)@ + comma_separated(ids@.take(i as int)),
        decreases ids.len() - i,
    {
        if i > 0 {
            proof {
                reveal_strlit(",");
            }
            out.append(",");
        }
        push_decimal(out, ids[i]);
        assert(ids@.take(i + 1).drop_last() =~= ids@.take(i as int));
        i += 1;
    }
    assert(ids@.take(ids.len() as int) =~= ids@);
}

/// The first of a list of items, if it has any.
pub fn first_item<T>(items: Vec<T>) -> (out: Option<T>)
    ensures
        out == if items@.len() == 0 {
            None
        } else {
            Some(items@[0])
        },
{
    let mut items = items;
    if items.len() == 0 {
        None
    } else {
        Some(items.swap_remove(0))
    }
}

/// Copies each borrowed text of a list.
pub fn owned_texts(texts: &Vec<&str>) -> (out: Vec<String>)
    ensures
        texts_view(out@) == strs_view(texts@),
{
    let mut out: Vec<String> = Vec::new();
    let mut i: usize = 0;
    while i < texts.len()
        invariant
            i <= texts.len(),
            out@.len() == i,
            forall|j: int| 0 <= j < i ==> (#[trigger] out@[j])@ == texts@[j]@,
        decreases texts.len() - i,
    {
        out.push(String::from_str(texts[i]));
        i += 1;
    }
    out
}

} // verus!
