//! Cell values as read from a sheet, and their display text.

use vstd::prelude::*;
use vstd::string::*;

verus! {

/// One cell of a sheet.
///
/// A fractional number is carried as the text it displays as; every other
/// kind keeps its value and is rendered by [`normalize`].
#[derive(Clone, Debug)]
pub enum CellValue {
    Empty,
    Text(String),
    Number(String),
    Int(i64),
    Bool(bool),
}

/// The character for a decimal digit.
pub open spec fn digit_char(d: nat) -> char {
    seq!['0', '1', '2', '3', '4', '5', '6', '7', '8', '9'][d as int]
}

/// The decimal digits of `n`, most significant first, without leading zeros.
pub open spec fn decimal_digits(n: nat) -> Seq<char>
    decreases n,
{
    if n < 10 {
        seq![digit_char(n)]
    } else {
        decimal_digits(n / 10).push(digit_char(n % 10))
    }
}

/// The decimal text of an integer, with a leading `-` when it is negative.
pub open spec fn int_text(i: int) -> Seq<char> {
    if i < 0 {
        seq!['-'] + decimal_digits((-i) as nat)
    } else {
        decimal_digits(i as nat)
    }
}

/// The display text of a cell: empty for an empty cell, `TRUE` or `FALSE`
/// for a boolean, the decimal text of an integer, and text as it is.
pub open spec fn cell_text(c: CellValue) -> Seq<char> {
    match c {
        CellValue::Empty => Seq::empty(),
        CellValue::Text(s) => s@,
        CellValue::Number(s) => s@,
        CellValue::Int(i) => int_text(i as int),
        CellValue::Bool(b) => if b { "TRUE"@ } else { "FALSE"@ },
    }
}

/// The one-character text of a decimal digit.
fn digit_str(d: u64) -> (r: &'static str)
    requires
        d < 10,
    ensures
        r@ == seq![digit_char(d as nat)],
{
    proof {
        reveal_strlit("0");
        reveal_strlit("1");
        reveal_strlit("2");
        reveal_strlit("3");
        reveal_strlit("4");
        reveal_strlit("5");
        reveal_strlit("6");
        reveal_strlit("7");
        reveal_strlit("8");
        reveal_strlit("9");
    }
    if d == 0 {
        "0"
    } else if d == 1 {
        "1"
    } else if d == 2 {
        "2"
    } else if d == 3 {
        "3"
    } else if d == 4 {
        "4"
    } else if d == 5 {
        "5"
    } else if d == 6 {
        "6"
    } else if d == 7 {
        "7"
    } else if d == 8 {
        "8"
    } else {
        "9"
    }
}

/// Appends the decimal digits of `n` to `out`.
fn push_decimal(out: &mut String, n: u64)
    ensures
        final(out)@ == old(out)@ + decimal_digits(n as nat),
    decreases n,
{
    if n >= 10 {
        push_decimal(out, n / 10);
    }
    out.append(digit_str(n % 10));
    assert(final(out)@ =~= old(out)@ + decimal_digits(n as nat));
}

/// The decimal text of `i`.
pub fn integer_text(i: i64) -> (r: String)
    ensures
        r@ == int_text(i as int),
{
    let mut out = String::new();
    if i < 0 {
        proof {
            reveal_strlit("-");
        }
        out.append("-");
        let m: u64 = (-(i as i128)) as u64;
        push_decimal(&mut out, m);
        assert(out@ =~= int_text(i as int));
    } else {
        push_decimal(&mut out, i as u64);
        assert(out@ =~= int_text(i as int));
    }
    out
}

/// The display text of a cell.
pub fn normalize(c: &CellValue) -> (r: String)
    ensures
        r@ == cell_text(*c),
{
    match c {
        CellValue::Empty => String::new(),
        CellValue::Text(s) => s.clone(),
        CellValue::Number(s) => s.clone(),
        CellValue::Int(i) => integer_text(*i),
        CellValue::Bool(b) => {
            if *b {
                String::from_str("TRUE")
            } else {
                String::from_str("FALSE")
            }
        },
    }
}

} // verus!
