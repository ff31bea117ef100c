//! Decimal formatting of line numbers and colour channels.

use vstd::prelude::*;

verus! {

/// The width of the line-number field: digits are right-aligned in this many
/// columns before the tab separator.
pub const NUMBER_WIDTH: usize = 6;

/// The character for one decimal digit value.
pub open spec fn digit_char(d: int) -> char {
    if d == 0 {
        '0'
    } else if d == 1 {
        '1'
    } else if d == 2 {
        '2'
    } else if d == 3 {
        '3'
    } else if d == 4 {
        '4'
    } else if d == 5 {
        '5'
    } else if d == 6 {
        '6'
    } else if d == 7 {
        '7'
    } else if d == 8 {
        '8'
    } else {
        '9'
    }
}

/// The decimal digit characters of a non-negative integer, most significant
/// digit first, with no sign, padding or separators.
pub open spec fn dec_digits(n: int) -> Seq<char>
    decreases n,
{
    if n <= 9 {
        seq![digit_char(n)]
    } else {
        dec_digits(n / 10).push(digit_char(n % 10))
    }
}

/// A run of `k` space characters (empty when `k` is not positive).
pub open spec fn spaces(k: int) -> Seq<char> {
    Seq::new(if k < 0 { 0 } else { k } as nat, |i: int| ' ')
}

/// The prefix put before a numbered line: the decimal digits of the line
/// number right-aligned in a field of `NUMBER_WIDTH` columns, then a tab.
pub open spec fn num_prefix(n: int) -> Seq<char> {
    spaces(NUMBER_WIDTH - dec_digits(n).len()) + dec_digits(n) + seq!['\t']
}

/// Appends the decimal digits of `n` to `out`.
pub fn push_decimal(out: &mut String, n: u64)
    ensures
        final(out)@ == old(out)@ + dec_digits(n as int),
    decreases n,
{
    if n > 9 {
        push_decimal(out, n / 10);
    }
    let d: u64 = n % 10;
    let ds: &str = if d == 0 {
        "0"
    } else if d == 1 {
        "1"
    } else if d == 2 {
        "2"
    } else if d == 3 {
        "3"
    } else if d == 4 {
        "4"
    } else if d == 5 {
        "5"
    } else if d == 6 {
        "6"
    } else if d == 7 {
        "7"
    } else if d == 8 {
        "8"
    } else {
        "9"
    };
    proof {
        reveal_strlit("0");
        reveal_strlit("1");
        reveal_strlit("2");
        reveal_strlit("3");
        reveal_strlit("4");
        reveal_strlit("5");
        reveal_strlit("6");
        reveal_strlit("7");
        reveal_strlit("8");
        reveal_strlit("9");
        assert(ds@ =~= seq![digit_char(d as int)]);
    }
    out.append(ds);
    proof {
        assert(out@ =~= old(out)@ + dec_digits(n as int));
    }
}

/// Formats the prefix of a numbered line: `n` right-aligned in a field of
/// `NUMBER_WIDTH` columns followed by a tab.
pub fn format_line_number(n: u64) -> (r: String)
    ensures
        r@ == num_prefix(n as int),
{
    let mut digits = String::new();
    push_decimal(&mut digits, n);
    let dl: usize = digits.as_str().unicode_len();
    proof {
        assert(digits@ =~= dec_digits(n as int));
    }
    let mut out = String::new();
    let mut pad: usize = if dl >= NUMBER_WIDTH {
        0
    } else {
        NUMBER_WIDTH - dl
    };
    let ghost pad0: int = pad as int;
    while pad > 0
        invariant
            0 <= pad <= pad0,
            out@ == spaces(pad0 - pad),
        decreases pad,
    {
        out.append(" ");
        pad = pad - 1;
        proof {
            reveal_strlit(" ");
            assert(out@ =~= spaces(pad0 - pad));
        }
    }
    out.append(digits.as_str());
    out.append("\t");
    proof {
        reveal_strlit("\t");
        assert(out@ =~= num_prefix(n as int));
    }
    out
}

} // verus!
