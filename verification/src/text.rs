//! Numbers as text, for messages and addresses.

use vstd::prelude::*;

verus! {

/// The standard library's formatter, which a `Debug` impl writes to.
#[verifier::external_type_specification]
#[verifier::external_body]
pub struct ExFormatter<'a>(core::fmt::Formatter<'a>);

/// The error that writing to a formatter can give.
#[verifier::external_type_specification]
#[verifier::external_body]
pub struct ExFormatterError(core::fmt::Error);

/// `core::fmt::Formatter::write_str` hands a piece of text to whatever the
/// formatter writes to. Nothing is claimed of the result, which is that
/// writer's to decide.
pub assume_specification<'a>[ core::fmt::Formatter::<'a>::write_str ](
    formatter: &mut core::fmt::Formatter<'a>,
    data: &str,
) -> core::fmt::Result;

/// The character of one hexadecimal digit, in lower case.
pub open spec fn digit_char(digit: nat) -> char {
    if digit == 0 { '0' }
    else if digit == 1 { '1' }
    else if digit == 2 { '2' }
    else if digit == 3 { '3' }
    else if digit == 4 { '4' }
    else if digit == 5 { '5' }
    else if digit == 6 { '6' }
    else if digit == 7 { '7' }
    else if digit == 8 { '8' }
    else if digit == 9 { '9' }
    else if digit == 10 { 'a' }
    else if digit == 11 { 'b' }
    else if digit == 12 { 'c' }
    else if digit == 13 { 'd' }
    else if digit == 14 { 'e' }
    else { 'f' }
}

/// `value` in base ten, without leading zeros.
pub open spec fn decimal(value: nat) -> Seq<char>
    decreases value,
{
    if value < 10 {
        seq![digit_char(value)]
    } else {
        decimal(value / 10).push(digit_char(value % 10))
    }
}

/// `value` in hexadecimal, padded with zeros to at least `width` digits.
pub open spec fn hex_digits(value: nat, width: nat) -> Seq<char>
    decreases width, value,
{
    if value < 16 && width <= 1 {
        seq![digit_char(value)]
    } else {
        hex_digits(value / 16, if width == 0 { 0 } else { (width - 1) as nat }).push(
            digit_char(value % 16),
        )
    }
}

/// `value` as `0x` and at least `width` hexadecimal digits.
pub open spec fn hex(value: nat, width: nat) -> Seq<char> {
    "0x"@ + hex_digits(value, width)
}

/// The text of one hexadecimal digit.
fn digit(value: u8) -> (res: &'static str)
    requires
        value < 16,
    ensures
        res@ == seq![digit_char(value as nat)],
{
    proof {
        reveal_strlit("0");
        reveal_strlit("1");
        reveal_strlit("2");
        reveal_strlit("3");
        reveal_strlit("4");
        reveal_strlit("5");
        reveal_strlit("6");
        reveal_strlit("7");
        reveal_strlit("8");
        reveal_strlit("9");
        reveal_strlit("a");
        reveal_strlit("b");
        reveal_strlit("c");
        reveal_strlit("d");
        reveal_strlit("e");
        reveal_strlit("f");
    }
    let res = match value {
        0 => "0",
        1 => "1",
        2 => "2",
        3 => "3",
        4 => "4",
        5 => "5",
        6 => "6",
        7 => "7",
        8 => "8",
        9 => "9",
        10 => "a",
        11 => "b",
        12 => "c",
        13 => "d",
        14 => "e",
        _ => "f",
    };
    proof {
        assert(res@ =~= seq![digit_char(value as nat)]);
    }
    res
}

/// Appends `value` in base ten.
pub fn push_decimal(out: &mut String, value: u64)
    ensures
        final(out)@ == old(out)@ + decimal(value as nat),
    decreases value,
{
    let ghost before = out@;
    if value >= 10 {
        push_decimal(out, value / 10);
        out.append(digit((value % 10) as u8));
    } else {
        out.append(digit(value as u8));
    }
    proof {
        assert(out@ =~= before + decimal(value as nat));
    }
}

/// Appends `value` in hexadecimal, padded to at least `width` digits.
pub fn push_hex_digits(out: &mut String, value: u64, width: u8)
    ensures
        final(out)@ == old(out)@ + hex_digits(value as nat, width as nat),
    decreases width, value,
{
    let ghost before = out@;
    if value < 16 && width <= 1 {
        out.append(digit(value as u8));
    } else {
        push_hex_digits(out, value / 16, if width == 0 { 0 } else { width - 1 });
        out.append(digit((value % 16) as u8));
    }
    proof {
        assert(out@ =~= before + hex_digits(value as nat, width as nat));
    }
}

/// Appends `0x` and `value` in hexadecimal, padded to at least `width` digits.
pub fn push_hex(out: &mut String, value: u64, width: u8)
    ensures
        final(out)@ == old(out)@ + hex(value as nat, width as nat),
{
    let ghost before = out@;
    out.append("0x");
    push_hex_digits(out, value, width);
    proof {
        assert(out@ =~= before + hex(value as nat, width as nat));
    }
}

/// How many values `width` hexadecimal digits can tell apart.
pub open spec fn hex_limit(width: nat) -> nat
    decreases width,
{
    if width == 0 {
        1
    } else {
        16 * hex_limit((width - 1) as nat)
    }
}

/// A value that fits in `width` digits is written with exactly that many.
pub proof fn fitting_values_have_fixed_width(value: nat, width: nat)
    requires
        width >= 1,
        value < hex_limit(width),
    ensures
        hex_digits(value, width).len() == width,
    decreases width,
{
    if width == 1 {
        assert(hex_limit(1) == 16) by {
            reveal_with_fuel(hex_limit, 2);
        }
    } else {
        fitting_values_have_fixed_width(value / 16, (width - 1) as nat);
    }
}

} // verus!
