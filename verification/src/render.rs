//! Canonical text renderings of the counter types.
//!
//! Each counter renders as its value in binary, zero-padded to the number of
//! digits its range needs: an index or position takes `INDX` digits, a tail
//! one more, and a selector or mask one digit per bit of the register. A
//! debug rendering prefixes the counter's type name and the name of the
//! register width it governs.

use vstd::prelude::*;
use vstd::string::StringExecFns;

use crate::index::{BitIdx, BitIdxErr, BitMask, BitPos, BitSel, BitTail};
use crate::register::RegisterKind;

verus! {

/// The binary rendering of the low `width` bits of a value, highest bit
/// first, one character per bit.
pub open spec fn binary_digits(v: int, width: nat) -> Seq<char>
    decreases width,
{
    if width == 0 {
        Seq::empty()
    } else {
        binary_digits(v / 2, (width - 1) as nat).push(if v % 2 == 1 {
            '1'
        } else {
            '0'
        })
    }
}

/// The character of one decimal digit.
pub open spec fn decimal_digit(d: int) -> char {
    if d == 0 {
        '0'
    } else if d == 1 {
        '1'
    } else if d == 2 {
        '2'
    } else if d == 3 {
        '3'
    } else if d == 4 {
        '4'
    } else if d == 5 {
        '5'
    } else if d == 6 {
        '6'
    } else if d == 7 {
        '7'
    } else if d == 8 {
        '8'
    } else {
        '9'
    }
}

/// The decimal rendering of a nonnegative value, highest digit first, with
/// no leading zeroes.
pub open spec fn decimal_digits(v: int) -> Seq<char>
    decreases v,
{
    if v < 10 {
        Seq::empty().push(decimal_digit(v))
    } else {
        decimal_digits(v / 10).push(decimal_digit(v % 10))
    }
}

/// The name of the primitive integer type of a register width.
pub open spec fn spec_width_name(kind: RegisterKind) -> Seq<char> {
    match kind {
        RegisterKind::R8 => "u8"@,
        RegisterKind::R16 => "u16"@,
        RegisterKind::R32 => "u32"@,
        RegisterKind::R64 => "u64"@,
    }
}

/// Renders the name of the primitive integer type of a register width.
pub fn width_name(kind: RegisterKind) -> (r: String)
    ensures
        r@ == spec_width_name(kind),
{
    match kind {
        RegisterKind::R8 => "u8".to_owned(),
        RegisterKind::R16 => "u16".to_owned(),
        RegisterKind::R32 => "u32".to_owned(),
        RegisterKind::R64 => "u64".to_owned(),
    }
}

/// Renders the low `width` bits of a value in binary, highest bit first.
pub fn binary_string(v: u64, width: u8) -> (r: String)
    ensures
        r@ == binary_digits(v as int, width as nat),
    decreases width,
{
    if width == 0 {
        String::new()
    } else {
        let mut s = binary_string(v / 2, width - 1);
        proof {
            reveal_strlit("0");
            reveal_strlit("1");
            assert(s@ + "1"@ =~= s@.push('1'));
            assert(s@ + "0"@ =~= s@.push('0'));
        }
        if v % 2 == 1 {
            s.append("1");
        } else {
            s.append("0");
        }
        s
    }
}

/// Renders a value in decimal, highest digit first, with no leading zeroes.
pub fn decimal_string(v: u8) -> (r: String)
    ensures
        r@ == decimal_digits(v as int),
    decreases v,
{
    let mut s = if v < 10 {
        String::new()
    } else {
        decimal_string(v / 10)
    };
    proof {
        reveal_strlit("0");
        reveal_strlit("1");
        reveal_strlit("2");
        reveal_strlit("3");
        reveal_strlit("4");
        reveal_strlit("5");
        reveal_strlit("6");
        reveal_strlit("7");
        reveal_strlit("8");
        reveal_strlit("9");
        assert(s@ + "0"@ =~= s@.push('0'));
        assert(s@ + "1"@ =~= s@.push('1'));
        assert(s@ + "2"@ =~= s@.push('2'));
        assert(s@ + "3"@ =~= s@.push('3'));
        assert(s@ + "4"@ =~= s@.push('4'));
        assert(s@ + "5"@ =~= s@.push('5'));
        assert(s@ + "6"@ =~= s@.push('6'));
        assert(s@ + "7"@ =~= s@.push('7'));
        assert(s@ + "8"@ =~= s@.push('8'));
        assert(s@ + "9"@ =~= s@.push('9'));
    }
    match v % 10 {
        0 => s.append("0"),
        1 => s.append("1"),
        2 => s.append("2"),
        3 => s.append("3"),
        4 => s.append("4"),
        5 => s.append("5"),
        6 => s.append("6"),
        7 => s.append("7"),
        8 => s.append("8"),
        _ => s.append("9"),
    }
    s
}

/// Renders a counter in its canonical shape: the type name, the register
/// width's name in angle brackets, and the digits in parentheses.
fn wrapped(label: &str, kind: RegisterKind, digits: String) -> (r: String)
    ensures
        r@ == label@ + "<"@ + spec_width_name(kind) + ">("@ + digits@ + ")"@,
{
    let mut s = label.to_owned();
    s.append("<");
    let name = width_name(kind);
    s.append(name.as_str());
    s.append(">(");
    s.append(digits.as_str());
    s.append(")");
    s
}

impl BitIdx {
    /// Renders the index in binary, in `INDX` digits.
    pub fn render(self) -> (r: String)
        ensures
            r@ == binary_digits(self.spec_value() as int, self.spec_kind().spec_indx() as nat),
    {
        binary_string(self.value() as u64, self.kind().indx())
    }

    /// Renders the index for debugging, with its type and register names.
    pub fn debug_render(self) -> (r: String)
        ensures
            r@ == "BitIdx"@ + "<"@ + spec_width_name(self.spec_kind()) + ">("@ + binary_digits(
                self.spec_value() as int,
                self.spec_kind().spec_indx() as nat,
            ) + ")"@,
    {
        wrapped("BitIdx", self.kind(), self.render())
    }
}

impl BitIdxErr {
    /// Renders the rejected value in decimal.
    pub fn render(self) -> (r: String)
        ensures
            r@ == decimal_digits(self.spec_value() as int),
    {
        decimal_string(self.value())
    }

    /// Renders the rejected value for debugging, with its type and register
    /// names.
    pub fn debug_render(self) -> (r: String)
        ensures
            r@ == "BitIdxErr"@ + "<"@ + spec_width_name(self.spec_kind()) + ">("@ + decimal_digits(
                self.spec_value() as int,
            ) + ")"@,
    {
        wrapped("BitIdxErr", self.kind(), self.render())
    }

    /// Renders the full report: the rejected value, the register type it
    /// cannot index, and that register's width.
    pub fn display_render(self) -> (r: String)
        ensures
            r@ == "The value "@ + decimal_digits(self.spec_value() as int)
                + " is too large to index into "@ + spec_width_name(self.spec_kind()) + " ("@
                + decimal_digits(self.spec_kind().spec_bits() as int) + " bits)"@,
    {
        let mut s = "The value ".to_owned();
        let digits = decimal_string(self.value());
        s.append(digits.as_str());
        s.append(" is too large to index into ");
        let name = width_name(self.kind());
        s.append(name.as_str());
        s.append(" (");
        let width = decimal_string(self.kind().bits());
        s.append(width.as_str());
        s.append(" bits)");
        s
    }
}

impl BitTail {
    /// Renders the tail in binary, in `INDX + 1` digits.
    pub fn render(self) -> (r: String)
        ensures
            r@ == binary_digits(
                self.spec_value() as int,
                self.spec_kind().spec_indx() as nat + 1,
            ),
    {
        binary_string(self.value() as u64, self.kind().indx() + 1)
    }

    /// Renders the tail for debugging, with its type and register names.
    pub fn debug_render(self) -> (r: String)
        ensures
            r@ == "BitTail"@ + "<"@ + spec_width_name(self.spec_kind()) + ">("@ + binary_digits(
                self.spec_value() as int,
                self.spec_kind().spec_indx() as nat + 1,
            ) + ")"@,
    {
        wrapped("BitTail", self.kind(), self.render())
    }
}

impl BitPos {
    /// Renders the position in binary, in `INDX` digits.
    pub fn render(self) -> (r: String)
        ensures
            r@ == binary_digits(self.spec_value() as int, self.spec_kind().spec_indx() as nat),
    {
        binary_string(self.value() as u64, self.kind().indx())
    }

    /// Renders the position for debugging, with its type and register names.
    pub fn debug_render(self) -> (r: String)
        ensures
            r@ == "BitPos"@ + "<"@ + spec_width_name(self.spec_kind()) + ">("@ + binary_digits(
                self.spec_value() as int,
                self.spec_kind().spec_indx() as nat,
            ) + ")"@,
    {
        wrapped("BitPos", self.kind(), self.render())
    }
}

impl BitSel {
    /// Renders the selector in binary, one digit per bit of the register.
    pub fn render(self) -> (r: String)
        ensures
            r@ == binary_digits(self.spec_value() as int, self.spec_kind().spec_bits() as nat),
    {
        binary_string(self.value(), self.kind().bits())
    }

    /// Renders the selector for debugging, with its type and register names.
    pub fn debug_render(self) -> (r: String)
        ensures
            r@ == "BitSel"@ + "<"@ + spec_width_name(self.spec_kind()) + ">("@ + binary_digits(
                self.spec_value() as int,
                self.spec_kind().spec_bits() as nat,
            ) + ")"@,
    {
        wrapped("BitSel", self.kind(), self.render())
    }
}

impl BitMask {
    /// Renders the mask in binary, one digit per bit of the register.
    pub fn render(self) -> (r: String)
        ensures
            r@ == binary_digits(self.spec_value() as int, self.spec_kind().spec_bits() as nat),
    {
        binary_string(self.value(), self.kind().bits())
    }

    /// Renders the mask for debugging, with its type and register names.
    pub fn debug_render(self) -> (r: String)
        ensures
            r@ == "BitMask"@ + "<"@ + spec_width_name(self.spec_kind()) + ">("@ + binary_digits(
                self.spec_value() as int,
                self.spec_kind().spec_bits() as nat,
            ) + ")"@,
    {
        wrapped("BitMask", self.kind(), self.render())
    }
}

} // verus!
