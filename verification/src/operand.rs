//! The operand model: a tagged union describing every addressable location or
//! value a machine operation can read or write.
//!
//! An operand is a location descriptor, not a value; resolving it against
//! machine state yields or accepts a 32-bit unsigned quantity.

use vstd::prelude::*;
use vstd::string::StringExecFns;

verus! {

/// The *type* of a decode slot, fixed per instruction definition,
/// independent of the value extracted at decode time.
#[derive(Copy, Clone, PartialEq, Eq, Structural, Debug)]
pub enum OperandKind {
    Register,
    Address12,
    I,
    IndirectI,
    Literal12,
    Literal8,
    Literal4,
    DelayTimer,
    SoundTimer,
    Unused,
}

/// A concrete operand: a general register, the index register, the memory
/// cell the index register points at, an immediate literal of one of three
/// widths, one of the two countdown timers, or no location at all.
///
/// `Nowhere` must never be resolved for load or store: doing so indicates
/// the instruction table is wired incorrectly.
#[derive(Copy, Clone, PartialEq, Eq, Structural, Debug)]
pub enum Operand {
    Register(usize),
    Address12(usize),
    I,
    IndirectI,
    Literal12(usize),
    Literal8(usize),
    Literal4(usize),
    DelayTimer,
    SoundTimer,
    Nowhere,
}

impl Operand {
    /// An operand as the decoder produces it: register indices name one of
    /// the 16 registers, and each literal fits its declared width.
    pub open spec fn wf(self) -> bool {
        match self {
            Operand::Register(r) => r < 16,
            Operand::Address12(a) => a < 0x1000,
            Operand::Literal12(n) => n < 0x1000,
            Operand::Literal8(n) => n < 0x100,
            Operand::Literal4(n) => n < 0x10,
            _ => true,
        }
    }
}

/// The character for one hexadecimal digit, upper case.
pub open spec fn spec_hex_char(d: int) -> char {
    if d == 0 { '0' }
    else if d == 1 { '1' }
    else if d == 2 { '2' }
    else if d == 3 { '3' }
    else if d == 4 { '4' }
    else if d == 5 { '5' }
    else if d == 6 { '6' }
    else if d == 7 { '7' }
    else if d == 8 { '8' }
    else if d == 9 { '9' }
    else if d == 10 { 'A' }
    else if d == 11 { 'B' }
    else if d == 12 { 'C' }
    else if d == 13 { 'D' }
    else if d == 14 { 'E' }
    else { 'F' }
}

/// `n` rendered in upper-case hexadecimal, zero-padded to at least `w`
/// digits (and always at least one).
pub open spec fn spec_hex_min(n: nat, w: nat) -> Seq<char>
    decreases n, w,
{
    if n < 16 && w <= 1 {
        seq![spec_hex_char(n as int)]
    } else {
        spec_hex_min(n / 16, if w == 0 { 0 } else { (w - 1) as nat })
            + seq![spec_hex_char((n % 16) as int)]
    }
}

/// The rendering of an operand: `v3` for a register, `0x0FE` for a literal
/// (zero-padded to the literal's width), and fixed names for the register
/// `I`, the indirect cell, the timers and the missing operand.
pub open spec fn spec_operand_str(op: Operand) -> Seq<char> {
    match op {
        Operand::Register(r) => "v"@ + spec_hex_min(r as nat, 1),
        Operand::Address12(a) => "@0x"@ + spec_hex_min(a as nat, 1),
        Operand::Literal12(n) => "0x"@ + spec_hex_min(n as nat, 3),
        Operand::Literal8(n) => "0x"@ + spec_hex_min(n as nat, 2),
        Operand::Literal4(n) => "0x"@ + spec_hex_min(n as nat, 1),
        Operand::I => "I"@,
        Operand::IndirectI => "Indirect"@,
        Operand::SoundTimer => "ST"@,
        Operand::DelayTimer => "DT"@,
        Operand::Nowhere => "none"@,
    }
}

/// One hexadecimal digit as a string slice.
fn hex_digit_str(d: u8) -> (r: &'static str)
    requires
        d < 16,
    ensures
        r@ == seq![spec_hex_char(d as int)],
{
    match d {
        0 => { proof { reveal_strlit("0"); } "0" },
        1 => { proof { reveal_strlit("1"); } "1" },
        2 => { proof { reveal_strlit("2"); } "2" },
        3 => { proof { reveal_strlit("3"); } "3" },
        4 => { proof { reveal_strlit("4"); } "4" },
        5 => { proof { reveal_strlit("5"); } "5" },
        6 => { proof { reveal_strlit("6"); } "6" },
        7 => { proof { reveal_strlit("7"); } "7" },
        8 => { proof { reveal_strlit("8"); } "8" },
        9 => { proof { reveal_strlit("9"); } "9" },
        10 => { proof { reveal_strlit("A"); } "A" },
        11 => { proof { reveal_strlit("B"); } "B" },
        12 => { proof { reveal_strlit("C"); } "C" },
        13 => { proof { reveal_strlit("D"); } "D" },
        14 => { proof { reveal_strlit("E"); } "E" },
        _ => { proof { reveal_strlit("F"); } "F" },
    }
}

/// Appends the hexadecimal rendering of `n`, padded to at least `w` digits,
/// to `s`.
pub fn push_hex(s: &mut String, n: usize, w: usize)
    ensures
        final(s)@ == old(s)@ + spec_hex_min(n as nat, w as nat),
    decreases n, w,
{
    if n < 16 && w <= 1 {
        s.append(hex_digit_str(n as u8));
    } else {
        let w2: usize = if w == 0 { 0 } else { w - 1 };
        push_hex(s, n / 16, w2);
        s.append(hex_digit_str((n % 16) as u8));
        assert(final(s)@ =~= old(s)@ + spec_hex_min(n as nat, w as nat));
    }
}

impl Operand {
    /// A human-readable rendering of the operand.
    pub fn to_string(&self) -> (r: String)
        ensures
            r@ == spec_operand_str(*self),
    {
        let mut s = String::new();
        match *self {
            Operand::Register(r) => {
                proof { reveal_strlit("v"); }
                s.append("v");
                push_hex(&mut s, r, 1);
            },
            Operand::Address12(a) => {
                proof { reveal_strlit("@0x"); }
                s.append("@0x");
                push_hex(&mut s, a, 1);
            },
            Operand::Literal12(n) => {
                proof { reveal_strlit("0x"); }
                s.append("0x");
                push_hex(&mut s, n, 3);
            },
            Operand::Literal8(n) => {
                proof { reveal_strlit("0x"); }
                s.append("0x");
                push_hex(&mut s, n, 2);
            },
            Operand::Literal4(n) => {
                proof { reveal_strlit("0x"); }
                s.append("0x");
                push_hex(&mut s, n, 1);
            },
            Operand::I => {
                proof { reveal_strlit("I"); }
                s.append("I");
            },
            Operand::IndirectI => {
                proof { reveal_strlit("Indirect"); }
                s.append("Indirect");
            },
            Operand::SoundTimer => {
                proof { reveal_strlit("ST"); }
                s.append("ST");
            },
            Operand::DelayTimer => {
                proof { reveal_strlit("DT"); }
                s.append("DT");
            },
            Operand::Nowhere => {
                proof { reveal_strlit("none"); }
                s.append("none");
            },
        }
        proof {
            assert(s@ =~= spec_operand_str(*self));
        }
        s
    }
}

} // verus!
