//! The instruction table and decoder.
//!
//! Each instruction definition couples an operation, the operand kinds of its
//! three slots, and a 4-nibble coding pattern.  From the pattern a 16-bit
//! match-mask and match-value are precomputed once at table-build time; a
//! candidate word matches a definition iff `(word & mask) == (value & mask)`.
//! The decoder walks the table in priority order and, on the first match,
//! re-scans the pattern to extract the operand data.

use vstd::prelude::*;
use vstd::string::StrSliceExecFns;
use vstd::string::StringExecFns;
use crate::operand::{Operand, OperandKind, spec_operand_str};

verus! {

/// A 16-bit CHIP-8 instruction word.
pub type Word = u16;

/// One nibble of an instruction coding pattern: either a fixed constant
/// `C(n)` that a word must carry to match, or a marker naming the decoded
/// field (`D`est, `S`rc or `A`ux) this nibble contributes to.  When a field
/// spans several nibbles the leftmost is most significant.
#[derive(Copy, Clone, PartialEq, Eq, Structural, Debug)]
pub enum Coding {
    C(u8),
    D,
    S,
    A,
}

/// The 4-nibble coding pattern of one instruction definition.
pub type Pattern = [Coding; 4];

/// The closed set of semantic operations.  Several bit patterns map to the
/// same operation (register-register and index-register `Add` both reuse the
/// add operation); `Invalid` stands for a word no definition matches.
#[derive(Copy, Clone, PartialEq, Eq, Structural, Debug)]
pub enum Operation {
    Add,
    Sub,
    SubN,
    Or,
    And,
    Xor,
    ShiftRight,
    ShiftLeft,
    Load,
    Font,
    Bcd,
    Rand,
    SkipEq,
    SkipNeq,
    SkipKey,
    SkipNKey,
    WaitKey,
    Jump,
    JumpV0,
    Call,
    Ret,
    Cls,
    Sprite,
    Stash,
    Fetch,
    Invalid,
}

/// Most significant nibble of a word.
pub open spec fn nib0(w: u16) -> u16 {
    w / 0x1000
}

/// Second nibble of a word.
pub open spec fn nib1(w: u16) -> u16 {
    (w / 0x100) % 16
}

/// Third nibble of a word.
pub open spec fn nib2(w: u16) -> u16 {
    (w / 16) % 16
}

/// Least significant nibble of a word.
pub open spec fn nib3(w: u16) -> u16 {
    w % 16
}

/// The low 12 bits of a word: an absolute address operand.
pub open spec fn addr12(w: u16) -> u16 {
    w % 0x1000
}

/// The low 8 bits of a word: a byte literal operand.
pub open spec fn byte8(w: u16) -> u16 {
    w % 0x100
}

/// The nibbles of a word compose back to its low bits.
pub proof fn lemma_nib_compose(w: u16)
    by (bit_vector)
    ensures
        nib1(w) * 0x100 + nib2(w) * 16 + nib3(w) == addr12(w),
        nib2(w) * 16 + nib3(w) == byte8(w),
        nib0(w) < 16,
        addr12(w) < 0x1000,
        byte8(w) < 0x100,
{
}

/// The mask contribution of one pattern nibble: fixed nibbles must match,
/// marker nibbles are free.
pub open spec fn coding_mask(c: Coding) -> u16 {
    match c {
        Coding::C(_) => 0xF,
        _ => 0,
    }
}

/// The value contribution of one pattern nibble.
pub open spec fn coding_value(c: Coding) -> u16 {
    match c {
        Coding::C(n) => (n as u16) % 16,
        _ => 0,
    }
}

/// The 16-bit match-mask derived from a pattern.
pub open spec fn spec_mask(p: Pattern) -> u16 {
    (coding_mask(p@[0]) * 0x1000 + coding_mask(p@[1]) * 0x100 + coding_mask(p@[2]) * 16
        + coding_mask(p@[3])) as u16
}

/// The 16-bit match-value derived from a pattern.
pub open spec fn spec_value(p: Pattern) -> u16 {
    (coding_value(p@[0]) * 0x1000 + coding_value(p@[1]) * 0x100 + coding_value(p@[2]) * 16
        + coding_value(p@[3])) as u16
}

/// A mask whose nibbles are each all-ones or all-zeroes selects exactly the
/// words whose nibbles agree with the match-value wherever the mask is set.
pub proof fn lemma_mask_match(w: u16, m: u16, v: u16)
    by (bit_vector)
    requires
        m / 0x1000 == 0xF || m / 0x1000 == 0,
        (m / 0x100) % 16 == 0xF || (m / 0x100) % 16 == 0,
        (m / 16) % 16 == 0xF || (m / 16) % 16 == 0,
        m % 16 == 0xF || m % 16 == 0,
    ensures
        ((w & m) == (v & m)) <==> ((m / 0x1000 == 0xF ==> w / 0x1000 == v / 0x1000) && ((m
            / 0x100) % 16 == 0xF ==> (w / 0x100) % 16 == (v / 0x100) % 16) && ((m / 16) % 16
            == 0xF ==> (w / 16) % 16 == (v / 16) % 16) && (m % 16 == 0xF ==> w % 16 == v
            % 16)),
{
}

/// The mask contribution of one pattern nibble, computed.
fn cmask(c: Coding) -> (r: u16)
    ensures
        r == coding_mask(c),
{
    match c {
        Coding::C(_) => 0xF,
        _ => 0,
    }
}

/// The value contribution of one pattern nibble, computed.
fn cvalue(c: Coding) -> (r: u16)
    ensures
        r == coding_value(c),
{
    match c {
        Coding::C(n) => (n as u16) % 16,
        _ => 0,
    }
}

/// Defines one kind of instruction: the operation, the operand kinds of the
/// `dest`, `src` and `aux` slots, the coding pattern, the mask and value
/// precomputed from it, and a mnemonic template in which `{d}`, `{s}` and
/// `{a}` stand for the decoded operands.
pub struct InstructionDef {
    pub operation: Operation,
    pub dest_kind: OperandKind,
    pub src_kind: OperandKind,
    pub aux_kind: OperandKind,
    pub pattern: Pattern,
    pub mask: u16,
    pub value: u16,
    pub mnemonic: String,
}

impl InstructionDef {
    /// Builds a definition, precomputing the match-mask and match-value from
    /// the coding pattern.
    pub fn new(
        operation: Operation,
        dest: OperandKind,
        src: OperandKind,
        aux: OperandKind,
        pattern: Pattern,
        mnemonic: &str,
    ) -> (r: InstructionDef)
        ensures
            r.operation == operation,
            r.dest_kind == dest,
            r.src_kind == src,
            r.aux_kind == aux,
            r.pattern == pattern,
            r.mask == spec_mask(pattern),
            r.value == spec_value(pattern),
            r.mnemonic@ == mnemonic@,
    {
        let mask = cmask(pattern[0]) * 0x1000 + cmask(pattern[1]) * 0x100 + cmask(pattern[2]) * 16
            + cmask(pattern[3]);
        let value = cvalue(pattern[0]) * 0x1000 + cvalue(pattern[1]) * 0x100 + cvalue(pattern[2])
            * 16 + cvalue(pattern[3]);
        InstructionDef {
            operation,
            dest_kind: dest,
            src_kind: src,
            aux_kind: aux,
            pattern,
            mask,
            value,
            mnemonic: mnemonic.to_owned(),
        }
    }

    /// A field-for-field copy of the definition.
    pub fn duplicate(&self) -> (r: InstructionDef)
        ensures
            r == *self,
    {
        InstructionDef {
            operation: self.operation,
            dest_kind: self.dest_kind,
            src_kind: self.src_kind,
            aux_kind: self.aux_kind,
            pattern: self.pattern,
            mask: self.mask,
            value: self.value,
            mnemonic: self.mnemonic.clone(),
        }
    }
}

/// Splits a word into its four nibbles, most significant first.
pub fn split_nibbles_u16(word: u16) -> (r: (u8, u8, u8, u8))
    ensures
        r.0 == nib0(word),
        r.1 == nib1(word),
        r.2 == nib2(word),
        r.3 == nib3(word),
{
    proof {
        assert(((word >> 12) & 0x0F) == word / 0x1000 && ((word >> 8) & 0x0F) == (word / 0x100)
            % 16 && ((word >> 4) & 0x0F) == (word / 16) % 16 && ((word >> 0) & 0x0F) == word
            % 16 && word / 0x1000 < 16 && (word / 0x100) % 16 < 16 && (word / 16) % 16 < 16
            && word % 16 < 16) by (bit_vector);
    }
    (
        ((word >> 12) & 0x0F) as u8,
        ((word >> 8) & 0x0F) as u8,
        ((word >> 4) & 0x0F) as u8,
        ((word >> 0) & 0x0F) as u8,
    )
}

/// The fold that `join_nibbles` computes: each nibble shifts the accumulated
/// value up by one hex digit.
pub open spec fn spec_join_nibbles(s: Seq<u8>) -> int
    decreases s.len(),
{
    if s.len() == 0 {
        0
    } else {
        spec_join_nibbles(s.drop_last()) * 16 + s.last()
    }
}

/// Sixteen to the `k`th power, for the widths a nibble join can reach.
pub open spec fn pow16(k: int) -> int {
    if k <= 0 { 1 }
    else if k == 1 { 0x10 }
    else if k == 2 { 0x100 }
    else if k == 3 { 0x1000 }
    else if k == 4 { 0x10000 }
    else if k == 5 { 0x100000 }
    else if k == 6 { 0x1000000 }
    else if k == 7 { 0x10000000 }
    else { 0x100000000 }
}

/// Joins a sequence of nibbles into one value, most significant first.
pub fn join_nibbles(nibbles: &[u8]) -> (r: u32)
    requires
        nibbles@.len() <= 8,
        forall|k: int| 0 <= k < nibbles@.len() ==> nibbles@[k] < 16,
    ensures
        r == spec_join_nibbles(nibbles@),
{
    let mut result: u32 = 0;
    let n = nibbles.len();
    let mut k: usize = 0;
    while k < n
        invariant
            n == nibbles@.len(),
            n <= 8,
            forall|j: int| 0 <= j < n ==> nibbles@[j] < 16,
            k <= n,
            result == spec_join_nibbles(nibbles@.take(k as int)),
            result < pow16(k as int),
        decreases n - k,
    {
        let nb = nibbles[k];
        proof {
            assert(nibbles@.take(k + 1).drop_last() =~= nibbles@.take(k as int));
            assert(result * 16 + nb < pow16(k + 1)) by (nonlinear_arith)
                requires result < pow16(k as int), nb < 16, 0 <= k < 8,
            ;
            assert(((result << 4) | (nb as u32)) == result * 16 + nb) by (bit_vector)
                requires result < 0x10000000 && nb < 16,
            ;
        }
        result = (result << 4) | (nb as u32);
        k = k + 1;
    }
    proof {
        assert(nibbles@.take(n as int) =~= nibbles@);
    }
    result
}

/// One step of operand extraction: a nibble marked with the selected marker
/// shifts into that field's accumulator; any other nibble is skipped.
pub open spec fn ext_step(acc: int, c: Coding, sel: Coding, nb: u16) -> int {
    if c == sel {
        acc * 16 + nb
    } else {
        acc
    }
}

/// The data a pattern extracts from a word for the field marked `sel`,
/// scanning the four nibbles left to right.
pub open spec fn spec_extract(p: Pattern, w: u16, sel: Coding) -> int {
    ext_step(
        ext_step(ext_step(ext_step(0, p@[0], sel, nib0(w)), p@[1], sel, nib1(w)), p@[2], sel, nib2(w)),
        p@[3],
        sel,
        nib3(w),
    )
}

/// Converts raw extracted data into a concrete operand of the declared kind.
pub open spec fn spec_specify(kind: OperandKind, data: int) -> Operand {
    match kind {
        OperandKind::Register => Operand::Register(data as usize),
        OperandKind::I => Operand::I,
        OperandKind::Address12 => Operand::Address12(data as usize),
        OperandKind::IndirectI => Operand::IndirectI,
        OperandKind::Literal12 => Operand::Literal12(data as usize),
        OperandKind::Literal8 => Operand::Literal8(data as usize),
        OperandKind::Literal4 => Operand::Literal4(data as usize),
        OperandKind::DelayTimer => Operand::DelayTimer,
        OperandKind::SoundTimer => Operand::SoundTimer,
        OperandKind::Unused => Operand::Nowhere,
    }
}

/// The number of definitions in the canonical instruction table.
pub const TABLE_LEN: usize = 34;

/// Whether definition `j` of the canonical table matches word `w`: its fixed
/// nibbles agree with the word's.
pub open spec fn row_matches(w: u16, j: int) -> bool {
    if j == 0 { nib0(w) == 0 && nib1(w) == 0 && nib2(w) == 0xE && nib3(w) == 0 }
    else if j == 1 { nib0(w) == 0 && nib1(w) == 0 && nib2(w) == 0xE && nib3(w) == 0xE }
    else if j == 2 { nib0(w) == 0x1 }
    else if j == 3 { nib0(w) == 0x2 }
    else if j == 4 { nib0(w) == 0x3 }
    else if j == 5 { nib0(w) == 0x4 }
    else if j == 6 { nib0(w) == 0x5 && nib3(w) == 0x0 }
    else if j == 7 { nib0(w) == 0x6 }
    else if j == 8 { nib0(w) == 0x7 }
    else if j == 9 { nib0(w) == 0x8 && nib3(w) == 0x0 }
    else if j == 10 { nib0(w) == 0x8 && nib3(w) == 0x1 }
    else if j == 11 { nib0(w) == 0x8 && nib3(w) == 0x2 }
    else if j == 12 { nib0(w) == 0x8 && nib3(w) == 0x3 }
    else if j == 13 { nib0(w) == 0x8 && nib3(w) == 0x4 }
    else if j == 14 { nib0(w) == 0x8 && nib3(w) == 0x5 }
    else if j == 15 { nib0(w) == 0x8 && nib3(w) == 0x6 }
    else if j == 16 { nib0(w) == 0x8 && nib3(w) == 0x7 }
    else if j == 17 { nib0(w) == 0x8 && nib3(w) == 0xE }
    else if j == 18 { nib0(w) == 0x9 && nib3(w) == 0x0 }
    else if j == 19 { nib0(w) == 0xA }
    else if j == 20 { nib0(w) == 0xB }
    else if j == 21 { nib0(w) == 0xC }
    else if j == 22 { nib0(w) == 0xD }
    else if j == 23 { nib0(w) == 0xE && nib2(w) == 0x9 && nib3(w) == 0xE }
    else if j == 24 { nib0(w) == 0xE && nib2(w) == 0xA && nib3(w) == 0x1 }
    else if j == 25 { nib0(w) == 0xF && nib2(w) == 0x0 && nib3(w) == 0x7 }
    else if j == 26 { nib0(w) == 0xF && nib2(w) == 0x0 && nib3(w) == 0xA }
    else if j == 27 { nib0(w) == 0xF && nib2(w) == 0x1 && nib3(w) == 0x5 }
    else if j == 28 { nib0(w) == 0xF && nib2(w) == 0x1 && nib3(w) == 0x8 }
    else if j == 29 { nib0(w) == 0xF && nib2(w) == 0x1 && nib3(w) == 0xE }
    else if j == 30 { nib0(w) == 0xF && nib2(w) == 0x2 && nib3(w) == 0x9 }
    else if j == 31 { nib0(w) == 0xF && nib2(w) == 0x3 && nib3(w) == 0x3 }
    else if j == 32 { nib0(w) == 0xF && nib2(w) == 0x5 && nib3(w) == 0x5 }
    else if j == 33 { nib0(w) == 0xF && nib2(w) == 0x6 && nib3(w) == 0x5 }
    else { false }
}

/// What decoding word `w` against definition `j` of the canonical table
/// yields: the operation and the three extracted operands.  This is the
/// binary contract of the instruction set, row by row.
pub open spec fn row_result(w: u16, j: int) -> (Operation, Operand, Operand, Operand) {
    let rx = Operand::Register(nib1(w) as usize);
    let ry = Operand::Register(nib2(w) as usize);
    let lit12 = Operand::Literal12(addr12(w) as usize);
    let lit8 = Operand::Literal8(byte8(w) as usize);
    let lit4 = Operand::Literal4(nib3(w) as usize);
    let no = Operand::Nowhere;
    if j == 0 { (Operation::Cls, no, no, no) }
    else if j == 1 { (Operation::Ret, no, no, no) }
    else if j == 2 { (Operation::Jump, lit12, no, no) }
    else if j == 3 { (Operation::Call, lit12, no, no) }
    else if j == 4 { (Operation::SkipEq, rx, lit8, no) }
    else if j == 5 { (Operation::SkipNeq, rx, lit8, no) }
    else if j == 6 { (Operation::SkipEq, rx, ry, no) }
    else if j == 7 { (Operation::Load, rx, lit8, no) }
    else if j == 8 { (Operation::Add, rx, lit8, no) }
    else if j == 9 { (Operation::Load, rx, ry, no) }
    else if j == 10 { (Operation::Or, rx, ry, no) }
    else if j == 11 { (Operation::And, rx, ry, no) }
    else if j == 12 { (Operation::Xor, rx, ry, no) }
    else if j == 13 { (Operation::Add, rx, ry, no) }
    else if j == 14 { (Operation::Sub, rx, ry, no) }
    else if j == 15 { (Operation::ShiftRight, rx, ry, no) }
    else if j == 16 { (Operation::SubN, rx, ry, no) }
    else if j == 17 { (Operation::ShiftLeft, rx, ry, no) }
    else if j == 18 { (Operation::SkipNeq, rx, ry, no) }
    else if j == 19 { (Operation::Load, Operand::I, lit12, no) }
    else if j == 20 { (Operation::JumpV0, lit12, no, no) }
    else if j == 21 { (Operation::Rand, rx, lit8, no) }
    else if j == 22 { (Operation::Sprite, rx, ry, lit4) }
    else if j == 23 { (Operation::SkipKey, rx, no, no) }
    else if j == 24 { (Operation::SkipNKey, rx, no, no) }
    else if j == 25 { (Operation::Load, rx, Operand::DelayTimer, no) }
    else if j == 26 { (Operation::WaitKey, rx, no, no) }
    else if j == 27 { (Operation::Load, Operand::DelayTimer, rx, no) }
    else if j == 28 { (Operation::Load, Operand::SoundTimer, rx, no) }
    else if j == 29 { (Operation::Add, Operand::I, rx, no) }
    else if j == 30 { (Operation::Font, Operand::I, rx, no) }
    else if j == 31 { (Operation::Bcd, Operand::IndirectI, rx, no) }
    else if j == 32 { (Operation::Stash, Operand::IndirectI, rx, no) }
    else if j == 33 { (Operation::Fetch, rx, Operand::IndirectI, no) }
    else { (Operation::Invalid, no, no, no) }
}

/// Whether a definition's fields are those of one table row: the operation,
/// the three operand kinds, the four pattern nibbles, the mnemonic, and the
/// mask and value correctly precomputed from the pattern.
pub open spec fn def_row(
    d: InstructionDef,
    op: Operation,
    dk: OperandKind,
    sk: OperandKind,
    ak: OperandKind,
    p0: Coding,
    p1: Coding,
    p2: Coding,
    p3: Coding,
    m: Seq<char>,
) -> bool {
    &&& d.operation == op
    &&& d.dest_kind == dk
    &&& d.src_kind == sk
    &&& d.aux_kind == ak
    &&& d.pattern@[0] == p0
    &&& d.pattern@[1] == p1
    &&& d.pattern@[2] == p2
    &&& d.pattern@[3] == p3
    &&& d.mask == spec_mask(d.pattern)
    &&& d.value == spec_value(d.pattern)
    &&& d.mnemonic@ == m
}

/// Whether `d` is definition `j` of the canonical table.
pub open spec fn row_ok(d: InstructionDef, j: int) -> bool {
    let u = OperandKind::Unused;
    let reg = OperandKind::Register;
    let l12 = OperandKind::Literal12;
    let l8 = OperandKind::Literal8;
    let l4 = OperandKind::Literal4;
    let ki = OperandKind::I;
    let ind = OperandKind::IndirectI;
    let dt = OperandKind::DelayTimer;
    let st = OperandKind::SoundTimer;
    let kd = Coding::D;
    let ks = Coding::S;
    let ka = Coding::A;
    if j == 0 { def_row(d, Operation::Cls, u, u, u, Coding::C(0x0), Coding::C(0x0), Coding::C(0xE), Coding::C(0x0), "Cls"@) }
    else if j == 1 { def_row(d, Operation::Ret, u, u, u, Coding::C(0x0), Coding::C(0x0), Coding::C(0xE), Coding::C(0xE), "Ret"@) }
    else if j == 2 { def_row(d, Operation::Jump, l12, u, u, Coding::C(0x1), kd, kd, kd, "Jump {d}"@) }
    else if j == 3 { def_row(d, Operation::Call, l12, u, u, Coding::C(0x2), kd, kd, kd, "Call {d}"@) }
    else if j == 4 { def_row(d, Operation::SkipEq, reg, l8, u, Coding::C(0x3), kd, ks, ks, "SkipEq {d}, {s}"@) }
    else if j == 5 { def_row(d, Operation::SkipNeq, reg, l8, u, Coding::C(0x4), kd, ks, ks, "SkipNeq {d}, {s}"@) }
    else if j == 6 { def_row(d, Operation::SkipEq, reg, reg, u, Coding::C(0x5), kd, ks, Coding::C(0x0), "SkipEq {d}, {s}"@) }
    else if j == 7 { def_row(d, Operation::Load, reg, l8, u, Coding::C(0x6), kd, ks, ks, "Load {d}, {s}"@) }
    else if j == 8 { def_row(d, Operation::Add, reg, l8, u, Coding::C(0x7), kd, ks, ks, "Add {d}, {s}"@) }
    else if j == 9 { def_row(d, Operation::Load, reg, reg, u, Coding::C(0x8), kd, ks, Coding::C(0x0), "Load {d}, {s}"@) }
    else if j == 10 { def_row(d, Operation::Or, reg, reg, u, Coding::C(0x8), kd, ks, Coding::C(0x1), "Or {d}, {s}"@) }
    else if j == 11 { def_row(d, Operation::And, reg, reg, u, Coding::C(0x8), kd, ks, Coding::C(0x2), "And {d}, {s}"@) }
    else if j == 12 { def_row(d, Operation::Xor, reg, reg, u, Coding::C(0x8), kd, ks, Coding::C(0x3), "Xor {d}, {s}"@) }
    else if j == 13 { def_row(d, Operation::Add, reg, reg, u, Coding::C(0x8), kd, ks, Coding::C(0x4), "Add {d}, {s}"@) }
    else if j == 14 { def_row(d, Operation::Sub, reg, reg, u, Coding::C(0x8), kd, ks, Coding::C(0x5), "Sub {d}, {s}"@) }
    else if j == 15 { def_row(d, Operation::ShiftRight, reg, reg, u, Coding::C(0x8), kd, ks, Coding::C(0x6), "ShR {d}, {s}"@) }
    else if j == 16 { def_row(d, Operation::SubN, reg, reg, u, Coding::C(0x8), kd, ks, Coding::C(0x7), "SubN {d}, {s}"@) }
    else if j == 17 { def_row(d, Operation::ShiftLeft, reg, reg, u, Coding::C(0x8), kd, ks, Coding::C(0xE), "ShL {d}, {s}"@) }
    else if j == 18 { def_row(d, Operation::SkipNeq, reg, reg, u, Coding::C(0x9), kd, ks, Coding::C(0x0), "SkipNeq {d}, {s}"@) }
    else if j == 19 { def_row(d, Operation::Load, ki, l12, u, Coding::C(0xA), ks, ks, ks, "Load {d}, {s}"@) }
    else if j == 20 { def_row(d, Operation::JumpV0, l12, u, u, Coding::C(0xB), kd, kd, kd, "JumpV0 {d}"@) }
    else if j == 21 { def_row(d, Operation::Rand, reg, l8, u, Coding::C(0xC), kd, ks, ks, "Rand {d}, {s}"@) }
    else if j == 22 { def_row(d, Operation::Sprite, reg, reg, l4, Coding::C(0xD), kd, ks, ka, "Sprite {d}, {s}, {a}"@) }
    else if j == 23 { def_row(d, Operation::SkipKey, reg, u, u, Coding::C(0xE), kd, Coding::C(0x9), Coding::C(0xE), "SkipKey {d}"@) }
    else if j == 24 { def_row(d, Operation::SkipNKey, reg, u, u, Coding::C(0xE), kd, Coding::C(0xA), Coding::C(0x1), "SkipNKey {d}"@) }
    else if j == 25 { def_row(d, Operation::Load, reg, dt, u, Coding::C(0xF), kd, Coding::C(0x0), Coding::C(0x7), "Load {d}, {s}"@) }
    else if j == 26 { def_row(d, Operation::WaitKey, reg, u, u, Coding::C(0xF), kd, Coding::C(0x0), Coding::C(0xA), "WaitKey {d}"@) }
    else if j == 27 { def_row(d, Operation::Load, dt, reg, u, Coding::C(0xF), ks, Coding::C(0x1), Coding::C(0x5), "Load {d}, {s}"@) }
    else if j == 28 { def_row(d, Operation::Load, st, reg, u, Coding::C(0xF), ks, Coding::C(0x1), Coding::C(0x8), "Load {d}, {s}"@) }
    else if j == 29 { def_row(d, Operation::Add, ki, reg, u, Coding::C(0xF), ks, Coding::C(0x1), Coding::C(0xE), "Add {d}, {s}"@) }
    else if j == 30 { def_row(d, Operation::Font, ki, reg, u, Coding::C(0xF), ks, Coding::C(0x2), Coding::C(0x9), "Font {d}, {s}"@) }
    else if j == 31 { def_row(d, Operation::Bcd, ind, reg, u, Coding::C(0xF), ks, Coding::C(0x3), Coding::C(0x3), "BCD {d}, {s}"@) }
    else if j == 32 { def_row(d, Operation::Stash, ind, reg, u, Coding::C(0xF), ks, Coding::C(0x5), Coding::C(0x5), "Stash {s}"@) }
    else if j == 33 { def_row(d, Operation::Fetch, reg, ind, u, Coding::C(0xF), kd, Coding::C(0x6), Coding::C(0x5), "Fetch {d}"@) }
    else { false }
}

/// Whether a sequence of definitions is the canonical instruction table.
pub open spec fn is_canonical(s: Seq<InstructionDef>) -> bool {
    &&& s.len() == TABLE_LEN
    &&& forall|j: int| 0 <= j < TABLE_LEN ==> row_ok(#[trigger] s[j], j)
}

/// The index of the first canonical definition at or after `j` that matches
/// `w`, or the table length when none does.
pub open spec fn first_from(w: u16, j: int) -> int
    decreases TABLE_LEN - j,
{
    if j >= TABLE_LEN {
        TABLE_LEN as int
    } else if row_matches(w, j) {
        j
    } else {
        first_from(w, j + 1)
    }
}

/// The index of the first canonical definition that matches `w`, or the
/// table length when none does: the decoder uses first-match, so the table's
/// order is part of its contract.
pub open spec fn spec_first(w: u16) -> int {
    first_from(w, 0)
}

/// What decoding `w` yields: the result of the first matching definition,
/// or the `Invalid` pseudo-instruction when no definition matches.
pub open spec fn spec_decode(w: u16) -> (Operation, Operand, Operand, Operand) {
    if spec_first(w) < TABLE_LEN {
        row_result(w, spec_first(w))
    } else {
        (Operation::Invalid, Operand::Nowhere, Operand::Nowhere, Operand::Nowhere)
    }
}

/// If no definition before `j` matches `w`, the overall first match is the
/// first match at or after `j`.
pub proof fn lemma_first_skip(w: u16, j: int)
    requires
        0 <= j <= TABLE_LEN,
        forall|k: int| 0 <= k < j ==> !row_matches(w, k),
    ensures
        spec_first(w) == first_from(w, j),
    decreases j,
{
    if j > 0 {
        lemma_first_skip(w, j - 1);
        assert(first_from(w, j - 1) == first_from(w, j));
    }
}

/// The mask/compare test against one canonical definition agrees with that
/// row's nibble conditions.
pub proof fn lemma_row_match_bridge(w: u16, j: int, d: InstructionDef)
    requires
        0 <= j < TABLE_LEN,
        row_ok(d, j),
    ensures
        ((w & d.mask) == (d.value & d.mask)) <==> row_matches(w, j),
{
    lemma_mask_match(w, d.mask, d.value);
}

/// Extracting operands from one canonical definition yields that row's
/// decoded result.
pub proof fn lemma_row_extract(w: u16, j: int, d: InstructionDef)
    requires
        0 <= j < TABLE_LEN,
        row_ok(d, j),
    ensures
        (
            d.operation,
            spec_specify(d.dest_kind, spec_extract(d.pattern, w, Coding::D)),
            spec_specify(d.src_kind, spec_extract(d.pattern, w, Coding::S)),
            spec_specify(d.aux_kind, spec_extract(d.pattern, w, Coding::A)),
        ) == row_result(w, j),
{
    lemma_nib_compose(w);
}

/// A resolved decode result: a copy of the matched definition, the word that
/// triggered it, and the three operands extracted from the word's variable
/// nibbles.  Created once per fetch-decode cycle and then immutable.
pub struct Instruction {
    pub def: InstructionDef,
    pub codeword: Word,
    pub dest: Operand,
    pub src: Operand,
    pub aux: Operand,
}

/// One extraction step, computed.
fn ext_exec(acc: u16, c: Coding, sel: Coding, nb: u8) -> (r: u16)
    requires
        acc < 0x1000,
        nb < 16,
    ensures
        r == ext_step(acc as int, c, sel, nb as u16),
{
    if c == sel {
        acc * 16 + (nb as u16)
    } else {
        acc
    }
}

impl Instruction {
    /// Decodes `codeword` against one definition: re-scans the definition's
    /// coding pattern left to right, accumulating each marked nibble into its
    /// field's accumulator, and converts each accumulated value into a
    /// concrete operand of the declared kind.
    pub fn new(def: InstructionDef, codeword: Word) -> (r: Instruction)
        ensures
            r.def == def,
            r.codeword == codeword,
            r.dest == spec_specify(def.dest_kind, spec_extract(def.pattern, codeword, Coding::D)),
            r.src == spec_specify(def.src_kind, spec_extract(def.pattern, codeword, Coding::S)),
            r.aux == spec_specify(def.aux_kind, spec_extract(def.pattern, codeword, Coding::A)),
    {
        let (n0, n1, n2, n3) = split_nibbles_u16(codeword);

        let mut dest_data: u16 = 0;
        let mut src_data: u16 = 0;
        let mut aux_data: u16 = 0;
        dest_data = ext_exec(dest_data, def.pattern[0], Coding::D, n0);
        dest_data = ext_exec(dest_data, def.pattern[1], Coding::D, n1);
        dest_data = ext_exec(dest_data, def.pattern[2], Coding::D, n2);
        dest_data = ext_exec(dest_data, def.pattern[3], Coding::D, n3);
        src_data = ext_exec(src_data, def.pattern[0], Coding::S, n0);
        src_data = ext_exec(src_data, def.pattern[1], Coding::S, n1);
        src_data = ext_exec(src_data, def.pattern[2], Coding::S, n2);
        src_data = ext_exec(src_data, def.pattern[3], Coding::S, n3);
        aux_data = ext_exec(aux_data, def.pattern[0], Coding::A, n0);
        aux_data = ext_exec(aux_data, def.pattern[1], Coding::A, n1);
        aux_data = ext_exec(aux_data, def.pattern[2], Coding::A, n2);
        aux_data = ext_exec(aux_data, def.pattern[3], Coding::A, n3);

        let dest = Self::specify_operand(&def.dest_kind, dest_data as usize);
        let src = Self::specify_operand(&def.src_kind, src_data as usize);
        let aux = Self::specify_operand(&def.aux_kind, aux_data as usize);

        Instruction { def, codeword, dest, src, aux }
    }

    /// Converts raw extracted data into a concrete operand of the declared
    /// kind.
    fn specify_operand(kind: &OperandKind, data: usize) -> (r: Operand)
        ensures
            r == spec_specify(*kind, data as int),
    {
        match *kind {
            OperandKind::Register => Operand::Register(data),
            OperandKind::I => Operand::I,
            OperandKind::Address12 => Operand::Address12(data),
            OperandKind::IndirectI => Operand::IndirectI,
            OperandKind::Literal12 => Operand::Literal12(data),
            OperandKind::Literal8 => Operand::Literal8(data),
            OperandKind::Literal4 => Operand::Literal4(data),
            OperandKind::DelayTimer => Operand::DelayTimer,
            OperandKind::SoundTimer => Operand::SoundTimer,
            OperandKind::Unused => Operand::Nowhere,
        }
    }

    /// The `Invalid` pseudo-instruction for a word no definition matches.
    /// Its execution is a no-op with a diagnostic, never a fatal stop.
    pub fn invalid(codeword: Word) -> (r: Instruction)
        ensures
            r.def.operation == Operation::Invalid,
            r.codeword == codeword,
            r.dest == Operand::Nowhere,
            r.src == Operand::Nowhere,
            r.aux == Operand::Nowhere,
            r.def.mnemonic@ == "Invalid"@,
    {
        let def = InstructionDef::new(
            Operation::Invalid,
            OperandKind::Unused,
            OperandKind::Unused,
            OperandKind::Unused,
            [Coding::C(0x0), Coding::C(0x0), Coding::C(0x0), Coding::C(0x0)],
            "Invalid",
        );
        Instruction { def, codeword, dest: Operand::Nowhere, src: Operand::Nowhere, aux: Operand::Nowhere }
    }

    /// The destination operand.
    pub fn dest(&self) -> (r: Operand)
        ensures
            r == self.dest,
    {
        self.dest
    }

    /// The source operand.
    pub fn src(&self) -> (r: Operand)
        ensures
            r == self.src,
    {
        self.src
    }

    /// The auxiliary operand.
    pub fn aux(&self) -> (r: Operand)
        ensures
            r == self.aux,
    {
        self.aux
    }
}

/// The static, ordered list of instruction definitions.  Built once and
/// immutable thereafter; more specific patterns precede more general ones
/// that would otherwise overlap.
pub struct InstructionTable {
    pub table: Vec<InstructionDef>,
}

impl InstructionTable {
    /// The table holds exactly the canonical definitions, in priority order.
    pub open spec fn wf(self) -> bool {
        is_canonical(self.table@)
    }

    /// Builds the canonical instruction table.
    #[verifier::rlimit(100)]
    pub fn new() -> (r: InstructionTable)
        ensures
            r.wf(),
    {
        let u = OperandKind::Unused;
        let reg = OperandKind::Register;
        let l12 = OperandKind::Literal12;
        let l8 = OperandKind::Literal8;
        let l4 = OperandKind::Literal4;
        let ki = OperandKind::I;
        let ind = OperandKind::IndirectI;
        let dt = OperandKind::DelayTimer;
        let st = OperandKind::SoundTimer;
        let kd = Coding::D;
        let ks = Coding::S;
        let ka = Coding::A;

        let mut t: Vec<InstructionDef> = Vec::new();
        t.push(InstructionDef::new(Operation::Cls, u, u, u, [Coding::C(0x0), Coding::C(0x0), Coding::C(0xE), Coding::C(0x0)], "Cls"));
        t.push(InstructionDef::new(Operation::Ret, u, u, u, [Coding::C(0x0), Coding::C(0x0), Coding::C(0xE), Coding::C(0xE)], "Ret"));
        t.push(InstructionDef::new(Operation::Jump, l12, u, u, [Coding::C(0x1), kd, kd, kd], "Jump {d}"));
        t.push(InstructionDef::new(Operation::Call, l12, u, u, [Coding::C(0x2), kd, kd, kd], "Call {d}"));
        t.push(InstructionDef::new(Operation::SkipEq, reg, l8, u, [Coding::C(0x3), kd, ks, ks], "SkipEq {d}, {s}"));
        t.push(InstructionDef::new(Operation::SkipNeq, reg, l8, u, [Coding::C(0x4), kd, ks, ks], "SkipNeq {d}, {s}"));
        t.push(InstructionDef::new(Operation::SkipEq, reg, reg, u, [Coding::C(0x5), kd, ks, Coding::C(0x0)], "SkipEq {d}, {s}"));
        t.push(InstructionDef::new(Operation::Load, reg, l8, u, [Coding::C(0x6), kd, ks, ks], "Load {d}, {s}"));
        t.push(InstructionDef::new(Operation::Add, reg, l8, u, [Coding::C(0x7), kd, ks, ks], "Add {d}, {s}"));
        t.push(InstructionDef::new(Operation::Load, reg, reg, u, [Coding::C(0x8), kd, ks, Coding::C(0x0)], "Load {d}, {s}"));
        t.push(InstructionDef::new(Operation::Or, reg, reg, u, [Coding::C(0x8), kd, ks, Coding::C(0x1)], "Or {d}, {s}"));
        t.push(InstructionDef::new(Operation::And, reg, reg, u, [Coding::C(0x8), kd, ks, Coding::C(0x2)], "And {d}, {s}"));
        t.push(InstructionDef::new(Operation::Xor, reg, reg, u, [Coding::C(0x8), kd, ks, Coding::C(0x3)], "Xor {d}, {s}"));
        t.push(InstructionDef::new(Operation::Add, reg, reg, u, [Coding::C(0x8), kd, ks, Coding::C(0x4)], "Add {d}, {s}"));
        t.push(InstructionDef::new(Operation::Sub, reg, reg, u, [Coding::C(0x8), kd, ks, Coding::C(0x5)], "Sub {d}, {s}"));
        t.push(InstructionDef::new(Operation::ShiftRight, reg, reg, u, [Coding::C(0x8), kd, ks, Coding::C(0x6)], "ShR {d}, {s}"));
        t.push(InstructionDef::new(Operation::SubN, reg, reg, u, [Coding::C(0x8), kd, ks, Coding::C(0x7)], "SubN {d}, {s}"));
        t.push(InstructionDef::new(Operation::ShiftLeft, reg, reg, u, [Coding::C(0x8), kd, ks, Coding::C(0xE)], "ShL {d}, {s}"));
        t.push(InstructionDef::new(Operation::SkipNeq, reg, reg, u, [Coding::C(0x9), kd, ks, Coding::C(0x0)], "SkipNeq {d}, {s}"));
        t.push(InstructionDef::new(Operation::Load, ki, l12, u, [Coding::C(0xA), ks, ks, ks], "Load {d}, {s}"));
        t.push(InstructionDef::new(Operation::JumpV0, l12, u, u, [Coding::C(0xB), kd, kd, kd], "JumpV0 {d}"));
        t.push(InstructionDef::new(Operation::Rand, reg, l8, u, [Coding::C(0xC), kd, ks, ks], "Rand {d}, {s}"));
        t.push(InstructionDef::new(Operation::Sprite, reg, reg, l4, [Coding::C(0xD), kd, ks, ka], "Sprite {d}, {s}, {a}"));
        t.push(InstructionDef::new(Operation::SkipKey, reg, u, u, [Coding::C(0xE), kd, Coding::C(0x9), Coding::C(0xE)], "SkipKey {d}"));
        t.push(InstructionDef::new(Operation::SkipNKey, reg, u, u, [Coding::C(0xE), kd, Coding::C(0xA), Coding::C(0x1)], "SkipNKey {d}"));
        t.push(InstructionDef::new(Operation::Load, reg, dt, u, [Coding::C(0xF), kd, Coding::C(0x0), Coding::C(0x7)], "Load {d}, {s}"));
        t.push(InstructionDef::new(Operation::WaitKey, reg, u, u, [Coding::C(0xF), kd, Coding::C(0x0), Coding::C(0xA)], "WaitKey {d}"));
        t.push(InstructionDef::new(Operation::Load, dt, reg, u, [Coding::C(0xF), ks, Coding::C(0x1), Coding::C(0x5)], "Load {d}, {s}"));
        t.push(InstructionDef::new(Operation::Load, st, reg, u, [Coding::C(0xF), ks, Coding::C(0x1), Coding::C(0x8)], "Load {d}, {s}"));
        t.push(InstructionDef::new(Operation::Add, ki, reg, u, [Coding::C(0xF), ks, Coding::C(0x1), Coding::C(0xE)], "Add {d}, {s}"));
        t.push(InstructionDef::new(Operation::Font, ki, reg, u, [Coding::C(0xF), ks, Coding::C(0x2), Coding::C(0x9)], "Font {d}, {s}"));
        t.push(InstructionDef::new(Operation::Bcd, ind, reg, u, [Coding::C(0xF), ks, Coding::C(0x3), Coding::C(0x3)], "BCD {d}, {s}"));
        t.push(InstructionDef::new(Operation::Stash, ind, reg, u, [Coding::C(0xF), ks, Coding::C(0x5), Coding::C(0x5)], "Stash {s}"));
        t.push(InstructionDef::new(Operation::Fetch, reg, ind, u, [Coding::C(0xF), kd, Coding::C(0x6), Coding::C(0x5)], "Fetch {d}"));

        proof {
            assert forall|j: int| 0 <= j < TABLE_LEN implies row_ok(#[trigger] t@[j], j) by {
                assert(row_ok(t@[0], 0));
                assert(row_ok(t@[1], 1));
                assert(row_ok(t@[2], 2));
                assert(row_ok(t@[3], 3));
                assert(row_ok(t@[4], 4));
                assert(row_ok(t@[5], 5));
                assert(row_ok(t@[6], 6));
                assert(row_ok(t@[7], 7));
                assert(row_ok(t@[8], 8));
                assert(row_ok(t@[9], 9));
                assert(row_ok(t@[10], 10));
                assert(row_ok(t@[11], 11));
                assert(row_ok(t@[12], 12));
                assert(row_ok(t@[13], 13));
                assert(row_ok(t@[14], 14));
                assert(row_ok(t@[15], 15));
                assert(row_ok(t@[16], 16));
                assert(row_ok(t@[17], 17));
                assert(row_ok(t@[18], 18));
                assert(row_ok(t@[19], 19));
                assert(row_ok(t@[20], 20));
                assert(row_ok(t@[21], 21));
                assert(row_ok(t@[22], 22));
                assert(row_ok(t@[23], 23));
                assert(row_ok(t@[24], 24));
                assert(row_ok(t@[25], 25));
                assert(row_ok(t@[26], 26));
                assert(row_ok(t@[27], 27));
                assert(row_ok(t@[28], 28));
                assert(row_ok(t@[29], 29));
                assert(row_ok(t@[30], 30));
                assert(row_ok(t@[31], 31));
                assert(row_ok(t@[32], 32));
                assert(row_ok(t@[33], 33));
            }
        }
        InstructionTable { table: t }
    }

    /// Walks the table in priority order and decodes the word against the
    /// first matching definition; a word no definition matches becomes the
    /// `Invalid` pseudo-instruction.
    pub fn decode(&self, codeword: Word) -> (r: Instruction)
        requires
            self.wf(),
        ensures
            r.codeword == codeword,
            (r.def.operation, r.dest, r.src, r.aux) == spec_decode(codeword),
            spec_first(codeword) < TABLE_LEN ==> row_ok(r.def, spec_first(codeword)),
    {
        let n = self.table.len();
        let mut j: usize = 0;
        while j < n
            invariant
                self.wf(),
                n == TABLE_LEN,
                j <= n,
                forall|k: int| 0 <= k < j ==> !row_matches(codeword, k),
            decreases n - j,
        {
            let def = &self.table[j];
            proof {
                lemma_row_match_bridge(codeword, j as int, *def);
            }
            if (codeword & def.mask) == (def.value & def.mask) {
                proof {
                    lemma_first_skip(codeword, j as int);
                    lemma_row_extract(codeword, j as int, *def);
                }
                return Instruction::new(def.duplicate(), codeword);
            }
            j += 1;
        }
        proof {
            lemma_first_skip(codeword, TABLE_LEN as int);
        }
        Instruction::invalid(codeword)
    }
}

/// The mnemonic template `t` with `{d}`, `{s}` and `{a}` replaced by the
/// renderings of the three operands.
pub open spec fn spec_subst(t: Seq<char>, d: Seq<char>, s: Seq<char>, a: Seq<char>) -> Seq<char>
    decreases t.len(),
{
    if t.len() == 0 {
        Seq::empty()
    } else if t.len() >= 3 && t[0] == '{' && t[2] == '}' && (t[1] == 'd' || t[1] == 's' || t[1]
        == 'a') {
        (if t[1] == 'd' { d } else if t[1] == 's' { s } else { a }) + spec_subst(t.skip(3), d, s, a)
    } else {
        seq![t[0]] + spec_subst(t.skip(1), d, s, a)
    }
}

/// Relies on `String::push`: appends exactly the one given character.
#[verifier::external_body]
fn push_char(s: &mut String, c: char)
    ensures
        final(s)@ == old(s)@ + seq![c],
{
    s.push(c);
}

/// The mnemonic template with its operand markers replaced, scanned left to
/// right.
fn subst_template(t: &str, d: &str, s: &str, a: &str) -> (r: String)
    ensures
        r@ == spec_subst(t@, d@, s@, a@),
{
    let n = t.unicode_len();
    let mut out = String::new();
    let mut i: usize = 0;
    proof {
        assert(t@.skip(0) =~= t@);
    }
    while i < n
        invariant
            n == t@.len(),
            i <= n,
            out@ + spec_subst(t@.skip(i as int), d@, s@, a@) == spec_subst(t@, d@, s@, a@),
        decreases n - i,
    {
        let c = t.get_char(i);
        if n - i > 2 && c == '{' && t.get_char(i + 2) == '}' {
            let m = t.get_char(i + 1);
            if m == 'd' || m == 's' || m == 'a' {
                if m == 'd' {
                    out.append(d);
                } else if m == 's' {
                    out.append(s);
                } else {
                    out.append(a);
                }
                proof {
                    assert(t@.skip(i as int).skip(3) =~= t@.skip(i + 3));
                    assert(out@ + spec_subst(t@.skip(i + 3), d@, s@, a@) =~= spec_subst(
                        t@,
                        d@,
                        s@,
                        a@,
                    ));
                }
                i += 3;
            } else {
                push_char(&mut out, c);
                proof {
                    assert(t@.skip(i as int).skip(1) =~= t@.skip(i + 1));
                    assert(out@ + spec_subst(t@.skip(i + 1), d@, s@, a@) =~= spec_subst(
                        t@,
                        d@,
                        s@,
                        a@,
                    ));
                }
                i += 1;
            }
        } else {
            proof {
                assert(t@.skip(i as int).len() < 3 || !(t@.skip(i as int)[0] == '{' && t@.skip(
                    i as int,
                )[2] == '}'));
            }
            push_char(&mut out, c);
            proof {
                assert(t@.skip(i as int).skip(1) =~= t@.skip(i + 1));
                assert(out@ + spec_subst(t@.skip(i + 1), d@, s@, a@) =~= spec_subst(t@, d@, s@, a@));
            }
            i += 1;
        }
    }
    proof {
        assert(t@.skip(n as int) =~= Seq::<char>::empty());
        assert(out@ =~= spec_subst(t@, d@, s@, a@));
    }
    out
}

impl Instruction {
    /// The instruction word this decode came from.
    pub fn as_u16(&self) -> (r: u16)
        ensures
            r == self.codeword,
    {
        self.codeword
    }

    /// The human-readable disassembly: the definition's mnemonic template
    /// with each operand marker replaced by that operand's rendering.
    pub fn to_string(&self) -> (r: String)
        ensures
            r@ == spec_subst(
                self.def.mnemonic@,
                spec_operand_str(self.dest),
                spec_operand_str(self.src),
                spec_operand_str(self.aux),
            ),
    {
        let d = self.dest.to_string();
        let s = self.src.to_string();
        let a = self.aux.to_string();
        subst_template(self.def.mnemonic.as_str(), d.as_str(), s.as_str(), a.as_str())
    }
}

/// Whether `w` matches canonical definition `j` and no other.
pub open spec fn unique_for(w: u16, j: int) -> bool {
    &&& row_matches(w, j)
    &&& forall|k: int| 0 <= k < TABLE_LEN && k != j ==> !row_matches(w, k)
}

/// Whether some word decodes to canonical definition `j` and matches no
/// other definition.
pub open spec fn uniquely_decodable(j: int) -> bool {
    exists|w: u16| #[trigger] unique_for(w, j) && spec_first(w) == j
}

/// Round-trip: every definition of the canonical table is reachable — for
/// each there is a concrete word that the decoder matches to that definition
/// and to no other.
pub proof fn lemma_round_trip()
    ensures
        forall|j: int| 0 <= j < TABLE_LEN ==> #[trigger] uniquely_decodable(j),
{
    assert forall|j: int| 0 <= j < TABLE_LEN implies #[trigger] uniquely_decodable(j) by {
        let w = choose_witness(j);
        assert(unique_for(w, j));
        lemma_first_skip(w, j);
        assert(unique_for(w, j) && spec_first(w) == j);
    }
}

/// A concrete word that matches canonical definition `j` and no other.
pub open spec fn choose_witness(j: int) -> u16 {
    if j == 0 { 0x00E0 }
    else if j == 1 { 0x00EE }
    else if j == 2 { 0x1000 }
    else if j == 3 { 0x2000 }
    else if j == 4 { 0x3000 }
    else if j == 5 { 0x4000 }
    else if j == 6 { 0x5000 }
    else if j == 7 { 0x6000 }
    else if j == 8 { 0x7000 }
    else if j == 9 { 0x8000 }
    else if j == 10 { 0x8001 }
    else if j == 11 { 0x8002 }
    else if j == 12 { 0x8003 }
    else if j == 13 { 0x8004 }
    else if j == 14 { 0x8005 }
    else if j == 15 { 0x8006 }
    else if j == 16 { 0x8007 }
    else if j == 17 { 0x800E }
    else if j == 18 { 0x9000 }
    else if j == 19 { 0xA000 }
    else if j == 20 { 0xB000 }
    else if j == 21 { 0xC000 }
    else if j == 22 { 0xD000 }
    else if j == 23 { 0xE09E }
    else if j == 24 { 0xE0A1 }
    else if j == 25 { 0xF007 }
    else if j == 26 { 0xF00A }
    else if j == 27 { 0xF015 }
    else if j == 28 { 0xF018 }
    else if j == 29 { 0xF01E }
    else if j == 30 { 0xF029 }
    else if j == 31 { 0xF033 }
    else if j == 32 { 0xF055 }
    else { 0xF065 }
}

/// The operands a decode yields are well formed: register indices name
/// one of the 16 registers and each literal fits its width.
pub proof fn lemma_decode_operands_wf(w: u16)
    ensures
        spec_decode(w).1.wf(),
        spec_decode(w).2.wf(),
        spec_decode(w).3.wf(),
{
    lemma_nib_compose(w);
}

/// Decode determinism: two instructions decoded from the same word carry
/// identical operation, destination, source and auxiliary operands.
pub proof fn lemma_decode_deterministic(w: u16, a: Instruction, b: Instruction)
    requires
        (a.def.operation, a.dest, a.src, a.aux) == spec_decode(w),
        (b.def.operation, b.dest, b.src, b.aux) == spec_decode(w),
    ensures
        a.def.operation == b.def.operation,
        a.dest == b.dest,
        a.src == b.src,
        a.aux == b.aux,
{
}

} // verus!
