//! The operation set: one pure state-transition function per semantic
//! operation, each reading and writing its operands through the machine
//! state's generic load/store interface.
//!
//! Every operation is all-or-nothing: it validates its operands first and
//! leaves the machine unchanged when it reports an error.  Each `*_rel`
//! spec function is the operation's complete contract, reused verbatim by
//! `Chip8::execute`.

use vstd::prelude::*;
use crate::instruction::{Instruction, Operation, spec_decode, lemma_decode_operands_wf};
use crate::machine::{
    Chip8, Chip8Error, MachView, inv, load_err, spec_load, spec_loadable, spec_storable,
    spec_store, store_err, PC_LIMIT, STACK_DEPTH,
};
use crate::operand::Operand;
use crate::state::PIXEL_COUNT;

verus! {

/// Both operands name general registers: the case in which arithmetic
/// updates the flag register.
pub open spec fn both_registers(d: Operand, s: Operand) -> bool {
    d is Register && s is Register
}

/// A binary operation can run: both operands readable, the destination
/// writable.
pub open spec fn binop_ok(v: MachView, d: Operand, s: Operand) -> bool {
    &&& spec_loadable(v, d)
    &&& spec_loadable(v, s)
    &&& spec_storable(v, d)
}

/// The error a binary operation reports, in the order the operands are
/// resolved: destination read, source read, destination write.
pub open spec fn binop_err(v: MachView, d: Operand, s: Operand) -> Chip8Error {
    if !spec_loadable(v, d) {
        load_err(d)
    } else if !spec_loadable(v, s) {
        load_err(s)
    } else {
        store_err(d)
    }
}

/// The error a source-to-destination operation reports: source read first,
/// then destination write.
pub open spec fn unop_err(v: MachView, d: Operand, s: Operand) -> Chip8Error {
    if !spec_loadable(v, s) {
        load_err(s)
    } else {
        store_err(d)
    }
}

/// A source-to-destination operation can run.
pub open spec fn unop_ok(v: MachView, d: Operand, s: Operand) -> bool {
    &&& spec_loadable(v, s)
    &&& spec_storable(v, d)
}

/// Reports an error without touching the machine.
fn store_err_exec(dest: Operand) -> (e: Chip8Error)
    ensures
        e == store_err(dest),
{
    match dest {
        Operand::Address12(_) => Chip8Error::AddressOutOfRange,
        Operand::IndirectI => Chip8Error::AddressOutOfRange,
        _ => Chip8Error::InvalidOperand,
    }
}

/// Every readable operand resolves to at most the index register's range.
pub proof fn lemma_load_bound(v: MachView, op: Operand)
    requires
        inv(v),
        op.wf(),
    ensures
        spec_load(v, op) <= 0x10000,
{
}

/// The state after `Add`: destination gets the sum, truncated to its
/// width; when both operands are general registers `VF` is first set to
/// whether the unmasked sum exceeds 0xFF.
pub open spec fn add_post(v: MachView, d: Operand, s: Operand) -> MachView {
    let a = spec_load(v, d);
    let b = spec_load(v, s);
    let v1 = if both_registers(d, s) {
        spec_store(v, Operand::Register(15), if a + b > 0xFF { 1int } else { 0int })
    } else {
        v
    };
    spec_store(v1, d, a + b)
}

/// The complete contract of `Add`.
pub open spec fn add_rel(
    v: MachView,
    d: Operand,
    s: Operand,
    v2: MachView,
    r: Result<(), Chip8Error>,
) -> bool {
    if binop_ok(v, d, s) {
        r == Ok::<(), Chip8Error>(()) && v2 == add_post(v, d, s)
    } else {
        r == Err::<(), Chip8Error>(binop_err(v, d, s)) && v2 == v
    }
}

/// Adds source to destination; sets `VF` to the carry when both operands
/// are general registers.
pub fn op_add(inst: &Instruction, core: &mut Chip8) -> (r: Result<(), Chip8Error>)
    requires
        old(core).wf(),
        inst.dest.wf(),
        inst.src.wf(),
    ensures
        final(core).wf(),
        add_rel(old(core)@, inst.dest, inst.src, final(core)@, r),
{
    let lhs = match core.load(inst.dest()) {
        Ok(v) => v,
        Err(e) => { return Err(e) },
    };
    let rhs = match core.load(inst.src()) {
        Ok(v) => v,
        Err(e) => { return Err(e) },
    };
    if !core.can_store(inst.dest()) {
        return Err(store_err_exec(inst.dest()));
    }
    proof {
        lemma_load_bound(old(core)@, inst.dest);
        lemma_load_bound(old(core)@, inst.src);
    }
    let total = lhs + rhs;
    let is_reg_pair = matches!(inst.dest, Operand::Register(_)) && matches!(
        inst.src,
        Operand::Register(_),
    );
    if is_reg_pair {
        core.vf_store(total > 0xFF);
    }
    let r = core.store(inst.dest(), total);
    proof {
        assert(final(core)@ =~= add_post(old(core)@, inst.dest, inst.src));
    }
    r
}

/// The truncated difference `a - b` modulo 256.
pub open spec fn sub_mod(a: u32, b: u32) -> int {
    ((a % 256) + 256 - (b % 256)) % 256
}

/// The state after `Sub`: destination gets `dest - src` modulo 256, and
/// `VF` is first set to the no-borrow flag (`dest >= src`).
pub open spec fn sub_post(v: MachView, d: Operand, s: Operand) -> MachView {
    let a = spec_load(v, d);
    let b = spec_load(v, s);
    let v1 = spec_store(v, Operand::Register(15), if a >= b { 1int } else { 0int });
    spec_store(v1, d, sub_mod(a, b))
}

/// The complete contract of `Sub`.
pub open spec fn sub_rel(
    v: MachView,
    d: Operand,
    s: Operand,
    v2: MachView,
    r: Result<(), Chip8Error>,
) -> bool {
    if binop_ok(v, d, s) {
        r == Ok::<(), Chip8Error>(()) && v2 == sub_post(v, d, s)
    } else {
        r == Err::<(), Chip8Error>(binop_err(v, d, s)) && v2 == v
    }
}

/// Subtracts source from destination modulo 256; `VF` is set when no
/// borrow occurs, that is when destination >= source.
pub fn op_sub(inst: &Instruction, core: &mut Chip8) -> (r: Result<(), Chip8Error>)
    requires
        old(core).wf(),
        inst.dest.wf(),
        inst.src.wf(),
    ensures
        final(core).wf(),
        sub_rel(old(core)@, inst.dest, inst.src, final(core)@, r),
{
    let lhs = match core.load(inst.dest()) {
        Ok(v) => v,
        Err(e) => { return Err(e) },
    };
    let rhs = match core.load(inst.src()) {
        Ok(v) => v,
        Err(e) => { return Err(e) },
    };
    if !core.can_store(inst.dest()) {
        return Err(store_err_exec(inst.dest()));
    }
    let total = ((lhs % 256) + 256 - (rhs % 256)) % 256;
    core.vf_store(lhs >= rhs);
    let r = core.store(inst.dest(), total);
    proof {
        assert(final(core)@ =~= sub_post(old(core)@, inst.dest, inst.src));
    }
    r
}

/// The state after `SubN`: destination gets `src - dest` modulo 256, and
/// `VF` is first set to the no-borrow flag (`src >= dest`).
pub open spec fn subn_post(v: MachView, d: Operand, s: Operand) -> MachView {
    let a = spec_load(v, d);
    let b = spec_load(v, s);
    let v1 = spec_store(v, Operand::Register(15), if b >= a { 1int } else { 0int });
    spec_store(v1, d, sub_mod(b, a))
}

/// The complete contract of `SubN`.
pub open spec fn subn_rel(
    v: MachView,
    d: Operand,
    s: Operand,
    v2: MachView,
    r: Result<(), Chip8Error>,
) -> bool {
    if binop_ok(v, d, s) {
        r == Ok::<(), Chip8Error>(()) && v2 == subn_post(v, d, s)
    } else {
        r == Err::<(), Chip8Error>(binop_err(v, d, s)) && v2 == v
    }
}

/// Subtracts destination from source modulo 256, storing into the
/// destination; `VF` is set when no borrow occurs.
pub fn op_subn(inst: &Instruction, core: &mut Chip8) -> (r: Result<(), Chip8Error>)
    requires
        old(core).wf(),
        inst.dest.wf(),
        inst.src.wf(),
    ensures
        final(core).wf(),
        subn_rel(old(core)@, inst.dest, inst.src, final(core)@, r),
{
    let lhs = match core.load(inst.dest()) {
        Ok(v) => v,
        Err(e) => { return Err(e) },
    };
    let rhs = match core.load(inst.src()) {
        Ok(v) => v,
        Err(e) => { return Err(e) },
    };
    if !core.can_store(inst.dest()) {
        return Err(store_err_exec(inst.dest()));
    }
    let total = ((rhs % 256) + 256 - (lhs % 256)) % 256;
    core.vf_store(rhs >= lhs);
    let r = core.store(inst.dest(), total);
    proof {
        assert(final(core)@ =~= subn_post(old(core)@, inst.dest, inst.src));
    }
    r
}

/// The state after `Or`: the flag register is unaffected.
pub open spec fn or_post(v: MachView, d: Operand, s: Operand) -> MachView {
    spec_store(v, d, (spec_load(v, d) | spec_load(v, s)) as int)
}

/// The complete contract of `Or`.
pub open spec fn or_rel(
    v: MachView,
    d: Operand,
    s: Operand,
    v2: MachView,
    r: Result<(), Chip8Error>,
) -> bool {
    if binop_ok(v, d, s) {
        r == Ok::<(), Chip8Error>(()) && v2 == or_post(v, d, s)
    } else {
        r == Err::<(), Chip8Error>(binop_err(v, d, s)) && v2 == v
    }
}

/// Bitwise-ors source into destination.
pub fn op_or(inst: &Instruction, core: &mut Chip8) -> (r: Result<(), Chip8Error>)
    requires
        old(core).wf(),
        inst.dest.wf(),
        inst.src.wf(),
    ensures
        final(core).wf(),
        or_rel(old(core)@, inst.dest, inst.src, final(core)@, r),
{
    let lhs = match core.load(inst.dest()) {
        Ok(v) => v,
        Err(e) => { return Err(e) },
    };
    let rhs = match core.load(inst.src()) {
        Ok(v) => v,
        Err(e) => { return Err(e) },
    };
    if !core.can_store(inst.dest()) {
        return Err(store_err_exec(inst.dest()));
    }
    core.store(inst.dest(), lhs | rhs)
}

/// The state after `And`.
pub open spec fn and_post(v: MachView, d: Operand, s: Operand) -> MachView {
    spec_store(v, d, (spec_load(v, d) & spec_load(v, s)) as int)
}

/// The complete contract of `And`.
pub open spec fn and_rel(
    v: MachView,
    d: Operand,
    s: Operand,
    v2: MachView,
    r: Result<(), Chip8Error>,
) -> bool {
    if binop_ok(v, d, s) {
        r == Ok::<(), Chip8Error>(()) && v2 == and_post(v, d, s)
    } else {
        r == Err::<(), Chip8Error>(binop_err(v, d, s)) && v2 == v
    }
}

/// Bitwise-ands source into destination.
pub fn op_and(inst: &Instruction, core: &mut Chip8) -> (r: Result<(), Chip8Error>)
    requires
        old(core).wf(),
        inst.dest.wf(),
        inst.src.wf(),
    ensures
        final(core).wf(),
        and_rel(old(core)@, inst.dest, inst.src, final(core)@, r),
{
    let lhs = match core.load(inst.dest()) {
        Ok(v) => v,
        Err(e) => { return Err(e) },
    };
    let rhs = match core.load(inst.src()) {
        Ok(v) => v,
        Err(e) => { return Err(e) },
    };
    if !core.can_store(inst.dest()) {
        return Err(store_err_exec(inst.dest()));
    }
    core.store(inst.dest(), lhs & rhs)
}

/// The state after `Xor`.
pub open spec fn xor_post(v: MachView, d: Operand, s: Operand) -> MachView {
    spec_store(v, d, (spec_load(v, d) ^ spec_load(v, s)) as int)
}

/// The complete contract of `Xor`.
pub open spec fn xor_rel(
    v: MachView,
    d: Operand,
    s: Operand,
    v2: MachView,
    r: Result<(), Chip8Error>,
) -> bool {
    if binop_ok(v, d, s) {
        r == Ok::<(), Chip8Error>(()) && v2 == xor_post(v, d, s)
    } else {
        r == Err::<(), Chip8Error>(binop_err(v, d, s)) && v2 == v
    }
}

/// Bitwise-xors source into destination.
pub fn op_xor(inst: &Instruction, core: &mut Chip8) -> (r: Result<(), Chip8Error>)
    requires
        old(core).wf(),
        inst.dest.wf(),
        inst.src.wf(),
    ensures
        final(core).wf(),
        xor_rel(old(core)@, inst.dest, inst.src, final(core)@, r),
{
    let lhs = match core.load(inst.dest()) {
        Ok(v) => v,
        Err(e) => { return Err(e) },
    };
    let rhs = match core.load(inst.src()) {
        Ok(v) => v,
        Err(e) => { return Err(e) },
    };
    if !core.can_store(inst.dest()) {
        return Err(store_err_exec(inst.dest()));
    }
    core.store(inst.dest(), lhs ^ rhs)
}

/// The state after `ShiftRight`: destination gets the source shifted right
/// one bit; `VF` is first set to the source's old bit 0.
pub open spec fn shr_post(v: MachView, d: Operand, s: Operand) -> MachView {
    let val = spec_load(v, s);
    let v1 = spec_store(v, Operand::Register(15), if val & 1 == 1 { 1int } else { 0int });
    spec_store(v1, d, (val >> 1u32) as int)
}

/// The complete contract of `ShiftRight`.
pub open spec fn shr_rel(
    v: MachView,
    d: Operand,
    s: Operand,
    v2: MachView,
    r: Result<(), Chip8Error>,
) -> bool {
    if unop_ok(v, d, s) {
        r == Ok::<(), Chip8Error>(()) && v2 == shr_post(v, d, s)
    } else {
        r == Err::<(), Chip8Error>(unop_err(v, d, s)) && v2 == v
    }
}

/// Shifts the source right one bit into the destination; `VF` gets the old
/// least significant bit.
pub fn op_shr(inst: &Instruction, core: &mut Chip8) -> (r: Result<(), Chip8Error>)
    requires
        old(core).wf(),
        inst.dest.wf(),
        inst.src.wf(),
    ensures
        final(core).wf(),
        shr_rel(old(core)@, inst.dest, inst.src, final(core)@, r),
{
    let val = match core.load(inst.src()) {
        Ok(v) => v,
        Err(e) => { return Err(e) },
    };
    if !core.can_store(inst.dest()) {
        return Err(store_err_exec(inst.dest()));
    }
    core.vf_store(val & 1 == 1);
    let r = core.store(inst.dest(), val >> 1u32);
    proof {
        assert(final(core)@ =~= shr_post(old(core)@, inst.dest, inst.src));
    }
    r
}

/// The state after `ShiftLeft`: destination gets the source shifted left
/// one bit and truncated to a byte; `VF` is first set to the source's old
/// bit 7.
pub open spec fn shl_post(v: MachView, d: Operand, s: Operand) -> MachView {
    let val = spec_load(v, s);
    let v1 = spec_store(v, Operand::Register(15), if val & 0x80 == 0x80 { 1int } else { 0int });
    spec_store(v1, d, ((val << 1u32) & 0xFF) as int)
}

/// The complete contract of `ShiftLeft`.
pub open spec fn shl_rel(
    v: MachView,
    d: Operand,
    s: Operand,
    v2: MachView,
    r: Result<(), Chip8Error>,
) -> bool {
    if unop_ok(v, d, s) {
        r == Ok::<(), Chip8Error>(()) && v2 == shl_post(v, d, s)
    } else {
        r == Err::<(), Chip8Error>(unop_err(v, d, s)) && v2 == v
    }
}

/// Shifts the source left one bit into the destination, truncated to a
/// byte; `VF` gets the old most significant bit of the low byte.
pub fn op_shl(inst: &Instruction, core: &mut Chip8) -> (r: Result<(), Chip8Error>)
    requires
        old(core).wf(),
        inst.dest.wf(),
        inst.src.wf(),
    ensures
        final(core).wf(),
        shl_rel(old(core)@, inst.dest, inst.src, final(core)@, r),
{
    let val = match core.load(inst.src()) {
        Ok(v) => v,
        Err(e) => { return Err(e) },
    };
    if !core.can_store(inst.dest()) {
        return Err(store_err_exec(inst.dest()));
    }
    proof {
        lemma_load_bound(old(core)@, inst.src);
    }
    core.vf_store(val & 0x80 == 0x80);
    let r = core.store(inst.dest(), (val << 1u32) & 0xFF);
    proof {
        assert(final(core)@ =~= shl_post(old(core)@, inst.dest, inst.src));
    }
    r
}

/// The state after `Load`: a plain copy from source to destination; the
/// flag register is unaffected.
pub open spec fn load_post(v: MachView, d: Operand, s: Operand) -> MachView {
    spec_store(v, d, spec_load(v, s) as int)
}

/// The complete contract of `Load`.
pub open spec fn load_rel(
    v: MachView,
    d: Operand,
    s: Operand,
    v2: MachView,
    r: Result<(), Chip8Error>,
) -> bool {
    if unop_ok(v, d, s) {
        r == Ok::<(), Chip8Error>(()) && v2 == load_post(v, d, s)
    } else {
        r == Err::<(), Chip8Error>(unop_err(v, d, s)) && v2 == v
    }
}

/// Copies the source's value to the destination.
pub fn op_load(inst: &Instruction, core: &mut Chip8) -> (r: Result<(), Chip8Error>)
    requires
        old(core).wf(),
        inst.dest.wf(),
        inst.src.wf(),
    ensures
        final(core).wf(),
        load_rel(old(core)@, inst.dest, inst.src, final(core)@, r),
{
    let data = match core.load(inst.src()) {
        Ok(v) => v,
        Err(e) => { return Err(e) },
    };
    if !core.can_store(inst.dest()) {
        return Err(store_err_exec(inst.dest()));
    }
    core.store(inst.dest(), data)
}

/// The state after `Font`: the destination gets the font table base plus
/// the source's value — the address of that value's glyph data.
pub open spec fn font_post(v: MachView, d: Operand, s: Operand) -> MachView {
    spec_store(v, d, v.cfg.font_addr + spec_load(v, s))
}

/// The complete contract of `Font`.
pub open spec fn font_rel(
    v: MachView,
    d: Operand,
    s: Operand,
    v2: MachView,
    r: Result<(), Chip8Error>,
) -> bool {
    if unop_ok(v, d, s) {
        r == Ok::<(), Chip8Error>(()) && v2 == font_post(v, d, s)
    } else {
        r == Err::<(), Chip8Error>(unop_err(v, d, s)) && v2 == v
    }
}

/// Computes the glyph address of the source's value into the destination.
pub fn op_font(inst: &Instruction, core: &mut Chip8) -> (r: Result<(), Chip8Error>)
    requires
        old(core).wf(),
        inst.dest.wf(),
        inst.src.wf(),
    ensures
        final(core).wf(),
        font_rel(old(core)@, inst.dest, inst.src, final(core)@, r),
{
    let data = match core.load(inst.src()) {
        Ok(v) => v,
        Err(e) => { return Err(e) },
    };
    if !core.can_store(inst.dest()) {
        return Err(store_err_exec(inst.dest()));
    }
    proof {
        lemma_load_bound(old(core)@, inst.src);
    }
    let addr = (core.config.font_addr as u32) + data;
    core.store(inst.dest(), addr)
}

/// `Bcd` can run: the source is readable, the destination writable, and an
/// indirect destination leaves room for all three digits.
pub open spec fn bcd_ok(v: MachView, d: Operand, s: Operand) -> bool {
    &&& spec_loadable(v, s)
    &&& spec_storable(v, d)
    &&& (d is IndirectI ==> v.i + 2 < v.ram.len())
}

/// The error `Bcd` reports.
pub open spec fn bcd_err(v: MachView, d: Operand, s: Operand) -> Chip8Error {
    if !spec_loadable(v, s) {
        load_err(s)
    } else if !spec_storable(v, d) {
        store_err(d)
    } else {
        Chip8Error::AddressOutOfRange
    }
}

/// The state after `Bcd`: the source's value decomposed into hundreds,
/// tens and ones digits, stored at the index register's cell and the two
/// following it; the index register itself is restored afterward.
pub open spec fn bcd_post(v: MachView, d: Operand, s: Operand) -> MachView {
    let val = spec_load(v, s) as int;
    let c1 = spec_store(v, d, val / 100);
    let c2 = MachView { i: (v.i + 1) as usize, ..c1 };
    let c3 = spec_store(c2, d, (val % 100) / 10);
    let c4 = MachView { i: (v.i + 2) as usize, ..c3 };
    let c5 = spec_store(c4, d, val % 10);
    MachView { i: v.i, ..c5 }
}

/// The complete contract of `Bcd`.
pub open spec fn bcd_rel(
    v: MachView,
    d: Operand,
    s: Operand,
    v2: MachView,
    r: Result<(), Chip8Error>,
) -> bool {
    if bcd_ok(v, d, s) {
        r == Ok::<(), Chip8Error>(()) && v2 == bcd_post(v, d, s)
    } else {
        r == Err::<(), Chip8Error>(bcd_err(v, d, s)) && v2 == v
    }
}

/// Decomposes the source's value into its three decimal digits and stores
/// them sequentially at the index register's address; the index register's
/// value is unchanged when the operation completes.
pub fn op_bcd(inst: &Instruction, core: &mut Chip8) -> (r: Result<(), Chip8Error>)
    requires
        old(core).wf(),
        inst.dest.wf(),
        inst.src.wf(),
    ensures
        final(core).wf(),
        bcd_rel(old(core)@, inst.dest, inst.src, final(core)@, r),
{
    let val = match core.load(inst.src()) {
        Ok(v) => v,
        Err(e) => { return Err(e) },
    };
    if !core.can_store(inst.dest()) {
        return Err(store_err_exec(inst.dest()));
    }
    let indirect = matches!(inst.dest, Operand::IndirectI);
    if indirect && core.i + 2 >= core.ram.len() {
        return Err(Chip8Error::AddressOutOfRange);
    }
    let initial_i = core.i;
    let hundreds = val / 100;
    let tens = (val % 100) / 10;
    let ones = val % 10;
    match core.store(inst.dest(), hundreds) {
        Ok(_) => {},
        Err(e) => { return Err(e) },
    }
    if indirect {
        core.i = core.i + 1;
    }
    match core.store(inst.dest(), tens) {
        Ok(_) => {},
        Err(e) => { return Err(e) },
    }
    if indirect {
        core.i = core.i + 1;
    }
    match core.store(inst.dest(), ones) {
        Ok(_) => {},
        Err(e) => { return Err(e) },
    }
    core.i = initial_i;
    proof {
        assert(final(core)@ =~= bcd_post(old(core)@, inst.dest, inst.src));
    }
    Ok(())
}

/// Relies on `rand::random`: a fresh pseudo-random 32-bit value; nothing
/// is promised of which one comes back.
#[verifier::external_body]
fn random_u32() -> u32 {
    rand::random::<u32>()
}

/// The state after `Rand` for a given drawn value: the destination gets
/// the value masked by the source.
pub open spec fn rand_post(v: MachView, d: Operand, s: Operand, value: u32) -> MachView {
    spec_store(v, d, (value & spec_load(v, s)) as int)
}

/// The complete contract of `Rand`: for some drawn value, the destination
/// holds that value masked by the source; nothing more can be said of a
/// random draw.
pub open spec fn rand_rel(
    v: MachView,
    d: Operand,
    s: Operand,
    v2: MachView,
    r: Result<(), Chip8Error>,
) -> bool {
    if unop_ok(v, d, s) {
        r == Ok::<(), Chip8Error>(()) && exists|rv: u32| v2 == #[trigger] rand_post(v, d, s, rv)
    } else {
        r == Err::<(), Chip8Error>(unop_err(v, d, s)) && v2 == v
    }
}

/// Stores `value` masked by the source into the destination: the
/// deterministic remainder of `Rand`, verified for every drawn value.
pub fn op_rand_with(inst: &Instruction, core: &mut Chip8, value: u32) -> (r: Result<
    (),
    Chip8Error,
>)
    requires
        old(core).wf(),
        inst.dest.wf(),
        inst.src.wf(),
    ensures
        final(core).wf(),
        unop_ok(old(core)@, inst.dest, inst.src) ==> r == Ok::<(), Chip8Error>(()) && final(core)@
            == rand_post(old(core)@, inst.dest, inst.src, value),
        !unop_ok(old(core)@, inst.dest, inst.src) ==> r == Err::<(), Chip8Error>(
            unop_err(old(core)@, inst.dest, inst.src),
        ) && final(core)@ == old(core)@,
{
    let mask = match core.load(inst.src()) {
        Ok(v) => v,
        Err(e) => { return Err(e) },
    };
    if !core.can_store(inst.dest()) {
        return Err(store_err_exec(inst.dest()));
    }
    core.store(inst.dest(), value & mask)
}

/// Draws a random value and stores it masked by the source into the
/// destination.
pub fn op_rand(inst: &Instruction, core: &mut Chip8) -> (r: Result<(), Chip8Error>)
    requires
        old(core).wf(),
        inst.dest.wf(),
        inst.src.wf(),
    ensures
        final(core).wf(),
        rand_rel(old(core)@, inst.dest, inst.src, final(core)@, r),
{
    let value = random_u32();
    let r = op_rand_with(inst, core, value);
    proof {
        if unop_ok(old(core)@, inst.dest, inst.src) {
            assert(final(core)@ == rand_post(old(core)@, inst.dest, inst.src, value));
        }
    }
    r
}

/// Whether a skip comparison can run.
pub open spec fn skip_ok(v: MachView, d: Operand, s: Operand) -> bool {
    &&& spec_loadable(v, d)
    &&& spec_loadable(v, s)
}

/// The error a skip comparison reports.
pub open spec fn skip_err(v: MachView, d: Operand, s: Operand) -> Chip8Error {
    if !spec_loadable(v, d) {
        load_err(d)
    } else {
        load_err(s)
    }
}

/// The state after `SkipEq`: the program counter advances one extra
/// instruction width exactly when the operands are equal.
pub open spec fn skipeq_post(v: MachView, d: Operand, s: Operand) -> MachView {
    if spec_load(v, d) == spec_load(v, s) {
        MachView { pc: (v.pc + 2) as usize, ..v }
    } else {
        v
    }
}

/// The complete contract of `SkipEq`.
pub open spec fn skipeq_rel(
    v: MachView,
    d: Operand,
    s: Operand,
    v2: MachView,
    r: Result<(), Chip8Error>,
) -> bool {
    if skip_ok(v, d, s) {
        r == Ok::<(), Chip8Error>(()) && v2 == skipeq_post(v, d, s)
    } else {
        r == Err::<(), Chip8Error>(skip_err(v, d, s)) && v2 == v
    }
}

/// Skips the next instruction when the operands are equal.
pub fn op_skipeq(inst: &Instruction, core: &mut Chip8) -> (r: Result<(), Chip8Error>)
    requires
        old(core).wf(),
        inst.dest.wf(),
        inst.src.wf(),
        old(core)@.pc + 2 <= PC_LIMIT,
    ensures
        final(core).wf(),
        skipeq_rel(old(core)@, inst.dest, inst.src, final(core)@, r),
{
    let lhs = match core.load(inst.dest()) {
        Ok(v) => v,
        Err(e) => { return Err(e) },
    };
    let rhs = match core.load(inst.src()) {
        Ok(v) => v,
        Err(e) => { return Err(e) },
    };
    if lhs == rhs {
        core.advance_pc();
    }
    Ok(())
}

/// The state after `SkipNeq`: the program counter advances one extra
/// instruction width exactly when the operands differ.
pub open spec fn skipneq_post(v: MachView, d: Operand, s: Operand) -> MachView {
    if spec_load(v, d) != spec_load(v, s) {
        MachView { pc: (v.pc + 2) as usize, ..v }
    } else {
        v
    }
}

/// The complete contract of `SkipNeq`.
pub open spec fn skipneq_rel(
    v: MachView,
    d: Operand,
    s: Operand,
    v2: MachView,
    r: Result<(), Chip8Error>,
) -> bool {
    if skip_ok(v, d, s) {
        r == Ok::<(), Chip8Error>(()) && v2 == skipneq_post(v, d, s)
    } else {
        r == Err::<(), Chip8Error>(skip_err(v, d, s)) && v2 == v
    }
}

/// Skips the next instruction when the operands differ.
pub fn op_skipneq(inst: &Instruction, core: &mut Chip8) -> (r: Result<(), Chip8Error>)
    requires
        old(core).wf(),
        inst.dest.wf(),
        inst.src.wf(),
        old(core)@.pc + 2 <= PC_LIMIT,
    ensures
        final(core).wf(),
        skipneq_rel(old(core)@, inst.dest, inst.src, final(core)@, r),
{
    let lhs = match core.load(inst.dest()) {
        Ok(v) => v,
        Err(e) => { return Err(e) },
    };
    let rhs = match core.load(inst.src()) {
        Ok(v) => v,
        Err(e) => { return Err(e) },
    };
    if lhs != rhs {
        core.advance_pc();
    }
    Ok(())
}

/// The key the destination's value selects: only the low nibble indexes
/// the 16-key pad.
pub open spec fn key_of(v: MachView, d: Operand) -> int {
    (spec_load(v, d) % 16) as int
}

/// The state after `SkipKey`: the program counter advances one extra
/// instruction width exactly when the selected key is down.
pub open spec fn skipkey_post(v: MachView, d: Operand) -> MachView {
    if v.keys[key_of(v, d)] {
        MachView { pc: (v.pc + 2) as usize, ..v }
    } else {
        v
    }
}

/// The complete contract of `SkipKey`.
pub open spec fn skipkey_rel(
    v: MachView,
    d: Operand,
    v2: MachView,
    r: Result<(), Chip8Error>,
) -> bool {
    if spec_loadable(v, d) {
        r == Ok::<(), Chip8Error>(()) && v2 == skipkey_post(v, d)
    } else {
        r == Err::<(), Chip8Error>(load_err(d)) && v2 == v
    }
}

/// Skips the next instruction when the key selected by the destination's
/// value is down.
pub fn op_skipkey(inst: &Instruction, core: &mut Chip8) -> (r: Result<(), Chip8Error>)
    requires
        old(core).wf(),
        inst.dest.wf(),
        old(core)@.pc + 2 <= PC_LIMIT,
    ensures
        final(core).wf(),
        skipkey_rel(old(core)@, inst.dest, final(core)@, r),
{
    let kv = match core.load(inst.dest()) {
        Ok(v) => v,
        Err(e) => { return Err(e) },
    };
    let key = (kv % 16) as usize;
    let down = core.state.keys.is_down(key);
    if down {
        core.advance_pc();
    }
    Ok(())
}

/// The state after `SkipNKey`: the program counter advances one extra
/// instruction width exactly when the selected key is up.
pub open spec fn skipnkey_post(v: MachView, d: Operand) -> MachView {
    if !v.keys[key_of(v, d)] {
        MachView { pc: (v.pc + 2) as usize, ..v }
    } else {
        v
    }
}

/// The complete contract of `SkipNKey`.
pub open spec fn skipnkey_rel(
    v: MachView,
    d: Operand,
    v2: MachView,
    r: Result<(), Chip8Error>,
) -> bool {
    if spec_loadable(v, d) {
        r == Ok::<(), Chip8Error>(()) && v2 == skipnkey_post(v, d)
    } else {
        r == Err::<(), Chip8Error>(load_err(d)) && v2 == v
    }
}

/// Skips the next instruction when the key selected by the destination's
/// value is up.
pub fn op_skipnkey(inst: &Instruction, core: &mut Chip8) -> (r: Result<(), Chip8Error>)
    requires
        old(core).wf(),
        inst.dest.wf(),
        old(core)@.pc + 2 <= PC_LIMIT,
    ensures
        final(core).wf(),
        skipnkey_rel(old(core)@, inst.dest, final(core)@, r),
{
    let kv = match core.load(inst.dest()) {
        Ok(v) => v,
        Err(e) => { return Err(e) },
    };
    let key = (kv % 16) as usize;
    let down = core.state.keys.is_down(key);
    if !down {
        core.advance_pc();
    }
    Ok(())
}

/// The lowest key index at or after `k` that is down, or 16 when none is.
pub open spec fn first_down(keys: Seq<bool>, k: int) -> int
    decreases 16 - k,
{
    if k < 0 || k >= 16 {
        16
    } else if keys[k] {
        k
    } else {
        first_down(keys, k + 1)
    }
}

/// `WaitKey` can run: when a key is down its index must be storable.
pub open spec fn waitkey_ok(v: MachView, d: Operand) -> bool {
    first_down(v.keys, 0) < 16 ==> spec_storable(v, d)
}

/// The state after `WaitKey`: with a key down, its index goes to the
/// destination; with none, the program counter rewinds one instruction
/// width so the instruction is retried on the next cycle.
pub open spec fn waitkey_post(v: MachView, d: Operand) -> MachView {
    if first_down(v.keys, 0) < 16 {
        spec_store(v, d, first_down(v.keys, 0))
    } else {
        MachView { pc: (v.pc - 2) as usize, ..v }
    }
}

/// The complete contract of `WaitKey`.
pub open spec fn waitkey_rel(
    v: MachView,
    d: Operand,
    v2: MachView,
    r: Result<(), Chip8Error>,
) -> bool {
    if waitkey_ok(v, d) {
        r == Ok::<(), Chip8Error>(()) && v2 == waitkey_post(v, d)
    } else {
        r == Err::<(), Chip8Error>(store_err(d)) && v2 == v
    }
}

/// Waits for a key press as a repeatedly-retried instruction: with a key
/// down, stores the lowest pressed index into the destination; otherwise
/// rewinds the program counter so the same instruction is fetched again.
pub fn op_waitkey(inst: &Instruction, core: &mut Chip8) -> (r: Result<(), Chip8Error>)
    requires
        old(core).wf(),
        inst.dest.wf(),
        old(core)@.pc >= 2,
    ensures
        final(core).wf(),
        waitkey_rel(old(core)@, inst.dest, final(core)@, r),
{
    let mut found: usize = 16;
    let mut k: usize = 0;
    while k < 16
        invariant
            old(core).wf(),
            core == old(core),
            k <= 16,
            found <= 16,
            found == 16 ==> first_down(core@.keys, 0) == first_down(core@.keys, k as int),
            found < 16 ==> found == first_down(core@.keys, 0) && core@.keys[found as int],
        decreases 16 - k,
    {
        if found == 16 {
            let down = core.state.keys.is_down(k);
            if down {
                found = k;
            }
        }
        k += 1;
    }
    if found < 16 {
        if !core.can_store(inst.dest()) {
            return Err(store_err_exec(inst.dest()));
        }
        let r = core.store(inst.dest(), found as u32);
        proof {
            assert(first_down(old(core)@.keys, 0) == found as int);
            assert(final(core)@ =~= waitkey_post(old(core)@, inst.dest));
        }
        r
    } else {
        proof {
            assert(first_down(old(core)@.keys, 16) == 16);
            assert(first_down(old(core)@.keys, 0) == 16);
        }
        let target = core.pc - 2;
        core.jump_pc(target);
        proof {
            assert(final(core)@ =~= waitkey_post(old(core)@, inst.dest));
        }
        Ok(())
    }
}

/// The state after `Jump`: the program counter set to the absolute target.
pub open spec fn jump_post(v: MachView, d: Operand) -> MachView {
    MachView { pc: spec_load(v, d) as usize, ..v }
}

/// The complete contract of `Jump`.
pub open spec fn jump_rel(
    v: MachView,
    d: Operand,
    v2: MachView,
    r: Result<(), Chip8Error>,
) -> bool {
    if spec_loadable(v, d) {
        r == Ok::<(), Chip8Error>(()) && v2 == jump_post(v, d)
    } else {
        r == Err::<(), Chip8Error>(load_err(d)) && v2 == v
    }
}

/// Jumps to the absolute address the destination operand resolves to —
/// exactly there, with no advance on top.
pub fn op_jump(inst: &Instruction, core: &mut Chip8) -> (r: Result<(), Chip8Error>)
    requires
        old(core).wf(),
        inst.dest.wf(),
    ensures
        final(core).wf(),
        jump_rel(old(core)@, inst.dest, final(core)@, r),
{
    let addr = match core.load(inst.dest()) {
        Ok(v) => v,
        Err(e) => { return Err(e) },
    };
    proof {
        lemma_load_bound(old(core)@, inst.dest);
    }
    core.jump_pc(addr as usize);
    Ok(())
}

/// The state after `JumpV0`: the program counter set to the target plus
/// register `V0`.
pub open spec fn jumpv0_post(v: MachView, d: Operand) -> MachView {
    MachView { pc: (spec_load(v, d) + v.regs[0]) as usize, ..v }
}

/// The complete contract of `JumpV0`.
pub open spec fn jumpv0_rel(
    v: MachView,
    d: Operand,
    v2: MachView,
    r: Result<(), Chip8Error>,
) -> bool {
    if spec_loadable(v, d) {
        r == Ok::<(), Chip8Error>(()) && v2 == jumpv0_post(v, d)
    } else {
        r == Err::<(), Chip8Error>(load_err(d)) && v2 == v
    }
}

/// Jumps to the destination's address plus register `V0`.
pub fn op_jumpv0(inst: &Instruction, core: &mut Chip8) -> (r: Result<(), Chip8Error>)
    requires
        old(core).wf(),
        inst.dest.wf(),
    ensures
        final(core).wf(),
        jumpv0_rel(old(core)@, inst.dest, final(core)@, r),
{
    let base = match core.load(inst.dest()) {
        Ok(v) => v,
        Err(e) => { return Err(e) },
    };
    proof {
        lemma_load_bound(old(core)@, inst.dest);
    }
    let offset = core.reg(0);
    let addr = base as usize + offset as usize;
    core.jump_pc(addr);
    Ok(())
}

/// `Call` can run: the target is readable and the call stack has room.
pub open spec fn call_ok(v: MachView, d: Operand) -> bool {
    &&& spec_loadable(v, d)
    &&& v.stack.len() < STACK_DEPTH
}

/// The error `Call` reports: a full stack is a guest error distinguishable
/// from a table-wiring bug.
pub open spec fn call_err(v: MachView, d: Operand) -> Chip8Error {
    if !spec_loadable(v, d) {
        load_err(d)
    } else {
        Chip8Error::StackOverflow
    }
}

/// The state after `Call`: the current program counter pushed onto the
/// call stack, then a jump to the target.
pub open spec fn call_post(v: MachView, d: Operand) -> MachView {
    MachView { stack: v.stack.push(v.pc), pc: spec_load(v, d) as usize, ..v }
}

/// The complete contract of `Call`.
pub open spec fn call_rel(
    v: MachView,
    d: Operand,
    v2: MachView,
    r: Result<(), Chip8Error>,
) -> bool {
    if call_ok(v, d) {
        r == Ok::<(), Chip8Error>(()) && v2 == call_post(v, d)
    } else {
        r == Err::<(), Chip8Error>(call_err(v, d)) && v2 == v
    }
}

/// Pushes the current program counter and jumps to the target.
pub fn op_call(inst: &Instruction, core: &mut Chip8) -> (r: Result<(), Chip8Error>)
    requires
        old(core).wf(),
        inst.dest.wf(),
    ensures
        final(core).wf(),
        call_rel(old(core)@, inst.dest, final(core)@, r),
{
    let addr = match core.load(inst.dest()) {
        Ok(v) => v,
        Err(e) => { return Err(e) },
    };
    if core.stack.len() >= STACK_DEPTH {
        return Err(Chip8Error::StackOverflow);
    }
    proof {
        lemma_load_bound(old(core)@, inst.dest);
    }
    let pc = core.pc;
    core.stack.push(pc);
    core.jump_pc(addr as usize);
    Ok(())
}

/// The state after `Ret`: the program counter restored from the top of
/// the call stack, which pops.
pub open spec fn ret_post(v: MachView) -> MachView {
    MachView { stack: v.stack.drop_last(), pc: v.stack.last(), ..v }
}

/// The complete contract of `Ret`: an empty stack is a guest error.
pub open spec fn ret_rel(v: MachView, v2: MachView, r: Result<(), Chip8Error>) -> bool {
    if v.stack.len() > 0 {
        r == Ok::<(), Chip8Error>(()) && v2 == ret_post(v)
    } else {
        r == Err::<(), Chip8Error>(Chip8Error::StackUnderflow) && v2 == v
    }
}

/// Pops the return address off the call stack and jumps there.
pub fn op_ret(inst: &Instruction, core: &mut Chip8) -> (r: Result<(), Chip8Error>)
    requires
        old(core).wf(),
    ensures
        final(core).wf(),
        ret_rel(old(core)@, final(core)@, r),
{
    let _ = inst;
    match core.stack.pop() {
        Some(addr) => {
            proof {
                assert(old(core)@.stack[old(core)@.stack.len() - 1] <= PC_LIMIT);
            }
            core.jump_pc(addr);
            Ok(())
        },
        None => Err(Chip8Error::StackUnderflow),
    }
}

/// The state after `Cls`: every framebuffer pixel off.
pub open spec fn cls_post(v: MachView) -> MachView {
    MachView { pixels: Seq::new(PIXEL_COUNT as nat, |k: int| 0u8), ..v }
}

/// The complete contract of `Cls`: it always succeeds.
pub open spec fn cls_rel(v: MachView, v2: MachView, r: Result<(), Chip8Error>) -> bool {
    r == Ok::<(), Chip8Error>(()) && v2 == cls_post(v)
}

/// Zeroes the shared framebuffer.
pub fn op_cls(inst: &Instruction, core: &mut Chip8) -> (r: Result<(), Chip8Error>)
    requires
        old(core).wf(),
    ensures
        final(core).wf(),
        cls_rel(old(core)@, final(core)@, r),
{
    let _ = inst;
    core.state.vram.pixels = vec![0u8; PIXEL_COUNT];
    proof {
        assert(final(core)@ =~= cls_post(old(core)@));
    }
    Ok(())
}

/// Two to the `k`th power, for the bit positions of a sprite row byte.
pub open spec fn bitpow(k: int) -> int {
    if k <= 0 { 1 }
    else if k == 1 { 2 }
    else if k == 2 { 4 }
    else if k == 3 { 8 }
    else if k == 4 { 16 }
    else if k == 5 { 32 }
    else if k == 6 { 64 }
    else { 128 }
}

/// Bit `k` of a sprite row byte, counting from the leftmost (most
/// significant) bit, as a pixel value 0 or 1.
pub open spec fn sprite_bit(b: u8, k: int) -> u8 {
    (((b as int) / bitpow(7 - k)) % 2) as u8
}

/// The framebuffer index of screen position `(x, y)` with horizontal
/// wraparound mod 64 and vertical wraparound mod 32.
pub open spec fn px_index(x: int, y: int) -> int {
    (x % 64) * 32 + (y % 32)
}

/// One sprite row XOR-blitted bit by bit onto the framebuffer: the
/// resulting pixels and whether any set sprite bit landed on an already
/// set pixel.
pub open spec fn blit_row(px: Seq<u8>, byte: u8, x: int, y: int, nb: int) -> (Seq<u8>, bool)
    decreases nb,
{
    if nb <= 0 {
        (px, false)
    } else {
        let prev = blit_row(px, byte, x, y, nb - 1);
        let bit = nb - 1;
        let pix = sprite_bit(byte, bit);
        let idx = px_index(x + bit, y);
        let oldv = prev.0[idx];
        let newv: u8 = if oldv == pix { 0 } else { 1 };
        (prev.0.update(idx, newv), prev.1 || (pix == 1 && oldv == 1))
    }
}

/// `nr` sprite rows of 8 pixels each, read from memory starting at `i`,
/// XOR-blitted onto the framebuffer at `(x, y)`: the resulting pixels and
/// the collision flag.
pub open spec fn blit(px: Seq<u8>, ram: Seq<u8>, i: int, x: int, y: int, nr: int) -> (
    Seq<u8>,
    bool,
)
    decreases nr,
{
    if nr <= 0 {
        (px, false)
    } else {
        let prev = blit(px, ram, i, x, y, nr - 1);
        let row = blit_row(prev.0, ram[i + nr - 1], x, y + nr - 1, 8);
        (row.0, prev.1 || row.1)
    }
}

/// `Sprite` can run: position and row count readable, and all sprite rows
/// inside memory.
pub open spec fn sprite_ok(v: MachView, d: Operand, s: Operand, a: Operand) -> bool {
    &&& spec_loadable(v, d)
    &&& spec_loadable(v, s)
    &&& spec_loadable(v, a)
    &&& v.i + spec_load(v, a) <= v.ram.len()
}

/// The error `Sprite` reports.
pub open spec fn sprite_err(v: MachView, d: Operand, s: Operand, a: Operand) -> Chip8Error {
    if !spec_loadable(v, d) {
        load_err(d)
    } else if !spec_loadable(v, s) {
        load_err(s)
    } else if !spec_loadable(v, a) {
        load_err(a)
    } else {
        Chip8Error::AddressOutOfRange
    }
}

/// The state after `Sprite`: the framebuffer XOR-blitted with the sprite
/// and `VF` holding the collision flag.
pub open spec fn sprite_post(v: MachView, d: Operand, s: Operand, a: Operand) -> MachView {
    let x = spec_load(v, d) as int;
    let y = spec_load(v, s) as int;
    let n = spec_load(v, a) as int;
    let b = blit(v.pixels, v.ram, v.i as int, x, y, n);
    MachView { pixels: b.0, regs: v.regs.update(15, if b.1 { 1u8 } else { 0u8 }), ..v }
}

/// The complete contract of `Sprite`.
pub open spec fn sprite_rel(
    v: MachView,
    d: Operand,
    s: Operand,
    a: Operand,
    v2: MachView,
    r: Result<(), Chip8Error>,
) -> bool {
    if sprite_ok(v, d, s, a) {
        r == Ok::<(), Chip8Error>(()) && v2 == sprite_post(v, d, s, a)
    } else {
        r == Err::<(), Chip8Error>(sprite_err(v, d, s, a)) && v2 == v
    }
}

/// Two to the `k`th power, computed.
fn bitpow_exec(k: u32) -> (r: u32)
    requires
        k < 8,
    ensures
        r == bitpow(k as int),
{
    match k {
        0 => 1,
        1 => 2,
        2 => 4,
        3 => 8,
        4 => 16,
        5 => 32,
        6 => 64,
        _ => 128,
    }
}

/// XOR-blits `aux` rows of 8 pixels each, read from memory starting at the
/// index register, onto the framebuffer at `(dest, src)` with wraparound;
/// `VF` is set exactly when a set sprite bit collided with a set pixel.
#[verifier::loop_isolation(false)]
pub fn op_sprite(inst: &Instruction, core: &mut Chip8) -> (r: Result<(), Chip8Error>)
    requires
        old(core).wf(),
        inst.dest.wf(),
        inst.src.wf(),
        inst.aux.wf(),
    ensures
        final(core).wf(),
        sprite_rel(old(core)@, inst.dest, inst.src, inst.aux, final(core)@, r),
{
    let x = match core.load(inst.dest()) {
        Ok(v) => v,
        Err(e) => { return Err(e) },
    };
    let y = match core.load(inst.src()) {
        Ok(v) => v,
        Err(e) => { return Err(e) },
    };
    let n = match core.load(inst.aux()) {
        Ok(v) => v,
        Err(e) => { return Err(e) },
    };
    proof {
        lemma_load_bound(old(core)@, inst.dest);
        lemma_load_bound(old(core)@, inst.src);
        lemma_load_bound(old(core)@, inst.aux);
    }
    if core.i + (n as usize) > core.ram.len() {
        return Err(Chip8Error::AddressOutOfRange);
    }

    let mut collision = false;
    let mut row: u32 = 0;
    while row < n
        invariant
            row <= n,
            core.config == old(core).config,
            core.gp_reg == old(core).gp_reg,
            core.i == old(core).i,
            core.pc == old(core).pc,
            core.delay_timer == old(core).delay_timer,
            core.sound_timer == old(core).sound_timer,
            core.ram == old(core).ram,
            core.stack == old(core).stack,
            core.state.keys == old(core).state.keys,
            core.itable == old(core).itable,
            core@.pixels.len() == PIXEL_COUNT,
            forall|j: int| 0 <= j < PIXEL_COUNT ==> #[trigger] core@.pixels[j] <= 1,
            (core@.pixels, collision) == blit(
                old(core)@.pixels,
                old(core)@.ram,
                old(core)@.i as int,
                x as int,
                y as int,
                row as int,
            ),
        decreases n - row,
    {
        let byte = core.ram[core.i + (row as usize)];
        let ghost p0 = core@.pixels;
        let ghost c0 = collision;
        let mut bit: u32 = 0;
        while bit < 8
            invariant
                bit <= 8,
                core.config == old(core).config,
                core.gp_reg == old(core).gp_reg,
                core.i == old(core).i,
                core.pc == old(core).pc,
                core.delay_timer == old(core).delay_timer,
                core.sound_timer == old(core).sound_timer,
                core.ram == old(core).ram,
                core.stack == old(core).stack,
                core.state.keys == old(core).state.keys,
                core.itable == old(core).itable,
                core@.pixels.len() == PIXEL_COUNT,
                forall|j: int| 0 <= j < PIXEL_COUNT ==> #[trigger] core@.pixels[j] <= 1,
                core@.pixels == blit_row(p0, byte, x as int, y as int + row, bit as int).0,
                collision == (c0 || blit_row(p0, byte, x as int, y as int + row, bit as int).1),
            decreases 8 - bit,
        {
            let pw = bitpow_exec(7 - bit);
            let pix: u8 = (((byte as u32) / pw) % 2) as u8;
            let xl = ((x + bit) % 64) as usize;
            let yl = ((y + row) % 32) as usize;
            let idx = xl * 32 + yl;
            let oldv = core.state.vram.pixels[idx];
            let newv: u8 = if oldv == pix { 0 } else { 1 };
            core.state.vram.pixels[idx] = newv;
            if pix == 1 && oldv == 1 {
                collision = true;
            }
            bit += 1;
        }
        proof {
            assert((core@.pixels, collision) =~= blit(
                old(core)@.pixels,
                old(core)@.ram,
                old(core)@.i as int,
                x as int,
                y as int,
                row as int + 1,
            ));
        }
        row += 1;
    }
    core.vf_store(collision);
    proof {
        assert(final(core)@ =~= sprite_post(old(core)@, inst.dest, inst.src, inst.aux));
    }
    Ok(())
}

/// The register index a register operand names; 16 marks any other
/// operand.
pub open spec fn reg_of(op: Operand) -> int {
    match op {
        Operand::Register(r) => r as int,
        _ => 16,
    }
}

/// `Stash` can run: the source names the last register, and the register
/// range fits in memory at the index register.
pub open spec fn stash_ok(v: MachView, s: Operand) -> bool {
    &&& s is Register
    &&& v.i + reg_of(s) + 1 <= v.ram.len()
}

/// The error a register/memory copy reports: a non-register count operand
/// is a table-wiring bug.
pub open spec fn copy_err(op: Operand) -> Chip8Error {
    if op is Register {
        Chip8Error::AddressOutOfRange
    } else {
        Chip8Error::InvalidOperand
    }
}

/// The state after `Stash`: registers `V0..Vx` inclusive copied into
/// memory starting at the index register; with the historical quirk
/// enabled, the index register is left advanced past the copied range.
pub open spec fn stash_post(v: MachView, x: int) -> MachView {
    MachView {
        ram: Seq::new(
            v.ram.len(),
            |j: int| if v.i <= j <= v.i + x { v.regs[j - v.i] } else { v.ram[j] },
        ),
        i: if v.cfg.advance_index_on_copy { (v.i + x + 1) as usize } else { v.i },
        ..v
    }
}

/// The complete contract of `Stash`.
pub open spec fn stash_rel(
    v: MachView,
    s: Operand,
    v2: MachView,
    r: Result<(), Chip8Error>,
) -> bool {
    if stash_ok(v, s) {
        r == Ok::<(), Chip8Error>(()) && v2 == stash_post(v, reg_of(s))
    } else {
        r == Err::<(), Chip8Error>(copy_err(s)) && v2 == v
    }
}

/// Copies registers `V0..Vx` inclusive into memory starting at the index
/// register.
#[verifier::loop_isolation(false)]
pub fn op_stash(inst: &Instruction, core: &mut Chip8) -> (r: Result<(), Chip8Error>)
    requires
        old(core).wf(),
        inst.src.wf(),
    ensures
        final(core).wf(),
        stash_rel(old(core)@, inst.src, final(core)@, r),
{
    let x = match inst.src {
        Operand::Register(x) => x,
        _ => { return Err(Chip8Error::InvalidOperand) },
    };
    if core.i + x + 1 > core.ram.len() {
        return Err(Chip8Error::AddressOutOfRange);
    }
    let mut r: usize = 0;
    while r <= x
        invariant
            r <= x + 1,
            core.config == old(core).config,
            core.gp_reg == old(core).gp_reg,
            core.i == old(core).i,
            core.pc == old(core).pc,
            core.delay_timer == old(core).delay_timer,
            core.sound_timer == old(core).sound_timer,
            core.stack == old(core).stack,
            core.state == old(core).state,
            core.itable == old(core).itable,
            core@.ram.len() == old(core)@.ram.len(),
            forall|j: int|
                0 <= j < core@.ram.len() ==> #[trigger] core@.ram[j] == (if old(core)@.i <= j
                    < old(core)@.i + r {
                    old(core)@.regs[j - old(core)@.i]
                } else {
                    old(core)@.ram[j]
                }),
        decreases x + 1 - r,
    {
        let value = core.gp_reg[r];
        let addr = core.i + r;
        core.ram[addr] = value;
        r += 1;
    }
    if core.config.advance_index_on_copy {
        core.i = core.i + x + 1;
    }
    proof {
        assert(final(core)@ =~= stash_post(old(core)@, reg_of(inst.src)));
    }
    Ok(())
}

/// `Fetch` can run: the destination names the last register, and the
/// register range fits in memory at the index register.
pub open spec fn fetch_ok(v: MachView, d: Operand) -> bool {
    &&& d is Register
    &&& v.i + reg_of(d) + 1 <= v.ram.len()
}

/// The state after `Fetch`: memory starting at the index register copied
/// into registers `V0..Vx` inclusive; with the historical quirk enabled,
/// the index register is left advanced past the copied range.
pub open spec fn fetch_post(v: MachView, x: int) -> MachView {
    MachView {
        regs: Seq::new(16, |rr: int| if rr <= x { v.ram[v.i + rr] } else { v.regs[rr] }),
        i: if v.cfg.advance_index_on_copy { (v.i + x + 1) as usize } else { v.i },
        ..v
    }
}

/// The complete contract of `Fetch`.
pub open spec fn fetch_rel(
    v: MachView,
    d: Operand,
    v2: MachView,
    r: Result<(), Chip8Error>,
) -> bool {
    if fetch_ok(v, d) {
        r == Ok::<(), Chip8Error>(()) && v2 == fetch_post(v, reg_of(d))
    } else {
        r == Err::<(), Chip8Error>(copy_err(d)) && v2 == v
    }
}

/// Copies memory starting at the index register into registers `V0..Vx`
/// inclusive.
#[verifier::loop_isolation(false)]
pub fn op_fetch(inst: &Instruction, core: &mut Chip8) -> (r: Result<(), Chip8Error>)
    requires
        old(core).wf(),
        inst.dest.wf(),
    ensures
        final(core).wf(),
        fetch_rel(old(core)@, inst.dest, final(core)@, r),
{
    let x = match inst.dest {
        Operand::Register(x) => x,
        _ => { return Err(Chip8Error::InvalidOperand) },
    };
    if core.i + x + 1 > core.ram.len() {
        return Err(Chip8Error::AddressOutOfRange);
    }
    let mut r: usize = 0;
    while r <= x
        invariant
            r <= x + 1,
            core.config == old(core).config,
            core.i == old(core).i,
            core.pc == old(core).pc,
            core.delay_timer == old(core).delay_timer,
            core.sound_timer == old(core).sound_timer,
            core.ram == old(core).ram,
            core.stack == old(core).stack,
            core.state == old(core).state,
            core.itable == old(core).itable,
            core@.regs.len() == 16,
            forall|j: int|
                0 <= j < 16 ==> #[trigger] core@.regs[j] == (if j < r {
                    old(core)@.ram[old(core)@.i + j]
                } else {
                    old(core)@.regs[j]
                }),
        decreases x + 1 - r,
    {
        let addr = core.i + r;
        let value = core.ram[addr];
        core.gp_reg[r] = value;
        r += 1;
    }
    if core.config.advance_index_on_copy {
        core.i = core.i + x + 1;
    }
    proof {
        assert(final(core)@ =~= fetch_post(old(core)@, reg_of(inst.dest)));
    }
    Ok(())
}

/// The complete contract of one executed operation: the dispatch over the
/// closed operation set, each arm the corresponding operation's own
/// contract.  Executing `Invalid` is a no-op that reports the unknown
/// word, never a fatal stop.
pub open spec fn spec_execute(
    v: MachView,
    op: Operation,
    d: Operand,
    s: Operand,
    a: Operand,
    v2: MachView,
    r: Result<(), Chip8Error>,
) -> bool {
    match op {
        Operation::Add => add_rel(v, d, s, v2, r),
        Operation::Sub => sub_rel(v, d, s, v2, r),
        Operation::SubN => subn_rel(v, d, s, v2, r),
        Operation::Or => or_rel(v, d, s, v2, r),
        Operation::And => and_rel(v, d, s, v2, r),
        Operation::Xor => xor_rel(v, d, s, v2, r),
        Operation::ShiftRight => shr_rel(v, d, s, v2, r),
        Operation::ShiftLeft => shl_rel(v, d, s, v2, r),
        Operation::Load => load_rel(v, d, s, v2, r),
        Operation::Font => font_rel(v, d, s, v2, r),
        Operation::Bcd => bcd_rel(v, d, s, v2, r),
        Operation::Rand => rand_rel(v, d, s, v2, r),
        Operation::SkipEq => skipeq_rel(v, d, s, v2, r),
        Operation::SkipNeq => skipneq_rel(v, d, s, v2, r),
        Operation::SkipKey => skipkey_rel(v, d, v2, r),
        Operation::SkipNKey => skipnkey_rel(v, d, v2, r),
        Operation::WaitKey => waitkey_rel(v, d, v2, r),
        Operation::Jump => jump_rel(v, d, v2, r),
        Operation::JumpV0 => jumpv0_rel(v, d, v2, r),
        Operation::Call => call_rel(v, d, v2, r),
        Operation::Ret => ret_rel(v, v2, r),
        Operation::Cls => cls_rel(v, v2, r),
        Operation::Sprite => sprite_rel(v, d, s, a, v2, r),
        Operation::Stash => stash_rel(v, s, v2, r),
        Operation::Fetch => fetch_rel(v, d, v2, r),
        Operation::Invalid => r == Err::<(), Chip8Error>(Chip8Error::UnknownInstruction) && v2
            == v,
    }
}

/// The contract of one whole fetch-decode-execute cycle: with the program
/// counter inside memory, the word there is decoded and executed against
/// the state whose counter has already advanced one instruction width;
/// otherwise the machine is unchanged and the fetch failure reported.
pub open spec fn spec_step(v: MachView, v2: MachView, r: Result<(), Chip8Error>) -> bool {
    if v.pc + 1 < v.ram.len() {
        let w = Chip8::spec_word_at(v, v.pc as int);
        let dec = spec_decode(w);
        spec_execute(MachView { pc: (v.pc + 2) as usize, ..v }, dec.0, dec.1, dec.2, dec.3, v2, r)
    } else {
        r == Err::<(), Chip8Error>(Chip8Error::PcOutOfRange) && v2 == v
    }
}

impl Chip8 {
    /// Executes one decoded instruction against the machine state: a
    /// single exhaustive dispatch over the closed operation set.
    pub fn execute(&mut self, instruction: &Instruction) -> (r: Result<(), Chip8Error>)
        requires
            old(self).wf(),
            instruction.dest.wf(),
            instruction.src.wf(),
            instruction.aux.wf(),
            2 <= old(self)@.pc,
            old(self)@.pc + 2 <= PC_LIMIT,
        ensures
            final(self).wf(),
            spec_execute(
                old(self)@,
                instruction.def.operation,
                instruction.dest,
                instruction.src,
                instruction.aux,
                final(self)@,
                r,
            ),
    {
        match instruction.def.operation {
            Operation::Add => op_add(instruction, self),
            Operation::Sub => op_sub(instruction, self),
            Operation::SubN => op_subn(instruction, self),
            Operation::Or => op_or(instruction, self),
            Operation::And => op_and(instruction, self),
            Operation::Xor => op_xor(instruction, self),
            Operation::ShiftRight => op_shr(instruction, self),
            Operation::ShiftLeft => op_shl(instruction, self),
            Operation::Load => op_load(instruction, self),
            Operation::Font => op_font(instruction, self),
            Operation::Bcd => op_bcd(instruction, self),
            Operation::Rand => op_rand(instruction, self),
            Operation::SkipEq => op_skipeq(instruction, self),
            Operation::SkipNeq => op_skipneq(instruction, self),
            Operation::SkipKey => op_skipkey(instruction, self),
            Operation::SkipNKey => op_skipnkey(instruction, self),
            Operation::WaitKey => op_waitkey(instruction, self),
            Operation::Jump => op_jump(instruction, self),
            Operation::JumpV0 => op_jumpv0(instruction, self),
            Operation::Call => op_call(instruction, self),
            Operation::Ret => op_ret(instruction, self),
            Operation::Cls => op_cls(instruction, self),
            Operation::Sprite => op_sprite(instruction, self),
            Operation::Stash => op_stash(instruction, self),
            Operation::Fetch => op_fetch(instruction, self),
            Operation::Invalid => Err(Chip8Error::UnknownInstruction),
        }
    }

    /// One fetch-decode-execute cycle: fetches the word at the program
    /// counter, advances the counter by one instruction width, decodes,
    /// and executes.
    pub fn step(&mut self) -> (r: Result<(), Chip8Error>)
        requires
            old(self).wf(),
        ensures
            final(self).wf(),
            spec_step(old(self)@, final(self)@, r),
    {
        if self.pc + 1 >= self.ram.len() {
            return Err(Chip8Error::PcOutOfRange);
        }
        let word = self.current_codeword();
        self.advance_pc();
        let inst = self.decode_instruction(word);
        proof {
            lemma_decode_operands_wf(word);
        }
        self.execute(&inst)
    }
}

/// Add flag law: for every pair of values in two general registers other
/// than the flag register itself, register-register `Add` leaves the
/// destination holding the sum modulo 256 and `VF` holding 1 exactly when
/// the true sum exceeds 255.
pub proof fn lemma_add_flag_law(v: MachView, d: usize, s: usize, a: u8, b: u8)
    requires
        inv(v),
        d < 16,
        s < 16,
        d != 15,
        s != 15,
        v.regs[d as int] == a,
        v.regs[s as int] == b,
    ensures
        binop_ok(v, Operand::Register(d), Operand::Register(s)),
        add_post(v, Operand::Register(d), Operand::Register(s)).regs[d as int] == (a + b) % 256,
        add_post(v, Operand::Register(d), Operand::Register(s)).regs[15] == (if a + b > 255 {
            1u8
        } else {
            0u8
        }),
{
}

/// Call/Ret pairing: a `Call` followed immediately by a `Ret` restores
/// the machine exactly — in particular the program counter holds the
/// value it held when the call was made, so execution resumes at the
/// instruction following the call site.
pub proof fn lemma_call_ret(v: MachView, target: Operand)
    requires
        inv(v),
        call_ok(v, target),
    ensures
        call_post(v, target).stack.len() > 0,
        ret_post(call_post(v, target)) == v,
{
    assert(v.stack.push(v.pc).drop_last() =~= v.stack);
    assert(ret_post(call_post(v, target)) =~= v);
}

/// Skip semantics: `SkipEq` advances the program counter by one extra
/// instruction width exactly when its operands are equal, and leaves it
/// unchanged otherwise — so with the default advance a taken skip moves
/// four bytes past the skip instruction and an untaken one two.
pub proof fn lemma_skip_semantics(v: MachView, d: Operand, s: Operand)
    requires
        inv(v),
        skip_ok(v, d, s),
    ensures
        spec_load(v, d) == spec_load(v, s) ==> skipeq_post(v, d, s).pc == v.pc + 2,
        spec_load(v, d) != spec_load(v, s) ==> skipeq_post(v, d, s).pc == v.pc,
{
}

/// One sprite row whose only set bit is the leftmost changes exactly the
/// pixel at `(x, y)`: it flips by XOR, and a collision is reported exactly
/// when it was already set.
proof fn lemma_row_single(p: Seq<u8>, x: int, y: int, nb: int)
    requires
        p.len() == PIXEL_COUNT,
        forall|k: int| 0 <= k < PIXEL_COUNT ==> #[trigger] p[k] <= 1,
        0 <= x,
        0 <= y,
        1 <= nb <= 8,
    ensures
        blit_row(p, 0x80, x, y, nb).0 == p.update(
            px_index(x, y),
            if p[px_index(x, y)] == 1 { 0u8 } else { 1u8 },
        ),
        blit_row(p, 0x80, x, y, nb).1 == (p[px_index(x, y)] == 1),
    decreases nb,
{
    if nb == 1 {
        assert(blit_row(p, 0x80, x, y, 0) == (p, false));
        assert(sprite_bit(0x80, 0) == 1);
    } else {
        lemma_row_single(p, x, y, nb - 1);
        assert(sprite_bit(0x80, nb - 1) == 0);
        let prev = blit_row(p, 0x80, x, y, nb - 1);
        let idx = px_index(x + nb - 1, y);
        assert(0 <= idx < PIXEL_COUNT);
        assert(prev.0[idx] <= 1);
        assert(prev.0.update(idx, prev.0[idx]) =~= prev.0);
        assert(blit_row(p, 0x80, x, y, nb).0 =~= prev.0);
    }
}

/// Sprite collision law: blitting a single on-pixel sprite row twice at
/// the same `(x, y)` over an initially clear pixel first sets the pixel
/// with no collision reported, and the second blit clears it again by XOR
/// and reports the collision.  `blit` is the spec function `sprite_post`
/// is stated with.
pub proof fn lemma_sprite_collision(p: Seq<u8>, ram: Seq<u8>, i: int, x: int, y: int)
    requires
        p.len() == PIXEL_COUNT,
        forall|k: int| 0 <= k < PIXEL_COUNT ==> #[trigger] p[k] <= 1,
        0 <= i < ram.len(),
        ram[i] == 0x80,
        0 <= x,
        0 <= y,
        p[px_index(x, y)] == 0,
    ensures
        blit(p, ram, i, x, y, 1).0[px_index(x, y)] == 1,
        !blit(p, ram, i, x, y, 1).1,
        blit(blit(p, ram, i, x, y, 1).0, ram, i, x, y, 1).0[px_index(x, y)] == 0,
        blit(blit(p, ram, i, x, y, 1).0, ram, i, x, y, 1).1,
{
    lemma_row_single(p, x, y, 8);
    assert(blit(p, ram, i, x, y, 0) == (p, false));
    let p1 = blit(p, ram, i, x, y, 1).0;
    assert(p1 == p.update(px_index(x, y), 1u8));
    assert(p1.len() == PIXEL_COUNT);
    assert forall|k: int| 0 <= k < PIXEL_COUNT implies #[trigger] p1[k] <= 1 by {
        if k != px_index(x, y) {
            assert(p1[k] == p[k]);
        }
    }
    lemma_row_single(p1, x, y, 8);
    assert(blit(p1, ram, i, x, y, 0) == (p1, false));
}

/// Idempotent `Cls`: clearing the framebuffer twice leaves the machine
/// exactly as clearing it once does.
pub proof fn lemma_cls_idempotent(v: MachView)
    ensures
        cls_post(cls_post(v)) == cls_post(v),
{
    assert(cls_post(cls_post(v)) =~= cls_post(v));
}

} // verus!
