use vipchip::config::Config;
use vipchip::machine::{Chip8, Chip8Error};
use vipchip::state::SharedState;

fn fresh_core() -> Chip8 {
    let mut core = Chip8::new(Config::new(), SharedState::new());
    core.jump_pc(0x200);
    core
}

fn run_word(core: &mut Chip8, w: u16) -> Result<(), Chip8Error> {
    let inst = core.decode_instruction(w);
    core.execute(&inst)
}

#[test]
fn test_add_flag_carry() {
    // 0xFF + 0x01 wraps to 0x00 and sets the carry flag.
    let mut core = fresh_core();
    core.set_reg(0, 0xFF);
    core.set_reg(1, 0x01);
    run_word(&mut core, 0x8014).unwrap();
    assert_eq!(core.reg(0), 0x00);
    assert_eq!(core.reg(0xF), 1);
}

#[test]
fn test_add_no_carry() {
    let mut core = fresh_core();
    core.set_reg(0, 0x12);
    core.set_reg(1, 0x34);
    core.vf_set();
    run_word(&mut core, 0x8014).unwrap();
    assert_eq!(core.reg(0), 0x46);
    assert_eq!(core.reg(0xF), 0);
}

#[test]
fn test_add_byte_literal_leaves_flag() {
    // 7xkk adds a literal; the flag register is not an operand pair, so it
    // keeps its value.
    let mut core = fresh_core();
    core.set_reg(2, 0xF0);
    core.vf_set();
    run_word(&mut core, 0x7220).unwrap();
    assert_eq!(core.reg(2), 0x10);
    assert_eq!(core.reg(0xF), 1);
}

#[test]
fn test_sub_borrow() {
    // 5 - 10 wraps to 0xFB; a borrow occurred so the flag clears.
    let mut core = fresh_core();
    core.set_reg(0, 0x05);
    core.set_reg(1, 0x0A);
    run_word(&mut core, 0x8015).unwrap();
    assert_eq!(core.reg(0), 0xFB);
    assert_eq!(core.reg(0xF), 0);
}

#[test]
fn test_sub_no_borrow() {
    let mut core = fresh_core();
    core.set_reg(0, 0x0A);
    core.set_reg(1, 0x05);
    run_word(&mut core, 0x8015).unwrap();
    assert_eq!(core.reg(0), 0x05);
    assert_eq!(core.reg(0xF), 1);
}

#[test]
fn test_subn() {
    let mut core = fresh_core();
    core.set_reg(0, 0x05);
    core.set_reg(1, 0x0A);
    run_word(&mut core, 0x8017).unwrap();
    assert_eq!(core.reg(0), 0x05);
    assert_eq!(core.reg(0xF), 1);
}

#[test]
fn test_bitwise_ops() {
    let mut core = fresh_core();
    core.set_reg(0, 0b1100);
    core.set_reg(1, 0b1010);
    run_word(&mut core, 0x8011).unwrap();
    assert_eq!(core.reg(0), 0b1110);
    core.set_reg(0, 0b1100);
    run_word(&mut core, 0x8012).unwrap();
    assert_eq!(core.reg(0), 0b1000);
    core.set_reg(0, 0b1100);
    run_word(&mut core, 0x8013).unwrap();
    assert_eq!(core.reg(0), 0b0110);
}

#[test]
fn test_shift_right() {
    // 8xy6 shifts the source into the destination; VF takes the old bit 0.
    let mut core = fresh_core();
    core.set_reg(1, 0x05);
    run_word(&mut core, 0x8016).unwrap();
    assert_eq!(core.reg(0), 0x02);
    assert_eq!(core.reg(0xF), 1);
}

#[test]
fn test_shift_left() {
    let mut core = fresh_core();
    core.set_reg(1, 0x81);
    run_word(&mut core, 0x801E).unwrap();
    assert_eq!(core.reg(0), 0x02);
    assert_eq!(core.reg(0xF), 1);
}

#[test]
fn test_load_variants() {
    let mut core = fresh_core();
    run_word(&mut core, 0x63AB).unwrap();
    assert_eq!(core.reg(3), 0xAB);
    run_word(&mut core, 0x8430).unwrap();
    assert_eq!(core.reg(4), 0xAB);
    run_word(&mut core, 0xA123).unwrap();
    assert_eq!(core.i, 0x123);
    // Timers through the operand interface.
    run_word(&mut core, 0xF315).unwrap();
    assert_eq!(core.delay_timer, 0xAB);
    run_word(&mut core, 0xF318).unwrap();
    assert_eq!(core.sound_timer, 0xAB);
    core.set_reg(5, 0);
    run_word(&mut core, 0xF507).unwrap();
    assert_eq!(core.reg(5), 0xAB);
}

#[test]
fn test_bcd_decomposition() {
    // 255 at the index register decomposes to 2, 5, 5; the index register
    // is unchanged afterward.
    let mut core = fresh_core();
    core.set_reg(0, 255);
    core.i = 0x300;
    run_word(&mut core, 0xF033).unwrap();
    assert_eq!(core.ram(0x300), 2);
    assert_eq!(core.ram(0x301), 5);
    assert_eq!(core.ram(0x302), 5);
    assert_eq!(core.i, 0x300);
}

#[test]
fn test_bcd_zero() {
    let mut core = fresh_core();
    core.set_reg(0, 7);
    core.i = 0x300;
    run_word(&mut core, 0xF033).unwrap();
    assert_eq!(core.ram(0x300), 0);
    assert_eq!(core.ram(0x301), 0);
    assert_eq!(core.ram(0x302), 7);
}

#[test]
fn test_jump_exact_target() {
    // 0x1234 sets the program counter to exactly 0x234, with no advance.
    let mut core = fresh_core();
    run_word(&mut core, 0x1234).unwrap();
    assert_eq!(core.pc(), 0x234);
}

#[test]
fn test_jump_v0() {
    let mut core = fresh_core();
    core.set_reg(0, 0x10);
    run_word(&mut core, 0xB234).unwrap();
    assert_eq!(core.pc(), 0x244);
}

#[test]
fn test_call_then_ret_restores_pc() {
    // A call followed immediately by a return resumes after the call site.
    let mut core = fresh_core();
    let here = core.pc();
    run_word(&mut core, 0x2345).unwrap();
    assert_eq!(core.pc(), 0x345);
    run_word(&mut core, 0x00EE).unwrap();
    assert_eq!(core.pc(), here);
}

#[test]
fn test_ret_underflow() {
    let mut core = fresh_core();
    assert_eq!(run_word(&mut core, 0x00EE), Err(Chip8Error::StackUnderflow));
}

#[test]
fn test_call_overflow() {
    let mut core = fresh_core();
    for _ in 0..16 {
        run_word(&mut core, 0x2345).unwrap();
    }
    assert_eq!(run_word(&mut core, 0x2345), Err(Chip8Error::StackOverflow));
}

#[test]
fn test_skip_eq_taken_and_untaken() {
    // A taken skip advances one extra instruction width over an untaken one.
    let mut taken = fresh_core();
    taken.set_reg(0, 7);
    taken.set_reg(1, 7);
    let base = taken.pc();
    run_word(&mut taken, 0x5010).unwrap();
    assert_eq!(taken.pc(), base + 2);

    let mut untaken = fresh_core();
    untaken.set_reg(0, 7);
    untaken.set_reg(1, 8);
    let base = untaken.pc();
    run_word(&mut untaken, 0x5010).unwrap();
    assert_eq!(untaken.pc(), base);
}

#[test]
fn test_skip_neq() {
    let mut core = fresh_core();
    core.set_reg(0, 7);
    let base = core.pc();
    run_word(&mut core, 0x4008).unwrap();
    assert_eq!(core.pc(), base + 2);
    run_word(&mut core, 0x4007).unwrap();
    assert_eq!(core.pc(), base + 2);
}

#[test]
fn test_rand_masked() {
    let mut core = fresh_core();
    core.set_reg(0, 0xAA);
    run_word(&mut core, 0xC000).unwrap();
    assert_eq!(core.reg(0), 0);
    run_word(&mut core, 0xC10F).unwrap();
    assert!(core.reg(1) <= 0x0F);
}

#[test]
fn test_font_address() {
    let mut core = fresh_core();
    core.set_reg(0, 3);
    run_word(&mut core, 0xF029).unwrap();
    assert_eq!(core.i, core.config.font_addr + 3);
}

#[test]
fn test_add_to_index() {
    let mut core = fresh_core();
    core.i = 0x100;
    core.set_reg(4, 0x10);
    core.vf_clear();
    run_word(&mut core, 0xF41E).unwrap();
    assert_eq!(core.i, 0x110);
    // Index-register add never touches the flag.
    assert_eq!(core.reg(0xF), 0);
}

#[test]
fn test_stash_and_fetch() {
    let mut core = fresh_core();
    for r in 0..4u8 {
        core.set_reg(r as usize, 0x10 + r);
    }
    core.i = 0x400;
    run_word(&mut core, 0xF355).unwrap();
    assert_eq!(core.ram(0x400), 0x10);
    assert_eq!(core.ram(0x401), 0x11);
    assert_eq!(core.ram(0x402), 0x12);
    assert_eq!(core.ram(0x403), 0x13);
    assert_eq!(core.i, 0x400);

    let mut other = fresh_core();
    other.i = 0x400;
    for a in 0..4usize {
        other.set_ram(0x400 + a, 0x20 + a as u8);
    }
    run_word(&mut other, 0xF365).unwrap();
    assert_eq!(other.reg(0), 0x20);
    assert_eq!(other.reg(3), 0x23);
    assert_eq!(other.i, 0x400);
}

#[test]
fn test_stash_quirk_advances_index() {
    let mut config = Config::new();
    config.advance_index_on_copy = true;
    let mut core = Chip8::new(config, SharedState::new());
    core.jump_pc(0x200);
    core.i = 0x400;
    run_word(&mut core, 0xF255).unwrap();
    assert_eq!(core.i, 0x403);
}

#[test]
fn test_unknown_instruction() {
    let mut core = fresh_core();
    assert_eq!(run_word(&mut core, 0xFFFF), Err(Chip8Error::UnknownInstruction));
    // The machine is untouched by an unknown word.
    assert_eq!(core.pc(), 0x200);
}

#[test]
fn test_error_messages() {
    assert_eq!(Chip8Error::StackUnderflow.message(), "return with empty call stack");
    assert_eq!(Chip8Error::InvalidOperand.message(), "invalid operand combination");
}
