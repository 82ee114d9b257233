use vipchip::config::Config;
use vipchip::machine::{Chip8, Chip8Error};
use vipchip::operand::Operand;
use vipchip::parser::{hexval, is_hex_text, parse};
use vipchip::programs::examples;
use vipchip::state::{Keyboard, SharedState, Vram};

fn boot_core() -> Chip8 {
    let mut core = Chip8::new(Config::new(), SharedState::new());
    core.jump_pc(0x200);
    core
}

#[test]
fn test_whitespace() {
    // Separator-only text denotes no bytes at all.
    let parsed = parse(b"   [[]]\r\n").unwrap();
    assert_eq!(parsed, Vec::<u8>::new());
}

#[test]
fn test_hexliteral() {
    assert_eq!(parse(b"0x00").unwrap(), vec![0x00_u8]);
    assert_eq!(parse(b"0x77").unwrap(), vec![0x77_u8]);
    assert_eq!(parse(b"0xD3").unwrap(), vec![0xD3_u8]);
    assert_eq!(parse(b"0xFF").unwrap(), vec![0xFF_u8]);
}

#[test]
fn test_program() {
    let parsed = parse(b"0xC3 0x2A").unwrap();
    assert_eq!(parsed.as_slice(), &[0xC3, 0x2A][..]);
}

#[test]
fn test_parse_mixed_separators() {
    let parsed = parse(b"[0x12, 0x34];\t0xab\r\n").unwrap();
    assert_eq!(parsed, vec![0x12, 0x34, 0xAB]);
}

#[test]
fn test_parse_rejects_malformed() {
    assert!(parse(b"0xG1").is_err());
    assert!(parse(b"0x1").is_err());
    assert!(parse(b"zz").is_err());
    assert!(parse(b"0x123").is_err());
    let err = parse(b"0x00 junk").unwrap_err();
    assert_eq!(err.at, 5);
}

#[test]
fn test_hexval_digits() {
    assert_eq!(hexval('0'), 0);
    assert_eq!(hexval('9'), 9);
    assert_eq!(hexval('a'), 10);
    assert_eq!(hexval('F'), 15);
}

#[test]
fn test_hex_text_detection() {
    assert!(is_hex_text(b"0x00 0xFF [0xab]"));
    assert!(!is_hex_text(&[0x12, 0x00, 0xFE]));
    assert!(is_hex_text(b""));
}

#[test]
fn test_examples_table() {
    let programs = examples();
    assert_eq!(programs.len(), 8);
    assert_eq!(programs[0].0, "moveguy");
    assert_eq!(programs[0].1.len(), 56);
    assert_eq!(programs[0].1[0], 0xC3);
    assert_eq!(programs[7].0, "bench");
    assert_eq!(programs[7].1.len(), 560);
}

#[test]
fn test_config_defaults() {
    let config = Config::new();
    assert_eq!(config.ram_size, 0x2000);
    assert_eq!(config.font_addr, 0);
    assert!(!config.print_instructions);
    assert!(!config.advance_index_on_copy);
}

#[test]
fn test_new_machine_layout() {
    let core = Chip8::new(Config::new(), SharedState::new());
    assert_eq!(core.pc(), 0);
    assert_eq!(core.i, 0);
    for r in 0..16 {
        assert_eq!(core.reg(r), 0);
    }
    // The font glyph table sits in the reserved region; the first glyph row
    // of the zero digit is 0xF0, and past the table memory is zero-filled.
    assert_eq!(core.ram(0), 0xF0);
    assert_eq!(core.ram(80), 0x00);
    assert_eq!(core.ram(0x1FFF), 0x00);
}

#[test]
fn test_load_bytes_and_fetch_word() {
    let mut core = boot_core();
    core.load_bytes(&vec![0x12, 0x34, 0xAB, 0xCD], 0x200);
    assert_eq!(core.current_codeword(), 0x1234);
    let inst = core.decode_at_addr(0x202);
    assert_eq!(inst.as_u16(), 0xABCD);
}

#[test]
fn test_step_runs_a_program() {
    // Load V0 with 7, then add 1: two cycles through the fetch loop.
    let mut core = boot_core();
    core.load_bytes(&vec![0x60, 0x07, 0x70, 0x01], 0x200);
    core.step().unwrap();
    assert_eq!(core.reg(0), 7);
    assert_eq!(core.pc(), 0x202);
    core.step().unwrap();
    assert_eq!(core.reg(0), 8);
    assert_eq!(core.pc(), 0x204);
}

#[test]
fn test_step_pc_out_of_range() {
    let mut core = boot_core();
    core.jump_pc(0x1FFF);
    assert_eq!(core.step(), Err(Chip8Error::PcOutOfRange));
    assert_eq!(core.pc(), 0x1FFF);
}

#[test]
fn test_load_and_store_operands() {
    let mut core = boot_core();
    assert_eq!(core.load(Operand::Nowhere), Err(Chip8Error::InvalidOperand));
    assert_eq!(core.store(Operand::Literal8(5), 1), Err(Chip8Error::InvalidOperand));
    core.i = 0x9000;
    assert_eq!(core.load(Operand::IndirectI), Err(Chip8Error::AddressOutOfRange));
    core.i = 0x300;
    core.store(Operand::IndirectI, 0x1FF).unwrap();
    assert_eq!(core.ram(0x300), 0xFF);
    core.store(Operand::I, 0x12345).unwrap();
    assert_eq!(core.i, 0x2345);
    assert_eq!(core.load(Operand::Literal12(0x123)).unwrap(), 0x123);
}

#[test]
fn test_step_built_in_program() {
    // The first built-in demo runs for a while without tripping any guest
    // error: draws, reads keys, and loops.
    let programs = examples();
    let mut core = boot_core();
    core.load_bytes(&programs[0].1, 0x200);
    for cycle in 0..20 {
        assert_eq!(core.step(), Ok(()), "cycle {cycle}");
    }
}

#[test]
fn test_decrement_timers() {
    let mut core = boot_core();
    core.delay_timer = 2;
    core.sound_timer = 0;
    core.decrement_timers();
    assert_eq!(core.delay_timer, 1);
    assert_eq!(core.sound_timer, 0);
    core.decrement_timers();
    core.decrement_timers();
    assert_eq!(core.delay_timer, 0);
}

#[test]
fn test_keyboard_snapshot() {
    let mut keys = Keyboard::new();
    assert!(!keys.is_down(4));
    let mut snap = [false; 16];
    snap[4] = true;
    keys.set_keys(snap);
    assert!(keys.is_down(4));
    assert!(!keys.is_down(5));
}

#[test]
fn test_vram_and_shared_state_clone() {
    let vram = Vram::new();
    assert_eq!(vram.pixel(0, 0), 0);
    assert_eq!(vram.pixel(63, 31), 0);
    let mut state = SharedState::new();
    state.vram.pixels[5] = 1;
    let copy = state.clone();
    assert_eq!(copy.vram.pixels[5], 1);
    assert_eq!(copy.vram.pixels.len(), 2048);
}
