use vipchip::config::Config;
use vipchip::machine::{Chip8, Chip8Error};
use vipchip::state::SharedState;

fn display_core() -> Chip8 {
    let mut core = Chip8::new(Config::new(), SharedState::new());
    core.jump_pc(0x200);
    core
}

fn exec_word(core: &mut Chip8, w: u16) -> Result<(), Chip8Error> {
    let inst = core.decode_instruction(w);
    core.execute(&inst)
}

#[test]
fn test_sprite_draw_and_collision() {
    // Blitting one on-pixel row twice at the same spot clears the pixel by
    // XOR; the first blit reports no collision, the second reports one.
    let mut core = display_core();
    core.i = 0x300;
    core.set_ram(0x300, 0x80);
    core.set_reg(0, 0);
    core.set_reg(1, 0);
    exec_word(&mut core, 0xD011).unwrap();
    assert_eq!(core.state.vram.pixel(0, 0), 1);
    assert_eq!(core.reg(0xF), 0);
    exec_word(&mut core, 0xD011).unwrap();
    assert_eq!(core.state.vram.pixel(0, 0), 0);
    assert_eq!(core.reg(0xF), 1);
}

#[test]
fn test_sprite_row_pixels() {
    // 0xA5 = 10100101: pixels at x offsets 0, 2, 5, 7.
    let mut core = display_core();
    core.i = 0x300;
    core.set_ram(0x300, 0xA5);
    core.set_reg(0, 8);
    core.set_reg(1, 3);
    exec_word(&mut core, 0xD011).unwrap();
    let lit = [0usize, 2, 5, 7];
    for dx in 0..8 {
        let expect = if lit.contains(&dx) { 1 } else { 0 };
        assert_eq!(core.state.vram.pixel(8 + dx, 3), expect, "x offset {dx}");
    }
}

#[test]
fn test_sprite_wraps_around() {
    let mut core = display_core();
    core.i = 0x300;
    core.set_ram(0x300, 0xFF);
    core.set_reg(0, 62);
    core.set_reg(1, 31);
    exec_word(&mut core, 0xD011).unwrap();
    // Horizontal wrap: columns 62, 63 then 0..5; vertical row 31.
    assert_eq!(core.state.vram.pixel(62, 31), 1);
    assert_eq!(core.state.vram.pixel(63, 31), 1);
    assert_eq!(core.state.vram.pixel(0, 31), 1);
    assert_eq!(core.state.vram.pixel(5, 31), 1);
    assert_eq!(core.state.vram.pixel(6, 31), 0);
}

#[test]
fn test_sprite_out_of_memory() {
    let mut core = display_core();
    core.i = 0x1FFF;
    core.set_reg(0, 0);
    core.set_reg(1, 0);
    assert_eq!(exec_word(&mut core, 0xD012), Err(Chip8Error::AddressOutOfRange));
}

#[test]
fn test_cls_idempotent() {
    // Clearing twice leaves the framebuffer exactly as clearing once.
    let mut core = display_core();
    core.i = 0x300;
    core.set_ram(0x300, 0xFF);
    exec_word(&mut core, 0xD011).unwrap();
    exec_word(&mut core, 0x00E0).unwrap();
    let once: Vec<u8> = core.state.vram.pixels.clone();
    exec_word(&mut core, 0x00E0).unwrap();
    assert_eq!(core.state.vram.pixels, once);
    assert!(once.iter().all(|&p| p == 0));
}

#[test]
fn test_skip_key_down_and_up() {
    let mut core = display_core();
    core.set_reg(0, 5);
    let mut snap = [false; 16];
    snap[5] = true;
    core.state.keys.set_keys(snap);
    let base = core.pc();
    exec_word(&mut core, 0xE09E).unwrap();
    assert_eq!(core.pc(), base + 2);
    exec_word(&mut core, 0xE0A1).unwrap();
    assert_eq!(core.pc(), base + 2);
    core.state.keys.set_keys([false; 16]);
    exec_word(&mut core, 0xE09E).unwrap();
    assert_eq!(core.pc(), base + 2);
    exec_word(&mut core, 0xE0A1).unwrap();
    assert_eq!(core.pc(), base + 4);
}

#[test]
fn test_waitkey_retries_until_pressed() {
    // With no key down the instruction rewinds the counter to retry; with
    // one down it stores the lowest pressed index.
    let mut core = display_core();
    let base = core.pc();
    exec_word(&mut core, 0xF30A).unwrap();
    assert_eq!(core.pc(), base - 2);

    let mut pressed = display_core();
    let mut snap = [false; 16];
    snap[9] = true;
    snap[12] = true;
    pressed.state.keys.set_keys(snap);
    let base = pressed.pc();
    exec_word(&mut pressed, 0xF30A).unwrap();
    assert_eq!(pressed.reg(3), 9);
    assert_eq!(pressed.pc(), base);
}
