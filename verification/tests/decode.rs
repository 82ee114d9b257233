use vipchip::instruction::{InstructionTable, Operation, join_nibbles, split_nibbles_u16};
use vipchip::operand::Operand;

#[test]
fn test_join_nibbles() {
    assert!(join_nibbles(&[1, 6]) == 0x0016);
    assert!(join_nibbles(&[2, 3, 4]) == 0x0234);
    assert!(join_nibbles(&[0xF, 0x4, 0x0, 0x7]) == 0xF407);
}

#[test]
fn opcode_test_join_nibbles() {
    assert!(join_nibbles(&[1, 6]) == 0x0016);
    assert!(join_nibbles(&[2, 3, 4]) == 0x0234);
    assert!(join_nibbles(&[0xF, 0x4, 0x0, 0x7]) == 0xF407);
}

#[test]
fn mod_test_join_nibbles() {
    assert!(join_nibbles(&[1, 6]) == 0x0016);
    assert!(join_nibbles(&[2, 3, 4]) == 0x0234);
    assert!(join_nibbles(&[0xF, 0x4, 0x0, 0x7]) == 0xF407);
}

#[test]
fn test_op_add() {
    let table = InstructionTable::new();

    let w: u16 = 0x7123;
    let i = table.decode(w);
    assert!(w == i.as_u16());
    assert!(i.dest() == Operand::Register(1));
    assert!(i.src() == Operand::Literal8(0x23));

    let w: u16 = 0xF41E;
    let i = table.decode(w);
    assert!(w == i.as_u16());
    assert!(i.dest() == Operand::I);
    assert!(i.src() == Operand::Register(4));
}

#[test]
fn test_split_nibbles() {
    assert_eq!(split_nibbles_u16(0xF407), (0xF, 0x4, 0x0, 0x7));
    assert_eq!(split_nibbles_u16(0x0000), (0, 0, 0, 0));
    assert_eq!(split_nibbles_u16(0x1234), (1, 2, 3, 4));
}

#[test]
fn test_decode_jump_word() {
    // A jump decodes to an absolute target: the low 12 bits.
    let table = InstructionTable::new();
    let i = table.decode(0x1234);
    assert_eq!(i.def.operation, Operation::Jump);
    assert_eq!(i.dest(), Operand::Literal12(0x234));
    assert_eq!(i.src(), Operand::Nowhere);
    assert_eq!(i.aux(), Operand::Nowhere);
}

#[test]
fn test_decode_determinism() {
    // Decoding the same word twice yields identical operands.
    let table = InstructionTable::new();
    for &w in &[0x00E0u16, 0x00EE, 0x1234, 0x8ABE, 0xD125, 0xF533, 0x5120, 0x9FE0] {
        let a = table.decode(w);
        let b = table.decode(w);
        assert_eq!(a.def.operation, b.def.operation);
        assert_eq!(a.dest(), b.dest());
        assert_eq!(a.src(), b.src());
        assert_eq!(a.aux(), b.aux());
    }
}

#[test]
fn test_decode_each_pattern() {
    let table = InstructionTable::new();
    let cases: Vec<(u16, Operation)> = vec![
        (0x00E0, Operation::Cls),
        (0x00EE, Operation::Ret),
        (0x1000, Operation::Jump),
        (0x2000, Operation::Call),
        (0x3000, Operation::SkipEq),
        (0x4000, Operation::SkipNeq),
        (0x5000, Operation::SkipEq),
        (0x6000, Operation::Load),
        (0x7000, Operation::Add),
        (0x8000, Operation::Load),
        (0x8001, Operation::Or),
        (0x8002, Operation::And),
        (0x8003, Operation::Xor),
        (0x8004, Operation::Add),
        (0x8005, Operation::Sub),
        (0x8006, Operation::ShiftRight),
        (0x8007, Operation::SubN),
        (0x800E, Operation::ShiftLeft),
        (0x9000, Operation::SkipNeq),
        (0xA000, Operation::Load),
        (0xB000, Operation::JumpV0),
        (0xC000, Operation::Rand),
        (0xD000, Operation::Sprite),
        (0xE09E, Operation::SkipKey),
        (0xE0A1, Operation::SkipNKey),
        (0xF007, Operation::Load),
        (0xF00A, Operation::WaitKey),
        (0xF015, Operation::Load),
        (0xF018, Operation::Load),
        (0xF01E, Operation::Add),
        (0xF029, Operation::Font),
        (0xF033, Operation::Bcd),
        (0xF055, Operation::Stash),
        (0xF065, Operation::Fetch),
    ];
    for (w, op) in cases {
        let i = table.decode(w);
        assert_eq!(i.def.operation, op, "word {w:#06X}");
    }
}

#[test]
fn test_decode_miss_is_invalid() {
    let table = InstructionTable::new();
    for &w in &[0x0123u16, 0x5001, 0x8008, 0x9005, 0xE000, 0xF0FF, 0xFFFF] {
        let i = table.decode(w);
        assert_eq!(i.def.operation, Operation::Invalid);
        assert_eq!(i.dest(), Operand::Nowhere);
        assert_eq!(i.as_u16(), w);
    }
}

#[test]
fn test_decode_sprite_operands() {
    let table = InstructionTable::new();
    let i = table.decode(0xD125);
    assert_eq!(i.def.operation, Operation::Sprite);
    assert_eq!(i.dest(), Operand::Register(1));
    assert_eq!(i.src(), Operand::Register(2));
    assert_eq!(i.aux(), Operand::Literal4(5));
}

#[test]
fn test_decode_timer_slots() {
    let table = InstructionTable::new();
    let i = table.decode(0xF307);
    assert_eq!(i.dest(), Operand::Register(3));
    assert_eq!(i.src(), Operand::DelayTimer);
    let i = table.decode(0xF315);
    assert_eq!(i.dest(), Operand::DelayTimer);
    assert_eq!(i.src(), Operand::Register(3));
    let i = table.decode(0xF318);
    assert_eq!(i.dest(), Operand::SoundTimer);
    assert_eq!(i.src(), Operand::Register(3));
}

#[test]
fn test_instruction_to_string() {
    let table = InstructionTable::new();
    assert_eq!(table.decode(0x1234).to_string(), "Jump 0x234");
    assert_eq!(table.decode(0x00E0).to_string(), "Cls");
    assert_eq!(table.decode(0x8124).to_string(), "Add v1, v2");
    assert_eq!(table.decode(0x6AFE).to_string(), "Load vA, 0xFE");
    assert_eq!(table.decode(0xD125).to_string(), "Sprite v1, v2, 0x5");
    assert_eq!(table.decode(0xF555).to_string(), "Stash v5");
}

#[test]
fn test_operand_to_string() {
    assert_eq!(Operand::Register(3).to_string(), "v3");
    assert_eq!(Operand::Register(0xC).to_string(), "vC");
    assert_eq!(Operand::Literal12(0x034).to_string(), "0x034");
    assert_eq!(Operand::Literal8(0x7).to_string(), "0x07");
    assert_eq!(Operand::Literal4(0xF).to_string(), "0xF");
    assert_eq!(Operand::Address12(0x1A).to_string(), "@0x1A");
    assert_eq!(Operand::I.to_string(), "I");
    assert_eq!(Operand::IndirectI.to_string(), "Indirect");
    assert_eq!(Operand::DelayTimer.to_string(), "DT");
    assert_eq!(Operand::SoundTimer.to_string(), "ST");
    assert_eq!(Operand::Nowhere.to_string(), "none");
}
