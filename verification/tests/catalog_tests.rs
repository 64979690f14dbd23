use mos6502::opcode::{AddressingMode, InstructionHandler, OpCode};

fn check(code: u8, name: &str, bytes: u8, cycles: u8, mode: AddressingMode) {
    let opcode = OpCode::lookup(code).unwrap();
    assert_eq!(opcode.code, code);
    assert_eq!(opcode.name, name);
    assert_eq!(opcode.bytes, bytes);
    assert_eq!(opcode.cycles, cycles);
    assert_eq!(opcode.addressing_mode, mode);
}

#[test]
fn catalog_describes_each_opcode() {
    check(0x00, "BRK", 1, 7, AddressingMode::NoneAddressing);
    check(0x4c, "JMP", 3, 3, AddressingMode::Absolute);
    check(0xa9, "LDA", 2, 2, AddressingMode::Immediate);
    check(0xa5, "LDA", 2, 2, AddressingMode::ZeroPage);
    check(0xb5, "LDA", 2, 2, AddressingMode::ZeroPageX);
    check(0xad, "LDA", 3, 4, AddressingMode::Absolute);
    check(0xbd, "LDA", 3, 4, AddressingMode::AbsoluteX);
    check(0xb9, "LDA", 3, 4, AddressingMode::AbsoluteY);
    check(0xa1, "LDA", 2, 6, AddressingMode::IndirectX);
    check(0xb1, "LDA", 2, 5, AddressingMode::IndirectY);
    check(0xe8, "INX", 1, 2, AddressingMode::NoneAddressing);
    check(0xaa, "TAX", 1, 1, AddressingMode::NoneAddressing);
}

#[test]
fn catalog_knows_twelve_opcodes() {
    let mut known = 0;
    for code in 0..=255u8 {
        if OpCode::lookup(code).is_some() {
            known += 1;
        }
    }
    assert_eq!(known, 12);
}

#[test]
fn catalog_does_not_know_other_bytes() {
    assert_eq!(OpCode::lookup(0x01), None);
    assert_eq!(OpCode::lookup(0x6c), None);
    assert_eq!(OpCode::lookup(0xea), None);
    assert_eq!(OpCode::lookup(0xff), None);
    assert_eq!(InstructionHandler::lookup(0x01), None);
    assert_eq!(InstructionHandler::lookup(0x6c), None);
    assert_eq!(InstructionHandler::lookup(0xea), None);
    assert_eq!(InstructionHandler::lookup(0xff), None);
}

#[test]
fn handler_table_shares_handlers_among_addressing_modes() {
    assert_eq!(InstructionHandler::lookup(0x00), Some(InstructionHandler::Brk));
    assert_eq!(InstructionHandler::lookup(0x4c), Some(InstructionHandler::Jmp));
    assert_eq!(InstructionHandler::lookup(0xe8), Some(InstructionHandler::Inx));
    assert_eq!(InstructionHandler::lookup(0xaa), Some(InstructionHandler::Tax));
    for code in [0xa9u8, 0xa5, 0xb5, 0xad, 0xbd, 0xb9, 0xa1, 0xb1] {
        assert_eq!(InstructionHandler::lookup(code), Some(InstructionHandler::Lda));
    }
}

#[test]
fn catalog_and_handler_table_know_the_same_opcodes() {
    for code in 0..=255u8 {
        assert_eq!(
            OpCode::lookup(code).is_some(),
            InstructionHandler::lookup(code).is_some()
        );
        if let Some(opcode) = OpCode::lookup(code) {
            assert_eq!(opcode.code, code);
        }
    }
}

#[test]
fn new_descriptor_keeps_its_fields() {
    let opcode = OpCode::new(0x42, "XYZ", 3, 9, AddressingMode::IndirectY);

    assert_eq!(opcode.code, 0x42);
    assert_eq!(opcode.name, "XYZ");
    assert_eq!(opcode.bytes, 3);
    assert_eq!(opcode.cycles, 9);
    assert_eq!(opcode.addressing_mode, AddressingMode::IndirectY);
}

#[test]
fn every_instruction_counts_its_opcode_byte() {
    for code in 0..=255u8 {
        if let Some(opcode) = OpCode::lookup(code) {
            assert!(1 <= opcode.bytes && opcode.bytes <= 3);
        }
    }
}

#[test]
fn only_the_jump_is_a_control_transfer() {
    assert!(InstructionHandler::Jmp.is_control_transfer());
    assert!(!InstructionHandler::Brk.is_control_transfer());
    assert!(!InstructionHandler::Inx.is_control_transfer());
    assert!(!InstructionHandler::Lda.is_control_transfer());
    assert!(!InstructionHandler::Tax.is_control_transfer());
}
