//! The instruction catalog: what each opcode byte stands for, and which
//! handler carries it out.

use vstd::prelude::*;

verus! {

/// How an instruction finds the address it works on.
#[derive(Clone, Copy, Debug, PartialEq, Eq, Structural)]
pub enum AddressingMode {
    /// The operand byte itself is the value.
    Immediate,
    /// The operand byte is an address in page zero.
    ZeroPage,
    /// The operand byte plus X, kept in page zero.
    ZeroPageX,
    /// The operand byte plus Y, kept in page zero.
    ZeroPageY,
    /// The two operand bytes are the address.
    Absolute,
    /// The two operand bytes plus X.
    AbsoluteX,
    /// The two operand bytes plus Y.
    AbsoluteY,
    /// The two operand bytes point at a pointer to the address.
    Indirect,
    /// The operand byte plus X, kept in page zero, points at the address.
    IndirectX,
    /// The operand byte points at a base address, to which Y is added.
    IndirectY,
    /// The instruction works on no address.
    NoneAddressing,
}

/// The handler of an instruction: the effect it has on the machine once its
/// address is known. Opcodes that differ only in their addressing mode share
/// one handler.
#[derive(Clone, Copy, Debug, PartialEq, Eq, Structural)]
pub enum InstructionHandler {
    /// Break: halts the machine.
    Brk,
    /// Increment X.
    Inx,
    /// Jump.
    Jmp,
    /// Load the accumulator.
    Lda,
    /// Transfer the accumulator to X.
    Tax,
}

/// The descriptor of one opcode.
#[derive(Clone, Copy, Debug, PartialEq, Eq)]
pub struct OpCode {
    /// The opcode byte.
    pub code: u8,
    /// The mnemonic.
    pub name: &'static str,
    /// The length of the instruction in bytes, the opcode byte included.
    pub bytes: u8,
    /// The base number of cycles the instruction takes.
    pub cycles: u8,
    /// How the instruction finds its address.
    pub addressing_mode: AddressingMode,
}

pub const OPCODE_BRK: u8 = 0x00;

pub const OPCODE_LDA_IMMEDIATE: u8 = 0xa9;

pub const OPCODE_LDA_ZEROPAGE: u8 = 0xa5;

pub const OPCODE_LDA_ZEROPAGEX: u8 = 0xb5;

pub const OPCODE_LDA_ABSOLUTE: u8 = 0xad;

pub const OPCODE_LDA_ABSOLUTEX: u8 = 0xbd;

pub const OPCODE_LDA_ABSOLUTEY: u8 = 0xb9;

pub const OPCODE_LDA_INDIRECTX: u8 = 0xa1;

pub const OPCODE_LDA_INDIRECTY: u8 = 0xb1;

pub const OPCODE_JMP_ABSOLUTE: u8 = 0x4c;

pub const OPCODE_INX: u8 = 0xe8;

pub const OPCODE_TAX: u8 = 0xaa;

impl OpCode {
    /// The descriptor with the given fields.
    pub fn new(
        code: u8,
        name: &'static str,
        bytes: u8,
        cycles: u8,
        addressing_mode: AddressingMode,
    ) -> (opcode: OpCode)
        ensures
            opcode == (OpCode { code, name, bytes, cycles, addressing_mode }),
    {
        OpCode { code, name, bytes, cycles, addressing_mode }
    }

    /// The catalog: the descriptor of `code`, or `None` where `code` is no
    /// instruction that the machine knows. Every length counts the opcode
    /// byte, the break instruction's too: it is one byte long.
    pub open spec fn catalog(code: u8) -> Option<OpCode> {
        if code == OPCODE_BRK {
            Some(
                OpCode {
                    code,
                    name: "BRK",
                    bytes: 1,
                    cycles: 7,
                    addressing_mode: AddressingMode::NoneAddressing,
                },
            )
        } else if code == OPCODE_JMP_ABSOLUTE {
            Some(
                OpCode {
                    code,
                    name: "JMP",
                    bytes: 3,
                    cycles: 3,
                    addressing_mode: AddressingMode::Absolute,
                },
            )
        } else if code == OPCODE_LDA_IMMEDIATE {
            Some(
                OpCode {
                    code,
                    name: "LDA",
                    bytes: 2,
                    cycles: 2,
                    addressing_mode: AddressingMode::Immediate,
                },
            )
        } else if code == OPCODE_LDA_ZEROPAGE {
            Some(
                OpCode {
                    code,
                    name: "LDA",
                    bytes: 2,
                    cycles: 2,
                    addressing_mode: AddressingMode::ZeroPage,
                },
            )
        } else if code == OPCODE_LDA_ZEROPAGEX {
            Some(
                OpCode {
                    code,
                    name: "LDA",
                    bytes: 2,
                    cycles: 2,
                    addressing_mode: AddressingMode::ZeroPageX,
                },
            )
        } else if code == OPCODE_LDA_ABSOLUTE {
            Some(
                OpCode {
                    code,
                    name: "LDA",
                    bytes: 3,
                    cycles: 4,
                    addressing_mode: AddressingMode::Absolute,
                },
            )
        } else if code == OPCODE_LDA_ABSOLUTEX {
            Some(
                OpCode {
                    code,
                    name: "LDA",
                    bytes: 3,
                    cycles: 4,
                    addressing_mode: AddressingMode::AbsoluteX,
                },
            )
        } else if code == OPCODE_LDA_ABSOLUTEY {
            Some(
                OpCode {
                    code,
                    name: "LDA",
                    bytes: 3,
                    cycles: 4,
                    addressing_mode: AddressingMode::AbsoluteY,
                },
            )
        } else if code == OPCODE_LDA_INDIRECTX {
            Some(
                OpCode {
                    code,
                    name: "LDA",
                    bytes: 2,
                    cycles: 6,
                    addressing_mode: AddressingMode::IndirectX,
                },
            )
        } else if code == OPCODE_LDA_INDIRECTY {
            Some(
                OpCode {
                    code,
                    name: "LDA",
                    bytes: 2,
                    cycles: 5,
                    addressing_mode: AddressingMode::IndirectY,
                },
            )
        } else if code == OPCODE_INX {
            Some(
                OpCode {
                    code,
                    name: "INX",
                    bytes: 1,
                    cycles: 2,
                    addressing_mode: AddressingMode::NoneAddressing,
                },
            )
        } else if code == OPCODE_TAX {
            Some(
                OpCode {
                    code,
                    name: "TAX",
                    bytes: 1,
                    cycles: 1,
                    addressing_mode: AddressingMode::NoneAddressing,
                },
            )
        } else {
            None
        }
    }

    /// Looks `code` up in the catalog.
    pub fn lookup(code: u8) -> (found: Option<OpCode>)
        ensures
            found == OpCode::catalog(code),
    {
        if code == OPCODE_BRK {
            Some(OpCode::new(OPCODE_BRK, "BRK", 1, 7, AddressingMode::NoneAddressing))
        } else if code == OPCODE_JMP_ABSOLUTE {
            Some(OpCode::new(OPCODE_JMP_ABSOLUTE, "JMP", 3, 3, AddressingMode::Absolute))
        } else if code == OPCODE_LDA_IMMEDIATE {
            Some(OpCode::new(OPCODE_LDA_IMMEDIATE, "LDA", 2, 2, AddressingMode::Immediate))
        } else if code == OPCODE_LDA_ZEROPAGE {
            Some(OpCode::new(OPCODE_LDA_ZEROPAGE, "LDA", 2, 2, AddressingMode::ZeroPage))
        } else if code == OPCODE_LDA_ZEROPAGEX {
            Some(OpCode::new(OPCODE_LDA_ZEROPAGEX, "LDA", 2, 2, AddressingMode::ZeroPageX))
        } else if code == OPCODE_LDA_ABSOLUTE {
            Some(OpCode::new(OPCODE_LDA_ABSOLUTE, "LDA", 3, 4, AddressingMode::Absolute))
        } else if code == OPCODE_LDA_ABSOLUTEX {
            // One cycle more when a page is crossed.
            Some(OpCode::new(OPCODE_LDA_ABSOLUTEX, "LDA", 3, 4, AddressingMode::AbsoluteX))
        } else if code == OPCODE_LDA_ABSOLUTEY {
            // One cycle more when a page is crossed.
            Some(OpCode::new(OPCODE_LDA_ABSOLUTEY, "LDA", 3, 4, AddressingMode::AbsoluteY))
        } else if code == OPCODE_LDA_INDIRECTX {
            Some(OpCode::new(OPCODE_LDA_INDIRECTX, "LDA", 2, 6, AddressingMode::IndirectX))
        } else if code == OPCODE_LDA_INDIRECTY {
            // One cycle more when a page is crossed.
            Some(OpCode::new(OPCODE_LDA_INDIRECTY, "LDA", 2, 5, AddressingMode::IndirectY))
        } else if code == OPCODE_INX {
            Some(OpCode::new(OPCODE_INX, "INX", 1, 2, AddressingMode::NoneAddressing))
        } else if code == OPCODE_TAX {
            Some(OpCode::new(OPCODE_TAX, "TAX", 1, 1, AddressingMode::NoneAddressing))
        } else {
            None
        }
    }
}

impl InstructionHandler {
    /// Whether the handler is a control transfer: whether it says itself
    /// where the program counter goes. Of the handlers only the jump is one.
    pub open spec fn transfers_control(self) -> bool {
        self == InstructionHandler::Jmp
    }

    /// Whether the handler is a control transfer.
    pub fn is_control_transfer(&self) -> (transfers: bool)
        ensures
            transfers == self.transfers_control(),
    {
        match self {
            InstructionHandler::Jmp => true,
            _ => false,
        }
    }

    /// The handler table: the handler of `code`, or `None` where `code` is no
    /// instruction that the machine knows.
    pub open spec fn table(code: u8) -> Option<InstructionHandler> {
        if code == OPCODE_BRK {
            Some(InstructionHandler::Brk)
        } else if code == OPCODE_LDA_IMMEDIATE || code == OPCODE_LDA_ZEROPAGE || code
            == OPCODE_LDA_ZEROPAGEX || code == OPCODE_LDA_ABSOLUTE || code == OPCODE_LDA_ABSOLUTEX
            || code == OPCODE_LDA_ABSOLUTEY || code == OPCODE_LDA_INDIRECTX || code
            == OPCODE_LDA_INDIRECTY {
            Some(InstructionHandler::Lda)
        } else if code == OPCODE_JMP_ABSOLUTE {
            Some(InstructionHandler::Jmp)
        } else if code == OPCODE_INX {
            Some(InstructionHandler::Inx)
        } else if code == OPCODE_TAX {
            Some(InstructionHandler::Tax)
        } else {
            None
        }
    }

    /// Looks `code` up in the handler table.
    pub fn lookup(code: u8) -> (found: Option<InstructionHandler>)
        ensures
            found == InstructionHandler::table(code),
    {
        if code == OPCODE_BRK {
            Some(InstructionHandler::Brk)
        } else if code == OPCODE_LDA_IMMEDIATE || code == OPCODE_LDA_ZEROPAGE || code
            == OPCODE_LDA_ZEROPAGEX || code == OPCODE_LDA_ABSOLUTE || code == OPCODE_LDA_ABSOLUTEX
            || code == OPCODE_LDA_ABSOLUTEY || code == OPCODE_LDA_INDIRECTX || code
            == OPCODE_LDA_INDIRECTY {
            Some(InstructionHandler::Lda)
        } else if code == OPCODE_JMP_ABSOLUTE {
            Some(InstructionHandler::Jmp)
        } else if code == OPCODE_INX {
            Some(InstructionHandler::Inx)
        } else if code == OPCODE_TAX {
            Some(InstructionHandler::Tax)
        } else {
            None
        }
    }
}

/// The catalog files each descriptor under its own opcode byte, no
/// instruction is shorter than its opcode byte or longer than three bytes,
/// and the handler table knows exactly the opcodes that the catalog knows.
pub proof fn lemma_tables_agree(code: u8)
    ensures
        OpCode::catalog(code) matches Some(opcode) ==> opcode.code == code && 1 <= opcode.bytes
            <= 3,
        OpCode::catalog(code) is Some <==> InstructionHandler::table(code) is Some,
{
}

} // verus!
