//! The mathematical model of the machine: its state as plain values, and what
//! one instruction, and a whole run, do to it.

use vstd::prelude::*;
use crate::memory::{with_range, with_word, word_at, MEM_ADDR_MAX};
use crate::opcode::{AddressingMode, InstructionHandler, OpCode, OPCODE_BRK};
use crate::status::{lemma_other_flags_keep, lemma_set_then_test, NEGATIVE, ZERO};

verus! {

/// Where the address is kept at which execution starts after a reset.
pub const INIT_PROGRAM_COUNTER_ADDR: u16 = 0xfffc;

/// The first address of the program ROM.
pub const MEM_PRG_ROM_ADDR_START: u16 = 0x8000;

/// The last address of the program ROM.
pub const MEM_PRG_ROM_ADDR_END: u16 = 0xffff;

/// The number of bytes in the program ROM.
pub const MEM_PRG_ROM_SIZE: usize = 0x8000;

/// What the resolver hands to the handler of an instruction that works on no
/// address. No handler reads memory there.
pub const DEBUG_ADDR: u16 = 0xffff;

/// `addr + offset`, wrapped round at the end of the address space.
pub open spec fn wrap16(addr: int, offset: int) -> u16 {
    ((addr + offset) % 0x1_0000) as u16
}

/// `val + offset`, wrapped round at the end of a page.
pub open spec fn wrap8(val: int, offset: int) -> u8 {
    ((val + offset) % 0x100) as u8
}

/// The status byte `status` with the flags of `flag` set if `on`, and cleared
/// if not.
pub open spec fn with_flag(status: u8, flag: u8, on: bool) -> u8 {
    if on {
        status | flag
    } else {
        status & !flag
    }
}

/// The status byte after an instruction has produced `val`: the zero flag
/// says whether `val` is zero, the negative flag whether bit 7 of `val` is
/// set, and the other flags are those of `status`.
pub open spec fn with_zero_negative(status: u8, val: u8) -> u8 {
    with_flag(with_flag(status, NEGATIVE, val >= 0x80), ZERO, val == 0)
}

/// The state of the machine.
pub struct Machine {
    /// Register A, the accumulator.
    pub a: u8,
    /// Register X.
    pub x: u8,
    /// Register Y.
    pub y: u8,
    /// The status flags, as a byte.
    pub status: u8,
    /// The program counter.
    pub pc: u16,
    /// The bytes of memory, by address.
    pub mem: Seq<u8>,
}

impl Machine {
    /// The byte at `addr`.
    pub open spec fn byte(self, addr: u16) -> u8 {
        self.mem[addr as int]
    }

    /// The little-endian 16-bit value at `addr`.
    pub open spec fn word(self, addr: u16) -> u16 {
        word_at(self.mem, addr as int)
    }

    /// Whether the effective address of an operand at `addr` can be found:
    /// whether no 16-bit value that the mode reads starts at the last
    /// address.
    pub open spec fn resolvable(self, addr: u16, mode: AddressingMode) -> bool {
        match mode {
            AddressingMode::Absolute | AddressingMode::AbsoluteX | AddressingMode::AbsoluteY => addr
                != MEM_ADDR_MAX,
            AddressingMode::Indirect => addr != MEM_ADDR_MAX && self.word(addr) != MEM_ADDR_MAX,
            _ => true,
        }
    }

    /// The effective address of an instruction whose operand lies at `addr`.
    pub open spec fn operand_address(self, addr: u16, mode: AddressingMode) -> u16 {
        match mode {
            AddressingMode::Immediate => addr,
            AddressingMode::ZeroPage => self.byte(addr) as u16,
            AddressingMode::ZeroPageX => wrap8(self.byte(addr) as int, self.x as int) as u16,
            AddressingMode::ZeroPageY => wrap8(self.byte(addr) as int, self.y as int) as u16,
            AddressingMode::Absolute => self.word(addr),
            AddressingMode::AbsoluteX => wrap16(self.word(addr) as int, self.x as int),
            AddressingMode::AbsoluteY => wrap16(self.word(addr) as int, self.y as int),
            AddressingMode::Indirect => self.word(self.word(addr)),
            AddressingMode::IndirectX => self.word(
                wrap8(self.byte(addr) as int, self.x as int) as u16,
            ),
            AddressingMode::IndirectY => wrap16(
                self.word(self.byte(addr) as u16) as int,
                self.y as int,
            ),
            AddressingMode::NoneAddressing => DEBUG_ADDR,
        }
    }

    /// The state after `handler` has worked on the effective address `addr`.
    pub open spec fn execute(self, handler: InstructionHandler, addr: u16) -> Machine {
        match handler {
            InstructionHandler::Brk => self,
            InstructionHandler::Inx => {
                let x = wrap8(self.x as int, 1);
                Machine { x, status: with_zero_negative(self.status, x), ..self }
            },
            InstructionHandler::Jmp => Machine { pc: addr, ..self },
            InstructionHandler::Lda => {
                let a = self.byte(addr);
                Machine { a, status: with_zero_negative(self.status, a), ..self }
            },
            InstructionHandler::Tax => Machine {
                x: self.a,
                status: with_zero_negative(self.status, self.a),
                ..self
            },
        }
    }

    /// The state after the instruction that `opcode` describes, found at the
    /// program counter, has been carried out by `handler`: its effect, and
    /// then the program counter moved past the instruction, unless the
    /// handler is a control transfer. A control transfer leaves the program
    /// counter at its target, also where the target is the address of the
    /// instruction itself.
    pub open spec fn dispatch(self, opcode: OpCode, handler: InstructionHandler) -> Machine {
        let addr = self.operand_address(wrap16(self.pc as int, 1), opcode.addressing_mode);
        let after = self.execute(handler, addr);
        if handler.transfers_control() {
            after
        } else {
            Machine { pc: wrap16(after.pc as int, opcode.bytes as int), ..after }
        }
    }

    /// Whether the machine can carry out the instruction at the program
    /// counter: the catalog knows its opcode, and its address can be found.
    pub open spec fn can_step(self) -> bool {
        OpCode::catalog(self.byte(self.pc)) matches Some(opcode) && self.resolvable(
            wrap16(self.pc as int, 1),
            opcode.addressing_mode,
        )
    }

    /// Whether the instruction at the program counter is the break
    /// instruction.
    pub open spec fn at_break(self) -> bool {
        self.byte(self.pc) == OPCODE_BRK
    }

    /// The state after the instruction at the program counter.
    pub open spec fn step(self) -> Machine {
        let code = self.byte(self.pc);
        self.dispatch(OpCode::catalog(code).unwrap(), InstructionHandler::table(code).unwrap())
    }

    /// The state after `n` instructions.
    pub open spec fn after(self, n: nat) -> Machine
        decreases n,
    {
        if n == 0 {
            self
        } else {
            self.after((n - 1) as nat).step()
        }
    }

    /// Whether the machine carries out exactly `n` instructions and then
    /// comes upon a break instruction, each of them one that it can carry
    /// out.
    pub open spec fn halts_in(self, n: nat) -> bool
        decreases n,
    {
        self.can_step() && if self.at_break() {
            n == 0
        } else {
            n > 0 && self.step().halts_in((n - 1) as nat)
        }
    }

    /// Whether the machine, run from this state, comes upon a break
    /// instruction.
    pub open spec fn halts(self) -> bool {
        exists|n: nat| self.halts_in(n)
    }

    /// The state after a reset: registers and flags are zero, and the program
    /// counter holds what the reset vector holds.
    pub open spec fn reset(self) -> Machine {
        Machine { a: 0, x: 0, y: 0, status: 0, pc: self.word(INIT_PROGRAM_COUNTER_ADDR), ..self }
    }

    /// The state after `program` has been loaded: its bytes lie at the start
    /// of the program ROM, and the reset vector points there.
    pub open spec fn load(self, program: Seq<u8>) -> Machine {
        Machine {
            mem: with_word(
                with_range(self.mem, MEM_PRG_ROM_ADDR_START as int, program),
                INIT_PROGRAM_COUNTER_ADDR as int,
                MEM_PRG_ROM_ADDR_START,
            ),
            ..self
        }
    }
}

/// A machine that stands at an opcode that the catalog does not know cannot
/// carry out an instruction, and does not halt in an orderly way after any
/// number of them: the opcode is not passed over.
pub proof fn lemma_unknown_opcode_is_fatal(m: Machine, n: nat)
    requires
        OpCode::catalog(m.byte(m.pc)) is None,
    ensures
        !m.can_step(),
        !m.halts_in(n),
{
}

/// A machine that halts after `n` instructions still halts, after the
/// instructions that are left, from each state on its way, and stands at a
/// break instruction in none of them but the last.
pub proof fn lemma_halts_in_on_the_way(m: Machine, n: nat, k: nat)
    requires
        m.halts_in(n),
        k <= n,
    ensures
        m.after(k).halts_in((n - k) as nat),
        m.after(k).can_step(),
        k < n ==> !m.after(k).at_break(),
    decreases k,
{
    if k > 0 {
        lemma_halts_in_on_the_way(m, n, (k - 1) as nat);
    }
}

/// A machine that comes, after `k` instructions none of which is a break,
/// upon an instruction that it cannot carry out does not halt in an
/// orderly way, however many instructions it is given: what it cannot carry
/// out, such as an opcode that the catalog does not know, is fatal wherever
/// in the program it stands.
pub proof fn lemma_fatal_ahead(m: Machine, k: nat, n: nat)
    requires
        forall|j: nat| j < k ==> !(#[trigger] m.after(j)).at_break(),
        !m.after(k).can_step(),
    ensures
        !m.halts_in(n),
{
    if m.halts_in(n) {
        if k <= n {
            lemma_halts_in_on_the_way(m, n, k);
        } else {
            lemma_halts_in_on_the_way(m, n, n);
            assert(!m.after(n).at_break());
        }
    }
}

/// The number of instructions before the break is the same however it is
/// counted.
pub proof fn lemma_halts_in_unique(m: Machine, n1: nat, n2: nat)
    requires
        m.halts_in(n1),
        m.halts_in(n2),
    ensures
        n1 == n2,
    decreases n1,
{
    if !m.at_break() {
        lemma_halts_in_unique(m.step(), (n1 - 1) as nat, (n2 - 1) as nat);
    }
}

/// No instruction of the catalog writes to memory.
pub proof fn lemma_step_keeps_memory(m: Machine)
    ensures
        m.step().mem == m.mem,
{
}

/// After an instruction has produced `val`, the zero flag is set exactly when
/// `val` is zero, the negative flag exactly when bit 7 of `val` is set, and
/// every other flag is as it was.
pub proof fn lemma_zero_negative_flags(status: u8, val: u8, other: u8)
    requires
        ZERO & other == 0,
        NEGATIVE & other == 0,
    ensures
        with_zero_negative(status, val) & ZERO == ZERO <==> val == 0,
        with_zero_negative(status, val) & NEGATIVE == NEGATIVE <==> val >= 0x80,
        val >= 0x80 <==> val & 0x80 == 0x80,
        (with_zero_negative(status, val) & other == other) <==> (status & other == other),
{
    let negative = with_flag(status, NEGATIVE, val >= 0x80);
    lemma_set_then_test(status, NEGATIVE);
    lemma_set_then_test(negative, ZERO);
    lemma_other_flags_keep(status, NEGATIVE, other);
    lemma_other_flags_keep(negative, ZERO, other);
    assert(ZERO & NEGATIVE == 0) by (bit_vector);
    lemma_other_flags_keep(negative, ZERO, NEGATIVE);
    assert(val >= 0x80 <==> val & 0x80 == 0x80) by (bit_vector);
}

} // verus!
