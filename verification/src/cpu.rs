//! The execution engine: registers, memory, and the loop that fetches,
//! decodes and carries out instructions.

use vstd::prelude::*;
use simple_error::SimpleError;
use crate::error::{error_text, range_message};
use crate::machine::{
    lemma_halts_in_unique, with_flag, wrap16, Machine, DEBUG_ADDR, INIT_PROGRAM_COUNTER_ADDR,
    MEM_PRG_ROM_ADDR_START, MEM_PRG_ROM_SIZE,
};
use crate::memory::{with_range, with_word, Mem, MEM_ADDR_MAX, MEM_ADDR_SPACE_SIZE};
use crate::opcode::{lemma_tables_agree, AddressingMode, InstructionHandler, OpCode, OPCODE_BRK};
use crate::status::{Status, NEGATIVE, ZERO};

verus! {

/// The processor together with its memory.
///
/// The model of a `CPU` is the [`Machine`] made of its registers, the byte of
/// its flags and the bytes of its memory.
pub struct CPU {
    /// Register A, the accumulator.
    pub reg_a: u8,
    /// Register X.
    pub reg_x: u8,
    /// Register Y.
    pub reg_y: u8,
    /// The status flags.
    pub reg_status: Status,
    /// The program counter.
    pub pc: u16,
    /// The memory.
    pub mem: Mem,
}

impl View for CPU {
    type V = Machine;

    open spec fn view(&self) -> Machine {
        Machine {
            a: self.reg_a,
            x: self.reg_x,
            y: self.reg_y,
            status: self.reg_status.mask(),
            pc: self.pc,
            mem: self.mem@,
        }
    }
}

impl CPU {
    /// A processor with every register, every flag and every byte of memory
    /// at zero.
    pub fn new() -> (cpu: CPU)
        ensures
            cpu@ == (Machine {
                a: 0,
                x: 0,
                y: 0,
                status: 0,
                pc: 0,
                mem: Seq::new(MEM_ADDR_SPACE_SIZE as nat, |a: int| 0u8),
            }),
    {
        CPU {
            reg_a: 0,
            reg_x: 0,
            reg_y: 0,
            reg_status: Status::empty(),
            pc: 0,
            mem: Mem::new(),
        }
    }

    /// Writes `program` to the start of the program ROM and points the reset
    /// vector at it. Fails, and changes nothing, if the program is longer
    /// than the ROM.
    pub fn load(&mut self, program: &[u8]) -> (r: Result<(), SimpleError>)
        ensures
            r is Err <==> program@.len() > MEM_PRG_ROM_SIZE,
            r is Ok ==> final(self)@ == old(self)@.load(program@),
            r matches Err(e) ==> final(self)@ == old(self)@ && error_text(e) == range_message(
                MEM_PRG_ROM_ADDR_START,
                program@.len(),
            ),
    {
        self.mem.write_range(MEM_PRG_ROM_ADDR_START, program)?;
        self.mem.write16(INIT_PROGRAM_COUNTER_ADDR, MEM_PRG_ROM_ADDR_START)
    }

    /// Sets the registers and the flags to zero, and the program counter to
    /// the address that the reset vector holds.
    pub fn reset(&mut self)
        ensures
            final(self)@ == old(self)@.reset(),
    {
        self.reg_a = 0;
        self.reg_x = 0;
        self.reg_y = 0;
        self.reg_status = Status::empty();
        self.pc = self.mem.read16(INIT_PROGRAM_COUNTER_ADDR).unwrap();
    }

    /// Carries out instructions from the program counter on, up to and
    /// including the first break instruction.
    ///
    /// The machine must come upon a break instruction, and be able to carry
    /// out every instruction on its way there: a run without end, or one that
    /// meets an opcode outside the catalog, is not to be started. The state
    /// that is left is the one after the instructions before the break, and
    /// the break itself.
    pub fn run(&mut self)
        requires
            old(self)@.halts(),
        ensures
            forall|n: nat| #[trigger]
                old(self)@.halts_in(n) ==> final(self)@ == old(self)@.after(n).step(),
    {
        let ghost start = self@;
        let ghost total = choose|n: nat| start.halts_in(n);
        let ghost mut done: nat = 0;
        loop
            invariant_except_break
                done <= total,
                self@ == start.after(done),
                self@.halts_in((total - done) as nat),
            ensures
                self@ == start.after(total).step(),
            decreases total - done,
        {
            if !self.step() {
                break ;
            }
            proof {
                done = done + 1;
            }
        }
        assert forall|n: nat| #[trigger] start.halts_in(n) implies self@ == start.after(n).step() by {
            lemma_halts_in_unique(start, n, total);
        }
    }

    /// Whether the machine can carry out the instruction at the program
    /// counter: whether its opcode is in the catalog and its address can be
    /// found. On a machine that cannot, [`CPU::step`] must not be called.
    pub fn can_step(&self) -> (ok: bool)
        ensures
            ok == self@.can_step(),
    {
        match OpCode::lookup(self.read_mem(self.pc)) {
            Some(opcode) => self.can_resolve(self.pc.wrapping_add(1), &opcode.addressing_mode),
            None => false,
        }
    }

    /// Carries out the instruction at the program counter if the machine
    /// can: then says, as [`CPU::step`] does, whether the machine goes on.
    /// Where it cannot, because the opcode is outside the catalog or the
    /// address cannot be found, the answer is `None` and nothing has changed:
    /// no register, no flag, not the program counter and no byte of memory.
    /// The caller must then stop; the instruction is not passed over.
    pub fn try_step(&mut self) -> (outcome: Option<bool>)
        ensures
            outcome is Some <==> old(self)@.can_step(),
            outcome is None ==> final(self)@ == old(self)@,
            outcome matches Some(go_on) ==> final(self)@ == old(self)@.step() && go_on
                == !old(self)@.at_break(),
    {
        if self.can_step() {
            Some(self.step())
        } else {
            None
        }
    }

    /// Carries out the instruction at the program counter. Says whether the
    /// machine goes on: `false` after a break instruction, `true` after any
    /// other.
    ///
    /// An opcode outside the catalog is fatal, so the machine must be one
    /// that [`CPU::can_step`]: nothing is passed over in silence.
    pub fn step(&mut self) -> (go_on: bool)
        requires
            old(self)@.can_step(),
        ensures
            final(self)@ == old(self)@.step(),
            go_on == !old(self)@.at_break(),
    {
        let val = self.read_mem(self.pc);
        proof {
            lemma_tables_agree(val);
        }
        let opcode = OpCode::lookup(val).unwrap();
        self.dispatch_instruction(&opcode)
    }

    /// Loads `program`, resets the machine and runs it up to and including
    /// the first break instruction. Fails, and changes nothing, if the
    /// program is longer than the ROM.
    ///
    /// A program that fits must, once loaded, bring the machine to a break
    /// instruction, as [`CPU::run`] asks.
    pub fn interpret(&mut self, program: &[u8]) -> (r: Result<(), SimpleError>)
        requires
            program@.len() <= MEM_PRG_ROM_SIZE ==> old(self)@.load(program@).reset().halts(),
        ensures
            r is Err <==> program@.len() > MEM_PRG_ROM_SIZE,
            r is Ok ==> forall|n: nat| #[trigger]
                old(self)@.load(program@).reset().halts_in(n) ==> final(self)@ == old(
                    self,
                )@.load(program@).reset().after(n).step(),
            r matches Err(e) ==> final(self)@ == old(self)@ && error_text(e) == range_message(
                MEM_PRG_ROM_ADDR_START,
                program@.len(),
            ),
    {
        self.load(program)?;
        self.reset();
        self.run();

        Ok(())
    }

    /// Carries out the instruction that `opcode` describes, with its operand
    /// behind the program counter, and moves the program counter past it
    /// unless its handler is a control transfer. Says whether the machine
    /// goes on.
    fn dispatch_instruction(&mut self, opcode: &OpCode) -> (go_on: bool)
        requires
            InstructionHandler::table(opcode.code) is Some,
            old(self)@.resolvable(wrap16(old(self).pc as int, 1), opcode.addressing_mode),
        ensures
            final(self)@ == old(self)@.dispatch(
                *opcode,
                InstructionHandler::table(opcode.code).unwrap(),
            ),
            go_on == (opcode.code != OPCODE_BRK),
    {
        let handler = InstructionHandler::lookup(opcode.code).unwrap();
        let addr = self.read_operand_address(self.pc.wrapping_add(1), &opcode.addressing_mode);
        self.handle(handler, addr);

        // A control transfer has put the program counter where it belongs.
        if !handler.is_control_transfer() {
            self.pc = self.pc.wrapping_add(opcode.bytes as u16);
        }
        opcode.code != OPCODE_BRK
    }

    /// Hands the effective address `addr` to `handler`.
    fn handle(&mut self, handler: InstructionHandler, addr: u16)
        ensures
            final(self)@ == old(self)@.execute(handler, addr),
    {
        match handler {
            InstructionHandler::Brk => self.brk(addr),
            InstructionHandler::Inx => self.inx(addr),
            InstructionHandler::Jmp => self.jmp(addr),
            InstructionHandler::Lda => self.lda(addr),
            InstructionHandler::Tax => self.tax(addr),
        }
    }

    /// Whether the effective address of an operand at `addr` can be found:
    /// whether no 16-bit value that the mode reads starts at the last
    /// address.
    pub fn can_resolve(&self, addr: u16, addr_mode: &AddressingMode) -> (ok: bool)
        ensures
            ok == self@.resolvable(addr, *addr_mode),
    {
        match addr_mode {
            AddressingMode::Absolute | AddressingMode::AbsoluteX | AddressingMode::AbsoluteY => addr
                != MEM_ADDR_MAX,
            AddressingMode::Indirect => addr != MEM_ADDR_MAX && self.read_mem16(addr)
                != MEM_ADDR_MAX,
            _ => true,
        }
    }

    /// The effective address of an instruction whose operand lies at `addr`.
    pub fn read_operand_address(&self, addr: u16, addr_mode: &AddressingMode) -> (effective: u16)
        requires
            self@.resolvable(addr, *addr_mode),
        ensures
            effective == self@.operand_address(addr, *addr_mode),
    {
        match addr_mode {
            AddressingMode::Immediate => addr,
            AddressingMode::ZeroPage => self.read_mem(addr) as u16,
            AddressingMode::ZeroPageX => self.read_mem(addr).wrapping_add(self.reg_x) as u16,
            AddressingMode::ZeroPageY => self.read_mem(addr).wrapping_add(self.reg_y) as u16,
            AddressingMode::Absolute => self.read_mem16(addr),
            AddressingMode::AbsoluteX => self.read_mem16(addr).wrapping_add(self.reg_x as u16),
            AddressingMode::AbsoluteY => self.read_mem16(addr).wrapping_add(self.reg_y as u16),
            AddressingMode::Indirect => {
                let addr_of_addr = self.read_mem16(addr);
                self.read_mem16(addr_of_addr)
            },
            AddressingMode::IndirectX => {
                let pointer = self.read_mem(addr).wrapping_add(self.reg_x) as u16;
                self.read_mem16(pointer)
            },
            AddressingMode::IndirectY => {
                let pointer = self.read_mem(addr) as u16;
                self.read_mem16(pointer).wrapping_add(self.reg_y as u16)
            },
            AddressingMode::NoneAddressing => {
                // No handler reads memory at this address.
                DEBUG_ADDR
            },
        }
    }

    /// The byte at `addr`.
    pub fn read_mem(&self, addr: u16) -> (val: u8)
        ensures
            val == self@.byte(addr),
    {
        self.mem.read(addr)
    }

    /// The little-endian 16-bit value at `addr`, which is not the last
    /// address.
    pub fn read_mem16(&self, addr: u16) -> (val: u16)
        requires
            addr != MEM_ADDR_MAX,
        ensures
            val == self@.word(addr),
    {
        self.mem.read16(addr).unwrap()
    }

    /// Stores `val` at `addr`.
    pub fn write_mem(&mut self, addr: u16, val: u8)
        ensures
            final(self)@ == (Machine { mem: old(self)@.mem.update(addr as int, val), ..old(self)@ }),
    {
        self.mem.write(addr, val)
    }

    /// Stores `val`, low byte first, at `addr`, which is not the last
    /// address.
    pub fn write_mem16(&mut self, addr: u16, val: u16)
        requires
            addr != MEM_ADDR_MAX,
        ensures
            final(self)@ == (Machine {
                mem: with_word(old(self)@.mem, addr as int, val),
                ..old(self)@
            }),
    {
        self.mem.write16(addr, val).unwrap()
    }

    /// Stores the bytes of `val` one after the other from `start_addr` on;
    /// they end at the last address or before it.
    pub fn write_range(&mut self, start_addr: u16, val: &[u8])
        requires
            start_addr + val@.len() <= MEM_ADDR_SPACE_SIZE,
        ensures
            final(self)@ == (Machine {
                mem: with_range(old(self)@.mem, start_addr as int, val@),
                ..old(self)@
            }),
    {
        self.mem.write_range(start_addr, val).unwrap()
    }

    /// Sets the negative flag if bit 7 of `register` is set, and clears it if
    /// not. The other flags stay.
    fn set_negative_flag(&mut self, register: u8)
        ensures
            final(self)@ == (Machine {
                status: with_flag(old(self)@.status, NEGATIVE, register >= 0x80),
                ..old(self)@
            }),
    {
        assert((register & 0b1000_0000 == 0) <==> register < 0x80) by (bit_vector);
        if register & 0b1000_0000 == 0 {
            self.reg_status.remove(Status::N());
        } else {
            self.reg_status.insert(Status::N());
        }
    }

    /// Sets the zero flag if `register` is zero, and clears it if not. The
    /// other flags stay.
    fn set_zero_flag(&mut self, register: u8)
        ensures
            final(self)@ == (Machine {
                status: with_flag(old(self)@.status, ZERO, register == 0),
                ..old(self)@
            }),
    {
        if register == 0 {
            self.reg_status.insert(Status::Z());
        } else {
            self.reg_status.remove(Status::Z());
        }
    }

    /// Handles the break instruction, which changes nothing.
    fn brk(&mut self, _addr: u16)
        ensures
            final(self)@ == old(self)@.execute(InstructionHandler::Brk, _addr),
    {
    }

    /// Handles the instruction that adds one to X.
    fn inx(&mut self, _addr: u16)
        ensures
            final(self)@ == old(self)@.execute(InstructionHandler::Inx, _addr),
    {
        self.reg_x = self.reg_x.wrapping_add(1);

        self.set_negative_flag(self.reg_x);
        self.set_zero_flag(self.reg_x);
    }

    /// Handles the jump instruction.
    fn jmp(&mut self, addr: u16)
        ensures
            final(self)@ == old(self)@.execute(InstructionHandler::Jmp, addr),
    {
        self.pc = addr;
    }

    /// Handles the instruction that loads the accumulator from `addr`.
    fn lda(&mut self, addr: u16)
        ensures
            final(self)@ == old(self)@.execute(InstructionHandler::Lda, addr),
    {
        self.reg_a = self.read_mem(addr);

        self.set_negative_flag(self.reg_a);
        self.set_zero_flag(self.reg_a);
    }

    /// Handles the instruction that copies the accumulator to X.
    fn tax(&mut self, _addr: u16)
        ensures
            final(self)@ == old(self)@.execute(InstructionHandler::Tax, _addr),
    {
        self.reg_x = self.reg_a;

        self.set_negative_flag(self.reg_x);
        self.set_zero_flag(self.reg_x);
    }
}

} // verus!
