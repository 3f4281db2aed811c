//! The instruction executor and the fetch–decode–execute loop.
use vstd::prelude::*;

use crate::cpu::{after_load, after_reset, CPU};
use crate::model::{
    add_with_carry, apply_control, apply_data, apply_implied, apply_modify_a,
    apply_modify_memory, apply_read, bit_test, compare, execute, is_control, is_implied,
    modified_carry, modified_value, next, reads_operand, run_steps,
    CpuError, CpuState, PUSHED_ONLY_BITS,
};
use crate::opcode::{lookup, lemma_entry_well_formed, AddressingMode, Instruction, OpCode};
use crate::status::{BREAK, CARRY, DECIMAL_MODE, INTERRUPT, NEGATIVE, OVERFLOW, ZERO};

verus! {

impl CPU {
    /// Carry as 0 or 1.
    fn carry_bit(&self) -> (r: u8)
        ensures
            r == self@.carry(),
            r <= 1,
    {
        if self.status.bits & CARRY != 0 {
            1
        } else {
            0
        }
    }

    /// `ADC`: `A ← A + data + C`, with Carry, Overflow, Zero and Negative.
    pub fn add_to_register_a(&mut self, data: u8)
        ensures
            final(self)@ == add_with_carry(old(self)@, data),
    {
        let sum: u16 = self.register_a as u16 + data as u16 + self.carry_bit() as u16;
        let result = (sum % 0x100) as u8;
        let overflow = (self.register_a ^ result) & (data ^ result) & 0x80 != 0;
        self.status.set(CARRY, sum > 0xFF);
        self.status.set(OVERFLOW, overflow);
        self.set_register_a(result);
    }

    /// An instruction that reads the operand byte `m`.
    fn execute_read(&mut self, i: Instruction, m: u8)
        requires
            reads_operand(i),
        ensures
            final(self)@ == apply_read(old(self)@, i, m),
    {
        match i {
            Instruction::LDA => self.set_register_a(m),
            Instruction::LDX => self.set_register_x(m),
            Instruction::LDY => self.set_register_y(m),
            Instruction::ADC => self.add_to_register_a(m),
            Instruction::SBC => self.add_to_register_a(m ^ 0xFF),
            Instruction::AND => self.set_register_a(self.register_a & m),
            Instruction::ORA => self.set_register_a(self.register_a | m),
            Instruction::EOR => self.set_register_a(self.register_a ^ m),
            Instruction::CMP => self.compare(self.register_a, m),
            Instruction::CPX => self.compare(self.register_x, m),
            Instruction::CPY => self.compare(self.register_y, m),
            _ => {
                let a = self.register_a;
                self.status.set(ZERO, a & m == 0);
                self.status.set(NEGATIVE, m & 0x80 != 0);
                self.status.set(OVERFLOW, m & 0x40 != 0);
                assert(self.status.bits == bit_test(old(self).status.bits, a, m));
            },
        }
    }

    /// Flags of `reg - m`: Carry when `reg >= m`, Zero when equal, Negative
    /// from bit 7 of the difference.
    fn compare(&mut self, reg: u8, m: u8)
        ensures
            final(self)@ == old(self)@.with_p(compare(old(self)@.p, reg, m)),
    {
        self.status.set(CARRY, reg >= m);
        self.status.set(ZERO, reg == m);
        self.status.set(NEGATIVE, reg.wrapping_sub(m) >= 0x80);
    }

    /// The new value of a byte under a shift, rotate, increment or decrement.
    fn modify_value(i: Instruction, v: u8, c: u8) -> (r: u8)
        requires
            c <= 1,
        ensures
            r == modified_value(i, v, c),
    {
        match i {
            Instruction::ASL => (v % 0x80) * 2,
            Instruction::LSR => v / 2,
            Instruction::ROL => (v % 0x80) * 2 + c,
            Instruction::ROR => v / 2 + 0x80 * c,
            Instruction::INC => v.wrapping_add(1),
            _ => v.wrapping_sub(1),
        }
    }

    /// The new Carry under a shift, rotate, increment or decrement.
    fn modify_carry(&self, i: Instruction, v: u8) -> (r: bool)
        ensures
            r == modified_carry(i, v, self@.p),
    {
        match i {
            Instruction::ASL | Instruction::ROL => v >= 0x80,
            Instruction::LSR | Instruction::ROR => v % 2 == 1,
            _ => self.status.bits & CARRY != 0,
        }
    }

    /// A shift, rotate, increment or decrement of the byte at `addr`.
    fn execute_modify_memory(&mut self, i: Instruction, addr: u16)
        ensures
            final(self)@ == apply_modify_memory(old(self)@, i, addr),
    {
        let v = self.mem_read(addr);
        let r = CPU::modify_value(i, v, self.carry_bit());
        let carry = self.modify_carry(i, v);
        self.mem_write(addr, r);
        self.status.set(CARRY, carry);
        self.status.update_zero_and_negative_flags(r);
    }

    /// A shift or rotate of `A`.
    fn execute_modify_a(&mut self, i: Instruction)
        ensures
            final(self)@ == apply_modify_a(old(self)@, i),
    {
        let v = self.register_a;
        let r = CPU::modify_value(i, v, self.carry_bit());
        let carry = self.modify_carry(i, v);
        self.register_a = r;
        self.status.set(CARRY, carry);
        self.status.update_zero_and_negative_flags(r);
    }

    /// Transfers, register steps, flag operations and stack operations.
    fn execute_implied(&mut self, i: Instruction)
        requires
            is_implied(i),
        ensures
            final(self)@ == apply_implied(old(self)@, i),
    {
        match i {
            Instruction::TAX => self.set_register_x(self.register_a),
            Instruction::TAY => self.set_register_y(self.register_a),
            Instruction::TXA => self.set_register_a(self.register_x),
            Instruction::TYA => self.set_register_a(self.register_y),
            Instruction::TSX => self.set_register_x(self.stack_pointer),
            Instruction::TXS => self.stack_pointer = self.register_x,
            Instruction::INX => self.set_register_x(self.register_x.wrapping_add(1)),
            Instruction::INY => self.set_register_y(self.register_y.wrapping_add(1)),
            Instruction::DEX => self.set_register_x(self.register_x.wrapping_sub(1)),
            Instruction::DEY => self.set_register_y(self.register_y.wrapping_sub(1)),
            Instruction::CLC => self.status.set(CARRY, false),
            Instruction::SEC => self.status.set(CARRY, true),
            Instruction::CLI => self.status.set(INTERRUPT, false),
            Instruction::SEI => self.status.set(INTERRUPT, true),
            Instruction::CLD => self.status.set(DECIMAL_MODE, false),
            Instruction::SED => self.status.set(DECIMAL_MODE, true),
            Instruction::CLV => self.status.set(OVERFLOW, false),
            Instruction::PHA => self.stack_push(self.register_a),
            Instruction::PHP => self.stack_push(self.status.bits | PUSHED_ONLY_BITS),
            Instruction::PLA => {
                let v = self.stack_pop();
                self.set_register_a(v);
            },
            Instruction::PLP => {
                let p = self.status.bits;
                let v = self.stack_pop();
                self.status.bits = (v & !PUSHED_ONLY_BITS) | (p & PUSHED_ONLY_BITS);
            },
            _ => {},
        }
    }

    /// Whether the branch instruction `i` is taken under the current flags.
    fn branch_taken(&self, i: Instruction) -> (r: bool)
        requires
            crate::model::branch_condition(i, 0) is Some,
        ensures
            crate::model::branch_condition(i, self@.p) == Some(r),
    {
        let p = self.status.bits;
        match i {
            Instruction::BCC => p & CARRY == 0,
            Instruction::BCS => p & CARRY != 0,
            Instruction::BEQ => p & ZERO != 0,
            Instruction::BNE => p & ZERO == 0,
            Instruction::BMI => p & NEGATIVE != 0,
            Instruction::BPL => p & NEGATIVE == 0,
            Instruction::BVS => p & OVERFLOW != 0,
            _ => p & OVERFLOW == 0,
        }
    }

    /// Jumps, calls, returns and branches; `false`, with nothing changed,
    /// for a jump with a mode it does not take.
    fn execute_control(&mut self, op: OpCode) -> (r: bool)
        requires
            is_control(op.instruction),
        ensures
            r ==> apply_control(old(self)@, op) == Some(final(self)@),
            !r ==> apply_control(old(self)@, op) is None && final(self)@ == old(self)@,
    {
        let pc = self.program_counter;
        match op.instruction {
            Instruction::JMP => match op.addressing_mode {
                AddressingMode::Absolute => {
                    self.program_counter = self.mem_read_u16(pc);
                    true
                },
                AddressingMode::Other => {
                    let ptr = self.mem_read_u16(pc);
                    let target = if ptr % 0x100 == 0xFF {
                        let lo = self.mem_read(ptr);
                        let hi = self.mem_read(ptr - 0xFF);
                        (hi as u16) * 0x100 + lo as u16
                    } else {
                        self.mem_read_u16(ptr)
                    };
                    self.program_counter = target;
                    true
                },
                _ => false,
            },
            Instruction::JSR => {
                let target = self.mem_read_u16(pc);
                self.stack_push_u16(pc.wrapping_add(1));
                self.program_counter = target;
                true
            },
            Instruction::RTS => {
                let ret = self.stack_pop_u16();
                self.program_counter = ret.wrapping_add(1);
                true
            },
            Instruction::RTI => {
                let p = self.status.bits;
                let v = self.stack_pop();
                let ret = self.stack_pop_u16();
                self.status.bits = (v & !PUSHED_ONLY_BITS) | (p & PUSHED_ONLY_BITS);
                self.program_counter = ret;
                true
            },
            _ => {
                let after = pc.wrapping_add(1);
                if self.branch_taken(op.instruction) {
                    let offset = self.mem_read(pc);
                    self.program_counter = if offset >= 0x80 {
                        after.wrapping_sub(0x100 - offset as u16)
                    } else {
                        after.wrapping_add(offset as u16)
                    };
                } else {
                    self.program_counter = after;
                }
                true
            },
        }
    }

    /// Instructions that neither jump nor halt, `PC` aside; `false`, with
    /// nothing changed, when the mode addresses no memory but the
    /// instruction needs an operand there.
    fn execute_data(&mut self, op: OpCode) -> (r: bool)
        ensures
            r ==> apply_data(old(self)@, op) == Some(final(self)@),
            !r ==> apply_data(old(self)@, op) is None && final(self)@ == old(self)@,
    {
        let i = op.instruction;
        match i {
            Instruction::TAX | Instruction::TAY | Instruction::TXA | Instruction::TYA
            | Instruction::TSX | Instruction::TXS | Instruction::INX | Instruction::INY
            | Instruction::DEX | Instruction::DEY | Instruction::CLC | Instruction::SEC
            | Instruction::CLI | Instruction::SEI | Instruction::CLD | Instruction::SED
            | Instruction::CLV | Instruction::PHA | Instruction::PHP | Instruction::PLA
            | Instruction::PLP | Instruction::NOP => {
                self.execute_implied(i);
                return true;
            },
            _ => {},
        }
        let accumulator = match op.addressing_mode {
            AddressingMode::Other => true,
            _ => false,
        };
        match i {
            Instruction::ASL | Instruction::LSR | Instruction::ROL | Instruction::ROR => {
                if accumulator {
                    self.execute_modify_a(i);
                    return true;
                }
            },
            _ => {},
        }
        match self.get_operand_address(op.addressing_mode) {
            None => false,
            Some(addr) => {
                match i {
                    Instruction::LDA | Instruction::LDX | Instruction::LDY | Instruction::ADC
                    | Instruction::SBC | Instruction::AND | Instruction::ORA | Instruction::EOR
                    | Instruction::CMP | Instruction::CPX | Instruction::CPY | Instruction::BIT => {
                        let m = self.mem_read(addr);
                        self.execute_read(i, m);
                    },
                    Instruction::ASL | Instruction::LSR | Instruction::ROL | Instruction::ROR
                    | Instruction::INC | Instruction::DEC => {
                        self.execute_modify_memory(i, addr);
                    },
                    Instruction::STA => self.mem_write(addr, self.register_a),
                    Instruction::STX => self.mem_write(addr, self.register_x),
                    _ => self.mem_write(addr, self.register_y),
                }
                true
            },
        }
    }

    /// Runs one decoded instruction with `PC` at its first operand byte:
    /// `Some(halted)`, or `None`, with nothing changed, for an unsupported
    /// mode.
    fn execute(&mut self, op: OpCode) -> (r: Option<bool>)
        requires
            op.len >= 1,
        ensures
            r matches Some(h) ==> execute(old(self)@, op) == Some((final(self)@, h)),
            r is None ==> execute(old(self)@, op) is None && final(self)@ == old(self)@,
    {
        match op.instruction {
            Instruction::BRK => {
                self.status.insert(BREAK);
                return Some(true);
            },
            Instruction::JMP | Instruction::JSR | Instruction::RTS | Instruction::RTI
            | Instruction::BCC | Instruction::BCS | Instruction::BEQ | Instruction::BNE
            | Instruction::BMI | Instruction::BPL | Instruction::BVC | Instruction::BVS => {
                return if self.execute_control(op) {
                    Some(false)
                } else {
                    None
                };
            },
            _ => {},
        }
        let pc = self.program_counter;
        if self.execute_data(op) {
            self.program_counter = pc.wrapping_add((op.len - 1) as u16);
            Some(false)
        } else {
            None
        }
    }

    /// Fetches, decodes and executes the instruction at `PC`. `Ok(true)`
    /// when it was `BRK`; on an error nothing changes.
    pub fn step(&mut self) -> (r: Result<bool, CpuError>)
        ensures
            match r {
                Ok(h) => next(old(self)@) == Ok::<(CpuState, bool), CpuError>((final(self)@, h)),
                Err(e) => next(old(self)@) == Err::<(CpuState, bool), CpuError>(e) && final(self)@
                    == old(self)@,
            },
    {
        let pc = self.program_counter;
        let code = self.mem_read(pc);
        match lookup(code) {
            None => Err(CpuError::DecodeFailure { opcode: code, pc }),
            Some(op) => {
                proof {
                    lemma_entry_well_formed(code);
                }
                self.program_counter = pc.wrapping_add(1);
                match self.execute(op) {
                    Some(halted) => Ok(halted),
                    None => {
                        self.program_counter = pc;
                        Err(CpuError::UnsupportedMode { opcode: code, pc })
                    },
                }
            },
        }
    }

    /// Runs at most `max_steps` instructions, stopping at `BRK` or at an
    /// error: `Ok(true)` when `BRK` was reached, `Ok(false)` when the steps
    /// ran out.
    pub fn run_for(&mut self, max_steps: u64) -> (r: Result<bool, CpuError>)
        ensures
            (final(self)@, r) == run_steps(old(self)@, max_steps as nat),
    {
        let ghost start = self@;
        let mut left: u64 = max_steps;
        while left > 0
            invariant
                start == old(self)@,
                run_steps(start, max_steps as nat) == run_steps(self@, left as nat),
            decreases left,
        {
            let ghost before = self@;
            let r = self.step();
            assert(run_steps(before, left as nat) == match next(before) {
                Err(e) => (before, Err(e)),
                Ok((s1, halted)) => if halted {
                    (s1, Ok(true))
                } else {
                    run_steps(s1, (left - 1) as nat)
                },
            });
            match r {
                Err(e) => return Err(e),
                Ok(true) => return Ok(true),
                Ok(false) => {},
            }
            left = left - 1;
        }
        Ok(false)
    }

    /// Runs until `BRK` or an error; it gives up, with `Ok(false)`, only
    /// after `u64::MAX` instructions.
    pub fn run(&mut self) -> (r: Result<bool, CpuError>)
        ensures
            (final(self)@, r) == run_steps(old(self)@, u64::MAX as nat),
    {
        self.run_for(u64::MAX)
    }

    /// `load`, `reset`, then `run`.
    pub fn load_and_run(&mut self, program: &[u8]) -> (r: Result<bool, CpuError>)
        requires
            program@.len() <= 0x8000,
        ensures
            (final(self)@, r) == run_steps(
                after_reset(after_load(old(self)@, program@)),
                u64::MAX as nat,
            ),
    {
        self.load(program);
        self.reset();
        self.run()
    }
}

} // verus!
