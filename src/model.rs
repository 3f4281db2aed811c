//! The abstract machine: processor state as plain values, and the meaning of
//! each instruction as a function from state to state.
use vstd::prelude::*;

use crate::opcode::{opcode_entry, AddressingMode, Instruction, OpCode};
use crate::status::{with_flag, with_zn, BREAK, CARRY, NEGATIVE, OVERFLOW, ZERO, INTERRUPT, DECIMAL_MODE};

verus! {

/// Base of the stack page: the stack lives at `0x0100 | SP`.
pub const STACK: u16 = 0x0100;

/// Bits 4 and 5 of `P`: forced to 1 in the copy that `PHP` pushes, left as
/// they are by `PLP` and `RTI`.
pub const PUSHED_ONLY_BITS: u8 = 0b0011_0000;

/// Why the processor stopped with an error.
#[derive(Clone, Copy, Debug, PartialEq, Eq, Structural)]
pub enum CpuError {
    /// The byte at `pc` encodes no instruction.
    DecodeFailure { opcode: u8, pc: u16 },
    /// The instruction at `pc` was dispatched with a mode it does not take.
    UnsupportedMode { opcode: u8, pc: u16 },
}

/// The architectural state: registers, status, and the 64 KiB memory.
pub struct CpuState {
    pub a: u8,
    pub x: u8,
    pub y: u8,
    pub p: u8,
    pub sp: u8,
    pub pc: u16,
    pub mem: Seq<u8>,
}

/// `v` modulo 256.
pub open spec fn wrap8(v: int) -> u8 {
    (v % 0x100) as u8
}

/// `v` modulo 65536.
pub open spec fn wrap16(v: int) -> u16 {
    (v % 0x10000) as u16
}

/// A byte read as a signed two's-complement offset.
pub open spec fn sign_extend(v: u8) -> int {
    if v >= 0x80 {
        v - 0x100
    } else {
        v as int
    }
}

/// The 16-bit value with low byte `lo` and high byte `hi`.
pub open spec fn word(lo: u8, hi: u8) -> u16 {
    (lo + 0x100 * hi) as u16
}

impl CpuState {
    /// A memory of exactly 64 KiB.
    pub open spec fn wf(self) -> bool {
        self.mem.len() == 0x10000
    }

    pub open spec fn read8(self, addr: u16) -> u8 {
        self.mem[addr as int]
    }

    /// Little-endian: the low byte at `addr`, the high byte at `addr + 1`
    /// (which wraps to 0 after 0xFFFF).
    pub open spec fn read16(self, addr: u16) -> u16 {
        word(self.read8(addr), self.read8(wrap16(addr + 1)))
    }

    /// A 16-bit pointer kept in the zero page: its high byte wraps within
    /// the zero page.
    pub open spec fn read16_zero_page(self, ptr: u8) -> u16 {
        word(self.read8(ptr as u16), self.read8(wrap8(ptr + 1) as u16))
    }

    pub open spec fn write8(self, addr: u16, v: u8) -> CpuState {
        CpuState { mem: self.mem.update(addr as int, v), ..self }
    }

    pub open spec fn write16(self, addr: u16, v: u16) -> CpuState {
        self.write8(addr, (v % 0x100) as u8).write8(wrap16(addr + 1), (v / 0x100) as u8)
    }

    pub open spec fn with_a(self, a: u8) -> CpuState {
        CpuState { a, ..self }
    }

    pub open spec fn with_p(self, p: u8) -> CpuState {
        CpuState { p, ..self }
    }

    pub open spec fn with_pc(self, pc: u16) -> CpuState {
        CpuState { pc, ..self }
    }

    /// `A ← v`, with Zero and Negative describing `v`.
    pub open spec fn load_a(self, v: u8) -> CpuState {
        CpuState { a: v, p: with_zn(self.p, v), ..self }
    }

    pub open spec fn load_x(self, v: u8) -> CpuState {
        CpuState { x: v, p: with_zn(self.p, v), ..self }
    }

    pub open spec fn load_y(self, v: u8) -> CpuState {
        CpuState { y: v, p: with_zn(self.p, v), ..self }
    }

    /// The address of the top free slot of the stack.
    pub open spec fn stack_top(self) -> u16 {
        (STACK + self.sp) as u16
    }

    /// Writes `v` at the free slot, then decrements `SP` modulo 256.
    pub open spec fn push8(self, v: u8) -> CpuState {
        CpuState { sp: wrap8(self.sp - 1), ..self.write8(self.stack_top(), v) }
    }

    /// Increments `SP` modulo 256, then reads the slot it points at.
    pub open spec fn pop8(self) -> (CpuState, u8) {
        let s = CpuState { sp: wrap8(self.sp + 1), ..self };
        (s, s.read8(s.stack_top()))
    }

    /// Pushes the high byte, then the low byte.
    pub open spec fn push16(self, v: u16) -> CpuState {
        self.push8((v / 0x100) as u8).push8((v % 0x100) as u8)
    }

    /// Pops the low byte, then the high byte.
    pub open spec fn pop16(self) -> (CpuState, u16) {
        let (s1, lo) = self.pop8();
        let (s2, hi) = s1.pop8();
        (s2, word(lo, hi))
    }

    /// Flag Carry of `P`.
    pub open spec fn carry(self) -> u8 {
        if self.p & CARRY != 0 {
            1
        } else {
            0
        }
    }

    /// The effective address of an operand that starts at `PC`, or `None`
    /// for a mode that addresses no memory.
    pub open spec fn operand_address(self, mode: AddressingMode) -> Option<u16> {
        let pc = self.pc;
        match mode {
            AddressingMode::Immediate => Some(pc),
            AddressingMode::ZeroPage => Some(self.read8(pc) as u16),
            AddressingMode::ZeroPageX => Some(wrap8(self.read8(pc) + self.x) as u16),
            AddressingMode::ZeroPageY => Some(wrap8(self.read8(pc) + self.y) as u16),
            AddressingMode::Absolute => Some(self.read16(pc)),
            AddressingMode::AbsoluteX => Some(wrap16(self.read16(pc) + self.x)),
            AddressingMode::AbsoluteY => Some(wrap16(self.read16(pc) + self.y)),
            AddressingMode::IndirectX => Some(
                self.read16_zero_page(wrap8(self.read8(pc) + self.x)),
            ),
            AddressingMode::IndirectY => Some(
                wrap16(self.read16_zero_page(self.read8(pc)) + self.y),
            ),
            AddressingMode::Other => None,
        }
    }
}

/// `ADC`: `A + m + C`, with Carry out, signed Overflow, Zero and Negative.
pub open spec fn add_with_carry(s: CpuState, m: u8) -> CpuState {
    let sum = s.a + m + s.carry();
    let r = wrap8(sum);
    let overflow = (s.a ^ r) & (m ^ r) & 0x80 != 0;
    let p = with_flag(with_flag(s.p, CARRY, sum > 0xFF), OVERFLOW, overflow);
    s.with_p(p).load_a(r)
}

/// `CMP`, `CPX`, `CPY`: flags of `reg - m`, nothing stored.
pub open spec fn compare(p: u8, reg: u8, m: u8) -> u8 {
    with_flag(
        with_flag(with_flag(p, CARRY, reg >= m), ZERO, reg == m),
        NEGATIVE,
        wrap8(reg - m) >= 0x80,
    )
}

/// `BIT`: Zero from `A & m`, Negative and Overflow from bits 7 and 6 of `m`.
pub open spec fn bit_test(p: u8, a: u8, m: u8) -> u8 {
    with_flag(
        with_flag(with_flag(p, ZERO, a & m == 0), NEGATIVE, m & 0x80 != 0),
        OVERFLOW,
        m & 0x40 != 0,
    )
}

/// The instructions that read one byte of memory and change only registers.
pub open spec fn reads_operand(i: Instruction) -> bool {
    match i {
        Instruction::LDA | Instruction::LDX | Instruction::LDY | Instruction::ADC
        | Instruction::SBC | Instruction::AND | Instruction::ORA | Instruction::EOR
        | Instruction::CMP | Instruction::CPX | Instruction::CPY | Instruction::BIT => true,
        _ => false,
    }
}

/// The effect of a reading instruction on the operand byte `m`.
pub open spec fn apply_read(s: CpuState, i: Instruction, m: u8) -> CpuState {
    match i {
        Instruction::LDA => s.load_a(m),
        Instruction::LDX => s.load_x(m),
        Instruction::LDY => s.load_y(m),
        Instruction::ADC => add_with_carry(s, m),
        Instruction::SBC => add_with_carry(s, m ^ 0xFF),
        Instruction::AND => s.load_a(s.a & m),
        Instruction::ORA => s.load_a(s.a | m),
        Instruction::EOR => s.load_a(s.a ^ m),
        Instruction::CMP => s.with_p(compare(s.p, s.a, m)),
        Instruction::CPX => s.with_p(compare(s.p, s.x, m)),
        Instruction::CPY => s.with_p(compare(s.p, s.y, m)),
        _ => s.with_p(bit_test(s.p, s.a, m)),
    }
}

/// The instructions that replace one byte, in memory or in `A`.
pub open spec fn modifies_operand(i: Instruction) -> bool {
    match i {
        Instruction::ASL | Instruction::LSR | Instruction::ROL | Instruction::ROR
        | Instruction::INC | Instruction::DEC => true,
        _ => false,
    }
}

/// The new value of the byte `v` under a replacing instruction, given the
/// carry `c` (0 or 1).
pub open spec fn modified_value(i: Instruction, v: u8, c: u8) -> u8 {
    match i {
        Instruction::ASL => ((v % 0x80) * 2) as u8,
        Instruction::LSR => v / 2,
        Instruction::ROL => ((v % 0x80) * 2 + c) as u8,
        Instruction::ROR => (v / 2 + 0x80 * c) as u8,
        Instruction::INC => wrap8(v + 1),
        _ => wrap8(v - 1),
    }
}

/// The new Carry under a replacing instruction: the bit shifted out, or
/// Carry unchanged for `INC` and `DEC`.
pub open spec fn modified_carry(i: Instruction, v: u8, p: u8) -> bool {
    match i {
        Instruction::ASL | Instruction::ROL => v >= 0x80,
        Instruction::LSR | Instruction::ROR => v % 2 == 1,
        _ => p & CARRY != 0,
    }
}

/// Status after a replacing instruction turned `v` into its new value.
pub open spec fn modified_flags(s: CpuState, i: Instruction, v: u8) -> u8 {
    with_zn(with_flag(s.p, CARRY, modified_carry(i, v, s.p)), modified_value(i, v, s.carry()))
}

/// A replacing instruction on the byte at `addr`.
pub open spec fn apply_modify_memory(s: CpuState, i: Instruction, addr: u16) -> CpuState {
    let v = s.read8(addr);
    s.write8(addr, modified_value(i, v, s.carry())).with_p(modified_flags(s, i, v))
}

/// A shift or rotate of `A`.
pub open spec fn apply_modify_a(s: CpuState, i: Instruction) -> CpuState {
    s.with_a(modified_value(i, s.a, s.carry())).with_p(modified_flags(s, i, s.a))
}

/// `STA`, `STX`, `STY`.
pub open spec fn stored_register(s: CpuState, i: Instruction) -> u8 {
    match i {
        Instruction::STA => s.a,
        Instruction::STX => s.x,
        _ => s.y,
    }
}

pub open spec fn is_store(i: Instruction) -> bool {
    match i {
        Instruction::STA | Instruction::STX | Instruction::STY => true,
        _ => false,
    }
}

/// `P` as `PLP` and `RTI` restore it from the byte `v`: bits 4 and 5 stay.
pub open spec fn restored_status(p: u8, v: u8) -> u8 {
    (v & !PUSHED_ONLY_BITS) | (p & PUSHED_ONLY_BITS)
}

/// The instructions without an operand in memory that do not jump.
pub open spec fn apply_implied(s: CpuState, i: Instruction) -> CpuState {
    match i {
        Instruction::TAX => s.load_x(s.a),
        Instruction::TAY => s.load_y(s.a),
        Instruction::TXA => s.load_a(s.x),
        Instruction::TYA => s.load_a(s.y),
        Instruction::TSX => s.load_x(s.sp),
        Instruction::TXS => CpuState { sp: s.x, ..s },
        Instruction::INX => s.load_x(wrap8(s.x + 1)),
        Instruction::INY => s.load_y(wrap8(s.y + 1)),
        Instruction::DEX => s.load_x(wrap8(s.x - 1)),
        Instruction::DEY => s.load_y(wrap8(s.y - 1)),
        Instruction::CLC => s.with_p(with_flag(s.p, CARRY, false)),
        Instruction::SEC => s.with_p(with_flag(s.p, CARRY, true)),
        Instruction::CLI => s.with_p(with_flag(s.p, INTERRUPT, false)),
        Instruction::SEI => s.with_p(with_flag(s.p, INTERRUPT, true)),
        Instruction::CLD => s.with_p(with_flag(s.p, DECIMAL_MODE, false)),
        Instruction::SED => s.with_p(with_flag(s.p, DECIMAL_MODE, true)),
        Instruction::CLV => s.with_p(with_flag(s.p, OVERFLOW, false)),
        Instruction::PHA => s.push8(s.a),
        Instruction::PHP => s.push8(s.p | PUSHED_ONLY_BITS),
        Instruction::PLA => {
            let (s1, v) = s.pop8();
            s1.load_a(v)
        },
        Instruction::PLP => {
            let (s1, v) = s.pop8();
            s1.with_p(restored_status(s.p, v))
        },
        _ => s,
    }
}

pub open spec fn is_implied(i: Instruction) -> bool {
    match i {
        Instruction::TAX | Instruction::TAY | Instruction::TXA | Instruction::TYA
        | Instruction::TSX | Instruction::TXS | Instruction::INX | Instruction::INY
        | Instruction::DEX | Instruction::DEY | Instruction::CLC | Instruction::SEC
        | Instruction::CLI | Instruction::SEI | Instruction::CLD | Instruction::SED
        | Instruction::CLV | Instruction::PHA | Instruction::PHP | Instruction::PLA
        | Instruction::PLP | Instruction::NOP => true,
        _ => false,
    }
}

/// The condition under which a branch is taken, or `None` for an instruction
/// that is no branch.
pub open spec fn branch_condition(i: Instruction, p: u8) -> Option<bool> {
    match i {
        Instruction::BCC => Some(p & CARRY == 0),
        Instruction::BCS => Some(p & CARRY != 0),
        Instruction::BEQ => Some(p & ZERO != 0),
        Instruction::BNE => Some(p & ZERO == 0),
        Instruction::BMI => Some(p & NEGATIVE != 0),
        Instruction::BPL => Some(p & NEGATIVE == 0),
        Instruction::BVS => Some(p & OVERFLOW != 0),
        Instruction::BVC => Some(p & OVERFLOW == 0),
        _ => None,
    }
}

/// The target of `JMP (ptr)`, with the page-wrap of the 6502 itself:
/// for a pointer at the end of a page, the high byte comes from the start of
/// that same page.
pub open spec fn indirect_target(s: CpuState, ptr: u16) -> u16 {
    if ptr % 0x100 == 0xFF {
        word(s.read8(ptr), s.read8((ptr - 0xFF) as u16))
    } else {
        s.read16(ptr)
    }
}

/// The effect of a jump, call, return or branch, `PC` included; `None` for
/// a jump with a mode it does not take.
pub open spec fn apply_control(s: CpuState, op: OpCode) -> Option<CpuState> {
    match op.instruction {
        Instruction::JMP => match op.addressing_mode {
            AddressingMode::Absolute => Some(s.with_pc(s.read16(s.pc))),
            AddressingMode::Other => Some(s.with_pc(indirect_target(s, s.read16(s.pc)))),
            _ => None,
        },
        Instruction::JSR => Some(s.push16(wrap16(s.pc + 1)).with_pc(s.read16(s.pc))),
        Instruction::RTS => {
            let (s1, ret) = s.pop16();
            Some(s1.with_pc(wrap16(ret + 1)))
        },
        Instruction::RTI => {
            let (s1, v) = s.pop8();
            let (s2, ret) = s1.pop16();
            Some(s2.with_p(restored_status(s.p, v)).with_pc(ret))
        },
        _ => {
            let after = wrap16(s.pc + 1);
            if branch_condition(op.instruction, s.p) == Some(true) {
                Some(s.with_pc(wrap16(after + sign_extend(s.read8(s.pc)))))
            } else {
                Some(s.with_pc(after))
            }
        },
    }
}

pub open spec fn is_control(i: Instruction) -> bool {
    i == Instruction::JMP || i == Instruction::JSR || i == Instruction::RTS || i == Instruction::RTI
        || branch_condition(i, 0) is Some
}

/// The effect of an instruction that neither jumps nor halts, `PC` aside;
/// `None` when its mode addresses no memory but it needs an operand there.
pub open spec fn apply_data(s: CpuState, op: OpCode) -> Option<CpuState> {
    let i = op.instruction;
    if is_implied(i) {
        Some(apply_implied(s, i))
    } else if modifies_operand(i) && op.addressing_mode == AddressingMode::Other && i
        != Instruction::INC && i != Instruction::DEC {
        Some(apply_modify_a(s, i))
    } else {
        match s.operand_address(op.addressing_mode) {
            None => None,
            Some(addr) => if reads_operand(i) {
                Some(apply_read(s, i, s.read8(addr)))
            } else if modifies_operand(i) {
                Some(apply_modify_memory(s, i, addr))
            } else {
                Some(s.write8(addr, stored_register(s, i)))
            },
        }
    }
}

/// One instruction, decoded as `op`, run on a state whose `PC` is at its
/// first operand byte: the new state and whether it halted (`BRK`), or
/// `None` for an unsupported mode.
pub open spec fn execute(s: CpuState, op: OpCode) -> Option<(CpuState, bool)> {
    if op.instruction == Instruction::BRK {
        Some((s.with_p(s.p | BREAK), true))
    } else if is_control(op.instruction) {
        match apply_control(s, op) {
            Some(s1) => Some((s1, false)),
            None => None,
        }
    } else {
        match apply_data(s, op) {
            Some(s1) => Some((s1.with_pc(wrap16(s.pc + op.len - 1)), false)),
            None => None,
        }
    }
}

/// Fetch, decode and execute the instruction at `PC`.
pub open spec fn next(s: CpuState) -> Result<(CpuState, bool), CpuError> {
    let code = s.read8(s.pc);
    match opcode_entry(code) {
        None => Err(CpuError::DecodeFailure { opcode: code, pc: s.pc }),
        Some(op) => match execute(s.with_pc(wrap16(s.pc + 1)), op) {
            Some(r) => Ok(r),
            None => Err(CpuError::UnsupportedMode { opcode: code, pc: s.pc }),
        },
    }
}

/// At most `fuel` instructions, stopping at `BRK` or an error: the final
/// state, and whether `BRK` was reached.
pub open spec fn run_steps(s: CpuState, fuel: nat) -> (CpuState, Result<bool, CpuError>)
    decreases fuel,
{
    if fuel == 0 {
        (s, Ok(false))
    } else {
        match next(s) {
            Err(e) => (s, Err(e)),
            Ok((s1, halted)) => if halted {
                (s1, Ok(true))
            } else {
                run_steps(s1, (fuel - 1) as nat)
            },
        }
    }
}

} // verus!
