//! The processor: registers, status, memory, and the memory bus and stack
//! operations on them.
use vstd::prelude::*;

use crate::model::{CpuState, STACK};
use crate::opcode::AddressingMode;
use crate::status::CpuStatus;

verus! {

/// `SP` after a reset, as on the 6502 itself.
pub const STACK_RESET: u8 = 0xFD;

/// Where `load` places a program.
pub const PROGRAM_START: u16 = 0x8000;

/// Where the initial `PC` is stored, little-endian.
pub const RESET_VECTOR: u16 = 0xFFFC;

/// A 6502 processor with its own 64 KiB of memory. Its abstract state is
/// its view, a `CpuState`.
#[allow(clippy::upper_case_acronyms)]
pub struct CPU {
    pub register_a: u8,
    pub register_x: u8,
    pub register_y: u8,
    pub status: CpuStatus,
    pub program_counter: u16,
    pub stack_pointer: u8,
    pub memory: [u8; 0x10000],
}

impl View for CPU {
    type V = CpuState;

    open spec fn view(&self) -> CpuState {
        CpuState {
            a: self.register_a,
            x: self.register_x,
            y: self.register_y,
            p: self.status.bits,
            sp: self.stack_pointer,
            pc: self.program_counter,
            mem: self.memory@,
        }
    }
}

/// The memory of a program loaded into `mem`: the program's bytes from
/// `PROGRAM_START` on, then the reset vector pointing at it.
pub open spec fn loaded_memory(mem: Seq<u8>, program: Seq<u8>) -> Seq<u8> {
    Seq::new(
        mem.len(),
        |i: int|
            if PROGRAM_START <= i < PROGRAM_START + program.len() {
                program[i - PROGRAM_START]
            } else {
                mem[i]
            },
    ).update(RESET_VECTOR as int, 0x00).update(RESET_VECTOR + 1, 0x80)
}

/// The state after `load(program)`.
pub open spec fn after_load(s: CpuState, program: Seq<u8>) -> CpuState {
    CpuState { mem: loaded_memory(s.mem, program), ..s }
}

/// The state after `reset()`.
pub open spec fn after_reset(s: CpuState) -> CpuState {
    CpuState { a: 0, x: 0, y: 0, p: 0, sp: STACK_RESET, pc: s.read16(RESET_VECTOR), mem: s.mem }
}

impl Default for CPU {
    /// Zeroed registers, flags and memory; `SP` at its reset value.
    fn default() -> (r: CPU)
        ensures
            r@.a == 0 && r@.x == 0 && r@.y == 0 && r@.p == 0 && r@.pc == 0,
            r@.sp == STACK_RESET,
            r@.mem == Seq::new(0x10000, |i: int| 0u8),
    {
        let r = CPU {
            register_a: 0,
            register_x: 0,
            register_y: 0,
            status: CpuStatus::default(),
            program_counter: 0,
            stack_pointer: STACK_RESET,
            memory: [0u8; 0x10000],
        };
        assert(r.memory@ =~= Seq::new(0x10000, |i: int| 0u8));
        r
    }
}

impl CPU {
    /// Clears the registers and flags, sets `SP` to its reset value, and
    /// loads `PC` from the reset vector.
    pub fn reset(&mut self)
        ensures
            final(self)@ == after_reset(old(self)@),
    {
        self.register_a = 0;
        self.register_x = 0;
        self.register_y = 0;
        self.stack_pointer = STACK_RESET;
        self.status.clear();
        self.program_counter = self.mem_read_u16(RESET_VECTOR);
    }

    pub fn mem_read(&self, addr: u16) -> (r: u8)
        ensures
            r == self@.read8(addr),
    {
        self.memory[addr as usize]
    }

    pub fn mem_write(&mut self, addr: u16, data: u8)
        ensures
            final(self)@ == old(self)@.write8(addr, data),
    {
        self.memory[addr as usize] = data;
    }

    /// Little-endian; the address of the high byte wraps after 0xFFFF.
    pub fn mem_read_u16(&self, pos: u16) -> (r: u16)
        ensures
            r == self@.read16(pos),
    {
        let lo = self.mem_read(pos);
        let hi = self.mem_read(pos.wrapping_add(1));
        (hi as u16) * 0x100 + lo as u16
    }

    /// Little-endian; the address of the high byte wraps after 0xFFFF.
    pub fn mem_write_u16(&mut self, pos: u16, data: u16)
        ensures
            final(self)@ == old(self)@.write16(pos, data),
    {
        self.mem_write(pos, (data % 0x100) as u8);
        self.mem_write(pos.wrapping_add(1), (data / 0x100) as u8);
    }

    pub fn stack_push(&mut self, value: u8)
        ensures
            final(self)@ == old(self)@.push8(value),
    {
        self.mem_write(STACK + self.stack_pointer as u16, value);
        self.stack_pointer = self.stack_pointer.wrapping_sub(1);
    }

    /// Pushes the high byte, then the low byte.
    pub fn stack_push_u16(&mut self, value: u16)
        ensures
            final(self)@ == old(self)@.push16(value),
    {
        self.stack_push((value / 0x100) as u8);
        self.stack_push((value % 0x100) as u8);
    }

    pub fn stack_pop(&mut self) -> (r: u8)
        ensures
            (final(self)@, r) == old(self)@.pop8(),
    {
        self.stack_pointer = self.stack_pointer.wrapping_add(1);
        self.mem_read(STACK + self.stack_pointer as u16)
    }

    /// Pops the low byte, then the high byte.
    pub fn stack_pop_u16(&mut self) -> (r: u16)
        ensures
            (final(self)@, r) == old(self)@.pop16(),
    {
        let lo = self.stack_pop();
        let hi = self.stack_pop();
        (hi as u16) * 0x100 + lo as u16
    }

    /// Copies `program` into memory from `PROGRAM_START` on and points the
    /// reset vector at it.
    pub fn load(&mut self, program: &[u8])
        requires
            program@.len() <= 0x8000,
        ensures
            final(self)@ == after_load(old(self)@, program@),
    {
        let ghost mem0 = self.memory@;
        let mut i: usize = 0;
        while i < program.len()
            invariant
                i <= program@.len() <= 0x8000,
                self.memory@ == Seq::new(
                    0x10000,
                    |j: int|
                        if PROGRAM_START <= j < PROGRAM_START + i {
                            program@[j - PROGRAM_START]
                        } else {
                            mem0[j]
                        },
                ),
                mem0.len() == 0x10000,
                self.register_a == old(self).register_a,
                self.register_x == old(self).register_x,
                self.register_y == old(self).register_y,
                self.status == old(self).status,
                self.program_counter == old(self).program_counter,
                self.stack_pointer == old(self).stack_pointer,
            decreases program@.len() - i,
        {
            let ghost before = self.memory@;
            self.memory[PROGRAM_START as usize + i] = program[i];
            i = i + 1;
            assert(self.memory@ =~= Seq::new(
                0x10000,
                |j: int|
                    if PROGRAM_START <= j < PROGRAM_START + i {
                        program@[j - PROGRAM_START]
                    } else {
                        mem0[j]
                    },
            ));
        }
        self.mem_write_u16(RESET_VECTOR, PROGRAM_START);
        assert(self.memory@ =~= loaded_memory(mem0, program@));
    }

    /// `A ← value`, with Zero and Negative describing it.
    pub fn set_register_a(&mut self, value: u8)
        ensures
            final(self)@ == old(self)@.load_a(value),
    {
        self.register_a = value;
        self.status.update_zero_and_negative_flags(value);
    }

    pub fn set_register_x(&mut self, value: u8)
        ensures
            final(self)@ == old(self)@.load_x(value),
    {
        self.register_x = value;
        self.status.update_zero_and_negative_flags(value);
    }

    pub fn set_register_y(&mut self, value: u8)
        ensures
            final(self)@ == old(self)@.load_y(value),
    {
        self.register_y = value;
        self.status.update_zero_and_negative_flags(value);
    }

    /// The effective address of the operand that starts at `PC`, or `None`
    /// for a mode that addresses no memory.
    pub fn get_operand_address(&self, mode: AddressingMode) -> (r: Option<u16>)
        ensures
            r == self@.operand_address(mode),
    {
        let pc = self.program_counter;
        match mode {
            AddressingMode::Immediate => Some(pc),
            AddressingMode::ZeroPage => Some(self.mem_read(pc) as u16),
            AddressingMode::ZeroPageX => Some(self.mem_read(pc).wrapping_add(self.register_x) as u16),
            AddressingMode::ZeroPageY => Some(self.mem_read(pc).wrapping_add(self.register_y) as u16),
            AddressingMode::Absolute => Some(self.mem_read_u16(pc)),
            AddressingMode::AbsoluteX => Some(
                self.mem_read_u16(pc).wrapping_add(self.register_x as u16),
            ),
            AddressingMode::AbsoluteY => Some(
                self.mem_read_u16(pc).wrapping_add(self.register_y as u16),
            ),
            AddressingMode::IndirectX => {
                let ptr = self.mem_read(pc).wrapping_add(self.register_x);
                Some(self.read_zero_page_pointer(ptr))
            },
            AddressingMode::IndirectY => {
                let base = self.read_zero_page_pointer(self.mem_read(pc));
                Some(base.wrapping_add(self.register_y as u16))
            },
            AddressingMode::Other => None,
        }
    }

    /// A 16-bit pointer in the zero page; its high byte wraps within it.
    fn read_zero_page_pointer(&self, ptr: u8) -> (r: u16)
        ensures
            r == self@.read16_zero_page(ptr),
    {
        let lo = self.mem_read(ptr as u16);
        let hi = self.mem_read(ptr.wrapping_add(1) as u16);
        (hi as u16) * 0x100 + lo as u16
    }
}

} // verus!
