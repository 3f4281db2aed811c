//! Laws of the machine, stated over the model and proved.
use vstd::prelude::*;

use crate::model::{
    add_with_carry, apply_read, is_control, next, wrap16, wrap8, word, CpuState,
    STACK,
};
use crate::opcode::{opcode_entry, AddressingMode, Instruction};
use crate::status::{flag_set, with_flag, with_zn, lemma_with_zn, CARRY, NEGATIVE, OVERFLOW, ZERO};

verus! {

/// The state after the instruction at `PC`, or the state itself when that
/// instruction fails.
pub open spec fn after_step(s: CpuState) -> CpuState {
    match next(s) {
        Ok((s1, _)) => s1,
        Err(_) => s,
    }
}

/// A 16-bit read is the byte at `a` joined with the byte after it as the
/// high half; after 0xFFFF the high byte comes from address 0.
pub proof fn lemma_read16_little_endian(s: CpuState, a: u16)
    requires
        s.wf(),
    ensures
        a < 0xFFFF ==> s.read16(a) == (s.read8(a) as u16) | ((s.read8((a + 1) as u16) as u16) << 8),
        a == 0xFFFF ==> s.read16(a) == (s.read8(a) as u16) | ((s.read8(0) as u16) << 8),
{
    let lo = s.read8(a);
    let hi = s.read8(wrap16(a + 1));
    assert(word(lo, hi) == (lo as u16) | ((hi as u16) << 8)) by (bit_vector);
}

/// Pushing a byte and popping it back yields that byte and the same `SP`.
pub proof fn lemma_push_pop(s: CpuState, v: u8)
    requires
        s.wf(),
    ensures
        s.push8(v).pop8().1 == v,
        s.push8(v).pop8().0.sp == s.sp,
{
}

/// The state after pushing `bs` in order.
pub open spec fn push_all(s: CpuState, bs: Seq<u8>) -> CpuState
    decreases bs.len(),
{
    if bs.len() == 0 {
        s
    } else {
        push_all(s, bs.drop_last()).push8(bs.last())
    }
}

/// The bytes of `k` pops, in the order they come off the stack.
pub open spec fn pop_all(s: CpuState, k: nat) -> Seq<u8>
    decreases k,
{
    if k == 0 {
        Seq::empty()
    } else {
        seq![s.pop8().1] + pop_all(s.pop8().0, (k - 1) as nat)
    }
}

/// The stack slot `j` places below `SP = sp`.
pub open spec fn stack_slot(sp: u8, j: int) -> u16 {
    (STACK + wrap8(sp - j)) as u16
}

/// Wrapping a sum once at the end equals wrapping its first term on the way.
pub proof fn lemma_wrap8_add(x: int, y: int)
    ensures
        wrap8(wrap8(x) + y) == wrap8(x + y),
{
    vstd::arithmetic::div_mod::lemma_add_mod_noop(x, y, 0x100);
    vstd::arithmetic::div_mod::lemma_add_mod_noop_right(x % 0x100, y, 0x100);
}

proof fn lemma_slots_distinct(sp: u8, i: int, j: int)
    requires
        0 <= i < j < 0x100,
    ensures
        stack_slot(sp, i) != stack_slot(sp, j),
{
}

proof fn lemma_push_all(s: CpuState, bs: Seq<u8>)
    requires
        s.wf(),
        bs.len() <= 0x100,
    ensures
        push_all(s, bs).wf(),
        push_all(s, bs).sp == wrap8(s.sp - bs.len()),
        forall|j: int|
            0 <= j < bs.len() ==> #[trigger] push_all(s, bs).read8(stack_slot(s.sp, j)) == bs[j],
    decreases bs.len(),
{
    if bs.len() > 0 {
        let prefix = bs.drop_last();
        lemma_push_all(s, prefix);
        let t = push_all(s, prefix);
        let n = bs.len() - 1;
        assert(t.stack_top() == stack_slot(s.sp, n));
        assert forall|j: int| 0 <= j < bs.len() implies #[trigger] push_all(s, bs).read8(
            stack_slot(s.sp, j),
        ) == bs[j] by {
            if j < n {
                lemma_slots_distinct(s.sp, j, n);
                assert(t.read8(stack_slot(s.sp, j)) == prefix[j]);
            }
        }
    }
}

proof fn lemma_pop_all(t: CpuState, base: u8, bs: Seq<u8>)
    requires
        t.wf(),
        bs.len() <= 0x100,
        t.sp == wrap8(base - bs.len()),
        forall|j: int| 0 <= j < bs.len() ==> #[trigger] t.read8(stack_slot(base, j)) == bs[j],
    ensures
        pop_all(t, bs.len()).len() == bs.len(),
        forall|i: int|
            0 <= i < bs.len() ==> #[trigger] pop_all(t, bs.len())[i] == bs[bs.len() - 1 - i],
    decreases bs.len(),
{
    if bs.len() > 0 {
        let n = bs.len() - 1;
        let (t1, v) = t.pop8();
        lemma_wrap8_add(base - bs.len(), 1);
        assert(t1.stack_top() == stack_slot(base, n));
        assert(t.read8(stack_slot(base, n)) == bs[n]);
        assert(v == bs[n]);
        let prefix = bs.drop_last();
        assert forall|j: int| 0 <= j < prefix.len() implies #[trigger] t1.read8(
            stack_slot(base, j),
        ) == prefix[j] by {
            assert(t.read8(stack_slot(base, j)) == bs[j]);
        }
        lemma_pop_all(t1, base, prefix);
        let rest = pop_all(t1, prefix.len());
        assert(pop_all(t, bs.len()) == seq![v] + rest);
        assert forall|i: int| 0 <= i < bs.len() implies #[trigger] pop_all(t, bs.len())[i]
            == bs[bs.len() - 1 - i] by {
            if i > 0 {
                assert(rest[i - 1] == prefix[prefix.len() - 1 - (i - 1)]);
            }
        }
    }
}

/// Popping as many bytes as were pushed returns them in reverse order,
/// for up to 256 bytes (more would wrap round the stack page and overwrite
/// the first).
pub proof fn lemma_push_pop_sequence(s: CpuState, bs: Seq<u8>)
    requires
        s.wf(),
        bs.len() <= 0x100,
    ensures
        pop_all(push_all(s, bs), bs.len()) == bs.reverse(),
{
    lemma_push_all(s, bs);
    lemma_pop_all(push_all(s, bs), s.sp, bs);
    assert(pop_all(push_all(s, bs), bs.len()) =~= bs.reverse());
}

proof fn lemma_adc_carry(p: u8, c: bool, o: bool, r: u8)
    ensures
        (with_zn(with_flag(with_flag(p, CARRY, c), OVERFLOW, o), r) & CARRY != 0) == c,
{
    assert((with_zn(with_flag(with_flag(p, 1, c), 64, o), r) & 1 != 0) == c) by (bit_vector);
}

/// With Carry set, `ADC #0` then `SBC #0` gives back `A`, and leaves Carry
/// set; this holds for every `A` but 0xFF, which `ADC` takes to 0 with a
/// carry.
pub proof fn lemma_adc_sbc_round_trip(s: CpuState, v: u8)
    requires
        v != 0xFF,
    ensures
        ({
            let s0 = s.with_a(v).with_p(with_flag(s.p, CARRY, true));
            let s2 = apply_read(apply_read(s0, Instruction::ADC, 0), Instruction::SBC, 0);
            s2.a == v && s2.p & CARRY != 0
        }),
{
    let s0 = s.with_a(v).with_p(with_flag(s.p, CARRY, true));
    let p = s.p;
    assert((p | 1) & 1 != 0) by (bit_vector);
    assert(s0.carry() == 1);
    let s1 = add_with_carry(s0, 0);
    let r1 = wrap8(v + 1);
    assert(r1 == v + 1);
    lemma_adc_carry(s0.p, false, (v ^ r1) & (0u8 ^ r1) & 0x80 != 0, r1);
    assert(s1.carry() == 0);
    assert(0u8 ^ 0xFF == 0xFF) by (bit_vector);
    let s2 = add_with_carry(s1, 0xFF);
    let r2 = wrap8(s1.a + 0xFF);
    assert(r2 == v);
    lemma_adc_carry(s1.p, true, (s1.a ^ r2) & (0xFFu8 ^ r2) & 0x80 != 0, r2);
}

/// `JSR` to a routine that starts with `RTS` comes back to the instruction
/// after the three bytes of the `JSR`, with `SP` as before.
pub proof fn lemma_call_return(s: CpuState)
    requires
        s.wf(),
        s.read8(s.pc) == 0x20,
        after_step(s).read8(after_step(s).pc) == 0x60,
    ensures
        next(s) == Ok::<(CpuState, bool), crate::model::CpuError>(
            (after_step(s), false),
        ),
        after_step(s).pc == s.read16(wrap16(s.pc + 1)),
        next(after_step(s)) == Ok::<(CpuState, bool), crate::model::CpuError>(
            (after_step(after_step(s)), false),
        ),
        after_step(after_step(s)).pc == wrap16(s.pc + 3),
        after_step(after_step(s)).sp == s.sp,
{
    reveal(opcode_entry);
    let pc1 = wrap16(s.pc + 1);
    let ret = wrap16(pc1 + 1);
    let t = s.with_pc(pc1);
    let hi = (ret / 0x100) as u8;
    let lo = (ret % 0x100) as u8;
    let t1 = t.push8(hi);
    let t2 = t1.push8(lo);
    lemma_wrap8_add(s.sp - 1, -1);
    lemma_wrap8_add(s.sp - 2, 1);
    lemma_wrap8_add(s.sp - 1, 1);
    assert(t1.stack_top() != t2.stack_top());
    let c = after_step(s);
    assert(c.mem == t2.mem);
    assert(c.sp == wrap8(s.sp - 2));
    let (u1, l) = c.pop8();
    assert(l == lo);
    let (u2, h) = u1.pop8();
    assert(h == hi);
    assert(word(l, h) == ret);
    vstd::arithmetic::div_mod::lemma_add_mod_noop(s.pc + 1, 2, 0x10000);
    vstd::arithmetic::div_mod::lemma_add_mod_noop_right(pc1 + 0, 1, 0x10000);
}

/// `PHP` then `PLP` leaves `P` as it was, and `SP` too.
pub proof fn lemma_php_plp_round_trip(s: CpuState)
    requires
        s.wf(),
        s.read8(s.pc) == 0x08,
        after_step(s).read8(after_step(s).pc) == 0x28,
    ensures
        after_step(after_step(s)).p == s.p,
        after_step(after_step(s)).sp == s.sp,
{
    reveal(opcode_entry);
    let p = s.p;
    assert(((p | 0x30) & !0x30u8) | (p & 0x30) == p) by (bit_vector);
    lemma_wrap8_add(s.sp - 1, 1);
}

/// An instruction that neither jumps nor halts leaves `PC` on the byte
/// after it: its address plus its length, modulo 65536.
pub proof fn lemma_pc_advance(s: CpuState)
    requires
        s.wf(),
        opcode_entry(s.read8(s.pc)) matches Some(op) && !is_control(op.instruction)
            && op.instruction != Instruction::BRK,
        next(s) is Ok,
    ensures
        after_step(s).pc == wrap16(s.pc + opcode_entry(s.read8(s.pc))->Some_0.len),
{
    let op = opcode_entry(s.read8(s.pc))->Some_0;
    crate::opcode::lemma_entry_well_formed(s.read8(s.pc));
    vstd::arithmetic::div_mod::lemma_add_mod_noop(s.pc + 1, op.len - 1, 0x10000);
    vstd::arithmetic::div_mod::lemma_add_mod_noop_right((s.pc + 1) % 0x10000, op.len - 1, 0x10000);
}

/// The byte that an instruction of the Zero/Negative family leaves its
/// flags describing: the register it loads, or the byte it rewrites in
/// memory; `None` for the other instructions.
pub open spec fn flag_result(s: CpuState, after: CpuState) -> Option<u8> {
    let op = opcode_entry(s.read8(s.pc))->Some_0;
    let accumulator = op.addressing_mode == AddressingMode::Other;
    match op.instruction {
        Instruction::LDA | Instruction::ADC | Instruction::SBC | Instruction::AND
        | Instruction::ORA | Instruction::EOR | Instruction::TXA | Instruction::TYA
        | Instruction::PLA => Some(after.a),
        Instruction::LDX | Instruction::TAX | Instruction::TSX | Instruction::INX
        | Instruction::DEX => Some(after.x),
        Instruction::LDY | Instruction::TAY | Instruction::INY | Instruction::DEY => Some(after.y),
        Instruction::ASL | Instruction::LSR | Instruction::ROL | Instruction::ROR | Instruction::INC
        | Instruction::DEC => if accumulator && op.instruction != Instruction::INC
            && op.instruction != Instruction::DEC {
            Some(after.a)
        } else {
            match s.with_pc(wrap16(s.pc + 1)).operand_address(op.addressing_mode) {
                Some(addr) => Some(after.read8(addr)),
                None => None,
            }
        },
        _ => None,
    }
}

/// After any instruction of the Zero/Negative family, Zero says whether
/// its result is 0 and Negative is bit 7 of that result.
pub proof fn lemma_zero_negative(s: CpuState)
    requires
        s.wf(),
        next(s) is Ok,
    ensures
        flag_result(s, after_step(s)) matches Some(v) ==> flag_set(after_step(s).p, ZERO) == (v
            == 0) && flag_set(after_step(s).p, NEGATIVE) == (v >= 0x80),
{
    assert forall|q: u8, v: u8| #[trigger] with_zn(q, v) == with_zn(q, v) implies flag_set(
        with_zn(q, v),
        ZERO,
    ) == (v == 0) && flag_set(with_zn(q, v), NEGATIVE) == (v >= 0x80) by {
        lemma_with_zn(q, v);
    }
}

} // verus!
