use nes_emu_rs::cpu::CPU;
use nes_emu_rs::gamepad::Gamepad;
use nes_emu_rs::opcode::{lookup, AddressingMode, Instruction, OpCode};
use nes_emu_rs::screen::{colour, Colour};
use nes_emu_rs::status::{CpuStatus, CARRY, NEGATIVE, ZERO};

#[test]
fn status_flags_set_and_clear() {
    let mut s = CpuStatus::default();
    assert_eq!(s.bits(), 0);
    s.insert(CARRY);
    s.set(NEGATIVE, true);
    assert!(s.contains(CARRY) && s.contains(NEGATIVE));
    s.remove(CARRY);
    assert_eq!(s.bits(), NEGATIVE);
    assert_eq!(CpuStatus::from_bits_truncate(0xFF).bits(), 0xDF);
}

#[test]
fn update_zero_and_negative_flags_describes_value() {
    let mut s = CpuStatus::empty();
    s.insert(CARRY);
    s.update_zero_and_negative_flags(0);
    assert_eq!(s.bits(), CARRY | ZERO);
    s.update_zero_and_negative_flags(0x80);
    assert_eq!(s.bits(), CARRY | NEGATIVE);
    s.update_zero_and_negative_flags(0x01);
    assert_eq!(s.bits(), CARRY);
}

#[test]
fn opcode_table_entries() {
    assert_eq!(
        lookup(0xA9),
        Some(OpCode::new(0xA9, Instruction::LDA, 2, 2, AddressingMode::Immediate))
    );
    assert_eq!(lookup(0x6A).map(|o| o.instruction), Some(Instruction::ROR));
    assert_eq!(lookup(0x2A).map(|o| o.instruction), Some(Instruction::ROL));
    assert_eq!(lookup(0xB6).map(|o| o.addressing_mode), Some(AddressingMode::ZeroPageY));
    assert_eq!(lookup(0x00).map(|o| o.len), Some(1));
    assert_eq!(lookup(0x02), None);
    let count = (0u16..256).filter(|b| lookup(*b as u8).is_some()).count();
    assert_eq!(count, 151);
}

#[test]
fn gamepad_writes_key_code() {
    let mut cpu = CPU::default();
    cpu.set_gamepad_button(Gamepad::Up);
    assert_eq!(cpu.mem_read(0xFF), 0x77);
    cpu.set_gamepad_button(Gamepad::Down);
    assert_eq!(cpu.mem_read(0xFF), 0x73);
    cpu.set_gamepad_button(Gamepad::Left);
    assert_eq!(cpu.mem_read(0xFF), 0x61);
    cpu.set_gamepad_button(Gamepad::Right);
    assert_eq!(cpu.mem_read(0xFF), 0x64);
}

#[test]
fn palette_colours() {
    assert_eq!(colour(0), Colour::Black);
    assert_eq!(colour(1), Colour::White);
    assert_eq!(colour(9), Colour::Grey);
    assert_eq!(colour(3), Colour::Red);
    assert_eq!(colour(11), Colour::Green);
    assert_eq!(colour(5), Colour::Blue);
    assert_eq!(colour(13), Colour::Magenta);
    assert_eq!(colour(7), Colour::Yellow);
    assert_eq!(colour(15), Colour::Cyan);
    assert_eq!(colour(200), Colour::Cyan);
}
