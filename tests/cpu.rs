use nes_emu_rs::cpu::CPU;
use nes_emu_rs::status::{BREAK, CARRY, DECIMAL_MODE, NEGATIVE, OVERFLOW, ZERO};

#[test]
fn test_0xa9_lda_immediate_load_data() {
    let mut cpu = CPU::default();
    let _ = cpu.load_and_run(&[0xa9, 0x05, 0x00]);
    assert_eq!(cpu.register_a, 0x05);
    assert!(cpu.status.bits() & ZERO == 0b00);
    assert!(cpu.status.bits() & NEGATIVE == 0);
}

#[test]
fn test_0xa9_lda_zero_flag() {
    let mut cpu = CPU::default();
    let _ = cpu.load_and_run(&[0xa9, 0x00, 0x00]);
    assert!(cpu.status.bits() & ZERO == 0b10);
}

#[test]
fn test_lda_negative_flag() {
    let mut cpu = CPU::default();
    let _ = cpu.load_and_run(&[0xa9, 0xA5, 0x00]);
    assert!(cpu.status.contains(NEGATIVE))
}

#[test]
fn test_5_ops_working_together() {
    let mut cpu = CPU::default();
    let _ = cpu.load_and_run(&[0xa9, 0xc0, 0xaa, 0xe8, 0x00]);

    assert_eq!(cpu.register_x, 0xc1)
}

#[test]
fn test_inx_overflow() {
    let mut cpu = CPU::default();
    let _ = cpu.load_and_run(&[0xa9, 255, 0xaa, 0xe8, 0xe8, 0x00]);

    assert_eq!(cpu.register_x, 1)
}

#[test]
fn test_lda_from_memory() {
    let mut cpu = CPU::default();
    cpu.mem_write(0x10, 0x55);
    let _ = cpu.load_and_run(&[0xa5, 0x10, 0x00]);
    assert_eq!(cpu.register_a, 0x55)
}

#[test]
fn test_asl() {
    let mut cpu = CPU::default();
    let _ = cpu.load_and_run(&[0xa9, 0b11111110, 0x0A, 0x00]);

    // the bits were shifted left
    assert_eq!(cpu.register_a, 0b11111100);

    // bit 7 went to Carry
    assert!(cpu.status.contains(CARRY))
}

#[test]
fn test_rol() {
    let mut cpu = CPU::default();
    // LDA, SEC, then ROL A
    let _ = cpu.load_and_run(&[0xa9, 0b01111110, 0x38, 0x2A, 0x00]);

    // the old Carry came in at bit 0
    assert_eq!(cpu.register_a, 0b11111101);

    // bit 7 (clear) went to Carry
    assert!(!cpu.status.contains(CARRY))
}

#[test]
fn brk_sets_break_and_reports_halt() {
    let mut cpu = CPU::default();
    let r = cpu.load_and_run(&[0xa9, 0x05, 0x00]);
    assert_eq!(r, Ok(true));
    assert!(cpu.status.contains(BREAK));
    assert_eq!(cpu.program_counter, 0x8003);
}

#[test]
fn load_writes_program_and_reset_vector() {
    let mut cpu = CPU::default();
    cpu.load(&[0xa9, 0x07]);
    assert_eq!(cpu.mem_read(0x8000), 0xa9);
    assert_eq!(cpu.mem_read(0x8001), 0x07);
    assert_eq!(cpu.mem_read(0xFFFC), 0x00);
    assert_eq!(cpu.mem_read(0xFFFD), 0x80);
    cpu.reset();
    assert_eq!(cpu.program_counter, 0x8000);
    assert_eq!(cpu.stack_pointer, 0xFD);
}

#[test]
fn read16_is_little_endian_and_wraps() {
    let mut cpu = CPU::default();
    cpu.mem_write(0x1234, 0xCD);
    cpu.mem_write(0x1235, 0xAB);
    assert_eq!(cpu.mem_read_u16(0x1234), 0xABCD);
    cpu.mem_write(0xFFFF, 0x11);
    cpu.mem_write(0x0000, 0x22);
    assert_eq!(cpu.mem_read_u16(0xFFFF), 0x2211);
    cpu.mem_write_u16(0x3000, 0xBEEF);
    assert_eq!(cpu.mem_read(0x3000), 0xEF);
    assert_eq!(cpu.mem_read(0x3001), 0xBE);
}

#[test]
fn push_then_pop_round_trips() {
    let mut cpu = CPU::default();
    let sp = cpu.stack_pointer;
    cpu.stack_push(0x42);
    assert_eq!(cpu.stack_pointer, sp.wrapping_sub(1));
    assert_eq!(cpu.stack_pop(), 0x42);
    assert_eq!(cpu.stack_pointer, sp);
    cpu.stack_push_u16(0x1234);
    assert_eq!(cpu.stack_pop_u16(), 0x1234);
}

#[test]
fn stack_pops_in_reverse_order() {
    let mut cpu = CPU::default();
    // LDA #1, PHA, LDA #2, PHA, LDA #3, PHA, PLA, TAX, PLA, TAY, PLA, BRK
    let r = cpu.load_and_run(&[
        0xA9, 1, 0x48, 0xA9, 2, 0x48, 0xA9, 3, 0x48, 0x68, 0xAA, 0x68, 0xA8, 0x68, 0x00,
    ]);
    assert_eq!(r, Ok(true));
    assert_eq!(cpu.register_x, 3);
    assert_eq!(cpu.register_y, 2);
    assert_eq!(cpu.register_a, 1);
    assert_eq!(cpu.stack_pointer, 0xFD);
}

#[test]
fn stack_pointer_wraps() {
    let mut cpu = CPU::default();
    cpu.stack_pointer = 0x00;
    cpu.stack_push(0x99);
    assert_eq!(cpu.stack_pointer, 0xFF);
    assert_eq!(cpu.mem_read(0x0100), 0x99);
    assert_eq!(cpu.stack_pop(), 0x99);
    assert_eq!(cpu.stack_pointer, 0x00);
}

#[test]
fn jsr_then_rts_returns_after_the_call() {
    let mut cpu = CPU::default();
    // 8000: JSR $8006; 8003: LDX #$01; 8005: BRK; 8006: RTS
    let r = cpu.load_and_run(&[0x20, 0x06, 0x80, 0xA2, 0x01, 0x00, 0x60]);
    assert_eq!(r, Ok(true));
    assert_eq!(cpu.register_x, 0x01);
    assert_eq!(cpu.stack_pointer, 0xFD);
    assert_eq!(cpu.program_counter, 0x8006);
}

#[test]
fn jsr_pushes_return_address_high_byte_first() {
    let mut cpu = CPU::default();
    let r = cpu.load_and_run(&[0x20, 0x03, 0x80, 0x00]);
    assert_eq!(r, Ok(true));
    assert_eq!(cpu.stack_pointer, 0xFB);
    assert_eq!(cpu.mem_read(0x01FD), 0x80);
    assert_eq!(cpu.mem_read(0x01FC), 0x02);
}

#[test]
fn php_plp_round_trip_status() {
    let mut cpu = CPU::default();
    // SEC, SED, PHP, CLC, CLD, PLP, BRK
    let r = cpu.load_and_run(&[0x38, 0xF8, 0x08, 0x18, 0xD8, 0x28, 0x00]);
    assert_eq!(r, Ok(true));
    assert!(cpu.status.contains(CARRY));
    assert!(cpu.status.contains(DECIMAL_MODE));
    // PHP pushed bits 4 and 5 set
    assert_eq!(cpu.mem_read(0x01FD), CARRY | DECIMAL_MODE | 0x30);
}

#[test]
fn plp_ignores_bits_four_and_five() {
    let mut cpu = CPU::default();
    // LDA #$FF, PHA, PLP, BRK
    let _ = cpu.load(&[0xA9, 0xFF, 0x48, 0x28, 0x00]);
    cpu.reset();
    for _ in 0..3 {
        assert_eq!(cpu.step(), Ok(false));
    }
    assert_eq!(cpu.status.bits(), 0xCF);
}

#[test]
fn adc_then_sbc_round_trips() {
    let mut cpu = CPU::default();
    // LDA #$42, SEC, ADC #0, SBC #0, BRK
    let _ = cpu.load_and_run(&[0xA9, 0x42, 0x38, 0x69, 0x00, 0xE9, 0x00, 0x00]);
    assert_eq!(cpu.register_a, 0x42);
    assert!(cpu.status.contains(CARRY));
}

#[test]
fn adc_then_sbc_from_ff_does_not_round_trip() {
    let mut cpu = CPU::default();
    let _ = cpu.load_and_run(&[0xA9, 0xFF, 0x38, 0x69, 0x00, 0xE9, 0x00, 0x00]);
    assert_eq!(cpu.register_a, 0x00);
    assert!(cpu.status.contains(CARRY));
}

#[test]
fn adc_sets_overflow_and_carry() {
    let mut cpu = CPU::default();
    // LDA #$50, ADC #$50
    let _ = cpu.load_and_run(&[0xA9, 0x50, 0x69, 0x50, 0x00]);
    assert_eq!(cpu.register_a, 0xA0);
    assert!(cpu.status.contains(OVERFLOW));
    assert!(cpu.status.contains(NEGATIVE));
    assert!(!cpu.status.contains(CARRY));
    // LDA #$FF, ADC #$02
    let mut cpu = CPU::default();
    let _ = cpu.load_and_run(&[0xA9, 0xFF, 0x69, 0x02, 0x00]);
    assert_eq!(cpu.register_a, 0x01);
    assert!(cpu.status.contains(CARRY));
    assert!(!cpu.status.contains(OVERFLOW));
}

#[test]
fn sbc_subtracts_with_borrow() {
    let mut cpu = CPU::default();
    // LDA #$10, SEC, SBC #$01
    let _ = cpu.load_and_run(&[0xA9, 0x10, 0x38, 0xE9, 0x01, 0x00]);
    assert_eq!(cpu.register_a, 0x0F);
    assert!(cpu.status.contains(CARRY));
    // LDA #$00, CLC, SBC #$00: 0 - 0 - 1
    let mut cpu = CPU::default();
    let _ = cpu.load_and_run(&[0xA9, 0x00, 0x18, 0xE9, 0x00, 0x00]);
    assert_eq!(cpu.register_a, 0xFF);
    assert!(!cpu.status.contains(CARRY));
}

#[test]
fn iny_increments() {
    let mut cpu = CPU::default();
    let _ = cpu.load_and_run(&[0xA0, 0x05, 0xC8, 0x00]);
    assert_eq!(cpu.register_y, 0x06);
}

#[test]
fn dex_dey_wrap() {
    let mut cpu = CPU::default();
    let _ = cpu.load_and_run(&[0xCA, 0x88, 0x00]);
    assert_eq!(cpu.register_x, 0xFF);
    assert_eq!(cpu.register_y, 0xFF);
    assert!(cpu.status.contains(NEGATIVE));
}

#[test]
fn cmp_takes_negative_from_the_difference() {
    let mut cpu = CPU::default();
    // LDA #$01, CMP #$02
    let _ = cpu.load_and_run(&[0xA9, 0x01, 0xC9, 0x02, 0x00]);
    assert!(cpu.status.contains(NEGATIVE));
    assert!(!cpu.status.contains(CARRY));
    assert!(!cpu.status.contains(ZERO));
    // LDA #$90, CMP #$10: difference 0x80
    let mut cpu = CPU::default();
    let _ = cpu.load_and_run(&[0xA9, 0x90, 0xC9, 0x10, 0x00]);
    assert!(cpu.status.contains(NEGATIVE));
    assert!(cpu.status.contains(CARRY));
    // LDX #$05, CPX #$05
    let mut cpu = CPU::default();
    let _ = cpu.load_and_run(&[0xA2, 0x05, 0xE0, 0x05, 0x00]);
    assert!(cpu.status.contains(ZERO));
    assert!(cpu.status.contains(CARRY));
    assert!(!cpu.status.contains(NEGATIVE));
}

#[test]
fn bit_reads_flags_from_operand() {
    let mut cpu = CPU::default();
    cpu.mem_write(0x10, 0xC0);
    // LDA #$01, BIT $10
    let _ = cpu.load_and_run(&[0xA9, 0x01, 0x24, 0x10, 0x00]);
    assert!(cpu.status.contains(ZERO));
    assert!(cpu.status.contains(NEGATIVE));
    assert!(cpu.status.contains(OVERFLOW));
    assert_eq!(cpu.register_a, 0x01);
}

#[test]
fn logic_operations() {
    let mut cpu = CPU::default();
    // LDA #$F0, AND #$3C, ORA #$01, EOR #$FF
    let _ = cpu.load_and_run(&[0xA9, 0xF0, 0x29, 0x3C, 0x09, 0x01, 0x49, 0xFF, 0x00]);
    assert_eq!(cpu.register_a, 0xCE);
    assert!(cpu.status.contains(NEGATIVE));
}

#[test]
fn lsr_and_ror() {
    let mut cpu = CPU::default();
    // LDA #$03, LSR A
    let _ = cpu.load_and_run(&[0xA9, 0x03, 0x4A, 0x00]);
    assert_eq!(cpu.register_a, 0x01);
    assert!(cpu.status.contains(CARRY));
    // LDA #$02, SEC, ROR A
    let mut cpu = CPU::default();
    let _ = cpu.load_and_run(&[0xA9, 0x02, 0x38, 0x6A, 0x00]);
    assert_eq!(cpu.register_a, 0x81);
    assert!(!cpu.status.contains(CARRY));
    assert!(cpu.status.contains(NEGATIVE));
}

#[test]
fn shifts_and_steps_on_memory() {
    let mut cpu = CPU::default();
    cpu.mem_write(0x20, 0x81);
    cpu.mem_write(0x21, 0xFF);
    // ASL $20, INC $21, DEC $22
    let _ = cpu.load_and_run(&[0x06, 0x20, 0xE6, 0x21, 0xC6, 0x22, 0x00]);
    assert_eq!(cpu.mem_read(0x20), 0x02);
    assert_eq!(cpu.mem_read(0x21), 0x00);
    assert_eq!(cpu.mem_read(0x22), 0xFF);
    assert!(cpu.status.contains(CARRY));
    assert!(cpu.status.contains(NEGATIVE));
}

#[test]
fn stores_and_indexed_modes() {
    let mut cpu = CPU::default();
    // LDA #$AB, LDX #$02, LDY #$03, STA $10,X, STA $0300,Y, STX $20, STY $21
    let _ = cpu.load_and_run(&[
        0xA9, 0xAB, 0xA2, 0x02, 0xA0, 0x03, 0x95, 0x10, 0x99, 0x00, 0x03, 0x86, 0x20, 0x84, 0x21,
        0x00,
    ]);
    assert_eq!(cpu.mem_read(0x12), 0xAB);
    assert_eq!(cpu.mem_read(0x0303), 0xAB);
    assert_eq!(cpu.mem_read(0x20), 0x02);
    assert_eq!(cpu.mem_read(0x21), 0x03);
}

#[test]
fn zero_page_x_wraps() {
    let mut cpu = CPU::default();
    cpu.mem_write(0x0F, 0x77);
    // LDX #$10, LDA $FF,X
    let _ = cpu.load_and_run(&[0xA2, 0x10, 0xB5, 0xFF, 0x00]);
    assert_eq!(cpu.register_a, 0x77);
}

#[test]
fn indirect_modes_are_little_endian() {
    let mut cpu = CPU::default();
    cpu.mem_write(0x24, 0x34);
    cpu.mem_write(0x25, 0x12);
    cpu.mem_write(0x1234, 0x99);
    cpu.mem_write(0x1236, 0x66);
    // LDX #$04, LDA ($20,X)
    let _ = cpu.load_and_run(&[0xA2, 0x04, 0xA1, 0x20, 0x00]);
    assert_eq!(cpu.register_a, 0x99);
    // LDY #$02, LDA ($24),Y
    let _ = cpu.load_and_run(&[0xA0, 0x02, 0xB1, 0x24, 0x00]);
    assert_eq!(cpu.register_a, 0x66);
}

#[test]
fn indirect_pointer_wraps_in_zero_page() {
    let mut cpu = CPU::default();
    cpu.mem_write(0xFF, 0x00);
    cpu.mem_write(0x00, 0x40);
    cpu.mem_write(0x4000, 0x5A);
    // LDY #$00, LDA ($FF),Y
    let _ = cpu.load_and_run(&[0xA0, 0x00, 0xB1, 0xFF, 0x00]);
    assert_eq!(cpu.register_a, 0x5A);
}

#[test]
fn jmp_absolute_and_indirect() {
    let mut cpu = CPU::default();
    // JMP $8005; (skipped LDA #$01); 8005: LDX #$07; BRK
    let _ = cpu.load_and_run(&[0x4C, 0x05, 0x80, 0xA9, 0x01, 0xA2, 0x07, 0x00]);
    assert_eq!(cpu.register_a, 0x00);
    assert_eq!(cpu.register_x, 0x07);
}

#[test]
fn jmp_indirect_page_wrap() {
    let mut cpu = CPU::default();
    cpu.mem_write(0x30FF, 0x05);
    cpu.mem_write(0x3000, 0x80);
    cpu.mem_write(0x3100, 0x90);
    // JMP ($30FF) goes to $8005, not $9005
    let _ = cpu.load_and_run(&[0x6C, 0xFF, 0x30, 0x00, 0x00, 0xA2, 0x09, 0x00]);
    assert_eq!(cpu.register_x, 0x09);
}

#[test]
fn branch_loop_counts_down() {
    let mut cpu = CPU::default();
    // LDX #$03; loop: DEX; BNE loop; BRK
    let _ = cpu.load_and_run(&[0xA2, 0x03, 0xCA, 0xD0, 0xFD, 0x00]);
    assert_eq!(cpu.register_x, 0x00);
    assert!(cpu.status.contains(ZERO));
    assert_eq!(cpu.program_counter, 0x8006);
}

#[test]
fn branch_not_taken_falls_through() {
    let mut cpu = CPU::default();
    // CLC; BCS +2; LDA #$01; BRK
    let _ = cpu.load_and_run(&[0x18, 0xB0, 0x02, 0xA9, 0x01, 0x00]);
    assert_eq!(cpu.register_a, 0x01);
}

#[test]
fn transfers_and_stack_pointer() {
    let mut cpu = CPU::default();
    // TSX; LDX #$80; TXS; LDY #$09; TYA; BRK
    let _ = cpu.load(&[0xBA, 0xA2, 0x80, 0x9A, 0xA0, 0x09, 0x98, 0x00]);
    cpu.reset();
    assert_eq!(cpu.step(), Ok(false));
    assert_eq!(cpu.register_x, 0xFD);
    assert!(cpu.status.contains(NEGATIVE));
    let _ = cpu.run();
    assert_eq!(cpu.stack_pointer, 0x80);
    assert_eq!(cpu.register_a, 0x09);
}

#[test]
fn flag_instructions() {
    let mut cpu = CPU::default();
    // SEI, SED, SEC, CLI, BRK
    let _ = cpu.load_and_run(&[0x78, 0xF8, 0x38, 0x58, 0x00]);
    assert_eq!(cpu.status.bits(), CARRY | DECIMAL_MODE | BREAK);
    // LDA #$50, ADC #$50 (sets V), CLV
    let mut cpu = CPU::default();
    let _ = cpu.load_and_run(&[0xA9, 0x50, 0x69, 0x50, 0xB8, 0x00]);
    assert!(!cpu.status.contains(OVERFLOW));
}

#[test]
fn unknown_opcode_is_a_decode_failure() {
    let mut cpu = CPU::default();
    let r = cpu.load_and_run(&[0xEA, 0x02]);
    assert_eq!(
        r,
        Err(nes_emu_rs::model::CpuError::DecodeFailure { opcode: 0x02, pc: 0x8001 })
    );
    assert_eq!(cpu.program_counter, 0x8001);
}

#[test]
fn run_for_stops_when_steps_run_out() {
    let mut cpu = CPU::default();
    // JMP $8000 forever
    cpu.load(&[0x4C, 0x00, 0x80]);
    cpu.reset();
    assert_eq!(cpu.run_for(10), Ok(false));
    assert_eq!(cpu.program_counter, 0x8000);
}

#[test]
fn pc_wraps_at_end_of_memory() {
    let mut cpu = CPU::default();
    cpu.mem_write(0xFFFF, 0xE8);
    cpu.mem_write(0x0000, 0x00);
    cpu.program_counter = 0xFFFF;
    assert_eq!(cpu.step(), Ok(false));
    assert_eq!(cpu.program_counter, 0x0000);
    assert_eq!(cpu.step(), Ok(true));
}
