use lr35902::bus::Bus;
use lr35902::cpu::{CpuError, InterruptSource, CPU};
use lr35902::timer::Timer;

fn machine(program: &[u8]) -> (CPU, Bus) {
    let mut bus = Bus::new(Timer::new());
    let mut addr: u16 = 0;
    for &b in program {
        bus.write_byte(addr, b);
        addr += 1;
    }
    let mut cpu = CPU::new();
    cpu.reset();
    (cpu, bus)
}

fn run(cpu: &mut CPU, bus: &mut Bus, steps: usize) {
    for _ in 0..steps {
        cpu.next_instruction(bus).expect("instruction failed");
    }
}

#[test]
fn nop_advances_pc_and_reports_cycles() {
    let (mut cpu, mut bus) = machine(&[0x00]);
    assert_eq!(cpu.next_instruction(&mut bus), Ok(()));
    assert_eq!(cpu.pc, 1);
    assert_eq!(cpu.cycle, 4);
}

#[test]
fn ld_bc_d16_low_byte_first() {
    let (mut cpu, mut bus) = machine(&[0x01, 0x34, 0x12]);
    assert_eq!(cpu.next_instruction(&mut bus), Ok(()));
    assert_eq!(cpu.b, 0x12);
    assert_eq!(cpu.c, 0x34);
    assert_eq!(cpu.pc, 3);
    assert_eq!(cpu.cycle, 12);
}

#[test]
fn inc_then_dec_restores_across_wraparound() {
    // LD B,0xFF; INC B; DEC B
    let (mut cpu, mut bus) = machine(&[0x06, 0xFF, 0x04, 0x05]);
    run(&mut cpu, &mut bus, 2);
    assert_eq!(cpu.b, 0x00);
    assert!(cpu.flag.z_zero);
    assert!(!cpu.flag.n_substract);
    run(&mut cpu, &mut bus, 1);
    assert_eq!(cpu.b, 0xFF);
    assert!(!cpu.flag.z_zero);
    assert!(cpu.flag.n_substract);
}

#[test]
fn dec_then_inc_restores_across_wraparound() {
    // LD E,0x00; DEC E; INC E
    let (mut cpu, mut bus) = machine(&[0x1E, 0x00, 0x1D, 0x1C]);
    run(&mut cpu, &mut bus, 2);
    assert_eq!(cpu.e, 0xFF);
    run(&mut cpu, &mut bus, 1);
    assert_eq!(cpu.e, 0x00);
    assert!(cpu.flag.z_zero);
}

#[test]
fn inc_half_carry_at_low_nibble_boundary() {
    // LD L,0x0F; INC L
    let (mut cpu, mut bus) = machine(&[0x2E, 0x0F, 0x2C]);
    run(&mut cpu, &mut bus, 2);
    assert_eq!(cpu.l, 0x10);
    assert!(cpu.flag.h_half_carry);
    // LD L,0x10; DEC L borrows from bit 4
    let (mut cpu2, mut bus2) = machine(&[0x2E, 0x10, 0x2D]);
    run(&mut cpu2, &mut bus2, 2);
    assert_eq!(cpu2.l, 0x0F);
    assert!(cpu2.flag.h_half_carry);
}

#[test]
fn self_xor_yields_zero_and_sets_zero_flag() {
    // LD A,0x55; XOR A
    let (mut cpu, mut bus) = machine(&[0x3E, 0x55, 0xAF]);
    run(&mut cpu, &mut bus, 2);
    assert_eq!(cpu.acc, 0);
    assert!(cpu.flag.z_zero);
}

#[test]
fn self_xor_on_every_register() {
    // LD r,0x42 then XOR r, for each general-purpose register
    let cases: [(u8, u8); 6] = [
        (0x06, 0xA8),
        (0x0E, 0xA9),
        (0x16, 0xAA),
        (0x1E, 0xAB),
        (0x26, 0xAC),
        (0x2E, 0xAD),
    ];
    for (ld, xor) in cases {
        let (mut cpu, mut bus) = machine(&[ld, 0x42, xor]);
        run(&mut cpu, &mut bus, 2);
        assert!(cpu.flag.z_zero);
        assert_eq!([cpu.b, cpu.c, cpu.d, cpu.e, cpu.h, cpu.l].iter().map(|&v| v as u32).sum::<u32>(), 0);
    }
}

#[test]
fn push_pop_restores_pair_and_stack_pointer() {
    // LD SP,0xFFFE; LD BC,0x1122; PUSH BC; LD BC,0x0000; POP BC
    let (mut cpu, mut bus) = machine(&[
        0x31, 0xFE, 0xFF, 0x01, 0x22, 0x11, 0xC5, 0x01, 0x00, 0x00, 0xC1,
    ]);
    run(&mut cpu, &mut bus, 3);
    assert_eq!(cpu.sp, 0xFFFC);
    run(&mut cpu, &mut bus, 2);
    assert_eq!(cpu.b, 0x11);
    assert_eq!(cpu.c, 0x22);
    assert_eq!(cpu.sp, 0xFFFE);
}

#[test]
fn push_writes_high_byte_first() {
    let (mut cpu, mut bus) = machine(&[0x31, 0xFE, 0xFF, 0x01, 0x22, 0x11, 0xC5]);
    run(&mut cpu, &mut bus, 3);
    assert_eq!(bus.read_byte(0xFFFE), 0x11);
    assert_eq!(bus.read_byte(0xFFFD), 0x22);
}

#[test]
fn call_then_ret_resumes_after_the_call() {
    // LD SP,0xFFFE; CALL 0x2000 ... with RET at 0x2000
    let (mut cpu, mut bus) = machine(&[0x31, 0xFE, 0xFF, 0xCD, 0x00, 0x20]);
    bus.write_byte(0x2000, 0xC9);
    run(&mut cpu, &mut bus, 2);
    assert_eq!(cpu.pc, 0x2000);
    // the pushed return address is the byte after the 3-byte call
    assert_eq!(bus.read_byte(0xFFFE), 0x00);
    assert_eq!(bus.read_byte(0xFFFD), 0x06);
    run(&mut cpu, &mut bus, 1);
    assert_eq!(cpu.pc, 0x0006);
    assert_eq!(cpu.sp, 0xFFFE);
}

#[test]
fn conditional_call_not_taken_still_consumes_operands() {
    // CALL Z,0x2000 with the zero flag clear
    let (mut cpu, mut bus) = machine(&[0x31, 0xFE, 0xFF, 0xCC, 0x00, 0x20]);
    run(&mut cpu, &mut bus, 2);
    assert_eq!(cpu.pc, 6);
    assert_eq!(cpu.sp, 0xFFFE);
    assert_eq!(cpu.cycle, 12 + 12);
}

#[test]
fn conditional_call_taken_costs_extra_cycles() {
    // XOR A sets Z; CALL Z,0x2000 is taken
    let (mut cpu, mut bus) = machine(&[0x31, 0xFE, 0xFF, 0xAF, 0xCC, 0x00, 0x20]);
    run(&mut cpu, &mut bus, 3);
    assert_eq!(cpu.pc, 0x2000);
    assert_eq!(cpu.cycle, 12 + 4 + 24);
}

#[test]
fn jr_taken_adds_displacement() {
    let (mut cpu, mut bus) = machine(&[0x20, 0x05]);
    run(&mut cpu, &mut bus, 1);
    assert_eq!(cpu.pc, 2 + 5);
    assert_eq!(cpu.cycle, 12);
}

#[test]
fn jr_not_taken_still_consumes_displacement() {
    // XOR A sets Z, so JR NZ falls through
    let (mut cpu, mut bus) = machine(&[0xAF, 0x20, 0x05]);
    run(&mut cpu, &mut bus, 2);
    assert_eq!(cpu.pc, 3);
    assert_eq!(cpu.cycle, 4 + 8);
}

#[test]
fn jr_negative_displacement() {
    let (mut cpu, mut bus) = machine(&[0x00, 0x00, 0x18, 0xFC]);
    run(&mut cpu, &mut bus, 3);
    assert_eq!(cpu.pc, 0x0000);
}

#[test]
fn cp_sets_flags_without_storing() {
    // LD A,0x05; CP 0x03
    let (mut cpu, mut bus) = machine(&[0x3E, 0x05, 0xFE, 0x03]);
    run(&mut cpu, &mut bus, 2);
    assert_eq!(cpu.acc, 0x05);
    assert!(!cpu.flag.z_zero);
    assert!(cpu.flag.n_substract);
    assert!(!cpu.flag.c_carry);
}

#[test]
fn cp_equal_sets_zero() {
    let (mut cpu, mut bus) = machine(&[0x3E, 0x05, 0xFE, 0x05]);
    run(&mut cpu, &mut bus, 2);
    assert!(cpu.flag.z_zero);
    assert!(!cpu.flag.c_carry);
}

#[test]
fn cp_smaller_accumulator_sets_carry() {
    let (mut cpu, mut bus) = machine(&[0x3E, 0x05, 0xFE, 0x07]);
    run(&mut cpu, &mut bus, 2);
    assert!(cpu.flag.c_carry);
}

#[test]
fn cp_low_nibble_borrow_sets_half_carry() {
    let (mut cpu, mut bus) = machine(&[0x3E, 0x10, 0xFE, 0x01]);
    run(&mut cpu, &mut bus, 2);
    assert!(cpu.flag.h_half_carry);
    assert!(!cpu.flag.c_carry);
}

#[test]
fn cp_register_operand() {
    // LD A,0x09; LD B,0x09; CP B
    let (mut cpu, mut bus) = machine(&[0x3E, 0x09, 0x06, 0x09, 0xB8]);
    run(&mut cpu, &mut bus, 3);
    assert!(cpu.flag.z_zero);
}

#[test]
fn rlca_rotates_circularly() {
    // LD A,0x85: 1000_0101 -> 0000_1011 with carry set
    let (mut cpu, mut bus) = machine(&[0x3E, 0x85, 0x07]);
    run(&mut cpu, &mut bus, 2);
    assert_eq!(cpu.acc, 0x0B);
    assert!(cpu.flag.c_carry);
    assert!(!cpu.flag.z_zero);
}

#[test]
fn rla_shifts_old_carry_into_bit_zero() {
    // LD A,0x80; RLA: result 0, carry out set; RLA again: old carry enters bit 0
    let (mut cpu, mut bus) = machine(&[0x3E, 0x80, 0x17, 0x17]);
    run(&mut cpu, &mut bus, 2);
    assert_eq!(cpu.acc, 0x00);
    assert!(cpu.flag.c_carry);
    assert!(cpu.flag.z_zero);
    run(&mut cpu, &mut bus, 1);
    assert_eq!(cpu.acc, 0x01);
    assert!(!cpu.flag.c_carry);
}

#[test]
fn prefixed_rl_c() {
    // LD C,0x80; RL C
    let (mut cpu, mut bus) = machine(&[0x0E, 0x80, 0xCB, 0x11]);
    run(&mut cpu, &mut bus, 2);
    assert_eq!(cpu.c, 0x00);
    assert!(cpu.flag.c_carry);
    assert!(cpu.flag.z_zero);
    assert_eq!(cpu.cycle, 8 + 12);
}

#[test]
fn prefixed_bit7_h() {
    // LD H,0x80; BIT 7,H: bit set, so zero flag clear, half-carry forced
    let (mut cpu, mut bus) = machine(&[0x26, 0x80, 0xCB, 0x7C]);
    run(&mut cpu, &mut bus, 2);
    assert!(!cpu.flag.z_zero);
    assert!(cpu.flag.h_half_carry);
    assert!(!cpu.flag.n_substract);
    // with the bit clear the zero flag is set
    let (mut cpu2, mut bus2) = machine(&[0x26, 0x00, 0xCB, 0x7C]);
    run(&mut cpu2, &mut bus2, 2);
    assert!(cpu2.flag.z_zero);
}

#[test]
fn halt_is_a_fatal_condition() {
    let (mut cpu, mut bus) = machine(&[0x76]);
    let r = cpu.next_instruction(&mut bus);
    assert!(matches!(r, Err(CpuError::Halted { .. })));
}

#[test]
fn stop_is_a_fatal_condition() {
    let (mut cpu, mut bus) = machine(&[0x10, 0x00]);
    let r = cpu.next_instruction(&mut bus);
    assert!(matches!(r, Err(CpuError::Stopped { .. })));
    assert_eq!(cpu.pc, 2);
}

#[test]
fn unknown_opcode_reports_byte() {
    let (mut cpu, mut bus) = machine(&[0xD3]);
    match cpu.next_instruction(&mut bus) {
        Err(CpuError::UnknownOpcode { opcode, cpu: state }) => {
            assert_eq!(opcode, 0xD3);
            assert_eq!(state.pc, 1);
        }
        other => panic!("expected an unknown-opcode fault, got {:?}", other),
    }
}

#[test]
fn unknown_prefixed_opcode_reports_byte() {
    let (mut cpu, mut bus) = machine(&[0xCB, 0x00]);
    match cpu.next_instruction(&mut bus) {
        Err(CpuError::UnknownPrefixedOpcode { opcode, .. }) => assert_eq!(opcode, 0x00),
        other => panic!("expected an unknown-prefixed fault, got {:?}", other),
    }
}

#[test]
fn push_below_stack_bottom_is_a_violation() {
    // LD SP,0xFF80; PUSH BC
    let (mut cpu, mut bus) = machine(&[0x31, 0x80, 0xFF, 0xC5]);
    run(&mut cpu, &mut bus, 1);
    let r = cpu.next_instruction(&mut bus);
    assert!(matches!(r, Err(CpuError::StackViolation { .. })));
}

#[test]
fn pop_above_stack_top_is_a_violation() {
    // LD SP,0xFFFE; POP BC
    let (mut cpu, mut bus) = machine(&[0x31, 0xFE, 0xFF, 0xC1]);
    run(&mut cpu, &mut bus, 1);
    let r = cpu.next_instruction(&mut bus);
    assert!(matches!(r, Err(CpuError::StackViolation { .. })));
}

#[test]
fn deep_push_chain_hits_the_bottom() {
    // LD SP,0xFF82: one push fits, the second violates the window
    let (mut cpu, mut bus) = machine(&[0x31, 0x82, 0xFF, 0xC5, 0xC5]);
    run(&mut cpu, &mut bus, 2);
    let r = cpu.next_instruction(&mut bus);
    assert!(matches!(r, Err(CpuError::StackViolation { .. })));
}

#[test]
fn hl_increment_at_max_is_a_fault() {
    // LD HL,0xFFFF; LD (HL+),A
    let (mut cpu, mut bus) = machine(&[0x21, 0xFF, 0xFF, 0x22]);
    run(&mut cpu, &mut bus, 1);
    let r = cpu.next_instruction(&mut bus);
    assert!(matches!(r, Err(CpuError::AddressBound { opcode: 0x22, .. })));
}

#[test]
fn hl_decrement_at_zero_is_a_fault() {
    // LD HL,0x0000; LD (HL-),A
    let (mut cpu, mut bus) = machine(&[0x21, 0x00, 0x00, 0x32]);
    run(&mut cpu, &mut bus, 1);
    let r = cpu.next_instruction(&mut bus);
    assert!(matches!(r, Err(CpuError::AddressBound { opcode: 0x32, .. })));
}

#[test]
fn ld_hl_plus_stores_and_advances() {
    // LD A,0x09; LD HL,0xC000; LD (HL+),A
    let (mut cpu, mut bus) = machine(&[0x3E, 0x09, 0x21, 0x00, 0xC0, 0x22]);
    run(&mut cpu, &mut bus, 3);
    assert_eq!(bus.read_byte(0xC000), 0x09);
    assert_eq!(bus.read_byte(0xE000), 0x09);
    assert_eq!((cpu.h, cpu.l), (0xC0, 0x01));
}

#[test]
fn ld_a_hl_minus_loads_and_steps_back() {
    // LD HL,0xC001; LD A,(HL-)
    let (mut cpu, mut bus) = machine(&[0x21, 0x01, 0xC0, 0x3A]);
    bus.write_byte(0xC001, 0x5E);
    run(&mut cpu, &mut bus, 2);
    assert_eq!(cpu.acc, 0x5E);
    assert_eq!((cpu.h, cpu.l), (0xC0, 0x00));
}

#[test]
fn register_to_register_moves() {
    // LD B,0x12; LD C,B; LD A,C
    let (mut cpu, mut bus) = machine(&[0x06, 0x12, 0x48, 0x79]);
    run(&mut cpu, &mut bus, 3);
    assert_eq!(cpu.b, 0x12);
    assert_eq!(cpu.c, 0x12);
    assert_eq!(cpu.acc, 0x12);
    assert_eq!(cpu.cycle, 8 + 4 + 4);
}

#[test]
fn moves_through_hl_memory() {
    // LD HL,0xC010; LD (HL),0x33; LD D,(HL)
    let (mut cpu, mut bus) = machine(&[0x21, 0x10, 0xC0, 0x36, 0x33, 0x56]);
    run(&mut cpu, &mut bus, 3);
    assert_eq!(bus.read_byte(0xC010), 0x33);
    assert_eq!(cpu.d, 0x33);
    assert_eq!(cpu.cycle, 12 + 12 + 8);
}

#[test]
fn inc_hl_memory_wraps_and_sets_flags() {
    // LD HL,0xC020; LD (HL),0xFF; INC (HL)
    let (mut cpu, mut bus) = machine(&[0x21, 0x20, 0xC0, 0x36, 0xFF, 0x34]);
    run(&mut cpu, &mut bus, 3);
    assert_eq!(bus.read_byte(0xC020), 0x00);
    assert!(cpu.flag.z_zero);
    assert!(cpu.flag.h_half_carry);
}

#[test]
fn dec_hl_memory_wraps() {
    // LD HL,0xC020; DEC (HL) on a zero byte
    let (mut cpu, mut bus) = machine(&[0x21, 0x20, 0xC0, 0x35]);
    run(&mut cpu, &mut bus, 2);
    assert_eq!(bus.read_byte(0xC020), 0xFF);
    assert!(!cpu.flag.z_zero);
    assert!(cpu.flag.n_substract);
}

#[test]
fn pair_increment_wraps_at_max() {
    // LD BC,0xFFFF; INC BC
    let (mut cpu, mut bus) = machine(&[0x01, 0xFF, 0xFF, 0x03]);
    run(&mut cpu, &mut bus, 2);
    assert_eq!((cpu.b, cpu.c), (0x00, 0x00));
}

#[test]
fn pair_decrement_wraps_at_zero() {
    // DEC DE from 0x0000
    let (mut cpu, mut bus) = machine(&[0x1B]);
    run(&mut cpu, &mut bus, 1);
    assert_eq!((cpu.d, cpu.e), (0xFF, 0xFF));
}

#[test]
fn stack_pointer_inc_dec_wrap() {
    // INC SP from 0xFFFF; then LD SP,0x0000; DEC SP
    let (mut cpu, mut bus) = machine(&[0x31, 0xFF, 0xFF, 0x33, 0x3B]);
    run(&mut cpu, &mut bus, 2);
    assert_eq!(cpu.sp, 0x0000);
    run(&mut cpu, &mut bus, 1);
    assert_eq!(cpu.sp, 0xFFFF);
}

#[test]
fn high_page_store_and_load() {
    // LD A,0x07; LDH (0x05),A; LD A,0x00; LDH A,(0x05)
    let (mut cpu, mut bus) = machine(&[0x3E, 0x07, 0xE0, 0x05, 0x3E, 0x00, 0xF0, 0x05]);
    run(&mut cpu, &mut bus, 2);
    assert_eq!(bus.read_byte(0xFF05), 0x07);
    run(&mut cpu, &mut bus, 2);
    assert_eq!(cpu.acc, 0x07);
}

#[test]
fn store_through_c_offset() {
    // LD C,0x10; LD A,0x05; LD (C),A
    let (mut cpu, mut bus) = machine(&[0x0E, 0x10, 0x3E, 0x05, 0xE2]);
    run(&mut cpu, &mut bus, 3);
    assert_eq!(bus.read_byte(0xFF10), 0x05);
}

#[test]
fn store_at_absolute_address() {
    // LD A,0x03; LD (0xC100),A
    let (mut cpu, mut bus) = machine(&[0x3E, 0x03, 0xEA, 0x00, 0xC1]);
    run(&mut cpu, &mut bus, 2);
    assert_eq!(bus.read_byte(0xC100), 0x03);
    assert_eq!(cpu.cycle, 8 + 16);
}

#[test]
fn load_through_pairs() {
    // LD BC,0xC030; LD A,(BC)
    let (mut cpu, mut bus) = machine(&[0x01, 0x30, 0xC0, 0x0A]);
    bus.write_byte(0xC030, 0x44);
    run(&mut cpu, &mut bus, 2);
    assert_eq!(cpu.acc, 0x44);
}

#[test]
fn store_through_pairs() {
    // LD DE,0xC040; LD A,0x66; LD (DE),A
    let (mut cpu, mut bus) = machine(&[0x11, 0x40, 0xC0, 0x3E, 0x66, 0x12]);
    run(&mut cpu, &mut bus, 3);
    assert_eq!(bus.read_byte(0xC040), 0x66);
}

#[test]
fn pc_wraps_at_rom_bank_end() {
    let (mut cpu, mut bus) = machine(&[]);
    bus.write_byte(0x3FFF, 0x00);
    cpu.pc = 0x3FFF;
    assert_eq!(cpu.next_instruction(&mut bus), Ok(()));
    assert_eq!(cpu.pc, 0x0000);
}

#[test]
fn di_and_ei_toggle_interrupts() {
    let (mut cpu, mut bus) = machine(&[0xF3, 0xFB]);
    assert!(cpu.interrupts_enabled);
    run(&mut cpu, &mut bus, 1);
    assert!(!cpu.interrupts_enabled);
    run(&mut cpu, &mut bus, 1);
    assert!(cpu.interrupts_enabled);
}

#[test]
fn instruction_cycles_drive_the_timer() {
    let mut timer = Timer::new();
    assert_eq!(timer.register_tick(4), Ok(()));
    let mut bus = Bus::new(timer);
    bus.write_byte(0, 0x00);
    let mut cpu = CPU::new();
    cpu.reset();
    assert_eq!(cpu.next_instruction(&mut bus), Ok(()));
    assert_eq!(bus.timer.did_tick(4), Ok(true));
}

#[test]
fn pending_interrupt_is_reported_by_priority() {
    let cases: [(u8, InterruptSource); 5] = [
        (0x01, InterruptSource::VBlank),
        (0x02, InterruptSource::LcdStat),
        (0x04, InterruptSource::Timer),
        (0x08, InterruptSource::Serial),
        (0x10, InterruptSource::Joypad),
    ];
    for (byte, source) in cases {
        let (cpu, mut bus) = machine(&[]);
        bus.write_byte(0xFF0F, byte);
        match cpu.check_interrupt(&mut bus) {
            Err(CpuError::InterruptPending { source: got, .. }) => assert_eq!(got, source),
            other => panic!("expected a pending interrupt, got {:?}", other),
        }
    }
}

#[test]
fn lowest_set_interrupt_bit_wins() {
    let (cpu, mut bus) = machine(&[]);
    bus.write_byte(0xFF0F, 0x06);
    match cpu.check_interrupt(&mut bus) {
        Err(CpuError::InterruptPending { source, .. }) => {
            assert_eq!(source, InterruptSource::LcdStat)
        }
        other => panic!("expected a pending interrupt, got {:?}", other),
    }
}

#[test]
fn interrupts_ignored_when_disabled() {
    let (mut cpu, mut bus) = machine(&[0xF3]);
    bus.write_byte(0xFF0F, 0x1F);
    run(&mut cpu, &mut bus, 1);
    assert_eq!(cpu.check_interrupt(&mut bus), Ok(()));
}

#[test]
fn no_interrupt_without_request_bits() {
    let (cpu, mut bus) = machine(&[]);
    assert_eq!(cpu.check_interrupt(&mut bus), Ok(()));
}
