use lr35902::bus::{Bus, REG_DIV, REG_STAT};
use lr35902::gameboy::GameBoy;
use lr35902::io::{IoError, IO};
use lr35902::timer::{Timer, TimerError};

fn booted_bus() -> (IO, Bus) {
    let mut timer = Timer::new();
    let io = IO::new();
    io.init(&mut timer).expect("fresh timer accepts the counters");
    (io, Bus::new(timer))
}

#[test]
fn init_registers_the_three_counters() {
    let mut timer = Timer::new();
    let io = IO::new();
    assert_eq!(io.init(&mut timer), Ok(()));
    assert_eq!(timer.phase_of("video_023".to_string()), Ok(0));
    assert_eq!(timer.phase_of("video_1".to_string()), Ok(0));
    assert_eq!(timer.did_tick(255), Ok(false));
}

#[test]
fn init_twice_rejects_the_duplicate_period() {
    let mut timer = Timer::new();
    let io = IO::new();
    assert_eq!(io.init(&mut timer), Ok(()));
    assert_eq!(io.init(&mut timer), Err(TimerError::PeriodRegistered));
}

#[test]
fn operate_increments_the_divider_after_a_tick() {
    let (io, mut bus) = booted_bus();
    bus.register_cycles(255);
    assert_eq!(io.operate(&mut bus), Ok(()));
    assert_eq!(bus.read_byte(REG_DIV), 1);
    // the fired flag was cleared, so a second pass leaves the divider alone
    assert_eq!(io.operate(&mut bus), Ok(()));
    assert_eq!(bus.read_byte(REG_DIV), 1);
}

#[test]
fn divider_wraps_around() {
    let (io, mut bus) = booted_bus();
    bus.write_byte(REG_DIV, 0xFF);
    bus.register_cycles(255);
    assert_eq!(io.operate(&mut bus), Ok(()));
    assert_eq!(bus.read_byte(REG_DIV), 0x00);
}

#[test]
fn operate_reports_display_mode_zero_at_start() {
    let (io, mut bus) = booted_bus();
    bus.write_byte(REG_STAT, 0xFC);
    assert_eq!(io.operate(&mut bus), Ok(()));
    assert_eq!(bus.read_byte(REG_STAT), 0xFC);
}

#[test]
fn operate_reports_searching_mode_in_second_phase() {
    let (io, mut bus) = booted_bus();
    bus.register_cycles(204);
    assert_eq!(io.operate(&mut bus), Ok(()));
    assert_eq!(bus.read_byte(REG_STAT) & 0b11, 0b10);
}

#[test]
fn operate_reports_transfer_mode_in_third_phase() {
    let (io, mut bus) = booted_bus();
    bus.register_cycles(204 + 80);
    assert_eq!(io.operate(&mut bus), Ok(()));
    assert_eq!(bus.read_byte(REG_STAT) & 0b11, 0b11);
}

#[test]
fn operate_reports_vblank_mode() {
    let (io, mut bus) = booted_bus();
    // 67109 cycles enter the V-Blank phase; u16 reports take three steps
    bus.register_cycles(33555);
    bus.register_cycles(33555);
    assert_eq!(io.operate(&mut bus), Ok(()));
    assert_eq!(bus.read_byte(REG_STAT) & 0b11, 0b01);
}

#[test]
fn operate_without_init_reports_the_missing_ticker() {
    let io = IO::new();
    let mut bus = Bus::new(Timer::new());
    assert_eq!(io.operate(&mut bus), Err(IoError::MissingTicker));
}

#[test]
fn operate_without_sequencers_reports_the_missing_sequence() {
    let io = IO::new();
    let mut timer = Timer::new();
    assert_eq!(timer.register_tick(255), Ok(()));
    let mut bus = Bus::new(timer);
    assert_eq!(io.operate(&mut bus), Err(IoError::MissingSequence));
}

#[test]
fn operate_rejects_a_phase_outside_the_mode_map() {
    // a V-Blank sequencer with three phases can report phase 2, which the
    // display's mode map does not cover
    let io = IO::new();
    let mut timer = Timer::new();
    assert_eq!(timer.register_tick(255), Ok(()));
    assert_eq!(
        timer.register_tick_series("video_1".to_string(), vec![1, 1, 1]),
        Ok(())
    );
    timer.inc(2);
    assert_eq!(timer.phase_of("video_1".to_string()), Ok(2));
    let mut bus = Bus::new(timer);
    assert_eq!(io.operate(&mut bus), Err(IoError::InvalidPhase));
}

#[test]
fn gameboy_copies_the_boot_rom_to_the_front_of_memory() {
    let rom = vec![0x00, 0x3C, 0x76];
    let mut gb = GameBoy::new(rom.clone());
    gb.copy_rom_to_memory();
    for (i, &b) in rom.iter().enumerate() {
        assert_eq!(gb.bus.read_byte(i as u16), b);
    }
}

#[test]
fn gameboy_runs_a_small_program() {
    // NOP; INC A; INC A; HALT
    let mut gb = GameBoy::new(vec![0x00, 0x3C, 0x3C, 0x76]);
    gb.copy_rom_to_memory();
    gb.cpu.reset();
    gb.io.init(&mut gb.bus.timer).expect("fresh timer accepts the counters");
    for _ in 0..3 {
        gb.cpu.next_instruction(&mut gb.bus).expect("instruction failed");
        gb.cpu.check_interrupt(&mut gb.bus).expect("no interrupt pending");
        gb.io.operate(&mut gb.bus).expect("peripheral update failed");
    }
    assert_eq!(gb.cpu.acc, 2);
    assert!(gb.cpu.next_instruction(&mut gb.bus).is_err());
}
