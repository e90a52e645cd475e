//! The instruction engine: register file, flags, program counter and stack
//! pointer, plus the fetch-decode-execute cycle with bit-exact register and
//! flag semantics. After each instruction the engine reports the
//! instruction's cycle cost to the bus, which forwards it to the timer.
//!
//! Every fatal condition (unknown opcode, unimplemented instruction, stack
//! or address-register bound violation, pending interrupt) surfaces as an
//! error value carrying the offending byte and the register state, so the
//! driving loop can stop the run instead of aborting the process.

use vstd::prelude::*;
use crate::bus::Bus;
use crate::bus::spec_write;
use crate::bus::MEM_SIZE;
use crate::timer::{inc_rel, sat_add64};

verus! {

/// Upper bound of the reserved stack window.
pub const STACK_TOP: u16 = 0xFFFE;

/// Lower bound of the reserved stack window.
pub const STACK_BOTTOM: u16 = 0xFF80;

/// Address of the interrupt-flag register.
pub const IF_ADDR: u16 = 0xFF0F;

/// Size of the ROM-bank window the program counter is mapped to.
pub const ROM_BANK_WINDOW: u16 = 0x4000;

/// The four independent condition flags.
#[derive(Clone, Copy, PartialEq, Eq, Structural, Debug)]
pub struct Flags {
    pub z_zero: bool,
    pub n_substract: bool,
    pub h_half_carry: bool,
    pub c_carry: bool,
}

/// The register file: accumulator, six general-purpose 8-bit registers
/// paired as BC, DE and HL, the stack pointer, the program counter, the
/// interrupt-enable flag and the running cycle count.
#[derive(Clone, Copy, PartialEq, Eq, Structural, Debug)]
pub struct CPU {
    pub acc: u8,
    pub flag: Flags,
    pub b: u8,
    pub d: u8,
    pub h: u8,
    pub c: u8,
    pub e: u8,
    pub l: u8,
    pub sp: u16,
    pub pc: u16,
    pub interrupts_enabled: bool,
    pub cycle: u64,
}

/// Names one 8-bit register of the file.
#[derive(Clone, Copy, PartialEq, Eq, Structural, Debug)]
pub enum Reg {
    A,
    B,
    C,
    D,
    E,
    H,
    L,
}

/// The five interrupt sources, in low-to-high bit order of the
/// interrupt-flag register.
#[derive(Clone, Copy, PartialEq, Eq, Structural, Debug)]
pub enum InterruptSource {
    VBlank,
    LcdStat,
    Timer,
    Serial,
    Joypad,
}

/// The register file at power-on: every register, flag and counter zeroed.
pub open spec fn power_on() -> CPU {
    CPU {
        acc: 0u8,
        flag: Flags { z_zero: false, n_substract: false, h_half_carry: false, c_carry: false },
        b: 0u8,
        d: 0u8,
        h: 0u8,
        c: 0u8,
        e: 0u8,
        l: 0u8,
        sp: 0u16,
        pc: 0u16,
        interrupts_enabled: false,
        cycle: 0u64,
    }
}

/// A fatal condition of the instruction engine. Each variant carries the
/// register state at the point of failure, and the offending byte where one
/// exists.
#[derive(Clone, Copy, PartialEq, Eq, Structural, Debug)]
pub enum CpuError {
    /// The primary opcode table has no entry for this byte.
    UnknownOpcode { opcode: u8, cpu: CPU },
    /// The prefixed opcode table has no entry for this byte.
    UnknownPrefixedOpcode { opcode: u8, cpu: CPU },
    /// A HALT instruction was reached; it is unimplemented by design.
    Halted { cpu: CPU },
    /// A STOP instruction was reached; it is unimplemented by design.
    Stopped { cpu: CPU },
    /// The stack pointer would leave its reserved window.
    StackViolation { cpu: CPU },
    /// A 16-bit address register at its bound was incremented or
    /// decremented by an instruction that assumes headroom.
    AddressBound { opcode: u8, cpu: CPU },
    /// An interrupt request is pending and must be serviced externally.
    InterruptPending { source: InterruptSource, cpu: CPU },
}

/// The 16-bit value composed from a high and a low byte.
pub open spec fn word(hi: u8, lo: u8) -> u16 {
    (hi * 256 + lo) as u16
}

/// The high byte of a 16-bit value.
pub open spec fn hi_byte(w: u16) -> u8 {
    (w / 256) as u8
}

/// The low byte of a 16-bit value.
pub open spec fn lo_byte(w: u16) -> u8 {
    (w % 256) as u8
}

/// The 16-bit value incremented with wraparound.
pub open spec fn word_inc(w: u16) -> u16 {
    ((w as int + 1) % 0x10000) as u16
}

/// The 16-bit value decremented with wraparound.
pub open spec fn word_dec(w: u16) -> u16 {
    ((w as int + 0xFFFF) % 0x10000) as u16
}

/// The program counter after one fetched byte: incremented, wrapping
/// modularly back into the ROM-bank window when it leaves it.
pub open spec fn pc_next(pc: u16) -> u16 {
    (((pc as int) + 1) % (ROM_BANK_WINDOW as int)) as u16
}

/// The register state after one fetched byte.
pub open spec fn fetched(cpu: CPU) -> CPU {
    CPU { pc: pc_next(cpu.pc), ..cpu }
}

/// The value of the named 8-bit register.
pub open spec fn reg_val(cpu: CPU, r: Reg) -> u8 {
    match r {
        Reg::A => cpu.acc,
        Reg::B => cpu.b,
        Reg::C => cpu.c,
        Reg::D => cpu.d,
        Reg::E => cpu.e,
        Reg::H => cpu.h,
        Reg::L => cpu.l,
    }
}

/// The register state with the named 8-bit register replaced by `v`.
pub open spec fn with_reg(cpu: CPU, r: Reg, v: u8) -> CPU {
    match r {
        Reg::A => CPU { acc: v, ..cpu },
        Reg::B => CPU { b: v, ..cpu },
        Reg::C => CPU { c: v, ..cpu },
        Reg::D => CPU { d: v, ..cpu },
        Reg::E => CPU { e: v, ..cpu },
        Reg::H => CPU { h: v, ..cpu },
        Reg::L => CPU { l: v, ..cpu },
    }
}

/// 8-bit increment with wraparound.
pub open spec fn inc8(v: u8) -> u8 {
    if v == 0xFF {
        0
    } else {
        (v + 1) as u8
    }
}

/// 8-bit decrement with wraparound.
pub open spec fn dec8(v: u8) -> u8 {
    if v == 0 {
        0xFF
    } else {
        (v - 1) as u8
    }
}

/// Flags after an 8-bit INC of `old_v`: zero iff the result is zero,
/// subtract cleared, half-carry iff the operation carries out of bit 3
/// (low nibble was 0xF), carry untouched.
pub open spec fn inc_flags(f: Flags, old_v: u8) -> Flags {
    Flags {
        z_zero: inc8(old_v) == 0,
        n_substract: false,
        h_half_carry: old_v % 16 == 15,
        c_carry: f.c_carry,
    }
}

/// Flags after an 8-bit DEC of `old_v`: zero iff the result is zero,
/// subtract set, half-carry iff the operation borrows from bit 4 (low
/// nibble was 0x0), carry untouched.
pub open spec fn dec_flags(f: Flags, old_v: u8) -> Flags {
    Flags {
        z_zero: dec8(old_v) == 0,
        n_substract: true,
        h_half_carry: old_v % 16 == 0,
        c_carry: f.c_carry,
    }
}

/// The register state after INC of the named register.
pub open spec fn apply_inc8(cpu: CPU, r: Reg) -> CPU {
    let v = reg_val(cpu, r);
    with_reg(CPU { flag: inc_flags(cpu.flag, v), ..cpu }, r, inc8(v))
}

/// The register state after DEC of the named register.
pub open spec fn apply_dec8(cpu: CPU, r: Reg) -> CPU {
    let v = reg_val(cpu, r);
    with_reg(CPU { flag: dec_flags(cpu.flag, v), ..cpu }, r, dec8(v))
}

/// Flags after CP: zero iff equal, subtract set, half-carry iff the low
/// nibble of the accumulator borrows, carry iff the accumulator is smaller.
pub open spec fn cp_flags(acc: u8, cmp: u8) -> Flags {
    Flags {
        z_zero: acc == cmp,
        n_substract: true,
        h_half_carry: acc % 16 < cmp % 16,
        c_carry: acc < cmp,
    }
}

/// The register state after the self-XOR idiom on the named register: the
/// register becomes zero and the zero flag is set.
pub open spec fn apply_self_xor(cpu: CPU, r: Reg) -> CPU {
    with_reg(CPU { flag: Flags { z_zero: true, ..cpu.flag }, ..cpu }, r, 0)
}

/// The rotated-left-through-carry value: the old carry enters at bit 0.
pub open spec fn rl_val(v: u8, carry_in: bool) -> u8 {
    ((v * 2 + if carry_in {
        1int
    } else {
        0int
    }) % 256) as u8
}

/// The register state after rotate-left-through-carry of the named
/// register: the vacated high bit becomes the new carry, zero tracks the
/// result, subtract and half-carry are cleared.
pub open spec fn apply_rl(cpu: CPU, r: Reg) -> CPU {
    let v = reg_val(cpu, r);
    let nv = rl_val(v, cpu.flag.c_carry);
    with_reg(
        CPU {
            flag: Flags {
                z_zero: nv == 0,
                n_substract: false,
                h_half_carry: false,
                c_carry: v >= 0x80,
            },
            ..cpu
        },
        r,
        nv,
    )
}

/// The rotated-left-circular value: the high bit wraps to bit 0.
pub open spec fn rlc_val(v: u8) -> u8 {
    ((v * 2 + v / 128) % 256) as u8
}

/// The register state after RLCA: the accumulator rotates left circularly,
/// the vacated high bit becomes the carry, zero tracks the result, subtract
/// and half-carry are cleared.
pub open spec fn apply_rlca(cpu: CPU) -> CPU {
    let nv = rlc_val(cpu.acc);
    CPU {
        acc: nv,
        flag: Flags {
            z_zero: nv == 0,
            n_substract: false,
            h_half_carry: false,
            c_carry: cpu.acc >= 0x80,
        },
        ..cpu
    }
}

/// The register state after BIT 7,H: zero is the complement of bit 7 of H,
/// subtract is cleared, half-carry is set, carry is untouched.
pub open spec fn apply_bit7_h(cpu: CPU) -> CPU {
    CPU {
        flag: Flags {
            z_zero: cpu.h < 0x80,
            n_substract: false,
            h_half_carry: true,
            c_carry: cpu.flag.c_carry,
        },
        ..cpu
    }
}

/// The displacement byte of a relative jump read as a signed value.
pub open spec fn signed8(d: u8) -> int {
    if d < 128 {
        d as int
    } else {
        d as int - 256
    }
}

/// The target of a relative jump: the post-operand program counter plus the
/// signed displacement, modulo the 16-bit address space.
pub open spec fn jr_target(pc: u16, d: u8) -> u16 {
    let t = pc as int + signed8(d);
    if t < 0 {
        (t + 0x10000) as u16
    } else if t >= 0x10000 {
        (t - 0x10000) as u16
    } else {
        t as u16
    }
}

/// The interrupt source whose request bit is set in the interrupt-flag
/// byte, testing the five bits in low-to-high priority order; none when
/// interrupts are disabled or no bit is set.
pub open spec fn pending_interrupt(enabled: bool, if_byte: u8) -> Option<InterruptSource> {
    if !enabled {
        None
    } else if if_byte % 2 == 1 {
        Some(InterruptSource::VBlank)
    } else if (if_byte / 2) % 2 == 1 {
        Some(InterruptSource::LcdStat)
    } else if (if_byte / 4) % 2 == 1 {
        Some(InterruptSource::Timer)
    } else if (if_byte / 8) % 2 == 1 {
        Some(InterruptSource::Serial)
    } else if (if_byte / 16) % 2 == 1 {
        Some(InterruptSource::Joypad)
    } else {
        None
    }
}

/// Splits a 16-bit value into its high and low bytes.
pub fn u16_to_hi_lo(dd: u16) -> (r: (u8, u8))
    ensures
        r.0 == hi_byte(dd),
        r.1 == lo_byte(dd),
        word(r.0, r.1) == dd,
{
    ((dd / 256) as u8, (dd % 256) as u8)
}

/// Composes a 16-bit value from its high and low bytes.
pub fn hi_lo_to_u16(hi: u8, lo: u8) -> (r: u16)
    ensures
        r == word(hi, lo),
{
    (hi as u16) * 256 + (lo as u16)
}

/// Increments the 16-bit value composed from a register pair, with
/// wraparound; no flag effects.
pub fn inc_dd(hi: u8, lo: u8) -> (r: (u8, u8))
    ensures
        r.0 == hi_byte(word_inc(word(hi, lo))),
        r.1 == lo_byte(word_inc(word(hi, lo))),
{
    let v = hi_lo_to_u16(hi, lo);
    let v2 = v.wrapping_add(1);
    u16_to_hi_lo(v2)
}

/// Decrements the 16-bit value composed from a register pair, with
/// wraparound; no flag effects.
pub fn dec_dd(hi: u8, lo: u8) -> (r: (u8, u8))
    ensures
        r.0 == hi_byte(word_dec(word(hi, lo))),
        r.1 == lo_byte(word_dec(word(hi, lo))),
{
    let v = hi_lo_to_u16(hi, lo);
    let v2 = v.wrapping_sub(1);
    u16_to_hi_lo(v2)
}

/// INC then DEC (and the reverse) restore an 8-bit register value,
/// including at the wraparound boundary between 0x00 and 0xFF.
pub proof fn lemma_inc_dec_inverse(cpu: CPU, r: Reg)
    ensures
        reg_val(apply_dec8(apply_inc8(cpu, r), r), r) == reg_val(cpu, r),
        reg_val(apply_inc8(apply_dec8(cpu, r), r), r) == reg_val(cpu, r),
{
}

/// The self-XOR idiom always yields zero and sets the zero flag, on every
/// register and from every starting state.
pub proof fn lemma_self_xor_zero(cpu: CPU, r: Reg)
    ensures
        reg_val(apply_self_xor(cpu, r), r) == 0,
        apply_self_xor(cpu, r).flag.z_zero,
{
}

impl CPU {
    /// A register file with every register, flag and counter zeroed, as at
    /// power-on.
    pub fn new() -> (cpu: CPU)
        ensures
            cpu == power_on(),
    {
        CPU {
            acc: 0,
            flag: Flags { z_zero: false, n_substract: false, h_half_carry: false, c_carry: false },
            b: 0,
            d: 0,
            h: 0,
            c: 0,
            e: 0,
            l: 0,
            sp: 0,
            pc: 0,
            interrupts_enabled: false,
            cycle: 0,
        }
    }

    /// Points the program counter at the first instruction and enables
    /// interrupts; every other register keeps its value.
    pub fn reset(&mut self)
        ensures
            (*final(self) == CPU { pc: 0u16, interrupts_enabled: true, ..*old(self) }),
    {
        self.pc = 0x0000;
        self.interrupts_enabled = true;
    }

    /// The value of the named 8-bit register.
    pub fn get_reg(&self, r: Reg) -> (v: u8)
        ensures
            v == reg_val(*self, r),
    {
        match r {
            Reg::A => self.acc,
            Reg::B => self.b,
            Reg::C => self.c,
            Reg::D => self.d,
            Reg::E => self.e,
            Reg::H => self.h,
            Reg::L => self.l,
        }
    }

    /// Replaces the named 8-bit register.
    pub fn set_reg(&mut self, r: Reg, v: u8)
        ensures
            *final(self) == with_reg(*old(self), r, v),
    {
        match r {
            Reg::A => self.acc = v,
            Reg::B => self.b = v,
            Reg::C => self.c = v,
            Reg::D => self.d = v,
            Reg::E => self.e = v,
            Reg::H => self.h = v,
            Reg::L => self.l = v,
        }
    }

    /// Folds an instruction's cycle cost into the running cycle counter,
    /// stopping at the counter's largest value instead of wrapping.
    fn inc_cycle(&mut self, n: u64)
        ensures
            (*final(self) == CPU { cycle: sat_add64(old(self).cycle, n), ..*old(self) }),
    {
        self.cycle = self.cycle.saturating_add(n);
    }

    /// Fetches the byte at the program counter and advances it, wrapping
    /// modularly back into the ROM-bank window when it leaves it.
    fn read_byte(&mut self, bus: &Bus) -> (v: u8)
        requires
            bus.wf(),
        ensures
            v == bus.mem@[old(self).pc as int],
            *final(self) == fetched(*old(self)),
    {
        let addr = self.pc;
        self.pc = (((self.pc as u32) + 1) % (ROM_BANK_WINDOW as u32)) as u16;
        bus.read_byte(addr)
    }

    /// Fetches the opcode byte at the program counter.
    fn read_opcode(&mut self, bus: &Bus) -> (v: u8)
        requires
            bus.wf(),
        ensures
            v == bus.mem@[old(self).pc as int],
            *final(self) == fetched(*old(self)),
    {
        self.read_byte(bus)
    }

    /// Fetches a 16-bit operand: the low byte first, then the high byte.
    fn read_low_high(&mut self, bus: &Bus) -> (r: (u8, u8))
        requires
            bus.wf(),
        ensures
            r.0 == bus.mem@[old(self).pc as int],
            r.1 == bus.mem@[fetched(*old(self)).pc as int],
            *final(self) == fetched(fetched(*old(self))),
    {
        let lo = self.read_byte(bus);
        let hi = self.read_byte(bus);
        (lo, hi)
    }

    /// Writes a byte at the stack pointer, then moves the pointer down.
    /// Fails with the stack-violation condition, leaving the pointer where
    /// it stands, if the pointer would move below the reserved lower bound;
    /// the byte is stored in either case.
    pub fn stack_push(&mut self, byte: u8, bus: &mut Bus) -> (r: Result<(), CpuError>)
        requires
            old(bus).wf(),
        ensures
            final(bus).wf(),
            final(bus).timer == old(bus).timer,
            final(bus).mem@ == spec_write(old(bus).mem@, old(self).sp, byte),
            r is Ok <==> old(self).sp > STACK_BOTTOM,
            r is Ok ==> (*final(self) == CPU { sp: (old(self).sp - 1) as u16, ..*old(self) }),
            r is Err ==> *final(self) == *old(self) && r == Err::<(), CpuError>(
                CpuError::StackViolation { cpu: *old(self) },
            ),
    {
        bus.write_byte(self.sp, byte);
        if self.sp <= STACK_BOTTOM {
            Err(CpuError::StackViolation { cpu: *self })
        } else {
            self.sp = self.sp - 1;
            Ok(())
        }
    }

    /// Moves the stack pointer up, then reads the byte there. Fails with
    /// the stack-violation condition, leaving the pointer where it stands,
    /// if the pointer would move above the reserved upper bound.
    pub fn stack_pop(&mut self, bus: &Bus) -> (r: Result<u8, CpuError>)
        requires
            bus.wf(),
        ensures
            r is Ok <==> old(self).sp < STACK_TOP,
            r is Ok ==> (*final(self) == CPU { sp: (old(self).sp + 1) as u16, ..*old(self) }) && r
                == Ok::<u8, CpuError>(bus.mem@[(old(self).sp + 1) as int]),
            r is Err ==> *final(self) == *old(self) && r == Err::<u8, CpuError>(
                CpuError::StackViolation { cpu: *old(self) },
            ),
    {
        if self.sp >= STACK_TOP {
            Err(CpuError::StackViolation { cpu: *self })
        } else {
            self.sp = self.sp + 1;
            Ok(bus.read_byte(self.sp))
        }
    }

    /// With interrupts enabled, reads the interrupt-flag register through
    /// the bus and tests its five request bits in low-to-high priority
    /// order; any set bit is a fatal condition naming the source, since
    /// interrupt dispatch is unimplemented. A no-op when interrupts are
    /// disabled.
    pub fn check_interrupt(&self, bus: &mut Bus) -> (r: Result<(), CpuError>)
        requires
            old(bus).wf(),
        ensures
            *final(bus) == *old(bus),
            ({
                let p = pending_interrupt(self.interrupts_enabled, old(bus).mem@[IF_ADDR as int]);
                match p {
                    None => r == Ok::<(), CpuError>(()),
                    Some(source) => r == Err::<(), CpuError>(
                        CpuError::InterruptPending { source, cpu: *self },
                    ),
                }
            }),
    {
        if !self.interrupts_enabled {
            return Ok(());
        }
        let int_byte = bus.read_byte(IF_ADDR);
        if int_byte % 2 == 1 {
            return Err(
                CpuError::InterruptPending { source: InterruptSource::VBlank, cpu: *self },
            );
        }
        if (int_byte / 2) % 2 == 1 {
            return Err(
                CpuError::InterruptPending { source: InterruptSource::LcdStat, cpu: *self },
            );
        }
        if (int_byte / 4) % 2 == 1 {
            return Err(
                CpuError::InterruptPending { source: InterruptSource::Timer, cpu: *self },
            );
        }
        if (int_byte / 8) % 2 == 1 {
            return Err(
                CpuError::InterruptPending { source: InterruptSource::Serial, cpu: *self },
            );
        }
        if (int_byte / 16) % 2 == 1 {
            return Err(
                CpuError::InterruptPending { source: InterruptSource::Joypad, cpu: *self },
            );
        }
        Ok(())
    }
}


/// What one decoded instruction does, before cycle accounting: the register
/// state and the memory it leaves, the cycles to report to the bus, and the
/// fatal condition, if one arose.
pub struct OpOutcome {
    pub cpu: CPU,
    pub mem: Seq<u8>,
    pub cycles: u16,
    pub err: Option<CpuError>,
}

/// An instruction that completed, reporting `cycles`.
pub open spec fn op_ok(cpu: CPU, mem: Seq<u8>, cycles: u16) -> OpOutcome {
    OpOutcome { cpu, mem, cycles, err: None }
}

/// An instruction that hit a fatal condition; no cycles are reported.
pub open spec fn op_fail(cpu: CPU, mem: Seq<u8>, e: CpuError) -> OpOutcome {
    OpOutcome { cpu, mem, cycles: 0, err: Some(e) }
}

/// The register selected by a three-bit register index of the move block;
/// index 6 names the memory operand through HL and selects no register.
pub open spec fn idx_reg(i: int) -> Reg {
    if i == 0 {
        Reg::B
    } else if i == 1 {
        Reg::C
    } else if i == 2 {
        Reg::D
    } else if i == 3 {
        Reg::E
    } else if i == 4 {
        Reg::H
    } else if i == 5 {
        Reg::L
    } else {
        Reg::A
    }
}

/// The register state after a relative jump: the displacement byte is
/// consumed in either case; the program counter moves only when the
/// condition holds.
pub open spec fn apply_jr(cpu: CPU, mem: Seq<u8>, cond: bool) -> CPU {
    let d = mem[cpu.pc as int];
    let c1 = fetched(cpu);
    if cond {
        CPU { pc: jr_target(c1.pc, d), ..c1 }
    } else {
        c1
    }
}

/// The state after CALL: the 16-bit target is consumed (low byte first) in
/// either case; when the condition holds, the post-operand program counter
/// is pushed high byte first, then the jump is taken. A push that would
/// move the stack pointer below its window is the stack-violation
/// condition.
pub open spec fn call_apply(cpu: CPU, mem: Seq<u8>, cond: bool) -> (CPU, Seq<u8>, Result<
    (),
    CpuError,
>) {
    let lo = mem[cpu.pc as int];
    let c1 = fetched(cpu);
    let hi = mem[c1.pc as int];
    let c2 = fetched(c1);
    if cond {
        let m1 = spec_write(mem, c2.sp, hi_byte(c2.pc));
        if c2.sp <= STACK_BOTTOM {
            (c2, m1, Err(CpuError::StackViolation { cpu: c2 }))
        } else {
            let c3 = CPU { sp: (c2.sp - 1) as u16, ..c2 };
            let m2 = spec_write(m1, c3.sp, lo_byte(c2.pc));
            if c3.sp <= STACK_BOTTOM {
                (c3, m2, Err(CpuError::StackViolation { cpu: c3 }))
            } else {
                (CPU { sp: (c3.sp - 1) as u16, pc: word(hi, lo), ..c3 }, m2, Ok(()))
            }
        }
    } else {
        (c2, mem, Ok(()))
    }
}

/// The state after RET: the low byte is popped first, then the high byte,
/// and the program counter becomes the composed address. A pop that would
/// move the stack pointer above its window is the stack-violation
/// condition.
pub open spec fn ret_apply(cpu: CPU, mem: Seq<u8>) -> (CPU, Result<(), CpuError>) {
    if cpu.sp >= STACK_TOP {
        (cpu, Err(CpuError::StackViolation { cpu }))
    } else {
        let lo = mem[(cpu.sp + 1) as int];
        let c1 = CPU { sp: (cpu.sp + 1) as u16, ..cpu };
        if c1.sp >= STACK_TOP {
            (c1, Err(CpuError::StackViolation { cpu: c1 }))
        } else {
            let hi = mem[(c1.sp + 1) as int];
            (CPU { sp: (c1.sp + 1) as u16, pc: word(hi, lo), ..c1 }, Ok(()))
        }
    }
}

/// The state after PUSH BC: B is written first, then C, the stack pointer
/// moving down after each byte.
pub open spec fn push_bc_apply(cpu: CPU, mem: Seq<u8>) -> (CPU, Seq<u8>, Result<(), CpuError>) {
    let m1 = spec_write(mem, cpu.sp, cpu.b);
    if cpu.sp <= STACK_BOTTOM {
        (cpu, m1, Err(CpuError::StackViolation { cpu }))
    } else {
        let c1 = CPU { sp: (cpu.sp - 1) as u16, ..cpu };
        let m2 = spec_write(m1, c1.sp, c1.c);
        if c1.sp <= STACK_BOTTOM {
            (c1, m2, Err(CpuError::StackViolation { cpu: c1 }))
        } else {
            (CPU { sp: (c1.sp - 1) as u16, ..c1 }, m2, Ok(()))
        }
    }
}

/// The state after POP BC: C is read first, then B, the stack pointer
/// moving up before each byte; the exact inverse of PUSH BC.
pub open spec fn pop_bc_apply(cpu: CPU, mem: Seq<u8>) -> (CPU, Result<(), CpuError>) {
    if cpu.sp >= STACK_TOP {
        (cpu, Err(CpuError::StackViolation { cpu }))
    } else {
        let c1 = CPU { sp: (cpu.sp + 1) as u16, c: mem[(cpu.sp + 1) as int], ..cpu };
        if c1.sp >= STACK_TOP {
            (c1, Err(CpuError::StackViolation { cpu: c1 }))
        } else {
            (CPU { sp: (c1.sp + 1) as u16, b: mem[(c1.sp + 1) as int], ..c1 }, Ok(()))
        }
    }
}

/// The state after one instruction of the prefixed table, together with the
/// prefixed opcode's own cycle cost.
pub open spec fn prefixed_apply(cpu: CPU, mem: Seq<u8>) -> (CPU, Result<u16, CpuError>) {
    let op2 = mem[cpu.pc as int];
    let c1 = fetched(cpu);
    if op2 == 0x11 {
        (apply_rl(c1, Reg::C), Ok(8u16))
    } else if op2 == 0x7C {
        (apply_bit7_h(c1), Ok(8u16))
    } else {
        (c1, Err(CpuError::UnknownPrefixedOpcode { opcode: op2, cpu: c1 }))
    }
}

/// One decoded instruction of the 0x00-0x3F region, after the opcode fetch:
/// 16-bit immediate loads, register and memory increments and decrements,
/// rotates, relative jumps and the moves through the register pairs.
pub open spec fn low_apply(cpu: CPU, mem: Seq<u8>, op: u8) -> OpOutcome {
    let imm = mem[cpu.pc as int];
    let c1 = fetched(cpu);
    let imm2 = mem[c1.pc as int];
    let c2 = fetched(c1);
    let hl = word(cpu.h, cpu.l);
    if op == 0x00 {
        op_ok(cpu, mem, 4)
    } else if op == 0x01 {
        op_ok(CPU { c: imm, b: imm2, ..c2 }, mem, 12)
    } else if op == 0x02 {
        op_ok(cpu, spec_write(mem, word(cpu.b, cpu.c), cpu.acc), 8)
    } else if op == 0x03 {
        op_ok(
            CPU {
                b: hi_byte(word_inc(word(cpu.b, cpu.c))),
                c: lo_byte(word_inc(word(cpu.b, cpu.c))),
                ..cpu
            },
            mem,
            8,
        )
    } else if op == 0x04 {
        op_ok(apply_inc8(cpu, Reg::B), mem, 4)
    } else if op == 0x05 {
        op_ok(apply_dec8(cpu, Reg::B), mem, 4)
    } else if op == 0x06 {
        op_ok(with_reg(c1, Reg::B, imm), mem, 8)
    } else if op == 0x07 {
        op_ok(apply_rlca(cpu), mem, 4)
    } else if op == 0x0A {
        op_ok(CPU { acc: mem[word(cpu.b, cpu.c) as int], ..cpu }, mem, 8)
    } else if op == 0x0B {
        op_ok(
            CPU {
                b: hi_byte(word_dec(word(cpu.b, cpu.c))),
                c: lo_byte(word_dec(word(cpu.b, cpu.c))),
                ..cpu
            },
            mem,
            8,
        )
    } else if op == 0x0C {
        op_ok(apply_inc8(cpu, Reg::C), mem, 4)
    } else if op == 0x0D {
        op_ok(apply_dec8(cpu, Reg::C), mem, 4)
    } else if op == 0x0E {
        op_ok(with_reg(c1, Reg::C, imm), mem, 8)
    } else if op == 0x10 {
        op_fail(c1, mem, CpuError::Stopped { cpu: c1 })
    } else if op == 0x11 {
        op_ok(CPU { e: imm, d: imm2, ..c2 }, mem, 12)
    } else if op == 0x12 {
        op_ok(cpu, spec_write(mem, word(cpu.d, cpu.e), cpu.acc), 8)
    } else if op == 0x13 {
        op_ok(
            CPU {
                d: hi_byte(word_inc(word(cpu.d, cpu.e))),
                e: lo_byte(word_inc(word(cpu.d, cpu.e))),
                ..cpu
            },
            mem,
            8,
        )
    } else if op == 0x14 {
        op_ok(apply_inc8(cpu, Reg::D), mem, 4)
    } else if op == 0x15 {
        op_ok(apply_dec8(cpu, Reg::D), mem, 4)
    } else if op == 0x16 {
        op_ok(with_reg(c1, Reg::D, imm), mem, 8)
    } else if op == 0x17 {
        op_ok(apply_rl(cpu, Reg::A), mem, 4)
    } else if op == 0x18 {
        op_ok(apply_jr(cpu, mem, true), mem, 12)
    } else if op == 0x1A {
        op_ok(CPU { acc: mem[word(cpu.d, cpu.e) as int], ..cpu }, mem, 8)
    } else if op == 0x1B {
        op_ok(
            CPU {
                d: hi_byte(word_dec(word(cpu.d, cpu.e))),
                e: lo_byte(word_dec(word(cpu.d, cpu.e))),
                ..cpu
            },
            mem,
            8,
        )
    } else if op == 0x1C {
        op_ok(apply_inc8(cpu, Reg::E), mem, 4)
    } else if op == 0x1D {
        op_ok(apply_dec8(cpu, Reg::E), mem, 4)
    } else if op == 0x1E {
        op_ok(with_reg(c1, Reg::E, imm), mem, 8)
    } else if op == 0x20 {
        op_ok(
            apply_jr(cpu, mem, !cpu.flag.z_zero),
            mem,
            if !cpu.flag.z_zero {
                12u16
            } else {
                8u16
            },
        )
    } else if op == 0x21 {
        op_ok(CPU { l: imm, h: imm2, ..c2 }, mem, 12)
    } else if op == 0x22 {
        let m2 = spec_write(mem, hl, cpu.acc);
        if hl == 0xFFFF {
            op_fail(cpu, m2, CpuError::AddressBound { opcode: 0x22, cpu })
        } else {
            op_ok(
                CPU { h: hi_byte((hl + 1) as u16), l: lo_byte((hl + 1) as u16), ..cpu },
                m2,
                8,
            )
        }
    } else if op == 0x23 {
        op_ok(CPU { h: hi_byte(word_inc(hl)), l: lo_byte(word_inc(hl)), ..cpu }, mem, 8)
    } else if op == 0x24 {
        op_ok(apply_inc8(cpu, Reg::H), mem, 4)
    } else if op == 0x25 {
        op_ok(apply_dec8(cpu, Reg::H), mem, 4)
    } else if op == 0x26 {
        op_ok(with_reg(c1, Reg::H, imm), mem, 8)
    } else if op == 0x28 {
        op_ok(
            apply_jr(cpu, mem, cpu.flag.z_zero),
            mem,
            if cpu.flag.z_zero {
                12u16
            } else {
                8u16
            },
        )
    } else if op == 0x2A {
        let ca = CPU { acc: mem[hl as int], ..cpu };
        if hl == 0xFFFF {
            op_fail(ca, mem, CpuError::AddressBound { opcode: 0x2A, cpu: ca })
        } else {
            op_ok(CPU { h: hi_byte((hl + 1) as u16), l: lo_byte((hl + 1) as u16), ..ca }, mem, 8)
        }
    } else if op == 0x2B {
        op_ok(CPU { h: hi_byte(word_dec(hl)), l: lo_byte(word_dec(hl)), ..cpu }, mem, 8)
    } else if op == 0x2C {
        op_ok(apply_inc8(cpu, Reg::L), mem, 4)
    } else if op == 0x2D {
        op_ok(apply_dec8(cpu, Reg::L), mem, 4)
    } else if op == 0x2E {
        op_ok(with_reg(c1, Reg::L, imm), mem, 8)
    } else if op == 0x30 {
        op_ok(
            apply_jr(cpu, mem, !cpu.flag.c_carry),
            mem,
            if !cpu.flag.c_carry {
                12u16
            } else {
                8u16
            },
        )
    } else if op == 0x31 {
        op_ok(CPU { sp: word(imm2, imm), ..c2 }, mem, 12)
    } else if op == 0x32 {
        let m2 = spec_write(mem, hl, cpu.acc);
        if hl == 0 {
            op_fail(cpu, m2, CpuError::AddressBound { opcode: 0x32, cpu })
        } else {
            op_ok(
                CPU { h: hi_byte((hl - 1) as u16), l: lo_byte((hl - 1) as u16), ..cpu },
                m2,
                8,
            )
        }
    } else if op == 0x33 {
        op_ok(CPU { sp: word_inc(cpu.sp), ..cpu }, mem, 8)
    } else if op == 0x34 {
        let v = mem[hl as int];
        op_ok(CPU { flag: inc_flags(cpu.flag, v), ..cpu }, spec_write(mem, hl, inc8(v)), 12)
    } else if op == 0x35 {
        let v = mem[hl as int];
        op_ok(CPU { flag: dec_flags(cpu.flag, v), ..cpu }, spec_write(mem, hl, dec8(v)), 12)
    } else if op == 0x36 {
        op_ok(c1, spec_write(mem, hl, imm), 12)
    } else if op == 0x38 {
        op_ok(
            apply_jr(cpu, mem, cpu.flag.c_carry),
            mem,
            if cpu.flag.c_carry {
                12u16
            } else {
                8u16
            },
        )
    } else if op == 0x3A {
        let ca = CPU { acc: mem[hl as int], ..cpu };
        if hl == 0 {
            op_fail(ca, mem, CpuError::AddressBound { opcode: 0x3A, cpu: ca })
        } else {
            op_ok(CPU { h: hi_byte((hl - 1) as u16), l: lo_byte((hl - 1) as u16), ..ca }, mem, 8)
        }
    } else if op == 0x3B {
        op_ok(CPU { sp: word_dec(cpu.sp), ..cpu }, mem, 8)
    } else if op == 0x3C {
        op_ok(apply_inc8(cpu, Reg::A), mem, 4)
    } else if op == 0x3D {
        op_ok(apply_dec8(cpu, Reg::A), mem, 4)
    } else if op == 0x3E {
        op_ok(with_reg(c1, Reg::A, imm), mem, 8)
    } else {
        op_fail(cpu, mem, CpuError::UnknownOpcode { opcode: op, cpu })
    }
}

/// One decoded instruction of the move block 0x40-0x7F, after the opcode
/// fetch: register-to-register copies and the moves through HL, with HALT
/// in the middle of the block as a fatal condition.
pub open spec fn block_apply(cpu: CPU, mem: Seq<u8>, op: u8) -> OpOutcome {
    if op == 0x76 {
        op_fail(cpu, mem, CpuError::Halted { cpu })
    } else {
        let src = (op % 8) as int;
        let dst = (op - 0x40) / 8;
        let hl = word(cpu.h, cpu.l);
        if src == 6 {
            op_ok(with_reg(cpu, idx_reg(dst), mem[hl as int]), mem, 8)
        } else if dst == 6 {
            op_ok(cpu, spec_write(mem, hl, reg_val(cpu, idx_reg(src))), 8)
        } else {
            op_ok(with_reg(cpu, idx_reg(dst), reg_val(cpu, idx_reg(src))), mem, 4)
        }
    }
}

/// One decoded instruction of the 0x80-0xBF region, after the opcode
/// fetch: the self-XOR idiom and the compares.
pub open spec fn alu_apply(cpu: CPU, mem: Seq<u8>, op: u8) -> OpOutcome {
    if op == 0xA8 {
        op_ok(apply_self_xor(cpu, Reg::B), mem, 4)
    } else if op == 0xA9 {
        op_ok(apply_self_xor(cpu, Reg::C), mem, 4)
    } else if op == 0xAA {
        op_ok(apply_self_xor(cpu, Reg::D), mem, 4)
    } else if op == 0xAB {
        op_ok(apply_self_xor(cpu, Reg::E), mem, 4)
    } else if op == 0xAC {
        op_ok(apply_self_xor(cpu, Reg::H), mem, 4)
    } else if op == 0xAD {
        op_ok(apply_self_xor(cpu, Reg::L), mem, 4)
    } else if op == 0xAF {
        op_ok(apply_self_xor(cpu, Reg::A), mem, 4)
    } else if op == 0xB8 {
        op_ok(CPU { flag: cp_flags(cpu.acc, cpu.b), ..cpu }, mem, 4)
    } else if op == 0xB9 {
        op_ok(CPU { flag: cp_flags(cpu.acc, cpu.c), ..cpu }, mem, 4)
    } else if op == 0xBA {
        op_ok(CPU { flag: cp_flags(cpu.acc, cpu.d), ..cpu }, mem, 4)
    } else if op == 0xBB {
        op_ok(CPU { flag: cp_flags(cpu.acc, cpu.e), ..cpu }, mem, 4)
    } else if op == 0xBC {
        op_ok(CPU { flag: cp_flags(cpu.acc, cpu.h), ..cpu }, mem, 4)
    } else if op == 0xBD {
        op_ok(CPU { flag: cp_flags(cpu.acc, cpu.l), ..cpu }, mem, 4)
    } else if op == 0xBE {
        op_ok(CPU { flag: cp_flags(cpu.acc, mem[word(cpu.h, cpu.l) as int]), ..cpu }, mem, 8)
    } else if op == 0xBF {
        op_ok(CPU { flag: cp_flags(cpu.acc, cpu.acc), ..cpu }, mem, 4)
    } else {
        op_fail(cpu, mem, CpuError::UnknownOpcode { opcode: op, cpu })
    }
}

/// One decoded instruction of the 0xC0-0xFF region, after the opcode
/// fetch: calls, returns, the BC stack pair, the prefixed table, the
/// high-page loads, interrupt enable and disable, and CP with an
/// immediate.
pub open spec fn high_apply(cpu: CPU, mem: Seq<u8>, op: u8) -> OpOutcome {
    let imm = mem[cpu.pc as int];
    let c1 = fetched(cpu);
    let imm2 = mem[c1.pc as int];
    let c2 = fetched(c1);
    if op == 0xC1 {
        let p = pop_bc_apply(cpu, mem);
        match p.1 {
            Ok(_) => op_ok(p.0, mem, 12),
            Err(e) => op_fail(p.0, mem, e),
        }
    } else if op == 0xC4 {
        call_outcome(cpu, mem, !cpu.flag.z_zero, 24, 12)
    } else if op == 0xC5 {
        let p = push_bc_apply(cpu, mem);
        match p.2 {
            Ok(_) => op_ok(p.0, p.1, 16),
            Err(e) => op_fail(p.0, p.1, e),
        }
    } else if op == 0xC9 {
        let p = ret_apply(cpu, mem);
        match p.1 {
            Ok(_) => op_ok(p.0, mem, 16),
            Err(e) => op_fail(p.0, mem, e),
        }
    } else if op == 0xCB {
        let p = prefixed_apply(cpu, mem);
        match p.1 {
            Ok(d) => op_ok(p.0, mem, (4 + d) as u16),
            Err(e) => op_fail(p.0, mem, e),
        }
    } else if op == 0xCC {
        call_outcome(cpu, mem, cpu.flag.z_zero, 24, 12)
    } else if op == 0xCD {
        call_outcome(cpu, mem, true, 24, 12)
    } else if op == 0xD4 {
        call_outcome(cpu, mem, !cpu.flag.c_carry, 24, 12)
    } else if op == 0xDC {
        call_outcome(cpu, mem, cpu.flag.c_carry, 24, 12)
    } else if op == 0xE0 {
        op_ok(c1, spec_write(mem, (0xFF00 + imm) as u16, cpu.acc), 12)
    } else if op == 0xE2 {
        op_ok(cpu, spec_write(mem, (0xFF00 + cpu.c) as u16, cpu.acc), 8)
    } else if op == 0xEA {
        op_ok(c2, spec_write(mem, word(imm2, imm), cpu.acc), 16)
    } else if op == 0xF0 {
        op_ok(CPU { acc: mem[0xFF00 + imm], ..c1 }, mem, 12)
    } else if op == 0xF3 {
        op_ok(CPU { interrupts_enabled: false, ..cpu }, mem, 4)
    } else if op == 0xFB {
        op_ok(CPU { interrupts_enabled: true, ..cpu }, mem, 4)
    } else if op == 0xFE {
        op_ok(CPU { flag: cp_flags(cpu.acc, imm), ..c1 }, mem, 8)
    } else {
        op_fail(cpu, mem, CpuError::UnknownOpcode { opcode: op, cpu })
    }
}

/// A CALL with its duration resolved from the branch outcome: the extra
/// cycles are charged only when the call is taken.
pub open spec fn call_outcome(
    cpu: CPU,
    mem: Seq<u8>,
    cond: bool,
    taken: u16,
    not_taken: u16,
) -> OpOutcome {
    let a = call_apply(cpu, mem, cond);
    match a.2 {
        Ok(_) => op_ok(
            a.0,
            a.1,
            if cond {
                taken
            } else {
                not_taken
            },
        ),
        Err(e) => op_fail(a.0, a.1, e),
    }
}

/// One decoded instruction anywhere in the primary table, after the opcode
/// fetch.
pub open spec fn main_apply(cpu: CPU, mem: Seq<u8>, op: u8) -> OpOutcome {
    if op < 0x40 {
        low_apply(cpu, mem, op)
    } else if op < 0x80 {
        block_apply(cpu, mem, op)
    } else if op < 0xC0 {
        alu_apply(cpu, mem, op)
    } else {
        high_apply(cpu, mem, op)
    }
}

/// One full instruction step from a register state and a memory image: the
/// state and memory left behind, the cycles reported to the bus, and the
/// result handed to the driving loop. On success the instruction's cycle
/// cost is also folded into the running cycle counter.
pub struct Step {
    pub cpu: CPU,
    pub mem: Seq<u8>,
    pub cycles: u16,
    pub res: Result<(), CpuError>,
}

/// The meaning of one call of `next_instruction`.
pub open spec fn step_spec(cpu0: CPU, mem: Seq<u8>) -> Step {
    let op = mem[cpu0.pc as int];
    let a = main_apply(fetched(cpu0), mem, op);
    match a.err {
        None => Step {
            cpu: CPU { cycle: sat_add64(a.cpu.cycle, a.cycles as u64), ..a.cpu },
            mem: a.mem,
            cycles: a.cycles,
            res: Ok(()),
        },
        Some(e) => Step { cpu: a.cpu, mem: a.mem, cycles: 0, res: Err(e) },
    }
}

/// PUSH BC followed by POP BC restores B, C and the stack pointer, from
/// every state whose stack pointer has room for two bytes inside the
/// reserved window.
pub proof fn lemma_push_pop_roundtrip(cpu: CPU, mem: Seq<u8>)
    requires
        mem.len() == MEM_SIZE,
        STACK_BOTTOM + 2 <= cpu.sp <= STACK_TOP,
    ensures
        ({
            let p = push_bc_apply(cpu, mem);
            let q = pop_bc_apply(p.0, p.1);
            &&& p.2 is Ok
            &&& q.1 is Ok
            &&& q.0.b == cpu.b
            &&& q.0.c == cpu.c
            &&& q.0.sp == cpu.sp
        }),
{
}

/// CALL pushes the address immediately following the 3-byte call
/// instruction, so a subsequent RET resumes exactly there, from every state
/// whose stack pointer has room for the return address.
pub proof fn lemma_call_ret_roundtrip(cpu: CPU, mem: Seq<u8>)
    requires
        mem.len() == MEM_SIZE,
        STACK_BOTTOM + 2 <= cpu.sp <= STACK_TOP,
    ensures
        ({
            let a = call_apply(cpu, mem, true);
            let p = ret_apply(a.0, a.1);
            &&& a.2 is Ok
            &&& p.1 is Ok
            &&& p.0.pc == fetched(fetched(cpu)).pc
            &&& p.0.sp == cpu.sp
        }),
{
    let c2 = fetched(fetched(cpu));
    assert(c2.pc / 256 * 256 + c2.pc % 256 == c2.pc);
}

/// The register named by a three-bit index of the move block; index 6 is
/// the memory operand and is excluded.
fn reg_from_index(i: u8) -> (r: Reg)
    requires
        i <= 7,
        i != 6,
    ensures
        r == idx_reg(i as int),
{
    if i == 0 {
        Reg::B
    } else if i == 1 {
        Reg::C
    } else if i == 2 {
        Reg::D
    } else if i == 3 {
        Reg::E
    } else if i == 4 {
        Reg::H
    } else if i == 5 {
        Reg::L
    } else {
        Reg::A
    }
}


impl CPU {
    /// Sets the compare flags of the accumulator against `v`.
    fn exec_cp(&mut self, v: u8)
        ensures
            (*final(self) == CPU { flag: cp_flags(old(self).acc, v), ..*old(self) }),
    {
        self.flag = Flags {
            z_zero: self.acc == v,
            n_substract: true,
            h_half_carry: self.acc % 16 < v % 16,
            c_carry: self.acc < v,
        };
    }

    /// INC of the named register, with its flag effects.
    fn exec_inc_r(&mut self, r: Reg)
        ensures
            *final(self) == apply_inc8(*old(self), r),
    {
        let v = self.get_reg(r);
        self.flag = Flags {
            z_zero: v == 0xFF,
            n_substract: false,
            h_half_carry: v % 16 == 15,
            c_carry: self.flag.c_carry,
        };
        let nv = if v == 0xFF {
            0
        } else {
            v + 1
        };
        self.set_reg(r, nv);
    }

    /// DEC of the named register, with its flag effects.
    fn exec_dec_r(&mut self, r: Reg)
        ensures
            *final(self) == apply_dec8(*old(self), r),
    {
        let v = self.get_reg(r);
        self.flag = Flags {
            z_zero: v == 1,
            n_substract: true,
            h_half_carry: v % 16 == 0,
            c_carry: self.flag.c_carry,
        };
        let nv = if v == 0 {
            0xFF
        } else {
            v - 1
        };
        self.set_reg(r, nv);
    }

    /// The self-XOR idiom on the named register: zero the register and set
    /// the zero flag.
    fn exec_xor_r(&mut self, r: Reg)
        ensures
            *final(self) == apply_self_xor(*old(self), r),
    {
        self.flag.z_zero = true;
        self.set_reg(r, 0);
    }

    /// Rotate-left-through-carry of the named register.
    fn exec_rl_r(&mut self, r: Reg)
        ensures
            *final(self) == apply_rl(*old(self), r),
    {
        let v = self.get_reg(r);
        let carry_in: u16 = if self.flag.c_carry {
            1
        } else {
            0
        };
        let nv = (((v as u16) * 2 + carry_in) % 256) as u8;
        self.flag = Flags {
            z_zero: nv == 0,
            n_substract: false,
            h_half_carry: false,
            c_carry: v >= 0x80,
        };
        self.set_reg(r, nv);
    }

    /// Rotate-left-circular of the accumulator.
    fn exec_rlca(&mut self)
        ensures
            *final(self) == apply_rlca(*old(self)),
    {
        let v = self.acc;
        let nv = (((v as u16) * 2 + (v as u16) / 128) % 256) as u8;
        self.flag = Flags {
            z_zero: nv == 0,
            n_substract: false,
            h_half_carry: false,
            c_carry: v >= 0x80,
        };
        self.acc = nv;
    }

    /// BIT 7,H of the prefixed table.
    fn exec_bit7_h(&mut self)
        ensures
            *final(self) == apply_bit7_h(*old(self)),
    {
        self.flag = Flags {
            z_zero: self.h < 0x80,
            n_substract: false,
            h_half_carry: true,
            c_carry: self.flag.c_carry,
        };
    }

    /// A relative jump: the displacement byte is always consumed; the jump
    /// is taken only when the condition holds.
    fn exec_jr(&mut self, bus: &Bus, cond: bool)
        requires
            bus.wf(),
        ensures
            *final(self) == apply_jr(*old(self), bus.mem@, cond),
    {
        let d = self.read_byte(bus);
        if cond {
            let s: i32 = if d >= 128 {
                (d as i32) - 256
            } else {
                d as i32
            };
            let t: i32 = (self.pc as i32) + s;
            self.pc = if t < 0 {
                (t + 0x10000) as u16
            } else if t >= 0x10000 {
                (t - 0x10000) as u16
            } else {
                t as u16
            };
        }
    }

    /// A CALL: the 16-bit target is always consumed, low byte first; when
    /// the condition holds, the post-operand program counter is pushed high
    /// byte first and the jump is taken.
    fn exec_call(&mut self, bus: &mut Bus, cond: bool) -> (r: Result<(), CpuError>)
        requires
            old(bus).wf(),
        ensures
            final(bus).wf(),
            final(bus).timer == old(bus).timer,
            ({
                let a = call_apply(*old(self), old(bus).mem@, cond);
                &&& *final(self) == a.0
                &&& final(bus).mem@ == a.1
                &&& r == a.2
            }),
    {
        let lh = self.read_low_high(bus);
        if cond {
            let ret_addr = u16_to_hi_lo(self.pc);
            match self.stack_push(ret_addr.0, bus) {
                Ok(_) => {},
                Err(e) => {
                    return Err(e);
                },
            }
            match self.stack_push(ret_addr.1, bus) {
                Ok(_) => {},
                Err(e) => {
                    return Err(e);
                },
            }
            self.pc = hi_lo_to_u16(lh.1, lh.0);
        }
        Ok(())
    }

    /// Fetches the second opcode byte and dispatches through the prefixed
    /// table; on success, returns the prefixed opcode's own cycle cost.
    fn exec_prefixed_instruction(&mut self, bus: &Bus) -> (r: Result<u16, CpuError>)
        requires
            bus.wf(),
        ensures
            ({
                let p = prefixed_apply(*old(self), bus.mem@);
                &&& *final(self) == p.0
                &&& r == p.1
            }),
    {
        let real_opcode = self.read_opcode(bus);
        match real_opcode {
            0x11 => {
                self.exec_rl_r(Reg::C);
                Ok(8)
            },
            0x7C => {
                self.exec_bit7_h();
                Ok(8)
            },
            _ => Err(CpuError::UnknownPrefixedOpcode { opcode: real_opcode, cpu: *self }),
        }
    }

    /// Dispatch over the 0x00-0x1F region of the primary table.
    #[verifier::rlimit(100)]
    #[verifier::spinoff_prover]
    fn exec_low_a(&mut self, op: u8, bus: &mut Bus) -> (r: Result<u16, CpuError>)
        requires
            old(bus).wf(),
            op < 0x20,
        ensures
            final(bus).wf(),
            final(bus).timer == old(bus).timer,
            ({
                let a = low_apply(*old(self), old(bus).mem@, op);
                &&& *final(self) == a.cpu
                &&& final(bus).mem@ == a.mem
                &&& (match a.err {
                    None => r == Ok::<u16, CpuError>(a.cycles),
                    Some(e) => r == Err::<u16, CpuError>(e),
                })
            }),
    {
        match op {
            0x00 => Ok(4),
            0x01 => {
                let lh = self.read_low_high(bus);
                self.c = lh.0;
                self.b = lh.1;
                Ok(12)
            },
            0x02 => {
                let addr = hi_lo_to_u16(self.b, self.c);
                bus.write_byte(addr, self.acc);
                Ok(8)
            },
            0x03 => {
                let p = inc_dd(self.b, self.c);
                self.b = p.0;
                self.c = p.1;
                Ok(8)
            },
            0x04 => {
                self.exec_inc_r(Reg::B);
                Ok(4)
            },
            0x05 => {
                self.exec_dec_r(Reg::B);
                Ok(4)
            },
            0x06 => {
                let v = self.read_byte(bus);
                self.b = v;
                Ok(8)
            },
            0x07 => {
                self.exec_rlca();
                Ok(4)
            },
            0x0A => {
                let addr = hi_lo_to_u16(self.b, self.c);
                self.acc = bus.read_byte(addr);
                Ok(8)
            },
            0x0B => {
                let p = dec_dd(self.b, self.c);
                self.b = p.0;
                self.c = p.1;
                Ok(8)
            },
            0x0C => {
                self.exec_inc_r(Reg::C);
                Ok(4)
            },
            0x0D => {
                self.exec_dec_r(Reg::C);
                Ok(4)
            },
            0x0E => {
                let v = self.read_byte(bus);
                self.c = v;
                Ok(8)
            },
            0x10 => {
                let _ = self.read_byte(bus);
                Err(CpuError::Stopped { cpu: *self })
            },
            0x11 => {
                let lh = self.read_low_high(bus);
                self.e = lh.0;
                self.d = lh.1;
                Ok(12)
            },
            0x12 => {
                let addr = hi_lo_to_u16(self.d, self.e);
                bus.write_byte(addr, self.acc);
                Ok(8)
            },
            0x13 => {
                let p = inc_dd(self.d, self.e);
                self.d = p.0;
                self.e = p.1;
                Ok(8)
            },
            0x14 => {
                self.exec_inc_r(Reg::D);
                Ok(4)
            },
            0x15 => {
                self.exec_dec_r(Reg::D);
                Ok(4)
            },
            0x16 => {
                let v = self.read_byte(bus);
                self.d = v;
                Ok(8)
            },
            0x17 => {
                self.exec_rl_r(Reg::A);
                Ok(4)
            },
            0x18 => {
                self.exec_jr(bus, true);
                Ok(12)
            },
            0x1A => {
                let addr = hi_lo_to_u16(self.d, self.e);
                self.acc = bus.read_byte(addr);
                Ok(8)
            },
            0x1B => {
                let p = dec_dd(self.d, self.e);
                self.d = p.0;
                self.e = p.1;
                Ok(8)
            },
            0x1C => {
                self.exec_inc_r(Reg::E);
                Ok(4)
            },
            0x1D => {
                self.exec_dec_r(Reg::E);
                Ok(4)
            },
            0x1E => {
                let v = self.read_byte(bus);
                self.e = v;
                Ok(8)
            },
            _ => Err(CpuError::UnknownOpcode { opcode: op, cpu: *self }),
        }
    }

    /// Dispatch over the 0x20-0x2F region of the primary table.
    #[verifier::rlimit(100)]
    #[verifier::spinoff_prover]
    fn exec_low_b(&mut self, op: u8, bus: &mut Bus) -> (r: Result<u16, CpuError>)
        requires
            old(bus).wf(),
            0x20 <= op < 0x30,
        ensures
            final(bus).wf(),
            final(bus).timer == old(bus).timer,
            ({
                let a = low_apply(*old(self), old(bus).mem@, op);
                &&& *final(self) == a.cpu
                &&& final(bus).mem@ == a.mem
                &&& (match a.err {
                    None => r == Ok::<u16, CpuError>(a.cycles),
                    Some(e) => r == Err::<u16, CpuError>(e),
                })
            }),
    {
        match op {
            0x20 => {
                let cond = !self.flag.z_zero;
                self.exec_jr(bus, cond);
                Ok(
                    if cond {
                        12
                    } else {
                        8
                    },
                )
            },
            0x21 => {
                let lh = self.read_low_high(bus);
                self.l = lh.0;
                self.h = lh.1;
                Ok(12)
            },
            0x22 => {
                let addr = hi_lo_to_u16(self.h, self.l);
                bus.write_byte(addr, self.acc);
                if addr == 0xFFFF {
                    Err(CpuError::AddressBound { opcode: 0x22, cpu: *self })
                } else {
                    let p = u16_to_hi_lo(addr + 1);
                    self.h = p.0;
                    self.l = p.1;
                    Ok(8)
                }
            },
            0x23 => {
                let p = inc_dd(self.h, self.l);
                self.h = p.0;
                self.l = p.1;
                Ok(8)
            },
            0x24 => {
                self.exec_inc_r(Reg::H);
                Ok(4)
            },
            0x25 => {
                self.exec_dec_r(Reg::H);
                Ok(4)
            },
            0x26 => {
                let v = self.read_byte(bus);
                self.h = v;
                Ok(8)
            },
            0x28 => {
                let cond = self.flag.z_zero;
                self.exec_jr(bus, cond);
                Ok(
                    if cond {
                        12
                    } else {
                        8
                    },
                )
            },
            0x2A => {
                let addr = hi_lo_to_u16(self.h, self.l);
                self.acc = bus.read_byte(addr);
                if addr == 0xFFFF {
                    Err(CpuError::AddressBound { opcode: 0x2A, cpu: *self })
                } else {
                    let p = u16_to_hi_lo(addr + 1);
                    self.h = p.0;
                    self.l = p.1;
                    Ok(8)
                }
            },
            0x2B => {
                let p = dec_dd(self.h, self.l);
                self.h = p.0;
                self.l = p.1;
                Ok(8)
            },
            0x2C => {
                self.exec_inc_r(Reg::L);
                Ok(4)
            },
            0x2D => {
                self.exec_dec_r(Reg::L);
                Ok(4)
            },
            0x2E => {
                let v = self.read_byte(bus);
                self.l = v;
                Ok(8)
            },
            _ => Err(CpuError::UnknownOpcode { opcode: op, cpu: *self }),
        }
    }

    /// Dispatch over the 0x30-0x3F region of the primary table.
    #[verifier::rlimit(100)]
    #[verifier::spinoff_prover]
    fn exec_low_c(&mut self, op: u8, bus: &mut Bus) -> (r: Result<u16, CpuError>)
        requires
            old(bus).wf(),
            0x30 <= op < 0x40,
        ensures
            final(bus).wf(),
            final(bus).timer == old(bus).timer,
            ({
                let a = low_apply(*old(self), old(bus).mem@, op);
                &&& *final(self) == a.cpu
                &&& final(bus).mem@ == a.mem
                &&& (match a.err {
                    None => r == Ok::<u16, CpuError>(a.cycles),
                    Some(e) => r == Err::<u16, CpuError>(e),
                })
            }),
    {
        match op {
            0x30 => {
                let cond = !self.flag.c_carry;
                self.exec_jr(bus, cond);
                Ok(
                    if cond {
                        12
                    } else {
                        8
                    },
                )
            },
            0x31 => {
                let lh = self.read_low_high(bus);
                self.sp = hi_lo_to_u16(lh.1, lh.0);
                Ok(12)
            },
            0x32 => {
                let addr = hi_lo_to_u16(self.h, self.l);
                bus.write_byte(addr, self.acc);
                if addr == 0 {
                    Err(CpuError::AddressBound { opcode: 0x32, cpu: *self })
                } else {
                    let p = u16_to_hi_lo(addr - 1);
                    self.h = p.0;
                    self.l = p.1;
                    Ok(8)
                }
            },
            0x33 => {
                self.sp = if self.sp == 0xFFFF {
                    0
                } else {
                    self.sp + 1
                };
                Ok(8)
            },
            0x34 => {
                let addr = hi_lo_to_u16(self.h, self.l);
                let v = bus.read_byte(addr);
                self.flag = Flags {
                    z_zero: v == 0xFF,
                    n_substract: false,
                    h_half_carry: v % 16 == 15,
                    c_carry: self.flag.c_carry,
                };
                let nv = if v == 0xFF {
                    0
                } else {
                    v + 1
                };
                bus.write_byte(addr, nv);
                Ok(12)
            },
            0x35 => {
                let addr = hi_lo_to_u16(self.h, self.l);
                let v = bus.read_byte(addr);
                self.flag = Flags {
                    z_zero: v == 1,
                    n_substract: true,
                    h_half_carry: v % 16 == 0,
                    c_carry: self.flag.c_carry,
                };
                let nv = if v == 0 {
                    0xFF
                } else {
                    v - 1
                };
                bus.write_byte(addr, nv);
                Ok(12)
            },
            0x36 => {
                let v = self.read_byte(bus);
                let addr = hi_lo_to_u16(self.h, self.l);
                bus.write_byte(addr, v);
                Ok(12)
            },
            0x38 => {
                let cond = self.flag.c_carry;
                self.exec_jr(bus, cond);
                Ok(
                    if cond {
                        12
                    } else {
                        8
                    },
                )
            },
            0x3A => {
                let addr = hi_lo_to_u16(self.h, self.l);
                self.acc = bus.read_byte(addr);
                if addr == 0 {
                    Err(CpuError::AddressBound { opcode: 0x3A, cpu: *self })
                } else {
                    let p = u16_to_hi_lo(addr - 1);
                    self.h = p.0;
                    self.l = p.1;
                    Ok(8)
                }
            },
            0x3B => {
                self.sp = if self.sp == 0 {
                    0xFFFF
                } else {
                    self.sp - 1
                };
                Ok(8)
            },
            0x3C => {
                self.exec_inc_r(Reg::A);
                Ok(4)
            },
            0x3D => {
                self.exec_dec_r(Reg::A);
                Ok(4)
            },
            0x3E => {
                let v = self.read_byte(bus);
                self.acc = v;
                Ok(8)
            },
            _ => Err(CpuError::UnknownOpcode { opcode: op, cpu: *self }),
        }
    }

    /// Dispatch over the move block 0x40-0x7F: a single decode path driven
    /// by the source and destination register indices of the opcode byte.
    #[verifier::rlimit(100)]
    #[verifier::spinoff_prover]
    fn exec_block(&mut self, op: u8, bus: &mut Bus) -> (r: Result<u16, CpuError>)
        requires
            old(bus).wf(),
            0x40 <= op < 0x80,
        ensures
            final(bus).wf(),
            final(bus).timer == old(bus).timer,
            ({
                let a = block_apply(*old(self), old(bus).mem@, op);
                &&& *final(self) == a.cpu
                &&& final(bus).mem@ == a.mem
                &&& (match a.err {
                    None => r == Ok::<u16, CpuError>(a.cycles),
                    Some(e) => r == Err::<u16, CpuError>(e),
                })
            }),
    {
        if op == 0x76 {
            return Err(CpuError::Halted { cpu: *self });
        }
        let src_i = op % 8;
        let dst_i = (op - 0x40) / 8;
        if src_i == 6 {
            let addr = hi_lo_to_u16(self.h, self.l);
            let v = bus.read_byte(addr);
            let rdst = reg_from_index(dst_i);
            self.set_reg(rdst, v);
            Ok(8)
        } else {
            let rsrc = reg_from_index(src_i);
            let v = self.get_reg(rsrc);
            if dst_i == 6 {
                let addr = hi_lo_to_u16(self.h, self.l);
                bus.write_byte(addr, v);
                Ok(8)
            } else {
                let rdst = reg_from_index(dst_i);
                self.set_reg(rdst, v);
                Ok(4)
            }
        }
    }

    /// Dispatch over the 0x80-0xBF region: the self-XOR idiom and the
    /// compares.
    #[verifier::rlimit(100)]
    #[verifier::spinoff_prover]
    fn exec_alu(&mut self, op: u8, bus: &mut Bus) -> (r: Result<u16, CpuError>)
        requires
            old(bus).wf(),
            0x80 <= op < 0xC0,
        ensures
            final(bus).wf(),
            *final(bus) == *old(bus),
            ({
                let a = alu_apply(*old(self), old(bus).mem@, op);
                &&& *final(self) == a.cpu
                &&& final(bus).mem@ == a.mem
                &&& (match a.err {
                    None => r == Ok::<u16, CpuError>(a.cycles),
                    Some(e) => r == Err::<u16, CpuError>(e),
                })
            }),
    {
        match op {
            0xA8 => {
                self.exec_xor_r(Reg::B);
                Ok(4)
            },
            0xA9 => {
                self.exec_xor_r(Reg::C);
                Ok(4)
            },
            0xAA => {
                self.exec_xor_r(Reg::D);
                Ok(4)
            },
            0xAB => {
                self.exec_xor_r(Reg::E);
                Ok(4)
            },
            0xAC => {
                self.exec_xor_r(Reg::H);
                Ok(4)
            },
            0xAD => {
                self.exec_xor_r(Reg::L);
                Ok(4)
            },
            0xAF => {
                self.exec_xor_r(Reg::A);
                Ok(4)
            },
            0xB8 => {
                let v = self.b;
                self.exec_cp(v);
                Ok(4)
            },
            0xB9 => {
                let v = self.c;
                self.exec_cp(v);
                Ok(4)
            },
            0xBA => {
                let v = self.d;
                self.exec_cp(v);
                Ok(4)
            },
            0xBB => {
                let v = self.e;
                self.exec_cp(v);
                Ok(4)
            },
            0xBC => {
                let v = self.h;
                self.exec_cp(v);
                Ok(4)
            },
            0xBD => {
                let v = self.l;
                self.exec_cp(v);
                Ok(4)
            },
            0xBE => {
                let addr = hi_lo_to_u16(self.h, self.l);
                let v = bus.read_byte(addr);
                self.exec_cp(v);
                Ok(8)
            },
            0xBF => {
                let v = self.acc;
                self.exec_cp(v);
                Ok(4)
            },
            _ => Err(CpuError::UnknownOpcode { opcode: op, cpu: *self }),
        }
    }

    /// Dispatch over the 0xC0-0xDF region: calls, returns, the BC stack
    /// pair and the prefixed table.
    #[verifier::rlimit(100)]
    #[verifier::spinoff_prover]
    fn exec_high_a(&mut self, op: u8, bus: &mut Bus) -> (r: Result<u16, CpuError>)
        requires
            old(bus).wf(),
            0xC0 <= op < 0xE0,
        ensures
            final(bus).wf(),
            final(bus).timer == old(bus).timer,
            ({
                let a = high_apply(*old(self), old(bus).mem@, op);
                &&& *final(self) == a.cpu
                &&& final(bus).mem@ == a.mem
                &&& (match a.err {
                    None => r == Ok::<u16, CpuError>(a.cycles),
                    Some(e) => r == Err::<u16, CpuError>(e),
                })
            }),
    {
        match op {
            0xC1 => {
                match self.stack_pop(bus) {
                    Ok(v) => {
                        self.c = v;
                    },
                    Err(e) => {
                        return Err(e);
                    },
                }
                match self.stack_pop(bus) {
                    Ok(v) => {
                        self.b = v;
                    },
                    Err(e) => {
                        return Err(e);
                    },
                }
                Ok(12)
            },
            0xC4 => {
                let cond = !self.flag.z_zero;
                match self.exec_call(bus, cond) {
                    Ok(_) => Ok(
                        if cond {
                            24
                        } else {
                            12
                        },
                    ),
                    Err(e) => Err(e),
                }
            },
            0xC5 => {
                let b0 = self.b;
                let c0 = self.c;
                match self.stack_push(b0, bus) {
                    Ok(_) => {},
                    Err(e) => {
                        return Err(e);
                    },
                }
                match self.stack_push(c0, bus) {
                    Ok(_) => {},
                    Err(e) => {
                        return Err(e);
                    },
                }
                Ok(16)
            },
            0xC9 => {
                let vlow = match self.stack_pop(bus) {
                    Ok(v) => v,
                    Err(e) => {
                        return Err(e);
                    },
                };
                let vhigh = match self.stack_pop(bus) {
                    Ok(v) => v,
                    Err(e) => {
                        return Err(e);
                    },
                };
                self.pc = hi_lo_to_u16(vhigh, vlow);
                Ok(16)
            },
            0xCB => {
                match self.exec_prefixed_instruction(bus) {
                    Ok(d) => Ok(4 + d),
                    Err(e) => Err(e),
                }
            },
            0xCC => {
                let cond = self.flag.z_zero;
                match self.exec_call(bus, cond) {
                    Ok(_) => Ok(
                        if cond {
                            24
                        } else {
                            12
                        },
                    ),
                    Err(e) => Err(e),
                }
            },
            0xCD => {
                match self.exec_call(bus, true) {
                    Ok(_) => Ok(24),
                    Err(e) => Err(e),
                }
            },
            0xD4 => {
                let cond = !self.flag.c_carry;
                match self.exec_call(bus, cond) {
                    Ok(_) => Ok(
                        if cond {
                            24
                        } else {
                            12
                        },
                    ),
                    Err(e) => Err(e),
                }
            },
            0xDC => {
                let cond = self.flag.c_carry;
                match self.exec_call(bus, cond) {
                    Ok(_) => Ok(
                        if cond {
                            24
                        } else {
                            12
                        },
                    ),
                    Err(e) => Err(e),
                }
            },
            _ => Err(CpuError::UnknownOpcode { opcode: op, cpu: *self }),
        }
    }

    /// Dispatch over the 0xE0-0xFF region: the high-page loads, interrupt
    /// enable and disable, and CP with an immediate.
    #[verifier::rlimit(100)]
    #[verifier::spinoff_prover]
    fn exec_high_b(&mut self, op: u8, bus: &mut Bus) -> (r: Result<u16, CpuError>)
        requires
            old(bus).wf(),
            0xE0 <= op,
        ensures
            final(bus).wf(),
            final(bus).timer == old(bus).timer,
            ({
                let a = high_apply(*old(self), old(bus).mem@, op);
                &&& *final(self) == a.cpu
                &&& final(bus).mem@ == a.mem
                &&& (match a.err {
                    None => r == Ok::<u16, CpuError>(a.cycles),
                    Some(e) => r == Err::<u16, CpuError>(e),
                })
            }),
    {
        match op {
            0xE0 => {
                let offs = self.read_byte(bus);
                bus.write_byte(0xFF00 + (offs as u16), self.acc);
                Ok(12)
            },
            0xE2 => {
                bus.write_byte(0xFF00 + (self.c as u16), self.acc);
                Ok(8)
            },
            0xEA => {
                let lh = self.read_low_high(bus);
                let addr = hi_lo_to_u16(lh.1, lh.0);
                bus.write_byte(addr, self.acc);
                Ok(16)
            },
            0xF0 => {
                let offs = self.read_byte(bus);
                self.acc = bus.read_byte(0xFF00 + (offs as u16));
                Ok(12)
            },
            0xF3 => {
                self.interrupts_enabled = false;
                Ok(4)
            },
            0xFB => {
                self.interrupts_enabled = true;
                Ok(4)
            },
            0xFE => {
                let v = self.read_byte(bus);
                self.exec_cp(v);
                Ok(8)
            },
            _ => Err(CpuError::UnknownOpcode { opcode: op, cpu: *self }),
        }
    }

    /// One full fetch-decode-execute step: fetches the opcode byte at the
    /// program counter, dispatches through the primary table (and, for the
    /// prefix byte, the secondary table), and on success reports the
    /// instruction's cycle cost - conditional extras resolved from the
    /// branch outcome - to the bus, which forwards it to the timer. Every
    /// fatal condition is returned to the driving loop with the engine and
    /// memory exactly as the failing instruction left them.
    pub fn next_instruction(&mut self, bus: &mut Bus) -> (r: Result<(), CpuError>)
        requires
            old(bus).wf(),
        ensures
            final(bus).wf(),
            ({
                let s = step_spec(*old(self), old(bus).mem@);
                &&& r == s.res
                &&& *final(self) == s.cpu
                &&& final(bus).mem@ == s.mem
                &&& (r is Ok ==> inc_rel(old(bus).timer, final(bus).timer, s.cycles as u64))
                &&& (r is Err ==> final(bus).timer == old(bus).timer)
            }),
    {
        let opcode = self.read_opcode(bus);
        let outcome = if opcode < 0x20 {
            self.exec_low_a(opcode, bus)
        } else if opcode < 0x30 {
            self.exec_low_b(opcode, bus)
        } else if opcode < 0x40 {
            self.exec_low_c(opcode, bus)
        } else if opcode < 0x80 {
            self.exec_block(opcode, bus)
        } else if opcode < 0xC0 {
            self.exec_alu(opcode, bus)
        } else if opcode < 0xE0 {
            self.exec_high_a(opcode, bus)
        } else {
            self.exec_high_b(opcode, bus)
        };
        match outcome {
            Ok(cycles) => {
                self.inc_cycle(cycles as u64);
                bus.register_cycles(cycles);
                Ok(())
            },
            Err(e) => Err(e),
        }
    }
}

} // verus!
