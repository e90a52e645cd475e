//! The byte-addressable view of memory shared by the CPU and the
//! timer-driven peripherals. The bus owns a fixed 64KiB array spanning the
//! whole 16-bit address range and enforces the echo-RAM invariant: every
//! write into the mirrored part of internal RAM, or into its echo range, is
//! repeated at the fixed offset in the other range, so both copies stay
//! identical at all times. Elapsed cycle counts reported after each
//! instruction are forwarded to the attached timer.

use vstd::prelude::*;
use crate::timer::{Timer, inc_rel};

verus! {

/// Number of addressable bytes: the full 16-bit range.
pub const MEM_SIZE: usize = 0x10000;

/// First internal-RAM address that is mirrored into the echo range.
pub const MEM_MAP_INTERNAL_RAM_START: u16 = 0xC000;

/// Last internal-RAM address that is mirrored into the echo range.
pub const MEM_MAP_INTERNAL_RAM_ECHO_END: u16 = 0xDDFF;

/// First address of the echo range.
pub const MEM_MAP_ECHO_OF_INTERNAL_RAM_START: u16 = 0xE000;

/// Last address of the echo range.
pub const MEM_MAP_ECHO_OF_INTERNAL_RAM_END: u16 = 0xFDFF;

/// Fixed delta between the two ranges' start addresses.
pub const MIRROR_DELTA: u16 = 0x2000;

/// Divider register: incremented on every tick of its periodic counter.
pub const REG_DIV: u16 = 0xFF04;

/// Interrupt-flag register.
pub const REG_IF: u16 = 0xFF0F;

/// Display-control register.
pub const REG_LCDC: u16 = 0xFF40;

/// Display-mode status register.
pub const REG_STAT: u16 = 0xFF41;

/// Display line counter register.
pub const REG_LY: u16 = 0xFF44;

/// Interrupt-enable register.
pub const REG_IE: u16 = 0xFFFF;

/// Whether `addr` lies in the mirrored part of the primary internal-RAM
/// range.
pub open spec fn in_primary(addr: u16) -> bool {
    MEM_MAP_INTERNAL_RAM_START <= addr <= MEM_MAP_INTERNAL_RAM_ECHO_END
}

/// Whether `addr` lies in the echo range.
pub open spec fn in_echo(addr: u16) -> bool {
    MEM_MAP_ECHO_OF_INTERNAL_RAM_START <= addr <= MEM_MAP_ECHO_OF_INTERNAL_RAM_END
}

/// The address in the other range that mirrors `addr`.
pub open spec fn mirror_of(addr: u16) -> u16 {
    if in_primary(addr) {
        (addr + MIRROR_DELTA) as u16
    } else if in_echo(addr) {
        (addr - MIRROR_DELTA) as u16
    } else {
        addr
    }
}

/// The echo-RAM invariant: both copies of the mirrored window are identical.
pub open spec fn mirror_ok(mem: Seq<u8>) -> bool {
    forall|a: int|
        MEM_MAP_INTERNAL_RAM_START <= a <= MEM_MAP_INTERNAL_RAM_ECHO_END ==> mem[a]
            == #[trigger] mem[a + MIRROR_DELTA]
}

/// The memory contents after one store through the bus: the byte lands at
/// `addr`, and also at the mirrored offset when `addr` lies in the mirrored
/// internal-RAM window or in its echo range.
pub open spec fn spec_write(mem: Seq<u8>, addr: u16, byte: u8) -> Seq<u8> {
    let direct = mem.update(addr as int, byte);
    if in_primary(addr) {
        direct.update(addr + MIRROR_DELTA, byte)
    } else if in_echo(addr) {
        direct.update(addr - MIRROR_DELTA, byte)
    } else {
        direct
    }
}

/// A write anywhere in the primary window is observable at its echo address,
/// and the reverse also holds, for every address in either range.
pub proof fn lemma_echo_mirror(mem: Seq<u8>, addr: u16, byte: u8)
    requires
        mem.len() == MEM_SIZE,
        in_primary(addr) || in_echo(addr),
    ensures
        spec_write(mem, addr, byte)[addr as int] == byte,
        spec_write(mem, addr, byte)[mirror_of(addr) as int] == byte,
        mirror_of(addr) != addr,
{
}

/// Whether `addr` lies in the closed interval from `left_inc` to
/// `right_inc`.
pub fn is_in(left_inc: u16, addr: u16, right_inc: u16) -> (r: bool)
    ensures
        r == (left_inc <= addr <= right_inc),
{
    left_inc <= addr && addr <= right_inc
}

/// The sole byte-addressable view of memory; enforces the mirroring
/// invariant and forwards elapsed cycles to the timer.
#[derive(Debug)]
pub struct Bus {
    pub mem: Vec<u8>,
    pub timer: Timer,
}

impl Bus {
    /// The bus invariant: the array spans the whole 16-bit address range,
    /// the echo-RAM invariant holds, and the attached timer is well formed.
    pub open spec fn wf(&self) -> bool {
        &&& self.mem@.len() == MEM_SIZE
        &&& mirror_ok(self.mem@)
        &&& self.timer.wf()
    }

    /// A bus over a zeroed address space, attached to the given timer.
    pub fn new(timer: Timer) -> (bus: Bus)
        requires
            timer.wf(),
        ensures
            bus.wf(),
            bus.mem@.len() == MEM_SIZE,
            forall|a: int| 0 <= a < MEM_SIZE ==> bus.mem@[a] == 0u8,
            bus.timer == timer,
    {
        let mut mem: Vec<u8> = Vec::new();
        let mut i: usize = 0;
        #[verifier::loop_isolation(false)]
        while i < MEM_SIZE
            invariant
                i == mem@.len(),
                i <= MEM_SIZE,
                forall|a: int| 0 <= a < i ==> mem@[a] == 0u8,
            decreases MEM_SIZE - i,
        {
            mem.push(0u8);
            i = i + 1;
        }
        Bus { mem, timer }
    }

    /// Reads the byte at `addr`; no side effects, and always succeeds, since
    /// the array spans the full 16-bit range.
    pub fn read_byte(&self, addr: u16) -> (byte: u8)
        requires
            self.wf(),
        ensures
            byte == self.mem@[addr as int],
    {
        self.mem[addr as usize]
    }

    /// Stores `byte` at `addr`; a store into the mirrored internal-RAM
    /// window or into its echo range is repeated at the mirrored offset in
    /// the other range, keeping both copies equal.
    pub fn write_byte(&mut self, addr: u16, byte: u8)
        requires
            old(self).wf(),
        ensures
            final(self).wf(),
            final(self).mem@ == spec_write(old(self).mem@, addr, byte),
            final(self).timer == old(self).timer,
    {
        self.mem[addr as usize] = byte;
        if is_in(MEM_MAP_INTERNAL_RAM_START, addr, MEM_MAP_INTERNAL_RAM_ECHO_END) {
            self.mem[(addr + MIRROR_DELTA) as usize] = byte;
        } else if is_in(MEM_MAP_ECHO_OF_INTERNAL_RAM_START, addr, MEM_MAP_ECHO_OF_INTERNAL_RAM_END) {
            self.mem[(addr - MIRROR_DELTA) as usize] = byte;
        }
    }

    /// Forwards an elapsed cycle count to the attached timer; the memory is
    /// untouched.
    pub fn register_cycles(&mut self, cycles: u16)
        requires
            old(self).wf(),
        ensures
            final(self).wf(),
            final(self).mem@ == old(self).mem@,
            inc_rel(old(self).timer, final(self).timer, cycles as u64),
    {
        self.timer.inc(cycles as u64);
    }
}

} // verus!
