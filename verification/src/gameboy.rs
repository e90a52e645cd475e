//! The assembled console: the instruction engine, the bus over a zeroed
//! address space with its timer, the peripheral component, and the boot-ROM
//! image that is copied to the front of memory before execution starts. The
//! driving loop itself lives outside this library: it repeatedly steps the
//! engine, checks for pending interrupts and runs the peripheral update,
//! stopping on the first fatal condition.

use vstd::prelude::*;
use crate::bus::{Bus, spec_write, MEM_SIZE};
use crate::cpu::{power_on, CPU};
use crate::io::IO;
use crate::timer::Timer;

verus! {

/// The memory image after the first `n` bytes of `rom` were stored through
/// the bus, starting at address 0.
pub open spec fn rom_load(mem: Seq<u8>, rom: Seq<u8>, n: int) -> Seq<u8>
    decreases n,
{
    if n <= 0 {
        mem
    } else {
        spec_write(rom_load(mem, rom, n - 1), (n - 1) as u16, rom[n - 1])
    }
}

/// The whole machine: engine, boot-ROM image, peripherals and bus.
#[derive(Debug)]
pub struct GameBoy {
    pub cpu: CPU,
    pub boot_rom: Vec<u8>,
    pub io: IO,
    pub bus: Bus,
}

impl GameBoy {
    /// A powered-off machine holding the given boot-ROM image: zeroed
    /// registers, a zeroed address space, and a timer with no counters.
    pub fn new(boot_rom: Vec<u8>) -> (g: GameBoy)
        ensures
            g.bus.wf(),
            g.cpu == power_on(),
            g.boot_rom@ == boot_rom@,
            forall|a: int| 0 <= a < MEM_SIZE ==> g.bus.mem@[a] == 0u8,
            g.bus.timer.ticks@.len() == 0,
            g.bus.timer.sequences@.len() == 0,
    {
        let timer = Timer::new();
        GameBoy { cpu: CPU::new(), boot_rom, io: IO::new(), bus: Bus::new(timer) }
    }

    /// Copies the boot-ROM image byte for byte to the front of the address
    /// space, through the bus, before the first instruction runs.
    pub fn copy_rom_to_memory(&mut self)
        requires
            old(self).bus.wf(),
            old(self).boot_rom@.len() <= MEM_SIZE,
        ensures
            final(self).bus.wf(),
            final(self).bus.mem@ == rom_load(
                old(self).bus.mem@,
                old(self).boot_rom@,
                old(self).boot_rom@.len() as int,
            ),
            final(self).bus.timer == old(self).bus.timer,
            final(self).cpu == old(self).cpu,
            final(self).boot_rom@ == old(self).boot_rom@,
    {
        let mut idx: usize = 0;
        #[verifier::loop_isolation(false)]
        while idx < self.boot_rom.len()
            invariant
                idx <= self.boot_rom@.len(),
                self.bus.wf(),
                self.bus.mem@ == rom_load(old(self).bus.mem@, old(self).boot_rom@, idx as int),
                self.bus.timer == old(self).bus.timer,
                self.cpu == old(self).cpu,
                self.boot_rom@ == old(self).boot_rom@,
            decreases self.boot_rom@.len() - idx,
        {
            let byte = self.boot_rom[idx];
            self.bus.write_byte(idx as u16, byte);
            idx = idx + 1;
        }
    }
}

} // verus!
