//! The timer-driven peripheral update: increments the divider register on
//! every tick of its periodic counter, and keeps the display-mode bits of
//! the status register in step with the two display sequencers (the
//! V-Blank cycle and the per-line mode cycle).

use vstd::prelude::*;
use crate::bus::{Bus, spec_write, REG_DIV, REG_STAT};
use crate::cpu::inc8;
use crate::timer::{
    Timer,
    TimerError,
    Ticker,
    flag_cleared_rel,
    has_period,
    has_sequence,
    sequence_index,
    tick_index,
    upsert_rel,
};

verus! {

/// Period, in cycles, of the divider-register ticker.
pub const TICK_DIV_REG: u64 = 255;

/// A configuration fault of the peripheral update.
#[derive(Clone, Copy, PartialEq, Eq, Structural, Debug)]
pub enum IoError {
    /// The divider ticker was never registered.
    MissingTicker,
    /// A display sequencer was never registered.
    MissingSequence,
    /// A display sequencer reports a phase outside the display's mode map.
    InvalidPhase,
}

/// Phase lengths of the per-line display sequencer.
pub open spec fn video_023_lengths() -> Seq<u64> {
    seq![204u64, 80u64, 172u64]
}

/// Phase lengths of the V-Blank display sequencer.
pub open spec fn video_1_lengths() -> Seq<u64> {
    seq![67109u64, 4530u64]
}

/// The status byte with its low two mode bits replaced.
pub open spec fn stat_with_mode(stat: u8, mode: u8) -> u8 {
    (stat / 4 * 4 + mode) as u8
}

/// The display mode selected by the two sequencers: phase 1 of the V-Blank
/// cycle is mode 1; inside phase 0, the per-line cycle's phases 0, 1 and 2
/// map to modes 0, 2 and 3. Any other phase is a configuration fault.
pub open spec fn display_mode(t: Timer) -> Result<u8, IoError> {
    if !has_sequence(t.sequences@, "video_1"@) {
        Err(IoError::MissingSequence)
    } else {
        let p1 = t.sequences@[sequence_index(t.sequences@, "video_1"@)].current_phase as int;
        if p1 == 0 {
            if !has_sequence(t.sequences@, "video_023"@) {
                Err(IoError::MissingSequence)
            } else {
                let p = t.sequences@[sequence_index(
                    t.sequences@,
                    "video_023"@,
                )].current_phase as int;
                if p == 0 {
                    Ok(0u8)
                } else if p == 1 {
                    Ok(2u8)
                } else if p == 2 {
                    Ok(3u8)
                } else {
                    Err(IoError::InvalidPhase)
                }
            }
        } else if p1 == 1 {
            Ok(1u8)
        } else {
            Err(IoError::InvalidPhase)
        }
    }
}

/// The external peripheral component: stateless, it drives the divider and
/// display-status registers from the timer's tick and phase queries.
#[derive(Clone, Copy, Debug)]
pub struct IO;

impl IO {
    /// The peripheral component; it holds no state of its own.
    pub fn new() -> IO {
        IO
    }

    /// Registers the hardware counters the peripherals rely on: the divider
    /// ticker, the per-line display sequencer and the V-Blank display
    /// sequencer. Fails only when the divider period is already taken.
    pub fn init(&self, timer: &mut Timer) -> (r: Result<(), TimerError>)
        requires
            old(timer).wf(),
        ensures
            final(timer).wf(),
            r is Ok <==> !has_period(old(timer).ticks@, TICK_DIV_REG),
            r is Err ==> *final(timer) == *old(timer) && r == Err::<(), TimerError>(
                TimerError::PeriodRegistered,
            ),
            r is Ok ==> final(timer).ticks@ == old(timer).ticks@.push(
                Ticker { period: TICK_DIV_REG, cycle: 0, did_tick: false },
            ),
            r is Ok ==> exists|mid: Seq<crate::timer::SequenceTicker>|
                upsert_rel(old(timer).sequences@, mid, "video_023"@, video_023_lengths())
                    && #[trigger] upsert_rel(
                    mid,
                    final(timer).sequences@,
                    "video_1"@,
                    video_1_lengths(),
                ),
    {
        match timer.register_tick(TICK_DIV_REG) {
            Ok(_) => {},
            Err(e) => {
                return Err(e);
            },
        }
        let mut lengths023: Vec<u64> = Vec::new();
        lengths023.push(204);
        lengths023.push(80);
        lengths023.push(172);
        proof {
            assert(lengths023@ =~= video_023_lengths());
        }
        match timer.register_tick_series("video_023".to_owned(), lengths023) {
            Ok(_) => {},
            Err(e) => {
                return Err(e);
            },
        }
        let ghost mid = timer.sequences@;
        let mut lengths1: Vec<u64> = Vec::new();
        lengths1.push(67109);
        lengths1.push(4530);
        proof {
            assert(lengths1@ =~= video_1_lengths());
        }
        match timer.register_tick_series("video_1".to_owned(), lengths1) {
            Ok(_) => {},
            Err(e) => {
                return Err(e);
            },
        }
        Ok(())
    }

    /// One peripheral update pass: reads and clears the divider ticker's
    /// fired flag, incrementing the divider register (with wraparound) when
    /// it had fired, then rewrites the low two bits of the display-status
    /// register from the two display sequencers' phases. Fails when a
    /// counter is missing or a phase falls outside the mode map, leaving
    /// the registers already written as they stand.
    pub fn operate(&self, bus: &mut Bus) -> (r: Result<(), IoError>)
        requires
            old(bus).wf(),
        ensures
            final(bus).wf(),
            ({
                let t0 = old(bus).timer;
                let m0 = old(bus).mem@;
                &&& (!has_period(t0.ticks@, TICK_DIV_REG) ==> r == Err::<(), IoError>(
                    IoError::MissingTicker,
                ) && *final(bus) == *old(bus))
                &&& (has_period(t0.ticks@, TICK_DIV_REG) ==> {
                    let fired = t0.ticks@[tick_index(t0.ticks@, TICK_DIV_REG)].did_tick;
                    let m1 = if fired {
                        spec_write(m0, REG_DIV, inc8(m0[REG_DIV as int]))
                    } else {
                        m0
                    };
                    &&& flag_cleared_rel(t0.ticks@, final(bus).timer.ticks@, TICK_DIV_REG)
                    &&& final(bus).timer.sequences@ == t0.sequences@
                    &&& (match display_mode(t0) {
                        Ok(mode) => r == Ok::<(), IoError>(()) && final(bus).mem@ == spec_write(
                            m1,
                            REG_STAT,
                            stat_with_mode(m1[REG_STAT as int], mode),
                        ),
                        Err(e) => r == Err::<(), IoError>(e) && final(bus).mem@ == m1,
                    })
                })
            }),
    {
        let fired = match bus.timer.did_tick(TICK_DIV_REG) {
            Ok(f) => f,
            Err(_) => {
                return Err(IoError::MissingTicker);
            },
        };
        if fired {
            let div = bus.read_byte(REG_DIV);
            let nv = if div == 0xFF {
                0
            } else {
                div + 1
            };
            bus.write_byte(REG_DIV, nv);
        }
        let stat_reg = bus.read_byte(REG_STAT);
        let p1 = match bus.timer.phase_of("video_1".to_owned()) {
            Ok(p) => p,
            Err(_) => {
                return Err(IoError::MissingSequence);
            },
        };
        let mode: u8 = if p1 == 0 {
            let p023 = match bus.timer.phase_of("video_023".to_owned()) {
                Ok(p) => p,
                Err(_) => {
                    return Err(IoError::MissingSequence);
                },
            };
            if p023 == 0 {
                0
            } else if p023 == 1 {
                2
            } else if p023 == 2 {
                3
            } else {
                return Err(IoError::InvalidPhase);
            }
        } else if p1 == 1 {
            1
        } else {
            return Err(IoError::InvalidPhase);
        };
        bus.write_byte(REG_STAT, stat_reg / 4 * 4 + mode);
        Ok(())
    }
}

} // verus!
