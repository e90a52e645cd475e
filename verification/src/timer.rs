//! Cycle accounting: independent periodic counters ("tickers") with a sticky
//! read-and-clear fired flag, and multi-phase cyclic counters ("sequencers")
//! that walk an ordered list of positive phase lengths, wrapping after the
//! last phase. Both advance by the cycle deltas reported after each
//! instruction.

use vstd::prelude::*;

verus! {

/// A periodic cycle counter: once the accumulator reaches or exceeds the
/// period, the sticky `did_tick` flag is set and the period is subtracted,
/// so the accumulator keeps the drift.
#[derive(Clone, Copy, PartialEq, Eq, Structural, Debug)]
pub struct Ticker {
    pub period: u64,
    pub cycle: u64,
    pub did_tick: bool,
}

/// A multi-phase cyclic counter: `current_cycle` counts cycles within the
/// phase `current_phase`; whenever it reaches the phase's length the counter
/// moves to the next phase, wrapping to phase 0 after the last.
#[derive(Debug)]
pub struct SequenceTicker {
    pub name: String,
    pub lengths: Vec<u64>,
    pub current_phase: usize,
    pub current_cycle: u64,
}

/// A configuration or lookup error of the timer.
#[derive(Clone, Copy, PartialEq, Eq, Structural, Debug)]
pub enum TimerError {
    /// A periodic ticker cannot have period zero.
    ZeroPeriod,
    /// The period is already registered.
    PeriodRegistered,
    /// No ticker with that period was ever registered.
    UnknownPeriod,
    /// A sequencer needs at least one phase.
    EmptyPhaseList,
    /// Every phase length of a sequencer must be positive.
    ZeroPhaseLength,
    /// No sequencer with that name was ever registered.
    UnknownSequence,
}

/// Tracks elapsed execution cycles against independent periodic and
/// phase-cyclic hardware events.
#[derive(Debug)]
pub struct Timer {
    pub ticks: Vec<Ticker>,
    pub sequences: Vec<SequenceTicker>,
}

/// Addition on `u64` that stops at the largest value instead of wrapping.
pub open spec fn sat_add64(a: u64, b: u64) -> u64 {
    if a + b <= u64::MAX {
        (a + b) as u64
    } else {
        u64::MAX
    }
}

/// Whether some ticker with the given period is registered.
pub open spec fn has_period(ticks: Seq<Ticker>, period: u64) -> bool {
    exists|i: int| 0 <= i < ticks.len() && (#[trigger] ticks[i]).period == period
}

/// Tickers are well formed when every period is positive and no period
/// occurs twice.
pub open spec fn tickers_wf(ticks: Seq<Ticker>) -> bool {
    &&& forall|i: int| 0 <= i < ticks.len() ==> (#[trigger] ticks[i]).period > 0
    &&& forall|i: int, j: int|
        0 <= i < j < ticks.len() ==> (#[trigger] ticks[i]).period != (#[trigger] ticks[j]).period
}

/// A sequencer is well formed when it has at least one phase, every phase
/// length is positive, the phase index is in range and the intra-phase
/// offset has not yet reached the current phase's length.
pub open spec fn sequence_wf(s: SequenceTicker) -> bool {
    &&& s.lengths@.len() > 0
    &&& forall|i: int| 0 <= i < s.lengths@.len() ==> #[trigger] s.lengths@[i] > 0
    &&& s.current_phase < s.lengths@.len()
    &&& s.current_cycle < s.lengths@[s.current_phase as int]
}

/// Whether some sequencer with the given name is registered.
pub open spec fn has_sequence(seqs: Seq<SequenceTicker>, name: Seq<char>) -> bool {
    exists|i: int| 0 <= i < seqs.len() && (#[trigger] seqs[i]).name@ == name
}

/// One advance of a single ticker by `n` cycles: accumulate, and on reaching
/// the period mark it fired and keep only the drift.
pub open spec fn tick_step(t: Ticker, n: u64) -> Ticker {
    let acc = sat_add64(t.cycle, n);
    if acc >= t.period {
        Ticker { period: t.period, cycle: (acc - t.period) as u64, did_tick: true }
    } else {
        Ticker { period: t.period, cycle: acc, did_tick: t.did_tick }
    }
}

/// Repeatedly consume whole phases out of the offset `off`, advancing the
/// phase index cyclically, until the offset is inside the current phase.
pub open spec fn phase_settle(lengths: Seq<u64>, phase: int, off: u64) -> (int, u64)
    decreases off,
{
    if 0 <= phase < lengths.len() && 0 < lengths[phase] <= off {
        phase_settle(
            lengths,
            if phase + 1 == lengths.len() {
                0
            } else {
                phase + 1
            },
            (off - lengths[phase]) as u64,
        )
    } else {
        (phase, off)
    }
}

/// One advance of a single sequencer by `n` cycles.
pub open spec fn sequence_step_phase(s: SequenceTicker, n: u64) -> (int, u64) {
    phase_settle(s.lengths@, s.current_phase as int, sat_add64(s.current_cycle, n))
}

/// How a sequencer looks right after (re-)registration under `name` with the
/// given phase lengths.
pub open spec fn sequence_fresh(s: SequenceTicker, name: Seq<char>, lengths: Seq<u64>) -> bool {
    &&& s.name@ == name
    &&& s.lengths@ == lengths
    &&& s.current_phase == 0
    &&& s.current_cycle == 0
}

/// Relates the sequencer lists before and after registering `name` with the
/// given lengths: an existing entry of that name is replaced, otherwise a new
/// entry is appended; all other entries are untouched.
pub open spec fn upsert_rel(
    pre: Seq<SequenceTicker>,
    post: Seq<SequenceTicker>,
    name: Seq<char>,
    lengths: Seq<u64>,
) -> bool {
    if has_sequence(pre, name) {
        &&& post.len() == pre.len()
        &&& forall|j: int|
            0 <= j < pre.len() && (#[trigger] pre[j]).name@ != name ==> post[j] == pre[j]
        &&& forall|j: int|
            0 <= j < pre.len() && (#[trigger] pre[j]).name@ == name ==> sequence_fresh(
                post[j],
                name,
                lengths,
            )
    } else {
        &&& post.len() == pre.len() + 1
        &&& forall|j: int| 0 <= j < pre.len() ==> #[trigger] post[j] == pre[j]
        &&& sequence_fresh(post[pre.len() as int], name, lengths)
    }
}

/// The index of the ticker with the given period; meaningful only when one
/// is registered, and then unique, since periods never occur twice.
pub open spec fn tick_index(ticks: Seq<Ticker>, period: u64) -> int {
    choose|i: int| 0 <= i < ticks.len() && (#[trigger] ticks[i]).period == period
}

/// The index of the sequencer with the given name; meaningful only when one
/// is registered, and then unique, since names never occur twice.
pub open spec fn sequence_index(seqs: Seq<SequenceTicker>, name: Seq<char>) -> int {
    choose|i: int| 0 <= i < seqs.len() && (#[trigger] seqs[i]).name@ == name
}

/// Relates the ticker lists before and after one read-and-clear query of
/// the given period: only that ticker's fired flag changes, to false.
pub open spec fn flag_cleared_rel(pre: Seq<Ticker>, post: Seq<Ticker>, period: u64) -> bool {
    &&& post.len() == pre.len()
    &&& forall|j: int|
        0 <= j < pre.len() ==> {
            let t = #[trigger] pre[j];
            &&& post[j].period == t.period
            &&& post[j].cycle == t.cycle
            &&& post[j].did_tick == (if t.period == period {
                false
            } else {
                t.did_tick
            })
        }
}

/// Relates the timer states before and after advancing by `n` cycles: every
/// ticker and every sequencer takes one step, independently of the others.
pub open spec fn inc_rel(pre: Timer, post: Timer, n: u64) -> bool {
    &&& post.ticks@.len() == pre.ticks@.len()
    &&& forall|i: int|
        0 <= i < pre.ticks@.len() ==> post.ticks@[i] == tick_step(#[trigger] pre.ticks@[i], n)
    &&& post.sequences@.len() == pre.sequences@.len()
    &&& forall|i: int|
        0 <= i < pre.sequences@.len() ==> {
            let stepped = sequence_step_phase(#[trigger] pre.sequences@[i], n);
            &&& post.sequences@[i].name@ == pre.sequences@[i].name@
            &&& post.sequences@[i].lengths@ == pre.sequences@[i].lengths@
            &&& post.sequences@[i].current_phase == stepped.0
            &&& post.sequences@[i].current_cycle == stepped.1
        }
}

/// Advancing a fresh ticker of period `p` by exactly `p` cycles fires it and
/// leaves no drift in the accumulator, so it will not report again until
/// another full period has elapsed; `did_tick` itself clears the flag when it
/// is read, so an immediate repeat query reports false.
pub proof fn lemma_period_fires(p: u64)
    requires
        p > 0,
    ensures
        (tick_step(Ticker { period: p, cycle: 0, did_tick: false }, p) == Ticker {
            period: p,
            cycle: 0,
            did_tick: true,
        }),
{
}

/// A sequencer with phase lengths `[a, b, c]` standing at phase 0, offset 0,
/// returns to phase 0, offset 0, after advancing exactly `a + b + c` cycles.
pub proof fn lemma_sequence_full_cycle(s: SequenceTicker, a: u64, b: u64, c: u64)
    requires
        a > 0,
        b > 0,
        c > 0,
        a + b + c <= u64::MAX,
        s.lengths@ == seq![a, b, c],
        s.current_phase == 0,
        s.current_cycle == 0,
    ensures
        sequence_step_phase(s, (a + b + c) as u64) == (0int, 0u64),
{
    let l = seq![a, b, c];
    assert(l[0] == a && l[1] == b && l[2] == c);
    assert(phase_settle(l, 0, (a + b + c) as u64) == phase_settle(l, 1, (b + c) as u64));
    assert(phase_settle(l, 1, (b + c) as u64) == phase_settle(l, 2, c));
    assert(phase_settle(l, 2, c) == phase_settle(l, 0, 0u64));
    assert(phase_settle(l, 0, 0u64) == (0int, 0u64));
}

impl Timer {
    /// The timer's invariant: well-formed tickers, well-formed sequencers,
    /// and no sequencer name occurring twice.
    pub open spec fn wf(&self) -> bool {
        &&& tickers_wf(self.ticks@)
        &&& forall|i: int|
            0 <= i < self.sequences@.len() ==> sequence_wf(#[trigger] self.sequences@[i])
        &&& forall|i: int, j: int|
            0 <= i < j < self.sequences@.len() ==> (#[trigger] self.sequences@[i]).name@ != (
            #[trigger] self.sequences@[j]).name@
    }

    /// A timer with no tickers and no sequencers.
    pub fn new() -> (t: Timer)
        ensures
            t.wf(),
            t.ticks@.len() == 0,
            t.sequences@.len() == 0,
    {
        Timer { ticks: Vec::new(), sequences: Vec::new() }
    }

    /// Registers a new periodic ticker. Fails if the period is zero or a
    /// ticker of that period is already registered; on success the ticker
    /// starts with an empty accumulator and an unset fired flag.
    #[verifier::loop_isolation(false)]
    pub fn register_tick(&mut self, cycle: u64) -> (r: Result<(), TimerError>)
        requires
            old(self).wf(),
        ensures
            final(self).wf(),
            cycle == 0 ==> r == Err::<(), TimerError>(TimerError::ZeroPeriod),
            cycle != 0 && has_period(old(self).ticks@, cycle) ==> r == Err::<(), TimerError>(
                TimerError::PeriodRegistered,
            ),
            r is Err ==> *final(self) == *old(self),
            r is Ok <==> cycle != 0 && !has_period(old(self).ticks@, cycle),
            r is Ok ==> final(self).ticks@ == old(self).ticks@.push(
                Ticker { period: cycle, cycle: 0, did_tick: false },
            ) && final(self).sequences@ == old(self).sequences@,
    {
        if cycle == 0 {
            return Err(TimerError::ZeroPeriod);
        }
        let mut i: usize = 0;
        while i < self.ticks.len()
            invariant
                *self == *old(self),
                i <= self.ticks@.len(),
                forall|j: int| 0 <= j < i ==> (#[trigger] self.ticks@[j]).period != cycle,
            decreases self.ticks@.len() - i,
        {
            if self.ticks[i].period == cycle {
                return Err(TimerError::PeriodRegistered);
            }
            i = i + 1;
        }
        self.ticks.push(Ticker { period: cycle, cycle: 0, did_tick: false });
        Ok(())
    }

    /// Registers (or replaces) a sequencer under `name` with the given phase
    /// lengths. Fails if the list is empty or contains a zero length; on
    /// success the sequencer starts at phase 0, offset 0.
    #[verifier::loop_isolation(false)]
    pub fn register_tick_series(&mut self, name: String, lengths: Vec<u64>) -> (r: Result<
        (),
        TimerError,
    >)
        requires
            old(self).wf(),
        ensures
            final(self).wf(),
            lengths@.len() == 0 ==> r == Err::<(), TimerError>(TimerError::EmptyPhaseList),
            lengths@.len() > 0 && (exists|i: int| 0 <= i < lengths@.len() && lengths@[i] == 0)
                ==> r == Err::<(), TimerError>(TimerError::ZeroPhaseLength),
            r is Err ==> *final(self) == *old(self),
            r is Ok <==> lengths@.len() > 0 && (forall|i: int|
                0 <= i < lengths@.len() ==> #[trigger] lengths@[i] > 0),
            r is Ok ==> upsert_rel(old(self).sequences@, final(self).sequences@, name@, lengths@)
                && final(self).ticks@ == old(self).ticks@,
    {
        if lengths.len() == 0 {
            return Err(TimerError::EmptyPhaseList);
        }
        let mut i: usize = 0;
        while i < lengths.len()
            invariant
                *self == *old(self),
                i <= lengths@.len(),
                forall|j: int| 0 <= j < i ==> #[trigger] lengths@[j] > 0,
            decreases lengths@.len() - i,
        {
            if lengths[i] == 0 {
                return Err(TimerError::ZeroPhaseLength);
            }
            i = i + 1;
        }
        let mut k: usize = 0;
        while k < self.sequences.len()
            invariant
                *self == *old(self),
                k <= self.sequences@.len(),
                forall|j: int| 0 <= j < k ==> (#[trigger] self.sequences@[j]).name@ != name@,
                lengths@.len() > 0,
                forall|j: int| 0 <= j < lengths@.len() ==> #[trigger] lengths@[j] > 0,
            decreases self.sequences@.len() - k,
        {
            if self.sequences[k].name == name {
                self.sequences[k] = SequenceTicker {
                    name,
                    lengths,
                    current_phase: 0,
                    current_cycle: 0,
                };
                return Ok(());
            }
            k = k + 1;
        }
        self.sequences.push(
            SequenceTicker { name, lengths, current_phase: 0, current_cycle: 0 },
        );
        Ok(())
    }

    /// The current phase index of the sequencer registered under `name`;
    /// fails if no sequencer of that name exists.
    #[verifier::loop_isolation(false)]
    pub fn phase_of(&self, name: String) -> (r: Result<usize, TimerError>)
        requires
            self.wf(),
        ensures
            r is Ok <==> has_sequence(self.sequences@, name@),
            r is Err ==> r == Err::<usize, TimerError>(TimerError::UnknownSequence),
            forall|j: int|
                0 <= j < self.sequences@.len() && (#[trigger] self.sequences@[j]).name@ == name@
                    ==> r == Ok::<usize, TimerError>(self.sequences@[j].current_phase),
    {
        let mut i: usize = 0;
        while i < self.sequences.len()
            invariant
                i <= self.sequences@.len(),
                forall|j: int| 0 <= j < i ==> (#[trigger] self.sequences@[j]).name@ != name@,
            decreases self.sequences@.len() - i,
        {
            if self.sequences[i].name == name {
                return Ok(self.sequences[i].current_phase);
            }
            i = i + 1;
        }
        Err(TimerError::UnknownSequence)
    }

    /// Reads and clears the sticky fired flag of the ticker with the given
    /// period; fails (rather than silently reporting false) if that period
    /// was never registered.
    #[verifier::loop_isolation(false)]
    pub fn did_tick(&mut self, cycle: u64) -> (r: Result<bool, TimerError>)
        requires
            old(self).wf(),
        ensures
            final(self).wf(),
            r is Ok <==> has_period(old(self).ticks@, cycle),
            r is Err ==> r == Err::<bool, TimerError>(TimerError::UnknownPeriod) && *final(self)
                == *old(self),
            r is Ok ==> {
                &&& final(self).ticks@.len() == old(self).ticks@.len()
                &&& final(self).sequences@ == old(self).sequences@
                &&& forall|j: int|
                    0 <= j < old(self).ticks@.len() ==> {
                        let pre = #[trigger] old(self).ticks@[j];
                        let post = final(self).ticks@[j];
                        &&& post.period == pre.period
                        &&& post.cycle == pre.cycle
                        &&& post.did_tick == (if pre.period == cycle {
                            false
                        } else {
                            pre.did_tick
                        })
                    }
                &&& forall|j: int|
                    0 <= j < old(self).ticks@.len() && (#[trigger] old(self).ticks@[j]).period
                        == cycle ==> r == Ok::<bool, TimerError>(old(self).ticks@[j].did_tick)
            },
    {
        let mut i: usize = 0;
        while i < self.ticks.len()
            invariant
                *self == *old(self),
                i <= self.ticks@.len(),
                forall|j: int| 0 <= j < i ==> (#[trigger] self.ticks@[j]).period != cycle,
            decreases self.ticks@.len() - i,
        {
            let t = self.ticks[i];
            if t.period == cycle {
                self.ticks[i] = Ticker { period: t.period, cycle: t.cycle, did_tick: false };
                return Ok(t.did_tick);
            }
            i = i + 1;
        }
        Err(TimerError::UnknownPeriod)
    }

    /// Advances every ticker and every sequencer by `curr_cycles` elapsed
    /// cycles. A ticker that reaches its period is marked fired and keeps the
    /// drift in its accumulator; a sequencer consumes whole phases while its
    /// offset allows, wrapping modulo the phase count.
    #[verifier::loop_isolation(false)]
    pub fn inc(&mut self, curr_cycles: u64)
        requires
            old(self).wf(),
        ensures
            final(self).wf(),
            inc_rel(*old(self), *final(self), curr_cycles),
    {
        let mut i: usize = 0;
        while i < self.ticks.len()
            invariant
                old(self).wf(),
                self.sequences@ == old(self).sequences@,
                self.ticks@.len() == old(self).ticks@.len(),
                i <= self.ticks@.len(),
                forall|j: int|
                    #![trigger self.ticks@[j]]
                    #![trigger old(self).ticks@[j]]
                    0 <= j < i ==> self.ticks@[j] == tick_step(
                        old(self).ticks@[j],
                        curr_cycles,
                    ),
                forall|j: int|
                    i <= j < self.ticks@.len() ==> self.ticks@[j] == #[trigger] old(
                        self,
                    ).ticks@[j],
            decreases self.ticks@.len() - i,
        {
            let t = self.ticks[i];
            let acc = t.cycle.saturating_add(curr_cycles);
            if acc >= t.period {
                self.ticks[i] = Ticker {
                    period: t.period,
                    cycle: acc - t.period,
                    did_tick: true,
                };
            } else {
                self.ticks[i] = Ticker { period: t.period, cycle: acc, did_tick: t.did_tick };
            }
            i = i + 1;
        }
        let mut k: usize = 0;
        while k < self.sequences.len()
            invariant
                old(self).wf(),
                self.sequences@.len() == old(self).sequences@.len(),
                k <= self.sequences@.len(),
                forall|j: int|
                    #![trigger self.ticks@[j]]
                    #![trigger old(self).ticks@[j]]
                    0 <= j < self.ticks@.len() ==> self.ticks@[j] == tick_step(
                        old(self).ticks@[j],
                        curr_cycles,
                    ),
                self.ticks@.len() == old(self).ticks@.len(),
                forall|j: int|
                    #![trigger self.sequences@[j]]
                    #![trigger old(self).sequences@[j]]
                    0 <= j < k ==> {
                        let stepped = sequence_step_phase(
                            old(self).sequences@[j],
                            curr_cycles,
                        );
                        &&& self.sequences@[j].name@ == old(self).sequences@[j].name@
                        &&& self.sequences@[j].lengths@ == old(self).sequences@[j].lengths@
                        &&& self.sequences@[j].current_phase == stepped.0
                        &&& self.sequences@[j].current_cycle == stepped.1
                        &&& sequence_wf(self.sequences@[j])
                    },
                forall|j: int|
                    k <= j < self.sequences@.len() ==> self.sequences@[j] == #[trigger] old(
                        self,
                    ).sequences@[j],
            decreases self.sequences@.len() - k,
        {
            let ghost pre = self.sequences@[k as int];
            proof {
                assert(self.sequences@[k as int] == old(self).sequences@[k as int]);
                assert(sequence_wf(pre));
            }
            let acc0 = self.sequences[k].current_cycle.saturating_add(curr_cycles);
            let mut phase: usize = self.sequences[k].current_phase;
            let mut off: u64 = acc0;
            let plen: usize = self.sequences[k].lengths.len();
            while off >= self.sequences[k].lengths[phase]
                invariant
                    k < self.sequences@.len(),
                    self.sequences@[k as int] == pre,
                    sequence_wf(pre),
                    phase < pre.lengths@.len(),
                    plen == pre.lengths@.len(),
                    phase_settle(pre.lengths@, phase as int, off) == phase_settle(
                        pre.lengths@,
                        pre.current_phase as int,
                        acc0,
                    ),
                decreases off,
            {
                off = off - self.sequences[k].lengths[phase];
                phase = if phase + 1 == plen {
                    0
                } else {
                    phase + 1
                };
            }
            self.sequences[k].current_phase = phase;
            self.sequences[k].current_cycle = off;
            k = k + 1;
        }
    }
}

} // verus!
