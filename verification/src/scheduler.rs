//! Frame scheduler: drives the external CPU stepping engine by fixed cycle
//! budgets, raising the two mid-frame interrupts the original video beam
//! generated, one at mid-screen and one at the vertical blank.

use vstd::prelude::*;
use crate::memory::Fault;

verus! {

/// CPU clock rate in cycles per second.
pub const CLOCK: u64 = 2_000_000;

/// 120 half-frames per second: the cycle budget of one half-frame.
pub const CLOCKS_PER_HALF_FRAME: u64 = CLOCK / 120;

/// The cycle budget of one full frame.
pub const CLOCKS_PER_FRAME: u64 = CLOCKS_PER_HALF_FRAME * 2;

/// Greatest cycle target `run_till` accepts: one more instruction's cycles
/// can always be added to the running total without overflowing.
pub const MAX_TARGET: u64 = 0xFFFF_FFFF_0000_0000;

/// Greatest frame index `next_frame` accepts; keeps every cycle target of
/// the frame below `MAX_TARGET`.
pub const MAX_FRAMES: u64 = 0x1_0000_0000_0000;

/// The two interrupts real hardware raised from the video beam position.
#[derive(Clone, Copy, Debug)]
pub enum IrqCmd {
    /// Mid-screen interrupt, raised when the beam crosses the middle.
    Irq1,
    /// End-of-screen interrupt, raised at the vertical blank.
    Irq2,
}

/// The external CPU instruction interpreter, consumed as an opaque stepping
/// capability: this core depends only on this interface, never on a
/// particular interpreter. The engine reads and writes memory exclusively
/// through the address router and performs I/O exclusively through the I/O
/// controller it was assembled around.
pub trait StepEngine {
    /// Executes exactly one CPU instruction and returns the number of clock
    /// cycles it consumed, or a fatal fault. Every instruction consumes at
    /// least one cycle, so a run of successful steps always makes progress;
    /// an engine that can get stuck must report a fault instead of hanging.
    fn step(&mut self) -> (r: Result<u32, Fault>)
        ensures
            r matches Ok(c) ==> c >= 1,
    ;

    /// Delivers one interrupt request, or reports that delivery failed.
    fn irq(&mut self, cmd: IrqCmd) -> Result<(), Fault>;
}

/// Converts the fixed clock rate into per-frame cycle budgets: a cumulative
/// executed-cycle counter (monotonic, never reset) and a frame counter that
/// starts at 1 and increments once per completed frame. Owns no memory.
pub struct FrameScheduler {
    pub clocks: u64,
    pub frames: u64,
}

impl FrameScheduler {
    /// A fresh session: no cycles executed, frame index 1 (one full frame
    /// counts as conceptually done, the original timing base).
    pub fn new() -> (r: FrameScheduler)
        ensures
            r.clocks == 0,
            r.frames == 1,
    {
        FrameScheduler { clocks: 0, frames: 1 }
    }

    /// Steps the engine one instruction at a time until the running cycle
    /// total reaches `target`. An already-met target succeeds at once, with
    /// no engine call and the total untouched. Instruction boundaries are
    /// atomic, so the total may overshoot the target by less than one
    /// instruction's worst cycle cost; it never shrinks. A fault from the
    /// engine propagates immediately with no partial recovery.
    pub fn run_till<E: StepEngine>(&mut self, engine: &mut E, target: u64) -> (r: Result<
        (),
        Fault,
    >)
        requires
            target <= MAX_TARGET,
        ensures
            final(self).frames == old(self).frames,
            final(self).clocks >= old(self).clocks,
            r is Ok ==> final(self).clocks >= target,
            old(self).clocks >= target ==> r is Ok && final(self).clocks == old(self).clocks,
            final(self).clocks != old(self).clocks ==> final(self).clocks < target
                + 0x1_0000_0000,
    {
        while self.clocks < target
            invariant
                target <= MAX_TARGET,
                self.frames == old(self).frames,
                self.clocks >= old(self).clocks,
                old(self).clocks >= target ==> self.clocks == old(self).clocks,
                self.clocks != old(self).clocks ==> self.clocks < target + 0x1_0000_0000,
            decreases (if self.clocks < target {
                target - self.clocks
            } else {
                0int
            }),
        {
            let cycles = match engine.step() {
                Ok(c) => c,
                Err(fault) => {
                    return Err(fault);
                },
            };
            self.clocks = self.clocks + cycles as u64;
        }
        Ok(())
    }

    /// Advances the emulated machine by one full frame: runs the engine to
    /// the frame's first half-budget boundary, raises the mid-screen
    /// interrupt, runs to the half-frame boundary, raises the vertical
    /// blank interrupt, then counts the frame as done. Any engine fault
    /// aborts the advance with the frame counter untouched.
    pub fn next_frame<E: StepEngine>(&mut self, engine: &mut E) -> (r: Result<(), Fault>)
        requires
            old(self).frames <= MAX_FRAMES,
        ensures
            final(self).clocks >= old(self).clocks,
            r is Ok ==> final(self).frames == old(self).frames + 1 && final(self).clocks >= old(
                self,
            ).frames * CLOCKS_PER_FRAME + CLOCKS_PER_HALF_FRAME,
            r is Ok ==> final(self).clocks == old(self).clocks || final(self).clocks < old(
                self,
            ).frames * CLOCKS_PER_FRAME + CLOCKS_PER_HALF_FRAME + 0x1_0000_0000,
            r is Err ==> final(self).frames == old(self).frames,
    {
        proof {
            vstd::arithmetic::mul::lemma_mul_inequality(
                self.frames as int,
                MAX_FRAMES as int,
                CLOCKS_PER_FRAME as int,
            );
        }
        let done_frame = self.frames * CLOCKS_PER_FRAME;
        let next_half = done_frame + CLOCKS_PER_HALF_FRAME;

        match self.run_till(engine, done_frame) {
            Ok(()) => {},
            Err(fault) => {
                return Err(fault);
            },
        }
        match engine.irq(IrqCmd::Irq1) {
            Ok(()) => {},
            Err(fault) => {
                return Err(fault);
            },
        }

        match self.run_till(engine, next_half) {
            Ok(()) => {},
            Err(fault) => {
                return Err(fault);
            },
        }
        match engine.irq(IrqCmd::Irq2) {
            Ok(()) => {},
            Err(fault) => {
                return Err(fault);
            },
        }

        self.frames = self.frames + 1;
        Ok(())
    }
}

} // verus!
