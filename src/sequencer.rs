//! The 512 Hz frame sequencer that paces length, sweep and envelope ticks.
use vstd::prelude::*;

verus! {

/// Hardware cycles between two frame sequencer ticks.
pub const FRAME_PERIOD: u16 = 8192;

/// Length counters are clocked on even frames (256 Hz).
pub open spec fn fires_length(frame: u32) -> bool {
    frame % 2 == 0
}

/// The sweep is clocked on frames 2 and 6 of every 8 (128 Hz).
pub open spec fn fires_sweep(frame: u32) -> bool {
    frame % 4 == 2
}

/// Envelopes are clocked on frame 7 of every 8 (64 Hz).
pub open spec fn fires_envelope(frame: u32) -> bool {
    frame % 8 == 7
}

/// A divide-by-8192 counter with a running frame number.
pub struct FrameSequencer {
    /// Number of the last tick, wrapping.
    pub frame: u32,
    /// Cycles left before the next tick.
    pub period: u16,
}

impl FrameSequencer {
    pub open spec fn wf(&self) -> bool {
        self.period <= FRAME_PERIOD
    }

    /// Whether the next cycle ticks.
    pub open spec fn ticks(&self) -> bool {
        self.period <= 1
    }

    /// The sequencer after one cycle: it counts down, and on reaching zero
    /// reloads to 8192 and moves to the next frame.
    pub open spec fn clocked(self) -> FrameSequencer {
        if self.ticks() {
            FrameSequencer {
                frame: if self.frame == u32::MAX {
                    0
                } else {
                    (self.frame + 1) as u32
                },
                period: FRAME_PERIOD,
            }
        } else {
            FrameSequencer { period: (self.period - 1) as u16, ..self }
        }
    }

    /// A sequencer that ticks on its first cycle, into frame 1.
    pub fn new() -> (r: FrameSequencer)
        ensures
            r.wf(),
            r.frame == 0,
            r.period == 0,
    {
        FrameSequencer { frame: 0, period: 0 }
    }

    /// One hardware cycle; returns whether the sequencer ticked.
    pub fn clock(&mut self) -> (r: bool)
        requires
            old(self).wf(),
        ensures
            final(self).wf(),
            *final(self) == old(self).clocked(),
            r == old(self).ticks(),
    {
        if self.period > 1 {
            self.period -= 1;
            false
        } else {
            self.period = FRAME_PERIOD;
            self.frame = self.frame.wrapping_add(1);
            true
        }
    }
}

/// Over eight consecutive frames starting at a multiple of 8, length fires
/// on frames 0, 2, 4 and 6, the sweep on frames 2 and 6, and the envelope
/// on frame 7 only.
pub proof fn lemma_step_table(first: u32)
    requires
        first % 8 == 0,
    ensures
        forall|i: u32|
            #![trigger fires_length((first + i) as u32)]
            i < 8 ==> {
                &&& (fires_length((first + i) as u32) <==> (i == 0 || i == 2 || i == 4 || i == 6))
                &&& (fires_sweep((first + i) as u32) <==> (i == 2 || i == 6))
                &&& (fires_envelope((first + i) as u32) <==> i == 7)
            },
{
    assert forall|i: u32| i < 8 implies {
        &&& (#[trigger] fires_length((first + i) as u32) <==> (i == 0 || i == 2 || i == 4 || i == 6))
        &&& (fires_sweep((first + i) as u32) <==> (i == 2 || i == 6))
        &&& (fires_envelope((first + i) as u32) <==> i == 7)
    } by {
        assert(first + i <= u32::MAX);
    }
}

} // verus!
