//! The volume envelope shared by the pulse and noise channels.
use vstd::prelude::*;

use crate::bits::lemma_byte_fields;
use crate::pulse::Sweep;

verus! {

/// Volume envelope: a 4-bit volume that moves one step up or down every
/// `period` envelope ticks, and stops at the edge of [0, 15].
pub struct Envelope {
    /// Current volume, in [0, 15].
    pub volume: u8,
    /// Volume loaded on trigger.
    pub initial: u8,
    /// Ticks left before the next step.
    pub counter: u8,
    /// Ticks between steps; 0 holds the volume still.
    pub period: u8,
    /// Direction of each step.
    pub direction: Sweep,
}

impl Envelope {
    /// Fields stay within the widths of their register bits.
    pub open spec fn wf(&self) -> bool {
        &&& self.volume <= 15
        &&& self.initial <= 15
        &&& self.counter <= 7
        &&& self.period <= 7
    }

    /// The volume one step moves to, or `None` where it would leave [0, 15].
    pub open spec fn next_volume(&self) -> Option<u8> {
        match self.direction {
            Sweep::Increase => if self.volume < 15 {
                Some((self.volume + 1) as u8)
            } else {
                None
            },
            Sweep::Decrease => if self.volume > 0 {
                Some((self.volume - 1) as u8)
            } else {
                None
            },
        }
    }

    /// The envelope after one envelope tick.
    #[verifier::opaque]
    pub open spec fn clocked(self) -> Envelope {
        if self.period == 0 {
            self
        } else if self.counter > 1 {
            Envelope { counter: (self.counter - 1) as u8, ..self }
        } else {
            match self.next_volume() {
                Some(v) => Envelope { volume: v, counter: self.period, ..self },
                None => self,
            }
        }
    }

    /// The envelope after `n` envelope ticks.
    pub open spec fn ticked(self, n: nat) -> Envelope
        decreases n,
    {
        if n == 0 {
            self
        } else {
            self.clocked().ticked((n - 1) as nat)
        }
    }

    /// Every further tick leaves the envelope as it is: it is held still, or
    /// its next step is due and would leave [0, 15].
    pub open spec fn is_frozen(&self) -> bool {
        self.period == 0 || (self.counter <= 1 && self.next_volume() is None)
    }

    /// The envelope after a trigger: volume and counter start over.
    pub open spec fn restarted(self) -> Envelope {
        Envelope { volume: self.initial, counter: self.period, ..self }
    }

    /// The envelope after its register (NRx2) is written with `w`.
    #[verifier::opaque]
    pub open spec fn written(self, w: u8) -> Envelope {
        Envelope {
            initial: w >> 4u8,
            direction: if (w >> 3u8) & 1 == 0 {
                Sweep::Decrease
            } else {
                Sweep::Increase
            },
            period: w & 7,
            ..self
        }
    }

    /// What the envelope register reads back.
    #[verifier::opaque]
    pub open spec fn register_value(&self) -> u8 {
        (self.initial << 4u8) | (self.direction.code() << 3u8) | self.period
    }

    /// A silent envelope that steps down and never moves.
    pub open spec fn new_spec() -> Envelope {
        Envelope { volume: 0, initial: 0, counter: 0, period: 0, direction: Sweep::Decrease }
    }

    /// A silent envelope that steps down and never moves.
    pub fn new() -> (r: Envelope)
        ensures
            r.wf(),
            r == Envelope::new_spec(),
    {
        Envelope { volume: 0, initial: 0, counter: 0, period: 0, direction: Sweep::Decrease }
    }

    /// One envelope tick.
    pub fn clock(&mut self)
        requires
            old(self).wf(),
        ensures
            final(self).wf(),
            *final(self) == old(self).clocked(),
    {
        proof {
            reveal(Envelope::clocked);
        }
        if self.period > 0 {
            if self.counter > 1 {
                self.counter -= 1;
            } else {
                match self.direction {
                    Sweep::Increase => {
                        if self.volume < 15 {
                            self.volume += 1;
                            self.counter = self.period;
                        }
                    },
                    Sweep::Decrease => {
                        if self.volume > 0 {
                            self.volume -= 1;
                            self.counter = self.period;
                        }
                    },
                }
            }
        }
    }

    /// Starts the envelope over from its initial volume.
    pub fn restart(&mut self)
        requires
            old(self).wf(),
        ensures
            final(self).wf(),
            *final(self) == old(self).restarted(),
    {
        self.volume = self.initial;
        self.counter = self.period;
    }

    /// Writes the envelope register: initial volume in bits 4-7, direction
    /// in bit 3, period in bits 0-2.
    pub fn write(&mut self, w: u8)
        requires
            old(self).wf(),
        ensures
            final(self).wf(),
            *final(self) == old(self).written(w),
    {
        proof {
            reveal(Envelope::written);
            lemma_byte_fields(w);
        }
        self.initial = w >> 4;
        self.direction = Sweep::from_u8((w >> 3) & 1).unwrap();
        self.period = w & 7;
    }

    /// Reads the envelope register back.
    pub fn read(&self) -> (r: u8)
        ensures
            r == self.register_value(),
    {
        proof {
            reveal(Envelope::register_value);
        }
        (self.initial << 4) | (self.direction.to_u8() << 3) | self.period
    }
}

/// One envelope tick keeps the envelope well formed and its direction, and
/// moves the volume by at most one step, in that direction only; a frozen
/// envelope is left unchanged.
pub proof fn lemma_envelope_tick(e: Envelope)
    requires
        e.wf(),
    ensures
        e.clocked().wf(),
        e.clocked().direction == e.direction,
        e.clocked().period == e.period,
        e.direction == Sweep::Increase ==> e.volume <= e.clocked().volume <= e.volume + 1,
        e.direction == Sweep::Decrease ==> e.volume - 1 <= e.clocked().volume <= e.volume,
        e.is_frozen() ==> e.clocked() == e,
{
    reveal(Envelope::clocked);
}

/// Over any number of ticks the envelope volume never leaves [0, 15] and
/// moves only in the envelope's direction; once the envelope is frozen,
/// further ticks leave it unchanged.
pub proof fn lemma_envelope_monotonic(e: Envelope, n: nat)
    requires
        e.wf(),
    ensures
        e.ticked(n).wf(),
        e.ticked(n).volume <= 15,
        e.ticked(n).direction == e.direction,
        e.direction == Sweep::Increase ==> e.volume <= e.ticked(n).volume,
        e.direction == Sweep::Decrease ==> e.ticked(n).volume <= e.volume,
        e.is_frozen() ==> e.ticked(n) == e,
    decreases n,
{
    if n > 0 {
        lemma_envelope_tick(e);
        lemma_envelope_monotonic(e.clocked(), (n - 1) as nat);
    }
}

} // verus!
