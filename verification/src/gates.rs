//! Level- and pulse-delay logic gates: hysteresis primitives that turn an
//! instantaneous boolean condition into a time-qualified one. The level gate
//! reports true only once its input has been continuously true for a
//! configured delay; the pulse gate reports true for exactly one tick when
//! the level gate's output rises.

use vstd::prelude::*;

verus! {

/// A level-delay gate: true once the input has been true for `delay_ms`
/// continuous milliseconds. The accumulated true-time is capped at the
/// delay, which leaves the output unchanged and keeps the sum in range.
#[derive(Clone, Copy, PartialEq, Eq, Structural, Debug)]
pub struct DelayedTrueLogicGate {
    pub delay_ms: u64,
    pub input: bool,
    pub time_true_ms: u64,
}

impl DelayedTrueLogicGate {
    pub open spec fn wf(self) -> bool {
        self.time_true_ms <= self.delay_ms
    }

    pub open spec fn output_spec(self) -> bool {
        self.input && self.time_true_ms >= self.delay_ms
    }

    pub open spec fn next_spec(self, delta_ms: u64, input: bool) -> DelayedTrueLogicGate {
        DelayedTrueLogicGate {
            delay_ms: self.delay_ms,
            input,
            time_true_ms: if !input {
                0
            } else if self.time_true_ms + delta_ms >= self.delay_ms {
                self.delay_ms
            } else {
                (self.time_true_ms + delta_ms) as u64
            },
        }
    }

    pub fn new(delay_ms: u64) -> (r: DelayedTrueLogicGate)
        ensures
            r == (DelayedTrueLogicGate { delay_ms, input: false, time_true_ms: 0u64 }),
    {
        DelayedTrueLogicGate { delay_ms, input: false, time_true_ms: 0 }
    }

    /// A gate whose output starts as `state`, as if the input had already
    /// been `state` for the whole delay.
    pub fn starting_as(self, state: bool) -> (r: DelayedTrueLogicGate)
        ensures
            r.delay_ms == self.delay_ms,
            r.input == state,
            r.time_true_ms == if state {
                self.delay_ms
            } else {
                0u64
            },
            r.output_spec() == state,
            r.wf(),
    {
        DelayedTrueLogicGate {
            delay_ms: self.delay_ms,
            input: state,
            time_true_ms: if state {
                self.delay_ms
            } else {
                0
            },
        }
    }

    pub fn update(&mut self, delta_ms: u64, input: bool)
        requires
            old(self).wf(),
        ensures
            *final(self) == old(self).next_spec(delta_ms, input),
            final(self).wf(),
    {
        if !input {
            self.time_true_ms = 0;
        } else if delta_ms >= self.delay_ms - self.time_true_ms {
            self.time_true_ms = self.delay_ms;
        } else {
            self.time_true_ms = self.time_true_ms + delta_ms;
        }
        self.input = input;
    }

    pub fn output(&self) -> (r: bool)
        ensures
            r == self.output_spec(),
    {
        self.input && self.time_true_ms >= self.delay_ms
    }
}

/// A pulse-delay gate: true for exactly one tick when the underlying
/// level-delay gate's output rises from false to true.
#[derive(Clone, Copy, PartialEq, Eq, Structural, Debug)]
pub struct DelayedPulseTrueLogicGate {
    pub gate: DelayedTrueLogicGate,
    pub pulse: bool,
    pub last_gate_output: bool,
}

impl DelayedPulseTrueLogicGate {
    pub open spec fn wf(self) -> bool {
        self.gate.wf()
    }

    pub open spec fn output_spec(self) -> bool {
        self.pulse
    }

    pub open spec fn next_spec(self, delta_ms: u64, input: bool) -> DelayedPulseTrueLogicGate {
        let gate = self.gate.next_spec(delta_ms, input);
        DelayedPulseTrueLogicGate {
            gate,
            pulse: gate.output_spec() && !self.last_gate_output,
            last_gate_output: gate.output_spec(),
        }
    }

    pub fn new(delay_ms: u64) -> (r: DelayedPulseTrueLogicGate)
        ensures
            r.gate == (DelayedTrueLogicGate { delay_ms, input: false, time_true_ms: 0u64 }),
            !r.pulse,
            !r.last_gate_output,
    {
        DelayedPulseTrueLogicGate {
            gate: DelayedTrueLogicGate::new(delay_ms),
            pulse: false,
            last_gate_output: false,
        }
    }

    /// A gate whose inner level gate starts as `state` and whose pulse
    /// output starts as `pulse`. Starting with `state` true and `pulse`
    /// false swallows the rising edge, so no pulse fires later for an
    /// input that was already true.
    pub fn starting_as(self, state: bool, pulse: bool) -> (r: DelayedPulseTrueLogicGate)
        ensures
            r.gate.delay_ms == self.gate.delay_ms,
            r.gate.input == state,
            r.gate.output_spec() == state,
            r.pulse == pulse,
            r.last_gate_output == (state && !pulse),
            r.wf(),
    {
        DelayedPulseTrueLogicGate {
            gate: self.gate.starting_as(state),
            pulse,
            last_gate_output: state && !pulse,
        }
    }

    pub fn update(&mut self, delta_ms: u64, input: bool)
        requires
            old(self).wf(),
        ensures
            *final(self) == old(self).next_spec(delta_ms, input),
            final(self).wf(),
    {
        self.gate.update(delta_ms, input);
        let gate_output = self.gate.output();
        self.pulse = gate_output && !self.last_gate_output;
        self.last_gate_output = gate_output;
    }

    pub fn output(&self) -> (r: bool)
        ensures
            r == self.output_spec(),
    {
        self.pulse
    }
}

} // verus!
