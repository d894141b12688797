use vstd::prelude::*;

verus! {

/// A logic level.
#[derive(Debug, Clone, Copy, PartialEq, Eq, Structural, Hash)]
pub enum Signal {
    Low,
    High,
}

impl Signal {
    pub open spec fn spec_from_bool(b: bool) -> Signal {
        if b {
            Signal::High
        } else {
            Signal::Low
        }
    }

    pub fn from_bool(b: bool) -> (r: Signal)
        ensures
            r == Signal::spec_from_bool(b),
    {
        if b {
            Signal::High
        } else {
            Signal::Low
        }
    }

    pub fn not(self) -> (r: Signal)
        ensures
            r == Signal::spec_from_bool(self == Signal::Low),
    {
        match self {
            Signal::Low => Signal::High,
            Signal::High => Signal::Low,
        }
    }

    pub fn nand(self, other: Signal) -> (r: Signal)
        ensures
            r == Signal::spec_from_bool(!(self == Signal::High && other == Signal::High)),
    {
        match (self, other) {
            (Signal::High, Signal::High) => Signal::Low,
            _ => Signal::High,
        }
    }

    pub fn and(self, other: Signal) -> (r: Signal)
        ensures
            r == Signal::spec_from_bool(self == Signal::High && other == Signal::High),
    {
        match (self, other) {
            (Signal::High, Signal::High) => Signal::High,
            _ => Signal::Low,
        }
    }
}

/// A D flip-flop with active-low preset and clear, latching on a rising clock edge.
#[derive(Debug, Clone, Copy, PartialEq, Eq)]
pub struct FlipFlop {
    pub last_clock: Signal,
    pub last_data: Signal,
}

impl FlipFlop {
    /// The stored bit after one evaluation of the inputs: clear wins over preset, and
    /// otherwise `data` is taken on a rising clock edge.
    pub open spec fn spec_next(self, preset: Signal, data: Signal, clock: Signal, clear: Signal) -> Signal {
        if clear == Signal::Low {
            Signal::Low
        } else if preset == Signal::Low {
            Signal::High
        } else if clock == Signal::High && self.last_clock == Signal::Low {
            data
        } else {
            self.last_data
        }
    }

    pub fn cycle(&mut self, preset: Signal, data: Signal, clock: Signal, clear: Signal) -> (r: Signal)
        ensures
            r == old(self).spec_next(preset, data, clock, clear),
            *final(self) == (FlipFlop { last_clock: clock, last_data: r }),
    {
        if clear == Signal::Low {
            self.last_data = Signal::Low;
        } else if preset == Signal::Low {
            self.last_data = Signal::High;
        } else if clock == Signal::High && self.last_clock == Signal::Low {
            self.last_data = data;
        }
        self.last_clock = clock;
        self.last_data
    }

    pub fn val(&self) -> (r: Signal)
        ensures
            r == self.last_data,
    {
        self.last_data
    }
}

/// An 8-bit down counter with parallel load, after the 74HC40103.
#[derive(Debug, Clone, Copy, PartialEq, Eq)]
pub struct Counter {
    pub counter: u8,
    pub last_clock: Signal,
}

impl Counter {
    /// The count after one evaluation: an asynchronous load, or on a rising clock edge a
    /// synchronous load or, when enabled and above zero, a decrement.
    pub open spec fn spec_next(
        self,
        clock_pulse: Signal,
        parallel_load: Signal,
        terminal_enable: Signal,
        parallel_enable: Signal,
        data: u8,
    ) -> u8 {
        if parallel_load == Signal::Low {
            data
        } else if self.last_clock == Signal::Low && clock_pulse == Signal::High {
            if parallel_enable == Signal::Low {
                data
            } else if terminal_enable == Signal::Low && self.counter > 0 {
                (self.counter - 1) as u8
            } else {
                self.counter
            }
        } else {
            self.counter
        }
    }

    /// Evaluates the inputs; the result is the active-low terminal count output.
    pub fn cycle(
        &mut self,
        clock_pulse: Signal,
        parallel_load: Signal,
        terminal_enable: Signal,
        parallel_enable: Signal,
        data: u8,
    ) -> (r: Signal)
        ensures
            final(self).counter == old(self).spec_next(
                clock_pulse,
                parallel_load,
                terminal_enable,
                parallel_enable,
                data,
            ),
            final(self).last_clock == clock_pulse,
            r == Signal::spec_from_bool(
                !(terminal_enable == Signal::Low && final(self).counter == 0),
            ),
    {
        let mut output = Signal::High;
        if parallel_load == Signal::Low {
            self.counter = data;
        } else if self.last_clock == Signal::Low && clock_pulse == Signal::High {
            if parallel_enable == Signal::Low {
                self.counter = data;
            } else if terminal_enable == Signal::Low && self.counter > 0 {
                self.counter = self.counter - 1;
            }
        }
        if terminal_enable == Signal::Low && self.counter == 0 {
            output = Signal::Low;
        }
        self.last_clock = clock_pulse;
        output
    }
}

/// An 8-bit up counter with synchronous load, after the 74HC161 pair.
#[derive(Debug, Clone, Copy, PartialEq, Eq)]
pub struct CountUp {
    pub counter: u8,
    pub last_clock: Signal,
}

impl CountUp {
    /// The count after one evaluation: a load, or on a rising clock edge with both
    /// enables high an increment that wraps at 256.
    pub open spec fn spec_next(self, load: Signal, enp: Signal, ent: Signal, clk: Signal, load_val: u8) -> u8 {
        if load == Signal::Low {
            load_val
        } else if enp == Signal::High && ent == Signal::High && clk == Signal::High
            && self.last_clock == Signal::Low {
            if self.counter == 255 {
                0
            } else {
                (self.counter + 1) as u8
            }
        } else {
            self.counter
        }
    }

    pub fn cycle(&mut self, load: Signal, enp: Signal, ent: Signal, clk: Signal, load_val: u8) -> (r: u8)
        ensures
            r == old(self).spec_next(load, enp, ent, clk, load_val),
            *final(self) == (CountUp { counter: r, last_clock: clk }),
    {
        if load == Signal::Low {
            self.counter = load_val;
        } else if enp == Signal::High && ent == Signal::High && clk == Signal::High
            && self.last_clock == Signal::Low {
            self.counter = self.counter.wrapping_add(1);
        }
        self.last_clock = clk;
        self.counter
    }
}

} // verus!
