use vstd::prelude::*;
use crate::bus::{BusView, CpuBus};
use crate::registers::{BlitterRegisters, quadrant_of};

verus! {

/// `a + b` modulo 256.
pub open spec fn wadd(a: u8, b: u8) -> u8 {
    if a + b > 255 {
        (a + b - 256) as u8
    } else {
        (a + b) as u8
    }
}

/// `a - b` modulo 256.
pub open spec fn wsub(a: u8, b: u8) -> u8 {
    if a < b {
        (a - b + 256) as u8
    } else {
        (a - b) as u8
    }
}

/// The DMA engine: idle, or walking a rectangle with two offset counters.
#[derive(Debug, Clone, Copy, PartialEq, Eq)]
pub struct Blitter {
    pub src_y: u8,
    pub dst_y: u8,
    pub height: u8,
    pub src_x: u8,
    pub dst_x: u8,
    pub width: u8,
    pub offset_x: u8,
    pub offset_y: u8,
    pub color_fill: bool,
    /// The latched fill color: the complement of the color register.
    pub color: u8,
    /// Whether a blit is running.
    pub blitting: bool,
    /// Set when a blit completes with the IRQ flag on; cleared when the blitter next sees
    /// the start strobe set.
    pub irq_trigger: bool,
}

impl Blitter {
    /// The state that a blit starts in, latched from the registers.
    pub open spec fn latched(self, bus: BusView) -> Blitter {
        Blitter {
            src_y: bus.blitter.gy,
            dst_y: bus.blitter.vy,
            height: bus.blitter.height,
            color: (255 - bus.blitter.color) as u8,
            color_fill: bus.system_control.dma_flags.spec_dma_colorfill_enable(),
            blitting: true,
            offset_x: 0,
            offset_y: 0,
            irq_trigger: false,
            ..self
        }
    }

    /// The VRAM index sampled at offsets (`ox`, `oy`).
    pub open spec fn source_index(self, bus: BusView, ox: u8, oy: u8) -> int {
        let sx0 = (self.src_x % 128) as u8;
        let sy0 = (self.src_y % 128) as u8;
        let sx = if self.width >= 128 { wsub(sx0, self.width) } else { sx0 };
        let sy = if self.height >= 128 { wsub(sy0, self.height) } else { sy0 };
        let bx = if bus.system_control.dma_flags.spec_dma_gcarry() {
            wadd(sx, ox) % 128
        } else {
            wadd(sx, ox % 16) % 128
        };
        let by = if bus.system_control.dma_flags.spec_dma_gcarry() {
            wadd(sy, oy) % 128
        } else {
            wadd(sy, oy % 16) % 128
        };
        bus.system_control.banking_register.spec_vram_page() * 0x10000 + quadrant_of(
            self.src_x,
            self.src_y,
        ) * 0x4000 + by * 128 + bx
    }

    /// The blitter with the registers that are read on every cycle taken in.
    pub open spec fn with_regs(self, bus: BusView) -> Blitter {
        Blitter { src_x: bus.blitter.gx, dst_x: bus.blitter.vx, width: bus.blitter.width, ..self }
    }

    /// The offsets after the end of a row is handled: at the end of a row x goes back to
    /// its start and y moves one row, down or (flipped) up.
    pub open spec fn wrapped_offsets(self) -> (u8, u8) {
        if self.offset_x < self.width {
            (self.offset_x, self.offset_y)
        } else {
            (
                if self.width >= 128 { (self.width - 128) as u8 } else { 0u8 },
                if self.height >= 128 { wsub(self.offset_y, 1) } else { wadd(self.offset_y, 1) },
            )
        }
    }

    /// One bus cycle of a running blit, with the start strobe already taken.
    pub open spec fn run_step(self, bus: BusView) -> (Blitter, BusView) {
        let s = self.with_regs(bus);
        let flags = bus.system_control.dma_flags;
        let ox = s.wrapped_offsets().0;
        let oy = s.wrapped_offsets().1;
        if oy >= s.height {
            (
                Blitter {
                    offset_x: ox,
                    offset_y: if s.height >= 128 { (s.height - 128) as u8 } else { 0 },
                    blitting: false,
                    irq_trigger: s.irq_trigger || flags.spec_dma_irq(),
                    ..s
                },
                bus,
            )
        } else if !flags.spec_dma_enable() {
            (Blitter { offset_x: wadd(ox, 1), offset_y: oy, ..s }, bus)
        } else {
            let color = if s.color_fill {
                s.color
            } else {
                bus.vram[s.source_index(bus, ox, oy)]
            };
            let out_x = wadd(s.dst_x, ox);
            let out_y = wadd(s.dst_y, oy);
            let next_x = if s.width >= 128 { wsub(ox, 1) } else { wadd(ox, 1) };
            let s2 = Blitter { offset_x: next_x, offset_y: oy, ..s };
            if out_x >= 128 || out_y >= 128 {
                (s2, bus)
            } else if flags.spec_dma_opaque() || color != 0 {
                let fb = bus.draw_fb();
                (s2, bus.with_fb(fb, bus.fb(fb).update(out_x + out_y * 128, color)))
            } else {
                (s2, bus)
            }
        }
    }

    /// One bus cycle of the blitter: the new blitter state and bus state.
    pub open spec fn step(self, bus: BusView) -> (Blitter, BusView) {
        let start = bus.blitter.start;
        let taken = BusView { blitter: BlitterRegisters { start: 0, ..bus.blitter }, ..bus };
        if start != 0 && self.blitting {
            Blitter { irq_trigger: false, ..self }.run_step(taken)
        } else if start != 0 && bus.system_control.dma_flags.spec_dma_enable() {
            self.latched(bus).run_step(taken)
        } else if start != 0 {
            (Blitter { irq_trigger: false, ..self }, bus)
        } else if self.blitting {
            self.run_step(bus)
        } else {
            (self, bus)
        }
    }

    /// The blitter and bus after `n` cycles.
    pub open spec fn run(self, bus: BusView, n: nat) -> (Blitter, BusView)
        decreases n,
    {
        if n == 0 {
            (self, bus)
        } else {
            let (b, v) = self.run(bus, (n - 1) as nat);
            b.step(v)
        }
    }

    /// The offset counters are in range for the running blit.
    pub open spec fn inv(self) -> bool {
        self.blitting ==> (self.offset_y < self.height && (self.height >= 128 ==> self.offset_y
            == 0))
    }

    /// A bound on the cycles left in a running blit while the registers hold still.
    pub open spec fn measure(self, bus: BusView) -> int {
        let w = bus.blitter.width;
        let rows = if self.height >= 128 {
            0int
        } else {
            self.height - self.offset_y
        };
        let cols = if self.offset_x >= w {
            0int
        } else if w >= 128 && bus.system_control.dma_flags.spec_dma_enable() {
            self.offset_x + 1
        } else {
            w - self.offset_x
        };
        if self.blitting {
            rows * 512 + cols + 1
        } else {
            0
        }
    }

    /// The measure of a blit in range is at most one cycle per pixel of the largest blit.
    pub proof fn lemma_measure_bound(self, bus: BusView)
        requires
            self.inv(),
        ensures
            0 <= self.measure(bus) <= 65281,
    {
    }

    /// A cycle keeps the counters in range, touches only the start strobe and the
    /// framebuffers, and leaves the strobe clear while a blit runs.
    pub proof fn lemma_step_frame(self, bus: BusView)
        requires
            self.inv(),
        ensures
            self.step(bus).0.inv(),
            self.step(bus).1 == (BusView {
                blitter: BlitterRegisters { start: self.step(bus).1.blitter.start, ..bus.blitter },
                fb0: self.step(bus).1.fb0,
                fb1: self.step(bus).1.fb1,
                ..bus
            }),
            self.step(bus).0.blitting ==> self.step(bus).1.blitter.start == 0,
    {
    }

    /// While the registers hold still, each cycle of a running blit lowers the measure.
    pub proof fn lemma_step_decreases(self, bus: BusView)
        requires
            self.inv(),
            self.blitting,
            bus.blitter.start == 0,
        ensures
            0 <= self.step(bus).0.measure(self.step(bus).1) < self.measure(bus),
    {
        self.lemma_step_frame(bus);
    }

    /// An idle blitter with clear counters and no IRQ pending.
    pub open spec fn spec_default() -> Blitter {
        Blitter {
            src_y: 0,
            dst_y: 0,
            height: 0,
            src_x: 0,
            dst_x: 0,
            width: 0,
            offset_x: 0,
            offset_y: 0,
            color_fill: false,
            color: 0,
            blitting: false,
            irq_trigger: false,
        }
    }

    pub fn default() -> (r: Blitter)
        ensures
            r == Blitter::spec_default(),
    {
        Blitter {
            src_y: 0,
            dst_y: 0,
            height: 0,
            src_x: 0,
            dst_x: 0,
            width: 0,
            offset_x: 0,
            offset_y: 0,
            color_fill: false,
            color: 0,
            blitting: false,
            irq_trigger: false,
        }
    }

    /// Back to the power-on state.
    pub fn reset(&mut self)
        ensures
            *final(self) == Blitter::spec_default(),
    {
        *self = Blitter::default();
    }

    /// Returns whether an IRQ was pending, and clears it.
    pub fn clear_irq_trigger(&mut self) -> (r: bool)
        ensures
            r == old(self).irq_trigger,
            *final(self) == (Blitter { irq_trigger: false, ..*old(self) }),
    {
        let result = self.irq_trigger;
        self.irq_trigger = false;
        result
    }

    /// The source pixel at offsets (`ox`, `oy`), or the fill color.
    fn sample_color(&self, bus: &CpuBus, ox: u8, oy: u8) -> (r: u8)
        requires
            bus.wf(),
        ensures
            r == (if self.color_fill {
                self.color
            } else {
                bus@.vram[self.source_index(bus@, ox, oy)]
            }),
    {
        if self.color_fill {
            return self.color;
        }
        let page = bus.system_control.banking_register.vram_page() as usize;
        let mut sx: u8 = self.src_x % 128;
        let mut sy: u8 = self.src_y % 128;
        if self.width >= 128 {
            sx = sx.wrapping_sub(self.width);
        }
        if self.height >= 128 {
            sy = sy.wrapping_sub(self.height);
        }
        let gcarry = bus.system_control.dma_flags.dma_gcarry();
        // without gcarry the source repeats in 16x16 tiles
        let bx: u8 = if gcarry {
            sx.wrapping_add(ox) % 128
        } else {
            sx.wrapping_add(ox % 16) % 128
        };
        let by: u8 = if gcarry {
            sy.wrapping_add(oy) % 128
        } else {
            sy.wrapping_add(oy % 16) % 128
        };
        let quadrant: usize = (if self.src_x >= 128 { 1 } else { 0 }) + (if self.src_y >= 128 {
            2
        } else {
            0
        });
        bus.vram_banks[page * 0x10000 + quadrant * 0x4000 + by as usize * 128 + bx as usize]
    }

    fn run_cycle(&mut self, bus: &mut CpuBus)
        requires
            old(bus).wf(),
        ensures
            final(bus).wf(),
            (*final(self), final(bus)@) == old(self).run_step(old(bus)@),
    {
        self.src_x = bus.blitter.gx;
        self.dst_x = bus.blitter.vx;
        self.width = bus.blitter.width;
        let mut ox = self.offset_x;
        let mut oy = self.offset_y;
        if ox >= self.width {
            if self.width >= 128 {
                ox = self.width - 128;
            } else {
                ox = 0;
            }
            if self.height >= 128 {
                oy = oy.wrapping_sub(1);
            } else {
                oy = oy.wrapping_add(1);
            }
        }
        if oy >= self.height {
            self.offset_x = ox;
            if self.height >= 128 {
                self.offset_y = self.height - 128;
            } else {
                self.offset_y = 0;
            }
            self.blitting = false;
            if bus.system_control.dma_flags.dma_irq() {
                self.irq_trigger = true;
            }
            return ;
        }
        self.offset_y = oy;
        // with DMA disabled the counters keep walking, but nothing is written
        if !bus.system_control.dma_flags.dma_enable() {
            self.offset_x = ox.wrapping_add(1);
            return ;
        }
        let color = self.sample_color(bus, ox, oy);
        let out_x = self.dst_x.wrapping_add(ox);
        let out_y = self.dst_y.wrapping_add(oy);
        if self.width >= 128 {
            self.offset_x = ox.wrapping_sub(1);
        } else {
            self.offset_x = ox.wrapping_add(1);
        }
        if out_x < 128 && out_y < 128 && (bus.system_control.dma_flags.dma_opaque() || color
            != 0) {
            let fb: usize = if bus.system_control.banking_register.framebuffer() {
                1
            } else {
                0
            };
            bus.framebuffers.set(fb, out_x as usize + out_y as usize * 128, color);
        }
    }

    /// Advances the blitter by one bus cycle.
    pub fn cycle(&mut self, bus: &mut CpuBus)
        requires
            old(bus).wf(),
        ensures
            final(bus).wf(),
            (*final(self), final(bus)@) == old(self).step(old(bus)@),
    {
        if bus.blitter.start != 0 {
            self.irq_trigger = false;
            if self.blitting {
                bus.blitter.start = 0;
            } else if bus.system_control.dma_flags.dma_enable() {
                bus.blitter.start = 0;
                self.src_y = bus.blitter.gy;
                self.dst_y = bus.blitter.vy;
                self.height = bus.blitter.height;
                self.color = 255 - bus.blitter.color;
                self.color_fill = bus.system_control.dma_flags.dma_colorfill_enable();
                self.blitting = true;
                self.offset_x = 0;
                self.offset_y = 0;
            } else {
                return ;
            }
        } else if !self.blitting {
            return ;
        }
        self.run_cycle(bus);
    }

    /// Runs a blit that is about to start to its end in one call; the result is that of
    /// calling `cycle` until the blitter is idle again.
    pub fn instant_blit(&mut self, bus: &mut CpuBus)
        requires
            old(bus).wf(),
            old(self).inv(),
        ensures
            final(bus).wf(),
            final(self).inv(),
            !old(self).blitting && old(bus)@.blitter.start != 0 ==> exists|n: nat|
                1 <= n <= 65282 && (*final(self), final(bus)@) == old(self).run(old(bus)@, n)
                    && !final(self).blitting,
            !old(self).blitting && old(bus)@.blitter.start != 0
                && old(bus)@.system_control.dma_flags.spec_dma_enable() ==> final(bus)@.blitter.start
                == 0 && final(self).irq_trigger == old(bus)@.system_control.dma_flags.spec_dma_irq(),
            !(!old(self).blitting && old(bus)@.blitter.start != 0) ==> *final(self) == *old(self)
                && final(bus)@ == old(bus)@,
    {
        if !self.blitting && bus.blitter.start != 0 {
            let ghost s0 = *self;
            let ghost b0 = bus@;
            let ghost mut n: nat = 1;
            proof {
                s0.lemma_step_frame(b0);
                assert(s0.run(b0, 0) == (s0, b0));
            }
            self.cycle(bus);
            proof {
                self.lemma_measure_bound(bus@);
            }
            while self.blitting
                invariant
                    bus.wf(),
                    self.inv(),
                    n >= 1,
                    (*self, bus@) == s0.run(b0, n),
                    self.blitting ==> bus@.blitter.start == 0,
                    bus@.blitter == (BlitterRegisters { start: bus@.blitter.start, ..b0.blitter }),
                    bus@.system_control == b0.system_control,
                    n + self.measure(bus@) <= 65282,
                    self.blitting ==> !self.irq_trigger,
                    b0.system_control.dma_flags.spec_dma_enable() ==> bus@.blitter.start == 0
                        && (!self.blitting ==> self.irq_trigger
                        == b0.system_control.dma_flags.spec_dma_irq()),
                decreases self.measure(bus@),
            {
                proof {
                    self.lemma_step_decreases(bus@);
                    self.lemma_step_frame(bus@);
                }
                self.cycle(bus);
                proof {
                    n = n + 1;
                    self.lemma_measure_bound(bus@);
                }
            }
        }
    }
}

} // verus!
