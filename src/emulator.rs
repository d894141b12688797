use vstd::prelude::*;
use crate::acp::AcpBus;
use crate::blitter::Blitter;
use crate::bus::{BusView, CpuBus};
use crate::cartridges::{CartridgeType, RomError, rom_window, supported_len};

verus! {

/// The primary CPU's clock.
pub const CPU_FREQUENCY_HZ: u64 = 3_579_545;

/// Primary CPU cycles from one vblank to the next.
pub const CYCLES_PER_FRAME: i32 = 59659;

/// A tick longer than this is taken for a host stall.
pub const STALL_NS: u64 = 33_000_000;

/// The time a stalled tick is emulated as: one 60 Hz frame.
pub const STALL_CLAMP_NS: u64 = 16_667_000;

/// The most cycles that one tick can be given.
pub const MAX_TICK_CYCLES: i32 = 118_124;

/// The time that a tick of `elapsed_ns` nanoseconds emulates: a stall is clamped.
pub open spec fn clamp_elapsed(elapsed_ns: u64) -> int {
    if elapsed_ns > 33_000_000 {
        16_667_000
    } else {
        elapsed_ns as int
    }
}

/// The primary CPU cycles that fit in a tick of `elapsed_ns` nanoseconds.
pub open spec fn spec_cycle_budget(elapsed_ns: u64) -> int {
    clamp_elapsed(elapsed_ns) * 3_579_545 / 1_000_000_000
}

pub fn cycle_budget(elapsed_ns: u64) -> (r: i32)
    ensures
        r == spec_cycle_budget(elapsed_ns),
        0 <= r <= MAX_TICK_CYCLES,
{
    let ns: u64 = if elapsed_ns > STALL_NS {
        STALL_CLAMP_NS
    } else {
        elapsed_ns
    };
    assert(ns * 3_579_545 <= 33_000_000 * 3_579_545) by (nonlinear_arith)
        requires
            ns <= 33_000_000,
    ;
    let cycles = ns * CPU_FREQUENCY_HZ / 1_000_000_000;
    assert(cycles <= 118_124) by (nonlinear_arith)
        requires
            cycles == ns * 3_579_545 / 1_000_000_000,
            ns <= 33_000_000,
    ;
    cycles as i32
}

/// What the host does after a primary CPU step.
#[derive(Debug, Clone, Copy, PartialEq, Eq)]
pub struct CpuStep {
    /// Bus cycles that the step took.
    pub cycles: u8,
    /// The level of the CPU's IRQ line.
    pub irq: bool,
    /// Whether to raise the CPU's NMI.
    pub nmi: bool,
    /// Whether the audio coprocessor runs now.
    pub run_acp: bool,
}

/// What the host does before running the audio coprocessor.
#[derive(Debug, Clone, Copy, PartialEq, Eq)]
pub struct AcpStart {
    pub reset: bool,
    pub nmi: bool,
}

/// What the host does after an audio coprocessor step.
#[derive(Debug, Clone, Copy, PartialEq, Eq)]
pub struct AcpStep {
    /// The level of the coprocessor's IRQ line.
    pub irq: bool,
    /// A sample for the audio output, when one is due.
    pub sample: Option<u8>,
    /// Whether the audio output must be rebuilt for the rate that `audio_divisor` gives.
    pub rebuild_audio: bool,
}

/// The console without its two CPU cores: the bus, the blitter and the clocks that tie
/// them to the cores, which the host steps.
#[derive(Debug)]
pub struct Emulator {
    pub cpu_bus: CpuBus,
    pub acp_bus: AcpBus,
    pub blitter: Blitter,
    pub clock_cycles_to_vblank: i32,
    /// Primary CPU cycles left in this tick.
    pub remaining_cycles: i32,
    /// Coprocessor cycles owed: four for each primary cycle.
    pub acp_cycle_accumulator: i32,
    /// Coprocessor cycles to the next sample.
    pub acp_irq_counter: i32,
    /// The sample-rate divisor that the audio output was built for.
    pub audio_divisor: Option<u8>,
}

impl Emulator {
    pub open spec fn wf(&self) -> bool {
        &&& self.cpu_bus.wf()
        &&& self.blitter.inv()
        &&& 0 < self.clock_cycles_to_vblank <= CYCLES_PER_FRAME
        &&& -256 < self.remaining_cycles <= MAX_TICK_CYCLES
        &&& -256 < self.acp_cycle_accumulator
        &&& self.acp_cycle_accumulator + 4 * self.remaining_cycles <= 4 * MAX_TICK_CYCLES
        &&& 0 <= self.acp_irq_counter <= 508
    }

    /// A powered-on console holding `cartridge`, before its first tick.
    pub fn init(cartridge: CartridgeType) -> (r: Emulator)
        requires
            cartridge.wf(),
        ensures
            r.wf(),
            r.cpu_bus@ == BusView::power_on(cartridge.window()),
            r.acp_bus == (AcpBus { cycles: 0, sample: 0 }),
            r.blitter == Blitter::spec_default(),
            r.clock_cycles_to_vblank == CYCLES_PER_FRAME,
            r.remaining_cycles == 0,
            r.acp_cycle_accumulator == 0,
            r.acp_irq_counter == 0,
            r.audio_divisor is None,
    {
        Emulator {
            cpu_bus: CpuBus::new(cartridge),
            acp_bus: AcpBus::new(),
            blitter: Blitter::default(),
            clock_cycles_to_vblank: CYCLES_PER_FRAME,
            remaining_cycles: 0,
            acp_cycle_accumulator: 0,
            acp_irq_counter: 0,
            audio_divisor: None,
        }
    }

    /// Swaps in the cartridge of ROM image `bytes` and clears a pending blitter IRQ; an
    /// image of an unsupported size is refused and nothing changes. The host resets both
    /// CPU cores after a load.
    pub fn load_rom(&mut self, bytes: &[u8]) -> (r: Result<(), RomError>)
        requires
            old(self).wf(),
        ensures
            final(self).wf(),
            supported_len(bytes@.len()) <==> r is Ok,
            r is Err ==> *final(self) == *old(self) && r->Err_0 == RomError::UnsupportedSize(
                bytes@.len() as usize,
            ),
            r is Ok ==> final(self).cpu_bus@ == (BusView {
                cartridge: rom_window(bytes@),
                ..old(self).cpu_bus@
            }) && final(self).blitter == (Blitter { irq_trigger: false, ..old(self).blitter })
                && final(self).acp_bus == old(self).acp_bus && final(self).clock_cycles_to_vblank
                == old(self).clock_cycles_to_vblank && final(self).remaining_cycles == old(self).remaining_cycles && final(self).acp_cycle_accumulator == old(self).acp_cycle_accumulator && final(self).acp_irq_counter == old(self).acp_irq_counter
                && final(self).audio_divisor == old(self).audio_divisor,
    {
        match CartridgeType::from_slice(bytes) {
            Ok(cartridge) => {
                self.cpu_bus.cartridge = cartridge;
                self.blitter.clear_irq_trigger();
                Ok(())
            },
            Err(e) => Err(e),
        }
    }

    /// Starts a tick of `elapsed_ns` nanoseconds of wall time.
    pub fn begin_tick(&mut self, elapsed_ns: u64)
        requires
            old(self).wf(),
        ensures
            final(self).wf(),
            *final(self) == (Emulator {
                remaining_cycles: spec_cycle_budget(elapsed_ns) as i32,
                acp_cycle_accumulator: 0,
                ..*old(self)
            }),
    {
        self.remaining_cycles = cycle_budget(elapsed_ns);
        self.acp_cycle_accumulator = 0;
    }

    /// Whether the tick has cycles left for another primary CPU step.
    pub fn tick_pending(&self) -> (r: bool)
        ensures
            r == (self.remaining_cycles > 0),
    {
        self.remaining_cycles > 0
    }

    /// Accounts for a primary CPU step whose bus accesses the bus has counted: charges the
    /// tick, owes the coprocessor four cycles for each, runs the blitter once per cycle and
    /// counts down to vblank.
    pub fn after_cpu_step(&mut self) -> (r: CpuStep)
        requires
            old(self).wf(),
            old(self).remaining_cycles > 0,
        ensures
            final(self).wf(),
            r.cycles == old(self).cpu_bus.cycles,
            final(self).remaining_cycles == old(self).remaining_cycles - r.cycles,
            final(self).acp_cycle_accumulator == old(self).acp_cycle_accumulator + 4 * r.cycles,
            (final(self).blitter, final(self).cpu_bus@) == old(self).blitter.run(
                BusView { cycles: 0, ..old(self).cpu_bus@ },
                r.cycles as nat,
            ),
            r.irq == final(self).blitter.irq_trigger,
            old(self).clock_cycles_to_vblank - r.cycles <= 0 ==> final(self).clock_cycles_to_vblank == old(self).clock_cycles_to_vblank - r.cycles
                + CYCLES_PER_FRAME,
            old(self).clock_cycles_to_vblank - r.cycles > 0 ==> final(self).clock_cycles_to_vblank
                == old(self).clock_cycles_to_vblank - r.cycles,
            r.nmi == (old(self).clock_cycles_to_vblank - r.cycles <= 0
                && final(self).cpu_bus@.system_control.dma_flags.spec_dma_nmi()),
            r.run_acp == (final(self).cpu_bus@.system_control.audio_enable_sample_rate >= 128),
            final(self).acp_bus == old(self).acp_bus,
            final(self).acp_irq_counter == old(self).acp_irq_counter,
            final(self).audio_divisor == old(self).audio_divisor,
    {
        let cycles = self.cpu_bus.clear_cycles();
        self.remaining_cycles = self.remaining_cycles - cycles as i32;
        self.acp_cycle_accumulator = self.acp_cycle_accumulator + 4 * cycles as i32;
        let ghost b0 = self.blitter;
        let ghost v0 = self.cpu_bus@;
        let mut i: u8 = 0;
        while i < cycles
            invariant
                i <= cycles,
                self.cpu_bus.wf(),
                self.blitter.inv(),
                (self.blitter, self.cpu_bus@) == b0.run(v0, i as nat),
                self.cpu_bus@.system_control == v0.system_control,
                self.clock_cycles_to_vblank == old(self).clock_cycles_to_vblank,
                self.remaining_cycles == old(self).remaining_cycles - cycles,
                self.acp_cycle_accumulator == old(self).acp_cycle_accumulator + 4 * cycles,
                self.acp_irq_counter == old(self).acp_irq_counter,
                self.acp_bus == old(self).acp_bus,
                self.audio_divisor == old(self).audio_divisor,
            decreases cycles - i,
        {
            proof {
                self.blitter.lemma_step_frame(self.cpu_bus@);
            }
            self.blitter.cycle(&mut self.cpu_bus);
            i += 1;
        }
        let irq = self.blitter.irq_trigger;
        self.clock_cycles_to_vblank = self.clock_cycles_to_vblank - cycles as i32;
        let mut nmi = false;
        if self.clock_cycles_to_vblank <= 0 {
            self.clock_cycles_to_vblank = self.clock_cycles_to_vblank + CYCLES_PER_FRAME;
            nmi = self.cpu_bus.vblank_nmi_enabled();
        }
        let run_acp = self.cpu_bus.system_control.acp_enabled();
        CpuStep { cycles, irq, nmi, run_acp }
    }

    /// Takes the coprocessor's reset and NMI strobes before it runs.
    pub fn begin_acp(&mut self) -> (r: AcpStart)
        requires
            old(self).wf(),
        ensures
            final(self).wf(),
            r.reset == (old(self).cpu_bus.system_control.reset_acp != 0),
            r.nmi == (old(self).cpu_bus.system_control.nmi_acp != 0),
            final(self).cpu_bus@ == (BusView {
                system_control: crate::registers::SystemControl {
                    reset_acp: 0,
                    nmi_acp: 0,
                    ..old(self).cpu_bus.system_control
                },
                ..old(self).cpu_bus@
            }),
            final(self).acp_bus == old(self).acp_bus,
            final(self).blitter == old(self).blitter,
            final(self).clock_cycles_to_vblank == old(self).clock_cycles_to_vblank,
            final(self).remaining_cycles == old(self).remaining_cycles,
            final(self).acp_cycle_accumulator == old(self).acp_cycle_accumulator,
            final(self).acp_irq_counter == old(self).acp_irq_counter,
            final(self).audio_divisor == old(self).audio_divisor,
    {
        let reset = self.cpu_bus.system_control.clear_acp_reset();
        let nmi = self.cpu_bus.system_control.clear_acp_nmi();
        AcpStart { reset, nmi }
    }

    /// Whether the coprocessor is owed cycles.
    pub fn acp_pending(&self) -> (r: bool)
        ensures
            r == (self.acp_cycle_accumulator > 0),
    {
        self.acp_cycle_accumulator > 0
    }

    /// Accounts for a coprocessor step whose bus accesses its bus has counted. When the
    /// sample interval runs out it is reloaded from the divisor, the coprocessor's IRQ is
    /// raised and its DAC sample is handed to the audio output.
    pub fn after_acp_step(&mut self) -> (r: AcpStep)
        requires
            old(self).wf(),
            old(self).acp_cycle_accumulator > 0,
        ensures
            final(self).wf(),
            ({
                let c = old(self).acp_bus.cycles;
                let left = old(self).acp_irq_counter - c;
                let divisor = old(self).cpu_bus@.system_control.spec_sample_rate();
                &&& final(self).acp_cycle_accumulator == old(self).acp_cycle_accumulator - c
                &&& final(self).acp_bus == (AcpBus { cycles: 0, ..old(self).acp_bus })
                &&& r.irq == (left <= 0)
                &&& left <= 0 ==> final(self).acp_irq_counter == divisor * 4 && r.sample == Some(
                    old(self).acp_bus.sample,
                ) && final(self).audio_divisor == Some(divisor) && r.rebuild_audio == (old(self).audio_divisor != Some(divisor))
                &&& left > 0 ==> final(self).acp_irq_counter == left && r.sample is None
                    && final(self).audio_divisor == old(self).audio_divisor && !r.rebuild_audio
            }),
            final(self).cpu_bus@ == old(self).cpu_bus@,
            final(self).blitter == old(self).blitter,
            final(self).clock_cycles_to_vblank == old(self).clock_cycles_to_vblank,
            final(self).remaining_cycles == old(self).remaining_cycles,
    {
        let cycles = self.acp_bus.clear_cycles();
        self.acp_cycle_accumulator = self.acp_cycle_accumulator - cycles as i32;
        self.acp_irq_counter = self.acp_irq_counter - cycles as i32;
        if self.acp_irq_counter <= 0 {
            let divisor = self.cpu_bus.system_control.sample_rate();
            self.acp_irq_counter = divisor as i32 * 4;
            let rebuild_audio = match self.audio_divisor {
                Some(d) => d != divisor,
                None => true,
            };
            self.audio_divisor = Some(divisor);
            AcpStep { irq: true, sample: Some(self.acp_bus.sample), rebuild_audio }
        } else {
            AcpStep { irq: false, sample: None, rebuild_audio: false }
        }
    }
}

} // verus!
