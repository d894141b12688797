use vstd::prelude::*;
use crate::cartridges::CartridgeType;
use crate::registers::{
    BlitterRegisters, GraphicsMemoryMap, SystemControl, quadrant_of,
};

verus! {

/// Pixels in one 128x128 framebuffer.
pub const FRAMEBUFFER_SIZE: usize = 0x4000;

/// Bytes in one bank of general RAM ($0200-$1FFF).
pub const RAM_BANK_SIZE: usize = 0x1E00;

/// Bytes in one VRAM bank: four 128x128 quadrants.
pub const VRAM_BANK_SIZE: usize = 0x10000;

/// Bytes of audio RAM shared with the audio coprocessor.
pub const ARAM_SIZE: usize = 0x1000;

/// A framebuffer of 128x128 pixels, all of color `fill`.
pub fn new_framebuffer(fill: u8) -> (r: Vec<u8>)
    ensures
        r@ == Seq::new(0x4000, |i: int| fill),
{
    let r: Vec<u8> = vec![fill; FRAMEBUFFER_SIZE];
    assert(r@ =~= Seq::new(0x4000, |i: int| fill));
    r
}

/// The two framebuffers, each owned once: one is shown, the other drawn into.
#[derive(Debug)]
pub struct FramebufferSet {
    pub fb0: Vec<u8>,
    pub fb1: Vec<u8>,
}

impl FramebufferSet {
    pub open spec fn wf(&self) -> bool {
        self.fb0@.len() == 0x4000 && self.fb1@.len() == 0x4000
    }

    /// The pixels of buffer `i` (0 or 1).
    pub open spec fn buffer(&self, i: int) -> Seq<u8> {
        if i == 0 {
            self.fb0@
        } else {
            self.fb1@
        }
    }

    pub fn get(&self, fb: usize, offset: usize) -> (r: u8)
        requires
            self.wf(),
            fb < 2,
            offset < 0x4000,
        ensures
            r == self.buffer(fb as int)[offset as int],
    {
        if fb == 0 {
            self.fb0[offset]
        } else {
            self.fb1[offset]
        }
    }

    pub fn set(&mut self, fb: usize, offset: usize, value: u8)
        requires
            old(self).wf(),
            fb < 2,
            offset < 0x4000,
        ensures
            final(self).wf(),
            final(self).buffer(fb as int) == old(self).buffer(fb as int).update(offset as int, value),
            final(self).buffer(1 - fb) == old(self).buffer(1 - fb),
    {
        if fb == 0 {
            self.fb0.set(offset, value);
        } else {
            self.fb1.set(offset, value);
        }
    }

    /// A borrowed view of buffer `fb`.
    pub fn buffer_ref(&self, fb: usize) -> (r: &Vec<u8>)
        requires
            fb < 2,
        ensures
            r@ == self.buffer(fb as int),
    {
        if fb == 0 {
            &self.fb0
        } else {
            &self.fb1
        }
    }
}

/// The state of the primary CPU's address space, as values.
pub ghost struct BusView {
    pub zero_page: Seq<u8>,
    pub cpu_stack: Seq<u8>,
    /// The four RAM banks, one after another.
    pub ram_banks: Seq<u8>,
    pub fb0: Seq<u8>,
    pub fb1: Seq<u8>,
    /// The eight VRAM banks, one after another, each of four quadrants.
    pub vram: Seq<u8>,
    pub aram: Seq<u8>,
    pub system_control: SystemControl,
    pub blitter: BlitterRegisters,
    /// The cartridge window at $8000-$FFFF.
    pub cartridge: Seq<u8>,
    pub cycles: u8,
}

/// Index into the RAM banks of `address` ($0200-$1FFF) in bank `bank`.
pub open spec fn ram_index(bank: u8, address: u16) -> int {
    bank * 0x1E00 + (address - 0x200)
}

/// Index into VRAM of `address` ($4000-$7FFF) in bank `page`, quadrant `quadrant`.
pub open spec fn vram_index(page: u8, quadrant: int, address: u16) -> int {
    page * 0x10000 + quadrant * 0x4000 + (address - 0x4000)
}

impl BusView {
    /// Which framebuffer is drawn into: the framebuffer bit of the banking register.
    pub open spec fn draw_fb(self) -> int {
        if self.system_control.banking_register.spec_framebuffer() {
            1
        } else {
            0
        }
    }

    /// Which framebuffer is shown: the page-out flag.
    pub open spec fn shown_fb(self) -> int {
        if self.system_control.dma_flags.spec_dma_page_out() {
            1
        } else {
            0
        }
    }

    pub open spec fn fb(self, i: int) -> Seq<u8> {
        if i == 0 {
            self.fb0
        } else {
            self.fb1
        }
    }

    pub open spec fn with_fb(self, i: int, pixels: Seq<u8>) -> BusView {
        if i == 0 {
            BusView { fb0: pixels, ..self }
        } else {
            BusView { fb1: pixels, ..self }
        }
    }

    pub open spec fn vram_window_index(self, address: u16) -> int {
        vram_index(
            self.system_control.banking_register.spec_vram_page(),
            quadrant_of(self.blitter.gx, self.blitter.gy),
            address,
        )
    }

    /// The byte that a read of `address` returns.
    pub open spec fn read_value(self, address: u16) -> u8 {
        if address <= 0x00FF {
            self.zero_page[address as int]
        } else if address <= 0x01FF {
            self.cpu_stack[address - 0x100]
        } else if address <= 0x1FFF {
            self.ram_banks[ram_index(self.system_control.banking_register.spec_ram_bank(), address)]
        } else if address <= 0x2009 {
            self.system_control.spec_read(address)
        } else if 0x3000 <= address <= 0x3FFF {
            self.aram[address - 0x3000]
        } else if 0x4000 <= address <= 0x7FFF {
            match self.system_control.spec_graphics_memory_map() {
                GraphicsMemoryMap::FrameBuffer => self.fb(self.draw_fb())[address - 0x4000],
                GraphicsMemoryMap::VRAM => self.vram[self.vram_window_index(address)],
                GraphicsMemoryMap::BlitterRegisters => 0,
            }
        } else if address >= 0x8000 {
            self.cartridge[address - 0x8000]
        } else {
            0
        }
    }

    /// The state after a read of `address`: only the gamepad status reads change it.
    pub open spec fn after_read(self, address: u16) -> BusView {
        if 0x2000 <= address <= 0x2009 {
            BusView { system_control: self.system_control.spec_after_read(address), ..self }
        } else {
            self
        }
    }

    /// Whether a read of `address` reaches something readable: not a write-only register,
    /// not an unmapped hole. The VIA stub counts as mapped.
    pub open spec fn readable(self, address: u16) -> bool {
        ||| address <= 0x1FFF
        ||| address == 0x2008
        ||| address == 0x2009
        ||| 0x2800 <= address <= 0x280F
        ||| 0x3000 <= address <= 0x3FFF
        ||| 0x4000 <= address <= 0x7FFF && !self.system_control.dma_flags.spec_dma_enable()
        ||| address >= 0x8000
    }

    /// Whether a write to `address` reaches something writable: not read-only, not an
    /// unmapped hole. The VIA stub counts as mapped.
    pub open spec fn writable(self, address: u16) -> bool {
        ||| address <= 0x1FFF
        ||| address == 0x2000
        ||| address == 0x2001
        ||| 0x2005 <= address <= 0x2007
        ||| 0x2800 <= address <= 0x280F
        ||| 0x3000 <= address <= 0x3FFF
        ||| 0x4000 <= address <= 0x7FFF && (!self.system_control.dma_flags.spec_dma_enable()
            || address <= 0x4007)
    }

    /// The state after a write of `data` at `address`.
    pub open spec fn write(self, address: u16, data: u8) -> BusView {
        if address <= 0x00FF {
            BusView { zero_page: self.zero_page.update(address as int, data), ..self }
        } else if address <= 0x01FF {
            BusView { cpu_stack: self.cpu_stack.update(address - 0x100, data), ..self }
        } else if address <= 0x1FFF {
            BusView {
                ram_banks: self.ram_banks.update(
                    ram_index(self.system_control.banking_register.spec_ram_bank(), address),
                    data,
                ),
                ..self
            }
        } else if address <= 0x2009 {
            BusView { system_control: self.system_control.spec_write(address, data), ..self }
        } else if 0x3000 <= address <= 0x3FFF {
            BusView { aram: self.aram.update(address - 0x3000, data), ..self }
        } else if 0x4000 <= address <= 0x7FFF {
            match self.system_control.spec_graphics_memory_map() {
                GraphicsMemoryMap::FrameBuffer => self.with_fb(
                    self.draw_fb(),
                    self.fb(self.draw_fb()).update(address - 0x4000, data),
                ),
                GraphicsMemoryMap::VRAM => BusView {
                    vram: self.vram.update(self.vram_window_index(address), data),
                    ..self
                },
                GraphicsMemoryMap::BlitterRegisters => BusView {
                    blitter: self.blitter.spec_write(address, data),
                    ..self
                },
            }
        } else {
            self
        }
    }
}

/// The primary CPU's bus: all addressable state, and the decode of its address space.
#[derive(Debug)]
pub struct CpuBus {
    /// Bus accesses since the counter was last cleared.
    pub cycles: u8,
    pub zero_page: Vec<u8>,
    pub cpu_stack: Vec<u8>,
    pub system_control: SystemControl,
    pub blitter: BlitterRegisters,
    pub ram_banks: Vec<u8>,
    pub framebuffers: FramebufferSet,
    pub vram_banks: Vec<u8>,
    pub aram: Vec<u8>,
    pub cartridge: CartridgeType,
}

impl View for CpuBus {
    type V = BusView;

    open spec fn view(&self) -> BusView {
        BusView {
            zero_page: self.zero_page@,
            cpu_stack: self.cpu_stack@,
            ram_banks: self.ram_banks@,
            fb0: self.framebuffers.fb0@,
            fb1: self.framebuffers.fb1@,
            vram: self.vram_banks@,
            aram: self.aram@,
            system_control: self.system_control,
            blitter: self.blitter,
            cartridge: self.cartridge.window(),
            cycles: self.cycles,
        }
    }
}

impl BusView {
    /// The state at power-on with a cartridge whose window is `cartridge`: memories clear,
    /// framebuffer 0 black and framebuffer 1 filled with 0xFF, color fill set, blitter
    /// registers at their reset values.
    pub open spec fn power_on(cartridge: Seq<u8>) -> BusView {
        BusView {
            zero_page: Seq::new(0x100, |i: int| 0u8),
            cpu_stack: Seq::new(0x100, |i: int| 0u8),
            ram_banks: Seq::new(4 * 0x1E00, |i: int| 0u8),
            fb0: Seq::new(0x4000, |i: int| 0u8),
            fb1: Seq::new(0x4000, |i: int| 0xFFu8),
            vram: Seq::new(8 * 0x10000, |i: int| 0u8),
            aram: Seq::new(0x1000, |i: int| 0u8),
            system_control: SystemControl::spec_new(),
            blitter: BlitterRegisters {
                vx: 0,
                vy: 0,
                gx: 0,
                gy: 0,
                width: 127,
                height: 127,
                start: 0,
                color: 0b101_00_000,
            },
            cartridge,
            cycles: 0,
        }
    }

    /// The sizes of all memories.
    pub open spec fn wf(self) -> bool {
        &&& self.zero_page.len() == 0x100
        &&& self.cpu_stack.len() == 0x100
        &&& self.ram_banks.len() == 4 * 0x1E00
        &&& self.fb0.len() == 0x4000
        &&& self.fb1.len() == 0x4000
        &&& self.vram.len() == 8 * 0x10000
        &&& self.aram.len() == 0x1000
        &&& self.cartridge.len() == 0x8000
    }
}

impl CpuBus {
    pub open spec fn wf(&self) -> bool {
        self@.wf() && self.cartridge.wf()
    }

    /// A powered-on bus holding `cartridge`.
    pub fn new(cartridge: CartridgeType) -> (r: CpuBus)
        requires
            cartridge.wf(),
        ensures
            r.wf(),
            r@ == BusView::power_on(cartridge.window()),
    {
        let zero_page: Vec<u8> = vec![0u8; 0x100];
        let cpu_stack: Vec<u8> = vec![0u8; 0x100];
        let ram_banks: Vec<u8> = vec![0u8; 4 * RAM_BANK_SIZE];
        let vram_banks: Vec<u8> = vec![0u8; 8 * VRAM_BANK_SIZE];
        let aram: Vec<u8> = vec![0u8; ARAM_SIZE];
        let r = CpuBus {
            cycles: 0,
            zero_page,
            cpu_stack,
            system_control: SystemControl::new(),
            blitter: BlitterRegisters {
                vx: 0,
                vy: 0,
                gx: 0,
                gy: 0,
                width: 127,
                height: 127,
                start: 0,
                color: 0b101_00_000,
            },
            ram_banks,
            framebuffers: FramebufferSet { fb0: new_framebuffer(0x00), fb1: new_framebuffer(0xFF) },
            vram_banks,
            aram,
            cartridge,
        };
        assert(r@.zero_page =~= Seq::new(0x100, |i: int| 0u8));
        assert(r@.cpu_stack =~= Seq::new(0x100, |i: int| 0u8));
        assert(r@.ram_banks =~= Seq::new(4 * 0x1E00, |i: int| 0u8));
        assert(r@.vram =~= Seq::new(8 * 0x10000, |i: int| 0u8));
        assert(r@.aram =~= Seq::new(0x1000, |i: int| 0u8));
        r
    }

    /// A powered-on bus with no cartridge inserted, its framebuffers holding noise as the
    /// hardware's do at power-on.
    pub fn default() -> (r: CpuBus)
        ensures
            r.wf(),
            r@ == (BusView {
                fb0: r@.fb0,
                fb1: r@.fb1,
                ..BusView::power_on(Seq::new(0x8000, |i: int| 0u8))
            }),
    {
        let mut bus = CpuBus::new(CartridgeType::blank());
        bus.randomize_framebuffers();
        bus
    }

    /// The framebuffer that the page-out flag selects for display.
    pub fn read_full_framebuffer(&self) -> (r: &Vec<u8>)
        requires
            self.wf(),
        ensures
            r@ == self@.fb(self@.shown_fb()),
    {
        let fb = self.system_control.get_framebuffer_out();
        self.framebuffers.buffer_ref(fb)
    }

    fn draw_fb(&self) -> (r: usize)
        ensures
            r == self@.draw_fb(),
    {
        if self.system_control.banking_register.framebuffer() {
            1
        } else {
            0
        }
    }

    fn vram_window_index(&self, address: u16) -> (r: usize)
        requires
            0x4000 <= address <= 0x7FFF,
        ensures
            r == self@.vram_window_index(address),
            r < 8 * 0x10000,
    {
        let page = self.system_control.banking_register.vram_page() as usize;
        let quadrant = self.blitter.vram_quadrant();
        page * VRAM_BANK_SIZE + quadrant * 0x4000 + (address as usize - 0x4000)
    }

    pub fn write_byte(&mut self, address: u16, data: u8)
        requires
            old(self).wf(),
        ensures
            final(self).wf(),
            final(self)@ == old(self)@.write(address, data),
    {
        if address <= 0x00FF {
            self.zero_page.set(address as usize, data);
        } else if address <= 0x01FF {
            self.cpu_stack.set(address as usize - 0x100, data);
        } else if address <= 0x1FFF {
            let bank = self.system_control.get_ram_bank();
            self.ram_banks.set(bank * RAM_BANK_SIZE + (address as usize - 0x200), data);
        } else if address <= 0x2009 {
            self.system_control.write_byte(address, data);
        } else if 0x2800 <= address && address <= 0x280F {
            // the VIA is not emulated
        } else if 0x3000 <= address && address <= 0x3FFF {
            self.aram.set(address as usize - 0x3000, data);
        } else if 0x4000 <= address && address <= 0x7FFF {
            match self.system_control.get_graphics_memory_map() {
                GraphicsMemoryMap::FrameBuffer => {
                    let fb = self.draw_fb();
                    self.framebuffers.set(fb, address as usize - 0x4000, data);
                },
                GraphicsMemoryMap::VRAM => {
                    let i = self.vram_window_index(address);
                    self.vram_banks.set(i, data);
                },
                GraphicsMemoryMap::BlitterRegisters => {
                    self.blitter.write_byte(address, data);
                },
            }
        }
    }

    pub fn read_byte(&mut self, address: u16) -> (r: u8)
        requires
            old(self).wf(),
        ensures
            final(self).wf(),
            r == old(self)@.read_value(address),
            final(self)@ == old(self)@.after_read(address),
    {
        if address <= 0x00FF {
            self.zero_page[address as usize]
        } else if address <= 0x01FF {
            self.cpu_stack[address as usize - 0x100]
        } else if address <= 0x1FFF {
            let bank = self.system_control.get_ram_bank();
            self.ram_banks[bank * RAM_BANK_SIZE + (address as usize - 0x200)]
        } else if address <= 0x2009 {
            self.system_control.read_byte(address)
        } else if 0x3000 <= address && address <= 0x3FFF {
            self.aram[address as usize - 0x3000]
        } else if 0x4000 <= address && address <= 0x7FFF {
            match self.system_control.get_graphics_memory_map() {
                GraphicsMemoryMap::FrameBuffer => {
                    let fb = self.draw_fb();
                    self.framebuffers.get(fb, address as usize - 0x4000)
                },
                GraphicsMemoryMap::VRAM => {
                    let i = self.vram_window_index(address);
                    self.vram_banks[i]
                },
                GraphicsMemoryMap::BlitterRegisters => self.blitter.read_byte(address),
            }
        } else if address >= 0x8000 {
            self.cartridge.read(address - 0x8000)
        } else {
            0
        }
    }

    /// Whether a read of `address` reaches something readable; a read that does not
    /// yields 0 and changes nothing.
    pub fn is_readable(&self, address: u16) -> (r: bool)
        ensures
            r == self@.readable(address),
            !r ==> self@.read_value(address) == 0 && self@.after_read(address) == self@,
    {
        let blitter_window = self.system_control.dma_flags.dma_enable();
        address <= 0x1FFF || address == 0x2008 || address == 0x2009 || (0x2800 <= address
            && address <= 0x280F) || (0x3000 <= address && address <= 0x3FFF) || (0x4000
            <= address && address <= 0x7FFF && !blitter_window) || address >= 0x8000
    }

    /// Whether a write to `address` reaches something writable; a write that does not
    /// changes nothing.
    pub fn is_writable(&self, address: u16) -> (r: bool)
        ensures
            r == self@.writable(address),
            !r ==> forall|data: u8| #[trigger] self@.write(address, data) == self@,
    {
        let blitter_window = self.system_control.dma_flags.dma_enable();
        address <= 0x1FFF || address == 0x2000 || address == 0x2001 || (0x2005 <= address
            && address <= 0x2007) || (0x2800 <= address && address <= 0x280F) || (0x3000
            <= address && address <= 0x3FFF) || (0x4000 <= address && address <= 0x7FFF && (
        !blitter_window || address <= 0x4007))
    }

    /// A read by the CPU: one bus cycle.
    pub fn read(&mut self, address: u16) -> (r: u8)
        requires
            old(self).wf(),
        ensures
            final(self).wf(),
            r == old(self)@.read_value(address),
            final(self)@ == (BusView {
                cycles: old(self).cycles.wrapping_add(1),
                ..old(self)@.after_read(address)
            }),
    {
        self.cycles = self.cycles.wrapping_add(1);
        self.read_byte(address)
    }

    /// A write by the CPU: one bus cycle.
    pub fn write(&mut self, address: u16, data: u8)
        requires
            old(self).wf(),
        ensures
            final(self).wf(),
            final(self)@ == (BusView {
                cycles: old(self).cycles.wrapping_add(1),
                ..old(self)@.write(address, data)
            }),
    {
        self.cycles = self.cycles.wrapping_add(1);
        self.write_byte(address, data);
    }

    /// Returns the bus cycles counted since the last call, and restarts the count.
    pub fn clear_cycles(&mut self) -> (r: u8)
        ensures
            r == old(self).cycles,
            final(self)@ == (BusView { cycles: 0, ..old(self)@ }),
            final(self).wf() == old(self).wf(),
    {
        let r = self.cycles;
        self.cycles = 0;
        r
    }

    pub fn vblank_nmi_enabled(&self) -> (r: bool)
        ensures
            r == self.system_control.dma_flags.spec_dma_nmi(),
    {
        self.system_control.dma_flags.dma_nmi()
    }

    /// Fills both framebuffers with random colors, as the hardware powers on.
    pub fn randomize_framebuffers(&mut self)
        requires
            old(self).wf(),
        ensures
            final(self).wf(),
            final(self)@ == (BusView { fb0: final(self)@.fb0, fb1: final(self)@.fb1, ..old(self)@ }),
    {
        let mut i: usize = 0;
        while i < FRAMEBUFFER_SIZE
            invariant
                self.wf(),
                self@ == (BusView { fb0: self@.fb0, fb1: self@.fb1, ..old(self)@ }),
            decreases FRAMEBUFFER_SIZE - i,
        {
            self.framebuffers.set(0, i, rand::random::<u8>());
            self.framebuffers.set(1, i, rand::random::<u8>());
            i += 1;
        }
    }
}

/// Relies on rand::random: a value drawn from the thread-local generator; nothing is
/// promised of it.
pub assume_specification<T>[ rand::random::<T> ]() -> T
    where
        rand::distributions::Standard: rand::distributions::Distribution<T>,
;

} // verus!
