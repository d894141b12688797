use vstd::prelude::*;
use crate::gamepad::{GamePad, status_byte};
use crate::input::ControllerButton;

verus! {

/// The banking register at $2005: bits 2:0 VRAM page, bit 3 draw framebuffer,
/// bits 4 and 5 blit clipping, bits 7:6 RAM bank.
#[derive(Debug, Clone, Copy, PartialEq, Eq)]
pub struct BankingRegister(pub u8);

impl BankingRegister {
    pub open spec fn spec_vram_page(self) -> u8 {
        self.0 % 8
    }

    pub open spec fn spec_framebuffer(self) -> bool {
        (self.0 / 8) % 2 == 1
    }

    pub open spec fn spec_ram_bank(self) -> u8 {
        self.0 / 64
    }

    pub fn vram_page(&self) -> (r: u8)
        ensures
            r == self.spec_vram_page(),
            r < 8,
    {
        self.0 % 8
    }

    pub fn framebuffer(&self) -> (r: bool)
        ensures
            r == self.spec_framebuffer(),
    {
        (self.0 / 8) % 2 == 1
    }

    pub fn clip_blits_h(&self) -> (r: bool)
        ensures
            r == ((self.0 / 16) % 2 == 1),
    {
        (self.0 / 16) % 2 == 1
    }

    pub fn clip_blits_v(&self) -> (r: bool)
        ensures
            r == ((self.0 / 32) % 2 == 1),
    {
        (self.0 / 32) % 2 == 1
    }

    pub fn ram_bank(&self) -> (r: u8)
        ensures
            r == self.spec_ram_bank(),
            r < 4,
    {
        self.0 / 64
    }
}

/// The DMA flags at $2007, one bit each: 0 enable, 1 page out, 2 vblank NMI,
/// 3 color fill, 4 gcarry, 5 CPU access to the framebuffer, 6 blit IRQ, 7 opaque.
#[derive(Debug, Clone, Copy, PartialEq, Eq)]
pub struct BlitterFlags(pub u8);

impl BlitterFlags {
    pub open spec fn spec_dma_enable(self) -> bool {
        self.0 % 2 == 1
    }

    pub open spec fn spec_dma_page_out(self) -> bool {
        (self.0 / 2) % 2 == 1
    }

    pub open spec fn spec_dma_nmi(self) -> bool {
        (self.0 / 4) % 2 == 1
    }

    pub open spec fn spec_dma_colorfill_enable(self) -> bool {
        (self.0 / 8) % 2 == 1
    }

    pub open spec fn spec_dma_gcarry(self) -> bool {
        (self.0 / 16) % 2 == 1
    }

    pub open spec fn spec_dma_cpu_to_vram(self) -> bool {
        (self.0 / 32) % 2 == 1
    }

    pub open spec fn spec_dma_irq(self) -> bool {
        (self.0 / 64) % 2 == 1
    }

    pub open spec fn spec_dma_opaque(self) -> bool {
        (self.0 / 128) % 2 == 1
    }

    pub fn dma_enable(&self) -> (r: bool)
        ensures
            r == self.spec_dma_enable(),
    {
        self.0 % 2 == 1
    }

    pub fn dma_page_out(&self) -> (r: bool)
        ensures
            r == self.spec_dma_page_out(),
    {
        (self.0 / 2) % 2 == 1
    }

    pub fn dma_nmi(&self) -> (r: bool)
        ensures
            r == self.spec_dma_nmi(),
    {
        (self.0 / 4) % 2 == 1
    }

    pub fn dma_colorfill_enable(&self) -> (r: bool)
        ensures
            r == self.spec_dma_colorfill_enable(),
    {
        (self.0 / 8) % 2 == 1
    }

    pub fn dma_gcarry(&self) -> (r: bool)
        ensures
            r == self.spec_dma_gcarry(),
    {
        (self.0 / 16) % 2 == 1
    }

    pub fn dma_cpu_to_vram(&self) -> (r: bool)
        ensures
            r == self.spec_dma_cpu_to_vram(),
    {
        (self.0 / 32) % 2 == 1
    }

    pub fn dma_irq(&self) -> (r: bool)
        ensures
            r == self.spec_dma_irq(),
    {
        (self.0 / 64) % 2 == 1
    }

    pub fn dma_opaque(&self) -> (r: bool)
        ensures
            r == self.spec_dma_opaque(),
    {
        (self.0 / 128) % 2 == 1
    }
}


/// The eight write-only blitter registers, mapped at $4000-$4007 while DMA is enabled.
#[derive(Debug, Clone, Copy, PartialEq, Eq)]
pub struct BlitterRegisters {
    pub vx: u8,
    pub vy: u8,
    pub gx: u8,
    pub gy: u8,
    pub width: u8,
    pub height: u8,
    pub start: u8,
    pub color: u8,
}

/// Which VRAM quadrant the high bits of a source origin select.
pub open spec fn quadrant_of(gx: u8, gy: u8) -> int {
    (if gx >= 128 { 1int } else { 0 }) + (if gy >= 128 { 2int } else { 0 })
}

impl BlitterRegisters {
    /// The registers after a write of `data` at `address`; addresses outside $4000-$4007 change nothing.
    pub open spec fn spec_write(self, address: u16, data: u8) -> BlitterRegisters {
        if address == 0x4000 {
            BlitterRegisters { vx: data, ..self }
        } else if address == 0x4001 {
            BlitterRegisters { vy: data, ..self }
        } else if address == 0x4002 {
            BlitterRegisters { gx: data, ..self }
        } else if address == 0x4003 {
            BlitterRegisters { gy: data, ..self }
        } else if address == 0x4004 {
            BlitterRegisters { width: data, ..self }
        } else if address == 0x4005 {
            BlitterRegisters { height: data, ..self }
        } else if address == 0x4006 {
            BlitterRegisters { start: data, ..self }
        } else if address == 0x4007 {
            BlitterRegisters { color: data, ..self }
        } else {
            self
        }
    }

    pub fn vram_quadrant(&self) -> (r: usize)
        ensures
            r == quadrant_of(self.gx, self.gy),
            r < 4,
    {
        let mut quadrant: usize = 0;
        if self.gx >= 128 {
            quadrant += 1;
        }
        if self.gy >= 128 {
            quadrant += 2;
        }
        quadrant
    }

    /// The registers are write-only: a read yields 0.
    pub fn read_byte(&self, address: u16) -> (r: u8)
        ensures
            r == 0,
    {
        0
    }

    pub fn write_byte(&mut self, address: u16, data: u8)
        ensures
            *final(self) == old(self).spec_write(address, data),
    {
        match address {
            0x4000 => { self.vx = data },
            0x4001 => { self.vy = data },
            0x4002 => { self.gx = data },
            0x4003 => { self.gy = data },
            0x4004 => { self.width = data },
            0x4005 => { self.height = data },
            0x4006 => { self.start = data },
            0x4007 => { self.color = data },
            _ => {},
        }
    }
}

/// What the $4000-$7FFF window addresses.
#[derive(Debug, Clone, Copy, PartialEq, Eq, Structural)]
pub enum GraphicsMemoryMap {
    FrameBuffer,
    VRAM,
    BlitterRegisters,
}

/// The system-control registers at $2000-$2009 and the two controllers behind them.
#[derive(Debug, Clone, Copy, PartialEq, Eq)]
pub struct SystemControl {
    pub reset_acp: u8,
    pub nmi_acp: u8,
    pub banking_register: BankingRegister,
    pub audio_enable_sample_rate: u8,
    pub dma_flags: BlitterFlags,
    pub gamepads: [GamePad; 2],
}

/// The pad index that a status read of port 1 (or else port 2) reads.
pub open spec fn pad_index(port_1: bool) -> int {
    if port_1 { 0 } else { 1 }
}

impl SystemControl {
    /// The power-on state: all registers clear but color fill, both pads released.
    pub open spec fn spec_new() -> SystemControl {
        SystemControl {
            reset_acp: 0,
            nmi_acp: 0,
            banking_register: BankingRegister(0),
            audio_enable_sample_rate: 0,
            dma_flags: BlitterFlags(0b0000_1000),
            gamepads: [GamePad::spec_released(), GamePad::spec_released()],
        }
    }

    pub fn new() -> (r: SystemControl)
        ensures
            r == SystemControl::spec_new(),
    {
        SystemControl {
            reset_acp: 0,
            nmi_acp: 0,
            banking_register: BankingRegister(0),
            audio_enable_sample_rate: 0,
            dma_flags: BlitterFlags(0b0000_1000),
            gamepads: [GamePad::new(), GamePad::new()],
        }
    }

    pub open spec fn spec_graphics_memory_map(self) -> GraphicsMemoryMap {
        if self.dma_flags.spec_dma_enable() {
            GraphicsMemoryMap::BlitterRegisters
        } else if self.dma_flags.spec_dma_cpu_to_vram() {
            GraphicsMemoryMap::FrameBuffer
        } else {
            GraphicsMemoryMap::VRAM
        }
    }

    /// The registers after a write; only $2000, $2001 and $2005-$2007 are writable.
    pub open spec fn spec_write(self, address: u16, data: u8) -> SystemControl {
        if address == 0x2000 {
            SystemControl { reset_acp: data, ..self }
        } else if address == 0x2001 {
            SystemControl { nmi_acp: data, ..self }
        } else if address == 0x2005 {
            SystemControl { banking_register: BankingRegister(data), ..self }
        } else if address == 0x2006 {
            SystemControl { audio_enable_sample_rate: data, ..self }
        } else if address == 0x2007 {
            SystemControl { dma_flags: BlitterFlags(data), ..self }
        } else {
            self
        }
    }

    /// The registers after a status read of port 1 (or else port 2): the pad read moves
    /// to its other phase, the other pad goes back to its first phase.
    pub open spec fn spec_after_gamepad_read(self, port_1: bool) -> SystemControl {
        let p0 = self.gamepads[0];
        let p1 = self.gamepads[1];
        if port_1 {
            SystemControl {
                gamepads: [
                    GamePad { port_select: !p0.port_select, ..p0 },
                    GamePad { port_select: false, ..p1 },
                ],
                ..self
            }
        } else {
            SystemControl {
                gamepads: [
                    GamePad { port_select: false, ..p0 },
                    GamePad { port_select: !p1.port_select, ..p1 },
                ],
                ..self
            }
        }
    }

    /// The registers after a read of `address`: only the two status reads change them.
    pub open spec fn spec_after_read(self, address: u16) -> SystemControl {
        if address == 0x2008 {
            self.spec_after_gamepad_read(true)
        } else if address == 0x2009 {
            self.spec_after_gamepad_read(false)
        } else {
            self
        }
    }

    /// The registers with one button of pad `port` set to `pressed`.
    pub open spec fn spec_with_button(self, port: int, button: ControllerButton, pressed: bool) -> SystemControl {
        let p0 = self.gamepads[0];
        let p1 = self.gamepads[1];
        if port == 0 {
            SystemControl { gamepads: [p0.spec_with_button(button, pressed), p1], ..self }
        } else {
            SystemControl { gamepads: [p0, p1.spec_with_button(button, pressed)], ..self }
        }
    }

    /// What a status read of port 1 (or else port 2) returns.
    pub open spec fn spec_gamepad_byte(self, port_1: bool) -> u8 {
        let pad = self.gamepads[pad_index(port_1)];
        status_byte(pad, pad.port_select)
    }

    /// What a read of `address` returns.
    pub open spec fn spec_read(self, address: u16) -> u8 {
        if address == 0x2008 {
            self.spec_gamepad_byte(true)
        } else if address == 0x2009 {
            self.spec_gamepad_byte(false)
        } else {
            0
        }
    }

    /// The sample-rate divisor: the low seven bits of the audio register.
    pub open spec fn spec_sample_rate(self) -> u8 {
        self.audio_enable_sample_rate % 128
    }

    pub fn get_ram_bank(&self) -> (r: usize)
        ensures
            r == self.banking_register.spec_ram_bank(),
            r < 4,
    {
        self.banking_register.ram_bank() as usize
    }

    pub fn get_graphics_memory_map(&self) -> (r: GraphicsMemoryMap)
        ensures
            r == self.spec_graphics_memory_map(),
    {
        if self.dma_flags.dma_enable() {
            return GraphicsMemoryMap::BlitterRegisters;
        }
        if self.dma_flags.dma_cpu_to_vram() {
            return GraphicsMemoryMap::FrameBuffer;
        }
        GraphicsMemoryMap::VRAM
    }

    pub fn acp_enabled(&self) -> (r: bool)
        ensures
            r == (self.audio_enable_sample_rate >= 128),
    {
        self.audio_enable_sample_rate >= 128
    }

    pub fn sample_rate(&self) -> (r: u8)
        ensures
            r == self.spec_sample_rate(),
            r < 128,
    {
        self.audio_enable_sample_rate % 128
    }

    /// Which framebuffer is visible: the page-out flag.
    pub fn get_framebuffer_out(&self) -> (r: usize)
        ensures
            r == (if self.dma_flags.spec_dma_page_out() { 1usize } else { 0 }),
    {
        if self.dma_flags.dma_page_out() {
            1
        } else {
            0
        }
    }

    pub fn write_byte(&mut self, address: u16, data: u8)
        ensures
            *final(self) == old(self).spec_write(address, data),
    {
        match address {
            0x2000 => { self.reset_acp = data },
            0x2001 => { self.nmi_acp = data },
            0x2005 => { self.banking_register = BankingRegister(data) },
            0x2006 => { self.audio_enable_sample_rate = data },
            0x2007 => { self.dma_flags = BlitterFlags(data) },
            _ => {},
        }
    }

    /// Reads a register; only the two gamepad status ports are readable, the rest read 0.
    pub fn read_byte(&mut self, address: u16) -> (r: u8)
        ensures
            r == old(self).spec_read(address),
            *final(self) == old(self).spec_after_read(address),
    {
        match address {
            0x2008 => self.read_gamepad_byte(true),
            0x2009 => self.read_gamepad_byte(false),
            _ => 0,
        }
    }

    /// A status read of port 1 (or else port 2), with the phase change it causes.
    pub fn read_gamepad_byte(&mut self, port_1: bool) -> (r: u8)
        ensures
            r == old(self).spec_gamepad_byte(port_1),
            *final(self) == old(self).spec_after_gamepad_read(port_1),
    {
        let p0 = self.gamepads[0];
        let p1 = self.gamepads[1];
        if port_1 {
            let byte = p0.status();
            self.gamepads = [
                GamePad { port_select: !p0.port_select, ..p0 },
                GamePad { port_select: false, ..p1 },
            ];
            byte
        } else {
            let byte = p1.status();
            self.gamepads = [
                GamePad { port_select: false, ..p0 },
                GamePad { port_select: !p1.port_select, ..p1 },
            ];
            byte
        }
    }

    /// Clears the ACP reset strobe, saying whether it was set.
    pub fn clear_acp_reset(&mut self) -> (r: bool)
        ensures
            r == (old(self).reset_acp != 0),
            *final(self) == (SystemControl { reset_acp: 0, ..*old(self) }),
    {
        let r = self.reset_acp != 0;
        self.reset_acp = 0;
        r
    }

    /// Clears the ACP NMI strobe, saying whether it was set.
    pub fn clear_acp_nmi(&mut self) -> (r: bool)
        ensures
            r == (old(self).nmi_acp != 0),
            *final(self) == (SystemControl { nmi_acp: 0, ..*old(self) }),
    {
        let r = self.nmi_acp != 0;
        self.nmi_acp = 0;
        r
    }

    /// Records a button of controller `port` (0 or 1) as pressed or released.
    pub fn set_gamepad_button(&mut self, port: usize, button: ControllerButton, pressed: bool)
        requires
            port < 2,
        ensures
            *final(self) == old(self).spec_with_button(port as int, button, pressed),
    {
        let mut p0 = self.gamepads[0];
        let mut p1 = self.gamepads[1];
        if port == 0 {
            p0 = p0.with_button(button, pressed);
        } else {
            p1 = p1.with_button(button, pressed);
        }
        self.gamepads = [p0, p1];
        assert(self.gamepads =~= old(self).spec_with_button(port as int, button, pressed).gamepads);
    }
}

} // verus!
