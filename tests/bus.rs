use gametank::bus::{new_framebuffer, CpuBus};
use gametank::cartridges::{CartridgeType, RomError};

fn blank_bus() -> CpuBus {
    CpuBus::new(CartridgeType::blank())
}

fn image(len: usize) -> Vec<u8> {
    (0..len).map(|i| (i * 7 + i / 256) as u8).collect()
}

#[test]
fn zero_page_round_trip_any_banking() {
    let mut bus = blank_bus();
    for banking in [0u8, 0x40, 0x80, 0xC0, 0xFF] {
        bus.write_byte(0x2005, banking);
        for addr in 0u16..=0xFF {
            let v = (addr as u8) ^ banking;
            bus.write_byte(addr, v);
            assert_eq!(bus.read_byte(addr), v);
        }
    }
}

#[test]
fn stack_round_trip() {
    let mut bus = blank_bus();
    bus.write_byte(0x01FF, 0x5A);
    assert_eq!(bus.read_byte(0x01FF), 0x5A);
    assert_eq!(bus.cpu_stack[0xFF], 0x5A);
}

#[test]
fn ram_banks_are_isolated() {
    let mut bus = blank_bus();
    for bank in 0u8..4 {
        bus.write_byte(0x2005, bank << 6);
        bus.write_byte(0x0200, 0x10 + bank);
        bus.write_byte(0x1FFF, 0x20 + bank);
    }
    for bank in 0u8..4 {
        bus.write_byte(0x2005, bank << 6);
        assert_eq!(bus.read_byte(0x0200), 0x10 + bank);
        assert_eq!(bus.read_byte(0x1FFF), 0x20 + bank);
    }
    assert_eq!(bus.ram_banks[2 * 0x1E00], 0x12);
}

#[test]
fn eight_k_cartridge_mirrors_four_times() {
    let img = image(0x2000);
    let cart = CartridgeType::from_slice(&img).unwrap();
    let mut bus = CpuBus::new(cart);
    for addr in 0x8000u32..=0xFFFF {
        let off = (addr - 0x8000) as usize;
        assert_eq!(bus.read_byte(addr as u16), img[off % 0x2000]);
    }
}

#[test]
fn thirty_two_k_cartridge_is_direct() {
    let img = image(0x8000);
    let mut bus = CpuBus::new(CartridgeType::from_slice(&img).unwrap());
    assert_eq!(bus.read_byte(0x8000), img[0]);
    assert_eq!(bus.read_byte(0xC123), img[0x4123]);
    assert_eq!(bus.read_byte(0xFFFF), img[0x7FFF]);
}

#[test]
fn two_m_cartridge_shows_last_page() {
    let img = image(0x200000);
    let mut bus = CpuBus::new(CartridgeType::from_slice(&img).unwrap());
    assert_eq!(bus.read_byte(0x8000), img[0x1F8000]);
    assert_eq!(bus.read_byte(0xFFFC), img[0x1FFFFC]);
}

#[test]
fn unsupported_rom_size_is_refused() {
    let img = image(0x4000);
    match CartridgeType::from_slice(&img) {
        Err(e) => assert_eq!(e, RomError::UnsupportedSize(0x4000)),
        Ok(_) => panic!("a 16 KB image was accepted"),
    }
    assert!(CartridgeType::from_slice(&[]).is_err());
}

#[test]
fn cartridge_window_is_read_only() {
    let img = image(0x8000);
    let mut bus = CpuBus::new(CartridgeType::from_slice(&img).unwrap());
    bus.write_byte(0x9000, !img[0x1000]);
    assert_eq!(bus.read_byte(0x9000), img[0x1000]);
}

#[test]
fn audio_ram_round_trip() {
    let mut bus = blank_bus();
    bus.write_byte(0x3000, 1);
    bus.write_byte(0x3FFF, 2);
    assert_eq!(bus.read_byte(0x3000), 1);
    assert_eq!(bus.read_byte(0x3FFF), 2);
    assert_eq!(bus.aram[0xFFF], 2);
}

#[test]
fn unmapped_and_write_only_read_zero() {
    let mut bus = blank_bus();
    bus.write_byte(0x2005, 0xFF);
    assert_eq!(bus.read_byte(0x2005), 0);
    assert_eq!(bus.read_byte(0x2000), 0);
    assert_eq!(bus.read_byte(0x2800), 0);
    assert_eq!(bus.read_byte(0x2400), 0);
    bus.write_byte(0x2400, 9);
    assert_eq!(bus.read_byte(0x2400), 0);
}

#[test]
fn window_priority_blitter_registers_first() {
    let mut bus = blank_bus();
    // dma_enable and cpu_to_vram both set: the blitter registers win
    bus.write_byte(0x2007, 0b0010_0001);
    bus.write_byte(0x4000, 33);
    bus.write_byte(0x4007, 44);
    assert_eq!(bus.blitter.vx, 33);
    assert_eq!(bus.blitter.color, 44);
    assert_eq!(bus.read_byte(0x4000), 0);
    assert_eq!(bus.framebuffers.fb0[0], 0);
}

#[test]
fn window_framebuffer_when_cpu_to_vram() {
    let mut bus = blank_bus();
    bus.write_byte(0x2007, 0b0010_0000);
    bus.write_byte(0x2005, 0b0000_1000);
    bus.write_byte(0x4001, 7);
    assert_eq!(bus.framebuffers.fb1[1], 7);
    assert_eq!(bus.read_byte(0x4001), 7);
    bus.write_byte(0x2005, 0);
    assert_eq!(bus.read_byte(0x4001), 0);
}

#[test]
fn window_vram_with_page_and_quadrant() {
    let mut bus = blank_bus();
    bus.write_byte(0x2007, 0);
    bus.write_byte(0x2005, 5);
    bus.blitter.gx = 200;
    bus.blitter.gy = 10;
    bus.write_byte(0x4002, 9);
    assert_eq!(bus.vram_banks[5 * 0x10000 + 0x4000 + 2], 9);
    assert_eq!(bus.read_byte(0x4002), 9);
    bus.blitter.gy = 130;
    assert_eq!(bus.read_byte(0x4002), 0);
}

#[test]
fn cpu_accesses_count_cycles() {
    let mut bus = blank_bus();
    bus.write(0x0010, 3);
    assert_eq!(bus.read(0x0010), 3);
    let _ = bus.read(0x8000);
    assert_eq!(bus.clear_cycles(), 3);
    assert_eq!(bus.clear_cycles(), 0);
    bus.read_byte(0x0000);
    assert_eq!(bus.clear_cycles(), 0);
}

#[test]
fn shown_framebuffer_follows_page_out() {
    let mut bus = blank_bus();
    assert!(bus.read_full_framebuffer().iter().all(|&p| p == 0x00));
    bus.write_byte(0x2007, 0b0000_0010);
    assert!(bus.read_full_framebuffer().iter().all(|&p| p == 0xFF));
    assert_eq!(bus.read_full_framebuffer().len(), 128 * 128);
}

#[test]
fn new_framebuffer_is_filled() {
    let fb = new_framebuffer(0x42);
    assert_eq!(fb.len(), 0x4000);
    assert!(fb.iter().all(|&p| p == 0x42));
}

#[test]
fn vblank_nmi_flag() {
    let mut bus = blank_bus();
    assert!(!bus.vblank_nmi_enabled());
    bus.write_byte(0x2007, 0b0000_0100);
    assert!(bus.vblank_nmi_enabled());
}

#[test]
fn randomized_framebuffers_keep_size() {
    let mut bus = blank_bus();
    bus.write_byte(0x0005, 1);
    bus.randomize_framebuffers();
    assert_eq!(bus.framebuffers.fb0.len(), 0x4000);
    assert_eq!(bus.framebuffers.fb1.len(), 0x4000);
    assert_eq!(bus.read_byte(0x0005), 1);
}

#[test]
fn default_bus_has_blank_cartridge() {
    let mut bus = CpuBus::default();
    assert_eq!(bus.read_byte(0x8000), 0);
    assert_eq!(bus.read_byte(0xFFFF), 0);
    assert_eq!(bus.blitter.width, 127);
    assert_eq!(bus.blitter.color, 0b101_00_000);
    assert!(bus.system_control.dma_flags.dma_colorfill_enable());
}

#[test]
fn readable_and_writable_addresses() {
    let mut bus = blank_bus();
    assert!(bus.is_readable(0x0000));
    assert!(bus.is_readable(0x2008));
    assert!(!bus.is_readable(0x2005));
    assert!(!bus.is_readable(0x2400));
    assert!(bus.is_readable(0x2805));
    assert!(bus.is_readable(0x4000));
    assert!(bus.is_readable(0xFFFF));
    assert!(bus.is_writable(0x2005));
    assert!(!bus.is_writable(0x2008));
    assert!(!bus.is_writable(0x8000));
    assert!(!bus.is_writable(0x2FFF));
    bus.write_byte(0x2007, 0b0000_0001);
    assert!(!bus.is_readable(0x4000));
    assert!(bus.is_writable(0x4007));
    assert!(!bus.is_writable(0x4008));
}

#[test]
fn cartridge_kind_follows_size() {
    assert!(matches!(CartridgeType::from_slice(&image(0x2000)), Ok(CartridgeType::Cart8k(_))));
    assert!(matches!(CartridgeType::from_slice(&image(0x8000)), Ok(CartridgeType::Cart32k(_))));
    assert!(matches!(CartridgeType::from_slice(&image(0x200000)), Ok(CartridgeType::Cart2m(_))));
}
