use gametank::cartridges::{CartridgeType, RomError};
use gametank::emulator::{cycle_budget, Emulator, CYCLES_PER_FRAME};

fn emu() -> Emulator {
    Emulator::init(CartridgeType::blank())
}

fn cpu_step(e: &mut Emulator, accesses: u8) {
    for _ in 0..accesses {
        let _ = e.cpu_bus.read(0x8000);
    }
}

#[test]
fn budget_from_elapsed_time() {
    assert_eq!(cycle_budget(0), 0);
    assert_eq!(cycle_budget(1_000_000), 3579);
    assert_eq!(cycle_budget(16_667_000), 59660);
    assert_eq!(cycle_budget(33_000_000), 118124);
}

#[test]
fn stalled_tick_is_clamped() {
    assert_eq!(cycle_budget(33_000_001), 59660);
    assert_eq!(cycle_budget(5_000_000_000), 59660);
    assert_eq!(cycle_budget(u64::MAX), 59660);
}

#[test]
fn cpu_step_charges_the_tick() {
    let mut e = emu();
    e.begin_tick(1_000_000);
    assert!(e.tick_pending());
    cpu_step(&mut e, 3);
    let s = e.after_cpu_step();
    assert_eq!(s.cycles, 3);
    assert!(!s.irq);
    assert!(!s.nmi);
    assert!(!s.run_acp);
    assert_eq!(e.remaining_cycles, 3576);
    assert_eq!(e.acp_cycle_accumulator, 12);
    assert_eq!(e.clock_cycles_to_vblank, CYCLES_PER_FRAME - 3);
    assert_eq!(e.cpu_bus.clear_cycles(), 0);
}

#[test]
fn tick_ends_when_cycles_run_out() {
    let mut e = emu();
    e.begin_tick(1_000);
    assert_eq!(e.remaining_cycles, 3);
    let mut steps = 0;
    while e.tick_pending() {
        cpu_step(&mut e, 2);
        e.after_cpu_step();
        steps += 1;
    }
    assert_eq!(steps, 2);
    assert_eq!(e.remaining_cycles, -1);
}

#[test]
fn vblank_raises_nmi_only_when_enabled() {
    let mut e = emu();
    e.begin_tick(1_000_000);
    e.clock_cycles_to_vblank = 2;
    cpu_step(&mut e, 3);
    let s = e.after_cpu_step();
    assert!(!s.nmi);
    assert_eq!(e.clock_cycles_to_vblank, CYCLES_PER_FRAME - 1);

    e.cpu_bus.write_byte(0x2007, 0b0000_0100);
    e.clock_cycles_to_vblank = 3;
    cpu_step(&mut e, 3);
    let s = e.after_cpu_step();
    assert!(s.nmi);
    assert_eq!(e.clock_cycles_to_vblank, CYCLES_PER_FRAME);
}

#[test]
fn blitter_runs_once_per_cycle_and_raises_irq() {
    let mut e = emu();
    e.cpu_bus.write_byte(0x2007, 0b0100_1001);
    e.cpu_bus.write_byte(0x4004, 1);
    e.cpu_bus.write_byte(0x4005, 1);
    e.cpu_bus.write_byte(0x4006, 1);
    e.begin_tick(1_000_000);
    cpu_step(&mut e, 1);
    let s = e.after_cpu_step();
    assert!(!s.irq);
    assert!(e.blitter.blitting);
    cpu_step(&mut e, 1);
    let s = e.after_cpu_step();
    assert!(s.irq);
    assert!(!e.blitter.blitting);
}

#[test]
fn acp_emits_a_sample_per_interval() {
    let mut e = emu();
    e.cpu_bus.write_byte(0x2006, 0x80 | 2);
    e.cpu_bus.write_byte(0x2000, 1);
    e.begin_tick(1_000_000);
    cpu_step(&mut e, 1);
    let s = e.after_cpu_step();
    assert!(s.run_acp);
    let start = e.begin_acp();
    assert!(start.reset);
    assert!(!start.nmi);
    assert!(!e.begin_acp().reset);
    assert!(e.acp_pending());

    e.acp_bus.write(&mut e.cpu_bus.aram, 0x8000, 0x77);
    let a = e.after_acp_step();
    assert!(a.irq);
    assert_eq!(a.sample, Some(0x77));
    assert!(a.rebuild_audio);
    assert_eq!(e.audio_divisor, Some(2));
    assert_eq!(e.acp_irq_counter, 8);
    assert_eq!(e.acp_cycle_accumulator, 3);

    e.acp_bus.write(&mut e.cpu_bus.aram, 0x0123, 5);
    let a = e.after_acp_step();
    assert!(!a.irq);
    assert_eq!(a.sample, None);
    assert_eq!(e.acp_irq_counter, 7);
    assert_eq!(e.cpu_bus.aram[0x123], 5);
    assert_eq!(e.acp_bus.read(&e.cpu_bus.aram, 0x7123), 5);
}

#[test]
fn same_rate_does_not_rebuild_audio() {
    let mut e = emu();
    e.cpu_bus.write_byte(0x2006, 0x80);
    e.acp_cycle_accumulator = 100;
    e.acp_bus.write(&mut e.cpu_bus.aram, 0x9000, 1);
    let a = e.after_acp_step();
    assert!(a.rebuild_audio);
    assert_eq!(e.acp_irq_counter, 0);
    e.acp_bus.write(&mut e.cpu_bus.aram, 0x9000, 2);
    let a = e.after_acp_step();
    assert!(a.irq);
    assert!(!a.rebuild_audio);
    assert_eq!(a.sample, Some(2));
    e.cpu_bus.write_byte(0x2006, 0x81);
    e.acp_bus.write(&mut e.cpu_bus.aram, 0x9000, 3);
    let a = e.after_acp_step();
    assert!(a.rebuild_audio);
}

#[test]
fn load_rom_checks_size_and_clears_irq() {
    let mut e = emu();
    e.blitter.irq_trigger = true;
    assert_eq!(e.load_rom(&vec![1u8; 100]), Err(RomError::UnsupportedSize(100)));
    assert!(e.blitter.irq_trigger);
    assert_eq!(e.cpu_bus.read_byte(0x8000), 0);
    let img: Vec<u8> = (0..0x2000).map(|i| (i % 251) as u8).collect();
    assert_eq!(e.load_rom(&img), Ok(()));
    assert!(!e.blitter.irq_trigger);
    assert_eq!(e.cpu_bus.read_byte(0xA005), img[5]);
}
