use gametank::input::ControllerButton;
use gametank::registers::SystemControl;

#[test]
fn port1_reads_alternate_halves() {
    let mut sc = SystemControl::new();
    sc.set_gamepad_button(0, ControllerButton::Start, true);
    sc.set_gamepad_button(0, ControllerButton::Up, true);
    let first = sc.read_byte(0x2008);
    let second = sc.read_byte(0x2008);
    let third = sc.read_byte(0x2008);
    assert_eq!(first, 0b1101_1111);
    assert_eq!(second, 0b1111_0111);
    assert_eq!(third, first);
}

#[test]
fn port2_read_resets_port1_phase() {
    let mut sc = SystemControl::new();
    sc.set_gamepad_button(0, ControllerButton::A, true);
    sc.set_gamepad_button(0, ControllerButton::Left, true);
    // port 1 in its first phase after the read: a port-2 read sends it back
    assert_eq!(sc.read_byte(0x2008), 0b1110_1111);
    let _ = sc.read_byte(0x2009);
    assert_eq!(sc.read_byte(0x2008), 0b1110_1111);
    // port 1 now in its second phase: a port-2 read in between keeps the alternation
    assert!(sc.gamepads[0].port_select);
    assert_eq!(sc.read_byte(0x2008), 0b1111_1101);
    let _ = sc.read_byte(0x2009);
    assert_eq!(sc.read_byte(0x2008), 0b1110_1111);
}

#[test]
fn port2_in_first_phase_keeps_port1_phase() {
    let mut sc = SystemControl::new();
    sc.set_gamepad_button(1, ControllerButton::Right, true);
    assert!(!sc.gamepads[0].port_select);
    assert_eq!(sc.read_byte(0x2009), 0xFF);
    assert!(!sc.gamepads[0].port_select);
    assert_eq!(sc.read_byte(0x2009), 0b1111_1110);
}

#[test]
fn all_buttons_second_half() {
    let mut sc = SystemControl::new();
    for b in [
        ControllerButton::Up,
        ControllerButton::Down,
        ControllerButton::Left,
        ControllerButton::Right,
        ControllerButton::B,
        ControllerButton::C,
    ] {
        sc.set_gamepad_button(1, b, true);
    }
    let _ = sc.read_gamepad_byte(false);
    assert_eq!(sc.read_gamepad_byte(false), 0b1100_0000);
    sc.set_gamepad_button(1, ControllerButton::C, false);
    let _ = sc.read_gamepad_byte(false);
    assert_eq!(sc.read_gamepad_byte(false), 0b1110_0000);
}

#[test]
fn system_control_registers() {
    let mut sc = SystemControl::new();
    assert!(sc.dma_flags.dma_colorfill_enable());
    sc.write_byte(0x2005, 0b1100_1101);
    assert_eq!(sc.get_ram_bank(), 3);
    assert_eq!(sc.banking_register.vram_page(), 5);
    assert!(sc.banking_register.framebuffer());
    assert!(!sc.banking_register.clip_blits_h());
    sc.write_byte(0x2006, 0b1000_0011);
    assert!(sc.acp_enabled());
    assert_eq!(sc.sample_rate(), 3);
    sc.write_byte(0x2000, 1);
    sc.write_byte(0x2001, 1);
    assert!(sc.clear_acp_reset());
    assert!(!sc.clear_acp_reset());
    assert!(sc.clear_acp_nmi());
    sc.write_byte(0x2007, 0b0000_0010);
    assert_eq!(sc.get_framebuffer_out(), 1);
    sc.write_byte(0x2008, 0x55);
    assert_eq!(sc.read_byte(0x2005), 0);
}
