use vstd::prelude::*;
use crate::blitter::Blitter;
use crate::bus::{BusView, ram_index};
use crate::registers::quadrant_of;
use crate::cartridges::rom_window;
use crate::gamepad::status_byte;
use crate::registers::SystemControl;

verus! {

/// A byte written to the zero page reads back unchanged, whatever the banking state.
pub proof fn law_zero_page_round_trip(b: BusView, address: u16, v: u8)
    requires
        b.wf(),
        address <= 0x00FF,
    ensures
        b.write(address, v).read_value(address) == v,
{
}

/// The four RAM banks are isolated: a byte written at `address` in the bank that `sel1`
/// selects survives a switch to the bank of `sel2`, a write there at any `address2`, and
/// the switch back; and after the first switch the read shows the other bank's byte.
pub proof fn law_ram_banks_isolated(
    b: BusView,
    sel1: u8,
    sel2: u8,
    address: u16,
    address2: u16,
    v: u8,
    w: u8,
)
    requires
        b.wf(),
        0x0200 <= address <= 0x1FFF,
        0x0200 <= address2 <= 0x1FFF,
        sel1 / 64 != sel2 / 64,
    ensures
        ({
            let b1 = b.write(0x2005, sel1).write(address, v);
            let b2 = b1.write(0x2005, sel2);
            let b3 = b2.write(address2, w).write(0x2005, sel1);
            &&& b1.read_value(address) == v
            &&& b2.read_value(address) == b.ram_banks[ram_index(sel2 / 64, address)]
            &&& b3.read_value(address) == v
        }),
{
}

/// A RAM read shows the byte at its offset in the selected bank.
pub proof fn law_ram_read_selected_bank(b: BusView, address: u16)
    requires
        b.wf(),
        0x0200 <= address <= 0x1FFF,
    ensures
        b.read_value(address) == b.ram_banks[ram_index(
            b.system_control.banking_register.spec_ram_bank(),
            address,
        )],
{
}

/// No write outside RAM changes a RAM bank, and a RAM write while bank `sel` is selected
/// changes no byte of any other bank; so over any sequence of writes, a bank's bytes
/// change only while it is selected.
pub proof fn law_ram_bank_frame(b: BusView, address: u16, data: u8, bank: u8, address2: u16)
    requires
        b.wf(),
        bank < 4,
        0x0200 <= address2 <= 0x1FFF,
        !(0x0200 <= address <= 0x1FFF) || b.system_control.banking_register.spec_ram_bank()
            != bank,
    ensures
        b.write(address, data).ram_banks[ram_index(bank, address2)] == b.ram_banks[ram_index(
            bank,
            address2,
        )],
        b.write(address, data).ram_banks.len() == b.ram_banks.len(),
{
}

/// An 8 KB cartridge fills $8000-$FFFF with four copies of its image.
pub proof fn law_cart8k_mirrored(b: BusView, image: Seq<u8>, address: u16)
    requires
        image.len() == 0x2000,
        b.cartridge == rom_window(image),
        address >= 0x8000,
    ensures
        b.read_value(address) == image[(address - 0x8000) % 0x2000],
        b.read_value(address) == b.read_value((0x8000 + (address - 0x8000) % 0x2000) as u16),
{
}

/// Two status reads of port 1 in a row expose the two halves of the pad in turn.
pub proof fn law_gamepad_alternates(sc: SystemControl)
    ensures
        ({
            let pad = sc.gamepads[0];
            let sc1 = sc.spec_after_gamepad_read(true);
            &&& sc.spec_gamepad_byte(true) == status_byte(pad, pad.port_select)
            &&& sc1.spec_gamepad_byte(true) == status_byte(pad, !pad.port_select)
            &&& sc1.spec_after_gamepad_read(true).gamepads[0].port_select == pad.port_select
        }),
{
}

/// Port 1's phase is coupled to reads of port 2: a port-2 read sends port 1 back to its
/// first phase, so a port-2 read between two port-1 reads leaves their alternation intact
/// only when port 1 is then in its first phase already. A status read of port 2 leaves
/// port 1's phase as it was when port 1 is in its first
/// phase; in the second it sends port 1 back to the first.
pub proof fn law_port2_read_and_port1_phase(sc: SystemControl)
    ensures
        !sc.gamepads[0].port_select ==> sc.spec_after_gamepad_read(false).gamepads[0]
            == sc.gamepads[0],
        sc.spec_after_gamepad_read(false).gamepads[0].port_select == false,
        sc.spec_after_gamepad_read(false).gamepads[1].port_select == !sc.gamepads[1].port_select,
{
}

/// When port 1 starts in its second phase, a port-2 read between two port-1 reads leaves
/// the two port-1 reads exposing the two halves in turn. Starting in the first phase it
/// does not: the port-2 read resets port 1, and both port-1 reads expose the first half.
pub proof fn law_port2_read_between(sc: SystemControl)
    requires
        sc.gamepads[0].port_select,
    ensures
        ({
            let pad = sc.gamepads[0];
            let sc2 = sc.spec_after_gamepad_read(true).spec_after_gamepad_read(false);
            &&& sc.spec_gamepad_byte(true) == status_byte(pad, true)
            &&& sc2.spec_gamepad_byte(true) == status_byte(pad, false)
        }),
{
}

/// The conditions for a one-pixel color fill that the start strobe has just triggered.
pub open spec fn fill_1x1_ready(s: Blitter, b: BusView) -> bool {
    &&& b.wf()
    &&& !s.blitting
    &&& b.blitter.start != 0
    &&& b.blitter.width == 1
    &&& b.blitter.height == 1
    &&& b.blitter.vx < 128
    &&& b.blitter.vy < 128
    &&& b.system_control.dma_flags.spec_dma_enable()
    &&& b.system_control.dma_flags.spec_dma_colorfill_enable()
}

/// The pixel that a one-pixel fill writes: at (vx, vy), in the complement of `color`.
pub open spec fn fill_1x1_result(b: BusView) -> Seq<u8> {
    b.fb(b.draw_fb()).update(
        b.blitter.vx + b.blitter.vy * 128,
        (255 - b.blitter.color) as u8,
    )
}

/// A 1x1 color fill takes two cycles: it writes one pixel at (vx, vy) in the complement
/// of the color register (unless that is 0 and the blit is transparent), leaves the other
/// framebuffer alone, and ends with the IRQ pending exactly when the IRQ flag is on.
pub proof fn law_fill_1x1(s: Blitter, b: BusView)
    requires
        fill_1x1_ready(s, b),
    ensures
        s.run(b, 1).0.blitting,
        ({
            let (s2, b2) = s.run(b, 2);
            let opaque = b.system_control.dma_flags.spec_dma_opaque() || b.blitter.color != 255;
            &&& !s2.blitting
            &&& s2.inv()
            &&& s2.irq_trigger == b.system_control.dma_flags.spec_dma_irq()
            &&& b2.blitter == (crate::registers::BlitterRegisters { start: 0, ..b.blitter })
            &&& opaque ==> b2.fb(b.draw_fb()) == fill_1x1_result(b)
            &&& !opaque ==> b2.fb(b.draw_fb()) == b.fb(b.draw_fb())
            &&& b2.fb(1 - b.draw_fb()) == b.fb(1 - b.draw_fb())
            &&& b2 == (BusView { blitter: b2.blitter, fb0: b2.fb0, fb1: b2.fb1, ..b })
        }),
{
    reveal_with_fuel(Blitter::run, 3);
}

/// After a 1x1 fill has completed, moving the destination and writing the start strobe
/// again performs one more, independent 1x1 fill.
pub proof fn law_fill_1x1_again(s: Blitter, b: BusView, x2: u8, y2: u8, strobe: u8)
    requires
        fill_1x1_ready(s, b),
        x2 < 128,
        y2 < 128,
        strobe != 0,
    ensures
        ({
            let (s2, b2) = s.run(b, 2);
            let b3 = b2.write(0x4000, x2).write(0x4001, y2).write(0x4006, strobe);
            let (s4, b4) = s2.run(b3, 2);
            &&& fill_1x1_ready(s2, b3)
            &&& !s4.blitting
            &&& s4.irq_trigger == b.system_control.dma_flags.spec_dma_irq()
            &&& (b.system_control.dma_flags.spec_dma_opaque() || b.blitter.color != 255) ==> b4.fb(
                b.draw_fb(),
            ) == fill_1x1_result(b).update(x2 + y2 * 128, (255 - b.blitter.color) as u8)
        }),
{
    law_fill_1x1(s, b);
    let (s2, b2) = s.run(b, 2);
    let b3 = b2.write(0x4000, x2).write(0x4001, y2).write(0x4006, strobe);
    law_fill_1x1(s2, b3);
}

/// With the opaque flag off, a cycle whose source pixel is 0 writes nothing.
pub proof fn law_transparent_source(s: Blitter, b: BusView)
    requires
        s.blitting,
        b.blitter.start == 0,
        !s.color_fill,
        !b.system_control.dma_flags.spec_dma_opaque(),
        b.vram[s.with_regs(b).source_index(
            b,
            s.with_regs(b).wrapped_offsets().0,
            s.with_regs(b).wrapped_offsets().1,
        )] == 0,
    ensures
        s.step(b).1.fb0 == b.fb0,
        s.step(b).1.fb1 == b.fb1,
{
}

/// The VRAM index of pixel (`x`, `y`) of quadrant `quadrant` of bank `page`.
pub open spec fn tile_pixel(page: u8, quadrant: int, x: int, y: int) -> int {
    page * 0x10000 + quadrant * 0x4000 + y * 128 + x
}

/// Without gcarry, an unflipped blit whose source origin leaves room for a 16x16 tile
/// samples, at any offsets, only inside that tile of the quadrant and bank selected.
pub proof fn law_tile_sampling(s: Blitter, b: BusView, ox: u8, oy: u8)
    requires
        !b.system_control.dma_flags.spec_dma_gcarry(),
        s.width < 128,
        s.height < 128,
        s.src_x % 128 <= 112,
        s.src_y % 128 <= 112,
    ensures
        exists|i: int, j: int|
            0 <= i < 16 && 0 <= j < 16 && s.source_index(b, ox, oy) == #[trigger] tile_pixel(
                b.system_control.banking_register.spec_vram_page(),
                quadrant_of(s.src_x, s.src_y),
                s.src_x % 128 + i,
                s.src_y % 128 + j,
            ),
{
    assert(s.source_index(b, ox, oy) == tile_pixel(
        b.system_control.banking_register.spec_vram_page(),
        quadrant_of(s.src_x, s.src_y),
        s.src_x % 128 + ox % 16,
        s.src_y % 128 + oy % 16,
    ));
}

/// Without gcarry, a cycle of an unflipped, opaque blit whose destination is in range
/// writes the pixel of the 16x16 tile at the source origin that the offsets select modulo
/// 16, from the quadrant and bank selected.
pub proof fn law_tile_pixel_written(s: Blitter, b: BusView)
    requires
        b.wf(),
        s.blitting,
        s.inv(),
        b.blitter.start == 0,
        !s.color_fill,
        b.blitter.width < 128,
        s.height < 128,
        b.blitter.gx % 128 <= 112,
        s.src_y % 128 <= 112,
        b.system_control.dma_flags.spec_dma_enable(),
        b.system_control.dma_flags.spec_dma_opaque(),
        !b.system_control.dma_flags.spec_dma_gcarry(),
        s.with_regs(b).wrapped_offsets().1 < s.height,
        b.blitter.vx as int + s.with_regs(b).wrapped_offsets().0 < 128,
        s.dst_y as int + s.with_regs(b).wrapped_offsets().1 < 128,
    ensures
        ({
            let ox = s.with_regs(b).wrapped_offsets().0;
            let oy = s.with_regs(b).wrapped_offsets().1;
            let color = b.vram[tile_pixel(
                b.system_control.banking_register.spec_vram_page(),
                quadrant_of(b.blitter.gx, s.src_y),
                b.blitter.gx % 128 + ox % 16,
                s.src_y % 128 + oy % 16,
            )];
            s.step(b).1 == b.with_fb(
                b.draw_fb(),
                b.fb(b.draw_fb()).update((b.blitter.vx + ox) + (s.dst_y + oy) * 128, color),
            )
        }),
{
}

} // verus!
