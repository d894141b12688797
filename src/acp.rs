use vstd::prelude::*;

verus! {

/// The audio coprocessor's bus. Audio RAM (4 KB, held by the primary bus and lent for
/// each access) is mirrored through $0000-$7FFF and, for reads, through $8000-$FFFF too;
/// a write to $8000-$FFFF sets the DAC sample.
#[derive(Debug, Clone, Copy, PartialEq, Eq)]
pub struct AcpBus {
    /// Bus accesses since the counter was last cleared.
    pub cycles: u8,
    /// The last sample written to the DAC.
    pub sample: u8,
}

impl AcpBus {
    pub fn new() -> (r: AcpBus)
        ensures
            r.cycles == 0 && r.sample == 0,
    {
        AcpBus { cycles: 0, sample: 0 }
    }

    /// A read by the coprocessor: one bus cycle.
    pub fn read(&mut self, aram: &Vec<u8>, address: u16) -> (r: u8)
        requires
            aram@.len() == 0x1000,
        ensures
            r == aram@[(address % 0x1000) as int],
            *final(self) == (AcpBus { cycles: old(self).cycles.wrapping_add(1), ..*old(self) }),
    {
        self.cycles = self.cycles.wrapping_add(1);
        aram[address as usize % 0x1000]
    }

    /// A write by the coprocessor: one bus cycle.
    pub fn write(&mut self, aram: &mut Vec<u8>, address: u16, data: u8)
        requires
            old(aram)@.len() == 0x1000,
        ensures
            final(self).cycles == old(self).cycles.wrapping_add(1),
            address >= 0x8000 ==> final(self).sample == data && final(aram)@ == old(aram)@,
            address < 0x8000 ==> final(self).sample == old(self).sample && final(aram)@ == old(
                aram,
            )@.update((address % 0x1000) as int, data),
    {
        self.cycles = self.cycles.wrapping_add(1);
        if address >= 0x8000 {
            self.sample = data;
        } else {
            aram.set(address as usize % 0x1000, data);
        }
    }

    /// Returns the bus cycles counted since the last call, and restarts the count.
    pub fn clear_cycles(&mut self) -> (r: u8)
        ensures
            r == old(self).cycles,
            *final(self) == (AcpBus { cycles: 0, ..*old(self) }),
    {
        let r = self.cycles;
        self.cycles = 0;
        r
    }
}

} // verus!
