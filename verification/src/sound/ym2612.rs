//! The register file of the FM synthesiser: two banks of 256 registers,
//! one behind each pair of ports. The even port of a pair takes the number
//! of a register, the odd port the value for the register named last.

use vstd::prelude::*;

verus! {

/// Registers of one bank.
pub const BANK_SIZE: usize = 256;

/// Number of banks.
pub const BANKS: usize = 2;

/// The status of a chip that is ready and has no timer flag raised.
pub const STATUS_READY: u8 = 0x00;

/// The FM synthesiser.
#[derive(Clone, Debug)]
pub struct Ym2612 {
    pub registers: [u8; 512],
    /// The register that each bank had named last.
    pub address: [u8; 2],
}

impl Ym2612 {
    /// The place of a register of a bank.
    pub open spec fn slot(port: u8, address: u8) -> int {
        port as int * 256 + address as int
    }

    /// A chip with every register zero.
    pub fn new() -> (chip: Ym2612)
        ensures
            chip.registers@ == Seq::new(512, |i: int| 0u8),
            chip.address@ == Seq::new(2, |i: int| 0u8),
    {
        let chip = Ym2612 { registers: [0; 512], address: [0; 2] };
        assert(chip.registers@ =~= Seq::new(512, |i: int| 0u8));
        assert(chip.address@ =~= Seq::new(2, |i: int| 0u8));
        chip
    }

    /// A write to one of the four ports, taken by its low two bits: an even
    /// port names a register of its bank, an odd port writes the register
    /// that its bank had named last.
    pub fn write_port(&mut self, port: u8, value: u8)
        ensures
            port % 2 == 0 ==> final(self).registers@ == old(self).registers@
                && final(self).address@ == old(self).address@.update((port as int % 4) / 2, value),
            port % 2 == 1 ==> final(self).address@ == old(self).address@
                && final(self).registers@ == old(self).registers@.update(
                Self::slot(((port % 4) / 2) as u8, old(self).address@[(port as int % 4) / 2]),
                value,
            ),
    {
        let bank: u8 = (port % 4) / 2;
        if port % 2 == 0 {
            self.address[bank as usize] = value;
        } else {
            let address: u8 = self.address[bank as usize];
            self.write_register(bank, address, value);
        }
    }

    /// Writes a register of bank `port`.
    pub fn write_register(&mut self, port: u8, address: u8, data: u8)
        requires
            port < 2,
        ensures
            final(self).registers@ == old(self).registers@.update(Self::slot(port, address), data),
            final(self).address == old(self).address,
    {
        let bank_offset: usize = port as usize * BANK_SIZE;
        self.registers[bank_offset + address as usize] = data;
    }

    /// A register of bank `port`.
    pub fn read_register(&self, port: u8, address: u8) -> (data: u8)
        requires
            port < 2,
        ensures
            data == self.registers@[Self::slot(port, address)],
    {
        self.registers[port as usize * BANK_SIZE + address as usize]
    }

    /// The status register: ready, no timer flag.
    pub fn read_status(&self, port: u8) -> (status: u8)
        ensures
            status == STATUS_READY,
    {
        STATUS_READY
    }
}

} // verus!
