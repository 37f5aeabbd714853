//! The map from a 24-bit address of the host processor to a part of the
//! machine and an offset into it.
//!
//! | addresses           | part                                        |
//! |---------------------|---------------------------------------------|
//! | 0x000000 - 0x0003FF | boot image while locked, else the cartridge |
//! | 0x000000 - 0x3FFFFF | cartridge image                             |
//! | 0x200000 - 0x20FFFF | save RAM where the cartridge has any        |
//! | 0xA00000 - 0xA01FFF | sound RAM                                   |
//! | 0xA10000 - 0xA10FFF | input and output registers                  |
//! | 0xC00000 - 0xC0001F | video ports                                 |
//! | 0xFF0000 - 0xFFFFFF | work RAM                                    |

use vstd::prelude::*;
use crate::memory::rom::Cartridge;

verus! {

/// Bits of an address that the host processor puts on its bus.
pub const ADDRESS_SPACE: u32 = 0x100_0000;

/// The parts of the machine that the map knows.
#[derive(Debug, Clone, Copy, PartialEq, Eq, Structural)]
pub enum MemoryRegion {
    Bios,
    WorkRam,
    VideoRam,
    SoundRam,
    CartridgeRom,
    CartridgeRam,
    IoRegisters,
    Unmapped,
}

/// A part of the machine and an offset into it.
#[derive(Debug, Clone, Copy, PartialEq, Eq, Structural)]
pub struct MappedAddress {
    pub region: MemoryRegion,
    pub offset: u16,
}

/// Where the cartridge and its save RAM lie.
#[derive(Debug, Clone, Copy, PartialEq, Eq, Structural)]
pub struct MappingConfig {
    pub cartridge_start: u32,
    pub cartridge_end: u32,
    pub sram_start: u32,
    pub sram_end: u32,
    pub sram_enabled: bool,
}

/// The map.
#[derive(Debug, Clone, Copy, PartialEq, Eq, Structural)]
pub struct MemoryMapper {
    tmss_locked: bool,
    mapping_config: MappingConfig,
}

/// The part of the machine that a 24-bit address reaches.
pub open spec fn region_of(locked: bool, save_ram: bool, addr: int) -> MemoryRegion {
    if addr <= 0x3FF && locked {
        MemoryRegion::Bios
    } else if addr <= 0x3F_FFFF {
        if save_ram && 0x20_0000 <= addr <= 0x20_FFFF {
            MemoryRegion::CartridgeRam
        } else {
            MemoryRegion::CartridgeRom
        }
    } else if 0xA0_0000 <= addr <= 0xA0_1FFF {
        MemoryRegion::SoundRam
    } else if 0xA1_0000 <= addr <= 0xA1_0FFF {
        MemoryRegion::IoRegisters
    } else if 0xC0_0000 <= addr <= 0xC0_001F {
        MemoryRegion::VideoRam
    } else if 0xFF_0000 <= addr {
        MemoryRegion::WorkRam
    } else {
        MemoryRegion::Unmapped
    }
}

/// Where a part of the machine begins. The cartridge image is reached by
/// the low sixteen bits of the address.
pub open spec fn base_of(region: MemoryRegion) -> int {
    match region {
        MemoryRegion::Bios => 0,
        MemoryRegion::CartridgeRom => 0,
        MemoryRegion::CartridgeRam => 0x20_0000,
        MemoryRegion::SoundRam => 0xA0_0000,
        MemoryRegion::IoRegisters => 0xA1_0000,
        MemoryRegion::VideoRam => 0xC0_0000,
        MemoryRegion::WorkRam => 0xFF_0000,
        MemoryRegion::Unmapped => 0,
    }
}

/// What an address is mapped to: its low 24 bits decide the part, and the
/// offset is the distance from where the part begins, zero where nothing is
/// mapped.
pub open spec fn mapped(locked: bool, save_ram: bool, address: u32) -> MappedAddress {
    let addr = address as int % 0x100_0000;
    let region = region_of(locked, save_ram, addr);
    MappedAddress {
        region,
        offset: if region == MemoryRegion::Unmapped {
            0
        } else {
            ((addr - base_of(region)) % 0x1_0000) as u16
        },
    }
}

impl MemoryMapper {
    /// Whether the boot image covers the first 1 KiB.
    pub closed spec fn locked(&self) -> bool {
        self.tmss_locked
    }

    /// Whether the cartridge has save RAM.
    pub closed spec fn save_ram(&self) -> bool {
        self.mapping_config.sram_enabled
    }

    /// The save RAM lies where the map expects it.
    pub closed spec fn wf(&self) -> bool {
        &&& self.mapping_config.sram_start == 0x20_0000
        &&& self.mapping_config.sram_end == 0x20_FFFF
    }

    /// A map without lock and without save RAM.
    pub fn new() -> (mapper: MemoryMapper)
        ensures
            mapper.wf(),
            !mapper.locked(),
            !mapper.save_ram(),
    {
        MemoryMapper {
            tmss_locked: false,
            mapping_config: MappingConfig {
                cartridge_start: 0x00_0000,
                cartridge_end: 0x3F_FFFF,
                sram_start: 0x20_0000,
                sram_end: 0x20_FFFF,
                sram_enabled: false,
            },
        }
    }

    /// Takes from a cartridge whether there is save RAM.
    pub fn configure(&mut self, cartridge: &Cartridge)
        ensures
            final(self).save_ram() == (cartridge@.header.ram_size_kb > 0),
            final(self).locked() == old(self).locked(),
            old(self).wf() ==> final(self).wf(),
    {
        self.mapping_config.sram_enabled = cartridge.get_header().ram_size_kb > 0;
    }

    /// Maps an address.
    pub fn map_address(&self, address: u32) -> (res: MappedAddress)
        requires
            self.wf(),
        ensures
            res == mapped(self.locked(), self.save_ram(), address),
    {
        let addr: u32 = address % ADDRESS_SPACE;
        if addr <= 0x3FF {
            if self.tmss_locked {
                MappedAddress { region: MemoryRegion::Bios, offset: addr as u16 }
            } else {
                self.map_cartridge_address(addr)
            }
        } else if addr <= 0x1F_FFFF || (addr >= 0x21_0000 && addr <= 0x3F_FFFF) {
            self.map_cartridge_address(addr)
        } else if addr <= 0x20_FFFF {
            if self.mapping_config.sram_enabled {
                MappedAddress {
                    region: MemoryRegion::CartridgeRam,
                    offset: (addr - 0x20_0000) as u16,
                }
            } else {
                self.map_cartridge_address(addr)
            }
        } else if addr >= 0xA1_0000 && addr <= 0xA1_0FFF {
            MappedAddress { region: MemoryRegion::IoRegisters, offset: (addr - 0xA1_0000) as u16 }
        } else if addr >= 0xA0_0000 && addr <= 0xA0_FFFF {
            if addr <= 0xA0_1FFF {
                MappedAddress { region: MemoryRegion::SoundRam, offset: (addr - 0xA0_0000) as u16 }
            } else {
                MappedAddress { region: MemoryRegion::Unmapped, offset: 0 }
            }
        } else if addr >= 0xC0_0000 && addr <= 0xC0_001F {
            MappedAddress { region: MemoryRegion::VideoRam, offset: (addr - 0xC0_0000) as u16 }
        } else if addr >= 0xFF_0000 {
            MappedAddress { region: MemoryRegion::WorkRam, offset: (addr - 0xFF_0000) as u16 }
        } else {
            MappedAddress { region: MemoryRegion::Unmapped, offset: 0 }
        }
    }

    /// Maps an address of the cartridge's part of the map.
    fn map_cartridge_address(&self, address: u32) -> (res: MappedAddress)
        requires
            self.wf(),
            address <= 0x3F_FFFF,
        ensures
            res == mapped(false, self.save_ram(), address),
    {
        if address >= self.mapping_config.sram_start && address <= self.mapping_config.sram_end
            && self.mapping_config.sram_enabled {
            MappedAddress {
                region: MemoryRegion::CartridgeRam,
                offset: (address - self.mapping_config.sram_start) as u16,
            }
        } else {
            MappedAddress { region: MemoryRegion::CartridgeRom, offset: (address % 0x1_0000) as u16 }
        }
    }

    /// Sets or lifts the lock that shows the boot image.
    pub fn set_tmss_lock(&mut self, locked: bool)
        ensures
            final(self).locked() == locked,
            final(self).save_ram() == old(self).save_ram(),
            old(self).wf() ==> final(self).wf(),
    {
        self.tmss_locked = locked;
    }
}

/// Two addresses with the same low 24 bits are mapped alike, and every
/// offset stays inside the part it belongs to.
pub proof fn lemma_map_wraps(locked: bool, save_ram: bool, a: u32, b: u32)
    requires
        a % 0x100_0000 == b % 0x100_0000,
    ensures
        mapped(locked, save_ram, a) == mapped(locked, save_ram, b),
        mapped(locked, save_ram, a).region == MemoryRegion::SoundRam ==> mapped(
            locked,
            save_ram,
            a,
        ).offset < 0x2000,
        mapped(locked, save_ram, a).region == MemoryRegion::IoRegisters ==> mapped(
            locked,
            save_ram,
            a,
        ).offset < 0x1000,
        mapped(locked, save_ram, a).region == MemoryRegion::VideoRam ==> mapped(
            locked,
            save_ram,
            a,
        ).offset < 0x20,
        mapped(locked, save_ram, a).region == MemoryRegion::Bios ==> mapped(
            locked,
            save_ram,
            a,
        ).offset < 0x400,
{
}

} // verus!
