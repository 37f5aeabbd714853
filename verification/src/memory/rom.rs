//! The cartridge: the image, the header that the image carries from byte
//! 0x100 on, the save RAM and the bank registers.

use vstd::prelude::*;
use crate::text::{lossy_text, text_from_utf8_lossy};

verus! {

/// The shortest image that holds a header.
pub const MIN_ROM_SIZE: usize = 0x200;

/// Bytes that one bank shows.
pub const BANK_SIZE: usize = 0x40_0000;

/// Where the save RAM begins in the memory map.
pub const SAVE_RAM_START: u32 = 0xFF_0000;

/// Where the save RAM ends in the memory map.
pub const SAVE_RAM_END: u32 = 0xFF_FFFF;

/// The byte read where nothing answers.
pub const OPEN_BUS: u8 = 0xFF;

/// The market that an image was made for.
#[derive(Debug, Clone, Copy, PartialEq, Eq, Structural)]
pub enum Region {
    Japan,
    USA,
    Europe,
    Brazil,
    Korea,
    Unknown,
}

/// Why an image was refused.
#[derive(Debug, Clone, Copy, PartialEq, Eq, Structural)]
pub enum RomError {
    /// The image is too short to hold a header.
    TooSmall(usize),
}

/// The header of an image.
#[derive(Debug, Clone)]
pub struct RomHeader {
    /// Name of the game.
    pub title: String,
    /// Who holds the rights.
    pub copyright: String,
    /// Name of the game abroad.
    pub overseas_title: String,
    /// Kind of product.
    pub product_type: String,
    /// Product code.
    pub product_code: String,
    /// Sum of the words of the image, as the header states it.
    pub checksum: u16,
    /// The market.
    pub region: Region,
    /// Size of the image in KiB.
    pub rom_size_kb: u32,
    /// Size of the save RAM in KiB; zero where there is none.
    pub ram_size_kb: u32,
    /// Where the save RAM begins.
    pub ram_start: u32,
    /// Where the save RAM ends.
    pub ram_end: u32,
}

/// How a cartridge is built.
#[derive(Debug, Clone, Copy, PartialEq, Eq, Structural)]
pub enum CartridgeType {
    /// An image and nothing else.
    Standard,
    /// With save RAM.
    Sram,
    /// With save RAM that a battery keeps.
    SramWithBattery,
    /// With a mapping of its own.
    Custom,
}

/// The characters of the bytes that are not zero, in their order.
pub open spec fn nonzero_chars(bytes: Seq<u8>) -> Seq<char>
    decreases bytes.len(),
{
    if bytes.len() == 0 {
        Seq::empty()
    } else if bytes.last() != 0 {
        nonzero_chars(bytes.drop_last()).push(bytes.last() as char)
    } else {
        nonzero_chars(bytes.drop_last())
    }
}

/// The market that a region byte stands for.
pub open spec fn region_of(code: u8) -> Region {
    if code == 0x4A || code == 0x6A {
        Region::Japan
    } else if code == 0x55 || code == 0x75 {
        Region::USA
    } else if code == 0x45 || code == 0x65 {
        Region::Europe
    } else if code == 0x42 || code == 0x62 {
        Region::Brazil
    } else if code == 0x4B || code == 0x6B {
        Region::Korea
    } else {
        Region::Unknown
    }
}

/// The big-endian word at an offset of an image.
pub open spec fn word_at(rom: Seq<u8>, at: int) -> int {
    rom[at] as int * 256 + rom[at + 1] as int
}

/// KiB that a number of words takes.
pub open spec fn kb_of_words(words: int) -> int {
    (words * 2) / 1024
}

/// What the header of an image says, field by field.
pub open spec fn header_matches(header: &RomHeader, rom: Seq<u8>) -> bool {
    &&& header.title@ == nonzero_chars(rom.subrange(0x100, 0x110))
    &&& header.copyright@ == nonzero_chars(rom.subrange(0x110, 0x120))
    &&& header.overseas_title@ == nonzero_chars(rom.subrange(0x120, 0x150))
    &&& header.product_type@ == lossy_text(rom.subrange(0x180, 0x188))
    &&& header.product_code@ == lossy_text(rom.subrange(0x188, 0x190))
    &&& header.checksum == word_at(rom, 0x18E)
    &&& header.region == region_of(rom[0x1F0])
    &&& header.rom_size_kb == kb_of_words(word_at(rom, 0x1A4))
    &&& header.ram_size_kb == kb_of_words(word_at(rom, 0x1A8))
    &&& header.ram_start == SAVE_RAM_START
    &&& header.ram_end == SAVE_RAM_END
}

/// How a cartridge with a header and an image is built: with save RAM
/// where the header gives it a size, kept by a battery where byte 0x1B0 is
/// `R` or `F`.
pub open spec fn type_of(ram_size_kb: u32, rom: Seq<u8>) -> CartridgeType {
    if ram_size_kb == 0 {
        CartridgeType::Standard
    } else if rom.len() > 0x1B0 && (rom[0x1B0] == 0x52 || rom[0x1B0] == 0x46) {
        CartridgeType::SramWithBattery
    } else {
        CartridgeType::Sram
    }
}

/// The sum of the first `pairs` big-endian words of an image, within
/// sixteen bits.
pub open spec fn word_sum(rom: Seq<u8>, pairs: int) -> int
    decreases pairs,
{
    if pairs <= 0 {
        0
    } else {
        (word_sum(rom, pairs - 1) + word_at(rom, 2 * (pairs - 1))) % 0x1_0000
    }
}

/// The index into an image of `len` bytes that an offset reaches while
/// bank `bank` is shown: banks count only for images over 4 MiB, and an
/// index behind the image wraps into it.
pub open spec fn translated(len: int, bank: int, offset: u16) -> int {
    let addr = if len > BANK_SIZE {
        bank * BANK_SIZE + offset as int
    } else {
        offset as int
    };
    if addr >= len {
        addr % len
    } else {
        addr
    }
}

/// The characters of the bytes `from..to` of an image that are not zero.
fn text_field(rom: &Vec<u8>, from: usize, to: usize) -> (s: String)
    requires
        from <= to <= rom@.len(),
    ensures
        s@ == nonzero_chars(rom@.subrange(from as int, to as int)),
{
    let mut s: String = String::new();
    let mut i: usize = from;
    assert(rom@.subrange(from as int, from as int).len() == 0);
    while i < to
        invariant
            from <= i <= to <= rom@.len(),
            s@ == nonzero_chars(rom@.subrange(from as int, i as int)),
        decreases to - i,
    {
        let byte: u8 = rom[i];
        assert(rom@.subrange(from as int, i as int + 1).drop_last() =~= rom@.subrange(
            from as int,
            i as int,
        ));
        assert(rom@.subrange(from as int, i as int + 1).last() == byte);
        if byte != 0 {
            s.push(byte as char);
        }
        i += 1;
    }
    s
}

/// What a cartridge holds.
#[verifier::ext_equal]
pub struct CartridgeView {
    /// The image.
    pub rom: Seq<u8>,
    /// The save RAM, if there is any.
    pub save_ram: Option<Seq<u8>>,
    /// The header.
    pub header: RomHeader,
    /// How the cartridge is built.
    pub kind: CartridgeType,
    /// The bank registers.
    pub banks: Seq<u8>,
    /// The bank that is shown.
    pub bank: int,
}

impl CartridgeView {
    /// The image holds a header, the header is the one it holds, the save
    /// RAM has the size the header gives it, and the bank is one of
    /// sixteen.
    pub open spec fn wf(self) -> bool {
        &&& self.rom.len() >= MIN_ROM_SIZE
        &&& header_matches(&self.header, self.rom)
        &&& self.kind == type_of(self.header.ram_size_kb, self.rom)
        &&& 0 <= self.bank < 16
        &&& self.banks.len() == 8
        &&& self.header.ram_size_kb < 128
        &&& match self.save_ram {
            Some(ram) => self.header.ram_size_kb > 0 && ram.len() == self.header.ram_size_kb
                * 1024,
            None => self.header.ram_size_kb == 0,
        }
    }

    /// The byte of the image that an offset reaches.
    pub open spec fn byte_at(self, offset: u16) -> u8 {
        self.rom[translated(self.rom.len() as int, self.bank, offset)]
    }

    /// What the save RAM gives at an offset: 0xFF where there is no save
    /// RAM or the offset is behind it.
    pub open spec fn save_byte(self, offset: u16) -> u8 {
        match self.save_ram {
            Some(ram) => if offset < ram.len() {
                ram[offset as int]
            } else {
                OPEN_BUS
            },
            None => OPEN_BUS,
        }
    }

    /// The cartridge after a byte was written to the save RAM: unchanged
    /// where there is none or the offset is behind it.
    pub open spec fn with_save_byte(self, offset: u16, value: u8) -> CartridgeView {
        match self.save_ram {
            Some(ram) => if offset < ram.len() {
                CartridgeView { save_ram: Some(ram.update(offset as int, value)), ..self }
            } else {
                self
            },
            None => self,
        }
    }

    /// The cartridge after a write into the image's addresses: offsets 0
    /// to 7 set a bank register, offsets 8 to 15 show the bank in the low
    /// four bits of the value, others do nothing.
    pub open spec fn with_bank_switch(self, offset: u16, value: u8) -> CartridgeView {
        if offset < 8 {
            CartridgeView { banks: self.banks.update(offset as int, value), ..self }
        } else if offset < 16 {
            CartridgeView { bank: value as int % 16, ..self }
        } else {
            self
        }
    }

    /// The cartridge after its save RAM was taken from data: refused where
    /// the lengths differ or there is no save RAM.
    pub open spec fn with_save_data(self, data: Seq<u8>) -> CartridgeView {
        if self.takes_save_data(data) {
            CartridgeView { save_ram: Some(data), ..self }
        } else {
            self
        }
    }

    /// Whether data can become the save RAM.
    pub open spec fn takes_save_data(self, data: Seq<u8>) -> bool {
        self.save_ram is Some && self.save_ram.unwrap().len() == data.len()
    }
}

/// A cartridge.
#[derive(Debug, Clone)]
pub struct Cartridge {
    rom_data: Vec<u8>,
    sram: Option<Vec<u8>>,
    header: RomHeader,
    cart_type: CartridgeType,
    bank_registers: [u8; 8],
    current_bank: usize,
}

impl View for Cartridge {
    type V = CartridgeView;

    closed spec fn view(&self) -> CartridgeView {
        CartridgeView {
            rom: self.rom_data@,
            save_ram: match self.sram {
                Some(ram) => Some(ram@),
                None => None,
            },
            header: self.header,
            kind: self.cart_type,
            banks: self.bank_registers@,
            bank: self.current_bank as int,
        }
    }
}

impl Cartridge {
    /// Whether the cartridge is well formed.
    pub open spec fn wf(&self) -> bool {
        self@.wf()
    }

    /// Reads the header of an image of at least 0x200 bytes.
    fn parse_header(rom_data: &Vec<u8>) -> (header: RomHeader)
        requires
            rom_data@.len() >= MIN_ROM_SIZE,
        ensures
            header_matches(&header, rom_data@),
            header.ram_size_kb < 128,
    {
        let title: String = text_field(rom_data, 0x100, 0x110);
        let copyright: String = text_field(rom_data, 0x110, 0x120);
        let overseas_title: String = text_field(rom_data, 0x120, 0x150);
        let code: u8 = rom_data[0x1F0];
        let region: Region = if code == 0x4A || code == 0x6A {
            Region::Japan
        } else if code == 0x55 || code == 0x75 {
            Region::USA
        } else if code == 0x45 || code == 0x65 {
            Region::Europe
        } else if code == 0x42 || code == 0x62 {
            Region::Brazil
        } else if code == 0x4B || code == 0x6B {
            Region::Korea
        } else {
            Region::Unknown
        };
        let rom_size_words: u32 = rom_data[0x1A4] as u32 * 256 + rom_data[0x1A5] as u32;
        let rom_size_kb: u32 = (rom_size_words * 2) / 1024;
        let ram_size_words: u32 = rom_data[0x1A8] as u32 * 256 + rom_data[0x1A9] as u32;
        let ram_size_kb: u32 = (ram_size_words * 2) / 1024;
        let checksum: u16 = rom_data[0x18E] as u16 * 256 + rom_data[0x18F] as u16;
        let bytes: &[u8] = rom_data.as_slice();
        RomHeader {
            title,
            copyright,
            overseas_title,
            product_type: text_from_utf8_lossy(vstd::slice::slice_subrange(bytes, 0x180, 0x188)),
            product_code: text_from_utf8_lossy(vstd::slice::slice_subrange(bytes, 0x188, 0x190)),
            checksum,
            region,
            rom_size_kb,
            ram_size_kb,
            ram_start: SAVE_RAM_START,
            ram_end: SAVE_RAM_END,
        }
    }

    /// How a cartridge with this header and image is built.
    fn determine_cartridge_type(header: &RomHeader, rom_data: &Vec<u8>) -> (kind: CartridgeType)
        ensures
            kind == type_of(header.ram_size_kb, rom_data@),
    {
        if header.ram_size_kb > 0 {
            let has_battery: bool = rom_data.len() > 0x1B0 && (rom_data[0x1B0] == 0x52
                || rom_data[0x1B0] == 0x46);
            if has_battery {
                CartridgeType::SramWithBattery
            } else {
                CartridgeType::Sram
            }
        } else {
            CartridgeType::Standard
        }
    }

    /// A cartridge around an image. An image under 0x200 bytes holds no
    /// header and is refused. The save RAM starts out as 0xFF throughout,
    /// the bank registers as zero, and bank 0 is shown.
    pub fn new(rom_data: Vec<u8>) -> (res: Result<Cartridge, RomError>)
        ensures
            rom_data@.len() < MIN_ROM_SIZE ==> res == Err::<Cartridge, RomError>(
                RomError::TooSmall(rom_data.len()),
            ),
            rom_data@.len() >= MIN_ROM_SIZE ==> {
                &&& res is Ok
                &&& res->Ok_0.wf()
                &&& res->Ok_0@.rom == rom_data@
                &&& res->Ok_0@.bank == 0
                &&& res->Ok_0@.banks == Seq::new(8, |i: int| 0u8)
                &&& res->Ok_0@.save_ram is Some ==> res->Ok_0@.save_ram.unwrap() == Seq::new(
                    (res->Ok_0@.header.ram_size_kb * 1024) as nat,
                    |i: int| OPEN_BUS,
                )
            },
    {
        if rom_data.len() < MIN_ROM_SIZE {
            return Err(RomError::TooSmall(rom_data.len()));
        }
        let header: RomHeader = Cartridge::parse_header(&rom_data);
        let cart_type: CartridgeType = Cartridge::determine_cartridge_type(&header, &rom_data);
        let sram: Option<Vec<u8>> = if header.ram_size_kb > 0 {
            let sram_size: usize = header.ram_size_kb as usize * 1024;
            let ram: Vec<u8> = vec![OPEN_BUS; sram_size];
            assert(ram@ =~= Seq::new(sram_size as nat, |i: int| OPEN_BUS));
            Some(ram)
        } else {
            None
        };
        let cartridge = Cartridge {
            rom_data,
            sram,
            header,
            cart_type,
            bank_registers: [0; 8],
            current_bank: 0,
        };
        assert(cartridge@.banks =~= Seq::new(8, |i: int| 0u8));
        Ok(cartridge)
    }

    /// The index into the image that an offset reaches.
    fn translate_address(&self, offset: u16) -> (addr: usize)
        requires
            self.wf(),
        ensures
            addr == translated(self@.rom.len() as int, self@.bank, offset),
            addr < self@.rom.len(),
    {
        let mut addr: usize = offset as usize;
        if self.rom_data.len() > BANK_SIZE {
            addr = self.current_bank * BANK_SIZE + (addr % BANK_SIZE);
        }
        if addr >= self.rom_data.len() {
            addr %= self.rom_data.len();
        }
        addr
    }

    /// The byte of the image that an offset reaches.
    pub fn read_byte(&self, offset: u16) -> (res: Result<u8, RomError>)
        requires
            self.wf(),
        ensures
            res == Ok::<u8, RomError>(self@.byte_at(offset)),
    {
        let addr: usize = self.translate_address(offset);
        if addr < self.rom_data.len() {
            Ok(self.rom_data[addr])
        } else {
            Ok(OPEN_BUS)
        }
    }

    /// A byte of the save RAM.
    pub fn read_sram(&self, offset: u16) -> (res: Result<u8, RomError>)
        ensures
            res == Ok::<u8, RomError>(self@.save_byte(offset)),
    {
        match &self.sram {
            Some(sram) => {
                let addr: usize = offset as usize;
                if addr < sram.len() {
                    Ok(sram[addr])
                } else {
                    Ok(OPEN_BUS)
                }
            },
            None => Ok(OPEN_BUS),
        }
    }

    /// Stores a byte in the save RAM.
    pub fn write_sram(&mut self, offset: u16, value: u8) -> (res: Result<(), RomError>)
        ensures
            res is Ok,
            final(self)@ == old(self)@.with_save_byte(offset, value),
    {
        let addr: usize = offset as usize;
        match &mut self.sram {
            Some(sram) => {
                if addr < sram.len() {
                    sram[addr] = value;
                }
            },
            None => {},
        }
        Ok(())
    }

    /// A write into the image's addresses.
    pub fn handle_bank_switch(&mut self, offset: u16, value: u8) -> (res: Result<(), RomError>)
        ensures
            res is Ok,
            final(self)@ == old(self)@.with_bank_switch(offset, value),
    {
        if offset < 8 {
            self.bank_registers[offset as usize] = value;
        } else if offset < 16 {
            self.current_bank = (value % 16) as usize;
        }
        Ok(())
    }

    /// The header.
    pub fn get_header(&self) -> (header: &RomHeader)
        ensures
            *header == self@.header,
    {
        &self.header
    }

    /// The save RAM as it would be written to a file, if there is any.
    pub fn sram_data(&self) -> (data: Option<&[u8]>)
        ensures
            data is Some == self@.save_ram is Some,
            data is Some ==> data.unwrap()@ == self@.save_ram.unwrap(),
    {
        match &self.sram {
            Some(sram) => Some(sram.as_slice()),
            None => None,
        }
    }

    /// Takes the save RAM from data that was read from a file. Data of
    /// another length than the save RAM is refused, and so is any where
    /// there is no save RAM.
    pub fn restore_sram(&mut self, data: &[u8]) -> (taken: bool)
        ensures
            taken == old(self)@.takes_save_data(data@),
            final(self)@ == old(self)@.with_save_data(data@),
    {
        match &mut self.sram {
            Some(sram) => {
                if data.len() != sram.len() {
                    return false;
                }
                let mut i: usize = 0;
                while i < data.len()
                    invariant
                        i <= data@.len(),
                        sram@.len() == data@.len(),
                        forall|k: int| 0 <= k < i ==> sram@[k] == data@[k],
                    decreases data@.len() - i,
                {
                    sram[i] = data[i];
                    i += 1;
                }
                assert(sram@ =~= data@);
                true
            },
            None => false,
        }
    }

    /// The sum of the image's words, within sixteen bits. A last byte
    /// without a partner is left out.
    pub fn calculate_checksum(&self) -> (sum: u16)
        ensures
            sum == word_sum(self@.rom, self@.rom.len() as int / 2),
    {
        let len: usize = self.rom_data.len();
        let pairs: usize = len / 2;
        let mut calculated: u16 = 0;
        let mut i: usize = 0;
        while i < pairs
            invariant
                i <= pairs,
                len == self.rom_data@.len(),
                pairs == len / 2,
                calculated == word_sum(self.rom_data@, i as int),
            decreases pairs - i,
        {
            let word: u16 = self.rom_data[2 * i] as u16 * 256 + self.rom_data[2 * i + 1] as u16;
            calculated = calculated.wrapping_add(word);
            i += 1;
        }
        calculated
    }

    /// Whether the sum of the image's words is the checksum of the header.
    pub fn verify_checksum(&self) -> (ok: bool)
        ensures
            ok == (word_sum(self@.rom, self@.rom.len() as int / 2) == self@.header.checksum),
    {
        self.calculate_checksum() == self.header.checksum
    }
}

/// Writes to the save RAM and to the banks keep a cartridge well formed,
/// and a byte written to the save RAM is the byte read back.
pub proof fn lemma_writes_keep_the_cartridge(c: CartridgeView, offset: u16, value: u8)
    requires
        c.wf(),
    ensures
        c.with_save_byte(offset, value).wf(),
        c.with_bank_switch(offset, value).wf(),
        c.save_ram is Some && offset < c.save_ram.unwrap().len() ==> c.with_save_byte(
            offset,
            value,
        ).save_byte(offset) == value,
        c.with_save_byte(offset, value).rom == c.rom,
        c.with_bank_switch(offset, value).rom == c.rom,
{
}

} // verus!
