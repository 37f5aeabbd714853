use megastrife::memory::mapper::{MappedAddress, MemoryMapper, MemoryRegion};
use megastrife::memory::ram::{RamError, SoundRam, VideoRam, WorkRam};
use megastrife::memory::rom::{Cartridge, Region, RomError};
use megastrife::memory::{MemoryError, MemorySystem};

fn image(size: usize) -> Vec<u8> {
    let mut rom = vec![0u8; size];
    rom[0x100..0x10C].copy_from_slice(b"SEGA GENESIS");
    rom[0x110..0x118].copy_from_slice(b"(C)TEST ");
    rom[0x120..0x129].copy_from_slice(b"TEST GAME");
    rom[0x180..0x188].copy_from_slice(b"GM\xFF     ");
    rom[0x188..0x18E].copy_from_slice(b"00-001");
    rom[0x18E] = 0x12;
    rom[0x18F] = 0x34;
    rom[0x1A4] = 0x04;
    rom[0x1A5] = 0x00;
    rom[0x1F0] = b'U';
    rom
}

fn image_with_save_ram(size: usize) -> Vec<u8> {
    let mut rom = image(size);
    rom[0x1A8] = 0x02;
    rom[0x1A9] = 0x00;
    rom[0x1B0] = b'R';
    rom
}

#[test]
fn work_ram_reads_back_bytes_and_words() {
    let mut ram = Box::new(WorkRam::new());
    assert_eq!(ram.read_byte(0x1234), Ok(0));
    assert_eq!(ram.write_byte(0x1234, 0xAB), Ok(()));
    assert_eq!(ram.read_byte(0x1234), Ok(0xAB));
    assert_eq!(ram.write_word(0x2000, 0xBEEF), Ok(()));
    assert_eq!(ram.read_byte(0x2000), Ok(0xBE));
    assert_eq!(ram.read_byte(0x2001), Ok(0xEF));
    assert_eq!(ram.read_word(0x2000), Ok(0xBEEF));
    assert_eq!(ram.write_word(0xFFFF, 0x1122), Ok(()));
    assert_eq!(ram.read_byte(0xFFFF), Ok(0x11));
    assert_eq!(ram.read_byte(0x0000), Ok(0x22));
    assert_eq!(ram.read_word(0xFFFF), Ok(0x1122));
    ram.clear();
    assert_eq!(ram.read_word(0x2000), Ok(0));
}

#[test]
fn work_ram_takes_data_that_fits() {
    let mut ram = Box::new(WorkRam::new());
    assert_eq!(ram.load_data(0xFFFE, &[1, 2]), Ok(()));
    assert_eq!(ram.get_slice(0xFFFE, 2), &[1, 2]);
    assert_eq!(
        ram.load_data(0xFFFE, &[1, 2, 3]),
        Err(RamError::OutOfBounds { offset: 0xFFFE, length: 3, size: 65536 })
    );
    assert_eq!(ram.load_data(0x10, &[9, 8, 7]), Ok(()));
    assert_eq!(ram.get_slice(0x0F, 5), &[0, 9, 8, 7, 0]);
    assert_eq!(ram.get_slice(0xFFFF, 100), &[2]);
    assert_eq!(ram.get_slice(0x10, 0), &[] as &[u8]);
}

#[test]
fn video_ram_holds_tiles() {
    let mut ram = Box::new(VideoRam::new());
    let mut tile = [0u8; 32];
    for (i, byte) in tile.iter_mut().enumerate() {
        *byte = i as u8 + 1;
    }
    assert_eq!(ram.write_tile(3, &tile), Ok(()));
    assert_eq!(ram.read_byte(95), Ok(0));
    assert_eq!(ram.read_byte(96), Ok(1));
    assert_eq!(ram.read_byte(127), Ok(32));
    assert_eq!(ram.read_byte(128), Ok(0));
    assert_eq!(ram.read_tile(3), Ok(tile));
    assert_eq!(ram.read_tile(2), Ok([0u8; 32]));
    assert_eq!(ram.write_tile(2047, &tile), Ok(()));
    assert_eq!(ram.read_byte(0xFFFF), Ok(32));
    assert_eq!(ram.read_word(0x0060), Ok(0x0102));
    assert_eq!(ram.write_word(0x0060, 0xA0B0), Ok(()));
    assert_eq!(ram.get_slice(0x60, 3), &[0xA0, 0xB0, 3]);
    assert_eq!(ram.write_byte(0x60, 1), Ok(()));
    ram.clear();
    assert_eq!(ram.read_tile(3), Ok([0u8; 32]));
}

#[test]
fn sound_ram_ignores_what_lies_behind_it() {
    let mut ram = SoundRam::new();
    assert_eq!(ram.write_byte(0x1FFF, 7), Ok(()));
    assert_eq!(ram.read_byte(0x1FFF), Ok(7));
    assert_eq!(ram.write_byte(0x2000, 9), Ok(()));
    assert_eq!(ram.read_byte(0x2000), Ok(0));
    assert_eq!(ram.write_word(0x1FFF, 0xAABB), Ok(()));
    assert_eq!(ram.read_byte(0x1FFF), Ok(0xAA));
    assert_eq!(ram.read_word(0x1FFF), Ok(0xAA00));
    assert_eq!(ram.read_word(0xFFFF), Ok(0));
    assert_eq!(ram.write_byte(0, 0x42), Ok(()));
    assert_eq!(ram.read_word(0xFFFF), Ok(0x0042));
    assert_eq!(ram.load_data(0x1FFE, &[1, 2]), Ok(()));
    assert_eq!(ram.read_word(0x1FFE), Ok(0x0102));
    assert_eq!(
        ram.load_data(0x1FFF, &[1, 2]),
        Err(RamError::OutOfBounds { offset: 0x1FFF, length: 2, size: 8192 })
    );
    assert_eq!(
        ram.load_data(0x3000, &[]),
        Err(RamError::OutOfBounds { offset: 0x3000, length: 0, size: 8192 })
    );
    ram.clear();
    assert_eq!(ram.read_byte(0), Ok(0));
}

#[test]
fn map_finds_the_part_for_an_address() {
    let mut mapper = MemoryMapper::new();
    let at = |region, offset| MappedAddress { region, offset };
    assert_eq!(mapper.map_address(0x00_0000), at(MemoryRegion::CartridgeRom, 0));
    assert_eq!(mapper.map_address(0x01_2345), at(MemoryRegion::CartridgeRom, 0x2345));
    assert_eq!(mapper.map_address(0x20_0010), at(MemoryRegion::CartridgeRom, 0x0010));
    assert_eq!(mapper.map_address(0x3F_FFFF), at(MemoryRegion::CartridgeRom, 0xFFFF));
    assert_eq!(mapper.map_address(0x40_0000), at(MemoryRegion::Unmapped, 0));
    assert_eq!(mapper.map_address(0xA0_0000), at(MemoryRegion::SoundRam, 0));
    assert_eq!(mapper.map_address(0xA0_1FFF), at(MemoryRegion::SoundRam, 0x1FFF));
    assert_eq!(mapper.map_address(0xA0_2000), at(MemoryRegion::Unmapped, 0));
    assert_eq!(mapper.map_address(0xA1_0003), at(MemoryRegion::IoRegisters, 3));
    assert_eq!(mapper.map_address(0xA1_0FFF), at(MemoryRegion::IoRegisters, 0xFFF));
    assert_eq!(mapper.map_address(0xA1_1000), at(MemoryRegion::Unmapped, 0));
    assert_eq!(mapper.map_address(0xC0_0004), at(MemoryRegion::VideoRam, 4));
    assert_eq!(mapper.map_address(0xC0_001F), at(MemoryRegion::VideoRam, 0x1F));
    assert_eq!(mapper.map_address(0xC0_0020), at(MemoryRegion::Unmapped, 0));
    assert_eq!(mapper.map_address(0xFF_0000), at(MemoryRegion::WorkRam, 0));
    assert_eq!(mapper.map_address(0xFF_FFFF), at(MemoryRegion::WorkRam, 0xFFFF));
    assert_eq!(mapper.map_address(0x12FF_8000), at(MemoryRegion::WorkRam, 0x8000));
    assert_eq!(mapper.map_address(0xFE_FFFF), at(MemoryRegion::Unmapped, 0));

    mapper.set_tmss_lock(true);
    assert_eq!(mapper.map_address(0x00_0010), at(MemoryRegion::Bios, 0x10));
    assert_eq!(mapper.map_address(0x00_03FF), at(MemoryRegion::Bios, 0x3FF));
    assert_eq!(mapper.map_address(0x00_0400), at(MemoryRegion::CartridgeRom, 0x400));
    mapper.set_tmss_lock(false);

    mapper.configure(&Cartridge::new(image_with_save_ram(0x200)).unwrap());
    assert_eq!(mapper.map_address(0x20_0010), at(MemoryRegion::CartridgeRam, 0x10));
    assert_eq!(mapper.map_address(0x20_FFFF), at(MemoryRegion::CartridgeRam, 0xFFFF));
    assert_eq!(mapper.map_address(0x21_0000), at(MemoryRegion::CartridgeRom, 0));
    assert_eq!(mapper.map_address(0x1F_FFFF), at(MemoryRegion::CartridgeRom, 0xFFFF));
    mapper.configure(&Cartridge::new(image(0x200)).unwrap());
    assert_eq!(mapper.map_address(0x20_0010), at(MemoryRegion::CartridgeRom, 0x10));
}

#[test]
fn cartridge_reads_its_header() {
    let cartridge = Cartridge::new(image_with_save_ram(0x400)).unwrap();
    let header = cartridge.get_header();
    assert_eq!(header.title, "SEGA GENESIS");
    assert_eq!(header.copyright, "(C)TEST ");
    assert_eq!(header.overseas_title, "TEST GAME");
    assert_eq!(header.product_type, "GM\u{FFFD}     ");
    assert_eq!(header.product_code, "00-001\u{12}4");
    assert_eq!(header.checksum, 0x1234);
    assert_eq!(header.region, Region::USA);
    assert_eq!(header.rom_size_kb, 2);
    assert_eq!(header.ram_size_kb, 1);
    assert_eq!(header.ram_start, 0xFF_0000);
    assert_eq!(header.ram_end, 0xFF_FFFF);
    assert_eq!(cartridge.sram_data().map(|d| d.len()), Some(1024));
    assert!(cartridge.sram_data().unwrap().iter().all(|&b| b == 0xFF));

    let plain = Cartridge::new(image(0x200)).unwrap();
    assert_eq!(plain.get_header().ram_size_kb, 0);
    assert_eq!(plain.sram_data(), None);
    assert_eq!(plain.read_sram(0), Ok(0xFF));
}

#[test]
fn cartridge_regions_and_short_images() {
    for (code, region) in [
        (b'J', Region::Japan),
        (b'j', Region::Japan),
        (b'U', Region::USA),
        (b'u', Region::USA),
        (b'E', Region::Europe),
        (b'e', Region::Europe),
        (b'B', Region::Brazil),
        (b'b', Region::Brazil),
        (b'K', Region::Korea),
        (b'k', Region::Korea),
        (b'?', Region::Unknown),
        (0, Region::Unknown),
    ] {
        let mut rom = image(0x200);
        rom[0x1F0] = code;
        assert_eq!(Cartridge::new(rom).unwrap().get_header().region, region);
    }
    assert_eq!(Cartridge::new(vec![0; 0x1FF]).err(), Some(RomError::TooSmall(0x1FF)));
    assert_eq!(Cartridge::new(Vec::new()).err(), Some(RomError::TooSmall(0)));
    let mut latin = image(0x200);
    latin[0x100] = 0xE9;
    assert!(Cartridge::new(latin).unwrap().get_header().title.starts_with('\u{E9}'));
}

#[test]
fn cartridge_bytes_save_ram_and_banks() {
    let mut rom = image_with_save_ram(0x400);
    rom[0x300] = 0x77;
    rom[0x005] = 0x55;
    let mut cartridge = Cartridge::new(rom).unwrap();
    assert_eq!(cartridge.read_byte(0x300), Ok(0x77));
    assert_eq!(cartridge.read_byte(0x405), Ok(0x55));
    assert_eq!(cartridge.read_byte(0x100), Ok(b'S'));
    assert_eq!(cartridge.read_sram(0x10), Ok(0xFF));
    assert_eq!(cartridge.write_sram(0x10, 0x42), Ok(()));
    assert_eq!(cartridge.read_sram(0x10), Ok(0x42));
    assert_eq!(cartridge.write_sram(0x400, 0x42), Ok(()));
    assert_eq!(cartridge.read_sram(0x400), Ok(0xFF));
    assert_eq!(cartridge.handle_bank_switch(0x08, 0x13), Ok(()));
    assert_eq!(cartridge.handle_bank_switch(0x03, 0x99), Ok(()));
    assert_eq!(cartridge.handle_bank_switch(0x10, 0x99), Ok(()));
    assert_eq!(cartridge.read_byte(0x300), Ok(0x77));

    assert!(!cartridge.restore_sram(&[1, 2, 3]));
    assert_eq!(cartridge.read_sram(0), Ok(0xFF));
    let saved: Vec<u8> = (0..1024).map(|i| (i % 251) as u8).collect();
    assert!(cartridge.restore_sram(&saved));
    assert_eq!(cartridge.sram_data(), Some(saved.as_slice()));
    assert_eq!(cartridge.read_sram(300), Ok(49));
    let mut plain = Cartridge::new(image(0x200)).unwrap();
    assert!(!plain.restore_sram(&[]));
}

#[test]
fn banks_show_through_in_large_images() {
    let mut rom = image(0x40_0000 * 2 + 0x100);
    rom[0x0000_0007] = 0x11;
    rom[0x0040_0007] = 0x22;
    rom[0x0080_0007] = 0x33;
    rom[0x003F_FF07] = 0x44;
    let mut cartridge = Cartridge::new(rom).unwrap();
    assert_eq!(cartridge.read_byte(7), Ok(0x11));
    cartridge.handle_bank_switch(0x0F, 0xF1).unwrap();
    assert_eq!(cartridge.read_byte(7), Ok(0x22));
    cartridge.handle_bank_switch(0x08, 2).unwrap();
    assert_eq!(cartridge.read_byte(7), Ok(0x33));
    cartridge.handle_bank_switch(0x08, 3).unwrap();
    assert_eq!(cartridge.read_byte(7), Ok(0x44));
}

#[test]
fn checksum_is_the_sum_of_the_words() {
    let mut rom = image(0x203);
    rom[0x200] = 0xAB;
    rom[0x202] = 0xFF;
    let mut sum: u16 = 0;
    for pair in rom[..0x202].chunks(2) {
        sum = sum.wrapping_add(u16::from_be_bytes([pair[0], pair[1]]));
    }
    let cartridge = Cartridge::new(rom.clone()).unwrap();
    assert_eq!(cartridge.calculate_checksum(), sum);
    assert!(!cartridge.verify_checksum());

    let rest = sum.wrapping_sub(0xAB00);
    let fill = 0u16.wrapping_sub(rest.wrapping_sub(0x1234));
    rom[0x200] = (fill >> 8) as u8;
    rom[0x201] = fill as u8;
    let cartridge = Cartridge::new(rom).unwrap();
    assert_eq!(cartridge.calculate_checksum(), 0x1234);
    assert!(cartridge.verify_checksum());
}

#[test]
fn memory_routes_each_part() {
    let mut memory = Box::new(MemorySystem::new());
    assert_eq!(memory.read_byte(0x00_0000), Ok(0xFF));
    assert_eq!(memory.read_byte(0x80_0000), Ok(0xFF));
    assert_eq!(memory.write_byte(0x80_0000, 1), Ok(()));
    assert_eq!(memory.read_byte(0x80_0000), Ok(0xFF));

    assert_eq!(memory.write_byte(0xFF_0010, 0xAB), Ok(()));
    assert_eq!(memory.read_byte(0xFF_0010), Ok(0xAB));
    assert_eq!(memory.read_byte(0x01FF_0010), Ok(0xAB));
    assert_eq!(memory.write_word(0xFF_FFFF, 0x0102), Ok(()));
    assert_eq!(memory.read_byte(0xFF_FFFF), Ok(0x01));
    assert_eq!(memory.read_byte(0x0100_0000), Ok(0xFF));
    assert_eq!(memory.read_word(0xFF_FFFF), Ok(0x01FF));

    assert_eq!(memory.write_long(0xFF_2000, 0xDEAD_BEEF), Ok(()));
    assert_eq!(memory.read_long(0xFF_2000), Ok(0xDEAD_BEEF));
    assert_eq!(memory.read_word(0xFF_2002), Ok(0xBEEF));
    assert_eq!(memory.dump_memory(0xFF_1FFF, 6), vec![0, 0xDE, 0xAD, 0xBE, 0xEF, 0]);
    assert_eq!(memory.dump_memory(0xFF_2000, 0), Vec::<u8>::new());

    assert_eq!(memory.write_byte(0xC0_0004, 0x3C), Ok(()));
    assert_eq!(memory.vram().read_byte(4), Ok(0x3C));
    assert_eq!(memory.read_byte(0xC0_0004), Ok(0x3C));
    memory.vram_mut().write_byte(5, 0x4D).unwrap();
    assert_eq!(memory.read_word(0xC0_0004), Ok(0x3C4D));

    assert_eq!(memory.write_byte(0xA0_0100, 0x5E), Ok(()));
    assert_eq!(memory.sound_ram().read_byte(0x100), Ok(0x5E));
    memory.sound_ram_mut().write_byte(0x101, 0x6F).unwrap();
    assert_eq!(memory.read_word(0xA0_0100), Ok(0x5E6F));

    assert_eq!(memory.write_byte(0xA1_0000, 9), Ok(()));
    assert_eq!(memory.write_byte(0xA1_0001, 9), Ok(()));
    assert_eq!(memory.write_byte(0xA1_0002, 9), Ok(()));
    assert_eq!(memory.write_byte(0xA1_0011, 1), Ok(()));
    assert_eq!(memory.write_byte(0xA1_0100, 9), Ok(()));
    assert_eq!(memory.read_byte(0xA1_0000), Ok(0));
    assert_eq!(memory.read_byte(0xA1_0001), Ok(0));
    assert_eq!(memory.read_byte(0xA1_0002), Ok(9));
    assert_eq!(memory.read_byte(0xA1_0011), Ok(1));
    assert_eq!(memory.read_byte(0xA1_0100), Ok(0));

    memory.reset();
    assert_eq!(memory.read_byte(0xFF_0010), Ok(0));
    assert_eq!(memory.read_byte(0xA1_0002), Ok(0));
    assert_eq!(memory.read_byte(0xC0_0004), Ok(0));
    assert_eq!(memory.read_byte(0xA0_0100), Ok(0));
}

#[test]
fn memory_with_a_cartridge() {
    let mut memory = Box::new(MemorySystem::new());
    assert!(memory.get_cartridge_info().is_none());
    assert_eq!(
        memory.load_cartridge(vec![0; 16]),
        Err(MemoryError::Rom(RomError::TooSmall(16)))
    );
    assert!(memory.get_cartridge_info().is_none());
    let mut rom = image_with_save_ram(0x400);
    rom[0x300] = 0x77;
    assert_eq!(memory.load_cartridge(rom), Ok(()));
    assert_eq!(memory.get_cartridge_info().map(|h| h.title.as_str()), Some("SEGA GENESIS"));
    assert_eq!(memory.read_byte(0x00_0300), Ok(0x77));
    assert_eq!(memory.read_byte(0x01_0300), Ok(0x77));
    assert_eq!(memory.read_word(0x00_0100), Ok(0x5345));
    assert_eq!(memory.read_long(0x00_0100), Ok(0x5345_4741));

    assert_eq!(memory.read_byte(0x20_0005), Ok(0xFF));
    assert_eq!(memory.write_byte(0x20_0005, 0x21), Ok(()));
    assert_eq!(memory.read_byte(0x20_0005), Ok(0x21));
    assert_eq!(memory.write_byte(0x20_0400, 0x21), Ok(()));
    assert_eq!(memory.read_byte(0x20_0400), Ok(0xFF));
    assert_eq!(memory.write_byte(0x00_0300, 0x00), Ok(()));
    assert_eq!(memory.read_byte(0x00_0300), Ok(0x77));
    memory.reset();
    assert_eq!(memory.read_byte(0x20_0005), Ok(0x21));
    assert_eq!(memory.read_byte(0x00_0300), Ok(0x77));
}

#[test]
fn boot_image_has_one_of_two_lengths() {
    let mut memory = Box::new(MemorySystem::new());
    assert_eq!(memory.load_bios(vec![0; 100]), Err(MemoryError::InvalidBiosSize(100)));
    assert_eq!(memory.load_bios(Vec::new()), Err(MemoryError::InvalidBiosSize(0)));
    assert_eq!(memory.load_bios(vec![1; 0x2000]), Ok(()));
    assert_eq!(memory.load_bios(vec![2; 0x4000]), Ok(()));
    assert_eq!(memory.read_byte(0), Ok(0xFF));
}
