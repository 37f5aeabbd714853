use megastrife::vdp::vram::{decode_coord, Vram};

#[test]
fn test_vram_basic_rw() {
    let mut vram = Vram::new();

    vram.write8(0x100, 0xAB);
    assert_eq!(vram.read8(0x100), 0xAB);

    vram.write16(0x200, 0xABCD);
    assert_eq!(vram.read16(0x200), 0xABCD);

    vram.write16_be(0x300, 0x1234);
    assert_eq!(vram.read16_be(0x300), 0x1234);
}

#[test]
fn test_vram_tile_4bpp() {
    let mut vram = Vram::new();

    let tile = [
        0x11, 0x22, 0x33, 0x44, 0x11, 0x22, 0x33, 0x44, 0x11, 0x22, 0x33, 0x44, 0x11, 0x22, 0x33,
        0x44, 0x11, 0x22, 0x33, 0x44, 0x11, 0x22, 0x33, 0x44, 0x11, 0x22, 0x33, 0x44, 0x11, 0x22,
        0x33, 0x44,
    ];

    vram.write_tile_4bpp(10, &tile);
    let read_tile = vram.read_tile_4bpp(10);
    assert_eq!(read_tile, tile);

    let pixel = vram.read_tile_pixel_4bpp(10, 0, 0);
    assert_eq!(pixel, 0x01);
    let pixel = vram.read_tile_pixel_4bpp(10, 1, 0);
    assert_eq!(pixel, 0x01);
}

#[test]
fn test_vram_name_table() {
    let mut vram = Vram::new();

    let base_addr = 0x4000;
    let entry_value = 0x8123;

    vram.write_name_table_entry(base_addr, 2, 3, 40, entry_value);

    let read_value = vram.read_name_table_entry(base_addr, 2, 3, 40);
    assert_eq!(read_value, entry_value);

    let (tile_index, priority, hflip, palette, vflip) = Vram::decode_name_table_entry(entry_value);
    assert_eq!(tile_index, 0x123);
    assert_eq!(priority, true);
    assert_eq!(palette, 0);
    assert_eq!(hflip, false);
    assert_eq!(vflip, false);
}

#[test]
fn test_vram_operations() {
    let mut vram = Vram::new();

    vram.fill(0xAA);
    assert_eq!(vram.read8(0), 0xAA);
    assert_eq!(vram.read8(1000), 0xAA);

    vram.clear();
    assert_eq!(vram.read8(0), 0);

    let data = vec![1, 2, 3, 4, 5];
    vram.copy_from(0x500, &data);
    assert_eq!(vram.copy_to(0x500, 5), data);

    vram.copy_from(0xFFFC, &[0xDE, 0xAD, 0xBE, 0xEF, 0x12, 0x34]);
    let result = vram.copy_to(0xFFFC, 6);
    assert_eq!(result[..4], [0xDE, 0xAD, 0xBE, 0xEF]);
}

#[test]
fn test_vram_size_operations() {
    let vram = Vram::with_size(128 * 1024);
    assert_eq!(vram.size(), 128 * 1024);
    assert!(vram.is_valid_address(0x1FFFF));
    assert!(!vram.is_valid_address(0x20000));
}

#[test]
fn test_vram_edge_cases() {
    let mut vram = Vram::with_size(256);

    vram.write8(255, 0xFF);
    assert_eq!(vram.read8(255), 0xFF);

    assert_eq!(vram.read8(256), 0);

    vram.write_tile_4bpp(7, &[0xAA; 32]);
    let tile = vram.read_tile_4bpp(7);
    assert_eq!(tile[0], 0xAA);

    let attrs = [0x1111, 0x2222, 0x3333, 0x4444];
    vram.write_sprite_attributes(200, 0, &attrs);
    let read_attrs = vram.read_sprite_attributes(200, 0);
    assert_eq!(read_attrs[0], 0x1111);
}

#[test]
fn vram_words_are_little_endian() {
    let mut vram = Vram::new();
    vram.write16(0x10, 0xABCD);
    assert_eq!(vram.read8(0x10), 0xCD);
    assert_eq!(vram.read8(0x11), 0xAB);
    vram.write16_be(0x20, 0xABCD);
    assert_eq!(vram.read8(0x20), 0xAB);
    assert_eq!(vram.read8(0x21), 0xCD);
    vram.write32(0x30, 0x11223344);
    assert_eq!(vram.read16(0x30), 0x3344);
    assert_eq!(vram.read16(0x32), 0x1122);
    assert_eq!(vram.read32(0x30), 0x11223344);
}

#[test]
fn vram_access_past_the_end_is_harmless() {
    let mut vram = Vram::with_size(16);
    vram.write8(16, 0x55);
    vram.write16(15, 0xBBAA);
    assert_eq!(vram.read8(15), 0xAA);
    assert_eq!(vram.read16(15), 0x00AA);
    assert_eq!(vram.read16(u32::MAX), 0);
    assert_eq!(vram.read32(u32::MAX), 0);
    vram.write32(u32::MAX, 0xFFFFFFFF);
    assert_eq!(vram.dump().len(), 16);
    assert_eq!(vram.read_tile_4bpp(usize::MAX), [0u8; 32]);
    assert_eq!(vram.read_tile_pixel_4bpp(usize::MAX, 9, usize::MAX), 0);
    assert_eq!(vram.read_name_table_entry(usize::MAX, usize::MAX, 3, usize::MAX), 0);
}

#[test]
fn vram_partial_tile_at_the_end() {
    let mut vram = Vram::with_size(40);
    vram.write_tile_4bpp(1, &[0x77; 32]);
    assert_eq!(vram.read8(31), 0);
    assert_eq!(vram.read8(32), 0x77);
    assert_eq!(vram.read8(39), 0x77);
    let tile = vram.read_tile_4bpp(1);
    assert_eq!(tile[7], 0x77);
    assert_eq!(tile[8], 0);
    let mut big = Vram::with_size(200);
    big.write_tile_8bpp(2, &[0x12; 64]);
    assert_eq!(big.read_tile_8bpp(2)[63], 0x12);
    assert_eq!(big.read8(127), 0);
    assert_eq!(big.read8(128), 0x12);
    assert_eq!(big.read8(191), 0x12);
    assert_eq!(big.read8(192), 0);
    assert_eq!(big.read_tile_pixel_8bpp(2, 3, 1), 0x12);
}

#[test]
fn vram_tile_pixel_nibbles() {
    let mut vram = Vram::new();
    vram.write8(32 * 3 + 4 * 2 + 1, 0xA5);
    assert_eq!(vram.read_tile_pixel_4bpp(3, 2, 2), 0xA);
    assert_eq!(vram.read_tile_pixel_4bpp(3, 3, 2), 0x5);
}

#[test]
fn vram_name_table_entry_needs_both_bytes() {
    let mut vram = Vram::with_size(9);
    vram.write_name_table_entry(0, 0, 4, 8, 0xBEEF);
    assert_eq!(vram.read_name_table_entry(0, 0, 4, 8), 0);
    assert_eq!(vram.read8(8), 0);
    vram.write_name_table_entry(0, 0, 3, 8, 0xBEEF);
    assert_eq!(vram.read_name_table_entry(0, 0, 3, 8), 0xBEEF);
    assert_eq!(vram.read_hscroll(0, 3), 0xBEEF);
    assert_eq!(vram.read_vscroll(2, 2), 0xBEEF);
}

#[test]
fn vram_decodes_tilemap_and_sprite_words() {
    let (tile, priority, hflip, palette, vflip) = Vram::decode_name_table_entry(0xFFFF);
    assert_eq!((tile, priority, hflip, palette, vflip), (0x7FF, true, true, 3, true));
    let (tile, priority, hflip, palette, vflip) = Vram::decode_name_table_entry(0x0800);
    assert_eq!((tile, priority, hflip, palette, vflip), (0, false, true, 0, false));
    let (tile, priority, hflip, palette, vflip) = Vram::decode_name_table_entry(0x3000);
    assert_eq!((tile, priority, hflip, palette, vflip), (0, false, false, 1, true));

    let attrs = [0x0080, 0x0205, 0x01FF, 0xE567];
    let (y, x, tile_index, priority, link, palette, hflip, vflip) =
        Vram::decode_sprite_attributes(&attrs);
    assert_eq!(y, 0);
    assert_eq!(x, -129);
    assert_eq!(tile_index, 0x567);
    assert_eq!(priority, 1);
    assert_eq!(link, 5);
    assert_eq!(palette, 3);
    assert_eq!(hflip, false);
    assert_eq!(vflip, false);
    assert_eq!(decode_coord(0x0000), -128);
    assert_eq!(decode_coord(0x00FF), 127);
    assert_eq!(decode_coord(0x0100), -384);
    assert_eq!(decode_coord(0xFE00), -128);
}

#[test]
fn vram_slices() {
    let mut vram = Vram::with_size(8);
    vram.copy_from(0, &[1, 2, 3, 4, 5, 6, 7, 8]);
    assert_eq!(vram.slice(2, 5), &[3, 4, 5]);
    assert_eq!(vram.slice(6, 100), &[7, 8]);
    assert_eq!(vram.slice(5, 2).len(), 0);
    vram.slice_mut(1, 3)[0] = 0x99;
    assert_eq!(vram.read8(1), 0x99);
    assert_eq!(vram.dump(), vec![1, 0x99, 3, 4, 5, 6, 7, 8]);
    assert_eq!(Vram::default().size(), 65536);
}

#[test]
fn test_vram_sprite_attributes() {
    let mut vram = Vram::new();

    let sprite_attrs = [0x0080, 0x0302, 0xE567, 0x00A0];
    let base_addr = 0x8000;

    vram.write_sprite_attributes(base_addr, 5, &sprite_attrs);

    let read_attrs = vram.read_sprite_attributes(base_addr, 5);
    assert_eq!(read_attrs, sprite_attrs);

    let (y, x, tile_index, priority, link, palette, hflip, vflip) =
        Vram::decode_sprite_attributes(&read_attrs);
    assert_eq!(tile_index, 0x0A0);
    assert_eq!(priority, 0);
    assert_eq!(palette, 0);
    assert_eq!(hflip, false);
    assert_eq!(vflip, false);
    assert_eq!(link, 2);
    assert_eq!(y, 0);
    assert_eq!(x, -281);

    let (_, x, tile_index, priority, _, palette, hflip, vflip) =
        Vram::decode_sprite_attributes(&[0x0080, 0x0302, 0x00A0, 0xF967]);
    assert_eq!((tile_index, priority, palette, hflip, vflip), (0x167, 1, 3, true, true));
    assert_eq!(x, 0xA0 - 128);
}
