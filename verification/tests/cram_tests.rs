use megastrife::vdp::cram::{color_to_argb, Cram};

#[test]
fn test_cram_write_read() {
    let mut cram = Cram::new();

    cram.write(0, 0x0ABC);
    assert_eq!(cram.read(0), 0x0ABC & 0x0EEE);

    cram.write_word(0x02, 0x0123);
    assert_eq!(cram.read(1), 0x0123 & 0x0EEE);

    cram.write(100, 0x0FFF);
    assert_eq!(cram.read(100), cram.read(100 % 64));
}

#[test]
fn cram_index_wraps_modulo_64() {
    let mut by_70 = Cram::new();
    let mut by_6 = Cram::new();
    by_70.write(70, 0x0246);
    by_6.write(6, 0x0246);
    assert_eq!(by_70.data, by_6.data);
    assert_eq!(by_70.read(6), 0x0246);
    assert_eq!(by_70.read(70), 0x0246);
    assert_eq!(by_70.read(134), 0x0246);
}

#[test]
fn cram_word_address_wraps() {
    let mut cram = Cram::new();
    cram.write_word(140, 0x0EEE);
    assert_eq!(cram.read(6), 0x0EEE);
    assert_eq!(cram.read_word(12), 0x0EEE);
    assert_eq!(cram.read_word(12 + 128), 0x0EEE);
}

#[test]
fn cram_keeps_only_colour_bits() {
    let mut cram = Cram::new();
    cram.write(3, 0xFFFF);
    assert_eq!(cram.data[3], 0x0EEE);
    cram.write(4, 0xF111);
    assert_eq!(cram.data[4], 0x0000);
}

#[test]
fn cram_channels_times_36() {
    let mut cram = Cram::new();
    cram.write(0, 0x0EEE);
    assert_eq!(cram.to_rgb(0), (252, 252, 252));
    cram.write(1, 0x000E);
    assert_eq!(cram.to_rgb(1), (252, 0, 0));
    cram.write(2, 0x00E0);
    assert_eq!(cram.to_rgb(2), (0, 252, 0));
    cram.write(3, 0x0E00);
    assert_eq!(cram.to_rgb(3), (0, 0, 252));
    cram.write(4, 0x0248);
    assert_eq!(cram.to_rgb(4), (4 * 36, 2 * 36, 1 * 36));
    assert_eq!(cram.to_rgb(68), (4 * 36, 2 * 36, 1 * 36));
}

#[test]
fn cram_argb_pixel() {
    let mut cram = Cram::new();
    cram.write(1, 0x000E);
    assert_eq!(cram.to_rgb888(1), 0xFFFC0000);
    cram.write(2, 0x0EEE);
    assert_eq!(cram.to_rgb888(2), 0xFFFCFCFC);
    assert_eq!(cram.to_rgb888(0), 0xFF000000);
    assert_eq!(color_to_argb(0x0248), 0xFF000000 | (144 << 16) | (72 << 8) | 36);
}

#[test]
fn cram_dump_and_default() {
    let mut cram = Cram::default();
    cram.write(63, 0x0222);
    let dump = cram.dump();
    assert_eq!(dump.len(), 64);
    assert_eq!(dump[63], 0x0222);
    assert_eq!(dump[0], 0);
}

#[test]
fn test_cram_to_rgb() {
    let mut cram = Cram::new();

    cram.write(0, 0x0EEE);
    let (r, g, b) = cram.to_rgb(0);
    assert_eq!(r, 36 * 7);
    assert_eq!(g, 36 * 7);
    assert_eq!(b, 36 * 7);

    cram.write(1, 0x000E);
    let (r, g, b) = cram.to_rgb(1);
    assert_eq!(r, 36 * 7);
    assert_eq!(g, 0);
    assert_eq!(b, 0);

    cram.write(2, 0x0444);
    let (r, g, b) = cram.to_rgb(2);
    assert_eq!(r, 36 * 2);
    assert_eq!(g, 36 * 2);
    assert_eq!(b, 36 * 2);
}

#[test]
fn test_cram_to_rgb888() {
    let mut cram = Cram::new();

    cram.write(0, 0x000E);
    let rgb = cram.to_rgb888(0);
    assert_eq!(rgb, 0xFFFC0000);

    cram.write(1, 0x0EEE);
    let rgb = cram.to_rgb888(1);
    assert_eq!(rgb, 0xFFFCFCFC);
}
