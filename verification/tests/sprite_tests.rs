use megastrife::vdp::cram::Cram;
use megastrife::vdp::framebuffer::FrameBuffer;
use megastrife::vdp::sprite::{Sprite, SpriteSize, SpriteTable};
use megastrife::vdp::vram::Vram;

fn create_test_vram() -> Vram {
    let mut vram = Vram::new();

    let mut tile = [0u8; 32];
    for i in 0..32 {
        tile[i] = if i % 2 == 0 { 0xF0 } else { 0x0F };
    }
    vram.write_tile_4bpp(0, &tile);

    vram
}

#[test]
fn test_sprite_size() {
    let size = SpriteSize::Size2x2;
    assert_eq!(size.dimensions(), (2, 2));
    assert_eq!(size.pixel_dimensions(), (16, 16));

    let (w_code, h_code) = size.to_hardware_code();
    assert_eq!(w_code, 1);
    assert_eq!(h_code, 1);

    let decoded = SpriteSize::from_hardware_code(1, 1).unwrap();
    assert_eq!(decoded, SpriteSize::Size2x2);
}

#[test]
fn test_sprite_creation() {
    let sprite = Sprite::with_params(64, 32, SpriteSize::Size2x2, 100, 1, true, false, true, false);

    assert_eq!(sprite.x, 64);
    assert_eq!(sprite.y, 32);
    assert_eq!(sprite.tile_index, 100);
    assert_eq!(sprite.palette, 1);
    assert_eq!(sprite.priority, true);
    assert_eq!(sprite.flip_horizontal, false);
    assert_eq!(sprite.flip_vertical, true);
    assert_eq!(sprite.valid, true);
    assert_eq!(sprite.width_pixels(), 16);
    assert_eq!(sprite.height_pixels(), 16);
}

#[test]
fn test_sprite_encoding_decoding() {
    let original =
        Sprite::with_params(64, 32, SpriteSize::Size2x2, 100, 1, true, false, true, false);

    let bytes = original.to_bytes();
    let decoded = Sprite::from_bytes(&bytes, false);

    assert_eq!(decoded.x, original.x);
    assert_eq!(decoded.y, original.y);
    assert_eq!(decoded.tile_index, original.tile_index);
    assert_eq!(decoded.palette, original.palette);
    assert_eq!(decoded.priority, original.priority);
    assert_eq!(decoded.flip_horizontal, original.flip_horizontal);
    assert_eq!(decoded.flip_vertical, original.flip_vertical);
    assert_eq!(decoded.size, original.size);
}

#[test]
fn test_sprite_visibility() {
    let sprite = Sprite::with_params(10, 20, SpriteSize::Size1x1, 0, 0, false, false, false, false);

    assert!(sprite.is_on_line(20));
    assert!(sprite.is_on_line(25));
    assert!(!sprite.is_on_line(15));
    assert!(!sprite.is_on_line(30));

    let offscreen_sprite =
        Sprite::with_params(-100, -100, SpriteSize::Size1x1, 0, 0, false, false, false, false);

    assert!(offscreen_sprite.is_offscreen(320, 224));
}

#[test]
fn test_sprite_table() {
    let mut sprite_table = SpriteTable::new(0xF800, false);

    let sprite1 = Sprite::with_params(10, 20, SpriteSize::Size1x1, 0, 0, false, false, false, false);

    let sprite2 = Sprite::with_params(50, 30, SpriteSize::Size2x2, 10, 1, true, false, false, false);

    assert!(sprite_table.add_sprite(sprite1));
    assert!(sprite_table.add_sprite(sprite2));
    assert_eq!(sprite_table.sprite_count, 2);

    assert!(sprite_table.remove_sprite(0));
    assert_eq!(sprite_table.sprite_count, 1);

    let sprite3 =
        Sprite::with_params(100, 100, SpriteSize::Size1x2, 20, 2, false, true, true, false);

    assert!(sprite_table.update_sprite(0, sprite3));
}

#[test]
fn test_sprite_overflow() {
    let mut sprite_table = SpriteTable::new(0xF800, false);

    for _ in 0..25 {
        let sprite =
            Sprite::with_params(0, 50, SpriteSize::Size1x1, 0, 0, false, false, false, false);
        sprite_table.add_sprite(sprite);
    }

    sprite_table.calculate_active_sprites(224);

    assert_eq!(sprite_table.overflow_line, Some(50));

    assert_eq!(sprite_table.active_sprites_per_line[50], 20);
}

#[test]
fn test_sprite_collision() {
    let mut sprite_table = SpriteTable::new(0xF800, false);

    let sprite1 = Sprite::with_params(10, 10, SpriteSize::Size2x2, 0, 0, false, false, false, false);

    let sprite2 = Sprite::with_params(15, 15, SpriteSize::Size2x2, 0, 0, false, false, false, false);

    sprite_table.add_sprite(sprite1);
    sprite_table.add_sprite(sprite2);

    let collision = sprite_table.detect_collisions(320, 224);
    assert!(collision);
    assert!(sprite_table.collision_detected);

    let mut sprite_table2 = SpriteTable::new(0xF800, false);

    let sprite3 = Sprite::with_params(10, 10, SpriteSize::Size1x1, 0, 0, false, false, false, false);

    let sprite4 =
        Sprite::with_params(100, 100, SpriteSize::Size1x1, 0, 0, false, false, false, false);

    sprite_table2.add_sprite(sprite3);
    sprite_table2.add_sprite(sprite4);

    let collision = sprite_table2.detect_collisions(320, 224);
    assert!(!collision);
    assert!(!sprite_table2.collision_detected);
}

#[test]
fn test_sprite_rendering() {
    let vram = create_test_vram();
    let cram = Cram::new();

    let mut sprite_table = SpriteTable::new(0xF800, false);

    let sprite = Sprite::with_params(10, 10, SpriteSize::Size1x1, 0, 0, false, false, false, false);

    sprite_table.add_sprite(sprite);

    let mut framebuffer = FrameBuffer::new(64, 64);

    sprite_table.render_all(&mut framebuffer, &vram, &cram);

    let has_pixels = framebuffer.pixels().iter().any(|&c| c != 0);
    assert!(has_pixels);

    let pixel = framebuffer.get_pixel(10, 10);
    assert!(pixel.is_some() && pixel.unwrap() != 0);
}

#[test]
fn sprite_round_trip_at_the_boundaries() {
    let sizes = [SpriteSize::Size1x1, SpriteSize::Size4x4, SpriteSize::Size3x2, SpriteSize::Size1x4];
    for (n, &(x, y)) in [(0i16, -128i16), (0, 127), (-128, 0), (127, -129), (-384, -384)]
        .iter()
        .enumerate()
    {
        for bits in 0..8u8 {
            let mut sprite = Sprite::with_params(
                x,
                y,
                sizes[n % 4],
                0x7FF - n as u16,
                (bits % 4) as u8,
                bits & 1 != 0,
                bits & 2 != 0,
                bits & 4 != 0,
                false,
            );
            sprite.link = 79 - n as u8;
            let decoded = Sprite::from_bytes(&sprite.to_bytes(), false);
            assert_eq!(decoded.x, sprite.x);
            assert_eq!(decoded.y, sprite.y);
            assert_eq!(decoded.size, sprite.size);
            assert_eq!(decoded.link, sprite.link);
            assert_eq!(decoded.tile_index, sprite.tile_index);
            assert_eq!(decoded.palette, sprite.palette);
            assert_eq!(decoded.priority, sprite.priority);
            assert_eq!(decoded.flip_horizontal, sprite.flip_horizontal);
            assert_eq!(decoded.flip_vertical, sprite.flip_vertical);
        }
    }
}

#[test]
fn sprite_entry_layout() {
    let mut sprite =
        Sprite::with_params(1, -1, SpriteSize::Size3x2, 0x123, 2, true, true, false, false);
    sprite.link = 5;
    assert_eq!(sprite.to_bytes(), [0x7F, 0x00, 0x05, 0x09, 0x81, 0x00, 0x23, 0xC9]);
    let below = Sprite::with_params(0, -129, SpriteSize::Size1x1, 0, 0, false, false, false, false);
    assert_eq!(below.to_bytes()[0..2], [0xFF, 0xFF]);

    let decoded = Sprite::from_bytes(&[0x80, 0x00, 0x00, 0x0F, 0x90, 0x00, 0x00, 0x00], true);
    assert_eq!((decoded.x, decoded.y), (16, 0));
    assert_eq!(decoded.size, SpriteSize::Size4x4);
    assert!(decoded.valid);
    assert!(decoded.visible);
    assert!(decoded.high_color_mode);
    let hidden = Sprite::from_bytes(&[0x00, 0x01, 0x00, 0x00, 0, 0, 0, 0], false);
    assert_eq!(hidden.y, -384);
    assert!(!hidden.valid);
    let linked = Sprite::from_bytes(&[0x00, 0x01, 0x03, 0x00, 0, 0, 0, 0], false);
    assert!(linked.valid);
    assert_eq!(linked.link, 3);
    let empty = Sprite::new();
    assert!(!empty.valid && !empty.visible);
    assert!(!empty.is_on_line(0));
}

#[test]
fn sprite_sizes_and_codes() {
    assert_eq!(SpriteSize::from_hardware_code(4, 0), None);
    assert_eq!(SpriteSize::from_hardware_code(0, 4), None);
    assert_eq!(SpriteSize::from_hardware_code(3, 0), Some(SpriteSize::Size4x1));
    assert_eq!(SpriteSize::from_hardware_code(0, 3), Some(SpriteSize::Size1x4));
    assert_eq!(SpriteSize::Size3x4.dimensions(), (3, 4));
    assert_eq!(SpriteSize::Size3x4.pixel_dimensions(), (24, 32));
    assert_eq!(SpriteSize::Size3x4.to_hardware_code(), (2, 3));
    for w in 0..4 {
        for h in 0..4 {
            let size = SpriteSize::from_hardware_code(w, h).unwrap();
            assert_eq!(size.to_hardware_code(), (w, h));
            assert_eq!(size.dimensions(), (w + 1, h + 1));
        }
    }
}

#[test]
fn sprite_geometry_edges() {
    let sprite =
        Sprite::with_params(-8, i16::MAX, SpriteSize::Size1x1, 0, 0, false, false, false, false);
    assert!(sprite.is_on_line(i16::MAX));
    assert!(sprite.is_offscreen(320, 224));
    let touching = Sprite::with_params(-7, 223, SpriteSize::Size1x1, 0, 0, false, false, false, false);
    assert!(!touching.is_offscreen(320, 224));
    assert!(touching.is_offscreen(320, 223));
    let left = Sprite::with_params(-8, 0, SpriteSize::Size1x1, 0, 0, false, false, false, false);
    assert!(left.is_offscreen(320, 224));
    let right = Sprite::with_params(320, 0, SpriteSize::Size1x1, 0, 0, false, false, false, false);
    assert!(right.is_offscreen(320, 224));
    assert!(!right.is_offscreen(321, 224));
}

#[test]
fn sprite_pixels_tiles_and_flips() {
    let mut vram = Vram::new();
    vram.write8(32 * 5, 0x12);
    vram.write8(32 * 6 + 4 * 7 + 3, 0x34);
    vram.write8(32 * 7, 0x56);
    let sprite = Sprite::with_params(0, 0, SpriteSize::Size2x2, 5, 3, false, false, false, false);
    assert_eq!(sprite.get_pixel_color(&vram, 0, 0), Some((1, 3)));
    assert_eq!(sprite.get_pixel_color(&vram, 1, 0), Some((2, 3)));
    assert_eq!(sprite.get_pixel_color(&vram, 15, 7), Some((4, 3)));
    assert_eq!(sprite.get_pixel_color(&vram, 0, 8), Some((5, 3)));
    assert_eq!(sprite.get_pixel_color(&vram, 16, 0), None);
    assert_eq!(sprite.get_pixel_color(&vram, 0, 16), None);
    let flipped = Sprite::with_params(0, 0, SpriteSize::Size2x2, 5, 3, false, true, true, false);
    assert_eq!(flipped.get_pixel_color(&vram, 7, 7), Some((1, 3)));
    assert_eq!(flipped.get_pixel_color(&vram, 8, 0), Some((4, 3)));
    assert_eq!(flipped.get_pixel_color(&vram, 9, 0), Some((3, 3)));
    let wide = Sprite::with_params(0, 0, SpriteSize::Size1x1, 1, 0, false, false, false, true);
    vram.write8(64 + 8 * 2 + 5, 0xEE);
    assert_eq!(wide.get_pixel_color(&vram, 5, 2), Some((0xEE, 0)));
}

#[test]
fn sprite_render_clips_and_tags() {
    let mut vram = Vram::new();
    vram.write_tile_4bpp(1, &[0x11; 32]);
    let mut cram = Cram::new();
    cram.write(17, 0x000E);
    let low = Sprite::with_params(-4, 2, SpriteSize::Size1x1, 1, 1, false, false, false, false);
    let mut fb = FrameBuffer::new(8, 8);
    low.render(&mut fb, &vram, &cram, None);
    assert_eq!(fb.get_pixel(0, 2), Some(0xFFFC0000));
    assert_eq!(fb.get_pixel(3, 7), Some(0xFFFC0000));
    assert_eq!(fb.get_pixel(4, 2), Some(0xFF000000));
    assert_eq!(fb.get_pixel(0, 1), Some(0xFF000000));
    assert_eq!(fb.get_tag(0, 2), Some(4));
    assert_eq!(fb.get_tag(4, 2), Some(0));

    let mut row = FrameBuffer::new(8, 8);
    low.render(&mut row, &vram, &cram, Some(3));
    assert_eq!(row.get_pixel(0, 3), Some(0xFFFC0000));
    assert_eq!(row.get_pixel(0, 2), Some(0xFF000000));
    assert_eq!(row.get_pixel(0, 4), Some(0xFF000000));
    low.render(&mut row, &vram, &cram, Some(1));
    low.render(&mut row, &vram, &cram, Some(60000));
    assert_eq!(row.get_pixel(0, 1), Some(0xFF000000));

    let high = Sprite::with_params(0, 0, SpriteSize::Size1x1, 1, 1, true, false, false, false);
    let mut both = FrameBuffer::new(8, 8);
    high.render(&mut both, &vram, &cram, None);
    cram.write(17, 0x00E0);
    let low_over = Sprite::with_params(0, 0, SpriteSize::Size1x1, 1, 1, false, false, false, false);
    low_over.render(&mut both, &vram, &cram, None);
    assert_eq!(both.get_pixel(0, 0), Some(0xFFFC0000));
    assert_eq!(both.get_tag(0, 0), Some(8));
}

#[test]
fn sprite_table_line_limit_when_rendering() {
    let mut vram = Vram::new();
    vram.write_tile_4bpp(1, &[0x11; 32]);
    let mut cram = Cram::new();
    cram.write(1, 0x0E00);
    let mut table = SpriteTable::new(0, false);
    for i in 0..25 {
        table.add_sprite(Sprite::with_params(
            i * 8,
            0,
            SpriteSize::Size1x1,
            1,
            0,
            i % 2 == 1,
            false,
            false,
            false,
        ));
    }
    let mut fb = FrameBuffer::new(200, 8);
    table.render_all(&mut fb, &vram, &cram);
    assert_eq!(fb.get_pixel(19 * 8, 0), Some(0xFF0000FC));
    assert_eq!(fb.get_pixel(19 * 8 + 7, 7), Some(0xFF0000FC));
    assert_eq!(fb.get_pixel(20 * 8, 0), Some(0xFF000000));
    assert_eq!(fb.get_pixel(24 * 8, 3), Some(0xFF000000));
    assert_eq!(fb.get_tag(0, 0), Some(4));
    assert_eq!(fb.get_tag(8, 0), Some(8));

    let mut line = FrameBuffer::new(200, 8);
    table.render_line(2, &mut line, &vram, &cram, true);
    assert_eq!(line.get_pixel(0, 2), Some(0xFF000000));
    assert_eq!(line.get_pixel(8, 2), Some(0xFF0000FC));
    assert_eq!(line.get_pixel(8, 1), Some(0xFF000000));
    assert_eq!(line.get_pixel(21 * 8, 2), Some(0xFF000000));
    table.render_line(3, &mut line, &vram, &cram, false);
    assert_eq!(line.get_pixel(0, 3), Some(0xFF0000FC));
}

#[test]
fn sprite_table_counts_lines() {
    let mut table = SpriteTable::new(0xF800, false);
    for i in 0..10 {
        table.add_sprite(Sprite::with_params(
            0,
            i * 10,
            SpriteSize::Size1x2,
            0,
            0,
            false,
            false,
            false,
            false,
        ));
    }
    table.calculate_active_sprites(224);
    assert_eq!(table.overflow_line, None);
    assert_eq!(table.active_sprites_per_line[0], 1);
    assert_eq!(table.active_sprites_per_line[12], 2);
    assert_eq!(table.active_sprites_per_line[100], 1);
    assert_eq!(table.active_sprites_per_line[106], 0);
    table.calculate_active_sprites(12);
    assert_eq!(table.active_sprites_per_line[11], 2);
    assert_eq!(table.active_sprites_per_line[12], 0);

    let mut crowded = SpriteTable::new(0xF800, false);
    for i in 0..30 {
        crowded.add_sprite(Sprite::with_params(
            0,
            if i < 21 { 500 } else { 3 },
            SpriteSize::Size1x1,
            0,
            0,
            false,
            false,
            false,
            false,
        ));
    }
    crowded.calculate_active_sprites(u16::MAX);
    assert_eq!(crowded.overflow_line, Some(500));
    assert_eq!(crowded.active_sprites_per_line[500], 20);
    assert_eq!(crowded.active_sprites_per_line[3], 9);
    crowded.calculate_active_sprites(400);
    assert_eq!(crowded.overflow_line, None);
}

#[test]
fn sprite_table_holds_eighty() {
    let mut table = SpriteTable::new(0, false);
    for _ in 0..80 {
        assert!(table.add_sprite(Sprite::new()));
    }
    assert!(!table.add_sprite(Sprite::new()));
    assert_eq!(table.sprites.len(), 80);
    assert!(!table.remove_sprite(80));
    assert!(!table.update_sprite(80, Sprite::new()));
    assert!(!table.detect_collisions(320, 224));
    table.clear();
    assert_eq!(table.sprite_count, 0);
    assert!(table.sprites.is_empty());
}

#[test]
fn sprite_table_follows_links() {
    let mut vram = Vram::new();
    let base = 0xF800u32;
    let chain = [(0usize, 3u8), (3, 7), (7, 0), (1, 9)];
    for &(index, link) in chain.iter() {
        let mut sprite = Sprite::with_params(
            index as i16,
            0,
            SpriteSize::Size1x1,
            index as u16,
            0,
            false,
            false,
            false,
            false,
        );
        sprite.link = link;
        let bytes = sprite.to_bytes();
        for (k, b) in bytes.iter().enumerate() {
            vram.write8(base + index as u32 * 8 + k as u32, *b);
        }
    }
    let mut table = SpriteTable::new(base, false);
    table.load_from_vram(&vram);
    let tiles: Vec<u16> = table.sprites.iter().map(|s| s.tile_index).collect();
    assert_eq!(tiles, vec![0, 3, 7]);
    assert_eq!(table.sprite_count, 3);

    let mut looped = Vram::new();
    let mut sprite = Sprite::with_params(0, 0, SpriteSize::Size1x1, 1, 0, false, false, false, false);
    sprite.link = 1;
    let bytes = sprite.to_bytes();
    for (k, b) in bytes.iter().enumerate() {
        looped.write8(8 + k as u32, *b);
        looped.write8(k as u32, *b);
    }
    let mut table = SpriteTable::new(0, false);
    table.load_from_vram(&looped);
    assert_eq!(table.sprites.len(), 80);

    let mut beyond = Vram::new();
    sprite.link = 80;
    for (k, b) in sprite.to_bytes().iter().enumerate() {
        beyond.write8(k as u32, *b);
    }
    let mut table = SpriteTable::new(0, false);
    table.load_from_vram(&beyond);
    assert_eq!(table.sprites.len(), 1);
}

#[test]
fn sprite_table_saves_entries_in_order() {
    let mut table = SpriteTable::new(0x100, false);
    let mut first = Sprite::with_params(1, 2, SpriteSize::Size2x1, 9, 1, false, false, false, false);
    first.link = 1;
    let second = Sprite::with_params(3, 4, SpriteSize::Size1x3, 8, 2, true, false, false, false);
    table.add_sprite(first);
    table.add_sprite(second);
    let mut vram = Vram::new();
    table.save_to_vram(&mut vram);
    assert_eq!(vram.copy_to(0x100, 8), first.to_bytes().to_vec());
    assert_eq!(vram.copy_to(0x108, 8), second.to_bytes().to_vec());
    let mut loaded = SpriteTable::new(0x100, false);
    loaded.load_from_vram(&vram);
    assert_eq!(loaded.sprites, vec![first, second]);
}

#[test]
fn sprite_table_report() {
    let mut table = SpriteTable::new(0xF800, false);
    for i in 0..7 {
        let mut sprite = Sprite::with_params(
            -3 + i,
            i * 2,
            SpriteSize::Size2x3,
            40 + i as u16,
            0,
            false,
            false,
            false,
            false,
        );
        sprite.link = i as u8;
        table.add_sprite(sprite);
    }
    table.overflow_line = Some(17);
    table.collision_detected = true;
    let text = table.debug_info();
    let expected = "Sprite Table (7 sprites):\n  Base Address: 0xF800\n  High Color Mode: false\n  Overflow at line: 17\n  Collision detected\n  Sprite 0: (-3, 0) 16x24, tile: 40, link: 0\n  Sprite 1: (-2, 2) 16x24, tile: 41, link: 1\n  Sprite 2: (-1, 4) 16x24, tile: 42, link: 2\n  Sprite 3: (0, 6) 16x24, tile: 43, link: 3\n  Sprite 4: (1, 8) 16x24, tile: 44, link: 4\n  ... and 2 more sprites\n";
    assert_eq!(text, expected);
}

#[test]
fn test_sprite_table_calculation() {
    let mut sprite_table = SpriteTable::new(0xF800, false);

    for i in 0..10 {
        let sprite = Sprite::with_params(
            i as i16 * 20,
            i as i16 * 10,
            SpriteSize::Size1x1,
            i as u16,
            0,
            false,
            false,
            false,
            false,
        );
        sprite_table.add_sprite(sprite);
    }

    sprite_table.calculate_active_sprites(224);

    assert!(sprite_table.active_sprites_per_line[0] > 0);
    assert_eq!(sprite_table.active_sprites_per_line[100], 0);
    assert_eq!(sprite_table.active_sprites_per_line[90], 1);
    assert_eq!(sprite_table.active_sprites_per_line[97], 1);
    assert_eq!(sprite_table.active_sprites_per_line[98], 0);
}

#[test]
fn sprite_table_walk_ends_after_eighty_sprites() {
    let mut vram = Vram::new();
    vram.write8(0xF802, 1);
    vram.write8(0xF80A, 1);
    let mut table = SpriteTable::new(0xF800, false);
    table.load_from_vram(&vram);
    assert_eq!(table.sprites.len(), 80);
    assert_eq!(table.sprite_count, 80);
    assert_eq!(table.sprites[0].link, 1);
    assert_eq!(table.sprites[79].link, 1);

    let mut vram = Vram::new();
    vram.write8(0xF803, 1);
    vram.write8(0xF80B, 1);
    let mut table = SpriteTable::new(0xF800, false);
    table.load_from_vram(&vram);
    assert_eq!(table.sprite_count, 1);
    assert_eq!(table.sprites[0].link, 0);
    assert_eq!(table.sprites[0].size, SpriteSize::Size1x2);
}
