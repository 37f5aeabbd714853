use megastrife::vdp::framebuffer::FrameBuffer;

#[test]
fn test_framebuffer_creation() {
    let fb = FrameBuffer::new(320, 224);
    assert_eq!(fb.width, 320);
    assert_eq!(fb.height, 224);
    assert_eq!(fb.pixels.len(), 320 * 224);
    assert!(fb.is_dirty());

    let fb_std = FrameBuffer::new_standard();
    assert_eq!(fb_std.width, 320);
    assert_eq!(fb_std.height, 224);
}

#[test]
fn test_pixel_operations() {
    let mut fb = FrameBuffer::new(10, 10);

    assert!(fb.set_pixel(5, 5, 0xFF00FF00));
    assert_eq!(fb.get_pixel(5, 5), Some(0xFF00FF00));

    assert!(!fb.set_pixel(10, 5, 0xFF0000FF));
    assert_eq!(fb.get_pixel(10, 5), None);

    fb.clear(0xFF123456);
    assert_eq!(fb.get_pixel(0, 0), Some(0xFF123456));
    assert_eq!(fb.get_pixel(9, 9), Some(0xFF123456));
}

#[test]
fn test_drawing_operations() {
    let mut fb = FrameBuffer::new(10, 10);
    fb.clear(0xFF000000);

    fb.draw_horizontal_line(2, 7, 3, 0xFFFF0000);
    for x in 2..=7 {
        assert_eq!(fb.get_pixel(x, 3), Some(0xFFFF0000));
    }

    fb.draw_vertical_line(5, 1, 8, 0xFF00FF00);
    for y in 1..=8 {
        assert_eq!(fb.get_pixel(5, y), Some(0xFF00FF00));
    }

    fb.draw_rect(1, 1, 3, 3, 0xFF0000FF);
    assert_eq!(fb.get_pixel(1, 1), Some(0xFF0000FF));
    assert_eq!(fb.get_pixel(3, 1), Some(0xFF0000FF));
    assert_eq!(fb.get_pixel(1, 3), Some(0xFF0000FF));
    assert_eq!(fb.get_pixel(3, 3), Some(0xFF0000FF));
    assert_eq!(fb.get_pixel(2, 2), Some(0xFF000000));
}

#[test]
fn test_blit_operations() {
    let mut src = FrameBuffer::new(5, 5);
    src.fill_rect(0, 0, 5, 5, 0xFFFF0000);
    src.set_pixel(2, 2, 0xFF00FF00);

    let mut dst = FrameBuffer::new(10, 10);
    dst.clear(0xFF000000);

    dst.blit(&src, 0, 0, 5, 5, 0, 0);
    assert_eq!(dst.get_pixel(0, 0), Some(0xFFFF0000));
    assert_eq!(dst.get_pixel(2, 2), Some(0xFF00FF00));

    dst.clear(0xFF000000);
    dst.blit(&src, 1, 1, 3, 3, 5, 5);
    assert_eq!(dst.get_pixel(5, 5), Some(0xFFFF0000));
    assert_eq!(dst.get_pixel(6, 6), Some(0xFF00FF00));
}

#[test]
fn test_color_operations() {
    let mut fb = FrameBuffer::new(3, 3);

    for y in 0..3 {
        for x in 0..3 {
            let color = ((y * 3 + x) * 10) as u32;
            fb.set_pixel(x, y, 0xFF000000 | (color << 16) | (color << 8) | color);
        }
    }

    let mut gray_fb = fb.clone();
    gray_fb.convert_to_grayscale();

    for y in 0..3 {
        for x in 0..3 {
            let pixel = gray_fb.get_pixel(x, y).unwrap();
            let r = (pixel >> 16) & 0xFF;
            let g = (pixel >> 8) & 0xFF;
            let b = pixel & 0xFF;
            assert_eq!(r, g);
            assert_eq!(g, b);
        }
    }
}

#[test]
fn test_conversion_operations() {
    let fb = FrameBuffer::new(2, 2);
    let rgba = fb.to_rgba_bytes();

    assert_eq!(rgba.len(), 16);

    let fb2 = FrameBuffer::from_rgba_bytes(2, 2, &rgba).unwrap();
    assert_eq!(fb.width, fb2.width);
    assert_eq!(fb.height, fb2.height);
    assert_eq!(fb.pixels.len(), fb2.pixels.len());
}

#[test]
fn test_resize_and_transform() {
    let mut fb = FrameBuffer::new(4, 4);

    for y in 0..4 {
        for x in 0..4 {
            let value = if (x + y) % 2 == 0 { 0xFFFFFFFF } else { 0xFF000000 };
            fb.set_pixel(x, y, value);
        }
    }

    fb.resize(8, 8);
    assert_eq!(fb.width, 8);
    assert_eq!(fb.height, 8);
    assert_eq!(fb.pixels.len(), 64);

    for y in 0..4 {
        for x in 0..4 {
            let expected = if (x + y) % 2 == 0 { 0xFFFFFFFF } else { 0xFF000000 };
            assert_eq!(fb.get_pixel(x, y), Some(expected));
        }
    }
}

#[test]
fn test_thumbnail() {
    let fb = FrameBuffer::new(100, 100);
    let thumbnail = fb.create_thumbnail(10, 10);

    assert_eq!(thumbnail.width, 10);
    assert_eq!(thumbnail.height, 10);
    assert_eq!(thumbnail.pixels.len(), 100);
}

fn numbered(width: usize, height: usize) -> FrameBuffer {
    let pixels: Vec<u32> = (0..(width * height) as u32).map(|i| 0xFF000000 | i).collect();
    FrameBuffer::from_pixels(width, height, pixels).unwrap()
}

#[test]
fn framebuffer_from_pixels_checks_the_length() {
    assert!(FrameBuffer::from_pixels(2, 3, vec![0; 5]).is_none());
    assert!(FrameBuffer::from_pixels(usize::MAX, 2, vec![0; 4]).is_none());
    let fb = FrameBuffer::from_pixels(2, 3, vec![7; 6]).unwrap();
    assert_eq!(fb.size(), 6);
    assert_eq!(fb.get_pixel(1, 2), Some(7));
    assert_eq!(fb.get_tag(1, 2), Some(0));
    assert_eq!(fb.get_tag(2, 2), None);
    assert!(FrameBuffer::from_rgba_bytes(1, 1, &[1, 2, 3]).is_none());
    let one = FrameBuffer::from_rgba_bytes(1, 1, &[0x11, 0x22, 0x33, 0x44]).unwrap();
    assert_eq!(one.pixels, vec![0x44112233]);
    assert_eq!(one.to_rgba_bytes(), vec![0x11, 0x22, 0x33, 0x44]);
    assert_eq!(one.to_argb_vec(), vec![0x44112233]);
}

#[test]
fn framebuffer_clear_sets_alpha_and_resets_tags() {
    let mut fb = FrameBuffer::new(2, 2);
    assert!(fb.merge_pixel(0, 0, 0xFF010203, 5));
    assert_eq!(fb.get_tag(0, 0), Some(5));
    fb.mark_clean();
    assert!(!fb.is_dirty());
    fb.clear(0x00123456);
    assert_eq!(fb.pixels, vec![0xFF123456; 4]);
    assert_eq!(fb.tags, vec![0; 4]);
    assert!(fb.is_dirty());
    fb.clear_transparent();
    assert_eq!(fb.pixels, vec![0; 4]);
}

#[test]
fn framebuffer_merge_rule() {
    let mut fb = FrameBuffer::new(2, 1);
    fb.clear(0xFF000011);
    assert!(!fb.merge_pixel(0, 0, 0x00FFFFFF, 9));
    assert_eq!(fb.get_pixel(0, 0), Some(0xFF000011));
    assert!(fb.merge_pixel(0, 0, 0xFF0000AA, 6));
    assert_eq!((fb.get_pixel(0, 0), fb.get_tag(0, 0)), (Some(0xFF0000AA), Some(6)));
    assert!(!fb.merge_pixel(0, 0, 0xFF0000BB, 2));
    assert_eq!((fb.get_pixel(0, 0), fb.get_tag(0, 0)), (Some(0xFF0000AA), Some(6)));
    assert!(fb.merge_pixel(0, 0, 0xFF0000CC, 6));
    assert_eq!(fb.get_pixel(0, 0), Some(0xFF0000CC));
    assert!(fb.merge_pixel(0, 0, 0xFF0000DD, 8));
    assert_eq!((fb.get_pixel(0, 0), fb.get_tag(0, 0)), (Some(0xFF0000DD), Some(8)));
    assert!(!fb.merge_pixel(2, 0, 0xFF0000DD, 8));
    assert!(!fb.merge_pixel(0, 1, 0xFF0000DD, 8));

    let mut clear = FrameBuffer::new(1, 1);
    clear.clear_transparent();
    clear.tags[0] = 7;
    assert!(clear.merge_pixel(0, 0, 0x01000000, 1));
    assert_eq!(clear.get_tag(0, 0), Some(1));
}

#[test]
fn framebuffer_compositing_is_order_independent() {
    let plane_a_low = (0xFF00AA00u32, 2u8);
    let sprite_high = (0xFFBB0000u32, 8u8);
    let mut first = FrameBuffer::new(1, 1);
    first.merge_pixel(0, 0, plane_a_low.0, plane_a_low.1);
    first.merge_pixel(0, 0, sprite_high.0, sprite_high.1);
    let mut second = FrameBuffer::new(1, 1);
    second.merge_pixel(0, 0, sprite_high.0, sprite_high.1);
    second.merge_pixel(0, 0, plane_a_low.0, plane_a_low.1);
    assert_eq!(first.get_pixel(0, 0), Some(0xFFBB0000));
    assert_eq!(second.get_pixel(0, 0), Some(0xFFBB0000));
    assert_eq!(first.tags, second.tags);
}

#[test]
fn framebuffer_lines_and_rectangles_are_clipped() {
    let mut fb = FrameBuffer::new(4, 3);
    fb.clear(0);
    fb.draw_horizontal_line(9, 2, 1, 5);
    assert_eq!(fb.pixels, vec![0xFF000000, 0xFF000000, 0xFF000000, 0xFF000000, 0xFF000000, 0xFF000000, 5, 5, 0xFF000000, 0xFF000000, 0xFF000000, 0xFF000000]);
    fb.draw_horizontal_line(0, 3, 3, 9);
    fb.draw_vertical_line(4, 0, 2, 9);
    assert_eq!(fb.get_pixel(0, 2), Some(0xFF000000));
    fb.draw_vertical_line(0, 7, 1, 6);
    assert_eq!(fb.get_pixel(0, 0), Some(0xFF000000));
    assert_eq!(fb.get_pixel(0, 1), Some(6));
    assert_eq!(fb.get_pixel(0, 2), Some(6));

    let mut fb = FrameBuffer::new(5, 5);
    fb.fill_rect(3, 3, 10, 10, 1);
    assert_eq!(fb.get_pixel(2, 3), Some(0xFF000000));
    assert_eq!(fb.get_pixel(3, 3), Some(1));
    assert_eq!(fb.get_pixel(4, 4), Some(1));
    fb.fill_rect(0, 0, 2, 1, 2);
    assert_eq!(fb.get_pixel(1, 0), Some(2));
    assert_eq!(fb.get_pixel(2, 0), Some(0xFF000000));
    assert_eq!(fb.get_pixel(0, 1), Some(0xFF000000));
    fb.fill_rect(0, 0, 0, 4, 3);
    fb.fill_rect(5, 0, 1, 1, 3);
    fb.draw_rect(0, 0, 0, 3, 3);
    assert_eq!(fb.get_pixel(0, 0), Some(2));
    fb.draw_rect(0, 0, usize::MAX, usize::MAX, 4);
    assert_eq!(fb.get_pixel(0, 3), Some(4));
    assert_eq!(fb.get_pixel(4, 4), Some(4));
    assert_eq!(fb.get_pixel(3, 3), Some(1));
    let mut empty = FrameBuffer::new(0, 3);
    empty.draw_horizontal_line(0, 5, 1, 7);
    empty.draw_rect(0, 0, 2, 2, 7);
    assert_eq!(empty.size(), 0);
}

#[test]
fn framebuffer_blit_transparent_skips_zero_alpha() {
    let mut src = FrameBuffer::new(2, 1);
    src.set_pixel(0, 0, 0x00FFFFFF);
    src.set_pixel(1, 0, 0x01FFFFFF);
    let mut dst = FrameBuffer::new(3, 1);
    dst.blit_transparent(&src, 0, 0, 2, 1, 1, 0);
    assert_eq!(dst.pixels, vec![0xFF000000, 0xFF000000, 0x01FFFFFF]);
    dst.blit(&src, 0, 0, 2, 1, 2, 0);
    assert_eq!(dst.pixels, vec![0xFF000000, 0xFF000000, 0x00FFFFFF]);
    dst.blit(&src, 2, 0, 2, 1, 0, 0);
    dst.blit(&src, 0, 0, 2, 1, 3, 0);
    assert_eq!(dst.pixels, vec![0xFF000000, 0xFF000000, 0x00FFFFFF]);
}

#[test]
fn framebuffer_tiling() {
    let mut fb = FrameBuffer::new(5, 3);
    let tile = [1u32, 2, 3, 4, 5, 6];
    fb.fill_with_tile(&tile, 3, 2, 1, 0, 4, 3);
    assert_eq!(fb.pixels[0..5], [0xFF000000, 1, 2, 3, 1]);
    assert_eq!(fb.pixels[5..10], [0xFF000000, 4, 5, 6, 4]);
    assert_eq!(fb.pixels[10..15], [0xFF000000, 1, 2, 3, 1]);
    let before = fb.pixels.clone();
    fb.fill_with_tile(&tile, 2, 2, 0, 0, 5, 3);
    fb.fill_with_tile(&[], 0, 0, 0, 0, 5, 3);
    fb.fill_with_tile(&tile, 3, 2, 5, 0, 1, 1);
    assert_eq!(fb.pixels, before);
}

#[test]
fn framebuffer_palette_and_gray() {
    let mut palette = [0u32; 256];
    for (i, entry) in palette.iter_mut().enumerate() {
        *entry = 0xAB000000 | i as u32 * 2;
    }
    let mut fb = FrameBuffer::from_pixels(2, 1, vec![0x12345605, 0xFF]).unwrap();
    fb.apply_palette(&palette);
    assert_eq!(fb.pixels, vec![0xAB00000A, 0xAB0001FE]);

    let mut fb = FrameBuffer::from_pixels(3, 1, vec![0x80FF0000, 0xFF00FF00, 0x010000FF]).unwrap();
    fb.convert_to_grayscale();
    assert_eq!(fb.pixels, vec![0x804C4C4C, 0xFF959595, 0x011D1D1D]);
    let mut white = FrameBuffer::from_pixels(1, 1, vec![0xFFFFFFFF]).unwrap();
    white.convert_to_grayscale();
    assert_eq!(white.pixels, vec![0xFFFFFFFF]);
}

#[test]
fn framebuffer_flips_and_rotation() {
    let mut fb = numbered(3, 2);
    fb.flip_vertical();
    assert_eq!(fb.get_pixel(0, 0), Some(0xFF000003));
    assert_eq!(fb.get_pixel(2, 1), Some(0xFF000002));
    fb.flip_vertical();
    fb.flip_horizontal();
    assert_eq!(fb.pixels[0..3], [0xFF000002, 0xFF000001, 0xFF000000]);
    assert_eq!(fb.pixels[3..6], [0xFF000005, 0xFF000004, 0xFF000003]);

    let mut fb = numbered(3, 2);
    fb.rotate_90_cw();
    assert_eq!((fb.width, fb.height), (2, 3));
    assert_eq!(fb.pixels[0..2], [0xFF000003, 0xFF000000]);
    assert_eq!(fb.pixels[2..4], [0xFF000004, 0xFF000001]);
    assert_eq!(fb.pixels[4..6], [0xFF000005, 0xFF000002]);
}

#[test]
fn framebuffer_thumbnail_and_resize_values() {
    let fb = numbered(4, 4);
    let thumb = fb.create_thumbnail(2, 2);
    assert_eq!(thumb.pixels, vec![0xFF000000, 0xFF000002, 0xFF000008, 0xFF00000A]);
    let larger = fb.create_thumbnail(8, 4);
    assert_eq!(larger.get_pixel(7, 3), Some(0xFF00000F));
    assert_eq!(larger.get_pixel(3, 1), Some(0xFF000005));
    let empty = FrameBuffer::new(0, 0).create_thumbnail(2, 1);
    assert_eq!(empty.pixels, vec![0xFF000000, 0xFF000000]);

    let mut fb = numbered(3, 3);
    fb.resize(2, 4);
    assert_eq!(fb.pixels[0..2], [0xFF000000, 0xFF000001]);
    assert_eq!(fb.pixels[2..4], [0xFF000003, 0xFF000004]);
    assert_eq!(fb.pixels[4..6], [0xFF000006, 0xFF000007]);
    assert_eq!(fb.pixels[6..8], [0xFF000000, 0xFF000000]);
    fb.mark_clean();
    fb.resize(2, 4);
    assert!(!fb.is_dirty());
    fb.pixels_mut()[0] = 9;
    assert!(fb.is_dirty());
    assert_eq!(fb.pixels()[0], 9);
    assert_eq!(FrameBuffer::default().size(), 320 * 224);
}
