use megastrife::vdp::dma::{DmaError, DmaMode};
use megastrife::vdp::interrupts::VdpInterruptType;
use megastrife::vdp::registers::{VdpAccessType, VdpStatus};
use megastrife::vdp::renderer::RenderFlags;
use megastrife::vdp::sprite::{Sprite, SpriteSize};
use megastrife::vdp::Vdp;

#[test]
fn test_vdp_creation() {
    let vdp = Vdp::new(false);

    assert!(!vdp.is_pal);
    assert_eq!(vdp.frame_counter, 0);
    assert_eq!(vdp.cycles_elapsed, 0);
    assert!(vdp.display_enabled);
    assert!(!vdp.vblank_active);
    assert!(!vdp.hblank_active);
}

#[test]
fn test_vdp_reset() {
    let mut vdp = Vdp::new(false);
    vdp.initialize();

    vdp.frame_counter = 100;
    vdp.cycles_elapsed = 5000;
    vdp.vblank_active = true;

    vdp.reset();

    assert_eq!(vdp.frame_counter, 0);
    assert_eq!(vdp.cycles_elapsed, 0);
    assert!(!vdp.vblank_active);
}

#[test]
fn test_vdp_tick() {
    let mut vdp = Vdp::new(false);
    vdp.initialize();

    for _ in 0..1000 {
        vdp.tick(None).unwrap();
    }

    assert!(vdp.cycles_elapsed > 0);
}

#[test]
fn test_vdp_debug_info() {
    let vdp = Vdp::new(false);
    let info = vdp.debug_info();

    assert!(!info.is_empty());
    assert!(info[0].contains("VDP State"));
}

fn write_register(vdp: &mut Vdp, index: u8, value: u8) {
    vdp.write_control_port(0x8000 | ((index as u16) << 8) | value as u16);
}

fn set_address(vdp: &mut Vdp, code: u8, addr: u16) {
    vdp.write_control_port(((code as u16) << 8) | (addr >> 8));
    vdp.write_control_port(addr & 0xFF);
}

#[test]
fn end_to_end_one_tile_on_plane_a() {
    let mut vdp = Vdp::new(false);
    vdp.initialize();
    write_register(&mut vdp, 1, 0x40);
    write_register(&mut vdp, 2, 0x30);
    write_register(&mut vdp, 12, 0x01);
    write_register(&mut vdp, 16, 0x10);
    write_register(&mut vdp, 7, 0x05);
    assert_eq!(vdp.regs.plane_a_address(), 0xC000);

    set_address(&mut vdp, 0x10, 5);
    vdp.write_data_port(0x0222);
    set_address(&mut vdp, 0x10, 1);
    vdp.write_data_port(0x000E);
    assert_eq!(vdp.cram.read(5), 0x0222);
    assert_eq!(vdp.cram.read(1), 0x000E);

    set_address(&mut vdp, 0x00, 32);
    for _ in 0..16 {
        vdp.write_data_port(0x1111);
    }
    assert_eq!(vdp.vram.read_tile_4bpp(1), [0x11; 32]);
    assert_eq!(vdp.regs.current_address.addr, 64);
    vdp.vram.write16(0xC000, 0x0001);

    let frame = vdp.render_frame().clone();
    assert_eq!((frame.width, frame.height), (320, 224));
    for y in 0..224 {
        for x in 0..320 {
            let pixel = frame.get_pixel(x, y).unwrap();
            if x < 8 && y < 8 {
                assert_ne!(pixel, 0xFF242424);
                assert_eq!(pixel, 0xFFFC0000);
            } else {
                assert_eq!(pixel, 0xFF242424, "pixel ({}, {})", x, y);
            }
        }
    }
    assert_eq!(vdp.get_framebuffer().pixels, frame.pixels);
    assert_eq!(vdp.copy_framebuffer().pixels, frame.pixels);
    assert_eq!(vdp.get_render_stats().frames_rendered, 1);
}

#[test]
fn ports_by_byte() {
    let mut vdp = Vdp::new(false);
    vdp.bus_write(0xC00006, 0x10);
    assert!(vdp.regs.address_latch);
    assert_eq!(vdp.regs.code_buffer, 0x10);
    vdp.bus_write(0xC00004, 0x07);
    assert!(!vdp.regs.address_latch);
    assert_eq!(vdp.regs.current_address.access_type, VdpAccessType::CRAM);
    assert_eq!(vdp.regs.current_address.addr, 0x07);
    vdp.bus_write(0xC00002, 0x0E);
    assert_eq!(vdp.cram.read(7), 0x0E00);
    assert_eq!(vdp.regs.current_address.addr, 0x09);
    vdp.bus_write(0xC00001, 0xFF);
    vdp.bus_write(0xC00003, 0xFF);
    assert_eq!(vdp.regs.write_count, 3);

    vdp.write_control_port(0x5000);
    vdp.write_control_port(0x0007);
    assert_eq!(vdp.bus_read(0xC00002), 0x0E);
    assert_eq!(vdp.regs.current_address.addr, 0x09);
    vdp.write_control_port(0x5000);
    vdp.write_control_port(0x0007);
    assert_eq!(vdp.bus_read(0xC00000), 0x00);
    assert_eq!(vdp.bus_read(0xC00006), 0);
    assert_eq!(vdp.bus_read(0xC00005), 0);
    vdp.interrupts.status.insert(VdpStatus::VBLANK | VdpStatus::SPRITE_COLLISION);
    assert_eq!(vdp.bus_read(0xC00004), 0x81);
    assert_eq!(vdp.read_status(), 0x01);
}

#[test]
fn data_port_reads_the_addressed_memory() {
    let mut vdp = Vdp::new(false);
    vdp.vram.write16(0x0100, 0xBEEF);
    vdp.vsram.write16(10, 0x1234);
    set_address(&mut vdp, 0x40, 0x0100);
    assert_eq!(vdp.read_data_port(), 0xBEEF);
    assert_eq!(vdp.regs.current_address.addr, 0x0102);
    set_address(&mut vdp, 0x60, 90);
    assert_eq!(vdp.read_data_port(), 0x1234);
    set_address(&mut vdp, 0x00, 0);
    vdp.regs.data_buffer = 0x4242;
    assert_eq!(vdp.read_data_port(), 0x4242);
}

#[test]
fn dma_through_the_chip() {
    let mut vdp = Vdp::new(false);
    write_register(&mut vdp, 1, 0x10);
    write_register(&mut vdp, 19, 5);
    write_register(&mut vdp, 21, 0x00);
    write_register(&mut vdp, 22, 0x20);
    assert_eq!(vdp.dma_source_request(), None);
    set_address(&mut vdp, 0x00, 0x0200);
    assert!(vdp.dma.is_active());
    assert_eq!(vdp.dma.mode(), DmaMode::MemoryToVdp);
    assert!(vdp.regs.status.contains(VdpStatus::DMA_ACTIVE));
    assert_eq!(vdp.dma_source_request(), Some(0x2000));

    let before = vdp.cycles_elapsed;
    assert_eq!(vdp.tick(None), Err(DmaError::SourceReadFailed { address: 0x2000 }));
    assert_eq!(vdp.cycles_elapsed, before);
    assert_eq!(vdp.dma.words_remaining(), 5);
    assert_eq!(vdp.interrupts.cycle_counter, 0);

    for k in 0..5u16 {
        assert_eq!(vdp.dma.words_remaining(), 5 - k);
        assert_eq!(vdp.dma_source_request(), Some(0x2000 + 2 * k as u32));
        vdp.tick(Some(0xA000 + k)).unwrap();
    }
    assert_eq!(vdp.dma.words_remaining(), 0);
    assert!(!vdp.dma.is_active());
    assert!(!vdp.regs.dma_active);
    assert!(!vdp.regs.status.contains(VdpStatus::DMA_ACTIVE));
    for k in 0..5u32 {
        assert_eq!(vdp.vram.read16(0x0200 + 2 * k), 0xA000 + k as u16);
    }
    assert_eq!(vdp.vram.read16(0x020A), 0);
    assert!(vdp.has_interrupt());
    assert_eq!(vdp.poll_interrupt(), Some(VdpInterruptType::DmaComplete));
    assert_eq!(vdp.poll_interrupt(), None);
    vdp.tick(None).unwrap();
    assert_eq!(vdp.cycles_elapsed, 6);
}

#[test]
fn vertical_blank_loads_and_examines_the_sprites() {
    let mut vdp = Vdp::new(false);
    write_register(&mut vdp, 1, 0x60);
    write_register(&mut vdp, 12, 0x01);
    write_register(&mut vdp, 5, 0x70);
    vdp.initialize();
    assert_eq!(vdp.regs.sprite_table_address(), 0xE000);
    for i in 0..22u32 {
        let mut sprite =
            Sprite::with_params(0, 40, SpriteSize::Size1x1, 0, 0, false, false, false, false);
        sprite.link = if i < 21 { i as u8 + 1 } else { 0 };
        for (k, b) in sprite.to_bytes().iter().enumerate() {
            vdp.vram.write8(0xE000 + i * 8 + k as u32, *b);
        }
    }
    for _ in 0..(224u32 * 342) {
        vdp.tick(None).unwrap();
    }
    assert!(vdp.vblank_active);
    assert_eq!(vdp.frame_counter, 1);
    assert_eq!(vdp.sprite_table.sprites.len(), 22);
    assert_eq!(vdp.sprite_table.overflow_line, Some(40));
    assert!(vdp.sprite_table.collision_detected);
    assert_eq!(vdp.sprite_table.active_sprites_per_line[40], 20);
    assert_eq!(vdp.poll_interrupt(), Some(VdpInterruptType::VBlank));
    assert_eq!(vdp.poll_interrupt(), Some(VdpInterruptType::SpriteOverflow));
    assert_eq!(vdp.poll_interrupt(), Some(VdpInterruptType::SpriteCollision));
    assert_eq!(vdp.poll_interrupt(), None);
    let status = vdp.read_status();
    assert_ne!(status & VdpStatus::VBLANK, 0);
    assert_ne!(status & VdpStatus::SPRITE_OVERFLOW, 0);
    assert_ne!(status & VdpStatus::SPRITE_COLLISION, 0);
    assert_eq!(vdp.read_status() & VdpStatus::VBLANK, 0);
    for _ in 0..(38u32 * 342) {
        vdp.tick(None).unwrap();
    }
    assert!(!vdp.vblank_active);
    assert_eq!(vdp.frame_counter, 1);
}

#[test]
fn video_standard_and_render_switches() {
    let mut vdp = Vdp::default();
    write_register(&mut vdp, 1, 0x40);
    write_register(&mut vdp, 12, 0x01);
    vdp.set_video_mode(true);
    assert!(vdp.is_pal);
    assert_eq!(vdp.video_mode.name, "PAL 320x240");
    assert_eq!(vdp.interrupts.v_blank_start, 240);
    assert_eq!(vdp.interrupts.cycles_per_line(), 424);
    assert_eq!(vdp.render_frame().height, 240);
    assert_eq!(vdp.renderer.frames_rendered, 1);
    vdp.set_render_enabled(false);
    vdp.render_frame();
    assert_eq!(vdp.renderer.frames_rendered, 1);
    vdp.set_render_enabled(true);
    vdp.set_render_flags(RenderFlags {
        show_background: false,
        show_planes: false,
        show_window: false,
        show_sprites: false,
        debug_overlay: false,
    });
    let frame = vdp.render_frame();
    assert!(frame.pixels.iter().all(|&p| p == 0));
    write_register(&mut vdp, 1, 0x00);
    vdp.render_frame();
    assert_eq!(vdp.renderer.frames_rendered, 2);
    vdp.reset();
    assert!(vdp.is_pal);
    assert_eq!(vdp.renderer.frames_rendered, 0);
    assert!(vdp.plane_manager.is_some());
    assert!(vdp.vram.dump().iter().all(|&b| b == 0));
}

#[test]
fn chip_report_exact_text() {
    let mut vdp = Vdp::new(true);
    vdp.frame_counter = 3;
    vdp.cycles_elapsed = 4567;
    vdp.sprite_table.overflow_line = Some(50);
    vdp.interrupts.signal_sprite_collision();
    let info = vdp.debug_info();
    let expected = [
        "VDP State:",
        "  Frame: 3, Cycles: 4567",
        "  Mode: NTSC 320x224",
        "  Display: ON",
        "  VBlank: false, HBlank: false",
        "  System: PAL",
        "Interrupts:",
        "  Pending: true",
        "  Status: 00000001",
        "  Line: 0, HPos: 0",
        "DMA:",
        "  Active: false",
        "  Mode: Inactive",
        "  Words remaining: 0",
        "Memory:",
        "  VRAM: 65536 bytes",
        "  CRAM: 64 colors",
        "  VSRAM: 40 words",
        "Sprites:",
        "  Active: 0",
        "  Overflow: Some(50)",
        "  Collision: false",
    ];
    assert_eq!(info, expected);
}

#[test]
fn test_vdp_initialize() {
    let mut vdp = Vdp::new(false);
    vdp.initialize();

    assert!(vdp.plane_manager.is_some());
    assert_eq!(vdp.video_mode.name, "NTSC 256x224");
}

#[test]
fn test_vdp_render_frame() {
    let mut vdp = Vdp::new(false);
    vdp.initialize();

    let framebuffer = vdp.render_frame();

    assert_eq!(framebuffer.width, 256);
    assert_eq!(framebuffer.height, 224);
    assert_eq!(vdp.get_render_stats().frames_rendered, 0);
}
