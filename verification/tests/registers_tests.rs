use megastrife::vdp::registers::{
    byte_to_signed, DmaMode, VdpAccessType, VdpRegisters, VdpStatus,
};

#[test]
fn test_register_creation() {
    let regs = VdpRegisters::new();

    assert_eq!(regs.regs.len(), 24);
    assert_eq!(regs.auto_increment, 2);
    assert!(!regs.display_enabled());
    assert!(!regs.dma_enabled());
    assert!(!regs.mode_40_cell());
    assert_eq!(regs.write_count, 0);
    assert_eq!(regs.read_count, 0);
}

#[test]
fn test_register_write_read() {
    let mut regs = VdpRegisters::new();

    regs.write_reg(0, 0x12);
    regs.write_reg(1, 0x34);
    regs.write_reg(15, 0x04);

    assert_eq!(regs.read_reg(0), 0x12);
    assert_eq!(regs.read_reg(1), 0x34);
    assert_eq!(regs.read_reg(15), 0x04);

    assert_eq!(regs.auto_increment, 0x04);
}

#[test]
fn test_display_enable() {
    let mut regs = VdpRegisters::new();

    regs.write_reg(1, 0x40);
    assert!(regs.display_enabled());

    regs.write_reg(1, 0x00);
    assert!(!regs.display_enabled());
}

#[test]
fn test_mode_40_cell() {
    let mut regs = VdpRegisters::new();

    regs.write_reg(12, 0x01);
    assert!(regs.mode_40_cell());
    assert!(!regs.mode_32_cell());

    regs.write_reg(12, 0x00);
    assert!(!regs.mode_40_cell());
    assert!(regs.mode_32_cell());
}

#[test]
fn test_dma_mode() {
    let mut regs = VdpRegisters::new();

    regs.write_reg(1, 0x10);
    assert_eq!(regs.dma_mode, DmaMode::MemoriaParaVdp);
    assert!(regs.dma_enabled());

    regs.write_reg(23, 0x40);
    assert_eq!(regs.dma_mode, DmaMode::PreenchimentoVram);

    regs.write_reg(23, 0x80);
    assert_eq!(regs.dma_mode, DmaMode::CopiaVram);
}

#[test]
fn test_plane_address_calculation() {
    let mut regs = VdpRegisters::new();

    regs.write_reg(2, 0x38);
    regs.write_reg(4, 0x07);
    regs.write_reg(3, 0x36);
    regs.write_reg(5, 0x7F);
    regs.write_reg(13, 0x0F);

    assert_eq!(regs.plane_a_address(), 0xE000);
    assert_eq!(regs.plane_b_address(), 0xE000);
    assert_eq!(regs.sprite_table_address(), 0xFE00);
    assert_eq!(regs.hscroll_address(), 0x3C00);
}

#[test]
fn test_data_port_write_read() {
    let mut regs = VdpRegisters::new();

    regs.write_control_port(0x4000);
    regs.write_control_port(0x1234);

    regs.write_data_port(0xABCD);

    assert_eq!(regs.data_buffer, 0xABCD);

    assert!(regs.has_fifo_commands());
    assert_eq!(regs.fifo.len(), 1);

    let data = regs.read_data_port();
    assert_eq!(data, 0xABCD);
}

#[test]
fn test_status_register() {
    let mut regs = VdpRegisters::new();

    assert_eq!(regs.status.bits(), 0);

    regs.update_interrupt_flags(true, false, true);
    assert!(regs.status.contains(VdpStatus::VBLANK));
    assert!(!regs.status.contains(VdpStatus::HBLANK));
    assert!(regs.status.contains(VdpStatus::LINE_IRQ));

    regs.update_sprite_flags(true, true);
    assert!(regs.status.contains(VdpStatus::SPRITE_OVERFLOW));
    assert!(regs.status.contains(VdpStatus::SPRITE_COLLISION));

    let status = regs.read_control_port();
    assert!(status & VdpStatus::VBLANK != 0);
    assert!(status & VdpStatus::LINE_IRQ != 0);

    assert!(!regs.status.contains(VdpStatus::VBLANK));
    assert!(!regs.status.contains(VdpStatus::LINE_IRQ));
    assert!(regs.status.contains(VdpStatus::SPRITE_OVERFLOW));
    assert!(regs.status.contains(VdpStatus::SPRITE_COLLISION));
}

#[test]
fn registers_test_reset() {
    let mut regs = VdpRegisters::new();

    regs.write_reg(1, 0x40);
    regs.write_reg(12, 0x01);
    regs.write_data_port(0x1234);
    regs.write_count = 100;
    regs.read_count = 50;

    regs.reset();

    assert_eq!(regs.read_reg(1), 0);
    assert_eq!(regs.read_reg(12), 0);
    assert_eq!(regs.data_buffer, 0);
    assert_eq!(regs.write_count, 0);
    assert_eq!(regs.read_count, 0);
    assert_eq!(regs.auto_increment, 2);
    assert!(!regs.display_enabled());
    assert!(!regs.mode_40_cell());
}

#[test]
fn registers_test_debug_info() {
    let regs = VdpRegisters::new();
    let info = regs.debug_info();

    assert!(!info.is_empty());
    assert!(info[0].contains("Status:"));
    assert!(info[1].contains("Display:"));

    let dump = regs.dump_registers();
    assert!(dump.contains("R00:"));
    assert!(dump.contains("R23:"));
}

#[test]
fn fifo_holds_four_entries_and_drops_the_fifth() {
    let mut regs = VdpRegisters::new();
    for (i, value) in [0x1111u16, 0x2222, 0x3333, 0x4444].iter().enumerate() {
        regs.write_data_port(*value);
        assert_eq!(regs.fifo.len(), i + 1);
    }
    assert!(regs.status.contains(VdpStatus::FIFO_FULL));
    assert!(!regs.status.contains(VdpStatus::FIFO_EMPTY));
    assert!(regs.fifo_full());

    regs.write_data_port(0x5555);
    assert_eq!(regs.fifo, vec![0x1111, 0x2222, 0x3333, 0x4444]);
    assert!(regs.status.contains(VdpStatus::FIFO_FULL));
    assert_eq!(regs.data_buffer, 0x5555);

    for _ in 0..20 {
        regs.write_data_port(0x6666);
        assert!(regs.fifo.len() <= 4);
    }
    assert_eq!(regs.fifo, vec![0x1111, 0x2222, 0x3333, 0x4444]);
}

#[test]
fn fifo_drains_oldest_first() {
    let mut regs = VdpRegisters::new();
    assert_eq!(regs.pop_fifo(), None);
    assert!(regs.status.contains(VdpStatus::FIFO_EMPTY));
    regs.write_data_port(0x1111);
    regs.write_data_port(0x2222);
    regs.write_data_port(0x3333);
    assert!(!regs.status.contains(VdpStatus::FIFO_EMPTY));
    assert!(!regs.status.contains(VdpStatus::FIFO_FULL));
    assert_eq!(regs.pop_fifo(), Some(0x1111));
    assert_eq!(regs.pop_fifo(), Some(0x2222));
    assert_eq!(regs.pop_fifo(), Some(0x3333));
    assert_eq!(regs.pop_fifo(), None);
    assert!(regs.fifo_empty());
    assert!(regs.status.contains(VdpStatus::FIFO_EMPTY));
}

#[test]
fn control_port_register_write_bypasses_the_latch() {
    let mut regs = VdpRegisters::new();
    regs.write_control_port(0x8140);
    assert!(!regs.address_latch);
    assert_eq!(regs.read_reg(1), 0x40);
    assert!(regs.display_enabled());
    assert_eq!(regs.write_count, 1);
    regs.write_control_port(0x8F04);
    assert_eq!(regs.auto_increment_value(), 4);
    regs.write_control_port(0x9F77);
    assert_eq!(regs.regs, {
        let mut expected = [0u8; 24];
        expected[1] = 0x40;
        expected[15] = 0x04;
        expected
    });
}

#[test]
fn control_port_two_word_address_command() {
    let mut regs = VdpRegisters::new();
    regs.write_control_port(0x1056);
    assert!(regs.address_latch);
    assert_eq!(regs.code_buffer, 0x10);
    assert_eq!(regs.address_buffer, 0x5600);
    regs.write_control_port(0xFF34);
    assert!(!regs.address_latch);
    assert_eq!(regs.address_buffer, 0x5634);
    assert_eq!(regs.current_address.addr, 0x1634);
    assert_eq!(regs.current_address.access_type, VdpAccessType::CRAM);
    assert!(!regs.current_address.read_mode);

    regs.write_control_port(0x6000);
    regs.write_control_port(0x0010);
    assert_eq!(regs.current_address.access_type, VdpAccessType::VSRAM);
    assert!(regs.current_address.read_mode);
    assert_eq!(regs.current_address.addr, 0x0010);

    regs.write_control_port(0x3000);
    regs.write_control_port(0x0000);
    assert_eq!(regs.current_address.access_type, VdpAccessType::VRAM);
}

#[test]
fn address_steps_and_wraps_by_memory() {
    let mut regs = VdpRegisters::new();
    regs.write_control_port(0x003F);
    regs.write_control_port(0x00FF);
    assert_eq!(regs.current_address.addr, 0x3FFF);
    regs.increment_address();
    assert_eq!(regs.current_address.addr, 0x0001);

    regs.write_control_port(0x1000);
    regs.write_control_port(0x003F);
    regs.write_reg(15, 3);
    regs.increment_address();
    assert_eq!(regs.current_address.addr, 0x02);

    regs.write_control_port(0x4000);
    regs.write_control_port(0x0008);
    regs.data_buffer = 0x7777;
    assert_eq!(regs.read_data_port(), 0x7777);
    assert_eq!(regs.current_address.addr, 0x000B);
    assert_eq!(regs.read_count, 1);
}

#[test]
fn register_effects() {
    let mut regs = VdpRegisters::new();
    regs.write_reg(0, 0x14);
    assert!(regs.hblank_interrupt_enabled);
    assert!(regs.line_interrupt_enabled);
    regs.write_reg(1, 0x20);
    assert!(regs.vblank_interrupt_enabled);
    regs.write_reg(3, 0x36);
    assert_eq!(regs.window_address(), ((3 | (3 << 2)) as u16) << 10);
    regs.write_reg(12, 0x0F);
    assert!(regs.mode_40_cell());
    assert!(regs.interlace_enabled());
    assert_eq!(regs.interlace_mode(), 3);
    assert!(regs.shadow_highlight_enabled());
    regs.write_reg(19, 0x34);
    regs.write_reg(20, 0x12);
    assert_eq!(regs.dma_length, 0x1234);
    regs.write_reg(21, 0x56);
    regs.write_reg(22, 0x34);
    regs.write_reg(23, 0x92);
    assert_eq!(regs.dma_source, 0x123456);
    regs.write_reg(24, 0xFF);
    regs.write_reg(usize::MAX, 0xFF);
    assert_eq!(regs.write_count, 9);
    assert_eq!(regs.get(25), regs.get(1));
    regs.set(7, 0xFF);
    assert_eq!(regs.background_color_index(), 0x3F);
    regs.set(10, 99);
    assert_eq!(regs.line_interrupt_counter(), 99);
    regs.set(16, 0x21);
    assert_eq!(regs.plane_size(), (128, 64));
    regs.set(16, 0x33);
    assert_eq!(regs.plane_size(), (32, 32));
    regs.set(17, 0xF0);
    regs.set(18, 0x10);
    assert_eq!(regs.window_position(), (-16, 16));
    assert_eq!(byte_to_signed(0x80), -128);
    assert_eq!(regs.tile_size(), 8);
    regs.set(6, 1);
    assert!(regs.row_scroll_enabled());
    regs.set_dma_length(0xBEEF);
    assert_eq!(regs.dma_length, 0xBEEF);
    assert_eq!(regs.get(19), 0xEF);
    assert_eq!(regs.get(20), 0xBE);
}

#[test]
fn write_command_arms_the_selected_dma() {
    let mut regs = VdpRegisters::new();
    regs.write_reg(1, 0x10);
    regs.write_reg(19, 2);
    regs.write_control_port(0x0000);
    regs.write_control_port(0x0000);
    assert!(regs.dma_active);
    assert!(regs.dma_in_progress());
    assert!(regs.status.contains(VdpStatus::DMA_ACTIVE));
    regs.write_data_port(0x1111);
    assert_eq!(regs.dma_length, 1);
    assert_eq!(regs.dma_source, 2);
    assert_eq!(regs.fifo.len(), 0);
    regs.write_data_port(0x2222);
    assert_eq!(regs.dma_length, 0);
    assert!(!regs.dma_active);
    assert!(!regs.status.contains(VdpStatus::DMA_ACTIVE));
    assert_eq!(regs.dma_mode, DmaMode::Desativado);
    regs.write_data_port(0x3333);
    assert_eq!(regs.fifo, vec![0x3333]);
}

#[test]
fn status_flag_set() {
    let mut status = VdpStatus::empty();
    status.insert(VdpStatus::VBLANK | VdpStatus::FIFO_FULL);
    assert_eq!(status.bits(), 0x90);
    assert!(status.contains(VdpStatus::VBLANK));
    assert!(!status.contains(VdpStatus::VBLANK | VdpStatus::HBLANK));
    status.remove(VdpStatus::VBLANK);
    assert_eq!(status.bits(), 0x10);
    status.set(VdpStatus::HBLANK, true);
    status.set(VdpStatus::FIFO_FULL, false);
    assert_eq!(status, VdpStatus { bits: 0x40 });
}

#[test]
fn registers_report_exact_text() {
    let mut regs = VdpRegisters::default();
    regs.write_reg(1, 0x50);
    regs.write_reg(12, 0x01);
    regs.write_data_port(7);
    regs.update_interrupt_flags(true, false, true);
    let info = regs.debug_info();
    assert_eq!(info.len(), 16);
    assert_eq!(info[0], "Status: 10000100");
    assert_eq!(info[1], "Display: ON");
    assert_eq!(info[2], "Mode: H40");
    assert_eq!(info[3], "Interlace: 0");
    assert_eq!(info[4], "Shadow/Highlight: false");
    assert_eq!(info[5], "DMA Mode: MemoriaParaVdp");
    assert_eq!(info[6], "DMA Active: false");
    assert_eq!(info[7], "FIFO: 1/4");
    assert_eq!(info[8], "Auto-increment: 2");
    assert_eq!(info[9], "Plane A Addr: 0xC000");
    assert_eq!(info[13], "HScroll Addr: 0xFC00");
    assert_eq!(info[14], "Write Count: 3");
    assert_eq!(info[15], "Read Count: 0");
    let dump = regs.dump_registers();
    assert!(dump.starts_with("R00: 0x00 R01: 0x50 R02: 0x00 R03: 0x00 \nR04: 0x00 "));
    assert!(dump.ends_with("R23: 0x00 \n"));
    assert!(dump.contains("R12: 0x01 "));
    assert!(dump.contains("R15: 0x02 "));
}

#[test]
fn test_control_port_write() {
    let mut regs = VdpRegisters::new();

    regs.write_control_port(0x8200);
    assert!(!regs.address_latch);
    assert_eq!(regs.code_buffer, 0);
    assert_eq!(regs.address_buffer, 0x0000);
    assert_eq!(regs.get(2), 0x00);

    regs.write_control_port(0x1234);
    assert!(regs.address_latch);
    assert_eq!(regs.code_buffer, 0x12);
    assert_eq!(regs.address_buffer, 0x3400);

    assert_eq!(regs.current_address.addr, 0x0000);
    assert_eq!(regs.current_address.access_type, VdpAccessType::VRAM);
    assert!(!regs.current_address.read_mode);
}

#[test]
fn test_fifo_operations() {
    let mut regs = VdpRegisters::new();

    assert!(!regs.has_fifo_commands());
    assert!(!regs.status.contains(VdpStatus::FIFO_FULL));

    regs.write_data_port(0x1111);
    regs.write_data_port(0x2222);
    regs.write_data_port(0x3333);
    regs.write_data_port(0x4444);

    assert!(regs.status.contains(VdpStatus::FIFO_FULL));
    assert_eq!(regs.fifo.len(), 4);

    assert_eq!(regs.pop_fifo(), Some(0x1111));
    assert_eq!(regs.pop_fifo(), Some(0x2222));
    assert_eq!(regs.pop_fifo(), Some(0x3333));
    assert_eq!(regs.pop_fifo(), Some(0x4444));

    assert!(!regs.has_fifo_commands());
    assert!(regs.status.contains(VdpStatus::FIFO_EMPTY));
}
