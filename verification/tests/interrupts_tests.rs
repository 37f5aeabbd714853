use megastrife::vdp::interrupts::{
    PendingInterrupt, VdpInterruptController, VdpInterruptType, VdpStatus,
};
use megastrife::vdp::registers::VdpRegisters;

fn create_test_registers() -> VdpRegisters {
    let mut regs = VdpRegisters::new();
    regs.set(0x00, 0x14);
    regs.set(0x01, 0x20);
    regs.set(0x0A, 100);
    regs
}

#[test]
fn test_interrupt_controller_creation() {
    let irq = VdpInterruptController::new();
    assert_eq!(irq.status, VdpStatus::empty());
    assert_eq!(irq.h_counter, 0);
    assert_eq!(irq.v_counter, 0);
    assert_eq!(irq.pending.len(), 0);
    assert!(!irq.is_pal);
}

#[test]
fn test_registers_update() {
    let mut irq = VdpInterruptController::new();
    let regs = create_test_registers();

    irq.update_from_registers(&regs);

    assert!(irq.enabled.contains(VdpStatus::HBLANK));
    assert!(irq.enabled.contains(VdpStatus::VBLANK));
    assert!(irq.enabled.contains(VdpStatus::SCANLINE_IRQ));
    assert_eq!(irq.scanline_irq_line, 100);
}

#[test]
fn test_hblank_interrupt() {
    let mut irq = VdpInterruptController::new();
    let regs = create_test_registers();

    irq.update_from_registers(&regs);

    for _ in 0..irq.h_blank_start {
        irq.tick(&regs);
    }

    assert!(irq.status.contains(VdpStatus::HBLANK));
    assert!(irq.has_interrupt());

    if let Some(interrupt) = irq.peek_interrupt() {
        assert_eq!(interrupt.irq_type, VdpInterruptType::HBlank);
    } else {
        panic!("Expected HBlank interrupt");
    }
}

#[test]
fn test_scanline_interrupt() {
    let mut irq = VdpInterruptController::new();
    let regs = create_test_registers();

    irq.update_from_registers(&regs);

    for line in 0..100 {
        for _ in 0..irq.cycles_per_line() {
            irq.tick(&regs);
        }
        assert_eq!(irq.current_scanline(), line + 1);
    }

    assert!(irq.status.contains(VdpStatus::SCANLINE_IRQ));
    assert!(irq.has_interrupt());
    assert_eq!(irq.scanline_irq_count, 1);
}

#[test]
fn test_sprite_interrupts() {
    let mut irq = VdpInterruptController::new();

    irq.signal_sprite_overflow(50);
    assert!(irq.status.contains(VdpStatus::SPRITE_OVERFLOW));
    assert!(irq.has_interrupt());

    irq.signal_sprite_collision();
    assert!(irq.status.contains(VdpStatus::SPRITE_COLLISION));
    assert_eq!(irq.pending.len(), 2);

    irq.clear_interrupts(VdpInterruptType::SpriteOverflow);
    assert_eq!(irq.pending.len(), 1);
}

#[test]
fn test_interrupt_priority() {
    let mut irq = VdpInterruptController::new();

    irq.queue_interrupt(VdpInterruptType::DmaComplete, 5);
    irq.queue_interrupt(VdpInterruptType::HBlank, 1);
    irq.queue_interrupt(VdpInterruptType::VBlank, 0);

    assert_eq!(irq.pending[0].irq_type, VdpInterruptType::VBlank);
    assert_eq!(irq.pending[1].irq_type, VdpInterruptType::HBlank);
    assert_eq!(irq.pending[2].irq_type, VdpInterruptType::DmaComplete);

    let first = irq.pop_interrupt().unwrap();
    assert_eq!(first.irq_type, VdpInterruptType::VBlank);
}

#[test]
fn interrupts_test_reset() {
    let mut irq = VdpInterruptController::new();
    let regs = create_test_registers();

    irq.update_from_registers(&regs);
    irq.signal_sprite_collision();

    for _ in 0..100 {
        irq.tick(&regs);
    }

    irq.reset();

    assert_eq!(irq.status, VdpStatus::empty());
    assert_eq!(irq.enabled, VdpStatus::empty());
    assert_eq!(irq.pending.len(), 0);
    assert_eq!(irq.h_counter, 0);
    assert_eq!(irq.v_counter, 0);
    assert_eq!(irq.cycle_counter, 0);
    assert_eq!(irq.get_stats(), (0, 0, 0));
}

#[test]
fn test_interlaced_mode() {
    let mut irq = VdpInterruptController::new();
    let mut regs = VdpRegisters::new();

    regs.set(0x0C, 0x02);
    irq.update_from_registers(&regs);

    assert!(irq.is_interlaced);
}

#[test]
fn interrupts_pop_in_priority_order() {
    let mut irq = VdpInterruptController::new();
    irq.signal_sprite_collision();
    irq.queue_interrupt(VdpInterruptType::HBlank, 1);
    irq.queue_interrupt(VdpInterruptType::VBlank, 0);
    assert_eq!(irq.pop_interrupt().unwrap().irq_type, VdpInterruptType::VBlank);
    assert_eq!(irq.pop_interrupt().unwrap().irq_type, VdpInterruptType::HBlank);
    assert_eq!(irq.pop_interrupt().unwrap().irq_type, VdpInterruptType::SpriteCollision);
    assert_eq!(irq.pop_interrupt(), None);
    assert!(!irq.has_interrupt());
    assert_eq!(irq.peek_interrupt(), None);
}

#[test]
fn interrupts_same_priority_keep_arrival_order() {
    let mut irq = VdpInterruptController::new();
    irq.cycle_counter = 10;
    irq.queue_interrupt(VdpInterruptType::HBlank, 1);
    irq.cycle_counter = 20;
    irq.queue_interrupt(VdpInterruptType::HBlank, 1);
    irq.cycle_counter = 15;
    irq.queue_interrupt(VdpInterruptType::HBlank, 1);
    irq.queue_interrupt(VdpInterruptType::Scanline, 2);
    irq.queue_interrupt(VdpInterruptType::VBlank, 0);
    let stamps: Vec<(u8, u64)> = irq.pending.iter().map(|p| (p.priority, p.timestamp)).collect();
    assert_eq!(stamps, vec![(0, 15), (1, 10), (1, 15), (1, 20), (2, 15)]);
    assert_eq!(
        irq.peek_interrupt(),
        Some(&PendingInterrupt { irq_type: VdpInterruptType::VBlank, timestamp: 15, priority: 0 })
    );
}

#[test]
fn interrupts_timing_by_standard() {
    let mut irq = VdpInterruptController::new();
    assert_eq!(irq.total_lines(), 262);
    assert_eq!(irq.cycles_per_line(), 342);
    assert_eq!(irq.v_blank_start, 224);
    irq.set_video_mode(true);
    assert_eq!(irq.total_lines(), 313);
    assert_eq!(irq.cycles_per_line(), 424);
    assert_eq!(irq.v_blank_start, 240);
    irq.set_video_mode(false);
    assert_eq!(irq.v_blank_start, 224);
}

#[test]
fn interrupts_vblank_at_the_first_line_below_the_picture() {
    let mut irq = VdpInterruptController::new();
    let regs = create_test_registers();
    irq.update_from_registers(&regs);
    for _ in 0..(224u32 * 342 - 1) {
        irq.tick(&regs);
    }
    assert!(!irq.status.contains(VdpStatus::VBLANK));
    assert!(!irq.in_vblank());
    irq.tick(&regs);
    assert!(irq.status.contains(VdpStatus::VBLANK));
    assert!(irq.in_vblank());
    assert_eq!(irq.current_scanline(), 224);
    assert_eq!(irq.current_hpos(), 0);
    assert_eq!(irq.current_cycle(), 224 * 342);
    assert_eq!(irq.peek_interrupt().unwrap().irq_type, VdpInterruptType::VBlank);

    let status = irq.read_status();
    assert_ne!(status & VdpStatus::VBLANK, 0);
    assert_ne!(status & VdpStatus::SCANLINE_IRQ, 0);
    assert!(!irq.status.contains(VdpStatus::VBLANK));
    assert!(!irq.status.contains(VdpStatus::SCANLINE_IRQ));
    assert!(irq.status.contains(VdpStatus::FIFO_EMPTY));
    assert!(irq.has_interrupt());
}

#[test]
fn interrupts_frame_wraps_and_counts() {
    let mut irq = VdpInterruptController::new();
    let regs = VdpRegisters::new();
    irq.signal_sprite_collision();
    irq.signal_sprite_overflow(3);
    irq.signal_sprite_overflow(4);
    assert_eq!(irq.sprite_overflow_line, Some(3));
    assert_eq!(irq.pending.len(), 2);
    for _ in 0..(262u32 * 342) {
        irq.tick(&regs);
    }
    assert_eq!(irq.current_scanline(), 0);
    assert_eq!(irq.current_hpos(), 0);
    assert_eq!(irq.get_stats(), (1, 262, 0));
    assert!(!irq.status.contains(VdpStatus::SPRITE_COLLISION));
    assert!(!irq.status.contains(VdpStatus::SPRITE_OVERFLOW));
    assert!(!irq.sprite_collision_detected);
    assert_eq!(irq.sprite_overflow_line, None);
    assert!(irq.status.contains(VdpStatus::VBLANK));
    assert_eq!(irq.pending.len(), 2);
}

#[test]
fn interrupts_hblank_status_without_enable() {
    let mut irq = VdpInterruptController::new();
    let regs = VdpRegisters::new();
    irq.update_from_registers(&regs);
    assert_eq!(irq.h_blank_start, 256);
    for _ in 0..256 {
        irq.tick(&regs);
    }
    assert!(irq.status.contains(VdpStatus::HBLANK));
    assert!(irq.in_hblank());
    assert!(!irq.has_interrupt());
    for _ in 256..342 {
        irq.tick(&regs);
    }
    assert!(!irq.status.contains(VdpStatus::HBLANK));
    assert_eq!(irq.hblank_count, 1);
    let mut wide = VdpRegisters::new();
    wide.set(12, 1);
    irq.update_from_registers(&wide);
    assert_eq!(irq.h_blank_start, 320);
}

#[test]
fn interrupts_interlaced_line_is_doubled() {
    let mut irq = VdpInterruptController::new();
    let mut regs = VdpRegisters::new();
    regs.set(0, 0x04);
    regs.set(10, 20);
    regs.set(12, 0x02);
    irq.update_from_registers(&regs);
    for _ in 0..(10u32 * 342) {
        irq.tick(&regs);
    }
    assert_eq!(irq.current_scanline(), 10);
    assert_eq!(irq.scanline_irq_count, 1);
    assert_eq!(irq.pending.len(), 1);
    for _ in 0..(10u32 * 342) {
        irq.tick(&regs);
    }
    assert_eq!(irq.scanline_irq_count, 1);
}

#[test]
fn interrupts_follow_port_state() {
    let mut irq = VdpInterruptController::default();
    let mut regs = VdpRegisters::new();
    irq.tick(&regs);
    assert!(irq.status.contains(VdpStatus::FIFO_EMPTY));
    for v in 0..4 {
        regs.write_data_port(v);
    }
    irq.tick(&regs);
    assert!(irq.status.contains(VdpStatus::FIFO_FULL));
    assert!(!irq.status.contains(VdpStatus::FIFO_EMPTY));
    regs.pop_fifo();
    regs.set(1, 0x10);
    regs.write_control_port(0);
    regs.write_control_port(0);
    irq.tick(&regs);
    assert!(irq.status.contains(VdpStatus::DMA_IN_PROGRESS));
    assert!(!irq.status.contains(VdpStatus::FIFO_FULL));
    irq.signal_dma_complete();
    assert_eq!(irq.pending[0].irq_type, VdpInterruptType::DmaComplete);
    assert_eq!(irq.pending[0].priority, 5);
    assert_eq!(irq.pending[0].timestamp, 3);
    assert_eq!(
        VdpInterruptController::interrupt_to_string(VdpInterruptType::SpriteOverflow),
        "SpriteOverflow"
    );
    assert_eq!(VdpInterruptController::interrupt_to_string(VdpInterruptType::VBlank), "VBlank");
}

#[test]
fn test_video_mode_configuration() {
    let mut irq = VdpInterruptController::new();

    assert_eq!(irq.total_lines(), 262);
    assert_eq!(irq.cycles_per_line(), 342);
    assert_eq!(irq.v_blank_start, 224);

    irq.set_video_mode(true);
    assert_eq!(irq.total_lines(), 313);
    assert_eq!(irq.cycles_per_line(), 424);
    assert_eq!(irq.v_blank_start, 240);
}

#[test]
fn test_vblank_interrupt() {
    let mut irq = VdpInterruptController::new();
    let regs = create_test_registers();

    irq.update_from_registers(&regs);

    let total_cycles = (irq.v_blank_start as u64) * (irq.cycles_per_line() as u64);
    for _ in 0..total_cycles {
        irq.tick(&regs);
    }

    assert!(irq.status.contains(VdpStatus::VBLANK));
    assert!(irq.has_interrupt());
    assert!(irq.in_vblank());

    let status = irq.read_status();
    assert_eq!(status & VdpStatus::VBLANK, VdpStatus::VBLANK);
    assert!(!irq.status.contains(VdpStatus::VBLANK));
    assert_eq!(irq.read_status() & VdpStatus::VBLANK, 0);
}
