use megastrife::vdp::cram::Cram;
use megastrife::vdp::dma::{DmaError, DmaMode, VdpDma};
use megastrife::vdp::registers::VdpRegisters;
use megastrife::vdp::vram::Vram;
use megastrife::vdp::vsram::Vsram;

#[test]
fn test_dma_abort() {
    let mut dma = VdpDma::new();

    dma.mode = DmaMode::MemoryToVdp;
    dma.active = true;
    dma.words_remaining = 100;

    dma.abort();

    assert!(!dma.active);
    assert_eq!(dma.mode, DmaMode::Inactive);
    assert_eq!(dma.words_remaining, 0);
}

#[test]
fn test_dma_status() {
    let mut dma = VdpDma::new();

    dma.mode = DmaMode::VramCopy;
    dma.active = true;
    dma.length = 256;
    dma.words_remaining = 128;

    assert!(dma.is_active());
    assert_eq!(dma.mode(), DmaMode::VramCopy);
    assert_eq!(dma.length(), 256);
    assert_eq!(dma.words_remaining(), 128);
    assert_eq!(dma.estimated_cycles_remaining(), 128);
}

#[test]
fn test_dma_execute_memory_to_vram() {
    let mut dma = VdpDma::new();
    let mut vram = Vram::new();
    let mut cram = Cram::new();
    let mut vsram = Vsram::new();

    dma.mode = DmaMode::MemoryToVdp;
    dma.source_addr = 0x1000;
    dma.dest_addr = 0x0000;
    dma.length = 4;
    dma.words_remaining = 4;
    dma.active = true;

    let words = [0x1234u16, 0x5678, 0x9ABC, 0xDEF0];

    for word in words {
        dma.execute_transfer(Some(word), &mut vram, &mut cram, &mut vsram).unwrap();
    }

    assert_eq!(dma.words_remaining, 0);
    assert!(!dma.active);
    assert_eq!(vram.read16(0), 0x1234);
    assert_eq!(vram.read16(2), 0x5678);
    assert_eq!(vram.read16(4), 0x9ABC);
    assert_eq!(vram.read16(6), 0xDEF0);
}

#[test]
fn test_dma_execute_vram_fill() {
    let mut dma = VdpDma::new();
    let mut vram = Vram::new();
    let mut cram = Cram::new();
    let mut vsram = Vsram::new();

    dma.mode = DmaMode::VramFill;
    dma.dest_addr = 0x1000;
    dma.fill_data = 0xABCD;
    dma.length = 8;
    dma.words_remaining = 8;
    dma.active = true;

    dma.execute_transfer(None, &mut vram, &mut cram, &mut vsram).unwrap();

    assert_eq!(vram.read16(0x1000), 0xABCD);
    assert_eq!(dma.words_remaining, 7);
}

fn armed_registers(r23: u8, length: u16) -> VdpRegisters {
    let mut regs = VdpRegisters::new();
    regs.set(1, 0x10);
    regs.set(0x15, 0x35);
    regs.set(0x16, 0x12);
    regs.set(0x17, r23);
    regs.set_dma_length(length);
    regs
}

#[test]
fn dma_setup_reads_the_registers() {
    let mut dma = VdpDma::new();
    let regs = armed_registers(0x01, 0x0100);
    assert!(dma.setup_from_registers(&regs, 0x0020));
    assert_eq!(dma.mode, DmaMode::MemoryToVdp);
    assert_eq!(dma.source_addr, 0x011234);
    assert_eq!(dma.dest_addr, 0x0020);
    assert_eq!(dma.length, 0x0100);
    assert_eq!(dma.words_remaining, 0x0100);
    assert!(dma.active);
    assert_eq!(dma.current_source_addr(), 0x011234);
    assert_eq!(dma.current_dest_addr(), 0x0020);

    let regs = armed_registers(0x40, 0x0080);
    let mut dma = VdpDma::new();
    assert!(dma.setup_from_registers(&regs, 0x0100));
    assert_eq!(dma.mode, DmaMode::VramFill);
    assert_eq!(dma.fill_data, 0x3535);
    assert_eq!(dma.length, 0x0080);
    assert_eq!(dma.current_source_addr(), 0);

    let regs = armed_registers(0x81, 0x0040);
    let mut dma = VdpDma::new();
    assert!(dma.setup_from_registers(&regs, 0x2000));
    assert_eq!(dma.mode, DmaMode::VramCopy);
    assert_eq!(dma.copy_source, 0x011234);
    assert_eq!(dma.current_source_addr(), 0x011234);

    let regs = armed_registers(0xC0, 5);
    let mut dma = VdpDma::new();
    assert!(!dma.setup_from_registers(&regs, 0));
    assert!(!dma.active);

    let mut regs = VdpRegisters::new();
    regs.set(0x17, 0x40);
    regs.set_dma_length(5);
    let mut dma = VdpDma::new();
    assert!(!dma.setup_from_registers(&regs, 0));
    assert_eq!(dma.mode, DmaMode::Inactive);
}

#[test]
fn dma_word_count_five_ticks() {
    let regs = armed_registers(0x00, 5);
    for ticks in 0..=5u16 {
        let mut dma = VdpDma::new();
        let mut vram = Vram::new();
        let mut cram = Cram::new();
        let mut vsram = Vsram::new();
        assert!(dma.setup_from_registers(&regs, 0));
        for t in 0..ticks {
            assert_eq!(dma.source_request(), Some(0x1234 + 2 * t as u32));
            let done = dma.tick(Some(0x1000 + t), &mut vram, &mut cram, &mut vsram).unwrap();
            assert_eq!(done, t == 4);
        }
        assert_eq!(dma.words_remaining(), 5 - ticks);
        assert_eq!(dma.is_active(), ticks < 5);
        if ticks == 5 {
            assert_eq!(dma.mode(), DmaMode::Inactive);
            assert_eq!(dma.source_request(), None);
            assert_eq!(vram.read16(8), 0x1004);
            assert_eq!(vram.read16(10), 0);
        }
    }
}

#[test]
fn dma_missing_source_word_is_an_error() {
    let regs = armed_registers(0x00, 3);
    let mut dma = VdpDma::new();
    let mut vram = Vram::new();
    let mut cram = Cram::new();
    let mut vsram = Vsram::new();
    dma.setup_from_registers(&regs, 0);
    let before = dma;
    let result = dma.tick(None, &mut vram, &mut cram, &mut vsram);
    assert_eq!(result, Err(DmaError::SourceReadFailed { address: 0x1234 }));
    assert_eq!(dma.words_remaining, before.words_remaining);
    assert_eq!(dma.source_addr, before.source_addr);
    assert_eq!(dma.dest_addr, before.dest_addr);
    assert!(dma.active);
    assert_eq!(vram.read16(0), 0);
    assert_eq!(
        dma.execute_transfer(None, &mut vram, &mut cram, &mut vsram),
        Err(DmaError::SourceReadFailed { address: 0x1234 })
    );
}

#[test]
fn dma_destination_kind_by_top_bits() {
    let mut vram = Vram::new();
    let mut cram = Cram::new();
    let mut vsram = Vsram::new();

    let mut dma = VdpDma::new();
    dma.mode = DmaMode::MemoryToVdp;
    dma.active = true;
    dma.words_remaining = 2;
    dma.dest_addr = 0x4000 + 140;
    dma.tick(Some(0xFFFF), &mut vram, &mut cram, &mut vsram).unwrap();
    assert_eq!(cram.data[6], 0x0EEE);
    assert_eq!(dma.dest_addr, 0x4000 + 142);

    let mut dma = VdpDma::new();
    dma.mode = DmaMode::MemoryToVdp;
    dma.active = true;
    dma.words_remaining = 2;
    dma.dest_addr = 0x8000 + 90;
    dma.tick(Some(0x1357), &mut vram, &mut cram, &mut vsram).unwrap();
    assert_eq!(vsram.data[5], 0x1357);

    let mut dma = VdpDma::new();
    dma.mode = DmaMode::MemoryToVdp;
    dma.active = true;
    dma.words_remaining = 2;
    dma.dest_addr = 0xC000;
    dma.tick(Some(0x2468), &mut vram, &mut cram, &mut vsram).unwrap();
    assert_eq!(vram.read16(0xC000), 0x2468);

    let mut dma = VdpDma::new();
    dma.mode = DmaMode::VramFill;
    dma.fill_data = 0x9999;
    dma.active = true;
    dma.words_remaining = 2;
    dma.dest_addr = 0x4000;
    dma.tick(None, &mut vram, &mut cram, &mut vsram).unwrap();
    assert_eq!(cram.data[0], 0);
    assert_eq!(vram.read16(0x4000), 0);
    assert_eq!(dma.words_remaining, 1);
}

#[test]
fn dma_copy_and_address_wrap() {
    let mut vram = Vram::new();
    let mut cram = Cram::new();
    let mut vsram = Vsram::new();
    vram.write16(0x0100, 0xCAFE);
    vram.write16(0x0102, 0xF00D);
    let mut dma = VdpDma::new();
    dma.mode = DmaMode::VramCopy;
    dma.copy_source = 0x0100;
    dma.dest_addr = 0x3FFE;
    dma.active = true;
    dma.words_remaining = 2;
    assert_eq!(dma.source_request(), None);
    assert_eq!(dma.tick(None, &mut vram, &mut cram, &mut vsram), Ok(false));
    assert_eq!(vram.read16(0x3FFE), 0xCAFE);
    assert_eq!(dma.dest_addr, 0x4000);
    assert_eq!(dma.copy_source, 0x0102);
    assert_eq!(dma.tick(None, &mut vram, &mut cram, &mut vsram), Ok(true));
    assert_eq!(vram.read16(0x4000), 0xF00D);
    assert_eq!(vram.read16(0x0000), 0);
    assert_eq!(dma.dest_addr, 0x4002);
    assert!(!dma.is_active());
    assert_eq!(dma.tick(None, &mut vram, &mut cram, &mut vsram), Ok(true));

    let mut dma = VdpDma::new();
    dma.mode = DmaMode::MemoryToVdp;
    dma.source_addr = 0x7F_FFFE;
    dma.active = true;
    dma.words_remaining = 3;
    dma.tick(Some(1), &mut vram, &mut cram, &mut vsram).unwrap();
    assert_eq!(dma.source_addr, 0);
}

#[test]
fn dma_destination_runs_from_one_memory_into_the_next() {
    let mut vram = Vram::new();
    let mut cram = Cram::new();
    let mut vsram = Vsram::new();
    let mut dma = VdpDma::new();
    dma.mode = DmaMode::MemoryToVdp;
    dma.source_addr = 0x1000;
    dma.dest_addr = 0x3FFE;
    dma.active = true;
    dma.words_remaining = 2;
    assert_eq!(dma.tick(Some(0x1234), &mut vram, &mut cram, &mut vsram), Ok(false));
    assert_eq!(vram.read16(0x3FFE), 0x1234);
    assert_eq!(dma.dest_addr, 0x4000);
    assert_eq!(dma.source_addr, 0x1002);
    assert_eq!(dma.tick(Some(0x0ACE), &mut vram, &mut cram, &mut vsram), Ok(true));
    assert_eq!(cram.read(0), 0x0ACE);
    assert_eq!(vram.read16(0x0000), 0);
    assert_eq!(vram.read16(0x4000), 0);
    assert_eq!(dma.dest_addr, 0x4002);

    let mut dma = VdpDma::new();
    dma.mode = DmaMode::MemoryToVdp;
    dma.dest_addr = 0x7FFE;
    dma.active = true;
    dma.words_remaining = 2;
    assert_eq!(dma.tick(Some(0x0222), &mut vram, &mut cram, &mut vsram), Ok(false));
    assert_eq!(cram.read(63), 0x0222);
    assert_eq!(dma.dest_addr, 0x8000);
    assert_eq!(dma.tick(Some(0x0155), &mut vram, &mut cram, &mut vsram), Ok(true));
    assert_eq!(vsram.read16(0), 0x0155);

    let mut dma = VdpDma::new();
    dma.mode = DmaMode::VramFill;
    dma.fill_data = 0x7777;
    dma.dest_addr = 0xFFFF_FFFE;
    dma.active = true;
    dma.words_remaining = 2;
    assert_eq!(dma.tick(None, &mut vram, &mut cram, &mut vsram), Ok(false));
    assert_eq!(dma.dest_addr, 0);
    assert_eq!(dma.tick(None, &mut vram, &mut cram, &mut vsram), Ok(true));
    assert_eq!(vram.read16(0), 0x7777);
    assert_eq!(dma.dest_addr, 2);
}

#[test]
fn dma_timing_and_estimate() {
    let mut vram = Vram::new();
    let mut cram = Cram::new();
    let mut vsram = Vsram::new();
    let mut dma = VdpDma::default();
    dma.mode = DmaMode::VramFill;
    dma.active = true;
    dma.words_remaining = 2;
    dma.words_per_cycle = 3;
    dma.cycles_until_transfer = 1;
    assert_eq!(dma.estimated_cycles_remaining(), 7);
    assert_eq!(dma.tick(None, &mut vram, &mut cram, &mut vsram), Ok(false));
    assert_eq!(dma.words_remaining, 2);
    assert_eq!(dma.tick(None, &mut vram, &mut cram, &mut vsram), Ok(false));
    assert_eq!(dma.words_remaining, 1);
    assert_eq!(dma.cycles_until_transfer, 2);
    dma.words_remaining = 0xFFFF;
    dma.words_per_cycle = u32::MAX;
    assert_eq!(dma.estimated_cycles_remaining(), u32::MAX);
}

#[test]
fn test_dma_setup_memory_to_vdp() {
    let mut regs = VdpRegisters::new();
    let mut dma = VdpDma::new();

    regs.set(0x15, 0x34);
    regs.set(0x16, 0x12);
    regs.set(0x17, 0x81);
    regs.set_dma_length(0x0100);

    let vram_addr = 0x0000;

    let result = dma.setup_from_registers(&regs, vram_addr);
    assert!(!result);
    assert_eq!(dma.mode, DmaMode::Inactive);
    assert_eq!(dma.source_addr, 0);
    assert_eq!(dma.length, 0);
    assert_eq!(dma.words_remaining, 0);
    assert!(!dma.active);

    regs.write_reg(1, 0x10);
    let result = dma.setup_from_registers(&regs, vram_addr);
    assert!(result);
    assert_eq!(dma.mode, DmaMode::VramCopy);
    assert_eq!(dma.copy_source, 0x1_1234);
    assert_eq!(dma.length, 0x0100);
    assert_eq!(dma.words_remaining, 0x0100);
    assert!(dma.active);
}

#[test]
fn test_dma_setup_vram_fill() {
    let mut regs = VdpRegisters::new();
    let mut dma = VdpDma::new();

    regs.set(0x15, 0xAB);
    regs.set(0x17, 0xC0);
    regs.set_dma_length(0x0080);

    let vram_addr = 0x4000;

    let result = dma.setup_from_registers(&regs, vram_addr);
    assert!(!result);
    assert_eq!(dma.mode, DmaMode::Inactive);
    assert_eq!(dma.fill_data, 0);
    assert_eq!(dma.length, 0);
    assert!(!dma.active);

    regs.write_reg(1, 0x10);
    assert!(!dma.setup_from_registers(&regs, vram_addr));
    assert!(!dma.active);

    regs.set(0x17, 0x40);
    assert!(dma.setup_from_registers(&regs, vram_addr));
    assert_eq!(dma.mode, DmaMode::VramFill);
    assert_eq!(dma.fill_data, 0xABAB);
    assert_eq!(dma.length, 0x0080);
    assert_eq!(dma.dest_addr, 0x4000);
    assert!(dma.active);
}

#[test]
fn test_dma_setup_vram_copy() {
    let mut regs = VdpRegisters::new();
    let mut dma = VdpDma::new();

    regs.set(0x15, 0x34);
    regs.set(0x16, 0x12);
    regs.set(0x17, 0x40);
    regs.set_dma_length(0x0040);

    let vram_addr = 0x2000;

    let result = dma.setup_from_registers(&regs, vram_addr);
    assert!(!result);
    assert_eq!(dma.mode, DmaMode::Inactive);
    assert_eq!(dma.copy_source, 0);
    assert_eq!(dma.length, 0);
    assert!(!dma.active);

    regs.write_reg(1, 0x10);
    regs.set(0x17, 0x80);
    assert!(dma.setup_from_registers(&regs, vram_addr));
    assert_eq!(dma.mode, DmaMode::VramCopy);
    assert_eq!(dma.copy_source, 0x1234);
    assert_eq!(dma.length, 0x0040);
    assert_eq!(dma.dest_addr, 0x2000);
    assert!(dma.active);
}
