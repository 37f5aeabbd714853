use megastrife::cpu::alu::{Alu, AluFlags, AluOp, AluResult, Size};
use megastrife::cpu::bus::{Bus, BusError, MemoryMappedDevice};
use megastrife::cpu::decoder::{DecodeError, Instruction};
use megastrife::cpu::dma::{DmaController, DmaDirection, DmaError, DmaState};
use megastrife::cpu::registers::{flag_of_name, Flag, Registers, CCR};
use megastrife::cpu::z80::{Z80Write, Z80};
use megastrife::cpu::{CpuState, M68000};

#[test]
fn test_ccr_conversion() {
    let ccr = CCR {
        extend: true,
        negative: false,
        zero: true,
        overflow: false,
        carry: true,
    };
    let val = ccr.to_u16();
    assert_eq!(val, 0b10101);
    let back = CCR::from_u16(val);
    assert_eq!(back.carry, true);
    assert_eq!(back.zero, true);
    assert_eq!(back.extend, true);
}

#[test]
fn test_registers_flags() {
    let mut r = Registers::new();
    r.set_flag("C", true);
    assert!(r.get_flag("C"));
    r.set_flag("Z", true);
    assert!(r.ccr.zero);
}

#[test]
fn test_registers_set_get() {
    let mut r = Registers::new();
    r.set_data(0, 0x12345678);
    assert_eq!(r.get_data(0), 0x12345678);
    r.set_address(7, 0xFF00);
    assert_eq!(r.get_address(7), 0xFF00);
}

#[test]
fn test_decode_add() {
    let opcode = 0x3000;
    let instr = Instruction::decode(opcode).unwrap();
    if let Instruction::Add { size, src, dst } = instr {
        assert_eq!(size, 16);
        assert_eq!(src, 0);
        assert_eq!(dst, 0);
    }
}

#[test]
fn test_execute_add() {
    let mut regs = Registers::new();
    let mut bus = Bus::new(vec![0; 4], 64 * 1024);
    regs.set_data(0, 10);
    regs.set_data(1, 5);
    let instr = Instruction::Add { size: 32, src: 1, dst: 0 };
    instr.execute(&mut regs, &mut bus).unwrap();
    assert_eq!(regs.get_data(0), 15);
    assert!(!regs.get_flag("Z"));
}

#[test]
fn test_bus_rom_read() {
    let rom: Vec<u8> = vec![0x12, 0x34, 0x56, 0x78];
    let mut bus: Bus = Bus::new(rom, 64 * 1024);
    assert_eq!(bus.read8(0x000000).unwrap(), 0x12);
    assert_eq!(bus.read16(0x000000).unwrap(), 0x1234);
}

#[test]
fn test_bus_ram_write() {
    let rom: Vec<u8> = vec![0xFF; 4];
    let mut bus: Bus = Bus::new(rom, 64 * 1024);
    let addr: u32 = 0xFF0000;
    bus.write8(addr, 0xAA).unwrap();
    assert_eq!(bus.read8(addr).unwrap(), 0xAA);
}

#[test]
fn test_bus_invalid_access() {
    let rom: Vec<u8> = vec![0xFF; 4];
    let mut bus: Bus = Bus::new(rom, 64 * 1024);
    assert!(bus.read8(0x200000).is_err());
}

#[test]
fn condition_codes_round_trip_through_every_word() {
    for value in 0u16..32 {
        assert_eq!(CCR::from_u16(value).to_u16(), value);
    }
    assert_eq!(CCR::from_u16(0xFFE0).to_u16(), 0);
    assert_eq!(CCR::from_u16(0x0029).to_u16(), 0x09);
    assert_eq!(CCR::default().to_u16(), 0);
}

#[test]
fn status_word_follows_the_condition_codes() {
    let mut r = Registers::new();
    assert_eq!(r.sr, 0x2700);
    r.set_flag("N", true);
    assert_eq!(r.sr, 0x2708);
    r.set_flag("C", true);
    assert_eq!(r.sr, 0x2709);
    r.set_flag("N", false);
    assert_eq!(r.sr, 0x2701);
    r.sr = 0x271F;
    r.update_ccr_from_sr();
    assert_eq!(r.ccr.to_u16(), 0x1F);
    r.sr = 0x2000;
    r.update_sr_from_ccr();
    assert_eq!(r.sr, 0x201F);
}

#[test]
fn a_name_that_is_no_flag_changes_no_flag() {
    let mut r = Registers::new();
    r.set_flag("Q", true);
    r.set_flag("ZZ", true);
    r.set_flag("", true);
    assert_eq!(r.ccr, CCR::default());
    assert!(!r.get_flag("Q"));
    assert!(!r.get_flag("z"));
    assert_eq!(flag_of_name("X"), Some(Flag::Extend));
    assert_eq!(flag_of_name("N"), Some(Flag::Negative));
    assert_eq!(flag_of_name("Z"), Some(Flag::Zero));
    assert_eq!(flag_of_name("V"), Some(Flag::Overflow));
    assert_eq!(flag_of_name("C"), Some(Flag::Carry));
    assert_eq!(flag_of_name("CX"), None);
}

#[test]
fn operand_sizes_and_masks() {
    assert_eq!(Size::from_bits(8), Some(Size::Byte));
    assert_eq!(Size::from_bits(16), Some(Size::Word));
    assert_eq!(Size::from_bits(32), Some(Size::Long));
    assert_eq!(Size::from_bits(24), None);
    assert_eq!(Size::Word.bit_width(), 16);
    assert_eq!(Size::Byte.mask(), 0xFF);
    assert_eq!(Size::Long.sign_mask(), 0x8000_0000);
    assert_eq!(Size::Long.range(), 0x1_0000_0000);
    assert_eq!(Alu::mask_value(0x1234_5678, Size::Byte), 0x78);
    assert_eq!(Alu::mask_value(0x1234_5678, Size::Word), 0x5678);
    assert_eq!(Alu::mask_value(0x1234_5678, Size::Long), 0x1234_5678);
    assert_eq!(Alu::sign_extend(0x80, Size::Byte), -128);
    assert_eq!(Alu::sign_extend(0x7F, Size::Byte), 127);
    assert_eq!(Alu::sign_extend(0xFFFF, Size::Word), -1);
    assert_eq!(Alu::sign_extend(0x8000_0000, Size::Long), -2147483648);
    assert_eq!(Alu::get_value_info(0x1_80, Size::Byte), (0x80, true, false));
    assert_eq!(Alu::get_value_info(0x100, Size::Byte), (0, false, true));
    assert_eq!(Alu::negate(0), 0);
    assert_eq!(Alu::negate(1), 0xFFFF_FFFF);
    assert_eq!(Alu::negate(0x8000_0000), 0x8000_0000);
}

#[test]
fn sums_give_carry_and_overflow() {
    let wrapped = Alu::add_with_carry(0xFF, 0x01, 0, Size::Byte);
    assert_eq!(
        wrapped,
        AluResult {
            value: 0,
            cycles: 0,
            flags: AluFlags { carry: true, overflow: false, zero: true, negative: false, extend: true },
        }
    );
    let signed = Alu::add_with_carry(0x7F, 0x01, 0, Size::Byte);
    assert_eq!(
        signed,
        AluResult {
            value: 0x80,
            cycles: 0,
            flags: AluFlags { carry: false, overflow: true, zero: false, negative: true, extend: false },
        }
    );
    let with_carry = Alu::add_with_carry(0xFFFF, 0, 1, Size::Word);
    assert_eq!(with_carry.value, 0);
    assert!(with_carry.flags.carry);
    let long = Alu::add_with_carry(0xFFFF_FFFF, 0xFFFF_FFFF, 1, Size::Long);
    assert_eq!(long.value, 0xFFFF_FFFF);
    assert!(long.flags.carry);
    assert!(!long.flags.overflow);
    assert!(long.flags.negative);
}

#[test]
fn unit_operations_on_two_values() {
    let sub = Alu::execute(AluOp::Sub, 5, 3, Size::Byte, false);
    assert_eq!(sub.value, 2);
    assert!(sub.flags.carry);
    assert!(!sub.flags.overflow);
    assert!(!sub.flags.zero);
    let same = Alu::execute(AluOp::Sub, 7, 7, Size::Word, false);
    assert_eq!(same.value, 0);
    assert!(same.flags.zero);
    let none = Alu::execute(AluOp::Sub, 7, 0, Size::Word, false);
    assert_eq!(none.value, 7);
    assert!(!none.flags.carry);
    let and = Alu::execute(AluOp::And, 0xF0F0, 0x3C3C, Size::Word, true);
    assert_eq!(and.value, 0x3030);
    assert_eq!(
        and.flags,
        AluFlags { carry: false, overflow: false, zero: false, negative: false, extend: true }
    );
    assert_eq!(Alu::execute(AluOp::Or, 0xF0, 0x0F, Size::Byte, false).value, 0xFF);
    assert!(Alu::execute(AluOp::Or, 0xF0, 0x0F, Size::Byte, false).flags.negative);
    assert_eq!(Alu::execute(AluOp::Xor, 0xFF, 0xFF, Size::Byte, false).value, 0);
    assert!(Alu::execute(AluOp::Xor, 0xFF, 0xFF, Size::Byte, false).flags.zero);
    assert_eq!(Alu::execute(AluOp::Not, 0x1234_00FF, 0, Size::Byte, false).value, 0);
    assert_eq!(Alu::execute(AluOp::Not, 0, 0, Size::Long, false).value, 0xFFFF_FFFF);
    assert_eq!(Alu::execute(AluOp::Add, 0x1FF, 0x101, Size::Byte, false).value, 0);
    assert!(Alu::execute(AluOp::Add, 0x1FF, 0x101, Size::Byte, false).flags.zero);
    assert_eq!(Alu::logic(0x8001, Size::Word, false).value, 0x8001);
    let _ = Alu::new();
}

#[test]
fn every_operation_field_decodes() {
    let word = |major: u16| (major << 12) | (3 << 9) | (2 << 6) | 5;
    assert_eq!(Instruction::decode(word(0)), Ok(Instruction::Or { size: 32, src: 3, dst: 5 }));
    assert_eq!(Instruction::decode(word(1)), Ok(Instruction::And { size: 32, src: 3, dst: 5 }));
    assert_eq!(Instruction::decode(word(2)), Ok(Instruction::Sub { size: 32, src: 3, dst: 5 }));
    assert_eq!(Instruction::decode(word(3)), Ok(Instruction::Add { size: 32, src: 3, dst: 5 }));
    assert_eq!(Instruction::decode(word(4)), Ok(Instruction::Eor { size: 32, src: 3, dst: 5 }));
    assert_eq!(Instruction::decode(word(5)), Ok(Instruction::Not { size: 32, reg: 5 }));
    assert_eq!(Instruction::decode(word(6)), Ok(Instruction::Clr { size: 32, reg: 5 }));
    assert_eq!(Instruction::decode(word(7)), Ok(Instruction::Cmp { size: 32, src: 3, dst: 5 }));
    assert_eq!(Instruction::decode(word(8)), Ok(Instruction::Move { size: 32, src: 3, dst: 5 }));
    for major in 9u16..16 {
        assert_eq!(Instruction::decode(word(major)), Err(DecodeError::UnknownOpcode(word(major))));
    }
    assert_eq!(Instruction::decode(0x3040), Ok(Instruction::Add { size: 16, src: 0, dst: 0 }));
    assert_eq!(Instruction::decode(0x30C7), Ok(Instruction::Add { size: 16, src: 0, dst: 7 }));
    let add = Instruction::Add { size: 16, src: 2, dst: 4 };
    assert_eq!((add.size(), add.origin(), add.destination()), (16, 2, 4));
    let not = Instruction::Not { size: 8, reg: 6 };
    assert_eq!((not.size(), not.origin(), not.destination()), (8, 6, 6));
}

#[test]
fn operations_change_registers_and_flags() {
    let mut bus = Bus::new(vec![0; 4], 16);
    let mut regs = Registers::new();
    regs.set_data(1, 0x8000);
    Instruction::Move { size: 16, src: 1, dst: 2 }.execute(&mut regs, &mut bus).unwrap();
    assert_eq!(regs.get_data(2), 0x8000);
    assert!(regs.get_flag("N"));
    assert!(!regs.get_flag("Z"));

    regs.set_data(3, 0x0F);
    regs.set_data(4, 0xF5);
    Instruction::And { size: 8, src: 3, dst: 4 }.execute(&mut regs, &mut bus).unwrap();
    assert_eq!(regs.get_data(4), 0x05);
    Instruction::Or { size: 8, src: 3, dst: 4 }.execute(&mut regs, &mut bus).unwrap();
    assert_eq!(regs.get_data(4), 0x0F);
    Instruction::Eor { size: 8, src: 3, dst: 4 }.execute(&mut regs, &mut bus).unwrap();
    assert_eq!(regs.get_data(4), 0);
    assert!(regs.get_flag("Z"));
    Instruction::Not { size: 16, reg: 4 }.execute(&mut regs, &mut bus).unwrap();
    assert_eq!(regs.get_data(4), 0xFFFF);
    assert!(regs.get_flag("N"));

    regs.set_data(5, 9);
    regs.set_data(6, 9);
    Instruction::Cmp { size: 32, src: 5, dst: 6 }.execute(&mut regs, &mut bus).unwrap();
    assert_eq!(regs.get_data(6), 9);
    assert!(regs.get_flag("Z"));
    Instruction::Sub { size: 32, src: 5, dst: 6 }.execute(&mut regs, &mut bus).unwrap();
    assert_eq!(regs.get_data(6), 0);

    regs.set_data(7, 0xDEAD_BEEF);
    regs.set_flag("X", true);
    Instruction::Clr { size: 32, reg: 7 }.execute(&mut regs, &mut bus).unwrap();
    assert_eq!(regs.get_data(7), 0);
    assert_eq!(
        regs.ccr,
        CCR { extend: false, negative: false, zero: true, overflow: false, carry: false }
    );
    assert_eq!(regs.sr & 0x0F, 0x04);
}

#[test]
fn a_size_the_unit_does_not_take_is_reported() {
    let mut bus = Bus::new(vec![0; 4], 16);
    let mut regs = Registers::new();
    regs.set_data(0, 1);
    regs.set_data(1, 2);
    let odd = Instruction::Add { size: 24, src: 1, dst: 0 };
    assert_eq!(odd.execute(&mut regs, &mut bus), Err(DecodeError::UnknownOpcode(0xFFFF)));
    assert_eq!(regs.get_data(0), 1);
    assert_eq!(regs.sr, 0x2700);
}

#[test]
fn bus_words_are_big_endian() {
    let mut bus = Bus::new(vec![0x12, 0x34, 0x56, 0x78], 8);
    assert_eq!(bus.read32(0), Ok(0x1234_5678));
    assert_eq!(bus.read16(2), Ok(0x5678));
    assert_eq!(bus.read16(3), Err(BusError::InvalidRead(4)));
    assert_eq!(bus.read32(2), Err(BusError::InvalidRead(4)));
    assert_eq!(bus.write32(0xFF_0000, 0xCAFE_F00D), Ok(()));
    assert_eq!(bus.ram[0..4], [0xCA, 0xFE, 0xF0, 0x0D]);
    assert_eq!(bus.read16(0xFF_0002), Ok(0xF00D));
    assert_eq!(bus.write16(0xFF_0006, 0xBEEF), Ok(()));
    assert_eq!(bus.read32(0xFF_0004), Ok(0x0000_BEEF));
}

#[test]
fn bus_writes_stop_at_the_first_byte_outside() {
    let mut bus = Bus::new(vec![0; 4], 4);
    assert_eq!(bus.write8(0, 1), Err(BusError::InvalidWrite(0)));
    assert_eq!(bus.write16(0xFF_0003, 0xA1B2), Err(BusError::InvalidWrite(0xFF_0004)));
    assert_eq!(bus.ram, vec![0, 0, 0, 0xA1]);
    assert_eq!(bus.write32(0xFF_0002, 0x0102_0304), Err(BusError::InvalidWrite(0xFF_0004)));
    assert_eq!(bus.ram, vec![0, 0, 1, 2]);
    assert_eq!(bus.write16(0xFE_FFFF, 0x7788), Err(BusError::InvalidWrite(0xFE_FFFF)));
    assert_eq!(bus.ram, vec![0, 0, 1, 2]);
    assert_eq!(bus.read8(0xFF_0004), Err(BusError::InvalidRead(0xFF_0004)));
    assert_eq!(bus.read8(u32::MAX), Err(BusError::InvalidRead(u32::MAX)));
}

#[test]
fn block_copy_moves_one_byte_a_tick() {
    let mut bus68k = Bus::new(vec![1, 2, 3, 4, 5], 16);
    let mut bus_z80 = Bus::new(vec![0; 2], 16);
    let mut dma = DmaController::new();
    assert!(!dma.is_busy());
    assert_eq!(dma.tick(&mut bus68k, &mut bus_z80), Ok(()));
    assert_eq!(dma.state, DmaState::Idle);

    dma.start_transfer(1, 0xFF_0004, 3, DmaDirection::From68kToZ80);
    assert!(dma.is_busy());
    assert_eq!(dma.tick(&mut bus68k, &mut bus_z80), Ok(()));
    assert_eq!(dma.bytes_transferred, 1);
    assert_eq!(dma.source_addr, 2);
    assert_eq!(dma.dest_addr, 0xFF_0005);
    assert!(dma.is_busy());
    assert_eq!(dma.tick(&mut bus68k, &mut bus_z80), Ok(()));
    assert_eq!(dma.tick(&mut bus68k, &mut bus_z80), Ok(()));
    assert_eq!(dma.state, DmaState::Completed);
    assert_eq!(dma.bytes_transferred, 3);
    assert_eq!(bus_z80.ram[4..7], [2, 3, 4]);
    assert_eq!(bus68k.ram, vec![0; 16]);
    assert_eq!(dma.tick(&mut bus68k, &mut bus_z80), Ok(()));
    assert_eq!(dma.bytes_transferred, 3);

    bus_z80.write8(0xFF_0000, 0x5A).unwrap();
    dma.start_transfer(0xFF_0000, 0xFF_000F, 1, DmaDirection::FromZ80To68k);
    assert_eq!(dma.tick(&mut bus68k, &mut bus_z80), Ok(()));
    assert_eq!(bus68k.ram[15], 0x5A);
    assert_eq!(dma.state, DmaState::Completed);

    dma.reset();
    assert_eq!(dma, DmaController::new());
}

#[test]
fn block_copy_stops_where_a_bus_refuses() {
    let mut bus68k = Bus::new(vec![1, 2, 3], 16);
    let mut bus_z80 = Bus::new(vec![0; 5], 16);
    let mut dma = DmaController::new();
    dma.start_transfer(0, 0, 3, DmaDirection::From68kToZ80);
    assert_eq!(
        dma.tick(&mut bus68k, &mut bus_z80),
        Err(DmaError::Bus(BusError::InvalidWrite(0)))
    );
    assert_eq!(dma.bytes_transferred, 0);
    assert_eq!(dma.state, DmaState::Busy);
    dma.start_transfer(0x10, 0xFF_0000, 3, DmaDirection::From68kToZ80);
    assert_eq!(
        dma.tick(&mut bus68k, &mut bus_z80),
        Err(DmaError::Bus(BusError::InvalidRead(0x10)))
    );
    assert_eq!(bus_z80.ram, vec![0; 16]);
    dma.start_transfer(0, 0xFF_0000, 0, DmaDirection::From68kToZ80);
    assert_eq!(dma.tick(&mut bus68k, &mut bus_z80), Ok(()));
    assert_eq!(dma.state, DmaState::Completed);
    assert_eq!(bus_z80.ram, vec![0; 16]);
}

#[test]
fn processor_steps_on_the_word_it_is_given() {
    let mut cpu = M68000::new();
    assert_eq!(cpu.fetch_address(), Some(0));
    cpu.reset(0x200, 0xFF_FFFE);
    assert_eq!(cpu.regs.pc, 0x200);
    assert_eq!(cpu.regs.get_address(7), 0xFF_FFFE);
    assert_eq!(cpu.fetch_address(), Some(0x200));
    cpu.regs.set_data(0, 10);
    cpu.regs.set_data(1, 5);
    assert_eq!(cpu.step(Some(0x3280)), Ok(8));
    assert_eq!(cpu.regs.get_data(0), 15);
    assert_eq!(cpu.regs.pc, 0x202);
    assert_eq!(cpu.cycles, 8);
    assert_eq!(cpu.last_opcode, 0x3280);

    assert_eq!(cpu.step(Some(0x9000)), Err(DecodeError::UnknownOpcode(0x9000)));
    assert_eq!(cpu.regs.pc, 0x204);
    assert_eq!(cpu.cycles, 8);
    assert_eq!(cpu.last_opcode, 0x9000);

    assert_eq!(cpu.step(None), Err(DecodeError::InvalidAddress(0x204)));
    assert_eq!(cpu.regs.pc, 0x204);

    cpu.state = CpuState::Halted;
    assert_eq!(cpu.fetch_address(), None);
    assert_eq!(cpu.step(Some(0x3280)), Ok(4));
    assert_eq!(cpu.regs.get_data(0), 15);
    assert_eq!(cpu.cycles, 8);

    cpu.state = CpuState::Running;
    cpu.regs.pc = 0xFFFF_FFFE;
    assert_eq!(cpu.step(Some(0x6000)), Ok(8));
    assert_eq!(cpu.regs.pc, 0);
    assert_eq!(cpu.regs.get_data(0), 0);
}

fn flags(carry: bool, overflow: bool, zero: bool, negative: bool, extend: bool) -> AluFlags {
    AluFlags { carry, overflow, zero, negative, extend }
}

#[test]
fn products_and_their_cycles() {
    assert_eq!(Alu::count_ones(0), 0);
    assert_eq!(Alu::count_ones(0x8000_0001), 2);
    assert_eq!(Alu::count_ones(0xFFFF_FFFF), 32);
    assert_eq!(
        Alu::mulu(3, 5, false),
        AluResult { value: 15, cycles: 42, flags: flags(false, false, false, false, false) }
    );
    assert_eq!(
        Alu::mulu(0xFFFF, 0xFFFF, true),
        AluResult { value: 0xFFFE_0001, cycles: 70, flags: flags(false, false, false, true, true) }
    );
    assert_eq!(
        Alu::mulu(0, 9, false),
        AluResult { value: 0, cycles: 38, flags: flags(false, false, true, false, false) }
    );
    assert_eq!(
        Alu::muls(0xFFFF, 2, false),
        AluResult { value: 0xFFFF_FFFE, cycles: 72, flags: flags(false, false, false, true, false) }
    );
    assert_eq!(
        Alu::muls(0x8000, 0x8000, false),
        AluResult { value: 0x4000_0000, cycles: 42, flags: flags(false, false, false, false, false) }
    );
    assert_eq!(Alu::muls(0x8000, 0x7FFF, false).value, 0xC000_8000);
    assert_eq!(Alu::muls(0xFFFF, 0, false).value, 0);
    assert!(Alu::muls(0xFFFF, 0, false).flags.zero);
}

#[test]
fn quotients_and_remainders() {
    assert_eq!(Alu::divu(0, 100, false), None);
    assert_eq!(Alu::divs(0, 100, false), None);
    assert_eq!(
        Alu::divu(7, 100, false),
        Some(AluResult { value: 0x0002_000E, cycles: 142, flags: flags(false, false, false, false, false) })
    );
    assert_eq!(
        Alu::divu(1, 0x1234_5678, true),
        Some(AluResult { value: 0x0000_5678, cycles: 162, flags: flags(false, false, false, false, true) })
    );
    assert_eq!(Alu::divu(2, 0x0001_0000, false).map(|r| (r.value, r.flags.negative)), Some((0x8000, true)));
    assert_eq!(Alu::divu(9, 4, false).map(|r| (r.value, r.flags.zero)), Some((0x0004_0000, true)));
    assert_eq!(
        Alu::divs(0xFFFE, 7, false),
        Some(AluResult { value: 0x0001_FFFD, cycles: 144, flags: flags(false, false, false, true, false) })
    );
    assert_eq!(
        Alu::divs(3, 0xFFFF_FFF9, false),
        Some(AluResult { value: 0xFFFF_FFFE, cycles: 142, flags: flags(false, false, false, true, false) })
    );
    assert_eq!(Alu::divs(0xFFFD, 0xFFFF_FFF9, false).map(|r| r.value), Some(0xFFFF_0002));
    assert_eq!(Alu::divs(4, 13, false).map(|r| r.value), Some(0x0001_0003));
    assert_eq!(Alu::divs(1, 0x8000_0000, false).map(|r| r.value), Some(0));
}

#[test]
fn shifts_move_bits_one_place_at_a_time() {
    let clear = AluFlags::default();
    assert_eq!(
        Alu::arithmetic_shift(0x40, 1, Size::Byte, true, clear),
        AluResult { value: 0x80, cycles: 0, flags: flags(false, false, false, true, false) }
    );
    assert_eq!(
        Alu::arithmetic_shift(0x80, 1, Size::Byte, true, clear),
        AluResult { value: 0, cycles: 0, flags: flags(true, true, true, false, true) }
    );
    assert_eq!(
        Alu::arithmetic_shift(0x81, 2, Size::Byte, false, clear),
        AluResult { value: 0xE0, cycles: 4, flags: flags(false, false, false, true, false) }
    );
    assert_eq!(
        Alu::logical_shift(0x81, 1, Size::Byte, false, clear),
        AluResult { value: 0x40, cycles: 0, flags: flags(true, false, false, false, true) }
    );
    assert_eq!(
        Alu::logical_shift(0x4000, 1, Size::Word, true, clear),
        AluResult { value: 0x8000, cycles: 0, flags: flags(false, true, false, true, false) }
    );
    assert_eq!(Alu::logical_shift(1, 31, Size::Long, true, clear).value, 0x8000_0000);
    assert_eq!(Alu::logical_shift(1, 31, Size::Long, true, clear).cycles, 62);
    assert_eq!(Alu::logical_shift(0xFFFF_FFFF, 33, Size::Long, false, clear).value, 0);
    assert_eq!(Alu::logical_shift(0x12_34, 4, Size::Byte, true, clear).value, 0x40);

    let set = flags(true, true, false, false, false);
    assert_eq!(
        Alu::arithmetic_shift(0x1FF, 64, Size::Byte, true, set),
        AluResult { value: 0xFF, cycles: 0, flags: flags(true, false, false, true, false) }
    );
    assert_eq!(Alu::arithmetic_shift(0x01, 65, Size::Byte, true, set).value, 0x02);
}

#[test]
fn rotations_bring_the_carry_in() {
    let carry = flags(true, false, false, false, false);
    let clear = AluFlags::default();
    assert_eq!(
        Alu::rotate(0x80, 1, Size::Byte, true, carry),
        AluResult { value: 0x01, cycles: 0, flags: flags(true, false, false, false, false) }
    );
    assert_eq!(
        Alu::rotate(0x01, 2, Size::Byte, false, clear),
        AluResult { value: 0, cycles: 4, flags: flags(false, false, true, false, false) }
    );
    assert_eq!(
        Alu::rotate(0x00, 3, Size::Byte, false, carry),
        AluResult { value: 0xE0, cycles: 6, flags: flags(false, false, false, true, false) }
    );
    assert_eq!(Alu::rotate(0x0F, 0, Size::Byte, true, carry).value, 0x0F);
    assert!(Alu::rotate(0x0F, 0, Size::Byte, true, carry).flags.carry);
    let extend = flags(false, false, false, false, true);
    assert!(Alu::rotate(0x01, 1, Size::Byte, false, extend).flags.extend);
    assert!(Alu::rotate(0x01, 1, Size::Byte, false, extend).flags.carry);
}

#[test]
fn single_bits_are_tested_and_changed() {
    let before = flags(true, true, false, true, true);
    assert_eq!(
        Alu::btst(3, 0x08, Size::Byte, before),
        AluResult { value: 0x08, cycles: 0, flags: before }
    );
    assert_eq!(Alu::btst(35, 0x08, Size::Byte, before).flags.zero, false);
    assert_eq!(Alu::btst(4, 0x08, Size::Byte, before).flags, flags(true, true, true, true, true));
    assert_eq!(Alu::bset(0, 0, Size::Byte, before).value, 1);
    assert!(Alu::bset(0, 0, Size::Byte, before).flags.zero);
    assert_eq!(Alu::bset(9, 0, Size::Byte, before).value, 0);
    assert_eq!(Alu::bset(9, 0, Size::Word, before).value, 0x200);
    assert_eq!(Alu::bset(31, 0, Size::Long, before).value, 0x8000_0000);
    assert_eq!(Alu::bclr(3, 0x0F, Size::Byte, before).value, 0x07);
    assert!(!Alu::bclr(3, 0x0F, Size::Byte, before).flags.zero);
    assert_eq!(Alu::bchg(7, 0x80, Size::Byte, before).value, 0);
    assert_eq!(Alu::bchg(7, 0x00, Size::Byte, before).value, 0x80);
    assert!(Alu::bchg(7, 0x00, Size::Byte, before).flags.zero);
}

#[test]
fn named_operations_of_the_unit() {
    assert_eq!(Alu::add(0xFF, 1, Size::Byte).value, 0);
    assert!(Alu::add(0xFF, 1, Size::Byte).flags.carry);
    assert_eq!(Alu::addx(0xFF, 0, Size::Byte, true).value, 0);
    assert_eq!(Alu::addx(1, 2, Size::Word, true).value, 4);
    assert_eq!(Alu::addx(1, 2, Size::Word, false).value, 3);
    assert_eq!(Alu::sub(5, 3, Size::Word).value, 2);
    assert_eq!(Alu::sub(3, 5, Size::Word).value, 0xFFFE);
    assert!(Alu::sub(3, 5, Size::Word).flags.negative);
    assert_eq!(Alu::subx(5, 3, Size::Byte, true).value, 3);
    assert_eq!(Alu::subx(5, 3, Size::Byte, false).value, 2);
    assert_eq!(
        Alu::neg(1, Size::Byte),
        AluResult { value: 0xFF, cycles: 0, flags: flags(true, false, false, true, true) }
    );
    assert_eq!(
        Alu::neg(0, Size::Byte),
        AluResult { value: 0, cycles: 0, flags: flags(false, false, true, false, false) }
    );
    assert_eq!(Alu::negx(0, Size::Byte, true).value, 1);
    assert_eq!(Alu::and(0xFC, 0x3F, Size::Byte, false).value, 0x3C);
    assert_eq!(Alu::or(0xC0, 0x03, Size::Byte, false).value, 0xC3);
    assert_eq!(Alu::xor(0xFF, 0x0F, Size::Byte, false).value, 0xF0);
    assert_eq!(Alu::not(0x0F, Size::Byte, false).value, 0xF0);
    assert!(Alu::cmp(7, 7, Size::Long).flags.zero);
    assert!(!Alu::cmp(8, 7, Size::Long).flags.zero);
    assert!(!Alu::cmpa(0x100, 0, Size::Byte).flags.zero);
    assert!(Alu::cmp(0x100, 0, Size::Byte).flags.zero);
    assert!(Alu::cmpa(0x1_0000, 0, Size::Word).flags.zero);
    assert_eq!(Alu::cmpm(1, 1, Size::Byte).cycles, 2);
    assert!(Alu::cmpm(1, 1, Size::Byte).flags.zero);
    assert_eq!(
        Alu::tst(0x80, Size::Byte, true),
        AluResult { value: 0x80, cycles: 0, flags: flags(false, false, false, true, true) }
    );
    assert_eq!(
        Alu::move_instruction(0x1_0000, Size::Word, false),
        AluResult { value: 0, cycles: 0, flags: flags(false, false, true, false, false) }
    );
}

#[test]
fn sound_processor_ram_and_generator_address() {
    let mut z80 = Z80::new();
    assert_eq!(z80.ram.len(), 0x2000);
    assert_eq!((z80.pc, z80.sp, z80.halted, z80.bus_taken), (0, 0x1FFF, false, false));
    assert_eq!(z80.tick(), 15);
    assert_eq!(z80.write_byte(0x0010, 0xAA), Z80Write::Ram);
    assert_eq!(z80.read_byte(0x0010), 0xAA);
    assert_eq!(z80.read_byte(0x2010), 0xAA);
    assert_eq!(z80.read_byte(0xE010), 0xAA);
    assert_eq!(z80.write_byte(0x3FFF, 0xBB), Z80Write::Ram);
    assert_eq!(z80.ram[0x1FFF], 0xBB);
    assert_eq!(z80.write_byte(0x7F11, 0x9F), Z80Write::Psg(0x9F));
    assert_eq!(z80.read_byte(0x7F11), 0);
    assert_eq!(z80.ram.iter().filter(|&&b| b != 0).count(), 2);
    assert!(z80.is_well_formed());
    z80.ram.clear();
    assert!(!z80.is_well_formed());
}

fn fill_through<D: MemoryMappedDevice>(device: &mut D, addr: u32) -> Result<u16, BusError> {
    device.write8(addr, 0x12)?;
    device.write16(addr + 1, 0x3456)?;
    assert_eq!(device.read8(addr)?, 0x12);
    device.read16(addr + 1)
}

#[test]
fn bus_answers_as_a_device() {
    let mut bus = Bus::new(vec![9, 8, 7], 8);
    assert!(bus.is_well_formed());
    assert_eq!(fill_through(&mut bus, 0xFF_0002), Ok(0x3456));
    assert_eq!(bus.ram, vec![0, 0, 0x12, 0x34, 0x56, 0, 0, 0]);
    assert_eq!(fill_through(&mut bus, 0), Err(BusError::InvalidWrite(0)));
    assert_eq!(fill_through(&mut bus, 0xFF_0007), Err(BusError::InvalidWrite(0xFF_0008)));
    assert_eq!(bus.ram[7], 0x12);
    bus.ram.pop();
    assert!(!bus.is_well_formed());
    bus.ram.push(0);
    bus.ram_base = u32::MAX - 4;
    assert!(!bus.is_well_formed());
}

#[test]
fn test_dma_transfer_68k_to_z80() {
    let mut bus68k = Bus::new(vec![1, 2, 3, 4, 5], 64 * 1024);
    let mut bus_z80 = Bus::new(vec![0; 5], 64 * 1024);
    let mut dma = DmaController::new();

    dma.start_transfer(0x000000, 0x000000, 5, DmaDirection::From68kToZ80);
    assert!(dma.is_busy());
    assert_eq!(
        dma.tick(&mut bus68k, &mut bus_z80),
        Err(DmaError::Bus(BusError::InvalidWrite(0)))
    );
    assert!(dma.is_busy());
    assert_eq!(dma.bytes_transferred, 0);

    for i in 0..5 {
        assert_eq!(bus_z80.read8(i as u32).unwrap(), 0);
    }

    dma.start_transfer(0x000000, 0xFF0000, 5, DmaDirection::From68kToZ80);
    while dma.is_busy() {
        dma.tick(&mut bus68k, &mut bus_z80).unwrap();
    }

    for i in 0..5 {
        assert_eq!(bus_z80.read8(0xFF0000 + i as u32).unwrap(), (i + 1) as u8);
    }
}
