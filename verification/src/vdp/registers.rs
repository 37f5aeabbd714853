//! Control registers and the two ports through which the host reaches the
//! processor: the control port, which takes register writes and two-word
//! address commands, and the data port, whose writes wait in a four-entry
//! FIFO until they are drained into the addressed memory.
//!
//! The state machine is stated over a view of the registers,
//! [`RegistersView`], and every operation is a function from view to view.

use vstd::prelude::*;
use crate::text::{
    bool_text, decimal, fixed_digits, labelled_bool, labelled_number, labelled_text, push_decimal,
    push_fixed, text_of,
};

verus! {

/// Number of control registers.
pub const REGISTER_COUNT: usize = 24;

/// Entries the command FIFO can hold.
pub const FIFO_CAPACITY: usize = 4;

/// Address step after reset.
pub const DEFAULT_AUTO_INCREMENT: u8 = 2;

/// Register 0: horizontal-blank interrupt enable.
pub const R0_HBLANK_ENABLE: u8 = 0x10;

/// Register 0: line interrupt enable.
pub const R0_LINE_ENABLE: u8 = 0x04;

/// Register 1: display enable.
pub const R1_DISPLAY_ENABLE: u8 = 0x40;

/// Register 1: vertical-blank interrupt enable.
pub const R1_VBLANK_ENABLE: u8 = 0x20;

/// Register 1: DMA enable.
pub const R1_DMA_ENABLE: u8 = 0x10;

/// Register 6: horizontal scroll per row instead of per plane.
pub const R6_ROW_SCROLL: u8 = 0x01;

/// Control word: the code byte marks a register write.
pub const CODE_REGISTER_WRITE: u8 = 0x80;

/// Control word: the code byte asks for reading.
pub const CODE_READ: u8 = 0x40;

/// Whether `mask` has a bit in common with `value`.
pub open spec fn has_bit(value: u8, mask: u8) -> bool {
    value & mask != 0
}

/// Tests whether `mask` has a bit in common with `value`.
pub fn test_bit(value: u8, mask: u8) -> (b: bool)
    ensures
        b == has_bit(value, mask),
{
    value & mask != 0
}

/// The status flags the host reads from the control port.
#[derive(Clone, Copy, Debug, PartialEq, Eq, Structural)]
pub struct VdpStatus {
    pub bits: u8,
}

impl VdpStatus {
    /// Vertical blanking has begun.
    pub const VBLANK: u8 = 0x80;

    /// Horizontal blanking has begun.
    pub const HBLANK: u8 = 0x40;

    /// A DMA transfer is running.
    pub const DMA_ACTIVE: u8 = 0x20;

    /// The FIFO is full.
    pub const FIFO_FULL: u8 = 0x10;

    /// The FIFO is empty.
    pub const FIFO_EMPTY: u8 = 0x08;

    /// The programmable line interrupt has fired.
    pub const LINE_IRQ: u8 = 0x04;

    /// The line interrupt flag under its other name.
    pub const SCANLINE_IRQ: u8 = 0x04;

    /// The DMA flag under its other name.
    pub const DMA_IN_PROGRESS: u8 = 0x20;

    /// More sprites than a line can show.
    pub const SPRITE_OVERFLOW: u8 = 0x02;

    /// Two sprites overlap.
    pub const SPRITE_COLLISION: u8 = 0x01;

    /// The flags a read of the status clears.
    pub const CLEARED_ON_READ: u8 = 0xC4;

    /// The two FIFO flags.
    pub const FIFO_FLAGS: u8 = 0x18;

    /// No flag set.
    pub fn empty() -> (s: VdpStatus)
        ensures
            s.bits == 0,
    {
        VdpStatus { bits: 0 }
    }

    /// The flags as a byte.
    pub fn bits(&self) -> (b: u8)
        ensures
            b == self.bits,
    {
        self.bits
    }

    /// Whether every flag of `flags` is set.
    pub fn contains(&self, flags: u8) -> (b: bool)
        ensures
            b == (self.bits & flags == flags),
    {
        self.bits & flags == flags
    }

    /// Sets the flags of `flags`.
    pub fn insert(&mut self, flags: u8)
        ensures
            final(self).bits == old(self).bits | flags,
    {
        self.bits = self.bits | flags;
    }

    /// Clears the flags of `flags`.
    pub fn remove(&mut self, flags: u8)
        ensures
            final(self).bits == old(self).bits & !flags,
    {
        self.bits = self.bits & !flags;
    }

    /// Sets or clears the flags of `flags`.
    pub fn set(&mut self, flags: u8, on: bool)
        ensures
            final(self).bits == with_flag(old(self).bits, flags, on),
    {
        if on {
            self.bits = self.bits | flags;
        } else {
            self.bits = self.bits & !flags;
        }
    }
}

/// `bits` with the flags of `flags` set or cleared.
pub open spec fn with_flag(bits: u8, flags: u8, on: bool) -> u8 {
    if on {
        bits | flags
    } else {
        bits & !flags
    }
}

/// A set flag is contained, a cleared flag is not, and the flags outside
/// `flags` stay as they were.
pub proof fn lemma_with_flag(bits: u8, flags: u8, on: bool)
    ensures
        on ==> with_flag(bits, flags, on) & flags == flags,
        !on ==> with_flag(bits, flags, on) & flags == 0,
        forall|other: u8|
            other & flags == 0 ==> #[trigger] (with_flag(bits, flags, on) & other) == bits & other,
{
    assert((bits | flags) & flags == flags) by (bit_vector);
    assert((bits & !flags) & flags == 0) by (bit_vector);
    assert forall|other: u8| other & flags == 0 implies #[trigger] (with_flag(bits, flags, on)
        & other) == bits & other by {
        assert(other & flags == 0 ==> (bits | flags) & other == bits & other) by (bit_vector);
        assert(other & flags == 0 ==> (bits & !flags) & other == bits & other) by (bit_vector);
    }
}

/// The DMA mode the registers select.
#[derive(Debug, Clone, Copy, PartialEq, Eq, Structural)]
pub enum DmaMode {
    /// No transfer.
    Desativado,
    /// From host memory to video memory.
    MemoriaParaVdp,
    /// Fill of video RAM.
    PreenchimentoVram,
    /// Copy inside video RAM.
    CopiaVram,
}

/// The memory a port access goes to.
#[derive(Debug, Clone, Copy, PartialEq, Eq, Structural)]
pub enum VdpAccessType {
    VRAM,
    CRAM,
    VSRAM,
}

/// The address latch: where the next data-port access goes.
#[derive(Debug, Clone, Copy, PartialEq, Eq, Structural)]
pub struct VdpAddress {
    pub addr: u16,
    pub access_type: VdpAccessType,
    pub read_mode: bool,
}

/// Base of plane A that register 2 selects: bits 3 to 5, in steps of 8 KB.
pub open spec fn plane_a_base_of(value: u8) -> u16 {
    (((value as int / 8) % 8) * 0x2000) as u16
}

/// Base of plane B that register 4 selects: bits 0 to 2, in steps of 8 KB.
pub open spec fn plane_b_base_of(value: u8) -> u16 {
    ((value as int % 8) * 0x2000) as u16
}

/// Base of the window that register 3 selects: bits 4 and 5 as the low two
/// bits and bits 1 and 2 above them, in steps of 1 KB.
pub open spec fn window_base_of(value: u8) -> u16 {
    ((((value as int / 16) % 4) + ((value as int / 2) % 4) * 4) * 0x400) as u16
}

/// Base of the sprite table that register 5 selects: bits 0 to 6, in steps of 512 bytes.
pub open spec fn sprite_base_of(value: u8) -> u16 {
    ((value as int % 128) * 0x200) as u16
}

/// Base of the horizontal scroll table that register 13 selects: bits 0 to 3, in steps of 1 KB.
pub open spec fn hscroll_base_of(value: u8) -> u16 {
    ((value as int % 16) * 0x400) as u16
}

/// The DMA mode that registers 1 and 23 select: off unless register 1
/// enables DMA, else by bits 6 and 7 of register 23.
pub open spec fn dma_mode_of(r1: u8, r23: u8) -> DmaMode {
    if !has_bit(r1, R1_DMA_ENABLE) {
        DmaMode::Desativado
    } else if r23 as int / 64 == 0 {
        DmaMode::MemoriaParaVdp
    } else if r23 as int / 64 == 1 {
        DmaMode::PreenchimentoVram
    } else if r23 as int / 64 == 2 {
        DmaMode::CopiaVram
    } else {
        DmaMode::Desativado
    }
}

/// The memory that a code byte selects: bits 4 and 5, the reserved value
/// falling back to video RAM.
pub open spec fn access_type_of(code: u8) -> VdpAccessType {
    if (code as int / 16) % 4 == 1 {
        VdpAccessType::CRAM
    } else if (code as int / 16) % 4 == 2 {
        VdpAccessType::VSRAM
    } else {
        VdpAccessType::VRAM
    }
}

/// The width or height in tiles that a two-bit size code selects; the
/// reserved code falls back to the smallest size.
pub open spec fn plane_dimension_of(code: int) -> u8 {
    if code == 1 {
        64
    } else if code == 2 {
        128
    } else {
        32
    }
}

/// A byte read as an 8-bit two's-complement number.
pub open spec fn signed_byte_of(value: u8) -> int {
    if value < 0x80 {
        value as int
    } else {
        value as int - 0x100
    }
}

/// The address after one step of `step`, kept inside the range of its memory:
/// 14 bits for video RAM, 6 bits for the two small memories.
pub open spec fn stepped_address(address: VdpAddress, step: u8) -> VdpAddress {
    let sum = (address.addr as int + step as int) % 0x1_0000;
    let wrapped = match address.access_type {
        VdpAccessType::VRAM => sum % 0x4000,
        VdpAccessType::CRAM => sum % 0x40,
        VdpAccessType::VSRAM => sum % 0x40,
    };
    VdpAddress { addr: wrapped as u16, access_type: address.access_type, read_mode: address.read_mode }
}

/// A counter after one more event; it starts again at zero after its largest value.
pub open spec fn next_count(count: u64) -> u64 {
    if count == u64::MAX {
        0
    } else {
        (count + 1) as u64
    }
}

/// The status after the FIFO flags were set for a FIFO of `len` entries.
pub open spec fn fifo_status_of(bits: u8, len: int) -> u8 {
    if len == 0 {
        (bits | VdpStatus::FIFO_EMPTY) & !VdpStatus::FIFO_FULL
    } else if len >= FIFO_CAPACITY {
        (bits | VdpStatus::FIFO_FULL) & !VdpStatus::FIFO_EMPTY
    } else {
        bits & !VdpStatus::FIFO_FLAGS
    }
}

/// The registers as mathematical values.
#[verifier::ext_equal]
pub struct RegistersView {
    pub regs: Seq<u8>,
    pub status: u8,
    pub data_buffer: u16,
    pub address_buffer: u16,
    pub current_address: VdpAddress,
    pub code_buffer: u8,
    pub address_latch: bool,
    pub dma_source: u32,
    pub dma_length: u16,
    pub dma_mode: DmaMode,
    pub dma_active: bool,
    pub fifo: Seq<u16>,
    pub fifo_capacity: usize,
    pub auto_increment: u8,
    pub plane_a_addr: u16,
    pub plane_b_addr: u16,
    pub window_addr: u16,
    pub sprite_table_addr: u16,
    pub hscroll_addr: u16,
    pub hblank_interrupt_enabled: bool,
    pub vblank_interrupt_enabled: bool,
    pub line_interrupt_enabled: bool,
    pub mode_40_cell: bool,
    pub interlace_mode: u8,
    pub shadow_highlight: bool,
    pub write_count: u64,
    pub read_count: u64,
}

impl RegistersView {
    /// The state after power-on and after reset.
    pub open spec fn initial() -> RegistersView {
        RegistersView {
            regs: Seq::new(24, |i: int| if i == 15 { 2u8 } else { 0u8 }),
            status: 0,
            data_buffer: 0,
            address_buffer: 0,
            current_address: VdpAddress {
                addr: 0,
                access_type: VdpAccessType::VRAM,
                read_mode: false,
            },
            code_buffer: 0,
            address_latch: false,
            dma_source: 0,
            dma_length: 0,
            dma_mode: DmaMode::Desativado,
            dma_active: false,
            fifo: Seq::empty(),
            fifo_capacity: 4,
            auto_increment: 2,
            plane_a_addr: 0xC000,
            plane_b_addr: 0xE000,
            window_addr: 0xB000,
            sprite_table_addr: 0xF800,
            hscroll_addr: 0xFC00,
            hblank_interrupt_enabled: false,
            vblank_interrupt_enabled: false,
            line_interrupt_enabled: false,
            mode_40_cell: false,
            interlace_mode: 0,
            shadow_highlight: false,
            write_count: 0,
            read_count: 0,
        }
    }

    /// There are 24 registers and the FIFO holds at most its four entries.
    pub open spec fn wf(self) -> bool {
        &&& self.regs.len() == 24
        &&& self.fifo_capacity == FIFO_CAPACITY
        &&& self.fifo.len() <= FIFO_CAPACITY
    }

    /// What follows from register `index` once it holds the new value
    /// `value`: the cached flags, addresses and DMA set-up. `self.regs`
    /// already holds the new value.
    #[verifier::opaque]
    pub open spec fn register_effect(self, index: int, value: u8) -> RegistersView {
        if index == 0 {
            RegistersView {
                hblank_interrupt_enabled: has_bit(value, R0_HBLANK_ENABLE),
                line_interrupt_enabled: has_bit(value, R0_LINE_ENABLE),
                ..self
            }
        } else if index == 1 {
            RegistersView {
                vblank_interrupt_enabled: has_bit(value, R1_VBLANK_ENABLE),
                dma_mode: dma_mode_of(value, self.regs[23]),
                ..self
            }
        } else if index == 2 {
            RegistersView { plane_a_addr: plane_a_base_of(value), ..self }
        } else if index == 3 {
            RegistersView { window_addr: window_base_of(value), ..self }
        } else if index == 4 {
            RegistersView { plane_b_addr: plane_b_base_of(value), ..self }
        } else if index == 5 {
            RegistersView { sprite_table_addr: sprite_base_of(value), ..self }
        } else if index == 12 {
            RegistersView {
                mode_40_cell: value as int % 2 == 1,
                interlace_mode: ((value as int / 2) % 4) as u8,
                shadow_highlight: (value as int / 8) % 2 == 1,
                ..self
            }
        } else if index == 13 {
            RegistersView { hscroll_addr: hscroll_base_of(value), ..self }
        } else if index == 15 {
            RegistersView { auto_increment: value, ..self }
        } else if index == 19 {
            RegistersView {
                dma_length: ((self.dma_length as int / 256) * 256 + value as int) as u16,
                ..self
            }
        } else if index == 20 {
            RegistersView {
                dma_length: (value as int * 256 + self.dma_length as int % 256) as u16,
                ..self
            }
        } else if index == 21 {
            RegistersView {
                dma_source: ((self.dma_source as int / 256) * 256 + value as int) as u32,
                ..self
            }
        } else if index == 22 {
            RegistersView {
                dma_source: ((self.dma_source as int / 0x1_0000) * 0x1_0000 + value as int * 256
                    + self.dma_source as int % 256) as u32,
                ..self
            }
        } else if index == 23 {
            RegistersView {
                dma_source: ((value as int % 128) * 0x1_0000 + self.dma_source as int
                    % 0x1_0000) as u32,
                dma_mode: dma_mode_of(self.regs[1], value),
                ..self
            }
        } else {
            self
        }
    }

    /// Register `index` set to `value`, with what follows from it, whether
    /// or not the value is new. An index of 24 or more changes nothing.
    #[verifier::opaque]
    pub open spec fn set_register(self, index: int, value: u8) -> RegistersView {
        if 0 <= index < 24 {
            (RegistersView { regs: self.regs.update(index, value), ..self }).register_effect(
                index,
                value,
            )
        } else {
            self
        }
    }

    /// A register write by the host: counted unless the index is out of range.
    #[verifier::opaque]
    pub open spec fn write_reg(self, index: int, value: u8) -> RegistersView {
        if 0 <= index < 24 {
            RegistersView { write_count: next_count(self.write_count), ..self }.set_register(
                index,
                value,
            )
        } else {
            self
        }
    }

    /// The FIFO flags brought in line with the FIFO.
    #[verifier::opaque]
    pub open spec fn update_fifo_status(self) -> RegistersView {
        RegistersView { status: fifo_status_of(self.status, self.fifo.len() as int), ..self }
    }

    /// The address latch after one auto-increment step.
    #[verifier::opaque]
    pub open spec fn increment_address(self) -> RegistersView {
        RegistersView {
            current_address: stepped_address(self.current_address, self.auto_increment),
            ..self
        }
    }

    /// One word taken by the register-level DMA bookkeeping: the length
    /// counts down, a memory transfer moves its source on by two, and a
    /// length of zero ends the transfer.
    #[verifier::opaque]
    pub open spec fn dma_write(self, value: u16) -> RegistersView {
        if self.dma_mode == DmaMode::Desativado {
            self
        } else {
            let length = if self.dma_length == 0 {
                0xFFFFu16
            } else {
                (self.dma_length - 1) as u16
            };
            let source = if self.dma_mode == DmaMode::MemoriaParaVdp {
                ((self.dma_source as int + 2) % 0x1_0000_0000) as u32
            } else {
                self.dma_source
            };
            let moved = RegistersView {
                data_buffer: value,
                dma_length: length,
                dma_source: source,
                ..self
            };
            if length == 0 {
                RegistersView {
                    dma_active: false,
                    status: moved.status & !VdpStatus::DMA_ACTIVE,
                    dma_mode: DmaMode::Desativado,
                    ..moved
                }
            } else {
                moved
            }
        }
    }

    /// A data-port write: taken by a running DMA, else queued; a write to a
    /// full FIFO is dropped and leaves the queued entries as they are.
    #[verifier::opaque]
    pub open spec fn write_data_port(self, value: u16) -> RegistersView {
        let counted = RegistersView {
            write_count: next_count(self.write_count),
            data_buffer: value,
            ..self
        };
        if self.dma_active {
            counted.dma_write(value)
        } else if self.fifo.len() < self.fifo_capacity {
            RegistersView { fifo: self.fifo.push(value), ..counted }.update_fifo_status()
        } else {
            RegistersView { status: counted.status | VdpStatus::FIFO_FULL, ..counted }
                .update_fifo_status()
        }
    }

    /// A data-port read: in read mode the address moves on.
    #[verifier::opaque]
    pub open spec fn read_data_port(self) -> RegistersView {
        let counted = RegistersView { read_count: next_count(self.read_count), ..self };
        if self.current_address.read_mode {
            counted.increment_address()
        } else {
            counted
        }
    }

    /// The second control word is in: the address latch is set from the
    /// code and the address, and a write command arms the DMA that the
    /// registers select.
    #[verifier::opaque]
    pub open spec fn process_control_word(self) -> RegistersView {
        let read_mode = has_bit(self.code_buffer, CODE_READ);
        let latched = RegistersView {
            current_address: VdpAddress {
                addr: (self.address_buffer % 0x4000) as u16,
                access_type: access_type_of(self.code_buffer),
                read_mode,
            },
            ..self
        };
        if read_mode {
            latched
        } else if self.dma_mode != DmaMode::Desativado {
            RegistersView {
                data_buffer: 0,
                dma_active: true,
                status: latched.status | VdpStatus::DMA_ACTIVE,
                ..latched
            }
        } else {
            RegistersView { data_buffer: 0, ..latched }
        }
    }

    /// A control-port write. In the first phase a word whose code byte has
    /// its top bit set writes the register named by the low five bits of the
    /// code and leaves the latch alone; any other word gives the code and the
    /// high address byte. In the second phase the word gives the low address
    /// byte and completes the command.
    #[verifier::opaque]
    pub open spec fn write_control_port(self, value: u16) -> RegistersView {
        let counted = RegistersView { write_count: next_count(self.write_count), ..self };
        let code = (value / 256) as u8;
        let low = (value % 256) as u8;
        if self.address_latch {
            RegistersView {
                address_buffer: ((self.address_buffer as int / 256) * 256 + low as int) as u16,
                ..counted
            }.process_control_word().with_latch(false)
        } else if has_bit(code, CODE_REGISTER_WRITE) {
            counted.set_register(code as int % 32, low)
        } else {
            RegistersView {
                address_buffer: (low as int * 256) as u16,
                code_buffer: code,
                address_latch: true,
                ..counted
            }
        }
    }

    /// The same state with the latch phase set.
    pub open spec fn with_latch(self, latch: bool) -> RegistersView {
        RegistersView { address_latch: latch, ..self }
    }

    /// A status read: the two blanking flags and the line interrupt flag are
    /// cleared, all others stay.
    #[verifier::opaque]
    pub open spec fn read_control_port(self) -> RegistersView {
        RegistersView {
            read_count: next_count(self.read_count),
            status: self.status & !VdpStatus::CLEARED_ON_READ,
            ..self
        }
    }

    /// The oldest entry leaves the FIFO.
    #[verifier::opaque]
    pub open spec fn pop_fifo(self) -> RegistersView {
        if self.fifo.len() > 0 {
            RegistersView { fifo: self.fifo.subrange(1, self.fifo.len() as int), ..self }
                .update_fifo_status()
        } else {
            self.update_fifo_status()
        }
    }

    /// The three interrupt flags set as given.
    #[verifier::opaque]
    pub open spec fn update_interrupt_flags(self, vblank: bool, hblank: bool, line_irq: bool)
        -> RegistersView {
        RegistersView {
            status: with_flag(
                with_flag(with_flag(self.status, VdpStatus::VBLANK, vblank), VdpStatus::HBLANK, hblank),
                VdpStatus::LINE_IRQ,
                line_irq,
            ),
            ..self
        }
    }

    /// The two sprite flags set as given.
    #[verifier::opaque]
    pub open spec fn update_sprite_flags(self, overflow: bool, collision: bool) -> RegistersView {
        RegistersView {
            status: with_flag(
                with_flag(self.status, VdpStatus::SPRITE_OVERFLOW, overflow),
                VdpStatus::SPRITE_COLLISION,
                collision,
            ),
            ..self
        }
    }
}

/// The FIFO never holds more than its four entries: a data-port write
/// leaves a well-formed state well formed. A write that finds the FIFO full,
/// with no DMA running, is dropped: the queued entries stay as they are and
/// the status shows the FIFO as full and not as empty.
pub proof fn lemma_fifo_bound(view: RegistersView, value: u16)
    requires
        view.wf(),
    ensures
        view.write_data_port(value).wf(),
        view.write_data_port(value).fifo.len() <= FIFO_CAPACITY,
        !view.dma_active && view.fifo.len() == FIFO_CAPACITY ==> {
            &&& view.write_data_port(value).fifo == view.fifo
            &&& view.write_data_port(value).status & VdpStatus::FIFO_FULL == VdpStatus::FIFO_FULL
            &&& view.write_data_port(value).status & VdpStatus::FIFO_EMPTY == 0
        },
        !view.dma_active && view.fifo.len() < FIFO_CAPACITY ==> view.write_data_port(value).fifo
            == view.fifo.push(value),
{
    reveal(RegistersView::write_data_port);
    reveal(RegistersView::update_fifo_status);
    reveal(RegistersView::dma_write);
    let bits = view.status;
    assert((((bits | 0x10u8) | 0x10u8) & !0x08u8) & 0x10u8 == 0x10u8) by (bit_vector);
    assert((((bits | 0x10u8) | 0x10u8) & !0x08u8) & 0x08u8 == 0u8) by (bit_vector);
}

/// No port operation lets the FIFO grow past its four entries.
pub proof fn lemma_fifo_never_overflows(view: RegistersView, value: u16, index: int, byte: u8)
    requires
        view.wf(),
    ensures
        view.write_data_port(value).fifo.len() <= FIFO_CAPACITY,
        view.write_control_port(value).fifo.len() <= FIFO_CAPACITY,
        view.read_data_port().fifo.len() <= FIFO_CAPACITY,
        view.read_control_port().fifo.len() <= FIFO_CAPACITY,
        view.pop_fifo().fifo.len() <= FIFO_CAPACITY,
        view.write_reg(index, byte).fifo.len() <= FIFO_CAPACITY,
{
    reveal(RegistersView::write_data_port);
    reveal(RegistersView::update_fifo_status);
    reveal(RegistersView::dma_write);
    reveal(RegistersView::write_control_port);
    reveal(RegistersView::process_control_word);
    reveal(RegistersView::set_register);
    reveal(RegistersView::register_effect);
    reveal(RegistersView::read_data_port);
    reveal(RegistersView::increment_address);
    reveal(RegistersView::read_control_port);
    reveal(RegistersView::pop_fifo);
    reveal(RegistersView::write_reg);
}

/// The control registers, the status, the address latch and the FIFO.
#[derive(Clone)]
pub struct VdpRegisters {
    pub regs: [u8; 24],
    pub status: VdpStatus,
    pub data_buffer: u16,
    pub address_buffer: u16,
    pub current_address: VdpAddress,
    pub code_buffer: u8,
    pub address_latch: bool,
    pub dma_source: u32,
    pub dma_length: u16,
    pub dma_mode: DmaMode,
    pub dma_active: bool,
    pub fifo: Vec<u16>,
    pub fifo_capacity: usize,
    pub auto_increment: u8,
    pub plane_a_addr: u16,
    pub plane_b_addr: u16,
    pub window_addr: u16,
    pub sprite_table_addr: u16,
    pub hscroll_addr: u16,
    pub hblank_interrupt_enabled: bool,
    pub vblank_interrupt_enabled: bool,
    pub line_interrupt_enabled: bool,
    pub mode_40_cell: bool,
    pub interlace_mode: u8,
    pub shadow_highlight: bool,
    pub write_count: u64,
    pub read_count: u64,
}

impl View for VdpRegisters {
    type V = RegistersView;

    open spec fn view(&self) -> RegistersView {
        RegistersView {
            regs: self.regs@,
            status: self.status.bits,
            data_buffer: self.data_buffer,
            address_buffer: self.address_buffer,
            current_address: self.current_address,
            code_buffer: self.code_buffer,
            address_latch: self.address_latch,
            dma_source: self.dma_source,
            dma_length: self.dma_length,
            dma_mode: self.dma_mode,
            dma_active: self.dma_active,
            fifo: self.fifo@,
            fifo_capacity: self.fifo_capacity,
            auto_increment: self.auto_increment,
            plane_a_addr: self.plane_a_addr,
            plane_b_addr: self.plane_b_addr,
            window_addr: self.window_addr,
            sprite_table_addr: self.sprite_table_addr,
            hscroll_addr: self.hscroll_addr,
            hblank_interrupt_enabled: self.hblank_interrupt_enabled,
            vblank_interrupt_enabled: self.vblank_interrupt_enabled,
            line_interrupt_enabled: self.line_interrupt_enabled,
            mode_40_cell: self.mode_40_cell,
            interlace_mode: self.interlace_mode,
            shadow_highlight: self.shadow_highlight,
            write_count: self.write_count,
            read_count: self.read_count,
        }
    }
}

fn count_up(count: u64) -> (next: u64)
    ensures
        next == next_count(count),
{
    if count == u64::MAX {
        0
    } else {
        count + 1
    }
}

fn dma_mode_from(r1: u8, r23: u8) -> (mode: DmaMode)
    ensures
        mode == dma_mode_of(r1, r23),
{
    if !test_bit(r1, R1_DMA_ENABLE) {
        DmaMode::Desativado
    } else if r23 / 64 == 0 {
        DmaMode::MemoriaParaVdp
    } else if r23 / 64 == 1 {
        DmaMode::PreenchimentoVram
    } else if r23 / 64 == 2 {
        DmaMode::CopiaVram
    } else {
        DmaMode::Desativado
    }
}

fn plane_dimension(code: u8) -> (tiles: u8)
    ensures
        tiles == plane_dimension_of(code as int),
{
    if code == 1 {
        64
    } else if code == 2 {
        128
    } else {
        32
    }
}

/// Reads a byte as a signed number.
pub fn byte_to_signed(value: u8) -> (v: i8)
    ensures
        v == signed_byte_of(value),
{
    if value < 0x80 {
        value as i8
    } else {
        ((value - 0x80) as i8) - 0x40 - 0x40
    }
}

impl VdpRegisters {
    /// The view is well formed.
    pub open spec fn wf(&self) -> bool {
        self@.wf()
    }

    /// Whether the registers are well formed.
    pub fn is_well_formed(&self) -> (ok: bool)
        ensures
            ok == self.wf(),
    {
        self.fifo_capacity == FIFO_CAPACITY && self.fifo.len() <= FIFO_CAPACITY
    }

    /// The registers after power-on.
    pub fn new() -> (r: VdpRegisters)
        ensures
            r@ == RegistersView::initial(),
            r.wf(),
    {
        let mut regs: [u8; 24] = [0; 24];
        regs[15] = DEFAULT_AUTO_INCREMENT;
        let r = VdpRegisters {
            regs,
            status: VdpStatus::empty(),
            data_buffer: 0,
            address_buffer: 0,
            current_address: VdpAddress {
                addr: 0,
                access_type: VdpAccessType::VRAM,
                read_mode: false,
            },
            code_buffer: 0,
            address_latch: false,
            dma_source: 0,
            dma_length: 0,
            dma_mode: DmaMode::Desativado,
            dma_active: false,
            fifo: Vec::new(),
            fifo_capacity: FIFO_CAPACITY,
            auto_increment: DEFAULT_AUTO_INCREMENT,
            plane_a_addr: 0xC000,
            plane_b_addr: 0xE000,
            window_addr: 0xB000,
            sprite_table_addr: 0xF800,
            hscroll_addr: 0xFC00,
            hblank_interrupt_enabled: false,
            vblank_interrupt_enabled: false,
            line_interrupt_enabled: false,
            mode_40_cell: false,
            interlace_mode: 0,
            shadow_highlight: false,
            write_count: 0,
            read_count: 0,
        };
        assert(r@.regs =~= RegistersView::initial().regs);
        assert(r@.fifo =~= RegistersView::initial().fifo);
        r
    }

    /// Writes register `index`; an index of 24 or more is ignored.
    pub fn write_reg(&mut self, index: usize, value: u8)
        requires
            old(self).wf(),
        ensures
            final(self)@ == old(self)@.write_reg(index as int, value),
            final(self).wf(),
    {
        reveal(RegistersView::write_reg);
        if index >= REGISTER_COUNT {
            return ;
        }
        self.write_count = count_up(self.write_count);
        self.store_register(index, value);
    }

    /// Reads register `index mod 24`.
    pub fn read_reg(&self, index: usize) -> (value: u8)
        ensures
            value == self.regs@[index as int % 24],
    {
        self.regs[index % REGISTER_COUNT]
    }

    /// Reads register `index mod 24`.
    pub fn get(&self, index: usize) -> (value: u8)
        ensures
            value == self.regs@[index as int % 24],
    {
        self.regs[index % REGISTER_COUNT]
    }

    /// Writes register `index` as `write_reg` does.
    pub fn set(&mut self, index: usize, value: u8)
        requires
            old(self).wf(),
        ensures
            final(self)@ == old(self)@.write_reg(index as int, value),
            final(self).wf(),
    {
        self.write_reg(index, value);
    }

    fn store_register(&mut self, index: usize, value: u8)
        requires
            old(self).wf(),
        ensures
            final(self)@ == old(self)@.set_register(index as int, value),
            final(self).wf(),
    {
        reveal(RegistersView::set_register);
        if index >= REGISTER_COUNT {
            return ;
        }
        self.regs[index] = value;
        self.process_register_change(index, value);
    }

    fn process_register_change(&mut self, index: usize, new_value: u8)
        requires
            old(self).wf(),
            index < 24,
        ensures
            final(self)@ == old(self)@.register_effect(index as int, new_value),
            final(self).wf(),
    {
        reveal(RegistersView::register_effect);
        if index == 0 || index == 1 || index == 12 || index == 15 {
            self.change_flags(index, new_value);
        } else if index == 2 || index == 3 || index == 4 || index == 5 || index == 13 {
            self.change_base(index, new_value);
        } else if index == 19 || index == 20 {
            self.change_dma_length(index, new_value);
        } else if index == 21 || index == 22 || index == 23 {
            self.change_dma_source(index, new_value);
        }
    }

    fn change_flags(&mut self, index: usize, new_value: u8)
        requires
            old(self).wf(),
            index == 0 || index == 1 || index == 12 || index == 15,
        ensures
            final(self)@ == old(self)@.register_effect(index as int, new_value),
            final(self).wf(),
    {
        reveal(RegistersView::register_effect);
        if index == 0 {
            self.hblank_interrupt_enabled = test_bit(new_value, R0_HBLANK_ENABLE);
            self.line_interrupt_enabled = test_bit(new_value, R0_LINE_ENABLE);
        } else if index == 1 {
            self.vblank_interrupt_enabled = test_bit(new_value, R1_VBLANK_ENABLE);
            self.dma_mode = dma_mode_from(new_value, self.regs[23]);
        } else if index == 12 {
            self.mode_40_cell = new_value % 2 == 1;
            self.interlace_mode = (new_value / 2) % 4;
            self.shadow_highlight = (new_value / 8) % 2 == 1;
        } else {
            self.auto_increment = new_value;
        }
    }

    fn change_base(&mut self, index: usize, new_value: u8)
        requires
            old(self).wf(),
            index == 2 || index == 3 || index == 4 || index == 5 || index == 13,
        ensures
            final(self)@ == old(self)@.register_effect(index as int, new_value),
            final(self).wf(),
    {
        reveal(RegistersView::register_effect);
        if index == 2 {
            self.plane_a_addr = ((new_value / 8) % 8) as u16 * 0x2000;
        } else if index == 3 {
            self.window_addr = (((new_value / 16) % 4) + ((new_value / 2) % 4) * 4) as u16 * 0x400;
        } else if index == 4 {
            self.plane_b_addr = (new_value % 8) as u16 * 0x2000;
        } else if index == 5 {
            self.sprite_table_addr = (new_value % 128) as u16 * 0x200;
        } else {
            self.hscroll_addr = (new_value % 16) as u16 * 0x400;
        }
    }

    fn change_dma_length(&mut self, index: usize, new_value: u8)
        requires
            old(self).wf(),
            index == 19 || index == 20,
        ensures
            final(self)@ == old(self)@.register_effect(index as int, new_value),
            final(self).wf(),
    {
        reveal(RegistersView::register_effect);
        if index == 19 {
            self.dma_length = (self.dma_length / 256) * 256 + new_value as u16;
        } else {
            self.dma_length = new_value as u16 * 256 + self.dma_length % 256;
        }
    }

    fn change_dma_source(&mut self, index: usize, new_value: u8)
        requires
            old(self).wf(),
            index == 21 || index == 22 || index == 23,
        ensures
            final(self)@ == old(self)@.register_effect(index as int, new_value),
            final(self).wf(),
    {
        reveal(RegistersView::register_effect);
        if index == 21 {
            self.dma_source = (self.dma_source / 256) * 256 + new_value as u32;
        } else if index == 22 {
            self.dma_source = (self.dma_source / 0x1_0000) * 0x1_0000 + new_value as u32 * 256
                + self.dma_source % 256;
        } else {
            self.dma_source = (new_value % 128) as u32 * 0x1_0000 + self.dma_source % 0x1_0000;
            self.dma_mode = dma_mode_from(self.regs[1], new_value);
        }
    }

    /// Sets the DMA length and the two registers that hold it.
    pub fn set_dma_length(&mut self, length: u16)
        requires
            old(self).wf(),
        ensures
            final(self)@ == (RegistersView {
                dma_length: length,
                ..old(self)@.set_register(19, (length % 256) as u8).set_register(
                    20,
                    (length / 256) as u8,
                )
            }),
            final(self).wf(),
    {
        self.store_register(19, (length % 256) as u8);
        self.store_register(20, (length / 256) as u8);
        self.dma_length = length;
    }

    /// Takes a word written to the data port.
    pub fn write_data_port(&mut self, value: u16)
        requires
            old(self).wf(),
        ensures
            final(self)@ == old(self)@.write_data_port(value),
            final(self).wf(),
    {
        reveal(RegistersView::write_data_port);
        self.write_count = count_up(self.write_count);
        self.data_buffer = value;
        if self.dma_active {
            self.process_dma_write(value);
            return ;
        }
        if self.fifo.len() < self.fifo_capacity {
            self.fifo.push(value);
        } else {
            self.status.insert(VdpStatus::FIFO_FULL);
        }
        self.update_fifo_status();
    }

    /// Answers a read of the data port with the data buffer; in read mode
    /// the address then moves on by the auto-increment step.
    pub fn read_data_port(&mut self) -> (value: u16)
        requires
            old(self).wf(),
        ensures
            value == old(self).data_buffer,
            final(self)@ == old(self)@.read_data_port(),
            final(self).wf(),
    {
        reveal(RegistersView::read_data_port);
        self.read_count = count_up(self.read_count);
        let result: u16 = self.data_buffer;
        if self.current_address.read_mode {
            self.increment_address();
        }
        result
    }

    /// Takes a word written to the control port.
    #[verifier::rlimit(30)]
    pub fn write_control_port(&mut self, value: u16)
        requires
            old(self).wf(),
        ensures
            final(self)@ == old(self)@.write_control_port(value),
            final(self).wf(),
    {
        reveal(RegistersView::write_control_port);
        self.write_count = count_up(self.write_count);
        let code: u8 = (value / 256) as u8;
        let low: u8 = (value % 256) as u8;
        if self.address_latch {
            self.address_buffer = (self.address_buffer / 256) * 256 + low as u16;
            self.process_control_word();
            self.address_latch = false;
        } else if test_bit(code, CODE_REGISTER_WRITE) {
            self.store_register((code % 32) as usize, low);
        } else {
            self.address_buffer = low as u16 * 256;
            self.code_buffer = code;
            self.address_latch = true;
        }
    }

    /// Answers a read of the control port with the status flags, then clears
    /// the two blanking flags and the line interrupt flag.
    pub fn read_control_port(&mut self) -> (status: u8)
        requires
            old(self).wf(),
        ensures
            status == old(self).status.bits,
            final(self)@ == old(self)@.read_control_port(),
            final(self).wf(),
    {
        reveal(RegistersView::read_control_port);
        self.read_count = count_up(self.read_count);
        let status: u8 = self.status.bits();
        self.status.remove(VdpStatus::CLEARED_ON_READ);
        status
    }

    fn process_control_word(&mut self)
        requires
            old(self).wf(),
        ensures
            final(self)@ == old(self)@.process_control_word(),
            final(self).wf(),
    {
        reveal(RegistersView::process_control_word);
        let code: u8 = self.code_buffer;
        let access_type: VdpAccessType = if (code / 16) % 4 == 1 {
            VdpAccessType::CRAM
        } else if (code / 16) % 4 == 2 {
            VdpAccessType::VSRAM
        } else {
            VdpAccessType::VRAM
        };
        let read_mode: bool = test_bit(code, CODE_READ);
        self.current_address = VdpAddress {
            addr: self.address_buffer % 0x4000,
            access_type,
            read_mode,
        };
        if !read_mode {
            self.data_buffer = 0;
            if self.dma_mode != DmaMode::Desativado {
                self.dma_active = true;
                self.status.insert(VdpStatus::DMA_ACTIVE);
            }
        }
    }

    /// Moves the address on by the auto-increment step.
    pub fn increment_address(&mut self)
        requires
            old(self).wf(),
        ensures
            final(self)@ == old(self)@.increment_address(),
            final(self).wf(),
    {
        reveal(RegistersView::increment_address);
        let sum: u32 = (self.current_address.addr as u32 + self.auto_increment as u32) % 0x1_0000;
        let wrapped: u32 = match self.current_address.access_type {
            VdpAccessType::VRAM => sum % 0x4000,
            VdpAccessType::CRAM => sum % 0x40,
            VdpAccessType::VSRAM => sum % 0x40,
        };
        self.current_address = VdpAddress {
            addr: wrapped as u16,
            access_type: self.current_address.access_type,
            read_mode: self.current_address.read_mode,
        };
    }

    fn process_dma_write(&mut self, value: u16)
        requires
            old(self).wf(),
        ensures
            final(self)@ == old(self)@.dma_write(value),
            final(self).wf(),
    {
        reveal(RegistersView::dma_write);
        if self.dma_mode == DmaMode::Desativado {
            return ;
        }
        self.data_buffer = value;
        self.dma_length = if self.dma_length == 0 {
            0xFFFF
        } else {
            self.dma_length - 1
        };
        if self.dma_mode == DmaMode::MemoriaParaVdp {
            self.dma_source = ((self.dma_source as u64 + 2) % 0x1_0000_0000) as u32;
        }
        if self.dma_length == 0 {
            self.dma_active = false;
            self.status.remove(VdpStatus::DMA_ACTIVE);
            self.dma_mode = DmaMode::Desativado;
        }
    }

    fn update_fifo_status(&mut self)
        requires
            old(self).wf(),
        ensures
            final(self)@ == old(self)@.update_fifo_status(),
            final(self).wf(),
    {
        reveal(RegistersView::update_fifo_status);
        if self.fifo.len() == 0 {
            self.status.insert(VdpStatus::FIFO_EMPTY);
            self.status.remove(VdpStatus::FIFO_FULL);
        } else if self.fifo.len() >= FIFO_CAPACITY {
            self.status.insert(VdpStatus::FIFO_FULL);
            self.status.remove(VdpStatus::FIFO_EMPTY);
        } else {
            self.status.remove(VdpStatus::FIFO_FLAGS);
        }
    }

    /// Takes the oldest entry out of the FIFO, if there is one.
    pub fn pop_fifo(&mut self) -> (entry: Option<u16>)
        requires
            old(self).wf(),
        ensures
            entry == (if old(self).fifo@.len() > 0 {
                Some(old(self).fifo@[0])
            } else {
                None
            }),
            final(self)@ == old(self)@.pop_fifo(),
            final(self).wf(),
    {
        reveal(RegistersView::pop_fifo);
        let result: Option<u16> = if self.fifo.len() > 0 {
            Some(self.fifo.remove(0))
        } else {
            None
        };
        self.update_fifo_status();
        result
    }

    /// Whether the FIFO holds an entry.
    pub fn has_fifo_commands(&self) -> (b: bool)
        ensures
            b == (self.fifo@.len() > 0),
    {
        self.fifo.len() > 0
    }

    /// Whether the FIFO is empty.
    pub fn fifo_empty(&self) -> (b: bool)
        ensures
            b == (self.fifo@.len() == 0),
    {
        self.fifo.len() == 0
    }

    /// Whether the FIFO holds as many entries as it can.
    pub fn fifo_full(&self) -> (b: bool)
        ensures
            b == (self.fifo@.len() >= self.fifo_capacity),
    {
        self.fifo.len() >= self.fifo_capacity
    }

    /// Whether register 1 enables the display.
    pub fn display_enabled(&self) -> (b: bool)
        ensures
            b == has_bit(self.regs@[1], R1_DISPLAY_ENABLE),
    {
        test_bit(self.regs[1], R1_DISPLAY_ENABLE)
    }

    /// Whether the registers select a DMA mode.
    pub fn dma_enabled(&self) -> (b: bool)
        ensures
            b == (self.dma_mode != DmaMode::Desativado),
    {
        self.dma_mode != DmaMode::Desativado
    }

    /// Whether a DMA transfer was armed and has not ended.
    pub fn dma_in_progress(&self) -> (b: bool)
        ensures
            b == self.dma_active,
    {
        self.dma_active
    }

    /// Whether the display is 40 cells (320 pixels) wide.
    pub fn mode_40_cell(&self) -> (b: bool)
        ensures
            b == self.mode_40_cell,
    {
        self.mode_40_cell
    }

    /// Whether the display is 32 cells (256 pixels) wide.
    pub fn mode_32_cell(&self) -> (b: bool)
        ensures
            b == !self.mode_40_cell,
    {
        !self.mode_40_cell
    }

    /// Whether shadow and highlight are on.
    pub fn shadow_highlight_enabled(&self) -> (b: bool)
        ensures
            b == self.shadow_highlight,
    {
        self.shadow_highlight
    }

    /// Whether the display is interlaced.
    pub fn interlace_enabled(&self) -> (b: bool)
        ensures
            b == (self.interlace_mode != 0),
    {
        self.interlace_mode != 0
    }

    /// The interlace mode: 0 off, else the two mode bits of register 12.
    pub fn interlace_mode(&self) -> (m: u8)
        ensures
            m == self.interlace_mode,
    {
        self.interlace_mode
    }

    /// Whether horizontal scroll is taken per row from the scroll table.
    pub fn row_scroll_enabled(&self) -> (b: bool)
        ensures
            b == has_bit(self.regs@[6], R6_ROW_SCROLL),
    {
        test_bit(self.regs[6], R6_ROW_SCROLL)
    }

    /// Base address of plane A.
    pub fn plane_a_address(&self) -> (a: u16)
        ensures
            a == self.plane_a_addr,
    {
        self.plane_a_addr
    }

    /// Base address of plane B.
    pub fn plane_b_address(&self) -> (a: u16)
        ensures
            a == self.plane_b_addr,
    {
        self.plane_b_addr
    }

    /// Base address of the window.
    pub fn window_address(&self) -> (a: u16)
        ensures
            a == self.window_addr,
    {
        self.window_addr
    }

    /// Base address of the sprite attribute table.
    pub fn sprite_table_address(&self) -> (a: u16)
        ensures
            a == self.sprite_table_addr,
    {
        self.sprite_table_addr
    }

    /// Base address of the horizontal scroll table.
    pub fn hscroll_address(&self) -> (a: u16)
        ensures
            a == self.hscroll_addr,
    {
        self.hscroll_addr
    }

    /// The auto-increment step.
    pub fn auto_increment_value(&self) -> (v: u8)
        ensures
            v == self.auto_increment,
    {
        self.auto_increment
    }

    /// Colour index of the background: the low six bits of register 7.
    pub fn background_color_index(&self) -> (i: u8)
        ensures
            i == self.regs@[7] % 64,
    {
        self.regs[7] % 64
    }

    /// The line that raises the line interrupt: register 10.
    pub fn line_interrupt_counter(&self) -> (v: u8)
        ensures
            v == self.regs@[10],
    {
        self.regs[10]
    }

    /// Horizontal scroll of plane A: register 8.
    pub fn hscroll_a(&self) -> (v: u8)
        ensures
            v == self.regs@[8],
    {
        self.regs[8]
    }

    /// Horizontal scroll of plane B: register 9.
    pub fn hscroll_b(&self) -> (v: u8)
        ensures
            v == self.regs@[9],
    {
        self.regs[9]
    }

    /// Vertical scroll of plane A: register 11.
    pub fn vscroll_a(&self) -> (v: u8)
        ensures
            v == self.regs@[11],
    {
        self.regs[11]
    }

    /// Vertical scroll of plane B: register 19, which the DMA length shares.
    pub fn vscroll_b(&self) -> (v: u8)
        ensures
            v == self.regs@[19],
    {
        self.regs[19]
    }

    /// Width and height of the planes in tiles, from bits 4 and 5 and bits 0
    /// and 1 of register 16.
    pub fn plane_size(&self) -> (size: (u8, u8))
        ensures
            size.0 == plane_dimension_of((self.regs@[16] as int / 16) % 4),
            size.1 == plane_dimension_of(self.regs@[16] as int % 4),
    {
        let size: u8 = self.regs[16];
        (plane_dimension((size / 16) % 4), plane_dimension(size % 4))
    }

    /// Side of a tile in pixels.
    pub fn tile_size(&self) -> (s: u8)
        ensures
            s == 8,
    {
        8
    }

    /// Position of the window: registers 17 and 18 as signed numbers.
    pub fn window_position(&self) -> (p: (i8, i8))
        ensures
            p.0 == signed_byte_of(self.regs@[17]),
            p.1 == signed_byte_of(self.regs@[18]),
    {
        (byte_to_signed(self.regs[17]), byte_to_signed(self.regs[18]))
    }

    /// Sets or clears the two blanking flags and the line interrupt flag.
    pub fn update_interrupt_flags(&mut self, vblank: bool, hblank: bool, line_irq: bool)
        requires
            old(self).wf(),
        ensures
            final(self)@ == old(self)@.update_interrupt_flags(vblank, hblank, line_irq),
            final(self).wf(),
    {
        reveal(RegistersView::update_interrupt_flags);
        self.status.set(VdpStatus::VBLANK, vblank);
        self.status.set(VdpStatus::HBLANK, hblank);
        self.status.set(VdpStatus::LINE_IRQ, line_irq);
    }

    /// Sets or clears the two sprite flags.
    pub fn update_sprite_flags(&mut self, overflow: bool, collision: bool)
        requires
            old(self).wf(),
        ensures
            final(self)@ == old(self)@.update_sprite_flags(overflow, collision),
            final(self).wf(),
    {
        reveal(RegistersView::update_sprite_flags);
        self.status.set(VdpStatus::SPRITE_OVERFLOW, overflow);
        self.status.set(VdpStatus::SPRITE_COLLISION, collision);
    }

    /// Sets or clears the DMA flag of the status.
    pub fn set_dma_busy(&mut self, busy: bool)
        requires
            old(self).wf(),
        ensures
            final(self)@ == (RegistersView {
                status: with_flag(old(self)@.status, VdpStatus::DMA_ACTIVE, busy),
                ..old(self)@
            }),
            final(self).wf(),
    {
        self.status.set(VdpStatus::DMA_ACTIVE, busy);
    }

    /// Back to the state after power-on; the FIFO is emptied.
    pub fn reset(&mut self)
        ensures
            final(self)@ == RegistersView::initial(),
            final(self).wf(),
    {
        *self = VdpRegisters::new();
    }
}

/// The name of a DMA mode.
pub open spec fn dma_mode_name(mode: DmaMode) -> &'static str {
    match mode {
        DmaMode::Desativado => "Desativado",
        DmaMode::MemoriaParaVdp => "MemoriaParaVdp",
        DmaMode::PreenchimentoVram => "PreenchimentoVram",
        DmaMode::CopiaVram => "CopiaVram",
    }
}

/// The name of a DMA mode.
pub fn dma_mode_text(mode: DmaMode) -> (name: &'static str)
    ensures
        name@ == dma_mode_name(mode)@,
{
    match mode {
        DmaMode::Desativado => "Desativado",
        DmaMode::MemoriaParaVdp => "MemoriaParaVdp",
        DmaMode::PreenchimentoVram => "PreenchimentoVram",
        DmaMode::CopiaVram => "CopiaVram",
    }
}

/// One entry of the register dump: `Rnn: 0xHH ` with a line break behind
/// every fourth register.
pub open spec fn register_entry(index: int, value: u8) -> Seq<char> {
    let entry = "R"@ + fixed_digits(index as nat, 10, 2) + ": 0x"@ + fixed_digits(
        value as nat,
        16,
        2,
    ) + " "@;
    if (index + 1) % 4 == 0 {
        entry + "\n"@
    } else {
        entry
    }
}

/// The dump of the first `n` registers.
pub open spec fn register_dump(regs: Seq<u8>, n: int) -> Seq<char>
    decreases n,
{
    if n <= 0 {
        Seq::empty()
    } else {
        register_dump(regs, n - 1) + register_entry(n - 1, regs[n - 1])
    }
}

impl RegistersView {
    /// The sixteen lines of the report.
    pub open spec fn debug_text(self) -> Seq<Seq<char>> {
        seq![
            "Status: "@ + fixed_digits(self.status as nat, 2, 8),
            "Display: "@ + (if has_bit(self.regs[1], R1_DISPLAY_ENABLE) {
                "ON"@
            } else {
                "OFF"@
            }),
            "Mode: "@ + (if self.mode_40_cell {
                "H40"@
            } else {
                "H32"@
            }),
            "Interlace: "@ + decimal(self.interlace_mode as nat),
            "Shadow/Highlight: "@ + bool_text(self.shadow_highlight),
            "DMA Mode: "@ + dma_mode_name(self.dma_mode)@,
            "DMA Active: "@ + bool_text(self.dma_active),
            "FIFO: "@ + decimal(self.fifo.len()) + "/"@ + decimal(self.fifo_capacity as nat),
            "Auto-increment: "@ + decimal(self.auto_increment as nat),
            "Plane A Addr: 0x"@ + fixed_digits(self.plane_a_addr as nat, 16, 4),
            "Plane B Addr: 0x"@ + fixed_digits(self.plane_b_addr as nat, 16, 4),
            "Window Addr: 0x"@ + fixed_digits(self.window_addr as nat, 16, 4),
            "Sprite Table Addr: 0x"@ + fixed_digits(self.sprite_table_addr as nat, 16, 4),
            "HScroll Addr: 0x"@ + fixed_digits(self.hscroll_addr as nat, 16, 4),
            "Write Count: "@ + decimal(self.write_count as nat),
            "Read Count: "@ + decimal(self.read_count as nat),
        ]
    }
}

fn labelled_hex(label: &str, value: u16) -> (s: String)
    ensures
        s@ == label@ + fixed_digits(value as nat, 16, 4),
{
    let mut s = text_of(label);
    push_fixed(&mut s, value as u64, 16, 4);
    s
}

impl VdpRegisters {
    /// The state of the registers, one line per value.
    pub fn debug_info(&self) -> (info: Vec<String>)
        ensures
            info@.len() == 16,
            forall|i: int| 0 <= i < 16 ==> info@[i]@ == self@.debug_text()[i],
    {
        let mut info: Vec<String> = Vec::new();
        let mut s = text_of("Status: ");
        push_fixed(&mut s, self.status.bits() as u64, 2, 8);
        info.push(s);
        info.push(
            labelled_text(
                "Display: ",
                if self.display_enabled() {
                    "ON"
                } else {
                    "OFF"
                },
            ),
        );
        info.push(
            labelled_text(
                "Mode: ",
                if self.mode_40_cell {
                    "H40"
                } else {
                    "H32"
                },
            ),
        );
        info.push(labelled_number("Interlace: ", self.interlace_mode as u64));
        info.push(labelled_bool("Shadow/Highlight: ", self.shadow_highlight));
        info.push(labelled_text("DMA Mode: ", dma_mode_text(self.dma_mode)));
        info.push(labelled_bool("DMA Active: ", self.dma_active));
        let mut s = text_of("FIFO: ");
        push_decimal(&mut s, self.fifo.len() as u64);
        s.push_str("/");
        push_decimal(&mut s, self.fifo_capacity as u64);
        info.push(s);
        info.push(labelled_number("Auto-increment: ", self.auto_increment as u64));
        info.push(labelled_hex("Plane A Addr: 0x", self.plane_a_addr));
        info.push(labelled_hex("Plane B Addr: 0x", self.plane_b_addr));
        info.push(labelled_hex("Window Addr: 0x", self.window_addr));
        info.push(labelled_hex("Sprite Table Addr: 0x", self.sprite_table_addr));
        info.push(labelled_hex("HScroll Addr: 0x", self.hscroll_addr));
        info.push(labelled_number("Write Count: ", self.write_count));
        info.push(labelled_number("Read Count: ", self.read_count));
        info
    }

    /// The 24 registers as text, four to a line.
    pub fn dump_registers(&self) -> (dump: String)
        ensures
            dump@ == register_dump(self.regs@, 24),
    {
        let mut dump = String::new();
        assert(dump@ =~= register_dump(self.regs@, 0));
        let mut i: usize = 0;
        while i < 24
            invariant
                i <= 24,
                dump@ == register_dump(self.regs@, i as int),
            decreases 24 - i,
        {
            let ghost before = dump@;
            dump.push_str("R");
            push_fixed(&mut dump, i as u64, 10, 2);
            dump.push_str(": 0x");
            push_fixed(&mut dump, self.regs[i] as u64, 16, 2);
            dump.push_str(" ");
            if (i + 1) % 4 == 0 {
                dump.push_str("\n");
            }
            proof {
                let entry = "R"@ + fixed_digits(i as nat, 10, 2) + ": 0x"@ + fixed_digits(
                    self.regs@[i as int] as nat,
                    16,
                    2,
                ) + " "@;
                assert(before + "R"@ + fixed_digits(i as nat, 10, 2) + ": 0x"@ + fixed_digits(
                    self.regs@[i as int] as nat,
                    16,
                    2,
                ) + " "@ =~= before + entry);
                assert(before + entry + "\n"@ =~= before + (entry + "\n"@));
            }
            i += 1;
        }
        dump
    }
}

impl Default for VdpRegisters {
    fn default() -> (r: VdpRegisters)
        ensures
            r@ == RegistersView::initial(),
            r.wf(),
    {
        VdpRegisters::new()
    }
}

} // verus!
