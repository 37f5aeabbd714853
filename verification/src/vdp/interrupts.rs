//! The interrupt controller: the horizontal and vertical counters, the
//! status flags raised by timing events, and the queue of pending interrupts
//! that the host polls, highest priority first.

use vstd::prelude::*;
use crate::vdp::registers::{
    fifo_status_of, has_bit, next_count, test_bit, with_flag, VdpRegisters, R0_HBLANK_ENABLE,
    R0_LINE_ENABLE, R1_VBLANK_ENABLE, DmaMode,
};
pub use crate::vdp::registers::VdpStatus;

verus! {

/// Lines of a frame, blanking included.
pub const NTSC_TOTAL_LINES: u16 = 262;

pub const PAL_TOTAL_LINES: u16 = 313;

/// Cycles of a line, blanking included.
pub const NTSC_CYCLES_PER_LINE: u16 = 342;

pub const PAL_CYCLES_PER_LINE: u16 = 424;

/// Visible lines.
pub const NTSC_VISIBLE_LINES: u16 = 224;

pub const PAL_VISIBLE_LINES: u16 = 240;

/// Visible cycles of a line in the wide and in the narrow display.
pub const H40_VISIBLE_CYCLES: u16 = 320;

pub const H32_VISIBLE_CYCLES: u16 = 256;

/// The events the controller reports, from the highest priority down.
#[derive(Clone, Copy, Debug, PartialEq, Eq, Structural)]
pub enum VdpInterruptType {
    VBlank,
    HBlank,
    Scanline,
    SpriteOverflow,
    SpriteCollision,
    DmaComplete,
}

/// An interrupt waiting for the host. A lower `priority` is served first.
#[derive(Clone, Copy, Debug, PartialEq, Eq, Structural)]
pub struct PendingInterrupt {
    pub irq_type: VdpInterruptType,
    pub timestamp: u64,
    pub priority: u8,
}

/// The priority of an event: 0 for the vertical blank down to 5 for the end of a DMA.
pub open spec fn priority_of(irq_type: VdpInterruptType) -> u8 {
    match irq_type {
        VdpInterruptType::VBlank => 0,
        VdpInterruptType::HBlank => 1,
        VdpInterruptType::Scanline => 2,
        VdpInterruptType::SpriteOverflow => 3,
        VdpInterruptType::SpriteCollision => 4,
        VdpInterruptType::DmaComplete => 5,
    }
}

/// Whether a waiting entry is served after a new one of the given priority
/// and arrival time: it has a lower priority, or the same and came later.
pub open spec fn served_after(entry: PendingInterrupt, priority: u8, timestamp: u64) -> bool {
    entry.priority > priority || (entry.priority == priority && entry.timestamp > timestamp)
}

/// Index of the first entry from `from` on that is served after a new one,
/// or the length of the queue where there is none.
pub open spec fn first_served_after(
    queue: Seq<PendingInterrupt>,
    priority: u8,
    timestamp: u64,
    from: int,
) -> int
    decreases queue.len() - from,
{
    if from < 0 || from >= queue.len() {
        queue.len() as int
    } else if served_after(queue[from], priority, timestamp) {
        from
    } else {
        first_served_after(queue, priority, timestamp, from + 1)
    }
}

/// Where a new entry goes: before the first entry that is served after it.
pub open spec fn queue_position(queue: Seq<PendingInterrupt>, priority: u8, timestamp: u64) -> int {
    first_served_after(queue, priority, timestamp, 0)
}

/// The queue is in the order of service: priorities never fall along it.
pub open spec fn in_service_order(queue: Seq<PendingInterrupt>) -> bool {
    forall|i: int, j: int| 0 <= i < j < queue.len() ==> queue[i].priority <= queue[j].priority
}

/// The line the line interrupt compares: the line number, doubled in an
/// interlaced display.
pub open spec fn compared_line(v_counter: u16, interlaced: bool) -> int {
    if interlaced {
        v_counter as int * 2
    } else {
        v_counter as int
    }
}

/// A 32-bit counter after one more event; it starts again after its largest value.
pub open spec fn next_count32(count: u32) -> u32 {
    if count == u32::MAX {
        0
    } else {
        (count + 1) as u32
    }
}

/// The controller as mathematical values.
#[verifier::ext_equal]
pub struct InterruptView {
    pub status: u8,
    pub enabled: u8,
    pub pending: Seq<PendingInterrupt>,
    pub h_counter: u16,
    pub v_counter: u16,
    pub cycle_counter: u64,
    pub h_blank_start: u16,
    pub v_blank_start: u16,
    pub scanline_irq_line: u16,
    pub sprite_overflow_line: Option<u16>,
    pub sprite_collision_detected: bool,
    pub is_pal: bool,
    pub is_interlaced: bool,
    pub vblank_count: u32,
    pub hblank_count: u32,
    pub scanline_irq_count: u32,
}

impl InterruptView {
    /// The controller after power-on: NTSC, wide display, nothing pending.
    pub open spec fn initial() -> InterruptView {
        InterruptView {
            status: 0,
            enabled: 0,
            pending: Seq::empty(),
            h_counter: 0,
            v_counter: 0,
            cycle_counter: 0,
            h_blank_start: 320,
            v_blank_start: 224,
            scanline_irq_line: 0,
            sprite_overflow_line: None,
            sprite_collision_detected: false,
            is_pal: false,
            is_interlaced: false,
            vblank_count: 0,
            hblank_count: 0,
            scanline_irq_count: 0,
        }
    }

    /// Lines of a frame.
    pub open spec fn total_lines(self) -> u16 {
        if self.is_pal {
            PAL_TOTAL_LINES
        } else {
            NTSC_TOTAL_LINES
        }
    }

    /// Cycles of a line.
    pub open spec fn cycles_per_line(self) -> u16 {
        if self.is_pal {
            PAL_CYCLES_PER_LINE
        } else {
            NTSC_CYCLES_PER_LINE
        }
    }

    /// The counters, the blanking thresholds and the video standard are those of `other`.
    pub open spec fn same_counters(self, other: InterruptView) -> bool {
        &&& self.h_counter == other.h_counter
        &&& self.v_counter == other.v_counter
        &&& self.cycle_counter == other.cycle_counter
        &&& self.h_blank_start == other.h_blank_start
        &&& self.v_blank_start == other.v_blank_start
        &&& self.is_pal == other.is_pal
    }

    /// Whether the interrupt of `flag` is enabled.
    pub open spec fn is_enabled(self, flag: u8) -> bool {
        self.enabled & flag == flag
    }

    /// A new entry put in its place in the queue, stamped with the cycle counter.
    #[verifier::opaque]
    pub open spec fn queue(self, irq_type: VdpInterruptType, priority: u8) -> InterruptView {
        InterruptView {
            pending: self.pending.insert(
                queue_position(self.pending, priority, self.cycle_counter),
                PendingInterrupt { irq_type, timestamp: self.cycle_counter, priority },
            ),
            ..self
        }
    }

    /// A flag raised in the status.
    pub open spec fn raise(self, flag: u8) -> InterruptView {
        InterruptView { status: self.status | flag, ..self }
    }

    /// A flag cleared in the status.
    pub open spec fn lower(self, flag: u8) -> InterruptView {
        InterruptView { status: self.status & !flag, ..self }
    }

    /// The end of a line: the horizontal blank is over and counted.
    #[verifier::opaque]
    pub open spec fn end_of_line(self) -> InterruptView {
        InterruptView { hblank_count: next_count32(self.hblank_count), ..self.lower(
            VdpStatus::HBLANK,
        ) }
    }

    /// The end of a frame: counted, and the sprite flags of the frame are cleared.
    #[verifier::opaque]
    pub open spec fn end_of_frame(self) -> InterruptView {
        InterruptView {
            vblank_count: next_count32(self.vblank_count),
            sprite_collision_detected: false,
            ..self.lower(VdpStatus::SPRITE_COLLISION).lower(VdpStatus::SPRITE_OVERFLOW)
        }
    }

    /// The line interrupt: raised and queued where it is enabled and the
    /// compared line is the programmed one.
    #[verifier::opaque]
    pub open spec fn check_scanline_irq(self) -> InterruptView {
        if self.is_enabled(VdpStatus::SCANLINE_IRQ) && compared_line(
            self.v_counter,
            self.is_interlaced,
        ) == self.scanline_irq_line {
            InterruptView {
                scanline_irq_count: next_count32(self.scanline_irq_count),
                ..self.raise(VdpStatus::SCANLINE_IRQ).queue(VdpInterruptType::Scanline, 2)
            }
        } else {
            self
        }
    }

    /// The counters after one cycle, with what the end of a line and of a
    /// frame bring.
    #[verifier::opaque]
    pub open spec fn advance(self) -> InterruptView {
        let counted = InterruptView { cycle_counter: next_count(self.cycle_counter), ..self };
        if self.h_counter + 1 >= self.cycles_per_line() {
            let line_done = InterruptView { h_counter: 0, ..counted }.end_of_line();
            let next_line = if self.v_counter + 1 >= self.total_lines() {
                InterruptView { v_counter: 0, ..line_done }.end_of_frame()
            } else {
                InterruptView { v_counter: (self.v_counter + 1) as u16, ..line_done }
            };
            InterruptView { sprite_overflow_line: None, ..next_line.check_scanline_irq() }
        } else {
            InterruptView { h_counter: (self.h_counter + 1) as u16, ..counted }
        }
    }

    /// The horizontal blank: raised when the counter reaches the visible
    /// width, and queued where it is enabled.
    #[verifier::opaque]
    pub open spec fn check_hblank(self) -> InterruptView {
        if self.h_counter == self.h_blank_start {
            if self.is_enabled(VdpStatus::HBLANK) {
                self.raise(VdpStatus::HBLANK).queue(VdpInterruptType::HBlank, 1)
            } else {
                self.raise(VdpStatus::HBLANK)
            }
        } else {
            self
        }
    }

    /// The vertical blank: raised at the start of the first line below the
    /// picture, and queued where it is enabled.
    #[verifier::opaque]
    pub open spec fn check_vblank(self) -> InterruptView {
        if self.v_counter == self.v_blank_start && self.h_counter == 0 {
            if self.is_enabled(VdpStatus::VBLANK) {
                self.raise(VdpStatus::VBLANK).queue(VdpInterruptType::VBlank, 0)
            } else {
                self.raise(VdpStatus::VBLANK)
            }
        } else {
            self
        }
    }

    /// The DMA and FIFO flags taken over from the port state machine.
    #[verifier::opaque]
    pub open spec fn with_port_state(self, dma_busy: bool, fifo_len: int) -> InterruptView {
        InterruptView {
            status: fifo_status_of(with_flag(self.status, VdpStatus::DMA_ACTIVE, dma_busy), fifo_len),
            ..self
        }
    }

    /// One cycle.
    #[verifier::opaque]
    pub open spec fn tick(self, dma_busy: bool, fifo_len: int) -> InterruptView {
        self.advance().check_hblank().check_vblank().with_port_state(dma_busy, fifo_len)
    }

    /// The set-up taken from the registers: which interrupts are enabled,
    /// the line of the line interrupt, interlacing and the visible width.
    #[verifier::opaque]
    pub open spec fn configured(self, regs: Seq<u8>) -> InterruptView {
        InterruptView {
            enabled: with_flag(
                with_flag(
                    with_flag(0, VdpStatus::HBLANK, has_bit(regs[0], R0_HBLANK_ENABLE)),
                    VdpStatus::VBLANK,
                    has_bit(regs[1], R1_VBLANK_ENABLE),
                ),
                VdpStatus::SCANLINE_IRQ,
                has_bit(regs[0], R0_LINE_ENABLE),
            ),
            scanline_irq_line: regs[10] as u16,
            is_interlaced: (regs[12] as int / 2) % 4 != 0,
            h_blank_start: if regs[12] as int % 2 == 1 {
                H40_VISIBLE_CYCLES
            } else {
                H32_VISIBLE_CYCLES
            },
            ..self
        }
    }

    /// A sprite overflow on `line`, reported once per line.
    #[verifier::opaque]
    pub open spec fn signal_sprite_overflow(self, line: u16) -> InterruptView {
        if self.sprite_overflow_line is None {
            InterruptView {
                sprite_overflow_line: Some(line),
                ..self.raise(VdpStatus::SPRITE_OVERFLOW).queue(VdpInterruptType::SpriteOverflow, 3)
            }
        } else {
            self
        }
    }

    /// A sprite collision, reported once per frame.
    #[verifier::opaque]
    pub open spec fn signal_sprite_collision(self) -> InterruptView {
        if !self.sprite_collision_detected {
            InterruptView {
                sprite_collision_detected: true,
                ..self.raise(VdpStatus::SPRITE_COLLISION).queue(
                    VdpInterruptType::SpriteCollision,
                    4,
                )
            }
        } else {
            self
        }
    }

    /// Everything that runs or waits is cleared; the video standard, the
    /// blanking thresholds and the programmed line stay.
    pub open spec fn reset(self) -> InterruptView {
        InterruptView {
            status: 0,
            enabled: 0,
            pending: Seq::empty(),
            h_counter: 0,
            v_counter: 0,
            cycle_counter: 0,
            vblank_count: 0,
            hblank_count: 0,
            scanline_irq_count: 0,
            sprite_overflow_line: None,
            sprite_collision_detected: false,
            ..self
        }
    }
}

/// The interrupt controller.
#[derive(Clone)]
pub struct VdpInterruptController {
    pub status: VdpStatus,
    pub enabled: VdpStatus,
    pub pending: Vec<PendingInterrupt>,
    pub h_counter: u16,
    pub v_counter: u16,
    pub cycle_counter: u64,
    pub h_blank_start: u16,
    pub v_blank_start: u16,
    pub scanline_irq_line: u16,
    pub sprite_overflow_line: Option<u16>,
    pub sprite_collision_detected: bool,
    pub is_pal: bool,
    pub is_interlaced: bool,
    pub vblank_count: u32,
    pub hblank_count: u32,
    pub scanline_irq_count: u32,
}

impl View for VdpInterruptController {
    type V = InterruptView;

    open spec fn view(&self) -> InterruptView {
        InterruptView {
            status: self.status.bits,
            enabled: self.enabled.bits,
            pending: self.pending@,
            h_counter: self.h_counter,
            v_counter: self.v_counter,
            cycle_counter: self.cycle_counter,
            h_blank_start: self.h_blank_start,
            v_blank_start: self.v_blank_start,
            scanline_irq_line: self.scanline_irq_line,
            sprite_overflow_line: self.sprite_overflow_line,
            sprite_collision_detected: self.sprite_collision_detected,
            is_pal: self.is_pal,
            is_interlaced: self.is_interlaced,
            vblank_count: self.vblank_count,
            hblank_count: self.hblank_count,
            scanline_irq_count: self.scanline_irq_count,
        }
    }
}

fn count_up32(count: u32) -> (next: u32)
    ensures
        next == next_count32(count),
{
    if count == u32::MAX {
        0
    } else {
        count + 1
    }
}

impl VdpInterruptController {
    /// A controller for NTSC with nothing enabled and nothing pending.
    pub fn new() -> (c: VdpInterruptController)
        ensures
            c@ == InterruptView::initial(),
    {
        let c = VdpInterruptController {
            status: VdpStatus::empty(),
            enabled: VdpStatus::empty(),
            pending: Vec::new(),
            h_counter: 0,
            v_counter: 0,
            cycle_counter: 0,
            h_blank_start: H40_VISIBLE_CYCLES,
            v_blank_start: NTSC_VISIBLE_LINES,
            scanline_irq_line: 0,
            sprite_overflow_line: None,
            sprite_collision_detected: false,
            is_pal: false,
            is_interlaced: false,
            vblank_count: 0,
            hblank_count: 0,
            scanline_irq_count: 0,
        };
        assert(c@.pending =~= InterruptView::initial().pending);
        c
    }

    /// Chooses the video standard and, with it, the number of visible lines.
    pub fn set_video_mode(&mut self, is_pal: bool)
        ensures
            final(self)@ == (InterruptView {
                is_pal,
                v_blank_start: if is_pal {
                    PAL_VISIBLE_LINES
                } else {
                    NTSC_VISIBLE_LINES
                },
                ..old(self)@
            }),
    {
        self.is_pal = is_pal;
        if is_pal {
            self.v_blank_start = PAL_VISIBLE_LINES;
        } else {
            self.v_blank_start = NTSC_VISIBLE_LINES;
        }
    }

    /// Lines of a frame: 313 for PAL, 262 for NTSC.
    pub fn total_lines(&self) -> (n: u16)
        ensures
            n == self@.total_lines(),
    {
        if self.is_pal {
            PAL_TOTAL_LINES
        } else {
            NTSC_TOTAL_LINES
        }
    }

    /// Cycles of a line: 424 for PAL, 342 for NTSC.
    pub fn cycles_per_line(&self) -> (n: u16)
        ensures
            n == self@.cycles_per_line(),
    {
        if self.is_pal {
            PAL_CYCLES_PER_LINE
        } else {
            NTSC_CYCLES_PER_LINE
        }
    }

    /// Takes the set-up from the registers.
    pub fn update_from_registers(&mut self, regs: &VdpRegisters)
        ensures
            final(self)@ == old(self)@.configured(regs.regs@),
    {
        reveal(InterruptView::configured);
        let r0: u8 = regs.regs[0];
        let r1: u8 = regs.regs[1];
        let r12: u8 = regs.regs[12];
        let mut enabled = VdpStatus::empty();
        enabled.set(VdpStatus::HBLANK, test_bit(r0, R0_HBLANK_ENABLE));
        enabled.set(VdpStatus::VBLANK, test_bit(r1, R1_VBLANK_ENABLE));
        enabled.set(VdpStatus::SCANLINE_IRQ, test_bit(r0, R0_LINE_ENABLE));
        self.enabled = enabled;
        self.scanline_irq_line = regs.regs[10] as u16;
        self.is_interlaced = (r12 / 2) % 4 != 0;
        self.h_blank_start = if r12 % 2 == 1 {
            H40_VISIBLE_CYCLES
        } else {
            H32_VISIBLE_CYCLES
        };
    }

    /// One cycle: the counters move on, the blanking and line events are
    /// raised and queued, and the DMA and FIFO flags follow the registers.
    pub fn tick(&mut self, regs: &VdpRegisters)
        ensures
            final(self)@ == old(self)@.tick(
                regs.dma_mode != DmaMode::Desativado && regs.dma_active,
                regs.fifo@.len() as int,
            ),
    {
        reveal(InterruptView::tick);
        reveal(InterruptView::with_port_state);
        self.advance();
        self.check_hblank();
        self.check_vblank();
        self.status.set(VdpStatus::DMA_ACTIVE, regs.dma_enabled() && regs.dma_in_progress());
        let len: usize = regs.fifo.len();
        if len == 0 {
            self.status.insert(VdpStatus::FIFO_EMPTY);
            self.status.remove(VdpStatus::FIFO_FULL);
        } else if len >= 4 {
            self.status.insert(VdpStatus::FIFO_FULL);
            self.status.remove(VdpStatus::FIFO_EMPTY);
        } else {
            self.status.remove(VdpStatus::FIFO_FLAGS);
        }
    }

    fn advance(&mut self)
        ensures
            final(self)@ == old(self)@.advance(),
    {
        reveal(InterruptView::advance);
        reveal(InterruptView::end_of_line);
        reveal(InterruptView::end_of_frame);
        reveal(InterruptView::check_scanline_irq);
        reveal(InterruptView::queue);
        self.cycle_counter = if self.cycle_counter == u64::MAX {
            0
        } else {
            self.cycle_counter + 1
        };
        let cycles_per_line: u16 = self.cycles_per_line();
        if self.h_counter as u32 + 1 >= cycles_per_line as u32 {
            self.h_counter = 0;
            self.end_of_line();
            let total_lines: u16 = self.total_lines();
            if self.v_counter as u32 + 1 >= total_lines as u32 {
                self.v_counter = 0;
                self.end_of_frame();
            } else {
                self.v_counter = self.v_counter + 1;
            }
            self.check_scanline_irq();
            self.sprite_overflow_line = None;
        } else {
            self.h_counter = self.h_counter + 1;
        }
    }

    fn end_of_line(&mut self)
        ensures
            final(self)@ == old(self)@.end_of_line(),
    {
        reveal(InterruptView::end_of_line);
        self.status.remove(VdpStatus::HBLANK);
        self.hblank_count = count_up32(self.hblank_count);
    }

    fn end_of_frame(&mut self)
        ensures
            final(self)@ == old(self)@.end_of_frame(),
    {
        reveal(InterruptView::end_of_frame);
        self.vblank_count = count_up32(self.vblank_count);
        self.sprite_collision_detected = false;
        self.status.remove(VdpStatus::SPRITE_COLLISION);
        self.status.remove(VdpStatus::SPRITE_OVERFLOW);
    }

    fn check_hblank(&mut self)
        ensures
            final(self)@ == old(self)@.check_hblank(),
    {
        reveal(InterruptView::check_hblank);
        if self.h_counter == self.h_blank_start {
            self.status.insert(VdpStatus::HBLANK);
            if self.enabled.contains(VdpStatus::HBLANK) {
                self.queue_interrupt(VdpInterruptType::HBlank, 1);
            }
        }
    }

    fn check_vblank(&mut self)
        ensures
            final(self)@ == old(self)@.check_vblank(),
    {
        reveal(InterruptView::check_vblank);
        if self.v_counter == self.v_blank_start && self.h_counter == 0 {
            self.status.insert(VdpStatus::VBLANK);
            if self.enabled.contains(VdpStatus::VBLANK) {
                self.queue_interrupt(VdpInterruptType::VBlank, 0);
            }
        }
    }

    fn check_scanline_irq(&mut self)
        ensures
            final(self)@ == old(self)@.check_scanline_irq(),
    {
        reveal(InterruptView::check_scanline_irq);
        reveal(InterruptView::queue);
        if self.enabled.contains(VdpStatus::SCANLINE_IRQ) {
            let current_line: u32 = if self.is_interlaced {
                self.v_counter as u32 * 2
            } else {
                self.v_counter as u32
            };
            if current_line == self.scanline_irq_line as u32 {
                self.status.insert(VdpStatus::SCANLINE_IRQ);
                self.queue_interrupt(VdpInterruptType::Scanline, 2);
                self.scanline_irq_count = count_up32(self.scanline_irq_count);
            }
        }
    }

    /// Puts an interrupt in the queue, behind the entries of a higher or the
    /// same priority and before those of a lower one.
    pub fn queue_interrupt(&mut self, irq_type: VdpInterruptType, priority: u8)
        ensures
            final(self)@ == old(self)@.queue(irq_type, priority),
    {
        reveal(InterruptView::queue);
        let interrupt = PendingInterrupt { irq_type, timestamp: self.cycle_counter, priority };
        let mut pos: usize = 0;
        while pos < self.pending.len() && !(self.pending[pos].priority > priority || (
        self.pending[pos].priority == priority && self.pending[pos].timestamp > self.cycle_counter))
            invariant
                *self == *old(self),
                pos <= self.pending@.len(),
                queue_position(self.pending@, priority, self.cycle_counter) == first_served_after(
                    self.pending@,
                    priority,
                    self.cycle_counter,
                    pos as int,
                ),
            decreases self.pending@.len() - pos,
        {
            pos += 1;
        }
        self.pending.insert(pos, interrupt);
    }

    /// Reports more sprites on `line` than a line can show; once per line.
    pub fn signal_sprite_overflow(&mut self, line: u16)
        ensures
            final(self)@ == old(self)@.signal_sprite_overflow(line),
    {
        reveal(InterruptView::signal_sprite_overflow);
        if self.sprite_overflow_line.is_none() {
            self.status.insert(VdpStatus::SPRITE_OVERFLOW);
            self.queue_interrupt(VdpInterruptType::SpriteOverflow, 3);
            self.sprite_overflow_line = Some(line);
        }
    }

    /// Reports two overlapping sprites; once per frame.
    pub fn signal_sprite_collision(&mut self)
        ensures
            final(self)@ == old(self)@.signal_sprite_collision(),
    {
        reveal(InterruptView::signal_sprite_collision);
        if !self.sprite_collision_detected {
            self.status.insert(VdpStatus::SPRITE_COLLISION);
            self.queue_interrupt(VdpInterruptType::SpriteCollision, 4);
            self.sprite_collision_detected = true;
        }
    }

    /// Reports the end of a DMA transfer.
    pub fn signal_dma_complete(&mut self)
        ensures
            final(self)@ == old(self)@.queue(VdpInterruptType::DmaComplete, 5),
    {
        self.queue_interrupt(VdpInterruptType::DmaComplete, 5);
    }

    /// The status flags; reading clears the two blanking flags and the line
    /// interrupt flag and leaves the others.
    pub fn read_status(&mut self) -> (status: u8)
        ensures
            status == old(self)@.status,
            final(self)@ == old(self)@.lower(VdpStatus::CLEARED_ON_READ),
    {
        let status: u8 = self.status.bits();
        self.status.remove(VdpStatus::CLEARED_ON_READ);
        status
    }

    /// Whether an interrupt waits.
    pub fn has_interrupt(&self) -> (b: bool)
        ensures
            b == (self@.pending.len() > 0),
    {
        self.pending.len() > 0
    }

    /// The interrupt that is served next, left in the queue.
    pub fn peek_interrupt(&self) -> (next: Option<&PendingInterrupt>)
        ensures
            self@.pending.len() == 0 ==> next is None,
            self@.pending.len() > 0 ==> next == Some(&self@.pending[0]),
    {
        if self.pending.len() > 0 {
            Some(&self.pending[0])
        } else {
            None
        }
    }

    /// Takes the interrupt that is served next out of the queue.
    pub fn pop_interrupt(&mut self) -> (next: Option<PendingInterrupt>)
        ensures
            old(self)@.pending.len() == 0 ==> next is None && *final(self) == *old(self),
            old(self)@.pending.len() > 0 ==> next == Some(old(self)@.pending[0]) && final(self)@
                == (InterruptView { pending: old(self)@.pending.remove(0), ..old(self)@ }),
    {
        if self.pending.len() > 0 {
            Some(self.pending.remove(0))
        } else {
            None
        }
    }

    /// Drops every waiting interrupt of the kind `irq_type`; the others keep their order.
    pub fn clear_interrupts(&mut self, irq_type: VdpInterruptType)
        ensures
            final(self)@ == (InterruptView {
                pending: old(self)@.pending.filter(|p: PendingInterrupt| p.irq_type != irq_type),
                ..old(self)@
            }),
    {
        let ghost keep = |p: PendingInterrupt| p.irq_type != irq_type;
        let mut kept: Vec<PendingInterrupt> = Vec::new();
        let mut i: usize = 0;
        while i < self.pending.len()
            invariant
                *self == *old(self),
                i <= self.pending@.len(),
                keep == |p: PendingInterrupt| p.irq_type != irq_type,
                kept@ == self.pending@.take(i as int).filter(keep),
            decreases self.pending@.len() - i,
        {
            let entry: PendingInterrupt = self.pending[i];
            proof {
                let next = self.pending@.take(i as int + 1);
                assert(next.drop_last() =~= self.pending@.take(i as int));
                assert(next.last() == entry);
                reveal_with_fuel(Seq::filter, 2);
            }
            if entry.irq_type != irq_type {
                kept.push(entry);
            }
            i += 1;
        }
        proof {
            assert(self.pending@.take(i as int) =~= self.pending@);
        }
        self.pending = kept;
    }

    /// Clears flags, queue and counters; the video standard and the
    /// blanking thresholds stay.
    pub fn reset(&mut self)
        ensures
            final(self)@ == old(self)@.reset(),
    {
        self.status = VdpStatus::empty();
        self.enabled = VdpStatus::empty();
        self.pending = Vec::new();
        self.h_counter = 0;
        self.v_counter = 0;
        self.cycle_counter = 0;
        self.vblank_count = 0;
        self.hblank_count = 0;
        self.scanline_irq_count = 0;
        self.sprite_overflow_line = None;
        self.sprite_collision_detected = false;
        assert(self@.pending =~= Seq::<PendingInterrupt>::empty());
    }

    /// The line being drawn.
    pub fn current_scanline(&self) -> (v: u16)
        ensures
            v == self.v_counter,
    {
        self.v_counter
    }

    /// The cycle within the line.
    pub fn current_hpos(&self) -> (h: u16)
        ensures
            h == self.h_counter,
    {
        self.h_counter
    }

    /// Whether the line lies below the picture.
    pub fn in_vblank(&self) -> (b: bool)
        ensures
            b == (self.v_counter >= self.v_blank_start),
    {
        self.v_counter >= self.v_blank_start
    }

    /// Whether the cycle lies right of the picture.
    pub fn in_hblank(&self) -> (b: bool)
        ensures
            b == (self.h_counter >= self.h_blank_start),
    {
        self.h_counter >= self.h_blank_start
    }

    /// Cycles since reset.
    pub fn current_cycle(&self) -> (c: u64)
        ensures
            c == self.cycle_counter,
    {
        self.cycle_counter
    }

    /// Frames, lines and line interrupts counted since reset.
    pub fn get_stats(&self) -> (s: (u32, u32, u32))
        ensures
            s == (self.vblank_count, self.hblank_count, self.scanline_irq_count),
    {
        (self.vblank_count, self.hblank_count, self.scanline_irq_count)
    }

    /// The name of an event.
    pub fn interrupt_to_string(irq_type: VdpInterruptType) -> (name: &'static str)
        ensures
            name@ == interrupt_name(irq_type)@,
    {
        match irq_type {
            VdpInterruptType::VBlank => "VBlank",
            VdpInterruptType::HBlank => "HBlank",
            VdpInterruptType::Scanline => "Scanline",
            VdpInterruptType::SpriteOverflow => "SpriteOverflow",
            VdpInterruptType::SpriteCollision => "SpriteCollision",
            VdpInterruptType::DmaComplete => "DmaComplete",
        }
    }
}

/// The name of an event.
pub open spec fn interrupt_name(irq_type: VdpInterruptType) -> &'static str {
    match irq_type {
        VdpInterruptType::VBlank => "VBlank",
        VdpInterruptType::HBlank => "HBlank",
        VdpInterruptType::Scanline => "Scanline",
        VdpInterruptType::SpriteOverflow => "SpriteOverflow",
        VdpInterruptType::SpriteCollision => "SpriteCollision",
        VdpInterruptType::DmaComplete => "DmaComplete",
    }
}

/// Every entry before the place of a new one is served no later than it,
/// and the entry at that place, if there is one, is served after it.
pub proof fn lemma_queue_position(
    queue: Seq<PendingInterrupt>,
    priority: u8,
    timestamp: u64,
    from: int,
)
    requires
        0 <= from <= queue.len(),
    ensures
        from <= first_served_after(queue, priority, timestamp, from) <= queue.len(),
        forall|i: int|
            from <= i < first_served_after(queue, priority, timestamp, from) ==> !served_after(
                #[trigger] queue[i],
                priority,
                timestamp,
            ),
        first_served_after(queue, priority, timestamp, from) < queue.len() ==> served_after(
            queue[first_served_after(queue, priority, timestamp, from)],
            priority,
            timestamp,
        ),
    decreases queue.len() - from,
{
    if from < queue.len() && !served_after(queue[from], priority, timestamp) {
        lemma_queue_position(queue, priority, timestamp, from + 1);
    }
}

/// Queueing keeps the order of service: a queue whose priorities never fall
/// still has that property after any interrupt was queued, and the new entry
/// stands behind every entry of a higher priority.
pub proof fn lemma_queue_keeps_order(
    view: InterruptView,
    irq_type: VdpInterruptType,
    priority: u8,
)
    requires
        in_service_order(view.pending),
    ensures
        in_service_order(view.queue(irq_type, priority).pending),
        view.queue(irq_type, priority).pending.len() == view.pending.len() + 1,
        forall|i: int|
            0 <= i < view.pending.len() && view.pending[i].priority < priority ==> view.queue(
                irq_type,
                priority,
            ).pending[i] == view.pending[i],
{
    reveal(InterruptView::queue);
    let q = view.pending;
    let pos = queue_position(q, priority, view.cycle_counter);
    lemma_queue_position(q, priority, view.cycle_counter, 0);
    let item = PendingInterrupt { irq_type, timestamp: view.cycle_counter, priority };
    let r = q.insert(pos, item);
    assert forall|i: int, j: int| 0 <= i < j < r.len() implies r[i].priority <= r[j].priority by {
        if pos < q.len() {
            assert(served_after(q[pos], priority, view.cycle_counter));
        }
        if i < pos {
            assert(r[i] == q[i]);
            assert(!served_after(q[i], priority, view.cycle_counter));
        }
        if j < pos {
            assert(r[j] == q[j]);
        }
        if i > pos {
            assert(r[i] == q[i - 1]);
        }
        if j > pos {
            assert(r[j] == q[j - 1]);
            if pos < q.len() && j - 1 > pos {
                assert(q[pos].priority <= q[j - 1].priority);
            }
        }
    }
    assert forall|i: int| 0 <= i < q.len() && q[i].priority < priority implies r[i] == q[i] by {
        if i >= pos {
            if pos < q.len() && i > pos {
                assert(q[pos].priority <= q[i].priority);
            }
        }
    }
}

/// Of two queued events the one of the higher priority is served first,
/// whichever was queued first.
pub proof fn lemma_priority_decides(
    view: InterruptView,
    first: VdpInterruptType,
    second: VdpInterruptType,
)
    requires
        view.pending.len() == 0,
        priority_of(first) != priority_of(second),
    ensures
        ({
            let queued = view.queue(first, priority_of(first)).queue(second, priority_of(second));
            &&& queued.pending.len() == 2
            &&& queued.pending[0].irq_type == (if priority_of(first) < priority_of(second) {
                first
            } else {
                second
            })
            &&& queued.pending[1].irq_type == (if priority_of(first) < priority_of(second) {
                second
            } else {
                first
            })
        }),
{
    reveal(InterruptView::queue);
    let one = view.queue(first, priority_of(first));
    assert(queue_position(view.pending, priority_of(first), view.cycle_counter) == 0);
    assert(one.pending.len() == 1);
    reveal_with_fuel(first_served_after, 3);
}

/// Queueing changes the queue alone.
pub proof fn lemma_queue_changes_queue_only(
    view: InterruptView,
    irq_type: VdpInterruptType,
    priority: u8,
)
    ensures
        view.queue(irq_type, priority) == (InterruptView {
            pending: view.queue(irq_type, priority).pending,
            ..view
        }),
{
    reveal(InterruptView::queue);
}

/// A sprite signal changes neither the counters nor the set-up.
pub proof fn lemma_signals_keep_counters(view: InterruptView, line: u16)
    ensures
        view.signal_sprite_collision().same_counters(view),
        view.signal_sprite_overflow(line).same_counters(view),
{
    reveal(InterruptView::signal_sprite_collision);
    reveal(InterruptView::signal_sprite_overflow);
    reveal(InterruptView::queue);
}

/// After a cycle the counters are those that the advance left, and the
/// set-up is as before.
pub proof fn lemma_tick_counters(view: InterruptView, dma_busy: bool, fifo_len: int)
    ensures
        view.tick(dma_busy, fifo_len).same_counters(view.advance()),
        view.advance().cycle_counter == next_count(view.cycle_counter),
        view.advance().h_blank_start == view.h_blank_start,
        view.advance().v_blank_start == view.v_blank_start,
        view.advance().is_pal == view.is_pal,
{
    reveal(InterruptView::tick);
    reveal(InterruptView::with_port_state);
    reveal(InterruptView::check_hblank);
    reveal(InterruptView::check_vblank);
    reveal(InterruptView::advance);
    reveal(InterruptView::end_of_line);
    reveal(InterruptView::end_of_frame);
    reveal(InterruptView::check_scanline_irq);
    reveal(InterruptView::queue);
}

impl Default for VdpInterruptController {
    fn default() -> (c: VdpInterruptController)
        ensures
            c@ == InterruptView::initial(),
    {
        VdpInterruptController::new()
    }
}

} // verus!
