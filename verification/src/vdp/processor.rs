//! The processor as a whole: the parts wired together behind the ports, the
//! cycle and the frame.

use vstd::prelude::*;
use crate::text::{
    bool_text, decimal, fixed_digits, labelled_bool, labelled_number, labelled_text, push_bool,
    push_decimal, push_fixed, text_of,
};
use crate::vdp::cram::{stored_color, Cram};
use crate::vdp::dma::{DmaError, DmaMode, VdpDma};
use crate::vdp::framebuffer::FrameBuffer;
use crate::vdp::interrupts::{InterruptView, VdpInterruptController, VdpInterruptType};
use crate::vdp::planes::{Plane, PlaneManager, PlaneType};
use crate::vdp::registers::{
    next_count, with_flag, RegistersView, VdpAccessType, VdpAddress, VdpRegisters, VdpStatus,
};
use crate::vdp::renderer::{frame_cell, RenderFlags, RenderStats, VdpRenderer};
use crate::vdp::sprite::{
    any_collision, first_overflow, recorded_on_line, sprite_chain, SpriteTable,
    MAX_SPRITES_PER_FRAME, RECORDED_LINES,
};
use crate::vdp::video_modes::{VdpModeFlags, VdpVideoMode};
use crate::vdp::vram::{put16, Vram};
use crate::vdp::vsram::Vsram;

verus! {

/// Offsets of the ports within the eight bytes the processor is mapped to.
pub const PORT_DATA_LOW: u32 = 0;

pub const PORT_DATA_HIGH: u32 = 2;

pub const PORT_CONTROL_LOW: u32 = 4;

pub const PORT_CONTROL_HIGH: u32 = 6;

/// Whether the FIFO drains: the address latch is in write mode and an entry waits.
pub open spec fn drains(regs: RegistersView) -> bool {
    !regs.current_address.read_mode && regs.fifo.len() > 0
}

/// The registers after the oldest entry was drained, if the FIFO drains:
/// the entry has left and the address has moved on.
pub open spec fn after_drain(regs: RegistersView) -> RegistersView {
    if drains(regs) {
        regs.pop_fifo().increment_address()
    } else {
        regs
    }
}

/// A word with its low byte replaced.
pub open spec fn low_byte_set(word: u16, byte: u8) -> u16 {
    ((word as int / 256) * 256 + byte as int) as u16
}

/// A word with its high byte replaced.
pub open spec fn high_byte_set(word: u16, byte: u8) -> u16 {
    (byte as int * 256 + word as int % 256) as u16
}

/// The destination address a DMA gets from the address latch: the kind of
/// memory in bits 14 and 15 above the address.
pub open spec fn dma_destination(address: VdpAddress) -> u16 {
    ((match address.access_type {
        VdpAccessType::VRAM => 0int,
        VdpAccessType::CRAM => 1int,
        VdpAccessType::VSRAM => 2int,
    }) * 0x4000 + address.addr as int % 0x4000) as u16
}

/// The word that a read of the data port finds at the address latch.
pub open spec fn word_at_latch(
    address: VdpAddress,
    vram: &Vram,
    cram: &Cram,
    vsram: &Vsram,
) -> u16 {
    match address.access_type {
        VdpAccessType::VRAM => vram.word_at(address.addr as int),
        VdpAccessType::CRAM => cram.data@[address.addr as int % 64],
        VdpAccessType::VSRAM => vsram.data@[(address.addr as int % 80) / 2],
    }
}

/// The memories `vram`, `cram` and `vsram` are what `old_vram`, `old_cram`
/// and `old_vsram` become by one tick of the engine `dma` with the host word
/// `word`: what the transfer of that word makes of them where the engine is
/// running and transfers on this tick, and unchanged else.
#[verifier::opaque]
pub open spec fn dma_moved(
    dma: VdpDma,
    word: Option<u16>,
    old_vram: &Vram,
    old_cram: &Cram,
    old_vsram: &Vsram,
    vram: &Vram,
    cram: &Cram,
    vsram: &Vsram,
) -> bool {
    if dma.active && dma.transfers_next() {
        &&& vram.data@ == dma.vram_after(old_vram.data@, word.unwrap_or(0))
        &&& cram.data@ == dma.cram_after(old_cram.data@, word.unwrap_or(0))
        &&& vsram.data@ == dma.vsram_after(old_vsram.data@, word.unwrap_or(0))
        &&& vsram.same_mode_as(old_vsram)
    } else {
        &&& vram.data@ == old_vram.data@
        &&& *cram == *old_cram
        &&& *vsram == *old_vsram
    }
}

/// The sprite table holds the sprites of the frame: those that the table in
/// video RAM at `base` links from its entry 0, examined for the first line
/// with more than twenty sprites and for collisions on a screen `width` by
/// `height`.
#[verifier::opaque]
pub open spec fn holds_frame_sprites(
    table: &SpriteTable,
    vram: &Vram,
    base: u16,
    high_color_mode: bool,
    width: u16,
    height: u16,
) -> bool {
    &&& table.sprites@ == sprite_chain(
        vram,
        base as int,
        high_color_mode,
        0,
        MAX_SPRITES_PER_FRAME as int,
    )
    &&& table.base_address == base
    &&& table.high_color_mode == high_color_mode
    &&& table.collision_detected == any_collision(table.sprites@, width as int, height as int)
    &&& table.overflow_line == first_overflow(
        table.sprites@,
        0,
        if height < RECORDED_LINES {
            height as int
        } else {
            RECORDED_LINES as int
        },
    )
    &&& forall|line: int|
        0 <= line < RECORDED_LINES ==> table.active_sprites_per_line@[line] == recorded_on_line(
            table.sprites@,
            line,
            height as int,
        )
}

/// The interrupt controller after the sprites of a frame were examined: a
/// collision and an overflow are each signalled where the table found one.
pub open spec fn sprite_signals(base: InterruptView, table: &SpriteTable) -> InterruptView {
    let collided = if table.collision_detected {
        base.signal_sprite_collision()
    } else {
        base
    };
    match table.overflow_line {
        Some(line) => collided.signal_sprite_overflow(line),
        None => collided,
    }
}

/// The registers `after` are the registers `before`, but for a DMA that
/// ended: then the DMA is no longer armed and the DMA flag of the status is
/// cleared.
#[verifier::opaque]
pub open spec fn dma_closed(before: &VdpRegisters, after: &VdpRegisters, ended: bool) -> bool {
    after@ == (if ended {
        RegistersView {
            dma_active: false,
            status: with_flag(before@.status, VdpStatus::DMA_ACTIVE, false),
            ..before@
        }
    } else {
        before@
    })
}

/// The memories `vram`, `cram` and `vsram` are what `old_vram`, `old_cram`
/// and `old_vsram` become when the FIFO of `regs` drains: the oldest entry is
/// written to the memory and address of the address latch, where an index
/// into colour RAM wraps modulo 64 and a byte address into scroll RAM modulo
/// 80. They are unchanged where the FIFO does not drain.
#[verifier::opaque]
pub open spec fn drained_to(
    regs: RegistersView,
    old_vram: &Vram,
    old_cram: &Cram,
    old_vsram: &Vsram,
    vram: &Vram,
    cram: &Cram,
    vsram: &Vsram,
) -> bool {
    let address = regs.current_address;
    &&& vram.size == old_vram.size
    &&& vram.data@ == (if drains(regs) && address.access_type == VdpAccessType::VRAM {
        put16(old_vram.data@, address.addr as int, regs.fifo[0])
    } else {
        old_vram.data@
    })
    &&& cram.data@ == (if drains(regs) && address.access_type == VdpAccessType::CRAM {
        old_cram.data@.update(address.addr as int % 64, stored_color(regs.fifo[0]))
    } else {
        old_cram.data@
    })
    &&& vsram.data@ == (if drains(regs) && address.access_type == VdpAccessType::VSRAM {
        old_vsram.data@.update((address.addr as int % 80) / 2, regs.fifo[0])
    } else {
        old_vsram.data@
    })
    &&& vsram.same_mode_as(old_vsram)
    &&& drains(regs) && address.access_type == VdpAccessType::VSRAM ==> vsram.scroll_follows_data()
    &&& !(drains(regs) && address.access_type == VdpAccessType::VSRAM) ==> *vsram == *old_vsram
    &&& !(drains(regs) && address.access_type == VdpAccessType::CRAM) ==> *cram == *old_cram
}

/// The video display processor.
#[derive(Clone)]
pub struct Vdp {
    pub regs: VdpRegisters,
    pub cram: Cram,
    pub vram: Vram,
    pub vsram: Vsram,
    pub dma: VdpDma,
    pub interrupts: VdpInterruptController,
    pub renderer: VdpRenderer,
    pub video_mode: VdpVideoMode,
    pub plane_manager: Option<PlaneManager>,
    pub sprite_table: SpriteTable,
    pub is_pal: bool,
    pub frame_counter: u64,
    pub cycles_elapsed: u64,
    pub display_enabled: bool,
    pub vblank_active: bool,
    pub hblank_active: bool,
}

impl Vdp {
    /// Every part is well formed.
    pub open spec fn wf(&self) -> bool {
        &&& self.regs.wf()
        &&& self.vram.wf()
        &&& self.renderer.wf()
        &&& self.sprite_table.wf()
        &&& self.plane_manager is Some ==> self.plane_manager->0.wf()
    }

    /// Whether every part is well formed. A caller that has changed the
    /// public fields by hand finds out here whether the operations may be
    /// used.
    pub fn is_well_formed(&self) -> (ok: bool)
        ensures
            ok == self.wf(),
    {
        let planes: bool = match &self.plane_manager {
            Some(manager) => manager.is_well_formed(),
            None => true,
        };
        self.regs.is_well_formed() && self.vram.is_well_formed() && self.renderer.is_well_formed()
            && self.sprite_table.is_well_formed() && planes
    }

    /// The processor after power-on, for PAL or for NTSC.
    pub fn new(is_pal: bool) -> (v: Vdp)
        ensures
            v.wf(),
            v.is_pal == is_pal,
            v.regs@ == RegistersView::initial(),
            v.dma == VdpDma::idle(),
            v.interrupts@ == (InterruptView {
                is_pal,
                v_blank_start: if is_pal {
                    240u16
                } else {
                    224u16
                },
                ..InterruptView::initial()
            }),
            v.video_mode == VdpVideoMode::ntsc_320x224(),
            v.plane_manager is None,
            v.sprite_table.sprites@.len() == 0,
            v.sprite_table.base_address == 0xF800,
            v.frame_counter == 0,
            v.cycles_elapsed == 0,
            v.display_enabled,
            !v.vblank_active,
            !v.hblank_active,
            v.vram.size == 65536,
            v.renderer.frame_buffer.width == 320,
            v.renderer.frame_buffer.height == 224,
    {
        let video_mode = VdpVideoMode::new_default();
        let renderer = VdpRenderer::new(video_mode);
        let mut interrupts = VdpInterruptController::new();
        interrupts.set_video_mode(is_pal);
        Vdp {
            regs: VdpRegisters::new(),
            cram: Cram::new(),
            vram: Vram::new(),
            vsram: Vsram::new(),
            dma: VdpDma::new(),
            interrupts,
            renderer,
            video_mode,
            plane_manager: None,
            sprite_table: SpriteTable::new(0xF800, false),
            is_pal,
            frame_counter: 0,
            cycles_elapsed: 0,
            display_enabled: true,
            vblank_active: false,
            hblank_active: false,
        }
    }

    /// Brings the parts in line with the registers: the mode, the planes,
    /// the interrupt set-up and the DMA set-up.
    pub fn initialize(&mut self)
        requires
            old(self).wf(),
        ensures
            final(self).wf(),
            final(self).regs == old(self).regs,
            final(self).cram == old(self).cram,
            final(self).vram == old(self).vram,
            final(self).vsram == old(self).vsram,
            final(self).video_mode == VdpVideoMode::of_registers(&old(self).regs, old(self).is_pal),
            final(self).renderer.video_mode == final(self).video_mode,
            final(self).renderer.frame_buffer.width == final(self).video_mode.visible_width,
            final(self).renderer.frame_buffer.height == final(self).video_mode.visible_height,
            final(self).planes() == Some(
                (
                    Plane::of_registers(PlaneType::A, &old(self).regs),
                    Plane::of_registers(PlaneType::B, &old(self).regs),
                    Plane::of_registers(PlaneType::Window, &old(self).regs),
                ),
            ),
            final(self).interrupts@ == old(self).interrupts@.configured(old(self).regs.regs@),
            final(self).dma == old(self).dma.after_setup(&old(self).regs, 0),
            final(self).is_pal == old(self).is_pal,
            final(self).frame_counter == old(self).frame_counter,
            final(self).cycles_elapsed == old(self).cycles_elapsed,
            final(self).sprite_table == old(self).sprite_table,
            final(self).display_enabled == old(self).display_enabled,
            final(self).vblank_active == old(self).vblank_active,
            final(self).hblank_active == old(self).hblank_active,
            final(self).renderer.flags() == old(self).renderer.flags(),
            final(self).renderer.render_enabled == old(self).renderer.render_enabled,
            final(self).renderer.frames_rendered == old(self).renderer.frames_rendered,
            final(self).renderer.last_frame_time == old(self).renderer.last_frame_time,
    {
        self.update_video_mode();
        self.plane_manager = Some(PlaneManager::new(&self.regs, &self.video_mode));
        self.interrupts.update_from_registers(&self.regs);
        self.dma.setup_from_registers(&self.regs, 0);
    }

    /// Takes the mode from the registers and gives the frame buffer its resolution.
    pub fn update_video_mode(&mut self)
        requires
            old(self).wf(),
        ensures
            final(self).wf(),
            final(self).video_mode == VdpVideoMode::of_registers(&old(self).regs, old(self).is_pal),
            final(self).renderer.video_mode == final(self).video_mode,
            final(self).renderer.frame_buffer.width == final(self).video_mode.visible_width,
            final(self).renderer.frame_buffer.height == final(self).video_mode.visible_height,
            final(self).renderer.flags() == old(self).renderer.flags(),
            final(self).renderer.render_enabled == old(self).renderer.render_enabled,
            final(self).renderer.frames_rendered == old(self).renderer.frames_rendered,
            final(self).renderer.last_frame_time == old(self).renderer.last_frame_time,
            final(self).regs == old(self).regs,
            final(self).cram == old(self).cram,
            final(self).vram == old(self).vram,
            final(self).vsram == old(self).vsram,
            final(self).dma == old(self).dma,
            final(self).interrupts == old(self).interrupts,
            final(self).plane_manager == old(self).plane_manager,
            final(self).sprite_table == old(self).sprite_table,
            final(self).is_pal == old(self).is_pal,
            final(self).frame_counter == old(self).frame_counter,
            final(self).cycles_elapsed == old(self).cycles_elapsed,
            final(self).display_enabled == old(self).display_enabled,
            final(self).vblank_active == old(self).vblank_active,
            final(self).hblank_active == old(self).hblank_active,
    {
        self.video_mode = VdpVideoMode::from_registers(&self.regs, self.is_pal);
        let (width, height) = self.video_mode.resolution();
        if self.renderer.frame_buffer.width != width as usize || self.renderer.frame_buffer.height
            != height as usize {
            assert(width * height <= 0xFFFF * 0xFFFF) by (nonlinear_arith)
                requires
                    0 <= width <= 0xFFFF,
                    0 <= height <= 0xFFFF,
            ;
            self.renderer.resize(width as usize, height as usize);
        }
        self.renderer.video_mode = self.video_mode;
    }

    /// The host address whose word the next tick needs for its DMA, if it needs one.
    pub fn dma_source_request(&self) -> (request: Option<u32>)
        ensures
            request == (if self.dma.needs_source() {
                Some(self.dma.source_addr)
            } else {
                None
            }),
    {
        self.dma.source_request()
    }

    /// Whether the tick begins the vertical blank: the line the counters
    /// reach lies below the picture and the blank was not yet noted.
    pub open spec fn vblank_begins(&self) -> bool {
        let after = self.interrupts@.advance();
        after.v_counter >= after.v_blank_start && !self.vblank_active
    }

    /// The interrupt controller after the tick, where `table` is the sprite
    /// table after it: the controller has made its own cycle, the end of a
    /// DMA is queued, and at the start of the vertical blank the collision
    /// and the overflow that the table found are signalled.
    pub open spec fn ticked_interrupts(&self, table: &SpriteTable) -> InterruptView {
        let cycled = self.interrupts@.tick(
            self.regs.dma_mode != crate::vdp::registers::DmaMode::Desativado
                && self.regs.dma_active,
            self.regs.fifo@.len() as int,
        );
        let dma_done = if self.dma_ends() {
            cycled.queue(VdpInterruptType::DmaComplete, 5)
        } else {
            cycled
        };
        if self.vblank_begins() {
            sprite_signals(dma_done, table)
        } else {
            dma_done
        }
    }

    /// The planes after the tick: scrolled as the registers say where the
    /// tick begins a line.
    pub open spec fn ticked_planes(&self) -> Option<(Plane, Plane, Plane)> {
        match self.plane_manager {
            Some(manager) => if self.interrupts@.advance().h_counter == 0 {
                Some(manager.scrolled(&self.regs))
            } else {
                Some((manager.plane_a, manager.plane_b, manager.plane_window))
            },
            None => None,
        }
    }

    /// The DMA engine after the word `value` was written to the control
    /// port, where `regs` are the registers after it: a write command that
    /// arms a DMA while the engine is idle sets the engine up from the
    /// registers, with the address latch as its destination.
    pub open spec fn armed_dma(&self, value: u16, regs: &VdpRegisters) -> VdpDma {
        let written = self.regs@.write_control_port(value);
        if written.dma_active && !self.dma.active {
            self.dma.after_setup(regs, dma_destination(written.current_address))
        } else {
            self.dma
        }
    }

    /// The three planes of the plane manager, if there is one.
    pub open spec fn planes(&self) -> Option<(Plane, Plane, Plane)> {
        match self.plane_manager {
            Some(manager) => Some((manager.plane_a, manager.plane_b, manager.plane_window)),
            None => None,
        }
    }

    /// Whether the DMA ends with this tick.
    pub open spec fn dma_ends(&self) -> bool {
        self.dma.active && self.dma.ends_with_tick()
    }

    /// One cycle: the counters move on and raise their interrupts, a running
    /// DMA moves one word, and at the start of the vertical blank the frame
    /// is counted and the sprites of the next frame are read and examined.
    ///
    /// `source_word` is the host's word at `dma_source_request()`. Where the
    /// DMA needs a word and none is given, the tick fails with the error of
    /// the DMA and changes nothing.
    #[verifier::rlimit(40)]
    pub fn tick(&mut self, source_word: Option<u16>) -> (result: Result<(), DmaError>)
        requires
            old(self).wf(),
        ensures
            final(self).wf(),
            old(self).dma.needs_source() && source_word is None ==> {
                &&& result == Err::<(), DmaError>(
                    DmaError::SourceReadFailed { address: old(self).dma.source_addr },
                )
                &&& *final(self) == *old(self)
            },
            !(old(self).dma.needs_source() && source_word is None) ==> {
                &&& result is Ok
                &&& final(self).cycles_elapsed == next_count(old(self).cycles_elapsed)
                &&& final(self).dma == (if old(self).dma.active {
                    old(self).dma.after_tick()
                } else {
                    old(self).dma
                })
                &&& final(self).vram.size == old(self).vram.size
                &&& dma_moved(
                    old(self).dma,
                    source_word,
                    &old(self).vram,
                    &old(self).cram,
                    &old(self).vsram,
                    &final(self).vram,
                    &final(self).cram,
                    &final(self).vsram,
                )
                &&& dma_closed(&old(self).regs, &final(self).regs, old(self).dma_ends())
                &&& final(self).interrupts@ == old(self).ticked_interrupts(
                    &final(self).sprite_table,
                )
                &&& final(self).planes() == old(self).ticked_planes()
                &&& final(self).interrupts.h_counter == old(self).interrupts@.advance().h_counter
                &&& final(self).interrupts.v_counter == old(self).interrupts@.advance().v_counter
                &&& final(self).interrupts.cycle_counter == next_count(
                    old(self).interrupts.cycle_counter,
                )
                &&& final(self).frame_counter == (if old(self).vblank_begins() {
                    next_count(old(self).frame_counter)
                } else {
                    old(self).frame_counter
                })
                &&& final(self).vblank_active == (final(self).interrupts.v_counter >= final(self).interrupts.v_blank_start)
                &&& final(self).hblank_active == (final(self).interrupts.h_counter >= final(self).interrupts.h_blank_start)
                &&& old(self).vblank_begins() ==> holds_frame_sprites(
                    &final(self).sprite_table,
                    &final(self).vram,
                    old(self).regs.sprite_table_addr,
                    old(self).sprite_table.high_color_mode,
                    old(self).video_mode.visible_width,
                    old(self).video_mode.visible_height,
                )
                &&& !old(self).vblank_begins() ==> final(self).sprite_table == old(self).sprite_table
                &&& final(self).is_pal == old(self).is_pal
                &&& final(self).video_mode == old(self).video_mode
                &&& final(self).renderer == old(self).renderer
                &&& final(self).display_enabled == old(self).display_enabled
            },
    {
        if self.dma.source_request().is_some() && source_word.is_none() {
            return Err(DmaError::SourceReadFailed { address: self.dma.source_addr });
        }
        self.count_cycle();
        proof {
            crate::vdp::interrupts::lemma_tick_counters(
                old(self).interrupts@,
                old(self).regs.dma_mode != crate::vdp::registers::DmaMode::Desativado && old(self).regs.dma_active,
                old(self).regs.fifo@.len() as int,
            );
        }
        let ghost ticked = self.interrupts@;
        self.dma_step(source_word);
        proof {
            crate::vdp::interrupts::lemma_queue_changes_queue_only(
                ticked,
                VdpInterruptType::DmaComplete,
                5,
            );
        }
        self.update_counters();
        if self.interrupts.current_hpos() == 0 {
            self.render_scanline();
        }
        Ok(())
    }

    fn count_cycle(&mut self)
        requires
            old(self).wf(),
        ensures
            final(self).wf(),
            final(self).cycles_elapsed == next_count(old(self).cycles_elapsed),
            final(self).interrupts@ == old(self).interrupts@.tick(
                old(self).regs.dma_mode != crate::vdp::registers::DmaMode::Desativado && old(self).regs.dma_active,
                old(self).regs.fifo@.len() as int,
            ),
            final(self).regs == old(self).regs,
            final(self).cram == old(self).cram,
            final(self).vram == old(self).vram,
            final(self).vsram == old(self).vsram,
            final(self).dma == old(self).dma,
            final(self).renderer == old(self).renderer,
            final(self).video_mode == old(self).video_mode,
            final(self).plane_manager == old(self).plane_manager,
            final(self).sprite_table == old(self).sprite_table,
            final(self).is_pal == old(self).is_pal,
            final(self).frame_counter == old(self).frame_counter,
            final(self).display_enabled == old(self).display_enabled,
            final(self).vblank_active == old(self).vblank_active,
            final(self).hblank_active == old(self).hblank_active,
    {
        self.cycles_elapsed = if self.cycles_elapsed == u64::MAX {
            0
        } else {
            self.cycles_elapsed + 1
        };
        self.interrupts.tick(&self.regs);
    }

    fn dma_step(&mut self, source_word: Option<u16>)
        requires
            old(self).wf(),
            !(old(self).dma.needs_source() && source_word is None),
        ensures
            final(self).wf(),
            final(self).dma == (if old(self).dma.active {
                old(self).dma.after_tick()
            } else {
                old(self).dma
            }),
            dma_closed(&old(self).regs, &final(self).regs, old(self).dma_ends()),
            final(self).regs.sprite_table_addr == old(self).regs.sprite_table_addr,
            final(self).regs.regs == old(self).regs.regs,
            final(self).interrupts@ == (if old(self).dma_ends() {
                old(self).interrupts@.queue(VdpInterruptType::DmaComplete, 5)
            } else {
                old(self).interrupts@
            }),
            final(self).renderer == old(self).renderer,
            final(self).video_mode == old(self).video_mode,
            final(self).plane_manager == old(self).plane_manager,
            final(self).sprite_table == old(self).sprite_table,
            final(self).is_pal == old(self).is_pal,
            final(self).frame_counter == old(self).frame_counter,
            final(self).cycles_elapsed == old(self).cycles_elapsed,
            final(self).display_enabled == old(self).display_enabled,
            final(self).vblank_active == old(self).vblank_active,
            final(self).hblank_active == old(self).hblank_active,
            final(self).vram.size == old(self).vram.size,
            dma_moved(
                old(self).dma,
                source_word,
                &old(self).vram,
                &old(self).cram,
                &old(self).vsram,
                &final(self).vram,
                &final(self).cram,
                &final(self).vsram,
            ),
    {
        reveal(dma_closed);
        if self.dma.is_active() {
            let finished: bool = self.dma_transfer(source_word);
            if finished {
                self.dma_finished();
            }
        } else {
            reveal(dma_moved);
        }
    }

    fn dma_transfer(&mut self, source_word: Option<u16>) -> (finished: bool)
        requires
            old(self).wf(),
            old(self).dma.active,
            !(old(self).dma.needs_source() && source_word is None),
        ensures
            final(self).wf(),
            finished == old(self).dma.ends_with_tick(),
            final(self).dma == old(self).dma.after_tick(),
            final(self).vram.size == old(self).vram.size,
            old(self).dma.active ==> dma_moved(
                old(self).dma,
                source_word,
                &old(self).vram,
                &old(self).cram,
                &old(self).vsram,
                &final(self).vram,
                &final(self).cram,
                &final(self).vsram,
            ),
            final(self).regs == old(self).regs,
            final(self).interrupts == old(self).interrupts,
            final(self).renderer == old(self).renderer,
            final(self).video_mode == old(self).video_mode,
            final(self).plane_manager == old(self).plane_manager,
            final(self).sprite_table == old(self).sprite_table,
            final(self).is_pal == old(self).is_pal,
            final(self).frame_counter == old(self).frame_counter,
            final(self).cycles_elapsed == old(self).cycles_elapsed,
            final(self).display_enabled == old(self).display_enabled,
            final(self).vblank_active == old(self).vblank_active,
            final(self).hblank_active == old(self).hblank_active,
    {
        reveal(dma_moved);
        match self.dma.tick(source_word, &mut self.vram, &mut self.cram, &mut self.vsram) {
            Ok(done) => done,
            Err(_e) => false,
        }
    }

    fn dma_finished(&mut self)
        requires
            old(self).wf(),
        ensures
            final(self).wf(),
            final(self).regs@ == (RegistersView {
                dma_active: false,
                status: with_flag(old(self).regs@.status, VdpStatus::DMA_ACTIVE, false),
                ..old(self).regs@
            }),
            final(self).interrupts@ == old(self).interrupts@.queue(VdpInterruptType::DmaComplete, 5),
            final(self).dma == old(self).dma,
            final(self).vram == old(self).vram,
            final(self).cram == old(self).cram,
            final(self).vsram == old(self).vsram,
            final(self).renderer == old(self).renderer,
            final(self).video_mode == old(self).video_mode,
            final(self).plane_manager == old(self).plane_manager,
            final(self).sprite_table == old(self).sprite_table,
            final(self).is_pal == old(self).is_pal,
            final(self).frame_counter == old(self).frame_counter,
            final(self).cycles_elapsed == old(self).cycles_elapsed,
            final(self).display_enabled == old(self).display_enabled,
            final(self).vblank_active == old(self).vblank_active,
            final(self).hblank_active == old(self).hblank_active,
    {
        self.regs.set_dma_busy(false);
        self.regs.dma_active = false;
        self.interrupts.signal_dma_complete();
    }

    fn update_counters(&mut self)
        requires
            old(self).wf(),
        ensures
            final(self).wf(),
            final(self).regs == old(self).regs,
            final(self).cram == old(self).cram,
            final(self).vram == old(self).vram,
            final(self).vsram == old(self).vsram,
            final(self).dma == old(self).dma,
            final(self).renderer == old(self).renderer,
            final(self).video_mode == old(self).video_mode,
            final(self).plane_manager == old(self).plane_manager,
            final(self).is_pal == old(self).is_pal,
            final(self).cycles_elapsed == old(self).cycles_elapsed,
            final(self).display_enabled == old(self).display_enabled,
            final(self).interrupts@.same_counters(old(self).interrupts@),
            final(self).vblank_active == (old(self).interrupts.v_counter >= old(self).interrupts.v_blank_start),
            final(self).hblank_active == (old(self).interrupts.h_counter >= old(self).interrupts.h_blank_start),
            final(self).vblank_active && !old(self).vblank_active ==> {
                &&& final(self).frame_counter == next_count(old(self).frame_counter)
                &&& holds_frame_sprites(
                    &final(self).sprite_table,
                    &final(self).vram,
                    old(self).regs.sprite_table_addr,
                    old(self).sprite_table.high_color_mode,
                    old(self).video_mode.visible_width,
                    old(self).video_mode.visible_height,
                )
                &&& final(self).interrupts@ == sprite_signals(
                    old(self).interrupts@,
                    &final(self).sprite_table,
                )
            },
            !(final(self).vblank_active && !old(self).vblank_active) ==> {
                &&& final(self).frame_counter == old(self).frame_counter
                &&& final(self).sprite_table == old(self).sprite_table
                &&& final(self).interrupts == old(self).interrupts
            },
    {
        let in_vblank: bool = self.interrupts.in_vblank();
        if in_vblank && !self.vblank_active {
            self.vblank_active = true;
            self.on_vblank_start();
        } else if !in_vblank && self.vblank_active {
            self.vblank_active = false;
        }
        let in_hblank: bool = self.interrupts.in_hblank();
        if in_hblank && !self.hblank_active {
            self.hblank_active = true;
        } else if !in_hblank && self.hblank_active {
            self.hblank_active = false;
        }
    }

    #[verifier::rlimit(30)]
    fn on_vblank_start(&mut self)
        requires
            old(self).wf(),
        ensures
            final(self).wf(),
            final(self).regs == old(self).regs,
            final(self).cram == old(self).cram,
            final(self).vram == old(self).vram,
            final(self).vsram == old(self).vsram,
            final(self).dma == old(self).dma,
            final(self).renderer == old(self).renderer,
            final(self).video_mode == old(self).video_mode,
            final(self).plane_manager == old(self).plane_manager,
            final(self).is_pal == old(self).is_pal,
            final(self).cycles_elapsed == old(self).cycles_elapsed,
            final(self).display_enabled == old(self).display_enabled,
            final(self).vblank_active == old(self).vblank_active,
            final(self).hblank_active == old(self).hblank_active,
            final(self).frame_counter == next_count(old(self).frame_counter),
            holds_frame_sprites(
                &final(self).sprite_table,
                &final(self).vram,
                old(self).regs.sprite_table_addr,
                old(self).sprite_table.high_color_mode,
                old(self).video_mode.visible_width,
                old(self).video_mode.visible_height,
            ),
            final(self).interrupts@ == sprite_signals(old(self).interrupts@, &final(self).sprite_table),
            final(self).interrupts@.same_counters(old(self).interrupts@),
    {
        reveal(holds_frame_sprites);
        reveal(sprite_signals);
        self.frame_counter = if self.frame_counter == u64::MAX {
            0
        } else {
            self.frame_counter + 1
        };
        self.sprite_table.base_address = self.regs.sprite_table_address() as u32;
        self.sprite_table.load_from_vram(&self.vram);
        self.sprite_table.calculate_active_sprites(self.video_mode.visible_height);
        self.sprite_table.detect_collisions(
            self.video_mode.visible_width as usize,
            self.video_mode.visible_height as usize,
        );
        let ghost base = self.interrupts@;
        if self.sprite_table.collision_detected {
            self.interrupts.signal_sprite_collision();
        }
        let ghost collided = self.interrupts@;
        proof {
            crate::vdp::interrupts::lemma_signals_keep_counters(base, 0);
        }
        match self.sprite_table.overflow_line {
            Some(line) => {
                self.interrupts.signal_sprite_overflow(line);
                proof {
                    crate::vdp::interrupts::lemma_signals_keep_counters(collided, line);
                }
            },
            None => {},
        }
    }

    fn render_scanline(&mut self)
        requires
            old(self).wf(),
        ensures
            final(self).wf(),
            final(self).regs == old(self).regs,
            final(self).cram == old(self).cram,
            final(self).vram == old(self).vram,
            final(self).vsram == old(self).vsram,
            final(self).dma == old(self).dma,
            final(self).interrupts == old(self).interrupts,
            final(self).renderer == old(self).renderer,
            final(self).video_mode == old(self).video_mode,
            final(self).sprite_table == old(self).sprite_table,
            final(self).is_pal == old(self).is_pal,
            final(self).frame_counter == old(self).frame_counter,
            final(self).cycles_elapsed == old(self).cycles_elapsed,
            final(self).display_enabled == old(self).display_enabled,
            final(self).vblank_active == old(self).vblank_active,
            final(self).hblank_active == old(self).hblank_active,
            final(self).plane_manager is Some <==> old(self).plane_manager is Some,
            final(self).planes() == (match old(self).plane_manager {
                Some(manager) => Some(manager.scrolled(&old(self).regs)),
                None => None,
            }),
    {
        match &mut self.plane_manager {
            Some(manager) => {
                manager.update(&self.regs, &self.video_mode);
            },
            None => {},
        }
    }

    fn process_pending_write(&mut self)
        requires
            old(self).wf(),
        ensures
            final(self).wf(),
            final(self).regs@ == after_drain(old(self).regs@),
            drained_to(
                old(self).regs@,
                &old(self).vram,
                &old(self).cram,
                &old(self).vsram,
                &final(self).vram,
                &final(self).cram,
                &final(self).vsram,
            ),
            final(self).vram.size == old(self).vram.size,
            final(self).vram.data@ == (if drains(old(self).regs@) && old(self).regs.current_address.access_type == VdpAccessType::VRAM {
                put16(
                    old(self).vram.data@,
                    old(self).regs.current_address.addr as int,
                    old(self).regs.fifo@[0],
                )
            } else {
                old(self).vram.data@
            }),
            final(self).cram.data@ == (if drains(old(self).regs@) && old(self).regs.current_address.access_type == VdpAccessType::CRAM {
                old(self).cram.data@.update(
                    old(self).regs.current_address.addr as int % 64,
                    stored_color(old(self).regs.fifo@[0]),
                )
            } else {
                old(self).cram.data@
            }),
            final(self).vsram.data@ == (if drains(old(self).regs@) && old(self).regs.current_address.access_type == VdpAccessType::VSRAM {
                old(self).vsram.data@.update(
                    (old(self).regs.current_address.addr as int % 80) / 2,
                    old(self).regs.fifo@[0],
                )
            } else {
                old(self).vsram.data@
            }),
            final(self).vsram.same_mode_as(&old(self).vsram),
            final(self).dma == old(self).dma,
            final(self).interrupts == old(self).interrupts,
            final(self).renderer == old(self).renderer,
            final(self).video_mode == old(self).video_mode,
            final(self).plane_manager == old(self).plane_manager,
            final(self).sprite_table == old(self).sprite_table,
            final(self).is_pal == old(self).is_pal,
            final(self).frame_counter == old(self).frame_counter,
            final(self).cycles_elapsed == old(self).cycles_elapsed,
            final(self).display_enabled == old(self).display_enabled,
            final(self).vblank_active == old(self).vblank_active,
            final(self).hblank_active == old(self).hblank_active,
    {
        reveal(drained_to);
        if !self.regs.current_address.read_mode && self.regs.has_fifo_commands() {
            let addr: u16 = self.regs.current_address.addr;
            let access: VdpAccessType = self.regs.current_address.access_type;
            match self.regs.pop_fifo() {
                Some(data) => {
                    self.store_word(access, addr, data);
                    self.regs.increment_address();
                },
                None => {},
            }
        }
    }

    fn store_word(&mut self, access: VdpAccessType, addr: u16, data: u16)
        requires
            old(self).wf(),
        ensures
            final(self).wf(),
            final(self).regs == old(self).regs,
            final(self).vram.size == old(self).vram.size,
            final(self).vram.data@ == (if access == VdpAccessType::VRAM {
                put16(old(self).vram.data@, addr as int, data)
            } else {
                old(self).vram.data@
            }),
            final(self).cram.data@ == (if access == VdpAccessType::CRAM {
                old(self).cram.data@.update(addr as int % 64, stored_color(data))
            } else {
                old(self).cram.data@
            }),
            final(self).vsram.data@ == (if access == VdpAccessType::VSRAM {
                old(self).vsram.data@.update((addr as int % 80) / 2, data)
            } else {
                old(self).vsram.data@
            }),
            final(self).vsram.same_mode_as(&old(self).vsram),
            access == VdpAccessType::VSRAM ==> final(self).vsram.scroll_follows_data(),
            access != VdpAccessType::VSRAM ==> final(self).vsram == old(self).vsram,
            access != VdpAccessType::CRAM ==> final(self).cram == old(self).cram,
            final(self).dma == old(self).dma,
            final(self).interrupts == old(self).interrupts,
            final(self).renderer == old(self).renderer,
            final(self).video_mode == old(self).video_mode,
            final(self).plane_manager == old(self).plane_manager,
            final(self).sprite_table == old(self).sprite_table,
            final(self).is_pal == old(self).is_pal,
            final(self).frame_counter == old(self).frame_counter,
            final(self).cycles_elapsed == old(self).cycles_elapsed,
            final(self).display_enabled == old(self).display_enabled,
            final(self).vblank_active == old(self).vblank_active,
            final(self).hblank_active == old(self).hblank_active,
    {
        match access {
            VdpAccessType::VRAM => {
                self.vram.write16(addr as u32, data);
            },
            VdpAccessType::CRAM => {
                self.cram.write(addr as usize, data);
            },
            VdpAccessType::VSRAM => {
                self.vsram.write16(addr as u32, data);
            },
        }
    }

    /// A word written to the data port: queued in the FIFO, whose oldest
    /// entry is then drained to the memory at the address latch.
    pub fn write_data_port(&mut self, value: u16)
        requires
            old(self).wf(),
        ensures
            final(self).wf(),
            final(self).regs@ == after_drain(old(self).regs@.write_data_port(value)),
            final(self).dma == old(self).dma,
            final(self).interrupts == old(self).interrupts,
            final(self).renderer == old(self).renderer,
            final(self).sprite_table == old(self).sprite_table,
            drained_to(
                old(self).regs@.write_data_port(value),
                &old(self).vram,
                &old(self).cram,
                &old(self).vsram,
                &final(self).vram,
                &final(self).cram,
                &final(self).vsram,
            ),
            final(self).video_mode == old(self).video_mode,
            final(self).plane_manager == old(self).plane_manager,
    {
        self.regs.write_data_port(value);
        self.process_pending_write();
    }

    /// A word written to the control port: a register write or one half of
    /// an address command. A completed write command arms the DMA that the
    /// registers select, with the address latch as its destination; then
    /// the oldest FIFO entry is drained.
    pub fn write_control_port(&mut self, value: u16)
        requires
            old(self).wf(),
        ensures
            final(self).wf(),
            final(self).regs@ == after_drain(old(self).regs@.write_control_port(value)),
            final(self).dma == old(self).armed_dma(value, &final(self).regs),
            final(self).interrupts == old(self).interrupts,
            final(self).renderer == old(self).renderer,
            final(self).sprite_table == old(self).sprite_table,
            drained_to(
                old(self).regs@.write_control_port(value),
                &old(self).vram,
                &old(self).cram,
                &old(self).vsram,
                &final(self).vram,
                &final(self).cram,
                &final(self).vsram,
            ),
            final(self).video_mode == old(self).video_mode,
            final(self).plane_manager == old(self).plane_manager,
    {
        proof {
            reveal(VdpDma::after_setup);
            reveal(RegistersView::pop_fifo);
            reveal(RegistersView::increment_address);
            reveal(RegistersView::update_fifo_status);
        }
        self.regs.write_control_port(value);
        if self.regs.dma_active && !self.dma.is_active() {
            let kind: u16 = match self.regs.current_address.access_type {
                VdpAccessType::VRAM => 0,
                VdpAccessType::CRAM => 1,
                VdpAccessType::VSRAM => 2,
            };
            let dest: u16 = kind * 0x4000 + self.regs.current_address.addr % 0x4000;
            self.dma.setup_from_registers(&self.regs, dest);
        }
        self.process_pending_write();
    }

    /// A word read from the data port: in read mode the word at the address
    /// latch, after which the address moves on; else the data buffer.
    pub fn read_data_port(&mut self) -> (value: u16)
        requires
            old(self).wf(),
        ensures
            final(self).wf(),
            value == (if old(self).regs.current_address.read_mode {
                word_at_latch(
                    old(self).regs.current_address,
                    &old(self).vram,
                    &old(self).cram,
                    &old(self).vsram,
                )
            } else {
                old(self).regs.data_buffer
            }),
            final(self).regs@ == (RegistersView { data_buffer: value, ..old(self).regs@ })
                .read_data_port(),
            final(self).vram == old(self).vram,
            final(self).cram == old(self).cram,
            final(self).vsram == old(self).vsram,
            final(self).dma == old(self).dma,
            final(self).interrupts == old(self).interrupts,
            final(self).renderer == old(self).renderer,
            final(self).sprite_table == old(self).sprite_table,
    {
        if self.regs.current_address.read_mode {
            let addr: u16 = self.regs.current_address.addr;
            let word: u16 = match self.regs.current_address.access_type {
                VdpAccessType::VRAM => self.vram.read16(addr as u32),
                VdpAccessType::CRAM => self.cram.read(addr as usize),
                VdpAccessType::VSRAM => self.vsram.read16(addr as u32),
            };
            self.regs.data_buffer = word;
        }
        self.regs.read_data_port()
    }

    /// The status flags; reading clears the two blanking flags and the line
    /// interrupt flag, here and in the status of the registers.
    pub fn read_status(&mut self) -> (status: u8)
        requires
            old(self).wf(),
        ensures
            final(self).wf(),
            status == old(self).interrupts@.status,
            final(self).interrupts@ == old(self).interrupts@.lower(VdpStatus::CLEARED_ON_READ),
            final(self).regs@ == (RegistersView {
                status: old(self).regs@.status & !VdpStatus::CLEARED_ON_READ,
                ..old(self).regs@
            }),
            final(self).vram == old(self).vram,
            final(self).cram == old(self).cram,
            final(self).vsram == old(self).vsram,
            final(self).dma == old(self).dma,
            final(self).renderer == old(self).renderer,
            final(self).sprite_table == old(self).sprite_table,
    {
        self.regs.status.remove(VdpStatus::CLEARED_ON_READ);
        self.interrupts.read_status()
    }

    /// A byte read by the host at offset `addr mod 8`: the low and the high
    /// byte of a data port read at 0 and 2, the status at 4, zero elsewhere.
    pub fn bus_read(&mut self, addr: u32) -> (value: u8)
        requires
            old(self).wf(),
        ensures
            final(self).wf(),
            addr % 8 != 0 && addr % 8 != 2 && addr % 8 != 4 ==> value == 0 && *final(self) == *old(self),
            addr % 8 == 4 ==> {
                &&& value == old(self).interrupts@.status
                &&& final(self).interrupts@ == old(self).interrupts@.lower(
                    VdpStatus::CLEARED_ON_READ,
                )
                &&& final(self).regs@ == (RegistersView {
                    status: old(self).regs@.status & !VdpStatus::CLEARED_ON_READ,
                    ..old(self).regs@
                })
            },
            addr % 8 == 0 || addr % 8 == 2 ==> final(self).interrupts == old(self).interrupts,
            final(self).renderer == old(self).renderer,
            final(self).sprite_table == old(self).sprite_table,
            addr % 8 == 0 || addr % 8 == 2 ==> {
                let word = if old(self).regs.current_address.read_mode {
                    word_at_latch(
                        old(self).regs.current_address,
                        &old(self).vram,
                        &old(self).cram,
                        &old(self).vsram,
                    )
                } else {
                    old(self).regs.data_buffer
                };
                &&& value == (if addr % 8 == 0 {
                    word % 256
                } else {
                    word / 256
                })
                &&& final(self).regs@ == (RegistersView { data_buffer: word, ..old(self).regs@ })
                    .read_data_port()
            },
            final(self).vram == old(self).vram,
            final(self).cram == old(self).cram,
            final(self).vsram == old(self).vsram,
            final(self).dma == old(self).dma,
    {
        let port: u32 = addr % 8;
        if port == PORT_DATA_LOW {
            (self.read_data_port() % 256) as u8
        } else if port == PORT_DATA_HIGH {
            (self.read_data_port() / 256) as u8
        } else if port == PORT_CONTROL_LOW {
            self.read_status()
        } else {
            0
        }
    }

    /// A byte written by the host at offset `addr mod 8`. The byte replaces
    /// the low byte (offsets 0 and 4) or the high byte (offsets 2 and 6) of
    /// the word last seen by the data port or the control port, and the word
    /// is written to that port. Other offsets are ignored.
    pub fn bus_write(&mut self, addr: u32, value: u8)
        requires
            old(self).wf(),
        ensures
            final(self).wf(),
            addr % 2 == 1 ==> *final(self) == *old(self),
            addr % 8 == 0 ==> {
                &&& final(self).regs@ == after_drain(
                    old(self).regs@.write_data_port(low_byte_set(old(self).regs.data_buffer, value)),
                )
                &&& drained_to(
                    old(self).regs@.write_data_port(low_byte_set(old(self).regs.data_buffer, value)),
                    &old(self).vram,
                    &old(self).cram,
                    &old(self).vsram,
                    &final(self).vram,
                    &final(self).cram,
                    &final(self).vsram,
                )
            },
            addr % 8 == 2 ==> {
                &&& final(self).regs@ == after_drain(
                    old(self).regs@.write_data_port(high_byte_set(old(self).regs.data_buffer, value)),
                )
                &&& drained_to(
                    old(self).regs@.write_data_port(high_byte_set(old(self).regs.data_buffer, value)),
                    &old(self).vram,
                    &old(self).cram,
                    &old(self).vsram,
                    &final(self).vram,
                    &final(self).cram,
                    &final(self).vsram,
                )
            },
            addr % 8 == 4 ==> {
                &&& final(self).regs@ == after_drain(
                    old(self).regs@.write_control_port(low_byte_set(old(self).regs.address_buffer, value)),
                )
                &&& drained_to(
                    old(self).regs@.write_control_port(low_byte_set(old(self).regs.address_buffer, value)),
                    &old(self).vram,
                    &old(self).cram,
                    &old(self).vsram,
                    &final(self).vram,
                    &final(self).cram,
                    &final(self).vsram,
                )
                &&& final(self).dma == old(self).armed_dma(
                    low_byte_set(old(self).regs.address_buffer, value),
                    &final(self).regs,
                )
            },
            addr % 8 == 6 ==> {
                &&& final(self).regs@ == after_drain(
                    old(self).regs@.write_control_port(high_byte_set(old(self).regs.address_buffer, value)),
                )
                &&& drained_to(
                    old(self).regs@.write_control_port(high_byte_set(old(self).regs.address_buffer, value)),
                    &old(self).vram,
                    &old(self).cram,
                    &old(self).vsram,
                    &final(self).vram,
                    &final(self).cram,
                    &final(self).vsram,
                )
                &&& final(self).dma == old(self).armed_dma(
                    high_byte_set(old(self).regs.address_buffer, value),
                    &final(self).regs,
                )
            },
            addr % 8 == 0 || addr % 8 == 2 ==> final(self).dma == old(self).dma,
            final(self).interrupts == old(self).interrupts,
            final(self).renderer == old(self).renderer,
            final(self).video_mode == old(self).video_mode,
            final(self).plane_manager == old(self).plane_manager,
    {
        let port: u32 = addr % 8;
        if port == PORT_DATA_LOW {
            let word: u16 = (self.regs.data_buffer / 256) * 256 + value as u16;
            self.write_data_port(word);
        } else if port == PORT_DATA_HIGH {
            let word: u16 = value as u16 * 256 + self.regs.data_buffer % 256;
            self.write_data_port(word);
        } else if port == PORT_CONTROL_LOW {
            let word: u16 = (self.regs.address_buffer / 256) * 256 + value as u16;
            self.write_control_port(word);
        } else if port == PORT_CONTROL_HIGH {
            let word: u16 = value as u16 * 256 + self.regs.address_buffer % 256;
            self.write_control_port(word);
        }
    }

    /// Draws a frame from the present state and returns the frame buffer.
    ///
    /// The mode is taken from the registers first. Nothing is drawn where
    /// rendering is disabled or the registers have the display off; else every
    /// pixel gets the colour and tag that the layers compose to, under the
    /// debug overlay where the flags ask for it.
    pub fn render_frame(&mut self) -> (frame: &FrameBuffer)
        requires
            old(self).wf(),
        ensures
            final(self).wf(),
            *frame == final(self).renderer.frame_buffer,
            final(self).video_mode == VdpVideoMode::of_registers(&old(self).regs, old(self).is_pal),
            final(self).renderer.frame_buffer.width == final(self).video_mode.visible_width,
            final(self).renderer.frame_buffer.height == final(self).video_mode.visible_height,
            final(self).regs == old(self).regs,
            final(self).cram == old(self).cram,
            final(self).vram == old(self).vram,
            final(self).vsram == old(self).vsram,
            final(self).dma == old(self).dma,
            final(self).interrupts == old(self).interrupts,
            final(self).sprite_table == old(self).sprite_table,
            final(self).is_pal == old(self).is_pal,
            final(self).cycles_elapsed == old(self).cycles_elapsed,
            final(self).renderer.render_enabled == old(self).renderer.render_enabled,
            final(self).renderer.flags() == old(self).renderer.flags(),
            old(self).renderer.render_enabled && final(self).video_mode.flags.has(
                VdpModeFlags::DISPLAY_ENABLED,
            ) ==> {
                &&& final(self).renderer.frames_rendered == next_count(
                    old(self).renderer.frames_rendered,
                )
                &&& forall|x: int, y: int|
                    final(self).renderer.frame_buffer.contains(x, y) ==> final(self).renderer.frame_buffer.cell(x, y) == frame_cell(
                        old(self).renderer.flags(),
                        &old(self).regs,
                        &old(self).cram,
                        &old(self).vram,
                        &old(self).vsram,
                        old(self).sprite_table.sprites@,
                        old(self).sprite_table.sprite_count,
                        &final(self).video_mode,
                        final(self).video_mode.visible_width as int,
                        final(self).video_mode.visible_height as int,
                        old(self).renderer.frames_rendered,
                        x,
                        y,
                    )
            },
            !(old(self).renderer.render_enabled && final(self).video_mode.flags.has(
                VdpModeFlags::DISPLAY_ENABLED,
            )) ==> final(self).renderer.frames_rendered == old(self).renderer.frames_rendered,
    {
        self.update_video_mode();
        self.render_scanline();
        proof {
            crate::vdp::video_modes::lemma_mode_of_registers(&self.regs, self.is_pal);
        }
        let timestamp: u64 = self.cycles_elapsed;
        self.renderer.render_frame(
            &self.regs,
            &self.cram,
            &self.vram,
            &self.vsram,
            &self.sprite_table,
            timestamp,
        )
    }

    /// The frame buffer as the last frame left it.
    pub fn get_framebuffer(&self) -> (fb: &FrameBuffer)
        ensures
            *fb == self.renderer.frame_buffer,
    {
        &self.renderer.frame_buffer
    }

    /// A copy of the frame buffer.
    pub fn copy_framebuffer(&self) -> (fb: FrameBuffer)
        requires
            self.wf(),
        ensures
            fb.wf(),
            fb.same_size(&self.renderer.frame_buffer),
            fb.pixels@ == self.renderer.frame_buffer.pixels@,
            fb.tags@ == self.renderer.frame_buffer.tags@,
    {
        self.renderer.copy_frame_buffer()
    }

    /// Whether an interrupt waits for the host.
    pub fn has_interrupt(&self) -> (b: bool)
        ensures
            b == (self.interrupts@.pending.len() > 0),
    {
        self.interrupts.has_interrupt()
    }

    /// Takes the interrupt that is served next out of the queue and returns its kind.
    pub fn poll_interrupt(&mut self) -> (next: Option<VdpInterruptType>)
        requires
            old(self).wf(),
        ensures
            final(self).wf(),
            old(self).interrupts@.pending.len() == 0 ==> next is None && *final(self) == *old(self),
            old(self).interrupts@.pending.len() > 0 ==> next == Some(
                old(self).interrupts@.pending[0].irq_type,
            ) && final(self).interrupts@ == (InterruptView {
                pending: old(self).interrupts@.pending.remove(0),
                ..old(self).interrupts@
            }),
            final(self).regs == old(self).regs,
            final(self).vram == old(self).vram,
            final(self).cram == old(self).cram,
            final(self).vsram == old(self).vsram,
            final(self).dma == old(self).dma,
    {
        match self.interrupts.pop_interrupt() {
            Some(interrupt) => Some(interrupt.irq_type),
            None => None,
        }
    }

    /// Chooses the video standard.
    pub fn set_video_mode(&mut self, is_pal: bool)
        requires
            old(self).wf(),
        ensures
            final(self).wf(),
            final(self).is_pal == is_pal,
            final(self).interrupts.is_pal == is_pal,
            final(self).interrupts.v_blank_start == (if is_pal {
                240int
            } else {
                224int
            }),
            final(self).video_mode == VdpVideoMode::of_registers(&old(self).regs, is_pal),
            final(self).regs == old(self).regs,
            final(self).vram == old(self).vram,
            final(self).cram == old(self).cram,
            final(self).vsram == old(self).vsram,
            final(self).dma == old(self).dma,
    {
        self.is_pal = is_pal;
        self.interrupts.set_video_mode(is_pal);
        self.update_video_mode();
    }

    /// Back to the state after power-on, with the video standard kept: the
    /// registers and memories are cleared, FIFO, DMA and interrupt queue are
    /// emptied, and the parts are brought in line with the registers.
    pub fn reset(&mut self)
        requires
            old(self).wf(),
        ensures
            final(self).wf(),
            final(self).is_pal == old(self).is_pal,
            final(self).regs@ == RegistersView::initial(),
            final(self).cram.data@ == Seq::new(64, |i: int| 0u16),
            final(self).vram.size == old(self).vram.size,
            forall|i: int| 0 <= i < final(self).vram.size ==> final(self).vram.data@[i] == 0,
            final(self).vsram.data@ == Seq::new(40, |i: int| 0u16),
            final(self).dma == VdpDma::idle(),
            final(self).interrupts@ == old(self).interrupts@.reset().configured(
                RegistersView::initial().regs,
            ),
            final(self).interrupts@.pending.len() == 0,
            final(self).video_mode == VdpVideoMode::of_registers(&final(self).regs, old(self).is_pal),
            final(self).renderer.video_mode == final(self).video_mode,
            final(self).renderer.frame_buffer.width == final(self).video_mode.visible_width,
            final(self).renderer.frame_buffer.height == final(self).video_mode.visible_height,
            final(self).renderer.render_enabled,
            final(self).renderer.flags() == RenderFlags::all_layers(),
            final(self).sprite_table.sprites@.len() == 0,
            final(self).frame_counter == 0,
            final(self).cycles_elapsed == 0,
            !final(self).vblank_active,
            !final(self).hblank_active,
            final(self).renderer.frames_rendered == 0,
            final(self).plane_manager is Some,
    {
        reveal(VdpDma::after_setup);
        reveal(InterruptView::configured);
        self.regs.reset();
        self.cram = Cram::new();
        self.vram.clear();
        self.vsram.clear();
        self.dma = VdpDma::new();
        self.interrupts.reset();
        self.sprite_table.clear();
        self.frame_counter = 0;
        self.cycles_elapsed = 0;
        self.vblank_active = false;
        self.hblank_active = false;
        self.renderer = VdpRenderer::new(VdpVideoMode::new_default());
        self.initialize();
    }

    /// The counters of the compositor.
    pub fn get_render_stats(&self) -> (s: RenderStats)
        ensures
            s == (RenderStats {
                frames_rendered: self.renderer.frames_rendered,
                frame_time: self.renderer.last_frame_time,
                resolution: (
                    self.renderer.frame_buffer.width,
                    self.renderer.frame_buffer.height,
                ),
                video_mode: self.renderer.video_mode,
            }),
    {
        self.renderer.get_stats()
    }

    /// Chooses what the compositor draws.
    pub fn set_render_flags(&mut self, flags: RenderFlags)
        requires
            old(self).wf(),
        ensures
            final(self).wf(),
            final(self).renderer.flags() == flags,
            final(self).renderer.frame_buffer == old(self).renderer.frame_buffer,
            final(self).renderer.render_enabled == old(self).renderer.render_enabled,
            final(self).regs == old(self).regs,
            final(self).vram == old(self).vram,
    {
        self.renderer.set_render_flags(flags);
    }

    /// Switches rendering on or off.
    pub fn set_render_enabled(&mut self, enabled: bool)
        requires
            old(self).wf(),
        ensures
            final(self).wf(),
            final(self).renderer.render_enabled == enabled,
            final(self).renderer.flags() == old(self).renderer.flags(),
            final(self).renderer.frame_buffer == old(self).renderer.frame_buffer,
            final(self).regs == old(self).regs,
            final(self).vram == old(self).vram,
    {
        self.renderer.set_render_enabled(enabled);
    }
}

/// An optional line number as text: `None`, or `Some(n)`.
pub open spec fn line_text(line: Option<u16>) -> Seq<char> {
    match line {
        Some(n) => "Some("@ + decimal(n as nat) + ")"@,
        None => "None"@,
    }
}

impl Vdp {
    /// The lines of the report on the state as a whole.
    pub open spec fn state_text(&self) -> Seq<Seq<char>> {
        seq![
            "VDP State:"@,
            "  Frame: "@ + decimal(self.frame_counter as nat) + ", Cycles: "@ + decimal(
                self.cycles_elapsed as nat,
            ),
            "  Mode: "@ + self.video_mode.name@,
            "  Display: "@ + (if self.display_enabled {
                "ON"@
            } else {
                "OFF"@
            }),
            "  VBlank: "@ + bool_text(self.vblank_active) + ", HBlank: "@ + bool_text(
                self.hblank_active,
            ),
            "  System: "@ + (if self.is_pal {
                "PAL"@
            } else {
                "NTSC"@
            }),
        ]
    }

    /// The lines of the report on the interrupts.
    pub open spec fn interrupt_text(&self) -> Seq<Seq<char>> {
        seq![
            "Interrupts:"@,
            "  Pending: "@ + bool_text(self.interrupts@.pending.len() > 0),
            "  Status: "@ + fixed_digits(self.interrupts@.status as nat, 2, 8),
            "  Line: "@ + decimal(self.interrupts.v_counter as nat) + ", HPos: "@ + decimal(
                self.interrupts.h_counter as nat,
            ),
        ]
    }

    /// The lines of the report on the DMA.
    pub open spec fn dma_text(&self) -> Seq<Seq<char>> {
        seq![
            "DMA:"@,
            "  Active: "@ + bool_text(self.dma.active),
            "  Mode: "@ + crate::vdp::dma::mode_name(self.dma.mode)@,
            "  Words remaining: "@ + decimal(self.dma.words_remaining as nat),
        ]
    }

    /// The lines of the report on the memories.
    pub open spec fn memory_text(&self) -> Seq<Seq<char>> {
        seq![
            "Memory:"@,
            "  VRAM: "@ + decimal(self.vram.size as nat) + " bytes"@,
            "  CRAM: "@ + decimal(64) + " colors"@,
            "  VSRAM: "@ + decimal(40) + " words"@,
        ]
    }

    /// The lines of the report on the sprites.
    pub open spec fn sprite_text(&self) -> Seq<Seq<char>> {
        seq![
            "Sprites:"@,
            "  Active: "@ + decimal(self.sprite_table.sprite_count as nat),
            "  Overflow: "@ + line_text(self.sprite_table.overflow_line),
            "  Collision: "@ + bool_text(self.sprite_table.collision_detected),
        ]
    }

    /// The 22 lines of the report.
    pub open spec fn debug_text(&self) -> Seq<Seq<char>> {
        self.state_text() + self.interrupt_text() + self.dma_text() + self.memory_text()
            + self.sprite_text()
    }

    fn state_lines(&self) -> (info: Vec<String>)
        ensures
            info@.len() == 6,
            forall|i: int| 0 <= i < 6 ==> info@[i]@ == self.state_text()[i],
    {
        let mut info: Vec<String> = Vec::new();
        info.push(text_of("VDP State:"));
        let mut s = text_of("  Frame: ");
        push_decimal(&mut s, self.frame_counter);
        s.push_str(", Cycles: ");
        push_decimal(&mut s, self.cycles_elapsed);
        info.push(s);
        info.push(labelled_text("  Mode: ", self.video_mode.name));
        info.push(
            labelled_text(
                "  Display: ",
                if self.display_enabled {
                    "ON"
                } else {
                    "OFF"
                },
            ),
        );
        let mut s = text_of("  VBlank: ");
        push_bool(&mut s, self.vblank_active);
        s.push_str(", HBlank: ");
        push_bool(&mut s, self.hblank_active);
        info.push(s);
        info.push(
            labelled_text(
                "  System: ",
                if self.is_pal {
                    "PAL"
                } else {
                    "NTSC"
                },
            ),
        );
        info
    }

    fn interrupt_lines(&self) -> (info: Vec<String>)
        ensures
            info@.len() == 4,
            forall|i: int| 0 <= i < 4 ==> info@[i]@ == self.interrupt_text()[i],
    {
        let mut info: Vec<String> = Vec::new();
        info.push(text_of("Interrupts:"));
        info.push(labelled_bool("  Pending: ", self.interrupts.has_interrupt()));
        let mut s = text_of("  Status: ");
        push_fixed(&mut s, self.interrupts.status.bits() as u64, 2, 8);
        info.push(s);
        let mut s = text_of("  Line: ");
        push_decimal(&mut s, self.interrupts.current_scanline() as u64);
        s.push_str(", HPos: ");
        push_decimal(&mut s, self.interrupts.current_hpos() as u64);
        info.push(s);
        info
    }

    fn dma_lines(&self) -> (info: Vec<String>)
        ensures
            info@.len() == 4,
            forall|i: int| 0 <= i < 4 ==> info@[i]@ == self.dma_text()[i],
    {
        let mut info: Vec<String> = Vec::new();
        info.push(text_of("DMA:"));
        info.push(labelled_bool("  Active: ", self.dma.is_active()));
        info.push(labelled_text("  Mode: ", crate::vdp::dma::mode_text(self.dma.mode())));
        info.push(labelled_number("  Words remaining: ", self.dma.words_remaining() as u64));
        info
    }

    fn memory_lines(&self) -> (info: Vec<String>)
        ensures
            info@.len() == 4,
            forall|i: int| 0 <= i < 4 ==> info@[i]@ == self.memory_text()[i],
    {
        let mut info: Vec<String> = Vec::new();
        info.push(text_of("Memory:"));
        let mut s = text_of("  VRAM: ");
        push_decimal(&mut s, self.vram.size() as u64);
        s.push_str(" bytes");
        info.push(s);
        let mut s = text_of("  CRAM: ");
        push_decimal(&mut s, 64);
        s.push_str(" colors");
        info.push(s);
        let mut s = text_of("  VSRAM: ");
        push_decimal(&mut s, self.vsram.size_words() as u64);
        s.push_str(" words");
        info.push(s);
        info
    }

    fn sprite_lines(&self) -> (info: Vec<String>)
        ensures
            info@.len() == 4,
            forall|i: int| 0 <= i < 4 ==> info@[i]@ == self.sprite_text()[i],
    {
        let mut info: Vec<String> = Vec::new();
        info.push(text_of("Sprites:"));
        info.push(labelled_number("  Active: ", self.sprite_table.sprite_count as u64));
        let mut s = text_of("  Overflow: ");
        match self.sprite_table.overflow_line {
            Some(n) => {
                s.push_str("Some(");
                push_decimal(&mut s, n as u64);
                s.push_str(")");
                proof {
                    assert("  Overflow: "@ + "Some("@ + decimal(n as nat) + ")"@
                        =~= "  Overflow: "@ + ("Some("@ + decimal(n as nat) + ")"@));
                }
            },
            None => {
                s.push_str("None");
            },
        }
        info.push(s);
        info.push(labelled_bool("  Collision: ", self.sprite_table.collision_detected));
        info
    }

    /// A report of the state, one line per value.
    pub fn debug_info(&self) -> (info: Vec<String>)
        ensures
            info@.len() == 22,
            forall|i: int| 0 <= i < 22 ==> info@[i]@ == self.debug_text()[i],
    {
        let mut info: Vec<String> = self.state_lines();
        let mut part: Vec<String> = self.interrupt_lines();
        info.append(&mut part);
        let mut part: Vec<String> = self.dma_lines();
        info.append(&mut part);
        let mut part: Vec<String> = self.memory_lines();
        info.append(&mut part);
        let mut part: Vec<String> = self.sprite_lines();
        info.append(&mut part);
        info
    }
}

impl Default for Vdp {
    fn default() -> (v: Vdp)
        ensures
            v.wf(),
            !v.is_pal,
    {
        Vdp::new(false)
    }
}

} // verus!
