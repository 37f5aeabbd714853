//! The frame compositor: lays the background, the planes and the sprites
//! into the frame buffer in the fixed order of the hardware,
//!
//! background, low B, low A, low window, low sprites, high B, high A, high
//! window, high sprites,
//!
//! and lets a layer replace a pixel only where the pixel is transparent, is
//! background, or was drawn by a layer that is not above it.

use vstd::prelude::*;
use vstd::string::*;
use crate::text::{decimal, decimal_len};
use crate::vdp::cram::Cram;
use crate::vdp::framebuffer::{merged, FrameBuffer};
use crate::vdp::planes::{background, background_color, Plane, PlaneManager, PlaneType};
use crate::vdp::registers::{next_count, VdpRegisters};
use crate::vdp::sprite::{sprites_cell, Sprite, SpritePass, SpriteTable};
use crate::vdp::video_modes::{VdpModeFlags, VdpVideoMode};
use crate::vdp::vram::Vram;
use crate::vdp::vsram::Vsram;

verus! {

/// What the compositor draws.
#[derive(Debug, Clone, Copy, PartialEq, Eq, Structural)]
pub struct RenderFlags {
    pub show_background: bool,
    pub show_planes: bool,
    pub show_window: bool,
    pub show_sprites: bool,
    pub debug_overlay: bool,
}

impl Default for RenderFlags {
    fn default() -> (f: RenderFlags)
        ensures
            f == RenderFlags::all_layers(),
    {
        RenderFlags {
            show_background: true,
            show_planes: true,
            show_window: true,
            show_sprites: true,
            debug_overlay: false,
        }
    }
}

impl RenderFlags {
    /// Every layer, no overlay.
    pub open spec fn all_layers() -> RenderFlags {
        RenderFlags {
            show_background: true,
            show_planes: true,
            show_window: true,
            show_sprites: true,
            debug_overlay: false,
        }
    }
}

/// Counters of the compositor. The frame time is the time stamp of the
/// last frame, in the unit of the caller.
#[derive(Debug, Clone, Copy, PartialEq, Eq)]
pub struct RenderStats {
    pub frames_rendered: u64,
    pub frame_time: u64,
    pub resolution: (usize, usize),
    pub video_mode: VdpVideoMode,
}

/// The three planes as the registers describe them, scrolled as the registers say.
pub open spec fn planes_of(regs: &VdpRegisters) -> (Plane, Plane, Plane) {
    (
        Plane::of_registers(PlaneType::A, regs).scrolled(regs),
        Plane::of_registers(PlaneType::B, regs).scrolled(regs),
        Plane::of_registers(PlaneType::Window, regs),
    )
}

/// Colour and tag of the place (`x`, `y`) after one pass of the planes that
/// the flags show: B, then A, then the window.
pub open spec fn plane_pass_cell(
    flags: RenderFlags,
    cell: (u32, u8),
    regs: &VdpRegisters,
    cram: &Cram,
    vram: &Vram,
    vsram: &Vsram,
    mode: &VdpVideoMode,
    width: int,
    height: int,
    x: int,
    y: int,
    high: bool,
) -> (u32, u8) {
    let (plane_a, plane_b, window) = planes_of(regs);
    let after_b = if flags.show_planes {
        plane_b.rendered_cell(cell, vram, cram, vsram, regs, mode, width, height, x, y, high)
    } else {
        cell
    };
    let after_a = if flags.show_planes {
        plane_a.rendered_cell(after_b, vram, cram, vsram, regs, mode, width, height, x, y, high)
    } else {
        after_b
    };
    if flags.show_window {
        window.rendered_cell(after_a, vram, cram, vsram, regs, mode, width, height, x, y, high)
    } else {
        after_a
    }
}

/// Colour and tag of the place (`x`, `y`) after one pass of the sprites,
/// where the flags show them.
pub open spec fn sprite_pass_cell(
    flags: RenderFlags,
    cell: (u32, u8),
    sprites: Seq<Sprite>,
    cram: &Cram,
    vram: &Vram,
    x: int,
    y: int,
    pass: SpritePass,
) -> (u32, u8) {
    if flags.show_sprites {
        sprites_cell(sprites, sprites.len() as int, vram, cram, pass, cell, x, y)
    } else {
        cell
    }
}

/// Colour and tag of the place (`x`, `y`) of a finished frame: the
/// background, or transparent black where the flags hide it, under the low
/// planes, the low sprites, the high planes and the high sprites.
#[verifier::opaque]
pub open spec fn composite_cell(
    flags: RenderFlags,
    regs: &VdpRegisters,
    cram: &Cram,
    vram: &Vram,
    vsram: &Vsram,
    sprites: Seq<Sprite>,
    mode: &VdpVideoMode,
    width: int,
    height: int,
    x: int,
    y: int,
) -> (u32, u8) {
    let ground = if flags.show_background {
        (background_color(regs, cram), 0u8)
    } else {
        (0u32, 0u8)
    };
    let low_planes = plane_pass_cell(
        flags,
        ground,
        regs,
        cram,
        vram,
        vsram,
        mode,
        width,
        height,
        x,
        y,
        false,
    );
    let low_sprites = sprite_pass_cell(
        flags,
        low_planes,
        sprites,
        cram,
        vram,
        x,
        y,
        SpritePass::LowOnly,
    );
    let high_planes = plane_pass_cell(
        flags,
        low_sprites,
        regs,
        cram,
        vram,
        vsram,
        mode,
        width,
        height,
        x,
        y,
        true,
    );
    sprite_pass_cell(flags, high_planes, sprites, cram, vram, x, y, SpritePass::HighOnly)
}

/// The compositor and its frame buffer.
#[derive(Clone)]
pub struct VdpRenderer {
    pub video_mode: VdpVideoMode,
    pub frame_buffer: FrameBuffer,
    pub last_frame_time: u64,
    pub frames_rendered: u64,
    pub render_enabled: bool,
    pub show_background: bool,
    pub show_planes: bool,
    pub show_window: bool,
    pub show_sprites: bool,
    pub debug_overlay: bool,
}

impl VdpRenderer {
    /// The frame buffer is well formed.
    pub open spec fn wf(&self) -> bool {
        self.frame_buffer.wf()
    }

    /// Whether the renderer is well formed.
    pub fn is_well_formed(&self) -> (ok: bool)
        ensures
            ok == self.wf(),
    {
        self.frame_buffer.is_well_formed()
    }

    /// What the compositor draws.
    pub open spec fn flags(&self) -> RenderFlags {
        RenderFlags {
            show_background: self.show_background,
            show_planes: self.show_planes,
            show_window: self.show_window,
            show_sprites: self.show_sprites,
            debug_overlay: self.debug_overlay,
        }
    }

    /// Whether a call of `render_frame` draws: rendering is enabled and the
    /// mode of the last frame has the display on.
    pub open spec fn draws(&self) -> bool {
        self.render_enabled && self.video_mode.flags.has(VdpModeFlags::DISPLAY_ENABLED)
    }

    /// A compositor for the mode, with a black frame buffer of its resolution.
    pub fn new(video_mode: VdpVideoMode) -> (r: VdpRenderer)
        ensures
            r.wf(),
            r.video_mode == video_mode,
            r.frame_buffer.width == video_mode.visible_width,
            r.frame_buffer.height == video_mode.visible_height,
            r.last_frame_time == 0,
            r.frames_rendered == 0,
            r.render_enabled,
            r.flags() == RenderFlags::all_layers(),
    {
        let (width, height) = video_mode.resolution();
        assert(width * height <= 0xFFFF * 0xFFFF) by (nonlinear_arith)
            requires
                0 <= width <= 0xFFFF,
                0 <= height <= 0xFFFF,
        ;
        let frame_buffer = FrameBuffer::new(width as usize, height as usize);
        VdpRenderer {
            video_mode,
            frame_buffer,
            last_frame_time: 0,
            frames_rendered: 0,
            render_enabled: true,
            show_background: true,
            show_planes: true,
            show_window: true,
            show_sprites: true,
            debug_overlay: false,
        }
    }

    /// Offers a whole buffer to the frame buffer, pixel by pixel, under the
    /// tags that the pixels of `other` carry.
    pub fn merge_framebuffers(&mut self, other: &FrameBuffer)
        requires
            old(self).wf(),
            other.wf(),
        ensures
            final(self).wf(),
            final(self).frame_buffer.same_size(&old(self).frame_buffer),
            final(self).video_mode == old(self).video_mode,
            final(self).frames_rendered == old(self).frames_rendered,
            final(self).last_frame_time == old(self).last_frame_time,
            final(self).render_enabled == old(self).render_enabled,
            final(self).flags() == old(self).flags(),
            forall|x: int, y: int|
                final(self).frame_buffer.contains(x, y) ==> final(self).frame_buffer.cell(x, y)
                    == (if other.contains(x, y) {
                    merged(old(self).frame_buffer.cell(x, y), other.px(x, y), other.tag(x, y))
                } else {
                    old(self).frame_buffer.cell(x, y)
                }),
    {
        let width: usize = self.frame_buffer.width;
        let height: usize = self.frame_buffer.height;
        let mut y: usize = 0;
        while y < height
            invariant
                self.wf(),
                other.wf(),
                self.frame_buffer.same_size(&old(self).frame_buffer),
                self.video_mode == old(self).video_mode,
                self.frames_rendered == old(self).frames_rendered,
                self.last_frame_time == old(self).last_frame_time,
                self.render_enabled == old(self).render_enabled,
                self.flags() == old(self).flags(),
                width == self.frame_buffer.width,
                height == self.frame_buffer.height,
                y <= height,
                forall|px: int, py: int|
                    self.frame_buffer.contains(px, py) ==> self.frame_buffer.cell(px, py) == (
                    if py < y && other.contains(px, py) {
                        merged(
                            old(self).frame_buffer.cell(px, py),
                            other.px(px, py),
                            other.tag(px, py),
                        )
                    } else {
                        old(self).frame_buffer.cell(px, py)
                    }),
            decreases height - y,
        {
            let mut x: usize = 0;
            while x < width
                invariant
                    self.wf(),
                    other.wf(),
                    self.frame_buffer.same_size(&old(self).frame_buffer),
                    self.video_mode == old(self).video_mode,
                    self.frames_rendered == old(self).frames_rendered,
                    self.last_frame_time == old(self).last_frame_time,
                    self.render_enabled == old(self).render_enabled,
                    self.flags() == old(self).flags(),
                    width == self.frame_buffer.width,
                    height == self.frame_buffer.height,
                    y < height,
                    x <= width,
                    forall|px: int, py: int|
                        self.frame_buffer.contains(px, py) ==> self.frame_buffer.cell(px, py) == (
                        if (py < y || (py == y && px < x)) && other.contains(px, py) {
                            merged(
                                old(self).frame_buffer.cell(px, py),
                                other.px(px, py),
                                other.tag(px, py),
                            )
                        } else {
                            old(self).frame_buffer.cell(px, py)
                        }),
                decreases width - x,
            {
                match other.get_pixel(x, y) {
                    Some(color) => {
                        let tag: u8 = match other.get_tag(x, y) {
                            Some(t) => t,
                            None => 0,
                        };
                        self.frame_buffer.merge_pixel(x, y, color, tag);
                    },
                    None => {},
                }
                x += 1;
            }
            y += 1;
        }
    }

    fn render_planes(
        &mut self,
        planes: &PlaneManager,
        regs: &VdpRegisters,
        cram: &Cram,
        vram: &Vram,
        vsram: &Vsram,
        high: bool,
    )
        requires
            old(self).wf(),
            vram.wf(),
            planes.wf(),
            (planes.plane_a, planes.plane_b, planes.plane_window) == planes_of(regs),
        ensures
            final(self).wf(),
            final(self).frame_buffer.same_size(&old(self).frame_buffer),
            final(self).video_mode == old(self).video_mode,
            final(self).frames_rendered == old(self).frames_rendered,
            final(self).last_frame_time == old(self).last_frame_time,
            final(self).render_enabled == old(self).render_enabled,
            final(self).flags() == old(self).flags(),
            forall|x: int, y: int|
                final(self).frame_buffer.contains(x, y) ==> final(self).frame_buffer.cell(x, y)
                    == plane_pass_cell(
                    old(self).flags(),
                    old(self).frame_buffer.cell(x, y),
                    regs,
                    cram,
                    vram,
                    vsram,
                    &old(self).video_mode,
                    old(self).frame_buffer.width as int,
                    old(self).frame_buffer.height as int,
                    x,
                    y,
                    high,
                ),
    {
        if self.show_planes {
            planes.plane_b.render(
                &mut self.frame_buffer,
                vram,
                cram,
                vsram,
                regs,
                &self.video_mode,
                high,
            );
            planes.plane_a.render(
                &mut self.frame_buffer,
                vram,
                cram,
                vsram,
                regs,
                &self.video_mode,
                high,
            );
        }
        if self.show_window {
            planes.plane_window.render(
                &mut self.frame_buffer,
                vram,
                cram,
                vsram,
                regs,
                &self.video_mode,
                high,
            );
        }
    }

    fn render_sprites(&mut self, sprite_table: &SpriteTable, cram: &Cram, vram: &Vram, pass: SpritePass)
        requires
            old(self).wf(),
            vram.wf(),
        ensures
            final(self).wf(),
            final(self).frame_buffer.same_size(&old(self).frame_buffer),
            final(self).video_mode == old(self).video_mode,
            final(self).frames_rendered == old(self).frames_rendered,
            final(self).last_frame_time == old(self).last_frame_time,
            final(self).render_enabled == old(self).render_enabled,
            final(self).flags() == old(self).flags(),
            forall|x: int, y: int|
                final(self).frame_buffer.contains(x, y) ==> final(self).frame_buffer.cell(x, y)
                    == sprite_pass_cell(
                    old(self).flags(),
                    old(self).frame_buffer.cell(x, y),
                    sprite_table.sprites@,
                    cram,
                    vram,
                    x,
                    y,
                    pass,
                ),
    {
        if self.show_sprites {
            sprite_table.render_pass(&mut self.frame_buffer, vram, cram, pass);
        }
    }

    /// Draws the frame and, where the flags ask for it, the debug overlay
    /// over it.
    fn render_internal(
        &mut self,
        regs: &VdpRegisters,
        cram: &Cram,
        vram: &Vram,
        vsram: &Vsram,
        sprite_table: &SpriteTable,
    )
        requires
            old(self).wf(),
            vram.wf(),
        ensures
            final(self).wf(),
            final(self).frame_buffer.width == old(self).video_mode.visible_width,
            final(self).frame_buffer.height == old(self).video_mode.visible_height,
            final(self).video_mode == old(self).video_mode,
            final(self).frames_rendered == old(self).frames_rendered,
            final(self).last_frame_time == old(self).last_frame_time,
            final(self).render_enabled == old(self).render_enabled,
            final(self).flags() == old(self).flags(),
            forall|x: int, y: int|
                final(self).frame_buffer.contains(x, y) ==> final(self).frame_buffer.cell(x, y)
                    == frame_cell(
                    old(self).flags(),
                    regs,
                    cram,
                    vram,
                    vsram,
                    sprite_table.sprites@,
                    sprite_table.sprite_count,
                    &old(self).video_mode,
                    old(self).video_mode.visible_width as int,
                    old(self).video_mode.visible_height as int,
                    old(self).frames_rendered,
                    x,
                    y,
                ),
    {
        self.render_layers(regs, cram, vram, vsram, sprite_table);
        if self.debug_overlay {
            self.render_debug_overlay(sprite_table);
        }
    }

    /// Lays the background, the planes and the sprites into the frame
    /// buffer, which gets the resolution of the mode first.
    fn render_layers(
        &mut self,
        regs: &VdpRegisters,
        cram: &Cram,
        vram: &Vram,
        vsram: &Vsram,
        sprite_table: &SpriteTable,
    )
        requires
            old(self).wf(),
            vram.wf(),
        ensures
            final(self).wf(),
            final(self).frame_buffer.width == old(self).video_mode.visible_width,
            final(self).frame_buffer.height == old(self).video_mode.visible_height,
            final(self).video_mode == old(self).video_mode,
            final(self).frames_rendered == old(self).frames_rendered,
            final(self).last_frame_time == old(self).last_frame_time,
            final(self).render_enabled == old(self).render_enabled,
            final(self).flags() == old(self).flags(),
            forall|x: int, y: int|
                final(self).frame_buffer.contains(x, y) ==> final(self).frame_buffer.cell(x, y)
                    == composite_cell(
                    old(self).flags(),
                    regs,
                    cram,
                    vram,
                    vsram,
                    sprite_table.sprites@,
                    &old(self).video_mode,
                    old(self).video_mode.visible_width as int,
                    old(self).video_mode.visible_height as int,
                    x,
                    y,
                ),
    {
        reveal(composite_cell);
        let (width, height) = self.video_mode.resolution();
        if self.frame_buffer.width != width as usize || self.frame_buffer.height != height as usize {
            assert(width * height <= 0xFFFF * 0xFFFF) by (nonlinear_arith)
                requires
                    0 <= width <= 0xFFFF,
                    0 <= height <= 0xFFFF,
            ;
            self.frame_buffer.resize(width as usize, height as usize);
        }
        if self.show_background {
            let bg: u32 = background(regs, cram);
            self.frame_buffer.clear(bg);
        } else {
            self.frame_buffer.clear_transparent();
        }
        let mut planes = PlaneManager::new(regs, &self.video_mode);
        planes.update(regs, &self.video_mode);
        self.render_planes(&planes, regs, cram, vram, vsram, false);
        self.render_sprites(sprite_table, cram, vram, SpritePass::LowOnly);
        self.render_planes(&planes, regs, cram, vram, vsram, true);
        self.render_sprites(sprite_table, cram, vram, SpritePass::HighOnly);
    }

    /// Draws a frame and returns the frame buffer.
    ///
    /// Nothing is drawn, and nothing changes, where rendering is disabled or
    /// the mode of the last frame has the display off. Else the mode is taken
    /// from the registers, the frame buffer gets the resolution of the mode,
    /// and every pixel gets the colour and tag that the layers compose to,
    /// under the debug overlay where the flags ask for it.
    pub fn render_frame(
        &mut self,
        regs: &VdpRegisters,
        cram: &Cram,
        vram: &Vram,
        vsram: &Vsram,
        sprite_table: &SpriteTable,
        timestamp: u64,
    ) -> (frame: &FrameBuffer)
        requires
            old(self).wf(),
            vram.wf(),
        ensures
            final(self).wf(),
            *frame == final(self).frame_buffer,
            final(self).render_enabled == old(self).render_enabled,
            final(self).flags() == old(self).flags(),
            !old(self).draws() ==> *final(self) == *old(self),
            old(self).draws() ==> {
                &&& final(self).video_mode == VdpVideoMode::of_registers(
                    regs,
                    old(self).video_mode.flags.has(VdpModeFlags::PAL),
                )
                &&& final(self).frame_buffer.width == final(self).video_mode.visible_width
                &&& final(self).frame_buffer.height == final(self).video_mode.visible_height
                &&& final(self).frames_rendered == next_count(old(self).frames_rendered)
                &&& final(self).last_frame_time == timestamp
                &&& forall|x: int, y: int|
                    final(self).frame_buffer.contains(x, y) ==> final(self).frame_buffer.cell(x, y)
                        == frame_cell(
                        old(self).flags(),
                        regs,
                        cram,
                        vram,
                        vsram,
                        sprite_table.sprites@,
                        sprite_table.sprite_count,
                        &final(self).video_mode,
                        final(self).video_mode.visible_width as int,
                        final(self).video_mode.visible_height as int,
                        old(self).frames_rendered,
                        x,
                        y,
                    )
            },
    {
        if !self.render_enabled || !self.video_mode.display_enabled() {
            return &self.frame_buffer;
        }
        self.video_mode = VdpVideoMode::from_registers(regs, self.video_mode.is_pal());
        self.render_internal(regs, cram, vram, vsram, sprite_table);
        self.last_frame_time = timestamp;
        self.frames_rendered = if self.frames_rendered == u64::MAX {
            0
        } else {
            self.frames_rendered + 1
        };
        &self.frame_buffer
    }

    /// Chooses what the compositor draws.
    pub fn set_render_flags(&mut self, flags: RenderFlags)
        ensures
            final(self).flags() == flags,
            final(self).frame_buffer == old(self).frame_buffer,
            final(self).video_mode == old(self).video_mode,
            final(self).frames_rendered == old(self).frames_rendered,
            final(self).last_frame_time == old(self).last_frame_time,
            final(self).render_enabled == old(self).render_enabled,
    {
        self.show_background = flags.show_background;
        self.show_planes = flags.show_planes;
        self.show_window = flags.show_window;
        self.show_sprites = flags.show_sprites;
        self.debug_overlay = flags.debug_overlay;
    }

    /// Switches rendering on or off.
    pub fn set_render_enabled(&mut self, enabled: bool)
        ensures
            final(self).render_enabled == enabled,
            final(self).flags() == old(self).flags(),
            final(self).frame_buffer == old(self).frame_buffer,
            final(self).video_mode == old(self).video_mode,
            final(self).frames_rendered == old(self).frames_rendered,
            final(self).last_frame_time == old(self).last_frame_time,
    {
        self.render_enabled = enabled;
    }

    /// The frame buffer.
    pub fn get_frame_buffer(&self) -> (fb: &FrameBuffer)
        ensures
            *fb == self.frame_buffer,
    {
        &self.frame_buffer
    }

    /// A copy of the frame buffer.
    pub fn copy_frame_buffer(&self) -> (fb: FrameBuffer)
        requires
            self.wf(),
        ensures
            fb.wf(),
            fb.same_size(&self.frame_buffer),
            fb.pixels@ == self.frame_buffer.pixels@,
            fb.tags@ == self.frame_buffer.tags@,
            fb.dirty == self.frame_buffer.dirty,
    {
        FrameBuffer {
            width: self.frame_buffer.width,
            height: self.frame_buffer.height,
            pixels: self.frame_buffer.pixels.clone(),
            dirty: self.frame_buffer.dirty,
            tags: self.frame_buffer.tags.clone(),
        }
    }

    /// The counters of the compositor.
    pub fn get_stats(&self) -> (s: RenderStats)
        ensures
            s == (RenderStats {
                frames_rendered: self.frames_rendered,
                frame_time: self.last_frame_time,
                resolution: (self.frame_buffer.width, self.frame_buffer.height),
                video_mode: self.video_mode,
            }),
    {
        RenderStats {
            frames_rendered: self.frames_rendered,
            frame_time: self.last_frame_time,
            resolution: (self.frame_buffer.width, self.frame_buffer.height),
            video_mode: self.video_mode,
        }
    }

    /// Changes the size of the frame buffer as `FrameBuffer::resize` does.
    pub fn resize(&mut self, width: usize, height: usize)
        requires
            old(self).wf(),
            width * height <= usize::MAX,
        ensures
            final(self).wf(),
            final(self).frame_buffer.width == width,
            final(self).frame_buffer.height == height,
            final(self).video_mode == old(self).video_mode,
            final(self).flags() == old(self).flags(),
            final(self).render_enabled == old(self).render_enabled,
            final(self).frames_rendered == old(self).frames_rendered,
            final(self).last_frame_time == old(self).last_frame_time,
            forall|x: int, y: int|
                final(self).frame_buffer.contains(x, y) && old(self).frame_buffer.contains(x, y)
                    ==> final(self).frame_buffer.px(x, y) == old(self).frame_buffer.px(x, y),
    {
        self.frame_buffer.resize(width, height);
    }
}

/// Colour of the border of the debug overlay: half-transparent red.
pub const OVERLAY_BORDER: u32 = 0x80FF_0000;

/// Colour of the grid of the debug overlay: faint green.
pub const OVERLAY_GRID: u32 = 0x4000_FF00;

/// Colour of the panel behind the debug text: black, three quarters opaque.
pub const OVERLAY_PANEL: u32 = 0xC000_0000;

/// Colour of the dots of the debug text: white.
pub const OVERLAY_TEXT: u32 = 0xFFFF_FFFF;

/// Where the panel of the debug text begins, from the left and from the top.
pub const PANEL_ORIGIN: usize = 5;

/// Width of the panel of the debug text.
pub const PANEL_WIDTH: usize = 200;

/// Height of the panel of the debug text: twelve rows for each of the five
/// lines, and ten more.
pub const PANEL_HEIGHT: usize = 70;

/// Where the first dot of the debug text stands, from the left and from the
/// top.
pub const TEXT_ORIGIN: usize = 10;

/// Columns from one dot of the debug text to the next.
pub const TEXT_STEP: usize = 6;

/// Rows from one line of the debug text to the next.
pub const TEXT_LINE: usize = 12;

/// Lines of the debug text.
pub const TEXT_LINES: usize = 5;

/// The five lines of the debug text: the name of the mode, the resolution,
/// the sprites counted and held, whether the display is on, and the frames
/// drawn so far.
pub open spec fn debug_lines(
    mode: &VdpVideoMode,
    sprite_count: usize,
    sprites: nat,
    frames: u64,
) -> Seq<Seq<char>> {
    seq![
        "Mode: "@ + mode.name@,
        "Res: "@ + decimal(mode.visible_width as nat) + "x"@ + decimal(mode.visible_height as nat),
        "Sprites: "@ + decimal(sprite_count as nat) + "/"@ + decimal(sprites),
        "Display: "@ + (if mode.flags.has(VdpModeFlags::DISPLAY_ENABLED) {
            "ON"@
        } else {
            "OFF"@
        }),
        "Frames: "@ + decimal(frames as nat),
    ]
}

/// Whether the debug text has a dot at (`x`, `y`), counting only the lines
/// before `row` and, of line `row`, the characters before `column`. Every
/// character of a line is one dot, six columns from the last; the lines are
/// twelve rows apart.
pub open spec fn text_dot_before(lengths: Seq<int>, row: int, column: int, x: int, y: int) -> bool {
    &&& x >= 10
    &&& y >= 10
    &&& (x - 10) % 6 == 0
    &&& (y - 10) % 12 == 0
    &&& (y - 10) / 12 < lengths.len()
    &&& (x - 10) / 6 < lengths[(y - 10) / 12]
    &&& ((y - 10) / 12 < row || ((y - 10) / 12 == row && (x - 10) / 6 < column))
}

/// Whether the debug text has a dot at (`x`, `y`).
pub open spec fn text_dot(lengths: Seq<int>, x: int, y: int) -> bool {
    text_dot_before(lengths, lengths.len() as int, 0, x, y)
}

/// Whether (`x`, `y`) lies in the panel behind the debug text.
pub open spec fn in_panel(x: int, y: int) -> bool {
    5 <= x < 205 && 5 <= y < 75
}

/// The lengths of lines of text.
pub open spec fn lengths_of(lines: Seq<Seq<char>>) -> Seq<int> {
    Seq::new(lines.len(), |i: int| lines[i].len() as int)
}

/// The colour of the place (`x`, `y`) under the debug text: a dot of the
/// text, else the panel, else the colour below.
pub open spec fn with_debug_text(color: u32, lines: Seq<Seq<char>>, x: int, y: int) -> u32 {
    if text_dot(lengths_of(lines), x, y) {
        OVERLAY_TEXT
    } else if in_panel(x, y) {
        OVERLAY_PANEL
    } else {
        color
    }
}

/// Colour and tag of the place (`x`, `y`) of a frame as it is handed out:
/// what the layers compose to and, where the flags ask for the debug
/// overlay, border, grid and text over its colour. `frames` is the number
/// of frames drawn before this one.
pub open spec fn frame_cell(
    flags: RenderFlags,
    regs: &VdpRegisters,
    cram: &Cram,
    vram: &Vram,
    vsram: &Vsram,
    sprites: Seq<Sprite>,
    sprite_count: usize,
    mode: &VdpVideoMode,
    width: int,
    height: int,
    frames: u64,
    x: int,
    y: int,
) -> (u32, u8) {
    let cell = composite_cell(flags, regs, cram, vram, vsram, sprites, mode, width, height, x, y);
    if flags.debug_overlay {
        (
            with_debug_text(
                overlaid(cell.0, width, height, x, y),
                debug_lines(mode, sprite_count, sprites.len(), frames),
                x,
                y,
            ),
            cell.1,
        )
    } else {
        cell
    }
}

/// The mean of two pixels, channel by channel, with the alpha of the first.
pub open spec fn blended(above: u32, below: u32) -> u32 {
    ((above as int / 0x0100_0000) * 0x0100_0000 + ((((above as int / 0x1_0000) % 256) + ((
    below as int / 0x1_0000) % 256)) / 2) * 0x1_0000 + ((((above as int / 0x100) % 256) + ((
    below as int / 0x100) % 256)) / 2) * 0x100 + ((above as int % 256) + (below as int % 256))
        / 2) as u32
}

fn blend(above: u32, below: u32) -> (c: u32)
    ensures
        c == blended(above, below),
{
    let a: u32 = above / 0x0100_0000;
    let r: u32 = ((above / 0x1_0000) % 256 + (below / 0x1_0000) % 256) / 2;
    let g: u32 = ((above / 0x100) % 256 + (below / 0x100) % 256) / 2;
    let b: u32 = (above % 256 + below % 256) / 2;
    a * 0x0100_0000 + r * 0x1_0000 + g * 0x100 + b
}

/// The colour of the place (`x`, `y`) under the debug overlay on a screen
/// `width` by `height`: the grid on every eighth column and row, else the
/// border on the edge of the screen, else the colour below.
pub open spec fn overlaid(color: u32, width: int, height: int, x: int, y: int) -> u32 {
    if x % 8 == 0 || y % 8 == 0 {
        OVERLAY_GRID
    } else if x == width - 1 || y == height - 1 {
        OVERLAY_BORDER
    } else {
        color
    }
}

impl VdpRenderer {
    /// Softens the picture as an interlaced display does: every pixel but
    /// those of the first and the last line becomes the mean of the pixels
    /// above and below it, with the alpha of the pixel above.
    pub fn apply_interlace_effect(&mut self)
        requires
            old(self).wf(),
        ensures
            final(self).wf(),
            final(self).frame_buffer.same_size(&old(self).frame_buffer),
            final(self).frame_buffer.tags == old(self).frame_buffer.tags,
            final(self).video_mode == old(self).video_mode,
            final(self).frames_rendered == old(self).frames_rendered,
            final(self).last_frame_time == old(self).last_frame_time,
            final(self).render_enabled == old(self).render_enabled,
            final(self).flags() == old(self).flags(),
            forall|x: int, y: int|
                final(self).frame_buffer.contains(x, y) ==> final(self).frame_buffer.px(x, y) == (
                if 0 < y < old(self).frame_buffer.height - 1 {
                    blended(
                        old(self).frame_buffer.px(x, y - 1),
                        old(self).frame_buffer.px(x, y + 1),
                    )
                } else {
                    old(self).frame_buffer.px(x, y)
                }),
    {
        let width: usize = self.frame_buffer.width;
        let height: usize = self.frame_buffer.height;
        if height < 3 {
            return ;
        }
        let source: FrameBuffer = self.copy_frame_buffer();
        let mut y: usize = 1;
        while y < height - 1
            invariant
                self.wf(),
                source.wf(),
                source.same_size(&self.frame_buffer),
                source.pixels@ == old(self).frame_buffer.pixels@,
                self.frame_buffer.same_size(&old(self).frame_buffer),
                self.frame_buffer.tags == old(self).frame_buffer.tags,
                self.video_mode == old(self).video_mode,
                self.frames_rendered == old(self).frames_rendered,
                self.last_frame_time == old(self).last_frame_time,
                self.render_enabled == old(self).render_enabled,
                self.flags() == old(self).flags(),
                width == self.frame_buffer.width,
                height == self.frame_buffer.height,
                height >= 3,
                1 <= y <= height - 1,
                forall|px: int, py: int|
                    self.frame_buffer.contains(px, py) ==> self.frame_buffer.px(px, py) == (if 0
                        < py < y {
                        blended(source.px(px, py - 1), source.px(px, py + 1))
                    } else {
                        source.px(px, py)
                    }),
            decreases height - y,
        {
            let mut x: usize = 0;
            while x < width
                invariant
                    self.wf(),
                    source.wf(),
                    source.same_size(&self.frame_buffer),
                    source.pixels@ == old(self).frame_buffer.pixels@,
                    self.frame_buffer.same_size(&old(self).frame_buffer),
                    self.frame_buffer.tags == old(self).frame_buffer.tags,
                    self.video_mode == old(self).video_mode,
                    self.frames_rendered == old(self).frames_rendered,
                    self.last_frame_time == old(self).last_frame_time,
                    self.render_enabled == old(self).render_enabled,
                    self.flags() == old(self).flags(),
                    width == self.frame_buffer.width,
                    height == self.frame_buffer.height,
                    height >= 3,
                    1 <= y < height - 1,
                    x <= width,
                    forall|px: int, py: int|
                        self.frame_buffer.contains(px, py) ==> self.frame_buffer.px(px, py) == (
                        if 0 < py < y || (py == y && px < x) {
                            blended(source.px(px, py - 1), source.px(px, py + 1))
                        } else {
                            source.px(px, py)
                        }),
                decreases width - x,
            {
                let above: u32 = match source.get_pixel(x, y - 1) {
                    Some(c) => c,
                    None => 0,
                };
                let below: u32 = match source.get_pixel(x, y + 1) {
                    Some(c) => c,
                    None => 0,
                };
                self.frame_buffer.set_pixel(x, y, blend(above, below));
                x += 1;
            }
            y += 1;
        }
    }

    /// The lengths of the five lines of the debug text.
    fn debug_line_lengths(&self, sprite_table: &SpriteTable) -> (lengths: [u128; 5])
        ensures
            lengths@.map_values(|n: u128| n as int) == lengths_of(
                debug_lines(
                    &self.video_mode,
                    sprite_table.sprite_count,
                    sprite_table.sprites@.len(),
                    self.frames_rendered,
                ),
            ),
    {
        proof {
            reveal_strlit("Mode: ");
            reveal_strlit("Res: ");
            reveal_strlit("x");
            reveal_strlit("Sprites: ");
            reveal_strlit("/");
            reveal_strlit("Display: ");
            reveal_strlit("ON");
            reveal_strlit("OFF");
            reveal_strlit("Frames: ");
        }
        let name: u128 = self.video_mode.name.unicode_len() as u128;
        let shown: u128 = if self.video_mode.display_enabled() {
            2
        } else {
            3
        };
        let lengths: [u128; 5] = [
            6 + name,
            5 + decimal_len(self.video_mode.visible_width as u64) + 1 + decimal_len(
                self.video_mode.visible_height as u64,
            ),
            9 + decimal_len(sprite_table.sprite_count as u64) + 1 + decimal_len(
                sprite_table.sprites.len() as u64,
            ),
            9 + shown,
            8 + decimal_len(self.frames_rendered),
        ];
        assert(lengths@.map_values(|n: u128| n as int) =~= lengths_of(
            debug_lines(
                &self.video_mode,
                sprite_table.sprite_count,
                sprite_table.sprites@.len(),
                self.frames_rendered,
            ),
        ));
        lengths
    }

    /// Draws the debug text over the picture: a panel, and on it one dot for
    /// every character of the five lines.
    pub fn render_debug_text(&mut self, sprite_table: &SpriteTable)
        requires
            old(self).wf(),
        ensures
            final(self).wf(),
            final(self).frame_buffer.same_size(&old(self).frame_buffer),
            final(self).frame_buffer.tags == old(self).frame_buffer.tags,
            final(self).video_mode == old(self).video_mode,
            final(self).frames_rendered == old(self).frames_rendered,
            final(self).last_frame_time == old(self).last_frame_time,
            final(self).render_enabled == old(self).render_enabled,
            final(self).flags() == old(self).flags(),
            forall|x: int, y: int|
                final(self).frame_buffer.contains(x, y) ==> final(self).frame_buffer.px(x, y)
                    == with_debug_text(
                    old(self).frame_buffer.px(x, y),
                    debug_lines(
                        &old(self).video_mode,
                        sprite_table.sprite_count,
                        sprite_table.sprites@.len(),
                        old(self).frames_rendered,
                    ),
                    x,
                    y,
                ),
    {
        let lengths: [u128; 5] = self.debug_line_lengths(sprite_table);
        let ghost lens: Seq<int> = lengths@.map_values(|n: u128| n as int);
        let width: usize = self.frame_buffer.width;
        self.frame_buffer.fill_rect(
            PANEL_ORIGIN,
            PANEL_ORIGIN,
            PANEL_WIDTH,
            PANEL_HEIGHT,
            OVERLAY_PANEL,
        );
        let mut row: usize = 0;
        while row < TEXT_LINES
            invariant
                self.wf(),
                self.frame_buffer.same_size(&old(self).frame_buffer),
                self.frame_buffer.tags == old(self).frame_buffer.tags,
                self.video_mode == old(self).video_mode,
                self.frames_rendered == old(self).frames_rendered,
                self.last_frame_time == old(self).last_frame_time,
                self.render_enabled == old(self).render_enabled,
                self.flags() == old(self).flags(),
                width == self.frame_buffer.width,
                row <= 5,
                lens.len() == 5,
                lens == lengths@.map_values(|n: u128| n as int),
                forall|px: int, py: int|
                    self.frame_buffer.contains(px, py) ==> self.frame_buffer.px(px, py) == (
                    if text_dot_before(lens, row as int, 0, px, py) {
                        OVERLAY_TEXT
                    } else if in_panel(px, py) {
                        OVERLAY_PANEL
                    } else {
                        old(self).frame_buffer.px(px, py)
                    }),
            decreases 5 - row,
        {
            let y: usize = TEXT_ORIGIN + row * TEXT_LINE;
            let length: u128 = lengths[row];
            let mut column: u128 = 0;
            let mut x: u128 = TEXT_ORIGIN as u128;
            while column < length && x < width as u128
                invariant
                    self.wf(),
                    self.frame_buffer.same_size(&old(self).frame_buffer),
                    self.frame_buffer.tags == old(self).frame_buffer.tags,
                    self.video_mode == old(self).video_mode,
                    self.frames_rendered == old(self).frames_rendered,
                    self.last_frame_time == old(self).last_frame_time,
                    self.render_enabled == old(self).render_enabled,
                    self.flags() == old(self).flags(),
                    width == self.frame_buffer.width,
                    row < 5,
                    y == 10 + row * 12,
                    lens.len() == 5,
                    lens == lengths@.map_values(|n: u128| n as int),
                    length == lens[row as int],
                    column <= length,
                    x == 10 + column * 6,
                    forall|px: int, py: int|
                        self.frame_buffer.contains(px, py) ==> self.frame_buffer.px(px, py) == (
                        if text_dot_before(lens, row as int, column as int, px, py) {
                            OVERLAY_TEXT
                        } else if in_panel(px, py) {
                            OVERLAY_PANEL
                        } else {
                            old(self).frame_buffer.px(px, py)
                        }),
                decreases length - column,
            {
                self.frame_buffer.set_pixel(x as usize, y, OVERLAY_TEXT);
                column += 1;
                x += 6;
            }
            row += 1;
        }
    }

    /// Draws the debug overlay over the picture: a border on the edge of the
    /// screen, over it a grid line on every eighth column and row, and over
    /// both the debug text.
    pub fn render_debug_overlay(&mut self, sprite_table: &SpriteTable)
        requires
            old(self).wf(),
        ensures
            final(self).wf(),
            final(self).frame_buffer.same_size(&old(self).frame_buffer),
            final(self).frame_buffer.tags == old(self).frame_buffer.tags,
            final(self).video_mode == old(self).video_mode,
            final(self).frames_rendered == old(self).frames_rendered,
            final(self).last_frame_time == old(self).last_frame_time,
            final(self).render_enabled == old(self).render_enabled,
            final(self).flags() == old(self).flags(),
            forall|x: int, y: int|
                final(self).frame_buffer.contains(x, y) ==> final(self).frame_buffer.px(x, y)
                    == with_debug_text(
                    overlaid(
                        old(self).frame_buffer.px(x, y),
                        old(self).frame_buffer.width as int,
                        old(self).frame_buffer.height as int,
                        x,
                        y,
                    ),
                    debug_lines(
                        &old(self).video_mode,
                        sprite_table.sprite_count,
                        sprite_table.sprites@.len(),
                        old(self).frames_rendered,
                    ),
                    x,
                    y,
                ),
    {
        self.render_debug_grid();
        self.render_debug_text(sprite_table);
    }

    /// Draws a border on the edge of the screen and, over it, a grid line on
    /// every eighth column and row.
    pub fn render_debug_grid(&mut self)
        requires
            old(self).wf(),
        ensures
            final(self).wf(),
            final(self).frame_buffer.same_size(&old(self).frame_buffer),
            final(self).frame_buffer.tags == old(self).frame_buffer.tags,
            final(self).video_mode == old(self).video_mode,
            final(self).frames_rendered == old(self).frames_rendered,
            final(self).last_frame_time == old(self).last_frame_time,
            final(self).render_enabled == old(self).render_enabled,
            final(self).flags() == old(self).flags(),
            forall|x: int, y: int|
                final(self).frame_buffer.contains(x, y) ==> final(self).frame_buffer.px(x, y)
                    == overlaid(
                    old(self).frame_buffer.px(x, y),
                    old(self).frame_buffer.width as int,
                    old(self).frame_buffer.height as int,
                    x,
                    y,
                ),
    {
        let width: usize = self.frame_buffer.width;
        let height: usize = self.frame_buffer.height;
        if width == 0 || height == 0 {
            return ;
        }
        self.frame_buffer.draw_rect(0, 0, width, height, OVERLAY_BORDER);
        let mut x: usize = 0;
        while x < width
            invariant
                self.wf(),
                self.frame_buffer.same_size(&old(self).frame_buffer),
                self.frame_buffer.tags == old(self).frame_buffer.tags,
                self.video_mode == old(self).video_mode,
                self.frames_rendered == old(self).frames_rendered,
                self.last_frame_time == old(self).last_frame_time,
                self.render_enabled == old(self).render_enabled,
                self.flags() == old(self).flags(),
                width == self.frame_buffer.width,
                height == self.frame_buffer.height,
                width > 0,
                height > 0,
                x % 8 == 0 || x == width,
                x <= width,
                forall|px: int, py: int|
                    self.frame_buffer.contains(px, py) ==> self.frame_buffer.px(px, py) == (if px
                        % 8 == 0 && px < x {
                        OVERLAY_GRID
                    } else if px == 0 || px == width - 1 || py == 0 || py == height - 1 {
                        OVERLAY_BORDER
                    } else {
                        old(self).frame_buffer.px(px, py)
                    }),
            decreases width - x,
        {
            self.frame_buffer.draw_vertical_line(x, 0, height - 1, OVERLAY_GRID);
            x = if width - x > 8 {
                x + 8
            } else {
                width
            };
        }
        let mut y: usize = 0;
        while y < height
            invariant
                self.wf(),
                self.frame_buffer.same_size(&old(self).frame_buffer),
                self.frame_buffer.tags == old(self).frame_buffer.tags,
                self.video_mode == old(self).video_mode,
                self.frames_rendered == old(self).frames_rendered,
                self.last_frame_time == old(self).last_frame_time,
                self.render_enabled == old(self).render_enabled,
                self.flags() == old(self).flags(),
                width == self.frame_buffer.width,
                height == self.frame_buffer.height,
                width > 0,
                height > 0,
                y % 8 == 0 || y == height,
                y <= height,
                forall|px: int, py: int|
                    self.frame_buffer.contains(px, py) ==> self.frame_buffer.px(px, py) == (if px
                        % 8 == 0 || (py % 8 == 0 && py < y) {
                        OVERLAY_GRID
                    } else if px == width - 1 || py == 0 || py == height - 1 {
                        OVERLAY_BORDER
                    } else {
                        old(self).frame_buffer.px(px, py)
                    }),
            decreases height - y,
        {
            self.frame_buffer.draw_horizontal_line(0, width - 1, y, OVERLAY_GRID);
            y = if height - y > 8 {
                y + 8
            } else {
                height
            };
        }
    }
}

/// Where two layers offer opaque colours to a pixel that is background, the
/// pixel ends with the colour of the layer whose tag is higher, in whichever
/// order the two are offered.
pub proof fn lemma_compositing_order(
    ground: u32,
    low_color: u32,
    low_tag: u8,
    high_color: u32,
    high_tag: u8,
)
    requires
        crate::vdp::framebuffer::is_opaque(low_color),
        crate::vdp::framebuffer::is_opaque(high_color),
        0 < low_tag < high_tag,
    ensures
        merged(merged((ground, 0u8), low_color, low_tag), high_color, high_tag) == (
            high_color,
            high_tag,
        ),
        merged(merged((ground, 0u8), high_color, high_tag), low_color, low_tag) == (
            high_color,
            high_tag,
        ),
{
}

/// The same for a pixel that any layer has drawn before: of two opaque
/// contributions with different tags, both not below the tag of the pixel,
/// the one with the higher tag stays, in whichever order they are offered.
pub proof fn lemma_compositing_order_any(
    cell: (u32, u8),
    low_color: u32,
    low_tag: u8,
    high_color: u32,
    high_tag: u8,
)
    requires
        crate::vdp::framebuffer::is_opaque(low_color),
        crate::vdp::framebuffer::is_opaque(high_color),
        cell.1 <= low_tag < high_tag,
    ensures
        merged(merged(cell, low_color, low_tag), high_color, high_tag) == (high_color, high_tag),
        merged(merged(cell, high_color, high_tag), low_color, low_tag) == (high_color, high_tag),
{
}

} // verus!
