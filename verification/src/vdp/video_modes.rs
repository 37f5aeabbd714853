//! Display modes: resolution, timing and colour depth, as the registers and
//! the video standard select them.

use vstd::prelude::*;
use crate::text::{decimal, fixed_digits, push_decimal, push_fixed, text_of};
use crate::vdp::registers::{
    has_bit, plane_dimension_of, test_bit, VdpRegisters, R0_HBLANK_ENABLE, R1_DISPLAY_ENABLE,
    R1_DMA_ENABLE, R1_VBLANK_ENABLE,
};

verus! {

/// Register 0: external interrupt enable.
pub const R0_EXTERNAL_INT: u8 = 0x20;

/// The flags of a display mode.
#[derive(Clone, Copy, Debug, PartialEq, Eq, Structural)]
pub struct VdpModeFlags {
    pub bits: u16,
}

impl VdpModeFlags {
    /// 40 cells (320 pixels) to a line.
    pub const H40: u16 = 0x001;

    /// Interlaced display.
    pub const INTERLACE: u16 = 0x002;

    /// Shadow and highlight.
    pub const SHADOW_HIGHLIGHT: u16 = 0x004;

    /// Horizontal-blank interrupt enabled.
    pub const HBLANK_INT: u16 = 0x008;

    /// Vertical-blank interrupt enabled.
    pub const VBLANK_INT: u16 = 0x010;

    /// DMA enabled.
    pub const DMA_ENABLED: u16 = 0x020;

    /// Display enabled.
    pub const DISPLAY_ENABLED: u16 = 0x040;

    /// PAL, 50 frames a second.
    pub const PAL: u16 = 0x080;

    /// Interlaced at half the frame rate.
    pub const INTERLACE_30HZ: u16 = 0x100;

    /// The window has a base address.
    pub const WINDOW_ENABLED: u16 = 0x200;

    /// External interrupt enabled.
    pub const EXTERNAL_INT: u16 = 0x400;

    /// No flag set.
    pub fn empty() -> (f: VdpModeFlags)
        ensures
            f.bits == 0,
    {
        VdpModeFlags { bits: 0 }
    }

    /// The flags as a number.
    pub fn bits(&self) -> (b: u16)
        ensures
            b == self.bits,
    {
        self.bits
    }

    /// Whether every flag of `flags` is set.
    pub open spec fn has(self, flags: u16) -> bool {
        self.bits & flags == flags
    }

    /// Whether every flag of `flags` is set.
    pub fn contains(&self, flags: u16) -> (b: bool)
        ensures
            b == self.has(flags),
    {
        self.bits & flags == flags
    }

    /// Sets the flags of `flags`.
    pub fn insert(&mut self, flags: u16)
        ensures
            final(self).bits == old(self).bits | flags,
    {
        self.bits = self.bits | flags;
    }

    /// Clears the flags of `flags`.
    pub fn remove(&mut self, flags: u16)
        ensures
            final(self).bits == old(self).bits & !flags,
    {
        self.bits = self.bits & !flags;
    }
}

/// `bits` with `flag` set where `on` holds.
pub open spec fn flag_if(bits: u16, flag: u16, on: bool) -> u16 {
    if on {
        bits | flag
    } else {
        bits
    }
}

fn set_if(bits: u16, flag: u16, on: bool) -> (r: u16)
    ensures
        r == flag_if(bits, flag, on),
{
    if on {
        bits | flag
    } else {
        bits
    }
}

/// The resolutions a mode can have.
#[derive(Debug, Clone, Copy, PartialEq, Eq, Hash, Structural)]
pub enum VdpResolution {
    Res256x224,
    Res320x224,
    Res256x240,
    Res320x240,
    Res256x256,
    Res320x256,
    Res256x448,
    Res320x448,
    Res256x480,
    Res320x480,
}

/// How colours are produced.
#[derive(Debug, Clone, Copy, PartialEq, Eq, Structural)]
pub enum VdpRenderMode {
    Normal,
    ShadowHighlight,
    RGB444,
}

/// A display mode. The pixel clock is in kHz, the refresh rate in mHz.
#[derive(Clone, Copy, Debug, PartialEq, Eq)]
pub struct VdpVideoMode {
    pub name: &'static str,
    pub flags: VdpModeFlags,
    pub visible_width: u16,
    pub visible_height: u16,
    pub total_width: u16,
    pub total_height: u16,
    pub color_depth: u8,
    pub palette_size: u16,
    pub supports_shadow_highlight: bool,
    pub pixel_clock_khz: u32,
    pub refresh_rate_mhz: u32,
    pub h_total_cycles: u16,
    pub v_total_lines: u16,
    pub plane_a_address: u16,
    pub plane_b_address: u16,
    pub window_address: u16,
    pub sprite_table_address: u16,
    pub hscroll_table_address: u16,
    pub tile_width: u8,
    pub tile_height: u8,
    pub plane_width_tiles: u16,
    pub plane_height_tiles: u16,
}

/// The flags that the registers and the video standard select.
pub open spec fn flags_of_registers(regs: &VdpRegisters, is_pal: bool) -> u16 {
    let r0 = regs.regs@[0];
    let r1 = regs.regs@[1];
    let r12 = regs.regs@[12];
    let interlace = (r12 as int / 2) % 4;
    let f1 = flag_if(0, VdpModeFlags::DISPLAY_ENABLED, has_bit(r1, R1_DISPLAY_ENABLE));
    let f2 = flag_if(f1, VdpModeFlags::H40, r12 as int % 2 == 1);
    let f3 = flag_if(f2, VdpModeFlags::INTERLACE, interlace != 0);
    let f4 = flag_if(f3, VdpModeFlags::INTERLACE_30HZ, interlace == 3);
    let f5 = flag_if(f4, VdpModeFlags::SHADOW_HIGHLIGHT, (r12 as int / 8) % 2 == 1);
    let f6 = flag_if(f5, VdpModeFlags::HBLANK_INT, has_bit(r0, R0_HBLANK_ENABLE));
    let f7 = flag_if(f6, VdpModeFlags::VBLANK_INT, has_bit(r1, R1_VBLANK_ENABLE));
    let f8 = flag_if(f7, VdpModeFlags::DMA_ENABLED, has_bit(r1, R1_DMA_ENABLE));
    let f9 = flag_if(f8, VdpModeFlags::PAL, is_pal);
    let f10 = flag_if(f9, VdpModeFlags::EXTERNAL_INT, has_bit(r0, R0_EXTERNAL_INT));
    flag_if(f10, VdpModeFlags::WINDOW_ENABLED, regs.window_addr != 0)
}

/// Each flag of the flags that are built from eleven conditions is set
/// exactly where its condition holds.
pub proof fn lemma_flag_bits(
    display: bool,
    h40: bool,
    interlace: bool,
    half_rate: bool,
    shadow: bool,
    hblank: bool,
    vblank: bool,
    dma: bool,
    pal: bool,
    external: bool,
    window: bool,
)
    by (bit_vector)
    ensures
        ({
            let f = flag_if(
                flag_if(
                    flag_if(
                        flag_if(
                            flag_if(
                                flag_if(
                                    flag_if(
                                        flag_if(
                                            flag_if(
                                                flag_if(flag_if(0, 0x040, display), 0x001, h40),
                                                0x002,
                                                interlace,
                                            ),
                                            0x100,
                                            half_rate,
                                        ),
                                        0x004,
                                        shadow,
                                    ),
                                    0x008,
                                    hblank,
                                ),
                                0x010,
                                vblank,
                            ),
                            0x020,
                            dma,
                        ),
                        0x080,
                        pal,
                    ),
                    0x400,
                    external,
                ),
                0x200,
                window,
            );
            &&& (f & 0x040 == 0x040) == display
            &&& (f & 0x001 == 0x001) == h40
            &&& (f & 0x002 == 0x002) == interlace
            &&& (f & 0x100 == 0x100) == half_rate
            &&& (f & 0x004 == 0x004) == shadow
            &&& (f & 0x008 == 0x008) == hblank
            &&& (f & 0x010 == 0x010) == vblank
            &&& (f & 0x020 == 0x020) == dma
            &&& (f & 0x080 == 0x080) == pal
            &&& (f & 0x400 == 0x400) == external
            &&& (f & 0x200 == 0x200) == window
        }),
{
}

/// The mode of the registers has the display on where register 1 enables
/// it, is wide where bit 0 of register 12 is set, and has the video standard
/// it was made for.
pub proof fn lemma_mode_of_registers(regs: &VdpRegisters, is_pal: bool)
    ensures
        VdpVideoMode::of_registers(regs, is_pal).flags.has(VdpModeFlags::PAL) == is_pal,
        VdpVideoMode::of_registers(regs, is_pal).flags.has(VdpModeFlags::DISPLAY_ENABLED)
            == has_bit(regs.regs@[1], R1_DISPLAY_ENABLE),
        VdpVideoMode::of_registers(regs, is_pal).flags.has(VdpModeFlags::H40) == (
        regs.regs@[12] as int % 2 == 1),
        VdpVideoMode::of_registers(regs, is_pal).flags.has(VdpModeFlags::INTERLACE) == ((
        regs.regs@[12] as int / 2) % 4 != 0),
        VdpVideoMode::of_registers(regs, is_pal).flags.has(VdpModeFlags::SHADOW_HIGHLIGHT) == ((
        regs.regs@[12] as int / 8) % 2 == 1),
{
    let r0 = regs.regs@[0];
    let r1 = regs.regs@[1];
    let r12 = regs.regs@[12];
    let interlace = (r12 as int / 2) % 4;
    lemma_flag_bits(
        has_bit(r1, R1_DISPLAY_ENABLE),
        r12 as int % 2 == 1,
        interlace != 0,
        interlace == 3,
        (r12 as int / 8) % 2 == 1,
        has_bit(r0, R0_HBLANK_ENABLE),
        has_bit(r1, R1_VBLANK_ENABLE),
        has_bit(r1, R1_DMA_ENABLE),
        is_pal,
        has_bit(r0, R0_EXTERNAL_INT),
        regs.window_addr != 0,
    );
}

impl VdpVideoMode {
    /// NTSC, 320 by 224.
    pub open spec fn ntsc_320x224() -> VdpVideoMode {
        VdpVideoMode {
            name: "NTSC 320x224",
            flags: VdpModeFlags { bits: 0x041 },
            visible_width: 320,
            visible_height: 224,
            total_width: 342,
            total_height: 262,
            color_depth: 9,
            palette_size: 64,
            supports_shadow_highlight: false,
            pixel_clock_khz: 7670,
            refresh_rate_mhz: 59940,
            h_total_cycles: 342,
            v_total_lines: 262,
            plane_a_address: 0xC000,
            plane_b_address: 0xE000,
            window_address: 0xB000,
            sprite_table_address: 0xF800,
            hscroll_table_address: 0xFC00,
            tile_width: 8,
            tile_height: 8,
            plane_width_tiles: 40,
            plane_height_tiles: 28,
        }
    }

    /// NTSC, 256 by 224.
    pub open spec fn ntsc_256x224() -> VdpVideoMode {
        VdpVideoMode {
            name: "NTSC 256x224",
            flags: VdpModeFlags { bits: 0x040 },
            visible_width: 256,
            total_width: 320,
            pixel_clock_khz: 6140,
            plane_width_tiles: 32,
            ..Self::ntsc_320x224()
        }
    }

    /// PAL, 320 by 240.
    pub open spec fn pal_320x240() -> VdpVideoMode {
        VdpVideoMode {
            name: "PAL 320x240",
            flags: VdpModeFlags { bits: 0x0C1 },
            visible_height: 240,
            total_width: 424,
            total_height: 313,
            refresh_rate_mhz: 50000,
            h_total_cycles: 424,
            v_total_lines: 313,
            plane_height_tiles: 30,
            ..Self::ntsc_320x224()
        }
    }

    /// Interlaced, 320 by 448.
    pub open spec fn interlace_320x448() -> VdpVideoMode {
        VdpVideoMode {
            name: "Interlace 320x448",
            flags: VdpModeFlags { bits: 0x043 },
            visible_height: 448,
            total_height: 525,
            plane_height_tiles: 56,
            ..Self::ntsc_320x224()
        }
    }

    /// Shadow and highlight, 320 by 224.
    pub open spec fn shadow_highlight_320x224() -> VdpVideoMode {
        VdpVideoMode {
            name: "Shadow/Highlight 320x224",
            flags: VdpModeFlags { bits: 0x045 },
            color_depth: 12,
            supports_shadow_highlight: true,
            ..Self::ntsc_320x224()
        }
    }

    /// The mode before the addresses and the plane size are taken from the
    /// registers: the base mode of the width and the standard, doubled in
    /// height where interlaced, with twelve-bit colour under shadow and highlight.
    pub open spec fn shape_of_flags(flags: u16, is_pal: bool) -> VdpVideoMode {
        let f = VdpModeFlags { bits: flags };
        let base = if f.has(VdpModeFlags::H40) {
            if is_pal {
                Self::pal_320x240()
            } else {
                Self::ntsc_320x224()
            }
        } else {
            Self::ntsc_256x224()
        };
        let sized = if f.has(VdpModeFlags::INTERLACE) {
            let doubled = if f.has(VdpModeFlags::H40) {
                Self::interlace_320x448()
            } else {
                VdpVideoMode {
                    name: "Interlace 256x448",
                    visible_height: 448,
                    total_height: if is_pal {
                        626
                    } else {
                        525
                    },
                    plane_height_tiles: 56,
                    ..base
                }
            };
            if f.has(VdpModeFlags::INTERLACE_30HZ) {
                VdpVideoMode { refresh_rate_mhz: doubled.refresh_rate_mhz / 2, ..doubled }
            } else {
                doubled
            }
        } else {
            base
        };
        let coloured = if f.has(VdpModeFlags::SHADOW_HIGHLIGHT) {
            VdpVideoMode {
                color_depth: 12,
                supports_shadow_highlight: true,
                name: if f.has(VdpModeFlags::H40) {
                    "Shadow/Highlight 320x224"
                } else {
                    "Shadow/Highlight 256x224"
                },
                ..sized
            }
        } else {
            sized
        };
        VdpVideoMode { flags: f, ..coloured }
    }

    /// The mode that the registers and the video standard select.
    pub open spec fn of_registers(regs: &VdpRegisters, is_pal: bool) -> VdpVideoMode {
        VdpVideoMode {
            plane_a_address: regs.plane_a_addr,
            plane_b_address: regs.plane_b_addr,
            window_address: regs.window_addr,
            sprite_table_address: regs.sprite_table_addr,
            hscroll_table_address: regs.hscroll_addr,
            plane_width_tiles: plane_dimension_of((regs.regs@[16] as int / 16) % 4) as u16,
            plane_height_tiles: plane_dimension_of(regs.regs@[16] as int % 4) as u16,
            ..Self::shape_of_flags(flags_of_registers(regs, is_pal), is_pal)
        }
    }

    /// The mode after power-on: NTSC, 320 by 224.
    pub fn new_default() -> (m: VdpVideoMode)
        ensures
            m == Self::ntsc_320x224(),
    {
        Self::create_ntsc_320x224()
    }

    /// NTSC, 320 by 224.
    pub fn create_ntsc_320x224() -> (m: VdpVideoMode)
        ensures
            m == Self::ntsc_320x224(),
    {
        VdpVideoMode {
            name: "NTSC 320x224",
            flags: VdpModeFlags { bits: 0x041 },
            visible_width: 320,
            visible_height: 224,
            total_width: 342,
            total_height: 262,
            color_depth: 9,
            palette_size: 64,
            supports_shadow_highlight: false,
            pixel_clock_khz: 7670,
            refresh_rate_mhz: 59940,
            h_total_cycles: 342,
            v_total_lines: 262,
            plane_a_address: 0xC000,
            plane_b_address: 0xE000,
            window_address: 0xB000,
            sprite_table_address: 0xF800,
            hscroll_table_address: 0xFC00,
            tile_width: 8,
            tile_height: 8,
            plane_width_tiles: 40,
            plane_height_tiles: 28,
        }
    }

    /// NTSC, 256 by 224.
    pub fn create_ntsc_256x224() -> (m: VdpVideoMode)
        ensures
            m == Self::ntsc_256x224(),
    {
        let mut mode = Self::create_ntsc_320x224();
        mode.name = "NTSC 256x224";
        mode.flags = VdpModeFlags { bits: 0x040 };
        mode.visible_width = 256;
        mode.total_width = 320;
        mode.pixel_clock_khz = 6140;
        mode.plane_width_tiles = 32;
        mode
    }

    /// PAL, 320 by 240.
    pub fn create_pal_320x240() -> (m: VdpVideoMode)
        ensures
            m == Self::pal_320x240(),
    {
        let mut mode = Self::create_ntsc_320x224();
        mode.name = "PAL 320x240";
        mode.flags = VdpModeFlags { bits: 0x0C1 };
        mode.visible_height = 240;
        mode.total_width = 424;
        mode.total_height = 313;
        mode.refresh_rate_mhz = 50000;
        mode.h_total_cycles = 424;
        mode.v_total_lines = 313;
        mode.plane_height_tiles = 30;
        mode
    }

    /// Interlaced, 320 by 448.
    pub fn create_interlace_320x448() -> (m: VdpVideoMode)
        ensures
            m == Self::interlace_320x448(),
    {
        let mut mode = Self::create_ntsc_320x224();
        mode.name = "Interlace 320x448";
        mode.flags = VdpModeFlags { bits: 0x043 };
        mode.visible_height = 448;
        mode.total_height = 525;
        mode.plane_height_tiles = 56;
        mode
    }

    /// Shadow and highlight, 320 by 224.
    pub fn create_shadow_highlight_320x224() -> (m: VdpVideoMode)
        ensures
            m == Self::shadow_highlight_320x224(),
    {
        let mut mode = Self::create_ntsc_320x224();
        mode.name = "Shadow/Highlight 320x224";
        mode.flags = VdpModeFlags { bits: 0x045 };
        mode.color_depth = 12;
        mode.supports_shadow_highlight = true;
        mode
    }

    fn flags_from(regs: &VdpRegisters, is_pal: bool) -> (flags: u16)
        ensures
            flags == flags_of_registers(regs, is_pal),
    {
        let r0: u8 = regs.regs[0];
        let r1: u8 = regs.regs[1];
        let r12: u8 = regs.regs[12];
        let interlace: u8 = (r12 / 2) % 4;
        let f1: u16 = set_if(0, VdpModeFlags::DISPLAY_ENABLED, test_bit(r1, R1_DISPLAY_ENABLE));
        let f2: u16 = set_if(f1, VdpModeFlags::H40, r12 % 2 == 1);
        let f3: u16 = set_if(f2, VdpModeFlags::INTERLACE, interlace != 0);
        let f4: u16 = set_if(f3, VdpModeFlags::INTERLACE_30HZ, interlace == 3);
        let f5: u16 = set_if(f4, VdpModeFlags::SHADOW_HIGHLIGHT, (r12 / 8) % 2 == 1);
        let f6: u16 = set_if(f5, VdpModeFlags::HBLANK_INT, test_bit(r0, R0_HBLANK_ENABLE));
        let f7: u16 = set_if(f6, VdpModeFlags::VBLANK_INT, test_bit(r1, R1_VBLANK_ENABLE));
        let f8: u16 = set_if(f7, VdpModeFlags::DMA_ENABLED, test_bit(r1, R1_DMA_ENABLE));
        let f9: u16 = set_if(f8, VdpModeFlags::PAL, is_pal);
        let f10: u16 = set_if(f9, VdpModeFlags::EXTERNAL_INT, test_bit(r0, R0_EXTERNAL_INT));
        set_if(f10, VdpModeFlags::WINDOW_ENABLED, regs.window_addr != 0)
    }

    fn shape_from(flags: u16, is_pal: bool) -> (m: VdpVideoMode)
        ensures
            m == Self::shape_of_flags(flags, is_pal),
    {
        let f = VdpModeFlags { bits: flags };
        let h40: bool = f.contains(VdpModeFlags::H40);
        let mut mode = if h40 {
            if is_pal {
                Self::create_pal_320x240()
            } else {
                Self::create_ntsc_320x224()
            }
        } else {
            Self::create_ntsc_256x224()
        };
        if f.contains(VdpModeFlags::INTERLACE) {
            if h40 {
                mode = Self::create_interlace_320x448();
            } else {
                mode.name = "Interlace 256x448";
                mode.visible_height = 448;
                mode.total_height = if is_pal {
                    626
                } else {
                    525
                };
                mode.plane_height_tiles = 56;
            }
            if f.contains(VdpModeFlags::INTERLACE_30HZ) {
                mode.refresh_rate_mhz = mode.refresh_rate_mhz / 2;
            }
        }
        if f.contains(VdpModeFlags::SHADOW_HIGHLIGHT) {
            mode.color_depth = 12;
            mode.supports_shadow_highlight = true;
            mode.name = if h40 {
                "Shadow/Highlight 320x224"
            } else {
                "Shadow/Highlight 256x224"
            };
        }
        mode.flags = f;
        mode
    }

    /// The mode that the registers and the video standard select.
    pub fn from_registers(regs: &VdpRegisters, is_pal: bool) -> (m: VdpVideoMode)
        ensures
            m == Self::of_registers(regs, is_pal),
    {
        let mut mode = Self::shape_from(Self::flags_from(regs, is_pal), is_pal);
        mode.plane_a_address = regs.plane_a_address();
        mode.plane_b_address = regs.plane_b_address();
        mode.window_address = regs.window_address();
        mode.sprite_table_address = regs.sprite_table_address();
        mode.hscroll_table_address = regs.hscroll_address();
        let (width, height) = regs.plane_size();
        mode.plane_width_tiles = width as u16;
        mode.plane_height_tiles = height as u16;
        mode
    }

    /// Visible width and height.
    pub fn resolution(&self) -> (r: (u16, u16))
        ensures
            r == (self.visible_width, self.visible_height),
    {
        (self.visible_width, self.visible_height)
    }

    /// Width and height with blanking.
    pub fn total_resolution(&self) -> (r: (u16, u16))
        ensures
            r == (self.total_width, self.total_height),
    {
        (self.total_width, self.total_height)
    }

    /// Whether a line has 40 cells.
    pub fn is_h40(&self) -> (b: bool)
        ensures
            b == self.flags.has(VdpModeFlags::H40),
    {
        self.flags.contains(VdpModeFlags::H40)
    }

    /// Whether a line has 32 cells.
    pub fn is_h32(&self) -> (b: bool)
        ensures
            b == !self.flags.has(VdpModeFlags::H40),
    {
        !self.flags.contains(VdpModeFlags::H40)
    }

    /// Whether the display is interlaced.
    pub fn is_interlace(&self) -> (b: bool)
        ensures
            b == self.flags.has(VdpModeFlags::INTERLACE),
    {
        self.flags.contains(VdpModeFlags::INTERLACE)
    }

    /// Whether the standard is PAL.
    pub fn is_pal(&self) -> (b: bool)
        ensures
            b == self.flags.has(VdpModeFlags::PAL),
    {
        self.flags.contains(VdpModeFlags::PAL)
    }

    /// Whether the standard is NTSC.
    pub fn is_ntsc(&self) -> (b: bool)
        ensures
            b == !self.flags.has(VdpModeFlags::PAL),
    {
        !self.flags.contains(VdpModeFlags::PAL)
    }

    /// Whether shadow and highlight are on.
    pub fn has_shadow_highlight(&self) -> (b: bool)
        ensures
            b == self.flags.has(VdpModeFlags::SHADOW_HIGHLIGHT),
    {
        self.flags.contains(VdpModeFlags::SHADOW_HIGHLIGHT)
    }

    /// Whether the display is on.
    pub fn display_enabled(&self) -> (b: bool)
        ensures
            b == self.flags.has(VdpModeFlags::DISPLAY_ENABLED),
    {
        self.flags.contains(VdpModeFlags::DISPLAY_ENABLED)
    }

    /// How colours are produced: by shadow and highlight where that is on,
    /// else with twelve bits where the depth is twelve, else normally.
    pub fn render_mode(&self) -> (m: VdpRenderMode)
        ensures
            m == (if self.flags.has(VdpModeFlags::SHADOW_HIGHLIGHT) {
                VdpRenderMode::ShadowHighlight
            } else if self.color_depth == 12 {
                VdpRenderMode::RGB444
            } else {
                VdpRenderMode::Normal
            }),
    {
        if self.has_shadow_highlight() {
            VdpRenderMode::ShadowHighlight
        } else if self.color_depth == 12 {
            VdpRenderMode::RGB444
        } else {
            VdpRenderMode::Normal
        }
    }

    /// The resolution as one of the known ones; an unknown one counts as 320 by 224.
    pub fn resolution_type(&self) -> (r: VdpResolution)
        ensures
            r == Self::resolution_of(self.visible_width, self.visible_height),
    {
        let w: u16 = self.visible_width;
        let h: u16 = self.visible_height;
        if w == 256 && h == 224 {
            VdpResolution::Res256x224
        } else if w == 256 && h == 240 {
            VdpResolution::Res256x240
        } else if w == 320 && h == 240 {
            VdpResolution::Res320x240
        } else if w == 256 && h == 256 {
            VdpResolution::Res256x256
        } else if w == 320 && h == 256 {
            VdpResolution::Res320x256
        } else if w == 256 && h == 448 {
            VdpResolution::Res256x448
        } else if w == 320 && h == 448 {
            VdpResolution::Res320x448
        } else if w == 256 && h == 480 {
            VdpResolution::Res256x480
        } else if w == 320 && h == 480 {
            VdpResolution::Res320x480
        } else {
            VdpResolution::Res320x224
        }
    }

    /// The known resolution of a width and a height.
    pub open spec fn resolution_of(w: u16, h: u16) -> VdpResolution {
        if w == 256 && h == 224 {
            VdpResolution::Res256x224
        } else if w == 256 && h == 240 {
            VdpResolution::Res256x240
        } else if w == 320 && h == 240 {
            VdpResolution::Res320x240
        } else if w == 256 && h == 256 {
            VdpResolution::Res256x256
        } else if w == 320 && h == 256 {
            VdpResolution::Res320x256
        } else if w == 256 && h == 448 {
            VdpResolution::Res256x448
        } else if w == 320 && h == 448 {
            VdpResolution::Res320x448
        } else if w == 256 && h == 480 {
            VdpResolution::Res256x480
        } else if w == 320 && h == 480 {
            VdpResolution::Res320x480
        } else {
            VdpResolution::Res320x224
        }
    }

    /// Cycles of a line: 424 for PAL and 342 for NTSC with 40 cells, 320 with 32.
    pub fn cycles_per_line(&self) -> (n: u16)
        ensures
            n == (if !self.flags.has(VdpModeFlags::H40) {
                320int
            } else if self.flags.has(VdpModeFlags::PAL) {
                424int
            } else {
                342int
            }),
    {
        if !self.is_h40() {
            320
        } else if self.is_pal() {
            424
        } else {
            342
        }
    }

    /// Lines of a frame: 313 for PAL, 262 for NTSC.
    pub fn lines_per_frame(&self) -> (n: u16)
        ensures
            n == (if self.flags.has(VdpModeFlags::PAL) {
                313int
            } else {
                262int
            }),
    {
        if self.is_pal() {
            313
        } else {
            262
        }
    }

    /// Duration of a frame in microseconds, rounded down; zero where the
    /// refresh rate is zero.
    pub fn frame_time_micros(&self) -> (t: u64)
        ensures
            t == (if self.refresh_rate_mhz == 0 {
                0int
            } else {
                1_000_000_000int / (self.refresh_rate_mhz as int)
            }),
    {
        if self.refresh_rate_mhz == 0 {
            0
        } else {
            1_000_000_000u64 / self.refresh_rate_mhz as u64
        }
    }

    /// Duration of a line in nanoseconds, rounded down; zero where the
    /// refresh rate is zero.
    pub fn line_time_nanos(&self) -> (t: u64)
        ensures
            t == (if self.refresh_rate_mhz == 0 {
                0int
            } else {
                (1_000_000_000_000int / (self.refresh_rate_mhz as int)) / (if self.flags.has(
                    VdpModeFlags::PAL,
                ) {
                    313int
                } else {
                    262int
                })
            }),
    {
        if self.refresh_rate_mhz == 0 {
            0
        } else {
            (1_000_000_000_000u64 / self.refresh_rate_mhz as u64) / self.lines_per_frame() as u64
        }
    }

    /// Whether the hardware can show the mode: not shadow and highlight
    /// together with interlace, and no plane above 128 tiles a side.
    pub fn is_supported(&self) -> (b: bool)
        ensures
            b == (!(self.flags.has(VdpModeFlags::SHADOW_HIGHLIGHT) && self.flags.has(
                VdpModeFlags::INTERLACE,
            )) && self.plane_width_tiles <= 128 && self.plane_height_tiles <= 128),
    {
        if self.has_shadow_highlight() && self.is_interlace() {
            return false;
        }
        if self.plane_width_tiles > 128 || self.plane_height_tiles > 128 {
            return false;
        }
        true
    }
}

/// A rate in thousandths as text with two decimals, rounded down.
pub open spec fn rate_text(thousandths: u32) -> Seq<char> {
    decimal((thousandths / 1000) as nat) + "."@ + fixed_digits(
        ((thousandths % 1000) / 10) as nat,
        10,
        2,
    )
}

fn push_rate(s: &mut String, thousandths: u32)
    ensures
        final(s)@ == old(s)@ + rate_text(thousandths),
{
    push_decimal(s, (thousandths / 1000) as u64);
    s.push_str(".");
    push_fixed(s, ((thousandths % 1000) / 10) as u64, 10, 2);
    proof {
        assert(old(s)@ + decimal((thousandths / 1000) as nat) + "."@ + fixed_digits(
            ((thousandths % 1000) / 10) as nat,
            10,
            2,
        ) =~= old(s)@ + rate_text(thousandths));
    }
}

fn yes_no(b: bool) -> (t: &'static str)
    ensures
        t@ == (if b {
            "Yes"@
        } else {
            "No"@
        }),
{
    if b {
        "Yes"
    } else {
        "No"
    }
}

impl VdpVideoMode {
    /// The name of the video standard.
    pub open spec fn standard_text(&self) -> Seq<char> {
        if self.flags.has(VdpModeFlags::PAL) {
            "PAL"@
        } else {
            "NTSC"@
        }
    }

    /// The mode as one line of text.
    pub open spec fn summary_text(&self) -> Seq<char> {
        self.name@ + ": "@ + decimal(self.visible_width as nat) + "x"@ + decimal(
            self.visible_height as nat,
        ) + " @ "@ + rate_text(self.refresh_rate_mhz) + "Hz, "@ + decimal(self.palette_size as nat)
            + " colors, "@ + self.standard_text()
    }

    /// The twelve values of the report, in the order of `debug_info`.
    pub open spec fn debug_text(&self) -> Seq<Seq<char>> {
        seq![
            self.name@,
            decimal(self.visible_width as nat) + "x"@ + decimal(self.visible_height as nat),
            decimal(self.total_width as nat) + "x"@ + decimal(self.total_height as nat),
            rate_text(self.refresh_rate_mhz) + " Hz"@,
            decimal(self.color_depth as nat) + " bits"@,
            decimal(self.palette_size as nat) + " colors"@,
            rate_text(self.pixel_clock_khz) + " MHz"@,
            if self.flags.has(VdpModeFlags::H40) {
                "H40"@
            } else {
                "H32"@
            },
            if self.flags.has(VdpModeFlags::INTERLACE) {
                "Yes"@
            } else {
                "No"@
            },
            self.standard_text(),
            if self.flags.has(VdpModeFlags::DISPLAY_ENABLED) {
                "Enabled"@
            } else {
                "Disabled"@
            },
            if !(self.flags.has(VdpModeFlags::SHADOW_HIGHLIGHT) && self.flags.has(
                VdpModeFlags::INTERLACE,
            )) && self.plane_width_tiles <= 128 && self.plane_height_tiles <= 128 {
                "Yes"@
            } else {
                "No"@
            },
        ]
    }

    /// The mode as one line: name, resolution, refresh rate, colours and standard.
    pub fn to_string(&self) -> (s: String)
        ensures
            s@ == self.summary_text(),
    {
        let mut s = text_of(self.name);
        s.push_str(": ");
        push_decimal(&mut s, self.visible_width as u64);
        s.push_str("x");
        push_decimal(&mut s, self.visible_height as u64);
        s.push_str(" @ ");
        push_rate(&mut s, self.refresh_rate_mhz);
        s.push_str("Hz, ");
        push_decimal(&mut s, self.palette_size as u64);
        s.push_str(" colors, ");
        s.push_str(
            if self.is_pal() {
                "PAL"
            } else {
                "NTSC"
            },
        );
        s
    }

    fn pair_text(a: u16, b: u16) -> (s: String)
        ensures
            s@ == decimal(a as nat) + "x"@ + decimal(b as nat),
    {
        let mut s = String::new();
        push_decimal(&mut s, a as u64);
        s.push_str("x");
        push_decimal(&mut s, b as u64);
        proof {
            assert(Seq::<char>::empty() + decimal(a as nat) =~= decimal(a as nat));
        }
        s
    }

    fn number_with_unit(n: u64, unit: &str) -> (s: String)
        ensures
            s@ == decimal(n as nat) + unit@,
    {
        let mut s = String::new();
        push_decimal(&mut s, n);
        s.push_str(unit);
        proof {
            assert(Seq::<char>::empty() + decimal(n as nat) =~= decimal(n as nat));
        }
        s
    }

    fn rate_with_unit(thousandths: u32, unit: &str) -> (s: String)
        ensures
            s@ == rate_text(thousandths) + unit@,
    {
        let mut s = String::new();
        push_rate(&mut s, thousandths);
        s.push_str(unit);
        proof {
            assert(Seq::<char>::empty() + rate_text(thousandths) =~= rate_text(thousandths));
        }
        s
    }

    /// The mode as twelve named values.
    pub fn debug_info(&self) -> (info: Vec<(&'static str, String)>)
        ensures
            info@.len() == 12,
            forall|i: int| 0 <= i < 12 ==> info@[i].1@ == self.debug_text()[i],
            info@[0].0@ == "Name"@,
            info@[1].0@ == "Resolution"@,
            info@[2].0@ == "Total"@,
            info@[3].0@ == "Refresh Rate"@,
            info@[4].0@ == "Color Depth"@,
            info@[5].0@ == "Palette Size"@,
            info@[6].0@ == "Pixel Clock"@,
            info@[7].0@ == "Mode"@,
            info@[8].0@ == "Interlace"@,
            info@[9].0@ == "System"@,
            info@[10].0@ == "Display"@,
            info@[11].0@ == "Supported"@,
    {
        let mut info: Vec<(&'static str, String)> = Vec::new();
        info.push(("Name", text_of(self.name)));
        info.push(("Resolution", Self::pair_text(self.visible_width, self.visible_height)));
        info.push(("Total", Self::pair_text(self.total_width, self.total_height)));
        info.push(("Refresh Rate", Self::rate_with_unit(self.refresh_rate_mhz, " Hz")));
        info.push(("Color Depth", Self::number_with_unit(self.color_depth as u64, " bits")));
        info.push(("Palette Size", Self::number_with_unit(self.palette_size as u64, " colors")));
        info.push(("Pixel Clock", Self::rate_with_unit(self.pixel_clock_khz, " MHz")));
        info.push(
            (
                "Mode",
                text_of(
                    if self.is_h40() {
                        "H40"
                    } else {
                        "H32"
                    },
                ),
            ),
        );
        info.push(("Interlace", text_of(yes_no(self.is_interlace()))));
        info.push(
            (
                "System",
                text_of(
                    if self.is_pal() {
                        "PAL"
                    } else {
                        "NTSC"
                    },
                ),
            ),
        );
        info.push(
            (
                "Display",
                text_of(
                    if self.display_enabled() {
                        "Enabled"
                    } else {
                        "Disabled"
                    },
                ),
            ),
        );
        info.push(("Supported", text_of(yes_no(self.is_supported()))));
        info
    }
}

impl Default for VdpVideoMode {
    fn default() -> (m: VdpVideoMode)
        ensures
            m == Self::ntsc_320x224(),
    {
        VdpVideoMode::new_default()
    }
}

} // verus!
