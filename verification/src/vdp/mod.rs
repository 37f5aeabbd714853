//! The video display processor and its parts.
//!
//! [`Vdp`] owns the three memories, the registers and ports, the DMA
//! engine, the interrupt controller, the sprite table and the compositor,
//! and is driven by three kinds of calls: port accesses by the host, `tick`
//! once per cycle, and `render_frame` once per frame.

pub mod cram;
pub mod vram;
pub mod vsram;
pub mod registers;
pub mod dma;
pub mod interrupts;
pub mod framebuffer;
pub mod video_modes;
pub mod planes;
pub mod sprite;
pub mod renderer;
pub mod picture;
pub mod processor;

pub use cram::Cram;
pub use dma::{DmaError, DmaMode, VdpDma};
pub use framebuffer::FrameBuffer;
pub use interrupts::{VdpInterruptController, VdpInterruptType, VdpStatus};
pub use planes::{Plane, PlaneManager, PlaneType, TileEntry};
pub use processor::Vdp;
pub use registers::VdpRegisters;
pub use renderer::{RenderFlags, RenderStats, VdpRenderer};
pub use sprite::{Sprite, SpriteSize, SpriteTable};
pub use video_modes::{VdpRenderMode, VdpResolution, VdpVideoMode};
pub use vram::Vram;
pub use vsram::{ScrollMode, Vsram};
