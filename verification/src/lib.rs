//! Video display processor of a 16-bit tile-and-sprite console: port and
//! register protocol, DMA engine, interrupt controller, plane and sprite
//! renderers and the priority compositor; and the parts of the host that
//! drive it: the processor's registers and operations, the memory map, and
//! the registers of the sound chips.

pub mod cpu;
pub mod memory;
pub mod sound;
pub mod text;
pub mod vdp;
