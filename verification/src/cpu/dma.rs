//! The block-copy controller between the bus of the host processor and the
//! bus of the sound processor. Each tick moves one byte.

use vstd::prelude::*;
use crate::cpu::bus::{Bus, BusError};

verus! {

/// Which way a block is copied.
#[derive(Clone, Copy, Debug, PartialEq, Eq, Structural)]
pub enum DmaDirection {
    From68kToZ80,
    FromZ80To68k,
}

/// What the controller is doing.
#[derive(Clone, Copy, Debug, PartialEq, Eq, Structural)]
pub enum DmaState {
    Idle,
    Busy,
    Completed,
}

/// Why a copy stopped.
#[derive(Clone, Copy, Debug, PartialEq, Eq, Structural)]
pub enum DmaError {
    /// An address outside the memory that may be copied.
    InvalidAddress,
    /// One of the buses refused the access.
    Bus(BusError),
}

/// The controller.
#[derive(Clone, Copy, Debug, PartialEq, Eq, Structural)]
pub struct DmaController {
    pub state: DmaState,
    pub source_addr: u32,
    pub dest_addr: u32,
    pub length: usize,
    pub direction: DmaDirection,
    pub bytes_transferred: usize,
}

/// The address after `addr`, wrapping at the end of the address space.
pub open spec fn next_address(addr: u32) -> u32 {
    if addr == u32::MAX {
        0
    } else {
        (addr + 1) as u32
    }
}

impl DmaController {
    /// A controller at rest.
    pub open spec fn idle() -> DmaController {
        DmaController {
            state: DmaState::Idle,
            source_addr: 0,
            dest_addr: 0,
            length: 0,
            direction: DmaDirection::From68kToZ80,
            bytes_transferred: 0,
        }
    }

    /// Whether a tick has a byte left to move.
    pub open spec fn has_work(self) -> bool {
        self.state == DmaState::Busy && self.bytes_transferred < self.length
    }

    /// The byte that the next tick reads, if the source bus gives one.
    pub open spec fn source_byte(self, bus68k: &Bus, bus_z80: &Bus) -> Option<u8> {
        match self.direction {
            DmaDirection::From68kToZ80 => bus68k.byte_at(self.source_addr as int),
            DmaDirection::FromZ80To68k => bus_z80.byte_at(self.source_addr as int),
        }
    }

    /// Whether the destination bus takes a byte at the destination address.
    pub open spec fn dest_writable(self, bus68k: &Bus, bus_z80: &Bus) -> bool {
        match self.direction {
            DmaDirection::From68kToZ80 => bus_z80.in_ram(self.dest_addr as int),
            DmaDirection::FromZ80To68k => bus68k.in_ram(self.dest_addr as int),
        }
    }

    /// Whether the next tick moves a byte.
    pub open spec fn moves(self, bus68k: &Bus, bus_z80: &Bus) -> bool {
        &&& self.has_work()
        &&& self.source_byte(bus68k, bus_z80) is Some
        &&& self.dest_writable(bus68k, bus_z80)
    }

    /// The controller after a tick that moved a byte: both addresses one
    /// further, and completed once the whole block went over.
    pub open spec fn advanced(self) -> DmaController {
        DmaController {
            source_addr: next_address(self.source_addr),
            dest_addr: next_address(self.dest_addr),
            bytes_transferred: (self.bytes_transferred + 1) as usize,
            state: if self.bytes_transferred + 1 >= self.length {
                DmaState::Completed
            } else {
                DmaState::Busy
            },
            ..self
        }
    }

    /// The controller after a tick.
    pub open spec fn after_tick(self, bus68k: &Bus, bus_z80: &Bus) -> DmaController {
        if self.state != DmaState::Busy {
            self
        } else if self.bytes_transferred >= self.length {
            DmaController { state: DmaState::Completed, ..self }
        } else if self.moves(bus68k, bus_z80) {
            self.advanced()
        } else {
            self
        }
    }

    /// What a tick returns: the error of the source bus first, then that of
    /// the destination bus.
    pub open spec fn tick_result(self, bus68k: &Bus, bus_z80: &Bus) -> Result<(), DmaError> {
        if !self.has_work() {
            Ok(())
        } else if self.source_byte(bus68k, bus_z80) is None {
            Err(DmaError::Bus(BusError::InvalidRead(self.source_addr)))
        } else if !self.dest_writable(bus68k, bus_z80) {
            Err(DmaError::Bus(BusError::InvalidWrite(self.dest_addr)))
        } else {
            Ok(())
        }
    }

    /// The RAM of a bus after a tick: the byte arrives where the bus is the
    /// destination and the tick moves one.
    pub open spec fn ram_after(
        self,
        bus68k: &Bus,
        bus_z80: &Bus,
        to: DmaDirection,
        target: &Bus,
    ) -> Seq<u8> {
        if self.moves(bus68k, bus_z80) && self.direction == to {
            target.stored8(
                target.ram@,
                self.dest_addr as int,
                self.source_byte(bus68k, bus_z80).unwrap(),
            )
        } else {
            target.ram@
        }
    }

    /// A controller at rest.
    pub fn new() -> (dma: DmaController)
        ensures
            dma == DmaController::idle(),
    {
        DmaController {
            state: DmaState::Idle,
            source_addr: 0,
            dest_addr: 0,
            length: 0,
            direction: DmaDirection::From68kToZ80,
            bytes_transferred: 0,
        }
    }

    /// Begins the copy of `length` bytes.
    pub fn start_transfer(
        &mut self,
        source_addr: u32,
        dest_addr: u32,
        length: usize,
        direction: DmaDirection,
    )
        ensures
            *final(self) == (DmaController {
                state: DmaState::Busy,
                source_addr,
                dest_addr,
                length,
                direction,
                bytes_transferred: 0,
            }),
    {
        self.state = DmaState::Busy;
        self.source_addr = source_addr;
        self.dest_addr = dest_addr;
        self.length = length;
        self.direction = direction;
        self.bytes_transferred = 0;
    }

    /// Moves one byte, or finishes a block that has none left. A bus that
    /// refuses the access stops the tick with nothing changed.
    pub fn tick(&mut self, bus68k: &mut Bus, bus_z80: &mut Bus) -> (res: Result<(), DmaError>)
        requires
            old(bus68k).wf(),
            old(bus_z80).wf(),
        ensures
            final(bus68k).wf(),
            final(bus_z80).wf(),
            *final(self) == old(self).after_tick(old(bus68k), old(bus_z80)),
            res == old(self).tick_result(old(bus68k), old(bus_z80)),
            final(bus68k).ram@ == old(self).ram_after(
                old(bus68k),
                old(bus_z80),
                DmaDirection::FromZ80To68k,
                old(bus68k),
            ),
            final(bus_z80).ram@ == old(self).ram_after(
                old(bus68k),
                old(bus_z80),
                DmaDirection::From68kToZ80,
                old(bus_z80),
            ),
            final(bus68k).same_map(old(bus68k)),
            final(bus_z80).same_map(old(bus_z80)),
    {
        if self.state != DmaState::Busy {
            return Ok(());
        }
        if self.bytes_transferred >= self.length {
            self.state = DmaState::Completed;
            return Ok(());
        }
        let read: Result<u8, BusError> = match self.direction {
            DmaDirection::From68kToZ80 => bus68k.read8(self.source_addr),
            DmaDirection::FromZ80To68k => bus_z80.read8(self.source_addr),
        };
        let byte: u8 = match read {
            Ok(byte) => byte,
            Err(e) => {
                return Err(DmaError::Bus(e));
            },
        };
        proof {
            reveal_with_fuel(Bus::write_outcome, 2);
        }
        let written: Result<(), BusError> = match self.direction {
            DmaDirection::From68kToZ80 => bus_z80.write8(self.dest_addr, byte),
            DmaDirection::FromZ80To68k => bus68k.write8(self.dest_addr, byte),
        };
        match written {
            Ok(()) => {},
            Err(e) => {
                return Err(DmaError::Bus(e));
            },
        }
        self.source_addr = self.source_addr.wrapping_add(1);
        self.dest_addr = self.dest_addr.wrapping_add(1);
        self.bytes_transferred += 1;
        if self.bytes_transferred >= self.length {
            self.state = DmaState::Completed;
        }
        Ok(())
    }

    /// Whether a copy is under way.
    pub fn is_busy(&self) -> (busy: bool)
        ensures
            busy == (self.state == DmaState::Busy),
    {
        self.state == DmaState::Busy
    }

    /// Brings the controller to rest.
    pub fn reset(&mut self)
        ensures
            *final(self) == DmaController::idle(),
    {
        *self = DmaController::new();
    }
}

/// A tick never moves more than the block: the count of bytes moved stays
/// within the length, grows by at most one, and a busy controller that has
/// moved them all is completed by the next tick.
pub proof fn lemma_tick_stays_within_the_block(dma: DmaController, bus68k: &Bus, bus_z80: &Bus)
    requires
        dma.bytes_transferred <= dma.length,
    ensures
        dma.after_tick(bus68k, bus_z80).bytes_transferred <= dma.length,
        dma.bytes_transferred <= dma.after_tick(bus68k, bus_z80).bytes_transferred
            <= dma.bytes_transferred + 1,
        dma.after_tick(bus68k, bus_z80).length == dma.length,
        dma.state == DmaState::Busy && dma.bytes_transferred == dma.length ==> dma.after_tick(
            bus68k,
            bus_z80,
        ).state == DmaState::Completed,
{
}

} // verus!
