//! The programmable sound generator: three tone channels, one noise
//! channel, and the latch that says which register a data byte goes to.
//!
//! A byte with its top bit set names a register in bits 4 to 6 and carries
//! six bits for it; a byte without carries seven bits for the register
//! named last. The counters run once every sixteen cycles.

use vstd::prelude::*;

verus! {

/// Cycles between two runs of the counters.
pub const CLOCK_DIVIDER: u32 = 16;

/// The volume that means silence.
pub const SILENT: u8 = 0x0F;

/// The shift register of the noise channel after a reset.
pub const NOISE_SEED: u16 = 0x8000;

/// Runs of the counter between two steps of the noise that follows the
/// third tone.
pub const FOLLOWING_NOISE_PERIOD: u16 = 32;

/// A tone channel: a square wave that turns over every `period` runs.
#[derive(Clone, Copy, Debug, PartialEq, Eq, Structural)]
pub struct ToneChannel {
    pub counter: u16,
    pub period: u16,
    pub output: bool,
    pub volume: u8,
}

/// The noise channel: a shift register that steps every so many runs.
#[derive(Clone, Copy, Debug, PartialEq, Eq, Structural)]
pub struct NoiseChannel {
    pub shift_register: u16,
    pub period: u8,
    pub counter: u16,
    pub volume: u8,
    pub feedback_mode: bool,
}

/// A counter one further, wrapping within sixteen bits.
pub open spec fn counted(counter: u16) -> u16 {
    if counter == 0xFFFF {
        0
    } else {
        (counter + 1) as u16
    }
}

impl ToneChannel {
    /// A silent channel at rest.
    pub open spec fn silent() -> ToneChannel {
        ToneChannel { counter: 0, period: 0, output: false, volume: SILENT }
    }

    /// The channel after a run of its counter: a channel without period
    /// stands still; else the counter goes on, and on reaching the period
    /// it starts anew and the output turns over.
    pub open spec fn ticked(self) -> ToneChannel {
        if self.period == 0 {
            self
        } else if counted(self.counter) >= self.period {
            ToneChannel { counter: 0, output: !self.output, ..self }
        } else {
            ToneChannel { counter: counted(self.counter), ..self }
        }
    }

    /// The channel with the low six bits of its period written.
    pub open spec fn with_period_low(self, data: u8) -> ToneChannel {
        ToneChannel {
            period: (((self.period as int / 64) % 16) * 64 + data as int % 64) as u16,
            counter: 0,
            ..self
        }
    }

    /// The channel with the two bits above the low six of its period
    /// written.
    pub open spec fn with_period_high(self, data: u8) -> ToneChannel {
        ToneChannel {
            period: (self.period as int % 64 + (data as int % 4) * 64) as u16,
            counter: 0,
            ..self
        }
    }

    /// A silent channel at rest.
    pub fn new() -> (channel: ToneChannel)
        ensures
            channel == ToneChannel::silent(),
    {
        ToneChannel { counter: 0, period: 0, output: false, volume: SILENT }
    }

    /// One run of the counter.
    pub fn tick(&mut self)
        ensures
            *final(self) == old(self).ticked(),
    {
        if self.period > 0 {
            self.counter = self.counter.wrapping_add(1);
            if self.counter >= self.period {
                self.counter = 0;
                self.output = !self.output;
            }
        }
    }
}

impl NoiseChannel {
    /// The period is one of the four that two bits give.
    pub open spec fn wf(self) -> bool {
        self.period <= 3
    }

    /// A silent channel at rest.
    pub open spec fn silent() -> NoiseChannel {
        NoiseChannel {
            shift_register: NOISE_SEED,
            period: 0,
            counter: 0,
            volume: SILENT,
            feedback_mode: false,
        }
    }

    /// Runs of the counter between two steps of the shift register, for
    /// the three periods of its own.
    pub open spec fn divisor(self) -> int {
        if self.period == 0 {
            512
        } else if self.period == 1 {
            1024
        } else {
            2048
        }
    }

    /// The bit that comes in at the top of the shift register: the lowest
    /// bit, or for white noise whether it differs from bit 3.
    pub open spec fn feedback(self) -> bool {
        let low = self.shift_register % 2 == 1;
        let tap = (self.shift_register / 8) % 2 == 1;
        if self.feedback_mode {
            low != tap
        } else {
            low
        }
    }

    /// The shift register one step further.
    pub open spec fn stepped(self) -> u16 {
        (self.shift_register as int / 2 + if self.feedback() {
            0x8000int
        } else {
            0int
        }) as u16
    }

    /// The channel after a run of its counter. With period 3 it follows the
    /// third tone: it stands still while that tone is low, and else counts
    /// to 32 and then takes the next value of its register. With another
    /// period it counts to its divisor and then steps the shift register.
    pub open spec fn ticked(self, tone3_output: bool) -> NoiseChannel {
        if self.period == 3 {
            if !tone3_output {
                self
            } else if counted(self.counter) >= FOLLOWING_NOISE_PERIOD {
                NoiseChannel {
                    counter: 0,
                    shift_register: counted(self.shift_register),
                    ..self
                }
            } else {
                NoiseChannel { counter: counted(self.counter), ..self }
            }
        } else if counted(self.counter) >= self.divisor() {
            NoiseChannel { counter: 0, shift_register: self.stepped(), ..self }
        } else {
            NoiseChannel { counter: counted(self.counter), ..self }
        }
    }

    /// The channel after a write to its control register: the period in
    /// the low two bits, white noise in bit 2, and the shift register
    /// starts anew.
    pub open spec fn with_control(self, data: u8) -> NoiseChannel {
        NoiseChannel {
            period: data % 4,
            feedback_mode: (data / 4) % 2 == 1,
            shift_register: NOISE_SEED,
            ..self
        }
    }

    /// A silent channel at rest.
    pub fn new() -> (channel: NoiseChannel)
        ensures
            channel == NoiseChannel::silent(),
            channel.wf(),
    {
        NoiseChannel {
            shift_register: NOISE_SEED,
            period: 0,
            counter: 0,
            volume: SILENT,
            feedback_mode: false,
        }
    }

    /// One run of the counter.
    pub fn tick(&mut self, tone3_output: bool)
        requires
            old(self).wf(),
        ensures
            *final(self) == old(self).ticked(tone3_output),
            final(self).wf(),
    {
        if self.period == 3 {
            if tone3_output {
                self.counter = self.counter.wrapping_add(1);
                if self.counter >= FOLLOWING_NOISE_PERIOD {
                    self.counter = 0;
                    self.shift_register = self.shift_register.wrapping_add(1);
                }
            }
            return ;
        }
        let period_divisor: u16 = if self.period == 0 {
            512
        } else if self.period == 1 {
            1024
        } else {
            2048
        };
        self.counter = self.counter.wrapping_add(1);
        if self.counter >= period_divisor {
            self.counter = 0;
            let low: bool = self.shift_register % 2 == 1;
            let tap: bool = (self.shift_register / 8) % 2 == 1;
            let bit: bool = if self.feedback_mode {
                low != tap
            } else {
                low
            };
            self.shift_register = self.shift_register / 2 + if bit {
                0x8000u16
            } else {
                0u16
            };
        }
    }
}

/// What the sound generator holds.
#[verifier::ext_equal]
pub struct PsgView {
    /// The three tone channels.
    pub channels: Seq<ToneChannel>,
    /// The noise channel.
    pub noise: NoiseChannel,
    /// The register named last.
    pub latch: u8,
    /// Cycles since the counters ran last.
    pub divider: u32,
}

impl PsgView {
    /// There are three tone channels, the latch names one of eight
    /// registers, and the divider is below sixteen.
    pub open spec fn wf(self) -> bool {
        &&& self.channels.len() == 3
        &&& self.noise.wf()
        &&& self.latch <= 7
        &&& self.divider < CLOCK_DIVIDER
    }

    /// A silent generator at rest.
    pub open spec fn silent() -> PsgView {
        PsgView {
            channels: Seq::new(3, |i: int| ToneChannel::silent()),
            noise: NoiseChannel::silent(),
            latch: 0,
            divider: 0,
        }
    }

    /// The generator with one tone channel replaced.
    pub open spec fn with_channel(self, index: int, channel: ToneChannel) -> PsgView {
        PsgView { channels: self.channels.update(index, channel), ..self }
    }

    /// The generator after a write to a register. Registers 0 to 2 take
    /// the low bits of a tone's period, 4 to 6 the high bits, 3 is the
    /// control of the noise, and 7 the volume of the first tone.
    pub open spec fn with_register(self, reg: u8, data: u8) -> PsgView {
        if reg <= 2 {
            self.with_channel(reg as int, self.channels[reg as int].with_period_low(data))
        } else if reg == 3 {
            PsgView { noise: self.noise.with_control(data), ..self }
        } else if reg <= 6 {
            self.with_channel(reg - 4, self.channels[reg - 4].with_period_high(data))
        } else {
            self.with_channel(0, ToneChannel { volume: data % 16, ..self.channels[0] })
        }
    }

    /// The generator after a byte was written to it.
    pub open spec fn with_data(self, data: u8) -> PsgView {
        if data >= 0x80 {
            let latch = ((data / 16) % 8) as u8;
            (PsgView { latch, ..self }).with_register(latch, data % 64)
        } else {
            self.with_register(self.latch, data % 128)
        }
    }

    /// The generator after its counters ran once: the three tones, then
    /// the noise, which sees the third tone after its run.
    pub open spec fn with_run(self) -> PsgView {
        PsgView {
            channels: seq![
                self.channels[0].ticked(),
                self.channels[1].ticked(),
                self.channels[2].ticked(),
            ],
            noise: self.noise.ticked(self.channels[2].ticked().output),
            ..self
        }
    }

    /// The generator one cycle on: the counters run at every sixteenth.
    pub open spec fn after_cycle(self) -> PsgView {
        if self.divider + 1 >= CLOCK_DIVIDER {
            (PsgView { divider: 0, ..self }).with_run()
        } else {
            PsgView { divider: (self.divider + 1) as u32, ..self }
        }
    }

    /// The generator a number of cycles on.
    pub open spec fn after_cycles(self, cycles: nat) -> PsgView
        decreases cycles,
    {
        if cycles == 0 {
            self
        } else {
            self.after_cycles((cycles - 1) as nat).after_cycle()
        }
    }
}

/// The sound generator.
#[derive(Clone, Debug)]
pub struct Psg {
    pub channels: [ToneChannel; 3],
    pub noise: NoiseChannel,
    pub latch: u8,
    pub divider: u32,
}

impl View for Psg {
    type V = PsgView;

    open spec fn view(&self) -> PsgView {
        PsgView {
            channels: self.channels@,
            noise: self.noise,
            latch: self.latch,
            divider: self.divider,
        }
    }
}

impl Psg {
    /// Whether the generator is well formed.
    pub open spec fn wf(&self) -> bool {
        self@.wf()
    }

    /// Whether the generator is well formed.
    pub fn is_well_formed(&self) -> (ok: bool)
        ensures
            ok == self.wf(),
    {
        self.noise.period <= 3 && self.latch <= 7 && self.divider < CLOCK_DIVIDER
    }

    /// A silent generator at rest.
    pub fn new() -> (psg: Psg)
        ensures
            psg.wf(),
            psg@ == PsgView::silent(),
    {
        let psg = Psg {
            channels: [ToneChannel::new(), ToneChannel::new(), ToneChannel::new()],
            noise: NoiseChannel::new(),
            latch: 0,
            divider: 0,
        };
        assert(psg@.channels =~= Seq::new(3, |i: int| ToneChannel::silent()));
        psg
    }

    /// Writes a byte to the generator.
    pub fn write_data(&mut self, data: u8)
        requires
            old(self).wf(),
        ensures
            final(self).wf(),
            final(self)@ == old(self)@.with_data(data),
    {
        if data >= 0x80 {
            self.latch = (data / 16) % 8;
            self.write_register(self.latch, data % 64);
        } else {
            self.write_register(self.latch, data % 128);
        }
    }

    /// Writes a register.
    fn write_register(&mut self, reg: u8, data: u8)
        requires
            old(self).wf(),
            reg <= 7,
        ensures
            final(self).wf(),
            final(self)@ == old(self)@.with_register(reg, data),
    {
        if reg <= 2 {
            let index: usize = reg as usize;
            let mut channel: ToneChannel = self.channels[index];
            channel.period = ((channel.period / 64) % 16) * 64 + (data % 64) as u16;
            channel.counter = 0;
            self.channels[index] = channel;
        } else if reg == 3 {
            self.noise.period = data % 4;
            self.noise.feedback_mode = (data / 4) % 2 == 1;
            self.noise.shift_register = NOISE_SEED;
        } else if reg <= 6 {
            let index: usize = (reg - 4) as usize;
            let mut channel: ToneChannel = self.channels[index];
            channel.period = channel.period % 64 + ((data % 4) as u16) * 64;
            channel.counter = 0;
            self.channels[index] = channel;
        } else {
            let mut channel: ToneChannel = self.channels[0];
            channel.volume = data % 16;
            self.channels[0] = channel;
        }
    }

    /// One run of the counters.
    fn run(&mut self)
        requires
            old(self).wf(),
        ensures
            final(self).wf(),
            final(self)@ == old(self)@.with_run(),
    {
        let mut first: ToneChannel = self.channels[0];
        let mut second: ToneChannel = self.channels[1];
        let mut third: ToneChannel = self.channels[2];
        first.tick();
        second.tick();
        third.tick();
        self.channels[0] = first;
        self.channels[1] = second;
        self.channels[2] = third;
        self.noise.tick(third.output);
    }

    /// Lets a number of cycles pass.
    pub fn tick(&mut self, cycles: u32)
        requires
            old(self).wf(),
        ensures
            final(self).wf(),
            final(self)@ == old(self)@.after_cycles(cycles as nat),
    {
        let mut i: u32 = 0;
        while i < cycles
            invariant
                i <= cycles,
                self.wf(),
                self@ == old(self)@.after_cycles(i as nat),
            decreases cycles - i,
        {
            self.divider = self.divider + 1;
            if self.divider >= CLOCK_DIVIDER {
                self.divider = 0;
                self.run();
            }
            i += 1;
        }
    }
}

/// The counters run once in sixteen cycles: fifteen cycles after a run only
/// the divider has moved, and the sixteenth brings the next run.
pub proof fn lemma_sixteen_cycles_to_a_run(psg: PsgView)
    requires
        psg.wf(),
        psg.divider == 0,
    ensures
        psg.after_cycles(15) == (PsgView { divider: 15, ..psg }),
        psg.after_cycles(16) == psg.with_run(),
{
    reveal_with_fuel(PsgView::after_cycles, 17);
}

} // verus!
