use megastrife::sound::psg::{NoiseChannel, Psg, ToneChannel};
use megastrife::sound::ym2612::Ym2612;

#[test]
fn tone_turns_over_at_its_period() {
    let mut tone = ToneChannel::new();
    assert_eq!(tone, ToneChannel { counter: 0, period: 0, output: false, volume: 0x0F });
    tone.tick();
    assert_eq!(tone.counter, 0);
    tone.period = 3;
    tone.tick();
    tone.tick();
    assert_eq!((tone.counter, tone.output), (2, false));
    tone.tick();
    assert_eq!((tone.counter, tone.output), (0, true));
    tone.tick();
    tone.tick();
    tone.tick();
    assert_eq!((tone.counter, tone.output), (0, false));
    tone.period = 1;
    tone.tick();
    assert_eq!((tone.counter, tone.output), (0, true));
    tone.counter = 0xFFFF;
    tone.period = 5;
    tone.tick();
    assert_eq!((tone.counter, tone.output), (0, true));
}

#[test]
fn noise_steps_its_shift_register() {
    let mut noise = NoiseChannel::new();
    assert_eq!(noise.shift_register, 0x8000);
    for _ in 0..511 {
        noise.tick(false);
    }
    assert_eq!((noise.counter, noise.shift_register), (511, 0x8000));
    noise.tick(false);
    assert_eq!((noise.counter, noise.shift_register), (0, 0x4000));

    noise.shift_register = 0x0001;
    noise.counter = 511;
    noise.tick(true);
    assert_eq!(noise.shift_register, 0x8000);

    noise.feedback_mode = true;
    noise.shift_register = 0x0009;
    noise.counter = 511;
    noise.tick(false);
    assert_eq!(noise.shift_register, 0x0004);
    noise.shift_register = 0x0008;
    noise.counter = 511;
    noise.tick(false);
    assert_eq!(noise.shift_register, 0x8004);

    noise.period = 1;
    noise.counter = 1022;
    noise.shift_register = 0x0002;
    noise.tick(false);
    assert_eq!((noise.counter, noise.shift_register), (1023, 0x0002));
    noise.tick(false);
    assert_eq!((noise.counter, noise.shift_register), (0, 0x0001));
    noise.period = 2;
    noise.counter = 2047;
    noise.tick(false);
    assert_eq!(noise.counter, 0);
}

#[test]
fn noise_follows_the_third_tone() {
    let mut noise = NoiseChannel::new();
    noise.period = 3;
    noise.tick(false);
    assert_eq!((noise.counter, noise.shift_register), (0, 0x8000));
    for _ in 0..31 {
        noise.tick(true);
    }
    assert_eq!((noise.counter, noise.shift_register), (31, 0x8000));
    noise.tick(true);
    assert_eq!((noise.counter, noise.shift_register), (0, 0x8001));
    noise.shift_register = 0xFFFF;
    noise.counter = 31;
    noise.tick(true);
    assert_eq!(noise.shift_register, 0);
}

#[test]
fn generator_takes_latch_and_data_bytes() {
    let mut psg = Psg::new();
    assert!(psg.is_well_formed());
    psg.write_data(0x80 | 0x10 | 0x05);
    assert_eq!(psg.latch, 1);
    assert_eq!(psg.channels[1].period, 0x15);
    psg.write_data(0x2A);
    assert_eq!(psg.channels[1].period, 0x2A);
    psg.write_data(0x80 | 0x50 | 0x03);
    assert_eq!(psg.latch, 5);
    assert_eq!(psg.channels[1].period, 0x2A | 0xC0);
    psg.write_data(0x41);
    assert_eq!(psg.channels[1].period, 0x2A | 0x40);
    psg.channels[1].counter = 9;
    psg.write_data(0x80 | 0x10);
    assert_eq!(psg.channels[1].period, 0x50);
    assert_eq!(psg.channels[1].counter, 0);

    psg.noise.shift_register = 0x1234;
    psg.write_data(0x80 | 0x30 | 0x06);
    assert_eq!((psg.noise.period, psg.noise.feedback_mode), (2, true));
    assert_eq!(psg.noise.shift_register, 0x8000);
    psg.write_data(0x01);
    assert_eq!((psg.noise.period, psg.noise.feedback_mode), (1, false));

    psg.write_data(0x80 | 0x70 | 0x09);
    assert_eq!(psg.latch, 7);
    assert_eq!(psg.channels[0].volume, 9);
    psg.write_data(0x73);
    assert_eq!(psg.channels[0].volume, 3);
    assert_eq!(psg.channels[2], ToneChannel::new());
    assert!(psg.is_well_formed());
    psg.latch = 8;
    assert!(!psg.is_well_formed());
}

#[test]
fn generator_runs_its_counters_every_sixteen_cycles() {
    let mut psg = Psg::new();
    psg.write_data(0x80 | 0x01);
    psg.write_data(0x80 | 0x20 | 0x02);
    assert_eq!(psg.channels[2].period, 0x22);
    psg.write_data(0x02);
    assert_eq!(psg.channels[2].period, 0x02);
    psg.tick(15);
    assert_eq!(psg.divider, 15);
    assert_eq!((psg.channels[0].counter, psg.channels[0].output), (0, false));
    psg.tick(1);
    assert_eq!(psg.divider, 0);
    assert_eq!((psg.channels[0].counter, psg.channels[0].output), (0, true));
    assert_eq!((psg.channels[2].counter, psg.channels[2].output), (1, false));
    assert_eq!(psg.noise.counter, 1);
    psg.tick(16);
    assert_eq!((psg.channels[0].counter, psg.channels[0].output), (0, false));
    assert_eq!((psg.channels[2].counter, psg.channels[2].output), (0, true));
    psg.tick(16 * 510);
    assert_eq!((psg.noise.counter, psg.noise.shift_register), (0, 0x4000));
    psg.tick(0);
    assert_eq!(psg.divider, 0);
    psg.tick(3);
    assert_eq!(psg.divider, 3);
}

#[test]
fn synthesiser_registers_and_ports() {
    let mut chip = Ym2612::new();
    assert!(chip.registers.iter().all(|&r| r == 0));
    chip.write_register(0, 0x28, 0xF1);
    chip.write_register(1, 0x28, 0x0E);
    chip.write_register(1, 0xFF, 0x77);
    assert_eq!(chip.registers[0x28], 0xF1);
    assert_eq!(chip.registers[0x128], 0x0E);
    assert_eq!(chip.registers[0x1FF], 0x77);
    assert_eq!(chip.read_register(0, 0x28), 0xF1);
    assert_eq!(chip.read_register(1, 0xFF), 0x77);
    assert_eq!(chip.read_status(0), 0);
    assert_eq!(chip.read_status(3), 0);

    chip.write_port(0, 0x30);
    assert_eq!(chip.address, [0x30, 0]);
    chip.write_port(1, 0x55);
    assert_eq!(chip.registers[0x30], 0x55);
    chip.write_port(2, 0x31);
    chip.write_port(3, 0x66);
    assert_eq!(chip.registers[0x131], 0x66);
    chip.write_port(7, 0x67);
    assert_eq!(chip.registers[0x131], 0x67);
    chip.write_port(4, 0x01);
    assert_eq!(chip.address, [0x01, 0x31]);
    assert_eq!(chip.registers.iter().filter(|&&r| r != 0).count(), 5);
}
