use gb_emu::gui::GameBoyKey;
use gb_emu::io::apu::Apu;
use gb_emu::io::joypad::Joypad;
use gb_emu::mmu::{MemHandler, MemRead};

fn read(d: &impl MemHandler, addr: u16) -> u8 {
    match d.on_read(addr) {
        MemRead::Replace(v) => v,
        MemRead::PassThrough => panic!("expected the device to answer"),
    }
}

#[test]
fn joypad_reads_active_low_for_the_selected_group() {
    let mut j = Joypad::new();
    assert_eq!(read(&j, 0xFF00), 0xFF); // nothing selected
    j.set_key(GameBoyKey::Left, true);
    j.set_key(GameBoyKey::Up, true);
    j.set_key(GameBoyKey::Start, true);
    j.on_write(0xFF00, 0x20); // select directions (bit 4 = 0)
    assert_eq!(read(&j, 0xFF00), 0b1110_1001);
    j.on_write(0xFF00, 0x10); // select actions (bit 5 = 0)
    assert_eq!(read(&j, 0xFF00), 0b1101_0111);
    j.on_write(0xFF00, 0x00); // both groups
    assert_eq!(read(&j, 0xFF00), 0b1100_0001);
}

#[test]
fn joypad_interrupt_only_on_new_presses() {
    let mut j = Joypad::new();
    j.on_write(0xFF00, 0x10); // actions
    assert!(!j.poll_interrupt());
    j.set_key(GameBoyKey::A, true);
    assert!(j.poll_interrupt());
    assert!(!j.poll_interrupt()); // still held: no new edge
    j.set_key(GameBoyKey::A, false);
    assert!(!j.poll_interrupt()); // release raises nothing
    j.set_key(GameBoyKey::Right, true); // not in the selected group
    assert!(!j.poll_interrupt());
}

#[test]
fn apu_produces_samples_at_the_output_rate() {
    let mut apu = Apu::new();
    // 16_777_216 T-cycles are one second: 4_194_304 M-cycles.
    let mut total = 0usize;
    for _ in 0..4096 {
        total += apu.update(1024).len();
    }
    assert_eq!(total, 44_100);
    assert_eq!(apu.sample_clock, 0);
}

#[test]
fn apu_power_off_resets_and_blocks_writes() {
    let mut apu = Apu::new();
    assert_eq!(read(&apu, 0xFF24), 0x77);
    apu.on_write(0xFF26, 0x00); // power off
    assert!(!apu.master_enable);
    assert_eq!(read(&apu, 0xFF26), 0x70);
    assert_eq!(read(&apu, 0xFF24), 0xFF);
    apu.on_write(0xFF24, 0x12); // ignored while off
    apu.on_write(0xFF30, 0xAB); // wave RAM still takes writes
    assert_eq!(read(&apu, 0xFF30), 0xAB);
    apu.on_write(0xFF26, 0x80); // power on
    assert_eq!(read(&apu, 0xFF24), 0x00);
    assert_eq!(read(&apu, 0xFF26), 0xF0);
    assert!(apu.update(100).len() <= 2);
}

#[test]
fn apu_trigger_enables_channel_one() {
    let mut apu = Apu::new();
    apu.on_write(0xFF12, 0xF0); // volume 15, DAC on
    apu.on_write(0xFF14, 0x80); // trigger
    assert_eq!(read(&apu, 0xFF26) & 0x01, 0x01);
    apu.on_write(0xFF12, 0x00); // DAC off disables the channel
    assert_eq!(read(&apu, 0xFF26) & 0x01, 0x00);
}

#[test]
fn disabled_channel_answers_any_cycle_count() {
    let mut ch = gb_emu::io::apu::channel1::Channel1::new();
    assert_eq!(ch.tick(u32::MAX), 0);
    let mut apu = Apu::new();
    apu.on_write(0xFF26, 0x00);
    assert!(apu.update(usize::MAX).is_empty());
}

#[test]
fn length_counters_stay_within_their_lengths() {
    let mut apu = Apu::new();
    apu.on_write(0xFF11, 0x00); // length load 0 -> counter 64
    apu.on_write(0xFF12, 0xF0);
    apu.on_write(0xFF14, 0x80); // trigger
    assert!(apu.ch1.length_counter >= 1 && apu.ch1.length_counter <= 64);
    apu.on_write(0xFF1A, 0x80); // channel 3 DAC on
    apu.on_write(0xFF1B, 0x00); // counter 256
    apu.on_write(0xFF1E, 0x80);
    assert_eq!(apu.ch3.length_counter, 256);
    assert!(apu.ch3.enabled);
    apu.on_write(0xFF1A, 0x00); // DAC off disables the channel
    assert!(!apu.ch3.enabled);
}

#[test]
fn channel_one_registers_read_back_after_other_calls() {
    let mut ch = gb_emu::io::apu::channel1::Channel1::new();
    // Fresh channel: as if 0 had been written everywhere.
    assert_eq!(ch.read_reg(0xFF10), 0x80);
    assert_eq!(ch.read_reg(0xFF11), 0x3F);
    assert_eq!(ch.read_reg(0xFF12), 0x00);
    assert_eq!(ch.read_reg(0xFF13), 0xFF);
    assert_eq!(ch.read_reg(0xFF14), 0xBF);
    ch.write_reg(0xFF10, 0x3A);
    ch.write_reg(0xFF11, 0x81);
    ch.write_reg(0xFF12, 0xF3);
    ch.write_reg(0xFF13, 0x12);
    ch.write_reg(0xFF14, 0xC5); // trigger with length enabled
    for _ in 0..10 {
        ch.tick(1000);
        ch.clock_length();
        ch.clock_envelope();
        ch.clock_sweep();
    }
    ch.write_reg(0xFF13, 0x99);
    assert_eq!(ch.read_reg(0xFF10), 0x3A | 0x80);
    assert_eq!(ch.read_reg(0xFF11), 0x81 | 0x3F);
    assert_eq!(ch.read_reg(0xFF12), 0xF3);
    assert_eq!(ch.read_reg(0xFF13), 0xFF);
    assert_eq!(ch.read_reg(0xFF14), 0xC5 | 0xBF);
}

#[test]
fn channel_three_wave_byte_kept_by_other_calls() {
    let mut ch = gb_emu::io::apu::channel3::Channel3::new();
    assert_eq!(ch.read_reg(0xFF35), 0x00);
    assert_eq!(ch.read_reg(0xFF1A), 0x7F);
    ch.write_reg(0xFF35, 0xA7);
    ch.write_reg(0xFF36, 0x11);
    ch.write_reg(0xFF1A, 0x80);
    ch.write_reg(0xFF1C, 0x20);
    ch.write_reg(0xFF1E, 0xC0); // trigger with length enabled
    for _ in 0..10 {
        ch.tick(500);
        ch.clock_length();
    }
    ch.write_reg(0xFF1A, 0x00); // DAC off
    assert_eq!(ch.read_reg(0xFF35), 0xA7);
    assert_eq!(ch.read_reg(0xFF36), 0x11);
    assert_eq!(ch.read_reg(0xFF1A), 0x7F);
    assert_eq!(ch.read_reg(0xFF1C), 0x20 | 0x9F);
    assert_eq!(ch.read_reg(0xFF1E), 0xC0 | 0xBF);
}
