use moboy::apu::Apu;
use moboy::gameboy::GameBoy;
use moboy::joypad::Joypad;
use moboy::joypad::Key;
use moboy::mmu::Mmu;
use moboy::ppu::PpuMode;
use moboy::timer::Timer;

fn plain_rom() -> Vec<u8> {
    vec![0u8; 0x8000]
}

fn fresh_mmu(rom: Vec<u8>) -> Mmu {
    Mmu::new(rom, Apu::new(), Timer::new())
}

#[test]
fn timer_falling_edge_once() {
    // DIV=0, TAC=0x05 (enabled, bit 3): 16 cycles from counter 0 bump TIMA
    // exactly once.
    let mut timer = Timer::new();
    let update = timer.update(16, 0x05, 0x00, 0x00);
    assert_eq!(update.new_tima, Some(0x01));
    assert!(!update.timer_interrupt);
    assert_eq!(timer.internal_counter, 16);
}

#[test]
fn timer_overflow_reloads_tma() {
    // TIMA=0xFF, TMA=0xAB: the edge overflows, reloads and interrupts.
    let mut timer = Timer::new();
    let update = timer.update(16, 0x05, 0xFF, 0xAB);
    assert_eq!(update.new_tima, Some(0xAB));
    assert!(update.timer_interrupt);
}

#[test]
fn timer_disabled_no_tick() {
    let mut timer = Timer::new();
    let update = timer.update(16, 0x00, 0x00, 0x00);
    assert_eq!(update.new_tima, None);
    assert!(!update.timer_interrupt);
}

#[test]
fn timer_overflow_through_bus() {
    let mut mmu = fresh_mmu(plain_rom());
    mmu.write8(0xFF07, 0x05);
    mmu.write8(0xFF06, 0xAB);
    mmu.write8(0xFF05, 0xFF);
    mmu.write8(0xFF0F, 0x00);
    mmu.tick(16);
    assert_eq!(mmu.read8(0xFF05), 0xAB);
    assert_eq!(mmu.read8(0xFF0F) & 0x04, 0x04);
}

#[test]
fn div_write_resets_counter() {
    let mut mmu = fresh_mmu(plain_rom());
    mmu.tick(0xFF);
    mmu.tick(0xFF);
    assert!(mmu.timer.internal_counter > 0);
    mmu.write8(0xFF04, 0x55);
    assert_eq!(mmu.timer.internal_counter, 0);
    assert_eq!(mmu.read8(0xFF04), 0x00);
}

#[test]
fn div_write_spurious_tima_tick() {
    // With the timer enabled on bit 3, resetting DIV while that bit is 1
    // bumps TIMA once through the falling-edge rule.
    let mut mmu = fresh_mmu(plain_rom());
    mmu.write8(0xFF07, 0x05);
    mmu.write8(0xFF05, 0x05);
    mmu.tick(8);  // counter = 8: bit 3 is set, no edge yet
    assert_eq!(mmu.read8(0xFF05), 0x05);
    mmu.write8(0xFF04, 0x00);
    assert_eq!(mmu.timer.internal_counter, 0);
    assert_eq!(mmu.read8(0xFF05), 0x06);
}

#[test]
fn div_write_spurious_tick_overflows() {
    let mut mmu = fresh_mmu(plain_rom());
    mmu.write8(0xFF07, 0x05);
    mmu.write8(0xFF06, 0xAB);
    mmu.write8(0xFF05, 0xFF);
    mmu.write8(0xFF0F, 0x00);
    mmu.tick(8);
    mmu.write8(0xFF04, 0x00);
    assert_eq!(mmu.read8(0xFF05), 0xAB);
    assert_eq!(mmu.read8(0xFF0F) & 0x04, 0x04);
}

#[test]
fn div_write_without_selected_bit_no_tick() {
    let mut mmu = fresh_mmu(plain_rom());
    mmu.write8(0xFF07, 0x05);
    mmu.write8(0xFF05, 0x05);
    mmu.tick(4);  // counter = 4: bit 3 still clear
    mmu.write8(0xFF04, 0x00);
    assert_eq!(mmu.read8(0xFF05), 0x05);
}

#[test]
fn joypad_press_edge_only_once() {
    let mut mmu = fresh_mmu(plain_rom());
    mmu.write8(0xFF0F, 0x00);
    mmu.key_down(Key::A);
    assert_eq!(mmu.read8(0xFF0F) & 0x10, 0x10);
    mmu.write8(0xFF0F, 0x00);
    mmu.key_down(Key::A);
    assert_eq!(mmu.read8(0xFF0F) & 0x10, 0x00);
    mmu.key_up(Key::A);
    assert_eq!(mmu.read8(0xFF0F) & 0x10, 0x00);
    mmu.key_down(Key::A);
    assert_eq!(mmu.read8(0xFF0F) & 0x10, 0x10);
}

#[test]
fn joypad_register_selection() {
    let mut pad = Joypad::new();
    pad.press(Key::Right);
    pad.write(0xEF);  // select directions (bit 4 low)
    assert_eq!(pad.read(), 0xEE);
    pad.write(0xDF);  // select buttons (bit 5 low)
    assert_eq!(pad.read(), 0xDF);
    pad.write(0xFF);  // nothing selected
    assert_eq!(pad.read(), 0xFF);
}

#[test]
fn serial_stub_self_echo() {
    let mut mmu = fresh_mmu(plain_rom());
    mmu.write8(0xFF0F, 0x00);
    mmu.write8(0xFF02, 0x81);
    assert_eq!(mmu.read8(0xFF01), 0xFF);
    assert_eq!(mmu.read8(0xFF02), 0x01);
    assert_eq!(mmu.read8(0xFF0F) & 0x08, 0x08);
}

#[test]
fn dma_copies_oam() {
    let mut mmu = fresh_mmu(plain_rom());
    for i in 0..0xA0u16 {
        mmu.write8(0xC000 + i, i as u8);
    }
    mmu.write8(0xFF46, 0xC0);
    for i in 0..0xA0u16 {
        assert_eq!(mmu.read8(0xFE00 + i), i as u8);
    }
}

#[test]
fn stat_write_keeps_mode_bits() {
    let mut mmu = fresh_mmu(plain_rom());
    mmu.write_stat(0x03);
    mmu.write8(0xFF41, 0xFF);
    assert_eq!(mmu.read8(0xFF41), 0x03 | 0x78 | 0x80);
}

#[test]
fn ly_write_ignored() {
    let mut mmu = fresh_mmu(plain_rom());
    mmu.write_ly(17);
    mmu.write8(0xFF44, 0x99);
    assert_eq!(mmu.read8(0xFF44), 17);
}

#[test]
fn mbc1_bank_switch() {
    let mut rom = vec![0u8; 0x4000 * 4];
    rom[0x147] = 0x01;
    rom[0x4000] = 0x11;
    rom[0x8000] = 0x22;
    rom[0xC000] = 0x33;
    let mut mmu = fresh_mmu(rom);
    assert_eq!(mmu.read8(0x4000), 0x11);
    mmu.write8(0x2000, 0x02);
    assert_eq!(mmu.read8(0x4000), 0x22);
    mmu.write8(0x2000, 0x03);
    assert_eq!(mmu.read8(0x4000), 0x33);
    // Bank 0 selects bank 1.
    mmu.write8(0x2000, 0x00);
    assert_eq!(mmu.read8(0x4000), 0x11);
}

#[test]
fn eram_gate_and_size() {
    let mut rom = plain_rom();
    rom[0x147] = 0x03;
    rom[0x149] = 0x02;
    let mut mmu = fresh_mmu(rom);
    assert_eq!(mmu.read8(0xA000), 0xFF);
    mmu.write8(0xA000, 0x55);
    assert_eq!(mmu.read8(0xA000), 0xFF);
    mmu.write8(0x0000, 0x0A);
    mmu.write8(0xA000, 0x55);
    assert_eq!(mmu.read8(0xA000), 0x55);
    mmu.write8(0x0000, 0x00);
    assert_eq!(mmu.read8(0xA000), 0xFF);
}

#[test]
fn mbc3_rtc_window_reads_ff() {
    let mut rom = plain_rom();
    rom[0x147] = 0x0F;
    rom[0x149] = 0x02;
    let mut mmu = fresh_mmu(rom);
    mmu.write8(0x0000, 0x0A);
    mmu.write8(0xA000, 0x77);
    assert_eq!(mmu.read8(0xA000), 0x77);
    mmu.write8(0x4000, 0x08);
    assert_eq!(mmu.read8(0xA000), 0xFF);
    mmu.write8(0xA000, 0x12);
    mmu.write8(0x4000, 0x00);
    assert_eq!(mmu.read8(0xA000), 0x77);
}

#[test]
fn echo_ram_mirrors_wram() {
    let mut mmu = fresh_mmu(plain_rom());
    mmu.write8(0xC123, 0xAB);
    assert_eq!(mmu.read8(0xE123), 0xAB);
    mmu.write8(0xE200, 0xCD);
    assert_eq!(mmu.read8(0xC200), 0xCD);
}

#[test]
fn rom_read_out_of_range_is_ff() {
    let mmu = fresh_mmu(vec![0u8; 0x200]);
    assert_eq!(mmu.read8(0x1FF), 0x00);
    assert_eq!(mmu.read8(0x200), 0xFF);
    assert_eq!(mmu.read8(0x7FFF), 0xFF);
}

#[test]
fn lcd_disable_resets_ly() {
    let mut gb = GameBoy::new(plain_rom());
    gb.mmu.write8(0xFF40, 0x80);
    gb.ppu.scanline = 10;
    gb.mmu.write_ly(10);
    gb.mmu.write8(0xFF40, 0x00);
    gb.ppu.step(4, &mut gb.mmu);
    assert_eq!(gb.ppu.scanline, 0);
    assert_eq!(gb.mmu.read8(0xFF44), 0);
    assert!(matches!(gb.ppu.mode, PpuMode::OamScan));
}

#[test]
fn ppu_mode_progression() {
    let mut gb = GameBoy::new(plain_rom());
    gb.mmu.write8(0xFF40, 0x80);
    // 80 dots of OAM scan.
    for _ in 0..4 {
        gb.ppu.step(20, &mut gb.mmu);
    }
    assert!(matches!(gb.ppu.mode, PpuMode::Drawing));
    // 172 dots of drawing.
    for _ in 0..9 {
        gb.ppu.step(20, &mut gb.mmu);
    }
    assert!(matches!(gb.ppu.mode, PpuMode::HBlank));
}

#[test]
fn frame_ready_after_full_frame() {
    let mut gb = GameBoy::new(plain_rom());
    gb.mmu.write8(0xFF40, 0x80);
    let mut ready = false;
    // 70224 dots per frame, stepped 12 at a time.
    for _ in 0..6000 {
        gb.ppu.step(12, &mut gb.mmu);
        if gb.ppu.frame_ready {
            ready = true;
            break;
        }
    }
    assert!(ready);
    assert_eq!(gb.mmu.read8(0xFF44), 144);
    // VBlank was requested.
    assert_eq!(gb.mmu.read8(0xFF0F) & 0x01, 0x01);
}

#[test]
fn lyc_match_sets_stat_bit() {
    let mut gb = GameBoy::new(plain_rom());
    gb.mmu.write8(0xFF40, 0x80);
    gb.mmu.write8(0xFF45, 0x01);
    gb.mmu.write8(0xFF0F, 0x00);
    // Run one full scanline (456 dots) so LY advances to 1.
    for _ in 0..38 {
        gb.ppu.step(12, &mut gb.mmu);
    }
    assert_eq!(gb.mmu.read8(0xFF44), 1);
    assert_eq!(gb.mmu.read8(0xFF41) & 0x04, 0x04);
}

#[test]
fn sprite_limit_ten_per_scanline() {
    let mut gb = GameBoy::new(plain_rom());
    // LCD on, sprites on, background off.
    gb.mmu.write8(0xFF40, 0x83 & !0x01);
    gb.mmu.write8(0xFF47, 0x00);
    gb.mmu.write8(0xFF48, 0xFF);
    // Tile 0, row 0: both bitplanes solid, color index 3.
    gb.mmu.write8(0x8000, 0xFF);
    gb.mmu.write8(0x8001, 0xFF);
    // Twelve sprites on line 0 at distinct columns.
    for i in 0..12u16 {
        gb.mmu.write8(0xFE00 + i * 4, 16);
        gb.mmu.write8(0xFE00 + i * 4 + 1, 8 + (8 * i) as u8);
        gb.mmu.write8(0xFE00 + i * 4 + 2, 0);
        gb.mmu.write8(0xFE00 + i * 4 + 3, 0);
    }
    // Advance through OAM scan and drawing of line 0.
    for _ in 0..13 {
        gb.ppu.step(20, &mut gb.mmu);
    }
    let sprite_color = 0xFF081820u32;
    let bg_color = 0xFFE0F8D0u32;
    // Sprites 0..=9 rendered, 10 and 11 dropped.
    assert_eq!(gb.ppu.framebuffer.get_pixel(0, 0), sprite_color);
    assert_eq!(gb.ppu.framebuffer.get_pixel(8 * 9, 0), sprite_color);
    assert_eq!(gb.ppu.framebuffer.get_pixel(8 * 10, 0), bg_color);
    assert_eq!(gb.ppu.framebuffer.get_pixel(8 * 11, 0), bg_color);
}

#[test]
fn background_tile_rendering() {
    let mut gb = GameBoy::new(plain_rom());
    // LCD on, background on, unsigned tile data.
    gb.mmu.write8(0xFF40, 0x91);
    gb.mmu.write8(0xFF47, 0xE4);
    gb.mmu.write8(0xFF42, 0x00);
    gb.mmu.write8(0xFF43, 0x00);
    // Tile 1: row 0 solid color index 1 (low plane only).
    gb.mmu.write8(0x8010, 0xFF);
    gb.mmu.write8(0x8011, 0x00);
    // Map entry (0,0) selects tile 1.
    gb.mmu.write8(0x9800, 0x01);
    for _ in 0..13 {
        gb.ppu.step(20, &mut gb.mmu);
    }
    // Palette 0xE4 maps index 1 to color 1.
    assert_eq!(gb.ppu.framebuffer.get_pixel(0, 0), 0xFF88C070);
    assert_eq!(gb.ppu.framebuffer.get_pixel(7, 0), 0xFF88C070);
    // Map entry (1,0) holds tile 0 (all zero): palette color 0.
    assert_eq!(gb.ppu.framebuffer.get_pixel(8, 0), 0xFFE0F8D0);
}

#[test]
fn audio_sample_cadence() {
    let mut gb = GameBoy::new(plain_rom());
    gb.mmu.tick_apu(95);
    let (l, r) = gb.get_audio_samples();
    assert_eq!(l.len(), 1);
    assert_eq!(r.len(), 1);
    let (l2, r2) = gb.get_audio_samples();
    assert!(l2.is_empty() && r2.is_empty());
}

#[test]
fn square_channel_full_scale_sample() {
    let mut apu = Apu::new();
    apu.ch2.enabled = true;
    apu.ch2.dac_enabled = true;
    apu.ch2.duty = 3;
    apu.ch2.duty_step = 1;
    apu.ch2.volume = 15;
    apu.ch2.timer = 8192;
    apu.tick(95);
    assert_eq!(apu.sample_buffer_l.len(), 1);
    // One channel at full volume, master volume 7/7: 60 * 7 = full scale.
    assert_eq!(apu.sample_buffer_l[0], moboy::apu::SAMPLE_SCALE);
    assert_eq!(apu.sample_buffer_r[0], moboy::apu::SAMPLE_SCALE);
}

#[test]
fn apu_register_write_routes_to_channel() {
    let mut mmu = fresh_mmu(plain_rom());
    mmu.write8(0xFF17, 0xF3);
    assert!(mmu.apu.ch2.dac_enabled);
    assert_eq!(mmu.apu.ch2.volume, 15);
    assert_eq!(mmu.apu.ch2.envelope_period, 3);
    mmu.write8(0xFF19, 0x87);
    assert!(mmu.apu.ch2.enabled);
    assert_eq!(mmu.apu.ch2.frequency, 0x0700);
}

#[test]
fn length_counter_silences_channel() {
    let mut mmu = fresh_mmu(plain_rom());
    mmu.write8(0xFF17, 0xF0);
    mmu.write8(0xFF16, 0x3F);  // length load 63 -> counter 1
    mmu.write8(0xFF19, 0xC0);  // length enable + trigger... trigger reloads 0 only
    assert!(mmu.apu.ch2.enabled);
    assert_eq!(mmu.apu.ch2.length_counter, 1);
    mmu.apu.ch2.clock_length();
    assert!(!mmu.apu.ch2.enabled);
}

#[test]
fn nr52_reflects_channel_state() {
    let mut mmu = fresh_mmu(plain_rom());
    mmu.write8(0xFF17, 0xF0);
    mmu.write8(0xFF19, 0x80);
    assert_eq!(mmu.read8(0xFF26) & 0x02, 0x02);
    mmu.write8(0xFF26, 0x00);
    assert_eq!(mmu.read8(0xFF26), 0x00);
    assert!(!mmu.apu.ch2.enabled);
}

#[test]
fn noise_lfsr_first_step() {
    let mut apu = Apu::new();
    apu.ch4.write_nr42(0xF0);
    apu.ch4.trigger();
    assert_eq!(apu.ch4.lfsr, 0x7FFF);
    for _ in 0..8 {
        apu.ch4.tick();
    }
    // Bits 0 and 1 agree, so zero shifts into bit 14 (and the rest shift
    // right).
    assert_eq!(apu.ch4.lfsr, 0x3FFF);
}

#[test]
fn wave_ram_readback_and_sample() {
    let mut mmu = fresh_mmu(plain_rom());
    mmu.write8(0xFF30, 0xF0);
    assert_eq!(mmu.apu.ch3.read_wave_ram(0xFF30), 0xF0);
    mmu.apu.ch3.enabled = true;
    mmu.apu.ch3.volume_code = 1;
    mmu.apu.ch3.position = 0;
    // Nibble 15 at full volume: 8 * 15 - 60 = 60.
    assert_eq!(mmu.apu.ch3.sample(), 60);
    mmu.apu.ch3.position = 1;
    // Nibble 0: -60.
    assert_eq!(mmu.apu.ch3.sample(), -60);
}

#[test]
fn sweep_overflow_disables_channel() {
    let mut apu = Apu::new();
    apu.ch1.write_envelope(0xF0);
    apu.ch1.write_sweep(0x11);  // period 1, increase, shift 1
    apu.ch1.write_freq_low(0xFF);
    apu.ch1.write_freq_high(0x87);  // frequency 0x7FF, trigger
    // 0x7FF + (0x7FF >> 1) overflows 2047 at the immediate check.
    assert!(!apu.ch1.enabled);
}

#[test]
fn config_defaults() {
    let c = moboy::config::GameboyConfig::new();
    assert_eq!(c.window_size, 4);
    assert!(c.use_sound);
}

#[test]
fn framebuffer_flat_buffer() {
    let gb = GameBoy::new(plain_rom());
    let buf = gb.ppu.framebuffer.as_flat_buffer();
    assert_eq!(buf.len(), 160 * 144);
    assert!(buf.iter().all(|p| *p == 0xFFFFFFFF));
}
