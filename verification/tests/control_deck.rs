use nes_core::action::{apply_frame_action, Action, NesState, Setting};
use nes_core::common::{NesRegion, RamState, Regional, Reset, ResetKind};
use nes_core::mapper::{MapperRevision, Mmc3Revision};
use nes_core::control_deck::{Config, ControlDeck};
use nes_core::errors::RomError;
use nes_core::input::{JoypadBtn, Player};
use nes_core::video::VideoFilter;

/// A minimal cartridge image: one 16 KiB program bank, pattern RAM, and a
/// reset vector pointing at the start of program space (`0x8000`).
fn build_rom(program: &[u8]) -> Vec<u8> {
    let mut rom = vec![0x4E, 0x45, 0x53, 0x1A, 1, 0, 0, 0, 0, 0, 0, 0, 0, 0, 0, 0];
    let mut prg = vec![0xEAu8; 0x4000];
    prg[..program.len()].copy_from_slice(program);
    // reset vector: 0x8000, little-endian, at the top of the bank
    prg[0x3FFC] = 0x00;
    prg[0x3FFD] = 0x80;
    rom.extend_from_slice(&prg);
    rom
}

fn deck_with(program: &[u8]) -> ControlDeck {
    let mut deck = ControlDeck::new();
    deck.load_rom(String::from("test"), build_rom(program))
        .expect("valid rom");
    deck
}

#[test]
fn load_rom_success_starts_the_deck() {
    let mut deck = ControlDeck::new();
    assert!(deck.loaded_rom().is_none());
    assert!(!deck.is_running());
    deck.load_rom(String::from("demo"), build_rom(&[]))
        .expect("valid rom");
    assert_eq!(deck.loaded_rom().as_deref(), Some("demo"));
    assert!(deck.is_running());
    assert!(!deck.cpu_corrupted());
    assert_eq!(deck.frame_number(), 0);
}

#[test]
fn invalid_rom_is_rejected_and_leaves_the_deck_untouched() {
    let mut deck = ControlDeck::new();
    // zero-length image
    assert_eq!(
        deck.load_rom(String::from("empty"), Vec::new()),
        Err(RomError::TooShort)
    );
    assert!(deck.loaded_rom().is_none());
    assert!(!deck.is_running());
    // bad signature
    let mut bad = build_rom(&[]);
    bad[0] = 0x00;
    assert_eq!(
        deck.load_rom(String::from("bad"), bad),
        Err(RomError::BadMagic)
    );
    assert!(deck.loaded_rom().is_none());
    // header announcing no program banks
    let mut no_prg = build_rom(&[]);
    no_prg[4] = 0;
    assert_eq!(
        deck.load_rom(String::from("noprg"), no_prg),
        Err(RomError::NoPrgBanks)
    );
    // truncated bank data
    let short = build_rom(&[])[..100].to_vec();
    assert_eq!(
        deck.load_rom(String::from("short"), short),
        Err(RomError::MissingData)
    );
    // an unsupported board
    let mut mapper4 = build_rom(&[]);
    mapper4[6] = 0x40;
    assert_eq!(
        deck.load_rom(String::from("m4"), mapper4),
        Err(RomError::UnsupportedMapper)
    );
    assert!(deck.loaded_rom().is_none());
}

#[test]
fn failed_load_preserves_a_previously_loaded_cartridge() {
    let mut deck = deck_with(&[]);
    assert!(deck.is_running());
    let frame_before = deck.frame_number();
    assert_eq!(
        deck.load_rom(String::from("bad"), vec![0u8; 4]),
        Err(RomError::TooShort)
    );
    // the earlier cartridge is still loaded and the deck still runs
    assert_eq!(deck.loaded_rom().as_deref(), Some("test"));
    assert!(deck.is_running());
    assert_eq!(deck.frame_number(), frame_before);
}

#[test]
fn unload_rom_is_idempotent() {
    let mut deck = deck_with(&[]);
    deck.unload_rom();
    assert!(deck.loaded_rom().is_none());
    assert!(!deck.is_running());
    deck.unload_rom();
    assert!(deck.loaded_rom().is_none());
}

#[test]
fn illegal_opcode_corrupts_until_reset() {
    // NOP, then an unassigned opcode
    let mut deck = deck_with(&[0xEA, 0x02]);
    assert_eq!(deck.clock_instr(), Ok(2));
    assert!(deck.clock_instr().is_err());
    assert!(deck.cpu_corrupted());
    // every further step keeps failing
    assert!(deck.clock_instr().is_err());
    assert!(deck.clock_frame().is_err());
    assert!(deck.clock_scanline().is_err());
    assert!(deck.clock_micros(100).is_err());
    // even a zero-length duration is refused while corrupted
    assert!(deck.clock_micros(0).is_err());
    // a reset clears the condition and stepping resumes
    deck.reset(ResetKind::Hard);
    assert!(!deck.cpu_corrupted());
    assert_eq!(deck.clock_instr(), Ok(2));
}

#[test]
fn clock_frame_advances_the_frame_counter_by_one() {
    // a tight jump loop runs forever without corrupting
    let mut deck = deck_with(&[0x4C, 0x00, 0x80]);
    for expected in 1u32..=3 {
        let cycles = deck.clock_frame().expect("clean frame");
        assert!(cycles > 0);
        assert_eq!(deck.frame_number(), expected);
    }
}

#[test]
fn clock_scanline_moves_to_another_scanline() {
    let mut deck = deck_with(&[0x4C, 0x00, 0x80]);
    let cycles = deck.clock_scanline().expect("clean scanline");
    assert!(cycles > 0);
}

#[test]
fn clock_micros_phase_accuracy() {
    // summing many short calls runs the same cycles as one long call,
    // up to one instruction of rounding
    let mut short_deck = deck_with(&[0x4C, 0x00, 0x80]);
    let mut long_deck = deck_with(&[0x4C, 0x00, 0x80]);
    let mut split_total: i64 = 0;
    for _ in 0..40 {
        split_total += short_deck.clock_micros(250).expect("clean step") as i64;
    }
    let single_total = long_deck.clock_micros(10_000).expect("clean step") as i64;
    assert!((split_total - single_total).abs() < 4);
    // roughly 10 ms of NTSC time: about 17898 cycles
    assert!((single_total - 17_898).abs() < 8);
}

#[test]
fn region_follows_the_cartridge_header_and_setters() {
    let mut deck = deck_with(&[]);
    assert_eq!(deck.region(), NesRegion::Ntsc);
    assert_eq!(deck.clock_rate_hz(), 1_789_773);
    let mut pal = build_rom(&[]);
    pal[9] = 0x01;
    deck.load_rom(String::from("pal"), pal).expect("valid rom");
    assert_eq!(deck.region(), NesRegion::Pal);
    assert_eq!(deck.clock_rate_hz(), 1_662_607);
    deck.set_region(NesRegion::Dendy);
    assert_eq!(deck.region(), NesRegion::Dendy);
    assert_eq!(deck.clock_rate_hz(), 1_773_448);
    // region changes reach the cartridge board and are idempotent
    assert_eq!(deck.mapper().region(), NesRegion::Dendy);
    let frame = deck.frame_number();
    deck.set_region(NesRegion::Dendy);
    assert_eq!(deck.region(), NesRegion::Dendy);
    assert_eq!(deck.mapper().region(), NesRegion::Dendy);
    assert_eq!(deck.frame_number(), frame);
}

#[test]
fn genie_codes_patch_cartridge_reads() {
    let mut deck = deck_with(&[]);
    // the classic code patches 0x91D9 (program offset 0x11D9) with 0xAD
    deck.cpu.bus.prg_rom[0x11D9] = 0x55;
    assert_eq!(deck.cpu.bus.peek(0x91D9), 0x55);
    deck.add_genie_code(String::from("SXIOPO")).expect("valid code");
    assert_eq!(deck.cpu.bus.peek(0x91D9), 0xAD);
    let code = String::from("SXIOPO");
    deck.remove_genie_code(&code);
    assert_eq!(deck.cpu.bus.peek(0x91D9), 0x55);
}

#[test]
fn genie_code_with_compare_passes_mismatches_through() {
    let mut deck = deck_with(&[]);
    // SLXPLOVS targets 0x9123 (offset 0x1123), replacing 0xDE with 0xBD
    deck.add_genie_code(String::from("SLXPLOVS")).expect("valid code");
    deck.cpu.bus.prg_rom[0x1123] = 0xDE;
    assert_eq!(deck.cpu.bus.peek(0x9123), 0xBD);
    deck.cpu.bus.prg_rom[0x1123] = 0x99;
    assert_eq!(deck.cpu.bus.peek(0x9123), 0x99);
}

#[test]
fn invalid_genie_code_is_rejected_and_playback_continues() {
    let mut deck = deck_with(&[0x4C, 0x00, 0x80]);
    assert!(deck.add_genie_code(String::from("QQQQQQ")).is_err());
    assert!(deck.add_genie_code(String::from("TOO")).is_err());
    assert!(deck.clock_frame().is_ok());
}

#[test]
fn work_ram_honours_the_power_on_policy() {
    let mut config = Config::default();
    config.ram_state = RamState::AllOnes;
    let mut deck = ControlDeck::with_config(config);
    deck.load_rom(String::from("ones"), build_rom(&[]))
        .expect("valid rom");
    assert!(deck.wram().iter().all(|&b| b == 0xFF));

    let mut config = Config::default();
    config.ram_state = RamState::Random;
    let mut deck = ControlDeck::with_config(config);
    deck.load_rom(String::from("random"), build_rom(&[]))
        .expect("valid rom");
    let wram = deck.wram();
    for (i, &b) in wram.iter().enumerate() {
        assert_eq!(b, ((i * 197 + 91) % 256) as u8);
    }
}

#[test]
fn sram_round_trips_through_load() {
    let mut deck = deck_with(&[]);
    assert_eq!(deck.sram().len(), 0x2000);
    let image = vec![0x5Au8; 0x2000];
    deck.load_sram(image.clone());
    assert_eq!(deck.sram(), &image);
    // a wrong-size image is ignored
    deck.load_sram(vec![1, 2, 3]);
    assert_eq!(deck.sram(), &image);
}

#[test]
fn instructions_write_work_ram_through_the_bus() {
    // LDA #$42; STA $0007; then loop
    let mut deck = deck_with(&[0xA9, 0x42, 0x8D, 0x07, 0x00, 0x4C, 0x05, 0x80]);
    assert_eq!(deck.clock_instr(), Ok(2));
    assert_eq!(deck.clock_instr(), Ok(4));
    assert_eq!(deck.wram()[0x0007], 0x42);
    // the mirror at 0x0807 reads the same cell
    assert_eq!(deck.cpu.bus.peek(0x0807), 0x42);
}

#[test]
fn joypad_buttons_latch_and_shift() {
    let mut deck = deck_with(&[]);
    deck.set_joypad_button(Player::One, JoypadBtn::A, true);
    deck.set_joypad_button(Player::One, JoypadBtn::Start, true);
    assert!(deck.joypad(Player::One).a);
    // strobe on, then off; reads report A, B, Select, Start, ...
    deck.cpu.bus.write(0x4016, 1);
    deck.cpu.bus.write(0x4016, 0);
    assert_eq!(deck.cpu.bus.read(0x4016), 1); // A
    assert_eq!(deck.cpu.bus.read(0x4016), 0); // B
    assert_eq!(deck.cpu.bus.read(0x4016), 0); // Select
    assert_eq!(deck.cpu.bus.read(0x4016), 1); // Start
    for _ in 0..4 {
        deck.cpu.bus.read(0x4016);
    }
    // past the eighth bit the port reports all-ones
    assert_eq!(deck.cpu.bus.read(0x4016), 1);
    deck.reset_joypad(Player::One);
    assert!(!deck.joypad(Player::One).a);
}

#[test]
fn zapper_surface() {
    let mut deck = deck_with(&[]);
    deck.connect_zapper(true);
    deck.aim_zapper(128, 96);
    assert_eq!(deck.zapper_pos(), (128, 96));
    deck.trigger_zapper();
    assert!(deck.cpu.bus.zapper.triggered);
}

#[test]
fn frame_buffer_is_rgba_sized_and_opaque() {
    let mut deck = deck_with(&[]);
    deck.set_filter(VideoFilter::Pixellate);
    let frame = deck.frame_buffer();
    assert_eq!(frame.len(), 256 * 240 * 4);
    assert!(frame.chunks(4).all(|px| px[3] == 255));
}

#[test]
fn nametable_round_trip_through_the_data_port() {
    let mut deck = deck_with(&[]);
    // point the address latch at 0x2005 and store a byte
    deck.cpu.bus.write(0x2006, 0x20);
    deck.cpu.bus.write(0x2006, 0x05);
    deck.cpu.bus.write(0x2007, 0x42);
    // the horizontally mirrored address 0x2405 reads it back; the first
    // data-port read returns the stale buffer, the second the byte
    deck.cpu.bus.write(0x2006, 0x24);
    deck.cpu.bus.write(0x2006, 0x05);
    let _stale = deck.cpu.bus.read(0x2007);
    assert_eq!(deck.cpu.bus.read(0x2007), 0x42);
}

#[test]
fn scripted_actions_drive_the_deck() {
    let mut deck = deck_with(&[0x4C, 0x00, 0x80]);
    deck.clock_frame().expect("clean frame");
    assert_eq!(deck.frame_number(), 1);

    // a soft reset keeps the frame counter, a hard reset rewinds it
    apply_frame_action(&mut deck, Player::One, Action::from_state(NesState::SoftReset));
    assert_eq!(deck.frame_number(), 1);
    assert!(deck.is_running());
    apply_frame_action(&mut deck, Player::One, Action::from_state(NesState::HardReset));
    assert_eq!(deck.frame_number(), 0);

    // setting changes propagate immediately
    apply_frame_action(
        &mut deck,
        Player::One,
        Action::from_setting(Setting::SetVideoFilter(VideoFilter::Ntsc)),
    );
    assert_eq!(deck.video.filter, VideoFilter::Ntsc);
    apply_frame_action(
        &mut deck,
        Player::One,
        Action::from_setting(Setting::SetNesFormat(NesRegion::Pal)),
    );
    assert_eq!(deck.region(), NesRegion::Pal);

    // button actions press the button for the chosen slot
    apply_frame_action(&mut deck, Player::Two, Action::from_button(JoypadBtn::A));
    assert!(deck.joypad(Player::Two).a);
    assert!(!deck.joypad(Player::One).a);

    // a revision override leaves the single-revision boards untouched
    let before = deck.frame_number();
    apply_frame_action(
        &mut deck,
        Player::One,
        Action::from_state(NesState::MapperRevision(MapperRevision::Mmc3(Mmc3Revision::BC))),
    );
    assert_eq!(deck.frame_number(), before);
}
