use nes_core::bus::{Bus, NesBus};
use nes_core::cpu::DecodeError;
use nes_core::nes::Nes;
use nes_core::ppu_memory::Mirroring;

#[test]
fn ram_is_mirrored_every_two_kilobytes() {
    let mut bus = NesBus::new();
    bus.write(0x0000, 0x42);
    assert_eq!(bus.read(0x0000), 0x42);
    assert_eq!(bus.read(0x0800), 0x42);
    assert_eq!(bus.read(0x1000), 0x42);
    assert_eq!(bus.read(0x1800), 0x42);
    bus.write(0x1FFF, 0x17);
    assert_eq!(bus.read(0x07FF), 0x17);
}

#[test]
fn ppu_registers_are_mirrored_every_eight_bytes() {
    let mut bus = NesBus::new();
    bus.write(0x2002, 0x99);
    assert_eq!(bus.read(0x2002), 0x99);
    assert_eq!(bus.read(0x200A), 0x99);
    assert_eq!(bus.read(0x3FFA), 0x99);
}

#[test]
fn apu_stub_reads_zero_and_cartridge_writes_are_ignored() {
    let mut bus = NesBus::new();
    assert_eq!(bus.read(0x4000), 0);
    assert_eq!(bus.read(0x4017), 0);
    bus.write(0x8000, 0x55);
    assert_eq!(bus.read(0x8000), 0); // ROM did not change
}

#[test]
fn program_rom_is_visible_behind_the_cartridge_window() {
    let mut bus = NesBus::new();
    bus.set_prg_byte(0x0000, 0xA9);
    assert_eq!(bus.read(0x4020), 0xA9);
    // the 32 KiB ROM repeats through the window
    assert_eq!(bus.read(0x4020 + 0x8000), 0xA9);
}

#[test]
fn handle_ppu_counts_three_dots_per_cycle() {
    let mut bus = NesBus::new();
    bus.handle_ppu(100);
    assert_eq!(bus.frame_counter, 300);
    bus.handle_apu(100);
    assert_eq!(bus.frame_counter, 300);
}

fn console_with_program(program: &[u8]) -> Nes {
    let mut nes = Nes::new(Mirroring::Horizontal);
    // reset vector 0x8000, which sits at ROM offset 0x3FE0
    nes.cpu.bus.set_prg_byte(0xFFFC - 0x4020 - 0x8000, 0x00);
    nes.cpu.bus.set_prg_byte(0xFFFD - 0x4020 - 0x8000, 0x80);
    for (i, b) in program.iter().enumerate() {
        nes.cpu.bus.set_prg_byte(0x8000 - 0x4020 + i as u16, *b);
    }
    nes.cpu.reset();
    nes
}

#[test]
fn console_step_keeps_the_cycle_ratio() {
    let mut nes = console_with_program(&[0xA9, 0x42]); // LDA #$42
    assert_eq!(nes.cpu.pc, 0x8000);
    assert_eq!(nes.step(), Ok(()));
    assert_eq!(nes.cpu.a, 0x42);
    assert_eq!(nes.cycles, 2);
    assert_eq!(nes.ppu.cycle, 6); // three PPU dots per CPU cycle
}

#[test]
fn console_step_reports_decode_failure() {
    let mut nes = console_with_program(&[0xFF]);
    assert_eq!(
        nes.step(),
        Err(DecodeError { opcode: 0xFF, pc: 0x8000 })
    );
    assert_eq!(nes.cycles, 0);
    assert_eq!(nes.ppu.cycle, 0); // the PPU did not run
}

#[test]
fn console_forwards_nmi_to_cpu() {
    let mut nes = console_with_program(&[0x1A]); // NOP
    nes.ppu.nmi_occurred = true;
    assert_eq!(nes.step(), Ok(()));
    assert!(nes.cpu.nmi_pending);
    assert!(!nes.ppu.nmi_occurred);
}

#[test]
fn console_store_lands_in_mirrored_ram() {
    // LDA #$7F; STA $0005
    let mut nes = console_with_program(&[0xA9, 0x7F, 0x8D, 0x05, 0x00]);
    assert_eq!(nes.step(), Ok(()));
    assert_eq!(nes.step(), Ok(()));
    assert_eq!(nes.cpu.bus.read(0x0005), 0x7F);
    assert_eq!(nes.cpu.bus.read(0x0805), 0x7F);
    assert_eq!(nes.cycles, 6);
}
