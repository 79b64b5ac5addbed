use nes_core::ppu::Ppu;
use nes_core::ppu_memory::{Mirroring, PpuMemory};
use nes_core::ppu_registers::{
    PpuRegisters, CTRL_NMI_ENABLE, CTRL_SPRITE_SIZE, MASK_SHOW_BACKGROUND, MASK_SHOW_SPRITES,
    STATUS_SPRITE_OVERFLOW, STATUS_VBLANK,
};
use nes_core::renderer::PpuRenderer;

fn new_ppu() -> Ppu {
    Ppu::new(Mirroring::Horizontal)
}

#[test]
fn coarse_x_wraps_and_toggles_nametable() {
    let mut ppu = new_ppu();
    ppu.vram_addr = 0x041F;
    ppu.increment_x();
    assert_eq!(ppu.vram_addr, 0x0000); // coarse X 0, nametable-X bit flipped

    ppu.vram_addr = 0x001F;
    ppu.increment_x();
    assert_eq!(ppu.vram_addr, 0x0400); // flips the other way

    ppu.vram_addr = 0x0001;
    ppu.increment_x();
    assert_eq!(ppu.vram_addr, 0x0002); // plain increment
}

#[test]
fn fine_y_carries_into_coarse_y() {
    let mut ppu = new_ppu();
    ppu.vram_addr = 0x0000;
    ppu.increment_y();
    assert_eq!(ppu.vram_addr, 0x1000); // fine Y 0 -> 1

    ppu.vram_addr = 0x7000; // fine Y 7, coarse Y 0
    ppu.increment_y();
    assert_eq!(ppu.vram_addr, 0x0020); // coarse Y 1

    ppu.vram_addr = 0x7000 | (29 << 5); // coarse Y 29
    ppu.increment_y();
    assert_eq!(ppu.vram_addr, 0x0800); // wraps, vertical nametable toggled

    ppu.vram_addr = 0x7000 | (31 << 5); // out-of-bounds coarse Y
    ppu.increment_y();
    assert_eq!(ppu.vram_addr, 0x0000); // wraps without a toggle
}

#[test]
fn scroll_transfers_copy_selected_bits() {
    let mut ppu = new_ppu();
    ppu.vram_addr = 0x7FFF;
    ppu.tram_addr = 0x0000;
    ppu.transfer_x();
    assert_eq!(ppu.vram_addr, 0x7FFF & !0x041F);

    let mut ppu = new_ppu();
    ppu.vram_addr = 0x0000;
    ppu.tram_addr = 0x7FFF;
    ppu.transfer_y();
    assert_eq!(ppu.vram_addr, 0x7BE0);
}

#[test]
fn counters_advance_and_wrap() {
    let mut ppu = new_ppu();
    ppu.scanline = 260;
    ppu.cycle = 340;
    let done = ppu.step();
    assert!(done);
    assert_eq!(ppu.cycle, 0);
    assert_eq!(ppu.scanline, -1);
    assert_eq!(ppu.frame, 1);

    let done = ppu.step();
    assert!(!done);
    assert_eq!(ppu.cycle, 1);
    assert_eq!(ppu.scanline, -1);
}

#[test]
fn pre_render_clears_status_bits() {
    let mut ppu = new_ppu();
    ppu.scanline = -1;
    ppu.cycle = 0;
    ppu.registers.status = 0xE5;
    ppu.step(); // lands on cycle 1
    assert_eq!(ppu.registers.status, 0x05);
}

#[test]
fn vblank_sets_status_and_raises_nmi_when_enabled() {
    let mut ppu = new_ppu();
    ppu.scanline = 241;
    ppu.cycle = 0;
    ppu.registers.control.insert(CTRL_NMI_ENABLE);
    ppu.step(); // cycle 1 of scanline 241
    assert_ne!(ppu.registers.status & STATUS_VBLANK, 0);
    assert!(ppu.nmi_occurred);

    let mut ppu = new_ppu();
    ppu.scanline = 241;
    ppu.cycle = 0;
    ppu.step();
    assert_ne!(ppu.registers.status & STATUS_VBLANK, 0);
    assert!(!ppu.nmi_occurred); // NMI disabled
}

#[test]
fn nine_sprites_overflow_eight_do_not() {
    let mut renderer = PpuRenderer::new();
    let mut regs = PpuRegisters::default();
    let mut mem = PpuMemory::new(Mirroring::Horizontal);
    // nine sprites with Y=5: in range for scanline 10 at height 8
    for i in 0..9 {
        mem.oam[i * 4] = 5;
        mem.oam[i * 4 + 1] = i as u8; // tile = OAM index
    }
    for i in 9..64 {
        mem.oam[i * 4] = 0xF0; // out of range
    }
    renderer.evaluate_sprites(&mut regs, &mem, 10);
    assert_eq!(renderer.scanline_sprites.len(), 8);
    for (k, s) in renderer.scanline_sprites.iter().enumerate() {
        assert_eq!(s.tile, k as u8); // ascending OAM order
        assert_eq!(s.y, 5);
    }
    assert_ne!(regs.status & STATUS_SPRITE_OVERFLOW, 0);
    assert!(renderer.sprite_overflow);

    // with only eight in range there is no overflow
    let mut renderer = PpuRenderer::new();
    let mut regs = PpuRegisters::default();
    mem.oam[8 * 4] = 0xF0;
    renderer.evaluate_sprites(&mut regs, &mem, 10);
    assert_eq!(renderer.scanline_sprites.len(), 8);
    assert_eq!(regs.status & STATUS_SPRITE_OVERFLOW, 0);
    assert!(!renderer.sprite_overflow);
}

#[test]
fn tall_sprites_use_height_sixteen() {
    let mut renderer = PpuRenderer::new();
    let mut regs = PpuRegisters::default();
    regs.control.insert(CTRL_SPRITE_SIZE);
    let mut mem = PpuMemory::new(Mirroring::Horizontal);
    mem.oam[0] = 5; // rows 6..22 at height 16
    for i in 1..64 {
        mem.oam[i * 4] = 0xF0;
    }
    renderer.evaluate_sprites(&mut regs, &mem, 20);
    assert_eq!(renderer.scanline_sprites.len(), 1);

    let mut renderer = PpuRenderer::new();
    let mut regs = PpuRegisters::default();
    renderer.evaluate_sprites(&mut regs, &mem, 20); // height 8: out of range
    assert_eq!(renderer.scanline_sprites.len(), 0);
}

#[test]
fn buffer_swap_exchanges_whole_frames() {
    let mut renderer = PpuRenderer::new();
    renderer.back_buffer[0] = 0xAA;
    renderer.back_buffer[61439] = 0xBB;
    renderer.front_buffer[5] = 0x11;
    renderer.swap_buffers();
    assert_eq!(renderer.front_buffer[0], 0xAA);
    assert_eq!(renderer.front_buffer[61439], 0xBB);
    assert_eq!(renderer.back_buffer[5], 0x11);
}

#[test]
fn frame_swap_happens_at_post_render_boundary() {
    let mut ppu = new_ppu();
    ppu.scanline = 239;
    ppu.cycle = 340;
    ppu.renderer.back_buffer[7] = 0x42;
    ppu.step(); // wraps into scanline 240, cycle 0: the swap point
    assert_eq!(ppu.scanline, 240);
    assert_eq!(ppu.cycle, 0);
    assert_eq!(ppu.renderer.front_buffer[7], 0x42);
    // the new front buffer stays unchanged while the next dots run
    ppu.step();
    ppu.step();
    assert_eq!(ppu.renderer.front_buffer[7], 0x42);
}

#[test]
fn background_line_renders_palette_color() {
    let mut ppu = new_ppu();
    ppu.registers.mask.insert(MASK_SHOW_BACKGROUND);
    ppu.memory.palette[0] = 0x21; // universal background color
    ppu.scanline = 10;
    ppu.cycle = 339;
    ppu.step(); // cycle 340: the line is rendered into the back buffer
    for x in 0..256 {
        assert_eq!(ppu.renderer.back_buffer[10 * 256 + x], 0x21);
    }
    assert_eq!(ppu.renderer.back_buffer[9 * 256], 0); // other lines untouched
}

#[test]
fn render_scanline_respects_mask_bits() {
    let mut renderer = PpuRenderer::new();
    let mut regs = PpuRegisters::default();
    let mut mem = PpuMemory::new(Mirroring::Horizontal);
    mem.palette[0] = 0x17;
    for i in 0..64 {
        mem.oam[i * 4] = 5;
    }
    // nothing shown: neither pixels nor sprites move
    renderer.render_scanline(&mut regs, &mem, 0, 10);
    assert_eq!(renderer.back_buffer[10 * 256], 0);
    assert_eq!(renderer.scanline_sprites.len(), 0);
    assert_eq!(regs.status, 0);

    regs.mask.insert(MASK_SHOW_BACKGROUND);
    regs.mask.insert(MASK_SHOW_SPRITES);
    renderer.render_scanline(&mut regs, &mem, 0, 10);
    assert_eq!(renderer.back_buffer[10 * 256], 0x17);
    assert_eq!(renderer.scanline_sprites.len(), 8);
    assert_ne!(regs.status & STATUS_SPRITE_OVERFLOW, 0);
}

#[test]
fn palette_background_aliases() {
    let mut mem = PpuMemory::new(Mirroring::Horizontal);
    mem.palette[0x00] = 7;
    mem.palette[0x04] = 8;
    assert_eq!(mem.read_vram(0x3F10), 7); // 0x10 aliases 0x00
    assert_eq!(mem.read_vram(0x3F14), 8); // 0x14 aliases 0x04
    assert_eq!(mem.read_vram(0x3F30), 7); // and the 32-byte mirror above
    mem.palette[0x15] = 9;
    assert_eq!(mem.read_vram(0x3F15), 9); // non-alias slots read directly
}

#[test]
fn nametable_mirroring_modes() {
    let mut mem = PpuMemory::new(Mirroring::Horizontal);
    mem.vram[0x0005] = 0x5A;
    assert_eq!(mem.read_vram(0x2005), 0x5A);
    // horizontal: the three upper logical tables fold onto the second
    // physical kilobyte
    mem.vram[0x0405] = 0x6B;
    assert_eq!(mem.read_vram(0x2405), 0x6B);
    assert_eq!(mem.read_vram(0x2805), 0x6B);
    assert_eq!(mem.read_vram(0x2C05), 0x6B);

    let mut mem = PpuMemory::new(Mirroring::Vertical);
    mem.vram[0x0005] = 0x11;
    assert_eq!(mem.read_vram(0x2005), 0x11);
    assert_eq!(mem.read_vram(0x2805), 0x11); // vertical: 0x2800 aliases 0x2000
}

#[test]
fn every_ppu_address_reads_something() {
    let mem = PpuMemory::new(Mirroring::FourScreen);
    assert_eq!(mem.read_vram(0x0000), 0);
    assert_eq!(mem.read_vram(0x1FFF), 0);
    assert_eq!(mem.read_vram(0x3EFF), 0);
    assert_eq!(mem.read_vram(0x3FFF), 0);
    assert_eq!(mem.read_vram(0xFFFF), 0);
}
