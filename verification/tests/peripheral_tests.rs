use gbcore::cartridge::Cartridge;
use gbcore::emu::Emu;
use gbcore::interrupt::{Interrupt, InterruptKind};
use gbcore::io::IO;
use gbcore::ppu::{PPUMode, DMA, LCD, PPU};
use gbcore::ram::RAM;
use gbcore::timer::Timer;
use gbcore::utils::RingBuffer;

#[test]
fn timer_div_write_reads_zero() {
    let mut t = Timer::create();
    assert_eq!(t.read(0xFF04), 0xAB);
    t.write(0xFF04, 0x7E);
    assert_eq!(t.read(0xFF04), 0x00);
    t.write(0xFF04, 0xFF);
    assert_eq!(t.read(0xFF04), 0x00);
}

#[test]
fn timer_divider_16_counts_four_in_64_ticks() {
    // TAC 0b101 selects the divide-by-16 edge: 64 T-cycles move TIMA by 4.
    let mut t = Timer::create();
    t.write(0xFF04, 0x00);
    t.write(0xFF07, 0x05);
    t.write(0xFF05, 0x00);
    for _ in 0..64 {
        t.tick();
    }
    assert_eq!(t.tima, 4);
}

#[test]
fn timer_overflow_reloads_from_tma() {
    let mut t = Timer::create();
    t.write(0xFF04, 0x00);
    t.write(0xFF07, 0x05);
    t.write(0xFF06, 0x23);
    t.write(0xFF05, 0xFF);
    let mut fired = false;
    for _ in 0..16 {
        if t.tick() {
            fired = true;
        }
    }
    assert!(fired);
    assert_eq!(t.tima, 0x23);
}

#[test]
fn timer_registers_write_through() {
    let mut t = Timer::create();
    t.write(0xFF05, 0x12);
    t.write(0xFF06, 0x34);
    t.write(0xFF07, 0x07);
    assert_eq!(t.read(0xFF05), 0x12);
    assert_eq!(t.read(0xFF06), 0x34);
    assert_eq!(t.read(0xFF07), 0x07);
}

#[test]
fn interrupt_selection_order() {
    let mut int = Interrupt::create();
    int.enable = 0x1F;
    int.flag = 0x1F;
    int.master_enabled = true;
    assert_eq!(int.handle_interrupts(), Some(0x40));
    assert_eq!(int.flag, 0x1E);
    assert!(!int.master_enabled);
    assert_eq!(int.handle_interrupts(), Some(0x48));
    assert_eq!(int.handle_interrupts(), Some(0x50));
    assert_eq!(int.handle_interrupts(), Some(0x58));
    assert_eq!(int.handle_interrupts(), Some(0x60));
    assert_eq!(int.flag, 0x00);
    assert_eq!(int.handle_interrupts(), None);
}

#[test]
fn interrupt_requests_set_bits() {
    let mut int = Interrupt::create();
    int.request_interrupt(InterruptKind::Timer);
    assert_eq!(int.flag, 0x04);
    int.request_interrupt(InterruptKind::VBlank);
    assert_eq!(int.flag, 0x05);
    int.request_interrupt(InterruptKind::JoyPad);
    assert_eq!(int.flag, 0x15);
}

#[test]
fn interrupt_masked_by_enable() {
    let mut int = Interrupt::create();
    int.enable = 0x02;
    int.flag = 0x1D;
    assert_eq!(int.handle_interrupts(), None);
    assert_eq!(int.flag, 0x1D);
}

#[test]
fn io_serial_registers() {
    let mut io = IO::create();
    assert_eq!(io.read(0xFF01), 0);
    assert_eq!(io.read(0xFF02), 0);
    io.write(0xFF01, 0x41);
    io.write(0xFF02, 0x81);
    assert_eq!(io.read(0xFF01), 0x41);
    assert_eq!(io.read(0xFF02), 0x81);
    io.write(0xFF10, 0x99);
    assert_eq!(io.read(0xFF10), 0);
}

#[test]
fn ram_read_write() {
    let mut ram = RAM::create(0x2000);
    assert_eq!(ram.read(0x123), 0);
    ram.write(0x123, 0x77);
    assert_eq!(ram.read(0x123), 0x77);
}

#[test]
fn ppu_mode_progression() {
    let mut ppu = PPU::create();
    assert!(matches!(ppu.lcd.get_ppu_mode(), PPUMode::OAMScan));
    for _ in 0..80 {
        ppu.tick();
    }
    assert!(matches!(ppu.lcd.get_ppu_mode(), PPUMode::Drawing));
    for _ in 0..172 {
        ppu.tick();
    }
    assert!(matches!(ppu.lcd.get_ppu_mode(), PPUMode::HBlank));
    for _ in 0..204 {
        ppu.tick();
    }
    assert!(matches!(ppu.lcd.get_ppu_mode(), PPUMode::OAMScan));
    assert_eq!(ppu.lcd.ly, 1);
    assert_eq!(ppu.line_ticks, 0);
}

#[test]
fn ppu_vblank_after_line_144() {
    let mut ppu = PPU::create();
    let mut vblank_irq = false;
    for _ in 0..(456 * 144) {
        let irqs = ppu.tick();
        if irqs & 0x01 != 0 {
            vblank_irq = true;
        }
    }
    assert!(vblank_irq);
    assert!(matches!(ppu.lcd.get_ppu_mode(), PPUMode::VBlank));
    assert_eq!(ppu.lcd.ly, 144);
    assert_eq!(ppu.current_frame, 1);
    for _ in 0..(456 * 10) {
        ppu.tick();
    }
    assert!(matches!(ppu.lcd.get_ppu_mode(), PPUMode::OAMScan));
    assert_eq!(ppu.lcd.ly, 0);
}

#[test]
fn ppu_lyc_match_fires_stat() {
    let mut ppu = PPU::create();
    ppu.registers_write(0xFF45, 1); // LYC = 1
    ppu.registers_write(0xFF41, 0x40); // select the LY==LYC source
    let mut stat_irq = false;
    for _ in 0..456 {
        let irqs = ppu.tick();
        if irqs & 0x02 != 0 {
            stat_irq = true;
        }
    }
    assert!(stat_irq);
    assert!(ppu.lcd.is_lyc_equals_ly());
}

#[test]
fn dma_engine_timing() {
    let mut dma = DMA::new();
    assert_eq!(dma.tick(), None);
    dma.start(0x12);
    assert!(dma.active);
    assert_eq!(dma.tick(), None); // warm-up
    assert_eq!(dma.tick(), None); // warm-up
    assert_eq!(dma.tick(), Some((0x1200, 0x00)));
    assert_eq!(dma.tick(), Some((0x1201, 0x01)));
    for i in 2..0xA0u16 {
        assert_eq!(dma.tick(), Some((0x1200 + i, i)));
    }
    assert!(!dma.active);
    assert_eq!(dma.tick(), None);
}

#[test]
fn lcd_control_bits() {
    let mut lcd = LCD::new();
    assert!(lcd.is_enabled());
    assert!(lcd.is_bg_window_enabled());
    assert_eq!(lcd.get_bg_window_tile_data_area(), (0x8000, 0x8FFF));
    assert_eq!(lcd.get_bg_tile_map_area(), (0x9800, 0x9BFF));
    assert_eq!(lcd.get_window_tile_map_area(), (0x9800, 0x9BFF));
    assert!(!lcd.is_window_enabled());
    assert!(!lcd.is_obj_enable());
    assert_eq!(lcd.get_obj_size(), (8, 16));
    lcd.control = 0x6E;
    assert!(!lcd.is_enabled());
    assert_eq!(lcd.get_window_tile_map_area(), (0x9C00, 0x9FFF));
    assert!(lcd.is_window_enabled());
    assert_eq!(lcd.get_bg_window_tile_data_area(), (0x8800, 0x97FF));
    assert_eq!(lcd.get_bg_tile_map_area(), (0x9C00, 0x9FFF));
    assert_eq!(lcd.get_obj_size(), (8, 8));
    assert!(lcd.is_obj_enable());
    assert!(!lcd.is_bg_window_enabled());
}

#[test]
fn lcd_stat_bits() {
    let mut lcd = LCD::new();
    lcd.status = 0x78;
    assert!(lcd.is_lyc_int_selected());
    assert!(lcd.is_mode2_int_selected());
    assert!(lcd.is_mode1_int_selected());
    assert!(lcd.is_mode0_int_selected());
    lcd.set_ppu_mode(PPUMode::VBlank);
    assert!(matches!(lcd.get_ppu_mode(), PPUMode::VBlank));
    lcd.set_lyc_equals_ly(true);
    assert!(lcd.is_lyc_equals_ly());
    lcd.set_lyc_equals_ly(false);
    assert!(!lcd.is_lyc_equals_ly());
}

#[test]
fn palette_write_rebuilds_lookup() {
    let mut ppu = PPU::create();
    // Identity palette at power-on maps index 1 to the light gray quad.
    assert_eq!(&ppu.lcd.bg_colors[4..8], &[0xAA, 0xAA, 0xAA, 0xFF]);
    ppu.registers_write(0xFF47, 0x1B); // 0b00_01_10_11
    assert_eq!(&ppu.lcd.bg_colors[0..4], &[0x00, 0x00, 0x00, 0xFF]);
    assert_eq!(&ppu.lcd.bg_colors[4..8], &[0x55, 0x55, 0x55, 0xFF]);
    assert_eq!(&ppu.lcd.bg_colors[8..12], &[0xAA, 0xAA, 0xAA, 0xFF]);
    assert_eq!(&ppu.lcd.bg_colors[12..16], &[0xFF, 0xFF, 0xFF, 0xFF]);
}

#[test]
fn debug_screen_decodes_tile_line() {
    let mut ppu = PPU::create();
    ppu.set_debug_screen_writer();
    // Tile 0, line 0: pixel pattern 10 11 00 01 ... from bytes 0xC4, 0x64.
    ppu.vram_write(0x8000, 0xC4);
    ppu.vram_write(0x8001, 0x64);
    // Pixel 0: high bit 1, low bit 0 -> index 2 -> 0x55 gray.
    assert_eq!(&ppu.debug_screen[0..4], &[0x55, 0x55, 0x55, 0xFF]);
    // Pixel 1: high 1, low 1 -> index 3 -> black.
    assert_eq!(&ppu.debug_screen[4..8], &[0x00, 0x00, 0x00, 0xFF]);
    // Pixel 2: high 0, low 1 -> index 1 -> light gray.
    assert_eq!(&ppu.debug_screen[8..12], &[0xAA, 0xAA, 0xAA, 0xFF]);
    // Pixel 3: high 0, low 0 -> index 0 -> white.
    assert_eq!(&ppu.debug_screen[12..16], &[0xFF, 0xFF, 0xFF, 0xFF]);
}

#[test]
fn oam_entry_flags() {
    let e = gbcore::ppu::OAMEntry::new();
    assert!(!e.bg_priority());
    let e2 = gbcore::ppu::OAMEntry { y: 0, x: 0, tile: 0, flags: 0x80 };
    assert!(e2.bg_priority());
}

#[test]
fn checksum_roundtrip() {
    let mut rom = vec![0u8; 0x150];
    for i in 0x134..=0x14C {
        rom[i] = (i as u8).wrapping_mul(31);
    }
    let mut x: u8 = 0;
    for i in 0x134..=0x14C {
        x = x.wrapping_sub(rom[i]).wrapping_sub(1);
    }
    rom[0x14D] = x;
    let cart = Cartridge::from(rom.clone());
    assert!(cart.is_checksum_match());
    rom[0x14D] = x.wrapping_add(1);
    let bad = Cartridge::from(rom);
    assert!(!bad.is_checksum_match());
}

#[test]
fn header_fields_parse() {
    let mut rom = vec![0u8; 0x8000];
    let title = b"TESTCART";
    for (i, b) in title.iter().enumerate() {
        rom[0x134 + i] = *b;
    }
    rom[0x147] = 0x00;
    rom[0x148] = 0x01;
    rom[0x14D] = 0x5A;
    rom[0x14E] = 0x12;
    rom[0x14F] = 0x34;
    let cart = Cartridge::from(rom);
    let header = cart.as_header();
    assert_eq!(&header.title[0..8], b"TESTCART");
    assert_eq!(header.cart_type, 0x00);
    assert_eq!(header.rom_size, 0x01);
    assert_eq!(header.checksum, 0x5A);
    assert_eq!(header.global_checksum, 0x1234);
    assert_eq!(&header.title_str()[0..8], "TESTCART");
}

#[test]
fn cartridge_reads_rom_bytes() {
    let mut rom = vec![0u8; 0x200];
    rom[0x1FF] = 0x42;
    let mut cart = Cartridge::from(rom);
    assert_eq!(cart.read(0x1FF), 0x42);
    assert_eq!(cart.read(0x1000), 0xFF); // past the end: open bus
    cart.write(0x1FF, 0x00);
    assert_eq!(cart.read(0x1FF), 0x42);
}

#[test]
fn ring_buffer_fifo_order() {
    let mut rb: RingBuffer<u8> = RingBuffer::new(4);
    assert_eq!(rb.len(), 0);
    assert_eq!(rb.pop(), None);
    rb.push(1);
    rb.push(2);
    rb.push(3);
    assert_eq!(rb.len(), 3);
    assert_eq!(rb.pop(), Some(1));
    assert_eq!(rb.pop(), Some(2));
    rb.push(4);
    rb.push(5);
    assert_eq!(rb.pop(), Some(3));
    assert_eq!(rb.pop(), Some(4));
    assert_eq!(rb.pop(), Some(5));
    assert_eq!(rb.pop(), None);
}

#[test]
fn ring_buffer_grows_in_order() {
    let mut rb: RingBuffer<u32> = RingBuffer::new(2);
    for i in 0..20u32 {
        rb.push(i);
    }
    assert_eq!(rb.len(), 20);
    for i in 0..20u32 {
        assert_eq!(rb.pop(), Some(i));
    }
    assert_eq!(rb.len(), 0);
}

#[test]
fn ring_buffer_clear() {
    let mut rb: RingBuffer<u8> = RingBuffer::new(8);
    rb.push(9);
    rb.push(8);
    rb.clear();
    assert_eq!(rb.len(), 0);
    assert_eq!(rb.pop(), None);
    rb.push(7);
    assert_eq!(rb.pop(), Some(7));
}

#[test]
fn stat_write_can_force_a_mode() {
    // A software STAT write stores the whole byte; the mode machine then
    // carries on from whatever mode was forced.
    let mut ppu = PPU::create();
    ppu.registers_write(0xFF41, 0x00); // force HBlank mid-line
    assert!(matches!(ppu.lcd.get_ppu_mode(), PPUMode::HBlank));
    for _ in 0..456 {
        ppu.tick();
    }
    // The forced HBlank line still ends at T-cycle 456 and hands over to
    // the next line's OAM scan.
    assert!(matches!(ppu.lcd.get_ppu_mode(), PPUMode::OAMScan));
    assert_eq!(ppu.lcd.ly, 1);
}

#[test]
fn one_t_cycle_performs_the_dma_transfer() {
    let mut rom = vec![0u8; 0x8000];
    rom[0x2005] = 0xAB;
    let mut emu = Emu::create(Cartridge::from(rom));
    emu.cpu.write_bus(0xFF46, 0x20);
    // Two warm-up T-cycles, then byte 5 is copied on the eighth transfer
    // cycle.
    for _ in 0..(2 + 6) {
        emu.cpu.one_t_cycle();
    }
    assert_eq!(emu.cpu.ppu.oam_ram[5], 0xAB);
}
