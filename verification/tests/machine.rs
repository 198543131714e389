use dmg_core::audio::gen_wave;
use dmg_core::cartridge::Cartridge;
use dmg_core::gpu::Interrupt;
use dmg_core::system::{GameBoy, RomError};

fn header_cart() -> Vec<u8> {
    let mut cart = vec![0u8; 0x8000];
    let title = b"TESTGAME";
    cart[0x134..0x134 + title.len()].copy_from_slice(title);
    cart[0x144] = b'0';
    cart[0x145] = b'1';
    cart[0x147] = 0x00;
    cart[0x148] = 0x00;
    cart[0x14a] = 0x00;
    cart[0x14b] = 0x01;
    cart
}

#[test]
fn boot_handoff_register_state() {
    // Without a boot ROM the CPU starts exactly where the DMG boot ROM
    // hands off
    let gb = GameBoy::new(None, header_cart()).expect("machine");
    assert_eq!(gb.cpu.regs.a, 0x01);
    assert_eq!(gb.cpu.regs.flags, 0xb0);
    assert_eq!(gb.cpu.regs.b, 0x00);
    assert_eq!(gb.cpu.regs.c, 0x13);
    assert_eq!(gb.cpu.regs.d, 0x00);
    assert_eq!(gb.cpu.regs.e, 0xd8);
    assert_eq!(gb.cpu.regs.h, 0x01);
    assert_eq!(gb.cpu.regs.l, 0x4d);
    assert_eq!(gb.cpu.sp, 0xfffe);
    assert_eq!(gb.cpu.pc, 0x0100);
    assert!(!gb.mem.boot_mapped);
}

#[test]
fn boot_rom_runs_then_unmaps() {
    // A minimal boot program: LD A,0x01 ; LDH (0x50),A unmaps the
    // overlay, after which 0x00..0xFF read from the cartridge
    let mut boot = vec![0u8; 0x100];
    boot[0] = 0x3e;
    boot[1] = 0x01;
    boot[2] = 0xe0;
    boot[3] = 0x50;
    let mut cart = header_cart();
    cart[0] = 0xc3;
    let mut gb = GameBoy::new(Some(boot), cart).expect("machine");
    assert_eq!(gb.cpu.pc, 0x0000);
    assert_eq!(gb.mem.load(0x0000), 0x3e);
    gb.step();
    assert_eq!(gb.cpu.regs.a, 0x01);
    gb.step();
    assert!(!gb.mem.boot_mapped);
    assert_eq!(gb.mem.load(0x0000), 0xc3);
    assert_eq!(gb.cpu.pc, 0x0004);
}

#[test]
fn boot_rom_of_wrong_size_is_rejected() {
    let r = GameBoy::new(Some(vec![0u8; 0xff]), header_cart());
    assert_eq!(r.err(), Some(RomError::BootRomSize));
    let r = GameBoy::new(Some(vec![0u8; 0x101]), header_cart());
    assert_eq!(r.err(), Some(RomError::BootRomSize));
}

#[test]
fn short_cartridge_is_rejected() {
    let r = GameBoy::new(None, vec![0u8; 0x14f]);
    assert_eq!(r.err(), Some(RomError::CartridgeTooSmall));
}

#[test]
fn oversized_cartridge_is_rejected() {
    let r = GameBoy::new(None, vec![0u8; 0x8001]);
    assert_eq!(r.err(), Some(RomError::CartridgeTooLarge));
}

#[test]
fn vblank_interrupt_end_to_end() {
    // IME=1, IE=0x01, NOPs everywhere: a frame of dots raises exactly
    // one VBlank, which vectors to 0x40 with PC pushed and IF consumed
    let mut gb = GameBoy::new(None, header_cart()).expect("machine");
    gb.cpu.sp = 0xdff0;
    gb.cpu.pc = 0x0150;
    gb.cpu.interrupts_enabled = true;
    gb.mem.write(0xffff, 0x01);
    gb.mem.write(0xff40, 0x80);
    let (vb, _) = gb.mem.gpu.tick(70224);
    assert_eq!(vb, 1);
    assert_eq!(gb.mem.gpu.ly, 0, "LY returned to its starting value");
    gb.mem.request_interrupt(Interrupt::VBlank);
    let cycles = gb.cpu.step(&mut gb.mem);
    assert_eq!(cycles, 20);
    assert_eq!(gb.cpu.pc, 0x0040);
    assert!(!gb.cpu.interrupts_enabled);
    assert_eq!(gb.mem.if_reg & 0x01, 0);
    assert_eq!(gb.mem.load(0xdfee), 0x50);
    assert_eq!(gb.mem.load(0xdfef), 0x01);
}

#[test]
fn vblank_posts_into_if_through_step() {
    // Driving the composed machine for a frame's worth of steps posts
    // the VBlank request into IF even with IME off
    let mut gb = GameBoy::new(None, header_cart()).expect("machine");
    gb.cpu.pc = 0x0150;
    gb.mem.write(0xff40, 0x80);
    let mut cycles: u32 = 0;
    while cycles < 70224 {
        cycles += gb.step() as u32;
    }
    assert_ne!(gb.mem.if_reg & 0x01, 0);
}

#[test]
fn cartridge_header_parses() {
    let cart = header_cart();
    let c = Cartridge::new(&cart).expect("header");
    assert_eq!(&c.title[..8], b"TESTGAME");
    assert_eq!(c.title.len(), 16);
    assert_eq!(c.title[8], 0);
    assert_eq!(c.size, 32);
    assert_eq!(c.cartridge_type(), "ROM ONLY");
    assert_eq!(c.licensee(), "Nintendo");
    assert_eq!(c.destination_market(), "JP");
}

#[test]
fn cartridge_new_licensee_used_when_old_is_33() {
    let mut cart = header_cart();
    cart[0x14b] = 0x33;
    let c = Cartridge::new(&cart).expect("header");
    assert_eq!(c.licensee(), "Nintendo R&D1");
    cart[0x144] = b'6';
    cart[0x145] = b'9';
    let c = Cartridge::new(&cart).expect("header");
    assert_eq!(c.licensee(), "Electronic Arts");
}

#[test]
fn cartridge_type_and_size_codes() {
    let mut cart = header_cart();
    cart[0x147] = 0x03;
    cart[0x148] = 0x02;
    cart[0x14a] = 0x01;
    cart[0x14b] = 0xb4;
    let c = Cartridge::new(&cart).expect("header");
    assert_eq!(c.cartridge_type(), "MBC1+RAM+BATTERY");
    assert_eq!(c.size, 128);
    assert_eq!(c.destination_market(), "World");
    assert_eq!(c.licensee(), "Enix");
}

#[test]
fn cartridge_unknown_codes_fall_through() {
    let mut cart = header_cart();
    cart[0x147] = 0x42;
    cart[0x14b] = 0x02;
    let c = Cartridge::new(&cart).expect("header");
    assert_eq!(c.cartridge_type(), "<unknown cartridge type>");
    assert_eq!(c.licensee(), "<unknown old licensee code>");
}

#[test]
fn cartridge_header_needs_0x150_bytes() {
    assert!(Cartridge::new(&vec![0u8; 0x14f]).is_none());
    assert!(Cartridge::new(&vec![0u8; 0x150]).is_some());
}

#[test]
fn square_wave_alternates_every_period() {
    let w = gen_wave(48_000);
    assert_eq!(w.len(), 48_000);
    assert_eq!(w[0], 1000);
    assert_eq!(w[186], 1000);
    assert_eq!(w[187], -1000);
    assert_eq!(w[373], -1000);
    assert_eq!(w[374], 1000);
}

#[test]
fn square_wave_empty_for_no_samples() {
    assert_eq!(gen_wave(0).len(), 0);
    assert_eq!(gen_wave(-5).len(), 0);
}
