use dmg_core::alu::{alu_add, alu_adc, alu_daa, alu_dec, alu_inc, alu_rlc, alu_sub, alu_swap};
use dmg_core::cpu::{Location, Register8, Registers};
use dmg_core::system::GameBoy;
use dmg_core::{CARRY_FLAG, HALF_CARRY_FLAG, SUBTRACT_FLAG, ZERO_FLAG};

fn blank_cart() -> Vec<u8> {
    vec![0u8; 0x8000]
}

fn boot_machine(code_at_100: &[u8]) -> GameBoy {
    let mut cart = blank_cart();
    cart[0x100..0x100 + code_at_100.len()].copy_from_slice(code_at_100);
    GameBoy::new(None, cart).expect("machine")
}

#[test]
fn add_flag_law_examples() {
    // 0x3A + 0xC6 = 0x100: zero result, half-carry and carry set
    let (r, f) = alu_add(0x3a, 0xc6);
    assert_eq!(r, 0x00);
    assert_ne!(f & ZERO_FLAG, 0);
    assert_eq!(f & SUBTRACT_FLAG, 0);
    assert_ne!(f & HALF_CARRY_FLAG, 0);
    assert_ne!(f & CARRY_FLAG, 0);
    // 0x08 + 0x07 = 0x0F: no flags but the zero nibble rule
    let (r, f) = alu_add(0x08, 0x07);
    assert_eq!(r, 0x0f);
    assert_eq!(f, 0);
}

#[test]
fn sub_flag_law_examples() {
    // equal operands: Z and N set, no borrows
    let (r, f) = alu_sub(0x42, 0x42);
    assert_eq!(r, 0);
    assert_ne!(f & ZERO_FLAG, 0);
    assert_ne!(f & SUBTRACT_FLAG, 0);
    assert_eq!(f & HALF_CARRY_FLAG, 0);
    assert_eq!(f & CARRY_FLAG, 0);
    // 0x10 - 0x01: borrow out of the low nibble only
    let (r, f) = alu_sub(0x10, 0x01);
    assert_eq!(r, 0x0f);
    assert_ne!(f & HALF_CARRY_FLAG, 0);
    assert_eq!(f & CARRY_FLAG, 0);
    // 0x00 - 0x01: full borrow
    let (r, f) = alu_sub(0x00, 0x01);
    assert_eq!(r, 0xff);
    assert_ne!(f & CARRY_FLAG, 0);
}

#[test]
fn inc_flag_law_examples() {
    // INC keeps C: seed carry in, watch it survive
    let (r, f) = alu_inc(0x0f, CARRY_FLAG);
    assert_eq!(r, 0x10);
    assert_ne!(f & HALF_CARRY_FLAG, 0);
    assert_ne!(f & CARRY_FLAG, 0);
    assert_eq!(f & SUBTRACT_FLAG, 0);
    let (r, f) = alu_inc(0xff, 0);
    assert_eq!(r, 0x00);
    assert_ne!(f & ZERO_FLAG, 0);
    assert_eq!(f & CARRY_FLAG, 0);
}

#[test]
fn dec_keeps_carry_and_borrows() {
    let (r, f) = alu_dec(0x10, CARRY_FLAG);
    assert_eq!(r, 0x0f);
    assert_ne!(f & HALF_CARRY_FLAG, 0);
    assert_ne!(f & CARRY_FLAG, 0);
    assert_ne!(f & SUBTRACT_FLAG, 0);
    let (r, f) = alu_dec(0x01, 0);
    assert_eq!(r, 0x00);
    assert_ne!(f & ZERO_FLAG, 0);
}

#[test]
fn adc_carries_through() {
    let (r, f) = alu_adc(0xff, 0x00, true);
    assert_eq!(r, 0x00);
    assert_ne!(f & ZERO_FLAG, 0);
    assert_ne!(f & CARRY_FLAG, 0);
    assert_ne!(f & HALF_CARRY_FLAG, 0);
}

#[test]
fn swap_exchanges_nibbles() {
    let (r, f) = alu_swap(0xa5);
    assert_eq!(r, 0x5a);
    assert_eq!(f, 0);
    let (r, f) = alu_swap(0x00);
    assert_eq!(r, 0x00);
    assert_ne!(f & ZERO_FLAG, 0);
}

#[test]
fn daa_adjusts_bcd_addition() {
    // 0x45 + 0x38 = 0x7D, then DAA gives 0x83
    let (sum, f) = alu_add(0x45, 0x38);
    assert_eq!(sum, 0x7d);
    let (r, f2) = alu_daa(sum, f);
    assert_eq!(r, 0x83);
    assert_eq!(f2 & CARRY_FLAG, 0);
    // 0x99 + 0x01 = 0x9A, then DAA wraps to 0x00 with carry
    let (sum, f) = alu_add(0x99, 0x01);
    let (r, f2) = alu_daa(sum, f);
    assert_eq!(r, 0x00);
    assert_ne!(f2 & CARRY_FLAG, 0);
    assert_ne!(f2 & ZERO_FLAG, 0);
}

#[test]
fn flags_low_nibble_zero_over_whole_opcode_map() {
    // After any instruction F's low four bits are 0, whatever the opcode
    for opcode in 0u16..=0xff {
        let mut gb = boot_machine(&[opcode as u8, 0x10, 0x20]);
        gb.cpu.sp = 0xd000;
        gb.step();
        assert_eq!(
            gb.cpu.regs.flags & 0x0f,
            0,
            "opcode {opcode:#04x} dirtied the flag nibble"
        );
    }
}

#[test]
fn flags_low_nibble_zero_over_cb_page() {
    for cb in 0u16..=0xff {
        let mut gb = boot_machine(&[0xcb, cb as u8]);
        gb.step();
        assert_eq!(
            gb.cpu.regs.flags & 0x0f,
            0,
            "CB opcode {cb:#04x} dirtied the flag nibble"
        );
    }
}

#[test]
fn ld_bc_then_inc_bc() {
    // LD BC,0x1234 ; INC BC
    let mut gb = boot_machine(&[0x01, 0x34, 0x12, 0x03]);
    let c1 = gb.step();
    let c2 = gb.step();
    assert_eq!(gb.cpu.regs.bc(), 0x1235);
    assert_eq!(gb.cpu.pc, 0x0104);
    assert_eq!(c1 as u32 + c2 as u32, 20);
}

#[test]
fn cb_rlc_b() {
    let mut gb = boot_machine(&[0xcb, 0x00]);
    gb.cpu.regs.b = 0x85;
    let cycles = gb.step();
    assert_eq!(cycles, 8);
    assert_eq!(gb.cpu.regs.b, 0x0b);
    assert_ne!(gb.cpu.regs.flags & CARRY_FLAG, 0);
    assert_eq!(gb.cpu.regs.flags & ZERO_FLAG, 0);
    assert_eq!(gb.cpu.regs.flags & SUBTRACT_FLAG, 0);
    assert_eq!(gb.cpu.regs.flags & HALF_CARRY_FLAG, 0);
}

#[test]
fn rlca_clears_zero_flag_even_on_zero() {
    // RLCA on zero: the accumulator rotates to 0 but Z stays 0
    let mut gb = boot_machine(&[0x07]);
    gb.cpu.regs.a = 0x00;
    gb.step();
    assert_eq!(gb.cpu.regs.a, 0x00);
    assert_eq!(gb.cpu.regs.flags & ZERO_FLAG, 0);
}

#[test]
fn call_then_ret_round_trip() {
    let mut gb = boot_machine(&[]);
    gb.cpu.sp = 0xdff0;
    gb.cpu.pc = 0xc000;
    // CALL 0xC010 at 0xC000; RET at 0xC010
    gb.mem.write(0xc000, 0xcd);
    gb.mem.write(0xc001, 0x10);
    gb.mem.write(0xc002, 0xc0);
    gb.mem.write(0xc010, 0xc9);
    let c1 = gb.step();
    assert_eq!(c1, 24);
    assert_eq!(gb.cpu.pc, 0xc010);
    assert_eq!(gb.cpu.sp, 0xdfee);
    assert_eq!(gb.mem.load(0xdfee), 0x03);
    assert_eq!(gb.mem.load(0xdfef), 0xc0);
    let c2 = gb.step();
    assert_eq!(c2, 16);
    assert_eq!(gb.cpu.pc, 0xc003);
    assert_eq!(gb.cpu.sp, 0xdff0);
}

#[test]
fn jr_backwards_wraps_correctly() {
    // JR -2 loops the instruction onto itself
    let mut gb = boot_machine(&[0x00, 0x18, 0xfe]);
    gb.step();
    gb.step();
    assert_eq!(gb.cpu.pc, 0x0101);
}

#[test]
fn jr_nz_taken_and_not_taken() {
    // Z clear: taken, 12 cycles
    let mut gb = boot_machine(&[0x20, 0x05]);
    gb.cpu.regs.flags = 0;
    let c = gb.step();
    assert_eq!(c, 12);
    assert_eq!(gb.cpu.pc, 0x0107);
    // Z set: skipped, 8 cycles
    let mut gb = boot_machine(&[0x20, 0x05]);
    gb.cpu.regs.flags = ZERO_FLAG;
    let c = gb.step();
    assert_eq!(c, 8);
    assert_eq!(gb.cpu.pc, 0x0102);
}

#[test]
fn push_pop_af_masks_low_nibble() {
    // LD BC,0x12FF ; PUSH BC ; POP AF
    let mut gb = boot_machine(&[0x01, 0xff, 0x12, 0xc5, 0xf1]);
    gb.cpu.sp = 0xd000;
    gb.step();
    gb.step();
    gb.step();
    assert_eq!(gb.cpu.regs.a, 0x12);
    assert_eq!(gb.cpu.regs.flags, 0xf0);
    assert_eq!(gb.cpu.sp, 0xd000);
}

#[test]
fn add_hl_rr_flags() {
    // LD HL,0x0FFF ; LD BC,0x0001 ; ADD HL,BC: half-carry from bit 11
    let mut gb = boot_machine(&[0x21, 0xff, 0x0f, 0x01, 0x01, 0x00, 0x09]);
    gb.cpu.regs.flags = ZERO_FLAG;
    gb.step();
    gb.step();
    gb.step();
    assert_eq!(gb.cpu.regs.hl(), 0x1000);
    assert_ne!(gb.cpu.regs.flags & HALF_CARRY_FLAG, 0);
    assert_eq!(gb.cpu.regs.flags & CARRY_FLAG, 0);
    // Z is untouched by ADD HL,rr
    assert_ne!(gb.cpu.regs.flags & ZERO_FLAG, 0);
}

#[test]
fn ld_hl_sp_plus_negative_offset() {
    // LD HL,SP-2 with SP=0xD000
    let mut gb = boot_machine(&[0xf8, 0xfe]);
    gb.cpu.sp = 0xd000;
    gb.step();
    assert_eq!(gb.cpu.regs.hl(), 0xcffe);
    assert_eq!(gb.cpu.regs.flags & ZERO_FLAG, 0);
}

#[test]
fn dec_bc_wraps_to_ffff() {
    let mut gb = boot_machine(&[0x0b]);
    gb.cpu.regs.b = 0;
    gb.cpu.regs.c = 0;
    gb.step();
    assert_eq!(gb.cpu.regs.bc(), 0xffff);
}

#[test]
fn ld_a16_sp_stores_both_bytes() {
    // LD (0xC100),SP with SP=0xBEEF
    let mut gb = boot_machine(&[0x08, 0x00, 0xc1]);
    gb.cpu.sp = 0xbeef;
    let c = gb.step();
    assert_eq!(c, 20);
    assert_eq!(gb.mem.load(0xc100), 0xef);
    assert_eq!(gb.mem.load(0xc101), 0xbe);
}

#[test]
fn rst_jumps_to_its_vector() {
    let mut gb = boot_machine(&[0xef]);
    gb.cpu.sp = 0xd000;
    let c = gb.step();
    assert_eq!(c, 16);
    assert_eq!(gb.cpu.pc, 0x28);
    assert_eq!(gb.mem.load(0xcffe), 0x01);
    assert_eq!(gb.mem.load(0xcfff), 0x01);
}

#[test]
fn ld_through_hl_reads_and_writes_memory() {
    // LD HL,0xC050 ; LD (HL),0x7E ; LD A,(HL)
    let mut gb = boot_machine(&[0x21, 0x50, 0xc0, 0x36, 0x7e, 0x7e]);
    gb.step();
    let c = gb.step();
    assert_eq!(c, 12);
    assert_eq!(gb.mem.load(0xc050), 0x7e);
    let c = gb.step();
    assert_eq!(c, 8);
    assert_eq!(gb.cpu.regs.a, 0x7e);
}

#[test]
fn halt_wakes_on_pending_interrupt_without_ime() {
    // HALT with IME=0: a pending enabled request resumes execution
    let mut gb = boot_machine(&[0x76, 0x04]);
    gb.step();
    assert!(gb.cpu.halted);
    let c = gb.step();
    assert_eq!(c, 4);
    assert!(gb.cpu.halted);
    gb.mem.write(0xffff, 0x01);
    gb.mem.write(0xff0f, 0x01);
    gb.step();
    assert!(!gb.cpu.halted);
    // the INC B after the HALT ran, with no dispatch
    assert_eq!(gb.cpu.regs.b, 1);
    assert_eq!(gb.cpu.pc, 0x0102);
}

#[test]
fn ei_enables_interrupts_one_instruction_late() {
    // EI ; NOP with a pending enabled interrupt: dispatch only after NOP
    let mut gb = boot_machine(&[0xfb, 0x00, 0x00]);
    gb.cpu.sp = 0xd000;
    gb.mem.write(0xffff, 0x01);
    gb.mem.write(0xff0f, 0x01);
    gb.step();
    assert!(!gb.cpu.interrupts_enabled);
    gb.step();
    assert!(gb.cpu.interrupts_enabled);
    let c = gb.step();
    assert_eq!(c, 20);
    assert_eq!(gb.cpu.pc, 0x40);
}

#[test]
fn reti_returns_and_reenables() {
    let mut gb = boot_machine(&[]);
    gb.cpu.sp = 0xd000;
    gb.cpu.pc = 0xc000;
    gb.mem.write(0xc000, 0xd9);
    gb.mem.write(0xd000, 0x34);
    gb.mem.write(0xd001, 0x12);
    gb.step();
    assert_eq!(gb.cpu.pc, 0x1234);
    assert_eq!(gb.cpu.sp, 0xd002);
    assert!(gb.cpu.interrupts_enabled);
}

#[test]
fn interrupt_priority_and_bit_clearing() {
    // VBlank and Timer both pending and enabled: VBlank wins, its IF
    // bit alone is consumed
    let mut gb = boot_machine(&[0x00]);
    gb.cpu.sp = 0xd000;
    gb.cpu.interrupts_enabled = true;
    gb.mem.write(0xffff, 0x05);
    gb.mem.write(0xff0f, 0x05);
    let c = gb.step();
    assert_eq!(c, 20);
    assert_eq!(gb.cpu.pc, 0x40);
    assert!(!gb.cpu.interrupts_enabled);
    assert_eq!(gb.mem.if_reg, 0x04);
    assert_eq!(gb.mem.if_reg & gb.mem.ie & 0x01, 0);
}

#[test]
fn cp_sets_flags_without_touching_a() {
    // CP 0x90 with A=0x3C
    let mut gb = boot_machine(&[0xfe, 0x90]);
    gb.cpu.regs.a = 0x3c;
    gb.step();
    assert_eq!(gb.cpu.regs.a, 0x3c);
    assert_ne!(gb.cpu.regs.flags & CARRY_FLAG, 0);
    assert_ne!(gb.cpu.regs.flags & SUBTRACT_FLAG, 0);
    assert_eq!(gb.cpu.regs.flags & ZERO_FLAG, 0);
}

#[test]
fn bit_res_set_behave() {
    // BIT 7,B on 0x80: Z clear; RES 7,B then SET 0,B
    let mut gb = boot_machine(&[0xcb, 0x78, 0xcb, 0xb8, 0xcb, 0xc0]);
    gb.cpu.regs.b = 0x80;
    gb.step();
    assert_eq!(gb.cpu.regs.flags & ZERO_FLAG, 0);
    assert_ne!(gb.cpu.regs.flags & HALF_CARRY_FLAG, 0);
    gb.step();
    assert_eq!(gb.cpu.regs.b, 0x00);
    gb.step();
    assert_eq!(gb.cpu.regs.b, 0x01);
}

#[test]
fn rlc_alu_matches_rotation() {
    let (r, f) = alu_rlc(0x85, true);
    assert_eq!(r, 0x0b);
    assert_ne!(f & CARRY_FLAG, 0);
}

#[test]
fn daa_through_the_opcode() {
    // LD A,0x45 ; ADD A,0x38 ; DAA leaves the BCD sum 0x83
    let mut gb = boot_machine(&[0x3e, 0x45, 0xc6, 0x38, 0x27]);
    gb.step();
    gb.step();
    let c = gb.step();
    assert_eq!(c, 4);
    assert_eq!(gb.cpu.regs.a, 0x83);
    assert_eq!(gb.cpu.regs.flags & CARRY_FLAG, 0);
}

#[test]
fn add_sp_signed_flags() {
    // ADD SP,-2 at SP=0xD002: low-byte unsigned add sets H and C
    let mut gb = boot_machine(&[0xe8, 0xfe]);
    gb.cpu.sp = 0xd002;
    let c = gb.step();
    assert_eq!(c, 16);
    assert_eq!(gb.cpu.sp, 0xd000);
    assert_ne!(gb.cpu.regs.flags & HALF_CARRY_FLAG, 0);
    assert_ne!(gb.cpu.regs.flags & CARRY_FLAG, 0);
    assert_eq!(gb.cpu.regs.flags & ZERO_FLAG, 0);
}

#[test]
fn vblank_int_method_pushes_and_vectors() {
    let mut gb = boot_machine(&[]);
    gb.cpu.pc = 0x1234;
    gb.cpu.sp = 0xd000;
    gb.cpu.interrupts_enabled = true;
    gb.mem.write(0xffff, 0x01);
    gb.mem.write(0xff0f, 0x01);
    gb.cpu.vblank_int(&mut gb.mem);
    assert_eq!(gb.cpu.pc, 0x40);
    assert_eq!(gb.cpu.sp, 0xcffe);
    assert!(!gb.cpu.interrupts_enabled);
    assert_eq!(gb.mem.load(0xcffe), 0x34);
    assert_eq!(gb.mem.load(0xcfff), 0x12);
    // the serviced request is consumed: IF & IE & 0x1F has nothing left
    assert_eq!(gb.mem.if_reg & 0x01, 0);
    assert_eq!(gb.mem.if_reg & gb.mem.ie & 0x1f, 0);
}

#[test]
fn status_int_method_vectors_to_48() {
    let mut gb = boot_machine(&[]);
    gb.cpu.pc = 0xbeef;
    gb.cpu.sp = 0xd000;
    gb.cpu.interrupts_enabled = true;
    gb.mem.write(0xffff, 0x02);
    gb.mem.write(0xff0f, 0x02);
    gb.cpu.status_int(&mut gb.mem);
    assert_eq!(gb.cpu.pc, 0x48);
    assert_eq!(gb.cpu.sp, 0xcffe);
    assert!(!gb.cpu.interrupts_enabled);
    assert_eq!(gb.mem.load(0xcffe), 0xef);
    assert_eq!(gb.mem.load(0xcfff), 0xbe);
    // the serviced request is consumed
    assert_eq!(gb.mem.if_reg & 0x02, 0);
    assert_eq!(gb.mem.if_reg & gb.mem.ie & 0x1f, 0);
}

#[test]
fn set_flag_and_write_af_mask() {
    let mut r = Registers::new();
    r.set_flag(ZERO_FLAG, true);
    assert_eq!(r.flags, 0x80);
    r.set_flag(CARRY_FLAG, true);
    assert_eq!(r.flags, 0x90);
    r.set_flag(ZERO_FLAG, false);
    assert_eq!(r.flags, 0x10);
    r.write_af(0xabcd);
    assert_eq!(r.a, 0xab);
    assert_eq!(r.flags, 0xc0);
    assert_eq!(r.af(), 0xabc0);
}

#[test]
fn index_maps_register_fields() {
    let gb = boot_machine(&[]);
    assert!(matches!(gb.cpu.index(0), Location::Register(Register8::B)));
    assert!(matches!(gb.cpu.index(7), Location::Register(Register8::A)));
    match gb.cpu.index(6) {
        Location::Address(a) => assert_eq!(a, gb.cpu.regs.hl()),
        _ => panic!("field 6 must address memory at HL"),
    }
}

#[test]
fn load_immediate8_reads_at_pc() {
    let gb = boot_machine(&[0xfe, 0x90]);
    assert_eq!(gb.cpu.load_immediate8(&gb.mem), 0xfe);
}
