//! Arithmetic and logic unit of the LR35902: every 8-bit and 16-bit
//! operation returns its result together with the new F register value.
//!
//! Contracts state results with plain arithmetic: `x % 16` is the low
//! nibble and `x / 128` the top bit, so every flag rule is pinned down
//! without bit-level reasoning.
use vstd::prelude::*;

verus! {

use crate::flags::make_flags;
use crate::flags::f_c;
use crate::flags::f_z;
use crate::flags::f_n;
use crate::flags::f_h;

broadcast use crate::flags::lemma_make_flags;

proof fn lemma_nibble_eq(x: u8)
    by (bit_vector)
    ensures
        x & 0xf == x % 16,
{
}

/// ADD A,n: Z set on zero result, N clear, H from bit 3, C from bit 7.
pub fn alu_add(a: u8, n: u8) -> (r: (u8, u8))
    ensures
        r.0 == (a + n) % 256,
        r.1 == make_flags((a + n) % 256 == 0, false, a % 16 + n % 16 > 15, a + n > 255),
{
    let sum: u16 = a as u16 + n as u16;
    let res: u8 = (sum % 256) as u8;
    let f: u8 = crate::flags::flags_from(res == 0, false, a % 16 + n % 16 > 15, sum > 255);
    (res, f)
}

/// ADC A,n: as ADD but the incoming carry joins both the sum and the
/// half-carry test.
pub fn alu_adc(a: u8, n: u8, cin: bool) -> (r: (u8, u8))
    ensures
        r.0 == (a + n + (if cin {
            1int
        } else {
            0int
        })) % 256,
        r.1 == make_flags(
            (a + n + (if cin {
                1int
            } else {
                0int
            })) % 256 == 0,
            false,
            a % 16 + n % 16 + (if cin {
                1int
            } else {
                0int
            }) > 15,
            a + n + (if cin {
                1int
            } else {
                0int
            }) > 255,
        ),
{
    let c: u16 = if cin {
        1
    } else {
        0
    };
    let sum: u16 = a as u16 + n as u16 + c;
    let res: u8 = (sum % 256) as u8;
    let f: u8 = crate::flags::flags_from(
        res == 0,
        false,
        a as u16 % 16 + n as u16 % 16 + c > 15,
        sum > 255,
    );
    (res, f)
}

/// SUB n: Z iff A equals n, N set, H on low-nibble borrow, C iff A < n.
pub fn alu_sub(a: u8, n: u8) -> (r: (u8, u8))
    ensures
        r.0 == (a + 256 - n) % 256,
        r.1 == make_flags(a == n, true, a % 16 < n % 16, a < n),
{
    let diff: u16 = (a as u16 + 256 - n as u16) % 256;
    let res: u8 = diff as u8;
    let f: u8 = crate::flags::flags_from(a == n, true, a % 16 < n % 16, a < n);
    (res, f)
}

/// SBC A,n: subtract n and the incoming carry.
pub fn alu_sbc(a: u8, n: u8, cin: bool) -> (r: (u8, u8))
    ensures
        r.0 == (a + 512 - n - (if cin {
            1int
        } else {
            0int
        })) % 256,
        r.1 == make_flags(
            (a + 512 - n - (if cin {
                1int
            } else {
                0int
            })) % 256 == 0,
            true,
            a % 16 < n % 16 + (if cin {
                1int
            } else {
                0int
            }),
            (a as int) < n + (if cin {
                1int
            } else {
                0int
            }),
        ),
{
    let c: u16 = if cin {
        1
    } else {
        0
    };
    let diff: u16 = (a as u16 + 512 - n as u16 - c) % 256;
    let res: u8 = diff as u8;
    let f: u8 = crate::flags::flags_from(
        res == 0,
        true,
        ((a % 16) as u16) < ((n % 16) as u16) + c,
        (a as u16) < (n as u16) + c,
    );
    (res, f)
}

/// AND n: H is forced on, C off.
pub fn alu_and(a: u8, n: u8) -> (r: (u8, u8))
    ensures
        r.0 == a & n,
        r.1 == make_flags((a & n) == 0, false, true, false),
{
    let res: u8 = a & n;
    let f: u8 = crate::flags::flags_from(res == 0, false, true, false);
    (res, f)
}

/// XOR n: all of N, H, C cleared.
pub fn alu_xor(a: u8, n: u8) -> (r: (u8, u8))
    ensures
        r.0 == a ^ n,
        r.1 == make_flags((a ^ n) == 0, false, false, false),
{
    let res: u8 = a ^ n;
    let f: u8 = crate::flags::flags_from(res == 0, false, false, false);
    (res, f)
}

/// OR n: all of N, H, C cleared.
pub fn alu_or(a: u8, n: u8) -> (r: (u8, u8))
    ensures
        r.0 == a | n,
        r.1 == make_flags((a | n) == 0, false, false, false),
{
    let res: u8 = a | n;
    let f: u8 = crate::flags::flags_from(res == 0, false, false, false);
    (res, f)
}

/// CP n: the flags of SUB with the result discarded (A is kept).
pub fn alu_cp(a: u8, n: u8) -> (f: u8)
    ensures
        f == make_flags(a == n, true, a % 16 < n % 16, a < n),
{
    crate::flags::flags_from(a == n, true, a % 16 < n % 16, a < n)
}

/// INC r: C is untouched; H set when the low nibble was 0xF.
pub fn alu_inc(v: u8, f_old: u8) -> (r: (u8, u8))
    ensures
        r.0 == (v + 1) % 256,
        r.1 == make_flags((v + 1) % 256 == 0, false, v % 16 == 15, f_c(f_old)),
{
    let sum: u16 = v as u16 + 1;
    let res: u8 = (sum % 256) as u8;
    let f: u8 = crate::flags::flags_from(res == 0, false, v % 16 == 15, crate::flags::flag_c(f_old));
    (res, f)
}

/// DEC r: C is untouched; H set on borrow out of the low nibble.
pub fn alu_dec(v: u8, f_old: u8) -> (r: (u8, u8))
    ensures
        r.0 == (v + 255) % 256,
        r.1 == make_flags(v == 1, true, v % 16 == 0, f_c(f_old)),
{
    let diff: u16 = (v as u16 + 255) % 256;
    let res: u8 = diff as u8;
    let f: u8 = crate::flags::flags_from(v == 1, true, v % 16 == 0, crate::flags::flag_c(f_old));
    (res, f)
}

/// Rotate left, bit 7 into both bit 0 and C. `zero_from_result` picks the
/// CB-page rule (Z from the result) over the RLCA rule (Z forced to 0).
pub fn alu_rlc(v: u8, zero_from_result: bool) -> (r: (u8, u8))
    ensures
        r.0 == (2 * v) % 256 + v / 128,
        r.1 == make_flags(
            zero_from_result && (2 * v) % 256 + v / 128 == 0,
            false,
            false,
            v / 128 == 1,
        ),
{
    let res: u8 = (((v as u16 * 2) % 256) + (v / 128) as u16) as u8;
    let z: bool = zero_from_result && res == 0;
    let f: u8 = crate::flags::flags_from(z, false, false, v / 128 == 1);
    (res, f)
}

/// Rotate right, bit 0 into both bit 7 and C.
pub fn alu_rrc(v: u8, zero_from_result: bool) -> (r: (u8, u8))
    ensures
        r.0 == v / 2 + (v % 2) * 128,
        r.1 == make_flags(
            zero_from_result && v / 2 + (v % 2) * 128 == 0,
            false,
            false,
            v % 2 == 1,
        ),
{
    let res: u8 = v / 2 + (v % 2) * 128;
    let z: bool = zero_from_result && res == 0;
    let f: u8 = crate::flags::flags_from(z, false, false, v % 2 == 1);
    (res, f)
}

/// Rotate left through the carry: C enters at bit 0, bit 7 leaves into C.
pub fn alu_rl(v: u8, cin: bool, zero_from_result: bool) -> (r: (u8, u8))
    ensures
        r.0 == (2 * v) % 256 + (if cin {
            1int
        } else {
            0int
        }),
        r.1 == make_flags(
            zero_from_result && (2 * v) % 256 + (if cin {
                1int
            } else {
                0int
            }) == 0,
            false,
            false,
            v / 128 == 1,
        ),
{
    let c: u16 = if cin {
        1
    } else {
        0
    };
    let res: u8 = (((v as u16 * 2) % 256) + c) as u8;
    let z: bool = zero_from_result && res == 0;
    let f: u8 = crate::flags::flags_from(z, false, false, v / 128 == 1);
    (res, f)
}

/// Rotate right through the carry: C enters at bit 7, bit 0 leaves into C.
pub fn alu_rr(v: u8, cin: bool, zero_from_result: bool) -> (r: (u8, u8))
    ensures
        r.0 == v / 2 + (if cin {
            128int
        } else {
            0int
        }),
        r.1 == make_flags(
            zero_from_result && v / 2 + (if cin {
                128int
            } else {
                0int
            }) == 0,
            false,
            false,
            v % 2 == 1,
        ),
{
    let c: u8 = if cin {
        128
    } else {
        0
    };
    let res: u8 = v / 2 + c;
    let z: bool = zero_from_result && res == 0;
    let f: u8 = crate::flags::flags_from(z, false, false, v % 2 == 1);
    (res, f)
}

/// SLA: shift left, bit 0 becomes 0, bit 7 leaves into C.
pub fn alu_sla(v: u8) -> (r: (u8, u8))
    ensures
        r.0 == (2 * v) % 256,
        r.1 == make_flags((2 * v) % 256 == 0, false, false, v / 128 == 1),
{
    let res: u8 = ((v as u16 * 2) % 256) as u8;
    let f: u8 = crate::flags::flags_from(res == 0, false, false, v / 128 == 1);
    (res, f)
}

/// SRA: shift right keeping bit 7, bit 0 leaves into C.
pub fn alu_sra(v: u8) -> (r: (u8, u8))
    ensures
        r.0 == v / 2 + (v / 128) * 128,
        r.1 == make_flags(v / 2 + (v / 128) * 128 == 0, false, false, v % 2 == 1),
{
    let res: u8 = v / 2 + (v / 128) * 128;
    let f: u8 = crate::flags::flags_from(res == 0, false, false, v % 2 == 1);
    (res, f)
}

/// SRL: shift right, bit 7 becomes 0, bit 0 leaves into C.
pub fn alu_srl(v: u8) -> (r: (u8, u8))
    ensures
        r.0 == v / 2,
        r.1 == make_flags(v / 2 == 0, false, false, v % 2 == 1),
{
    let res: u8 = v / 2;
    let f: u8 = crate::flags::flags_from(res == 0, false, false, v % 2 == 1);
    (res, f)
}

/// SWAP: exchange the two nibbles; only Z can be set.
pub fn alu_swap(v: u8) -> (r: (u8, u8))
    ensures
        r.0 == (v % 16) * 16 + v / 16,
        r.1 == make_flags(v == 0, false, false, false),
{
    let res: u8 = (v % 16) * 16 + v / 16;
    let f: u8 = crate::flags::flags_from(v == 0, false, false, false);
    (res, f)
}

/// The flag rule of ADD A,n: with the flags `alu_add` computes, Z holds
/// exactly of a zero result, N is clear, H is ((A & 0xF) + (n & 0xF)) >
/// 0xF, C is (A + n) > 0xFF, and the low nibble of F is zero.
pub proof fn lemma_add_flag_rule(a: u8, n: u8)
    ensures
        ({
            let f = make_flags((a + n) % 256 == 0, false, a % 16 + n % 16 > 15, a + n > 255);
            &&& f_z(f) == ((a + n) % 256 == 0)
            &&& !f_n(f)
            &&& f_h(f) == ((a & 0xf) + (n & 0xf) > 0xf)
            &&& f_c(f) == (a + n > 0xff)
            &&& f & 0x0f == 0
        }),
{
    lemma_nibble_eq(a);
    lemma_nibble_eq(n);
}

/// The flag rule of SUB n: with the flags `alu_sub` computes, Z holds
/// exactly when A equals n, N is set, H is (A & 0xF) < (n & 0xF), C is
/// A < n, and the low nibble of F is zero.
pub proof fn lemma_sub_flag_rule(a: u8, n: u8)
    ensures
        ({
            let f = make_flags(a == n, true, a % 16 < n % 16, a < n);
            &&& f_z(f) == (a == n)
            &&& f_n(f)
            &&& f_h(f) == ((a & 0xf) < (n & 0xf))
            &&& f_c(f) == (a < n)
            &&& f & 0x0f == 0
        }),
{
    lemma_nibble_eq(a);
    lemma_nibble_eq(n);
}

/// The flag rule of INC r: with the flags `alu_inc` computes, C is
/// carried over unchanged, H is ((r & 0xF) + 1) > 0xF, Z holds exactly
/// when the wrapped successor is zero, and N is clear.
pub proof fn lemma_inc_flag_rule(v: u8, f_old: u8)
    ensures
        ({
            let f = make_flags((v + 1) % 256 == 0, false, v % 16 == 15, f_c(f_old));
            &&& f_c(f) == f_c(f_old)
            &&& f_h(f) == ((v & 0xf) + 1 > 0xf)
            &&& f_z(f) == ((v + 1) % 256 == 0)
            &&& !f_n(f)
            &&& f & 0x0f == 0
        }),
{
    lemma_nibble_eq(v);
}

/// The power of two for a bit position, as a mask.
pub open spec fn p2(pos: u8) -> u8 {
    if pos == 0 {
        1
    } else if pos == 1 {
        2
    } else if pos == 2 {
        4
    } else if pos == 3 {
        8
    } else if pos == 4 {
        16
    } else if pos == 5 {
        32
    } else if pos == 6 {
        64
    } else {
        128
    }
}

/// The single-bit mask for a position.
pub fn bit_mask(pos: u8) -> (m: u8)
    requires
        pos < 8,
    ensures
        m == p2(pos),
{
    match pos {
        0 => 1,
        1 => 2,
        2 => 4,
        3 => 8,
        4 => 16,
        5 => 32,
        6 => 64,
        _ => 128,
    }
}

/// BIT pos,r: Z is the complement of the tested bit; H forced on, C kept.
pub fn alu_bit(v: u8, pos: u8, f_old: u8) -> (f: u8)
    requires
        pos < 8,
    ensures
        f == make_flags(v & p2(pos) == 0, false, true, f_c(f_old)),
{
    let m: u8 = bit_mask(pos);
    crate::flags::flags_from(v & m == 0, false, true, crate::flags::flag_c(f_old))
}

/// SET pos,r: force the bit on; no flags change.
pub fn alu_set(v: u8, pos: u8) -> (r: u8)
    requires
        pos < 8,
    ensures
        r == v | p2(pos),
{
    let m: u8 = bit_mask(pos);
    v | m
}

/// RES pos,r: force the bit off; no flags change.
pub fn alu_res(v: u8, pos: u8) -> (r: u8)
    requires
        pos < 8,
    ensures
        r == v & !p2(pos),
{
    let m: u8 = bit_mask(pos);
    v & !m
}

/// ADD HL,rr: Z untouched, N clear, H from bit 11, C from bit 15.
pub fn alu_add16(hl: u16, rr: u16, f_old: u8) -> (r: (u16, u8))
    ensures
        r.0 == (hl + rr) % 65536,
        r.1 == make_flags(
            crate::flags::f_z(f_old),
            false,
            hl % 4096 + rr % 4096 > 4095,
            hl + rr > 65535,
        ),
{
    let sum: u32 = hl as u32 + rr as u32;
    let res: u16 = (sum % 65536) as u16;
    let f: u8 = crate::flags::flags_from(
        crate::flags::flag_z(f_old),
        false,
        hl % 4096 + rr % 4096 > 4095,
        sum > 65535,
    );
    (res, f)
}

/// The sign-extended value of an offset byte.
pub open spec fn signed8(e: u8) -> int {
    if e < 128 {
        e as int
    } else {
        e - 256
    }
}

/// ADD SP,e and LD HL,SP+e: the offset is signed, but H and C come from
/// an unsigned add on the low byte; Z and N are cleared.
pub fn alu_add_sp(sp: u16, e: u8) -> (r: (u16, u8))
    ensures
        r.0 == (sp + signed8(e) + 65536) % 65536,
        r.1 == make_flags(false, false, sp % 16 + e % 16 > 15, sp % 256 + e > 255),
{
    let res: u16 = ((sp as u32 + e as u32 + (if e < 128 {
        0
    } else {
        0x10000 - 256
    })) % 65536) as u16;
    let f: u8 = crate::flags::flags_from(false, false, sp % 16 + e as u16 % 16 > 15, sp % 256 + e as u16 > 255);
    (res, f)
}

/// The accumulator after the binary-coded-decimal fix-up: after an
/// addition (N clear) 6 is added to a nibble that overflowed or
/// carried; after a subtraction (N set) the adjustments are subtracted
/// instead.
pub open spec fn daa_value(a: u8, f_old: u8) -> u8 {
    if !f_n(f_old) {
        ((a + (if f_h(f_old) || a % 16 > 9 {
            6int
        } else {
            0int
        }) + (if f_c(f_old) || a > 0x99 {
            0x60int
        } else {
            0int
        })) % 256) as u8
    } else {
        ((a + 512 - (if f_h(f_old) {
            6int
        } else {
            0int
        }) - (if f_c(f_old) {
            0x60int
        } else {
            0int
        })) % 256) as u8
    }
}

/// The flags after DAA: Z from the result, N kept, H cleared, C set
/// when the high adjustment fired (and kept when N is set).
pub open spec fn daa_flags(a: u8, f_old: u8) -> u8 {
    make_flags(daa_value(a, f_old) == 0, f_n(f_old), false, f_c(f_old) || (!f_n(f_old) && a > 0x99))
}

/// DAA: the binary-coded-decimal fix-up applied to A.
pub fn alu_daa(a: u8, f_old: u8) -> (r: (u8, u8))
    ensures
        r.0 == daa_value(a, f_old),
        r.1 == daa_flags(a, f_old),
{
    let n: bool = crate::flags::flag_n(f_old);
    let h: bool = crate::flags::flag_h(f_old);
    let c: bool = crate::flags::flag_c(f_old);
    let res: u8;
    if !n {
        let low: u16 = if h || a % 16 > 9 {
            6
        } else {
            0
        };
        let high: u16 = if c || a > 0x99 {
            0x60
        } else {
            0
        };
        res = ((a as u16 + low + high) % 256) as u8;
    } else {
        let low: u16 = if h {
            6
        } else {
            0
        };
        let high: u16 = if c {
            0x60
        } else {
            0
        };
        res = ((a as u16 + 512 - low - high) % 256) as u8;
    }
    let f: u8 = crate::flags::flags_from(res == 0, n, false, c || (!n && a > 0x99));
    (res, f)
}

} // verus!
