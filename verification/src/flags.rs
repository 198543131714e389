//! The F register: flag bits Z, N, H, C live in the high nibble; the low
//! nibble always reads as zero.
use vstd::prelude::*;

verus! {

/// The F register value encoding the four flags.
pub open spec fn make_flags(z: bool, n: bool, h: bool, c: bool) -> u8 {
    ((if z {
        128int
    } else {
        0int
    }) + (if n {
        64int
    } else {
        0int
    }) + (if h {
        32int
    } else {
        0int
    }) + (if c {
        16int
    } else {
        0int
    })) as u8
}

/// Zero flag: bit 7 of F.
pub open spec fn f_z(f: u8) -> bool {
    f & 0x80 != 0
}

/// Subtract flag: bit 6 of F.
pub open spec fn f_n(f: u8) -> bool {
    f & 0x40 != 0
}

/// Half-carry flag: bit 5 of F.
pub open spec fn f_h(f: u8) -> bool {
    f & 0x20 != 0
}

/// Carry flag: bit 4 of F.
pub open spec fn f_c(f: u8) -> bool {
    f & 0x10 != 0
}

/// A well-formed F register has a zero low nibble.
pub open spec fn flags_wf(f: u8) -> bool {
    f & 0x0f == 0
}

proof fn lemma_u8_bit_arith(f: u8)
    by (bit_vector)
    ensures
        (f & 0x80 != 0) <==> ((f / 128) % 2 == 1),
        (f & 0x40 != 0) <==> ((f / 64) % 2 == 1),
        (f & 0x20 != 0) <==> ((f / 32) % 2 == 1),
        (f & 0x10 != 0) <==> ((f / 16) % 2 == 1),
        (f & 0x0f == 0) <==> (f % 16 == 0),
{
}

/// Composing the four flag bits yields an F value whose bits read back as
/// the booleans that went in, and whose low nibble is zero.
pub broadcast proof fn lemma_make_flags(z: bool, n: bool, h: bool, c: bool)
    ensures
        f_z(#[trigger] make_flags(z, n, h, c)) == z,
        f_n(make_flags(z, n, h, c)) == n,
        f_h(make_flags(z, n, h, c)) == h,
        f_c(make_flags(z, n, h, c)) == c,
        flags_wf(make_flags(z, n, h, c)),
        make_flags(z, n, h, c) % 16 == 0,
{
    let zi: int = if z {
        128int
    } else {
        0int
    };
    let ni: int = if n {
        64int
    } else {
        0int
    };
    let hi: int = if h {
        32int
    } else {
        0int
    };
    let ci: int = if c {
        16int
    } else {
        0int
    };
    let f = make_flags(z, n, h, c);
    assert(f == zi + ni + hi + ci);
    assert((f / 128) % 2 == if z {
        1int
    } else {
        0int
    });
    assert((f / 64) % 2 == if n {
        1int
    } else {
        0int
    });
    assert((f / 32) % 2 == if h {
        1int
    } else {
        0int
    });
    assert((f / 16) % 2 == if c {
        1int
    } else {
        0int
    });
    assert(f % 16 == 0);
    lemma_u8_bit_arith(f);
}

/// Build an F register value from the four flags.
pub fn flags_from(z: bool, n: bool, h: bool, c: bool) -> (f: u8)
    ensures
        f == make_flags(z, n, h, c),
{
    let mut f: u8 = 0;
    if z {
        f += 128;
    }
    if n {
        f += 64;
    }
    if h {
        f += 32;
    }
    if c {
        f += 16;
    }
    f
}

/// Read the Z flag out of an F register value.
pub fn flag_z(f: u8) -> (b: bool)
    ensures
        b == f_z(f),
{
    f & 0x80 != 0
}

/// Read the N flag out of an F register value.
pub fn flag_n(f: u8) -> (b: bool)
    ensures
        b == f_n(f),
{
    f & 0x40 != 0
}

/// Read the H flag out of an F register value.
pub fn flag_h(f: u8) -> (b: bool)
    ensures
        b == f_h(f),
{
    f & 0x20 != 0
}

/// Read the C flag out of an F register value.
pub fn flag_c(f: u8) -> (b: bool)
    ensures
        b == f_c(f),
{
    f & 0x10 != 0
}

} // verus!
