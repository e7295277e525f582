//! The flag bits packed into the top nibble of the F register, behind named
//! accessors: Zero (bit 7), Subtract (bit 6), Half-carry (bit 5), Carry
//! (bit 4). The low nibble of F is always zero.

use vstd::prelude::*;

verus! {

/// Zero flag: bit 7 of F.
pub open spec fn f_z(f: u8) -> bool {
    f & 0x80 == 0x80
}

/// Subtract flag: bit 6 of F.
pub open spec fn f_n(f: u8) -> bool {
    f & 0x40 == 0x40
}

/// Half-carry flag: bit 5 of F.
pub open spec fn f_h(f: u8) -> bool {
    f & 0x20 == 0x20
}

/// Carry flag: bit 4 of F.
pub open spec fn f_c(f: u8) -> bool {
    f & 0x10 == 0x10
}

/// The flag byte with exactly the given flags set; its low nibble is zero.
pub open spec fn mk_f(z: bool, n: bool, h: bool, c: bool) -> u8 {
    (if z {
        0x80u8
    } else {
        0u8
    }) | (if n {
        0x40u8
    } else {
        0u8
    }) | (if h {
        0x20u8
    } else {
        0u8
    }) | (if c {
        0x10u8
    } else {
        0u8
    })
}

/// Each flag of a freshly built flag byte reads back as given, and the low
/// nibble is always zero.
pub broadcast proof fn lemma_mk_f(z: bool, n: bool, h: bool, c: bool)
    ensures
        f_z(#[trigger] mk_f(z, n, h, c)) == z,
        f_n(mk_f(z, n, h, c)) == n,
        f_h(mk_f(z, n, h, c)) == h,
        f_c(mk_f(z, n, h, c)) == c,
        mk_f(z, n, h, c) & 0x0F == 0,
{
    let zz: u8 = if z {
        0x80
    } else {
        0
    };
    let nn: u8 = if n {
        0x40
    } else {
        0
    };
    let hh: u8 = if h {
        0x20
    } else {
        0
    };
    let cc: u8 = if c {
        0x10
    } else {
        0
    };
    assert((zz == 0x80 || zz == 0) && (nn == 0x40 || nn == 0) && (hh == 0x20 || hh == 0) && (cc
        == 0x10 || cc == 0) ==> {
        &&& ((zz | nn | hh | cc) & 0x80 == 0x80) == (zz == 0x80)
        &&& ((zz | nn | hh | cc) & 0x40 == 0x40) == (nn == 0x40)
        &&& ((zz | nn | hh | cc) & 0x20 == 0x20) == (hh == 0x20)
        &&& ((zz | nn | hh | cc) & 0x10 == 0x10) == (cc == 0x10)
        &&& (zz | nn | hh | cc) & 0x0F == 0
    }) by (bit_vector);
}

} // verus!
