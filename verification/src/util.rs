//! Byte and word packing helpers: reading little-endian integers out of a
//! byte slice, splitting integers into their bytes, and a hex dump used for
//! diagnostics.

use vstd::prelude::*;
use vstd::string::StringExecFns;

verus! {

/// The hex character for a nibble value.
pub open spec fn hex_digit(n: u8) -> char {
    if n == 0 {
        '0'
    } else if n == 1 {
        '1'
    } else if n == 2 {
        '2'
    } else if n == 3 {
        '3'
    } else if n == 4 {
        '4'
    } else if n == 5 {
        '5'
    } else if n == 6 {
        '6'
    } else if n == 7 {
        '7'
    } else if n == 8 {
        '8'
    } else if n == 9 {
        '9'
    } else if n == 10 {
        'A'
    } else if n == 11 {
        'B'
    } else if n == 12 {
        'C'
    } else if n == 13 {
        'D'
    } else if n == 14 {
        'E'
    } else {
        'F'
    }
}

/// The line break inserted after a dump element: the first two rows hold 16
/// bytes each and continuation rows are indented; after the third row begins
/// no further breaks are made.
pub open spec fn hexdump_sep(i: int) -> Seq<char> {
    if i == 15 || i == 31 {
        seq!['\n', ' ', ' ', ' ', ' ', ' ', ' ', ' ']
    } else {
        Seq::empty()
    }
}

/// One element of a hex dump: the byte's two hex digits, with the line break
/// that follows the element at position `i`, if any.
pub open spec fn hexdump_part(b: u8, i: int) -> Seq<char> {
    seq![hex_digit(b / 16), hex_digit(b % 16)] + hexdump_sep(i)
}

/// The first `n` elements of a hex dump, joined by single spaces.
pub open spec fn hexdump_prefix(bytes: Seq<u8>, n: int) -> Seq<char>
    decreases n,
{
    if n <= 0 {
        Seq::empty()
    } else if n == 1 {
        hexdump_part(bytes[0], 0)
    } else {
        hexdump_prefix(bytes, n - 1) + seq![' '] + hexdump_part(bytes[n - 1], n - 1)
    }
}

/// The hex character for a nibble value, as a one-character string.
fn hex_digit_str(n: u8) -> (r: &'static str)
    requires
        n < 16,
    ensures
        r@ == seq![hex_digit(n)],
{
    proof {
        reveal_strlit("0");
        reveal_strlit("1");
        reveal_strlit("2");
        reveal_strlit("3");
        reveal_strlit("4");
        reveal_strlit("5");
        reveal_strlit("6");
        reveal_strlit("7");
        reveal_strlit("8");
        reveal_strlit("9");
        reveal_strlit("A");
        reveal_strlit("B");
        reveal_strlit("C");
        reveal_strlit("D");
        reveal_strlit("E");
        reveal_strlit("F");
    }
    match n {
        0 => "0",
        1 => "1",
        2 => "2",
        3 => "3",
        4 => "4",
        5 => "5",
        6 => "6",
        7 => "7",
        8 => "8",
        9 => "9",
        10 => "A",
        11 => "B",
        12 => "C",
        13 => "D",
        14 => "E",
        _ => "F",
    }
}

/// Renders a byte slice as space-separated hex pairs, 16 to a row for the
/// first two rows (continuation rows indented), for diagnostic output.
pub fn hexdump_slice(bytes: &[u8]) -> (r: String)
    ensures
        r@ == hexdump_prefix(bytes@, bytes@.len() as int),
{
    let mut out = String::new();
    let mut i: usize = 0;
    while i < bytes.len()
        invariant
            i <= bytes@.len(),
            out@ == hexdump_prefix(bytes@, i as int),
        decreases bytes@.len() - i,
    {
        if i > 0 {
            out.append(" ");
            proof {
                reveal_strlit(" ");
                assert(" "@ =~= seq![' ']);
            }
        }
        let b = bytes[i];
        out.append(hex_digit_str(b / 16));
        out.append(hex_digit_str(b % 16));
        if i == 15 || i == 31 {
            out.append("\n       ");
            proof {
                reveal_strlit("\n       ");
                assert("\n       "@ =~= seq!['\n', ' ', ' ', ' ', ' ', ' ', ' ', ' ']);
            }
        }
        proof {
            assert(out@ =~= hexdump_prefix(bytes@, i + 1));
        }
        i += 1;
    }
    out
}

/// The byte of `bytes` at `offset`.
pub fn get_u8(bytes: &[u8], offset: usize) -> (r: u8)
    requires
        offset < bytes@.len(),
    ensures
        r == bytes@[offset as int],
{
    bytes[offset]
}

/// The little-endian 16-bit value stored at `offset` (low byte first).
pub fn get_u16(bytes: &[u8], offset: usize) -> (r: u16)
    requires
        offset + 2 <= bytes@.len(),
    ensures
        r == bytes@[offset as int] + 0x100 * bytes@[offset + 1],
{
    u16_from_2u8s((bytes[offset], bytes[offset + 1]))
}

/// The little-endian 32-bit value stored at `offset` (low byte first).
pub fn get_u32(bytes: &[u8], offset: usize) -> (r: u32)
    requires
        offset + 4 <= bytes@.len(),
    ensures
        r == bytes@[offset as int] + 0x100 * bytes@[offset + 1] + 0x1_0000 * bytes@[offset + 2]
            + 0x100_0000 * bytes@[offset + 3],
{
    bytes[offset] as u32 + 0x100 * bytes[offset + 1] as u32 + 0x1_0000 * bytes[offset + 2] as u32
        + 0x100_0000 * bytes[offset + 3] as u32
}

/// The little-endian 64-bit value stored at `offset` (low byte first).
pub fn get_u64(bytes: &[u8], offset: usize) -> (r: u64)
    requires
        offset + 8 <= bytes@.len(),
    ensures
        r == bytes@[offset as int] + 0x100 * bytes@[offset + 1] + 0x1_0000 * bytes@[offset + 2]
            + 0x100_0000 * bytes@[offset + 3] + 0x1_0000_0000 * bytes@[offset + 4]
            + 0x100_0000_0000 * bytes@[offset + 5] + 0x1_0000_0000_0000 * bytes@[offset + 6]
            + 0x100_0000_0000_0000 * bytes@[offset + 7],
{
    bytes[offset] as u64 + 0x100 * bytes[offset + 1] as u64 + 0x1_0000 * bytes[offset + 2] as u64
        + 0x100_0000 * bytes[offset + 3] as u64 + 0x1_0000_0000 * bytes[offset + 4] as u64
        + 0x100_0000_0000 * bytes[offset + 5] as u64 + 0x1_0000_0000_0000 * bytes[offset
        + 6] as u64 + 0x100_0000_0000_0000 * bytes[offset + 7] as u64
}

/// Swaps the two bytes of a 16-bit value.
pub fn switch_u16(value: u16) -> (r: u16)
    ensures
        r == 0x100 * (value % 0x100) + value / 0x100,
{
    let b = u16_to_2u8s(value);
    u16_from_2u8s((b.0, b.1))
}

/// Splits a 16-bit value into (high byte, low byte).
pub fn u16_to_2u8s(n: u16) -> (r: (u8, u8))
    ensures
        r.0 == n / 0x100,
        r.1 == n % 0x100,
{
    ((n / 0x100) as u8, (n % 0x100) as u8)
}

/// Combines (low byte, high byte) into a 16-bit value.
pub fn u16_from_2u8s(nn: (u8, u8)) -> (r: u16)
    ensures
        r == nn.0 + 0x100 * nn.1,
{
    nn.0 as u16 + 0x100 * nn.1 as u16
}

/// Splits a 32-bit value into its bytes, highest first.
pub fn u32_to_4u8s(n: u32) -> (r: (u8, u8, u8, u8))
    ensures
        r.0 == n / 0x100_0000,
        r.1 == n / 0x1_0000 % 0x100,
        r.2 == n / 0x100 % 0x100,
        r.3 == n % 0x100,
{
    (
        (n / 0x100_0000) as u8,
        (n / 0x1_0000 % 0x100) as u8,
        (n / 0x100 % 0x100) as u8,
        (n % 0x100) as u8,
    )
}

/// Splits a 64-bit value into its bytes, highest first.
pub fn u64_to_8u8s(n: u64) -> (r: (u8, u8, u8, u8, u8, u8, u8, u8))
    ensures
        r.0 == n / 0x100_0000_0000_0000,
        r.1 == n / 0x1_0000_0000_0000 % 0x100,
        r.2 == n / 0x100_0000_0000 % 0x100,
        r.3 == n / 0x1_0000_0000 % 0x100,
        r.4 == n / 0x100_0000 % 0x100,
        r.5 == n / 0x1_0000 % 0x100,
        r.6 == n / 0x100 % 0x100,
        r.7 == n % 0x100,
{
    (
        (n / 0x100_0000_0000_0000) as u8,
        (n / 0x1_0000_0000_0000 % 0x100) as u8,
        (n / 0x100_0000_0000 % 0x100) as u8,
        (n / 0x1_0000_0000 % 0x100) as u8,
        (n / 0x100_0000 % 0x100) as u8,
        (n / 0x1_0000 % 0x100) as u8,
        (n / 0x100 % 0x100) as u8,
        (n % 0x100) as u8,
    )
}

} // verus!
