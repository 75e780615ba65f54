//! Fixed-width integers as bytes in a chosen byte order.

use vstd::prelude::*;

verus! {

/// The order in which the bytes of an integer are laid out.
#[derive(Clone, Copy, Debug, PartialEq, Eq, Structural)]
pub enum ByteOrder {
    /// Least significant byte first.
    Little,
    /// Most significant byte first.
    Big,
}

/// Byte number `i` of `x`, counted from the least significant one.
pub open spec fn byte_of(x: int, i: int) -> u8 {
    if i == 0 {
        (x % 0x100) as u8
    } else if i == 1 {
        (x / 0x100 % 0x100) as u8
    } else if i == 2 {
        (x / 0x1_0000 % 0x100) as u8
    } else if i == 3 {
        (x / 0x100_0000 % 0x100) as u8
    } else if i == 4 {
        (x / 0x1_0000_0000 % 0x100) as u8
    } else if i == 5 {
        (x / 0x100_0000_0000 % 0x100) as u8
    } else if i == 6 {
        (x / 0x1_0000_0000_0000 % 0x100) as u8
    } else {
        (x / 0x100_0000_0000_0000 % 0x100) as u8
    }
}

/// The `width` bytes of `x` in the given order.
pub open spec fn int_bytes(order: ByteOrder, x: int, width: int) -> Seq<u8> {
    Seq::new(
        width as nat,
        |i: int|
            match order {
                ByteOrder::Little => byte_of(x, i),
                ByteOrder::Big => byte_of(x, width - 1 - i),
            },
    )
}

/// The four bytes of `x`.
pub open spec fn u32_bytes(order: ByteOrder, x: u32) -> Seq<u8> {
    int_bytes(order, x as int, 4)
}

/// The eight bytes of `x`.
pub open spec fn u64_bytes(order: ByteOrder, x: u64) -> Seq<u8> {
    int_bytes(order, x as int, 8)
}

/// The number whose four bytes, least significant first, are given.
pub open spec fn le_value4(b0: u8, b1: u8, b2: u8, b3: u8) -> int {
    b0 + b1 * 0x100 + b2 * 0x1_0000 + b3 * 0x100_0000
}

/// The 32-bit number that four bytes stand for.
pub open spec fn u32_value(order: ByteOrder, s: Seq<u8>) -> int {
    match order {
        ByteOrder::Little => le_value4(s[0], s[1], s[2], s[3]),
        ByteOrder::Big => le_value4(s[3], s[2], s[1], s[0]),
    }
}

/// The 64-bit number that eight bytes stand for.
pub open spec fn u64_value(order: ByteOrder, s: Seq<u8>) -> int {
    match order {
        ByteOrder::Little => le_value4(s[0], s[1], s[2], s[3]) + 0x1_0000_0000 * le_value4(
            s[4],
            s[5],
            s[6],
            s[7],
        ),
        ByteOrder::Big => le_value4(s[7], s[6], s[5], s[4]) + 0x1_0000_0000 * le_value4(
            s[3],
            s[2],
            s[1],
            s[0],
        ),
    }
}

/// Lays out a 32-bit number.
pub fn encode_u32(order: ByteOrder, x: u32) -> (r: [u8; 4])
    ensures
        r@ == u32_bytes(order, x),
{
    let b0: u8 = (x % 0x100) as u8;
    let b1: u8 = (x / 0x100 % 0x100) as u8;
    let b2: u8 = (x / 0x1_0000 % 0x100) as u8;
    let b3: u8 = (x / 0x100_0000 % 0x100) as u8;
    let r = match order {
        ByteOrder::Little => [b0, b1, b2, b3],
        ByteOrder::Big => [b3, b2, b1, b0],
    };
    assert(r@ =~= u32_bytes(order, x));
    r
}

/// Lays out a 64-bit number.
pub fn encode_u64(order: ByteOrder, x: u64) -> (r: [u8; 8])
    ensures
        r@ == u64_bytes(order, x),
{
    let b0: u8 = (x % 0x100) as u8;
    let b1: u8 = (x / 0x100 % 0x100) as u8;
    let b2: u8 = (x / 0x1_0000 % 0x100) as u8;
    let b3: u8 = (x / 0x100_0000 % 0x100) as u8;
    let b4: u8 = (x / 0x1_0000_0000 % 0x100) as u8;
    let b5: u8 = (x / 0x100_0000_0000 % 0x100) as u8;
    let b6: u8 = (x / 0x1_0000_0000_0000 % 0x100) as u8;
    let b7: u8 = (x / 0x100_0000_0000_0000 % 0x100) as u8;
    let r = match order {
        ByteOrder::Little => [b0, b1, b2, b3, b4, b5, b6, b7],
        ByteOrder::Big => [b7, b6, b5, b4, b3, b2, b1, b0],
    };
    assert(r@ =~= u64_bytes(order, x));
    r
}

/// Reads a 32-bit number from the first four bytes of `s`.
pub fn decode_u32(order: ByteOrder, s: &[u8]) -> (r: u32)
    requires
        s.len() >= 4,
    ensures
        r == u32_value(order, s@),
{
    let (b0, b1, b2, b3) = match order {
        ByteOrder::Little => (s[0], s[1], s[2], s[3]),
        ByteOrder::Big => (s[3], s[2], s[1], s[0]),
    };
    b0 as u32 + b1 as u32 * 0x100 + b2 as u32 * 0x1_0000 + b3 as u32 * 0x100_0000
}

/// Reads a 64-bit number from the first eight bytes of `s`.
pub fn decode_u64(order: ByteOrder, s: &[u8]) -> (r: u64)
    requires
        s.len() >= 8,
    ensures
        r == u64_value(order, s@),
{
    let (b0, b1, b2, b3, b4, b5, b6, b7) = match order {
        ByteOrder::Little => (s[0], s[1], s[2], s[3], s[4], s[5], s[6], s[7]),
        ByteOrder::Big => (s[7], s[6], s[5], s[4], s[3], s[2], s[1], s[0]),
    };
    let low: u64 = b0 as u64 + b1 as u64 * 0x100 + b2 as u64 * 0x1_0000 + b3 as u64 * 0x100_0000;
    let high: u64 = b4 as u64 + b5 as u64 * 0x100 + b6 as u64 * 0x1_0000 + b7 as u64
        * 0x100_0000;
    low + 0x1_0000_0000 * high
}

/// Reading back what was laid out gives the number again, in either order.
pub proof fn lemma_u32_round_trip(order: ByteOrder, x: u32)
    ensures
        u32_bytes(order, x).len() == 4,
        u32_value(order, u32_bytes(order, x)) == x,
{
}

/// The four low bytes of a number make up its lower half.
pub proof fn lemma_four_bytes(v: u32)
    ensures
        le_value4(
            byte_of(v as int, 0),
            byte_of(v as int, 1),
            byte_of(v as int, 2),
            byte_of(v as int, 3),
        ) == v,
{
}

/// The bytes of a 64-bit number are those of its two halves.
pub proof fn lemma_bytes_of_halves(x: u64)
    ensures
        forall|i: int| 0 <= i < 4 ==> byte_of(x as int, i) == byte_of(x as int % 0x1_0000_0000, i),
        forall|i: int|
            4 <= i < 8 ==> byte_of(x as int, i) == byte_of(x as int / 0x1_0000_0000, i - 4),
{
    let low: u64 = x % 0x1_0000_0000;
    let high: u64 = x / 0x1_0000_0000;
    assert(x % 0x100 == low % 0x100) by (bit_vector)
        requires
            low == x % 0x1_0000_0000,
    ;
    assert(x / 0x100 % 0x100 == low / 0x100 % 0x100) by (bit_vector)
        requires
            low == x % 0x1_0000_0000,
    ;
    assert(x / 0x1_0000 % 0x100 == low / 0x1_0000 % 0x100) by (bit_vector)
        requires
            low == x % 0x1_0000_0000,
    ;
    assert(x / 0x100_0000 % 0x100 == low / 0x100_0000 % 0x100) by (bit_vector)
        requires
            low == x % 0x1_0000_0000,
    ;
    assert(x / 0x100_0000_0000 % 0x100 == high / 0x100 % 0x100) by (bit_vector)
        requires
            high == x / 0x1_0000_0000,
    ;
    assert(x / 0x1_0000_0000_0000 % 0x100 == high / 0x1_0000 % 0x100) by (bit_vector)
        requires
            high == x / 0x1_0000_0000,
    ;
    assert(x / 0x100_0000_0000_0000 % 0x100 == high / 0x100_0000 % 0x100) by (bit_vector)
        requires
            high == x / 0x1_0000_0000,
    ;
}

/// Reading back what was laid out gives the number again, in either order.
pub proof fn lemma_u64_round_trip(order: ByteOrder, x: u64)
    ensures
        u64_bytes(order, x).len() == 8,
        u64_value(order, u64_bytes(order, x)) == x,
{
    let low: u32 = (x as int % 0x1_0000_0000) as u32;
    let high: u32 = (x as int / 0x1_0000_0000) as u32;
    lemma_bytes_of_halves(x);
    lemma_four_bytes(low);
    lemma_four_bytes(high);
    let s = u64_bytes(order, x);
    match order {
        ByteOrder::Little => {
            assert(s[0] == byte_of(low as int, 0) && s[1] == byte_of(low as int, 1) && s[2]
                == byte_of(low as int, 2) && s[3] == byte_of(low as int, 3));
            assert(s[4] == byte_of(high as int, 0) && s[5] == byte_of(high as int, 1) && s[6]
                == byte_of(high as int, 2) && s[7] == byte_of(high as int, 3));
        },
        ByteOrder::Big => {
            assert(s[7] == byte_of(low as int, 0) && s[6] == byte_of(low as int, 1) && s[5]
                == byte_of(low as int, 2) && s[4] == byte_of(low as int, 3));
            assert(s[3] == byte_of(high as int, 0) && s[2] == byte_of(high as int, 1) && s[1]
                == byte_of(high as int, 2) && s[0] == byte_of(high as int, 3));
        },
    }
}

} // verus!
