//! Byte-level helpers that derive membership handles from numeric ids.

use vstd::prelude::*;

verus! {

/// The byte of `num` at position `byte_number`, counting from the least
/// significant byte.
pub open spec fn byte_of(num: u32, byte_number: u8) -> u8 {
    ((num as int / place_value(byte_number)) % 256) as u8
}

/// What a one is worth at position `byte_number` of a 32-bit number: 256
/// raised to the power `byte_number`.
pub open spec fn place_value(byte_number: u8) -> int {
    if byte_number == 0 {
        1
    } else if byte_number == 1 {
        256
    } else if byte_number == 2 {
        65536
    } else {
        16777216
    }
}

/// Extracts one byte of a 32-bit number, position 0 being the least
/// significant one.
pub fn get_byte(num: u32, byte_number: u8) -> (byte: u8)
    requires
        byte_number < 4,
    ensures
        byte == byte_of(num, byte_number),
{
    let shift: u32 = 8 * (byte_number as u32);
    let masked: u32 = (num & (0xffu32 << shift)) >> shift;
    proof {
        assert(shift == 0 ==> masked == num % 256) by (bit_vector)
            requires
                masked == (num & (0xffu32 << shift)) >> shift,
        ;
        assert(shift == 8 ==> masked == (num / 256) % 256) by (bit_vector)
            requires
                masked == (num & (0xffu32 << shift)) >> shift,
        ;
        assert(shift == 16 ==> masked == (num / 65536) % 256) by (bit_vector)
            requires
                masked == (num & (0xffu32 << shift)) >> shift,
        ;
        assert(shift == 24 ==> masked == (num / 16777216) % 256) by (bit_vector)
            requires
                masked == (num & (0xffu32 << shift)) >> shift,
        ;
    }
    masked as u8
}

/// The handle of the member with index `id`: the four bytes of `id`, least
/// significant first. Different indices give different handles.
pub fn handle_from_id(id: u32) -> (handle: Vec<u8>)
    ensures
        handle@ == handle_of(id),
{
    let mut handle: Vec<u8> = Vec::new();
    let mut i: u8 = 0;
    while i < 4
        invariant
            i <= 4,
            handle@.len() == i,
            forall|k: int| 0 <= k < i ==> handle@[k] == byte_of(id, k as u8),
        decreases 4 - i,
    {
        handle.push(get_byte(id, i));
        i = i + 1;
    }
    handle
}

/// The four bytes of `id`, least significant first.
pub open spec fn handle_of(id: u32) -> Seq<u8> {
    seq![byte_of(id, 0), byte_of(id, 1), byte_of(id, 2), byte_of(id, 3)]
}

/// The bytes of a handle, put together again, give the index back.
pub proof fn law_handle_determines_id(id: u32)
    ensures
        id == byte_of(id, 0) + 256 * byte_of(id, 1) + 65536 * byte_of(id, 2) + 16777216 * byte_of(
            id,
            3,
        ),
{
    let n = id as int;
    assert(n == (n % 256) + 256 * ((n / 256) % 256) + 65536 * ((n / 65536) % 256) + 16777216 * ((n
        / 16777216) % 256)) by (nonlinear_arith)
        requires
            0 <= n < 4294967296,
    ;
}

/// Handles are distinct: two indices with the same handle are the same.
pub proof fn law_handles_are_distinct(a: u32, b: u32)
    requires
        handle_of(a) == handle_of(b),
    ensures
        a == b,
{
    law_handle_determines_id(a);
    law_handle_determines_id(b);
    assert(handle_of(a)[0] == handle_of(b)[0]);
    assert(handle_of(a)[1] == handle_of(b)[1]);
    assert(handle_of(a)[2] == handle_of(b)[2]);
    assert(handle_of(a)[3] == handle_of(b)[3]);
}

} // verus!
