//! Fixed-width little-endian numbers inside a byte buffer: what each field
//! of a payload or of a stored record is made of.

use vstd::prelude::*;

verus! {

/// The number that eight bytes spell, least significant byte first.
pub open spec fn le_u64(bytes: Seq<u8>) -> int
    recommends
        bytes.len() == 8,
{
    bytes[0] + 0x100 * bytes[1] + 0x1_0000 * bytes[2] + 0x100_0000 * bytes[3] + 0x1_0000_0000
        * bytes[4] + 0x100_0000_0000 * bytes[5] + 0x1_0000_0000_0000 * bytes[6]
        + 0x100_0000_0000_0000 * bytes[7]
}

/// The signed number that eight bytes spell in two's complement, least
/// significant byte first.
pub open spec fn le_i64(bytes: Seq<u8>) -> int
    recommends
        bytes.len() == 8,
{
    if le_u64(bytes) < 0x8000_0000_0000_0000 {
        le_u64(bytes)
    } else {
        le_u64(bytes) - 0x1_0000_0000_0000_0000
    }
}

/// The eight bytes of an unsigned number, least significant byte first: each
/// is the remainder by 256 of what the bytes before it left over.
pub open spec fn u64_le_bytes(value: u64) -> Seq<u8> {
    let q1 = value / 0x100;
    let q2 = q1 / 0x100;
    let q3 = q2 / 0x100;
    let q4 = q3 / 0x100;
    let q5 = q4 / 0x100;
    let q6 = q5 / 0x100;
    let q7 = q6 / 0x100;
    seq![
        (value % 0x100) as u8,
        (q1 % 0x100) as u8,
        (q2 % 0x100) as u8,
        (q3 % 0x100) as u8,
        (q4 % 0x100) as u8,
        (q5 % 0x100) as u8,
        (q6 % 0x100) as u8,
        (q7 % 0x100) as u8,
    ]
}

/// The unsigned number with the same eight bytes as a signed one.
pub open spec fn twos_complement(value: i64) -> u64 {
    if value >= 0 {
        value as u64
    } else {
        (value + 0x1_0000_0000_0000_0000) as u64
    }
}

/// The eight bytes of a signed number in two's complement, least significant
/// byte first.
pub open spec fn i64_le_bytes(value: i64) -> Seq<u8> {
    u64_le_bytes(twos_complement(value))
}

/// Reading back the bytes of an unsigned number gives the number.
pub proof fn lemma_u64_round_trip(value: u64)
    ensures
        u64_le_bytes(value).len() == 8,
        le_u64(u64_le_bytes(value)) == value,
{
}

/// Reading back the bytes of a signed number gives the number.
pub proof fn lemma_i64_round_trip(value: i64)
    ensures
        i64_le_bytes(value).len() == 8,
        le_i64(i64_le_bytes(value)) == value,
{
    lemma_u64_round_trip(twos_complement(value));
}

/// Reads the unsigned number stored in the eight bytes from `at` on.
pub fn read_u64_le(data: &[u8], at: usize) -> (value: u64)
    requires
        at + 8 <= data@.len(),
    ensures
        value == le_u64(data@.subrange(at as int, at + 8)),
{
    let ghost field = data@.subrange(at as int, at + 8);
    assert(forall|i: int| 0 <= i < 8 ==> field[i] == data@[at + i]);
    let b0: u64 = data[at] as u64;
    let b1: u64 = data[at + 1] as u64;
    let b2: u64 = data[at + 2] as u64;
    let b3: u64 = data[at + 3] as u64;
    let b4: u64 = data[at + 4] as u64;
    let b5: u64 = data[at + 5] as u64;
    let b6: u64 = data[at + 6] as u64;
    let b7: u64 = data[at + 7] as u64;
    b0 + 0x100 * b1 + 0x1_0000 * b2 + 0x100_0000 * b3 + 0x1_0000_0000 * b4 + 0x100_0000_0000 * b5
        + 0x1_0000_0000_0000 * b6 + 0x100_0000_0000_0000 * b7
}

/// Reads the signed number stored in the eight bytes from `at` on.
pub fn read_i64_le(data: &[u8], at: usize) -> (value: i64)
    requires
        at + 8 <= data@.len(),
    ensures
        value == le_i64(data@.subrange(at as int, at + 8)),
{
    let raw: u64 = read_u64_le(data, at);
    if raw < 0x8000_0000_0000_0000 {
        raw as i64
    } else {
        let low: u64 = raw - 0x8000_0000_0000_0000;
        low as i64 + i64::MIN
    }
}

/// Appends the eight bytes of an unsigned number to `out`.
pub fn push_u64_le(out: &mut Vec<u8>, value: u64)
    ensures
        final(out)@ == old(out)@ + u64_le_bytes(value),
{
    let ghost before = out@;
    let q1: u64 = value / 0x100;
    let q2: u64 = q1 / 0x100;
    let q3: u64 = q2 / 0x100;
    let q4: u64 = q3 / 0x100;
    let q5: u64 = q4 / 0x100;
    let q6: u64 = q5 / 0x100;
    let q7: u64 = q6 / 0x100;
    out.push((value % 0x100) as u8);
    out.push((q1 % 0x100) as u8);
    out.push((q2 % 0x100) as u8);
    out.push((q3 % 0x100) as u8);
    out.push((q4 % 0x100) as u8);
    out.push((q5 % 0x100) as u8);
    out.push((q6 % 0x100) as u8);
    out.push((q7 % 0x100) as u8);
    assert(out@ =~= before + u64_le_bytes(value));
}

/// Appends the eight bytes of a signed number to `out`.
pub fn push_i64_le(out: &mut Vec<u8>, value: i64)
    ensures
        final(out)@ == old(out)@ + i64_le_bytes(value),
{
    let raw: u64 = if value >= 0 {
        value as u64
    } else {
        let low: i64 = value - i64::MIN;
        low as u64 + 0x8000_0000_0000_0000
    };
    push_u64_le(out, raw);
}

/// The key with the given 32 bytes.
pub open spec fn key_of(bytes: Seq<u8>) -> [u8; 32]
    recommends
        bytes.len() == 32,
{
    choose|key: [u8; 32]| key@ == bytes
}

/// A key whose first `count` bytes are those of `bytes`.
spec fn key_up_to(bytes: Seq<u8>, count: nat) -> [u8; 32]
    decreases count,
{
    if count == 0 {
        arbitrary()
    } else {
        vstd::array::spec_array_update(
            key_up_to(bytes, (count - 1) as nat),
            count - 1,
            bytes[count - 1],
        )
    }
}

proof fn lemma_key_up_to(bytes: Seq<u8>, count: nat)
    requires
        count <= 32 == bytes.len(),
    ensures
        forall|i: int| 0 <= i < count ==> key_up_to(bytes, count)@[i] == bytes[i],
    decreases count,
{
    broadcast use vstd::array::axiom_spec_array_update;

    if count > 0 {
        lemma_key_up_to(bytes, (count - 1) as nat);
    }
}

/// Any 32 bytes are the bytes of a key, and of one key only.
pub proof fn lemma_key_of(bytes: Seq<u8>)
    requires
        bytes.len() == 32,
    ensures
        key_of(bytes)@ == bytes,
        forall|key: [u8; 32]| key@ == bytes ==> key == key_of(bytes),
{
    lemma_key_up_to(bytes, 32);
    let witness = key_up_to(bytes, 32);
    assert(witness@ =~= bytes);
    assert forall|key: [u8; 32]| key@ == bytes implies key == key_of(bytes) by {
        assert(key =~= key_of(bytes));
    }
}

/// Reads the 32 bytes from `at` on.
pub fn read_key(data: &[u8], at: usize) -> (key: [u8; 32])
    requires
        at + 32 <= data@.len(),
    ensures
        key@ == data@.subrange(at as int, at + 32),
        key == key_of(data@.subrange(at as int, at + 32)),
{
    proof {
        lemma_key_of(data@.subrange(at as int, at + 32));
    }
    let len: usize = data.len();
    let mut key: [u8; 32] = [0u8; 32];
    let mut i: usize = 0;
    while i < 32
        invariant
            i <= 32,
            at + 32 <= len == data@.len(),
            forall|j: int| 0 <= j < i ==> key@[j] == data@[at + j],
        decreases 32 - i,
    {
        key[i] = data[at + i];
        i += 1;
    }
    assert(key@ =~= data@.subrange(at as int, at + 32));
    key
}

/// Appends the 32 bytes of `key` to `out`.
pub fn push_key(out: &mut Vec<u8>, key: &[u8; 32])
    ensures
        final(out)@ == old(out)@ + key@,
{
    let ghost before = out@;
    let mut i: usize = 0;
    while i < 32
        invariant
            i <= 32,
            out@ == before + key@.take(i as int),
        decreases 32 - i,
    {
        out.push(key[i]);
        i += 1;
        assert(out@ =~= before + key@.take(i as int));
    }
    assert(key@.take(32) =~= key@);
}

/// Appends `count` zero bytes to `out`.
pub fn push_zeros(out: &mut Vec<u8>, count: usize)
    ensures
        final(out)@ == old(out)@ + Seq::new(count as nat, |i: int| 0u8),
{
    let ghost before = out@;
    let mut i: usize = 0;
    while i < count
        invariant
            i <= count,
            out@ == before + Seq::new(i as nat, |j: int| 0u8),
        decreases count - i,
    {
        out.push(0);
        i += 1;
        assert(out@ =~= before + Seq::new(i as nat, |j: int| 0u8));
    }
}

/// Whether two keys are the same, byte for byte.
pub fn same_key(a: &[u8; 32], b: &[u8; 32]) -> (same: bool)
    ensures
        same == (a@ == b@),
{
    let mut i: usize = 0;
    while i < 32
        invariant
            i <= 32,
            forall|j: int| 0 <= j < i ==> a@[j] == b@[j],
        decreases 32 - i,
    {
        if a[i] != b[i] {
            return false;
        }
        i += 1;
    }
    assert(a@ =~= b@);
    true
}

} // verus!
