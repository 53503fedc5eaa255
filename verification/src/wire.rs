//! Fixed-width fields of the payload format: one-byte discriminants, 32-byte
//! addresses and 8-byte little-endian amounts.

use vstd::prelude::*;
use vstd::slice::slice_subrange;
use wormhole_io::{Readable, Writeable};
use crate::errors::DecodeError;

verus! {

/// A 32-byte account or program address.
pub type Address = [u8; 32];

/// Width of an address on the wire.
pub const ADDRESS_LEN: usize = 32;

/// Width of an amount on the wire.
pub const AMOUNT_LEN: usize = 8;

/// The eight bytes of `v`, least significant first.
pub open spec fn u64_le_bytes(v: u64) -> Seq<u8> {
    let v1 = v / 0x100;
    let v2 = v1 / 0x100;
    let v3 = v2 / 0x100;
    let v4 = v3 / 0x100;
    let v5 = v4 / 0x100;
    let v6 = v5 / 0x100;
    let v7 = v6 / 0x100;
    seq![
        (v % 0x100) as u8,
        (v1 % 0x100) as u8,
        (v2 % 0x100) as u8,
        (v3 % 0x100) as u8,
        (v4 % 0x100) as u8,
        (v5 % 0x100) as u8,
        (v6 % 0x100) as u8,
        (v7 % 0x100) as u8,
    ]
}

/// The number that eight bytes spell, least significant first.
pub open spec fn u64_from_le(b: Seq<u8>) -> int
    recommends
        b.len() == 8,
{
    b[0] + 0x100 * (b[1] + 0x100 * (b[2] + 0x100 * (b[3] + 0x100 * (b[4] + 0x100 * (b[5] + 0x100
        * (b[6] + 0x100 * b[7]))))))
}

/// Eight bytes always spell a number that fits in 64 bits.
pub proof fn lemma_u64_from_le_bound(b: Seq<u8>)
    requires
        b.len() == 8,
    ensures
        0 <= u64_from_le(b) <= u64::MAX,
{
}

/// Reading back the bytes of a number gives the number.
pub proof fn lemma_u64_le_roundtrip(v: u64)
    ensures
        u64_le_bytes(v).len() == 8,
        u64_from_le(u64_le_bytes(v)) == v,
{
    let v1 = v / 0x100;
    let v2 = v1 / 0x100;
    let v3 = v2 / 0x100;
    let v4 = v3 / 0x100;
    let v5 = v4 / 0x100;
    let v6 = v5 / 0x100;
    let v7 = v6 / 0x100;
    assert(v7 < 0x100);
    assert(v7 % 0x100 == v7);
    assert(v6 == v6 % 0x100 + 0x100 * v7);
    assert(v5 == v5 % 0x100 + 0x100 * v6);
    assert(v4 == v4 % 0x100 + 0x100 * v5);
    assert(v3 == v3 % 0x100 + 0x100 * v4);
    assert(v2 == v2 % 0x100 + 0x100 * v3);
    assert(v1 == v1 % 0x100 + 0x100 * v2);
    assert(v == v % 0x100 + 0x100 * v1);
}

/// One step of reading a number back: the lowest byte and what is left.
proof fn lemma_split_low_byte(low: u8, rest: int)
    requires
        0 <= rest,
    ensures
        (low + 0x100 * rest) % 0x100 == low,
        (low + 0x100 * rest) / 0x100 == rest,
{
}

/// Writing out the number that eight bytes spell gives those bytes.
pub proof fn lemma_u64_le_canonical(b: Seq<u8>)
    requires
        b.len() == 8,
    ensures
        u64_le_bytes(u64_from_le(b) as u64) == b,
{
    lemma_u64_from_le_bound(b);
    let r7: int = b[7] as int;
    let r6: int = b[6] + 0x100 * r7;
    let r5: int = b[5] + 0x100 * r6;
    let r4: int = b[4] + 0x100 * r5;
    let r3: int = b[3] + 0x100 * r4;
    let r2: int = b[2] + 0x100 * r3;
    let r1: int = b[1] + 0x100 * r2;
    let r0: int = b[0] + 0x100 * r1;
    lemma_split_low_byte(b[6], r7);
    lemma_split_low_byte(b[5], r6);
    lemma_split_low_byte(b[4], r5);
    lemma_split_low_byte(b[3], r4);
    lemma_split_low_byte(b[2], r3);
    lemma_split_low_byte(b[1], r2);
    lemma_split_low_byte(b[0], r1);
    assert(r0 == u64_from_le(b));
    assert(u64_le_bytes(r0 as u64) =~= b);
}

/// Appends the eight little-endian bytes of `v` to `out`.
pub fn put_u64_le(out: &mut Vec<u8>, v: u64)
    ensures
        final(out)@ == old(out)@ + u64_le_bytes(v),
{
    let v1: u64 = v / 0x100;
    let v2: u64 = v1 / 0x100;
    let v3: u64 = v2 / 0x100;
    let v4: u64 = v3 / 0x100;
    let v5: u64 = v4 / 0x100;
    let v6: u64 = v5 / 0x100;
    let v7: u64 = v6 / 0x100;
    out.push((v % 0x100) as u8);
    out.push((v1 % 0x100) as u8);
    out.push((v2 % 0x100) as u8);
    out.push((v3 % 0x100) as u8);
    out.push((v4 % 0x100) as u8);
    out.push((v5 % 0x100) as u8);
    out.push((v6 % 0x100) as u8);
    out.push((v7 % 0x100) as u8);
    assert(out@ =~= old(out)@ + u64_le_bytes(v));
}

/// Reads an amount from exactly eight little-endian bytes.
pub fn get_u64_le(b: &[u8]) -> (v: u64)
    requires
        b@.len() == 8,
    ensures
        v == u64_from_le(b@),
{
    let b0: u64 = b[0] as u64;
    let b1: u64 = b[1] as u64;
    let b2: u64 = b[2] as u64;
    let b3: u64 = b[3] as u64;
    let b4: u64 = b[4] as u64;
    let b5: u64 = b[5] as u64;
    let b6: u64 = b[6] as u64;
    let b7: u64 = b[7] as u64;
    b0 + b1 * 0x100 + b2 * 0x1_0000 + b3 * 0x100_0000 + b4 * 0x1_0000_0000 + b5 * 0x100_0000_0000
        + b6 * 0x1_0000_0000_0000 + b7 * 0x100_0000_0000_0000
}

/// The address whose first `n` bytes are those of `s`, the others zero.
pub open spec fn address_prefix(s: Seq<u8>, n: nat) -> Address
    decreases n,
{
    if n == 0 {
        vstd::array::spec_array_fill_for_copy_type(0u8)
    } else {
        vstd::array::spec_array_update(address_prefix(s, (n - 1) as nat), n - 1, s[n - 1])
    }
}

/// The address that 32 bytes spell.
pub open spec fn address_from(s: Seq<u8>) -> Address
    recommends
        s.len() == 32,
{
    address_prefix(s, 32)
}

proof fn lemma_address_prefix(s: Seq<u8>, n: nat)
    requires
        n <= 32,
        n <= s.len(),
    ensures
        forall|i: int| 0 <= i < n ==> address_prefix(s, n)@[i] == s[i],
    decreases n,
{
    broadcast use vstd::array::group_array_axioms;

    if n > 0 {
        lemma_address_prefix(s, (n - 1) as nat);
    }
}

/// `address_from` gives back exactly the bytes it was built from.
pub proof fn lemma_address_from_view(s: Seq<u8>)
    requires
        s.len() == 32,
    ensures
        address_from(s)@ == s,
{
    broadcast use vstd::array::group_array_axioms;

    lemma_address_prefix(s, 32);
    assert(address_from(s)@ =~= s);
}

/// An address is the one that its own bytes spell.
pub proof fn lemma_address_from_bytes(a: Address)
    ensures
        a@.len() == 32,
        address_from(a@) == a,
{
    broadcast use vstd::array::group_array_axioms;

    lemma_address_from_view(a@);
    assert(address_from(a@) =~= a);
}

/// Two addresses with the same bytes are the same address.
pub proof fn lemma_address_ext(a: Address, b: Address)
    requires
        a@ == b@,
    ensures
        a == b,
{
    broadcast use vstd::array::group_array_axioms;

    assert(a =~= b);
}

/// Whether two addresses hold the same bytes.
pub fn address_eq(a: &Address, b: &Address) -> (same: bool)
    ensures
        same == (*a == *b),
{
    let mut i: usize = 0;
    while i < 32
        invariant
            i <= 32,
            forall|k: int| 0 <= k < i ==> a@[k] == b@[k],
        decreases 32 - i,
    {
        if a[i] != b[i] {
            return false;
        }
        i += 1;
    }
    proof {
        assert(a@ =~= b@);
        lemma_address_ext(*a, *b);
    }
    true
}

/// Whether every byte of the address is zero.
pub open spec fn is_zero_address(a: Address) -> bool {
    forall|i: int| 0 <= i < 32 ==> a@[i] == 0
}

/// Tests an address for being all zero.
pub fn address_is_zero(a: &Address) -> (zero: bool)
    ensures
        zero == is_zero_address(*a),
{
    let mut i: usize = 0;
    while i < 32
        invariant
            i <= 32,
            forall|k: int| 0 <= k < i ==> a@[k] == 0,
        decreases 32 - i,
    {
        if a[i] != 0 {
            return false;
        }
        i += 1;
    }
    true
}

/// The error of `std::io`, carried through and never looked into.
#[verifier::external_type_specification]
#[verifier::external_body]
pub struct ExIoError(std::io::Error);

/// `<u8 as wormhole_io::Readable>::read` on a byte slice: it fills a one-byte
/// buffer with `read_exact`, so it gives the first byte of `input`, and fails
/// exactly when `input` is empty.
#[verifier::external_body]
fn read_u8(input: &[u8]) -> (r: Result<u8, std::io::Error>)
    ensures
        r is Ok <==> input@.len() >= 1,
        r matches Ok(b) ==> b == input@[0],
{
    let mut reader: &[u8] = input;
    <u8 as Readable>::read(&mut reader)
}

/// `<[u8; 32] as wormhole_io::Readable>::read` on a byte slice: it fills a
/// 32-byte buffer with `read_exact`, so it gives the first 32 bytes of `input`,
/// and fails exactly when `input` holds fewer.
#[verifier::external_body]
fn read_array32(input: &[u8]) -> (r: Result<[u8; 32], std::io::Error>)
    ensures
        r is Ok <==> input@.len() >= 32,
        r matches Ok(a) ==> a@ == input@.subrange(0, 32),
{
    let mut reader: &[u8] = input;
    <[u8; 32] as Readable>::read(&mut reader)
}

/// `<u8 as wormhole_io::Writeable>::write` into a vector: `write_all` of the
/// one byte, which on a `Vec<u8>` appends it and cannot fail.
#[verifier::external_body]
fn write_u8(out: &mut Vec<u8>, b: u8) -> (r: Result<(), std::io::Error>)
    ensures
        r is Ok,
        final(out)@ == old(out)@.push(b),
{
    b.write(out)
}

/// `<[u8; 32] as wormhole_io::Writeable>::write` into a vector: `write_all`
/// of the 32 bytes, which on a `Vec<u8>` appends them and cannot fail.
#[verifier::external_body]
fn write_array32(out: &mut Vec<u8>, a: &[u8; 32]) -> (r: Result<(), std::io::Error>)
    ensures
        r is Ok,
        final(out)@ == old(out)@ + a@,
{
    a.write(out)
}

/// Appends a discriminant byte to `out`.
pub fn put_discriminant(out: &mut Vec<u8>, id: u8)
    ensures
        final(out)@ == old(out)@.push(id),
{
    let _ = write_u8(out, id);
}

/// Appends the 32 bytes of an address to `out`.
pub fn put_address(out: &mut Vec<u8>, a: &Address)
    ensures
        final(out)@ == old(out)@ + a@,
{
    let _ = write_array32(out, a);
}

/// Reads the discriminant, the first byte of a payload.
pub fn get_discriminant(input: &[u8]) -> (r: Result<u8, DecodeError>)
    ensures
        input@.len() == 0 ==> r == Err::<u8, DecodeError>(DecodeError::LengthMismatch),
        input@.len() > 0 ==> r == Ok::<u8, DecodeError>(input@[0]),
{
    match read_u8(input) {
        Ok(id) => Ok(id),
        Err(_) => Err(DecodeError::LengthMismatch),
    }
}

/// Reads the address that starts at byte `at` of `input`. Fewer than 32
/// bytes from there on is a length mismatch.
pub fn get_address(input: &[u8], at: usize) -> (r: Result<Address, DecodeError>)
    ensures
        match r {
            Ok(a) => at + 32 <= input@.len() && a == address_from(
                input@.subrange(at as int, at + 32),
            ),
            Err(e) => e == DecodeError::LengthMismatch && at + 32 > input@.len(),
        },
{
    let len: usize = input.len();
    if at > len {
        return Err(DecodeError::LengthMismatch);
    }
    let rest = slice_subrange(input, at, len);
    match read_array32(rest) {
        Ok(a) => {
            proof {
                let field = input@.subrange(at as int, at + 32);
                assert(rest@.subrange(0, 32) =~= field);
                lemma_address_from_view(field);
                lemma_address_ext(a, address_from(field));
            }
            Ok(a)
        },
        Err(_) => Err(DecodeError::LengthMismatch),
    }
}

/// Reads the amount whose eight bytes start at byte `at` of `input`. Fewer
/// than eight bytes from there on is a length mismatch.
pub fn get_amount(input: &[u8], at: usize) -> (r: Result<u64, DecodeError>)
    ensures
        match r {
            Ok(v) => at + 8 <= input@.len() && v == u64_from_le(
                input@.subrange(at as int, at + 8),
            ),
            Err(e) => e == DecodeError::LengthMismatch && at + 8 > input@.len(),
        },
{
    let len: usize = input.len();
    if at > len || len - at < 8 {
        return Err(DecodeError::LengthMismatch);
    }
    Ok(get_u64_le(slice_subrange(input, at, at + 8)))
}

} // verus!
