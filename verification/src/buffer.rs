//! Trusted boundary to the `bytes` crate: a `bytes::Bytes` value is the read
//! cursor the decoder consumes, a `bytes::BytesMut` value is the growable sink
//! the encoder appends to. Each wrapper states over the two content views what
//! the `bytes` source shows of the one method it calls.

use vstd::prelude::*;

use bytes::Buf;
use bytes::BufMut;

verus! {

#[verifier::external_type_specification]
#[verifier::external_body]
pub struct ExBytes(bytes::Bytes);

#[verifier::external_type_specification]
#[verifier::external_body]
pub struct ExBytesMut(bytes::BytesMut);

/// The bytes a read cursor still holds, front of the sequence first.
pub uninterp spec fn bytes_data(b: bytes::Bytes) -> Seq<u8>;

/// The bytes a sink holds so far, in the order they were appended.
pub uninterp spec fn sink_data(b: bytes::BytesMut) -> Seq<u8>;

/// How a 16-bit value is laid out big-endian, high byte first.
pub open spec fn u16_bytes(v: u16) -> Seq<u8> {
    seq![(v / 0x100) as u8, (v % 0x100) as u8]
}

/// How a 32-bit value is laid out big-endian, high byte first.
pub open spec fn u32_bytes(v: u32) -> Seq<u8> {
    seq![
        (v / 0x1000000) as u8,
        ((v / 0x10000) % 0x100) as u8,
        ((v / 0x100) % 0x100) as u8,
        (v % 0x100) as u8,
    ]
}

/// The 16-bit value two big-endian bytes stand for.
pub open spec fn u16_of(hi: u8, lo: u8) -> u16 {
    ((hi as int) * 0x100 + (lo as int)) as u16
}

/// The 32-bit value four big-endian bytes stand for.
pub open spec fn u32_of(b0: u8, b1: u8, b2: u8, b3: u8) -> u32 {
    ((b0 as int) * 0x1000000 + (b1 as int) * 0x10000 + (b2 as int) * 0x100 + (b3 as int)) as u32
}

/// Reading back the two bytes an encoder wrote gives the value back.
pub proof fn lemma_u16_bytes_roundtrip(v: u16)
    ensures
        u16_of(u16_bytes(v)[0], u16_bytes(v)[1]) == v,
        u16_bytes(v).len() == 2,
{
}

/// Reading back the four bytes an encoder wrote gives the value back.
pub proof fn lemma_u32_bytes_roundtrip(v: u32)
    ensures
        u32_of(u32_bytes(v)[0], u32_bytes(v)[1], u32_bytes(v)[2], u32_bytes(v)[3]) == v,
        u32_bytes(v).len() == 4,
{
}

/// Relies on `bytes::Buf::remaining` for `Bytes`: the number of bytes left,
/// which for `Bytes` is its length.
#[verifier::external_body]
pub(crate) fn remaining(b: &bytes::Bytes) -> (r: usize)
    ensures
        r == bytes_data(*b).len(),
{
    b.remaining()
}

/// Relies on `bytes::Buf::get_u8` for `Bytes`: returns the first byte and
/// advances past it; panics when no byte is left, which the precondition
/// rules out.
#[verifier::external_body]
pub(crate) fn get_u8(b: &mut bytes::Bytes) -> (r: u8)
    requires
        bytes_data(*old(b)).len() >= 1,
    ensures
        r == bytes_data(*old(b))[0],
        bytes_data(*final(b)) == bytes_data(*old(b)).skip(1),
{
    b.get_u8()
}

/// Relies on `bytes::Buf::get_u16` for `Bytes`: reads the first two bytes
/// big-endian and advances past them; panics when fewer than two bytes are
/// left, which the precondition rules out.
#[verifier::external_body]
pub(crate) fn get_u16(b: &mut bytes::Bytes) -> (r: u16)
    requires
        bytes_data(*old(b)).len() >= 2,
    ensures
        r == u16_of(bytes_data(*old(b))[0], bytes_data(*old(b))[1]),
        bytes_data(*final(b)) == bytes_data(*old(b)).skip(2),
{
    b.get_u16()
}

/// Relies on `bytes::Buf::get_u32` for `Bytes`: reads the first four bytes
/// big-endian and advances past them; panics when fewer than four bytes are
/// left, which the precondition rules out.
#[verifier::external_body]
pub(crate) fn get_u32(b: &mut bytes::Bytes) -> (r: u32)
    requires
        bytes_data(*old(b)).len() >= 4,
    ensures
        r == u32_of(
            bytes_data(*old(b))[0],
            bytes_data(*old(b))[1],
            bytes_data(*old(b))[2],
            bytes_data(*old(b))[3],
        ),
        bytes_data(*final(b)) == bytes_data(*old(b)).skip(4),
{
    b.get_u32()
}

/// Relies on `bytes::Buf::copy_to_slice` for `Bytes`: fills the slice with
/// the next `n` bytes and advances past them; panics when fewer than `n`
/// bytes are left, which the precondition rules out.
#[verifier::external_body]
pub(crate) fn read_exact(b: &mut bytes::Bytes, n: usize) -> (r: Vec<u8>)
    requires
        n <= bytes_data(*old(b)).len(),
    ensures
        r@ == bytes_data(*old(b)).take(n as int),
        bytes_data(*final(b)) == bytes_data(*old(b)).skip(n as int),
{
    let mut v = vec![0u8; n];
    b.copy_to_slice(&mut v);
    v
}

/// Relies on `bytes::BufMut::put_u8` for `BytesMut`: appends the byte. It
/// panics when the sink cannot grow by one byte (`remaining_mut`, which for
/// `BytesMut` is `isize::MAX` less the length, is zero); the precondition
/// rules that out.
#[verifier::external_body]
pub(crate) fn put_u8(b: &mut bytes::BytesMut, v: u8)
    requires
        sink_data(*old(b)).len() + 1 <= (isize::MAX as usize),
    ensures
        sink_data(*final(b)) == sink_data(*old(b)).push(v),
{
    b.put_u8(v)
}

/// Relies on `bytes::BufMut::put_u16` for `BytesMut`: appends the value as
/// two big-endian bytes; panics when the sink cannot grow by two bytes,
/// which the precondition rules out.
#[verifier::external_body]
pub(crate) fn put_u16(b: &mut bytes::BytesMut, v: u16)
    requires
        sink_data(*old(b)).len() + 2 <= (isize::MAX as usize),
    ensures
        sink_data(*final(b)) == sink_data(*old(b)) + u16_bytes(v),
{
    b.put_u16(v)
}

/// Relies on `bytes::BufMut::put_u32` for `BytesMut`: appends the value as
/// four big-endian bytes; panics when the sink cannot grow by four bytes,
/// which the precondition rules out.
#[verifier::external_body]
pub(crate) fn put_u32(b: &mut bytes::BytesMut, v: u32)
    requires
        sink_data(*old(b)).len() + 4 <= (isize::MAX as usize),
    ensures
        sink_data(*final(b)) == sink_data(*old(b)) + u32_bytes(v),
{
    b.put_u32(v)
}

/// Relies on `bytes::BufMut::put_slice` for `BytesMut`: appends the slice's
/// bytes in order; panics when the sink cannot grow by that many bytes,
/// which the precondition rules out.
#[verifier::external_body]
pub(crate) fn put_slice(b: &mut bytes::BytesMut, s: &[u8])
    requires
        sink_data(*old(b)).len() + s@.len() <= (isize::MAX as usize),
    ensures
        sink_data(*final(b)) == sink_data(*old(b)) + s@,
{
    b.put_slice(s)
}

} // verus!
