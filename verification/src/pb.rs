//! Protobuf wire primitives: byte-level specifications of the varint and
//! length-delimited field encodings, and trusted wrappers around the
//! `prost` field encoders.

use vstd::prelude::*;

verus! {

/// The LEB128 encoding of a 64-bit value: seven bits per byte, low group
/// first, high bit set on every byte but the last.
pub open spec fn spec_varint(v: u64) -> Seq<u8>
    decreases v,
{
    if v < 0x80 {
        seq![v as u8]
    } else {
        seq![(((v % 0x80) + 0x80) as u8)] + spec_varint(v / 0x80)
    }
}

/// A field key: the field number shifted over the three wire-type bits.
pub open spec fn spec_pb_key(tag: u32, wire: u64) -> Seq<u8>
    recommends
        tag < 0x2000_0000,
        wire < 8,
{
    spec_varint((tag * 8 + wire) as u64)
}

/// A varint field: key, then the value.
pub open spec fn spec_pb_varint_field(tag: u32, v: u64) -> Seq<u8> {
    spec_pb_key(tag, 0) + spec_varint(v)
}

/// A length-delimited field: key, byte length, payload.  Carries bytes,
/// strings and embedded messages alike.
pub open spec fn spec_pb_len_field(tag: u32, payload: Seq<u8>) -> Seq<u8> {
    spec_pb_key(tag, 2) + spec_varint(payload.len() as u64) + payload
}

/// A 32-bit value sign-extended onto the 64-bit varint space, as the
/// `int32` scalar type puts it on the wire.
pub open spec fn sext32(v: i32) -> u64 {
    if v >= 0 {
        v as u64
    } else {
        (v + 0x1_0000_0000_0000_0000) as u64
    }
}

/// A 64-bit value reinterpreted as unsigned, as the `int64` scalar type
/// puts it on the wire.
pub open spec fn sext64(v: i64) -> u64 {
    if v >= 0 {
        v as u64
    } else {
        (v + 0x1_0000_0000_0000_0000) as u64
    }
}

/// The byte contents of a sequence of owned buffers.
pub open spec fn vecs_view(s: Seq<Vec<u8>>) -> Seq<Seq<u8>> {
    Seq::new(s.len(), |i: int| s[i]@)
}

/// A repeated length-delimited field: one key/length/payload group per
/// item, in order.
pub open spec fn spec_pb_repeated_len(tag: u32, items: Seq<Seq<u8>>) -> Seq<u8>
    decreases items.len(),
{
    if items.len() == 0 {
        Seq::empty()
    } else {
        spec_pb_repeated_len(tag, items.drop_last()) + spec_pb_len_field(tag, items.last())
    }
}

/// Relies on `prost::encoding::int32::encode`: a varint-wire key, then the
/// value sign-extended to 64 bits.
#[verifier::external_body]
pub(crate) fn pb_put_int32(buf: &mut Vec<u8>, tag: u32, v: i32)
    requires
        1 <= tag < 0x2000_0000,
    ensures
        final(buf)@ == old(buf)@ + spec_pb_varint_field(tag, sext32(v)),
{
    prost::encoding::int32::encode(tag, &v, buf);
}

/// Relies on `prost::encoding::int64::encode`: a varint-wire key, then the
/// value reinterpreted as unsigned.
#[verifier::external_body]
pub(crate) fn pb_put_int64(buf: &mut Vec<u8>, tag: u32, v: i64)
    requires
        1 <= tag < 0x2000_0000,
    ensures
        final(buf)@ == old(buf)@ + spec_pb_varint_field(tag, sext64(v)),
{
    prost::encoding::int64::encode(tag, &v, buf);
}

/// Relies on `prost::encoding::uint32::encode`: a varint-wire key, then
/// the value widened.
#[verifier::external_body]
pub(crate) fn pb_put_uint32(buf: &mut Vec<u8>, tag: u32, v: u32)
    requires
        1 <= tag < 0x2000_0000,
    ensures
        final(buf)@ == old(buf)@ + spec_pb_varint_field(tag, v as u64),
{
    prost::encoding::uint32::encode(tag, &v, buf);
}

/// Relies on `prost::encoding::uint64::encode`: a varint-wire key, then
/// the value.
#[verifier::external_body]
pub(crate) fn pb_put_uint64(buf: &mut Vec<u8>, tag: u32, v: u64)
    requires
        1 <= tag < 0x2000_0000,
    ensures
        final(buf)@ == old(buf)@ + spec_pb_varint_field(tag, v),
{
    prost::encoding::uint64::encode(tag, &v, buf);
}

/// Relies on `prost::encoding::bool::encode`: a varint-wire key, then 1
/// or 0.
#[verifier::external_body]
pub(crate) fn pb_put_bool(buf: &mut Vec<u8>, tag: u32, v: bool)
    requires
        1 <= tag < 0x2000_0000,
    ensures
        final(buf)@ == old(buf)@ + spec_pb_varint_field(
            tag,
            if v {
                1u64
            } else {
                0u64
            },
        ),
{
    prost::encoding::bool::encode(tag, &v, buf);
}

/// Relies on `prost::encoding::bytes::encode`: a length-delimited key, the
/// byte length as a varint, then the bytes.  Embedded messages share this
/// wire form.
#[verifier::external_body]
pub(crate) fn pb_put_bytes(buf: &mut Vec<u8>, tag: u32, v: &Vec<u8>)
    requires
        1 <= tag < 0x2000_0000,
    ensures
        final(buf)@ == old(buf)@ + spec_pb_len_field(tag, v@),
{
    prost::encoding::bytes::encode(tag, v, buf);
}

/// Append a repeated length-delimited field, one group per item in order.
pub fn pb_put_repeated_bytes(buf: &mut Vec<u8>, tag: u32, items: &Vec<Vec<u8>>)
    requires
        1 <= tag < 0x2000_0000,
    ensures
        final(buf)@ == old(buf)@ + spec_pb_repeated_len(tag, vecs_view(items@)),
{
    let ghost iv = vecs_view(items@);
    let ghost start = buf@;
    let mut i: usize = 0;
    proof {
        assert(spec_pb_repeated_len(tag, iv.take(0)) =~= Seq::<u8>::empty());
        assert(start + spec_pb_repeated_len(tag, iv.take(0)) =~= start);
    }
    while i < items.len()
        invariant
            1 <= tag < 0x2000_0000,
            i <= items@.len(),
            iv == vecs_view(items@),
            buf@ == start + spec_pb_repeated_len(tag, iv.take(i as int)),
        decreases items@.len() - i,
    {
        pb_put_bytes(buf, tag, &items[i]);
        proof {
            assert(iv.take(i + 1).drop_last() =~= iv.take(i as int));
            assert(iv.take(i + 1).last() == iv[i as int]);
        }
        i = i + 1;
    }
    proof {
        assert(iv.take(items@.len() as int) =~= iv);
    }
}

/// The four zero bytes that prefix a protobuf get-message payload as a
/// format discriminator inside a registration-proxy buffer.
pub open spec fn spec_zero4() -> Seq<u8> {
    seq![0u8, 0u8, 0u8, 0u8]
}

/// Prefix an encoded payload with the four-zero-byte format discriminator.
pub fn prepend_zero4(data: &Vec<u8>) -> (r: Vec<u8>)
    ensures
        r@ == spec_zero4() + data@,
{
    let mut r: Vec<u8> = Vec::new();
    r.push(0u8);
    r.push(0u8);
    r.push(0u8);
    r.push(0u8);
    let mut i: usize = 0;
    proof {
        assert(r@ =~= spec_zero4() + data@.subrange(0, 0));
    }
    while i < data.len()
        invariant
            i <= data@.len(),
            r@ == spec_zero4() + data@.subrange(0, i as int),
        decreases data@.len() - i,
    {
        r.push(data[i]);
        proof {
            assert(r@ =~= spec_zero4() + data@.subrange(0, i + 1));
        }
        i = i + 1;
    }
    proof {
        assert(data@.subrange(0, data@.len() as int) =~= data@);
    }
    r
}

} // verus!
