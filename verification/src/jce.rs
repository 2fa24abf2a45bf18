//! The JCE RPC envelope: byte-level specifications of the JCE primitive
//! encodings, trusted wrappers around the `jcers` writer, and the two-level
//! "named buffer map inside a versioned request packet" assembly.

use vstd::prelude::*;

verus! {

/// A JCE head byte (or pair): type nibble plus tag.
pub open spec fn spec_jce_head(t: u8, tag: u8) -> Seq<u8>
    recommends
        t < 16,
{
    if tag < 15 {
        seq![(t + tag * 16) as u8]
    } else {
        seq![(t + 0xf0) as u8, tag]
    }
}

/// A byte field: the zero-compressed form when the value is zero.
pub open spec fn spec_jce_u8(v: u8, tag: u8) -> Seq<u8> {
    if v == 0 {
        spec_jce_head(12, tag)
    } else {
        spec_jce_head(0, tag) + seq![v]
    }
}

/// The low byte of a 16-bit value, two's complement.
pub open spec fn u8_low_i16(v: i16) -> u8
    recommends
        -128 <= v <= 127,
{
    (if v >= 0 {
        v as nat
    } else {
        (v + 0x100) as nat
    }) as u8
}

/// A 16-bit value as its unsigned two's-complement image.
pub open spec fn u16_of_i16(v: i16) -> nat {
    if v >= 0 {
        v as nat
    } else {
        (v + 0x1_0000) as nat
    }
}

/// A 32-bit value as its unsigned two's-complement image.
pub open spec fn u32_of_i32(v: i32) -> nat {
    if v >= 0 {
        v as nat
    } else {
        (v + 0x1_0000_0000) as nat
    }
}

/// A 64-bit value as its unsigned two's-complement image.
pub open spec fn u64_of_i64(v: i64) -> nat {
    if v >= 0 {
        v as nat
    } else {
        (v + 0x1_0000_0000_0000_0000) as nat
    }
}

/// Two big-endian bytes.
pub open spec fn be2(n: nat) -> Seq<u8>
    recommends
        n < 0x1_0000,
{
    seq![(n / 0x100) as u8, (n % 0x100) as u8]
}

/// Four big-endian bytes.
pub open spec fn be4(n: nat) -> Seq<u8>
    recommends
        n < 0x1_0000_0000,
{
    seq![
        (n / 0x100_0000) as u8,
        ((n / 0x1_0000) % 0x100) as u8,
        ((n / 0x100) % 0x100) as u8,
        (n % 0x100) as u8,
    ]
}

/// Eight big-endian bytes.
pub open spec fn be8(n: nat) -> Seq<u8>
    recommends
        n < 0x1_0000_0000_0000_0000,
{
    seq![
        (n / 0x100_0000_0000_0000) as u8,
        ((n / 0x1_0000_0000_0000) % 0x100) as u8,
        ((n / 0x100_0000_0000) % 0x100) as u8,
        ((n / 0x1_0000_0000) % 0x100) as u8,
        ((n / 0x100_0000) % 0x100) as u8,
        ((n / 0x1_0000) % 0x100) as u8,
        ((n / 0x100) % 0x100) as u8,
        (n % 0x100) as u8,
    ]
}

/// A 16-bit integer field, with the small-value compression the format
/// prescribes.
pub open spec fn spec_jce_i16(v: i16, tag: u8) -> Seq<u8> {
    if -128 <= v <= 127 {
        spec_jce_u8(u8_low_i16(v), tag)
    } else {
        spec_jce_head(1, tag) + be2(u16_of_i16(v))
    }
}

/// A 32-bit integer field, compressed downward when it fits.
pub open spec fn spec_jce_i32(v: i32, tag: u8) -> Seq<u8> {
    if -0x8000 <= v <= 0x7fff {
        spec_jce_i16(v as i16, tag)
    } else {
        spec_jce_head(2, tag) + be4(u32_of_i32(v))
    }
}

/// A 64-bit integer field, compressed downward when it fits.
pub open spec fn spec_jce_i64(v: i64, tag: u8) -> Seq<u8> {
    if -0x8000_0000 <= v <= 0x7fff_ffff {
        spec_jce_i32(v as i32, tag)
    } else {
        spec_jce_head(3, tag) + be8(u64_of_i64(v))
    }
}

/// A string field: one-byte length below 256, four-byte length otherwise.
/// The long form carries the length through a 32-bit signed register, as
/// the writer does.
pub open spec fn spec_jce_string(s: Seq<u8>, tag: u8) -> Seq<u8> {
    if s.len() < 256 {
        spec_jce_head(6, tag) + seq![s.len() as u8] + s
    } else {
        spec_jce_head(7, tag) + be4(u32_of_i32(s.len() as i32)) + s
    }
}

/// A byte-array field: simple-list head, element-type head, compressed
/// length, raw bytes.
pub open spec fn spec_jce_bytes(b: Seq<u8>, tag: u8) -> Seq<u8> {
    spec_jce_head(13, tag) + spec_jce_head(0, 0) + spec_jce_i32(b.len() as i32, 0) + b
}

/// The elements of a list of 64-bit integers, each under tag 0.
pub open spec fn spec_jce_i64_elems(s: Seq<i64>) -> Seq<u8>
    decreases s.len(),
{
    if s.len() == 0 {
        Seq::empty()
    } else {
        spec_jce_i64_elems(s.drop_last()) + spec_jce_i64(s.last(), 0)
    }
}

/// A list field of 64-bit integers.
pub open spec fn spec_jce_i64_list(s: Seq<i64>, tag: u8) -> Seq<u8> {
    spec_jce_head(9, tag) + spec_jce_i32(s.len() as i32, 0) + spec_jce_i64_elems(s)
}

/// An empty string-to-string map field.
pub open spec fn spec_jce_empty_map(tag: u8) -> Seq<u8> {
    spec_jce_head(8, tag) + spec_jce_u8(0, 0)
}

/// The UTF-8 bytes of a string value.
pub open spec fn str_bytes(s: Seq<char>) -> Seq<u8> {
    vstd::utf8::encode_utf8(s)
}

/// Prepending nothing changes nothing; lets an accumulation that starts
/// from an empty writer meet a specification that starts with its first
/// field.
pub proof fn lemma_empty_prepend(s: Seq<u8>)
    ensures
        Seq::<u8>::empty() + s == s,
{
    assert(Seq::<u8>::empty() + s =~= s);
}

#[verifier::external_type_specification]
#[verifier::external_body]
pub struct ExJceMut(jcers::JceMut);

/// The bytes a JCE writer has accumulated so far.
pub uninterp spec fn jce_view(w: jcers::JceMut) -> Seq<u8>;

/// Relies on `jcers::JceMut::new`: a fresh writer holds no bytes.
#[verifier::external_body]
pub(crate) fn jce_new() -> (w: jcers::JceMut)
    ensures
        jce_view(w) == Seq::<u8>::empty(),
{
    jcers::JceMut::new()
}

/// Relies on `jcers::JceMut::put_head`: one head byte below tag 15, a pair
/// of bytes from tag 15 on.
#[verifier::external_body]
pub(crate) fn jce_put_head(w: &mut jcers::JceMut, t: u8, tag: u8)
    requires
        t < 16,
    ensures
        jce_view(*final(w)) == jce_view(*old(w)) + spec_jce_head(t, tag),
{
    w.put_head(t, tag);
}

/// Relies on `jcers::JceMut::put_u8`: zero-compressed byte field.
#[verifier::external_body]
pub(crate) fn jce_put_u8(w: &mut jcers::JceMut, v: u8, tag: u8)
    ensures
        jce_view(*final(w)) == jce_view(*old(w)) + spec_jce_u8(v, tag),
{
    w.put_u8(v, tag);
}

/// Relies on `jcers::JceMut::put_i16`: byte form when the value fits a
/// signed byte, head plus two big-endian bytes otherwise.
#[verifier::external_body]
pub(crate) fn jce_put_i16(w: &mut jcers::JceMut, v: i16, tag: u8)
    ensures
        jce_view(*final(w)) == jce_view(*old(w)) + spec_jce_i16(v, tag),
{
    w.put_i16(v, tag);
}

/// Relies on `jcers::JceMut::put_i32`: compressed downward when the value
/// fits a narrower integer form.
#[verifier::external_body]
pub(crate) fn jce_put_i32(w: &mut jcers::JceMut, v: i32, tag: u8)
    ensures
        jce_view(*final(w)) == jce_view(*old(w)) + spec_jce_i32(v, tag),
{
    w.put_i32(v, tag);
}

/// Relies on `jcers::JceMut::put_i64`: compressed downward when the value
/// fits a narrower integer form.
#[verifier::external_body]
pub(crate) fn jce_put_i64(w: &mut jcers::JceMut, v: i64, tag: u8)
    ensures
        jce_view(*final(w)) == jce_view(*old(w)) + spec_jce_i64(v, tag),
{
    w.put_i64(v, tag);
}

/// Relies on `jcers::JceMut::put_string`: length-prefixed UTF-8 bytes, with
/// a one-byte length below 256 bytes.
#[verifier::external_body]
pub(crate) fn jce_put_string(w: &mut jcers::JceMut, s: &str, tag: u8)
    ensures
        jce_view(*final(w)) == jce_view(*old(w)) + spec_jce_string(str_bytes(s@), tag),
{
    w.put_string(s.to_string(), tag);
}

/// Relies on `jcers::JceMut::put_bytes`: simple-list head, element-type
/// head, compressed length, raw bytes.
#[verifier::external_body]
pub(crate) fn jce_put_bytes(w: &mut jcers::JceMut, b: &[u8], tag: u8)
    ensures
        jce_view(*final(w)) == jce_view(*old(w)) + spec_jce_bytes(b@, tag),
{
    w.put_bytes(bytes::Bytes::copy_from_slice(b), tag);
}

/// Relies on `jcers::JceMut::put_list`: list head, compressed element
/// count, the elements in order under tag 0.
#[verifier::external_body]
pub(crate) fn jce_put_i64_list(w: &mut jcers::JceMut, v: &Vec<i64>, tag: u8)
    ensures
        jce_view(*final(w)) == jce_view(*old(w)) + spec_jce_i64_list(v@, tag),
{
    w.put_list(v.clone(), tag);
}

/// Relies on `jcers::JceMut::put_map`: a map head and a zero count when the
/// map is empty.
#[verifier::external_body]
pub(crate) fn jce_put_empty_strstr_map(w: &mut jcers::JceMut, tag: u8)
    ensures
        jce_view(*final(w)) == jce_view(*old(w)) + spec_jce_empty_map(tag),
{
    w.put_map(std::collections::HashMap::<String, String>::new(), tag);
}

/// Relies on `jcers::JceMut::freeze`: the writer hands out exactly the
/// bytes it accumulated.
#[verifier::external_body]
pub(crate) fn jce_freeze(w: jcers::JceMut) -> (r: Vec<u8>)
    ensures
        r@ == jce_view(w),
{
    w.freeze().to_vec()
}

/// The single leading and trailing marker bytes of delimited framing.
pub open spec fn spec_uni_request_data(data: Seq<u8>) -> Seq<u8> {
    seq![0x0Au8] + data + seq![0x0Bu8]
}

/// Wrap one encoded sub-structure with the `0x0A`/`0x0B` markers required
/// wherever a service expects "one of many sub-structures" framing.
pub fn pack_uni_request_data(data: &[u8]) -> (r: Vec<u8>)
    ensures
        r@ == spec_uni_request_data(data@),
{
    let mut r: Vec<u8> = Vec::new();
    r.push(0x0Au8);
    let mut i: usize = 0;
    while i < data.len()
        invariant
            i <= data@.len(),
            r@ == seq![0x0Au8] + data@.subrange(0, i as int),
        decreases data@.len() - i,
    {
        r.push(data[i]);
        proof {
            assert(r@ =~= seq![0x0Au8] + data@.subrange(0, i + 1));
        }
        i = i + 1;
    }
    r.push(0x0Bu8);
    proof {
        assert(r@ =~= spec_uni_request_data(data@));
    }
    r
}

/// One entry of the named-buffer map: a protocol-defined parameter name and
/// one structured-schema-encoded value.
pub struct BufferMapEntry {
    /// The protocol-defined parameter name.
    pub key: String,
    /// The encoded value, framed as the target service expects it.
    pub value: Vec<u8>,
}

/// The inner request-data record: a named-buffer map, serialised as the
/// map field under tag 0.  Entries are written in order; the wire form is
/// keyed, so the order carries no meaning, but writing it fixed keeps
/// builders byte-deterministic.
pub struct RequestDataVersion3 {
    /// The named buffers, each under its protocol-defined parameter name.
    pub entries: Vec<BufferMapEntry>,
}

/// The key/value byte contents of the named-buffer map entries.
pub open spec fn buffer_entries_view(entries: Seq<BufferMapEntry>) -> Seq<(Seq<char>, Seq<u8>)> {
    Seq::new(entries.len(), |i: int| (entries[i].key@, entries[i].value@))
}

/// The buffer map the entries denote, later entries shadowing earlier ones
/// as a keyed wire structure makes them.
pub open spec fn buffer_map_of(entries: Seq<(Seq<char>, Seq<u8>)>) -> Map<Seq<char>, Seq<u8>>
    decreases entries.len(),
{
    if entries.len() == 0 {
        Map::empty()
    } else {
        buffer_map_of(entries.drop_last()).insert(entries.last().0, entries.last().1)
    }
}

/// The encoded entries of the named-buffer map, in order: each key as a
/// string under tag 0, each value as bytes under tag 1.
pub open spec fn spec_buffer_map_elems(entries: Seq<(Seq<char>, Seq<u8>)>) -> Seq<u8>
    decreases entries.len(),
{
    if entries.len() == 0 {
        Seq::empty()
    } else {
        spec_buffer_map_elems(entries.drop_last()) + spec_jce_string(
            str_bytes(entries.last().0),
            0,
        ) + spec_jce_bytes(entries.last().1, 1)
    }
}

/// The encoded named-buffer map under `tag`.
pub open spec fn spec_buffer_map(entries: Seq<(Seq<char>, Seq<u8>)>, tag: u8) -> Seq<u8> {
    spec_jce_head(8, tag) + spec_jce_i32(entries.len() as i32, 0) + spec_buffer_map_elems(entries)
}

impl RequestDataVersion3 {
    /// Serialise the named-buffer map: the map field under tag 0.
    pub fn freeze(&self) -> (r: Vec<u8>)
        ensures
            r@ == spec_buffer_map(buffer_entries_view(self.entries@), 0),
    {
        let ghost ev = buffer_entries_view(self.entries@);
        let mut w = jce_new();
        jce_put_head(&mut w, 8, 0);
        proof {
            lemma_empty_prepend(spec_jce_head(8, 0));
        }
        let n = self.entries.len();
        jce_put_i32(&mut w, #[verifier::truncate] (n as i32), 0);
        let ghost prefix = spec_jce_head(8, 0) + spec_jce_i32(ev.len() as i32, 0);
        let mut i: usize = 0;
        proof {
            assert(spec_buffer_map_elems(ev.take(0)) =~= Seq::<u8>::empty());
            assert(jce_view(w) + spec_buffer_map_elems(ev.take(0)) =~= jce_view(w));
        }
        while i < n
            invariant
                n == self.entries@.len(),
                i <= n,
                ev == buffer_entries_view(self.entries@),
                prefix == spec_jce_head(8, 0) + spec_jce_i32(ev.len() as i32, 0),
                jce_view(w) == prefix + spec_buffer_map_elems(ev.take(i as int)),
            decreases n - i,
        {
            let entry = &self.entries[i];
            proof {
                assert(ev[i as int] == (entry.key@, entry.value@));
            }
            jce_put_string(&mut w, entry.key.as_str(), 0);
            jce_put_bytes(&mut w, entry.value.as_slice(), 1);
            proof {
                assert(ev.take(i + 1).drop_last() =~= ev.take(i as int));
                assert(ev.take(i + 1).last() == ev[i as int]);
                assert(jce_view(w) =~= prefix + spec_buffer_map_elems(ev.take(i + 1)));
            }
            i = i + 1;
        }
        proof {
            assert(ev.take(n as int) =~= ev);
        }
        jce_freeze(w)
    }
}

/// The outer versioned request packet of the JCE RPC envelope.  The
/// context and status maps the wire form carries are always empty in this
/// layer and are serialised as such.
pub struct RequestPacket {
    /// Envelope version; always 3 here.
    pub i_version: i16,
    /// Packet-type tag.
    pub c_packet_type: u8,
    /// Message-type tag.
    pub i_message_type: i32,
    /// Request id, drawn from the JCE sequencing counter or fixed by the
    /// target service.
    pub i_request_id: i32,
    /// Service identity the request routes to.
    pub s_servant_name: String,
    /// Method identity the request routes to.
    pub s_func_name: String,
    /// The serialised named-buffer map.
    pub s_buffer: Vec<u8>,
    /// Timeout tag; always 0 here.
    pub i_timeout: i32,
}

/// The encoded request packet: every field under its wire tag, in order,
/// the two trailing maps empty.
pub open spec fn spec_request_packet(
    i_version: i16,
    c_packet_type: u8,
    i_message_type: i32,
    i_request_id: i32,
    s_servant_name: Seq<char>,
    s_func_name: Seq<char>,
    s_buffer: Seq<u8>,
    i_timeout: i32,
) -> Seq<u8> {
    spec_jce_i16(i_version, 1) + spec_jce_u8(c_packet_type, 2) + spec_jce_i32(i_message_type, 3)
        + spec_jce_i32(i_request_id, 4) + spec_jce_string(str_bytes(s_servant_name), 5)
        + spec_jce_string(str_bytes(s_func_name), 6) + spec_jce_bytes(s_buffer, 7) + spec_jce_i32(
        i_timeout,
        8,
    ) + spec_jce_empty_map(9) + spec_jce_empty_map(10)
}

impl RequestPacket {
    /// The encoded form of this packet.
    pub open spec fn spec_bytes(&self) -> Seq<u8> {
        spec_request_packet(
            self.i_version,
            self.c_packet_type,
            self.i_message_type,
            self.i_request_id,
            self.s_servant_name@,
            self.s_func_name@,
            self.s_buffer@,
            self.i_timeout,
        )
    }

    /// Serialise the request packet field by field.
    pub fn freeze(&self) -> (r: Vec<u8>)
        ensures
            r@ == self.spec_bytes(),
    {
        let mut w = jce_new();
        jce_put_i16(&mut w, self.i_version, 1);
        proof {
            lemma_empty_prepend(spec_jce_i16(self.i_version, 1));
        }
        jce_put_u8(&mut w, self.c_packet_type, 2);
        jce_put_i32(&mut w, self.i_message_type, 3);
        jce_put_i32(&mut w, self.i_request_id, 4);
        jce_put_string(&mut w, self.s_servant_name.as_str(), 5);
        jce_put_string(&mut w, self.s_func_name.as_str(), 6);
        jce_put_bytes(&mut w, self.s_buffer.as_slice(), 7);
        jce_put_i32(&mut w, self.i_timeout, 8);
        jce_put_empty_strstr_map(&mut w, 9);
        jce_put_empty_strstr_map(&mut w, 10);
        jce_freeze(w)
    }
}

/// In a named-buffer map whose keys are distinct, the buffer inserted for a
/// key is exactly the value the map holds for it: wrapping a payload with
/// the delimiter markers and inserting it under a key makes the map's value
/// for that key exactly `0x0A ++ payload ++ 0x0B`.
pub proof fn lemma_buffer_map_holds_entry(entries: Seq<(Seq<char>, Seq<u8>)>, i: int)
    requires
        0 <= i < entries.len(),
        forall|j: int, k: int|
            0 <= j && j < k && k < entries.len() ==> (#[trigger] entries[j]).0 != (
            #[trigger] entries[k]).0,
    ensures
        buffer_map_of(entries).dom().contains(entries[i].0),
        buffer_map_of(entries)[entries[i].0] == entries[i].1,
    decreases entries.len(),
{
    if i == entries.len() - 1 {
    } else {
        lemma_buffer_map_holds_entry(entries.drop_last(), i);
        assert(entries.drop_last()[i] == entries[i]);
        assert(entries[i].0 != entries.last().0);
    }
}

/// Delimited framing, end to end: wrap a payload with the `0x0A`/`0x0B`
/// markers and insert it into a named-buffer map under a key no other
/// entry uses, and the map's value for that key is exactly
/// `0x0A ++ payload ++ 0x0B`.
pub proof fn lemma_delimited_framing(entries: Seq<(Seq<char>, Seq<u8>)>, i: int, payload: Seq<u8>)
    requires
        0 <= i < entries.len(),
        entries[i].1 == spec_uni_request_data(payload),
        forall|j: int, k: int|
            0 <= j && j < k && k < entries.len() ==> (#[trigger] entries[j]).0 != (
            #[trigger] entries[k]).0,
    ensures
        buffer_map_of(entries)[entries[i].0] == seq![0x0Au8] + payload + seq![0x0Bu8],
{
    lemma_buffer_map_holds_entry(entries, i);
}

} // verus!
