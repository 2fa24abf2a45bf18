//! Binary primitive codec: length-prefixed string, length-prefixed short
//! byte array, and tag-length-value map extraction over a byte cursor.

use vstd::prelude::*;

use std::collections::HashMap;

use crate::errors::DecodeError;

verus! {

broadcast use vstd::std_specs::hash::group_hash_axioms;

/// Big-endian value of two bytes.
pub open spec fn be16(b: Seq<u8>) -> nat
    recommends
        b.len() == 2,
{
    (b[0] as nat) * 0x100 + (b[1] as nat)
}

/// Big-endian value of four bytes, unsigned.
pub open spec fn be32(b: Seq<u8>) -> nat
    recommends
        b.len() == 4,
{
    (b[0] as nat) * 0x100_0000 + (b[1] as nat) * 0x1_0000 + (b[2] as nat) * 0x100 + (b[3] as nat)
}

/// Big-endian value of four bytes, read as a signed 32-bit integer.
pub open spec fn be32_signed(b: Seq<u8>) -> int
    recommends
        b.len() == 4,
{
    if be32(b) >= 0x8000_0000 {
        be32(b) - 0x1_0000_0000
    } else {
        be32(b) as int
    }
}

/// The tag at the head of `b`, read over `w` bytes and narrowed to 16 bits.
pub open spec fn tlv_tag(b: Seq<u8>, w: int) -> u16
    recommends
        b.len() >= w,
        w == 1 || w == 2 || w == 4,
{
    if w == 1 {
        b[0] as u16
    } else if w == 2 {
        be16(b.take(2)) as u16
    } else {
        (be32(b.take(4)) % 0x1_0000) as u16
    }
}

/// What `read_string` decodes from the head of `b`: on success, the decoded
/// characters and the bytes left over.  The 4-byte big-endian length
/// includes the length bytes themselves.
pub open spec fn spec_read_string(b: Seq<u8>) -> Result<(Seq<char>, Seq<u8>), DecodeError> {
    if b.len() < 4 {
        Err(DecodeError::Truncated)
    } else {
        let len = be32_signed(b.take(4));
        if len < 4 {
            Err(DecodeError::InvalidLength)
        } else if b.len() < len {
            Err(DecodeError::Truncated)
        } else if !vstd::utf8::valid_utf8(b.subrange(4, len)) {
            Err(DecodeError::InvalidText)
        } else {
            Ok((vstd::utf8::decode_utf8(b.subrange(4, len)), b.skip(len)))
        }
    }
}

/// What `read_bytes_short` decodes from the head of `b`: on success, the
/// declared bytes and the bytes left over.  The 2-byte big-endian length
/// counts the value bytes only.
pub open spec fn spec_read_bytes_short(b: Seq<u8>) -> Result<(Seq<u8>, Seq<u8>), DecodeError> {
    if b.len() < 2 {
        Err(DecodeError::Truncated)
    } else {
        let len = be16(b.take(2)) as int;
        if b.len() < 2 + len {
            Err(DecodeError::Truncated)
        } else {
            Ok((b.subrange(2, 2 + len), b.skip(2 + len)))
        }
    }
}

/// What `read_tlv_map` decodes from `b` with tag width `w`, having already
/// accumulated `acc`: on success, the final map and the bytes left over.
/// A tag of 255 terminates the walk with the tag consumed; fewer than `w`
/// bytes left terminate it with nothing consumed; a length field or value
/// that overruns the buffer is a truncation fault.
pub open spec fn spec_tlv(b: Seq<u8>, w: int, acc: Map<u16, Seq<u8>>) -> Result<
    (Map<u16, Seq<u8>>, Seq<u8>),
    DecodeError,
>
    decreases b.len(),
{
    if w < 1 {
        Err(DecodeError::UnsupportedTagWidth)
    } else if b.len() < w {
        Ok((acc, b))
    } else {
        let tag = tlv_tag(b, w);
        if tag == 255 {
            Ok((acc, b.skip(w)))
        } else if b.len() < w + 2 {
            Err(DecodeError::Truncated)
        } else {
            let len = be16(b.subrange(w, w + 2)) as int;
            if b.len() < w + 2 + len {
                Err(DecodeError::Truncated)
            } else {
                spec_tlv(b.skip(w + 2 + len), w, acc.insert(tag, b.subrange(w + 2, w + 2 + len)))
            }
        }
    }
}

/// The byte contents of a decoded TLV map.
pub open spec fn tlv_map_view(m: &HashMap<u16, Vec<u8>>) -> Map<u16, Seq<u8>> {
    Map::new(|t: u16| m@.dom().contains(t), |t: u16| m@[t]@)
}

/// A capability interface over any byte-cursor abstraction: the three
/// decode primitives of this protocol family.
pub trait BinaryReader {
    /// The bytes not yet consumed.
    spec fn rem(&self) -> Seq<u8>;

    /// Read a length-prefixed UTF-8 string.  The 4-byte big-endian length
    /// includes the length bytes themselves.  On any fault the cursor is
    /// left unchanged.
    fn read_string(&mut self) -> (r: Result<String, DecodeError>)
        ensures
            match spec_read_string(old(self).rem()) {
                Ok(p) => r matches Ok(s) && s@ == p.0 && final(self).rem() == p.1,
                Err(e) => r matches Err(e2) && e2 == e && final(self).rem() == old(self).rem(),
            },
    ;

    /// Read a length-prefixed short byte array.  The 2-byte big-endian
    /// length counts the value bytes only.  On a fault the cursor is left
    /// unchanged.
    fn read_bytes_short(&mut self) -> (r: Result<Vec<u8>, DecodeError>)
        ensures
            match spec_read_bytes_short(old(self).rem()) {
                Ok(p) => r matches Ok(v) && v@ == p.0 && final(self).rem() == p.1,
                Err(e) => r matches Err(e2) && e2 == e && final(self).rem() == old(self).rem(),
            },
    ;

    /// Read a tag-length-value map with a tag width of 1, 2 or 4 bytes; any
    /// other width is rejected eagerly.  A tag of 255 is a terminator; a
    /// walk that runs out of tag bytes stops softly.  On a fault the cursor
    /// is left unchanged.
    fn read_tlv_map(&mut self, tag_size: usize) -> (r: Result<HashMap<u16, Vec<u8>>, DecodeError>)
        ensures
            !(tag_size == 1 || tag_size == 2 || tag_size == 4) ==> (r matches Err(e) && e
                == DecodeError::UnsupportedTagWidth && final(self).rem() == old(self).rem()),
            (tag_size == 1 || tag_size == 2 || tag_size == 4) ==> match spec_tlv(
                old(self).rem(),
                tag_size as int,
                Map::empty(),
            ) {
                Ok(p) => r matches Ok(m) && tlv_map_view(&m) == p.0 && final(self).rem() == p.1,
                Err(e) => r matches Err(e2) && e2 == e && final(self).rem() == old(self).rem(),
            },
    ;
}

/// A byte cursor over an owned buffer: the bytes from `pos` on are the ones
/// not yet consumed.
pub struct ByteCursor {
    /// The whole buffer.
    pub data: Vec<u8>,
    /// How many bytes have been consumed.
    pub pos: usize,
}

impl ByteCursor {
    /// A cursor over the whole of `data`.
    pub fn new(data: Vec<u8>) -> (r: ByteCursor)
        ensures
            r.rem() == data@,
    {
        let r = ByteCursor { data, pos: 0 };
        proof {
            assert(r.rem() =~= r.data@);
        }
        r
    }
}

/// Copy `data[from..to]` into an owned buffer.
fn copy_range(data: &Vec<u8>, from: usize, to: usize) -> (r: Vec<u8>)
    requires
        from <= to,
        to <= data@.len(),
    ensures
        r@ == data@.subrange(from as int, to as int),
{
    let mut r: Vec<u8> = Vec::new();
    let mut i: usize = from;
    while i < to
        invariant
            from <= i <= to,
            to <= data@.len(),
            r@ == data@.subrange(from as int, i as int),
        decreases to - i,
    {
        r.push(data[i]);
        proof {
            assert(r@ =~= data@.subrange(from as int, i + 1));
        }
        i = i + 1;
    }
    r
}

impl BinaryReader for ByteCursor {
    open spec fn rem(&self) -> Seq<u8> {
        if self.pos <= self.data@.len() {
            self.data@.skip(self.pos as int)
        } else {
            Seq::empty()
        }
    }

    fn read_string(&mut self) -> (r: Result<String, DecodeError>) {
        let ghost b = self.rem();
        if self.pos > self.data.len() || self.data.len() - self.pos < 4 {
            return Err(DecodeError::Truncated);
        }
        let p = self.pos;
        let raw: u32 = (self.data[p] as u32) * 0x100_0000 + (self.data[p + 1] as u32) * 0x1_0000 + (
        self.data[p + 2] as u32) * 0x100 + (self.data[p + 3] as u32);
        proof {
            assert(b.take(4) =~= self.data@.subrange(p as int, p + 4));
            assert(be32(b.take(4)) == raw);
        }
        if raw >= 0x8000_0000u32 || raw < 4 {
            return Err(DecodeError::InvalidLength);
        }
        let len = raw as usize;
        if self.data.len() - self.pos < len {
            return Err(DecodeError::Truncated);
        }
        let payload = copy_range(&self.data, p + 4, p + len);
        proof {
            assert(payload@ =~= b.subrange(4, len as int));
        }
        match utf8_to_string(payload) {
            Some(s) => {
                self.pos = p + len;
                proof {
                    assert(self.rem() =~= b.skip(len as int));
                }
                Ok(s)
            },
            None => Err(DecodeError::InvalidText),
        }
    }

    fn read_bytes_short(&mut self) -> (r: Result<Vec<u8>, DecodeError>) {
        let ghost b = self.rem();
        if self.pos > self.data.len() || self.data.len() - self.pos < 2 {
            return Err(DecodeError::Truncated);
        }
        let p = self.pos;
        let len: usize = (self.data[p] as usize) * 0x100 + (self.data[p + 1] as usize);
        proof {
            assert(b.take(2) =~= self.data@.subrange(p as int, p + 2));
            assert(be16(b.take(2)) == len);
        }
        if self.data.len() - self.pos - 2 < len {
            return Err(DecodeError::Truncated);
        }
        let v = copy_range(&self.data, p + 2, p + 2 + len);
        self.pos = p + 2 + len;
        proof {
            assert(v@ =~= b.subrange(2, 2 + len));
            assert(self.rem() =~= b.skip(2 + len));
        }
        Ok(v)
    }

    fn read_tlv_map(&mut self, tag_size: usize) -> (r: Result<HashMap<u16, Vec<u8>>, DecodeError>) {
        if !(tag_size == 1 || tag_size == 2 || tag_size == 4) {
            return Err(DecodeError::UnsupportedTagWidth);
        }
        let ghost b0 = self.rem();
        let w = tag_size;
        if self.pos > self.data.len() {
            let m: HashMap<u16, Vec<u8>> = HashMap::new();
            proof {
                assert(b0 =~= Seq::<u8>::empty());
                assert(tlv_map_view(&m) =~= Map::<u16, Seq<u8>>::empty());
            }
            return Ok(m);
        }
        let mut m: HashMap<u16, Vec<u8>> = HashMap::new();
        let mut p = self.pos;
        proof {
            assert(tlv_map_view(&m) =~= Map::<u16, Seq<u8>>::empty());
            assert(self.data@.skip(p as int) =~= b0);
        }
        loop
            invariant
                w == 1 || w == 2 || w == 4,
                w == tag_size,
                b0 == old(self).rem(),
                self.pos <= p <= self.data@.len(),
                spec_tlv(b0, w as int, Map::empty()) == spec_tlv(
                    self.data@.skip(p as int),
                    w as int,
                    tlv_map_view(&m),
                ),
                self.rem() == b0,
                vstd::std_specs::hash::obeys_key_model::<u16>(),
            decreases self.data@.len() - p,
        {
            let ghost b = self.data@.skip(p as int);
            let ghost acc = tlv_map_view(&m);
            let n = self.data.len() - p;
            if n < w {
                self.pos = p;
                proof {
                    assert(self.rem() =~= b);
                }
                return Ok(m);
            }
            let tag: u16 = if w == 1 {
                self.data[p] as u16
            } else if w == 2 {
                (self.data[p] as u16) * 0x100 + (self.data[p + 1] as u16)
            } else {
                let v32: u32 = (self.data[p] as u32) * 0x100_0000 + (self.data[p + 1] as u32)
                    * 0x1_0000 + (self.data[p + 2] as u32) * 0x100 + (self.data[p + 3] as u32);
                (v32 % 0x1_0000) as u16
            };
            proof {
                if w == 2 {
                    assert(b.take(2) =~= self.data@.subrange(p as int, p + 2));
                } else if w == 4 {
                    assert(b.take(4) =~= self.data@.subrange(p as int, p + 4));
                }
                assert(tlv_tag(b, w as int) == tag);
            }
            if tag == 255 {
                self.pos = p + w;
                proof {
                    assert(self.rem() =~= b.skip(w as int));
                }
                return Ok(m);
            }
            if n < w + 2 {
                return Err(DecodeError::Truncated);
            }
            let len: usize = (self.data[p + w] as usize) * 0x100 + (self.data[p + w + 1] as usize);
            proof {
                assert(b.subrange(w as int, w + 2) =~= self.data@.subrange(p + w, p + w + 2));
                assert(be16(b.subrange(w as int, w + 2)) == len);
            }
            if n - w - 2 < len {
                return Err(DecodeError::Truncated);
            }
            let v = copy_range(&self.data, p + w + 2, p + w + 2 + len);
            proof {
                assert(v@ =~= b.subrange(w + 2, w + 2 + len));
            }
            m.insert(tag, v);
            p = p + w + 2 + len;
            proof {
                assert(tlv_map_view(&m) =~= acc.insert(tag, v@));
                assert(self.data@.skip(p as int) =~= b.skip(w + 2 + len));
            }
        }
    }
}

/// The `w`-byte big-endian encoding of a tag.
pub open spec fn tlv_tag_bytes(tag: u16, w: int) -> Seq<u8>
    recommends
        w == 1 || w == 2 || w == 4,
        w == 1 ==> tag < 0x100,
{
    if w == 1 {
        seq![tag as u8]
    } else if w == 2 {
        seq![(tag / 0x100) as u8, (tag % 0x100) as u8]
    } else {
        seq![0u8, 0u8, (tag / 0x100) as u8, (tag % 0x100) as u8]
    }
}

/// One well-formed TLV entry on the wire: tag, 2-byte big-endian length,
/// value bytes.
pub open spec fn spec_tlv_encode_entry(tag: u16, v: Seq<u8>, w: int) -> Seq<u8>
    recommends
        v.len() <= 0xffff,
{
    tlv_tag_bytes(tag, w) + seq![
        ((v.len() as nat) / 0x100) as u8,
        ((v.len() as nat) % 0x100) as u8,
    ] + v
}

/// A sequence of well-formed TLV entries on the wire, in order.
pub open spec fn spec_tlv_encode(entries: Seq<(u16, Seq<u8>)>, w: int) -> Seq<u8>
    decreases entries.len(),
{
    if entries.len() == 0 {
        Seq::empty()
    } else {
        spec_tlv_encode_entry(entries[0].0, entries[0].1, w) + spec_tlv_encode(
            entries.drop_first(),
            w,
        )
    }
}

/// Entries that can stand on the wire at tag width `w`: no entry uses the
/// reserved terminator tag, every value fits its 16-bit length field, and a
/// 1-byte tag fits one byte.
pub open spec fn tlv_entries_wf(entries: Seq<(u16, Seq<u8>)>, w: int) -> bool {
    forall|i: int|
        0 <= i < entries.len() ==> (#[trigger] entries[i]).0 != 255 && entries[i].1.len() <= 0xffff
            && (w == 1 ==> entries[i].0 < 0x100)
}

/// The map the entries denote: each inserted in order over `acc`.
pub open spec fn tlv_entries_map(acc: Map<u16, Seq<u8>>, entries: Seq<(u16, Seq<u8>)>) -> Map<
    u16,
    Seq<u8>,
>
    decreases entries.len(),
{
    if entries.len() == 0 {
        acc
    } else {
        tlv_entries_map(acc.insert(entries[0].0, entries[0].1), entries.drop_first())
    }
}

/// No two entries share a tag.
pub open spec fn tlv_tags_distinct(entries: Seq<(u16, Seq<u8>)>) -> bool {
    forall|i: int, j: int|
        0 <= i && i < j && j < entries.len() ==> (#[trigger] entries[i]).0 != (
        #[trigger] entries[j]).0
}

#[verifier::rlimit(100)]
proof fn lemma_tlv_parses_encoded(
    entries: Seq<(u16, Seq<u8>)>,
    w: int,
    stop: Seq<u8>,
    acc: Map<u16, Seq<u8>>,
)
    requires
        w == 1 || w == 2 || w == 4,
        tlv_entries_wf(entries, w),
        stop.len() < w || tlv_tag(stop, w) == 255,
    ensures
        spec_tlv(spec_tlv_encode(entries, w) + stop, w, acc) == Ok::<
            (Map<u16, Seq<u8>>, Seq<u8>),
            DecodeError,
        >(
            (
                tlv_entries_map(acc, entries),
                if stop.len() < w {
                    stop
                } else {
                    stop.skip(w)
                },
            ),
        ),
    decreases entries.len(),
{
    let b = spec_tlv_encode(entries, w) + stop;
    if entries.len() == 0 {
        assert(spec_tlv_encode(entries, w) =~= Seq::<u8>::empty());
        assert(b =~= stop);
    } else {
        let tag = entries[0].0;
        let v = entries[0].1;
        let e = spec_tlv_encode_entry(tag, v, w);
        let rest = spec_tlv_encode(entries.drop_first(), w) + stop;
        assert(b =~= e + rest);
        let n = v.len() as nat;
        assert(e.len() == w + 2 + v.len());
        assert(tag / 0x100 < 0x100 && n / 0x100 < 0x100) by (nonlinear_arith)
            requires
                tag <= 0xffffu16,
                n <= 0xffff,
        {}
        vstd::arithmetic::div_mod::lemma_fundamental_div_mod(tag as int, 0x100);
        vstd::arithmetic::div_mod::lemma_fundamental_div_mod(n as int, 0x100);
        if w == 1 {
            assert(tlv_tag(b, w) == tag);
        } else if w == 2 {
            assert(b.take(2) =~= tlv_tag_bytes(tag, w));
            assert(be16(b.take(2)) == tag);
        } else {
            assert(b.take(4) =~= tlv_tag_bytes(tag, w));
            assert(be32(b.take(4)) == tag);
            assert((tag as nat) % 0x1_0000 == tag as nat) by (nonlinear_arith)
                requires
                    tag <= 0xffffu16,
            {}
        }
        assert(tlv_tag(b, w) == tag);
        assert(b.subrange(w, w + 2) =~= seq![(n / 0x100) as u8, (n % 0x100) as u8]);
        assert(be16(b.subrange(w, w + 2)) == n);
        assert(b.subrange(w + 2, w + 2 + n) =~= v);
        assert(b.skip(w + 2 + n) =~= rest);
        assert(tlv_entries_wf(entries.drop_first(), w));
        lemma_tlv_parses_encoded(entries.drop_first(), w, stop, acc.insert(tag, v));
    }
}

/// For every tag width in {1, 2, 4} and any well-formed entry sequence, an
/// input of the encoded entries followed by the terminator tag 255 and then
/// arbitrary trailing bytes decodes to exactly the encoded entries, and
/// consumption stops right after the terminator: the trailing bytes are
/// left over untouched.
pub proof fn lemma_tlv_map_stops_at_terminator(entries: Seq<(u16, Seq<u8>)>, w: int, tail: Seq<u8>)
    requires
        w == 1 || w == 2 || w == 4,
        tlv_entries_wf(entries, w),
    ensures
        spec_tlv(spec_tlv_encode(entries, w) + tlv_tag_bytes(255, w) + tail, w, Map::empty())
            == Ok::<(Map<u16, Seq<u8>>, Seq<u8>), DecodeError>(
            (tlv_entries_map(Map::empty(), entries), tail),
        ),
{
    let stop = tlv_tag_bytes(255, w) + tail;
    if w == 2 {
        assert(stop.take(2) =~= tlv_tag_bytes(255, w));
        assert(be16(stop.take(2)) == 255);
    } else if w == 4 {
        assert(stop.take(4) =~= tlv_tag_bytes(255, w));
        assert(be32(stop.take(4)) == 255);
    }
    assert(tlv_tag(stop, w) == 255);
    assert(spec_tlv_encode(entries, w) + tlv_tag_bytes(255, w) + tail =~= spec_tlv_encode(
        entries,
        w,
    ) + stop);
    lemma_tlv_parses_encoded(entries, w, stop, Map::empty());
    assert(stop.skip(w) =~= tail);
}

/// For an input whose remaining bytes drop below the tag width right after
/// the encoded entries, decoding returns the entries accumulated so far
/// without error, and leaves the short tail unconsumed.
pub proof fn lemma_tlv_map_soft_stop(entries: Seq<(u16, Seq<u8>)>, w: int, short: Seq<u8>)
    requires
        w == 1 || w == 2 || w == 4,
        tlv_entries_wf(entries, w),
        short.len() < w,
    ensures
        spec_tlv(spec_tlv_encode(entries, w) + short, w, Map::empty()) == Ok::<
            (Map<u16, Seq<u8>>, Seq<u8>),
            DecodeError,
        >((tlv_entries_map(Map::empty(), entries), short)),
{
    lemma_tlv_parses_encoded(entries, w, short, Map::empty());
}

/// When the entries carry pairwise distinct tags, the decoded map holds
/// exactly those entries: each tag maps to its value, a tag is in the map
/// only if some entry (or the starting accumulator) put it there, and a
/// starting binding no entry shadows is kept.
pub proof fn lemma_tlv_entries_map_exact(acc: Map<u16, Seq<u8>>, entries: Seq<(u16, Seq<u8>)>)
    requires
        tlv_tags_distinct(entries),
    ensures
        forall|t: u16|
            tlv_entries_map(acc, entries).dom().contains(t) <==> (acc.dom().contains(t) || exists|
                i: int,
            |
                0 <= i < entries.len() && (#[trigger] entries[i]).0 == t),
        forall|i: int|
            0 <= i < entries.len() ==> tlv_entries_map(acc, entries)[(#[trigger] entries[i]).0]
                == entries[i].1,
        forall|t: u16|
            acc.dom().contains(t) && !(exists|i: int|
                0 <= i < entries.len() && (#[trigger] entries[i]).0 == t) ==> tlv_entries_map(
                acc,
                entries,
            )[t] == acc[t],
    decreases entries.len(),
{
    if entries.len() > 0 {
        let t0 = entries[0].0;
        let v0 = entries[0].1;
        let acc2 = acc.insert(t0, v0);
        let rest = entries.drop_first();
        assert(tlv_tags_distinct(rest)) by {
            assert forall|i: int, j: int| 0 <= i && i < j && j < rest.len() implies (
            #[trigger] rest[i]).0 != (#[trigger] rest[j]).0 by {
                assert(rest[i] == entries[i + 1]);
                assert(rest[j] == entries[j + 1]);
            }
        }
        lemma_tlv_entries_map_exact(acc2, rest);
        assert forall|i: int| 0 <= i < entries.len() implies tlv_entries_map(acc, entries)[(
        #[trigger] entries[i]).0] == entries[i].1 by {
            if i == 0 {
                assert(!(exists|j: int| 0 <= j < rest.len() && (#[trigger] rest[j]).0 == t0)) by {
                    if exists|j: int| 0 <= j < rest.len() && (#[trigger] rest[j]).0 == t0 {
                        let j = choose|j: int| 0 <= j < rest.len() && (#[trigger] rest[j]).0 == t0;
                        assert(rest[j] == entries[j + 1]);
                        assert(entries[j + 1].0 == entries[0].0);
                        assert(false);
                    }
                }
                assert(acc2.dom().contains(t0));
                assert(tlv_entries_map(acc2, rest)[t0] == acc2[t0]);
            } else {
                assert(rest[i - 1] == entries[i]);
            }
        }
        assert forall|t: u16|
            acc.dom().contains(t) && !(exists|i: int|
                0 <= i < entries.len() && (#[trigger] entries[i]).0 == t) implies tlv_entries_map(
            acc,
            entries,
        )[t] == acc[t] by {
            assert(entries[0].0 != t);
            assert(t != t0);
            assert(!(exists|j: int| 0 <= j < rest.len() && (#[trigger] rest[j]).0 == t)) by {
                if exists|j: int| 0 <= j < rest.len() && (#[trigger] rest[j]).0 == t {
                    let j = choose|j: int| 0 <= j < rest.len() && (#[trigger] rest[j]).0 == t;
                    assert(rest[j] == entries[j + 1]);
                    assert(false);
                }
            }
            assert(acc2.dom().contains(t));
            assert(tlv_entries_map(acc2, rest)[t] == acc2[t]);
        }
        assert forall|t: u16|
            tlv_entries_map(acc, entries).dom().contains(t) <==> (acc.dom().contains(t) || exists|
                i: int,
            |
                0 <= i < entries.len() && (#[trigger] entries[i]).0 == t) by {
            if acc2.dom().contains(t) || exists|j: int|
                0 <= j < rest.len() && (#[trigger] rest[j]).0 == t {
                if acc.dom().contains(t) || t == t0 {
                } else {
                    let j = choose|j: int| 0 <= j < rest.len() && (#[trigger] rest[j]).0 == t;
                    assert(rest[j] == entries[j + 1]);
                    assert(entries[j + 1].0 == t);
                }
            }
            if exists|i: int| 0 <= i < entries.len() && (#[trigger] entries[i]).0 == t {
                let i = choose|i: int| 0 <= i < entries.len() && (#[trigger] entries[i]).0 == t;
                if i > 0 {
                    assert(rest[i - 1] == entries[i]);
                    assert(exists|j: int| 0 <= j < rest.len() && (#[trigger] rest[j]).0 == t);
                }
            }
        }
    }
}

/// Relies on `String::from_utf8`: it returns `Ok` exactly when the bytes
/// are valid UTF-8, and the resulting string decodes those bytes.
#[verifier::external_body]
fn utf8_to_string(b: Vec<u8>) -> (r: Option<String>)
    ensures
        r is Some <==> vstd::utf8::valid_utf8(b@),
        r matches Some(s) ==> s@ == vstd::utf8::decode_utf8(b@),
{
    String::from_utf8(b).ok()
}

} // verus!
