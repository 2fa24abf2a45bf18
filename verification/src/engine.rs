//! Session state shared by all request builders: the authenticated user id,
//! the per-session signature material, the device descriptors, and the three
//! independent sequencing counters.

use vstd::prelude::*;

use crate::packet::{EncryptType, EncryptionMethod, OicqMessage, Packet, PacketType};

verus! {

/// Session signature material, written by the authentication subsystem and
/// only read here.
pub struct Sig {
    /// Device guid.
    pub guid: Vec<u8>,
    /// Opaque server-issued cursor for message synchronisation.
    pub sync_cookie: Vec<u8>,
    /// Opaque cursor for public-account messages.
    pub pub_account_cookie: Vec<u8>,
}

/// Version descriptors of the emulated device system.
pub struct DeviceVersion {
    /// SDK version number.
    pub sdk: u32,
    /// OS release string.
    pub release: String,
}

/// Descriptors of the emulated device.
pub struct Device {
    /// Device model, reported as both device name and device type.
    pub model: String,
    /// Device vendor name.
    pub vendor_name: String,
    /// Vendor OS name.
    pub vendor_os_name: String,
    /// System version descriptors.
    pub version: DeviceVersion,
}

/// Client version descriptors.
pub struct ClientVersion {
    /// Application id reported to OIDB services.
    pub app_id: u32,
}

/// The read-mostly session state a builder consults besides the counters.
pub struct Transport {
    /// Session signature material.
    pub sig: Sig,
    /// Emulated device descriptors.
    pub device: Device,
    /// Client version descriptors.
    pub version: ClientVersion,
}

/// The transport sequence counter after one draw: 16-bit space, wraps.
pub open spec fn next_seq16(s: u16) -> u16 {
    if s == 0xffff {
        0u16
    } else {
        (s + 1) as u16
    }
}

/// A 32-bit counter after one draw of two: wraps at the signed boundary.
pub open spec fn next_seq32(s: i32) -> i32 {
    if s <= 0x7fff_fffd {
        (s + 2) as i32
    } else {
        (s + 2 - 0x1_0000_0000) as i32
    }
}

/// The value of the `k`-th transport sequence id drawn after state `s`
/// (the first draw is `k == 0`).
pub open spec fn seq16_draw(s: u16, k: nat) -> u16 {
    (((s + 1 + k) as nat) % 0x10000) as u16
}

/// The packet-construction engine of one connected session.  Counters are
/// drawn through exclusive access; each draw is a single fetch-and-increment
/// with wraparound at the counter's declared width.
pub struct Engine {
    /// The authenticated user id.
    pub uin: i64,
    /// Transport sequence counter, 16-bit space.
    pub seq: u16,
    /// JCE request id counter, 32-bit space.
    pub packet_seq: i32,
    /// Outgoing group-message sequence counter, 32-bit space, scoped to the
    /// session rather than to a group.
    pub group_seq: i32,
    /// Read-mostly session state.
    pub transport: Transport,
}

impl Engine {
    /// A fresh engine for one session, with each counter at its session
    /// starting point.
    pub fn new(uin: i64, transport: Transport) -> (r: Engine)
        ensures
            r.uin == uin,
            r.seq == 0x3635u16,
            r.packet_seq == 1921334513i32,
            r.group_seq == 0x3635i32,
            r.transport == transport,
    {
        Engine { uin, seq: 0x3635u16, packet_seq: 1921334513i32, group_seq: 0x3635i32, transport }
    }

    /// Draw a fresh transport sequence id: increment with wraparound and
    /// return the new value.
    pub fn next_seq(&mut self) -> (r: u16)
        ensures
            final(self).seq == next_seq16(old(self).seq),
            r == final(self).seq,
            final(self).uin == old(self).uin,
            final(self).packet_seq == old(self).packet_seq,
            final(self).group_seq == old(self).group_seq,
            final(self).transport == old(self).transport,
    {
        let s: u16 = if self.seq == 0xffffu16 {
            0u16
        } else {
            self.seq + 1
        };
        self.seq = s;
        s
    }

    /// Draw a fresh JCE request id: step the 32-bit counter by two with
    /// wraparound and return the new value.
    pub fn next_packet_seq(&mut self) -> (r: i32)
        ensures
            final(self).packet_seq == next_seq32(old(self).packet_seq),
            r == final(self).packet_seq,
            final(self).uin == old(self).uin,
            final(self).seq == old(self).seq,
            final(self).group_seq == old(self).group_seq,
            final(self).transport == old(self).transport,
    {
        let s: i32 = if self.packet_seq == 0x7fff_ffffi32 {
            -0x7fff_ffffi32
        } else if self.packet_seq == 0x7fff_fffei32 {
            -0x8000_0000i32
        } else {
            self.packet_seq + 2
        };
        self.packet_seq = s;
        s
    }

    /// Draw a fresh outgoing group-message sequence: step the 32-bit counter
    /// by two with wraparound and return the new value.
    pub fn next_group_seq(&mut self) -> (r: i32)
        ensures
            final(self).group_seq == next_seq32(old(self).group_seq),
            r == final(self).group_seq,
            final(self).uin == old(self).uin,
            final(self).seq == old(self).seq,
            final(self).packet_seq == old(self).packet_seq,
            final(self).transport == old(self).transport,
    {
        let s: i32 = if self.group_seq == 0x7fff_ffffi32 {
            -0x7fff_ffffi32
        } else if self.group_seq == 0x7fff_fffei32 {
            -0x8000_0000i32
        } else {
            self.group_seq + 2
        };
        self.group_seq = s;
        s
    }

    /// Construct a uni packet around `body` with a caller-controlled
    /// sequence id, for requests that must echo a server-chosen id.
    pub fn uni_packet_with_seq(&self, seq: u16, command: &str, body: Vec<u8>) -> (r: Packet)
        ensures
            r.packet_type == PacketType::Simple,
            r.encrypt_type == EncryptType::D2Key,
            r.seq_id == seq as i32,
            r.body@ == body@,
            r.command_name@ == command@,
            r.uin == self.uin,
    {
        Packet {
            packet_type: PacketType::Simple,
            encrypt_type: EncryptType::D2Key,
            seq_id: seq as i32,
            body,
            command_name: command.to_owned(),
            uin: self.uin,
        }
    }

    /// Construct a uni packet around `body`, drawing a fresh transport
    /// sequence id from the session counter.
    pub fn uni_packet(&mut self, command: &str, body: Vec<u8>) -> (r: Packet)
        ensures
            r.packet_type == PacketType::Simple,
            r.encrypt_type == EncryptType::D2Key,
            r.seq_id == next_seq16(old(self).seq) as i32,
            r.body@ == body@,
            r.command_name@ == command@,
            r.uin == old(self).uin,
            final(self).seq == next_seq16(old(self).seq),
            final(self).uin == old(self).uin,
            final(self).packet_seq == old(self).packet_seq,
            final(self).group_seq == old(self).group_seq,
            final(self).transport == old(self).transport,
    {
        let seq = self.next_seq();
        self.uni_packet_with_seq(seq, command, body)
    }

    /// Shape the input record of the security-envelope encode service for
    /// the login/auth path.  The user id is narrowed to the 32-bit field the
    /// envelope carries; the method is always the ECDH-negotiated one.  The
    /// external service's cryptography is applied outside this crate.
    pub fn build_oicq_request_message(&self, uin: i64, command_id: u16, body: &[u8]) -> (r:
        OicqMessage)
        ensures
            r.uin == low32(uin),
            r.command == command_id,
            r.body@ == body@,
            r.encryption_method == EncryptionMethod::Ecdh,
    {
        let masked: i64 = uin & 0xffff_ffffi64;
        proof {
            assert(uin & 0xffff_ffffi64 == low32(uin)) by (bit_vector);
            assert(0 <= uin & 0xffff_ffffi64 < 0x1_0000_0000i64) by (bit_vector);
        }
        OicqMessage {
            uin: masked as u32,
            command: command_id,
            body: slice_to_vec_u8(body),
            encryption_method: EncryptionMethod::Ecdh,
        }
    }
}

/// The low 32 bits of a 64-bit user id, as the security envelope carries it.
pub open spec fn low32(v: i64) -> u32 {
    (v & 0xffff_ffffi64) as u32
}

/// Copy a byte slice into an owned buffer.
pub fn slice_to_vec_u8(s: &[u8]) -> (r: Vec<u8>)
    ensures
        r@ == s@,
{
    let mut r: Vec<u8> = Vec::new();
    let mut i: usize = 0;
    while i < s.len()
        invariant
            i <= s@.len(),
            r@ == s@.subrange(0, i as int),
        decreases s@.len() - i,
    {
        r.push(s[i]);
        i = i + 1;
    }
    proof {
        assert(r@ =~= s@);
    }
    r
}

/// Two successive draws of the transport sequence counter yield distinct
/// sequence ids, whatever state the counter starts in.
pub proof fn lemma_successive_seq_ids_distinct(s: u16)
    ensures
        next_seq16(s) != next_seq16(next_seq16(s)),
{
}

/// The drawn-sequence model follows the counter: the first id drawn after
/// state `s` is one counter step, and each later id is one counter step
/// past the one before it.
pub proof fn lemma_seq16_draw_unfolds(s: u16, k: nat)
    ensures
        seq16_draw(s, 0) == next_seq16(s),
        seq16_draw(s, k + 1) == next_seq16(seq16_draw(s, k)),
{
    let m = 0x10000int;
    let a = s + 1 + k;
    vstd::arithmetic::div_mod::lemma_fundamental_div_mod(s + 1, m);
    vstd::arithmetic::div_mod::lemma_mod_bound(s + 1, m);
    if s < 0xffff {
        vstd::arithmetic::div_mod::lemma_small_mod((s + 1) as nat, m as nat);
    } else {
        vstd::arithmetic::div_mod::lemma_mod_self_0(m);
    }
    vstd::arithmetic::div_mod::lemma_fundamental_div_mod(a, m);
    vstd::arithmetic::div_mod::lemma_mod_bound(a, m);
    let q = a / m;
    let r = a % m;
    if r < m - 1 {
        vstd::arithmetic::div_mod::lemma_fundamental_div_mod_converse(a + 1, m, q, r + 1);
    } else {
        vstd::arithmetic::div_mod::lemma_fundamental_div_mod_converse(a + 1, m, q + 1, 0);
    }
}

/// Among any run of draws shorter than the 16-bit wraparound period, no two
/// draws of the transport sequence counter yield the same sequence id: the
/// `i`-th and `j`-th ids drawn after state `s` differ whenever `i != j` and
/// both lie below 0x10000.
pub proof fn lemma_seq_ids_unique(s: u16, i: nat, j: nat)
    requires
        i < j,
        j < 0x10000,
    ensures
        seq16_draw(s, i) != seq16_draw(s, j),
{
    let m = 0x10000nat;
    let a = (s + 1 + i) as nat;
    let b = (s + 1 + j) as nat;
    assert(b == a + (j - i));
    assert(0 < b - a < m);
    if a % m == b % m {
        vstd::arithmetic::div_mod::lemma_fundamental_div_mod(a as int, m as int);
        vstd::arithmetic::div_mod::lemma_fundamental_div_mod(b as int, m as int);
        vstd::arithmetic::div_mod::lemma_mod_bound(a as int, m as int);
        vstd::arithmetic::div_mod::lemma_mod_bound(b as int, m as int);
        let qa = a as int / m as int;
        let qb = b as int / m as int;
        assert(b - a == m * (qb - qa)) by (nonlinear_arith)
            requires
                a == m * qa + (a % m),
                b == m * qb + (b % m),
                a % m == b % m,
        {}
        assert(qb - qa >= 1 ==> b - a >= m) by (nonlinear_arith)
            requires
                b - a == m * (qb - qa),
                m == 0x10000,
        {}
        assert(qb - qa <= 0 ==> b - a <= 0) by (nonlinear_arith)
            requires
                b - a == m * (qb - qa),
                m == 0x10000,
        {}
        assert(false);
    }
}

} // verus!
