//! The transport-level packet record and the security-envelope input record.

use vstd::prelude::*;

verus! {

/// Outer transport framing / encryption negotiation mode of a packet.
#[derive(Clone, Copy, Debug, PartialEq, Eq, Structural)]
pub enum PacketType {
    /// Ordinary uni packet on an established session.
    Simple,
    /// Login-path packet.
    Login,
}

/// Which session key material signs the body at the transport layer.
#[derive(Clone, Copy, Debug, PartialEq, Eq, Structural)]
pub enum EncryptType {
    /// No transport encryption.
    NoEncrypt,
    /// The D2 session key.
    D2Key,
    /// The empty key used while no session key exists.
    EmptyKey,
}

/// One outbound transport unit.  Constructed fresh per request and handed
/// to the transport layer unchanged; never mutated after construction.
pub struct Packet {
    /// Selects the outer transport framing.
    pub packet_type: PacketType,
    /// Selects the transport-layer key material.
    pub encrypt_type: EncryptType,
    /// Transport sequence id, truncated from the 16-bit counter.
    pub seq_id: i32,
    /// The fully encoded payload.
    pub body: Vec<u8>,
    /// Protocol RPC identifier used for server-side dispatch.
    pub command_name: String,
    /// The authenticated user id the packet is issued on behalf of.
    pub uin: i64,
}

/// The encryption method of the login-path security envelope.
#[derive(Clone, Copy, Debug, PartialEq, Eq, Structural)]
pub enum EncryptionMethod {
    /// Key agreement by ECDH, the only method this layer requests.
    Ecdh,
    /// Shared-key encryption.
    St,
}

/// The input record of the security-envelope encode service: body plus
/// routing metadata for the login/registration path.  The cryptography
/// itself is applied outside this crate; this record only fixes what is
/// handed to it.
pub struct OicqMessage {
    /// The user id, narrowed to the 32-bit field the envelope carries.
    pub uin: u32,
    /// The OICQ command id.
    pub command: u16,
    /// The plaintext body to be encrypted.
    pub body: Vec<u8>,
    /// The key-agreement method the envelope must use.
    pub encryption_method: EncryptionMethod,
}

} // verus!
