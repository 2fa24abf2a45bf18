//! Request builders whose payload is a protobuf message handed straight to
//! a uni packet: group message sending, read reports, message pulling,
//! member info, system messages and group info.  Every numeric literal in
//! a builder is a protocol constant the server expects; each body
//! specification states the emitted bytes field by field.

use vstd::prelude::*;

use crate::engine::{next_seq16, next_seq32, slice_to_vec_u8, Engine};
use crate::jce::lemma_empty_prepend;
use crate::packet::{EncryptType, Packet, PacketType};
use crate::pb::{
    pb_put_bool, pb_put_bytes, pb_put_int32, pb_put_int64, pb_put_repeated_bytes, pb_put_uint32,
    pb_put_uint64, sext32, sext64, spec_pb_len_field, spec_pb_repeated_len, spec_pb_varint_field,
    vecs_view,
};

verus! {

/// The body of a group-message-send request: routing head to the group,
/// content head with the package split, the rich-text elements, the drawn
/// message sequence, the caller's random id, an empty sync cookie, the
/// via marker, and the forward control flag when asked for.
pub open spec fn spec_group_sending_body(
    group_code: i64,
    pkg_num: i32,
    pkg_index: i32,
    pkg_div: i32,
    elems: Seq<Seq<u8>>,
    msg_seq: i32,
    rand: i32,
    forward: bool,
) -> Seq<u8> {
    spec_pb_len_field(1, spec_pb_len_field(2, spec_pb_varint_field(1, sext64(group_code))))
        + spec_pb_len_field(
        2,
        spec_pb_varint_field(1, sext32(pkg_num)) + spec_pb_varint_field(2, sext32(pkg_index))
            + spec_pb_varint_field(3, sext32(pkg_div)),
    ) + spec_pb_len_field(3, spec_pb_len_field(1, spec_pb_repeated_len(2, elems)))
        + spec_pb_varint_field(4, sext32(msg_seq)) + spec_pb_varint_field(5, sext32(rand))
        + spec_pb_len_field(6, Seq::empty()) + spec_pb_varint_field(8, 1) + (if forward {
        spec_pb_len_field(12, spec_pb_varint_field(1, 4))
    } else {
        Seq::empty()
    })
}

/// The body of a group read report: one group entry with the group code
/// and the last read sequence.
pub open spec fn spec_group_msg_readed_body(group_code: i64, msg_seq: i32) -> Seq<u8> {
    spec_pb_len_field(
        1,
        spec_pb_varint_field(1, group_code as u64) + spec_pb_varint_field(2, msg_seq as u64),
    )
}

/// The body of a private read report: the session sync cookie and one
/// peer entry with the peer id and the last read time.
pub open spec fn spec_private_msg_readed_body(uin: i64, time: i64, cookie: Seq<u8>) -> Seq<u8> {
    spec_pb_len_field(
        3,
        spec_pb_len_field(1, cookie) + spec_pb_len_field(
            2,
            spec_pb_varint_field(1, uin as u64) + spec_pb_varint_field(2, (time as u32) as u64),
        ),
    )
}

/// The synthetic sync cookie used when the session holds none yet: the
/// given time plus the protocol's fixed random and constant values.
pub open spec fn spec_fresh_sync_cookie(time: i64) -> Seq<u8> {
    spec_pb_varint_field(2, sext64(time)) + spec_pb_varint_field(3, 758330138)
        + spec_pb_varint_field(4, 2480149246) + spec_pb_varint_field(5, 1167238020)
        + spec_pb_varint_field(6, 3913056418) + spec_pb_varint_field(7, 0x1D)
}

/// The body of a get-message request: the sync flag, the cookie, the
/// ramble numbers, the online-sync and context flags, the request type,
/// and three empty trailing buffers.
pub open spec fn spec_get_message_body(flag: i32, cookie: Seq<u8>) -> Seq<u8> {
    spec_pb_varint_field(1, sext32(flag)) + spec_pb_len_field(2, cookie) + spec_pb_varint_field(
        4,
        20,
    ) + spec_pb_varint_field(5, 3) + spec_pb_varint_field(6, 1) + spec_pb_varint_field(7, 1)
        + spec_pb_varint_field(9, 1) + spec_pb_len_field(10, Seq::empty()) + spec_pb_len_field(
        11,
        Seq::empty(),
    ) + spec_pb_len_field(12, Seq::empty())
}

/// The body of a group-member-card request: group code and member id when
/// nonzero, the new-client marker, client type and card version.
pub open spec fn spec_group_member_info_body(group_code: i64, uin: i64) -> Seq<u8> {
    (if group_code != 0 {
        spec_pb_varint_field(1, sext64(group_code))
    } else {
        Seq::empty()
    }) + (if uin != 0 {
        spec_pb_varint_field(2, sext64(uin))
    } else {
        Seq::empty()
    }) + spec_pb_varint_field(3, 1) + spec_pb_varint_field(4, 1) + spec_pb_varint_field(5, 1)
}

/// The flag set of a new-system-message request: every capability flag the
/// client reports, each set to one.
pub open spec fn spec_system_msg_flags() -> Seq<u8> {
    spec_pb_varint_field(1, 1) + spec_pb_varint_field(2, 1) + spec_pb_varint_field(3, 1)
        + spec_pb_varint_field(5, 1) + spec_pb_varint_field(6, 1) + spec_pb_varint_field(7, 1)
        + spec_pb_varint_field(8, 1) + spec_pb_varint_field(9, 1) + spec_pb_varint_field(10, 1)
        + spec_pb_varint_field(11, 1) + spec_pb_varint_field(12, 1) + spec_pb_varint_field(13, 1)
        + spec_pb_varint_field(14, 1) + spec_pb_varint_field(15, 1) + spec_pb_varint_field(16, 1)
        + spec_pb_varint_field(17, 1)
}

/// The body of a new-system-message request for group events: message
/// count, version, check type, the capability flags, the friend message
/// type flag, and the request type (2 when only suspicious entries are
/// asked for, 1 otherwise).
pub open spec fn spec_system_msg_new_group_body(suspicious: bool) -> Seq<u8> {
    spec_pb_varint_field(1, 100) + spec_pb_varint_field(4, 1000) + spec_pb_varint_field(5, 3)
        + spec_pb_len_field(6, spec_system_msg_flags()) + spec_pb_varint_field(10, 1)
        + spec_pb_varint_field(
        11,
        if suspicious {
            2u64
        } else {
            1u64
        },
    )
}

/// The group-info record requested from the OIDB service: every field the
/// server is asked to fill, present and zeroed or empty.
pub open spec fn spec_group_info_stub() -> Seq<u8> {
    spec_pb_varint_field(1, 0) + spec_pb_varint_field(2, 0) + spec_pb_varint_field(3, 0)
        + spec_pb_varint_field(5, 0) + spec_pb_varint_field(6, 0) + spec_pb_varint_field(7, 0)
        + spec_pb_varint_field(10, 0) + spec_pb_varint_field(11, 0) + spec_pb_len_field(
        15,
        Seq::empty(),
    ) + spec_pb_len_field(16, Seq::empty()) + spec_pb_len_field(17, Seq::empty())
        + spec_pb_varint_field(21, 0) + spec_pb_varint_field(22, 0) + spec_pb_varint_field(23, 0)
        + spec_pb_len_field(24, Seq::empty()) + spec_pb_len_field(25, Seq::empty())
        + spec_pb_varint_field(36, 0) + spec_pb_varint_field(37, 0) + spec_pb_varint_field(43, 0)
        + spec_pb_len_field(44, Seq::empty()) + spec_pb_len_field(57, Seq::empty())
        + spec_pb_varint_field(58, 0) + spec_pb_varint_field(60, 0) + spec_pb_varint_field(82, 0)
        + spec_pb_varint_field(83, 0)
}

/// The body of a group-info request: the OIDB sso package for command
/// 2189 around a request body that names the group and the record to fill.
pub open spec fn spec_group_info_body(app_id: u32, group_code: i64) -> Seq<u8> {
    spec_pb_varint_field(1, 2189) + spec_pb_len_field(
        4,
        spec_pb_varint_field(1, app_id as u64) + spec_pb_len_field(
            2,
            spec_pb_varint_field(1, group_code as u64) + spec_pb_len_field(
                2,
                spec_group_info_stub(),
            ),
        ) + spec_pb_varint_field(3, 0),
    )
}

/// Builders are pure given their inputs and the sequencing snapshot: any
/// two packets that meet the group-message-send contract for the same
/// business inputs and the same starting counter state carry
/// byte-identical bodies.
pub proof fn lemma_group_sending_deterministic(
    p1: Packet,
    p2: Packet,
    group_seq: i32,
    group_code: i64,
    rand: i32,
    pkg_num: i32,
    pkg_index: i32,
    pkg_div: i32,
    forward: bool,
    elems: Seq<Seq<u8>>,
)
    requires
        p1.body@ == spec_group_sending_body(
            group_code,
            pkg_num,
            pkg_index,
            pkg_div,
            elems,
            next_seq32(group_seq),
            rand,
            forward,
        ),
        p2.body@ == spec_group_sending_body(
            group_code,
            pkg_num,
            pkg_index,
            pkg_div,
            elems,
            next_seq32(group_seq),
            rand,
            forward,
        ),
    ensures
        p1.body@ == p2.body@,
{
}

impl Engine {
    /// Build the packet that sends one group message: the routing, content
    /// and rich-text heads around the caller's elements, a freshly drawn
    /// group message sequence, and the caller's random id.
    pub fn build_group_sending_packet(
        &mut self,
        group_code: i64,
        rand: i32,
        pkg_num: i32,
        pkg_index: i32,
        pkg_div: i32,
        forward: bool,
        elems: Vec<Vec<u8>>,
    ) -> (p: Packet)
        ensures
            p.packet_type == PacketType::Simple,
            p.encrypt_type == EncryptType::D2Key,
            p.command_name@ == "MessageSvc.PbSendMsg"@,
            p.uin == old(self).uin,
            p.seq_id == next_seq16(old(self).seq) as i32,
            p.body@ == spec_group_sending_body(
                group_code,
                pkg_num,
                pkg_index,
                pkg_div,
                vecs_view(elems@),
                next_seq32(old(self).group_seq),
                rand,
                forward,
            ),
            final(self).seq == next_seq16(old(self).seq),
            final(self).group_seq == next_seq32(old(self).group_seq),
            final(self).uin == old(self).uin,
            final(self).packet_seq == old(self).packet_seq,
            final(self).transport == old(self).transport,
    {
        let mut grp: Vec<u8> = Vec::new();
        pb_put_int64(&mut grp, 1, group_code);
        proof {
            lemma_empty_prepend(spec_pb_varint_field(1, sext64(group_code)));
        }
        let mut routing: Vec<u8> = Vec::new();
        pb_put_bytes(&mut routing, 2, &grp);
        proof {
            lemma_empty_prepend(spec_pb_len_field(2, grp@));
        }
        let mut content: Vec<u8> = Vec::new();
        pb_put_int32(&mut content, 1, pkg_num);
        proof {
            lemma_empty_prepend(spec_pb_varint_field(1, sext32(pkg_num)));
        }
        pb_put_int32(&mut content, 2, pkg_index);
        pb_put_int32(&mut content, 3, pkg_div);
        let mut rich: Vec<u8> = Vec::new();
        pb_put_repeated_bytes(&mut rich, 2, &elems);
        proof {
            lemma_empty_prepend(spec_pb_repeated_len(2, vecs_view(elems@)));
        }
        let mut msg_body: Vec<u8> = Vec::new();
        pb_put_bytes(&mut msg_body, 1, &rich);
        proof {
            lemma_empty_prepend(spec_pb_len_field(1, rich@));
        }
        let msg_seq = self.next_group_seq();
        let mut body: Vec<u8> = Vec::new();
        pb_put_bytes(&mut body, 1, &routing);
        proof {
            lemma_empty_prepend(spec_pb_len_field(1, routing@));
        }
        pb_put_bytes(&mut body, 2, &content);
        pb_put_bytes(&mut body, 3, &msg_body);
        pb_put_int32(&mut body, 4, msg_seq);
        pb_put_int32(&mut body, 5, rand);
        let empty_cookie: Vec<u8> = Vec::new();
        pb_put_bytes(&mut body, 6, &empty_cookie);
        pb_put_int32(&mut body, 8, 1);
        if forward {
            let mut ctrl: Vec<u8> = Vec::new();
            pb_put_int32(&mut ctrl, 1, 4);
            proof {
                lemma_empty_prepend(spec_pb_varint_field(1, sext32(4)));
            }
            pb_put_bytes(&mut body, 12, &ctrl);
        } else {
            proof {
                assert(body@ + Seq::<u8>::empty() =~= body@);
            }
        }
        self.uni_packet("MessageSvc.PbSendMsg", body)
    }

    /// Build the packet that reports a group message as read up to a
    /// sequence.
    pub fn build_group_msg_readed_packet(&mut self, group_code: i64, msg_seq: i32) -> (p: Packet)
        ensures
            p.packet_type == PacketType::Simple,
            p.encrypt_type == EncryptType::D2Key,
            p.command_name@ == "PbMessageSvc.PbMsgReadedReport"@,
            p.uin == old(self).uin,
            p.seq_id == next_seq16(old(self).seq) as i32,
            p.body@ == spec_group_msg_readed_body(group_code, msg_seq),
            final(self).seq == next_seq16(old(self).seq),
            final(self).uin == old(self).uin,
            final(self).packet_seq == old(self).packet_seq,
            final(self).group_seq == old(self).group_seq,
            final(self).transport == old(self).transport,
    {
        let mut entry: Vec<u8> = Vec::new();
        let gc: u64 = #[verifier::truncate] (group_code as u64);
        let ms: u64 = #[verifier::truncate] (msg_seq as u64);
        pb_put_uint64(&mut entry, 1, gc);
        proof {
            lemma_empty_prepend(spec_pb_varint_field(1, group_code as u64));
        }
        pb_put_uint64(&mut entry, 2, ms);
        let mut body: Vec<u8> = Vec::new();
        pb_put_bytes(&mut body, 1, &entry);
        proof {
            lemma_empty_prepend(spec_pb_len_field(1, entry@));
        }
        self.uni_packet("PbMessageSvc.PbMsgReadedReport", body)
    }

    /// Build the packet that reports a private conversation as read up to
    /// a time.
    pub fn build_private_msg_readed_packet(&mut self, uin: i64, time: i64) -> (p: Packet)
        ensures
            p.packet_type == PacketType::Simple,
            p.encrypt_type == EncryptType::D2Key,
            p.command_name@ == "PbMessageSvc.PbMsgReadedReport"@,
            p.uin == old(self).uin,
            p.seq_id == next_seq16(old(self).seq) as i32,
            p.body@ == spec_private_msg_readed_body(
                uin,
                time,
                old(self).transport.sig.sync_cookie@,
            ),
            final(self).seq == next_seq16(old(self).seq),
            final(self).uin == old(self).uin,
            final(self).packet_seq == old(self).packet_seq,
            final(self).group_seq == old(self).group_seq,
            final(self).transport == old(self).transport,
    {
        let mut pair: Vec<u8> = Vec::new();
        let pu: u64 = #[verifier::truncate] (uin as u64);
        let lt: u32 = #[verifier::truncate] (time as u32);
        pb_put_uint64(&mut pair, 1, pu);
        proof {
            lemma_empty_prepend(spec_pb_varint_field(1, uin as u64));
        }
        pb_put_uint32(&mut pair, 2, lt);
        let mut c2c: Vec<u8> = Vec::new();
        let cookie = slice_to_vec_u8(self.transport.sig.sync_cookie.as_slice());
        pb_put_bytes(&mut c2c, 1, &cookie);
        proof {
            lemma_empty_prepend(spec_pb_len_field(1, cookie@));
        }
        pb_put_bytes(&mut c2c, 2, &pair);
        let mut body: Vec<u8> = Vec::new();
        pb_put_bytes(&mut body, 3, &c2c);
        proof {
            lemma_empty_prepend(spec_pb_len_field(3, c2c@));
        }
        self.uni_packet("PbMessageSvc.PbMsgReadedReport", body)
    }

    /// Build the packet that pulls messages: with the session's sync
    /// cookie when one is held, else with a synthetic cookie carrying the
    /// given time and the protocol's fixed constants.
    pub fn build_get_message_request_packet(&mut self, flag: i32, time: i64) -> (p: Packet)
        ensures
            p.packet_type == PacketType::Simple,
            p.encrypt_type == EncryptType::D2Key,
            p.command_name@ == "MessageSvc.PbGetMsg"@,
            p.uin == old(self).uin,
            p.seq_id == next_seq16(old(self).seq) as i32,
            p.body@ == spec_get_message_body(
                flag,
                if old(self).transport.sig.sync_cookie@.len() > 0 {
                    old(self).transport.sig.sync_cookie@
                } else {
                    spec_fresh_sync_cookie(time)
                },
            ),
            final(self).seq == next_seq16(old(self).seq),
            final(self).uin == old(self).uin,
            final(self).packet_seq == old(self).packet_seq,
            final(self).group_seq == old(self).group_seq,
            final(self).transport == old(self).transport,
    {
        let cookie: Vec<u8> = if self.transport.sig.sync_cookie.len() > 0 {
            slice_to_vec_u8(self.transport.sig.sync_cookie.as_slice())
        } else {
            let mut c: Vec<u8> = Vec::new();
            pb_put_int64(&mut c, 2, time);
            proof {
                lemma_empty_prepend(spec_pb_varint_field(2, sext64(time)));
            }
            pb_put_int64(&mut c, 3, 758330138);
            pb_put_int64(&mut c, 4, 2480149246);
            pb_put_int64(&mut c, 5, 1167238020);
            pb_put_int64(&mut c, 6, 3913056418);
            pb_put_int64(&mut c, 7, 0x1D);
            c
        };
        let mut body: Vec<u8> = Vec::new();
        pb_put_int32(&mut body, 1, flag);
        proof {
            lemma_empty_prepend(spec_pb_varint_field(1, sext32(flag)));
        }
        pb_put_bytes(&mut body, 2, &cookie);
        pb_put_int32(&mut body, 4, 20);
        pb_put_int32(&mut body, 5, 3);
        pb_put_int32(&mut body, 6, 1);
        pb_put_int32(&mut body, 7, 1);
        pb_put_int32(&mut body, 9, 1);
        let empty_buf: Vec<u8> = Vec::new();
        pb_put_bytes(&mut body, 10, &empty_buf);
        pb_put_bytes(&mut body, 11, &empty_buf);
        pb_put_bytes(&mut body, 12, &empty_buf);
        self.uni_packet("MessageSvc.PbGetMsg", body)
    }

    /// Build the packet that asks for one member's group card record.
    pub fn build_group_member_info_request_packet(&mut self, group_code: i64, uin: i64) -> (p:
        Packet)
        ensures
            p.packet_type == PacketType::Simple,
            p.encrypt_type == EncryptType::D2Key,
            p.command_name@ == "group_member_card.get_group_member_card_info"@,
            p.uin == old(self).uin,
            p.seq_id == next_seq16(old(self).seq) as i32,
            p.body@ == spec_group_member_info_body(group_code, uin),
            final(self).seq == next_seq16(old(self).seq),
            final(self).uin == old(self).uin,
            final(self).packet_seq == old(self).packet_seq,
            final(self).group_seq == old(self).group_seq,
            final(self).transport == old(self).transport,
    {
        let mut body: Vec<u8> = Vec::new();
        if group_code != 0 {
            pb_put_int64(&mut body, 1, group_code);
            proof {
                lemma_empty_prepend(spec_pb_varint_field(1, sext64(group_code)));
            }
        } else {
            proof {
                assert(body@ =~= Seq::<u8>::empty() + Seq::<u8>::empty());
            }
        }
        if uin != 0 {
            pb_put_int64(&mut body, 2, uin);
        } else {
            proof {
                assert(body@ + Seq::<u8>::empty() =~= body@);
            }
        }
        pb_put_bool(&mut body, 3, true);
        pb_put_int32(&mut body, 4, 1);
        pb_put_int32(&mut body, 5, 1);
        self.uni_packet("group_member_card.get_group_member_card_info", body)
    }

    /// Build the packet that asks for new system messages about groups,
    /// either the full set or only the suspicious ones.
    pub fn build_system_msg_new_group_packet(&mut self, suspicious: bool) -> (p: Packet)
        ensures
            p.packet_type == PacketType::Simple,
            p.encrypt_type == EncryptType::D2Key,
            p.command_name@ == "ProfileService.Pb.ReqSystemMsgNew.Group"@,
            p.uin == old(self).uin,
            p.seq_id == next_seq16(old(self).seq) as i32,
            p.body@ == spec_system_msg_new_group_body(suspicious),
            final(self).seq == next_seq16(old(self).seq),
            final(self).uin == old(self).uin,
            final(self).packet_seq == old(self).packet_seq,
            final(self).group_seq == old(self).group_seq,
            final(self).transport == old(self).transport,
    {
        let mut flags: Vec<u8> = Vec::new();
        pb_put_uint32(&mut flags, 1, 1);
        proof {
            lemma_empty_prepend(spec_pb_varint_field(1, 1));
        }
        pb_put_uint32(&mut flags, 2, 1);
        pb_put_uint32(&mut flags, 3, 1);
        pb_put_uint32(&mut flags, 5, 1);
        pb_put_uint32(&mut flags, 6, 1);
        pb_put_uint32(&mut flags, 7, 1);
        pb_put_uint32(&mut flags, 8, 1);
        pb_put_uint32(&mut flags, 9, 1);
        pb_put_uint32(&mut flags, 10, 1);
        pb_put_uint32(&mut flags, 11, 1);
        pb_put_uint32(&mut flags, 12, 1);
        pb_put_uint32(&mut flags, 13, 1);
        pb_put_uint32(&mut flags, 14, 1);
        pb_put_uint32(&mut flags, 15, 1);
        pb_put_uint32(&mut flags, 16, 1);
        pb_put_uint32(&mut flags, 17, 1);
        let mut body: Vec<u8> = Vec::new();
        pb_put_uint32(&mut body, 1, 100);
        proof {
            lemma_empty_prepend(spec_pb_varint_field(1, 100));
        }
        pb_put_uint32(&mut body, 4, 1000);
        pb_put_uint32(&mut body, 5, 3);
        pb_put_bytes(&mut body, 6, &flags);
        pb_put_uint32(&mut body, 10, 1);
        pb_put_uint32(&mut body, 11, if suspicious { 2 } else { 1 });
        self.uni_packet("ProfileService.Pb.ReqSystemMsgNew.Group", body)
    }

    /// Build the packet that asks the OIDB service for a group's full
    /// info record.
    pub fn build_group_info_request_packet(&mut self, group_code: i64) -> (p: Packet)
        ensures
            p.packet_type == PacketType::Simple,
            p.encrypt_type == EncryptType::D2Key,
            p.command_name@ == "OidbSvc.0x88d_0"@,
            p.uin == old(self).uin,
            p.seq_id == next_seq16(old(self).seq) as i32,
            p.body@ == spec_group_info_body(old(self).transport.version.app_id, group_code),
            final(self).seq == next_seq16(old(self).seq),
            final(self).uin == old(self).uin,
            final(self).packet_seq == old(self).packet_seq,
            final(self).group_seq == old(self).group_seq,
            final(self).transport == old(self).transport,
    {
        let empty_buf: Vec<u8> = Vec::new();
        let mut stub: Vec<u8> = Vec::new();
        pb_put_uint64(&mut stub, 1, 0);
        proof {
            lemma_empty_prepend(spec_pb_varint_field(1, 0));
        }
        pb_put_uint32(&mut stub, 2, 0);
        pb_put_uint32(&mut stub, 3, 0);
        pb_put_uint32(&mut stub, 5, 0);
        pb_put_uint32(&mut stub, 6, 0);
        pb_put_uint32(&mut stub, 7, 0);
        pb_put_uint32(&mut stub, 10, 0);
        pb_put_uint32(&mut stub, 11, 0);
        pb_put_bytes(&mut stub, 15, &empty_buf);
        pb_put_bytes(&mut stub, 16, &empty_buf);
        pb_put_bytes(&mut stub, 17, &empty_buf);
        pb_put_uint64(&mut stub, 21, 0);
        pb_put_uint64(&mut stub, 22, 0);
        pb_put_uint32(&mut stub, 23, 0);
        pb_put_bytes(&mut stub, 24, &empty_buf);
        pb_put_bytes(&mut stub, 25, &empty_buf);
        pb_put_uint32(&mut stub, 36, 0);
        pb_put_uint32(&mut stub, 37, 0);
        pb_put_uint32(&mut stub, 43, 0);
        pb_put_bytes(&mut stub, 44, &empty_buf);
        pb_put_bytes(&mut stub, 57, &empty_buf);
        pb_put_uint32(&mut stub, 58, 0);
        pb_put_uint64(&mut stub, 60, 0);
        pb_put_uint32(&mut stub, 82, 0);
        pb_put_uint32(&mut stub, 83, 0);
        let gc: u64 = #[verifier::truncate] (group_code as u64);
        let mut req_info: Vec<u8> = Vec::new();
        pb_put_uint64(&mut req_info, 1, gc);
        proof {
            lemma_empty_prepend(spec_pb_varint_field(1, group_code as u64));
        }
        pb_put_bytes(&mut req_info, 2, &stub);
        let mut d88d: Vec<u8> = Vec::new();
        pb_put_uint32(&mut d88d, 1, self.transport.version.app_id);
        proof {
            lemma_empty_prepend(
                spec_pb_varint_field(1, self.transport.version.app_id as u64),
            );
        }
        pb_put_bytes(&mut d88d, 2, &req_info);
        pb_put_int32(&mut d88d, 3, 0);
        let mut body: Vec<u8> = Vec::new();
        pb_put_int32(&mut body, 1, 2189);
        proof {
            lemma_empty_prepend(spec_pb_varint_field(1, sext32(2189)));
        }
        pb_put_bytes(&mut body, 4, &d88d);
        self.uni_packet("OidbSvc.0x88d_0", body)
    }
}

} // verus!
