//! The offline-message pull and the initial synchronisation request: each
//! combines a legacy registration descriptor with one or two protobuf
//! get-message payloads, every one prefixed by the four-zero-byte format
//! discriminator, into one multi-entry named-buffer map, because the
//! server expects both compatibility paths present at once.

use vstd::prelude::*;

use crate::engine::{next_seq16, slice_to_vec_u8, Engine};
use crate::jce::{
    jce_new, jce_put_bytes, jce_put_head, jce_put_i16, jce_put_i32, jce_put_i64,
    jce_put_u8, jce_freeze, lemma_empty_prepend, pack_uni_request_data, spec_buffer_map,
    spec_jce_bytes, spec_jce_head, spec_jce_i16, spec_jce_i32, spec_jce_i64, spec_jce_u8,
    spec_request_packet, spec_uni_request_data, buffer_entries_view, BufferMapEntry,
    RequestDataVersion3, RequestPacket,
};
use crate::packet::{EncryptType, Packet, PacketType};
use crate::pb::{
    pb_put_bytes, pb_put_int32, prepend_zero4, spec_pb_len_field, spec_pb_varint_field, spec_zero4,
};

verus! {

/// The configuration versions reported back to the 0x769 service during
/// synchronisation.
pub open spec fn spec_d769_body() -> Seq<u8> {
    spec_pb_len_field(1, spec_pb_varint_field(1, 46) + spec_pb_varint_field(2, 0))
        + spec_pb_len_field(1, spec_pb_varint_field(1, 283) + spec_pb_varint_field(2, 0))
}

/// The registration-proxy request record, flat on the wire: the option
/// mask, the filter flags, the embedded legacy get-message record, the
/// embedded group-sequence record, the group mask, the end sequence, and
/// the 0x769 body.
pub open spec fn spec_svc_req_register_new(
    request_optional: i64,
    dis_group_msg_filter: u8,
    uin: i64,
    date_time: i32,
    sync_cookie: Seq<u8>,
    pub_account_cookie: Seq<u8>,
    group_msg_filter: u8,
    group_mask: u8,
    end_seq: i64,
    oidb_body: Seq<u8>,
) -> Seq<u8> {
    spec_jce_i64(request_optional, 0) + spec_jce_u8(dis_group_msg_filter, 1) + spec_jce_head(10, 2)
        + spec_jce_i64(uin, 0) + spec_jce_i32(date_time, 1) + spec_jce_u8(1, 2) + spec_jce_i16(
        15,
        3,
    ) + spec_jce_u8(4, 4) + spec_jce_u8(1, 5) + spec_jce_u8(1, 6) + spec_jce_bytes(sync_cookie, 7)
        + spec_jce_u8(0, 8) + spec_jce_u8(0, 9) + spec_jce_i64(1, 10) + spec_jce_bytes(
        pub_account_cookie,
        11,
    ) + spec_jce_head(11, 2) + spec_jce_head(10, 3) + spec_jce_u8(0, 0) + spec_jce_u8(
        group_msg_filter,
        1,
    ) + spec_jce_head(11, 3) + spec_jce_u8(group_mask, 4) + spec_jce_i64(end_seq, 5)
        + spec_jce_bytes(oidb_body, 6)
}

/// A protobuf get-message payload: the sync flag, an optional sync
/// cookie, the ramble numbers and flags, an optional request type, and an
/// optional public-account cookie.
pub open spec fn spec_get_msg_payload(
    sync_cookie: Option<Seq<u8>>,
    msg_req_type: Option<i32>,
    pubaccount_cookie: Option<Seq<u8>>,
) -> Seq<u8> {
    spec_pb_varint_field(1, 0) + (match sync_cookie {
        Some(c) => spec_pb_len_field(2, c),
        None => Seq::empty(),
    }) + spec_pb_varint_field(3, 0) + spec_pb_varint_field(4, 20) + spec_pb_varint_field(5, 3)
        + spec_pb_varint_field(6, 0) + spec_pb_varint_field(7, 1) + (match msg_req_type {
        Some(t) => spec_pb_varint_field(9, crate::pb::sext32(t)),
        None => Seq::empty(),
    }) + (match pubaccount_cookie {
        Some(c) => spec_pb_len_field(10, c),
        None => Seq::empty(),
    })
}

/// A get-message payload behind the four-zero discriminator, carried as
/// one JCE byte field under tag 0.
pub open spec fn spec_discriminated_buffer(payload: Seq<u8>) -> Seq<u8> {
    spec_jce_bytes(spec_zero4() + payload, 0)
}

/// The whole offline-message pull body: the protobuf path under
/// "req_PbOffMsg" and the legacy path under "req_OffMsg", both present.
pub open spec fn spec_get_offline_msg_body(
    uin: i64,
    date_time: i32,
    sync_cookie: Seq<u8>,
    pub_account_cookie: Seq<u8>,
    end_seq: i64,
) -> Seq<u8> {
    spec_request_packet(
        3,
        0,
        0,
        0,
        "RegPrxySvc"@,
        ""@,
        spec_buffer_map(
            seq![
                (
                    "req_PbOffMsg"@,
                    spec_discriminated_buffer(
                        spec_get_msg_payload(Some(sync_cookie), None, None),
                    ),
                ),
                (
                    "req_OffMsg"@,
                    spec_uni_request_data(
                        spec_svc_req_register_new(
                            0x101E2,
                            0,
                            uin,
                            date_time,
                            sync_cookie,
                            pub_account_cookie,
                            1,
                            0,
                            end_seq,
                            Seq::empty(),
                        ),
                    ),
                ),
            ],
            0,
        ),
        0,
    )
}

/// The whole synchronisation body: the protobuf path, the public-account
/// path and the legacy path, all three present.
pub open spec fn spec_sync_msg_body(
    uin: i64,
    date_time: i32,
    sync_cookie: Seq<u8>,
    pub_account_cookie: Seq<u8>,
    end_seq: i64,
) -> Seq<u8> {
    spec_request_packet(
        3,
        0,
        0,
        0,
        "RegPrxySvc"@,
        ""@,
        spec_buffer_map(
            seq![
                (
                    "req_PbOffMsg"@,
                    spec_discriminated_buffer(
                        spec_get_msg_payload(Some(sync_cookie), Some(1), None),
                    ),
                ),
                (
                    "req_PbPubMsg"@,
                    spec_discriminated_buffer(
                        spec_get_msg_payload(None, Some(2), Some(pub_account_cookie)),
                    ),
                ),
                (
                    "req_OffMsg"@,
                    spec_uni_request_data(
                        spec_svc_req_register_new(
                            90562,
                            1,
                            uin,
                            date_time,
                            sync_cookie,
                            pub_account_cookie,
                            0,
                            2,
                            end_seq,
                            spec_d769_body(),
                        ),
                    ),
                ),
            ],
            0,
        ),
        0,
    )
}

/// The wire form of the date-time field: the last message time narrowed
/// to 32 bits, or 1 when no last time is known.
pub open spec fn spec_date_time(last_message_time: i64) -> i32 {
    if last_message_time == 0 {
        1i32
    } else {
        last_message_time as i32
    }
}

/// Relies on `chrono::Utc::now`: the current Unix timestamp.  The result
/// depends on the clock; nothing is promised of it.
#[verifier::external_body]
fn now_timestamp() -> i64 {
    chrono::Utc::now().timestamp()
}

/// Relies on `rand::random`: a fresh 32-bit value.  Nothing is promised
/// of it.
#[verifier::external_body]
fn random_u32() -> u32 {
    rand::random::<u32>()
}

/// Append one get-message payload to a buffer.
fn put_get_msg_payload(
    body: &mut Vec<u8>,
    sync_cookie: Option<&Vec<u8>>,
    msg_req_type: Option<i32>,
    pubaccount_cookie: Option<&Vec<u8>>,
)
    ensures
        final(body)@ == old(body)@ + spec_get_msg_payload(
            match sync_cookie {
                Some(c) => Some(c@),
                None => None,
            },
            msg_req_type,
            match pubaccount_cookie {
                Some(c) => Some(c@),
                None => None,
            },
        ),
{
    pb_put_int32(body, 1, 0);
    if let Some(c) = sync_cookie {
        pb_put_bytes(body, 2, c);
    } else {
        proof {
            assert(body@ + Seq::<u8>::empty() =~= body@);
        }
    }
    pb_put_int32(body, 3, 0);
    pb_put_int32(body, 4, 20);
    pb_put_int32(body, 5, 3);
    pb_put_int32(body, 6, 0);
    pb_put_int32(body, 7, 1);
    if let Some(t) = msg_req_type {
        pb_put_int32(body, 9, t);
    } else {
        proof {
            assert(body@ + Seq::<u8>::empty() =~= body@);
        }
    }
    if let Some(c) = pubaccount_cookie {
        pb_put_bytes(body, 10, c);
    } else {
        proof {
            assert(body@ + Seq::<u8>::empty() =~= body@);
        }
    }
}

/// Serialise the registration-proxy record with the given variant fields.
fn freeze_svc_req_register_new(
    request_optional: i64,
    dis_group_msg_filter: u8,
    uin: i64,
    date_time: i32,
    sync_cookie: &Vec<u8>,
    pub_account_cookie: &Vec<u8>,
    group_msg_filter: u8,
    group_mask: u8,
    end_seq: i64,
    oidb_body: &Vec<u8>,
) -> (r: Vec<u8>)
    ensures
        r@ == spec_svc_req_register_new(
            request_optional,
            dis_group_msg_filter,
            uin,
            date_time,
            sync_cookie@,
            pub_account_cookie@,
            group_msg_filter,
            group_mask,
            end_seq,
            oidb_body@,
        ),
{
    let mut w = jce_new();
    jce_put_i64(&mut w, request_optional, 0);
    proof {
        lemma_empty_prepend(spec_jce_i64(request_optional, 0));
    }
    jce_put_u8(&mut w, dis_group_msg_filter, 1);
    jce_put_head(&mut w, 10, 2);
    jce_put_i64(&mut w, uin, 0);
    jce_put_i32(&mut w, date_time, 1);
    jce_put_u8(&mut w, 1, 2);
    jce_put_i16(&mut w, 15, 3);
    jce_put_u8(&mut w, 4, 4);
    jce_put_u8(&mut w, 1, 5);
    jce_put_u8(&mut w, 1, 6);
    jce_put_bytes(&mut w, sync_cookie.as_slice(), 7);
    jce_put_u8(&mut w, 0, 8);
    jce_put_u8(&mut w, 0, 9);
    jce_put_i64(&mut w, 1, 10);
    jce_put_bytes(&mut w, pub_account_cookie.as_slice(), 11);
    jce_put_head(&mut w, 11, 2);
    jce_put_head(&mut w, 10, 3);
    jce_put_u8(&mut w, 0, 0);
    jce_put_u8(&mut w, group_msg_filter, 1);
    jce_put_head(&mut w, 11, 3);
    jce_put_u8(&mut w, group_mask, 4);
    jce_put_i64(&mut w, end_seq, 5);
    jce_put_bytes(&mut w, oidb_body.as_slice(), 6);
    jce_freeze(w)
}

/// Wrap one payload behind the four-zero discriminator as a JCE byte
/// field under tag 0.
fn freeze_discriminated_buffer(payload: &Vec<u8>) -> (r: Vec<u8>)
    ensures
        r@ == spec_discriminated_buffer(payload@),
{
    let framed = prepend_zero4(payload);
    let mut w = jce_new();
    jce_put_bytes(&mut w, framed.as_slice(), 0);
    proof {
        lemma_empty_prepend(spec_jce_bytes(framed@, 0));
    }
    jce_freeze(w)
}

/// Seal a ready named-buffer map in the registration-proxy envelope.
fn seal_reg_prxy_packet(entries: Vec<BufferMapEntry>) -> (r: Vec<u8>)
    ensures
        r@ == spec_request_packet(
            3,
            0,
            0,
            0,
            "RegPrxySvc"@,
            ""@,
            spec_buffer_map(buffer_entries_view(entries@), 0),
            0,
        ),
{
    let rdv3 = RequestDataVersion3 { entries };
    let buf = rdv3.freeze();
    let pkt = RequestPacket {
        i_version: 3,
        c_packet_type: 0,
        i_message_type: 0,
        i_request_id: 0,
        s_servant_name: "RegPrxySvc".to_owned(),
        s_func_name: "".to_owned(),
        s_buffer: buf,
        i_timeout: 0,
    };
    pkt.freeze()
}

impl Engine {
    /// Build the offline-message pull packet for the given end sequence:
    /// the protobuf and the legacy path side by side, as the server
    /// expects during the initial pull.
    pub fn build_get_offline_msg_request_packet_at(
        &mut self,
        last_message_time: i64,
        end_seq: i64,
    ) -> (p: Packet)
        ensures
            p.packet_type == PacketType::Simple,
            p.encrypt_type == EncryptType::D2Key,
            p.command_name@ == "RegPrxySvc.getOffMsg"@,
            p.uin == old(self).uin,
            p.seq_id == next_seq16(old(self).seq) as i32,
            p.body@ == spec_get_offline_msg_body(
                old(self).uin,
                spec_date_time(last_message_time),
                old(self).transport.sig.sync_cookie@,
                old(self).transport.sig.pub_account_cookie@,
                end_seq,
            ),
            final(self).seq == next_seq16(old(self).seq),
            final(self).uin == old(self).uin,
            final(self).packet_seq == old(self).packet_seq,
            final(self).group_seq == old(self).group_seq,
            final(self).transport == old(self).transport,
    {
        let date_time: i32 = if last_message_time == 0 {
            1
        } else {
            #[verifier::truncate] (last_message_time as i32)
        };
        let sync_cookie = slice_to_vec_u8(self.transport.sig.sync_cookie.as_slice());
        let pub_cookie = slice_to_vec_u8(self.transport.sig.pub_account_cookie.as_slice());
        let empty_buf: Vec<u8> = Vec::new();
        let reg_req = freeze_svc_req_register_new(
            0x101E2,
            0,
            self.uin,
            date_time,
            &sync_cookie,
            &pub_cookie,
            1,
            0,
            end_seq,
            &empty_buf,
        );
        let mut msg_req2: Vec<u8> = Vec::new();
        put_get_msg_payload(&mut msg_req2, Some(&sync_cookie), None, None);
        proof {
            lemma_empty_prepend(
                spec_get_msg_payload(Some(sync_cookie@), None, None),
            );
        }
        let pb_entry = freeze_discriminated_buffer(&msg_req2);
        let legacy_entry = pack_uni_request_data(reg_req.as_slice());
        let mut entries: Vec<BufferMapEntry> = Vec::new();
        entries.push(BufferMapEntry { key: "req_PbOffMsg".to_owned(), value: pb_entry });
        entries.push(BufferMapEntry { key: "req_OffMsg".to_owned(), value: legacy_entry });
        proof {
            assert(buffer_entries_view(entries@) =~= seq![
                (
                    "req_PbOffMsg"@,
                    spec_discriminated_buffer(
                        spec_get_msg_payload(
                            Some(old(self).transport.sig.sync_cookie@),
                            None,
                            None,
                        ),
                    ),
                ),
                (
                    "req_OffMsg"@,
                    spec_uni_request_data(
                        spec_svc_req_register_new(
                            0x101E2,
                            0,
                            old(self).uin,
                            spec_date_time(last_message_time),
                            old(self).transport.sig.sync_cookie@,
                            old(self).transport.sig.pub_account_cookie@,
                            1,
                            0,
                            end_seq,
                            Seq::empty(),
                        ),
                    ),
                ),
            ]);
        }
        let body = seal_reg_prxy_packet(entries);
        self.uni_packet("RegPrxySvc.getOffMsg", body)
    }

    /// Build the offline-message pull packet, stamping the current time as
    /// the end sequence.  The body is the exact offline-pull form for the
    /// timestamp the clock returned.
    pub fn build_get_offline_msg_request_packet(&mut self, last_message_time: i64) -> (p: Packet)
        ensures
            p.packet_type == PacketType::Simple,
            p.encrypt_type == EncryptType::D2Key,
            p.command_name@ == "RegPrxySvc.getOffMsg"@,
            p.uin == old(self).uin,
            p.seq_id == next_seq16(old(self).seq) as i32,
            exists|end_seq: i64|
                p.body@ == spec_get_offline_msg_body(
                    old(self).uin,
                    spec_date_time(last_message_time),
                    old(self).transport.sig.sync_cookie@,
                    old(self).transport.sig.pub_account_cookie@,
                    end_seq,
                ),
            final(self).seq == next_seq16(old(self).seq),
            final(self).uin == old(self).uin,
            final(self).packet_seq == old(self).packet_seq,
            final(self).group_seq == old(self).group_seq,
            final(self).transport == old(self).transport,
    {
        let end_seq = now_timestamp();
        let p = self.build_get_offline_msg_request_packet_at(last_message_time, end_seq);
        p
    }

    /// Build the synchronisation packet for the given end sequence: the
    /// protobuf, public-account and legacy paths side by side, as the
    /// server expects during the initial sync.
    pub fn build_sync_msg_request_packet_with_seed(
        &mut self,
        last_message_time: i64,
        end_seq: i64,
    ) -> (p: Packet)
        ensures
            p.packet_type == PacketType::Simple,
            p.encrypt_type == EncryptType::D2Key,
            p.command_name@ == "RegPrxySvc.infoSync"@,
            p.uin == old(self).uin,
            p.seq_id == next_seq16(old(self).seq) as i32,
            p.body@ == spec_sync_msg_body(
                old(self).uin,
                spec_date_time(last_message_time),
                old(self).transport.sig.sync_cookie@,
                old(self).transport.sig.pub_account_cookie@,
                end_seq,
            ),
            final(self).seq == next_seq16(old(self).seq),
            final(self).uin == old(self).uin,
            final(self).packet_seq == old(self).packet_seq,
            final(self).group_seq == old(self).group_seq,
            final(self).transport == old(self).transport,
    {
        let date_time: i32 = if last_message_time == 0 {
            1
        } else {
            #[verifier::truncate] (last_message_time as i32)
        };
        let sync_cookie = slice_to_vec_u8(self.transport.sig.sync_cookie.as_slice());
        let pub_cookie = slice_to_vec_u8(self.transport.sig.pub_account_cookie.as_slice());
        let mut seq46: Vec<u8> = Vec::new();
        pb_put_int32(&mut seq46, 1, 46);
        proof {
            lemma_empty_prepend(spec_pb_varint_field(1, crate::pb::sext32(46)));
        }
        pb_put_int32(&mut seq46, 2, 0);
        let mut seq283: Vec<u8> = Vec::new();
        pb_put_int32(&mut seq283, 1, 283);
        proof {
            lemma_empty_prepend(spec_pb_varint_field(1, crate::pb::sext32(283)));
        }
        pb_put_int32(&mut seq283, 2, 0);
        let mut oidb: Vec<u8> = Vec::new();
        pb_put_bytes(&mut oidb, 1, &seq46);
        proof {
            lemma_empty_prepend(spec_pb_len_field(1, seq46@));
        }
        pb_put_bytes(&mut oidb, 1, &seq283);
        let reg_req = freeze_svc_req_register_new(
            90562,
            1,
            self.uin,
            date_time,
            &sync_cookie,
            &pub_cookie,
            0,
            2,
            end_seq,
            &oidb,
        );
        let mut off_msg: Vec<u8> = Vec::new();
        put_get_msg_payload(&mut off_msg, Some(&sync_cookie), Some(1), None);
        proof {
            lemma_empty_prepend(spec_get_msg_payload(Some(sync_cookie@), Some(1), None));
        }
        let mut pub_msg: Vec<u8> = Vec::new();
        put_get_msg_payload(&mut pub_msg, None, Some(2), Some(&pub_cookie));
        proof {
            lemma_empty_prepend(spec_get_msg_payload(None, Some(2), Some(pub_cookie@)));
        }
        let pb_off_entry = freeze_discriminated_buffer(&off_msg);
        let pb_pub_entry = freeze_discriminated_buffer(&pub_msg);
        let legacy_entry = pack_uni_request_data(reg_req.as_slice());
        let mut entries: Vec<BufferMapEntry> = Vec::new();
        entries.push(BufferMapEntry { key: "req_PbOffMsg".to_owned(), value: pb_off_entry });
        entries.push(BufferMapEntry { key: "req_PbPubMsg".to_owned(), value: pb_pub_entry });
        entries.push(BufferMapEntry { key: "req_OffMsg".to_owned(), value: legacy_entry });
        proof {
            assert(buffer_entries_view(entries@) =~= seq![
                (
                    "req_PbOffMsg"@,
                    spec_discriminated_buffer(
                        spec_get_msg_payload(
                            Some(old(self).transport.sig.sync_cookie@),
                            Some(1),
                            None,
                        ),
                    ),
                ),
                (
                    "req_PbPubMsg"@,
                    spec_discriminated_buffer(
                        spec_get_msg_payload(
                            None,
                            Some(2),
                            Some(old(self).transport.sig.pub_account_cookie@),
                        ),
                    ),
                ),
                (
                    "req_OffMsg"@,
                    spec_uni_request_data(
                        spec_svc_req_register_new(
                            90562,
                            1,
                            old(self).uin,
                            spec_date_time(last_message_time),
                            old(self).transport.sig.sync_cookie@,
                            old(self).transport.sig.pub_account_cookie@,
                            0,
                            2,
                            end_seq,
                            spec_d769_body(),
                        ),
                    ),
                ),
            ]);
        }
        let body = seal_reg_prxy_packet(entries);
        self.uni_packet("RegPrxySvc.infoSync", body)
    }

    /// Build the synchronisation packet, drawing a random end sequence as
    /// the protocol asks.  The body is the exact synchronisation form for
    /// the value drawn.
    pub fn build_sync_msg_request_packet(&mut self, last_message_time: i64) -> (p: Packet)
        ensures
            p.packet_type == PacketType::Simple,
            p.encrypt_type == EncryptType::D2Key,
            p.command_name@ == "RegPrxySvc.infoSync"@,
            p.uin == old(self).uin,
            p.seq_id == next_seq16(old(self).seq) as i32,
            exists|end_seq: i64|
                0 <= end_seq <= 0xffff_ffffi64 && p.body@ == spec_sync_msg_body(
                    old(self).uin,
                    spec_date_time(last_message_time),
                    old(self).transport.sig.sync_cookie@,
                    old(self).transport.sig.pub_account_cookie@,
                    end_seq,
                ),
            final(self).seq == next_seq16(old(self).seq),
            final(self).uin == old(self).uin,
            final(self).packet_seq == old(self).packet_seq,
            final(self).group_seq == old(self).group_seq,
            final(self).transport == old(self).transport,
    {
        let end_seq: i64 = random_u32() as i64;
        let p = self.build_sync_msg_request_packet_with_seed(last_message_time, end_seq);
        p
    }
}

} // verus!
