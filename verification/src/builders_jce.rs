//! Request builders that route through the JCE RPC envelope: registration,
//! friend and group lists, member lists, push acknowledgements and device
//! lists.  Each payload is composed field by field through the JCE writer,
//! wrapped into the named-buffer map, and sealed in a request packet.

use vstd::prelude::*;

use crate::engine::{next_seq16, next_seq32, Engine};
use crate::jce::{
    jce_new, jce_put_bytes, jce_put_head, jce_put_i16, jce_put_i32, jce_put_i64, jce_put_i64_list,
    jce_put_string, jce_put_u8, jce_freeze, jce_view, lemma_empty_prepend, pack_uni_request_data,
    spec_buffer_map, spec_jce_bytes, spec_jce_head, spec_jce_i16, spec_jce_i32, spec_jce_i64,
    spec_jce_i64_list, spec_jce_string, spec_jce_u8, spec_request_packet, spec_uni_request_data,
    str_bytes, buffer_entries_view, BufferMapEntry, RequestDataVersion3, RequestPacket,
};
use crate::packet::{EncryptType, Packet, PacketType};
use crate::pb::{pb_put_int32, pb_put_uint64, spec_pb_varint_field};

verus! {

/// The capability probe that rides along a friend-list request.
pub open spec fn spec_d50_body() -> Seq<u8> {
    spec_pb_varint_field(1, 1002) + spec_pb_varint_field(1000, 1) + spec_pb_varint_field(1001, 1)
        + spec_pb_varint_field(1003, 1) + spec_pb_varint_field(1004, 1)
}

/// The friend-list request record: every field under its wire tag, with
/// the protocol's fixed request type, version and switches.
pub open spec fn spec_friend_list_request(
    uin: i64,
    friend_start: i16,
    friend_count: i16,
    group_start: i16,
    group_count: i16,
) -> Seq<u8> {
    spec_jce_i32(3, 0) + spec_jce_u8(
        if friend_start <= 0 {
            0u8
        } else {
            1u8
        },
        1,
    ) + spec_jce_i64(uin, 2) + spec_jce_i16(friend_start, 3) + spec_jce_i16(friend_count, 4)
        + spec_jce_u8(0, 5) + spec_jce_u8(
        if group_count <= 0 {
            0u8
        } else {
            1u8
        },
        6,
    ) + spec_jce_u8(group_start as u8, 7) + spec_jce_u8(group_count as u8, 8) + spec_jce_u8(0, 9)
        + spec_jce_u8(1, 10) + spec_jce_i32(27, 11) + spec_jce_i64_list(Seq::empty(), 12)
        + spec_jce_i32(0, 13) + spec_jce_u8(0, 14) + spec_jce_u8(0, 15) + spec_jce_bytes(
        spec_d50_body(),
        16,
    ) + spec_jce_bytes(Seq::empty(), 17) + spec_jce_i64_list(seq![13580i64, 13581i64, 13582i64], 18)
}

/// The whole friend-group-list body: the request under key "FL" with
/// delimited framing, inside the fixed-request-id envelope.
pub open spec fn spec_friend_group_list_body(
    uin: i64,
    friend_start: i16,
    friend_count: i16,
    group_start: i16,
    group_count: i16,
) -> Seq<u8> {
    spec_request_packet(
        3,
        3,
        0,
        1921334514,
        "mqq.IMService.FriendListServiceServantObj"@,
        "GetFriendListReq"@,
        spec_buffer_map(
            seq![
                (
                    "FL"@,
                    spec_uni_request_data(
                        spec_friend_list_request(
                            uin,
                            friend_start,
                            friend_count,
                            group_start,
                            group_count,
                        ),
                    ),
                ),
            ],
            0,
        ),
        0,
    )
}

/// The group-list request record.
pub open spec fn spec_troop_list_request(uin: i64, cookies: Seq<u8>) -> Seq<u8> {
    spec_jce_i64(uin, 0) + spec_jce_u8(1, 1) + spec_jce_bytes(cookies, 2) + spec_jce_i64_list(
        Seq::empty(),
        3,
    ) + spec_jce_u8(1, 4) + spec_jce_i32(7, 5) + spec_jce_i64(0, 6) + spec_jce_i32(1, 7)
        + spec_jce_u8(1, 8)
}

/// The whole group-list body, under a freshly drawn request id.
pub open spec fn spec_group_list_body(uin: i64, cookies: Seq<u8>, request_id: i32) -> Seq<u8> {
    spec_request_packet(
        3,
        0,
        0,
        request_id,
        "mqq.IMService.FriendListServiceServantObj"@,
        "GetTroopListReqV2Simplify"@,
        spec_buffer_map(
            seq![
                (
                    "GetTroopListReqV2Simplify"@,
                    spec_uni_request_data(spec_troop_list_request(uin, cookies)),
                ),
            ],
            0,
        ),
        0,
    )
}

/// The member-list request record.
pub open spec fn spec_troop_member_list_request(
    uin: i64,
    group_code: i64,
    next_uin: i64,
    group_uin: i64,
) -> Seq<u8> {
    spec_jce_i64(uin, 0) + spec_jce_i64(group_code, 1) + spec_jce_i64(next_uin, 2) + spec_jce_i64(
        group_uin,
        3,
    ) + spec_jce_i32(2, 4) + spec_jce_i32(0, 5) + spec_jce_i64(0, 6) + spec_jce_u8(0, 7)
}

/// The whole member-list body, under a freshly drawn request id.
pub open spec fn spec_group_member_list_body(
    uin: i64,
    group_uin: i64,
    group_code: i64,
    next_uin: i64,
    request_id: i32,
) -> Seq<u8> {
    spec_request_packet(
        3,
        0,
        0,
        request_id,
        "mqq.IMService.FriendListServiceServantObj"@,
        "GetTroopMemberListReq"@,
        spec_buffer_map(
            seq![
                (
                    "GTML"@,
                    spec_uni_request_data(
                        spec_troop_member_list_request(uin, group_code, next_uin, group_uin),
                    ),
                ),
            ],
            0,
        ),
        0,
    )
}

/// One message to delete, as the online-push service reported it.
pub struct PushMessageInfo {
    /// Sender id.
    pub from_uin: i64,
    /// Message time.
    pub msg_time: i64,
    /// Message sequence.
    pub msg_seq: i16,
    /// Opaque per-message cookies.
    pub msg_cookies: Vec<u8>,
}

/// The fields of the delete entries the acknowledgement carries.
pub open spec fn push_infos_view(s: Seq<PushMessageInfo>) -> Seq<(i64, i64, i16, Seq<u8>)> {
    Seq::new(s.len(), |i: int| (s[i].from_uin, s[i].msg_time, s[i].msg_seq, s[i].msg_cookies@))
}

/// One delete entry: a JCE struct holding the source, time, sequence and
/// cookies of the message being acknowledged.
pub open spec fn spec_del_msg_info(info: (i64, i64, i16, Seq<u8>)) -> Seq<u8> {
    spec_jce_head(10, 0) + spec_jce_i64(info.0, 0) + spec_jce_i64(info.1, 1) + spec_jce_i16(0, 2)
        + spec_jce_i16(info.2, 3) + spec_jce_bytes(info.3, 4) + spec_jce_i16(0, 5) + spec_jce_i64(
        0,
        6,
    ) + spec_jce_i64(0, 7) + spec_jce_head(11, 0)
}

/// The delete entries in order.
pub open spec fn spec_del_msg_infos(infos: Seq<(i64, i64, i16, Seq<u8>)>) -> Seq<u8>
    decreases infos.len(),
{
    if infos.len() == 0 {
        Seq::empty()
    } else {
        spec_del_msg_infos(infos.drop_last()) + spec_del_msg_info(infos.last())
    }
}

/// The push-response record: the user id, the delete list, the reporting
/// server, and the push token handed back.
pub open spec fn spec_svc_resp_push_msg(
    uin: i64,
    infos: Seq<(i64, i64, i16, Seq<u8>)>,
    svrip: i32,
    push_token: Seq<u8>,
) -> Seq<u8> {
    spec_jce_i64(uin, 0) + spec_jce_head(9, 1) + spec_jce_i32(infos.len() as i32, 0)
        + spec_del_msg_infos(infos) + spec_jce_i32(svrip, 2) + spec_jce_bytes(push_token, 3)
        + spec_jce_i32(0, 4)
}

/// The whole delete-online-push body, echoing the server-chosen sequence
/// as the request id.
pub open spec fn spec_delete_online_push_body(
    uin: i64,
    infos: Seq<(i64, i64, i16, Seq<u8>)>,
    svrip: i32,
    push_token: Seq<u8>,
    seq: u16,
) -> Seq<u8> {
    spec_request_packet(
        3,
        0,
        0,
        seq as i32,
        "OnlinePush"@,
        "SvcRespPushMsg"@,
        spec_buffer_map(
            seq![
                (
                    "resp"@,
                    spec_uni_request_data(spec_svc_resp_push_msg(uin, infos, svrip, push_token)),
                ),
            ],
            0,
        ),
        0,
    )
}

/// The config-push acknowledgement record: the pushed type, the packet
/// sequence being acknowledged, and the pushed buffer handed back.
pub open spec fn spec_conf_push_resp(t: i32, pkt_seq: i64, jce_buf: Seq<u8>) -> Seq<u8> {
    spec_jce_i32(t, 1) + spec_jce_i64(pkt_seq, 2) + spec_jce_bytes(jce_buf, 3)
}

/// The whole config-push acknowledgement body.
pub open spec fn spec_conf_push_resp_body(t: i32, pkt_seq: i64, jce_buf: Seq<u8>) -> Seq<u8> {
    spec_request_packet(
        3,
        0,
        0,
        0,
        "QQService.ConfigPushSvc.MainServant"@,
        "PushResp"@,
        spec_buffer_map(
            seq![("PushResp"@, spec_uni_request_data(spec_conf_push_resp(t, pkt_seq, jce_buf)))],
            0,
        ),
        0,
    )
}

/// The device-list request record: the device guid, the mobile client's
/// application name, and the list bounds.
pub open spec fn spec_dev_login_info_request(guid: Seq<u8>) -> Seq<u8> {
    spec_jce_bytes(guid, 0) + spec_jce_string(str_bytes("com.tencent.mobileqq"@), 1)
        + spec_jce_i64(1, 2) + spec_jce_i64(0, 3) + spec_jce_i64(20, 4) + spec_jce_i64(20, 5)
}

/// The whole device-list body.
pub open spec fn spec_device_list_body(guid: Seq<u8>) -> Seq<u8> {
    spec_request_packet(
        3,
        0,
        0,
        0,
        "StatSvc"@,
        "SvcReqGetDevLoginInfo"@,
        spec_buffer_map(
            seq![
                (
                    "SvcReqGetDevLoginInfo"@,
                    spec_uni_request_data(spec_dev_login_info_request(guid)),
                ),
            ],
            0,
        ),
        0,
    )
}

/// The capability blob the registration record carries verbatim.
pub open spec fn spec_b769() -> Seq<u8> {
    seq![
        0x0Au8, 0x04u8, 0x08u8, 0x2Eu8, 0x10u8, 0x00u8, 0x0Au8, 0x05u8, 0x08u8, 0x9Bu8, 0x02u8,
        0x10u8, 0x00u8,
    ]
}

/// The client registration record: every field under its wire tag, the
/// unset ones at their defaults, the protocol constants verbatim.
pub open spec fn spec_svc_req_register(
    uin: i64,
    sdk: u32,
    guid: Seq<u8>,
    model: Seq<char>,
    os_ver: Seq<char>,
    vendor_name: Seq<char>,
    vendor_os_name: Seq<char>,
) -> Seq<u8> {
    spec_jce_i64(uin, 0) + spec_jce_i64(7, 1) + spec_jce_u8(0, 2) + spec_jce_string(
        str_bytes(""@),
        3,
    ) + spec_jce_i32(11, 4) + spec_jce_u8(0, 5) + spec_jce_u8(0, 6) + spec_jce_u8(0, 7)
        + spec_jce_u8(0, 8) + spec_jce_u8(0, 9) + spec_jce_i64(0, 10) + spec_jce_i64(
        sdk as i64,
        11,
    ) + spec_jce_u8(1, 12) + spec_jce_string(str_bytes(""@), 13) + spec_jce_u8(0, 14)
        + spec_jce_bytes(Seq::empty(), 15) + spec_jce_bytes(guid, 16) + spec_jce_i32(2052, 17)
        + spec_jce_u8(0, 18) + spec_jce_string(str_bytes(model), 19) + spec_jce_string(
        str_bytes(model),
        20,
    ) + spec_jce_string(str_bytes(os_ver), 21) + spec_jce_u8(1, 22) + spec_jce_i64(1551, 23)
        + spec_jce_i64(0, 24) + spec_jce_i64_list(Seq::empty(), 25) + spec_jce_i64(0, 26)
        + spec_jce_i64(31806887127679168, 27) + spec_jce_string(str_bytes(""@), 28) + spec_jce_i64(
        0,
        29,
    ) + spec_jce_string(str_bytes(vendor_name), 30) + spec_jce_string(str_bytes(vendor_os_name), 31)
        + spec_jce_string(str_bytes(""@), 32) + spec_jce_bytes(spec_b769(), 33) + spec_jce_u8(0, 34)
        + spec_jce_bytes(Seq::empty(), 35) + spec_jce_u8(0, 36)
}

/// The whole client registration body.
pub open spec fn spec_client_register_body(
    uin: i64,
    sdk: u32,
    guid: Seq<u8>,
    model: Seq<char>,
    os_ver: Seq<char>,
    vendor_name: Seq<char>,
    vendor_os_name: Seq<char>,
) -> Seq<u8> {
    spec_request_packet(
        3,
        0,
        0,
        0,
        "PushService"@,
        "SvcReqRegister"@,
        spec_buffer_map(
            seq![
                (
                    "SvcReqRegister"@,
                    spec_uni_request_data(
                        spec_svc_req_register(
                            uin,
                            sdk,
                            guid,
                            model,
                            os_ver,
                            vendor_name,
                            vendor_os_name,
                        ),
                    ),
                ),
            ],
            0,
        ),
        0,
    )
}

/// Wrap one delimited payload under one parameter name and seal it in a
/// request packet.
fn seal_single_entry_packet(
    key: &str,
    payload: Vec<u8>,
    packet_type: u8,
    request_id: i32,
    servant: &str,
    func: &str,
) -> (r: Vec<u8>)
    ensures
        r@ == spec_request_packet(
            3,
            packet_type,
            0,
            request_id,
            servant@,
            func@,
            spec_buffer_map(seq![(key@, spec_uni_request_data(payload@))], 0),
            0,
        ),
{
    let wrapped = pack_uni_request_data(payload.as_slice());
    let mut entries: Vec<BufferMapEntry> = Vec::new();
    entries.push(BufferMapEntry { key: key.to_owned(), value: wrapped });
    let rdv3 = RequestDataVersion3 { entries };
    proof {
        assert(buffer_entries_view(rdv3.entries@) =~= seq![
            (key@, spec_uni_request_data(payload@)),
        ]);
    }
    let buf = rdv3.freeze();
    let pkt = RequestPacket {
        i_version: 3,
        c_packet_type: packet_type,
        i_message_type: 0,
        i_request_id: request_id,
        s_servant_name: servant.to_owned(),
        s_func_name: func.to_owned(),
        s_buffer: buf,
        i_timeout: 0,
    };
    pkt.freeze()
}

impl Engine {
    /// Build the packet that asks for the friend and friend-group lists,
    /// paged by the given start indexes and counts.
    pub fn build_friend_group_list_request_packet(
        &mut self,
        friend_start_index: i16,
        friend_list_count: i16,
        group_start_index: i16,
        group_list_count: i16,
    ) -> (p: Packet)
        ensures
            p.packet_type == PacketType::Simple,
            p.encrypt_type == EncryptType::D2Key,
            p.command_name@ == "friendlist.getFriendGroupList"@,
            p.uin == old(self).uin,
            p.seq_id == next_seq16(old(self).seq) as i32,
            p.body@ == spec_friend_group_list_body(
                old(self).uin,
                friend_start_index,
                friend_list_count,
                group_start_index,
                group_list_count,
            ),
            final(self).seq == next_seq16(old(self).seq),
            final(self).uin == old(self).uin,
            final(self).packet_seq == old(self).packet_seq,
            final(self).group_seq == old(self).group_seq,
            final(self).transport == old(self).transport,
    {
        let mut d50: Vec<u8> = Vec::new();
        pb_put_uint64(&mut d50, 1, 1002);
        proof {
            lemma_empty_prepend(spec_pb_varint_field(1, 1002));
        }
        pb_put_int32(&mut d50, 1000, 1);
        pb_put_int32(&mut d50, 1001, 1);
        pb_put_int32(&mut d50, 1003, 1);
        pb_put_int32(&mut d50, 1004, 1);
        let mut w = jce_new();
        jce_put_i32(&mut w, 3, 0);
        proof {
            lemma_empty_prepend(spec_jce_i32(3, 0));
        }
        jce_put_u8(&mut w, if friend_start_index <= 0 { 0 } else { 1 }, 1);
        jce_put_i64(&mut w, self.uin, 2);
        jce_put_i16(&mut w, friend_start_index, 3);
        jce_put_i16(&mut w, friend_list_count, 4);
        jce_put_u8(&mut w, 0, 5);
        jce_put_u8(&mut w, if group_list_count <= 0 { 0 } else { 1 }, 6);
        jce_put_u8(&mut w, #[verifier::truncate] (group_start_index as u8), 7);
        jce_put_u8(&mut w, #[verifier::truncate] (group_list_count as u8), 8);
        jce_put_u8(&mut w, 0, 9);
        jce_put_u8(&mut w, 1, 10);
        jce_put_i32(&mut w, 27, 11);
        let empty_list: Vec<i64> = Vec::new();
        jce_put_i64_list(&mut w, &empty_list, 12);
        jce_put_i32(&mut w, 0, 13);
        jce_put_u8(&mut w, 0, 14);
        jce_put_u8(&mut w, 0, 15);
        jce_put_bytes(&mut w, d50.as_slice(), 16);
        let empty_buf: Vec<u8> = Vec::new();
        jce_put_bytes(&mut w, empty_buf.as_slice(), 17);
        let mut sns: Vec<i64> = Vec::new();
        sns.push(13580);
        sns.push(13581);
        sns.push(13582);
        proof {
            assert(sns@ =~= seq![13580i64, 13581i64, 13582i64]);
        }
        jce_put_i64_list(&mut w, &sns, 18);
        let payload = jce_freeze(w);
        let body = seal_single_entry_packet(
            "FL",
            payload,
            3,
            1921334514,
            "mqq.IMService.FriendListServiceServantObj",
            "GetFriendListReq",
        );
        self.uni_packet("friendlist.getFriendGroupList", body)
    }

    /// Build the packet that asks for the group list, resuming from the
    /// server-issued cookie when one is held.
    pub fn build_group_list_request_packet(&mut self, vec_cookie: &[u8]) -> (p: Packet)
        ensures
            p.packet_type == PacketType::Simple,
            p.encrypt_type == EncryptType::D2Key,
            p.command_name@ == "friendlist.GetTroopListReqV2"@,
            p.uin == old(self).uin,
            p.seq_id == next_seq16(old(self).seq) as i32,
            p.body@ == spec_group_list_body(
                old(self).uin,
                vec_cookie@,
                next_seq32(old(self).packet_seq),
            ),
            final(self).seq == next_seq16(old(self).seq),
            final(self).packet_seq == next_seq32(old(self).packet_seq),
            final(self).uin == old(self).uin,
            final(self).group_seq == old(self).group_seq,
            final(self).transport == old(self).transport,
    {
        let mut w = jce_new();
        jce_put_i64(&mut w, self.uin, 0);
        proof {
            lemma_empty_prepend(spec_jce_i64(self.uin, 0));
        }
        jce_put_u8(&mut w, 1, 1);
        jce_put_bytes(&mut w, vec_cookie, 2);
        let empty_list: Vec<i64> = Vec::new();
        jce_put_i64_list(&mut w, &empty_list, 3);
        jce_put_u8(&mut w, 1, 4);
        jce_put_i32(&mut w, 7, 5);
        jce_put_i64(&mut w, 0, 6);
        jce_put_i32(&mut w, 1, 7);
        jce_put_u8(&mut w, 1, 8);
        let payload = jce_freeze(w);
        let request_id = self.next_packet_seq();
        let body = seal_single_entry_packet(
            "GetTroopListReqV2Simplify",
            payload,
            0,
            request_id,
            "mqq.IMService.FriendListServiceServantObj",
            "GetTroopListReqV2Simplify",
        );
        self.uni_packet("friendlist.GetTroopListReqV2", body)
    }

    /// Build the packet that pages through a group's member list from the
    /// given member id on.
    pub fn build_group_member_list_request_packet(
        &mut self,
        group_uin: i64,
        group_code: i64,
        next_uin: i64,
    ) -> (p: Packet)
        ensures
            p.packet_type == PacketType::Simple,
            p.encrypt_type == EncryptType::D2Key,
            p.command_name@ == "friendlist.GetTroopMemberListReq"@,
            p.uin == old(self).uin,
            p.seq_id == next_seq16(old(self).seq) as i32,
            p.body@ == spec_group_member_list_body(
                old(self).uin,
                group_uin,
                group_code,
                next_uin,
                next_seq32(old(self).packet_seq),
            ),
            final(self).seq == next_seq16(old(self).seq),
            final(self).packet_seq == next_seq32(old(self).packet_seq),
            final(self).uin == old(self).uin,
            final(self).group_seq == old(self).group_seq,
            final(self).transport == old(self).transport,
    {
        let mut w = jce_new();
        jce_put_i64(&mut w, self.uin, 0);
        proof {
            lemma_empty_prepend(spec_jce_i64(self.uin, 0));
        }
        jce_put_i64(&mut w, group_code, 1);
        jce_put_i64(&mut w, next_uin, 2);
        jce_put_i64(&mut w, group_uin, 3);
        jce_put_i32(&mut w, 2, 4);
        jce_put_i32(&mut w, 0, 5);
        jce_put_i64(&mut w, 0, 6);
        jce_put_u8(&mut w, 0, 7);
        let payload = jce_freeze(w);
        let request_id = self.next_packet_seq();
        let body = seal_single_entry_packet(
            "GTML",
            payload,
            0,
            request_id,
            "mqq.IMService.FriendListServiceServantObj",
            "GetTroopMemberListReq",
        );
        self.uni_packet("friendlist.GetTroopMemberListReq", body)
    }

    /// Build the packet that acknowledges delivered online-push messages so
    /// the server deletes them, echoing the server-chosen sequence.
    #[verifier::rlimit(100)]
    pub fn build_delete_online_push_packet(
        &mut self,
        uin: i64,
        svrip: i32,
        push_token: Vec<u8>,
        seq: u16,
        del_msg: Vec<PushMessageInfo>,
    ) -> (p: Packet)
        ensures
            p.packet_type == PacketType::Simple,
            p.encrypt_type == EncryptType::D2Key,
            p.command_name@ == "OnlinePush.RespPush"@,
            p.uin == old(self).uin,
            p.seq_id == next_seq16(old(self).seq) as i32,
            p.body@ == spec_delete_online_push_body(
                uin,
                push_infos_view(del_msg@),
                svrip,
                push_token@,
                seq,
            ),
            final(self).seq == next_seq16(old(self).seq),
            final(self).uin == old(self).uin,
            final(self).packet_seq == old(self).packet_seq,
            final(self).group_seq == old(self).group_seq,
            final(self).transport == old(self).transport,
    {
        let ghost iv = push_infos_view(del_msg@);
        let mut w = jce_new();
        jce_put_i64(&mut w, uin, 0);
        proof {
            lemma_empty_prepend(spec_jce_i64(uin, 0));
        }
        jce_put_head(&mut w, 9, 1);
        let n = del_msg.len();
        jce_put_i32(&mut w, #[verifier::truncate] (n as i32), 0);
        let ghost prefix = spec_jce_i64(uin, 0) + spec_jce_head(9, 1) + spec_jce_i32(
            iv.len() as i32,
            0,
        );
        let mut i: usize = 0;
        proof {
            assert(spec_del_msg_infos(iv.take(0)) =~= Seq::<u8>::empty());
            assert(jce_view(w) + spec_del_msg_infos(iv.take(0)) =~= jce_view(w));
        }
        while i < n
            invariant
                n == del_msg@.len(),
                i <= n,
                iv == push_infos_view(del_msg@),
                prefix == spec_jce_i64(uin, 0) + spec_jce_head(9, 1) + spec_jce_i32(
                    iv.len() as i32,
                    0,
                ),
                jce_view(w) == prefix + spec_del_msg_infos(iv.take(i as int)),
            decreases n - i,
        {
            let info = &del_msg[i];
            proof {
                assert(iv[i as int] == (info.from_uin, info.msg_time, info.msg_seq,
                info.msg_cookies@));
            }
            jce_put_head(&mut w, 10, 0);
            jce_put_i64(&mut w, info.from_uin, 0);
            jce_put_i64(&mut w, info.msg_time, 1);
            jce_put_i16(&mut w, 0, 2);
            jce_put_i16(&mut w, info.msg_seq, 3);
            jce_put_bytes(&mut w, info.msg_cookies.as_slice(), 4);
            jce_put_i16(&mut w, 0, 5);
            jce_put_i64(&mut w, 0, 6);
            jce_put_i64(&mut w, 0, 7);
            jce_put_head(&mut w, 11, 0);
            proof {
                assert(iv.take(i + 1).drop_last() =~= iv.take(i as int));
                assert(iv.take(i + 1).last() == iv[i as int]);
                assert(jce_view(w) =~= prefix + spec_del_msg_infos(iv.take(i + 1)));
            }
            i = i + 1;
        }
        proof {
            assert(iv.take(n as int) =~= iv);
        }
        jce_put_i32(&mut w, svrip, 2);
        jce_put_bytes(&mut w, push_token.as_slice(), 3);
        jce_put_i32(&mut w, 0, 4);
        let payload = jce_freeze(w);
        let body = seal_single_entry_packet(
            "resp",
            payload,
            0,
            seq as i32,
            "OnlinePush",
            "SvcRespPushMsg",
        );
        self.uni_packet("OnlinePush.RespPush", body)
    }

    /// Build the packet that acknowledges a config push, handing the pushed
    /// buffer back with its type and sequence.
    pub fn build_conf_push_resp_packet(&mut self, t: i32, pkt_seq: i64, jce_buf: Vec<u8>) -> (p:
        Packet)
        ensures
            p.packet_type == PacketType::Simple,
            p.encrypt_type == EncryptType::D2Key,
            p.command_name@ == "ConfigPushSvc.PushResp"@,
            p.uin == old(self).uin,
            p.seq_id == next_seq16(old(self).seq) as i32,
            p.body@ == spec_conf_push_resp_body(t, pkt_seq, jce_buf@),
            final(self).seq == next_seq16(old(self).seq),
            final(self).uin == old(self).uin,
            final(self).packet_seq == old(self).packet_seq,
            final(self).group_seq == old(self).group_seq,
            final(self).transport == old(self).transport,
    {
        let mut w = jce_new();
        jce_put_i32(&mut w, t, 1);
        proof {
            lemma_empty_prepend(spec_jce_i32(t, 1));
        }
        jce_put_i64(&mut w, pkt_seq, 2);
        jce_put_bytes(&mut w, jce_buf.as_slice(), 3);
        let payload = jce_freeze(w);
        let body = seal_single_entry_packet(
            "PushResp",
            payload,
            0,
            0,
            "QQService.ConfigPushSvc.MainServant",
            "PushResp",
        );
        self.uni_packet("ConfigPushSvc.PushResp", body)
    }

    /// Build the packet that asks for the account's device login list.
    pub fn build_device_list_request_packet(&mut self) -> (p: Packet)
        ensures
            p.packet_type == PacketType::Simple,
            p.encrypt_type == EncryptType::D2Key,
            p.command_name@ == "StatSvc.GetDevLoginInfo"@,
            p.uin == old(self).uin,
            p.seq_id == next_seq16(old(self).seq) as i32,
            p.body@ == spec_device_list_body(old(self).transport.sig.guid@),
            final(self).seq == next_seq16(old(self).seq),
            final(self).uin == old(self).uin,
            final(self).packet_seq == old(self).packet_seq,
            final(self).group_seq == old(self).group_seq,
            final(self).transport == old(self).transport,
    {
        let mut w = jce_new();
        jce_put_bytes(&mut w, self.transport.sig.guid.as_slice(), 0);
        proof {
            lemma_empty_prepend(spec_jce_bytes(self.transport.sig.guid@, 0));
        }
        jce_put_string(&mut w, "com.tencent.mobileqq", 1);
        jce_put_i64(&mut w, 1, 2);
        jce_put_i64(&mut w, 0, 3);
        jce_put_i64(&mut w, 20, 4);
        jce_put_i64(&mut w, 20, 5);
        let payload = jce_freeze(w);
        let body = seal_single_entry_packet(
            "SvcReqGetDevLoginInfo",
            payload,
            0,
            0,
            "StatSvc",
            "SvcReqGetDevLoginInfo",
        );
        self.uni_packet("StatSvc.GetDevLoginInfo", body)
    }

    /// Build the login-path packet that registers the client online: the
    /// full registration record, wrapped and sealed, under the login
    /// transport framing.
    pub fn build_client_register_packet(&mut self) -> (p: Packet)
        ensures
            p.packet_type == PacketType::Login,
            p.encrypt_type == EncryptType::D2Key,
            p.command_name@ == "StatSvc.register"@,
            p.uin == old(self).uin,
            p.seq_id == next_seq16(old(self).seq) as i32,
            p.body@ == spec_client_register_body(
                old(self).uin,
                old(self).transport.device.version.sdk,
                old(self).transport.sig.guid@,
                old(self).transport.device.model@,
                old(self).transport.device.version.release@,
                old(self).transport.device.vendor_name@,
                old(self).transport.device.vendor_os_name@,
            ),
            final(self).seq == next_seq16(old(self).seq),
            final(self).uin == old(self).uin,
            final(self).packet_seq == old(self).packet_seq,
            final(self).group_seq == old(self).group_seq,
            final(self).transport == old(self).transport,
    {
        let seq = self.next_seq();
        let empty_buf: Vec<u8> = Vec::new();
        let empty_list: Vec<i64> = Vec::new();
        let mut w = jce_new();
        jce_put_i64(&mut w, self.uin, 0);
        proof {
            lemma_empty_prepend(spec_jce_i64(self.uin, 0));
        }
        jce_put_i64(&mut w, 7, 1);
        jce_put_u8(&mut w, 0, 2);
        jce_put_string(&mut w, "", 3);
        jce_put_i32(&mut w, 11, 4);
        jce_put_u8(&mut w, 0, 5);
        jce_put_u8(&mut w, 0, 6);
        jce_put_u8(&mut w, 0, 7);
        jce_put_u8(&mut w, 0, 8);
        jce_put_u8(&mut w, 0, 9);
        jce_put_i64(&mut w, 0, 10);
        jce_put_i64(&mut w, self.transport.device.version.sdk as i64, 11);
        jce_put_u8(&mut w, 1, 12);
        jce_put_string(&mut w, "", 13);
        jce_put_u8(&mut w, 0, 14);
        jce_put_bytes(&mut w, empty_buf.as_slice(), 15);
        jce_put_bytes(&mut w, self.transport.sig.guid.as_slice(), 16);
        jce_put_i32(&mut w, 2052, 17);
        jce_put_u8(&mut w, 0, 18);
        jce_put_string(&mut w, self.transport.device.model.as_str(), 19);
        jce_put_string(&mut w, self.transport.device.model.as_str(), 20);
        jce_put_string(&mut w, self.transport.device.version.release.as_str(), 21);
        jce_put_u8(&mut w, 1, 22);
        jce_put_i64(&mut w, 1551, 23);
        jce_put_i64(&mut w, 0, 24);
        jce_put_i64_list(&mut w, &empty_list, 25);
        jce_put_i64(&mut w, 0, 26);
        jce_put_i64(&mut w, 31806887127679168, 27);
        jce_put_string(&mut w, "", 28);
        jce_put_i64(&mut w, 0, 29);
        jce_put_string(&mut w, self.transport.device.vendor_name.as_str(), 30);
        jce_put_string(&mut w, self.transport.device.vendor_os_name.as_str(), 31);
        jce_put_string(&mut w, "", 32);
        let mut b769: Vec<u8> = Vec::new();
        b769.push(0x0A);
        b769.push(0x04);
        b769.push(0x08);
        b769.push(0x2E);
        b769.push(0x10);
        b769.push(0x00);
        b769.push(0x0A);
        b769.push(0x05);
        b769.push(0x08);
        b769.push(0x9B);
        b769.push(0x02);
        b769.push(0x10);
        b769.push(0x00);
        proof {
            assert(b769@ =~= spec_b769());
        }
        jce_put_bytes(&mut w, b769.as_slice(), 33);
        jce_put_u8(&mut w, 0, 34);
        jce_put_bytes(&mut w, empty_buf.as_slice(), 35);
        jce_put_u8(&mut w, 0, 36);
        let payload = jce_freeze(w);
        let body = seal_single_entry_packet(
            "SvcReqRegister",
            payload,
            0,
            0,
            "PushService",
            "SvcReqRegister",
        );
        Packet {
            packet_type: PacketType::Login,
            encrypt_type: EncryptType::D2Key,
            seq_id: seq as i32,
            body,
            command_name: "StatSvc.register".to_owned(),
            uin: self.uin,
        }
    }
}

} // verus!
