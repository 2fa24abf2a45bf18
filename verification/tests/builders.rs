use std::collections::HashMap;

use oicq_core::engine::{ClientVersion, Device, DeviceVersion, Engine, Sig, Transport};
use oicq_core::builders_jce::PushMessageInfo;
use oicq_core::jce::pack_uni_request_data;
use oicq_core::packet::{EncryptType, EncryptionMethod, PacketType};

fn mk_engine() -> Engine {
    Engine::new(
        987654321,
        Transport {
            sig: Sig {
                guid: vec![1, 2, 3, 4],
                sync_cookie: vec![],
                pub_account_cookie: vec![],
            },
            device: Device {
                model: "model-x".to_string(),
                vendor_name: "vendor".to_string(),
                vendor_os_name: "vendor-os".to_string(),
                version: DeviceVersion { sdk: 29, release: "10".to_string() },
            },
            version: ClientVersion { app_id: 537066738 },
        },
    )
}

fn read_varint(b: &[u8], pos: &mut usize) -> u64 {
    let mut v: u64 = 0;
    let mut shift = 0;
    loop {
        let byte = b[*pos];
        *pos += 1;
        v |= ((byte & 0x7F) as u64) << shift;
        if byte < 0x80 {
            return v;
        }
        shift += 7;
    }
}

/// Parse one level of protobuf fields into (field number, payload) pairs;
/// varint fields keep their value, length-delimited fields their bytes.
fn parse_pb(b: &[u8]) -> Vec<(u32, Result<u64, Vec<u8>>)> {
    let mut out = Vec::new();
    let mut pos = 0;
    while pos < b.len() {
        let key = read_varint(b, &mut pos);
        let field = (key >> 3) as u32;
        match key & 7 {
            0 => {
                let v = read_varint(b, &mut pos);
                out.push((field, Ok(v)));
            }
            2 => {
                let len = read_varint(b, &mut pos) as usize;
                out.push((field, Err(b[pos..pos + len].to_vec())));
                pos += len;
            }
            w => panic!("unexpected wire type {w}"),
        }
    }
    out
}

fn pb_field(fields: &[(u32, Result<u64, Vec<u8>>)], n: u32) -> Result<u64, Vec<u8>> {
    fields.iter().find(|(f, _)| *f == n).expect("field missing").1.clone()
}

#[test]
fn uni_packet_draws_distinct_seq_ids() {
    let mut e = mk_engine();
    let p1 = e.uni_packet("a.b", vec![1]);
    let p2 = e.uni_packet("a.b", vec![1]);
    assert_ne!(p1.seq_id, p2.seq_id);
    assert_eq!(p1.uin, 987654321);
    assert_eq!(p2.uin, 987654321);
    assert_eq!(p1.seq_id, 0x3636);
    assert_eq!(p2.seq_id, 0x3637);
}

#[test]
fn uni_packet_seq_ids_unique_over_many_draws() {
    let mut e = mk_engine();
    let mut seen = std::collections::HashSet::new();
    for _ in 0..1000 {
        let p = e.uni_packet("a.b", vec![]);
        assert!(seen.insert(p.seq_id));
    }
}

#[test]
fn uni_packet_with_seq_echoes_the_sequence() {
    let e = mk_engine();
    let p = e.uni_packet_with_seq(4242, "x.y", vec![9, 9]);
    assert_eq!(p.seq_id, 4242);
    assert_eq!(p.command_name, "x.y");
    assert_eq!(p.body, vec![9, 9]);
    assert_eq!(p.packet_type, PacketType::Simple);
    assert_eq!(p.encrypt_type, EncryptType::D2Key);
    assert_eq!(p.uin, 987654321);
}

#[test]
fn pack_uni_request_data_wraps_with_markers() {
    assert_eq!(pack_uni_request_data(&[1, 2, 3]), vec![0x0A, 1, 2, 3, 0x0B]);
    assert_eq!(pack_uni_request_data(&[]), vec![0x0A, 0x0B]);
}

#[test]
fn group_sending_round_trip() {
    let mut e = mk_engine();
    let p = e.build_group_sending_packet(123, 456, 1, 0, 0, false, vec![]);
    assert_eq!(p.command_name, "MessageSvc.PbSendMsg");
    assert_eq!(p.uin, 987654321);
    let fields = parse_pb(&p.body);
    let routing = pb_field(&fields, 1).unwrap_err();
    let grp = pb_field(&parse_pb(&routing), 2).unwrap_err();
    assert_eq!(pb_field(&parse_pb(&grp), 1).unwrap(), 123);
    assert_eq!(pb_field(&fields, 5).unwrap(), 456);
    let content = pb_field(&fields, 2).unwrap_err();
    assert_eq!(pb_field(&parse_pb(&content), 1).unwrap(), 1);
}

#[test]
fn group_sending_forward_flag_adds_msg_ctrl() {
    let mut e1 = mk_engine();
    let mut e2 = mk_engine();
    let plain = e1.build_group_sending_packet(5, 6, 1, 0, 0, false, vec![]);
    let fwd = e2.build_group_sending_packet(5, 6, 1, 0, 0, true, vec![]);
    let plain_fields = parse_pb(&plain.body);
    let fwd_fields = parse_pb(&fwd.body);
    assert!(plain_fields.iter().all(|(f, _)| *f != 12));
    let ctrl = pb_field(&fwd_fields, 12).unwrap_err();
    assert_eq!(pb_field(&parse_pb(&ctrl), 1).unwrap(), 4);
}

#[test]
fn builders_are_pure_given_equal_state() {
    let mut e1 = mk_engine();
    let mut e2 = mk_engine();
    let p1 = e1.build_group_sending_packet(123, 456, 1, 0, 0, false, vec![vec![8, 8]]);
    let p2 = e2.build_group_sending_packet(123, 456, 1, 0, 0, false, vec![vec![8, 8]]);
    assert_eq!(p1.body, p2.body);
    let q1 = e1.build_conf_push_resp_packet(1, 170, vec![1, 2, 3]);
    let q2 = e2.build_conf_push_resp_packet(1, 170, vec![1, 2, 3]);
    assert_eq!(q1.body, q2.body);
    let r1 = e1.build_client_register_packet();
    let r2 = e2.build_client_register_packet();
    assert_eq!(r1.body, r2.body);
    let s1 = e1.build_get_offline_msg_request_packet_at(0, 777);
    let s2 = e2.build_get_offline_msg_request_packet_at(0, 777);
    assert_eq!(s1.body, s2.body);
}

#[test]
fn conf_push_resp_matches_hand_built_envelope() {
    let mut e = mk_engine();
    let p = e.build_conf_push_resp_packet(1, 170, vec![1, 2, 3]);
    assert_eq!(p.command_name, "ConfigPushSvc.PushResp");

    let mut payload = jcers::JceMut::new();
    payload.put_i32(1, 1);
    payload.put_i64(170, 2);
    payload.put_bytes(bytes::Bytes::from(vec![1u8, 2, 3]), 3);
    let payload = payload.freeze();
    let mut wrapped = vec![0x0Au8];
    wrapped.extend_from_slice(&payload);
    wrapped.push(0x0B);

    let mut buf = jcers::JceMut::new();
    buf.put_head(8, 0);
    buf.put_i32(1, 0);
    buf.put_string("PushResp".to_string(), 0);
    buf.put_bytes(bytes::Bytes::from(wrapped), 1);
    let buf = buf.freeze();

    let mut pkt = jcers::JceMut::new();
    pkt.put_i16(3, 1);
    pkt.put_u8(0, 2);
    pkt.put_i32(0, 3);
    pkt.put_i32(0, 4);
    pkt.put_string("QQService.ConfigPushSvc.MainServant".to_string(), 5);
    pkt.put_string("PushResp".to_string(), 6);
    pkt.put_bytes(buf, 7);
    pkt.put_i32(0, 8);
    pkt.put_map(HashMap::<String, String>::new(), 9);
    pkt.put_map(HashMap::<String, String>::new(), 10);
    let expected = pkt.freeze().to_vec();

    assert_eq!(p.body, expected);
}

#[test]
fn device_list_matches_hand_built_envelope() {
    let mut e = mk_engine();
    let p = e.build_device_list_request_packet();
    assert_eq!(p.command_name, "StatSvc.GetDevLoginInfo");

    let mut payload = jcers::JceMut::new();
    payload.put_bytes(bytes::Bytes::from(vec![1u8, 2, 3, 4]), 0);
    payload.put_string("com.tencent.mobileqq".to_string(), 1);
    payload.put_i64(1, 2);
    payload.put_i64(0, 3);
    payload.put_i64(20, 4);
    payload.put_i64(20, 5);
    let payload = payload.freeze();
    let mut wrapped = vec![0x0Au8];
    wrapped.extend_from_slice(&payload);
    wrapped.push(0x0B);

    let mut buf = jcers::JceMut::new();
    buf.put_head(8, 0);
    buf.put_i32(1, 0);
    buf.put_string("SvcReqGetDevLoginInfo".to_string(), 0);
    buf.put_bytes(bytes::Bytes::from(wrapped), 1);
    let buf = buf.freeze();

    let mut pkt = jcers::JceMut::new();
    pkt.put_i16(3, 1);
    pkt.put_u8(0, 2);
    pkt.put_i32(0, 3);
    pkt.put_i32(0, 4);
    pkt.put_string("StatSvc".to_string(), 5);
    pkt.put_string("SvcReqGetDevLoginInfo".to_string(), 6);
    pkt.put_bytes(buf, 7);
    pkt.put_i32(0, 8);
    pkt.put_map(HashMap::<String, String>::new(), 9);
    pkt.put_map(HashMap::<String, String>::new(), 10);
    let expected = pkt.freeze().to_vec();

    assert_eq!(p.body, expected);
}

#[test]
fn get_message_matches_hand_built_payload() {
    let mut e = mk_engine();
    let p = e.build_get_message_request_packet(0, 1583000000);
    assert_eq!(p.command_name, "MessageSvc.PbGetMsg");

    let mut cookie: Vec<u8> = Vec::new();
    prost::encoding::int64::encode(2, &1583000000i64, &mut cookie);
    prost::encoding::int64::encode(3, &758330138i64, &mut cookie);
    prost::encoding::int64::encode(4, &2480149246i64, &mut cookie);
    prost::encoding::int64::encode(5, &1167238020i64, &mut cookie);
    prost::encoding::int64::encode(6, &3913056418i64, &mut cookie);
    prost::encoding::int64::encode(7, &0x1Di64, &mut cookie);

    let mut expected: Vec<u8> = Vec::new();
    prost::encoding::int32::encode(1, &0i32, &mut expected);
    prost::encoding::bytes::encode(2, &cookie, &mut expected);
    prost::encoding::int32::encode(4, &20i32, &mut expected);
    prost::encoding::int32::encode(5, &3i32, &mut expected);
    prost::encoding::int32::encode(6, &1i32, &mut expected);
    prost::encoding::int32::encode(7, &1i32, &mut expected);
    prost::encoding::int32::encode(9, &1i32, &mut expected);
    let empty: Vec<u8> = Vec::new();
    prost::encoding::bytes::encode(10, &empty, &mut expected);
    prost::encoding::bytes::encode(11, &empty, &mut expected);
    prost::encoding::bytes::encode(12, &empty, &mut expected);

    assert_eq!(p.body, expected);
}

#[test]
fn get_message_uses_held_sync_cookie() {
    let mut e = mk_engine();
    e.transport.sig.sync_cookie = vec![9, 8, 7];
    let p = e.build_get_message_request_packet(1, 0);
    let fields = parse_pb(&p.body);
    assert_eq!(pb_field(&fields, 2).unwrap_err(), vec![9, 8, 7]);
    assert_eq!(pb_field(&fields, 1).unwrap(), 1);
}

#[test]
fn group_msg_readed_matches_hand_built_payload() {
    let mut e = mk_engine();
    let p = e.build_group_msg_readed_packet(123, 77);
    assert_eq!(p.command_name, "PbMessageSvc.PbMsgReadedReport");

    let mut inner: Vec<u8> = Vec::new();
    prost::encoding::uint64::encode(1, &123u64, &mut inner);
    prost::encoding::uint64::encode(2, &77u64, &mut inner);
    let mut expected: Vec<u8> = Vec::new();
    prost::encoding::bytes::encode(1, &inner, &mut expected);

    assert_eq!(p.body, expected);
}

#[test]
fn private_msg_readed_carries_peer_and_time() {
    let mut e = mk_engine();
    e.transport.sig.sync_cookie = vec![5, 5];
    let p = e.build_private_msg_readed_packet(42, 1000);
    let fields = parse_pb(&p.body);
    let c2c = pb_field(&fields, 3).unwrap_err();
    let c2c_fields = parse_pb(&c2c);
    assert_eq!(pb_field(&c2c_fields, 1).unwrap_err(), vec![5, 5]);
    let pair = pb_field(&c2c_fields, 2).unwrap_err();
    assert_eq!(pb_field(&parse_pb(&pair), 1).unwrap(), 42);
    assert_eq!(pb_field(&parse_pb(&pair), 2).unwrap(), 1000);
}

#[test]
fn system_msg_new_group_request_type_follows_suspicious() {
    let mut e1 = mk_engine();
    let mut e2 = mk_engine();
    let plain = e1.build_system_msg_new_group_packet(false);
    let susp = e2.build_system_msg_new_group_packet(true);
    assert_eq!(plain.command_name, "ProfileService.Pb.ReqSystemMsgNew.Group");
    assert_eq!(pb_field(&parse_pb(&plain.body), 11).unwrap(), 1);
    assert_eq!(pb_field(&parse_pb(&susp.body), 11).unwrap(), 2);
    assert_eq!(pb_field(&parse_pb(&plain.body), 1).unwrap(), 100);
    assert_eq!(pb_field(&parse_pb(&plain.body), 4).unwrap(), 1000);
}

#[test]
fn group_member_info_skips_zero_ids() {
    let mut e = mk_engine();
    let p = e.build_group_member_info_request_packet(0, 55);
    assert_eq!(p.command_name, "group_member_card.get_group_member_card_info");
    let fields = parse_pb(&p.body);
    assert!(fields.iter().all(|(f, _)| *f != 1));
    assert_eq!(pb_field(&fields, 2).unwrap(), 55);
    assert_eq!(pb_field(&fields, 3).unwrap(), 1);
}

#[test]
fn group_info_request_carries_command_and_group() {
    let mut e = mk_engine();
    let p = e.build_group_info_request_packet(321);
    assert_eq!(p.command_name, "OidbSvc.0x88d_0");
    let fields = parse_pb(&p.body);
    assert_eq!(pb_field(&fields, 1).unwrap(), 2189);
    let d88d = pb_field(&fields, 4).unwrap_err();
    let d88d_fields = parse_pb(&d88d);
    assert_eq!(pb_field(&d88d_fields, 1).unwrap(), 537066738);
    let req_info = pb_field(&d88d_fields, 2).unwrap_err();
    assert_eq!(pb_field(&parse_pb(&req_info), 1).unwrap(), 321);
}

#[test]
fn client_register_packet_uses_login_framing() {
    let mut e = mk_engine();
    let p = e.build_client_register_packet();
    assert_eq!(p.packet_type, PacketType::Login);
    assert_eq!(p.encrypt_type, EncryptType::D2Key);
    assert_eq!(p.command_name, "StatSvc.register");
    assert_eq!(p.uin, 987654321);
    assert_eq!(p.seq_id, 0x3636);
    // Envelope head: version 3 under tag 1, zero packet type under tag 2,
    // zero message type and request id under tags 3 and 4.
    assert_eq!(&p.body[0..5], &[0x10, 0x03, 0x2C, 0x3C, 0x4C]);
    // The registration record travels under its protocol parameter name.
    let needle = b"SvcReqRegister";
    assert!(p.body.windows(needle.len()).any(|w| w == needle));
}

#[test]
fn offline_and_sync_bodies_carry_both_paths() {
    let mut e1 = mk_engine();
    let off = e1.build_get_offline_msg_request_packet_at(0, 777);
    assert_eq!(off.command_name, "RegPrxySvc.getOffMsg");
    for needle in [b"req_PbOffMsg".as_slice(), b"req_OffMsg".as_slice()] {
        assert!(off.body.windows(needle.len()).any(|w| w == needle));
    }
    let mut e2 = mk_engine();
    let sync = e2.build_sync_msg_request_packet_with_seed(0, 777);
    assert_eq!(sync.command_name, "RegPrxySvc.infoSync");
    for needle in [
        b"req_PbOffMsg".as_slice(),
        b"req_PbPubMsg".as_slice(),
        b"req_OffMsg".as_slice(),
    ] {
        assert!(sync.body.windows(needle.len()).any(|w| w == needle));
    }
}

#[test]
fn sync_msg_random_seed_still_routes_correctly() {
    let mut e = mk_engine();
    let p = e.build_sync_msg_request_packet(12345);
    assert_eq!(p.command_name, "RegPrxySvc.infoSync");
    assert_eq!(p.uin, 987654321);
    assert!(!p.body.is_empty());
}

#[test]
fn offline_msg_wall_clock_end_seq() {
    let mut e = mk_engine();
    let p = e.build_get_offline_msg_request_packet(0);
    assert_eq!(p.command_name, "RegPrxySvc.getOffMsg");
    assert!(!p.body.is_empty());
}

#[test]
fn friend_group_list_reflush_follows_start_index() {
    let mut e1 = mk_engine();
    let mut e2 = mk_engine();
    let first = e1.build_friend_group_list_request_packet(0, 150, 0, 0);
    let refetch = e2.build_friend_group_list_request_packet(50, 150, 0, 0);
    assert_eq!(first.command_name, "friendlist.getFriendGroupList");
    assert_ne!(first.body, refetch.body);
    let needle = b"GetFriendListReq";
    assert!(first.body.windows(needle.len()).any(|w| w == needle));
}

#[test]
fn group_list_and_member_list_draw_distinct_request_ids() {
    let mut e = mk_engine();
    let a = e.build_group_list_request_packet(&[]);
    let b = e.build_group_member_list_request_packet(1, 2, 0);
    assert_eq!(a.command_name, "friendlist.GetTroopListReqV2");
    assert_eq!(b.command_name, "friendlist.GetTroopMemberListReq");
    assert_ne!(a.body, b.body);
}

#[test]
fn delete_online_push_echoes_server_sequence() {
    let mut e = mk_engine();
    let p = e.build_delete_online_push_packet(
        42,
        7,
        vec![0xAB],
        999,
        vec![PushMessageInfo { from_uin: 1, msg_time: 2, msg_seq: 3, msg_cookies: vec![4] }],
    );
    assert_eq!(p.command_name, "OnlinePush.RespPush");
    let needle = b"SvcRespPushMsg";
    assert!(p.body.windows(needle.len()).any(|w| w == needle));
}

#[test]
fn oicq_request_message_shapes_the_record() {
    let e = mk_engine();
    let m = e.build_oicq_request_message(0x1_0000_0001, 0x0810, &[1, 2]);
    assert_eq!(m.uin, 1);
    assert_eq!(m.command, 0x0810);
    assert_eq!(m.body, vec![1, 2]);
    assert_eq!(m.encryption_method, EncryptionMethod::Ecdh);
}

#[test]
fn seq_counter_wraps_at_sixteen_bits() {
    let mut e = mk_engine();
    e.seq = 0xFFFF;
    let p = e.uni_packet("a.b", vec![]);
    assert_eq!(p.seq_id, 0);
    let q = e.uni_packet("a.b", vec![]);
    assert_eq!(q.seq_id, 1);
}

#[test]
fn friend_group_list_matches_hand_built_envelope() {
    let mut e = mk_engine();
    let p = e.build_friend_group_list_request_packet(0, 150, 0, 0);
    assert_eq!(p.command_name, "friendlist.getFriendGroupList");

    let mut d50: Vec<u8> = Vec::new();
    prost::encoding::uint64::encode(1, &1002u64, &mut d50);
    prost::encoding::int32::encode(1000, &1i32, &mut d50);
    prost::encoding::int32::encode(1001, &1i32, &mut d50);
    prost::encoding::int32::encode(1003, &1i32, &mut d50);
    prost::encoding::int32::encode(1004, &1i32, &mut d50);

    let mut req = jcers::JceMut::new();
    req.put_i32(3, 0);
    req.put_u8(0, 1);
    req.put_i64(987654321, 2);
    req.put_i16(0, 3);
    req.put_i16(150, 4);
    req.put_u8(0, 5);
    req.put_u8(0, 6);
    req.put_u8(0, 7);
    req.put_u8(0, 8);
    req.put_u8(0, 9);
    req.put_u8(1, 10);
    req.put_i32(27, 11);
    req.put_list(Vec::<i64>::new(), 12);
    req.put_i32(0, 13);
    req.put_u8(0, 14);
    req.put_u8(0, 15);
    req.put_bytes(bytes::Bytes::from(d50), 16);
    req.put_bytes(bytes::Bytes::new(), 17);
    req.put_list(vec![13580i64, 13581, 13582], 18);
    let payload = req.freeze();
    let mut wrapped = vec![0x0Au8];
    wrapped.extend_from_slice(&payload);
    wrapped.push(0x0B);

    let mut buf = jcers::JceMut::new();
    buf.put_head(8, 0);
    buf.put_i32(1, 0);
    buf.put_string("FL".to_string(), 0);
    buf.put_bytes(bytes::Bytes::from(wrapped), 1);
    let buf = buf.freeze();

    let mut pkt = jcers::JceMut::new();
    pkt.put_i16(3, 1);
    pkt.put_u8(3, 2);
    pkt.put_i32(0, 3);
    pkt.put_i32(1921334514, 4);
    pkt.put_string("mqq.IMService.FriendListServiceServantObj".to_string(), 5);
    pkt.put_string("GetFriendListReq".to_string(), 6);
    pkt.put_bytes(buf, 7);
    pkt.put_i32(0, 8);
    pkt.put_map(HashMap::<String, String>::new(), 9);
    pkt.put_map(HashMap::<String, String>::new(), 10);
    let expected = pkt.freeze().to_vec();

    assert_eq!(p.body, expected);
}

#[test]
fn offline_msg_matches_hand_built_envelope() {
    let mut e = mk_engine();
    let p = e.build_get_offline_msg_request_packet_at(0, 777);

    let mut reg = jcers::JceMut::new();
    reg.put_i64(0x101E2, 0);
    reg.put_u8(0, 1);
    reg.put_head(10, 2);
    reg.put_i64(987654321, 0);
    reg.put_i32(1, 1);
    reg.put_u8(1, 2);
    reg.put_i16(15, 3);
    reg.put_u8(4, 4);
    reg.put_u8(1, 5);
    reg.put_u8(1, 6);
    reg.put_bytes(bytes::Bytes::new(), 7);
    reg.put_u8(0, 8);
    reg.put_u8(0, 9);
    reg.put_i64(1, 10);
    reg.put_bytes(bytes::Bytes::new(), 11);
    reg.put_head(11, 2);
    reg.put_head(10, 3);
    reg.put_u8(0, 0);
    reg.put_u8(1, 1);
    reg.put_head(11, 3);
    reg.put_u8(0, 4);
    reg.put_i64(777, 5);
    reg.put_bytes(bytes::Bytes::new(), 6);
    let reg = reg.freeze();
    let mut reg_wrapped = vec![0x0Au8];
    reg_wrapped.extend_from_slice(&reg);
    reg_wrapped.push(0x0B);

    let mut msg_req: Vec<u8> = Vec::new();
    prost::encoding::int32::encode(1, &0i32, &mut msg_req);
    let empty: Vec<u8> = Vec::new();
    prost::encoding::bytes::encode(2, &empty, &mut msg_req);
    prost::encoding::int32::encode(3, &0i32, &mut msg_req);
    prost::encoding::int32::encode(4, &20i32, &mut msg_req);
    prost::encoding::int32::encode(5, &3i32, &mut msg_req);
    prost::encoding::int32::encode(6, &0i32, &mut msg_req);
    prost::encoding::int32::encode(7, &1i32, &mut msg_req);
    let mut framed = vec![0u8, 0, 0, 0];
    framed.extend_from_slice(&msg_req);
    let mut pb_entry = jcers::JceMut::new();
    pb_entry.put_bytes(bytes::Bytes::from(framed), 0);
    let pb_entry = pb_entry.freeze();

    let mut buf = jcers::JceMut::new();
    buf.put_head(8, 0);
    buf.put_i32(2, 0);
    buf.put_string("req_PbOffMsg".to_string(), 0);
    buf.put_bytes(pb_entry, 1);
    buf.put_string("req_OffMsg".to_string(), 0);
    buf.put_bytes(bytes::Bytes::from(reg_wrapped), 1);
    let buf = buf.freeze();

    let mut pkt = jcers::JceMut::new();
    pkt.put_i16(3, 1);
    pkt.put_u8(0, 2);
    pkt.put_i32(0, 3);
    pkt.put_i32(0, 4);
    pkt.put_string("RegPrxySvc".to_string(), 5);
    pkt.put_string("".to_string(), 6);
    pkt.put_bytes(buf, 7);
    pkt.put_i32(0, 8);
    pkt.put_map(HashMap::<String, String>::new(), 9);
    pkt.put_map(HashMap::<String, String>::new(), 10);
    let expected = pkt.freeze().to_vec();

    assert_eq!(p.body, expected);
}
