use bgp::error::{
    Error, ErrorCode, ErrorSubCode, LocalLogicErrorSubcode, MsgHeaderErrorSubcode,
    OpenMsgErrorSubcode, UpdateMsgErrorSubcode,
};
use bgp::message::{
    KeepaliveMsg, Message, MessageHeader, MsgType, NotificationMsg, MARKER_LEN, MARKER_OCTET,
};
use bgp::net::{IpAddr, Ipv4Addr, Ipv6Addr};
use bgp::open::{FourOctetAsCap, MpExtCap, OpenMsg, OptParams};
use bgp::update::{
    Aggregator, AsNum, AsPathSegment, AsPathSegmentType, Cidr, Origin, PathAttribute,
    PathAttributeFlags, PathAttributeValue, UpdateMsg, AS_TRANS,
};
use bytes::BytesMut;
use octets::Octets;

fn v4(a: u8, b: u8, c: u8, d: u8) -> Ipv4Addr {
    Ipv4Addr { octets: [a, b, c, d] }
}

/// The body of an OPEN: system 65001, hold time 90, identifier 10.0.0.1, and parameters.
fn open_body(count: u8, kind: u8, ext_count: u16, params: &[u8]) -> Vec<u8> {
    let mut b = vec![4, 0, 0, 0, 0xfd, 0xe9, 0, 0, 0, 90, 0, 0, 10, 0, 0, 1];
    b.push(count);
    b.push(kind);
    b.extend_from_slice(&ext_count.to_be_bytes());
    b.extend_from_slice(params);
    b
}

fn header(length: u16, kind: u8) -> Vec<u8> {
    let mut b = vec![MARKER_OCTET; MARKER_LEN];
    b.extend_from_slice(&length.to_be_bytes());
    b.push(kind);
    b
}

/// A message of that kind whose header gives its whole length.
fn message(kind: u8, body: &[u8]) -> Vec<u8> {
    let mut b = header(19 + body.len() as u16, kind);
    b.extend_from_slice(body);
    b
}

fn buffer(bytes: &[u8]) -> BytesMut {
    BytesMut::from(bytes)
}

fn open_with(params: &[u8], count: u8) -> OpenMsg {
    let body = open_body(count, 0, 0, params);
    OpenMsg::decode(&mut Octets::with_slice(&body)).unwrap()
}

fn two_octet_peer() -> OpenMsg {
    open_with(&[], 0)
}

fn four_octet_peer() -> OpenMsg {
    open_with(&[63, 4, 0, 1, 0, 0], 1)
}

fn code_of(e: &Error) -> (ErrorCode, ErrorSubCode) {
    (e.code, e.subcode)
}

fn short_error() -> (ErrorCode, ErrorSubCode) {
    (
        ErrorCode::LocalLogicError,
        ErrorSubCode::LocalLogicErrorSubcode(LocalLogicErrorSubcode::BufferTooShortError),
    )
}

fn header_error(s: MsgHeaderErrorSubcode) -> (ErrorCode, ErrorSubCode) {
    (ErrorCode::MessageHeaderError, ErrorSubCode::MsgHeaderErrorSubcode(s))
}

fn open_error(s: OpenMsgErrorSubcode) -> (ErrorCode, ErrorSubCode) {
    (ErrorCode::OpenMessageError, ErrorSubCode::OpenMsgErrorSubcode(s))
}

fn update_error(s: UpdateMsgErrorSubcode) -> (ErrorCode, ErrorSubCode) {
    (ErrorCode::UpdateMessageError, ErrorSubCode::UpdateMsgErrorSubcode(s))
}

#[test]
fn header_of_each_kind() {
    for (length, kind, expected) in [
        (29, 1, MsgType::Open),
        (23, 2, MsgType::Update),
        (21, 3, MsgType::Notification),
        (19, 4, MsgType::Keepalive),
        (0x1234, 1, MsgType::Open),
    ] {
        let bytes = header(length, kind);
        let mut oct = Octets::with_slice(&bytes);
        let h = MessageHeader::decode(&mut oct).unwrap();
        assert_eq!(h.length, length);
        assert_eq!(h.msg_type, expected);
        assert_eq!(oct.off(), 19);
    }
}

#[test]
fn header_lengths_that_do_not_fit() {
    for (length, kind) in [(28, 1), (22, 2), (20, 3), (18, 4), (20, 4)] {
        let bytes = header(length, kind);
        let e = MessageHeader::decode(&mut Octets::with_slice(&bytes)).unwrap_err();
        assert_eq!(code_of(&e), header_error(MsgHeaderErrorSubcode::BadMessageLength));
        assert!(e.data.is_none());
    }
}

#[test]
fn header_of_unknown_kind() {
    for kind in [0, 5, 255] {
        let bytes = header(29, kind);
        let e = MessageHeader::decode(&mut Octets::with_slice(&bytes)).unwrap_err();
        assert_eq!(code_of(&e), header_error(MsgHeaderErrorSubcode::BadMessageType));
    }
}

#[test]
fn header_without_marker() {
    let mut bytes = header(29, 1);
    bytes[15] = 0xff;
    let mut oct = Octets::with_slice(&bytes);
    let e = MessageHeader::decode(&mut oct).unwrap_err();
    assert_eq!(code_of(&e), header_error(MsgHeaderErrorSubcode::ConnectionNotSync));
    assert_eq!(oct.off(), 16);
}

#[test]
fn header_that_is_cut_off() {
    let bytes = header(29, 1);
    for (n, off) in [(0, 0), (15, 0), (16, 16), (17, 16), (18, 18)] {
        let mut oct = Octets::with_slice(&bytes[..n]);
        let e = MessageHeader::decode(&mut oct).unwrap_err();
        assert_eq!(code_of(&e), short_error());
        assert_eq!(oct.off(), off);
    }
}

#[test]
fn open_without_parameters() {
    let body = open_body(0, 0, 7, &[]);
    let mut oct = Octets::with_slice(&body);
    let open = OpenMsg::decode(&mut oct).unwrap();
    assert_eq!(open.version, 4);
    assert_eq!(open.as_number, 65001);
    assert_eq!(open.hold_time, 90);
    assert_eq!(open.bgp_identifier, 0x0a00_0001);
    assert!(!open.ext_opt_param);
    assert_eq!(open.opt_params_len, 0);
    assert!(open.opt_params.mp_ext_caps.is_none());
    assert!(open.opt_params.four_octet_as_cap.is_none());
    assert_eq!(oct.off(), 20);
}

#[test]
fn open_with_parameters() {
    let params = [1, 4, 0, 2, 9, 1, 63, 4, 0, 1, 0, 2, 1, 4, 0, 1, 0, 128];
    let open = open_with(&params, 3);
    assert_eq!(open.opt_params_len, 3);
    let caps = open.opt_params.mp_ext_caps.unwrap();
    assert_eq!(caps, vec![MpExtCap { afi: 2, safi: 1 }, MpExtCap { afi: 1, safi: 128 }]);
    assert_eq!(open.opt_params.four_octet_as_cap, Some(FourOctetAsCap { as_num: 65538 }));
}

#[test]
fn open_with_extended_parameters() {
    let params = [63, 0, 4, 0, 0, 0, 7, 63, 0, 4, 0, 0, 0, 8];
    let body = open_body(200, 255, 2, &params);
    let open = OpenMsg::decode(&mut Octets::with_slice(&body)).unwrap();
    assert!(open.ext_opt_param);
    assert_eq!(open.opt_params_len, 2);
    assert_eq!(open.opt_params.four_octet_as_cap, Some(FourOctetAsCap { as_num: 8 }));
}

#[test]
fn open_errors() {
    let mut body = open_body(0, 0, 0, &[]);
    body[0] = 3;
    let e = OpenMsg::decode(&mut Octets::with_slice(&body)).unwrap_err();
    assert_eq!(code_of(&e), open_error(OpenMsgErrorSubcode::UnsupportedVersionNumber));

    for (hold, ok) in [(0, true), (1, false), (2, false), (3, true)] {
        let mut body = open_body(0, 0, 0, &[]);
        body[9] = hold;
        match OpenMsg::decode(&mut Octets::with_slice(&body)) {
            Ok(open) => assert!(ok && open.hold_time == hold as u16),
            Err(e) => {
                assert!(!ok);
                assert_eq!(code_of(&e), open_error(OpenMsgErrorSubcode::UnacceptableHoldTime));
            }
        }
    }

    for (identifier, ok) in [([0; 4], false), ([255; 4], false), ([255, 255, 255, 254], true)] {
        let mut body = open_body(0, 0, 0, &[]);
        body[12..16].copy_from_slice(&identifier);
        match OpenMsg::decode(&mut Octets::with_slice(&body)) {
            Ok(open) => assert!(ok && open.bgp_identifier == u32::MAX - 1),
            Err(e) => {
                assert!(!ok);
                assert_eq!(code_of(&e), open_error(OpenMsgErrorSubcode::BadBgpIdentifier));
            }
        }
    }

    let body = open_body(1, 0, 0, &[2, 4, 0, 0, 0, 0]);
    let e = OpenMsg::decode(&mut Octets::with_slice(&body)).unwrap_err();
    assert_eq!(code_of(&e), open_error(OpenMsgErrorSubcode::UnsupportedOptionalParameter));

    for kind in [1, 63] {
        let body = open_body(1, 0, 0, &[kind, 3, 0, 0, 0, 0]);
        let e = OpenMsg::decode(&mut Octets::with_slice(&body)).unwrap_err();
        assert_eq!(code_of(&e), open_error(OpenMsgErrorSubcode::UnSupportedCapability));
    }
}

#[test]
fn open_that_is_cut_off() {
    let body = open_body(1, 0, 0, &[1, 4, 0, 1, 0, 1]);
    for n in 0..body.len() {
        let mut oct = Octets::with_slice(&body[..n]);
        let e = OpenMsg::decode(&mut oct).unwrap_err();
        assert_eq!(code_of(&e), short_error());
        assert!(oct.off() <= n);
    }
    assert!(OpenMsg::decode(&mut Octets::with_slice(&body)).is_ok());
}

#[test]
fn parameters_by_themselves() {
    let bytes = [1, 4, 0, 1, 0, 1];
    let mut oct = Octets::with_slice(&bytes);
    let params = OptParams::decode(&mut oct, 1, false).unwrap();
    assert_eq!(params.mp_ext_caps, Some(vec![MpExtCap { afi: 1, safi: 1 }]));
    assert_eq!(oct.off(), 6);

    let bytes = [0, 25, 77, 65, 9];
    let mut oct = Octets::with_slice(&bytes);
    assert_eq!(MpExtCap::decode(&mut oct).unwrap(), MpExtCap { afi: 25, safi: 65 });
    assert_eq!(oct.off(), 4);

    let mut oct = Octets::with_slice(&bytes);
    assert_eq!(FourOctetAsCap::decode(&mut oct).unwrap(), FourOctetAsCap { as_num: 0x0019_4d41 });
}

#[test]
fn ranges() {
    for (bytes, length, prefix, used) in [
        (vec![0u8], 0, IpAddr::V4(v4(0, 0, 0, 0)), 1),
        (vec![24, 10, 1, 2, 99], 24, IpAddr::V4(v4(10, 1, 2, 0)), 4),
        (vec![25, 10, 1, 2, 128], 25, IpAddr::V4(v4(10, 1, 2, 128)), 5),
        (vec![1, 128], 1, IpAddr::V4(v4(128, 0, 0, 0)), 2),
    ] {
        let mut oct = Octets::with_slice(&bytes);
        let cidr = Cidr::decode(&mut oct).unwrap();
        assert_eq!(cidr.length, length);
        assert_eq!(cidr.prefix, prefix);
        assert_eq!(oct.off(), used);
    }
}

#[test]
fn ranges_of_the_sixth_version() {
    let mut bytes = vec![33, 0x20, 1, 0xd, 0xb8, 0x80];
    let cidr = Cidr::decode(&mut Octets::with_slice(&bytes)).unwrap();
    let mut octets = [0; 16];
    octets[..5].copy_from_slice(&bytes[1..]);
    assert_eq!(cidr.prefix, IpAddr::V6(Ipv6Addr { octets }));

    bytes = vec![128];
    bytes.extend_from_slice(&[7; 16]);
    let cidr = Cidr::decode(&mut Octets::with_slice(&bytes)).unwrap();
    assert_eq!(cidr.prefix, IpAddr::V6(Ipv6Addr { octets: [7; 16] }));
    assert_eq!(cidr.length, 128);
}

#[test]
fn ranges_that_are_too_long() {
    for length in [129u8, 136, 248, 249, 255] {
        let mut bytes = vec![length];
        bytes.extend_from_slice(&[7; 33]);
        let n = (length as usize + 7) / 8;
        let mut oct = Octets::with_slice(&bytes);
        let e = Cidr::decode(&mut oct).unwrap_err();
        assert_eq!(code_of(&e), update_error(UpdateMsgErrorSubcode::InvalidNetworkField));
        assert!(e.data.is_none());
        assert_eq!(oct.off(), 1 + n);

        let mut oct = Octets::with_slice(&bytes[..n]);
        let e = Cidr::decode(&mut oct).unwrap_err();
        assert_eq!(code_of(&e), short_error());
        assert_eq!(oct.off(), 1);
    }
}

#[test]
fn flags() {
    let f = PathAttributeFlags::decode(&mut Octets::with_slice(&[0b1101_0000])).unwrap();
    assert!(f.optional && f.transitive && !f.partial && f.extended_length);
    let f = PathAttributeFlags::decode(&mut Octets::with_slice(&[0b0010_1111])).unwrap();
    assert!(!f.optional && !f.transitive && f.partial && !f.extended_length);
    assert!(PathAttributeFlags::decode(&mut Octets::with_slice(&[])).is_err());
}

#[test]
fn origins() {
    for (b, expected) in [(0, Origin::Igp), (1, Origin::Egp), (2, Origin::Incomplete)] {
        let v = Origin::decode(&mut Octets::with_slice(&[b]), 1).unwrap();
        assert!(matches!(v, PathAttributeValue::Origin(o) if o == expected));
    }
    let e = Origin::decode(&mut Octets::with_slice(&[3]), 1).unwrap_err();
    assert_eq!(code_of(&e), update_error(UpdateMsgErrorSubcode::InvalidOriginAttribute));
    let e = Origin::decode(&mut Octets::with_slice(&[0]), 2).unwrap_err();
    assert_eq!(code_of(&e), update_error(UpdateMsgErrorSubcode::AttributeLengthError));
}

#[test]
fn segments() {
    let bytes = [2, 2, 0xfd, 0xe8, 0, 7, 9];
    let mut oct = Octets::with_slice(&bytes);
    let s = AsPathSegment::decode(&mut oct, 6).unwrap();
    assert_eq!(s.segment_type, AsPathSegmentType::AsSequence);
    assert_eq!(s.segment_length, 2);
    assert_eq!(s.segment_value, vec![AsNum(65000), AsNum(7)]);
    assert_eq!(oct.off(), 6);

    let e = AsPathSegment::decode(&mut Octets::with_slice(&bytes), 7).unwrap_err();
    assert_eq!(code_of(&e), update_error(UpdateMsgErrorSubcode::MalformedAsPath));

    let mut oct = Octets::with_slice(&bytes[..5]);
    let e = AsPathSegment::decode(&mut oct, 6).unwrap_err();
    assert_eq!(code_of(&e), short_error());
    assert_eq!(oct.off(), 4);

    assert_eq!(
        AsPathSegmentType::decode(&mut Octets::with_slice(&[1])).unwrap(),
        AsPathSegmentType::AsSet
    );
    let e = AsPathSegmentType::decode(&mut Octets::with_slice(&[3])).unwrap_err();
    assert_eq!(code_of(&e), update_error(UpdateMsgErrorSubcode::MalformedAsPath));
}

#[test]
fn aggregators() {
    let bytes = [0, 1, 0, 2, 192, 0, 2, 1];
    let a = Aggregator::decode(&mut Octets::with_slice(&bytes), true).unwrap();
    assert_eq!(a.as_num, 65538);
    assert_eq!(a.ip_addr, v4(192, 0, 2, 1));
    let a = Aggregator::decode(&mut Octets::with_slice(&bytes), false).unwrap();
    assert_eq!(a.as_num, 1);
    assert_eq!(a.ip_addr, v4(0, 2, 192, 0));
}

#[test]
fn system_numbers() {
    assert!(AsNum(65535).is_mappable());
    assert!(!AsNum(65536).is_mappable());
    assert_eq!(AsNum(65535).to_two_octets(), 65535);
    assert_eq!(AsNum(65536).to_two_octets(), 23456);
    assert_eq!(AS_TRANS, 23456);
    for n in [0u16, 1, 23456, 65535] {
        assert_eq!(AsNum(n as u32).to_two_octets(), n);
    }
}

fn attribute(bytes: &[u8], peer: &OpenMsg) -> (PathAttribute, usize) {
    let mut oct = Octets::with_slice(bytes);
    let attr = PathAttribute::decode(&mut oct, peer).unwrap();
    (attr, oct.off())
}

#[test]
fn attributes() {
    let peer = two_octet_peer();
    let (a, used) = attribute(&[0x40, 3, 4, 10, 0, 0, 9, 1], &peer);
    assert!(matches!(a.attr_value, PathAttributeValue::NextHop(h) if h == v4(10, 0, 0, 9)));
    assert_eq!((a.attr_type_code, a.attr_len, used), (3, 4, 7));

    let (a, used) = attribute(&[0x90, 4, 0, 4, 0, 0, 1, 0], &peer);
    assert!(matches!(a.attr_value, PathAttributeValue::MultiExitDisc(256)));
    assert_eq!((a.attr_len, used), (4, 8));

    let (a, _) = attribute(&[0x40, 5, 4, 0, 0, 0, 100], &peer);
    assert!(matches!(a.attr_value, PathAttributeValue::LocalPref(100)));

    let (a, used) = attribute(&[0x40, 6, 0, 5], &peer);
    assert!(matches!(a.attr_value, PathAttributeValue::AtomicAggregate(true)));
    assert_eq!(used, 3);

    let (a, used) = attribute(&[0xc0, 200, 2, 8, 9, 10], &peer);
    assert!(matches!(a.attr_value, PathAttributeValue::Unknown(ref v) if *v == vec![8, 9]));
    assert_eq!(used, 5);

    let (a, _) = attribute(&[0x40, 2, 4, 1, 1, 0, 5], &peer);
    match a.attr_value {
        PathAttributeValue::AsPath(s) => assert_eq!(s.segment_value, vec![AsNum(5)]),
        v => panic!("{:?}", v),
    }

    let e = PathAttribute::decode(&mut Octets::with_slice(&[0x40, 3, 5, 1, 2, 3, 4, 5]), &peer)
        .unwrap_err();
    assert_eq!(code_of(&e), update_error(UpdateMsgErrorSubcode::AttributeLengthError));
}

#[test]
fn aggregator_depends_on_the_peer() {
    let bytes = [0xc0, 7, 8, 0, 0, 0, 9, 1, 2, 3, 4];
    let (a, used) = attribute(&bytes, &four_octet_peer());
    assert!(matches!(a.attr_value, PathAttributeValue::Aggregator(g) if g.as_num == 9));
    assert_eq!(used, 11);
    let (a, used) = attribute(&bytes, &two_octet_peer());
    assert!(matches!(a.attr_value, PathAttributeValue::Aggregator(g) if g.as_num == 0));
    assert_eq!(used, 9);
}

#[test]
fn attribute_value_by_itself() {
    let peer = two_octet_peer();
    let mut attr = attribute(&[0x40, 1, 1, 2], &peer).0;
    let v = PathAttributeValue::decode(&mut Octets::with_slice(&[1]), &peer, &mut attr).unwrap();
    assert!(matches!(v, PathAttributeValue::Origin(Origin::Egp)));
    assert!(matches!(attr.attr_value, PathAttributeValue::Origin(Origin::Incomplete)));
    assert!(matches!(
        PathAttributeValue::from(Origin::Igp),
        PathAttributeValue::Origin(Origin::Igp)
    ));
}

/// Two withdrawn ranges, one attribute and one route.
fn update_body() -> Vec<u8> {
    vec![
        0, 5, 8, 10, 16, 172, 16, 0, 4, 0x40, 1, 1, 0, 77, 24, 192, 0, 2, //
        0, 8, 1, 0, 8, 2, 0, 8, 3,
    ]
}

#[test]
fn update() {
    let body = update_body();
    let mut oct = Octets::with_slice(&body);
    let u = UpdateMsg::decode(&mut oct, &two_octet_peer()).unwrap();
    assert_eq!(u.withdrawn_routes.len(), 2);
    assert_eq!(u.withdrawn_routes[0].prefix, IpAddr::V4(v4(10, 0, 0, 0)));
    assert_eq!(u.withdrawn_routes[1].length, 16);
    assert_eq!(u.withdrawn_routes[1].prefix, IpAddr::V4(v4(172, 16, 0, 0)));
    assert_eq!(u.path_attributes.len(), 1);
    assert_eq!(u.path_attributes[0].attr_type_code, 1);
    assert_eq!(
        u.nlri,
        vec![
            (77, IpAddr::V4(v4(192, 0, 2, 0))),
            (0, IpAddr::V4(v4(1, 0, 0, 0))),
            (0, IpAddr::V4(v4(2, 0, 0, 0))),
            (0, IpAddr::V4(v4(3, 0, 0, 0))),
        ]
    );
    assert_eq!(oct.off(), body.len());
}

#[test]
fn update_that_is_refused() {
    let peer = two_octet_peer();
    let body = [0, 9, 8, 10];
    let mut oct = Octets::with_slice(&body);
    let e = UpdateMsg::decode(&mut oct, &peer).unwrap_err();
    assert_eq!(code_of(&e), short_error());
    assert_eq!(oct.off(), 2);

    let body = [0, 0, 0, 4, 0x40, 1, 1, 9];
    let e = UpdateMsg::decode(&mut Octets::with_slice(&body), &peer).unwrap_err();
    assert_eq!(code_of(&e), update_error(UpdateMsgErrorSubcode::InvalidOriginAttribute));

    let mut body = vec![0, 18, 129];
    body.extend_from_slice(&[0; 19]);
    let e = UpdateMsg::decode(&mut Octets::with_slice(&body), &peer).unwrap_err();
    assert_eq!(code_of(&e), update_error(UpdateMsgErrorSubcode::InvalidNetworkField));
}

#[test]
fn notification() {
    let body = [6, 2, 1, 2, 3];
    let mut oct = Octets::with_slice(&body);
    let n = NotificationMsg::decode(&mut oct).unwrap();
    assert_eq!((n.error_code, n.error_subcode), (6, 2));
    assert_eq!(n.data, Some(vec![1, 2, 3]));
    assert_eq!(oct.off(), 5);
    let n = NotificationMsg::decode(&mut Octets::with_slice(&body[..2])).unwrap();
    assert_eq!(n.data, Some(vec![]));
    assert!(NotificationMsg::decode(&mut Octets::with_slice(&body[..1])).is_err());
}

#[test]
fn keepalive() {
    let mut oct = Octets::with_slice(&[1, 2, 3]);
    assert_eq!(KeepaliveMsg::decode(&mut oct).unwrap(), KeepaliveMsg::new());
    assert_eq!(oct.off(), 0);
}

#[test]
fn message_is_taken_from_the_front() {
    let mut body = open_body(0, 0, 0, &[]);
    body.resize(29, 0);
    let mut bytes = message(1, &body);
    bytes.extend_from_slice(&[1, 2, 3]);
    let mut buf = buffer(&bytes);
    match Message::decode(&mut buf, None).unwrap() {
        Message::Open(open) => assert_eq!(open.as_number, 65001),
        m => panic!("{:?}", m),
    }
    assert_eq!(&buf[..], &bytes[39..]);
}

#[test]
fn message_does_not_depend_on_what_follows() {
    let bytes = message(2, &update_body());
    let peer = two_octet_peer();
    for behind in [0, 1, 50] {
        let mut long = bytes.clone();
        long.resize(bytes.len() + behind, 0xee);
        let mut buf = buffer(&long);
        let m = Message::decode(&mut buf, Some(&peer)).unwrap();
        assert!(matches!(m, Message::Update(ref u) if u.nlri.len() == 4));
        assert_eq!(buf.len(), behind);
    }
}

#[test]
fn message_waits_for_its_bytes() {
    let bytes = message(2, &update_body());
    let peer = two_octet_peer();
    for n in 0..bytes.len() {
        let mut buf = buffer(&bytes[..n]);
        let e = Message::decode(&mut buf, Some(&peer)).unwrap_err();
        assert!(e.is_too_short());
        assert_eq!(&buf[..], &bytes[..n]);
    }
}

#[test]
fn message_of_the_smallest_length() {
    let mut buf = buffer(&header(19, 4));
    assert!(matches!(Message::decode(&mut buf, None).unwrap(), Message::Keepalive(_)));
    assert_eq!(buf.len(), 0);
}

#[test]
fn message_length_is_that_of_the_whole() {
    let mut bytes = vec![1; 16];
    bytes.extend_from_slice(&[0, 23, 3, 6, 2, 0xaa, 0xbb]);
    let mut buf = buffer(&bytes);
    match Message::decode(&mut buf, None).unwrap() {
        Message::Notification(n) => {
            assert_eq!((n.error_code, n.error_subcode), (6, 2));
            assert_eq!(n.data, Some(vec![0xaa, 0xbb]));
        }
        m => panic!("{:?}", m),
    }
    assert!(buf.is_empty());

    let e = Message::decode(&mut buffer(&bytes[..22]), None).unwrap_err();
    assert!(e.is_too_short());
}

#[test]
fn messages_one_behind_the_other() {
    let mut bytes = header(19, 4);
    bytes.extend_from_slice(&message(3, &[4, 0]));
    bytes.extend_from_slice(&header(19, 4));
    let mut buf = buffer(&bytes);
    assert!(matches!(Message::decode(&mut buf, None).unwrap(), Message::Keepalive(_)));
    match Message::decode(&mut buf, None).unwrap() {
        Message::Notification(n) => assert_eq!(n.data, Some(vec![])),
        m => panic!("{:?}", m),
    }
    assert!(matches!(Message::decode(&mut buf, None).unwrap(), Message::Keepalive(_)));
    assert!(buf.is_empty());
}

#[test]
fn message_that_is_refused_stays() {
    let bytes = message(2, &update_body());
    let mut buf = buffer(&bytes);
    let e = Message::decode(&mut buf, None).unwrap_err();
    assert_eq!(code_of(&e), header_error(MsgHeaderErrorSubcode::ConnectionNotSync));
    assert_eq!(&buf[..], &bytes[..]);

    let mut body = update_body();
    body[12] = 9;
    let bytes = message(2, &body);
    let mut buf = buffer(&bytes);
    let e = Message::decode(&mut buf, Some(&two_octet_peer())).unwrap_err();
    assert_eq!(e.code, ErrorCode::UpdateMessageError);
    assert!(e.data.is_none());
    assert_eq!(&buf[..], &bytes[..]);

    let mut body = open_body(0, 0, 0, &[]);
    body.resize(29, 0);
    body[0] = 5;
    let e = Message::decode(&mut buffer(&message(1, &body)), None).unwrap_err();
    assert_eq!(e.code, ErrorCode::OpenMessageError);
}

#[test]
fn message_with_a_prefix_that_is_too_long() {
    let mut body = vec![0, 33, 255];
    body.resize(37, 0);
    let bytes = message(2, &body);
    let mut buf = buffer(&bytes);
    let e = Message::decode(&mut buf, Some(&two_octet_peer())).unwrap_err();
    assert_eq!(code_of(&e), update_error(UpdateMsgErrorSubcode::InvalidNetworkField));
    assert_eq!(&buf[..], &bytes[..]);
}
