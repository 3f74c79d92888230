use bgp::connection::{
    passive_events, process, process_one, process_passive, BgpConn, ReadStep, Received, READ_ROOM,
};
use bgp::error::{
    Error, ErrorCode, ErrorSubCode, LocalLogicErrorSubcode, MsgHeaderErrorSubcode,
    OpenMsgErrorSubcode, UpdateMsgErrorSubcode,
};
use bgp::fsm::{ConnId, Event};
use bgp::message::{KeepaliveMsg, Message};
use bgp::open::{OpenMsg, OptParams};
use bgp::update::{PathAttributeValue, UpdateMsg};

fn framed(kind: u8, body: &[u8]) -> Vec<u8> {
    let mut b = vec![1; 16];
    b.extend_from_slice(&(19 + body.len() as u16).to_be_bytes());
    b.push(kind);
    b.extend_from_slice(body);
    b
}

/// An OPEN whose body takes all its bytes, with the capability of four bytes.
fn open_bytes() -> Vec<u8> {
    let mut body = vec![4, 0, 0, 0, 0, 9, 0, 0, 0, 30, 0, 0, 1, 2, 3, 4, 2, 0, 0, 0];
    body.extend_from_slice(&[63, 4, 0, 1, 0, 0, 1, 4, 0, 1, 0, 1]);
    framed(1, &body)
}

/// An UPDATE with an aggregator of eight bytes.
fn update_bytes() -> Vec<u8> {
    let mut body = vec![0, 0, 0, 11, 0xc0, 7, 8, 0, 1, 0, 9, 1, 2, 3, 4];
    body.extend_from_slice(&[5, 8, 10, 5, 8, 11, 5, 8, 12]);
    framed(2, &body)
}

fn open_msg() -> OpenMsg {
    OpenMsg {
        version: 4,
        as_number: 9,
        hold_time: 30,
        bgp_identifier: 77,
        ext_opt_param: false,
        opt_params_len: 0,
        opt_params: OptParams { mp_ext_caps: None, four_octet_as_cap: None },
    }
}

fn update_msg() -> UpdateMsg {
    UpdateMsg { withdrawn_routes: vec![], path_attributes: vec![], nlri: vec![] }
}

#[test]
fn new_connection_has_read_nothing() {
    let mut conn = BgpConn::new();
    assert_eq!(conn.buffer.len(), 0);
    assert!(conn.buffer.capacity() >= READ_ROOM);
    assert!(conn.peer.is_none());
    assert!(matches!(conn.read_message(), ReadStep::More));
}

#[test]
fn messages_come_byte_by_byte() {
    let bytes = open_bytes();
    let mut conn = BgpConn::new();
    for (i, b) in bytes.iter().enumerate() {
        assert!(matches!(conn.read_message(), ReadStep::More));
        assert_eq!(conn.buffer.len(), i);
        conn.buffer.extend_from_slice(&[*b]);
    }
    match conn.read_message() {
        ReadStep::Frame(Message::Open(open)) => assert_eq!(open.bgp_identifier, 0x0102_0304),
        r => panic!("{:?}", r),
    }
    assert_eq!(conn.buffer.len(), 0);
    assert_eq!(conn.peer.as_ref().unwrap().as_number, 9);
    assert!(conn.peer.as_ref().unwrap().opt_params.four_octet_as_cap.is_some());
}

#[test]
fn open_says_how_the_updates_are_read() {
    let mut conn = BgpConn::new();
    conn.buffer.extend_from_slice(&update_bytes());
    match conn.read_message() {
        ReadStep::Fail(e) => assert_eq!(e.code, ErrorCode::MessageHeaderError),
        r => panic!("{:?}", r),
    }
    assert_eq!(conn.buffer.len(), update_bytes().len());

    let mut conn = BgpConn::new();
    conn.buffer.extend_from_slice(&open_bytes());
    conn.buffer.extend_from_slice(&update_bytes());
    assert!(matches!(conn.read_message(), ReadStep::Frame(Message::Open(_))));
    match conn.read_message() {
        ReadStep::Frame(Message::Update(u)) => match &u.path_attributes[0].attr_value {
            PathAttributeValue::Aggregator(a) => assert_eq!(a.as_num, 65545),
            v => panic!("{:?}", v),
        },
        r => panic!("{:?}", r),
    }
    assert!(matches!(conn.read_message(), ReadStep::More));
}

#[test]
fn prefix_that_is_too_long() {
    let mut conn = BgpConn::new();
    conn.buffer.extend_from_slice(&open_bytes());
    let mut body = vec![0, 18, 130];
    body.resize(22, 0);
    conn.buffer.extend_from_slice(&framed(2, &body));
    assert!(matches!(conn.read_message(), ReadStep::Frame(_)));
    match conn.read_message() {
        ReadStep::Fail(e) => assert_eq!(
            e.subcode,
            ErrorSubCode::UpdateMsgErrorSubcode(UpdateMsgErrorSubcode::InvalidNetworkField)
        ),
        r => panic!("{:?}", r),
    }
}

#[test]
fn keepalive_is_read_alone() {
    let mut conn = BgpConn::new();
    conn.buffer.extend_from_slice(&framed(4, &[]));
    assert!(matches!(conn.read_message(), ReadStep::Frame(Message::Keepalive(_))));
    assert!(matches!(conn.read_message(), ReadStep::More));
}

#[test]
fn received_messages() {
    match process(Ok(Message::Open(open_msg())), true) {
        Received::Tell(Event::BGPOpen { msg, remote_syn }) => {
            assert_eq!(msg.bgp_identifier, 77);
            assert!(remote_syn);
        }
        r => panic!("{:?}", r),
    }
    assert!(matches!(
        process(Ok(Message::Update(update_msg())), false),
        Received::Tell(Event::UpdateMsg { .. })
    ));
    assert!(matches!(
        process(Ok(Message::Keepalive(KeepaliveMsg::new())), false),
        Received::Nothing
    ));
}

#[test]
fn received_errors() {
    let e = Error::new_header(MsgHeaderErrorSubcode::BadMessageType, None);
    match process(Err(e), false) {
        Received::Tell(Event::BGPHeaderErr { err }) => assert_eq!(
            err.subcode,
            ErrorSubCode::MsgHeaderErrorSubcode(MsgHeaderErrorSubcode::BadMessageType)
        ),
        r => panic!("{:?}", r),
    }
    let e = Error::new_open(OpenMsgErrorSubcode::BadPeerAs, None);
    assert!(matches!(
        process(Err(e), false),
        Received::Tell(Event::BGPOpenMsgErr { .. })
    ));
    let e = Error::new_update(UpdateMsgErrorSubcode::MalformedAsPath, None);
    assert!(matches!(process(Err(e), false), Received::Close));
    let e = Error::new_local(LocalLogicErrorSubcode::IOError, None);
    assert!(matches!(process(Err(e), false), Received::Close));
}

#[test]
fn first_message_of_a_colliding_connection() {
    let conn = ConnId { id: 5 };
    let events = process_one(Ok(Message::Open(open_msg())), conn, false);
    assert_eq!(events.len(), 2);
    assert!(matches!(events[0], Event::ProcessOneDone { conn: c } if c == conn));
    assert!(matches!(events[1], Event::BGPOpen { remote_syn: false, .. }));
    assert!(process_one(Ok(Message::Update(update_msg())), conn, false).is_empty());
    let e = Error::new_open(OpenMsgErrorSubcode::BadPeerAs, None);
    let events = process_one(Err(e), conn, false);
    assert_eq!(events.len(), 1);
    assert!(matches!(events[0], Event::BGPOpenMsgErr { .. }));
    let e = Error::new_local(LocalLogicErrorSubcode::IOError, None);
    assert!(process_one(Err(e), conn, false).is_empty());
}

#[test]
fn connection_that_the_peer_made() {
    let open = process_passive(Ok(Message::Open(open_msg()))).unwrap();
    assert!(process_passive(Ok(Message::Keepalive(KeepaliveMsg::new()))).is_none());
    let e = Error::new_local(LocalLogicErrorSubcode::IOError, None);
    assert!(process_passive(Err(e)).is_none());
    let events = passive_events(ConnId { id: 3 }, open);
    assert_eq!(events.len(), 2);
    assert!(matches!(
        events[0],
        Event::TcpConnectionConfirmed { bgp_conn: ConnId { id: 3 } }
    ));
    assert!(matches!(events[1], Event::BGPOpen { remote_syn: true, .. }));
}
