use bgp::error::{
    Error, ErrorCode, ErrorSubCode, LocalLogicErrorSubcode, MsgHeaderErrorSubcode,
    OpenMsgErrorSubcode, Result, UpdateMsgErrorSubcode,
};
use bgp::message::NotificationMsg;
use octets::BufferTooShortError;

const HEADER: [(MsgHeaderErrorSubcode, u8); 3] = [
    (MsgHeaderErrorSubcode::ConnectionNotSync, 1),
    (MsgHeaderErrorSubcode::BadMessageLength, 2),
    (MsgHeaderErrorSubcode::BadMessageType, 3),
];

const OPEN: [(OpenMsgErrorSubcode, u8); 6] = [
    (OpenMsgErrorSubcode::UnsupportedVersionNumber, 1),
    (OpenMsgErrorSubcode::BadPeerAs, 2),
    (OpenMsgErrorSubcode::BadBgpIdentifier, 3),
    (OpenMsgErrorSubcode::UnsupportedOptionalParameter, 4),
    (OpenMsgErrorSubcode::UnacceptableHoldTime, 6),
    (OpenMsgErrorSubcode::UnSupportedCapability, 7),
];

const UPDATE: [(UpdateMsgErrorSubcode, u8); 10] = [
    (UpdateMsgErrorSubcode::MalformedAttributeList, 1),
    (UpdateMsgErrorSubcode::UnrecognizedWellKnownAttribute, 2),
    (UpdateMsgErrorSubcode::MissingWellKnownAttribute, 3),
    (UpdateMsgErrorSubcode::AttributeFlagsError, 4),
    (UpdateMsgErrorSubcode::AttributeLengthError, 5),
    (UpdateMsgErrorSubcode::InvalidOriginAttribute, 6),
    (UpdateMsgErrorSubcode::InvalidNextHopAttribute, 8),
    (UpdateMsgErrorSubcode::OptionalAttributeError, 9),
    (UpdateMsgErrorSubcode::InvalidNetworkField, 10),
    (UpdateMsgErrorSubcode::MalformedAsPath, 11),
];

#[test]
fn numbers_of_subcodes() {
    for (s, n) in HEADER {
        assert_eq!(u8::from(ErrorSubCode::from(s)), n);
    }
    for (s, n) in OPEN {
        assert_eq!(u8::from(ErrorSubCode::from(s)), n);
    }
    for (s, n) in UPDATE {
        assert_eq!(u8::from(ErrorSubCode::from(s)), n);
    }
    assert_eq!(u8::from(ErrorSubCode::from(LocalLogicErrorSubcode::BufferTooShortError)), 1);
    assert_eq!(u8::from(ErrorSubCode::from(LocalLogicErrorSubcode::IOError)), 2);
    assert_eq!(u8::from(ErrorSubCode::Undefined), 0);
}

#[test]
fn notifications_name_their_error() {
    let n = NotificationMsg::from_enum(ErrorCode::Cease, ErrorSubCode::Undefined, None);
    assert_eq!((n.error_code, n.error_subcode), (6, 0));
    assert!(n.data.is_none());
    for (code, number) in [
        (ErrorCode::LocalLogicError, 0),
        (ErrorCode::MessageHeaderError, 1),
        (ErrorCode::OpenMessageError, 2),
        (ErrorCode::UpdateMessageError, 3),
        (ErrorCode::HoldTimerExpired, 4),
        (ErrorCode::FiniteStateMachineError, 5),
        (ErrorCode::Cease, 6),
    ] {
        let n = NotificationMsg::from_enum(code, ErrorSubCode::Undefined, None);
        assert_eq!(n.error_code, number);
    }
    let n = NotificationMsg::from_error(Error::new_open(
        OpenMsgErrorSubcode::UnacceptableHoldTime,
        Some(vec![1, 2]),
    ));
    assert_eq!((n.error_code, n.error_subcode), (2, 6));
    assert_eq!(n.data, Some(vec![1, 2]));
}

#[test]
fn errors_of_each_kind() {
    let e = Error::new(ErrorCode::Cease, ErrorSubCode::Undefined, Some(vec![9]));
    assert_eq!((e.code, e.subcode), (ErrorCode::Cease, ErrorSubCode::Undefined));
    assert_eq!(e.data, Some(vec![9]));
    let e = Error::new_local(LocalLogicErrorSubcode::IOError, None);
    assert_eq!(e.code, ErrorCode::LocalLogicError);
    let e = Error::new_header(MsgHeaderErrorSubcode::BadMessageType, None);
    assert_eq!(e.code, ErrorCode::MessageHeaderError);
    let e = Error::new_update(UpdateMsgErrorSubcode::MalformedAsPath, None);
    assert_eq!(e.code, ErrorCode::UpdateMessageError);

    let r: Result<u8> = Error::err_local(LocalLogicErrorSubcode::BufferTooShortError, None);
    assert!(r.unwrap_err().is_too_short());
    let r: Result<u8> = Error::err_header(MsgHeaderErrorSubcode::BadMessageLength, None);
    assert_eq!(
        r.unwrap_err().subcode,
        ErrorSubCode::MsgHeaderErrorSubcode(MsgHeaderErrorSubcode::BadMessageLength)
    );
    let r: Result<u8> = Error::err_open(OpenMsgErrorSubcode::BadPeerAs, None);
    assert_eq!(
        r.unwrap_err().subcode,
        ErrorSubCode::OpenMsgErrorSubcode(OpenMsgErrorSubcode::BadPeerAs)
    );
    let r: Result<u8> = Error::err_update(UpdateMsgErrorSubcode::AttributeFlagsError, None);
    assert_eq!(
        r.unwrap_err().subcode,
        ErrorSubCode::UpdateMsgErrorSubcode(UpdateMsgErrorSubcode::AttributeFlagsError)
    );
}

#[test]
fn outside_errors_are_local() {
    let e = Error::from(BufferTooShortError);
    assert!(e.is_too_short());
    assert!(e.data.is_none());
    let e = Error::from(std::io::Error::from(std::io::ErrorKind::BrokenPipe));
    assert!(!e.is_too_short());
    assert_eq!(
        e.subcode,
        ErrorSubCode::LocalLogicErrorSubcode(LocalLogicErrorSubcode::IOError)
    );
}
