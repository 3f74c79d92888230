//! BGP messages and how they are read from bytes.
use crate::error::{
    header_error, Error, ErrorCode, ErrorSubCode, LocalLogicErrorSubcode, MsgHeaderErrorSubcode,
    Result,
};
use crate::open::{lemma_open_fits, open_parse};
use crate::update::{four_octets, lemma_update_fits, update_parse};
use crate::wire::{
    be16, bytes_contents, did, did_view, read_u16, read_u8, read_vec, refused, rest, short, value,
    Outcome, Parse,
};
use bytes::{Buf, BytesMut};
use octets::Octets;
use vstd::prelude::*;

pub use crate::open::{FourOctetAsCap, MpExtCap, OpenMsg, OpenMsgView, OptParams, OptParamsView};
pub use crate::update::{
    Aggregator, AsNum, AsPathSegment, AsPathSegmentType, Cidr, Origin, PathAttribute,
    PathAttributeFlags, PathAttributeValue, UpdateMsg, UpdateMsgView,
};

verus! {

/// How many bytes the marker at the front of a message has.
pub const MARKER_LEN: usize = 16;

/// What each byte of the marker is.
pub const MARKER_OCTET: u8 = 1;

/// How many bytes a header has.
pub const MIN_MSG_LEN: usize = 19;

/// The smallest length that an OPEN may give.
pub const MIN_OPEN_LEN: u16 = 29;

/// The smallest length that an UPDATE may give.
pub const MIN_UPDATE_LEN: u16 = 23;

/// The only length that a KEEPALIVE may give.
pub const KEEPALIVE_LEN: u16 = 19;

/// The smallest length that a NOTIFICATION may give.
pub const MIN_NOTIFICATION_LEN: u16 = 21;

/// The kinds of messages.
#[derive(Debug, Clone, Copy, PartialEq, Eq, Structural)]
pub enum MsgType {
    Open,
    Update,
    Notification,
    Keepalive,
}

/// What stands at the front of a message, behind the marker.
#[derive(Debug, Clone, Copy, PartialEq, Eq, Structural)]
pub struct MessageHeader {
    pub length: u16,
    pub msg_type: MsgType,
}

/// The kind of message that a byte names.
pub open spec fn msg_type_of(b: u8) -> Option<MsgType> {
    if b == 1 {
        Some(MsgType::Open)
    } else if b == 2 {
        Some(MsgType::Update)
    } else if b == 3 {
        Some(MsgType::Notification)
    } else if b == 4 {
        Some(MsgType::Keepalive)
    } else {
        None
    }
}

/// Whether a message of that kind may give that length.
pub open spec fn length_fits(msg_type: MsgType, length: u16) -> bool {
    match msg_type {
        MsgType::Open => length >= MIN_OPEN_LEN,
        MsgType::Update => length >= MIN_UPDATE_LEN,
        MsgType::Notification => length >= MIN_NOTIFICATION_LEN,
        MsgType::Keepalive => length == KEEPALIVE_LEN,
    }
}

/// Whether the marker stands at the front.
pub open spec fn marked(s: Seq<u8>) -> bool {
    forall|i: int| 0 <= i < MARKER_LEN ==> #[trigger] s[i] == MARKER_OCTET
}

/// The marker, the length, and the kind.
pub open spec fn header_parse(s: Seq<u8>) -> Parse<MessageHeader> {
    let length = be16(s, 16);
    if s.len() < 16 {
        short(0)
    } else if !marked(s) {
        refused(header_error(MsgHeaderErrorSubcode::ConnectionNotSync), 16)
    } else if s.len() < 18 {
        short(16)
    } else if s.len() < 19 {
        short(18)
    } else {
        match msg_type_of(s[18]) {
            Some(msg_type) => if length_fits(msg_type, length) {
                value(MessageHeader { length, msg_type }, 19)
            } else {
                refused(header_error(MsgHeaderErrorSubcode::BadMessageLength), 19)
            },
            None => refused(header_error(MsgHeaderErrorSubcode::BadMessageType), 19),
        }
    }
}

/// Whether all the bytes are those of the marker.
fn is_marker(bytes: &[u8]) -> (r: bool)
    requires
        bytes.len() == MARKER_LEN,
    ensures
        r == marked(bytes@),
{
    let mut i: usize = 0;
    while i < MARKER_LEN
        invariant
            i <= MARKER_LEN,
            bytes.len() == MARKER_LEN,
            forall|k: int| 0 <= k < i ==> #[trigger] bytes@[k] == MARKER_OCTET,
        decreases MARKER_LEN - i,
    {
        if bytes[i] != MARKER_OCTET {
            return false;
        }
        i = i + 1;
    }
    true
}

impl MessageHeader {
    pub fn decode(buf: &mut Octets<'_>) -> (r: Result<MessageHeader>)
        ensures
            did(*old(buf), *final(buf), r, header_parse(rest(*old(buf)))),
    {
        let ghost s = rest(*buf);
        let marker = match buf.get_bytes(MARKER_LEN) {
            Ok(marker) => marker,
            Err(e) => {
                return Err(Error::from(e));
            },
        };
        assert(forall|i: int|
            0 <= i < MARKER_LEN ==> #[trigger] s[i] == s.take(MARKER_LEN as int)[i]);
        if !is_marker(marker.buf()) {
            return Error::err_header(MsgHeaderErrorSubcode::ConnectionNotSync, None);
        }
        let length = read_u16(buf)?;
        let msg_type = match read_u8(buf)? {
            1 => MsgType::Open,
            2 => MsgType::Update,
            3 => MsgType::Notification,
            4 => MsgType::Keepalive,
            _ => {
                return Error::err_header(MsgHeaderErrorSubcode::BadMessageType, None);
            },
        };
        let fits = match msg_type {
            MsgType::Open => length >= MIN_OPEN_LEN,
            MsgType::Update => length >= MIN_UPDATE_LEN,
            MsgType::Notification => length >= MIN_NOTIFICATION_LEN,
            MsgType::Keepalive => length == KEEPALIVE_LEN,
        };
        if !fits {
            return Error::err_header(MsgHeaderErrorSubcode::BadMessageLength, None);
        }
        Ok(MessageHeader { length, msg_type })
    }
}

/// The message that keeps a session up. It says nothing.
#[derive(Debug, Clone, Copy, PartialEq, Eq, Structural)]
pub struct KeepaliveMsg {}

impl KeepaliveMsg {
    pub fn new() -> (r: KeepaliveMsg)
        ensures
            r == (KeepaliveMsg {  }),
    {
        KeepaliveMsg {  }
    }

    /// Reads nothing.
    pub fn decode(buf: &mut Octets<'_>) -> (r: Result<KeepaliveMsg>)
        ensures
            did(*old(buf), *final(buf), r, value(KeepaliveMsg {  }, 0)),
    {
        Ok(KeepaliveMsg {  })
    }
}

/// The message that reports an error.
#[derive(Debug, Clone)]
pub struct NotificationMsg {
    pub error_code: u8,
    pub error_subcode: u8,
    pub data: Option<Vec<u8>>,
}

/// What a NOTIFICATION says.
pub struct NotificationMsgView {
    pub error_code: u8,
    pub error_subcode: u8,
    pub data: Option<Seq<u8>>,
}

impl View for NotificationMsg {
    type V = NotificationMsgView;

    open spec fn view(&self) -> NotificationMsgView {
        NotificationMsgView {
            error_code: self.error_code,
            error_subcode: self.error_subcode,
            data: match self.data {
                Some(data) => Some(data@),
                None => None,
            },
        }
    }
}

/// The two numbers, and data up to the end.
pub open spec fn notification_parse(s: Seq<u8>) -> Parse<NotificationMsgView> {
    if s.len() < 1 {
        short(0)
    } else if s.len() < 2 {
        short(1)
    } else {
        value(
            NotificationMsgView {
                error_code: s[0],
                error_subcode: s[1],
                data: Some(s.skip(2)),
            },
            s.len(),
        )
    }
}

/// The NOTIFICATION that reports an error of that kind.
pub open spec fn notification_of(
    code: ErrorCode,
    subcode: ErrorSubCode,
    data: Option<Vec<u8>>,
) -> NotificationMsg {
    NotificationMsg {
        error_code: code.spec_number(),
        error_subcode: subcode.spec_number(),
        data,
    }
}

impl NotificationMsg {
    pub fn decode(buf: &mut Octets<'_>) -> (r: Result<NotificationMsg>)
        ensures
            did_view(*old(buf), *final(buf), r, notification_parse(rest(*old(buf)))),
    {
        let ghost s = rest(*buf);
        let error_code = read_u8(buf)?;
        let error_subcode = read_u8(buf)?;
        let n = buf.cap();
        let data = read_vec(buf, n)?;
        assert(data@ =~= s.skip(2));
        Ok(NotificationMsg { error_code, error_subcode, data: Some(data) })
    }

    pub fn from_enum(code: ErrorCode, subcode: ErrorSubCode, data: Option<Vec<u8>>) -> (r:
        NotificationMsg)
        ensures
            r == notification_of(code, subcode, data),
    {
        NotificationMsg { error_code: code.number(), error_subcode: u8::from(subcode), data }
    }

    pub fn from_error(err: Error) -> (r: NotificationMsg)
        ensures
            r == notification_of(err.code, err.subcode, err.data),
    {
        NotificationMsg::from_enum(err.code, err.subcode, err.data)
    }
}

/// A message.
#[derive(Debug, Clone)]
pub enum Message {
    Open(OpenMsg),
    Update(UpdateMsg),
    Keepalive(KeepaliveMsg),
    Notification(NotificationMsg),
}

/// What a message says.
pub enum MessageView {
    Open(OpenMsgView),
    Update(UpdateMsgView),
    Keepalive(KeepaliveMsg),
    Notification(NotificationMsgView),
}

impl View for Message {
    type V = MessageView;

    open spec fn view(&self) -> MessageView {
        match *self {
            Message::Open(m) => MessageView::Open(m@),
            Message::Update(m) => MessageView::Update(m@),
            Message::Keepalive(m) => MessageView::Keepalive(m),
            Message::Notification(m) => MessageView::Notification(m@),
        }
    }
}

/// The body of a message of that kind. `peer` says whether the system numbers of the peer
/// have four bytes, if its OPEN is known; without it no UPDATE is read.
pub open spec fn body_parse(
    msg_type: MsgType,
    peer: Option<bool>,
    s: Seq<u8>,
) -> Parse<MessageView> {
    match msg_type {
        MsgType::Open => {
            let p = open_parse(s);
            match p.out {
                Outcome::Value(m) => value(MessageView::Open(m), p.used),
                Outcome::Refused(e) => refused(e, p.used),
            }
        },
        MsgType::Update => match peer {
            Some(four) => {
                let p = update_parse(four, s);
                match p.out {
                    Outcome::Value(m) => value(MessageView::Update(m), p.used),
                    Outcome::Refused(e) => refused(e, p.used),
                }
            },
            None => refused(header_error(MsgHeaderErrorSubcode::ConnectionNotSync), 0),
        },
        MsgType::Keepalive => value(MessageView::Keepalive(KeepaliveMsg {  }), 0),
        MsgType::Notification => {
            let p = notification_parse(s);
            match p.out {
                Outcome::Value(m) => value(MessageView::Notification(m), p.used),
                Outcome::Refused(e) => refused(e, p.used),
            }
        },
    }
}

/// A header, and behind it the body. The length that the header gives is that of the whole
/// message. What is passed is the header and what the body took; where there is no message,
/// nothing is.
pub open spec fn message_parse(peer: Option<bool>, s: Seq<u8>) -> Parse<MessageView> {
    let head = header_parse(s);
    if s.len() < MIN_MSG_LEN {
        short(0)
    } else {
        match head.out {
            Outcome::Value(header) => if s.len() < header.length {
                short(0)
            } else {
                let body = s.subrange(MIN_MSG_LEN as int, header.length as int);
                let p = body_parse(header.msg_type, peer, body);
                match p.out {
                    Outcome::Value(m) => value(m, MIN_MSG_LEN as nat + p.used),
                    Outcome::Refused(e) => refused(e, 0),
                }
            },
            Outcome::Refused(e) => refused(e, 0),
        }
    }
}

/// Whether the system numbers of the peer have four bytes, if its OPEN is known.
pub open spec fn peer_octets(peer: Option<&OpenMsg>) -> Option<bool> {
    match peer {
        Some(peer) => Some(four_octets(*peer)),
        None => None,
    }
}

impl Message {
    /// Reads the body of a message.
    fn decode_body(msg_type: MsgType, oct: &mut Octets<'_>, peer: Option<&OpenMsg>) -> (r: Result<
        Message,
    >)
        ensures
            did_view(
                *old(oct),
                *final(oct),
                r,
                body_parse(msg_type, peer_octets(peer), rest(*old(oct))),
            ),
    {
        match msg_type {
            MsgType::Open => Ok(Message::Open(OpenMsg::decode(oct)?)),
            MsgType::Update => match peer {
                Some(peer) => Ok(Message::Update(UpdateMsg::decode(oct, peer)?)),
                None => Error::err_header(MsgHeaderErrorSubcode::ConnectionNotSync, None),
            },
            MsgType::Keepalive => Ok(Message::Keepalive(KeepaliveMsg::decode(oct)?)),
            MsgType::Notification => Ok(Message::Notification(NotificationMsg::decode(oct)?)),
        }
    }

    /// Takes a message from the front of a buffer.
    pub fn decode(buf: &mut BytesMut, peer: Option<&OpenMsg>) -> (r: Result<Message>)
        ensures
            ({
                let p = message_parse(peer_octets(peer), bytes_contents(*old(buf)));
                &&& bytes_contents(*final(buf)) == bytes_contents(*old(buf)).skip(p.used as int)
                &&& match r {
                    Ok(m) => p.out == Outcome::Value(m@),
                    Err(e) => p.out == Outcome::<MessageView>::Refused(e),
                }
            }),
    {
        let ghost s = bytes_contents(*buf);
        if buf.len() < MIN_MSG_LEN {
            let n = MIN_MSG_LEN - buf.len();
            buf.reserve(n);
            return Error::err_local(LocalLogicErrorSubcode::BufferTooShortError, None);
        }
        let mut oct = Octets::with_slice(buf);
        assert(rest(oct) =~= s);
        let header = MessageHeader::decode(&mut oct)?;
        if buf.len() < header.length as usize {
            let n = header.length as usize - buf.len();
            buf.reserve(n);
            return Error::err_local(LocalLogicErrorSubcode::BufferTooShortError, None);
        }
        let mut body = match oct.get_bytes(header.length as usize - MIN_MSG_LEN) {
            Ok(body) => body,
            Err(e) => {
                return Err(Error::from(e));
            },
        };
        assert(rest(body) =~= s.subrange(19, header.length as int));
        let message = Self::decode_body(header.msg_type, &mut body, peer)?;
        let n = body.off();
        proof {
            lemma_body_fits(
                header.msg_type,
                peer_octets(peer),
                s.subrange(19, header.length as int),
            );
        }
        buf.advance(n + MIN_MSG_LEN);
        Ok(message)
    }
}

/// A body takes no more bytes than there are.
pub proof fn lemma_body_fits(msg_type: MsgType, peer: Option<bool>, s: Seq<u8>)
    ensures
        body_parse(msg_type, peer, s).used <= s.len(),
{
    lemma_open_fits(s);
    match peer {
        Some(four) => lemma_update_fits(four, s),
        None => {},
    }
}

} // verus!
