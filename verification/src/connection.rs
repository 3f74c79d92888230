//! A connection to a peer: what it has read, and what becomes of its messages.
use crate::error::{too_short, Error, ErrorCode, Result};
use crate::fsm::{ConnId, Event};
use crate::message::{message_parse, Message, MessageView, OpenMsg};
use crate::update::four_octets;
use crate::wire::{bytes_contents, Outcome};
use bytes::BytesMut;
use vstd::prelude::*;

verus! {

/// How many bytes a new connection sets room aside for. It takes longer messages all the
/// same.
pub const READ_ROOM: usize = 4096;

/// A connection, as far as it is read: the bytes that came and were not taken yet, and
/// the OPEN that came last.
pub struct BgpConn {
    pub buffer: BytesMut,
    pub peer: Option<OpenMsg>,
}

/// What taking a message from a connection comes to.
#[derive(Debug)]
pub enum ReadStep {
    /// A message.
    Frame(Message),
    /// More bytes have to be read first.
    More,
    /// The bytes are refused.
    Fail(Error),
}

/// Whether an error only says that more bytes are needed.
pub open spec fn wants_more(e: Error) -> bool {
    e.code == too_short().code && e.subcode == too_short().subcode
}

/// What taking a message from a connection comes to, and what the connection is afterwards.
pub open spec fn read_done(before: BgpConn, after: BgpConn, r: ReadStep) -> bool {
    let p = message_parse(before.octets(), bytes_contents(before.buffer));
    &&& bytes_contents(after.buffer) == bytes_contents(before.buffer).skip(
        p.used as int,
    )
    &&& match p.out {
        Outcome::Value(m) => {
            &&& r matches ReadStep::Frame(frame)
            &&& frame@ == m
            &&& match m {
                MessageView::Open(open) => {
                    &&& after.peer matches Some(peer)
                    &&& peer@ == open
                },
                _ => after.peer == before.peer,
            }
        },
        Outcome::Refused(e) => {
            &&& after.peer == before.peer
            &&& r == if wants_more(e) {
                ReadStep::More
            } else {
                ReadStep::Fail(e)
            }
        },
    }
}

impl BgpConn {
    /// Whether the system numbers of the peer have four bytes, if its OPEN is known.
    pub open spec fn octets(self) -> Option<bool> {
        match self.peer {
            Some(peer) => Some(four_octets(peer)),
            None => None,
        }
    }

    pub fn new() -> (r: BgpConn)
        ensures
            bytes_contents(r.buffer) == Seq::<u8>::empty(),
            r.peer is None,
    {
        BgpConn { buffer: BytesMut::with_capacity(READ_ROOM), peer: None }
    }

    /// Takes a message from the bytes that came. An OPEN is kept.
    pub fn read_message(&mut self) -> (r: ReadStep)
        ensures
            read_done(*old(self), *final(self), r),
    {
        match Message::decode(&mut self.buffer, self.peer.as_ref()) {
            Ok(frame) => {
                if let Message::Open(open) = &frame {
                    self.peer = Some(open.clone());
                }
                ReadStep::Frame(frame)
            },
            Err(e) => {
                if e.is_too_short() {
                    ReadStep::More
                } else {
                    ReadStep::Fail(e)
                }
            },
        }
    }
}

/// What is done with what a running connection received.
#[derive(Debug)]
pub enum Received {
    /// Tell the session.
    Tell(Event),
    /// Go on.
    Nothing,
    /// Close the connection.
    Close,
}

/// The event that tells a session of an error in what it receives, if it is told.
pub open spec fn error_event(e: Error) -> Option<Event> {
    match e.code {
        ErrorCode::MessageHeaderError => Some(Event::BGPHeaderErr { err: e }),
        ErrorCode::OpenMessageError => Some(Event::BGPOpenMsgErr { err: e }),
        _ => None,
    }
}

fn tell_error(e: Error) -> (r: Option<Event>)
    ensures
        r == error_event(e),
{
    match e.code {
        ErrorCode::MessageHeaderError => Some(Event::BGPHeaderErr { err: e }),
        ErrorCode::OpenMessageError => Some(Event::BGPOpenMsgErr { err: e }),
        _ => None,
    }
}

/// A session is told of OPENs, of UPDATEs, and of errors in headers and in OPENs. Any
/// other error closes the connection.
pub open spec fn received(read: Result<Message>, remote_syn: bool) -> Received {
    match read {
        Ok(Message::Open(msg)) => Received::Tell(Event::BGPOpen { msg, remote_syn }),
        Ok(Message::Update(msg)) => Received::Tell(Event::UpdateMsg { msg }),
        Ok(_) => Received::Nothing,
        Err(e) => match error_event(e) {
            Some(event) => Received::Tell(event),
            None => Received::Close,
        },
    }
}

/// What is done with what a running connection received.
pub fn process(read: Result<Message>, remote_syn: bool) -> (r: Received)
    ensures
        r == received(read, remote_syn),
{
    match read {
        Ok(Message::Open(msg)) => Received::Tell(Event::BGPOpen { msg, remote_syn }),
        Ok(Message::Update(msg)) => Received::Tell(Event::UpdateMsg { msg }),
        Ok(_) => Received::Nothing,
        Err(e) => match tell_error(e) {
            Some(event) => Received::Tell(event),
            None => Received::Close,
        },
    }
}

/// What a session is told of the first message of a connection that may collide: the
/// connection and its OPEN, or an error in the header or in the OPEN.
pub open spec fn first_received(
    read: Result<Message>,
    conn: ConnId,
    remote_syn: bool,
) -> Seq<Event> {
    match read {
        Ok(Message::Open(msg)) => seq![
            Event::ProcessOneDone { conn },
            Event::BGPOpen { msg, remote_syn },
        ],
        Ok(_) => seq![],
        Err(e) => match error_event(e) {
            Some(event) => seq![event],
            None => seq![],
        },
    }
}

/// What a session is told of the first message of a connection that may collide.
pub fn process_one(read: Result<Message>, conn: ConnId, remote_syn: bool) -> (r: Vec<Event>)
    ensures
        r@ == first_received(read, conn, remote_syn),
{
    let mut events: Vec<Event> = Vec::new();
    match read {
        Ok(Message::Open(msg)) => {
            events.push(Event::ProcessOneDone { conn });
            events.push(Event::BGPOpen { msg, remote_syn });
        },
        Ok(_) => {},
        Err(e) => {
            if let Some(event) = tell_error(e) {
                events.push(event);
            }
        },
    }
    events
}

/// The OPEN of a connection that the peer made, if that is what it sent first.
pub open spec fn passive_open(read: Result<Message>) -> Option<OpenMsg> {
    match read {
        Ok(Message::Open(open)) => Some(open),
        _ => None,
    }
}

/// The OPEN of a connection that the peer made, if that is what it sent first.
pub fn process_passive(read: Result<Message>) -> (r: Option<OpenMsg>)
    ensures
        r == passive_open(read),
{
    match read {
        Ok(Message::Open(open)) => Some(open),
        _ => None,
    }
}

/// What a session is told of a connection that the peer made and opened.
pub open spec fn passive_told(conn: ConnId, open: OpenMsg) -> Seq<Event> {
    seq![Event::TcpConnectionConfirmed { bgp_conn: conn }].push(
        Event::BGPOpen { msg: open, remote_syn: true },
    )
}

/// What a session is told of a connection that the peer made and opened.
pub fn passive_events(conn: ConnId, open: OpenMsg) -> (r: Vec<Event>)
    ensures
        r@ == passive_told(conn, open),
{
    let mut events: Vec<Event> = Vec::new();
    events.push(Event::TcpConnectionConfirmed { bgp_conn: conn });
    events.push(Event::BGPOpen { msg: open, remote_syn: true });
    events
}

} // verus!
