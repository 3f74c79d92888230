//! What holds of every connection, of the errors and of the plain values.
use crate::behaviour_laws::{code_number, never, subcode_number};
use crate::connection::{
    first_received, passive_open, passive_told, read_done, received, BgpConn, ReadStep, Received,
};
use crate::encoding_laws::{
    enc32, enc_message, header_fault, law_message_is_read_back, more_needed, open_fault,
    update_fault,
};
use crate::error::{
    header_error, local_error, open_error, too_short, update_error, Error, ErrorCode, ErrorSubCode,
    LocalLogicErrorSubcode, MsgHeaderErrorSubcode, OpenMsgErrorSubcode, Result,
    UpdateMsgErrorSubcode,
};
use crate::fsm::{
    all_timers, dflt_bgp_holdtime, dflt_bgp_keepalive, dflt_bgp_timers_connect, far_future,
    new_attr, Active, ConnId, Connect, Established, Event, Fsm, Idle, OpenConfirm, OpenSent,
    Operation, Timer, TimerKind, Wake,
};
use crate::message::{
    header_parse, notification_of, peer_octets, KeepaliveMsg, Message, NotificationMsg, OpenMsg,
};
use crate::net::{Ipv4Addr, Ipv6Addr};
use crate::open::open_parse;
use crate::time::Duration;
use crate::update::{
    flags_of, flags_parse, update_parse, Aggregator, AsPathSegment, Origin, PathAttributeFlags,
    PathAttributeValue, UpdateMsg,
};
use crate::wire::{bytes_contents, Outcome};
use vstd::prelude::*;
use vstd::std_specs::convert::FromSpec;

verus! {

/// A whole KEEPALIVE is read as one, whatever stands behind it, which is left.
pub proof fn law_keepalive_is_read(
    before: BgpConn,
    after: BgpConn,
    r: ReadStep,
    behind: Seq<u8>,
)
    requires
        read_done(before, after, r),
        bytes_contents(before.buffer) == enc_message(4, seq![]) + behind,
    ensures
        r == ReadStep::Frame(Message::Keepalive(KeepaliveMsg {  })),
        bytes_contents(after.buffer) == behind,
        after.peer == before.peer,
{
    law_message_is_read_back(4, before.octets(), seq![], behind);
}

/// A whole NOTIFICATION is read with its two numbers and its data.
pub proof fn law_notification_is_read(
    before: BgpConn,
    after: BgpConn,
    r: ReadStep,
    body: Seq<u8>,
    behind: Seq<u8>,
)
    requires
        read_done(before, after, r),
        2 <= body.len() <= 65516,
        bytes_contents(before.buffer) == enc_message(3, body) + behind,
    ensures
        r matches ReadStep::Frame(Message::Notification(n)) && n.error_code == body[0]
            && n.error_subcode == body[1] && n.data is Some && n.data->0@ == body.skip(2),
        bytes_contents(after.buffer) == behind,
        after.peer == before.peer,
{
    law_message_is_read_back(3, before.octets(), body, behind);
}

/// A whole OPEN is read as its body says, and is kept: what it says of system numbers holds
/// for the UPDATEs behind it. One that is refused is answered with its error; it is neither
/// taken nor kept.
pub proof fn law_open_is_kept(
    before: BgpConn,
    after: BgpConn,
    r: ReadStep,
    body: Seq<u8>,
    behind: Seq<u8>,
)
    requires
        read_done(before, after, r),
        10 <= body.len() <= 65516,
        bytes_contents(before.buffer) == enc_message(1, body) + behind,
    ensures
        match open_parse(body).out {
            Outcome::Value(open) => {
                &&& r matches ReadStep::Frame(Message::Open(m)) && m@ == open
                &&& after.peer matches Some(peer) && peer@ == open
                &&& after.octets() == Some(open.opt_params.four_octet_as_cap is Some)
                &&& bytes_contents(after.buffer) == body.skip(open_parse(body).used as int)
                    + behind
            },
            Outcome::Refused(e) => {
                &&& after.peer == before.peer
                &&& bytes_contents(after.buffer) == bytes_contents(before.buffer)
                &&& r == if e == more_needed() {
                    ReadStep::More
                } else {
                    ReadStep::Fail(e)
                }
            },
        },
{
    law_message_is_read_back(1, before.octets(), body, behind);
    crate::codec_laws::law_open(body);
    let s = enc_message(1, body) + behind;
    match open_parse(body).out {
        Outcome::Value(open) => {
            assert(s.skip(19 + open_parse(body).used as int) =~= body.skip(
                open_parse(body).used as int,
            ) + behind);
        },
        _ => {},
    }
}

/// A whole UPDATE of a peer whose OPEN is known is read as its body says, with the system
/// numbers that this OPEN announced, and takes all its bytes. Without an OPEN it is refused.
/// One that is refused is answered with its error and is not taken.
pub proof fn law_update_is_read(
    before: BgpConn,
    after: BgpConn,
    r: ReadStep,
    body: Seq<u8>,
    behind: Seq<u8>,
)
    requires
        read_done(before, after, r),
        4 <= body.len() <= 65516,
        bytes_contents(before.buffer) == enc_message(2, body) + behind,
    ensures
        after.peer == before.peer,
        match before.peer {
            Some(peer) => match update_parse(
                peer.opt_params.four_octet_as_cap is Some,
                body,
            ).out {
                Outcome::Value(update) => {
                    &&& r matches ReadStep::Frame(Message::Update(m)) && m@ == update
                    &&& bytes_contents(after.buffer) == behind
                },
                Outcome::Refused(e) => {
                    &&& bytes_contents(after.buffer) == bytes_contents(before.buffer)
                    &&& r == if e == more_needed() {
                        ReadStep::More
                    } else {
                        ReadStep::Fail(e)
                    }
                },
            },
            None => {
                &&& bytes_contents(after.buffer) == bytes_contents(before.buffer)
                &&& r == ReadStep::Fail(header_fault(MsgHeaderErrorSubcode::ConnectionNotSync))
            },
        },
{
    law_message_is_read_back(2, before.octets(), body, behind);
    match before.octets() {
        Some(four) => crate::codec_laws::law_update(four, body),
        None => {},
    }
}

/// A message whose bytes have not all come is waited for, and one whose header is refused is
/// answered with its error. Either way nothing is taken.
pub proof fn law_connection_waits_and_refuses(before: BgpConn, after: BgpConn, r: ReadStep)
    requires
        read_done(before, after, r),
    ensures
        ({
            let s = bytes_contents(before.buffer);
            let head = header_parse(s).out;
            &&& s.len() < 19 || (head matches Outcome::Value(h) && s.len() < h.length)
                ==> r is More && bytes_contents(after.buffer) == s && after.peer == before.peer
            &&& s.len() >= 19 ==> (head matches Outcome::Refused(e) ==> r == ReadStep::Fail(e)
                && bytes_contents(after.buffer) == s && after.peer == before.peer)
            &&& r !is Frame ==> bytes_contents(after.buffer) == s && after.peer == before.peer
        }),
{
}

/// The system numbers of a peer have four bytes iff its OPEN has the capability. Without an
/// OPEN nothing is known of them.
pub proof fn law_peer_octets(open: OpenMsg, conn: BgpConn)
    ensures
        peer_octets(Some(&open)) == Some(open.opt_params.four_octet_as_cap is Some),
        peer_octets(None) is None,
        conn.octets() == match conn.peer {
            Some(peer) => Some(peer.opt_params.four_octet_as_cap is Some),
            None => None,
        },
{
}

/// A session is told of every OPEN that its connection received, with the side that made this
/// connection, and of every UPDATE. KEEPALIVEs and NOTIFICATIONs are passed over.
pub proof fn law_messages_are_told(
    open: OpenMsg,
    update: UpdateMsg,
    notification: NotificationMsg,
    remote_syn: bool,
)
    ensures
        received(Ok(Message::Open(open)), remote_syn) == Received::Tell(
            Event::BGPOpen { msg: open, remote_syn },
        ),
        received(Ok(Message::Update(update)), remote_syn) == Received::Tell(
            Event::UpdateMsg { msg: update },
        ),
        received(Ok(Message::Keepalive(KeepaliveMsg {  })), remote_syn) is Nothing,
        received(Ok(Message::Notification(notification)), remote_syn) is Nothing,
{
}

/// A session is told of errors in headers and in OPENs, each with the error itself. Any other
/// error closes a running connection; of a connection that may collide nothing is told then.
pub proof fn law_errors_are_told(err: Error, conn: ConnId, remote_syn: bool)
    ensures
        ({
            let running = received(Err(err), remote_syn);
            let first = first_received(Err(err), conn, remote_syn);
            if err.code is MessageHeaderError {
                &&& running == Received::Tell(Event::BGPHeaderErr { err })
                &&& first == seq![Event::BGPHeaderErr { err }]
            } else if err.code is OpenMessageError {
                &&& running == Received::Tell(Event::BGPOpenMsgErr { err })
                &&& first == seq![Event::BGPOpenMsgErr { err }]
            } else {
                &&& running is Close
                &&& first.len() == 0
            }
        }),
{
}

/// Of a connection that may collide and was opened, the session gets the connection and then
/// the same OPEN that it would be told of if the connection ran. Of anything else that comes
/// first it is told nothing.
pub proof fn law_first_message_is_told(read: Result<Message>, conn: ConnId, remote_syn: bool)
    requires
        read is Ok,
    ensures
        ({
            let events = first_received(read, conn, remote_syn);
            if read->Ok_0 is Open {
                &&& events.len() == 2
                &&& events[0] == Event::ProcessOneDone { conn }
                &&& events[1] == Event::BGPOpen { msg: read->Ok_0->Open_0, remote_syn }
                &&& received(read, remote_syn) == Received::Tell(events[1])
            } else {
                events.len() == 0
            }
        }),
{
}

/// A connection that the peer made is handed in iff an OPEN is what it sent first. The session
/// gets the connection, and then that OPEN as one that came from the peer's side.
pub proof fn law_passive_connection(read: Result<Message>, conn: ConnId)
    ensures
        passive_open(read) is Some <==> read is Ok && read->Ok_0 is Open,
        passive_open(read) matches Some(open) ==> {
            let events = passive_told(conn, open);
            &&& read == Ok::<Message, Error>(Message::Open(open))
            &&& events.len() == 2
            &&& events[0] == Event::TcpConnectionConfirmed { bgp_conn: conn }
            &&& events[1] == Event::BGPOpen { msg: open, remote_syn: true }
        },
{
}

/// An error without data is of the kind of its detail.
pub proof fn law_errors(
    local: LocalLogicErrorSubcode,
    header: MsgHeaderErrorSubcode,
    open: OpenMsgErrorSubcode,
    update: UpdateMsgErrorSubcode,
)
    ensures
        local_error(local) == (Error {
            code: ErrorCode::LocalLogicError,
            subcode: ErrorSubCode::LocalLogicErrorSubcode(local),
            data: None,
        }),
        header_error(header) == header_fault(header),
        open_error(open) == open_fault(open),
        update_error(update) == update_fault(update),
        too_short() == more_needed(),
{
}

/// A detail becomes that of its kind of message. The errors of the cursor and of the socket
/// become local ones.
pub proof fn law_error_conversions(
    local: LocalLogicErrorSubcode,
    header: MsgHeaderErrorSubcode,
    open: OpenMsgErrorSubcode,
    update: UpdateMsgErrorSubcode,
    subcode: ErrorSubCode,
    short: octets::BufferTooShortError,
    io: std::io::Error,
)
    ensures
        <ErrorSubCode as FromSpec<LocalLogicErrorSubcode>>::from_spec(local)
            == ErrorSubCode::LocalLogicErrorSubcode(local),
        <ErrorSubCode as FromSpec<MsgHeaderErrorSubcode>>::from_spec(header)
            == ErrorSubCode::MsgHeaderErrorSubcode(header),
        <ErrorSubCode as FromSpec<OpenMsgErrorSubcode>>::from_spec(open)
            == ErrorSubCode::OpenMsgErrorSubcode(open),
        <ErrorSubCode as FromSpec<UpdateMsgErrorSubcode>>::from_spec(update)
            == ErrorSubCode::UpdateMsgErrorSubcode(update),
        <u8 as FromSpec<ErrorSubCode>>::from_spec(subcode) == subcode_number(subcode),
        <Error as FromSpec<octets::BufferTooShortError>>::from_spec(short) == more_needed(),
        <Error as FromSpec<std::io::Error>>::from_spec(io) == (Error {
            code: ErrorCode::LocalLogicError,
            subcode: ErrorSubCode::LocalLogicErrorSubcode(LocalLogicErrorSubcode::IOError),
            data: None,
        }),
{
}

/// An origin, a path segment and an aggregator become the value of an attribute as they are.
pub proof fn law_value_conversions(origin: Origin, segment: AsPathSegment, a: Aggregator)
    ensures
        <PathAttributeValue as FromSpec<Origin>>::from_spec(origin) == PathAttributeValue::Origin(
            origin,
        ),
        <PathAttributeValue as FromSpec<AsPathSegment>>::from_spec(segment)
            == PathAttributeValue::AsPath(segment),
        <PathAttributeValue as FromSpec<Aggregator>>::from_spec(a)
            == PathAttributeValue::Aggregator(a),
{
}

/// The NOTIFICATION of an error has its numbers and its data.
pub proof fn law_notification_of(code: ErrorCode, subcode: ErrorSubCode, data: Option<Vec<u8>>)
    ensures
        notification_of(code, subcode, data) == (NotificationMsg {
            error_code: code_number(code),
            error_subcode: subcode_number(subcode),
            data,
        }),
{
}

/// One byte of flags is read, and nothing of no bytes.
pub proof fn law_flags_are_read(s: Seq<u8>)
    ensures
        s.len() > 0 ==> flags_parse(s).out == Outcome::Value(flags_of(s[0])) && flags_parse(s).used
            == 1,
        s.len() == 0 ==> flags_parse(s).out == Outcome::<PathAttributeFlags>::Refused(
            more_needed(),
        ) && flags_parse(s).used == 0,
{
}

/// Addresses keep their bytes in order, the first the most significant.
pub proof fn law_addresses(s: Seq<u8>, n: u32)
    ensures
        forall|i: int| 0 <= i < 4 ==> #[trigger] Ipv4Addr::of(s).octets@[i] == s[i],
        forall|i: int| 0 <= i < 16 ==> #[trigger] Ipv6Addr::of(s).octets@[i] == s[i],
        Ipv4Addr::of(enc32(n)).spec_to_bits() == n,
{
    let a = Ipv4Addr::of(enc32(n)).octets@;
    assert(a[0] == enc32(n)[0] && a[1] == enc32(n)[1] && a[2] == enc32(n)[2] && a[3] == enc32(
        n,
    )[3]);
    assert(n == (n / 0x100_0000) * 0x100_0000 + (n / 0x1_0000 % 256) * 0x1_0000 + (n / 256 % 256)
        * 256 + n % 256);
}

/// Spans are as long as their seconds and nanoseconds, and every length that fits is the
/// length of one span.
pub proof fn law_spans(secs: u64, nanos: u32)
    requires
        nanos < 1_000_000_000,
    ensures
        (Duration { secs, nanos }).wf(),
        (Duration { secs, nanos }).total() == secs * 1_000_000_000 + nanos,
        Duration::of_nanos((secs * 1_000_000_000 + nanos) as nat) == (Duration { secs, nanos }),
        Duration::from_secs(secs) == (Duration { secs, nanos: 0 }),
        Duration::zero().total() == 0,
{
    vstd::arithmetic::div_mod::lemma_fundamental_div_mod_converse(
        secs * 1_000_000_000 + nanos,
        1_000_000_000,
        secs as int,
        nanos as int,
    );
}

/// A new session tries for ten seconds, holds for nine and keeps alive every three until
/// something else is agreed on. It delays nothing, says nothing early, and sets no timer.
pub proof fn law_defaults()
    ensures
        far_future() == never(),
        dflt_bgp_timers_connect() == Duration::from_secs(10),
        dflt_bgp_holdtime() == Duration::from_secs(9),
        dflt_bgp_keepalive() == Duration::from_secs(3),
        ({
            let attr = new_attr();
            &&& attr.connect_retry_counter == 0
            &&& attr.connect_retry_time == Duration::from_secs(10)
            &&& attr.hold_time == Duration::from_secs(9)
            &&& attr.keepalive_time == Duration::from_secs(3)
            &&& attr.delay_open_time == Duration::zero()
            &&& !attr.delay_open && !attr.send_notification_without_open
            &&& !attr.damp_peer_oscillations && !attr.collision_detect_established_state
            &&& attr.cur_connect_retry_time == never() && attr.cur_hold_time == never()
            &&& attr.cur_keepalive_time == never() && attr.cur_delay_open_time == never()
        }),
{
}

/// There is every timer once.
pub proof fn law_all_timers(kind: TimerKind)
    ensures
        all_timers().len() == 5,
        all_timers().no_duplicates(),
        all_timers().contains(kind),
{
    let all = all_timers();
    assert(all[0] is ConnectRetry && all[1] is Hold && all[2] is Keepalive && all[3] is DelayOpen
        && all[4] is IdleHold);
}

/// Each timer tells of itself, and an operation reaches the timer that it is for. An operation
/// stops a timer, lets it run as before, or sets it.
pub proof fn law_timers(kind: TimerKind, op: Operation, time: Duration)
    ensures
        Wake::Expired.event(kind) == Some(
            match kind {
                TimerKind::ConnectRetry => Event::ConnectRetryTimerExpires {  },
                TimerKind::Hold => Event::HoldTimerExpires {  },
                TimerKind::Keepalive => Event::KeepaliveTimerExpires {  },
                TimerKind::DelayOpen => Event::DelayOpenTimerExpires {  },
                TimerKind::IdleHold => Event::IdleHoldTimerExpires {  },
            },
        ),
        Some(<Event as FromSpec<TimerKind>>::from_spec(kind)) == Wake::Expired.event(kind),
        (Wake::Told { op: Some(op) }).event(kind) is None,
        (Wake::Told { op: None::<Operation> }).event(kind) is None,
        Wake::Expired.next_time(time) == time,
        (Wake::Told { op: None::<Operation> }).next_time(time) == time,
        (Wake::Told { op: Some(op) }).next_time(time) == match op {
            Operation::Stop => never(),
            Operation::Restart => time,
            Operation::Update { duration } => duration,
        },
        (Timer::ConnectRetry { op }).spec_kind() is ConnectRetry,
        (Timer::Hold { op }).spec_kind() is Hold,
        (Timer::Keepalive { op }).spec_kind() is Keepalive,
        (Timer::DelayOpen { op }).spec_kind() is DelayOpen,
        (Timer::IdleHold { op }).spec_kind() is IdleHold,
        (Timer::ConnectRetry { op }).spec_op() == op,
        (Timer::Hold { op }).spec_op() == op,
        (Timer::Keepalive { op }).spec_op() == op,
        (Timer::DelayOpen { op }).spec_op() == op,
        (Timer::IdleHold { op }).spec_op() == op,
{
}

/// A session takes its peer and its attributes along from state to state, and from a state in
/// which it has a connection to the next one also that.
pub proof fn law_conversions(
    i: Fsm<Idle>,
    c: Fsm<Connect>,
    a: Fsm<Active>,
    s: Fsm<OpenSent>,
    o: Fsm<OpenConfirm>,
    e: Fsm<Established>,
)
    ensures
        ({
            let ic = <Fsm<Connect> as FromSpec<Fsm<Idle>>>::from_spec(i);
            let ia = <Fsm<Active> as FromSpec<Fsm<Idle>>>::from_spec(i);
            &&& ic.peer == i.peer && ic.attr == i.attr && ia.peer == i.peer && ia.attr == i.attr
            &&& ic.state.tcp_conn_handle is None && ic.state.bgp_conn_handle is None
                && ic.state.bgp_out_tx is None
            &&& ia.state.tcp_conn_handle is None && ia.state.bgp_conn_handle is None
                && ia.state.bgp_out_tx is None
        }),
        ({
            let ci = <Fsm<Idle> as FromSpec<Fsm<Connect>>>::from_spec(c);
            let ai = <Fsm<Idle> as FromSpec<Fsm<Active>>>::from_spec(a);
            let si = <Fsm<Idle> as FromSpec<Fsm<OpenSent>>>::from_spec(s);
            let oi = <Fsm<Idle> as FromSpec<Fsm<OpenConfirm>>>::from_spec(o);
            let ei = <Fsm<Idle> as FromSpec<Fsm<Established>>>::from_spec(e);
            &&& ci.peer == c.peer && ci.attr == c.attr && ai.peer == a.peer && ai.attr == a.attr
            &&& si.peer == s.peer && si.attr == s.attr && oi.peer == o.peer && oi.attr == o.attr
            &&& ei.peer == e.peer && ei.attr == e.attr
        }),
        ({
            let ca = <Fsm<Active> as FromSpec<Fsm<Connect>>>::from_spec(c);
            let cs = <Fsm<OpenSent> as FromSpec<Fsm<Connect>>>::from_spec(c);
            let co = <Fsm<OpenConfirm> as FromSpec<Fsm<Connect>>>::from_spec(c);
            &&& ca.peer == c.peer && ca.attr == c.attr && cs.peer == c.peer && cs.attr == c.attr
            &&& co.peer == c.peer && co.attr == c.attr
            &&& ca.state.tcp_conn_handle is None
            &&& ca.state.bgp_conn_handle == c.state.bgp_conn_handle && ca.state.bgp_out_tx
                == c.state.bgp_out_tx
            &&& cs.state.bgp_conn_handle == c.state.bgp_conn_handle && cs.state.bgp_out_tx
                == c.state.bgp_out_tx
            &&& co.state.bgp_conn_handle == c.state.bgp_conn_handle && co.state.bgp_out_tx
                == c.state.bgp_out_tx
            &&& !cs.state.remote_syn && !co.state.remote_syn
            &&& cs.state.local_open is None && co.state.local_open is None
                && co.state.peer_open is None
            &&& cs.state.collision_conn is None && co.state.collision_conn is None
        }),
        ({
            let ac = <Fsm<Connect> as FromSpec<Fsm<Active>>>::from_spec(a);
            let as_ = <Fsm<OpenSent> as FromSpec<Fsm<Active>>>::from_spec(a);
            let ao = <Fsm<OpenConfirm> as FromSpec<Fsm<Active>>>::from_spec(a);
            &&& ac.peer == a.peer && ac.attr == a.attr && as_.peer == a.peer && as_.attr == a.attr
            &&& ao.peer == a.peer && ao.attr == a.attr
            &&& ac.state.tcp_conn_handle == a.state.tcp_conn_handle
            &&& ac.state.bgp_conn_handle == a.state.bgp_conn_handle && ac.state.bgp_out_tx
                == a.state.bgp_out_tx
            &&& as_.state.bgp_conn_handle == a.state.bgp_conn_handle && as_.state.bgp_out_tx
                == a.state.bgp_out_tx
            &&& ao.state.bgp_conn_handle == a.state.bgp_conn_handle && ao.state.bgp_out_tx
                == a.state.bgp_out_tx
            &&& as_.state.remote_syn && ao.state.remote_syn
            &&& as_.state.local_open is None && ao.state.local_open is None
                && ao.state.peer_open is None
            &&& as_.state.collision_conn is None && ao.state.collision_conn is None
        }),
        ({
            let sa = <Fsm<Active> as FromSpec<Fsm<OpenSent>>>::from_spec(s);
            let so = <Fsm<OpenConfirm> as FromSpec<Fsm<OpenSent>>>::from_spec(s);
            let oe = <Fsm<Established> as FromSpec<Fsm<OpenConfirm>>>::from_spec(o);
            &&& sa.peer == s.peer && sa.attr == s.attr && so.peer == s.peer && so.attr == s.attr
            &&& oe.peer == o.peer && oe.attr == o.attr
            &&& sa.state.tcp_conn_handle is None && sa.state.bgp_conn_handle is None
                && sa.state.bgp_out_tx is None
            &&& so.state.bgp_conn_handle == s.state.bgp_conn_handle && so.state.bgp_out_tx
                == s.state.bgp_out_tx
            &&& so.state.local_open == s.state.local_open && so.state.remote_syn
                == s.state.remote_syn
            &&& so.state.collision_conn == s.state.collision_conn && so.state.peer_open is None
            &&& oe.state.bgp_conn_handle == o.state.bgp_conn_handle && oe.state.bgp_out_tx
                == o.state.bgp_out_tx
            &&& oe.state.local_open == o.state.local_open && oe.state.remote_syn
                == o.state.remote_syn
            &&& oe.state.collision_conn == o.state.collision_conn
        }),
{
}

} // verus!
