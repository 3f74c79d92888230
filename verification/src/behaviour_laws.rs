//! What a session does on each event, one aspect at a time: where it goes, what it says, what
//! it counts, and what becomes of its timers and of its connections.
use crate::config::Neighbor;
use crate::error::{Error, ErrorCode, ErrorSubCode};
use crate::fsm::{ConnId, Event, Operation, State, Timer};
use crate::message::{KeepaliveMsg, Message, NotificationMsg, OpenMsg, OptParams};
use crate::session_laws::{fold, lemma_fold, set_timer, set_timers, Timers};
use crate::time::Duration;
use crate::transition::{Action, Source};
use vstd::prelude::*;

verus! {

/// The states of a session, without what they hold.
pub enum Phase {
    Idle,
    Connect,
    Active,
    OpenSent,
    OpenConfirm,
    Established,
}

/// Which state a session is in.
pub open spec fn phase(state: State) -> Phase {
    match state {
        State::Idle(_) => Phase::Idle,
        State::Connect(_) => Phase::Connect,
        State::Active(_) => Phase::Active,
        State::OpenSent(_) => Phase::OpenSent,
        State::OpenConfirm(_) => Phase::OpenConfirm,
        State::Established(_) => Phase::Established,
    }
}

/// Whether an OPEN was sent: the session is behind that point.
pub open spec fn linked(state: State) -> bool {
    state is OpenSent || state is OpenConfirm || state is Established
}

/// Whether a session is started so that it connects.
pub open spec fn starts_actively(event: Event) -> bool {
    event is ManualStart || event is AutomaticStart
}

/// Whether a session is started so that it waits.
pub open spec fn starts_passively(event: Event) -> bool {
    event is ManualStartWithPassiveTcpEstablishment
        || event is AutomaticStartWithPassiveTcpEstablishment
}

/// Whether a session is started in any way.
pub open spec fn starts(event: Event) -> bool {
    ||| starts_actively(event)
    ||| starts_passively(event)
    ||| event is AutomaticStartWithDampPeerOscillations
    ||| event is AutomaticStartWithDampPeerOscillationsAndPassiveTcpEstablishment
}

/// The connection that came up, and whether the peer made it.
pub open spec fn came_up(event: Event) -> Option<(ConnId, bool)> {
    match event {
        Event::TcpCRAcked { conn } => Some((conn, false)),
        Event::TcpConnectionConfirmed { bgp_conn } => Some((bgp_conn, true)),
        _ => None,
    }
}

/// Thirty years: the time of a timer that does not run.
pub open spec fn never() -> Duration {
    Duration { secs: 946_080_000, nanos: 0 }
}

/// Whether an error of a message is one of another connection than the running one.
pub open spec fn from_elsewhere(event: Event, source: Source) -> bool {
    (event is BGPHeaderErr || event is BGPOpenMsgErr) && source !is Bgp
}

/// Where a session goes from each state.
pub open spec fn leads_to(state: State, event: Event, source: Source) -> Phase {
    let nothing_new = event is TcpConnectionValid || event is TcpCRInvalid;
    let second_conn = came_up(event) is Some || event is ProcessOneDone;
    let delays = state.attr().delay_open;
    match phase(state) {
        Phase::Idle => if starts_actively(event) {
            Phase::Connect
        } else if starts_passively(event) {
            Phase::Active
        } else {
            Phase::Idle
        },
        Phase::Connect => if nothing_new || event is ConnectRetryTimerExpires {
            Phase::Connect
        } else if came_up(event) is Some {
            if delays {
                Phase::Connect
            } else {
                Phase::OpenSent
            }
        } else if event is DelayOpenTimerExpires {
            Phase::OpenSent
        } else if event is BGPOpenWithDelayOpenTimerRunning {
            Phase::OpenConfirm
        } else if event is TcpConnectionFails && state.attr().cur_delay_open_time != never() {
            Phase::Active
        } else {
            Phase::Idle
        },
        Phase::Active => if starts(event) || nothing_new {
            Phase::Active
        } else if event is ConnectRetryTimerExpires {
            Phase::Connect
        } else if came_up(event) is Some {
            if delays {
                Phase::Active
            } else {
                Phase::OpenSent
            }
        } else if event is DelayOpenTimerExpires {
            Phase::OpenSent
        } else if event is BGPOpenWithDelayOpenTimerRunning {
            Phase::OpenConfirm
        } else {
            Phase::Idle
        },
        Phase::OpenSent => if starts(event) || nothing_new || second_conn || from_elsewhere(
            event,
            source,
        ) {
            Phase::OpenSent
        } else if event is BGPOpen {
            Phase::OpenConfirm
        } else if event is TcpConnectionFails {
            Phase::Active
        } else {
            Phase::Idle
        },
        Phase::OpenConfirm => if starts(event) || nothing_new || second_conn || from_elsewhere(
            event,
            source,
        ) || event is BGPOpen || event is KeepaliveTimerExpires || event is OpenCollisionDump {
            Phase::OpenConfirm
        } else if event is KeepaliveMsg {
            Phase::Established
        } else {
            Phase::Idle
        },
        Phase::Established => if starts(event) || nothing_new || second_conn || event is BGPOpen
            || event is KeepaliveTimerExpires || event is KeepaliveMsg || event is UpdateMsg {
            Phase::Established
        } else {
            Phase::Idle
        },
    }
}

/// A session that is idle connects or waits when it is started. One that connects or waits
/// sends its OPEN once it has a connection, or delays it. One whose OPEN was sent is confirmed
/// by an OPEN, and is up after a KEEPALIVE. What a state has no use for ends the session.
#[verifier::spinoff_prover]
#[verifier::rlimit(50)]
pub proof fn law_where_it_goes(state: State, event: Event, source: Source, conf: Neighbor)
    ensures
        phase(state.stepped(event, source, conf).next) == leads_to(state, event, source),
{
}

/// Whether an event ends a session that is not idle.
pub open spec fn ends(state: State, event: Event, source: Source) -> bool {
    state !is Idle && leads_to(state, event, source) is Idle
}

/// Whether an event counts as a retry. The end of a session does, unless it was stopped by
/// hand, the version was refused, it never got a connection, or its OPEN was sent and
/// something unexpected came.
pub open spec fn counts(state: State, event: Event, source: Source) -> bool {
    let held = state.attr().cur_hold_time != never();
    &&& ends(state, event, source)
    &&& event !is ManualStop
    &&& match phase(state) {
        Phase::Connect => event !is TcpConnectionFails && (event is NotifyMsgVerErr ==> !held),
        Phase::Active => event is NotifyMsgVerErr ==> !held,
        Phase::OpenSent => event is AutomaticStop || event is HoldTimerExpires
            || event is BGPHeaderErr || event is BGPOpenMsgErr,
        Phase::OpenConfirm => event !is NotifyMsgVerErr,
        _ => true,
    }
}

/// Whether an event makes a session count anew: it is started, stopped by hand, or gets its
/// first connection.
pub open spec fn counts_anew(state: State, event: Event) -> bool {
    ||| state is Idle && (starts_actively(event) || starts_passively(event))
    ||| state !is Idle && event is ManualStop
    ||| (state is Connect || state is Active) && came_up(event) is Some
}

/// The retries are counted: one more, anew, or as before.
#[verifier::spinoff_prover]
#[verifier::rlimit(50)]
pub proof fn law_what_it_counts(state: State, event: Event, source: Source, conf: Neighbor)
    requires
        state.goes_on(event, source),
    ensures
        ({
            let before = state.attr().connect_retry_counter;
            let after = state.stepped(event, source, conf).next.attr().connect_retry_counter;
            after == if counts_anew(state, event) {
                0int
            } else if counts(state, event, source) {
                before + 1
            } else {
                before as int
            }
        }),
{
}

/// The OPEN of a speaker with that configuration: version 4, its system number or the one
/// that stands in for it, its hold time, its router id, and nothing more.
pub open spec fn own_open(conf: Neighbor) -> OpenMsg {
    let id = conf.config.router_id.octets@;
    OpenMsg {
        version: 4,
        as_number: if conf.config.local_as <= 65535 {
            conf.config.local_as as u16
        } else {
            23456
        },
        hold_time: conf.timers.config.hold_time,
        bgp_identifier: (((id[0] * 256 + id[1]) * 256 + id[2]) * 256 + id[3]) as u32,
        ext_opt_param: false,
        opt_params_len: 0,
        opt_params: OptParams { mp_ext_caps: None, four_octet_as_cap: None },
    }
}

/// A NOTIFICATION of that number, without detail.
pub open spec fn notify(code: u8) -> Message {
    Message::Notification(NotificationMsg { error_code: code, error_subcode: 0, data: None })
}

/// The NOTIFICATION of an error: its numbers and its data.
pub open spec fn notify_of(err: Error) -> Message {
    Message::Notification(
        NotificationMsg {
            error_code: code_number(err.code),
            error_subcode: subcode_number(err.subcode),
            data: err.data,
        },
    )
}

/// The numbers of the kinds of errors.
pub open spec fn code_number(code: ErrorCode) -> u8 {
    match code {
        ErrorCode::LocalLogicError => 0,
        ErrorCode::MessageHeaderError => 1,
        ErrorCode::OpenMessageError => 2,
        ErrorCode::UpdateMessageError => 3,
        ErrorCode::HoldTimerExpired => 4,
        ErrorCode::FiniteStateMachineError => 5,
        ErrorCode::Cease => 6,
    }
}

/// The numbers of the details, per kind of message.
pub open spec fn subcode_number(subcode: ErrorSubCode) -> u8 {
    match subcode {
        ErrorSubCode::LocalLogicErrorSubcode(s) => if s is BufferTooShortError {
            1
        } else {
            2
        },
        ErrorSubCode::MsgHeaderErrorSubcode(s) => if s is ConnectionNotSync {
            1
        } else if s is BadMessageLength {
            2
        } else {
            3
        },
        ErrorSubCode::OpenMsgErrorSubcode(s) => if s is UnsupportedVersionNumber {
            1
        } else if s is BadPeerAs {
            2
        } else if s is BadBgpIdentifier {
            3
        } else if s is UnsupportedOptionalParameter {
            4
        } else if s is UnacceptableHoldTime {
            6
        } else {
            7
        },
        ErrorSubCode::UpdateMsgErrorSubcode(s) => if s is MalformedAttributeList {
            1
        } else if s is UnrecognizedWellKnownAttribute {
            2
        } else if s is MissingWellKnownAttribute {
            3
        } else if s is AttributeFlagsError {
            4
        } else if s is AttributeLengthError {
            5
        } else if s is InvalidOriginAttribute {
            6
        } else if s is InvalidNextHopAttribute {
            8
        } else if s is OptionalAttributeError {
            9
        } else if s is InvalidNetworkField {
            10
        } else {
            11
        },
        ErrorSubCode::Undefined => 0,
    }
}

/// Errors have the numbers by which peers know them.
pub proof fn law_error_numbers(code: ErrorCode, subcode: ErrorSubCode)
    ensures
        code.spec_number() == code_number(code),
        subcode.spec_number() == subcode_number(subcode),
{
}

/// The messages that actions send, in order, each with its connection.
pub open spec fn sent(actions: Seq<Action>) -> Seq<(ConnId, Message)> {
    fold(
        actions,
        Seq::<(ConnId, Message)>::empty(),
        |out: Seq<(ConnId, Message)>, action: Action|
            match action {
                Action::Send { conn, msg } => out.push((conn, msg)),
                _ => out,
            },
    )
}

/// Whether an OPEN came in on a connection of the other direction, from a peer with the
/// larger identifier, where collisions are looked for: its connection takes over.
pub open spec fn taken_over(state: State, event: Event) -> bool {
    &&& linked(state)
    &&& event matches Event::BGPOpen { msg, remote_syn }
    &&& state is OpenSent ==> state.remote_syn() != remote_syn
    &&& state is Established ==> state.attr().collision_detect_established_state
    &&& state.local_open()->0.bgp_identifier < msg.bgp_identifier
}

/// What a session says before its OPEN is answered: its OPEN when the delay is over or there
/// is none, its OPEN and a KEEPALIVE in answer to a peer that was faster, and what is wrong
/// only if that is allowed.
pub open spec fn says_early(state: State, event: Event, conf: Neighbor) -> Seq<
    (ConnId, Message),
> {
    let attr = state.attr();
    let own = Message::Open(own_open(conf));
    let c = state.running()->0;
    match event {
        Event::TcpCRAcked { conn } => if attr.delay_open {
            seq![]
        } else {
            seq![(conn, own)]
        },
        Event::TcpConnectionConfirmed { bgp_conn } => if attr.delay_open {
            seq![]
        } else {
            seq![(bgp_conn, own)]
        },
        Event::DelayOpenTimerExpires {  } => seq![(c, own)],
        Event::BGPOpenWithDelayOpenTimerRunning { msg, remote_syn } => seq![(c, own)].push(
            (c, Message::Keepalive(KeepaliveMsg {  })),
        ),
        Event::BGPHeaderErr { err } => if attr.send_notification_without_open {
            seq![(c, notify_of(err))]
        } else {
            seq![]
        },
        Event::BGPOpenMsgErr { err } => if attr.send_notification_without_open {
            seq![(c, notify_of(err))]
        } else {
            seq![]
        },
        Event::ManualStop {  } => if state is Active && attr.cur_hold_time != never()
            && attr.send_notification_without_open {
            seq![(c, notify(6))]
        } else {
            seq![]
        },
        _ => seq![],
    }
}

/// What a session says behind its OPEN. It ceases when it is stopped or taken over, and sends
/// its OPEN on a connection of the peer that takes over. It says that the hold time is over
/// and what was wrong with a message, keeps the connection alive, and calls everything that
/// its state has no use for an error. The peer's own NOTIFICATIONs are not answered.
pub open spec fn says_late(state: State, event: Event, source: Source, conf: Neighbor) -> Seq<
    (ConnId, Message),
> {
    let c = state.running()->0;
    let up = state is Established;
    match event {
        Event::ManualStop {  } => seq![(c, notify(6))],
        Event::AutomaticStop {  } => seq![(c, notify(6))],
        Event::HoldTimerExpires {  } => seq![(c, notify(4))],
        Event::KeepaliveTimerExpires {  } => if state is OpenSent {
            seq![(c, notify(5))]
        } else {
            seq![(c, Message::Keepalive(KeepaliveMsg {  }))]
        },
        Event::BGPOpen { msg, remote_syn } => if !taken_over(state, event) || state is OpenConfirm {
            seq![]
        } else if state is OpenSent && remote_syn {
            seq![(c, notify(6))].push((state.colliding()->0, Message::Open(own_open(conf))))
        } else {
            seq![(c, notify(6))]
        },
        Event::BGPHeaderErr { err } => if up {
            seq![(c, notify(5))]
        } else if source is Bgp {
            seq![(c, notify_of(err))]
        } else {
            seq![]
        },
        Event::BGPOpenMsgErr { err } => if up {
            seq![(c, notify(5))]
        } else if source is Bgp {
            seq![(c, notify_of(err))]
        } else {
            seq![]
        },
        Event::UpdateMsgErr { err } => if up {
            seq![(c, notify_of(err))]
        } else {
            seq![(c, notify(5))]
        },
        Event::NotifyMsg { err } => if up {
            seq![]
        } else {
            seq![(c, notify(5))]
        },
        Event::NotifyMsgVerErr { err } => seq![],
        Event::TcpConnectionFails { err } => seq![],
        _ => if ends(state, event, source) {
            seq![(c, notify(5))]
        } else {
            seq![]
        },
    }
}

/// What a session says is what its state and the event call for, and nothing else.
pub open spec fn says(state: State, event: Event, source: Source, conf: Neighbor) -> Seq<
    (ConnId, Message),
> {
    if state is Idle {
        seq![]
    } else if linked(state) {
        says_late(state, event, source, conf)
    } else {
        says_early(state, event, conf)
    }
}

/// The OPEN that a configuration gives is that of the speaker.
pub proof fn law_own_open(conf: Neighbor)
    ensures
        crate::open::open_of_conf(conf) == own_open(conf),
{
}

#[verifier::spinoff_prover]
#[verifier::rlimit(50)]
proof fn lemma_idle_says(
    state: State,
    event: Event,
    source: Source,
    conf: Neighbor,
)
    requires
        state.wf(),
        state.goes_on(event, source),
        state is Idle,
    ensures
        sent(state.stepped(event, source, conf).actions) == says(state, event, source, conf),
{
    law_own_open(conf);
    lemma_fold(
        |out: Seq<(ConnId, Message)>, action: Action|
            match action {
                Action::Send { conn, msg } => out.push((conn, msg)),
                _ => out,
            },
    );
    match event {
        Event::BGPHeaderErr { err } => law_error_numbers(err.code, err.subcode),
        Event::BGPOpenMsgErr { err } => law_error_numbers(err.code, err.subcode),
        Event::UpdateMsgErr { err } => law_error_numbers(err.code, err.subcode),
        _ => {},
    }
}

#[verifier::spinoff_prover]
#[verifier::rlimit(50)]
proof fn lemma_connect_says(
    state: State,
    event: Event,
    source: Source,
    conf: Neighbor,
)
    requires
        state.wf(),
        state.goes_on(event, source),
        state is Connect,
    ensures
        sent(state.stepped(event, source, conf).actions) == says(state, event, source, conf),
{
    law_own_open(conf);
    lemma_fold(
        |out: Seq<(ConnId, Message)>, action: Action|
            match action {
                Action::Send { conn, msg } => out.push((conn, msg)),
                _ => out,
            },
    );
    match event {
        Event::BGPHeaderErr { err } => law_error_numbers(err.code, err.subcode),
        Event::BGPOpenMsgErr { err } => law_error_numbers(err.code, err.subcode),
        Event::UpdateMsgErr { err } => law_error_numbers(err.code, err.subcode),
        _ => {},
    }
}

#[verifier::spinoff_prover]
#[verifier::rlimit(50)]
proof fn lemma_active_says(
    state: State,
    event: Event,
    source: Source,
    conf: Neighbor,
)
    requires
        state.wf(),
        state.goes_on(event, source),
        state is Active,
    ensures
        sent(state.stepped(event, source, conf).actions) == says(state, event, source, conf),
{
    law_own_open(conf);
    lemma_fold(
        |out: Seq<(ConnId, Message)>, action: Action|
            match action {
                Action::Send { conn, msg } => out.push((conn, msg)),
                _ => out,
            },
    );
    match event {
        Event::BGPHeaderErr { err } => law_error_numbers(err.code, err.subcode),
        Event::BGPOpenMsgErr { err } => law_error_numbers(err.code, err.subcode),
        Event::UpdateMsgErr { err } => law_error_numbers(err.code, err.subcode),
        _ => {},
    }
}

#[verifier::spinoff_prover]
#[verifier::rlimit(50)]
proof fn lemma_open_sent_says(
    state: State,
    event: Event,
    source: Source,
    conf: Neighbor,
)
    requires
        state.wf(),
        state.goes_on(event, source),
        state is OpenSent,
    ensures
        sent(state.stepped(event, source, conf).actions) == says(state, event, source, conf),
{
    law_own_open(conf);
    lemma_fold(
        |out: Seq<(ConnId, Message)>, action: Action|
            match action {
                Action::Send { conn, msg } => out.push((conn, msg)),
                _ => out,
            },
    );
    match event {
        Event::BGPHeaderErr { err } => law_error_numbers(err.code, err.subcode),
        Event::BGPOpenMsgErr { err } => law_error_numbers(err.code, err.subcode),
        Event::UpdateMsgErr { err } => law_error_numbers(err.code, err.subcode),
        _ => {},
    }
}

#[verifier::spinoff_prover]
#[verifier::rlimit(50)]
proof fn lemma_open_confirm_says(
    state: State,
    event: Event,
    source: Source,
    conf: Neighbor,
)
    requires
        state.wf(),
        state.goes_on(event, source),
        state is OpenConfirm,
    ensures
        sent(state.stepped(event, source, conf).actions) == says(state, event, source, conf),
{
    law_own_open(conf);
    lemma_fold(
        |out: Seq<(ConnId, Message)>, action: Action|
            match action {
                Action::Send { conn, msg } => out.push((conn, msg)),
                _ => out,
            },
    );
    match event {
        Event::BGPHeaderErr { err } => law_error_numbers(err.code, err.subcode),
        Event::BGPOpenMsgErr { err } => law_error_numbers(err.code, err.subcode),
        Event::UpdateMsgErr { err } => law_error_numbers(err.code, err.subcode),
        _ => {},
    }
}

#[verifier::spinoff_prover]
#[verifier::rlimit(50)]
proof fn lemma_established_says(
    state: State,
    event: Event,
    source: Source,
    conf: Neighbor,
)
    requires
        state.wf(),
        state.goes_on(event, source),
        state is Established,
    ensures
        sent(state.stepped(event, source, conf).actions) == says(state, event, source, conf),
{
    law_own_open(conf);
    lemma_fold(
        |out: Seq<(ConnId, Message)>, action: Action|
            match action {
                Action::Send { conn, msg } => out.push((conn, msg)),
                _ => out,
            },
    );
    match event {
        Event::BGPHeaderErr { err } => law_error_numbers(err.code, err.subcode),
        Event::BGPOpenMsgErr { err } => law_error_numbers(err.code, err.subcode),
        Event::UpdateMsgErr { err } => law_error_numbers(err.code, err.subcode),
        _ => {},
    }
}

/// A session says what its state and the event call for, on the connection that it is for, in
/// that order, and nothing else.
pub proof fn law_what_it_says(state: State, event: Event, source: Source, conf: Neighbor)
    requires
        state.wf(),
        state.goes_on(event, source),
    ensures
        sent(state.stepped(event, source, conf).actions) == says(state, event, source, conf),
{
    match state {
        State::Idle(_) => lemma_idle_says(state, event, source, conf),
        State::Connect(_) => lemma_connect_says(state, event, source, conf),
        State::Active(_) => lemma_active_says(state, event, source, conf),
        State::OpenSent(_) => lemma_open_sent_says(state, event, source, conf),
        State::OpenConfirm(_) => lemma_open_confirm_says(state, event, source, conf),
        State::Established(_) => lemma_established_says(state, event, source, conf),
    }
}

/// What is done to the attempt to connect, to one connection and to the timers.
pub struct Tally {
    pub tcp_tried: nat,
    pub tcp_aborted: nat,
    pub tcp_forgotten: nat,
    /// How often the connection is run, as one that the peer made or as an own one.
    pub run_remote: nat,
    pub run_own: nat,
    pub aborted: nat,
    pub released: nat,
    pub collided: nat,
    pub dropped: nat,
    pub retry_restarted: nat,
    pub hold_restarted: nat,
    pub keepalive_restarted: nat,
    pub delay_restarted: nat,
    /// How often anything is done to the idle hold timer.
    pub idle_hold_touched: nat,
}

/// Nothing is done.
pub open spec fn nothing() -> Tally {
    Tally {
        tcp_tried: 0,
        tcp_aborted: 0,
        tcp_forgotten: 0,
        run_remote: 0,
        run_own: 0,
        aborted: 0,
        released: 0,
        collided: 0,
        dropped: 0,
        retry_restarted: 0,
        hold_restarted: 0,
        keepalive_restarted: 0,
        delay_restarted: 0,
        idle_hold_touched: 0,
    }
}

/// One action more is done.
pub open spec fn tallied(t: Tally, action: Action, conn: ConnId) -> Tally {
    match action {
        Action::StartTcp {  } => Tally { tcp_tried: t.tcp_tried + 1, ..t },
        Action::AbortTcp {  } => Tally { tcp_aborted: t.tcp_aborted + 1, ..t },
        Action::ReleaseTcp {  } => Tally { tcp_forgotten: t.tcp_forgotten + 1, ..t },
        Action::StartBgp { conn: c, remote_syn } => if c != conn {
            t
        } else if remote_syn {
            Tally { run_remote: t.run_remote + 1, ..t }
        } else {
            Tally { run_own: t.run_own + 1, ..t }
        },
        Action::AbortBgp { conn: c } => if c == conn {
            Tally { aborted: t.aborted + 1, ..t }
        } else {
            t
        },
        Action::ReleaseBgp { conn: c } => if c == conn {
            Tally { released: t.released + 1, ..t }
        } else {
            t
        },
        Action::StartCollision { conn: c } => if c == conn {
            Tally { collided: t.collided + 1, ..t }
        } else {
            t
        },
        Action::DropConn { conn: c } => if c == conn {
            Tally { dropped: t.dropped + 1, ..t }
        } else {
            t
        },
        Action::SetTimer { timer: Timer::ConnectRetry { op: Operation::Restart } } => Tally {
            retry_restarted: t.retry_restarted + 1,
            ..t
        },
        Action::SetTimer { timer: Timer::Hold { op: Operation::Restart } } => Tally {
            hold_restarted: t.hold_restarted + 1,
            ..t
        },
        Action::SetTimer { timer: Timer::Keepalive { op: Operation::Restart } } => Tally {
            keepalive_restarted: t.keepalive_restarted + 1,
            ..t
        },
        Action::SetTimer { timer: Timer::DelayOpen { op: Operation::Restart } } => Tally {
            delay_restarted: t.delay_restarted + 1,
            ..t
        },
        Action::SetTimer { timer: Timer::IdleHold { op } } => Tally {
            idle_hold_touched: t.idle_hold_touched + 1,
            ..t
        },
        _ => t,
    }
}

/// What actions do.
pub open spec fn tally(actions: Seq<Action>, conn: ConnId) -> Tally {
    fold(actions, nothing(), |t: Tally, action: Action| tallied(t, action, conn))
}

/// One if it is so, or else zero.
pub open spec fn once(b: bool) -> nat {
    if b {
        1
    } else {
        0
    }
}

/// What a step does. The attempt to connect is made by sessions that connect; it is aborted
/// where the session ends, waits or tries again, and forgotten where its OPEN goes out. A
/// connection that came up is run where there is no OPEN yet, the one before it let go, and is
/// otherwise read for its first message or kept. The running connection is aborted with the
/// session and let go where another takes over. Connections that were never run are closed.
/// Timers start again where the session tries again, and where it hears or tells that it is
/// alive. The idle hold timer is never used.
pub open spec fn does(state: State, event: Event, source: Source, conn: ConnId) -> Tally {
    let next = leads_to(state, event, source);
    let early = state is Connect || state is Active;
    let runs = early && came_up(event) is Some;
    let over = ends(state, event, source);
    let cut = over || state is OpenSent && event is TcpConnectionFails;
    let again = event is ConnectRetryTimerExpires && early;
    let mine = state.running() == Some(conn);
    let aside = state.colliding() == Some(conn);
    let new = came_up(event) matches Some(up) && up.0 == conn;
    let back = event matches Event::ProcessOneDone { conn: c } && c == conn;
    let taken = taken_over(state, event);
    let loses = event matches Event::BGPOpen { msg, remote_syn } && !taken && (state is OpenSent
        ==> state.remote_syn() != remote_syn);
    Tally {
        tcp_tried: once(state is Idle && starts_actively(event) || again),
        tcp_aborted: once(
            state.trying() && (over || again || state is Connect && next is Active),
        ),
        tcp_forgotten: once(state.trying() && (next is OpenSent || next is OpenConfirm)),
        run_remote: once(runs && new && event is TcpConnectionConfirmed) + once(
            taken && aside && event->BGPOpen_remote_syn,
        ),
        run_own: once(runs && new && event is TcpCRAcked) + once(
            taken && aside && !event->BGPOpen_remote_syn,
        ),
        aborted: once(cut && mine),
        released: once((runs || taken) && mine),
        collided: once(linked(state) && event is TcpCRAcked && new),
        dropped: once(state is Idle && new || !linked(state) && back) + once(
            aside && (cut || loses || linked(state) && (event is TcpConnectionConfirmed
                || event is ProcessOneDone)),
        ),
        retry_restarted: once(
            again || event is TcpConnectionFails && (state is Active || state is OpenSent
                || state is Connect && next is Active),
        ),
        hold_restarted: once(
            (state is OpenConfirm || state is Established) && event is KeepaliveMsg
                || state is Established && event is UpdateMsg,
        ),
        keepalive_restarted: once(
            event is KeepaliveTimerExpires && (state is OpenConfirm || state is Established
                && state.attr().hold_time != (Duration { secs: 0, nanos: 0 })),
        ),
        delay_restarted: 0,
        idle_hold_touched: 0,
    }
}

#[verifier::spinoff_prover]
#[verifier::rlimit(50)]
proof fn lemma_idle_does(
    state: State,
    event: Event,
    source: Source,
    conf: Neighbor,
    conn: ConnId,
)
    requires
        state.wf(),
        state.goes_on(event, source),
        state is Idle,
    ensures
        tally(state.stepped(event, source, conf).actions, conn) == does(state, event, source, conn),
{
    lemma_fold(|t: Tally, action: Action| tallied(t, action, conn));
}

#[verifier::spinoff_prover]
#[verifier::rlimit(50)]
proof fn lemma_connect_does(
    state: State,
    event: Event,
    source: Source,
    conf: Neighbor,
    conn: ConnId,
)
    requires
        state.wf(),
        state.goes_on(event, source),
        state is Connect,
    ensures
        tally(state.stepped(event, source, conf).actions, conn) == does(state, event, source, conn),
{
    lemma_fold(|t: Tally, action: Action| tallied(t, action, conn));
}

#[verifier::spinoff_prover]
#[verifier::rlimit(50)]
proof fn lemma_active_does(
    state: State,
    event: Event,
    source: Source,
    conf: Neighbor,
    conn: ConnId,
)
    requires
        state.wf(),
        state.goes_on(event, source),
        state is Active,
    ensures
        tally(state.stepped(event, source, conf).actions, conn) == does(state, event, source, conn),
{
    lemma_fold(|t: Tally, action: Action| tallied(t, action, conn));
}

#[verifier::spinoff_prover]
#[verifier::rlimit(50)]
proof fn lemma_open_sent_does(
    state: State,
    event: Event,
    source: Source,
    conf: Neighbor,
    conn: ConnId,
)
    requires
        state.wf(),
        state.goes_on(event, source),
        state is OpenSent,
    ensures
        tally(state.stepped(event, source, conf).actions, conn) == does(state, event, source, conn),
{
    lemma_fold(|t: Tally, action: Action| tallied(t, action, conn));
}

#[verifier::spinoff_prover]
#[verifier::rlimit(50)]
proof fn lemma_open_confirm_does(
    state: State,
    event: Event,
    source: Source,
    conf: Neighbor,
    conn: ConnId,
)
    requires
        state.wf(),
        state.goes_on(event, source),
        state is OpenConfirm,
    ensures
        tally(state.stepped(event, source, conf).actions, conn) == does(state, event, source, conn),
{
    lemma_fold(|t: Tally, action: Action| tallied(t, action, conn));
}

#[verifier::spinoff_prover]
#[verifier::rlimit(50)]
proof fn lemma_established_does(
    state: State,
    event: Event,
    source: Source,
    conf: Neighbor,
    conn: ConnId,
)
    requires
        state.wf(),
        state.goes_on(event, source),
        state is Established,
    ensures
        tally(state.stepped(event, source, conf).actions, conn) == does(state, event, source, conn),
{
    lemma_fold(|t: Tally, action: Action| tallied(t, action, conn));
}

/// What becomes of the attempt to connect, of each connection and of the timers that start
/// again is what a step is for.
pub proof fn law_what_it_does(
    state: State,
    event: Event,
    source: Source,
    conf: Neighbor,
    conn: ConnId,
)
    requires
        state.wf(),
        state.goes_on(event, source),
    ensures
        tally(state.stepped(event, source, conf).actions, conn) == does(
            state,
            event,
            source,
            conn,
        ),
{
    match state {
        State::Idle(_) => lemma_idle_does(state, event, source, conf, conn),
        State::Connect(_) => lemma_connect_does(state, event, source, conf, conn),
        State::Active(_) => lemma_active_does(state, event, source, conf, conn),
        State::OpenSent(_) => lemma_open_sent_does(state, event, source, conf, conn),
        State::OpenConfirm(_) => lemma_open_confirm_does(state, event, source, conf, conn),
        State::Established(_) => lemma_established_does(state, event, source, conf, conn),
    }
}

/// The running connection afterwards: the one that came up where there is no OPEN yet, the one
/// that takes over, none where the session ends or starts over, and else the same.
pub open spec fn runs_on_conn(state: State, event: Event, source: Source) -> Option<ConnId> {
    let up = came_up(event);
    if (state is Connect || state is Active) && up is Some {
        Some((up->0).0)
    } else if leads_to(state, event, source) is Idle || state is OpenSent
        && event is TcpConnectionFails {
        None
    } else if taken_over(state, event) {
        state.colliding()
    } else {
        state.running()
    }
}

/// The colliding connection afterwards: the latest that was handed in. None is left once a
/// collision is resolved or the session ends or starts over.
pub open spec fn sets_aside(state: State, event: Event, source: Source) -> Option<ConnId> {
    if !linked(state) || leads_to(state, event, source) is Idle || leads_to(
        state,
        event,
        source,
    ) is Active {
        None
    } else {
        match event {
            Event::TcpConnectionConfirmed { bgp_conn } => Some(bgp_conn),
            Event::ProcessOneDone { conn } => Some(conn),
            Event::BGPOpen { msg, remote_syn } => if state is OpenSent && state.remote_syn()
                == remote_syn {
                state.colliding()
            } else {
                None
            },
            _ => state.colliding(),
        }
    }
}

/// Whether there is an attempt to connect afterwards.
pub open spec fn tries_on(state: State, event: Event, source: Source) -> bool {
    &&& leads_to(state, event, source) is Connect
    &&& state is Connect && event !is ConnectRetryTimerExpires ==> state.trying()
}

/// Who made the running connection: its maker where it came up, the session itself where it
/// delayed its OPEN while it connected and the peer where it waited, and as before behind that.
pub open spec fn made_by_peer(state: State, event: Event, source: Source) -> bool {
    if linked(state) {
        state.remote_syn()
    } else {
        match came_up(event) {
            Some(up) => up.1,
            None => state is Active,
        }
    }
}

/// A session has the connections that it should have, and knows who made them.
#[verifier::spinoff_prover]
#[verifier::rlimit(50)]
pub proof fn law_what_it_holds(state: State, event: Event, source: Source, conf: Neighbor)
    requires
        state.wf(),
        state.goes_on(event, source),
    ensures
        ({
            let next = state.stepped(event, source, conf).next;
            &&& next.running() == runs_on_conn(state, event, source)
            &&& next.colliding() == sets_aside(state, event, source)
            &&& next.trying() == tries_on(state, event, source)
            &&& linked(next) ==> next.remote_syn() == made_by_peer(state, event, source)
        }),
{
}

/// A session shows its own OPEN once it sent it after a delay, and keeps it. It keeps the OPEN
/// of the peer that confirmed it.
#[verifier::spinoff_prover]
#[verifier::rlimit(50)]
pub proof fn law_what_it_shows(state: State, event: Event, source: Source, conf: Neighbor)
    requires
        state.wf(),
        state.goes_on(event, source),
    ensures
        ({
            let next = state.stepped(event, source, conf).next;
            &&& linked(state) && linked(next) ==> next.local_open() == state.local_open()
            &&& !linked(state) && linked(next) ==> next.local_open() == if came_up(
                event,
            ) is Some {
                None
            } else {
                Some(own_open(conf))
            }
            &&& next is OpenConfirm ==> next->OpenConfirm_0.state.peer_open == match event {
                Event::BGPOpen { msg, remote_syn } => if state is OpenConfirm {
                    state->OpenConfirm_0.state.peer_open
                } else {
                    Some(msg)
                },
                Event::BGPOpenWithDelayOpenTimerRunning { msg, remote_syn } => Some(msg),
                _ => state->OpenConfirm_0.state.peer_open,
            }
        }),
{
    law_own_open(conf);
}

/// Whether an event confirms the OPEN of a session.
pub open spec fn confirms(state: State, event: Event, source: Source) -> bool {
    state !is OpenConfirm && leads_to(state, event, source) is OpenConfirm
}

/// The hold time in seconds that an event that confirms an OPEN brings: the smaller one.
pub open spec fn agreed(state: State, event: Event, conf: Neighbor) -> u16 {
    let own = if state is OpenSent {
        state.local_open()->0.hold_time
    } else {
        conf.timers.config.hold_time
    };
    let theirs = match event {
        Event::BGPOpen { msg, remote_syn } => msg.hold_time,
        Event::BGPOpenWithDelayOpenTimerRunning { msg, remote_syn } => msg.hold_time,
        _ => 0,
    };
    if own < theirs {
        own
    } else {
        theirs
    }
}

/// A session agrees on the smaller hold time. It takes a third of it as the keepalive interval
/// where its OPEN was delayed, and keeps the interval that it had where it was not. The timers
/// run for these two from there on, and without a hold time neither runs.
#[verifier::spinoff_prover]
#[verifier::rlimit(50)]
pub proof fn law_what_it_agrees_on(state: State, event: Event, source: Source, conf: Neighbor)
    requires
        state.wf(),
        state.goes_on(event, source),
    ensures
        ({
            let before = state.attr();
            let after = state.stepped(event, source, conf).next.attr();
            let secs = agreed(state, event, conf);
            if confirms(state, event, source) {
                &&& after.hold_time.secs == secs && after.hold_time.nanos == 0
                &&& state is OpenSent ==> after.keepalive_time == before.keepalive_time
                &&& state !is OpenSent && secs == 0 ==> after.keepalive_time == never()
                &&& state !is OpenSent && secs > 0 ==> after.keepalive_time.total()
                    == secs as nat * 1_000_000_000 / 3 && after.keepalive_time.wf()
                &&& secs == 0 ==> after.cur_hold_time == never() && after.cur_keepalive_time
                    == never()
                &&& secs > 0 ==> after.cur_hold_time == after.hold_time
                    && after.cur_keepalive_time == after.keepalive_time
            } else {
                &&& after.hold_time == before.hold_time
                &&& after.keepalive_time == before.keepalive_time
                &&& after.cur_hold_time == before.cur_hold_time
                &&& after.cur_keepalive_time == before.cur_keepalive_time
            }
        }),
{
    let n = agreed(state, event, conf) as nat * 1_000_000_000 / 3;
    vstd::arithmetic::div_mod::lemma_fundamental_div_mod(n as int, 1_000_000_000);
}

/// What the connect retry timer runs for afterwards: ten seconds when the session is started,
/// not at all once there is a connection, an OPEN is answered or the session ends, and else as
/// before. Where the attempt of a session that waits fails, it starts again.
pub open spec fn retry_after(state: State, event: Event, source: Source) -> Duration {
    let next = leads_to(state, event, source);
    if state is Idle && next !is Idle {
        Duration { secs: 10, nanos: 0 }
    } else if (state is Connect || state is Active) && came_up(event) is Some || confirms(
        state,
        event,
        source,
    ) || state is Active && event is DelayOpenTimerExpires || ends(state, event, source) && !(
    state is Active && event is TcpConnectionFails) {
        never()
    } else {
        state.attr().cur_connect_retry_time
    }
}

/// What the session takes the delay open timer to run for afterwards. It is set where an OPEN
/// is delayed, and stopped where the delay or what it is for is over.
pub open spec fn delay_after(state: State, event: Event, source: Source) -> Duration {
    let attr = state.attr();
    let held = attr.cur_hold_time != never();
    let set = attr.delay_open && (state is Connect && event is TcpCRAcked || state is Active
        && came_up(event) is Some);
    let stopped = match phase(state) {
        Phase::Connect => {
            ||| event is ConnectRetryTimerExpires
            ||| event is TcpConnectionFails && attr.cur_delay_open_time != never()
            ||| event is NotifyMsgVerErr && held
            ||| ends(state, event, source) && event !is ManualStop && event !is TcpConnectionFails
                && event !is BGPHeaderErr && event !is BGPOpenMsgErr && event !is NotifyMsgVerErr
        },
        Phase::Active => {
            ||| event is DelayOpenTimerExpires
            ||| event is TcpConnectionFails
            ||| (event is ManualStop || event is NotifyMsgVerErr) && held
        },
        _ => false,
    };
    if set {
        attr.delay_open_time
    } else if stopped || confirms(state, event, source) {
        never()
    } else {
        attr.cur_delay_open_time
    }
}

/// The connect retry timer and the delay open timer run for what they should.
#[verifier::spinoff_prover]
#[verifier::rlimit(50)]
pub proof fn law_what_it_waits_for(state: State, event: Event, source: Source, conf: Neighbor)
    ensures
        ({
            let after = state.stepped(event, source, conf).next.attr();
            &&& after.cur_connect_retry_time == retry_after(state, event, source)
            &&& after.cur_delay_open_time == delay_after(state, event, source)
        }),
{
}

/// Where a connection came up and OPENs are delayed, the delay open timer is set to the delay,
/// also where the session does not note it.
pub proof fn law_open_is_delayed(
    state: State,
    event: Event,
    source: Source,
    conf: Neighbor,
    timers: Timers,
)
    requires
        state is Connect || state is Active,
        came_up(event) is Some,
        state.attr().delay_open,
    ensures
        set_timers(timers, state.stepped(event, source, conf).actions) == (Timers {
            connect_retry: never(),
            delay_open: state.attr().delay_open_time,
            ..timers
        }),
{
    lemma_fold(|t: Timers, action: Action| set_timer(t, action));
}

/// Whether a session needs a running connection to do what an event calls for.
pub open spec fn needs_conn(state: State, event: Event, source: Source) -> bool {
    let attr = state.attr();
    match phase(state) {
        Phase::Idle => false,
        Phase::Connect | Phase::Active => {
            ||| event is DelayOpenTimerExpires
            ||| event is BGPOpenWithDelayOpenTimerRunning
            ||| (event is BGPHeaderErr || event is BGPOpenMsgErr)
                && attr.send_notification_without_open
            ||| state is Active && event is ManualStop && attr.cur_hold_time != never()
                && attr.send_notification_without_open
        },
        _ => ends(state, event, source) && event !is NotifyMsgVerErr,
    }
}

/// A session goes on at every event, unless it lacks the connection that it would have to
/// speak on, has no retry left to count, or gets an OPEN that it cannot place: behind no OPEN
/// of its own, a second one from the same side, or one that wins without a connection.
#[verifier::spinoff_prover]
#[verifier::rlimit(50)]
pub proof fn law_when_it_goes_on(state: State, event: Event, source: Source)
    requires
        state.wf(),
    ensures
        state.goes_on(event, source) <==> {
            &&& needs_conn(state, event, source) ==> state.running() is Some
            &&& counts(state, event, source) ==> state.attr().connect_retry_counter
                < 0xffff_ffff_ffff_ffff
            &&& linked(state) ==> (event matches Event::BGPOpen { msg, remote_syn } ==> {
                &&& state.local_open() is Some
                &&& state !is OpenSent ==> state.remote_syn() != remote_syn
                &&& taken_over(state, event) ==> state.colliding() is Some
            })
        },
{
}

/// An OPEN that is handed in from outside becomes one that came before the own if the session
/// delays that, and is unchanged otherwise. So is everything else.
pub proof fn law_adapted(state: State, event: Event)
    ensures
        match event {
            Event::BGPOpen { msg, remote_syn } => state.adapted(event)
                == if state.attr().cur_delay_open_time == never() {
                event
            } else {
                Event::BGPOpenWithDelayOpenTimerRunning { msg, remote_syn }
            },
            _ => state.adapted(event) == event,
        },
{
}

/// A session that is started by hand or by itself connects, and one that is started passively
/// waits: only the first tries to reach the peer.
pub proof fn law_start(state: State, event: Event, source: Source, conf: Neighbor, conn: ConnId)
    requires
        state is Idle,
    ensures
        ({
            let step = state.stepped(event, source, conf);
            let tried = tally(step.actions, conn).tcp_tried;
            &&& starts_actively(event) ==> step.next is Connect && step.next.trying() && tried == 1
            &&& starts_passively(event) ==> step.next is Active && !step.next.trying() && tried
                == 0
            &&& !starts_actively(event) && !starts_passively(event) ==> step.next == state && tried
                == 0
        }),
{
    law_what_it_does(state, event, source, conf, conn);
}

/// A session that is up ends without a word when the peer sends a NOTIFICATION or the
/// connection fails: it is idle, has counted one retry more, and its connection is aborted.
pub proof fn law_established_is_given_up(
    state: State,
    event: Event,
    source: Source,
    conf: Neighbor,
)
    requires
        state is Established,
        state.wf(),
        state.goes_on(event, source),
        event is NotifyMsg || event is NotifyMsgVerErr || event is TcpConnectionFails,
    ensures
        ({
            let step = state.stepped(event, source, conf);
            &&& step.next is Idle
            &&& step.next.attr().connect_retry_counter == state.attr().connect_retry_counter + 1
            &&& sent(step.actions) == Seq::<(ConnId, Message)>::empty()
            &&& state.running() is Some
            &&& tally(step.actions, state.running()->0).aborted == 1
        }),
{
    law_what_it_says(state, event, source, conf);
    law_what_it_does(state, event, source, conf, state.running()->0);
}

/// A connection that the peer made and that takes over from the one whose OPEN was sent is run
/// and gets an OPEN of its own, built from the configuration, after the old one was told to
/// cease; one that this speaker made got its OPEN before.
pub proof fn law_winner_gets_an_open(
    state: State,
    msg: OpenMsg,
    remote_syn: bool,
    source: Source,
    conf: Neighbor,
)
    requires
        state is OpenSent,
        state.wf(),
        state.goes_on(Event::BGPOpen { msg, remote_syn }, source),
        state.remote_syn() != remote_syn,
        state.local_open()->0.bgp_identifier < msg.bgp_identifier,
    ensures
        ({
            let step = state.stepped(Event::BGPOpen { msg, remote_syn }, source, conf);
            let out = sent(step.actions);
            let winner = step.next.running()->0;
            &&& step.next is OpenConfirm
            &&& step.next.running() == state.colliding() && state.colliding() is Some
            &&& out.len() == if remote_syn {
                2int
            } else {
                1
            }
            &&& out[0] == (state.running()->0, notify(6))
            &&& remote_syn ==> out[1] == (winner, Message::Open(own_open(conf)))
            &&& tally(step.actions, winner).run_remote >= once(remote_syn)
            &&& tally(step.actions, winner).run_own >= once(!remote_syn)
        }),
{
    let event = Event::BGPOpen { msg, remote_syn };
    law_what_it_says(state, event, source, conf);
    law_what_it_does(state, event, source, conf, state.colliding()->0);
}

} // verus!
