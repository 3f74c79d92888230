//! The states of a session, the events that move it, and its timers.
use crate::error::Error;
use crate::message::{OpenMsg, UpdateMsg};
use crate::net::SocketAddr;
use crate::time::Duration;
use vstd::prelude::*;

verus! {

/// What a keepalive interval is of the hold time.
pub const DFLT_KEEPALIVE_FACTOR: u32 = 3;

/// The time that stands for a timer which is not running: about thirty years.
#[verifier::allow_in_spec]
pub fn far_future() -> (r: Duration)
    returns
        (Duration { secs: 946_080_000, nanos: 0 }),
{
    Duration { secs: 946_080_000, nanos: 0 }
}

/// How long a connection attempt is given.
#[verifier::allow_in_spec]
pub fn dflt_bgp_timers_connect() -> (r: Duration)
    returns
        (Duration { secs: 10, nanos: 0 }),
{
    Duration { secs: 10, nanos: 0 }
}

/// The hold time before one is negotiated.
#[verifier::allow_in_spec]
pub fn dflt_bgp_holdtime() -> (r: Duration)
    returns
        (Duration { secs: 9, nanos: 0 }),
{
    Duration { secs: 9, nanos: 0 }
}

/// The keepalive interval before one is negotiated.
#[verifier::allow_in_spec]
pub fn dflt_bgp_keepalive() -> (r: Duration)
    returns
        (Duration { secs: 3, nanos: 0 }),
{
    Duration { secs: 3, nanos: 0 }
}

/// Names a connection to the peer, among those of one session.
#[derive(Debug, Clone, Copy, PartialEq, Eq, Structural, Hash)]
pub struct ConnId {
    pub id: u64,
}

/// An attempt to connect to the peer. A session has one at most.
#[derive(Debug, Clone, Copy, PartialEq, Eq, Structural)]
pub struct TcpAttempt {}

/// What can happen to a session.
#[derive(Debug)]
pub enum Event {
    ManualStart {},
    ManualStop {},
    AutomaticStart {},
    ManualStartWithPassiveTcpEstablishment {},
    AutomaticStartWithPassiveTcpEstablishment {},
    AutomaticStartWithDampPeerOscillations {},
    AutomaticStartWithDampPeerOscillationsAndPassiveTcpEstablishment {},
    AutomaticStop {},
    ConnectRetryTimerExpires {},
    HoldTimerExpires {},
    KeepaliveTimerExpires {},
    DelayOpenTimerExpires {},
    IdleHoldTimerExpires {},
    TcpConnectionValid {},
    TcpCRInvalid {},
    /// The attempt to connect gave a connection.
    TcpCRAcked { conn: ConnId },
    /// The peer made a connection.
    TcpConnectionConfirmed { bgp_conn: ConnId },
    TcpConnectionFails { err: Error },
    BGPOpen { msg: OpenMsg, remote_syn: bool },
    BGPOpenWithDelayOpenTimerRunning { msg: OpenMsg, remote_syn: bool },
    BGPHeaderErr { err: Error },
    BGPOpenMsgErr { err: Error },
    OpenCollisionDump {},
    NotifyMsgVerErr { err: Error },
    NotifyMsg { err: Error },
    NotifyMsgErr {},
    KeepaliveMsg {},
    UpdateMsg { msg: UpdateMsg },
    UpdateMsgErr { err: Error },
    /// A colliding connection was opened by its peer.
    ProcessOneDone { conn: ConnId },
}

/// What a session keeps in every state.
#[derive(Debug, Clone, Copy, PartialEq, Eq, Structural)]
pub struct SessionAttributes {
    pub connect_retry_counter: u64,
    pub connect_retry_time: Duration,
    pub hold_time: Duration,
    pub keepalive_time: Duration,
    pub delay_open_time: Duration,
    pub delay_open: bool,
    pub send_notification_without_open: bool,
    pub damp_peer_oscillations: bool,
    pub collision_detect_established_state: bool,
    /// What the timers were last set to; the far future for those that do not run.
    pub cur_connect_retry_time: Duration,
    pub cur_hold_time: Duration,
    pub cur_keepalive_time: Duration,
    pub cur_delay_open_time: Duration,
}

/// The attributes of a new session.
pub open spec fn new_attr() -> SessionAttributes {
    SessionAttributes {
        connect_retry_counter: 0,
        connect_retry_time: dflt_bgp_timers_connect(),
        hold_time: dflt_bgp_holdtime(),
        keepalive_time: dflt_bgp_keepalive(),
        delay_open_time: Duration::zero(),
        delay_open: false,
        send_notification_without_open: false,
        damp_peer_oscillations: false,
        collision_detect_established_state: false,
        cur_connect_retry_time: far_future(),
        cur_hold_time: far_future(),
        cur_keepalive_time: far_future(),
        cur_delay_open_time: far_future(),
    }
}

impl SessionAttributes {
    pub fn new() -> (r: SessionAttributes)
        ensures
            r == new_attr(),
    {
        SessionAttributes {
            connect_retry_counter: 0,
            connect_retry_time: dflt_bgp_timers_connect(),
            hold_time: dflt_bgp_holdtime(),
            keepalive_time: dflt_bgp_keepalive(),
            delay_open_time: Duration::zero(),
            delay_open: false,
            send_notification_without_open: false,
            damp_peer_oscillations: false,
            collision_detect_established_state: false,
            cur_connect_retry_time: far_future(),
            cur_hold_time: far_future(),
            cur_keepalive_time: far_future(),
            cur_delay_open_time: far_future(),
        }
    }
}

/// A session in the state `S`.
pub struct Fsm<S> {
    pub state: S,
    pub peer: SocketAddr,
    pub attr: SessionAttributes,
}

/// Nothing is tried.
pub struct Idle {}

/// A connection to the peer is tried.
pub struct Connect {
    pub tcp_conn_handle: Option<TcpAttempt>,
    /// The connection that runs.
    pub bgp_conn_handle: Option<ConnId>,
    /// The connection that takes messages for the peer.
    pub bgp_out_tx: Option<ConnId>,
}

/// A connection from the peer is waited for.
pub struct Active {
    pub tcp_conn_handle: Option<TcpAttempt>,
    pub bgp_conn_handle: Option<ConnId>,
    pub bgp_out_tx: Option<ConnId>,
}

/// An OPEN was sent.
pub struct OpenSent {
    pub bgp_conn_handle: Option<ConnId>,
    pub bgp_out_tx: Option<ConnId>,
    pub local_open: Option<OpenMsg>,
    /// Whether the peer made the connection.
    pub remote_syn: bool,
    /// A second connection, which collides with the one that runs.
    pub collision_conn: Option<ConnId>,
}

/// An OPEN was received too.
pub struct OpenConfirm {
    pub bgp_conn_handle: Option<ConnId>,
    pub bgp_out_tx: Option<ConnId>,
    pub peer_open: Option<OpenMsg>,
    pub local_open: Option<OpenMsg>,
    pub remote_syn: bool,
    pub collision_conn: Option<ConnId>,
}

/// The session is up.
pub struct Established {
    pub bgp_conn_handle: Option<ConnId>,
    pub bgp_out_tx: Option<ConnId>,
    pub local_open: Option<OpenMsg>,
    pub remote_syn: bool,
    pub collision_conn: Option<ConnId>,
}

impl Fsm<Idle> {
    pub fn new(peer: SocketAddr) -> (r: Fsm<Idle>)
        ensures
            r == (Fsm { state: Idle {  }, peer, attr: new_attr() }),
    {
        Fsm { state: Idle {  }, peer, attr: SessionAttributes::new() }
    }
}

impl From<Fsm<Idle>> for Fsm<Connect> {
    fn from(fsm: Fsm<Idle>) -> (r: Fsm<Connect>) {
        Fsm { state: Connect {
                tcp_conn_handle: None,
                bgp_conn_handle: None,
                bgp_out_tx: None,
            }, peer: fsm.peer, attr: fsm.attr }
    }
}

impl vstd::std_specs::convert::FromSpecImpl<Fsm<Idle>> for Fsm<Connect> {
    open spec fn obeys_from_spec() -> bool {
        true
    }

    open spec fn from_spec(fsm: Fsm<Idle>) -> Fsm<Connect> {
        Fsm { state: Connect {
                tcp_conn_handle: None,
                bgp_conn_handle: None,
                bgp_out_tx: None,
            }, peer: fsm.peer, attr: fsm.attr }
    }
}

impl From<Fsm<Idle>> for Fsm<Active> {
    fn from(fsm: Fsm<Idle>) -> (r: Fsm<Active>) {
        Fsm { state: Active {
                tcp_conn_handle: None,
                bgp_conn_handle: None,
                bgp_out_tx: None,
            }, peer: fsm.peer, attr: fsm.attr }
    }
}

impl vstd::std_specs::convert::FromSpecImpl<Fsm<Idle>> for Fsm<Active> {
    open spec fn obeys_from_spec() -> bool {
        true
    }

    open spec fn from_spec(fsm: Fsm<Idle>) -> Fsm<Active> {
        Fsm { state: Active {
                tcp_conn_handle: None,
                bgp_conn_handle: None,
                bgp_out_tx: None,
            }, peer: fsm.peer, attr: fsm.attr }
    }
}

impl From<Fsm<Connect>> for Fsm<Idle> {
    fn from(fsm: Fsm<Connect>) -> (r: Fsm<Idle>) {
        Fsm { state: Idle {  }, peer: fsm.peer, attr: fsm.attr }
    }
}

impl vstd::std_specs::convert::FromSpecImpl<Fsm<Connect>> for Fsm<Idle> {
    open spec fn obeys_from_spec() -> bool {
        true
    }

    open spec fn from_spec(fsm: Fsm<Connect>) -> Fsm<Idle> {
        Fsm { state: Idle {  }, peer: fsm.peer, attr: fsm.attr }
    }
}

impl From<Fsm<Connect>> for Fsm<Active> {
    fn from(fsm: Fsm<Connect>) -> (r: Fsm<Active>) {
        Fsm { state: Active {
                tcp_conn_handle: None,
                bgp_conn_handle: fsm.state.bgp_conn_handle,
                bgp_out_tx: fsm.state.bgp_out_tx,
            }, peer: fsm.peer, attr: fsm.attr }
    }
}

impl vstd::std_specs::convert::FromSpecImpl<Fsm<Connect>> for Fsm<Active> {
    open spec fn obeys_from_spec() -> bool {
        true
    }

    open spec fn from_spec(fsm: Fsm<Connect>) -> Fsm<Active> {
        Fsm { state: Active {
                tcp_conn_handle: None,
                bgp_conn_handle: fsm.state.bgp_conn_handle,
                bgp_out_tx: fsm.state.bgp_out_tx,
            }, peer: fsm.peer, attr: fsm.attr }
    }
}

impl From<Fsm<Connect>> for Fsm<OpenSent> {
    fn from(fsm: Fsm<Connect>) -> (r: Fsm<OpenSent>) {
        Fsm { state: OpenSent {
                bgp_conn_handle: fsm.state.bgp_conn_handle,
                bgp_out_tx: fsm.state.bgp_out_tx,
                local_open: None,
                remote_syn: false,
                collision_conn: None,
            }, peer: fsm.peer, attr: fsm.attr }
    }
}

impl vstd::std_specs::convert::FromSpecImpl<Fsm<Connect>> for Fsm<OpenSent> {
    open spec fn obeys_from_spec() -> bool {
        true
    }

    open spec fn from_spec(fsm: Fsm<Connect>) -> Fsm<OpenSent> {
        Fsm { state: OpenSent {
                bgp_conn_handle: fsm.state.bgp_conn_handle,
                bgp_out_tx: fsm.state.bgp_out_tx,
                local_open: None,
                remote_syn: false,
                collision_conn: None,
            }, peer: fsm.peer, attr: fsm.attr }
    }
}

impl From<Fsm<Connect>> for Fsm<OpenConfirm> {
    fn from(fsm: Fsm<Connect>) -> (r: Fsm<OpenConfirm>) {
        Fsm { state: OpenConfirm {
                bgp_conn_handle: fsm.state.bgp_conn_handle,
                bgp_out_tx: fsm.state.bgp_out_tx,
                peer_open: None,
                local_open: None,
                remote_syn: false,
                collision_conn: None,
            }, peer: fsm.peer, attr: fsm.attr }
    }
}

impl vstd::std_specs::convert::FromSpecImpl<Fsm<Connect>> for Fsm<OpenConfirm> {
    open spec fn obeys_from_spec() -> bool {
        true
    }

    open spec fn from_spec(fsm: Fsm<Connect>) -> Fsm<OpenConfirm> {
        Fsm { state: OpenConfirm {
                bgp_conn_handle: fsm.state.bgp_conn_handle,
                bgp_out_tx: fsm.state.bgp_out_tx,
                peer_open: None,
                local_open: None,
                remote_syn: false,
                collision_conn: None,
            }, peer: fsm.peer, attr: fsm.attr }
    }
}

impl From<Fsm<Active>> for Fsm<Idle> {
    fn from(fsm: Fsm<Active>) -> (r: Fsm<Idle>) {
        Fsm { state: Idle {  }, peer: fsm.peer, attr: fsm.attr }
    }
}

impl vstd::std_specs::convert::FromSpecImpl<Fsm<Active>> for Fsm<Idle> {
    open spec fn obeys_from_spec() -> bool {
        true
    }

    open spec fn from_spec(fsm: Fsm<Active>) -> Fsm<Idle> {
        Fsm { state: Idle {  }, peer: fsm.peer, attr: fsm.attr }
    }
}

impl From<Fsm<Active>> for Fsm<Connect> {
    fn from(fsm: Fsm<Active>) -> (r: Fsm<Connect>) {
        Fsm { state: Connect {
                tcp_conn_handle: fsm.state.tcp_conn_handle,
                bgp_conn_handle: fsm.state.bgp_conn_handle,
                bgp_out_tx: fsm.state.bgp_out_tx,
            }, peer: fsm.peer, attr: fsm.attr }
    }
}

impl vstd::std_specs::convert::FromSpecImpl<Fsm<Active>> for Fsm<Connect> {
    open spec fn obeys_from_spec() -> bool {
        true
    }

    open spec fn from_spec(fsm: Fsm<Active>) -> Fsm<Connect> {
        Fsm { state: Connect {
                tcp_conn_handle: fsm.state.tcp_conn_handle,
                bgp_conn_handle: fsm.state.bgp_conn_handle,
                bgp_out_tx: fsm.state.bgp_out_tx,
            }, peer: fsm.peer, attr: fsm.attr }
    }
}

impl From<Fsm<Active>> for Fsm<OpenSent> {
    fn from(fsm: Fsm<Active>) -> (r: Fsm<OpenSent>) {
        Fsm { state: OpenSent {
                bgp_conn_handle: fsm.state.bgp_conn_handle,
                bgp_out_tx: fsm.state.bgp_out_tx,
                local_open: None,
                remote_syn: true,
                collision_conn: None,
            }, peer: fsm.peer, attr: fsm.attr }
    }
}

impl vstd::std_specs::convert::FromSpecImpl<Fsm<Active>> for Fsm<OpenSent> {
    open spec fn obeys_from_spec() -> bool {
        true
    }

    open spec fn from_spec(fsm: Fsm<Active>) -> Fsm<OpenSent> {
        Fsm { state: OpenSent {
                bgp_conn_handle: fsm.state.bgp_conn_handle,
                bgp_out_tx: fsm.state.bgp_out_tx,
                local_open: None,
                remote_syn: true,
                collision_conn: None,
            }, peer: fsm.peer, attr: fsm.attr }
    }
}

impl From<Fsm<Active>> for Fsm<OpenConfirm> {
    fn from(fsm: Fsm<Active>) -> (r: Fsm<OpenConfirm>) {
        Fsm { state: OpenConfirm {
                bgp_conn_handle: fsm.state.bgp_conn_handle,
                bgp_out_tx: fsm.state.bgp_out_tx,
                peer_open: None,
                local_open: None,
                remote_syn: true,
                collision_conn: None,
            }, peer: fsm.peer, attr: fsm.attr }
    }
}

impl vstd::std_specs::convert::FromSpecImpl<Fsm<Active>> for Fsm<OpenConfirm> {
    open spec fn obeys_from_spec() -> bool {
        true
    }

    open spec fn from_spec(fsm: Fsm<Active>) -> Fsm<OpenConfirm> {
        Fsm { state: OpenConfirm {
                bgp_conn_handle: fsm.state.bgp_conn_handle,
                bgp_out_tx: fsm.state.bgp_out_tx,
                peer_open: None,
                local_open: None,
                remote_syn: true,
                collision_conn: None,
            }, peer: fsm.peer, attr: fsm.attr }
    }
}

impl From<Fsm<OpenSent>> for Fsm<Idle> {
    fn from(fsm: Fsm<OpenSent>) -> (r: Fsm<Idle>) {
        Fsm { state: Idle {  }, peer: fsm.peer, attr: fsm.attr }
    }
}

impl vstd::std_specs::convert::FromSpecImpl<Fsm<OpenSent>> for Fsm<Idle> {
    open spec fn obeys_from_spec() -> bool {
        true
    }

    open spec fn from_spec(fsm: Fsm<OpenSent>) -> Fsm<Idle> {
        Fsm { state: Idle {  }, peer: fsm.peer, attr: fsm.attr }
    }
}

impl From<Fsm<OpenSent>> for Fsm<Active> {
    fn from(fsm: Fsm<OpenSent>) -> (r: Fsm<Active>) {
        Fsm { state: Active {
                tcp_conn_handle: None,
                bgp_conn_handle: None,
                bgp_out_tx: None,
            }, peer: fsm.peer, attr: fsm.attr }
    }
}

impl vstd::std_specs::convert::FromSpecImpl<Fsm<OpenSent>> for Fsm<Active> {
    open spec fn obeys_from_spec() -> bool {
        true
    }

    open spec fn from_spec(fsm: Fsm<OpenSent>) -> Fsm<Active> {
        Fsm { state: Active {
                tcp_conn_handle: None,
                bgp_conn_handle: None,
                bgp_out_tx: None,
            }, peer: fsm.peer, attr: fsm.attr }
    }
}

impl From<Fsm<OpenSent>> for Fsm<OpenConfirm> {
    fn from(fsm: Fsm<OpenSent>) -> (r: Fsm<OpenConfirm>) {
        Fsm { state: OpenConfirm {
                bgp_conn_handle: fsm.state.bgp_conn_handle,
                bgp_out_tx: fsm.state.bgp_out_tx,
                peer_open: None,
                local_open: fsm.state.local_open,
                remote_syn: fsm.state.remote_syn,
                collision_conn: fsm.state.collision_conn,
            }, peer: fsm.peer, attr: fsm.attr }
    }
}

impl vstd::std_specs::convert::FromSpecImpl<Fsm<OpenSent>> for Fsm<OpenConfirm> {
    open spec fn obeys_from_spec() -> bool {
        true
    }

    open spec fn from_spec(fsm: Fsm<OpenSent>) -> Fsm<OpenConfirm> {
        Fsm { state: OpenConfirm {
                bgp_conn_handle: fsm.state.bgp_conn_handle,
                bgp_out_tx: fsm.state.bgp_out_tx,
                peer_open: None,
                local_open: fsm.state.local_open,
                remote_syn: fsm.state.remote_syn,
                collision_conn: fsm.state.collision_conn,
            }, peer: fsm.peer, attr: fsm.attr }
    }
}

impl From<Fsm<OpenConfirm>> for Fsm<Idle> {
    fn from(fsm: Fsm<OpenConfirm>) -> (r: Fsm<Idle>) {
        Fsm { state: Idle {  }, peer: fsm.peer, attr: fsm.attr }
    }
}

impl vstd::std_specs::convert::FromSpecImpl<Fsm<OpenConfirm>> for Fsm<Idle> {
    open spec fn obeys_from_spec() -> bool {
        true
    }

    open spec fn from_spec(fsm: Fsm<OpenConfirm>) -> Fsm<Idle> {
        Fsm { state: Idle {  }, peer: fsm.peer, attr: fsm.attr }
    }
}

impl From<Fsm<OpenConfirm>> for Fsm<Established> {
    fn from(fsm: Fsm<OpenConfirm>) -> (r: Fsm<Established>) {
        Fsm { state: Established {
                bgp_conn_handle: fsm.state.bgp_conn_handle,
                bgp_out_tx: fsm.state.bgp_out_tx,
                local_open: fsm.state.local_open,
                remote_syn: fsm.state.remote_syn,
                collision_conn: fsm.state.collision_conn,
            }, peer: fsm.peer, attr: fsm.attr }
    }
}

impl vstd::std_specs::convert::FromSpecImpl<Fsm<OpenConfirm>> for Fsm<Established> {
    open spec fn obeys_from_spec() -> bool {
        true
    }

    open spec fn from_spec(fsm: Fsm<OpenConfirm>) -> Fsm<Established> {
        Fsm { state: Established {
                bgp_conn_handle: fsm.state.bgp_conn_handle,
                bgp_out_tx: fsm.state.bgp_out_tx,
                local_open: fsm.state.local_open,
                remote_syn: fsm.state.remote_syn,
                collision_conn: fsm.state.collision_conn,
            }, peer: fsm.peer, attr: fsm.attr }
    }
}

impl From<Fsm<Established>> for Fsm<Idle> {
    fn from(fsm: Fsm<Established>) -> (r: Fsm<Idle>) {
        Fsm { state: Idle {  }, peer: fsm.peer, attr: fsm.attr }
    }
}

impl vstd::std_specs::convert::FromSpecImpl<Fsm<Established>> for Fsm<Idle> {
    open spec fn obeys_from_spec() -> bool {
        true
    }

    open spec fn from_spec(fsm: Fsm<Established>) -> Fsm<Idle> {
        Fsm { state: Idle {  }, peer: fsm.peer, attr: fsm.attr }
    }
}

/// A session.
pub enum State {
    Idle(Fsm<Idle>),
    Connect(Fsm<Connect>),
    Active(Fsm<Active>),
    OpenSent(Fsm<OpenSent>),
    OpenConfirm(Fsm<OpenConfirm>),
    Established(Fsm<Established>),
}

impl State {
    /// The attributes of the session, whatever its state.
    pub open spec fn attr(self) -> SessionAttributes {
        match self {
            State::Idle(fsm) => fsm.attr,
            State::Connect(fsm) => fsm.attr,
            State::Active(fsm) => fsm.attr,
            State::OpenSent(fsm) => fsm.attr,
            State::OpenConfirm(fsm) => fsm.attr,
            State::Established(fsm) => fsm.attr,
        }
    }

    pub fn new(peer: SocketAddr) -> (r: State)
        ensures
            r == State::Idle(Fsm { state: Idle {  }, peer, attr: new_attr() }),
    {
        State::Idle(Fsm::new(peer))
    }

    pub fn get_attr(&self) -> (r: &SessionAttributes)
        ensures
            *r == self.attr(),
    {
        match self {
            State::Idle(fsm) => &fsm.attr,
            State::Connect(fsm) => &fsm.attr,
            State::Active(fsm) => &fsm.attr,
            State::OpenSent(fsm) => &fsm.attr,
            State::OpenConfirm(fsm) => &fsm.attr,
            State::Established(fsm) => &fsm.attr,
        }
    }
}

/// What is done to a timer.
#[derive(Debug, Clone, Copy, PartialEq, Eq, Structural)]
pub enum Operation {
    Stop,
    Restart,
    Update { duration: Duration },
}

impl Operation {
    /// The time that a timer which had `dur` runs for from here on.
    pub open spec fn applied(self, dur: Duration) -> Duration {
        match self {
            Operation::Stop => far_future(),
            Operation::Restart => dur,
            Operation::Update { duration } => duration,
        }
    }
}

/// What a timer runs for after it waited: the old time if nobody can set it any more.
pub fn next_duration(dur: Duration, op: Option<Operation>) -> (r: Duration)
    ensures
        r == (match op {
            Some(op) => op.applied(dur),
            None => dur,
        }),
{
    match op {
        Some(Operation::Stop) => far_future(),
        Some(Operation::Restart) => dur,
        Some(Operation::Update { duration }) => duration,
        None => dur,
    }
}

/// The timers of a session.
#[derive(Debug, PartialEq, Eq, Structural, Hash, Clone, Copy)]
pub enum TimerKind {
    ConnectRetry,
    Hold,
    Keepalive,
    DelayOpen,
    IdleHold,
}

/// All the timers.
pub open spec fn all_timers() -> Seq<TimerKind> {
    seq![
        TimerKind::ConnectRetry,
        TimerKind::Hold,
        TimerKind::Keepalive,
        TimerKind::DelayOpen,
        TimerKind::IdleHold,
    ]
}

impl TimerKind {
    /// All the timers.
    pub fn new_vec() -> (r: Vec<TimerKind>)
        ensures
            r@ == all_timers(),
    {
        vec![
            TimerKind::ConnectRetry,
            TimerKind::Hold,
            TimerKind::Keepalive,
            TimerKind::DelayOpen,
            TimerKind::IdleHold,
        ]
    }
}

impl From<TimerKind> for Event {
    fn from(kind: TimerKind) -> (r: Event) {
        match kind {
            TimerKind::ConnectRetry => Event::ConnectRetryTimerExpires {  },
            TimerKind::Hold => Event::HoldTimerExpires {  },
            TimerKind::Keepalive => Event::KeepaliveTimerExpires {  },
            TimerKind::DelayOpen => Event::DelayOpenTimerExpires {  },
            TimerKind::IdleHold => Event::IdleHoldTimerExpires {  },
        }
    }
}

impl vstd::std_specs::convert::FromSpecImpl<TimerKind> for Event {
    open spec fn obeys_from_spec() -> bool {
        true
    }

    open spec fn from_spec(kind: TimerKind) -> Event {
        match kind {
            TimerKind::ConnectRetry => Event::ConnectRetryTimerExpires {  },
            TimerKind::Hold => Event::HoldTimerExpires {  },
            TimerKind::Keepalive => Event::KeepaliveTimerExpires {  },
            TimerKind::DelayOpen => Event::DelayOpenTimerExpires {  },
            TimerKind::IdleHold => Event::IdleHoldTimerExpires {  },
        }
    }
}

/// What ends the wait of a timer.
#[derive(Debug, Clone, Copy, PartialEq, Eq, Structural)]
pub enum Wake {
    /// Its time is over.
    Expired,
    /// It was told to do something, or, without an operation, nobody is left to tell it.
    Told { op: Option<Operation> },
}

impl Wake {
    /// The time that a timer which had `dur` runs for from here on.
    pub open spec fn next_time(self, dur: Duration) -> Duration {
        match self {
            Wake::Told { op: Some(op) } => op.applied(dur),
            _ => dur,
        }
    }

    /// What the session is told.
    pub open spec fn event(self, kind: TimerKind) -> Option<Event> {
        match self {
            Wake::Expired => Some(
                <Event as vstd::std_specs::convert::FromSpec<TimerKind>>::from_spec(kind),
            ),
            Wake::Told { op } => None,
        }
    }
}

/// What a timer that ran for `dur` does when its wait ends: the time that it runs for next,
/// and what the session is told.
pub fn woken(kind: TimerKind, dur: Duration, wake: Wake) -> (r: (Duration, Option<Event>))
    ensures
        r.0 == wake.next_time(dur),
        r.1 == wake.event(kind),
{
    match wake {
        Wake::Expired => (dur, Some(Event::from(kind))),
        Wake::Told { op } => (next_duration(dur, op), None),
    }
}

/// An operation on one of the timers.
#[derive(Debug, Clone, Copy, PartialEq, Eq, Structural)]
pub enum Timer {
    ConnectRetry { op: Operation },
    Hold { op: Operation },
    Keepalive { op: Operation },
    DelayOpen { op: Operation },
    IdleHold { op: Operation },
}

impl Timer {
    /// Which timer the operation is for.
    pub open spec fn spec_kind(self) -> TimerKind {
        match self {
            Timer::ConnectRetry { op } => TimerKind::ConnectRetry,
            Timer::Hold { op } => TimerKind::Hold,
            Timer::Keepalive { op } => TimerKind::Keepalive,
            Timer::DelayOpen { op } => TimerKind::DelayOpen,
            Timer::IdleHold { op } => TimerKind::IdleHold,
        }
    }

    /// The operation.
    pub open spec fn spec_op(self) -> Operation {
        match self {
            Timer::ConnectRetry { op } => op,
            Timer::Hold { op } => op,
            Timer::Keepalive { op } => op,
            Timer::DelayOpen { op } => op,
            Timer::IdleHold { op } => op,
        }
    }

    /// The timer and what is done to it.
    pub fn route(self) -> (r: (TimerKind, Operation))
        ensures
            r.0 == self.spec_kind(),
            r.1 == self.spec_op(),
    {
        match self {
            Timer::ConnectRetry { op } => (TimerKind::ConnectRetry, op),
            Timer::Hold { op } => (TimerKind::Hold, op),
            Timer::Keepalive { op } => (TimerKind::Keepalive, op),
            Timer::DelayOpen { op } => (TimerKind::DelayOpen, op),
            Timer::IdleHold { op } => (TimerKind::IdleHold, op),
        }
    }
}

} // verus!
