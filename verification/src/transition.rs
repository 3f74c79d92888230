//! The transitions of a session: for every state and event, the next state and what has
//! to be done for it.
use crate::config::Neighbor;
use crate::error::{Error, ErrorCode, ErrorSubCode};
use crate::fsm::{
    dflt_bgp_timers_connect, far_future, Active, ConnId, Connect, Established, Event, Fsm, Idle,
    OpenConfirm, OpenSent, Operation, SessionAttributes, State, TcpAttempt, Timer,
    DFLT_KEEPALIVE_FACTOR,
};
use crate::message::{notification_of, KeepaliveMsg, Message, OpenMsg};
use crate::net::SocketAddr;
use crate::open::open_of_conf;
use crate::time::Duration;
use vstd::prelude::*;

verus! {

/// Where an event came from.
#[derive(Debug, Clone, Copy, PartialEq, Eq, Structural)]
pub enum Source {
    Admin,
    Tcp,
    /// The connection that runs.
    Bgp,
    /// A connection that collides with it.
    Coll,
    Timer,
}

/// What has to be done for a session, outside of it.
#[derive(Debug)]
pub enum Action {
    /// Do this to a timer.
    SetTimer { timer: Timer },
    /// Try to connect to the peer.
    StartTcp {},
    /// Give up the attempt to connect.
    AbortTcp {},
    /// Forget about the attempt to connect, which is left to itself.
    ReleaseTcp {},
    /// Run a connection: read messages from it, and write to it those that are sent.
    StartBgp { conn: ConnId, remote_syn: bool },
    /// Stop a running connection at once.
    AbortBgp { conn: ConnId },
    /// Send nothing more on a running connection, and leave it to end by itself.
    ReleaseBgp { conn: ConnId },
    /// Send a message on a running connection.
    Send { conn: ConnId, msg: Message },
    /// Read the first message of a connection that may collide with the running one.
    StartCollision { conn: ConnId },
    /// Close a connection that was not run.
    DropConn { conn: ConnId },
}

/// The next state of a session, and what has to be done for it, in order.
pub struct Step {
    pub next: State,
    pub actions: Seq<Action>,
}

/// An operation on the connect retry timer.
#[verifier::allow_in_spec]
pub fn retry(op: Operation) -> (r: Action)
    returns
        (Action::SetTimer { timer: Timer::ConnectRetry { op } }),
{
    Action::SetTimer { timer: Timer::ConnectRetry { op } }
}

/// An operation on the delay open timer.
#[verifier::allow_in_spec]
pub fn delay(op: Operation) -> (r: Action)
    returns
        (Action::SetTimer { timer: Timer::DelayOpen { op } }),
{
    Action::SetTimer { timer: Timer::DelayOpen { op } }
}

/// An operation on the hold timer.
#[verifier::allow_in_spec]
pub fn hold(op: Operation) -> (r: Action)
    returns
        (Action::SetTimer { timer: Timer::Hold { op } }),
{
    Action::SetTimer { timer: Timer::Hold { op } }
}

/// An operation on the keepalive timer.
#[verifier::allow_in_spec]
pub fn keepalive(op: Operation) -> (r: Action)
    returns
        (Action::SetTimer { timer: Timer::Keepalive { op } }),
{
    Action::SetTimer { timer: Timer::Keepalive { op } }
}

/// Attributes of which the connect retry timer does not run.
#[verifier::allow_in_spec]
pub fn no_retry(attr: SessionAttributes) -> (r: SessionAttributes)
    returns
        (SessionAttributes { cur_connect_retry_time: far_future(), ..attr }),
{
    SessionAttributes { cur_connect_retry_time: far_future(), ..attr }
}

/// Attributes of which the delay open timer does not run.
#[verifier::allow_in_spec]
pub fn no_delay(attr: SessionAttributes) -> (r: SessionAttributes)
    returns
        (SessionAttributes { cur_delay_open_time: far_future(), ..attr }),
{
    SessionAttributes { cur_delay_open_time: far_future(), ..attr }
}

/// Attributes that count no retry.
#[verifier::allow_in_spec]
pub fn uncounted(attr: SessionAttributes) -> (r: SessionAttributes)
    returns
        (SessionAttributes { connect_retry_counter: 0, ..attr }),
{
    SessionAttributes { connect_retry_counter: 0, ..attr }
}

/// Attributes that count one retry more.
pub open spec fn counted(attr: SessionAttributes) -> SessionAttributes {
    SessionAttributes { connect_retry_counter: (attr.connect_retry_counter + 1) as u64, ..attr }
}

/// Whether one retry more can be counted.
pub open spec fn countable(attr: SessionAttributes) -> bool {
    attr.connect_retry_counter < u64::MAX
}

/// The hold time of two speakers: the smaller of theirs.
pub open spec fn negotiated(local: OpenMsg, peer: OpenMsg) -> Duration {
    Duration::from_secs(
        if local.hold_time <= peer.hold_time {
            local.hold_time as u64
        } else {
            peer.hold_time as u64
        },
    )
}

/// The keepalive interval that goes with a hold time. Without a hold time there is none.
pub open spec fn keepalive_of(hold_time: Duration) -> Duration {
    if hold_time == Duration::zero() {
        far_future()
    } else {
        Duration::of_nanos(hold_time.total() / DFLT_KEEPALIVE_FACTOR as nat)
    }
}

/// Attributes with that hold time. The hold timer runs for it and the keepalive timer for
/// its interval; a hold time of zero means that neither runs.
#[verifier::allow_in_spec]
pub fn timed(attr: SessionAttributes, hold_time: Duration) -> (r: SessionAttributes)
    returns
        (if hold_time == Duration::zero() {
            SessionAttributes {
                hold_time,
                cur_keepalive_time: far_future(),
                cur_hold_time: far_future(),
                ..attr
            }
        } else {
            SessionAttributes {
                hold_time,
                cur_keepalive_time: attr.keepalive_time,
                cur_hold_time: hold_time,
                ..attr
            }
        }),
{
    if hold_time == Duration::zero() {
        SessionAttributes {
            hold_time,
            cur_keepalive_time: far_future(),
            cur_hold_time: far_future(),
            ..attr
        }
    } else {
        SessionAttributes {
            hold_time,
            cur_keepalive_time: attr.keepalive_time,
            cur_hold_time: hold_time,
            ..attr
        }
    }
}

/// What sets these two timers, or stops them where there is no hold time.
pub open spec fn start_timers(attr: SessionAttributes, hold_time: Duration) -> Seq<Action> {
    if hold_time == Duration::zero() {
        seq![keepalive(Operation::Stop)].push(hold(Operation::Stop))
    } else {
        seq![keepalive(Operation::Update { duration: attr.keepalive_time })].push(
            hold(Operation::Update { duration: hold_time }),
        )
    }
}

/// The NOTIFICATION without data that reports an error of that kind.
pub open spec fn notice(code: ErrorCode) -> Message {
    Message::Notification(notification_of(code, ErrorSubCode::Undefined, None))
}

/// The NOTIFICATION that reports that error.
pub open spec fn report(err: Error) -> Message {
    Message::Notification(notification_of(err.code, err.subcode, err.data))
}

/// Sends a message, if there is a connection to send it on.
pub open spec fn send(out: Option<ConnId>, msg: Message) -> Seq<Action> {
    match out {
        Some(conn) => seq![Action::Send { conn, msg }],
        None => seq![],
    }
}

/// Gives up an attempt to connect, if there is one.
pub open spec fn abort_tcp(tcp: Option<TcpAttempt>) -> Seq<Action> {
    match tcp {
        Some(_) => seq![Action::AbortTcp {  }],
        None => seq![],
    }
}

/// Forgets about an attempt to connect, if there is one.
pub open spec fn release_tcp(tcp: Option<TcpAttempt>) -> Seq<Action> {
    match tcp {
        Some(_) => seq![Action::ReleaseTcp {  }],
        None => seq![],
    }
}

/// Stops the running connection, if there is one.
pub open spec fn abort_bgp(running: Option<ConnId>) -> Seq<Action> {
    match running {
        Some(conn) => seq![Action::AbortBgp { conn }],
        None => seq![],
    }
}

/// Leaves the running connection to itself, if there is one.
pub open spec fn release_bgp(running: Option<ConnId>) -> Seq<Action> {
    match running {
        Some(conn) => seq![Action::ReleaseBgp { conn }],
        None => seq![],
    }
}

/// Closes a connection that was not run, if there is one.
pub open spec fn drop_conn(conn: Option<ConnId>) -> Seq<Action> {
    match conn {
        Some(conn) => seq![Action::DropConn { conn }],
        None => seq![],
    }
}

/// The connection that an event brings.
pub open spec fn brought(event: Event) -> Option<ConnId> {
    match event {
        Event::TcpCRAcked { conn } => Some(conn),
        Event::TcpConnectionConfirmed { bgp_conn } => Some(bgp_conn),
        Event::ProcessOneDone { conn } => Some(conn),
        _ => None,
    }
}

/// Whether an event asks for a session to be started.
pub open spec fn is_start(event: Event) -> bool {
    match event {
        Event::ManualStart {  } => true,
        Event::AutomaticStart {  } => true,
        Event::ManualStartWithPassiveTcpEstablishment {  } => true,
        Event::AutomaticStartWithPassiveTcpEstablishment {  } => true,
        Event::AutomaticStartWithDampPeerOscillations {  } => true,
        Event::AutomaticStartWithDampPeerOscillationsAndPassiveTcpEstablishment {  } => true,
        _ => false,
    }
}

/// A session that is idle.
pub open spec fn idle(peer: SocketAddr, attr: SessionAttributes) -> State {
    State::Idle(Fsm { state: Idle {  }, peer, attr })
}

/// A session that stays as it is.
pub open spec fn stay(next: State) -> Step {
    Step { next, actions: seq![] }
}

/// What an idle session does: it starts, actively or passively, and closes the
/// connections that come up.
pub open spec fn idle_step(fsm: Fsm<Idle>, event: Event) -> Step {
    let attr = SessionAttributes {
        cur_connect_retry_time: dflt_bgp_timers_connect(),
        ..uncounted(fsm.attr)
    };
    let start = retry(Operation::Update { duration: dflt_bgp_timers_connect() });
    match event {
        Event::ManualStart {  } | Event::AutomaticStart {  } => Step {
            next: State::Connect(
                Fsm {
                    state: Connect {
                        tcp_conn_handle: Some(TcpAttempt {  }),
                        bgp_conn_handle: None,
                        bgp_out_tx: None,
                    },
                    peer: fsm.peer,
                    attr,
                },
            ),
            actions: seq![start].push(Action::StartTcp {  }),
        },
        Event::ManualStartWithPassiveTcpEstablishment {  }
        | Event::AutomaticStartWithPassiveTcpEstablishment {  } => Step {
            next: State::Active(
                Fsm {
                    state: Active {
                        tcp_conn_handle: None,
                        bgp_conn_handle: None,
                        bgp_out_tx: None,
                    },
                    peer: fsm.peer,
                    attr,
                },
            ),
            actions: seq![start],
        },
        _ => Step { next: State::Idle(fsm), actions: drop_conn(brought(event)) },
    }
}

/// A connection came up, from the peer if `remote_syn`, where no OPEN was sent before: it
/// is run in place of the one that ran.
pub open spec fn run_conn(running: Option<ConnId>, conn: ConnId, remote_syn: bool) -> Seq<Action> {
    seq![retry(Operation::Stop)] + release_bgp(running) + seq![
        Action::StartBgp { conn, remote_syn },
    ]
}

/// What a session that connects does when a connection came up: it delays the OPEN, or
/// sends it. Once the OPEN is sent, the session forgets about the attempt. A delay that the
/// peer's own connection causes is not noted.
pub open spec fn connect_conn(
    fsm: Fsm<Connect>,
    conn: ConnId,
    remote_syn: bool,
    conf: Neighbor,
) -> Step {
    let s = fsm.state;
    let attr = no_retry(uncounted(fsm.attr));
    let run = run_conn(s.bgp_conn_handle, conn, remote_syn);
    if attr.delay_open {
        Step {
            next: State::Connect(
                Fsm {
                    state: Connect {
                        tcp_conn_handle: s.tcp_conn_handle,
                        bgp_conn_handle: Some(conn),
                        bgp_out_tx: Some(conn),
                    },
                    peer: fsm.peer,
                    attr: if remote_syn {
                        attr
                    } else {
                        SessionAttributes { cur_delay_open_time: attr.delay_open_time, ..attr }
                    },
                },
            ),
            actions: run.push(delay(Operation::Update { duration: attr.delay_open_time })),
        }
    } else {
        Step {
            next: State::OpenSent(
                Fsm {
                    state: OpenSent {
                        bgp_conn_handle: Some(conn),
                        bgp_out_tx: Some(conn),
                        local_open: None,
                        remote_syn,
                        collision_conn: None,
                    },
                    peer: fsm.peer,
                    attr,
                },
            ),
            actions: run.push(Action::Send { conn, msg: Message::Open(open_of_conf(conf)) })
                + release_tcp(s.tcp_conn_handle),
        }
    }
}

/// What a session that waits does when a connection came up: it delays the OPEN, or sends
/// it.
pub open spec fn active_conn(
    fsm: Fsm<Active>,
    conn: ConnId,
    remote_syn: bool,
    conf: Neighbor,
) -> Step {
    let attr = no_retry(uncounted(fsm.attr));
    let run = run_conn(fsm.state.bgp_conn_handle, conn, remote_syn);
    if attr.delay_open {
        Step {
            next: State::Active(
                Fsm {
                    state: Active {
                        tcp_conn_handle: fsm.state.tcp_conn_handle,
                        bgp_conn_handle: Some(conn),
                        bgp_out_tx: Some(conn),
                    },
                    peer: fsm.peer,
                    attr: SessionAttributes { cur_delay_open_time: attr.delay_open_time, ..attr },
                },
            ),
            actions: run.push(delay(Operation::Update { duration: attr.delay_open_time })),
        }
    } else {
        Step {
            next: State::OpenSent(
                Fsm {
                    state: OpenSent {
                        bgp_conn_handle: Some(conn),
                        bgp_out_tx: Some(conn),
                        local_open: None,
                        remote_syn,
                        collision_conn: None,
                    },
                    peer: fsm.peer,
                    attr,
                },
            ),
            actions: run.push(Action::Send { conn, msg: Message::Open(open_of_conf(conf)) }),
        }
    }
}

/// An OPEN came while the own was delayed: both are exchanged and confirmed, and the
/// timers run for what is negotiated.
pub open spec fn delayed_open(
    peer: SocketAddr,
    attr: SessionAttributes,
    tcp: Option<TcpAttempt>,
    running: Option<ConnId>,
    remote_syn: bool,
    msg: OpenMsg,
    conf: Neighbor,
) -> Step {
    let local = open_of_conf(conf);
    let hold_time = negotiated(local, msg);
    let attr = SessionAttributes {
        keepalive_time: keepalive_of(hold_time),
        ..no_delay(no_retry(attr))
    };
    Step {
        next: State::OpenConfirm(
            Fsm {
                state: OpenConfirm {
                    bgp_conn_handle: running,
                    bgp_out_tx: running,
                    peer_open: Some(msg),
                    local_open: Some(local),
                    remote_syn,
                    collision_conn: None,
                },
                peer,
                attr: timed(attr, hold_time),
            },
        ),
        actions: seq![retry(Operation::Stop)].push(delay(Operation::Stop)) + release_tcp(tcp)
            + send(running, Message::Open(local)) + send(
            running,
            Message::Keepalive(KeepaliveMsg {  }),
        ) + start_timers(attr, hold_time),
    }
}

/// A session that was not confirmed ends: what is left of it is given up.
pub open spec fn early_end(
    peer: SocketAddr,
    attr: SessionAttributes,
    first: Seq<Action>,
    tcp: Option<TcpAttempt>,
    running: Option<ConnId>,
) -> Step {
    Step { next: idle(peer, attr), actions: first + abort_tcp(tcp) + abort_bgp(running) }
}

/// A message was refused before an OPEN was sent: the peer is told only if that is allowed.
pub open spec fn early_refusal(
    peer: SocketAddr,
    attr: SessionAttributes,
    err: Error,
    tcp: Option<TcpAttempt>,
    running: Option<ConnId>,
) -> Step {
    let told = if attr.send_notification_without_open {
        send(running, report(err))
    } else {
        seq![]
    };
    early_end(peer, counted(no_retry(attr)), told.push(retry(Operation::Stop)), tcp, running)
}

/// The peer refused the version before an OPEN was sent. It counts as a retry unless a
/// hold timer runs.
pub open spec fn early_version_refusal(
    peer: SocketAddr,
    attr: SessionAttributes,
    tcp: Option<TcpAttempt>,
    running: Option<ConnId>,
) -> Step {
    let held = attr.cur_hold_time != far_future();
    let end = early_end(
        peer,
        if held {
            no_delay(no_retry(attr))
        } else {
            counted(no_retry(attr))
        },
        seq![retry(Operation::Stop)],
        tcp,
        running,
    );
    Step {
        actions: if held {
            end.actions.push(delay(Operation::Stop))
        } else {
            end.actions
        },
        ..end
    }
}

/// What a session that connects does.
pub open spec fn connect_step(fsm: Fsm<Connect>, event: Event, conf: Neighbor) -> Step {
    let s = fsm.state;
    let attr = fsm.attr;
    match event {
        Event::ManualStop {  } => Step {
            next: idle(fsm.peer, no_retry(uncounted(attr))),
            actions: abort_tcp(s.tcp_conn_handle) + abort_bgp(s.bgp_conn_handle) + seq![
                retry(Operation::Stop),
            ],
        },
        Event::ConnectRetryTimerExpires {  } => Step {
            next: State::Connect(
                Fsm {
                    state: Connect { tcp_conn_handle: Some(TcpAttempt {  }), ..s },
                    peer: fsm.peer,
                    attr: no_delay(attr),
                },
            ),
            actions: abort_tcp(s.tcp_conn_handle) + seq![retry(Operation::Restart)].push(
                delay(Operation::Stop),
            ).push(Action::StartTcp {  }),
        },
        Event::DelayOpenTimerExpires {  } => Step {
            next: State::OpenSent(
                Fsm {
                    state: OpenSent {
                        bgp_conn_handle: s.bgp_conn_handle,
                        bgp_out_tx: s.bgp_out_tx,
                        local_open: Some(open_of_conf(conf)),
                        remote_syn: false,
                        collision_conn: None,
                    },
                    peer: fsm.peer,
                    attr,
                },
            ),
            actions: release_tcp(s.tcp_conn_handle) + send(
                s.bgp_out_tx,
                Message::Open(open_of_conf(conf)),
            ),
        },
        Event::TcpConnectionValid {  } | Event::TcpCRInvalid {  } => stay(State::Connect(fsm)),
        Event::TcpCRAcked { conn } => connect_conn(fsm, conn, false, conf),
        Event::TcpConnectionConfirmed { bgp_conn } => connect_conn(fsm, bgp_conn, true, conf),
        Event::TcpConnectionFails { err } => if attr.cur_delay_open_time == far_future() {
            early_end(
                fsm.peer,
                no_retry(attr),
                seq![retry(Operation::Stop)],
                s.tcp_conn_handle,
                s.bgp_conn_handle,
            )
        } else {
            Step {
                next: State::Active(
                    Fsm {
                        state: Active {
                            tcp_conn_handle: None,
                            bgp_conn_handle: s.bgp_conn_handle,
                            bgp_out_tx: s.bgp_out_tx,
                        },
                        peer: fsm.peer,
                        attr: no_delay(attr),
                    },
                ),
                actions: seq![retry(Operation::Restart)].push(delay(Operation::Stop)) + abort_tcp(
                    s.tcp_conn_handle,
                ),
            }
        },
        Event::BGPOpenWithDelayOpenTimerRunning { msg, remote_syn } => delayed_open(
            fsm.peer,
            attr,
            s.tcp_conn_handle,
            s.bgp_conn_handle,
            false,
            msg,
            conf,
        ),
        Event::BGPHeaderErr { err } => early_refusal(
            fsm.peer,
            attr,
            err,
            s.tcp_conn_handle,
            s.bgp_conn_handle,
        ),
        Event::BGPOpenMsgErr { err } => early_refusal(
            fsm.peer,
            attr,
            err,
            s.tcp_conn_handle,
            s.bgp_conn_handle,
        ),
        Event::NotifyMsgVerErr { err } => early_version_refusal(
            fsm.peer,
            attr,
            s.tcp_conn_handle,
            s.bgp_conn_handle,
        ),
        _ => {
            let end = early_end(
                fsm.peer,
                counted(no_delay(no_retry(attr))),
                seq![retry(Operation::Stop)].push(delay(Operation::Stop)),
                s.tcp_conn_handle,
                s.bgp_conn_handle,
            );
            Step { actions: end.actions + drop_conn(brought(event)), ..end }
        },
    }
}

/// Whether a session that connects goes on at that event. When the delay of an OPEN is
/// over, there must be a connection to send it on.
pub open spec fn connect_goes_on(fsm: Fsm<Connect>, event: Event) -> bool {
    let out = fsm.state.bgp_out_tx is Some;
    match event {
        Event::ManualStop {  } => true,
        Event::ConnectRetryTimerExpires {  } => true,
        Event::DelayOpenTimerExpires {  } => out,
        Event::TcpConnectionValid {  } => true,
        Event::TcpCRInvalid {  } => true,
        Event::TcpCRAcked { conn } => true,
        Event::TcpConnectionConfirmed { bgp_conn } => true,
        Event::TcpConnectionFails { err } => true,
        Event::BGPOpenWithDelayOpenTimerRunning { msg, remote_syn } => out,
        Event::BGPHeaderErr { err } => early_refusal_goes_on(fsm.attr, out),
        Event::BGPOpenMsgErr { err } => early_refusal_goes_on(fsm.attr, out),
        Event::NotifyMsgVerErr { err } => fsm.attr.cur_hold_time != far_future() || countable(
            fsm.attr,
        ),
        _ => countable(fsm.attr),
    }
}

/// Whether a refusal before an OPEN was sent can be told and counted.
pub open spec fn early_refusal_goes_on(attr: SessionAttributes, out: bool) -> bool {
    (attr.send_notification_without_open ==> out) && countable(attr)
}

/// What a session that waits does.
pub open spec fn active_step(fsm: Fsm<Active>, event: Event, conf: Neighbor) -> Step {
    let s = fsm.state;
    let attr = fsm.attr;
    match event {
        Event::ManualStop {  } => {
            let held = attr.cur_hold_time != far_future();
            let told = if held && attr.send_notification_without_open {
                send(s.bgp_out_tx, notice(ErrorCode::Cease))
            } else {
                seq![]
            };
            let first = if held {
                seq![delay(Operation::Stop)] + told
            } else {
                seq![]
            };
            early_end(
                fsm.peer,
                uncounted(
                    no_retry(
                        if held {
                            no_delay(attr)
                        } else {
                            attr
                        },
                    ),
                ),
                first.push(retry(Operation::Stop)),
                None,
                s.bgp_conn_handle,
            )
        },
        Event::ConnectRetryTimerExpires {  } => Step {
            next: State::Connect(
                Fsm {
                    state: Connect {
                        tcp_conn_handle: Some(TcpAttempt {  }),
                        bgp_conn_handle: s.bgp_conn_handle,
                        bgp_out_tx: s.bgp_out_tx,
                    },
                    peer: fsm.peer,
                    attr,
                },
            ),
            actions: seq![retry(Operation::Restart)].push(Action::StartTcp {  }),
        },
        Event::DelayOpenTimerExpires {  } => Step {
            next: State::OpenSent(
                Fsm {
                    state: OpenSent {
                        bgp_conn_handle: s.bgp_conn_handle,
                        bgp_out_tx: s.bgp_out_tx,
                        local_open: Some(open_of_conf(conf)),
                        remote_syn: true,
                        collision_conn: None,
                    },
                    peer: fsm.peer,
                    attr: no_delay(no_retry(attr)),
                },
            ),
            actions: seq![retry(Operation::Stop)].push(delay(Operation::Stop)) + send(
                s.bgp_out_tx,
                Message::Open(open_of_conf(conf)),
            ),
        },
        Event::TcpConnectionValid {  } | Event::TcpCRInvalid {  } => stay(State::Active(fsm)),
        Event::TcpCRAcked { conn } => active_conn(fsm, conn, false, conf),
        Event::TcpConnectionConfirmed { bgp_conn } => active_conn(fsm, bgp_conn, true, conf),
        Event::TcpConnectionFails { err } => early_end(
            fsm.peer,
            counted(no_delay(attr)),
            seq![retry(Operation::Restart)].push(delay(Operation::Stop)),
            None,
            s.bgp_conn_handle,
        ),
        Event::BGPOpenWithDelayOpenTimerRunning { msg, remote_syn } => delayed_open(
            fsm.peer,
            attr,
            None,
            s.bgp_conn_handle,
            true,
            msg,
            conf,
        ),
        Event::BGPHeaderErr { err } => early_refusal(
            fsm.peer,
            attr,
            err,
            None,
            s.bgp_conn_handle,
        ),
        Event::BGPOpenMsgErr { err } => early_refusal(
            fsm.peer,
            attr,
            err,
            None,
            s.bgp_conn_handle,
        ),
        Event::NotifyMsgVerErr { err } => early_version_refusal(
            fsm.peer,
            attr,
            None,
            s.bgp_conn_handle,
        ),
        _ => if is_start(event) {
            stay(State::Active(fsm))
        } else {
            let end = early_end(
                fsm.peer,
                counted(no_retry(attr)),
                seq![retry(Operation::Stop)],
                None,
                s.bgp_conn_handle,
            );
            Step { actions: end.actions + drop_conn(brought(event)), ..end }
        },
    }
}

/// Whether a session that waits goes on at that event.
pub open spec fn active_goes_on(fsm: Fsm<Active>, event: Event) -> bool {
    let attr = fsm.attr;
    let out = fsm.state.bgp_out_tx is Some;
    match event {
        Event::ManualStop {  } => attr.cur_hold_time != far_future()
            && attr.send_notification_without_open ==> out,
        Event::ConnectRetryTimerExpires {  } => true,
        Event::DelayOpenTimerExpires {  } => out,
        Event::TcpConnectionValid {  } => true,
        Event::TcpCRInvalid {  } => true,
        Event::TcpCRAcked { conn } => true,
        Event::TcpConnectionConfirmed { bgp_conn } => true,
        Event::BGPOpenWithDelayOpenTimerRunning { msg, remote_syn } => out,
        Event::BGPHeaderErr { err } => early_refusal_goes_on(attr, out),
        Event::BGPOpenMsgErr { err } => early_refusal_goes_on(attr, out),
        Event::NotifyMsgVerErr { err } => attr.cur_hold_time != far_future() || countable(attr),
        _ => is_start(event) || countable(attr),
    }
}

/// What the states behind a sent OPEN have in common.
#[derive(Clone, Copy)]
pub struct Link {
    pub peer: SocketAddr,
    pub attr: SessionAttributes,
    pub running: Option<ConnId>,
    pub colliding: Option<ConnId>,
}

/// A session behind a sent OPEN ends: the peer is told first if there is something to
/// tell, and what is left of the session is given up.
pub open spec fn link_end(link: Link, attr: SessionAttributes, told: Seq<Action>) -> Step {
    Step {
        next: idle(link.peer, no_retry(attr)),
        actions: told + seq![retry(Operation::Stop)] + abort_bgp(link.running) + drop_conn(
            link.colliding,
        ),
    }
}

/// A connection takes the place of another that collided before, which is closed.
pub open spec fn park(link: Link, next: State) -> Step {
    Step { next, actions: drop_conn(link.colliding) }
}

/// The colliding connection takes the place of the running one.
pub open spec fn take_over(link: Link, remote_syn: bool) -> Seq<Action> {
    match link.colliding {
        Some(conn) => release_bgp(link.running) + seq![Action::StartBgp { conn, remote_syn }],
        None => seq![],
    }
}

/// The parts of a session whose OPEN was sent that the states behind it have too.
pub open spec fn open_sent_link(fsm: Fsm<OpenSent>) -> Link {
    Link {
        peer: fsm.peer,
        attr: fsm.attr,
        running: fsm.state.bgp_conn_handle,
        colliding: fsm.state.collision_conn,
    }
}

/// An OPEN came in answer to the own. If it came on a connection of the other direction,
/// the two collide: the connection of the speaker with the larger identifier wins. If the
/// peer's wins, the running one is told to cease, and where the peer made the winning one
/// an OPEN is sent on it. The timers run for what is negotiated, the keepalive timer for
/// the interval that the session had before.
pub open spec fn open_sent_open(
    fsm: Fsm<OpenSent>,
    local: OpenMsg,
    msg: OpenMsg,
    remote_syn: bool,
    conf: Neighbor,
) -> Step {
    let s = fsm.state;
    let collides = s.remote_syn != remote_syn;
    let replaced = collides && local.bgp_identifier < msg.bgp_identifier;
    let running = if replaced {
        s.collision_conn
    } else {
        s.bgp_conn_handle
    };
    let resolved = if replaced {
        send(s.bgp_out_tx, notice(ErrorCode::Cease)) + take_over(open_sent_link(fsm), remote_syn)
            + if remote_syn {
            send(s.collision_conn, Message::Open(open_of_conf(conf)))
        } else {
            seq![]
        }
    } else if collides {
        drop_conn(s.collision_conn)
    } else {
        seq![]
    };
    let hold_time = negotiated(local, msg);
    let attr = no_retry(no_delay(fsm.attr));
    Step {
        next: State::OpenConfirm(
            Fsm {
                state: OpenConfirm {
                    bgp_conn_handle: running,
                    bgp_out_tx: running,
                    peer_open: Some(msg),
                    local_open: Some(local),
                    remote_syn: s.remote_syn,
                    collision_conn: if collides {
                        None
                    } else {
                        s.collision_conn
                    },
                },
                peer: fsm.peer,
                attr: timed(attr, hold_time),
            },
        ),
        actions: resolved + seq![delay(Operation::Stop)].push(retry(Operation::Stop))
            + start_timers(attr, hold_time),
    }
}

/// What a session does whose OPEN was sent.
pub open spec fn open_sent_step(
    fsm: Fsm<OpenSent>,
    event: Event,
    source: Source,
    conf: Neighbor,
) -> Step {
    let s = fsm.state;
    let attr = fsm.attr;
    let link = open_sent_link(fsm);
    match event {
        Event::ManualStop {  } => link_end(
            link,
            uncounted(attr),
            send(s.bgp_out_tx, notice(ErrorCode::Cease)),
        ),
        Event::AutomaticStop {  } => link_end(
            link,
            counted(attr),
            send(s.bgp_out_tx, notice(ErrorCode::Cease)),
        ),
        Event::HoldTimerExpires {  } => link_end(
            link,
            counted(attr),
            send(s.bgp_out_tx, notice(ErrorCode::HoldTimerExpired)),
        ),
        Event::TcpConnectionValid {  } | Event::TcpCRInvalid {  } => stay(State::OpenSent(fsm)),
        Event::TcpCRAcked { conn } => Step {
            next: State::OpenSent(fsm),
            actions: seq![Action::StartCollision { conn }],
        },
        Event::TcpConnectionConfirmed { bgp_conn } => park(
            link,
            State::OpenSent(
                Fsm { state: OpenSent { collision_conn: Some(bgp_conn), ..s }, ..fsm },
            ),
        ),
        Event::ProcessOneDone { conn } => park(
            link,
            State::OpenSent(Fsm { state: OpenSent { collision_conn: Some(conn), ..s }, ..fsm }),
        ),
        Event::TcpConnectionFails { err } => Step {
            next: State::Active(
                Fsm {
                    state: Active {
                        tcp_conn_handle: None,
                        bgp_conn_handle: None,
                        bgp_out_tx: None,
                    },
                    peer: fsm.peer,
                    attr,
                },
            ),
            actions: seq![retry(Operation::Restart)] + abort_bgp(s.bgp_conn_handle) + drop_conn(
                s.collision_conn,
            ),
        },
        Event::BGPOpen { msg, remote_syn } => open_sent_open(
            fsm,
            s.local_open->0,
            msg,
            remote_syn,
            conf,
        ),
        Event::BGPHeaderErr { err } => if source == Source::Bgp {
            link_end(link, counted(attr), send(s.bgp_out_tx, report(err)))
        } else {
            stay(State::OpenSent(fsm))
        },
        Event::BGPOpenMsgErr { err } => if source == Source::Bgp {
            link_end(link, counted(attr), send(s.bgp_out_tx, report(err)))
        } else {
            stay(State::OpenSent(fsm))
        },
        Event::NotifyMsgVerErr { err } => link_end(link, attr, seq![]),
        _ => if is_start(event) {
            stay(State::OpenSent(fsm))
        } else {
            link_end(
                link,
                attr,
                send(s.bgp_out_tx, notice(ErrorCode::FiniteStateMachineError)),
            )
        },
    }
}

/// Whether a session whose OPEN was sent goes on at that event.
pub open spec fn open_sent_goes_on(fsm: Fsm<OpenSent>, event: Event, source: Source) -> bool {
    let s = fsm.state;
    let out = s.bgp_out_tx is Some;
    match event {
        Event::ManualStop {  } => out,
        Event::AutomaticStop {  } => out && countable(fsm.attr),
        Event::HoldTimerExpires {  } => out && countable(fsm.attr),
        Event::TcpConnectionValid {  } => true,
        Event::TcpCRInvalid {  } => true,
        Event::TcpCRAcked { conn } => true,
        Event::TcpConnectionConfirmed { bgp_conn } => true,
        Event::ProcessOneDone { conn } => true,
        Event::TcpConnectionFails { err } => true,
        Event::BGPOpen { msg, remote_syn } => {
            &&& s.local_open is Some
            &&& s.remote_syn != remote_syn && s.local_open->0.bgp_identifier < msg.bgp_identifier
                ==> s.collision_conn is Some
        },
        Event::BGPHeaderErr { err } => source == Source::Bgp ==> out && countable(fsm.attr),
        Event::BGPOpenMsgErr { err } => source == Source::Bgp ==> out && countable(fsm.attr),
        Event::NotifyMsgVerErr { err } => true,
        _ => is_start(event) || out,
    }
}

/// The parts of a session whose OPEN was answered that the states around it have too.
pub open spec fn open_confirm_link(fsm: Fsm<OpenConfirm>) -> Link {
    Link {
        peer: fsm.peer,
        attr: fsm.attr,
        running: fsm.state.bgp_conn_handle,
        colliding: fsm.state.collision_conn,
    }
}

/// A second OPEN came, on a connection of the other direction: the connection of the
/// speaker with the larger identifier wins.
pub open spec fn open_confirm_open(fsm: Fsm<OpenConfirm>, msg: OpenMsg, remote_syn: bool) -> Step {
    let s = fsm.state;
    let replaced = s.local_open->0.bgp_identifier < msg.bgp_identifier;
    let running = if replaced {
        s.collision_conn
    } else {
        s.bgp_conn_handle
    };
    Step {
        next: State::OpenConfirm(
            Fsm {
                state: OpenConfirm {
                    bgp_conn_handle: running,
                    bgp_out_tx: running,
                    collision_conn: None,
                    ..s
                },
                ..fsm
            },
        ),
        actions: if replaced {
            take_over(open_confirm_link(fsm), remote_syn)
        } else {
            drop_conn(s.collision_conn)
        },
    }
}

/// What a session does whose OPEN was answered.
pub open spec fn open_confirm_step(fsm: Fsm<OpenConfirm>, event: Event, source: Source) -> Step {
    let s = fsm.state;
    let attr = fsm.attr;
    let link = open_confirm_link(fsm);
    match event {
        Event::ManualStop {  } => link_end(
            link,
            uncounted(attr),
            send(s.bgp_out_tx, notice(ErrorCode::Cease)),
        ),
        Event::AutomaticStop {  } => link_end(
            link,
            counted(attr),
            send(s.bgp_out_tx, notice(ErrorCode::Cease)),
        ),
        Event::HoldTimerExpires {  } => link_end(
            link,
            counted(attr),
            send(s.bgp_out_tx, notice(ErrorCode::HoldTimerExpired)),
        ),
        Event::KeepaliveTimerExpires {  } => Step {
            next: State::OpenConfirm(fsm),
            actions: send(s.bgp_out_tx, Message::Keepalive(KeepaliveMsg {  })).push(
                keepalive(Operation::Restart),
            ),
        },
        Event::TcpConnectionValid {  }
        | Event::TcpCRInvalid {  }
        | Event::OpenCollisionDump {  } => stay(State::OpenConfirm(fsm)),
        Event::TcpCRAcked { conn } => Step {
            next: State::OpenConfirm(fsm),
            actions: seq![Action::StartCollision { conn }],
        },
        Event::TcpConnectionConfirmed { bgp_conn } => park(
            link,
            State::OpenConfirm(
                Fsm { state: OpenConfirm { collision_conn: Some(bgp_conn), ..s }, ..fsm },
            ),
        ),
        Event::ProcessOneDone { conn } => park(
            link,
            State::OpenConfirm(
                Fsm { state: OpenConfirm { collision_conn: Some(conn), ..s }, ..fsm },
            ),
        ),
        Event::TcpConnectionFails { err } => link_end(link, counted(attr), seq![]),
        Event::NotifyMsgVerErr { err } => link_end(link, attr, seq![]),
        Event::BGPOpen { msg, remote_syn } => open_confirm_open(fsm, msg, remote_syn),
        Event::BGPHeaderErr { err } => if source == Source::Bgp {
            link_end(link, counted(attr), send(s.bgp_out_tx, report(err)))
        } else {
            stay(State::OpenConfirm(fsm))
        },
        Event::BGPOpenMsgErr { err } => if source == Source::Bgp {
            link_end(link, counted(attr), send(s.bgp_out_tx, report(err)))
        } else {
            stay(State::OpenConfirm(fsm))
        },
        Event::KeepaliveMsg {  } => Step {
            next: State::Established(
                Fsm {
                    state: Established {
                        bgp_conn_handle: s.bgp_conn_handle,
                        bgp_out_tx: s.bgp_out_tx,
                        local_open: s.local_open,
                        remote_syn: s.remote_syn,
                        collision_conn: s.collision_conn,
                    },
                    peer: fsm.peer,
                    attr,
                },
            ),
            actions: seq![hold(Operation::Restart)],
        },
        _ => if is_start(event) {
            stay(State::OpenConfirm(fsm))
        } else {
            link_end(
                link,
                counted(attr),
                send(s.bgp_out_tx, notice(ErrorCode::FiniteStateMachineError)),
            )
        },
    }
}

/// Whether a session whose OPEN was answered goes on at that event.
pub open spec fn open_confirm_goes_on(fsm: Fsm<OpenConfirm>, event: Event, source: Source) -> bool {
    let s = fsm.state;
    match event {
        Event::ManualStop {  } => true,
        Event::KeepaliveTimerExpires {  } => true,
        Event::TcpConnectionValid {  } => true,
        Event::TcpCRInvalid {  } => true,
        Event::OpenCollisionDump {  } => true,
        Event::TcpCRAcked { conn } => true,
        Event::TcpConnectionConfirmed { bgp_conn } => true,
        Event::ProcessOneDone { conn } => true,
        Event::NotifyMsgVerErr { err } => true,
        Event::KeepaliveMsg {  } => true,
        Event::BGPOpen { msg, remote_syn } => {
            &&& s.remote_syn != remote_syn
            &&& s.local_open->0.bgp_identifier < msg.bgp_identifier ==> s.collision_conn is Some
        },
        Event::BGPHeaderErr { err } => source == Source::Bgp ==> countable(fsm.attr),
        Event::BGPOpenMsgErr { err } => source == Source::Bgp ==> countable(fsm.attr),
        _ => is_start(event) || countable(fsm.attr),
    }
}

/// The parts of a session that is up that the states before it have too.
pub open spec fn established_link(fsm: Fsm<Established>) -> Link {
    Link {
        peer: fsm.peer,
        attr: fsm.attr,
        running: fsm.state.bgp_conn_handle,
        colliding: fsm.state.collision_conn,
    }
}

/// An OPEN came on a connection of the other direction. Only if collisions are looked for
/// in this state, and the peer has the larger identifier, does its connection win; the
/// running one is then told to cease.
pub open spec fn established_open(fsm: Fsm<Established>, msg: OpenMsg, remote_syn: bool) -> Step {
    let s = fsm.state;
    let replaced = fsm.attr.collision_detect_established_state && s.local_open->0.bgp_identifier
        < msg.bgp_identifier;
    let running = if replaced {
        s.collision_conn
    } else {
        s.bgp_conn_handle
    };
    Step {
        next: State::Established(
            Fsm {
                state: Established {
                    bgp_conn_handle: running,
                    bgp_out_tx: running,
                    collision_conn: None,
                    ..s
                },
                ..fsm
            },
        ),
        actions: if replaced {
            send(s.bgp_out_tx, notice(ErrorCode::Cease)) + take_over(
                established_link(fsm),
                remote_syn,
            )
        } else {
            drop_conn(s.collision_conn)
        },
    }
}

/// What a session does that is up.
pub open spec fn established_step(fsm: Fsm<Established>, event: Event) -> Step {
    let s = fsm.state;
    let attr = fsm.attr;
    let link = established_link(fsm);
    match event {
        Event::ManualStop {  } => link_end(
            link,
            uncounted(attr),
            send(s.bgp_out_tx, notice(ErrorCode::Cease)),
        ),
        Event::AutomaticStop {  } => link_end(
            link,
            counted(attr),
            send(s.bgp_out_tx, notice(ErrorCode::Cease)),
        ),
        Event::HoldTimerExpires {  } => link_end(
            link,
            counted(attr),
            send(s.bgp_out_tx, notice(ErrorCode::HoldTimerExpired)),
        ),
        Event::KeepaliveTimerExpires {  } => Step {
            next: State::Established(fsm),
            actions: send(s.bgp_out_tx, Message::Keepalive(KeepaliveMsg {  })) + if attr.hold_time
                != Duration::zero() {
                seq![keepalive(Operation::Restart)]
            } else {
                seq![]
            },
        },
        Event::TcpConnectionValid {  } | Event::TcpCRInvalid {  } => stay(State::Established(fsm)),
        Event::TcpCRAcked { conn } => Step {
            next: State::Established(fsm),
            actions: seq![Action::StartCollision { conn }],
        },
        Event::TcpConnectionConfirmed { bgp_conn } => park(
            link,
            State::Established(
                Fsm { state: Established { collision_conn: Some(bgp_conn), ..s }, ..fsm },
            ),
        ),
        Event::ProcessOneDone { conn } => park(
            link,
            State::Established(
                Fsm { state: Established { collision_conn: Some(conn), ..s }, ..fsm },
            ),
        ),
        Event::BGPOpen { msg, remote_syn } => established_open(fsm, msg, remote_syn),
        Event::NotifyMsgVerErr { err } => link_end(link, counted(attr), seq![]),
        Event::NotifyMsg { err } => link_end(link, counted(attr), seq![]),
        Event::TcpConnectionFails { err } => link_end(link, counted(attr), seq![]),
        Event::KeepaliveMsg {  } => Step {
            next: State::Established(fsm),
            actions: seq![hold(Operation::Restart)],
        },
        Event::UpdateMsg { msg } => Step {
            next: State::Established(fsm),
            actions: seq![hold(Operation::Restart)],
        },
        Event::UpdateMsgErr { err } => link_end(
            link,
            counted(attr),
            send(s.bgp_out_tx, report(err)),
        ),
        _ => if is_start(event) {
            stay(State::Established(fsm))
        } else {
            link_end(
                link,
                counted(attr),
                send(s.bgp_out_tx, notice(ErrorCode::FiniteStateMachineError)),
            )
        },
    }
}

/// Whether a session that is up goes on at that event.
pub open spec fn established_goes_on(fsm: Fsm<Established>, event: Event) -> bool {
    let s = fsm.state;
    match event {
        Event::ManualStop {  } => true,
        Event::KeepaliveTimerExpires {  } => true,
        Event::TcpConnectionValid {  } => true,
        Event::TcpCRInvalid {  } => true,
        Event::TcpCRAcked { conn } => true,
        Event::TcpConnectionConfirmed { bgp_conn } => true,
        Event::ProcessOneDone { conn } => true,
        Event::KeepaliveMsg {  } => true,
        Event::UpdateMsg { msg } => true,
        Event::BGPOpen { msg, remote_syn } => {
            &&& s.remote_syn != remote_syn
            &&& fsm.attr.collision_detect_established_state && s.local_open->0.bgp_identifier
                < msg.bgp_identifier ==> s.collision_conn is Some
        },
        _ => is_start(event) || countable(fsm.attr),
    }
}

impl State {
    /// One connection both runs and takes messages. A session that waits tries none. One
    /// that has an OPEN of its own to show has a connection, and a session whose OPEN was
    /// answered has both.
    pub open spec fn wf(self) -> bool {
        match self {
            State::Idle(fsm) => true,
            State::Connect(fsm) => fsm.state.bgp_conn_handle == fsm.state.bgp_out_tx,
            State::Active(fsm) => {
                &&& fsm.state.bgp_conn_handle == fsm.state.bgp_out_tx
                &&& fsm.state.tcp_conn_handle is None
            },
            State::OpenSent(fsm) => {
                &&& fsm.state.bgp_conn_handle == fsm.state.bgp_out_tx
                &&& fsm.state.local_open is Some ==> fsm.state.bgp_out_tx is Some
            },
            State::OpenConfirm(fsm) => {
                &&& fsm.state.bgp_conn_handle == fsm.state.bgp_out_tx
                &&& fsm.state.bgp_out_tx is Some
                &&& fsm.state.local_open is Some
            },
            State::Established(fsm) => {
                &&& fsm.state.bgp_conn_handle == fsm.state.bgp_out_tx
                &&& fsm.state.bgp_out_tx is Some
                &&& fsm.state.local_open is Some
            },
        }
    }

    /// Whether the session goes on at that event. Where it does not, it lacks the
    /// connection or the OPEN that it would need, a second OPEN came from the same
    /// direction, or the retries cannot be counted any further.
    pub open spec fn goes_on(self, event: Event, source: Source) -> bool {
        match self {
            State::Idle(fsm) => true,
            State::Connect(fsm) => connect_goes_on(fsm, event),
            State::Active(fsm) => active_goes_on(fsm, event),
            State::OpenSent(fsm) => open_sent_goes_on(fsm, event, source),
            State::OpenConfirm(fsm) => open_confirm_goes_on(fsm, event, source),
            State::Established(fsm) => established_goes_on(fsm, event),
        }
    }

    /// What the session does on that event from that source.
    pub open spec fn stepped(self, event: Event, source: Source, conf: Neighbor) -> Step {
        match self {
            State::Idle(fsm) => idle_step(fsm, event),
            State::Connect(fsm) => connect_step(fsm, event, conf),
            State::Active(fsm) => active_step(fsm, event, conf),
            State::OpenSent(fsm) => open_sent_step(fsm, event, source, conf),
            State::OpenConfirm(fsm) => open_confirm_step(fsm, event, source),
            State::Established(fsm) => established_step(fsm, event),
        }
    }
}

} // verus!
