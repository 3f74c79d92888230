use bgp::config::{
    Bgp, BgpCommonNeighborGroupTimersConfig, BgpNeighborBaseConfig, BgpNeighborBaseTimers,
    Neighbor, PeerType,
};
use bgp::error::{Error, ErrorCode, ErrorSubCode, MsgHeaderErrorSubcode, UpdateMsgErrorSubcode};
use bgp::fsm::{
    dflt_bgp_holdtime, dflt_bgp_keepalive, dflt_bgp_timers_connect, far_future, next_duration,
    woken, ConnId, Event, Operation, SessionAttributes, State, Timer, TimerKind, Wake,
};
use bgp::message::{Message, OpenMsg};
use bgp::net::{IpAddr, Ipv4Addr, SocketAddr};
use bgp::open::OptParams;
use bgp::time::Duration;
use bgp::transition::{Action, Source};
use bgp::update::UpdateMsg;

const A: ConnId = ConnId { id: 1 };
const B: ConnId = ConnId { id: 2 };

fn address() -> IpAddr {
    IpAddr::V4(Ipv4Addr::new(10, 0, 0, 2))
}

/// The neighbor of a speaker with the identifier 10.0.0.1 and a hold time of 90 seconds.
fn neighbor() -> Neighbor {
    Neighbor {
        neighbor_address: address(),
        config: BgpNeighborBaseConfig {
            router_id: Ipv4Addr::new(10, 0, 0, 1),
            peer_group: String::new(),
            neighbor_address: address(),
            neighbor_port: 179,
            enabled: true,
            peer_as: 65001,
            local_as: 65536,
            peer_type: PeerType::External,
        },
        timers: BgpNeighborBaseTimers {
            config: BgpCommonNeighborGroupTimersConfig {
                connect_retry: 120,
                hold_time: 90,
                keepalive_internal: 30,
                minimum_advertisement_interval: 30,
                restart_time: 120,
            },
        },
    }
}

fn open(identifier: u32, hold_time: u16) -> OpenMsg {
    OpenMsg {
        version: 4,
        as_number: 65001,
        hold_time,
        bgp_identifier: identifier,
        ext_opt_param: false,
        opt_params_len: 0,
        opt_params: OptParams { mp_ext_caps: None, four_octet_as_cap: None },
    }
}

fn new_session() -> State {
    State::new(SocketAddr { ip: address(), port: 179 })
}

/// What a session does on an event that it goes on at.
fn step(state: State, event: Event, source: Source) -> (State, Vec<Action>) {
    assert!(state.accepts(&event, source));
    state.step(event, source, &neighbor())
}

fn next(state: State, event: Event) -> State {
    step(state, event, Source::Admin).0
}

fn set(state: State, f: fn(&mut SessionAttributes)) -> State {
    match state {
        State::Idle(mut fsm) => {
            f(&mut fsm.attr);
            State::Idle(fsm)
        }
        State::Established(mut fsm) => {
            f(&mut fsm.attr);
            State::Established(fsm)
        }
        _ => panic!("not set here"),
    }
}

/// A session that waits and delays its OPEN.
fn delaying() -> State {
    set(new_session(), |attr| {
        attr.delay_open = true;
        attr.delay_open_time = Duration::from_secs(5);
    })
}

/// A session on connection `A`, which the peer made, whose own OPEN was sent after a delay.
fn open_sent() -> State {
    let s = next(delaying(), Event::ManualStartWithPassiveTcpEstablishment {});
    let s = next(s, Event::TcpConnectionConfirmed { bgp_conn: A });
    next(s, Event::DelayOpenTimerExpires {})
}

fn open_confirm() -> State {
    next(open_sent(), Event::BGPOpen { msg: open(7, 60), remote_syn: true })
}

fn established() -> State {
    next(open_confirm(), Event::KeepaliveMsg {})
}

fn kinds(actions: &[Action]) -> Vec<String> {
    actions
        .iter()
        .map(|a| match a {
            Action::SetTimer { timer } => {
                let (kind, op) = timer.route();
                match op {
                    Operation::Stop => format!("stop {:?}", kind),
                    Operation::Restart => format!("restart {:?}", kind),
                    Operation::Update { duration } => format!("set {:?} {}", kind, duration.secs),
                }
            }
            Action::StartTcp {} => format!("try"),
            Action::AbortTcp {} => format!("give up"),
            Action::ReleaseTcp {} => format!("forget"),
            Action::StartBgp { conn, remote_syn } => format!("run {} {}", conn.id, remote_syn),
            Action::AbortBgp { conn } => format!("abort {}", conn.id),
            Action::ReleaseBgp { conn } => format!("release {}", conn.id),
            Action::Send { conn, msg } => match msg {
                Message::Open(_) => format!("open {}", conn.id),
                Message::Keepalive(_) => format!("keepalive {}", conn.id),
                Message::Notification(n) => {
                    format!("notify {} {} {}", conn.id, n.error_code, n.error_subcode)
                }
                Message::Update(_) => format!("update {}", conn.id),
            },
            Action::StartCollision { conn } => format!("collide {}", conn.id),
            Action::DropConn { conn } => format!("drop {}", conn.id),
        })
        .collect()
}

#[test]
fn new_session_is_idle() {
    let s = new_session();
    let attr = *s.get_attr();
    assert!(matches!(s, State::Idle(_)));
    assert_eq!(attr, SessionAttributes::new());
    assert_eq!(attr.connect_retry_counter, 0);
    assert_eq!(attr.connect_retry_time, dflt_bgp_timers_connect());
    assert_eq!(attr.hold_time, dflt_bgp_holdtime());
    assert_eq!(attr.keepalive_time, dflt_bgp_keepalive());
    assert_eq!(attr.cur_hold_time, far_future());
    assert_eq!(attr.delay_open_time, Duration::zero());
}

#[test]
fn idle_session_starts() {
    let (s, actions) = step(new_session(), Event::ManualStart {}, Source::Admin);
    let secs = dflt_bgp_timers_connect().secs;
    assert_eq!(kinds(&actions), vec![format!("set ConnectRetry {}", secs), format!("try")]);
    assert!(matches!(s, State::Connect(ref f) if f.state.tcp_conn_handle.is_some()));
    assert_eq!(s.get_attr().cur_connect_retry_time, dflt_bgp_timers_connect());

    let (s, actions) =
        step(new_session(), Event::AutomaticStartWithPassiveTcpEstablishment {}, Source::Admin);
    assert_eq!(actions.len(), 1);
    assert!(matches!(s, State::Active(_)));
}

#[test]
fn idle_session_closes_connections() {
    let (s, actions) =
        step(new_session(), Event::TcpConnectionConfirmed { bgp_conn: A }, Source::Admin);
    assert!(matches!(s, State::Idle(_)));
    assert_eq!(kinds(&actions), vec!["drop 1"]);
    let (s, actions) =
        step(s, Event::AutomaticStartWithDampPeerOscillations {}, Source::Admin);
    assert!(matches!(s, State::Idle(_)) && actions.is_empty());
}

#[test]
fn connecting_session_sends_its_open() {
    let s = next(new_session(), Event::ManualStart {});
    let (s, actions) = step(s, Event::TcpCRAcked { conn: A }, Source::Tcp);
    assert_eq!(
        kinds(&actions),
        vec!["stop ConnectRetry", "run 1 false", "open 1", "forget"]
    );
    match &actions[2] {
        Action::Send { msg: Message::Open(open), .. } => {
            assert_eq!(open.version, 4);
            assert_eq!(open.as_number, 23456);
            assert_eq!(open.hold_time, 90);
            assert_eq!(open.bgp_identifier, 0x0a00_0001);
            assert_eq!(open.opt_params_len, 0);
        }
        a => panic!("{:?}", a),
    }
    match s {
        State::OpenSent(f) => {
            assert!(f.state.bgp_out_tx == Some(A) && f.state.local_open.is_none());
            assert!(!f.state.remote_syn);
        }
        _ => panic!("not sent"),
    }
}

#[test]
fn connecting_session_delays_its_open() {
    let s = next(delaying(), Event::ManualStart {});
    let (s, actions) = step(s, Event::TcpCRAcked { conn: A }, Source::Tcp);
    assert_eq!(kinds(&actions), vec!["stop ConnectRetry", "run 1 false", "set DelayOpen 5"]);
    assert_eq!(s.get_attr().cur_delay_open_time, Duration::from_secs(5));
    let (s, actions) = step(
        s,
        Event::BGPOpenWithDelayOpenTimerRunning { msg: open(9, 10), remote_syn: false },
        Source::Bgp,
    );
    assert_eq!(
        kinds(&actions),
        vec![
            "stop ConnectRetry",
            "stop DelayOpen",
            "forget",
            "open 1",
            "keepalive 1",
            "set Keepalive 3",
            "set Hold 10",
        ]
    );
    assert_eq!(s.get_attr().keepalive_time, Duration { secs: 3, nanos: 333_333_333 });
    assert_eq!(s.get_attr().hold_time, Duration::from_secs(10));
    assert!(matches!(s, State::OpenConfirm(ref f) if f.state.bgp_out_tx == Some(A)));
}

#[test]
fn connecting_session_sends_a_delayed_open() {
    let s = next(delaying(), Event::ManualStart {});
    assert!(!s.accepts(&Event::DelayOpenTimerExpires {}, Source::Timer));
    let s = next(s, Event::TcpCRAcked { conn: A });
    let attr = *s.get_attr();
    let (s, actions) = step(s, Event::DelayOpenTimerExpires {}, Source::Timer);
    assert_eq!(kinds(&actions), vec!["forget", "open 1"]);
    assert_eq!(*s.get_attr(), attr);
    match s {
        State::OpenSent(f) => {
            assert!(f.state.bgp_conn_handle == Some(A) && f.state.bgp_out_tx == Some(A));
            assert_eq!(f.state.local_open.unwrap().hold_time, 90);
            assert!(!f.state.remote_syn);
        }
        _ => panic!("not sent"),
    }
}

#[test]
fn hold_time_of_zero_means_no_timers() {
    let (s, actions) =
        step(open_sent(), Event::BGPOpen { msg: open(7, 0), remote_syn: true }, Source::Bgp);
    assert_eq!(
        kinds(&actions),
        vec!["stop DelayOpen", "stop ConnectRetry", "stop Keepalive", "stop Hold"]
    );
    assert_eq!(s.get_attr().hold_time, Duration::zero());
    assert_eq!(s.get_attr().cur_hold_time, far_future());
    assert_eq!(s.get_attr().cur_keepalive_time, far_future());
    let s = next(s, Event::KeepaliveMsg {});
    let (s, actions) = step(s, Event::KeepaliveTimerExpires {}, Source::Timer);
    assert_eq!(kinds(&actions), vec!["keepalive 1"]);
    assert!(matches!(s, State::Established(_)));

    let s = next(delaying(), Event::ManualStart {});
    let s = next(s, Event::TcpCRAcked { conn: A });
    let msg = open(9, 0);
    let (s, actions) = step(
        s,
        Event::BGPOpenWithDelayOpenTimerRunning { msg, remote_syn: false },
        Source::Bgp,
    );
    assert_eq!(&kinds(&actions)[5..], &["stop Keepalive", "stop Hold"]);
    assert_eq!(s.get_attr().keepalive_time, far_future());
}

#[test]
fn delay_that_the_peer_causes_is_not_noted() {
    let s = next(delaying(), Event::ManualStart {});
    let (s, actions) = step(s, Event::TcpConnectionConfirmed { bgp_conn: A }, Source::Admin);
    assert_eq!(kinds(&actions), vec!["stop ConnectRetry", "run 1 true", "set DelayOpen 5"]);
    assert_eq!(s.get_attr().cur_delay_open_time, far_future());
}

#[test]
fn connecting_session_tries_again() {
    let s = next(new_session(), Event::ManualStart {});
    let (s, actions) = step(s, Event::ConnectRetryTimerExpires {}, Source::Timer);
    assert_eq!(
        kinds(&actions),
        vec!["give up", "restart ConnectRetry", "stop DelayOpen", "try"]
    );
    let err = Error::from(std::io::Error::from(std::io::ErrorKind::ConnectionRefused));
    let (s, actions) = step(s, Event::TcpConnectionFails { err }, Source::Tcp);
    assert_eq!(kinds(&actions), vec!["stop ConnectRetry", "give up"]);
    assert!(matches!(s, State::Idle(_)));
}

#[test]
fn connecting_session_that_fails_while_it_delays_waits() {
    let s = next(delaying(), Event::ManualStart {});
    let s = next(s, Event::TcpCRAcked { conn: A });
    let err = Error::from(std::io::Error::from(std::io::ErrorKind::ConnectionReset));
    let (s, actions) = step(s, Event::TcpConnectionFails { err }, Source::Tcp);
    assert_eq!(
        kinds(&actions),
        vec!["restart ConnectRetry", "stop DelayOpen", "give up"]
    );
    assert!(matches!(s, State::Active(ref f) if f.state.bgp_conn_handle == Some(A)));
}

#[test]
fn connecting_session_ends_on_anything_else() {
    let s = next(new_session(), Event::ManualStart {});
    let (s, actions) = step(s, Event::AutomaticStart {}, Source::Admin);
    assert_eq!(kinds(&actions), vec!["stop ConnectRetry", "stop DelayOpen", "give up"]);
    assert!(matches!(s, State::Idle(_)));
    assert_eq!(s.get_attr().connect_retry_counter, 1);
}

#[test]
fn refusal_before_an_open() {
    let err = || Error::new_header(MsgHeaderErrorSubcode::BadMessageLength, None);
    let told = set(delaying(), |attr| attr.send_notification_without_open = true);
    let s = next(told, Event::ManualStart {});
    assert!(!s.accepts(&Event::BGPHeaderErr { err: err() }, Source::Bgp));
    let s = next(s, Event::TcpCRAcked { conn: A });
    let (s, actions) = step(s, Event::BGPHeaderErr { err: err() }, Source::Bgp);
    assert_eq!(
        kinds(&actions),
        vec!["notify 1 1 2", "stop ConnectRetry", "give up", "abort 1"]
    );
    assert_eq!(s.get_attr().connect_retry_counter, 1);

    let s = next(delaying(), Event::ManualStart {});
    let s = next(s, Event::TcpCRAcked { conn: A });
    let (_, actions) = step(s, Event::BGPOpenMsgErr { err: err() }, Source::Bgp);
    assert_eq!(kinds(&actions), vec!["stop ConnectRetry", "give up", "abort 1"]);
}

#[test]
fn version_refusal_before_an_open() {
    let err = || Error::new(ErrorCode::OpenMessageError, ErrorSubCode::Undefined, None);
    let s = next(new_session(), Event::ManualStart {});
    let (s, actions) = step(s, Event::NotifyMsgVerErr { err: err() }, Source::Bgp);
    assert_eq!(kinds(&actions), vec!["stop ConnectRetry", "give up"]);
    assert_eq!(s.get_attr().connect_retry_counter, 1);
    let held = set(new_session(), |attr| attr.cur_hold_time = Duration::from_secs(9));
    let s = next(held, Event::ManualStart {});
    let (s, actions) = step(s, Event::NotifyMsgVerErr { err: err() }, Source::Bgp);
    assert_eq!(kinds(&actions), vec!["stop ConnectRetry", "give up", "stop DelayOpen"]);
    assert_eq!(s.get_attr().connect_retry_counter, 0);
}

#[test]
fn waiting_session_delays_and_opens() {
    let s = next(delaying(), Event::ManualStartWithPassiveTcpEstablishment {});
    let (s, actions) = step(s, Event::TcpConnectionConfirmed { bgp_conn: A }, Source::Admin);
    assert_eq!(kinds(&actions), vec!["stop ConnectRetry", "run 1 true", "set DelayOpen 5"]);
    let (s, actions) = step(s, Event::TcpConnectionConfirmed { bgp_conn: B }, Source::Admin);
    assert_eq!(
        kinds(&actions),
        vec!["stop ConnectRetry", "release 1", "run 2 true", "set DelayOpen 5"]
    );
    let (s, actions) = step(s, Event::DelayOpenTimerExpires {}, Source::Timer);
    assert_eq!(kinds(&actions), vec!["stop ConnectRetry", "stop DelayOpen", "open 2"]);
    assert!(matches!(s, State::OpenSent(ref f) if f.state.local_open.is_some()));
}

#[test]
fn waiting_session_sends_its_open() {
    let s = next(new_session(), Event::ManualStartWithPassiveTcpEstablishment {});
    let (s, actions) = step(s, Event::TcpConnectionConfirmed { bgp_conn: A }, Source::Admin);
    assert_eq!(kinds(&actions), vec!["stop ConnectRetry", "run 1 true", "open 1"]);
    assert!(!s.accepts(&Event::BGPOpen { msg: open(7, 60), remote_syn: true }, Source::Bgp));
    assert!(matches!(s, State::OpenSent(ref f) if f.state.remote_syn));
}

#[test]
fn waiting_session_connects() {
    let s = next(new_session(), Event::ManualStartWithPassiveTcpEstablishment {});
    let (s, actions) = step(s, Event::ConnectRetryTimerExpires {}, Source::Timer);
    assert_eq!(kinds(&actions), vec!["restart ConnectRetry", "try"]);
    assert!(matches!(s, State::Connect(_)));
}

#[test]
fn starts_are_ignored() {
    let waiting = next(new_session(), Event::ManualStartWithPassiveTcpEstablishment {});
    for s in [waiting, open_sent(), open_confirm(), established()] {
        let before = std::mem::discriminant(&s);
        let attr = *s.get_attr();
        let (s, actions) = step(s, Event::ManualStart {}, Source::Admin);
        assert!(actions.is_empty());
        assert_eq!(std::mem::discriminant(&s), before);
        assert_eq!(*s.get_attr(), attr);
    }
}

#[test]
fn manual_stop_ends_a_session() {
    let waiting = next(new_session(), Event::ManualStartWithPassiveTcpEstablishment {});
    let connecting = next(new_session(), Event::ManualStart {});
    for (s, expected) in [
        (connecting, vec!["give up", "stop ConnectRetry"]),
        (waiting, vec!["stop ConnectRetry"]),
        (open_sent(), vec!["notify 1 6 0", "stop ConnectRetry", "abort 1"]),
        (open_confirm(), vec!["notify 1 6 0", "stop ConnectRetry", "abort 1"]),
        (established(), vec!["notify 1 6 0", "stop ConnectRetry", "abort 1"]),
    ] {
        let (s, actions) = step(s, Event::ManualStop {}, Source::Admin);
        assert_eq!(kinds(&actions), expected);
        assert!(matches!(s, State::Idle(_)));
        assert_eq!(s.get_attr().connect_retry_counter, 0);
        assert_eq!(s.get_attr().cur_connect_retry_time, far_future());
    }
}

#[test]
fn open_is_answered() {
    let (s, actions) =
        step(open_sent(), Event::BGPOpen { msg: open(7, 60), remote_syn: true }, Source::Bgp);
    assert_eq!(
        kinds(&actions),
        vec![
            format!("stop DelayOpen"),
            format!("stop ConnectRetry"),
            format!("set Keepalive {}", dflt_bgp_keepalive().secs),
            format!("set Hold 60"),
        ]
    );
    assert_eq!(s.get_attr().hold_time, Duration::from_secs(60));
    assert_eq!(s.get_attr().cur_hold_time, Duration::from_secs(60));
    match s {
        State::OpenConfirm(f) => {
            assert_eq!(f.state.peer_open.unwrap().bgp_identifier, 7);
            assert_eq!(f.state.local_open.unwrap().hold_time, 90);
        }
        _ => panic!("not answered"),
    }
}

#[test]
fn collision_that_the_peer_wins() {
    let (s, actions) = step(open_sent(), Event::TcpCRAcked { conn: B }, Source::Tcp);
    assert_eq!(kinds(&actions), vec!["collide 2"]);
    let (s, actions) = step(s, Event::ProcessOneDone { conn: B }, Source::Coll);
    assert!(actions.is_empty());
    let msg = open(0x0a00_0002, 60);
    let (s, actions) = step(s, Event::BGPOpen { msg, remote_syn: false }, Source::Coll);
    assert_eq!(
        &kinds(&actions)[..3],
        &["notify 1 6 0", "release 1", "run 2 false"]
    );
    assert!(matches!(s, State::OpenConfirm(ref f) if f.state.bgp_out_tx == Some(B)
        && f.state.collision_conn.is_none()));
}

#[test]
fn collision_that_the_peer_loses() {
    let s = next(open_sent(), Event::ProcessOneDone { conn: B });
    let msg = open(0x0a00_0001, 60);
    let (s, actions) = step(s, Event::BGPOpen { msg, remote_syn: false }, Source::Coll);
    assert_eq!(kinds(&actions)[0], "drop 2");
    assert!(matches!(s, State::OpenConfirm(ref f) if f.state.bgp_out_tx == Some(A)));
}

#[test]
fn collision_without_a_connection() {
    let event = Event::BGPOpen { msg: open(u32::MAX, 60), remote_syn: false };
    assert!(!open_sent().accepts(&event, Source::Coll));
    assert!(!open_confirm().accepts(&event, Source::Coll));
    let event = Event::BGPOpen { msg: open(1, 60), remote_syn: false };
    assert!(open_sent().accepts(&event, Source::Coll));
}

#[test]
fn collision_after_the_answer() {
    let s = next(open_confirm(), Event::TcpConnectionConfirmed { bgp_conn: B });
    let (s, actions) = step(
        s,
        Event::BGPOpen { msg: open(u32::MAX, 60), remote_syn: false },
        Source::Coll,
    );
    assert_eq!(kinds(&actions), vec!["release 1", "run 2 false"]);
    assert!(matches!(s, State::OpenConfirm(ref f) if f.state.bgp_conn_handle == Some(B)));
    assert!(!s.accepts(&Event::BGPOpen { msg: open(7, 60), remote_syn: true }, Source::Bgp));
}

#[test]
fn colliding_connection_is_replaced() {
    let s = next(open_sent(), Event::ProcessOneDone { conn: B });
    let (s, actions) = step(s, Event::ProcessOneDone { conn: ConnId { id: 3 } }, Source::Coll);
    assert_eq!(kinds(&actions), vec!["drop 2"]);
    let (_, actions) = step(s, Event::AutomaticStop {}, Source::Admin);
    assert_eq!(
        kinds(&actions),
        vec!["notify 1 6 0", "stop ConnectRetry", "abort 1", "drop 3"]
    );
}

#[test]
fn errors_of_a_colliding_connection_are_ignored() {
    for s in [open_sent(), open_confirm()] {
        let err = Error::new_header(MsgHeaderErrorSubcode::ConnectionNotSync, None);
        let (_, actions) = step(s, Event::BGPHeaderErr { err }, Source::Coll);
        assert!(actions.is_empty());
    }
}

#[test]
fn errors_of_the_running_connection_are_reported() {
    for s in [open_sent(), open_confirm()] {
        let err = Error::new_header(MsgHeaderErrorSubcode::BadMessageType, None);
        let (s, actions) = step(s, Event::BGPHeaderErr { err }, Source::Bgp);
        assert_eq!(kinds(&actions), vec!["notify 1 1 3", "stop ConnectRetry", "abort 1"]);
        assert_eq!(s.get_attr().connect_retry_counter, 1);
    }
    let err = Error::new_header(MsgHeaderErrorSubcode::BadMessageType, None);
    let (_, actions) = step(established(), Event::BGPHeaderErr { err }, Source::Bgp);
    assert_eq!(kinds(&actions)[0], "notify 1 5 0");
    let err = Error::new_update(UpdateMsgErrorSubcode::MalformedAsPath, Some(vec![1]));
    let (s, actions) = step(established(), Event::UpdateMsgErr { err }, Source::Bgp);
    assert_eq!(kinds(&actions), vec!["notify 1 3 11", "stop ConnectRetry", "abort 1"]);
    assert!(matches!(s, State::Idle(_)));
}

#[test]
fn hold_timer_ends_a_session() {
    for s in [open_sent(), open_confirm(), established()] {
        let (s, actions) = step(s, Event::HoldTimerExpires {}, Source::Timer);
        assert_eq!(kinds(&actions), vec!["notify 1 4 0", "stop ConnectRetry", "abort 1"]);
        assert!(matches!(s, State::Idle(_)));
        assert_eq!(s.get_attr().connect_retry_counter, 1);
    }
}

#[test]
fn keepalives() {
    for s in [open_confirm(), established()] {
        let (_, actions) = step(s, Event::KeepaliveTimerExpires {}, Source::Timer);
        assert_eq!(kinds(&actions), vec!["keepalive 1", "restart Keepalive"]);
    }
    let (s, actions) = step(open_confirm(), Event::KeepaliveMsg {}, Source::Bgp);
    assert_eq!(kinds(&actions), vec!["restart Hold"]);
    assert!(matches!(s, State::Established(ref f) if f.state.bgp_out_tx == Some(A)));
    let (s, actions) = step(s, Event::KeepaliveMsg {}, Source::Bgp);
    assert_eq!(kinds(&actions), vec!["restart Hold"]);
    assert!(matches!(s, State::Established(_)));
}

#[test]
fn updates_keep_a_session_up() {
    let msg = UpdateMsg { withdrawn_routes: vec![], path_attributes: vec![], nlri: vec![] };
    let (s, actions) = step(established(), Event::UpdateMsg { msg: msg.clone() }, Source::Bgp);
    assert_eq!(kinds(&actions), vec!["restart Hold"]);
    assert!(matches!(s, State::Established(_)));
    let (s, actions) = step(open_confirm(), Event::UpdateMsg { msg }, Source::Bgp);
    assert_eq!(kinds(&actions), vec!["notify 1 5 0", "stop ConnectRetry", "abort 1"]);
    assert_eq!(s.get_attr().connect_retry_counter, 1);
}

#[test]
fn established_session_looks_for_collisions_if_told_to() {
    let msg = || open(u32::MAX, 60);
    let s = next(established(), Event::ProcessOneDone { conn: B });
    let (s, actions) = step(s, Event::BGPOpen { msg: msg(), remote_syn: false }, Source::Coll);
    assert_eq!(kinds(&actions), vec!["drop 2"]);
    assert!(matches!(s, State::Established(ref f) if f.state.bgp_conn_handle == Some(A)));

    let s = set(s, |attr| attr.collision_detect_established_state = true);
    let s = next(s, Event::ProcessOneDone { conn: B });
    let (s, actions) = step(s, Event::BGPOpen { msg: msg(), remote_syn: false }, Source::Coll);
    assert_eq!(kinds(&actions), vec!["notify 1 6 0", "release 1", "run 2 false"]);
    assert!(matches!(s, State::Established(ref f) if f.state.bgp_conn_handle == Some(B)));
}

#[test]
fn connection_that_fails() {
    let err = || Error::from(std::io::Error::from(std::io::ErrorKind::ConnectionReset));
    let (s, actions) = step(open_sent(), Event::TcpConnectionFails { err: err() }, Source::Tcp);
    assert_eq!(kinds(&actions), vec!["restart ConnectRetry", "abort 1"]);
    assert!(matches!(s, State::Active(ref f) if f.state.bgp_conn_handle.is_none()));
    for s in [open_confirm(), established()] {
        let (s, actions) = step(s, Event::TcpConnectionFails { err: err() }, Source::Tcp);
        assert_eq!(kinds(&actions), vec!["stop ConnectRetry", "abort 1"]);
        assert!(matches!(s, State::Idle(_)));
    }
}

#[test]
fn retries_cannot_be_counted_without_end() {
    let s = set(established(), |attr| attr.connect_retry_counter = u64::MAX);
    assert!(!s.accepts(&Event::HoldTimerExpires {}, Source::Timer));
    assert!(s.accepts(&Event::ManualStop {}, Source::Admin));
}

#[test]
fn open_from_outside_is_adapted() {
    let event = |s: &State| s.adapt(Event::BGPOpen { msg: open(1, 3), remote_syn: true });
    let s = next(delaying(), Event::ManualStartWithPassiveTcpEstablishment {});
    assert!(matches!(event(&s), Event::BGPOpen { .. }));
    let s = next(s, Event::TcpConnectionConfirmed { bgp_conn: A });
    assert!(matches!(event(&s), Event::BGPOpenWithDelayOpenTimerRunning { remote_syn: true, .. }));
    assert!(matches!(s.adapt(Event::ManualStop {}), Event::ManualStop {}));
}

#[test]
fn timers() {
    assert_eq!(TimerKind::new_vec().len(), 5);
    assert!(matches!(Event::from(TimerKind::ConnectRetry), Event::ConnectRetryTimerExpires {}));
    assert!(matches!(Event::from(TimerKind::Hold), Event::HoldTimerExpires {}));
    assert!(matches!(Event::from(TimerKind::Keepalive), Event::KeepaliveTimerExpires {}));
    assert!(matches!(Event::from(TimerKind::DelayOpen), Event::DelayOpenTimerExpires {}));
    assert!(matches!(Event::from(TimerKind::IdleHold), Event::IdleHoldTimerExpires {}));
    let d = Duration::from_secs(4);
    assert_eq!(next_duration(d, Some(Operation::Stop)), far_future());
    assert_eq!(next_duration(d, Some(Operation::Restart)), d);
    let e = Duration::from_secs(9);
    assert_eq!(next_duration(d, Some(Operation::Update { duration: e })), e);
    assert_eq!(next_duration(d, None), d);
    let op = Operation::Restart;
    assert_eq!(Timer::IdleHold { op }.route(), (TimerKind::IdleHold, op));
    assert_eq!(Timer::Hold { op }.route(), (TimerKind::Hold, op));
}

/// What a timer runs for after a series of operations.
fn after(kind: TimerKind, timers: &[Timer]) -> Duration {
    let mut dur = far_future();
    for timer in timers {
        let (k, op) = timer.route();
        if k == kind {
            let (next, event) = woken(kind, dur, Wake::Told { op: Some(op) });
            assert!(event.is_none());
            dur = next;
        }
    }
    dur
}

#[test]
fn timers_over_a_series_of_operations() {
    let d = Duration::from_secs(30);
    let set = Operation::Update { duration: d };
    let restart = Operation::Restart;
    let hold = |op: Operation| Timer::Hold { op };
    let keepalive = |op: Operation| Timer::Keepalive { op };
    assert_eq!(after(TimerKind::Hold, &[hold(restart), hold(restart)]), far_future());
    let stopped = [hold(set), hold(Operation::Stop), keepalive(set), hold(restart)];
    assert_eq!(after(TimerKind::Hold, &stopped), far_future());
    assert_eq!(after(TimerKind::Keepalive, &stopped), d);
    let kept = [hold(set), hold(restart), keepalive(Operation::Stop), hold(restart)];
    assert_eq!(after(TimerKind::Hold, &kept), d);
    let (next, event) = woken(TimerKind::Hold, d, Wake::Expired);
    assert_eq!(next, d);
    assert!(matches!(event, Some(Event::HoldTimerExpires {})));
    assert_eq!(woken(TimerKind::Hold, d, Wake::Told { op: None }).0, d);
}

#[test]
fn spans_are_divided() {
    assert_eq!(Duration::from_secs(90).div(3), Duration::from_secs(30));
    assert_eq!(Duration::from_secs(1).div(3), Duration { secs: 0, nanos: 333_333_333 });
    assert_eq!(Duration { secs: 7, nanos: 500 }.div(2), Duration { secs: 3, nanos: 500_000_250 });
    assert_eq!(
        Duration { secs: u64::MAX, nanos: 999_999_999 }.div(u32::MAX),
        Duration { secs: 4_294_967_297, nanos: 0 }
    );
}

#[test]
fn configuration() {
    let conf = Bgp::new();
    assert_eq!(conf.global.global.as_, 65000);
    assert_eq!(conf.global.global.router_id, Ipv4Addr::new(192, 0, 2, 1));
    assert!(conf.neighbors.is_empty() && conf.peer_groups.is_empty());
    let open = OpenMsg::from_conf(&neighbor());
    assert_eq!((open.as_number, open.hold_time), (23456, 90));
    assert_eq!(Ipv4Addr::new(1, 2, 3, 4).to_bits(), 0x0102_0304);
}

/// What is outside of a session.
struct World {
    running: Option<ConnId>,
    trying: bool,
    times: [Duration; 4],
    held: Vec<ConnId>,
}

impl World {
    fn let_go(&mut self, conn: ConnId) {
        let i = self.held.iter().position(|c| *c == conn).unwrap();
        self.held.remove(i);
    }

    fn act(&mut self, action: &Action) {
        match action {
            Action::SetTimer { timer } => {
                let (kind, op) = timer.route();
                let time = match kind {
                    TimerKind::ConnectRetry => &mut self.times[0],
                    TimerKind::Hold => &mut self.times[1],
                    TimerKind::Keepalive => &mut self.times[2],
                    TimerKind::DelayOpen => &mut self.times[3],
                    TimerKind::IdleHold => return,
                };
                *time = next_duration(*time, Some(op));
            }
            Action::StartTcp {} => {
                assert!(!self.trying);
                self.trying = true;
            }
            Action::AbortTcp {} | Action::ReleaseTcp {} => {
                assert!(self.trying);
                self.trying = false;
            }
            Action::StartBgp { conn, .. } => {
                assert!(self.running.is_none() && self.held.contains(conn));
                self.running = Some(*conn);
            }
            Action::AbortBgp { conn } | Action::ReleaseBgp { conn } => {
                assert_eq!(self.running, Some(*conn));
                self.running = None;
                self.let_go(*conn);
            }
            Action::Send { conn, .. } => assert_eq!(self.running, Some(*conn)),
            Action::StartCollision { conn } | Action::DropConn { conn } => self.let_go(*conn),
        }
    }
}

/// Something that happens to a session, by two numbers.
fn happening(n: u64, conn: ConnId) -> Event {
    let err = || Error::new_header(MsgHeaderErrorSubcode::BadMessageLength, None);
    let identifier = if n & 64 == 0 { 1 } else { u32::MAX };
    let remote_syn = n & 128 == 0;
    match n % 24 {
        0 | 1 => Event::ManualStart {},
        2 => Event::ManualStop {},
        3 | 4 => Event::ManualStartWithPassiveTcpEstablishment {},
        5 => Event::AutomaticStop {},
        6 => Event::ConnectRetryTimerExpires {},
        7 => Event::HoldTimerExpires {},
        8 => Event::KeepaliveTimerExpires {},
        9 | 10 => Event::DelayOpenTimerExpires {},
        11 => Event::TcpCRAcked { conn },
        12 | 13 => Event::TcpConnectionConfirmed { bgp_conn: conn },
        14 => Event::TcpConnectionFails { err: err() },
        15 | 16 => Event::BGPOpen { msg: open(identifier, 60), remote_syn },
        17 => Event::BGPOpenWithDelayOpenTimerRunning { msg: open(identifier, 9), remote_syn },
        18 => Event::BGPHeaderErr { err: err() },
        19 => Event::NotifyMsgVerErr { err: err() },
        20 | 21 => Event::KeepaliveMsg {},
        22 => Event::ProcessOneDone { conn },
        _ => Event::NotifyMsg { err: err() },
    }
}

fn held_by(state: &State) -> (Option<ConnId>, Option<ConnId>, bool) {
    match state {
        State::Idle(_) => (None, None, false),
        State::Connect(f) => (f.state.bgp_conn_handle, None, f.state.tcp_conn_handle.is_some()),
        State::Active(f) => (f.state.bgp_conn_handle, None, f.state.tcp_conn_handle.is_some()),
        State::OpenSent(f) => (f.state.bgp_conn_handle, f.state.collision_conn, false),
        State::OpenConfirm(f) => (f.state.bgp_conn_handle, f.state.collision_conn, false),
        State::Established(f) => (f.state.bgp_conn_handle, f.state.collision_conn, false),
    }
}

#[test]
fn whatever_happens_fits() {
    let mut seed: u64 = 7;
    let mut reached = [0; 6];
    for round in 0..200 {
        let mut state = if round % 2 == 0 { new_session() } else { delaying() };
        let mut world =
            World { running: None, trying: false, times: [far_future(); 4], held: vec![] };
        for i in 0..200 {
            seed = seed.wrapping_mul(6364136223846793005).wrapping_add(1442695040888963407);
            let n = seed >> 33;
            let conn = ConnId { id: i };
            let event = happening(n, conn);
            let source = if n & 256 == 0 { Source::Bgp } else { Source::Coll };
            if !state.accepts(&event, source) {
                continue;
            }
            if matches!(
                event,
                Event::TcpCRAcked { .. }
                    | Event::TcpConnectionConfirmed { .. }
                    | Event::ProcessOneDone { .. }
            ) {
                world.held.push(conn);
            }
            let unnoted = matches!(state, State::Connect(ref f) if f.attr.delay_open)
                && matches!(event, Event::TcpConnectionConfirmed { .. });
            let before = state.get_attr().connect_retry_counter;
            let (next, actions) = state.step(event, source, &neighbor());
            state = next;
            for action in &actions {
                world.act(action);
            }
            let attr = *state.get_attr();
            if unnoted {
                world.times[3] = attr.cur_delay_open_time;
            }
            let (running, colliding, trying) = held_by(&state);
            assert_eq!(world.running, running);
            assert_eq!(world.trying, trying);
            assert_eq!(world.held.len(), running.iter().count() + colliding.iter().count());
            assert_eq!(
                world.times,
                [
                    attr.cur_connect_retry_time,
                    attr.cur_hold_time,
                    attr.cur_keepalive_time,
                    attr.cur_delay_open_time,
                ]
            );
            let after = attr.connect_retry_counter;
            assert!(after <= before || matches!(state, State::Idle(_)));
            reached[match state {
                State::Idle(_) => 0,
                State::Connect(_) => 1,
                State::Active(_) => 2,
                State::OpenSent(_) => 3,
                State::OpenConfirm(_) => 4,
                State::Established(_) => 5,
            }] += 1;
        }
    }
    assert!(reached.iter().all(|n| *n > 0));
}
