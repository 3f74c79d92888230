//! What a session does on an event: its next state, and what has to be done for it.
use crate::config::Neighbor;
use crate::error::{Error, ErrorCode, ErrorSubCode};
use crate::fsm::{
    dflt_bgp_timers_connect, far_future, Active, ConnId, Connect, Established, Event, Fsm, Idle,
    OpenConfirm, OpenSent, Operation, SessionAttributes, State, TcpAttempt, DFLT_KEEPALIVE_FACTOR,
};
use crate::message::{KeepaliveMsg, Message, NotificationMsg, OpenMsg};
use crate::net::SocketAddr;
use crate::time::Duration;
use crate::transition::{
    abort_bgp, abort_tcp, active_conn, active_goes_on, active_step, brought, connect_conn,
    connect_goes_on, connect_step, countable, counted, delay, delayed_open, drop_conn, early_end,
    early_refusal, early_version_refusal, established_goes_on, established_link, established_step,
    hold, idle_step, is_start, keepalive, link_end, negotiated, no_delay, no_retry, notice,
    open_confirm_goes_on, open_confirm_link, open_confirm_step, open_sent_goes_on, open_sent_link,
    open_sent_open, open_sent_step, release_bgp, release_tcp, report, retry, run_conn, send,
    start_timers, take_over, timed, uncounted, Action, Link, Source,
};
use vstd::prelude::*;

verus! {

/// Counts one retry more.
fn count(attr: SessionAttributes) -> (r: SessionAttributes)
    requires
        countable(attr),
    ensures
        r == counted(attr),
{
    SessionAttributes { connect_retry_counter: attr.connect_retry_counter + 1, ..attr }
}

fn push_send(actions: &mut Vec<Action>, out: Option<ConnId>, msg: Message)
    ensures
        final(actions)@ == old(actions)@ + send(out, msg),
{
    if let Some(conn) = out {
        actions.push(Action::Send { conn, msg });
    }
}

fn push_abort_tcp(actions: &mut Vec<Action>, tcp: Option<TcpAttempt>)
    ensures
        final(actions)@ == old(actions)@ + abort_tcp(tcp),
{
    if let Some(_) = tcp {
        actions.push(Action::AbortTcp {  });
    }
}

fn push_release_tcp(actions: &mut Vec<Action>, tcp: Option<TcpAttempt>)
    ensures
        final(actions)@ == old(actions)@ + release_tcp(tcp),
{
    if let Some(_) = tcp {
        actions.push(Action::ReleaseTcp {  });
    }
}

fn push_abort_bgp(actions: &mut Vec<Action>, running: Option<ConnId>)
    ensures
        final(actions)@ == old(actions)@ + abort_bgp(running),
{
    if let Some(conn) = running {
        actions.push(Action::AbortBgp { conn });
    }
}

fn push_release_bgp(actions: &mut Vec<Action>, running: Option<ConnId>)
    ensures
        final(actions)@ == old(actions)@ + release_bgp(running),
{
    if let Some(conn) = running {
        actions.push(Action::ReleaseBgp { conn });
    }
}

fn push_drop_conn(actions: &mut Vec<Action>, conn: Option<ConnId>)
    ensures
        final(actions)@ == old(actions)@ + drop_conn(conn),
{
    if let Some(conn) = conn {
        actions.push(Action::DropConn { conn });
    }
}

/// The NOTIFICATION without data that reports an error of that kind.
fn make_notice(code: ErrorCode) -> (r: Message)
    ensures
        r == notice(code),
{
    Message::Notification(NotificationMsg::from_enum(code, ErrorSubCode::Undefined, None))
}

/// The NOTIFICATION that reports that error.
fn make_report(err: Error) -> (r: Message)
    ensures
        r == report(err),
{
    Message::Notification(NotificationMsg::from_error(err))
}

/// The hold time of two speakers: the smaller of theirs.
fn negotiate(local: &OpenMsg, peer: &OpenMsg) -> (r: Duration)
    ensures
        r == negotiated(*local, *peer),
        r.wf(),
{
    Duration::from_secs(
        if local.hold_time <= peer.hold_time {
            local.hold_time as u64
        } else {
            peer.hold_time as u64
        },
    )
}

/// Starts the timers of a session that was confirmed, or stops them where there is no hold
/// time.
fn push_start_timers(actions: &mut Vec<Action>, attr: SessionAttributes, hold_time: Duration)
    ensures
        final(actions)@ == old(actions)@ + start_timers(attr, hold_time),
{
    if hold_time == Duration::zero() {
        actions.push(keepalive(Operation::Stop));
        actions.push(hold(Operation::Stop));
    } else {
        actions.push(keepalive(Operation::Update { duration: attr.keepalive_time }));
        actions.push(hold(Operation::Update { duration: hold_time }));
    }
}

/// The connection that an event brings.
fn brings(event: &Event) -> (r: Option<ConnId>)
    ensures
        r == brought(*event),
{
    match event {
        Event::TcpCRAcked { conn } => Some(*conn),
        Event::TcpConnectionConfirmed { bgp_conn } => Some(*bgp_conn),
        Event::ProcessOneDone { conn } => Some(*conn),
        _ => None,
    }
}

/// Whether an event asks for a session to be started.
fn starts(event: &Event) -> (r: bool)
    ensures
        r == is_start(*event),
{
    match event {
        Event::ManualStart {  } => true,
        Event::AutomaticStart {  } => true,
        Event::ManualStartWithPassiveTcpEstablishment {  } => true,
        Event::AutomaticStartWithPassiveTcpEstablishment {  } => true,
        Event::AutomaticStartWithDampPeerOscillations {  } => true,
        Event::AutomaticStartWithDampPeerOscillationsAndPassiveTcpEstablishment {  } => true,
        _ => false,
    }
}

impl Fsm<Idle> {
    pub fn step(self, event: Event) -> (r: (State, Vec<Action>))
        ensures
            r.0 == idle_step(self, event).next,
            r.1@ == idle_step(self, event).actions,
    {
        let mut actions: Vec<Action> = Vec::new();
        match event {
            Event::ManualStart {  } | Event::AutomaticStart {  } => {
                let mut fsm: Fsm<Connect> = Fsm::<Connect>::from(self);
                fsm.attr.connect_retry_counter = 0;
                actions.push(retry(Operation::Update { duration: dflt_bgp_timers_connect() }));
                fsm.attr.cur_connect_retry_time = dflt_bgp_timers_connect();
                actions.push(Action::StartTcp {  });
                fsm.state.tcp_conn_handle = Some(TcpAttempt {  });
                (State::Connect(fsm), actions)
            },
            Event::ManualStartWithPassiveTcpEstablishment {  }
            | Event::AutomaticStartWithPassiveTcpEstablishment {  } => {
                let mut fsm: Fsm<Active> = Fsm::<Active>::from(self);
                fsm.attr.connect_retry_counter = 0;
                actions.push(retry(Operation::Update { duration: dflt_bgp_timers_connect() }));
                fsm.attr.cur_connect_retry_time = dflt_bgp_timers_connect();
                (State::Active(fsm), actions)
            },
            _ => {
                push_drop_conn(&mut actions, brings(&event));
                (State::Idle(self), actions)
            },
        }
    }
}

/// Ends a session that was not confirmed, with what it does first in `actions`.
fn finish_early(
    peer: SocketAddr,
    attr: SessionAttributes,
    actions: &mut Vec<Action>,
    tcp: Option<TcpAttempt>,
    running: Option<ConnId>,
) -> (r: State)
    ensures
        r == early_end(peer, attr, old(actions)@, tcp, running).next,
        final(actions)@ == early_end(peer, attr, old(actions)@, tcp, running).actions,
{
    push_abort_tcp(actions, tcp);
    push_abort_bgp(actions, running);
    State::Idle(Fsm { state: Idle {  }, peer, attr })
}

/// Ends a session on a message that was refused before an OPEN was sent.
fn refuse_early(
    peer: SocketAddr,
    attr: SessionAttributes,
    err: Error,
    tcp: Option<TcpAttempt>,
    running: Option<ConnId>,
) -> (r: (State, Vec<Action>))
    requires
        countable(attr),
    ensures
        r.0 == early_refusal(peer, attr, err, tcp, running).next,
        r.1@ == early_refusal(peer, attr, err, tcp, running).actions,
{
    let mut actions: Vec<Action> = Vec::new();
    if attr.send_notification_without_open {
        push_send(&mut actions, running, make_report(err));
    }
    actions.push(retry(Operation::Stop));
    let next = finish_early(peer, count(no_retry(attr)), &mut actions, tcp, running);
    (next, actions)
}

/// Ends a session whose version the peer refused before an OPEN was sent.
fn refuse_version_early(
    peer: SocketAddr,
    attr: SessionAttributes,
    tcp: Option<TcpAttempt>,
    running: Option<ConnId>,
) -> (r: (State, Vec<Action>))
    requires
        attr.cur_hold_time != far_future() || countable(attr),
    ensures
        r.0 == early_version_refusal(peer, attr, tcp, running).next,
        r.1@ == early_version_refusal(peer, attr, tcp, running).actions,
{
    let mut actions: Vec<Action> = Vec::new();
    let held = attr.cur_hold_time != far_future();
    let ended = if held {
        no_delay(no_retry(attr))
    } else {
        count(no_retry(attr))
    };
    actions.push(retry(Operation::Stop));
    let next = finish_early(peer, ended, &mut actions, tcp, running);
    if held {
        actions.push(delay(Operation::Stop));
    }
    (next, actions)
}

/// Runs a connection that came up where no OPEN was sent before.
fn push_run_conn(
    actions: &mut Vec<Action>,
    running: Option<ConnId>,
    conn: ConnId,
    remote_syn: bool,
)
    ensures
        final(actions)@ == old(actions)@ + run_conn(running, conn, remote_syn),
{
    actions.push(retry(Operation::Stop));
    push_release_bgp(actions, running);
    actions.push(Action::StartBgp { conn, remote_syn });
}

/// Confirms an OPEN that came while the own was delayed. `fsm` holds what the session
/// keeps.
fn confirm_delayed(
    fsm: Fsm<OpenConfirm>,
    tcp: Option<TcpAttempt>,
    msg: OpenMsg,
    conf: &Neighbor,
) -> (r: (State, Vec<Action>))
    requires
        fsm.state.bgp_conn_handle == fsm.state.bgp_out_tx,
        fsm.state.bgp_out_tx is Some,
        fsm.state.collision_conn is None,
    ensures
        ({
            let step = delayed_open(
                fsm.peer,
                fsm.attr,
                tcp,
                fsm.state.bgp_conn_handle,
                fsm.state.remote_syn,
                msg,
                *conf,
            );
            r.0 == step.next && r.1@ == step.actions
        }),
{
    let mut fsm = fsm;
    let mut actions: Vec<Action> = Vec::new();
    actions.push(retry(Operation::Stop));
    actions.push(delay(Operation::Stop));
    push_release_tcp(&mut actions, tcp);
    fsm.attr = no_delay(no_retry(fsm.attr));
    let local = OpenMsg::from_conf(conf);
    push_send(&mut actions, fsm.state.bgp_out_tx, Message::Open(OpenMsg::from_conf(conf)));
    push_send(&mut actions, fsm.state.bgp_out_tx, Message::Keepalive(KeepaliveMsg::new()));
    let hold_time = negotiate(&local, &msg);
    fsm.attr.keepalive_time = if hold_time == Duration::zero() {
        far_future()
    } else {
        hold_time.div(DFLT_KEEPALIVE_FACTOR)
    };
    push_start_timers(&mut actions, fsm.attr, hold_time);
    fsm.attr = timed(fsm.attr, hold_time);
    fsm.state.peer_open = Some(msg);
    fsm.state.local_open = Some(local);
    (State::OpenConfirm(fsm), actions)
}

impl Fsm<Connect> {
    /// A connection came up.
    fn on_conn(self, conn: ConnId, remote_syn: bool, conf: &Neighbor) -> (r: (State, Vec<Action>))
        ensures
            r.0 == connect_conn(self, conn, remote_syn, *conf).next,
            r.1@ == connect_conn(self, conn, remote_syn, *conf).actions,
    {
        let mut fsm = self;
        let mut actions: Vec<Action> = Vec::new();
        fsm.attr = no_retry(uncounted(fsm.attr));
        push_run_conn(&mut actions, fsm.state.bgp_conn_handle, conn, remote_syn);
        fsm.state.bgp_conn_handle = Some(conn);
        fsm.state.bgp_out_tx = Some(conn);
        if fsm.attr.delay_open {
            actions.push(delay(Operation::Update { duration: fsm.attr.delay_open_time }));
            if !remote_syn {
                fsm.attr.cur_delay_open_time = fsm.attr.delay_open_time;
            }
            (State::Connect(fsm), actions)
        } else {
            actions.push(Action::Send { conn, msg: Message::Open(OpenMsg::from_conf(conf)) });
            push_release_tcp(&mut actions, fsm.state.tcp_conn_handle);
            let mut fsm: Fsm<OpenSent> = Fsm::<OpenSent>::from(fsm);
            fsm.state.remote_syn = remote_syn;
            (State::OpenSent(fsm), actions)
        }
    }

    pub fn step(self, event: Event, conf: &Neighbor) -> (r: (State, Vec<Action>))
        requires
            State::Connect(self).wf(),
            connect_goes_on(self, event),
        ensures
            r.0 == connect_step(self, event, *conf).next,
            r.1@ == connect_step(self, event, *conf).actions,
    {
        let mut fsm = self;
        let tcp = fsm.state.tcp_conn_handle;
        let running = fsm.state.bgp_conn_handle;
        let mut actions: Vec<Action> = Vec::new();
        match event {
            Event::ManualStop {  } => {
                push_abort_tcp(&mut actions, tcp);
                push_abort_bgp(&mut actions, running);
                actions.push(retry(Operation::Stop));
                fsm.attr = no_retry(uncounted(fsm.attr));
                (State::Idle(Fsm::<Idle>::from(fsm)), actions)
            },
            Event::ConnectRetryTimerExpires {  } => {
                push_abort_tcp(&mut actions, tcp);
                actions.push(retry(Operation::Restart));
                actions.push(delay(Operation::Stop));
                fsm.attr = no_delay(fsm.attr);
                actions.push(Action::StartTcp {  });
                fsm.state.tcp_conn_handle = Some(TcpAttempt {  });
                (State::Connect(fsm), actions)
            },
            Event::DelayOpenTimerExpires {  } => {
                push_release_tcp(&mut actions, tcp);
                let mut fsm: Fsm<OpenSent> = Fsm::<OpenSent>::from(fsm);
                fsm.state.local_open = Some(OpenMsg::from_conf(conf));
                push_send(
                    &mut actions,
                    fsm.state.bgp_out_tx,
                    Message::Open(OpenMsg::from_conf(conf)),
                );
                (State::OpenSent(fsm), actions)
            },
            Event::TcpConnectionValid {  } | Event::TcpCRInvalid {  } => (
                State::Connect(fsm),
                actions,
            ),
            Event::TcpCRAcked { conn } => fsm.on_conn(conn, false, conf),
            Event::TcpConnectionConfirmed { bgp_conn } => fsm.on_conn(bgp_conn, true, conf),
            Event::TcpConnectionFails { err } => {
                if fsm.attr.cur_delay_open_time == far_future() {
                    actions.push(retry(Operation::Stop));
                    let next = finish_early(
                        fsm.peer,
                        no_retry(fsm.attr),
                        &mut actions,
                        tcp,
                        running,
                    );
                    (next, actions)
                } else {
                    actions.push(retry(Operation::Restart));
                    actions.push(delay(Operation::Stop));
                    push_abort_tcp(&mut actions, tcp);
                    fsm.attr = no_delay(fsm.attr);
                    (State::Active(Fsm::<Active>::from(fsm)), actions)
                }
            },
            Event::BGPOpenWithDelayOpenTimerRunning { msg, remote_syn } => confirm_delayed(
                Fsm::<OpenConfirm>::from(fsm),
                tcp,
                msg,
                conf,
            ),
            Event::BGPHeaderErr { err } => refuse_early(fsm.peer, fsm.attr, err, tcp, running),
            Event::BGPOpenMsgErr { err } => refuse_early(fsm.peer, fsm.attr, err, tcp, running),
            Event::NotifyMsgVerErr { err } => refuse_version_early(
                fsm.peer,
                fsm.attr,
                tcp,
                running,
            ),
            _ => {
                actions.push(retry(Operation::Stop));
                actions.push(delay(Operation::Stop));
                let attr = count(no_delay(no_retry(fsm.attr)));
                let next = finish_early(fsm.peer, attr, &mut actions, tcp, running);
                push_drop_conn(&mut actions, brings(&event));
                (next, actions)
            },
        }
    }
}

impl Fsm<Active> {
    /// A connection came up.
    fn on_conn(self, conn: ConnId, remote_syn: bool, conf: &Neighbor) -> (r: (State, Vec<Action>))
        ensures
            r.0 == active_conn(self, conn, remote_syn, *conf).next,
            r.1@ == active_conn(self, conn, remote_syn, *conf).actions,
    {
        let mut fsm = self;
        let mut actions: Vec<Action> = Vec::new();
        fsm.attr = no_retry(uncounted(fsm.attr));
        push_run_conn(&mut actions, fsm.state.bgp_conn_handle, conn, remote_syn);
        fsm.state.bgp_conn_handle = Some(conn);
        fsm.state.bgp_out_tx = Some(conn);
        if fsm.attr.delay_open {
            actions.push(delay(Operation::Update { duration: fsm.attr.delay_open_time }));
            fsm.attr.cur_delay_open_time = fsm.attr.delay_open_time;
            (State::Active(fsm), actions)
        } else {
            actions.push(Action::Send { conn, msg: Message::Open(OpenMsg::from_conf(conf)) });
            let mut fsm: Fsm<OpenSent> = Fsm::<OpenSent>::from(fsm);
            fsm.state.remote_syn = remote_syn;
            (State::OpenSent(fsm), actions)
        }
    }

    pub fn step(self, event: Event, conf: &Neighbor) -> (r: (State, Vec<Action>))
        requires
            State::Active(self).wf(),
            active_goes_on(self, event),
        ensures
            r.0 == active_step(self, event, *conf).next,
            r.1@ == active_step(self, event, *conf).actions,
    {
        let mut fsm = self;
        let running = fsm.state.bgp_conn_handle;
        let mut actions: Vec<Action> = Vec::new();
        match event {
            Event::ManualStop {  } => {
                let held = fsm.attr.cur_hold_time != far_future();
                if held {
                    actions.push(delay(Operation::Stop));
                    fsm.attr = no_delay(fsm.attr);
                    if fsm.attr.send_notification_without_open {
                        push_send(
                            &mut actions,
                            fsm.state.bgp_out_tx,
                            make_notice(ErrorCode::Cease),
                        );
                    }
                }
                actions.push(retry(Operation::Stop));
                let attr = uncounted(no_retry(fsm.attr));
                let next = finish_early(fsm.peer, attr, &mut actions, None, running);
                (next, actions)
            },
            Event::ConnectRetryTimerExpires {  } => {
                actions.push(retry(Operation::Restart));
                let mut fsm: Fsm<Connect> = Fsm::<Connect>::from(fsm);
                actions.push(Action::StartTcp {  });
                fsm.state.tcp_conn_handle = Some(TcpAttempt {  });
                (State::Connect(fsm), actions)
            },
            Event::DelayOpenTimerExpires {  } => {
                actions.push(retry(Operation::Stop));
                actions.push(delay(Operation::Stop));
                fsm.attr = no_delay(no_retry(fsm.attr));
                let mut fsm: Fsm<OpenSent> = Fsm::<OpenSent>::from(fsm);
                fsm.state.local_open = Some(OpenMsg::from_conf(conf));
                push_send(
                    &mut actions,
                    fsm.state.bgp_out_tx,
                    Message::Open(OpenMsg::from_conf(conf)),
                );
                (State::OpenSent(fsm), actions)
            },
            Event::TcpConnectionValid {  } | Event::TcpCRInvalid {  } => (
                State::Active(fsm),
                actions,
            ),
            Event::TcpCRAcked { conn } => fsm.on_conn(conn, false, conf),
            Event::TcpConnectionConfirmed { bgp_conn } => fsm.on_conn(bgp_conn, true, conf),
            Event::TcpConnectionFails { err } => {
                actions.push(retry(Operation::Restart));
                actions.push(delay(Operation::Stop));
                let attr = count(no_delay(fsm.attr));
                let next = finish_early(fsm.peer, attr, &mut actions, None, running);
                (next, actions)
            },
            Event::BGPOpenWithDelayOpenTimerRunning { msg, remote_syn } => confirm_delayed(
                Fsm::<OpenConfirm>::from(fsm),
                None,
                msg,
                conf,
            ),
            Event::BGPHeaderErr { err } => refuse_early(fsm.peer, fsm.attr, err, None, running),
            Event::BGPOpenMsgErr { err } => refuse_early(fsm.peer, fsm.attr, err, None, running),
            Event::NotifyMsgVerErr { err } => refuse_version_early(
                fsm.peer,
                fsm.attr,
                None,
                running,
            ),
            _ => {
                if starts(&event) {
                    return (State::Active(fsm), actions);
                }
                actions.push(retry(Operation::Stop));
                let attr = count(no_retry(fsm.attr));
                let next = finish_early(fsm.peer, attr, &mut actions, None, running);
                push_drop_conn(&mut actions, brings(&event));
                (next, actions)
            },
        }
    }
}

/// Ends a session behind a sent OPEN, with what the peer is told in `actions`.
fn finish_link(link: Link, attr: SessionAttributes, actions: &mut Vec<Action>) -> (r: State)
    ensures
        r == link_end(link, attr, old(actions)@).next,
        final(actions)@ == link_end(link, attr, old(actions)@).actions,
{
    actions.push(retry(Operation::Stop));
    push_abort_bgp(actions, link.running);
    push_drop_conn(actions, link.colliding);
    State::Idle(Fsm { state: Idle {  }, peer: link.peer, attr: no_retry(attr) })
}

/// Ends a session behind a sent OPEN, after the peer is told `msg`.
fn tell_and_finish(link: Link, attr: SessionAttributes, msg: Message) -> (r: (State, Vec<Action>))
    ensures
        r.0 == link_end(link, attr, send(link.running, msg)).next,
        r.1@ == link_end(link, attr, send(link.running, msg)).actions,
{
    let mut actions: Vec<Action> = Vec::new();
    push_send(&mut actions, link.running, msg);
    let next = finish_link(link, attr, &mut actions);
    (next, actions)
}

/// Ends a session behind a sent OPEN without a word.
fn finish_silently(link: Link, attr: SessionAttributes) -> (r: (State, Vec<Action>))
    ensures
        r.0 == link_end(link, attr, seq![]).next,
        r.1@ == link_end(link, attr, seq![]).actions,
{
    let mut actions: Vec<Action> = Vec::new();
    let next = finish_link(link, attr, &mut actions);
    (next, actions)
}

/// Puts the colliding connection in the place of the running one.
fn push_take_over(actions: &mut Vec<Action>, link: Link, remote_syn: bool)
    ensures
        final(actions)@ == old(actions)@ + take_over(link, remote_syn),
{
    if let Some(conn) = link.colliding {
        push_release_bgp(actions, link.running);
        actions.push(Action::StartBgp { conn, remote_syn });
    }
}

/// Closes the connection that collided before.
fn make_room(link: Link) -> (r: Vec<Action>)
    ensures
        r@ == drop_conn(link.colliding),
{
    let mut actions: Vec<Action> = Vec::new();
    push_drop_conn(&mut actions, link.colliding);
    actions
}

impl Fsm<OpenSent> {
    fn link(&self) -> (r: Link)
        ensures
            r == open_sent_link(*self),
    {
        Link {
            peer: self.peer,
            attr: self.attr,
            running: self.state.bgp_conn_handle,
            colliding: self.state.collision_conn,
        }
    }

    /// An OPEN came in answer to the own.
    fn on_open(self, msg: OpenMsg, remote_syn: bool, conf: &Neighbor) -> (r: (State, Vec<Action>))
        requires
            State::OpenSent(self).wf(),
            open_sent_goes_on(self, Event::BGPOpen { msg, remote_syn }, Source::Bgp),
        ensures
            ({
                let step = open_sent_open(self, self.state.local_open->0, msg, remote_syn, *conf);
                r.0 == step.next && r.1@ == step.actions
            }),
    {
        let link = self.link();
        let mut fsm = self;
        let mut actions: Vec<Action> = Vec::new();
        let local = fsm.state.local_open.unwrap();
        let collides = fsm.state.remote_syn != remote_syn;
        if collides {
            if local.bgp_identifier < msg.bgp_identifier {
                push_send(&mut actions, link.running, make_notice(ErrorCode::Cease));
                push_take_over(&mut actions, link, remote_syn);
                if remote_syn {
                    push_send(
                        &mut actions,
                        link.colliding,
                        Message::Open(OpenMsg::from_conf(conf)),
                    );
                }
                fsm.state.bgp_conn_handle = link.colliding;
                fsm.state.bgp_out_tx = link.colliding;
            } else {
                push_drop_conn(&mut actions, link.colliding);
            }
            fsm.state.collision_conn = None;
        }
        actions.push(delay(Operation::Stop));
        actions.push(retry(Operation::Stop));
        let attr = no_retry(no_delay(fsm.attr));
        let hold_time = negotiate(&local, &msg);
        push_start_timers(&mut actions, attr, hold_time);
        fsm.state.local_open = Some(local);
        let mut fsm: Fsm<OpenConfirm> = Fsm::<OpenConfirm>::from(fsm);
        fsm.state.peer_open = Some(msg);
        fsm.attr = timed(attr, hold_time);
        (State::OpenConfirm(fsm), actions)
    }

    pub fn step(self, event: Event, source: Source, conf: &Neighbor) -> (r: (State, Vec<Action>))
        requires
            State::OpenSent(self).wf(),
            open_sent_goes_on(self, event, source),
        ensures
            r.0 == open_sent_step(self, event, source, *conf).next,
            r.1@ == open_sent_step(self, event, source, *conf).actions,
    {
        let link = self.link();
        let attr = self.attr;
        let mut fsm = self;
        let mut actions: Vec<Action> = Vec::new();
        match event {
            Event::ManualStop {  } => tell_and_finish(
                link,
                uncounted(attr),
                make_notice(ErrorCode::Cease),
            ),
            Event::AutomaticStop {  } => tell_and_finish(
                link,
                count(attr),
                make_notice(ErrorCode::Cease),
            ),
            Event::HoldTimerExpires {  } => tell_and_finish(
                link,
                count(attr),
                make_notice(ErrorCode::HoldTimerExpired),
            ),
            Event::TcpConnectionValid {  } | Event::TcpCRInvalid {  } => (
                State::OpenSent(fsm),
                actions,
            ),
            Event::TcpCRAcked { conn } => {
                actions.push(Action::StartCollision { conn });
                (State::OpenSent(fsm), actions)
            },
            Event::TcpConnectionConfirmed { bgp_conn } => {
                fsm.state.collision_conn = Some(bgp_conn);
                (State::OpenSent(fsm), make_room(link))
            },
            Event::ProcessOneDone { conn } => {
                fsm.state.collision_conn = Some(conn);
                (State::OpenSent(fsm), make_room(link))
            },
            Event::TcpConnectionFails { err } => {
                actions.push(retry(Operation::Restart));
                push_abort_bgp(&mut actions, link.running);
                push_drop_conn(&mut actions, link.colliding);
                (State::Active(Fsm::<Active>::from(fsm)), actions)
            },
            Event::BGPOpen { msg, remote_syn } => fsm.on_open(msg, remote_syn, conf),
            Event::BGPHeaderErr { err } => {
                if source == Source::Bgp {
                    tell_and_finish(link, count(attr), make_report(err))
                } else {
                    (State::OpenSent(fsm), actions)
                }
            },
            Event::BGPOpenMsgErr { err } => {
                if source == Source::Bgp {
                    tell_and_finish(link, count(attr), make_report(err))
                } else {
                    (State::OpenSent(fsm), actions)
                }
            },
            Event::NotifyMsgVerErr { err } => finish_silently(link, attr),
            _ => {
                if starts(&event) {
                    return (State::OpenSent(fsm), actions);
                }
                tell_and_finish(link, attr, make_notice(ErrorCode::FiniteStateMachineError))
            },
        }
    }
}

impl Fsm<OpenConfirm> {
    fn link(&self) -> (r: Link)
        ensures
            r == open_confirm_link(*self),
    {
        Link {
            peer: self.peer,
            attr: self.attr,
            running: self.state.bgp_conn_handle,
            colliding: self.state.collision_conn,
        }
    }

    pub fn step(self, event: Event, source: Source) -> (r: (State, Vec<Action>))
        requires
            State::OpenConfirm(self).wf(),
            open_confirm_goes_on(self, event, source),
        ensures
            r.0 == open_confirm_step(self, event, source).next,
            r.1@ == open_confirm_step(self, event, source).actions,
    {
        let link = self.link();
        let attr = self.attr;
        let mut fsm = self;
        let mut actions: Vec<Action> = Vec::new();
        match event {
            Event::ManualStop {  } => tell_and_finish(
                link,
                uncounted(attr),
                make_notice(ErrorCode::Cease),
            ),
            Event::AutomaticStop {  } => tell_and_finish(
                link,
                count(attr),
                make_notice(ErrorCode::Cease),
            ),
            Event::HoldTimerExpires {  } => tell_and_finish(
                link,
                count(attr),
                make_notice(ErrorCode::HoldTimerExpired),
            ),
            Event::KeepaliveTimerExpires {  } => {
                push_send(&mut actions, link.running, Message::Keepalive(KeepaliveMsg::new()));
                actions.push(keepalive(Operation::Restart));
                (State::OpenConfirm(fsm), actions)
            },
            Event::TcpConnectionValid {  }
            | Event::TcpCRInvalid {  }
            | Event::OpenCollisionDump {  } => (State::OpenConfirm(fsm), actions),
            Event::TcpCRAcked { conn } => {
                actions.push(Action::StartCollision { conn });
                (State::OpenConfirm(fsm), actions)
            },
            Event::TcpConnectionConfirmed { bgp_conn } => {
                fsm.state.collision_conn = Some(bgp_conn);
                (State::OpenConfirm(fsm), make_room(link))
            },
            Event::ProcessOneDone { conn } => {
                fsm.state.collision_conn = Some(conn);
                (State::OpenConfirm(fsm), make_room(link))
            },
            Event::TcpConnectionFails { err } => finish_silently(link, count(attr)),
            Event::NotifyMsgVerErr { err } => finish_silently(link, attr),
            Event::BGPOpen { msg, remote_syn } => {
                let wins = match &fsm.state.local_open {
                    Some(local) => local.bgp_identifier < msg.bgp_identifier,
                    None => false,
                };
                if wins {
                    push_take_over(&mut actions, link, remote_syn);
                    fsm.state.bgp_conn_handle = link.colliding;
                    fsm.state.bgp_out_tx = link.colliding;
                } else {
                    push_drop_conn(&mut actions, link.colliding);
                }
                fsm.state.collision_conn = None;
                (State::OpenConfirm(fsm), actions)
            },
            Event::BGPHeaderErr { err } => {
                if source == Source::Bgp {
                    tell_and_finish(link, count(attr), make_report(err))
                } else {
                    (State::OpenConfirm(fsm), actions)
                }
            },
            Event::BGPOpenMsgErr { err } => {
                if source == Source::Bgp {
                    tell_and_finish(link, count(attr), make_report(err))
                } else {
                    (State::OpenConfirm(fsm), actions)
                }
            },
            Event::KeepaliveMsg {  } => {
                actions.push(hold(Operation::Restart));
                (State::Established(Fsm::<Established>::from(fsm)), actions)
            },
            _ => {
                if starts(&event) {
                    return (State::OpenConfirm(fsm), actions);
                }
                tell_and_finish(link, count(attr), make_notice(ErrorCode::FiniteStateMachineError))
            },
        }
    }
}

impl Fsm<Established> {
    fn link(&self) -> (r: Link)
        ensures
            r == established_link(*self),
    {
        Link {
            peer: self.peer,
            attr: self.attr,
            running: self.state.bgp_conn_handle,
            colliding: self.state.collision_conn,
        }
    }

    pub fn step(self, event: Event) -> (r: (State, Vec<Action>))
        requires
            State::Established(self).wf(),
            established_goes_on(self, event),
        ensures
            r.0 == established_step(self, event).next,
            r.1@ == established_step(self, event).actions,
    {
        let link = self.link();
        let attr = self.attr;
        let mut fsm = self;
        let mut actions: Vec<Action> = Vec::new();
        match event {
            Event::ManualStop {  } => tell_and_finish(
                link,
                uncounted(attr),
                make_notice(ErrorCode::Cease),
            ),
            Event::AutomaticStop {  } => tell_and_finish(
                link,
                count(attr),
                make_notice(ErrorCode::Cease),
            ),
            Event::HoldTimerExpires {  } => tell_and_finish(
                link,
                count(attr),
                make_notice(ErrorCode::HoldTimerExpired),
            ),
            Event::KeepaliveTimerExpires {  } => {
                push_send(&mut actions, link.running, Message::Keepalive(KeepaliveMsg::new()));
                if attr.hold_time != Duration::zero() {
                    actions.push(keepalive(Operation::Restart));
                }
                (State::Established(fsm), actions)
            },
            Event::TcpConnectionValid {  } | Event::TcpCRInvalid {  } => (
                State::Established(fsm),
                actions,
            ),
            Event::TcpCRAcked { conn } => {
                actions.push(Action::StartCollision { conn });
                (State::Established(fsm), actions)
            },
            Event::TcpConnectionConfirmed { bgp_conn } => {
                fsm.state.collision_conn = Some(bgp_conn);
                (State::Established(fsm), make_room(link))
            },
            Event::ProcessOneDone { conn } => {
                fsm.state.collision_conn = Some(conn);
                (State::Established(fsm), make_room(link))
            },
            Event::BGPOpen { msg, remote_syn } => {
                let wins = attr.collision_detect_established_state && match &fsm.state.local_open {
                    Some(local) => local.bgp_identifier < msg.bgp_identifier,
                    None => false,
                };
                if wins {
                    push_send(&mut actions, link.running, make_notice(ErrorCode::Cease));
                    push_take_over(&mut actions, link, remote_syn);
                    fsm.state.bgp_conn_handle = link.colliding;
                    fsm.state.bgp_out_tx = link.colliding;
                } else {
                    push_drop_conn(&mut actions, link.colliding);
                }
                fsm.state.collision_conn = None;
                (State::Established(fsm), actions)
            },
            Event::NotifyMsgVerErr { err } => finish_silently(link, count(attr)),
            Event::NotifyMsg { err } => finish_silently(link, count(attr)),
            Event::TcpConnectionFails { err } => finish_silently(link, count(attr)),
            Event::KeepaliveMsg {  } => {
                actions.push(hold(Operation::Restart));
                (State::Established(fsm), actions)
            },
            Event::UpdateMsg { msg } => {
                actions.push(hold(Operation::Restart));
                (State::Established(fsm), actions)
            },
            Event::UpdateMsgErr { err } => tell_and_finish(link, count(attr), make_report(err)),
            _ => {
                if starts(&event) {
                    return (State::Established(fsm), actions);
                }
                tell_and_finish(link, count(attr), make_notice(ErrorCode::FiniteStateMachineError))
            },
        }
    }
}

impl Fsm<Connect> {
    /// Whether the session goes on at that event.
    pub fn accepts(&self, event: &Event) -> (r: bool)
        ensures
            r == connect_goes_on(*self, *event),
    {
        let out = self.state.bgp_out_tx.is_some();
        let can_count = self.attr.connect_retry_counter < u64::MAX;
        match event {
            Event::ManualStop {  }
            | Event::ConnectRetryTimerExpires {  }
            | Event::TcpConnectionValid {  }
            | Event::TcpCRInvalid {  }
            | Event::TcpCRAcked { .. }
            | Event::TcpConnectionConfirmed { .. }
            | Event::TcpConnectionFails { .. } => true,
            Event::DelayOpenTimerExpires {  }
            | Event::BGPOpenWithDelayOpenTimerRunning { .. } => out,
            Event::BGPHeaderErr { .. } | Event::BGPOpenMsgErr { .. } => {
                (!self.attr.send_notification_without_open || out) && can_count
            },
            Event::NotifyMsgVerErr { .. } => {
                self.attr.cur_hold_time != far_future() || can_count
            },
            _ => can_count,
        }
    }
}

impl Fsm<Active> {
    /// Whether the session goes on at that event.
    pub fn accepts(&self, event: &Event) -> (r: bool)
        ensures
            r == active_goes_on(*self, *event),
    {
        let out = self.state.bgp_out_tx.is_some();
        let can_count = self.attr.connect_retry_counter < u64::MAX;
        match event {
            Event::ManualStop {  } => {
                self.attr.cur_hold_time == far_future()
                    || !self.attr.send_notification_without_open || out
            },
            Event::ConnectRetryTimerExpires {  }
            | Event::TcpConnectionValid {  }
            | Event::TcpCRInvalid {  }
            | Event::TcpCRAcked { .. }
            | Event::TcpConnectionConfirmed { .. } => true,
            Event::DelayOpenTimerExpires {  }
            | Event::BGPOpenWithDelayOpenTimerRunning { .. } => out,
            Event::BGPHeaderErr { .. } | Event::BGPOpenMsgErr { .. } => {
                (!self.attr.send_notification_without_open || out) && can_count
            },
            Event::NotifyMsgVerErr { .. } => {
                self.attr.cur_hold_time != far_future() || can_count
            },
            _ => starts(event) || can_count,
        }
    }
}

/// Whether the connection of the peer wins a collision: its identifier is the larger one.
fn peer_wins(local: &Option<OpenMsg>, msg: &OpenMsg) -> (r: bool)
    ensures
        r == (local is Some && local->0.bgp_identifier < msg.bgp_identifier),
{
    match local {
        Some(local) => local.bgp_identifier < msg.bgp_identifier,
        None => false,
    }
}

impl Fsm<OpenSent> {
    /// Whether the session goes on at that event.
    pub fn accepts(&self, event: &Event, source: Source) -> (r: bool)
        ensures
            r == open_sent_goes_on(*self, *event, source),
    {
        let s = &self.state;
        let out = s.bgp_out_tx.is_some();
        let can_count = self.attr.connect_retry_counter < u64::MAX;
        match event {
            Event::ManualStop {  } => out,
            Event::AutomaticStop {  } | Event::HoldTimerExpires {  } => out && can_count,
            Event::TcpConnectionValid {  }
            | Event::TcpCRInvalid {  }
            | Event::TcpCRAcked { .. }
            | Event::TcpConnectionConfirmed { .. }
            | Event::ProcessOneDone { .. }
            | Event::TcpConnectionFails { .. }
            | Event::NotifyMsgVerErr { .. } => true,
            Event::BGPOpen { msg, remote_syn } => {
                s.local_open.is_some() && (s.remote_syn == *remote_syn || !peer_wins(
                    &s.local_open,
                    msg,
                ) || s.collision_conn.is_some())
            },
            Event::BGPHeaderErr { .. } | Event::BGPOpenMsgErr { .. } => {
                source != Source::Bgp || (out && can_count)
            },
            _ => starts(event) || out,
        }
    }
}

impl Fsm<OpenConfirm> {
    /// Whether the session goes on at that event.
    pub fn accepts(&self, event: &Event, source: Source) -> (r: bool)
        requires
            State::OpenConfirm(*self).wf(),
        ensures
            r == open_confirm_goes_on(*self, *event, source),
    {
        let s = &self.state;
        let can_count = self.attr.connect_retry_counter < u64::MAX;
        match event {
            Event::ManualStop {  }
            | Event::KeepaliveTimerExpires {  }
            | Event::TcpConnectionValid {  }
            | Event::TcpCRInvalid {  }
            | Event::OpenCollisionDump {  }
            | Event::TcpCRAcked { .. }
            | Event::TcpConnectionConfirmed { .. }
            | Event::ProcessOneDone { .. }
            | Event::NotifyMsgVerErr { .. }
            | Event::KeepaliveMsg {  } => true,
            Event::BGPOpen { msg, remote_syn } => {
                s.remote_syn != *remote_syn && (!peer_wins(&s.local_open, msg)
                    || s.collision_conn.is_some())
            },
            Event::BGPHeaderErr { .. } | Event::BGPOpenMsgErr { .. } => {
                source != Source::Bgp || can_count
            },
            _ => starts(event) || can_count,
        }
    }
}

impl Fsm<Established> {
    /// Whether the session goes on at that event.
    pub fn accepts(&self, event: &Event) -> (r: bool)
        requires
            State::Established(*self).wf(),
        ensures
            r == established_goes_on(*self, *event),
    {
        let s = &self.state;
        let can_count = self.attr.connect_retry_counter < u64::MAX;
        match event {
            Event::ManualStop {  }
            | Event::KeepaliveTimerExpires {  }
            | Event::TcpConnectionValid {  }
            | Event::TcpCRInvalid {  }
            | Event::TcpCRAcked { .. }
            | Event::TcpConnectionConfirmed { .. }
            | Event::ProcessOneDone { .. }
            | Event::KeepaliveMsg {  }
            | Event::UpdateMsg { .. } => true,
            Event::BGPOpen { msg, remote_syn } => {
                s.remote_syn != *remote_syn && (!self.attr.collision_detect_established_state
                    || !peer_wins(&s.local_open, msg) || s.collision_conn.is_some())
            },
            _ => starts(event) || can_count,
        }
    }
}

impl State {
    /// Whether the session goes on at that event.
    pub fn accepts(&self, event: &Event, source: Source) -> (r: bool)
        requires
            self.wf(),
        ensures
            r == self.goes_on(*event, source),
    {
        match self {
            State::Idle(_) => true,
            State::Connect(fsm) => fsm.accepts(event),
            State::Active(fsm) => fsm.accepts(event),
            State::OpenSent(fsm) => fsm.accepts(event, source),
            State::OpenConfirm(fsm) => fsm.accepts(event, source),
            State::Established(fsm) => fsm.accepts(event),
        }
    }

    /// What the session does on an event: its next state, and what has to be done for it,
    /// in order.
    pub fn step(self, event: Event, source: Source, conf: &Neighbor) -> (r: (State, Vec<Action>))
        requires
            self.wf(),
            self.goes_on(event, source),
        ensures
            r.0 == self.stepped(event, source, *conf).next,
            r.1@ == self.stepped(event, source, *conf).actions,
            r.0.wf(),
    {
        match self {
            State::Idle(fsm) => fsm.step(event),
            State::Connect(fsm) => fsm.step(event, conf),
            State::Active(fsm) => fsm.step(event, conf),
            State::OpenSent(fsm) => fsm.step(event, source, conf),
            State::OpenConfirm(fsm) => fsm.step(event, source),
            State::Established(fsm) => fsm.step(event),
        }
    }

    /// The event that an OPEN from the administrator's side is for this session: who hands
    /// it in does not know whether the own OPEN is delayed.
    pub open spec fn adapted(self, event: Event) -> Event {
        match event {
            Event::BGPOpen { msg, remote_syn } => if self.attr().cur_delay_open_time
                != far_future() {
                Event::BGPOpenWithDelayOpenTimerRunning { msg, remote_syn }
            } else {
                event
            },
            _ => event,
        }
    }

    pub fn adapt(&self, event: Event) -> (r: Event)
        ensures
            r == self.adapted(event),
    {
        match event {
            Event::BGPOpen { msg, remote_syn } => {
                if self.get_attr().cur_delay_open_time != far_future() {
                    Event::BGPOpenWithDelayOpenTimerRunning { msg, remote_syn }
                } else {
                    Event::BGPOpen { msg, remote_syn }
                }
            },
            e => e,
        }
    }
}

} // verus!
