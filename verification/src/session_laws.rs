//! What holds of every session, whatever happens to it.
use crate::config::Neighbor;
use crate::error::{Error, ErrorCode};
use crate::fsm::{
    far_future, new_attr, ConnId, Event, Operation, SessionAttributes, State, Timer, TimerKind,
    Wake,
};
use crate::message::{Message, OpenMsg};
use crate::net::SocketAddr;
use crate::time::Duration;
use crate::transition::{
    brought, idle, is_start, keepalive, keepalive_of, negotiated, notice, report, Action, Source,
    Step,
};
use vstd::prelude::*;

verus! {

impl State {
    /// The address of the peer.
    pub open spec fn peer(self) -> SocketAddr {
        match self {
            State::Idle(fsm) => fsm.peer,
            State::Connect(fsm) => fsm.peer,
            State::Active(fsm) => fsm.peer,
            State::OpenSent(fsm) => fsm.peer,
            State::OpenConfirm(fsm) => fsm.peer,
            State::Established(fsm) => fsm.peer,
        }
    }

    /// The connection that runs, if one does.
    pub open spec fn running(self) -> Option<ConnId> {
        match self {
            State::Idle(fsm) => None,
            State::Connect(fsm) => fsm.state.bgp_conn_handle,
            State::Active(fsm) => fsm.state.bgp_conn_handle,
            State::OpenSent(fsm) => fsm.state.bgp_conn_handle,
            State::OpenConfirm(fsm) => fsm.state.bgp_conn_handle,
            State::Established(fsm) => fsm.state.bgp_conn_handle,
        }
    }

    /// The connection that collides with the running one, if one does.
    pub open spec fn colliding(self) -> Option<ConnId> {
        match self {
            State::OpenSent(fsm) => fsm.state.collision_conn,
            State::OpenConfirm(fsm) => fsm.state.collision_conn,
            State::Established(fsm) => fsm.state.collision_conn,
            _ => None,
        }
    }

    /// Whether there is an attempt to connect.
    pub open spec fn trying(self) -> bool {
        match self {
            State::Connect(fsm) => fsm.state.tcp_conn_handle is Some,
            State::Active(fsm) => fsm.state.tcp_conn_handle is Some,
            _ => false,
        }
    }

    /// Who made the running connection: the peer if true.
    pub open spec fn remote_syn(self) -> bool {
        match self {
            State::OpenSent(fsm) => fsm.state.remote_syn,
            State::OpenConfirm(fsm) => fsm.state.remote_syn,
            State::Established(fsm) => fsm.state.remote_syn,
            _ => false,
        }
    }

    /// The OPEN that the session sent, if it has one to show.
    pub open spec fn local_open(self) -> Option<OpenMsg> {
        match self {
            State::OpenSent(fsm) => fsm.state.local_open,
            State::OpenConfirm(fsm) => fsm.state.local_open,
            State::Established(fsm) => fsm.state.local_open,
            _ => None,
        }
    }
}

/// What is outside of a session: what runs, and whether all that was asked for could be
/// done.
pub struct World {
    pub running: Option<ConnId>,
    pub trying: bool,
    pub fits: bool,
}

/// An action is done. A connection runs only after the one before it has stopped, only a
/// running connection is stopped or sent on, and there is one attempt at a time.
pub open spec fn act(world: World, action: Action) -> World {
    match action {
        Action::StartTcp {  } => World {
            trying: true,
            fits: world.fits && !world.trying,
            ..world
        },
        Action::AbortTcp {  } | Action::ReleaseTcp {  } => World {
            trying: false,
            fits: world.fits && world.trying,
            ..world
        },
        Action::StartBgp { conn, remote_syn } => World {
            running: Some(conn),
            fits: world.fits && world.running is None,
            ..world
        },
        Action::AbortBgp { conn } | Action::ReleaseBgp { conn } => World {
            running: None,
            fits: world.fits && world.running == Some(conn),
            ..world
        },
        Action::Send { conn, msg } => World {
            fits: world.fits && world.running == Some(conn),
            ..world
        },
        _ => world,
    }
}

/// Goes through the actions in order.
#[verifier::opaque]
pub open spec fn fold<B>(actions: Seq<Action>, b: B, f: spec_fn(B, Action) -> B) -> B
    decreases actions.len(),
{
    if actions.len() == 0 {
        b
    } else {
        f(fold(actions.drop_last(), b, f), actions.last())
    }
}

/// The actions are done in order.
pub open spec fn performed(world: World, actions: Seq<Action>) -> World {
    fold(actions, world, |w: World, action: Action| act(w, action))
}

/// What the timers of a session run for, the idle hold timer apart.
pub struct Timers {
    pub connect_retry: Duration,
    pub hold: Duration,
    pub keepalive: Duration,
    pub delay_open: Duration,
}

/// What the session takes its timers to run for.
pub open spec fn timers_of(attr: SessionAttributes) -> Timers {
    Timers {
        connect_retry: attr.cur_connect_retry_time,
        hold: attr.cur_hold_time,
        keepalive: attr.cur_keepalive_time,
        delay_open: attr.cur_delay_open_time,
    }
}

/// An action is done to the timers.
pub open spec fn set_timer(timers: Timers, action: Action) -> Timers {
    match action {
        Action::SetTimer { timer } => match timer.spec_kind() {
            TimerKind::ConnectRetry => Timers {
                connect_retry: timer.spec_op().applied(timers.connect_retry),
                ..timers
            },
            TimerKind::Hold => Timers { hold: timer.spec_op().applied(timers.hold), ..timers },
            TimerKind::Keepalive => Timers {
                keepalive: timer.spec_op().applied(timers.keepalive),
                ..timers
            },
            TimerKind::DelayOpen => Timers {
                delay_open: timer.spec_op().applied(timers.delay_open),
                ..timers
            },
            TimerKind::IdleHold => timers,
        },
        _ => timers,
    }
}

/// The timers after the actions.
pub open spec fn set_timers(timers: Timers, actions: Seq<Action>) -> Timers {
    fold(actions, timers, |t: Timers, action: Action| set_timer(t, action))
}

/// How often a connection is the one that is there.
pub open spec fn count(there: Option<ConnId>, conn: ConnId) -> nat {
    if there == Some(conn) {
        1
    } else {
        0
    }
}

/// How often an action lets go of a connection: the session knows of it no more.
pub open spec fn lets_go(action: Action, conn: ConnId) -> nat {
    match action {
        Action::AbortBgp { conn: c } => count(Some(c), conn),
        Action::ReleaseBgp { conn: c } => count(Some(c), conn),
        Action::StartCollision { conn: c } => count(Some(c), conn),
        Action::DropConn { conn: c } => count(Some(c), conn),
        _ => 0,
    }
}

/// How often the actions let go of a connection.
pub open spec fn let_go(actions: Seq<Action>, conn: ConnId) -> nat {
    fold(actions, 0nat, |n: nat, action: Action| n + lets_go(action, conn))
}

proof fn lemma_fold_add<B>(b: B, f: spec_fn(B, Action) -> B, x: Seq<Action>, y: Seq<Action>)
    ensures
        fold(x + y, b, f) == fold(y, fold(x, b, f), f),
    decreases y.len(),
{
    reveal_with_fuel(fold, 2);
    if y.len() == 0 {
        assert(x + y =~= x);
    } else {
        assert((x + y).drop_last() =~= x + y.drop_last());
        lemma_fold_add(b, f, x, y.drop_last());
    }
}

/// How the actions of a step are folded, which are put together from short pieces.
pub proof fn lemma_fold<B>(f: spec_fn(B, Action) -> B)
    ensures
        forall|b: B, x: Seq<Action>, y: Seq<Action>| #[trigger]
            fold(x + y, b, f) == fold(y, fold(x, b, f), f),
        forall|b: B, x: Seq<Action>, a: Action| #[trigger]
            fold(x.push(a), b, f) == f(fold(x, b, f), a),
        forall|b: B| #[trigger] fold(Seq::<Action>::empty(), b, f) == b,
{
    reveal_with_fuel(fold, 4);
    assert forall|b: B, x: Seq<Action>, y: Seq<Action>| #[trigger]
        fold(x + y, b, f) == fold(y, fold(x, b, f), f) by {
        lemma_fold_add(b, f, x, y);
    }
    assert forall|b: B, x: Seq<Action>, a: Action| #[trigger]
        fold(x.push(a), b, f) == f(fold(x, b, f), a) by {
        assert(x.push(a).drop_last() =~= x);
    }
}

/// What two lots of actions let go of adds up.
proof fn lemma_let_go_add(x: Seq<Action>, y: Seq<Action>, conn: ConnId)
    ensures
        let_go(x + y, conn) == let_go(x, conn) + let_go(y, conn),
    decreases y.len(),
{
    lemma_fold(|n: nat, action: Action| n + lets_go(action, conn));
    if y.len() == 0 {
        assert(x + y =~= x);
        assert(y =~= Seq::empty());
    } else {
        assert(x + y =~= (x + y.drop_last()).push(y.last()));
        assert(y =~= y.drop_last().push(y.last()));
        lemma_let_go_add(x, y.drop_last(), conn);
    }
}

/// Whether what a step asks for can be done, and gives what the session is afterwards.
spec fn fits(state: State, step: Step) -> bool {
    performed(
        World { running: state.running(), trying: state.trying(), fits: true },
        step.actions,
    ) == (World { running: step.next.running(), trying: step.next.trying(), fits: true })
}

/// Whether a step leaves the timers as the session takes them to be.
spec fn knows_timers(state: State, step: Step) -> bool {
    set_timers(timers_of(state.attr()), step.actions) == timers_of(step.next.attr())
}

/// Whether a step keeps a connection or lets go of it.
spec fn keeps(state: State, event: Event, step: Step, conn: ConnId) -> bool {
    count(state.running(), conn) + count(state.colliding(), conn) + count(brought(event), conn)
        == count(step.next.running(), conn) + count(step.next.colliding(), conn) + let_go(
        step.actions,
        conn,
    )
}

/// A session that connects does not note the delay of an OPEN that a connection of the
/// peer causes.
pub open spec fn delay_unnoted(state: State, event: Event) -> bool {
    state is Connect && event is TcpConnectionConfirmed && state.attr().delay_open
}

/// What is asked for in a state fits.
spec fn sound(state: State, event: Event, step: Step, conn: ConnId) -> bool {
    &&& fits(state, step)
    &&& delay_unnoted(state, event) || knows_timers(state, step)
    &&& keeps(state, event, step, conn)
}

#[verifier::spinoff_prover]
#[verifier::rlimit(50)]
proof fn lemma_idle(
    state: State,
    event: Event,
    source: Source,
    conf: Neighbor,
    conn: ConnId,
)
    requires
        state.wf(),
        state.goes_on(event, source),
        state is Idle,
    ensures
        sound(state, event, state.stepped(event, source, conf), conn),
{
    lemma_fold(|w: World, action: Action| act(w, action));
    lemma_fold(|t: Timers, action: Action| set_timer(t, action));
    lemma_fold(|n: nat, action: Action| n + lets_go(action, conn));
}

#[verifier::spinoff_prover]
#[verifier::rlimit(50)]
proof fn lemma_connect(
    state: State,
    event: Event,
    source: Source,
    conf: Neighbor,
    conn: ConnId,
)
    requires
        state.wf(),
        state.goes_on(event, source),
        state is Connect,
    ensures
        sound(state, event, state.stepped(event, source, conf), conn),
{
    lemma_fold(|w: World, action: Action| act(w, action));
    lemma_fold(|t: Timers, action: Action| set_timer(t, action));
    lemma_fold(|n: nat, action: Action| n + lets_go(action, conn));
}

#[verifier::spinoff_prover]
#[verifier::rlimit(50)]
proof fn lemma_active(
    state: State,
    event: Event,
    source: Source,
    conf: Neighbor,
    conn: ConnId,
)
    requires
        state.wf(),
        state.goes_on(event, source),
        state is Active,
    ensures
        sound(state, event, state.stepped(event, source, conf), conn),
{
    lemma_fold(|w: World, action: Action| act(w, action));
    lemma_fold(|t: Timers, action: Action| set_timer(t, action));
    lemma_fold(|n: nat, action: Action| n + lets_go(action, conn));
}

#[verifier::spinoff_prover]
#[verifier::rlimit(50)]
proof fn lemma_open_sent(
    state: State,
    event: Event,
    source: Source,
    conf: Neighbor,
    conn: ConnId,
)
    requires
        state.wf(),
        state.goes_on(event, source),
        state is OpenSent,
    ensures
        sound(state, event, state.stepped(event, source, conf), conn),
{
    lemma_fold(|w: World, action: Action| act(w, action));
    lemma_fold(|t: Timers, action: Action| set_timer(t, action));
    lemma_fold(|n: nat, action: Action| n + lets_go(action, conn));
}

#[verifier::spinoff_prover]
#[verifier::rlimit(50)]
proof fn lemma_open_confirm(
    state: State,
    event: Event,
    source: Source,
    conf: Neighbor,
    conn: ConnId,
)
    requires
        state.wf(),
        state.goes_on(event, source),
        state is OpenConfirm,
    ensures
        sound(state, event, state.stepped(event, source, conf), conn),
{
    lemma_fold(|w: World, action: Action| act(w, action));
    lemma_fold(|t: Timers, action: Action| set_timer(t, action));
    lemma_fold(|n: nat, action: Action| n + lets_go(action, conn));
}

#[verifier::spinoff_prover]
#[verifier::rlimit(50)]
proof fn lemma_established(
    state: State,
    event: Event,
    source: Source,
    conf: Neighbor,
    conn: ConnId,
)
    requires
        state.wf(),
        state.goes_on(event, source),
        state is Established,
    ensures
        sound(state, event, state.stepped(event, source, conf), conn),
{
    lemma_fold(|w: World, action: Action| act(w, action));
    lemma_fold(|t: Timers, action: Action| set_timer(t, action));
    lemma_fold(|n: nat, action: Action| n + lets_go(action, conn));
}

proof fn lemma_step(state: State, event: Event, source: Source, conf: Neighbor, conn: ConnId)
    requires
        state.wf(),
        state.goes_on(event, source),
    ensures
        sound(state, event, state.stepped(event, source, conf), conn),
{
    match state {
        State::Idle(_) => lemma_idle(state, event, source, conf, conn),
        State::Connect(_) => lemma_connect(state, event, source, conf, conn),
        State::Active(_) => lemma_active(state, event, source, conf, conn),
        State::OpenSent(_) => lemma_open_sent(state, event, source, conf, conn),
        State::OpenConfirm(_) => lemma_open_confirm(state, event, source, conf, conn),
        State::Established(_) => lemma_established(state, event, source, conf, conn),
    }
}

/// What a session asks for can be done: it sends on the running connection only, it never
/// runs two connections or makes two attempts at once, and it knows afterwards what runs.
pub proof fn law_actions_fit(state: State, event: Event, source: Source, conf: Neighbor)
    requires
        state.wf(),
        state.goes_on(event, source),
    ensures
        ({
            let step = state.stepped(event, source, conf);
            performed(
                World { running: state.running(), trying: state.trying(), fits: true },
                step.actions,
            ) == (World { running: step.next.running(), trying: step.next.trying(), fits: true })
        }),
{
    lemma_step(state, event, source, conf, ConnId { id: 0 });
}

/// A session knows what its timers run for: what it asks for sets them to that. The one
/// exception is a delay that is not noted.
pub proof fn law_timers_are_known(state: State, event: Event, source: Source, conf: Neighbor)
    requires
        state.wf(),
        state.goes_on(event, source),
        !delay_unnoted(state, event),
    ensures
        ({
            let step = state.stepped(event, source, conf);
            set_timers(timers_of(state.attr()), step.actions) == timers_of(step.next.attr())
        }),
{
    lemma_step(state, event, source, conf, ConnId { id: 0 });
}

/// No connection is lost, and none is held twice: what a session had and what the event
/// brings it still has, or lets go of, once.
pub proof fn law_connections_are_kept(
    state: State,
    event: Event,
    source: Source,
    conf: Neighbor,
    conn: ConnId,
)
    requires
        state.wf(),
        state.goes_on(event, source),
    ensures
        ({
            let step = state.stepped(event, source, conf);
            count(state.running(), conn) + count(state.colliding(), conn) + count(
                brought(event),
                conn,
            ) == count(step.next.running(), conn) + count(step.next.colliding(), conn) + let_go(
                step.actions,
                conn,
            )
        }),
{
    lemma_step(state, event, source, conf, conn);
}

/// What happens to a session, one event after the other, each with its source.
pub open spec fn ran(state: State, inputs: Seq<(Event, Source)>, conf: Neighbor) -> State
    decreases inputs.len(),
{
    if inputs.len() == 0 {
        state
    } else {
        let (event, source) = inputs.last();
        ran(state, inputs.drop_last(), conf).stepped(event, source, conf).next
    }
}

/// Whether the session goes on all the way.
pub open spec fn runs_on(state: State, inputs: Seq<(Event, Source)>, conf: Neighbor) -> bool
    decreases inputs.len(),
{
    inputs.len() > 0 ==> {
        let (event, source) = inputs.last();
        &&& runs_on(state, inputs.drop_last(), conf)
        &&& ran(state, inputs.drop_last(), conf).goes_on(event, source)
    }
}

/// A new session is well-formed. Nothing runs, nothing is tried, and no timer is set.
pub proof fn law_new_session(peer: SocketAddr)
    ensures
        ({
            let state = idle(peer, new_attr());
            &&& state.wf()
            &&& state.running() is None
            &&& !state.trying()
            &&& timers_of(state.attr()) == (Timers {
                connect_retry: far_future(),
                hold: far_future(),
                keepalive: far_future(),
                delay_open: far_future(),
            })
        }),
{
}

/// A step keeps a session well-formed.
#[verifier::spinoff_prover]
#[verifier::rlimit(50)]
pub proof fn law_step_keeps_wf(state: State, event: Event, source: Source, conf: Neighbor)
    requires
        state.wf(),
        state.goes_on(event, source),
    ensures
        state.stepped(event, source, conf).next.wf(),
{
}

/// Whatever happens to a new session, it is well-formed and has the peer that it was made
/// for.
pub proof fn law_session_stays_wf(
    peer: SocketAddr,
    inputs: Seq<(Event, Source)>,
    conf: Neighbor,
)
    requires
        runs_on(idle(peer, new_attr()), inputs, conf),
    ensures
        ran(idle(peer, new_attr()), inputs, conf).wf(),
        ran(idle(peer, new_attr()), inputs, conf).peer() == peer,
    decreases inputs.len(),
{
    if inputs.len() > 0 {
        let (event, source) = inputs.last();
        let before = ran(idle(peer, new_attr()), inputs.drop_last(), conf);
        law_session_stays_wf(peer, inputs.drop_last(), conf);
        law_step_keeps_wf(before, event, source, conf);
        law_settings_stay(before, event, source, conf);
    }
}

/// All that a session asks for while that happens to it.
pub open spec fn asked(
    state: State,
    inputs: Seq<(Event, Source)>,
    conf: Neighbor,
) -> Seq<Action>
    decreases inputs.len(),
{
    if inputs.len() == 0 {
        seq![]
    } else {
        let (event, source) = inputs.last();
        asked(state, inputs.drop_last(), conf) + ran(
            state,
            inputs.drop_last(),
            conf,
        ).stepped(event, source, conf).actions
    }
}

/// How often a connection is brought.
pub open spec fn times_brought(inputs: Seq<(Event, Source)>, conn: ConnId) -> nat
    decreases inputs.len(),
{
    if inputs.len() == 0 {
        0
    } else {
        times_brought(inputs.drop_last(), conn) + count(brought(inputs.last().0), conn)
    }
}

/// Whatever happens to a new session, all that it asks for can be done in turn, and it
/// knows what runs.
pub proof fn law_session_fits(peer: SocketAddr, inputs: Seq<(Event, Source)>, conf: Neighbor)
    requires
        runs_on(idle(peer, new_attr()), inputs, conf),
    ensures
        ({
            let new = idle(peer, new_attr());
            let state = ran(new, inputs, conf);
            performed(
                World { running: None, trying: false, fits: true },
                asked(new, inputs, conf),
            ) == (World { running: state.running(), trying: state.trying(), fits: true })
        }),
    decreases inputs.len(),
{
    let new = idle(peer, new_attr());
    lemma_fold(|w: World, action: Action| act(w, action));
    if inputs.len() > 0 {
        let (event, source) = inputs.last();
        let before = ran(new, inputs.drop_last(), conf);
        law_session_fits(peer, inputs.drop_last(), conf);
        law_session_stays_wf(peer, inputs.drop_last(), conf);
        law_actions_fit(before, event, source, conf);
    }
}

/// Whatever happens to a new session, every connection that was brought is still held or
/// was let go of, each time once.
pub proof fn law_session_loses_no_connection(
    peer: SocketAddr,
    inputs: Seq<(Event, Source)>,
    conf: Neighbor,
    conn: ConnId,
)
    requires
        runs_on(idle(peer, new_attr()), inputs, conf),
    ensures
        ({
            let new = idle(peer, new_attr());
            let state = ran(new, inputs, conf);
            times_brought(inputs, conn) == count(state.running(), conn) + count(
                state.colliding(),
                conn,
            ) + let_go(asked(new, inputs, conf), conn)
        }),
    decreases inputs.len(),
{
    let new = idle(peer, new_attr());
    lemma_fold(|n: nat, action: Action| n + lets_go(action, conn));
    if inputs.len() > 0 {
        let (event, source) = inputs.last();
        let before = ran(new, inputs.drop_last(), conf);
        let actions = before.stepped(event, source, conf).actions;
        law_session_loses_no_connection(peer, inputs.drop_last(), conf, conn);
        law_session_stays_wf(peer, inputs.drop_last(), conf);
        law_connections_are_kept(before, event, source, conf, conn);
        lemma_let_go_add(asked(new, inputs.drop_last(), conf), actions, conn);
    }
}

/// A step changes neither the peer nor what the session was set up to do. The hold time
/// and the keepalive interval change only where an OPEN is accepted.
#[verifier::spinoff_prover]
#[verifier::rlimit(50)]
pub proof fn law_settings_stay(state: State, event: Event, source: Source, conf: Neighbor)
    ensures
        ({
            let next = state.stepped(event, source, conf).next;
            let old_attr = state.attr();
            let attr = next.attr();
            &&& next.peer() == state.peer()
            &&& attr.connect_retry_time == old_attr.connect_retry_time
            &&& attr.delay_open_time == old_attr.delay_open_time
            &&& attr.delay_open == old_attr.delay_open
            &&& attr.send_notification_without_open == old_attr.send_notification_without_open
            &&& attr.damp_peer_oscillations == old_attr.damp_peer_oscillations
            &&& attr.collision_detect_established_state
                == old_attr.collision_detect_established_state
            &&& attr.hold_time != old_attr.hold_time || attr.keepalive_time
                != old_attr.keepalive_time ==> state !is OpenConfirm && next is OpenConfirm
        }),
{
}

/// A session that waits, or whose OPEN was sent, takes no notice of being started again.
pub proof fn law_start_is_ignored(state: State, event: Event, source: Source, conf: Neighbor)
    requires
        is_start(event),
        state !is Idle,
        state !is Connect,
    ensures
        state.goes_on(event, source),
        state.stepped(event, source, conf).next == state,
        state.stepped(event, source, conf).actions == Seq::<Action>::empty(),
{
}

/// An idle session stays idle unless it is started by hand or by itself. It closes what
/// comes up meanwhile.
pub proof fn law_idle_stays(state: State, event: Event, source: Source, conf: Neighbor)
    requires
        state is Idle,
    ensures
        state.goes_on(event, source),
        state.stepped(event, source, conf).next != state ==> is_start(event),
        brought(event) matches Some(conn) ==> state.stepped(event, source, conf).actions == seq![
            Action::DropConn { conn },
        ],
{
}

/// A session that is stopped by hand is idle, waits for no retry and has counted none.
pub proof fn law_manual_stop(state: State, source: Source, conf: Neighbor)
    requires
        state !is Idle,
    ensures
        ({
            let next = state.stepped(Event::ManualStop {  }, source, conf).next;
            &&& next is Idle
            &&& next.attr().connect_retry_counter == 0
            &&& next.attr().cur_connect_retry_time == far_future()
        }),
{
}

/// A session is up only after its OPEN was answered, by a KEEPALIVE.
#[verifier::spinoff_prover]
#[verifier::rlimit(50)]
pub proof fn law_established_by_keepalive(
    state: State,
    event: Event,
    source: Source,
    conf: Neighbor,
)
    requires
        state !is Established,
    ensures
        state.stepped(event, source, conf).next is Established <==> state is OpenConfirm
            && event is KeepaliveMsg,
{
}

/// The OPEN of a session is answered only by an OPEN, for which the hold time is then
/// negotiated.
#[verifier::spinoff_prover]
#[verifier::rlimit(50)]
pub proof fn law_confirmed_by_open(state: State, event: Event, source: Source, conf: Neighbor)
    requires
        state !is OpenConfirm,
        state.stepped(event, source, conf).next is OpenConfirm,
    ensures
        ({
            let next = state.stepped(event, source, conf).next;
            let peer_open = match event {
                Event::BGPOpen { msg, remote_syn } => Some(msg),
                Event::BGPOpenWithDelayOpenTimerRunning { msg, remote_syn } => Some(msg),
                _ => None,
            };
            &&& peer_open is Some
            &&& next->OpenConfirm_0.state.peer_open == peer_open
            &&& next.local_open() is Some
            &&& next.attr().hold_time == negotiated(
                next.local_open()->0,
                peer_open->0,
            )
        }),
{
}

/// A retry is counted only where the session ends, and one at a time. A session that goes
/// on keeps the count or starts it anew.
#[verifier::spinoff_prover]
#[verifier::rlimit(50)]
pub proof fn law_retries_are_counted(state: State, event: Event, source: Source, conf: Neighbor)
    requires
        state.goes_on(event, source),
    ensures
        ({
            let next = state.stepped(event, source, conf).next;
            let before = state.attr().connect_retry_counter;
            let after = next.attr().connect_retry_counter;
            &&& after == 0 || after == before || after == before + 1
            &&& after > before ==> next is Idle
        }),
{
}

/// Where two connections collide before a session is up, the one that is left is that of
/// the speaker with the larger identifier.
pub proof fn law_larger_identifier_wins(
    state: State,
    msg: OpenMsg,
    remote_syn: bool,
    source: Source,
    conf: Neighbor,
)
    requires
        state.wf(),
        state is OpenSent || state is OpenConfirm,
        state.remote_syn() != remote_syn,
        state.goes_on(Event::BGPOpen { msg, remote_syn }, source),
    ensures
        ({
            let next = state.stepped(Event::BGPOpen { msg, remote_syn }, source, conf).next;
            &&& next is OpenConfirm
            &&& next.colliding() is None
            &&& next.running() == if state.local_open()->0.bgp_identifier < msg.bgp_identifier {
                state.colliding()
            } else {
                state.running()
            }
        }),
{
}

/// A session that is up and does not look for collisions keeps its connection.
pub proof fn law_established_keeps_its_connection(
    state: State,
    msg: OpenMsg,
    remote_syn: bool,
    source: Source,
    conf: Neighbor,
)
    requires
        state is Established,
        !state.attr().collision_detect_established_state,
    ensures
        ({
            let next = state.stepped(Event::BGPOpen { msg, remote_syn }, source, conf).next;
            &&& next is Established
            &&& next.running() == state.running()
            &&& next.colliding() is None
        }),
{
}

/// What a session behind a sent OPEN does first when it ends by itself or is refused
/// something: the message that it sends.
pub open spec fn parting(state: State, event: Event, source: Source) -> Option<Message> {
    match event {
        Event::ManualStop {  } => Some(notice(ErrorCode::Cease)),
        Event::AutomaticStop {  } => Some(notice(ErrorCode::Cease)),
        Event::HoldTimerExpires {  } => Some(notice(ErrorCode::HoldTimerExpired)),
        Event::BGPHeaderErr { err } => if state is Established {
            Some(notice(ErrorCode::FiniteStateMachineError))
        } else if source == Source::Bgp {
            Some(report(err))
        } else {
            None
        },
        Event::BGPOpenMsgErr { err } => if state is Established {
            Some(notice(ErrorCode::FiniteStateMachineError))
        } else if source == Source::Bgp {
            Some(report(err))
        } else {
            None
        },
        Event::UpdateMsgErr { err } => if state is Established {
            Some(report(err))
        } else {
            Some(notice(ErrorCode::FiniteStateMachineError))
        },
        _ => None,
    }
}

/// A session behind a sent OPEN that is stopped, waits too long or refuses what its peer
/// sent tells the peer so with a NOTIFICATION that names the error, before anything else,
/// and is then idle.
#[verifier::spinoff_prover]
#[verifier::rlimit(50)]
pub proof fn law_peer_is_told(state: State, event: Event, source: Source, conf: Neighbor)
    requires
        state.wf(),
        state.goes_on(event, source),
        state is OpenSent || state is OpenConfirm || state is Established,
        parting(state, event, source) is Some,
    ensures
        ({
            let step = state.stepped(event, source, conf);
            &&& state.running() is Some
            &&& step.actions.len() > 0
            &&& step.actions[0] == (Action::Send {
                conn: state.running()->0,
                msg: parting(state, event, source)->0,
            })
            &&& step.next is Idle
        }),
{
}

/// What a colliding connection got wrong does not end a session that is not up yet.
pub proof fn law_colliding_error_is_ignored(
    state: State,
    err: Error,
    source: Source,
    conf: Neighbor,
)
    requires
        state is OpenSent || state is OpenConfirm,
        source != Source::Bgp,
    ensures
        state.stepped(Event::BGPHeaderErr { err }, source, conf).next == state,
        state.stepped(Event::BGPHeaderErr { err }, source, conf).actions == Seq::<Action>::empty(),
        state.stepped(Event::BGPOpenMsgErr { err }, source, conf).next == state,
        state.stepped(Event::BGPOpenMsgErr { err }, source, conf).actions == Seq::<
            Action,
        >::empty(),
{
}

/// The hold time of two speakers is the same for both, is that of one of them, and is
/// larger than neither. The keepalive interval that goes with it is a third of it; with a
/// hold time of zero there is none.
pub proof fn law_hold_time(local: OpenMsg, peer: OpenMsg)
    ensures
        ({
            let hold_time = negotiated(local, peer);
            &&& hold_time == negotiated(peer, local)
            &&& hold_time.secs <= local.hold_time && hold_time.secs <= peer.hold_time
            &&& hold_time.secs == local.hold_time || hold_time.secs == peer.hold_time
            &&& hold_time.nanos == 0
            &&& keepalive_of(hold_time).wf()
            &&& if hold_time == Duration::zero() {
                keepalive_of(hold_time) == far_future()
            } else {
                keepalive_of(hold_time).total() == hold_time.total() / 3
            }
        }),
{
    let n = negotiated(local, peer).total() / 3;
    vstd::arithmetic::div_mod::lemma_fundamental_div_mod(n as int, 1_000_000_000);
}

/// Without a hold time neither the hold timer nor the keepalive timer runs, and the keepalive
/// timer is not started again.
pub proof fn law_no_hold_time(state: State, event: Event, source: Source, conf: Neighbor)
    ensures
        ({
            let step = state.stepped(event, source, conf);
            let attr = step.next.attr();
            &&& state !is OpenConfirm && step.next is OpenConfirm && attr.hold_time
                == Duration::zero() ==> attr.cur_hold_time == far_future()
                && attr.cur_keepalive_time == far_future()
            &&& state is Established && event is KeepaliveTimerExpires ==> (
            step.actions.contains(keepalive(Operation::Restart)) <==> state.attr().hold_time
                != Duration::zero())
        }),
{
    if state is Established && event is KeepaliveTimerExpires {
        let actions = state.stepped(event, source, conf).actions;
        if state.attr().hold_time != Duration::zero() {
            assert(actions.last() == keepalive(Operation::Restart));
        }
    }
}

/// Something that happens to the timers.
pub enum Tick {
    Told { timer: Timer },
    Expired { kind: TimerKind },
}

impl Tick {
    /// The timer that it happens to.
    pub open spec fn kind(self) -> TimerKind {
        match self {
            Tick::Told { timer } => timer.spec_kind(),
            Tick::Expired { kind } => kind,
        }
    }

    /// How it ends the wait of that timer.
    pub open spec fn wake(self) -> Wake {
        match self {
            Tick::Told { timer } => Wake::Told { op: Some(timer.spec_op()) },
            Tick::Expired { kind } => Wake::Expired,
        }
    }

    /// Whether the timer neither stops nor is set to a new time.
    pub open spec fn keeps_time(self) -> bool {
        match self {
            Tick::Told { timer } => timer.spec_op() == Operation::Restart,
            Tick::Expired { kind } => true,
        }
    }
}

/// How a timer waits: for that time, since then.
pub struct Waiting {
    pub time: Duration,
    pub since: nat,
}

impl Waiting {
    /// When the timer expires unless it is told something before.
    pub open spec fn due(self) -> nat {
        self.since + self.time.total()
    }
}

/// How a timer waits after that happened, each with the time at which it did. All timers
/// start stopped.
pub open spec fn waits(kind: TimerKind, ticks: Seq<(nat, Tick)>) -> Waiting
    decreases ticks.len(),
{
    if ticks.len() == 0 {
        Waiting { time: far_future(), since: 0 }
    } else {
        let before = waits(kind, ticks.drop_last());
        let (at, tick) = ticks.last();
        if tick.kind() == kind {
            Waiting { time: tick.wake().next_time(before.time), since: at }
        } else {
            before
        }
    }
}

/// A timer that was stopped, or that was never set, is not armed by being started again,
/// nor by what happens to other timers: it is not due before the far future. `n` counts
/// what happened up to the stop; it is zero for a timer that was never set.
pub proof fn law_stopped_timer_is_not_armed(kind: TimerKind, ticks: Seq<(nat, Tick)>, n: int)
    requires
        0 <= n <= ticks.len(),
        n > 0 ==> {
            &&& ticks[n - 1].1 matches Tick::Told { timer }
            &&& timer.spec_kind() == kind
            &&& timer.spec_op() == Operation::Stop
        },
        forall|i: int|
            n <= i < ticks.len() && (#[trigger] ticks[i]).1.kind() == kind
                ==> ticks[i].1.keeps_time(),
    ensures
        waits(kind, ticks).time == far_future(),
        waits(kind, ticks).due() == waits(kind, ticks).since + far_future().total(),
    decreases ticks.len(),
{
    if ticks.len() > n {
        let before = ticks.drop_last();
        assert forall|i: int|
            n <= i < before.len() && (#[trigger] before[i]).1.kind() == kind implies before[
            i
        ].1.keeps_time() by {
            assert(before[i] == ticks[i]);
        }
        law_stopped_timer_is_not_armed(kind, before, n);
        assert(ticks[ticks.len() - 1] == ticks.last());
    }
}

/// A timer that was set to a time keeps it, however often it expires or is started again and
/// whatever happens to other timers, until it is stopped or set anew.
pub proof fn law_set_timer_keeps_its_time(
    kind: TimerKind,
    ticks: Seq<(nat, Tick)>,
    n: int,
    time: Duration,
)
    requires
        0 <= n < ticks.len(),
        ticks[n].1 matches Tick::Told { timer } && timer.spec_kind() == kind && timer.spec_op() == (
        Operation::Update { duration: time }),
        forall|i: int|
            n < i < ticks.len() && (#[trigger] ticks[i]).1.kind() == kind
                ==> ticks[i].1.keeps_time(),
    ensures
        waits(kind, ticks).time == time,
    decreases ticks.len(),
{
    if ticks.len() > n + 1 {
        let before = ticks.drop_last();
        assert forall|i: int|
            n < i < before.len() && (#[trigger] before[i]).1.kind() == kind implies before[
            i
        ].1.keeps_time() by {
            assert(before[i] == ticks[i]);
        }
        assert(before[n] == ticks[n]);
        law_set_timer_keeps_its_time(kind, before, n, time);
        assert(ticks[ticks.len() - 1] == ticks.last());
    }
}

/// A timer waits since the last thing that happened to it, whatever happened to other timers
/// since.
pub proof fn law_timer_waits_since_its_last_tick(
    kind: TimerKind,
    ticks: Seq<(nat, Tick)>,
    n: int,
)
    requires
        0 <= n < ticks.len(),
        ticks[n].1.kind() == kind,
        forall|i: int| n < i < ticks.len() ==> (#[trigger] ticks[i]).1.kind() != kind,
    ensures
        waits(kind, ticks).since == ticks[n].0,
        waits(kind, ticks).due() == ticks[n].0 + waits(kind, ticks).time.total(),
    decreases ticks.len(),
{
    if ticks.len() > n + 1 {
        let before = ticks.drop_last();
        assert forall|i: int| n < i < before.len() implies (#[trigger] before[i]).1.kind()
            != kind by {
            assert(before[i] == ticks[i]);
        }
        assert(before[n] == ticks[n]);
        law_timer_waits_since_its_last_tick(kind, before, n);
        assert(ticks[ticks.len() - 1] == ticks.last());
    }
}

/// What happens to other timers does not matter to a timer.
pub proof fn law_other_timers_do_not_matter(kind: TimerKind, ticks: Seq<(nat, Tick)>)
    ensures
        waits(kind, ticks) == waits(
            kind,
            ticks.filter(|t: (nat, Tick)| t.1.kind() == kind),
        ),
    decreases ticks.len(),
{
    reveal(Seq::filter);
    if ticks.len() > 0 {
        let own = |t: (nat, Tick)| t.1.kind() == kind;
        let before = ticks.drop_last();
        law_other_timers_do_not_matter(kind, before);
        if own(ticks.last()) {
            assert(before.filter(own).push(ticks.last()).drop_last() =~= before.filter(own));
        }
    }
}

/// A timer that expires when it is due tells the session so, and waits for the same time
/// again from then on. No other timer is touched, and none tells the session the same.
pub proof fn law_timer_repeats(kind: TimerKind, other: TimerKind, ticks: Seq<(nat, Tick)>)
    ensures
        ({
            let due = waits(kind, ticks).due();
            let after = ticks.push((due, Tick::Expired { kind }));
            &&& Wake::Expired.event(kind) is Some
            &&& waits(kind, after) == (Waiting { time: waits(kind, ticks).time, since: due })
            &&& other != kind ==> waits(other, after) == waits(other, ticks)
                && Wake::Expired.event(other) != Wake::Expired.event(kind)
        }),
{
    let due = waits(kind, ticks).due();
    assert(ticks.push((due, Tick::Expired { kind })).drop_last() =~= ticks);
}

} // verus!
