//! The serving future of the axum integration, its graceful-shutdown form, and
//! the decisions that serving with graceful shutdown takes step by step.
use vstd::prelude::*;
use std::marker::PhantomData;

verus! {

/// Serving of a service on a listener, to be driven to completion by the caller.
pub struct Serve<L, M, S> {
    tokio_listener: L,
    make_service: M,
    _marker: PhantomData<S>,
}

/// Serving with graceful shutdown once `signal` completes.
pub struct WithGracefulShutdown<L, M, S, F> {
    tokio_listener: L,
    make_service: M,
    signal: F,
    _marker: PhantomData<S>,
}

impl<L, M, S> Serve<L, M, S> {
    /// The listener that is served.
    pub closed spec fn listener(self) -> L {
        self.tokio_listener
    }

    /// The service maker called for each connection.
    pub closed spec fn service_maker(self) -> M {
        self.make_service
    }

    /// Takes the listener and the service maker out.
    pub fn into_parts(self) -> (r: (L, M))
        ensures
            r.0 == self.listener(),
            r.1 == self.service_maker(),
    {
        (self.tokio_listener, self.make_service)
    }

    /// Prepares a server to handle graceful shutdown when the provided future completes.
    pub fn with_graceful_shutdown<F>(self, signal: F) -> (r: WithGracefulShutdown<L, M, S, F>)
        ensures
            r.listener() == self.listener(),
            r.service_maker() == self.service_maker(),
            r.signal() == signal,
    {
        WithGracefulShutdown {
            tokio_listener: self.tokio_listener,
            make_service: self.make_service,
            signal,
            _marker: PhantomData,
        }
    }
}

impl<L, M, S, F> WithGracefulShutdown<L, M, S, F> {
    /// The listener that is served.
    pub closed spec fn listener(self) -> L {
        self.tokio_listener
    }

    /// The service maker called for each connection.
    pub closed spec fn service_maker(self) -> M {
        self.make_service
    }

    /// The future whose completion starts the shutdown.
    pub closed spec fn signal(self) -> F {
        self.signal
    }

    /// Takes the listener, the service maker and the shutdown signal out.
    pub fn into_parts(self) -> (r: (L, M, F))
        ensures
            r.0 == self.listener(),
            r.1 == self.service_maker(),
            r.2 == self.signal(),
    {
        (self.tokio_listener, self.make_service, self.signal)
    }
}

/// Where serving with graceful shutdown stands: whether the shutdown signal
/// has come (after which no connection is accepted), and how many accepted
/// connections are still being served.
#[derive(Debug, Clone, Copy, PartialEq, Eq, Structural)]
pub struct GracefulPhase {
    pub draining: bool,
    pub open_connections: u64,
}

/// What happens to serving with graceful shutdown.
#[derive(Debug, Clone, Copy, PartialEq, Eq, Structural)]
pub enum GracefulEvent {
    /// The listener accepted a connection.
    Accepted,
    /// Accepting failed and is to be tried again.
    AcceptRetried,
    /// The shutdown signal completed.
    ShutdownSignal,
    /// One of the connections being served closed.
    ConnectionClosed,
}

/// What serving with graceful shutdown does next.
#[derive(Debug, Clone, Copy, PartialEq, Eq, Structural)]
pub enum GracefulAction {
    /// Serve the accepted connection, then accept again.
    ServeConnection,
    /// Accept the next connection.
    AcceptAgain,
    /// Close the listener (dropping a connection accepted after the signal)
    /// and wait for the connections still open.
    StopAccepting,
    /// Keep waiting for the connections still open.
    AwaitConnections,
    /// Every connection has closed after the signal: serving is done.
    Finish,
}

/// The action once the signal has come: finish when no connection is open,
/// else wait for the open ones.
pub open spec fn drain_action(open_connections: u64) -> GracefulAction {
    if open_connections == 0 {
        GracefulAction::Finish
    } else {
        GracefulAction::AwaitConnections
    }
}

/// One step of serving with graceful shutdown. Before the signal, an accepted
/// connection is served and counted, a failed accept is retried and a closed
/// connection is counted off. The signal stops accepting for good; from then
/// on nothing is served, and serving finishes when no connection is open.
pub open spec fn graceful_step_spec(p: GracefulPhase, e: GracefulEvent) -> (GracefulPhase, GracefulAction) {
    match e {
        GracefulEvent::Accepted => if p.draining {
            (p, drain_action(p.open_connections))
        } else {
            (
                GracefulPhase { draining: false, open_connections: (p.open_connections + 1) as u64 },
                GracefulAction::ServeConnection,
            )
        },
        GracefulEvent::AcceptRetried => if p.draining {
            (p, drain_action(p.open_connections))
        } else {
            (p, GracefulAction::AcceptAgain)
        },
        GracefulEvent::ShutdownSignal => {
            let q = GracefulPhase { draining: true, open_connections: p.open_connections };
            if p.draining || p.open_connections == 0 {
                (q, drain_action(p.open_connections))
            } else {
                (q, GracefulAction::StopAccepting)
            }
        },
        GracefulEvent::ConnectionClosed => {
            let q = GracefulPhase {
                draining: p.draining,
                open_connections: (p.open_connections - 1) as u64,
            };
            if p.draining {
                (q, drain_action(q.open_connections))
            } else {
                (q, GracefulAction::AcceptAgain)
            }
        },
    }
}

/// Decides the next step of serving with graceful shutdown after the event `e`.
pub fn graceful_step(p: GracefulPhase, e: GracefulEvent) -> (r: (GracefulPhase, GracefulAction))
    requires
        e == GracefulEvent::ConnectionClosed ==> p.open_connections > 0,
        e == GracefulEvent::Accepted ==> p.open_connections < u64::MAX,
    ensures
        r == graceful_step_spec(p, e),
        p.draining ==> r.0.draining && r.1 != GracefulAction::ServeConnection,
        e == GracefulEvent::ShutdownSignal ==> r.0.draining,
        (r.1 == GracefulAction::Finish) <==> (r.0.draining && r.0.open_connections == 0),
        p.draining ==> (r.1 == GracefulAction::Finish || r.1 == GracefulAction::AwaitConnections),
{
    match e {
        GracefulEvent::Accepted => {
            if p.draining {
                (p, drain(p.open_connections))
            } else {
                (
                    GracefulPhase { draining: false, open_connections: p.open_connections + 1 },
                    GracefulAction::ServeConnection,
                )
            }
        },
        GracefulEvent::AcceptRetried => {
            if p.draining {
                (p, drain(p.open_connections))
            } else {
                (p, GracefulAction::AcceptAgain)
            }
        },
        GracefulEvent::ShutdownSignal => {
            let q = GracefulPhase { draining: true, open_connections: p.open_connections };
            if p.draining || p.open_connections == 0 {
                (q, drain(p.open_connections))
            } else {
                (q, GracefulAction::StopAccepting)
            }
        },
        GracefulEvent::ConnectionClosed => {
            let q = GracefulPhase { draining: p.draining, open_connections: p.open_connections - 1 };
            if p.draining {
                (q, drain(q.open_connections))
            } else {
                (q, GracefulAction::AcceptAgain)
            }
        },
    }
}

fn drain(open_connections: u64) -> (r: GracefulAction)
    ensures
        r == drain_action(open_connections),
{
    if open_connections == 0 {
        GracefulAction::Finish
    } else {
        GracefulAction::AwaitConnections
    }
}

/// What happens to one connection being served with graceful shutdown.
#[derive(Debug, Clone, Copy, PartialEq, Eq, Structural)]
pub enum ConnectionEvent {
    /// Serving the connection completed (with or without an error).
    Completed,
    /// The shutdown signal completed.
    ShutdownSignal,
}

/// What is done with one connection next.
#[derive(Debug, Clone, Copy, PartialEq, Eq, Structural)]
pub enum ConnectionAction {
    /// Keep serving the connection.
    KeepServing,
    /// Tell the connection to shut down gracefully, and keep serving it until
    /// it completes.
    StartGracefulShutdown,
    /// The connection is done: count it off.
    Close,
}

/// One step for one connection: `signal_seen` says whether the signal has
/// already been passed on to it. Completion closes it; the first signal starts
/// its graceful shutdown, and a later one changes nothing.
pub open spec fn connection_step_spec(signal_seen: bool, e: ConnectionEvent) -> (bool, ConnectionAction) {
    match e {
        ConnectionEvent::Completed => (signal_seen, ConnectionAction::Close),
        ConnectionEvent::ShutdownSignal => if signal_seen {
            (true, ConnectionAction::KeepServing)
        } else {
            (true, ConnectionAction::StartGracefulShutdown)
        },
    }
}

/// Decides what is done with one connection after the event `e`.
pub fn connection_step(signal_seen: bool, e: ConnectionEvent) -> (r: (bool, ConnectionAction))
    ensures
        r == connection_step_spec(signal_seen, e),
{
    match e {
        ConnectionEvent::Completed => (signal_seen, ConnectionAction::Close),
        ConnectionEvent::ShutdownSignal => {
            if signal_seen {
                (true, ConnectionAction::KeepServing)
            } else {
                (true, ConnectionAction::StartGracefulShutdown)
            }
        },
    }
}

/// The phase after the events `es`, one step each, from `p`.
pub open spec fn graceful_after(p: GracefulPhase, es: Seq<GracefulEvent>) -> GracefulPhase
    decreases es.len(),
{
    if es.len() == 0 {
        p
    } else {
        graceful_after(graceful_step_spec(p, es[0]).0, es.drop_first())
    }
}

/// Whether some step of the events `es`, from `p`, serves a connection.
pub open spec fn serves_during(p: GracefulPhase, es: Seq<GracefulEvent>) -> bool
    decreases es.len(),
{
    if es.len() == 0 {
        false
    } else {
        graceful_step_spec(p, es[0]).1 == GracefulAction::ServeConnection
            || serves_during(graceful_step_spec(p, es[0]).0, es.drop_first())
    }
}

/// Once the shutdown signal has come, no connection is served again, whatever
/// happens after it, and the shutdown is never undone.
pub proof fn lemma_no_service_after_signal(p: GracefulPhase, es: Seq<GracefulEvent>)
    requires
        p.draining,
    ensures
        !serves_during(p, es),
        graceful_after(p, es).draining,
    decreases es.len(),
{
    if es.len() > 0 {
        lemma_no_service_after_signal(graceful_step_spec(p, es[0]).0, es.drop_first());
    }
}

/// After the signal, each closed connection is counted off: closing `n` of the
/// open connections leaves the others open and the shutdown in place. (By the
/// contract of [`graceful_step`], the step that closes the last one is the one
/// that finishes.)
pub proof fn lemma_drain_finishes(p: GracefulPhase, n: nat)
    requires
        p.draining,
        n <= p.open_connections,
    ensures
        graceful_after(p, Seq::new(n, |i: int| GracefulEvent::ConnectionClosed))
            == (GracefulPhase { draining: true, open_connections: (p.open_connections - n) as u64 }),
    decreases n,
{
    let es = Seq::new(n, |i: int| GracefulEvent::ConnectionClosed);
    if n > 0 {
        let q = graceful_step_spec(p, es[0]).0;
        assert(es.drop_first() =~= Seq::new((n - 1) as nat, |i: int| GracefulEvent::ConnectionClosed));
        lemma_drain_finishes(q, (n - 1) as nat);
    }
}

/// The step plain serving (without graceful shutdown) takes after an event:
/// an accepted connection is served, and after anything else it accepts again.
pub open spec fn plain_action(e: GracefulEvent) -> GracefulAction {
    if e == GracefulEvent::Accepted {
        GracefulAction::ServeConnection
    } else {
        GracefulAction::AcceptAgain
    }
}

/// The actions of the steps of the events `es`, one step each, from `p`.
pub open spec fn graceful_actions(p: GracefulPhase, es: Seq<GracefulEvent>) -> Seq<GracefulAction>
    decreases es.len(),
{
    if es.len() == 0 {
        Seq::empty()
    } else {
        seq![graceful_step_spec(p, es[0]).1] + graceful_actions(
            graceful_step_spec(p, es[0]).0,
            es.drop_first(),
        )
    }
}

/// As long as the shutdown signal does not come, serving with graceful
/// shutdown takes the same steps as plain serving, event for event, and never
/// starts draining.
pub proof fn lemma_without_signal_as_plain(p: GracefulPhase, es: Seq<GracefulEvent>)
    requires
        !p.draining,
        forall|i: int| 0 <= i < es.len() ==> es[i] != GracefulEvent::ShutdownSignal,
    ensures
        graceful_actions(p, es) == es.map_values(|e: GracefulEvent| plain_action(e)),
        !graceful_after(p, es).draining,
    decreases es.len(),
{
    if es.len() > 0 {
        let rest = es.drop_first();
        assert forall|i: int| 0 <= i < rest.len() implies rest[i] != GracefulEvent::ShutdownSignal by {
            assert(rest[i] == es[i + 1]);
        }
        lemma_without_signal_as_plain(graceful_step_spec(p, es[0]).0, rest);
        assert(es.map_values(|e: GracefulEvent| plain_action(e)) =~= seq![plain_action(es[0])]
            + rest.map_values(|e: GracefulEvent| plain_action(e)));
    }
}

/// Once the signal has come, every step only waits for the open connections
/// or finishes: nothing is accepted or served again. A closed connection is
/// counted off, any other event leaves the count as it is, and serving
/// finishes exactly when none is left open.
pub proof fn lemma_draining_step(p: GracefulPhase, e: GracefulEvent)
    requires
        p.draining,
        e == GracefulEvent::ConnectionClosed ==> p.open_connections > 0,
    ensures
        graceful_step_spec(p, e).0.draining,
        graceful_step_spec(p, e).1 == GracefulAction::Finish || graceful_step_spec(p, e).1
            == GracefulAction::AwaitConnections,
        graceful_step_spec(p, e).0.open_connections == (if e == GracefulEvent::ConnectionClosed {
            p.open_connections - 1
        } else {
            p.open_connections as int
        }),
        graceful_step_spec(p, e).1 == GracefulAction::Finish <==> graceful_step_spec(
            p,
            e,
        ).0.open_connections == 0,
{
}

/// The first shutdown signal stops accepting, keeps the count of open
/// connections, and finishes at once when none is open.
pub proof fn lemma_first_signal(p: GracefulPhase)
    requires
        !p.draining,
    ensures
        graceful_step_spec(p, GracefulEvent::ShutdownSignal).0 == (GracefulPhase {
            draining: true,
            open_connections: p.open_connections,
        }),
        graceful_step_spec(p, GracefulEvent::ShutdownSignal).1 == (if p.open_connections == 0 {
            GracefulAction::Finish
        } else {
            GracefulAction::StopAccepting
        }),
{
}

/// Before the signal, an accepted connection is served and counted, and a
/// closed one is counted off.
pub proof fn lemma_counting_before_signal(p: GracefulPhase, e: GracefulEvent)
    requires
        !p.draining,
        e == GracefulEvent::ConnectionClosed ==> p.open_connections > 0,
        e == GracefulEvent::Accepted ==> p.open_connections < u64::MAX,
    ensures
        e == GracefulEvent::Accepted ==> graceful_step_spec(p, e) == (
        GracefulPhase { draining: false, open_connections: (p.open_connections + 1) as u64 },
        GracefulAction::ServeConnection,
        ),
        e == GracefulEvent::ConnectionClosed ==> graceful_step_spec(p, e) == (
        GracefulPhase { draining: false, open_connections: (p.open_connections - 1) as u64 },
        GracefulAction::AcceptAgain,
        ),
        e == GracefulEvent::AcceptRetried ==> graceful_step_spec(p, e) == (
        p,
        GracefulAction::AcceptAgain,
        ),
{
}

/// Serve the service `make_service` with the supplied listener.
pub fn serve<L, M, S>(tokio_listener: L, make_service: M) -> (r: Serve<L, M, S>)
    ensures
        r.listener() == tokio_listener,
        r.service_maker() == make_service,
{
    Serve { tokio_listener, make_service, _marker: PhantomData }
}

} // verus!
