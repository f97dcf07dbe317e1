//! The task that each accepted connection runs as, and the watcher that may
//! observe it.

use vstd::prelude::*;
use vstd::pervasive::unreached;
use crate::conn::Connection;
use crate::proto::{Kind, Polled};
use crate::serve::Connecting;
use crate::upgrades::UpgradeableConnection;

verus! {

/// Observes connections. A watcher is handed every connection before it is
/// driven and returns what is driven in its place.
pub trait Watcher<I, S, E>: Clone {
    /// What is driven in place of the connection.
    type Future;

    /// `fut` is what this watcher returns for `conn`.
    spec fn watches(&self, conn: UpgradeableConnection<I, S, E>, fut: Self::Future) -> bool;

    fn watch(&self, conn: UpgradeableConnection<I, S, E>) -> (fut: Self::Future)
        ensures
            self.watches(conn, fut),
    ;
}

/// The watcher that watches nothing: the connection itself is driven.
#[derive(Copy, Clone)]
pub struct NoopWatcher;

impl<I, S, E> Watcher<I, S, E> for NoopWatcher {
    type Future = UpgradeableConnection<I, S, E>;

    open spec fn watches(
        &self,
        conn: UpgradeableConnection<I, S, E>,
        fut: UpgradeableConnection<I, S, E>,
    ) -> bool {
        fut == conn
    }

    fn watch(&self, conn: UpgradeableConnection<I, S, E>) -> (fut: UpgradeableConnection<I, S, E>) {
        conn
    }
}

/// Where a task stands.
pub enum State<I, N, S, E, W: Watcher<I, S, E>> {
    /// The service is still being built.
    Connecting(Connecting<I, N, E>, W),
    /// The connection is built and watched, and is being driven.
    Connected(W::Future),
}

/// The task spawned for one accepted stream: it builds the service, binds the
/// connection, hands it to the watcher and drives the result to its end.
pub struct NewSvcTask<I, N, S, E, W: Watcher<I, S, E>> {
    pub state: State<I, N, S, E, W>,
}

/// What the outside reports to a task: the outcome of polling the factory's
/// work while the task is connecting, of polling the watched connection once
/// it is connected.
pub enum TaskEvent<S, NE> {
    Service(Polled<Result<S, NE>>),
    Connection(Polled<Result<(), Kind>>),
}

/// What the driver of a task does next.
#[derive(Clone, Copy, Debug, PartialEq, Eq, Structural)]
pub enum TaskStep {
    /// Yield.
    Pending,
    /// The task is connected now: poll the watched connection, at once.
    Again,
    /// The task is complete. An error, if any, is only to be logged: a task
    /// fails nobody but itself.
    Finished(Option<Kind>),
}

impl<I, N, S, E, W: Watcher<I, S, E>> NewSvcTask<I, N, S, E, W> {
    /// The service is still being built.
    pub open spec fn is_connecting(&self) -> bool {
        self.state is Connecting
    }

    /// The accepted stream and the factory's work, while connecting.
    pub open spec fn connecting(&self) -> Connecting<I, N, E>
        recommends
            self.is_connecting(),
    {
        self.state->Connecting_0
    }

    /// The watcher that will be handed the connection, while connecting.
    pub open spec fn watcher(&self) -> W
        recommends
            self.is_connecting(),
    {
        self.state->Connecting_1
    }

    /// A task that is about to build its service.
    pub fn new(connecting: Connecting<I, N, E>, watcher: W) -> (task: Self)
        ensures
            task.state == State::<I, N, S, E, W>::Connecting(connecting, watcher),
    {
        NewSvcTask { state: State::Connecting(connecting, watcher) }
    }
}

impl<I, N, S, E: Clone, W: Watcher<I, S, E>> NewSvcTask<I, N, S, E, W> {
    /// The task went from connecting to connected on `service`: some
    /// connection that its configuration binds to its stream and `service`
    /// was wrapped for upgrades and handed to its watcher, and what the
    /// watcher returned is what the task drives now.
    pub open spec fn connected_from(&self, before: Self, service: S) -> bool {
        &&& before.is_connecting()
        &&& self.state matches State::Connected(fut)
        &&& exists|conn: Connection<I, S, E>|
            {
                &&& #[trigger] before.connecting().protocol.binds(
                    before.connecting().io->Some_0,
                    service,
                    conn,
                )
                &&& conn.wf()
                &&& before.watcher().watches(UpgradeableConnection { inner: conn }, fut)
            }
    }

    /// Decides on what the outside reported.
    ///
    /// While connecting: a pending factory leaves the task as it is; a
    /// failed one completes the task with a factory error; a service makes
    /// the task connected, and the connection is to be polled at once.
    /// While connected: the task is pending as long as the connection is,
    /// and complete when it is, with its error if it had one.
    pub fn poll<NE>(&mut self, event: TaskEvent<S, NE>) -> (step: TaskStep)
        requires
            event is Service <==> old(self).is_connecting(),
            old(self).is_connecting() ==> old(self).connecting().protocol.wf(),
            event matches TaskEvent::Service(Polled::Ready(Ok(_)))
                ==> old(self).connecting().io is Some,
        ensures
            match event {
                TaskEvent::Service(Polled::Pending) => step == TaskStep::Pending
                    && *final(self) == *old(self),
                TaskEvent::Service(Polled::Ready(Err(_))) => step == TaskStep::Finished(
                    Some(Kind::UserMakeService),
                ) && *final(self) == *old(self),
                TaskEvent::Service(Polled::Ready(Ok(service))) => step == TaskStep::Again
                    && final(self).connected_from(*old(self), service),
                TaskEvent::Connection(Polled::Pending) => step == TaskStep::Pending
                    && *final(self) == *old(self),
                TaskEvent::Connection(Polled::Ready(Ok(_))) => step == TaskStep::Finished(None)
                    && *final(self) == *old(self),
                TaskEvent::Connection(Polled::Ready(Err(kind))) => step == TaskStep::Finished(
                    Some(kind),
                ) && *final(self) == *old(self),
            },
    {
        match event {
            TaskEvent::Connection(Polled::Pending) => TaskStep::Pending,
            TaskEvent::Connection(Polled::Ready(Ok(_))) => TaskStep::Finished(None),
            TaskEvent::Connection(Polled::Ready(Err(kind))) => TaskStep::Finished(Some(kind)),
            TaskEvent::Service(polled) => {
                let next = match &mut self.state {
                    State::Connecting(connecting, watcher) => {
                        match connecting.poll(polled) {
                            Polled::Pending => {
                                return TaskStep::Pending;
                            },
                            Polled::Ready(Err(_)) => {
                                return TaskStep::Finished(Some(Kind::UserMakeService));
                            },
                            Polled::Ready(Ok(conn)) => State::Connected(
                                watcher.watch(conn.with_upgrades()),
                            ),
                        }
                    },
                    State::Connected(_) => unreached(),
                };
                self.state = next;
                TaskStep::Again
            },
        }
    }
}

} // verus!
