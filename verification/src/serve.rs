//! Pairing accepted streams with services.

use vstd::prelude::*;
use vstd::pervasive::unreached;
use crate::config::Http;
use crate::conn::Connection;
use crate::proto::{Kind, Polled};
use crate::spawn_all::{NewSvcTask, Watcher};

verus! {

/// An incoming source of byte streams paired with a service factory. For
/// each accepted stream it yields a `Connecting`.
#[derive(Debug)]
pub struct Serve<I, S, E> {
    pub incoming: I,
    pub make_service: S,
    pub protocol: Http<E>,
}

/// A service under construction for an accepted stream; it completes into a
/// `Connection`.
#[derive(Debug)]
pub struct Connecting<I, F, E> {
    /// The factory's work in progress.
    pub future: F,
    /// The accepted stream, until the connection is built.
    pub io: Option<I>,
    pub protocol: Http<E>,
}

/// A `Serve` whose connections are all spawned onto its executor.
#[derive(Debug)]
pub struct SpawnAll<I, S, E> {
    pub serve: Serve<I, S, E>,
}

/// What the factory's readiness means for the next accept.
#[derive(Clone, Copy, Debug, PartialEq, Eq, Structural)]
pub enum Readiness {
    /// The factory is not ready: yield, and accept nothing meanwhile.
    Pending,
    /// The factory failed: the stream yields this error as its next item.
    Failed(Kind),
    /// The factory is ready: poll the incoming source.
    Accept,
}

/// What the incoming source's answer means.
pub enum Accepted<IO> {
    /// Nothing to accept yet: yield.
    Pending,
    /// The incoming source has ended, and so has the stream.
    Closed,
    /// The accept failed: the stream yields this error as its next item.
    Failed(Kind),
    /// A stream was accepted: have the factory start a service for it, and
    /// yield the two as a `Connecting`.
    Stream(IO),
}

/// What the spawn loop does next.
pub enum WatchStep<T> {
    /// Nothing to accept yet: yield.
    Pending,
    /// Give the executor what is held here, stop with its error if it
    /// refuses, and go round again.
    Spawn(T),
    /// The loop ends with this error.
    Failed(Kind),
    /// The incoming source has ended: the loop is done.
    Done,
}

impl<E: Clone> Http<E> {
    /// Pairs an incoming source with a service factory, under a copy of this
    /// configuration.
    pub fn serve_incoming<I, S>(&self, incoming: I, make_service: S) -> (serve: Serve<I, S, E>)
        ensures
            serve.incoming == incoming,
            serve.make_service == make_service,
            serve.protocol@ == self@,
            cloned(self.executor(), serve.protocol.executor()),
    {
        Serve { incoming, make_service, protocol: self.clone() }
    }
}

impl<I, S, E> Serve<I, S, E> {
    /// Turns the stream into a loop that spawns every connection.
    pub fn spawn_all(self) -> (all: SpawnAll<I, S, E>)
        ensures
            all.serve == self,
    {
        SpawnAll { serve: self }
    }

    /// The incoming source.
    pub fn incoming_ref(&self) -> (incoming: &I)
        ensures
            *incoming == self.incoming,
    {
        &self.incoming
    }

    /// The incoming source, to change it. Factory and configuration stay.
    pub fn incoming_mut(&mut self) -> (incoming: &mut I)
        ensures
            *incoming == old(self).incoming,
            *final(self) == (Serve { incoming: *final(incoming), ..*old(self) }),
    {
        &mut self.incoming
    }

    /// Decides on the factory's readiness, which is asked first on every
    /// poll. While the factory is not ready nothing is accepted, so no
    /// `Connecting` is yielded; its failure is yielded as a factory error;
    /// only a ready factory lets the incoming source be polled.
    pub fn poll_ready(&self, ready: Polled<Result<(), ()>>) -> (next: Readiness)
        ensures
            next == match ready {
                Polled::Pending => Readiness::Pending,
                Polled::Ready(Err(_)) => Readiness::Failed(Kind::UserMakeService),
                Polled::Ready(Ok(_)) => Readiness::Accept,
            },
    {
        match ready {
            Polled::Pending => Readiness::Pending,
            Polled::Ready(Err(_)) => Readiness::Failed(Kind::UserMakeService),
            Polled::Ready(Ok(_)) => Readiness::Accept,
        }
    }

    /// Decides on the incoming source's answer, once the factory is ready.
    /// An accept error is yielded as such and does not end the stream.
    pub fn poll_next<IO>(&self, accepted: Polled<Option<Result<IO, ()>>>) -> (next: Accepted<IO>)
        ensures
            next == match accepted {
                Polled::Pending => Accepted::Pending,
                Polled::Ready(None) => Accepted::Closed,
                Polled::Ready(Some(Err(_))) => Accepted::Failed(Kind::Accept),
                Polled::Ready(Some(Ok(io))) => Accepted::Stream(io),
            },
    {
        match accepted {
            Polled::Pending => Accepted::Pending,
            Polled::Ready(None) => Accepted::Closed,
            Polled::Ready(Some(Err(_))) => Accepted::Failed(Kind::Accept),
            Polled::Ready(Some(Ok(io))) => Accepted::Stream(io),
        }
    }
}

impl<I, S, E: Clone> Serve<I, S, E> {
    /// The item yielded for an accepted stream: the stream, the service the
    /// factory has begun for it, and a copy of the configuration.
    pub fn connecting<IO, F>(&self, io: IO, future: F) -> (c: Connecting<IO, F, E>)
        ensures
            c.future == future,
            c.io == Some(io),
            c.protocol@ == self.protocol@,
            cloned(self.protocol.executor(), c.protocol.executor()),
    {
        Connecting { future, io: Some(io), protocol: self.protocol.clone() }
    }
}

impl<I, F, E: Clone> Connecting<I, F, E> {
    /// Decides on the outcome of one poll of the factory's work.
    ///
    /// While it is pending, or when it fails, nothing changes and the
    /// failure is passed on. When it yields the service, the stream is taken
    /// and bound to it under the configuration. Polling again after that is
    /// a programming error.
    pub fn poll<S, FE>(&mut self, polled: Polled<Result<S, FE>>) -> (out: Polled<
        Result<Connection<I, S, E>, FE>,
    >)
        requires
            old(self).protocol.wf(),
            polled matches Polled::Ready(Ok(_)) ==> old(self).io is Some,
        ensures
            match polled {
                Polled::Pending => out is Pending && *final(self) == *old(self),
                Polled::Ready(Err(e)) => out == Polled::Ready(
                    Err::<Connection<I, S, E>, FE>(e),
                ) && *final(self) == *old(self),
                Polled::Ready(Ok(service)) => {
                    &&& out matches Polled::Ready(Ok(conn))
                    &&& old(self).protocol.binds(old(self).io->Some_0, service, conn)
                    &&& conn.wf()
                    &&& *final(self) == (Connecting { io: None, ..*old(self) })
                },
            },
    {
        match polled {
            Polled::Pending => Polled::Pending,
            Polled::Ready(Err(e)) => Polled::Ready(Err(e)),
            Polled::Ready(Ok(service)) => {
                let io = match self.io.take() {
                    Some(io) => io,
                    None => unreached(),
                };
                Polled::Ready(Ok(self.protocol.serve_connection(io, service)))
            },
        }
    }
}

impl<I, S, E> SpawnAll<I, S, E> {
    /// The incoming source.
    pub fn incoming_ref(&self) -> (incoming: &I)
        ensures
            *incoming == self.serve.incoming,
    {
        self.serve.incoming_ref()
    }

    /// Decides on the next item of the stream of connections: an error ends
    /// the loop, the end of the stream completes it, and each `Connecting`
    /// becomes a task, with a clone of the watcher, for the executor.
    pub fn poll_watch<IO, N, SVC, W: Watcher<IO, SVC, E>>(
        &self,
        next: Polled<Option<Result<Connecting<IO, N, E>, Kind>>>,
        watcher: &W,
    ) -> (step: WatchStep<NewSvcTask<IO, N, SVC, E, W>>)
        ensures
            match next {
                Polled::Pending => step is Pending,
                Polled::Ready(None) => step is Done,
                Polled::Ready(Some(Err(kind))) => step == WatchStep::<
                    NewSvcTask<IO, N, SVC, E, W>,
                >::Failed(kind),
                Polled::Ready(Some(Ok(connecting))) => {
                    &&& step matches WatchStep::Spawn(task)
                    &&& task.is_connecting()
                    &&& task.connecting() == connecting
                    &&& cloned(*watcher, task.watcher())
                },
            },
    {
        match next {
            Polled::Pending => WatchStep::Pending,
            Polled::Ready(None) => WatchStep::Done,
            Polled::Ready(Some(Err(kind))) => WatchStep::Failed(kind),
            Polled::Ready(Some(Ok(connecting))) => WatchStep::Spawn(
                NewSvcTask::new(connecting, watcher.clone()),
            ),
        }
    }
}

} // verus!
