//! A connection that hands its stream over when an exchange ends in an
//! upgrade.

use vstd::prelude::*;
use vstd::pervasive::unreached;
use bytes::Bytes;
use crate::conn::{Connection, Either};
use crate::machine::{machine_step, End, Machine};
use crate::proto::{Dispatched, Http1, Http2, Kind, Polled};

verus! {

/// A connection with upgrade support.
#[derive(Debug)]
pub struct UpgradeableConnection<T, S, E> {
    pub inner: Connection<T, S, E>,
}

/// What an upgrade is fulfilled with: the stream, and the bytes the peer
/// sent after the request that asked for the upgrade, which the HTTP/1 engine
/// had already read.
#[derive(Debug)]
pub struct Upgraded<T> {
    pub io: T,
    pub read_buf: Bytes,
}

/// What the caller of a poll does next.
pub enum UpgradeStep<T> {
    /// The engine is waiting for the stream: yield.
    Pending,
    /// The connection now runs another engine: poll that one, at once.
    Again,
    /// The connection closed cleanly.
    Finished,
    /// The connection ended in an upgrade: fulfil the pending upgrade with
    /// this, once; the connection is complete.
    Fulfill(Upgraded<T>),
    /// The connection ended with this error.
    Failed(Kind),
}

/// Where a connection stands once `poll` has answered with `step`, given
/// what it is driving then.
pub open spec fn after_upgrade_step<T>(step: UpgradeStep<T>, driving: Machine) -> Machine {
    match step {
        UpgradeStep::Pending => driving,
        UpgradeStep::Again => driving,
        UpgradeStep::Finished => Machine::Terminated(End::Close),
        UpgradeStep::Fulfill(_) => Machine::Terminated(End::Upgrade),
        UpgradeStep::Failed(kind) => Machine::Terminated(End::Error(kind)),
    }
}

impl<T, S, E> UpgradeableConnection<T, S, E> {
    /// The step that `poll` takes on what the engine reported. A pending
    /// upgrade is fulfilled with the HTTP/1 engine's stream and the bytes it
    /// had read and not consumed.
    pub open spec fn next_step(&self, polled: Polled<Result<Dispatched, Kind>>) -> UpgradeStep<T> {
        match polled {
            Polled::Pending => UpgradeStep::Pending,
            Polled::Ready(Ok(Dispatched::Shutdown)) => UpgradeStep::Finished,
            Polled::Ready(Ok(Dispatched::Upgrade)) => UpgradeStep::Fulfill(
                Upgraded { io: self.inner.h1().io, read_buf: self.inner.h1().read_buf },
            ),
            Polled::Ready(Err(kind)) => if self.inner.switches(kind) {
                UpgradeStep::Again
            } else {
                UpgradeStep::Failed(kind)
            },
        }
    }
}

impl<T, S, E: Clone> UpgradeableConnection<T, S, E> {
    /// Starts a graceful shutdown of the connection inside.
    pub fn graceful_shutdown(&mut self)
        requires
            old(self).inner.conn is Some,
        ensures
            final(self).inner.fallback == old(self).inner.fallback,
            old(self).inner.is_h1() ==> final(self).inner.is_h1() && final(self).inner.h1()
                == (Http1 { keep_alive: false, ..old(self).inner.h1() }),
            old(self).inner.is_h2() ==> final(self).inner.is_h2() && final(self).inner.h2()
                == (Http2 { graceful: true, ..old(self).inner.h2() }),
    {
        self.inner.graceful_shutdown()
    }

    /// Decides on the outcome of one poll of the active engine.
    ///
    /// As for a plain connection, but for a pending upgrade: the HTTP/1
    /// engine is taken out and apart, and its stream and unread bytes are the
    /// `Upgraded` to fulfil the upgrade with. The connection holds no engine
    /// afterwards. Only the HTTP/1 engine reports upgrades.
    pub fn poll(&mut self, polled: Polled<Result<Dispatched, Kind>>) -> (step: UpgradeStep<T>)
        requires
            old(self).inner.conn is Some,
            polled == Polled::Ready(Ok::<Dispatched, Kind>(Dispatched::Upgrade))
                ==> old(self).inner.is_h1(),
        ensures
            step == old(self).next_step(polled),
            step is Again ==> final(self).inner.switched_from(old(self).inner),
            step is Fulfill ==> final(self).inner == (Connection {
                conn: None,
                ..old(self).inner
            }),
            !(step is Again) && !(step is Fulfill) ==> *final(self) == *old(self),
            after_upgrade_step(step, final(self).inner.driving()) == machine_step(
                old(self).inner.driving(),
                old(self).inner.fallback.spec_to_h2(),
                polled,
            ),
    {
        match polled {
            Polled::Pending => UpgradeStep::Pending,
            Polled::Ready(Ok(Dispatched::Shutdown)) => UpgradeStep::Finished,
            Polled::Ready(Ok(Dispatched::Upgrade)) => {
                let h1 = match self.inner.conn.take() {
                    Some(Either::A(h1)) => h1,
                    _ => unreached(),
                };
                let (io, read_buf, _) = h1.into_inner();
                UpgradeStep::Fulfill(Upgraded { io, read_buf })
            },
            Polled::Ready(Err(kind)) => {
                if self.inner.would_switch(kind) {
                    self.inner.upgrade_h2();
                    UpgradeStep::Again
                } else {
                    UpgradeStep::Failed(kind)
                }
            },
        }
    }
}

/// What an upgrade hands over is what the HTTP/1 engine held: taking the
/// connection apart instead would have given the same stream and the same
/// unread bytes. HTTP/2 never upgrades, since only an HTTP/1 engine reports
/// one.
pub proof fn lemma_upgrade_hands_over_parts<T, S, E>(
    up: UpgradeableConnection<T, S, E>,
    handed: Upgraded<T>,
)
    requires
        up.inner.is_h1(),
        up.next_step(Polled::Ready(Ok(Dispatched::Upgrade))) == UpgradeStep::Fulfill(handed),
    ensures
        handed.io == up.inner.h1().io,
        handed.read_buf == up.inner.h1().read_buf,
{
}

} // verus!
