//! A single server connection: the engine that drives it now, the fallback
//! policy, and the rules by which one step of the engine decides the next.

use vstd::prelude::*;
use vstd::pervasive::unreached;
use bytes::Bytes;
use crate::buf::bytes_seq;
use crate::config::{ConnectionMode, H2Settings, Http, DEFAULT_MAX_BUFFER_SIZE};
use crate::machine::{machine_step, End, Machine};
use crate::proto::{Dispatched, Http1, Http2, Kind, Parse, Polled};
use crate::rewind::Rewind;
use crate::upgrades::UpgradeableConnection;

verus! {

/// One of two things.
#[derive(Debug)]
pub enum Either<A, B> {
    A(A),
    B(B),
}

/// What to do when the HTTP/1 engine meets the HTTP/2 preface.
#[derive(Debug)]
pub enum Fallback<E> {
    /// Rebuild the connection as HTTP/2 with these settings and executor.
    ToHttp2(H2Settings, E),
    /// Report the parse error.
    Http1Only,
}

impl<E> Fallback<E> {
    /// Whether the policy is to switch to HTTP/2.
    pub open spec fn spec_to_h2(&self) -> bool {
        self is ToHttp2
    }

    /// Whether the policy is to switch to HTTP/2.
    #[verifier::when_used_as_spec(spec_to_h2)]
    pub fn to_h2(&self) -> (b: bool)
        ensures
            b == self.spec_to_h2(),
    {
        match self {
            Fallback::ToHttp2(_, _) => true,
            Fallback::Http1Only => false,
        }
    }
}

/// A connection bound to a service. While it is live, `conn` holds exactly
/// one engine; it is `None` only once the engine has been taken out for good.
#[derive(Debug)]
pub struct Connection<T, S, E> {
    pub conn: Option<Either<Http1<T, S>, Http2<T, S, E>>>,
    pub fallback: Fallback<E>,
}

/// The pieces of a connection that ended on the HTTP/1 path.
#[derive(Debug)]
pub struct Parts<T, S> {
    /// The byte stream the connection was bound to.
    pub io: T,
    /// Bytes that were read from the stream but not processed as HTTP. After
    /// an upgrade these are the first bytes of the new protocol.
    pub read_buf: Bytes,
    /// The service that served the connection.
    pub service: S,
}

/// What the caller of a poll does next.
#[derive(Clone, Copy, Debug, PartialEq, Eq, Structural)]
pub enum Step {
    /// The engine is waiting for the stream: yield.
    Pending,
    /// The connection now runs another engine: poll that one, at once.
    Again,
    /// The connection completed without error. With `refuse_upgrade` the
    /// engine left an upgrade pending that this kind of connection cannot
    /// hand over, and the pending upgrade is to be told so.
    Finished { refuse_upgrade: bool },
    /// The connection ended with this error.
    Failed(Kind),
}

/// Where a connection stands once `poll` has answered with `step`, given
/// what it is driving then.
pub open spec fn after_step(step: Step, driving: Machine) -> Machine {
    match step {
        Step::Pending => driving,
        Step::Again => driving,
        Step::Finished { refuse_upgrade } => Machine::Terminated(
            if refuse_upgrade {
                End::Upgrade
            } else {
                End::Close
            },
        ),
        Step::Failed(kind) => Machine::Terminated(End::Error(kind)),
    }
}

impl<T, S, E> Connection<T, S, E> {
    /// Which engine a live connection is driving.
    pub open spec fn driving(&self) -> Machine
        recommends
            self.conn is Some,
    {
        if self.is_h1() {
            Machine::DrivingH1
        } else {
            Machine::DrivingH2
        }
    }

    /// The HTTP/1 engine is active.
    pub open spec fn is_h1(&self) -> bool {
        self.conn matches Some(Either::A(_))
    }

    /// The HTTP/2 engine is active.
    pub open spec fn is_h2(&self) -> bool {
        self.conn matches Some(Either::B(_))
    }

    /// The active HTTP/1 engine.
    pub open spec fn h1(&self) -> Http1<T, S>
        recommends
            self.is_h1(),
    {
        self.conn->Some_0->A_0
    }

    /// The active HTTP/2 engine.
    pub open spec fn h2(&self) -> Http2<T, S, E>
        recommends
            self.is_h2(),
    {
        self.conn->Some_0->B_0
    }

    /// An engine is present, and an HTTP/1 engine has a valid buffer limit.
    pub open spec fn wf(&self) -> bool {
        self.conn is Some && (self.is_h1() ==> self.h1().wf())
    }

    /// Whether an engine error of this kind makes the connection switch to
    /// HTTP/2 rather than fail: only the HTTP/2 preface, only while HTTP/1 is
    /// active, and only under the fallback policy.
    pub open spec fn switches(&self, kind: Kind) -> bool {
        self.is_h1() && kind == Kind::Parse(Parse::VersionH2) && self.fallback.spec_to_h2()
    }

    /// The step that `poll` takes on what the engine reported.
    pub open spec fn next_step(&self, polled: Polled<Result<Dispatched, Kind>>) -> Step {
        match polled {
            Polled::Pending => Step::Pending,
            Polled::Ready(Ok(done)) => Step::Finished {
                refuse_upgrade: done == Dispatched::Upgrade,
            },
            Polled::Ready(Err(kind)) => if self.switches(kind) {
                Step::Again
            } else {
                Step::Failed(kind)
            },
        }
    }

    /// The step that `poll_without_shutdown` takes on what the engine
    /// reported.
    pub open spec fn next_step_without_shutdown(&self, polled: Polled<Result<(), Kind>>) -> Step {
        match polled {
            Polled::Pending => Step::Pending,
            Polled::Ready(Ok(_)) => Step::Finished { refuse_upgrade: false },
            Polled::Ready(Err(kind)) => if self.switches(kind) {
                Step::Again
            } else {
                Step::Failed(kind)
            },
        }
    }

    /// What `poll_without_shutdown` is told, as a report of an engine that
    /// can also end in an upgrade.
    pub open spec fn lifted(polled: Polled<Result<(), Kind>>) -> Polled<Result<Dispatched, Kind>> {
        match polled {
            Polled::Pending => Polled::Pending,
            Polled::Ready(Ok(_)) => Polled::Ready(Ok(Dispatched::Shutdown)),
            Polled::Ready(Err(kind)) => Polled::Ready(Err(kind)),
        }
    }

    /// Tests `switches` on the connection as it stands.
    pub fn would_switch(&self, kind: Kind) -> (b: bool)
        ensures
            b == self.switches(kind),
    {
        let h1_active = match &self.conn {
            Some(Either::A(_)) => true,
            _ => false,
        };
        let preface = match kind {
            Kind::Parse(Parse::VersionH2) => true,
            _ => false,
        };
        h1_active && preface && self.fallback.to_h2()
    }
}

impl<T, S, E: Clone> Connection<T, S, E> {
    /// `self` is `before` after the switch from HTTP/1 to HTTP/2: the same
    /// stream with every byte the HTTP/1 engine had read and not consumed
    /// pushed back in front of it, the same service, the settings and a clone
    /// of the executor that the fallback policy holds, and the policy itself
    /// untouched.
    pub open spec fn switched_from(&self, before: Self) -> bool {
        &&& before.is_h1()
        &&& self.is_h2()
        &&& self.fallback == before.fallback
        &&& match before.fallback {
            Fallback::ToHttp2(settings, executor) => {
                &&& self.h2().settings == settings
                &&& cloned(executor, self.h2().executor)
            },
            Fallback::Http1Only => false,
        }
        &&& self.h2().io.io() == before.h1().io
        &&& self.h2().io.buffered() == bytes_seq(before.h1().read_buf)
        &&& self.h2().service == before.h1().service
        &&& !self.h2().graceful
    }

    /// Starts a graceful shutdown: HTTP/1 stops keeping the connection alive
    /// after the exchange in flight, HTTP/2 stops accepting streams. Nothing
    /// else changes, and the connection is to be polled on until it ends.
    pub fn graceful_shutdown(&mut self)
        requires
            old(self).conn is Some,
        ensures
            final(self).fallback == old(self).fallback,
            old(self).is_h1() ==> final(self).is_h1() && final(self).h1() == (Http1 {
                keep_alive: false,
                ..old(self).h1()
            }),
            old(self).is_h2() ==> final(self).is_h2() && final(self).h2() == (Http2 {
                graceful: true,
                ..old(self).h2()
            }),
    {
        match &mut self.conn {
            Some(Either::A(h1)) => {
                h1.disable_keep_alive();
            },
            Some(Either::B(h2)) => {
                h2.graceful_shutdown();
            },
            None => {},
        }
    }

    /// The stream, the unread bytes and the service of a connection on the
    /// HTTP/1 path. A connection on HTTP/2 has no such parts: that is a
    /// programming error.
    pub fn into_parts(self) -> (parts: Parts<T, S>)
        requires
            self.is_h1(),
        ensures
            parts.io == self.h1().io,
            parts.read_buf == self.h1().read_buf,
            parts.service == self.h1().service,
    {
        match self.try_into_parts() {
            Some(parts) => parts,
            None => unreached(),
        }
    }

    /// The stream, the unread bytes and the service of a connection on the
    /// HTTP/1 path; `None` on HTTP/2.
    pub fn try_into_parts(self) -> (parts: Option<Parts<T, S>>)
        requires
            self.conn is Some,
        ensures
            parts is Some <==> self.is_h1(),
            parts matches Some(p) ==> p.io == self.h1().io && p.read_buf == self.h1().read_buf
                && p.service == self.h1().service,
    {
        match self.conn {
            Some(Either::A(h1)) => {
                let (io, read_buf, service) = h1.into_inner();
                Some(Parts { io, read_buf, service })
            },
            _ => None,
        }
    }

    /// Rebuilds the connection as HTTP/2 in place: takes the HTTP/1 engine
    /// apart, pushes what it had read back in front of the stream, and
    /// installs an HTTP/2 engine built from the fallback policy.
    pub fn upgrade_h2(&mut self)
        requires
            old(self).is_h1(),
            old(self).fallback.spec_to_h2(),
        ensures
            final(self).switched_from(*old(self)),
    {
        let conn = self.conn.take();
        let (io, read_buf, service) = match conn {
            Some(Either::A(h1)) => h1.into_inner(),
            _ => unreached(),
        };
        let mut rewind_io = Rewind::new(io);
        rewind_io.rewind(read_buf);
        let (settings, executor) = match &self.fallback {
            Fallback::ToHttp2(settings, executor) => (*settings, executor.clone()),
            Fallback::Http1Only => unreached(),
        };
        let h2 = Http2::new(rewind_io, service, settings, executor);
        self.conn = Some(Either::B(h2));
    }

    /// Decides on the outcome of one poll of the active engine.
    ///
    /// A pending engine leaves everything as it is. An engine that is done
    /// completes the connection; a pending upgrade cannot be handed over here
    /// and is refused. An error ends the connection with that error, except
    /// the HTTP/2 preface under the fallback policy while HTTP/1 is active:
    /// then the connection switches to HTTP/2 and is to be polled again.
    pub fn poll(&mut self, polled: Polled<Result<Dispatched, Kind>>) -> (step: Step)
        requires
            old(self).conn is Some,
        ensures
            step == old(self).next_step(polled),
            step == Step::Again ==> final(self).switched_from(*old(self)),
            step != Step::Again ==> *final(self) == *old(self),
            final(self).conn is Some,
            after_step(step, final(self).driving()) == machine_step(
                old(self).driving(),
                old(self).fallback.spec_to_h2(),
                polled,
            ),
    {
        match polled {
            Polled::Pending => Step::Pending,
            Polled::Ready(Ok(done)) => {
                let refuse_upgrade = match done {
                    Dispatched::Upgrade => true,
                    Dispatched::Shutdown => false,
                };
                Step::Finished { refuse_upgrade }
            },
            Polled::Ready(Err(kind)) => {
                if self.would_switch(kind) {
                    self.upgrade_h2();
                    Step::Again
                } else {
                    Step::Failed(kind)
                }
            },
        }
    }

    /// Decides on the outcome of one poll of the HTTP/1 engine that does not
    /// shut the stream down when it is done. The rules are those of `poll`,
    /// but the engine reports no upgrade. Only HTTP/1 can be polled this way.
    pub fn poll_without_shutdown(&mut self, polled: Polled<Result<(), Kind>>) -> (step: Step)
        requires
            old(self).is_h1(),
        ensures
            step == old(self).next_step_without_shutdown(polled),
            step == Step::Again ==> final(self).switched_from(*old(self)),
            step != Step::Again ==> *final(self) == *old(self),
            final(self).conn is Some,
            after_step(step, final(self).driving()) == machine_step(
                Machine::DrivingH1,
                old(self).fallback.spec_to_h2(),
                Self::lifted(polled),
            ),
    {
        match polled {
            Polled::Pending => Step::Pending,
            Polled::Ready(Ok(_)) => Step::Finished { refuse_upgrade: false },
            Polled::Ready(Err(kind)) => {
                if self.would_switch(kind) {
                    self.upgrade_h2();
                    Step::Again
                } else {
                    Step::Failed(kind)
                }
            },
        }
    }

    /// Wraps the connection so that a pending upgrade is handed over rather
    /// than refused.
    pub fn with_upgrades(self) -> (up: UpgradeableConnection<T, S, E>)
        ensures
            up.inner == self,
    {
        UpgradeableConnection { inner: self }
    }
}

impl<E: Clone> Http<E> {
    /// `conn` is what this configuration builds over `io` for `service`.
    ///
    /// In HTTP/2-only mode that is an HTTP/2 engine over the stream with
    /// nothing pushed back, and no fallback. Otherwise it is an HTTP/1 engine
    /// over the stream itself with the configured tunables, and the fallback
    /// policy is to switch exactly if the mode is fallback.
    pub open spec fn binds<T, S>(&self, io: T, service: S, conn: Connection<T, S, E>) -> bool {
        match self@.mode {
            ConnectionMode::H2Only => {
                &&& conn.is_h2()
                &&& conn.h2().io.io() == io
                &&& conn.h2().io.buffered() == Seq::<u8>::empty()
                &&& conn.h2().service == service
                &&& conn.h2().settings == self@.h2
                &&& cloned(self.executor(), conn.h2().executor)
                &&& !conn.h2().graceful
                &&& conn.fallback == Fallback::<E>::Http1Only
            },
            mode => {
                &&& conn.is_h1()
                &&& conn.h1().io == io
                &&& bytes_seq(conn.h1().read_buf) == Seq::<u8>::empty()
                &&& conn.h1().service == service
                &&& conn.h1().keep_alive == self@.keep_alive
                &&& conn.h1().half_close == self@.h1_half_close
                &&& conn.h1().writev == self@.h1_writev
                &&& conn.h1().flush_pipeline == self@.pipeline_flush
                &&& conn.h1().max_buf_size == match self@.max_buf_size {
                    Some(max) => max,
                    None => DEFAULT_MAX_BUFFER_SIZE,
                }
                &&& match conn.fallback {
                    Fallback::ToHttp2(settings, executor) => {
                        &&& mode == ConnectionMode::Fallback
                        &&& settings == self@.h2
                        &&& cloned(self.executor(), executor)
                    },
                    Fallback::Http1Only => mode == ConnectionMode::H1Only,
                }
            },
        }
    }

    /// Binds a stream to a service: builds the engine that the mode calls for
    /// and records the fallback policy.
    pub fn serve_connection<T, S>(&self, io: T, service: S) -> (conn: Connection<T, S, E>)
        requires
            self.wf(),
        ensures
            self.binds(io, service, conn),
            conn.wf(),
    {
        let opts = self.tunables();
        let either = match opts.mode {
            ConnectionMode::H1Only | ConnectionMode::Fallback => {
                let mut h1 = Http1::new(io, service);
                if !opts.keep_alive {
                    h1.disable_keep_alive();
                }
                if !opts.h1_half_close {
                    h1.set_disable_half_close();
                }
                if !opts.h1_writev {
                    h1.set_write_strategy_flatten();
                }
                h1.set_flush_pipeline(opts.pipeline_flush);
                if let Some(max) = opts.max_buf_size {
                    h1.set_max_buf_size(max);
                }
                Either::A(h1)
            },
            ConnectionMode::H2Only => {
                let rewind_io = Rewind::new(io);
                let h2 = Http2::new(rewind_io, service, opts.h2, self.executor_ref().clone());
                Either::B(h2)
            },
        };
        let fallback = match opts.mode {
            ConnectionMode::Fallback => Fallback::ToHttp2(opts.h2, self.executor_ref().clone()),
            _ => Fallback::Http1Only,
        };
        Connection { conn: Some(either), fallback }
    }
}

/// Under fallback mode the HTTP/2 preface switches the connection exactly
/// once. Let `bound` be what a fallback-mode configuration binds to a stream,
/// `before` the same connection after its HTTP/1 engine has read whatever it
/// read, and `after` the connection that the switch turns `before` into.
/// Then the preface error makes `before` switch; `after` runs HTTP/2 over the
/// same stream with exactly the bytes that HTTP/1 had read in front of it;
/// and no error whatever makes `after` switch again.
pub proof fn lemma_fallback_switches_once<T, S, E: Clone>(
    http: Http<E>,
    io: T,
    service: S,
    bound: Connection<T, S, E>,
    before: Connection<T, S, E>,
    after: Connection<T, S, E>,
)
    requires
        http@.mode == ConnectionMode::Fallback,
        http.binds(io, service, bound),
        before.is_h1() && before.fallback == bound.fallback && before.h1().io == io,
        after.switched_from(before),
    ensures
        before.next_step(Polled::Ready(Err(Kind::Parse(Parse::VersionH2)))) == Step::Again,
        after.is_h2(),
        after.h2().io.io() == io,
        after.h2().io.buffered() == bytes_seq(before.h1().read_buf),
        after.h2().settings == http@.h2,
        forall|kind: Kind| #[trigger]
            after.next_step(Polled::Ready(Err(kind))) == Step::Failed(kind),
{
}

/// A connection that runs HTTP/2 never switches: whatever its engine reports,
/// the step is not `Again`. In particular a connection bound in HTTP/2-only
/// mode starts on HTTP/2, so it never builds an HTTP/1 engine and never
/// switches.
pub proof fn lemma_h2_only_never_switches<T, S, E: Clone>(
    http: Http<E>,
    io: T,
    service: S,
    conn: Connection<T, S, E>,
    polled: Polled<Result<Dispatched, Kind>>,
)
    requires
        http@.mode == ConnectionMode::H2Only,
        http.binds(io, service, conn),
    ensures
        conn.is_h2(),
        !conn.fallback.spec_to_h2(),
        conn.next_step(polled) != Step::Again,
{
}

/// In HTTP/1-only mode the HTTP/2 preface is a parse error like any other:
/// a connection bound in that mode, however far its HTTP/1 engine has read,
/// fails with the error and does not switch.
pub proof fn lemma_h1_only_fails_on_preface<T, S, E: Clone>(
    http: Http<E>,
    io: T,
    service: S,
    bound: Connection<T, S, E>,
    conn: Connection<T, S, E>,
)
    requires
        http@.mode == ConnectionMode::H1Only,
        http.binds(io, service, bound),
        conn.is_h1() && conn.fallback == bound.fallback,
    ensures
        !conn.fallback.spec_to_h2(),
        conn.next_step(Polled::Ready(Err(Kind::Parse(Parse::VersionH2)))) == Step::Failed(
            Kind::Parse(Parse::VersionH2),
        ),
{
}

/// The fallback policy is to switch exactly if the connection was bound in
/// fallback mode.
pub proof fn lemma_fallback_iff_mode<T, S, E: Clone>(
    http: Http<E>,
    io: T,
    service: S,
    conn: Connection<T, S, E>,
)
    requires
        http.binds(io, service, conn),
    ensures
        conn.fallback.spec_to_h2() <==> http@.mode == ConnectionMode::Fallback,
        conn.is_h2() <==> http@.mode == ConnectionMode::H2Only,
        conn.conn is Some,
{
}

/// A switch loses nothing and invents nothing: the bytes in front of the
/// HTTP/2 engine's stream are those the HTTP/1 engine held, no more and no
/// fewer, and the stream and the service are the same.
pub proof fn lemma_switch_keeps_bytes<T, S, E: Clone>(
    before: Connection<T, S, E>,
    after: Connection<T, S, E>,
)
    requires
        after.switched_from(before),
    ensures
        after.h2().io.buffered() == bytes_seq(before.h1().read_buf),
        after.h2().io.buffered().len() == bytes_seq(before.h1().read_buf).len(),
        after.h2().io.io() == before.h1().io,
        after.h2().service == before.h1().service,
        after.conn is Some,
{
}

/// A graceful shutdown of a connection on HTTP/1 lasts: once keep-alive is
/// off, no step of the connection turns it on again, so the engine reads no
/// request after the one in flight. `after` is `before` after any step.
pub proof fn lemma_keep_alive_stays_off<T, S, E: Clone>(
    before: Connection<T, S, E>,
    after: Connection<T, S, E>,
    polled: Polled<Result<Dispatched, Kind>>,
)
    requires
        before.is_h1() && !before.h1().keep_alive,
        before.next_step(polled) == Step::Again ==> after.switched_from(before),
        before.next_step(polled) != Step::Again ==> after == before,
    ensures
        after.is_h1() ==> !after.h1().keep_alive,
        after.conn is Some,
{
}

} // verus!
