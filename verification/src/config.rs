//! The protocol configuration: which engine a connection starts with and the
//! tunables each engine is built from.

use vstd::prelude::*;

verus! {

/// The smallest read buffer limit that the HTTP/1 engine accepts.
pub const MINIMUM_MAX_BUFFER_SIZE: usize = 8192;

/// The read buffer limit that the HTTP/1 engine uses when none is set.
pub const DEFAULT_MAX_BUFFER_SIZE: usize = 417792;

/// The period, in seconds, of the TCP keep-alive probes on accepted streams.
pub const TCP_KEEPALIVE_SECS: u64 = 90;

/// The flow-control window that HTTP/2 starts with when none is set.
pub const DEFAULT_WINDOW_SIZE: u32 = 65535;

/// Which engine serves a connection, and what happens when an HTTP/1 parse
/// meets the HTTP/2 preface.
#[derive(Clone, Copy, Debug, PartialEq, Eq, Structural)]
pub enum ConnectionMode {
    /// Always HTTP/1; the HTTP/2 preface is a parse error.
    H1Only,
    /// Always HTTP/2.
    H2Only,
    /// HTTP/1 first, switching to HTTP/2 when the client opens with its
    /// preface.
    Fallback,
}

/// The settings an HTTP/2 engine is built with.
#[derive(Clone, Copy, Debug, PartialEq, Eq, Structural)]
pub struct H2Settings {
    /// Stream-level flow control window.
    pub initial_stream_window_size: u32,
    /// Connection-level flow control window.
    pub initial_connection_window_size: u32,
    /// Limit on concurrently open streams; `None` is no limit.
    pub max_concurrent_streams: Option<u32>,
}

/// Every tunable of a configuration but its executor.
#[derive(Clone, Copy, Debug, PartialEq, Eq, Structural)]
pub struct Tunables {
    pub mode: ConnectionMode,
    pub keep_alive: bool,
    pub h1_half_close: bool,
    pub h1_writev: bool,
    pub pipeline_flush: bool,
    pub max_buf_size: Option<usize>,
    pub h2: H2Settings,
}

/// The executor a configuration starts with: whatever the runtime offers for
/// spawning background tasks.
#[derive(Clone, Copy, Debug, PartialEq, Eq, Structural)]
pub enum Exec {
    Default,
}

/// Whether `max` may be set as the read buffer limit: it may not be under
/// the minimum.
pub fn max_buf_size_allowed(max: usize) -> (ok: bool)
    ensures
        ok == (max >= MINIMUM_MAX_BUFFER_SIZE),
{
    max >= MINIMUM_MAX_BUFFER_SIZE
}

/// The tunables of a fresh configuration.
pub open spec fn default_tunables() -> Tunables {
    Tunables {
        mode: ConnectionMode::Fallback,
        keep_alive: true,
        h1_half_close: true,
        h1_writev: true,
        pipeline_flush: false,
        max_buf_size: None,
        h2: H2Settings {
            initial_stream_window_size: DEFAULT_WINDOW_SIZE,
            initial_connection_window_size: DEFAULT_WINDOW_SIZE,
            max_concurrent_streams: None,
        },
    }
}

/// The mode after `http1_only(val)`, whatever it was before.
pub open spec fn mode_after_http1_only(val: bool) -> ConnectionMode {
    if val {
        ConnectionMode::H1Only
    } else {
        ConnectionMode::Fallback
    }
}

/// The mode after `http2_only(val)`, whatever it was before.
pub open spec fn mode_after_http2_only(val: bool) -> ConnectionMode {
    if val {
        ConnectionMode::H2Only
    } else {
        ConnectionMode::Fallback
    }
}

/// A limit is kept when one is given, and left as it was otherwise.
pub open spec fn or_kept(given: Option<u32>, was: u32) -> u32 {
    match given {
        Some(v) => v,
        None => was,
    }
}

/// A configuration of the HTTP protocol for server connections.
///
/// Its model (`@`) is the [`Tunables`] it holds; the executor is apart, since
/// its type is the caller's.
#[derive(Debug)]
pub struct Http<E> {
    spawner: E,
    opts: Tunables,
}

impl<E> View for Http<E> {
    type V = Tunables;

    closed spec fn view(&self) -> Tunables {
        self.opts
    }
}

impl Http<Exec> {
    /// A configuration with every tunable at its default: fallback mode,
    /// keep-alive, half-close and vectored writes on, pipeline flushing off,
    /// the engines' own buffer limit and HTTP/2 settings.
    pub fn new() -> (http: Http<Exec>)
        ensures
            http@ == default_tunables(),
            http.executor() == Exec::Default,
            http.wf(),
    {
        Http {
            spawner: Exec::Default,
            opts: Tunables {
                mode: ConnectionMode::Fallback,
                keep_alive: true,
                h1_half_close: true,
                h1_writev: true,
                pipeline_flush: false,
                max_buf_size: None,
                h2: H2Settings {
                    initial_stream_window_size: DEFAULT_WINDOW_SIZE,
                    initial_connection_window_size: DEFAULT_WINDOW_SIZE,
                    max_concurrent_streams: None,
                },
            },
        }
    }
}

impl<E> Http<E> {
    /// The executor that HTTP/2 connections spawn their background tasks on.
    pub closed spec fn executor(&self) -> E {
        self.spawner
    }

    /// A buffer limit, where one is set, is never under the minimum.
    pub open spec fn wf(&self) -> bool {
        match self@.max_buf_size {
            Some(max) => max >= MINIMUM_MAX_BUFFER_SIZE,
            None => true,
        }
    }

    /// Requires HTTP/1 (`true`) or goes back to fallback (`false`). The last
    /// of `http1_only` and `http2_only` wins.
    pub fn http1_only(&mut self, val: bool) -> (me: &mut Self)
        ensures
            me@ == (Tunables { mode: mode_after_http1_only(val), ..old(self)@ }),
            me.executor() == old(self).executor(),
            *final(self) == *final(me),
    {
        if val {
            self.opts.mode = ConnectionMode::H1Only;
        } else {
            self.opts.mode = ConnectionMode::Fallback;
        }
        self
    }

    /// Sets whether HTTP/1 connections support half-closures.
    pub fn http1_half_close(&mut self, val: bool) -> (me: &mut Self)
        ensures
            me@ == (Tunables { h1_half_close: val, ..old(self)@ }),
            me.executor() == old(self).executor(),
            *final(self) == *final(me),
    {
        self.opts.h1_half_close = val;
        self
    }

    /// Sets whether HTTP/1 connections use vectored writes or flatten into
    /// one buffer.
    pub fn http1_writev(&mut self, val: bool) -> (me: &mut Self)
        ensures
            me@ == (Tunables { h1_writev: val, ..old(self)@ }),
            me.executor() == old(self).executor(),
            *final(self) == *final(me),
    {
        self.opts.h1_writev = val;
        self
    }

    /// Requires HTTP/2 (`true`) or goes back to fallback (`false`). The last
    /// of `http1_only` and `http2_only` wins.
    pub fn http2_only(&mut self, val: bool) -> (me: &mut Self)
        ensures
            me@ == (Tunables { mode: mode_after_http2_only(val), ..old(self)@ }),
            me.executor() == old(self).executor(),
            *final(self) == *final(me),
    {
        if val {
            self.opts.mode = ConnectionMode::H2Only;
        } else {
            self.opts.mode = ConnectionMode::Fallback;
        }
        self
    }

    /// Sets the HTTP/2 stream-level window; `None` leaves it as it is.
    pub fn http2_initial_stream_window_size(&mut self, sz: Option<u32>) -> (me: &mut Self)
        ensures
            me@ == (Tunables {
                h2: H2Settings {
                    initial_stream_window_size: or_kept(
                        sz,
                        old(self)@.h2.initial_stream_window_size,
                    ),
                    ..old(self)@.h2
                },
                ..old(self)@
            }),
            me.executor() == old(self).executor(),
            *final(self) == *final(me),
    {
        if let Some(sz) = sz {
            self.opts.h2.initial_stream_window_size = sz;
        }
        self
    }

    /// Sets the HTTP/2 connection-level window; `None` leaves it as it is.
    pub fn http2_initial_connection_window_size(&mut self, sz: Option<u32>) -> (me: &mut Self)
        ensures
            me@ == (Tunables {
                h2: H2Settings {
                    initial_connection_window_size: or_kept(
                        sz,
                        old(self)@.h2.initial_connection_window_size,
                    ),
                    ..old(self)@.h2
                },
                ..old(self)@
            }),
            me.executor() == old(self).executor(),
            *final(self) == *final(me),
    {
        if let Some(sz) = sz {
            self.opts.h2.initial_connection_window_size = sz;
        }
        self
    }

    /// Sets the HTTP/2 limit on concurrent streams; `None` leaves it as it is.
    pub fn http2_max_concurrent_streams(&mut self, max: Option<u32>) -> (me: &mut Self)
        ensures
            me@ == (Tunables {
                h2: H2Settings {
                    max_concurrent_streams: if max is Some {
                        max
                    } else {
                        old(self)@.h2.max_concurrent_streams
                    },
                    ..old(self)@.h2
                },
                ..old(self)@
            }),
            me.executor() == old(self).executor(),
            *final(self) == *final(me),
    {
        if let Some(max) = max {
            self.opts.h2.max_concurrent_streams = Some(max);
        }
        self
    }

    /// Enables or disables HTTP keep-alive.
    pub fn keep_alive(&mut self, val: bool) -> (me: &mut Self)
        ensures
            me@ == (Tunables { keep_alive: val, ..old(self)@ }),
            me.executor() == old(self).executor(),
            *final(self) == *final(me),
    {
        self.opts.keep_alive = val;
        self
    }

    /// Sets the read buffer limit of HTTP/1 connections. A limit under
    /// [`MINIMUM_MAX_BUFFER_SIZE`] is a programming error.
    pub fn max_buf_size(&mut self, max: usize) -> (me: &mut Self)
        requires
            max >= MINIMUM_MAX_BUFFER_SIZE,
        ensures
            me@ == (Tunables { max_buf_size: Some(max), ..old(self)@ }),
            me.executor() == old(self).executor(),
            *final(self) == *final(me),
    {
        self.opts.max_buf_size = Some(max);
        self
    }

    /// Sets whether flushes are aggregated to support pipelined responses.
    pub fn pipeline_flush(&mut self, enabled: bool) -> (me: &mut Self)
        ensures
            me@ == (Tunables { pipeline_flush: enabled, ..old(self)@ }),
            me.executor() == old(self).executor(),
            *final(self) == *final(me),
    {
        self.opts.pipeline_flush = enabled;
        self
    }

    /// This configuration with `executor` in place of its own.
    pub closed spec fn spec_with_executor<E2>(self, executor: E2) -> Http<E2> {
        Http { spawner: executor, opts: self.opts }
    }

    /// Replaces the executor and keeps every tunable.
    pub fn with_executor<E2>(self, executor: E2) -> (http: Http<E2>)
        ensures
            http == self.spec_with_executor(executor),
            http@ == self@,
            http.executor() == executor,
    {
        Http { spawner: executor, opts: self.opts }
    }

    /// The TCP keep-alive period, in seconds, for the streams of a listener
    /// bound under this configuration: probes are sent exactly if HTTP
    /// keep-alive is on.
    pub fn tcp_keepalive(&self) -> (secs: Option<u64>)
        ensures
            secs == if self@.keep_alive {
                Some(TCP_KEEPALIVE_SECS)
            } else {
                None
            },
    {
        if self.opts.keep_alive {
            Some(TCP_KEEPALIVE_SECS)
        } else {
            None
        }
    }

    /// The tunables as they stand.
    pub fn tunables(&self) -> (t: Tunables)
        ensures
            t == self@,
    {
        self.opts
    }

    /// The executor as it stands.
    pub fn executor_ref(&self) -> (e: &E)
        ensures
            *e == self.executor(),
    {
        &self.spawner
    }
}

impl<E: Clone> Clone for Http<E> {
    /// A copy with the same tunables and a clone of the executor.
    fn clone(&self) -> (copy: Self)
        ensures
            copy@ == self@,
            cloned(self.executor(), copy.executor()),
    {
        Http { spawner: self.spawner.clone(), opts: self.opts }
    }
}

/// Setting the executor twice is setting the second one: the first leaves no
/// trace. Setting it changes no tunable.
pub proof fn lemma_with_executor_last_wins<E, E1, E2>(http: Http<E>, first: E1, second: E2)
    ensures
        http.spec_with_executor(first).spec_with_executor(second) == http.spec_with_executor(
            second,
        ),
        http.spec_with_executor(second)@ == http@,
        http.spec_with_executor(second).executor() == second,
        http.wf() ==> http.spec_with_executor(second).wf(),
{
}

/// Whatever the mode was and whatever `http1_only` was given, `http2_only(true)`
/// after it leaves the mode at HTTP/2 only; and `http1_only(true)` after
/// `http2_only` leaves it at HTTP/1 only.
pub proof fn lemma_last_mode_setter_wins(before: Tunables, first: bool)
    ensures
        (Tunables {
            mode: mode_after_http2_only(true),
            ..(Tunables { mode: mode_after_http1_only(first), ..before })
        }).mode == ConnectionMode::H2Only,
        (Tunables {
            mode: mode_after_http1_only(true),
            ..(Tunables { mode: mode_after_http2_only(first), ..before })
        }).mode == ConnectionMode::H1Only,
{
}

/// `http1_only(false)` and `http2_only(false)` both give fallback mode, from
/// any mode, and touch nothing else.
pub proof fn lemma_false_restores_fallback(before: Tunables)
    ensures
        (Tunables { mode: mode_after_http1_only(false), ..before }) == (Tunables {
            mode: ConnectionMode::Fallback,
            ..before
        }),
        (Tunables { mode: mode_after_http2_only(false), ..before }) == (Tunables {
            mode: ConnectionMode::Fallback,
            ..before
        }),
{
}

} // verus!
