//! What the connection core knows of the two protocol engines.
//!
//! The engines parse and frame on their own, outside this crate. The core
//! keeps for each what it builds the engine from and what it gets back when it
//! takes the engine apart, and it receives the outcome of each engine step as
//! one of the plain values below.

use vstd::prelude::*;
use bytes::Bytes;
use crate::buf::{bytes_new, bytes_seq};
use crate::config::{H2Settings, DEFAULT_MAX_BUFFER_SIZE, MINIMUM_MAX_BUFFER_SIZE};
use crate::rewind::Rewind;

verus! {

/// The outcome of polling something outside: not ready yet, or ready with a
/// value.
#[derive(Debug)]
pub enum Polled<T> {
    Pending,
    Ready(T),
}

/// Why an HTTP/1 parse failed.
#[derive(Clone, Copy, Debug, PartialEq, Eq, Structural)]
pub enum Parse {
    /// The bytes read so far are the HTTP/2 connection preface and no
    /// HTTP/1 request line.
    VersionH2,
    /// Any other parse failure.
    Other,
}

/// The kind of an error that ends a connection or an accept.
#[derive(Clone, Copy, Debug, PartialEq, Eq, Structural)]
pub enum Kind {
    /// The HTTP/1 engine could not parse what it read.
    Parse(Parse),
    /// The byte stream failed.
    Io,
    /// The HTTP/2 engine failed.
    Http2,
    /// The incoming source failed to accept a stream.
    Accept,
    /// The service factory failed.
    UserMakeService,
}

/// What an engine reports when it has run to its end.
#[derive(Clone, Copy, Debug, PartialEq, Eq, Structural)]
pub enum Dispatched {
    /// The conversation is over and the connection closed cleanly.
    Shutdown,
    /// The last exchange agreed on an upgrade, which is pending.
    Upgrade,
}

/// An HTTP/1 engine as the core sees it.
#[derive(Debug)]
pub struct Http1<T, S> {
    /// The byte stream, used directly.
    pub io: T,
    /// Bytes read from the stream and not consumed as HTTP.
    pub read_buf: Bytes,
    /// The service that answers the requests.
    pub service: S,
    /// Whether another request is read after the current exchange.
    pub keep_alive: bool,
    /// Whether the peer may close its write side and still be answered.
    pub half_close: bool,
    /// Whether writes are vectored; if not, they are flattened.
    pub writev: bool,
    /// Whether flushes are aggregated for pipelined responses.
    pub flush_pipeline: bool,
    /// The read buffer limit.
    pub max_buf_size: usize,
}

impl<T, S> Http1<T, S> {
    /// The limit is never under the minimum.
    pub open spec fn wf(&self) -> bool {
        self.max_buf_size >= MINIMUM_MAX_BUFFER_SIZE
    }

    /// An engine over `io` with nothing read yet and every tunable at its
    /// default.
    pub fn new(io: T, service: S) -> (h1: Self)
        ensures
            h1.io == io,
            h1.service == service,
            bytes_seq(h1.read_buf) == Seq::<u8>::empty(),
            h1.keep_alive && h1.half_close && h1.writev && !h1.flush_pipeline,
            h1.max_buf_size == DEFAULT_MAX_BUFFER_SIZE,
            h1.wf(),
    {
        Http1 {
            io,
            read_buf: bytes_new(),
            service,
            keep_alive: true,
            half_close: true,
            writev: true,
            flush_pipeline: false,
            max_buf_size: DEFAULT_MAX_BUFFER_SIZE,
        }
    }

    /// Whether the engine reads another request once the exchange in flight
    /// is complete. If not, it closes the connection cleanly then.
    pub fn reads_next_request(&self) -> (again: bool)
        ensures
            again == self.keep_alive,
    {
        self.keep_alive
    }

    /// After the exchange in flight no further request is read.
    pub fn disable_keep_alive(&mut self)
        ensures
            *final(self) == (Http1 { keep_alive: false, ..*old(self) }),
    {
        self.keep_alive = false;
    }

    /// A peer that closes its write side closes the connection.
    pub fn set_disable_half_close(&mut self)
        ensures
            *final(self) == (Http1 { half_close: false, ..*old(self) }),
    {
        self.half_close = false;
    }

    /// Writes are flattened into one buffer.
    pub fn set_write_strategy_flatten(&mut self)
        ensures
            *final(self) == (Http1 { writev: false, ..*old(self) }),
    {
        self.writev = false;
    }

    /// Sets whether flushes are aggregated.
    pub fn set_flush_pipeline(&mut self, enabled: bool)
        ensures
            *final(self) == (Http1 { flush_pipeline: enabled, ..*old(self) }),
    {
        self.flush_pipeline = enabled;
    }

    /// Sets the read buffer limit, which may not be under the minimum.
    pub fn set_max_buf_size(&mut self, max: usize)
        requires
            max >= MINIMUM_MAX_BUFFER_SIZE,
        ensures
            *final(self) == (Http1 { max_buf_size: max, ..*old(self) }),
    {
        self.max_buf_size = max;
    }

    /// Takes the engine apart: the stream, the bytes read and not consumed,
    /// and the service.
    pub fn into_inner(self) -> (parts: (T, Bytes, S))
        ensures
            parts.0 == self.io,
            parts.1 == self.read_buf,
            parts.2 == self.service,
    {
        (self.io, self.read_buf, self.service)
    }
}

/// An HTTP/2 engine as the core sees it.
#[derive(Debug)]
pub struct Http2<T, S, E> {
    /// The byte stream, behind whatever was pushed back in front of it.
    pub io: Rewind<T>,
    /// The service that answers the requests.
    pub service: S,
    /// The settings the engine was built with.
    pub settings: H2Settings,
    /// Where the engine spawns its background tasks.
    pub executor: E,
    /// Whether a graceful shutdown was asked for: no new streams are
    /// accepted, the ones in flight are finished.
    pub graceful: bool,
}

impl<T, S, E> Http2<T, S, E> {
    /// An engine over `io` that has not been asked to shut down.
    pub fn new(io: Rewind<T>, service: S, settings: H2Settings, executor: E) -> (h2: Self)
        ensures
            h2 == (Http2 { io, service, settings, executor, graceful: false }),
    {
        Http2 { io, service, settings, executor, graceful: false }
    }

    /// Asks the engine to accept no new streams and finish those in flight.
    pub fn graceful_shutdown(&mut self)
        ensures
            *final(self) == (Http2 { graceful: true, ..*old(self) }),
    {
        self.graceful = true;
    }
}

} // verus!
