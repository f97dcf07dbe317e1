use bytes::Bytes;
use http_conn::config::{ConnectionMode, Exec, H2Settings, Http};
use http_conn::conn::{Connection, Either, Fallback, Step};
use http_conn::proto::{Dispatched, Http1, Http2, Kind, Parse, Polled};
use http_conn::rewind::Rewind;
use http_conn::upgrades::UpgradeStep;

const PREFACE: &[u8] = b"PRI * HTTP/2.0\r\n\r\nSM\r\n\r\n";

fn preface_error() -> Polled<Result<Dispatched, Kind>> {
    Polled::Ready(Err(Kind::Parse(Parse::VersionH2)))
}

fn bind(mode: ConnectionMode) -> Connection<&'static str, u32, Exec> {
    let mut http = Http::new();
    match mode {
        ConnectionMode::H1Only => {
            http.http1_only(true);
        }
        ConnectionMode::H2Only => {
            http.http2_only(true);
        }
        ConnectionMode::Fallback => {}
    }
    http.serve_connection("io", 7u32)
}

fn h1_of<T, S, E>(conn: &mut Connection<T, S, E>) -> &mut Http1<T, S> {
    match conn.conn.as_mut() {
        Some(Either::A(h1)) => h1,
        _ => panic!("expected the HTTP/1 engine"),
    }
}

fn h2_of<T, S, E>(conn: &mut Connection<T, S, E>) -> &mut Http2<T, S, E> {
    match conn.conn.as_mut() {
        Some(Either::B(h2)) => h2,
        _ => panic!("expected the HTTP/2 engine"),
    }
}

#[test]
fn fallback_mode_binds_h1_with_fallback() {
    let mut http = Http::new();
    http.http2_max_concurrent_streams(Some(3));
    let mut conn = http.serve_connection("io", 7u32);
    match &conn.fallback {
        Fallback::ToHttp2(settings, exec) => {
            assert_eq!(*settings, http.tunables().h2);
            assert_eq!(settings.max_concurrent_streams, Some(3));
            assert_eq!(*exec, Exec::Default);
        }
        Fallback::Http1Only => panic!("expected a fallback"),
    }
    assert!(conn.fallback.to_h2());
    let h1 = h1_of(&mut conn);
    assert_eq!(h1.io, "io");
    assert_eq!(h1.service, 7);
    assert_eq!(h1.read_buf.len(), 0);
    assert!(h1.keep_alive && h1.half_close && h1.writev && !h1.flush_pipeline);
    assert_eq!(h1.max_buf_size, 417792);
}

#[test]
fn h1_only_mode_binds_h1_without_fallback() {
    let mut conn = bind(ConnectionMode::H1Only);
    assert!(matches!(conn.fallback, Fallback::Http1Only));
    assert!(!conn.fallback.to_h2());
    assert_eq!(h1_of(&mut conn).io, "io");
}

#[test]
fn h2_only_mode_binds_h2_without_fallback() {
    let mut http = Http::new();
    http.http2_only(true)
        .http2_initial_stream_window_size(Some(100))
        .http2_initial_connection_window_size(Some(200));
    let http = http.with_executor(11u8);
    let mut conn = http.serve_connection("io", 7u32);
    assert!(matches!(conn.fallback, Fallback::Http1Only));
    let h2 = h2_of(&mut conn);
    assert_eq!(h2.service, 7);
    assert_eq!(h2.executor, 11);
    assert!(!h2.graceful);
    assert_eq!(
        h2.settings,
        H2Settings {
            initial_stream_window_size: 100,
            initial_connection_window_size: 200,
            max_concurrent_streams: None,
        }
    );
    assert_eq!(h2.io.buffered_len(), 0);
    assert!(h2.io.read_buffered(16).is_none());
    assert_eq!(*h2.io.get_mut(), "io");
}

#[test]
fn h1_engine_is_built_from_the_tunables() {
    let mut http = Http::new();
    http.keep_alive(false)
        .http1_half_close(false)
        .http1_writev(false)
        .pipeline_flush(true)
        .max_buf_size(8192);
    let mut conn = http.serve_connection((), ());
    let h1 = h1_of(&mut conn);
    assert!(!h1.keep_alive);
    assert!(!h1.half_close);
    assert!(!h1.writev);
    assert!(h1.flush_pipeline);
    assert_eq!(h1.max_buf_size, 8192);
}

#[test]
fn h1_engine_setters_set_one_thing_each() {
    let mut h1 = Http1::new(1u8, 2u8);
    h1.set_max_buf_size(10000);
    assert_eq!(h1.max_buf_size, 10000);
    h1.set_flush_pipeline(true);
    assert!(h1.flush_pipeline && h1.keep_alive && h1.half_close && h1.writev);
    h1.set_disable_half_close();
    assert!(!h1.half_close && h1.keep_alive && h1.writev);
    h1.set_write_strategy_flatten();
    assert!(!h1.writev && h1.keep_alive);
    h1.disable_keep_alive();
    assert!(!h1.keep_alive);
    let (io, buf, service) = h1.into_inner();
    assert_eq!((io, buf.len(), service), (1, 0, 2));
}

#[test]
fn h2_engine_starts_without_shutdown() {
    let settings = H2Settings {
        initial_stream_window_size: 1,
        initial_connection_window_size: 2,
        max_concurrent_streams: Some(3),
    };
    let mut h2 = Http2::new(Rewind::new(1u8), 2u8, settings, 3u8);
    assert!(!h2.graceful);
    h2.graceful_shutdown();
    assert!(h2.graceful);
    assert_eq!(h2.settings, settings);
    assert_eq!((h2.service, h2.executor), (2, 3));
}

#[test]
fn pending_engine_leaves_the_connection_pending() {
    let mut conn = bind(ConnectionMode::Fallback);
    assert_eq!(conn.poll(Polled::Pending), Step::Pending);
    assert_eq!(h1_of(&mut conn).io, "io");
}

#[test]
fn http1_echo_completes_cleanly() {
    let mut conn = bind(ConnectionMode::Fallback);
    assert_eq!(conn.poll(Polled::Pending), Step::Pending);
    assert!(h1_of(&mut conn).keep_alive);
    assert_eq!(conn.poll(Polled::Pending), Step::Pending);
    assert_eq!(
        conn.poll(Polled::Ready(Ok(Dispatched::Shutdown))),
        Step::Finished { refuse_upgrade: false }
    );
    assert!(h1_of(&mut conn).keep_alive);
}

#[test]
fn plain_connection_refuses_a_pending_upgrade() {
    let mut conn = bind(ConnectionMode::Fallback);
    h1_of(&mut conn).read_buf = Bytes::from_static(b"tail");
    assert_eq!(
        conn.poll(Polled::Ready(Ok(Dispatched::Upgrade))),
        Step::Finished { refuse_upgrade: true }
    );
    let parts = conn.into_parts();
    assert_eq!(&parts.read_buf[..], b"tail");
}

#[test]
fn other_errors_end_the_connection() {
    for kind in [Kind::Parse(Parse::Other), Kind::Io, Kind::Http2, Kind::Accept, Kind::UserMakeService] {
        let mut conn = bind(ConnectionMode::Fallback);
        assert_eq!(conn.poll(Polled::Ready(Err(kind))), Step::Failed(kind));
        assert_eq!(h1_of(&mut conn).io, "io");
        assert!(!conn.would_switch(kind));
    }
}

#[test]
fn fallback_switches_to_h2_once_with_the_preface_visible() {
    let mut conn = bind(ConnectionMode::Fallback);
    let mut sent = PREFACE.to_vec();
    sent.extend_from_slice(&[0, 0, 0, 4, 0, 0, 0, 0, 0]);
    assert_eq!(PREFACE.len(), 24);
    h1_of(&mut conn).read_buf = Bytes::from(sent.clone());
    assert!(conn.would_switch(Kind::Parse(Parse::VersionH2)));

    assert_eq!(conn.poll(preface_error()), Step::Again);
    assert!(conn.fallback.to_h2());
    let h2 = h2_of(&mut conn);
    assert_eq!(h2.service, 7);
    assert!(!h2.graceful);
    assert_eq!(h2.settings, Http::new().tunables().h2);
    assert_eq!(h2.io.buffered_len(), 33);
    let first = h2.io.read_buffered(24).expect("the preface is buffered");
    assert_eq!(&first[..], PREFACE);
    let second = h2.io.read_buffered(1024).expect("the frame is buffered");
    assert_eq!(&second[..], &sent[24..]);
    assert!(h2.io.read_buffered(1024).is_none());
    assert_eq!(*h2.io.get_mut(), "io");

    assert!(!conn.would_switch(Kind::Parse(Parse::VersionH2)));
    assert_eq!(conn.poll(preface_error()), Step::Failed(Kind::Parse(Parse::VersionH2)));
    assert_eq!(
        conn.poll(Polled::Ready(Ok(Dispatched::Shutdown))),
        Step::Finished { refuse_upgrade: false }
    );
    assert!(conn.try_into_parts().is_none());
}

#[test]
fn fallback_uses_the_configured_settings_and_executor() {
    let mut http = Http::new();
    http.http2_max_concurrent_streams(Some(50)).http2_initial_stream_window_size(Some(4096));
    let http = http.with_executor(String::from("pool"));
    let mut conn = http.serve_connection((), ());
    assert_eq!(conn.poll(preface_error()), Step::Again);
    let h2 = h2_of(&mut conn);
    assert_eq!(h2.executor, "pool");
    assert_eq!(h2.settings.max_concurrent_streams, Some(50));
    assert_eq!(h2.settings.initial_stream_window_size, 4096);
    assert_eq!(h2.settings.initial_connection_window_size, 65535);
}

#[test]
fn upgrade_h2_rewinds_what_was_read() {
    let mut conn = bind(ConnectionMode::Fallback);
    h1_of(&mut conn).read_buf = Bytes::from_static(b"PRI");
    conn.upgrade_h2();
    let h2 = h2_of(&mut conn);
    assert_eq!(&h2.io.read_buffered(10).expect("buffered")[..], b"PRI");
}

#[test]
fn strict_h1_fails_on_the_preface() {
    let mut conn = bind(ConnectionMode::H1Only);
    h1_of(&mut conn).read_buf = Bytes::from_static(PREFACE);
    assert!(!conn.would_switch(Kind::Parse(Parse::VersionH2)));
    assert_eq!(conn.poll(preface_error()), Step::Failed(Kind::Parse(Parse::VersionH2)));
    let parts = conn.try_into_parts().expect("still on the HTTP/1 path");
    assert_eq!(&parts.read_buf[..], PREFACE);
}

#[test]
fn h2_only_never_switches() {
    let mut conn = bind(ConnectionMode::H2Only);
    assert_eq!(conn.poll(preface_error()), Step::Failed(Kind::Parse(Parse::VersionH2)));
    assert_eq!(conn.poll(Polled::Ready(Err(Kind::Http2))), Step::Failed(Kind::Http2));
    assert_eq!(conn.poll(Polled::Pending), Step::Pending);
    assert_eq!(h2_of(&mut conn).io.buffered_len(), 0);
}

#[test]
fn poll_without_shutdown_follows_the_same_rules() {
    let mut conn = bind(ConnectionMode::H1Only);
    assert_eq!(conn.poll_without_shutdown(Polled::Pending), Step::Pending);
    assert_eq!(
        conn.poll_without_shutdown(Polled::Ready(Ok(()))),
        Step::Finished { refuse_upgrade: false }
    );
    assert_eq!(
        conn.poll_without_shutdown(Polled::Ready(Err(Kind::Io))),
        Step::Failed(Kind::Io)
    );
    assert_eq!(
        conn.poll_without_shutdown(Polled::Ready(Err(Kind::Parse(Parse::VersionH2)))),
        Step::Failed(Kind::Parse(Parse::VersionH2))
    );
    let mut conn = bind(ConnectionMode::Fallback);
    h1_of(&mut conn).read_buf = Bytes::from_static(PREFACE);
    assert_eq!(
        conn.poll_without_shutdown(Polled::Ready(Err(Kind::Parse(Parse::VersionH2)))),
        Step::Again
    );
    assert_eq!(h2_of(&mut conn).io.buffered_len(), 24);
}

#[test]
fn graceful_shutdown_disables_keep_alive_on_h1() {
    let mut conn = bind(ConnectionMode::Fallback);
    conn.graceful_shutdown();
    assert!(conn.fallback.to_h2());
    let h1 = h1_of(&mut conn);
    assert!(!h1.keep_alive);
    assert!(h1.half_close && h1.writev && !h1.flush_pipeline);
    assert_eq!(h1.max_buf_size, 417792);
    assert_eq!(conn.poll(Polled::Pending), Step::Pending);
    assert!(!h1_of(&mut conn).keep_alive);
    assert_eq!(
        conn.poll(Polled::Ready(Ok(Dispatched::Shutdown))),
        Step::Finished { refuse_upgrade: false }
    );
}

#[test]
fn graceful_shutdown_reaches_the_h2_engine() {
    let mut conn = bind(ConnectionMode::H2Only);
    conn.graceful_shutdown();
    assert!(h2_of(&mut conn).graceful);
}

#[test]
fn graceful_shutdown_of_ten_connections() {
    let mut conns: Vec<_> = (0..10).map(|_| bind(ConnectionMode::Fallback).with_upgrades()).collect();
    for conn in conns.iter_mut() {
        assert!(matches!(conn.poll(Polled::Pending), UpgradeStep::Pending));
        conn.graceful_shutdown();
    }
    for conn in conns.iter_mut() {
        assert!(!h1_of(&mut conn.inner).keep_alive);
        assert!(matches!(
            conn.poll(Polled::Ready(Ok(Dispatched::Shutdown))),
            UpgradeStep::Finished
        ));
    }
}

#[test]
fn parts_hold_the_stream_the_unread_bytes_and_the_service() {
    let mut conn = bind(ConnectionMode::Fallback);
    h1_of(&mut conn).read_buf = Bytes::from_static(b"\x81\x05hello");
    let parts = conn.into_parts();
    assert_eq!(parts.io, "io");
    assert_eq!(&parts.read_buf[..], b"\x81\x05hello");
    assert_eq!(parts.service, 7);
}

#[test]
fn try_into_parts_is_none_on_h2() {
    assert!(bind(ConnectionMode::H2Only).try_into_parts().is_none());
    let parts = bind(ConnectionMode::H1Only).try_into_parts().expect("HTTP/1");
    assert_eq!(parts.read_buf.len(), 0);
    assert_eq!(parts.io, "io");
}

#[test]
fn upgrade_surrenders_the_stream_and_the_unread_bytes() {
    let mut conn = bind(ConnectionMode::Fallback);
    h1_of(&mut conn).read_buf = Bytes::from_static(b"frames after the handshake");
    let mut up = conn.with_upgrades();
    assert!(matches!(up.poll(Polled::Pending), UpgradeStep::Pending));
    match up.poll(Polled::Ready(Ok(Dispatched::Upgrade))) {
        UpgradeStep::Fulfill(upgraded) => {
            assert_eq!(upgraded.io, "io");
            assert_eq!(&upgraded.read_buf[..], b"frames after the handshake");
        }
        _ => panic!("expected the upgrade to be fulfilled"),
    }
    assert!(up.inner.conn.is_none());
    assert!(up.inner.fallback.to_h2());
}

#[test]
fn upgradeable_connection_closes_fails_and_switches() {
    let mut up = bind(ConnectionMode::Fallback).with_upgrades();
    assert!(matches!(up.poll(Polled::Ready(Ok(Dispatched::Shutdown))), UpgradeStep::Finished));
    assert!(matches!(
        up.poll(Polled::Ready(Err(Kind::Io))),
        UpgradeStep::Failed(Kind::Io)
    ));
    h1_of(&mut up.inner).read_buf = Bytes::from_static(PREFACE);
    assert!(matches!(up.poll(preface_error()), UpgradeStep::Again));
    assert_eq!(
        &h2_of(&mut up.inner).io.read_buffered(24).expect("buffered")[..],
        PREFACE
    );
    assert!(matches!(
        up.poll(preface_error()),
        UpgradeStep::Failed(Kind::Parse(Parse::VersionH2))
    ));
    assert!(matches!(up.poll(Polled::Ready(Ok(Dispatched::Shutdown))), UpgradeStep::Finished));

    let mut strict = bind(ConnectionMode::H1Only).with_upgrades();
    assert!(matches!(
        strict.poll(preface_error()),
        UpgradeStep::Failed(Kind::Parse(Parse::VersionH2))
    ));
    strict.graceful_shutdown();
    assert!(!h1_of(&mut strict.inner).keep_alive);
}

#[test]
fn engine_reads_no_request_after_a_graceful_shutdown() {
    let mut conn = bind(ConnectionMode::Fallback);
    assert!(h1_of(&mut conn).reads_next_request());
    conn.graceful_shutdown();
    assert!(!h1_of(&mut conn).reads_next_request());
    assert_eq!(conn.poll(Polled::Pending), Step::Pending);
    assert_eq!(conn.poll(Polled::Ready(Err(Kind::Io))), Step::Failed(Kind::Io));
    assert!(!h1_of(&mut conn).reads_next_request());
}
