use bytes::Bytes;
use http_conn::rewind::Rewind;

#[test]
fn new_rewind_has_nothing_buffered() {
    let mut r = Rewind::new(5u8);
    assert_eq!(r.buffered_len(), 0);
    assert!(r.read_buffered(16).is_none());
    let (io, rest) = r.into_inner();
    assert_eq!(io, 5);
    assert_eq!(&rest[..], b"");
}

#[test]
fn rewound_bytes_are_read_first_and_in_order() {
    let mut r = Rewind::new(());
    r.rewind(Bytes::from_static(b"hello world"));
    assert_eq!(r.buffered_len(), 11);
    let a = r.read_buffered(5).expect("buffered");
    assert_eq!(&a[..], b"hello");
    assert_eq!(r.buffered_len(), 6);
    let b = r.read_buffered(4).expect("buffered");
    assert_eq!(&b[..], b" wor");
    let c = r.read_buffered(100).expect("buffered");
    assert_eq!(&c[..], b"ld");
    assert_eq!(r.buffered_len(), 0);
    assert!(r.read_buffered(100).is_none());
}

#[test]
fn read_of_exactly_what_is_buffered_drains_it() {
    let mut r = Rewind::new(());
    r.rewind(Bytes::from_static(b"abc"));
    let a = r.read_buffered(3).expect("buffered");
    assert_eq!(&a[..], b"abc");
    assert!(r.read_buffered(3).is_none());
    assert!(r.read_buffered(0).is_none());
}

#[test]
fn read_of_nothing_leaves_the_buffer() {
    let mut r = Rewind::new(());
    r.rewind(Bytes::from_static(b"abc"));
    let a = r.read_buffered(0).expect("buffered");
    assert_eq!(a.len(), 0);
    assert_eq!(r.buffered_len(), 3);
    let b = r.read_buffered(1).expect("buffered");
    assert_eq!(&b[..], b"a");
    assert_eq!(r.buffered_len(), 2);
}

#[test]
fn rewinding_nothing_reads_from_the_stream() {
    let mut r = Rewind::new(());
    r.rewind(Bytes::new());
    assert_eq!(r.buffered_len(), 0);
    assert!(r.read_buffered(8).is_none());
    r.rewind(Bytes::from_static(b"x"));
    assert_eq!(&r.read_buffered(8).expect("buffered")[..], b"x");
}

#[test]
fn into_inner_returns_what_was_not_read() {
    let mut r = Rewind::new(String::from("stream"));
    r.rewind(Bytes::from(vec![1u8, 2, 3, 4]));
    let head = r.read_buffered(1).expect("buffered");
    assert_eq!(&head[..], &[1u8]);
    let (io, rest) = r.into_inner();
    assert_eq!(io, "stream");
    assert_eq!(&rest[..], &[2u8, 3, 4]);
}

#[test]
fn get_mut_reaches_the_stream_and_keeps_the_buffer() {
    let mut r = Rewind::new(vec![0u8]);
    r.rewind(Bytes::from_static(b"pre"));
    r.get_mut().push(9);
    assert_eq!(r.buffered_len(), 3);
    let (io, rest) = r.into_inner();
    assert_eq!(io, vec![0u8, 9]);
    assert_eq!(&rest[..], b"pre");
}
