//! The library driven against a fake host, as a guest module drives it
//! against the real one.

use std::cell::RefCell;
use std::rc::Rc;
use std::time::Duration;

use execsandbox::{
    conn_write, conn_write_result, duration_to_timeout_ms, max_frame, send, Kind, Message,
    Receive, RecvAction, RecvEvent, UnknownConnection, reply_fits,
};

type SendFn = Box<dyn FnMut(i32, &[u8], i32)>;
type RecvFn = Box<dyn FnMut(&mut [u8; 8], &mut [u8], i32, i32) -> i32>;
type ConnWriteFn = Box<dyn FnMut(i32, &[u8], i32) -> i32>;
type MaxFrameFn = Box<dyn FnMut() -> i32>;

/// A host whose ABI functions are closures set by each test.
#[derive(Default)]
struct MockHost {
    send: RefCell<Option<SendFn>>,
    recv: RefCell<Option<RecvFn>>,
    conn_write: RefCell<Option<ConnWriteFn>>,
    max_frame: RefCell<Option<MaxFrameFn>>,
}

impl MockHost {
    fn send(&self, dest: i32, data: &[u8], len: i32) {
        (self.send.borrow_mut().as_mut().expect("send not configured"))(dest, data, len)
    }
    fn recv(&self, meta: &mut [u8; 8], buf: &mut [u8], buf_cap: i32, timeout_ms: i32) -> i32 {
        (self.recv.borrow_mut().as_mut().expect("recv not configured"))(meta, buf, buf_cap, timeout_ms)
    }
    fn conn_write(&self, conn_id: i32, data: &[u8], len: i32) -> i32 {
        (self
            .conn_write
            .borrow_mut()
            .as_mut()
            .expect("conn_write not configured"))(conn_id, data, len)
    }
    fn max_frame(&self) -> i32 {
        (self.max_frame.borrow_mut().as_mut().expect("max_frame not configured"))()
    }
}

fn send_with(host: &MockHost, dest: u32, data: &[u8]) {
    let call = send(dest, data);
    host.send(call.dest, data, call.len);
}

fn recv_with(host: &MockHost, buf: &mut Vec<u8>, timeout_ms: i32) -> Option<Message> {
    let receive = Receive { timeout_ms };
    let mut meta = [0u8; 8];
    let mut event = RecvEvent::Start;
    loop {
        match receive.step(buf, event) {
            RecvAction::QueryMaxFrame => event = RecvEvent::MaxFrame(host.max_frame()),
            RecvAction::Poll { buf_cap, timeout_ms } => {
                let n = host.recv(&mut meta, &mut buf[..], buf_cap, timeout_ms);
                let reply = RecvEvent::Polled { n, meta };
                assert!(reply_fits(buf, reply), "host claimed more bytes than the buffer holds");
                event = reply;
            }
            RecvAction::Finish(msg) => return msg,
        }
    }
}

fn conn_write_with(host: &MockHost, conn_id: u32, data: &[u8]) -> Result<(), UnknownConnection> {
    let call = conn_write(conn_id, data);
    let status = host.conn_write(call.conn_id, data, call.len);
    conn_write_result(conn_id, status)
}

fn max_frame_with(host: &MockHost) -> usize {
    max_frame(host.max_frame())
}

fn write_meta(meta: &mut [u8; 8], kind: u32, conn_id: u32) {
    meta[0..4].copy_from_slice(&kind.to_le_bytes());
    meta[4..8].copy_from_slice(&conn_id.to_le_bytes());
}

/// A recv fake that returns the given (kind, conn_id, payload) on the first
/// call and reports a timeout on every later call.
fn fake_recv_once(
    kind: Kind,
    conn_id: u32,
    payload: &'static [u8],
) -> impl FnMut(&mut [u8; 8], &mut [u8], i32, i32) -> i32 {
    let mut served = false;
    move |meta, buf, buf_cap, _timeout_ms| {
        if served {
            return -1;
        }
        served = true;
        assert!(
            payload.len() as i32 <= buf_cap,
            "fake_recv_once: payload ({} bytes) does not fit in the buffer given by recv ({} bytes)",
            payload.len(),
            buf_cap
        );
        write_meta(meta, kind.code(), conn_id);
        buf[..payload.len()].copy_from_slice(payload);
        payload.len() as i32
    }
}

#[test]
fn send_passes_dest_and_length() {
    let host = MockHost::default();
    let captured = Rc::new(RefCell::new((0i32, 0i32, false)));
    let captured2 = captured.clone();
    *host.send.borrow_mut() = Some(Box::new(move |dest, data: &[u8], len| {
        *captured2.borrow_mut() = (dest, len, !data.as_ptr().is_null());
    }));

    send_with(&host, 3, b"hi");

    let (dest, len, ptr_nonnull) = *captured.borrow();
    assert_eq!(dest, 3);
    assert_eq!(len, 2);
    assert!(
        ptr_nonnull,
        "send should be called with a non-null pointer for non-empty data"
    );
}

#[test]
fn recv_success_decodes_kind_conn_id_and_data() {
    let host = MockHost::default();
    *host.max_frame.borrow_mut() = Some(Box::new(|| 4096));
    *host.recv.borrow_mut() = Some(Box::new(fake_recv_once(Kind::ConnData, 7, b"payload")));

    let msg = recv_with(&host, &mut Vec::new(), 1000).expect("expected a message");
    assert_eq!(msg.kind, Kind::ConnData);
    assert_eq!(msg.conn_id, 7);
    assert_eq!(msg.data, b"payload");
}

#[test]
fn recv_reports_timeout_as_none() {
    let host = MockHost::default();
    *host.max_frame.borrow_mut() = Some(Box::new(|| 4096));
    *host.recv.borrow_mut() = Some(Box::new(|_, _, _, _| -1));

    assert!(recv_with(&host, &mut Vec::new(), 100).is_none());
}

#[test]
fn duration_to_timeout_ms_matches_abi_convention() {
    assert_eq!(
        duration_to_timeout_ms(None),
        -1,
        "no timeout should block forever (-1)"
    );
    assert_eq!(
        duration_to_timeout_ms(Some(Duration::ZERO)),
        0,
        "a zero duration should return immediately (0)"
    );
    assert_eq!(
        duration_to_timeout_ms(Some(Duration::from_millis(250))),
        250,
        "a positive duration should convert to milliseconds"
    );
}

#[test]
fn recv_grows_buffer_on_undersized_reply() {
    let host = MockHost::default();
    *host.max_frame.borrow_mut() = Some(Box::new(|| 4)); // deliberately too small
    let payload: &'static [u8] = b"this does not fit in 4 bytes";
    let calls = Rc::new(RefCell::new(0));
    let calls2 = calls.clone();
    *host.recv.borrow_mut() = Some(Box::new(move |meta, buf, buf_cap, _timeout_ms| {
        *calls2.borrow_mut() += 1;
        if payload.len() as i32 > buf_cap {
            return -(payload.len() as i32 + 1);
        }
        write_meta(meta, Kind::Message.code(), 0);
        buf[..payload.len()].copy_from_slice(payload);
        payload.len() as i32
    }));

    let mut buf = Vec::new();
    let msg = recv_with(&host, &mut buf, -1).expect("expected a message after the buffer grew");
    assert_eq!(msg.data, payload);
    assert_eq!(
        *calls.borrow(),
        2,
        "recv should be called twice: undersized, then resized"
    );
    assert!(buf.len() >= payload.len());
}

#[test]
fn recv_skips_unknown_kind() {
    let host = MockHost::default();
    *host.max_frame.borrow_mut() = Some(Box::new(|| 4096));
    let calls = Rc::new(RefCell::new(0));
    let calls2 = calls.clone();
    *host.recv.borrow_mut() = Some(Box::new(move |meta, buf, _buf_cap, _timeout_ms| {
        *calls2.borrow_mut() += 1;
        let call = *calls2.borrow();
        if call == 1 {
            // A kind the host may add in the future, unknown to this
            // library: it is skipped.
            write_meta(meta, 99, 0);
            buf[..b"ignored".len()].copy_from_slice(b"ignored");
            return b"ignored".len() as i32;
        }
        write_meta(meta, Kind::Message.code(), 0);
        buf[..b"real".len()].copy_from_slice(b"real");
        b"real".len() as i32
    }));

    let msg =
        recv_with(&host, &mut Vec::new(), -1).expect("expected the second, known-kind message");
    assert_eq!(*calls.borrow(), 2);
    assert_eq!(msg.kind, Kind::Message);
    assert_eq!(msg.data, b"real");
}

#[test]
fn conn_write_success_returns_ok() {
    let host = MockHost::default();
    let captured = Rc::new(RefCell::new(0i32));
    let captured2 = captured.clone();
    *host.conn_write.borrow_mut() = Some(Box::new(move |conn_id, _, _| {
        *captured2.borrow_mut() = conn_id;
        0
    }));

    assert!(conn_write_with(&host, 42, b"data").is_ok());
    assert_eq!(*captured.borrow(), 42);
}

#[test]
fn conn_write_unknown_conn_returns_error() {
    let host = MockHost::default();
    *host.conn_write.borrow_mut() = Some(Box::new(|_, _, _| -1));

    assert_eq!(
        conn_write_with(&host, 42, b"data"),
        Err(UnknownConnection(42))
    );
}

#[test]
fn max_frame_passes_through_host_value() {
    let host = MockHost::default();
    *host.max_frame.borrow_mut() = Some(Box::new(|| 1_048_576));

    assert_eq!(max_frame_with(&host), 1_048_576);
}

#[test]
fn recv_reuses_its_buffer_across_receives() {
    let host = MockHost::default();
    let queries = Rc::new(RefCell::new(0));
    let queries2 = queries.clone();
    *host.max_frame.borrow_mut() = Some(Box::new(move || {
        *queries2.borrow_mut() += 1;
        16
    }));
    let caps = Rc::new(RefCell::new(Vec::new()));
    let caps2 = caps.clone();
    *host.recv.borrow_mut() = Some(Box::new(move |meta, buf, buf_cap, timeout_ms| {
        caps2.borrow_mut().push((buf_cap, timeout_ms));
        write_meta(meta, Kind::ConnData.code(), 1);
        buf[..2].copy_from_slice(b"ok");
        2
    }));

    let mut buf = Vec::new();
    let first = recv_with(&host, &mut buf, 10).expect("expected a message");
    let second = recv_with(&host, &mut buf, 20).expect("expected a message");
    assert_eq!(first.data, b"ok");
    assert_eq!(second.data, b"ok");
    assert_eq!(*queries.borrow(), 1, "max_frame is asked only for the first receive");
    assert_eq!(*caps.borrow(), vec![(16, 10), (16, 20)]);
    assert_eq!(buf.len(), 16);
}

#[test]
fn recv_skips_unknown_kind_claiming_more_than_the_buffer() {
    let host = MockHost::default();
    *host.max_frame.borrow_mut() = Some(Box::new(|| 4));
    let calls = Rc::new(RefCell::new(0));
    let calls2 = calls.clone();
    *host.recv.borrow_mut() = Some(Box::new(move |meta, buf, _buf_cap, _timeout_ms| {
        *calls2.borrow_mut() += 1;
        if *calls2.borrow() == 1 {
            write_meta(meta, 99, 0);
            return 10;
        }
        write_meta(meta, Kind::ConnData.code(), 3);
        buf[..2].copy_from_slice(b"ok");
        2
    }));

    let mut buf = Vec::new();
    let msg = recv_with(&host, &mut buf, -1).expect("expected the known-kind message");
    assert_eq!(*calls.borrow(), 2);
    assert_eq!(msg.kind, Kind::ConnData);
    assert_eq!(msg.conn_id, 3);
    assert_eq!(msg.data, b"ok");
    assert_eq!(buf.len(), 4);
}
