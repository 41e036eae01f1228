//! The receive protocol as a state machine.
//!
//! Taking one message off the mailbox alternates calls into the host with
//! decisions: size the receive buffer (asking the host for its configured
//! maximum frame size the first time), poll the host, then act on its
//! reply: a timeout ends the receive with nothing, an undersized buffer is
//! grown to the size the host asked for and the poll is repeated, a message
//! of a kind this library does not know is skipped and the poll is
//! repeated, and anything else is delivered.
//!
//! [`Receive::step`] makes those decisions. Its caller owns the buffer, performs
//! the [`RecvAction`] it returns (the host fills the buffer and an 8-byte
//! metadata block during a poll) and hands back what the host answered as
//! the next [`RecvEvent`], starting with [`RecvEvent::Start`], until the
//! action is [`RecvAction::Finish`].
use vstd::prelude::*;

use crate::kind::{kind_code, kind_of_code, Kind, MAX_KNOWN_KIND};
use crate::message::{Message, MessageView};
use crate::timeout::{duration_millis, duration_to_timeout_ms, timeout_ms_of};
use crate::wire::{meta_conn_id, meta_kind, read_le_u32};

use std::time::Duration;

verus! {

/// Size of the receive buffer when the host reports no positive maximum
/// frame size.
pub const DEFAULT_BUFFER_LEN: usize = 4096;

/// What the host answered to the previous action of a receive.
#[derive(Debug, Clone, Copy)]
pub enum RecvEvent {
    /// A receive begins.
    Start,
    /// The host's `max_frame` returned this value.
    MaxFrame(i32),
    /// The host's `recv` returned `n` and filled in `meta` (and, when
    /// `n >= 0`, the first `n` bytes of the buffer).
    Polled { n: i32, meta: [u8; 8] },
}

/// What the caller has to do next in a receive.
#[derive(Debug, Clone)]
pub enum RecvAction {
    /// Call the host's `max_frame` and report its value as
    /// [`RecvEvent::MaxFrame`].
    QueryMaxFrame,
    /// Call the host's `recv` with the buffer, a capacity of `buf_cap`
    /// bytes and `timeout_ms`, and report its reply as
    /// [`RecvEvent::Polled`].
    Poll { buf_cap: i32, timeout_ms: i32 },
    /// The receive is over: `None` when no message arrived before the
    /// timeout elapsed.
    Finish(Option<Message>),
}

/// The mathematical value of a [`RecvAction`].
pub enum RecvActionView {
    QueryMaxFrame,
    Poll { buf_cap: i32, timeout_ms: i32 },
    Finish(Option<MessageView>),
}

impl View for RecvAction {
    type V = RecvActionView;

    open spec fn view(&self) -> RecvActionView {
        match self {
            RecvAction::QueryMaxFrame => RecvActionView::QueryMaxFrame,
            RecvAction::Poll { buf_cap, timeout_ms } => RecvActionView::Poll {
                buf_cap: *buf_cap,
                timeout_ms: *timeout_ms,
            },
            RecvAction::Finish(None) => RecvActionView::Finish(None),
            RecvAction::Finish(Some(m)) => RecvActionView::Finish(Some(m@)),
        }
    }
}

/// The size of a fresh receive buffer, given what the host's `max_frame`
/// reported: that size when it is positive, [`DEFAULT_BUFFER_LEN`]
/// otherwise.
pub open spec fn initial_buffer_len(reported: i32) -> nat {
    if reported > 0 {
        reported as nat
    } else {
        DEFAULT_BUFFER_LEN as nat
    }
}

/// `s` cut or zero-extended to `len` bytes, as `Vec::resize(len, 0)` does.
pub open spec fn resized(s: Seq<u8>, len: nat) -> Seq<u8> {
    if len <= s.len() {
        s.take(len as int)
    } else {
        s + Seq::new((len - s.len()) as nat, |i: int| 0u8)
    }
}

/// The buffer size the host asks for with a reply `n < -1`.
pub open spec fn requested_len(n: i32) -> nat {
    (-(n + 1)) as nat
}

/// A poll of the host with the whole buffer `buf`.
pub open spec fn poll_with(buf: Seq<u8>, timeout_ms: i32) -> RecvActionView {
    RecvActionView::Poll { buf_cap: buf.len() as i32, timeout_ms }
}

/// The message delivered for a reply of `n` payload bytes with metadata
/// `meta` in buffer `buf`.
pub open spec fn delivered(buf: Seq<u8>, n: i32, meta: Seq<u8>) -> MessageView {
    MessageView {
        kind: kind_of_code(meta_kind(meta) as u32),
        conn_id: meta_conn_id(meta) as u32,
        data: buf.take(n as int),
    }
}

/// One step of a receive with timeout `timeout_ms`: from the buffer `buf`
/// and the host's answer `event`, the buffer afterwards and the next
/// action.
pub open spec fn recv_transition(buf: Seq<u8>, timeout_ms: i32, event: RecvEvent) -> (
    Seq<u8>,
    RecvActionView,
) {
    match event {
        RecvEvent::Start => if buf.len() == 0 {
            (buf, RecvActionView::QueryMaxFrame)
        } else {
            (buf, poll_with(buf, timeout_ms))
        },
        RecvEvent::MaxFrame(reported) => {
            let grown = resized(buf, initial_buffer_len(reported));
            (grown, poll_with(grown, timeout_ms))
        },
        RecvEvent::Polled { n, meta } => if n == -1 {
            (buf, RecvActionView::Finish(None))
        } else if n < -1 {
            let grown = resized(buf, requested_len(n));
            (grown, poll_with(grown, timeout_ms))
        } else if meta_kind(meta@) > MAX_KNOWN_KIND {
            (buf, poll_with(buf, timeout_ms))
        } else {
            (buf, RecvActionView::Finish(Some(delivered(buf, n, meta@))))
        },
    }
}

/// Whether `event` is a reply of the host that delivers a message of a
/// known kind with more payload bytes than the buffer it was given holds.
/// (A reply of an unknown kind is skipped whatever length it claims.)
pub open spec fn overlong_reply(buf: Seq<u8>, event: RecvEvent) -> bool {
    match event {
        RecvEvent::Polled { n, meta } => n >= 0 && meta_kind(meta@) <= MAX_KNOWN_KIND && n
            > buf.len(),
        _ => false,
    }
}

/// A receive sizes an empty buffer before it polls, never polls with an
/// empty buffer, and every poll offers the host the whole buffer: the host
/// is asked for its maximum frame size only at the start of a receive with
/// an empty buffer; a buffer that holds bytes keeps holding bytes; and a
/// poll that follows a start or a size report has a non-empty buffer.
pub proof fn lemma_recv_polls_whole_nonempty_buffer(buf: Seq<u8>, timeout_ms: i32, event: RecvEvent)
    ensures
        ({
            let (next, action) = recv_transition(buf, timeout_ms, event);
            &&& action is QueryMaxFrame <==> (event is Start && buf.len() == 0)
            &&& buf.len() > 0 ==> next.len() > 0
            &&& (action is Poll && !(event is Polled)) ==> next.len() > 0
            &&& action is Poll ==> action == poll_with(next, timeout_ms)
            &&& action is Poll ==> action->timeout_ms == timeout_ms
        }),
{
    if let RecvEvent::MaxFrame(reported) = event {
        assert(resized(buf, initial_buffer_len(reported)).len() == initial_buffer_len(reported));
    }
    if let RecvEvent::Polled { n, meta } = event {
        if n < -1 {
            assert(resized(buf, requested_len(n)).len() == requested_len(n));
        }
    }
}

/// After the host answers that the buffer is too small (`n < -1`), the
/// buffer holds exactly the `-(n + 1)` bytes the host asked for (between 1
/// and `i32::MAX`), keeps the bytes it had up to that size, and the poll is
/// repeated with that capacity and the same timeout; a reply of that many
/// payload bytes then fits the buffer.
pub proof fn lemma_recv_grows_to_request(buf: Seq<u8>, timeout_ms: i32, n: i32, meta: [u8; 8], next_meta: [u8; 8])
    requires
        n < -1,
    ensures
        ({
            let (next, action) = recv_transition(buf, timeout_ms, RecvEvent::Polled { n, meta });
            &&& 1 <= requested_len(n) <= i32::MAX
            &&& next.len() == requested_len(n)
            &&& forall|i: int| 0 <= i < buf.len() && i < next.len() ==> next[i] == buf[i]
            &&& action == (RecvActionView::Poll { buf_cap: -(n + 1) as i32, timeout_ms })
            &&& !overlong_reply(next, RecvEvent::Polled { n: -(n + 1) as i32, meta: next_meta })
        }),
{
    let next = resized(buf, requested_len(n));
    assert(next.len() == requested_len(n));
}

/// A receive only ever delivers a message of a known kind, exactly the kind
/// and connection id the host wrote in the metadata block, with the `n`
/// payload bytes at the front of the buffer; a timeout (`n == -1`) and
/// nothing else ends it without a message; and finishing leaves the buffer
/// as it was, for the next receive.
pub proof fn lemma_recv_delivers_what_the_host_wrote(buf: Seq<u8>, timeout_ms: i32, event: RecvEvent)
    requires
        !overlong_reply(buf, event),
    ensures
        ({
            let (next, action) = recv_transition(buf, timeout_ms, event);
            &&& action is Finish ==> next == buf
            &&& action == RecvActionView::Finish(None) <==> (event matches RecvEvent::Polled { n, .. } && n == -1)
            &&& action matches RecvActionView::Finish(Some(m)) ==> {
                &&& event matches RecvEvent::Polled { n, meta } && {
                    &&& 0 <= n <= buf.len()
                    &&& meta_kind(meta@) <= MAX_KNOWN_KIND
                    &&& kind_code(m.kind) == meta_kind(meta@)
                    &&& m.conn_id == meta_conn_id(meta@)
                    &&& m.data == buf.take(n as int)
                    &&& m.data.len() == n
                }
            }
        }),
{
    if let RecvEvent::Polled { n, meta } = event {
        let k = meta_kind(meta@);
        if n >= 0 && k <= MAX_KNOWN_KIND {
            crate::kind::lemma_known_code_round_trip(k as u32, k as u32);
        }
    }
}

/// Exactly the replies that deliver a known kind with more bytes than the
/// buffer holds are refused: every reply that claims at most the buffer's
/// length (an empty payload included) or is a timeout or grow request, and
/// every reply of an unknown kind, may be stepped on; and a reply of a known
/// kind with `0 <= n <= buf.len()` is delivered with exactly `n` bytes, the
/// front of the buffer, and the kind and connection id of its metadata.
pub proof fn lemma_replies_within_the_buffer_are_delivered(buf: Seq<u8>, timeout_ms: i32, n: i32, meta: [u8; 8])
    ensures
        n <= buf.len() ==> !overlong_reply(buf, RecvEvent::Polled { n, meta }),
        meta_kind(meta@) > MAX_KNOWN_KIND ==> !overlong_reply(buf, RecvEvent::Polled { n, meta }),
        (meta_kind(meta@) <= MAX_KNOWN_KIND && n > buf.len()) ==> overlong_reply(
            buf,
            RecvEvent::Polled { n, meta },
        ),
        (0 <= n <= buf.len() && meta_kind(meta@) <= MAX_KNOWN_KIND) ==> {
            let (next, action) = recv_transition(buf, timeout_ms, RecvEvent::Polled { n, meta });
            &&& next == buf
            &&& action matches RecvActionView::Finish(Some(m)) && {
                &&& m.data.len() == n
                &&& forall|i: int| 0 <= i < n ==> #[trigger] m.data[i] == buf[i]
                &&& kind_code(m.kind) == meta_kind(meta@)
                &&& m.conn_id == meta_conn_id(meta@)
            }
        },
{
    let k = meta_kind(meta@);
    if 0 <= n && k <= MAX_KNOWN_KIND {
        crate::kind::lemma_known_code_round_trip(k as u32, k as u32);
    }
}

/// A message of a kind this library does not know is skipped: the buffer
/// is kept and the host is polled again with it and the same timeout.
pub proof fn lemma_recv_skips_unknown_kinds(buf: Seq<u8>, timeout_ms: i32, n: i32, meta: [u8; 8])
    requires
        n >= 0,
        meta_kind(meta@) > MAX_KNOWN_KIND,
    ensures
        recv_transition(buf, timeout_ms, RecvEvent::Polled { n, meta }) == (buf, poll_with(buf, timeout_ms)),
{
}

/// A fresh buffer has the size the host's `max_frame` reported when that is
/// positive and [`DEFAULT_BUFFER_LEN`] otherwise, and holds only zeros.
pub proof fn lemma_recv_fresh_buffer(timeout_ms: i32, reported: i32)
    ensures
        ({
            let (next, action) = recv_transition(Seq::empty(), timeout_ms, RecvEvent::MaxFrame(reported));
            &&& reported > 0 ==> next.len() == reported
            &&& reported <= 0 ==> next.len() == DEFAULT_BUFFER_LEN
            &&& forall|i: int| 0 <= i < next.len() ==> next[i] == 0
            &&& action == poll_with(next, timeout_ms)
        }),
{
}

fn resize_zeroed(buf: &mut Vec<u8>, len: usize)
    ensures
        final(buf)@ == resized(old(buf)@, len as nat),
{
    let ghost before = buf@;
    let old_len = buf.len();
    buf.resize(len, 0u8);
    if len > old_len {
        assert forall|i: int| 0 <= i < len implies #[trigger] buf@[i] == resized(before, len as nat)[i] by {
            if i >= before.len() {
                assert(cloned::<u8>(0u8, buf@[i]));
            } else {
                assert(buf@.subrange(0, before.len() as int)[i] == before[i]);
            }
        }
        assert(buf@ =~= resized(before, len as nat));
    }
}

fn copy_prefix(buf: &Vec<u8>, n: usize) -> (data: Vec<u8>)
    requires
        n <= buf.len(),
    ensures
        data@ == buf@.take(n as int),
{
    let mut data: Vec<u8> = Vec::new();
    for i in 0..n
        invariant
            n <= buf.len(),
            data@ == buf@.take(i as int),
    {
        data.push(buf[i]);
        assert(buf@.take(i as int).push(buf@[i as int]) =~= buf@.take(i + 1));
    }
    data
}

/// Whether `step` may be handed `event` with the buffer `buf`: false
/// exactly when the host claims more payload bytes for a message of a known
/// kind than the buffer holds.
pub fn reply_fits(buf: &Vec<u8>, event: RecvEvent) -> (fits: bool)
    ensures
        fits == !overlong_reply(buf@, event),
        !(event is Polled) ==> fits,
        event matches RecvEvent::Polled { n, .. } && n <= buf@.len() ==> fits,
        event matches RecvEvent::Polled { n, meta } && meta_kind(meta@) > MAX_KNOWN_KIND ==> fits,
        event matches RecvEvent::Polled { n, meta } && meta_kind(meta@) <= MAX_KNOWN_KIND && n
            > buf@.len() ==> !fits,
{
    match event {
        RecvEvent::Polled { n, meta } => {
            if n < 0 {
                true
            } else {
                let kind_raw = read_le_u32(&meta, 0);
                kind_raw > MAX_KNOWN_KIND || (n as usize) <= buf.len()
            }
        },
        _ => true,
    }
}

/// A receive in progress: waits for a message up to `timeout_ms`
/// milliseconds by the ABI's convention (negative: indefinitely; `0`:
/// return immediately).
#[derive(Debug, Clone, Copy, PartialEq, Eq, Structural)]
pub struct Receive {
    /// The timeout handed to every poll of the host.
    pub timeout_ms: i32,
}

/// Takes one message off this sandbox's mailbox: begins a receive that
/// waits indefinitely for `None`, returns immediately for
/// `Some(Duration::ZERO)` and waits up to the given duration otherwise.
/// Drive it with [`Receive::step`], starting with [`RecvEvent::Start`]; it
/// finishes with `None` if no message arrived before the timeout elapsed.
pub fn recv(timeout: Option<Duration>) -> (r: Receive)
    ensures
        r.timeout_ms == timeout_ms_of(
            match timeout {
                None => None,
                Some(d) => Some(duration_millis(d)),
            },
        ),
{
    Receive { timeout_ms: duration_to_timeout_ms(timeout) }
}

impl Receive {
    /// Advances this receive by one step: acts on the host's answer
    /// `event`, adjusting the receive buffer `buf` as [`recv_transition`]
    /// says, and returns what to do next.
    ///
    /// A reply that delivers a message of a known kind must not claim more
    /// payload bytes than the buffer holds (see [`reply_fits`]).
    pub fn step(&self, buf: &mut Vec<u8>, event: RecvEvent) -> (action: RecvAction)
        requires
            !overlong_reply(old(buf)@, event),
        ensures
            (final(buf)@, action@) == recv_transition(old(buf)@, self.timeout_ms, event),
    {
        let timeout_ms = self.timeout_ms;
        match event {
            RecvEvent::Start => {
                if buf.len() == 0 {
                    RecvAction::QueryMaxFrame
                } else {
                    RecvAction::Poll { buf_cap: buf.len() as i32, timeout_ms }
                }
            },
            RecvEvent::MaxFrame(reported) => {
                let len: usize = if reported > 0 {
                    reported as usize
                } else {
                    DEFAULT_BUFFER_LEN
                };
                resize_zeroed(buf, len);
                RecvAction::Poll { buf_cap: buf.len() as i32, timeout_ms }
            },
            RecvEvent::Polled { n, meta } => {
                if n == -1 {
                    RecvAction::Finish(None)
                } else if n < -1 {
                    let len: usize = (-(n + 1)) as usize;
                    resize_zeroed(buf, len);
                    RecvAction::Poll { buf_cap: buf.len() as i32, timeout_ms }
                } else {
                    let kind_raw = read_le_u32(&meta, 0);
                    if kind_raw > MAX_KNOWN_KIND {
                        RecvAction::Poll { buf_cap: buf.len() as i32, timeout_ms }
                    } else {
                        let conn_id = read_le_u32(&meta, 4);
                        let data = copy_prefix(buf, n as usize);
                        let msg = Message { kind: Kind::from_u32(kind_raw), conn_id, data };
                        RecvAction::Finish(Some(msg))
                    }
                }
            },
        }
    }
}

} // verus!
