//! A whole receive: the steps of [`Receive::step`](crate::recv::Receive::step)
//! chained over a sequence of host replies, and the laws that hold of the
//! run as a whole and across receives that share a buffer.
use vstd::prelude::*;

use crate::kind::{kind_of_code, MAX_KNOWN_KIND};
use crate::message::MessageView;
use crate::recv::{
    initial_buffer_len, lemma_recv_polls_whole_nonempty_buffer, poll_with, recv_transition,
    resized, RecvActionView, RecvEvent,
};
use crate::wire::{meta_conn_id, meta_kind};

verus! {

/// One answer of the host's `recv` during a receive: the value `n` it
/// returned, the metadata block it wrote, and the payload bytes it wrote at
/// the front of the buffer (`n` of them when `n >= 0`, none otherwise).
pub struct HostReply {
    pub n: i32,
    pub meta: [u8; 8],
    pub bytes: Seq<u8>,
}

/// The outcome of a receive over a sequence of host replies.
pub enum RecvRun {
    /// The receive finished with `message`, leaving the buffer `buf`;
    /// `polls` are the host `recv` calls it made, in order.
    Finished { buf: Seq<u8>, message: Option<MessageView>, polls: Seq<RecvActionView> },
    /// The replies ran out before the receive finished.
    Unfinished,
}

/// The event a reply is reported as.
pub open spec fn reply_event(r: HostReply) -> RecvEvent {
    RecvEvent::Polled { n: r.n, meta: r.meta }
}

/// The buffer after the host wrote the reply's payload at its front.
pub open spec fn filled(buf: Seq<u8>, r: HostReply) -> Seq<u8> {
    if r.n >= 0 && r.bytes.len() <= buf.len() {
        r.bytes + buf.skip(r.bytes.len() as int)
    } else {
        buf
    }
}

/// Whether a reply ends a receive: a timeout, or a message of a known kind.
pub open spec fn ends_receive(r: HostReply) -> bool {
    r.n == -1 || (r.n >= 0 && meta_kind(r.meta@) <= MAX_KNOWN_KIND)
}

/// The first index of a reply that ends a receive is `j`.
pub open spec fn first_ending_reply(replies: Seq<HostReply>, j: int) -> bool {
    &&& 0 <= j < replies.len()
    &&& ends_receive(replies[j])
    &&& forall|i: int| 0 <= i < j ==> !ends_receive(#[trigger] replies[i])
}

/// What a receive returns for its ending reply `r`: nothing for a timeout,
/// otherwise the decoded kind and connection id with the payload the host
/// wrote.
pub open spec fn reply_result(r: HostReply) -> Option<MessageView> {
    if r.n == -1 {
        None
    } else {
        Some(
            MessageView {
                kind: kind_of_code(meta_kind(r.meta@) as u32),
                conn_id: meta_conn_id(r.meta@) as u32,
                data: r.bytes,
            },
        )
    }
}

/// The polls of a receive whose buffer is `buf` and whose next action is the
/// poll `pending`, with the host answering `replies` in order.
pub open spec fn poll_run(
    buf: Seq<u8>,
    timeout_ms: i32,
    pending: RecvActionView,
    replies: Seq<HostReply>,
) -> RecvRun
    decreases replies.len(),
{
    if replies.len() == 0 {
        RecvRun::Unfinished
    } else {
        let r = replies[0];
        let (next, action) = recv_transition(filled(buf, r), timeout_ms, reply_event(r));
        match action {
            RecvActionView::Finish(m) => RecvRun::Finished {
                buf: next,
                message: m,
                polls: seq![pending],
            },
            _ => match poll_run(next, timeout_ms, action, replies.drop_first()) {
                RecvRun::Finished { buf, message, polls } => RecvRun::Finished {
                    buf,
                    message,
                    polls: seq![pending] + polls,
                },
                RecvRun::Unfinished => RecvRun::Unfinished,
            },
        }
    }
}

/// A whole receive with timeout `timeout_ms` on buffer `buf`, the host's
/// `max_frame` reporting `max_frame` and its `recv` answering `replies`:
/// whether the host's `max_frame` was called, and how the receive ended.
pub open spec fn recv_run(buf: Seq<u8>, timeout_ms: i32, max_frame: i32, replies: Seq<HostReply>) -> (
    bool,
    RecvRun,
) {
    let (b0, a0) = recv_transition(buf, timeout_ms, RecvEvent::Start);
    if a0 is QueryMaxFrame {
        let (b1, a1) = recv_transition(b0, timeout_ms, RecvEvent::MaxFrame(max_frame));
        (true, poll_run(b1, timeout_ms, a1, replies))
    } else {
        (false, poll_run(b0, timeout_ms, a0, replies))
    }
}

/// The buffer a receive first polls with: `buf` itself when it holds bytes,
/// otherwise a fresh one sized from the host's `max_frame`.
pub open spec fn start_buffer(buf: Seq<u8>, max_frame: i32) -> Seq<u8> {
    if buf.len() == 0 {
        resized(buf, initial_buffer_len(max_frame))
    } else {
        buf
    }
}

/// The host keeps to the buffers it is offered: up to the reply that ends
/// the receive, no reply of a known kind claims more payload bytes than the
/// buffer then holds, and such a reply of `n >= 0` bytes writes exactly `n`
/// bytes. Replies of unknown kinds are not bounded.
pub open spec fn replies_fit(buf: Seq<u8>, timeout_ms: i32, replies: Seq<HostReply>) -> bool
    decreases replies.len(),
{
    replies.len() == 0 || {
        let r = replies[0];
        &&& (r.n >= 0 && meta_kind(r.meta@) <= MAX_KNOWN_KIND) ==> r.n <= buf.len()
            && r.bytes.len() == r.n
        &&& (!ends_receive(r) ==> replies_fit(
            recv_transition(filled(buf, r), timeout_ms, reply_event(r)).0,
            timeout_ms,
            replies.drop_first(),
        ))
    }
}

/// A finished poll sequence started with the pending poll, and from a buffer
/// that holds bytes it leaves a buffer that holds bytes.
proof fn lemma_poll_run_shape(buf: Seq<u8>, timeout_ms: i32, pending: RecvActionView, replies: Seq<HostReply>)
    ensures
        poll_run(buf, timeout_ms, pending, replies) matches RecvRun::Finished { buf: fb, polls, .. }
            ==> {
            &&& polls.len() >= 1
            &&& polls[0] == pending
            &&& buf.len() > 0 ==> fb.len() > 0
        },
    decreases replies.len(),
{
    if replies.len() > 0 {
        let r = replies[0];
        let f = filled(buf, r);
        assert(f.len() == buf.len());
        let (next, action) = recv_transition(f, timeout_ms, reply_event(r));
        lemma_recv_polls_whole_nonempty_buffer(f, timeout_ms, reply_event(r));
        lemma_poll_run_shape(next, timeout_ms, action, replies.drop_first());
    }
}

/// The reply that ends a receive decides it: a receive polls the host once
/// per reply up to and including the first reply that is a timeout or a
/// message of a known kind, and returns nothing for a timeout and otherwise
/// that message, decoded, with the payload the host wrote. Every poll hands
/// the host the receive's own timeout (not what is left of it) and the
/// whole buffer; the buffer left behind is as long as the last poll's
/// capacity says, and as long as at the start when the host never asked
/// for a larger one.
pub proof fn lemma_poll_run_ends_at_first_ending_reply(
    buf: Seq<u8>,
    timeout_ms: i32,
    replies: Seq<HostReply>,
    j: int,
)
    requires
        replies_fit(buf, timeout_ms, replies),
        first_ending_reply(replies, j),
    ensures
        poll_run(buf, timeout_ms, poll_with(buf, timeout_ms), replies) matches RecvRun::Finished {
            buf: fb,
            message,
            polls,
        } && {
            &&& polls.len() == j + 1
            &&& message == reply_result(replies[j])
            &&& polls[0] == poll_with(buf, timeout_ms)
            &&& forall|i: int|
                0 <= i < polls.len() ==> #[trigger] polls[i] is Poll && polls[i]->timeout_ms
                    == timeout_ms
            &&& polls.last() == poll_with(fb, timeout_ms)
            &&& buf.len() > 0 ==> fb.len() > 0
            &&& (forall|i: int| 0 <= i <= j ==> #[trigger] replies[i].n >= -1) ==> fb.len()
                == buf.len()
        },
    decreases j,
{
    let r = replies[0];
    let f = filled(buf, r);
    assert(f.len() == buf.len());
    let (next, action) = recv_transition(f, timeout_ms, reply_event(r));
    lemma_recv_polls_whole_nonempty_buffer(f, timeout_ms, reply_event(r));
    if j == 0 {
        if r.n >= 0 {
            assert(f.take(r.n as int) =~= r.bytes);
        }
        let m = reply_result(r);
        assert(poll_run(buf, timeout_ms, poll_with(buf, timeout_ms), replies) == RecvRun::Finished {
            buf: next,
            message: m,
            polls: seq![poll_with(buf, timeout_ms)],
        });
    } else {
        assert(!ends_receive(replies[0]));
        let rest = replies.drop_first();
        assert forall|i: int| 0 <= i < j - 1 implies !ends_receive(#[trigger] rest[i]) by {
            assert(rest[i] == replies[i + 1]);
        }
        assert(rest[j - 1] == replies[j]);
        lemma_poll_run_ends_at_first_ending_reply(next, timeout_ms, rest, j - 1);
        lemma_poll_run_shape(next, timeout_ms, action, rest);
        assert(action == poll_with(next, timeout_ms));
        if let RecvRun::Finished { buf: fb, message, polls } = poll_run(
            next,
            timeout_ms,
            action,
            rest,
        ) {
            let all = seq![poll_with(buf, timeout_ms)] + polls;
            assert forall|i: int| 0 <= i < all.len() implies #[trigger] all[i] is Poll
                && all[i]->timeout_ms == timeout_ms by {
                if i > 0 {
                    assert(all[i] == polls[i - 1]);
                }
            }
            assert(all.last() == polls.last());
            if forall|i: int| 0 <= i <= j ==> #[trigger] replies[i].n >= -1 {
                assert(replies[0].n >= -1);
                assert forall|i: int| 0 <= i <= j - 1 implies #[trigger] rest[i].n >= -1 by {
                    assert(rest[i] == replies[i + 1]);
                }
                assert(next.len() == f.len());
            }
        }
    }
}

/// A whole receive: its first step asks the host's `max_frame` exactly
/// when the buffer is empty, and then polls with a buffer of the size
/// `max_frame` reported (or 4096 when it reported no positive size), or
/// else with the buffer as it is; from there the reply that ends the
/// receive decides it, as [`lemma_poll_run_ends_at_first_ending_reply`]
/// says, and the buffer it leaves holds bytes.
pub proof fn lemma_recv_run(buf: Seq<u8>, timeout_ms: i32, max_frame: i32, replies: Seq<HostReply>, j: int)
    requires
        replies_fit(start_buffer(buf, max_frame), timeout_ms, replies),
        first_ending_reply(replies, j),
    ensures
        ({
            let (queried, run) = recv_run(buf, timeout_ms, max_frame, replies);
            let start = start_buffer(buf, max_frame);
            &&& queried <==> buf.len() == 0
            &&& start.len() == (if buf.len() == 0 {
                initial_buffer_len(max_frame)
            } else {
                buf.len() as nat
            })
            &&& run == poll_run(start, timeout_ms, poll_with(start, timeout_ms), replies)
            &&& run matches RecvRun::Finished { buf: fb, message, polls } && {
                &&& polls.len() == j + 1
                &&& message == reply_result(replies[j])
                &&& polls[0] == poll_with(start, timeout_ms)
                &&& polls.last() == poll_with(fb, timeout_ms)
                &&& fb.len() > 0
                &&& (forall|i: int| 0 <= i <= j ==> #[trigger] replies[i].n >= -1) ==> fb.len()
                    == start.len()
            }
        }),
{
    let start = start_buffer(buf, max_frame);
    lemma_recv_polls_whole_nonempty_buffer(buf, timeout_ms, RecvEvent::Start);
    lemma_recv_polls_whole_nonempty_buffer(buf, timeout_ms, RecvEvent::MaxFrame(max_frame));
    assert(start.len() > 0);
    lemma_poll_run_ends_at_first_ending_reply(start, timeout_ms, replies, j);
}

/// Receives share their buffer: after a receive finishes, the next one on
/// the buffer it left makes no `max_frame` call and first polls with that
/// buffer's whole length, whatever its timeout and the host's answers.
pub proof fn lemma_recv_runs_share_buffer(
    buf: Seq<u8>,
    timeout_ms: i32,
    max_frame: i32,
    replies: Seq<HostReply>,
    next_timeout_ms: i32,
    next_max_frame: i32,
    next_replies: Seq<HostReply>,
)
    requires
        recv_run(buf, timeout_ms, max_frame, replies).1 is Finished,
    ensures
        ({
            let fb = recv_run(buf, timeout_ms, max_frame, replies).1->buf;
            let (queried, run) = recv_run(fb, next_timeout_ms, next_max_frame, next_replies);
            &&& fb.len() > 0
            &&& !queried
            &&& run == poll_run(fb, next_timeout_ms, poll_with(fb, next_timeout_ms), next_replies)
            &&& run matches RecvRun::Finished { polls, .. } ==> polls[0] == poll_with(
                fb,
                next_timeout_ms,
            )
        }),
{
    let start = start_buffer(buf, max_frame);
    lemma_recv_polls_whole_nonempty_buffer(buf, timeout_ms, RecvEvent::Start);
    lemma_recv_polls_whole_nonempty_buffer(buf, timeout_ms, RecvEvent::MaxFrame(max_frame));
    let (b0, a0) = recv_transition(buf, timeout_ms, RecvEvent::Start);
    if a0 is QueryMaxFrame {
        let (b1, a1) = recv_transition(b0, timeout_ms, RecvEvent::MaxFrame(max_frame));
        lemma_poll_run_shape(b1, timeout_ms, a1, replies);
    } else {
        lemma_poll_run_shape(b0, timeout_ms, a0, replies);
    }
    let fb = recv_run(buf, timeout_ms, max_frame, replies).1->buf;
    lemma_recv_polls_whole_nonempty_buffer(fb, next_timeout_ms, RecvEvent::Start);
    lemma_poll_run_shape(fb, next_timeout_ms, poll_with(fb, next_timeout_ms), next_replies);
}

} // verus!
