//! Verified core of a guest-side SDK for the ExecSandbox WASM ABI
//! (`send` / `recv` / `conn_write` / `max_frame`).
//!
//! The library holds everything that is decided on the guest side of the
//! ABI: how arguments are handed to the host, how the host's replies are
//! read (message kinds, little-endian metadata, payload length), how the
//! receive buffer is sized and grown, how a timeout becomes the ABI's
//! millisecond convention, and how a failed connection write is reported.
//! Talking to the host itself is I/O and is left to the caller, which
//! performs the host calls that the functions here describe and hands the
//! replies back.
pub mod calls;
pub mod kind;
pub mod message;
pub mod recv;
pub mod run;
pub mod timeout;
pub mod wire;

pub use crate::calls::{conn_write, conn_write_result, max_frame, send, ConnWriteCall, SendCall};
pub use crate::kind::Kind;
pub use crate::message::{Message, UnknownConnection};
pub use crate::recv::{recv, reply_fits, Receive, RecvAction, RecvEvent};
pub use crate::timeout::duration_to_timeout_ms;
