//! The host calls `send`, `conn_write` and `max_frame`: the arguments the
//! guest hands the host, and what the guest makes of the host's answer.
//!
//! The host's ABI takes `i32` values: a destination or connection id is
//! handed over bit for bit, and a length is the payload's length
//! reinterpreted as an `i32`.
use vstd::prelude::*;

use crate::message::UnknownConnection;

verus! {

/// The status with which the host's `conn_write` reports that the
/// connection id names no open connection.
pub const CONN_WRITE_UNKNOWN: i32 = -1;

/// The arguments of the host's `send`, besides the payload itself.
#[derive(Debug, Clone, Copy, PartialEq, Eq, Structural)]
pub struct SendCall {
    /// The destination number, as the host receives it.
    pub dest: i32,
    /// The payload's length in bytes, as the host receives it.
    pub len: i32,
}

/// The arguments of the host's `conn_write`, besides the payload itself.
#[derive(Debug, Clone, Copy, PartialEq, Eq, Structural)]
pub struct ConnWriteCall {
    /// The connection id, as the host receives it.
    pub conn_id: i32,
    /// The payload's length in bytes, as the host receives it.
    pub len: i32,
}

/// Sends `data` to the destination numbered `dest`, as wired up for this
/// sandbox instance at launch time: returns the arguments with which the
/// host's `send` is called, together with `data`.
///
/// The host's `send` never blocks and never reports failure: an
/// unconfigured destination, an unreachable peer or a full mailbox on the
/// receiving side all drop the message silently.
pub fn send(dest: u32, data: &[u8]) -> (call: SendCall)
    ensures
        call.dest == dest as i32,
        call.len == data@.len() as i32,
{
    SendCall { dest: dest as i32, len: data.len() as i32 }
}

/// Writes `data` to the external connection identified by `conn_id`:
/// returns the arguments with which the host's `conn_write` is called,
/// together with `data`. [`conn_write_result`] reads the host's answer.
pub fn conn_write(conn_id: u32, data: &[u8]) -> (call: ConnWriteCall)
    ensures
        call.conn_id == conn_id as i32,
        call.len == data@.len() as i32,
{
    ConnWriteCall { conn_id: conn_id as i32, len: data.len() as i32 }
}

/// The outcome of writing to connection `conn_id` when the host's
/// `conn_write` answered `status`.
pub open spec fn conn_write_outcome(conn_id: u32, status: i32) -> Result<(), UnknownConnection> {
    if status == CONN_WRITE_UNKNOWN {
        Err(UnknownConnection(conn_id))
    } else {
        Ok(())
    }
}

/// Reads the host's answer `status` to a `conn_write` on `conn_id`:
/// [`UnknownConnection`] with that id when the host answered `-1` (the id
/// names no currently open connection), success otherwise.
pub fn conn_write_result(conn_id: u32, status: i32) -> (r: Result<(), UnknownConnection>)
    ensures
        r == conn_write_outcome(conn_id, status),
{
    if status == CONN_WRITE_UNKNOWN {
        Err(UnknownConnection(conn_id))
    } else {
        Ok(())
    }
}

/// The maximum frame size, in bytes, that the sandbox instance was
/// configured with, given the value `reported` by the host's `max_frame`
/// (reinterpreted as a `usize`).
pub fn max_frame(reported: i32) -> (size: usize)
    ensures
        size == reported as usize,
{
    reported as usize
}

/// Numbers that fit in an `i32` reach the host unchanged: a destination or
/// connection id up to `i32::MAX` and any payload shorter than 2 GiB; and a
/// non-negative maximum frame size is reported as it is.
pub proof fn lemma_host_arguments_exact(id: u32, len: usize, reported: i32)
    ensures
        id <= i32::MAX ==> id as i32 == id,
        len <= i32::MAX ==> len as i32 == len,
        reported >= 0 ==> reported as usize == reported,
{
}

/// A connection write fails exactly when the host answers `-1`, and the
/// error names the connection that was written to.
pub proof fn lemma_conn_write_outcome(conn_id: u32, status: i32)
    ensures
        conn_write_outcome(conn_id, status) is Err <==> status == CONN_WRITE_UNKNOWN,
        conn_write_outcome(conn_id, status) matches Err(e) ==> e.0 == conn_id,
{
}

} // verus!
