//! The kinds of items a sandbox's mailbox delivers.
use vstd::prelude::*;

verus! {

/// Identifies what a received message represents.
///
/// On the wire a kind is a `u32`: `Message` is 0, `ConnEstablished` is 1,
/// `ConnData` is 2 and `ConnClosed` is 3.
#[derive(Debug, Clone, Copy, PartialEq, Eq, Structural)]
pub enum Kind {
    /// A sandbox-to-sandbox message sent by a peer's `send`.
    Message,
    /// A new external connection. `conn_id` is valid; `data` is empty.
    ConnEstablished,
    /// Data received on an external connection.
    ConnData,
    /// An external connection has closed. `conn_id` is valid; `data` is
    /// empty. Unlike other kinds, this one is always delivered even if the
    /// mailbox is otherwise full.
    ConnClosed,
}

/// The largest kind code this library knows about (that of `ConnClosed`).
pub const MAX_KNOWN_KIND: u32 = 3;

/// The wire code of a kind.
pub open spec fn kind_code(k: Kind) -> u32 {
    match k {
        Kind::Message => 0,
        Kind::ConnEstablished => 1,
        Kind::ConnData => 2,
        Kind::ConnClosed => 3,
    }
}

/// The kind that a wire code is read as: codes 0, 1 and 2 name their kind,
/// every other code is read as `ConnClosed`.
pub open spec fn kind_of_code(v: u32) -> Kind {
    if v == 0 {
        Kind::Message
    } else if v == 1 {
        Kind::ConnEstablished
    } else if v == 2 {
        Kind::ConnData
    } else {
        Kind::ConnClosed
    }
}

impl Kind {
    /// Reads a wire code as a kind (see [`kind_of_code`]).
    pub fn from_u32(v: u32) -> (k: Kind)
        ensures
            k == kind_of_code(v),
    {
        match v {
            0 => Kind::Message,
            1 => Kind::ConnEstablished,
            2 => Kind::ConnData,
            _ => Kind::ConnClosed,
        }
    }

    /// The wire code of this kind.
    pub fn code(&self) -> (c: u32)
        ensures
            c == kind_code(*self),
            c <= MAX_KNOWN_KIND,
    {
        match self {
            Kind::Message => 0,
            Kind::ConnEstablished => 1,
            Kind::ConnData => 2,
            Kind::ConnClosed => 3,
        }
    }
}

/// Every kind is read back from its own wire code.
pub proof fn lemma_kind_code_round_trip(k: Kind)
    ensures
        kind_of_code(kind_code(k)) == k,
        kind_code(k) <= MAX_KNOWN_KIND,
{
}

/// Every known wire code (at most `MAX_KNOWN_KIND`) is the code of the kind
/// it is read as; distinct known codes name distinct kinds.
pub proof fn lemma_known_code_round_trip(v: u32, w: u32)
    requires
        v <= MAX_KNOWN_KIND,
        w <= MAX_KNOWN_KIND,
    ensures
        kind_code(kind_of_code(v)) == v,
        kind_of_code(v) == kind_of_code(w) ==> v == w,
{
}

} // verus!
