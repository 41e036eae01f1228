//! What a receive hands back, and the error of a failed connection write.
use vstd::prelude::*;
use vstd::string::*;

use crate::kind::Kind;

verus! {

/// One item taken off a sandbox's mailbox.
#[derive(Debug, Clone)]
pub struct Message {
    /// What this message represents.
    pub kind: Kind,
    /// The external connection this message relates to. Only meaningful
    /// when `kind` is not [`Kind::Message`].
    pub conn_id: u32,
    /// The message payload. Empty for [`Kind::ConnEstablished`] and
    /// [`Kind::ConnClosed`].
    pub data: Vec<u8>,
}

/// The mathematical value of a [`Message`]: its payload as a sequence.
pub struct MessageView {
    pub kind: Kind,
    pub conn_id: u32,
    pub data: Seq<u8>,
}

impl View for Message {
    type V = MessageView;

    open spec fn view(&self) -> MessageView {
        MessageView { kind: self.kind, conn_id: self.conn_id, data: self.data@ }
    }
}

/// Error of a connection write whose `conn_id` does not name a currently
/// open connection.
#[derive(Debug, Clone, Copy, PartialEq, Eq, Structural)]
pub struct UnknownConnection(pub u32);

/// The decimal digit character for `d` (`d < 10`).
pub open spec fn digit_char(d: nat) -> char {
    (48 + d) as char
}

/// The decimal representation of `n`, without leading zeros.
pub open spec fn decimal(n: nat) -> Seq<char>
    decreases n,
{
    if n < 10 {
        seq![digit_char(n)]
    } else {
        decimal(n / 10).push(digit_char(n % 10))
    }
}

/// The text that describes an unknown connection id.
pub open spec fn unknown_connection_text(conn_id: u32) -> Seq<char> {
    "execsandbox: unknown connection id "@ + decimal(conn_id as nat)
}

fn digit_str(d: u32) -> (s: &'static str)
    requires
        d < 10,
    ensures
        s@ == seq![digit_char(d as nat)],
{
    proof {
        reveal_strlit("0");
        reveal_strlit("1");
        reveal_strlit("2");
        reveal_strlit("3");
        reveal_strlit("4");
        reveal_strlit("5");
        reveal_strlit("6");
        reveal_strlit("7");
        reveal_strlit("8");
        reveal_strlit("9");
    }
    match d {
        0 => "0",
        1 => "1",
        2 => "2",
        3 => "3",
        4 => "4",
        5 => "5",
        6 => "6",
        7 => "7",
        8 => "8",
        _ => "9",
    }
}

fn push_decimal(out: &mut String, n: u32)
    ensures
        final(out)@ == old(out)@ + decimal(n as nat),
    decreases n,
{
    if n >= 10 {
        push_decimal(out, n / 10);
    }
    out.append(digit_str(n % 10));
    assert(decimal(n as nat) == if n < 10 {
        seq![digit_char(n as nat)]
    } else {
        decimal((n / 10) as nat).push(digit_char((n % 10) as nat))
    });
}

impl UnknownConnection {
    /// The text that describes this error:
    /// `execsandbox: unknown connection id <conn_id>`.
    pub fn to_string(&self) -> (s: String)
        ensures
            s@ == unknown_connection_text(self.0),
    {
        let mut s = String::from_str("execsandbox: unknown connection id ");
        push_decimal(&mut s, self.0);
        s
    }
}

} // verus!
