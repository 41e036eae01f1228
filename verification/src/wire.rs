//! The metadata block that the host's `recv` fills in: eight bytes, the
//! message kind as a little-endian `u32` followed by the connection id as a
//! little-endian `u32`.
use vstd::prelude::*;

verus! {

/// The little-endian `u32` stored in `b` at byte offset `at`.
pub open spec fn le_u32_at(b: Seq<u8>, at: int) -> int {
    b[at] + 0x100 * b[at + 1] + 0x1_0000 * b[at + 2] + 0x100_0000 * b[at + 3]
}

/// The kind code of a metadata block (bytes 0..4).
pub open spec fn meta_kind(meta: Seq<u8>) -> int {
    le_u32_at(meta, 0)
}

/// The connection id of a metadata block (bytes 4..8).
pub open spec fn meta_conn_id(meta: Seq<u8>) -> int {
    le_u32_at(meta, 4)
}

/// The little-endian bytes of `x`.
pub open spec fn le_bytes(x: u32) -> Seq<u8> {
    seq![
        (x % 0x100) as u8,
        ((x / 0x100) % 0x100) as u8,
        ((x / 0x1_0000) % 0x100) as u8,
        ((x / 0x100_0000) % 0x100) as u8,
    ]
}

/// Reads the little-endian `u32` at byte offset `at` of the metadata block.
pub fn read_le_u32(meta: &[u8; 8], at: usize) -> (v: u32)
    requires
        at == 0 || at == 4,
    ensures
        v == le_u32_at(meta@, at as int),
{
    let b0 = meta[at] as u32;
    let b1 = meta[at + 1] as u32;
    let b2 = meta[at + 2] as u32;
    let b3 = meta[at + 3] as u32;
    b0 + b1 * 0x100 + b2 * 0x1_0000 + b3 * 0x100_0000
}

/// Reading back the little-endian bytes of a value gives the value: a
/// metadata block written by a host from two `u32`s decodes to them.
pub proof fn lemma_le_bytes_round_trip(kind: u32, conn_id: u32)
    ensures
        meta_kind(le_bytes(kind) + le_bytes(conn_id)) == kind,
        meta_conn_id(le_bytes(kind) + le_bytes(conn_id)) == conn_id,
{
    let m = le_bytes(kind) + le_bytes(conn_id);
    assert(m[0] == (kind % 0x100) as u8);
    assert(m[1] == ((kind / 0x100) % 0x100) as u8);
    assert(m[2] == ((kind / 0x1_0000) % 0x100) as u8);
    assert(m[3] == ((kind / 0x100_0000) % 0x100) as u8);
    assert(m[4] == (conn_id % 0x100) as u8);
    assert(m[5] == ((conn_id / 0x100) % 0x100) as u8);
    assert(m[6] == ((conn_id / 0x1_0000) % 0x100) as u8);
    assert(m[7] == ((conn_id / 0x100_0000) % 0x100) as u8);
    lemma_le_u32_digits(kind);
    lemma_le_u32_digits(conn_id);
}

proof fn lemma_le_u32_digits(x: u32)
    ensures
        (x % 0x100) + 0x100 * ((x / 0x100) % 0x100) + 0x1_0000 * ((x / 0x1_0000) % 0x100)
            + 0x100_0000 * ((x / 0x100_0000) % 0x100) == x,
{
    assert((x % 0x100) + 0x100 * ((x / 0x100) % 0x100) + 0x1_0000 * ((x / 0x1_0000) % 0x100)
        + 0x100_0000 * ((x / 0x100_0000) % 0x100) == x) by (nonlinear_arith);
}

} // verus!
