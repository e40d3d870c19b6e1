//! LIN frames: protected identifiers and checksums, computed by the
//! `lin_bus` crate.
use vstd::prelude::*;

verus! {

/// The largest LIN frame identifier (identifiers have six bits).
pub const MAX_FRAME_ID: u8 = 0x3F;

/// Bit `k` of `x`.
pub open spec fn bit(x: u8, k: u8) -> u8 {
    (x >> k) & 1u8
}

/// The protected identifier of a six-bit frame id: the id with two parity
/// bits on top, P0 = ID0 ^ ID1 ^ ID2 ^ ID4 in bit 6 and
/// P1 = !(ID1 ^ ID3 ^ ID4 ^ ID5) in bit 7.
pub open spec fn spec_protected_id(id: u8) -> u8 {
    let p0: u8 = bit(id, 0) ^ bit(id, 1) ^ bit(id, 2) ^ bit(id, 4);
    let p1: u8 = 1u8 ^ (bit(id, 1) ^ bit(id, 3) ^ bit(id, 4) ^ bit(id, 5));
    id | (p0 << 6u8) | (p1 << 7u8)
}

/// The frame id inside a protected identifier: its low six bits.
pub open spec fn id_of(pid: u8) -> u8 {
    pid & 0x3Fu8
}

/// A byte is a protected identifier when its parity bits match its id.
pub open spec fn is_protected_id(pid: u8) -> bool {
    spec_protected_id(id_of(pid)) == pid
}

/// The eight bit sum with carry of `data`, starting from `start`: sum the
/// values and subtract 255 every time the sum reaches 256.
pub open spec fn carry_sum(start: int, data: Seq<u8>) -> int
    decreases data.len(),
{
    if data.len() == 0 {
        start
    } else {
        let s = carry_sum(start, data.drop_last()) + data.last();
        if s >= 256 {
            s - 255
        } else {
            s
        }
    }
}

/// The checksum of a LIN frame: the inverted eight bit sum with carry over
/// the data, which also covers the protected identifier (the enhanced
/// checksum) unless the id is one of 60..=63 (the classic checksum).
pub open spec fn lin_checksum(pid: u8, data: Seq<u8>) -> u8 {
    let start: int = if id_of(pid) >= 60 {
        0
    } else {
        pid as int
    };
    (255 - carry_sum(start, data)) as u8
}

/// The bytes of a LIN frame as they go on the bus: the data, then the checksum.
pub open spec fn frame_with_checksum(pid: u8, data: Seq<u8>) -> Seq<u8> {
    data.push(lin_checksum(pid, data))
}

/// The id of a protected identifier is the id it was made from, and the
/// protected identifier made from an id is valid.
pub proof fn lemma_protected_id(id: u8)
    requires
        id <= MAX_FRAME_ID,
    ensures
        id_of(spec_protected_id(id)) == id,
        is_protected_id(spec_protected_id(id)),
{
    assert(id_of(spec_protected_id(id)) == id) by (bit_vector)
        requires
            id <= 0x3Fu8,
    ;
}

/// The protected identifier of a frame id, as `lin_bus` computes it.
///
/// Calls `lin_bus::PID::from_id` and reads the byte back with `PID::get`.
/// The contract claims what the crate documents and its source computes:
/// the id with parity bits P0 = ID0^ID1^ID2^ID4 in bit 6 and
/// P1 = !(ID1^ID3^ID4^ID5) in bit 7; `from_id` panics on ids of 64 or more,
/// which `requires` leaves out.
#[verifier::external_body]
pub(crate) fn protected_id(id: u8) -> (pid: u8)
    requires
        id <= MAX_FRAME_ID,
    ensures
        pid == spec_protected_id(id),
{
    lin_bus::PID::from_id(id).get()
}

/// The bytes of a LIN frame with its checksum, as `lin_bus` builds them.
///
/// Calls `lin_bus::Frame::from_data` on `lin_bus::PID::new(pid)` and copies
/// out `Frame::get_data_with_checksum`. The contract claims what the crate's
/// source computes: the data followed by the inverted eight bit sum with
/// carry, over the data and the protected identifier, or over the data
/// alone for ids 60..=63. `PID::new` panics on a byte whose parity bits are
/// wrong and `from_data` on more than 8 data bytes; `requires` leaves both out.
#[verifier::external_body]
pub(crate) fn frame_bytes(pid: u8, data: &[u8]) -> (bytes: Vec<u8>)
    requires
        is_protected_id(pid),
        data@.len() <= 8,
    ensures
        bytes@ == frame_with_checksum(pid, data@),
{
    lin_bus::Frame::from_data(lin_bus::PID::new(pid), data).get_data_with_checksum().to_vec()
}

} // verus!
