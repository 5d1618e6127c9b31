//! Cutting a reply into packets that fit a notification.

use vstd::prelude::*;

verus! {

/// The largest attribute packet of the link.
pub const MTU: usize = 23;

/// The bytes of a reply that fit into one notification.
pub const INFO_PACKET_LENGTH: usize = MTU - 3;

/// How many bytes of a reply of `len` bytes the next packet takes.
pub open spec fn packet_len(len: nat) -> nat {
    if len < INFO_PACKET_LENGTH {
        len
    } else {
        INFO_PACKET_LENGTH as nat
    }
}

/// Takes the next packet off the front of `reply`: the whole of it where
/// it is shorter than `INFO_PACKET_LENGTH`, that many bytes otherwise.
pub fn next_notification(reply: &mut Vec<u8>) -> (packet: Vec<u8>)
    ensures
        packet@ == old(reply)@.take(packet_len(old(reply)@.len()) as int),
        final(reply)@ == old(reply)@.skip(packet_len(old(reply)@.len()) as int),
        packet@ + final(reply)@ == old(reply)@,
{
    let n: usize = reply.len();
    let cut: usize = if n < INFO_PACKET_LENGTH {
        n
    } else {
        INFO_PACKET_LENGTH
    };
    let tail = reply.split_off(cut);
    let mut packet: Vec<u8> = Vec::new();
    std::mem::swap(&mut packet, reply);
    *reply = tail;
    assert(packet@ =~= old(reply)@.take(cut as int));
    assert(reply@ =~= old(reply)@.skip(cut as int));
    assert(packet@ + reply@ =~= old(reply)@);
    packet
}

} // verus!
