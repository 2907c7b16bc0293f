//! How whole frames are told apart on the byte stream: each one follows a
//! length of three bytes, most significant first. The duplex transport
//! itself never does this; the layer above it does, where it turns the
//! stream into frames.

use vstd::prelude::*;

verus! {

/// The longest frame that three bytes can announce.
pub const MAX_FRAME_LEN: usize = 16_777_215;

/// The three bytes that announce a frame of `len` bytes.
pub open spec fn prefix_of(len: nat) -> Seq<u8> {
    seq![(len / 65536) as u8, ((len / 256) % 256) as u8, (len % 256) as u8]
}

/// The length that three bytes announce.
pub open spec fn length_of(prefix: Seq<u8>) -> nat {
    (prefix[0] * 65536 + prefix[1] * 256 + prefix[2]) as nat
}

/// The bytes to send ahead of a frame of `len` bytes; `None` for a frame
/// too long to be announced.
pub fn length_prefix(len: usize) -> (prefix: Option<[u8; 3]>)
    ensures
        len <= MAX_FRAME_LEN ==> prefix is Some && prefix->Some_0@ == prefix_of(len as nat),
        len > MAX_FRAME_LEN ==> prefix is None,
{
    if len > MAX_FRAME_LEN {
        None
    } else {
        let high: u8 = (len / 65536) as u8;
        let middle: u8 = ((len / 256) % 256) as u8;
        let low: u8 = (len % 256) as u8;
        let prefix = [high, middle, low];
        assert(prefix@ =~= prefix_of(len as nat));
        Some(prefix)
    }
}

/// The length of the frame that follows `prefix`.
pub fn announced_length(prefix: &[u8; 3]) -> (len: usize)
    ensures
        len == length_of(prefix@),
        len <= MAX_FRAME_LEN,
{
    let high: usize = prefix[0] as usize;
    let middle: usize = prefix[1] as usize;
    let low: usize = prefix[2] as usize;
    high * 65536 + middle * 256 + low
}

/// A length that can be announced is read back as it was written.
pub proof fn lemma_length_survives(len: nat)
    requires
        len <= MAX_FRAME_LEN,
    ensures
        prefix_of(len).len() == 3,
        length_of(prefix_of(len)) == len,
{
}

/// Three bytes are written back as they were read: no two prefixes
/// announce the same length.
pub proof fn lemma_prefix_survives(prefix: Seq<u8>)
    requires
        prefix.len() == 3,
    ensures
        length_of(prefix) <= MAX_FRAME_LEN,
        prefix_of(length_of(prefix)) == prefix,
{
    assert(prefix_of(length_of(prefix)) =~= prefix);
}

} // verus!
