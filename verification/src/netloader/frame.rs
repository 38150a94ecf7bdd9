//! Length-prefixed blocks, the unit in which the protocol moves data.
//!
//! A frame is a block of bytes preceded by its length as a 32-bit little-endian
//! unsigned integer.

use vstd::prelude::*;

verus! {

/// The little-endian form of a 32-bit unsigned integer: four bytes, the least
/// significant first.
pub open spec fn u32_le(value: u32) -> Seq<u8> {
    seq![
        (value % 256) as u8,
        (value / 256 % 256) as u8,
        (value / 65536 % 256) as u8,
        (value / 16777216 % 256) as u8,
    ]
}

/// The integer whose little-endian form starts `bytes`.
pub open spec fn u32_from_le(bytes: Seq<u8>) -> int
    recommends
        bytes.len() >= 4,
{
    bytes[0] + 256 * bytes[1] + 65536 * bytes[2] + 16777216 * bytes[3]
}

/// A length as the 32-bit field of a frame carries it: lengths beyond the
/// field's range keep their low 32 bits only.
pub open spec fn wire_len(len: nat) -> u32 {
    (len % 0x1_0000_0000) as u32
}

/// The frame that carries `data`.
pub open spec fn frame(data: Seq<u8>) -> Seq<u8> {
    u32_le(wire_len(data.len())) + data
}

/// Decoding the little-endian form of an integer gives the integer back.
pub proof fn lemma_u32_le_round_trip(value: u32)
    ensures
        u32_le(value).len() == 4,
        u32_from_le(u32_le(value)) == value,
{
}

/// A frame is four bytes longer than its payload, holds the payload behind the
/// prefix, and, where the payload's length fits the prefix, declares exactly
/// that length.
pub proof fn lemma_frame_layout(data: Seq<u8>)
    ensures
        frame(data).len() == data.len() + 4,
        frame(data).skip(4) == data,
        data.len() <= u32::MAX ==> u32_from_le(frame(data)) == data.len(),
{
    lemma_u32_le_round_trip(wire_len(data.len()));
    assert(frame(data).skip(4) =~= data);
    assert(frame(data).take(4) =~= u32_le(wire_len(data.len())));
}

/// A run of blocks as it goes over the wire: each block in a frame of its
/// own, in order.
pub open spec fn frames(blocks: Seq<Seq<u8>>) -> Seq<u8>
    decreases blocks.len(),
{
    if blocks.len() == 0 {
        Seq::empty()
    } else {
        frame(blocks.first()) + frames(blocks.drop_first())
    }
}

/// What a receiver reads out of a run of frames: for each frame the declared
/// number of bytes behind the prefix, all of them joined. Reading ends at the
/// first place where no complete frame stands.
pub open spec fn payloads(wire: Seq<u8>) -> Seq<u8>
    decreases wire.len(),
{
    if wire.len() < 4 || wire.len() < 4 + u32_from_le(wire) {
        Seq::empty()
    } else {
        let len = u32_from_le(wire);
        wire.subrange(4, 4 + len) + payloads(wire.skip(4 + len))
    }
}

/// A receiver that reads a frame gets the block that was framed, and goes on
/// with what stands behind the frame.
pub proof fn lemma_payloads_of_frame(data: Seq<u8>, rest: Seq<u8>)
    requires
        data.len() <= u32::MAX,
    ensures
        payloads(frame(data) + rest) == data + payloads(rest),
{
    let wire = frame(data) + rest;
    lemma_frame_layout(data);
    assert(wire[0] == frame(data)[0] && wire[1] == frame(data)[1] && wire[2] == frame(data)[2]
        && wire[3] == frame(data)[3]);
    assert(u32_from_le(wire) == data.len());
    let len = data.len() as int;
    assert(wire.subrange(4, 4 + len) =~= data);
    assert(wire.skip(4 + len) =~= rest);
}

/// Framing loses nothing: a receiver that reads a run of frames gets the
/// blocks that were framed, joined in their order.
pub proof fn lemma_payloads_of_frames(blocks: Seq<Seq<u8>>)
    requires
        forall|i: int| 0 <= i < blocks.len() ==> #[trigger] blocks[i].len() <= u32::MAX,
    ensures
        payloads(frames(blocks)) == blocks.flatten(),
    decreases blocks.len(),
{
    if blocks.len() > 0 {
        let rest = blocks.drop_first();
        assert forall|i: int| 0 <= i < rest.len() implies #[trigger] rest[i].len() <= u32::MAX by {
            assert(rest[i] == blocks[i + 1]);
        }
        lemma_payloads_of_frames(rest);
        lemma_payloads_of_frame(blocks.first(), frames(rest));
    }
}

/// Encodes `value` as four little-endian bytes.
pub fn encode_u32_le(value: u32) -> (bytes: [u8; 4])
    ensures
        bytes@ == u32_le(value),
{
    let bytes: [u8; 4] = [
        (value % 256) as u8,
        (value / 256 % 256) as u8,
        (value / 65536 % 256) as u8,
        (value / 16777216 % 256) as u8,
    ];
    assert(bytes@ =~= u32_le(value));
    bytes
}

/// The length of a block as a frame declares it.
pub fn length_field(len: usize) -> (field: u32)
    ensures
        field == wire_len(len as nat),
{
    (len as u64 % 0x1_0000_0000u64) as u32
}

/// Appends the frame that carries `data` to `out`.
pub fn write_length_prefixed(out: &mut Vec<u8>, data: &[u8])
    ensures
        final(out)@ == old(out)@ + frame(data@),
{
    let prefix = encode_u32_le(length_field(data.len()));
    out.extend_from_slice(prefix.as_slice());
    out.extend_from_slice(data);
}

} // verus!
