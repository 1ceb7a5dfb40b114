//! Fixed-capacity channel metadata and value stores.
//!
//! A universe holds, for each of the 65,536 channel addresses, a metadata
//! record (typecode and fixture id, both `-1` when unpatched) and the current
//! value word (an IEEE-754 single-precision bit pattern).  The reserved value
//! `AUTO_VALUE_BITS` marks a channel that carries no console-supplied value
//! this frame and must be synthesized.

use vstd::prelude::*;
use crate::codec::{KegsPayload, i64_from_le, u32_from_le};
use crate::CHANNEL_COUNT;

verus! {

/// Bit pattern of the single-precision value `-1000001.0`, the sentinel
/// meaning "no explicit value, synthesize this channel".  The sentinel is a
/// normal (finite, non-zero) number, so a stored word compares equal to it as
/// a float exactly when the bit patterns are equal.
pub const AUTO_VALUE_BITS: u32 = 0xC974_2410;

/// Metadata of one channel: the attribute kind it carries and the fixture it
/// belongs to.  `-1` in both fields means "unpatched".
#[derive(Clone, Copy, PartialEq, Eq, Structural)]
pub struct ChannelMetadata {
    pub typecode: i64,
    pub fixture_id: i64,
}

/// The unpatched metadata record.
pub open spec fn unpatched() -> ChannelMetadata {
    ChannelMetadata { typecode: -1i64, fixture_id: -1i64 }
}

/// Whether a metadata batch starting at byte offset `o` of stream `b`, with
/// its first record addressed to channel `ch`, decodes cleanly and stays in
/// the channel range.  A trailing fragment shorter than one 24-byte record
/// header ends the batch.
pub open spec fn meta_batch_ok(b: Seq<u8>, o: int, ch: int) -> bool
    decreases b.len() - o when 0 <= o <= b.len()
{
    if b.len() - o < 24 {
        true
    } else {
        let al = i64_from_le(b.subrange(o + 16, o + 24)) as int;
        if 0 <= ch < CHANNEL_COUNT && 0 <= al && o + 24 + al <= b.len() {
            meta_batch_ok(b, o + 24 + al, ch + 1)
        } else {
            false
        }
    }
}

/// The metadata table after applying the batch at offset `o`, channel `ch`,
/// to table `m`: each record writes one consecutive channel.
pub open spec fn meta_batch_apply(b: Seq<u8>, o: int, ch: int, m: Seq<ChannelMetadata>) -> Seq<
    ChannelMetadata,
>
    decreases b.len() - o when 0 <= o <= b.len()
{
    if b.len() - o < 24 {
        m
    } else {
        let fid = i64_from_le(b.subrange(o, o + 8));
        let tc = i64_from_le(b.subrange(o + 8, o + 16));
        let al = i64_from_le(b.subrange(o + 16, o + 24)) as int;
        if 0 <= al && o + 24 + al <= b.len() {
            meta_batch_apply(
                b,
                o + 24 + al,
                ch + 1,
                m.update(ch, ChannelMetadata { typecode: tc, fixture_id: fid }),
            )
        } else {
            m
        }
    }
}

/// Whether a value batch starting at byte offset `o`, first record addressed
/// to channel `ch`, stays in the channel range.  A trailing fragment shorter
/// than 4 bytes ends the batch.
pub open spec fn vals_batch_ok(b: Seq<u8>, o: int, ch: int) -> bool
    decreases b.len() - o when 0 <= o <= b.len()
{
    if b.len() - o < 4 {
        true
    } else if 0 <= ch < CHANNEL_COUNT {
        vals_batch_ok(b, o + 4, ch + 1)
    } else {
        false
    }
}

/// The value table after applying the batch at offset `o`, channel `ch`, to
/// table `v`: each 4-byte word writes one consecutive channel.
pub open spec fn vals_batch_apply(b: Seq<u8>, o: int, ch: int, v: Seq<u32>) -> Seq<u32>
    decreases b.len() - o when 0 <= o <= b.len()
{
    if b.len() - o < 4 {
        v
    } else {
        vals_batch_apply(b, o + 4, ch + 1, v.update(ch, u32_from_le(b.subrange(o, o + 4))))
    }
}

/// One universe of channels: the metadata table and the input-value table.
pub struct Universe {
    meta: Vec<ChannelMetadata>,
    vals: Vec<u32>,
}

impl Universe {
    /// The metadata table, one record per channel address.
    pub closed spec fn metadata(&self) -> Seq<ChannelMetadata> {
        self.meta@
    }

    /// The value table, one value word per channel address.
    pub closed spec fn values(&self) -> Seq<u32> {
        self.vals@
    }

    /// Both tables span the whole channel range.
    pub open spec fn wf(&self) -> bool {
        &&& self.metadata().len() == CHANNEL_COUNT
        &&& self.values().len() == CHANNEL_COUNT
    }

    /// A fresh universe: every channel unpatched, every value word zero
    /// (the bit pattern of `0.0`).
    pub fn new() -> (r: Self)
        ensures
            r.wf(),
            forall|i: int| 0 <= i < CHANNEL_COUNT ==> r.metadata()[i] == unpatched(),
            forall|i: int| 0 <= i < CHANNEL_COUNT ==> r.values()[i] == 0u32,
    {
        let mut meta: Vec<ChannelMetadata> = Vec::with_capacity(CHANNEL_COUNT);
        let mut vals: Vec<u32> = Vec::with_capacity(CHANNEL_COUNT);
        let mut i: usize = 0;
        while i < CHANNEL_COUNT
            invariant
                i <= CHANNEL_COUNT,
                meta@.len() == i,
                vals@.len() == i,
                forall|k: int| 0 <= k < i ==> meta@[k] == unpatched(),
                forall|k: int| 0 <= k < i ==> vals@[k] == 0u32,
            decreases CHANNEL_COUNT - i,
        {
            meta.push(ChannelMetadata { typecode: -1, fixture_id: -1 });
            vals.push(0u32);
            i = i + 1;
        }
        Universe { meta, vals }
    }

    /// The metadata record of channel `ch`.
    pub fn metadata_at(&self, ch: usize) -> (r: ChannelMetadata)
        requires
            self.wf(),
            ch < CHANNEL_COUNT,
        ensures
            r == self.metadata()[ch as int],
    {
        self.meta[ch]
    }

    /// The stored value word of channel `ch`.
    pub fn value_at(&self, ch: usize) -> (r: u32)
        requires
            self.wf(),
            ch < CHANNEL_COUNT,
        ensures
            r == self.values()[ch as int],
    {
        self.vals[ch]
    }

    /// Writes consecutive metadata records from a batch payload: an 8-byte
    /// start channel, then per record a fixture id, a typecode and a
    /// length-prefixed auxiliary blob (accepted, not interpreted).  Stops
    /// when fewer than 24 bytes remain.
    pub fn set_channel_metadata(&mut self, input: Vec<u8>)
        requires
            old(self).wf(),
            input@.len() >= 8,
            meta_batch_ok(input@, 8, i64_from_le(input@.subrange(0, 8)) as int),
        ensures
            final(self).wf(),
            final(self).values() == old(self).values(),
            final(self).metadata() == meta_batch_apply(
                input@,
                8,
                i64_from_le(input@.subrange(0, 8)) as int,
                old(self).metadata(),
            ),
    {
        let ghost b = input@;
        let ghost m0 = old(self).metadata();
        let mut p = KegsPayload::from_bytes(input);
        let start = p.read_i64();
        let mut ch: i64 = start;
        while p.available() >= 24
            invariant
                self.wf(),
                self.values() == old(self).values(),
                p.wf(),
                p.bytes() == b,
                meta_batch_ok(b, p.cursor(), ch as int),
                meta_batch_apply(b, 8, start as int, m0) == meta_batch_apply(
                    b,
                    p.cursor(),
                    ch as int,
                    self.metadata(),
                ),
            decreases b.len() - p.cursor(),
        {
            let ghost c = p.cursor();
            let ghost mcur = self.metadata();
            let fid = p.read_i64();
            let tc = p.read_i64();
            let _aux = p.read_bytes();
            let rec = ChannelMetadata { typecode: tc, fixture_id: fid };
            self.meta[ch as usize] = rec;
            ch = ch + 1;
            proof {
                assert(self.metadata() == mcur.update((ch - 1) as int, rec));
                assert(meta_batch_apply(b, c, (ch - 1) as int, mcur) == meta_batch_apply(
                    b,
                    p.cursor(),
                    ch as int,
                    self.metadata(),
                ));
            }
        }
    }

    /// Writes consecutive value words from a batch payload: an 8-byte start
    /// channel, then one 4-byte word per record.  Stops when fewer than 4
    /// bytes remain.
    pub fn set_input_values(&mut self, input: Vec<u8>)
        requires
            old(self).wf(),
            input@.len() >= 8,
            vals_batch_ok(input@, 8, i64_from_le(input@.subrange(0, 8)) as int),
        ensures
            final(self).wf(),
            final(self).metadata() == old(self).metadata(),
            final(self).values() == vals_batch_apply(
                input@,
                8,
                i64_from_le(input@.subrange(0, 8)) as int,
                old(self).values(),
            ),
    {
        let ghost b = input@;
        let ghost v0 = old(self).values();
        let mut p = KegsPayload::from_bytes(input);
        let start = p.read_i64();
        let mut ch: i64 = start;
        while p.available() >= 4
            invariant
                self.wf(),
                self.metadata() == old(self).metadata(),
                p.wf(),
                p.bytes() == b,
                vals_batch_ok(b, p.cursor(), ch as int),
                vals_batch_apply(b, 8, start as int, v0) == vals_batch_apply(
                    b,
                    p.cursor(),
                    ch as int,
                    self.values(),
                ),
            decreases b.len() - p.cursor(),
        {
            let ghost c = p.cursor();
            let ghost vcur = self.values();
            let w = p.read_f32();
            self.vals[ch as usize] = w;
            ch = ch + 1;
            proof {
                assert(self.values() == vcur.update((ch - 1) as int, w));
                assert(vals_batch_apply(b, c, (ch - 1) as int, vcur) == vals_batch_apply(
                    b,
                    p.cursor(),
                    ch as int,
                    self.values(),
                ));
            }
        }
    }

    /// Writes one channel's value word from a single-record payload: an
    /// 8-byte channel address followed by one 4-byte word.
    pub fn set_channel_input(&mut self, input: Vec<u8>)
        requires
            old(self).wf(),
            input@.len() >= 12,
            0 <= i64_from_le(input@.subrange(0, 8)) < CHANNEL_COUNT,
        ensures
            final(self).wf(),
            final(self).metadata() == old(self).metadata(),
            final(self).values() == old(self).values().update(
                i64_from_le(input@.subrange(0, 8)) as int,
                u32_from_le(input@.subrange(8, 12)),
            ),
    {
        let mut p = KegsPayload::from_bytes(input);
        let ch = p.read_i64();
        let w = p.read_f32();
        self.vals[ch as usize] = w;
    }
}

} // verus!
