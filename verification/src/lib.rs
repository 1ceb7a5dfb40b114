//! Lighting-control channel synthesis: a byte payload codec, fixed-capacity
//! channel metadata and value stores, a gradient interpolation engine, and a
//! formula-driven expression synthesis engine.
//!
//! Channel values are IEEE-754 single-precision numbers; this crate carries
//! them everywhere as their 32-bit patterns, so that the selection logic is
//! fully verified while the arithmetic itself is delegated to a soft-float
//! library behind narrow trusted wrappers.

use vstd::prelude::*;

pub mod channels;
pub mod codec;
pub mod expression;
pub mod floatbits;
pub mod gradient;
pub mod logging;

verus! {

/// Number of addressable channels in one universe.
pub const CHANNEL_COUNT: usize = 65536;

/// A minimal computation unit used to exercise the calling convention: reads
/// two integers from the request payload and answers with their sum.
pub fn add_test(input: Vec<u8>) -> (r: Vec<u8>)
    requires
        input@.len() >= 16,
        i64::MIN <= crate::codec::i64_from_le(input@.subrange(0, 8)) + crate::codec::i64_from_le(
            input@.subrange(8, 16),
        ) <= i64::MAX,
    ensures
        r@ == crate::codec::i64_le(
            (crate::codec::i64_from_le(input@.subrange(0, 8)) + crate::codec::i64_from_le(
                input@.subrange(8, 16),
            )) as i64,
        ),
{
    let mut p = crate::codec::KegsPayload::from_bytes(input);
    let a = p.read_i64();
    let b = p.read_i64();
    let mut out = crate::codec::KegsPayload::new();
    out.write_i64(a + b);
    out.into_bytes()
}

} // verus!

