//! Length-delimited binary payload codec.
//!
//! A payload is a growable byte buffer with a read cursor.  The write side
//! appends little-endian 8-byte signed integers, little-endian 4-byte value
//! words (IEEE-754 single-precision bit patterns) and length-prefixed byte
//! blobs; the read side consumes them in the same order.  There are no type
//! tags: producer and consumer agree on the schema per operation.

use vstd::prelude::*;

verus! {

/// Little-endian bytes of a 64-bit word, least significant first.
pub open spec fn u64_le(x: u64) -> Seq<u8> {
    seq![
        x as u8,
        (x >> 8) as u8,
        (x >> 16) as u8,
        (x >> 24) as u8,
        (x >> 32) as u8,
        (x >> 40) as u8,
        (x >> 48) as u8,
        (x >> 56) as u8,
    ]
}

/// The 64-bit word read from eight little-endian bytes.
pub open spec fn u64_from_le(s: Seq<u8>) -> u64
    recommends
        s.len() == 8,
{
    (s[0] as u64) | ((s[1] as u64) << 8) | ((s[2] as u64) << 16) | ((s[3] as u64) << 24) | ((
    s[4] as u64) << 32) | ((s[5] as u64) << 40) | ((s[6] as u64) << 48) | ((s[7] as u64) << 56)
}

/// Little-endian bytes of a signed 64-bit integer (two's complement).
pub open spec fn i64_le(v: i64) -> Seq<u8> {
    u64_le(v as u64)
}

/// The signed 64-bit integer read from eight little-endian bytes.
pub open spec fn i64_from_le(s: Seq<u8>) -> i64
    recommends
        s.len() == 8,
{
    u64_from_le(s) as i64
}

/// Little-endian bytes of a 32-bit word, least significant first.
pub open spec fn u32_le(x: u32) -> Seq<u8> {
    seq![x as u8, (x >> 8) as u8, (x >> 16) as u8, (x >> 24) as u8]
}

/// The 32-bit word read from four little-endian bytes.
pub open spec fn u32_from_le(s: Seq<u8>) -> u32
    recommends
        s.len() == 4,
{
    (s[0] as u32) | ((s[1] as u32) << 8) | ((s[2] as u32) << 16) | ((s[3] as u32) << 24)
}

/// Encoding a 64-bit word and reading it back is the identity.
pub proof fn lemma_u64_le_round_trip(x: u64)
    ensures
        u64_from_le(u64_le(x)) == x,
{
    let b0 = x as u8;
    let b1 = (x >> 8) as u8;
    let b2 = (x >> 16) as u8;
    let b3 = (x >> 24) as u8;
    let b4 = (x >> 32) as u8;
    let b5 = (x >> 40) as u8;
    let b6 = (x >> 48) as u8;
    let b7 = (x >> 56) as u8;
    assert((b0 as u64) | ((b1 as u64) << 8) | ((b2 as u64) << 16) | ((b3 as u64) << 24) | ((
    b4 as u64) << 32) | ((b5 as u64) << 40) | ((b6 as u64) << 48) | ((b7 as u64) << 56) == x)
        by (bit_vector)
        requires
            b0 == x as u8,
            b1 == (x >> 8) as u8,
            b2 == (x >> 16) as u8,
            b3 == (x >> 24) as u8,
            b4 == (x >> 32) as u8,
            b5 == (x >> 40) as u8,
            b6 == (x >> 48) as u8,
            b7 == (x >> 56) as u8,
    ;
}

/// Encoding a signed 64-bit integer and reading it back is the identity.
pub proof fn lemma_i64_le_round_trip(v: i64)
    ensures
        i64_from_le(i64_le(v)) == v,
{
    lemma_u64_le_round_trip(v as u64);
    assert(((v as u64) as i64) == v) by (bit_vector);
}

/// Encoding a 32-bit word and reading it back is the identity.
pub proof fn lemma_u32_le_round_trip(x: u32)
    ensures
        u32_from_le(u32_le(x)) == x,
{
    let b0 = x as u8;
    let b1 = (x >> 8) as u8;
    let b2 = (x >> 16) as u8;
    let b3 = (x >> 24) as u8;
    assert((b0 as u32) | ((b1 as u32) << 8) | ((b2 as u32) << 16) | ((b3 as u32) << 24) == x)
        by (bit_vector)
        requires
            b0 == x as u8,
            b1 == (x >> 8) as u8,
            b2 == (x >> 16) as u8,
            b3 == (x >> 24) as u8,
    ;
}

/// Whether a byte sequence is well-formed UTF-8.  Named result of
/// `alloc::string::String::from_utf8`.
pub uninterp spec fn utf8_ok(b: Seq<u8>) -> bool;

/// The characters a well-formed UTF-8 byte sequence decodes to.  Named result
/// of `alloc::string::String::from_utf8`.
pub uninterp spec fn utf8_chars(b: Seq<u8>) -> Seq<char>;

/// Relies on `alloc::string::String::from_utf8`: it succeeds exactly on
/// well-formed UTF-8 input and decodes it; the result depends on the bytes
/// alone.
#[verifier::external_body]
fn string_from_utf8(b: Vec<u8>) -> (r: Option<String>)
    ensures
        r is Some <==> utf8_ok(b@),
        r matches Some(s) ==> s@ == utf8_chars(b@),
{
    match String::from_utf8(b) {
        Ok(s) => Some(s),
        Err(_) => None,
    }
}

/// A byte payload with a read cursor.
pub struct KegsPayload {
    buf: Vec<u8>,
    pos: usize,
}

impl KegsPayload {
    /// The bytes held by the payload.
    pub closed spec fn bytes(&self) -> Seq<u8> {
        self.buf@
    }

    /// The read cursor: how many bytes have been consumed.
    pub closed spec fn cursor(&self) -> int {
        self.pos as int
    }

    /// The cursor never passes the end of the buffer.
    pub open spec fn wf(&self) -> bool {
        0 <= self.cursor() <= self.bytes().len()
    }

    /// An empty payload, ready for writing.
    pub fn new() -> (r: Self)
        ensures
            r.wf(),
            r.bytes() == Seq::<u8>::empty(),
            r.cursor() == 0,
    {
        KegsPayload { buf: Vec::new(), pos: 0 }
    }

    /// An empty payload with `size` bytes of capacity reserved.
    pub fn preallocated(size: usize) -> (r: Self)
        ensures
            r.wf(),
            r.bytes() == Seq::<u8>::empty(),
            r.cursor() == 0,
    {
        KegsPayload { buf: Vec::with_capacity(size), pos: 0 }
    }

    /// A payload over the given bytes, cursor at the start.
    pub fn from_bytes(b: Vec<u8>) -> (r: Self)
        ensures
            r.wf(),
            r.bytes() == b@,
            r.cursor() == 0,
    {
        KegsPayload { buf: b, pos: 0 }
    }

    /// The accumulated bytes, consuming the payload.
    pub fn into_bytes(self) -> (r: Vec<u8>)
        ensures
            r@ == self.bytes(),
    {
        self.buf
    }

    /// Number of bytes not yet consumed by reads.
    pub fn available(&self) -> (r: usize)
        requires
            self.wf(),
        ensures
            r == self.bytes().len() - self.cursor(),
    {
        self.buf.len() - self.pos
    }

    /// Appends the eight little-endian bytes of `v`.
    pub fn write_i64(&mut self, v: i64)
        requires
            old(self).wf(),
        ensures
            final(self).wf(),
            final(self).bytes() == old(self).bytes() + i64_le(v),
            final(self).cursor() == old(self).cursor(),
    {
        let u: u64 = #[verifier::truncate] (v as u64);
        self.buf.push(#[verifier::truncate] (u as u8));
        self.buf.push(#[verifier::truncate] ((u >> 8) as u8));
        self.buf.push(#[verifier::truncate] ((u >> 16) as u8));
        self.buf.push(#[verifier::truncate] ((u >> 24) as u8));
        self.buf.push(#[verifier::truncate] ((u >> 32) as u8));
        self.buf.push(#[verifier::truncate] ((u >> 40) as u8));
        self.buf.push(#[verifier::truncate] ((u >> 48) as u8));
        self.buf.push(#[verifier::truncate] ((u >> 56) as u8));
        proof {
            assert(self.buf@ =~= old(self).buf@ + i64_le(v));
        }
    }

    /// Appends the four little-endian bytes of the value word `bits`.
    pub fn write_f32(&mut self, bits: u32)
        requires
            old(self).wf(),
        ensures
            final(self).wf(),
            final(self).bytes() == old(self).bytes() + u32_le(bits),
            final(self).cursor() == old(self).cursor(),
    {
        self.buf.push(#[verifier::truncate] (bits as u8));
        self.buf.push(#[verifier::truncate] ((bits >> 8) as u8));
        self.buf.push(#[verifier::truncate] ((bits >> 16) as u8));
        self.buf.push(#[verifier::truncate] ((bits >> 24) as u8));
        proof {
            assert(self.buf@ =~= old(self).buf@ + u32_le(bits));
        }
    }

    /// Appends an 8-byte length prefix followed by the bytes of `b`.
    pub fn write_bytes(&mut self, b: &[u8])
        requires
            old(self).wf(),
            b@.len() <= i64::MAX,
        ensures
            final(self).wf(),
            final(self).bytes() == old(self).bytes() + i64_le(b@.len() as i64) + b@,
            final(self).cursor() == old(self).cursor(),
    {
        self.write_i64(b.len() as i64);
        let ghost mid = self.buf@;
        let mut i: usize = 0;
        while i < b.len()
            invariant
                i <= b@.len(),
                self.buf@ == mid + b@.subrange(0, i as int),
                self.pos == old(self).pos,
                self.pos <= mid.len(),
            decreases b@.len() - i,
        {
            self.buf.push(b[i]);
            i = i + 1;
            proof {
                assert(self.buf@ =~= mid + b@.subrange(0, i as int));
            }
        }
        proof {
            assert(b@.subrange(0, b@.len() as int) =~= b@);
        }
    }

    /// Reads the next eight bytes as a little-endian signed integer.
    pub fn read_i64(&mut self) -> (r: i64)
        requires
            old(self).wf(),
            old(self).cursor() + 8 <= old(self).bytes().len(),
        ensures
            final(self).wf(),
            final(self).bytes() == old(self).bytes(),
            final(self).cursor() == old(self).cursor() + 8,
            r == i64_from_le(old(self).bytes().subrange(old(self).cursor(), old(self).cursor() + 8)),
    {
        proof {
            assert(self.buf@.len() == self.buf.len());
        }
        let b0 = self.buf[self.pos];
        let b1 = self.buf[self.pos + 1];
        let b2 = self.buf[self.pos + 2];
        let b3 = self.buf[self.pos + 3];
        let b4 = self.buf[self.pos + 4];
        let b5 = self.buf[self.pos + 5];
        let b6 = self.buf[self.pos + 6];
        let b7 = self.buf[self.pos + 7];
        self.pos = self.pos + 8;
        let u: u64 = (b0 as u64) | ((b1 as u64) << 8) | ((b2 as u64) << 16) | ((b3 as u64) << 24)
            | ((b4 as u64) << 32) | ((b5 as u64) << 40) | ((b6 as u64) << 48) | ((b7 as u64) << 56);
        proof {
            let s = old(self).bytes().subrange(old(self).cursor(), old(self).cursor() + 8);
            assert(s[0] == b0 && s[1] == b1 && s[2] == b2 && s[3] == b3 && s[4] == b4 && s[5] == b5
                && s[6] == b6 && s[7] == b7);
        }
        #[verifier::truncate] (u as i64)
    }

    /// Reads the next four bytes as a little-endian value word.
    pub fn read_f32(&mut self) -> (r: u32)
        requires
            old(self).wf(),
            old(self).cursor() + 4 <= old(self).bytes().len(),
        ensures
            final(self).wf(),
            final(self).bytes() == old(self).bytes(),
            final(self).cursor() == old(self).cursor() + 4,
            r == u32_from_le(old(self).bytes().subrange(old(self).cursor(), old(self).cursor() + 4)),
    {
        proof {
            assert(self.buf@.len() == self.buf.len());
        }
        let b0 = self.buf[self.pos];
        let b1 = self.buf[self.pos + 1];
        let b2 = self.buf[self.pos + 2];
        let b3 = self.buf[self.pos + 3];
        self.pos = self.pos + 4;
        let u: u32 = (b0 as u32) | ((b1 as u32) << 8) | ((b2 as u32) << 16) | ((b3 as u32) << 24);
        proof {
            let s = old(self).bytes().subrange(old(self).cursor(), old(self).cursor() + 4);
            assert(s[0] == b0 && s[1] == b1 && s[2] == b2 && s[3] == b3);
        }
        u
    }

    /// The declared length of the blob record at cursor `c` of stream `s`.
    pub open spec fn blob_len_at(s: Seq<u8>, c: int) -> int {
        i64_from_le(s.subrange(c, c + 8)) as int
    }

    /// Whether a well-formed length-prefixed blob record starts at cursor `c`.
    pub open spec fn blob_at(s: Seq<u8>, c: int) -> bool {
        &&& c + 8 <= s.len()
        &&& 0 <= Self::blob_len_at(s, c)
        &&& c + 8 + Self::blob_len_at(s, c) <= s.len()
    }

    /// Reads an 8-byte length prefix, then that many raw bytes.
    pub fn read_bytes(&mut self) -> (r: Vec<u8>)
        requires
            old(self).wf(),
            Self::blob_at(old(self).bytes(), old(self).cursor()),
        ensures
            final(self).wf(),
            final(self).bytes() == old(self).bytes(),
            final(self).cursor() == old(self).cursor() + 8 + Self::blob_len_at(
                old(self).bytes(),
                old(self).cursor(),
            ),
            r@ == old(self).bytes().subrange(
                old(self).cursor() + 8,
                final(self).cursor(),
            ),
    {
        proof {
            assert(self.buf@.len() == self.buf.len());
        }
        let l = self.read_i64();
        let n: usize = l as usize;
        let mut out: Vec<u8> = Vec::with_capacity(n);
        let mut i: usize = 0;
        while i < n
            invariant
                i <= n,
                self.pos + n <= self.buf@.len(),
                self.buf@.len() <= usize::MAX,
                out@ == self.buf@.subrange(self.pos as int, self.pos + i),
            decreases n - i,
        {
            out.push(self.buf[self.pos + i]);
            i = i + 1;
            proof {
                assert(out@ =~= self.buf@.subrange(self.pos as int, self.pos + i));
            }
        }
        self.pos = self.pos + n;
        out
    }

    /// Reads a length-prefixed blob and decodes it as UTF-8.  Returns `None`,
    /// leaving the cursor past the blob, when the bytes are not well-formed
    /// UTF-8.
    pub fn read_string(&mut self) -> (r: Option<String>)
        requires
            old(self).wf(),
            Self::blob_at(old(self).bytes(), old(self).cursor()),
        ensures
            final(self).wf(),
            final(self).bytes() == old(self).bytes(),
            final(self).cursor() == old(self).cursor() + 8 + Self::blob_len_at(
                old(self).bytes(),
                old(self).cursor(),
            ),
            ({
                let blob = old(self).bytes().subrange(
                    old(self).cursor() + 8,
                    final(self).cursor(),
                );
                &&& r is Some <==> utf8_ok(blob)
                &&& r matches Some(s) ==> s@ == utf8_chars(blob)
            }),
    {
        let b = self.read_bytes();
        string_from_utf8(b)
    }
}

/// The little-endian byte stream of a sequence of 32-bit value words.
pub open spec fn words_le(ws: Seq<u32>) -> Seq<u8>
    decreases ws.len(),
{
    if ws.len() == 0 {
        Seq::<u8>::empty()
    } else {
        u32_le(ws[0]) + words_le(ws.drop_first())
    }
}

/// A word stream holds exactly four bytes per word: a synthesis response
/// touches every requested slot exactly once.
pub proof fn lemma_words_le_len(ws: Seq<u32>)
    ensures
        words_le(ws).len() == 4 * ws.len(),
    decreases ws.len(),
{
    if ws.len() > 0 {
        lemma_words_le_len(ws.drop_first());
    }
}

/// Appending a word to a sequence appends its four bytes to the stream.
pub proof fn lemma_words_le_push(ws: Seq<u32>, x: u32)
    ensures
        words_le(ws.push(x)) == words_le(ws) + u32_le(x),
    decreases ws.len(),
{
    if ws.len() == 0 {
        assert(ws.push(x).drop_first() =~= Seq::<u32>::empty());
        assert(words_le(ws.push(x).drop_first()) == Seq::<u8>::empty());
        assert(words_le(ws.push(x)) == u32_le(x) + Seq::<u8>::empty());
        assert(words_le(ws) == Seq::<u8>::empty());
        assert(u32_le(x) + Seq::<u8>::empty() =~= Seq::<u8>::empty() + u32_le(x));
    } else {
        assert(ws.push(x).drop_first() =~= ws.drop_first().push(x));
        lemma_words_le_push(ws.drop_first(), x);
        assert(words_le(ws.push(x)) == u32_le(ws[0]) + words_le(ws.drop_first().push(x)));
        assert(u32_le(ws[0]) + (words_le(ws.drop_first()) + u32_le(x)) =~= (u32_le(ws[0])
            + words_le(ws.drop_first())) + u32_le(x));
    }
}

/// Encodes a sequence of value words as a little-endian response payload.
pub fn write_words(ws: Vec<u32>) -> (r: Vec<u8>)
    ensures
        r@ == words_le(ws@),
{
    let mut p = KegsPayload::new();
    let mut i: usize = 0;
    while i < ws.len()
        invariant
            i <= ws@.len(),
            p.wf(),
            p.cursor() == 0,
            p.bytes() == words_le(ws@.subrange(0, i as int)),
        decreases ws@.len() - i,
    {
        p.write_f32(ws[i]);
        proof {
            assert(ws@.subrange(0, i as int).push(ws@[i as int]) =~= ws@.subrange(0, i + 1));
            lemma_words_le_push(ws@.subrange(0, i as int), ws@[i as int]);
        }
        i = i + 1;
    }
    proof {
        assert(ws@.subrange(0, ws@.len() as int) =~= ws@);
    }
    p.into_bytes()
}

/// Codec round trip: a stream holding an integer, a value word and a
/// length-prefixed blob reads back as exactly what was written, and the
/// stream is consumed in full (nothing remains past the blob).
pub proof fn lemma_stream_round_trip(v: i64, bits: u32, b: Seq<u8>)
    requires
        b.len() <= i64::MAX,
    ensures
        ({
            let s = i64_le(v) + u32_le(bits) + i64_le(b.len() as i64) + b;
            &&& s.len() == 20 + b.len()
            &&& i64_from_le(s.subrange(0, 8)) == v
            &&& u32_from_le(s.subrange(8, 12)) == bits
            &&& KegsPayload::blob_at(s, 12)
            &&& KegsPayload::blob_len_at(s, 12) == b.len()
            &&& s.subrange(20, 20 + b.len() as int) == b
        }),
{
    let s = i64_le(v) + u32_le(bits) + i64_le(b.len() as i64) + b;
    assert(s.subrange(0, 8) =~= i64_le(v));
    assert(s.subrange(8, 12) =~= u32_le(bits));
    assert(s.subrange(12, 20) =~= i64_le(b.len() as i64));
    assert(s.subrange(20, 20 + b.len() as int) =~= b);
    lemma_i64_le_round_trip(v);
    lemma_u32_le_round_trip(bits);
    lemma_i64_le_round_trip(b.len() as i64);
}

} // verus!
