//! Gradient synthesis: fills auto-valued channels by interpolating attribute
//! values between the nearest fixtures, by address, that carry explicit
//! values.
//!
//! The walk over the requested channel range keeps two anchors: `fade_from`,
//! the fixture the fade leaves, and `next`, the nearest fixture strictly
//! ahead that supplies an explicit value on a different fixture id.  The
//! interpolation fraction is computed from fixture-id distance once per
//! fixture boundary; when no positive distance exists the walk holds the
//! `fade_from` values flat.

use vstd::prelude::*;
use crate::CHANNEL_COUNT;
use crate::channels::{AUTO_VALUE_BITS, ChannelMetadata, Universe};
use crate::codec::KegsPayload;
use crate::floatbits::{
    add_bits, div_bits, f32_add, f32_div, f32_mul, f32_of_i128, f32_sub, mul_bits, single_of_int,
    sub_bits,
};

verus! {

/// A fixture's sixteen attribute slots, all zero.
pub open spec fn zero16() -> Seq<u32> {
    Seq::new(16, |i: int| 0u32)
}

/// The mathematical view of an aggregated fixture: its id and its sixteen
/// attribute slots.
pub struct FixtureView {
    pub fid: i64,
    pub vals: Seq<u32>,
}

/// Attribute slots accumulated by scanning consecutive channels of fixture
/// `fid` from address `p`: each channel whose typecode lies in `1..=15`
/// writes its stored value word into that slot.  The scan stops at the first
/// channel of another fixture, at an unpatched run (`fid == -1`), or at the
/// end of the address space.
pub open spec fn agg_values(
    m: Seq<ChannelMetadata>,
    v: Seq<u32>,
    fid: i64,
    p: int,
    acc: Seq<u32>,
) -> Seq<u32>
    decreases CHANNEL_COUNT - p when 0 <= p <= CHANNEL_COUNT
{
    if p >= CHANNEL_COUNT {
        acc
    } else if m[p].fixture_id != fid || fid == -1i64 {
        acc
    } else {
        let acc2 = if 0 < m[p].typecode < 16 {
            acc.update(m[p].typecode as int, v[p])
        } else {
            acc
        };
        agg_values(m, v, fid, p + 1, acc2)
    }
}

/// The fixture aggregated at address `p`; past the end of the address space
/// it is the empty sentinel fixture.
pub open spec fn compiled_fixture(m: Seq<ChannelMetadata>, v: Seq<u32>, p: int) -> FixtureView {
    if p >= CHANNEL_COUNT {
        FixtureView { fid: -1i64, vals: zero16() }
    } else {
        FixtureView { fid: m[p].fixture_id, vals: agg_values(m, v, m[p].fixture_id, p, zero16()) }
    }
}

/// The first address at or after `p` holding an explicit (non-auto) value on
/// a fixture other than `fid0`; `CHANNEL_COUNT` when none exists.
pub open spec fn next_anchor(m: Seq<ChannelMetadata>, v: Seq<u32>, fid0: i64, p: int) -> int
    decreases CHANNEL_COUNT - p when 0 <= p <= CHANNEL_COUNT
{
    if p >= CHANNEL_COUNT {
        CHANNEL_COUNT as int
    } else if v[p] != AUTO_VALUE_BITS && m[p].fixture_id != fid0 {
        p
    } else {
        next_anchor(m, v, fid0, p + 1)
    }
}

/// The anchor search from address `p`: scanning for an explicit value on a
/// fixture other than the one at `p`; an unpatched start returns `p` itself.
pub open spec fn find_next_from(m: Seq<ChannelMetadata>, v: Seq<u32>, p: int) -> int {
    if m[p].fixture_id == -1i64 {
        p
    } else {
        next_anchor(m, v, m[p].fixture_id, p)
    }
}

/// One interpolated slot: `a + (b - a) * t` in IEEE-754 single precision,
/// over bit patterns.
pub open spec fn lerp_bits(a: u32, b: u32, t: u32) -> u32 {
    add_bits(a, mul_bits(sub_bits(b, a), t))
}

/// The interpolation fraction for the fixture holding id `fid`, between
/// anchors with ids `from_fid` and `next_fid`: `(fid - from_fid) / (next_fid
/// - from_fid)`, each id rounded to single precision first.
pub open spec fn amount_bits(fid: i64, from_fid: i64, next_fid: i64) -> u32 {
    div_bits(
        sub_bits(single_of_int(fid as i128), single_of_int(from_fid as i128)),
        single_of_int((next_fid - from_fid) as i128),
    )
}

/// The walk state of the gradient scan.
pub struct GradState {
    pub fade_from: FixtureView,
    pub next_ptr: int,
    pub next: FixtureView,
    pub cur_fid: i64,
    pub cur_vals: Seq<u32>,
}

/// The walk state before the first channel of a scan starting at `start`.
pub open spec fn grad_init(m: Seq<ChannelMetadata>, v: Seq<u32>, start: int) -> GradState {
    let np = find_next_from(m, v, start);
    GradState {
        fade_from: compiled_fixture(m, v, start),
        next_ptr: np,
        next: compiled_fixture(m, v, np),
        cur_fid: -1i64,
        cur_vals: zero16(),
    }
}

/// The walk state after handling channel `p`: crossing into the `next`
/// anchor's fixture promotes it to `fade_from` and searches a new anchor;
/// entering a new fixture recomputes the interpolated slots, flat-holding
/// the `fade_from` values unless the fixture-id distance is positive.
pub open spec fn grad_step(m: Seq<ChannelMetadata>, v: Seq<u32>, p: int, st: GradState) -> GradState {
    let fid = m[p].fixture_id;
    let st1 = if fid == st.next.fid {
        let np = find_next_from(m, v, p);
        GradState {
            fade_from: st.next,
            next_ptr: np,
            next: compiled_fixture(m, v, np),
            ..st
        }
    } else {
        st
    };
    if st1.cur_fid != fid {
        let glen = st1.next.fid - st1.fade_from.fid;
        let vals = if glen > 0 {
            let t = amount_bits(fid, st1.fade_from.fid, st1.next.fid);
            Seq::new(16, |i: int| lerp_bits(st1.fade_from.vals[i], st1.next.vals[i], t))
        } else {
            st1.fade_from.vals
        };
        GradState { cur_fid: fid, cur_vals: vals, ..st1 }
    } else {
        st1
    }
}

/// The output word for channel `p`: an attribute channel (typecode in
/// `1..=15`) takes its slot of the current fixture's interpolated values;
/// any other channel passes its stored value through unchanged.
pub open spec fn grad_cell(m: Seq<ChannelMetadata>, v: Seq<u32>, p: int, st: GradState) -> u32 {
    let tc = m[p].typecode;
    if 0 < tc < 16 {
        grad_step(m, v, p, st).cur_vals[tc as int]
    } else {
        v[p]
    }
}

/// The gradient outputs for channels `p .. end`, walking from state `st`.
pub open spec fn grad_run(
    m: Seq<ChannelMetadata>,
    v: Seq<u32>,
    p: int,
    end: int,
    st: GradState,
) -> Seq<u32>
    decreases end - p,
{
    if p >= end {
        Seq::<u32>::empty()
    } else {
        seq![grad_cell(m, v, p, st)] + grad_run(m, v, p + 1, end, grad_step(m, v, p, st))
    }
}

/// The gradient response for a request over `[start, start + len)`.
pub open spec fn gradient_out(m: Seq<ChannelMetadata>, v: Seq<u32>, start: int, len: int) -> Seq<
    u32,
> {
    grad_run(m, v, start, start + len, grad_init(m, v, start))
}

/// An aggregated fixture: its id and its sixteen attribute value words.
pub struct FixtureData {
    pub fixture_id: i64,
    pub values: Vec<u32>,
}

impl FixtureData {
    /// The mathematical view of this fixture.
    pub open spec fn view_fx(&self) -> FixtureView {
        FixtureView { fid: self.fixture_id, vals: self.values@ }
    }

    /// The sixteen slots are all present.
    pub open spec fn wf(&self) -> bool {
        self.values@.len() == 16
    }

    /// A fixture with the given id and zeroed attribute slots.
    pub fn new(fixture_id: i64) -> (r: Self)
        ensures
            r.wf(),
            r.view_fx() == (FixtureView { fid: fixture_id, vals: zero16() }),
    {
        let mut values: Vec<u32> = Vec::with_capacity(16);
        let mut i: usize = 0;
        while i < 16
            invariant
                i <= 16,
                values@.len() == i,
                forall|k: int| 0 <= k < i ==> values@[k] == 0u32,
            decreases 16 - i,
        {
            values.push(0u32);
            i = i + 1;
        }
        let r = FixtureData { fixture_id, values };
        proof {
            assert(r.values@ =~= zero16());
        }
        r
    }

    /// A copy of this fixture's slots under the same id (the flat-hold
    /// result of interpolating with a zero fraction).
    pub fn held(&self) -> (r: Self)
        requires
            self.wf(),
        ensures
            r.wf(),
            r.view_fx() == self.view_fx(),
    {
        let mut values: Vec<u32> = Vec::with_capacity(16);
        let mut i: usize = 0;
        while i < 16
            invariant
                i <= 16,
                self.wf(),
                values@.len() == i,
                forall|k: int| 0 <= k < i ==> values@[k] == self.values@[k],
            decreases 16 - i,
        {
            values.push(self.values[i]);
            i = i + 1;
        }
        let r = FixtureData { fixture_id: self.fixture_id, values };
        proof {
            assert(r.values@ =~= self.values@);
        }
        r
    }

    /// Interpolates every slot towards `other` by the single-precision
    /// fraction `t`, keeping this fixture's id.
    pub fn interpolate(&self, other: &FixtureData, t: u32) -> (r: Self)
        requires
            self.wf(),
            other.wf(),
        ensures
            r.wf(),
            r.fixture_id == self.fixture_id,
            r.values@ == Seq::new(16, |i: int| lerp_bits(self.values@[i], other.values@[i], t)),
    {
        let mut values: Vec<u32> = Vec::with_capacity(16);
        let mut i: usize = 0;
        while i < 16
            invariant
                i <= 16,
                self.wf(),
                other.wf(),
                values@.len() == i,
                forall|k: int| 0 <= k < i ==> values@[k] == lerp_bits(
                    self.values@[k],
                    other.values@[k],
                    t,
                ),
            decreases 16 - i,
        {
            let a = self.values[i];
            let b = other.values[i];
            values.push(f32_add(a, f32_mul(f32_sub(b, a), t)));
            i = i + 1;
        }
        let r = FixtureData { fixture_id: self.fixture_id, values };
        proof {
            assert(r.values@ =~= Seq::new(
                16,
                |i: int| lerp_bits(self.values@[i], other.values@[i], t),
            ));
        }
        r
    }
}

/// Aggregates the fixture starting at address `ptr`: consecutive channels
/// sharing one fixture id accumulate into the sixteen attribute slots.
pub fn compile_fixture_data(u: &Universe, ptr: usize) -> (r: FixtureData)
    requires
        u.wf(),
        ptr <= CHANNEL_COUNT,
    ensures
        r.wf(),
        r.view_fx() == compiled_fixture(u.metadata(), u.values(), ptr as int),
{
    let ghost m = u.metadata();
    let ghost v = u.values();
    if ptr >= CHANNEL_COUNT {
        return FixtureData::new(-1i64);
    }
    let fid = u.metadata_at(ptr).fixture_id;
    let mut fx = FixtureData::new(fid);
    let mut p = ptr;
    loop
        invariant
            u.wf(),
            m == u.metadata(),
            v == u.values(),
            ptr <= p <= CHANNEL_COUNT,
            fx.wf(),
            fx.fixture_id == fid,
            agg_values(m, v, fid, ptr as int, zero16()) == agg_values(
                m,
                v,
                fid,
                p as int,
                fx.values@,
            ),
        ensures
            fx.wf(),
            fx.fixture_id == fid,
            agg_values(m, v, fid, ptr as int, zero16()) == fx.values@,
        decreases CHANNEL_COUNT - p,
    {
        if p >= CHANNEL_COUNT {
            proof {
                assert(agg_values(m, v, fid, p as int, fx.values@) == fx.values@);
            }
            break;
        }
        let rec = u.metadata_at(p);
        if rec.fixture_id != fid || fid == -1i64 {
            proof {
                assert(agg_values(m, v, fid, p as int, fx.values@) == fx.values@);
            }
            break;
        }
        let w = u.value_at(p);
        let ghost before = fx.values@;
        if rec.typecode > 0i64 && rec.typecode < 16i64 {
            fx.values[rec.typecode as usize] = w;
            proof {
                assert(fx.values@ =~= before.update(rec.typecode as int, w));
            }
        }
        proof {
            assert(agg_values(m, v, fid, p as int, before) == agg_values(
                m,
                v,
                fid,
                p + 1,
                fx.values@,
            ));
        }
        p = p + 1;
    }
    fx
}

/// Scans forward from `ptr` for the first channel with an explicit value on
/// a different fixture; returns `CHANNEL_COUNT` when none exists, and `ptr`
/// itself when `ptr` is unpatched.
pub fn find_next_fixture_after(u: &Universe, ptr: usize) -> (r: usize)
    requires
        u.wf(),
        ptr < CHANNEL_COUNT,
    ensures
        r == find_next_from(u.metadata(), u.values(), ptr as int),
        ptr <= r <= CHANNEL_COUNT,
{
    let ghost m = u.metadata();
    let ghost v = u.values();
    let fid0 = u.metadata_at(ptr).fixture_id;
    if fid0 == -1i64 {
        return ptr;
    }
    let mut p = ptr;
    loop
        invariant
            u.wf(),
            m == u.metadata(),
            v == u.values(),
            ptr <= p <= CHANNEL_COUNT,
            next_anchor(m, v, fid0, ptr as int) == next_anchor(m, v, fid0, p as int),
        ensures
            ptr <= p <= CHANNEL_COUNT,
            p == next_anchor(m, v, fid0, ptr as int),
        decreases CHANNEL_COUNT - p,
    {
        if p >= CHANNEL_COUNT {
            proof {
                assert(next_anchor(m, v, fid0, p as int) == p as int);
            }
            break;
        }
        let w = u.value_at(p);
        let rec = u.metadata_at(p);
        if w != AUTO_VALUE_BITS && rec.fixture_id != fid0 {
            proof {
                assert(next_anchor(m, v, fid0, p as int) == p as int);
            }
            break;
        }
        proof {
            assert(next_anchor(m, v, fid0, p as int) == next_anchor(m, v, fid0, p + 1));
        }
        p = p + 1;
    }
    p
}

/// Synthesizes the gradient outputs for the channel range
/// `[start, start + len)`: one value word per requested channel, in address
/// order.
pub fn synthesize_gradient(u: &Universe, start: usize, len: usize) -> (r: Vec<u32>)
    requires
        u.wf(),
        start + len <= CHANNEL_COUNT,
    ensures
        r@ == gradient_out(u.metadata(), u.values(), start as int, len as int),
{
    let ghost m = u.metadata();
    let ghost v = u.values();
    let mut out: Vec<u32> = Vec::with_capacity(len);
    if len == 0 {
        return out;
    }
    let end = start + len;
    let mut fade_from = compile_fixture_data(u, start);
    let mut next_ptr = find_next_fixture_after(u, start);
    let mut next_fix = compile_fixture_data(u, next_ptr);
    let mut cur = FixtureData::new(-1i64);
    let ghost st0 = grad_init(m, v, start as int);
    let ghost mut st = st0;
    proof {
        assert(Seq::<u32>::empty() + grad_run(m, v, start as int, end as int, st0) =~= grad_run(
            m,
            v,
            start as int,
            end as int,
            st0,
        ));
    }
    let mut p = start;
    while p < end
        invariant
            u.wf(),
            m == u.metadata(),
            v == u.values(),
            start <= p <= end,
            end <= CHANNEL_COUNT,
            fade_from.wf(),
            next_fix.wf(),
            cur.wf(),
            st.fade_from == fade_from.view_fx(),
            st.next_ptr == next_ptr as int,
            st.next == next_fix.view_fx(),
            st.cur_fid == cur.fixture_id,
            st.cur_vals == cur.values@,
            grad_run(m, v, start as int, end as int, st0) == out@ + grad_run(
                m,
                v,
                p as int,
                end as int,
                st,
            ),
        decreases end - p,
    {
        let ghost st_next = grad_step(m, v, p as int, st);
        let rec = u.metadata_at(p);
        let fid = rec.fixture_id;
        if fid == next_fix.fixture_id {
            fade_from = next_fix;
            next_ptr = find_next_fixture_after(u, p);
            next_fix = compile_fixture_data(u, next_ptr);
        }
        if cur.fixture_id != fid {
            let glen: i128 = next_fix.fixture_id as i128 - fade_from.fixture_id as i128;
            if glen > 0i128 {
                let num = f32_sub(f32_of_i128(fid as i128), f32_of_i128(
                    fade_from.fixture_id as i128,
                ));
                let den = f32_of_i128(glen);
                let t = f32_div(num, den);
                cur = fade_from.interpolate(&next_fix, t);
                cur.fixture_id = fid;
            } else {
                cur = fade_from.held();
                cur.fixture_id = fid;
            }
        }
        proof {
            assert(st_next.fade_from == fade_from.view_fx());
            assert(st_next.next == next_fix.view_fx());
            assert(st_next.cur_fid == cur.fixture_id);
            assert(st_next.cur_vals =~= cur.values@);
        }
        let ghost out_before = out@;
        if rec.typecode > 0i64 && rec.typecode < 16i64 {
            out.push(cur.values[rec.typecode as usize]);
        } else {
            out.push(u.value_at(p));
        }
        proof {
            assert(out@ == out_before.push(grad_cell(m, v, p as int, st)));
            assert(grad_run(m, v, p as int, end as int, st) == seq![
                grad_cell(m, v, p as int, st),
            ] + grad_run(m, v, p + 1, end as int, st_next));
            assert(out_before + (seq![grad_cell(m, v, p as int, st)] + grad_run(
                m,
                v,
                p + 1,
                end as int,
                st_next,
            )) =~= out@ + grad_run(m, v, p + 1, end as int, st_next));
            st = st_next;
        }
        p = p + 1;
    }
    proof {
        assert(out@ + grad_run(m, v, end as int, end as int, st) =~= out@);
    }
    out
}

/// A gradient response holds exactly one word per requested channel.
pub proof fn lemma_grad_run_len(m: Seq<ChannelMetadata>, v: Seq<u32>, p: int, end: int, st: GradState)
    ensures
        p <= end ==> grad_run(m, v, p, end, st).len() == end - p,
        p > end ==> grad_run(m, v, p, end, st).len() == 0,
    decreases end - p,
{
    if p < end {
        lemma_grad_run_len(m, v, p + 1, end, grad_step(m, v, p, st));
    }
}

/// Gradient passthrough: a channel whose typecode lies outside `1..=15`
/// returns its raw stored value, whatever the anchor state holds.
pub proof fn lemma_grad_run_passthrough(
    m: Seq<ChannelMetadata>,
    v: Seq<u32>,
    p: int,
    end: int,
    st: GradState,
    k: int,
)
    requires
        p <= k < end,
    ensures
        !(0 < m[k].typecode < 16) ==> grad_run(m, v, p, end, st)[k - p] == v[k],
    decreases end - p,
{
    lemma_grad_run_len(m, v, p + 1, end, grad_step(m, v, p, st));
    if k == p {
    } else {
        lemma_grad_run_passthrough(m, v, p + 1, end, grad_step(m, v, p, st), k);
    }
}

/// Gradient passthrough over a whole response: channels with typecode 0,
/// negative typecodes and typecodes 16 and above always echo their stored
/// value, regardless of fixture anchors.
pub proof fn lemma_gradient_passthrough(
    m: Seq<ChannelMetadata>,
    v: Seq<u32>,
    start: int,
    len: int,
    k: int,
)
    requires
        0 <= len,
        start <= k < start + len,
    ensures
        gradient_out(m, v, start, len).len() == len,
        !(0 < m[k].typecode < 16) ==> gradient_out(m, v, start, len)[k - start] == v[k],
{
    lemma_grad_run_len(m, v, start, start + len, grad_init(m, v, start));
    lemma_grad_run_passthrough(m, v, start, start + len, grad_init(m, v, start), k);
}

/// When no explicit value on another fixture exists at or after `p`, the
/// anchor search runs to the end of the address space.
proof fn lemma_no_anchor(m: Seq<ChannelMetadata>, v: Seq<u32>, fid0: i64, p: int)
    requires
        0 <= p <= CHANNEL_COUNT,
        forall|q: int|
            p <= q < CHANNEL_COUNT ==> v[q] == AUTO_VALUE_BITS || m[q].fixture_id == fid0,
    ensures
        next_anchor(m, v, fid0, p) == CHANNEL_COUNT,
    decreases CHANNEL_COUNT - p,
{
    if p < CHANNEL_COUNT {
        lemma_no_anchor(m, v, fid0, p + 1);
    }
}

/// The walk under a missing `next` anchor: the state's anchors never change,
/// the fixture-id distance stays negative, and every attribute channel takes
/// the `fade_from` slot value unchanged.
proof fn lemma_flat_run(
    m: Seq<ChannelMetadata>,
    v: Seq<u32>,
    p: int,
    end: int,
    st: GradState,
    k: int,
)
    requires
        p <= k < end,
        st.next.fid == -1i64,
        st.fade_from.fid >= 0,
        st.cur_fid == -1i64 || st.cur_vals == st.fade_from.vals,
        forall|q: int| p <= q < end ==> #[trigger] m[q].fixture_id >= 0,
    ensures
        0 < m[k].typecode < 16 ==> grad_run(m, v, p, end, st)[k - p]
            == st.fade_from.vals[m[k].typecode as int],
    decreases end - p,
{
    let st_next = grad_step(m, v, p, st);
    assert(m[p].fixture_id >= 0);
    lemma_grad_run_len(m, v, p + 1, end, st_next);
    if k == p {
    } else {
        lemma_flat_run(m, v, p + 1, end, st_next, k);
    }
}

/// Gradient flat-hold: when every channel from the scan start onward is
/// either auto-valued or part of the leading fixture (so no anchor exists
/// ahead), and the fixtures in range carry non-negative ids, the
/// interpolation fraction stays zero and every attribute channel in range
/// takes the leading fixture's aggregated slot value unchanged.
pub proof fn lemma_gradient_flat_hold(
    m: Seq<ChannelMetadata>,
    v: Seq<u32>,
    start: int,
    len: int,
    k: int,
)
    requires
        m.len() == CHANNEL_COUNT,
        v.len() == CHANNEL_COUNT,
        0 <= start,
        start + len <= CHANNEL_COUNT,
        start <= k < start + len,
        forall|q: int|
            start <= q < CHANNEL_COUNT ==> v[q] == AUTO_VALUE_BITS || m[q].fixture_id
                == m[start].fixture_id,
        forall|q: int| start <= q < CHANNEL_COUNT ==> #[trigger] m[q].fixture_id >= 0,
    ensures
        0 < m[k].typecode < 16 ==> gradient_out(m, v, start, len)[k - start] == compiled_fixture(
            m,
            v,
            start,
        ).vals[m[k].typecode as int],
{
    let fid0 = m[start].fixture_id;
    lemma_no_anchor(m, v, fid0, start);
    let st0 = grad_init(m, v, start);
    assert(st0.next == compiled_fixture(m, v, CHANNEL_COUNT as int));
    lemma_flat_run(m, v, start, start + len, st0, k);
}

/// The gradient computation unit: one universe of channel state, driven by
/// the host through byte payloads.
pub struct GradientUnit {
    uni: Universe,
}

impl GradientUnit {
    /// The metadata table of the unit's universe.
    pub open spec fn metadata(&self) -> Seq<ChannelMetadata> {
        self.universe().metadata()
    }

    /// The value table of the unit's universe.
    pub open spec fn values(&self) -> Seq<u32> {
        self.universe().values()
    }

    /// The unit's universe.
    pub closed spec fn universe(&self) -> Universe {
        self.uni
    }

    /// Both tables span the whole channel range.
    pub open spec fn wf(&self) -> bool {
        self.universe().wf()
    }

    /// A fresh unit: every channel unpatched, every value word zero.
    pub fn new() -> (r: Self)
        ensures
            r.wf(),
            forall|i: int|
                0 <= i < CHANNEL_COUNT ==> r.metadata()[i] == crate::channels::unpatched(),
            forall|i: int| 0 <= i < CHANNEL_COUNT ==> r.values()[i] == 0u32,
    {
        GradientUnit { uni: Universe::new() }
    }

    /// Writes a metadata batch payload into the universe.
    pub fn set_channel_metadata(&mut self, input: Vec<u8>)
        requires
            old(self).wf(),
            input@.len() >= 8,
            crate::channels::meta_batch_ok(
                input@,
                8,
                crate::codec::i64_from_le(input@.subrange(0, 8)) as int,
            ),
        ensures
            final(self).wf(),
            final(self).values() == old(self).values(),
            final(self).metadata() == crate::channels::meta_batch_apply(
                input@,
                8,
                crate::codec::i64_from_le(input@.subrange(0, 8)) as int,
                old(self).metadata(),
            ),
    {
        self.uni.set_channel_metadata(input);
    }

    /// Writes a value batch payload into the universe.
    pub fn set_input_values(&mut self, input: Vec<u8>)
        requires
            old(self).wf(),
            input@.len() >= 8,
            crate::channels::vals_batch_ok(
                input@,
                8,
                crate::codec::i64_from_le(input@.subrange(0, 8)) as int,
            ),
        ensures
            final(self).wf(),
            final(self).metadata() == old(self).metadata(),
            final(self).values() == crate::channels::vals_batch_apply(
                input@,
                8,
                crate::codec::i64_from_le(input@.subrange(0, 8)) as int,
                old(self).values(),
            ),
    {
        self.uni.set_input_values(input);
    }

    /// Writes one channel's value word from a single-record payload, the
    /// older form of the value protocol.
    pub fn set_channel_input(&mut self, input: Vec<u8>)
        requires
            old(self).wf(),
            input@.len() >= 12,
            0 <= crate::codec::i64_from_le(input@.subrange(0, 8)) < CHANNEL_COUNT,
        ensures
            final(self).wf(),
            final(self).metadata() == old(self).metadata(),
            final(self).values() == old(self).values().update(
                crate::codec::i64_from_le(input@.subrange(0, 8)) as int,
                crate::codec::u32_from_le(input@.subrange(8, 12)),
            ),
    {
        self.uni.set_channel_input(input);
    }

    /// The gradient unit takes no configuration; the document is accepted
    /// and ignored.
    pub fn set_config(&mut self, _input: &str)
        requires
            old(self).wf(),
        ensures
            final(self).wf(),
            final(self).metadata() == old(self).metadata(),
            final(self).values() == old(self).values(),
    {
    }

    /// Clears no state: the unit keeps no derived state between calls.
    pub fn reset_state(&mut self)
        requires
            old(self).wf(),
        ensures
            final(self).wf(),
            final(self).metadata() == old(self).metadata(),
            final(self).values() == old(self).values(),
    {
    }

    /// The per-frame synthesis call: decodes a request payload (start
    /// channel, length, frame time in microseconds — the gradient ignores
    /// the time) and returns the response payload of `length` little-endian
    /// value words.
    pub fn process(&self, input: Vec<u8>) -> (r: Vec<u8>)
        requires
            self.wf(),
            input@.len() >= 24,
            0 <= crate::codec::i64_from_le(input@.subrange(0, 8)),
            0 <= crate::codec::i64_from_le(input@.subrange(8, 16)),
            crate::codec::i64_from_le(input@.subrange(0, 8)) + crate::codec::i64_from_le(
                input@.subrange(8, 16),
            ) <= CHANNEL_COUNT,
        ensures
            r@ == crate::codec::words_le(
                gradient_out(
                    self.metadata(),
                    self.values(),
                    crate::codec::i64_from_le(input@.subrange(0, 8)) as int,
                    crate::codec::i64_from_le(input@.subrange(8, 16)) as int,
                ),
            ),
    {
        let mut p = KegsPayload::from_bytes(input);
        let start = p.read_i64();
        let len = p.read_i64();
        let _time_us = p.read_i64();
        let vals = synthesize_gradient(&self.uni, start as usize, len as usize);
        crate::codec::write_words(vals)
    }
}

} // verus!
