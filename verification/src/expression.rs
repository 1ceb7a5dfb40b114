//! Expression synthesis: fills auto-valued channels by evaluating a
//! per-attribute-type formula against a shared evaluation context whose
//! `time` parameter is the frame time in seconds.
//!
//! The formula table is keyed by typecode: a configuration document binds
//! attribute names (a fixed vocabulary) to expression source strings; an
//! entry whose key is unrecognized or whose source does not parse is skipped
//! without aborting the load.

use vstd::prelude::*;
use picojson::PullParser;
use crate::CHANNEL_COUNT;
use crate::channels::{AUTO_VALUE_BITS, ChannelMetadata, Universe};
use crate::codec::KegsPayload;
use crate::floatbits::{f64_bits_to_f32_bits, single_of_double};

verus! {

/// The typecode of an attribute name: the fixed vocabulary of color and axis
/// names maps to small positive codes; anything else maps to `-1`.
pub open spec fn color_code(s: Seq<char>) -> i64 {
    if s == "red"@ {
        1i64
    } else if s == "green"@ {
        2i64
    } else if s == "blue"@ {
        3i64
    } else if s == "white"@ {
        4i64
    } else if s == "neutral_white"@ {
        5i64
    } else if s == "warm_white"@ {
        6i64
    } else if s == "cool_white"@ {
        7i64
    } else if s == "amber"@ {
        8i64
    } else if s == "lime"@ {
        9i64
    } else if s == "uv"@ {
        10i64
    } else if s == "x"@ {
        11i64
    } else if s == "y"@ {
        12i64
    } else {
        -1i64
    }
}

/// Relies on `str`'s `PartialEq`: two string slices compare equal exactly
/// when their character sequences are equal.
#[verifier::external_body]
fn str_eq(a: &str, b: &str) -> (r: bool)
    ensures
        r == (a@ == b@),
{
    a == b
}

/// Maps an attribute name to its typecode; unrecognized names map to `-1`.
pub fn color_to_code(s: &str) -> (r: i64)
    ensures
        r == color_code(s@),
{
    if str_eq(s, "red") {
        1
    } else if str_eq(s, "green") {
        2
    } else if str_eq(s, "blue") {
        3
    } else if str_eq(s, "white") {
        4
    } else if str_eq(s, "neutral_white") {
        5
    } else if str_eq(s, "warm_white") {
        6
    } else if str_eq(s, "cool_white") {
        7
    } else if str_eq(s, "amber") {
        8
    } else if str_eq(s, "lime") {
        9
    } else if str_eq(s, "uv") {
        10
    } else if str_eq(s, "x") {
        11
    } else if str_eq(s, "y") {
        12
    } else {
        -1
    }
}

/// The stream of configuration tokens the pull parser emits for a document.
/// Code 0 carries an object key, code 1 a string value, code 2 any other
/// event; the stream is a function of the document text alone.
pub uninterp spec fn config_events(doc: Seq<char>) -> Seq<(u8, Seq<char>)>;

/// Relies on `picojson::SliceParser::with_buffer` and
/// `picojson::PullParser::next_event`: the pull parser's event stream is a
/// function of the document text alone.  Keys and string values carry their
/// text; any other event is carried as code 2; the scan stops at the end of
/// the document or at the first document parse error.
#[verifier::external_body]
fn parse_config_events(doc: &str) -> (r: Vec<(u8, String)>)
    ensures
        r@.map_values(|e: (u8, String)| (e.0, e.1@)) == config_events(doc@),
{
    let mut scratch = [0u8; 1024];
    let mut parser = picojson::SliceParser::with_buffer(doc, &mut scratch);
    let mut out: Vec<(u8, String)> = Vec::new();
    loop {
        match parser.next_event() {
            Ok(picojson::Event::Key(k)) => out.push((0, k.as_str().to_string())),
            Ok(picojson::Event::String(s)) => out.push((1, s.as_str().to_string())),
            Ok(picojson::Event::EndDocument) => break,
            Ok(_) => out.push((2, String::new())),
            Err(_) => break,
        }
    }
    out
}

/// Whether the expression parser accepts a source string; a function of the
/// source text alone.
pub uninterp spec fn formula_parses(src: Seq<char>) -> bool;

/// Relies on `exp_rs::engine::parse_expression`: whether a source string
/// parses is a function of the string alone.
#[verifier::external_body]
fn formula_parse_check(src: &str) -> (r: bool)
    ensures
        r == formula_parses(src@),
{
    exp_rs::engine::parse_expression(src).is_ok()
}

/// The result of evaluating a formula source at a frame time, as the bit
/// pattern of the IEEE-754 double the evaluator returns; `None` when the
/// source does not parse or evaluation fails.  A function of the source text
/// and the frame time alone.
pub uninterp spec fn eval_of(src: Seq<char>, time_us: i64) -> Option<u64>;

/// Relies on `exp_rs::engine::parse_expression`,
/// `exp_rs::context::EvalContext::new`,
/// `exp_rs::context::EvalContext::set_parameter` and
/// `exp_rs::eval::eval_ast`: parses the source, binds the `time` parameter
/// to the frame time in seconds (`time_us / 1_000_000`), and evaluates.  The
/// evaluator is deterministic — its math functions come from the software
/// `libm` crate — so the result is a function of the source text and the
/// frame time alone.
#[verifier::external_body]
fn eval_formula(src: &str, time_us: i64) -> (r: Option<u64>)
    ensures
        r == eval_of(src@, time_us),
{
    let ast = match exp_rs::engine::parse_expression(src) {
        Ok(a) => a,
        Err(_) => return None,
    };
    let mut ctx = exp_rs::context::EvalContext::new();
    ctx.set_parameter("time", (time_us as exp_rs::Real) / (1_000_000 as exp_rs::Real));
    match exp_rs::eval::eval_ast(&ast, Some(std::rc::Rc::new(ctx))) {
        Ok(v) => Some(v.to_bits()),
        Err(_) => None,
    }
}

/// The number of typecode slots in a formula table: codes 1 through 12, with
/// slot 0 unused.
pub const FORMULA_SLOTS: usize = 13;

/// A formula table with no formula bound.
pub open spec fn empty_table() -> Seq<Option<Seq<char>>> {
    Seq::new(FORMULA_SLOTS as nat, |i: int| None::<Seq<char>>)
}

/// One configuration token folded into the table: a key token selects the
/// typecode the next string value binds to; a string value whose selected
/// typecode is recognized and whose source parses is stored; every other
/// token, every unrecognized key and every unparsable source leaves the
/// table unchanged.
pub open spec fn load_step(
    t: Seq<Option<Seq<char>>>,
    key: i64,
    e: (u8, Seq<char>),
) -> (Seq<Option<Seq<char>>>, i64) {
    if e.0 == 0u8 {
        (t, color_code(e.1))
    } else if e.0 == 1u8 {
        if 1 <= key < FORMULA_SLOTS && formula_parses(e.1) {
            (t.update(key as int, Some(e.1)), key)
        } else {
            (t, key)
        }
    } else {
        (t, key)
    }
}

/// The table after folding a whole token stream, threading the current key.
pub open spec fn load_run(
    t: Seq<Option<Seq<char>>>,
    key: i64,
    evs: Seq<(u8, Seq<char>)>,
) -> Seq<Option<Seq<char>>>
    decreases evs.len(),
{
    if evs.len() == 0 {
        t
    } else {
        let stepped = load_step(t, key, evs[0]);
        load_run(stepped.0, stepped.1, evs.drop_first())
    }
}

/// A malformed entry is skipped without touching the table, and a valid
/// entry under a recognized key binds exactly its own typecode: one bad
/// entry never aborts the rest of a load.
pub proof fn lemma_config_entry_isolation(t: Seq<Option<Seq<char>>>, key: i64, e: (u8, Seq<char>))
    requires
        t.len() == FORMULA_SLOTS,
    ensures
        e.0 == 1u8 && !formula_parses(e.1) ==> load_step(t, key, e).0 == t,
        e.0 == 1u8 && 1 <= key < FORMULA_SLOTS && formula_parses(e.1) ==> load_step(t, key, e).0
            == t.update(key as int, Some(e.1)),
        load_step(t, key, e).0.len() == t.len(),
{
}

/// The per-typecode formula table: each recognized attribute type may hold
/// the source text of a successfully parsed formula.
pub struct FormulaTable {
    sources: Vec<Option<String>>,
}

impl FormulaTable {
    /// The table's view: the bound source text per typecode slot.
    pub closed spec fn table(&self) -> Seq<Option<Seq<char>>> {
        self.sources@.map_values(
            |o: Option<String>|
                match o {
                    Some(s) => Some(s@),
                    None => None,
                },
        )
    }

    /// The table spans exactly the typecode slots.
    pub open spec fn wf(&self) -> bool {
        self.table().len() == FORMULA_SLOTS
    }

    /// An empty table: no formula bound to any typecode.
    pub fn new() -> (r: Self)
        ensures
            r.wf(),
            r.table() == empty_table(),
    {
        let mut sources: Vec<Option<String>> = Vec::with_capacity(FORMULA_SLOTS);
        let mut i: usize = 0;
        while i < FORMULA_SLOTS
            invariant
                i <= FORMULA_SLOTS,
                sources@.len() == i,
                forall|k: int| 0 <= k < i ==> sources@[k] is None,
            decreases FORMULA_SLOTS - i,
        {
            sources.push(None);
            i = i + 1;
        }
        let r = FormulaTable { sources };
        proof {
            assert(r.table() =~= empty_table());
        }
        r
    }

    /// Replaces the whole table with the result of folding a configuration
    /// document's token stream: each recognized key with a parsable source
    /// is bound; malformed or unrecognized entries are skipped.
    pub fn load(&mut self, doc: &str)
        ensures
            final(self).wf(),
            final(self).table() == load_run(empty_table(), -1i64, config_events(doc@)),
    {
        let mut fresh = FormulaTable::new();
        let events = parse_config_events(doc);
        let ghost evs = config_events(doc@);
        let ghost t0 = empty_table();
        let mut key: i64 = -1;
        let mut i: usize = 0;
        proof {
            assert(evs.skip(0) =~= evs);
        }
        while i < events.len()
            invariant
                events@.map_values(|e: (u8, String)| (e.0, e.1@)) == evs,
                i <= events@.len(),
                fresh.wf(),
                load_run(t0, -1i64, evs) == load_run(fresh.table(), key, evs.skip(i as int)),
                t0 == empty_table(),
            decreases events@.len() - i,
        {
            let ghost tcur = fresh.table();
            let ghost key0 = key;
            let e0 = events[i].0;
            let ghost ev = evs[i as int];
            proof {
                assert(ev == (events@[i as int].0, events@[i as int].1@));
                assert(evs.skip(i as int)[0] == ev);
                assert(evs.skip(i as int).drop_first() =~= evs.skip(i as int + 1));
            }
            if e0 == 0u8 {
                key = color_to_code(events[i].1.as_str());
            } else if e0 == 1u8 {
                if 1 <= key && key < FORMULA_SLOTS as i64 {
                    if formula_parse_check(events[i].1.as_str()) {
                        let src = events[i].1.clone();
                        fresh.sources[key as usize] = Some(src);
                        proof {
                            assert(fresh.table() =~= tcur.update(key as int, Some(ev.1)));
                        }
                    }
                }
            }
            proof {
                assert(load_run(tcur, key0, evs.skip(i as int)) == load_run(
                    load_step(tcur, key0, ev).0,
                    load_step(tcur, key0, ev).1,
                    evs.skip(i as int + 1),
                ));
                assert(fresh.table() == load_step(tcur, key0, ev).0);
                assert(key == load_step(tcur, key0, ev).1);
            }
            i = i + 1;
        }
        proof {
            assert(evs.skip(events@.len() as int) =~= Seq::<(u8, Seq<char>)>::empty());
        }
        *self = fresh;
    }
}

/// The output word for channel `p` under expression synthesis: a channel
/// with an explicit value echoes it verbatim; an auto channel evaluates the
/// formula bound to its typecode, yielding the evaluated value narrowed to
/// single precision, or `0.0` when no formula is bound or evaluation fails.
pub open spec fn expr_cell(
    m: Seq<ChannelMetadata>,
    v: Seq<u32>,
    t: Seq<Option<Seq<char>>>,
    time_us: i64,
    p: int,
) -> u32 {
    if v[p] != AUTO_VALUE_BITS {
        v[p]
    } else {
        let tc = m[p].typecode;
        if 1 <= tc < FORMULA_SLOTS && t[tc as int] is Some {
            match eval_of(t[tc as int].unwrap(), time_us) {
                Some(dbits) => single_of_double(dbits),
                None => 0u32,
            }
        } else {
            0u32
        }
    }
}

/// The expression synthesis response for a request over
/// `[start, start + len)` at frame time `time_us`.
pub open spec fn expr_out(
    m: Seq<ChannelMetadata>,
    v: Seq<u32>,
    t: Seq<Option<Seq<char>>>,
    time_us: i64,
    start: int,
    len: int,
) -> Seq<u32> {
    Seq::new(len as nat, |k: int| expr_cell(m, v, t, time_us, start + k))
}

/// Expression synthesis is deterministic: two calls with the same
/// configuration, the same stores and the same frame time produce identical
/// outputs — the response is a function of those alone.
pub proof fn lemma_expression_determinism(
    m1: Seq<ChannelMetadata>,
    v1: Seq<u32>,
    t1: Seq<Option<Seq<char>>>,
    m2: Seq<ChannelMetadata>,
    v2: Seq<u32>,
    t2: Seq<Option<Seq<char>>>,
    time1: i64,
    time2: i64,
    start: int,
    len: int,
)
    requires
        m1 == m2,
        v1 == v2,
        t1 == t2,
        time1 == time2,
    ensures
        expr_out(m1, v1, t1, time1, start, len) == expr_out(m2, v2, t2, time2, start, len),
{
}

/// Expression fallback: a channel holding an explicit value is echoed
/// verbatim, and an auto channel whose typecode has no bound formula yields
/// exactly `0.0` (the all-zero bit pattern).
pub proof fn lemma_expression_fallback(
    m: Seq<ChannelMetadata>,
    v: Seq<u32>,
    t: Seq<Option<Seq<char>>>,
    time_us: i64,
    p: int,
)
    requires
        0 <= p < m.len(),
        m.len() == v.len(),
    ensures
        v[p] != AUTO_VALUE_BITS ==> expr_cell(m, v, t, time_us, p) == v[p],
        v[p] == AUTO_VALUE_BITS && !(1 <= m[p].typecode < FORMULA_SLOTS && t[m[p].typecode as int]
            is Some) ==> expr_cell(m, v, t, time_us, p) == 0u32,
{
}

/// Synthesizes the expression outputs for the channel range
/// `[start, start + len)` at frame time `time_us`: one value word per
/// requested channel, in address order.
pub fn synthesize_expressions(
    u: &Universe,
    t: &FormulaTable,
    start: usize,
    len: usize,
    time_us: i64,
) -> (r: Vec<u32>)
    requires
        u.wf(),
        t.wf(),
        start + len <= CHANNEL_COUNT,
    ensures
        r@ == expr_out(u.metadata(), u.values(), t.table(), time_us, start as int, len as int),
{
    let ghost m = u.metadata();
    let ghost v = u.values();
    let ghost tv = t.table();
    let mut out: Vec<u32> = Vec::with_capacity(len);
    let mut k: usize = 0;
    while k < len
        invariant
            u.wf(),
            t.wf(),
            m == u.metadata(),
            v == u.values(),
            tv == t.table(),
            start + len <= CHANNEL_COUNT,
            k <= len,
            out@.len() == k,
            forall|j: int| 0 <= j < k ==> out@[j] == expr_cell(m, v, tv, time_us, start + j),
        decreases len - k,
    {
        let p = start + k;
        let w = u.value_at(p);
        if w != AUTO_VALUE_BITS {
            out.push(w);
        } else {
            let tc = u.metadata_at(p).typecode;
            if 1i64 <= tc && tc < FORMULA_SLOTS as i64 && t.source_at(tc as usize).is_some() {
                let src = t.source_at(tc as usize).unwrap();
                match eval_formula(src, time_us) {
                    Some(dbits) => out.push(f64_bits_to_f32_bits(dbits)),
                    None => out.push(0u32),
                }
            } else {
                out.push(0u32);
            }
        }
        k = k + 1;
    }
    proof {
        assert(out@ =~= expr_out(m, v, tv, time_us, start as int, len as int));
    }
    out
}

impl FormulaTable {
    /// The formula source bound to a typecode slot, if any.
    pub fn source_at(&self, tc: usize) -> (r: Option<&String>)
        requires
            self.wf(),
            tc < FORMULA_SLOTS,
        ensures
            r is Some <==> self.table()[tc as int] is Some,
            r matches Some(s) ==> self.table()[tc as int] == Some(s@),
    {
        match &self.sources[tc] {
            Some(s) => Some(s),
            None => None,
        }
    }
}

/// The expression computation unit: one universe of channel state and one
/// formula table, driven by the host through byte payloads.
pub struct FunctionEvalUnit {
    uni: Universe,
    table: FormulaTable,
}

impl FunctionEvalUnit {
    /// The metadata table of the unit's universe.
    pub open spec fn metadata(&self) -> Seq<ChannelMetadata> {
        self.universe().metadata()
    }

    /// The value table of the unit's universe.
    pub open spec fn values(&self) -> Seq<u32> {
        self.universe().values()
    }

    /// The unit's universe.
    pub closed spec fn universe(&self) -> Universe {
        self.uni
    }

    /// The unit's formula table view.
    pub closed spec fn formulas(&self) -> Seq<Option<Seq<char>>> {
        self.table.table()
    }

    /// The tables span the channel range and the typecode slots.
    pub open spec fn wf(&self) -> bool {
        &&& self.universe().wf()
        &&& self.formulas().len() == FORMULA_SLOTS
    }

    /// A fresh unit: every channel unpatched, every value word zero, no
    /// formula bound.
    pub fn new() -> (r: Self)
        ensures
            r.wf(),
            forall|i: int|
                0 <= i < CHANNEL_COUNT ==> r.metadata()[i] == crate::channels::unpatched(),
            forall|i: int| 0 <= i < CHANNEL_COUNT ==> r.values()[i] == 0u32,
            r.formulas() == empty_table(),
    {
        FunctionEvalUnit { uni: Universe::new(), table: FormulaTable::new() }
    }

    /// Writes a metadata batch payload into the universe.
    pub fn set_channel_metadata(&mut self, input: Vec<u8>)
        requires
            old(self).wf(),
            input@.len() >= 8,
            crate::channels::meta_batch_ok(
                input@,
                8,
                crate::codec::i64_from_le(input@.subrange(0, 8)) as int,
            ),
        ensures
            final(self).wf(),
            final(self).values() == old(self).values(),
            final(self).formulas() == old(self).formulas(),
            final(self).metadata() == crate::channels::meta_batch_apply(
                input@,
                8,
                crate::codec::i64_from_le(input@.subrange(0, 8)) as int,
                old(self).metadata(),
            ),
    {
        self.uni.set_channel_metadata(input);
    }

    /// Writes a value batch payload into the universe.
    pub fn set_input_values(&mut self, input: Vec<u8>)
        requires
            old(self).wf(),
            input@.len() >= 8,
            crate::channels::vals_batch_ok(
                input@,
                8,
                crate::codec::i64_from_le(input@.subrange(0, 8)) as int,
            ),
        ensures
            final(self).wf(),
            final(self).metadata() == old(self).metadata(),
            final(self).formulas() == old(self).formulas(),
            final(self).values() == crate::channels::vals_batch_apply(
                input@,
                8,
                crate::codec::i64_from_le(input@.subrange(0, 8)) as int,
                old(self).values(),
            ),
    {
        self.uni.set_input_values(input);
    }

    /// Loads a configuration document, replacing the formula table in full.
    pub fn set_config(&mut self, doc: &str)
        requires
            old(self).wf(),
        ensures
            final(self).wf(),
            final(self).metadata() == old(self).metadata(),
            final(self).values() == old(self).values(),
            final(self).formulas() == load_run(empty_table(), -1i64, config_events(doc@)),
    {
        self.table.load(doc);
    }

    /// Clears no state: the unit keeps no derived state between calls.
    pub fn reset_state(&mut self)
        requires
            old(self).wf(),
        ensures
            final(self).wf(),
            final(self).metadata() == old(self).metadata(),
            final(self).values() == old(self).values(),
            final(self).formulas() == old(self).formulas(),
    {
    }

    /// The per-frame synthesis call: decodes a request payload (start
    /// channel, length, frame time in microseconds) and returns the response
    /// payload of `length` little-endian value words.
    pub fn process(&self, input: Vec<u8>) -> (r: Vec<u8>)
        requires
            self.wf(),
            input@.len() >= 24,
            0 <= crate::codec::i64_from_le(input@.subrange(0, 8)),
            0 <= crate::codec::i64_from_le(input@.subrange(8, 16)),
            crate::codec::i64_from_le(input@.subrange(0, 8)) + crate::codec::i64_from_le(
                input@.subrange(8, 16),
            ) <= CHANNEL_COUNT,
        ensures
            r@ == crate::codec::words_le(
                expr_out(
                    self.metadata(),
                    self.values(),
                    self.formulas(),
                    crate::codec::i64_from_le(input@.subrange(16, 24)),
                    crate::codec::i64_from_le(input@.subrange(0, 8)) as int,
                    crate::codec::i64_from_le(input@.subrange(8, 16)) as int,
                ),
            ),
    {
        let mut p = KegsPayload::from_bytes(input);
        let start = p.read_i64();
        let len = p.read_i64();
        let time_us = p.read_i64();
        let vals = synthesize_expressions(
            &self.uni,
            &self.table,
            start as usize,
            len as usize,
            time_us,
        );
        crate::codec::write_words(vals)
    }
}

} // verus!
