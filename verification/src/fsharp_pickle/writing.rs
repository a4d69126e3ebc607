//! The pickle format from the side of its writer: the parts without types in them.
//!
//! A pickle is two streams of bytes. Each function here puts one thing in front of what
//! is written after it, and the laws say that the decoders read it back and leave what
//! comes after. What cannot be written (a string that is not in the strings table, a
//! stamp outside its table) has no streams.
use crate::fsharp_pickle::leaves;
use crate::fsharp_pickle::model::{
    IsType, PickledCPathModel, PickledConstModel, PickledIdentModel, PickledILScopeRef,
    PickledILType, PickledILTypeRefModel, PickledPos, PickledRange, PickledTyparSpecDataModel,
    PickledValModel, PickledXmlDocModel, TyparKind,
};
use crate::fsharp_pickle::osgn;
use crate::fsharp_pickle::osgn::Walk;
use crate::fsharp_pickle::reader;
use crate::fsharp_pickle::reader::{uint32_bytes, Decoded, Tape};
use vstd::prelude::*;

verus! {

/// What is still to be read of the two streams.
pub struct Streams {
    pub a: Seq<u8>,
    pub b: Seq<u8>,
}

/// The tables that a pickle refers to, whether the writer annotates every type with its
/// nullness, and what it puts where no reader looks: a spare boolean of members and an
/// obsolete name of union cases.
pub struct Setting {
    pub strings: Seq<Seq<char>>,
    pub pubpaths: Seq<Seq<u32>>,
    pub tycons: nat,
    pub typars: Seq<PickledTyparSpecDataModel>,
    pub vals: Seq<PickledValModel>,
    pub nlerefs: nat,
    pub simpletys: nat,
    pub annotated: bool,
    pub spare: bool,
    pub obsolete: Seq<char>,
}

/// Bytes of the primary stream in front of the rest.
pub open spec fn raw(bytes: Seq<u8>, rest: Option<Streams>) -> Option<Streams> {
    match rest {
        Some(r) => Some(Streams { a: bytes + r.a, ..r }),
        None => None,
    }
}

/// Bytes of the B stream in front of the rest.
pub open spec fn raw_b(bytes: Seq<u8>, rest: Option<Streams>) -> Option<Streams> {
    match rest {
        Some(r) => Some(Streams { b: bytes + r.b, ..r }),
        None => None,
    }
}

/// What is left of the tape is `rest`, and its tables are those of the setting.
#[verifier::opaque]
pub open spec fn at(k: Setting, s: Tape, rest: Option<Streams>) -> bool {
    &&& rest is Some
    &&& s.pos <= s.bytes.len()
    &&& s.bytes.subrange(s.pos as int, s.bytes.len() as int) == rest->0.a
    &&& s.b_pos <= s.b_bytes.len()
    &&& s.b_bytes.subrange(s.b_pos as int, s.b_bytes.len() as int) == rest->0.b
    &&& s.strings == Some(k.strings)
    &&& s.pubpaths == Some(k.pubpaths)
}

/// Each slot is empty or holds the declaration that the pickle has under its stamp.
#[verifier::opaque]
pub open spec fn linked<V>(slots: Seq<Option<V>>, bodies: Seq<V>) -> bool {
    &&& slots.len() == bodies.len()
    &&& forall|i: int|
        0 <= i < slots.len() ==> (#[trigger] slots[i]) is None || slots[i] == Some(bodies[i])
}

/// The walk is before `rest` in the setting.
pub open spec fn ready(k: Setting, w: Walk, rest: Option<Streams>) -> bool {
    &&& at(k, w.tape, rest)
    &&& linked(w.typars, k.typars)
    &&& linked(w.vals, k.vals)
    &&& w.tycons.len() == k.tycons
    &&& w.nlerefs_len == k.nlerefs
    &&& w.simpletys_len == k.simpletys
}

/// The decoder gives `v` and leaves `t`.
pub open spec fn gives<V>(r: Decoded<V>, v: V, t: Tape) -> bool {
    r is Ok && r->Ok_0.0 == v && r->Ok_0.1 == t
}

/// Nothing is left of either stream.
pub open spec fn nothing() -> Option<Streams> {
    Some(Streams { a: Seq::empty(), b: Seq::empty() })
}

/// The walk at the beginning of two streams with empty tables of declarations.
pub open spec fn beginning(k: Setting, streams: Streams, depth: nat) -> Walk {
    Walk {
        tape: Tape {
            bytes: streams.a,
            pos: 0,
            b_bytes: streams.b,
            b_pos: 0,
            strings: Some(k.strings),
            pubpaths: Some(k.pubpaths),
            depth,
        },
        tycons: Seq::new(k.tycons, |i: int| None),
        typars: Seq::new(k.typars.len(), |i: int| None),
        vals: Seq::new(k.vals.len(), |i: int| None),
        nlerefs_len: k.nlerefs,
        simpletys_len: k.simpletys,
    }
}

/// The walk has come to the end of both streams.
pub open spec fn at_end(w: Walk) -> bool {
    w.tape.pos == w.tape.bytes.len() && w.tape.b_pos == w.tape.b_bytes.len()
}

/// The beginning of the streams is before all of them.
pub proof fn lemma_beginning(k: Setting, rest: Option<Streams>, depth: nat)
    requires
        rest is Some,
    ensures
        ready(k, beginning(k, rest->0, depth), rest),
{
    reveal(at);
    reveal(linked);
    let w = beginning(k, rest->0, depth);
    assert(w.tape.bytes.subrange(0, w.tape.bytes.len() as int) =~= rest->0.a);
    assert(w.tape.b_bytes.subrange(0, w.tape.b_bytes.len() as int) =~= rest->0.b);
}

/// Before nothing is the end.
pub proof fn lemma_end(k: Setting, w: Walk)
    requires
        ready(k, w, nothing()),
    ensures
        at_end(w),
{
    reveal(at);
    let s = w.tape;
    assert(s.bytes.subrange(s.pos as int, s.bytes.len() as int).len() == 0);
    assert(s.b_bytes.subrange(s.b_pos as int, s.b_bytes.len() as int).len() == 0);
}

/// Only what could be written is before the reader.
pub proof fn lemma_some(k: Setting, s: Tape, rest: Option<Streams>)
    requires
        at(k, s, rest),
    ensures
        rest is Some,
        s.remaining() == rest->0.a.len(),
        s.b_pos <= s.b_bytes.len(),
        s.b_bytes.len() - s.b_pos == rest->0.b.len(),
        s.strings == Some(k.strings),
        s.pubpaths == Some(k.pubpaths),
{
    reveal(at);
    assert(s.bytes.subrange(s.pos as int, s.bytes.len() as int).len() == rest->0.a.len());
    assert(s.b_bytes.subrange(s.b_pos as int, s.b_bytes.len() as int).len() == rest->0.b.len());
}

/// Raw bytes are there, and the rest is after them.
pub proof fn lemma_raw(k: Setting, s: Tape, bytes: Seq<u8>, rest: Option<Streams>)
    requires
        at(k, s, raw(bytes, rest)),
    ensures
        at(k, s.advance(bytes.len()), rest),
        s.pos + bytes.len() <= s.bytes.len(),
        s.bytes.subrange(s.pos as int, s.pos + bytes.len() as int) == bytes,
        forall|i: int| 0 <= i < bytes.len() ==> s.bytes[s.pos + i] == #[trigger] bytes[i],
{
    reveal(at);
    let left = s.bytes.subrange(s.pos as int, s.bytes.len() as int);
    assert(left == bytes + rest->0.a);
    assert forall|i: int| 0 <= i < bytes.len() implies s.bytes[s.pos + i]
        == #[trigger] bytes[i] by {
        assert(left[i] == bytes[i]);
    }
    assert(s.bytes.subrange(s.pos as int, s.pos + bytes.len() as int) =~= bytes);
    let t = s.advance(bytes.len());
    assert(t.bytes.subrange(t.pos as int, t.bytes.len() as int) =~= rest->0.a) by {
        assert forall|i: int| 0 <= i < rest->0.a.len() implies t.bytes[t.pos + i]
            == rest->0.a[i] by {
            assert(left[bytes.len() + i] == rest->0.a[i]);
        }
    }
}

/// A raw byte of the B stream is next, and the rest is after it.
pub proof fn lemma_raw_b(k: Setting, s: Tape, bytes: Seq<u8>, rest: Option<Streams>)
    requires
        at(k, s, raw_b(bytes, rest)),
        bytes.len() > 0,
    ensures
        reader::peek_b(s) == bytes[0],
        at(k, reader::skip_b(s), raw_b(bytes.drop_first(), rest)),
{
    reveal(at);
    let left = s.b_bytes.subrange(s.b_pos as int, s.b_bytes.len() as int);
    assert(left == bytes + rest->0.b);
    assert(left[0] == bytes[0]);
    let t = reader::skip_b(s);
    assert(t.b_bytes.subrange(t.b_pos as int, t.b_bytes.len() as int) =~= bytes.drop_first()
        + rest->0.b) by {
        assert forall|i: int| 0 <= i < left.len() - 1 implies t.b_bytes[t.b_pos + i] == (
        bytes.drop_first() + rest->0.b)[i] by {
            assert(left[i + 1] == s.b_bytes[s.b_pos + i + 1]);
        }
    }
    assert(t.bytes.subrange(t.pos as int, t.bytes.len() as int) == rest->0.a);
}

/// No bytes of the B stream in front are none.
pub proof fn lemma_no_b(rest: Option<Streams>)
    ensures
        raw_b(Seq::empty(), rest) == rest,
{
    if rest is Some {
        assert(Seq::<u8>::empty() + rest->0.b =~= rest->0.b);
    }
}

/// A byte.
pub open spec fn byte(v: u8, rest: Option<Streams>) -> Option<Streams> {
    raw(seq![v], rest)
}

pub proof fn law_byte(
    k: Setting,
    s: Tape,
    v: u8,
    rest: Option<Streams>,
    context: &'static str,
) -> (t: Tape)
    requires
        at(k, s, byte(v, rest)),
    ensures
        gives(reader::byte_at(s, context), v, t),
        at(k, t, rest),
{
    lemma_raw(k, s, seq![v], rest);
    assert(seq![v][0] == s.bytes[s.pos + 0int]);
    s.advance(1)
}

/// A byte of the B stream.
pub open spec fn byte_b(v: u8, rest: Option<Streams>) -> Option<Streams> {
    raw_b(seq![v], rest)
}

pub proof fn law_byte_b(k: Setting, s: Tape, v: u8, rest: Option<Streams>)
    requires
        at(k, s, byte_b(v, rest)),
    ensures
        reader::peek_b(s) == v,
        at(k, reader::skip_b(s), rest),
{
    lemma_raw_b(k, s, seq![v], rest);
    assert(seq![v].drop_first() =~= Seq::empty());
    lemma_no_b(rest);
}

/// A boolean: one byte, `1` for true.
pub open spec fn boolean(v: bool, rest: Option<Streams>) -> Option<Streams> {
    byte(
        if v {
            1
        } else {
            0
        },
        rest,
    )
}

pub proof fn law_boolean(
    k: Setting,
    s: Tape,
    v: bool,
    rest: Option<Streams>,
    context: &'static str,
) -> (t: Tape)
    requires
        at(k, s, boolean(v, rest)),
    ensures
        gives(reader::bool_at(s, context), v, t),
        at(k, t, rest),
{
    law_byte(
        k,
        s,
        if v {
            1
        } else {
            0
        },
        rest,
        context,
    )
}

/// A number in its compressed form.
pub open spec fn uint32(v: u32, rest: Option<Streams>) -> Option<Streams> {
    raw(uint32_bytes(v), rest)
}

pub proof fn law_uint32(
    k: Setting,
    s: Tape,
    v: u32,
    rest: Option<Streams>,
    context: &'static str,
) -> (t: Tape)
    requires
        at(k, s, uint32(v, rest)),
    ensures
        gives(reader::uint32_at(s, context), v, t),
        at(k, t, rest),
{
    lemma_raw(k, s, uint32_bytes(v), rest);
    reader::law_uint32_round_trip(s, v, context);
    s.advance(uint32_bytes(v).len())
}

/// A number of the B stream.
pub open spec fn uint32_b(v: u32, rest: Option<Streams>) -> Option<Streams> {
    raw_b(uint32_bytes(v), rest)
}

/// Four little-endian bytes are the number.
proof fn lemma_word(v: u32, x: Seq<u8>)
    requires
        x.len() == 4,
        x[0] == (v % 0x100) as u8,
        x[1] == (v / 0x100 % 0x100) as u8,
        x[2] == (v / 0x1_0000 % 0x100) as u8,
        x[3] == (v / 0x100_0000) as u8,
    ensures
        reader::le_word(x) == v,
{
}

/// A long number of the B stream.
proof fn lemma_long_b(k: Setting, s: Tape, v: u32, rest: Option<Streams>) -> (t: Tape)
    requires
        v > 0x3FFF,
        at(k, s, raw_b(uint32_bytes(v), rest)),
    ensures
        reader::uint32_b_at(s) == (v, t),
        at(k, t, rest),
{
    let x0 = uint32_bytes(v);
    lemma_no_b(rest);
    lemma_raw_b(k, s, x0, rest);
    let s1 = reader::skip_b(s);
    let x1 = seq![x0[1], x0[2], x0[3], x0[4]];
    assert(x0.drop_first() =~= x1);
    lemma_raw_b(k, s1, x1, rest);
    let s2 = reader::skip_b(s1);
    let x2 = seq![x0[2], x0[3], x0[4]];
    assert(x1.drop_first() =~= x2);
    lemma_raw_b(k, s2, x2, rest);
    let s3 = reader::skip_b(s2);
    let x3 = seq![x0[3], x0[4]];
    assert(x2.drop_first() =~= x3);
    lemma_raw_b(k, s3, x3, rest);
    let s4 = reader::skip_b(s3);
    let x4 = seq![x0[4]];
    assert(x3.drop_first() =~= x4);
    lemma_raw_b(k, s4, x4, rest);
    assert(x4.drop_first() =~= Seq::empty());
    lemma_word(
        v,
        seq![reader::peek_b(s1), reader::peek_b(s2), reader::peek_b(s3), reader::peek_b(s4)],
    );
    reader::skip_b(s4)
}

pub proof fn law_uint32_b(k: Setting, s: Tape, v: u32, rest: Option<Streams>) -> (t: Tape)
    requires
        at(k, s, uint32_b(v, rest)),
    ensures
        reader::uint32_b_at(s) == (v, t),
        at(k, t, rest),
{
    if v > 0x3FFF {
        lemma_long_b(k, s, v, rest)
    } else {
        let x0 = uint32_bytes(v);
        lemma_no_b(rest);
        lemma_raw_b(k, s, x0, rest);
        let s1 = reader::skip_b(s);
        if v <= 0x7F {
            assert(x0.drop_first() =~= Seq::empty());
            s1
        } else {
            let x1 = seq![x0[1]];
            assert(x0.drop_first() =~= x1);
            lemma_raw_b(k, s1, x1, rest);
            assert(x1.drop_first() =~= Seq::empty());
            reader::skip_b(s1)
        }
    }
}

/// A signed number, by its bit pattern.
pub open spec fn int32(v: i32, rest: Option<Streams>) -> Option<Streams> {
    uint32(
        if v < 0 {
            (0x1_0000_0000 + v) as u32
        } else {
            v as u32
        },
        rest,
    )
}

pub proof fn law_int32(
    k: Setting,
    s: Tape,
    v: i32,
    rest: Option<Streams>,
    context: &'static str,
) -> (t: Tape)
    requires
        at(k, s, int32(v, rest)),
    ensures
        gives(reader::int32_at(s, context), v, t),
        at(k, t, rest),
{
    law_uint32(
        k,
        s,
        if v < 0 {
            (0x1_0000_0000 + v) as u32
        } else {
            v as u32
        },
        rest,
        context,
    )
}

/// The number with the bit pattern of `v`.
pub open spec fn pattern(v: i64) -> int {
    if v < 0 {
        0x1_0000_0000_0000_0000 + v
    } else {
        v as int
    }
}

/// A signed number of two words, the low one first.
pub open spec fn int64(v: i64, rest: Option<Streams>) -> Option<Streams> {
    uint32(
        (pattern(v) % 0x1_0000_0000) as u32,
        uint32((pattern(v) / 0x1_0000_0000) as u32, rest),
    )
}

pub proof fn law_int64(
    k: Setting,
    s: Tape,
    v: i64,
    rest: Option<Streams>,
    context: &'static str,
) -> (t: Tape)
    requires
        at(k, s, int64(v, rest)),
    ensures
        gives(reader::int64_at(s, context), v, t),
        at(k, t, rest),
{
    let lo = (pattern(v) % 0x1_0000_0000) as u32;
    let hi = (pattern(v) / 0x1_0000_0000) as u32;
    let s = law_uint32(k, s, lo, uint32(hi, rest), context);
    law_uint32(k, s, hi, rest, context)
}

/// The stamp of something in a table of this size.
pub open spec fn stamp(v: u32, len: nat, rest: Option<Streams>) -> Option<Streams> {
    if v < len {
        uint32(v, rest)
    } else {
        None
    }
}

pub proof fn law_stamp(
    k: Setting,
    s: Tape,
    v: u32,
    len: nat,
    rest: Option<Streams>,
    context: &'static str,
    kind: &'static str,
) -> (t: Tape)
    requires
        at(k, s, stamp(v, len, rest)),
    ensures
        v < len,
        gives(osgn::ref_at(s, context, kind, len), v, t),
        at(k, t, rest),
{
    lemma_some(k, s, stamp(v, len, rest));
    law_uint32(k, s, v, rest, context)
}

/// The index of a string.
pub open spec fn string_index(k: Setting, v: u32, rest: Option<Streams>) -> Option<Streams> {
    stamp(v, k.strings.len(), rest)
}

pub proof fn law_string_index(
    k: Setting,
    s: Tape,
    v: u32,
    rest: Option<Streams>,
    context: &'static str,
) -> (t: Tape)
    requires
        at(k, s, string_index(k, v, rest)),
    ensures
        v < k.strings.len(),
        gives(reader::string_index_at(s, context), v, t),
        at(k, t, rest),
{
    lemma_some(k, s, string_index(k, v, rest));
    let t = law_uint32(k, s, v, rest, context);
    lemma_some(k, t, rest);
    t
}

/// A place of the string in the table.
pub open spec fn place(table: Seq<Seq<char>>, v: Seq<char>) -> u32 {
    choose|i: u32| i < table.len() && #[trigger] table[i as int] == v
}

/// A string, by its index.
pub open spec fn string(k: Setting, v: Seq<char>, rest: Option<Streams>) -> Option<Streams> {
    let i = place(k.strings, v);
    if i < k.strings.len() && k.strings[i as int] == v {
        uint32(i, rest)
    } else {
        None
    }
}

pub proof fn law_string(
    k: Setting,
    s: Tape,
    v: Seq<char>,
    rest: Option<Streams>,
    context: &'static str,
) -> (t: Tape)
    requires
        at(k, s, string(k, v, rest)),
    ensures
        gives(reader::string_at(s, context), v, t),
        at(k, t, rest),
{
    lemma_some(k, s, string(k, v, rest));
    let t = law_string_index(k, s, place(k.strings, v), rest, context);
    lemma_some(k, t, rest);
    t
}

/// A public path, by its index.
pub open spec fn pubpath(k: Setting, i: u32, rest: Option<Streams>) -> Option<Streams> {
    stamp(i, k.pubpaths.len(), rest)
}

/// A public path is read as the one under its index.
pub proof fn law_pubpath(
    k: Setting,
    s: Tape,
    i: u32,
    rest: Option<Streams>,
    context: &'static str,
) -> (t: Tape)
    requires
        at(k, s, pubpath(k, i, rest)),
    ensures
        gives(reader::pubpath_at(s, context), k.pubpaths[i as int], t),
        at(k, t, rest),
{
    lemma_some(k, s, pubpath(k, i, rest));
    let t = law_uint32(k, s, i, rest, context);
    lemma_some(k, t, rest);
    t
}

/// A blob of bytes after its length.
pub open spec fn blob(v: Seq<u8>, rest: Option<Streams>) -> Option<Streams> {
    if v.len() <= u32::MAX {
        uint32(v.len() as u32, raw(v, rest))
    } else {
        None
    }
}

pub proof fn law_blob(
    k: Setting,
    s: Tape,
    v: Seq<u8>,
    rest: Option<Streams>,
    context: &'static str,
) -> (t: Tape)
    requires
        at(k, s, blob(v, rest)),
    ensures
        gives(reader::byte_memory_at(s, context), v, t),
        at(k, t, rest),
{
    lemma_some(k, s, blob(v, rest));
    let s = law_uint32(k, s, v.len() as u32, raw(v, rest), context);
    lemma_raw(k, s, v, rest);
    s.advance(v.len())
}

/// A string as UTF-8 after its length.
pub proof fn law_string_raw(
    k: Setting,
    s: Tape,
    v: Seq<char>,
    rest: Option<Streams>,
    context: &'static str,
) -> (t: Tape)
    requires
        at(k, s, blob(vstd::utf8::encode_utf8(v), rest)),
    ensures
        gives(reader::string_raw_at(s, context), v, t),
        at(k, t, rest),
{
    vstd::utf8::encode_utf8_valid_utf8(v);
    vstd::utf8::encode_utf8_decode_utf8(v);
    law_blob(k, s, vstd::utf8::encode_utf8(v), rest, context)
}

/// The length of a list in front of its elements, which take no less than a byte each.
pub open spec fn count(n: nat, rest: Option<Streams>) -> Option<Streams> {
    if rest is Some && n <= rest->0.a.len() && n <= u32::MAX {
        uint32(n as u32, rest)
    } else {
        None
    }
}

pub proof fn law_count(
    k: Setting,
    s: Tape,
    n: nat,
    rest: Option<Streams>,
    context: &'static str,
) -> (t: Tape)
    requires
        at(k, s, count(n, rest)),
    ensures
        n <= u32::MAX,
        gives(reader::array_len_at(s, context), n as usize, t),
        at(k, t, rest),
{
    lemma_some(k, s, count(n, rest));
    let t = law_uint32(k, s, n as u32, rest, context);
    lemma_some(k, t, rest);
    t
}

/// Elements in a row.
pub open spec fn elements<V>(
    vs: Seq<V>,
    one: spec_fn(V, Option<Streams>) -> Option<Streams>,
    rest: Option<Streams>,
) -> Option<Streams>
    decreases vs.len(),
{
    if vs.len() == 0 {
        rest
    } else {
        one(vs[0], elements(vs.drop_first(), one, rest))
    }
}

/// A list after its length.
pub open spec fn list<V>(
    vs: Seq<V>,
    one: spec_fn(V, Option<Streams>) -> Option<Streams>,
    rest: Option<Streams>,
) -> Option<Streams> {
    count(vs.len(), elements(vs, one, rest))
}

/// `step` reads back what `one` writes.
pub open spec fn reads_back<V>(
    k: Setting,
    one: spec_fn(V, Option<Streams>) -> Option<Streams>,
    step: spec_fn(Tape) -> Decoded<V>,
) -> bool {
    forall|s: Tape, v: V, rest: Option<Streams>| #[trigger]
        at(k, s, one(v, rest)) ==> step(s) is Ok && step(s)->Ok_0.0 == v && at(
            k,
            step(s)->Ok_0.1,
            rest,
        )
}

/// The first `n` elements are read back.
proof fn lemma_elements<V>(
    k: Setting,
    s: Tape,
    vs: Seq<V>,
    one: spec_fn(V, Option<Streams>) -> Option<Streams>,
    rest: Option<Streams>,
    step: spec_fn(Tape) -> Decoded<V>,
    n: nat,
) -> (t: Tape)
    requires
        at(k, s, elements(vs, one, rest)),
        reads_back(k, one, step),
        n <= vs.len(),
    ensures
        gives(reader::elements_at(s, n, step), vs.take(n as int), t),
        at(k, t, elements(vs.skip(n as int), one, rest)),
    decreases n,
{
    if n == 0 {
        assert(vs.take(0) =~= Seq::empty());
        assert(vs.skip(0) =~= vs);
        s
    } else {
        let m = (n - 1) as nat;
        let t = lemma_elements(k, s, vs, one, rest, step, m);
        let left = vs.skip(m as int);
        assert(left[0] == vs[m as int]);
        assert(left.drop_first() =~= vs.skip(n as int));
        assert(at(k, t, one(left[0], elements(left.drop_first(), one, rest))));
        assert(vs.take(m as int).push(vs[m as int]) =~= vs.take(n as int));
        step(t)->Ok_0.1
    }
}

pub proof fn law_list<V>(
    k: Setting,
    s: Tape,
    vs: Seq<V>,
    one: spec_fn(V, Option<Streams>) -> Option<Streams>,
    rest: Option<Streams>,
    context: &'static str,
    step: spec_fn(Tape) -> Decoded<V>,
) -> (t: Tape)
    requires
        at(k, s, list(vs, one, rest)),
        reads_back(k, one, step),
    ensures
        gives(reader::array_at(s, context, step), vs, t),
        at(k, t, rest),
{
    let s = law_count(k, s, vs.len(), elements(vs, one, rest), context);
    let t = lemma_elements(k, s, vs, one, rest, step, vs.len());
    assert(vs.take(vs.len() as int) =~= vs);
    assert(vs.skip(vs.len() as int).len() == 0);
    t
}

/// Something that may be absent: a byte `1` in front of it, or a byte `0`.
pub open spec fn option<V>(
    v: Option<V>,
    one: spec_fn(V, Option<Streams>) -> Option<Streams>,
    rest: Option<Streams>,
) -> Option<Streams> {
    match v {
        None => byte(0, rest),
        Some(v) => byte(1, one(v, rest)),
    }
}

pub proof fn law_option<V>(
    k: Setting,
    s: Tape,
    v: Option<V>,
    one: spec_fn(V, Option<Streams>) -> Option<Streams>,
    rest: Option<Streams>,
    context: &'static str,
    step: spec_fn(Tape) -> Decoded<V>,
) -> (t: Tape)
    requires
        at(k, s, option(v, one, rest)),
        reads_back(k, one, step),
    ensures
        gives(reader::option_at(s, context, step), v, t),
        at(k, t, rest),
{
    match v {
        None => law_byte(k, s, 0, rest, context),
        Some(v) => {
            let s = law_byte(k, s, 1, one(v, rest), context);
            assert(at(k, s, one(v, rest)));
            step(s)->Ok_0.1
        },
    }
}

/// The frame of a later extension: as an optional thing, with a zero byte after it.
pub open spec fn framed<V>(
    v: Option<V>,
    one: spec_fn(V, Option<Streams>) -> Option<Streams>,
    rest: Option<Streams>,
) -> Option<Streams> {
    match v {
        None => byte(0, rest),
        Some(v) => byte(1, one(v, byte(0, rest))),
    }
}

pub proof fn law_framed<V>(
    k: Setting,
    s: Tape,
    v: Option<V>,
    one: spec_fn(V, Option<Streams>) -> Option<Streams>,
    rest: Option<Streams>,
    context: &'static str,
    step: spec_fn(Tape) -> Decoded<V>,
) -> (t: Tape)
    requires
        at(k, s, framed(v, one, rest)),
        reads_back(k, one, step),
    ensures
        gives(reader::used_space1_at(s, context, step), v, t),
        at(k, t, rest),
{
    match v {
        None => law_byte(k, s, 0, rest, context),
        Some(v) => {
            let s = law_byte(k, s, 1, one(v, byte(0, rest)), context);
            assert(at(k, s, one(v, byte(0, rest))));
            reveal_with_fuel(reader::zeros_at, 2);
            law_byte(k, step(s)->Ok_0.1, 0, rest, context)
        },
    }
}

/// A position: its line, then its column.
pub open spec fn pos(v: PickledPos, rest: Option<Streams>) -> Option<Streams> {
    uint32(v.line, uint32(v.column, rest))
}

pub proof fn law_pos(k: Setting, s: Tape, v: PickledPos, rest: Option<Streams>) -> (t: Tape)
    requires
        at(k, s, pos(v, rest)),
    ensures
        gives(leaves::pos_at(s), v, t),
        at(k, t, rest),
{
    let s = law_uint32(k, s, v.line, uint32(v.column, rest), "u_pos line");
    law_uint32(k, s, v.column, rest, "u_pos column")
}

/// A range: the string index of its file, its start, its end.
pub open spec fn range(k: Setting, v: PickledRange, rest: Option<Streams>) -> Option<Streams> {
    string_index(k, v.file, pos(v.start, pos(v.end, rest)))
}

pub proof fn law_range(k: Setting, s: Tape, v: PickledRange, rest: Option<Streams>) -> (t: Tape)
    requires
        at(k, s, range(k, v, rest)),
    ensures
        gives(leaves::range_at(s), v, t),
        at(k, t, rest),
{
    let s = law_string_index(k, s, v.file, pos(v.start, pos(v.end, rest)), "u_range file");
    let s = law_pos(k, s, v.start, pos(v.end, rest));
    law_pos(k, s, v.end, rest)
}

/// An identifier: its name, then its range.
pub open spec fn ident(k: Setting, v: PickledIdentModel, rest: Option<Streams>) -> Option<
    Streams,
> {
    string(k, v.name, range(k, v.range, rest))
}

pub proof fn law_ident(k: Setting, s: Tape, v: PickledIdentModel, rest: Option<Streams>) -> (t:
    Tape)
    requires
        at(k, s, ident(k, v, rest)),
    ensures
        gives(leaves::ident_at(s), v, t),
        at(k, t, rest),
{
    let s = law_string(k, s, v.name, range(k, v.range, rest), "u_ident name");
    law_range(k, s, v.range, rest)
}

/// Strings by their indices, one after another, after their number.
pub open spec fn strings(k: Setting, v: Seq<Seq<char>>, rest: Option<Streams>) -> Option<Streams> {
    list(v, |x: Seq<char>, rest: Option<Streams>| string(k, x, rest), rest)
}

pub proof fn law_strings(
    k: Setting,
    s: Tape,
    v: Seq<Seq<char>>,
    rest: Option<Streams>,
    context: &'static str,
    body: &'static str,
) -> (t: Tape)
    requires
        at(k, s, strings(k, v, rest)),
    ensures
        gives(reader::array_at(s, context, |s: Tape| reader::string_at(s, body)), v, t),
        at(k, t, rest),
{
    let one = |x: Seq<char>, rest: Option<Streams>| string(k, x, rest);
    let step = |s: Tape| reader::string_at(s, body);
    assert forall|s: Tape, x: Seq<char>, rest: Option<Streams>| #[trigger]
        at(k, s, one(x, rest)) implies step(s) is Ok && step(s)->Ok_0.0 == x && at(
        k,
        step(s)->Ok_0.1,
        rest,
    ) by {
        law_string(k, s, x, rest, body);
    }
    law_list(k, s, v, one, rest, context, step)
}

/// Documentation: its lines.
pub open spec fn xmldoc(k: Setting, v: PickledXmlDocModel, rest: Option<Streams>) -> Option<
    Streams,
> {
    strings(k, v.lines, rest)
}

pub proof fn law_xmldoc(k: Setting, s: Tape, v: PickledXmlDocModel, rest: Option<Streams>) -> (t:
    Tape)
    requires
        at(k, s, xmldoc(k, v, rest)),
    ensures
        gives(leaves::xmldoc_at(s), v, t),
        at(k, t, rest),
{
    law_strings(k, s, v.lines, rest, "u_xmldoc lines", "u_xmldoc line")
}

/// The kind of a type parameter: a byte `0` for types, `1` for measures.
pub open spec fn kind(v: TyparKind, rest: Option<Streams>) -> Option<Streams> {
    match v {
        TyparKind::Type => byte(0, rest),
        TyparKind::Measure => byte(1, rest),
    }
}

pub proof fn law_kind(k: Setting, s: Tape, v: TyparKind, rest: Option<Streams>) -> (t: Tape)
    requires
        at(k, s, kind(v, rest)),
    ensures
        gives(leaves::kind_at(s), v, t),
        at(k, t, rest),
{
    match v {
        TyparKind::Type => law_byte(k, s, 0, rest, "u_kind tag"),
        TyparKind::Measure => law_byte(k, s, 1, rest, "u_kind tag"),
    }
}

/// What a fragment of a path is: a byte.
pub open spec fn istype(v: IsType, rest: Option<Streams>) -> Option<Streams> {
    match v {
        IsType::FSharpModuleWithSuffix => byte(0, rest),
        IsType::ModuleOrType => byte(1, rest),
        IsType::Namespace => byte(2, rest),
    }
}

pub proof fn law_istype(k: Setting, s: Tape, v: IsType, rest: Option<Streams>) -> (t: Tape)
    requires
        at(k, s, istype(v, rest)),
    ensures
        gives(leaves::istype_at(s), v, t),
        at(k, t, rest),
{
    match v {
        IsType::FSharpModuleWithSuffix => law_byte(k, s, 0, rest, "u_istype tag"),
        IsType::ModuleOrType => law_byte(k, s, 1, rest, "u_istype tag"),
        IsType::Namespace => law_byte(k, s, 2, rest, "u_istype tag"),
    }
}

/// The local scope.
pub open spec fn scope(v: PickledILScopeRef, rest: Option<Streams>) -> Option<Streams> {
    match v {
        PickledILScopeRef::Local => byte(0, rest),
    }
}

pub proof fn law_scope(k: Setting, s: Tape, v: PickledILScopeRef, rest: Option<Streams>) -> (t:
    Tape)
    requires
        at(k, s, scope(v, rest)),
    ensures
        gives(leaves::scope_at(s), v, t),
        at(k, t, rest),
{
    law_byte(k, s, 0, rest, "u_ILScopeRef tag")
}

/// A fragment of a path: its name, then what it is.
pub open spec fn fragment(k: Setting, v: (Seq<char>, IsType), rest: Option<Streams>) -> Option<
    Streams,
> {
    string(k, v.0, istype(v.1, rest))
}

pub proof fn law_fragment(
    k: Setting,
    s: Tape,
    v: (Seq<char>, IsType),
    rest: Option<Streams>,
) -> (t: Tape)
    requires
        at(k, s, fragment(k, v, rest)),
    ensures
        gives(leaves::fragment_at(s), v, t),
        at(k, t, rest),
{
    let s = law_string(k, s, v.0, istype(v.1, rest), "u_cpath fragment");
    law_istype(k, s, v.1, rest)
}

/// A compilation path: its scope, then its fragments.
pub open spec fn cpath(k: Setting, v: PickledCPathModel, rest: Option<Streams>) -> Option<
    Streams,
> {
    scope(
        v.scope,
        list(v.path, |x: (Seq<char>, IsType), rest: Option<Streams>| fragment(k, x, rest), rest),
    )
}

pub proof fn law_cpath(k: Setting, s: Tape, v: PickledCPathModel, rest: Option<Streams>) -> (t:
    Tape)
    requires
        at(k, s, cpath(k, v, rest)),
    ensures
        gives(leaves::cpath_at(s), v, t),
        at(k, t, rest),
{
    let one = |x: (Seq<char>, IsType), rest: Option<Streams>| fragment(k, x, rest);
    let step = |s: Tape| leaves::fragment_at(s);
    let s = law_scope(k, s, v.scope, list(v.path, one, rest));
    assert forall|s: Tape, x: (Seq<char>, IsType), rest: Option<Streams>| #[trigger]
        at(k, s, one(x, rest)) implies step(s) is Ok && step(s)->Ok_0.0 == x && at(
        k,
        step(s)->Ok_0.1,
        rest,
    ) by {
        law_fragment(k, s, x, rest);
    }
    law_list(k, s, v.path, one, rest, "u_cpath path", step)
}

/// An accessibility: the paths that it restricts to.
pub open spec fn access(k: Setting, v: Seq<PickledCPathModel>, rest: Option<Streams>) -> Option<
    Streams,
> {
    list(v, |x: PickledCPathModel, rest: Option<Streams>| cpath(k, x, rest), rest)
}

pub proof fn law_access(
    k: Setting,
    s: Tape,
    v: Seq<PickledCPathModel>,
    rest: Option<Streams>,
) -> (t: Tape)
    requires
        at(k, s, access(k, v, rest)),
    ensures
        gives(leaves::access_at(s), v, t),
        at(k, t, rest),
{
    let one = |x: PickledCPathModel, rest: Option<Streams>| cpath(k, x, rest);
    let step = |s: Tape| leaves::cpath_at(s);
    assert forall|s: Tape, x: PickledCPathModel, rest: Option<Streams>| #[trigger]
        at(k, s, one(x, rest)) implies step(s) is Ok && step(s)->Ok_0.0 == x && at(
        k,
        step(s)->Ok_0.1,
        rest,
    ) by {
        law_cpath(k, s, x, rest);
    }
    law_list(k, s, v, one, rest, "u_access paths", step)
}

/// A constant: a tag byte, then its value.
pub open spec fn literal(k: Setting, v: PickledConstModel, rest: Option<Streams>) -> Option<
    Streams,
> {
    match v {
        PickledConstModel::Bool(x) => byte(0, boolean(x, rest)),
        PickledConstModel::SByte(x) => byte(1, int32(x, rest)),
        PickledConstModel::Byte(x) => byte(2, byte(x, rest)),
        PickledConstModel::Int16(x) => byte(3, int32(x, rest)),
        PickledConstModel::UInt16(x) => byte(4, int32(x, rest)),
        PickledConstModel::Int32(x) => byte(5, int32(x, rest)),
        PickledConstModel::UInt32(x) => byte(6, uint32(x, rest)),
        PickledConstModel::Int64(x) => byte(7, int64(x, rest)),
        PickledConstModel::UInt64(x) => byte(8, int64(x, rest)),
        PickledConstModel::IntPtr(x) => byte(9, int64(x, rest)),
        PickledConstModel::UIntPtr(x) => byte(10, int64(x, rest)),
        PickledConstModel::Single(x) => byte(11, int32(x, rest)),
        PickledConstModel::Double(x) => byte(12, int64(x, rest)),
        PickledConstModel::Char(x) => byte(13, int32(x, rest)),
        PickledConstModel::String(x) => byte(14, string(k, x, rest)),
        PickledConstModel::Unit => byte(15, rest),
        PickledConstModel::Zero => byte(16, rest),
        PickledConstModel::Decimal(x) => byte(
            17,
            list(x, |y: i32, rest: Option<Streams>| int32(y, rest), rest),
        ),
    }
}

pub proof fn law_literal(k: Setting, s: Tape, v: PickledConstModel, rest: Option<Streams>) -> (t:
    Tape)
    requires
        at(k, s, literal(k, v, rest)),
    ensures
        gives(leaves::const_at(s), v, t),
        at(k, t, rest),
{
    let c = "u_const tag";
    match v {
        PickledConstModel::Bool(x) => {
            let s = law_byte(k, s, 0, boolean(x, rest), c);
            law_boolean(k, s, x, rest, "u_const bool")
        },
        PickledConstModel::SByte(x) => {
            let s = law_byte(k, s, 1, int32(x, rest), c);
            law_int32(k, s, x, rest, "u_const int32")
        },
        PickledConstModel::Byte(x) => {
            let s = law_byte(k, s, 2, byte(x, rest), c);
            law_byte(k, s, x, rest, "u_const byte")
        },
        PickledConstModel::Int16(x) => {
            let s = law_byte(k, s, 3, int32(x, rest), c);
            law_int32(k, s, x, rest, "u_const int32")
        },
        PickledConstModel::UInt16(x) => {
            let s = law_byte(k, s, 4, int32(x, rest), c);
            law_int32(k, s, x, rest, "u_const int32")
        },
        PickledConstModel::Int32(x) => {
            let s = law_byte(k, s, 5, int32(x, rest), c);
            law_int32(k, s, x, rest, "u_const int32")
        },
        PickledConstModel::UInt32(x) => {
            let s = law_byte(k, s, 6, uint32(x, rest), c);
            law_uint32(k, s, x, rest, "u_const uint32")
        },
        PickledConstModel::Int64(x) => {
            let s = law_byte(k, s, 7, int64(x, rest), c);
            law_int64(k, s, x, rest, "u_const int64")
        },
        PickledConstModel::UInt64(x) => {
            let s = law_byte(k, s, 8, int64(x, rest), c);
            law_int64(k, s, x, rest, "u_const int64")
        },
        PickledConstModel::IntPtr(x) => {
            let s = law_byte(k, s, 9, int64(x, rest), c);
            law_int64(k, s, x, rest, "u_const int64")
        },
        PickledConstModel::UIntPtr(x) => {
            let s = law_byte(k, s, 10, int64(x, rest), c);
            law_int64(k, s, x, rest, "u_const int64")
        },
        PickledConstModel::Single(x) => {
            let s = law_byte(k, s, 11, int32(x, rest), c);
            law_int32(k, s, x, rest, "u_const int32")
        },
        PickledConstModel::Double(x) => {
            let s = law_byte(k, s, 12, int64(x, rest), c);
            law_int64(k, s, x, rest, "u_const int64")
        },
        PickledConstModel::Char(x) => {
            let s = law_byte(k, s, 13, int32(x, rest), c);
            law_int32(k, s, x, rest, "u_const int32")
        },
        PickledConstModel::String(x) => {
            let s = law_byte(k, s, 14, string(k, x, rest), c);
            law_string(k, s, x, rest, "u_const string")
        },
        PickledConstModel::Unit => law_byte(k, s, 15, rest, c),
        PickledConstModel::Zero => law_byte(k, s, 16, rest, c),
        PickledConstModel::Decimal(x) => {
            let one = |y: i32, rest: Option<Streams>| int32(y, rest);
            let step = |s: Tape| reader::int32_at(s, "u_const decimal word");
            let s = law_byte(k, s, 17, list(x, one, rest), c);
            assert forall|s: Tape, y: i32, rest: Option<Streams>| #[trigger]
                at(k, s, one(y, rest)) implies step(s) is Ok && step(s)->Ok_0.0 == y && at(
                k,
                step(s)->Ok_0.1,
                rest,
            ) by {
                law_int32(k, s, y, rest, "u_const decimal word");
            }
            law_list(k, s, x, one, rest, "u_const decimal", step)
        },
    }
}

/// A reference to an IL type: its scope, the names of the types around it, its name.
pub open spec fn il_type_ref(
    k: Setting,
    v: PickledILTypeRefModel,
    rest: Option<Streams>,
) -> Option<Streams> {
    scope(v.scope, strings(k, v.enclosing, string(k, v.name, rest)))
}

pub proof fn law_il_type_ref(
    k: Setting,
    s: Tape,
    v: PickledILTypeRefModel,
    rest: Option<Streams>,
) -> (t: Tape)
    requires
        at(k, s, il_type_ref(k, v, rest)),
    ensures
        gives(leaves::il_type_ref_at(s), v, t),
        at(k, t, rest),
{
    let s = law_scope(k, s, v.scope, strings(k, v.enclosing, string(k, v.name, rest)));
    let s = law_strings(
        k,
        s,
        v.enclosing,
        string(k, v.name, rest),
        "u_ILTypeRef enclosing",
        "u_ILTypeRef enclosing name",
    );
    law_string(k, s, v.name, rest, "u_ILTypeRef name")
}

/// An IL type: void, or a type variable.
pub open spec fn il_type(v: PickledILType, rest: Option<Streams>) -> Option<Streams> {
    match v {
        PickledILType::Void => byte(0, rest),
        PickledILType::TypeVar(i) => byte(7, uint32(i, rest)),
    }
}

pub proof fn law_il_type(k: Setting, s: Tape, v: PickledILType, rest: Option<Streams>) -> (t: Tape)
    requires
        at(k, s, il_type(v, rest)),
    ensures
        gives(leaves::il_type_at(s), v, t),
        at(k, t, rest),
{
    match v {
        PickledILType::Void => law_byte(k, s, 0, rest, "u_ILType tag"),
        PickledILType::TypeVar(i) => {
            let s = law_byte(k, s, 7, uint32(i, rest), "u_ILType tag");
            law_uint32(k, s, i, rest, "u_ILType type variable")
        },
    }
}

} // verus!
