//! Byte-cursor primitives for reading F# pickle streams.
//!
//! The encoding is a compressed integer with three size tiers, plus
//! length-prefixed UTF-8 strings and length-prefixed byte blobs. All other
//! decoders compose these primitives.
//!
//! ### The B stream
//!
//! From F# 9 onwards the signature pickle carries a sibling byte buffer that
//! holds nullness annotations and the tail of the typar constraints. Reads
//! from it never fail: past its end, or without it, every byte is `0`, so that
//! an assembly without a B stream decodes as one with an all-zero B stream.
//!
//! ### The interning tables
//!
//! A string or a public path in the body is an index into a table of the
//! header. The tables are attached with [`PickleReader::attach_tables`]
//! between the header decode and the body decode; reading a string before
//! that is a hard error.
//!
//! ### The model
//!
//! [`Tape`] is what a reader holds, and each primitive has a specification
//! function from the tape before the read to the value and the tape after it,
//! or to the failure.
use crate::error::{Fault, ImportError};
use crate::text::{push_decimal, push_hex_byte, utf8_string};
use vstd::prelude::*;
use vstd::slice::*;
use vstd::string::*;

verus! {

/// Bound on the recursion depth of the body walk, shared by all the
/// self-recursive decoders. A stream can encode one recursion level per byte,
/// so without a bound a small payload would exhaust the native stack.
pub const MAX_RECURSION_DEPTH: u32 = 1024;

/// A cursor over the optional sibling B stream.
#[derive(Clone, Copy)]
struct BCursor<'a> {
    bytes: &'a [u8],
    pos: usize,
}

/// A cursor over a borrowed byte slice, with the sibling B stream and the
/// interning tables. Primitives advance the cursor on success and leave it untouched
/// on failure.
pub struct PickleReader<'a> {
    bytes: &'a [u8],
    pos: usize,
    b: Option<BCursor<'a>>,
    strings: Option<&'a [String]>,
    pubpaths: Option<&'a [Vec<u32>]>,
    depth: u32,
}

/// What a [`PickleReader`] holds. The B stream is empty where there is none.
#[verifier::ext_equal]
pub struct Tape {
    pub bytes: Seq<u8>,
    pub pos: nat,
    pub b_bytes: Seq<u8>,
    pub b_pos: nat,
    pub strings: Option<Seq<Seq<char>>>,
    pub pubpaths: Option<Seq<Seq<u32>>>,
    pub depth: nat,
}

/// The result of a decoder over tapes: the value or the failure, and the tape that it
/// leaves.
pub type Decoded<V> = Result<(V, Tape), (Fault, Tape)>;

impl Tape {
    /// Both cursors lie within their streams, and the depth within its bound.
    pub open spec fn wf(self) -> bool {
        &&& self.pos <= self.bytes.len()
        &&& self.b_pos <= self.b_bytes.len()
        &&& self.depth <= MAX_RECURSION_DEPTH
    }

    /// The bytes that are left in the primary stream.
    pub open spec fn remaining(self) -> nat {
        (self.bytes.len() - self.pos) as nat
    }

    /// The tape with the primary cursor `n` bytes further.
    pub open spec fn advance(self, n: nat) -> Tape {
        Tape { pos: self.pos + n, ..self }
    }

    /// What every decoder leaves as it was: the streams and the tables.
    pub open spec fn same_streams(self, other: Tape) -> bool {
        &&& self.bytes == other.bytes
        &&& self.b_bytes == other.b_bytes
        &&& self.strings == other.strings
        &&& self.pubpaths == other.pubpaths
    }
}

/// `r` is the value or the failure that `want` gives, and `post` the tape that it
/// leaves.
pub open spec fn agrees<T: DeepView>(
    r: Result<T, ImportError>,
    post: Tape,
    want: Decoded<T::V>,
) -> bool {
    match want {
        Ok((v, s)) => r is Ok && r->Ok_0.deep_view() == v && post == s,
        Err((e, s)) => r is Err && r->Err_0.deep_view() == e && post == s,
    }
}

/// The outcome `r` of a primitive on `s`: a failure leaves the tape as it was.
pub open spec fn untouched<V>(s: Tape, r: Decoded<V>) -> Decoded<V> {
    match r {
        Ok(r) => Ok(r),
        Err((e, _)) => Err((e, s)),
    }
}

/// One raw byte.
pub open spec fn byte_at(s: Tape, context: &'static str) -> Decoded<u8> {
    if s.pos < s.bytes.len() {
        Ok((s.bytes[s.pos as int], s.advance(1)))
    } else {
        Err((Fault::UnexpectedEndOfStream { context }, s))
    }
}

/// `n` raw bytes.
pub open spec fn bytes_at(s: Tape, n: nat, context: &'static str) -> Decoded<Seq<u8>> {
    if n <= s.remaining() {
        Ok((s.bytes.subrange(s.pos as int, (s.pos + n) as int), s.advance(n)))
    } else {
        Err((Fault::UnexpectedEndOfStream { context }, s))
    }
}

/// The number that four little-endian bytes stand for.
pub open spec fn le_word(raw: Seq<u8>) -> u32 {
    (raw[0] + 0x100 * raw[1] + 0x1_0000 * raw[2] + 0x100_0000 * raw[3]) as u32
}

/// Four raw little-endian bytes.
pub open spec fn uint32_le_at(s: Tape, context: &'static str) -> Decoded<u32> {
    match bytes_at(s, 4, context) {
        Err(e) => Err(e),
        Ok((raw, s)) => Ok((le_word(raw), s)),
    }
}

/// A compressed integer: a first byte below `0x80` is the value; one in
/// `0x80..=0xBF` gives the high six bits of a fourteen-bit value whose low byte
/// follows; `0xFF` is a marker before four little-endian bytes. The other first
/// bytes are never written.
pub open spec fn uint32_at(s: Tape, context: &'static str) -> Decoded<u32> {
    untouched(
        s,
        match byte_at(s, context) {
            Err(e) => Err(e),
            Ok((b0, s)) => if b0 <= 0x7F {
                Ok((b0 as u32, s))
            } else if b0 <= 0xBF {
                match byte_at(s, context) {
                    Err(e) => Err(e),
                    Ok((b1, s)) => Ok((((b0 - 0x80) * 0x100 + b1) as u32, s)),
                }
            } else if b0 == 0xFF {
                uint32_le_at(s, context)
            } else {
                Err((Fault::UnsupportedPickleTag { context, tag: b0 as u32 }, s))
            },
        },
    )
}

/// The signed number with the bit pattern of `v`.
pub open spec fn signed32(v: u32) -> i32 {
    if v < 0x8000_0000 {
        v as i32
    } else {
        (v - 0x1_0000_0000) as i32
    }
}

/// A compressed integer read as a signed one.
pub open spec fn int32_at(s: Tape, context: &'static str) -> Decoded<i32> {
    match uint32_at(s, context) {
        Err(e) => Err(e),
        Ok((v, s)) => Ok((signed32(v), s)),
    }
}

/// The signed 64-bit number with the low word `lo` and the high word `hi`.
pub open spec fn signed64(lo: u32, hi: u32) -> i64 {
    (signed32(hi) * 0x1_0000_0000 + lo) as i64
}

/// Two compressed words, low then high.
pub open spec fn int64_at(s: Tape, context: &'static str) -> Decoded<i64> {
    untouched(
        s,
        match uint32_at(s, context) {
            Err(e) => Err(e),
            Ok((lo, s)) => match uint32_at(s, context) {
                Err(e) => Err(e),
                Ok((hi, s)) => Ok((signed64(lo, hi), s)),
            },
        },
    )
}

/// One byte, `0` or `1`.
pub open spec fn bool_at(s: Tape, context: &'static str) -> Decoded<bool> {
    untouched(
        s,
        match byte_at(s, context) {
            Err(e) => Err(e),
            Ok((b, s)) => if b <= 1 {
                Ok((b == 1, s))
            } else {
                Err((Fault::UnsupportedPickleTag { context, tag: b as u32 }, s))
            },
        },
    )
}

/// A length-prefixed byte blob.
pub open spec fn byte_memory_at(s: Tape, context: &'static str) -> Decoded<Seq<u8>> {
    untouched(
        s,
        match uint32_at(s, context) {
            Err(e) => Err(e),
            Ok((len, s)) => bytes_at(s, len as nat, context),
        },
    )
}

/// A length-prefixed UTF-8 string.
pub open spec fn string_raw_at(s: Tape, context: &'static str) -> Decoded<Seq<char>> {
    untouched(
        s,
        match byte_memory_at(s, context) {
            Err(e) => Err(e),
            Ok((raw, s)) => if vstd::utf8::valid_utf8(raw) {
                Ok((vstd::utf8::decode_utf8(raw), s))
            } else {
                Err(
                    (
                        Fault::MalformedPickleHeader {
                            detail: "invalid UTF-8 in "@ + context@ + ": "@
                                + crate::text::utf8_error_text(raw),
                        },
                        s,
                    ),
                )
            },
        },
    )
}

/// The failure of a list whose announced length cannot fit.
pub open spec fn list_too_long(
    context: &'static str,
    what: &'static str,
    n: nat,
    remaining: nat,
) -> Fault {
    Fault::MalformedPickleHeader {
        detail: context@ + what@ + crate::text::decimal(n) + " exceeds remaining bytes "@
            + crate::text::decimal(remaining),
    }
}

/// The length prefix of a list: every element takes at least one byte, so a
/// length above the bytes that are left is refused.
pub open spec fn array_len_at(s: Tape, context: &'static str) -> Decoded<usize> {
    untouched(
        s,
        match uint32_at(s, context) {
            Err(e) => Err(e),
            Ok((n, s)) => if n <= s.remaining() {
                Ok((n as usize, s))
            } else {
                Err((list_too_long(context, ": array length ", n as nat, s.remaining()), s))
            },
        },
    )
}

/// `n` elements in a row, each read by `step`.
pub open spec fn elements_at<V>(s: Tape, n: nat, step: spec_fn(Tape) -> Decoded<V>) -> Decoded<
    Seq<V>,
>
    decreases n,
{
    if n == 0 {
        Ok((Seq::empty(), s))
    } else {
        match elements_at(s, (n - 1) as nat, step) {
            Err(e) => Err(e),
            Ok((vs, s)) => match step(s) {
                Err(e) => Err(e),
                Ok((v, s)) => Ok((vs.push(v), s)),
            },
        }
    }
}

/// A length-prefixed list whose elements are read by `step`.
pub open spec fn array_at<V>(
    s: Tape,
    context: &'static str,
    step: spec_fn(Tape) -> Decoded<V>,
) -> Decoded<Seq<V>> {
    untouched(
        s,
        match array_len_at(s, context) {
            Err(e) => Err(e),
            Ok((n, s)) => elements_at(s, n as nat, step),
        },
    )
}

/// A tag byte `0` or `1`, and after `1` what `step` reads.
pub open spec fn option_at<V>(
    s: Tape,
    context: &'static str,
    step: spec_fn(Tape) -> Decoded<V>,
) -> Decoded<Option<V>> {
    untouched(
        s,
        match byte_at(s, context) {
            Err(e) => Err(e),
            Ok((tag, s)) => if tag == 0 {
                Ok((None, s))
            } else if tag == 1 {
                match step(s) {
                    Err(e) => Err(e),
                    Ok((v, s)) => Ok((Some(v), s)),
                }
            } else {
                Err((Fault::UnsupportedPickleTag { context, tag: tag as u32 }, s))
            },
        },
    )
}

/// `n` zeros in a row.
pub open spec fn zeros_at(s: Tape, n: nat, context: &'static str) -> Decoded<()>
    decreases n,
{
    if n == 0 {
        Ok(((), s))
    } else {
        match byte_at(s, context) {
            Err(e) => Err(e),
            Ok((b, s)) => if b != 0 {
                Err(
                    (
                        Fault::MalformedPickleHeader {
                            detail: context@ + ": reserved-space byte was "@
                                + crate::text::hex_byte(b) + ", expected 0"@,
                        },
                        s,
                    ),
                )
            } else {
                zeros_at(s, (n - 1) as nat, context)
            },
        }
    }
}

/// `n` reserved bytes, each of which must be `0`.
pub open spec fn space_at(s: Tape, n: nat, context: &'static str) -> Decoded<()> {
    untouched(s, zeros_at(s, n, context))
}

/// The frame of a later extension: a tag byte `0` for nothing, or `1` before
/// what `step` reads and one reserved zero byte.
pub open spec fn used_space1_at<V>(
    s: Tape,
    context: &'static str,
    step: spec_fn(Tape) -> Decoded<V>,
) -> Decoded<Option<V>> {
    untouched(
        s,
        match byte_at(s, context) {
            Err(e) => Err(e),
            Ok((tag, s)) => if tag == 0 {
                Ok((None, s))
            } else if tag == 1 {
                match step(s) {
                    Err(e) => Err(e),
                    Ok((v, s)) => match space_at(s, 1, context) {
                        Err(e) => Err(e),
                        Ok((_, s)) => Ok((Some(v), s)),
                    },
                }
            } else {
                Err(
                    (
                        Fault::MalformedPickleHeader {
                            detail: context@ + ": u_used_space1 unexpected tag "@
                                + crate::text::hex_byte(tag) + " (expected 0 or 1)"@,
                        },
                        s,
                    ),
                )
            },
        },
    )
}

/// The failure of reading a string before the tables are attached.
pub open spec fn not_attached(context: &'static str, what: &'static str) -> Fault {
    Fault::MalformedPickleHeader { detail: context@ + what@ }
}

/// An index into the strings table, checked against its length.
pub open spec fn string_index_at(s: Tape, context: &'static str) -> Decoded<u32> {
    untouched(
        s,
        match uint32_at(s, context) {
            Err(e) => Err(e),
            Ok((idx, s)) => match s.strings {
                None => Err((not_attached(context, ": strings table not attached"), s)),
                Some(table) => if idx < table.len() {
                    Ok((idx, s))
                } else {
                    Err((Fault::DanglingPickleRef { kind: "string", index: idx }, s))
                },
            },
        },
    )
}

/// A string, by its index into the strings table.
pub open spec fn string_at(s: Tape, context: &'static str) -> Decoded<Seq<char>> {
    match string_index_at(s, context) {
        Err(e) => Err(e),
        Ok((idx, s)) => Ok((s.strings->0[idx as int], s)),
    }
}

/// A public path, by its index into the pubpaths table.
pub open spec fn pubpath_at(s: Tape, context: &'static str) -> Decoded<Seq<u32>> {
    untouched(
        s,
        match uint32_at(s, context) {
            Err(e) => Err(e),
            Ok((idx, s)) => match s.pubpaths {
                None => Err((not_attached(context, ": pubpaths table not attached"), s)),
                Some(table) => if idx < table.len() {
                    Ok((table[idx as int], s))
                } else {
                    Err((Fault::DanglingPickleRef { kind: "pubpath", index: idx }, s))
                },
            },
        },
    )
}

/// The next byte of the B stream, `0` past its end.
pub open spec fn peek_b(s: Tape) -> u8 {
    if s.b_pos < s.b_bytes.len() {
        s.b_bytes[s.b_pos as int]
    } else {
        0
    }
}

/// The tape after one byte of the B stream.
pub open spec fn skip_b(s: Tape) -> Tape {
    if s.b_pos < s.b_bytes.len() {
        Tape { b_pos: s.b_pos + 1, ..s }
    } else {
        s
    }
}

/// A compressed integer of the B stream, with the tape after it. Any first byte
/// above `0xBF` is a marker before four little-endian bytes.
pub open spec fn uint32_b_at(s: Tape) -> (u32, Tape) {
    let b0 = peek_b(s);
    let s1 = skip_b(s);
    if b0 <= 0x7F {
        (b0 as u32, s1)
    } else if b0 <= 0xBF {
        (((b0 - 0x80) * 0x100 + peek_b(s1)) as u32, skip_b(s1))
    } else {
        let s2 = skip_b(s1);
        let s3 = skip_b(s2);
        let s4 = skip_b(s3);
        (le_word(seq![peek_b(s1), peek_b(s2), peek_b(s3), peek_b(s4)]), skip_b(s4))
    }
}

/// The tape one recursion level deeper, unless the bound is reached.
pub open spec fn enter_at(s: Tape, context: &'static str) -> Decoded<()> {
    if s.depth < MAX_RECURSION_DEPTH {
        Ok(((), Tape { depth: s.depth + 1, ..s }))
    } else {
        Err((Fault::PickleRecursionLimitExceeded { context, limit: MAX_RECURSION_DEPTH }, s))
    }
}

/// The tape one recursion level up.
pub open spec fn exit_at(s: Tape) -> Tape {
    Tape { depth: (s.depth - 1) as nat, ..s }
}

/// The failure of bytes that are left where the stream had to end.
pub open spec fn trailing(
    context: &'static str,
    left: nat,
    what: &'static str,
    pos: nat,
    len: nat,
) -> Fault {
    Fault::MalformedPickleHeader {
        detail: context@ + ": "@ + crate::text::decimal(left) + what@ + crate::text::decimal(pos)
            + "/"@ + crate::text::decimal(len) + ")"@,
    }
}

/// Reading more elements after a failed one changes nothing.
pub proof fn lemma_elements_fail<V>(
    s: Tape,
    m: nat,
    n: nat,
    step: spec_fn(Tape) -> Decoded<V>,
)
    requires
        m <= n,
        elements_at(s, m, step) is Err,
    ensures
        elements_at(s, n, step) == elements_at(s, m, step),
    decreases n - m,
{
    if m < n {
        lemma_elements_fail(s, m, (n - 1) as nat, step);
    }
}

/// A `MalformedPickleHeader` that names the context and the fault.
fn malformed(context: &'static str, what: &'static str) -> (r: ImportError)
    ensures
        r.deep_view() == not_attached(context, what),
{
    let mut detail = context.to_owned();
    detail.append(what);
    ImportError::MalformedPickleHeader { detail }
}

/// The failure of a list whose announced length cannot fit.
pub fn too_long(context: &'static str, what: &'static str, n: usize, remaining: usize) -> (r:
    ImportError)
    ensures
        r.deep_view() == list_too_long(context, what, n as nat, remaining as nat),
{
    let mut detail = context.to_owned();
    detail.append(what);
    push_decimal(&mut detail, n as u64);
    detail.append(" exceeds remaining bytes ");
    push_decimal(&mut detail, remaining as u64);
    ImportError::MalformedPickleHeader { detail }
}

/// The failure of bytes that are left where the stream had to end.
fn trailing_bytes(
    context: &'static str,
    left: usize,
    what: &'static str,
    pos: usize,
    len: usize,
) -> (r: ImportError)
    ensures
        r.deep_view() == trailing(context, left as nat, what, pos as nat, len as nat),
{
    let mut detail = context.to_owned();
    detail.append(": ");
    push_decimal(&mut detail, left as u64);
    detail.append(what);
    push_decimal(&mut detail, pos as u64);
    detail.append("/");
    push_decimal(&mut detail, len as u64);
    detail.append(")");
    ImportError::MalformedPickleHeader { detail }
}

impl<'a> View for PickleReader<'a> {
    type V = Tape;

    closed spec fn view(&self) -> Tape {
        Tape {
            bytes: self.bytes@,
            pos: self.pos as nat,
            b_bytes: match self.b {
                Some(c) => c.bytes@,
                None => Seq::empty(),
            },
            b_pos: match self.b {
                Some(c) => c.pos as nat,
                None => 0,
            },
            strings: match self.strings {
                Some(t) => Some(t.deep_view()),
                None => None,
            },
            pubpaths: match self.pubpaths {
                Some(t) => Some(t.deep_view()),
                None => None,
            },
            depth: self.depth as nat,
        }
    }
}

impl<'a> PickleReader<'a> {
    /// A reader of `bytes` without a B stream.
    pub fn new(bytes: &'a [u8]) -> (r: Self)
        ensures
            r@.wf(),
            r@ == (Tape {
                bytes: bytes@,
                pos: 0,
                b_bytes: Seq::empty(),
                b_pos: 0,
                strings: None,
                pubpaths: None,
                depth: 0,
            }),
    {
        Self::new_dual(bytes, None)
    }

    /// A reader of `bytes` and of the B stream, where there is one.
    pub fn new_dual(bytes: &'a [u8], b: Option<&'a [u8]>) -> (r: Self)
        ensures
            r@.wf(),
            r@ == (Tape {
                bytes: bytes@,
                pos: 0,
                b_bytes: match b {
                    Some(bs) => bs@,
                    None => Seq::empty(),
                },
                b_pos: 0,
                strings: None,
                pubpaths: None,
                depth: 0,
            }),
    {
        PickleReader {
            bytes,
            pos: 0,
            b: match b {
                Some(bs) => Some(BCursor { bytes: bs, pos: 0 }),
                None => None,
            },
            strings: None,
            pubpaths: None,
            depth: 0,
        }
    }

    /// Enter one level of decoder recursion. Every success is paired with one
    /// [`exit_recursion`](Self::exit_recursion).
    pub fn enter_recursion(&mut self, context: &'static str) -> (r: Result<(), ImportError>)
        requires
            old(self)@.wf(),
        ensures
            final(self)@.wf(),
            agrees(r, final(self)@, enter_at(old(self)@, context)),
            r is Err ==> final(self)@ == old(self)@,
    {
        if self.depth >= MAX_RECURSION_DEPTH {
            return Err(
                ImportError::PickleRecursionLimitExceeded { context, limit: MAX_RECURSION_DEPTH },
            );
        }
        self.depth = self.depth + 1;
        Ok(())
    }

    /// Leave one level of decoder recursion.
    pub fn exit_recursion(&mut self)
        requires
            old(self)@.wf(),
            old(self)@.depth > 0,
        ensures
            final(self)@.wf(),
            final(self)@ == exit_at(old(self)@),
    {
        self.depth = self.depth - 1;
    }

    /// Attach the interning tables that strings and public paths are read
    /// through.
    pub fn attach_tables(&mut self, strings: &'a [String], pubpaths: &'a [Vec<u32>])
        requires
            old(self)@.wf(),
        ensures
            final(self)@.wf(),
            final(self)@ == (Tape {
                strings: Some(strings.deep_view()),
                pubpaths: Some(pubpaths.deep_view()),
                ..old(self)@
            }),
    {
        self.strings = Some(strings);
        self.pubpaths = Some(pubpaths);
    }

    /// The position of the primary cursor.
    pub fn pos(&self) -> (r: usize)
        ensures
            r == self@.pos,
    {
        self.pos
    }

    /// The bytes that are left in the primary stream.
    pub fn remaining(&self) -> (r: usize)
        requires
            self@.wf(),
        ensures
            r == self@.remaining(),
    {
        self.bytes.len() - self.pos
    }

    /// The length of the primary stream.
    pub fn total_len(&self) -> (r: usize)
        ensures
            r == self@.bytes.len(),
    {
        self.bytes.len()
    }

    /// The bytes that are left in the B stream.
    pub fn b_remaining(&self) -> (r: usize)
        requires
            self@.wf(),
        ensures
            r == self@.b_bytes.len() - self@.b_pos,
    {
        match &self.b {
            Some(c) => c.bytes.len() - c.pos,
            None => 0,
        }
    }

    /// Whether the primary cursor is at the end.
    pub fn is_eof(&self) -> (r: bool)
        ensures
            r == (self@.pos >= self@.bytes.len()),
    {
        self.pos >= self.bytes.len()
    }

    /// A copy of the reader, to go back to.
    fn saved(&self) -> (r: PickleReader<'a>)
        ensures
            r == *self,
    {
        PickleReader {
            bytes: self.bytes,
            pos: self.pos,
            b: self.b,
            strings: self.strings,
            pubpaths: self.pubpaths,
            depth: self.depth,
        }
    }

    /// The outcome `r`; where it is a failure, the reader goes back to `start`.
    fn or_back<T>(&mut self, start: PickleReader<'a>, r: Result<T, ImportError>) -> (out: Result<
        T,
        ImportError,
    >)
        ensures
            out == r,
            *final(self) == (if r is Ok {
                *old(self)
            } else {
                start
            }),
    {
        if r.is_err() {
            *self = start;
        }
        r
    }

    /// Read one raw byte.
    pub fn read_byte(&mut self, context: &'static str) -> (r: Result<u8, ImportError>)
        requires
            old(self)@.wf(),
        ensures
            final(self)@.wf(),
            agrees(r, final(self)@, byte_at(old(self)@, context)),
            r is Err ==> final(self)@ == old(self)@,
    {
        if self.pos >= self.bytes.len() {
            return Err(ImportError::UnexpectedEndOfStream { context });
        }
        let b: u8 = self.bytes[self.pos];
        self.pos = self.pos + 1;
        Ok(b)
    }

    /// Read `n` raw bytes without copying them.
    pub fn read_bytes(&mut self, n: usize, context: &'static str) -> (r: Result<
        &'a [u8],
        ImportError,
    >)
        requires
            old(self)@.wf(),
        ensures
            final(self)@.wf(),
            match bytes_at(old(self)@, n as nat, context) {
                Ok((v, s)) => r is Ok && r->Ok_0@ == v && final(self)@ == s,
                Err((e, s)) => r is Err && r->Err_0.deep_view() == e && final(self)@ == s,
            },
            r is Err ==> final(self)@ == old(self)@,
    {
        if self.bytes.len() - self.pos < n {
            return Err(ImportError::UnexpectedEndOfStream { context });
        }
        let raw = slice_subrange(self.bytes, self.pos, self.pos + n);
        self.pos = self.pos + n;
        Ok(raw)
    }

    /// Read a compressed unsigned integer.
    pub fn read_uint32(&mut self, context: &'static str) -> (r: Result<u32, ImportError>)
        requires
            old(self)@.wf(),
        ensures
            final(self)@.wf(),
            final(self)@.same_streams(old(self)@),
            final(self)@.depth == old(self)@.depth,
            r is Err ==> final(self)@ == old(self)@,
            agrees(r, final(self)@, uint32_at(old(self)@, context)),
    {
        let start = self.saved();
        let b0: u8 = self.read_byte(context)?;
        let r = if b0 <= 0x7F {
            Ok(b0 as u32)
        } else if b0 <= 0xBF {
            match self.read_byte(context) {
                Ok(b1) => Ok((b0 as u32 - 0x80) * 0x100 + b1 as u32),
                Err(e) => Err(e),
            }
        } else if b0 == 0xFF {
            self.read_uint32_le(context)
        } else {
            Err(ImportError::UnsupportedPickleTag { context, tag: b0 as u32 })
        };
        self.or_back(start, r)
    }

    /// Read a compressed integer as a signed one.
    pub fn read_int32(&mut self, context: &'static str) -> (r: Result<i32, ImportError>)
        requires
            old(self)@.wf(),
        ensures
            final(self)@.wf(),
            final(self)@.same_streams(old(self)@),
            final(self)@.depth == old(self)@.depth,
            r is Err ==> final(self)@ == old(self)@,
            agrees(r, final(self)@, int32_at(old(self)@, context)),
    {
        let v: u32 = self.read_uint32(context)?;
        Ok(signed_word(v))
    }

    /// Read a 64-bit integer: two compressed words, low then high.
    pub fn read_int64(&mut self, context: &'static str) -> (r: Result<i64, ImportError>)
        requires
            old(self)@.wf(),
        ensures
            final(self)@.wf(),
            final(self)@.same_streams(old(self)@),
            final(self)@.depth == old(self)@.depth,
            r is Err ==> final(self)@ == old(self)@,
            agrees(r, final(self)@, int64_at(old(self)@, context)),
    {
        let start = self.saved();
        let lo: u32 = self.read_uint32(context)?;
        let r = match self.read_uint32(context) {
            Ok(hi) => Ok(signed_word(hi) as i64 * 0x1_0000_0000 + lo as i64),
            Err(e) => Err(e),
        };
        self.or_back(start, r)
    }

    /// Read a boolean: one byte, `0` or `1`.
    pub fn read_bool(&mut self, context: &'static str) -> (r: Result<bool, ImportError>)
        requires
            old(self)@.wf(),
        ensures
            final(self)@.wf(),
            final(self)@.same_streams(old(self)@),
            final(self)@.depth == old(self)@.depth,
            r is Err ==> final(self)@ == old(self)@,
            agrees(r, final(self)@, bool_at(old(self)@, context)),
    {
        let start = self.saved();
        let b: u8 = self.read_byte(context)?;
        let r = match b {
            0 => Ok(false),
            1 => Ok(true),
            other => Err(ImportError::UnsupportedPickleTag { context, tag: other as u32 }),
        };
        self.or_back(start, r)
    }

    /// Read a length-prefixed UTF-8 string.
    pub fn read_string_raw(&mut self, context: &'static str) -> (r: Result<String, ImportError>)
        requires
            old(self)@.wf(),
        ensures
            final(self)@.wf(),
            final(self)@.same_streams(old(self)@),
            final(self)@.depth == old(self)@.depth,
            r is Err ==> final(self)@ == old(self)@,
            agrees(r, final(self)@, string_raw_at(old(self)@, context)),
    {
        let start = self.saved();
        let raw = self.read_byte_memory(context)?;
        let r = match utf8_string(slice_to_vec(raw)) {
            Ok(text) => Ok(text),
            Err(why) => {
                let mut detail = "invalid UTF-8 in ".to_owned();
                detail.append(context);
                detail.append(": ");
                detail.append(why.as_str());
                Err(ImportError::MalformedPickleHeader { detail })
            },
        };
        self.or_back(start, r)
    }

    /// Read a length-prefixed byte blob without copying it.
    pub fn read_byte_memory(&mut self, context: &'static str) -> (r: Result<&'a [u8], ImportError>)
        requires
            old(self)@.wf(),
        ensures
            final(self)@.wf(),
            final(self)@.same_streams(old(self)@),
            final(self)@.depth == old(self)@.depth,
            r is Err ==> final(self)@ == old(self)@,
            match byte_memory_at(old(self)@, context) {
                Ok((v, s)) => r is Ok && r->Ok_0@ == v && final(self)@ == s,
                Err((e, s)) => r is Err && r->Err_0.deep_view() == e && final(self)@ == s,
            },
    {
        let start = self.saved();
        let len: u32 = self.read_uint32(context)?;
        let r = self.read_bytes(len as usize, context);
        self.or_back(start, r)
    }

    /// Read the length prefix of a list and refuse one above the bytes that are
    /// left.
    pub fn read_array_len(&mut self, context: &'static str) -> (r: Result<usize, ImportError>)
        requires
            old(self)@.wf(),
        ensures
            final(self)@.wf(),
            final(self)@.same_streams(old(self)@),
            final(self)@.depth == old(self)@.depth,
            r is Err ==> final(self)@ == old(self)@,
            agrees(r, final(self)@, array_len_at(old(self)@, context)),
    {
        let start = self.saved();
        let n: usize = self.read_uint32(context)? as usize;
        let remaining: usize = self.remaining();
        if n > remaining {
            *self = start;
            return Err(too_long(context, ": array length ", n, remaining));
        }
        Ok(n)
    }

    /// Read a length-prefixed list whose elements `elt` reads.
    pub fn read_array<T: DeepView>(
        &mut self,
        context: &'static str,
        elt: impl Fn(&mut PickleReader<'a>) -> Result<T, ImportError>,
    ) -> (r: Result<Vec<T>, ImportError>)
        requires
            old(self)@.wf(),
            forall|x: &mut PickleReader<'a>| x@.wf() ==> #[trigger] call_requires(elt, (x,)),
            forall|x: &mut PickleReader<'a>, out: Result<T, ImportError>| #[trigger]
                call_ensures(elt, (x,), out) ==> final(x)@.wf(),
        ensures
            final(self)@.wf(),
            r is Err ==> final(self)@ == old(self)@,
            (forall|x: &mut PickleReader<'a>, out: Result<T, ImportError>| #[trigger]
                call_ensures(elt, (x,), out) ==> (*final(x))@.depth == (*x)@.depth)
                ==> final(self)@.depth == old(self)@.depth,
            forall|step: spec_fn(Tape) -> Decoded<T::V>|
                (forall|x: &mut PickleReader<'a>, out: Result<T, ImportError>| #[trigger]
                    call_ensures(elt, (x,), out) ==> agrees(out, (*final(x))@, step((*x)@)))
                    ==> agrees(r, final(self)@, #[trigger] array_at(old(self)@, context, step)),
    {
        let start = self.saved();
        let n: usize = self.read_array_len(context)?;
        let ghost s0 = self@;
        let mut out: Vec<T> = Vec::new();
        assert(out.deep_view() =~= Seq::empty());
        let mut i: usize = 0;
        while i < n
            invariant
                i <= n,
                self@.wf(),
                start@ == old(self)@,
                old(self)@.wf(),
                array_len_at(old(self)@, context) == Ok::<(usize, Tape), (Fault, Tape)>((n, s0)),
                (forall|x: &mut PickleReader<'a>, out: Result<T, ImportError>| #[trigger]
                    call_ensures(elt, (x,), out) ==> (*final(x))@.depth == (*x)@.depth)
                    ==> self@.depth == old(self)@.depth,
                forall|x: &mut PickleReader<'a>| x@.wf() ==> #[trigger] call_requires(elt, (x,)),
                forall|x: &mut PickleReader<'a>, out: Result<T, ImportError>| #[trigger]
                    call_ensures(elt, (x,), out) ==> final(x)@.wf(),
                forall|step: spec_fn(Tape) -> Decoded<T::V>|
                    (forall|x: &mut PickleReader<'a>, out: Result<T, ImportError>| #[trigger]
                        call_ensures(elt, (x,), out) ==> agrees(out, (*final(x))@, step((*x)@)))
                        ==> #[trigger] elements_at(s0, i as nat, step) == Ok::<
                        (Seq<T::V>, Tape),
                        (Fault, Tape),
                    >((out.deep_view(), self@)),
            decreases n - i,
        {
            match elt(self) {
                Ok(v) => {
                    let ghost before = out.deep_view();
                    out.push(v);
                    assert(out.deep_view() =~= before.push(v.deep_view()));
                    proof {
                        assert forall|step: spec_fn(Tape) -> Decoded<T::V>|
                            (forall|x: &mut PickleReader<'a>, out: Result<T, ImportError>|
                             #[trigger]
                                call_ensures(elt, (x,), out) ==> agrees(
                                    out,
                                    (*final(x))@,
                                    step((*x)@),
                                )) implies #[trigger] elements_at(s0, (i + 1) as nat, step)
                            == Ok::<(Seq<T::V>, Tape), (Fault, Tape)>((out.deep_view(), self@)) by {
                            assert(elements_at(s0, i as nat, step) is Ok);
                        }
                    }
                    i = i + 1;
                },
                Err(e) => {
                    *self = start;
                    proof {
                        assert forall|step: spec_fn(Tape) -> Decoded<T::V>|
                            (forall|x: &mut PickleReader<'a>, out: Result<T, ImportError>|
                             #[trigger]
                                call_ensures(elt, (x,), out) ==> agrees(
                                    out,
                                    (*final(x))@,
                                    step((*x)@),
                                )) implies agrees(
                            Err::<Vec<T>, ImportError>(e),
                            self@,
                            #[trigger] array_at(old(self)@, context, step),
                        ) by {
                            assert(elements_at(s0, i as nat, step) is Ok);
                            assert(elements_at(s0, (i + 1) as nat, step) is Err);
                            lemma_elements_fail(s0, (i + 1) as nat, n as nat, step);
                        }
                    }
                    return Err(e);
                },
            }
        }
        Ok(out)
    }

    /// Read an option: a tag byte `0` or `1`, and after `1` what `payload`
    /// reads.
    pub fn read_option<T: DeepView>(
        &mut self,
        context: &'static str,
        payload: impl Fn(&mut PickleReader<'a>) -> Result<T, ImportError>,
    ) -> (r: Result<Option<T>, ImportError>)
        requires
            old(self)@.wf(),
            forall|x: &mut PickleReader<'a>| x@.wf() ==> #[trigger] call_requires(payload, (x,)),
            forall|x: &mut PickleReader<'a>, out: Result<T, ImportError>| #[trigger]
                call_ensures(payload, (x,), out) ==> final(x)@.wf(),
        ensures
            final(self)@.wf(),
            r is Err ==> final(self)@ == old(self)@,
            (forall|x: &mut PickleReader<'a>, out: Result<T, ImportError>| #[trigger]
                call_ensures(payload, (x,), out) ==> (*final(x))@.depth == (*x)@.depth)
                ==> final(self)@.depth == old(self)@.depth,
            forall|step: spec_fn(Tape) -> Decoded<T::V>|
                (forall|x: &mut PickleReader<'a>, out: Result<T, ImportError>| #[trigger]
                    call_ensures(payload, (x,), out) ==> agrees(out, (*final(x))@, step((*x)@)))
                    ==> agrees(r, final(self)@, #[trigger] option_at(old(self)@, context, step)),
    {
        let start = self.saved();
        let tag: u8 = self.read_byte(context)?;
        let r = match tag {
            0 => Ok(None),
            1 => match payload(self) {
                Ok(v) => Ok(Some(v)),
                Err(e) => Err(e),
            },
            other => Err(ImportError::UnsupportedPickleTag { context, tag: other as u32 }),
        };
        self.or_back(start, r)
    }

    /// Read one byte of the B stream: `0` where it is absent or at its end.
    pub fn read_byte_b(&mut self, _context: &'static str) -> (r: u8)
        requires
            old(self)@.wf(),
        ensures
            final(self)@.wf(),
            r == peek_b(old(self)@),
            final(self)@ == skip_b(old(self)@),
    {
        match &mut self.b {
            Some(b) => {
                if b.pos < b.bytes.len() {
                    let v: u8 = b.bytes[b.pos];
                    b.pos = b.pos + 1;
                    v
                } else {
                    0
                }
            },
            None => 0,
        }
    }

    /// Read a compressed unsigned integer of the B stream.
    pub fn read_uint32_b(&mut self, context: &'static str) -> (r: u32)
        requires
            old(self)@.wf(),
        ensures
            final(self)@.wf(),
            (r, final(self)@) == uint32_b_at(old(self)@),
    {
        let b0: u8 = self.read_byte_b(context);
        if b0 <= 0x7F {
            b0 as u32
        } else if b0 <= 0xBF {
            let b1: u8 = self.read_byte_b(context);
            (b0 as u32 - 0x80) * 0x100 + b1 as u32
        } else {
            let b1: u8 = self.read_byte_b(context);
            let b2: u8 = self.read_byte_b(context);
            let b3: u8 = self.read_byte_b(context);
            let b4: u8 = self.read_byte_b(context);
            b1 as u32 + 0x100 * b2 as u32 + 0x1_0000 * b3 as u32 + 0x100_0000 * b4 as u32
        }
    }

    /// Read four raw little-endian bytes.
    pub fn read_uint32_le(&mut self, context: &'static str) -> (r: Result<u32, ImportError>)
        requires
            old(self)@.wf(),
        ensures
            final(self)@.wf(),
            final(self)@.same_streams(old(self)@),
            final(self)@.depth == old(self)@.depth,
            r is Err ==> final(self)@ == old(self)@,
            agrees(r, final(self)@, uint32_le_at(old(self)@, context)),
    {
        let raw = self.read_bytes(4, context)?;
        Ok(
            raw[0] as u32 + 0x100 * raw[1] as u32 + 0x1_0000 * raw[2] as u32 + 0x100_0000
                * raw[3] as u32,
        )
    }

    /// Read a length-prefixed list; the same format as
    /// [`read_array`](Self::read_array).
    pub fn read_list<T: DeepView>(
        &mut self,
        context: &'static str,
        elt: impl Fn(&mut PickleReader<'a>) -> Result<T, ImportError>,
    ) -> (r: Result<Vec<T>, ImportError>)
        requires
            old(self)@.wf(),
            forall|x: &mut PickleReader<'a>| x@.wf() ==> #[trigger] call_requires(elt, (x,)),
            forall|x: &mut PickleReader<'a>, out: Result<T, ImportError>| #[trigger]
                call_ensures(elt, (x,), out) ==> final(x)@.wf(),
        ensures
            final(self)@.wf(),
            r is Err ==> final(self)@ == old(self)@,
            (forall|x: &mut PickleReader<'a>, out: Result<T, ImportError>| #[trigger]
                call_ensures(elt, (x,), out) ==> (*final(x))@.depth == (*x)@.depth)
                ==> final(self)@.depth == old(self)@.depth,
            forall|step: spec_fn(Tape) -> Decoded<T::V>|
                (forall|x: &mut PickleReader<'a>, out: Result<T, ImportError>| #[trigger]
                    call_ensures(elt, (x,), out) ==> agrees(out, (*final(x))@, step((*x)@)))
                    ==> agrees(r, final(self)@, #[trigger] array_at(old(self)@, context, step)),
    {
        self.read_array(context, elt)
    }

    /// Read a string: an index into the strings table, dereferenced.
    pub fn read_string(&mut self, context: &'static str) -> (r: Result<String, ImportError>)
        requires
            old(self)@.wf(),
        ensures
            final(self)@.wf(),
            final(self)@.same_streams(old(self)@),
            final(self)@.depth == old(self)@.depth,
            r is Err ==> final(self)@ == old(self)@,
            agrees(r, final(self)@, string_at(old(self)@, context)),
    {
        let idx: u32 = self.read_string_index(context)?;
        match self.strings {
            Some(table) => {
                assert(table.deep_view()[idx as int] == table@[idx as int]@);
                Ok(table[idx as usize].clone())
            },
            None => Err(malformed(context, ": strings table not attached")),
        }
    }

    /// Read the index of a string without dereferencing it, checked against the
    /// strings table.
    pub fn read_string_index(&mut self, context: &'static str) -> (r: Result<u32, ImportError>)
        requires
            old(self)@.wf(),
        ensures
            final(self)@.wf(),
            final(self)@.same_streams(old(self)@),
            final(self)@.depth == old(self)@.depth,
            r is Err ==> final(self)@ == old(self)@,
            agrees(r, final(self)@, string_index_at(old(self)@, context)),
    {
        let start = self.saved();
        let idx: u32 = self.read_uint32(context)?;
        let r = match self.strings {
            None => Err(malformed(context, ": strings table not attached")),
            Some(table) => if idx as usize >= table.len() {
                Err(ImportError::DanglingPickleRef { kind: "string", index: idx })
            } else {
                Ok(idx)
            },
        };
        self.or_back(start, r)
    }

    /// Read a public path: an index into the pubpaths table, dereferenced.
    pub fn read_pubpath(&mut self, context: &'static str) -> (r: Result<Vec<u32>, ImportError>)
        requires
            old(self)@.wf(),
        ensures
            final(self)@.wf(),
            final(self)@.same_streams(old(self)@),
            final(self)@.depth == old(self)@.depth,
            r is Err ==> final(self)@ == old(self)@,
            agrees(r, final(self)@, pubpath_at(old(self)@, context)),
    {
        let start = self.saved();
        let idx: u32 = self.read_uint32(context)?;
        let r = match self.pubpaths {
            None => Err(malformed(context, ": pubpaths table not attached")),
            Some(table) => if idx as usize >= table.len() {
                Err(ImportError::DanglingPickleRef { kind: "pubpath", index: idx })
            } else {
                let path = table[idx as usize].clone();
                assert(path.deep_view() =~= table.deep_view()[idx as int]);
                Ok(path)
            },
        };
        self.or_back(start, r)
    }

    /// Read `n` reserved bytes, each of which must be `0`.
    pub fn read_space(&mut self, n: usize, context: &'static str) -> (r: Result<(), ImportError>)
        requires
            old(self)@.wf(),
        ensures
            final(self)@.wf(),
            final(self)@.same_streams(old(self)@),
            final(self)@.depth == old(self)@.depth,
            r is Err ==> final(self)@ == old(self)@,
            agrees(r, final(self)@, space_at(old(self)@, n as nat, context)),
    {
        let start = self.saved();
        let mut i: usize = 0;
        while i < n
            invariant
                i <= n,
                self@.wf(),
                old(self)@.wf(),
                start@ == old(self)@,
                self@.same_streams(old(self)@),
                self@.depth == old(self)@.depth,
                zeros_at(old(self)@, n as nat, context) == zeros_at(
                    self@,
                    (n - i) as nat,
                    context,
                ),
            decreases n - i,
        {
            let b: u8 = match self.read_byte(context) {
                Ok(b) => b,
                Err(e) => {
                    *self = start;
                    return Err(e);
                },
            };
            if b != 0 {
                *self = start;
                let mut detail = context.to_owned();
                detail.append(": reserved-space byte was ");
                push_hex_byte(&mut detail, b);
                detail.append(", expected 0");
                return Err(ImportError::MalformedPickleHeader { detail });
            }
            i = i + 1;
        }
        Ok(())
    }

    /// Read the frame of a later extension: a tag byte `0` for nothing, or `1`
    /// before what `f` reads and one reserved zero byte.
    pub fn read_used_space1<T: DeepView>(
        &mut self,
        context: &'static str,
        f: impl Fn(&mut PickleReader<'a>) -> Result<T, ImportError>,
    ) -> (r: Result<Option<T>, ImportError>)
        requires
            old(self)@.wf(),
            forall|x: &mut PickleReader<'a>| x@.wf() ==> #[trigger] call_requires(f, (x,)),
            forall|x: &mut PickleReader<'a>, out: Result<T, ImportError>| #[trigger]
                call_ensures(f, (x,), out) ==> final(x)@.wf(),
        ensures
            final(self)@.wf(),
            r is Err ==> final(self)@ == old(self)@,
            (forall|x: &mut PickleReader<'a>, out: Result<T, ImportError>| #[trigger]
                call_ensures(f, (x,), out) ==> (*final(x))@.depth == (*x)@.depth)
                ==> final(self)@.depth == old(self)@.depth,
            forall|step: spec_fn(Tape) -> Decoded<T::V>|
                (forall|x: &mut PickleReader<'a>, out: Result<T, ImportError>| #[trigger]
                    call_ensures(f, (x,), out) ==> agrees(out, (*final(x))@, step((*x)@)))
                    ==> agrees(
                    r,
                    final(self)@,
                    #[trigger] used_space1_at(old(self)@, context, step),
                ),
    {
        let start = self.saved();
        let tag: u8 = self.read_byte(context)?;
        let r = match tag {
            0 => Ok(None),
            1 => match f(self) {
                Ok(v) => match self.read_space(1, context) {
                    Ok(_) => Ok(Some(v)),
                    Err(e) => Err(e),
                },
                Err(e) => Err(e),
            },
            other => {
                let mut detail = context.to_owned();
                detail.append(": u_used_space1 unexpected tag ");
                push_hex_byte(&mut detail, other);
                detail.append(" (expected 0 or 1)");
                Err(ImportError::MalformedPickleHeader { detail })
            },
        };
        self.or_back(start, r)
    }

    /// Require that the primary stream is used up.
    pub fn expect_eof(&self, context: &'static str) -> (r: Result<(), ImportError>)
        requires
            self@.wf(),
        ensures
            r is Ok <==> self@.pos == self@.bytes.len(),
            r is Err ==> r->Err_0.deep_view() == trailing(
                context,
                self@.remaining(),
                " trailing bytes after expected EOF (cursor at ",
                self@.pos,
                self@.bytes.len(),
            ),
    {
        if self.is_eof() {
            Ok(())
        } else {
            Err(
                trailing_bytes(
                    context,
                    self.remaining(),
                    " trailing bytes after expected EOF (cursor at ",
                    self.pos,
                    self.bytes.len(),
                ),
            )
        }
    }

    /// Require that the B stream is used up or absent.
    pub fn expect_eof_b(&self, context: &'static str) -> (r: Result<(), ImportError>)
        requires
            self@.wf(),
        ensures
            r is Ok <==> self@.b_pos == self@.b_bytes.len(),
            r is Err ==> r->Err_0.deep_view() == trailing(
                context,
                (self@.b_bytes.len() - self@.b_pos) as nat,
                " trailing bytes in B stream after expected EOF (cursor at ",
                self@.b_pos,
                self@.b_bytes.len(),
            ),
    {
        match &self.b {
            None => Ok(()),
            Some(b) => if b.pos >= b.bytes.len() {
                Ok(())
            } else {
                Err(
                    trailing_bytes(
                        context,
                        b.bytes.len() - b.pos,
                        " trailing bytes in B stream after expected EOF (cursor at ",
                        b.pos,
                        b.bytes.len(),
                    ),
                )
            },
        }
    }
}

/// The signed number with the bit pattern of `v`.
pub fn signed_word(v: u32) -> (r: i32)
    ensures
        r == signed32(v),
{
    if v < 0x8000_0000 {
        v as i32
    } else {
        (v as i64 - 0x1_0000_0000) as i32
    }
}

/// The bytes in which a compressed integer is written: one, two, or a marker and four.
pub open spec fn uint32_bytes(v: u32) -> Seq<u8> {
    if v <= 0x7F {
        seq![v as u8]
    } else if v <= 0x3FFF {
        seq![(0x80 + v / 0x100) as u8, (v % 0x100) as u8]
    } else {
        seq![
            0xFFu8,
            (v % 0x100) as u8,
            (v / 0x100 % 0x100) as u8,
            (v / 0x1_0000 % 0x100) as u8,
            (v / 0x100_0000) as u8,
        ]
    }
}

/// A compressed integer is read back as it was written, and exactly its bytes are
/// consumed.
pub proof fn law_uint32_round_trip(s: Tape, v: u32, context: &'static str)
    requires
        s.pos + uint32_bytes(v).len() <= s.bytes.len(),
        s.bytes.subrange(s.pos as int, (s.pos + uint32_bytes(v).len()) as int) == uint32_bytes(v),
    ensures
        uint32_at(s, context) == Ok::<(u32, Tape), (Fault, Tape)>(
            (v, s.advance(uint32_bytes(v).len())),
        ),
{
    let raw = uint32_bytes(v);
    let here = s.bytes.subrange(s.pos as int, (s.pos + raw.len()) as int);
    assert(forall|i: int| 0 <= i < raw.len() ==> s.bytes[s.pos + i] == #[trigger] raw[i]) by {
        assert forall|i: int| 0 <= i < raw.len() implies s.bytes[s.pos + i] == #[trigger] raw[i] by {
            assert(here[i] == raw[i]);
        }
    }
    let p = s.pos as int;
    assert(raw[0] == s.bytes[p + 0]);
    if v <= 0x7F {
    } else if v <= 0x3FFF {
        assert(raw[1] == s.bytes[p + 1]);
    } else {
        let word = s.bytes.subrange(p + 1, p + 5);
        assert(word[0] == raw[1] && word[1] == raw[2] && word[2] == raw[3] && word[3] == raw[4]);
    }
}

/// A compressed integer takes at least one byte, and no more than there are. A failure
/// leaves the tape untouched.
pub proof fn law_uint32_advances(s: Tape, context: &'static str)
    requires
        s.wf(),
    ensures
        match uint32_at(s, context) {
            Ok((v, t)) => s.pos < t.pos && t.wf() && t == (Tape { pos: t.pos, ..s }),
            Err((_, t)) => t == s,
        },
{
}

/// A list is announced with no more elements than there are bytes left. A failure leaves
/// the tape untouched.
pub proof fn law_lists_fit(s: Tape, context: &'static str)
    requires
        s.wf(),
    ensures
        match array_len_at(s, context) {
            Ok((n, t)) => n <= t.remaining() && t.wf(),
            Err((_, t)) => t == s,
        },
{
    law_uint32_advances(s, context);
}

/// The tape with `n` zeros after the B stream.
pub open spec fn with_b_zeros(s: Tape, n: nat) -> Tape {
    Tape { b_bytes: s.b_bytes + Seq::new(n, |i: int| 0u8), ..s }
}

/// What is left of the B stream of `t` is what is left of that of `s`, and zeros.
pub open spec fn goes_on(s: Tape, t: Tape) -> bool {
    &&& s.b_pos <= s.b_bytes.len() <= t.b_bytes.len()
    &&& s.b_pos <= t.b_pos <= t.b_bytes.len()
    &&& s.b_pos < s.b_bytes.len() ==> t.b_pos == s.b_pos
    &&& forall|i: int| 0 <= i < s.b_bytes.len() ==> t.b_bytes[i] == s.b_bytes[i]
    &&& forall|i: int| s.b_bytes.len() <= i < t.b_bytes.len() ==> t.b_bytes[i] == 0
}

/// A B stream that ends early, or that is not there, reads as one that goes on with
/// zeros: each byte and each compressed integer is the same, and what is left goes on
/// so, for any number of reads.
pub proof fn law_b_stream_goes_on_with_zeros(s: Tape, t: Tape, n: nat)
    requires
        s.wf(),
        t == with_b_zeros(s, n) || goes_on(s, t),
    ensures
        peek_b(t) == peek_b(s),
        goes_on(skip_b(s), skip_b(t)),
        uint32_b_at(t).0 == uint32_b_at(s).0,
        goes_on(uint32_b_at(s).1, uint32_b_at(t).1),
{
    lemma_b_step(s, t);
    let (s1, t1) = (skip_b(s), skip_b(t));
    lemma_b_step(s1, t1);
    let (s2, t2) = (skip_b(s1), skip_b(t1));
    lemma_b_step(s2, t2);
    let (s3, t3) = (skip_b(s2), skip_b(t2));
    lemma_b_step(s3, t3);
    let (s4, t4) = (skip_b(s3), skip_b(t3));
    lemma_b_step(s4, t4);
}

/// One byte of the B stream is the same, and so is what is left of it.
proof fn lemma_b_step(s: Tape, t: Tape)
    requires
        goes_on(s, t),
    ensures
        peek_b(s) == peek_b(t),
        goes_on(skip_b(s), skip_b(t)),
{
}

} // verus!
