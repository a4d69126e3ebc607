//! F# resources: what the name of one says, how a compressed one is inflated, and
//! which of them are those of the host.
use crate::fsharp_pickle_merge::lookup;
use crate::text::{push_decimal, same_text};
use crate::view::{FSharpResource, ResourceKind};
use flate2::read::DeflateDecoder;
use std::io::{ErrorKind, Read};
use vstd::prelude::*;
use vstd::string::*;

verus! {

/// The most that one deflate stream may inflate to. What the compiler writes is far
/// smaller; a stream that claims more is not worth the memory.
pub const MAX_DEFLATE_OUTPUT_BYTES: usize = 67_108_864;

/// The prefix of the names of the resources of a kind.
pub open spec fn prefix_of(k: ResourceKind) -> Seq<char> {
    match k {
        ResourceKind::SignatureData => "FSharpSignatureData."@,
        ResourceKind::SignatureDataB => "FSharpSignatureDataB."@,
        ResourceKind::SignatureCompressedData => "FSharpSignatureCompressedData."@,
        ResourceKind::SignatureCompressedDataB => "FSharpSignatureCompressedDataB."@,
        ResourceKind::SignatureDataFSharpCore => "FSharpSignatureInfo."@,
        ResourceKind::OptimizationData => "FSharpOptimizationData."@,
        ResourceKind::OptimizationDataB => "FSharpOptimizationDataB."@,
        ResourceKind::OptimizationCompressedData => "FSharpOptimizationCompressedData."@,
        ResourceKind::OptimizationCompressedDataB => "FSharpOptimizationCompressedDataB."@,
        ResourceKind::OptimizationDataFSharpCore => "FSharpOptimizationInfo."@,
    }
}

/// The name is that of a resource of kind `k` of the assembly `suffix`.
pub open spec fn names(name: Seq<char>, k: ResourceKind, suffix: Seq<char>) -> bool {
    name == prefix_of(k) + suffix
}

/// The resource with this name belongs to `host`.
pub open spec fn belongs_to(name: Seq<char>, host: Seq<char>) -> bool {
    exists|k: ResourceKind| names(name, k, host)
}

/// A kind of the first signature stream.
pub open spec fn is_primary(k: ResourceKind) -> bool {
    k == ResourceKind::SignatureData || k == ResourceKind::SignatureCompressedData || k
        == ResourceKind::SignatureDataFSharpCore
}

/// A kind of the second signature stream.
pub open spec fn is_secondary(k: ResourceKind) -> bool {
    k == ResourceKind::SignatureDataB || k == ResourceKind::SignatureCompressedDataB
}

/// A kind that is stored as a deflate stream.
pub open spec fn is_compressed(k: ResourceKind) -> bool {
    k == ResourceKind::SignatureCompressedData || k == ResourceKind::SignatureCompressedDataB || k
        == ResourceKind::OptimizationCompressedData || k
        == ResourceKind::OptimizationCompressedDataB
}

/// The resource holds the first signature stream of `host`.
pub open spec fn primary_for(host: Seq<char>) -> spec_fn(FSharpResource) -> bool {
    |r: FSharpResource| is_primary(r.kind) && belongs_to(r.name@, host)
}

/// The resource holds the second signature stream of `host`.
pub open spec fn secondary_for(host: Seq<char>) -> spec_fn(FSharpResource) -> bool {
    |r: FSharpResource| is_secondary(r.kind) && belongs_to(r.name@, host)
}

/// What went wrong in a deflate stream.
#[derive(Debug, Clone, Copy, PartialEq, Eq, Structural)]
pub enum InflateErrorKind {
    /// The output is larger than it may be.
    InvalidData,
    /// The stream is corrupt.
    InvalidInput,
    /// The stream or its output ends too soon.
    UnexpectedEof,
    Other,
}

/// A failure to inflate a deflate stream.
#[derive(Debug, Clone, PartialEq, Eq)]
pub struct InflateError {
    pub kind: InflateErrorKind,
    pub message: String,
}

/// The model of an [`InflateError`].
pub struct InflateFault {
    pub kind: InflateErrorKind,
    pub message: Seq<char>,
}

impl DeepView for InflateError {
    type V = InflateFault;

    open spec fn deep_view(&self) -> InflateFault {
        InflateFault { kind: self.kind, message: self.message@ }
    }
}

impl InflateError {
    /// What went wrong.
    pub fn kind(&self) -> (r: InflateErrorKind)
        ensures
            r == self.kind,
    {
        self.kind
    }
}

/// The first bytes, at most `limit` of them, that flate2's deflate decoder reads out
/// of the stream `bytes`, or the failure that it meets on the way.
pub uninterp spec fn inflated(bytes: Seq<u8>, limit: u64) -> Result<Seq<u8>, InflateFault>;

/// The outcome `r` is `want`.
pub open spec fn is_outcome(
    r: Result<Vec<u8>, InflateError>,
    want: Result<Seq<u8>, InflateFault>,
) -> bool {
    match want {
        Ok(out) => r is Ok && r->Ok_0@ == out,
        Err(e) => r is Err && r->Err_0.deep_view() == e,
    }
}

/// How much is read of a stream that may inflate to `max` bytes: one more tells a
/// stream that is too long.
pub open spec fn take_limit(max: usize) -> u64 {
    if max < usize::MAX {
        (max + 1) as u64
    } else {
        u64::MAX
    }
}

/// The failure of an output above the limit.
pub open spec fn over_limit(limit: usize) -> InflateFault {
    InflateFault {
        kind: InflateErrorKind::InvalidData,
        message: "deflate output exceeded the limit of "@ + crate::text::decimal(limit as nat)
            + " bytes"@,
    }
}

/// The failure of an output of another size than announced.
pub open spec fn wrong_size(len: nat, expected: usize) -> InflateFault {
    InflateFault {
        kind: InflateErrorKind::UnexpectedEof,
        message: "deflate output was "@ + crate::text::decimal(len) + " bytes, expected "@
            + crate::text::decimal(expected as nat),
    }
}

/// The outcome, unless its output is above the limit.
pub open spec fn limited(
    outcome: Result<Seq<u8>, InflateFault>,
    max: usize,
) -> Result<Seq<u8>, InflateFault> {
    match outcome {
        Err(e) => Err(e),
        Ok(out) => if out.len() > max {
            Err(over_limit(max))
        } else {
            Ok(out)
        },
    }
}

/// The outcome, unless its output is of another size than announced.
pub open spec fn sized(
    outcome: Result<Seq<u8>, InflateFault>,
    expected: usize,
) -> Result<Seq<u8>, InflateFault> {
    match outcome {
        Err(e) => Err(e),
        Ok(out) => if out.len() != expected {
            Err(wrong_size(out.len(), expected))
        } else {
            Ok(out)
        },
    }
}

/// What the stream `bytes` inflates to, if that is at most `max` bytes.
pub open spec fn decompressed(bytes: Seq<u8>, max: usize) -> Result<Seq<u8>, InflateFault> {
    limited(inflated(bytes, take_limit(max)), max)
}

/// What the stream `bytes` inflates to, if that is `expected` bytes.
pub open spec fn decompressed_exactly(bytes: Seq<u8>, expected: usize) -> Result<
    Seq<u8>,
    InflateFault,
> {
    if expected > MAX_DEFLATE_OUTPUT_BYTES {
        Err(over_limit(expected))
    } else {
        sized(decompressed(bytes, expected), expected)
    }
}

/// Read at most `limit` bytes out of a deflate stream.
///
/// Calls flate2's `DeflateDecoder`, through std's `Read::take` and
/// `Read::read_to_end`. The outcome is a function of the stream and the limit, and
/// no more than `limit` bytes come out. What they are is not said here: it takes the
/// deflate format to say.
#[verifier::external_body]
fn inflate(bytes: &[u8], limit: u64) -> (r: Result<Vec<u8>, InflateError>)
    ensures
        is_outcome(r, inflated(bytes@, limit)),
        r is Ok ==> r->Ok_0@.len() <= limit,
{
    let mut out = Vec::new();
    match DeflateDecoder::new(bytes).take(limit).read_to_end(&mut out) {
        Ok(_) => Ok(out),
        Err(e) => {
            let kind = match e.kind() {
                ErrorKind::InvalidData => InflateErrorKind::InvalidData,
                ErrorKind::InvalidInput => InflateErrorKind::InvalidInput,
                ErrorKind::UnexpectedEof => InflateErrorKind::UnexpectedEof,
                _ => InflateErrorKind::Other,
            };
            Err(InflateError { kind, message: e.to_string() })
        },
    }
}

/// How much is read of a stream that may inflate to `max_output_bytes`.
fn read_take_limit(max_output_bytes: usize) -> (r: u64)
    ensures
        r == take_limit(max_output_bytes),
{
    match max_output_bytes.checked_add(1) {
        Some(n) => n as u64,
        None => u64::MAX,
    }
}

/// The failure of an output above the limit.
fn deflate_limit_error(limit: usize) -> (r: InflateError)
    ensures
        r.deep_view() == over_limit(limit),
{
    let mut message = "deflate output exceeded the limit of ".to_owned();
    push_decimal(&mut message, limit as u64);
    message.append(" bytes");
    InflateError { kind: InflateErrorKind::InvalidData, message }
}

/// Hold the outcome of inflating to a limit.
pub fn within_limit(outcome: Result<Vec<u8>, InflateError>, max_output_bytes: usize) -> (r: Result<
    Vec<u8>,
    InflateError,
>)
    ensures
        match outcome {
            Ok(out) => is_outcome(r, limited(Ok(out@), max_output_bytes)),
            Err(e) => is_outcome(r, limited(Err(e.deep_view()), max_output_bytes)),
        },
{
    let out = outcome?;
    if out.len() > max_output_bytes {
        return Err(deflate_limit_error(max_output_bytes));
    }
    Ok(out)
}

/// Hold the outcome of inflating to the announced size.
pub fn of_size(outcome: Result<Vec<u8>, InflateError>, expected_output_bytes: usize) -> (r: Result<
    Vec<u8>,
    InflateError,
>)
    ensures
        match outcome {
            Ok(out) => is_outcome(r, sized(Ok(out@), expected_output_bytes)),
            Err(e) => is_outcome(r, sized(Err(e.deep_view()), expected_output_bytes)),
        },
{
    let out = outcome?;
    if out.len() != expected_output_bytes {
        let mut message = "deflate output was ".to_owned();
        push_decimal(&mut message, out.len() as u64);
        message.append(" bytes, expected ");
        push_decimal(&mut message, expected_output_bytes as u64);
        return Err(InflateError { kind: InflateErrorKind::UnexpectedEof, message });
    }
    Ok(out)
}

/// Inflate a raw deflate stream to at most `max_output_bytes`.
pub fn decompress_deflate_limited(bytes: &[u8], max_output_bytes: usize) -> (r: Result<
    Vec<u8>,
    InflateError,
>)
    ensures
        is_outcome(r, decompressed(bytes@, max_output_bytes)),
        r is Ok ==> r->Ok_0@.len() <= max_output_bytes,
{
    within_limit(inflate(bytes, read_take_limit(max_output_bytes)), max_output_bytes)
}

/// Inflate a raw deflate stream to at most [`MAX_DEFLATE_OUTPUT_BYTES`].
pub fn decompress_deflate(bytes: &[u8]) -> (r: Result<Vec<u8>, InflateError>)
    ensures
        is_outcome(r, decompressed(bytes@, MAX_DEFLATE_OUTPUT_BYTES)),
        r is Ok ==> r->Ok_0@.len() <= MAX_DEFLATE_OUTPUT_BYTES,
{
    decompress_deflate_limited(bytes, MAX_DEFLATE_OUTPUT_BYTES)
}

/// Inflate a raw deflate stream whose output is announced to be of this size. An
/// announcement above [`MAX_DEFLATE_OUTPUT_BYTES`] is refused before anything is
/// read.
pub fn decompress_deflate_exact(bytes: &[u8], expected_output_bytes: usize) -> (r: Result<
    Vec<u8>,
    InflateError,
>)
    ensures
        is_outcome(r, decompressed_exactly(bytes@, expected_output_bytes)),
        r is Ok ==> r->Ok_0@.len() == expected_output_bytes && expected_output_bytes
            <= MAX_DEFLATE_OUTPUT_BYTES,
{
    if expected_output_bytes > MAX_DEFLATE_OUTPUT_BYTES {
        return Err(deflate_limit_error(expected_output_bytes));
    }
    of_size(decompress_deflate_limited(bytes, expected_output_bytes), expected_output_bytes)
}

/// The prefix of the names of the resources of a kind.
fn prefix_text(k: ResourceKind) -> (r: &'static str)
    ensures
        r@ == prefix_of(k),
{
    match k {
        ResourceKind::SignatureData => "FSharpSignatureData.",
        ResourceKind::SignatureDataB => "FSharpSignatureDataB.",
        ResourceKind::SignatureCompressedData => "FSharpSignatureCompressedData.",
        ResourceKind::SignatureCompressedDataB => "FSharpSignatureCompressedDataB.",
        ResourceKind::SignatureDataFSharpCore => "FSharpSignatureInfo.",
        ResourceKind::OptimizationData => "FSharpOptimizationData.",
        ResourceKind::OptimizationDataB => "FSharpOptimizationDataB.",
        ResourceKind::OptimizationCompressedData => "FSharpOptimizationCompressedData.",
        ResourceKind::OptimizationCompressedDataB => "FSharpOptimizationCompressedDataB.",
        ResourceKind::OptimizationDataFSharpCore => "FSharpOptimizationInfo.",
    }
}

/// What follows `prefix` in `name`, if `name` starts with it.
fn after_prefix<'a>(name: &'a str, prefix: &str) -> (r: Option<&'a str>)
    ensures
        match r {
            Some(rest) => name@ == prefix@ + rest@,
            None => forall|rest: Seq<char>| name@ != #[trigger] (prefix@ + rest),
        },
{
    let n: usize = prefix.unicode_len();
    let len: usize = name.unicode_len();
    if n > len {
        return None;
    }
    if !same_text(name.substring_char(0, n), prefix) {
        assert forall|rest: Seq<char>| name@ != #[trigger] (prefix@ + rest) by {
            if name@ == prefix@ + rest {
                assert(name@.subrange(0, n as int) =~= prefix@);
            }
        }
        return None;
    }
    let rest = name.substring_char(n, len);
    assert(name@ =~= prefix@ + rest@);
    Some(rest)
}

/// The kind of an F# resource and the assembly that it belongs to, by its name.
pub fn classify_fsharp_resource(name: &str) -> (r: Option<(ResourceKind, &str)>)
    ensures
        match r {
            Some((k, suffix)) => names(name@, k, suffix@),
            None => forall|k: ResourceKind, suffix: Seq<char>| !names(name@, k, suffix),
        },
{
    let kinds: [ResourceKind; 10] = [
        ResourceKind::SignatureCompressedDataB,
        ResourceKind::OptimizationCompressedDataB,
        ResourceKind::SignatureCompressedData,
        ResourceKind::OptimizationCompressedData,
        ResourceKind::SignatureDataB,
        ResourceKind::OptimizationDataB,
        ResourceKind::SignatureData,
        ResourceKind::OptimizationData,
        ResourceKind::SignatureDataFSharpCore,
        ResourceKind::OptimizationDataFSharpCore,
    ];
    let mut i: usize = 0;
    while i < 10
        invariant
            i <= 10,
            kinds@ == seq![
                ResourceKind::SignatureCompressedDataB,
                ResourceKind::OptimizationCompressedDataB,
                ResourceKind::SignatureCompressedData,
                ResourceKind::OptimizationCompressedData,
                ResourceKind::SignatureDataB,
                ResourceKind::OptimizationDataB,
                ResourceKind::SignatureData,
                ResourceKind::OptimizationData,
                ResourceKind::SignatureDataFSharpCore,
                ResourceKind::OptimizationDataFSharpCore,
            ],
            forall|j: int, suffix: Seq<char>|
                0 <= j < i ==> !#[trigger] names(name@, kinds@[j], suffix),
        decreases 10 - i,
    {
        let kind: ResourceKind = kinds[i];
        if let Some(rest) = after_prefix(name, prefix_text(kind)) {
            return Some((kind, rest));
        }
        i = i + 1;
    }
    assert forall|k: ResourceKind, suffix: Seq<char>| !names(name@, k, suffix) by {
        let at: int = match k {
            ResourceKind::SignatureCompressedDataB => 0,
            ResourceKind::OptimizationCompressedDataB => 1,
            ResourceKind::SignatureCompressedData => 2,
            ResourceKind::OptimizationCompressedData => 3,
            ResourceKind::SignatureDataB => 4,
            ResourceKind::OptimizationDataB => 5,
            ResourceKind::SignatureData => 6,
            ResourceKind::OptimizationData => 7,
            ResourceKind::SignatureDataFSharpCore => 8,
            ResourceKind::OptimizationDataFSharpCore => 9,
        };
        assert(!names(name@, kinds@[at], suffix));
    }
    None
}

/// The only dot of a prefix is its last character, and kinds with the same prefix are
/// the same.
proof fn lemma_prefixes(k: ResourceKind, l: ResourceKind)
    ensures
        prefix_of(k).len() > 0,
        prefix_of(k).last() == '.',
        forall|i: int| 0 <= i < prefix_of(k).len() - 1 ==> prefix_of(k)[i] != '.',
        prefix_of(k).len() == prefix_of(l).len() && k != l ==> prefix_of(k)[15] != prefix_of(l)[15]
            || prefix_of(k)[18] != prefix_of(l)[18],
{
    reveal_strlit("FSharpSignatureData.");
    reveal_strlit("FSharpSignatureDataB.");
    reveal_strlit("FSharpSignatureCompressedData.");
    reveal_strlit("FSharpSignatureCompressedDataB.");
    reveal_strlit("FSharpSignatureInfo.");
    reveal_strlit("FSharpOptimizationData.");
    reveal_strlit("FSharpOptimizationDataB.");
    reveal_strlit("FSharpOptimizationCompressedData.");
    reveal_strlit("FSharpOptimizationCompressedDataB.");
    reveal_strlit("FSharpOptimizationInfo.");
    assert("FSharpSignatureData."@[15] == 'D');
    assert("FSharpSignatureInfo."@[15] == 'I');
    assert("FSharpOptimizationData."@[18] == 'D');
    assert("FSharpOptimizationInfo."@[18] == 'I');
}

/// A name is that of at most one kind and one assembly, so the order in which the
/// prefixes are tried does not matter.
pub proof fn law_classification_is_unambiguous(
    name: Seq<char>,
    k: ResourceKind,
    suffix: Seq<char>,
    l: ResourceKind,
    other: Seq<char>,
)
    requires
        names(name, k, suffix),
        names(name, l, other),
    ensures
        k == l,
        suffix == other,
{
    lemma_prefixes(k, l);
    lemma_prefixes(l, k);
    let p = prefix_of(k);
    let q = prefix_of(l);
    assert(name[p.len() - 1] == p.last());
    assert(name[q.len() - 1] == q.last());
    if p.len() < q.len() {
        assert(q[p.len() - 1] == name[p.len() - 1]);
    }
    if q.len() < p.len() {
        assert(p[q.len() - 1] == name[q.len() - 1]);
    }
    assert(p =~= name.take(p.len() as int));
    assert(q =~= name.take(q.len() as int));
    assert(suffix =~= name.skip(p.len() as int));
    assert(other =~= name.skip(q.len() as int));
}

/// Whether a resource of this kind is stored as a deflate stream.
pub fn is_compressed_kind(kind: ResourceKind) -> (r: bool)
    ensures
        r == is_compressed(kind),
{
    match kind {
        ResourceKind::SignatureCompressedData
        | ResourceKind::SignatureCompressedDataB
        | ResourceKind::OptimizationCompressedData
        | ResourceKind::OptimizationCompressedDataB => true,
        _ => false,
    }
}

/// Whether the kind is one of the first signature stream.
fn is_primary_signature_kind(kind: ResourceKind) -> (r: bool)
    ensures
        r == is_primary(kind),
{
    match kind {
        ResourceKind::SignatureData
        | ResourceKind::SignatureCompressedData
        | ResourceKind::SignatureDataFSharpCore => true,
        _ => false,
    }
}

/// Whether the kind is one of the second signature stream.
fn is_secondary_signature_kind(kind: ResourceKind) -> (r: bool)
    ensures
        r == is_secondary(kind),
{
    match kind {
        ResourceKind::SignatureDataB | ResourceKind::SignatureCompressedDataB => true,
        _ => false,
    }
}

/// Whether the resource with this name belongs to `host_name`.
fn resource_suffix_equals(resource_name: &str, host_name: &str) -> (r: bool)
    ensures
        r == belongs_to(resource_name@, host_name@),
{
    match classify_fsharp_resource(resource_name) {
        Some((kind, suffix)) => {
            let r: bool = same_text(suffix, host_name);
            proof {
                if belongs_to(resource_name@, host_name@) {
                    let k = choose|k: ResourceKind| names(resource_name@, k, host_name@);
                    law_classification_is_unambiguous(
                        resource_name@,
                        kind,
                        suffix@,
                        k,
                        host_name@,
                    );
                }
            }
            r
        },
        None => false,
    }
}

/// The resource with the first signature stream of the host.
///
/// An assembly that was linked with its dependencies holds their resources too,
/// under their own names: those do not describe the host.
pub fn primary_signature_resource_for_host<'a>(
    resources: &'a [FSharpResource],
    host_name: &str,
) -> (r: Option<&'a FSharpResource>)
    ensures
        match lookup::first_from(resources@, 0, primary_for(host_name@)) {
            Some(i) => r is Some && *r->0 == resources@[i],
            None => r is None,
        },
{
    let ghost p = primary_for(host_name@);
    let mut i: usize = 0;
    while i < resources.len()
        invariant
            i <= resources.len(),
            p == primary_for(host_name@),
            forall|j: int| 0 <= j < i ==> !p(#[trigger] resources@[j]),
        decreases resources.len() - i,
    {
        let r = &resources[i];
        if is_primary_signature_kind(r.kind) && resource_suffix_equals(r.name.as_str(), host_name) {
            proof {
                lookup::lemma_first_is(resources@, 0, i as int, p);
            }
            return Some(r);
        }
        i = i + 1;
    }
    proof {
        lookup::lemma_first_is(resources@, 0, i as int, p);
    }
    None
}

/// The second signature stream of the host.
pub fn b_stream_signature_resource_for_host<'a>(
    resources: &'a [FSharpResource],
    host_name: &str,
) -> (r: Option<&'a [u8]>)
    ensures
        match lookup::first_from(resources@, 0, secondary_for(host_name@)) {
            Some(i) => r is Some && r->0@ == resources@[i].payload@,
            None => r is None,
        },
{
    let ghost p = secondary_for(host_name@);
    let mut i: usize = 0;
    while i < resources.len()
        invariant
            i <= resources.len(),
            p == secondary_for(host_name@),
            forall|j: int| 0 <= j < i ==> !p(#[trigger] resources@[j]),
        decreases resources.len() - i,
    {
        let r = &resources[i];
        if is_secondary_signature_kind(r.kind) && resource_suffix_equals(
            r.name.as_str(),
            host_name,
        ) {
            proof {
                lookup::lemma_first_is(resources@, 0, i as int, p);
            }
            return Some(r.payload.as_slice());
        }
        i = i + 1;
    }
    proof {
        lookup::lemma_first_is(resources@, 0, i as int, p);
    }
    None
}

/// Whether a first signature stream of another assembly is there: then the one of
/// the host does not describe every F# type of the image.
pub fn foreign_signature_data_present(resources: &[FSharpResource], host_name: &str) -> (r: bool)
    ensures
        r == exists|i: int|
            0 <= i < resources@.len() && is_primary((#[trigger] resources@[i]).kind)
                && !belongs_to(resources@[i].name@, host_name@),
{
    let mut i: usize = 0;
    while i < resources.len()
        invariant
            i <= resources.len(),
            forall|j: int|
                0 <= j < i ==> !(is_primary((#[trigger] resources@[j]).kind) && !belongs_to(
                    resources@[j].name@,
                    host_name@,
                )),
        decreases resources.len() - i,
    {
        let r = &resources[i];
        if is_primary_signature_kind(r.kind) && !resource_suffix_equals(
            r.name.as_str(),
            host_name,
        ) {
            return true;
        }
        i = i + 1;
    }
    false
}

} // verus!
