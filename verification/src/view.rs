//! The F# resources of an assembly.
use vstd::prelude::*;

verus! {

/// What an F# resource holds. The second stream of a pickle, in the `B` kinds,
/// carries nullness and the later constraints.
#[derive(Debug, Clone, Copy, PartialEq, Eq, Hash, Structural)]
pub enum ResourceKind {
    SignatureData,
    SignatureDataB,
    SignatureCompressedData,
    SignatureCompressedDataB,
    /// The signature data that the core library has of itself.
    SignatureDataFSharpCore,
    OptimizationData,
    OptimizationDataB,
    OptimizationCompressedData,
    OptimizationCompressedDataB,
    /// The optimization data that the core library has of itself.
    OptimizationDataFSharpCore,
}

/// An F# resource of an assembly, decompressed.
#[derive(Debug, Clone, PartialEq, Eq)]
pub struct FSharpResource {
    pub name: String,
    pub kind: ResourceKind,
    pub payload: Vec<u8>,
}

} // verus!
