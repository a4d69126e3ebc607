//! How the resources of an F# assembly are told apart by their names.
use crate::fsharp_resource;
use crate::view::ResourceKind;
use vstd::prelude::*;

verus! {

/// Each kind of resource of an assembly goes by its prefix and the name of the assembly.
pub proof fn law_resources_go_by_their_prefix(host: Seq<char>)
    ensures
        fsharp_resource::names(
            "FSharpSignatureData."@ + host,
            ResourceKind::SignatureData,
            host,
        ),
        fsharp_resource::names(
            "FSharpSignatureDataB."@ + host,
            ResourceKind::SignatureDataB,
            host,
        ),
        fsharp_resource::names(
            "FSharpSignatureCompressedData."@ + host,
            ResourceKind::SignatureCompressedData,
            host,
        ),
        fsharp_resource::names(
            "FSharpSignatureCompressedDataB."@ + host,
            ResourceKind::SignatureCompressedDataB,
            host,
        ),
        fsharp_resource::names(
            "FSharpSignatureInfo."@ + host,
            ResourceKind::SignatureDataFSharpCore,
            host,
        ),
        fsharp_resource::names(
            "FSharpOptimizationData."@ + host,
            ResourceKind::OptimizationData,
            host,
        ),
        fsharp_resource::names(
            "FSharpOptimizationDataB."@ + host,
            ResourceKind::OptimizationDataB,
            host,
        ),
        fsharp_resource::names(
            "FSharpOptimizationCompressedData."@ + host,
            ResourceKind::OptimizationCompressedData,
            host,
        ),
        fsharp_resource::names(
            "FSharpOptimizationCompressedDataB."@ + host,
            ResourceKind::OptimizationCompressedDataB,
            host,
        ),
        fsharp_resource::names(
            "FSharpOptimizationInfo."@ + host,
            ResourceKind::OptimizationDataFSharpCore,
            host,
        ),
{
}

/// A resource is compressed if and only if its name says so: after the word for what it
/// holds comes the word for compression.
pub proof fn law_compressed_resources_say_so(k: ResourceKind)
    ensures
        ({
            let p = fsharp_resource::prefix_of(k);
            let word: int = if p[6] == 'S' {
                15
            } else {
                18
            };
            fsharp_resource::is_compressed(k) <==> p.len() > word && p[word] == 'C'
        }),
{
    reveal_strlit("FSharpSignatureData.");
    reveal_strlit("FSharpSignatureDataB.");
    reveal_strlit("FSharpSignatureCompressedData.");
    reveal_strlit("FSharpSignatureCompressedDataB.");
    reveal_strlit("FSharpSignatureInfo.");
    reveal_strlit("FSharpOptimizationData.");
    reveal_strlit("FSharpOptimizationDataB.");
    reveal_strlit("FSharpOptimizationCompressedData.");
    reveal_strlit("FSharpOptimizationCompressedDataB.");
    reveal_strlit("FSharpOptimizationInfo.");
}

/// The second stream of a signature is the one whose prefix ends in a B, and the first is
/// one of those whose prefix does not; no resource is both, and no optimization data is
/// either.
pub proof fn law_the_two_streams_of_a_signature(k: ResourceKind)
    ensures
        ({
            let p = fsharp_resource::prefix_of(k);
            let signature = p.len() > 7 && p[6] == 'S';
            &&& fsharp_resource::is_secondary(k) <==> signature && p[p.len() - 2] == 'B'
            &&& fsharp_resource::is_primary(k) <==> signature && p[p.len() - 2] != 'B'
        }),
{
    reveal_strlit("FSharpSignatureData.");
    reveal_strlit("FSharpSignatureDataB.");
    reveal_strlit("FSharpSignatureCompressedData.");
    reveal_strlit("FSharpSignatureCompressedDataB.");
    reveal_strlit("FSharpSignatureInfo.");
    reveal_strlit("FSharpOptimizationData.");
    reveal_strlit("FSharpOptimizationDataB.");
    reveal_strlit("FSharpOptimizationCompressedData.");
    reveal_strlit("FSharpOptimizationCompressedDataB.");
    reveal_strlit("FSharpOptimizationInfo.");
}

} // verus!
