//! The failures of reading an F# assembly.
use vstd::prelude::*;

verus! {

/// Why an F# resource could not be read or merged.
#[derive(Debug, Clone, PartialEq, Eq)]
pub enum ImportError {
    /// The stream ended inside the item that `context` names.
    UnexpectedEndOfStream { context: &'static str },
    /// A tag byte outside the set that the decoder `context` accepts.
    UnsupportedPickleTag { context: &'static str, tag: u32 },
    /// A length, a reserved byte or a piece of text is out of order.
    MalformedPickleHeader { detail: String },
    /// The decoder recursed deeper than `limit`.
    PickleRecursionLimitExceeded { context: &'static str, limit: u32 },
    /// An index into one of the interning tables points past its end.
    DanglingPickleRef { kind: &'static str, index: u32 },
    /// A stamp points past the end of its declaration table.
    OsgnIndexOutOfRange { kind: &'static str, index: u32, max: usize },
    /// One stamp was declared twice with different bodies.
    OsgnConflictingRelink { kind: &'static str, index: u32 },
    /// A construct the importer does not model.
    UnsupportedSignature { detail: String },
    /// The entity tree reaches an entity from itself.
    PickleEntityCycle { stamp: u32 },
    /// The pickle and the metadata disagree.
    FsharpPickleMergeMismatch { detail: String },
}

/// The model of an [`ImportError`]: the same failure with its text as a
/// sequence of characters.
pub enum Fault {
    UnexpectedEndOfStream { context: &'static str },
    UnsupportedPickleTag { context: &'static str, tag: u32 },
    MalformedPickleHeader { detail: Seq<char> },
    PickleRecursionLimitExceeded { context: &'static str, limit: u32 },
    DanglingPickleRef { kind: &'static str, index: u32 },
    OsgnIndexOutOfRange { kind: &'static str, index: u32, max: usize },
    OsgnConflictingRelink { kind: &'static str, index: u32 },
    UnsupportedSignature { detail: Seq<char> },
    PickleEntityCycle { stamp: u32 },
    FsharpPickleMergeMismatch { detail: Seq<char> },
}

impl DeepView for ImportError {
    type V = Fault;

    open spec fn deep_view(&self) -> Fault {
        match self {
            ImportError::UnexpectedEndOfStream { context } => Fault::UnexpectedEndOfStream {
                context: *context,
            },
            ImportError::UnsupportedPickleTag { context, tag } => Fault::UnsupportedPickleTag {
                context: *context,
                tag: *tag,
            },
            ImportError::MalformedPickleHeader { detail } => Fault::MalformedPickleHeader {
                detail: detail@,
            },
            ImportError::PickleRecursionLimitExceeded { context, limit } => {
                Fault::PickleRecursionLimitExceeded { context: *context, limit: *limit }
            },
            ImportError::DanglingPickleRef { kind, index } => Fault::DanglingPickleRef {
                kind: *kind,
                index: *index,
            },
            ImportError::OsgnIndexOutOfRange { kind, index, max } => Fault::OsgnIndexOutOfRange {
                kind: *kind,
                index: *index,
                max: *max,
            },
            ImportError::OsgnConflictingRelink { kind, index } => Fault::OsgnConflictingRelink {
                kind: *kind,
                index: *index,
            },
            ImportError::UnsupportedSignature { detail } => Fault::UnsupportedSignature {
                detail: detail@,
            },
            ImportError::PickleEntityCycle { stamp } => Fault::PickleEntityCycle { stamp: *stamp },
            ImportError::FsharpPickleMergeMismatch { detail } => Fault::FsharpPickleMergeMismatch {
                detail: detail@,
            },
        }
    }
}

} // verus!
