//! Failures in debug data.
use crate::fsharp_resource::{InflateError, InflateFault};
use crate::text;
use crate::text::push_hexadecimal;
use vstd::prelude::*;
use vstd::string::*;

verus! {

/// A failure in the debug directory of an executable or in its debug database. That
/// there is no database is none.
#[derive(Debug)]
pub enum PdbError {
    /// The bytes are not a portable executable.
    NotPortableExecutable,
    /// The debug directory or one of its entries is truncated, or points outside the
    /// file.
    MalformedDebugDirectory,
    /// The embedded database has a wrong magic or size.
    BadEmbeddedPdb,
    /// The embedded database could not be inflated.
    Decompress(InflateError),
    /// The root, a stream header or the table header of the database is malformed.
    BadMetadataImage,
    /// The database lacks this stream.
    MissingPdbStream(&'static str),
    /// The database holds a table that is no table of debug data.
    UnsupportedPdbTable(usize),
    /// A row, column or heap index lies outside of its data.
    TableIndexOutOfRange,
    /// The name of a document cannot be decoded.
    MalformedDocumentName,
    /// The sequence points of a method cannot be decoded.
    MalformedSequencePoints,
    /// The embedded source of a document cannot be decoded.
    MalformedEmbeddedSource,
    /// The source link document is not UTF-8.
    MalformedSourceLink,
}

/// The model of a [`PdbError`].
pub enum PdbFault {
    NotPortableExecutable,
    MalformedDebugDirectory,
    BadEmbeddedPdb,
    Decompress(InflateFault),
    BadMetadataImage,
    MissingPdbStream(Seq<char>),
    UnsupportedPdbTable(usize),
    TableIndexOutOfRange,
    MalformedDocumentName,
    MalformedSequencePoints,
    MalformedEmbeddedSource,
    MalformedSourceLink,
}

impl DeepView for PdbError {
    type V = PdbFault;

    open spec fn deep_view(&self) -> PdbFault {
        match self {
            PdbError::NotPortableExecutable => PdbFault::NotPortableExecutable,
            PdbError::MalformedDebugDirectory => PdbFault::MalformedDebugDirectory,
            PdbError::BadEmbeddedPdb => PdbFault::BadEmbeddedPdb,
            PdbError::Decompress(e) => PdbFault::Decompress(e.deep_view()),
            PdbError::BadMetadataImage => PdbFault::BadMetadataImage,
            PdbError::MissingPdbStream(s) => PdbFault::MissingPdbStream(s@),
            PdbError::UnsupportedPdbTable(t) => PdbFault::UnsupportedPdbTable(*t),
            PdbError::TableIndexOutOfRange => PdbFault::TableIndexOutOfRange,
            PdbError::MalformedDocumentName => PdbFault::MalformedDocumentName,
            PdbError::MalformedSequencePoints => PdbFault::MalformedSequencePoints,
            PdbError::MalformedEmbeddedSource => PdbFault::MalformedEmbeddedSource,
            PdbError::MalformedSourceLink => PdbFault::MalformedSourceLink,
        }
    }
}

/// The failure in words.
pub open spec fn message_of(e: PdbFault) -> Seq<char> {
    match e {
        PdbFault::NotPortableExecutable => "not a portable executable"@,
        PdbFault::MalformedDebugDirectory => "malformed PE debug directory"@,
        PdbFault::BadEmbeddedPdb => "malformed embedded portable PDB"@,
        PdbFault::Decompress(e) => "embedded PDB decompression failed: "@ + e.message,
        PdbFault::BadMetadataImage => "malformed portable-PDB metadata image"@,
        PdbFault::MissingPdbStream(s) => "portable PDB is missing the "@ + s + " stream"@,
        PdbFault::UnsupportedPdbTable(t) => "unexpected non-PDB table 0x"@ + text::hexadecimal(
            t as nat,
        ) + " in the portable PDB"@,
        PdbFault::TableIndexOutOfRange => "portable-PDB table index out of range"@,
        PdbFault::MalformedDocumentName => "malformed portable-PDB document name"@,
        PdbFault::MalformedSequencePoints => "malformed portable-PDB sequence-points blob"@,
        PdbFault::MalformedEmbeddedSource => "malformed portable-PDB embedded source"@,
        PdbFault::MalformedSourceLink => "malformed portable-PDB SourceLink"@,
    }
}

impl PdbError {
    /// The failure in words.
    pub fn message(&self) -> (r: String)
        ensures
            r@ == message_of(self.deep_view()),
    {
        match self {
            PdbError::NotPortableExecutable => "not a portable executable".to_owned(),
            PdbError::MalformedDebugDirectory => "malformed PE debug directory".to_owned(),
            PdbError::BadEmbeddedPdb => "malformed embedded portable PDB".to_owned(),
            PdbError::Decompress(e) => {
                let mut out = "embedded PDB decompression failed: ".to_owned();
                out.append(e.message.as_str());
                out
            },
            PdbError::BadMetadataImage => "malformed portable-PDB metadata image".to_owned(),
            PdbError::MissingPdbStream(s) => {
                let mut out = "portable PDB is missing the ".to_owned();
                out.append(s);
                out.append(" stream");
                out
            },
            PdbError::UnsupportedPdbTable(t) => {
                let mut out = "unexpected non-PDB table 0x".to_owned();
                push_hexadecimal(&mut out, *t as u64);
                out.append(" in the portable PDB");
                out
            },
            PdbError::TableIndexOutOfRange => "portable-PDB table index out of range".to_owned(),
            PdbError::MalformedDocumentName => "malformed portable-PDB document name".to_owned(),
            PdbError::MalformedSequencePoints => {
                "malformed portable-PDB sequence-points blob".to_owned()
            },
            PdbError::MalformedEmbeddedSource => {
                "malformed portable-PDB embedded source".to_owned()
            },
            PdbError::MalformedSourceLink => "malformed portable-PDB SourceLink".to_owned(),
        }
    }

    /// The failure behind this one, if any.
    pub fn cause(&self) -> (r: Option<&InflateError>)
        ensures
            match self.deep_view() {
                PdbFault::Decompress(e) => r is Some && r->0.deep_view() == e,
                _ => r is None,
            },
    {
        match self {
            PdbError::Decompress(e) => Some(e),
            _ => None,
        }
    }
}

} // verus!
