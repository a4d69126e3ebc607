//! The debug side of a managed executable: the portable debug database.
//!
//! The metadata of an assembly describes its types and members; the debug database
//! describes their sources. It can be embedded in the assembly, compressed, or lie
//! in a file next to it. Either way an entry of the debug directory says so.
//! [`embedded_portable_pdb`] finds and inflates an embedded one, and
//! [`codeview_pdb_reference`] reads the pointer to a separate one. The database
//! itself is read by [`PortablePdb`].
pub mod bytes;
pub mod debug_directory;
pub mod error;
pub mod heap_format;
pub mod heaps;
pub mod metadata;
pub mod pe_format;
pub mod stream_format;
pub mod table_format;
pub mod tables;
pub use debug_directory::{codeview_pdb_reference, embedded_portable_pdb, PdbReference};
pub use error::PdbError;
pub use heaps::SequencePoint;
pub use metadata::PortablePdb;
