//! Decoders of the F# signature pickle.
pub mod attribs;
pub mod attribute_writing;
pub mod bounds;
pub mod leaves;
pub mod measure;
pub mod model;
pub mod osgn;
pub mod reader;
pub mod repr;
pub mod representation_writing;
pub mod typar;
pub mod typar_writing;
pub mod type_writing;
pub mod types;
pub mod val;
pub mod value_writing;
pub mod vrefs;
pub mod writing;
