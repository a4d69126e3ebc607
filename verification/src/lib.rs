//! Symbols of a managed assembly, and what the F# compiler says about them.
//!
//! The metadata of an assembly describes its types and members in the terms of the
//! runtime. An assembly that was written in F# also holds a signature pickle, which
//! describes them in the terms of the language. This crate decodes the pickle
//! ([`fsharp_pickle`]) and lays it over the entity tree that was read from the metadata
//! ([`fsharp_pickle_merge`]): measures, F# names, union cases, extension members, module
//! members, abbreviations and the order of declaration.
//!
//! The other parts are the resources in which the pickle is stored
//! ([`fsharp_resource`]), the debug database, which leads from a member to its source
//! ([`pdb`]), and a check that a projection heeds custom modifiers
//! ([`modifier_metamorphic`]).
//!
//! Every function states in its contract what it returns on every input, over models
//! of the data: what a value is apart from how it is stored.
pub mod error;
pub mod fsharp_pickle;
pub mod fsharp_pickle_merge;
pub mod fsharp_resource;
pub mod image;
pub mod model;
pub mod modifier_metamorphic;
pub mod name_set;
pub mod pdb;
pub mod reader;
pub mod resource_laws;
pub mod same;
pub mod selection;
pub mod text;
pub mod view;
pub use error::ImportError;
pub use fsharp_pickle::model::{CcuRef, PickledCcu, PickledHeader, PickledNleRef};
pub use fsharp_pickle_merge::module_vals::{
    collect_module_member_targets, ModuleMemberTarget, ModuleMemberVal,
};
pub use model::{
    AbbreviationTarget, Access, AssemblyIdentity, AssemblyProjectionSkips, Augmentation,
    CompilerFeatureRequired, ConstantValue, CustomAttr, DefaultMember, Entity, EntityKind, Event,
    Experimental, Field, FsharpOverlayKind, ImplementedMember, IndexParameter,
    InterfaceMemberImpl, Member, MethodLike, MethodSignature, ModuleValue, Nullability,
    NullableType, Obsolete, ParamDefault, Parameter, Primitive, Property, SkippedFsharpOverlay,
    SkippedMember, SkippedProjectionItem, TypeParameter, TypeRef, UnclassifiedMethodImpl,
    Variance, Version,
};
pub use view::{FSharpResource, ResourceKind};
