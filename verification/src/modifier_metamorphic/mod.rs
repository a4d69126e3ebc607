//! The custom modifier rule as a property of the projection.
//!
//! A tool may ignore an optional modifier that it does not understand; a required one
//! it has to understand. Seen from outside, that is a statement about two projections
//! of one image. Put an optional modifier that nothing knows in front of every
//! position of every signature: the projection must not move. Do the same with a
//! required one: no member may be left, for one that is has a position whose
//! modifiers were not looked at.
//!
//! A compiler provokes only the checks that it can provoke, and some of those in a
//! projection refuse shapes that no compiler writes. So the image can first be turned
//! into a [`HostileShape`], on which the two projections are then compared.
//!
//! The projection itself is a parameter: a function from an image to what it projects
//! to.
pub mod compare;
pub mod compare_laws;
pub mod decorate;
pub mod hostile;
pub mod image_laws;
pub mod probe;
pub use compare::Finding;
pub use hostile::HostileShape;
pub use probe::{
    modopt_saturation_is_inert, modopt_saturation_is_inert_on,
    unknown_modreq_on_constraints_refuses, unknown_modreq_on_members_refuses,
    unknown_modreq_saturation_refuses, ProbeOutcome, Projection,
};
