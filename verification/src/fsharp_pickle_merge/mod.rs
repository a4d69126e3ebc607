//! The overlays that carry what the F# signature pickle knows onto the entity
//! tree of the metadata.
pub mod abbreviation_laws;
pub mod abbreviations;
pub mod changes;
pub mod entity_overlay;
pub mod extension_index;
pub mod frame;
pub mod growth;
pub mod lookup;
pub mod measure;
pub mod member_laws;
pub mod member_list;
pub mod module_vals;
pub mod names;
pub mod order;
pub mod order_laws;
pub mod overlay_laws;
pub mod sorting;
pub mod steps;
pub mod targets;
pub mod union_cases;
pub mod union_laws;
pub mod value_laws;
pub mod walk;
pub mod walk_laws;
