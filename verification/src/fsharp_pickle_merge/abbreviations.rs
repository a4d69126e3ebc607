//! The abbreviation markers: an entity for each abbreviation that the metadata does
//! not show.
//!
//! The compiler writes no type definition for a plain type abbreviation or for an
//! exception abbreviation: both are known to the pickle alone. A marker makes the
//! name visible in the tree. It has no members and no base type.
//!
//! No marker is made for the core library, whose abbreviations are the primitive
//! type names; for an abbreviation that is not public, which no other assembly can
//! name; for a measure, which has an overlay of its own; where an entity other than
//! a module already has the name with as many type parameters; and where the module
//! that holds the abbreviation has no entity.
use crate::error::{Fault, ImportError};
use crate::fsharp_pickle::model::{PickledCcu, PickledExnRepr, TyparKind};
use crate::fsharp_pickle_merge::frame;
use crate::fsharp_pickle_merge::growth;
use crate::fsharp_pickle_merge::lookup;
use crate::fsharp_pickle_merge::lookup::find_entity_mut;
use crate::fsharp_pickle_merge::names;
use crate::fsharp_pickle_merge::names::{
    clr_name, has_auto_open_attribute, renamed_source_name, resolve_entity_range,
};
use crate::fsharp_pickle_merge::targets;
use crate::fsharp_pickle_merge::targets::{decode_abbreviation_target, local_tycon_fqns};
use crate::fsharp_pickle_merge::walk;
use crate::fsharp_pickle_merge::walk::{Visit, VisitModel};
use crate::model::{
    AbbreviationTarget, AbbreviationTargetModel, Access, AssemblyIdentity, AssemblyIdentityModel,
    Entity, EntityKind, EntityModel, FsharpSourceRange, FsharpSourceRangeModel, Nullability,
    TypeParameter, TypeParameterModel, Variance,
};
use crate::same::{Duplicate, Same};
use crate::text::same_text;
use std::collections::HashMap;
use vstd::prelude::*;

verus! {

/// Where an abbreviation lies in the entity tree, and what its marker carries.
pub struct AbbrevMarkerSite {
    pub namespace: Vec<String>,
    /// The chain of the enclosing types: empty on the level of a namespace.
    pub type_chain: Vec<String>,
    pub name: String,
    pub source_name: Option<String>,
    pub typar_names: Vec<String>,
    /// The abbreviation is that of an exception.
    pub is_exception: bool,
    pub is_auto_open: bool,
    /// What the abbreviation stands for, where that is modelled.
    pub abbreviation_target: Option<AbbreviationTarget>,
    pub definition_range: Option<FsharpSourceRange>,
}

/// The model of an [`AbbrevMarkerSite`].
pub struct SiteModel {
    pub namespace: Seq<Seq<char>>,
    pub type_chain: Seq<Seq<char>>,
    pub name: Seq<char>,
    pub source_name: Option<Seq<char>>,
    pub typar_names: Seq<Seq<char>>,
    pub is_exception: bool,
    pub is_auto_open: bool,
    pub abbreviation_target: Option<AbbreviationTargetModel>,
    pub definition_range: Option<FsharpSourceRangeModel>,
}

impl DeepView for AbbrevMarkerSite {
    type V = SiteModel;

    open spec fn deep_view(&self) -> SiteModel {
        SiteModel {
            namespace: self.namespace.deep_view(),
            type_chain: self.type_chain.deep_view(),
            name: self.name@,
            source_name: self.source_name.deep_view(),
            typar_names: self.typar_names.deep_view(),
            is_exception: self.is_exception,
            is_auto_open: self.is_auto_open,
            abbreviation_target: self.abbreviation_target.deep_view(),
            definition_range: self.definition_range.deep_view(),
        }
    }
}

/// The names of the type parameters from the `i`-th on, after those in `acc`, or
/// the failure of the first that dangles.
pub open spec fn typar_names_from(
    ccu: PickledCcu,
    typars: Seq<u32>,
    i: nat,
    acc: Seq<Seq<char>>,
) -> Result<Seq<Seq<char>>, Fault>
    decreases typars.len() - i,
{
    if i >= typars.len() {
        Ok(acc)
    } else if typars[i as int] >= ccu.tables.typars@.len() {
        Err(
            targets::dangling(
                "typar (abbreviation marker)",
                typars[i as int],
                ccu.tables.typars@.len(),
            ),
        )
    } else {
        typar_names_from(
            ccu,
            typars,
            i + 1,
            acc.push(ccu.tables.typars@[typars[i as int] as int].ident.name@),
        )
    }
}

/// The site that a visit contributes.
pub open spec fn site_at(
    ccu: PickledCcu,
    v: VisitModel,
    local: Map<u32, Seq<Seq<char>>>,
) -> Result<Option<SiteModel>, Fault> {
    let e = walk::tycon(ccu, v.stamp);
    if v.is_root || e.access@.len() > 0 {
        Ok(None)
    } else if e.exn_repr is Abbrev || e.exn_repr is Asm {
        Ok(
            Some(
                SiteModel {
                    namespace: v.namespace,
                    type_chain: v.type_chain,
                    name: names::clr_name_of(e),
                    source_name: None,
                    typar_names: Seq::empty(),
                    is_exception: true,
                    is_auto_open: false,
                    abbreviation_target: None,
                    definition_range: names::entity_range_of(ccu, e),
                },
            ),
        )
    } else if e.type_abbrev is None || e.typar_kind == TyparKind::Measure {
        Ok(None)
    } else {
        match typar_names_from(ccu, e.typars@, 0, Seq::empty()) {
            Err(f) => Err(f),
            Ok(typar_names) => match targets::decoded(ccu, e, e.type_abbrev->0, local) {
                Err(f) => Err(f),
                Ok(target) => Ok(
                    Some(
                        SiteModel {
                            namespace: v.namespace,
                            type_chain: v.type_chain,
                            name: names::clr_name_of(e),
                            source_name: names::renamed_from(e),
                            typar_names,
                            is_exception: false,
                            is_auto_open: names::has_auto_open(ccu, e.attribs@),
                            abbreviation_target: target,
                            definition_range: names::entity_range_of(ccu, e),
                        },
                    ),
                ),
            },
        }
    }
}

/// The sites of the visits from the `i`-th on, after those in `acc`.
pub open spec fn sites_from(
    ccu: PickledCcu,
    visits: Seq<VisitModel>,
    i: nat,
    acc: Seq<SiteModel>,
    local: Map<u32, Seq<Seq<char>>>,
) -> Result<Seq<SiteModel>, Fault>
    decreases visits.len() - i,
{
    if i >= visits.len() {
        Ok(acc)
    } else {
        match site_at(ccu, visits[i as int], local) {
            Err(f) => Err(f),
            Ok(None) => sites_from(ccu, visits, i + 1, acc, local),
            Ok(Some(s)) => sites_from(ccu, visits, i + 1, acc.push(s), local),
        }
    }
}

/// The name under which F# code finds the entity or the abbreviation.
pub open spec fn lookup_name(source_name: Option<Seq<char>>, name: Seq<char>) -> Seq<char> {
    match source_name {
        Some(n) => n,
        None => name,
    }
}

/// The entity has the name of the site, with as many type parameters. A module
/// never has the name of a type.
pub open spec fn takes_name(e: EntityModel, site: SiteModel) -> bool {
    &&& e.kind != EntityKind::Module
    &&& lookup_name(e.source_name, e.name) == lookup_name(site.source_name, site.name)
    &&& e.generic_parameters.len() == site.typar_names.len()
}

/// Some entity on the level of a namespace has the name of the site.
pub open spec fn taken_at_top(es: Seq<EntityModel>, site: SiteModel) -> bool {
    exists|i: int|
        0 <= i < es.len() && (#[trigger] es[i]).namespace == site.namespace && takes_name(
            es[i],
            site,
        )
}

/// Some entity of those in `es` has the name of the site.
pub open spec fn taken(es: Seq<EntityModel>, site: SiteModel) -> bool {
    exists|i: int| 0 <= i < es.len() && takes_name(#[trigger] es[i], site)
}

/// The type parameter `name` of a marker.
pub open spec fn marker_parameter(name: Seq<char>) -> TypeParameterModel {
    TypeParameterModel {
        name,
        variance: Variance::Invariant,
        reference_type_constraint: false,
        value_type_constraint: false,
        default_constructor_constraint: false,
        is_unmanaged: false,
        allows_ref_struct: false,
        nullability: Nullability::Oblivious,
        type_constraints: Seq::empty(),
    }
}

/// The marker of a site.
pub open spec fn marker(
    assembly: AssemblyIdentityModel,
    namespace: Seq<Seq<char>>,
    site: SiteModel,
) -> EntityModel {
    EntityModel {
        assembly,
        namespace,
        name: site.name,
        kind: if site.is_exception {
            EntityKind::Exception
        } else {
            EntityKind::Abbreviation
        },
        access: Access::Public,
        is_sealed: false,
        generic_parameters: site.typar_names.map_values(|n: Seq<char>| marker_parameter(n)),
        base_type: None,
        interfaces: Seq::empty(),
        members: Seq::empty(),
        skipped_members: Seq::empty(),
        method_def_tokens: Seq::empty(),
        nested_types: Seq::empty(),
        is_readonly: false,
        is_byref_like: false,
        is_struct: false,
        is_auto_open: site.is_auto_open,
        is_require_qualified_access: false,
        is_no_equality: false,
        is_no_comparison: false,
        is_structural_equality: false,
        is_structural_comparison: false,
        is_allow_null_literal: false,
        obsolete: None,
        experimental: None,
        default_member: None,
        compiler_feature_required: Seq::empty(),
        source_name: site.source_name,
        extension_member_names: Seq::empty(),
        union_case_names: None,
        static_extension_member_names: Seq::empty(),
        is_extension_container: false,
        custom_attrs: Seq::empty(),
        abbreviation_target: site.abbreviation_target,
        definition_range: site.definition_range,
    }
}

/// The tree with the marker of the site, where one is made.
pub open spec fn with_marker(
    es: Seq<EntityModel>,
    assembly: AssemblyIdentityModel,
    site: SiteModel,
) -> Seq<EntityModel> {
    if site.type_chain.len() == 0 {
        if taken_at_top(es, site) {
            es
        } else {
            es.push(marker(assembly, site.namespace, site))
        }
    } else {
        match lookup::get(es, site.namespace, site.type_chain) {
            None => es,
            Some(c) => if taken(c.nested_types, site) {
                es
            } else {
                lookup::put(
                    es,
                    site.namespace,
                    site.type_chain,
                    EntityModel {
                        nested_types: c.nested_types.push(marker(assembly, Seq::empty(), site)),
                        ..c
                    },
                )
            },
        }
    }
}

/// The tree with the markers of the sites from the `i`-th on.
pub open spec fn marked_from(
    es: Seq<EntityModel>,
    assembly: AssemblyIdentityModel,
    sites: Seq<SiteModel>,
    i: nat,
) -> Seq<EntityModel>
    decreases sites.len() - i,
{
    if i >= sites.len() {
        es
    } else {
        marked_from(with_marker(es, assembly, sites[i as int]), assembly, sites, i + 1)
    }
}

/// The sites of a pickle, or the failure of the walk, or else that of a site.
pub open spec fn sites_of(ccu: PickledCcu) -> Result<Seq<SiteModel>, Fault> {
    let steps = walk::steps_of(ccu);
    match steps.end {
        Some(f) => Err(f),
        None => sites_from(
            ccu,
            steps.visits,
            0,
            Seq::empty(),
            targets::local_paths_from(ccu, steps.visits, 0, Map::empty()),
        ),
    }
}

/// An entity with the name of a site keeps it while the level grows.
proof fn lemma_stays_taken(
    assembly: AssemblyIdentityModel,
    s: Seq<EntityModel>,
    t: Seq<EntityModel>,
    site: SiteModel,
)
    requires
        growth::grown_all(assembly, s, t),
    ensures
        taken_at_top(s, site) ==> taken_at_top(t, site),
        taken(s, site) ==> taken(t, site),
{
    assert forall|i: int| 0 <= i < s.len() implies {
        &&& (#[trigger] s[i]).namespace == t[i].namespace
        &&& takes_name(s[i], site) == takes_name(t[i], site)
    } by {
        assert(growth::grown(assembly, s[i], t[i]));
        growth::lemma_grown(assembly, s[i], t[i]);
        let (a, b) = (frame::bare(s[i]), frame::bare(t[i]));
        assert(a.namespace == b.namespace && a.kind == b.kind && a.name == b.name);
        assert(a.source_name == b.source_name && a.generic_parameters == b.generic_parameters);
    }
    if taken_at_top(s, site) {
        let i = choose|i: int|
            0 <= i < s.len() && (#[trigger] s[i]).namespace == site.namespace && takes_name(
                s[i],
                site,
            );
        assert(t[i].namespace == site.namespace && takes_name(t[i], site));
    }
    if taken(s, site) {
        let i = choose|i: int| 0 <= i < s.len() && takes_name(#[trigger] s[i], site);
        assert(takes_name(t[i], site));
    }
}

/// The site is visible in the tree: an entity on its level has its name.
pub open spec fn visible(es: Seq<EntityModel>, site: SiteModel) -> bool {
    if site.type_chain.len() == 0 {
        taken_at_top(es, site)
    } else {
        match lookup::get(es, site.namespace, site.type_chain) {
            Some(c) => taken(c.nested_types, site),
            None => false,
        }
    }
}

/// The level of the site is in the tree: a namespace always is.
pub open spec fn has_level(es: Seq<EntityModel>, site: SiteModel) -> bool {
    site.type_chain.len() == 0 || lookup::get(es, site.namespace, site.type_chain) is Some
}

/// One marker makes the tree grow and the site visible.
proof fn lemma_with_marker(
    es: Seq<EntityModel>,
    assembly: AssemblyIdentityModel,
    site: SiteModel,
)
    ensures
        growth::grown_all(assembly, es, with_marker(es, assembly, site)),
        has_level(es, site) ==> visible(with_marker(es, assembly, site), site),
{
    growth::lemma_grown_all_refl(assembly, es);
    if site.type_chain.len() == 0 {
        let m = marker(assembly, site.namespace, site);
        if !taken_at_top(es, site) {
            growth::lemma_push_grows(assembly, es, m);
            assert(takes_name(es.push(m)[es.len() as int], site));
        }
    } else if let Some(c) = lookup::get(es, site.namespace, site.type_chain) {
        if !taken(c.nested_types, site) {
            let m = marker(assembly, Seq::empty(), site);
            let v = EntityModel { nested_types: c.nested_types.push(m), ..c };
            growth::lemma_push_grows(assembly, c.nested_types, m);
            assert(frame::bare(v) == frame::bare(c));
            growth::lemma_grown(assembly, c, v);
            growth::lemma_put_grows(assembly, es, site.namespace, site.type_chain, v);
            lookup::lemma_get_is_called(es, site.namespace, site.type_chain);
            lookup::law_get_put(es, site.namespace, site.type_chain, v);
            assert(takes_name(v.nested_types[c.nested_types.len() as int], site));
        }
    }
}

/// Markers only add to the tree: each entity stays in its place on its level with
/// all its facts, and what stands behind them is a marker: an abbreviation or an
/// exception of the given assembly, public, with no members, interfaces, base type or
/// union cases.
pub proof fn law_markers_only_add(
    es: Seq<EntityModel>,
    assembly: AssemblyIdentityModel,
    sites: Seq<SiteModel>,
    i: nat,
)
    ensures
        growth::grown_all(assembly, es, marked_from(es, assembly, sites, i)),
    decreases sites.len() - i,
{
    if i < sites.len() {
        let next = with_marker(es, assembly, sites[i as int]);
        lemma_with_marker(es, assembly, sites[i as int]);
        law_markers_only_add(next, assembly, sites, i + 1);
        growth::lemma_grown_all_trans(assembly, es, next, marked_from(es, assembly, sites, i));
    } else {
        growth::lemma_grown_all_refl(assembly, es);
    }
}

/// What is visible stays visible.
proof fn lemma_stays_visible(
    assembly: AssemblyIdentityModel,
    s: Seq<EntityModel>,
    t: Seq<EntityModel>,
    site: SiteModel,
)
    requires
        growth::grown_all(assembly, s, t),
    ensures
        visible(s, site) ==> visible(t, site),
        has_level(s, site) ==> has_level(t, site),
{
    if site.type_chain.len() == 0 {
        lemma_stays_taken(assembly, s, t, site);
    } else if let Some(a) = lookup::get(s, site.namespace, site.type_chain) {
        growth::lemma_get_grown(assembly, s, t, site.namespace, site.type_chain);
        let b = lookup::get(t, site.namespace, site.type_chain)->0;
        growth::lemma_grown(assembly, a, b);
        lemma_stays_taken(assembly, a.nested_types, b.nested_types, site);
    }
}

/// Each abbreviation whose level is in the tree is visible afterwards, by a marker
/// or by an entity that was there.
pub proof fn law_every_abbreviation_is_visible(
    es: Seq<EntityModel>,
    assembly: AssemblyIdentityModel,
    sites: Seq<SiteModel>,
    i: nat,
    j: int,
)
    requires
        i <= j < sites.len(),
        has_level(es, sites[j]),
    ensures
        visible(marked_from(es, assembly, sites, i), sites[j]),
    decreases sites.len() - i,
{
    let next = with_marker(es, assembly, sites[i as int]);
    lemma_with_marker(es, assembly, sites[i as int]);
    if i < j {
        lemma_stays_visible(assembly, es, next, sites[j]);
        law_every_abbreviation_is_visible(next, assembly, sites, i + 1, j);
    } else {
        law_markers_only_add(next, assembly, sites, i + 1);
        lemma_stays_visible(assembly, next, marked_from(next, assembly, sites, i + 1), sites[j]);
    }
}

/// What is visible, or has no level in the tree, gets no marker.
proof fn lemma_no_marker(
    es: Seq<EntityModel>,
    assembly: AssemblyIdentityModel,
    sites: Seq<SiteModel>,
    i: nat,
)
    requires
        forall|j: int|
            0 <= j < sites.len() ==> visible(es, #[trigger] sites[j]) || !has_level(es, sites[j]),
    ensures
        marked_from(es, assembly, sites, i) == es,
    decreases sites.len() - i,
{
    if i < sites.len() {
        let site = sites[i as int];
        assert(visible(es, site) || !has_level(es, site));
        lemma_no_marker(es, assembly, sites, i + 1);
    }
}

/// Marking a tree again adds nothing, unless it was a marker that brought the level of
/// an abbreviation into the tree.
pub proof fn law_marking_again_adds_nothing(
    es: Seq<EntityModel>,
    assembly: AssemblyIdentityModel,
    sites: Seq<SiteModel>,
)
    requires
        forall|j: int|
            0 <= j < sites.len() && has_level(
                marked_from(es, assembly, sites, 0),
                #[trigger] sites[j],
            ) ==> has_level(es, sites[j]),
    ensures
        ({
            let marked = marked_from(es, assembly, sites, 0);
            marked_from(marked, assembly, sites, 0) == marked
        }),
{
    let marked = marked_from(es, assembly, sites, 0);
    assert forall|j: int| 0 <= j < sites.len() implies visible(marked, #[trigger] sites[j])
        || !has_level(marked, sites[j]) by {
        if has_level(marked, sites[j]) {
            law_every_abbreviation_is_visible(es, assembly, sites, 0, j);
        }
    }
    lemma_no_marker(marked, assembly, sites, 0);
}

/// The names of the type parameters of an abbreviation.
fn typar_names(pickled: &PickledCcu, typars: &Vec<u32>) -> (r: Result<Vec<String>, ImportError>)
    ensures
        match typar_names_from(*pickled, typars@, 0, Seq::empty()) {
            Ok(ns) => r is Ok && r->Ok_0.deep_view() == ns,
            Err(e) => r is Err && r->Err_0.deep_view() == e,
        },
{
    let mut out: Vec<String> = Vec::new();
    assert(out.deep_view() =~= Seq::empty());
    let mut i: usize = 0;
    while i < typars.len()
        invariant
            i <= typars.len(),
            typar_names_from(*pickled, typars@, 0, Seq::empty()) == typar_names_from(
                *pickled,
                typars@,
                i as nat,
                out.deep_view(),
            ),
        decreases typars.len() - i,
    {
        let idx: u32 = typars[i];
        if idx as usize >= pickled.tables.typars.len() {
            return Err(
                ImportError::OsgnIndexOutOfRange {
                    kind: "typar (abbreviation marker)",
                    index: idx,
                    max: pickled.tables.typars.len(),
                },
            );
        }
        let ghost before = out.deep_view();
        let name = pickled.tables.typars[idx as usize].ident.name.clone();
        out.push(name);
        assert(out.deep_view() =~= before.push(name@));
        i = i + 1;
    }
    Ok(out)
}

/// The site that a visit contributes.
fn marker_site(
    pickled: &PickledCcu,
    visit: &Visit,
    local_fqns: &HashMap<u32, Vec<String>>,
) -> (r: Result<Option<AbbrevMarkerSite>, ImportError>)
    requires
        visit.stamp < pickled.tables.tycons@.len(),
    ensures
        match site_at(*pickled, visit.deep_view(), targets::paths_of(local_fqns@)) {
            Ok(s) => r is Ok && r->Ok_0.deep_view() == s,
            Err(e) => r is Err && r->Err_0.deep_view() == e,
        },
{
    let entity = &pickled.tables.tycons[visit.stamp as usize];
    if visit.is_root || entity.access.len() > 0 {
        return Ok(None);
    }
    let is_exception: bool = match &entity.exn_repr {
        PickledExnRepr::Abbrev(_) | PickledExnRepr::Asm(_) => true,
        _ => false,
    };
    if is_exception {
        let typar_names: Vec<String> = Vec::new();
        assert(typar_names.deep_view() =~= Seq::empty());
        return Ok(
            Some(
                AbbrevMarkerSite {
                    namespace: visit.namespace.dup(),
                    type_chain: visit.type_chain.dup(),
                    name: clr_name(entity),
                    source_name: None,
                    typar_names,
                    is_exception: true,
                    is_auto_open: false,
                    abbreviation_target: None,
                    definition_range: resolve_entity_range(pickled, entity),
                },
            ),
        );
    }
    let abbrev_ty = match &entity.type_abbrev {
        Some(t) => t,
        None => {
            return Ok(None);
        },
    };
    if entity.typar_kind == TyparKind::Measure {
        return Ok(None);
    }
    let typar_names = typar_names(pickled, &entity.typars)?;
    let abbreviation_target = decode_abbreviation_target(pickled, entity, abbrev_ty, local_fqns)?;
    Ok(
        Some(
            AbbrevMarkerSite {
                namespace: visit.namespace.dup(),
                type_chain: visit.type_chain.dup(),
                name: clr_name(entity),
                source_name: renamed_source_name(entity),
                typar_names,
                is_exception: false,
                is_auto_open: has_auto_open_attribute(pickled, &entity.attribs),
                abbreviation_target,
                definition_range: resolve_entity_range(pickled, entity),
            },
        ),
    )
}

/// The sites of these visits.
fn marker_sites(
    pickled: &PickledCcu,
    visits: &Vec<Visit>,
    local_fqns: &HashMap<u32, Vec<String>>,
) -> (r: Result<Vec<AbbrevMarkerSite>, ImportError>)
    requires
        walk::in_table(*pickled, visits.deep_view()),
    ensures
        match sites_from(
            *pickled,
            visits.deep_view(),
            0,
            Seq::empty(),
            targets::paths_of(local_fqns@),
        ) {
            Ok(s) => r is Ok && r->Ok_0.deep_view() == s,
            Err(e) => r is Err && r->Err_0.deep_view() == e,
        },
{
    let mut out: Vec<AbbrevMarkerSite> = Vec::new();
    assert(out.deep_view() =~= Seq::empty());
    let mut i: usize = 0;
    while i < visits.len()
        invariant
            i <= visits.len(),
            walk::in_table(*pickled, visits.deep_view()),
            sites_from(
                *pickled,
                visits.deep_view(),
                0,
                Seq::empty(),
                targets::paths_of(local_fqns@),
            ) == sites_from(
                *pickled,
                visits.deep_view(),
                i as nat,
                out.deep_view(),
                targets::paths_of(local_fqns@),
            ),
        decreases visits.len() - i,
    {
        assert(visits.deep_view()[i as int] == visits@[i as int].deep_view());
        match marker_site(pickled, &visits[i], local_fqns)? {
            Some(site) => {
                let ghost before = out.deep_view();
                out.push(site);
                assert(out.deep_view() =~= before.push(site.deep_view()));
            },
            None => {},
        }
        i = i + 1;
    }
    Ok(out)
}

/// The name under which F# code finds the entity or the abbreviation.
fn name_for_lookup<'a>(source_name: &'a Option<String>, name: &'a String) -> (r: &'a String)
    ensures
        r@ == lookup_name(source_name.deep_view(), name@),
{
    match source_name {
        Some(n) => n,
        None => name,
    }
}

/// Whether the entity has the name of the site, with as many type parameters.
fn same_key(e: &Entity, site: &AbbrevMarkerSite) -> (r: bool)
    ensures
        r == takes_name(e.deep_view(), site.deep_view()),
{
    let is_module: bool = match e.kind {
        EntityKind::Module => true,
        _ => false,
    };
    !is_module && name_for_lookup(&e.source_name, &e.name).same(
        name_for_lookup(&site.source_name, &site.name),
    ) && e.generic_parameters.len() == site.typar_names.len()
}

/// Whether some entity on the level of a namespace has the name of the site.
fn is_taken_at_top(entities: &Vec<Entity>, site: &AbbrevMarkerSite) -> (r: bool)
    ensures
        r == taken_at_top(entities.deep_view(), site.deep_view()),
{
    let mut i: usize = 0;
    while i < entities.len()
        invariant
            i <= entities.len(),
            forall|j: int|
                0 <= j < i ==> !((#[trigger] entities.deep_view()[j]).namespace
                    == site.deep_view().namespace && takes_name(
                    entities.deep_view()[j],
                    site.deep_view(),
                )),
        decreases entities.len() - i,
    {
        assert(entities.deep_view()[i as int] == entities@[i as int].deep_view());
        if entities[i].namespace.same(&site.namespace) && same_key(&entities[i], site) {
            return true;
        }
        i = i + 1;
    }
    false
}

/// Whether some entity of `entities` has the name of the site.
fn is_taken(entities: &Vec<Entity>, site: &AbbrevMarkerSite) -> (r: bool)
    ensures
        r == taken(entities.deep_view(), site.deep_view()),
{
    let mut i: usize = 0;
    while i < entities.len()
        invariant
            i <= entities.len(),
            forall|j: int|
                0 <= j < i ==> !takes_name(#[trigger] entities.deep_view()[j], site.deep_view()),
        decreases entities.len() - i,
    {
        assert(entities.deep_view()[i as int] == entities@[i as int].deep_view());
        if same_key(&entities[i], site) {
            return true;
        }
        i = i + 1;
    }
    false
}

/// The type parameters of a marker.
fn marker_parameters(names: &Vec<String>) -> (r: Vec<TypeParameter>)
    ensures
        r.deep_view() == names.deep_view().map_values(|n: Seq<char>| marker_parameter(n)),
{
    let mut out: Vec<TypeParameter> = Vec::new();
    let mut i: usize = 0;
    while i < names.len()
        invariant
            i <= names.len(),
            out@.len() == i,
            forall|j: int|
                0 <= j < i ==> (#[trigger] out@[j]).deep_view() == marker_parameter(names@[j]@),
        decreases names.len() - i,
    {
        let p = TypeParameter {
            name: names[i].clone(),
            variance: Variance::Invariant,
            reference_type_constraint: false,
            value_type_constraint: false,
            default_constructor_constraint: false,
            is_unmanaged: false,
            allows_ref_struct: false,
            nullability: Nullability::Oblivious,
            type_constraints: Vec::new(),
        };
        assert(p.type_constraints.deep_view() =~= Seq::empty());
        out.push(p);
        i = i + 1;
    }
    assert(out.deep_view() =~= names.deep_view().map_values(
        |n: Seq<char>| marker_parameter(n),
    ));
    out
}

/// The marker of a site.
fn abbreviation_marker(
    assembly: &AssemblyIdentity,
    namespace: Vec<String>,
    site: &AbbrevMarkerSite,
) -> (r: Entity)
    ensures
        r.deep_view() == marker(
            assembly.deep_view(),
            namespace.deep_view(),
            site.deep_view(),
        ),
{
    broadcast use crate::model::lemma_entity_model_nested;

    let kind: EntityKind = if site.is_exception {
        EntityKind::Exception
    } else {
        EntityKind::Abbreviation
    };
    let generic_parameters = marker_parameters(&site.typar_names);
    let e = Entity {
        assembly: assembly.dup(),
        namespace,
        name: site.name.clone(),
        kind,
        access: Access::Public,
        is_sealed: false,
        generic_parameters,
        base_type: None,
        interfaces: Vec::new(),
        members: Vec::new(),
        skipped_members: Vec::new(),
        method_def_tokens: Vec::new(),
        nested_types: Vec::new(),
        is_readonly: false,
        is_byref_like: false,
        is_struct: false,
        is_auto_open: site.is_auto_open,
        is_require_qualified_access: false,
        is_no_equality: false,
        is_no_comparison: false,
        is_structural_equality: false,
        is_structural_comparison: false,
        is_allow_null_literal: false,
        obsolete: None,
        experimental: None,
        default_member: None,
        compiler_feature_required: Vec::new(),
        source_name: site.source_name.dup(),
        extension_member_names: Vec::new(),
        union_case_names: None,
        static_extension_member_names: Vec::new(),
        is_extension_container: false,
        custom_attrs: Vec::new(),
        abbreviation_target: site.abbreviation_target.dup(),
        definition_range: site.definition_range.dup(),
    };
    assert(e.interfaces.deep_view() =~= Seq::empty());
    assert(e.members.deep_view() =~= Seq::empty());
    assert(e.skipped_members.deep_view() =~= Seq::empty());
    assert(e.method_def_tokens.deep_view() =~= Seq::empty());
    assert(e.nested_types.deep_view() =~= Seq::empty());
    assert(e.compiler_feature_required.deep_view() =~= Seq::empty());
    assert(e.extension_member_names.deep_view() =~= Seq::empty());
    assert(e.static_extension_member_names.deep_view() =~= Seq::empty());
    assert(e.custom_attrs.deep_view() =~= Seq::empty());
    e
}

/// Add the marker of a site to the tree, where one is made.
fn place_marker(entities: &mut Vec<Entity>, assembly: &AssemblyIdentity, site: &AbbrevMarkerSite)
    ensures
        final(entities).deep_view() == with_marker(
            old(entities).deep_view(),
            assembly.deep_view(),
            site.deep_view(),
        ),
{
    broadcast use crate::model::lemma_entity_model_nested;

    if site.type_chain.len() == 0 {
        if !is_taken_at_top(entities, site) {
            let m = abbreviation_marker(assembly, site.namespace.dup(), site);
            entities.push(m);
            assert(entities.deep_view() =~= old(entities).deep_view().push(m.deep_view()));
        }
    } else {
        proof {
            let t = site.deep_view();
            if lookup::get(entities.deep_view(), t.namespace, t.type_chain) is Some {
                lookup::law_put_get(entities.deep_view(), t.namespace, t.type_chain);
            }
        }
        match find_entity_mut(entities, &site.namespace, &site.type_chain) {
            None => {},
            Some(container) => {
                if !is_taken(&container.nested_types, site) {
                    let none: Vec<String> = Vec::new();
                    assert(none.deep_view() =~= Seq::empty());
                    let m = abbreviation_marker(assembly, none, site);
                    let ghost before = container.nested_types.deep_view();
                    container.nested_types.push(m);
                    assert(container.nested_types.deep_view() =~= before.push(m.deep_view()));
                }
            },
        }
    }
}

/// Add a marker for each public abbreviation that only the pickle knows. Nothing is
/// added where the walk or a site fails.
pub fn apply_abbreviation_markers(
    entities: &mut Vec<Entity>,
    pickled: &PickledCcu,
    assembly: &AssemblyIdentity,
) -> (r: Result<(), ImportError>)
    ensures
        assembly.name@ == "FSharp.Core"@ ==> r is Ok && final(entities).deep_view()
            == old(entities).deep_view(),
        assembly.name@ != "FSharp.Core"@ ==> match sites_of(*pickled) {
            Ok(sites) => r is Ok && final(entities).deep_view() == marked_from(
                old(entities).deep_view(),
                assembly.deep_view(),
                sites,
                0,
            ),
            Err(e) => r is Err && r->Err_0.deep_view() == e && final(entities).deep_view()
                == old(entities).deep_view(),
        },
{
    if same_text(assembly.name.as_str(), "FSharp.Core") {
        return Ok(());
    }
    let local_fqns = local_tycon_fqns(pickled)?;
    let (visits, end) = walk::walk(pickled);
    end?;
    let sites = marker_sites(pickled, &visits, &local_fqns)?;
    let mut i: usize = 0;
    while i < sites.len()
        invariant
            i <= sites.len(),
            marked_from(old(entities).deep_view(), assembly.deep_view(), sites.deep_view(), 0)
                == marked_from(
                entities.deep_view(),
                assembly.deep_view(),
                sites.deep_view(),
                i as nat,
            ),
        decreases sites.len() - i,
    {
        assert(sites.deep_view()[i as int] == sites@[i as int].deep_view());
        place_marker(entities, assembly, &sites[i]);
        i = i + 1;
    }
    Ok(())
}

} // verus!
