//! The probes: project an image, decorate it, project it again, and compare.
use crate::error::{Fault, ImportError};
use crate::image::{CustomMod, Image, ImageModel, TypeScope};
use crate::model::{
    AssemblyProjectionSkips, AssemblyProjectionSkipsModel, Entity, EntityModel,
};
use crate::modifier_metamorphic::compare;
use crate::modifier_metamorphic::compare::{
    count_member_skips, count_members, count_types, diff_entities, surviving_constraint_declarers,
    surviving_members, surviving_signature_consumers, Counted, Finding, FindingModel,
};
use crate::modifier_metamorphic::decorate;
use crate::modifier_metamorphic::decorate::{decorate_image, Scope};
use crate::modifier_metamorphic::hostile;
use crate::modifier_metamorphic::hostile::{make_hostile, HostileShape};
use crate::same::{Duplicate, Same};
use vstd::prelude::*;

verus! {

/// What an image projects to: the types, and what was left out.
#[derive(Debug, PartialEq, Eq)]
pub struct Projection {
    pub entities: Vec<Entity>,
    pub skips: AssemblyProjectionSkips,
}

/// The model of a [`Projection`].
pub struct ProjectionModel {
    pub entities: Seq<EntityModel>,
    pub skips: AssemblyProjectionSkipsModel,
}

impl DeepView for Projection {
    type V = ProjectionModel;

    open spec fn deep_view(&self) -> ProjectionModel {
        ProjectionModel { entities: self.entities.deep_view(), skips: self.skips.deep_view() }
    }
}

/// What a probe saw.
#[derive(Debug, PartialEq, Eq)]
pub struct ProbeOutcome {
    /// The types of the first projection.
    pub baseline_types: usize,
    /// The members of the first projection. Without any the probe shows nothing.
    pub baseline_members: usize,
    /// What the first projection refused: dropped types and skipped members. Two
    /// projections that both accept a hostile shape agree; only this number shows that
    /// it was refused.
    pub baseline_refusals: usize,
    /// The second projection failed as a whole. With a required modifier that is one
    /// way not to ignore it.
    pub refused_wholesale: bool,
    /// Empty if and only if the property held.
    pub findings: Vec<Finding>,
}

/// The model of a [`ProbeOutcome`].
pub struct ProbeOutcomeModel {
    pub baseline_types: usize,
    pub baseline_members: usize,
    pub baseline_refusals: usize,
    pub refused_wholesale: bool,
    pub findings: Seq<FindingModel>,
}

impl DeepView for ProbeOutcome {
    type V = ProbeOutcomeModel;

    open spec fn deep_view(&self) -> ProbeOutcomeModel {
        ProbeOutcomeModel {
            baseline_types: self.baseline_types,
            baseline_members: self.baseline_members,
            baseline_refusals: self.baseline_refusals,
            refused_wholesale: self.refused_wholesale,
            findings: self.findings.deep_view(),
        }
    }
}

/// The modifier that is put everywhere. It names the first type definition of the image,
/// which holds the members of no type and which no compiler uses as a modifier.
pub open spec fn unknown_modifier(required: bool) -> CustomMod {
    CustomMod { required, modifier: TypeScope::Definition(0) }
}

/// What is found in two projections without and with the modifier.
pub open spec fn findings_in(
    baseline: ProjectionModel,
    decorated: ProjectionModel,
    required: bool,
    scope: Scope,
) -> Seq<FindingModel> {
    let b = compare::flat(baseline.entities);
    let d = compare::flat(decorated.entities);
    if !required {
        let trees = compare::tree_differences(
            baseline.entities,
            decorated.entities,
            Seq::empty(),
            Seq::empty(),
        );
        if baseline.skips == decorated.skips {
            trees
        } else {
            trees.push(
                FindingModel::SkipsMoved {
                    baseline: baseline.skips,
                    decorated: decorated.skips,
                },
            )
        }
    } else {
        match scope {
            Scope::Members => compare::all_members_left_from(d, 0, Seq::empty()),
            Scope::Constraints => compare::declarers_left_from(b, d, 0, Seq::empty()),
            Scope::Everything => compare::consumers_left_from(
                b,
                d,
                0,
                compare::all_members_left_from(d, 0, Seq::empty()),
            ),
        }
    }
}

/// What the first projection refused.
pub open spec fn refusals_of(baseline: ProjectionModel) -> usize {
    ((baseline.skips.dropped_types.len() + compare::counted(
        baseline.entities,
        Counted::SkippedMembers,
    )) % (usize::MAX + 1)) as usize
}

/// What a probe sees of two projections, where the second may have failed.
pub open spec fn outcome_of(
    baseline: ProjectionModel,
    decorated: Result<ProjectionModel, Fault>,
    required: bool,
    scope: Scope,
) -> ProbeOutcomeModel {
    ProbeOutcomeModel {
        baseline_types: compare::counted(baseline.entities, Counted::Types),
        baseline_members: compare::counted(baseline.entities, Counted::Members),
        baseline_refusals: refusals_of(baseline),
        refused_wholesale: decorated is Err,
        findings: match decorated {
            Err(error) => if required {
                Seq::empty()
            } else {
                seq![FindingModel::ProjectionFailed { error }]
            },
            Ok(d) => findings_in(baseline, d, required, scope),
        },
    }
}

/// The model of what a projection returned.
pub open spec fn returned(r: Result<Projection, ImportError>) -> Result<ProjectionModel, Fault> {
    match r {
        Ok(p) => Ok(p.deep_view()),
        Err(e) => Err(e.deep_view()),
    }
}

/// The outcome `r` is that of a probe whose first projection, of `plain`, returned
/// `first`: unless that failed, `project` was asked for the decorated image.
pub open spec fn goes_on<F: Fn(&Image) -> Result<Projection, ImportError>>(
    project: F,
    plain: Image,
    first: Result<Projection, ImportError>,
    required: bool,
    scope: Scope,
    r: Result<ProbeOutcome, ImportError>,
) -> bool {
    match first {
        Err(e) => r is Err && r->Err_0.deep_view() == e.deep_view(),
        Ok(baseline) => exists|image: Image, second: Result<Projection, ImportError>|
            {
                &&& #[trigger] call_ensures(project, (&image,), second)
                &&& image.deep_view() == decorate::decorated_image(
                    plain.deep_view(),
                    unknown_modifier(required),
                    scope,
                )
                &&& r is Ok
                &&& r->Ok_0.deep_view() == outcome_of(
                    baseline.deep_view(),
                    returned(second),
                    required,
                    scope,
                )
            },
    }
}

/// The outcome `r` is that of a probe: `project` was asked for the image in the shape
/// and, unless it failed, for the decorated one.
pub open spec fn is_probe<F: Fn(&Image) -> Result<Projection, ImportError>>(
    project: F,
    image: ImageModel,
    required: bool,
    shape: HostileShape,
    scope: Scope,
    r: Result<ProbeOutcome, ImportError>,
) -> bool {
    exists|plain: Image, first: Result<Projection, ImportError>|
        {
            &&& #[trigger] call_ensures(project, (&plain,), first)
            &&& plain.deep_view() == hostile::hostile_image(image, shape)
            &&& goes_on(project, plain, first, required, scope, r)
        }
}

/// What `project` returns for an image depends on the image alone.
pub open spec fn is_function<F: Fn(&Image) -> Result<Projection, ImportError>>(project: F) -> bool {
    forall|
        a: Image,
        b: Image,
        r: Result<Projection, ImportError>,
        s: Result<Projection, ImportError>,
    |
        #[trigger] call_ensures(project, (&a,), r) && #[trigger] call_ensures(project, (&b,), s)
            && a.deep_view() == b.deep_view() ==> returned(r) == returned(s)
}

/// Two outcomes start from the same first projection, or fail alike.
pub open spec fn same_baseline(
    r: Result<ProbeOutcome, ImportError>,
    s: Result<ProbeOutcome, ImportError>,
) -> bool {
    match (r, s) {
        (Ok(a), Ok(b)) => {
            &&& a.baseline_types == b.baseline_types
            &&& a.baseline_members == b.baseline_members
            &&& a.baseline_refusals == b.baseline_refusals
        },
        (Err(a), Err(b)) => a.deep_view() == b.deep_view(),
        _ => false,
    }
}

/// All probes of an image in one shape start from the same first projection, whatever
/// modifier they put and wherever they put it, if projecting is a function.
pub proof fn law_baselines_agree<F: Fn(&Image) -> Result<Projection, ImportError>>(
    project: F,
    image: ImageModel,
    shape: HostileShape,
    required: bool,
    scope: Scope,
    r: Result<ProbeOutcome, ImportError>,
    other_required: bool,
    other_scope: Scope,
    s: Result<ProbeOutcome, ImportError>,
)
    requires
        is_function(project),
        is_probe(project, image, required, shape, scope, r),
        is_probe(project, image, other_required, shape, other_scope, s),
    ensures
        same_baseline(r, s),
{
    let plain = hostile::hostile_image(image, shape);
    let (a, first) = choose|a: Image, first: Result<Projection, ImportError>|
        #[trigger] call_ensures(project, (&a,), first) && a.deep_view() == plain && goes_on(
            project,
            a,
            first,
            required,
            scope,
            r,
        );
    let (b, other) = choose|b: Image, other: Result<Projection, ImportError>|
        #[trigger] call_ensures(project, (&b,), other) && b.deep_view() == plain && goes_on(
            project,
            b,
            other,
            other_required,
            other_scope,
            s,
        );
    assert(returned(first) == returned(other));
}

/// The same probe of the same image has the same outcome, if projecting is a function;
/// so the probe without a shape is the one on the plain shape.
pub proof fn law_probe_is_a_function<F: Fn(&Image) -> Result<Projection, ImportError>>(
    project: F,
    image: ImageModel,
    shape: HostileShape,
    required: bool,
    scope: Scope,
    r: Result<ProbeOutcome, ImportError>,
    s: Result<ProbeOutcome, ImportError>,
)
    requires
        is_function(project),
        is_probe(project, image, required, shape, scope, r),
        is_probe(project, image, required, shape, scope, s),
    ensures
        match (r, s) {
            (Ok(a), Ok(b)) => a.deep_view() == b.deep_view(),
            (Err(a), Err(b)) => a.deep_view() == b.deep_view(),
            _ => false,
        },
{
    let plain = hostile::hostile_image(image, shape);
    let (a, first) = choose|a: Image, first: Result<Projection, ImportError>|
        #[trigger] call_ensures(project, (&a,), first) && a.deep_view() == plain && goes_on(
            project,
            a,
            first,
            required,
            scope,
            r,
        );
    let (b, other) = choose|b: Image, other: Result<Projection, ImportError>|
        #[trigger] call_ensures(project, (&b,), other) && b.deep_view() == plain && goes_on(
            project,
            b,
            other,
            required,
            scope,
            s,
        );
    assert(returned(first) == returned(other));
    if first is Ok {
        let shown = decorate::decorated_image(plain, unknown_modifier(required), scope);
        let (c, second) = choose|c: Image, second: Result<Projection, ImportError>|
            {
                &&& #[trigger] call_ensures(project, (&c,), second)
                &&& c.deep_view() == shown
                &&& r->Ok_0.deep_view() == outcome_of(
                    first->Ok_0.deep_view(),
                    returned(second),
                    required,
                    scope,
                )
            };
        let (d, last) = choose|d: Image, last: Result<Projection, ImportError>|
            {
                &&& #[trigger] call_ensures(project, (&d,), last)
                &&& d.deep_view() == shown
                &&& s->Ok_0.deep_view() == outcome_of(
                    other->Ok_0.deep_view(),
                    returned(last),
                    required,
                    scope,
                )
            };
        assert(returned(second) == returned(last));
    }
}

/// With an optional modifier something is found if and only if the projections differ.
pub proof fn law_inert_iff_equal(
    baseline: ProjectionModel,
    decorated: ProjectionModel,
    scope: Scope,
)
    ensures
        findings_in(baseline, decorated, false, scope).len() == 0 <==> baseline == decorated,
{
    compare::law_findings_iff_trees_differ(
        baseline.entities,
        decorated.entities,
        Seq::empty(),
        Seq::empty(),
    );
    let trees = compare::tree_differences(
        baseline.entities,
        decorated.entities,
        Seq::empty(),
        Seq::empty(),
    );
    if trees.len() == 0 {
        assert(trees =~= Seq::empty());
    }
}

/// With a required modifier on the members something is found if and only if a member
/// is left.
pub proof fn law_refused_iff_no_member_is_left(
    baseline: ProjectionModel,
    decorated: ProjectionModel,
)
    ensures
        findings_in(baseline, decorated, true, Scope::Members).len() == 0 <==> (forall|i: int|
            0 <= i < compare::flat(decorated.entities).len() ==> (#[trigger] compare::flat(
                decorated.entities,
            )[i]).members.len() == 0),
{
    lemma_members_left(compare::flat(decorated.entities), 0, Seq::empty());
}

/// As many findings are added as an entity has members from the `j`-th on.
proof fn lemma_own_members_left(e: EntityModel, j: nat, acc: Seq<FindingModel>)
    requires
        j <= e.members.len(),
    ensures
        compare::members_left_from(e, j, acc).len() == acc.len() + e.members.len() - j,
    decreases e.members.len() - j,
{
    if j < e.members.len() {
        lemma_own_members_left(
            e,
            j + 1,
            acc.push(
                FindingModel::MemberSurvived {
                    member: compare::qualified(
                        e,
                        crate::fsharp_pickle_merge::member_list::member_name(e.members[j as int]),
                    ),
                },
            ),
        );
    }
}

/// Findings are added if and only if an entity from the `i`-th on has a member.
proof fn lemma_members_left(es: Seq<EntityModel>, i: nat, acc: Seq<FindingModel>)
    ensures
        acc.len() <= compare::all_members_left_from(es, i, acc).len(),
        compare::all_members_left_from(es, i, acc).len() == acc.len() <==> (forall|k: int|
            i <= k < es.len() ==> (#[trigger] es[k]).members.len() == 0),
    decreases es.len() - i,
{
    if i < es.len() {
        lemma_own_members_left(es[i as int], 0, acc);
        lemma_members_left(es, i + 1, compare::members_left_from(es[i as int], 0, acc));
    }
}

/// What a probe sees of two projections, where the second may have failed.
pub fn judge(
    baseline: &Projection,
    decorated: Result<Projection, ImportError>,
    required: bool,
    scope: Scope,
) -> (r: ProbeOutcome)
    ensures
        r.deep_view() == outcome_of(
            baseline.deep_view(),
            returned(decorated),
            required,
            scope,
        ),
{
    let baseline_types: usize = count_types(&baseline.entities);
    let baseline_members: usize = count_members(&baseline.entities);
    let skipped: usize = count_member_skips(&baseline.entities);
    let dropped: usize = baseline.skips.dropped_types.len();
    let baseline_refusals: usize = dropped.wrapping_add(skipped);
    proof {
        let m = usize::MAX + 1;
        let sum = dropped + skipped;
        assert(sum % m == (if sum < m {
            sum
        } else {
            sum - m
        })) by (nonlinear_arith)
            requires
                0 <= sum < m + m,
        ;
    }
    let mut findings: Vec<Finding> = Vec::new();
    assert(findings.deep_view() =~= Seq::empty());
    let mut refused_wholesale: bool = false;
    match decorated {
        Err(error) => {
            refused_wholesale = true;
            if !required {
                findings.push(Finding::ProjectionFailed { error });
                assert(findings.deep_view() =~= seq![
                    FindingModel::ProjectionFailed { error: error.deep_view() },
                ]);
            }
        },
        Ok(decorated) => {
            if !required {
                let root = String::new();
                assert(root@ =~= Seq::empty());
                diff_entities(&baseline.entities, &decorated.entities, &root, &mut findings);
                if !baseline.skips.same(&decorated.skips) {
                    let ghost before = findings.deep_view();
                    let f = Finding::SkipsMoved {
                        baseline: baseline.skips.dup(),
                        decorated: decorated.skips.dup(),
                    };
                    findings.push(f);
                    assert(findings.deep_view() =~= before.push(f.deep_view()));
                }
            } else {
                match scope {
                    Scope::Members => {
                        surviving_members(&decorated.entities, &mut findings);
                    },
                    Scope::Constraints => {
                        surviving_constraint_declarers(
                            &baseline.entities,
                            &decorated.entities,
                            &mut findings,
                        );
                    },
                    Scope::Everything => {
                        surviving_members(&decorated.entities, &mut findings);
                        surviving_signature_consumers(
                            &baseline.entities,
                            &decorated.entities,
                            &mut findings,
                        );
                    },
                }
            }
        },
    }
    ProbeOutcome {
        baseline_types,
        baseline_members,
        baseline_refusals,
        refused_wholesale,
        findings,
    }
}

/// Project the image in the shape, decorate it, project it again, and compare.
fn probe<F: Fn(&Image) -> Result<Projection, ImportError>>(
    image: &Image,
    project: F,
    required: bool,
    shape: HostileShape,
    scope: Scope,
) -> (r: Result<ProbeOutcome, ImportError>)
    requires
        forall|i: Image| #[trigger] call_requires(project, (&i,)),
    ensures
        is_probe(project, image.deep_view(), required, shape, scope, r),
{
    let mut plain = image.dup();
    make_hostile(&mut plain, shape);
    let first = project(&plain);
    assert(call_ensures(project, (&plain,), first));
    match first {
        Err(e) => Err(e),
        Ok(baseline) => {
            let mut decorated = plain.dup();
            let modifier = CustomMod { required, modifier: TypeScope::Definition(0) };
            decorate_image(&mut decorated, modifier, scope);
            let second = project(&decorated);
            assert(call_ensures(project, (&decorated,), second));
            Ok(judge(&baseline, second, required, scope))
        },
    }
}

/// An optional modifier in front of every position must not move the projection.
pub fn modopt_saturation_is_inert<F: Fn(&Image) -> Result<Projection, ImportError>>(
    image: &Image,
    project: F,
) -> (r: Result<ProbeOutcome, ImportError>)
    requires
        forall|i: Image| #[trigger] call_requires(project, (&i,)),
    ensures
        is_probe(
            project,
            image.deep_view(),
            false,
            HostileShape::Plain,
            Scope::Everything,
            r,
        ),
{
    modopt_saturation_is_inert_on(image, project, HostileShape::Plain)
}

/// An optional modifier in front of every position must not move the projection of the
/// image in the shape.
pub fn modopt_saturation_is_inert_on<F: Fn(&Image) -> Result<Projection, ImportError>>(
    image: &Image,
    project: F,
    shape: HostileShape,
) -> (r: Result<ProbeOutcome, ImportError>)
    requires
        forall|i: Image| #[trigger] call_requires(project, (&i,)),
    ensures
        is_probe(project, image.deep_view(), false, shape, Scope::Everything, r),
{
    probe(image, project, false, shape, Scope::Everything)
}

/// A required modifier in front of every position must leave no member, and no type
/// whose projection read a signature.
pub fn unknown_modreq_saturation_refuses<F: Fn(&Image) -> Result<Projection, ImportError>>(
    image: &Image,
    project: F,
) -> (r: Result<ProbeOutcome, ImportError>)
    requires
        forall|i: Image| #[trigger] call_requires(project, (&i,)),
    ensures
        is_probe(
            project,
            image.deep_view(),
            true,
            HostileShape::Plain,
            Scope::Everything,
            r,
        ),
{
    probe(image, project, true, HostileShape::Plain, Scope::Everything)
}

/// A required modifier in front of the constraints must leave neither a type nor a
/// method that has one.
pub fn unknown_modreq_on_constraints_refuses<F: Fn(&Image) -> Result<Projection, ImportError>>(
    image: &Image,
    project: F,
) -> (r: Result<ProbeOutcome, ImportError>)
    requires
        forall|i: Image| #[trigger] call_requires(project, (&i,)),
    ensures
        is_probe(
            project,
            image.deep_view(),
            true,
            HostileShape::Plain,
            Scope::Constraints,
            r,
        ),
{
    probe(image, project, true, HostileShape::Plain, Scope::Constraints)
}

/// A required modifier in the signatures of the members must leave no member.
pub fn unknown_modreq_on_members_refuses<F: Fn(&Image) -> Result<Projection, ImportError>>(
    image: &Image,
    project: F,
) -> (r: Result<ProbeOutcome, ImportError>)
    requires
        forall|i: Image| #[trigger] call_requires(project, (&i,)),
    ensures
        is_probe(
            project,
            image.deep_view(),
            true,
            HostileShape::Plain,
            Scope::Members,
            r,
        ),
{
    probe(image, project, true, HostileShape::Plain, Scope::Members)
}

} // verus!
