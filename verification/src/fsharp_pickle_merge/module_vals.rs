//! The index of module values: for each module or type of a pickle, the values that
//! compile to its own type definition, in the order of their declaration.
use crate::error::{Fault, ImportError};
use crate::fsharp_pickle::model::{
    IsType, PickledArgReprInfo, PickledCcu, PickledTyparReprInfo, PickledVal, TyparKind,
};
use crate::fsharp_pickle_merge::extension_index;
use crate::fsharp_pickle_merge::names;
use crate::fsharp_pickle_merge::names::{
    clr_name, resolve_definition_range, VAL_FLAGS_IS_EXTENSION_MEMBER,
};
use crate::fsharp_pickle_merge::walk;
use crate::fsharp_pickle_merge::walk::{Visit, VisitModel};
use crate::model::{FsharpSourceRange, FsharpSourceRangeModel};
use crate::same::Duplicate;
use vstd::prelude::*;

verus! {

/// One module or type of the pickle, located in the entity tree, with its values.
///
/// There is one for each entity that is no namespace. The members of a class, union
/// or record are not values of a module, so those have none here.
#[derive(Debug, Clone, PartialEq, Eq)]
pub struct ModuleMemberTarget {
    pub namespace: Vec<String>,
    /// The chain of the enclosing types and of the entity itself.
    pub type_chain: Vec<String>,
    /// The bindings and augmentations of the module, in the order of their
    /// declaration. A module also holds the members of the types that are declared
    /// in it; those compile to the type definition of the type and are not listed.
    pub vals: Vec<ModuleMemberVal>,
}

/// What the member list of a module needs of one value.
#[derive(Debug, Clone, PartialEq, Eq)]
pub struct ModuleMemberVal {
    /// The place of the value in the table of values.
    pub val_index: u32,
    /// The F# name.
    pub logical_name: String,
    /// The name that the source gave for the compiled form, if any.
    pub compiled_name: Option<String>,
    /// The number of parameters of the compiled method, where it is known.
    pub il_arity: Option<usize>,
    /// The number of argument groups, where it is known. A value that takes none is
    /// compiled to a property, or to a field if it is a literal.
    pub arg_group_count: Option<usize>,
    pub is_instance: bool,
    /// Whether the value is a member: here, an augmentation.
    pub is_member: bool,
    pub is_extension: bool,
    /// Whether the compiled method is generic. A measure parameter is erased and
    /// does not make it so.
    pub is_generic: bool,
    pub is_literal: bool,
    /// Whether every assembly may use the value.
    pub is_public: bool,
    pub definition_range: Option<FsharpSourceRange>,
}

/// The model of a [`ModuleMemberTarget`].
pub struct ModuleMemberTargetModel {
    pub namespace: Seq<Seq<char>>,
    pub type_chain: Seq<Seq<char>>,
    pub vals: Seq<ModuleMemberValModel>,
}

/// The model of a [`ModuleMemberVal`].
pub struct ModuleMemberValModel {
    pub val_index: u32,
    pub logical_name: Seq<char>,
    pub compiled_name: Option<Seq<char>>,
    pub il_arity: Option<usize>,
    pub arg_group_count: Option<usize>,
    pub is_instance: bool,
    pub is_member: bool,
    pub is_extension: bool,
    pub is_generic: bool,
    pub is_literal: bool,
    pub is_public: bool,
    pub definition_range: Option<FsharpSourceRangeModel>,
}

impl DeepView for ModuleMemberTarget {
    type V = ModuleMemberTargetModel;

    open spec fn deep_view(&self) -> ModuleMemberTargetModel {
        ModuleMemberTargetModel {
            namespace: self.namespace.deep_view(),
            type_chain: self.type_chain.deep_view(),
            vals: self.vals.deep_view(),
        }
    }
}

impl DeepView for ModuleMemberVal {
    type V = ModuleMemberValModel;

    open spec fn deep_view(&self) -> ModuleMemberValModel {
        ModuleMemberValModel {
            val_index: self.val_index,
            logical_name: self.logical_name@,
            compiled_name: self.compiled_name.deep_view(),
            il_arity: self.il_arity,
            arg_group_count: self.arg_group_count,
            is_instance: self.is_instance,
            is_member: self.is_member,
            is_extension: self.is_extension,
            is_generic: self.is_generic,
            is_literal: self.is_literal,
            is_public: self.is_public,
            definition_range: self.definition_range.deep_view(),
        }
    }
}

impl ModuleMemberValModel {
    /// The name of the compiled form.
    pub open spec fn il_name(self) -> Seq<char> {
        match self.compiled_name {
            Some(n) => n,
            None => self.logical_name,
        }
    }
}

/// The number of arguments in the first `n` groups.
pub open spec fn arguments_in(groups: Seq<Vec<PickledArgReprInfo>>, n: nat) -> nat
    decreases n,
{
    if n == 0 || n > groups.len() {
        0
    } else {
        arguments_in(groups, (n - 1) as nat) + groups[n - 1]@.len()
    }
}

/// The number of parameters of the compiled method: the arguments of all groups, as
/// far as a `usize` can count them.
pub open spec fn il_arity_of(v: PickledVal) -> Option<usize> {
    match v.repr_info {
        Some(r) => Some(
            (arguments_in(r.arg_repr@, r.arg_repr@.len()) as int % (usize::MAX + 1)) as usize,
        ),
        None => None,
    }
}

/// Some type parameter of the value is of kind type.
pub open spec fn has_type_typar(typars: Seq<PickledTyparReprInfo>) -> bool {
    exists|i: int| 0 <= i < typars.len() && (#[trigger] typars[i]).kind == TyparKind::Type
}

/// The value compiles to the type definition of the module that holds it.
pub open spec fn is_own(v: PickledVal) -> bool {
    v.member_info is None || extension_index::is_extension(v)
}

/// The entry of the value `v` at `vi`.
pub open spec fn member_val(ccu: PickledCcu, vi: u32, v: PickledVal) -> ModuleMemberValModel {
    ModuleMemberValModel {
        val_index: vi,
        logical_name: v.logical_name@,
        compiled_name: v.compiled_name.deep_view(),
        il_arity: il_arity_of(v),
        arg_group_count: match v.repr_info {
            Some(r) => Some(r.arg_repr@.len() as usize),
            None => None,
        },
        is_instance: extension_index::is_instance(v),
        is_member: v.member_info is Some,
        is_extension: extension_index::is_extension(v),
        is_generic: match v.repr_info {
            Some(r) => has_type_typar(r.typar_repr@),
            None => false,
        },
        is_literal: v.literal_value is Some,
        is_public: v.access@.len() == 0,
        definition_range: names::val_range_of(ccu, v),
    }
}

/// The entries of the values from the `i`-th on, after those in `acc`, or the
/// failure of the first that does not exist.
pub open spec fn member_vals_from(
    ccu: PickledCcu,
    vals: Seq<u32>,
    i: nat,
    acc: Seq<ModuleMemberValModel>,
) -> Result<Seq<ModuleMemberValModel>, Fault>
    decreases vals.len() - i,
{
    if i >= vals.len() {
        Ok(acc)
    } else {
        let vi = vals[i as int];
        if vi >= ccu.tables.vals@.len() {
            Err(
                Fault::OsgnIndexOutOfRange {
                    kind: "val (module-member index)",
                    index: vi,
                    max: ccu.tables.vals@.len() as usize,
                },
            )
        } else {
            let v = ccu.tables.vals@[vi as int];
            member_vals_from(
                ccu,
                vals,
                i + 1,
                if is_own(v) {
                    acc.push(member_val(ccu, vi, v))
                } else {
                    acc
                },
            )
        }
    }
}

/// The targets of the visits from the `i`-th on, after those in `acc`.
pub open spec fn targets_from(
    ccu: PickledCcu,
    visits: Seq<VisitModel>,
    i: nat,
    acc: Seq<ModuleMemberTargetModel>,
) -> Result<Seq<ModuleMemberTargetModel>, Fault>
    decreases visits.len() - i,
{
    if i >= visits.len() {
        Ok(acc)
    } else {
        let v = visits[i as int];
        let e = walk::tycon(ccu, v.stamp);
        if !v.is_root && names::is_module_or_type(e) {
            match member_vals_from(ccu, e.module_type.vals@, 0, Seq::empty()) {
                Err(f) => Err(f),
                Ok(vals) => targets_from(
                    ccu,
                    visits,
                    i + 1,
                    acc.push(
                        ModuleMemberTargetModel {
                            namespace: v.namespace,
                            type_chain: v.type_chain.push(names::clr_name_of(e)),
                            vals,
                        },
                    ),
                ),
            }
        } else {
            targets_from(ccu, visits, i + 1, acc)
        }
    }
}

/// The targets of a pickle. A failure on an entity comes before the failure that
/// ends the walk after it.
pub open spec fn targets_of(ccu: PickledCcu) -> Result<Seq<ModuleMemberTargetModel>, Fault> {
    let steps = walk::steps_of(ccu);
    match targets_from(ccu, steps.visits, 0, Seq::empty()) {
        Err(f) => Err(f),
        Ok(ts) => match steps.end {
            Some(f) => Err(f),
            None => Ok(ts),
        },
    }
}

impl ModuleMemberVal {
    /// The name of the compiled form: that of the method, of the property or of the
    /// field.
    pub fn il_name(&self) -> (r: &str)
        ensures
            r@ == self.deep_view().il_name(),
    {
        match &self.compiled_name {
            Some(n) => n.as_str(),
            None => self.logical_name.as_str(),
        }
    }
}

/// The number of parameters of the compiled method, where the value tells it.
pub fn val_il_arity(v: &PickledVal) -> (r: Option<usize>)
    ensures
        r == il_arity_of(*v),
{
    match &v.repr_info {
        None => None,
        Some(repr) => {
            let groups = &repr.arg_repr;
            let ghost m = usize::MAX + 1;
            let mut total: usize = 0;
            let mut i: usize = 0;
            while i < groups.len()
                invariant
                    i <= groups.len(),
                    m == usize::MAX + 1,
                    total == arguments_in(groups@, i as nat) as int % m,
                decreases groups.len() - i,
            {
                let len: usize = groups[i].len();
                proof {
                    let before = arguments_in(groups@, i as nat) as int;
                    let n = len as int;
                    let t = total as int;
                    vstd::arithmetic::div_mod::lemma_add_mod_noop(before, n, m);
                    assert(n % m == n) by (nonlinear_arith)
                        requires
                            0 <= n < m,
                    ;
                    assert((t + n) % m == (if t + n < m {
                        t + n
                    } else {
                        t + n - m
                    })) by (nonlinear_arith)
                        requires
                            0 <= t < m,
                            0 <= n < m,
                    ;
                    assert(arguments_in(groups@, (i + 1) as nat) == before + n);
                }
                total = total.wrapping_add(len);
                i = i + 1;
            }
            Some(total)
        },
    }
}

/// Whether some type parameter is of kind type.
fn any_type_typar(typars: &Vec<PickledTyparReprInfo>) -> (r: bool)
    ensures
        r == has_type_typar(typars@),
{
    let mut i: usize = 0;
    while i < typars.len()
        invariant
            i <= typars.len(),
            forall|j: int| 0 <= j < i ==> (#[trigger] typars@[j]).kind != TyparKind::Type,
        decreases typars.len() - i,
    {
        if typars[i].kind == TyparKind::Type {
            return true;
        }
        i = i + 1;
    }
    false
}

/// The entry of the value `v` at `vi`.
fn module_member_val(pickled: &PickledCcu, vi: u32, v: &PickledVal) -> (r: ModuleMemberVal)
    ensures
        r.deep_view() == member_val(*pickled, vi, *v),
{
    ModuleMemberVal {
        val_index: vi,
        logical_name: v.logical_name.clone(),
        compiled_name: v.compiled_name.dup(),
        il_arity: val_il_arity(v),
        arg_group_count: match &v.repr_info {
            Some(r) => Some(r.arg_repr.len()),
            None => None,
        },
        is_instance: match &v.member_info {
            Some(mi) => mi.flags.is_instance,
            None => false,
        },
        is_member: v.member_info.is_some(),
        is_extension: v.flags & VAL_FLAGS_IS_EXTENSION_MEMBER != 0,
        is_generic: match &v.repr_info {
            Some(r) => any_type_typar(&r.typar_repr),
            None => false,
        },
        is_literal: v.literal_value.is_some(),
        is_public: v.access.len() == 0,
        definition_range: resolve_definition_range(pickled, v),
    }
}

/// The entries of the values of a module.
fn module_member_vals(pickled: &PickledCcu, val_indices: &Vec<u32>) -> (r: Result<
    Vec<ModuleMemberVal>,
    ImportError,
>)
    ensures
        match member_vals_from(*pickled, val_indices@, 0, Seq::empty()) {
            Ok(vs) => r is Ok && r->Ok_0.deep_view() == vs,
            Err(e) => r is Err && r->Err_0.deep_view() == e,
        },
{
    let mut out: Vec<ModuleMemberVal> = Vec::new();
    assert(out.deep_view() =~= Seq::empty());
    let mut i: usize = 0;
    while i < val_indices.len()
        invariant
            i <= val_indices.len(),
            member_vals_from(*pickled, val_indices@, 0, Seq::empty()) == member_vals_from(
                *pickled,
                val_indices@,
                i as nat,
                out.deep_view(),
            ),
        decreases val_indices.len() - i,
    {
        let vi: u32 = val_indices[i];
        if vi as usize >= pickled.tables.vals.len() {
            return Err(
                ImportError::OsgnIndexOutOfRange {
                    kind: "val (module-member index)",
                    index: vi,
                    max: pickled.tables.vals.len(),
                },
            );
        }
        let v = &pickled.tables.vals[vi as usize];
        let is_extension: bool = v.flags & VAL_FLAGS_IS_EXTENSION_MEMBER != 0;
        if v.member_info.is_none() || is_extension {
            let ghost before = out.deep_view();
            let entry = module_member_val(pickled, vi, v);
            out.push(entry);
            assert(out.deep_view() =~= before.push(entry.deep_view()));
        }
        i = i + 1;
    }
    Ok(out)
}

/// The targets of these visits.
fn targets_of_visits(pickled: &PickledCcu, visits: &Vec<Visit>) -> (r: Result<
    Vec<ModuleMemberTarget>,
    ImportError,
>)
    requires
        walk::in_table(*pickled, visits.deep_view()),
    ensures
        match targets_from(*pickled, visits.deep_view(), 0, Seq::empty()) {
            Ok(ts) => r is Ok && r->Ok_0.deep_view() == ts,
            Err(e) => r is Err && r->Err_0.deep_view() == e,
        },
{
    let mut out: Vec<ModuleMemberTarget> = Vec::new();
    assert(out.deep_view() =~= Seq::empty());
    let mut i: usize = 0;
    while i < visits.len()
        invariant
            i <= visits.len(),
            walk::in_table(*pickled, visits.deep_view()),
            targets_from(*pickled, visits.deep_view(), 0, Seq::empty()) == targets_from(
                *pickled,
                visits.deep_view(),
                i as nat,
                out.deep_view(),
            ),
        decreases visits.len() - i,
    {
        let visit = &visits[i];
        assert(visits.deep_view()[i as int] == visit.deep_view());
        let entity = &pickled.tables.tycons[visit.stamp as usize];
        let is_module_or_type: bool = match entity.module_type.is_type {
            IsType::ModuleOrType | IsType::FSharpModuleWithSuffix => true,
            IsType::Namespace => false,
        };
        if !visit.is_root && is_module_or_type {
            let vals = module_member_vals(pickled, &entity.module_type.vals)?;
            let mut type_chain: Vec<String> = visit.type_chain.dup();
            let ghost container = type_chain.deep_view();
            type_chain.push(clr_name(entity));
            assert(type_chain.deep_view() =~= container.push(names::clr_name_of(*entity)));
            let ghost before = out.deep_view();
            let target = ModuleMemberTarget {
                namespace: visit.namespace.dup(),
                type_chain,
                vals,
            };
            out.push(target);
            assert(out.deep_view() =~= before.push(target.deep_view()));
        }
        i = i + 1;
    }
    Ok(out)
}

/// The modules and types of a pickle with their values, in the order of the walk.
pub fn collect_module_member_targets(pickled: &PickledCcu) -> (r: Result<
    Vec<ModuleMemberTarget>,
    ImportError,
>)
    ensures
        match targets_of(*pickled) {
            Ok(ts) => r is Ok && r->Ok_0.deep_view() == ts,
            Err(e) => r is Err && r->Err_0.deep_view() == e,
        },
{
    let (visits, end) = walk::walk(pickled);
    let targets = targets_of_visits(pickled, &visits)?;
    end?;
    Ok(targets)
}

} // verus!
