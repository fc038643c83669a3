//! The term shapes of the logic IR, as the printer reads them.

use vstd::prelude::*;

verus! {

/// Names a declared type or trait of a program by its index.
#[derive(Clone, Copy, Debug, PartialEq, Eq, Hash)]
pub struct ItemId {
    pub index: usize,
}

/// A position in the ordered hierarchy of universes.
#[derive(Clone, Copy, Debug, PartialEq, Eq, Hash)]
pub struct UniverseIndex {
    pub counter: usize,
}

/// The name of a type constructor.
#[derive(Debug, PartialEq, Eq)]
pub enum TypeName {
    /// A declared item.
    ItemId(ItemId),
    /// A rigid (skolemized) universal variable.
    ForAll(UniverseIndex),
    /// A reference to an associated type of a trait.
    AssociatedType(AssociatedType),
}

/// An associated type `name` declared by the trait `trait_id`.
#[derive(Debug, PartialEq, Eq)]
pub struct AssociatedType {
    pub trait_id: ItemId,
    pub name: String,
}

/// A slot that holds either a type or a lifetime.
#[derive(Debug, PartialEq, Eq)]
pub enum ParameterKind<T, L> {
    Ty(T),
    Lifetime(L),
}

/// A generic argument: a type or a lifetime.
pub type Parameter = ParameterKind<Ty, Lifetime>;

/// A type. `Var` is a De Bruijn index: the number of binders between the
/// variable and the one that introduces it, the innermost being 0.
#[derive(Debug, PartialEq, Eq)]
pub enum Ty {
    Var(u32),
    Apply(ApplicationTy),
    Projection(ProjectionTy),
    ForAll(Box<QuantifiedTy>),
}

/// A higher-ranked type: `num_binders` fresh bound type variables over `ty`.
#[derive(Debug, PartialEq, Eq)]
pub struct QuantifiedTy {
    pub num_binders: u32,
    pub ty: Ty,
}

/// A lifetime: a bound variable (De Bruijn index) or a rigid universal one.
#[derive(Clone, Copy, Debug, PartialEq, Eq)]
pub enum Lifetime {
    Var(u32),
    ForAll(UniverseIndex),
}

/// A type constructor applied to its arguments.
#[derive(Debug, PartialEq, Eq)]
pub struct ApplicationTy {
    pub name: TypeName,
    pub parameters: Vec<Parameter>,
}

/// A reference to a trait: `parameters[0]` is the implementing ("Self")
/// argument, the rest are the trait's own arguments. `parameters` is never empty.
#[derive(Debug, PartialEq, Eq)]
pub struct TraitRef {
    pub trait_id: ItemId,
    pub parameters: Vec<Parameter>,
}

/// An associated-type access `<trait_ref>::name`.
#[derive(Debug, PartialEq, Eq)]
pub struct ProjectionTy {
    pub trait_ref: TraitRef,
    pub name: String,
}

/// The assertion that `projection` equals `ty`.
#[derive(Debug, PartialEq, Eq)]
pub struct Normalize {
    pub projection: ProjectionTy,
    pub ty: Ty,
}

/// A constraint assumed during proof search.
#[derive(Debug, PartialEq, Eq)]
pub enum WhereClause {
    Normalize(Normalize),
    Implemented(TraitRef),
}

/// A constraint to prove: a where-clause or a unification.
#[derive(Debug, PartialEq, Eq)]
pub enum WhereClauseGoal {
    Normalize(Normalize),
    Implemented(TraitRef),
    UnifyTys(Unify<Ty>),
}

/// The assertion that `a` and `b` are equal.
#[derive(Debug, PartialEq, Eq)]
pub struct Unify<T> {
    pub a: T,
    pub b: T,
}

/// How a quantified goal binds its variable.
#[derive(Clone, Copy, Debug, PartialEq, Eq)]
pub enum QuantifierKind {
    ForAll,
    Exists,
}

/// A proof obligation.
#[derive(Debug, PartialEq, Eq)]
pub enum Goal {
    Quantified(QuantifierKind, ParameterKind<(), ()>, Box<Goal>),
    Implies(WhereClause, Box<Goal>),
    And(Box<Goal>, Box<Goal>),
    Leaf(WhereClauseGoal),
}

/// Every trait reference inside `t` names its "Self" argument.
pub open spec fn ty_wf(t: Ty) -> bool
    decreases t,
{
    match t {
        Ty::Var(_) => true,
        Ty::Apply(a) => parameters_wf(a.parameters@),
        Ty::Projection(p) => trait_ref_wf(p.trait_ref),
        Ty::ForAll(q) => ty_wf(q.ty),
    }
}

/// Every trait reference inside `p` names its "Self" argument.
pub open spec fn parameter_wf(p: Parameter) -> bool
    decreases p,
{
    match p {
        ParameterKind::Ty(t) => ty_wf(t),
        ParameterKind::Lifetime(_) => true,
    }
}

/// Every trait reference inside each of `ps` names its "Self" argument.
pub open spec fn parameters_wf(ps: Seq<Parameter>) -> bool
    decreases ps,
{
    ps.len() > 0 ==> parameters_wf(ps.subrange(0, ps.len() - 1)) && parameter_wf(ps[ps.len() - 1])
}

/// `parameters_wf` holds exactly when each parameter is well formed.
pub proof fn lemma_parameters_wf(ps: Seq<Parameter>)
    ensures
        parameters_wf(ps) <==> forall|i: int| 0 <= i < ps.len() ==> #[trigger] parameter_wf(ps[i]),
    decreases ps.len(),
{
    if ps.len() > 0 {
        let init = ps.subrange(0, ps.len() - 1);
        lemma_parameters_wf(init);
        assert(parameters_wf(ps) == (parameters_wf(init) && parameter_wf(ps[ps.len() - 1])));
        if forall|i: int| 0 <= i < ps.len() ==> #[trigger] parameter_wf(ps[i]) {
            assert forall|i: int| 0 <= i < init.len() implies #[trigger] parameter_wf(init[i]) by {
                assert(init[i] == ps[i]);
            }
        }
        if parameters_wf(ps) {
            assert forall|i: int| 0 <= i < ps.len() implies #[trigger] parameter_wf(ps[i]) by {
                if i < ps.len() - 1 {
                    assert(init[i] == ps[i]);
                }
            }
        }
    }
}

/// `tr` has a "Self" argument, and so has every trait reference inside it.
pub open spec fn trait_ref_wf(tr: TraitRef) -> bool
    decreases tr,
{
    &&& tr.parameters@.len() > 0
    &&& parameters_wf(tr.parameters@)
}

} // verus!
