//! Canonical text rendering for a trait-solver's logic IR: types, lifetimes,
//! trait references, where-clauses and proof goals.

pub mod goal;
pub mod ir;
pub mod laws;
pub mod program;
pub mod render;
pub mod text;

pub use ir::{
    ApplicationTy, AssociatedType, Goal, ItemId, Lifetime, Normalize, Parameter, ParameterKind,
    ProjectionTy, QuantifiedTy, QuantifierKind, TraitRef, Ty, TypeName, Unify, UniverseIndex,
    WhereClause, WhereClauseGoal,
};
pub use program::{Program, ProgramStack};
pub use text::Angle;
