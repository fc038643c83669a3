//! The clause and goal printer: where-clauses, normalization and
//! unification assertions, and composite proof goals in logical syntax.

use vstd::prelude::*;

use crate::ir::{
    lemma_parameters_wf, trait_ref_wf, ty_wf, Goal, Normalize, ParameterKind, QuantifierKind, Ty,
    Unify, WhereClause, WhereClauseGoal,
};
use crate::program::{names_in, Names, Program};
use crate::render::{item_id_text, parameter_text, parameters_text, trait_ref_text, ty_text};
use crate::text::{angle, Angle};

verus! {

/// `{name} = {ty}`: an associated-type binding.
pub open spec fn assignment_text(name: Seq<char>, ty: Ty, names: Names) -> Seq<char> {
    name + " = "@ + ty_text(ty, names)
}

/// `{Self} as {trait_id}<{rest-args}, {name} = {ty}>`.
pub open spec fn normalize_text(n: Normalize, names: Names) -> Seq<char> {
    let tr = n.projection.trait_ref;
    let ps = tr.parameters@;
    parameter_text(ps[0], names) + " as "@ + item_id_text(tr.trait_id, names) + angle(
        parameters_text(ps.subrange(1, ps.len() as int), names).push(
            assignment_text(n.projection.name@, n.ty, names),
        ),
    )
}

/// `({a} = {b})`.
pub open spec fn unify_text(u: Unify<Ty>, names: Names) -> Seq<char> {
    "("@ + ty_text(u.a, names) + " = "@ + ty_text(u.b, names) + ")"@
}

/// The normalize form, or the trait-reference form for `Implemented`.
pub open spec fn where_clause_text(wc: WhereClause, names: Names) -> Seq<char> {
    match wc {
        WhereClause::Normalize(n) => normalize_text(n, names),
        WhereClause::Implemented(tr) => trait_ref_text(tr, names),
    }
}

/// As a where-clause, plus the unification form.
pub open spec fn where_clause_goal_text(wc: WhereClauseGoal, names: Names) -> Seq<char> {
    match wc {
        WhereClauseGoal::Normalize(n) => normalize_text(n, names),
        WhereClauseGoal::Implemented(tr) => trait_ref_text(tr, names),
        WhereClauseGoal::UnifyTys(u) => unify_text(u, names),
    }
}

/// `ForAll` or `Exists`.
pub open spec fn quantifier_kind_text(k: QuantifierKind) -> Seq<char> {
    match k {
        QuantifierKind::ForAll => "ForAll"@,
        QuantifierKind::Exists => "Exists"@,
    }
}

/// `<type>` for a type binder, `<lifetime>` for a lifetime binder.
pub open spec fn binder_text(b: ParameterKind<(), ()>) -> Seq<char> {
    match b {
        ParameterKind::Ty(_) => "<type>"@,
        ParameterKind::Lifetime(_) => "<lifetime>"@,
    }
}

/// The logical-syntax form of a goal.
pub open spec fn goal_text(g: Goal, names: Names) -> Seq<char>
    decreases g,
{
    match g {
        Goal::Quantified(k, b, inner) => quantifier_kind_text(k) + binder_text(b) + " { "@
            + goal_text(*inner, names) + " }"@,
        Goal::Implies(wc, inner) => "if ("@ + where_clause_text(wc, names) + ") { "@ + goal_text(
            *inner,
            names,
        ) + " }"@,
        Goal::And(g1, g2) => "("@ + goal_text(*g1, names) + ", "@ + goal_text(*g2, names) + ")"@,
        Goal::Leaf(wc) => where_clause_goal_text(wc, names),
    }
}

/// Every trait reference inside `n` names its "Self" argument.
pub open spec fn normalize_wf(n: Normalize) -> bool {
    trait_ref_wf(n.projection.trait_ref) && ty_wf(n.ty)
}

/// Every trait reference inside `wc` names its "Self" argument.
pub open spec fn where_clause_wf(wc: WhereClause) -> bool {
    match wc {
        WhereClause::Normalize(n) => normalize_wf(n),
        WhereClause::Implemented(tr) => trait_ref_wf(tr),
    }
}

/// Every trait reference inside `wc` names its "Self" argument.
pub open spec fn where_clause_goal_wf(wc: WhereClauseGoal) -> bool {
    match wc {
        WhereClauseGoal::Normalize(n) => normalize_wf(n),
        WhereClauseGoal::Implemented(tr) => trait_ref_wf(tr),
        WhereClauseGoal::UnifyTys(u) => ty_wf(u.a) && ty_wf(u.b),
    }
}

/// Every trait reference inside `g` names its "Self" argument.
pub open spec fn goal_wf(g: Goal) -> bool
    decreases g,
{
    match g {
        Goal::Quantified(_, _, inner) => goal_wf(*inner),
        Goal::Implies(wc, inner) => where_clause_wf(wc) && goal_wf(*inner),
        Goal::And(g1, g2) => goal_wf(*g1) && goal_wf(*g2),
        Goal::Leaf(wc) => where_clause_goal_wf(wc),
    }
}

/// The binding `{name} = {ty}` of a normalize assertion.
struct Assignment<'a>(&'a String, &'a Ty);

impl<'a> Assignment<'a> {
    fn fmt(&self, prog: Option<&Program>, out: &mut String)
        requires
            ty_wf(*self.1),
        ensures
            final(out)@ == old(out)@ + assignment_text(self.0@, *self.1, names_in(prog)),
    {
        out.append(self.0.as_str());
        out.append(" = ");
        self.1.fmt(prog, out);
        assert(out@ =~= old(out)@ + assignment_text(self.0@, *self.1, names_in(prog)));
    }
}

impl Normalize {
    /// Appends `{Self} as {trait_id}<{rest-args}, {name} = {ty}>`.
    pub fn fmt(&self, prog: Option<&Program>, out: &mut String)
        requires
            normalize_wf(*self),
        ensures
            final(out)@ == old(out)@ + normalize_text(*self, names_in(prog)),
    {
        let ghost names = names_in(prog);
        let tr = &self.projection.trait_ref;
        let params = tr.parameters.as_slice();
        let ghost ps = params@;
        proof {
            lemma_parameters_wf(ps);
        }
        let mut args: Vec<String> = Vec::new();
        let mut i: usize = 1;
        assert(args@.map_values(|s: String| s@) =~= parameters_text(ps.subrange(1, 1), names));
        while i < params.len()
            invariant
                1 <= i <= ps.len(),
                ps == params@,
                ps == tr.parameters@,
                names == names_in(prog),
                forall|j: int| 0 <= j < ps.len() ==> #[trigger] crate::ir::parameter_wf(ps[j]),
                args@.map_values(|s: String| s@) == parameters_text(ps.subrange(1, i as int), names),
            decreases ps.len() - i,
        {
            let mut one = String::new();
            params[i].fmt(prog, &mut one);
            args.push(one);
            proof {
                assert(ps.subrange(1, i + 1).subrange(0, i - 1) =~= ps.subrange(1, i as int));
                assert(ps.subrange(1, i + 1)[i - 1] == ps[i as int]);
                assert(args@.map_values(|s: String| s@) =~= parameters_text(
                    ps.subrange(1, i + 1),
                    names,
                ));
            }
            i = i + 1;
        }
        let mut assign = String::new();
        Assignment(&self.projection.name, &self.ty).fmt(prog, &mut assign);
        args.push(assign);
        params[0].fmt(prog, out);
        out.append(" as ");
        tr.trait_id.fmt(prog, out);
        Angle(args.as_slice()).fmt(out);
        assert(args@.map_values(|s: String| s@) =~= parameters_text(
            ps.subrange(1, ps.len() as int),
            names,
        ).push(assignment_text(self.projection.name@, self.ty, names)));
        assert(out@ =~= old(out)@ + normalize_text(*self, names));
    }
}

impl Unify<Ty> {
    /// Appends `({a} = {b})`.
    pub fn fmt(&self, prog: Option<&Program>, out: &mut String)
        requires
            ty_wf(self.a),
            ty_wf(self.b),
        ensures
            final(out)@ == old(out)@ + unify_text(*self, names_in(prog)),
    {
        out.append("(");
        self.a.fmt(prog, out);
        out.append(" = ");
        self.b.fmt(prog, out);
        out.append(")");
        assert(out@ =~= old(out)@ + unify_text(*self, names_in(prog)));
    }
}

impl WhereClause {
    /// Appends the normalize form, or the trait-reference form.
    pub fn fmt(&self, prog: Option<&Program>, out: &mut String)
        requires
            where_clause_wf(*self),
        ensures
            final(out)@ == old(out)@ + where_clause_text(*self, names_in(prog)),
    {
        match self {
            WhereClause::Normalize(n) => n.fmt(prog, out),
            WhereClause::Implemented(tr) => tr.fmt(prog, out),
        }
    }
}

impl WhereClauseGoal {
    /// Appends the normalize, trait-reference or unification form.
    pub fn fmt(&self, prog: Option<&Program>, out: &mut String)
        requires
            where_clause_goal_wf(*self),
        ensures
            final(out)@ == old(out)@ + where_clause_goal_text(*self, names_in(prog)),
    {
        match self {
            WhereClauseGoal::Normalize(n) => n.fmt(prog, out),
            WhereClauseGoal::Implemented(tr) => tr.fmt(prog, out),
            WhereClauseGoal::UnifyTys(u) => u.fmt(prog, out),
        }
    }
}

impl QuantifierKind {
    /// Appends `ForAll` or `Exists`.
    pub fn fmt(&self, out: &mut String)
        ensures
            final(out)@ == old(out)@ + quantifier_kind_text(*self),
    {
        match self {
            QuantifierKind::ForAll => out.append("ForAll"),
            QuantifierKind::Exists => out.append("Exists"),
        }
    }
}

impl Goal {
    /// Appends the logical-syntax form of the goal.
    pub fn fmt(&self, prog: Option<&Program>, out: &mut String)
        requires
            goal_wf(*self),
        ensures
            final(out)@ == old(out)@ + goal_text(*self, names_in(prog)),
        decreases self,
    {
        match self {
            Goal::Quantified(k, b, inner) => {
                k.fmt(out);
                match b {
                    ParameterKind::Ty(_) => out.append("<type>"),
                    ParameterKind::Lifetime(_) => out.append("<lifetime>"),
                }
                out.append(" { ");
                inner.fmt(prog, out);
                out.append(" }");
            },
            Goal::Implies(wc, inner) => {
                out.append("if (");
                wc.fmt(prog, out);
                out.append(") { ");
                inner.fmt(prog, out);
                out.append(" }");
            },
            Goal::And(g1, g2) => {
                out.append("(");
                g1.fmt(prog, out);
                out.append(", ");
                g2.fmt(prog, out);
                out.append(")");
            },
            Goal::Leaf(wc) => wc.fmt(prog, out),
        }
        assert(out@ =~= old(out)@ + goal_text(*self, names_in(prog)));
    }
}

} // verus!
