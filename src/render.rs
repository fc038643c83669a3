//! The term printer: the canonical text of each type-level term, and the
//! `fmt` methods that append it to a string.

use vstd::prelude::*;

use crate::ir::{
    lemma_parameters_wf, parameter_wf, parameters_wf, trait_ref_wf, ty_wf, ApplicationTy, AssociatedType, ItemId, Lifetime, Parameter,
    ParameterKind, ProjectionTy, QuantifiedTy, TraitRef, Ty, TypeName, UniverseIndex,
};
use crate::program::{names_in, Names, Program};
use crate::text::{angle, decimal, push_decimal, Angle};

verus! {

/// An item's declared name when `names` knows it, else `ItemId { index: N }`.
pub open spec fn item_id_text(id: ItemId, names: Names) -> Seq<char> {
    if names.contains_key(id.index) {
        names[id.index]
    } else {
        "ItemId { index: "@ + decimal(id.index as nat) + " }"@
    }
}

/// `U{counter}`.
pub open spec fn universe_text(u: UniverseIndex) -> Seq<char> {
    "U"@ + decimal(u.counter as nat)
}

/// `({trait_id}::{name})`.
pub open spec fn associated_type_text(a: AssociatedType, names: Names) -> Seq<char> {
    "("@ + item_id_text(a.trait_id, names) + "::"@ + a.name@ + ")"@
}

/// A declared item's name, `!{counter}` for a rigid variable, or the
/// associated-type form.
pub open spec fn type_name_text(n: TypeName, names: Names) -> Seq<char> {
    match n {
        TypeName::ItemId(id) => item_id_text(id, names),
        TypeName::ForAll(u) => "!"@ + decimal(u.counter as nat),
        TypeName::AssociatedType(a) => associated_type_text(a, names),
    }
}

/// `'?{depth}` or `'!{counter}`.
pub open spec fn lifetime_text(l: Lifetime) -> Seq<char> {
    match l {
        Lifetime::Var(d) => "'?"@ + decimal(d as nat),
        Lifetime::ForAll(u) => "'!"@ + decimal(u.counter as nat),
    }
}

/// `?{depth}` for a variable; the form of the inner term otherwise.
pub open spec fn ty_text(t: Ty, names: Names) -> Seq<char>
    decreases t,
{
    match t {
        Ty::Var(d) => "?"@ + decimal(d as nat),
        Ty::Apply(a) => application_ty_text(a, names),
        Ty::Projection(p) => projection_ty_text(p, names),
        Ty::ForAll(q) => quantified_ty_text(*q, names),
    }
}

/// `for<{num_binders}> {ty}`.
pub open spec fn quantified_ty_text(q: QuantifiedTy, names: Names) -> Seq<char>
    decreases q,
{
    "for<"@ + decimal(q.num_binders as nat) + "> "@ + ty_text(q.ty, names)
}

/// `{name}{Angle(parameters)}`.
pub open spec fn application_ty_text(a: ApplicationTy, names: Names) -> Seq<char>
    decreases a,
{
    type_name_text(a.name, names) + angle(parameters_text(a.parameters@, names))
}

/// The form of the type or lifetime held.
pub open spec fn parameter_text(p: Parameter, names: Names) -> Seq<char>
    decreases p,
{
    match p {
        ParameterKind::Ty(t) => ty_text(t, names),
        ParameterKind::Lifetime(l) => lifetime_text(l),
    }
}

/// The form of each parameter, in order.
pub open spec fn parameters_text(ps: Seq<Parameter>, names: Names) -> Seq<Seq<char>>
    decreases ps,
{
    if ps.len() == 0 {
        Seq::empty()
    } else {
        parameters_text(ps.subrange(0, ps.len() - 1), names).push(
            parameter_text(ps[ps.len() - 1], names),
        )
    }
}

/// `{parameters[0]} as {trait_id}{Angle(parameters[1..])}`.
pub open spec fn trait_ref_text(tr: TraitRef, names: Names) -> Seq<char>
    decreases tr,
{
    let ps = tr.parameters@;
    if ps.len() == 0 {
        Seq::empty()
    } else {
        parameter_text(ps[0], names) + " as "@ + item_id_text(tr.trait_id, names) + angle(
            parameters_text(ps.subrange(1, ps.len() as int), names),
        )
    }
}

/// `<{trait_ref}>::{name}`.
pub open spec fn projection_ty_text(p: ProjectionTy, names: Names) -> Seq<char>
    decreases p,
{
    "<"@ + trait_ref_text(p.trait_ref, names) + ">::"@ + p.name@
}

/// The form of each parameter is the form of the parameter at the same position.
pub proof fn lemma_parameters_text(ps: Seq<Parameter>, names: Names)
    ensures
        parameters_text(ps, names).len() == ps.len(),
        forall|i: int|
            0 <= i < ps.len() ==> #[trigger] parameters_text(ps, names)[i] == parameter_text(
                ps[i],
                names,
            ),
    decreases ps.len(),
{
    if ps.len() > 0 {
        lemma_parameters_text(ps.subrange(0, ps.len() - 1), names);
    }
}

impl ItemId {
    /// Appends the item's declared name, or `ItemId { index: N }` where the
    /// program is absent or does not know it.
    pub fn fmt(&self, prog: Option<&Program>, out: &mut String)
        ensures
            final(out)@ == old(out)@ + item_id_text(*self, names_in(prog)),
    {
        let name = match prog {
            Some(p) => p.name_of(*self),
            None => None,
        };
        match name {
            Some(s) => {
                out.append(s.as_str());
            },
            None => {
                out.append("ItemId { index: ");
                push_decimal(out, self.index as u64);
                out.append(" }");
            },
        }
        assert(out@ =~= old(out)@ + item_id_text(*self, names_in(prog)));
    }
}

impl UniverseIndex {
    /// Appends `U{counter}`.
    pub fn fmt(&self, out: &mut String)
        ensures
            final(out)@ == old(out)@ + universe_text(*self),
    {
        out.append("U");
        push_decimal(out, self.counter as u64);
        assert(out@ =~= old(out)@ + universe_text(*self));
    }
}

impl TypeName {
    /// Appends the form of the name.
    pub fn fmt(&self, prog: Option<&Program>, out: &mut String)
        ensures
            final(out)@ == old(out)@ + type_name_text(*self, names_in(prog)),
    {
        match self {
            TypeName::ItemId(id) => id.fmt(prog, out),
            TypeName::ForAll(u) => {
                out.append("!");
                push_decimal(out, u.counter as u64);
            },
            TypeName::AssociatedType(a) => a.fmt(prog, out),
        }
        assert(out@ =~= old(out)@ + type_name_text(*self, names_in(prog)));
    }
}

impl AssociatedType {
    /// Appends `({trait_id}::{name})`.
    pub fn fmt(&self, prog: Option<&Program>, out: &mut String)
        ensures
            final(out)@ == old(out)@ + associated_type_text(*self, names_in(prog)),
    {
        out.append("(");
        self.trait_id.fmt(prog, out);
        out.append("::");
        out.append(self.name.as_str());
        out.append(")");
        assert(out@ =~= old(out)@ + associated_type_text(*self, names_in(prog)));
    }
}

impl Lifetime {
    /// Appends `'?{depth}` or `'!{counter}`.
    pub fn fmt(&self, out: &mut String)
        ensures
            final(out)@ == old(out)@ + lifetime_text(*self),
    {
        match self {
            Lifetime::Var(d) => {
                out.append("'?");
                push_decimal(out, *d as u64);
            },
            Lifetime::ForAll(u) => {
                out.append("'!");
                push_decimal(out, u.counter as u64);
            },
        }
        assert(out@ =~= old(out)@ + lifetime_text(*self));
    }
}

impl Ty {
    /// Appends the canonical form of the type.
    pub fn fmt(&self, prog: Option<&Program>, out: &mut String)
        requires
            ty_wf(*self),
        ensures
            final(out)@ == old(out)@ + ty_text(*self, names_in(prog)),
        decreases self,
    {
        match self {
            Ty::Var(d) => {
                out.append("?");
                push_decimal(out, *d as u64);
                assert(out@ =~= old(out)@ + ty_text(*self, names_in(prog)));
            },
            Ty::Apply(a) => a.fmt(prog, out),
            Ty::Projection(p) => p.fmt(prog, out),
            Ty::ForAll(q) => q.fmt(prog, out),
        }
    }
}

impl QuantifiedTy {
    /// Appends `for<{num_binders}> {ty}`.
    pub fn fmt(&self, prog: Option<&Program>, out: &mut String)
        requires
            ty_wf(self.ty),
        ensures
            final(out)@ == old(out)@ + quantified_ty_text(*self, names_in(prog)),
        decreases self,
    {
        out.append("for<");
        push_decimal(out, self.num_binders as u64);
        out.append("> ");
        self.ty.fmt(prog, out);
        assert(out@ =~= old(out)@ + quantified_ty_text(*self, names_in(prog)));
    }
}

impl ApplicationTy {
    /// Appends `{name}{Angle(parameters)}`.
    pub fn fmt(&self, prog: Option<&Program>, out: &mut String)
        requires
            parameters_wf(self.parameters@),
        ensures
            final(out)@ == old(out)@ + application_ty_text(*self, names_in(prog)),
        decreases self,
    {
        self.name.fmt(prog, out);
        let args = Angle(self.parameters.as_slice());
        assert(decreases_to!(self => self.parameters@));
        args.fmt(prog, out);
        assert(out@ =~= old(out)@ + application_ty_text(*self, names_in(prog)));
    }
}

impl ParameterKind<Ty, Lifetime> {
    /// Appends the form of the type or lifetime held.
    pub fn fmt(&self, prog: Option<&Program>, out: &mut String)
        requires
            parameter_wf(*self),
        ensures
            final(out)@ == old(out)@ + parameter_text(*self, names_in(prog)),
        decreases self,
    {
        match self {
            ParameterKind::Ty(t) => t.fmt(prog, out),
            ParameterKind::Lifetime(l) => l.fmt(out),
        }
    }
}

impl<'a> Angle<'a, Parameter> {
    /// Appends the argument-list form of the parameters.
    pub fn fmt(&self, prog: Option<&Program>, out: &mut String)
        requires
            parameters_wf(self.0@),
        ensures
            final(out)@ == old(out)@ + angle(parameters_text(self.0@, names_in(prog))),
        decreases self.0@,
    {
        let ghost names = names_in(prog);
        let ghost ps = self.0@;
        proof {
            lemma_parameters_wf(ps);
        }
        if self.0.len() > 0 {
            out.append("<");
            proof {
                reveal_strlit("<");
                reveal_strlit(", ");
                reveal_strlit(">");
                assert(ps.subrange(0, 0) =~= Seq::<Parameter>::empty());
            }
            let mut i: usize = 0;
            while i < self.0.len()
                invariant
                    i <= ps.len(),
                    0 < ps.len(),
                    ps == self.0@,
                    names == names_in(prog),
                    forall|j: int| 0 <= j < ps.len() ==> #[trigger] parameter_wf(ps[j]),
                    out@ == old(out)@ + seq!['<'] + crate::text::comma_join(
                        parameters_text(ps.subrange(0, i as int), names),
                    ),
                decreases ps.len() - i,
            {
                if i > 0 {
                    out.append(", ");
                }
                assert(decreases_to!(ps => ps[i as int]));
                self.0[i].fmt(prog, out);
                proof {
                    reveal_strlit(", ");
                    assert(ps.subrange(0, i + 1).subrange(0, i as int) =~= ps.subrange(0, i as int));
                    assert(ps.subrange(0, i + 1)[i as int] == ps[i as int]);
                    let done = parameters_text(ps.subrange(0, i as int), names);
                    assert(parameters_text(ps.subrange(0, i + 1), names) == done.push(
                        parameter_text(ps[i as int], names),
                    ));
                    assert(done.push(parameter_text(ps[i as int], names)).drop_last() =~= done);
                    assert(out@ =~= old(out)@ + seq!['<'] + crate::text::comma_join(
                        parameters_text(ps.subrange(0, i + 1), names),
                    ));
                }
                i = i + 1;
            }
            out.append(">");
            proof {
                reveal_strlit(">");
                assert(ps.subrange(0, ps.len() as int) =~= ps);
            }
        }
        assert(out@ =~= old(out)@ + angle(parameters_text(ps, names)));
    }
}

impl TraitRef {
    /// Appends `{parameters[0]} as {trait_id}{Angle(parameters[1..])}`.
    pub fn fmt(&self, prog: Option<&Program>, out: &mut String)
        requires
            trait_ref_wf(*self),
        ensures
            final(out)@ == old(out)@ + trait_ref_text(*self, names_in(prog)),
        decreases self,
    {
        let ghost ps = self.parameters@;
        proof {
            lemma_parameters_wf(ps);
        }
        let (first, rest) = self.parameters.as_slice().split_at(1);
        assert(first@[0] == ps[0]);
        assert(parameter_wf(ps[0]));
        assert(decreases_to!(self => ps[0]));
        first[0].fmt(prog, out);
        out.append(" as ");
        self.trait_id.fmt(prog, out);
        let args = Angle(rest);
        assert(decreases_to!(self => ps.subrange(1, ps.len() as int)));
        proof {
            lemma_parameters_wf(args.0@);
            assert forall|i: int| 0 <= i < args.0@.len() implies #[trigger] parameter_wf(args.0@[i]) by {
                assert(args.0@[i] == ps[i + 1]);
            }
        }
        args.fmt(prog, out);
        assert(out@ =~= old(out)@ + trait_ref_text(*self, names_in(prog)));
    }
}

impl ProjectionTy {
    /// Appends `<{trait_ref}>::{name}`.
    pub fn fmt(&self, prog: Option<&Program>, out: &mut String)
        requires
            trait_ref_wf(self.trait_ref),
        ensures
            final(out)@ == old(out)@ + projection_ty_text(*self, names_in(prog)),
        decreases self,
    {
        out.append("<");
        self.trait_ref.fmt(prog, out);
        out.append(">::");
        out.append(self.name.as_str());
        assert(out@ =~= old(out)@ + projection_ty_text(*self, names_in(prog)));
    }
}

} // verus!
