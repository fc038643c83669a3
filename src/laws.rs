//! Laws of the printer that relate several renderings or several calls.

use vstd::prelude::*;

use crate::goal::{goal_text, where_clause_text};
use crate::ir::{trait_ref_wf, Goal, TraitRef, WhereClause};
use crate::program::{active, names_in, Names, Program};
use crate::render::{item_id_text, parameter_text, parameters_text, trait_ref_text};
use crate::text::{angle, comma_join};

verus! {

/// The total number of characters in `items`.
pub open spec fn total_len(items: Seq<Seq<char>>) -> nat
    decreases items.len(),
{
    if items.len() == 0 {
        0
    } else {
        total_len(items.drop_last()) + items.last().len()
    }
}

/// Joining `n > 0` items puts exactly `n - 1` two-character separators between them:
/// the join is as long as the items together plus `2 * (n - 1)`, it starts
/// with the first item and ends with the last.
pub proof fn lemma_comma_join_shape(items: Seq<Seq<char>>)
    requires
        items.len() > 0,
    ensures
        comma_join(items).len() == total_len(items) + 2 * (items.len() - 1),
        items[0].len() <= comma_join(items).len(),
        comma_join(items).subrange(0, items[0].len() as int) == items[0],
        comma_join(items).subrange(
            comma_join(items).len() - items.last().len(),
            comma_join(items).len() as int,
        ) == items.last(),
    decreases items.len(),
{
    if items.len() > 1 {
        let init = items.drop_last();
        lemma_comma_join_shape(init);
        assert(init[0] == items[0]);
        let j = comma_join(init);
        assert((j + seq![',', ' '] + items.last()).subrange(0, items[0].len() as int)
            =~= j.subrange(0, items[0].len() as int));
        assert((j + seq![',', ' '] + items.last()).subrange(
            j.len() + 2int,
            j.len() + 2int + items.last().len(),
        ) =~= items.last());
    } else {
        assert(items.drop_last().len() == 0);
        assert(total_len(items.drop_last()) == 0);
        assert(comma_join(items).subrange(0, items[0].len() as int) =~= items[0]);
        assert(comma_join(items).subrange(0, comma_join(items).len() as int) =~= items.last());
    }
}

/// An argument list is empty exactly when there are no items. Otherwise it
/// starts with `<`, ends with `>`, holds the items joined with exactly
/// `n - 1` separators `", "` between them, and nothing else.
pub proof fn lemma_angle_shape(items: Seq<Seq<char>>)
    ensures
        angle(items).len() == 0 <==> items.len() == 0,
        items.len() > 0 ==> {
            &&& angle(items)[0] == '<'
            &&& angle(items).last() == '>'
            &&& angle(items) == seq!['<'] + comma_join(items) + seq!['>']
            &&& angle(items).len() == total_len(items) + 2 * (items.len() - 1) + 2
        },
{
    if items.len() > 0 {
        lemma_comma_join_shape(items);
    }
}

/// A trait reference renders as its "Self" argument, ` as `, the trait's
/// name and the argument list of the remaining parameters, each rendered on
/// its own.
pub proof fn lemma_trait_ref_form(tr: TraitRef, names: Names)
    requires
        trait_ref_wf(tr),
    ensures
        ({
            let ps = tr.parameters@;
            let rest = parameters_text(ps.subrange(1, ps.len() as int), names);
            &&& trait_ref_text(tr, names) == parameter_text(ps[0], names) + " as "@ + item_id_text(
                tr.trait_id,
                names,
            ) + angle(rest)
            &&& rest.len() == ps.len() - 1
            &&& forall|i: int| 0 <= i < rest.len() ==> #[trigger] rest[i] == parameter_text(ps[i + 1], names)
        }),
{
    let ps = tr.parameters@;
    let tail = ps.subrange(1, ps.len() as int);
    crate::render::lemma_parameters_text(tail, names);
    assert forall|i: int| 0 <= i < tail.len() implies #[trigger] tail[i] == ps[i + 1] by {}
}

/// An `Implemented` where-clause renders exactly as its trait reference.
pub proof fn lemma_implemented_as_trait_ref(tr: TraitRef, names: Names)
    ensures
        where_clause_text(WhereClause::Implemented(tr), names) == trait_ref_text(tr, names),
{
}

/// Rendering is a function of the term and of the active program's names:
/// rendering a goal twice, under the same program or under programs that
/// know the same names, gives the same text.
pub proof fn lemma_render_deterministic(g: Goal, p: Option<&Program>, q: Option<&Program>)
    requires
        names_in(p) == names_in(q),
    ensures
        goal_text(g, names_in(p)) == goal_text(g, names_in(q)),
{
}

/// Installing `a`, then `b`, then uninstalling the inner one leaves `a`
/// active, whatever was installed before.
pub proof fn lemma_nested_install(scopes: Seq<Names>, a: Names, b: Names)
    ensures
        active(scopes.push(a).push(b).drop_last()) == Some(a),
        active(scopes.push(a).push(b)) == Some(b),
{
    assert(scopes.push(a).push(b).drop_last() =~= scopes.push(a));
}

} // verus!
