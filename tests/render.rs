use chalk_debug::{
    Angle, ApplicationTy, AssociatedType, Goal, ItemId, Lifetime, Normalize, Parameter,
    ParameterKind, Program, ProgramStack, ProjectionTy, QuantifiedTy, QuantifierKind, TraitRef,
    Ty, TypeName, Unify, UniverseIndex, WhereClause, WhereClauseGoal,
};

fn id(index: usize) -> ItemId {
    ItemId { index }
}

fn named(index: usize, params: Vec<Parameter>) -> Ty {
    Ty::Apply(ApplicationTy { name: TypeName::ItemId(id(index)), parameters: params })
}

fn ty_param(t: Ty) -> Parameter {
    ParameterKind::Ty(t)
}

fn ty_str(t: &Ty, prog: Option<&Program>) -> String {
    let mut out = String::new();
    t.fmt(prog, &mut out);
    out
}

fn goal_str(g: &Goal, prog: Option<&Program>) -> String {
    let mut out = String::new();
    g.fmt(prog, &mut out);
    out
}

/// A program naming item 1 `SelfTy`, 2 `Arg`, 3 `OutTy`, 10 `T`, 11 `Foo`.
fn sample_program() -> Program {
    let mut p = Program::new();
    p.register(id(1), "SelfTy".to_string());
    p.register(id(2), "Arg".to_string());
    p.register(id(3), "OutTy".to_string());
    p.register(id(10), "T".to_string());
    p.register(id(11), "Foo".to_string());
    p
}

#[test]
fn universe_index_renders_with_u_prefix() {
    for (n, want) in [(0usize, "U0"), (7, "U7"), (123, "U123"), (usize::MAX, "U18446744073709551615")] {
        let mut out = String::new();
        UniverseIndex { counter: n }.fmt(&mut out);
        assert_eq!(out, want);
    }
}

#[test]
fn variables_render_with_question_mark() {
    assert_eq!(ty_str(&Ty::Var(0), None), "?0");
    assert_eq!(ty_str(&Ty::Var(42), None), "?42");
    assert_eq!(ty_str(&Ty::Var(u32::MAX), None), "?4294967295");
    let mut out = String::new();
    Lifetime::Var(5).fmt(&mut out);
    assert_eq!(out, "'?5");
}

#[test]
fn rigid_variables_render_with_bang() {
    let mut out = String::new();
    Lifetime::ForAll(UniverseIndex { counter: 3 }).fmt(&mut out);
    assert_eq!(out, "'!3");
    let t = Ty::Apply(ApplicationTy {
        name: TypeName::ForAll(UniverseIndex { counter: 2 }),
        parameters: vec![],
    });
    assert_eq!(ty_str(&t, None), "!2");
}

#[test]
fn rendering_appends_to_what_is_there() {
    let mut out = String::from("x: ");
    Ty::Var(1).fmt(None, &mut out);
    assert_eq!(out, "x: ?1");
}

#[test]
fn angle_of_no_items_is_empty() {
    let items: Vec<String> = vec![];
    let mut out = String::new();
    Angle(items.as_slice()).fmt(&mut out);
    assert_eq!(out, "");
    let params: Vec<Parameter> = vec![];
    let mut out = String::new();
    Angle(params.as_slice()).fmt(None, &mut out);
    assert_eq!(out, "");
}

#[test]
fn angle_joins_items_with_comma_space() {
    let one = vec!["A".to_string()];
    let mut out = String::new();
    Angle(one.as_slice()).fmt(&mut out);
    assert_eq!(out, "<A>");
    let three = vec!["A".to_string(), "B<C, D>".to_string(), "E".to_string()];
    let mut out = String::new();
    Angle(three.as_slice()).fmt(&mut out);
    assert_eq!(out, "<A, B<C, D>, E>");
    assert!(out.starts_with('<') && out.ends_with('>'));
}

#[test]
fn angle_of_parameters_keeps_order() {
    let params = vec![ty_param(Ty::Var(1)), ParameterKind::Lifetime(Lifetime::Var(0)), ty_param(Ty::Var(2))];
    let mut out = String::new();
    Angle(params.as_slice()).fmt(None, &mut out);
    assert_eq!(out, "<?1, '?0, ?2>");
}

#[test]
fn program_resolves_item_names() {
    let mut p = Program::new();
    p.register(id(0), "Vec".to_string());
    let t = named(0, vec![]);
    assert_eq!(ty_str(&t, Some(&p)), "Vec");
    assert_eq!(ty_str(&t, None), "ItemId { index: 0 }");
}

#[test]
fn unknown_item_falls_back_to_index() {
    let p = sample_program();
    assert_eq!(ty_str(&named(99, vec![]), Some(&p)), "ItemId { index: 99 }");
    let mut out = String::new();
    id(usize::MAX).fmt(None, &mut out);
    assert_eq!(out, "ItemId { index: 18446744073709551615 }");
}

#[test]
fn register_replaces_an_earlier_name() {
    let mut p = Program::new();
    p.register(id(4), "Old".to_string());
    p.register(id(4), "New".to_string());
    assert_eq!(p.name_of(id(4)).map(|s| s.as_str()), Some("New"));
    assert_eq!(p.name_of(id(5)), None);
}

#[test]
fn application_renders_name_and_arguments() {
    let p = sample_program();
    let t = named(11, vec![ty_param(named(2, vec![])), ParameterKind::Lifetime(Lifetime::Var(1))]);
    assert_eq!(ty_str(&t, Some(&p)), "Foo<Arg, '?1>");
}

#[test]
fn associated_type_name_renders_in_parentheses() {
    let mut p = Program::new();
    p.register(id(7), "Iterator".to_string());
    let t = Ty::Apply(ApplicationTy {
        name: TypeName::AssociatedType(AssociatedType { trait_id: id(7), name: "Item".to_string() }),
        parameters: vec![],
    });
    assert_eq!(ty_str(&t, Some(&p)), "(Iterator::Item)");
}

#[test]
fn quantified_type_renders_binder_count() {
    let t = Ty::ForAll(Box::new(QuantifiedTy { num_binders: 2, ty: Ty::Var(1) }));
    assert_eq!(ty_str(&t, None), "for<2> ?1");
}

#[test]
fn trait_ref_renders_self_as_trait_with_rest() {
    let p = sample_program();
    let tr = TraitRef {
        trait_id: id(11),
        parameters: vec![
            ty_param(Ty::Var(0)),
            ty_param(named(2, vec![ty_param(Ty::Var(1))])),
            ParameterKind::Lifetime(Lifetime::Var(0)),
        ],
    };
    let mut out = String::new();
    tr.fmt(Some(&p), &mut out);
    assert_eq!(out, "?0 as Foo<Arg<?1>, '?0>");
    let only_self = TraitRef { trait_id: id(11), parameters: vec![ty_param(Ty::Var(0))] };
    let mut out = String::new();
    only_self.fmt(Some(&p), &mut out);
    assert_eq!(out, "?0 as Foo");
}

#[test]
fn projection_renders_in_angle_brackets() {
    let mut p = Program::new();
    p.register(id(7), "Iterator".to_string());
    let t = Ty::Projection(ProjectionTy {
        trait_ref: TraitRef { trait_id: id(7), parameters: vec![ty_param(Ty::Var(0))] },
        name: "Item".to_string(),
    });
    assert_eq!(ty_str(&t, Some(&p)), "<?0 as Iterator>::Item");
}

#[test]
fn rendering_twice_gives_the_same_text() {
    let p = sample_program();
    let g = Goal::Implies(
        WhereClause::Implemented(TraitRef { trait_id: id(10), parameters: vec![ty_param(named(1, vec![]))] }),
        Box::new(Goal::Leaf(WhereClauseGoal::UnifyTys(Unify { a: Ty::Var(0), b: named(3, vec![]) }))),
    );
    assert_eq!(goal_str(&g, Some(&p)), goal_str(&g, Some(&p)));
    assert_eq!(goal_str(&g, None), goal_str(&g, None));
}

fn sample_normalize(rest: Vec<Parameter>) -> Normalize {
    let mut parameters = vec![ty_param(named(1, vec![]))];
    parameters.extend(rest);
    Normalize {
        projection: ProjectionTy {
            trait_ref: TraitRef { trait_id: id(10), parameters },
            name: "Item".to_string(),
        },
        ty: named(3, vec![]),
    }
}

#[test]
fn normalize_renders_binding_as_last_argument() {
    let p = sample_program();
    let n = sample_normalize(vec![ty_param(named(2, vec![]))]);
    let mut out = String::new();
    n.fmt(Some(&p), &mut out);
    assert_eq!(out, "SelfTy as T<Arg, Item = OutTy>");
}

#[test]
fn normalize_without_trait_arguments_has_only_the_binding() {
    let p = sample_program();
    let n = sample_normalize(vec![]);
    let mut out = String::new();
    n.fmt(Some(&p), &mut out);
    assert_eq!(out, "SelfTy as T<Item = OutTy>");
    let mut out = String::new();
    WhereClause::Normalize(n).fmt(Some(&p), &mut out);
    assert_eq!(out, "SelfTy as T<Item = OutTy>");
}

#[test]
fn goal_and_of_implemented_and_unify() {
    let p = sample_program();
    let tr = TraitRef { trait_id: id(11), parameters: vec![ty_param(named(1, vec![])), ty_param(named(2, vec![]))] };
    let g = Goal::And(
        Box::new(Goal::Leaf(WhereClauseGoal::Implemented(tr))),
        Box::new(Goal::Leaf(WhereClauseGoal::UnifyTys(Unify { a: Ty::Var(0), b: named(3, vec![]) }))),
    );
    assert_eq!(goal_str(&g, Some(&p)), "(SelfTy as Foo<Arg>, (?0 = OutTy))");
}

#[test]
fn quantified_goals_name_their_binder_kind() {
    let leaf = || Goal::Leaf(WhereClauseGoal::UnifyTys(Unify { a: Ty::Var(0), b: Ty::Var(1) }));
    let g = Goal::Quantified(QuantifierKind::ForAll, ParameterKind::Ty(()), Box::new(leaf()));
    assert_eq!(goal_str(&g, None), "ForAll<type> { (?0 = ?1) }");
    let g = Goal::Quantified(QuantifierKind::Exists, ParameterKind::Lifetime(()), Box::new(leaf()));
    assert_eq!(goal_str(&g, None), "Exists<lifetime> { (?0 = ?1) }");
}

#[test]
fn implies_goal_renders_condition_and_body() {
    let p = sample_program();
    let g = Goal::Implies(
        WhereClause::Implemented(TraitRef { trait_id: id(11), parameters: vec![ty_param(Ty::Var(0))] }),
        Box::new(Goal::Leaf(WhereClauseGoal::Normalize(sample_normalize(vec![])))),
    );
    assert_eq!(goal_str(&g, Some(&p)), "if (?0 as Foo) { SelfTy as T<Item = OutTy> }");
}

#[test]
fn nested_install_restores_outer_program() {
    let mut a = Program::new();
    a.register(id(0), "A".to_string());
    let mut b = Program::new();
    b.register(id(0), "B".to_string());
    let t = named(0, vec![]);
    let mut stack = ProgramStack::new();
    assert!(stack.current().is_none());
    assert_eq!(ty_str(&t, stack.current()), "ItemId { index: 0 }");
    stack.install(a);
    assert_eq!(ty_str(&t, stack.current()), "A");
    stack.install(b);
    assert_eq!(ty_str(&t, stack.current()), "B");
    let inner = stack.uninstall();
    assert!(inner.is_some());
    assert_eq!(ty_str(&t, stack.current()), "A");
    assert!(stack.uninstall().is_some());
    assert!(stack.current().is_none());
    assert!(stack.uninstall().is_none());
}
