use udf_validator::ast::{Statement, Target};
use udf_validator::diagnostic::{Collector, Diagnostic};
use udf_validator::validator::{
    loop_statements, recurse, validate_block, validate_func, validate_name, validate_names,
    validate_statement, validate_targets, ScopeContext,
};

fn names(list: &[&str]) -> Vec<String> {
    list.iter().map(|n| n.to_string()).collect()
}

fn local(list: &[&str]) -> Statement {
    Statement::LocalDeclaration { names: names(list) }
}

fn assign(list: &[&str]) -> Statement {
    Statement::Assignment { targets: list.iter().map(|n| Target::Name(n.to_string())).collect() }
}

fn walk(stmt: &Statement, ctx: ScopeContext) -> Vec<Diagnostic> {
    validate_statement(stmt, ctx)
}

#[test]
fn demotion_always_ends_nested() {
    assert_eq!(ScopeContext::Outermost.demote(), ScopeContext::Nested);
    assert_eq!(ScopeContext::Nested.demote(), ScopeContext::Nested);
    assert!(!ScopeContext::Outermost.allow_vars());
    assert!(ScopeContext::Nested.allow_vars());
}

#[test]
fn one_name_reserved_then_global() {
    let mut errors = Collector::new();
    validate_name("map", &mut errors, false);
    assert_eq!(
        errors.into_diagnostics(),
        vec![Diagnostic::reserved("map"), Diagnostic::global("map")]
    );
}

#[test]
fn one_name_with_variables_allowed() {
    let mut errors = Collector::new();
    validate_name("map", &mut errors, true);
    validate_name("x", &mut errors, true);
    assert_eq!(errors.into_diagnostics(), vec![Diagnostic::reserved("map")]);
}

#[test]
fn names_are_checked_one_by_one() {
    let mut errors = Collector::new();
    validate_names(&names(&["a", "list", "b"]), &mut errors, false);
    assert_eq!(
        errors.into_diagnostics(),
        vec![
            Diagnostic::global("a"),
            Diagnostic::reserved("list"),
            Diagnostic::global("list"),
            Diagnostic::global("b"),
        ]
    );
}

#[test]
fn names_are_added_behind_what_was_collected() {
    let mut errors = Collector::new();
    errors.report(Diagnostic::global("first"));
    validate_names(&names(&["bytes"]), &mut errors, true);
    validate_names(&names(&[]), &mut errors, false);
    assert_eq!(
        errors.into_diagnostics(),
        vec![Diagnostic::global("first"), Diagnostic::reserved("bytes")]
    );
}

#[test]
fn only_bare_targets_are_checked() {
    let targets = vec![
        Target::Other,
        Target::Name("record".to_string()),
        Target::Other,
        Target::Name("y".to_string()),
    ];
    let mut errors = Collector::new();
    validate_targets(&targets, &mut errors, false);
    assert_eq!(
        errors.into_diagnostics(),
        vec![Diagnostic::reserved("record"), Diagnostic::global("record"), Diagnostic::global("y")]
    );
    let mut errors = Collector::new();
    validate_targets(&targets, &mut errors, true);
    assert_eq!(errors.into_diagnostics(), vec![Diagnostic::reserved("record")]);
}

#[test]
fn local_declaration_at_the_root_is_global() {
    assert_eq!(walk(&local(&["x"]), ScopeContext::Outermost), vec![Diagnostic::global("x")]);
    assert_eq!(walk(&local(&["x"]), ScopeContext::Nested), vec![]);
}

#[test]
fn assignment_at_the_root_is_global() {
    assert_eq!(walk(&assign(&["x"]), ScopeContext::Outermost), vec![Diagnostic::global("x")]);
    assert_eq!(walk(&assign(&["x"]), ScopeContext::Nested), vec![]);
}

#[test]
fn reserved_names_are_reported_in_any_context() {
    assert_eq!(
        walk(&local(&["aerospike"]), ScopeContext::Outermost),
        vec![Diagnostic::reserved("aerospike"), Diagnostic::global("aerospike")]
    );
    assert_eq!(
        walk(&local(&["aerospike"]), ScopeContext::Nested),
        vec![Diagnostic::reserved("aerospike")]
    );
    assert_eq!(
        walk(&assign(&["stream"]), ScopeContext::Nested),
        vec![Diagnostic::reserved("stream")]
    );
}

#[test]
fn parameters_are_checked_against_reserved_names_only() {
    for ctx in [ScopeContext::Outermost, ScopeContext::Nested] {
        let f = Statement::FunctionDeclaration { params: names(&["a", "map", "b"]), body: vec![] };
        assert_eq!(walk(&f, ctx), vec![Diagnostic::reserved("map")]);
    }
}

#[test]
fn a_function_body_is_nested_even_at_the_root() {
    let f = Statement::FunctionDeclaration {
        params: names(&["list"]),
        body: vec![local(&["x"]), assign(&["y", "geojson"])],
    };
    assert_eq!(
        walk(&f, ScopeContext::Outermost),
        vec![Diagnostic::reserved("list"), Diagnostic::reserved("geojson")]
    );
}

#[test]
fn validate_func_checks_parameters_then_body() {
    let mut errors = Collector::new();
    validate_func(
        &names(&["iterator", "n"]),
        &vec![local(&["bytes"])],
        &mut errors,
        ScopeContext::Nested,
    );
    assert_eq!(
        errors.into_diagnostics(),
        vec![Diagnostic::reserved("iterator"), Diagnostic::reserved("bytes")]
    );
}

#[test]
fn every_branch_of_an_if_is_nested_and_walked_in_source_order() {
    let stmt = Statement::If {
        block: vec![local(&["record"]), local(&["a"])],
        elseifs: vec![vec![assign(&["map"])], vec![], vec![local(&["list"])]],
        else_block: Some(vec![assign(&["b", "stream"])]),
    };
    let expected = vec![
        Diagnostic::reserved("record"),
        Diagnostic::reserved("map"),
        Diagnostic::reserved("list"),
        Diagnostic::reserved("stream"),
    ];
    assert_eq!(walk(&stmt, ScopeContext::Outermost), expected);
    assert_eq!(walk(&stmt, ScopeContext::Nested), expected);
}

#[test]
fn an_if_without_else() {
    let stmt = Statement::If { block: vec![local(&["x"])], elseifs: vec![], else_block: None };
    assert_eq!(walk(&stmt, ScopeContext::Outermost), vec![]);
}

#[test]
fn loop_bodies_are_nested() {
    let loops = vec![
        Statement::While { body: vec![local(&["x", "map"])] },
        Statement::NumericFor { body: vec![local(&["x", "list"])] },
        Statement::GenericFor { body: vec![assign(&["x", "bytes"])] },
        Statement::Repeat { body: vec![assign(&["x", "record"])] },
    ];
    assert_eq!(
        validate_block(&loops),
        vec![
            Diagnostic::reserved("map"),
            Diagnostic::reserved("list"),
            Diagnostic::reserved("bytes"),
            Diagnostic::reserved("record"),
        ]
    );
}

#[test]
fn other_statements_yield_nothing() {
    assert_eq!(walk(&Statement::Other, ScopeContext::Outermost), vec![]);
    assert_eq!(walk(&Statement::Other, ScopeContext::Nested), vec![]);
}

#[test]
fn nesting_never_reverts_to_outermost() {
    let deep = Statement::While {
        body: vec![Statement::If {
            block: vec![Statement::FunctionDeclaration {
                params: vec![],
                body: vec![Statement::Repeat { body: vec![local(&["x"]), local(&["map"])] }],
            }],
            elseifs: vec![],
            else_block: None,
        }],
    };
    assert_eq!(validate_block(&vec![deep]), vec![Diagnostic::reserved("map")]);
}

#[test]
fn siblings_do_not_share_the_context() {
    let root = vec![
        Statement::While { body: vec![local(&["inner"])] },
        local(&["after"]),
    ];
    assert_eq!(validate_block(&root), vec![Diagnostic::global("after")]);
}

#[test]
fn diagnostics_follow_source_order() {
    let root = vec![local(&["b"]), Statement::Other, local(&["a"])];
    assert_eq!(validate_block(&root), vec![Diagnostic::global("b"), Diagnostic::global("a")]);
}

#[test]
fn the_walk_does_not_stop_at_the_first_violation() {
    let root = vec![
        Statement::FunctionDeclaration { params: names(&["map"]), body: vec![] },
        local(&["x"]),
    ];
    assert_eq!(validate_block(&root), vec![Diagnostic::reserved("map"), Diagnostic::global("x")]);
}

#[test]
fn duplicates_are_kept() {
    let root = vec![local(&["x"]), local(&["x"])];
    assert_eq!(validate_block(&root), vec![Diagnostic::global("x"), Diagnostic::global("x")]);
}

#[test]
fn an_empty_script_passes() {
    assert_eq!(validate_block(&vec![]), vec![]);
}

#[test]
fn loop_statements_appends_to_the_collector() {
    let mut errors = Collector::new();
    errors.report(Diagnostic::reserved("before"));
    loop_statements(&vec![local(&["x"])], &mut errors, ScopeContext::Outermost);
    loop_statements(&vec![local(&["y"])], &mut errors, ScopeContext::Nested);
    assert_eq!(
        errors.into_diagnostics(),
        vec![Diagnostic::reserved("before"), Diagnostic::global("x")]
    );
}

#[test]
fn two_runs_of_statements_concatenate() {
    let first = || vec![local(&["a", "map"]), Statement::While { body: vec![assign(&["list"])] }];
    let second = || vec![assign(&["bytes"]), Statement::Other, local(&["z"])];
    let mut whole = first();
    whole.extend(second());
    let mut expected = validate_block(&first());
    expected.extend(validate_block(&second()));
    assert_eq!(validate_block(&whole), expected);
    assert_eq!(
        expected,
        vec![
            Diagnostic::global("a"),
            Diagnostic::reserved("map"),
            Diagnostic::global("map"),
            Diagnostic::reserved("list"),
            Diagnostic::reserved("bytes"),
            Diagnostic::global("bytes"),
            Diagnostic::global("z"),
        ]
    );
}

#[test]
fn a_tree_without_violating_declarations_yields_nothing() {
    let root = vec![
        Statement::FunctionDeclaration {
            params: names(&["rec", "bin"]),
            body: vec![
                local(&["value"]),
                Statement::If {
                    block: vec![assign(&["value"])],
                    elseifs: vec![vec![Statement::Other]],
                    else_block: Some(vec![local(&["other"])]),
                },
                Statement::Assignment { targets: vec![Target::Other] },
            ],
        },
        Statement::Assignment { targets: vec![Target::Other, Target::Other] },
        Statement::Other,
    ];
    assert_eq!(validate_block(&root), vec![]);
}

#[test]
fn recurse_appends_to_the_collector() {
    let mut errors = Collector::new();
    errors.report(Diagnostic::global("before"));
    recurse(&local(&["map"]), &mut errors, ScopeContext::Nested);
    recurse(&Statement::Other, &mut errors, ScopeContext::Outermost);
    recurse(&assign(&["x"]), &mut errors, ScopeContext::Outermost);
    assert_eq!(
        errors.into_diagnostics(),
        vec![Diagnostic::global("before"), Diagnostic::reserved("map"), Diagnostic::global("x")]
    );
}
