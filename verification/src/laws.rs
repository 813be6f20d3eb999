//! What holds of the validator and of the boundary on every script.

use crate::ast::{StatementModel, TargetModel};
use crate::boundary::{outcome_of, reasons_of, OutcomeModel};
use crate::diagnostic::{DiagnosticKind, DiagnosticModel};
use crate::parser::ParseFailureModel;
use crate::registry::reserved_names;
use crate::validator::{
    block_diagnostics, block_parts, blocks_diagnostics, blocks_parts, name_diagnostics,
    names_diagnostics, statement_diagnostics, target_diagnostics, targets_diagnostics,
    ScopeContext,
};
use vstd::prelude::*;
use vstd::seq_lib::lemma_flatten_concat;

verus! {

/// Whether every diagnostic of `ds` is a reserved-identifier violation.
pub open spec fn only_reserved(ds: Seq<DiagnosticModel>) -> bool {
    forall|k: int|
        0 <= k < ds.len() ==> (#[trigger] ds[k]).kind == DiagnosticKind::ReservedIdentifier
}

/// Whether a declared name breaks a rule: it is reserved, or it is declared
/// where variables are not allowed.
pub open spec fn name_violates(name: Seq<char>, allow_vars: bool) -> bool {
    reserved_names().contains(name) || !allow_vars
}

/// Whether some name of a list breaks a rule.
pub open spec fn names_violate(names: Seq<Seq<char>>, allow_vars: bool) -> bool {
    exists|i: int| 0 <= i < names.len() && name_violates(#[trigger] names[i], allow_vars)
}

/// Whether an assignment target is a bare identifier that breaks a rule.
pub open spec fn target_violates(target: TargetModel, allow_vars: bool) -> bool {
    target matches TargetModel::Name(name) && name_violates(name, allow_vars)
}

/// Whether some target of an assignment breaks a rule.
pub open spec fn targets_violate(targets: Seq<TargetModel>, allow_vars: bool) -> bool {
    exists|i: int| 0 <= i < targets.len() && target_violates(#[trigger] targets[i], allow_vars)
}

/// Whether a statement that stands in context `ctx` holds a violating
/// declaration: in itself, or anywhere in the blocks it owns.
pub open spec fn statement_violates(stmt: StatementModel, ctx: ScopeContext) -> bool
    decreases stmt, 0nat,
{
    match stmt {
        StatementModel::FunctionDeclaration { params, body } => names_violate(params, true)
            || block_violates(body, ScopeContext::Nested),
        StatementModel::LocalDeclaration { names } => names_violate(
            names,
            ctx == ScopeContext::Nested,
        ),
        StatementModel::Assignment { targets } => targets_violate(
            targets,
            ctx == ScopeContext::Nested,
        ),
        StatementModel::If { block, elseifs, else_block } => block_violates(
            block,
            ScopeContext::Nested,
        ) || blocks_violate(elseifs, ScopeContext::Nested) || (else_block matches Some(b)
            && block_violates(b, ScopeContext::Nested)),
        StatementModel::While { body } => block_violates(body, ScopeContext::Nested),
        StatementModel::NumericFor { body } => block_violates(body, ScopeContext::Nested),
        StatementModel::GenericFor { body } => block_violates(body, ScopeContext::Nested),
        StatementModel::Repeat { body } => block_violates(body, ScopeContext::Nested),
        StatementModel::Other => false,
    }
}

/// Whether some statement of a block holds a violating declaration.
pub open spec fn block_violates(block: Seq<StatementModel>, ctx: ScopeContext) -> bool
    decreases block, 1nat,
{
    exists|i: int| 0 <= i < block.len() && statement_violates(#[trigger] block[i], ctx)
}

/// Whether some block of a list holds a violating declaration.
pub open spec fn blocks_violate(blocks: Seq<Seq<StatementModel>>, ctx: ScopeContext) -> bool
    decreases blocks, 2nat,
{
    exists|i: int| 0 <= i < blocks.len() && block_violates(#[trigger] blocks[i], ctx)
}

/// A flattened sequence is what comes before part `i`, then part `i`, then
/// what comes after it.
proof fn lemma_flatten_split<A>(parts: Seq<Seq<A>>, i: int)
    requires
        0 <= i < parts.len(),
    ensures
        parts.flatten() == parts.take(i).flatten() + parts[i] + parts.skip(i + 1).flatten(),
{
    let before = parts.take(i);
    let one = seq![parts[i]];
    let after = parts.skip(i + 1);
    assert(parts =~= before + one + after);
    lemma_flatten_concat(before + one, after);
    lemma_flatten_concat(before, one);
    one.lemma_flatten_one_element();
}

/// A flattened sequence holds something if and only if one of its parts does.
proof fn lemma_flatten_nonempty<A>(parts: Seq<Seq<A>>)
    ensures
        parts.flatten().len() > 0 <==> exists|i: int|
            0 <= i < parts.len() && (#[trigger] parts[i]).len() > 0,
    decreases parts.len(),
{
    if parts.len() > 0 {
        let rest = parts.drop_first();
        lemma_flatten_nonempty(rest);
        if parts.flatten().len() > 0 {
            if parts.first().len() > 0 {
                assert(parts[0].len() > 0);
            } else {
                let i = choose|i: int| 0 <= i < rest.len() && (#[trigger] rest[i]).len() > 0;
                assert(parts[i + 1] == rest[i]);
            }
        }
        if exists|i: int| 0 <= i < parts.len() && (#[trigger] parts[i]).len() > 0 {
            let i = choose|i: int| 0 <= i < parts.len() && (#[trigger] parts[i]).len() > 0;
            if i > 0 {
                assert(rest[i - 1] == parts[i]);
            }
        }
    }
}

/// If every part holds reserved-identifier violations only, so does the
/// flattened sequence.
proof fn lemma_flatten_only_reserved(parts: Seq<Seq<DiagnosticModel>>)
    requires
        forall|i: int| 0 <= i < parts.len() ==> only_reserved(#[trigger] parts[i]),
    ensures
        only_reserved(parts.flatten()),
    decreases parts.len(),
{
    if parts.len() > 0 {
        let rest = parts.drop_first();
        assert forall|i: int| 0 <= i < rest.len() implies only_reserved(#[trigger] rest[i]) by {
            assert(rest[i] == parts[i + 1]);
        }
        lemma_flatten_only_reserved(rest);
        assert(only_reserved(parts.first()));
    }
}

/// Where variables are allowed, the names of a list yield reserved-identifier
/// violations only.
proof fn lemma_names_only_reserved(names: Seq<Seq<char>>)
    ensures
        only_reserved(names_diagnostics(names, true)),
{
    let parts = Seq::new(names.len(), |i: int| name_diagnostics(names[i], true));
    lemma_flatten_only_reserved(parts);
}

/// Where variables are allowed, the targets of an assignment yield
/// reserved-identifier violations only.
proof fn lemma_targets_only_reserved(targets: Seq<TargetModel>)
    ensures
        only_reserved(targets_diagnostics(targets, true)),
{
    let parts = Seq::new(targets.len(), |i: int| target_diagnostics(targets[i], true));
    lemma_flatten_only_reserved(parts);
}

/// Name `i` of a list yields its violations among those of the list.
proof fn lemma_names_diagnostics_contain(names: Seq<Seq<char>>, allow_vars: bool, i: int)
    requires
        0 <= i < names.len(),
    ensures
        reserved_names().contains(names[i]) ==> names_diagnostics(names, allow_vars).contains(
            DiagnosticModel::reserved(names[i]),
        ),
        !allow_vars ==> names_diagnostics(names, allow_vars).contains(
            DiagnosticModel::global(names[i]),
        ),
{
    let parts = Seq::new(names.len(), |k: int| name_diagnostics(names[k], allow_vars));
    lemma_flatten_split(parts, i);
    let before = parts.take(i).flatten();
    let all = names_diagnostics(names, allow_vars);
    let own = name_diagnostics(names[i], allow_vars);
    assert forall|k: int| 0 <= k < own.len() implies all.contains(#[trigger] own[k]) by {
        assert(all[before.len() + k] == own[k]);
    }
    if reserved_names().contains(names[i]) {
        assert(own[0] == DiagnosticModel::reserved(names[i]));
    }
    if !allow_vars {
        assert(own[own.len() - 1] == DiagnosticModel::global(names[i]));
    }
}

/// Target `i` of an assignment, if it is a bare identifier, yields its
/// violations among those of the assignment.
proof fn lemma_targets_diagnostics_contain(targets: Seq<TargetModel>, allow_vars: bool, i: int)
    requires
        0 <= i < targets.len(),
        targets[i] is Name,
    ensures
        reserved_names().contains(targets[i]->Name_0) ==> targets_diagnostics(
            targets,
            allow_vars,
        ).contains(DiagnosticModel::reserved(targets[i]->Name_0)),
        !allow_vars ==> targets_diagnostics(targets, allow_vars).contains(
            DiagnosticModel::global(targets[i]->Name_0),
        ),
{
    let parts = Seq::new(targets.len(), |k: int| target_diagnostics(targets[k], allow_vars));
    lemma_flatten_split(parts, i);
    let before = parts.take(i).flatten();
    let all = targets_diagnostics(targets, allow_vars);
    let name = targets[i]->Name_0;
    let own = name_diagnostics(name, allow_vars);
    assert(parts[i] == own);
    assert forall|k: int| 0 <= k < own.len() implies all.contains(#[trigger] own[k]) by {
        assert(all[before.len() + k] == own[k]);
    }
    if reserved_names().contains(name) {
        assert(own[0] == DiagnosticModel::reserved(name));
    }
    if !allow_vars {
        assert(own[own.len() - 1] == DiagnosticModel::global(name));
    }
}

/// Diagnostics come in discovery order: those of two runs of statements, one
/// after the other, are those of the first run, then those of the second.
pub proof fn law_discovery_order(
    first: Seq<StatementModel>,
    second: Seq<StatementModel>,
    ctx: ScopeContext,
)
    ensures
        block_diagnostics(first + second, ctx) == block_diagnostics(first, ctx)
            + block_diagnostics(second, ctx),
{
    assert(block_parts(first + second, ctx) =~= block_parts(first, ctx) + block_parts(second, ctx));
    lemma_flatten_concat(block_parts(first, ctx), block_parts(second, ctx));
}

/// Diagnostics follow the source: a block of statement `a`, then statement
/// `b`, yields the diagnostics of `a`, then those of `b`.
pub proof fn law_source_order(a: StatementModel, b: StatementModel, ctx: ScopeContext)
    ensures
        block_diagnostics(seq![a, b], ctx) == statement_diagnostics(a, ctx) + statement_diagnostics(
            b,
            ctx,
        ),
{
    law_no_early_exit(seq![a, b], 0, ctx);
    law_no_early_exit(seq![a, b], 1, ctx);
    assert(seq![a, b].take(0) =~= Seq::<StatementModel>::empty());
    assert(seq![a, b].skip(1).take(0) =~= Seq::<StatementModel>::empty());
    assert(seq![a, b].skip(2) =~= Seq::<StatementModel>::empty());
    assert(block_parts(Seq::<StatementModel>::empty(), ctx) =~= Seq::<
        Seq<DiagnosticModel>,
    >::empty());
    law_no_early_exit(seq![a, b].skip(1), 0, ctx);
    assert(seq![a, b].skip(1).skip(1) =~= Seq::<StatementModel>::empty());
}

/// The walk never stops early: whatever the statements before statement `i`
/// yield, the diagnostics of the block hold those of statement `i` in full,
/// behind those of the statements before it and in front of those of the
/// statements after it.
pub proof fn law_no_early_exit(block: Seq<StatementModel>, i: int, ctx: ScopeContext)
    requires
        0 <= i < block.len(),
    ensures
        block_diagnostics(block, ctx) == block_diagnostics(block.take(i), ctx)
            + statement_diagnostics(block[i], ctx) + block_diagnostics(block.skip(i + 1), ctx),
{
    let parts = block_parts(block, ctx);
    lemma_flatten_split(parts, i);
    assert(parts.take(i) =~= block_parts(block.take(i), ctx));
    assert(parts.skip(i + 1) =~= block_parts(block.skip(i + 1), ctx));
}

/// One violation does not hide another: two different statements of a block
/// both leave all their diagnostics in those of the block.
pub proof fn law_every_violation_counted(
    block: Seq<StatementModel>,
    i: int,
    j: int,
    ctx: ScopeContext,
)
    requires
        0 <= i < j < block.len(),
    ensures
        block_diagnostics(block, ctx).len() >= statement_diagnostics(block[i], ctx).len()
            + statement_diagnostics(block[j], ctx).len(),
{
    law_no_early_exit(block, i, ctx);
    let rest = block.skip(i + 1);
    law_no_early_exit(rest, j - i - 1, ctx);
    assert(rest[j - i - 1] == block[j]);
}

/// Reserved names are reported wherever they are declared: a local
/// declaration yields a reserved-identifier violation for each of its names
/// that is reserved, in any context.
pub proof fn law_reserved_local_reported(names: Seq<Seq<char>>, i: int, ctx: ScopeContext)
    requires
        0 <= i < names.len(),
        reserved_names().contains(names[i]),
    ensures
        statement_diagnostics(StatementModel::LocalDeclaration { names }, ctx).contains(
            DiagnosticModel::reserved(names[i]),
        ),
{
    lemma_names_diagnostics_contain(names, ctx.allows_variables(), i);
}

/// The global-variable rule holds at the root: a local declaration that is a
/// direct child of the root block yields a global-variable violation for each
/// of its names.
pub proof fn law_root_local_is_global(names: Seq<Seq<char>>, i: int)
    requires
        0 <= i < names.len(),
    ensures
        statement_diagnostics(
            StatementModel::LocalDeclaration { names },
            ScopeContext::Outermost,
        ).contains(DiagnosticModel::global(names[i])),
{
    lemma_names_diagnostics_contain(names, false, i);
}

/// Reserved names are reported wherever they are assigned: an assignment
/// yields a reserved-identifier violation for each of its targets that is a
/// bare identifier and reserved, in any context.
pub proof fn law_reserved_target_reported(targets: Seq<TargetModel>, i: int, ctx: ScopeContext)
    requires
        0 <= i < targets.len(),
        targets[i] is Name,
        reserved_names().contains(targets[i]->Name_0),
    ensures
        statement_diagnostics(StatementModel::Assignment { targets }, ctx).contains(
            DiagnosticModel::reserved(targets[i]->Name_0),
        ),
{
    lemma_targets_diagnostics_contain(targets, ctx.allows_variables(), i);
}

/// The global-variable rule holds at the root for assignments too: one that
/// is a direct child of the root block yields a global-variable violation for
/// each of its targets that is a bare identifier.
pub proof fn law_root_assignment_is_global(targets: Seq<TargetModel>, i: int)
    requires
        0 <= i < targets.len(),
        targets[i] is Name,
    ensures
        statement_diagnostics(
            StatementModel::Assignment { targets },
            ScopeContext::Outermost,
        ).contains(DiagnosticModel::global(targets[i]->Name_0)),
{
    lemma_targets_diagnostics_contain(targets, false, i);
}

/// The global-variable rule stops at the root: a statement in a nested
/// context yields no global-variable violation, however deep it reaches.
pub proof fn law_nested_yields_no_global(stmt: StatementModel)
    ensures
        only_reserved(statement_diagnostics(stmt, ScopeContext::Nested)),
    decreases stmt, 0nat,
{
    let ctx = ScopeContext::Nested;
    match stmt {
        StatementModel::FunctionDeclaration { params, body } => {
            lemma_names_only_reserved(params);
            lemma_block_yields_no_global(body);
        },
        StatementModel::LocalDeclaration { names } => {
            lemma_names_only_reserved(names);
        },
        StatementModel::Assignment { targets } => {
            lemma_targets_only_reserved(targets);
        },
        StatementModel::If { block, elseifs, else_block } => {
            lemma_block_yields_no_global(block);
            lemma_blocks_yield_no_global(elseifs);
            match else_block {
                Some(b) => {
                    lemma_block_yields_no_global(b);
                },
                None => {},
            }
        },
        StatementModel::While { body } => {
            lemma_block_yields_no_global(body);
        },
        StatementModel::NumericFor { body } => {
            lemma_block_yields_no_global(body);
        },
        StatementModel::GenericFor { body } => {
            lemma_block_yields_no_global(body);
        },
        StatementModel::Repeat { body } => {
            lemma_block_yields_no_global(body);
        },
        StatementModel::Other => {},
    }
}

/// A block in a nested context yields no global-variable violation.
proof fn lemma_block_yields_no_global(block: Seq<StatementModel>)
    ensures
        only_reserved(block_diagnostics(block, ScopeContext::Nested)),
    decreases block, 1nat,
{
    let parts = block_parts(block, ScopeContext::Nested);
    assert forall|i: int| 0 <= i < parts.len() implies only_reserved(#[trigger] parts[i]) by {
        law_nested_yields_no_global(block[i]);
    }
    lemma_flatten_only_reserved(parts);
}

/// A list of blocks in a nested context yields no global-variable violation.
proof fn lemma_blocks_yield_no_global(blocks: Seq<Seq<StatementModel>>)
    ensures
        only_reserved(blocks_diagnostics(blocks, ScopeContext::Nested)),
    decreases blocks, 2nat,
{
    let parts = blocks_parts(blocks, ScopeContext::Nested);
    assert forall|i: int| 0 <= i < parts.len() implies only_reserved(#[trigger] parts[i]) by {
        lemma_block_yields_no_global(blocks[i]);
    }
    lemma_flatten_only_reserved(parts);
}

/// Parameters are always checked and never take part in the global-variable
/// rule: in any context, a function declaration yields a reserved-identifier violation for each of
/// its parameters that is reserved, and no global-variable violation at all:
/// neither for a parameter nor for anything in its body.
pub proof fn law_parameters_checked(
    params: Seq<Seq<char>>,
    body: Seq<StatementModel>,
    i: int,
    ctx: ScopeContext,
)
    requires
        0 <= i < params.len(),
    ensures
        reserved_names().contains(params[i]) ==> statement_diagnostics(
            StatementModel::FunctionDeclaration { params, body },
            ctx,
        ).contains(DiagnosticModel::reserved(params[i])),
        only_reserved(
            statement_diagnostics(StatementModel::FunctionDeclaration { params, body }, ctx),
        ),
        statement_diagnostics(StatementModel::FunctionDeclaration { params, body }, ctx)
            == statement_diagnostics(
            StatementModel::FunctionDeclaration { params, body },
            ScopeContext::Nested,
        ),
{
    let stmt = StatementModel::FunctionDeclaration { params, body };
    law_nested_yields_no_global(stmt);
    lemma_names_diagnostics_contain(params, true, i);
    let own = names_diagnostics(params, true);
    let all = statement_diagnostics(stmt, ctx);
    if reserved_names().contains(params[i]) {
        let k = choose|k: int| 0 <= k < own.len() && own[k] == DiagnosticModel::reserved(params[i]);
        assert(all[k] == DiagnosticModel::reserved(params[i]));
    }
}

/// The names of a list yield a diagnostic if and only if one of them breaks a
/// rule.
proof fn lemma_names_diagnosed(names: Seq<Seq<char>>, allow_vars: bool)
    ensures
        names_diagnostics(names, allow_vars).len() > 0 <==> names_violate(names, allow_vars),
{
    let parts = Seq::new(names.len(), |i: int| name_diagnostics(names[i], allow_vars));
    lemma_flatten_nonempty(parts);
    if names_violate(names, allow_vars) {
        let i = choose|i: int|
            0 <= i < names.len() && name_violates(#[trigger] names[i], allow_vars);
        assert(parts[i].len() > 0);
    }
    if parts.flatten().len() > 0 {
        let i = choose|i: int| 0 <= i < parts.len() && (#[trigger] parts[i]).len() > 0;
        assert(name_violates(names[i], allow_vars));
    }
}

/// The targets of an assignment yield a diagnostic if and only if one of
/// them breaks a rule.
proof fn lemma_targets_diagnosed(targets: Seq<TargetModel>, allow_vars: bool)
    ensures
        targets_diagnostics(targets, allow_vars).len() > 0 <==> targets_violate(
            targets,
            allow_vars,
        ),
{
    let parts = Seq::new(targets.len(), |i: int| target_diagnostics(targets[i], allow_vars));
    lemma_flatten_nonempty(parts);
    if targets_violate(targets, allow_vars) {
        let i = choose|i: int|
            0 <= i < targets.len() && target_violates(#[trigger] targets[i], allow_vars);
        assert(parts[i].len() > 0);
    }
    if parts.flatten().len() > 0 {
        let i = choose|i: int| 0 <= i < parts.len() && (#[trigger] parts[i]).len() > 0;
        assert(target_violates(targets[i], allow_vars));
    }
}

/// Nothing is missed and nothing is made up: a statement yields a diagnostic
/// if and only if it holds a violating declaration, in itself or anywhere in
/// the blocks it owns.
pub proof fn law_statement_diagnosed(stmt: StatementModel, ctx: ScopeContext)
    ensures
        statement_diagnostics(stmt, ctx).len() > 0 <==> statement_violates(stmt, ctx),
    decreases stmt, 0nat,
{
    match stmt {
        StatementModel::FunctionDeclaration { params, body } => {
            lemma_names_diagnosed(params, true);
            law_block_diagnosed(body, ScopeContext::Nested);
        },
        StatementModel::LocalDeclaration { names } => {
            lemma_names_diagnosed(names, ctx.allows_variables());
        },
        StatementModel::Assignment { targets } => {
            lemma_targets_diagnosed(targets, ctx.allows_variables());
        },
        StatementModel::If { block, elseifs, else_block } => {
            law_block_diagnosed(block, ScopeContext::Nested);
            lemma_blocks_diagnosed(elseifs, ScopeContext::Nested);
            match else_block {
                Some(b) => {
                    law_block_diagnosed(b, ScopeContext::Nested);
                },
                None => {},
            }
        },
        StatementModel::While { body } => {
            law_block_diagnosed(body, ScopeContext::Nested);
        },
        StatementModel::NumericFor { body } => {
            law_block_diagnosed(body, ScopeContext::Nested);
        },
        StatementModel::GenericFor { body } => {
            law_block_diagnosed(body, ScopeContext::Nested);
        },
        StatementModel::Repeat { body } => {
            law_block_diagnosed(body, ScopeContext::Nested);
        },
        StatementModel::Other => {},
    }
}

/// Nothing is missed and nothing is made up in a block either: it yields a
/// diagnostic if and only if one of its statements holds a violating
/// declaration.
pub proof fn law_block_diagnosed(block: Seq<StatementModel>, ctx: ScopeContext)
    ensures
        block_diagnostics(block, ctx).len() > 0 <==> block_violates(block, ctx),
    decreases block, 1nat,
{
    let parts = block_parts(block, ctx);
    lemma_flatten_nonempty(parts);
    assert forall|i: int| 0 <= i < block.len() implies ((#[trigger] parts[i]).len() > 0
        <==> statement_violates(block[i], ctx)) by {
        law_statement_diagnosed(block[i], ctx);
    }
    if block_violates(block, ctx) {
        let i = choose|i: int| 0 <= i < block.len() && statement_violates(#[trigger] block[i], ctx);
        assert(parts[i].len() > 0);
    }
    if parts.flatten().len() > 0 {
        let i = choose|i: int| 0 <= i < parts.len() && (#[trigger] parts[i]).len() > 0;
        assert(statement_violates(block[i], ctx));
    }
}

/// A list of blocks yields a diagnostic if and only if one of the blocks
/// holds a violating declaration.
proof fn lemma_blocks_diagnosed(blocks: Seq<Seq<StatementModel>>, ctx: ScopeContext)
    ensures
        blocks_diagnostics(blocks, ctx).len() > 0 <==> blocks_violate(blocks, ctx),
    decreases blocks, 2nat,
{
    let parts = blocks_parts(blocks, ctx);
    lemma_flatten_nonempty(parts);
    assert forall|i: int| 0 <= i < blocks.len() implies ((#[trigger] parts[i]).len() > 0
        <==> block_violates(blocks[i], ctx)) by {
        law_block_diagnosed(blocks[i], ctx);
    }
    if blocks_violate(blocks, ctx) {
        let i = choose|i: int| 0 <= i < blocks.len() && block_violates(#[trigger] blocks[i], ctx);
        assert(parts[i].len() > 0);
    }
    if parts.flatten().len() > 0 {
        let i = choose|i: int| 0 <= i < parts.len() && (#[trigger] parts[i]).len() > 0;
        assert(block_violates(blocks[i], ctx));
    }
}

/// A script that parses, declares nothing that violates a rule and runs
/// cleanly is accepted, and the text comes back unchanged.
pub proof fn law_identity(text: Seq<char>, root: Seq<StatementModel>)
    requires
        !block_violates(root, ScopeContext::Outermost),
    ensures
        outcome_of(text, Ok(root), None) == OutcomeModel::Accepted(text),
        reasons_of(outcome_of(text, Ok(root), None)).len() == 0,
{
    law_block_diagnosed(root, ScopeContext::Outermost);
}

/// A parse failure is fatal: a text that does not parse yields the parse
/// failure and no diagnostics, whatever the interpreter would say of it.
pub proof fn law_parse_failure_preempts(
    text: Seq<char>,
    failure: ParseFailureModel,
    run: Option<Seq<char>>,
)
    ensures
        outcome_of(text, Err(failure), run) == OutcomeModel::ParseFailure(failure),
{
}

/// Diagnostics silence the interpreter: a script with at least one
/// diagnostic yields all its diagnostics and nothing else, whatever the
/// interpreter would say of it.
pub proof fn law_diagnostics_preempt_sanity(
    text: Seq<char>,
    root: Seq<StatementModel>,
    run: Option<Seq<char>>,
)
    requires
        block_diagnostics(root, ScopeContext::Outermost).len() > 0,
    ensures
        outcome_of(text, Ok(root), run) == OutcomeModel::Violations(
            block_diagnostics(root, ScopeContext::Outermost),
        ),
        reasons_of(outcome_of(text, Ok(root), run)).len() == block_diagnostics(
            root,
            ScopeContext::Outermost,
        ).len(),
{
}

/// The interpreter has the last word: a script without diagnostics that it
/// rejects yields exactly one reason: the interpreter's message.
pub proof fn law_sanity_fallback(text: Seq<char>, root: Seq<StatementModel>, message: Seq<char>)
    requires
        block_diagnostics(root, ScopeContext::Outermost).len() == 0,
    ensures
        outcome_of(text, Ok(root), Some(message)) == OutcomeModel::SanityFailure(message),
        reasons_of(outcome_of(text, Ok(root), Some(message))) == seq![message],
{
}

} // verus!
