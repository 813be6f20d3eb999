//! The scope-aware validator: one depth-first walk over the syntax tree that
//! applies both rules to every declared name and collects every violation.

use crate::ast::{block_model, blocks_model, Statement, StatementModel, Target, TargetModel};
use crate::diagnostic::{Collector, Diagnostic, DiagnosticModel};
use crate::registry::{is_reserved, reserved_names};
use vstd::prelude::*;

verus! {

/// Where a statement stands relative to the root block of a script.
#[derive(Clone, Copy, Debug, PartialEq, Eq, Structural)]
pub enum ScopeContext {
    /// A direct child of the root block.
    Outermost,
    /// Inside a function body, a branch or a loop body, at any depth.
    Nested,
}

impl ScopeContext {
    /// The context of the blocks that a statement in this context owns.
    pub open spec fn demoted(self) -> ScopeContext {
        match self {
            ScopeContext::Outermost => ScopeContext::Nested,
            ScopeContext::Nested => ScopeContext::Nested,
        }
    }

    /// Whether a declaration in this context is exempt from the
    /// global-variable rule.
    pub open spec fn allows_variables(self) -> bool {
        self == ScopeContext::Nested
    }

    /// The context of the blocks that a statement in this context owns.
    pub fn demote(self) -> (inner: ScopeContext)
        ensures
            inner == self.demoted(),
            inner == ScopeContext::Nested,
    {
        ScopeContext::Nested
    }

    /// Whether a declaration in this context is exempt from the
    /// global-variable rule.
    pub fn allow_vars(self) -> (allowed: bool)
        ensures
            allowed == self.allows_variables(),
    {
        match self {
            ScopeContext::Outermost => false,
            ScopeContext::Nested => true,
        }
    }
}

/// The diagnostics of one declared name: the reserved-name violation if the
/// name is reserved, then the global-variable violation unless variables are
/// allowed.
pub open spec fn name_diagnostics(name: Seq<char>, allow_vars: bool) -> Seq<DiagnosticModel> {
    let reserved = if reserved_names().contains(name) {
        seq![DiagnosticModel::reserved(name)]
    } else {
        Seq::empty()
    };
    let global = if allow_vars {
        Seq::empty()
    } else {
        seq![DiagnosticModel::global(name)]
    };
    reserved + global
}

/// The diagnostics of a list of declared names, name by name.
pub open spec fn names_diagnostics(names: Seq<Seq<char>>, allow_vars: bool) -> Seq<
    DiagnosticModel,
> {
    Seq::new(names.len(), |i: int| name_diagnostics(names[i], allow_vars)).flatten()
}

/// The diagnostics of one assignment target: those of its name if it is a
/// bare identifier, none otherwise.
pub open spec fn target_diagnostics(target: TargetModel, allow_vars: bool) -> Seq<
    DiagnosticModel,
> {
    match target {
        TargetModel::Name(name) => name_diagnostics(name, allow_vars),
        TargetModel::Other => Seq::empty(),
    }
}

/// The diagnostics of the targets of an assignment, target by target.
pub open spec fn targets_diagnostics(targets: Seq<TargetModel>, allow_vars: bool) -> Seq<
    DiagnosticModel,
> {
    Seq::new(targets.len(), |i: int| target_diagnostics(targets[i], allow_vars)).flatten()
}

/// The diagnostics of one statement in context `ctx`: its own violations,
/// then those of the blocks it owns, in source order.
pub open spec fn statement_diagnostics(stmt: StatementModel, ctx: ScopeContext) -> Seq<
    DiagnosticModel,
>
    decreases stmt, 0nat,
{
    match stmt {
        StatementModel::FunctionDeclaration { params, body } => names_diagnostics(params, true)
            + block_diagnostics(body, ctx.demoted()),
        StatementModel::LocalDeclaration { names } => names_diagnostics(
            names,
            ctx.allows_variables(),
        ),
        StatementModel::Assignment { targets } => targets_diagnostics(
            targets,
            ctx.allows_variables(),
        ),
        StatementModel::If { block, elseifs, else_block } => block_diagnostics(
            block,
            ctx.demoted(),
        ) + blocks_diagnostics(elseifs, ctx.demoted()) + (match else_block {
            Some(b) => block_diagnostics(b, ctx.demoted()),
            None => Seq::empty(),
        }),
        StatementModel::While { body } => block_diagnostics(body, ctx.demoted()),
        StatementModel::NumericFor { body } => block_diagnostics(body, ctx.demoted()),
        StatementModel::GenericFor { body } => block_diagnostics(body, ctx.demoted()),
        StatementModel::Repeat { body } => block_diagnostics(body, ctx.demoted()),
        StatementModel::Other => Seq::empty(),
    }
}

/// The diagnostics of each statement of a block, statement by statement.
pub open spec fn block_parts(block: Seq<StatementModel>, ctx: ScopeContext) -> Seq<
    Seq<DiagnosticModel>,
>
    decreases block, 1nat,
{
    Seq::new(
        block.len(),
        |i: int|
            if 0 <= i < block.len() {
                statement_diagnostics(block[i], ctx)
            } else {
                Seq::empty()
            },
    )
}

/// The diagnostics of a block whose statements stand in context `ctx`:
/// those of each statement, in order.
pub open spec fn block_diagnostics(block: Seq<StatementModel>, ctx: ScopeContext) -> Seq<
    DiagnosticModel,
>
    decreases block, 2nat,
{
    block_parts(block, ctx).flatten()
}

/// The diagnostics of each block of a list, block by block.
pub open spec fn blocks_parts(blocks: Seq<Seq<StatementModel>>, ctx: ScopeContext) -> Seq<
    Seq<DiagnosticModel>,
>
    decreases blocks, 3nat,
{
    Seq::new(
        blocks.len(),
        |i: int|
            if 0 <= i < blocks.len() {
                block_diagnostics(blocks[i], ctx)
            } else {
                Seq::empty()
            },
    )
}

/// The diagnostics of a list of blocks, block by block.
pub open spec fn blocks_diagnostics(blocks: Seq<Seq<StatementModel>>, ctx: ScopeContext) -> Seq<
    DiagnosticModel,
>
    decreases blocks, 4nat,
{
    blocks_parts(blocks, ctx).flatten()
}

/// One more name adds its diagnostics behind those of the names before it.
pub proof fn lemma_names_diagnostics_push(names: Seq<Seq<char>>, name: Seq<char>, allow_vars: bool)
    ensures
        names_diagnostics(names.push(name), allow_vars) == names_diagnostics(names, allow_vars)
            + name_diagnostics(name, allow_vars),
{
    let longer = names.push(name);
    let parts = Seq::new(names.len(), |i: int| name_diagnostics(names[i], allow_vars));
    let longer_parts = Seq::new(longer.len(), |i: int| name_diagnostics(longer[i], allow_vars));
    assert(longer_parts =~= parts.push(name_diagnostics(name, allow_vars)));
    parts.lemma_flatten_push(name_diagnostics(name, allow_vars));
}

/// One more target adds its diagnostics behind those of the targets before it.
pub proof fn lemma_targets_diagnostics_push(
    targets: Seq<TargetModel>,
    target: TargetModel,
    allow_vars: bool,
)
    ensures
        targets_diagnostics(targets.push(target), allow_vars) == targets_diagnostics(
            targets,
            allow_vars,
        ) + target_diagnostics(target, allow_vars),
{
    let longer = targets.push(target);
    let parts = Seq::new(targets.len(), |i: int| target_diagnostics(targets[i], allow_vars));
    let longer_parts = Seq::new(longer.len(), |i: int| target_diagnostics(longer[i], allow_vars));
    assert(longer_parts =~= parts.push(target_diagnostics(target, allow_vars)));
    parts.lemma_flatten_push(target_diagnostics(target, allow_vars));
}

/// One more statement adds its diagnostics behind those of the statements
/// before it.
pub proof fn lemma_block_diagnostics_push(
    block: Seq<StatementModel>,
    stmt: StatementModel,
    ctx: ScopeContext,
)
    ensures
        block_diagnostics(block.push(stmt), ctx) == block_diagnostics(block, ctx)
            + statement_diagnostics(stmt, ctx),
{
    assert(block_parts(block.push(stmt), ctx) =~= block_parts(block, ctx).push(
        statement_diagnostics(stmt, ctx),
    ));
    block_parts(block, ctx).lemma_flatten_push(statement_diagnostics(stmt, ctx));
}

/// One more block adds its diagnostics behind those of the blocks before it.
pub proof fn lemma_blocks_diagnostics_push(
    blocks: Seq<Seq<StatementModel>>,
    block: Seq<StatementModel>,
    ctx: ScopeContext,
)
    ensures
        blocks_diagnostics(blocks.push(block), ctx) == blocks_diagnostics(blocks, ctx)
            + block_diagnostics(block, ctx),
{
    assert(blocks_parts(blocks.push(block), ctx) =~= blocks_parts(blocks, ctx).push(
        block_diagnostics(block, ctx),
    ));
    blocks_parts(blocks, ctx).lemma_flatten_push(block_diagnostics(block, ctx));
}

/// Checks one declared name: reports it if it is reserved, then reports it as
/// a global variable unless variables are allowed.
pub fn validate_name(name: &str, errors: &mut Collector, allow_vars: bool)
    ensures
        final(errors)@ == old(errors)@ + name_diagnostics(name@, allow_vars),
{
    if is_reserved(name) {
        errors.report(Diagnostic::reserved(name));
    }
    if !allow_vars {
        errors.report(Diagnostic::global(name));
    }
    assert(errors@ =~= old(errors)@ + name_diagnostics(name@, allow_vars));
}

/// Checks every name of a list, in order.
pub fn validate_names(names: &Vec<String>, errors: &mut Collector, allow_vars: bool)
    ensures
        final(errors)@ == old(errors)@ + names_diagnostics(names.deep_view(), allow_vars),
{
    let ghost all = names.deep_view();
    let mut i: usize = 0;
    assert(all.take(0) =~= Seq::<Seq<char>>::empty());
    assert(names_diagnostics(Seq::<Seq<char>>::empty(), allow_vars) =~= Seq::<
        DiagnosticModel,
    >::empty());
    while i < names.len()
        invariant
            i <= names.len(),
            all == names.deep_view(),
            errors@ == old(errors)@ + names_diagnostics(all.take(i as int), allow_vars),
        decreases names.len() - i,
    {
        validate_name(names[i].as_str(), errors, allow_vars);
        proof {
            lemma_names_diagnostics_push(all.take(i as int), all[i as int], allow_vars);
            assert(all.take(i + 1) =~= all.take(i as int).push(all[i as int]));
            assert(errors@ =~= old(errors)@ + names_diagnostics(all.take(i + 1), allow_vars));
        }
        i = i + 1;
    }
    assert(all.take(i as int) =~= all);
}

/// Checks every target of an assignment that is a bare identifier, in order.
pub fn validate_targets(targets: &Vec<Target>, errors: &mut Collector, allow_vars: bool)
    ensures
        final(errors)@ == old(errors)@ + targets_diagnostics(targets.deep_view(), allow_vars),
{
    let ghost all = targets.deep_view();
    let mut i: usize = 0;
    assert(all.take(0) =~= Seq::<TargetModel>::empty());
    assert(targets_diagnostics(Seq::<TargetModel>::empty(), allow_vars) =~= Seq::<
        DiagnosticModel,
    >::empty());
    while i < targets.len()
        invariant
            i <= targets.len(),
            all == targets.deep_view(),
            errors@ == old(errors)@ + targets_diagnostics(all.take(i as int), allow_vars),
        decreases targets.len() - i,
    {
        match &targets[i] {
            Target::Name(name) => {
                validate_name(name.as_str(), errors, allow_vars);
            },
            Target::Other => {},
        }
        proof {
            lemma_targets_diagnostics_push(all.take(i as int), all[i as int], allow_vars);
            assert(all.take(i + 1) =~= all.take(i as int).push(all[i as int]));
            assert(errors@ =~= old(errors)@ + targets_diagnostics(all.take(i + 1), allow_vars));
        }
        i = i + 1;
    }
    assert(all.take(i as int) =~= all);
}

/// Checks a function: every parameter against the reserved names only, then
/// the body, whose statements stand in context `ctx`.
pub fn validate_func(
    params: &Vec<String>,
    body: &Vec<Statement>,
    errors: &mut Collector,
    ctx: ScopeContext,
)
    ensures
        final(errors)@ == old(errors)@ + names_diagnostics(params.deep_view(), true)
            + block_diagnostics(block_model(body@), ctx),
    decreases body, 1nat,
{
    validate_names(params, errors, true);
    loop_statements(body, errors, ctx);
}

/// Walks the statements of a block, in order, each in context `ctx`.
pub fn loop_statements(stmts: &Vec<Statement>, errors: &mut Collector, ctx: ScopeContext)
    ensures
        final(errors)@ == old(errors)@ + block_diagnostics(block_model(stmts@), ctx),
    decreases stmts, 0nat,
{
    let ghost tree = block_model(stmts@);
    let mut i: usize = 0;
    assert(tree.take(0) =~= Seq::<StatementModel>::empty());
    assert(block_parts(Seq::<StatementModel>::empty(), ctx) =~= Seq::<
        Seq<DiagnosticModel>,
    >::empty());
    while i < stmts.len()
        invariant
            i <= stmts.len(),
            tree == block_model(stmts@),
            errors@ == old(errors)@ + block_diagnostics(tree.take(i as int), ctx),
        decreases stmts.len() - i,
    {
        recurse(&stmts[i], errors, ctx);
        proof {
            lemma_block_diagnostics_push(tree.take(i as int), tree[i as int], ctx);
            assert(tree.take(i + 1) =~= tree.take(i as int).push(tree[i as int]));
            assert(errors@ =~= old(errors)@ + block_diagnostics(tree.take(i + 1), ctx));
        }
        i = i + 1;
    }
    assert(tree.take(i as int) =~= tree);
}

/// Walks the blocks of a list, in order, the statements of each in context
/// `ctx`.
fn loop_blocks(blocks: &Vec<Vec<Statement>>, errors: &mut Collector, ctx: ScopeContext)
    ensures
        final(errors)@ == old(errors)@ + blocks_diagnostics(blocks_model(blocks@), ctx),
    decreases blocks, 1nat,
{
    let ghost trees = blocks_model(blocks@);
    let mut i: usize = 0;
    assert(trees.take(0) =~= Seq::<Seq<StatementModel>>::empty());
    assert(blocks_parts(Seq::<Seq<StatementModel>>::empty(), ctx) =~= Seq::<
        Seq<DiagnosticModel>,
    >::empty());
    while i < blocks.len()
        invariant
            i <= blocks.len(),
            trees == blocks_model(blocks@),
            errors@ == old(errors)@ + blocks_diagnostics(trees.take(i as int), ctx),
        decreases blocks.len() - i,
    {
        loop_statements(&blocks[i], errors, ctx);
        proof {
            lemma_blocks_diagnostics_push(trees.take(i as int), trees[i as int], ctx);
            assert(trees.take(i + 1) =~= trees.take(i as int).push(trees[i as int]));
            assert(errors@ =~= old(errors)@ + blocks_diagnostics(trees.take(i + 1), ctx));
        }
        i = i + 1;
    }
    assert(trees.take(i as int) =~= trees);
}

/// Checks one statement that stands in context `ctx`, then walks the blocks
/// it owns, in source order. Every owned block is walked in the demoted
/// context, whatever was found before.
pub fn recurse(stmt: &Statement, errors: &mut Collector, ctx: ScopeContext)
    ensures
        final(errors)@ == old(errors)@ + statement_diagnostics(stmt@, ctx),
    decreases stmt, 0nat,
{
    let inner = ctx.demote();
    match stmt {
        Statement::FunctionDeclaration { params, body } => {
            validate_func(params, body, errors, inner);
        },
        Statement::LocalDeclaration { names } => {
            validate_names(names, errors, ctx.allow_vars());
        },
        Statement::Assignment { targets } => {
            validate_targets(targets, errors, ctx.allow_vars());
        },
        Statement::If { block, elseifs, else_block } => {
            loop_statements(block, errors, inner);
            loop_blocks(elseifs, errors, inner);
            match else_block {
                Some(b) => {
                    loop_statements(b, errors, inner);
                },
                None => {},
            }
        },
        Statement::While { body } => {
            loop_statements(body, errors, inner);
        },
        Statement::NumericFor { body } => {
            loop_statements(body, errors, inner);
        },
        Statement::GenericFor { body } => {
            loop_statements(body, errors, inner);
        },
        Statement::Repeat { body } => {
            loop_statements(body, errors, inner);
        },
        Statement::Other => {},
    }
    assert(errors@ =~= old(errors)@ + statement_diagnostics(stmt@, ctx));
}

/// Validates one statement on its own, as if it stood in context `ctx`:
/// returns what it yields, in discovery order.
pub fn validate_statement(stmt: &Statement, ctx: ScopeContext) -> (diagnostics: Vec<Diagnostic>)
    ensures
        diagnostics.deep_view() == statement_diagnostics(stmt@, ctx),
{
    let mut errors = Collector::new();
    recurse(stmt, &mut errors, ctx);
    errors.into_diagnostics()
}

/// Validates a whole script, given as its root block: walks it with the
/// outermost context and returns every violation, in discovery order.
pub fn validate_block(root: &Vec<Statement>) -> (diagnostics: Vec<Diagnostic>)
    ensures
        diagnostics.deep_view() == block_diagnostics(block_model(root@), ScopeContext::Outermost),
{
    let mut errors = Collector::new();
    loop_statements(root, &mut errors, ScopeContext::Outermost);
    errors.into_diagnostics()
}

} // verus!
