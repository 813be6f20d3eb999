//! The parser behind the validator, and the lowering of what it returns into
//! the validator's own syntax tree.
//!
//! The parser's tree is opaque to the proofs. `block_tree` names what a block
//! of it holds, as a sequence of statement models, and a handful of trusted
//! accessors each read one part of one statement and say which part of the
//! model it is. Nothing else is assumed of the parser: the lowering is
//! verified against those contracts, and `parse_script` returns a tree whose
//! model is what `parsed` names for the text.

use crate::ast::{block_model, blocks_model, Statement, StatementModel, Target, TargetModel};
use luaparse::ast as lua;
use luaparse::HasSpan;
use vstd::prelude::*;

verus! {

/// A fatal parse failure: the parser's message and where the text broke.
#[derive(Clone, Debug, PartialEq, Eq)]
pub struct ParseFailure {
    /// The parser's own description of what it expected or found.
    pub message: String,
    /// The line of the offending text, counted from 1.
    pub line: u32,
    /// The column of the offending text, counted from 1.
    pub column: u32,
}

/// The mathematical value of a [`ParseFailure`].
pub ghost struct ParseFailureModel {
    pub message: Seq<char>,
    pub line: u32,
    pub column: u32,
}

impl View for ParseFailure {
    type V = ParseFailureModel;

    open spec fn view(&self) -> ParseFailureModel {
        ParseFailureModel { message: self.message@, line: self.line, column: self.column }
    }
}

/// The kind of a statement, without its parts.
#[derive(Clone, Copy, Debug, PartialEq, Eq, Structural)]
pub enum StatementKind {
    FunctionDeclaration,
    LocalDeclaration,
    Assignment,
    If,
    While,
    NumericFor,
    GenericFor,
    Repeat,
    Other,
}

/// The kind of a statement.
pub open spec fn kind_of(stmt: StatementModel) -> StatementKind {
    match stmt {
        StatementModel::FunctionDeclaration { .. } => StatementKind::FunctionDeclaration,
        StatementModel::LocalDeclaration { .. } => StatementKind::LocalDeclaration,
        StatementModel::Assignment { .. } => StatementKind::Assignment,
        StatementModel::If { .. } => StatementKind::If,
        StatementModel::While { .. } => StatementKind::While,
        StatementModel::NumericFor { .. } => StatementKind::NumericFor,
        StatementModel::GenericFor { .. } => StatementKind::GenericFor,
        StatementModel::Repeat { .. } => StatementKind::Repeat,
        StatementModel::Other => StatementKind::Other,
    }
}

/// The names that a statement declares: the parameters of a function
/// declaration, the names of a local declaration, none otherwise.
pub open spec fn declared_names_of(stmt: StatementModel) -> Seq<Seq<char>> {
    match stmt {
        StatementModel::FunctionDeclaration { params, .. } => params,
        StatementModel::LocalDeclaration { names } => names,
        _ => Seq::empty(),
    }
}

/// The targets of an assignment, none for any other statement.
pub open spec fn targets_of(stmt: StatementModel) -> Seq<TargetModel> {
    match stmt {
        StatementModel::Assignment { targets } => targets,
        _ => Seq::empty(),
    }
}

/// The first block that a statement owns: the body of a function or a loop,
/// the primary block of an `if`.
pub open spec fn primary_block_of(stmt: StatementModel) -> Option<Seq<StatementModel>> {
    match stmt {
        StatementModel::FunctionDeclaration { body, .. } => Some(body),
        StatementModel::If { block, .. } => Some(block),
        StatementModel::While { body } => Some(body),
        StatementModel::NumericFor { body } => Some(body),
        StatementModel::GenericFor { body } => Some(body),
        StatementModel::Repeat { body } => Some(body),
        _ => None,
    }
}

/// The `elseif` blocks of an `if`, none for any other statement.
pub open spec fn else_if_blocks_of(stmt: StatementModel) -> Seq<Seq<StatementModel>> {
    match stmt {
        StatementModel::If { elseifs, .. } => elseifs,
        _ => Seq::empty(),
    }
}

/// The `else` block of an `if` that has one.
pub open spec fn else_block_of(stmt: StatementModel) -> Option<Seq<StatementModel>> {
    match stmt {
        StatementModel::If { else_block, .. } => else_block,
        _ => None,
    }
}

/// `luaparse::ast::Block`, carried through as an opaque value.
#[verifier::external_type_specification]
#[verifier::external_body]
pub struct ExBlock<'a>(lua::Block<'a>);

/// What `luaparse::parse` makes of a text: the root block of the script, or
/// the failure that stopped it. Parsing reads nothing but the text.
pub uninterp spec fn parsed(text: Seq<char>) -> Result<Seq<StatementModel>, ParseFailureModel>;

/// What a `luaparse::ast::Block` holds: its statements, in order, each with
/// the names it declares and the blocks it owns.
pub uninterp spec fn block_tree(block: lua::Block<'_>) -> Seq<StatementModel>;

/// Calls `luaparse::parse`.
///
/// Claims that the call is a function of the text: the root block that comes
/// back holds what `parsed` names for this text, and an error is the failure
/// that `parsed` names. The error is handed on as the text that its `Display`
/// writes and the line and column at which its span starts.
#[verifier::external_body]
fn parse_chunk<'a>(text: &'a str) -> (r: Result<lua::Block<'a>, ParseFailure>)
    ensures
        match r {
            Ok(block) => parsed(text@) == Ok::<Seq<StatementModel>, ParseFailureModel>(
                block_tree(block),
            ),
            Err(failure) => parsed(text@) == Err::<Seq<StatementModel>, ParseFailureModel>(
                failure@,
            ),
        },
{
    match luaparse::parse(text) {
        Ok(block) => Ok(block),
        Err(e) => Err(
            ParseFailure {
                message: e.to_string(),
                line: e.span().start.line,
                column: e.span().start.col,
            },
        ),
    }
}

/// Reads the length of `Block::statements`.
///
/// Claims that this is the number of statements that `block_tree` holds.
#[verifier::external_body]
fn statement_count(block: &lua::Block<'_>) -> (n: usize)
    ensures
        n == block_tree(*block).len(),
{
    block.statements.len()
}

/// Tells the variants of `luaparse::ast::Statement` apart for
/// `Block::statements[i]`, and those of `ForStat` for a `for` loop. An empty
/// statement, a `do` block, a call, a `return`, a `break`, a label and a
/// `goto` are `Other`.
///
/// Claims that this is the kind of statement `i` of `block_tree`.
#[verifier::external_body]
fn statement_kind(block: &lua::Block<'_>, i: usize) -> (kind: StatementKind)
    requires
        i < block_tree(*block).len(),
    ensures
        kind == kind_of(block_tree(*block)[i as int]),
{
    match &block.statements[i] {
        lua::Statement::FunctionDeclaration(_) => StatementKind::FunctionDeclaration,
        lua::Statement::LocalDeclaration(_) => StatementKind::LocalDeclaration,
        lua::Statement::Assignment(_) => StatementKind::Assignment,
        lua::Statement::If(_) => StatementKind::If,
        lua::Statement::While(_) => StatementKind::While,
        lua::Statement::For(lua::ForStat::Numerical(_)) => StatementKind::NumericFor,
        lua::Statement::For(lua::ForStat::Generic(_)) => StatementKind::GenericFor,
        lua::Statement::Repeat(_) => StatementKind::Repeat,
        _ => StatementKind::Other,
    }
}

/// Reads the names that `Block::statements[i]` declares, in order, each as
/// the text that `Display` writes for a `Name`, which is its identifier:
/// `FunctionBody::params` of a function declaration, local or not, and
/// `LocalDeclarationStat::names` of a local declaration.
///
/// Claims that these are the parameters or names of statement `i` of
/// `block_tree`, and that any other statement has none.
#[verifier::external_body]
fn declared_names(block: &lua::Block<'_>, i: usize) -> (names: Vec<String>)
    requires
        i < block_tree(*block).len(),
    ensures
        names.deep_view() == declared_names_of(block_tree(*block)[i as int]),
{
    match &block.statements[i] {
        lua::Statement::FunctionDeclaration(
            lua::FunctionDeclarationStat::Local { body, .. }
            | lua::FunctionDeclarationStat::Nonlocal { body, .. },
        ) => body.params.list.pairs.iter().map(|pair| pair.0.to_string()).collect(),
        lua::Statement::LocalDeclaration(local) => local.names.pairs.iter().map(
            |pair| pair.0.to_string(),
        ).collect(),
        _ => Vec::new(),
    }
}

/// Reads `AssignmentStat::vars` of `Block::statements[i]`, in order: a
/// `Var::Name` keeps the text that `Display` writes for its `Name`, a
/// `Var::Field` is `Other`.
///
/// Claims that these are the targets of statement `i` of `block_tree`, and
/// that any other statement has none.
#[verifier::external_body]
fn assigned_targets(block: &lua::Block<'_>, i: usize) -> (targets: Vec<Target>)
    requires
        i < block_tree(*block).len(),
    ensures
        targets.deep_view() == targets_of(block_tree(*block)[i as int]),
{
    match &block.statements[i] {
        lua::Statement::Assignment(assignment) => assignment.vars.pairs.iter().map(
            |pair|
                match &pair.0 {
                    lua::Var::Name(name) => Target::Name(name.to_string()),
                    lua::Var::Field(..) => Target::Other,
                },
        ).collect(),
        _ => Vec::new(),
    }
}

/// Borrows the first block of `Block::statements[i]`: `FunctionBody::block`
/// of a function declaration, `IfStat::block`, and the `block` of a `while`,
/// of either `for` and of a `repeat`.
///
/// Claims that what this block holds is the body or primary block of
/// statement `i` of `block_tree`, and that any other statement has none.
#[verifier::external_body]
fn primary_block<'b, 'a>(block: &'b lua::Block<'a>, i: usize) -> (inner: Option<
    &'b lua::Block<'a>,
>)
    requires
        i < block_tree(*block).len(),
    ensures
        match inner {
            Some(b) => primary_block_of(block_tree(*block)[i as int]) == Some(block_tree(*b)),
            None => primary_block_of(block_tree(*block)[i as int]) is None,
        },
{
    match &block.statements[i] {
        lua::Statement::FunctionDeclaration(
            lua::FunctionDeclarationStat::Local { body, .. }
            | lua::FunctionDeclarationStat::Nonlocal { body, .. },
        ) => Some(&body.block),
        lua::Statement::If(stat) => Some(&stat.block),
        lua::Statement::While(stat) => Some(&stat.block),
        lua::Statement::For(lua::ForStat::Numerical(stat)) => Some(&stat.block),
        lua::Statement::For(lua::ForStat::Generic(stat)) => Some(&stat.block),
        lua::Statement::Repeat(stat) => Some(&stat.block),
        _ => None,
    }
}

/// Borrows `ElseIf::block` of each of `IfStat::elseifs` of
/// `Block::statements[i]`, in order.
///
/// Claims that what these blocks hold are the `elseif` blocks of statement
/// `i` of `block_tree`, and that any other statement has none.
#[verifier::external_body]
fn else_if_blocks<'b, 'a>(block: &'b lua::Block<'a>, i: usize) -> (inner: Vec<
    &'b lua::Block<'a>,
>)
    requires
        i < block_tree(*block).len(),
    ensures
        inner@.len() == else_if_blocks_of(block_tree(*block)[i as int]).len(),
        forall|k: int|
            0 <= k < inner@.len() ==> block_tree(*#[trigger] inner@[k]) == else_if_blocks_of(
                block_tree(*block)[i as int],
            )[k],
{
    match &block.statements[i] {
        lua::Statement::If(stat) => stat.elseifs.iter().map(|branch| &branch.block).collect(),
        _ => Vec::new(),
    }
}

/// Borrows `Else::block` of `IfStat::else_` of `Block::statements[i]`.
///
/// Claims that what this block holds is the `else` block of statement `i` of
/// `block_tree`, and that a statement without one has none.
#[verifier::external_body]
fn else_block<'b, 'a>(block: &'b lua::Block<'a>, i: usize) -> (inner: Option<&'b lua::Block<'a>>)
    requires
        i < block_tree(*block).len(),
    ensures
        match inner {
            Some(b) => else_block_of(block_tree(*block)[i as int]) == Some(block_tree(*b)),
            None => else_block_of(block_tree(*block)[i as int]) is None,
        },
{
    match &block.statements[i] {
        lua::Statement::If(stat) => stat.else_.as_ref().map(|branch| &branch.block),
        _ => None,
    }
}

/// Lowers the first block of the statement at `i`, or an empty block if it
/// owns none.
fn lower_primary(block: &lua::Block<'_>, i: usize) -> (body: Vec<Statement>)
    requires
        i < block_tree(*block).len(),
    ensures
        primary_block_of(block_tree(*block)[i as int]) == Some(block_model(body@))
            || (primary_block_of(block_tree(*block)[i as int]) is None && body@.len() == 0),
    decreases block_tree(*block)[i as int], 0nat,
{
    match primary_block(block, i) {
        Some(inner) => lower_block(inner),
        None => Vec::new(),
    }
}

/// Lowers the statement at `i` of a block of the parser's tree.
fn lower_statement(block: &lua::Block<'_>, i: usize) -> (stmt: Statement)
    requires
        i < block_tree(*block).len(),
    ensures
        stmt@ == block_tree(*block)[i as int],
    decreases block_tree(*block)[i as int], 1nat,
{
    let ghost tree = block_tree(*block)[i as int];
    match statement_kind(block, i) {
        StatementKind::FunctionDeclaration => {
            let params = declared_names(block, i);
            let body = lower_primary(block, i);
            Statement::FunctionDeclaration { params, body }
        },
        StatementKind::LocalDeclaration => Statement::LocalDeclaration {
            names: declared_names(block, i),
        },
        StatementKind::Assignment => Statement::Assignment { targets: assigned_targets(block, i) },
        StatementKind::If => {
            let primary = lower_primary(block, i);
            let branches = else_if_blocks(block, i);
            let mut elseifs: Vec<Vec<Statement>> = Vec::new();
            let mut k: usize = 0;
            while k < branches.len()
                invariant
                    k <= branches.len(),
                    elseifs@.len() == k,
                    i < block_tree(*block).len(),
                    tree == block_tree(*block)[i as int],
                    tree is If,
                    branches@.len() == else_if_blocks_of(tree).len(),
                    forall|j: int|
                        0 <= j < branches@.len() ==> block_tree(*#[trigger] branches@[j])
                            == else_if_blocks_of(tree)[j],
                    forall|j: int|
                        0 <= j < k ==> block_model((#[trigger] elseifs@[j])@) == else_if_blocks_of(
                            tree,
                        )[j],
                decreases branches.len() - k,
            {
                proof {
                    assert(block_tree(*branches@[k as int]) == else_if_blocks_of(tree)[k as int]);
                    assert(decreases_to!(tree => else_if_blocks_of(tree)));
                    let branches_tree = else_if_blocks_of(tree);
                    assert(decreases_to!(branches_tree => branches_tree[k as int]));
                }
                let branch = lower_block(branches[k]);
                elseifs.push(branch);
                k = k + 1;
            }
            let else_block = match else_block(block, i) {
                Some(inner) => {
                    proof {
                        assert(tree matches StatementModel::If { else_block: Some(b), .. } && b
                            == block_tree(*inner));
                    }
                    Some(lower_block(inner))
                },
                None => None,
            };
            let stmt = Statement::If { block: primary, elseifs, else_block };
            proof {
                assert(blocks_model(elseifs@) =~= else_if_blocks_of(tree));
            }
            stmt
        },
        StatementKind::While => Statement::While { body: lower_primary(block, i) },
        StatementKind::NumericFor => Statement::NumericFor { body: lower_primary(block, i) },
        StatementKind::GenericFor => Statement::GenericFor { body: lower_primary(block, i) },
        StatementKind::Repeat => Statement::Repeat { body: lower_primary(block, i) },
        StatementKind::Other => Statement::Other,
    }
}

/// Lowers a block of the parser's tree, statement by statement.
fn lower_block(block: &lua::Block<'_>) -> (stmts: Vec<Statement>)
    ensures
        block_model(stmts@) == block_tree(*block),
    decreases block_tree(*block), 2nat,
{
    let ghost tree = block_tree(*block);
    let count = statement_count(block);
    let mut stmts: Vec<Statement> = Vec::new();
    let mut i: usize = 0;
    while i < count
        invariant
            i <= count,
            count == tree.len(),
            tree == block_tree(*block),
            stmts@.len() == i,
            forall|k: int| 0 <= k < i ==> (#[trigger] stmts@[k])@ == tree[k],
        decreases count - i,
    {
        let stmt = lower_statement(block, i);
        stmts.push(stmt);
        i = i + 1;
    }
    assert(block_model(stmts@) =~= tree);
    stmts
}

/// Parses a script into its root block.
///
/// The result is what the parser makes of `text`: the lowered root block, or
/// the parser's failure.
pub fn parse_script(text: &str) -> (r: Result<Vec<Statement>, ParseFailure>)
    ensures
        match r {
            Ok(root) => parsed(text@) == Ok::<Seq<StatementModel>, ParseFailureModel>(
                block_model(root@),
            ),
            Err(failure) => parsed(text@) == Err::<Seq<StatementModel>, ParseFailureModel>(
                failure@,
            ),
        },
{
    match parse_chunk(text) {
        Ok(block) => Ok(lower_block(&block)),
        Err(failure) => Err(failure),
    }
}

} // verus!
