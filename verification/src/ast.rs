//! The syntax tree that the validator walks.
//!
//! A script is a root block: an ordered sequence of statements. Only what the
//! rules read is kept: the names a statement declares and the blocks it owns.

use vstd::prelude::*;

verus! {

/// The left-hand side of one assignment.
#[derive(Clone, Debug, PartialEq, Eq)]
pub enum Target {
    /// A bare identifier, as in `x = 1`.
    Name(String),
    /// A member or index expression, as in `t.x = 1` or `t[k] = 1`.
    Other,
}

/// One statement of a block.
#[derive(Debug, PartialEq, Eq)]
pub enum Statement {
    /// A function declaration: its parameter names and its body.
    FunctionDeclaration { params: Vec<String>, body: Vec<Statement> },
    /// A `local` declaration of one or more names.
    LocalDeclaration { names: Vec<String> },
    /// An assignment to one or more targets.
    Assignment { targets: Vec<Target> },
    /// An `if` with its primary block, its `elseif` blocks in source order and
    /// its `else` block, if it has one.
    If { block: Vec<Statement>, elseifs: Vec<Vec<Statement>>, else_block: Option<Vec<Statement>> },
    /// A `while` loop.
    While { body: Vec<Statement> },
    /// A numeric `for` loop.
    NumericFor { body: Vec<Statement> },
    /// A generic `for` loop.
    GenericFor { body: Vec<Statement> },
    /// A `repeat ... until` loop.
    Repeat { body: Vec<Statement> },
    /// Any other statement. The validator does not look inside it.
    Other,
}

/// The mathematical value of a [`Target`].
pub ghost enum TargetModel {
    Name(Seq<char>),
    Other,
}

/// The mathematical value of a [`Statement`]: the same tree over sequences.
pub ghost enum StatementModel {
    FunctionDeclaration { params: Seq<Seq<char>>, body: Seq<StatementModel> },
    LocalDeclaration { names: Seq<Seq<char>> },
    Assignment { targets: Seq<TargetModel> },
    If {
        block: Seq<StatementModel>,
        elseifs: Seq<Seq<StatementModel>>,
        else_block: Option<Seq<StatementModel>>,
    },
    While { body: Seq<StatementModel> },
    NumericFor { body: Seq<StatementModel> },
    GenericFor { body: Seq<StatementModel> },
    Repeat { body: Seq<StatementModel> },
    Other,
}

impl View for Target {
    type V = TargetModel;

    open spec fn view(&self) -> TargetModel {
        match self {
            Target::Name(name) => TargetModel::Name(name@),
            Target::Other => TargetModel::Other,
        }
    }
}

impl DeepView for Target {
    type V = TargetModel;

    open spec fn deep_view(&self) -> TargetModel {
        self@
    }
}

/// The model of a statement.
pub open spec fn statement_model(stmt: Statement) -> StatementModel
    decreases stmt, 0nat,
{
    match stmt {
        Statement::FunctionDeclaration { params, body } => StatementModel::FunctionDeclaration {
            params: params.deep_view(),
            body: block_model(body@),
        },
        Statement::LocalDeclaration { names } => StatementModel::LocalDeclaration {
            names: names.deep_view(),
        },
        Statement::Assignment { targets } => StatementModel::Assignment {
            targets: targets.deep_view(),
        },
        Statement::If { block, elseifs, else_block } => StatementModel::If {
            block: block_model(block@),
            elseifs: blocks_model(elseifs@),
            else_block: match else_block {
                Some(b) => Some(block_model(b@)),
                None => None,
            },
        },
        Statement::While { body } => StatementModel::While { body: block_model(body@) },
        Statement::NumericFor { body } => StatementModel::NumericFor { body: block_model(body@) },
        Statement::GenericFor { body } => StatementModel::GenericFor { body: block_model(body@) },
        Statement::Repeat { body } => StatementModel::Repeat { body: block_model(body@) },
        Statement::Other => StatementModel::Other,
    }
}

/// The model of a block: the models of its statements, in order.
pub open spec fn block_model(stmts: Seq<Statement>) -> Seq<StatementModel>
    decreases stmts, 1nat,
{
    Seq::new(
        stmts.len(),
        |i: int|
            if 0 <= i < stmts.len() {
                statement_model(stmts[i])
            } else {
                StatementModel::Other
            },
    )
}

/// The models of a list of blocks, in order.
pub open spec fn blocks_model(blocks: Seq<Vec<Statement>>) -> Seq<Seq<StatementModel>>
    decreases blocks, 2nat,
{
    Seq::new(
        blocks.len(),
        |i: int|
            if 0 <= i < blocks.len() {
                block_model(blocks[i]@)
            } else {
                Seq::empty()
            },
    )
}

impl View for Statement {
    type V = StatementModel;

    open spec fn view(&self) -> StatementModel {
        statement_model(*self)
    }
}

} // verus!
