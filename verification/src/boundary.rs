//! The boundary: parse, validate, and only then ask the interpreter.

use crate::ast::{block_model, Statement, StatementModel};
use crate::diagnostic::{message_texts, messages, Collector, Diagnostic, DiagnosticModel};
use crate::parser::{parse_script, parsed, ParseFailure, ParseFailureModel};
use crate::validator::{block_diagnostics, loop_statements, validate_block, ScopeContext};
use vstd::prelude::*;
use vstd::string::StringExecFns;

verus! {

/// How the validation of one script ended.
#[derive(Clone, Debug, PartialEq, Eq)]
pub enum Outcome {
    /// The script passed: the text, unchanged.
    Accepted(String),
    /// The text is not a well-formed script. Nothing was validated.
    ParseFailure(ParseFailure),
    /// The validator found violations: all of them, in discovery order.
    Violations(Vec<Diagnostic>),
    /// The validator found nothing, but the interpreter rejected the script.
    SanityFailure(String),
}

/// The mathematical value of an [`Outcome`].
pub ghost enum OutcomeModel {
    Accepted(Seq<char>),
    ParseFailure(ParseFailureModel),
    Violations(Seq<DiagnosticModel>),
    SanityFailure(Seq<char>),
}

impl View for Outcome {
    type V = OutcomeModel;

    open spec fn view(&self) -> OutcomeModel {
        match self {
            Outcome::Accepted(text) => OutcomeModel::Accepted(text@),
            Outcome::ParseFailure(failure) => OutcomeModel::ParseFailure(failure@),
            Outcome::Violations(diagnostics) => OutcomeModel::Violations(diagnostics.deep_view()),
            Outcome::SanityFailure(message) => OutcomeModel::SanityFailure(message@),
        }
    }
}

/// The outcome for `text`, given what the parser made of it and, as `failure`,
/// the message with which the interpreter rejected it, if it did.
///
/// A parse failure comes first, then the validator's diagnostics; the
/// interpreter is heard only where there are none.
pub open spec fn outcome_of(
    text: Seq<char>,
    tree: Result<Seq<StatementModel>, ParseFailureModel>,
    failure: Option<Seq<char>>,
) -> OutcomeModel {
    match tree {
        Err(e) => OutcomeModel::ParseFailure(e),
        Ok(root) => {
            let diagnostics = block_diagnostics(root, ScopeContext::Outermost);
            if diagnostics.len() > 0 {
                OutcomeModel::Violations(diagnostics)
            } else {
                match failure {
                    Some(message) => OutcomeModel::SanityFailure(message),
                    None => OutcomeModel::Accepted(text),
                }
            }
        },
    }
}

/// The reasons that an outcome reports: none if the script was accepted.
pub open spec fn reasons_of(outcome: OutcomeModel) -> Seq<Seq<char>> {
    match outcome {
        OutcomeModel::Accepted(_) => Seq::empty(),
        OutcomeModel::ParseFailure(failure) => seq![failure.message],
        OutcomeModel::Violations(diagnostics) => message_texts(diagnostics),
        OutcomeModel::SanityFailure(message) => seq![message],
    }
}

/// The model of what the parser returned.
pub open spec fn tree_model(tree: Result<Vec<Statement>, ParseFailure>) -> Result<
    Seq<StatementModel>,
    ParseFailureModel,
> {
    match tree {
        Ok(root) => Ok(block_model(root@)),
        Err(failure) => Err(failure@),
    }
}

/// The model of what the interpreter returned.
pub open spec fn failure_model(failure: Option<String>) -> Option<Seq<char>> {
    match failure {
        Some(message) => Some(message@),
        None => None,
    }
}

impl Outcome {
    /// Whether the script passed.
    pub fn is_accepted(&self) -> (accepted: bool)
        ensures
            accepted == (self@ is Accepted),
    {
        match self {
            Outcome::Accepted(_) => true,
            _ => false,
        }
    }

    /// The messages to report, in order: none if the script passed, the
    /// parser's message for a parse failure, one message for each violation,
    /// or the interpreter's message.
    pub fn reasons(&self) -> (texts: Vec<String>)
        ensures
            texts.deep_view() == reasons_of(self@),
    {
        match self {
            Outcome::Accepted(_) => {
                let texts: Vec<String> = Vec::new();
                assert(texts.deep_view() =~= reasons_of(self@));
                texts
            },
            Outcome::ParseFailure(failure) => {
                let mut texts: Vec<String> = Vec::new();
                texts.push(failure.message.clone());
                assert(texts.deep_view() =~= reasons_of(self@));
                texts
            },
            Outcome::Violations(diagnostics) => messages(diagnostics),
            Outcome::SanityFailure(message) => {
                let mut texts: Vec<String> = Vec::new();
                texts.push(message.clone());
                assert(texts.deep_view() =~= reasons_of(self@));
                texts
            },
        }
    }
}

/// Runs `text` in a fresh interpreter: `rlua::Lua::new`, then `Context::load`
/// and `Chunk::exec` inside `Lua::context`. Returns the text that `Display`
/// writes for the error if the run failed, and `None` if it did not.
///
/// Claims nothing of the outcome: the script sees the interpreter's standard
/// libraries, and with them the machine it runs on. The call comes back only
/// if the script ends.
#[verifier::external_body]
fn run_script(text: &str) -> (failure: Option<String>) {
    rlua::Lua::new().context(|lua| lua.load(text).exec()).err().map(|e| e.to_string())
}

/// The outcome that needs no interpreter: the parse failure, or the
/// violations if there are any. `None` where the interpreter has to decide.
pub fn static_outcome(tree: Result<Vec<Statement>, ParseFailure>) -> (outcome: Option<Outcome>)
    ensures
        match tree_model(tree) {
            Err(e) => outcome matches Some(v) && v@ == OutcomeModel::ParseFailure(e),
            Ok(root) => {
                let diagnostics = block_diagnostics(root, ScopeContext::Outermost);
                if diagnostics.len() > 0 {
                    outcome matches Some(v) && v@ == OutcomeModel::Violations(diagnostics)
                } else {
                    outcome is None
                }
            },
        },
{
    match tree {
        Err(failure) => Some(Outcome::ParseFailure(failure)),
        Ok(root) => {
            let mut errors = Collector::new();
            loop_statements(&root, &mut errors, ScopeContext::Outermost);
            if errors.is_empty() {
                None
            } else {
                Some(Outcome::Violations(errors.into_diagnostics()))
            }
        },
    }
}

/// The outcome for a script in which the validator found nothing, given what
/// the interpreter said: its failure, or the text unchanged.
pub fn sanity_outcome(text: &str, failure: Option<String>) -> (outcome: Outcome)
    ensures
        outcome@ == match failure {
            Some(message) => OutcomeModel::SanityFailure(message@),
            None => OutcomeModel::Accepted(text@),
        },
{
    match failure {
        Some(message) => Outcome::SanityFailure(message),
        None => Outcome::Accepted(String::from_str(text)),
    }
}

/// Parses `text` and validates its root block.
///
/// Returns the parser's failure if the text does not parse, and otherwise
/// every violation in the script, in discovery order.
pub fn validate_aerospike(text: &str) -> (r: Result<Vec<Diagnostic>, ParseFailure>)
    ensures
        match parsed(text@) {
            Ok(root) => r matches Ok(diagnostics) && diagnostics.deep_view() == block_diagnostics(
                root,
                ScopeContext::Outermost,
            ),
            Err(e) => r matches Err(failure) && failure@ == e,
        },
{
    match parse_script(text) {
        Ok(root) => Ok(validate_block(&root)),
        Err(failure) => Err(failure),
    }
}

/// Validates one script.
///
/// The text is parsed; a parse failure ends the run. Otherwise the root block
/// is validated, and any violations are the outcome. Only where there are
/// none is the script run, and the interpreter's failure, if any, is the
/// outcome. Otherwise the script is accepted, unchanged.
pub fn validate(text: &str) -> (outcome: Outcome)
    ensures
        exists|failure: Option<Seq<char>>| outcome@ == outcome_of(text@, parsed(text@), failure),
        outcome@ is Accepted || reasons_of(outcome@).len() > 0,
        match parsed(text@) {
            Err(e) => outcome@ == OutcomeModel::ParseFailure(e),
            Ok(root) => {
                let diagnostics = block_diagnostics(root, ScopeContext::Outermost);
                if diagnostics.len() > 0 {
                    outcome@ == OutcomeModel::Violations(diagnostics)
                } else {
                    outcome@ == OutcomeModel::Accepted(text@) || outcome@ is SanityFailure
                }
            },
        },
{
    let tree = parse_script(text);
    assert(tree_model(tree) == parsed(text@));
    match static_outcome(tree) {
        Some(outcome) => {
            assert(outcome@ == outcome_of(text@, parsed(text@), None));
            outcome
        },
        None => {
            let failure = run_script(text);
            let outcome = sanity_outcome(text, failure);
            assert(outcome@ == outcome_of(text@, parsed(text@), failure_model(failure)));
            outcome
        },
    }
}

} // verus!
