//! Diagnostics and the collector that keeps them in discovery order.

use vstd::prelude::*;
use vstd::string::StringExecFns;

verus! {

/// The rule that a declared name broke.
#[derive(Clone, Copy, Debug, PartialEq, Eq, Structural)]
pub enum DiagnosticKind {
    /// The name is one that the sandbox binds.
    ReservedIdentifier,
    /// The name is declared at the root of the script.
    GlobalVariable,
}

/// One violation: the rule and the offending name.
#[derive(Clone, Debug, PartialEq, Eq)]
pub struct Diagnostic {
    pub kind: DiagnosticKind,
    pub name: String,
}

/// The mathematical value of a [`Diagnostic`].
pub ghost struct DiagnosticModel {
    pub kind: DiagnosticKind,
    pub name: Seq<char>,
}

impl DiagnosticModel {
    /// The reserved-identifier violation for `name`.
    pub open spec fn reserved(name: Seq<char>) -> DiagnosticModel {
        DiagnosticModel { kind: DiagnosticKind::ReservedIdentifier, name }
    }

    /// The global-variable violation for `name`.
    pub open spec fn global(name: Seq<char>) -> DiagnosticModel {
        DiagnosticModel { kind: DiagnosticKind::GlobalVariable, name }
    }
}

impl View for Diagnostic {
    type V = DiagnosticModel;

    open spec fn view(&self) -> DiagnosticModel {
        DiagnosticModel { kind: self.kind, name: self.name@ }
    }
}

impl DeepView for Diagnostic {
    type V = DiagnosticModel;

    open spec fn deep_view(&self) -> DiagnosticModel {
        self@
    }
}

/// The text that reports a diagnostic.
pub open spec fn message_text(d: DiagnosticModel) -> Seq<char> {
    match d.kind {
        DiagnosticKind::ReservedIdentifier => "aerospike reserved identifier: `"@ + d.name
            + "`. consider renaming your variable"@,
        DiagnosticKind::GlobalVariable => "global variables are not allowed: `"@ + d.name + "`"@,
    }
}

/// The texts that report a sequence of diagnostics, in the same order.
pub open spec fn message_texts(ds: Seq<DiagnosticModel>) -> Seq<Seq<char>> {
    Seq::new(ds.len(), |i: int| message_text(ds[i]))
}

impl Diagnostic {
    /// A reserved-identifier violation for `name`.
    pub fn reserved(name: &str) -> (d: Diagnostic)
        ensures
            d@ == DiagnosticModel::reserved(name@),
    {
        Diagnostic { kind: DiagnosticKind::ReservedIdentifier, name: String::from_str(name) }
    }

    /// A global-variable violation for `name`.
    pub fn global(name: &str) -> (d: Diagnostic)
        ensures
            d@ == DiagnosticModel::global(name@),
    {
        Diagnostic { kind: DiagnosticKind::GlobalVariable, name: String::from_str(name) }
    }

    /// The message that names the rule and the offending name.
    pub fn message(&self) -> (text: String)
        ensures
            text@ == message_text(self@),
    {
        match self.kind {
            DiagnosticKind::ReservedIdentifier => {
                let mut text = String::from_str("aerospike reserved identifier: `");
                text.append(self.name.as_str());
                text.append("`. consider renaming your variable");
                text
            },
            DiagnosticKind::GlobalVariable => {
                let mut text = String::from_str("global variables are not allowed: `");
                text.append(self.name.as_str());
                text.append("`");
                text
            },
        }
    }
}

/// The messages of a list of diagnostics, in the same order.
pub fn messages(diagnostics: &Vec<Diagnostic>) -> (texts: Vec<String>)
    ensures
        texts.deep_view() == message_texts(diagnostics.deep_view()),
{
    let mut texts: Vec<String> = Vec::new();
    let mut i: usize = 0;
    while i < diagnostics.len()
        invariant
            i <= diagnostics.len(),
            texts@.len() == i,
            forall|k: int| 0 <= k < i ==> texts@[k]@ == message_text(diagnostics@[k]@),
        decreases diagnostics.len() - i,
    {
        texts.push(diagnostics[i].message());
        i = i + 1;
    }
    assert(texts.deep_view() =~= message_texts(diagnostics.deep_view()));
    texts
}

/// Accumulates the diagnostics of one validation run, in discovery order.
pub struct Collector {
    diagnostics: Vec<Diagnostic>,
}

impl View for Collector {
    type V = Seq<DiagnosticModel>;

    closed spec fn view(&self) -> Seq<DiagnosticModel> {
        self.diagnostics.deep_view()
    }
}

impl Collector {
    /// A collector that holds nothing.
    pub fn new() -> (c: Collector)
        ensures
            c@ == Seq::<DiagnosticModel>::empty(),
    {
        let c = Collector { diagnostics: Vec::new() };
        assert(c@ =~= Seq::<DiagnosticModel>::empty());
        c
    }

    /// Adds `d` behind everything collected so far.
    pub fn report(&mut self, d: Diagnostic)
        ensures
            final(self)@ == old(self)@.push(d@),
    {
        self.diagnostics.push(d);
        assert(self@ =~= old(self)@.push(d@));
    }

    /// Whether nothing was collected.
    pub fn is_empty(&self) -> (empty: bool)
        ensures
            empty == (self@.len() == 0),
    {
        self.diagnostics.len() == 0
    }

    /// How many diagnostics were collected.
    pub fn len(&self) -> (n: usize)
        ensures
            n == self@.len(),
    {
        self.diagnostics.len()
    }

    /// What was collected, in discovery order.
    pub fn into_diagnostics(self) -> (ds: Vec<Diagnostic>)
        ensures
            ds.deep_view() == self@,
    {
        self.diagnostics
    }
}

} // verus!
