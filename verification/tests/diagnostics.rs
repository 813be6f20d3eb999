use udf_validator::diagnostic::{messages, Collector, Diagnostic, DiagnosticKind};

#[test]
fn reserved_message_names_the_identifier() {
    let d = Diagnostic::reserved("aerospike");
    assert_eq!(d.kind, DiagnosticKind::ReservedIdentifier);
    assert_eq!(d.name, "aerospike");
    assert_eq!(
        d.message(),
        "aerospike reserved identifier: `aerospike`. consider renaming your variable"
    );
}

#[test]
fn global_message_names_the_identifier() {
    let d = Diagnostic::global("x");
    assert_eq!(d.kind, DiagnosticKind::GlobalVariable);
    assert_eq!(d.name, "x");
    assert_eq!(d.message(), "global variables are not allowed: `x`");
}

#[test]
fn message_of_an_empty_name() {
    assert_eq!(Diagnostic::global("").message(), "global variables are not allowed: ``");
    assert_eq!(
        Diagnostic::reserved("").message(),
        "aerospike reserved identifier: ``. consider renaming your variable"
    );
}

#[test]
fn messages_keep_the_order() {
    let ds = vec![Diagnostic::global("b"), Diagnostic::reserved("map"), Diagnostic::global("a")];
    assert_eq!(
        messages(&ds),
        vec![
            "global variables are not allowed: `b`".to_string(),
            "aerospike reserved identifier: `map`. consider renaming your variable".to_string(),
            "global variables are not allowed: `a`".to_string(),
        ]
    );
    assert_eq!(messages(&Vec::new()), Vec::<String>::new());
}

#[test]
fn a_new_collector_is_empty() {
    let c = Collector::new();
    assert!(c.is_empty());
    assert_eq!(c.len(), 0);
    assert_eq!(c.into_diagnostics(), Vec::<Diagnostic>::new());
}

#[test]
fn a_collector_keeps_discovery_order_and_duplicates() {
    let mut c = Collector::new();
    c.report(Diagnostic::global("x"));
    assert!(!c.is_empty());
    c.report(Diagnostic::reserved("map"));
    c.report(Diagnostic::global("x"));
    assert_eq!(c.len(), 3);
    assert_eq!(
        c.into_diagnostics(),
        vec![Diagnostic::global("x"), Diagnostic::reserved("map"), Diagnostic::global("x")]
    );
}
