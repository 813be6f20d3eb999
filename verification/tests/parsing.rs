use udf_validator::ast::{Statement, Target};
use udf_validator::parser::{parse_script, ParseFailure};

fn names(list: &[&str]) -> Vec<String> {
    list.iter().map(|n| n.to_string()).collect()
}

#[test]
fn an_empty_text_is_an_empty_block() {
    assert_eq!(parse_script(""), Ok(vec![]));
    assert_eq!(parse_script("  -- nothing here\n"), Ok(vec![]));
}

#[test]
fn local_declarations_keep_their_names() {
    assert_eq!(
        parse_script("local a, b = 1, 2 local c"),
        Ok(vec![
            Statement::LocalDeclaration { names: names(&["a", "b"]) },
            Statement::LocalDeclaration { names: names(&["c"]) },
        ])
    );
}

#[test]
fn assignments_tell_names_from_fields() {
    assert_eq!(
        parse_script("a.b, c, d[1], e.f.g = 1, 2, 3, 4"),
        Ok(vec![Statement::Assignment {
            targets: vec![
                Target::Other,
                Target::Name("c".to_string()),
                Target::Other,
                Target::Other,
            ],
        }])
    );
}

#[test]
fn function_declarations_keep_parameters_and_body() {
    assert_eq!(
        parse_script(
            "local function f(a, b) local c end function g.h(x, ...) end function k() end"
        ),
        Ok(vec![
            Statement::FunctionDeclaration {
                params: names(&["a", "b"]),
                body: vec![Statement::LocalDeclaration { names: names(&["c"]) }],
            },
            Statement::FunctionDeclaration { params: names(&["x"]), body: vec![] },
            Statement::FunctionDeclaration { params: vec![], body: vec![] },
        ])
    );
}

#[test]
fn an_if_keeps_its_branches_in_source_order() {
    assert_eq!(
        parse_script("if a then x = 1 elseif b then y = 2 elseif c then else local z end"),
        Ok(vec![Statement::If {
            block: vec![Statement::Assignment { targets: vec![Target::Name("x".to_string())] }],
            elseifs: vec![
                vec![Statement::Assignment { targets: vec![Target::Name("y".to_string())] }],
                vec![],
            ],
            else_block: Some(vec![Statement::LocalDeclaration { names: names(&["z"]) }]),
        }])
    );
    assert_eq!(
        parse_script("if a then end"),
        Ok(vec![Statement::If { block: vec![], elseifs: vec![], else_block: None }])
    );
}

#[test]
fn loops_keep_their_bodies() {
    assert_eq!(
        parse_script(
            "while a do local w end for i = 1, 2 do local n end \
             for k, v in pairs(t) do local g end repeat local r until a"
        ),
        Ok(vec![
            Statement::While { body: vec![Statement::LocalDeclaration { names: names(&["w"]) }] },
            Statement::NumericFor {
                body: vec![Statement::LocalDeclaration { names: names(&["n"]) }],
            },
            Statement::GenericFor {
                body: vec![Statement::LocalDeclaration { names: names(&["g"]) }],
            },
            Statement::Repeat { body: vec![Statement::LocalDeclaration { names: names(&["r"]) }] },
        ])
    );
}

#[test]
fn everything_else_is_other() {
    assert_eq!(
        parse_script("; do local x = 1 end f() ::l:: goto l return 1"),
        Ok(vec![
            Statement::Other,
            Statement::Other,
            Statement::Other,
            Statement::Other,
            Statement::Other,
            Statement::Other,
        ])
    );
}

#[test]
fn nested_blocks_are_lowered_at_every_depth() {
    assert_eq!(
        parse_script("while a do if b then function f(p) repeat q = 1 until c end end end"),
        Ok(vec![Statement::While {
            body: vec![Statement::If {
                block: vec![Statement::FunctionDeclaration {
                    params: names(&["p"]),
                    body: vec![Statement::Repeat {
                        body: vec![Statement::Assignment {
                            targets: vec![Target::Name("q".to_string())],
                        }],
                    }],
                }],
                elseifs: vec![],
                else_block: None,
            }],
        }])
    );
}

#[test]
fn a_missing_name_is_a_parse_failure() {
    assert_eq!(
        parse_script("local = 1"),
        Err(ParseFailure {
            message: "expected an identifier, found `=`".to_string(),
            line: 1,
            column: 7,
        })
    );
}

#[test]
fn a_failure_reports_the_line_of_the_offending_text() {
    assert_eq!(
        parse_script("local a = 1\nlocal b = 2\n  break\n"),
        Err(ParseFailure {
            message: "the break statement is not enclosed in any loop".to_string(),
            line: 3,
            column: 3,
        })
    );
}

#[test]
fn a_lexer_failure_is_a_parse_failure() {
    assert_eq!(
        parse_script("local \""),
        Err(ParseFailure { message: "an unclosed string literal".to_string(), line: 1, column: 7 })
    );
}

#[test]
fn malformed_texts_are_parse_failures() {
    for text in [
        "x = 0x",
        "x = 1e",
        "x = 1e99999999999999999999",
        "x = '\\q'",
        "x = '\\300'",
        "x = '\\u{110000000}'",
        "x = 'abc",
        "x = 'a\nb'",
        "x = @",
        "x = [[ unclosed",
        "x = [==[ unclosed ]]",
        "f(",
        "x = {",
        "x = {1, 2",
        "if a then",
        "while a do",
        "for i = 1 do end",
        "repeat until",
        "function f( end",
        "local function (a) end",
        "(f)",
        "f() = 1",
        "x, f() = 1, 2",
        "end",
        "return return",
        "x = 1 +",
        "żółw = 1",
        "x = 1 \u{0} y = 2",
    ] {
        assert!(parse_script(text).is_err(), "{text:?} is not a script");
    }
}

#[test]
fn unusual_but_well_formed_texts_parse() {
    for text in [
        "--[[ a long\ncomment ]] x = 1",
        "--[==[ another ]==]",
        "x = [[long\nstring]]",
        "x = 0x1p4 y = .5 z = 3. w = 0xA.8",
        "x = 'a\\z   b\\x41\\65\\u{48}\\n'",
        "x = 99999999999999999999999999",
        "x = a // b ~ c >> 1 << 2 & 3 | 4",
        "::top:: goto top",
        "f{1, 2; x = 3, [4] = 5}",
        "f'str' g\"str\" h[[str]] a.b:c(1)",
        "\r\nx = 1\r\n",
    ] {
        assert!(parse_script(text).is_ok(), "{text:?} is a script");
    }
}
