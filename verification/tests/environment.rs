//! Environment lookup, code-execution dispatch, and the citation-formatter
//! command description.

use tetra::markup::pandoc_cite;
use tetra::utility::{code, env_var_name, CodeAction};
use tetra::value::{Error, Value};

fn text(s: &str) -> Value {
    Value::Text(s.to_string())
}

#[test]
fn env_returns_the_found_value() {
    let r = tetra::utility::env(&[text("BIBLIOGRAPHY")], Some("/refs.bib".to_string())).unwrap();
    match r {
        Value::Text(s) => assert_eq!(s, "/refs.bib"),
        _ => panic!("expected text"),
    }
}

#[test]
fn env_missing_variable_fails() {
    let r = tetra::utility::env(&[text("BIBLIOGRAPHY")], None);
    assert_eq!(r.unwrap_err(), Error::MissingEnvVar);
}

#[test]
fn env_wrong_type_fails() {
    let r = tetra::utility::env(&[Value::Usize(1)], Some("x".to_string()));
    assert_eq!(r.unwrap_err(), Error::InvalidArgType);
}

#[test]
fn env_no_args_fails() {
    assert_eq!(tetra::utility::env(&[], None).unwrap_err(), Error::InvalidArgCount);
}

#[test]
fn env_var_name_extracts_the_name() {
    assert_eq!(env_var_name(&[text("HOME")]).unwrap(), "HOME");
    assert_eq!(env_var_name(&[]).unwrap_err(), Error::InvalidArgCount);
    assert_eq!(env_var_name(&[Value::Bool(true)]).unwrap_err(), Error::InvalidArgType);
}

#[test]
fn code_diagram_describes_a_dot_run() {
    for tag in ["graphviz", "dot"] {
        let r = code(&[text(tag), text("digraph { a -> b }")]).unwrap();
        match r {
            CodeAction::Run(cmd) => {
                assert_eq!(cmd.program, "dot");
                assert_eq!(cmd.args, vec!["-Tsvg"]);
                assert_eq!(cmd.stdin, "digraph { a -> b }");
            },
            _ => panic!("expected an external run"),
        }
    }
}

#[test]
fn code_stub_tags_return_empty_text() {
    for tag in ["r", "sh"] {
        let r = code(&[text(tag), text("1 + 1")]).unwrap();
        match r {
            CodeAction::Output(Value::Text(s)) => assert_eq!(s, ""),
            _ => panic!("expected empty text output"),
        }
    }
}

#[test]
fn code_unknown_language_fails_without_a_run() {
    let r = code(&[text("cobol"), text("body")]);
    assert_eq!(r.unwrap_err(), Error::UnsupportedLanguage);
}

#[test]
fn code_wrong_arg_count_fails() {
    assert_eq!(code(&[text("sh")]).unwrap_err(), Error::InvalidArgCount);
    assert_eq!(
        code(&[text("sh"), text("a"), text("b")]).unwrap_err(),
        Error::InvalidArgCount
    );
}

#[test]
fn code_wrong_arg_type_fails() {
    assert_eq!(
        code(&[Value::Usize(3), text("body")]).unwrap_err(),
        Error::InvalidArgType
    );
    assert_eq!(
        code(&[text("sh"), Value::Bool(false)]).unwrap_err(),
        Error::InvalidArgType
    );
}

#[test]
fn pandoc_cite_missing_bibliography_is_a_config_error() {
    let r = pandoc_cite("smith2020\n\n", None);
    assert_eq!(r.unwrap_err(), Error::MissingEnvVar);
}

#[test]
fn pandoc_cite_describes_the_formatter_run() {
    let cmd = pandoc_cite("smith2020\n\n", Some("refs.bib".to_string())).unwrap();
    assert_eq!(cmd.program, "pandoc");
    assert_eq!(cmd.stdin, "smith2020\n\n");
    assert_eq!(cmd.args, vec!["--citeproc", "-t", "plain", "refs.bib"]);
}
