use msp430_rt::diagnostic::{Diagnostic, DiagnosticKind, Location};
use msp430_rt::modifier::{parse_entry_modifier, parse_interrupt_modifier, EntryMode};
use msp430_rt::syntax::{plain_ident, text_is, Delimiter, Token};

fn ident(s: &str) -> Token {
    Token::Ident(s.to_string())
}

fn parens(inner: Vec<Token>) -> Token {
    Token::Group(Delimiter::Parenthesis, inner)
}

fn pre_interrupt_clause(init: Token) -> Token {
    parens(vec![ident("pre_interrupt"), Token::Punct('='), init])
}

#[test]
fn entry_without_arguments_is_plain() {
    assert_eq!(parse_entry_modifier(&vec![]), Ok(EntryMode::Plain));
}

#[test]
fn entry_interrupt_enable_flag() {
    assert_eq!(parse_entry_modifier(&vec![ident("interrupt_enable")]), Ok(EntryMode::InterruptEnable));
}

#[test]
fn entry_pre_interrupt_clause() {
    let args = vec![ident("interrupt_enable"), pre_interrupt_clause(ident("init"))];
    assert_eq!(parse_entry_modifier(&args), Ok(EntryMode::PreInterrupt("init".to_string())));
}

#[test]
fn entry_rejects_other_first_word() {
    let err = parse_entry_modifier(&vec![ident("enable")]).unwrap_err();
    assert_eq!(err, Diagnostic { kind: DiagnosticKind::ExpectedInterruptEnable, at: Location::Argument(0) });
    assert_eq!(err.message(), "expected `interrupt_enable` or no arguments at all");
}

#[test]
fn entry_rejects_keyword_and_literal() {
    let err = parse_entry_modifier(&vec![ident("fn")]).unwrap_err();
    assert_eq!(err, Diagnostic { kind: DiagnosticKind::ExpectedIdent, at: Location::Argument(0) });
    assert_eq!(err.message(), "expected identifier");
    let err = parse_entry_modifier(&vec![Token::Literal("1".to_string())]).unwrap_err();
    assert_eq!(err.kind, DiagnosticKind::ExpectedIdent);
}

#[test]
fn entry_clause_must_start_with_pre_interrupt() {
    let args = vec![ident("interrupt_enable"), parens(vec![ident("before"), Token::Punct('='), ident("f")])];
    let err = parse_entry_modifier(&args).unwrap_err();
    assert_eq!(err, Diagnostic { kind: DiagnosticKind::ExpectedPreInterrupt, at: Location::Nested(1, 0) });
    assert_eq!(err.message(), "expected `pre_interrupt`");
}

#[test]
fn entry_clause_missing_equals() {
    let args = vec![ident("interrupt_enable"), parens(vec![ident("pre_interrupt")])];
    let err = parse_entry_modifier(&args).unwrap_err();
    assert_eq!(err, Diagnostic { kind: DiagnosticKind::ExpectedEq, at: Location::EndOfGroup(1) });
    assert_eq!(err.message(), "unexpected end of input, expected `=`");
    let args = vec![ident("interrupt_enable"), parens(vec![ident("pre_interrupt"), Token::Punct(':'), ident("f")])];
    let err = parse_entry_modifier(&args).unwrap_err();
    assert_eq!(err, Diagnostic { kind: DiagnosticKind::ExpectedEq, at: Location::Nested(1, 1) });
    assert_eq!(err.message(), "expected `=`");
}

#[test]
fn entry_clause_missing_or_bad_initialiser() {
    let args = vec![ident("interrupt_enable"), parens(vec![ident("pre_interrupt"), Token::Punct('=')])];
    let err = parse_entry_modifier(&args).unwrap_err();
    assert_eq!(err, Diagnostic { kind: DiagnosticKind::ExpectedIdent, at: Location::EndOfGroup(1) });
    assert_eq!(err.message(), "unexpected end of input, expected identifier");
    let args = vec![ident("interrupt_enable"), pre_interrupt_clause(Token::Literal("5".to_string()))];
    let err = parse_entry_modifier(&args).unwrap_err();
    assert_eq!(err, Diagnostic { kind: DiagnosticKind::ExpectedIdent, at: Location::Nested(1, 2) });
}

#[test]
fn entry_leftover_tokens_are_unexpected() {
    let args = vec![
        ident("interrupt_enable"),
        parens(vec![ident("pre_interrupt"), Token::Punct('='), ident("f"), ident("g")]),
    ];
    let err = parse_entry_modifier(&args).unwrap_err();
    assert_eq!(err, Diagnostic { kind: DiagnosticKind::UnexpectedToken, at: Location::Nested(1, 3) });
    assert_eq!(err.message(), "unexpected token");
    let args = vec![ident("interrupt_enable"), pre_interrupt_clause(ident("f")), Token::Punct(',')];
    let err = parse_entry_modifier(&args).unwrap_err();
    assert_eq!(err, Diagnostic { kind: DiagnosticKind::UnexpectedToken, at: Location::Argument(2) });
    let args = vec![ident("interrupt_enable"), Token::Group(Delimiter::Bracket, vec![])];
    let err = parse_entry_modifier(&args).unwrap_err();
    assert_eq!(err, Diagnostic { kind: DiagnosticKind::UnexpectedToken, at: Location::Argument(1) });
}

#[test]
fn interrupt_without_arguments() {
    assert_eq!(parse_interrupt_modifier(&vec![]), Ok(false));
}

#[test]
fn interrupt_wake_cpu() {
    assert_eq!(parse_interrupt_modifier(&vec![ident("wake_cpu")]), Ok(true));
}

#[test]
fn interrupt_rejects_other_identifier() {
    let err = parse_interrupt_modifier(&vec![ident("sleep")]).unwrap_err();
    assert_eq!(err, Diagnostic { kind: DiagnosticKind::WakeCpuOnly, at: Location::CallSite });
    assert_eq!(err.message(), "this attribute accepts only 'wake_cpu' as an argument");
}

#[test]
fn interrupt_rejects_extra_or_non_identifier_tokens() {
    let err = parse_interrupt_modifier(&vec![ident("wake_cpu"), Token::Punct(',')]).unwrap_err();
    assert_eq!(err, Diagnostic { kind: DiagnosticKind::UnexpectedToken, at: Location::Argument(1) });
    let err = parse_interrupt_modifier(&vec![Token::Literal("\"x\"".to_string())]).unwrap_err();
    assert_eq!(err, Diagnostic { kind: DiagnosticKind::UnexpectedToken, at: Location::Argument(0) });
    let err = parse_interrupt_modifier(&vec![ident("self")]).unwrap_err();
    assert_eq!(err, Diagnostic { kind: DiagnosticKind::UnexpectedToken, at: Location::Argument(0) });
}

#[test]
fn reserved_words_are_not_plain_identifiers() {
    assert!(!plain_ident(&"_".to_string()));
    assert!(!plain_ident(&"fn".to_string()));
    assert!(!plain_ident(&"yield".to_string()));
    assert!(plain_ident(&"init".to_string()));
    assert!(plain_ident(&"r#fn".to_string()));
    assert!(text_is(&"wake_cpu".to_string(), "wake_cpu"));
    assert!(!text_is(&"wake".to_string(), "wake_cpu"));
}
