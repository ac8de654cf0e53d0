//! The argument grammar of `#[entry(..)]` and `#[interrupt(..)]`.
//!
//! ```text
//! entry-args     := <empty> | "interrupt_enable" [ "(" "pre_interrupt" "=" IDENT ")" ]
//! interrupt-args := <empty> | "wake_cpu"
//! ```

use crate::diagnostic::{Diagnostic, DiagnosticKind, Location};
use crate::syntax::{is_plain_ident, plain_ident, text_is, Delimiter, Token};
use vstd::prelude::*;

verus! {

/// How the entry point is to be reached.
#[derive(PartialEq, Eq, Debug)]
pub enum EntryMode {
    /// `#[entry]`: interrupts stay disabled.
    Plain,
    /// `#[entry(interrupt_enable)]`: interrupts are enabled before entry.
    InterruptEnable,
    /// `#[entry(interrupt_enable(pre_interrupt = init))]`: `init` runs first,
    /// then interrupts are enabled and its result is handed to the entry point.
    PreInterrupt(String),
}

/// A diagnostic of the given kind at the given place.
pub open spec fn diag(kind: DiagnosticKind, at: Location) -> Diagnostic {
    Diagnostic { kind, at }
}

/// Token `i` is an identifier that can stand as a plain identifier.
pub open spec fn ident_at(ts: Seq<Token>, i: int) -> bool {
    &&& 0 <= i < ts.len()
    &&& ts[i] matches Token::Ident(n)
    &&& is_plain_ident(n@)
}

/// The text of an identifier token.
pub open spec fn ident_text(t: Token) -> Seq<char> {
    match t {
        Token::Ident(n) => n@,
        _ => Seq::empty(),
    }
}

/// The text of an identifier token, as the `String` it holds.
pub open spec fn ident_string(t: Token) -> String
    recommends
        t is Ident,
{
    t->Ident_0
}

/// The parenthesised clause `pre_interrupt = init` of `interrupt_enable`,
/// which is argument token 1 with contents `c`; `n` is the number of
/// argument tokens.
pub open spec fn clause_spec(c: Seq<Token>, n: int) -> Result<EntryMode, Diagnostic> {
    if c.len() == 0 {
        Err(diag(DiagnosticKind::ExpectedIdent, Location::EndOfGroup(1)))
    } else if !ident_at(c, 0) {
        Err(diag(DiagnosticKind::ExpectedIdent, Location::Nested(1, 0)))
    } else if ident_text(c[0]) != "pre_interrupt"@ {
        Err(diag(DiagnosticKind::ExpectedPreInterrupt, Location::Nested(1, 0)))
    } else if c.len() < 2 {
        Err(diag(DiagnosticKind::ExpectedEq, Location::EndOfGroup(1)))
    } else if c[1] != Token::Punct('=') {
        Err(diag(DiagnosticKind::ExpectedEq, Location::Nested(1, 1)))
    } else if c.len() < 3 {
        Err(diag(DiagnosticKind::ExpectedIdent, Location::EndOfGroup(1)))
    } else if !ident_at(c, 2) {
        Err(diag(DiagnosticKind::ExpectedIdent, Location::Nested(1, 2)))
    } else if c.len() > 3 {
        Err(diag(DiagnosticKind::UnexpectedToken, Location::Nested(1, 3)))
    } else if n > 2 {
        Err(diag(DiagnosticKind::UnexpectedToken, Location::Argument(2)))
    } else {
        Ok(EntryMode::PreInterrupt(ident_string(c[2])))
    }
}

/// The meaning of the argument list of `#[entry(..)]`.
pub open spec fn entry_modifier_spec(ts: Seq<Token>) -> Result<EntryMode, Diagnostic> {
    if ts.len() == 0 {
        Ok(EntryMode::Plain)
    } else if !ident_at(ts, 0) {
        Err(diag(DiagnosticKind::ExpectedIdent, Location::Argument(0)))
    } else if ident_text(ts[0]) != "interrupt_enable"@ {
        Err(diag(DiagnosticKind::ExpectedInterruptEnable, Location::Argument(0)))
    } else if ts.len() > 1 && ts[1] is Group && ts[1]->Group_0 == Delimiter::Parenthesis {
        clause_spec(ts[1]->Group_1@, ts.len() as int)
    } else if ts.len() > 1 {
        Err(diag(DiagnosticKind::UnexpectedToken, Location::Argument(1)))
    } else {
        Ok(EntryMode::InterruptEnable)
    }
}

/// The meaning of the argument list of `#[interrupt(..)]`: whether the CPU
/// is to be woken on return.
pub open spec fn interrupt_modifier_spec(ts: Seq<Token>) -> Result<bool, Diagnostic> {
    if ts.len() == 0 {
        Ok(false)
    } else if !ident_at(ts, 0) {
        Err(diag(DiagnosticKind::UnexpectedToken, Location::Argument(0)))
    } else if ts.len() > 1 {
        Err(diag(DiagnosticKind::UnexpectedToken, Location::Argument(1)))
    } else if ident_text(ts[0]) == "wake_cpu"@ {
        Ok(true)
    } else {
        Err(diag(DiagnosticKind::WakeCpuOnly, Location::CallSite))
    }
}

/// Whether token `i` is a plain identifier.
fn plain_ident_at(ts: &Vec<Token>, i: usize) -> (r: bool)
    ensures
        r == ident_at(ts@, i as int),
{
    if i < ts.len() {
        match &ts[i] {
            Token::Ident(n) => plain_ident(n),
            _ => false,
        }
    } else {
        false
    }
}

/// Whether token `i` is an identifier reading `w`.
fn ident_is(ts: &Vec<Token>, i: usize, w: &str) -> (r: bool)
    requires
        i < ts@.len(),
        ts@[i as int] is Ident,
    ensures
        r == (ident_text(ts@[i as int]) == w@),
{
    match &ts[i] {
        Token::Ident(n) => text_is(n, w),
        _ => false,
    }
}

/// Parses the clause inside the group that follows `interrupt_enable`.
fn parse_clause(c: &Vec<Token>, n: usize) -> (r: Result<EntryMode, Diagnostic>)
    ensures
        r == clause_spec(c@, n as int),
{
    if c.len() == 0 {
        return Err(Diagnostic { kind: DiagnosticKind::ExpectedIdent, at: Location::EndOfGroup(1) });
    }
    if !plain_ident_at(c, 0) {
        return Err(Diagnostic { kind: DiagnosticKind::ExpectedIdent, at: Location::Nested(1, 0) });
    }
    if !ident_is(c, 0, "pre_interrupt") {
        return Err(
            Diagnostic { kind: DiagnosticKind::ExpectedPreInterrupt, at: Location::Nested(1, 0) },
        );
    }
    if c.len() < 2 {
        return Err(Diagnostic { kind: DiagnosticKind::ExpectedEq, at: Location::EndOfGroup(1) });
    }
    let eq = match &c[1] {
        Token::Punct(ch) => *ch == '=',
        _ => false,
    };
    if !eq {
        return Err(Diagnostic { kind: DiagnosticKind::ExpectedEq, at: Location::Nested(1, 1) });
    }
    if c.len() < 3 {
        return Err(Diagnostic { kind: DiagnosticKind::ExpectedIdent, at: Location::EndOfGroup(1) });
    }
    if !plain_ident_at(c, 2) {
        return Err(Diagnostic { kind: DiagnosticKind::ExpectedIdent, at: Location::Nested(1, 2) });
    }
    if c.len() > 3 {
        return Err(Diagnostic { kind: DiagnosticKind::UnexpectedToken, at: Location::Nested(1, 3) });
    }
    if n > 2 {
        return Err(Diagnostic { kind: DiagnosticKind::UnexpectedToken, at: Location::Argument(2) });
    }
    match &c[2] {
        Token::Ident(init) => Ok(EntryMode::PreInterrupt(init.clone())),
        _ => Err(Diagnostic { kind: DiagnosticKind::ExpectedIdent, at: Location::Nested(1, 2) }),
    }
}

/// Parses the argument list of `#[entry(..)]`.
pub fn parse_entry_modifier(ts: &Vec<Token>) -> (r: Result<EntryMode, Diagnostic>)
    ensures
        r == entry_modifier_spec(ts@),
{
    if ts.len() == 0 {
        return Ok(EntryMode::Plain);
    }
    if !plain_ident_at(ts, 0) {
        return Err(Diagnostic { kind: DiagnosticKind::ExpectedIdent, at: Location::Argument(0) });
    }
    if !ident_is(ts, 0, "interrupt_enable") {
        return Err(
            Diagnostic { kind: DiagnosticKind::ExpectedInterruptEnable, at: Location::Argument(0) },
        );
    }
    if ts.len() > 1 {
        match &ts[1] {
            Token::Group(Delimiter::Parenthesis, inner) => parse_clause(inner, ts.len()),
            _ => Err(Diagnostic { kind: DiagnosticKind::UnexpectedToken, at: Location::Argument(1) }),
        }
    } else {
        Ok(EntryMode::InterruptEnable)
    }
}

/// Parses the argument list of `#[interrupt(..)]`; `Ok(true)` for `wake_cpu`.
pub fn parse_interrupt_modifier(ts: &Vec<Token>) -> (r: Result<bool, Diagnostic>)
    ensures
        r == interrupt_modifier_spec(ts@),
{
    if ts.len() == 0 {
        Ok(false)
    } else if !plain_ident_at(ts, 0) {
        Err(Diagnostic { kind: DiagnosticKind::UnexpectedToken, at: Location::Argument(0) })
    } else if ts.len() > 1 {
        Err(Diagnostic { kind: DiagnosticKind::UnexpectedToken, at: Location::Argument(1) })
    } else if ident_is(ts, 0, "wake_cpu") {
        Ok(true)
    } else {
        Err(Diagnostic { kind: DiagnosticKind::WakeCpuOnly, at: Location::CallSite })
    }
}

/// Token `i` is the plain identifier `w`.
pub open spec fn word_at(ts: Seq<Token>, i: int, w: Seq<char>) -> bool {
    ident_at(ts, i) && ident_text(ts[i]) == w
}

/// Token `t` is a parenthesised group holding `pre_interrupt = init` with a
/// plain identifier `init`.
pub open spec fn is_pre_interrupt_clause(t: Token) -> bool {
    &&& t is Group
    &&& t->Group_0 == Delimiter::Parenthesis
    &&& t->Group_1@.len() == 3
    &&& word_at(t->Group_1@, 0, "pre_interrupt"@)
    &&& t->Group_1@[1] == Token::Punct('=')
    &&& ident_at(t->Group_1@, 2)
}

/// The entry arguments are accepted exactly in three forms: none at all
/// (plain entry), `interrupt_enable` alone, and `interrupt_enable` followed
/// by `(pre_interrupt = init)`, which selects `init` as the initialiser.
pub proof fn lemma_entry_grammar(ts: Seq<Token>)
    ensures
        entry_modifier_spec(ts) == Ok::<EntryMode, Diagnostic>(EntryMode::Plain) <==> ts.len() == 0,
        entry_modifier_spec(ts) == Ok::<EntryMode, Diagnostic>(EntryMode::InterruptEnable) <==> ts.len()
            == 1 && word_at(ts, 0, "interrupt_enable"@),
        entry_modifier_spec(ts) matches Ok(EntryMode::PreInterrupt(_)) <==> ts.len() == 2 && word_at(
            ts,
            0,
            "interrupt_enable"@,
        ) && is_pre_interrupt_clause(ts[1]),
        entry_modifier_spec(ts) matches Ok(EntryMode::PreInterrupt(init)) ==> init
            == ts[1]->Group_1@[2]->Ident_0,
{
}

/// The interrupt arguments are accepted exactly when there are none (no
/// wake-up) or when they are `wake_cpu` alone (wake-up).
pub proof fn lemma_interrupt_grammar(ts: Seq<Token>)
    ensures
        interrupt_modifier_spec(ts) == Ok::<bool, Diagnostic>(false) <==> ts.len() == 0,
        interrupt_modifier_spec(ts) == Ok::<bool, Diagnostic>(true) <==> ts.len() == 1 && word_at(
            ts,
            0,
            "wake_cpu"@,
        ),
{
}

} // verus!
