//! Compile-time diagnostics: what went wrong, where, and the message shown.

use vstd::prelude::*;

verus! {

/// Where a diagnostic points.
#[derive(PartialEq, Eq, Structural, Clone, Copy, Debug)]
pub enum Location {
    /// The attribute invocation as a whole.
    CallSite,
    /// The whole function signature.
    Signature,
    /// The function's name.
    FnName,
    /// The identifier of the body statement with this index.
    Statement(usize),
    /// The argument token with this index.
    Argument(usize),
    /// Token `j` inside the group that is argument token `i`.
    Nested(usize, usize),
    /// The end of the argument list.
    EndOfArguments,
    /// The end of the group that is argument token `i`.
    EndOfGroup(usize),
}

/// The kinds of failure.
#[derive(PartialEq, Eq, Debug)]
pub enum DiagnosticKind {
    /// Signature mismatch for `#[entry]`.
    EntrySignature,
    /// Signature mismatch for `#[entry(interrupt_enable)]`.
    InterruptEnableSignature,
    /// Signature mismatch for `#[entry(interrupt_enable(pre_interrupt = init))]`.
    PreInterruptSignature { init: String },
    /// Signature mismatch for `#[interrupt]`.
    InterruptSignature,
    /// Signature mismatch for `#[pre_init]`.
    PreInitSignature,
    /// `#[pre_init]` was given arguments.
    PreInitArguments,
    /// `#[interrupt]` was given an identifier other than `wake_cpu`.
    WakeCpuOnly,
    /// A handler other than the default one without device support.
    OverrideDisabled,
    /// Two hoisted statics share a name.
    DuplicateStatic { name: String },
    /// The first word of `#[entry(..)]` is not `interrupt_enable`.
    ExpectedInterruptEnable,
    /// The clause of `interrupt_enable(..)` does not start with `pre_interrupt`.
    ExpectedPreInterrupt,
    /// A plain identifier was expected.
    ExpectedIdent,
    /// `=` was expected.
    ExpectedEq,
    /// A token is left over after a complete argument list.
    UnexpectedToken,
}

/// A diagnostic: its kind and where it points.
#[derive(PartialEq, Eq, Debug)]
pub struct Diagnostic {
    pub kind: DiagnosticKind,
    pub at: Location,
}

/// Whether a location is the end of the input being parsed.
pub open spec fn is_end(at: Location) -> bool {
    at is EndOfArguments || at is EndOfGroup
}

/// The message of a diagnostic.
pub open spec fn message_spec(d: Diagnostic) -> Seq<char> {
    match d.kind {
        DiagnosticKind::EntrySignature =>
            "`#[entry]` function must have signature `[unsafe] fn([<ident> : CriticalSection]) -> !`"@,
        DiagnosticKind::InterruptEnableSignature =>
            "`#[entry(interrupt_enable)]` function must have signature `[unsafe] fn() -> !`"@,
        DiagnosticKind::PreInterruptSignature { init } =>
            "`#[entry(interrupt_enable(pre_interrupt = "@ + init@
                + "))]` function must have signature `[unsafe] fn([<ident> : <Type>]) -> !`, where <Type> is the return value of "@
                + init@,
        DiagnosticKind::InterruptSignature =>
            "`#[interrupt]` handlers must have signature `[unsafe] fn([<name>: CriticalSection]) [-> !]`"@,
        DiagnosticKind::PreInitSignature => "`#[pre_init]` function must have signature `unsafe fn()`"@,
        DiagnosticKind::PreInitArguments => "this attribute accepts no arguments"@,
        DiagnosticKind::WakeCpuOnly => "this attribute accepts only 'wake_cpu' as an argument"@,
        DiagnosticKind::OverrideDisabled =>
            "only the DefaultHandler can be overridden when the `device` feature is disabled"@,
        DiagnosticKind::DuplicateStatic { name } =>
            "the name `"@ + name@ + "` is defined multiple times"@,
        DiagnosticKind::ExpectedInterruptEnable =>
            "expected `interrupt_enable` or no arguments at all"@,
        DiagnosticKind::ExpectedPreInterrupt => "expected `pre_interrupt`"@,
        DiagnosticKind::ExpectedIdent => if is_end(d.at) {
            "unexpected end of input, expected identifier"@
        } else {
            "expected identifier"@
        },
        DiagnosticKind::ExpectedEq => if is_end(d.at) {
            "unexpected end of input, expected `=`"@
        } else {
            "expected `=`"@
        },
        DiagnosticKind::UnexpectedToken => "unexpected token"@,
    }
}

impl Diagnostic {
    /// The message shown to the user.
    pub fn message(&self) -> (r: String)
        ensures
            r@ == message_spec(*self),
    {
        let end = match self.at {
            Location::EndOfArguments | Location::EndOfGroup(_) => true,
            _ => false,
        };
        match &self.kind {
            DiagnosticKind::EntrySignature => String::from_str(
                "`#[entry]` function must have signature `[unsafe] fn([<ident> : CriticalSection]) -> !`",
            ),
            DiagnosticKind::InterruptEnableSignature => String::from_str(
                "`#[entry(interrupt_enable)]` function must have signature `[unsafe] fn() -> !`",
            ),
            DiagnosticKind::PreInterruptSignature { init } => {
                let mut r = String::from_str("`#[entry(interrupt_enable(pre_interrupt = ");
                r.append(init.as_str());
                r.append(
                    "))]` function must have signature `[unsafe] fn([<ident> : <Type>]) -> !`, where <Type> is the return value of ",
                );
                r.append(init.as_str());
                r
            },
            DiagnosticKind::InterruptSignature => String::from_str(
                "`#[interrupt]` handlers must have signature `[unsafe] fn([<name>: CriticalSection]) [-> !]`",
            ),
            DiagnosticKind::PreInitSignature => String::from_str(
                "`#[pre_init]` function must have signature `unsafe fn()`",
            ),
            DiagnosticKind::PreInitArguments => String::from_str("this attribute accepts no arguments"),
            DiagnosticKind::WakeCpuOnly => String::from_str(
                "this attribute accepts only 'wake_cpu' as an argument",
            ),
            DiagnosticKind::OverrideDisabled => String::from_str(
                "only the DefaultHandler can be overridden when the `device` feature is disabled",
            ),
            DiagnosticKind::DuplicateStatic { name } => {
                let mut r = String::from_str("the name `");
                r.append(name.as_str());
                r.append("` is defined multiple times");
                r
            },
            DiagnosticKind::ExpectedInterruptEnable => String::from_str(
                "expected `interrupt_enable` or no arguments at all",
            ),
            DiagnosticKind::ExpectedPreInterrupt => String::from_str("expected `pre_interrupt`"),
            DiagnosticKind::ExpectedIdent => if end {
                String::from_str("unexpected end of input, expected identifier")
            } else {
                String::from_str("expected identifier")
            },
            DiagnosticKind::ExpectedEq => if end {
                String::from_str("unexpected end of input, expected `=`")
            } else {
                String::from_str("expected `=`")
            },
            DiagnosticKind::UnexpectedToken => String::from_str("unexpected token"),
        }
    }
}

} // verus!
