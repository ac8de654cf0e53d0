//! Properties that relate the transformations over all inputs.

use crate::diagnostic::{Diagnostic, DiagnosticKind, Location};
use crate::expand::{
    default_handler, entry_outcome, entry_signature_error, entry_symbol, interrupt_outcome,
    EntryPlan, Instruction, InterruptPlan, Setup, SR_CPUOFF, SR_OSCOFF, SR_SCG0, SR_SCG1,
};
use crate::hoist::{hoist_spec, lemma_leading_statics_shape, is_mut_static, leading_statics, redeclared, static_name};
use crate::modifier::{diag, entry_modifier_spec, interrupt_modifier_spec, EntryMode};
use crate::signature::{entry_shape, interrupt_shape};
use crate::syntax::{FnItem, Stmt, Token};
use vstd::prelude::*;

verus! {

/// No `static mut` of the leading run redeclares an earlier one.
pub open spec fn no_redeclaration<T>(s: Seq<Stmt<T>>) -> bool {
    forall|i: int| 0 <= i < leading_statics(s) ==> !#[trigger] redeclared(s, i)
}

/// A function that meets the entry point contract of the mode that its
/// arguments select, and declares no hoisted name twice, is accepted, and the
/// wrapper is exported as `main`.
pub proof fn lemma_entry_contract_accepted<T>(args: Seq<Token>, item: FnItem<T>, mode: EntryMode, name: String, guard: String)
    requires
        entry_modifier_spec(args) == Ok::<EntryMode, Diagnostic>(mode),
        entry_shape(item, mode),
        no_redeclaration(item.stmts@),
    ensures
        entry_outcome(args, item, name, guard) is Ok,
        entry_outcome(args, item, name, guard)->Ok_0.export_name == entry_symbol(),
{
}

/// A function that breaks the entry point contract of the selected mode is
/// refused with that mode's signature diagnostic, and nothing is emitted.
pub proof fn lemma_entry_contract_violated<T>(args: Seq<Token>, item: FnItem<T>, mode: EntryMode, name: String, guard: String)
    requires
        entry_modifier_spec(args) == Ok::<EntryMode, Diagnostic>(mode),
        !entry_shape(item, mode),
    ensures
        entry_outcome(args, item, name, guard) == Err::<EntryPlan<T>, Diagnostic>(
            diag(entry_signature_error(mode), Location::Signature),
        ),
{
}

/// Two `static mut` items of the leading run that share a name make hoisting
/// fail with a duplicate-name diagnostic naming it, at a statement no later
/// than the second of them, provided every earlier redeclaration is of that
/// same name.
pub proof fn lemma_duplicate_static_rejected<T>(s: Seq<Stmt<T>>, i: int, j: int)
    requires
        0 <= i < j < leading_statics(s),
        is_mut_static(s[i]),
        is_mut_static(s[j]),
        static_name(s[i]) == static_name(s[j]),
        forall|m: int| 0 <= m < j && #[trigger] redeclared(s, m) ==> static_name(s[m]) == static_name(s[j]),
    ensures
        hoist_spec(s) is Err,
        hoist_spec(s)->Err_0.kind is DuplicateStatic,
        hoist_spec(s)->Err_0.kind->DuplicateStatic_name@ == static_name(s[j]),
        hoist_spec(s)->Err_0.at is Statement,
        hoist_spec(s)->Err_0.at->Statement_0 <= j,
{
    lemma_leading_statics_shape(s);
    assert(is_mut_static(s[i]));
    assert(redeclared(s, j));
    let first = first_redeclaration(s, j);
    assert(crate::hoist::first_redeclared(s, first));
}

/// The earliest redeclaration at or before statement `j`, which is one.
proof fn first_redeclaration<T>(s: Seq<Stmt<T>>, j: int) -> (m: int)
    requires
        0 <= j < leading_statics(s),
        redeclared(s, j),
    ensures
        0 <= m <= j,
        crate::hoist::first_redeclared(s, m),
    decreases j,
{
    if exists|m: int| 0 <= m < j && #[trigger] redeclared(s, m) {
        let m = choose|m: int| 0 <= m < j && #[trigger] redeclared(s, m);
        first_redeclaration(s, m)
    } else {
        j
    }
}

/// Entry points and interrupt handlers that are otherwise accepted are
/// refused when two hoisted statics share a name.
pub proof fn lemma_duplicate_static_fails_transformation<T>(args: Seq<Token>, item: FnItem<T>, device: bool, name: String, guard: String, i: int, j: int)
    requires
        0 <= i < j < leading_statics(item.stmts@),
        is_mut_static(item.stmts@[i]),
        is_mut_static(item.stmts@[j]),
        static_name(item.stmts@[i]) == static_name(item.stmts@[j]),
    ensures
        entry_modifier_spec(args) matches Ok(mode) && entry_shape(item, mode) ==> entry_outcome(
            args,
            item,
            name,
            guard,
        ) == Err::<EntryPlan<T>, Diagnostic>(hoist_spec(item.stmts@)->Err_0),
        interrupt_modifier_spec(args) is Ok && (device || item.sig.ident@ == default_handler())
            && interrupt_shape(item) ==> interrupt_outcome(args, item, device, name) == Err::<
            InterruptPlan<T>,
            Diagnostic,
        >(hoist_spec(item.stmts@)->Err_0),
        hoist_spec(item.stmts@) is Err,
{
    let s = item.stmts@;
    lemma_leading_statics_shape(s);
    assert(is_mut_static(s[i]));
    assert(redeclared(s, j));
    let first = first_redeclaration(s, j);
    assert(crate::hoist::first_redeclared(s, first));
}

/// With `wake_cpu`, an accepted handler is a naked routine whose first
/// instruction clears SCG1, SCG0, OSCOFF and CPUOFF in the status register
/// image saved on the stack, and whose last one jumps to the inner function;
/// without it, no preamble is emitted and the routine is not naked.
pub proof fn lemma_wake_cpu_preamble<T>(args: Seq<Token>, item: FnItem<T>, device: bool, name: String)
    requires
        interrupt_outcome(args, item, device, name) is Ok,
    ensures
        ({
            let p = interrupt_outcome(args, item, device, name)->Ok_0;
            if interrupt_modifier_spec(args) == Ok::<bool, Diagnostic>(true) {
                &&& p.naked
                &&& p.preamble.len() == 2
                &&& p.preamble[0] == Instruction::ClearSavedStatusBits(
                    SR_SCG1 | SR_SCG0 | SR_OSCOFF | SR_CPUOFF,
                )
                &&& p.preamble[1] == Instruction::JumpToInner
                &&& !p.passes_token
            } else {
                &&& !p.naked
                &&& p.preamble.len() == 0
            }
        }),
{
}

/// Two entry plans that differ at most in the generated names.
pub open spec fn entry_plans_agree<T>(a: EntryPlan<T>, b: EntryPlan<T>) -> bool {
    &&& a.export_name == b.export_name
    &&& a.unsafety == b.unsafety
    &&& a.param == b.param
    &&& a.passes_argument == b.passes_argument
    &&& a.statics == b.statics
    &&& a.body == b.body
    &&& match (a.setup, b.setup) {
        (Setup::PreInterrupt { init: x, .. }, Setup::PreInterrupt { init: y, .. }) => x == y,
        _ => a.setup == b.setup,
    }
}

/// Two interrupt plans that differ at most in the generated name.
pub open spec fn interrupt_plans_agree<T>(a: InterruptPlan<T>, b: InterruptPlan<T>) -> bool {
    a == InterruptPlan { name: a.name, ..b }
}

/// Expanding the same entry point twice gives the same diagnostic, or two
/// expansions that differ only in their generated names: the exported symbol
/// and the behaviour are the same.
pub proof fn lemma_entry_names_only<T>(args: Seq<Token>, item: FnItem<T>, n1: String, g1: String, n2: String, g2: String)
    ensures
        entry_outcome(args, item, n1, g1) is Ok <==> entry_outcome(args, item, n2, g2) is Ok,
        entry_outcome(args, item, n1, g1) is Err ==> entry_outcome(args, item, n1, g1)
            == entry_outcome(args, item, n2, g2),
        entry_outcome(args, item, n1, g1) is Ok ==> entry_plans_agree(
            entry_outcome(args, item, n1, g1)->Ok_0,
            entry_outcome(args, item, n2, g2)->Ok_0,
        ),
{
}

/// Expanding the same interrupt handler twice gives the same diagnostic, or
/// two expansions that differ only in their generated name.
pub proof fn lemma_interrupt_names_only<T>(args: Seq<Token>, item: FnItem<T>, device: bool, n1: String, n2: String)
    ensures
        interrupt_outcome(args, item, device, n1) is Ok <==> interrupt_outcome(args, item, device, n2) is Ok,
        interrupt_outcome(args, item, device, n1) is Err ==> interrupt_outcome(args, item, device, n1)
            == interrupt_outcome(args, item, device, n2),
        interrupt_outcome(args, item, device, n1) is Ok ==> interrupt_plans_agree(
            interrupt_outcome(args, item, device, n1)->Ok_0,
            interrupt_outcome(args, item, device, n2)->Ok_0,
        ),
{
}

/// Without device support, a handler with any name but `DefaultHandler` is
/// refused with the diagnostic that only the fallback may be overridden; a
/// `DefaultHandler` that meets the handler contract is accepted.
pub proof fn lemma_override_disabled<T>(args: Seq<Token>, item: FnItem<T>, name: String)
    requires
        interrupt_modifier_spec(args) is Ok,
    ensures
        item.sig.ident@ != default_handler() ==> interrupt_outcome(args, item, false, name) == Err::<
            InterruptPlan<T>,
            Diagnostic,
        >(diag(DiagnosticKind::OverrideDisabled, Location::FnName)),
        item.sig.ident@ == default_handler() && interrupt_shape(item)
            && no_redeclaration(item.stmts@)
            ==> interrupt_outcome(args, item, false, name) is Ok,
{
}

} // verus!
