//! The artifacts emitted for each role.
//!
//! An expansion describes the generated wrapper completely: the exported
//! symbol, the generated (collision-resistant) function name, the inner
//! function's parameter, what runs before the user's code, and the hoisted and
//! remaining statements. Each `*_outcome` spec function states what the
//! transformation yields for given input and given generated names.

use crate::diagnostic::{Diagnostic, DiagnosticKind, Location};
use crate::hoist::{extract_static_muts, hoist_spec};
use crate::modifier::{diag, entry_modifier_spec, interrupt_modifier_spec, parse_entry_modifier, parse_interrupt_modifier, EntryMode};
use crate::signature::{
    check_common_shape, check_returns_never, check_returns_unit, entry_param_spec, entry_shape,
    extract_critical_section_arg, extract_init_arg, interrupt_shape, pre_init_shape,
    token_param_spec, InnerParam,
};
use crate::syntax::{text_is, FnItem, StaticDecl, Stmt, Token};
use vstd::prelude::*;

verus! {

/// Status register bit: system clock generator 1 off.
pub const SR_SCG1: u8 = 0x80;
/// Status register bit: system clock generator 0 off.
pub const SR_SCG0: u8 = 0x40;
/// Status register bit: oscillator off.
pub const SR_OSCOFF: u8 = 0x20;
/// Status register bit: CPU off.
pub const SR_CPUOFF: u8 = 0x10;
/// The low-power bits cleared in the saved status register to wake the CPU.
pub const WAKE_MASK: u8 = SR_SCG1 | SR_SCG0 | SR_OSCOFF | SR_CPUOFF;

/// The symbol the reset routine jumps to.
pub open spec fn entry_symbol() -> Seq<char> {
    "main"@
}

/// The symbol of the pre-initialisation hook.
pub open spec fn pre_init_symbol() -> Seq<char> {
    "__pre_init"@
}

/// The fallback interrupt handler.
pub open spec fn default_handler() -> Seq<char> {
    "DefaultHandler"@
}

/// What the outer entry wrapper does before it calls the inner function.
#[derive(PartialEq, Eq, Debug)]
pub enum Setup {
    /// Nothing.
    Nothing,
    /// Mints a critical-section token and passes it on.
    FreshToken,
    /// Enables interrupts globally.
    EnableInterrupts,
    /// Calls `init` with a critical-section token confined to that call (by a
    /// local wrapper struct named `guard`), enables interrupts, and keeps
    /// `init`'s result as the argument.
    PreInterrupt { init: String, guard: String },
}

/// One instruction of a naked interrupt routine's preamble.
#[derive(PartialEq, Eq, Structural, Clone, Copy, Debug)]
pub enum Instruction {
    /// `bic.b #mask, 0(r1)`: clears bits in the status register image that
    /// the hardware saved on the stack and restores on return.
    ClearSavedStatusBits(u8),
    /// Jumps to the inner handler function.
    JumpToInner,
}

/// The emitted entry point.
#[derive(Debug)]
pub struct EntryExpansion<T> {
    /// The exported symbol, `main`.
    pub export_name: String,
    /// The generated name of the outer and the inner function.
    pub name: String,
    pub unsafety: bool,
    pub param: InnerParam,
    pub setup: Setup,
    /// Whether the inner function is called with the prepared argument.
    pub passes_argument: bool,
    pub statics: Vec<StaticDecl<T>>,
    pub body: Vec<Stmt<T>>,
}

/// The view of an [`EntryExpansion`].
pub struct EntryPlan<T> {
    pub export_name: Seq<char>,
    pub name: Seq<char>,
    pub unsafety: bool,
    pub param: InnerParam,
    pub setup: Setup,
    pub passes_argument: bool,
    pub statics: Seq<StaticDecl<T>>,
    pub body: Seq<Stmt<T>>,
}

impl<T> View for EntryExpansion<T> {
    type V = EntryPlan<T>;

    open spec fn view(&self) -> EntryPlan<T> {
        EntryPlan {
            export_name: self.export_name@,
            name: self.name@,
            unsafety: self.unsafety,
            param: self.param,
            setup: self.setup,
            passes_argument: self.passes_argument,
            statics: self.statics@,
            body: self.body@,
        }
    }
}

/// The emitted interrupt handler.
#[derive(Debug)]
pub struct InterruptExpansion<T> {
    /// The exported symbol: the handler's own name.
    pub export_name: String,
    /// The generated name of the outer and the inner function.
    pub name: String,
    pub unsafety: bool,
    /// `Some(name)` when the wrapper must name `interrupt::name` so that the
    /// device's declaration of that interrupt is linked.
    pub link_check: Option<String>,
    /// `Absent` or `Token`.
    pub param: InnerParam,
    /// Whether the outer routine is naked (not inlined, no prologue).
    pub naked: bool,
    /// What a naked routine runs before the inner function; empty otherwise.
    pub preamble: Vec<Instruction>,
    /// Whether the outer routine calls the inner one with a fresh token. A
    /// naked routine jumps to the inner function instead; a token parameter
    /// there, which carries no data, is entered with the jump.
    pub passes_token: bool,
    pub statics: Vec<StaticDecl<T>>,
    pub body: Vec<Stmt<T>>,
}

/// The view of an [`InterruptExpansion`].
pub struct InterruptPlan<T> {
    pub export_name: Seq<char>,
    pub name: Seq<char>,
    pub unsafety: bool,
    pub link_check: Option<String>,
    pub param: InnerParam,
    pub naked: bool,
    pub preamble: Seq<Instruction>,
    pub passes_token: bool,
    pub statics: Seq<StaticDecl<T>>,
    pub body: Seq<Stmt<T>>,
}

impl<T> View for InterruptExpansion<T> {
    type V = InterruptPlan<T>;

    open spec fn view(&self) -> InterruptPlan<T> {
        InterruptPlan {
            export_name: self.export_name@,
            name: self.name@,
            unsafety: self.unsafety,
            link_check: self.link_check,
            param: self.param,
            naked: self.naked,
            preamble: self.preamble@,
            passes_token: self.passes_token,
            statics: self.statics@,
            body: self.body@,
        }
    }
}

/// The emitted pre-initialisation hook: `pub unsafe fn name()` exported as
/// `__pre_init`, with the body unchanged.
#[derive(Debug)]
pub struct PreInitExpansion<T> {
    pub export_name: String,
    pub name: String,
    pub body: Vec<Stmt<T>>,
}

/// The view of a [`PreInitExpansion`].
pub struct PreInitPlan<T> {
    pub export_name: Seq<char>,
    pub name: Seq<char>,
    pub body: Seq<Stmt<T>>,
}

impl<T> View for PreInitExpansion<T> {
    type V = PreInitPlan<T>;

    open spec fn view(&self) -> PreInitPlan<T> {
        PreInitPlan { export_name: self.export_name@, name: self.name@, body: self.body@ }
    }
}

/// The view of a transformation's result.
pub open spec fn viewed<E: View>(r: Result<E, Diagnostic>) -> Result<E::V, Diagnostic> {
    match r {
        Ok(e) => Ok(e@),
        Err(d) => Err(d),
    }
}

/// The signature diagnostic of the entry point in each mode.
pub open spec fn entry_signature_error(mode: EntryMode) -> DiagnosticKind {
    match mode {
        EntryMode::Plain => DiagnosticKind::EntrySignature,
        EntryMode::InterruptEnable => DiagnosticKind::InterruptEnableSignature,
        EntryMode::PreInterrupt(init) => DiagnosticKind::PreInterruptSignature { init },
    }
}

/// What the entry wrapper does before the call, in each mode.
pub open spec fn entry_setup(mode: EntryMode, param: InnerParam, guard: String) -> Setup {
    match mode {
        EntryMode::Plain => if param is Token {
            Setup::FreshToken
        } else {
            Setup::Nothing
        },
        EntryMode::InterruptEnable => Setup::EnableInterrupts,
        EntryMode::PreInterrupt(init) => Setup::PreInterrupt { init, guard },
    }
}

/// The outcome of `#[entry(args)]` on `item`, with `name` as the generated
/// function name and `guard` as the generated token-confining struct name.
pub open spec fn entry_outcome<T>(args: Seq<Token>, item: FnItem<T>, name: String, guard: String) -> Result<EntryPlan<T>, Diagnostic> {
    match entry_modifier_spec(args) {
        Err(d) => Err(d),
        Ok(mode) => if !entry_shape(item, mode) {
            Err(diag(entry_signature_error(mode), Location::Signature))
        } else {
            let param = entry_param_spec(mode, item.sig.inputs@)->Some_0;
            match hoist_spec(item.stmts@) {
                Err(d) => Err(d),
                Ok((h, p)) => Ok(
                    EntryPlan {
                        export_name: entry_symbol(),
                        name: name@,
                        unsafety: item.sig.unsafety,
                        param,
                        setup: entry_setup(mode, param, guard),
                        passes_argument: !(param is Absent),
                        statics: h,
                        body: p,
                    },
                ),
            }
        },
    }
}

/// The preamble of an interrupt routine: for `wake_cpu`, clear the low-power
/// bits in the saved status register, then jump to the inner function.
pub open spec fn preamble_spec(wake: bool) -> Seq<Instruction> {
    if wake {
        seq![Instruction::ClearSavedStatusBits(WAKE_MASK), Instruction::JumpToInner]
    } else {
        Seq::empty()
    }
}

/// The outcome of `#[interrupt(args)]` on `item`, with `device` telling
/// whether device-specific handlers may be overridden, and `name` as the
/// generated function name.
pub open spec fn interrupt_outcome<T>(args: Seq<Token>, item: FnItem<T>, device: bool, name: String) -> Result<InterruptPlan<T>, Diagnostic> {
    match interrupt_modifier_spec(args) {
        Err(d) => Err(d),
        Ok(wake) => if item.sig.ident@ != default_handler() && !device {
            Err(diag(DiagnosticKind::OverrideDisabled, Location::FnName))
        } else if !interrupt_shape(item) {
            Err(diag(DiagnosticKind::InterruptSignature, Location::Signature))
        } else {
            let param = token_param_spec(item.sig.inputs@)->Some_0;
            match hoist_spec(item.stmts@) {
                Err(d) => Err(d),
                Ok((h, p)) => Ok(
                    InterruptPlan {
                        export_name: item.sig.ident@,
                        name: name@,
                        unsafety: item.sig.unsafety,
                        link_check: if item.sig.ident@ == default_handler() {
                            None
                        } else {
                            Some(item.sig.ident)
                        },
                        param,
                        naked: wake,
                        preamble: preamble_spec(wake),
                        passes_token: !wake && param is Token,
                        statics: h,
                        body: p,
                    },
                ),
            }
        },
    }
}

/// The outcome of `#[pre_init(args)]` on `item`.
pub open spec fn pre_init_outcome<T>(args: Seq<Token>, item: FnItem<T>) -> Result<PreInitPlan<T>, Diagnostic> {
    if !pre_init_shape(item) {
        Err(diag(DiagnosticKind::PreInitSignature, Location::Signature))
    } else if args.len() > 0 {
        Err(diag(DiagnosticKind::PreInitArguments, Location::CallSite))
    } else {
        Ok(PreInitPlan { export_name: pre_init_symbol(), name: item.sig.ident@, body: item.stmts@ })
    }
}

/// Declares the program entry point: validates `item` for the mode that
/// `args` selects, hoists its `static mut` declarations, and describes the
/// wrapper exported as `main`.
pub fn entry<T>(args: &Vec<Token>, item: FnItem<T>, name: String, guard: String) -> (r: Result<EntryExpansion<T>, Diagnostic>)
    ensures
        viewed(r) == entry_outcome(args@, item, name, guard),
{
    let mode = match parse_entry_modifier(args) {
        Ok(mode) => mode,
        Err(d) => return Err(d),
    };
    let shape = check_common_shape(&item) && check_returns_never(&item.sig.output);
    let param = match mode {
        EntryMode::Plain => extract_critical_section_arg(&item.sig.inputs),
        _ => extract_init_arg(&mode, &item.sig.inputs),
    };
    let param = match param {
        Some(p) if shape => p,
        _ => {
            let kind = match mode {
                EntryMode::Plain => DiagnosticKind::EntrySignature,
                EntryMode::InterruptEnable => DiagnosticKind::InterruptEnableSignature,
                EntryMode::PreInterrupt(init) => DiagnosticKind::PreInterruptSignature { init },
            };
            return Err(Diagnostic { kind, at: Location::Signature });
        },
    };
    let unsafety = item.sig.unsafety;
    let FnItem { visible: _, sig: _, stmts } = item;
    let (statics, body) = match extract_static_muts(stmts) {
        Ok(split) => split,
        Err(d) => return Err(d),
    };
    let passes_argument = match param {
        InnerParam::Absent => false,
        _ => true,
    };
    let setup = match mode {
        EntryMode::Plain => if passes_argument {
            Setup::FreshToken
        } else {
            Setup::Nothing
        },
        EntryMode::InterruptEnable => Setup::EnableInterrupts,
        EntryMode::PreInterrupt(init) => Setup::PreInterrupt { init, guard },
    };
    Ok(
        EntryExpansion {
            export_name: String::from_str("main"),
            name,
            unsafety,
            param,
            setup,
            passes_argument,
            statics,
            body,
        },
    )
}

/// Declares an interrupt handler: validates `args` and `item`, hoists its
/// `static mut` declarations, and describes the wrapper exported under the
/// handler's own name. Without `device` only `DefaultHandler` may be declared.
pub fn interrupt<T>(args: &Vec<Token>, item: FnItem<T>, device: bool, name: String) -> (r: Result<InterruptExpansion<T>, Diagnostic>)
    ensures
        viewed(r) == interrupt_outcome(args@, item, device, name),
{
    let wake = match parse_interrupt_modifier(args) {
        Ok(wake) => wake,
        Err(d) => return Err(d),
    };
    let is_default = text_is(&item.sig.ident, "DefaultHandler");
    if !is_default && !device {
        return Err(Diagnostic { kind: DiagnosticKind::OverrideDisabled, at: Location::FnName });
    }
    let shape = check_common_shape(&item) && (check_returns_unit(&item.sig.output)
        || check_returns_never(&item.sig.output));
    let param = match extract_critical_section_arg(&item.sig.inputs) {
        Some(p) if shape => p,
        _ => return Err(Diagnostic { kind: DiagnosticKind::InterruptSignature, at: Location::Signature }),
    };
    let unsafety = item.sig.unsafety;
    let FnItem { visible: _, sig, stmts } = item;
    let (statics, body) = match extract_static_muts(stmts) {
        Ok(split) => split,
        Err(d) => return Err(d),
    };
    let export_name = sig.ident.clone();
    let link_check = if is_default {
        None
    } else {
        Some(sig.ident)
    };
    let mut preamble: Vec<Instruction> = Vec::new();
    if wake {
        preamble.push(Instruction::ClearSavedStatusBits(WAKE_MASK));
        preamble.push(Instruction::JumpToInner);
    }
    assert(preamble@ =~= preamble_spec(wake));
    let passes_token = !wake && match param {
        InnerParam::Token(_) => true,
        _ => false,
    };
    Ok(
        InterruptExpansion {
            export_name,
            name,
            unsafety,
            link_check,
            param,
            naked: wake,
            preamble,
            passes_token,
            statics,
            body,
        },
    )
}

/// Declares the pre-initialisation hook: validates `item` (`unsafe fn()`) and
/// that no argument is given, and describes the function exported as
/// `__pre_init`.
pub fn pre_init<T>(args: &Vec<Token>, item: FnItem<T>) -> (r: Result<PreInitExpansion<T>, Diagnostic>)
    ensures
        viewed(r) == pre_init_outcome(args@, item),
{
    let shape = check_common_shape(&item) && item.sig.unsafety && item.sig.inputs.len() == 0
        && check_returns_unit(&item.sig.output);
    if !shape {
        return Err(Diagnostic { kind: DiagnosticKind::PreInitSignature, at: Location::Signature });
    }
    if args.len() > 0 {
        return Err(Diagnostic { kind: DiagnosticKind::PreInitArguments, at: Location::CallSite });
    }
    let FnItem { visible: _, sig, stmts } = item;
    Ok(PreInitExpansion { export_name: String::from_str("__pre_init"), name: sig.ident, body: stmts })
}

} // verus!
