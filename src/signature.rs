//! Signature validation for the three roles.
//!
//! Every role asks for a function that is not `const`, has no written
//! visibility, no `extern` ABI, no generics, no `where` clause and no variadic
//! argument. Beyond that each role has its own parameter and return shapes.

use crate::modifier::EntryMode;
use crate::syntax::{text_is, FnInput, FnItem, Pattern, ReturnType, TypeExpr};
use vstd::prelude::*;

verus! {

/// The parameter that the generated inner function takes.
#[derive(PartialEq, Eq, Debug)]
pub enum InnerParam {
    /// No parameter.
    Absent,
    /// `name: CriticalSection<'a>`, bound to a token minted for the call.
    Token(String),
    /// The user's own parameter, as written, fed with the pre-interrupt
    /// initialiser's result.
    Forwarded,
}

/// The shape that every role asks for.
pub open spec fn common_shape<T>(item: FnItem<T>) -> bool {
    &&& !item.visible
    &&& !item.sig.constness
    &&& !item.sig.abi
    &&& item.sig.generic_params == 0
    &&& !item.sig.where_clause
    &&& !item.sig.variadic
}

/// `-> !`
pub open spec fn returns_never(o: ReturnType) -> bool {
    o matches ReturnType::Type(TypeExpr::Never)
}

/// No return type, or `-> ()`.
pub open spec fn returns_unit(o: ReturnType) -> bool {
    ||| o is Default
    ||| o matches ReturnType::Type(TypeExpr::Tuple(n)) && n == 0
}

/// The name bound by a parameter of the form `name: CriticalSection`: a plain
/// binding (no `ref`, no `mut`, no subpattern, no attributes) of the
/// single-segment path `CriticalSection` without generic arguments.
pub open spec fn token_binding_spec(input: FnInput) -> Option<String> {
    match input {
        FnInput::Typed { attributed, pat, ty } => match pat {
            Pattern::Ident { name, by_ref, mutable, subpattern, attributed: pat_attributed } => match ty {
                TypeExpr::Path { qualified, segments } => if !attributed && !by_ref && !mutable
                    && !subpattern && !pat_attributed && !qualified && segments@.len() == 1
                    && !segments@[0].has_arguments && segments@[0].ident@ == "CriticalSection"@ {
                    Some(name)
                } else {
                    None
                },
                _ => None,
            },
            Pattern::Other => None,
        },
        FnInput::Receiver => None,
    }
}

/// The parameters that a role without pre-interrupt initialisation accepts:
/// none, or one `name: CriticalSection`. `None` when they are not accepted.
pub open spec fn token_param_spec(inputs: Seq<FnInput>) -> Option<InnerParam> {
    if inputs.len() == 0 {
        Some(InnerParam::Absent)
    } else if inputs.len() == 1 && token_binding_spec(inputs[0]) is Some {
        Some(InnerParam::Token(token_binding_spec(inputs[0])->Some_0))
    } else {
        None
    }
}

/// The parameters accepted when interrupts are enabled before entry: none at
/// all without an initialiser; with one, none or a single typed parameter
/// that receives its result.
pub open spec fn init_param_spec(mode: EntryMode, inputs: Seq<FnInput>) -> Option<InnerParam> {
    if inputs.len() == 0 {
        Some(InnerParam::Absent)
    } else if mode is PreInterrupt && inputs.len() == 1 && inputs[0] is Typed {
        Some(InnerParam::Forwarded)
    } else {
        None
    }
}

/// The parameters accepted by the entry point in the given mode.
pub open spec fn entry_param_spec(mode: EntryMode, inputs: Seq<FnInput>) -> Option<InnerParam> {
    match mode {
        EntryMode::Plain => token_param_spec(inputs),
        _ => init_param_spec(mode, inputs),
    }
}

/// The entry point contract: the common shape, `-> !`, and the parameters
/// that the mode accepts.
pub open spec fn entry_shape<T>(item: FnItem<T>, mode: EntryMode) -> bool {
    &&& common_shape(item)
    &&& returns_never(item.sig.output)
    &&& entry_param_spec(mode, item.sig.inputs@) is Some
}

/// The interrupt handler contract: the common shape, no return value or
/// `-> !`, and no parameter or one `name: CriticalSection`.
pub open spec fn interrupt_shape<T>(item: FnItem<T>) -> bool {
    &&& common_shape(item)
    &&& (returns_unit(item.sig.output) || returns_never(item.sig.output))
    &&& token_param_spec(item.sig.inputs@) is Some
}

/// The pre-initialisation hook contract: the common shape, `unsafe`, no
/// parameter and no return value.
pub open spec fn pre_init_shape<T>(item: FnItem<T>) -> bool {
    &&& common_shape(item)
    &&& item.sig.unsafety
    &&& item.sig.inputs@.len() == 0
    &&& returns_unit(item.sig.output)
}

/// Checks the shape that every role asks for.
pub fn check_common_shape<T>(item: &FnItem<T>) -> (r: bool)
    ensures
        r == common_shape(*item),
{
    !item.visible && !item.sig.constness && !item.sig.abi && item.sig.generic_params == 0
        && !item.sig.where_clause && !item.sig.variadic
}

/// Checks for `-> !`.
pub fn check_returns_never(o: &ReturnType) -> (r: bool)
    ensures
        r == returns_never(*o),
{
    match o {
        ReturnType::Type(TypeExpr::Never) => true,
        _ => false,
    }
}

/// Checks for no return type or `-> ()`.
pub fn check_returns_unit(o: &ReturnType) -> (r: bool)
    ensures
        r == returns_unit(*o),
{
    match o {
        ReturnType::Default => true,
        ReturnType::Type(TypeExpr::Tuple(n)) => *n == 0,
        _ => false,
    }
}

/// The name bound by a parameter of the form `name: CriticalSection`.
pub fn token_binding(input: &FnInput) -> (r: Option<String>)
    ensures
        r == token_binding_spec(*input),
{
    match input {
        FnInput::Typed { attributed, pat, ty } => match pat {
            Pattern::Ident { name, by_ref, mutable, subpattern, attributed: pat_attributed } => match ty {
                TypeExpr::Path { qualified, segments } => {
                    if !*attributed && !*by_ref && !*mutable && !*subpattern && !*pat_attributed
                        && !*qualified && segments.len() == 1 && !segments[0].has_arguments
                        && text_is(&segments[0].ident, "CriticalSection") {
                        Some(name.clone())
                    } else {
                        None
                    }
                },
                _ => None,
            },
            Pattern::Other => None,
        },
        FnInput::Receiver => None,
    }
}

/// Reads an optional `name: CriticalSection` parameter; any other parameter
/// list is refused with `None`.
pub fn extract_critical_section_arg(inputs: &Vec<FnInput>) -> (r: Option<InnerParam>)
    ensures
        r == token_param_spec(inputs@),
{
    if inputs.len() == 0 {
        Some(InnerParam::Absent)
    } else if inputs.len() == 1 {
        match token_binding(&inputs[0]) {
            Some(name) => Some(InnerParam::Token(name)),
            None => None,
        }
    } else {
        None
    }
}

/// Reads the parameters of an entry point reached with interrupts enabled.
pub fn extract_init_arg(mode: &EntryMode, inputs: &Vec<FnInput>) -> (r: Option<InnerParam>)
    ensures
        r == init_param_spec(*mode, inputs@),
{
    if inputs.len() == 0 {
        Some(InnerParam::Absent)
    } else if inputs.len() == 1 {
        match (mode, &inputs[0]) {
            (EntryMode::PreInterrupt(_), FnInput::Typed { .. }) => Some(InnerParam::Forwarded),
            _ => None,
        }
    } else {
        None
    }
}

} // verus!
