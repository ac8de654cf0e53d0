//! Compile-time core of the MSP430 runtime attributes.
//!
//! The library validates the signature of a function claimed as the program
//! entry point, an interrupt handler or the pre-initialisation hook, hoists the
//! `static mut` declarations that open its body into per-handler storage, and
//! describes the wrapper that must be emitted for it. All of this works on a
//! plain model of the syntax, so that each decision is stated and proved.

pub mod diagnostic;
pub mod expand;
pub mod hoist;
pub mod laws;
pub mod modifier;
pub mod naming;
pub mod signature;
pub mod syntax;
