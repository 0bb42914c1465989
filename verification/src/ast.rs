//! The adapter AST: the shape of a parsed chain expression as the surface
//! syntax hands it to the compiler.
//!
//! The accepted grammar is an expression of the form `source(args)` or
//! `receiver.method(args)` where the receiver recursively matches the same
//! grammar. Arguments are numeric literals; a non-literal argument is kept
//! positionally but carries no value, and argument extraction skips it.

use vstd::prelude::*;

verus! {

/// One positional argument of a chain call.
#[derive(Debug, Clone)]
pub enum ArgLit {
    /// A numeric literal, as the bit pattern of its `f32` value.
    Num(u32),
    /// Any other argument expression; extraction skips it.
    Skip,
}

/// A chain expression.
///
/// `MethodCall::call_arg` holds the receiver chain of the first positional
/// argument when that argument is itself a call expression (binary operators
/// take their right operand there); in `args` that position appears as
/// [`ArgLit::Skip`].
#[derive(Debug)]
pub enum Chain {
    /// A bare call `name(args)`.
    Call { name: String, args: Vec<ArgLit> },
    /// A member call `obj.name(args)`.
    MethodCall { obj: Box<Chain>, name: String, call_arg: Option<Box<Chain>>, args: Vec<ArgLit> },
    /// A member access `obj.prop` without a call.
    Member { obj: Box<Chain> },
    /// Any other expression form; it builds no chain.
    Opaque,
}

} // verus!
