//! A translator for a small stack-based virtual-machine language targeting a
//! 16-bit von-Neumann machine with one data register, one address register,
//! and a hardware stack pointer held in memory.
//!
//! The crate has two cooperating stages:
//!
//! * the parser ([`parser`]) lexes each line of VM source text and classifies
//!   it into a strongly-typed [`parser::Instruction`], rejecting anything
//!   malformed, and
//! * the translator ([`translator`]) maps each instruction to the literal
//!   sequence of target assembly lines implementing it, handling segment
//!   addressing arithmetic, comparison control-flow labels, and the
//!   scratch-register convention for indirect addressing.
//!
//! Reading input files, writing output files and command-line handling are
//! left to a thin outer layer; the library works on plain strings.

use vstd::prelude::*;

pub mod config;
pub mod error;
pub mod parser;
pub mod text;
pub mod translator;

verus! {

/// Adds two numbers.
pub fn foo(left: u64, right: u64) -> (r: u64)
    requires
        left + right <= u64::MAX,
    ensures
        r == left + right,
{
    left + right
}

} // verus!
