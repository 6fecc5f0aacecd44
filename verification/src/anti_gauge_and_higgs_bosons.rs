//! Negatively charged boson anti-particle identifiers.
#![allow(non_upper_case_globals)]

use vstd::prelude::*;

verus! {

pub const W_minus: i32 = -24;
pub const W_prime_minus: i32 = -34;
pub const H_minus: i32 = -37;
pub const H_minus_minus: i32 = -38;

} // verus!
