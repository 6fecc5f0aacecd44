//! Light anti-baryon identifiers.
#![allow(non_upper_case_globals)]

use vstd::prelude::*;

verus! {

pub const p_bar: i32 = -2212;
pub const anti_proton: i32 = p_bar;
pub const n_bar: i32 = -2112;
pub const anti_neutron: i32 = n_bar;

} // verus!
