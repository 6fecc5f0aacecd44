//! Supersymmetric anti-partner identifiers.
#![allow(non_upper_case_globals)]

use vstd::prelude::*;

verus! {


pub const d_tilde_bar_L: i32 = -1000001;
pub const u_tilde_bar_L: i32 = -1000002;
pub const s_tilde_bar_L: i32 = -1000003;
pub const c_tilde_bar_L: i32 = -1000004;
pub const b_tilde_bar_1: i32 = -1000005;
pub const t_tilde_bar_1: i32 = -1000006;
pub const e_tilde_bar_L: i32 = -1000011;
pub const nu_e_tilde_bar_L: i32 = -1000012;
pub const mu_tilde_bar_L: i32 = -1000013;
pub const nu_mu_tilde_bar_L: i32 = -1000014;
pub const tau_tilde_bar_1: i32 = -1000015;
pub const nu_tau_tilde_bar_L: i32 = -1000016;
pub const d_tilde_bar_R: i32 = -2000001;
pub const u_tilde_bar_R: i32 = -2000002;
pub const s_tilde_bar_R: i32 = -2000003;
pub const c_tilde_bar_R: i32 = -2000004;
pub const b_tilde_bar_2: i32 = -2000005;
pub const t_tilde_bar_2: i32 = -2000006;
pub const e_tilde_bar_R: i32 = -2000011;
pub const mu_tilde_bar_R: i32 = -2000013;
pub const tau_tilde_bar_2: i32 = -2000015;
pub const chi_tilde_minus_1: i32 = -1000024;
pub const chi_tilde_minus_2: i32 = -1000037;

} // verus!
