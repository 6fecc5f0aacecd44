//! Anti-quark identifiers.
#![allow(non_upper_case_globals)]

use vstd::prelude::*;
use crate::particle::ParticleID;
use crate::particle::ids_of;

verus! {

pub const d_bar: i32 = -1;
pub const u_bar: i32 = -2;
pub const s_bar: i32 = -3;
pub const c_bar: i32 = -4;
pub const b_bar: i32 = -5;
pub const t_bar: i32 = -6;
pub const b_prime_bar: i32 = -7;
pub const t_prime_bar: i32 = -9;

pub const anti_down: i32 = d_bar;
pub const anti_up: i32 = u_bar;
pub const anti_strange: i32 = s_bar;
pub const anti_charm: i32 = c_bar;
pub const anti_bottom: i32 = b_bar;
pub const anti_top: i32 = t_bar;

/// The anti-quark identifiers, in catalog order.
pub open spec fn member_ids() -> Seq<int> {
    seq![d_bar as int, u_bar as int, s_bar as int, c_bar as int, b_bar as int, t_bar as int, b_prime_bar as int, t_prime_bar as int]
}

/// The anti-quark members, in catalog order.
pub fn members() -> (v: Vec<ParticleID>)
    ensures
        ids_of(v@) == member_ids(),
{
    let mut v: Vec<ParticleID> = Vec::new();
    v.push(ParticleID::new(d_bar));
    v.push(ParticleID::new(u_bar));
    v.push(ParticleID::new(s_bar));
    v.push(ParticleID::new(c_bar));
    v.push(ParticleID::new(b_bar));
    v.push(ParticleID::new(t_bar));
    v.push(ParticleID::new(b_prime_bar));
    v.push(ParticleID::new(t_prime_bar));
    proof {
        assert(ids_of(v@) =~= member_ids());
    }
    v
}

} // verus!
