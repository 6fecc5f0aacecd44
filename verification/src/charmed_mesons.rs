//! Charmed meson identifiers.
#![allow(non_upper_case_globals)]

use vstd::prelude::*;
use crate::particle::ParticleID;
use crate::particle::ids_of;

verus! {

pub const D_plus: i32 = 411;
pub const D_0: i32 = 421;
pub const D_0_star_2400_plus: i32 = 10411;
pub const D_0_star_2400_0: i32 = 10421;
pub const D_star_2010_plus: i32 = 413;
pub const D_star_2007_0: i32 = 423;
pub const D_1_2420_plus: i32 = 10413;
pub const D_1_2420_0: i32 = 10423;
pub const D_1_H_plus: i32 = 20413;
pub const D_1_2430_0: i32 = 20423;
pub const D_2_star_2460_plus: i32 = 415;
pub const D_2_star_2460_0: i32 = 425;
pub const D_s_plus: i32 = 431;
pub const D_s0_star_2317_plus: i32 = 10431;
pub const D_s_star_plus: i32 = 433;
pub const D_s_1_2536_plus: i32 = 10433;
pub const D_s_1_2460_plus: i32 = 20433;
pub const D_s_2_star_2573_plus: i32 = 435;

/// The charmed meson identifiers, in catalog order.
pub open spec fn member_ids() -> Seq<int> {
    seq![D_plus as int, D_0 as int, D_0_star_2400_plus as int, D_0_star_2400_0 as int, D_star_2010_plus as int, D_star_2007_0 as int, D_1_2420_plus as int, D_1_2420_0 as int, D_1_H_plus as int, D_1_2430_0 as int, D_2_star_2460_plus as int, D_2_star_2460_0 as int, D_s_plus as int, D_s0_star_2317_plus as int, D_s_star_plus as int, D_s_1_2536_plus as int, D_s_1_2460_plus as int, D_s_2_star_2573_plus as int]
}

/// The charmed meson members, in catalog order.
pub fn members() -> (v: Vec<ParticleID>)
    ensures
        ids_of(v@) == member_ids(),
{
    let mut v: Vec<ParticleID> = Vec::new();
    v.push(ParticleID::new(D_plus));
    v.push(ParticleID::new(D_0));
    v.push(ParticleID::new(D_0_star_2400_plus));
    v.push(ParticleID::new(D_0_star_2400_0));
    v.push(ParticleID::new(D_star_2010_plus));
    v.push(ParticleID::new(D_star_2007_0));
    v.push(ParticleID::new(D_1_2420_plus));
    v.push(ParticleID::new(D_1_2420_0));
    v.push(ParticleID::new(D_1_H_plus));
    v.push(ParticleID::new(D_1_2430_0));
    v.push(ParticleID::new(D_2_star_2460_plus));
    v.push(ParticleID::new(D_2_star_2460_0));
    v.push(ParticleID::new(D_s_plus));
    v.push(ParticleID::new(D_s0_star_2317_plus));
    v.push(ParticleID::new(D_s_star_plus));
    v.push(ParticleID::new(D_s_1_2536_plus));
    v.push(ParticleID::new(D_s_1_2460_plus));
    v.push(ParticleID::new(D_s_2_star_2573_plus));
    proof {
        assert(ids_of(v@) =~= member_ids());
    }
    v
}

} // verus!
