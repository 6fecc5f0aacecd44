//! Diquark identifiers.
#![allow(non_upper_case_globals)]

use vstd::prelude::*;
use crate::particle::ParticleID;
use crate::particle::ids_of;

verus! {

pub const dd_1: i32 = 1103;
pub const ud_0: i32 = 2101;
pub const ud_1: i32 = 2103;
pub const uu_1: i32 = 2203;
pub const sd_0: i32 = 3101;
pub const sd_1: i32 = 3103;
pub const su_0: i32 = 3201;
pub const su_1: i32 = 3203;
pub const ss_1: i32 = 3303;
pub const cd_0: i32 = 4101;
pub const cd_1: i32 = 4103;
pub const cu_0: i32 = 4201;
pub const cu_1: i32 = 4203;
pub const cs_0: i32 = 4301;
pub const cs_1: i32 = 4303;
pub const cc_1: i32 = 4403;
pub const bd_0: i32 = 5101;
pub const bd_1: i32 = 5103;
pub const bu_0: i32 = 5201;
pub const bu_1: i32 = 5203;
pub const bs_0: i32 = 5301;
pub const bs_1: i32 = 5303;
pub const bc_0: i32 = 5401;
pub const bc_1: i32 = 5403;
pub const bb_1: i32 = 5503;

/// The diquark identifiers, in catalog order.
pub open spec fn member_ids() -> Seq<int> {
    seq![dd_1 as int, ud_0 as int, ud_1 as int, uu_1 as int, sd_0 as int, sd_1 as int, su_0 as int, su_1 as int, ss_1 as int, cd_0 as int, cd_1 as int, cu_0 as int, cu_1 as int, cs_0 as int, cs_1 as int, cc_1 as int, bd_0 as int, bd_1 as int, bu_0 as int, bu_1 as int, bs_0 as int, bs_1 as int, bc_0 as int, bc_1 as int, bb_1 as int]
}

/// The diquark members, in catalog order.
pub fn members() -> (v: Vec<ParticleID>)
    ensures
        ids_of(v@) == member_ids(),
{
    let mut v: Vec<ParticleID> = Vec::new();
    v.push(ParticleID::new(dd_1));
    v.push(ParticleID::new(ud_0));
    v.push(ParticleID::new(ud_1));
    v.push(ParticleID::new(uu_1));
    v.push(ParticleID::new(sd_0));
    v.push(ParticleID::new(sd_1));
    v.push(ParticleID::new(su_0));
    v.push(ParticleID::new(su_1));
    v.push(ParticleID::new(ss_1));
    v.push(ParticleID::new(cd_0));
    v.push(ParticleID::new(cd_1));
    v.push(ParticleID::new(cu_0));
    v.push(ParticleID::new(cu_1));
    v.push(ParticleID::new(cs_0));
    v.push(ParticleID::new(cs_1));
    v.push(ParticleID::new(cc_1));
    v.push(ParticleID::new(bd_0));
    v.push(ParticleID::new(bd_1));
    v.push(ParticleID::new(bu_0));
    v.push(ParticleID::new(bu_1));
    v.push(ParticleID::new(bs_0));
    v.push(ParticleID::new(bs_1));
    v.push(ParticleID::new(bc_0));
    v.push(ParticleID::new(bc_1));
    v.push(ParticleID::new(bb_1));
    proof {
        assert(ids_of(v@) =~= member_ids());
    }
    v
}

} // verus!
