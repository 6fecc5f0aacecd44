//! Quark identifiers.
#![allow(non_upper_case_globals)]

use vstd::prelude::*;
use crate::particle::ParticleID;
use crate::particle::ids_of;

verus! {

pub const d: i32 = 1;
pub const u: i32 = 2;
pub const s: i32 = 3;
pub const c: i32 = 4;
pub const b: i32 = 5;
pub const t: i32 = 6;
pub const b_prime: i32 = 7;
pub const t_prime: i32 = 9;

pub const down: i32 = d;
pub const up: i32 = u;
pub const strange: i32 = s;
pub const charm: i32 = c;
pub const bottom: i32 = b;
pub const top: i32 = t;

/// The quark identifiers, in catalog order.
pub open spec fn member_ids() -> Seq<int> {
    seq![d as int, u as int, s as int, c as int, b as int, t as int, b_prime as int, t_prime as int]
}

/// The quark members, in catalog order.
pub fn members() -> (v: Vec<ParticleID>)
    ensures
        ids_of(v@) == member_ids(),
{
    let mut v: Vec<ParticleID> = Vec::new();
    v.push(ParticleID::new(d));
    v.push(ParticleID::new(u));
    v.push(ParticleID::new(s));
    v.push(ParticleID::new(c));
    v.push(ParticleID::new(b));
    v.push(ParticleID::new(t));
    v.push(ParticleID::new(b_prime));
    v.push(ParticleID::new(t_prime));
    proof {
        assert(ids_of(v@) =~= member_ids());
    }
    v
}

} // verus!
