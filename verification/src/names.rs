//! Canonical English names of the catalogued identifiers.

use vstd::prelude::*;
use crate::particle::str_opt_view;

verus! {

/// The canonical English name assigned to each catalogued
/// identifier; identifiers outside the table have none. The three
/// display tables are authored independently and cover different
/// identifiers.
pub open spec fn name_spec(id: int) -> Option<Seq<char>> {
    if id == 1 {
        Some("down"@)
    } else if id == 2 {
        Some("up"@)
    } else if id == 3 {
        Some("strange"@)
    } else if id == 4 {
        Some("charm"@)
    } else if id == 5 {
        Some("bottom"@)
    } else if id == 6 {
        Some("top"@)
    } else if id == 7 {
        Some("bottom prime"@)
    } else if id == 9 {
        Some("top prime"@)
    } else if id == 11 {
        Some("electron"@)
    } else if id == 12 {
        Some("electron neutrino"@)
    } else if id == 13 {
        Some("muon"@)
    } else if id == 14 {
        Some("muon neutrino"@)
    } else if id == 15 {
        Some("tau"@)
    } else if id == 16 {
        Some("tau neutrino"@)
    } else if id == 17 {
        Some("tau prime"@)
    } else if id == 18 {
        Some("tau prime neutrino"@)
    } else if id == 21 {
        Some("gluon"@)
    } else if id == 22 {
        Some("photon"@)
    } else if id == 23 {
        Some("Z"@)
    } else if id == 24 {
        Some("W plus"@)
    } else if id == 25 {
        Some("Higgs"@)
    } else if id == 32 {
        Some("Z prime"@)
    } else if id == 33 {
        Some("Z prime prime"@)
    } else if id == 34 {
        Some("W prime"@)
    } else if id == 35 {
        Some("heavy Higgs"@)
    } else if id == 36 {
        Some("pseudoscalar Higgs"@)
    } else if id == 37 {
        Some("Higgs plus"@)
    } else if id == 38 {
        Some("Higgs plus plus"@)
    } else if id == 2212 {
        Some("proton"@)
    } else if id == 2112 {
        Some("neutron"@)
    } else if id == -1 {
        Some("anti-down"@)
    } else if id == -2 {
        Some("anti-up"@)
    } else if id == -3 {
        Some("anti-strange"@)
    } else if id == -4 {
        Some("anti-charm"@)
    } else if id == -5 {
        Some("anti-bottom"@)
    } else if id == -6 {
        Some("anti-top"@)
    } else if id == -7 {
        Some("anti-bottom prime"@)
    } else if id == -9 {
        Some("anti-top prime"@)
    } else if id == -11 {
        Some("positron"@)
    } else if id == -12 {
        Some("electron anti-neutrino"@)
    } else if id == -13 {
        Some("anti-muon"@)
    } else if id == -14 {
        Some("muon anti-neutrino"@)
    } else if id == -15 {
        Some("anti-tau"@)
    } else if id == -16 {
        Some("tau anti-neutrino"@)
    } else if id == -17 {
        Some("tau prime"@)
    } else if id == -18 {
        Some("tau prime anti-neutrino"@)
    } else if id == -24 {
        Some("W minus"@)
    } else if id == -34 {
        Some("W minus minus"@)
    } else if id == -37 {
        Some("Higgs minus"@)
    } else if id == -38 {
        Some("H minus minus"@)
    } else if id == -2212 {
        Some("anti-proton"@)
    } else if id == -2112 {
        Some("anti-neutron"@)
    } else {
        None
    }
}

/// Exhaustive table lookup of the canonical English name.
pub(crate) fn lookup(id: i32) -> (r: Option<&'static str>)
    ensures
        str_opt_view(r) == name_spec(id as int),
{
    if id == 1 {
        Some("down")
    } else if id == 2 {
        Some("up")
    } else if id == 3 {
        Some("strange")
    } else if id == 4 {
        Some("charm")
    } else if id == 5 {
        Some("bottom")
    } else if id == 6 {
        Some("top")
    } else if id == 7 {
        Some("bottom prime")
    } else if id == 9 {
        Some("top prime")
    } else if id == 11 {
        Some("electron")
    } else if id == 12 {
        Some("electron neutrino")
    } else if id == 13 {
        Some("muon")
    } else if id == 14 {
        Some("muon neutrino")
    } else if id == 15 {
        Some("tau")
    } else if id == 16 {
        Some("tau neutrino")
    } else if id == 17 {
        Some("tau prime")
    } else if id == 18 {
        Some("tau prime neutrino")
    } else if id == 21 {
        Some("gluon")
    } else if id == 22 {
        Some("photon")
    } else if id == 23 {
        Some("Z")
    } else if id == 24 {
        Some("W plus")
    } else if id == 25 {
        Some("Higgs")
    } else if id == 32 {
        Some("Z prime")
    } else if id == 33 {
        Some("Z prime prime")
    } else if id == 34 {
        Some("W prime")
    } else if id == 35 {
        Some("heavy Higgs")
    } else if id == 36 {
        Some("pseudoscalar Higgs")
    } else if id == 37 {
        Some("Higgs plus")
    } else if id == 38 {
        Some("Higgs plus plus")
    } else if id == 2212 {
        Some("proton")
    } else if id == 2112 {
        Some("neutron")
    } else if id == -1 {
        Some("anti-down")
    } else if id == -2 {
        Some("anti-up")
    } else if id == -3 {
        Some("anti-strange")
    } else if id == -4 {
        Some("anti-charm")
    } else if id == -5 {
        Some("anti-bottom")
    } else if id == -6 {
        Some("anti-top")
    } else if id == -7 {
        Some("anti-bottom prime")
    } else if id == -9 {
        Some("anti-top prime")
    } else if id == -11 {
        Some("positron")
    } else if id == -12 {
        Some("electron anti-neutrino")
    } else if id == -13 {
        Some("anti-muon")
    } else if id == -14 {
        Some("muon anti-neutrino")
    } else if id == -15 {
        Some("anti-tau")
    } else if id == -16 {
        Some("tau anti-neutrino")
    } else if id == -17 {
        Some("tau prime")
    } else if id == -18 {
        Some("tau prime anti-neutrino")
    } else if id == -24 {
        Some("W minus")
    } else if id == -34 {
        Some("W minus minus")
    } else if id == -37 {
        Some("Higgs minus")
    } else if id == -38 {
        Some("H minus minus")
    } else if id == -2212 {
        Some("anti-proton")
    } else if id == -2112 {
        Some("anti-neutron")
    } else {
        None
    }
}

} // verus!
