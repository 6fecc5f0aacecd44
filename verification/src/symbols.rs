//! Short UTF-8 symbols of the catalogued identifiers.

use vstd::prelude::*;
use crate::particle::str_opt_view;

verus! {

/// Table section: elementary.
pub open spec fn symbol_elementary_spec(id: int) -> Option<Seq<char>> {
    if id == 1 {
        Some("d"@)
    } else if id == 2 {
        Some("u"@)
    } else if id == 3 {
        Some("s"@)
    } else if id == 4 {
        Some("c"@)
    } else if id == 5 {
        Some("b"@)
    } else if id == 6 {
        Some("t"@)
    } else if id == 7 {
        Some("b'"@)
    } else if id == 9 {
        Some("t'"@)
    } else if id == 11 {
        Some("e"@)
    } else if id == 12 {
        Some("νₑ"@)
    } else if id == 13 {
        Some("μ"@)
    } else if id == 14 {
        Some("ν(μ)"@)
    } else if id == 15 {
        Some("τ"@)
    } else if id == 16 {
        Some("ν(τ)"@)
    } else if id == 17 {
        Some("τ'"@)
    } else if id == 18 {
        Some("ν(τ)"@)
    } else if id == 21 {
        Some("g"@)
    } else if id == 22 {
        Some("γ"@)
    } else if id == 23 {
        Some("Z"@)
    } else if id == 24 {
        Some("W⁺"@)
    } else if id == 25 {
        Some("h"@)
    } else if id == 32 {
        Some("Z'"@)
    } else if id == 33 {
        Some("Z''"@)
    } else if id == 34 {
        Some("W'"@)
    } else if id == 35 {
        Some("H⁰"@)
    } else if id == 36 {
        Some("A⁰"@)
    } else if id == 37 {
        Some("H⁺"@)
    } else if id == 38 {
        Some("H⁺⁺"@)
    } else if id == 40 {
        Some("a₋"@)
    } else if id == 2212 {
        Some("p"@)
    } else if id == 2112 {
        Some("n"@)
    } else if id == -1 {
        Some(" ̅d"@)
    } else if id == -2 {
        Some(" ̅u"@)
    } else if id == -3 {
        Some(" ̅s"@)
    } else if id == -4 {
        Some(" ̅c"@)
    } else if id == -5 {
        Some(" ̅b"@)
    } else if id == -6 {
        Some(" ̅t"@)
    } else if id == -7 {
        Some(" ̅b'"@)
    } else if id == -9 {
        Some(" ̅t'"@)
    } else if id == -11 {
        Some("e⁺"@)
    } else if id == -12 {
        Some(" ̅νₑ"@)
    } else if id == -13 {
        Some("μ⁺"@)
    } else if id == -14 {
        Some(" ̅ν(μ)"@)
    } else if id == -15 {
        Some("τ⁺"@)
    } else if id == -16 {
        Some(" ̅ν(τ)"@)
    } else if id == -17 {
        Some("τ'⁺"@)
    } else if id == -18 {
        Some(" ̅ν(τ')"@)
    } else if id == -24 {
        Some("W⁻"@)
    } else if id == -34 {
        Some("W⁻⁻"@)
    } else if id == -37 {
        Some("H⁻"@)
    } else if id == -38 {
        Some("H⁻⁻"@)
    } else if id == -2212 {
        Some(" ̅p"@)
    } else if id == -2112 {
        Some(" ̅n"@)
    } else {
        None
    }
}

fn symbol_elementary(id: i32) -> (r: Option<&'static str>)
    ensures
        str_opt_view(r) == symbol_elementary_spec(id as int),
{
    if id == 1 {
        Some("d")
    } else if id == 2 {
        Some("u")
    } else if id == 3 {
        Some("s")
    } else if id == 4 {
        Some("c")
    } else if id == 5 {
        Some("b")
    } else if id == 6 {
        Some("t")
    } else if id == 7 {
        Some("b'")
    } else if id == 9 {
        Some("t'")
    } else if id == 11 {
        Some("e")
    } else if id == 12 {
        Some("νₑ")
    } else if id == 13 {
        Some("μ")
    } else if id == 14 {
        Some("ν(μ)")
    } else if id == 15 {
        Some("τ")
    } else if id == 16 {
        Some("ν(τ)")
    } else if id == 17 {
        Some("τ'")
    } else if id == 18 {
        Some("ν(τ)")
    } else if id == 21 {
        Some("g")
    } else if id == 22 {
        Some("γ")
    } else if id == 23 {
        Some("Z")
    } else if id == 24 {
        Some("W⁺")
    } else if id == 25 {
        Some("h")
    } else if id == 32 {
        Some("Z'")
    } else if id == 33 {
        Some("Z''")
    } else if id == 34 {
        Some("W'")
    } else if id == 35 {
        Some("H⁰")
    } else if id == 36 {
        Some("A⁰")
    } else if id == 37 {
        Some("H⁺")
    } else if id == 38 {
        Some("H⁺⁺")
    } else if id == 40 {
        Some("a₋")
    } else if id == 2212 {
        Some("p")
    } else if id == 2112 {
        Some("n")
    } else if id == -1 {
        Some(" ̅d")
    } else if id == -2 {
        Some(" ̅u")
    } else if id == -3 {
        Some(" ̅s")
    } else if id == -4 {
        Some(" ̅c")
    } else if id == -5 {
        Some(" ̅b")
    } else if id == -6 {
        Some(" ̅t")
    } else if id == -7 {
        Some(" ̅b'")
    } else if id == -9 {
        Some(" ̅t'")
    } else if id == -11 {
        Some("e⁺")
    } else if id == -12 {
        Some(" ̅νₑ")
    } else if id == -13 {
        Some("μ⁺")
    } else if id == -14 {
        Some(" ̅ν(μ)")
    } else if id == -15 {
        Some("τ⁺")
    } else if id == -16 {
        Some(" ̅ν(τ)")
    } else if id == -17 {
        Some("τ'⁺")
    } else if id == -18 {
        Some(" ̅ν(τ')")
    } else if id == -24 {
        Some("W⁻")
    } else if id == -34 {
        Some("W⁻⁻")
    } else if id == -37 {
        Some("H⁻")
    } else if id == -38 {
        Some("H⁻⁻")
    } else if id == -2212 {
        Some(" ̅p")
    } else if id == -2112 {
        Some(" ̅n")
    } else {
        None
    }
}

/// Table section: light isovector mesons.
pub open spec fn symbol_light_isovector_mesons_spec(id: int) -> Option<Seq<char>> {
    if id == 111 {
        Some("π⁰"@)
    } else if id == 211 {
        Some("π⁺"@)
    } else if id == 9000111 {
        Some("a₀(980)⁰"@)
    } else if id == 9000211 {
        Some("a₀(980)⁺"@)
    } else if id == 100111 {
        Some("π(1300)⁰"@)
    } else if id == 100211 {
        Some("π(1300)⁺"@)
    } else if id == 10111 {
        Some("a₀(1450)⁰"@)
    } else if id == 10211 {
        Some("a₀(1450)⁺"@)
    } else if id == 9010111 {
        Some("π(1800)⁰"@)
    } else if id == 9010211 {
        Some("π(1800)⁺"@)
    } else if id == 113 {
        Some("ρ(770)⁰"@)
    } else if id == 213 {
        Some("ρ(770)⁺"@)
    } else if id == 10113 {
        Some("b₁(1235)⁰"@)
    } else if id == 10213 {
        Some("b₁(1235)⁺"@)
    } else if id == 20113 {
        Some("a₁(1260)⁰"@)
    } else if id == 20213 {
        Some("a₁(1260)⁺"@)
    } else if id == 9000113 {
        Some("π₁(1400)⁰"@)
    } else if id == 9000213 {
        Some("π₁(1400)⁺"@)
    } else if id == 100113 {
        Some("ρ(1450)⁰"@)
    } else if id == 100213 {
        Some("ρ(1450)⁺"@)
    } else if id == 9010113 {
        Some("π₁(1600)⁰"@)
    } else if id == 9010213 {
        Some("π₁(1600)⁺"@)
    } else if id == 9020113 {
        Some("a₁(1640)⁰"@)
    } else if id == 9020213 {
        Some("a₁(1640)⁺"@)
    } else if id == 30113 {
        Some("ρ(1700)⁰"@)
    } else if id == 30213 {
        Some("ρ(1700)⁺"@)
    } else if id == 9030113 {
        Some("ρ(1900)⁰"@)
    } else if id == 9030213 {
        Some("ρ(1900)⁺"@)
    } else if id == 9040113 {
        Some("ρ(2150)⁰"@)
    } else if id == 9040213 {
        Some("ρ(2150)⁺"@)
    } else if id == 115 {
        Some("a₂(1320)⁰"@)
    } else if id == 215 {
        Some("a₂(1320)⁺"@)
    } else if id == 10115 {
        Some("π₂(1670)⁰"@)
    } else if id == 10215 {
        Some("π₂(1670)⁺"@)
    } else if id == 9000115 {
        Some("a₂(1700)⁰"@)
    } else if id == 9000215 {
        Some("a₂(1700)⁺"@)
    } else if id == 9010115 {
        Some("π₂(2100)⁰"@)
    } else if id == 9010215 {
        Some("π₂(2100)⁺"@)
    } else if id == 117 {
        Some("ρ₃(1690)⁰"@)
    } else if id == 217 {
        Some("ρ₃(1690)⁺"@)
    } else if id == 9000117 {
        Some("ρ₃(1990)⁰"@)
    } else if id == 9000217 {
        Some("ρ₃(1990)⁺"@)
    } else if id == 9010117 {
        Some("ρ₃(2250)⁰"@)
    } else if id == 9010217 {
        Some("ρ₃(2250)⁺"@)
    } else if id == 119 {
        Some("a₄(2040)⁰"@)
    } else if id == 219 {
        Some("a₄(2040)⁺"@)
    } else {
        None
    }
}

fn symbol_light_isovector_mesons(id: i32) -> (r: Option<&'static str>)
    ensures
        str_opt_view(r) == symbol_light_isovector_mesons_spec(id as int),
{
    if id == 111 {
        Some("π⁰")
    } else if id == 211 {
        Some("π⁺")
    } else if id == 9000111 {
        Some("a₀(980)⁰")
    } else if id == 9000211 {
        Some("a₀(980)⁺")
    } else if id == 100111 {
        Some("π(1300)⁰")
    } else if id == 100211 {
        Some("π(1300)⁺")
    } else if id == 10111 {
        Some("a₀(1450)⁰")
    } else if id == 10211 {
        Some("a₀(1450)⁺")
    } else if id == 9010111 {
        Some("π(1800)⁰")
    } else if id == 9010211 {
        Some("π(1800)⁺")
    } else if id == 113 {
        Some("ρ(770)⁰")
    } else if id == 213 {
        Some("ρ(770)⁺")
    } else if id == 10113 {
        Some("b₁(1235)⁰")
    } else if id == 10213 {
        Some("b₁(1235)⁺")
    } else if id == 20113 {
        Some("a₁(1260)⁰")
    } else if id == 20213 {
        Some("a₁(1260)⁺")
    } else if id == 9000113 {
        Some("π₁(1400)⁰")
    } else if id == 9000213 {
        Some("π₁(1400)⁺")
    } else if id == 100113 {
        Some("ρ(1450)⁰")
    } else if id == 100213 {
        Some("ρ(1450)⁺")
    } else if id == 9010113 {
        Some("π₁(1600)⁰")
    } else if id == 9010213 {
        Some("π₁(1600)⁺")
    } else if id == 9020113 {
        Some("a₁(1640)⁰")
    } else if id == 9020213 {
        Some("a₁(1640)⁺")
    } else if id == 30113 {
        Some("ρ(1700)⁰")
    } else if id == 30213 {
        Some("ρ(1700)⁺")
    } else if id == 9030113 {
        Some("ρ(1900)⁰")
    } else if id == 9030213 {
        Some("ρ(1900)⁺")
    } else if id == 9040113 {
        Some("ρ(2150)⁰")
    } else if id == 9040213 {
        Some("ρ(2150)⁺")
    } else if id == 115 {
        Some("a₂(1320)⁰")
    } else if id == 215 {
        Some("a₂(1320)⁺")
    } else if id == 10115 {
        Some("π₂(1670)⁰")
    } else if id == 10215 {
        Some("π₂(1670)⁺")
    } else if id == 9000115 {
        Some("a₂(1700)⁰")
    } else if id == 9000215 {
        Some("a₂(1700)⁺")
    } else if id == 9010115 {
        Some("π₂(2100)⁰")
    } else if id == 9010215 {
        Some("π₂(2100)⁺")
    } else if id == 117 {
        Some("ρ₃(1690)⁰")
    } else if id == 217 {
        Some("ρ₃(1690)⁺")
    } else if id == 9000117 {
        Some("ρ₃(1990)⁰")
    } else if id == 9000217 {
        Some("ρ₃(1990)⁺")
    } else if id == 9010117 {
        Some("ρ₃(2250)⁰")
    } else if id == 9010217 {
        Some("ρ₃(2250)⁺")
    } else if id == 119 {
        Some("a₄(2040)⁰")
    } else if id == 219 {
        Some("a₄(2040)⁺")
    } else {
        None
    }
}

/// Table section: light isoscalar mesons.
pub open spec fn symbol_light_isoscalar_mesons_spec(id: int) -> Option<Seq<char>> {
    if id == 221 {
        Some("η"@)
    } else if id == 331 {
        Some("η'(958)"@)
    } else if id == 9000221 {
        Some("f₀(500)"@)
    } else if id == 9010221 {
        Some("f₀(980)"@)
    } else if id == 100221 {
        Some("η(1295)"@)
    } else if id == 10221 {
        Some("f₀(1370)"@)
    } else if id == 9020221 {
        Some("η(1405)"@)
    } else if id == 100331 {
        Some("η(1475)"@)
    } else if id == 9030221 {
        Some("f₀(1500)"@)
    } else if id == 10331 {
        Some("f₀(1710)"@)
    } else if id == 9040221 {
        Some("η(1760)"@)
    } else if id == 9050221 {
        Some("f₀(2020)"@)
    } else if id == 9060221 {
        Some("f₀(2100)"@)
    } else if id == 9070221 {
        Some("f₀(2200)"@)
    } else if id == 9080221 {
        Some("η(2225)"@)
    } else if id == 223 {
        Some("ω(782)"@)
    } else if id == 333 {
        Some("φ(1020)"@)
    } else if id == 10223 {
        Some("h₁(1170)"@)
    } else if id == 20223 {
        Some("f₁(1285)"@)
    } else if id == 10333 {
        Some("h₁(1380)"@)
    } else if id == 20333 {
        Some("f₁(1420)"@)
    } else if id == 100223 {
        Some("ω(1420)"@)
    } else if id == 9000223 {
        Some("f₁(1510)"@)
    } else if id == 9010223 {
        Some("h₁(1595)"@)
    } else if id == 30223 {
        Some("ω(1650)"@)
    } else if id == 100333 {
        Some("φ(1680)"@)
    } else if id == 225 {
        Some("f₂(1270)"@)
    } else if id == 9000225 {
        Some("f₂(1430)"@)
    } else if id == 335 {
        Some("f₂'(1525)"@)
    } else if id == 9010225 {
        Some("f₂(1565)"@)
    } else if id == 9020225 {
        Some("f₂(1640)"@)
    } else if id == 10225 {
        Some("η₂(1645)"@)
    } else if id == 9030225 {
        Some("f₂(1810)"@)
    } else if id == 10335 {
        Some("η₂(1870)"@)
    } else if id == 9040225 {
        Some("f₂(1910)"@)
    } else if id == 9050225 {
        Some("f₂(1950)"@)
    } else if id == 9060225 {
        Some("f₂(2010)"@)
    } else if id == 9070225 {
        Some("f₂(2150)"@)
    } else if id == 9080225 {
        Some("f₂(2300)"@)
    } else if id == 9090225 {
        Some("f₂(2340)"@)
    } else if id == 227 {
        Some("ω₃(1670)"@)
    } else if id == 337 {
        Some("φ₃(1850)"@)
    } else if id == 229 {
        Some("f₄(2050)"@)
    } else if id == 9000229 {
        Some("f(J)(2220)"@)
    } else if id == 9010229 {
        Some("f₄(2300)"@)
    } else {
        None
    }
}

fn symbol_light_isoscalar_mesons(id: i32) -> (r: Option<&'static str>)
    ensures
        str_opt_view(r) == symbol_light_isoscalar_mesons_spec(id as int),
{
    if id == 221 {
        Some("η")
    } else if id == 331 {
        Some("η'(958)")
    } else if id == 9000221 {
        Some("f₀(500)")
    } else if id == 9010221 {
        Some("f₀(980)")
    } else if id == 100221 {
        Some("η(1295)")
    } else if id == 10221 {
        Some("f₀(1370)")
    } else if id == 9020221 {
        Some("η(1405)")
    } else if id == 100331 {
        Some("η(1475)")
    } else if id == 9030221 {
        Some("f₀(1500)")
    } else if id == 10331 {
        Some("f₀(1710)")
    } else if id == 9040221 {
        Some("η(1760)")
    } else if id == 9050221 {
        Some("f₀(2020)")
    } else if id == 9060221 {
        Some("f₀(2100)")
    } else if id == 9070221 {
        Some("f₀(2200)")
    } else if id == 9080221 {
        Some("η(2225)")
    } else if id == 223 {
        Some("ω(782)")
    } else if id == 333 {
        Some("φ(1020)")
    } else if id == 10223 {
        Some("h₁(1170)")
    } else if id == 20223 {
        Some("f₁(1285)")
    } else if id == 10333 {
        Some("h₁(1380)")
    } else if id == 20333 {
        Some("f₁(1420)")
    } else if id == 100223 {
        Some("ω(1420)")
    } else if id == 9000223 {
        Some("f₁(1510)")
    } else if id == 9010223 {
        Some("h₁(1595)")
    } else if id == 30223 {
        Some("ω(1650)")
    } else if id == 100333 {
        Some("φ(1680)")
    } else if id == 225 {
        Some("f₂(1270)")
    } else if id == 9000225 {
        Some("f₂(1430)")
    } else if id == 335 {
        Some("f₂'(1525)")
    } else if id == 9010225 {
        Some("f₂(1565)")
    } else if id == 9020225 {
        Some("f₂(1640)")
    } else if id == 10225 {
        Some("η₂(1645)")
    } else if id == 9030225 {
        Some("f₂(1810)")
    } else if id == 10335 {
        Some("η₂(1870)")
    } else if id == 9040225 {
        Some("f₂(1910)")
    } else if id == 9050225 {
        Some("f₂(1950)")
    } else if id == 9060225 {
        Some("f₂(2010)")
    } else if id == 9070225 {
        Some("f₂(2150)")
    } else if id == 9080225 {
        Some("f₂(2300)")
    } else if id == 9090225 {
        Some("f₂(2340)")
    } else if id == 227 {
        Some("ω₃(1670)")
    } else if id == 337 {
        Some("φ₃(1850)")
    } else if id == 229 {
        Some("f₄(2050)")
    } else if id == 9000229 {
        Some("f(J)(2220)")
    } else if id == 9010229 {
        Some("f₄(2300)")
    } else {
        None
    }
}

/// Table section: strange mesons.
pub open spec fn symbol_strange_mesons_spec(id: int) -> Option<Seq<char>> {
    if id == 130 {
        Some("K⁰(L)"@)
    } else if id == 310 {
        Some("K⁰(S)"@)
    } else if id == 311 {
        Some("K⁰"@)
    } else if id == 321 {
        Some("K⁺"@)
    } else if id == 9000311 {
        Some("K₀⃰(700)⁰"@)
    } else if id == 9000321 {
        Some("K₀⃰(700)⁺"@)
    } else if id == 10311 {
        Some("K₀⃰(1430)⁰"@)
    } else if id == 10321 {
        Some("K₀⃰(1430)⁺"@)
    } else if id == 100311 {
        Some("K(1460)⁰"@)
    } else if id == 100321 {
        Some("K(1460)⁺"@)
    } else if id == 9010311 {
        Some("K(1830)⁰"@)
    } else if id == 9010321 {
        Some("K(1830)⁺"@)
    } else if id == 9020311 {
        Some("K₀⃰(1950)⁰"@)
    } else if id == 9020321 {
        Some("K₀⃰(1950)⁺"@)
    } else if id == 313 {
        Some("K⃰(892)⁰"@)
    } else if id == 323 {
        Some("K⃰(892)⁺"@)
    } else if id == 10313 {
        Some("K₁(1270)⁰"@)
    } else if id == 10323 {
        Some("K₁(1270)⁺"@)
    } else if id == 20313 {
        Some("K₁(1400)⁰"@)
    } else if id == 20323 {
        Some("K₁(1400)⁺"@)
    } else if id == 100313 {
        Some("K⃰(1410)⁰"@)
    } else if id == 100323 {
        Some("K⃰(1410)⁺"@)
    } else if id == 9000313 {
        Some("K₁(1650)⁰"@)
    } else if id == 9000323 {
        Some("K₁(1650)⁺"@)
    } else if id == 30313 {
        Some("K⃰(1680)⁰"@)
    } else if id == 30323 {
        Some("K⃰(1680)⁺"@)
    } else if id == 315 {
        Some("K₂⃰(1430)⁰"@)
    } else if id == 325 {
        Some("K₂⃰(1430)⁺"@)
    } else if id == 9000315 {
        Some("K₂(1580)⁰"@)
    } else if id == 9000325 {
        Some("K₂(1580)⁺"@)
    } else if id == 10315 {
        Some("K₂(1770)⁰"@)
    } else if id == 10325 {
        Some("K₂(1770)⁺"@)
    } else if id == 20315 {
        Some("K₂(1820)⁰"@)
    } else if id == 20325 {
        Some("K₂(1820)⁺"@)
    } else if id == 9010315 {
        Some("K₂⃰(1980)⁰"@)
    } else if id == 9010325 {
        Some("K₂⃰(1980)⁺"@)
    } else if id == 9020315 {
        Some("K₂(2250)⁰"@)
    } else if id == 9020325 {
        Some("K₂(2250)⁺"@)
    } else if id == 317 {
        Some("K₃⃰(1780)⁰"@)
    } else if id == 327 {
        Some("K₃⃰(1780)⁺"@)
    } else if id == 9010317 {
        Some("K₃(2320)⁰"@)
    } else if id == 9010327 {
        Some("K₃(2320)⁺"@)
    } else if id == 319 {
        Some("K₄⃰(2045)⁰"@)
    } else if id == 329 {
        Some("K₄⃰(2045)⁺"@)
    } else if id == 9000319 {
        Some("K₄(2500)⁰"@)
    } else if id == 9000329 {
        Some("K₄(2500)⁺"@)
    } else {
        None
    }
}

fn symbol_strange_mesons(id: i32) -> (r: Option<&'static str>)
    ensures
        str_opt_view(r) == symbol_strange_mesons_spec(id as int),
{
    if id == 130 {
        Some("K⁰(L)")
    } else if id == 310 {
        Some("K⁰(S)")
    } else if id == 311 {
        Some("K⁰")
    } else if id == 321 {
        Some("K⁺")
    } else if id == 9000311 {
        Some("K₀⃰(700)⁰")
    } else if id == 9000321 {
        Some("K₀⃰(700)⁺")
    } else if id == 10311 {
        Some("K₀⃰(1430)⁰")
    } else if id == 10321 {
        Some("K₀⃰(1430)⁺")
    } else if id == 100311 {
        Some("K(1460)⁰")
    } else if id == 100321 {
        Some("K(1460)⁺")
    } else if id == 9010311 {
        Some("K(1830)⁰")
    } else if id == 9010321 {
        Some("K(1830)⁺")
    } else if id == 9020311 {
        Some("K₀⃰(1950)⁰")
    } else if id == 9020321 {
        Some("K₀⃰(1950)⁺")
    } else if id == 313 {
        Some("K⃰(892)⁰")
    } else if id == 323 {
        Some("K⃰(892)⁺")
    } else if id == 10313 {
        Some("K₁(1270)⁰")
    } else if id == 10323 {
        Some("K₁(1270)⁺")
    } else if id == 20313 {
        Some("K₁(1400)⁰")
    } else if id == 20323 {
        Some("K₁(1400)⁺")
    } else if id == 100313 {
        Some("K⃰(1410)⁰")
    } else if id == 100323 {
        Some("K⃰(1410)⁺")
    } else if id == 9000313 {
        Some("K₁(1650)⁰")
    } else if id == 9000323 {
        Some("K₁(1650)⁺")
    } else if id == 30313 {
        Some("K⃰(1680)⁰")
    } else if id == 30323 {
        Some("K⃰(1680)⁺")
    } else if id == 315 {
        Some("K₂⃰(1430)⁰")
    } else if id == 325 {
        Some("K₂⃰(1430)⁺")
    } else if id == 9000315 {
        Some("K₂(1580)⁰")
    } else if id == 9000325 {
        Some("K₂(1580)⁺")
    } else if id == 10315 {
        Some("K₂(1770)⁰")
    } else if id == 10325 {
        Some("K₂(1770)⁺")
    } else if id == 20315 {
        Some("K₂(1820)⁰")
    } else if id == 20325 {
        Some("K₂(1820)⁺")
    } else if id == 9010315 {
        Some("K₂⃰(1980)⁰")
    } else if id == 9010325 {
        Some("K₂⃰(1980)⁺")
    } else if id == 9020315 {
        Some("K₂(2250)⁰")
    } else if id == 9020325 {
        Some("K₂(2250)⁺")
    } else if id == 317 {
        Some("K₃⃰(1780)⁰")
    } else if id == 327 {
        Some("K₃⃰(1780)⁺")
    } else if id == 9010317 {
        Some("K₃(2320)⁰")
    } else if id == 9010327 {
        Some("K₃(2320)⁺")
    } else if id == 319 {
        Some("K₄⃰(2045)⁰")
    } else if id == 329 {
        Some("K₄⃰(2045)⁺")
    } else if id == 9000319 {
        Some("K₄(2500)⁰")
    } else if id == 9000329 {
        Some("K₄(2500)⁺")
    } else {
        None
    }
}

/// Table section: charmed mesons.
pub open spec fn symbol_charmed_mesons_spec(id: int) -> Option<Seq<char>> {
    if id == 411 {
        Some("D⁺"@)
    } else if id == 421 {
        Some("D⁰"@)
    } else if id == 10411 {
        Some("D₀⃰(2400)⁺"@)
    } else if id == 10421 {
        Some("D₀⃰(2400)⁰"@)
    } else if id == 413 {
        Some("D⃰(2010)⁺"@)
    } else if id == 423 {
        Some("D⃰(2010)⁰"@)
    } else if id == 10413 {
        Some("D₁(2420)⁺"@)
    } else if id == 10423 {
        Some("D₁(2420)⁰"@)
    } else if id == 20413 {
        Some("D₁(H)⁺"@)
    } else if id == 20423 {
        Some("D₁(2430)⁰"@)
    } else if id == 415 {
        Some("D₂(2460)⁺"@)
    } else if id == 425 {
        Some("D₂(2460)⁰"@)
    } else if id == 431 {
        Some("Dₛ⁺"@)
    } else if id == 10431 {
        Some("Dₛ₀⃰(2317)⁺"@)
    } else if id == 433 {
        Some("Dₛ⃰⁺"@)
    } else if id == 10433 {
        Some("Dₛ₁(2536)⁺"@)
    } else if id == 20433 {
        Some("Dₛ₁(2460)⁺"@)
    } else if id == 435 {
        Some("Dₛ₂⃰(2573)⁺"@)
    } else {
        None
    }
}

fn symbol_charmed_mesons(id: i32) -> (r: Option<&'static str>)
    ensures
        str_opt_view(r) == symbol_charmed_mesons_spec(id as int),
{
    if id == 411 {
        Some("D⁺")
    } else if id == 421 {
        Some("D⁰")
    } else if id == 10411 {
        Some("D₀⃰(2400)⁺")
    } else if id == 10421 {
        Some("D₀⃰(2400)⁰")
    } else if id == 413 {
        Some("D⃰(2010)⁺")
    } else if id == 423 {
        Some("D⃰(2010)⁰")
    } else if id == 10413 {
        Some("D₁(2420)⁺")
    } else if id == 10423 {
        Some("D₁(2420)⁰")
    } else if id == 20413 {
        Some("D₁(H)⁺")
    } else if id == 20423 {
        Some("D₁(2430)⁰")
    } else if id == 415 {
        Some("D₂(2460)⁺")
    } else if id == 425 {
        Some("D₂(2460)⁰")
    } else if id == 431 {
        Some("Dₛ⁺")
    } else if id == 10431 {
        Some("Dₛ₀⃰(2317)⁺")
    } else if id == 433 {
        Some("Dₛ⃰⁺")
    } else if id == 10433 {
        Some("Dₛ₁(2536)⁺")
    } else if id == 20433 {
        Some("Dₛ₁(2460)⁺")
    } else if id == 435 {
        Some("Dₛ₂⃰(2573)⁺")
    } else {
        None
    }
}

/// Table section: bottom mesons.
pub open spec fn symbol_bottom_mesons_spec(id: int) -> Option<Seq<char>> {
    if id == 511 {
        Some("B⁰"@)
    } else if id == 521 {
        Some("B⁺"@)
    } else if id == 10511 {
        Some("B₀⃰⁰"@)
    } else if id == 10521 {
        Some("B₀⃰⁺"@)
    } else if id == 513 {
        Some("B⃰⁰"@)
    } else if id == 523 {
        Some("B⃰⁺"@)
    } else if id == 10513 {
        Some("B₁(L)⁰"@)
    } else if id == 10523 {
        Some("B₁(L)⁺"@)
    } else if id == 20513 {
        Some("B₁(H)⁰"@)
    } else if id == 20523 {
        Some("B₁(L)⁺"@)
    } else if id == 515 {
        Some("B₂⃰⁰"@)
    } else if id == 525 {
        Some("B₂⃰⁺"@)
    } else if id == 531 {
        Some("Bₛ⁰"@)
    } else if id == 10531 {
        Some("Bₛ₀⃰⁰"@)
    } else if id == 533 {
        Some("Bₛ⃰⁰"@)
    } else if id == 10533 {
        Some("Bₛ₁(L)⁰"@)
    } else if id == 20533 {
        Some("Bₛ₁(H)⁰"@)
    } else if id == 535 {
        Some("Bₛ₂⃰⁰"@)
    } else if id == 541 {
        Some("B(c)⁺"@)
    } else if id == 10541 {
        Some("B(c)₀⃰⁺"@)
    } else if id == 543 {
        Some("B(c)⃰⁺"@)
    } else if id == 10543 {
        Some("B(c)₁(L)⁺"@)
    } else if id == 20543 {
        Some("B(c)₁(H)⁺"@)
    } else if id == 545 {
        Some("B(c)₂⃰⁺"@)
    } else {
        None
    }
}

fn symbol_bottom_mesons(id: i32) -> (r: Option<&'static str>)
    ensures
        str_opt_view(r) == symbol_bottom_mesons_spec(id as int),
{
    if id == 511 {
        Some("B⁰")
    } else if id == 521 {
        Some("B⁺")
    } else if id == 10511 {
        Some("B₀⃰⁰")
    } else if id == 10521 {
        Some("B₀⃰⁺")
    } else if id == 513 {
        Some("B⃰⁰")
    } else if id == 523 {
        Some("B⃰⁺")
    } else if id == 10513 {
        Some("B₁(L)⁰")
    } else if id == 10523 {
        Some("B₁(L)⁺")
    } else if id == 20513 {
        Some("B₁(H)⁰")
    } else if id == 20523 {
        Some("B₁(L)⁺")
    } else if id == 515 {
        Some("B₂⃰⁰")
    } else if id == 525 {
        Some("B₂⃰⁺")
    } else if id == 531 {
        Some("Bₛ⁰")
    } else if id == 10531 {
        Some("Bₛ₀⃰⁰")
    } else if id == 533 {
        Some("Bₛ⃰⁰")
    } else if id == 10533 {
        Some("Bₛ₁(L)⁰")
    } else if id == 20533 {
        Some("Bₛ₁(H)⁰")
    } else if id == 535 {
        Some("Bₛ₂⃰⁰")
    } else if id == 541 {
        Some("B(c)⁺")
    } else if id == 10541 {
        Some("B(c)₀⃰⁺")
    } else if id == 543 {
        Some("B(c)⃰⁺")
    } else if id == 10543 {
        Some("B(c)₁(L)⁺")
    } else if id == 20543 {
        Some("B(c)₁(H)⁺")
    } else if id == 545 {
        Some("B(c)₂⃰⁺")
    } else {
        None
    }
}

/// Table section: ccbar mesons.
pub open spec fn symbol_ccbar_mesons_spec(id: int) -> Option<Seq<char>> {
    if id == 441 {
        Some("η(c)(1S)"@)
    } else if id == 10441 {
        Some("χ(c)₀(1P)"@)
    } else if id == 100441 {
        Some("η(c)(2S)"@)
    } else if id == 443 {
        Some("J/ψ(1S)"@)
    } else if id == 10443 {
        Some("h(c)(1P)"@)
    } else if id == 20443 {
        Some("χ(c)₁(1P)"@)
    } else if id == 100443 {
        Some("ψ(2S)"@)
    } else if id == 30443 {
        Some("ψ(3770)"@)
    } else if id == 9000443 {
        Some("ψ(4040)"@)
    } else if id == 9010443 {
        Some("ψ(4160)"@)
    } else if id == 9020443 {
        Some("ψ(4415)"@)
    } else if id == 445 {
        Some("χ(c)₂(1P)"@)
    } else if id == 100445 {
        Some("χ(c)₂(3930)"@)
    } else {
        None
    }
}

fn symbol_ccbar_mesons(id: i32) -> (r: Option<&'static str>)
    ensures
        str_opt_view(r) == symbol_ccbar_mesons_spec(id as int),
{
    if id == 441 {
        Some("η(c)(1S)")
    } else if id == 10441 {
        Some("χ(c)₀(1P)")
    } else if id == 100441 {
        Some("η(c)(2S)")
    } else if id == 443 {
        Some("J/ψ(1S)")
    } else if id == 10443 {
        Some("h(c)(1P)")
    } else if id == 20443 {
        Some("χ(c)₁(1P)")
    } else if id == 100443 {
        Some("ψ(2S)")
    } else if id == 30443 {
        Some("ψ(3770)")
    } else if id == 9000443 {
        Some("ψ(4040)")
    } else if id == 9010443 {
        Some("ψ(4160)")
    } else if id == 9020443 {
        Some("ψ(4415)")
    } else if id == 445 {
        Some("χ(c)₂(1P)")
    } else if id == 100445 {
        Some("χ(c)₂(3930)")
    } else {
        None
    }
}

/// Table section: bbbar mesons.
pub open spec fn symbol_bbbar_mesons_spec(id: int) -> Option<Seq<char>> {
    if id == 551 {
        Some("η(b)(1S)"@)
    } else if id == 10551 {
        Some("χ(b)₀(1P)"@)
    } else if id == 100551 {
        Some("η(b)(2S)"@)
    } else if id == 110551 {
        Some("χ(b)₀(2P)"@)
    } else if id == 200551 {
        Some("η(b)(3S)"@)
    } else if id == 210551 {
        Some("χ(b)₀(3P)"@)
    } else if id == 553 {
        Some("Υ(1S)"@)
    } else if id == 10553 {
        Some("h(b)(1P)"@)
    } else if id == 20553 {
        Some("χ(b)"@)
    } else if id == 30553 {
        Some("Υ₁(1D)"@)
    } else if id == 100553 {
        Some("Υ(2S)"@)
    } else if id == 110553 {
        Some("h(b)(2P)"@)
    } else if id == 120553 {
        Some("χ(b)₁(2P)"@)
    } else if id == 130553 {
        Some("Υ₁(2D)"@)
    } else if id == 200553 {
        Some("Υ(3S)"@)
    } else if id == 210553 {
        Some("h(b)(3P)"@)
    } else if id == 220553 {
        Some("χ(b)₁(3P)"@)
    } else if id == 300553 {
        Some("Υ(4S)"@)
    } else if id == 9000553 {
        Some("Υ(10860)"@)
    } else if id == 9010553 {
        Some("Υ(11020)"@)
    } else if id == 555 {
        Some("χ(b)₂(1P)"@)
    } else if id == 10555 {
        Some("η(b)₂(1P)"@)
    } else if id == 20555 {
        Some("Υ₂(1D)"@)
    } else if id == 100555 {
        Some("χ(b)₂(2P)"@)
    } else if id == 110555 {
        Some("η(b)₂(2D)"@)
    } else if id == 120555 {
        Some("Υ₂(2D)"@)
    } else if id == 200555 {
        Some("χ(b)₂(3P)"@)
    } else if id == 557 {
        Some("Υ₃(1D)"@)
    } else if id == 100557 {
        Some("Υ₃(2D)"@)
    } else {
        None
    }
}

fn symbol_bbbar_mesons(id: i32) -> (r: Option<&'static str>)
    ensures
        str_opt_view(r) == symbol_bbbar_mesons_spec(id as int),
{
    if id == 551 {
        Some("η(b)(1S)")
    } else if id == 10551 {
        Some("χ(b)₀(1P)")
    } else if id == 100551 {
        Some("η(b)(2S)")
    } else if id == 110551 {
        Some("χ(b)₀(2P)")
    } else if id == 200551 {
        Some("η(b)(3S)")
    } else if id == 210551 {
        Some("χ(b)₀(3P)")
    } else if id == 553 {
        Some("Υ(1S)")
    } else if id == 10553 {
        Some("h(b)(1P)")
    } else if id == 20553 {
        Some("χ(b)")
    } else if id == 30553 {
        Some("Υ₁(1D)")
    } else if id == 100553 {
        Some("Υ(2S)")
    } else if id == 110553 {
        Some("h(b)(2P)")
    } else if id == 120553 {
        Some("χ(b)₁(2P)")
    } else if id == 130553 {
        Some("Υ₁(2D)")
    } else if id == 200553 {
        Some("Υ(3S)")
    } else if id == 210553 {
        Some("h(b)(3P)")
    } else if id == 220553 {
        Some("χ(b)₁(3P)")
    } else if id == 300553 {
        Some("Υ(4S)")
    } else if id == 9000553 {
        Some("Υ(10860)")
    } else if id == 9010553 {
        Some("Υ(11020)")
    } else if id == 555 {
        Some("χ(b)₂(1P)")
    } else if id == 10555 {
        Some("η(b)₂(1P)")
    } else if id == 20555 {
        Some("Υ₂(1D)")
    } else if id == 100555 {
        Some("χ(b)₂(2P)")
    } else if id == 110555 {
        Some("η(b)₂(2D)")
    } else if id == 120555 {
        Some("Υ₂(2D)")
    } else if id == 200555 {
        Some("χ(b)₂(3P)")
    } else if id == 557 {
        Some("Υ₃(1D)")
    } else if id == 100557 {
        Some("Υ₃(2D)")
    } else {
        None
    }
}

/// Table section: light strange baryons.
pub open spec fn symbol_light_strange_baryons_spec(id: int) -> Option<Seq<char>> {
    if id == 2224 {
        Some("Δ⁺⁺"@)
    } else if id == 2214 {
        Some("Δ⁺"@)
    } else if id == 2114 {
        Some("Δ⁰"@)
    } else if id == 1114 {
        Some("Δ⁻"@)
    } else if id == 3122 {
        Some("Λ"@)
    } else if id == 3222 {
        Some("Σ⁺"@)
    } else if id == 3212 {
        Some("Σ⁰"@)
    } else if id == 3112 {
        Some("Σ⁻"@)
    } else if id == 3224 {
        Some("Σ⃰⁺"@)
    } else if id == 3214 {
        Some("Σ⃰⁰"@)
    } else if id == 3114 {
        Some("Σ⃰⁻"@)
    } else if id == 3322 {
        Some("Ξ⁰"@)
    } else if id == 3312 {
        Some("Ξ⁻"@)
    } else if id == 3324 {
        Some("Ξ⃰⁰"@)
    } else if id == 3314 {
        Some("Ξ⃰⁻"@)
    } else if id == 3334 {
        Some("Ω⁻"@)
    } else {
        None
    }
}

fn symbol_light_strange_baryons(id: i32) -> (r: Option<&'static str>)
    ensures
        str_opt_view(r) == symbol_light_strange_baryons_spec(id as int),
{
    if id == 2224 {
        Some("Δ⁺⁺")
    } else if id == 2214 {
        Some("Δ⁺")
    } else if id == 2114 {
        Some("Δ⁰")
    } else if id == 1114 {
        Some("Δ⁻")
    } else if id == 3122 {
        Some("Λ")
    } else if id == 3222 {
        Some("Σ⁺")
    } else if id == 3212 {
        Some("Σ⁰")
    } else if id == 3112 {
        Some("Σ⁻")
    } else if id == 3224 {
        Some("Σ⃰⁺")
    } else if id == 3214 {
        Some("Σ⃰⁰")
    } else if id == 3114 {
        Some("Σ⃰⁻")
    } else if id == 3322 {
        Some("Ξ⁰")
    } else if id == 3312 {
        Some("Ξ⁻")
    } else if id == 3324 {
        Some("Ξ⃰⁰")
    } else if id == 3314 {
        Some("Ξ⃰⁻")
    } else if id == 3334 {
        Some("Ω⁻")
    } else {
        None
    }
}

/// Table section: charmed baryons.
pub open spec fn symbol_charmed_baryons_spec(id: int) -> Option<Seq<char>> {
    if id == 4122 {
        Some("Λ(c)⁺"@)
    } else if id == 4222 {
        Some("Σ(c)⁺⁺"@)
    } else if id == 4212 {
        Some("Σ(c)⁺"@)
    } else if id == 4112 {
        Some("Σ(c)⁰"@)
    } else if id == 4224 {
        Some("Σ(c)⃰⁺⁺"@)
    } else if id == 4214 {
        Some("Σ(c)⃰⁺"@)
    } else if id == 4114 {
        Some("Σ(c)⃰⁰"@)
    } else if id == 4232 {
        Some("Ξ(c)⁺"@)
    } else if id == 4132 {
        Some("Ξ(c)⁰"@)
    } else if id == 4322 {
        Some("Ξ(c)'⁺"@)
    } else if id == 4312 {
        Some("Ξ(c)'⁰"@)
    } else if id == 4324 {
        Some("Ξ(c)⃰⁺"@)
    } else if id == 4314 {
        Some("Ξ(c)⃰⁰"@)
    } else if id == 4332 {
        Some("Ω(c)⁰"@)
    } else if id == 4334 {
        Some("Ω(c)⃰⁰"@)
    } else if id == 4412 {
        Some("Ξ(cc)⁺"@)
    } else if id == 4422 {
        Some("Ξ(cc)⁺⁺"@)
    } else if id == 4414 {
        Some("Ξ(cc)⃰⁺"@)
    } else if id == 4424 {
        Some("Ξ(cc)⃰⁺⁺"@)
    } else if id == 4432 {
        Some("Ω(cc)⁺"@)
    } else if id == 4434 {
        Some("Ω(cc)⃰⁺"@)
    } else if id == 4444 {
        Some("Ω(ccc)⁺⁺"@)
    } else {
        None
    }
}

fn symbol_charmed_baryons(id: i32) -> (r: Option<&'static str>)
    ensures
        str_opt_view(r) == symbol_charmed_baryons_spec(id as int),
{
    if id == 4122 {
        Some("Λ(c)⁺")
    } else if id == 4222 {
        Some("Σ(c)⁺⁺")
    } else if id == 4212 {
        Some("Σ(c)⁺")
    } else if id == 4112 {
        Some("Σ(c)⁰")
    } else if id == 4224 {
        Some("Σ(c)⃰⁺⁺")
    } else if id == 4214 {
        Some("Σ(c)⃰⁺")
    } else if id == 4114 {
        Some("Σ(c)⃰⁰")
    } else if id == 4232 {
        Some("Ξ(c)⁺")
    } else if id == 4132 {
        Some("Ξ(c)⁰")
    } else if id == 4322 {
        Some("Ξ(c)'⁺")
    } else if id == 4312 {
        Some("Ξ(c)'⁰")
    } else if id == 4324 {
        Some("Ξ(c)⃰⁺")
    } else if id == 4314 {
        Some("Ξ(c)⃰⁰")
    } else if id == 4332 {
        Some("Ω(c)⁰")
    } else if id == 4334 {
        Some("Ω(c)⃰⁰")
    } else if id == 4412 {
        Some("Ξ(cc)⁺")
    } else if id == 4422 {
        Some("Ξ(cc)⁺⁺")
    } else if id == 4414 {
        Some("Ξ(cc)⃰⁺")
    } else if id == 4424 {
        Some("Ξ(cc)⃰⁺⁺")
    } else if id == 4432 {
        Some("Ω(cc)⁺")
    } else if id == 4434 {
        Some("Ω(cc)⃰⁺")
    } else if id == 4444 {
        Some("Ω(ccc)⁺⁺")
    } else {
        None
    }
}

/// Table section: bottom baryons.
pub open spec fn symbol_bottom_baryons_spec(id: int) -> Option<Seq<char>> {
    if id == 5122 {
        Some("Λ(b)⁰"@)
    } else if id == 5112 {
        Some("Σ(b)⁻"@)
    } else if id == 5212 {
        Some("Σ(b)⁰"@)
    } else if id == 5222 {
        Some("Σ(b)⁺"@)
    } else if id == 5114 {
        Some("Σ(b)⃰⁻"@)
    } else if id == 5214 {
        Some("Σ(b)⁰"@)
    } else if id == 5224 {
        Some("Σ(b)⁺"@)
    } else if id == 5132 {
        Some("Ξ(b)⁻"@)
    } else if id == 5232 {
        Some("Ξ(b)⁰"@)
    } else if id == 5312 {
        Some("Ξ(b)'⁻"@)
    } else if id == 5322 {
        Some("Ξ(b)⁰"@)
    } else if id == 5314 {
        Some("Ξ(b)⁻"@)
    } else if id == 5324 {
        Some("Ξ(b)⁰"@)
    } else if id == 5332 {
        Some("Ω(b)⁻"@)
    } else if id == 5334 {
        Some("Ω(b)⃰⁻"@)
    } else if id == 5142 {
        Some("Ξ(bc)⁰"@)
    } else if id == 5242 {
        Some("Ξ(bc)⁺"@)
    } else if id == 5412 {
        Some("Ξ(bc)'⁰"@)
    } else if id == 5422 {
        Some("Ξ(bc)'⁺"@)
    } else if id == 5414 {
        Some("Ξ(bc)⃰⁰"@)
    } else if id == 5424 {
        Some("Ξ(bc)⃰⁺"@)
    } else if id == 5342 {
        Some("Ω(bc)⁰"@)
    } else if id == 5432 {
        Some("Ω(bc)'⁰"@)
    } else if id == 5434 {
        Some("Ω(bc)⃰⁰"@)
    } else if id == 5442 {
        Some("Ω(bcc)⁺"@)
    } else if id == 5444 {
        Some("Ω(bcc)⃰⁺"@)
    } else if id == 5512 {
        Some("Ξ(bb)⁻"@)
    } else if id == 5522 {
        Some("Ξ(bb)⁰"@)
    } else if id == 5514 {
        Some("Ξ(bb)⃰⁻"@)
    } else if id == 5524 {
        Some("Ξ(bb)⃰⁻"@)
    } else if id == 5532 {
        Some("Ω(bb)⁻"@)
    } else if id == 5534 {
        Some("Ω(bb)⃰⁻"@)
    } else if id == 5542 {
        Some("Ω(bbc)⁰"@)
    } else if id == 5544 {
        Some("Ω(bbc)⃰⁰"@)
    } else if id == 5554 {
        Some("Ω(bbb)⁻"@)
    } else if id == 100221132 {
        Some("Θ⁺"@)
    } else if id == 100331122 {
        Some("Φ⁻⁻"@)
    } else {
        None
    }
}

fn symbol_bottom_baryons(id: i32) -> (r: Option<&'static str>)
    ensures
        str_opt_view(r) == symbol_bottom_baryons_spec(id as int),
{
    if id == 5122 {
        Some("Λ(b)⁰")
    } else if id == 5112 {
        Some("Σ(b)⁻")
    } else if id == 5212 {
        Some("Σ(b)⁰")
    } else if id == 5222 {
        Some("Σ(b)⁺")
    } else if id == 5114 {
        Some("Σ(b)⃰⁻")
    } else if id == 5214 {
        Some("Σ(b)⁰")
    } else if id == 5224 {
        Some("Σ(b)⁺")
    } else if id == 5132 {
        Some("Ξ(b)⁻")
    } else if id == 5232 {
        Some("Ξ(b)⁰")
    } else if id == 5312 {
        Some("Ξ(b)'⁻")
    } else if id == 5322 {
        Some("Ξ(b)⁰")
    } else if id == 5314 {
        Some("Ξ(b)⁻")
    } else if id == 5324 {
        Some("Ξ(b)⁰")
    } else if id == 5332 {
        Some("Ω(b)⁻")
    } else if id == 5334 {
        Some("Ω(b)⃰⁻")
    } else if id == 5142 {
        Some("Ξ(bc)⁰")
    } else if id == 5242 {
        Some("Ξ(bc)⁺")
    } else if id == 5412 {
        Some("Ξ(bc)'⁰")
    } else if id == 5422 {
        Some("Ξ(bc)'⁺")
    } else if id == 5414 {
        Some("Ξ(bc)⃰⁰")
    } else if id == 5424 {
        Some("Ξ(bc)⃰⁺")
    } else if id == 5342 {
        Some("Ω(bc)⁰")
    } else if id == 5432 {
        Some("Ω(bc)'⁰")
    } else if id == 5434 {
        Some("Ω(bc)⃰⁰")
    } else if id == 5442 {
        Some("Ω(bcc)⁺")
    } else if id == 5444 {
        Some("Ω(bcc)⃰⁺")
    } else if id == 5512 {
        Some("Ξ(bb)⁻")
    } else if id == 5522 {
        Some("Ξ(bb)⁰")
    } else if id == 5514 {
        Some("Ξ(bb)⃰⁻")
    } else if id == 5524 {
        Some("Ξ(bb)⃰⁻")
    } else if id == 5532 {
        Some("Ω(bb)⁻")
    } else if id == 5534 {
        Some("Ω(bb)⃰⁻")
    } else if id == 5542 {
        Some("Ω(bbc)⁰")
    } else if id == 5544 {
        Some("Ω(bbc)⃰⁰")
    } else if id == 5554 {
        Some("Ω(bbb)⁻")
    } else if id == 100221132 {
        Some("Θ⁺")
    } else if id == 100331122 {
        Some("Φ⁻⁻")
    } else {
        None
    }
}

/// The UTF-8 symbol assigned to each catalogued identifier;
/// identifiers outside the table have none. The three display
/// tables are authored independently and cover different identifiers.
pub open spec fn symbol_spec(id: int) -> Option<Seq<char>> {
    if symbol_elementary_spec(id) is Some {
        symbol_elementary_spec(id)
    } else if symbol_light_isovector_mesons_spec(id) is Some {
        symbol_light_isovector_mesons_spec(id)
    } else if symbol_light_isoscalar_mesons_spec(id) is Some {
        symbol_light_isoscalar_mesons_spec(id)
    } else if symbol_strange_mesons_spec(id) is Some {
        symbol_strange_mesons_spec(id)
    } else if symbol_charmed_mesons_spec(id) is Some {
        symbol_charmed_mesons_spec(id)
    } else if symbol_bottom_mesons_spec(id) is Some {
        symbol_bottom_mesons_spec(id)
    } else if symbol_ccbar_mesons_spec(id) is Some {
        symbol_ccbar_mesons_spec(id)
    } else if symbol_bbbar_mesons_spec(id) is Some {
        symbol_bbbar_mesons_spec(id)
    } else if symbol_light_strange_baryons_spec(id) is Some {
        symbol_light_strange_baryons_spec(id)
    } else if symbol_charmed_baryons_spec(id) is Some {
        symbol_charmed_baryons_spec(id)
    } else if symbol_bottom_baryons_spec(id) is Some {
        symbol_bottom_baryons_spec(id)
    } else {
        None
    }
}

/// Exhaustive table lookup, one section at a time.
pub(crate) fn lookup(id: i32) -> (r: Option<&'static str>)
    ensures
        str_opt_view(r) == symbol_spec(id as int),
{
    let r = symbol_elementary(id);
    if r.is_some() {
        return r;
    }
    let r = symbol_light_isovector_mesons(id);
    if r.is_some() {
        return r;
    }
    let r = symbol_light_isoscalar_mesons(id);
    if r.is_some() {
        return r;
    }
    let r = symbol_strange_mesons(id);
    if r.is_some() {
        return r;
    }
    let r = symbol_charmed_mesons(id);
    if r.is_some() {
        return r;
    }
    let r = symbol_bottom_mesons(id);
    if r.is_some() {
        return r;
    }
    let r = symbol_ccbar_mesons(id);
    if r.is_some() {
        return r;
    }
    let r = symbol_bbbar_mesons(id);
    if r.is_some() {
        return r;
    }
    let r = symbol_light_strange_baryons(id);
    if r.is_some() {
        return r;
    }
    let r = symbol_charmed_baryons(id);
    if r.is_some() {
        return r;
    }
    symbol_bottom_baryons(id)
}

} // verus!
