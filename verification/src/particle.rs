//! The particle identifier type and its classification rules.

use vstd::prelude::*;

verus! {

/// A particle identifier: a signed 32-bit integer per the Monte Carlo
/// particle numbering convention. A positive value names a particle,
/// its negation the corresponding anti-particle.
#[derive(Copy, Clone, PartialEq, Eq, Structural, PartialOrd, Ord, Hash, Debug)]
pub struct ParticleID {
    id: i32,
}

impl View for ParticleID {
    type V = int;

    closed spec fn view(&self) -> int {
        self.id as int
    }
}

/// The identifier of the anti-particle: the sign is flipped.
pub open spec fn negated(id: int) -> int {
    -id
}

/// The identifier with the sign cleared.
pub open spec fn magnitude(id: int) -> int {
    if id < 0 {
        -id
    } else {
        id
    }
}

impl ParticleID {
    /// Construct an identifier from the given integer. Any value is
    /// accepted; values outside the catalog simply resolve to nothing
    /// in the lookup functions.
    pub fn new(id: i32) -> (r: Self)
        ensures
            r@ == id as int,
    {
        ParticleID { id }
    }

    /// The raw integer value of this identifier.
    pub fn id(self) -> (r: i32)
        ensures
            r as int == self@,
    {
        self.id
    }

    /// The identifier of the corresponding anti-particle.
    pub fn anti(self) -> (r: Self)
        requires
            self@ != i32::MIN as int,
        ensures
            r@ == negated(self@),
    {
        ParticleID { id: -self.id }
    }

    /// The identifier with a non-negative value: the particle itself,
    /// or the particle of an anti-particle.
    pub fn abs(self) -> (r: Self)
        requires
            self@ != i32::MIN as int,
        ensures
            r@ == magnitude(self@),
    {
        if self.id < 0 {
            ParticleID { id: -self.id }
        } else {
            self
        }
    }

    /// Whether this identifier names an anti-particle (negative value).
    pub fn is_anti_particle(&self) -> (r: bool)
        ensures
            r == (self@ < 0),
    {
        self.id < 0
    }

    /// The canonical English name of the particle, when the identifier
    /// is in the name table.
    pub fn name(&self) -> (r: Option<&'static str>)
        ensures
            str_opt_view(r) == crate::names::name_spec(self@),
    {
        crate::names::lookup(self.id)
    }

    /// The short UTF-8 physics symbol of the particle, when the
    /// identifier is in the symbol table.
    pub fn symbol(&self) -> (r: Option<&'static str>)
        ensures
            str_opt_view(r) == crate::symbols::symbol_spec(self@),
    {
        crate::symbols::lookup(self.id)
    }

    /// The LaTeX markup for the particle symbol, when the identifier
    /// is in the LaTeX table.
    pub fn latex_symbol(&self) -> (r: Option<&'static str>)
        ensures
            str_opt_view(r) == crate::latex::latex_symbol_spec(self@),
    {
        crate::latex::lookup(self.id)
    }
}

/// Whether `id` falls in the gauge-boson block: the sign-cleared value
/// lies in the inclusive range from the gluon (21) to the W boson (24).
/// Higgs-like bosons at 25 and above are not in this range.
pub open spec fn gauge_boson_id(id: int) -> bool {
    21 <= magnitude(id) && magnitude(id) <= 24
}

/// Whether `id` names a quark: strictly between the down quark (1) and
/// the fourth-generation top quark (9), so the boundary values 1 and 9
/// themselves do not qualify, and anti-quarks (negative values) never do.
pub open spec fn quark_id(id: int) -> bool {
    1 < id && id < 9
}

/// Anti-predicates are defined by negating and testing the particle
/// predicate, never by an independent range check.
pub open spec fn anti_quark_id(id: int) -> bool {
    quark_id(negated(id))
}

/// Whether `id` names a lepton: the inclusive range from the electron
/// (11) to the fourth-generation neutrino (18). Anti-leptons (negative
/// values) never qualify directly.
pub open spec fn lepton_id(id: int) -> bool {
    11 <= id && id <= 18
}

pub open spec fn anti_lepton_id(id: int) -> bool {
    lepton_id(negated(id))
}

/// Within each lepton generation the charged lepton has the odd value
/// and its neutrino the next even value, so a neutrino is an even lepton.
pub open spec fn neutrino_id(id: int) -> bool {
    lepton_id(id) && id % 2 == 0
}

pub open spec fn anti_neutrino_id(id: int) -> bool {
    neutrino_id(negated(id))
}

pub open spec fn charged_lepton_id(id: int) -> bool {
    lepton_id(id) && id % 2 == 1
}

pub open spec fn charged_anti_lepton_id(id: int) -> bool {
    id < 0 && charged_lepton_id(negated(id))
}

impl ParticleID {
    /// Whether this is a gauge boson: gluon, photon, Z or W, by either
    /// sign. The Higgs (25) is not a gauge boson under this rule.
    pub fn is_gauge_boson(&self) -> (r: bool)
        ensures
            r == gauge_boson_id(self@),
    {
        (21 <= self.id && self.id <= 24) || (-24 <= self.id && self.id <= -21)
    }

    /// Whether this is a quark. Anti-quarks do not qualify: negate or
    /// sign-clear first to cover both.
    pub fn is_quark(&self) -> (r: bool)
        ensures
            r == quark_id(self@),
    {
        1 < self.id && self.id < 9
    }

    /// Whether the anti-particle of this identifier is a quark.
    pub fn is_anti_quark(&self) -> (r: bool)
        ensures
            r == anti_quark_id(self@),
    {
        -9 < self.id && self.id < -1
    }

    /// Whether this is a lepton, charged or neutral. Anti-leptons do
    /// not qualify: negate or sign-clear first to cover both.
    pub fn is_lepton(&self) -> (r: bool)
        ensures
            r == lepton_id(self@),
    {
        11 <= self.id && self.id <= 18
    }

    /// Whether the anti-particle of this identifier is a lepton.
    pub fn is_anti_lepton(&self) -> (r: bool)
        ensures
            r == anti_lepton_id(self@),
    {
        -18 <= self.id && self.id <= -11
    }

    /// Whether this is a neutrino: a lepton with an even identifier.
    /// Anti-neutrinos do not qualify.
    pub fn is_neutrino(&self) -> (r: bool)
        ensures
            r == neutrino_id(self@),
    {
        11 <= self.id && self.id <= 18 && self.id % 2 == 0
    }

    /// Whether the anti-particle of this identifier is a neutrino.
    pub fn is_anti_neutrino(&self) -> (r: bool)
        ensures
            r == anti_neutrino_id(self@),
    {
        -18 <= self.id && self.id <= -11 && (-self.id) % 2 == 0
    }

    /// Whether this is a charged lepton: a lepton with an odd identifier.
    pub fn is_charged_lepton(&self) -> (r: bool)
        ensures
            r == charged_lepton_id(self@),
    {
        11 <= self.id && self.id <= 18 && self.id % 2 == 1
    }

    /// Whether this is an anti-particle whose anti-particle is a
    /// charged lepton.
    pub fn is_charged_anti_lepton(&self) -> (r: bool)
        ensures
            r == charged_anti_lepton_id(self@),
    {
        -18 <= self.id && self.id <= -11 && (-self.id) % 2 == 1
    }
}

/// Each anti-predicate agrees exactly with the particle predicate
/// applied to the negated identifier.
pub proof fn lemma_anti_predicates(id: int)
    ensures
        anti_quark_id(id) == quark_id(negated(id)),
        anti_lepton_id(id) == lepton_id(negated(id)),
        anti_neutrino_id(id) == neutrino_id(negated(id)),
        charged_anti_lepton_id(id) == (id < 0 && charged_lepton_id(negated(id))),
{
}

/// A neutrino is exactly a lepton with an even identifier.
pub proof fn lemma_neutrino_characterization(id: int)
    ensures
        neutrino_id(id) <==> (lepton_id(id) && id % 2 == 0),
{
}

/// Every lepton is a neutrino or a charged lepton, never both.
pub proof fn lemma_lepton_partition(id: int)
    ensures
        lepton_id(id) <==> (neutrino_id(id) || charged_lepton_id(id)),
        !(neutrino_id(id) && charged_lepton_id(id)),
{
}

/// The character content of an optional string result, for stating
/// what the lookup functions return.
pub open spec fn str_opt_view(r: Option<&str>) -> Option<Seq<char>> {
    match r {
        Some(s) => Some(s@),
        None => None,
    }
}

/// The integer values of a sequence of identifiers, for stating what
/// the catalog collections hold.
pub open spec fn ids_of(s: Seq<ParticleID>) -> Seq<int> {
    s.map_values(|p: ParticleID| p@)
}

/// The identifier values of a concatenation are the concatenated
/// identifier values.
pub proof fn lemma_ids_of_concat(a: Seq<ParticleID>, b: Seq<ParticleID>)
    ensures
        ids_of(a + b) == ids_of(a) + ids_of(b),
{
    assert(ids_of(a + b) =~= ids_of(a) + ids_of(b));
}

/// Identifier values equal as integers name the same particle.
pub proof fn lemma_view_determines_value(a: ParticleID, b: ParticleID)
    ensures
        (a@ == b@) <==> (a == b),
{
}

/// Taking the anti-particle twice returns the original identifier.
pub proof fn lemma_anti_involution(id: int)
    ensures
        negated(negated(id)) == id,
{
}

/// The sign-cleared identifier is never negative, and an identifier
/// that is already non-negative is left unchanged.
pub proof fn lemma_magnitude_properties(id: int)
    ensures
        magnitude(id) >= 0,
        id >= 0 ==> magnitude(id) == id,
{
}

} // verus!
