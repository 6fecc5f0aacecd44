//! Particle identifiers following the Monte Carlo particle numbering
//! convention used in high-energy physics: a signed integer names each
//! particle, its negation names the anti-particle, and fixed numeric
//! ranges classify quarks, leptons, neutrinos and gauge bosons.
//!
//! The catalog modules hold the named identifiers, grouped by physical
//! category, together with the ordered member list of each category.

pub mod anti_gauge_and_higgs_bosons;
pub mod anti_leptons;
pub mod anti_quarks;
pub mod baryons;
pub mod bbbar_mesons;
pub mod bottom_baryons;
pub mod bottom_mesons;
pub mod ccbar_mesons;
pub mod charmed_baryons;
pub mod charmed_mesons;
pub mod diquarks;
pub mod gauge_bosons;
pub mod hadrons;
pub mod higgs_bosons;
pub mod latex;
pub mod leptons;
pub mod light_anti_baryons;
pub mod light_baryons;
pub mod light_isoscalar_mesons;
pub mod light_isovector_mesons;
pub mod light_mesons;
pub mod mesons;
pub mod names;
pub mod particle;
pub mod pentaquarks;
pub mod quarks;
pub mod special_particles;
pub mod strange_baryons;
pub mod strange_mesons;
pub mod susy_anti_particles;
pub mod susy_particles;
pub mod symbols;

pub use particle::ParticleID;
