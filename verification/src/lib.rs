//! Discrete core of a centriolar damage accumulation model of aging:
//! the inducer ledger, potency levels, division outcomes and their
//! random draws, the stages of life by age, tissue profiles, active
//! phenotypes, and the terminal states of niche and organism.
//!
//! Real-valued quantities enter as whole numbers in a unit in which the
//! decision at hand is exact: ages in days or sixteenths of a day,
//! probabilities in parts in 2^24, multipliers in tenths.

pub mod components;
pub mod random;
pub mod inducers;
pub mod development;
pub mod tissues;
pub mod organism;
pub mod aging;
pub mod niche;
