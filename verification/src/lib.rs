//! Ephemeris and calendar computation engine with the traditional
//! symbol systems (stems, branches, five phases) built on top of it.
//!
//! Angles are carried as `i64` micro-degrees and instants as `i64`
//! seconds on the Julian-day axis, so every quantity the engine works
//! with is exact and every algorithm is verified.

pub mod angle;
pub mod calendar;
pub mod ephemeris;
pub mod calculate;
pub mod traits;
pub mod yinyang;
pub mod wuxing;
pub mod heavenly_stem;
pub mod earthly_branch;
pub mod sexagesimal_cycle;
pub mod gan_zhi;
pub mod twelve_stages;
pub mod trigram;
pub mod spirits;
pub mod dates;
pub mod pillars;
pub mod qi_zheng;
pub mod solar_time;

pub use angle::{normalize_degree, get_degree_gap, MICRO_DEG, CIRCLE_MICRO_DEG};
