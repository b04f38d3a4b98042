//! A deterministic calculator for one combat round between two fleets of a
//! turn-based strategy game: per-fleet troop strengths, tactical formations,
//! fatigue flags and one special commander modifier go in, attack powers,
//! per-fleet damage and post-battle strengths come out.

pub mod battle;
pub mod parse;
pub mod slots;
pub mod units;
