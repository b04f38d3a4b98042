//! Bounded unit values: a fleet's troop strength and a tactical formation,
//! together with the fixed formation-matchup coefficient table.

use vstd::prelude::*;

verus! {

/// Greatest troop strength a single fleet can hold.
pub const FLEET_FORCE_MAX: u32 = 100;

/// Greatest formation number a side can choose.
pub const FORMATION_MAX: u8 = 7;

/// A single fleet's troop strength, always in `0 ..= FLEET_FORCE_MAX`.
/// Zero means the fleet is destroyed or absent.
#[derive(Clone, Copy, Debug, PartialEq, Eq, Structural, Hash)]
pub struct FleetForce(pub u32);

impl FleetForce {
    /// The range invariant every accepted force satisfies.
    pub open spec fn wf(self) -> bool {
        self.0 <= FLEET_FORCE_MAX
    }

    /// Accepts a raw value only when it lies in `0 ..= FLEET_FORCE_MAX`.
    pub fn new(inner: u32) -> (r: Option<FleetForce>)
        ensures
            r is Some <==> inner <= FLEET_FORCE_MAX,
            r is Some ==> r->0 == FleetForce(inner) && r->0.wf(),
    {
        if inner <= FLEET_FORCE_MAX {
            Some(FleetForce(inner))
        } else {
            None
        }
    }

    /// The force of a destroyed or absent fleet.
    pub fn zero() -> (r: FleetForce)
        ensures
            r == FleetForce(0u32),
    {
        FleetForce(0)
    }

    /// Whether the fleet is destroyed or absent.
    pub fn is_zero(self) -> (r: bool)
        ensures
            r == (self.0 == 0),
    {
        self.0 == 0
    }

    /// The raw strength value.
    pub fn inner(self) -> (r: u32)
        ensures
            r == self.0,
    {
        self.0
    }
}

/// A tactical stance, always in `0 ..= FORMATION_MAX`.
/// Stance 0 is the degraded stance a side collapses into under heavy attrition.
#[derive(Clone, Copy, Debug, PartialEq, Eq, Structural, Hash)]
pub struct Formation(pub u8);

impl Formation {
    /// The range invariant every accepted formation satisfies.
    pub open spec fn wf(self) -> bool {
        self.0 <= FORMATION_MAX
    }

    /// Accepts a raw value only when it lies in `0 ..= FORMATION_MAX`.
    pub fn new(inner: u8) -> (r: Option<Formation>)
        ensures
            r is Some <==> inner <= FORMATION_MAX,
            r is Some ==> r->0 == Formation(inner) && r->0.wf(),
    {
        if inner <= FORMATION_MAX {
            Some(Formation(inner))
        } else {
            None
        }
    }

    /// The matchup coefficient when this side fights in formation `self`
    /// against an opponent in formation `them`.
    pub fn attack_coef(self, them: Formation) -> (r: u32)
        requires
            self.wf(),
            them.wf(),
        ensures
            r == spec_attack_coef(self.0 as int, them.0 as int),
    {
        let us: u8 = self.0;
        let th: u8 = them.0;
        if us == 0 {
            if th == 0 { 3 } else { 1 }
        } else if us == 1 {
            if th == 0 { 5 } else if th == 1 { 4 } else if th == 2 { 3 } else if th == 3 { 5 }
            else if th == 4 { 4 } else if th == 5 { 2 } else if th == 6 { 2 } else { 4 }
        } else if us == 2 {
            if th == 0 { 5 } else if th == 1 { 3 } else if th == 2 { 2 } else if th == 3 { 3 }
            else if th == 4 { 4 } else if th == 5 { 2 } else if th == 6 { 1 } else { 3 }
        } else if us == 3 {
            if th == 0 { 5 } else if th == 1 { 3 } else if th == 2 { 3 } else if th == 3 { 4 }
            else if th == 4 { 4 } else if th == 5 { 4 } else if th == 6 { 3 } else { 5 }
        } else if us == 4 {
            if th == 0 { 5 } else if th == 1 { 4 } else if th == 2 { 2 } else if th == 3 { 4 }
            else if th == 4 { 5 } else if th == 5 { 4 } else if th == 6 { 5 } else { 5 }
        } else if us == 5 {
            if th == 0 { 5 } else if th == 1 { 4 } else if th == 2 { 3 } else if th == 3 { 3 }
            else if th == 4 { 3 } else if th == 5 { 3 } else if th == 6 { 2 } else { 2 }
        } else if us == 6 {
            if th == 0 { 5 } else if th == 1 { 2 } else if th == 2 { 3 } else if th == 3 { 3 }
            else if th == 4 { 3 } else if th == 5 { 1 } else if th == 6 { 1 } else { 3 }
        } else {
            if th == 0 { 5 } else if th == 1 { 4 } else if th == 2 { 4 } else if th == 3 { 2 }
            else if th == 4 { 5 } else if th == 5 { 5 } else if th == 6 { 3 } else { 5 }
        }
    }
}

/// The fixed 8-by-8 formation-matchup table: the multiplier a side in
/// formation `us` gets against an opponent in formation `them`.
pub open spec fn spec_attack_coef(us: int, them: int) -> u32 {
    if us == 0 {
        if them == 0 { 3u32 } else { 1u32 }
    } else if us == 1 {
        if them == 0 { 5u32 } else if them == 1 { 4u32 } else if them == 2 { 3u32 } else if them == 3 { 5u32 }
        else if them == 4 { 4u32 } else if them == 5 { 2u32 } else if them == 6 { 2u32 } else { 4u32 }
    } else if us == 2 {
        if them == 0 { 5u32 } else if them == 1 { 3u32 } else if them == 2 { 2u32 } else if them == 3 { 3u32 }
        else if them == 4 { 4u32 } else if them == 5 { 2u32 } else if them == 6 { 1u32 } else { 3u32 }
    } else if us == 3 {
        if them == 0 { 5u32 } else if them == 1 { 3u32 } else if them == 2 { 3u32 } else if them == 3 { 4u32 }
        else if them == 4 { 4u32 } else if them == 5 { 4u32 } else if them == 6 { 3u32 } else { 5u32 }
    } else if us == 4 {
        if them == 0 { 5u32 } else if them == 1 { 4u32 } else if them == 2 { 2u32 } else if them == 3 { 4u32 }
        else if them == 4 { 5u32 } else if them == 5 { 4u32 } else if them == 6 { 5u32 } else { 5u32 }
    } else if us == 5 {
        if them == 0 { 5u32 } else if them == 1 { 4u32 } else if them == 2 { 3u32 } else if them == 3 { 3u32 }
        else if them == 4 { 3u32 } else if them == 5 { 3u32 } else if them == 6 { 2u32 } else { 2u32 }
    } else if us == 6 {
        if them == 0 { 5u32 } else if them == 1 { 2u32 } else if them == 2 { 3u32 } else if them == 3 { 3u32 }
        else if them == 4 { 3u32 } else if them == 5 { 1u32 } else if them == 6 { 1u32 } else { 3u32 }
    } else {
        if them == 0 { 5u32 } else if them == 1 { 4u32 } else if them == 2 { 4u32 } else if them == 3 { 2u32 }
        else if them == 4 { 5u32 } else if them == 5 { 5u32 } else if them == 6 { 3u32 } else { 5u32 }
    }
}

/// Every table entry lies in `1 ..= 5`.
pub proof fn lemma_coef_bounds(us: int, them: int)
    requires
        0 <= us <= 7,
        0 <= them <= 7,
    ensures
        1 <= spec_attack_coef(us, them) <= 5,
{
}

/// No formation does worse against a given opponent than the collapsed
/// formation 0 does: row 0 is the elementwise least row of the table.
pub proof fn lemma_coef_row0_least(us: int, them: int)
    requires
        0 <= us <= 7,
        0 <= them <= 7,
    ensures
        spec_attack_coef(0, them) <= spec_attack_coef(us, them),
{
}

} // verus!
