//! The combat-resolution engine: query validation, effective formations,
//! attack power for both sides, per-fleet damage, and damage application.

use vstd::prelude::*;

use crate::slots::ally_forces_get;
use crate::slots::ally_forces_new;
use crate::slots::ally_forces_push;
use crate::slots::ally_forces_set;
use crate::slots::ally_forces_view;
use crate::slots::enemy_forces_get;
use crate::slots::enemy_forces_new;
use crate::slots::enemy_forces_push;
use crate::slots::enemy_forces_set;
use crate::slots::enemy_forces_view;
use crate::slots::tired_flags_get;
use crate::slots::tired_flags_new;
use crate::slots::tired_flags_push;
use crate::slots::tired_flags_set;
use crate::slots::tired_flags_view;
use crate::slots::AllyFleetForces;
use crate::slots::AllyFleetIsTireds;
use crate::slots::EnemyFleetForces;
use crate::slots::ALLY_FLEET_COUNT;
use crate::slots::ENEMY_FLEET_COUNT;
use crate::units::FleetForce;
use crate::units::Formation;
use crate::units::lemma_coef_bounds;
use crate::units::lemma_coef_row0_least;
use crate::units::spec_attack_coef;
use vstd::arithmetic::div_mod::lemma_div_is_ordered;
use vstd::arithmetic::mul::lemma_mul_nonnegative;

verus! {

/// Least value a side's attack force is clamped to.
pub const ATTACK_FORCE_MIN: u32 = 100;

/// Greatest value a side's attack force is clamped to.
pub const ATTACK_FORCE_MAX: u32 = 1600;

/// A side's attack force clamped into `ATTACK_FORCE_MIN ..= ATTACK_FORCE_MAX`.
pub open spec fn spec_clamp_attack_force(x: int) -> int {
    if x < ATTACK_FORCE_MIN {
        ATTACK_FORCE_MIN as int
    } else if x > ATTACK_FORCE_MAX {
        ATTACK_FORCE_MAX as int
    } else {
        x
    }
}

/// Relies on `num_traits::clamp`: returns `lo` when the input is below it,
/// `hi` when the input is above it, and the input itself otherwise; its
/// debug assertion cannot fire since `lo <= hi` is required.
#[verifier::external_body]
fn clamp_u32(x: u32, lo: u32, hi: u32) -> (r: u32)
    requires
        lo <= hi,
    ensures
        r == (if x < lo { lo } else if x > hi { hi } else { x }),
{
    num_traits::clamp(x, lo, hi)
}

/// Clamps a side's raw attack force into the working range.
pub fn clamp_attack_force(attack_force: u32) -> (r: u32)
    ensures
        r == spec_clamp_attack_force(attack_force as int),
{
    clamp_u32(attack_force, ATTACK_FORCE_MIN, ATTACK_FORCE_MAX)
}

/// Number of non-destroyed fleets among the first `n` slots.
pub open spec fn count_active_upto(s: Seq<FleetForce>, n: int) -> int
    decreases n,
{
    if n <= 0 {
        0
    } else {
        count_active_upto(s, n - 1) + (if s[n - 1].0 != 0 { 1int } else { 0int })
    }
}

/// Total force held by the first `n` slots.
pub open spec fn sum_forces_upto(s: Seq<FleetForce>, n: int) -> int
    decreases n,
{
    if n <= 0 {
        0
    } else {
        sum_forces_upto(s, n - 1) + s[n - 1].0
    }
}

/// Total force held by the non-fatigued fleets among the first `n` slots.
pub open spec fn sum_rested_upto(forces: Seq<FleetForce>, tireds: Seq<bool>, n: int) -> int
    decreases n,
{
    if n <= 0 {
        0
    } else {
        sum_rested_upto(forces, tireds, n - 1)
            + (if tireds[n - 1] { 0int } else { forces[n - 1].0 as int })
    }
}

/// Whether any of the first `n` slots holds a nonzero force.
pub open spec fn has_active_upto(s: Seq<FleetForce>, n: int) -> bool {
    exists|i: int| 0 <= i < n && s[i].0 != 0
}

pub proof fn lemma_count_active_bounds(s: Seq<FleetForce>, n: int)
    requires
        0 <= n,
    ensures
        0 <= count_active_upto(s, n) <= n,
    decreases n,
{
    if n > 0 {
        lemma_count_active_bounds(s, n - 1);
    }
}

pub proof fn lemma_sum_forces_bounds(s: Seq<FleetForce>, n: int)
    requires
        0 <= n <= s.len(),
        forall|i: int| 0 <= i < s.len() ==> (#[trigger] s[i]).wf(),
    ensures
        0 <= sum_forces_upto(s, n) <= 100 * n,
    decreases n,
{
    if n > 0 {
        lemma_sum_forces_bounds(s, n - 1);
    }
}

pub proof fn lemma_sum_rested_bounds(forces: Seq<FleetForce>, tireds: Seq<bool>, n: int)
    requires
        0 <= n <= forces.len(),
        forall|i: int| 0 <= i < forces.len() ==> (#[trigger] forces[i]).wf(),
    ensures
        0 <= sum_rested_upto(forces, tireds, n) <= 100 * n,
    decreases n,
{
    if n > 0 {
        lemma_sum_rested_bounds(forces, tireds, n - 1);
    }
}

/// A side with a surviving fleet fields at least one active fleet.
pub proof fn lemma_active_implies_count(s: Seq<FleetForce>, n: int)
    requires
        0 <= n,
    ensures
        has_active_upto(s, n) ==> count_active_upto(s, n) >= 1,
    decreases n,
{
    lemma_count_active_bounds(s, n);
    if n > 0 && has_active_upto(s, n) {
        lemma_active_implies_count(s, n - 1);
        lemma_count_active_bounds(s, n - 1);
        if s[n - 1].0 == 0 {
            let i = choose|i: int| 0 <= i < n && s[i].0 != 0;
            assert(0 <= i < n - 1 && s[i].0 != 0);
        }
    }
}

/// A side's attack force capped at the clamp ceiling (the collapse test
/// caps it above but not below).
pub open spec fn spec_cap_attack_force(x: int) -> int {
    if x > ATTACK_FORCE_MAX { ATTACK_FORCE_MAX as int } else { x }
}

/// The effective formation of a side that fields `fleet_count` active
/// fleets with raw attack force `attack_force` and chose `formation`:
/// a side whose capped force spread over ten times its active fleets is
/// at most 3 collapses into formation 0, as does a side with no active
/// fleet at all; otherwise the chosen formation stands.
pub open spec fn spec_modify_formation(fleet_count: int, attack_force: int, formation: Formation) -> Formation {
    if fleet_count <= 0 {
        Formation(0)
    } else if spec_cap_attack_force(attack_force) / (10 * fleet_count) <= 3 {
        Formation(0)
    } else {
        formation
    }
}

/// Adjusts a chosen formation for attrition losses.
pub fn modify_formation(fleet_count: usize, attack_force: u32, formation: Formation) -> (r: Formation)
    requires
        10 * fleet_count <= u32::MAX,
    ensures
        r == spec_modify_formation(fleet_count as int, attack_force as int, formation),
{
    if fleet_count == 0 {
        return Formation(0);
    }
    let numer: u32 = if attack_force > ATTACK_FORCE_MAX {
        ATTACK_FORCE_MAX
    } else {
        attack_force
    };
    let denom: u32 = 10 * (fleet_count as u32);
    if numer / denom <= 3 {
        Formation(0)
    } else {
        formation
    }
}

/// A side's attack power before the commander modifier: its clamped attack
/// force in hundreds times the matchup coefficient of the two effective
/// formations.
pub open spec fn spec_attack_raw(attack_force: int, formation_us: Formation, formation_them: Formation) -> int {
    (attack_force / 100) * spec_attack_coef(formation_us.0 as int, formation_them.0 as int)
}

/// Computes a side's attack power before the commander modifier.
pub fn calc_attack_raw(attack_force: u32, formation_us: Formation, formation_them: Formation) -> (r: u32)
    requires
        formation_us.wf(),
        formation_them.wf(),
    ensures
        r == spec_attack_raw(attack_force as int, formation_us, formation_them),
{
    let coef = formation_us.attack_coef(formation_them);
    proof {
        lemma_coef_bounds(formation_us.0 as int, formation_them.0 as int);
        assert((attack_force as int) / 100 * (coef as int) <= (attack_force as int) / 100 * 5)
            by (nonlinear_arith)
            requires
                coef <= 5,
                attack_force >= 0,
        ;
    }
    attack_force / 100 * coef
}

/// The per-fleet damage dealt to a side whose opponent attacks with power
/// `attack_them` while the side spreads it over `fleet_count_us` active
/// fleets, floor-capped at 100.
pub open spec fn spec_damage_per_fleet(attack_them: int, fleet_count_us: int) -> int {
    let d = 100 * attack_them / (12 * fleet_count_us);
    if d > 100 { 100int } else { d }
}

/// Computes the per-fleet damage dealt to a side.
pub fn calc_damage_per_fleet(attack_them: u32, fleet_count_us: usize) -> (r: u32)
    requires
        1 <= fleet_count_us,
        100 * attack_them <= u32::MAX,
        12 * fleet_count_us <= u32::MAX,
    ensures
        r == spec_damage_per_fleet(attack_them as int, fleet_count_us as int),
        r <= 100,
{
    let count: u32 = fleet_count_us as u32;
    let d: u32 = 100 * attack_them / (12 * count);
    if d > 100 { 100 } else { d }
}

/// The force a fleet slot keeps after taking `damage`: saturating
/// subtraction, then the mercy-kill rule that turns a residual of at most
/// 8 into 0.
pub open spec fn spec_damage_fleet(force: FleetForce, damage: int) -> FleetForce {
    let x = if force.0 - damage <= 0 { 0int } else { force.0 - damage };
    if x <= 8 { FleetForce(0) } else { FleetForce(x as u32) }
}

/// The force the garrison keeps after taking `damage`: as a fleet slot,
/// but only a residual strictly below 8 is turned into 0.
pub open spec fn spec_damage_guard(force: FleetForce, damage: int) -> FleetForce {
    let x = if force.0 - damage <= 0 { 0int } else { force.0 - damage };
    if x < 8 { FleetForce(0) } else { FleetForce(x as u32) }
}

/// The ally side of a query: 11 fleet slots, their fatigue flags, and the
/// chosen formation. A fatigued fleet contributes no attack force but
/// still takes damage.
#[derive(Debug)]
pub struct QueryAlly {
    pub fleet_forces: AllyFleetForces,
    pub fleet_is_tireds: AllyFleetIsTireds,
    pub formation: Formation,
}

impl QueryAlly {
    pub open spec fn forces(self) -> Seq<FleetForce> {
        ally_forces_view(self.fleet_forces)
    }

    pub open spec fn tireds(self) -> Seq<bool> {
        tired_flags_view(self.fleet_is_tireds)
    }

    pub open spec fn wf(self) -> bool {
        &&& self.forces().len() == 11
        &&& self.tireds().len() == 11
        &&& forall|i: int| 0 <= i < 11 ==> (#[trigger] self.forces()[i]).wf()
        &&& self.formation.wf()
    }

    pub open spec fn spec_fleet_count(self) -> int {
        count_active_upto(self.forces(), 11)
    }

    pub open spec fn spec_attack_force(self) -> int {
        sum_rested_upto(self.forces(), self.tireds(), 11)
    }

    pub open spec fn spec_is_valid(self) -> bool {
        has_active_upto(self.forces(), 11)
    }

    pub open spec fn spec_formation_modified(self) -> Formation {
        spec_modify_formation(self.spec_fleet_count(), self.spec_attack_force(), self.formation)
    }

    /// Number of fleets still standing.
    pub fn fleet_count(&self) -> (r: usize)
        requires
            self.wf(),
        ensures
            r == self.spec_fleet_count(),
            r <= 11,
    {
        let mut count: usize = 0;
        let mut i: usize = 0;
        while i < ALLY_FLEET_COUNT
            invariant
                self.wf(),
                i <= 11,
                count == count_active_upto(self.forces(), i as int),
                count <= i,
            decreases 11 - i,
        {
            let f = ally_forces_get(&self.fleet_forces, i);
            if !f.is_zero() {
                count += 1;
            }
            i += 1;
        }
        count
    }

    /// Total attack force of the non-fatigued fleets, before clamping.
    pub fn attack_force(&self) -> (r: u32)
        requires
            self.wf(),
        ensures
            r == self.spec_attack_force(),
            r <= 1100,
    {
        let mut sum: u32 = 0;
        let mut i: usize = 0;
        while i < ALLY_FLEET_COUNT
            invariant
                self.wf(),
                i <= 11,
                sum == sum_rested_upto(self.forces(), self.tireds(), i as int),
                sum <= 100 * i,
            decreases 11 - i,
        {
            let tired = tired_flags_get(&self.fleet_is_tireds, i);
            if !tired {
                let f = ally_forces_get(&self.fleet_forces, i);
                sum += f.inner();
            }
            i += 1;
        }
        sum
    }

    /// Total attack force, clamped into the working range.
    pub fn attack_force_clamped(&self) -> (r: u32)
        requires
            self.wf(),
        ensures
            r == spec_clamp_attack_force(self.spec_attack_force()),
    {
        clamp_attack_force(self.attack_force())
    }

    /// The effective formation after the attrition adjustment.
    pub fn formation_modified(&self) -> (r: Formation)
        requires
            self.wf(),
        ensures
            r == self.spec_formation_modified(),
    {
        modify_formation(self.fleet_count(), self.attack_force(), self.formation)
    }

    /// Whether at least one fleet survives.
    pub fn is_valid(&self) -> (r: bool)
        requires
            self.wf(),
        ensures
            r == self.spec_is_valid(),
    {
        let mut i: usize = 0;
        while i < ALLY_FLEET_COUNT
            invariant
                self.wf(),
                i <= 11,
                !has_active_upto(self.forces(), i as int),
            decreases 11 - i,
        {
            let f = ally_forces_get(&self.fleet_forces, i);
            if !f.is_zero() {
                assert(self.forces()[i as int].0 != 0);
                return true;
            }
            i += 1;
        }
        false
    }
}

/// Builds the default ally side: slot 0 at full force, every other slot
/// empty, no fatigue, formation 1.
fn default_query_ally() -> (r: QueryAlly)
    ensures
        r.wf(),
        r.forces()[0] == FleetForce(100u32),
        forall|i: int| 1 <= i < 11 ==> r.forces()[i] == FleetForce(0u32),
        forall|i: int| 0 <= i < 11 ==> !r.tireds()[i],
        r.formation == Formation(1u8),
{
    let mut fleet_forces = ally_forces_new();
    ally_forces_push(&mut fleet_forces, FleetForce(100));
    let mut i: usize = 1;
    while i < ALLY_FLEET_COUNT
        invariant
            1 <= i <= 11,
            ally_forces_view(fleet_forces).len() == i,
            ally_forces_view(fleet_forces)[0] == FleetForce(100u32),
            forall|j: int| 1 <= j < i ==> ally_forces_view(fleet_forces)[j] == FleetForce(0u32),
        decreases 11 - i,
    {
        ally_forces_push(&mut fleet_forces, FleetForce(0));
        i += 1;
    }
    let mut fleet_is_tireds = tired_flags_new();
    let mut k: usize = 0;
    while k < ALLY_FLEET_COUNT
        invariant
            k <= 11,
            tired_flags_view(fleet_is_tireds).len() == k,
            forall|j: int| 0 <= j < k ==> !tired_flags_view(fleet_is_tireds)[j],
        decreases 11 - k,
    {
        tired_flags_push(&mut fleet_is_tireds, false);
        k += 1;
    }
    QueryAlly { fleet_forces, fleet_is_tireds, formation: Formation(1) }
}

impl Default for QueryAlly {
    /// Slot 0 at full force, every other slot empty, no fatigue, formation 1.
    fn default() -> (r: Self)
        ensures
            r.wf(),
            r.forces()[0] == FleetForce(100u32),
            forall|i: int| 1 <= i < 11 ==> r.forces()[i] == FleetForce(0u32),
            forall|i: int| 0 <= i < 11 ==> !r.tireds()[i],
            r.formation == Formation(1u8),
    {
        default_query_ally()
    }
}

/// The enemy side of a query: 15 fleet slots, one stationary garrison not
/// subject to fatigue, the chosen formation, and the commander modifier.
#[derive(Debug)]
pub struct QueryEnemy {
    pub fleet_forces: EnemyFleetForces,
    pub guard_force: FleetForce,
    pub formation: Formation,
    pub has_yang: bool,
}

impl QueryEnemy {
    pub open spec fn forces(self) -> Seq<FleetForce> {
        enemy_forces_view(self.fleet_forces)
    }

    pub open spec fn wf(self) -> bool {
        &&& self.forces().len() == 15
        &&& forall|i: int| 0 <= i < 15 ==> (#[trigger] self.forces()[i]).wf()
        &&& self.guard_force.wf()
        &&& self.formation.wf()
    }

    pub open spec fn spec_fleet_count(self) -> int {
        count_active_upto(self.forces(), 15) + (if self.guard_force.0 != 0 { 1int } else { 0int })
    }

    pub open spec fn spec_attack_force(self) -> int {
        sum_forces_upto(self.forces(), 15) + self.guard_force.0
    }

    pub open spec fn spec_is_valid(self) -> bool {
        self.guard_force.0 != 0 || has_active_upto(self.forces(), 15)
    }

    pub open spec fn spec_formation_modified(self) -> Formation {
        spec_modify_formation(self.spec_fleet_count(), self.spec_attack_force(), self.formation)
    }

    /// Number of fleets still standing, the garrison included.
    pub fn fleet_count(&self) -> (r: usize)
        requires
            self.wf(),
        ensures
            r == self.spec_fleet_count(),
            r <= 16,
    {
        let mut count: usize = 0;
        let mut i: usize = 0;
        while i < ENEMY_FLEET_COUNT
            invariant
                self.wf(),
                i <= 15,
                count == count_active_upto(self.forces(), i as int),
                count <= i,
            decreases 15 - i,
        {
            let f = enemy_forces_get(&self.fleet_forces, i);
            if !f.is_zero() {
                count += 1;
            }
            i += 1;
        }
        if !self.guard_force.is_zero() {
            count += 1;
        }
        count
    }

    /// Total attack force, garrison included, before clamping.
    pub fn attack_force(&self) -> (r: u32)
        requires
            self.wf(),
        ensures
            r == self.spec_attack_force(),
            r <= 1600,
    {
        let mut sum: u32 = 0;
        let mut i: usize = 0;
        while i < ENEMY_FLEET_COUNT
            invariant
                self.wf(),
                i <= 15,
                sum == sum_forces_upto(self.forces(), i as int),
                sum <= 100 * i,
            decreases 15 - i,
        {
            let f = enemy_forces_get(&self.fleet_forces, i);
            sum += f.inner();
            i += 1;
        }
        sum + self.guard_force.inner()
    }

    /// Total attack force, clamped into the working range.
    pub fn attack_force_clamped(&self) -> (r: u32)
        requires
            self.wf(),
        ensures
            r == spec_clamp_attack_force(self.spec_attack_force()),
    {
        clamp_attack_force(self.attack_force())
    }

    /// The effective formation after the attrition adjustment.
    pub fn formation_modified(&self) -> (r: Formation)
        requires
            self.wf(),
        ensures
            r == self.spec_formation_modified(),
    {
        modify_formation(self.fleet_count(), self.attack_force(), self.formation)
    }

    /// Whether the garrison or at least one fleet survives.
    pub fn is_valid(&self) -> (r: bool)
        requires
            self.wf(),
        ensures
            r == self.spec_is_valid(),
    {
        if !self.guard_force.is_zero() {
            return true;
        }
        let mut i: usize = 0;
        while i < ENEMY_FLEET_COUNT
            invariant
                self.wf(),
                i <= 15,
                !has_active_upto(self.forces(), i as int),
            decreases 15 - i,
        {
            let f = enemy_forces_get(&self.fleet_forces, i);
            if !f.is_zero() {
                assert(self.forces()[i as int].0 != 0);
                return true;
            }
            i += 1;
        }
        false
    }
}

/// Builds the default enemy side: every fleet slot empty, the garrison at
/// full force, formation 1, the commander modifier off.
fn default_query_enemy() -> (r: QueryEnemy)
    ensures
        r.wf(),
        forall|i: int| 0 <= i < 15 ==> r.forces()[i] == FleetForce(0u32),
        r.guard_force == FleetForce(100u32),
        r.formation == Formation(1u8),
        !r.has_yang,
{
    let mut fleet_forces = enemy_forces_new();
    let mut i: usize = 0;
    while i < ENEMY_FLEET_COUNT
        invariant
            i <= 15,
            enemy_forces_view(fleet_forces).len() == i,
            forall|j: int| 0 <= j < i ==> enemy_forces_view(fleet_forces)[j] == FleetForce(0u32),
        decreases 15 - i,
    {
        enemy_forces_push(&mut fleet_forces, FleetForce(0));
        i += 1;
    }
    QueryEnemy {
        fleet_forces,
        guard_force: FleetForce(100),
        formation: Formation(1),
        has_yang: false,
    }
}

impl Default for QueryEnemy {
    /// Every fleet slot empty, garrison at full force, formation 1,
    /// commander modifier off.
    fn default() -> (r: Self)
        ensures
            r.wf(),
            forall|i: int| 0 <= i < 15 ==> r.forces()[i] == FleetForce(0u32),
            r.guard_force == FleetForce(100u32),
            r.formation == Formation(1u8),
            !r.has_yang,
    {
        default_query_enemy()
    }
}

/// One combat query: the ally side and the enemy side. The presentation
/// layer edits it field by field through the accessors below.
#[derive(Debug)]
pub struct Query {
    pub ally: QueryAlly,
    pub enemy: QueryEnemy,
}

impl Query {
    pub open spec fn wf(self) -> bool {
        self.ally.wf() && self.enemy.wf()
    }

    /// A query is worth simulating only when both sides still field force.
    pub open spec fn spec_is_valid(self) -> bool {
        self.ally.spec_is_valid() && self.enemy.spec_is_valid()
    }

    pub fn ally_fleet_force(&self, idx: usize) -> (r: FleetForce)
        requires
            self.wf(),
            idx < ALLY_FLEET_COUNT,
        ensures
            r == self.ally.forces()[idx as int],
    {
        ally_forces_get(&self.ally.fleet_forces, idx)
    }

    pub fn set_ally_fleet_force(&mut self, idx: usize, fleet_force: FleetForce)
        requires
            old(self).wf(),
            idx < ALLY_FLEET_COUNT,
            fleet_force.wf(),
        ensures
            final(self).wf(),
            final(self).ally.forces() == old(self).ally.forces().update(idx as int, fleet_force),
            final(self).ally.tireds() == old(self).ally.tireds(),
            final(self).ally.formation == old(self).ally.formation,
            final(self).enemy == old(self).enemy,
    {
        ally_forces_set(&mut self.ally.fleet_forces, idx, fleet_force);
    }

    pub fn ally_fleet_is_tired(&self, idx: usize) -> (r: bool)
        requires
            self.wf(),
            idx < ALLY_FLEET_COUNT,
        ensures
            r == self.ally.tireds()[idx as int],
    {
        tired_flags_get(&self.ally.fleet_is_tireds, idx)
    }

    pub fn set_ally_fleet_is_tired(&mut self, idx: usize, is_tired: bool)
        requires
            old(self).wf(),
            idx < ALLY_FLEET_COUNT,
        ensures
            final(self).wf(),
            final(self).ally.tireds() == old(self).ally.tireds().update(idx as int, is_tired),
            final(self).ally.forces() == old(self).ally.forces(),
            final(self).ally.formation == old(self).ally.formation,
            final(self).enemy == old(self).enemy,
    {
        tired_flags_set(&mut self.ally.fleet_is_tireds, idx, is_tired);
    }

    pub fn ally_formation(&self) -> (r: Formation)
        ensures
            r == self.ally.formation,
    {
        self.ally.formation
    }

    pub fn set_ally_formation(&mut self, formation: Formation)
        requires
            old(self).wf(),
            formation.wf(),
        ensures
            final(self).wf(),
            final(self).ally.formation == formation,
            final(self).ally.forces() == old(self).ally.forces(),
            final(self).ally.tireds() == old(self).ally.tireds(),
            final(self).enemy == old(self).enemy,
    {
        self.ally.formation = formation;
    }

    pub fn enemy_fleet_force(&self, idx: usize) -> (r: FleetForce)
        requires
            self.wf(),
            idx < ENEMY_FLEET_COUNT,
        ensures
            r == self.enemy.forces()[idx as int],
    {
        enemy_forces_get(&self.enemy.fleet_forces, idx)
    }

    pub fn set_enemy_fleet_force(&mut self, idx: usize, fleet_force: FleetForce)
        requires
            old(self).wf(),
            idx < ENEMY_FLEET_COUNT,
            fleet_force.wf(),
        ensures
            final(self).wf(),
            final(self).enemy.forces() == old(self).enemy.forces().update(idx as int, fleet_force),
            final(self).enemy.guard_force == old(self).enemy.guard_force,
            final(self).enemy.formation == old(self).enemy.formation,
            final(self).enemy.has_yang == old(self).enemy.has_yang,
            final(self).ally == old(self).ally,
    {
        enemy_forces_set(&mut self.enemy.fleet_forces, idx, fleet_force);
    }

    pub fn enemy_guard_force(&self) -> (r: FleetForce)
        ensures
            r == self.enemy.guard_force,
    {
        self.enemy.guard_force
    }

    pub fn set_enemy_guard_force(&mut self, fleet_force: FleetForce)
        requires
            old(self).wf(),
            fleet_force.wf(),
        ensures
            final(self).wf(),
            final(self).enemy.guard_force == fleet_force,
            final(self).enemy.forces() == old(self).enemy.forces(),
            final(self).enemy.formation == old(self).enemy.formation,
            final(self).enemy.has_yang == old(self).enemy.has_yang,
            final(self).ally == old(self).ally,
    {
        self.enemy.guard_force = fleet_force;
    }

    pub fn enemy_formation(&self) -> (r: Formation)
        ensures
            r == self.enemy.formation,
    {
        self.enemy.formation
    }

    pub fn set_enemy_formation(&mut self, formation: Formation)
        requires
            old(self).wf(),
            formation.wf(),
        ensures
            final(self).wf(),
            final(self).enemy.formation == formation,
            final(self).enemy.forces() == old(self).enemy.forces(),
            final(self).enemy.guard_force == old(self).enemy.guard_force,
            final(self).enemy.has_yang == old(self).enemy.has_yang,
            final(self).ally == old(self).ally,
    {
        self.enemy.formation = formation;
    }

    pub fn enemy_has_yang(&self) -> (r: bool)
        ensures
            r == self.enemy.has_yang,
    {
        self.enemy.has_yang
    }

    pub fn set_enemy_has_yang(&mut self, has_yang: bool)
        requires
            old(self).wf(),
        ensures
            final(self).wf(),
            final(self).enemy.has_yang == has_yang,
            final(self).enemy.forces() == old(self).enemy.forces(),
            final(self).enemy.guard_force == old(self).enemy.guard_force,
            final(self).enemy.formation == old(self).enemy.formation,
            final(self).ally == old(self).ally,
    {
        self.enemy.has_yang = has_yang;
    }

    /// Whether the query passes the validity gate of the engine.
    pub fn is_valid(&self) -> (r: bool)
        requires
            self.wf(),
        ensures
            r == self.spec_is_valid(),
    {
        self.ally.is_valid() && self.enemy.is_valid()
    }
}

impl Query {
    /// The ally side's effective formation.
    pub open spec fn spec_ally_eff(self) -> Formation {
        self.ally.spec_formation_modified()
    }

    /// The enemy side's effective formation.
    pub open spec fn spec_enemy_eff(self) -> Formation {
        self.enemy.spec_formation_modified()
    }

    /// The commander modifier bites unless the ally chose formation 5;
    /// the test uses the chosen formation, not the effective one.
    pub open spec fn spec_yang_applies(self) -> bool {
        self.enemy.has_yang && self.ally.formation != Formation(5u8)
    }

    /// The ally side's attack power before the commander modifier.
    pub open spec fn spec_ally_attack_raw(self) -> int {
        spec_attack_raw(
            spec_clamp_attack_force(self.ally.spec_attack_force()),
            self.spec_ally_eff(),
            self.spec_enemy_eff(),
        )
    }

    /// The enemy side's attack power before the commander modifier.
    pub open spec fn spec_enemy_attack_raw(self) -> int {
        spec_attack_raw(
            spec_clamp_attack_force(self.enemy.spec_attack_force()),
            self.spec_enemy_eff(),
            self.spec_ally_eff(),
        )
    }

    /// The ally side's final attack power: halved plus one when the
    /// commander modifier bites.
    pub open spec fn spec_ally_attack(self) -> int {
        if self.spec_yang_applies() {
            self.spec_ally_attack_raw() / 2 + 1
        } else {
            self.spec_ally_attack_raw()
        }
    }

    /// The enemy side's final attack power: raised by a flat 10 when the
    /// commander modifier bites.
    pub open spec fn spec_enemy_attack(self) -> int {
        if self.spec_yang_applies() {
            self.spec_enemy_attack_raw() + 10
        } else {
            self.spec_enemy_attack_raw()
        }
    }

    /// Per-fleet damage the ally side takes.
    pub open spec fn spec_ally_damage(self) -> int {
        spec_damage_per_fleet(self.spec_enemy_attack(), self.ally.spec_fleet_count())
    }

    /// Per-fleet damage the enemy side takes.
    pub open spec fn spec_enemy_damage(self) -> int {
        spec_damage_per_fleet(self.spec_ally_attack(), self.enemy.spec_fleet_count())
    }
}

impl Default for Query {
    /// The default ally side against the default enemy side.
    fn default() -> (r: Self)
        ensures
            r.wf(),
            r.ally.forces()[0] == FleetForce(100u32),
            forall|i: int| 1 <= i < 11 ==> r.ally.forces()[i] == FleetForce(0u32),
            forall|i: int| 0 <= i < 11 ==> !r.ally.tireds()[i],
            r.ally.formation == Formation(1u8),
            forall|i: int| 0 <= i < 15 ==> r.enemy.forces()[i] == FleetForce(0u32),
            r.enemy.guard_force == FleetForce(100u32),
            r.enemy.formation == Formation(1u8),
            !r.enemy.has_yang,
    {
        Query { ally: default_query_ally(), enemy: default_query_enemy() }
    }
}

/// Computes both sides' final attack powers, the commander modifier
/// already applied.
pub fn calc_attacks(query: &Query) -> (r: (u32, u32))
    requires
        query.wf(),
    ensures
        r.0 == query.spec_ally_attack(),
        r.1 == query.spec_enemy_attack(),
        r.0 <= 90,
        r.1 <= 90,
{
    let ally_attack_force = query.ally.attack_force_clamped();
    let ally_formation = query.ally.formation_modified();

    let enemy_attack_force = query.enemy.attack_force_clamped();
    let enemy_formation = query.enemy.formation_modified();

    let mut ally_attack = calc_attack_raw(ally_attack_force, ally_formation, enemy_formation);
    let mut enemy_attack = calc_attack_raw(enemy_attack_force, enemy_formation, ally_formation);

    proof {
        lemma_coef_bounds(ally_formation.0 as int, enemy_formation.0 as int);
        lemma_coef_bounds(enemy_formation.0 as int, ally_formation.0 as int);
        let qa = (ally_attack_force as int) / 100;
        let ka = spec_attack_coef(ally_formation.0 as int, enemy_formation.0 as int) as int;
        assert(qa * ka <= 80) by (nonlinear_arith)
            requires
                0 <= qa <= 16,
                0 <= ka <= 5,
        ;
        let qe = (enemy_attack_force as int) / 100;
        let ke = spec_attack_coef(enemy_formation.0 as int, ally_formation.0 as int) as int;
        assert(qe * ke <= 80) by (nonlinear_arith)
            requires
                0 <= qe <= 16,
                0 <= ke <= 5,
        ;
    }

    if query.enemy.has_yang && query.ally.formation.0 != 5 {
        ally_attack = ally_attack / 2 + 1;
        enemy_attack = enemy_attack + 10;
    }

    (ally_attack, enemy_attack)
}

/// Applies `damage_per_fleet` to every ally fleet slot and returns the
/// surviving forces.
pub fn damage_ally(fleet_forces: &AllyFleetForces, damage_per_fleet: u32) -> (r: AllyFleetForces)
    requires
        ally_forces_view(*fleet_forces).len() == 11,
        forall|i: int| 0 <= i < 11 ==> (#[trigger] ally_forces_view(*fleet_forces)[i]).wf(),
    ensures
        ally_forces_view(r).len() == 11,
        forall|i: int| 0 <= i < 11 ==> ally_forces_view(r)[i] == spec_damage_fleet(
            ally_forces_view(*fleet_forces)[i],
            damage_per_fleet as int,
        ),
        forall|i: int| 0 <= i < 11 ==> (#[trigger] ally_forces_view(r)[i]).wf(),
{
    let mut out = ally_forces_new();
    let mut i: usize = 0;
    while i < ALLY_FLEET_COUNT
        invariant
            ally_forces_view(*fleet_forces).len() == 11,
            forall|k: int| 0 <= k < 11 ==> (#[trigger] ally_forces_view(*fleet_forces)[k]).wf(),
            i <= 11,
            ally_forces_view(out).len() == i,
            forall|j: int| 0 <= j < i ==> ally_forces_view(out)[j] == spec_damage_fleet(
                ally_forces_view(*fleet_forces)[j],
                damage_per_fleet as int,
            ),
        decreases 11 - i,
    {
        let f = ally_forces_get(fleet_forces, i);
        let x: u32 = if f.inner() >= damage_per_fleet {
            f.inner() - damage_per_fleet
        } else {
            0
        };
        let x: u32 = if x <= 8 { 0 } else { x };
        ally_forces_push(&mut out, FleetForce(x));
        i += 1;
    }
    proof {
        assert forall|i: int| 0 <= i < 11 implies (#[trigger] ally_forces_view(out)[i]).wf() by {
            assert(ally_forces_view(*fleet_forces)[i].wf());
        }
    }
    out
}

/// Applies `damage_per_fleet` to every enemy fleet slot and to the
/// garrison, and returns the surviving forces; the garrison keeps a
/// residual of exactly 8 that a fleet slot would lose.
pub fn damage_enemy(fleet_forces: &EnemyFleetForces, guard_force: FleetForce, damage_per_fleet: u32) -> (r: (
    EnemyFleetForces,
    FleetForce,
))
    requires
        enemy_forces_view(*fleet_forces).len() == 15,
        forall|i: int| 0 <= i < 15 ==> (#[trigger] enemy_forces_view(*fleet_forces)[i]).wf(),
        guard_force.wf(),
    ensures
        enemy_forces_view(r.0).len() == 15,
        forall|i: int| 0 <= i < 15 ==> enemy_forces_view(r.0)[i] == spec_damage_fleet(
            enemy_forces_view(*fleet_forces)[i],
            damage_per_fleet as int,
        ),
        forall|i: int| 0 <= i < 15 ==> (#[trigger] enemy_forces_view(r.0)[i]).wf(),
        r.1 == spec_damage_guard(guard_force, damage_per_fleet as int),
        r.1.wf(),
{
    let mut out = enemy_forces_new();
    let mut i: usize = 0;
    while i < ENEMY_FLEET_COUNT
        invariant
            enemy_forces_view(*fleet_forces).len() == 15,
            forall|k: int| 0 <= k < 15 ==> (#[trigger] enemy_forces_view(*fleet_forces)[k]).wf(),
            i <= 15,
            enemy_forces_view(out).len() == i,
            forall|j: int| 0 <= j < i ==> enemy_forces_view(out)[j] == spec_damage_fleet(
                enemy_forces_view(*fleet_forces)[j],
                damage_per_fleet as int,
            ),
        decreases 15 - i,
    {
        let f = enemy_forces_get(fleet_forces, i);
        let x: u32 = if f.inner() >= damage_per_fleet {
            f.inner() - damage_per_fleet
        } else {
            0
        };
        let x: u32 = if x <= 8 { 0 } else { x };
        enemy_forces_push(&mut out, FleetForce(x));
        i += 1;
    }
    proof {
        assert forall|i: int| 0 <= i < 15 implies (#[trigger] enemy_forces_view(out)[i]).wf() by {
            assert(enemy_forces_view(*fleet_forces)[i].wf());
        }
    }
    let g: u32 = if guard_force.inner() >= damage_per_fleet {
        guard_force.inner() - damage_per_fleet
    } else {
        0
    };
    let g: u32 = if g < 8 { 0 } else { g };
    (out, FleetForce(g))
}

/// One side of a finished battle report.
#[derive(Debug)]
pub struct ReportAlly {
    pub formation: Formation,
    pub damage_per_fleet: u32,
    pub fleet_forces: AllyFleetForces,
}

/// The enemy side of a finished battle report, the garrison included.
#[derive(Debug)]
pub struct ReportEnemy {
    pub formation: Formation,
    pub damage_per_fleet: u32,
    pub fleet_forces: EnemyFleetForces,
    pub guard_force: FleetForce,
}

/// The outcome of one combat round: per side the effective formation, the
/// per-fleet damage taken, and the post-battle forces. Produced fresh by
/// each simulation call and read-only afterwards.
#[derive(Debug)]
pub struct Report {
    pub ally: ReportAlly,
    pub enemy: ReportEnemy,
}

impl Report {
    /// Every reported force lies in range and both formations are valid.
    pub open spec fn wf(self) -> bool {
        &&& self.ally.formation.wf()
        &&& self.ally.damage_per_fleet <= 100
        &&& ally_forces_view(self.ally.fleet_forces).len() == 11
        &&& forall|i: int|
            0 <= i < 11 ==> (#[trigger] ally_forces_view(self.ally.fleet_forces)[i]).wf()
        &&& self.enemy.formation.wf()
        &&& self.enemy.damage_per_fleet <= 100
        &&& enemy_forces_view(self.enemy.fleet_forces).len() == 15
        &&& forall|i: int|
            0 <= i < 15 ==> (#[trigger] enemy_forces_view(self.enemy.fleet_forces)[i]).wf()
        &&& self.enemy.guard_force.wf()
    }

    pub fn ally_formation(&self) -> (r: Formation)
        ensures
            r == self.ally.formation,
    {
        self.ally.formation
    }

    pub fn ally_damage_per_fleet(&self) -> (r: u32)
        ensures
            r == self.ally.damage_per_fleet,
    {
        self.ally.damage_per_fleet
    }

    pub fn ally_fleet_force(&self, idx: usize) -> (r: FleetForce)
        requires
            self.wf(),
            idx < ALLY_FLEET_COUNT,
        ensures
            r == ally_forces_view(self.ally.fleet_forces)[idx as int],
    {
        ally_forces_get(&self.ally.fleet_forces, idx)
    }

    pub fn enemy_formation(&self) -> (r: Formation)
        ensures
            r == self.enemy.formation,
    {
        self.enemy.formation
    }

    pub fn enemy_damage_per_fleet(&self) -> (r: u32)
        ensures
            r == self.enemy.damage_per_fleet,
    {
        self.enemy.damage_per_fleet
    }

    pub fn enemy_fleet_force(&self, idx: usize) -> (r: FleetForce)
        requires
            self.wf(),
            idx < ENEMY_FLEET_COUNT,
        ensures
            r == enemy_forces_view(self.enemy.fleet_forces)[idx as int],
    {
        enemy_forces_get(&self.enemy.fleet_forces, idx)
    }

    pub fn enemy_guard_force(&self) -> (r: FleetForce)
        ensures
            r == self.enemy.guard_force,
    {
        self.enemy.guard_force
    }
}

/// Resolves one combat round. Returns `None` exactly when the query fails
/// the validity gate; otherwise the report carries both sides' effective
/// formations, per-fleet damage, and post-battle forces, all in range.
pub fn battle_simulate(query: &Query) -> (r: Option<Report>)
    requires
        query.wf(),
    ensures
        r is Some <==> query.spec_is_valid(),
        r is Some ==> (r->0).wf(),
        r is Some ==> (r->0).ally.formation == query.spec_ally_eff(),
        r is Some ==> (r->0).ally.damage_per_fleet == query.spec_ally_damage(),
        r is Some ==> forall|i: int|
            0 <= i < 11 ==> ally_forces_view((r->0).ally.fleet_forces)[i] == spec_damage_fleet(
                query.ally.forces()[i],
                query.spec_ally_damage(),
            ),
        r is Some ==> (r->0).enemy.formation == query.spec_enemy_eff(),
        r is Some ==> (r->0).enemy.damage_per_fleet == query.spec_enemy_damage(),
        r is Some ==> forall|i: int|
            0 <= i < 15 ==> enemy_forces_view((r->0).enemy.fleet_forces)[i] == spec_damage_fleet(
                query.enemy.forces()[i],
                query.spec_enemy_damage(),
            ),
        r is Some ==> (r->0).enemy.guard_force == spec_damage_guard(
            query.enemy.guard_force,
            query.spec_enemy_damage(),
        ),
{
    if !query.is_valid() {
        return None;
    }

    let ally_formation = query.ally.formation_modified();
    let enemy_formation = query.enemy.formation_modified();

    let (ally_attack, enemy_attack) = calc_attacks(query);

    let ally_count = query.ally.fleet_count();
    let enemy_count = query.enemy.fleet_count();
    proof {
        lemma_active_implies_count(query.ally.forces(), 11);
        lemma_active_implies_count(query.enemy.forces(), 15);
        lemma_count_active_bounds(query.enemy.forces(), 15);
    }

    let ally_damage_per_fleet = calc_damage_per_fleet(enemy_attack, ally_count);
    let enemy_damage_per_fleet = calc_damage_per_fleet(ally_attack, enemy_count);

    let ally_fleet_forces = damage_ally(&query.ally.fleet_forces, ally_damage_per_fleet);
    let (enemy_fleet_forces, enemy_guard_force) = damage_enemy(
        &query.enemy.fleet_forces,
        query.enemy.guard_force,
        enemy_damage_per_fleet,
    );

    Some(
        Report {
            ally: ReportAlly {
                formation: ally_formation,
                damage_per_fleet: ally_damage_per_fleet,
                fleet_forces: ally_fleet_forces,
            },
            enemy: ReportEnemy {
                formation: enemy_formation,
                damage_per_fleet: enemy_damage_per_fleet,
                fleet_forces: enemy_fleet_forces,
                guard_force: enemy_guard_force,
            },
        },
    )
}

/// A side's pre-modifier attack power, written out as a function of its
/// raw attack force, its active fleet count, its chosen formation and the
/// opponent's effective formation.
pub open spec fn spec_side_attack_raw(force: int, count: int, chosen: Formation, opp_eff: Formation) -> int {
    spec_attack_raw(
        spec_clamp_attack_force(force),
        spec_modify_formation(count, force, chosen),
        opp_eff,
    )
}

/// A pre-modifier attack power is never negative.
pub proof fn lemma_side_attack_raw_nonneg(force: int, count: int, chosen: Formation, opp_eff: Formation)
    requires
        0 <= force,
    ensures
        0 <= spec_side_attack_raw(force, count, chosen, opp_eff),
{
    let c = spec_clamp_attack_force(force);
    let e = spec_modify_formation(count, force, chosen);
    lemma_mul_nonnegative(c / 100, spec_attack_coef(e.0 as int, opp_eff.0 as int) as int);
}

/// Raising a side's raw attack force, with its active fleet count, its
/// chosen formation and the opponent's effective formation unchanged,
/// never lowers its pre-modifier attack power. The collapse test may flip
/// from formation 0 to the chosen formation as the force grows, and no
/// formation does worse than formation 0 against a fixed opponent.
pub proof fn lemma_side_attack_raw_monotone(f1: int, f2: int, count: int, chosen: Formation, opp_eff: Formation)
    requires
        0 <= f1 <= f2,
        1 <= count,
        chosen.wf(),
        opp_eff.wf(),
    ensures
        spec_side_attack_raw(f1, count, chosen, opp_eff) <= spec_side_attack_raw(
            f2,
            count,
            chosen,
            opp_eff,
        ),
{
    let c1 = spec_clamp_attack_force(f1);
    let c2 = spec_clamp_attack_force(f2);
    assert(100 <= c1 <= c2 <= 1600);
    lemma_div_is_ordered(c1, c2, 100);
    lemma_div_is_ordered(spec_cap_attack_force(f1), spec_cap_attack_force(f2), 10 * count);
    let e1 = spec_modify_formation(count, f1, chosen);
    let e2 = spec_modify_formation(count, f2, chosen);
    let k1 = spec_attack_coef(e1.0 as int, opp_eff.0 as int) as int;
    let k2 = spec_attack_coef(e2.0 as int, opp_eff.0 as int) as int;
    if e1 == e2 {
        assert(k1 == k2);
    } else {
        assert(e1 == Formation(0u8) && e2 == chosen);
        lemma_coef_row0_least(e2.0 as int, opp_eff.0 as int);
    }
    let q1 = c1 / 100;
    let q2 = c2 / 100;
    assert(q1 * k1 <= q2 * k2) by (nonlinear_arith)
        requires
            0 <= q1 <= q2,
            0 <= k1 <= k2,
    ;
}

/// A stronger final attack never inflicts less per-fleet damage.
pub proof fn lemma_damage_per_fleet_monotone(a1: int, a2: int, count: int)
    requires
        0 <= a1 <= a2,
        1 <= count,
    ensures
        spec_damage_per_fleet(a1, count) <= spec_damage_per_fleet(a2, count),
{
    lemma_div_is_ordered(100 * a1, 100 * a2, 12 * count);
}

/// More damage never leaves a fleet slot stronger, and a slot already
/// wiped out stays wiped out.
pub proof fn lemma_damage_fleet_monotone(f: FleetForce, d1: int, d2: int)
    requires
        0 <= d1 <= d2,
    ensures
        spec_damage_fleet(f, d2).0 <= spec_damage_fleet(f, d1).0,
        spec_damage_fleet(f, d1).0 == 0 ==> spec_damage_fleet(f, d2).0 == 0,
{
}

/// More damage never leaves the garrison stronger, and a garrison already
/// wiped out stays wiped out.
pub proof fn lemma_damage_guard_monotone(f: FleetForce, d1: int, d2: int)
    requires
        0 <= d1 <= d2,
    ensures
        spec_damage_guard(f, d2).0 <= spec_damage_guard(f, d1).0,
        spec_damage_guard(f, d1).0 == 0 ==> spec_damage_guard(f, d2).0 == 0,
{
}

/// Raising the enemy's total attack force, all else equal — the ally side
/// unchanged, the enemy's active fleet count, chosen formation and
/// commander flag unchanged — never lowers the per-fleet damage the ally
/// takes, and an ally slot that was wiped out stays wiped out.
pub proof fn lemma_ally_damage_monotone(q1: Query, q2: Query)
    requires
        q1.wf(),
        q2.wf(),
        q1.ally.spec_is_valid(),
        q2.ally == q1.ally,
        q2.enemy.formation == q1.enemy.formation,
        q2.enemy.has_yang == q1.enemy.has_yang,
        q1.enemy.spec_attack_force() <= q2.enemy.spec_attack_force(),
        q2.enemy.spec_fleet_count() == q1.enemy.spec_fleet_count(),
        1 <= q1.enemy.spec_fleet_count(),
    ensures
        q1.spec_ally_damage() <= q2.spec_ally_damage(),
        forall|i: int|
            0 <= i < 11 ==> (spec_damage_fleet(q1.ally.forces()[i], q1.spec_ally_damage()).0 == 0
                ==> spec_damage_fleet(q1.ally.forces()[i], q2.spec_ally_damage()).0 == 0),
{
    lemma_active_implies_count(q1.ally.forces(), 11);
    lemma_sum_forces_bounds(q1.enemy.forces(), 15);
    lemma_sum_forces_bounds(q2.enemy.forces(), 15);
    assert(q1.spec_ally_eff() == q2.spec_ally_eff());
    lemma_side_attack_raw_nonneg(
        q1.enemy.spec_attack_force(),
        q1.enemy.spec_fleet_count(),
        q1.enemy.formation,
        q1.spec_ally_eff(),
    );
    lemma_side_attack_raw_monotone(
        q1.enemy.spec_attack_force(),
        q2.enemy.spec_attack_force(),
        q1.enemy.spec_fleet_count(),
        q1.enemy.formation,
        q1.spec_ally_eff(),
    );
    assert(q1.spec_enemy_attack_raw() <= q2.spec_enemy_attack_raw());
    assert(0 <= q1.spec_enemy_attack() <= q2.spec_enemy_attack());
    lemma_damage_per_fleet_monotone(
        q1.spec_enemy_attack(),
        q2.spec_enemy_attack(),
        q1.ally.spec_fleet_count(),
    );
    assert forall|i: int|
        0 <= i < 11 && spec_damage_fleet(q1.ally.forces()[i], q1.spec_ally_damage()).0 == 0
        implies spec_damage_fleet(q1.ally.forces()[i], q2.spec_ally_damage()).0 == 0 by {
        lemma_damage_fleet_monotone(
            q1.ally.forces()[i],
            q1.spec_ally_damage(),
            q2.spec_ally_damage(),
        );
    }
}

/// Raising the ally's total attack force, all else equal — the enemy side
/// unchanged, the ally's active fleet count and chosen formation unchanged
/// — never lowers the per-fleet damage the enemy takes, and an enemy slot
/// or garrison that was wiped out stays wiped out.
pub proof fn lemma_enemy_damage_monotone(q1: Query, q2: Query)
    requires
        q1.wf(),
        q2.wf(),
        q1.enemy.spec_is_valid(),
        q2.enemy == q1.enemy,
        q2.ally.formation == q1.ally.formation,
        q1.ally.spec_attack_force() <= q2.ally.spec_attack_force(),
        q2.ally.spec_fleet_count() == q1.ally.spec_fleet_count(),
        1 <= q1.ally.spec_fleet_count(),
    ensures
        q1.spec_enemy_damage() <= q2.spec_enemy_damage(),
        forall|i: int|
            0 <= i < 15 ==> (spec_damage_fleet(q1.enemy.forces()[i], q1.spec_enemy_damage()).0 == 0
                ==> spec_damage_fleet(q1.enemy.forces()[i], q2.spec_enemy_damage()).0 == 0),
        spec_damage_guard(q1.enemy.guard_force, q1.spec_enemy_damage()).0 == 0
            ==> spec_damage_guard(q1.enemy.guard_force, q2.spec_enemy_damage()).0 == 0,
{
    lemma_active_implies_count(q1.enemy.forces(), 15);
    lemma_count_active_bounds(q1.enemy.forces(), 15);
    lemma_sum_rested_bounds(q1.ally.forces(), q1.ally.tireds(), 11);
    lemma_sum_rested_bounds(q2.ally.forces(), q2.ally.tireds(), 11);
    assert(q1.spec_enemy_eff() == q2.spec_enemy_eff());
    lemma_side_attack_raw_nonneg(
        q1.ally.spec_attack_force(),
        q1.ally.spec_fleet_count(),
        q1.ally.formation,
        q1.spec_enemy_eff(),
    );
    lemma_side_attack_raw_monotone(
        q1.ally.spec_attack_force(),
        q2.ally.spec_attack_force(),
        q1.ally.spec_fleet_count(),
        q1.ally.formation,
        q1.spec_enemy_eff(),
    );
    assert(q1.spec_ally_attack_raw() <= q2.spec_ally_attack_raw());
    if q1.spec_yang_applies() {
        lemma_div_is_ordered(q1.spec_ally_attack_raw(), q2.spec_ally_attack_raw(), 2);
    }
    assert(0 <= q1.spec_ally_attack() <= q2.spec_ally_attack());
    lemma_damage_per_fleet_monotone(
        q1.spec_ally_attack(),
        q2.spec_ally_attack(),
        q1.enemy.spec_fleet_count(),
    );
    assert forall|i: int|
        0 <= i < 15 && spec_damage_fleet(q1.enemy.forces()[i], q1.spec_enemy_damage()).0 == 0
        implies spec_damage_fleet(q1.enemy.forces()[i], q2.spec_enemy_damage()).0 == 0 by {
        lemma_damage_fleet_monotone(
            q1.enemy.forces()[i],
            q1.spec_enemy_damage(),
            q2.spec_enemy_damage(),
        );
    }
    lemma_damage_guard_monotone(
        q1.enemy.guard_force,
        q1.spec_enemy_damage(),
        q2.spec_enemy_damage(),
    );
}

/// A side whose capped attack force, spread over ten times its active
/// fleet count, comes to at most 3 collapses into formation 0 whatever
/// formation was chosen; so does a side with no active fleet.
pub proof fn lemma_formation_collapse(fleet_count: int, attack_force: int, formation: Formation)
    requires
        fleet_count <= 0 || spec_cap_attack_force(attack_force) / (10 * fleet_count) <= 3,
    ensures
        spec_modify_formation(fleet_count, attack_force, formation) == Formation(0u8),
{
}

/// The commander modifier halves-plus-one the ally's attack power and
/// adds a flat 10 to the enemy's exactly when it is on and the ally did
/// not choose formation 5; otherwise both powers stand unmodified.
pub proof fn lemma_yang_asymmetry(q: Query)
    ensures
        q.enemy.has_yang && q.ally.formation != Formation(5u8) ==> q.spec_ally_attack()
            == q.spec_ally_attack_raw() / 2 + 1 && q.spec_enemy_attack()
            == q.spec_enemy_attack_raw() + 10,
        !q.enemy.has_yang || q.ally.formation == Formation(5u8) ==> q.spec_ally_attack()
            == q.spec_ally_attack_raw() && q.spec_enemy_attack() == q.spec_enemy_attack_raw(),
{
}

} // verus!
