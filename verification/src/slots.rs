//! Fixed-capacity slot storage for the per-side fleet tables, kept in
//! `arrayvec::ArrayVec` exactly as large as each side's slot count.
//!
//! The stored vectors are opaque to the verifier; each is given a view —
//! the sequence of values it holds, in order — and the few operations the
//! engine needs are small trusted wrappers whose contracts speak over the
//! views.

use vstd::prelude::*;

use crate::units::FleetForce;

verus! {

/// Number of fleet slots on the ally side.
pub const ALLY_FLEET_COUNT: usize = 11;

/// Number of fleet slots on the enemy side.
pub const ENEMY_FLEET_COUNT: usize = 15;

#[verifier::external_type_specification]
#[verifier::external_body]
#[verifier::reject_recursive_types(T)]
pub struct ExArrayVec<T, const CAP: usize>(arrayvec::ArrayVec<T, CAP>);

/// The ally side's fleet-force slots.
pub type AllyFleetForces = arrayvec::ArrayVec<FleetForce, 11>;

/// The ally side's fatigue flags, parallel to its force slots.
pub type AllyFleetIsTireds = arrayvec::ArrayVec<bool, 11>;

/// The enemy side's fleet-force slots.
pub type EnemyFleetForces = arrayvec::ArrayVec<FleetForce, 15>;

pub uninterp spec fn ally_forces_view(v: AllyFleetForces) -> Seq<FleetForce>;

pub uninterp spec fn tired_flags_view(v: AllyFleetIsTireds) -> Seq<bool>;

pub uninterp spec fn enemy_forces_view(v: EnemyFleetForces) -> Seq<FleetForce>;

/// Relies on `arrayvec::ArrayVec::new`: a freshly created vector is empty.
#[verifier::external_body]
pub fn ally_forces_new() -> (r: AllyFleetForces)
    ensures
        ally_forces_view(r) == Seq::<FleetForce>::empty(),
{
    arrayvec::ArrayVec::new()
}

/// Relies on `arrayvec::ArrayVec::push`: appends the element at the end;
/// it panics only on a full vector, which the precondition rules out.
#[verifier::external_body]
pub fn ally_forces_push(v: &mut AllyFleetForces, x: FleetForce)
    requires
        ally_forces_view(*old(v)).len() < 11,
    ensures
        ally_forces_view(*final(v)) == ally_forces_view(*old(v)).push(x),
{
    v.push(x)
}

/// Relies on slice indexing through `ArrayVec`'s `Deref`: returns the
/// element in place `i`; `i` is below the length, so it cannot panic.
#[verifier::external_body]
pub fn ally_forces_get(v: &AllyFleetForces, i: usize) -> (r: FleetForce)
    requires
        i < ally_forces_view(*v).len(),
    ensures
        r == ally_forces_view(*v)[i as int],
{
    v[i]
}

/// Relies on slice indexing through `ArrayVec`'s `DerefMut`: replaces the
/// element in place `i`; `i` is below the length, so it cannot panic.
#[verifier::external_body]
pub fn ally_forces_set(v: &mut AllyFleetForces, i: usize, x: FleetForce)
    requires
        i < ally_forces_view(*old(v)).len(),
    ensures
        ally_forces_view(*final(v)) == ally_forces_view(*old(v)).update(i as int, x),
{
    v[i] = x
}

/// Relies on `arrayvec::ArrayVec::new`: a freshly created vector is empty.
#[verifier::external_body]
pub fn tired_flags_new() -> (r: AllyFleetIsTireds)
    ensures
        tired_flags_view(r) == Seq::<bool>::empty(),
{
    arrayvec::ArrayVec::new()
}

/// Relies on `arrayvec::ArrayVec::push`: appends the element at the end;
/// it panics only on a full vector, which the precondition rules out.
#[verifier::external_body]
pub fn tired_flags_push(v: &mut AllyFleetIsTireds, x: bool)
    requires
        tired_flags_view(*old(v)).len() < 11,
    ensures
        tired_flags_view(*final(v)) == tired_flags_view(*old(v)).push(x),
{
    v.push(x)
}

/// Relies on slice indexing through `ArrayVec`'s `Deref`: returns the
/// element in place `i`; `i` is below the length, so it cannot panic.
#[verifier::external_body]
pub fn tired_flags_get(v: &AllyFleetIsTireds, i: usize) -> (r: bool)
    requires
        i < tired_flags_view(*v).len(),
    ensures
        r == tired_flags_view(*v)[i as int],
{
    v[i]
}

/// Relies on slice indexing through `ArrayVec`'s `DerefMut`: replaces the
/// element in place `i`; `i` is below the length, so it cannot panic.
#[verifier::external_body]
pub fn tired_flags_set(v: &mut AllyFleetIsTireds, i: usize, x: bool)
    requires
        i < tired_flags_view(*old(v)).len(),
    ensures
        tired_flags_view(*final(v)) == tired_flags_view(*old(v)).update(i as int, x),
{
    v[i] = x
}

/// Relies on `arrayvec::ArrayVec::new`: a freshly created vector is empty.
#[verifier::external_body]
pub fn enemy_forces_new() -> (r: EnemyFleetForces)
    ensures
        enemy_forces_view(r) == Seq::<FleetForce>::empty(),
{
    arrayvec::ArrayVec::new()
}

/// Relies on `arrayvec::ArrayVec::push`: appends the element at the end;
/// it panics only on a full vector, which the precondition rules out.
#[verifier::external_body]
pub fn enemy_forces_push(v: &mut EnemyFleetForces, x: FleetForce)
    requires
        enemy_forces_view(*old(v)).len() < 15,
    ensures
        enemy_forces_view(*final(v)) == enemy_forces_view(*old(v)).push(x),
{
    v.push(x)
}

/// Relies on slice indexing through `ArrayVec`'s `Deref`: returns the
/// element in place `i`; `i` is below the length, so it cannot panic.
#[verifier::external_body]
pub fn enemy_forces_get(v: &EnemyFleetForces, i: usize) -> (r: FleetForce)
    requires
        i < enemy_forces_view(*v).len(),
    ensures
        r == enemy_forces_view(*v)[i as int],
{
    v[i]
}

/// Relies on slice indexing through `ArrayVec`'s `DerefMut`: replaces the
/// element in place `i`; `i` is below the length, so it cannot panic.
#[verifier::external_body]
pub fn enemy_forces_set(v: &mut EnemyFleetForces, i: usize, x: FleetForce)
    requires
        i < enemy_forces_view(*old(v)).len(),
    ensures
        enemy_forces_view(*final(v)) == enemy_forces_view(*old(v)).update(i as int, x),
{
    v[i] = x
}

} // verus!
