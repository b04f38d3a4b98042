use fleet_battle::battle::battle_simulate;
use fleet_battle::battle::Query;
use fleet_battle::units::FleetForce;
use fleet_battle::units::Formation;

fn force(v: u32) -> FleetForce {
    FleetForce::new(v).unwrap()
}

fn formation(v: u8) -> Formation {
    Formation::new(v).unwrap()
}

#[test]
fn default_query_round_trips_through_accessors() {
    let q = Query::default();
    assert_eq!(q.ally_fleet_force(0).inner(), 100);
    for i in 1..11 {
        assert_eq!(q.ally_fleet_force(i).inner(), 0);
    }
    for i in 0..11 {
        assert!(!q.ally_fleet_is_tired(i));
    }
    assert_eq!(q.ally_formation().0, 1);
    for i in 0..15 {
        assert_eq!(q.enemy_fleet_force(i).inner(), 0);
    }
    assert_eq!(q.enemy_guard_force().inner(), 100);
    assert_eq!(q.enemy_formation().0, 1);
    assert!(!q.enemy_has_yang());
    assert!(q.is_valid());
}

#[test]
fn setters_update_their_field() {
    let mut q = Query::default();
    q.set_ally_fleet_force(3, force(42));
    assert_eq!(q.ally_fleet_force(3).inner(), 42);
    q.set_ally_fleet_is_tired(3, true);
    assert!(q.ally_fleet_is_tired(3));
    q.set_ally_formation(formation(6));
    assert_eq!(q.ally_formation().0, 6);
    q.set_enemy_fleet_force(14, force(9));
    assert_eq!(q.enemy_fleet_force(14).inner(), 9);
    q.set_enemy_guard_force(force(77));
    assert_eq!(q.enemy_guard_force().inner(), 77);
    q.set_enemy_formation(formation(2));
    assert_eq!(q.enemy_formation().0, 2);
    q.set_enemy_has_yang(true);
    assert!(q.enemy_has_yang());
}

#[test]
fn invalid_when_all_ally_forces_zero() {
    let mut q = Query::default();
    q.set_ally_fleet_force(0, force(0));
    assert!(!q.is_valid());
    assert!(battle_simulate(&q).is_none());
}

#[test]
fn invalid_when_enemy_fields_nothing() {
    let mut q = Query::default();
    q.set_enemy_guard_force(force(0));
    assert!(!q.is_valid());
    assert!(battle_simulate(&q).is_none());
}

#[test]
fn valid_when_both_sides_field_force() {
    let q = Query::default();
    assert!(battle_simulate(&q).is_some());
}

#[test]
fn symmetric_single_fleet_battle() {
    // Both sides: one fleet at 100, formation 1, no garrison, no modifier.
    let mut q = Query::default();
    q.set_enemy_guard_force(force(0));
    q.set_enemy_fleet_force(0, force(100));
    let rep = battle_simulate(&q).unwrap();
    assert_eq!(rep.ally_formation().0, 1);
    assert_eq!(rep.enemy_formation().0, 1);
    // attack power 4 each; damage min(100, 400 / 12) = 33 each
    assert_eq!(rep.ally_damage_per_fleet(), 33);
    assert_eq!(rep.enemy_damage_per_fleet(), 33);
    assert_eq!(rep.ally_fleet_force(0).inner(), 67);
    assert_eq!(rep.enemy_fleet_force(0).inner(), 67);
}

#[test]
fn default_query_battle_hits_the_garrison() {
    let rep = battle_simulate(&Query::default()).unwrap();
    assert_eq!(rep.ally_damage_per_fleet(), 33);
    assert_eq!(rep.enemy_damage_per_fleet(), 33);
    assert_eq!(rep.ally_fleet_force(0).inner(), 67);
    assert_eq!(rep.enemy_guard_force().inner(), 67);
    for i in 0..15 {
        assert_eq!(rep.enemy_fleet_force(i).inner(), 0);
    }
}

#[test]
fn formation_collapses_under_attrition() {
    // Four ally fleets of 25: force 100 over 4 fleets, 100/40 = 2 <= 3.
    let mut q = Query::default();
    q.set_ally_fleet_force(0, force(25));
    q.set_ally_fleet_force(1, force(25));
    q.set_ally_fleet_force(2, force(25));
    q.set_ally_fleet_force(3, force(25));
    q.set_ally_formation(formation(3));
    let rep = battle_simulate(&q).unwrap();
    assert_eq!(rep.ally_formation().0, 0);
    // the enemy garrison alone is 100 over 1 fleet: formation 1 stands
    assert_eq!(rep.enemy_formation().0, 1);
}

#[test]
fn mercy_kill_wipes_fleet_residual_of_eight() {
    // Enemy: 100 + 24 over two fleets, no garrison. Enemy takes 16 per
    // fleet; 24 - 16 = 8 <= 8, so the weak fleet is wiped out.
    let mut q = Query::default();
    q.set_enemy_guard_force(force(0));
    q.set_enemy_fleet_force(0, force(100));
    q.set_enemy_fleet_force(1, force(24));
    let rep = battle_simulate(&q).unwrap();
    assert_eq!(rep.enemy_damage_per_fleet(), 16);
    assert_eq!(rep.enemy_fleet_force(0).inner(), 84);
    assert!(rep.enemy_fleet_force(1).is_zero());
}

#[test]
fn garrison_keeps_residual_of_eight() {
    // Enemy: one fleet of 100 plus garrison 24. Enemy takes 16 per fleet;
    // 24 - 16 = 8 is not < 8, so the garrison survives at 8.
    let mut q = Query::default();
    q.set_enemy_fleet_force(0, force(100));
    q.set_enemy_guard_force(force(24));
    let rep = battle_simulate(&q).unwrap();
    assert_eq!(rep.enemy_damage_per_fleet(), 16);
    assert_eq!(rep.enemy_fleet_force(0).inner(), 84);
    assert_eq!(rep.enemy_guard_force().inner(), 8);
}

#[test]
fn yang_modifier_skews_the_exchange() {
    // Ally attack 4 becomes 4/2 + 1 = 3; enemy attack 4 becomes 14.
    let mut q = Query::default();
    q.set_enemy_guard_force(force(0));
    q.set_enemy_fleet_force(0, force(100));
    q.set_enemy_has_yang(true);
    let rep = battle_simulate(&q).unwrap();
    assert_eq!(rep.ally_damage_per_fleet(), 100);
    assert_eq!(rep.enemy_damage_per_fleet(), 25);
    assert!(rep.ally_fleet_force(0).is_zero());
    assert_eq!(rep.enemy_fleet_force(0).inner(), 75);
}

#[test]
fn yang_modifier_countered_by_formation_five() {
    let mut q = Query::default();
    q.set_enemy_guard_force(force(0));
    q.set_enemy_fleet_force(0, force(100));
    q.set_enemy_has_yang(true);
    q.set_ally_formation(formation(5));
    let rep = battle_simulate(&q).unwrap();
    // coefficient 4 for formation 5 vs 1, 2 for 1 vs 5; no adjustment
    assert_eq!(rep.ally_damage_per_fleet(), 16);
    assert_eq!(rep.enemy_damage_per_fleet(), 33);
    assert_eq!(rep.ally_fleet_force(0).inner(), 84);
    assert_eq!(rep.enemy_fleet_force(0).inner(), 67);
}

#[test]
fn stronger_enemy_never_hurts_less() {
    // Same enemy fleet count, larger total force: ally damage up.
    let mut weak = Query::default();
    weak.set_enemy_guard_force(force(0));
    weak.set_enemy_fleet_force(0, force(100));
    weak.set_enemy_fleet_force(1, force(50));
    let mut strong = Query::default();
    strong.set_enemy_guard_force(force(0));
    strong.set_enemy_fleet_force(0, force(100));
    strong.set_enemy_fleet_force(1, force(100));
    let rep_weak = battle_simulate(&weak).unwrap();
    let rep_strong = battle_simulate(&strong).unwrap();
    assert_eq!(rep_weak.ally_damage_per_fleet(), 33);
    assert_eq!(rep_strong.ally_damage_per_fleet(), 66);
    assert!(rep_weak.ally_damage_per_fleet() <= rep_strong.ally_damage_per_fleet());
}

#[test]
fn tired_fleet_adds_no_attack_but_takes_damage() {
    // Two ally fleets of 100, one fatigued: attack force stays 100, but
    // damage is spread over two active fleets.
    let mut q = Query::default();
    q.set_ally_fleet_force(1, force(100));
    q.set_ally_fleet_is_tired(1, true);
    q.set_enemy_guard_force(force(0));
    q.set_enemy_fleet_force(0, force(100));
    let rep = battle_simulate(&q).unwrap();
    // enemy attack 4 spread over 2 ally fleets: min(100, 400 / 24) = 16
    assert_eq!(rep.ally_damage_per_fleet(), 16);
    assert_eq!(rep.ally_fleet_force(0).inner(), 84);
    assert_eq!(rep.ally_fleet_force(1).inner(), 84);
    // ally attack force was not raised by the fatigued fleet
    assert_eq!(rep.enemy_damage_per_fleet(), 33);
}
