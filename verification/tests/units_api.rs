use fleet_battle::battle::calc_attack_raw;
use fleet_battle::battle::calc_damage_per_fleet;
use fleet_battle::battle::clamp_attack_force;
use fleet_battle::battle::modify_formation;
use fleet_battle::units::FleetForce;
use fleet_battle::units::Formation;

#[test]
fn fleet_force_new_accepts_range() {
    assert_eq!(FleetForce::new(0).unwrap().inner(), 0);
    assert_eq!(FleetForce::new(100).unwrap().inner(), 100);
    assert!(FleetForce::new(101).is_none());
    assert!(FleetForce::new(u32::MAX).is_none());
}

#[test]
fn fleet_force_zero_is_zero() {
    assert!(FleetForce::zero().is_zero());
    assert_eq!(FleetForce::zero().inner(), 0);
    assert!(!FleetForce::new(1).unwrap().is_zero());
}

#[test]
fn formation_new_accepts_range() {
    assert_eq!(Formation::new(0).unwrap().0, 0);
    assert_eq!(Formation::new(7).unwrap().0, 7);
    assert!(Formation::new(8).is_none());
    assert!(Formation::new(u8::MAX).is_none());
}

#[test]
fn attack_coef_matches_table() {
    let table: [[u32; 8]; 8] = [
        [3, 1, 1, 1, 1, 1, 1, 1],
        [5, 4, 3, 5, 4, 2, 2, 4],
        [5, 3, 2, 3, 4, 2, 1, 3],
        [5, 3, 3, 4, 4, 4, 3, 5],
        [5, 4, 2, 4, 5, 4, 5, 5],
        [5, 4, 3, 3, 3, 3, 2, 2],
        [5, 2, 3, 3, 3, 1, 1, 3],
        [5, 4, 4, 2, 5, 5, 3, 5],
    ];
    for us in 0..8u8 {
        for them in 0..8u8 {
            let f_us = Formation::new(us).unwrap();
            let f_them = Formation::new(them).unwrap();
            assert_eq!(f_us.attack_coef(f_them), table[us as usize][them as usize]);
        }
    }
}

#[test]
fn clamp_attack_force_bounds() {
    assert_eq!(clamp_attack_force(0), 100);
    assert_eq!(clamp_attack_force(99), 100);
    assert_eq!(clamp_attack_force(100), 100);
    assert_eq!(clamp_attack_force(500), 500);
    assert_eq!(clamp_attack_force(1600), 1600);
    assert_eq!(clamp_attack_force(1601), 1600);
    assert_eq!(clamp_attack_force(u32::MAX), 1600);
}

#[test]
fn calc_attack_raw_values() {
    let f0 = Formation::new(0).unwrap();
    let f1 = Formation::new(1).unwrap();
    let f4 = Formation::new(4).unwrap();
    let f6 = Formation::new(6).unwrap();
    assert_eq!(calc_attack_raw(100, f1, f1), 4);
    assert_eq!(calc_attack_raw(1600, f4, f6), 80);
    assert_eq!(calc_attack_raw(199, f0, f0), 3);
}

#[test]
fn calc_damage_per_fleet_values() {
    assert_eq!(calc_damage_per_fleet(4, 1), 33);
    assert_eq!(calc_damage_per_fleet(14, 1), 100);
    assert_eq!(calc_damage_per_fleet(4, 2), 16);
    assert_eq!(calc_damage_per_fleet(0, 5), 0);
}

#[test]
fn modify_formation_threshold() {
    let f3 = Formation::new(3).unwrap();
    let f2 = Formation::new(2).unwrap();
    let f7 = Formation::new(7).unwrap();
    // 100 / (10 * 4) = 2 <= 3: collapse
    assert_eq!(modify_formation(4, 100, f3).0, 0);
    // 100 / (10 * 1) = 10 > 3: chosen formation stands
    assert_eq!(modify_formation(1, 100, f3).0, 3);
    // no active fleet: collapse, no division
    assert_eq!(modify_formation(0, 500, f3).0, 0);
    // 30 / 10 = 3 <= 3: collapse right at the threshold
    assert_eq!(modify_formation(1, 30, f2).0, 0);
    // 1600 / 160 = 10 > 3
    assert_eq!(modify_formation(16, 1600, f7).0, 7);
    // the numerator is capped at 1600 before the test
    assert_eq!(modify_formation(16, u32::MAX, f7).0, 7);
}
