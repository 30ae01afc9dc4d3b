use battle_sim::battle::{decide, is_wall_damaged, phase_one, play_round, BattleConfig, CatapultGroup};
use battle_sim::uint::{Uint256, Uint512};

fn word(x: u64) -> Uint256 {
    Uint256::from_u64(x)
}

fn wide(x: u64) -> Uint512 {
    Uint512::from_u64(x)
}

fn standard_group(catapults: u64) -> CatapultGroup {
    CatapultGroup::new(word(catapults), word(300), word(50))
}

#[test]
fn standard_constants() {
    let config = BattleConfig::new();
    assert_eq!(config.catapult_attack, word(50));
    assert_eq!(config.catapult_health, word(300));
    assert_eq!(config.wall_health, word(100000));
    assert_eq!(config.defending_catapults, word(300));
    assert!(config.is_valid());
}

#[test]
fn constants_without_health_attack_or_wall_are_not_valid() {
    let mut config = BattleConfig::new();
    config.catapult_health = word(0);
    assert!(!config.is_valid());

    let mut config = BattleConfig::new();
    config.catapult_attack = word(0);
    assert!(!config.is_valid());

    let mut config = BattleConfig::new();
    config.wall_health = word(1);
    assert!(!config.is_valid());
    config.wall_health = word(2);
    assert!(config.is_valid());
}

#[test]
fn five_hundred_attackers_win() {
    assert_eq!(phase_one(word(500), &BattleConfig::new()), word(1));
}

#[test]
fn one_hundred_attackers_lose() {
    assert_eq!(phase_one(word(100), &BattleConfig::new()), word(2));
}

#[test]
fn zero_attackers_lose() {
    assert_eq!(phase_one(word(0), &BattleConfig::new()), word(2));
}

#[test]
fn smallest_winning_force() {
    let config = BattleConfig::new();
    assert_eq!(phase_one(word(367), &config), word(2));
    assert_eq!(phase_one(word(368), &config), word(1));
}

#[test]
fn outcome_is_a_win_for_one_side() {
    let config = BattleConfig::new();
    for count in 0..1000u64 {
        let code = phase_one(word(count), &config);
        assert!(code == word(1) || code == word(2));
    }
}

#[test]
fn more_attackers_never_lose_what_fewer_win() {
    let config = BattleConfig::new();
    let mut won = false;
    for count in 0..1000u64 {
        let code = phase_one(word(count), &config);
        if won {
            assert_eq!(code, word(1));
        }
        won = code == word(1);
    }
    assert!(won);
}

#[test]
fn counts_beyond_64_bits_win() {
    let config = BattleConfig::new();
    assert_eq!(phase_one(Uint256 { limbs: [0, 1, 0, 0] }, &config), word(1));
    assert_eq!(phase_one(Uint256 { limbs: [0, 0, 0, 1 << 62] }, &config), word(1));
    assert_eq!(phase_one(Uint256 { limbs: [u64::MAX; 4] }, &config), word(1));
}

#[test]
fn other_constants() {
    // Ten catapults of health 13 and attack 7 against two defenders and a
    // wall of 40: the defenders fall in the first turn, the wall in the third.
    let config = BattleConfig {
        catapult_attack: word(7),
        catapult_health: word(13),
        wall_health: word(40),
        defending_catapults: word(2),
    };
    assert_eq!(phase_one(word(10), &config), word(1));
    assert_eq!(phase_one(word(1), &config), word(2));
}

#[test]
fn fresh_group() {
    let group = standard_group(450);
    assert_eq!(group.total_health(), wide(135000));
    assert_eq!(group.attack_counter(), 0);
    assert_eq!(group.remaining_catapults(), wide(450));
    assert_eq!(group.calculate_damage(), wide(22500));
    assert!(!group.is_destroyed());
}

#[test]
fn fresh_group_of_the_largest_count() {
    // (2^256 - 1) * 300 = 299 * 2^256 + (2^256 - 300)
    let group = CatapultGroup::new(Uint256 { limbs: [u64::MAX; 4] }, word(300), word(50));
    assert_eq!(
        group.total_health().limbs,
        [u64::MAX - 299, u64::MAX, u64::MAX, u64::MAX, 299, 0, 0, 0]
    );
    assert_eq!(
        group.remaining_catapults().limbs,
        [u64::MAX, u64::MAX, u64::MAX, u64::MAX, 0, 0, 0, 0]
    );
    // (2^256 - 1) * 50 = 49 * 2^256 + (2^256 - 50)
    assert_eq!(
        group.calculate_damage().limbs,
        [u64::MAX - 49, u64::MAX, u64::MAX, u64::MAX, 49, 0, 0, 0]
    );
}

#[test]
fn empty_group_is_destroyed() {
    let group = standard_group(0);
    assert!(group.is_destroyed());
    assert_eq!(group.total_health(), wide(0));
    assert_eq!(group.remaining_catapults(), wide(0));
    assert_eq!(group.calculate_damage(), wide(0));
}

#[test]
fn damage_is_taken_from_health() {
    let mut group = standard_group(3);
    group.take_damage(wide(250));
    assert_eq!(group.total_health(), wide(650));
    group.take_damage(wide(0));
    assert_eq!(group.total_health(), wide(650));
    group.take_damage(wide(650));
    assert_eq!(group.total_health(), wide(0));
    assert!(group.is_destroyed());
}

#[test]
fn damage_stops_at_nothing() {
    let mut group = standard_group(3);
    group.take_damage(wide(901));
    assert_eq!(group.total_health(), wide(0));
    assert!(group.is_destroyed());

    let mut group = standard_group(3);
    group.take_damage(Uint512 { limbs: [u64::MAX; 8] });
    assert_eq!(group.total_health(), wide(0));

    let mut group = standard_group(0);
    group.take_damage(wide(1));
    assert_eq!(group.total_health(), wide(0));
}

#[test]
fn catapults_are_counted_rounding_up() {
    let mut group = standard_group(3);
    assert_eq!(group.remaining_catapults(), wide(3));
    group.take_damage(wide(1));
    assert_eq!(group.remaining_catapults(), wide(3));
    group.take_damage(wide(298));
    assert_eq!(group.total_health(), wide(601));
    assert_eq!(group.remaining_catapults(), wide(3));
    group.take_damage(wide(1));
    assert_eq!(group.remaining_catapults(), wide(2));
    group.take_damage(wide(599));
    assert_eq!(group.total_health(), wide(1));
    assert_eq!(group.remaining_catapults(), wide(1));
    group.take_damage(wide(1));
    assert_eq!(group.remaining_catapults(), wide(0));
}

#[test]
fn damage_is_catapults_times_attack() {
    let mut group = CatapultGroup::new(word(7), word(13), word(11));
    assert_eq!(group.calculate_damage(), wide(77));
    group.take_damage(wide(14));
    // 77 of health left: 5 whole catapults and a damaged one.
    assert_eq!(group.calculate_damage(), wide(66));
}

#[test]
fn wall_is_damaged_below_half() {
    let config = BattleConfig::new();
    assert!(!is_wall_damaged(wide(100000), &config));
    assert!(!is_wall_damaged(wide(50000), &config));
    assert!(is_wall_damaged(wide(49999), &config));
    assert!(is_wall_damaged(wide(0), &config));
}

#[test]
fn half_of_an_odd_wall_is_rounded_down() {
    let mut config = BattleConfig::new();
    config.wall_health = word(7);
    assert!(!is_wall_damaged(wide(3), &config));
    assert!(is_wall_damaged(wide(2), &config));
}

#[test]
fn first_rounds_of_a_standard_battle() {
    let mut attackers = standard_group(450);
    let mut defenders = standard_group(300);
    let mut wall = wide(100000);

    wall = play_round(&mut attackers, &mut defenders, wall);
    assert_eq!(attackers.total_health(), wide(120000));
    assert_eq!(defenders.total_health(), wide(70000));
    assert_eq!(wall, wide(100000));
    assert_eq!(attackers.attack_counter(), 1);

    wall = play_round(&mut attackers, &mut defenders, wall);
    assert_eq!(attackers.total_health(), wide(108300));
    assert_eq!(defenders.total_health(), wide(51950));
    assert_eq!(wall, wide(100000));
    assert_eq!(attackers.attack_counter(), 2);

    wall = play_round(&mut attackers, &mut defenders, wall);
    assert_eq!(attackers.total_health(), wide(99600));
    assert_eq!(defenders.total_health(), wide(51950));
    assert_eq!(wall, wide(83400));
    assert_eq!(attackers.attack_counter(), 3);
    assert_eq!(defenders.attack_counter(), 0);
}

#[test]
fn turn_counter_cycles() {
    // Defenders that do no damage, so that the attackers keep firing 500.
    let mut attackers = standard_group(10);
    let mut defenders = CatapultGroup::new(word(4), word(300), word(0));
    let mut wall = wide(10000);

    for turn in 0..10u8 {
        assert_eq!(attackers.attack_counter(), turn);
        let defenders_before = defenders.total_health();
        let wall_before = wall;
        wall = play_round(&mut attackers, &mut defenders, wall);
        if turn < 2 {
            assert_eq!(wall, wall_before);
            assert_ne!(defenders.total_health(), defenders_before);
        } else {
            assert_eq!(defenders.total_health(), defenders_before);
            assert_ne!(wall, wall_before);
        }
    }
    assert_eq!(attackers.attack_counter(), 0);
    assert_eq!(attackers.total_health(), wide(3000));
    assert_eq!(defenders.total_health(), wide(200));
    assert_eq!(wall, wide(6000));

    wall = play_round(&mut attackers, &mut defenders, wall);
    assert_eq!(attackers.attack_counter(), 1);
    assert_eq!(defenders.total_health(), wide(0));
    assert_eq!(wall, wide(6000));
}

#[test]
fn wall_damage_stops_at_nothing() {
    let mut attackers = standard_group(10);
    let mut defenders = CatapultGroup::new(word(0), word(300), word(50));
    let mut wall = wide(499);
    for _ in 0..3 {
        wall = play_round(&mut attackers, &mut defenders, wall);
    }
    assert_eq!(wall, wide(0));
}

#[test]
fn destroyed_attackers_lose_with_the_wall_down() {
    let config = BattleConfig::new();
    let mut attackers = standard_group(1);
    attackers.take_damage(wide(300));
    assert!(is_wall_damaged(wide(49999), &config));
    assert_eq!(decide(&attackers, wide(49999), &config), word(2));
    assert_eq!(decide(&attackers, wide(0), &config), word(2));
    assert_eq!(decide(&attackers, wide(100000), &config), word(2));
}

#[test]
fn destroyed_attackers_leave_the_wall_alone() {
    // One more turn would bring the wall under half, but the defenders
    // destroy the attackers first.
    let config = BattleConfig::new();
    let mut attackers = standard_group(40);
    let mut defenders = standard_group(300);
    for _ in 0..2 {
        attackers.take_damage(wide(0));
    }
    let mut wall = wide(50000);
    wall = play_round(&mut attackers, &mut defenders, wall);
    assert!(attackers.is_destroyed());
    assert_eq!(wall, wide(50000));
    assert_eq!(decide(&attackers, wall, &config), word(2));
}

#[test]
fn living_attackers_win_with_the_wall_down() {
    let config = BattleConfig::new();
    assert_eq!(decide(&standard_group(1), wide(49999), &config), word(1));
}

#[test]
fn living_attackers_before_a_standing_wall_draw() {
    let config = BattleConfig::new();
    assert_eq!(decide(&standard_group(1), wide(50000), &config), word(0));
}
