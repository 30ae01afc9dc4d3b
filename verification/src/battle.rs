//! The battle in executable form: the configuration, the groups of
//! catapults, one round, and the battle played to its end.
//!
//! Counts and constants are 256-bit numbers. Health totals and damage are
//! products of two of them, so they are kept in 512 bits, where no product
//! the battle forms can overflow.

use crate::model::{
    battle_outcome, lemma_ceil_div_bounds, lemma_ceil_div_formula, lemma_round_progress, verdict,
    wall_damaged, Battle, Config, Group,
};
use crate::uint::{
    lemma_fits_512, lemma_pow2_512_is_square, lemma_product_fits_512, pow2_256, Uint256, Uint512,
};
use vstd::arithmetic::mul::lemma_mul_inequality;
use vstd::prelude::*;

verus! {

/// The constants of a battle.
pub struct BattleConfig {
    /// The damage that one catapult does in one turn.
    pub catapult_attack: Uint256,
    /// The health of one undamaged catapult.
    pub catapult_health: Uint256,
    /// The health of the undamaged wall.
    pub wall_health: Uint256,
    /// The number of catapults that defend the wall.
    pub defending_catapults: Uint256,
}

impl View for BattleConfig {
    type V = Config;

    open spec fn view(&self) -> Config {
        Config {
            catapult_attack: self.catapult_attack@,
            catapult_health: self.catapult_health@,
            wall_health: self.wall_health@,
            defending_catapults: self.defending_catapults@,
        }
    }
}

impl BattleConfig {
    /// The constants of the standard battle.
    pub fn new() -> (config: Self)
        ensures
            config@ == Config::standard(),
            config@.valid(),
    {
        Self {
            catapult_attack: Uint256::from_u64(50),
            catapult_health: Uint256::from_u64(300),
            wall_health: Uint256::from_u64(100000),
            defending_catapults: Uint256::from_u64(300),
        }
    }

    /// Whether every battle with these constants ends, which is what
    /// [`phase_one`] asks of them.
    pub fn is_valid(&self) -> (valid: bool)
        ensures
            valid == self@.valid(),
    {
        !Uint512::from_uint256(self.catapult_attack).is_zero() && !Uint512::from_uint256(
            self.catapult_health,
        ).is_zero() && !Uint512::from_uint256(self.wall_health).lt(Uint512::from_u64(2))
    }
}

/// A group of catapults, pooled into one health total.
pub struct CatapultGroup {
    total_health: Uint512,
    attack: Uint256,
    initial_catapult_health: Uint256,
    attack_counter: u8,
}

impl View for CatapultGroup {
    type V = Group;

    closed spec fn view(&self) -> Group {
        Group {
            total_health: self.total_health@,
            attack: self.attack@,
            catapult_health: self.initial_catapult_health@,
            attack_counter: self.attack_counter as nat,
        }
    }
}

impl CatapultGroup {
    /// What the methods that count catapults rely on: a catapult has health,
    /// the group is no healthier than as many undamaged catapults as a
    /// 256-bit number can count, and the turn counter is a digit.
    pub open spec fn wf(&self) -> bool {
        &&& self@.catapult_health > 0
        &&& self@.total_health <= (pow2_256() - 1) * self@.catapult_health
        &&& self@.attack_counter < 10
    }

    /// A fresh group of `num_catapults` catapults.
    pub fn new(num_catapults: Uint256, health: Uint256, attack: Uint256) -> (group: Self)
        ensures
            group@ == Group::fresh(num_catapults@, health@, attack@),
            group.wf() <==> health@ > 0,
    {
        let count = Uint512::from_uint256(num_catapults);
        let each = Uint512::from_uint256(health);
        proof {
            num_catapults.lemma_bounded();
            health.lemma_bounded();
            lemma_product_fits_512(count@, each@);
            lemma_fits_512((count@ * each@) as int);
            lemma_mul_inequality(count@ as int, pow2_256() - 1, each@ as int);
        }
        Self {
            total_health: count.wrapping_mul(each),
            attack,
            initial_catapult_health: health,
            attack_counter: 0,
        }
    }

    /// The health that the living catapults of the group have together.
    pub fn total_health(&self) -> (health: Uint512)
        ensures
            health@ == self@.total_health,
    {
        self.total_health
    }

    /// The turns the group has taken, counted modulo 10.
    pub fn attack_counter(&self) -> (turns: u8)
        ensures
            turns == self@.attack_counter,
    {
        self.attack_counter
    }

    /// Takes `damage` from the group's health, which stops at nothing.
    pub fn take_damage(&mut self, damage: Uint512)
        ensures
            final(self)@ == old(self)@.hit(damage@),
            final(self)@.total_health <= old(self)@.total_health,
            old(self).wf() ==> final(self).wf(),
    {
        proof {
            self.total_health.lemma_bounded();
        }
        if damage.gt(self.total_health) {
            self.total_health = Uint512::from_u64(0);
        } else {
            self.total_health = self.total_health.wrapping_sub(damage);
        }
    }

    /// The number of catapults that are still alive: the health total
    /// divided by the health of one catapult, rounded up.
    pub fn remaining_catapults(&self) -> (count: Uint512)
        requires
            self.wf(),
        ensures
            count@ == self@.remaining_catapults(),
            count@ < pow2_256(),
    {
        let each = Uint512::from_uint256(self.initial_catapult_health);
        proof {
            let total = self@.total_health;
            let health = self@.catapult_health;
            self.initial_catapult_health.lemma_bounded();
            assert(total + health <= pow2_256() * health) by (nonlinear_arith)
                requires
                    total <= (pow2_256() - 1) * health,
            ;
            assert(pow2_256() * health <= pow2_256() * (pow2_256() - 1)) by (nonlinear_arith)
                requires
                    health <= pow2_256() - 1,
            ;
            lemma_pow2_512_is_square();
            assert(pow2_256() * (pow2_256() - 1) < pow2_256() * pow2_256()) by (nonlinear_arith)
                requires
                    pow2_256() > 0,
            ;
            lemma_fits_512((total + health) as int);
            lemma_fits_512(total + health - 1);
            lemma_ceil_div_formula(total, health);
            lemma_ceil_div_bounds(total, (pow2_256() - 1) as nat, health);
        }
        self.total_health.wrapping_add(each).wrapping_sub(Uint512::from_u64(1)).div(each)
    }

    /// The damage that the group does in one turn.
    pub fn calculate_damage(&self) -> (damage: Uint512)
        requires
            self.wf(),
        ensures
            damage@ == self@.damage(),
    {
        let count = self.remaining_catapults();
        let each = Uint512::from_uint256(self.attack);
        proof {
            self.attack.lemma_bounded();
            lemma_product_fits_512(count@, each@);
            lemma_fits_512((count@ * each@) as int);
        }
        count.wrapping_mul(each)
    }

    /// Whether no catapult of the group is left.
    pub fn is_destroyed(&self) -> (destroyed: bool)
        ensures
            destroyed == self@.destroyed(),
    {
        self.total_health.is_zero()
    }
}

/// The battle that two groups and a wall make up.
pub open spec fn battle_of(
    attacking_group: CatapultGroup,
    defending_group: CatapultGroup,
    wall_health: Uint512,
) -> Battle {
    Battle { attackers: attacking_group@, defenders: defending_group@, wall: wall_health@ }
}

/// Whether the wall has lost more than half of the health that `config`
/// gives it.
pub fn is_wall_damaged(wall_health: Uint512, config: &BattleConfig) -> (damaged: bool)
    ensures
        damaged == wall_damaged(wall_health@, config@.wall_health),
{
    wall_health.lt(Uint512::from_uint256(config.wall_health).div(Uint512::from_u64(2)))
}

/// One round of the battle. The defenders fire at the attackers; then the
/// attackers that are left fire, at the defenders in the first two of every
/// ten turns and at the wall in the other eight. Returns the health that the
/// wall has left.
pub fn play_round(
    attacking_group: &mut CatapultGroup,
    defending_group: &mut CatapultGroup,
    wall_health: Uint512,
) -> (wall_left: Uint512)
    requires
        old(attacking_group).wf(),
        old(defending_group).wf(),
    ensures
        battle_of(*final(attacking_group), *final(defending_group), wall_left) == battle_of(
            *old(attacking_group),
            *old(defending_group),
            wall_health,
        ).round(),
        final(attacking_group).wf(),
        final(defending_group).wf(),
{
    let mut wall_left = wall_health;
    let defending_damage = defending_group.calculate_damage();
    attacking_group.take_damage(defending_damage);

    if attacking_group.attack_counter < 2 {
        let attacking_damage = attacking_group.calculate_damage();
        defending_group.take_damage(attacking_damage);
    } else {
        let wall_damage = attacking_group.calculate_damage();
        proof {
            wall_left.lemma_bounded();
        }
        if wall_damage.gt(wall_left) {
            wall_left = Uint512::from_u64(0);
        } else {
            wall_left = wall_left.wrapping_sub(wall_damage);
        }
    }

    attacking_group.attack_counter = (attacking_group.attack_counter + 1) % 10;
    wall_left
}

/// The outcome code for attackers and a wall as they stand: 2 where the
/// attackers are destroyed, else 1 where the wall has lost more than half of
/// its health, else 0.
pub fn decide(attacking_group: &CatapultGroup, wall_health: Uint512, config: &BattleConfig) -> (code:
    Uint256)
    ensures
        code@ == verdict(attacking_group@, wall_health@, config@).code(),
{
    if attacking_group.is_destroyed() {
        Uint256::from_u64(2)
    } else if is_wall_damaged(wall_health, config) {
        Uint256::from_u64(1)
    } else {
        Uint256::from_u64(0)
    }
}

/// Plays the battle that `attacking_catapults` catapults start against the
/// wall and the defenders of `config`, and returns its outcome code: 1 where
/// the attackers win, 2 where the defenders do. No battle ends in a draw.
pub fn phase_one(attacking_catapults: Uint256, config: &BattleConfig) -> (code: Uint256)
    requires
        config@.valid(),
    ensures
        code@ == battle_outcome(attacking_catapults@, config@).code(),
        code@ == 1 || code@ == 2,
{
    let mut attacking_group = CatapultGroup::new(
        attacking_catapults,
        config.catapult_health,
        config.catapult_attack,
    );
    let mut defending_group = CatapultGroup::new(
        config.defending_catapults,
        config.catapult_health,
        config.catapult_attack,
    );

    let mut wall_health = Uint512::from_uint256(config.wall_health);

    while !is_wall_damaged(wall_health, config) && !attacking_group.is_destroyed()
        invariant
            attacking_group.wf(),
            defending_group.wf(),
            battle_of(attacking_group, defending_group, wall_health).sound(config@),
            battle_of(attacking_group, defending_group, wall_health).play(config@)
                == Battle::opening(attacking_catapults@, config@).play(config@),
        ensures
            battle_of(attacking_group, defending_group, wall_health).over(config@),
        decreases
            attacking_group@.total_health + wall_health@,
            battle_of(attacking_group, defending_group, wall_health).turns_before_wall(),
    {
        proof {
            lemma_round_progress(
                battle_of(attacking_group, defending_group, wall_health),
                config@,
            );
        }
        wall_health = play_round(&mut attacking_group, &mut defending_group, wall_health);

        if is_wall_damaged(wall_health, config) {
            break ;
        }
        if attacking_group.is_destroyed() {
            break ;
        }
    }

    decide(&attacking_group, wall_health, config)
}

} // verus!
