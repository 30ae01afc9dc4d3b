//! The battle as mathematics.
//!
//! Everything here is ghost code over natural numbers: what a group of
//! catapults is, what one round does to a battle, when a battle is over and
//! who has won it. The executable functions of the crate are specified
//! against these definitions.

use vstd::arithmetic::div_mod::{
    lemma_div_is_ordered, lemma_fundamental_div_mod, lemma_fundamental_div_mod_converse,
};
use vstd::prelude::*;

verus! {

/// `n / d`, rounded up: the exact quotient where `d` divides `n`, and one more
/// than the quotient rounded down where it does not.
pub open spec fn ceil_div(n: nat, d: nat) -> nat {
    if n % d == 0 {
        n / d
    } else {
        n / d + 1
    }
}

/// What is left of `health` after `damage`: never less than nothing.
pub open spec fn after_damage(health: nat, damage: nat) -> nat {
    if damage > health {
        0
    } else {
        (health - damage) as nat
    }
}

/// Whether a wall of `wall` health, built with `full` health, has lost more
/// than half of it.
pub open spec fn wall_damaged(wall: nat, full: nat) -> bool {
    wall < full / 2
}

/// How a battle stands.
pub enum Outcome {
    /// Nobody has won.
    Draw,
    /// The wall has lost more than half of its health.
    AttackersWin,
    /// No attacker is left.
    DefendersWin,
}

impl Outcome {
    /// The number that stands for the outcome.
    pub open spec fn code(self) -> nat {
        match self {
            Outcome::Draw => 0,
            Outcome::AttackersWin => 1,
            Outcome::DefendersWin => 2,
        }
    }
}

/// The outcome for attackers and a wall as they stand. Destroyed attackers
/// have lost, whatever the state of the wall.
pub open spec fn verdict(attackers: Group, wall: nat, config: Config) -> Outcome {
    if attackers.destroyed() {
        Outcome::DefendersWin
    } else if wall_damaged(wall, config.wall_health) {
        Outcome::AttackersWin
    } else {
        Outcome::Draw
    }
}

/// The constants of a battle.
pub struct Config {
    /// The damage that one catapult does in one turn.
    pub catapult_attack: nat,
    /// The health of one undamaged catapult.
    pub catapult_health: nat,
    /// The health of the undamaged wall.
    pub wall_health: nat,
    /// The number of catapults that defend the wall.
    pub defending_catapults: nat,
}

/// A group of catapults, pooled into one health total.
pub struct Group {
    /// The health that the living catapults of the group have together.
    pub total_health: nat,
    /// The damage that one catapult of the group does in one turn.
    pub attack: nat,
    /// The health of one undamaged catapult of the group.
    pub catapult_health: nat,
    /// The turns the group has taken, counted modulo 10.
    pub attack_counter: nat,
}

/// A battle in progress.
pub struct Battle {
    /// The group that attacks the wall.
    pub attackers: Group,
    /// The group that defends it.
    pub defenders: Group,
    /// The health that the wall has left.
    pub wall: nat,
}

impl Config {
    /// The constants of the standard battle.
    pub open spec fn standard() -> Config {
        Config {
            catapult_attack: 50,
            catapult_health: 300,
            wall_health: 100000,
            defending_catapults: 300,
        }
    }

    /// The configurations with which every battle ends: catapults have
    /// health and do damage, and half of the wall's health is not nothing.
    pub open spec fn valid(self) -> bool {
        &&& self.catapult_attack > 0
        &&& self.catapult_health > 0
        &&& self.wall_health >= 2
    }
}

impl Group {
    /// A fresh group of `count` catapults.
    pub open spec fn fresh(count: nat, health: nat, attack: nat) -> Group {
        Group { total_health: count * health, attack, catapult_health: health, attack_counter: 0 }
    }

    /// The number of catapults that are still alive: a damaged catapult
    /// counts as one.
    pub open spec fn remaining_catapults(self) -> nat {
        ceil_div(self.total_health, self.catapult_health)
    }

    /// The damage that the group does in one turn.
    pub open spec fn damage(self) -> nat {
        self.remaining_catapults() * self.attack
    }

    /// The group after it has taken `damage`.
    pub open spec fn hit(self, damage: nat) -> Group {
        Group { total_health: after_damage(self.total_health, damage), ..self }
    }

    /// Whether no catapult of the group is left.
    pub open spec fn destroyed(self) -> bool {
        self.total_health == 0
    }

    /// Whether the group's next turn goes against the other group, and not
    /// against the wall.
    pub open spec fn targets_group(self) -> bool {
        self.attack_counter < 2
    }

    /// The group after it has taken a turn.
    pub open spec fn turn_taken(self) -> Group {
        Group { attack_counter: (self.attack_counter + 1) % 10, ..self }
    }
}

impl Battle {
    /// The battle before the first round.
    pub open spec fn opening(attacking_catapults: nat, config: Config) -> Battle {
        Battle {
            attackers: Group::fresh(
                attacking_catapults,
                config.catapult_health,
                config.catapult_attack,
            ),
            defenders: Group::fresh(
                config.defending_catapults,
                config.catapult_health,
                config.catapult_attack,
            ),
            wall: config.wall_health,
        }
    }

    /// Whether the battle has ended: the wall has lost more than half of its
    /// health, or no attacker is left.
    pub open spec fn over(self, config: Config) -> bool {
        wall_damaged(self.wall, config.wall_health) || self.attackers.destroyed()
    }

    /// One round. The defenders fire at the attackers. Then the attackers
    /// that are left fire: at the defenders in the first two of every ten
    /// turns, at the wall in the other eight.
    pub open spec fn round(self) -> Battle {
        let attackers = self.attackers.hit(self.defenders.damage());
        if attackers.targets_group() {
            Battle {
                attackers: attackers.turn_taken(),
                defenders: self.defenders.hit(attackers.damage()),
                wall: self.wall,
            }
        } else {
            Battle {
                attackers: attackers.turn_taken(),
                defenders: self.defenders,
                wall: after_damage(self.wall, attackers.damage()),
            }
        }
    }

    /// The battle after `n` rounds.
    pub open spec fn rounds(self, n: nat) -> Battle
        decreases n,
    {
        if n == 0 {
            self
        } else {
            self.round().rounds((n - 1) as nat)
        }
    }

    /// The outcome of the battle as it stands.
    pub open spec fn outcome(self, config: Config) -> Outcome {
        verdict(self.attackers, self.wall, config)
    }

    /// The battles that end: both sides have catapults that can be damaged
    /// and do damage, and half of the wall's health is not nothing.
    pub open spec fn sound(self, config: Config) -> bool {
        &&& self.attackers.attack > 0
        &&& self.attackers.catapult_health > 0
        &&& self.defenders.attack > 0
        &&& self.defenders.catapult_health > 0
        &&& config.wall_health >= 2
    }

    /// The number of turns before the attackers next fire at the wall.
    pub open spec fn turns_before_wall(self) -> nat {
        if self.attackers.attack_counter < 2 {
            (2 - self.attackers.attack_counter) as nat
        } else {
            0
        }
    }

    /// The battle when it has ended: rounds are played until it is over.
    pub open spec fn play(self, config: Config) -> Battle
        decreases self.attackers.total_health + self.wall, self.turns_before_wall(),
        when self.sound(config)
        via Self::play_ends
    {
        if self.over(config) {
            self
        } else {
            self.round().play(config)
        }
    }

    #[via_fn]
    proof fn play_ends(self, config: Config) {
        if !self.over(config) {
            lemma_round_progress(self, config);
        }
    }
}

/// The outcome of the battle that `attacking_catapults` catapults start
/// against the wall and defenders of `config`.
pub open spec fn battle_outcome(attacking_catapults: nat, config: Config) -> Outcome {
    Battle::opening(attacking_catapults, config).play(config).outcome(config)
}

/// Rounding up is the quotient of `n + d - 1` by `d`, rounded down.
pub proof fn lemma_ceil_div_formula(n: nat, d: nat)
    requires
        d > 0,
    ensures
        ceil_div(n, d) == (n + d - 1) / (d as int),
{
    let q = n as int / d as int;
    let r = n as int % d as int;
    lemma_fundamental_div_mod(n as int, d as int);
    assert(d * q == q * d) by (nonlinear_arith);
    if r == 0 {
        lemma_fundamental_div_mod_converse(n + d - 1, d as int, q, d - 1);
    } else {
        assert((q + 1) * d == q * d + d) by (nonlinear_arith);
        lemma_fundamental_div_mod_converse(n + d - 1, d as int, q + 1, r - 1);
    }
}

/// A total that `d` divides into `q` parts rounds up to `q`.
pub proof fn lemma_ceil_div_exact(q: nat, d: nat)
    requires
        d > 0,
    ensures
        ceil_div(q * d, d) == q,
{
    lemma_fundamental_div_mod_converse((q * d) as int, d as int, q as int, 0);
}

/// A total that leaves a remainder rounds up by exactly one.
pub proof fn lemma_ceil_div_rounds_up(q: nat, r: nat, d: nat)
    requires
        0 < r < d,
    ensures
        ceil_div(q * d + r, d) == q + 1,
{
    lemma_fundamental_div_mod_converse((q * d + r) as int, d as int, q as int, r as int);
}

/// Rounding up never gives less for more.
pub proof fn lemma_ceil_div_monotone(n: nat, m: nat, d: nat)
    requires
        d > 0,
        n <= m,
    ensures
        ceil_div(n, d) <= ceil_div(m, d),
{
    lemma_ceil_div_formula(n, d);
    lemma_ceil_div_formula(m, d);
    lemma_div_is_ordered(n + d - 1, m + d - 1, d as int);
}

/// A total of at most `k` whole parts rounds up to at most `k`, and only
/// nothing rounds up to nothing.
pub proof fn lemma_ceil_div_bounds(n: nat, k: nat, d: nat)
    requires
        d > 0,
        n <= k * d,
    ensures
        ceil_div(n, d) <= k,
        n > 0 ==> ceil_div(n, d) >= 1,
        n == 0 ==> ceil_div(n, d) == 0,
{
    lemma_ceil_div_exact(k, d);
    lemma_ceil_div_monotone(n, k * d, d);
    if n > 0 {
        lemma_ceil_div_formula(n, d);
        lemma_fundamental_div_mod_converse(d as int, d as int, 1, 0);
        lemma_div_is_ordered(d as int, n + d - 1, d as int);
    } else {
        lemma_ceil_div_exact(0, d);
    }
}

/// A group that can do damage and is not destroyed does damage.
pub proof fn lemma_damage_positive(group: Group)
    requires
        group.attack > 0,
        group.catapult_health > 0,
    ensures
        group.destroyed() ==> group.damage() == 0,
        !group.destroyed() ==> group.damage() >= group.attack,
{
    assert(group.total_health <= group.total_health * group.catapult_health) by (nonlinear_arith)
        requires
            group.catapult_health >= 1,
    ;
    lemma_ceil_div_bounds(group.total_health, group.total_health, group.catapult_health);
    let n = group.remaining_catapults();
    let a = group.attack;
    if group.destroyed() {
        assert(n * a == 0) by (nonlinear_arith)
            requires
                n == 0,
        ;
    } else {
        assert(n * a >= a) by (nonlinear_arith)
            requires
                n >= 1,
        ;
    }
}

/// What a round of a battle that is not over changes: something is lost, or
/// the attackers come a turn nearer to the wall; and nothing is gained.
pub proof fn lemma_round_progress(battle: Battle, config: Config)
    requires
        battle.sound(config),
        !battle.over(config),
    ensures
        battle.round().sound(config),
        battle.round().attackers.total_health + battle.round().wall
            < battle.attackers.total_health + battle.wall || (battle.round().attackers.total_health
            + battle.round().wall == battle.attackers.total_health + battle.wall
            && battle.round().turns_before_wall() < battle.turns_before_wall()),
{
    lemma_damage_positive(battle.defenders);
    lemma_damage_positive(battle.attackers.hit(battle.defenders.damage()));
}

} // verus!
