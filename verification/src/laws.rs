//! What holds of every battle.
//!
//! Each proof function here states one law over the definitions of
//! [`crate::model`], against which the executable functions are specified.

use crate::model::{
    after_damage, battle_outcome, lemma_ceil_div_monotone, lemma_damage_positive,
    lemma_round_progress, wall_damaged, Battle, Config, Group, Outcome,
};
use vstd::arithmetic::mul::lemma_mul_inequality;
use vstd::prelude::*;

verus! {

/// A battle that is played to its end is over.
pub proof fn lemma_play_is_over(battle: Battle, config: Config)
    requires
        battle.sound(config),
    ensures
        battle.play(config).over(config),
    decreases battle.attackers.total_health + battle.wall, battle.turns_before_wall(),
{
    if !battle.over(config) {
        lemma_round_progress(battle, config);
        lemma_play_is_over(battle.round(), config);
    }
}

/// Every battle has a winner: with valid constants the outcome is that the
/// attackers win or that the defenders win, never a draw, for every number of
/// attacking catapults.
pub proof fn lemma_battle_is_decided(attacking_catapults: nat, config: Config)
    requires
        config.valid(),
    ensures
        battle_outcome(attacking_catapults, config) == Outcome::AttackersWin || battle_outcome(
            attacking_catapults,
            config,
        ) == Outcome::DefendersWin,
{
    lemma_play_is_over(Battle::opening(attacking_catapults, config), config);
}

/// Without attackers the defenders win before a round is played.
pub proof fn lemma_no_attackers_lose(config: Config)
    requires
        config.valid(),
    ensures
        battle_outcome(0, config) == Outcome::DefendersWin,
{
    let opening = Battle::opening(0, config);
    assert(0 * config.catapult_health == 0) by (nonlinear_arith);
    assert(opening.over(config));
}

/// Destroyed attackers have lost, also where the wall has lost more than half
/// of its health.
pub proof fn lemma_destroyed_attackers_lose(battle: Battle, config: Config)
    requires
        battle.attackers.destroyed(),
    ensures
        battle.outcome(config) == Outcome::DefendersWin,
{
}

/// The attackers are never destroyed in the round in which the wall gives
/// way: destroyed attackers do no damage, so a round that destroys them
/// leaves the wall as it was.
pub proof fn lemma_destroyed_attackers_spare_wall(battle: Battle, config: Config)
    requires
        battle.sound(config),
        !battle.over(config),
        battle.round().attackers.destroyed(),
    ensures
        battle.round().wall == battle.wall,
        !wall_damaged(battle.round().wall, config.wall_health),
{
    lemma_damage_positive(battle.attackers.hit(battle.defenders.damage()));
}

/// Damage never adds health, and never takes more than there is.
pub proof fn lemma_damage_saturates(health: nat, damage: nat)
    ensures
        after_damage(health, damage) <= health,
        damage >= health ==> after_damage(health, damage) == 0,
        damage <= health ==> after_damage(health, damage) + damage == health,
{
}

/// A turn moves the counter one step round a cycle of ten. A turn with the
/// counter at 0 or 1 goes against the defenders and leaves the wall as it
/// is; a turn with the counter at 2 to 9 goes against the wall and leaves the
/// defenders as they are.
pub proof fn lemma_turn_targets(battle: Battle)
    ensures
        battle.round().attackers.attack_counter == (battle.attackers.attack_counter + 1) % 10,
        battle.attackers.attack_counter < 2 ==> battle.round().wall == battle.wall
            && battle.round().defenders == battle.defenders.hit(
            battle.attackers.hit(battle.defenders.damage()).damage(),
        ),
        battle.attackers.attack_counter >= 2 ==> battle.round().defenders == battle.defenders
            && battle.round().wall == after_damage(
            battle.wall,
            battle.attackers.hit(battle.defenders.damage()).damage(),
        ),
{
}

/// After `n` rounds the counter has moved `n` steps round its cycle.
pub proof fn lemma_turn_counter_after(battle: Battle, n: nat)
    requires
        battle.attackers.attack_counter < 10,
    ensures
        battle.rounds(n).attackers.attack_counter == (battle.attackers.attack_counter + n) % 10,
    decreases n,
{
    if n > 0 {
        lemma_turn_counter_after(battle.round(), (n - 1) as nat);
    }
}

/// After ten turns the counter is where it was.
pub proof fn lemma_turn_counter_cycles(battle: Battle)
    requires
        battle.attackers.attack_counter < 10,
    ensures
        battle.rounds(10).attackers.attack_counter == battle.attackers.attack_counter,
{
    lemma_turn_counter_after(battle, 10);
}

/// The first battle stands at least as well for the attackers as the second:
/// the same catapults at the same turn, with no fewer attackers, no more
/// defenders and no more wall.
pub open spec fn favours_attackers(first: Battle, second: Battle) -> bool {
    &&& first.attackers.attack == second.attackers.attack
    &&& first.attackers.catapult_health == second.attackers.catapult_health
    &&& first.attackers.attack_counter == second.attackers.attack_counter
    &&& first.defenders.attack == second.defenders.attack
    &&& first.defenders.catapult_health == second.defenders.catapult_health
    &&& first.attackers.total_health >= second.attackers.total_health
    &&& first.defenders.total_health <= second.defenders.total_health
    &&& first.wall <= second.wall
}

/// Of two groups of the same catapults, the healthier does no less damage.
pub proof fn lemma_damage_monotone(weaker: Group, stronger: Group)
    requires
        weaker.attack == stronger.attack,
        weaker.catapult_health == stronger.catapult_health,
        weaker.catapult_health > 0,
        weaker.total_health <= stronger.total_health,
    ensures
        weaker.damage() <= stronger.damage(),
{
    lemma_ceil_div_monotone(weaker.total_health, stronger.total_health, weaker.catapult_health);
    lemma_mul_inequality(
        weaker.remaining_catapults() as int,
        stronger.remaining_catapults() as int,
        weaker.attack as int,
    );
}

/// A round keeps the better battle better.
pub proof fn lemma_round_keeps_favour(first: Battle, second: Battle, config: Config)
    requires
        favours_attackers(first, second),
        second.sound(config),
    ensures
        favours_attackers(first.round(), second.round()),
{
    lemma_damage_monotone(first.defenders, second.defenders);
    lemma_damage_monotone(
        second.attackers.hit(second.defenders.damage()),
        first.attackers.hit(first.defenders.damage()),
    );
}

/// Where the attackers win a battle, they win every battle that stands at
/// least as well for them.
pub proof fn lemma_favour_wins(first: Battle, second: Battle, config: Config)
    requires
        favours_attackers(first, second),
        second.sound(config),
        second.play(config).outcome(config) == Outcome::AttackersWin,
    ensures
        first.play(config).outcome(config) == Outcome::AttackersWin,
    decreases second.attackers.total_health + second.wall, second.turns_before_wall(),
{
    if !first.over(config) && !second.over(config) {
        lemma_round_progress(first, config);
        lemma_round_progress(second, config);
        lemma_round_keeps_favour(first, second, config);
        lemma_favour_wins(first.round(), second.round(), config);
    }
}

/// More attackers never do worse: where some number of catapults wins the
/// battle, every larger number wins it too, and where some number loses it,
/// every smaller number loses it too.
pub proof fn lemma_more_attackers_never_lose(fewer: nat, more: nat, config: Config)
    requires
        config.valid(),
        fewer <= more,
    ensures
        battle_outcome(fewer, config) == Outcome::AttackersWin ==> battle_outcome(more, config)
            == Outcome::AttackersWin,
        battle_outcome(more, config) == Outcome::DefendersWin ==> battle_outcome(fewer, config)
            == Outcome::DefendersWin,
{
    lemma_mul_inequality(fewer as int, more as int, config.catapult_health as int);
    lemma_battle_is_decided(fewer, config);
    lemma_battle_is_decided(more, config);
    if battle_outcome(fewer, config) == Outcome::AttackersWin {
        lemma_favour_wins(Battle::opening(more, config), Battle::opening(fewer, config), config);
    }
}

} // verus!
