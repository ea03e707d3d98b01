//! The battle: turn after turn until one side is down.
//!
//! A battle is a state machine. It starts out ongoing, and each turn takes
//! it to the next state: the turn counter goes up by one, both moves are
//! resolved, and then the healths are looked at. A player without hit
//! points has lost, whatever became of the enemy on the same turn; else an
//! enemy without hit points means the player has won; else the battle goes
//! on.

use vstd::prelude::*;
use vstd::string::StringExecFns;
use crate::combat::action::Action;
use crate::combat::enemy::{policy_move, Enemy};
use crate::combat::health::Health;
use crate::combat::resolve::{duel_of, resolve_turn, Duel, TurnEffects};
use crate::config::THRUST_PERIOD;
use crate::error::GameError;
use crate::items::{healing_reserve, Item, lemma_reserve_without};
use crate::menu::{Console, Menu, Page, Question, Screen};
use crate::player::{combat_choice, combat_description, combat_questions, Player};
use crate::text::{decimal, push_decimal};

verus! {

/// How a battle ended.
#[derive(Clone, Copy, Debug, PartialEq, Eq, Structural)]
pub enum BattleResult {
    /// The enemy is down and the player is not.
    PlayerWin,
    /// The player is down.
    PlayerLoss,
}

/// Where a battle stands.
#[derive(Clone, Copy, Debug, PartialEq, Eq, Structural)]
pub enum BattleState {
    /// Both sides are standing.
    Ongoing,
    /// The enemy is down and the player is not. The battle is over.
    PlayerWin,
    /// The player is down. The battle is over.
    PlayerLoss,
}

/// What one turn of a battle came to.
#[derive(Clone, Copy, Debug, PartialEq, Eq)]
pub struct TurnReport {
    /// The turn counter after the turn
    pub turn_number: u64,
    /// What the turn did to both sides
    pub effects: TurnEffects,
    /// Where the battle stands after the turn
    pub state: BattleState,
}

/// What a whole battle came to.
#[derive(Clone, Copy, Debug, PartialEq, Eq)]
pub struct BattleOutcome {
    /// How the battle ended
    pub result: BattleResult,
    /// The turn counter after the last turn of the battle
    pub turn_number: u64,
}

impl BattleResult {
    /// The state in which a battle with this result has ended.
    pub open spec fn state(self) -> BattleState {
        match self {
            BattleResult::PlayerWin => BattleState::PlayerWin,
            BattleResult::PlayerLoss => BattleState::PlayerLoss,
        }
    }
}

impl Duel {
    /// Where the battle stands: lost when the player has no hit points
    /// left, else won when the enemy has none, else ongoing.
    pub open spec fn status(self) -> BattleState {
        if self.player_health == 0 {
            BattleState::PlayerLoss
        } else if self.enemy_health == 0 {
            BattleState::PlayerWin
        } else {
            BattleState::Ongoing
        }
    }

    /// The hit points that the player can still lose: those they have and
    /// those that the food they carry can restore.
    pub open spec fn stamina(self) -> nat {
        self.player_health + healing_reserve(self.inventory)
    }
}

/// The duel after the turns of `script`, each a move of the player and a
/// move of the enemy, played one after the other from `duel`; or `None`
/// where the script cannot be played: where one of its moves cannot be
/// made, or where it goes on after the battle has ended.
pub open spec fn play(duel: Duel, script: Seq<(Action, Action)>) -> Option<Duel>
    decreases script.len(),
{
    if script.len() == 0 {
        Some(duel)
    } else {
        match play(duel, script.drop_last()) {
            Some(before) => if (script.len() == 1 || before.status() is Ongoing) && before.allows(
                script.last().0,
                script.last().1,
            ) {
                Some(before.resolve(script.last().0, script.last().1))
            } else {
                None
            },
            None => None,
        }
    }
}

/// The move that the policy of `enemy` picks on turn `turn` of a duel that
/// stands at `duel`.
pub open spec fn policy_on(enemy: Enemy, duel: Duel, turn: nat) -> Action {
    policy_move(
        enemy.seed,
        enemy.defense as nat,
        duel.enemy_health,
        enemy.max_health@,
        duel.player_health,
        duel.player_max,
        turn as u64,
    )
}

/// Whether every move of the enemy in `script`, played from `start` after
/// turn `turn_number`, is the one that the policy of `enemy` picks where
/// the duel then stands, on the turn that is then played.
pub open spec fn enemy_keeps_to_policy(
    enemy: Enemy,
    start: Duel,
    turn_number: u64,
    script: Seq<(Action, Action)>,
) -> bool {
    forall|k: int|
        0 <= k < script.len() ==> (#[trigger] script[k]).1 == policy_on(
            enemy,
            play(start, script.take(k))->Some_0,
            (turn_number + k + 1) as nat,
        )
}

/// A script in which the enemy keeps to its policy still does so with one
/// more turn, if the enemy's move on that turn is the policy's.
pub proof fn lemma_policy_kept_on(
    enemy: Enemy,
    start: Duel,
    turn_number: u64,
    script: Seq<(Action, Action)>,
    player_action: Action,
    enemy_action: Action,
)
    requires
        enemy_keeps_to_policy(enemy, start, turn_number, script),
        enemy_action == policy_on(
            enemy,
            play(start, script)->Some_0,
            (turn_number + script.len() + 1) as nat,
        ),
    ensures
        enemy_keeps_to_policy(
            enemy,
            start,
            turn_number,
            script.push((player_action, enemy_action)),
        ),
{
    let longer = script.push((player_action, enemy_action));
    assert forall|k: int| 0 <= k < longer.len() implies (#[trigger] longer[k]).1 == policy_on(
        enemy,
        play(start, longer.take(k))->Some_0,
        (turn_number + k + 1) as nat,
    ) by {
        if k < script.len() {
            assert(longer.take(k) =~= script.take(k));
            assert(longer[k] == script[k]);
        } else {
            assert(longer.take(k) =~= script);
        }
    }
}

/// The most turns that a battle of `player` against an enemy that follows
/// its policy can take.
pub open spec fn longest_battle(player: Player) -> nat {
    THRUST_PERIOD as nat * (player.health@ + healing_reserve(player.inventory@))
        + THRUST_PERIOD as nat
}

/// The turns that a battle can still take from a turn counter of `turn` and
/// a player with `stamina` hit points to lose: four for each hit point, and
/// then those up to the enemy's next thrust.
pub open spec fn turns_left(turn: nat, stamina: nat) -> nat {
    (THRUST_PERIOD as nat * stamina + (THRUST_PERIOD as nat - turn % THRUST_PERIOD as nat)) as nat
}

/// A turn that costs the player a hit point whenever it is a turn of the
/// enemy's thrust leaves fewer turns to go.
pub proof fn lemma_turns_run_out(turn: nat, stamina: nat, next_stamina: nat)
    requires
        next_stamina <= stamina,
        (turn + 1) % THRUST_PERIOD as nat == 0 ==> next_stamina < stamina,
    ensures
        turns_left(turn + 1, next_stamina) < turns_left(turn, stamina),
{
}

/// There is always at least one turn to go, and never more than four for
/// each hit point and four more.
pub proof fn lemma_turns_left_bounds(turn: nat, stamina: nat)
    ensures
        1 <= turns_left(turn, stamina) <= THRUST_PERIOD * stamina + THRUST_PERIOD,
{
}

/// Playing one more turn after a script that leaves the battle going is
/// playing the script with that turn added.
pub proof fn lemma_play_on(
    duel: Duel,
    script: Seq<(Action, Action)>,
    player_action: Action,
    enemy_action: Action,
)
    requires
        play(duel, script) matches Some(before) && (script.len() == 0 || before.status() is Ongoing)
            && before.allows(player_action, enemy_action),
    ensures
        play(duel, script.push((player_action, enemy_action))) == Some(
            play(duel, script)->Some_0.resolve(player_action, enemy_action),
        ),
{
    let longer = script.push((player_action, enemy_action));
    assert(longer.drop_last() =~= script);
    assert(longer.last() == (player_action, enemy_action));
}

/// A turn never adds to the hit points that the player can still lose, and
/// a blow that lands on a player who survives it takes at least one of them
/// for each hit point of its strength, down to the last.
pub proof fn lemma_turn_spends_stamina(duel: Duel, player_action: Action, enemy_action: Action)
    requires
        duel.allows(player_action, enemy_action),
    ensures
        duel.resolve(player_action, enemy_action).stamina() <= duel.stamina(),
        enemy_action.lands_on(player_action) && duel.enemy_attack > 0 && duel.resolve(
            player_action,
            enemy_action,
        ).player_health > 0 ==> duel.resolve(player_action, enemy_action).stamina()
            < duel.stamina(),
{
    if let Action::EatFood(i) = player_action {
        lemma_reserve_without(duel.inventory, i as int);
    }
}

/// Where the battle between `player` and `enemy` stands.
pub fn battle_state(player: &Player, enemy: &Enemy) -> (state: BattleState)
    ensures
        state == duel_of(*player, *enemy).status(),
{
    if player.health.is_zero() {
        BattleState::PlayerLoss
    } else if enemy.health.is_zero() {
        BattleState::PlayerWin
    } else {
        BattleState::Ongoing
    }
}

/// Plays one turn of a battle: resolves both moves, counts the turn and
/// says where the battle stands.
///
/// Where one of the moves cannot be made the turn is rejected with
/// [`GameError::InvalidAction`]: nothing changes, and the turn does not
/// count.
pub fn battle_turn(
    player: &mut Player,
    enemy: &mut Enemy,
    turn_number: u64,
    player_action: Action,
    enemy_action: Action,
) -> (result: Result<TurnReport, GameError>)
    requires
        old(player).health@ <= old(player).max_health@,
        turn_number < u64::MAX,
    ensures
        result is Ok <==> duel_of(*old(player), *old(enemy)).allows(player_action, enemy_action),
        result matches Err(error) ==> error == GameError::InvalidAction && *final(player) == *old(
            player,
        ) && *final(enemy) == *old(enemy),
        result matches Ok(report) ==> {
            &&& report.turn_number == turn_number + 1
            &&& duel_of(*final(player), *final(enemy)) == duel_of(*old(player), *old(enemy)).resolve(
                player_action,
                enemy_action,
            )
            &&& report.effects == duel_of(*old(player), *old(enemy)).effects(
                player_action,
                enemy_action,
            )
            &&& report.state == duel_of(*final(player), *final(enemy)).status()
            &&& final(player).health@ <= final(player).max_health@
            &&& final(player).room == old(player).room
            &&& final(player).room_graph == old(player).room_graph
            &&& final(player).max_health == old(player).max_health
            &&& final(enemy).name == old(enemy).name
            &&& final(enemy).max_health == old(enemy).max_health
            &&& final(enemy).attack == old(enemy).attack
            &&& final(enemy).defense == old(enemy).defense
            &&& final(enemy).seed == old(enemy).seed
        },
{
    match resolve_turn(player, enemy, player_action, enemy_action) {
        Ok(effects) => Ok(
            TurnReport {
                turn_number: turn_number + 1,
                effects,
                state: battle_state(player, enemy),
            },
        ),
        Err(error) => Err(error),
    }
}

/// The line that tells the player what a blow or a meal came to, or
/// nothing where there was none.
pub open spec fn effect_line(before: Seq<char>, amount: Option<u32>, after: Seq<char>) -> Seq<char> {
    match amount {
        Some(n) => before + decimal(n as nat) + after,
        None => Seq::empty(),
    }
}

/// What the player is told about a turn: both moves, then what they did,
/// then the player's health.
pub open spec fn turn_text(
    player_line: Seq<char>,
    enemy_line: Seq<char>,
    enemy_name: Seq<char>,
    effects: TurnEffects,
    health: nat,
    max_health: nat,
) -> Seq<char> {
    player_line + "\n"@ + enemy_line + effect_line(
        "\nYou are healed by "@,
        effects.player_healed,
        " HP."@,
    ) + effect_line("\nYou take "@, effects.player_hit, " damage."@) + effect_line(
        "\nThe "@ + enemy_name + " takes "@,
        effects.enemy_hit,
        " damage."@,
    ) + "\nYou are now at "@ + decimal(health) + "/"@ + decimal(max_health) + " HP."@
}

fn push_effect(out: &mut String, before: &str, amount: Option<u32>, after: &str)
    ensures
        final(out)@ == old(out)@ + effect_line(before@, amount, after@),
{
    if let Some(n) = amount {
        out.append(before);
        push_decimal(out, n as u64);
        out.append(after);
    }
    assert(final(out)@ =~= old(out)@ + effect_line(before@, amount, after@));
}

/// The page that tells the player about a turn.
pub fn turn_screen(
    turn_number: u64,
    player_line: &str,
    enemy_line: &str,
    enemy_name: &str,
    effects: &TurnEffects,
    health: Health,
    max_health: Health,
) -> (screen: Screen)
    ensures
        screen.title@ == "Turn "@ + decimal(turn_number as nat),
        screen.content@ == turn_text(
            player_line@,
            enemy_line@,
            enemy_name@,
            *effects,
            health@,
            max_health@,
        ),
{
    let mut title = String::from_str("Turn ");
    push_decimal(&mut title, turn_number);
    let mut content = String::from_str(player_line);
    content.append("\n");
    content.append(enemy_line);
    push_effect(&mut content, "\nYou are healed by ", effects.player_healed, " HP.");
    push_effect(&mut content, "\nYou take ", effects.player_hit, " damage.");
    let mut lead = String::from_str("\nThe ");
    lead.append(enemy_name);
    lead.append(" takes ");
    push_effect(&mut content, lead.as_str(), effects.enemy_hit, " damage.");
    content.append("\nYou are now at ");
    push_decimal(&mut content, health.points() as u64);
    content.append("/");
    push_decimal(&mut content, max_health.points() as u64);
    content.append(" HP.");
    Screen { title, content }
}

/// The page that tells the player how the battle ended.
pub fn result_screen(result: BattleResult, enemy_name: &str) -> (screen: Screen)
    ensures
        screen.title@ == match result {
            BattleResult::PlayerWin => "You defeated the "@ + enemy_name@,
            BattleResult::PlayerLoss => "You were defeated by the "@ + enemy_name@,
        },
        screen.content@ == match result {
            BattleResult::PlayerWin => "The way is clear."@,
            BattleResult::PlayerLoss => "Everything goes dark."@,
        },
{
    match result {
        BattleResult::PlayerWin => {
            let mut title = String::from_str("You defeated the ");
            title.append(enemy_name);
            Screen { title, content: String::from_str("The way is clear.") }
        },
        BattleResult::PlayerLoss => {
            let mut title = String::from_str("You were defeated by the ");
            title.append(enemy_name);
            Screen { title, content: String::from_str("Everything goes dark.") }
        },
    }
}

/// The reserve of a part of the inventory is at most that of the whole.
proof fn lemma_reserve_grows(items: Seq<Item>, k: int)
    requires
        0 <= k <= items.len(),
    ensures
        healing_reserve(items.take(k)) <= healing_reserve(items),
    decreases items.len() - k,
{
    if k < items.len() {
        lemma_reserve_grows(items, k + 1);
        assert(items.take(k + 1).drop_last() =~= items.take(k));
    } else {
        assert(items.take(k) =~= items);
    }
}

/// The most turns that a battle of `player` can take, or `None` where that
/// number is beyond what a turn counter can hold.
pub fn turn_limit(player: &Player) -> (limit: Option<u64>)
    ensures
        match limit {
            Some(turns) => turns == longest_battle(*player),
            None => longest_battle(*player) > u64::MAX,
        },
{
    let mut stamina: u64 = player.health.points() as u64;
    let mut i: usize = 0;
    while i < player.inventory.len()
        invariant
            i <= player.inventory.len(),
            stamina == player.health@ + healing_reserve(player.inventory@.take(i as int)),
        decreases player.inventory.len() - i,
    {
        let amount: u64 = match &player.inventory[i] {
            Item::Food(food) => food.heals_for as u64,
            Item::Weapon(_) => 0,
        };
        proof {
            let next = player.inventory@.take(i + 1);
            assert(next.drop_last() =~= player.inventory@.take(i as int));
            assert(next.last() == player.inventory@[i as int]);
            lemma_reserve_grows(player.inventory@, i + 1);
        }
        stamina = match stamina.checked_add(amount) {
            Some(sum) => sum,
            None => {
                return None;
            },
        };
        i += 1;
    }
    assert(player.inventory@.take(i as int) =~= player.inventory@);
    match stamina.checked_mul(THRUST_PERIOD) {
        Some(turns) => turns.checked_add(THRUST_PERIOD),
        None => None,
    }
}

/// The page that tells of a turn of the duel against `enemy`: the turn that
/// took the counter to `turn`, played with the two moves from where the
/// duel stood at `before`.
pub open spec fn turn_page(
    enemy: Enemy,
    before: Duel,
    turn: nat,
    player_action: Action,
    enemy_action: Action,
) -> Page {
    (
        "Turn "@ + decimal(turn),
        turn_text(
            combat_description(before.inventory, player_action),
            enemy.description(enemy_action),
            enemy.name@,
            before.effects(player_action, enemy_action),
            before.resolve(player_action, enemy_action).player_health,
            before.player_max,
        ),
    )
}

/// The page that tells how the battle against `enemy` ended.
pub open spec fn result_page(result: BattleResult, enemy: Enemy) -> Page {
    match result {
        BattleResult::PlayerWin => ("You defeated the "@ + enemy.name@, "The way is clear."@),
        BattleResult::PlayerLoss => (
            "You were defeated by the "@ + enemy.name@,
            "Everything goes dark."@,
        ),
    }
}

/// The pages that the turns of `script` show, played from `start` after
/// turn `turn_number`: one page a turn, in the order of the turns.
pub open spec fn battle_pages(
    enemy: Enemy,
    start: Duel,
    turn_number: u64,
    script: Seq<(Action, Action)>,
) -> Seq<Page>
    decreases script.len(),
{
    if script.len() == 0 {
        Seq::empty()
    } else {
        battle_pages(enemy, start, turn_number, script.drop_last()).push(
            turn_page(
                enemy,
                play(start, script.drop_last())->Some_0,
                (turn_number + script.len()) as nat,
                script.last().0,
                script.last().1,
            ),
        )
    }
}

/// The questions that are put to the player over a battle, given their
/// answers: on each turn which move and, for an attack, which way, with
/// the moves on offer those of what the player carries on that turn.
/// `answers` holds for each turn the two answers; there may be one more
/// pair of answers than `script` has turns, for a turn that was asked for
/// and not played.
pub open spec fn battle_questions(
    start: Duel,
    script: Seq<(Action, Action)>,
    answers: Seq<(usize, usize)>,
) -> Seq<Question>
    decreases answers.len(),
{
    if answers.len() == 0 {
        Seq::empty()
    } else {
        battle_questions(start, script, answers.drop_last()) + combat_questions(
            play(start, script.take(answers.len() - 1))->Some_0.inventory,
            answers.last().0,
            answers.last().1,
        )
    }
}

/// Whether every move of the player in `script`, played from `start`, is
/// the one that the answers of that turn stand for.
pub open spec fn player_keeps_to_answers(
    start: Duel,
    script: Seq<(Action, Action)>,
    answers: Seq<(usize, usize)>,
) -> bool {
    &&& script.len() <= answers.len()
    &&& forall|k: int|
        0 <= k < script.len() ==> combat_choice(
            play(start, script.take(k))->Some_0.inventory,
            answers[k].0,
            answers[k].1,
        ) == Ok::<Action, GameError>((#[trigger] script[k]).0)
}

/// The questions of the turns that were asked for do not depend on a turn
/// that is played after them.
pub proof fn lemma_questions_stand(
    start: Duel,
    script: Seq<(Action, Action)>,
    next: (Action, Action),
    answers: Seq<(usize, usize)>,
)
    requires
        answers.len() <= script.len() + 1,
    ensures
        battle_questions(start, script.push(next), answers) == battle_questions(
            start,
            script,
            answers,
        ),
    decreases answers.len(),
{
    if answers.len() > 0 {
        lemma_questions_stand(start, script, next, answers.drop_last());
        assert(script.push(next).take(answers.len() - 1) =~= script.take(answers.len() - 1));
    }
}

/// One more pair of answers adds the questions of the turn that is asked
/// for after the turns of `script`.
pub proof fn lemma_questions_grow(
    start: Duel,
    script: Seq<(Action, Action)>,
    answers: Seq<(usize, usize)>,
    next: (usize, usize),
)
    requires
        answers.len() == script.len(),
    ensures
        battle_questions(start, script, answers.push(next)) == battle_questions(
            start,
            script,
            answers,
        ) + combat_questions(play(start, script)->Some_0.inventory, next.0, next.1),
{
    let longer = answers.push(next);
    assert(longer.drop_last() =~= answers);
    assert(script.take(longer.len() - 1) =~= script);
}

/// A script in which the player keeps to their answers still does so with
/// one more turn, if the player's move on that turn is what the answers of
/// that turn stand for.
pub proof fn lemma_answers_kept_on(
    start: Duel,
    script: Seq<(Action, Action)>,
    answers: Seq<(usize, usize)>,
    next: (Action, Action),
    answer: (usize, usize),
)
    requires
        answers.len() == script.len(),
        player_keeps_to_answers(start, script, answers),
        combat_choice(play(start, script)->Some_0.inventory, answer.0, answer.1) == Ok::<
            Action,
            GameError,
        >(next.0),
    ensures
        player_keeps_to_answers(start, script.push(next), answers.push(answer)),
{
    let longer = script.push(next);
    let more = answers.push(answer);
    assert forall|k: int| 0 <= k < longer.len() implies combat_choice(
        play(start, longer.take(k))->Some_0.inventory,
        more[k].0,
        more[k].1,
    ) == Ok::<Action, GameError>((#[trigger] longer[k]).0) by {
        if k < script.len() {
            assert(longer.take(k) =~= script.take(k));
            assert(longer[k] == script[k]);
            assert(more[k] == answers[k]);
        } else {
            assert(longer.take(k) =~= script);
        }
    }
}

/// Answers to a turn that is not played take nothing from the turns that
/// were.
pub proof fn lemma_answers_to_spare(
    start: Duel,
    script: Seq<(Action, Action)>,
    answers: Seq<(usize, usize)>,
    answer: (usize, usize),
)
    requires
        player_keeps_to_answers(start, script, answers),
    ensures
        player_keeps_to_answers(start, script, answers.push(answer)),
{
    let more = answers.push(answer);
    assert forall|k: int| 0 <= k < script.len() implies combat_choice(
        play(start, script.take(k))->Some_0.inventory,
        more[k].0,
        more[k].1,
    ) == Ok::<Action, GameError>((#[trigger] script[k]).0) by {
        assert(more[k] == answers[k]);
    }
}

/// One more turn adds its page to the pages of the battle.
pub proof fn lemma_pages_grow(
    enemy: Enemy,
    start: Duel,
    turn_number: u64,
    script: Seq<(Action, Action)>,
    next: (Action, Action),
)
    ensures
        battle_pages(enemy, start, turn_number, script.push(next)) == battle_pages(
            enemy,
            start,
            turn_number,
            script,
        ).push(
            turn_page(
                enemy,
                play(start, script)->Some_0,
                (turn_number + script.len() + 1) as nat,
                next.0,
                next.1,
            ),
        ),
{
    assert(script.push(next).drop_last() =~= script);
}

/// Fights the battle between `player` and `enemy` to its end.
///
/// Each turn the player is asked for a move through `menu` and the enemy
/// picks its own by its policy; the turn is resolved and its page shown.
/// The battle is over when one side is down, and it is lost when the player
/// is, even where the enemy went down on the same turn; the page of the
/// result is shown last. `turn_number` is the turn counter before the
/// battle; the counter after it comes back with the result.
///
/// The battle is a play of the rules: the player ends where the turns of a
/// script take them in which every move of the player is the one that the
/// menu's answers stand for, every move of the enemy is the one that its
/// policy picks, and every move could be made. What was asked and shown is
/// what those turns ask and show. The battle ends within
/// [`longest_battle`] turns, since the enemy's thrusts cannot be dodged and
/// the food runs out. A move is never refused in a battle, so the one
/// error is [`GameError::InvalidChoiceIndex`], for a menu that answers with
/// what was not on offer; the battle stops at that answer.
pub fn battle<M: Menu>(
    player: &mut Player,
    enemy: Enemy,
    turn_number: u64,
    menu: &mut Console<M>,
) -> (result: Result<BattleOutcome, GameError>)
    requires
        old(player).health@ <= old(player).max_health@,
        enemy.attack > 0,
        turn_number + longest_battle(*old(player)) <= u64::MAX,
    ensures
        final(player).health@ <= final(player).max_health@,
        final(player).max_health == old(player).max_health,
        final(player).room == old(player).room,
        final(player).room_graph == old(player).room_graph,
        result matches Err(error) ==> {
            &&& error == GameError::InvalidChoiceIndex
            &&& exists|script: Seq<(Action, Action)>, answers: Seq<(usize, usize)>|
                #![trigger battle_questions(duel_of(*old(player), enemy), script, answers)]
                {
                    &&& play(duel_of(*old(player), enemy), script) matches Some(end)
                    &&& enemy_keeps_to_policy(
                        enemy,
                        duel_of(*old(player), enemy),
                        turn_number,
                        script,
                    )
                    &&& player_keeps_to_answers(duel_of(*old(player), enemy), script, answers)
                    &&& answers.len() == script.len() + 1
                    &&& combat_choice(end.inventory, answers.last().0, answers.last().1) is Err
                    &&& script.len() == 0 || end.status() is Ongoing
                    &&& end.player_health == final(player).health@
                    &&& end.inventory == final(player).inventory@
                    &&& final(menu).asked() == old(menu).asked() + battle_questions(
                        duel_of(*old(player), enemy),
                        script,
                        answers,
                    )
                    &&& final(menu).shown() == old(menu).shown() + battle_pages(
                        enemy,
                        duel_of(*old(player), enemy),
                        turn_number,
                        script,
                    )
                }
        },
        result matches Ok(outcome) ==> {
            &&& turn_number < outcome.turn_number <= turn_number + longest_battle(*old(player))
            &&& (outcome.result == BattleResult::PlayerLoss) == (final(player).health@ == 0)
            &&& exists|script: Seq<(Action, Action)>, answers: Seq<(usize, usize)>|
                #![trigger battle_questions(duel_of(*old(player), enemy), script, answers)]
                {
                    &&& play(duel_of(*old(player), enemy), script) matches Some(end)
                    &&& enemy_keeps_to_policy(
                        enemy,
                        duel_of(*old(player), enemy),
                        turn_number,
                        script,
                    )
                    &&& player_keeps_to_answers(duel_of(*old(player), enemy), script, answers)
                    &&& answers.len() == script.len()
                    &&& script.len() == outcome.turn_number - turn_number
                    &&& end.status() == outcome.result.state()
                    &&& end.player_health == final(player).health@
                    &&& end.inventory == final(player).inventory@
                    &&& final(menu).asked() == old(menu).asked() + battle_questions(
                        duel_of(*old(player), enemy),
                        script,
                        answers,
                    )
                    &&& final(menu).shown() == old(menu).shown() + battle_pages(
                        enemy,
                        duel_of(*old(player), enemy),
                        turn_number,
                        script,
                    ).push(result_page(outcome.result, enemy))
                }
        },
{
    let mut foe = enemy;
    let mut turn: u64 = turn_number;
    let ghost start = duel_of(*player, foe);
    let ghost limit = turn_number + longest_battle(*player);
    let ghost mut script: Seq<(Action, Action)> = Seq::empty();
    let ghost mut answers: Seq<(usize, usize)> = Seq::empty();
    proof {
        lemma_turns_left_bounds(turn as nat, start.stamina());
        assert(menu.asked() =~= old(menu).asked() + battle_questions(start, script, answers));
        assert(menu.shown() =~= old(menu).shown() + battle_pages(enemy, start, turn_number, script));
    }
    loop
        invariant
            player.health@ <= player.max_health@,
            player.max_health == old(player).max_health,
            player.room == old(player).room,
            player.room_graph == old(player).room_graph,
            foe.attack > 0,
            foe.name == enemy.name,
            foe.seed == enemy.seed,
            foe.defense == enemy.defense,
            foe.max_health == enemy.max_health,
            start == duel_of(*old(player), enemy),
            limit == turn_number + longest_battle(*old(player)),
            limit <= u64::MAX,
            play(start, script) == Some(duel_of(*player, foe)),
            enemy_keeps_to_policy(enemy, start, turn_number, script),
            player_keeps_to_answers(start, script, answers),
            answers.len() == script.len(),
            script.len() == 0 || duel_of(*player, foe).status() is Ongoing,
            turn == turn_number + script.len(),
            turn + turns_left(turn as nat, duel_of(*player, foe).stamina()) <= limit,
            menu.asked() == old(menu).asked() + battle_questions(start, script, answers),
            menu.shown() == old(menu).shown() + battle_pages(enemy, start, turn_number, script),
        decreases limit - turn,
    {
        let ghost before = duel_of(*player, foe);
        let ghost asked_before = menu.asked();
        let ghost shown_before = menu.shown();
        proof {
            lemma_turns_left_bounds(turn as nat, before.stamina());
        }
        let chosen = player.choose_combat_action(menu);
        let ghost (choice, direction) = choose|choice: usize, direction: usize|
            #![trigger combat_choice(before.inventory, choice, direction)]
            chosen == combat_choice(before.inventory, choice, direction) && menu.asked()
                == asked_before + combat_questions(before.inventory, choice, direction);
        let ghost answer = (choice, direction);
        proof {
            lemma_questions_grow(start, script, answers, answer);
        }
        let player_action = match chosen {
            Ok(action) => action,
            Err(error) => {
                proof {
                    lemma_answers_to_spare(start, script, answers, answer);
                    answers = answers.push(answer);
                    assert(menu.asked() =~= old(menu).asked() + battle_questions(
                        start,
                        script,
                        answers,
                    ));
                    assert(play(start, script) matches Some(end) && end == before);
                }
                return Err(error);
            },
        };
        let enemy_action = foe.choose_action(player.health, player.max_health, turn + 1);
        let player_line = match player.describe_combat_action(player_action) {
            Ok(line) => line,
            Err(error) => {
                return Err(error);
            },
        };
        let enemy_line = foe.describe_combat_action(enemy_action);
        let report = match battle_turn(player, &mut foe, turn, player_action, enemy_action) {
            Ok(report) => report,
            Err(error) => {
                return Err(error);
            },
        };
        let ghost after = duel_of(*player, foe);
        proof {
            let next = (player_action, enemy_action);
            lemma_play_on(start, script, player_action, enemy_action);
            lemma_policy_kept_on(enemy, start, turn_number, script, player_action, enemy_action);
            lemma_answers_kept_on(start, script, answers, next, answer);
            lemma_questions_stand(start, script, next, answers.push(answer));
            lemma_pages_grow(enemy, start, turn_number, script, next);
            lemma_turn_spends_stamina(before, player_action, enemy_action);
            if after.player_health > 0 {
                lemma_turns_run_out(turn as nat, before.stamina(), after.stamina());
            }
            script = script.push(next);
            answers = answers.push(answer);
            assert(menu.asked() =~= old(menu).asked() + battle_questions(start, script, answers));
        }
        turn = report.turn_number;
        menu.show_screen(
            turn_screen(
                turn,
                player_line.as_str(),
                enemy_line.as_str(),
                foe.name,
                &report.effects,
                player.health,
                player.max_health,
            ),
        );
        proof {
            assert(foe.description(enemy_action) == enemy.description(enemy_action));
            assert(menu.shown() =~= old(menu).shown() + battle_pages(
                enemy,
                start,
                turn_number,
                script,
            ));
        }
        match report.state {
            BattleState::PlayerLoss => {
                menu.show_screen(result_screen(BattleResult::PlayerLoss, foe.name));
                proof {
                    assert(play(start, script) matches Some(end) && end == after);
                    assert(menu.shown() =~= old(menu).shown() + battle_pages(
                        enemy,
                        start,
                        turn_number,
                        script,
                    ).push(result_page(BattleResult::PlayerLoss, enemy)));
                }
                return Ok(BattleOutcome { result: BattleResult::PlayerLoss, turn_number: turn });
            },
            BattleState::PlayerWin => {
                menu.show_screen(result_screen(BattleResult::PlayerWin, foe.name));
                proof {
                    assert(play(start, script) matches Some(end) && end == after);
                    assert(menu.shown() =~= old(menu).shown() + battle_pages(
                        enemy,
                        start,
                        turn_number,
                        script,
                    ).push(result_page(BattleResult::PlayerWin, enemy)));
                }
                return Ok(BattleOutcome { result: BattleResult::PlayerWin, turn_number: turn });
            },
            BattleState::Ongoing => {},
        }
    }
}

} // verus!
