use vstd::prelude::*;

use crate::input::GameOptionEnum;
use crate::utils::get_random_int;

verus! {

/// Whether one trial is won. With the `Keep` strategy the player wins
/// exactly when the initial pick already sits on the prize. With the
/// `Switch` strategy and at least two doors, switching lands on the prize
/// exactly when the initial pick missed it. With a single door there is
/// nothing to switch to: the only door holds the prize, so the trial is a
/// trivial win.
pub open spec fn trial_won(
    number_of_doors: u64,
    door_with_prize: u64,
    user_selection: u64,
    to_switch: bool,
) -> bool {
    if !to_switch {
        door_with_prize == user_selection
    } else if number_of_doors == 1 {
        true
    } else {
        door_with_prize != user_selection
    }
}

/// The shortcut form of one trial: no doors are revealed one by one, the
/// outcome is read off the prize door and the initial pick directly.
pub fn trial_outcome(
    number_of_doors: u64,
    door_with_prize: u64,
    user_selection: u64,
    to_switch: bool,
) -> (won: bool)
    requires
        1 <= door_with_prize <= number_of_doors,
        1 <= user_selection <= number_of_doors,
    ensures
        won == trial_won(number_of_doors, door_with_prize, user_selection, to_switch),
{
    if !to_switch {
        door_with_prize == user_selection
    } else if number_of_doors == 1 {
        true
    } else {
        door_with_prize != user_selection
    }
}

/// The explicit form of one trial, given the prize door and the initial
/// pick. All doors are scanned: the player's door is skipped, a prize door
/// found elsewhere is the one the host must leave unrevealed, and every
/// other door is a candidate for staying closed. When the scan finds no
/// forced door (the pick sits on the prize), one candidate is left closed
/// at random. The player wins by switching exactly when the closed door
/// holds the prize, and by keeping exactly when the pick does. With a
/// single door no other door exists to reveal or to switch to, and the
/// trial is a trivial win.
///
/// The postcondition is the shortcut rule of `trial_won`: whichever
/// candidate the random draw leaves closed, the explicit scan agrees with
/// the shortcut.
pub fn decide_trial(
    number_of_doors: u64,
    door_with_prize: u64,
    user_random_selection: u64,
    to_switch: bool,
) -> (won: bool)
    requires
        1 <= door_with_prize <= number_of_doors,
        1 <= user_random_selection <= number_of_doors,
    ensures
        won == trial_won(number_of_doors, door_with_prize, user_random_selection, to_switch),
{
    let mut unrevealed_door: u64 = 0;
    let mut candidates: Vec<u64> = Vec::new();

    let mut scanned: u64 = 0;
    while scanned < number_of_doors
        invariant_except_break
            unrevealed_door == 0,
        invariant
            scanned <= number_of_doors,
            1 <= door_with_prize <= number_of_doors,
            1 <= user_random_selection <= number_of_doors,
            forall|i: int|
                0 <= i < candidates@.len() ==> 1 <= #[trigger] candidates@[i] <= number_of_doors
                    && candidates@[i] != user_random_selection
                    && candidates@[i] != door_with_prize,
            door_with_prize == user_random_selection ==> candidates@.len() == scanned - (
            if user_random_selection <= scanned {
                1int
            } else {
                0int
            }),
            unrevealed_door == 0 && door_with_prize != user_random_selection ==> scanned
                < door_with_prize,
            unrevealed_door != 0 ==> unrevealed_door == door_with_prize && door_with_prize
                != user_random_selection,
        ensures
            forall|i: int|
                0 <= i < candidates@.len() ==> 1 <= #[trigger] candidates@[i] <= number_of_doors
                    && candidates@[i] != user_random_selection
                    && candidates@[i] != door_with_prize,
            unrevealed_door == 0 ==> door_with_prize == user_random_selection && candidates@.len()
                == number_of_doors - 1,
            unrevealed_door != 0 ==> unrevealed_door == door_with_prize && door_with_prize
                != user_random_selection,
        decreases number_of_doors - scanned,
    {
        let door = scanned + 1;
        if door != user_random_selection {
            if door == door_with_prize {
                unrevealed_door = door;
                break;
            }
            candidates.push(door);
        }
        scanned = scanned + 1;
    }

    if unrevealed_door == 0 {
        if candidates.len() == 0 {
            // The pick holds the prize and no other door exists: a one-door
            // game, which counts as a trivial win under either strategy.
            return true;
        }
        let random_pick = get_random_int(1, candidates.len() as u64) - 1;
        unrevealed_door = candidates[random_pick as usize];
    }

    if to_switch && unrevealed_door == door_with_prize {
        return true;
    }

    if !to_switch && user_random_selection == door_with_prize {
        return true;
    }

    false
}

/// One trial of the statistical mode: the prize door and the player's
/// first pick are drawn uniformly, then the explicit scan decides the
/// outcome. The draws are random, so only the one-door case has a certain
/// result: its trial is always won.
pub fn play_test_game(number_of_doors: u64, to_switch: bool) -> (won: bool)
    requires
        1 <= number_of_doors,
    ensures
        number_of_doors == 1 ==> won,
{
    let door_with_prize = get_random_int(1, number_of_doors);
    let user_random_selection = get_random_int(1, number_of_doors);
    decide_trial(number_of_doors, door_with_prize, user_random_selection, to_switch)
}

/// The Monte Carlo runner: plays `number_of_games` trials with the chosen
/// strategy and counts the wins. The count never exceeds the number of
/// games, and a one-door game is won every time.
pub fn run_trials(number_of_doors: u64, number_of_games: u64, to_switch: bool) -> (games_won: u64)
    requires
        1 <= number_of_doors,
    ensures
        games_won <= number_of_games,
        number_of_doors == 1 ==> games_won == number_of_games,
{
    let mut games_won: u64 = 0;
    let mut game: u64 = 0;
    while game < number_of_games
        invariant
            game <= number_of_games,
            games_won <= game,
            1 <= number_of_doors,
            number_of_doors == 1 ==> games_won == game,
        decreases number_of_games - game,
    {
        let game_result = play_test_game(number_of_doors, to_switch);
        if game_result {
            games_won = games_won + 1;
        }
        game = game + 1;
    }
    games_won
}

/// The door numbered `d` is one of the doors `range_start` through
/// `range_end`.
pub open spec fn door_in_range(d: u64, range_start: u64, range_end: u64) -> bool {
    range_start <= d <= range_end
}

/// The host's reveal for the interactive game: a door chosen uniformly at
/// random among the doors of `[range_start, range_end]` that hold neither
/// the prize nor the player's pick. The precondition asks for at least one
/// such door; the result is never the prize door and never the picked one.
pub fn get_revealed_door(
    range_start: u64,
    range_end: u64,
    user_selection: u64,
    prize_position: u64,
) -> (revealed: u64)
    requires
        range_end < u64::MAX,
        exists|d: u64|
            #[trigger] door_in_range(d, range_start, range_end) && d != user_selection && d
                != prize_position,
    ensures
        range_start <= revealed <= range_end,
        revealed != user_selection,
        revealed != prize_position,
{
    let mut available: Vec<u64> = Vec::new();

    let mut number = range_start;
    while number <= range_end
        invariant
            range_end < u64::MAX,
            range_start <= number <= range_end + 1,
            forall|i: int|
                0 <= i < available@.len() ==> range_start <= #[trigger] available@[i] <= range_end
                    && available@[i] != user_selection && available@[i] != prize_position,
            forall|d: u64|
                #[trigger] door_in_range(d, range_start, range_end) && d < number && d
                    != user_selection && d != prize_position ==> available@.len() > 0,
        decreases range_end + 1 - number,
    {
        if number != prize_position && number != user_selection {
            available.push(number);
        }
        number = number + 1;
    }

    proof {
        let d = choose|d: u64|
            #[trigger] door_in_range(d, range_start, range_end) && d != user_selection && d
                != prize_position;
        assert(available@.len() > 0);
    }

    let random_index = get_random_int(0, (available.len() - 1) as u64);

    available[random_index as usize]
}

/// The door the player may switch to: the lowest-numbered door of
/// `[range_start, range_end]` that is neither the picked door nor the
/// revealed one. The precondition asks for at least one such door.
pub fn get_last_door(
    range_start: u64,
    range_end: u64,
    user_selection: u64,
    revealed_door: u64,
) -> (last: u64)
    requires
        range_end < u64::MAX,
        exists|d: u64|
            #[trigger] door_in_range(d, range_start, range_end) && d != user_selection && d
                != revealed_door,
    ensures
        range_start <= last <= range_end,
        last != user_selection,
        last != revealed_door,
        forall|d: u64|
            #[trigger] door_in_range(d, range_start, range_end) && d < last ==> d
                == user_selection || d == revealed_door,
{
    let mut number = range_start;
    while number <= range_end
        invariant
            range_end < u64::MAX,
            range_start <= number,
            forall|d: u64|
                #[trigger] door_in_range(d, range_start, range_end) && d < number ==> d
                    == user_selection || d == revealed_door,
        decreases range_end + 1 - number,
    {
        if number != revealed_door && number != user_selection {
            return number;
        }
        number = number + 1;
    }

    // The precondition promised a door that the scan cannot have passed over.
    proof {
        let d = choose|d: u64|
            #[trigger] door_in_range(d, range_start, range_end) && d != user_selection && d
                != revealed_door;
        assert(d < number);
    }
    unreached()
}

/// In a three-door game the door left for switching is unique: after the
/// pick and a reveal that differ from each other, exactly one door of
/// `[1, 3]` differs from both. Any door `other_door` that does is
/// therefore the door `last_door` that `get_last_door` returned.
pub proof fn lemma_last_door_unique(
    user_selection: u64,
    revealed_door: u64,
    last_door: u64,
    other_door: u64,
)
    requires
        1 <= user_selection <= 3,
        1 <= revealed_door <= 3,
        user_selection != revealed_door,
        1 <= last_door <= 3,
        last_door != user_selection,
        last_door != revealed_door,
        1 <= other_door <= 3,
        other_door != user_selection,
        other_door != revealed_door,
    ensures
        other_door == last_door,
{
}

/// The equivalence behind the shortcut of `trial_won`: in a game with at
/// least two doors whose host obeys the reveal rule — the door left closed
/// is never the picked one, it is the prize door whenever the pick missed
/// the prize, and a prize-free door otherwise — switching wins exactly
/// when the initial pick was wrong.
pub proof fn lemma_switch_wins_iff_first_pick_wrong(
    number_of_doors: u64,
    door_with_prize: u64,
    user_selection: u64,
    unrevealed_door: u64,
)
    requires
        2 <= number_of_doors,
        1 <= door_with_prize <= number_of_doors,
        1 <= user_selection <= number_of_doors,
        unrevealed_door != user_selection,
        door_with_prize != user_selection ==> unrevealed_door == door_with_prize,
        door_with_prize == user_selection ==> unrevealed_door != door_with_prize,
    ensures
        (unrevealed_door == door_with_prize) == trial_won(
            number_of_doors,
            door_with_prize,
            user_selection,
            true,
        ),
{
}

/// Decision step behind the switch-or-keep prompt: the driver shows the two
/// choices and hands the selected option here; only a `Switch` selection
/// makes the player change doors. The other two identifiers never reach
/// this prompt.
pub fn prompt_to_switch(selected_option: &GameOptionEnum) -> (to_switch: bool)
    requires
        selected_option is Keep || selected_option is Switch,
    ensures
        to_switch == (selected_option is Switch),
{
    match selected_option {
        GameOptionEnum::Keep => false,
        GameOptionEnum::Switch => true,
        GameOptionEnum::Play => unreached(),
        GameOptionEnum::Test => unreached(),
    }
}

} // verus!
