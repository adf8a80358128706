use monty_hall::game::{get_last_door, get_revealed_door, prompt_to_switch};
use monty_hall::input::{GameOption, GameOptionEnum};

#[test]
fn revealed_door_is_never_the_prize_nor_the_pick() {
    for prize in 1..=3 {
        for pick in 1..=3 {
            for _ in 0..100 {
                let revealed = get_revealed_door(1, 3, pick, prize);
                assert!((1..=3).contains(&revealed));
                assert_ne!(revealed, prize);
                assert_ne!(revealed, pick);
            }
        }
    }
}

#[test]
fn revealed_door_in_a_wide_game_avoids_both_doors() {
    for _ in 0..200 {
        let revealed = get_revealed_door(1, 10, 4, 9);
        assert!((1..=10).contains(&revealed));
        assert_ne!(revealed, 4);
        assert_ne!(revealed, 9);
    }
}

#[test]
fn two_door_reveal_when_the_pick_holds_the_prize() {
    // Both excluded values sit on door 1, so door 2 is the only reveal.
    assert_eq!(get_revealed_door(1, 2, 1, 1), 2);
}

#[test]
fn last_door_is_the_single_remaining_one() {
    assert_eq!(get_last_door(1, 3, 1, 2), 3);
    assert_eq!(get_last_door(1, 3, 2, 1), 3);
    assert_eq!(get_last_door(1, 3, 1, 3), 2);
    assert_eq!(get_last_door(1, 3, 3, 1), 2);
    assert_eq!(get_last_door(1, 3, 2, 3), 1);
    assert_eq!(get_last_door(1, 3, 3, 2), 1);
}

#[test]
fn last_door_takes_the_lowest_candidate() {
    // Doors 2 and 3 both remain; the lowest-numbered one is offered.
    assert_eq!(get_last_door(1, 3, 1, 1), 2);
}

#[test]
fn switch_prompt_decision_follows_the_selected_option() {
    assert!(!prompt_to_switch(&GameOptionEnum::Keep));
    assert!(prompt_to_switch(&GameOptionEnum::Switch));
}

#[test]
fn game_options_carry_identifier_and_label() {
    let options = vec![
        GameOption { option: GameOptionEnum::Keep, message: "Always keep initial door" },
        GameOption { option: GameOptionEnum::Switch, message: "Always switch to another door" },
    ];
    assert!(matches!(options[0].option, GameOptionEnum::Keep));
    assert!(matches!(options[1].option, GameOptionEnum::Switch));
    assert_eq!(options[0].message, "Always keep initial door");
    assert_eq!(options[1].message, "Always switch to another door");
    assert!(prompt_to_switch(&options[1].option));
}
