use rust_game_impl::rules::{GameRule, Rule};
use rust_game_impl::{create_game, play, take_turn, Player};

#[test]
fn standard_board_has_fifteen_cells_and_four_rules() {
    let board = create_game();
    assert_eq!(board.get_length(), 15);
    for idx in 0..15 {
        let expected = idx == 2 || idx == 3 || idx == 7 || idx == 13;
        assert_eq!(board.get_cell_rule_at(idx).is_some(), expected);
    }
}

#[test]
fn standard_board_rules_lead_where_they_should() {
    let board = create_game();
    let rule = board.get_cell_rule_at(2).unwrap();
    assert!(matches!(rule, Rule::Move(_)));
    assert_eq!(rule.apply_rule(2), 4);
    let rule = board.get_cell_rule_at(3).unwrap();
    assert!(matches!(rule, Rule::Move(_)));
    assert_eq!(rule.apply_rule(3), 6);
    let rule = board.get_cell_rule_at(7).unwrap();
    assert!(matches!(rule, Rule::Move(_)));
    assert_eq!(rule.apply_rule(7), 2);
    let rule = board.get_cell_rule_at(13).unwrap();
    assert!(matches!(rule, Rule::MoveToStart(_)));
    assert_eq!(rule.apply_rule(13), 0);
}

#[test]
fn standard_board_chain_from_seven_ends_on_four() {
    let board = create_game();
    let mut player = Player::new_with_idx("John", 1);
    assert!(!play(&board, &mut player, 6));
    assert_eq!(player.get_idx(), 4);
}

#[test]
fn standard_board_is_won_from_twelve_with_a_two() {
    let board = create_game();
    let mut player = Player::new_with_idx("John", 12);
    assert!(play(&board, &mut player, 2));
    assert_eq!(player.get_idx(), 14);
}

#[test]
fn take_turn_rolls_one_to_six_and_plays_the_roll() {
    let board = create_game();
    for start in 0..15usize {
        for _ in 0..40 {
            let mut rolled = Player::new_with_idx("John", start);
            let mut given = Player::new_with_idx("John", start);
            let turn = take_turn(&board, &mut rolled);
            assert!(1 <= turn.dice_roll && turn.dice_roll <= 6);
            let won = play(&board, &mut given, turn.dice_roll);
            assert_eq!(turn.won, won);
            assert_eq!(rolled.get_idx(), given.get_idx());
            assert_eq!(rolled.get_moves(), 1);
            assert_eq!(rolled.get_name(), "John");
        }
    }
}

#[test]
fn take_turn_shows_every_face_of_the_die() {
    let board = create_game();
    let mut seen = [false; 6];
    for _ in 0..2000 {
        let mut player = Player::new("Peter");
        let turn = take_turn(&board, &mut player);
        seen[(turn.dice_roll - 1) as usize] = true;
    }
    assert_eq!(seen, [true; 6]);
}

#[test]
fn game_of_three_players_comes_to_an_end() {
    let board = create_game();
    let mut players = vec![Player::new("John"), Player::new("Peter"), Player::new("George")];
    let mut counter = 0usize;
    let mut won = false;
    while !won && counter < 1_000_000 {
        let player = &mut players[counter % 3];
        let turn = take_turn(&board, player);
        won = turn.won;
        if won {
            assert_eq!(player.get_idx(), 14);
        } else {
            assert!(player.get_idx() < 14);
        }
        counter += 1;
    }
    assert!(won);
}
