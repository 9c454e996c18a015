use rust_game_impl::rules::{GameRule, MoveRule, MoveToStartRule, Rule, SwapWithOtherPlayerRule};

#[test]
fn move_rule_moves_forward() {
    let rule = MoveRule::new(5);
    assert_eq!(rule.apply_rule(3), 8);
}

#[test]
fn move_rule_moves_backward() {
    let rule = MoveRule::new(-5);
    assert_eq!(rule.apply_rule(8), 3);
}

#[test]
fn move_rule_of_zero_cells_stays() {
    let rule = MoveRule::new(0);
    assert_eq!(rule.apply_rule(4), 4);
}

#[test]
fn move_rule_reports_a_destination_before_the_start_unclamped() {
    let rule = MoveRule::new(-5);
    assert_eq!(rule.apply_rule(2), -3);
    assert_eq!(rule.apply_rule(0), -5);
}

#[test]
fn move_rule_does_not_wrap_at_the_limits() {
    let forward = MoveRule::new(i32::MAX);
    assert_eq!(forward.apply_rule(usize::MAX), usize::MAX as i128 + i32::MAX as i128);
    let backward = MoveRule::new(i32::MIN);
    assert_eq!(backward.apply_rule(0), i32::MIN as i128);
    assert_eq!(backward.apply_rule(usize::MAX), usize::MAX as i128 + i32::MIN as i128);
}

#[test]
fn move_rule_is_not_interactive() {
    assert!(!MoveRule::new(3).is_interactive());
    assert!(!MoveRule::new(-3).is_interactive());
}

#[test]
fn move_to_start_rule_yields_zero_from_everywhere() {
    let rule = MoveToStartRule::new();
    assert_eq!(rule.apply_rule(0), 0);
    assert_eq!(rule.apply_rule(7), 0);
    assert_eq!(rule.apply_rule(13), 0);
    assert_eq!(rule.apply_rule(usize::MAX), 0);
}

#[test]
fn move_to_start_rule_is_not_interactive() {
    assert!(!MoveToStartRule::new().is_interactive());
}

#[test]
fn swap_rule_hands_back_the_position_it_is_given() {
    let rule = SwapWithOtherPlayerRule::new();
    assert_eq!(rule.apply_rule(0), 0);
    assert_eq!(rule.apply_rule(4), 4);
    assert_eq!(rule.apply_rule(usize::MAX), usize::MAX as i128);
}

#[test]
fn swap_rule_is_interactive() {
    assert!(SwapWithOtherPlayerRule::new().is_interactive());
}

#[test]
fn rule_variants_behave_as_the_rule_they_hold() {
    let forward = Rule::Move(MoveRule::new(3));
    assert_eq!(forward.apply_rule(2), 5);
    assert!(!forward.is_interactive());
    let back = Rule::Move(MoveRule::new(-3));
    assert_eq!(back.apply_rule(5), 2);
    let start = Rule::MoveToStart(MoveToStartRule::new());
    assert_eq!(start.apply_rule(9), 0);
    assert!(!start.is_interactive());
    let swap = Rule::SwapWithOtherPlayer(SwapWithOtherPlayerRule::new());
    assert_eq!(swap.apply_rule(6), 6);
    assert!(swap.is_interactive());
}
