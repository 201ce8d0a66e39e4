use rusty_snake::action::Action;
use rusty_snake::qlearning::td_target;

#[test]
fn terminal_target_is_reward() {
    let predicted = [0.5, -1.25, 3.0, 7.5];
    let t = td_target(predicted, Action::Left, -10.0, 123.0, true);
    assert_eq!(t, [0.5, -1.25, -10.0, 7.5]);
}

#[test]
fn non_terminal_target_is_bootstrapped() {
    let predicted = [0.5, -1.25, 3.0, 7.5];
    let reward = 5.0;
    let gamma = 0.9;
    let next_q: [f64; 4] = [1.0, 4.0, 2.0, -3.0];
    let best = next_q.iter().cloned().fold(f64::NEG_INFINITY, f64::max);
    let t = td_target(predicted, Action::Up, reward, reward + gamma * best, false);
    assert!((t[0] - 8.6).abs() < 1e-12);
    assert_eq!(&t[1..], &predicted[1..]);
}

#[test]
fn target_keeps_other_entries() {
    let predicted = [1, 2, 3, 4];
    assert_eq!(td_target(predicted, Action::Right, 9, 8, false), [1, 2, 3, 8]);
    assert_eq!(td_target(predicted, Action::Down, 9, 8, true), [1, 9, 3, 4]);
}
