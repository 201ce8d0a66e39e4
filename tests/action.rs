use rusty_snake::action::{random_action, Action, NUM_ACTIONS};

#[test]
fn action_index_round_trip() {
    let all = [Action::Up, Action::Down, Action::Left, Action::Right];
    for (i, a) in all.iter().enumerate() {
        assert_eq!(a.index(), i);
        assert_eq!(Action::from_index(i), *a);
    }
}

#[test]
fn action_names() {
    assert_eq!(Action::Up.name(), "Up");
    assert_eq!(Action::Down.name(), "Down");
    assert_eq!(Action::Left.name(), "Left");
    assert_eq!(Action::Right.name(), "Right");
}

#[test]
fn random_action_covers_all_actions() {
    let mut seen = [false; NUM_ACTIONS];
    for _ in 0..2000 {
        seen[random_action().index()] = true;
    }
    assert!(seen.iter().all(|s| *s));
}
