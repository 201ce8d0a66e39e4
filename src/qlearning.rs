use vstd::prelude::*;
use crate::action::{Action, action_index};

verus! {

/// The Q-values to train towards after taking `action`: the prediction,
/// with the entry of the taken action replaced by `reward` when the
/// episode ended, and by the bootstrapped estimate
/// (reward plus the discounted best next value) otherwise.
pub fn td_target<T: Copy>(predicted: [T; 4], action: Action, reward: T, bootstrapped: T, done: bool) -> (r: [T; 4])
    ensures
        r@ == predicted@.update(action_index(action) as int, if done { reward } else { bootstrapped }),
{
    let v = if done { reward } else { bootstrapped };
    let r = match action {
        Action::Up => [v, predicted[1], predicted[2], predicted[3]],
        Action::Down => [predicted[0], v, predicted[2], predicted[3]],
        Action::Left => [predicted[0], predicted[1], v, predicted[3]],
        Action::Right => [predicted[0], predicted[1], predicted[2], v],
    };
    assert(r@ =~= predicted@.update(action_index(action) as int, v));
    r
}

} // verus!
