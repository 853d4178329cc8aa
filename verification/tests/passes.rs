use spotify_player::passes::{next_in_pass, next_pass, PassStep};

/// Goes through a pass, and fails to carry out the action at an index, if one is given.
fn go_through(actions: Vec<&str>, failing: Option<usize>) -> (Vec<&str>, bool) {
    let mut left = actions;
    let mut tried = vec![];
    let mut carried_out = true;
    loop {
        match next_in_pass(&mut left, carried_out) {
            PassStep::Perform(action) => {
                carried_out = failing != Some(tried.len());
                tried.push(action);
            }
            PassStep::End => return (tried, true),
            PassStep::Stop => return (tried, false),
        }
    }
}

#[test]
fn all_actions_of_a_pass_are_carried_out_in_order() {
    assert_eq!(go_through(vec!["a", "b", "c"], None), (vec!["a", "b", "c"], true));
    assert_eq!(go_through(vec![], None), (vec![], true));
}

#[test]
fn no_action_behind_a_failed_send_is_carried_out() {
    assert_eq!(go_through(vec!["a", "b", "c"], Some(0)), (vec!["a"], false));
    assert_eq!(go_through(vec!["a", "b", "c"], Some(1)), (vec!["a", "b"], false));
    assert_eq!(go_through(vec!["a", "b", "c"], Some(2)), (vec!["a", "b", "c"], false));
}

#[test]
fn a_step_takes_its_action_from_the_pass() {
    let mut left = vec![1, 2];
    assert_eq!(next_in_pass(&mut left, true), PassStep::Perform(1));
    assert_eq!(left, vec![2]);
    assert_eq!(next_in_pass(&mut left, false), PassStep::Stop);
    assert_eq!(left, vec![2]);
}

#[test]
fn another_pass_comes_only_when_all_events_were_sent() {
    assert_eq!(next_pass(true, 200), Some(200));
    assert_eq!(next_pass(true, 0), Some(0));
    assert_eq!(next_pass(false, 200), None);
}
