use support_case::lifecycle::{
    next_closed_at, next_resolved_at, parse_priority, parse_state, parse_visibility,
    valid_transition,
};
use support_case::model::{
    priority_text, state_text, visibility_text, CaseState, Priority, Visibility,
};

#[test]
fn state_machine_is_explicit_and_reopen_is_supported() {
    assert!(valid_transition("open", "in_progress"));
    assert!(valid_transition("resolved", "closed"));
    assert!(valid_transition("closed", "in_progress"));
    assert!(!valid_transition("open", "closed"));
    assert!(!valid_transition("resolved", "waiting_customer"));
}

#[test]
fn only_the_named_transitions_are_allowed() {
    let states = ["open", "in_progress", "waiting_customer", "resolved", "closed", "Open", ""];
    let allowed = [
        ("open", "in_progress"),
        ("closed", "in_progress"),
        ("in_progress", "waiting_customer"),
        ("in_progress", "resolved"),
        ("waiting_customer", "in_progress"),
        ("waiting_customer", "resolved"),
        ("resolved", "in_progress"),
        ("resolved", "closed"),
    ];
    for current in states {
        for target in states {
            assert_eq!(
                valid_transition(current, target),
                allowed.contains(&(current, target)),
                "{current} -> {target}"
            );
        }
    }
}

#[test]
fn transitions_keep_the_times_of_resolution() {
    assert_eq!(next_resolved_at("resolved", 7, None), Some(7));
    assert_eq!(next_resolved_at("closed", 9, Some(7)), Some(7));
    assert_eq!(next_resolved_at("in_progress", 9, Some(7)), None);
    assert_eq!(next_closed_at("closed", 9, None), Some(9));
    assert_eq!(next_closed_at("in_progress", 11, Some(9)), None);
    assert_eq!(next_closed_at("waiting_customer", 11, None), None);
}

#[test]
fn stored_names_are_read_back() {
    for state in [
        CaseState::Open,
        CaseState::InProgress,
        CaseState::WaitingCustomer,
        CaseState::Resolved,
        CaseState::Closed,
    ] {
        assert_eq!(parse_state(state_text(state)), Some(state));
    }
    for priority in [Priority::Low, Priority::Normal, Priority::High, Priority::Urgent] {
        assert_eq!(parse_priority(priority_text(priority)), Some(priority));
    }
    for visibility in [Visibility::Public, Visibility::Internal] {
        assert_eq!(parse_visibility(visibility_text(visibility)), Some(visibility));
    }
    assert_eq!(parse_state("archived"), None);
    assert_eq!(parse_priority("critical"), None);
    assert_eq!(parse_visibility("secret"), None);
    assert_eq!(state_text(CaseState::WaitingCustomer), "waiting_customer");
}
