use dune_api::types::ExecutionState;

const ALL: [ExecutionState; 5] = [
    ExecutionState::Pending,
    ExecutionState::Executing,
    ExecutionState::Completed,
    ExecutionState::Failed,
    ExecutionState::Cancelled,
];

#[test]
fn terminal_truth_table() {
    assert!(!ExecutionState::Pending.is_terminal());
    assert!(!ExecutionState::Executing.is_terminal());
    assert!(ExecutionState::Completed.is_terminal());
    assert!(ExecutionState::Failed.is_terminal());
    assert!(ExecutionState::Cancelled.is_terminal());
}

#[test]
fn success_truth_table() {
    assert!(!ExecutionState::Pending.is_success());
    assert!(!ExecutionState::Executing.is_success());
    assert!(ExecutionState::Completed.is_success());
    assert!(!ExecutionState::Failed.is_success());
    assert!(!ExecutionState::Cancelled.is_success());
}

#[test]
fn success_implies_terminal() {
    for state in ALL {
        if state.is_success() {
            assert!(state.is_terminal());
        }
    }
}

#[test]
fn wire_tags_are_the_protocol_tags() {
    assert_eq!(ExecutionState::Pending.wire_tag(), "QUERY_STATE_PENDING");
    assert_eq!(ExecutionState::Executing.wire_tag(), "QUERY_STATE_EXECUTING");
    assert_eq!(ExecutionState::Completed.wire_tag(), "QUERY_STATE_COMPLETED");
    assert_eq!(ExecutionState::Failed.wire_tag(), "QUERY_STATE_FAILED");
    assert_eq!(ExecutionState::Cancelled.wire_tag(), "QUERY_STATE_CANCELLED");
}

#[test]
fn wire_tags_round_trip() {
    for state in ALL {
        assert_eq!(ExecutionState::from_wire_tag(state.wire_tag()), Some(state));
    }
}

#[test]
fn wire_tags_are_pairwise_distinct() {
    for a in ALL {
        for b in ALL {
            assert_eq!(a.wire_tag() == b.wire_tag(), a == b);
        }
    }
}

#[test]
fn unknown_wire_tags_are_refused() {
    assert_eq!(ExecutionState::from_wire_tag(""), None);
    assert_eq!(ExecutionState::from_wire_tag("QUERY_STATE_"), None);
    assert_eq!(ExecutionState::from_wire_tag("QUERY_STATE_DONE"), None);
    assert_eq!(ExecutionState::from_wire_tag("query_state_pending"), None);
    assert_eq!(ExecutionState::from_wire_tag("QUERY_STATE_PENDING "), None);
    assert_eq!(ExecutionState::from_wire_tag("Pending"), None);
}

#[test]
fn states_compare_and_copy() {
    let a = ExecutionState::Executing;
    let b = a;
    assert_eq!(a, b);
    assert_ne!(a, ExecutionState::Pending);
    assert_eq!(format!("{:?}", a), "Executing");
}
