use chat_relay::registry::{JoinOutcome, Origin, Registry, RejectReason};

const IP_A: Origin = Origin::V4(0xc0a8_0001);
const IP_B: Origin = Origin::V4(0xc0a8_0002);

#[test]
fn free_name_is_accepted() {
    let mut registry = Registry::new();
    assert_eq!(registry.register("alice", IP_A), JoinOutcome::Accepted);
    assert_eq!(registry.register("bob", IP_A), JoinOutcome::Accepted);
    assert_eq!(registry.register("carol", IP_B), JoinOutcome::Accepted);
}

#[test]
fn same_address_rejoins() {
    let mut registry = Registry::new();
    assert_eq!(registry.register("alice", IP_A), JoinOutcome::Accepted);
    assert_eq!(registry.register("alice", IP_A), JoinOutcome::Rejoined);
    assert_eq!(registry.register("alice", IP_A), JoinOutcome::Rejoined);
}

#[test]
fn other_address_is_rejected() {
    let mut registry = Registry::new();
    assert_eq!(registry.register("alice", IP_A), JoinOutcome::Accepted);
    assert_eq!(
        registry.register("alice", IP_B),
        JoinOutcome::Rejected(RejectReason::UsernameInUse)
    );
}

#[test]
fn rejection_changes_nothing() {
    let mut registry = Registry::new();
    assert_eq!(registry.register("alice", IP_A), JoinOutcome::Accepted);
    assert_eq!(
        registry.register("alice", IP_B),
        JoinOutcome::Rejected(RejectReason::UsernameInUse)
    );
    // The name still belongs to the first address, and to no other.
    assert_eq!(registry.register("alice", IP_A), JoinOutcome::Rejoined);
    assert_eq!(
        registry.register("alice", IP_B),
        JoinOutcome::Rejected(RejectReason::UsernameInUse)
    );
}

#[test]
fn at_most_one_request_for_a_name_is_accepted() {
    let requests = [
        ("alice", IP_A),
        ("bob", IP_B),
        ("alice", IP_B),
        ("alice", IP_A),
        ("bob", IP_A),
        ("alice", IP_A),
        ("bob", IP_B),
    ];
    let mut registry = Registry::new();
    let mut accepted_alice = 0;
    let mut accepted_bob = 0;
    let mut outcomes = Vec::new();
    for (name, origin) in requests {
        let outcome = registry.register(name, origin);
        if outcome == JoinOutcome::Accepted {
            if name == "alice" {
                accepted_alice += 1;
            } else {
                accepted_bob += 1;
            }
        }
        outcomes.push(outcome);
    }
    assert_eq!(accepted_alice, 1);
    assert_eq!(accepted_bob, 1);
    let rejected = JoinOutcome::Rejected(RejectReason::UsernameInUse);
    assert_eq!(
        outcomes,
        vec![
            JoinOutcome::Accepted,
            JoinOutcome::Accepted,
            rejected,
            JoinOutcome::Rejoined,
            rejected,
            JoinOutcome::Rejoined,
            JoinOutcome::Rejoined,
        ]
    );
}

#[test]
fn names_are_told_apart_exactly() {
    let mut registry = Registry::new();
    assert_eq!(registry.register("alice", IP_A), JoinOutcome::Accepted);
    assert_eq!(registry.register("Alice", IP_B), JoinOutcome::Accepted);
    assert_eq!(registry.register("alice ", IP_B), JoinOutcome::Accepted);
    assert_eq!(registry.register("", IP_B), JoinOutcome::Accepted);
    assert_eq!(registry.register("", IP_A), JoinOutcome::Rejected(RejectReason::UsernameInUse));
}

#[test]
fn an_ipv4_address_is_no_ipv6_address() {
    let mut registry = Registry::new();
    assert_eq!(registry.register("alice", Origin::V4(1)), JoinOutcome::Accepted);
    assert_eq!(
        registry.register("alice", Origin::V6(1)),
        JoinOutcome::Rejected(RejectReason::UsernameInUse)
    );
    assert_eq!(registry.register("bob", Origin::V6(1)), JoinOutcome::Accepted);
    assert_eq!(registry.register("bob", Origin::V6(1)), JoinOutcome::Rejoined);
}

#[test]
fn reject_reason_in_words() {
    assert_eq!(RejectReason::UsernameInUse.text(), "username already in use");
}
