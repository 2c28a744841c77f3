use memscribe_core::node::{DecisionOrigin, NodeId, ProvRecord};

#[test]
fn node_id_round_trips_its_text() {
    let id = NodeId::new("session-1:0..3");
    assert_eq!(id.as_str(), "session-1:0..3");
    let owned = String::from("x");
    assert_eq!(NodeId::new(&owned), NodeId("x".to_string()));
    assert_eq!(NodeId::new("abc"), NodeId("abc".to_string()));
}

#[test]
fn only_conversation_is_the_default_origin() {
    assert!(DecisionOrigin::default().is_default());
    assert!(DecisionOrigin::Conversation.is_default());
    assert!(!DecisionOrigin::GitCommit.is_default());
    assert!(!DecisionOrigin::Governance.is_default());
}

#[test]
fn prov_record_orders_use_before_generation() {
    let t0: i128 = 0;
    let t1: i128 = 5_000_000_000;
    let rec = |t_use, t_gen| ProvRecord {
        used_session: "s".to_string(),
        used_decision: None,
        was_generated_by_session: "s".to_string(),
        t_use,
        t_gen,
    };
    assert!(rec(t0, t1).is_temporally_valid());
    assert!(rec(t0, t0).is_temporally_valid());
    assert!(!rec(t1, t0).is_temporally_valid());
}
