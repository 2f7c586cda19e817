use cogworks::identifiers::{
    ArtifactPath, BranchName, NodeId, PipelineRunId, PullRequestId, WorkItemId,
};

#[test]
fn integer_ids_round_trip() {
    assert_eq!(WorkItemId::new(42).as_u64(), 42);
    assert_eq!(PullRequestId::new(7).as_u64(), 7);
    assert_eq!(WorkItemId::new(42), WorkItemId::new(42));
    assert_ne!(WorkItemId::new(42), WorkItemId::new(43));
}

#[test]
fn string_ids_reject_empty() {
    assert!(NodeId::new(String::new()).is_none());
    assert!(BranchName::new(String::new()).is_none());
    assert!(ArtifactPath::new(String::new()).is_none());
}

#[test]
fn string_ids_keep_their_value() {
    let n = NodeId::new("intake".to_string()).unwrap();
    assert_eq!(n.as_str(), "intake");
    let b = BranchName::new("main".to_string()).unwrap();
    assert_eq!(b.as_str(), "main");
}

#[test]
fn run_id_wraps_uuid() {
    let u = uuid::Uuid::nil();
    let id = PipelineRunId::from_uuid(u);
    assert_eq!(id.as_uuid(), u);
    let a = PipelineRunId::new_random();
    let b = PipelineRunId::new_random();
    assert_ne!(a.as_uuid(), b.as_uuid());
}
