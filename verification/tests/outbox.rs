use storage_sqlite::outbox::{projected_outbox_requests, OutboxWriteRequest, ProjectedChange};

#[test]
fn projected_changes_follow_the_explicit_requests() {
    let requests = vec![
        OutboxWriteRequest { entity: "account", subject_id: "a1".to_string(), op: "update", payload: 1 },
    ];
    let changes = vec![
        ProjectedChange { entity: "asset", subject_id: "x".to_string(), op: "create", payload: 2 },
        ProjectedChange { entity: "asset", subject_id: "y".to_string(), op: "delete", payload: 3 },
    ];
    let out = projected_outbox_requests(requests, changes);
    assert_eq!(out.len(), 3);
    assert_eq!(out[0].subject_id, "a1");
    assert_eq!(out[1].entity, "asset");
    assert_eq!(out[1].subject_id, "x");
    assert_eq!(out[1].op, "create");
    assert_eq!(out[1].payload, 2);
    assert_eq!(out[2].subject_id, "y");
    assert_eq!(out[2].op, "delete");
}

#[test]
fn change_projects_to_the_same_request() {
    let c = ProjectedChange { entity: 7u8, subject_id: "s".to_string(), op: true, payload: "p" };
    let r = c.into_outbox_request();
    assert_eq!(r.entity, 7);
    assert_eq!(r.subject_id, "s");
    assert!(r.op);
    assert_eq!(r.payload, "p");
}

#[test]
fn change_for_model_carries_the_serialized_payload_or_its_error() {
    let ok: Result<ProjectedChange<&str, &str, u32>, String> =
        ProjectedChange::for_model("asset", "x".to_string(), "update", Ok(5));
    let c = ok.unwrap();
    assert_eq!(c.entity, "asset");
    assert_eq!(c.subject_id, "x");
    assert_eq!(c.op, "update");
    assert_eq!(c.payload, 5);
    let err: Result<ProjectedChange<&str, &str, u32>, String> =
        ProjectedChange::for_model("asset", "x".to_string(), "update", Err("bad".to_string()));
    assert_eq!(err.err().unwrap(), "bad");
}

#[test]
fn delete_change_uses_the_delete_operation_and_payload() {
    let c = ProjectedChange::delete_for_model("asset", "x".to_string(), "delete", "{\"id\":\"x\"}");
    assert_eq!(c.entity, "asset");
    assert_eq!(c.subject_id, "x");
    assert_eq!(c.op, "delete");
    assert_eq!(c.payload, "{\"id\":\"x\"}");
}
