use local_workflow_agent::agent::turn::{tool_permission_request, PermissionDecision, PermissionRequest};
use local_workflow_agent::ui::permission_modal::risk_level;
use local_workflow_agent::ui::services::agent::permission_handler::GuiPermissionHandler;

fn request(tool: &str) -> PermissionRequest {
    tool_permission_request(tool, &std::path::PathBuf::from("/w"), &vec![], &vec![])
}

#[test]
fn permanent_allow_is_remembered_per_tool() {
    let mut h = GuiPermissionHandler::new();
    let bash = request("bash");
    assert!(h.fast_path(&bash).is_none());
    assert!(matches!(h.check_permission(&bash), PermissionDecision::Ask { .. }));
    let d = h.settle(&bash, Some(PermissionDecision::AllowPermanently));
    assert!(matches!(d, PermissionDecision::AllowPermanently));
    assert!(matches!(h.fast_path(&bash), Some(PermissionDecision::Allow)));
    assert!(matches!(h.check_permission(&request("bash")), PermissionDecision::Allow));
    assert!(h.fast_path(&request("edit")).is_none());
}

#[test]
fn one_time_answers_are_not_remembered() {
    let mut h = GuiPermissionHandler::new();
    let edit = request("edit");
    assert!(matches!(h.settle(&edit, Some(PermissionDecision::Allow)), PermissionDecision::Allow));
    assert!(h.fast_path(&edit).is_none());
    assert!(matches!(h.settle(&edit, None), PermissionDecision::Deny));
    assert!(matches!(h.settle(&edit, Some(PermissionDecision::Deny)), PermissionDecision::Deny));
    assert!(h.fast_path(&edit).is_none());
}

#[test]
fn ask_reason_prefers_context_then_details() {
    let mut r = request("bash");
    assert_eq!(GuiPermissionHandler::ask_reason(&r), "Tool 'bash' requests permission");
    r.details = Some("rm -rf build".into());
    assert_eq!(GuiPermissionHandler::ask_reason(&r), "rm -rf build");
    r.context_description = Some("cleans the build".into());
    match GuiPermissionHandler::new().check_permission(&r) {
        PermissionDecision::Ask { reason } => assert_eq!(reason, "cleans the build"),
        other => panic!("expected Ask, got {other:?}"),
    }
    assert_eq!(risk_level(true), "ReadOnly");
    assert_eq!(risk_level(false), "Write");
}

#[test]
fn tool_requests_describe_the_call() {
    let r = tool_permission_request(
        "grep",
        &std::path::PathBuf::from("/w"),
        &vec![std::path::PathBuf::from("/a")],
        &vec![std::path::PathBuf::from("/b"), std::path::PathBuf::from("/c")],
    );
    assert_eq!(r.description, "Execute tool: grep");
    assert!(!r.is_read_only);
    assert_eq!(r.working_dir, Some(std::path::PathBuf::from("/w")));
    assert_eq!(
        r.allowed_roots,
        vec![std::path::PathBuf::from("/a"), std::path::PathBuf::from("/b"), std::path::PathBuf::from("/c")]
    );
}

#[test]
fn request_asks_once_then_remembers() {
    let mut h = GuiPermissionHandler::new();
    let bash = request("bash");
    let asked = std::cell::Cell::new(0);
    let (tx, _rx) = tokio::sync::oneshot::channel();
    let d = h.request_permission(&bash, tx, |envelope| {
        asked.set(asked.get() + 1);
        assert_eq!(envelope.tool_name, "bash");
        Some(PermissionDecision::AllowPermanently)
    });
    assert!(matches!(d, PermissionDecision::AllowPermanently));
    assert_eq!(asked.get(), 1);
    let (tx, _rx) = tokio::sync::oneshot::channel();
    let d = h.request_permission(&bash, tx, |_| panic!("must not ask again"));
    assert!(matches!(d, PermissionDecision::Allow));
    let (tx, _rx) = tokio::sync::oneshot::channel();
    let d = h.request_permission(&request("edit"), tx, |_| None);
    assert!(matches!(d, PermissionDecision::Deny));
}
