use local_code_agent::agent::StreamItem;
use local_code_agent::json::Json;
use local_code_agent::models::AppError;
use local_code_agent::tools::{
    after_runner_lookup, after_worker_lookup, collect_item, decode_tool_result, runner_not_found,
    QueueType, ResponseType, WorkerDecision,
};

#[test]
fn existing_worker_is_used_without_creation() {
    assert!(matches!(after_worker_lookup(Some(5)), WorkerDecision::UseWorker(5)));
    assert!(matches!(after_worker_lookup(None), WorkerDecision::LookUpRunner));
}

#[test]
fn provisioning_twice_creates_once() {
    // a backend that holds workers by name, and counts creations
    let mut workers: Vec<(String, i64)> = Vec::new();
    let mut created = 0;
    let mut ensure = |name: &str| -> i64 {
        let found = workers.iter().find(|(n, _)| n == name).map(|(_, id)| *id);
        match after_worker_lookup(found) {
            WorkerDecision::UseWorker(id) => id,
            WorkerDecision::LookUpRunner => {
                let spec = after_runner_lookup(name, Some(Some(77))).unwrap();
                created += 1;
                let id = 100 + created;
                workers.push((spec.name, id));
                id
            }
        }
    };
    let first = ensure("github");
    let second = ensure("github");
    assert_eq!(first, second);
    assert_eq!(created, 1);
}

#[test]
fn worker_spec_for_a_runner() {
    let w = after_runner_lookup("gitea", Some(Some(9))).unwrap();
    assert_eq!(w.name, "gitea");
    assert_eq!(w.description, "Auto-created worker for MCP server 'gitea'");
    assert_eq!(w.runner_id, 9);
    assert_eq!(w.retry_interval_ms, 1000);
    assert_eq!(w.max_retry, 3);
    assert_eq!(w.queue_type, QueueType::Normal);
    assert_eq!(w.response_type, ResponseType::Direct);
    assert!(!w.store_success && w.store_failure && !w.use_static && w.broadcast_results);
}

#[test]
fn missing_runner_is_not_created() {
    match after_runner_lookup("gitea", None) {
        Err(AppError::NotFound(m)) => assert_eq!(
            m,
            "MCP server runner 'gitea' not found. Please register the MCP server first."
        ),
        other => panic!("unexpected {:?}", other),
    }
    assert!(matches!(after_runner_lookup("gitea", Some(None)), Err(AppError::Internal(m)) if m == "Runner has no ID"));
    assert!(matches!(runner_not_found("x"), AppError::NotFound(m) if m == "Runner 'x' not found"));
}

#[test]
fn stream_collection() {
    let mut acc = Vec::new();
    assert!(!collect_item(&mut acc, StreamItem::Data(b"ab".to_vec())));
    assert!(!collect_item(&mut acc, StreamItem::Data(b"c".to_vec())));
    assert_eq!(acc, b"abc");
    assert!(!collect_item(&mut acc, StreamItem::FinalCollected(b"xyz".to_vec())));
    assert_eq!(acc, b"xyz");
    assert!(collect_item(&mut acc, StreamItem::End));
    assert_eq!(acc, b"xyz");
}

#[test]
fn tool_result_decoding() {
    assert!(matches!(decode_tool_result(b"", None), Ok(Json::Null)));
    assert!(matches!(decode_tool_result(b"[1]", None), Ok(Json::Array(v)) if v.len() == 1));
    assert!(matches!(decode_tool_result(b"\x01", Some(Ok(Json::Bool(true)))), Ok(Json::Bool(true))));
    match decode_tool_result(b"\x01", Some(Err("bad proto".to_string()))) {
        Err(AppError::Internal(m)) => assert!(m.starts_with("bad proto; failed to parse as JSON: ")),
        _ => panic!("expected both decodings to fail"),
    }
    assert!(matches!(decode_tool_result(b"[1,2]", Some(Err("bad proto".to_string()))), Ok(Json::Array(v)) if v.len() == 2));
    match decode_tool_result(b"{oops", None) {
        Err(AppError::Internal(m)) => assert!(m.starts_with("Failed to parse as JSON: ")),
        _ => panic!("expected a parse failure"),
    }
}
