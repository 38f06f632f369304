use local_code_agent::models::{AgentJobStatus, AppError, Platform};

#[test]
fn platform_names() {
    assert_eq!(Platform::GitHub.name(), "GitHub");
    assert_eq!(Platform::parse("Gitea"), Ok(Platform::Gitea));
    assert_eq!(Platform::parse("gitlab"), Err("Unknown platform: gitlab".to_string()));
}

#[test]
fn status_names_round_trip() {
    let all = [
        AgentJobStatus::Pending,
        AgentJobStatus::PreparingWorkspace,
        AgentJobStatus::FetchingIssue,
        AgentJobStatus::RunningAgent,
        AgentJobStatus::CreatingPR,
        AgentJobStatus::PrCreated,
        AgentJobStatus::Merged,
        AgentJobStatus::Completed,
        AgentJobStatus::Failed,
        AgentJobStatus::Cancelled,
    ];
    for s in all {
        assert_eq!(AgentJobStatus::parse(s.name()), Ok(s));
    }
    assert_eq!(AgentJobStatus::CreatingPR.name(), "CreatingPR");
    assert_eq!(AgentJobStatus::parse("Done"), Err("Unknown status: Done".to_string()));
    assert!(AgentJobStatus::Cancelled.is_terminal());
    assert!(!AgentJobStatus::PrCreated.is_terminal());
}

#[test]
fn user_messages() {
    let db = AppError::Database("disk I/O".to_string());
    assert_eq!(db.user_message(true), "Database error: disk I/O");
    assert_eq!(db.user_message(false), "Database error occurred");
    let nf = AppError::NotFound("Repository with id 3 not found".to_string());
    assert_eq!(nf.user_message(false), "Repository with id 3 not found");
    assert_eq!(AppError::InvalidInput("x".to_string()).user_message(false), "x");
    assert_eq!(AppError::Grpc("y".to_string()).user_message(false), "Backend communication failed");
    assert_eq!(AppError::Internal("z".to_string()).to_text(), "Internal error: z");
}
