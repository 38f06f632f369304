//! The records that the local store keeps, and the library's errors.
use vstd::prelude::*;
use crate::text::{concat2, text_eq};

verus! {

/// The hosting platform of a repository.
#[derive(Clone, Copy, Debug, PartialEq, Eq, Structural)]
pub enum Platform {
    GitHub,
    Gitea,
}

/// The stored name of a platform.
pub open spec fn platform_name(p: Platform) -> Seq<char> {
    match p {
        Platform::GitHub => "GitHub"@,
        Platform::Gitea => "Gitea"@,
    }
}

impl Platform {
    /// The stored name of this platform.
    pub fn name(&self) -> (r: &'static str)
        ensures
            r@ == platform_name(*self),
    {
        match self {
            Platform::GitHub => "GitHub",
            Platform::Gitea => "Gitea",
        }
    }

    /// Reads a platform from its stored name; the error text names the value.
    pub fn parse(s: &str) -> (r: Result<Platform, String>)
        ensures
            match r {
                Ok(p) => platform_name(p) == s@,
                Err(e) => s@ != platform_name(Platform::GitHub) && s@ != platform_name(
                    Platform::Gitea,
                ) && e@ == "Unknown platform: "@ + s@,
            },
    {
        if text_eq(s, "GitHub") {
            Ok(Platform::GitHub)
        } else if text_eq(s, "Gitea") {
            Ok(Platform::Gitea)
        } else {
            Err(concat2("Unknown platform: ", s))
        }
    }
}

/// The lifecycle of an agent job.
#[derive(Clone, Copy, Debug, PartialEq, Eq, Structural)]
pub enum AgentJobStatus {
    Pending,
    PreparingWorkspace,
    FetchingIssue,
    RunningAgent,
    CreatingPR,
    PrCreated,
    Merged,
    Completed,
    Failed,
    Cancelled,
}

/// The stored name of a status.
pub open spec fn status_name(s: AgentJobStatus) -> Seq<char> {
    match s {
        AgentJobStatus::Pending => "Pending"@,
        AgentJobStatus::PreparingWorkspace => "PreparingWorkspace"@,
        AgentJobStatus::FetchingIssue => "FetchingIssue"@,
        AgentJobStatus::RunningAgent => "RunningAgent"@,
        AgentJobStatus::CreatingPR => "CreatingPR"@,
        AgentJobStatus::PrCreated => "PrCreated"@,
        AgentJobStatus::Merged => "Merged"@,
        AgentJobStatus::Completed => "Completed"@,
        AgentJobStatus::Failed => "Failed"@,
        AgentJobStatus::Cancelled => "Cancelled"@,
    }
}

/// A status after which a job record is never changed again.
pub open spec fn is_terminal(s: AgentJobStatus) -> bool {
    s == AgentJobStatus::Completed || s == AgentJobStatus::Failed || s == AgentJobStatus::Cancelled
}

impl AgentJobStatus {
    /// The stored name of this status.
    pub fn name(&self) -> (r: &'static str)
        ensures
            r@ == status_name(*self),
    {
        match self {
            AgentJobStatus::Pending => "Pending",
            AgentJobStatus::PreparingWorkspace => "PreparingWorkspace",
            AgentJobStatus::FetchingIssue => "FetchingIssue",
            AgentJobStatus::RunningAgent => "RunningAgent",
            AgentJobStatus::CreatingPR => "CreatingPR",
            AgentJobStatus::PrCreated => "PrCreated",
            AgentJobStatus::Merged => "Merged",
            AgentJobStatus::Completed => "Completed",
            AgentJobStatus::Failed => "Failed",
            AgentJobStatus::Cancelled => "Cancelled",
        }
    }

    /// Whether this status is final: Completed, Failed or Cancelled.
    pub fn is_terminal(&self) -> (r: bool)
        ensures
            r == is_terminal(*self),
    {
        match self {
            AgentJobStatus::Completed | AgentJobStatus::Failed | AgentJobStatus::Cancelled => true,
            _ => false,
        }
    }

    /// Reads a status from its stored name; the error text names the value.
    pub fn parse(s: &str) -> (r: Result<AgentJobStatus, String>)
        ensures
            match r {
                Ok(st) => status_name(st) == s@,
                Err(e) => (forall|st: AgentJobStatus| status_name(st) != s@) && e@
                    == "Unknown status: "@ + s@,
            },
    {
        let all = [
            AgentJobStatus::Pending,
            AgentJobStatus::PreparingWorkspace,
            AgentJobStatus::FetchingIssue,
            AgentJobStatus::RunningAgent,
            AgentJobStatus::CreatingPR,
            AgentJobStatus::PrCreated,
            AgentJobStatus::Merged,
            AgentJobStatus::Completed,
            AgentJobStatus::Failed,
            AgentJobStatus::Cancelled,
        ];
        let mut i: usize = 0;
        while i < 10
            invariant
                0 <= i <= 10,
                all@ == seq![
                    AgentJobStatus::Pending,
                    AgentJobStatus::PreparingWorkspace,
                    AgentJobStatus::FetchingIssue,
                    AgentJobStatus::RunningAgent,
                    AgentJobStatus::CreatingPR,
                    AgentJobStatus::PrCreated,
                    AgentJobStatus::Merged,
                    AgentJobStatus::Completed,
                    AgentJobStatus::Failed,
                    AgentJobStatus::Cancelled,
                ],
                forall|k: int| 0 <= k < i ==> status_name(all@[k]) != s@,
            decreases 10 - i,
        {
            let st = all[i];
            if text_eq(st.name(), s) {
                return Ok(st);
            }
            i += 1;
        }
        assert forall|st: AgentJobStatus| status_name(st) != s@ by {
            match st {
                AgentJobStatus::Pending => assert(all@[0] == st),
                AgentJobStatus::PreparingWorkspace => assert(all@[1] == st),
                AgentJobStatus::FetchingIssue => assert(all@[2] == st),
                AgentJobStatus::RunningAgent => assert(all@[3] == st),
                AgentJobStatus::CreatingPR => assert(all@[4] == st),
                AgentJobStatus::PrCreated => assert(all@[5] == st),
                AgentJobStatus::Merged => assert(all@[6] == st),
                AgentJobStatus::Completed => assert(all@[7] == st),
                AgentJobStatus::Failed => assert(all@[8] == st),
                AgentJobStatus::Cancelled => assert(all@[9] == st),
            }
        }
        Err(concat2("Unknown status: ", s))
    }
}

/// The singleton settings row of the local store.
#[derive(Clone, Debug)]
pub struct AppSettings {
    pub id: i64,
    pub worktree_base_path: String,
    pub default_base_branch: String,
    pub agent_timeout_minutes: i32,
    pub sync_interval_minutes: i32,
    pub grpc_server_url: String,
    pub locale: String,
    pub created_at: String,
    pub updated_at: String,
}

/// A tracked remote repository.
#[derive(Clone, Debug)]
pub struct Repository {
    pub id: i64,
    pub mcp_server_name: String,
    pub platform: Platform,
    pub base_url: String,
    pub name: String,
    pub url: String,
    pub owner: String,
    pub repo_name: String,
    pub local_path: Option<String>,
    pub last_synced_at: Option<String>,
    pub created_at: String,
    pub updated_at: String,
}

/// The fields a user gives to track a repository.
#[derive(Clone, Debug)]
pub struct CreateRepository {
    pub mcp_server_name: String,
    pub platform: Platform,
    pub base_url: String,
    pub name: String,
    pub url: String,
    pub owner: String,
    pub repo_name: String,
    pub local_path: Option<String>,
}

/// One run of the coding agent on one issue.
#[derive(Clone, Debug)]
pub struct AgentJob {
    pub id: i64,
    pub repository_id: i64,
    pub issue_number: i32,
    pub jobworkerp_job_id: String,
    pub status: AgentJobStatus,
    pub worktree_path: Option<String>,
    pub branch_name: Option<String>,
    pub pr_number: Option<i32>,
    pub error_message: Option<String>,
    pub created_at: String,
    pub updated_at: String,
}

/// The fields that identify a new agent job.
#[derive(Clone, Debug)]
pub struct CreateAgentJob {
    pub repository_id: i64,
    pub issue_number: i32,
    pub jobworkerp_job_id: String,
}

/// The failures the library reports.
#[derive(Debug)]
pub enum AppError {
    /// The local store failed.
    Database(String),
    /// The backend could not be reached, or a remote call failed.
    Grpc(String),
    /// A key or cipher failed.
    Crypto(String),
    /// A file operation failed.
    Io(String),
    /// Data given by the caller failed validation.
    InvalidInput(String),
    /// A lookup found nothing.
    NotFound(String),
    /// An endpoint or credential is misconfigured.
    Config(String),
    /// Anything else, including decoding failures.
    Internal(String),
}

/// The detailed text of an error.
pub open spec fn detailed_message(e: AppError) -> Seq<char> {
    match e {
        AppError::Database(m) => "Database error: "@ + m@,
        AppError::Grpc(m) => "gRPC error: "@ + m@,
        AppError::Crypto(m) => "Crypto error: "@ + m@,
        AppError::Io(m) => "IO error: "@ + m@,
        AppError::InvalidInput(m) => "Invalid input: "@ + m@,
        AppError::NotFound(m) => "Not found: "@ + m@,
        AppError::Config(m) => "Configuration error: "@ + m@,
        AppError::Internal(m) => "Internal error: "@ + m@,
    }
}

/// The text shown to a user outside debug builds: only input and lookup
/// errors keep their own words.
pub open spec fn public_message(e: AppError) -> Seq<char> {
    match e {
        AppError::Database(_) => "Database error occurred"@,
        AppError::Grpc(_) => "Backend communication failed"@,
        AppError::Crypto(_) => "Encryption error occurred"@,
        AppError::Io(_) => "File operation failed"@,
        AppError::InvalidInput(m) => m@,
        AppError::NotFound(m) => m@,
        AppError::Config(_) => "Configuration error"@,
        AppError::Internal(_) => "Internal error occurred"@,
    }
}

impl AppError {
    /// The detailed text of this error.
    pub fn to_text(&self) -> (r: String)
        ensures
            r@ == detailed_message(*self),
    {
        match self {
            AppError::Database(m) => concat2("Database error: ", m.as_str()),
            AppError::Grpc(m) => concat2("gRPC error: ", m.as_str()),
            AppError::Crypto(m) => concat2("Crypto error: ", m.as_str()),
            AppError::Io(m) => concat2("IO error: ", m.as_str()),
            AppError::InvalidInput(m) => concat2("Invalid input: ", m.as_str()),
            AppError::NotFound(m) => concat2("Not found: ", m.as_str()),
            AppError::Config(m) => concat2("Configuration error: ", m.as_str()),
            AppError::Internal(m) => concat2("Internal error: ", m.as_str()),
        }
    }

    /// The text handed to the user interface: the detailed text when
    /// `detailed`, else the generalised one.
    pub fn user_message(&self, detailed: bool) -> (r: String)
        ensures
            r@ == if detailed {
                detailed_message(*self)
            } else {
                public_message(*self)
            },
    {
        if detailed {
            return self.to_text();
        }
        match self {
            AppError::Database(_) => String::from_str("Database error occurred"),
            AppError::Grpc(_) => String::from_str("Backend communication failed"),
            AppError::Crypto(_) => String::from_str("Encryption error occurred"),
            AppError::Io(_) => String::from_str("File operation failed"),
            AppError::InvalidInput(m) => m.clone(),
            AppError::NotFound(m) => m.clone(),
            AppError::Config(_) => String::from_str("Configuration error"),
            AppError::Internal(_) => String::from_str("Internal error occurred"),
        }
    }
}

} // verus!
