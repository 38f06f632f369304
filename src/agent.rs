//! Agent jobs: the workflow input that starts one, the record kept for it,
//! and how each item of its result stream moves that record on.
use vstd::prelude::*;
use crate::json::{Json, json_from_bytes, opt_view, parse_json_bytes};
use crate::models::{AgentJob, AgentJobStatus, AppError, AppSettings, Platform, Repository, is_terminal, detailed_message};
use crate::runner::{build_authenticated_clone_url, clone_url};
use crate::text::{concat2, concat3, decimal, decimal_text, digits, text_eq, unsigned_text};

verus! {

/// A user's request to run the agent on an issue.
#[derive(Clone, Debug)]
pub struct StartAgentRequest {
    pub repository_id: i64,
    pub issue_number: i32,
    pub issue_title: String,
    pub custom_prompt: Option<String>,
}

/// The identifiers of a started job: the local record and the backend's job.
#[derive(Clone, Debug)]
pub struct StartAgentResponse {
    pub job_id: i64,
    pub jobworkerp_job_id: String,
}

/// The input of the agent workflow. `clone_url` carries a credential, so
/// the type is not `Debug`: log [`WorkflowInput::redacted`] instead.
#[derive(Clone)]
pub struct WorkflowInput {
    pub owner: String,
    pub repo: String,
    pub issue_number: i32,
    pub issue_title: String,
    pub base_branch: String,
    pub clone_url: String,
    pub base_clone_path: String,
    pub worktree_path: String,
    pub branch_name: String,
    pub mcp_server: String,
    pub custom_prompt: Option<String>,
}

/// What stands in place of a credential in anything that may be logged.
pub open spec fn redaction() -> Seq<char> {
    "[REDACTED]"@
}

impl WorkflowInput {
    /// A copy that is safe to log: the clone address is replaced by a
    /// marker and every other field is kept.
    pub fn redacted(&self) -> (r: WorkflowInput)
        ensures
            r.clone_url@ == redaction(),
            r.owner == self.owner,
            r.repo == self.repo,
            r.issue_number == self.issue_number,
            r.issue_title == self.issue_title,
            r.base_branch == self.base_branch,
            r.base_clone_path == self.base_clone_path,
            r.worktree_path == self.worktree_path,
            r.branch_name == self.branch_name,
            r.mcp_server == self.mcp_server,
            r.custom_prompt == self.custom_prompt,
    {
        WorkflowInput {
            owner: self.owner.clone(),
            repo: self.repo.clone(),
            issue_number: self.issue_number,
            issue_title: self.issue_title.clone(),
            base_branch: self.base_branch.clone(),
            clone_url: String::from_str("[REDACTED]"),
            base_clone_path: self.base_clone_path.clone(),
            worktree_path: self.worktree_path.clone(),
            branch_name: self.branch_name.clone(),
            mcp_server: self.mcp_server.clone(),
            custom_prompt: match &self.custom_prompt {
                Some(p) => Some(p.clone()),
                None => None,
            },
        }
    }
}

/// The branch the agent works on for an issue.
pub open spec fn branch_name_for(issue_number: i32) -> Seq<char> {
    "issue-"@ + decimal(issue_number as int)
}

/// Where the repository is cloned: below the worktree base, at its local
/// path if one is set, else at `owner/repo`.
pub open spec fn base_clone_path_for(repo: Repository, base: Seq<char>) -> Seq<char> {
    let ident = match repo.local_path {
        Some(p) => p@,
        None => repo.owner@ + "/"@ + repo.repo_name@,
    };
    base + "/"@ + ident
}

/// The worktree of one run: below the clone, named after the issue and the
/// start time, so that repeated runs on an issue do not collide.
pub open spec fn worktree_path_for(clone_path: Seq<char>, issue_number: i32, timestamp: u64) -> Seq<
    char,
> {
    clone_path + "/"@ + branch_name_for(issue_number) + "-"@ + digits(timestamp as nat)
}

/// The tool server the workflow uses for a platform.
pub open spec fn mcp_server_for(platform: Platform) -> Seq<char> {
    match platform {
        Platform::GitHub => "github"@,
        Platform::Gitea => "gitea"@,
    }
}

/// The workflow input for a start request on `repo`, with the settings'
/// worktree base and base branch, the start time in seconds and the
/// platform token.
pub open spec fn workflow_input_spec(
    repo: Repository,
    settings: AppSettings,
    request: StartAgentRequest,
    timestamp: u64,
    token: Seq<char>,
    w: WorkflowInput,
) -> bool {
    let clone_path = base_clone_path_for(repo, settings.worktree_base_path@);
    &&& w.owner@ == repo.owner@
    &&& w.repo@ == repo.repo_name@
    &&& w.issue_number == request.issue_number
    &&& w.issue_title@ == request.issue_title@
    &&& w.base_branch@ == settings.default_base_branch@
    &&& w.clone_url@ == clone_url(repo.url@, token, repo.platform)
    &&& w.base_clone_path@ == clone_path
    &&& w.worktree_path@ == worktree_path_for(clone_path, request.issue_number, timestamp)
    &&& w.branch_name@ == branch_name_for(request.issue_number)
    &&& w.mcp_server@ == mcp_server_for(repo.platform)
    &&& opt_view(w.custom_prompt) == opt_view(request.custom_prompt)
}

/// Composes the workflow input that starts the agent on an issue (see
/// [`workflow_input_spec`]).
pub fn plan_workflow_input(
    repo: &Repository,
    settings: &AppSettings,
    request: &StartAgentRequest,
    timestamp: u64,
    token: &str,
) -> (r: WorkflowInput)
    ensures
        workflow_input_spec(*repo, *settings, *request, timestamp, token@, r),
{
    let ident = match &repo.local_path {
        Some(p) => p.clone(),
        None => concat3(repo.owner.as_str(), "/", repo.repo_name.as_str()),
    };
    let base_clone_path = concat3(settings.worktree_base_path.as_str(), "/", ident.as_str());
    let n = decimal_text(request.issue_number as i64);
    let branch_name = concat2("issue-", n.as_str());
    let ts = unsigned_text(timestamp);
    let mut worktree_path = concat3(base_clone_path.as_str(), "/", branch_name.as_str());
    worktree_path.append("-");
    worktree_path.append(ts.as_str());
    let clone = build_authenticated_clone_url(repo.url.as_str(), token, repo.platform);
    let mcp_server = match repo.platform {
        Platform::GitHub => String::from_str("github"),
        Platform::Gitea => String::from_str("gitea"),
    };
    WorkflowInput {
        owner: repo.owner.clone(),
        repo: repo.repo_name.clone(),
        issue_number: request.issue_number,
        issue_title: request.issue_title.clone(),
        base_branch: settings.default_base_branch.clone(),
        clone_url: clone,
        base_clone_path,
        worktree_path,
        branch_name,
        mcp_server,
        custom_prompt: match &request.custom_prompt {
            Some(p) => Some(p.clone()),
            None => None,
        },
    }
}

// ---------------------------------------------------------------------------
// The job record
// ---------------------------------------------------------------------------

/// The content of an [`AgentJob`].
pub struct JobView {
    pub id: i64,
    pub repository_id: i64,
    pub issue_number: i32,
    pub jobworkerp_job_id: Seq<char>,
    pub status: AgentJobStatus,
    pub worktree_path: Option<Seq<char>>,
    pub branch_name: Option<Seq<char>>,
    pub pr_number: Option<i32>,
    pub error_message: Option<Seq<char>>,
    pub created_at: Seq<char>,
    pub updated_at: Seq<char>,
}

impl View for AgentJob {
    type V = JobView;

    open spec fn view(&self) -> JobView {
        JobView {
            id: self.id,
            repository_id: self.repository_id,
            issue_number: self.issue_number,
            jobworkerp_job_id: self.jobworkerp_job_id@,
            status: self.status,
            worktree_path: opt_view(self.worktree_path),
            branch_name: opt_view(self.branch_name),
            pr_number: self.pr_number,
            error_message: opt_view(self.error_message),
            created_at: self.created_at@,
            updated_at: self.updated_at@,
        }
    }
}

impl AgentJob {
    /// The record of a job that was just enqueued: Pending, on the issue's
    /// branch and worktree, with no pull request or error yet.
    pub fn pending(
        id: i64,
        request: &StartAgentRequest,
        jobworkerp_job_id: String,
        input: &WorkflowInput,
        created_at: String,
    ) -> (r: AgentJob)
        ensures
            r.id == id,
            r.repository_id == request.repository_id,
            r.issue_number == request.issue_number,
            r.jobworkerp_job_id == jobworkerp_job_id,
            r.status == AgentJobStatus::Pending,
            opt_view(r.branch_name) == Some(input.branch_name@),
            opt_view(r.worktree_path) == Some(input.worktree_path@),
            r.pr_number is None,
            r.error_message is None,
            r.created_at == created_at,
            r.updated_at == created_at,
    {
        AgentJob {
            id,
            repository_id: request.repository_id,
            issue_number: request.issue_number,
            jobworkerp_job_id,
            status: AgentJobStatus::Pending,
            worktree_path: Some(input.worktree_path.clone()),
            branch_name: Some(input.branch_name.clone()),
            pr_number: None,
            error_message: None,
            created_at: created_at.clone(),
            updated_at: created_at,
        }
    }
}

/// A change to a job record.
#[derive(Debug)]
pub enum JobUpdate {
    /// Move to a status.
    Status(AgentJobStatus),
    /// A pull request was opened: move to PrCreated and keep its number.
    PrCreated(i32),
    /// The run failed: move to Failed and keep the message.
    Failed(String),
}

/// The content of a [`JobUpdate`].
pub enum UpdateView {
    Status(AgentJobStatus),
    PrCreated(i32),
    Failed(Seq<char>),
}

impl View for JobUpdate {
    type V = UpdateView;

    open spec fn view(&self) -> UpdateView {
        match self {
            JobUpdate::Status(s) => UpdateView::Status(*s),
            JobUpdate::PrCreated(n) => UpdateView::PrCreated(*n),
            JobUpdate::Failed(m) => UpdateView::Failed(m@),
        }
    }
}

/// A record after an update: a record in a terminal status is never
/// changed; otherwise the status moves and the number or message is kept.
pub open spec fn applied(j: JobView, u: UpdateView) -> JobView {
    if is_terminal(j.status) {
        j
    } else {
        match u {
            UpdateView::Status(s) => JobView { status: s, ..j },
            UpdateView::PrCreated(n) => JobView {
                status: AgentJobStatus::PrCreated,
                pr_number: Some(n),
                ..j
            },
            UpdateView::Failed(m) => JobView {
                status: AgentJobStatus::Failed,
                error_message: Some(m),
                ..j
            },
        }
    }
}

/// A record after a sequence of updates, applied in order.
pub open spec fn applied_all(j: JobView, us: Seq<UpdateView>) -> JobView
    decreases us.len(),
{
    if us.len() == 0 {
        j
    } else {
        applied(applied_all(j, us.drop_last()), us.last())
    }
}

impl AgentJob {
    /// Applies an update (see [`applied`]); the time stamp of the change is
    /// kept when the record changes.
    pub fn apply_update(&mut self, update: JobUpdate, now: String)
        ensures
            final(self)@ == (if is_terminal(old(self).status) {
                old(self)@
            } else {
                JobView { updated_at: now@, ..applied(old(self)@, update@) }
            }),
    {
        if self.status.is_terminal() {
            return;
        }
        match update {
            JobUpdate::Status(s) => {
                self.status = s;
            },
            JobUpdate::PrCreated(n) => {
                self.status = AgentJobStatus::PrCreated;
                self.pr_number = Some(n);
            },
            JobUpdate::Failed(m) => {
                self.status = AgentJobStatus::Failed;
                self.error_message = Some(m);
            },
        }
        self.updated_at = now;
    }
}

/// Once a record is Completed, Failed or Cancelled, no sequence of later
/// updates changes it.
pub proof fn lemma_terminal_record_is_final(j: JobView, us: Seq<UpdateView>)
    requires
        is_terminal(j.status),
    ensures
        applied_all(j, us) == j,
    decreases us.len(),
{
    if us.len() > 0 {
        lemma_terminal_record_is_final(j, us.drop_last());
    }
}

/// Updates only move a record towards a terminal status: a record that is
/// terminal after some updates stays as it is under any further ones.
pub proof fn lemma_terminal_status_is_kept(j: JobView, us: Seq<UpdateView>, more: Seq<UpdateView>)
    requires
        is_terminal(applied_all(j, us).status),
    ensures
        applied_all(j, us + more) == applied_all(j, us),
    decreases more.len(),
{
    if more.len() == 0 {
        assert(us + more =~= us);
    } else {
        lemma_terminal_status_is_kept(j, us, more.drop_last());
        assert((us + more).drop_last() =~= us + more.drop_last());
        assert((us + more).last() == more.last());
    }
}

// ---------------------------------------------------------------------------
// The result stream
// ---------------------------------------------------------------------------

/// One item of a job's result stream.
#[derive(Debug)]
pub enum StreamItem {
    /// A chunk of output.
    Data(Vec<u8>),
    /// The stream closed without a final payload.
    End,
    /// The aggregated final payload; nothing follows it.
    FinalCollected(Vec<u8>),
}

/// What the interface is told about a job's stream.
#[derive(Clone, Debug)]
pub enum JobStreamEvent {
    /// A chunk of output.
    Data { data: Vec<u8> },
    /// The stream ended.
    End,
    /// The final result of the workflow.
    FinalCollected { status: String, pr_number: Option<i32>, pr_url: Option<String> },
    /// The final result could not be read.
    Error { message: String },
}

/// The final result of the agent workflow.
#[derive(Clone, Debug)]
pub struct WorkflowResult {
    pub status: String,
    pub pr_number: Option<i32>,
    pub pr_url: Option<String>,
    pub no_changes: bool,
    pub error: Option<String>,
}

/// The content of a [`WorkflowResult`].
pub struct WorkflowView {
    pub status: Seq<char>,
    pub pr_number: Option<i32>,
    pub pr_url: Option<Seq<char>>,
    pub no_changes: bool,
    pub error: Option<Seq<char>>,
}

impl View for WorkflowResult {
    type V = WorkflowView;

    open spec fn view(&self) -> WorkflowView {
        WorkflowView {
            status: self.status@,
            pr_number: self.pr_number,
            pr_url: opt_view(self.pr_url),
            no_changes: self.no_changes,
            error: opt_view(self.error),
        }
    }
}

/// An optional integer member within `i32`: absent or null is `None`, any
/// other value is a type error.
pub open spec fn optional_i32(o: Option<Json>) -> Option<Option<i32>> {
    match o {
        None => Some(None),
        Some(Json::Null) => Some(None),
        Some(Json::Int(n)) => if i32::MIN <= n <= i32::MAX {
            Some(Some(n as i32))
        } else {
            None
        },
        _ => None,
    }
}

/// An optional string member: absent or null is `None`, any other value is
/// a type error.
pub open spec fn optional_text(o: Option<Json>) -> Option<Option<Seq<char>>> {
    match o {
        None => Some(None),
        Some(Json::Null) => Some(None),
        Some(Json::Str(s)) => Some(Some(s@)),
        _ => None,
    }
}

/// A boolean member that defaults to false when absent.
pub open spec fn defaulted_bool(o: Option<Json>) -> Option<bool> {
    match o {
        None => Some(false),
        Some(Json::Bool(b)) => Some(b),
        _ => None,
    }
}

/// The text of a member of the wrong type.
pub open spec fn invalid_member_text(name: Seq<char>) -> Seq<char> {
    "invalid type for field `"@ + name + "`"@
}

/// The workflow result that a JSON value describes: an object with a string
/// `status`, and optional `pr_number`, `pr_url`, `no_changes` and `error`.
pub open spec fn workflow_of(j: Json) -> Result<WorkflowView, Seq<char>> {
    if !(j is Object) {
        Err("expected a JSON object"@)
    } else {
        match j.field("status"@) {
            None => Err("missing field `status`"@),
            Some(Json::Str(status)) => match optional_i32(j.field("pr_number"@)) {
                None => Err(invalid_member_text("pr_number"@)),
                Some(pr_number) => match optional_text(j.field("pr_url"@)) {
                    None => Err(invalid_member_text("pr_url"@)),
                    Some(pr_url) => match defaulted_bool(j.field("no_changes"@)) {
                        None => Err(invalid_member_text("no_changes"@)),
                        Some(no_changes) => match optional_text(j.field("error"@)) {
                            None => Err(invalid_member_text("error"@)),
                            Some(error) => Ok(
                                WorkflowView { status: status@, pr_number, pr_url, no_changes, error },
                            ),
                        },
                    },
                },
            },
            Some(_) => Err(invalid_member_text("status"@)),
        }
    }
}

/// Reads an optional integer member within `i32`.
fn member_i32(j: &Json, key: &str) -> (r: Option<Option<i32>>)
    ensures
        r == optional_i32(j.field(key@)),
{
    match j.get(key) {
        None => Some(None),
        Some(Json::Null) => Some(None),
        Some(Json::Int(n)) => if i32::MIN as i64 <= *n && *n <= i32::MAX as i64 {
            Some(Some(*n as i32))
        } else {
            None
        },
        _ => None,
    }
}

/// Reads an optional string member.
fn member_text(j: &Json, key: &str) -> (r: Option<Option<String>>)
    ensures
        match r {
            Some(o) => optional_text(j.field(key@)) == Some(opt_view(o)),
            None => optional_text(j.field(key@)) is None,
        },
{
    match j.get(key) {
        None => Some(None),
        Some(Json::Null) => Some(None),
        Some(Json::Str(s)) => Some(Some(s.clone())),
        _ => None,
    }
}

/// Reads the workflow result that a JSON value describes (see
/// [`workflow_of`]); the error is a description of the mismatch.
pub fn workflow_result_from_json(j: &Json) -> (r: Result<WorkflowResult, String>)
    ensures
        match r {
            Ok(w) => workflow_of(*j) == Ok::<WorkflowView, Seq<char>>(w@),
            Err(e) => workflow_of(*j) == Err::<WorkflowView, Seq<char>>(e@),
        },
{
    match j {
        Json::Object(_) => {},
        _ => {
            return Err(String::from_str("expected a JSON object"));
        },
    }
    let status = match j.get("status") {
        None => {
            return Err(String::from_str("missing field `status`"));
        },
        Some(Json::Str(s)) => s.clone(),
        Some(_) => {
            return Err(concat3("invalid type for field `", "status", "`"));
        },
    };
    let pr_number = match member_i32(j, "pr_number") {
        Some(p) => p,
        None => {
            return Err(concat3("invalid type for field `", "pr_number", "`"));
        },
    };
    let pr_url = match member_text(j, "pr_url") {
        Some(p) => p,
        None => {
            return Err(concat3("invalid type for field `", "pr_url", "`"));
        },
    };
    let no_changes = match j.get("no_changes") {
        None => false,
        Some(Json::Bool(b)) => *b,
        Some(_) => {
            return Err(concat3("invalid type for field `", "no_changes", "`"));
        },
    };
    let error = match member_text(j, "error") {
        Some(e) => e,
        None => {
            return Err(concat3("invalid type for field `", "error", "`"));
        },
    };
    Ok(WorkflowResult { status, pr_number, pr_url, no_changes, error })
}

/// The workflow result in a final payload, or the text of why it does not
/// read.
pub open spec fn workflow_from_bytes(data: Seq<u8>) -> Result<WorkflowView, Seq<char>> {
    match json_from_bytes(data) {
        Err(e) => Err(e),
        Ok(j) => workflow_of(j),
    }
}

/// Reads the workflow result of a final payload: Internal when it is not
/// JSON or not of the expected shape.
pub fn parse_workflow_result(data: &[u8]) -> (r: Result<WorkflowResult, AppError>)
    ensures
        match r {
            Ok(w) => workflow_from_bytes(data@) == Ok::<WorkflowView, Seq<char>>(w@),
            Err(e) => workflow_from_bytes(data@) matches Err(m) && (e matches AppError::Internal(x)
                && x@ == "JSON parse error: "@ + m),
        },
{
    match parse_json_bytes(data) {
        Err(e) => Err(AppError::Internal(concat2("JSON parse error: ", e.as_str()))),
        Ok(j) => match workflow_result_from_json(&j) {
            Ok(w) => Ok(w),
            Err(m) => Err(AppError::Internal(concat2("JSON parse error: ", m.as_str()))),
        },
    }
}

/// The change a final result makes: success with both pull request fields
/// opens a pull request; success without them, or "no_changes", completes;
/// anything else fails with the result's error, or "Unknown error".
pub open spec fn outcome_of(w: WorkflowView) -> UpdateView {
    if w.status == "success"@ {
        match (w.pr_number, w.pr_url) {
            (Some(n), Some(_)) => UpdateView::PrCreated(n),
            _ => UpdateView::Status(AgentJobStatus::Completed),
        }
    } else if w.status == "no_changes"@ {
        UpdateView::Status(AgentJobStatus::Completed)
    } else {
        UpdateView::Failed(
            match w.error {
                Some(e) => e,
                None => "Unknown error"@,
            },
        )
    }
}

/// Decides the change a final result makes (see [`outcome_of`]).
pub fn workflow_outcome(w: &WorkflowResult) -> (r: JobUpdate)
    ensures
        r@ == outcome_of(w@),
{
    if text_eq(w.status.as_str(), "success") {
        match (&w.pr_number, &w.pr_url) {
            (Some(n), Some(_)) => JobUpdate::PrCreated(*n),
            _ => JobUpdate::Status(AgentJobStatus::Completed),
        }
    } else if text_eq(w.status.as_str(), "no_changes") {
        JobUpdate::Status(AgentJobStatus::Completed)
    } else {
        match &w.error {
            Some(e) => JobUpdate::Failed(e.clone()),
            None => JobUpdate::Failed(String::from_str("Unknown error")),
        }
    }
}

/// What the listener does with one stream item: the change to the job
/// record, if any, the event for the interface, and whether it stops.
#[derive(Debug)]
pub struct ListenStep {
    pub update: Option<JobUpdate>,
    pub event: JobStreamEvent,
    pub stop: bool,
}

/// The content of an optional update.
pub open spec fn update_opt_view(u: Option<JobUpdate>) -> Option<UpdateView> {
    match u {
        Some(x) => Some(x@),
        None => None,
    }
}

/// The step for a final payload whose reading gave `parsed`: the result's
/// change and its status and pull request fields; or, when it did not read,
/// Failed with the error's text and an error event.
pub open spec fn final_step_spec(parsed: Result<WorkflowResult, AppError>, step: ListenStep) -> bool {
    step.stop && match parsed {
        Ok(w) => update_opt_view(step.update) == Some(outcome_of(w@)) && (
        step.event matches JobStreamEvent::FinalCollected { status, pr_number, pr_url } && status@
            == w.status@ && pr_number == w.pr_number && opt_view(pr_url) == opt_view(w.pr_url)),
        Err(e) => update_opt_view(step.update) == Some(
            UpdateView::Failed("Failed to parse result: "@ + detailed_message(e)),
        ) && (step.event matches JobStreamEvent::Error { message } && message@ == detailed_message(
            e,
        )),
    }
}

/// Decides the step for a final payload from what reading it gave (see
/// [`final_step_spec`]).
pub fn final_collected_step(parsed: Result<WorkflowResult, AppError>) -> (r: ListenStep)
    ensures
        final_step_spec(parsed, r),
{
    match parsed {
        Ok(w) => {
            let update = workflow_outcome(&w);
            ListenStep {
                update: Some(update),
                event: JobStreamEvent::FinalCollected {
                    status: w.status,
                    pr_number: w.pr_number,
                    pr_url: w.pr_url,
                },
                stop: true,
            }
        },
        Err(e) => {
            let text = e.to_text();
            ListenStep {
                update: Some(JobUpdate::Failed(concat2("Failed to parse result: ", text.as_str()))),
                event: JobStreamEvent::Error { message: text },
                stop: true,
            }
        },
    }
}

/// The change the listener makes as soon as it starts.
pub fn listen_start_update() -> (r: JobUpdate)
    ensures
        r@ == UpdateView::Status(AgentJobStatus::PreparingWorkspace),
{
    JobUpdate::Status(AgentJobStatus::PreparingWorkspace)
}

/// Decides what the listener does with one stream item: a chunk is passed
/// on and changes nothing; the end is passed on and stops; a final payload
/// is read and handled as [`final_collected_step`] says, and stops.
pub fn listen_step(item: StreamItem) -> (r: ListenStep)
    ensures
        match item {
            StreamItem::Data(d) => r.update is None && !r.stop && (r.event matches JobStreamEvent::Data {
                data,
            } && data@ == d@),
            StreamItem::End => r.update is None && r.stop && r.event is End,
            StreamItem::FinalCollected(d) => exists|parsed: Result<WorkflowResult, AppError>|
                final_step_spec(parsed, r) && match parsed {
                    Ok(w) => workflow_from_bytes(d@) == Ok::<WorkflowView, Seq<char>>(w@),
                    Err(e) => workflow_from_bytes(d@) matches Err(m) && (
                    e matches AppError::Internal(x) && x@ == "JSON parse error: "@ + m),
                },
        },
{
    match item {
        StreamItem::Data(d) => ListenStep {
            update: None,
            event: JobStreamEvent::Data { data: d },
            stop: false,
        },
        StreamItem::End => ListenStep { update: None, event: JobStreamEvent::End, stop: true },
        StreamItem::FinalCollected(d) => {
            let parsed = parse_workflow_result(d.as_slice());
            let ghost p = parsed;
            let r = final_collected_step(parsed);
            assert(final_step_spec(p, r));
            r
        },
    }
}

} // verus!
