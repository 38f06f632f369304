//! Calling a tool on a tool server through the backend: provisioning the
//! worker that runs it, collecting its result stream, and decoding the
//! collected bytes.
use vstd::prelude::*;
use crate::agent::StreamItem;
use crate::json::{Json, json_from_bytes, parse_json_bytes};
use crate::models::AppError;
use crate::text::{concat2, concat3};

verus! {

// ---------------------------------------------------------------------------
// Worker provisioning
// ---------------------------------------------------------------------------

/// How a job is queued on a worker.
#[derive(Clone, Copy, Debug, PartialEq, Eq, Structural)]
pub enum QueueType {
    Normal,
}

/// How a worker returns its results.
#[derive(Clone, Copy, Debug, PartialEq, Eq, Structural)]
pub enum ResponseType {
    Direct,
}

/// The worker to create for a tool server: named after it, bound to its
/// runner, retrying three times at a constant one-second interval, keeping
/// failures only, and broadcasting results.
#[derive(Clone, Debug)]
pub struct WorkerSpec {
    pub name: String,
    pub description: String,
    pub runner_id: i64,
    pub retry_interval_ms: u32,
    pub max_retry: u32,
    pub queue_type: QueueType,
    pub response_type: ResponseType,
    pub store_success: bool,
    pub store_failure: bool,
    pub use_static: bool,
    pub broadcast_results: bool,
}

/// The description of an automatically created worker.
pub open spec fn auto_worker_description(name: Seq<char>) -> Seq<char> {
    "Auto-created worker for MCP server '"@ + name + "'"@
}

/// The worker spec for a tool server `name` whose runner has `runner_id`.
pub open spec fn worker_spec_ok(w: WorkerSpec, name: Seq<char>, runner_id: i64) -> bool {
    &&& w.name@ == name
    &&& w.description@ == auto_worker_description(name)
    &&& w.runner_id == runner_id
    &&& w.retry_interval_ms == 1000
    &&& w.max_retry == 3
    &&& w.queue_type == QueueType::Normal
    &&& w.response_type == ResponseType::Direct
    &&& !w.store_success
    &&& w.store_failure
    &&& !w.use_static
    &&& w.broadcast_results
}

/// What provisioning does once the worker lookup answered.
#[derive(Debug)]
pub enum WorkerDecision {
    /// A worker of that name exists: use it, create nothing.
    UseWorker(i64),
    /// No worker of that name: look up the runner to create one.
    LookUpRunner,
}

/// Decides what follows a worker lookup: an existing worker is used as it
/// is, so provisioning never creates a second worker for a name.
pub fn after_worker_lookup(found: Option<i64>) -> (r: WorkerDecision)
    ensures
        match found {
            Some(id) => r matches WorkerDecision::UseWorker(x) && x == id,
            None => r is LookUpRunner,
        },
{
    match found {
        Some(id) => WorkerDecision::UseWorker(id),
        None => WorkerDecision::LookUpRunner,
    }
}

/// The error for a tool server whose runner is not registered.
pub open spec fn unregistered_text(name: Seq<char>) -> Seq<char> {
    "MCP server runner '"@ + name + "' not found. Please register the MCP server first."@
}

/// Decides what follows a runner lookup: NotFound when there is no runner
/// (runners are never created here), Internal when it has no id, else the
/// worker to create.
pub fn after_runner_lookup(name: &str, runner: Option<Option<i64>>) -> (r: Result<WorkerSpec, AppError>)
    ensures
        match runner {
            None => r matches Err(AppError::NotFound(m)) && m@ == unregistered_text(name@),
            Some(None) => r matches Err(AppError::Internal(m)) && m@ == "Runner has no ID"@,
            Some(Some(id)) => r matches Ok(w) && worker_spec_ok(w, name@, id),
        },
{
    match runner {
        None => Err(
            AppError::NotFound(
                concat3(
                    "MCP server runner '",
                    name,
                    "' not found. Please register the MCP server first.",
                ),
            ),
        ),
        Some(None) => Err(AppError::Internal(String::from_str("Runner has no ID"))),
        Some(Some(id)) => Ok(
            WorkerSpec {
                name: String::from_str(name),
                description: concat3("Auto-created worker for MCP server '", name, "'"),
                runner_id: id,
                retry_interval_ms: 1000,
                max_retry: 3,
                queue_type: QueueType::Normal,
                response_type: ResponseType::Direct,
                store_success: false,
                store_failure: true,
                use_static: false,
                broadcast_results: true,
            },
        ),
    }
}

/// Provisioning against a backend whose workers are `workers` by name: the
/// workers afterwards and the id used, if any. A created worker gets
/// `fresh_id`; `runner` is what the runner lookup answers.
pub open spec fn provision(
    workers: Map<Seq<char>, i64>,
    name: Seq<char>,
    runner: Option<Option<i64>>,
    fresh_id: i64,
) -> (Map<Seq<char>, i64>, Option<i64>) {
    if workers.contains_key(name) {
        (workers, Some(workers[name]))
    } else {
        match runner {
            Some(Some(_)) => (workers.insert(name, fresh_id), Some(fresh_id)),
            _ => (workers, None),
        }
    }
}

/// The provisioning model follows the decisions: an existing worker is
/// used; otherwise a worker named after the server is created only when
/// its runner answered with an id.
pub proof fn lemma_provision_follows_decisions(
    workers: Map<Seq<char>, i64>,
    name: Seq<char>,
    runner: Option<Option<i64>>,
    fresh_id: i64,
    spec: WorkerSpec,
)
    requires
        !workers.contains_key(name),
        runner matches Some(Some(id)) && worker_spec_ok(spec, name, id),
    ensures
        provision(workers, name, runner, fresh_id).0 == workers.insert(spec.name@, fresh_id),
{
}

/// Provisioning twice for the same server uses the same worker, and the
/// second call creates nothing.
pub proof fn lemma_provision_idempotent(
    workers: Map<Seq<char>, i64>,
    name: Seq<char>,
    runner: Option<Option<i64>>,
    first_id: i64,
    second_id: i64,
)
    requires
        provision(workers, name, runner, first_id).1 is Some,
    ensures
        ({
            let (after_first, used_first) = provision(workers, name, runner, first_id);
            let (after_second, used_second) = provision(after_first, name, runner, second_id);
            used_second == used_first && after_second == after_first
        }),
{
}

// ---------------------------------------------------------------------------
// Collecting and decoding a tool result
// ---------------------------------------------------------------------------

/// The error for a tool server without a runner.
pub open spec fn runner_missing_text(name: Seq<char>) -> Seq<char> {
    "Runner '"@ + name + "' not found"@
}

/// The NotFound error for a tool server without a runner.
pub fn runner_not_found(name: &str) -> (r: AppError)
    ensures
        r matches AppError::NotFound(m) && m@ == runner_missing_text(name@),
{
    AppError::NotFound(concat3("Runner '", name, "' not found"))
}

/// The bytes collected after one more item: a chunk is appended, a final
/// payload replaces what was collected, and the end changes nothing.
pub open spec fn collected_after(acc: Seq<u8>, item: StreamItem) -> Seq<u8> {
    match item {
        StreamItem::Data(d) => acc + d@,
        StreamItem::FinalCollected(d) => d@,
        StreamItem::End => acc,
    }
}

/// Takes one stream item into the collected bytes (see [`collected_after`]);
/// true when the stream has ended.
pub fn collect_item(acc: &mut Vec<u8>, item: StreamItem) -> (stop: bool)
    ensures
        final(acc)@ == collected_after(old(acc)@, item),
        stop == (item is End),
{
    match item {
        StreamItem::Data(d) => {
            let mut d = d;
            acc.append(&mut d);
            false
        },
        StreamItem::FinalCollected(d) => {
            *acc = d;
            false
        },
        StreamItem::End => true,
    }
}

/// The JSON a tool result decodes to: null for no bytes; else what the
/// runner's result schema gave, when it has one and decoding with it
/// succeeded; else the bytes read as JSON. It fails only when both ways
/// fail; the error is the text of the Internal failure, which names the
/// schema's failure too when there was one.
pub open spec fn tool_result(bytes: Seq<u8>, by_schema: Option<Result<Json, String>>) -> Result<
    Json,
    Seq<char>,
> {
    if bytes.len() == 0 {
        Ok(Json::Null)
    } else {
        match by_schema {
            Some(Ok(j)) => Ok(j),
            Some(Err(s)) => match json_from_bytes(bytes) {
                Ok(j) => Ok(j),
                Err(e) => Err(s@ + "; failed to parse as JSON: "@ + e),
            },
            None => match json_from_bytes(bytes) {
                Ok(j) => Ok(j),
                Err(e) => Err("Failed to parse as JSON: "@ + e),
            },
        }
    }
}

/// Decodes the collected bytes of a tool result (see [`tool_result`]).
/// `by_schema` is what decoding with the runner's result schema gave, when
/// there is one; a failed schema decode falls back to reading JSON, and a
/// failure of both is Internal.
pub fn decode_tool_result(bytes: &[u8], by_schema: Option<Result<Json, String>>) -> (r: Result<
    Json,
    AppError,
>)
    ensures
        match r {
            Ok(j) => tool_result(bytes@, by_schema) == Ok::<Json, Seq<char>>(j),
            Err(e) => tool_result(bytes@, by_schema) matches Err(m) && (e matches AppError::Internal(
                x,
            ) && x@ == m),
        },
{
    if bytes.len() == 0 {
        return Ok(Json::Null);
    }
    match by_schema {
        Some(Ok(j)) => Ok(j),
        Some(Err(s)) => match parse_json_bytes(bytes) {
            Ok(j) => Ok(j),
            Err(e) => Err(AppError::Internal(concat3(s.as_str(), "; failed to parse as JSON: ", e.as_str()))),
        },
        None => match parse_json_bytes(bytes) {
            Ok(j) => Ok(j),
            Err(e) => Err(AppError::Internal(concat2("Failed to parse as JSON: ", e.as_str()))),
        },
    }
}

} // verus!
