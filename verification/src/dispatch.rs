//! The dispatch controller's pure decision steps: resolving a handler and
//! rejecting unknown tools or incompatible payloads (each with exactly one
//! failed telemetry record), building the hook-facing view of a payload,
//! and assembling the response and the single after-execution audit event.

use vstd::prelude::*;

use crate::json::JsonValue;
use crate::json::join_spaces;
use crate::json::join_strings;
use crate::json::json_parsed;
use crate::json::norm_obj_rel;
use crate::json::normalize_command_to_string;
use crate::json::parse_json;
use crate::json::string_views;
use crate::registry::ToolHandler;
use crate::registry::ToolInvocation;
use crate::registry::ToolPayload;
use crate::registry::ToolRegistry;
use crate::registry::spec_kind_matches;

verus! {

/// How one invocation failed: an error the caller may report to the model
/// as an ordinary tool failure, or a fatal error that signals an internal
/// wiring bug.
#[derive(Debug, PartialEq)]
pub enum DispatchError {
    RespondToModel(String),
    Fatal(String),
}

/// One telemetry record about an invocation's outcome.
#[derive(Debug)]
pub struct TelemetryRecord {
    pub tool_name: String,
    pub call_id: String,
    pub duration_ms: u64,
    pub success: bool,
    pub message: String,
}

/// A rejection before execution: the error for the caller and the one
/// failed telemetry record to emit.
#[derive(Debug)]
pub struct Rejection {
    pub error: DispatchError,
    pub telemetry: TelemetryRecord,
}

/// The message for a tool name that resolves to no handler.
pub open spec fn spec_unsupported_message(payload: ToolPayload, tool_name: Seq<char>) -> Seq<
    char,
> {
    match payload {
        ToolPayload::Custom { .. } => "unsupported custom tool call: "@ + tool_name,
        _ => "unsupported call: "@ + tool_name,
    }
}

/// The message for a tool name that resolves to no handler.
pub fn unsupported_tool_call_message(payload: &ToolPayload, tool_name: &str) -> (r: String)
    ensures
        r@ == spec_unsupported_message(*payload, tool_name@),
{
    let mut s = match payload {
        ToolPayload::Custom { .. } => "unsupported custom tool call: ".to_owned(),
        _ => "unsupported call: ".to_owned(),
    };
    s.append(tool_name);
    s
}

/// The message for a handler invoked with a payload shape it does not
/// accept.
pub open spec fn spec_kind_mismatch_message(tool_name: Seq<char>) -> Seq<char> {
    "tool "@ + tool_name + " invoked with incompatible payload"@
}

fn kind_mismatch_message(tool_name: &str) -> (r: String)
    ensures
        r@ == spec_kind_mismatch_message(tool_name@),
{
    let mut s = "tool ".to_owned();
    s.append(tool_name);
    s.append(" invoked with incompatible payload");
    s
}

fn failed_telemetry(invocation: &ToolInvocation, message: &str) -> (r: TelemetryRecord)
    ensures
        r.tool_name == invocation.tool_name,
        r.call_id == invocation.call_id,
        r.duration_ms == 0,
        r.success == false,
        r.message@ == message@,
{
    TelemetryRecord {
        tool_name: invocation.tool_name.clone(),
        call_id: invocation.call_id.clone(),
        duration_ms: 0,
        success: false,
        message: message.to_owned(),
    }
}

impl<H: ToolHandler> ToolRegistry<H> {
    /// Resolve an invocation to its handler. A name with no handler is a
    /// recoverable rejection, a handler that does not accept the payload
    /// shape is a fatal one; either rejection carries exactly one failed
    /// telemetry record with zero duration. Never panics.
    pub fn prepare_dispatch<'a>(&'a self, invocation: &ToolInvocation) -> (r: Result<
        &'a H,
        Rejection,
    >)
        ensures
            match r {
                Ok(h) => self.spec_lookup(invocation.tool_name@) == Some(*h) && spec_kind_matches(
                    h.spec_kind(),
                    invocation.payload,
                ),
                Err(rej) => {
                    &&& rej.telemetry.tool_name == invocation.tool_name
                    &&& rej.telemetry.call_id == invocation.call_id
                    &&& rej.telemetry.duration_ms == 0
                    &&& rej.telemetry.success == false
                    &&& (match self.spec_lookup(invocation.tool_name@) {
                        None => {
                            &&& rej.error is RespondToModel
                            &&& rej.error->RespondToModel_0@ == spec_unsupported_message(
                                invocation.payload,
                                invocation.tool_name@,
                            )
                            &&& rej.telemetry.message@ == rej.error->RespondToModel_0@
                        },
                        Some(h) => {
                            &&& !spec_kind_matches(h.spec_kind(), invocation.payload)
                            &&& rej.error is Fatal
                            &&& rej.error->Fatal_0@ == spec_kind_mismatch_message(
                                invocation.tool_name@,
                            )
                            &&& rej.telemetry.message@ == rej.error->Fatal_0@
                        },
                    })
                },
            },
    {
        let handler = match self.handler(invocation.tool_name.as_str()) {
            Some(h) => h,
            None => {
                let message = unsupported_tool_call_message(
                    &invocation.payload,
                    invocation.tool_name.as_str(),
                );
                let telemetry = failed_telemetry(invocation, message.as_str());
                return Err(Rejection { error: DispatchError::RespondToModel(message), telemetry });
            },
        };
        if !handler.matches_kind(&invocation.payload) {
            let message = kind_mismatch_message(invocation.tool_name.as_str());
            let telemetry = failed_telemetry(invocation, message.as_str());
            return Err(Rejection { error: DispatchError::Fatal(message), telemetry });
        }
        Ok(handler)
    }
}

/// The hook-facing tool input for a payload, per the wire protocol's
/// normalization: parsed function or MCP arguments (an unparsable text
/// becomes null), a local-shell command joined into one string, a custom
/// input as a bare string.
pub fn extract_tool_input_for_hooks(payload: &ToolPayload) -> (r: JsonValue)
    ensures
        match *payload {
            ToolPayload::Function { arguments } => match json_parsed(arguments@) {
                Some(v) => match v {
                    JsonValue::Obj(e) => r is Obj && norm_obj_rel(e@, r->Obj_0@),
                    _ => r == v,
                },
                None => r == JsonValue::Null,
            },
            ToolPayload::LocalShell { params } => {
                &&& r is Obj
                &&& r->Obj_0@.len() == 1
                &&& r->Obj_0@[0].0@ == "command"@
                &&& r->Obj_0@[0].1 is Str
                &&& r->Obj_0@[0].1->Str_0@ == join_spaces(string_views(params.command@))
            },
            ToolPayload::Mcp { raw_arguments, .. } => match json_parsed(raw_arguments@) {
                Some(v) => r == v,
                None => r == JsonValue::Null,
            },
            ToolPayload::Custom { input } => r == JsonValue::Str(input),
        },
{
    match payload {
        ToolPayload::Function { arguments } => match parse_json(arguments.as_str()) {
            Some(v) => normalize_command_to_string(v),
            None => JsonValue::Null,
        },
        ToolPayload::LocalShell { params } => {
            let joined = join_strings(&params.command);
            let entries: Vec<(String, JsonValue)> = vec![
                ("command".to_owned(), JsonValue::Str(joined)),
            ];
            JsonValue::Obj(entries)
        },
        ToolPayload::Mcp { raw_arguments, .. } => match parse_json(raw_arguments.as_str()) {
            Some(v) => v,
            None => JsonValue::Null,
        },
        ToolPayload::Custom { input } => JsonValue::Str(input.clone()),
    }
}

/// The payload families the hook protocol distinguishes.
#[derive(Clone, Copy, Debug, PartialEq, Eq, Structural)]
pub enum HookToolKind {
    Function,
    Custom,
    LocalShell,
    Mcp,
}

/// The local-shell fields as the hook protocol carries them.
#[derive(Debug)]
pub struct HookToolInputLocalShell {
    pub command: Vec<String>,
    pub workdir: Option<String>,
    pub timeout_ms: Option<u64>,
    pub justification: Option<String>,
}

/// The wire-facing view of a tool payload, kept separate from the runtime
/// payload so hook payload JSON stays stable.
#[derive(Debug)]
pub enum HookToolInput {
    Function { arguments: String },
    Custom { input: String },
    LocalShell { params: HookToolInputLocalShell },
    Mcp { server: String, tool: String, arguments: String },
}

fn clone_strings(v: &Vec<String>) -> (r: Vec<String>)
    ensures
        r@ == v@,
{
    let mut r: Vec<String> = Vec::new();
    let mut i: usize = 0;
    while i < v.len()
        invariant
            i <= v@.len(),
            r@ == v@.take(i as int),
        decreases v@.len() - i,
    {
        r.push(v[i].clone());
        assert(v@.take(i as int).push(v@[i as int]) =~= v@.take(i + 1 as int));
        i = i + 1;
    }
    assert(v@.take(v@.len() as int) =~= v@);
    r
}

fn clone_opt_string(v: &Option<String>) -> (r: Option<String>)
    ensures
        r == *v,
{
    match v {
        Some(s) => Some(s.clone()),
        None => None,
    }
}

fn clone_opt_u64(v: &Option<u64>) -> (r: Option<u64>)
    ensures
        r == *v,
{
    match v {
        Some(n) => Some(*n),
        None => None,
    }
}

impl HookToolInput {
    /// The wire-facing view of a payload, field for field.
    pub fn from_payload(payload: &ToolPayload) -> (r: Self)
        ensures
            hook_input_of(*payload, r),
    {
        match payload {
            ToolPayload::Function { arguments } => HookToolInput::Function {
                arguments: arguments.clone(),
            },
            ToolPayload::Custom { input } => HookToolInput::Custom { input: input.clone() },
            ToolPayload::LocalShell { params } => HookToolInput::LocalShell {
                params: HookToolInputLocalShell {
                    command: clone_strings(&params.command),
                    workdir: clone_opt_string(&params.workdir),
                    timeout_ms: clone_opt_u64(&params.timeout_ms),
                    justification: clone_opt_string(&params.justification),
                },
            },
            ToolPayload::Mcp { server, tool, raw_arguments } => HookToolInput::Mcp {
                server: server.clone(),
                tool: tool.clone(),
                arguments: raw_arguments.clone(),
            },
        }
    }
}

/// The wire-facing view that belongs to a payload: the same family, with
/// the same fields carried over (`raw_arguments` becomes `arguments`).
pub open spec fn hook_input_of(payload: ToolPayload, r: HookToolInput) -> bool {
    match payload {
        ToolPayload::Function { arguments } => r == (HookToolInput::Function { arguments }),
        ToolPayload::Custom { input } => r == (HookToolInput::Custom { input }),
        ToolPayload::LocalShell { params } => r matches HookToolInput::LocalShell { params: rp }
            && rp.command@ == params.command@ && rp.workdir == params.workdir && rp.timeout_ms
            == params.timeout_ms && rp.justification == params.justification,
        ToolPayload::Mcp { server, tool, raw_arguments } => r == (HookToolInput::Mcp {
            server,
            tool,
            arguments: raw_arguments,
        }),
    }
}

/// The payload family of a wire-facing tool input.
pub open spec fn spec_hook_tool_kind(input: HookToolInput) -> HookToolKind {
    match input {
        HookToolInput::Function { .. } => HookToolKind::Function,
        HookToolInput::Custom { .. } => HookToolKind::Custom,
        HookToolInput::LocalShell { .. } => HookToolKind::LocalShell,
        HookToolInput::Mcp { .. } => HookToolKind::Mcp,
    }
}

/// The payload family of a wire-facing tool input.
pub fn hook_tool_kind(input: &HookToolInput) -> (r: HookToolKind)
    ensures
        r == spec_hook_tool_kind(*input),
{
    match input {
        HookToolInput::Function { .. } => HookToolKind::Function,
        HookToolInput::Custom { .. } => HookToolKind::Custom,
        HookToolInput::LocalShell { .. } => HookToolKind::LocalShell,
        HookToolInput::Mcp { .. } => HookToolKind::Mcp,
    }
}

/// A whole-millisecond duration, saturating at the largest representable
/// value.
pub fn saturating_millis(ms: u128) -> (r: u64)
    ensures
        ms <= u64::MAX ==> r == ms,
        ms > u64::MAX ==> r == u64::MAX,
{
    if ms > u64::MAX as u128 {
        u64::MAX
    } else {
        ms as u64
    }
}

/// The sandbox policy an invocation runs under.
#[derive(Clone, Copy, Debug, PartialEq, Eq, Structural)]
pub enum SandboxPolicy {
    ReadOnly,
    WorkspaceWrite,
    DangerFullAccess,
    ExternalSandbox,
}

/// The metric tag for a sandbox policy.
pub open spec fn spec_sandbox_policy_tag(policy: SandboxPolicy) -> Seq<char> {
    match policy {
        SandboxPolicy::ReadOnly => "read-only"@,
        SandboxPolicy::WorkspaceWrite => "workspace-write"@,
        SandboxPolicy::DangerFullAccess => "danger-full-access"@,
        SandboxPolicy::ExternalSandbox => "external-sandbox"@,
    }
}

/// The metric tag for a sandbox policy.
pub fn sandbox_policy_tag(policy: &SandboxPolicy) -> (r: &'static str)
    ensures
        r@ == spec_sandbox_policy_tag(*policy),
{
    match policy {
        SandboxPolicy::ReadOnly => "read-only",
        SandboxPolicy::WorkspaceWrite => "workspace-write",
        SandboxPolicy::DangerFullAccess => "danger-full-access",
        SandboxPolicy::ExternalSandbox => "external-sandbox",
    }
}

/// The telemetry record for an invocation the pre-execution policy gate
/// blocked: failed, with the hook wait as its duration and the blocking
/// reason as its message.
pub fn blocked_telemetry(invocation: &ToolInvocation, reason: &str, elapsed_ms: u64) -> (r:
    TelemetryRecord)
    ensures
        r.tool_name == invocation.tool_name,
        r.call_id == invocation.call_id,
        r.duration_ms == elapsed_ms,
        r.success == false,
        r.message@ == reason@,
{
    TelemetryRecord {
        tool_name: invocation.tool_name.clone(),
        call_id: invocation.call_id.clone(),
        duration_ms: elapsed_ms,
        success: false,
        message: reason.to_owned(),
    }
}

/// The telemetry record for an executed invocation: the handler's outcome
/// and duration, with the output preview or the error text as its message.
pub fn executed_telemetry(
    invocation: &ToolInvocation,
    preview: &str,
    success: bool,
    duration_ms: u64,
) -> (r: TelemetryRecord)
    ensures
        r.tool_name == invocation.tool_name,
        r.call_id == invocation.call_id,
        r.duration_ms == duration_ms,
        r.success == success,
        r.message@ == preview@,
{
    TelemetryRecord {
        tool_name: invocation.tool_name.clone(),
        call_id: invocation.call_id.clone(),
        duration_ms,
        success,
        message: preview.to_owned(),
    }
}

/// How one gated invocation ended: blocked by the pre-execution policy
/// gate after some wait, or executed (successfully or not) for some
/// duration.
#[derive(Debug)]
pub enum ExecutionSummary {
    Blocked { reason: String, elapsed_ms: u64 },
    Executed { preview: String, success: bool, duration_ms: u64 },
}

/// The audit event published after an invocation was executed or blocked.
#[derive(Debug)]
pub struct AfterToolUseEvent {
    pub turn_id: String,
    pub call_id: String,
    pub tool_name: String,
    pub tool_kind: HookToolKind,
    pub tool_input: HookToolInput,
    pub executed: bool,
    pub success: bool,
    pub duration_ms: u64,
    pub mutating: bool,
    pub sandbox: String,
    pub sandbox_policy: String,
    pub output_preview: String,
}

/// The one audit event for an invocation: whatever the summary — blocked,
/// executed and failed, or executed and succeeded — it yields exactly one
/// event, carrying the wire-facing tool input, whether execution occurred,
/// the outcome and its duration, and the sandbox tags.
pub fn after_event_for(
    invocation: &ToolInvocation,
    turn_id: &str,
    sandbox: &str,
    policy: &SandboxPolicy,
    mutating: bool,
    summary: ExecutionSummary,
) -> (e: AfterToolUseEvent)
    ensures
        e.turn_id@ == turn_id@,
        e.call_id == invocation.call_id,
        e.tool_name == invocation.tool_name,
        hook_input_of(invocation.payload, e.tool_input),
        e.tool_kind == spec_hook_tool_kind(e.tool_input),
        e.executed == (summary is Executed),
        e.mutating == mutating,
        e.sandbox@ == sandbox@,
        e.sandbox_policy@ == spec_sandbox_policy_tag(*policy),
        match summary {
            ExecutionSummary::Blocked { reason, elapsed_ms } => e.success == false
                && e.duration_ms == elapsed_ms && e.output_preview == reason,
            ExecutionSummary::Executed { preview, success, duration_ms } => e.success == success
                && e.duration_ms == duration_ms && e.output_preview == preview,
        },
{
    let tool_input = HookToolInput::from_payload(&invocation.payload);
    let tool_kind = hook_tool_kind(&tool_input);
    let (executed, success, duration_ms, output_preview) = match summary {
        ExecutionSummary::Blocked { reason, elapsed_ms } => (false, false, elapsed_ms, reason),
        ExecutionSummary::Executed { preview, success, duration_ms } => (
            true,
            success,
            duration_ms,
            preview,
        ),
    };
    AfterToolUseEvent {
        turn_id: turn_id.to_owned(),
        call_id: invocation.call_id.clone(),
        tool_name: invocation.tool_name.clone(),
        tool_kind,
        tool_input,
        executed,
        success,
        duration_ms,
        mutating,
        sandbox: sandbox.to_owned(),
        sandbox_policy: sandbox_policy_tag(policy).to_owned(),
        output_preview,
    }
}

/// A successful handler execution: the caller-facing content plus the
/// metadata used for logging.
#[derive(Debug)]
pub struct ToolOutput {
    pub content: String,
    pub success: bool,
}

/// The caller-facing response to one invocation, keyed by its call id.
#[derive(Debug, PartialEq)]
pub struct ToolResponse {
    pub call_id: String,
    pub output: String,
}

/// Assemble the response after execution: a reported success must have
/// left exactly one captured output, whose content answers the call; a
/// missing output after a reported success is a fatal internal-invariant
/// error; a handler error propagates unchanged.
pub fn finish_dispatch(
    call_id: &str,
    result: Result<(String, bool), DispatchError>,
    captured: Option<ToolOutput>,
) -> (r: Result<ToolResponse, DispatchError>)
    ensures
        match result {
            Ok(_) => {
                &&& (captured is Some ==> (r matches Ok(resp) && resp.call_id@ == call_id@
                    && resp.output == captured.unwrap().content))
                &&& (captured is None ==> (r matches Err(e) && e is Fatal && e->Fatal_0@
                    == "tool produced no output"@))
            },
            Err(e) => r == Err::<ToolResponse, DispatchError>(e),
        },
{
    match result {
        Ok(_) => match captured {
            Some(output) => Ok(
                ToolResponse { call_id: call_id.to_owned(), output: output.content },
            ),
            None => Err(DispatchError::Fatal("tool produced no output".to_owned())),
        },
        Err(e) => Err(e),
    }
}

} // verus!
