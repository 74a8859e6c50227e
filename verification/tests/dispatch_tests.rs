use toolgate::dispatch::DispatchError;
use toolgate::dispatch::ExecutionSummary;
use toolgate::dispatch::HookToolInput;
use toolgate::dispatch::HookToolKind;
use toolgate::dispatch::SandboxPolicy;
use toolgate::dispatch::ToolOutput;
use toolgate::dispatch::after_event_for;
use toolgate::dispatch::extract_tool_input_for_hooks;
use toolgate::dispatch::finish_dispatch;
use toolgate::dispatch::hook_tool_kind;
use toolgate::dispatch::sandbox_policy_tag;
use toolgate::dispatch::saturating_millis;
use toolgate::dispatch::unsupported_tool_call_message;
use toolgate::json::JsonValue;
use toolgate::json::normalize_command_to_string;
use toolgate::registry::LocalShellParams;
use toolgate::registry::ToolHandler;
use toolgate::registry::ToolInvocation;
use toolgate::registry::ToolKind;
use toolgate::registry::ToolPayload;
use toolgate::registry::ToolRegistry;
use toolgate::registry::ToolRegistryBuilder;
use toolgate::registry::ToolSpec;

struct FunctionHandler;

impl ToolHandler for FunctionHandler {
    fn spec_kind(&self) -> ToolKind {
        ToolKind::Function
    }

    fn kind(&self) -> ToolKind {
        ToolKind::Function
    }
}

fn invocation(tool_name: &str, payload: ToolPayload) -> ToolInvocation {
    ToolInvocation {
        tool_name: tool_name.to_string(),
        call_id: "call-1".to_string(),
        payload,
    }
}

fn obj(entries: Vec<(&str, JsonValue)>) -> JsonValue {
    JsonValue::Obj(entries.into_iter().map(|(k, v)| (k.to_string(), v)).collect())
}

#[test]
fn normalize_command_array_to_string() {
    let value = obj(vec![(
        "command",
        JsonValue::Arr(vec![
            JsonValue::Str("echo".to_string()),
            JsonValue::Str("hello".to_string()),
        ]),
    )]);
    let value = normalize_command_to_string(value);
    assert_eq!(value, obj(vec![("command", JsonValue::Str("echo hello".to_string()))]));
}

#[test]
fn normalize_cmd_alias_to_command() {
    let value = obj(vec![("cmd", JsonValue::Str("echo hello".to_string()))]);
    let value = normalize_command_to_string(value);
    assert_eq!(
        value,
        obj(vec![
            ("cmd", JsonValue::Str("echo hello".to_string())),
            ("command", JsonValue::Str("echo hello".to_string())),
        ])
    );
}

#[test]
fn normalize_preserves_existing_command_when_cmd_exists() {
    let value = obj(vec![
        ("cmd", JsonValue::Str("echo hello".to_string())),
        ("command", JsonValue::Str("echo from command".to_string())),
    ]);
    let value = normalize_command_to_string(value);
    assert_eq!(
        value,
        obj(vec![
            ("cmd", JsonValue::Str("echo hello".to_string())),
            ("command", JsonValue::Str("echo from command".to_string())),
        ])
    );
}

#[test]
fn test_extract_function_arguments_normalized() {
    let payload = ToolPayload::Function {
        arguments: r#"{"command": ["a", "b"]}"#.to_string(),
    };
    let v = extract_tool_input_for_hooks(&payload);
    assert_eq!(v, obj(vec![("command", JsonValue::Str("a b".to_string()))]));
}

#[test]
fn test_extract_function_bad_arguments_is_null() {
    let payload = ToolPayload::Function { arguments: "not json".to_string() };
    assert_eq!(extract_tool_input_for_hooks(&payload), JsonValue::Null);
}

#[test]
fn test_extract_local_shell_joins_command() {
    let payload = ToolPayload::LocalShell {
        params: LocalShellParams {
            command: vec!["echo".to_string(), "hello".to_string()],
            workdir: None,
            timeout_ms: None,
            justification: None,
        },
    };
    let v = extract_tool_input_for_hooks(&payload);
    assert_eq!(v, obj(vec![("command", JsonValue::Str("echo hello".to_string()))]));
}

#[test]
fn test_extract_custom_is_string() {
    let payload = ToolPayload::Custom { input: "raw".to_string() };
    assert_eq!(
        extract_tool_input_for_hooks(&payload),
        JsonValue::Str("raw".to_string())
    );
}

#[test]
fn test_unknown_tool_is_recoverable_with_one_zero_duration_record() {
    let mut builder: ToolRegistryBuilder<FunctionHandler> = ToolRegistryBuilder::new();
    builder.register_handler("shell".to_string(), FunctionHandler);
    let (_specs, registry) = builder.build();
    let inv = invocation("missing_tool", ToolPayload::Function { arguments: "{}".to_string() });
    let rejection = registry.prepare_dispatch(&inv).err().unwrap();
    assert_eq!(
        rejection.error,
        DispatchError::RespondToModel("unsupported call: missing_tool".to_string())
    );
    assert_eq!(rejection.telemetry.duration_ms, 0);
    assert!(!rejection.telemetry.success);
    assert_eq!(rejection.telemetry.tool_name, "missing_tool");
    assert_eq!(rejection.telemetry.message, "unsupported call: missing_tool");
}

#[test]
fn test_unknown_custom_tool_message() {
    let payload = ToolPayload::Custom { input: "x".to_string() };
    assert_eq!(
        unsupported_tool_call_message(&payload, "my_tool"),
        "unsupported custom tool call: my_tool"
    );
}

#[test]
fn test_kind_mismatch_is_fatal() {
    let mut builder: ToolRegistryBuilder<FunctionHandler> = ToolRegistryBuilder::new();
    builder.register_handler("shell".to_string(), FunctionHandler);
    let (_specs, registry) = builder.build();
    let inv = invocation(
        "shell",
        ToolPayload::Mcp {
            server: "srv".to_string(),
            tool: "t".to_string(),
            raw_arguments: "{}".to_string(),
        },
    );
    let rejection = registry.prepare_dispatch(&inv).err().unwrap();
    assert_eq!(
        rejection.error,
        DispatchError::Fatal("tool shell invoked with incompatible payload".to_string())
    );
    assert_eq!(rejection.telemetry.duration_ms, 0);
}

#[test]
fn test_matching_kind_resolves() {
    let mut builder: ToolRegistryBuilder<FunctionHandler> = ToolRegistryBuilder::new();
    builder.register_handler("shell".to_string(), FunctionHandler);
    let (_specs, registry) = builder.build();
    let inv = invocation("shell", ToolPayload::Function { arguments: "{}".to_string() });
    assert!(registry.prepare_dispatch(&inv).is_ok());
}

#[test]
fn test_later_registration_wins() {
    let registry = ToolRegistry::new(vec![("a".to_string(), 1u32), ("a".to_string(), 2u32)]);
    assert_eq!(registry.handler("a"), Some(&2));
    assert_eq!(registry.handler("b"), None);
}

#[test]
fn test_builder_collects_specs_in_order() {
    let mut builder: ToolRegistryBuilder<u32> = ToolRegistryBuilder::new();
    builder.push_spec(ToolSpec { name: "one".to_string(), description: "".to_string() });
    builder.push_spec_with_parallel_support(
        ToolSpec { name: "two".to_string(), description: "".to_string() },
        true,
    );
    let (specs, _registry) = builder.build();
    assert_eq!(specs.len(), 2);
    assert_eq!(specs[0].spec.name, "one");
    assert!(!specs[0].supports_parallel_tool_calls);
    assert_eq!(specs[1].spec.name, "two");
    assert!(specs[1].supports_parallel_tool_calls);
}

#[test]
fn test_after_event_on_block() {
    let inv = invocation("shell", ToolPayload::Function { arguments: "{}".to_string() });
    let event = after_event_for(
        &inv,
        "turn-1",
        "macos.seatbelt",
        &SandboxPolicy::ReadOnly,
        true,
        ExecutionSummary::Blocked { reason: "nope".to_string(), elapsed_ms: 7 },
    );
    assert!(!event.executed);
    assert!(!event.success);
    assert_eq!(event.duration_ms, 7);
    assert_eq!(event.output_preview, "nope");
    assert!(event.mutating);
    assert_eq!(event.sandbox_policy, "read-only");
    assert_eq!(event.tool_kind, HookToolKind::Function);
}

#[test]
fn test_after_event_on_execution() {
    let inv = invocation("shell", ToolPayload::Custom { input: "x".to_string() });
    let event = after_event_for(
        &inv,
        "turn-1",
        "none",
        &SandboxPolicy::DangerFullAccess,
        false,
        ExecutionSummary::Executed {
            preview: "ok".to_string(),
            success: true,
            duration_ms: 12,
        },
    );
    assert!(event.executed);
    assert!(event.success);
    assert_eq!(event.duration_ms, 12);
    assert_eq!(event.output_preview, "ok");
    assert_eq!(event.sandbox_policy, "danger-full-access");
    assert_eq!(event.tool_kind, HookToolKind::Custom);
}

#[test]
fn test_hook_tool_input_carries_fields() {
    let payload = ToolPayload::Mcp {
        server: "srv".to_string(),
        tool: "t".to_string(),
        raw_arguments: "{}".to_string(),
    };
    let input = HookToolInput::from_payload(&payload);
    match &input {
        HookToolInput::Mcp { server, tool, arguments } => {
            assert_eq!(server, "srv");
            assert_eq!(tool, "t");
            assert_eq!(arguments, "{}");
        }
        other => panic!("expected an mcp input, got {:?}", other),
    }
    assert_eq!(hook_tool_kind(&input), HookToolKind::Mcp);
}

#[test]
fn test_finish_dispatch_success() {
    let r = finish_dispatch(
        "call-9",
        Ok(("preview".to_string(), true)),
        Some(ToolOutput { content: "result".to_string(), success: true }),
    );
    let resp = r.unwrap();
    assert_eq!(resp.call_id, "call-9");
    assert_eq!(resp.output, "result");
}

#[test]
fn test_finish_dispatch_missing_output_is_fatal() {
    let r = finish_dispatch("call-9", Ok(("preview".to_string(), true)), None);
    assert_eq!(
        r.err().unwrap(),
        DispatchError::Fatal("tool produced no output".to_string())
    );
}

#[test]
fn test_finish_dispatch_propagates_handler_error() {
    let r = finish_dispatch(
        "call-9",
        Err(DispatchError::RespondToModel("boom".to_string())),
        None,
    );
    assert_eq!(r.err().unwrap(), DispatchError::RespondToModel("boom".to_string()));
}

#[test]
fn test_saturating_millis() {
    assert_eq!(saturating_millis(1234), 1234);
    assert_eq!(saturating_millis(u64::MAX as u128), u64::MAX);
    assert_eq!(saturating_millis(u64::MAX as u128 + 5), u64::MAX);
}

#[test]
fn test_sandbox_policy_tags() {
    assert_eq!(sandbox_policy_tag(&SandboxPolicy::ReadOnly), "read-only");
    assert_eq!(sandbox_policy_tag(&SandboxPolicy::WorkspaceWrite), "workspace-write");
    assert_eq!(sandbox_policy_tag(&SandboxPolicy::DangerFullAccess), "danger-full-access");
    assert_eq!(sandbox_policy_tag(&SandboxPolicy::ExternalSandbox), "external-sandbox");
}
