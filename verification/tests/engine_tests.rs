use toolgate::engine::HookFailurePolicy;
use toolgate::engine::HookProcessOutcome;
use toolgate::engine::HookRule;
use toolgate::engine::HookStep;
use toolgate::engine::RuleAction;
use toolgate::engine::evaluate_outcome;
use toolgate::engine::plan_rule;
use toolgate::engine::run_hooks_with;

fn rule(matcher: &str, command: Vec<&str>, on_failure: HookFailurePolicy) -> HookRule {
    HookRule {
        matcher: matcher.to_string(),
        command: command.into_iter().map(|s| s.to_string()).collect(),
        timeout_sec: 5,
        on_failure,
    }
}

fn exited(code: i32, stdout: &str, stderr: &str) -> HookProcessOutcome {
    HookProcessOutcome::Exited {
        code: Some(code),
        status_desc: format!("exit status: {code}"),
        stdout: stdout.to_string(),
        stderr: stderr.to_string(),
    }
}

#[test]
fn test_empty_command_denies_by_default() {
    let rules = vec![rule("*", vec![], HookFailurePolicy::Deny)];
    let outcomes = vec![exited(0, "", "")];
    let result = run_hooks_with(&rules, "shell", &outcomes);
    assert!(result.is_err());
    assert!(result.unwrap_err().contains("empty command"));
}

#[test]
fn test_empty_command_fail_open_continues() {
    let rules = vec![
        rule("*", vec![], HookFailurePolicy::Allow),
        rule("*", vec!["true"], HookFailurePolicy::Deny),
    ];
    let outcomes = vec![exited(0, "", ""), exited(0, "", "")];
    assert!(run_hooks_with(&rules, "shell", &outcomes).is_ok());
}

#[test]
fn test_no_matching_hooks_allows() {
    let rules = vec![rule("other_tool", vec!["false"], HookFailurePolicy::Deny)];
    // the outcome of a non-matching rule is never consulted
    let outcomes = vec![exited(1, "", "would fail if matched")];
    let result = run_hooks_with(&rules, "shell", &outcomes);
    assert!(result.is_ok());
}

#[test]
fn test_hook_exit_0_allows() {
    let rules = vec![rule("*", vec!["true"], HookFailurePolicy::Deny)];
    let outcomes = vec![exited(0, "", "")];
    let result = run_hooks_with(&rules, "shell", &outcomes);
    assert!(result.is_ok());
}

#[test]
fn test_hook_exit_2_denies() {
    let rules = vec![rule(
        "*",
        vec!["sh", "-c", "echo 'Blocked by test' >&2; exit 2"],
        HookFailurePolicy::Deny,
    )];
    let outcomes = vec![exited(2, "", "Blocked by test\n")];
    let result = run_hooks_with(&rules, "shell", &outcomes);
    assert!(result.is_err());
    let reason = result.unwrap_err();
    assert!(reason.contains("Blocked by test"));
    // the reason is exactly the trimmed stderr, no prefix injected
    assert_eq!(reason, "Blocked by test");
}

#[test]
fn test_hook_json_deny_response() {
    let rules = vec![rule(
        "*",
        vec!["sh", "-c", r#"echo '{"decision": "deny", "reason": "JSON deny"}'"#],
        HookFailurePolicy::Deny,
    )];
    let outcomes = vec![exited(0, r#"{"decision": "deny", "reason": "JSON deny"}"#, "")];
    let result = run_hooks_with(&rules, "shell", &outcomes);
    assert!(result.is_err());
    assert!(result.unwrap_err().contains("JSON deny"));
}

#[test]
fn test_no_rules_always_allows() {
    let rules: Vec<HookRule> = vec![];
    let outcomes: Vec<HookProcessOutcome> = vec![];
    assert!(run_hooks_with(&rules, "anything", &outcomes).is_ok());
}

#[test]
fn test_plan_rule_actions() {
    let r = rule("shell", vec!["true"], HookFailurePolicy::Deny);
    assert_eq!(plan_rule(&r, "shell"), RuleAction::Run);
    assert_eq!(plan_rule(&r, "other"), RuleAction::Skip);
    let empty_deny = rule("*", vec![], HookFailurePolicy::Deny);
    assert_eq!(
        plan_rule(&empty_deny, "shell"),
        RuleAction::Blocked("Hook misconfigured: empty command".to_string())
    );
    let empty_allow = rule("*", vec![], HookFailurePolicy::Allow);
    assert_eq!(plan_rule(&empty_allow, "shell"), RuleAction::Skip);
}

#[test]
fn test_exit_2_empty_stderr_generic_reason() {
    let r = rule("*", vec!["x"], HookFailurePolicy::Allow);
    let step = evaluate_outcome(&r, &exited(2, "", "   \n"));
    assert_eq!(
        step,
        HookStep::Blocked("Hook blocked command (exit code 2)".to_string())
    );
}

#[test]
fn test_silent_exit_equals_explicit_allow() {
    let r = rule("*", vec!["x"], HookFailurePolicy::Deny);
    let silent = evaluate_outcome(&r, &exited(0, "", ""));
    let explicit = evaluate_outcome(&r, &exited(0, r#"{"decision":"allow"}"#, ""));
    assert_eq!(silent, HookStep::Continue);
    assert_eq!(explicit, HookStep::Continue);
}

#[test]
fn test_timeout_fail_closed_message() {
    let r = rule("*", vec!["sleep", "60"], HookFailurePolicy::Deny);
    let step = evaluate_outcome(&r, &HookProcessOutcome::TimedOut);
    assert_eq!(
        step,
        HookStep::Blocked("Hook failed (fail-closed): Hook timed out after 5s".to_string())
    );
}

#[test]
fn test_timeout_fail_open_continues() {
    let r = rule("*", vec!["sleep", "60"], HookFailurePolicy::Allow);
    assert_eq!(evaluate_outcome(&r, &HookProcessOutcome::TimedOut), HookStep::Continue);
}

#[test]
fn test_nonzero_exit_uses_stderr() {
    let r = rule("*", vec!["x"], HookFailurePolicy::Deny);
    let step = evaluate_outcome(&r, &exited(1, "", " boom \n"));
    assert_eq!(
        step,
        HookStep::Blocked("Hook failed (fail-closed): Hook failed: boom".to_string())
    );
}

#[test]
fn test_nonzero_exit_empty_stderr_uses_status() {
    let r = rule("*", vec!["x"], HookFailurePolicy::Deny);
    let step = evaluate_outcome(&r, &exited(3, "", ""));
    assert_eq!(
        step,
        HookStep::Blocked(
            "Hook failed (fail-closed): Hook exited with status: exit status: 3".to_string()
        )
    );
}

#[test]
fn test_spawn_failure_fail_closed() {
    let r = rule("*", vec!["no_such_binary"], HookFailurePolicy::Deny);
    let step = evaluate_outcome(
        &r,
        &HookProcessOutcome::SpawnFailed { error: "No such file or directory".to_string() },
    );
    assert_eq!(
        step,
        HookStep::Blocked(
            "Hook failed (fail-closed): Spawn hook: No such file or directory".to_string()
        )
    );
}

#[test]
fn test_parse_failure_preview_is_truncated() {
    let r = rule("*", vec!["x"], HookFailurePolicy::Deny);
    let stdout: String = {
        let mut s = "!".to_string();
        for _ in 0..300 {
            s.push('a');
        }
        s
    };
    let step = evaluate_outcome(&r, &exited(0, &stdout, ""));
    let preview: String = stdout.chars().take(200).collect();
    let expected = format!(
        "Hook failed (fail-closed): Parse hook output: invalid hook output (got: {preview})"
    );
    assert_eq!(step, HookStep::Blocked(expected));
}

#[test]
fn test_deny_without_reason_gets_default() {
    let r = rule("*", vec!["x"], HookFailurePolicy::Allow);
    let step = evaluate_outcome(&r, &exited(0, r#"{"decision":"deny"}"#, ""));
    assert_eq!(step, HookStep::Blocked("Blocked by PreToolUse hook".to_string()));
}

#[test]
fn test_ask_is_handled_as_deny() {
    let r = rule("*", vec!["x"], HookFailurePolicy::Allow);
    let step = evaluate_outcome(
        &r,
        &exited(0, r#"{"decision":"ask","reason":"needs approval"}"#, ""),
    );
    assert_eq!(step, HookStep::Blocked("needs approval".to_string()));
}

#[test]
fn test_first_blocking_rule_wins() {
    let rules = vec![
        rule("other", vec!["x"], HookFailurePolicy::Deny),
        rule("shell", vec!["x"], HookFailurePolicy::Deny),
        rule("*", vec!["x"], HookFailurePolicy::Deny),
    ];
    let outcomes = vec![
        exited(0, "", ""),
        exited(2, "", "first block"),
        exited(2, "", "second block"),
    ];
    let result = run_hooks_with(&rules, "shell", &outcomes);
    assert_eq!(result.unwrap_err(), "first block");
}
