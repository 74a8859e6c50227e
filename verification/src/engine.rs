//! The policy-hook engine: which configured rules apply to a tool call, what
//! a hook process's observed outcome means under the wire protocol, and how
//! a run over all rules short-circuits on the first blocking decision.
//!
//! Spawning the hook processes is outside work; the engine is the complete
//! decision logic, taking each process's observed outcome as a value.

use vstd::prelude::*;

use crate::json::json_parsed;
use crate::json::parse_json;
use crate::matcher::matches_tool;
use crate::matcher::spec_matches;
use crate::strutil::dec_str;
use crate::strutil::take_chars;
use crate::strutil::trim_seq;
use crate::strutil::trim_str;
use crate::strutil::u64_to_string;
use crate::types::HookDecision;
use crate::types::decode_hook_output;
use crate::types::spec_decode;
use crate::types::spec_effective_decision;
use crate::types::spec_effective_reason;

verus! {

/// What to do when a hook itself fails (cannot run, errors, times out):
/// deny the tool call (fail closed) or let it pass (fail open).
#[derive(Clone, Copy, Debug, PartialEq, Eq, Structural)]
pub enum HookFailurePolicy {
    Deny,
    Allow,
}

/// One configured policy hook: the pattern of tool names it gates, the
/// command to run (first element is the executable), its timeout in
/// seconds, and its failure policy.
#[derive(Debug)]
pub struct HookRule {
    pub matcher: String,
    pub command: Vec<String>,
    pub timeout_sec: u64,
    pub on_failure: HookFailurePolicy,
}

/// What the driver observed of one hook process: a failure to spawn, to
/// write its input, or to await it; expiry of its timeout; or an exit, with
/// the exit code if any, a rendering of the exit status, and the captured
/// output streams.
#[derive(Debug)]
pub enum HookProcessOutcome {
    SpawnFailed { error: String },
    StdinFailed { error: String },
    WaitFailed { error: String },
    TimedOut,
    Exited { code: Option<i32>, status_desc: String, stdout: String, stderr: String },
}

/// The engine's verdict on one rule: go on to the next rule, or block the
/// tool call with a reason.
#[derive(Debug, PartialEq)]
pub enum HookStep {
    Continue,
    Blocked(String),
}

/// What a rule asks the driver to do: nothing (it does not apply), block
/// outright (it is misconfigured and fails closed), or run its command.
#[derive(Debug, PartialEq)]
pub enum RuleAction {
    Skip,
    Blocked(String),
    Run,
}

/// How a hook-execution error resolves under the rule's failure policy:
/// fail closed blocks with a reason wrapping the error, fail open passes.
pub open spec fn spec_fail_policy(rule: HookRule, msg: Seq<char>) -> Option<Seq<char>> {
    if rule.on_failure is Deny {
        Some("Hook failed (fail-closed): "@ + msg)
    } else {
        None
    }
}

/// The error text for hook output that is not a valid response: it carries
/// the first 200 characters of the offending text.
pub open spec fn parse_error_message(stdout: Seq<char>) -> Seq<char> {
    "Parse hook output: invalid hook output (got: "@ + (if stdout.len() <= 200 {
        stdout
    } else {
        stdout.take(200)
    }) + ")"@
}

/// What an exit with code zero and the given stdout means: empty output is
/// an implicit allow; otherwise the output must parse and decode as a hook
/// response, whose effective decision either lets the call pass or blocks
/// it with the effective reason (a fixed text when none is given).
pub open spec fn spec_eval_stdout(rule: HookRule, stdout: Seq<char>) -> Option<Seq<char>> {
    if trim_seq(stdout).len() == 0 {
        None
    } else {
        match json_parsed(stdout) {
            None => spec_fail_policy(rule, parse_error_message(stdout)),
            Some(v) => match spec_decode(v) {
                None => spec_fail_policy(rule, parse_error_message(stdout)),
                Some(o) => {
                    if spec_effective_decision(o) is Allow {
                        None
                    } else {
                        Some(
                            match spec_effective_reason(o) {
                                Some(r) => r@,
                                None => "Blocked by PreToolUse hook"@,
                            },
                        )
                    }
                },
            },
        }
    }
}

/// What one observed process outcome means for the tool call: `None` lets
/// the call pass to the next rule, `Some` blocks it with that reason.
///
/// Exit code 2 is a protocol-level deny: the trimmed stderr is the reason
/// (a fixed text when empty), never routed through the failure policy. Any
/// other non-zero exit, and every infrastructure failure, is a
/// hook-execution error routed through the failure policy.
pub open spec fn spec_eval_outcome(rule: HookRule, outcome: HookProcessOutcome) -> Option<
    Seq<char>,
> {
    match outcome {
        HookProcessOutcome::SpawnFailed { error } => spec_fail_policy(
            rule,
            "Spawn hook: "@ + error@,
        ),
        HookProcessOutcome::StdinFailed { error } => spec_fail_policy(
            rule,
            "Write to hook stdin: "@ + error@,
        ),
        HookProcessOutcome::WaitFailed { error } => spec_fail_policy(
            rule,
            "Wait for hook: "@ + error@,
        ),
        HookProcessOutcome::TimedOut => spec_fail_policy(
            rule,
            "Hook timed out after "@ + dec_str(rule.timeout_sec as int) + "s"@,
        ),
        HookProcessOutcome::Exited { code, status_desc, stdout, stderr } => {
            if code == Some(2i32) {
                Some(
                    if trim_seq(stderr@).len() == 0 {
                        "Hook blocked command (exit code 2)"@
                    } else {
                        trim_seq(stderr@)
                    },
                )
            } else if code != Some(0i32) {
                spec_fail_policy(
                    rule,
                    if trim_seq(stderr@).len() > 0 {
                        "Hook failed: "@ + trim_seq(stderr@)
                    } else {
                        "Hook exited with status: "@ + status_desc@
                    },
                )
            } else {
                spec_eval_stdout(rule, stdout@)
            }
        },
    }
}

/// The verdict of one rule on a tool call, given what running it produced:
/// a rule whose matcher does not match is skipped; a matching rule with an
/// empty command is a hook failure handled by its failure policy; otherwise
/// the observed outcome decides.
pub open spec fn spec_rule_verdict(
    rule: HookRule,
    tool_name: Seq<char>,
    outcome: HookProcessOutcome,
) -> Option<Seq<char>> {
    if !spec_matches(rule.matcher@, tool_name) {
        None
    } else if rule.command@.len() == 0 {
        if rule.on_failure is Deny {
            Some("Hook misconfigured: empty command"@)
        } else {
            None
        }
    } else {
        spec_eval_outcome(rule, outcome)
    }
}

/// The result of running all rules in configured order against a tool call:
/// the first blocking verdict wins, and a run with no blocking verdict lets
/// the call pass.
pub open spec fn spec_run_hooks(
    rules: Seq<HookRule>,
    tool_name: Seq<char>,
    outcomes: Seq<HookProcessOutcome>,
) -> Option<Seq<char>>
    decreases rules.len(),
{
    if rules.len() == 0 {
        None
    } else {
        match spec_rule_verdict(rules[0], tool_name, outcomes[0]) {
            Some(m) => Some(m),
            None => spec_run_hooks(rules.drop_first(), tool_name, outcomes.drop_first()),
        }
    }
}

fn apply_failure_policy(rule: &HookRule, msg: String) -> (r: HookStep)
    ensures
        match spec_fail_policy(*rule, msg@) {
            Some(m) => r is Blocked && r->Blocked_0@ == m,
            None => r is Continue,
        },
{
    match rule.on_failure {
        HookFailurePolicy::Deny => {
            let mut s = "Hook failed (fail-closed): ".to_owned();
            s.append(msg.as_str());
            HookStep::Blocked(s)
        },
        HookFailurePolicy::Allow => HookStep::Continue,
    }
}

fn parse_error_text(rule: &HookRule, stdout: &str) -> (r: String)
    ensures
        r@ == parse_error_message(stdout@),
{
    let mut s = "Parse hook output: invalid hook output (got: ".to_owned();
    let preview = take_chars(stdout, 200);
    s.append(preview.as_str());
    s.append(")");
    s
}

fn eval_exit_zero_stdout(rule: &HookRule, stdout: &str) -> (r: HookStep)
    ensures
        match spec_eval_stdout(*rule, stdout@) {
            Some(m) => r is Blocked && r->Blocked_0@ == m,
            None => r is Continue,
        },
{
    let trimmed = trim_str(stdout);
    if trimmed.as_str().is_empty() {
        return HookStep::Continue;
    }
    let parsed = match parse_json(stdout) {
        Some(v) => v,
        None => {
            let msg = parse_error_text(rule, stdout);
            return apply_failure_policy(rule, msg);
        },
    };
    let output = match decode_hook_output(&parsed) {
        Some(o) => o,
        None => {
            let msg = parse_error_text(rule, stdout);
            return apply_failure_policy(rule, msg);
        },
    };
    match output.decision() {
        HookDecision::Allow => HookStep::Continue,
        _ => {
            let reason = match output.reason() {
                Some(r) => r,
                None => "Blocked by PreToolUse hook".to_owned(),
            };
            HookStep::Blocked(reason)
        },
    }
}

/// What one observed process outcome means for the tool call, per
/// `spec_eval_outcome`.
pub fn evaluate_outcome(rule: &HookRule, outcome: &HookProcessOutcome) -> (r: HookStep)
    ensures
        match spec_eval_outcome(*rule, *outcome) {
            Some(m) => r is Blocked && r->Blocked_0@ == m,
            None => r is Continue,
        },
{
    match outcome {
        HookProcessOutcome::SpawnFailed { error } => {
            let mut msg = "Spawn hook: ".to_owned();
            msg.append(error.as_str());
            apply_failure_policy(rule, msg)
        },
        HookProcessOutcome::StdinFailed { error } => {
            let mut msg = "Write to hook stdin: ".to_owned();
            msg.append(error.as_str());
            apply_failure_policy(rule, msg)
        },
        HookProcessOutcome::WaitFailed { error } => {
            let mut msg = "Wait for hook: ".to_owned();
            msg.append(error.as_str());
            apply_failure_policy(rule, msg)
        },
        HookProcessOutcome::TimedOut => {
            let mut msg = "Hook timed out after ".to_owned();
            let secs = u64_to_string(rule.timeout_sec);
            msg.append(secs.as_str());
            msg.append("s");
            apply_failure_policy(rule, msg)
        },
        HookProcessOutcome::Exited { code, status_desc, stdout, stderr } => {
            let is_two = match code {
                Some(c) => *c == 2,
                None => false,
            };
            let is_zero = match code {
                Some(c) => *c == 0,
                None => false,
            };
            if is_two {
                let trimmed = trim_str(stderr.as_str());
                if trimmed.as_str().is_empty() {
                    HookStep::Blocked("Hook blocked command (exit code 2)".to_owned())
                } else {
                    HookStep::Blocked(trimmed)
                }
            } else if !is_zero {
                let trimmed = trim_str(stderr.as_str());
                if !trimmed.as_str().is_empty() {
                    let mut msg = "Hook failed: ".to_owned();
                    msg.append(trimmed.as_str());
                    apply_failure_policy(rule, msg)
                } else {
                    let mut msg = "Hook exited with status: ".to_owned();
                    msg.append(status_desc.as_str());
                    apply_failure_policy(rule, msg)
                }
            } else {
                eval_exit_zero_stdout(rule, stdout.as_str())
            }
        },
    }
}

/// What the driver should do for one rule: skip it when its matcher does
/// not match the tool name or when its empty command fails open, block when
/// its empty command fails closed, and run its command otherwise.
pub fn plan_rule(rule: &HookRule, tool_name: &str) -> (r: RuleAction)
    ensures
        !spec_matches(rule.matcher@, tool_name@) ==> r is Skip,
        spec_matches(rule.matcher@, tool_name@) && rule.command@.len() == 0
            && rule.on_failure is Deny ==> r is Blocked && r->Blocked_0@
            == "Hook misconfigured: empty command"@,
        spec_matches(rule.matcher@, tool_name@) && rule.command@.len() == 0
            && rule.on_failure is Allow ==> r is Skip,
        spec_matches(rule.matcher@, tool_name@) && rule.command@.len() > 0 ==> r is Run,
{
    if !matches_tool(rule.matcher.as_str(), tool_name) {
        return RuleAction::Skip;
    }
    if rule.command.len() == 0 {
        return match rule.on_failure {
            HookFailurePolicy::Deny => RuleAction::Blocked(
                "Hook misconfigured: empty command".to_owned(),
            ),
            HookFailurePolicy::Allow => RuleAction::Skip,
        };
    }
    RuleAction::Run
}

/// Run all rules in configured order against a tool call, each rule's
/// process outcome supplied alongside it, per `spec_run_hooks`. Outcomes of
/// rules that are skipped or misconfigured are not consulted.
pub fn run_hooks_with(
    rules: &Vec<HookRule>,
    tool_name: &str,
    outcomes: &Vec<HookProcessOutcome>,
) -> (r: Result<(), String>)
    requires
        outcomes@.len() == rules@.len(),
    ensures
        match r {
            Ok(_) => spec_run_hooks(rules@, tool_name@, outcomes@) is None,
            Err(m) => spec_run_hooks(rules@, tool_name@, outcomes@) == Some(m@),
        },
{
    let mut i: usize = 0;
    assert(rules@.skip(0) =~= rules@);
    assert(outcomes@.skip(0) =~= outcomes@);
    while i < rules.len()
        invariant
            i <= rules@.len(),
            outcomes@.len() == rules@.len(),
            spec_run_hooks(rules@, tool_name@, outcomes@) == spec_run_hooks(
                rules@.skip(i as int),
                tool_name@,
                outcomes@.skip(i as int),
            ),
        decreases rules@.len() - i,
    {
        let ghost rs = rules@.skip(i as int);
        let ghost os = outcomes@.skip(i as int);
        proof {
            assert(rs[0] == rules@[i as int]);
            assert(os[0] == outcomes@[i as int]);
            assert(rs.drop_first() =~= rules@.skip(i + 1 as int));
            assert(os.drop_first() =~= outcomes@.skip(i + 1 as int));
        }
        let step = match plan_rule(&rules[i], tool_name) {
            RuleAction::Skip => HookStep::Continue,
            RuleAction::Blocked(m) => HookStep::Blocked(m),
            RuleAction::Run => evaluate_outcome(&rules[i], &outcomes[i]),
        };
        match step {
            HookStep::Blocked(m) => {
                return Err(m);
            },
            HookStep::Continue => {},
        }
        i = i + 1;
    }
    assert(rules@.skip(i as int) =~= Seq::<HookRule>::empty());
    Ok(())
}

/// Law: with no configured rules, a run always passes, and no rule ever
/// asks for a process to be spawned.
pub proof fn lemma_no_rules_allow(tool_name: Seq<char>, outcomes: Seq<HookProcessOutcome>)
    ensures
        spec_run_hooks(Seq::<HookRule>::empty(), tool_name, outcomes) is None,
{
}

/// Law: a matching rule with an empty command always blocks with the
/// misconfiguration reason when it fails closed, and never blocks when it
/// fails open, whatever outcome is supplied for it.
pub proof fn lemma_empty_command_policy(
    rule: HookRule,
    tool_name: Seq<char>,
    outcome: HookProcessOutcome,
)
    requires
        spec_matches(rule.matcher@, tool_name),
        rule.command@.len() == 0,
    ensures
        rule.on_failure is Deny ==> spec_rule_verdict(rule, tool_name, outcome) == Some(
            "Hook misconfigured: empty command"@,
        ),
        rule.on_failure is Allow ==> spec_rule_verdict(rule, tool_name, outcome) is None,
{
}

/// Law: an exit with code 2 blocks with exactly the trimmed stderr as the
/// reason when that is non-empty, with no prefix injected, whatever the
/// rule's failure policy; empty stderr gets the fixed protocol text.
pub proof fn lemma_exit_two_denies(
    rule: HookRule,
    status_desc: String,
    stdout: String,
    stderr: String,
)
    ensures
        ({
            let v = spec_eval_outcome(
                rule,
                HookProcessOutcome::Exited { code: Some(2i32), status_desc, stdout, stderr },
            );
            &&& (trim_seq(stderr@).len() > 0 ==> v == Some(trim_seq(stderr@)))
            &&& (trim_seq(stderr@).len() == 0 ==> v == Some(
                "Hook blocked command (exit code 2)"@,
            ))
        }),
{
}

/// Law: a timeout is a hook-execution error: it blocks, with a reason
/// wrapping the timeout text, exactly when the rule fails closed.
pub proof fn lemma_timeout_is_execution_error(rule: HookRule)
    ensures
        rule.on_failure is Deny ==> spec_eval_outcome(rule, HookProcessOutcome::TimedOut) == Some(
            "Hook failed (fail-closed): "@ + "Hook timed out after "@ + dec_str(
                rule.timeout_sec as int,
            ) + "s"@,
        ),
        rule.on_failure is Allow ==> spec_eval_outcome(rule, HookProcessOutcome::TimedOut) is None,
{
}

/// Law: an exit with code 0 and stdout that is blank resolves to a pass,
/// exactly as an explicit `allow` response does.
pub proof fn lemma_exit_zero_silent_allows(
    rule: HookRule,
    status_desc: String,
    stdout: String,
    stderr: String,
)
    ensures
        trim_seq(stdout@).len() == 0 ==> spec_eval_outcome(
            rule,
            HookProcessOutcome::Exited { code: Some(0i32), status_desc, stdout, stderr },
        ) is None,
        ({
            let parsed = json_parsed(stdout@);
            &&& (trim_seq(stdout@).len() > 0 && parsed is Some && spec_decode(parsed.unwrap())
                is Some && spec_effective_decision(spec_decode(parsed.unwrap()).unwrap())
                is Allow ==> spec_eval_outcome(
                rule,
                HookProcessOutcome::Exited { code: Some(0i32), status_desc, stdout, stderr },
            ) is None)
        }),
{
}

} // verus!
