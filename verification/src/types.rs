//! Wire-protocol types for policy hooks: the decision a hook returns, the
//! parsed shape of its JSON response with the legacy flat fields and the
//! preferred nested `hookSpecificOutput` form, and the resolution rules
//! between the two.

use vstd::prelude::*;

use crate::json::JsonValue;
use crate::json::obj_get;
use crate::json::obj_lookup;
use crate::strutil::str_eq;

verus! {

/// A hook's verdict on a pending tool call. `Ask` is always handled exactly
/// like `Deny` by the engine: there is no interactive approval flow.
#[derive(Clone, Copy, Debug, PartialEq, Eq, Structural)]
pub enum HookDecision {
    Allow,
    Deny,
    Ask,
}

impl Default for HookDecision {
    fn default() -> (r: Self)
        ensures
            r == HookDecision::Allow,
    {
        HookDecision::Allow
    }
}

/// The nested, preferred response shape.
#[derive(Debug, PartialEq)]
pub struct HookSpecificOutput {
    pub permission_decision: Option<HookDecision>,
    pub permission_decision_reason: Option<String>,
}

/// A hook process's parsed response. Both the legacy flat pair and the
/// nested pair may be present; resolution prefers the nested fields.
#[derive(Debug, PartialEq)]
pub struct HookOutput {
    pub hook_specific_output: Option<HookSpecificOutput>,
    pub decision: Option<HookDecision>,
    pub reason: Option<String>,
}

impl Default for HookOutput {
    fn default() -> (r: Self)
        ensures
            r.hook_specific_output is None,
            r.decision is None,
            r.reason is None,
    {
        HookOutput { hook_specific_output: None, decision: None, reason: None }
    }
}

/// The decision a response resolves to: the nested permission decision when
/// present, else the legacy decision, else `Allow`.
pub open spec fn spec_effective_decision(o: HookOutput) -> HookDecision {
    if o.hook_specific_output is Some && o.hook_specific_output.unwrap().permission_decision
        is Some {
        o.hook_specific_output.unwrap().permission_decision.unwrap()
    } else if o.decision is Some {
        o.decision.unwrap()
    } else {
        HookDecision::Allow
    }
}

/// The reason a response resolves to: the nested reason when present, else
/// the legacy reason.
pub open spec fn spec_effective_reason(o: HookOutput) -> Option<String> {
    if o.hook_specific_output is Some && o.hook_specific_output.unwrap().permission_decision_reason
        is Some {
        o.hook_specific_output.unwrap().permission_decision_reason
    } else {
        o.reason
    }
}

impl HookOutput {
    /// The effective decision, preferring the nested field over the legacy
    /// one.
    pub fn decision(&self) -> (r: HookDecision)
        ensures
            r == spec_effective_decision(*self),
    {
        if let Some(h) = &self.hook_specific_output {
            if let Some(d) = &h.permission_decision {
                return *d;
            }
        }
        match &self.decision {
            Some(d) => *d,
            None => HookDecision::Allow,
        }
    }

    /// The effective reason, preferring the nested field over the legacy
    /// one.
    pub fn reason(&self) -> (r: Option<String>)
        ensures
            r == spec_effective_reason(*self),
    {
        if let Some(h) = &self.hook_specific_output {
            if let Some(s) = &h.permission_decision_reason {
                return Some(s.clone());
            }
        }
        match &self.reason {
            Some(s) => Some(s.clone()),
            None => None,
        }
    }
}

/// The decision a JSON string value decodes to: `"allow"` and the legacy
/// alias `"approve"` mean `Allow`, `"deny"` and the legacy alias `"block"`
/// mean `Deny`, `"ask"` means `Ask`; anything else is invalid.
pub open spec fn spec_decision_of(s: Seq<char>) -> Option<HookDecision> {
    if s == "allow"@ || s == "approve"@ {
        Some(HookDecision::Allow)
    } else if s == "deny"@ || s == "block"@ {
        Some(HookDecision::Deny)
    } else if s == "ask"@ {
        Some(HookDecision::Ask)
    } else {
        None
    }
}

/// Decode a decision string, per `spec_decision_of`.
pub fn decision_of_str(s: &str) -> (r: Option<HookDecision>)
    ensures
        r == spec_decision_of(s@),
{
    if str_eq(s, "allow") || str_eq(s, "approve") {
        Some(HookDecision::Allow)
    } else if str_eq(s, "deny") || str_eq(s, "block") {
        Some(HookDecision::Deny)
    } else if str_eq(s, "ask") {
        Some(HookDecision::Ask)
    } else {
        None
    }
}

/// What a decision-valued field of a response object holds: absent or null
/// is no decision, a recognised string is that decision, anything else is
/// invalid.
pub open spec fn spec_field_decision(
    entries: Seq<(String, JsonValue)>,
    key: Seq<char>,
) -> Result<Option<HookDecision>, ()> {
    match obj_lookup(entries, key) {
        None => Ok(None),
        Some(JsonValue::Null) => Ok(None),
        Some(JsonValue::Str(s)) => match spec_decision_of(s@) {
            Some(d) => Ok(Some(d)),
            None => Err(()),
        },
        Some(_) => Err(()),
    }
}

/// What a string-valued field of a response object holds: absent or null is
/// nothing, a string is itself, anything else is invalid.
pub open spec fn spec_field_string(
    entries: Seq<(String, JsonValue)>,
    key: Seq<char>,
) -> Result<Option<String>, ()> {
    match obj_lookup(entries, key) {
        None => Ok(None),
        Some(JsonValue::Null) => Ok(None),
        Some(JsonValue::Str(s)) => Ok(Some(s)),
        Some(_) => Err(()),
    }
}

/// What the `hookSpecificOutput` field decodes to: absent or null is
/// nothing, an object with valid fields is the nested shape, anything else
/// is invalid.
pub open spec fn spec_field_nested(
    entries: Seq<(String, JsonValue)>,
) -> Result<Option<HookSpecificOutput>, ()> {
    match obj_lookup(entries, "hookSpecificOutput"@) {
        None => Ok(None),
        Some(JsonValue::Null) => Ok(None),
        Some(JsonValue::Obj(o)) => match (
            spec_field_decision(o@, "permissionDecision"@),
            spec_field_string(o@, "permissionDecisionReason"@),
        ) {
            (Ok(d), Ok(r)) => Ok(
                Some(HookSpecificOutput { permission_decision: d, permission_decision_reason: r }),
            ),
            _ => Err(()),
        },
        Some(_) => Err(()),
    }
}

/// What a JSON document decodes to as a hook response: an object whose
/// `decision`, `reason` and `hookSpecificOutput` fields are all valid;
/// `None` for any other document.
pub open spec fn spec_decode(v: JsonValue) -> Option<HookOutput> {
    match v {
        JsonValue::Obj(entries) => match (
            spec_field_nested(entries@),
            spec_field_decision(entries@, "decision"@),
            spec_field_string(entries@, "reason"@),
        ) {
            (Ok(h), Ok(d), Ok(r)) => Some(
                HookOutput { hook_specific_output: h, decision: d, reason: r },
            ),
            _ => None,
        },
        _ => None,
    }
}

fn decode_decision_field(entries: &Vec<(String, JsonValue)>, key: &str) -> (r: Result<
    Option<HookDecision>,
    (),
>)
    ensures
        r == spec_field_decision(entries@, key@),
{
    match obj_get(entries, key) {
        None => Ok(None),
        Some(JsonValue::Null) => Ok(None),
        Some(JsonValue::Str(s)) => match decision_of_str(s.as_str()) {
            Some(d) => Ok(Some(d)),
            None => Err(()),
        },
        Some(_) => Err(()),
    }
}

fn decode_string_field(entries: &Vec<(String, JsonValue)>, key: &str) -> (r: Result<
    Option<String>,
    (),
>)
    ensures
        r == spec_field_string(entries@, key@),
{
    match obj_get(entries, key) {
        None => Ok(None),
        Some(JsonValue::Null) => Ok(None),
        Some(JsonValue::Str(s)) => Ok(Some(s.clone())),
        Some(_) => Err(()),
    }
}

/// Decode a parsed JSON document into a hook response, per `spec_decode`.
pub fn decode_hook_output(v: &JsonValue) -> (r: Option<HookOutput>)
    ensures
        r == spec_decode(*v),
{
    let entries = match v {
        JsonValue::Obj(entries) => entries,
        _ => {
            return None;
        },
    };
    let nested: Option<HookSpecificOutput> = match obj_get(entries, "hookSpecificOutput") {
        None => None,
        Some(JsonValue::Null) => None,
        Some(JsonValue::Obj(o)) => {
            let d = match decode_decision_field(o, "permissionDecision") {
                Ok(d) => d,
                Err(_) => {
                    return None;
                },
            };
            let rs = match decode_string_field(o, "permissionDecisionReason") {
                Ok(rs) => rs,
                Err(_) => {
                    return None;
                },
            };
            Some(HookSpecificOutput { permission_decision: d, permission_decision_reason: rs })
        },
        Some(_) => {
            return None;
        },
    };
    let d = match decode_decision_field(entries, "decision") {
        Ok(d) => d,
        Err(_) => {
            return None;
        },
    };
    let rs = match decode_string_field(entries, "reason") {
        Ok(rs) => rs,
        Err(_) => {
            return None;
        },
    };
    Some(HookOutput { hook_specific_output: nested, decision: d, reason: rs })
}

/// Parse a hook process's stdout text into a hook response: the text must
/// be valid JSON that decodes per `spec_decode`.
pub fn parse_hook_output(s: &str) -> (r: Option<HookOutput>)
    ensures
        match crate::json::json_parsed(s@) {
            Some(v) => r == spec_decode(v),
            None => r is None,
        },
{
    match crate::json::parse_json(s) {
        Some(v) => decode_hook_output(&v),
        None => None,
    }
}

/// The message sent to a hook process on its standard input: the trigger
/// name, the tool call's identity, its normalized arguments, and the
/// session's working directory and transcript path.
#[derive(Debug)]
pub struct HookInput {
    pub hook_event_name: String,
    pub tool_name: String,
    pub tool_input: JsonValue,
    pub tool_use_id: String,
    pub session_id: String,
    pub cwd: String,
    pub transcript_path: String,
}

impl HookInput {
    /// A pre-execution hook input; the trigger name is always
    /// `"PreToolUse"`.
    pub fn new(
        tool_name: String,
        tool_input: JsonValue,
        tool_use_id: String,
        session_id: String,
        cwd: String,
        transcript_path: String,
    ) -> (r: Self)
        ensures
            r.hook_event_name@ == "PreToolUse"@,
            r.tool_name == tool_name,
            r.tool_input == tool_input,
            r.tool_use_id == tool_use_id,
            r.session_id == session_id,
            r.cwd == cwd,
            r.transcript_path == transcript_path,
    {
        HookInput {
            hook_event_name: "PreToolUse".to_owned(),
            tool_name,
            tool_input,
            tool_use_id,
            session_id,
            cwd,
            transcript_path,
        }
    }

    /// The JSON document written to the hook's standard input: an object
    /// with exactly these seven fields, in this order.
    pub fn to_json(self) -> (r: JsonValue)
        ensures
            r is Obj,
            r->Obj_0@.len() == 7,
            r->Obj_0@[0].0@ == "hook_event_name"@ && r->Obj_0@[0].1 == JsonValue::Str(
                self.hook_event_name,
            ),
            r->Obj_0@[1].0@ == "tool_name"@ && r->Obj_0@[1].1 == JsonValue::Str(self.tool_name),
            r->Obj_0@[2].0@ == "tool_input"@ && r->Obj_0@[2].1 == self.tool_input,
            r->Obj_0@[3].0@ == "tool_use_id"@ && r->Obj_0@[3].1 == JsonValue::Str(
                self.tool_use_id,
            ),
            r->Obj_0@[4].0@ == "session_id"@ && r->Obj_0@[4].1 == JsonValue::Str(self.session_id),
            r->Obj_0@[5].0@ == "cwd"@ && r->Obj_0@[5].1 == JsonValue::Str(self.cwd),
            r->Obj_0@[6].0@ == "transcript_path"@ && r->Obj_0@[6].1 == JsonValue::Str(
                self.transcript_path,
            ),
    {
        let entries: Vec<(String, JsonValue)> = vec![
            ("hook_event_name".to_owned(), JsonValue::Str(self.hook_event_name)),
            ("tool_name".to_owned(), JsonValue::Str(self.tool_name)),
            ("tool_input".to_owned(), self.tool_input),
            ("tool_use_id".to_owned(), JsonValue::Str(self.tool_use_id)),
            ("session_id".to_owned(), JsonValue::Str(self.session_id)),
            ("cwd".to_owned(), JsonValue::Str(self.cwd)),
            ("transcript_path".to_owned(), JsonValue::Str(self.transcript_path)),
        ];
        JsonValue::Obj(entries)
    }
}

/// Law: an output with only legacy fields and an output with only nested
/// fields, carrying the same decision and reason, resolve to the same
/// effective decision and the same effective reason.
pub proof fn lemma_legacy_nested_equivalent(d: Option<HookDecision>, r: Option<String>)
    ensures
        ({
            let legacy = HookOutput { hook_specific_output: None, decision: d, reason: r };
            let nested = HookOutput {
                hook_specific_output: Some(
                    HookSpecificOutput { permission_decision: d, permission_decision_reason: r },
                ),
                decision: None,
                reason: None,
            };
            &&& spec_effective_decision(legacy) == spec_effective_decision(nested)
            &&& spec_effective_reason(legacy) == spec_effective_reason(nested)
        }),
{
}

/// Law: when nested fields are present they win entirely over the legacy
/// fields, whatever those hold.
pub proof fn lemma_nested_wins_entirely(
    h: HookSpecificOutput,
    d: Option<HookDecision>,
    r: Option<String>,
)
    ensures
        ({
            let o = HookOutput { hook_specific_output: Some(h), decision: d, reason: r };
            &&& (h.permission_decision is Some ==> spec_effective_decision(o)
                == h.permission_decision.unwrap())
            &&& (h.permission_decision_reason is Some ==> spec_effective_reason(o)
                == h.permission_decision_reason)
        }),
{
}

/// Law: `"approve"` decodes exactly as `"allow"` and `"block"` exactly as
/// `"deny"`.
pub proof fn lemma_decision_aliases()
    ensures
        spec_decision_of("approve"@) == spec_decision_of("allow"@),
        spec_decision_of("allow"@) == Some(HookDecision::Allow),
        spec_decision_of("block"@) == spec_decision_of("deny"@),
        spec_decision_of("deny"@) == Some(HookDecision::Deny),
{
    reveal_strlit("allow");
    reveal_strlit("approve");
    reveal_strlit("deny");
    reveal_strlit("block");
    assert("allow"@.len() == 5);
    assert("approve"@.len() == 7);
    assert("deny"@.len() == 4);
    assert("block"@.len() == 5);
    assert("block"@[0] == 'b' && "allow"@[0] == 'a');
}

/// Law: a response with no decision fields at all resolves to `Allow` with
/// no reason, exactly like an explicit legacy `allow`.
pub proof fn lemma_default_output_allows(o: HookOutput, p: HookOutput)
    requires
        o.hook_specific_output is None,
        o.decision is None,
        o.reason is None,
        p.hook_specific_output is None,
        p.decision == Some(HookDecision::Allow),
        p.reason is None,
    ensures
        spec_effective_decision(o) == HookDecision::Allow,
        spec_effective_decision(o) == spec_effective_decision(p),
        spec_effective_reason(o) is None,
        spec_effective_reason(o) == spec_effective_reason(p),
{
}

} // verus!
