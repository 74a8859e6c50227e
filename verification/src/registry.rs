//! The tool registry and the dispatch controller's decision logic: handler
//! lookup with later registrations shadowing earlier ones, payload-kind
//! compatibility, the pre-execution rejection paths with their telemetry,
//! the hook-facing view of a payload, and the audit event emitted after
//! every execution or block.

use vstd::prelude::*;

use crate::strutil::str_eq;

verus! {

/// Which payload shapes a handler accepts.
#[derive(Clone, Copy, Debug, PartialEq, Eq, Hash, Structural)]
pub enum ToolKind {
    Function,
    Mcp,
}

/// The structured fields of a local-shell call.
#[derive(Debug, Clone)]
pub struct LocalShellParams {
    pub command: Vec<String>,
    pub workdir: Option<String>,
    pub timeout_ms: Option<u64>,
    pub justification: Option<String>,
}

/// The concrete call shape one tool invocation carries.
#[derive(Debug, Clone)]
pub enum ToolPayload {
    Function { arguments: String },
    Custom { input: String },
    LocalShell { params: LocalShellParams },
    Mcp { server: String, tool: String, raw_arguments: String },
}

/// One request to execute one tool.
#[derive(Debug, Clone)]
pub struct ToolInvocation {
    pub tool_name: String,
    pub call_id: String,
    pub payload: ToolPayload,
}

/// Whether a handler of the given kind accepts the given payload shape.
pub open spec fn spec_kind_matches(kind: ToolKind, payload: ToolPayload) -> bool {
    ||| (kind is Function && payload is Function)
    ||| (kind is Mcp && payload is Mcp)
}

/// A tool handler as the dispatch controller sees it: its kind, which
/// payloads it accepts, and whether an invocation might mutate the
/// environment. Performing the invocation itself is outside work that the
/// surrounding runtime supplies.
pub trait ToolHandler {
    /// The kind this handler accepts.
    spec fn spec_kind(&self) -> ToolKind;

    /// The kind this handler accepts.
    fn kind(&self) -> (k: ToolKind)
        ensures
            k == self.spec_kind(),
    ;

    /// Whether this handler accepts the invocation's payload shape.
    fn matches_kind(&self, payload: &ToolPayload) -> (r: bool)
        ensures
            r == spec_kind_matches(self.spec_kind(), *payload),
    {
        let k = self.kind();
        match k {
            ToolKind::Function => matches!(payload, ToolPayload::Function { .. }),
            ToolKind::Mcp => matches!(payload, ToolPayload::Mcp { .. }),
        }
    }

    /// Whether the invocation might mutate the environment. Handlers should
    /// stay defensive and answer `true` in doubt; the default answers
    /// `false`.
    fn is_mutating(&self, _invocation: &ToolInvocation) -> bool {
        false
    }
}

/// The handler the given name resolves to, with later entries taking
/// priority over earlier ones.
pub open spec fn latest_handler<H>(entries: Seq<(String, H)>, name: Seq<char>) -> Option<H>
    decreases entries.len(),
{
    if entries.len() == 0 {
        None
    } else if entries.last().0@ == name {
        Some(entries.last().1)
    } else {
        latest_handler(entries.drop_last(), name)
    }
}

/// The handler under the first entry with the given name.
pub open spec fn first_handler<H>(entries: Seq<(String, H)>, name: Seq<char>) -> Option<H>
    decreases entries.len(),
{
    if entries.len() == 0 {
        None
    } else if entries[0].0@ == name {
        Some(entries[0].1)
    } else {
        first_handler(entries.drop_first(), name)
    }
}

proof fn lemma_first_handler_skip<H>(entries: Seq<(String, H)>, name: Seq<char>, i: int)
    requires
        0 <= i <= entries.len(),
        forall|j: int| 0 <= j < i ==> entries[j].0@ != name,
    ensures
        first_handler(entries, name) == first_handler(entries.skip(i), name),
    decreases i,
{
    if i > 0 {
        assert(entries.drop_first() =~= entries.skip(1));
        lemma_first_handler_skip(entries.drop_first(), name, i - 1);
        assert(entries.drop_first().skip(i - 1) =~= entries.skip(i));
    } else {
        assert(entries.skip(0) =~= entries);
    }
}

/// An immutable mapping from tool name to handler, built once and queried
/// per invocation.
pub struct ToolRegistry<H> {
    entries: Vec<(String, H)>,
}

impl<H> ToolRegistry<H> {
    /// The handler each name resolves to.
    pub closed spec fn spec_lookup(&self, name: Seq<char>) -> Option<H> {
        first_handler(self.entries@, name)
    }

    /// Build a registry from registrations in order: registering a name
    /// already present replaces the earlier handler.
    pub fn new(handlers: Vec<(String, H)>) -> (r: Self)
        ensures
            forall|name: Seq<char>| r.spec_lookup(name) == latest_handler(handlers@, name),
    {
        let ghost all = handlers@;
        let mut hs = handlers;
        let mut entries: Vec<(String, H)> = Vec::new();
        proof {
            assert(all.take(0) =~= Seq::<(String, H)>::empty());
            assert(all.skip(0) =~= all);
        }
        while hs.len() > 0
            invariant
                hs@.len() <= all.len(),
                hs@ == all.skip(all.len() - hs@.len()),
                forall|name: Seq<char>| #![auto] first_handler(entries@, name) == latest_handler(
                    all.take(all.len() - hs@.len()),
                    name,
                ),
            decreases hs.len(),
        {
            let ghost k = all.len() - hs@.len();
            let x = hs.remove(0);
            proof {
                assert(all.skip(k)[0] == all[k]);
                assert(x == all[k]);
                assert(hs@ =~= all.skip(k + 1));
            }
            let ghost old_entries = entries@;
            entries.insert(0, x);
            proof {
                assert(entries@[0] == x);
                assert(entries@.drop_first() =~= old_entries);
                assert(all.take(k + 1).last() == all[k]);
                assert(all.take(k + 1).drop_last() =~= all.take(k));
                assert forall|name: Seq<char>| #![auto] first_handler(entries@, name)
                    == latest_handler(all.take(k + 1), name) by {
                    assert(first_handler(entries@, name) == (if x.0@ == name {
                        Some(x.1)
                    } else {
                        first_handler(old_entries, name)
                    }));
                    assert(latest_handler(all.take(k + 1), name) == (if all[k].0@ == name {
                        Some(all[k].1)
                    } else {
                        latest_handler(all.take(k), name)
                    }));
                }
            }
        }
        proof {
            assert(all.take(all.len() as int) =~= all);
        }
        ToolRegistry { entries }
    }

    /// Look a tool name up; the returned borrow shares the handler, it does
    /// not copy it.
    pub fn handler<'a>(&'a self, name: &str) -> (r: Option<&'a H>)
        ensures
            match r {
                Some(h) => self.spec_lookup(name@) == Some(*h),
                None => self.spec_lookup(name@) is None,
            },
    {
        let mut i: usize = 0;
        while i < self.entries.len()
            invariant
                i <= self.entries@.len(),
                forall|j: int| 0 <= j < i ==> self.entries@[j].0@ != name@,
            decreases self.entries@.len() - i,
        {
            if str_eq(self.entries[i].0.as_str(), name) {
                proof {
                    lemma_first_handler_skip(self.entries@, name@, i as int);
                    assert(self.entries@.skip(i as int)[0] == self.entries@[i as int]);
                }
                return Some(&self.entries[i].1);
            }
            i = i + 1;
        }
        proof {
            lemma_first_handler_skip(self.entries@, name@, i as int);
            assert(self.entries@.skip(i as int) =~= Seq::<(String, H)>::empty());
        }
        None
    }
}

/// A tool specification to advertise.
#[derive(Debug, Clone)]
pub struct ToolSpec {
    pub name: String,
    pub description: String,
}

/// A tool specification together with whether the tool supports parallel
/// calls.
#[derive(Debug, Clone)]
pub struct ConfiguredToolSpec {
    pub spec: ToolSpec,
    pub supports_parallel_tool_calls: bool,
}

impl ConfiguredToolSpec {
    pub fn new(spec: ToolSpec, supports_parallel_tool_calls: bool) -> (r: Self)
        ensures
            r.spec == spec,
            r.supports_parallel_tool_calls == supports_parallel_tool_calls,
    {
        ConfiguredToolSpec { spec, supports_parallel_tool_calls }
    }
}

/// Accumulates handler registrations and advertised tool specifications,
/// then produces the immutable registry.
pub struct ToolRegistryBuilder<H> {
    handlers: Vec<(String, H)>,
    specs: Vec<ConfiguredToolSpec>,
}

impl<H> ToolRegistryBuilder<H> {
    /// The registrations so far, in order.
    pub closed spec fn handlers_model(&self) -> Seq<(String, H)> {
        self.handlers@
    }

    /// The advertised specifications so far, in order.
    pub closed spec fn specs_model(&self) -> Seq<ConfiguredToolSpec> {
        self.specs@
    }

    pub fn new() -> (r: Self)
        ensures
            r.handlers_model() == Seq::<(String, H)>::empty(),
            r.specs_model() == Seq::<ConfiguredToolSpec>::empty(),
    {
        ToolRegistryBuilder { handlers: Vec::new(), specs: Vec::new() }
    }

    /// Advertise a specification for a tool that does not support parallel
    /// calls.
    pub fn push_spec(&mut self, spec: ToolSpec)
        ensures
            final(self).handlers_model() == old(self).handlers_model(),
            final(self).specs_model() == old(self).specs_model().push(
                ConfiguredToolSpec { spec, supports_parallel_tool_calls: false },
            ),
    {
        self.push_spec_with_parallel_support(spec, false);
    }

    /// Advertise a specification for a tool.
    pub fn push_spec_with_parallel_support(
        &mut self,
        spec: ToolSpec,
        supports_parallel_tool_calls: bool,
    )
        ensures
            final(self).handlers_model() == old(self).handlers_model(),
            final(self).specs_model() == old(self).specs_model().push(
                ConfiguredToolSpec { spec, supports_parallel_tool_calls },
            ),
    {
        self.specs.push(ConfiguredToolSpec::new(spec, supports_parallel_tool_calls));
    }

    /// Register a handler under a name. Registering a name already present
    /// replaces the earlier handler when the registry is built; that is
    /// intentionally non-fatal, so later configuration layers can override
    /// earlier ones.
    pub fn register_handler(&mut self, name: String, handler: H)
        ensures
            final(self).handlers_model() == old(self).handlers_model().push((name, handler)),
            final(self).specs_model() == old(self).specs_model(),
    {
        self.handlers.push((name, handler));
    }

    /// Produce the advertised specifications and the immutable registry.
    pub fn build(self) -> (r: (Vec<ConfiguredToolSpec>, ToolRegistry<H>))
        ensures
            r.0@ == self.specs_model(),
            forall|name: Seq<char>| r.1.spec_lookup(name) == latest_handler(
                self.handlers_model(),
                name,
            ),
    {
        let registry = ToolRegistry::new(self.handlers);
        (self.specs, registry)
    }
}

} // verus!
