//! The library's model of a policy artifact's metadata: an order-preserving
//! annotation map, the rule set, the context-aware resource set, and the
//! execution-mode and policy-type enumerations with their display strings.

use vstd::prelude::*;
use vstd::string::StrSliceExecFns;

use crate::text;

verus! {

/// Well-known annotation key carrying the policy title.
pub const ANNOTATION_TITLE: &'static str = "io.kubewarden.policy.title";

/// Well-known annotation key carrying the policy description.
pub const ANNOTATION_DESCRIPTION: &'static str = "io.kubewarden.policy.description";

/// Well-known annotation key carrying the author.
pub const ANNOTATION_AUTHOR: &'static str = "io.kubewarden.policy.author";

/// Well-known annotation key carrying the documentation home URL.
pub const ANNOTATION_URL: &'static str = "io.kubewarden.policy.url";

/// Well-known annotation key carrying the source repository URL.
pub const ANNOTATION_SOURCE: &'static str = "io.kubewarden.policy.source";

/// Well-known annotation key carrying the license.
pub const ANNOTATION_LICENSE: &'static str = "io.kubewarden.policy.license";

/// Well-known annotation key carrying the long-form usage documentation.
pub const ANNOTATION_USAGE: &'static str = "io.kubewarden.policy.usage";

/// Well-known annotation key carrying the registry URL of the artifact.
pub const ANNOTATION_OCI_URL: &'static str = "io.kubewarden.policy.ociUrl";

/// Well-known annotation key carrying the comma-separated keyword list.
pub const ANNOTATION_KEYWORDS: &'static str = "io.kubewarden.policy.keywords";

/// The namespace prefix shared by the well-known annotation keys.
pub const ANNOTATION_PREFIX: &'static str = "io.kubewarden.policy.";

/// An order-preserving string-keyed map of annotations.
///
/// Lookup returns the first binding of a key; the adapters around the
/// library only ever build maps with distinct keys, as the artifact
/// format guarantees.
#[derive(Clone, Debug, PartialEq, Eq)]
pub struct Annotations {
    pub entries: Vec<(String, String)>,
}

impl View for Annotations {
    type V = Seq<(Seq<char>, Seq<char>)>;

    open spec fn view(&self) -> Seq<(Seq<char>, Seq<char>)> {
        self.entries.deep_view()
    }
}

impl DeepView for Annotations {
    type V = Seq<(Seq<char>, Seq<char>)>;

    open spec fn deep_view(&self) -> Seq<(Seq<char>, Seq<char>)> {
        self.view()
    }
}

/// The value of the first binding of `k`, if any.
pub open spec fn spec_get(a: Seq<(Seq<char>, Seq<char>)>, k: Seq<char>) -> Option<Seq<char>>
    decreases a.len(),
{
    if a.len() == 0 {
        None
    } else if a[0].0 == k {
        Some(a[0].1)
    } else {
        spec_get(a.drop_first(), k)
    }
}

impl Annotations {
    /// An empty annotation map.
    pub fn new() -> (a: Annotations)
        ensures
            a@ == Seq::<(Seq<char>, Seq<char>)>::empty(),
    {
        let a = Annotations { entries: Vec::new() };
        proof {
            assert(a@ =~= Seq::<(Seq<char>, Seq<char>)>::empty());
        }
        a
    }

    /// Wraps a list of bindings, kept in the given order.
    pub fn from_entries(entries: Vec<(String, String)>) -> (a: Annotations)
        ensures
            a@ == entries.deep_view(),
    {
        Annotations { entries }
    }

    /// Looks a key up; returns the value of its first binding.
    pub fn get(&self, key: &str) -> (r: Option<&String>)
        ensures
            match r {
                Some(v) => spec_get(self@, key@) == Some(v@),
                None => spec_get(self@, key@) is None,
            },
    {
        let n = self.entries.len();
        let mut i: usize = 0;
        proof {
            assert(self@.skip(0) =~= self@);
        }
        while i < n
            invariant
                n == self.entries.len(),
                i <= n,
                spec_get(self@, key@) == spec_get(self@.skip(i as int), key@),
            decreases n - i,
        {
            proof {
                assert(self@.skip(i as int)[0] == self@[i as int]);
                assert(self@.skip(i as int).drop_first() =~= self@.skip(i as int + 1));
            }
            if text::str_eq(self.entries[i].0.as_str(), key) {
                return Some(&self.entries[i].1);
            }
            i += 1;
        }
        proof {
            assert(self@.skip(n as int) =~= Seq::<(Seq<char>, Seq<char>)>::empty());
        }
        None
    }
}

/// How the policy is executed by its host.
#[derive(Clone, Copy, Debug, PartialEq, Eq, Structural)]
pub enum ExecutionMode {
    KubewardenWapc,
    Opa,
    Gatekeeper,
}

/// The display string of an execution mode.
pub open spec fn spec_mode_str(m: ExecutionMode) -> Seq<char> {
    match m {
        ExecutionMode::KubewardenWapc => "kubewarden-wapc"@,
        ExecutionMode::Opa => "opa"@,
        ExecutionMode::Gatekeeper => "gatekeeper"@,
    }
}

impl ExecutionMode {
    /// The display string of the mode.
    pub fn as_str(&self) -> (r: &'static str)
        ensures
            r@ == spec_mode_str(*self),
    {
        match self {
            ExecutionMode::KubewardenWapc => "kubewarden-wapc",
            ExecutionMode::Opa => "opa",
            ExecutionMode::Gatekeeper => "gatekeeper",
        }
    }

    /// Whether this mode makes the protocol version meaningful; absence of
    /// the protocol version under such a mode is an error.
    pub open spec fn spec_requires_protocol(self) -> bool {
        self is KubewardenWapc
    }

    /// Executable form of `spec_requires_protocol`.
    pub fn requires_protocol(&self) -> (r: bool)
        ensures
            r == self.spec_requires_protocol(),
    {
        match self {
            ExecutionMode::KubewardenWapc => true,
            _ => false,
        }
    }
}

/// The kind of policy held in the artifact.
#[derive(Clone, Copy, Debug, PartialEq, Eq, Structural)]
pub enum PolicyType {
    Kubernetes,
    Raw,
}

/// The display string of a policy type.
pub open spec fn spec_policy_type_str(t: PolicyType) -> Seq<char> {
    match t {
        PolicyType::Kubernetes => "kubernetes"@,
        PolicyType::Raw => "raw"@,
    }
}

impl PolicyType {
    /// The display string of the type.
    pub fn as_str(&self) -> (r: &'static str)
        ensures
            r@ == spec_policy_type_str(*self),
    {
        match self {
            PolicyType::Kubernetes => "kubernetes",
            PolicyType::Raw => "raw",
        }
    }
}

/// One admission rule of the policy: which groups, versions, resources and
/// operations it matches.
#[derive(Clone, Debug, PartialEq, Eq)]
pub struct Rule {
    pub api_groups: Vec<String>,
    pub api_versions: Vec<String>,
    pub resources: Vec<String>,
    pub operations: Vec<String>,
}

/// The mathematical value of a rule.
pub struct RuleView {
    pub api_groups: Seq<Seq<char>>,
    pub api_versions: Seq<Seq<char>>,
    pub resources: Seq<Seq<char>>,
    pub operations: Seq<Seq<char>>,
}

impl DeepView for Rule {
    type V = RuleView;

    open spec fn deep_view(&self) -> RuleView {
        RuleView {
            api_groups: self.api_groups.deep_view(),
            api_versions: self.api_versions.deep_view(),
            resources: self.resources.deep_view(),
            operations: self.operations.deep_view(),
        }
    }
}

/// One Kubernetes resource the policy reads at evaluation time.
#[derive(Clone, Debug, PartialEq, Eq)]
pub struct ContextAwareResource {
    pub api_version: String,
    pub kind: String,
}

/// The mathematical value of a context-aware resource descriptor.
pub struct ContextAwareResourceView {
    pub api_version: Seq<char>,
    pub kind: Seq<char>,
}

impl DeepView for ContextAwareResource {
    type V = ContextAwareResourceView;

    open spec fn deep_view(&self) -> ContextAwareResourceView {
        ContextAwareResourceView {
            api_version: self.api_version.deep_view(),
            kind: self.kind.deep_view(),
        }
    }
}

/// The metadata embedded in a policy artifact, as the library reads it.
/// The surrounding adapters parse the artifact and hand this in.
#[derive(Clone, Debug, PartialEq, Eq)]
pub struct PolicyMetadata {
    pub protocol_version: Option<String>,
    pub rules: Vec<Rule>,
    pub annotations: Option<Annotations>,
    pub mutating: bool,
    pub background_audit: bool,
    pub context_aware_resources: Vec<ContextAwareResource>,
    pub execution_mode: ExecutionMode,
    pub policy_type: PolicyType,
    pub minimum_kubewarden_version: Option<String>,
}

/// The annotation bindings of the metadata, an empty sequence when absent.
pub open spec fn spec_annotations(m: PolicyMetadata) -> Seq<(Seq<char>, Seq<char>)> {
    match m.annotations {
        Some(a) => a@,
        None => Seq::empty(),
    }
}

} // verus!
