//! Newtype domain identifiers.
//!
//! Every domain concept that has an identity is represented as a distinct
//! newtype wrapping a primitive.  This prevents accidentally interchanging,
//! for example, a [`WorkItemId`] with a [`PullRequestId`] even though both
//! are `u64` under the hood.  The distinction is a correctness invariant of
//! the domain, not a stylistic choice.

use vstd::prelude::*;

verus! {

/// Identifies an externally tracked issue that represents one unit of work.
///
/// Wraps the positive integer assigned by the issue tracker.
#[derive(Debug, Clone, Copy, PartialEq, Eq, Structural)]
pub struct WorkItemId(u64);

impl WorkItemId {
    /// The underlying integer, as a mathematical integer.
    pub closed spec fn spec_value(self) -> int {
        self.0 as int
    }

    /// Creates a new identifier from a raw integer.
    pub fn new(value: u64) -> (r: Self)
        ensures
            r.spec_value() == value as int,
    {
        WorkItemId(value)
    }

    /// Returns the underlying integer value.
    pub fn as_u64(self) -> (r: u64)
        ensures
            r as int == self.spec_value(),
    {
        self.0
    }
}

/// Identifies an issue created by the planning stage for one implementation
/// sub-task within a larger work item.
#[derive(Debug, Clone, Copy, PartialEq, Eq, Structural)]
pub struct SubWorkItemId(u64);

impl SubWorkItemId {
    /// The underlying integer, as a mathematical integer.
    pub closed spec fn spec_value(self) -> int {
        self.0 as int
    }

    /// Creates a new identifier from a raw integer.
    pub fn new(value: u64) -> (r: Self)
        ensures
            r.spec_value() == value as int,
    {
        SubWorkItemId(value)
    }

    /// Returns the underlying integer value.
    pub fn as_u64(self) -> (r: u64)
        ensures
            r as int == self.spec_value(),
    {
        self.0
    }
}

/// Identifies a milestone associated with a work item.
#[derive(Debug, Clone, Copy, PartialEq, Eq, Structural)]
pub struct MilestoneId(u64);

impl MilestoneId {
    /// The underlying integer, as a mathematical integer.
    pub closed spec fn spec_value(self) -> int {
        self.0 as int
    }

    /// Creates a new identifier from a raw integer.
    pub fn new(value: u64) -> (r: Self)
        ensures
            r.spec_value() == value as int,
    {
        MilestoneId(value)
    }

    /// Returns the underlying integer value.
    pub fn as_u64(self) -> (r: u64)
        ensures
            r as int == self.spec_value(),
    {
        self.0
    }
}

/// Identifies a pull request produced by the integration stage.
#[derive(Debug, Clone, Copy, PartialEq, Eq, Structural)]
pub struct PullRequestId(u64);

impl PullRequestId {
    /// The underlying integer, as a mathematical integer.
    pub closed spec fn spec_value(self) -> int {
        self.0 as int
    }

    /// Creates a new identifier from a raw integer.
    pub fn new(value: u64) -> (r: Self)
        ensures
            r.spec_value() == value as int,
    {
        PullRequestId(value)
    }

    /// Returns the underlying integer value.
    pub fn as_u64(self) -> (r: u64)
        ensures
            r as int == self.spec_value(),
    {
        self.0
    }
}

/// Identifies a pipeline node by its configured name within a pipeline graph.
#[derive(Debug, PartialEq, Eq, Hash)]
pub struct NodeId(String);

impl Clone for NodeId {
    fn clone(&self) -> (r: Self)
        ensures
            r == *self,
    {
        NodeId(self.0.clone())
    }
}

impl View for NodeId {
    type V = Seq<char>;

    closed spec fn view(&self) -> Seq<char> {
        self.0@
    }
}

impl NodeId {
    /// Creates a new identifier, returning `None` if the value is empty.
    pub fn new(value: String) -> (r: Option<Self>)
        ensures
            value@.len() == 0 ==> r is None,
            value@.len() > 0 ==> (r matches Some(id) && id@ == value@),
    {
        if value.as_str().unicode_len() == 0 {
            None
        } else {
            Some(NodeId(value))
        }
    }

    /// Returns the identifier as a string slice.
    pub fn as_str(&self) -> (r: &str)
        ensures
            r@ == self@,
    {
        self.0.as_str()
    }
}

/// Identifies an edge between two nodes within a pipeline graph.
#[derive(Debug, Clone, PartialEq, Eq, Hash)]
pub struct EdgeId(String);

impl View for EdgeId {
    type V = Seq<char>;

    closed spec fn view(&self) -> Seq<char> {
        self.0@
    }
}

impl EdgeId {
    /// Creates a new identifier, returning `None` if the value is empty.
    pub fn new(value: String) -> (r: Option<Self>)
        ensures
            value@.len() == 0 ==> r is None,
            value@.len() > 0 ==> (r matches Some(id) && id@ == value@),
    {
        if value.as_str().unicode_len() == 0 {
            None
        } else {
            Some(EdgeId(value))
        }
    }

    /// Returns the identifier as a string slice.
    pub fn as_str(&self) -> (r: &str)
        ensures
            r@ == self@,
    {
        self.0.as_str()
    }
}

/// Identifies a named pipeline configuration.
#[derive(Debug, PartialEq, Eq, Hash)]
pub struct PipelineName(String);

impl Clone for PipelineName {
    fn clone(&self) -> (r: Self)
        ensures
            r == *self,
    {
        PipelineName(self.0.clone())
    }
}

impl View for PipelineName {
    type V = Seq<char>;

    closed spec fn view(&self) -> Seq<char> {
        self.0@
    }
}

impl PipelineName {
    /// Creates a new identifier, returning `None` if the value is empty.
    pub fn new(value: String) -> (r: Option<Self>)
        ensures
            value@.len() == 0 ==> r is None,
            value@.len() > 0 ==> (r matches Some(id) && id@ == value@),
    {
        if value.as_str().unicode_len() == 0 {
            None
        } else {
            Some(PipelineName(value))
        }
    }

    /// Returns the identifier as a string slice.
    pub fn as_str(&self) -> (r: &str)
        ensures
            r@ == self@,
    {
        self.0.as_str()
    }
}

/// A source-control branch name.
#[derive(Debug, Clone, PartialEq, Eq, Hash)]
pub struct BranchName(String);

impl View for BranchName {
    type V = Seq<char>;

    closed spec fn view(&self) -> Seq<char> {
        self.0@
    }
}

impl BranchName {
    /// Creates a new identifier, returning `None` if the value is empty.
    pub fn new(value: String) -> (r: Option<Self>)
        ensures
            value@.len() == 0 ==> r is None,
            value@.len() > 0 ==> (r matches Some(id) && id@ == value@),
    {
        if value.as_str().unicode_len() == 0 {
            None
        } else {
            Some(BranchName(value))
        }
    }

    /// Returns the identifier as a string slice.
    pub fn as_str(&self) -> (r: &str)
        ensures
            r@ == self@,
    {
        self.0.as_str()
    }
}

/// A source-control commit digest, as its lowercase hexadecimal text.
#[derive(Debug, Clone, PartialEq, Eq, Hash)]
pub struct CommitSha(String);

impl View for CommitSha {
    type V = Seq<char>;

    closed spec fn view(&self) -> Seq<char> {
        self.0@
    }
}

impl CommitSha {
    /// Creates a new identifier, returning `None` if the value is empty.
    pub fn new(value: String) -> (r: Option<Self>)
        ensures
            value@.len() == 0 ==> r is None,
            value@.len() > 0 ==> (r matches Some(id) && id@ == value@),
    {
        if value.as_str().unicode_len() == 0 {
            None
        } else {
            Some(CommitSha(value))
        }
    }

    /// Returns the identifier as a string slice.
    pub fn as_str(&self) -> (r: &str)
        ensures
            r@ == self@,
    {
        self.0.as_str()
    }
}

/// Identifies a repository in `"owner/repo"` format.
#[derive(Debug, Clone, PartialEq, Eq, Hash)]
pub struct RepositoryId(String);

impl View for RepositoryId {
    type V = Seq<char>;

    closed spec fn view(&self) -> Seq<char> {
        self.0@
    }
}

impl RepositoryId {
    /// Creates a new identifier, returning `None` if the value is empty.
    pub fn new(value: String) -> (r: Option<Self>)
        ensures
            value@.len() == 0 ==> r is None,
            value@.len() > 0 ==> (r matches Some(id) && id@ == value@),
    {
        if value.as_str().unicode_len() == 0 {
            None
        } else {
            Some(RepositoryId(value))
        }
    }

    /// Returns the identifier as a string slice.
    pub fn as_str(&self) -> (r: &str)
        ensures
            r@ == self@,
    {
        self.0.as_str()
    }
}

/// Identifies a domain service as declared in the service registry.
///
/// Capabilities are discovered dynamically via the handshake; the name is
/// the human-readable configuration key used for routing decisions.
#[derive(Debug, Clone, PartialEq, Eq, Hash)]
pub struct DomainServiceName(String);

impl View for DomainServiceName {
    type V = Seq<char>;

    closed spec fn view(&self) -> Seq<char> {
        self.0@
    }
}

impl DomainServiceName {
    /// Creates a new identifier, returning `None` if the value is empty.
    pub fn new(value: String) -> (r: Option<Self>)
        ensures
            value@.len() == 0 ==> r is None,
            value@.len() > 0 ==> (r matches Some(id) && id@ == value@),
    {
        if value.as_str().unicode_len() == 0 {
            None
        } else {
            Some(DomainServiceName(value))
        }
    }

    /// Returns the identifier as a string slice.
    pub fn as_str(&self) -> (r: &str)
        ensures
            r@ == self@,
    {
        self.0.as_str()
    }
}

/// A file-system path relative to the repository root.
///
/// Used to identify artefacts produced or consumed by pipeline nodes.
#[derive(Debug, Clone, PartialEq, Eq, Hash)]
pub struct ArtifactPath(String);

impl View for ArtifactPath {
    type V = Seq<char>;

    closed spec fn view(&self) -> Seq<char> {
        self.0@
    }
}

impl ArtifactPath {
    /// Creates a new identifier, returning `None` if the value is empty.
    pub fn new(value: String) -> (r: Option<Self>)
        ensures
            value@.len() == 0 ==> r is None,
            value@.len() > 0 ==> (r matches Some(id) && id@ == value@),
    {
        if value.as_str().unicode_len() == 0 {
            None
        } else {
            Some(ArtifactPath(value))
        }
    }

    /// Returns the identifier as a string slice.
    pub fn as_str(&self) -> (r: &str)
        ensures
            r@ == self@,
    {
        self.0.as_str()
    }
}

/// Identifies an interface contract in the human-maintained registry.
#[derive(Debug, Clone, PartialEq, Eq, Hash)]
pub struct InterfaceId(String);

impl View for InterfaceId {
    type V = Seq<char>;

    closed spec fn view(&self) -> Seq<char> {
        self.0@
    }
}

impl InterfaceId {
    /// Creates a new identifier, returning `None` if the value is empty.
    pub fn new(value: String) -> (r: Option<Self>)
        ensures
            value@.len() == 0 ==> r is None,
            value@.len() > 0 ==> (r matches Some(id) && id@ == value@),
    {
        if value.as_str().unicode_len() == 0 {
            None
        } else {
            Some(InterfaceId(value))
        }
    }

    /// Returns the identifier as a string slice.
    pub fn as_str(&self) -> (r: &str)
        ensures
            r@ == self@,
    {
        self.0.as_str()
    }
}

/// Identifies a context pack by its directory name.
#[derive(Debug, Clone, PartialEq, Eq, Hash)]
pub struct ContextPackId(String);

impl View for ContextPackId {
    type V = Seq<char>;

    closed spec fn view(&self) -> Seq<char> {
        self.0@
    }
}

impl ContextPackId {
    /// Creates a new identifier, returning `None` if the value is empty.
    pub fn new(value: String) -> (r: Option<Self>)
        ensures
            value@.len() == 0 ==> r is None,
            value@.len() > 0 ==> (r matches Some(id) && id@ == value@),
    {
        if value.as_str().unicode_len() == 0 {
            None
        } else {
            Some(ContextPackId(value))
        }
    }

    /// Returns the identifier as a string slice.
    pub fn as_str(&self) -> (r: &str)
        ensures
            r@ == self@,
    {
        self.0.as_str()
    }
}

/// Identifies a skill: a deterministic, reusable sequence of tool calls.
#[derive(Debug, Clone, PartialEq, Eq, Hash)]
pub struct SkillName(String);

impl View for SkillName {
    type V = Seq<char>;

    closed spec fn view(&self) -> Seq<char> {
        self.0@
    }
}

impl SkillName {
    /// Creates a new identifier, returning `None` if the value is empty.
    pub fn new(value: String) -> (r: Option<Self>)
        ensures
            value@.len() == 0 ==> r is None,
            value@.len() > 0 ==> (r matches Some(id) && id@ == value@),
    {
        if value.as_str().unicode_len() == 0 {
            None
        } else {
            Some(SkillName(value))
        }
    }

    /// Returns the identifier as a string slice.
    pub fn as_str(&self) -> (r: &str)
        ensures
            r@ == self@,
    {
        self.0.as_str()
    }
}

/// Identifies a tool exposed to language-model nodes.
#[derive(Debug, Clone, PartialEq, Eq, Hash)]
pub struct ToolName(String);

impl View for ToolName {
    type V = Seq<char>;

    closed spec fn view(&self) -> Seq<char> {
        self.0@
    }
}

impl ToolName {
    /// Creates a new identifier, returning `None` if the value is empty.
    pub fn new(value: String) -> (r: Option<Self>)
        ensures
            value@.len() == 0 ==> r is None,
            value@.len() > 0 ==> (r matches Some(id) && id@ == value@),
    {
        if value.as_str().unicode_len() == 0 {
            None
        } else {
            Some(ToolName(value))
        }
    }

    /// Returns the identifier as a string slice.
    pub fn as_str(&self) -> (r: &str)
        ensures
            r@ == self@,
    {
        self.0.as_str()
    }
}

/// Identifies a tool profile that controls which tools a node may use.
#[derive(Debug, Clone, PartialEq, Eq, Hash)]
pub struct ProfileName(String);

impl View for ProfileName {
    type V = Seq<char>;

    closed spec fn view(&self) -> Seq<char> {
        self.0@
    }
}

impl ProfileName {
    /// Creates a new identifier, returning `None` if the value is empty.
    pub fn new(value: String) -> (r: Option<Self>)
        ensures
            value@.len() == 0 ==> r is None,
            value@.len() > 0 ==> (r matches Some(id) && id@ == value@),
    {
        if value.as_str().unicode_len() == 0 {
            None
        } else {
            Some(ProfileName(value))
        }
    }

    /// Returns the identifier as a string slice.
    pub fn as_str(&self) -> (r: &str)
        ensures
            r@ == self@,
    {
        self.0.as_str()
    }
}

/// Declares `uuid::Uuid` so run identifiers can hold one; the value is
/// opaque here and only carried through.
#[verifier::external_type_specification]
#[verifier::external_body]
pub struct ExUuid(uuid::Uuid);

/// Identifies a single pipeline execution run (one invocation of the step
/// function).
///
/// Generated fresh for every invocation and propagated through audit events
/// so all activity from a single run can be correlated.
#[derive(Debug, Clone, Copy, PartialEq, Eq)]
pub struct PipelineRunId {
    id: uuid::Uuid,
}

impl PipelineRunId {
    /// The wrapped identifier value.
    pub closed spec fn spec_uuid(self) -> uuid::Uuid {
        self.id
    }

    /// Generates a new random run identifier.
    ///
    /// Relies on `uuid::Uuid::new_v4`; the result is random, so nothing is
    /// promised of its value.
    #[verifier::external_body]
    pub fn new_random() -> Self {
        PipelineRunId { id: uuid::Uuid::new_v4() }
    }

    /// Creates a `PipelineRunId` from an existing identifier value, e.g. one
    /// read back from persisted state.
    pub fn from_uuid(id: uuid::Uuid) -> (r: Self)
        ensures
            r.spec_uuid() == id,
    {
        PipelineRunId { id }
    }

    /// Returns the underlying identifier value.
    pub fn as_uuid(self) -> (r: uuid::Uuid)
        ensures
            r == self.spec_uuid(),
    {
        self.id
    }
}

} // verus!
