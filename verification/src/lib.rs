//! Core orchestration domain for an automation pipeline.
//!
//! The crate drives a fixed graph of processing stages ("nodes") for one
//! work item per run, while enforcing a monetary spend ceiling, a
//! retry/halt policy, and human-approval checkpoints.  Events from the
//! outside world are normalized into one ordered, deduplicated stream per
//! work item before they reach the executor, and domain services are
//! reached through a negotiated, framed, backed-off client.
//!
//! Module layout:
//!
//! - [`identifiers`] — newtype domain identifiers
//! - [`values`] — shared value types with invariants
//! - [`errors`] — the error taxonomy and retry policies
//! - [`cost`] — the per-run cost ledger and retry schedule
//! - [`service`] — domain-service handshake, framing and back-off
//! - [`ingest`] — ordered, deduplicated event admission
//! - [`executor`] — the graph executor and its durable snapshots
//! - [`workitem`] — work items and their single current run

pub mod cost;
pub mod errors;
pub mod executor;
pub mod identifiers;
pub mod ingest;
pub mod service;
pub mod values;
pub mod workitem;

pub use errors::{CogWorksError, RetryPolicy};
pub use identifiers::{
    ArtifactPath, BranchName, CommitSha, ContextPackId, DomainServiceName, EdgeId, InterfaceId,
    MilestoneId, NodeId, PipelineName, PipelineRunId, ProfileName, PullRequestId, RepositoryId,
    SkillName, SubWorkItemId, ToolName, WorkItemId,
};
pub use values::{
    AlignmentScore, ApiVersion, CostBudget, Diagnostic, DiagnosticCategory, DiagnosticSeverity,
    SatisfactionScore, Timestamp, TokenCost, TokenCount,
};
