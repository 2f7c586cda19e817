//! Top-level error and retry-policy types for the pipeline domain.
//!
//! [`CogWorksError`] covers conditions that halt or escalate the pipeline
//! itself.  [`RetryPolicy`] is a cross-cutting concern: every error that
//! crosses a component boundary inside the core carries one, and the
//! orchestrator uses it to decide whether to re-invoke an operation without
//! escalating.

use vstd::prelude::*;

use crate::identifiers::ArtifactPath;
use crate::values::{CostBudget, TokenCost};

verus! {

/// Whether an error condition is safe to retry and, if so, after what delay.
///
/// - `Retryable` errors: provider timeouts, transient rate-limit responses.
/// - `NonRetryable` errors: budget exceeded, invalid configuration,
///   injection detected, constitutional rules missing.
#[derive(Debug, Clone, Copy, PartialEq, Eq)]
pub enum RetryPolicy {
    /// The operation may be retried.
    Retryable {
        /// Minimum back-off in milliseconds before the next attempt.
        /// `None` means retry immediately or apply the caller's own
        /// back-off schedule.
        after_ms: Option<u64>,
    },
    /// The operation must not be retried; escalation or pipeline halt is
    /// required.
    NonRetryable,
}

/// The classes of the error taxonomy.
///
/// Every error crossing a component boundary inside the core belongs to
/// exactly one class, and the class alone determines how the run reacts.
#[derive(Debug, Clone, Copy, PartialEq, Eq, Structural)]
pub enum ErrorClass {
    /// Explicit pipeline halt, missing constitutional constraints,
    /// protected-path violation, or scope violation: always non-retryable,
    /// always terminates the run, always requires human attention.
    Halt,
    /// Accumulated cost reached the cap: non-retryable, terminates the run.
    Budget,
    /// Detected injected instruction in external content: non-retryable,
    /// places the work item in a held state pending human review.
    ContentSafety,
    /// Provider or service timeout, rate-limit response: retryable with an
    /// optional minimum back-off, bounded by a maximum attempt count.
    Transient,
    /// Invalid setup detected at load or handshake time: non-retryable,
    /// prevents the run or the affected domain service from starting.
    Configuration,
}

impl ErrorClass {
    /// Only the transient class may ever be retried.
    pub open spec fn spec_retryable(self) -> bool {
        self is Transient
    }

    /// Returns `true` if errors of this class may be retried.
    pub fn is_retryable(self) -> (r: bool)
        ensures
            r == self.spec_retryable(),
    {
        match self {
            ErrorClass::Transient => true,
            _ => false,
        }
    }
}

/// A failure as it crosses a component boundary: its taxonomy class plus the
/// minimum back-off the failing component asked for, if any.
///
/// This is the only cross-component error shape the core requires.
#[derive(Debug, Clone, Copy, PartialEq, Eq)]
pub struct ClassifiedError {
    /// The taxonomy class of the failure.
    pub class: ErrorClass,
    /// Minimum back-off in milliseconds requested by the failing component,
    /// meaningful only for transient failures.
    pub retry_after_ms: Option<u64>,
}

impl ClassifiedError {
    /// The retry policy this failure carries: transient failures are
    /// retryable with their requested back-off, every other class is not.
    pub open spec fn spec_policy(self) -> RetryPolicy {
        if self.class.spec_retryable() {
            RetryPolicy::Retryable { after_ms: self.retry_after_ms }
        } else {
            RetryPolicy::NonRetryable
        }
    }

    /// Interprets this failure as a [`RetryPolicy`].
    pub fn policy(&self) -> (r: RetryPolicy)
        ensures
            r == self.spec_policy(),
    {
        match self.class {
            ErrorClass::Transient => RetryPolicy::Retryable { after_ms: self.retry_after_ms },
            _ => RetryPolicy::NonRetryable,
        }
    }
}

/// Errors that halt or escalate the pipeline itself.
///
/// These are distinct from per-component errors (tracker failure, provider
/// failure) in that they represent conditions the pipeline cannot recover
/// from within its normal retry budget.
#[derive(Debug, Clone, PartialEq)]
pub enum CogWorksError {
    /// The pipeline has been halted by an explicit decision, not a
    /// transient failure.
    PipelineHalt {
        /// Human-readable description of why the pipeline was halted.
        reason: String,
    },
    /// Accumulated token cost reached the configured budget before
    /// completion, reported with the accumulated and limit values.
    BudgetExceeded {
        /// Total cost accumulated at the point of failure.
        accumulated: TokenCost,
        /// Configured budget that was exceeded.
        limit: CostBudget,
    },
    /// External content contains text structured as a directive to the
    /// pipeline.  The work item is placed in a held state; it is not
    /// automatically retried.
    InjectionDetected {
        /// Label identifying the source document.
        source_document: String,
        /// The specific text that triggered detection.
        offending_text: String,
    },
    /// The constitutional rules could not be loaded or validated.  A human
    /// must investigate before re-running.
    ConstitutionalRulesMissing,
    /// The pipeline attempted to write to or modify a protected path.
    ProtectedPathViolation {
        /// The artefact path that triggered the protection check.
        path: ArtifactPath,
    },
    /// The work item is outside the approved capability scope.
    ScopeViolation {
        /// Description of the violated constraint.
        description: String,
    },
    /// The pipeline configuration or runtime configuration is invalid; the
    /// pipeline never starts with an invalid configuration.
    ConfigurationError {
        /// Description of the configuration problem.
        message: String,
    },
}

impl CogWorksError {
    /// The taxonomy class of this error.
    pub open spec fn spec_class(self) -> ErrorClass {
        match self {
            CogWorksError::PipelineHalt { .. } => ErrorClass::Halt,
            CogWorksError::BudgetExceeded { .. } => ErrorClass::Budget,
            CogWorksError::InjectionDetected { .. } => ErrorClass::ContentSafety,
            CogWorksError::ConstitutionalRulesMissing => ErrorClass::Halt,
            CogWorksError::ProtectedPathViolation { .. } => ErrorClass::Halt,
            CogWorksError::ScopeViolation { .. } => ErrorClass::Halt,
            CogWorksError::ConfigurationError { .. } => ErrorClass::Configuration,
        }
    }

    /// Classifies this error within the taxonomy.
    pub fn class(&self) -> (r: ErrorClass)
        ensures
            r == self.spec_class(),
    {
        match self {
            CogWorksError::PipelineHalt { .. } => ErrorClass::Halt,
            CogWorksError::BudgetExceeded { .. } => ErrorClass::Budget,
            CogWorksError::InjectionDetected { .. } => ErrorClass::ContentSafety,
            CogWorksError::ConstitutionalRulesMissing => ErrorClass::Halt,
            CogWorksError::ProtectedPathViolation { .. } => ErrorClass::Halt,
            CogWorksError::ScopeViolation { .. } => ErrorClass::Halt,
            CogWorksError::ConfigurationError { .. } => ErrorClass::Configuration,
        }
    }

    /// The retry policy of a pipeline-level error.  No pipeline-level error
    /// is transient, so the policy is always `NonRetryable`.
    pub fn retry_policy(&self) -> (r: RetryPolicy)
        ensures
            r == RetryPolicy::NonRetryable,
            !self.spec_class().spec_retryable(),
    {
        RetryPolicy::NonRetryable
    }
}

} // verus!
