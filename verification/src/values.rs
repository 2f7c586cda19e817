//! Shared value types for the pipeline domain.
//!
//! Unlike the newtype identifiers, these types carry meaningful values with
//! invariants (scores lie in a closed unit range, budgets are strictly
//! positive) and participate in domain computations.  Monetary amounts are
//! held in integral micro-dollars so that cost accounting is exact.

use vstd::prelude::*;

use crate::identifiers::ArtifactPath;

verus! {

/// Number of tokens consumed or budgeted in a language-model call.
#[derive(Debug, Clone, Copy, PartialEq, Eq, Structural)]
pub struct TokenCount(u64);

impl TokenCount {
    /// The underlying count, as a mathematical integer.
    pub closed spec fn spec_count(self) -> int {
        self.0 as int
    }

    /// Creates a `TokenCount` from a raw integer.
    pub fn new(count: u64) -> (r: Self)
        ensures
            r.spec_count() == count as int,
    {
        TokenCount(count)
    }

    /// Returns the underlying integer value.
    pub fn as_u64(self) -> (r: u64)
        ensures
            r as int == self.spec_count(),
    {
        self.0
    }

    /// Returns `true` if this count is zero.
    pub fn is_zero(self) -> (r: bool)
        ensures
            r == (self.spec_count() == 0),
    {
        self.0 == 0
    }

    /// Adds two counts; the sum must fit the representation.
    pub fn add(self, rhs: Self) -> (r: Self)
        requires
            self.spec_count() + rhs.spec_count() <= u64::MAX as int,
        ensures
            r.spec_count() == self.spec_count() + rhs.spec_count(),
    {
        TokenCount(self.0 + rhs.0)
    }

    /// Adds two counts, saturating at the largest representable count.
    pub fn saturating_add(self, rhs: Self) -> (r: Self)
        ensures
            r.spec_count() == if self.spec_count() + rhs.spec_count() <= u64::MAX as int {
                self.spec_count() + rhs.spec_count()
            } else {
                u64::MAX as int
            },
    {
        match self.0.checked_add(rhs.0) {
            Some(total) => TokenCount(total),
            None => TokenCount(u64::MAX),
        }
    }
}

/// Monetary cost of token usage, in integral micro-dollars (one millionth of
/// a US dollar).  Exact accounting over parallel branches needs an integral
/// representation; display formatting is a caller concern.
#[derive(Debug, Clone, Copy, PartialEq, Eq, Structural)]
pub struct TokenCost(u64);

impl TokenCost {
    /// The amount in micro-dollars, as a mathematical integer.
    pub closed spec fn spec_micros(self) -> int {
        self.0 as int
    }

    /// Creates a `TokenCost` from an amount in micro-dollars.
    pub fn new(micros: u64) -> (r: Self)
        ensures
            r.spec_micros() == micros as int,
    {
        TokenCost(micros)
    }

    /// Creates a `TokenCost` of exactly zero.
    pub fn zero() -> (r: Self)
        ensures
            r.spec_micros() == 0,
    {
        TokenCost(0)
    }

    /// Returns the amount in micro-dollars.
    pub fn as_micros(self) -> (r: u64)
        ensures
            r as int == self.spec_micros(),
    {
        self.0
    }

    /// Returns `true` if this cost is zero.
    pub fn is_zero(self) -> (r: bool)
        ensures
            r == (self.spec_micros() == 0),
    {
        self.0 == 0
    }

    /// Adds two costs; the sum must fit the representation.
    pub fn add(self, rhs: Self) -> (r: Self)
        requires
            self.spec_micros() + rhs.spec_micros() <= u64::MAX as int,
        ensures
            r.spec_micros() == self.spec_micros() + rhs.spec_micros(),
    {
        TokenCost(self.0 + rhs.0)
    }

    /// Adds two costs if the sum is representable.
    pub fn checked_add(self, rhs: Self) -> (r: Option<Self>)
        ensures
            self.spec_micros() + rhs.spec_micros() <= u64::MAX as int ==> (r matches Some(t)
                && t.spec_micros() == self.spec_micros() + rhs.spec_micros()),
            self.spec_micros() + rhs.spec_micros() > u64::MAX as int ==> r is None,
    {
        match self.0.checked_add(rhs.0) {
            Some(total) => Some(TokenCost(total)),
            None => None,
        }
    }
}

/// A cost amount is a machine word of micro-dollars: never negative and
/// never beyond the largest representable amount.
pub broadcast proof fn lemma_token_cost_micros_bounds(c: TokenCost)
    ensures
        0 <= #[trigger] c.spec_micros() <= u64::MAX as int,
{
}

/// Maximum token cost permitted for a pipeline run or a parallel budget
/// window, in micro-dollars.  Always strictly positive.
#[derive(Debug, Clone, Copy, PartialEq, Eq, Structural)]
pub struct CostBudget(u64);

impl CostBudget {
    /// The cap in micro-dollars, as a mathematical integer.
    pub closed spec fn spec_limit(self) -> int {
        self.0 as int
    }

    /// A well-formed budget cap is strictly positive.
    pub open spec fn wf(self) -> bool {
        self.spec_limit() > 0
    }

    /// Creates a budget cap from an amount in micro-dollars.
    ///
    /// Returns `None` if `limit` is zero: a run with no spendable budget can
    /// never dispatch a node, so such a cap is rejected at construction.
    pub fn new(limit: u64) -> (r: Option<Self>)
        ensures
            limit == 0 ==> r is None,
            limit > 0 ==> (r matches Some(b) && b.spec_limit() == limit as int && b.wf()),
    {
        if limit == 0 {
            None
        } else {
            Some(CostBudget(limit))
        }
    }

    /// Returns the cap in micro-dollars.
    pub fn as_micros(self) -> (r: u64)
        ensures
            r as int == self.spec_limit(),
    {
        self.0
    }

    /// Whether `accumulated` has reached this budget.
    pub open spec fn spec_exceeded_by(self, accumulated: TokenCost) -> bool {
        accumulated.spec_micros() >= self.spec_limit()
    }

    /// Returns `true` if `accumulated` equals or exceeds this budget.
    pub fn is_exceeded_by(self, accumulated: TokenCost) -> (r: bool)
        ensures
            r == self.spec_exceeded_by(accumulated),
    {
        accumulated.as_micros() >= self.0
    }
}

/// Number of basis points (hundredths of a percent) in the whole unit range.
pub const SCORE_UNIT: u32 = 10000;

/// A scenario satisfaction score in the closed unit range, held in basis
/// points: `0` stands for `0.0`, `SCORE_UNIT` for `1.0`.
#[derive(Debug, Clone, Copy, PartialEq, Eq, Structural)]
pub struct SatisfactionScore(u32);

impl SatisfactionScore {
    /// The score in basis points, as a mathematical integer.
    pub closed spec fn spec_basis_points(self) -> int {
        self.0 as int
    }

    /// A well-formed score does not exceed the unit.
    pub open spec fn wf(self) -> bool {
        self.spec_basis_points() <= SCORE_UNIT as int
    }

    /// Creates a `SatisfactionScore`, returning `None` if `basis_points`
    /// exceeds the unit range.
    pub fn new(basis_points: u32) -> (r: Option<Self>)
        ensures
            basis_points > SCORE_UNIT ==> r is None,
            basis_points <= SCORE_UNIT ==> (r matches Some(s)
                && s.spec_basis_points() == basis_points as int && s.wf()),
    {
        if basis_points > SCORE_UNIT {
            None
        } else {
            Some(SatisfactionScore(basis_points))
        }
    }

    /// Returns the score in basis points.
    pub fn as_basis_points(self) -> (r: u32)
        ensures
            r as int == self.spec_basis_points(),
    {
        self.0
    }
}

/// An alignment verification score in the closed unit range, held in basis
/// points exactly as [`SatisfactionScore`].
#[derive(Debug, Clone, Copy, PartialEq, Eq, Structural)]
pub struct AlignmentScore(u32);

impl AlignmentScore {
    /// The score in basis points, as a mathematical integer.
    pub closed spec fn spec_basis_points(self) -> int {
        self.0 as int
    }

    /// A well-formed score does not exceed the unit.
    pub open spec fn wf(self) -> bool {
        self.spec_basis_points() <= SCORE_UNIT as int
    }

    /// Creates an `AlignmentScore`, returning `None` if `basis_points`
    /// exceeds the unit range.
    pub fn new(basis_points: u32) -> (r: Option<Self>)
        ensures
            basis_points > SCORE_UNIT ==> r is None,
            basis_points <= SCORE_UNIT ==> (r matches Some(s)
                && s.spec_basis_points() == basis_points as int && s.wf()),
    {
        if basis_points > SCORE_UNIT {
            None
        } else {
            Some(AlignmentScore(basis_points))
        }
    }

    /// Returns the score in basis points.
    pub fn as_basis_points(self) -> (r: u32)
        ensures
            r as int == self.spec_basis_points(),
    {
        self.0
    }
}

/// Severity level for a [`Diagnostic`] finding.
///
/// Used consistently across domain-service responses, alignment findings,
/// and review results.
#[derive(Debug, Clone, Copy, PartialEq, Eq, Structural)]
pub enum DiagnosticSeverity {
    /// Finding that blocks progression; the relevant check fails.
    Blocking,
    /// Finding that should be addressed but does not block progression.
    Warning,
    /// Contextual information with no impact on progression.
    Informational,
}

impl DiagnosticSeverity {
    /// Whether a finding of this severity blocks progression.
    pub open spec fn spec_blocks(self) -> bool {
        self is Blocking
    }

    /// Returns `true` if a finding of this severity blocks progression.
    pub fn blocks(self) -> (r: bool)
        ensures
            r == self.spec_blocks(),
    {
        match self {
            DiagnosticSeverity::Blocking => true,
            _ => false,
        }
    }
}

/// Diagnostic category tag.
///
/// Domain services may emit custom categories; consumers treat unknown
/// categories as informational.
#[derive(Debug, Clone, PartialEq, Eq, Hash)]
pub struct DiagnosticCategory(String);

impl View for DiagnosticCategory {
    type V = Seq<char>;

    closed spec fn view(&self) -> Seq<char> {
        self.0@
    }
}

impl DiagnosticCategory {
    /// Creates a `DiagnosticCategory` from a category string.
    ///
    /// Returns `None` if the string is empty.
    pub fn new(category: String) -> (r: Option<Self>)
        ensures
            category@.len() == 0 ==> r is None,
            category@.len() > 0 ==> (r matches Some(c) && c@ == category@),
    {
        if category.as_str().unicode_len() == 0 {
            None
        } else {
            Some(DiagnosticCategory(category))
        }
    }

    /// Returns the category tag as a string slice.
    pub fn as_str(&self) -> (r: &str)
        ensures
            r@ == self@,
    {
        self.0.as_str()
    }
}

/// A structured diagnostic finding produced by a domain service, an
/// alignment checker, or a review pass.
///
/// Findings are accumulated and compared against severity thresholds to
/// determine whether a pipeline step may proceed.
#[derive(Debug, Clone, PartialEq)]
pub struct Diagnostic {
    /// Artefact path the finding relates to; `None` for findings that are
    /// not file-specific.
    pub artifact: Option<ArtifactPath>,
    /// Human-readable location within the artefact; `None` when the
    /// finding applies to the whole artefact.
    pub location: Option<String>,
    /// Severity of this finding.
    pub severity: DiagnosticSeverity,
    /// Category tag.
    pub category: DiagnosticCategory,
    /// Human-readable description of the finding.
    pub message: String,
}

/// Semantic version of the domain-service protocol.
///
/// Additive changes bump `minor`; breaking changes bump `major`.  The core
/// and each domain service negotiate compatibility during the handshake.
#[derive(Debug, Clone, Copy, PartialEq, Eq, Structural)]
pub struct ApiVersion {
    /// Major version, bumped on breaking changes.
    pub major: u32,
    /// Minor version, bumped on additive changes.
    pub minor: u32,
}

impl ApiVersion {
    /// Creates a new `ApiVersion`.
    pub fn new(major: u32, minor: u32) -> (r: Self)
        ensures
            r == (ApiVersion { major, minor }),
    {
        ApiVersion { major, minor }
    }

    /// Whether `other` is compatible with `self`: the same major version,
    /// and `other` offers at least the minor version `self` requires.
    pub open spec fn spec_compatible_with(self, other: ApiVersion) -> bool {
        self.major == other.major && other.minor >= self.minor
    }

    /// Returns `true` if `other` is compatible with `self`.
    pub fn is_compatible_with(self, other: ApiVersion) -> (r: bool)
        ensures
            r == self.spec_compatible_with(other),
    {
        self.major == other.major && other.minor >= self.minor
    }
}

/// A UTC wall-clock timestamp, held as milliseconds since the Unix epoch.
///
/// Callers never depend on a clock library's types directly; the scheduler
/// logic compares plain millisecond values.
#[derive(Debug, Clone, Copy, PartialEq, Eq, Structural)]
pub struct Timestamp(i64);

impl Timestamp {
    /// Milliseconds since the Unix epoch, as a mathematical integer.
    pub closed spec fn spec_millis(self) -> int {
        self.0 as int
    }

    /// Returns the current UTC time.
    ///
    /// Relies on `chrono::Utc::now` and
    /// `chrono::DateTime::timestamp_millis`: the result is the wall clock,
    /// so nothing is promised of its value.
    #[verifier::external_body]
    pub fn now() -> Self {
        Timestamp(chrono::Utc::now().timestamp_millis())
    }

    /// Creates a `Timestamp` from milliseconds since the Unix epoch.
    pub fn from_millis(ms: i64) -> (r: Self)
        ensures
            r.spec_millis() == ms as int,
    {
        Timestamp(ms)
    }

    /// Returns the milliseconds since the Unix epoch.
    pub fn as_millis(self) -> (r: i64)
        ensures
            r as int == self.spec_millis(),
    {
        self.0
    }
}

} // verus!
