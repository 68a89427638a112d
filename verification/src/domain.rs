//! Runtime domain records for the Secretary ledger.
use vstd::prelude::*;

use crate::ids::{
    ArtifactRefId, AuditRecordId, JobEventId, JobId, LockDecisionId, OutputRefId, PolicyDecisionId,
    RepositoryId, SchemaMigrationId, ToolInvocationId, ToolResultId,
};
use crate::record::Record;

verus! {

pub const DOMAIN_SCHEMA_VERSION: u32 = 1;

/// A point in time, in milliseconds since the Unix epoch.
#[derive(Debug, Clone, Copy, PartialEq, Eq, PartialOrd, Ord, Structural)]
pub struct LedgerTimestamp {
    pub unix_millis: i64,
}

impl DeepView for LedgerTimestamp {
    type V = LedgerTimestamp;

    open spec fn deep_view(&self) -> LedgerTimestamp {
        *self
    }
}

impl Record for LedgerTimestamp {
    fn duplicate(&self) -> (r: Self) {
        *self
    }

    fn same(&self, other: &Self) -> (r: bool) {
        *self == *other
    }
}

/// `std::time::SystemTime::now`, as the milliseconds that have passed since the Unix
/// epoch; `None` where the clock stands before it. Nothing is claimed of the reading.
#[verifier::external_body]
fn clock_millis() -> (r: Option<u128>) {
    let now = std::time::SystemTime::now();
    now.duration_since(std::time::UNIX_EPOCH).ok().map(|elapsed| elapsed.as_millis())
}

impl LedgerTimestamp {
    /// The timestamp for a reading of the clock: the epoch where the clock stands before
    /// it, and the last representable point where the reading lies beyond that.
    pub open spec fn of_clock(millis: Option<u128>) -> int {
        match millis {
            Some(millis) => if millis <= i64::MAX {
                millis as int
            } else {
                i64::MAX as int
            },
            None => 0,
        }
    }

    pub fn from_clock(millis: Option<u128>) -> (r: Self)
        ensures
            r.unix_millis == LedgerTimestamp::of_clock(millis),
    {
        match millis {
            Some(millis) => if millis <= i64::MAX as u128 {
                LedgerTimestamp { unix_millis: millis as i64 }
            } else {
                LedgerTimestamp { unix_millis: i64::MAX }
            },
            None => LedgerTimestamp { unix_millis: 0 },
        }
    }

    /// The present, as far as the machine's clock shows it: never before the epoch.
    pub fn now() -> (r: Self)
        ensures
            r.unix_millis >= 0,
    {
        LedgerTimestamp::from_clock(clock_millis())
    }

    pub fn from_unix_millis(unix_millis: i64) -> (r: Self)
        ensures
            r.unix_millis == unix_millis,
    {
        LedgerTimestamp { unix_millis }
    }
}

#[derive(Debug, PartialEq, Eq)]
pub enum Actor {
    User { id: String, display_name: Option<String> },
    Agent { id: String, display_name: Option<String> },
    Extension { id: String },
    System { id: String },
}

/// What a [`Actor`] holds.
pub enum ActorModel {
    User { id: Seq<char>, display_name: Option<Seq<char>> },
    Agent { id: Seq<char>, display_name: Option<Seq<char>> },
    Extension { id: Seq<char> },
    System { id: Seq<char> },
}

impl DeepView for Actor {
    type V = ActorModel;

    open spec fn deep_view(&self) -> ActorModel {
        match self {
            Actor::User { id, display_name } => ActorModel::User {
                id: id.deep_view(),
                display_name: display_name.deep_view(),
            },
            Actor::Agent { id, display_name } => ActorModel::Agent {
                id: id.deep_view(),
                display_name: display_name.deep_view(),
            },
            Actor::Extension { id } => ActorModel::Extension { id: id.deep_view() },
            Actor::System { id } => ActorModel::System { id: id.deep_view() },
        }
    }
}

impl View for Actor {
    type V = ActorModel;

    #[verifier::inline]
    open spec fn view(&self) -> ActorModel {
        self.deep_view()
    }
}

impl Record for Actor {
    fn duplicate(&self) -> (r: Self) {
        match self {
            Actor::User { id, display_name } => Actor::User {
                id: id.duplicate(),
                display_name: display_name.duplicate(),
            },
            Actor::Agent { id, display_name } => Actor::Agent {
                id: id.duplicate(),
                display_name: display_name.duplicate(),
            },
            Actor::Extension { id } => Actor::Extension { id: id.duplicate() },
            Actor::System { id } => Actor::System { id: id.duplicate() },
        }
    }

    fn same(&self, other: &Self) -> (r: bool) {
        match (self, other) {
            (
                Actor::User { id: id_a, display_name: display_name_a },
                Actor::User { id: id_b, display_name: display_name_b },
            ) => id_a.same(id_b) && display_name_a.same(display_name_b),
            (
                Actor::Agent { id: id_a, display_name: display_name_a },
                Actor::Agent { id: id_b, display_name: display_name_b },
            ) => id_a.same(id_b) && display_name_a.same(display_name_b),
            (Actor::Extension { id: id_a }, Actor::Extension { id: id_b }) => id_a.same(id_b),
            (Actor::System { id: id_a }, Actor::System { id: id_b }) => id_a.same(id_b),
            _ => false,
        }
    }
}

impl Clone for Actor {
    fn clone(&self) -> (r: Self)
        ensures
            r.deep_view() == self.deep_view(),
    {
        self.duplicate()
    }
}

#[derive(Debug, PartialEq, Eq)]
pub struct RedactionMarker {
    pub field_path: String,
    pub reason: String,
    pub redacted_at: LedgerTimestamp,
}

/// What a [`RedactionMarker`] holds.
pub struct RedactionMarkerModel {
    pub field_path: Seq<char>,
    pub reason: Seq<char>,
    pub redacted_at: LedgerTimestamp,
}

impl DeepView for RedactionMarker {
    type V = RedactionMarkerModel;

    open spec fn deep_view(&self) -> RedactionMarkerModel {
        RedactionMarkerModel {
            field_path: self.field_path.deep_view(),
            reason: self.reason.deep_view(),
            redacted_at: self.redacted_at.deep_view(),
        }
    }
}

impl View for RedactionMarker {
    type V = RedactionMarkerModel;

    #[verifier::inline]
    open spec fn view(&self) -> RedactionMarkerModel {
        self.deep_view()
    }
}

impl Record for RedactionMarker {
    fn duplicate(&self) -> (r: Self) {
        RedactionMarker {
            field_path: self.field_path.duplicate(),
            reason: self.reason.duplicate(),
            redacted_at: self.redacted_at.duplicate(),
        }
    }

    fn same(&self, other: &Self) -> (r: bool) {
        self.field_path.same(&other.field_path)
            && self.reason.same(&other.reason)
            && self.redacted_at.same(&other.redacted_at)
    }
}

impl Clone for RedactionMarker {
    fn clone(&self) -> (r: Self)
        ensures
            r.deep_view() == self.deep_view(),
    {
        self.duplicate()
    }
}

#[derive(Debug, PartialEq, Eq)]
pub struct TruncationMetadata {
    pub original_bytes: u64,
    pub retained_bytes: u64,
    pub reason: String,
}

/// What a [`TruncationMetadata`] holds.
pub struct TruncationMetadataModel {
    pub original_bytes: u64,
    pub retained_bytes: u64,
    pub reason: Seq<char>,
}

impl DeepView for TruncationMetadata {
    type V = TruncationMetadataModel;

    open spec fn deep_view(&self) -> TruncationMetadataModel {
        TruncationMetadataModel {
            original_bytes: self.original_bytes.deep_view(),
            retained_bytes: self.retained_bytes.deep_view(),
            reason: self.reason.deep_view(),
        }
    }
}

impl View for TruncationMetadata {
    type V = TruncationMetadataModel;

    #[verifier::inline]
    open spec fn view(&self) -> TruncationMetadataModel {
        self.deep_view()
    }
}

impl Record for TruncationMetadata {
    fn duplicate(&self) -> (r: Self) {
        TruncationMetadata {
            original_bytes: self.original_bytes.duplicate(),
            retained_bytes: self.retained_bytes.duplicate(),
            reason: self.reason.duplicate(),
        }
    }

    fn same(&self, other: &Self) -> (r: bool) {
        self.original_bytes.same(&other.original_bytes)
            && self.retained_bytes.same(&other.retained_bytes)
            && self.reason.same(&other.reason)
    }
}

impl Clone for TruncationMetadata {
    fn clone(&self) -> (r: Self)
        ensures
            r.deep_view() == self.deep_view(),
    {
        self.duplicate()
    }
}

#[derive(Debug, PartialEq, Eq)]
pub struct OutputRef {
    pub id: OutputRefId,
    pub uri: String,
    pub media_type: String,
    pub label: Option<String>,
    pub digest: Option<String>,
}

/// What a [`OutputRef`] holds.
pub struct OutputRefModel {
    pub id: Seq<char>,
    pub uri: Seq<char>,
    pub media_type: Seq<char>,
    pub label: Option<Seq<char>>,
    pub digest: Option<Seq<char>>,
}

impl DeepView for OutputRef {
    type V = OutputRefModel;

    open spec fn deep_view(&self) -> OutputRefModel {
        OutputRefModel {
            id: self.id.deep_view(),
            uri: self.uri.deep_view(),
            media_type: self.media_type.deep_view(),
            label: self.label.deep_view(),
            digest: self.digest.deep_view(),
        }
    }
}

impl View for OutputRef {
    type V = OutputRefModel;

    #[verifier::inline]
    open spec fn view(&self) -> OutputRefModel {
        self.deep_view()
    }
}

impl Record for OutputRef {
    fn duplicate(&self) -> (r: Self) {
        OutputRef {
            id: self.id.duplicate(),
            uri: self.uri.duplicate(),
            media_type: self.media_type.duplicate(),
            label: self.label.duplicate(),
            digest: self.digest.duplicate(),
        }
    }

    fn same(&self, other: &Self) -> (r: bool) {
        self.id.same(&other.id)
            && self.uri.same(&other.uri)
            && self.media_type.same(&other.media_type)
            && self.label.same(&other.label)
            && self.digest.same(&other.digest)
    }
}

impl Clone for OutputRef {
    fn clone(&self) -> (r: Self)
        ensures
            r.deep_view() == self.deep_view(),
    {
        self.duplicate()
    }
}

#[derive(Debug, PartialEq, Eq)]
pub struct ArtifactRef {
    pub id: ArtifactRefId,
    pub uri: String,
    pub media_type: String,
    pub label: Option<String>,
    pub digest: Option<String>,
}

/// What a [`ArtifactRef`] holds.
pub struct ArtifactRefModel {
    pub id: Seq<char>,
    pub uri: Seq<char>,
    pub media_type: Seq<char>,
    pub label: Option<Seq<char>>,
    pub digest: Option<Seq<char>>,
}

impl DeepView for ArtifactRef {
    type V = ArtifactRefModel;

    open spec fn deep_view(&self) -> ArtifactRefModel {
        ArtifactRefModel {
            id: self.id.deep_view(),
            uri: self.uri.deep_view(),
            media_type: self.media_type.deep_view(),
            label: self.label.deep_view(),
            digest: self.digest.deep_view(),
        }
    }
}

impl View for ArtifactRef {
    type V = ArtifactRefModel;

    #[verifier::inline]
    open spec fn view(&self) -> ArtifactRefModel {
        self.deep_view()
    }
}

impl Record for ArtifactRef {
    fn duplicate(&self) -> (r: Self) {
        ArtifactRef {
            id: self.id.duplicate(),
            uri: self.uri.duplicate(),
            media_type: self.media_type.duplicate(),
            label: self.label.duplicate(),
            digest: self.digest.duplicate(),
        }
    }

    fn same(&self, other: &Self) -> (r: bool) {
        self.id.same(&other.id)
            && self.uri.same(&other.uri)
            && self.media_type.same(&other.media_type)
            && self.label.same(&other.label)
            && self.digest.same(&other.digest)
    }
}

impl Clone for ArtifactRef {
    fn clone(&self) -> (r: Self)
        ensures
            r.deep_view() == self.deep_view(),
    {
        self.duplicate()
    }
}

#[derive(Debug, PartialEq, Eq)]
pub struct PathScope {
    pub root_path: String,
    pub allowed_paths: Vec<String>,
}

/// What a [`PathScope`] holds.
pub struct PathScopeModel {
    pub root_path: Seq<char>,
    pub allowed_paths: Seq<Seq<char>>,
}

impl DeepView for PathScope {
    type V = PathScopeModel;

    open spec fn deep_view(&self) -> PathScopeModel {
        PathScopeModel {
            root_path: self.root_path.deep_view(),
            allowed_paths: self.allowed_paths.deep_view(),
        }
    }
}

impl View for PathScope {
    type V = PathScopeModel;

    #[verifier::inline]
    open spec fn view(&self) -> PathScopeModel {
        self.deep_view()
    }
}

impl Record for PathScope {
    fn duplicate(&self) -> (r: Self) {
        PathScope {
            root_path: self.root_path.duplicate(),
            allowed_paths: self.allowed_paths.duplicate(),
        }
    }

    fn same(&self, other: &Self) -> (r: bool) {
        self.root_path.same(&other.root_path)
            && self.allowed_paths.same(&other.allowed_paths)
    }
}

impl Clone for PathScope {
    fn clone(&self) -> (r: Self)
        ensures
            r.deep_view() == self.deep_view(),
    {
        self.duplicate()
    }
}

impl PathScope {
    /// The scope of a whole repository: its root is the one allowed path.
    pub fn repository(root_path: String) -> (r: Self)
        ensures
            r@ == (PathScopeModel { root_path: root_path@, allowed_paths: seq![root_path@] }),
    {
        let mut allowed_paths: Vec<String> = Vec::new();
        allowed_paths.push(root_path.clone());
        assert(allowed_paths.deep_view() =~= seq![root_path@]);
        PathScope { root_path, allowed_paths }
    }
}

#[derive(Debug, Clone, Copy, PartialEq, Eq, Structural)]
pub enum RepositoryTrustState {
    Trusted,
    ReadOnly,
    Blocked,
}

impl DeepView for RepositoryTrustState {
    type V = RepositoryTrustState;

    open spec fn deep_view(&self) -> RepositoryTrustState {
        *self
    }
}

impl Record for RepositoryTrustState {
    fn duplicate(&self) -> (r: Self) {
        *self
    }

    fn same(&self, other: &Self) -> (r: bool) {
        *self == *other
    }
}

#[derive(Debug, PartialEq, Eq)]
pub struct RepositoryMetadata {
    pub observed_at: LedgerTimestamp,
    pub vcs_kind: Option<String>,
    pub branch: Option<String>,
    pub head_revision: Option<String>,
}

/// What a [`RepositoryMetadata`] holds.
pub struct RepositoryMetadataModel {
    pub observed_at: LedgerTimestamp,
    pub vcs_kind: Option<Seq<char>>,
    pub branch: Option<Seq<char>>,
    pub head_revision: Option<Seq<char>>,
}

impl DeepView for RepositoryMetadata {
    type V = RepositoryMetadataModel;

    open spec fn deep_view(&self) -> RepositoryMetadataModel {
        RepositoryMetadataModel {
            observed_at: self.observed_at.deep_view(),
            vcs_kind: self.vcs_kind.deep_view(),
            branch: self.branch.deep_view(),
            head_revision: self.head_revision.deep_view(),
        }
    }
}

impl View for RepositoryMetadata {
    type V = RepositoryMetadataModel;

    #[verifier::inline]
    open spec fn view(&self) -> RepositoryMetadataModel {
        self.deep_view()
    }
}

impl Record for RepositoryMetadata {
    fn duplicate(&self) -> (r: Self) {
        RepositoryMetadata {
            observed_at: self.observed_at.duplicate(),
            vcs_kind: self.vcs_kind.duplicate(),
            branch: self.branch.duplicate(),
            head_revision: self.head_revision.duplicate(),
        }
    }

    fn same(&self, other: &Self) -> (r: bool) {
        self.observed_at.same(&other.observed_at)
            && self.vcs_kind.same(&other.vcs_kind)
            && self.branch.same(&other.branch)
            && self.head_revision.same(&other.head_revision)
    }
}

impl Clone for RepositoryMetadata {
    fn clone(&self) -> (r: Self)
        ensures
            r.deep_view() == self.deep_view(),
    {
        self.duplicate()
    }
}

#[derive(Debug, PartialEq, Eq)]
pub struct RepositoryRecord {
    pub id: RepositoryId,
    pub schema_version: u32,
    pub created_at: LedgerTimestamp,
    pub updated_at: LedgerTimestamp,
    pub display_name: String,
    pub root_path: String,
    pub allowed_path_scope: PathScope,
    pub trust_state: RepositoryTrustState,
    pub owner_hint: Option<String>,
    pub last_observed_metadata: Option<RepositoryMetadata>,
    pub redactions: Vec<RedactionMarker>,
}

/// What a [`RepositoryRecord`] holds.
pub struct RepositoryRecordModel {
    pub id: Seq<char>,
    pub schema_version: u32,
    pub created_at: LedgerTimestamp,
    pub updated_at: LedgerTimestamp,
    pub display_name: Seq<char>,
    pub root_path: Seq<char>,
    pub allowed_path_scope: PathScopeModel,
    pub trust_state: RepositoryTrustState,
    pub owner_hint: Option<Seq<char>>,
    pub last_observed_metadata: Option<RepositoryMetadataModel>,
    pub redactions: Seq<RedactionMarkerModel>,
}

impl DeepView for RepositoryRecord {
    type V = RepositoryRecordModel;

    open spec fn deep_view(&self) -> RepositoryRecordModel {
        RepositoryRecordModel {
            id: self.id.deep_view(),
            schema_version: self.schema_version.deep_view(),
            created_at: self.created_at.deep_view(),
            updated_at: self.updated_at.deep_view(),
            display_name: self.display_name.deep_view(),
            root_path: self.root_path.deep_view(),
            allowed_path_scope: self.allowed_path_scope.deep_view(),
            trust_state: self.trust_state.deep_view(),
            owner_hint: self.owner_hint.deep_view(),
            last_observed_metadata: self.last_observed_metadata.deep_view(),
            redactions: self.redactions.deep_view(),
        }
    }
}

impl View for RepositoryRecord {
    type V = RepositoryRecordModel;

    #[verifier::inline]
    open spec fn view(&self) -> RepositoryRecordModel {
        self.deep_view()
    }
}

impl Record for RepositoryRecord {
    fn duplicate(&self) -> (r: Self) {
        RepositoryRecord {
            id: self.id.duplicate(),
            schema_version: self.schema_version.duplicate(),
            created_at: self.created_at.duplicate(),
            updated_at: self.updated_at.duplicate(),
            display_name: self.display_name.duplicate(),
            root_path: self.root_path.duplicate(),
            allowed_path_scope: self.allowed_path_scope.duplicate(),
            trust_state: self.trust_state.duplicate(),
            owner_hint: self.owner_hint.duplicate(),
            last_observed_metadata: self.last_observed_metadata.duplicate(),
            redactions: self.redactions.duplicate(),
        }
    }

    fn same(&self, other: &Self) -> (r: bool) {
        self.id.same(&other.id)
            && self.schema_version.same(&other.schema_version)
            && self.created_at.same(&other.created_at)
            && self.updated_at.same(&other.updated_at)
            && self.display_name.same(&other.display_name)
            && self.root_path.same(&other.root_path)
            && self.allowed_path_scope.same(&other.allowed_path_scope)
            && self.trust_state.same(&other.trust_state)
            && self.owner_hint.same(&other.owner_hint)
            && self.last_observed_metadata.same(&other.last_observed_metadata)
            && self.redactions.same(&other.redactions)
    }
}

impl Clone for RepositoryRecord {
    fn clone(&self) -> (r: Self)
        ensures
            r.deep_view() == self.deep_view(),
    {
        self.duplicate()
    }
}

impl RepositoryRecord {
    pub fn new(
        display_name: String,
        root_path: String,
        trust_state: RepositoryTrustState,
        created_at: LedgerTimestamp,
    ) -> (r: Self)
        ensures
            crate::ids::is_id_text("repo_"@, r@.id),
            r@ == (RepositoryRecordModel {
                id: r@.id,
                schema_version: DOMAIN_SCHEMA_VERSION,
                created_at,
                updated_at: created_at,
                display_name: display_name@,
                root_path: root_path@,
                allowed_path_scope: PathScopeModel {
                    root_path: root_path@,
                    allowed_paths: seq![root_path@],
                },
                trust_state,
                owner_hint: None,
                last_observed_metadata: None,
                redactions: Seq::empty(),
            }),
    {
        let redactions: Vec<RedactionMarker> = Vec::new();
        assert(redactions.deep_view() =~= Seq::empty());
        RepositoryRecord {
            id: RepositoryId::new(),
            schema_version: DOMAIN_SCHEMA_VERSION,
            created_at,
            updated_at: created_at,
            display_name,
            allowed_path_scope: PathScope::repository(root_path.clone()),
            root_path,
            trust_state,
            owner_hint: None,
            last_observed_metadata: None,
            redactions,
        }
    }
}

#[derive(Debug, PartialEq, Eq)]
pub enum JobKind {
    Read,
    Mutate,
    Process,
    Maintenance,
    Other { name: String },
}

/// What a [`JobKind`] holds.
pub enum JobKindModel {
    Read,
    Mutate,
    Process,
    Maintenance,
    Other { name: Seq<char> },
}

impl DeepView for JobKind {
    type V = JobKindModel;

    open spec fn deep_view(&self) -> JobKindModel {
        match self {
            JobKind::Read => JobKindModel::Read,
            JobKind::Mutate => JobKindModel::Mutate,
            JobKind::Process => JobKindModel::Process,
            JobKind::Maintenance => JobKindModel::Maintenance,
            JobKind::Other { name } => JobKindModel::Other { name: name.deep_view() },
        }
    }
}

impl View for JobKind {
    type V = JobKindModel;

    #[verifier::inline]
    open spec fn view(&self) -> JobKindModel {
        self.deep_view()
    }
}

impl Record for JobKind {
    fn duplicate(&self) -> (r: Self) {
        match self {
            JobKind::Read => JobKind::Read,
            JobKind::Mutate => JobKind::Mutate,
            JobKind::Process => JobKind::Process,
            JobKind::Maintenance => JobKind::Maintenance,
            JobKind::Other { name } => JobKind::Other { name: name.duplicate() },
        }
    }

    fn same(&self, other: &Self) -> (r: bool) {
        match (self, other) {
            (JobKind::Read, JobKind::Read) => true,
            (JobKind::Mutate, JobKind::Mutate) => true,
            (JobKind::Process, JobKind::Process) => true,
            (JobKind::Maintenance, JobKind::Maintenance) => true,
            (JobKind::Other { name: name_a }, JobKind::Other { name: name_b }) => {
                name_a.same(name_b)
            },
            _ => false,
        }
    }
}

impl Clone for JobKind {
    fn clone(&self) -> (r: Self)
        ensures
            r.deep_view() == self.deep_view(),
    {
        self.duplicate()
    }
}

#[derive(Debug, Clone, Copy, PartialEq, Eq, Structural)]
pub enum JobStatus {
    Queued,
    Running,
    Succeeded,
    Failed,
    Blocked,
    Canceled,
}

impl DeepView for JobStatus {
    type V = JobStatus;

    open spec fn deep_view(&self) -> JobStatus {
        *self
    }
}

impl Record for JobStatus {
    fn duplicate(&self) -> (r: Self) {
        *self
    }

    fn same(&self, other: &Self) -> (r: bool) {
        *self == *other
    }
}

impl JobStatus {
    /// A status that a job never leaves.
    pub open spec fn terminal(self) -> bool {
        self is Succeeded || self is Failed || self is Blocked || self is Canceled
    }

    /// A job in status `self` may be moved to `next`.
    pub open spec fn allows(self, next: JobStatus) -> bool {
        ||| self == next
        ||| self is Queued && (next is Running || next is Failed || next is Blocked
            || next is Canceled)
        ||| self is Running && next.terminal()
    }

    pub fn is_terminal(self) -> (r: bool)
        ensures
            r == self.terminal(),
    {
        matches!(self, JobStatus::Succeeded | JobStatus::Failed | JobStatus::Blocked | JobStatus::Canceled)
    }

    pub fn can_transition_to(self, next: JobStatus) -> (r: bool)
        ensures
            r == self.allows(next),
    {
        if self == next {
            return true;
        }
        match self {
            JobStatus::Queued => matches!(
                next,
                JobStatus::Running | JobStatus::Failed | JobStatus::Blocked | JobStatus::Canceled
            ),
            JobStatus::Running => next.is_terminal(),
            _ => false,
        }
    }
}

#[derive(Debug, Clone, Copy, PartialEq, Eq, Structural)]
pub enum CancellationState {
    NotRequested,
    Requested,
    CooperativeStop,
    ForceStop,
    Completed,
}

impl DeepView for CancellationState {
    type V = CancellationState;

    open spec fn deep_view(&self) -> CancellationState {
        *self
    }
}

impl Record for CancellationState {
    fn duplicate(&self) -> (r: Self) {
        *self
    }

    fn same(&self, other: &Self) -> (r: bool) {
        *self == *other
    }
}

#[derive(Debug, Clone, Copy, PartialEq, Eq, Structural)]
pub enum RiskTier {
    R0,
    R1,
    R2,
    R3,
    R4,
}

impl DeepView for RiskTier {
    type V = RiskTier;

    open spec fn deep_view(&self) -> RiskTier {
        *self
    }
}

impl Record for RiskTier {
    fn duplicate(&self) -> (r: Self) {
        *self
    }

    fn same(&self, other: &Self) -> (r: bool) {
        *self == *other
    }
}

#[derive(Debug, Clone, Copy, PartialEq, Eq, Structural)]
pub enum PolicyOutcome {
    Allowed,
    Audited,
    NeedsApproval,
    Blocked,
}

impl DeepView for PolicyOutcome {
    type V = PolicyOutcome;

    open spec fn deep_view(&self) -> PolicyOutcome {
        *self
    }
}

impl Record for PolicyOutcome {
    fn duplicate(&self) -> (r: Self) {
        *self
    }

    fn same(&self, other: &Self) -> (r: bool) {
        *self == *other
    }
}

#[derive(Debug, PartialEq, Eq)]
pub struct PolicySummary {
    pub decision_id: Option<PolicyDecisionId>,
    pub outcome: PolicyOutcome,
    pub risk_tier: RiskTier,
    pub reason_code: String,
}

/// What a [`PolicySummary`] holds.
pub struct PolicySummaryModel {
    pub decision_id: Option<Seq<char>>,
    pub outcome: PolicyOutcome,
    pub risk_tier: RiskTier,
    pub reason_code: Seq<char>,
}

impl DeepView for PolicySummary {
    type V = PolicySummaryModel;

    open spec fn deep_view(&self) -> PolicySummaryModel {
        PolicySummaryModel {
            decision_id: self.decision_id.deep_view(),
            outcome: self.outcome.deep_view(),
            risk_tier: self.risk_tier.deep_view(),
            reason_code: self.reason_code.deep_view(),
        }
    }
}

impl View for PolicySummary {
    type V = PolicySummaryModel;

    #[verifier::inline]
    open spec fn view(&self) -> PolicySummaryModel {
        self.deep_view()
    }
}

impl Record for PolicySummary {
    fn duplicate(&self) -> (r: Self) {
        PolicySummary {
            decision_id: self.decision_id.duplicate(),
            outcome: self.outcome.duplicate(),
            risk_tier: self.risk_tier.duplicate(),
            reason_code: self.reason_code.duplicate(),
        }
    }

    fn same(&self, other: &Self) -> (r: bool) {
        self.decision_id.same(&other.decision_id)
            && self.outcome.same(&other.outcome)
            && self.risk_tier.same(&other.risk_tier)
            && self.reason_code.same(&other.reason_code)
    }
}

impl Clone for PolicySummary {
    fn clone(&self) -> (r: Self)
        ensures
            r.deep_view() == self.deep_view(),
    {
        self.duplicate()
    }
}

#[derive(Debug, PartialEq, Eq)]
pub struct JobRecord {
    pub id: JobId,
    pub schema_version: u32,
    pub created_at: LedgerTimestamp,
    pub updated_at: LedgerTimestamp,
    pub started_at: Option<LedgerTimestamp>,
    pub completed_at: Option<LedgerTimestamp>,
    pub requester: Actor,
    pub repository_id: RepositoryId,
    pub kind: JobKind,
    pub goal: String,
    pub status: JobStatus,
    pub policy_summary: Option<PolicySummary>,
    pub cancellation_state: CancellationState,
    pub latest_event_id: Option<JobEventId>,
    pub redactions: Vec<RedactionMarker>,
}

/// What a [`JobRecord`] holds.
pub struct JobRecordModel {
    pub id: Seq<char>,
    pub schema_version: u32,
    pub created_at: LedgerTimestamp,
    pub updated_at: LedgerTimestamp,
    pub started_at: Option<LedgerTimestamp>,
    pub completed_at: Option<LedgerTimestamp>,
    pub requester: ActorModel,
    pub repository_id: Seq<char>,
    pub kind: JobKindModel,
    pub goal: Seq<char>,
    pub status: JobStatus,
    pub policy_summary: Option<PolicySummaryModel>,
    pub cancellation_state: CancellationState,
    pub latest_event_id: Option<Seq<char>>,
    pub redactions: Seq<RedactionMarkerModel>,
}

impl DeepView for JobRecord {
    type V = JobRecordModel;

    open spec fn deep_view(&self) -> JobRecordModel {
        JobRecordModel {
            id: self.id.deep_view(),
            schema_version: self.schema_version.deep_view(),
            created_at: self.created_at.deep_view(),
            updated_at: self.updated_at.deep_view(),
            started_at: self.started_at.deep_view(),
            completed_at: self.completed_at.deep_view(),
            requester: self.requester.deep_view(),
            repository_id: self.repository_id.deep_view(),
            kind: self.kind.deep_view(),
            goal: self.goal.deep_view(),
            status: self.status.deep_view(),
            policy_summary: self.policy_summary.deep_view(),
            cancellation_state: self.cancellation_state.deep_view(),
            latest_event_id: self.latest_event_id.deep_view(),
            redactions: self.redactions.deep_view(),
        }
    }
}

impl View for JobRecord {
    type V = JobRecordModel;

    #[verifier::inline]
    open spec fn view(&self) -> JobRecordModel {
        self.deep_view()
    }
}

impl Record for JobRecord {
    fn duplicate(&self) -> (r: Self) {
        JobRecord {
            id: self.id.duplicate(),
            schema_version: self.schema_version.duplicate(),
            created_at: self.created_at.duplicate(),
            updated_at: self.updated_at.duplicate(),
            started_at: self.started_at.duplicate(),
            completed_at: self.completed_at.duplicate(),
            requester: self.requester.duplicate(),
            repository_id: self.repository_id.duplicate(),
            kind: self.kind.duplicate(),
            goal: self.goal.duplicate(),
            status: self.status.duplicate(),
            policy_summary: self.policy_summary.duplicate(),
            cancellation_state: self.cancellation_state.duplicate(),
            latest_event_id: self.latest_event_id.duplicate(),
            redactions: self.redactions.duplicate(),
        }
    }

    fn same(&self, other: &Self) -> (r: bool) {
        self.id.same(&other.id)
            && self.schema_version.same(&other.schema_version)
            && self.created_at.same(&other.created_at)
            && self.updated_at.same(&other.updated_at)
            && self.started_at.same(&other.started_at)
            && self.completed_at.same(&other.completed_at)
            && self.requester.same(&other.requester)
            && self.repository_id.same(&other.repository_id)
            && self.kind.same(&other.kind)
            && self.goal.same(&other.goal)
            && self.status.same(&other.status)
            && self.policy_summary.same(&other.policy_summary)
            && self.cancellation_state.same(&other.cancellation_state)
            && self.latest_event_id.same(&other.latest_event_id)
            && self.redactions.same(&other.redactions)
    }
}

impl Clone for JobRecord {
    fn clone(&self) -> (r: Self)
        ensures
            r.deep_view() == self.deep_view(),
    {
        self.duplicate()
    }
}

#[derive(Debug, Clone, Copy, PartialEq, Eq, Structural)]
pub enum JobStatusTransitionError {
    InvalidTransition { from: JobStatus, to: JobStatus },
    NonMonotonicTimestamp { at: LedgerTimestamp, latest: LedgerTimestamp },
}

impl DeepView for JobStatusTransitionError {
    type V = JobStatusTransitionError;

    open spec fn deep_view(&self) -> JobStatusTransitionError {
        *self
    }
}

impl Record for JobStatusTransitionError {
    fn duplicate(&self) -> (r: Self) {
        *self
    }

    fn same(&self, other: &Self) -> (r: bool) {
        *self == *other
    }
}

/// The later of two points in time.
pub open spec fn later(a: LedgerTimestamp, b: LedgerTimestamp) -> LedgerTimestamp {
    if b.unix_millis > a.unix_millis {
        b
    } else {
        a
    }
}

pub open spec fn later_option(a: LedgerTimestamp, b: Option<LedgerTimestamp>) -> LedgerTimestamp {
    match b {
        Some(b) => later(a, b),
        None => a,
    }
}

impl JobRecordModel {
    /// The last point in time that the record speaks of, apart from its creation.
    pub open spec fn latest_time(self) -> LedgerTimestamp {
        later_option(later_option(self.updated_at, self.started_at), self.completed_at)
    }

    /// The record once it has been moved to `next`.
    pub open spec fn moved_to(self, next: JobStatus, at: LedgerTimestamp) -> JobRecordModel {
        JobRecordModel {
            status: next,
            updated_at: at,
            started_at: if next is Running && self.started_at is None {
                Some(at)
            } else {
                self.started_at
            },
            completed_at: if next.terminal() && self.completed_at is None {
                Some(at)
            } else {
                self.completed_at
            },
            ..self
        }
    }

    /// Why a move to `next` is refused, where it is.
    pub open spec fn refusal(self, next: JobStatus, at: LedgerTimestamp) -> Option<
        JobStatusTransitionError,
    > {
        if !self.status.allows(next) {
            Some(JobStatusTransitionError::InvalidTransition { from: self.status, to: next })
        } else if at.unix_millis < self.latest_time().unix_millis {
            Some(JobStatusTransitionError::NonMonotonicTimestamp { at, latest: self.latest_time() })
        } else {
            None
        }
    }
}

fn later_of(a: LedgerTimestamp, b: Option<LedgerTimestamp>) -> (r: LedgerTimestamp)
    ensures
        r == later_option(a, b),
{
    match b {
        Some(b) => if b.unix_millis > a.unix_millis {
            b
        } else {
            a
        },
        None => a,
    }
}

impl JobRecord {
    pub fn new(
        requester: Actor,
        repository_id: RepositoryId,
        kind: JobKind,
        goal: String,
        created_at: LedgerTimestamp,
    ) -> (r: Self)
        ensures
            crate::ids::is_id_text("job_"@, r@.id),
            r@ == (JobRecordModel {
                id: r@.id,
                schema_version: DOMAIN_SCHEMA_VERSION,
                created_at,
                updated_at: created_at,
                started_at: None,
                completed_at: None,
                requester: requester@,
                repository_id: repository_id@,
                kind: kind@,
                goal: goal@,
                status: JobStatus::Queued,
                policy_summary: None,
                cancellation_state: CancellationState::NotRequested,
                latest_event_id: None,
                redactions: Seq::empty(),
            }),
    {
        let redactions: Vec<RedactionMarker> = Vec::new();
        assert(redactions.deep_view() =~= Seq::empty());
        JobRecord {
            id: JobId::new(),
            schema_version: DOMAIN_SCHEMA_VERSION,
            created_at,
            updated_at: created_at,
            started_at: None,
            completed_at: None,
            requester,
            repository_id,
            kind,
            goal,
            status: JobStatus::Queued,
            policy_summary: None,
            cancellation_state: CancellationState::NotRequested,
            latest_event_id: None,
            redactions,
        }
    }

    /// Move the job to `next`. A refused move leaves the record as it was.
    pub fn transition_status(&mut self, next: JobStatus, at: LedgerTimestamp) -> (r: Result<
        (),
        JobStatusTransitionError,
    >)
        ensures
            match old(self)@.refusal(next, at) {
                Some(error) => r == Err::<(), JobStatusTransitionError>(error) && final(self)@
                    == old(self)@,
                None => r is Ok && final(self)@ == old(self)@.moved_to(next, at),
            },
    {
        if !self.status.can_transition_to(next) {
            return Err(
                JobStatusTransitionError::InvalidTransition { from: self.status, to: next },
            );
        }
        match self.ensure_monotonic_transition_timestamp(at) {
            Ok(()) => {},
            Err(error) => {
                return Err(error);
            },
        }
        self.status = next;
        self.updated_at = at;
        if next == JobStatus::Running && self.started_at.is_none() {
            self.started_at = Some(at);
        }
        if next.is_terminal() && self.completed_at.is_none() {
            self.completed_at = Some(at);
        }
        Ok(())
    }

    fn ensure_monotonic_transition_timestamp(&self, at: LedgerTimestamp) -> (r: Result<
        (),
        JobStatusTransitionError,
    >)
        ensures
            r == (if at.unix_millis < self@.latest_time().unix_millis {
                Err::<(), JobStatusTransitionError>(
                    JobStatusTransitionError::NonMonotonicTimestamp {
                        at,
                        latest: self@.latest_time(),
                    },
                )
            } else {
                Ok(())
            }),
    {
        let latest = later_of(later_of(self.updated_at, self.started_at), self.completed_at);
        if at.unix_millis < latest.unix_millis {
            return Err(JobStatusTransitionError::NonMonotonicTimestamp { at, latest });
        }
        Ok(())
    }
}

#[derive(Debug, Clone, Copy, PartialEq, Eq, Structural)]
pub enum EventSubjectType {
    Repository,
    Job,
    PolicyDecision,
    LockDecision,
    ToolInvocation,
    ToolResult,
    AuditRecord,
}

impl DeepView for EventSubjectType {
    type V = EventSubjectType;

    open spec fn deep_view(&self) -> EventSubjectType {
        *self
    }
}

impl Record for EventSubjectType {
    fn duplicate(&self) -> (r: Self) {
        *self
    }

    fn same(&self, other: &Self) -> (r: bool) {
        *self == *other
    }
}

#[derive(Debug, PartialEq, Eq)]
pub struct EventSubject {
    pub subject_type: EventSubjectType,
    pub subject_id: String,
}

/// What a [`EventSubject`] holds.
pub struct EventSubjectModel {
    pub subject_type: EventSubjectType,
    pub subject_id: Seq<char>,
}

impl DeepView for EventSubject {
    type V = EventSubjectModel;

    open spec fn deep_view(&self) -> EventSubjectModel {
        EventSubjectModel {
            subject_type: self.subject_type.deep_view(),
            subject_id: self.subject_id.deep_view(),
        }
    }
}

impl View for EventSubject {
    type V = EventSubjectModel;

    #[verifier::inline]
    open spec fn view(&self) -> EventSubjectModel {
        self.deep_view()
    }
}

impl Record for EventSubject {
    fn duplicate(&self) -> (r: Self) {
        EventSubject {
            subject_type: self.subject_type.duplicate(),
            subject_id: self.subject_id.duplicate(),
        }
    }

    fn same(&self, other: &Self) -> (r: bool) {
        self.subject_type.same(&other.subject_type)
            && self.subject_id.same(&other.subject_id)
    }
}

impl Clone for EventSubject {
    fn clone(&self) -> (r: Self)
        ensures
            r.deep_view() == self.deep_view(),
    {
        self.duplicate()
    }
}

impl EventSubjectType {
    /// The prefix of the identifiers of this kind of record.
    pub open spec fn prefix(self) -> Seq<char> {
        match self {
            EventSubjectType::Repository => "repo_"@,
            EventSubjectType::Job => "job_"@,
            EventSubjectType::PolicyDecision => "pol_"@,
            EventSubjectType::LockDecision => "lock_"@,
            EventSubjectType::ToolInvocation => "tool_"@,
            EventSubjectType::ToolResult => "res_"@,
            EventSubjectType::AuditRecord => "aud_"@,
        }
    }
}

impl EventSubject {
    pub fn repository(id: &RepositoryId) -> (r: Self)
        ensures
            crate::ids::is_id_text(EventSubjectType::Repository.prefix(), r@.subject_id),
            r@ == (EventSubjectModel {
                subject_type: EventSubjectType::Repository,
                subject_id: id@,
            }),
    {
        EventSubject::new(EventSubjectType::Repository, id.as_str())
    }

    pub fn job(id: &JobId) -> (r: Self)
        ensures
            crate::ids::is_id_text(EventSubjectType::Job.prefix(), r@.subject_id),
            r@ == (EventSubjectModel { subject_type: EventSubjectType::Job, subject_id: id@ }),
    {
        EventSubject::new(EventSubjectType::Job, id.as_str())
    }

    pub fn policy_decision(id: &PolicyDecisionId) -> (r: Self)
        ensures
            crate::ids::is_id_text(EventSubjectType::PolicyDecision.prefix(), r@.subject_id),
            r@ == (EventSubjectModel {
                subject_type: EventSubjectType::PolicyDecision,
                subject_id: id@,
            }),
    {
        EventSubject::new(EventSubjectType::PolicyDecision, id.as_str())
    }

    pub fn lock_decision(id: &LockDecisionId) -> (r: Self)
        ensures
            crate::ids::is_id_text(EventSubjectType::LockDecision.prefix(), r@.subject_id),
            r@ == (EventSubjectModel {
                subject_type: EventSubjectType::LockDecision,
                subject_id: id@,
            }),
    {
        EventSubject::new(EventSubjectType::LockDecision, id.as_str())
    }

    pub fn tool_invocation(id: &ToolInvocationId) -> (r: Self)
        ensures
            crate::ids::is_id_text(EventSubjectType::ToolInvocation.prefix(), r@.subject_id),
            r@ == (EventSubjectModel {
                subject_type: EventSubjectType::ToolInvocation,
                subject_id: id@,
            }),
    {
        EventSubject::new(EventSubjectType::ToolInvocation, id.as_str())
    }

    pub fn tool_result(id: &ToolResultId) -> (r: Self)
        ensures
            crate::ids::is_id_text(EventSubjectType::ToolResult.prefix(), r@.subject_id),
            r@ == (EventSubjectModel {
                subject_type: EventSubjectType::ToolResult,
                subject_id: id@,
            }),
    {
        EventSubject::new(EventSubjectType::ToolResult, id.as_str())
    }

    pub fn audit_record(id: &AuditRecordId) -> (r: Self)
        ensures
            crate::ids::is_id_text(EventSubjectType::AuditRecord.prefix(), r@.subject_id),
            r@ == (EventSubjectModel {
                subject_type: EventSubjectType::AuditRecord,
                subject_id: id@,
            }),
    {
        EventSubject::new(EventSubjectType::AuditRecord, id.as_str())
    }

    fn new(subject_type: EventSubjectType, subject_id: &str) -> (r: Self)
        ensures
            r@ == (EventSubjectModel { subject_type, subject_id: subject_id@ }),
    {
        EventSubject { subject_type, subject_id: subject_id.to_owned() }
    }

    /// Whether the subject's identifier is one of its kind.
    pub fn has_valid_subject_id(&self) -> (r: bool)
        ensures
            r == crate::ids::is_id_text(self.subject_type.prefix(), self@.subject_id),
    {
        let id = self.subject_id.clone();
        match self.subject_type {
            EventSubjectType::Repository => RepositoryId::try_from_string(id).is_ok(),
            EventSubjectType::Job => JobId::try_from_string(id).is_ok(),
            EventSubjectType::PolicyDecision => PolicyDecisionId::try_from_string(id).is_ok(),
            EventSubjectType::LockDecision => LockDecisionId::try_from_string(id).is_ok(),
            EventSubjectType::ToolInvocation => ToolInvocationId::try_from_string(id).is_ok(),
            EventSubjectType::ToolResult => ToolResultId::try_from_string(id).is_ok(),
            EventSubjectType::AuditRecord => AuditRecordId::try_from_string(id).is_ok(),
        }
    }
}

#[derive(Debug, Clone, Copy, PartialEq, Eq, Structural)]
pub enum EventSeverity {
    Debug,
    Info,
    Warning,
    Error,
}

impl DeepView for EventSeverity {
    type V = EventSeverity;

    open spec fn deep_view(&self) -> EventSeverity {
        *self
    }
}

impl Record for EventSeverity {
    fn duplicate(&self) -> (r: Self) {
        *self
    }

    fn same(&self, other: &Self) -> (r: bool) {
        *self == *other
    }
}

#[derive(Debug, Clone, Copy, PartialEq, Eq, Structural)]
pub enum ToolResultStatus {
    Succeeded,
    Failed,
    Canceled,
    TimedOut,
}

impl DeepView for ToolResultStatus {
    type V = ToolResultStatus;

    open spec fn deep_view(&self) -> ToolResultStatus {
        *self
    }
}

impl Record for ToolResultStatus {
    fn duplicate(&self) -> (r: Self) {
        *self
    }

    fn same(&self, other: &Self) -> (r: bool) {
        *self == *other
    }
}

#[derive(Debug, PartialEq, Eq)]
pub enum JobEventKind {
    JobSubmitted,
    JobStatusChanged { from: JobStatus, to: JobStatus },
    PolicyDecided { outcome: PolicyOutcome },
    LockHeld,
    LockReleased,
    LockReclaimed,
    ToolInvoked { tool_id: String },
    ToolResultRecorded { status: ToolResultStatus },
    AuditRecorded,
    CancellationRequested,
    RecoveryActionRecorded,
    Message,
}

/// What a [`JobEventKind`] holds.
pub enum JobEventKindModel {
    JobSubmitted,
    JobStatusChanged { from: JobStatus, to: JobStatus },
    PolicyDecided { outcome: PolicyOutcome },
    LockHeld,
    LockReleased,
    LockReclaimed,
    ToolInvoked { tool_id: Seq<char> },
    ToolResultRecorded { status: ToolResultStatus },
    AuditRecorded,
    CancellationRequested,
    RecoveryActionRecorded,
    Message,
}

impl DeepView for JobEventKind {
    type V = JobEventKindModel;

    open spec fn deep_view(&self) -> JobEventKindModel {
        match self {
            JobEventKind::JobSubmitted => JobEventKindModel::JobSubmitted,
            JobEventKind::JobStatusChanged { from, to } => JobEventKindModel::JobStatusChanged {
                from: from.deep_view(),
                to: to.deep_view(),
            },
            JobEventKind::PolicyDecided { outcome } => JobEventKindModel::PolicyDecided {
                outcome: outcome.deep_view(),
            },
            JobEventKind::LockHeld => JobEventKindModel::LockHeld,
            JobEventKind::LockReleased => JobEventKindModel::LockReleased,
            JobEventKind::LockReclaimed => JobEventKindModel::LockReclaimed,
            JobEventKind::ToolInvoked { tool_id } => JobEventKindModel::ToolInvoked {
                tool_id: tool_id.deep_view(),
            },
            JobEventKind::ToolResultRecorded { status } => JobEventKindModel::ToolResultRecorded {
                status: status.deep_view(),
            },
            JobEventKind::AuditRecorded => JobEventKindModel::AuditRecorded,
            JobEventKind::CancellationRequested => JobEventKindModel::CancellationRequested,
            JobEventKind::RecoveryActionRecorded => JobEventKindModel::RecoveryActionRecorded,
            JobEventKind::Message => JobEventKindModel::Message,
        }
    }
}

impl View for JobEventKind {
    type V = JobEventKindModel;

    #[verifier::inline]
    open spec fn view(&self) -> JobEventKindModel {
        self.deep_view()
    }
}

impl Record for JobEventKind {
    fn duplicate(&self) -> (r: Self) {
        match self {
            JobEventKind::JobSubmitted => JobEventKind::JobSubmitted,
            JobEventKind::JobStatusChanged { from, to } => JobEventKind::JobStatusChanged {
                from: from.duplicate(),
                to: to.duplicate(),
            },
            JobEventKind::PolicyDecided { outcome } => JobEventKind::PolicyDecided {
                outcome: outcome.duplicate(),
            },
            JobEventKind::LockHeld => JobEventKind::LockHeld,
            JobEventKind::LockReleased => JobEventKind::LockReleased,
            JobEventKind::LockReclaimed => JobEventKind::LockReclaimed,
            JobEventKind::ToolInvoked { tool_id } => JobEventKind::ToolInvoked {
                tool_id: tool_id.duplicate(),
            },
            JobEventKind::ToolResultRecorded { status } => JobEventKind::ToolResultRecorded {
                status: status.duplicate(),
            },
            JobEventKind::AuditRecorded => JobEventKind::AuditRecorded,
            JobEventKind::CancellationRequested => JobEventKind::CancellationRequested,
            JobEventKind::RecoveryActionRecorded => JobEventKind::RecoveryActionRecorded,
            JobEventKind::Message => JobEventKind::Message,
        }
    }

    fn same(&self, other: &Self) -> (r: bool) {
        match (self, other) {
            (JobEventKind::JobSubmitted, JobEventKind::JobSubmitted) => true,
            (
                JobEventKind::JobStatusChanged { from: from_a, to: to_a },
                JobEventKind::JobStatusChanged { from: from_b, to: to_b },
            ) => from_a.same(from_b) && to_a.same(to_b),
            (
                JobEventKind::PolicyDecided { outcome: outcome_a },
                JobEventKind::PolicyDecided { outcome: outcome_b },
            ) => outcome_a.same(outcome_b),
            (JobEventKind::LockHeld, JobEventKind::LockHeld) => true,
            (JobEventKind::LockReleased, JobEventKind::LockReleased) => true,
            (JobEventKind::LockReclaimed, JobEventKind::LockReclaimed) => true,
            (
                JobEventKind::ToolInvoked { tool_id: tool_id_a },
                JobEventKind::ToolInvoked { tool_id: tool_id_b },
            ) => tool_id_a.same(tool_id_b),
            (
                JobEventKind::ToolResultRecorded { status: status_a },
                JobEventKind::ToolResultRecorded { status: status_b },
            ) => status_a.same(status_b),
            (JobEventKind::AuditRecorded, JobEventKind::AuditRecorded) => true,
            (JobEventKind::CancellationRequested, JobEventKind::CancellationRequested) => true,
            (JobEventKind::RecoveryActionRecorded, JobEventKind::RecoveryActionRecorded) => true,
            (JobEventKind::Message, JobEventKind::Message) => true,
            _ => false,
        }
    }
}

impl Clone for JobEventKind {
    fn clone(&self) -> (r: Self)
        ensures
            r.deep_view() == self.deep_view(),
    {
        self.duplicate()
    }
}

#[derive(Debug, PartialEq, Eq)]
pub struct EventRefs {
    pub repository_id: Option<RepositoryId>,
    pub job_id: Option<JobId>,
    pub policy_decision_id: Option<PolicyDecisionId>,
    pub lock_decision_id: Option<LockDecisionId>,
    pub tool_invocation_id: Option<ToolInvocationId>,
    pub tool_result_id: Option<ToolResultId>,
    pub audit_record_id: Option<AuditRecordId>,
    pub output_refs: Vec<OutputRef>,
    pub artifact_refs: Vec<ArtifactRef>,
}

/// What a [`EventRefs`] holds.
pub struct EventRefsModel {
    pub repository_id: Option<Seq<char>>,
    pub job_id: Option<Seq<char>>,
    pub policy_decision_id: Option<Seq<char>>,
    pub lock_decision_id: Option<Seq<char>>,
    pub tool_invocation_id: Option<Seq<char>>,
    pub tool_result_id: Option<Seq<char>>,
    pub audit_record_id: Option<Seq<char>>,
    pub output_refs: Seq<OutputRefModel>,
    pub artifact_refs: Seq<ArtifactRefModel>,
}

impl DeepView for EventRefs {
    type V = EventRefsModel;

    open spec fn deep_view(&self) -> EventRefsModel {
        EventRefsModel {
            repository_id: self.repository_id.deep_view(),
            job_id: self.job_id.deep_view(),
            policy_decision_id: self.policy_decision_id.deep_view(),
            lock_decision_id: self.lock_decision_id.deep_view(),
            tool_invocation_id: self.tool_invocation_id.deep_view(),
            tool_result_id: self.tool_result_id.deep_view(),
            audit_record_id: self.audit_record_id.deep_view(),
            output_refs: self.output_refs.deep_view(),
            artifact_refs: self.artifact_refs.deep_view(),
        }
    }
}

impl View for EventRefs {
    type V = EventRefsModel;

    #[verifier::inline]
    open spec fn view(&self) -> EventRefsModel {
        self.deep_view()
    }
}

impl Record for EventRefs {
    fn duplicate(&self) -> (r: Self) {
        EventRefs {
            repository_id: self.repository_id.duplicate(),
            job_id: self.job_id.duplicate(),
            policy_decision_id: self.policy_decision_id.duplicate(),
            lock_decision_id: self.lock_decision_id.duplicate(),
            tool_invocation_id: self.tool_invocation_id.duplicate(),
            tool_result_id: self.tool_result_id.duplicate(),
            audit_record_id: self.audit_record_id.duplicate(),
            output_refs: self.output_refs.duplicate(),
            artifact_refs: self.artifact_refs.duplicate(),
        }
    }

    fn same(&self, other: &Self) -> (r: bool) {
        self.repository_id.same(&other.repository_id)
            && self.job_id.same(&other.job_id)
            && self.policy_decision_id.same(&other.policy_decision_id)
            && self.lock_decision_id.same(&other.lock_decision_id)
            && self.tool_invocation_id.same(&other.tool_invocation_id)
            && self.tool_result_id.same(&other.tool_result_id)
            && self.audit_record_id.same(&other.audit_record_id)
            && self.output_refs.same(&other.output_refs)
            && self.artifact_refs.same(&other.artifact_refs)
    }
}

impl Clone for EventRefs {
    fn clone(&self) -> (r: Self)
        ensures
            r.deep_view() == self.deep_view(),
    {
        self.duplicate()
    }
}

impl EventRefsModel {
    /// References to nothing.
    pub open spec fn none() -> EventRefsModel {
        EventRefsModel {
            repository_id: None,
            job_id: None,
            policy_decision_id: None,
            lock_decision_id: None,
            tool_invocation_id: None,
            tool_result_id: None,
            audit_record_id: None,
            output_refs: Seq::empty(),
            artifact_refs: Seq::empty(),
        }
    }
}

impl Default for EventRefs {
    fn default() -> (r: Self)
        ensures
            r@ == EventRefsModel::none(),
    {
        let output_refs: Vec<OutputRef> = Vec::new();
        let artifact_refs: Vec<ArtifactRef> = Vec::new();
        assert(output_refs.deep_view() =~= Seq::empty());
        assert(artifact_refs.deep_view() =~= Seq::empty());
        EventRefs {
            repository_id: None,
            job_id: None,
            policy_decision_id: None,
            lock_decision_id: None,
            tool_invocation_id: None,
            tool_result_id: None,
            audit_record_id: None,
            output_refs,
            artifact_refs,
        }
    }
}

#[derive(Debug, PartialEq, Eq)]
pub struct JobEvent {
    pub id: JobEventId,
    pub schema_version: u32,
    pub sequence_number: u64,
    pub created_at: LedgerTimestamp,
    pub subject: EventSubject,
    pub kind: JobEventKind,
    pub severity: EventSeverity,
    pub public_message: String,
    pub refs: EventRefs,
    pub redactions: Vec<RedactionMarker>,
}

/// What a [`JobEvent`] holds.
pub struct JobEventModel {
    pub id: Seq<char>,
    pub schema_version: u32,
    pub sequence_number: u64,
    pub created_at: LedgerTimestamp,
    pub subject: EventSubjectModel,
    pub kind: JobEventKindModel,
    pub severity: EventSeverity,
    pub public_message: Seq<char>,
    pub refs: EventRefsModel,
    pub redactions: Seq<RedactionMarkerModel>,
}

impl DeepView for JobEvent {
    type V = JobEventModel;

    open spec fn deep_view(&self) -> JobEventModel {
        JobEventModel {
            id: self.id.deep_view(),
            schema_version: self.schema_version.deep_view(),
            sequence_number: self.sequence_number.deep_view(),
            created_at: self.created_at.deep_view(),
            subject: self.subject.deep_view(),
            kind: self.kind.deep_view(),
            severity: self.severity.deep_view(),
            public_message: self.public_message.deep_view(),
            refs: self.refs.deep_view(),
            redactions: self.redactions.deep_view(),
        }
    }
}

impl View for JobEvent {
    type V = JobEventModel;

    #[verifier::inline]
    open spec fn view(&self) -> JobEventModel {
        self.deep_view()
    }
}

impl Record for JobEvent {
    fn duplicate(&self) -> (r: Self) {
        JobEvent {
            id: self.id.duplicate(),
            schema_version: self.schema_version.duplicate(),
            sequence_number: self.sequence_number.duplicate(),
            created_at: self.created_at.duplicate(),
            subject: self.subject.duplicate(),
            kind: self.kind.duplicate(),
            severity: self.severity.duplicate(),
            public_message: self.public_message.duplicate(),
            refs: self.refs.duplicate(),
            redactions: self.redactions.duplicate(),
        }
    }

    fn same(&self, other: &Self) -> (r: bool) {
        self.id.same(&other.id)
            && self.schema_version.same(&other.schema_version)
            && self.sequence_number.same(&other.sequence_number)
            && self.created_at.same(&other.created_at)
            && self.subject.same(&other.subject)
            && self.kind.same(&other.kind)
            && self.severity.same(&other.severity)
            && self.public_message.same(&other.public_message)
            && self.refs.same(&other.refs)
            && self.redactions.same(&other.redactions)
    }
}

impl Clone for JobEvent {
    fn clone(&self) -> (r: Self)
        ensures
            r.deep_view() == self.deep_view(),
    {
        self.duplicate()
    }
}

#[derive(Debug, PartialEq, Eq)]
pub struct ResourceScope {
    pub kind: String,
    pub value: String,
}

/// What a [`ResourceScope`] holds.
pub struct ResourceScopeModel {
    pub kind: Seq<char>,
    pub value: Seq<char>,
}

impl DeepView for ResourceScope {
    type V = ResourceScopeModel;

    open spec fn deep_view(&self) -> ResourceScopeModel {
        ResourceScopeModel {
            kind: self.kind.deep_view(),
            value: self.value.deep_view(),
        }
    }
}

impl View for ResourceScope {
    type V = ResourceScopeModel;

    #[verifier::inline]
    open spec fn view(&self) -> ResourceScopeModel {
        self.deep_view()
    }
}

impl Record for ResourceScope {
    fn duplicate(&self) -> (r: Self) {
        ResourceScope {
            kind: self.kind.duplicate(),
            value: self.value.duplicate(),
        }
    }

    fn same(&self, other: &Self) -> (r: bool) {
        self.kind.same(&other.kind)
            && self.value.same(&other.value)
    }
}

impl Clone for ResourceScope {
    fn clone(&self) -> (r: Self)
        ensures
            r.deep_view() == self.deep_view(),
    {
        self.duplicate()
    }
}

#[derive(Debug, PartialEq, Eq)]
pub struct PolicyDecision {
    pub id: PolicyDecisionId,
    pub schema_version: u32,
    pub created_at: LedgerTimestamp,
    pub requester: Actor,
    pub repository_id: RepositoryId,
    pub requested_capability: String,
    pub resource_scope: ResourceScope,
    pub tool_id: Option<String>,
    pub provider_id: Option<String>,
    pub declared_effect: String,
    pub current_trust_state: RepositoryTrustState,
    pub approval_available: bool,
    pub policy_version: String,
    pub outcome: PolicyOutcome,
    pub risk_tier: RiskTier,
    pub reason_code: String,
    pub user_reason: String,
    pub approval_request_ref: Option<OutputRef>,
    pub audit_ref: Option<AuditRecordId>,
    pub redactions: Vec<RedactionMarker>,
}

/// What a [`PolicyDecision`] holds.
pub struct PolicyDecisionModel {
    pub id: Seq<char>,
    pub schema_version: u32,
    pub created_at: LedgerTimestamp,
    pub requester: ActorModel,
    pub repository_id: Seq<char>,
    pub requested_capability: Seq<char>,
    pub resource_scope: ResourceScopeModel,
    pub tool_id: Option<Seq<char>>,
    pub provider_id: Option<Seq<char>>,
    pub declared_effect: Seq<char>,
    pub current_trust_state: RepositoryTrustState,
    pub approval_available: bool,
    pub policy_version: Seq<char>,
    pub outcome: PolicyOutcome,
    pub risk_tier: RiskTier,
    pub reason_code: Seq<char>,
    pub user_reason: Seq<char>,
    pub approval_request_ref: Option<OutputRefModel>,
    pub audit_ref: Option<Seq<char>>,
    pub redactions: Seq<RedactionMarkerModel>,
}

impl DeepView for PolicyDecision {
    type V = PolicyDecisionModel;

    open spec fn deep_view(&self) -> PolicyDecisionModel {
        PolicyDecisionModel {
            id: self.id.deep_view(),
            schema_version: self.schema_version.deep_view(),
            created_at: self.created_at.deep_view(),
            requester: self.requester.deep_view(),
            repository_id: self.repository_id.deep_view(),
            requested_capability: self.requested_capability.deep_view(),
            resource_scope: self.resource_scope.deep_view(),
            tool_id: self.tool_id.deep_view(),
            provider_id: self.provider_id.deep_view(),
            declared_effect: self.declared_effect.deep_view(),
            current_trust_state: self.current_trust_state.deep_view(),
            approval_available: self.approval_available.deep_view(),
            policy_version: self.policy_version.deep_view(),
            outcome: self.outcome.deep_view(),
            risk_tier: self.risk_tier.deep_view(),
            reason_code: self.reason_code.deep_view(),
            user_reason: self.user_reason.deep_view(),
            approval_request_ref: self.approval_request_ref.deep_view(),
            audit_ref: self.audit_ref.deep_view(),
            redactions: self.redactions.deep_view(),
        }
    }
}

impl View for PolicyDecision {
    type V = PolicyDecisionModel;

    #[verifier::inline]
    open spec fn view(&self) -> PolicyDecisionModel {
        self.deep_view()
    }
}

impl Record for PolicyDecision {
    fn duplicate(&self) -> (r: Self) {
        PolicyDecision {
            id: self.id.duplicate(),
            schema_version: self.schema_version.duplicate(),
            created_at: self.created_at.duplicate(),
            requester: self.requester.duplicate(),
            repository_id: self.repository_id.duplicate(),
            requested_capability: self.requested_capability.duplicate(),
            resource_scope: self.resource_scope.duplicate(),
            tool_id: self.tool_id.duplicate(),
            provider_id: self.provider_id.duplicate(),
            declared_effect: self.declared_effect.duplicate(),
            current_trust_state: self.current_trust_state.duplicate(),
            approval_available: self.approval_available.duplicate(),
            policy_version: self.policy_version.duplicate(),
            outcome: self.outcome.duplicate(),
            risk_tier: self.risk_tier.duplicate(),
            reason_code: self.reason_code.duplicate(),
            user_reason: self.user_reason.duplicate(),
            approval_request_ref: self.approval_request_ref.duplicate(),
            audit_ref: self.audit_ref.duplicate(),
            redactions: self.redactions.duplicate(),
        }
    }

    fn same(&self, other: &Self) -> (r: bool) {
        self.id.same(&other.id)
            && self.schema_version.same(&other.schema_version)
            && self.created_at.same(&other.created_at)
            && self.requester.same(&other.requester)
            && self.repository_id.same(&other.repository_id)
            && self.requested_capability.same(&other.requested_capability)
            && self.resource_scope.same(&other.resource_scope)
            && self.tool_id.same(&other.tool_id)
            && self.provider_id.same(&other.provider_id)
            && self.declared_effect.same(&other.declared_effect)
            && self.current_trust_state.same(&other.current_trust_state)
            && self.approval_available.same(&other.approval_available)
            && self.policy_version.same(&other.policy_version)
            && self.outcome.same(&other.outcome)
            && self.risk_tier.same(&other.risk_tier)
            && self.reason_code.same(&other.reason_code)
            && self.user_reason.same(&other.user_reason)
            && self.approval_request_ref.same(&other.approval_request_ref)
            && self.audit_ref.same(&other.audit_ref)
            && self.redactions.same(&other.redactions)
    }
}

impl Clone for PolicyDecision {
    fn clone(&self) -> (r: Self)
        ensures
            r.deep_view() == self.deep_view(),
    {
        self.duplicate()
    }
}

#[derive(Debug, PartialEq, Eq, Hash)]
pub enum LockOwner {
    Job(JobId),
    Process { id: String },
    System { id: String },
}

/// What a [`LockOwner`] holds.
pub enum LockOwnerModel {
    Job(Seq<char>),
    Process { id: Seq<char> },
    System { id: Seq<char> },
}

impl DeepView for LockOwner {
    type V = LockOwnerModel;

    open spec fn deep_view(&self) -> LockOwnerModel {
        match self {
            LockOwner::Job(value) => LockOwnerModel::Job(value.deep_view()),
            LockOwner::Process { id } => LockOwnerModel::Process { id: id.deep_view() },
            LockOwner::System { id } => LockOwnerModel::System { id: id.deep_view() },
        }
    }
}

impl View for LockOwner {
    type V = LockOwnerModel;

    #[verifier::inline]
    open spec fn view(&self) -> LockOwnerModel {
        self.deep_view()
    }
}

impl Record for LockOwner {
    fn duplicate(&self) -> (r: Self) {
        match self {
            LockOwner::Job(value) => LockOwner::Job(value.duplicate()),
            LockOwner::Process { id } => LockOwner::Process { id: id.duplicate() },
            LockOwner::System { id } => LockOwner::System { id: id.duplicate() },
        }
    }

    fn same(&self, other: &Self) -> (r: bool) {
        match (self, other) {
            (LockOwner::Job(value_a), LockOwner::Job(value_b)) => value_a.same(value_b),
            (LockOwner::Process { id: id_a }, LockOwner::Process { id: id_b }) => id_a.same(id_b),
            (LockOwner::System { id: id_a }, LockOwner::System { id: id_b }) => id_a.same(id_b),
            _ => false,
        }
    }
}

impl Clone for LockOwner {
    fn clone(&self) -> (r: Self)
        ensures
            r.deep_view() == self.deep_view(),
    {
        self.duplicate()
    }
}

#[derive(Debug, PartialEq, Eq, Hash)]
pub enum LockedScope {
    Repository,
    Path { path: String },
    PathPattern { pattern: String },
}

/// What a [`LockedScope`] holds.
pub enum LockedScopeModel {
    Repository,
    Path { path: Seq<char> },
    PathPattern { pattern: Seq<char> },
}

impl DeepView for LockedScope {
    type V = LockedScopeModel;

    open spec fn deep_view(&self) -> LockedScopeModel {
        match self {
            LockedScope::Repository => LockedScopeModel::Repository,
            LockedScope::Path { path } => LockedScopeModel::Path { path: path.deep_view() },
            LockedScope::PathPattern { pattern } => LockedScopeModel::PathPattern {
                pattern: pattern.deep_view(),
            },
        }
    }
}

impl View for LockedScope {
    type V = LockedScopeModel;

    #[verifier::inline]
    open spec fn view(&self) -> LockedScopeModel {
        self.deep_view()
    }
}

impl Record for LockedScope {
    fn duplicate(&self) -> (r: Self) {
        match self {
            LockedScope::Repository => LockedScope::Repository,
            LockedScope::Path { path } => LockedScope::Path { path: path.duplicate() },
            LockedScope::PathPattern { pattern } => LockedScope::PathPattern {
                pattern: pattern.duplicate(),
            },
        }
    }

    fn same(&self, other: &Self) -> (r: bool) {
        match (self, other) {
            (LockedScope::Repository, LockedScope::Repository) => true,
            (LockedScope::Path { path: path_a }, LockedScope::Path { path: path_b }) => {
                path_a.same(path_b)
            },
            (
                LockedScope::PathPattern { pattern: pattern_a },
                LockedScope::PathPattern { pattern: pattern_b },
            ) => pattern_a.same(pattern_b),
            _ => false,
        }
    }
}

impl Clone for LockedScope {
    fn clone(&self) -> (r: Self)
        ensures
            r.deep_view() == self.deep_view(),
    {
        self.duplicate()
    }
}

#[derive(Debug, Clone, Copy, PartialEq, Eq, Structural)]
pub enum LockStatus {
    Held,
    Released,
    Expired,
    Reclaimed,
}

impl DeepView for LockStatus {
    type V = LockStatus;

    open spec fn deep_view(&self) -> LockStatus {
        *self
    }
}

impl Record for LockStatus {
    fn duplicate(&self) -> (r: Self) {
        *self
    }

    fn same(&self, other: &Self) -> (r: bool) {
        *self == *other
    }
}

#[derive(Debug, PartialEq, Eq)]
pub struct LockDecision {
    pub id: LockDecisionId,
    pub schema_version: u32,
    pub created_at: LedgerTimestamp,
    pub updated_at: LedgerTimestamp,
    pub repository_id: RepositoryId,
    pub policy_decision_id: PolicyDecisionId,
    pub owner: LockOwner,
    pub locked_scope: LockedScope,
    pub locked_at: LedgerTimestamp,
    pub expires_at: LedgerTimestamp,
    pub released_at: Option<LedgerTimestamp>,
    pub reclaimed_at: Option<LedgerTimestamp>,
    pub status: LockStatus,
    pub redactions: Vec<RedactionMarker>,
}

/// What a [`LockDecision`] holds.
pub struct LockDecisionModel {
    pub id: Seq<char>,
    pub schema_version: u32,
    pub created_at: LedgerTimestamp,
    pub updated_at: LedgerTimestamp,
    pub repository_id: Seq<char>,
    pub policy_decision_id: Seq<char>,
    pub owner: LockOwnerModel,
    pub locked_scope: LockedScopeModel,
    pub locked_at: LedgerTimestamp,
    pub expires_at: LedgerTimestamp,
    pub released_at: Option<LedgerTimestamp>,
    pub reclaimed_at: Option<LedgerTimestamp>,
    pub status: LockStatus,
    pub redactions: Seq<RedactionMarkerModel>,
}

impl DeepView for LockDecision {
    type V = LockDecisionModel;

    open spec fn deep_view(&self) -> LockDecisionModel {
        LockDecisionModel {
            id: self.id.deep_view(),
            schema_version: self.schema_version.deep_view(),
            created_at: self.created_at.deep_view(),
            updated_at: self.updated_at.deep_view(),
            repository_id: self.repository_id.deep_view(),
            policy_decision_id: self.policy_decision_id.deep_view(),
            owner: self.owner.deep_view(),
            locked_scope: self.locked_scope.deep_view(),
            locked_at: self.locked_at.deep_view(),
            expires_at: self.expires_at.deep_view(),
            released_at: self.released_at.deep_view(),
            reclaimed_at: self.reclaimed_at.deep_view(),
            status: self.status.deep_view(),
            redactions: self.redactions.deep_view(),
        }
    }
}

impl View for LockDecision {
    type V = LockDecisionModel;

    #[verifier::inline]
    open spec fn view(&self) -> LockDecisionModel {
        self.deep_view()
    }
}

impl Record for LockDecision {
    fn duplicate(&self) -> (r: Self) {
        LockDecision {
            id: self.id.duplicate(),
            schema_version: self.schema_version.duplicate(),
            created_at: self.created_at.duplicate(),
            updated_at: self.updated_at.duplicate(),
            repository_id: self.repository_id.duplicate(),
            policy_decision_id: self.policy_decision_id.duplicate(),
            owner: self.owner.duplicate(),
            locked_scope: self.locked_scope.duplicate(),
            locked_at: self.locked_at.duplicate(),
            expires_at: self.expires_at.duplicate(),
            released_at: self.released_at.duplicate(),
            reclaimed_at: self.reclaimed_at.duplicate(),
            status: self.status.duplicate(),
            redactions: self.redactions.duplicate(),
        }
    }

    fn same(&self, other: &Self) -> (r: bool) {
        self.id.same(&other.id)
            && self.schema_version.same(&other.schema_version)
            && self.created_at.same(&other.created_at)
            && self.updated_at.same(&other.updated_at)
            && self.repository_id.same(&other.repository_id)
            && self.policy_decision_id.same(&other.policy_decision_id)
            && self.owner.same(&other.owner)
            && self.locked_scope.same(&other.locked_scope)
            && self.locked_at.same(&other.locked_at)
            && self.expires_at.same(&other.expires_at)
            && self.released_at.same(&other.released_at)
            && self.reclaimed_at.same(&other.reclaimed_at)
            && self.status.same(&other.status)
            && self.redactions.same(&other.redactions)
    }
}

impl Clone for LockDecision {
    fn clone(&self) -> (r: Self)
        ensures
            r.deep_view() == self.deep_view(),
    {
        self.duplicate()
    }
}

#[derive(Debug, Clone, Copy, PartialEq, Eq, Structural)]
pub enum LockDecisionCreateError {
    NonPositiveDuration { locked_at: LedgerTimestamp, expires_at: LedgerTimestamp },
}

impl DeepView for LockDecisionCreateError {
    type V = LockDecisionCreateError;

    open spec fn deep_view(&self) -> LockDecisionCreateError {
        *self
    }
}

impl Record for LockDecisionCreateError {
    fn duplicate(&self) -> (r: Self) {
        *self
    }

    fn same(&self, other: &Self) -> (r: bool) {
        *self == *other
    }
}

#[derive(Debug, Clone, Copy, PartialEq, Eq, Structural)]
pub enum LockReclaimError {
    OwnerMismatch,
    AlreadyReleased,
    NotExpired { reclaimed_at: LedgerTimestamp, expires_at: LedgerTimestamp },
    NonMonotonicTimestamp { at: LedgerTimestamp, latest: LedgerTimestamp },
}

impl DeepView for LockReclaimError {
    type V = LockReclaimError;

    open spec fn deep_view(&self) -> LockReclaimError {
        *self
    }
}

impl Record for LockReclaimError {
    fn duplicate(&self) -> (r: Self) {
        *self
    }

    fn same(&self, other: &Self) -> (r: bool) {
        *self == *other
    }
}

impl LockDecisionModel {
    /// What an attempt to reclaim the lock gives: whether it was reclaimed by this
    /// attempt, or why it was not.
    pub open spec fn reclaim_result(self, owner: LockOwnerModel, at: LedgerTimestamp) -> Result<
        bool,
        LockReclaimError,
    > {
        if owner != self.owner {
            Err(LockReclaimError::OwnerMismatch)
        } else {
            match self.status {
                LockStatus::Reclaimed => Ok(false),
                LockStatus::Released => Err(LockReclaimError::AlreadyReleased),
                _ => if at.unix_millis < self.updated_at.unix_millis {
                    Err(LockReclaimError::NonMonotonicTimestamp { at, latest: self.updated_at })
                } else if at.unix_millis < self.expires_at.unix_millis {
                    Err(
                        LockReclaimError::NotExpired {
                            reclaimed_at: at,
                            expires_at: self.expires_at,
                        },
                    )
                } else {
                    Ok(true)
                },
            }
        }
    }

    /// The lock after an attempt to reclaim it.
    pub open spec fn after_reclaim(
        self,
        owner: LockOwnerModel,
        at: LedgerTimestamp,
    ) -> LockDecisionModel {
        if self.reclaim_result(owner, at) == Ok::<bool, LockReclaimError>(true) {
            LockDecisionModel {
                status: LockStatus::Reclaimed,
                reclaimed_at: Some(at),
                updated_at: at,
                ..self
            }
        } else {
            self
        }
    }
}

impl LockDecision {
    pub fn new(
        repository_id: RepositoryId,
        policy_decision_id: PolicyDecisionId,
        owner: LockOwner,
        locked_scope: LockedScope,
        locked_at: LedgerTimestamp,
        expires_at: LedgerTimestamp,
    ) -> (r: Result<Self, LockDecisionCreateError>)
        ensures
            match r {
                Ok(lock) => {
                    &&& expires_at.unix_millis > locked_at.unix_millis
                    &&& crate::ids::is_id_text("lock_"@, lock@.id)
                    &&& lock@ == (LockDecisionModel {
                        id: lock@.id,
                        schema_version: DOMAIN_SCHEMA_VERSION,
                        created_at: locked_at,
                        updated_at: locked_at,
                        repository_id: repository_id@,
                        policy_decision_id: policy_decision_id@,
                        owner: owner@,
                        locked_scope: locked_scope@,
                        locked_at,
                        expires_at,
                        released_at: None,
                        reclaimed_at: None,
                        status: LockStatus::Held,
                        redactions: Seq::empty(),
                    })
                },
                Err(error) => {
                    &&& expires_at.unix_millis <= locked_at.unix_millis
                    &&& error == (LockDecisionCreateError::NonPositiveDuration {
                        locked_at,
                        expires_at,
                    })
                },
            },
    {
        if expires_at.unix_millis <= locked_at.unix_millis {
            return Err(LockDecisionCreateError::NonPositiveDuration { locked_at, expires_at });
        }
        let redactions: Vec<RedactionMarker> = Vec::new();
        assert(redactions.deep_view() =~= Seq::empty());
        Ok(
            LockDecision {
                id: LockDecisionId::new(),
                schema_version: DOMAIN_SCHEMA_VERSION,
                created_at: locked_at,
                updated_at: locked_at,
                repository_id,
                policy_decision_id,
                owner,
                locked_scope,
                locked_at,
                expires_at,
                released_at: None,
                reclaimed_at: None,
                status: LockStatus::Held,
                redactions,
            },
        )
    }

    /// Take the lock back for its owner once it has expired: `Ok(true)` where this call
    /// did so, `Ok(false)` where it had been done before.
    pub fn reclaim(&mut self, owner: &LockOwner, reclaimed_at: LedgerTimestamp) -> (r: Result<
        bool,
        LockReclaimError,
    >)
        ensures
            r == old(self)@.reclaim_result(owner@, reclaimed_at),
            final(self)@ == old(self)@.after_reclaim(owner@, reclaimed_at),
    {
        if !owner.same(&self.owner) {
            return Err(LockReclaimError::OwnerMismatch);
        }
        match self.status {
            LockStatus::Reclaimed => Ok(false),
            LockStatus::Released => Err(LockReclaimError::AlreadyReleased),
            LockStatus::Held | LockStatus::Expired => {
                match self.ensure_monotonic_reclaim_timestamp(reclaimed_at) {
                    Ok(()) => {},
                    Err(error) => {
                        return Err(error);
                    },
                }
                if reclaimed_at.unix_millis < self.expires_at.unix_millis {
                    return Err(
                        LockReclaimError::NotExpired { reclaimed_at, expires_at: self.expires_at },
                    );
                }
                self.status = LockStatus::Reclaimed;
                self.reclaimed_at = Some(reclaimed_at);
                self.updated_at = reclaimed_at;
                Ok(true)
            },
        }
    }

    fn ensure_monotonic_reclaim_timestamp(&self, reclaimed_at: LedgerTimestamp) -> (r: Result<
        (),
        LockReclaimError,
    >)
        ensures
            r == (if reclaimed_at.unix_millis < self.updated_at.unix_millis {
                Err::<(), LockReclaimError>(
                    LockReclaimError::NonMonotonicTimestamp {
                        at: reclaimed_at,
                        latest: self.updated_at,
                    },
                )
            } else {
                Ok(())
            }),
    {
        if reclaimed_at.unix_millis < self.updated_at.unix_millis {
            return Err(
                LockReclaimError::NonMonotonicTimestamp {
                    at: reclaimed_at,
                    latest: self.updated_at,
                },
            );
        }
        Ok(())
    }
}

#[derive(Debug, PartialEq, Eq)]
pub struct ResolvedPath {
    pub requested_path: String,
    pub resolved_path: String,
    pub display_path: String,
}

/// What a [`ResolvedPath`] holds.
pub struct ResolvedPathModel {
    pub requested_path: Seq<char>,
    pub resolved_path: Seq<char>,
    pub display_path: Seq<char>,
}

impl DeepView for ResolvedPath {
    type V = ResolvedPathModel;

    open spec fn deep_view(&self) -> ResolvedPathModel {
        ResolvedPathModel {
            requested_path: self.requested_path.deep_view(),
            resolved_path: self.resolved_path.deep_view(),
            display_path: self.display_path.deep_view(),
        }
    }
}

impl View for ResolvedPath {
    type V = ResolvedPathModel;

    #[verifier::inline]
    open spec fn view(&self) -> ResolvedPathModel {
        self.deep_view()
    }
}

impl Record for ResolvedPath {
    fn duplicate(&self) -> (r: Self) {
        ResolvedPath {
            requested_path: self.requested_path.duplicate(),
            resolved_path: self.resolved_path.duplicate(),
            display_path: self.display_path.duplicate(),
        }
    }

    fn same(&self, other: &Self) -> (r: bool) {
        self.requested_path.same(&other.requested_path)
            && self.resolved_path.same(&other.resolved_path)
            && self.display_path.same(&other.display_path)
    }
}

impl Clone for ResolvedPath {
    fn clone(&self) -> (r: Self)
        ensures
            r.deep_view() == self.deep_view(),
    {
        self.duplicate()
    }
}

#[derive(Debug, PartialEq, Eq)]
pub struct ToolInvocation {
    pub id: ToolInvocationId,
    pub schema_version: u32,
    pub created_at: LedgerTimestamp,
    pub job_id: JobId,
    pub repository_id: RepositoryId,
    pub policy_decision_id: PolicyDecisionId,
    pub actor: Actor,
    pub tool_id: String,
    pub requested_capability: String,
    pub args_summary: String,
    pub resolved_paths: Vec<ResolvedPath>,
    pub timeout_millis: Option<u64>,
    pub redactions: Vec<RedactionMarker>,
}

/// What a [`ToolInvocation`] holds.
pub struct ToolInvocationModel {
    pub id: Seq<char>,
    pub schema_version: u32,
    pub created_at: LedgerTimestamp,
    pub job_id: Seq<char>,
    pub repository_id: Seq<char>,
    pub policy_decision_id: Seq<char>,
    pub actor: ActorModel,
    pub tool_id: Seq<char>,
    pub requested_capability: Seq<char>,
    pub args_summary: Seq<char>,
    pub resolved_paths: Seq<ResolvedPathModel>,
    pub timeout_millis: Option<u64>,
    pub redactions: Seq<RedactionMarkerModel>,
}

impl DeepView for ToolInvocation {
    type V = ToolInvocationModel;

    open spec fn deep_view(&self) -> ToolInvocationModel {
        ToolInvocationModel {
            id: self.id.deep_view(),
            schema_version: self.schema_version.deep_view(),
            created_at: self.created_at.deep_view(),
            job_id: self.job_id.deep_view(),
            repository_id: self.repository_id.deep_view(),
            policy_decision_id: self.policy_decision_id.deep_view(),
            actor: self.actor.deep_view(),
            tool_id: self.tool_id.deep_view(),
            requested_capability: self.requested_capability.deep_view(),
            args_summary: self.args_summary.deep_view(),
            resolved_paths: self.resolved_paths.deep_view(),
            timeout_millis: self.timeout_millis.deep_view(),
            redactions: self.redactions.deep_view(),
        }
    }
}

impl View for ToolInvocation {
    type V = ToolInvocationModel;

    #[verifier::inline]
    open spec fn view(&self) -> ToolInvocationModel {
        self.deep_view()
    }
}

impl Record for ToolInvocation {
    fn duplicate(&self) -> (r: Self) {
        ToolInvocation {
            id: self.id.duplicate(),
            schema_version: self.schema_version.duplicate(),
            created_at: self.created_at.duplicate(),
            job_id: self.job_id.duplicate(),
            repository_id: self.repository_id.duplicate(),
            policy_decision_id: self.policy_decision_id.duplicate(),
            actor: self.actor.duplicate(),
            tool_id: self.tool_id.duplicate(),
            requested_capability: self.requested_capability.duplicate(),
            args_summary: self.args_summary.duplicate(),
            resolved_paths: self.resolved_paths.duplicate(),
            timeout_millis: self.timeout_millis.duplicate(),
            redactions: self.redactions.duplicate(),
        }
    }

    fn same(&self, other: &Self) -> (r: bool) {
        self.id.same(&other.id)
            && self.schema_version.same(&other.schema_version)
            && self.created_at.same(&other.created_at)
            && self.job_id.same(&other.job_id)
            && self.repository_id.same(&other.repository_id)
            && self.policy_decision_id.same(&other.policy_decision_id)
            && self.actor.same(&other.actor)
            && self.tool_id.same(&other.tool_id)
            && self.requested_capability.same(&other.requested_capability)
            && self.args_summary.same(&other.args_summary)
            && self.resolved_paths.same(&other.resolved_paths)
            && self.timeout_millis.same(&other.timeout_millis)
            && self.redactions.same(&other.redactions)
    }
}

impl Clone for ToolInvocation {
    fn clone(&self) -> (r: Self)
        ensures
            r.deep_view() == self.deep_view(),
    {
        self.duplicate()
    }
}

#[derive(Debug, PartialEq, Eq)]
pub enum StructuredValue {
    Null,
    Bool(bool),
    Integer(i64),
    String(String),
    StringList(Vec<String>),
}

/// What a [`StructuredValue`] holds.
pub enum StructuredValueModel {
    Null,
    Bool(bool),
    Integer(i64),
    String(Seq<char>),
    StringList(Seq<Seq<char>>),
}

impl DeepView for StructuredValue {
    type V = StructuredValueModel;

    open spec fn deep_view(&self) -> StructuredValueModel {
        match self {
            StructuredValue::Null => StructuredValueModel::Null,
            StructuredValue::Bool(value) => StructuredValueModel::Bool(value.deep_view()),
            StructuredValue::Integer(value) => StructuredValueModel::Integer(value.deep_view()),
            StructuredValue::String(value) => StructuredValueModel::String(value.deep_view()),
            StructuredValue::StringList(value) => {
                StructuredValueModel::StringList(value.deep_view())
            },
        }
    }
}

impl View for StructuredValue {
    type V = StructuredValueModel;

    #[verifier::inline]
    open spec fn view(&self) -> StructuredValueModel {
        self.deep_view()
    }
}

impl Record for StructuredValue {
    fn duplicate(&self) -> (r: Self) {
        match self {
            StructuredValue::Null => StructuredValue::Null,
            StructuredValue::Bool(value) => StructuredValue::Bool(value.duplicate()),
            StructuredValue::Integer(value) => StructuredValue::Integer(value.duplicate()),
            StructuredValue::String(value) => StructuredValue::String(value.duplicate()),
            StructuredValue::StringList(value) => StructuredValue::StringList(value.duplicate()),
        }
    }

    fn same(&self, other: &Self) -> (r: bool) {
        match (self, other) {
            (StructuredValue::Null, StructuredValue::Null) => true,
            (StructuredValue::Bool(value_a), StructuredValue::Bool(value_b)) => {
                value_a.same(value_b)
            },
            (StructuredValue::Integer(value_a), StructuredValue::Integer(value_b)) => {
                value_a.same(value_b)
            },
            (StructuredValue::String(value_a), StructuredValue::String(value_b)) => {
                value_a.same(value_b)
            },
            (StructuredValue::StringList(value_a), StructuredValue::StringList(value_b)) => {
                value_a.same(value_b)
            },
            _ => false,
        }
    }
}

impl Clone for StructuredValue {
    fn clone(&self) -> (r: Self)
        ensures
            r.deep_view() == self.deep_view(),
    {
        self.duplicate()
    }
}

#[derive(Debug, PartialEq, Eq)]
pub struct ToolResultField {
    pub key: String,
    pub value: StructuredValue,
}

/// What a [`ToolResultField`] holds.
pub struct ToolResultFieldModel {
    pub key: Seq<char>,
    pub value: StructuredValueModel,
}

impl DeepView for ToolResultField {
    type V = ToolResultFieldModel;

    open spec fn deep_view(&self) -> ToolResultFieldModel {
        ToolResultFieldModel {
            key: self.key.deep_view(),
            value: self.value.deep_view(),
        }
    }
}

impl View for ToolResultField {
    type V = ToolResultFieldModel;

    #[verifier::inline]
    open spec fn view(&self) -> ToolResultFieldModel {
        self.deep_view()
    }
}

impl Record for ToolResultField {
    fn duplicate(&self) -> (r: Self) {
        ToolResultField {
            key: self.key.duplicate(),
            value: self.value.duplicate(),
        }
    }

    fn same(&self, other: &Self) -> (r: bool) {
        self.key.same(&other.key)
            && self.value.same(&other.value)
    }
}

impl Clone for ToolResultField {
    fn clone(&self) -> (r: Self)
        ensures
            r.deep_view() == self.deep_view(),
    {
        self.duplicate()
    }
}

#[derive(Debug, PartialEq, Eq)]
pub struct ToolResult {
    pub id: ToolResultId,
    pub schema_version: u32,
    pub created_at: LedgerTimestamp,
    pub invocation_id: ToolInvocationId,
    pub tool_id: String,
    pub status: ToolResultStatus,
    pub schema_ref: Option<String>,
    pub fields: Vec<ToolResultField>,
    pub evidence_refs: Vec<ArtifactRef>,
    pub output_refs: Vec<OutputRef>,
    pub truncation: Option<TruncationMetadata>,
    pub redactions: Vec<RedactionMarker>,
}

/// What a [`ToolResult`] holds.
pub struct ToolResultModel {
    pub id: Seq<char>,
    pub schema_version: u32,
    pub created_at: LedgerTimestamp,
    pub invocation_id: Seq<char>,
    pub tool_id: Seq<char>,
    pub status: ToolResultStatus,
    pub schema_ref: Option<Seq<char>>,
    pub fields: Seq<ToolResultFieldModel>,
    pub evidence_refs: Seq<ArtifactRefModel>,
    pub output_refs: Seq<OutputRefModel>,
    pub truncation: Option<TruncationMetadataModel>,
    pub redactions: Seq<RedactionMarkerModel>,
}

impl DeepView for ToolResult {
    type V = ToolResultModel;

    open spec fn deep_view(&self) -> ToolResultModel {
        ToolResultModel {
            id: self.id.deep_view(),
            schema_version: self.schema_version.deep_view(),
            created_at: self.created_at.deep_view(),
            invocation_id: self.invocation_id.deep_view(),
            tool_id: self.tool_id.deep_view(),
            status: self.status.deep_view(),
            schema_ref: self.schema_ref.deep_view(),
            fields: self.fields.deep_view(),
            evidence_refs: self.evidence_refs.deep_view(),
            output_refs: self.output_refs.deep_view(),
            truncation: self.truncation.deep_view(),
            redactions: self.redactions.deep_view(),
        }
    }
}

impl View for ToolResult {
    type V = ToolResultModel;

    #[verifier::inline]
    open spec fn view(&self) -> ToolResultModel {
        self.deep_view()
    }
}

impl Record for ToolResult {
    fn duplicate(&self) -> (r: Self) {
        ToolResult {
            id: self.id.duplicate(),
            schema_version: self.schema_version.duplicate(),
            created_at: self.created_at.duplicate(),
            invocation_id: self.invocation_id.duplicate(),
            tool_id: self.tool_id.duplicate(),
            status: self.status.duplicate(),
            schema_ref: self.schema_ref.duplicate(),
            fields: self.fields.duplicate(),
            evidence_refs: self.evidence_refs.duplicate(),
            output_refs: self.output_refs.duplicate(),
            truncation: self.truncation.duplicate(),
            redactions: self.redactions.duplicate(),
        }
    }

    fn same(&self, other: &Self) -> (r: bool) {
        self.id.same(&other.id)
            && self.schema_version.same(&other.schema_version)
            && self.created_at.same(&other.created_at)
            && self.invocation_id.same(&other.invocation_id)
            && self.tool_id.same(&other.tool_id)
            && self.status.same(&other.status)
            && self.schema_ref.same(&other.schema_ref)
            && self.fields.same(&other.fields)
            && self.evidence_refs.same(&other.evidence_refs)
            && self.output_refs.same(&other.output_refs)
            && self.truncation.same(&other.truncation)
            && self.redactions.same(&other.redactions)
    }
}

impl Clone for ToolResult {
    fn clone(&self) -> (r: Self)
        ensures
            r.deep_view() == self.deep_view(),
    {
        self.duplicate()
    }
}

#[derive(Debug, PartialEq, Eq)]
pub struct AuditRecord {
    pub id: AuditRecordId,
    pub schema_version: u32,
    pub created_at: LedgerTimestamp,
    pub actor: Actor,
    pub repository_id: RepositoryId,
    pub requested_capability: String,
    pub policy_decision_id: PolicyDecisionId,
    pub tool_invocation_id: Option<ToolInvocationId>,
    pub effect_summary: String,
    pub output_refs: Vec<OutputRef>,
    pub redactions: Vec<RedactionMarker>,
}

/// What a [`AuditRecord`] holds.
pub struct AuditRecordModel {
    pub id: Seq<char>,
    pub schema_version: u32,
    pub created_at: LedgerTimestamp,
    pub actor: ActorModel,
    pub repository_id: Seq<char>,
    pub requested_capability: Seq<char>,
    pub policy_decision_id: Seq<char>,
    pub tool_invocation_id: Option<Seq<char>>,
    pub effect_summary: Seq<char>,
    pub output_refs: Seq<OutputRefModel>,
    pub redactions: Seq<RedactionMarkerModel>,
}

impl DeepView for AuditRecord {
    type V = AuditRecordModel;

    open spec fn deep_view(&self) -> AuditRecordModel {
        AuditRecordModel {
            id: self.id.deep_view(),
            schema_version: self.schema_version.deep_view(),
            created_at: self.created_at.deep_view(),
            actor: self.actor.deep_view(),
            repository_id: self.repository_id.deep_view(),
            requested_capability: self.requested_capability.deep_view(),
            policy_decision_id: self.policy_decision_id.deep_view(),
            tool_invocation_id: self.tool_invocation_id.deep_view(),
            effect_summary: self.effect_summary.deep_view(),
            output_refs: self.output_refs.deep_view(),
            redactions: self.redactions.deep_view(),
        }
    }
}

impl View for AuditRecord {
    type V = AuditRecordModel;

    #[verifier::inline]
    open spec fn view(&self) -> AuditRecordModel {
        self.deep_view()
    }
}

impl Record for AuditRecord {
    fn duplicate(&self) -> (r: Self) {
        AuditRecord {
            id: self.id.duplicate(),
            schema_version: self.schema_version.duplicate(),
            created_at: self.created_at.duplicate(),
            actor: self.actor.duplicate(),
            repository_id: self.repository_id.duplicate(),
            requested_capability: self.requested_capability.duplicate(),
            policy_decision_id: self.policy_decision_id.duplicate(),
            tool_invocation_id: self.tool_invocation_id.duplicate(),
            effect_summary: self.effect_summary.duplicate(),
            output_refs: self.output_refs.duplicate(),
            redactions: self.redactions.duplicate(),
        }
    }

    fn same(&self, other: &Self) -> (r: bool) {
        self.id.same(&other.id)
            && self.schema_version.same(&other.schema_version)
            && self.created_at.same(&other.created_at)
            && self.actor.same(&other.actor)
            && self.repository_id.same(&other.repository_id)
            && self.requested_capability.same(&other.requested_capability)
            && self.policy_decision_id.same(&other.policy_decision_id)
            && self.tool_invocation_id.same(&other.tool_invocation_id)
            && self.effect_summary.same(&other.effect_summary)
            && self.output_refs.same(&other.output_refs)
            && self.redactions.same(&other.redactions)
    }
}

impl Clone for AuditRecord {
    fn clone(&self) -> (r: Self)
        ensures
            r.deep_view() == self.deep_view(),
    {
        self.duplicate()
    }
}

#[derive(Debug, Clone, Copy, PartialEq, Eq, Structural)]
pub enum SchemaMigrationStatus {
    Applied,
    Failed,
}

impl DeepView for SchemaMigrationStatus {
    type V = SchemaMigrationStatus;

    open spec fn deep_view(&self) -> SchemaMigrationStatus {
        *self
    }
}

impl Record for SchemaMigrationStatus {
    fn duplicate(&self) -> (r: Self) {
        *self
    }

    fn same(&self, other: &Self) -> (r: bool) {
        *self == *other
    }
}

#[derive(Debug, PartialEq, Eq)]
pub struct SchemaMigrationRecord {
    pub id: SchemaMigrationId,
    pub schema_version: u32,
    pub created_at: LedgerTimestamp,
    pub updated_at: LedgerTimestamp,
    pub migration_name: String,
    pub migration_version: u32,
    pub status: SchemaMigrationStatus,
    pub leader_id: Option<String>,
    pub notes: Option<String>,
    pub redactions: Vec<RedactionMarker>,
}

/// What a [`SchemaMigrationRecord`] holds.
pub struct SchemaMigrationRecordModel {
    pub id: Seq<char>,
    pub schema_version: u32,
    pub created_at: LedgerTimestamp,
    pub updated_at: LedgerTimestamp,
    pub migration_name: Seq<char>,
    pub migration_version: u32,
    pub status: SchemaMigrationStatus,
    pub leader_id: Option<Seq<char>>,
    pub notes: Option<Seq<char>>,
    pub redactions: Seq<RedactionMarkerModel>,
}

impl DeepView for SchemaMigrationRecord {
    type V = SchemaMigrationRecordModel;

    open spec fn deep_view(&self) -> SchemaMigrationRecordModel {
        SchemaMigrationRecordModel {
            id: self.id.deep_view(),
            schema_version: self.schema_version.deep_view(),
            created_at: self.created_at.deep_view(),
            updated_at: self.updated_at.deep_view(),
            migration_name: self.migration_name.deep_view(),
            migration_version: self.migration_version.deep_view(),
            status: self.status.deep_view(),
            leader_id: self.leader_id.deep_view(),
            notes: self.notes.deep_view(),
            redactions: self.redactions.deep_view(),
        }
    }
}

impl View for SchemaMigrationRecord {
    type V = SchemaMigrationRecordModel;

    #[verifier::inline]
    open spec fn view(&self) -> SchemaMigrationRecordModel {
        self.deep_view()
    }
}

impl Record for SchemaMigrationRecord {
    fn duplicate(&self) -> (r: Self) {
        SchemaMigrationRecord {
            id: self.id.duplicate(),
            schema_version: self.schema_version.duplicate(),
            created_at: self.created_at.duplicate(),
            updated_at: self.updated_at.duplicate(),
            migration_name: self.migration_name.duplicate(),
            migration_version: self.migration_version.duplicate(),
            status: self.status.duplicate(),
            leader_id: self.leader_id.duplicate(),
            notes: self.notes.duplicate(),
            redactions: self.redactions.duplicate(),
        }
    }

    fn same(&self, other: &Self) -> (r: bool) {
        self.id.same(&other.id)
            && self.schema_version.same(&other.schema_version)
            && self.created_at.same(&other.created_at)
            && self.updated_at.same(&other.updated_at)
            && self.migration_name.same(&other.migration_name)
            && self.migration_version.same(&other.migration_version)
            && self.status.same(&other.status)
            && self.leader_id.same(&other.leader_id)
            && self.notes.same(&other.notes)
            && self.redactions.same(&other.redactions)
    }
}

impl Clone for SchemaMigrationRecord {
    fn clone(&self) -> (r: Self)
        ensures
            r.deep_view() == self.deep_view(),
    {
        self.duplicate()
    }
}

/// A terminal status is final: the only move it allows is to itself.
pub proof fn law_terminal_status_is_final(status: JobStatus, next: JobStatus)
    requires
        status.terminal(),
        status.allows(next),
    ensures
        next == status,
{
}

/// No chain of moves leads back to the queue, nor from the end of a job to running.
pub proof fn law_moves_lead_forward(from: JobStatus, to: JobStatus)
    requires
        from.allows(to),
        from != to,
    ensures
        to != JobStatus::Queued,
        to == JobStatus::Running ==> from == JobStatus::Queued,
{
}

/// Time never runs backwards in a job record: an accepted move happens no earlier than
/// anything the record speaks of, and becomes the last thing it speaks of.
pub proof fn law_moves_follow_time(job: JobRecordModel, next: JobStatus, at: LedgerTimestamp)
    requires
        job.refusal(next, at) is None,
    ensures
        job.latest_time().unix_millis <= at.unix_millis,
        job.moved_to(next, at).latest_time() == at,
{
}

/// The times at which a job first ran and first ended are set once and then kept.
pub proof fn law_first_times_are_kept(job: JobRecordModel, next: JobStatus, at: LedgerTimestamp)
    ensures
        job.started_at is Some ==> job.moved_to(next, at).started_at == job.started_at,
        job.completed_at is Some ==> job.moved_to(next, at).completed_at == job.completed_at,
        next.terminal() ==> job.moved_to(next, at).completed_at is Some,
        next is Running ==> job.moved_to(next, at).started_at is Some,
{
}

/// Reclaiming a lock is idempotent: once an attempt has succeeded, a further attempt by
/// the owner, at any time, succeeds without changing anything.
pub proof fn law_reclaim_is_idempotent(
    lock: LockDecisionModel,
    owner: LockOwnerModel,
    first: LedgerTimestamp,
    second: LedgerTimestamp,
)
    requires
        lock.reclaim_result(owner, first) is Ok,
    ensures
        ({
            let after = lock.after_reclaim(owner, first);
            &&& after.reclaim_result(owner, second) == Ok::<bool, LockReclaimError>(false)
            &&& after.after_reclaim(owner, second) == after
        }),
{
}

/// A lock is never reclaimed before it expires, nor for anyone but its owner.
pub proof fn law_reclaim_waits_for_expiry(
    lock: LockDecisionModel,
    owner: LockOwnerModel,
    at: LedgerTimestamp,
)
    requires
        lock.reclaim_result(owner, at) == Ok::<bool, LockReclaimError>(true),
    ensures
        owner == lock.owner,
        lock.expires_at.unix_millis <= at.unix_millis,
        lock.status is Held || lock.status is Expired,
{
}

} // verus!
