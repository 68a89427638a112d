//! Artifacts of tool outputs: how they are named and indexed, and how they expire. The
//! files themselves are the host's.
use vstd::prelude::*;

use crate::checks;
use crate::domain::{LedgerTimestamp, OutputRef, OutputRefModel};
use crate::ids::OutputRefId;
use crate::record::Record;
use crate::text::{ascii_alphanumeric, chars_of, comes_before, same_text, starts_with, text_of};

verus! {

pub const DEFAULT_ARTIFACT_INDEX_FILE: &'static str = "index.json";

pub const ARTIFACT_FILE_SUFFIX: &'static str = ".artifact";

/// Where a host keeps artifacts.
#[derive(Debug, PartialEq, Eq)]
pub struct ArtifactStoreConfig {
    pub root_dir: String,
}

/// What a [`ArtifactStoreConfig`] holds.
pub struct ArtifactStoreConfigModel {
    pub root_dir: Seq<char>,
}

impl DeepView for ArtifactStoreConfig {
    type V = ArtifactStoreConfigModel;

    open spec fn deep_view(&self) -> ArtifactStoreConfigModel {
        ArtifactStoreConfigModel {
            root_dir: self.root_dir.deep_view(),
        }
    }
}

impl View for ArtifactStoreConfig {
    type V = ArtifactStoreConfigModel;

    #[verifier::inline]
    open spec fn view(&self) -> ArtifactStoreConfigModel {
        self.deep_view()
    }
}

impl Record for ArtifactStoreConfig {
    fn duplicate(&self) -> (r: Self) {
        ArtifactStoreConfig {
            root_dir: self.root_dir.duplicate(),
        }
    }

    fn same(&self, other: &Self) -> (r: bool) {
        self.root_dir.same(&other.root_dir)
    }
}

impl Clone for ArtifactStoreConfig {
    fn clone(&self) -> (r: Self)
        ensures
            r.deep_view() == self.deep_view(),
    {
        self.duplicate()
    }
}

impl ArtifactStoreConfig {
    pub fn new(root_dir: String) -> (r: Self)
        ensures
            r@ == (ArtifactStoreConfigModel { root_dir: root_dir@ }),
    {
        ArtifactStoreConfig { root_dir }
    }
}

#[derive(Debug, PartialEq, Eq)]
pub struct ArtifactTombstone {
    pub at: LedgerTimestamp,
    pub reason: String,
}

/// What a [`ArtifactTombstone`] holds.
pub struct ArtifactTombstoneModel {
    pub at: LedgerTimestamp,
    pub reason: Seq<char>,
}

impl DeepView for ArtifactTombstone {
    type V = ArtifactTombstoneModel;

    open spec fn deep_view(&self) -> ArtifactTombstoneModel {
        ArtifactTombstoneModel {
            at: self.at.deep_view(),
            reason: self.reason.deep_view(),
        }
    }
}

impl View for ArtifactTombstone {
    type V = ArtifactTombstoneModel;

    #[verifier::inline]
    open spec fn view(&self) -> ArtifactTombstoneModel {
        self.deep_view()
    }
}

impl Record for ArtifactTombstone {
    fn duplicate(&self) -> (r: Self) {
        ArtifactTombstone {
            at: self.at.duplicate(),
            reason: self.reason.duplicate(),
        }
    }

    fn same(&self, other: &Self) -> (r: bool) {
        self.at.same(&other.at)
            && self.reason.same(&other.reason)
    }
}

impl Clone for ArtifactTombstone {
    fn clone(&self) -> (r: Self)
        ensures
            r.deep_view() == self.deep_view(),
    {
        self.duplicate()
    }
}

/// What the index of a scope says of an artifact.
#[derive(Debug, PartialEq, Eq)]
pub struct LocalArtifactRecord {
    pub id: OutputRefId,
    pub scope: String,
    pub project_id: Option<String>,
    pub repository_id: Option<String>,
    pub path: String,
    pub uri: String,
    pub media_type: String,
    pub label: Option<String>,
    pub created_at: LedgerTimestamp,
    pub original_bytes: Option<u64>,
    pub retained_bytes: Option<u64>,
    pub tombstone: Option<ArtifactTombstone>,
}

/// What a [`LocalArtifactRecord`] holds.
pub struct LocalArtifactRecordModel {
    pub id: Seq<char>,
    pub scope: Seq<char>,
    pub project_id: Option<Seq<char>>,
    pub repository_id: Option<Seq<char>>,
    pub path: Seq<char>,
    pub uri: Seq<char>,
    pub media_type: Seq<char>,
    pub label: Option<Seq<char>>,
    pub created_at: LedgerTimestamp,
    pub original_bytes: Option<u64>,
    pub retained_bytes: Option<u64>,
    pub tombstone: Option<ArtifactTombstoneModel>,
}

impl DeepView for LocalArtifactRecord {
    type V = LocalArtifactRecordModel;

    open spec fn deep_view(&self) -> LocalArtifactRecordModel {
        LocalArtifactRecordModel {
            id: self.id.deep_view(),
            scope: self.scope.deep_view(),
            project_id: self.project_id.deep_view(),
            repository_id: self.repository_id.deep_view(),
            path: self.path.deep_view(),
            uri: self.uri.deep_view(),
            media_type: self.media_type.deep_view(),
            label: self.label.deep_view(),
            created_at: self.created_at.deep_view(),
            original_bytes: self.original_bytes.deep_view(),
            retained_bytes: self.retained_bytes.deep_view(),
            tombstone: self.tombstone.deep_view(),
        }
    }
}

impl View for LocalArtifactRecord {
    type V = LocalArtifactRecordModel;

    #[verifier::inline]
    open spec fn view(&self) -> LocalArtifactRecordModel {
        self.deep_view()
    }
}

impl Record for LocalArtifactRecord {
    fn duplicate(&self) -> (r: Self) {
        LocalArtifactRecord {
            id: self.id.duplicate(),
            scope: self.scope.duplicate(),
            project_id: self.project_id.duplicate(),
            repository_id: self.repository_id.duplicate(),
            path: self.path.duplicate(),
            uri: self.uri.duplicate(),
            media_type: self.media_type.duplicate(),
            label: self.label.duplicate(),
            created_at: self.created_at.duplicate(),
            original_bytes: self.original_bytes.duplicate(),
            retained_bytes: self.retained_bytes.duplicate(),
            tombstone: self.tombstone.duplicate(),
        }
    }

    fn same(&self, other: &Self) -> (r: bool) {
        self.id.same(&other.id)
            && self.scope.same(&other.scope)
            && self.project_id.same(&other.project_id)
            && self.repository_id.same(&other.repository_id)
            && self.path.same(&other.path)
            && self.uri.same(&other.uri)
            && self.media_type.same(&other.media_type)
            && self.label.same(&other.label)
            && self.created_at.same(&other.created_at)
            && self.original_bytes.same(&other.original_bytes)
            && self.retained_bytes.same(&other.retained_bytes)
            && self.tombstone.same(&other.tombstone)
    }
}

impl Clone for LocalArtifactRecord {
    fn clone(&self) -> (r: Self)
        ensures
            r.deep_view() == self.deep_view(),
    {
        self.duplicate()
    }
}

#[derive(Debug, PartialEq, Eq)]
pub struct ArtifactWriteMetadata {
    pub project_id: Option<String>,
    pub repository_id: Option<String>,
    pub original_bytes: Option<u64>,
    pub retained_bytes: Option<u64>,
}

/// What a [`ArtifactWriteMetadata`] holds.
pub struct ArtifactWriteMetadataModel {
    pub project_id: Option<Seq<char>>,
    pub repository_id: Option<Seq<char>>,
    pub original_bytes: Option<u64>,
    pub retained_bytes: Option<u64>,
}

impl DeepView for ArtifactWriteMetadata {
    type V = ArtifactWriteMetadataModel;

    open spec fn deep_view(&self) -> ArtifactWriteMetadataModel {
        ArtifactWriteMetadataModel {
            project_id: self.project_id.deep_view(),
            repository_id: self.repository_id.deep_view(),
            original_bytes: self.original_bytes.deep_view(),
            retained_bytes: self.retained_bytes.deep_view(),
        }
    }
}

impl View for ArtifactWriteMetadata {
    type V = ArtifactWriteMetadataModel;

    #[verifier::inline]
    open spec fn view(&self) -> ArtifactWriteMetadataModel {
        self.deep_view()
    }
}

impl Record for ArtifactWriteMetadata {
    fn duplicate(&self) -> (r: Self) {
        ArtifactWriteMetadata {
            project_id: self.project_id.duplicate(),
            repository_id: self.repository_id.duplicate(),
            original_bytes: self.original_bytes.duplicate(),
            retained_bytes: self.retained_bytes.duplicate(),
        }
    }

    fn same(&self, other: &Self) -> (r: bool) {
        self.project_id.same(&other.project_id)
            && self.repository_id.same(&other.repository_id)
            && self.original_bytes.same(&other.original_bytes)
            && self.retained_bytes.same(&other.retained_bytes)
    }
}

impl Clone for ArtifactWriteMetadata {
    fn clone(&self) -> (r: Self)
        ensures
            r.deep_view() == self.deep_view(),
    {
        self.duplicate()
    }
}

impl Default for ArtifactWriteMetadata {
    fn default() -> (r: Self)
        ensures
            r@ == (ArtifactWriteMetadataModel {
                project_id: None,
                repository_id: None,
                original_bytes: None,
                retained_bytes: None,
            }),
    {
        let value = ArtifactWriteMetadata {
            project_id: None,
            repository_id: None,
            original_bytes: None,
            retained_bytes: None,
        };
        value
    }
}

/// How long artifacts are kept.
#[derive(Debug, Clone, Copy, PartialEq, Eq, Structural)]
pub struct ArtifactRetentionPolicy {
    pub max_retention_millis: u128,
}

impl DeepView for ArtifactRetentionPolicy {
    type V = ArtifactRetentionPolicy;

    open spec fn deep_view(&self) -> ArtifactRetentionPolicy {
        *self
    }
}

impl Record for ArtifactRetentionPolicy {
    fn duplicate(&self) -> (r: Self) {
        *self
    }

    fn same(&self, other: &Self) -> (r: bool) {
        *self == *other
    }
}

impl ArtifactRetentionPolicy {
    pub fn new(max_retention_millis: u128) -> (r: Self)
        ensures
            r.max_retention_millis == max_retention_millis,
    {
        ArtifactRetentionPolicy { max_retention_millis }
    }

    /// The latest time of creation, in milliseconds, that has expired. Neither the
    /// retention nor the difference leaves the range of times.
    pub open spec fn cutoff(self, now: LedgerTimestamp) -> int {
        let kept = if self.max_retention_millis <= i64::MAX {
            self.max_retention_millis as int
        } else {
            i64::MAX as int
        };
        if now.unix_millis - kept < i64::MIN {
            i64::MIN as int
        } else {
            now.unix_millis - kept
        }
    }
}

fn expired_cutoff_millis(now: LedgerTimestamp, policy: &ArtifactRetentionPolicy) -> (r: i64)
    ensures
        r == policy.cutoff(now),
{
    let kept: i64 = if policy.max_retention_millis <= i64::MAX as u128 {
        policy.max_retention_millis as i64
    } else {
        i64::MAX
    };
    if now.unix_millis >= 0 || now.unix_millis >= i64::MIN + kept {
        now.unix_millis - kept
    } else {
        i64::MIN
    }
}

#[derive(Debug, Clone, Copy, PartialEq, Eq, Structural)]
pub struct ArtifactExpirationReport {
    pub requested: usize,
    pub matched: usize,
    pub tombstoned: usize,
    pub deleted_files: usize,
    pub missing_files: usize,
}

impl DeepView for ArtifactExpirationReport {
    type V = ArtifactExpirationReport;

    open spec fn deep_view(&self) -> ArtifactExpirationReport {
        *self
    }
}

impl Record for ArtifactExpirationReport {
    fn duplicate(&self) -> (r: Self) {
        *self
    }

    fn same(&self, other: &Self) -> (r: bool) {
        *self == *other
    }
}

impl ArtifactExpirationReport {
    pub(crate) fn new(requested: usize) -> (r: Self)
        ensures
            r == (ArtifactExpirationReport {
                requested,
                matched: 0,
                tombstoned: 0,
                deleted_files: 0,
                missing_files: 0,
            }),
    {
        ArtifactExpirationReport {
            requested,
            matched: 0,
            tombstoned: 0,
            deleted_files: 0,
            missing_files: 0,
        }
    }
}

#[derive(Debug, PartialEq, Eq)]
pub enum ArtifactError {
    InvalidScope { scope: String },
    Io { message: String },
    InvalidIndex { path: String, reason: String },
}

/// What a [`ArtifactError`] holds.
pub enum ArtifactErrorModel {
    InvalidScope { scope: Seq<char> },
    Io { message: Seq<char> },
    InvalidIndex { path: Seq<char>, reason: Seq<char> },
}

impl DeepView for ArtifactError {
    type V = ArtifactErrorModel;

    open spec fn deep_view(&self) -> ArtifactErrorModel {
        match self {
            ArtifactError::InvalidScope { scope } => ArtifactErrorModel::InvalidScope {
                scope: scope.deep_view(),
            },
            ArtifactError::Io { message } => ArtifactErrorModel::Io {
                message: message.deep_view(),
            },
            ArtifactError::InvalidIndex { path, reason } => ArtifactErrorModel::InvalidIndex {
                path: path.deep_view(),
                reason: reason.deep_view(),
            },
        }
    }
}

impl View for ArtifactError {
    type V = ArtifactErrorModel;

    #[verifier::inline]
    open spec fn view(&self) -> ArtifactErrorModel {
        self.deep_view()
    }
}

impl Record for ArtifactError {
    fn duplicate(&self) -> (r: Self) {
        match self {
            ArtifactError::InvalidScope { scope } => ArtifactError::InvalidScope {
                scope: scope.duplicate(),
            },
            ArtifactError::Io { message } => ArtifactError::Io { message: message.duplicate() },
            ArtifactError::InvalidIndex { path, reason } => ArtifactError::InvalidIndex {
                path: path.duplicate(),
                reason: reason.duplicate(),
            },
        }
    }

    fn same(&self, other: &Self) -> (r: bool) {
        match (self, other) {
            (
                ArtifactError::InvalidScope { scope: scope_a },
                ArtifactError::InvalidScope { scope: scope_b },
            ) => scope_a.same(scope_b),
            (ArtifactError::Io { message: message_a }, ArtifactError::Io { message: message_b }) => {
                message_a.same(message_b)
            },
            (
                ArtifactError::InvalidIndex { path: path_a, reason: reason_a },
                ArtifactError::InvalidIndex { path: path_b, reason: reason_b },
            ) => path_a.same(path_b) && reason_a.same(reason_b),
            _ => false,
        }
    }
}

impl Clone for ArtifactError {
    fn clone(&self) -> (r: Self)
        ensures
            r.deep_view() == self.deep_view(),
    {
        self.duplicate()
    }
}

pub type ArtifactResult<T> = Result<T, ArtifactError>;

impl ArtifactErrorModel {
    /// The error as a sentence.
    pub open spec fn message(self) -> Seq<char> {
        match self {
            ArtifactErrorModel::InvalidScope { scope } => "invalid artifact scope: "@ + scope,
            ArtifactErrorModel::Io { message } => "artifact io failed: "@ + message,
            ArtifactErrorModel::InvalidIndex { path, reason } => "artifact index corrupted at "@
                + path + ": "@ + reason,
        }
    }
}

impl ArtifactError {
    /// The error as a sentence.
    pub fn to_text(&self) -> (r: String)
        ensures
            r@ == self@.message(),
    {
        match self {
            ArtifactError::InvalidScope { scope } => "invalid artifact scope: ".to_owned().concat(
                scope.as_str(),
            ),
            ArtifactError::Io { message } => "artifact io failed: ".to_owned().concat(
                message.as_str(),
            ),
            ArtifactError::InvalidIndex { path, reason } =>
                "artifact index corrupted at ".to_owned().concat(path.as_str()).concat(
                ": ",
            ).concat(reason.as_str()),
        }
    }
}

/// A character that stays in a name.
pub open spec fn is_name_char(c: char) -> bool {
    crate::text::is_alphanumeric(c) || c == '-' || c == '_' || c == '.'
}

pub open spec fn safe_char(c: char) -> char {
    if is_name_char(c) {
        c
    } else {
        '_'
    }
}

/// A text without the underscores at its start.
pub open spec fn after_underscores(text: Seq<char>) -> Seq<char>
    decreases text.len(),
{
    if text.len() > 0 && text[0] == '_' {
        after_underscores(text.drop_first())
    } else {
        text
    }
}

/// A text without the underscores at its end.
pub open spec fn before_underscores(text: Seq<char>) -> Seq<char>
    decreases text.len(),
{
    if text.len() > 0 && text.last() == '_' {
        before_underscores(text.drop_last())
    } else {
        text
    }
}

/// The name that a label gives to a file: every other character becomes an underscore,
/// and none stands at either end.
pub open spec fn safe_name(label: Seq<char>) -> Seq<char> {
    before_underscores(after_underscores(label.map_values(|c: char| safe_char(c))))
}

/// The name of the directory of a scope, where it has one.
pub open spec fn segment_of(scope: Seq<char>) -> Option<Seq<char>> {
    let name = safe_name(scope);
    if name.len() == 0 || name == "."@ || name == ".."@ {
        None
    } else {
        Some(name)
    }
}

pub fn sanitize_label(value: &str) -> (r: String)
    ensures
        r@ == safe_name(value@),
{
    let chars = chars_of(value);
    let ghost safe = value@.map_values(|c: char| safe_char(c));
    let mut mapped: Vec<char> = Vec::new();
    let mut i: usize = 0;
    while i < chars.len()
        invariant
            i <= chars.len(),
            chars@ == value@,
            safe == value@.map_values(|c: char| safe_char(c)),
            mapped@ == safe.take(i as int),
        decreases chars.len() - i,
    {
        let c = chars[i];
        let kept = if ascii_alphanumeric(c) || c == '-' || c == '_' || c == '.' {
            c
        } else {
            '_'
        };
        mapped.push(kept);
        assert(safe.take(i + 1) =~= safe.take(i as int).push(safe[i as int]));
        i += 1;
    }
    assert(mapped@ =~= safe);
    let mut from: usize = 0;
    assert(safe.skip(0) =~= safe);
    while from < mapped.len() && mapped[from] == '_'
        invariant
            from <= mapped.len(),
            mapped@ == safe,
            after_underscores(safe) == after_underscores(safe.skip(from as int)),
        decreases mapped.len() - from,
    {
        assert(safe.skip(from as int).drop_first() =~= safe.skip(from + 1));
        from += 1;
    }
    let ghost rest = safe.skip(from as int);
    assert(after_underscores(safe) == rest);
    let mut to: usize = mapped.len();
    assert(safe.subrange(from as int, to as int) =~= rest);
    while to > from && mapped[to - 1] == '_'
        invariant
            from <= to <= mapped.len(),
            mapped@ == safe,
            before_underscores(rest) == before_underscores(safe.subrange(from as int, to as int)),
        decreases to,
    {
        proof {
            let part = safe.subrange(from as int, to as int);
            assert(part.last() == safe[to - 1]);
            assert(part.drop_last() =~= safe.subrange(from as int, to - 1));
        }
        to -= 1;
    }
    proof {
        let part = safe.subrange(from as int, to as int);
        if part.len() > 0 {
            assert(part.last() == safe[to - 1]);
        }
    }
    text_of(&mapped, from, to)
}

pub fn sanitize_segment(value: &str) -> (r: ArtifactResult<String>)
    ensures
        match r {
            Ok(name) => segment_of(value@) == Some(name@),
            Err(error) => segment_of(value@) is None && error@ == (
            ArtifactErrorModel::InvalidScope { scope: value@ }),
        },
{
    let sanitized = sanitize_label(value);
    if sanitized.as_str().is_empty() || same_text(sanitized.as_str(), ".") || same_text(
        sanitized.as_str(),
        "..",
    ) {
        return Err(ArtifactError::InvalidScope { scope: value.to_owned() });
    }
    Ok(sanitized)
}

/// Where a new artifact goes: the directory of its scope and a file there.
#[derive(Debug, PartialEq, Eq)]
pub struct ArtifactPlacement {
    pub id: OutputRefId,
    pub scope_dir: String,
    pub file_name: String,
}

/// What a [`ArtifactPlacement`] holds.
pub struct ArtifactPlacementModel {
    pub id: Seq<char>,
    pub scope_dir: Seq<char>,
    pub file_name: Seq<char>,
}

impl DeepView for ArtifactPlacement {
    type V = ArtifactPlacementModel;

    open spec fn deep_view(&self) -> ArtifactPlacementModel {
        ArtifactPlacementModel {
            id: self.id.deep_view(),
            scope_dir: self.scope_dir.deep_view(),
            file_name: self.file_name.deep_view(),
        }
    }
}

impl View for ArtifactPlacement {
    type V = ArtifactPlacementModel;

    #[verifier::inline]
    open spec fn view(&self) -> ArtifactPlacementModel {
        self.deep_view()
    }
}

impl Record for ArtifactPlacement {
    fn duplicate(&self) -> (r: Self) {
        ArtifactPlacement {
            id: self.id.duplicate(),
            scope_dir: self.scope_dir.duplicate(),
            file_name: self.file_name.duplicate(),
        }
    }

    fn same(&self, other: &Self) -> (r: bool) {
        self.id.same(&other.id)
            && self.scope_dir.same(&other.scope_dir)
            && self.file_name.same(&other.file_name)
    }
}

impl Clone for ArtifactPlacement {
    fn clone(&self) -> (r: Self)
        ensures
            r.deep_view() == self.deep_view(),
    {
        self.duplicate()
    }
}

/// The file of an artifact: its id, then what its label leaves of a name.
pub open spec fn file_name_of(id: Seq<char>, label: Seq<char>) -> Seq<char> {
    id + "-"@ + safe_name(label) + ARTIFACT_FILE_SUFFIX@
}

/// Finds a place for a new artifact.
pub fn place_artifact(scope: &str, label: &str) -> (r: ArtifactResult<ArtifactPlacement>)
    ensures
        match r {
            Ok(placement) => {
                &&& segment_of(scope@) == Some(placement.scope_dir@)
                &&& crate::ids::is_id_text("out_"@, placement.id@)
                &&& placement.file_name@ == file_name_of(placement.id@, label@)
            },
            Err(error) => segment_of(scope@) is None && error@ == (
            ArtifactErrorModel::InvalidScope { scope: scope@ }),
        },
{
    let scope_dir = sanitize_segment(scope)?;
    let id = OutputRefId::new();
    let safe_label = sanitize_label(label);
    let file_name = id.as_str().to_owned().concat("-").concat(safe_label.as_str()).concat(
        ARTIFACT_FILE_SUFFIX,
    );
    Ok(ArtifactPlacement { id, scope_dir, file_name })
}

impl ArtifactPlacementModel {
    /// What the index says of the artifact once it lies at `uri`.
    pub open spec fn record(
        self,
        uri: Seq<char>,
        label: Seq<char>,
        media_type: Seq<char>,
        created_at: LedgerTimestamp,
        metadata: ArtifactWriteMetadataModel,
    ) -> LocalArtifactRecordModel {
        LocalArtifactRecordModel {
            id: self.id,
            scope: self.scope_dir,
            project_id: metadata.project_id,
            repository_id: metadata.repository_id,
            path: uri,
            uri,
            media_type,
            label: Some(label),
            created_at,
            original_bytes: metadata.original_bytes,
            retained_bytes: metadata.retained_bytes,
            tombstone: None,
        }
    }

    /// The reference to the artifact once it lies at `uri`.
    pub open spec fn output_ref(
        self,
        uri: Seq<char>,
        label: Seq<char>,
        media_type: Seq<char>,
    ) -> OutputRefModel {
        OutputRefModel { id: self.id, uri, media_type, label: Some(label), digest: None }
    }
}

impl ArtifactPlacement {
    pub fn index_record(
        &self,
        uri: &str,
        label: &str,
        media_type: &str,
        created_at: LedgerTimestamp,
        metadata: ArtifactWriteMetadata,
    ) -> (r: LocalArtifactRecord)
        ensures
            r@ == self@.record(uri@, label@, media_type@, created_at, metadata@),
    {
        LocalArtifactRecord {
            id: self.id.clone(),
            scope: self.scope_dir.clone(),
            project_id: metadata.project_id,
            repository_id: metadata.repository_id,
            path: uri.to_owned(),
            uri: uri.to_owned(),
            media_type: media_type.to_owned(),
            label: Some(label.to_owned()),
            created_at,
            original_bytes: metadata.original_bytes,
            retained_bytes: metadata.retained_bytes,
            tombstone: None,
        }
    }

    pub fn output_ref(&self, uri: &str, label: &str, media_type: &str) -> (r: OutputRef)
        ensures
            r@ == self@.output_ref(uri@, label@, media_type@),
    {
        OutputRef {
            id: self.id.clone(),
            uri: uri.to_owned(),
            media_type: media_type.to_owned(),
            label: Some(label.to_owned()),
            digest: None,
        }
    }
}

/// The order of an index: by time of creation, then by id.
pub open spec fn earlier(a: LocalArtifactRecordModel, b: LocalArtifactRecordModel) -> bool {
    a.created_at.unix_millis < b.created_at.unix_millis || (a.created_at.unix_millis
        == b.created_at.unix_millis && crate::text::text_before(a.id, b.id))
}

/// Put a record into its place among ordered ones.
pub open spec fn placed(
    records: Seq<LocalArtifactRecordModel>,
    record: LocalArtifactRecordModel,
) -> Seq<LocalArtifactRecordModel>
    decreases records.len(),
{
    if records.len() > 0 && earlier(record, records.last()) {
        placed(records.drop_last(), record).push(records.last())
    } else {
        records.push(record)
    }
}

/// Records in the order of an index.
pub open spec fn ordered(records: Seq<LocalArtifactRecordModel>) -> Seq<LocalArtifactRecordModel>
    decreases records.len(),
{
    if records.len() == 0 {
        Seq::empty()
    } else {
        placed(ordered(records.drop_last()), records.last())
    }
}

fn comes_earlier(a: &LocalArtifactRecord, b: &LocalArtifactRecord) -> (r: bool)
    ensures
        r == earlier(a@, b@),
{
    a.created_at.unix_millis < b.created_at.unix_millis || (a.created_at.unix_millis
        == b.created_at.unix_millis && comes_before(a.id.as_str(), b.id.as_str()))
}

fn place_record(records: &mut Vec<LocalArtifactRecord>, record: LocalArtifactRecord)
    ensures
        final(records).deep_view() == placed(old(records).deep_view(), record@),
{
    let ghost all = records.deep_view();
    let mut at: usize = records.len();
    proof {
        assert(all.take(at as int) =~= all);
        assert(placed(all, record@) =~= placed(all.take(at as int), record@) + all.skip(at as int));
    }
    while at > 0 && comes_earlier(&record, &records[at - 1])
        invariant
            at <= records.len(),
            all == records.deep_view(),
            placed(all, record@) == placed(all.take(at as int), record@) + all.skip(at as int),
        decreases at,
    {
        proof {
            let front = all.take(at as int);
            assert(front.last() == all[at - 1]);
            assert(front.drop_last() =~= all.take(at - 1));
            assert(placed(front, record@) + all.skip(at as int) =~= placed(
                front.drop_last(),
                record@,
            ) + all.skip(at - 1));
        }
        at -= 1;
    }
    proof {
        let front = all.take(at as int);
        if at > 0 {
            assert(front.last() == all[at - 1]);
        }
        assert(front.push(record@) + all.skip(at as int) =~= all.insert(at as int, record@));
    }
    records.insert(at, record);
    assert(records.deep_view() =~= all.insert(at as int, record@));
}

/// Records in the order in which they are listed and written down.
pub fn sort_records(records: &Vec<LocalArtifactRecord>) -> (r: Vec<LocalArtifactRecord>)
    ensures
        r.deep_view() == ordered(records.deep_view()),
{
    let ghost all = records.deep_view();
    let mut sorted: Vec<LocalArtifactRecord> = Vec::new();
    let mut i: usize = 0;
    assert(sorted.deep_view() =~= ordered(all.take(0)));
    while i < records.len()
        invariant
            i <= records.len(),
            all == records.deep_view(),
            sorted.deep_view() == ordered(all.take(i as int)),
        decreases records.len() - i,
    {
        proof {
            assert(all.take(i + 1).drop_last() =~= all.take(i as int));
            assert(all.take(i + 1).last() == records[i as int]@);
        }
        place_record(&mut sorted, records[i].clone());
        i += 1;
    }
    assert(all.take(i as int) =~= all);
    sorted
}

/// The record's time is up, and there is something left to take away.
pub open spec fn is_expired(
    record: LocalArtifactRecordModel,
    present: bool,
    cutoff: int,
) -> bool {
    record.created_at.unix_millis <= cutoff && (record.tombstone is None || present)
}

/// The expired ones among some records; `present` says of each whether its file is there.
pub open spec fn expired(
    records: Seq<LocalArtifactRecordModel>,
    present: Seq<bool>,
    cutoff: int,
) -> Seq<LocalArtifactRecordModel>
    decreases records.len(),
{
    if records.len() == 0 {
        Seq::empty()
    } else {
        let n = records.len() - 1;
        let others = expired(records.drop_last(), present, cutoff);
        if is_expired(records[n], present[n], cutoff) {
            others.push(records[n])
        } else {
            others
        }
    }
}

/// The records whose time is up, of those that `present` says something of.
pub fn select_expired(
    records: &Vec<LocalArtifactRecord>,
    present: &Vec<bool>,
    now: LedgerTimestamp,
    policy: &ArtifactRetentionPolicy,
) -> (r: Vec<LocalArtifactRecord>)
    requires
        records.len() == present.len(),
    ensures
        r.deep_view() == expired(records.deep_view(), present@, policy.cutoff(now)),
{
    let ghost all = records.deep_view();
    let cutoff: i64 = expired_cutoff_millis(now, policy);
    let mut selected: Vec<LocalArtifactRecord> = Vec::new();
    let mut i: usize = 0;
    assert(selected.deep_view() =~= expired(all.take(0), present@, cutoff as int));
    while i < records.len()
        invariant
            i <= records.len() == present.len(),
            all == records.deep_view(),
            selected.deep_view() == expired(all.take(i as int), present@, cutoff as int),
        decreases records.len() - i,
    {
        proof {
            assert(all.take(i + 1).drop_last() =~= all.take(i as int));
            assert(all.take(i + 1)[i as int] == records[i as int]@);
        }
        let record = &records[i];
        if record.created_at.unix_millis <= cutoff && (record.tombstone.is_none() || present[i]) {
            let ghost before = selected.deep_view();
            let kept = record.clone();
            selected.push(kept);
            assert(selected.deep_view() =~= before.push(kept@));
        }
        i += 1;
    }
    assert(all.take(i as int) =~= all);
    selected
}

/// A directory is that of a scope where the scope's name is the directory's.
pub fn scope_of_directory(name: &str) -> (r: ArtifactResult<String>)
    ensures
        match r {
            Ok(scope) => segment_of(name@) == Some(name@) && scope@ == name@,
            Err(error) => segment_of(name@) != Some(name@) && error@ == (
            ArtifactErrorModel::InvalidScope { scope: name@ }),
        },
{
    let scope = sanitize_segment(name)?;
    if !same_text(scope.as_str(), name) {
        return Err(ArtifactError::InvalidScope { scope: name.to_owned() });
    }
    Ok(scope)
}

/// A record names the scope that it lies in, in its canonical form.
pub open spec fn scope_checks(
    records: Seq<LocalArtifactRecordModel>,
    expected: Option<Seq<char>>,
) -> spec_fn(int) -> Option<ArtifactErrorModel> {
    |i: int|
        if segment_of(records[i].scope) == Some(records[i].scope) && (expected is None
            || records[i].scope == expected->0) {
            None
        } else {
            Some(ArtifactErrorModel::InvalidScope { scope: records[i].scope })
        }
}

pub open spec fn scope_problem(
    records: Seq<LocalArtifactRecordModel>,
    expected: Option<Seq<char>>,
) -> Option<ArtifactErrorModel> {
    checks::first_problem(scope_checks(records, expected), records.len() as int)
}

/// Checks that records name the scope that they lie in, and only canonical scopes.
pub fn check_record_scopes(records: &Vec<LocalArtifactRecord>, expected: &Option<String>) -> (r:
    ArtifactResult<()>)
    ensures
        checks::reports(r, scope_problem(records.deep_view(), expected.deep_view())),
{
    let ghost all = records.deep_view();
    let ghost list = scope_checks(all, expected.deep_view());
    let mut i: usize = 0;
    while i < records.len()
        invariant
            i <= records.len(),
            all == records.deep_view(),
            list == scope_checks(all, expected.deep_view()),
            checks::first_problem(list, i as int) is None,
        decreases records.len() - i,
    {
        assert(all[i as int] == records[i as int]@);
        let scope = records[i].scope.as_str();
        let canonical = match sanitize_segment(scope) {
            Ok(name) => same_text(name.as_str(), scope),
            Err(_) => false,
        };
        let fits = match expected {
            Some(expected) => same_text(expected.as_str(), scope),
            None => true,
        };
        if !canonical || !fits {
            proof {
                checks::lemma_first_problem(list, i as int, all.len() as int);
            }
            return Err(ArtifactError::InvalidScope { scope: scope.to_owned() });
        }
        i += 1;
    }
    Ok(())
}

/// Whether a file can be the one of a record: it is not the index, and its name starts
/// with the record's id.
pub fn names_record_file(file_name: &str, record_id: &OutputRefId) -> (r: bool)
    ensures
        r == (file_name@ != DEFAULT_ARTIFACT_INDEX_FILE@ && crate::text::has_prefix(
            file_name@,
            record_id@,
        )),
{
    !same_text(file_name, DEFAULT_ARTIFACT_INDEX_FILE) && starts_with(
        file_name,
        record_id.as_str(),
    )
}

/// The place of the first record of an id; the number of records where there is none.
pub open spec fn place_of_id(records: Seq<LocalArtifactRecordModel>, id: Seq<char>) -> int
    decreases records.len(),
{
    if records.len() == 0 || records[0].id == id {
        0
    } else {
        1 + place_of_id(records.drop_first(), id)
    }
}

/// The records with the byte counts of one set, as far as they are given.
pub open spec fn with_bytes(
    records: Seq<LocalArtifactRecordModel>,
    id: Seq<char>,
    original_bytes: Option<u64>,
    retained_bytes: Option<u64>,
) -> Seq<LocalArtifactRecordModel> {
    let at = place_of_id(records, id);
    if at < records.len() {
        records.update(
            at,
            LocalArtifactRecordModel {
                original_bytes: match original_bytes {
                    Some(bytes) => Some(bytes),
                    None => records[at].original_bytes,
                },
                retained_bytes: match retained_bytes {
                    Some(bytes) => Some(bytes),
                    None => records[at].retained_bytes,
                },
                ..records[at]
            },
        )
    } else {
        records
    }
}

fn find_record(records: &Vec<LocalArtifactRecord>, id: &OutputRefId) -> (r: usize)
    ensures
        r == place_of_id(records.deep_view(), id@),
        r <= records.len(),
{
    let ghost all = records.deep_view();
    let mut i: usize = 0;
    assert(all.skip(0) =~= all);
    while i < records.len() && !same_text(records[i].id.as_str(), id.as_str())
        invariant
            i <= records.len(),
            all == records.deep_view(),
            place_of_id(all, id@) == i + place_of_id(all.skip(i as int), id@),
        decreases records.len() - i,
    {
        proof {
            assert(all.skip(i as int)[0] == records[i as int]@);
            assert(all.skip(i as int).drop_first() =~= all.skip(i + 1));
        }
        i += 1;
    }
    proof {
        if i < records.len() {
            assert(all.skip(i as int)[0] == records[i as int]@);
        }
    }
    i
}

/// Sets the byte counts of a record, and says whether there is anything to write down.
pub fn update_record_bytes(
    records: &mut Vec<LocalArtifactRecord>,
    id: &OutputRefId,
    original_bytes: Option<u64>,
    retained_bytes: Option<u64>,
) -> (r: bool)
    ensures
        final(records).deep_view() == with_bytes(
            old(records).deep_view(),
            id@,
            original_bytes,
            retained_bytes,
        ),
        r == (place_of_id(old(records).deep_view(), id@) < old(records).deep_view().len() && (
        original_bytes is Some || retained_bytes is Some)),
{
    let ghost all = records.deep_view();
    let at: usize = find_record(records, id);
    if at >= records.len() {
        return false;
    }
    assert(all[at as int] == records[at as int]@);
    let mut record = records[at].clone();
    if original_bytes.is_some() {
        record.original_bytes = original_bytes;
    }
    if retained_bytes.is_some() {
        record.retained_bytes = retained_bytes;
    }
    records[at] = record;
    assert(records.deep_view() =~= all.update(at as int, record@));
    original_bytes.is_some() || retained_bytes.is_some()
}

/// The records of other ids.
pub open spec fn without(records: Seq<LocalArtifactRecordModel>, id: Seq<char>) -> Seq<
    LocalArtifactRecordModel,
>
    decreases records.len(),
{
    if records.len() == 0 {
        Seq::empty()
    } else {
        let others = without(records.drop_last(), id);
        if records.last().id != id {
            others.push(records.last())
        } else {
            others
        }
    }
}

/// The records that stay when those of an id go.
pub fn remove_record(records: &Vec<LocalArtifactRecord>, id: &OutputRefId) -> (r: Vec<
    LocalArtifactRecord,
>)
    ensures
        r.deep_view() == without(records.deep_view(), id@),
{
    let ghost all = records.deep_view();
    let mut kept: Vec<LocalArtifactRecord> = Vec::new();
    let mut i: usize = 0;
    assert(kept.deep_view() =~= without(all.take(0), id@));
    while i < records.len()
        invariant
            i <= records.len(),
            all == records.deep_view(),
            kept.deep_view() == without(all.take(i as int), id@),
        decreases records.len() - i,
    {
        proof {
            assert(all.take(i + 1).drop_last() =~= all.take(i as int));
            assert(all.take(i + 1).last() == records[i as int]@);
        }
        if !same_text(records[i].id.as_str(), id.as_str()) {
            let ghost before = kept.deep_view();
            let record = records[i].clone();
            kept.push(record);
            assert(kept.deep_view() =~= before.push(record@));
        }
        i += 1;
    }
    assert(all.take(i as int) =~= all);
    kept
}

} // verus!
