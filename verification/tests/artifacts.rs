//! Large fields move to artifacts, and artifacts are placed, indexed and expired.
use atelia_core::artifacts::{
    check_record_scopes, names_record_file, place_artifact, remove_record, sanitize_label,
    sanitize_segment, scope_of_directory, select_expired, sort_records, update_record_bytes,
    ArtifactError, ArtifactResult, ArtifactRetentionPolicy, ArtifactTombstone,
    ArtifactWriteMetadata, LocalArtifactRecord,
};
use atelia_core::domain::{
    LedgerTimestamp, OutputRef, StructuredValue, ToolResult, ToolResultField, ToolResultStatus,
    TruncationMetadata,
};
use atelia_core::expiry::ArtifactExpiry;
use atelia_core::ids::{OutputRefId, ToolInvocationId, ToolResultId};
use atelia_core::spillover::{
    spill_large_tool_result_fields, ArtifactWriter, ToolResultSpilloverOptions,
};
use std::cell::{Cell, RefCell};

struct FailingWriter {
    writes: Cell<usize>,
    fail_on: usize,
}

impl FailingWriter {
    fn new(fail_on: usize) -> Self {
        Self {
            writes: Cell::new(0),
            fail_on,
        }
    }
}

impl ArtifactWriter for FailingWriter {
    fn write_artifact_bytes(
        &self,
        scope: &str,
        label: &str,
        media_type: &str,
        bytes: &[u8],
    ) -> ArtifactResult<OutputRef> {
        let write_count = self.writes.get() + 1;
        self.writes.set(write_count);

        if write_count == self.fail_on {
            return Err(ArtifactError::Io {
                message: "simulated write failure".to_string(),
            });
        }

        Ok(OutputRef {
            id: OutputRefId::new(),
            uri: format!("file://{scope}/{label}/{}-bytes", bytes.len()),
            media_type: media_type.to_string(),
            label: Some(label.to_string()),
            digest: None,
        })
    }
}

fn result_with(fields: Vec<ToolResultField>) -> ToolResult {
    ToolResult {
        id: ToolResultId::new(),
        schema_version: 1,
        created_at: LedgerTimestamp::now(),
        invocation_id: ToolInvocationId::new(),
        tool_id: "fs.search".to_string(),
        status: ToolResultStatus::Succeeded,
        schema_ref: Some("tool_result.test.v1".to_string()),
        fields,
        evidence_refs: Vec::new(),
        output_refs: Vec::new(),
        truncation: None,
        redactions: Vec::new(),
    }
}

fn text_field(key: &str, value: &str) -> ToolResultField {
    ToolResultField {
        key: key.to_string(),
        value: StructuredValue::String(value.to_string()),
    }
}

#[test]
fn does_not_mutate_result_when_later_spill_write_fails() {
    let mut result = result_with(vec![
        text_field("matches", "abcdef"),
        text_field("summary", "ghijkl"),
    ]);

    let expected = result.clone();
    let writer = FailingWriter::new(2);

    let error = spill_large_tool_result_fields(
        &mut result,
        &writer,
        "repo_example",
        &ToolResultSpilloverOptions::new(4),
    )
    .unwrap_err();

    assert!(matches!(error, ArtifactError::Io { .. }));
    assert_eq!(expected, result);
}

/// Keeps what it is told, and fails where it is told to.
struct RecordingWriter {
    log: RefCell<Vec<String>>,
    fail_write: Option<usize>,
    fail_metadata: bool,
}

impl RecordingWriter {
    fn new() -> Self {
        RecordingWriter {
            log: RefCell::new(Vec::new()),
            fail_write: None,
            fail_metadata: false,
        }
    }

    fn note(&self, line: String) {
        self.log.borrow_mut().push(line);
    }
}

impl ArtifactWriter for RecordingWriter {
    fn write_artifact_bytes(
        &self,
        scope: &str,
        label: &str,
        media_type: &str,
        bytes: &[u8],
    ) -> ArtifactResult<OutputRef> {
        let before = self.log.borrow().len();
        if self.fail_write == Some(before) {
            return Err(ArtifactError::Io {
                message: "full".to_string(),
            });
        }
        self.note(format!(
            "write {scope} {label} {media_type} {}",
            String::from_utf8(bytes.to_vec()).unwrap()
        ));
        Ok(OutputRef {
            id: OutputRefId::new(),
            uri: label.to_string(),
            media_type: media_type.to_string(),
            label: Some(label.to_string()),
            digest: None,
        })
    }

    fn delete_artifact_bytes(&self, output_ref: &OutputRef) -> ArtifactResult<()> {
        self.note(format!("delete {}", output_ref.uri));
        Ok(())
    }

    fn update_spill_metadata(
        &self,
        scope: &str,
        output_ref: &OutputRef,
        original_bytes: Option<u64>,
        retained_bytes: Option<u64>,
    ) -> ArtifactResult<()> {
        if self.fail_metadata {
            return Err(ArtifactError::InvalidIndex {
                path: scope.to_string(),
                reason: "unreadable".to_string(),
            });
        }
        self.note(format!(
            "note {} {} {}",
            output_ref.uri,
            original_bytes.unwrap(),
            retained_bytes.unwrap()
        ));
        Ok(())
    }

    fn delete_artifact_record(&self, scope: &str, output_ref: &OutputRef) -> ArtifactResult<()> {
        self.note(format!("forget {scope} {}", output_ref.uri));
        Ok(())
    }
}

#[test]
fn large_fields_are_replaced_by_references() {
    let mut result = result_with(vec![
        text_field("matches", "abcdef"),
        text_field("short", "abcd"),
        ToolResultField {
            key: "lines".to_string(),
            value: StructuredValue::StringList(vec!["ab".to_string(), "cd".to_string()]),
        },
        ToolResultField {
            key: "count".to_string(),
            value: StructuredValue::Integer(123456),
        },
    ]);
    result.truncation = Some(TruncationMetadata {
        original_bytes: 100,
        retained_bytes: 10,
        reason: "tool".to_string(),
    });
    let writer = RecordingWriter::new();
    let options =
        ToolResultSpilloverOptions::new(4).with_media_type("application/json".to_string());

    let report = spill_large_tool_result_fields(&mut result, &writer, "repo", &options)
        .unwrap()
        .unwrap();

    assert_eq!(vec!["matches", "lines"], report.spilled_fields);
    assert_eq!(11, report.original_bytes);
    assert_eq!(58, report.retained_bytes);
    assert_eq!(
        StructuredValue::String("artifact_ref fs.search.matches".to_string()),
        result.fields[0].value
    );
    assert_eq!(
        StructuredValue::String("abcd".to_string()),
        result.fields[1].value
    );
    assert_eq!(
        StructuredValue::String("artifact_ref fs.search.lines".to_string()),
        result.fields[2].value
    );
    assert_eq!(StructuredValue::Integer(123456), result.fields[3].value);
    assert_eq!(2, result.output_refs.len());
    assert_eq!(
        Some(TruncationMetadata {
            original_bytes: 111,
            retained_bytes: 68,
            reason: "tool; artifact spillover".to_string(),
        }),
        result.truncation
    );
    assert_eq!(
        vec![
            "write repo fs.search.matches application/json abcdef",
            "note fs.search.matches 6 30",
            "write repo fs.search.lines application/json ab\ncd",
            "note fs.search.lines 5 28",
        ],
        *writer.log.borrow()
    );
}

#[test]
fn small_fields_and_a_limit_of_zero_spill_nothing() {
    let writer = RecordingWriter::new();
    let mut result = result_with(vec![text_field("matches", "abcd")]);
    let expected = result.clone();

    for limit in [4, 0] {
        let report = spill_large_tool_result_fields(
            &mut result,
            &writer,
            "repo",
            &ToolResultSpilloverOptions::new(limit),
        )
        .unwrap();
        assert_eq!(None, report);
        assert_eq!(expected, result);
    }
    assert!(writer.log.borrow().is_empty());
}

#[test]
fn failed_writes_take_back_those_before() {
    let fields = vec![text_field("a", "abcdef"), text_field("b", "ghijkl")];

    let writer = RecordingWriter {
        fail_write: Some(2),
        ..RecordingWriter::new()
    };
    let mut result = result_with(fields.clone());
    let error = spill_large_tool_result_fields(
        &mut result,
        &writer,
        "repo",
        &ToolResultSpilloverOptions::new(4),
    )
    .unwrap_err();
    assert_eq!("artifact io failed: full", error.to_text());
    assert_eq!(
        vec![
            "write repo fs.search.a text/plain; charset=utf-8 abcdef",
            "note fs.search.a 6 24",
            "delete fs.search.a",
            "forget repo fs.search.a",
        ],
        *writer.log.borrow()
    );

    let writer = RecordingWriter {
        fail_metadata: true,
        ..RecordingWriter::new()
    };
    let mut result = result_with(fields);
    let error = spill_large_tool_result_fields(
        &mut result,
        &writer,
        "repo",
        &ToolResultSpilloverOptions::new(4),
    )
    .unwrap_err();
    assert_eq!(
        "artifact index corrupted at repo: unreadable",
        error.to_text()
    );
    assert_eq!(
        vec![
            "write repo fs.search.a text/plain; charset=utf-8 abcdef",
            "delete fs.search.a",
            "forget repo fs.search.a",
        ],
        *writer.log.borrow()
    );
}

#[test]
fn names_are_made_safe() {
    assert_eq!("fs.search-1_x", sanitize_label("__fs.search-1 x//"));
    assert_eq!("a__b", sanitize_label("a/\u{e9}b"));
    assert_eq!("", sanitize_label("///"));
    assert_eq!("repo_1", sanitize_segment("repo_1").unwrap());
    for scope in ["", " ", "///", ".", ".."] {
        match sanitize_segment(scope) {
            Err(ArtifactError::InvalidScope { scope: refused }) => assert_eq!(scope, refused),
            other => panic!("expected a refusal of {scope:?}, got {other:?}"),
        }
    }
    assert_eq!("repo_1", scope_of_directory("repo_1").unwrap());
    assert_eq!(
        "invalid artifact scope: repo 1",
        scope_of_directory("repo 1").unwrap_err().to_text()
    );
}

#[test]
fn artifacts_are_placed_under_their_scope() {
    let placement = place_artifact("../repo", "fs.read content").unwrap();

    assert_eq!(".._repo", placement.scope_dir);
    assert_eq!(
        format!("{}-fs.read_content.artifact", placement.id.as_str()),
        placement.file_name
    );
    assert!(names_record_file(&placement.file_name, &placement.id));
    assert!(!names_record_file("index.json", &placement.id));
    assert!(!names_record_file(&placement.file_name, &OutputRefId::new()));

    let record = placement.index_record(
        "/root/file",
        "fs.read content",
        "text/plain",
        LedgerTimestamp::from_unix_millis(7),
        ArtifactWriteMetadata {
            project_id: Some("p".to_string()),
            repository_id: None,
            original_bytes: Some(9),
            retained_bytes: None,
        },
    );
    assert_eq!(".._repo", record.scope);
    assert_eq!("/root/file", record.path);
    assert_eq!("/root/file", record.uri);
    assert_eq!(Some("fs.read content".to_string()), record.label);
    assert_eq!(Some("p".to_string()), record.project_id);
    assert_eq!(Some(9), record.original_bytes);
    assert_eq!(None, record.tombstone);

    let output_ref = placement.output_ref("/root/file", "fs.read content", "text/plain");
    assert_eq!(record.id, output_ref.id);
    assert_eq!("/root/file", output_ref.uri);

    assert!(matches!(
        place_artifact("..", "label"),
        Err(ArtifactError::InvalidScope { .. })
    ));
}

fn record(scope: &str, created_at: i64) -> LocalArtifactRecord {
    let id = OutputRefId::new();
    let path = format!("/root/{scope}/{}", id.as_str());
    LocalArtifactRecord {
        id,
        scope: scope.to_string(),
        project_id: None,
        repository_id: None,
        path: path.clone(),
        uri: path,
        media_type: "text/plain".to_string(),
        label: None,
        created_at: LedgerTimestamp::from_unix_millis(created_at),
        original_bytes: None,
        retained_bytes: None,
        tombstone: None,
    }
}

fn tombstone() -> ArtifactTombstone {
    ArtifactTombstone {
        at: LedgerTimestamp::from_unix_millis(1),
        reason: "earlier".to_string(),
    }
}

#[test]
fn records_are_ordered_by_time_then_by_identifier() {
    let mut records = vec![
        record("repo", 30),
        record("repo", 10),
        record("repo", 20),
        record("repo", 20),
    ];
    let sorted = sort_records(&records);
    records.sort_by(|left, right| {
        left.created_at
            .unix_millis
            .cmp(&right.created_at.unix_millis)
            .then_with(|| left.id.as_str().cmp(right.id.as_str()))
    });
    assert_eq!(records, sorted);
}

#[test]
fn old_records_expire_unless_they_are_gone_already() {
    let mut records = vec![
        record("repo", 400),
        record("repo", 500),
        record("repo", 501),
        record("repo", 100),
        record("repo", 100),
    ];
    records[3].tombstone = Some(tombstone());
    records[4].tombstone = Some(tombstone());
    let present = vec![true, false, true, true, false];
    let now = LedgerTimestamp::from_unix_millis(1500);

    let expired = select_expired(
        &records,
        &present,
        now,
        &ArtifactRetentionPolicy::new(1000),
    );
    assert_eq!(
        vec![
            records[0].clone(),
            records[1].clone(),
            records[3].clone()
        ],
        expired
    );

    let kept_for_ever = ArtifactRetentionPolicy::new(u128::MAX);
    assert!(select_expired(&records, &present, now, &kept_for_ever).is_empty());
}

#[test]
fn records_of_other_or_forged_scopes_are_refused() {
    let records = vec![record("repo", 1), record("../other", 1)];
    assert_eq!(
        "invalid artifact scope: ../other",
        check_record_scopes(&records, &None).unwrap_err().to_text()
    );
    assert!(check_record_scopes(&records[..1].to_vec(), &None).is_ok());
    assert_eq!(
        "invalid artifact scope: repo",
        check_record_scopes(&records, &Some("other".to_string()))
            .unwrap_err()
            .to_text()
    );
}

#[test]
fn index_entries_are_updated_and_removed_by_identifier() {
    let mut records = vec![record("repo", 1), record("repo", 2)];
    let second = records[1].id.clone();

    assert!(update_record_bytes(&mut records, &second, Some(5), None));
    assert_eq!(Some(5), records[1].original_bytes);
    assert_eq!(None, records[1].retained_bytes);
    assert_eq!(None, records[0].original_bytes);
    assert!(!update_record_bytes(&mut records, &second, None, None));
    assert!(!update_record_bytes(
        &mut records,
        &OutputRefId::new(),
        Some(5),
        Some(5)
    ));

    let first = records[0].clone();
    assert_eq!(vec![first], remove_record(&records, &second));
}

#[test]
fn expiry_marks_records_before_their_files_go() {
    let mut records = vec![
        record("b", 1),
        record("a", 2),
        record("b", 3),
        record("b", 4),
    ];
    records[2].tombstone = Some(tombstone());
    let ids = vec![
        records[0].id.clone(),
        records[2].id.clone(),
        records[1].id.clone(),
        records[1].id.clone(),
        OutputRefId::new(),
    ];
    let now = LedgerTimestamp::from_unix_millis(9);
    let mut expiry =
        ArtifactExpiry::begin(&records, &None, &ids, now, "retention".to_string()).unwrap();

    assert_eq!(4, expiry.report().requested);
    assert_eq!(3, expiry.report().matched);
    assert_eq!(Some("a"), expiry.next_scope());
    let marked = expiry.tombstone_scope(&vec![records[1].clone()], &vec![false]);
    assert_eq!("retention", marked[0].tombstone.as_ref().unwrap().reason);
    assert_eq!(now, marked[0].tombstone.as_ref().unwrap().at);
    assert!(expiry.pending_deletions().is_empty());

    assert_eq!(Some("b"), expiry.next_scope());
    let stored = vec![records[0].clone(), records[2].clone(), records[3].clone()];
    let marked = expiry.tombstone_scope(&stored, &vec![true, true, true]);
    assert_eq!("retention", marked[0].tombstone.as_ref().unwrap().reason);
    assert_eq!("earlier", marked[1].tombstone.as_ref().unwrap().reason);
    assert_eq!(None, marked[2].tombstone);
    let deletions = expiry.pending_deletions();
    assert_eq!(2, deletions.len());
    assert_eq!(records[0].path, deletions[0].uri);
    assert_eq!(records[2].path, deletions[1].uri);
    expiry.count_deletion(true, false);
    expiry.count_deletion(false, false);
    expiry.count_deletion(true, true);

    assert_eq!(None, expiry.next_scope());
    let report = expiry.report();
    assert_eq!(2, report.tombstoned);
    assert_eq!(1, report.deleted_files);
    assert_eq!(1, report.missing_files);
}

#[test]
fn expiry_refuses_forged_scopes() {
    let records = vec![record("repo", 1), record("..", 2)];
    let ids = vec![records[0].id.clone()];
    let now = LedgerTimestamp::from_unix_millis(9);

    assert!(matches!(
        ArtifactExpiry::begin(&records, &None, &ids, now, "retention".to_string()),
        Err(ArtifactError::InvalidScope { .. })
    ));
    let nothing =
        ArtifactExpiry::begin(&records, &None, &Vec::new(), now, "retention".to_string()).unwrap();
    assert_eq!(0, nothing.report().requested);
    assert_eq!(None, nothing.next_scope());
}
