//! Large fields of tool results, which are moved to artifacts and replaced by references
//! to them.
use vstd::prelude::*;

use crate::artifacts::{ArtifactErrorModel, ArtifactResult};
use crate::domain::{
    OutputRef, OutputRefModel, StructuredValue, StructuredValueModel, ToolResult, ToolResultField,
    ToolResultFieldModel, ToolResultModel, TruncationMetadata, TruncationMetadataModel,
};
use crate::record::Record;
use crate::text::{byte_len, join_texts};

verus! {

pub const DEFAULT_MEDIA_TYPE: &'static str = "text/plain; charset=utf-8";

#[derive(Debug, PartialEq, Eq)]
pub struct ToolResultSpilloverOptions {
    pub max_inline_bytes: usize,
    pub media_type: String,
}

/// What a [`ToolResultSpilloverOptions`] holds.
pub struct ToolResultSpilloverOptionsModel {
    pub max_inline_bytes: usize,
    pub media_type: Seq<char>,
}

impl DeepView for ToolResultSpilloverOptions {
    type V = ToolResultSpilloverOptionsModel;

    open spec fn deep_view(&self) -> ToolResultSpilloverOptionsModel {
        ToolResultSpilloverOptionsModel {
            max_inline_bytes: self.max_inline_bytes.deep_view(),
            media_type: self.media_type.deep_view(),
        }
    }
}

impl View for ToolResultSpilloverOptions {
    type V = ToolResultSpilloverOptionsModel;

    #[verifier::inline]
    open spec fn view(&self) -> ToolResultSpilloverOptionsModel {
        self.deep_view()
    }
}

impl Record for ToolResultSpilloverOptions {
    fn duplicate(&self) -> (r: Self) {
        ToolResultSpilloverOptions {
            max_inline_bytes: self.max_inline_bytes.duplicate(),
            media_type: self.media_type.duplicate(),
        }
    }

    fn same(&self, other: &Self) -> (r: bool) {
        self.max_inline_bytes.same(&other.max_inline_bytes)
            && self.media_type.same(&other.media_type)
    }
}

impl Clone for ToolResultSpilloverOptions {
    fn clone(&self) -> (r: Self)
        ensures
            r.deep_view() == self.deep_view(),
    {
        self.duplicate()
    }
}

impl ToolResultSpilloverOptions {
    pub fn new(max_inline_bytes: usize) -> (r: Self)
        ensures
            r@ == (ToolResultSpilloverOptionsModel {
                max_inline_bytes,
                media_type: DEFAULT_MEDIA_TYPE@,
            }),
    {
        ToolResultSpilloverOptions { max_inline_bytes, media_type: DEFAULT_MEDIA_TYPE.to_owned() }
    }

    pub fn with_media_type(self, media_type: String) -> (r: Self)
        ensures
            r@ == (ToolResultSpilloverOptionsModel { media_type: media_type@, ..self@ }),
    {
        ToolResultSpilloverOptions { max_inline_bytes: self.max_inline_bytes, media_type }
    }
}

#[derive(Debug, PartialEq, Eq)]
pub struct ToolResultSpilloverReport {
    pub spilled_fields: Vec<String>,
    pub original_bytes: u64,
    pub retained_bytes: u64,
}

/// What a [`ToolResultSpilloverReport`] holds.
pub struct ToolResultSpilloverReportModel {
    pub spilled_fields: Seq<Seq<char>>,
    pub original_bytes: u64,
    pub retained_bytes: u64,
}

impl DeepView for ToolResultSpilloverReport {
    type V = ToolResultSpilloverReportModel;

    open spec fn deep_view(&self) -> ToolResultSpilloverReportModel {
        ToolResultSpilloverReportModel {
            spilled_fields: self.spilled_fields.deep_view(),
            original_bytes: self.original_bytes.deep_view(),
            retained_bytes: self.retained_bytes.deep_view(),
        }
    }
}

impl View for ToolResultSpilloverReport {
    type V = ToolResultSpilloverReportModel;

    #[verifier::inline]
    open spec fn view(&self) -> ToolResultSpilloverReportModel {
        self.deep_view()
    }
}

impl Record for ToolResultSpilloverReport {
    fn duplicate(&self) -> (r: Self) {
        ToolResultSpilloverReport {
            spilled_fields: self.spilled_fields.duplicate(),
            original_bytes: self.original_bytes.duplicate(),
            retained_bytes: self.retained_bytes.duplicate(),
        }
    }

    fn same(&self, other: &Self) -> (r: bool) {
        self.spilled_fields.same(&other.spilled_fields)
            && self.original_bytes.same(&other.original_bytes)
            && self.retained_bytes.same(&other.retained_bytes)
    }
}

impl Clone for ToolResultSpilloverReport {
    fn clone(&self) -> (r: Self)
        ensures
            r.deep_view() == self.deep_view(),
    {
        self.duplicate()
    }
}

/// Keeps artifacts. A host brings its own. What a writer leaves out succeeds and does
/// nothing.
pub trait ArtifactWriter {
    fn write_artifact_bytes(
        &self,
        scope: &str,
        label: &str,
        media_type: &str,
        bytes: &[u8],
    ) -> ArtifactResult<OutputRef>;

    fn delete_artifact_bytes(&self, output_ref: &OutputRef) -> (r: ArtifactResult<()>)
        default_ensures
            r is Ok,
    {
        Ok(())
    }

    fn update_spill_metadata(
        &self,
        scope: &str,
        output_ref: &OutputRef,
        original_bytes: Option<u64>,
        retained_bytes: Option<u64>,
    ) -> (r: ArtifactResult<()>)
        default_ensures
            r is Ok,
    {
        Ok(())
    }

    fn delete_artifact_record(&self, scope: &str, output_ref: &OutputRef) -> (r: ArtifactResult<()>)
        default_ensures
            r is Ok,
    {
        Ok(())
    }
}

/// The text of a value that can be moved to an artifact.
pub open spec fn spillable(value: StructuredValueModel) -> Option<Seq<char>> {
    match value {
        StructuredValueModel::String(text) => Some(text),
        StructuredValueModel::StringList(texts) => Some(crate::text::joined_by(texts, "\n"@)),
        _ => None,
    }
}

fn spillable_text(field: &ToolResultField) -> (r: Option<String>)
    ensures
        r.deep_view() == spillable(field@.value),
{
    match &field.value {
        StructuredValue::String(text) => Some(text.clone()),
        StructuredValue::StringList(texts) => Some(join_texts(texts, "\n")),
        StructuredValue::Null | StructuredValue::Bool(_) | StructuredValue::Integer(_) => None,
    }
}

/// The field takes more bytes than may stand inline.
pub open spec fn is_oversized(field: ToolResultFieldModel, max_inline_bytes: nat) -> bool {
    spillable(field.value) is Some && crate::text::utf8_len(spillable(field.value)->0)
        > max_inline_bytes
}

/// Some field does.
pub open spec fn any_oversized(
    fields: Seq<ToolResultFieldModel>,
    max_inline_bytes: nat,
) -> bool {
    exists|i: int| 0 <= i < fields.len() && is_oversized(#[trigger] fields[i], max_inline_bytes)
}

/// A plan names an artifact for each field that goes to one.
pub open spec fn plan_fits(
    plan: Seq<Option<OutputRefModel>>,
    fields: Seq<ToolResultFieldModel>,
    max_inline_bytes: nat,
) -> bool {
    &&& plan.len() == fields.len()
    &&& forall|i: int|
        0 <= i < fields.len() ==> (#[trigger] plan[i] is Some <==> is_oversized(
            fields[i],
            max_inline_bytes,
        ))
}

/// What stands inline in the place of a field that was moved.
pub open spec fn reference_text(output_ref: OutputRefModel) -> Seq<char> {
    "artifact_ref "@ + output_ref.uri
}

fn reference_to(output_ref: &OutputRef) -> (r: String)
    ensures
        r@ == reference_text(output_ref@),
{
    "artifact_ref ".to_owned().concat(output_ref.uri.as_str())
}

pub open spec fn spilled_field(
    field: ToolResultFieldModel,
    planned: Option<OutputRefModel>,
) -> ToolResultFieldModel {
    match planned {
        Some(output_ref) => ToolResultFieldModel {
            value: StructuredValueModel::String(reference_text(output_ref)),
            ..field
        },
        None => field,
    }
}

pub open spec fn spilled_fields(
    fields: Seq<ToolResultFieldModel>,
    plan: Seq<Option<OutputRefModel>>,
) -> Seq<ToolResultFieldModel> {
    Seq::new(fields.len(), |i: int| spilled_field(fields[i], plan[i]))
}

/// The artifacts of a plan.
pub open spec fn planned_refs(plan: Seq<Option<OutputRefModel>>) -> Seq<OutputRefModel>
    decreases plan.len(),
{
    if plan.len() == 0 {
        Seq::empty()
    } else {
        match plan.last() {
            Some(output_ref) => planned_refs(plan.drop_last()).push(output_ref),
            None => planned_refs(plan.drop_last()),
        }
    }
}

/// The keys of the fields that a plan moves.
pub open spec fn planned_keys(
    fields: Seq<ToolResultFieldModel>,
    plan: Seq<Option<OutputRefModel>>,
) -> Seq<Seq<char>>
    decreases plan.len(),
{
    if plan.len() == 0 {
        Seq::empty()
    } else {
        let n = plan.len() - 1;
        let others = planned_keys(fields, plan.drop_last());
        match plan[n] {
            Some(_) => others.push(fields[n].key),
            None => others,
        }
    }
}

/// A sum that stays within its range.
pub open spec fn capped_sum(a: u64, b: int) -> u64 {
    if a + b > u64::MAX {
        u64::MAX
    } else {
        (a + b) as u64
    }
}

pub fn capped_add(a: u64, b: u64) -> (r: u64)
    ensures
        r == capped_sum(a, b as int),
{
    if a > u64::MAX - b {
        u64::MAX
    } else {
        a + b
    }
}

/// The bytes that the moved fields took.
pub open spec fn planned_original(
    fields: Seq<ToolResultFieldModel>,
    plan: Seq<Option<OutputRefModel>>,
) -> u64
    decreases plan.len(),
{
    if plan.len() == 0 {
        0
    } else {
        let n = plan.len() - 1;
        let others = planned_original(fields, plan.drop_last());
        match plan[n] {
            Some(_) => capped_sum(
                others,
                match spillable(fields[n].value) {
                    Some(text) => crate::text::utf8_len(text) as int,
                    None => 0,
                },
            ),
            None => others,
        }
    }
}

/// The bytes that the references in their place take.
pub open spec fn planned_retained(plan: Seq<Option<OutputRefModel>>) -> u64
    decreases plan.len(),
{
    if plan.len() == 0 {
        0
    } else {
        let others = planned_retained(plan.drop_last());
        match plan.last() {
            Some(output_ref) => capped_sum(
                others,
                crate::text::utf8_len(reference_text(output_ref)) as int,
            ),
            None => others,
        }
    }
}

/// What is said of a truncation that is added to what was said before.
pub open spec fn merged_truncation(
    existing: Option<TruncationMetadataModel>,
    original_bytes: u64,
    retained_bytes: u64,
    reason: Seq<char>,
) -> TruncationMetadataModel {
    match existing {
        Some(existing) => TruncationMetadataModel {
            original_bytes: capped_sum(existing.original_bytes, original_bytes as int),
            retained_bytes: capped_sum(existing.retained_bytes, retained_bytes as int),
            reason: existing.reason + "; "@ + reason,
        },
        None => TruncationMetadataModel { original_bytes, retained_bytes, reason },
    }
}

pub fn merge_truncation(
    existing: &Option<TruncationMetadata>,
    original_bytes: u64,
    retained_bytes: u64,
    reason: &str,
) -> (r: TruncationMetadata)
    ensures
        r@ == merged_truncation(existing.deep_view(), original_bytes, retained_bytes, reason@),
{
    match existing {
        Some(existing) => TruncationMetadata {
            original_bytes: capped_add(existing.original_bytes, original_bytes),
            retained_bytes: capped_add(existing.retained_bytes, retained_bytes),
            reason: existing.reason.clone().concat("; ").concat(reason),
        },
        None => TruncationMetadata { original_bytes, retained_bytes, reason: reason.to_owned() },
    }
}

/// A tool result with the planned fields moved; as it was where none is.
pub open spec fn spilled(
    result: ToolResultModel,
    plan: Seq<Option<OutputRefModel>>,
) -> ToolResultModel {
    if planned_refs(plan).len() == 0 {
        result
    } else {
        ToolResultModel {
            fields: spilled_fields(result.fields, plan),
            output_refs: result.output_refs + planned_refs(plan),
            truncation: Some(
                merged_truncation(
                    result.truncation,
                    planned_original(result.fields, plan),
                    planned_retained(plan),
                    "artifact spillover"@,
                ),
            ),
            ..result
        }
    }
}

/// What is reported of a plan that was carried out.
pub open spec fn report_of(
    fields: Seq<ToolResultFieldModel>,
    plan: Seq<Option<OutputRefModel>>,
) -> Option<ToolResultSpilloverReportModel> {
    if planned_refs(plan).len() == 0 {
        None
    } else {
        Some(
            ToolResultSpilloverReportModel {
                spilled_fields: planned_keys(fields, plan),
                original_bytes: planned_original(fields, plan),
                retained_bytes: planned_retained(plan),
            },
        )
    }
}

/// Moves the planned fields of a result to their artifacts.
pub fn apply_spill_plan(result: &mut ToolResult, plan: &Vec<Option<OutputRef>>) -> (r: Option<
    ToolResultSpilloverReport,
>)
    requires
        plan.len() == old(result).fields.len(),
    ensures
        final(result)@ == spilled(old(result)@, plan.deep_view()),
        r.deep_view() == report_of(old(result)@.fields, plan.deep_view()),
{
    let ghost before = result@;
    let ghost all = result@.fields;
    let ghost planned = plan.deep_view();
    let mut fields: Vec<ToolResultField> = Vec::new();
    let mut refs: Vec<OutputRef> = Vec::new();
    let mut keys: Vec<String> = Vec::new();
    let mut original_bytes: u64 = 0;
    let mut retained_bytes: u64 = 0;
    let mut i: usize = 0;
    proof {
        assert(fields.deep_view() =~= spilled_fields(all, planned).take(0));
        assert(refs.deep_view() =~= planned_refs(planned.take(0)));
        assert(keys.deep_view() =~= planned_keys(all, planned.take(0)));
    }
    while i < plan.len()
        invariant
            i <= plan.len() == result.fields.len(),
            result@ == before,
            all == before.fields,
            all == result.fields.deep_view(),
            planned == plan.deep_view(),
            fields.deep_view() == spilled_fields(all, planned).take(i as int),
            refs.deep_view() == planned_refs(planned.take(i as int)),
            keys.deep_view() == planned_keys(all, planned.take(i as int)),
            original_bytes == planned_original(all, planned.take(i as int)),
            retained_bytes == planned_retained(planned.take(i as int)),
        decreases plan.len() - i,
    {
        proof {
            let longer = planned.take(i + 1);
            assert(longer.drop_last() =~= planned.take(i as int));
            assert(longer.last() == planned[i as int]);
            assert(planned[i as int] == plan[i as int].deep_view());
            assert(all[i as int] == result.fields[i as int]@);
            let list = spilled_fields(all, planned);
            assert(list.take(i + 1) =~= list.take(i as int).push(list[i as int]));
        }
        let mut field = result.fields[i].clone();
        match &plan[i] {
            Some(output_ref) => {
                let reference = reference_to(output_ref);
                let size: u64 = match spillable_text(&field) {
                    Some(text) => byte_len(text.as_str()) as u64,
                    None => 0,
                };
                original_bytes = capped_add(original_bytes, size);
                retained_bytes = capped_add(retained_bytes, byte_len(reference.as_str()) as u64);
                let ghost listed = keys.deep_view();
                keys.push(field.key.clone());
                assert(keys.deep_view() =~= listed.push(field.key@));
                let ghost sofar = refs.deep_view();
                refs.push(output_ref.clone());
                assert(refs.deep_view() =~= sofar.push(output_ref@));
                field.value = StructuredValue::String(reference);
            },
            None => {},
        }
        let ghost done = fields.deep_view();
        fields.push(field);
        assert(fields.deep_view() =~= done.push(field@));
        i += 1;
    }
    proof {
        assert(planned.take(i as int) =~= planned);
        let list = spilled_fields(all, planned);
        assert(list.take(i as int) =~= list);
    }
    if refs.len() == 0 {
        return None;
    }
    let truncation = merge_truncation(
        &result.truncation,
        original_bytes,
        retained_bytes,
        "artifact spillover",
    );
    let ghost earlier = result.output_refs.deep_view();
    let ghost added = refs.deep_view();
    result.fields = fields;
    result.output_refs.append(&mut refs);
    assert(result.output_refs.deep_view() =~= earlier + added);
    result.truncation = Some(truncation);
    Some(ToolResultSpilloverReport { spilled_fields: keys, original_bytes, retained_bytes })
}

/// The writer was asked to delete an artifact and to take it out of the index.
pub open spec fn writer_forgets<W: ArtifactWriter>(
    store: &W,
    scope: Seq<char>,
    output_ref: OutputRefModel,
) -> bool {
    exists|s: &str, o: OutputRef, a: ArtifactResult<()>, b: ArtifactResult<()>|
        {
            &&& #[trigger] call_ensures(W::delete_artifact_bytes, (store, &o), a)
            &&& #[trigger] call_ensures(W::delete_artifact_record, (store, s, &o), b)
            &&& s@ == scope
            &&& o@ == output_ref
        }
}

/// Every artifact of a plan was taken back.
pub open spec fn taken_back<W: ArtifactWriter>(
    store: &W,
    scope: Seq<char>,
    plan: Seq<Option<OutputRefModel>>,
) -> bool {
    forall|i: int|
        0 <= i < plan.len() && #[trigger] plan[i] is Some ==> writer_forgets(
            store,
            scope,
            plan[i]->0,
        )
}

fn rollback_artifact_writes<W: ArtifactWriter>(
    writer: &W,
    scope: &str,
    plan: &Vec<Option<OutputRef>>,
)
    ensures
        taken_back(writer, scope@, plan.deep_view()),
{
    let mut i: usize = 0;
    while i < plan.len()
        invariant
            i <= plan.len(),
            forall|j: int|
                0 <= j < i && #[trigger] plan.deep_view()[j] is Some ==> writer_forgets(
                    writer,
                    scope@,
                    plan.deep_view()[j]->0,
                ),
        decreases plan.len() - i,
    {
        match &plan[i] {
            Some(output_ref) => {
                let _ = writer.delete_artifact_bytes(output_ref);
                let _ = writer.delete_artifact_record(scope, output_ref);
                assert(writer_forgets(writer, scope@, output_ref@));
            },
            None => {},
        }
        i += 1;
    }
}

/// The label of the artifact of a field.
pub open spec fn label_of(tool_id: Seq<char>, key: Seq<char>) -> Seq<char> {
    tool_id + "."@ + key
}

pub fn artifact_label(tool_id: &str, key: &str) -> (r: String)
    ensures
        r@ == label_of(tool_id@, key@),
{
    tool_id.to_owned().concat(".").concat(key)
}

/// The writer, asked to keep a text under a label, gave the answer.
pub open spec fn writer_answers<W: ArtifactWriter>(
    store: &W,
    scope: Seq<char>,
    label: Seq<char>,
    media_type: Seq<char>,
    text: Seq<char>,
    answer: Result<OutputRefModel, ArtifactErrorModel>,
) -> bool {
    exists|s: &str, l: &str, m: &str, b: &[u8], a: ArtifactResult<OutputRef>|
        {
            &&& #[trigger] call_ensures(W::write_artifact_bytes, (store, s, l, m, b), a)
            &&& s@ == scope
            &&& l@ == label
            &&& m@ == media_type
            &&& b@ == vstd::utf8::encode_utf8(text)
            &&& answer == (match a {
                Ok(output_ref) => Ok::<OutputRefModel, ArtifactErrorModel>(output_ref@),
                Err(error) => Err(error@),
            })
        }
}

/// The writer, told how large an artifact was and what stands in its place, gave the answer.
pub open spec fn writer_notes<W: ArtifactWriter>(
    store: &W,
    scope: Seq<char>,
    output_ref: OutputRefModel,
    text: Seq<char>,
    answer: Result<(), ArtifactErrorModel>,
) -> bool {
    exists|s: &str, o: OutputRef, original: u64, retained: u64, a: ArtifactResult<()>|
        {
            &&& #[trigger] call_ensures(
                W::update_spill_metadata,
                (store, s, &o, Some(original), Some(retained)),
                a,
            )
            &&& s@ == scope
            &&& o@ == output_ref
            &&& original == crate::text::utf8_len(text)
            &&& retained == crate::text::utf8_len(reference_text(output_ref))
            &&& answer == (match a {
                Ok(_) => Ok::<(), ArtifactErrorModel>(()),
                Err(error) => Err(error@),
            })
        }
}

/// Each artifact of a plan holds what its field held: the writer was asked for it, and
/// told of it.
pub open spec fn plan_written<W: ArtifactWriter>(
    store: &W,
    scope: Seq<char>,
    media_type: Seq<char>,
    result: ToolResultModel,
    plan: Seq<Option<OutputRefModel>>,
) -> bool {
    forall|i: int|
        0 <= i < plan.len() && #[trigger] plan[i] is Some ==> {
            &&& writer_answers(
                store,
                scope,
                label_of(result.tool_id, result.fields[i].key),
                media_type,
                spillable(result.fields[i].value)->0,
                Ok(plan[i]->0),
            )
            &&& writer_notes(
                store,
                scope,
                plan[i]->0,
                spillable(result.fields[i].value)->0,
                Ok(()),
            )
        }
}

/// The writer failed on some field that is too large, and what had been written until then
/// was taken back.
pub open spec fn writer_failed<W: ArtifactWriter>(
    store: &W,
    scope: Seq<char>,
    options: ToolResultSpilloverOptionsModel,
    result: ToolResultModel,
    error: ArtifactErrorModel,
) -> bool {
    let max = options.max_inline_bytes as nat;
    exists|i: int, plan: Seq<Option<OutputRefModel>>|
        {
            &&& 0 <= i < result.fields.len()
            &&& is_oversized(#[trigger] result.fields[i], max)
            &&& #[trigger] taken_back(store, scope, plan)
            &&& i <= plan.len()
            &&& plan_fits(plan.take(i), result.fields.take(i), max)
            &&& plan_written(store, scope, options.media_type, result, plan.take(i))
            &&& {
                let label = label_of(result.tool_id, result.fields[i].key);
                let text = spillable(result.fields[i].value)->0;
                ||| {
                    &&& plan.len() == i
                    &&& writer_answers(store, scope, label, options.media_type, text, Err(error))
                }
                ||| {
                    &&& plan.len() == i + 1
                    &&& plan[i] is Some
                    &&& writer_answers(
                        store,
                        scope,
                        label,
                        options.media_type,
                        text,
                        Ok(plan[i]->0),
                    )
                    &&& writer_notes(store, scope, plan[i]->0, text, Err(error))
                }
            }
        }
}

/// Writes an artifact for every field that is too large, and says which goes where. Where
/// a write fails, those before it are taken back.
fn write_oversized_fields<W: ArtifactWriter>(
    result: &ToolResult,
    store: &W,
    scope: &str,
    options: &ToolResultSpilloverOptions,
) -> (r: ArtifactResult<Vec<Option<OutputRef>>>)
    ensures
        match r {
            Ok(plan) => {
                &&& plan_fits(plan.deep_view(), result@.fields, options.max_inline_bytes as nat)
                &&& plan_written(store, scope@, options@.media_type, result@, plan.deep_view())
            },
            Err(error) => writer_failed(store, scope@, options@, result@, error@),
        },
{
    let ghost all = result@.fields;
    let mut plan: Vec<Option<OutputRef>> = Vec::new();
    let mut i: usize = 0;
    while i < result.fields.len()
        invariant
            i <= result.fields.len(),
            all == result.fields.deep_view(),
            plan.len() == i,
            forall|j: int|
                0 <= j < i ==> (#[trigger] plan.deep_view()[j] is Some <==> is_oversized(
                    all[j],
                    options.max_inline_bytes as nat,
                )),
            plan_written(store, scope@, options@.media_type, result@, plan.deep_view()),
        decreases result.fields.len() - i,
    {
        let field = &result.fields[i];
        assert(all[i as int] == field@);
        let ghost before = plan.deep_view();
        let planned = match spillable_text(field) {
            Some(text) => {
                let size: usize = byte_len(text.as_str());
                if size > options.max_inline_bytes {
                    assert(is_oversized(all[i as int], options.max_inline_bytes as nat));
                    let label = artifact_label(result.tool_id.as_str(), field.key.as_str());
                    let answer = store.write_artifact_bytes(
                        scope,
                        label.as_str(),
                        options.media_type.as_str(),
                        text.as_str().as_bytes(),
                    );
                    let output_ref = match answer {
                        Ok(output_ref) => output_ref,
                        Err(error) => {
                            rollback_artifact_writes(store, scope, &plan);
                            proof {
                                assert(before.take(i as int) =~= before);
                                assert(taken_back(store, scope@, before));
                            }
                            return Err(error);
                        },
                    };
                    let retained: usize = byte_len(reference_to(&output_ref).as_str());
                    match store.update_spill_metadata(
                        scope,
                        &output_ref,
                        Some(size as u64),
                        Some(retained as u64),
                    ) {
                        Ok(_) => {},
                        Err(error) => {
                            plan.push(Some(output_ref));
                            rollback_artifact_writes(store, scope, &plan);
                            proof {
                                let failed = plan.deep_view();
                                assert(failed =~= before.push(Some(output_ref@)));
                                assert(failed.take(i as int) =~= before);
                                assert(writer_notes(
                                    store,
                                    scope@,
                                    output_ref@,
                                    text@,
                                    Err(error@),
                                ));
                                assert(taken_back(store, scope@, failed));
                            }
                            return Err(error);
                        },
                    }
                    Some(output_ref)
                } else {
                    None
                }
            },
            None => None,
        };
        plan.push(planned);
        assert(plan.deep_view() =~= before.push(planned.deep_view()));
        i += 1;
    }
    Ok(plan)
}

/// What moving the large fields of a result to artifacts leads to.
pub open spec fn spill_outcome<W: ArtifactWriter>(
    store: &W,
    scope: Seq<char>,
    options: ToolResultSpilloverOptionsModel,
    result: ToolResultModel,
    settled: ToolResultModel,
    outcome: Result<Option<ToolResultSpilloverReportModel>, ArtifactErrorModel>,
) -> bool {
    let max = options.max_inline_bytes as nat;
    if max == 0 || !any_oversized(result.fields, max) {
        settled == result && outcome == Ok::<
            Option<ToolResultSpilloverReportModel>,
            ArtifactErrorModel,
        >(None)
    } else {
        match outcome {
            Err(error) => settled == result && writer_failed(
                store,
                scope,
                options,
                result,
                error,
            ),
            Ok(None) => false,
            Ok(Some(report)) => exists|plan: Seq<Option<OutputRefModel>>|
                {
                    &&& #[trigger] plan_fits(plan, result.fields, max)
                    &&& plan_written(store, scope, options.media_type, result, plan)
                    &&& settled == spilled(result, plan)
                    &&& report_of(result.fields, plan) == Some(report)
                },
        }
    }
}

/// Moves the fields of a result that are too large to artifacts. A limit of zero bytes
/// moves none.
pub fn spill_large_tool_result_fields<W: ArtifactWriter>(
    result: &mut ToolResult,
    store: &W,
    scope: &str,
    options: &ToolResultSpilloverOptions,
) -> (r: ArtifactResult<Option<ToolResultSpilloverReport>>)
    ensures
        spill_outcome(
            store,
            scope@,
            options@,
            old(result)@,
            final(result)@,
            (match r {
                Ok(report) => Ok(report.deep_view()),
                Err(error) => Err(error@),
            }),
        ),
{
    if options.max_inline_bytes == 0 {
        return Ok(None);
    }
    let plan = write_oversized_fields(result, store, scope, options)?;
    let ghost planned = plan.deep_view();
    let ghost fields = result@.fields;
    proof {
        lemma_planned_refs(planned);
        if any_oversized(fields, options.max_inline_bytes as nat) {
            let i = choose|i: int|
                0 <= i < fields.len() && is_oversized(
                    #[trigger] fields[i],
                    options.max_inline_bytes as nat,
                );
            assert(planned[i] is Some);
        } else {
            assert forall|i: int| 0 <= i < planned.len() implies #[trigger] planned[i] is None by {
                assert(!is_oversized(fields[i], options.max_inline_bytes as nat));
            }
        }
    }
    Ok(apply_spill_plan(result, &plan))
}

/// A plan holds an artifact just where one of its places does.
proof fn lemma_planned_refs(plan: Seq<Option<OutputRefModel>>)
    ensures
        planned_refs(plan).len() == 0 <==> forall|i: int|
            0 <= i < plan.len() ==> #[trigger] plan[i] is None,
    decreases plan.len(),
{
    if plan.len() > 0 {
        let front = plan.drop_last();
        lemma_planned_refs(front);
        if planned_refs(front).len() > 0 {
            let i = choose|i: int| 0 <= i < front.len() && #[trigger] front[i] is Some;
            assert(plan[i] is Some);
        }
        if planned_refs(plan).len() == 0 {
            assert forall|i: int| 0 <= i < plan.len() implies #[trigger] plan[i] is None by {
                if i < front.len() {
                    assert(front[i] is None);
                }
            }
        } else if planned_refs(front).len() == 0 {
            assert(plan[plan.len() - 1] is Some);
        }
    }
}

} // verus!
