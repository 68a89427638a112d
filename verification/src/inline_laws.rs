//! What of a tool's output stands inline, and what becomes of the rest.
use vstd::prelude::*;

use crate::artifacts::{ArtifactErrorModel, ArtifactResult};
use crate::domain::{
    OutputRef, OutputRefModel, StructuredValueModel, ToolResultFieldModel, ToolResultModel,
    TruncationMetadataModel,
};
use crate::settings::ToolOutputDefaults;
use crate::spillover;
use crate::spillover::{
    ArtifactWriter, ToolResultSpilloverOptionsModel, ToolResultSpilloverReportModel,
};
use crate::truncation;

verus! {

/// A value as text: a text as it is, a list with a line for each text, and of other values
/// none.
pub open spec fn written(value: StructuredValueModel) -> Option<Seq<char>> {
    match value {
        StructuredValueModel::String(text) => Some(text),
        StructuredValueModel::StringList(texts) => Some(crate::text::joined_by(texts, "\n"@)),
        _ => None,
    }
}

/// The bytes of a text.
pub open spec fn bytes(text: Seq<char>) -> nat {
    vstd::utf8::encode_utf8(text).len()
}

/// The bytes of a list of texts, one to a line.
pub open spec fn bytes_of_lines(texts: Seq<Seq<char>>) -> nat {
    bytes(crate::text::joined_by(texts, "\n"@))
}

/// The field takes more bytes than may stand inline.
pub open spec fn too_large(field: ToolResultFieldModel, max: nat) -> bool {
    written(field.value) is Some && bytes(written(field.value)->0) > max
}

/// Rejection, truncation and spillover agree on which fields are too large: those whose text
/// takes more bytes than the limit.
pub proof fn law_fields_are_measured_in_bytes(field: ToolResultFieldModel, max: usize)
    ensures
        truncation::oversize(field, max) is Some <==> too_large(field, max as nat) && max
            < usize::MAX,
        truncation::oversize(field, max) matches Some(size) ==> size == bytes(
            written(field.value)->0,
        ) || size == usize::MAX && bytes(written(field.value)->0) > usize::MAX,
        spillover::is_oversized(field, max as nat) <==> too_large(field, max as nat),
{
    crate::artifact_laws::law_fields_are_measured_alike(field.value);
}

/// A text is cut to the longest part from its start that fits.
pub proof fn law_texts_are_cut_where_the_room_ends(text: Seq<char>, max: usize)
    ensures
        truncation::truncated_value(StructuredValueModel::String(text), max) is String,
        ({
            let kept = truncation::truncated_value(
                StructuredValueModel::String(text),
                max,
            )->String_0;
            &&& kept.len() <= text.len()
            &&& kept == text.take(kept.len() as int)
            &&& bytes(kept) <= max
            &&& kept.len() < text.len() ==> bytes(text.take(kept.len() as int + 1)) > max
        }),
{
    crate::text::lemma_byte_prefix(text, max as nat);
}

/// The start of a text, of one character where it has any.
pub open spec fn first_of(text: Seq<char>) -> Seq<char> {
    if text.len() == 0 {
        text
    } else {
        text.take(1)
    }
}

/// A list is cut to whole texts from its start, the last of which may be cut itself; the lines
/// that are kept fit, and no character more would.
pub proof fn law_lists_are_cut_where_the_room_ends(texts: Seq<Seq<char>>, max: usize)
    ensures
        truncation::truncated_value(StructuredValueModel::StringList(texts), max) is StringList,
        ({
            let kept = truncation::truncated_value(
                StructuredValueModel::StringList(texts),
                max,
            )->StringList_0;
            let last = kept.len() - 1;
            &&& kept.len() <= texts.len()
            &&& forall|i: int| 0 <= i < last ==> #[trigger] kept[i] == texts[i]
            &&& kept.len() > 0 ==> kept[last].len() <= texts[last].len() && kept[last]
                == texts[last].take(kept[last].len() as int)
            &&& bytes_of_lines(kept) <= max
            &&& kept.len() > 0 && kept[last].len() < texts[last].len() ==> bytes_of_lines(
                kept.update(last, texts[last].take(kept[last].len() as int + 1)),
            ) > max
            &&& kept.len() < texts.len() && (kept.len() == 0 || kept[last] == texts[last]) ==> {
                let more = bytes_of_lines(kept.push(first_of(texts[kept.len() as int])));
                more >= max && (texts[kept.len() as int].len() > 0 ==> more > max)
            }
        }),
{
    let kept = truncation::truncated_list(texts, max as nat);
    let last = kept.len() - 1;
    lemma_kept_texts(texts, true, max as nat);
    truncation::lemma_kept_texts_fit(texts, true, max as nat);
    crate::artifact_laws::lemma_joined_bytes(kept);
    if kept.len() > 0 {
        crate::artifact_laws::lemma_joined_bytes(
            kept.update(last, texts[last].take(kept[last].len() as int + 1)),
        );
    }
    if kept.len() < texts.len() {
        crate::artifact_laws::lemma_joined_bytes(kept.push(first_of(texts[kept.len() as int])));
    }
}

/// The bytes of some lines, behind others or not.
spec fn line_bytes(texts: Seq<Seq<char>>, first: bool) -> nat {
    truncation::list_bytes(texts) + if !first && texts.len() > 0 {
        1nat
    } else {
        0
    }
}

proof fn lemma_kept_texts(texts: Seq<Seq<char>>, first: bool, room: nat)
    ensures
        ({
            let kept = truncation::kept_texts(texts, first, room);
            let last = kept.len() - 1;
            &&& kept.len() <= texts.len()
            &&& forall|i: int| 0 <= i < last ==> #[trigger] kept[i] == texts[i]
            &&& kept.len() > 0 ==> kept[last].len() <= texts[last].len() && kept[last]
                == texts[last].take(kept[last].len() as int)
            &&& kept.len() > 0 && kept[last].len() < texts[last].len() ==> line_bytes(
                kept.update(last, texts[last].take(kept[last].len() as int + 1)),
                first,
            ) > room
            &&& kept.len() < texts.len() && (kept.len() == 0 || kept[last] == texts[last]) ==> {
                let more = line_bytes(kept.push(first_of(texts[kept.len() as int])), first);
                more >= room && (texts[kept.len() as int].len() > 0 ==> more > room)
            }
        }),
    decreases texts.len(),
{
    let separator: nat = if first {
        0
    } else {
        1
    };
    let kept = truncation::kept_texts(texts, first, room);
    if texts.len() == 0 {
    } else if room <= separator {
        let more = kept.push(first_of(texts[0]));
        assert(more =~= seq![first_of(texts[0])]);
        lemma_one_line(first_of(texts[0]));
        if texts[0].len() > 0 {
            lemma_first_takes_room(texts[0]);
        }
    } else {
        let remaining = (room - separator) as nat;
        let size = crate::text::utf8_len(texts[0]);
        let part = crate::text::byte_prefix_of(texts[0], remaining);
        crate::text::lemma_byte_prefix(texts[0], remaining);
        if size <= remaining {
            let rest = texts.drop_first();
            let room_left = (remaining - size) as nat;
            let tail = truncation::kept_texts(rest, false, room_left);
            lemma_kept_texts(rest, false, room_left);
            assert(kept == seq![texts[0]] + tail);
            let last = kept.len() - 1;
            assert(texts[0] =~= texts[0].take(texts[0].len() as int));
            assert forall|i: int| 0 <= i < last implies #[trigger] kept[i] == texts[i] by {
                if i > 0 {
                    assert(tail[i - 1] == rest[i - 1]);
                }
            }
            if tail.len() > 0 {
                assert(kept[last] == tail[last - 1]);
                assert(texts[last] == rest[last - 1]);
                let longer = texts[last].take(kept[last].len() as int + 1);
                assert(kept.update(last, longer) =~= seq![texts[0]] + tail.update(
                    last - 1,
                    longer,
                ));
                truncation::lemma_list_bytes_front(texts[0], tail.update(last - 1, longer));
            }
            if kept.len() < texts.len() {
                let next = texts[kept.len() as int];
                assert(next == rest[tail.len() as int]);
                assert(kept.push(first_of(next)) =~= seq![texts[0]] + tail.push(first_of(next)));
                truncation::lemma_list_bytes_front(texts[0], tail.push(first_of(next)));
            }
        } else {
            if part.len() == texts[0].len() {
                assert(texts[0].take(part.len() as int) =~= texts[0]);
            }
            if part.len() > 0 {
                let longer = texts[0].take(part.len() as int + 1);
                assert(kept =~= seq![part]);
                assert(kept.update(0, longer) =~= seq![longer]);
                lemma_one_line(longer);
            } else {
                assert(kept.push(first_of(texts[0])) =~= seq![first_of(texts[0])]);
                lemma_one_line(first_of(texts[0]));
            }
        }
    }
}

proof fn lemma_one_line(text: Seq<char>)
    ensures
        truncation::list_bytes(seq![text]) == bytes(text),
{
    assert(seq![text].drop_last() =~= Seq::empty());
    assert(truncation::list_bytes(Seq::empty()) == 0);
    assert(seq![text].last() == text);
}

proof fn lemma_first_takes_room(text: Seq<char>)
    requires
        text.len() > 0,
    ensures
        bytes(first_of(text)) > 0,
{
    crate::text::lemma_byte_prefix(text, 0);
    let prefix = crate::text::byte_prefix_of(text, 0);
    if prefix.len() > 0 {
        assert(prefix == text.take(prefix.len() as int));
        crate::text::lemma_utf8_len_concat(text.take(1), prefix.skip(1));
        assert(text.take(1) + prefix.skip(1) =~= prefix);
        lemma_char_takes_room(text[0]);
    }
    crate::text::lemma_utf8_len_push(Seq::empty(), text[0]);
    assert(Seq::<char>::empty().push(text[0]) =~= text.take(1));
    lemma_char_takes_room(text[0]);
}

proof fn lemma_char_takes_room(c: char)
    ensures
        crate::text::char_width(c) > 0,
{
}

/// How many fields are too large.
pub open spec fn large_fields(fields: Seq<ToolResultFieldModel>, max: nat) -> nat
    decreases fields.len(),
{
    if fields.len() == 0 {
        0
    } else {
        large_fields(fields.drop_last(), max) + if too_large(fields.last(), max) {
            1nat
        } else {
            0
        }
    }
}

/// How many bytes those take.
pub open spec fn large_bytes(fields: Seq<ToolResultFieldModel>, max: nat) -> nat
    decreases fields.len(),
{
    if fields.len() == 0 {
        0
    } else {
        large_bytes(fields.drop_last(), max) + if too_large(fields.last(), max) {
            bytes(written(fields.last().value)->0)
        } else {
            0
        }
    }
}

/// How many bytes some fields take that stand in the place of those.
pub open spec fn remaining_bytes(
    fields: Seq<ToolResultFieldModel>,
    after: Seq<ToolResultFieldModel>,
    max: nat,
) -> nat
    decreases fields.len(),
{
    if fields.len() == 0 {
        0
    } else {
        remaining_bytes(fields.drop_last(), after, max) + if too_large(fields.last(), max) {
            bytes(written(after[fields.len() - 1].value)->0)
        } else {
            0
        }
    }
}

/// A number, or the largest one that can be written down.
pub open spec fn capped(n: nat) -> u64 {
    if n <= u64::MAX {
        n as u64
    } else {
        u64::MAX
    }
}

proof fn lemma_report(fields: Seq<ToolResultFieldModel>, all: Seq<ToolResultFieldModel>, max: usize)
    requires
        max < usize::MAX,
        fields.len() <= all.len() <= usize::MAX,
        fields == all.take(fields.len() as int),
        large_bytes(all, max as nat) <= usize::MAX,
    ensures
        ({
            let report = truncation::truncation_report(fields, max);
            &&& report.fields == large_fields(fields, max as nat)
            &&& report.fields <= fields.len()
            &&& report.original_bytes == capped(large_bytes(fields, max as nat))
            &&& report.retained_bytes == capped(
                remaining_bytes(fields, truncation::truncated_fields(all, max), max as nat),
            )
            &&& large_bytes(fields, max as nat) <= large_bytes(all, max as nat)
        }),
    decreases fields.len(),
{
    lemma_large_bytes_grow(fields, all, max as nat);
    if fields.len() > 0 {
        let front = fields.drop_last();
        assert(front =~= all.take(front.len() as int));
        lemma_report(front, all, max);
        let field = fields.last();
        assert(field == all[fields.len() - 1]);
        law_fields_are_measured_in_bytes(field, max);
        if too_large(field, max as nat) {
            let cut = truncation::truncated_value(field.value, max);
            crate::artifact_laws::law_fields_are_measured_alike(cut);
            assert(truncation::truncated_fields(all, max)[fields.len() - 1].value == cut);
            assert(bytes(written(field.value)->0) <= large_bytes(fields, max as nat));
        }
    }
}

/// A truncation report counts the fields that are too large.
pub proof fn lemma_report_counts(fields: Seq<ToolResultFieldModel>, max: usize)
    requires
        max < usize::MAX,
        fields.len() <= usize::MAX,
        large_bytes(fields, max as nat) <= usize::MAX,
    ensures
        truncation::truncation_report(fields, max).fields == large_fields(fields, max as nat),
{
    assert(fields =~= fields.take(fields.len() as int));
    lemma_report(fields, fields, max);
}

proof fn lemma_large_bytes_grow(
    fields: Seq<ToolResultFieldModel>,
    all: Seq<ToolResultFieldModel>,
    max: nat,
)
    requires
        fields.len() <= all.len(),
        fields == all.take(fields.len() as int),
    ensures
        large_bytes(fields, max) <= large_bytes(all, max),
    decreases all.len(),
{
    if fields.len() < all.len() {
        assert(fields =~= all.drop_last().take(fields.len() as int));
        lemma_large_bytes_grow(fields, all.drop_last(), max);
    } else {
        assert(fields =~= all);
    }
}

/// Truncation cuts just the fields that are too large, keeps all else of the result, and adds
/// to what is told of truncations how many bytes those fields took and take now.
pub proof fn law_truncation_tells_what_it_cut(result: ToolResultModel, max: usize)
    requires
        max < usize::MAX,
        result.fields.len() <= usize::MAX,
        large_bytes(result.fields, max as nat) <= usize::MAX,
    ensures
        ({
            let after = truncation::truncated_result(result, max);
            let lost = large_bytes(result.fields, max as nat);
            let left = remaining_bytes(result.fields, after.fields, max as nat);
            &&& after.fields.len() == result.fields.len()
            &&& forall|i: int|
                0 <= i < result.fields.len() ==> {
                    &&& (#[trigger] after.fields[i]).key == result.fields[i].key
                    &&& too_large(result.fields[i], max as nat) ==> after.fields[i].value
                        == truncation::truncated_value(result.fields[i].value, max)
                    &&& !too_large(result.fields[i], max as nat) ==> after.fields[i]
                        == result.fields[i]
                }
            &&& large_fields(result.fields, max as nat) == 0 ==> after.truncation
                == result.truncation
            &&& large_fields(result.fields, max as nat) > 0 ==> after.truncation is Some
                && tells_of_loss(
                result.truncation,
                after.truncation->0,
                lost,
                left,
                "runtime truncate_with_metadata"@,
            )
            &&& after == (ToolResultModel {
                fields: after.fields,
                truncation: after.truncation,
                ..result
            })
        }),
{
    assert(result.fields =~= result.fields.take(result.fields.len() as int));
    lemma_report(result.fields, result.fields, max);
    let after = truncation::truncated_result(result, max);
    assert forall|i: int| 0 <= i < result.fields.len() implies {
        &&& (#[trigger] after.fields[i]).key == result.fields[i].key
        &&& too_large(result.fields[i], max as nat) ==> after.fields[i].value
            == truncation::truncated_value(result.fields[i].value, max)
        &&& !too_large(result.fields[i], max as nat) ==> after.fields[i] == result.fields[i]
    } by {
        law_fields_are_measured_in_bytes(result.fields[i], max);
        if large_fields(result.fields, max as nat) == 0 {
            lemma_none_large(result.fields, max as nat, i);
        }
    }
}

proof fn lemma_none_large(fields: Seq<ToolResultFieldModel>, max: nat, i: int)
    requires
        large_fields(fields, max) == 0,
        0 <= i < fields.len(),
    ensures
        !too_large(fields[i], max),
    decreases fields.len(),
{
    if i < fields.len() - 1 {
        lemma_none_large(fields.drop_last(), max, i);
    }
}

/// What is told of a loss beside what was told before: the bytes are added up, and the
/// reasons stand one behind the other.
pub open spec fn tells_of_loss(
    before: Option<TruncationMetadataModel>,
    after: TruncationMetadataModel,
    lost: nat,
    left: nat,
    reason: Seq<char>,
) -> bool {
    match before {
        None => {
            &&& after.original_bytes == capped(lost)
            &&& after.retained_bytes == capped(left)
            &&& after.reason == reason
        },
        Some(earlier) => {
            &&& after.original_bytes == capped((earlier.original_bytes + capped(lost)) as nat)
            &&& after.retained_bytes == capped((earlier.retained_bytes + capped(left)) as nat)
            &&& after.reason == earlier.reason + "; "@ + reason
        },
    }
}

/// A result is rejected exactly where some field is too large, and the message begins with the
/// limit.
pub proof fn law_results_with_large_fields_are_rejected(
    result: ToolResultModel,
    defaults: ToolOutputDefaults,
)
    requires
        defaults.max_inline_bytes < usize::MAX,
    ensures
        truncation::rejection(result, defaults) is Some <==> exists|i: int|
            {
                &&& 0 <= i < result.fields.len()
                &&& too_large(#[trigger] result.fields[i], defaults.max_inline_bytes as nat)
            },
        truncation::rejection(result, defaults) matches Some(message) ==> {
            let opening = "tool output field(s) exceed max_inline_bytes="@ + crate::text::decimal(
                defaults.max_inline_bytes as nat,
            ) + " with configured policy reject_oversize: "@;
            &&& opening.len() <= message.len()
            &&& message.take(opening.len() as int) == opening
        },
{
    let max = truncation::as_size(defaults.max_inline_bytes);
    assert(max == defaults.max_inline_bytes);
    lemma_details(result.fields, max);
    if truncation::rejection(result, defaults) is Some {
        let opening = "tool output field(s) exceed max_inline_bytes="@ + crate::text::decimal(
            defaults.max_inline_bytes as nat,
        ) + " with configured policy reject_oversize: "@;
        let message = truncation::rejection(result, defaults)->0;
        assert(message.take(opening.len() as int) =~= opening);
    }
}

proof fn lemma_details(fields: Seq<ToolResultFieldModel>, max: usize)
    requires
        max < usize::MAX,
    ensures
        truncation::oversize_details(fields, max).len() > 0 <==> exists|i: int|
            0 <= i < fields.len() && too_large(#[trigger] fields[i], max as nat),
        truncation::oversize_details(fields, max).len() == large_fields(fields, max as nat),
    decreases fields.len(),
{
    if fields.len() > 0 {
        let front = fields.drop_last();
        lemma_details(front, max);
        law_fields_are_measured_in_bytes(fields.last(), max);
        if exists|i: int| 0 <= i < front.len() && too_large(#[trigger] front[i], max as nat) {
            let i = choose|i: int| 0 <= i < front.len() && too_large(#[trigger] front[i], max as nat);
            assert(too_large(fields[i], max as nat));
        }
        if too_large(fields.last(), max as nat) {
            assert(too_large(fields[fields.len() - 1], max as nat));
        }
        if exists|i: int| 0 <= i < fields.len() && too_large(#[trigger] fields[i], max as nat) {
            let i = choose|i: int|
                0 <= i < fields.len() && too_large(#[trigger] fields[i], max as nat);
            if i < front.len() {
                assert(too_large(front[i], max as nat));
            }
        }
    }
}

/// The field that is told of in a rejection is told of by its key and its size.
pub proof fn law_large_fields_are_named_with_their_size(
    fields: Seq<ToolResultFieldModel>,
    field: ToolResultFieldModel,
    max: usize,
)
    requires
        max < usize::MAX,
    ensures
        ({
            let before = truncation::oversize_details(fields, max);
            let after = truncation::oversize_details(fields.push(field), max);
            &&& !too_large(field, max as nat) ==> after == before
            &&& too_large(field, max as nat) && bytes(written(field.value)->0) <= usize::MAX
                ==> after == before + seq![
                field.key + " ("@ + crate::text::decimal(bytes(written(field.value)->0))
                    + " bytes)"@,
            ]
        }),
{
    law_fields_are_measured_in_bytes(field, max);
    assert(fields.push(field).drop_last() =~= fields);
}

/// The writer was asked to keep a text, under the tool's and the field's name, and gave the
/// reference.
pub open spec fn kept_by<W: ArtifactWriter>(
    store: &W,
    scope: Seq<char>,
    name: Seq<char>,
    media_type: Seq<char>,
    text: Seq<char>,
    output_ref: OutputRefModel,
) -> bool {
    exists|s: &str, l: &str, m: &str, b: &[u8], a: OutputRef|
        {
            &&& #[trigger] call_ensures(
                W::write_artifact_bytes,
                (store, s, l, m, b),
                ArtifactResult::Ok(a),
            )
            &&& s@ == scope
            &&& l@ == name
            &&& m@ == media_type
            &&& b@ == vstd::utf8::encode_utf8(text)
            &&& a@ == output_ref
        }
}

/// Where large fields are moved, each of them is kept by the writer in full and a reference
/// to it stands in its place; the others stay; the references are added to the result's; and
/// both result and report tell of the bytes.
pub proof fn law_large_fields_are_moved_in_full<W: ArtifactWriter>(
    store: &W,
    scope: Seq<char>,
    options: ToolResultSpilloverOptionsModel,
    result: ToolResultModel,
    settled: ToolResultModel,
    report: ToolResultSpilloverReportModel,
    i: int,
)
    requires
        spillover::spill_outcome(
            store,
            scope,
            options,
            result,
            settled,
            Ok::<Option<ToolResultSpilloverReportModel>, ArtifactErrorModel>(Some(report)),
        ),
        0 <= i < result.fields.len(),
    ensures
        settled.fields.len() == result.fields.len(),
        settled.fields[i].key == result.fields[i].key,
        !too_large(result.fields[i], options.max_inline_bytes as nat) ==> settled.fields[i]
            == result.fields[i],
        too_large(result.fields[i], options.max_inline_bytes as nat) ==> exists|
            output_ref: OutputRefModel,
        |
            {
                &&& #[trigger] kept_by(
                    store,
                    scope,
                    result.tool_id + "."@ + result.fields[i].key,
                    options.media_type,
                    written(result.fields[i].value)->0,
                    output_ref,
                )
                &&& settled.fields[i].value == StructuredValueModel::String(
                    "artifact_ref "@ + output_ref.uri,
                )
                &&& settled.output_refs.contains(output_ref)
                &&& report.spilled_fields.contains(result.fields[i].key)
            },
        settled.output_refs.len() == result.output_refs.len() + large_fields(
            result.fields,
            options.max_inline_bytes as nat,
        ),
        settled.output_refs.take(result.output_refs.len() as int) == result.output_refs,
        report.spilled_fields.len() == large_fields(
            result.fields,
            options.max_inline_bytes as nat,
        ),
        report.original_bytes == capped(
            large_bytes(result.fields, options.max_inline_bytes as nat),
        ),
        report.retained_bytes == capped(
            remaining_bytes(result.fields, settled.fields, options.max_inline_bytes as nat),
        ),
        settled.truncation is Some,
        tells_of_loss(
            result.truncation,
            settled.truncation->0,
            large_bytes(result.fields, options.max_inline_bytes as nat),
            remaining_bytes(result.fields, settled.fields, options.max_inline_bytes as nat),
            "artifact spillover"@,
        ),
        settled == (ToolResultModel {
            fields: settled.fields,
            output_refs: settled.output_refs,
            truncation: settled.truncation,
            ..result
        }),
{
    let max = options.max_inline_bytes as nat;
    let plan = choose|plan: Seq<Option<OutputRefModel>>|
        {
            &&& #[trigger] spillover::plan_fits(plan, result.fields, max)
            &&& spillover::plan_written(store, scope, options.media_type, result, plan)
            &&& settled == spillover::spilled(result, plan)
            &&& spillover::report_of(result.fields, plan) == Some(report)
        };
    assert(spillover::is_oversized(result.fields[i], max) <==> too_large(result.fields[i], max));
    assert(settled.output_refs.take(result.output_refs.len() as int) =~= result.output_refs);
    assert(plan =~= plan.take(plan.len() as int));
    assert(result.fields =~= result.fields.take(plan.len() as int));
    lemma_plan(result.fields, plan, max, result.fields.len() as int);
    if plan[i] is Some {
        let output_ref = plan[i]->0;
        let text = spillover::spillable(result.fields[i].value)->0;
        lemma_planned(result.fields, plan, i);
        let k = choose|k: int|
            0 <= k < spillover::planned_refs(plan).len() && spillover::planned_refs(plan)[k]
                == output_ref;
        assert(settled.output_refs[result.output_refs.len() + k] == output_ref);
        let name = spillover::label_of(result.tool_id, result.fields[i].key);
        assert(spillover::writer_answers(
            store,
            scope,
            name,
            options.media_type,
            text,
            Ok(output_ref),
        ));
        let (s, l, m, b, a) = choose|s: &str, l: &str, m: &str, b: &[u8], a: ArtifactResult<
            OutputRef,
        >|
            {
                &&& #[trigger] call_ensures(W::write_artifact_bytes, (store, s, l, m, b), a)
                &&& s@ == scope
                &&& l@ == name
                &&& m@ == options.media_type
                &&& b@ == vstd::utf8::encode_utf8(text)
                &&& Ok::<OutputRefModel, ArtifactErrorModel>(output_ref) == (match a {
                    Ok(kept) => Ok::<OutputRefModel, ArtifactErrorModel>(kept@),
                    Err(error) => Err(error@),
                })
            };
        assert(a is Ok);
        assert(call_ensures(
            W::write_artifact_bytes,
            (store, s, l, m, b),
            ArtifactResult::Ok(a->Ok_0),
        ));
        assert(kept_by(store, scope, name, options.media_type, text, output_ref));
    }
}

proof fn lemma_plan(
    fields: Seq<ToolResultFieldModel>,
    plan: Seq<Option<OutputRefModel>>,
    max: nat,
    n: int,
)
    requires
        spillover::plan_fits(plan, fields, max),
        0 <= n <= fields.len(),
    ensures
        ({
            let some = fields.take(n);
            let planned = plan.take(n);
            let after = spillover::spilled_fields(fields, plan);
            &&& spillover::planned_refs(planned).len() == large_fields(some, max)
            &&& spillover::planned_keys(fields, planned).len() == large_fields(some, max)
            &&& spillover::planned_original(fields, planned) == capped(large_bytes(some, max))
            &&& spillover::planned_retained(planned) == capped(remaining_bytes(some, after, max))
        }),
    decreases n,
{
    if n > 0 {
        lemma_plan(fields, plan, max, n - 1);
        assert(fields.take(n).drop_last() =~= fields.take(n - 1));
        assert(plan.take(n).drop_last() =~= plan.take(n - 1));
        assert(plan.take(n).last() == plan[n - 1]);
        assert(plan[n - 1] is Some <==> too_large(fields[n - 1], max)) by {
            assert(spillover::is_oversized(fields[n - 1], max) <==> too_large(fields[n - 1], max));
        }
        let after = spillover::spilled_fields(fields, plan);
        assert(after[n - 1] == spillover::spilled_field(fields[n - 1], plan[n - 1]));
    }
}

proof fn lemma_planned(
    fields: Seq<ToolResultFieldModel>,
    plan: Seq<Option<OutputRefModel>>,
    i: int,
)
    requires
        0 <= i < plan.len(),
        plan[i] is Some,
    ensures
        spillover::planned_refs(plan).contains(plan[i]->0),
        spillover::planned_keys(fields, plan).contains(fields[i].key),
    decreases plan.len(),
{
    let refs = spillover::planned_refs(plan);
    let keys = spillover::planned_keys(fields, plan);
    if i < plan.len() - 1 {
        let front = plan.drop_last();
        lemma_planned(fields, front, i);
        let refs_before = spillover::planned_refs(front);
        let keys_before = spillover::planned_keys(fields, front);
        let a = choose|a: int| 0 <= a < refs_before.len() && refs_before[a] == plan[i]->0;
        let b = choose|b: int| 0 <= b < keys_before.len() && keys_before[b] == fields[i].key;
        assert(refs[a] == plan[i]->0);
        assert(keys[b] == fields[i].key);
    } else {
        assert(refs[refs.len() - 1] == plan[i]->0);
        assert(keys[keys.len() - 1] == fields[i].key);
    }
}

/// Nothing is moved exactly where no field is too large, or the limit is no bytes at all; a
/// result that could not be moved stays as it was.
pub proof fn law_results_that_fit_are_left_alone<W: ArtifactWriter>(
    store: &W,
    scope: Seq<char>,
    options: ToolResultSpilloverOptionsModel,
    result: ToolResultModel,
    settled: ToolResultModel,
    outcome: Result<Option<ToolResultSpilloverReportModel>, ArtifactErrorModel>,
)
    requires
        spillover::spill_outcome(store, scope, options, result, settled, outcome),
    ensures
        ({
            let nothing = options.max_inline_bytes == 0 || large_fields(
                result.fields,
                options.max_inline_bytes as nat,
            ) == 0;
            &&& nothing <==> outcome == Ok::<
                Option<ToolResultSpilloverReportModel>,
                ArtifactErrorModel,
            >(None)
            &&& nothing || outcome is Err ==> settled == result
        }),
{
    let max = options.max_inline_bytes as nat;
    lemma_some_large(result.fields, max);
    if spillover::any_oversized(result.fields, max) {
        let i = choose|i: int|
            0 <= i < result.fields.len() && spillover::is_oversized(
                #[trigger] result.fields[i],
                max,
            );
        assert(too_large(result.fields[i], max));
    } else {
        assert forall|i: int| 0 <= i < result.fields.len() implies !too_large(
            #[trigger] result.fields[i],
            max,
        ) by {
            assert(!spillover::is_oversized(result.fields[i], max));
        }
    }
}

proof fn lemma_some_large(fields: Seq<ToolResultFieldModel>, max: nat)
    ensures
        large_fields(fields, max) == 0 <==> forall|i: int|
            0 <= i < fields.len() ==> !too_large(#[trigger] fields[i], max),
    decreases fields.len(),
{
    if fields.len() > 0 {
        let front = fields.drop_last();
        lemma_some_large(front, max);
        if large_fields(fields, max) == 0 {
            assert forall|i: int| 0 <= i < fields.len() implies !too_large(
                #[trigger] fields[i],
                max,
            ) by {
                lemma_none_large(fields, max, i);
            }
        } else if !too_large(fields.last(), max) {
            let i = choose|i: int| 0 <= i < front.len() && too_large(#[trigger] front[i], max);
            assert(too_large(fields[i], max));
        } else {
            assert(too_large(fields[fields.len() - 1], max));
        }
    }
}

/// Of each field that was moved, the writer is told how many bytes it took and how many the
/// reference in its place takes.
pub proof fn law_writers_are_told_the_sizes<W: ArtifactWriter>(
    store: &W,
    scope: Seq<char>,
    options: ToolResultSpilloverOptionsModel,
    result: ToolResultModel,
    settled: ToolResultModel,
    report: ToolResultSpilloverReportModel,
    i: int,
)
    requires
        spillover::spill_outcome(
            store,
            scope,
            options,
            result,
            settled,
            Ok::<Option<ToolResultSpilloverReportModel>, ArtifactErrorModel>(Some(report)),
        ),
        0 <= i < result.fields.len(),
        too_large(result.fields[i], options.max_inline_bytes as nat),
    ensures
        exists|s: &str, o: OutputRef, original: u64, retained: u64, a: ArtifactResult<()>|
            {
                &&& #[trigger] call_ensures(
                    W::update_spill_metadata,
                    (store, s, &o, Some(original), Some(retained)),
                    a,
                )
                &&& a is Ok
                &&& s@ == scope
                &&& settled.fields[i].value == StructuredValueModel::String(
                    "artifact_ref "@ + o@.uri,
                )
                &&& original == bytes(written(result.fields[i].value)->0)
                &&& retained == bytes("artifact_ref "@ + o@.uri)
            },
{
    let max = options.max_inline_bytes as nat;
    let plan = choose|plan: Seq<Option<OutputRefModel>>|
        {
            &&& #[trigger] spillover::plan_fits(plan, result.fields, max)
            &&& spillover::plan_written(store, scope, options.media_type, result, plan)
            &&& settled == spillover::spilled(result, plan)
            &&& spillover::report_of(result.fields, plan) == Some(report)
        };
    assert(spillover::is_oversized(result.fields[i], max));
    assert(plan[i] is Some);
    let output_ref = plan[i]->0;
    let text = spillover::spillable(result.fields[i].value)->0;
    assert(spillover::writer_notes(store, scope, output_ref, text, Ok(())));
    let (s, o, original, retained, a) = choose|
        s: &str,
        o: OutputRef,
        original: u64,
        retained: u64,
        a: ArtifactResult<()>,
    |
        {
            &&& #[trigger] call_ensures(
                W::update_spill_metadata,
                (store, s, &o, Some(original), Some(retained)),
                a,
            )
            &&& s@ == scope
            &&& o@ == output_ref
            &&& original == crate::text::utf8_len(text)
            &&& retained == crate::text::utf8_len(spillover::reference_text(output_ref))
            &&& Ok::<(), ArtifactErrorModel>(()) == (match a {
                Ok(_) => Ok::<(), ArtifactErrorModel>(()),
                Err(error) => Err(error@),
            })
        };
    assert(a is Ok);
}

/// The writer was asked to delete an artifact, and to take it out of its index.
pub open spec fn taken_back_by<W: ArtifactWriter>(
    store: &W,
    scope: Seq<char>,
    output_ref: OutputRefModel,
) -> bool {
    exists|s: &str, o: OutputRef, a: ArtifactResult<()>, b: ArtifactResult<()>|
        {
            &&& #[trigger] call_ensures(W::delete_artifact_bytes, (store, &o), a)
            &&& #[trigger] call_ensures(W::delete_artifact_record, (store, s, &o), b)
            &&& s@ == scope
            &&& o@ == output_ref
        }
}

/// Where a field cannot be moved, everything that was written for the fields before it is
/// taken back.
pub proof fn law_failed_moves_are_taken_back<W: ArtifactWriter>(
    store: &W,
    scope: Seq<char>,
    options: ToolResultSpilloverOptionsModel,
    result: ToolResultModel,
    settled: ToolResultModel,
    error: ArtifactErrorModel,
)
    requires
        spillover::spill_outcome(
            store,
            scope,
            options,
            result,
            settled,
            Err::<Option<ToolResultSpilloverReportModel>, ArtifactErrorModel>(error),
        ),
    ensures
        settled == result,
        exists|failed: int, plan: Seq<Option<OutputRefModel>>|
            {
                &&& 0 <= failed < result.fields.len()
                &&& too_large(
                    #[trigger] result.fields[failed],
                    options.max_inline_bytes as nat,
                )
                &&& #[trigger] spillover::taken_back(store, scope, plan)
                &&& failed <= plan.len()
                &&& forall|i: int|
                    0 <= i < failed && too_large(
                        #[trigger] result.fields[i],
                        options.max_inline_bytes as nat,
                    ) ==> plan[i] is Some && taken_back_by(store, scope, plan[i]->0)
            },
{
    let max = options.max_inline_bytes as nat;
    assert(spillover::writer_failed(store, scope, options, result, error));
    let (failed, plan) = choose|failed: int, plan: Seq<Option<OutputRefModel>>|
        {
            &&& 0 <= failed < result.fields.len()
            &&& spillover::is_oversized(#[trigger] result.fields[failed], max)
            &&& #[trigger] spillover::taken_back(store, scope, plan)
            &&& failed <= plan.len()
            &&& spillover::plan_fits(plan.take(failed), result.fields.take(failed), max)
        };
    assert forall|i: int| 0 <= i < failed && too_large(#[trigger] result.fields[i], max) implies {
        plan[i] is Some && taken_back_by(store, scope, plan[i]->0)
    } by {
        assert(result.fields.take(failed)[i] == result.fields[i]);
        assert(plan.take(failed)[i] == plan[i]);
        assert(spillover::is_oversized(result.fields.take(failed)[i], max));
        assert(spillover::writer_forgets(store, scope, plan[i]->0));
    }
    assert(too_large(result.fields[failed], max));
}

} // verus!
