//! Sizes of tool result fields, and what becomes of fields that are too large to stand
//! inline.
use vstd::prelude::*;

use crate::domain::{
    StructuredValue, StructuredValueModel, ToolResult, ToolResultField, ToolResultFieldModel,
    ToolResultModel,
};
use crate::record::Record;
use crate::settings::ToolOutputDefaults;
use crate::spillover::{capped_add, merge_truncation};
use crate::text::{byte_len, byte_prefix, decimal_text, join_texts};

verus! {

/// The bytes of some texts with a separator of one byte between them.
pub open spec fn list_bytes(texts: Seq<Seq<char>>) -> nat
    decreases texts.len(),
{
    if texts.len() == 0 {
        0
    } else {
        list_bytes(texts.drop_last()) + crate::text::utf8_len(texts.last()) + (if texts.len() > 1 {
            1nat
        } else {
            0
        })
    }
}

pub open spec fn at_most(n: nat, max: nat) -> nat {
    if n <= max {
        n
    } else {
        max
    }
}

/// The bytes that a value takes inline, where its size matters.
pub open spec fn value_bytes(value: StructuredValueModel) -> Option<nat> {
    match value {
        StructuredValueModel::String(text) => Some(crate::text::utf8_len(text)),
        StructuredValueModel::StringList(texts) => Some(list_bytes(texts)),
        _ => None,
    }
}

/// The size of a field that is over the limit, as far as sizes can be told.
pub open spec fn oversize(field: ToolResultFieldModel, max: usize) -> Option<usize> {
    match value_bytes(field.value) {
        Some(bytes) => if at_most(bytes, usize::MAX as nat) > max {
            Some(at_most(bytes, usize::MAX as nat) as usize)
        } else {
            None
        },
        None => None,
    }
}

fn capped_add_size(a: usize, b: usize) -> (r: usize)
    ensures
        r == at_most((a + b) as nat, usize::MAX as nat),
{
    if a > usize::MAX - b {
        usize::MAX
    } else {
        a + b
    }
}

pub fn string_list_byte_len(values: &Vec<String>) -> (r: usize)
    ensures
        r == at_most(list_bytes(values.deep_view()), usize::MAX as nat),
{
    let ghost all = values.deep_view();
    let mut bytes: usize = 0;
    let mut i: usize = 0;
    while i < values.len()
        invariant
            i <= values.len(),
            all == values.deep_view(),
            bytes == at_most(list_bytes(all.take(i as int)), usize::MAX as nat),
        decreases values.len() - i,
    {
        proof {
            assert(all.take(i + 1).drop_last() =~= all.take(i as int));
            assert(all.take(i + 1).last() == values[i as int]@);
        }
        bytes = capped_add_size(bytes, byte_len(values[i].as_str()));
        if i > 0 {
            bytes = capped_add_size(bytes, 1);
        }
        i += 1;
    }
    assert(all.take(i as int) =~= all);
    bytes
}

pub fn oversized_field_bytes(field: &ToolResultField, max_inline_bytes: usize) -> (r: Option<usize>)
    ensures
        r == oversize(field@, max_inline_bytes),
{
    let bytes: usize = match &field.value {
        StructuredValue::String(value) => byte_len(value.as_str()),
        StructuredValue::StringList(values) => string_list_byte_len(values),
        StructuredValue::Null | StructuredValue::Bool(_) | StructuredValue::Integer(_) => {
            return None;
        },
    };
    if bytes > max_inline_bytes {
        Some(bytes)
    } else {
        None
    }
}

/// A limit as a size in memory.
pub open spec fn as_size(max_inline_bytes: u64) -> usize {
    at_most(max_inline_bytes as nat, usize::MAX as nat) as usize
}

pub fn max_inline_bytes_as_usize(max_inline_bytes: u64) -> (r: usize)
    ensures
        r == as_size(max_inline_bytes),
{
    if max_inline_bytes > usize::MAX as u64 {
        usize::MAX
    } else {
        max_inline_bytes as usize
    }
}

/// How a field over the limit is told of.
pub open spec fn oversize_detail(key: Seq<char>, size: usize) -> Seq<char> {
    key + " ("@ + crate::text::decimal(size as nat) + " bytes)"@
}

/// The fields over the limit, as they are told of.
pub open spec fn oversize_details(fields: Seq<ToolResultFieldModel>, max: usize) -> Seq<Seq<char>>
    decreases fields.len(),
{
    if fields.len() == 0 {
        Seq::empty()
    } else {
        let others = oversize_details(fields.drop_last(), max);
        match oversize(fields.last(), max) {
            Some(size) => others.push(oversize_detail(fields.last().key, size)),
            None => others,
        }
    }
}

/// Why a result with fields over the limit is rejected.
pub open spec fn rejection(result: ToolResultModel, defaults: ToolOutputDefaults) -> Option<
    Seq<char>,
> {
    let details = oversize_details(result.fields, as_size(defaults.max_inline_bytes));
    if details.len() == 0 {
        None
    } else {
        Some(
            "tool output field(s) exceed max_inline_bytes="@ + crate::text::decimal(
                defaults.max_inline_bytes as nat,
            ) + " with configured policy reject_oversize: "@ + crate::text::joined_by(
                details,
                ", "@,
            ),
        )
    }
}

pub fn reject_oversized_tool_result(result: &ToolResult, defaults: &ToolOutputDefaults) -> (r:
    Option<String>)
    ensures
        r.deep_view() == rejection(result@, *defaults),
{
    let max: usize = max_inline_bytes_as_usize(defaults.max_inline_bytes);
    let ghost all = result@.fields;
    let mut details: Vec<String> = Vec::new();
    let mut i: usize = 0;
    assert(details.deep_view() =~= oversize_details(all.take(0), max));
    while i < result.fields.len()
        invariant
            i <= result.fields.len(),
            all == result.fields.deep_view(),
            details.deep_view() == oversize_details(all.take(i as int), max),
        decreases result.fields.len() - i,
    {
        proof {
            assert(all.take(i + 1).drop_last() =~= all.take(i as int));
            assert(all.take(i + 1).last() == result.fields[i as int]@);
        }
        let field = &result.fields[i];
        match oversized_field_bytes(field, max) {
            Some(size) => {
                let detail = field.key.clone().concat(" (").concat(
                    decimal_text(size as u64).as_str(),
                ).concat(" bytes)");
                let ghost before = details.deep_view();
                details.push(detail);
                assert(details.deep_view() =~= before.push(detail@));
            },
            None => {},
        }
        i += 1;
    }
    assert(all.take(i as int) =~= all);
    if details.len() == 0 {
        return None;
    }
    Some(
        "tool output field(s) exceed max_inline_bytes=".to_owned().concat(
            decimal_text(defaults.max_inline_bytes).as_str(),
        ).concat(" with configured policy reject_oversize: ").concat(
            join_texts(&details, ", ").as_str(),
        ),
    )
}

/// What is kept of a list of texts in `room` bytes: whole texts as long as they fit, then
/// what fits of the next one.
pub open spec fn kept_texts(texts: Seq<Seq<char>>, first: bool, room: nat) -> Seq<Seq<char>>
    decreases texts.len(),
{
    let separator: nat = if first {
        0
    } else {
        1
    };
    if texts.len() == 0 || room <= separator {
        Seq::empty()
    } else {
        let remaining = (room - separator) as nat;
        let bytes = crate::text::utf8_len(texts[0]);
        let part = crate::text::byte_prefix_of(texts[0], remaining);
        if bytes <= remaining {
            seq![texts[0]] + kept_texts(texts.drop_first(), false, (remaining - bytes) as nat)
        } else if part.len() > 0 {
            seq![part]
        } else {
            Seq::empty()
        }
    }
}

pub open spec fn truncated_list(texts: Seq<Seq<char>>, max: nat) -> Seq<Seq<char>> {
    kept_texts(texts, true, max)
}

proof fn lemma_list_bytes_push(texts: Seq<Seq<char>>, text: Seq<char>)
    ensures
        list_bytes(texts.push(text)) == list_bytes(texts) + crate::text::utf8_len(text) + (
        if texts.len() > 0 {
            1nat
        } else {
            0
        }),
{
    assert(texts.push(text).drop_last() =~= texts);
}

pub fn truncate_string_list(values: &Vec<String>, max_inline_bytes: usize) -> (r: (
    Vec<String>,
    usize,
))
    ensures
        r.0.deep_view() == truncated_list(values.deep_view(), max_inline_bytes as nat),
        r.1 == list_bytes(r.0.deep_view()),
        r.1 <= max_inline_bytes,
{
    let ghost all = values.deep_view();
    let ghost target = truncated_list(all, max_inline_bytes as nat);
    let mut kept: Vec<String> = Vec::new();
    let mut used: usize = 0;
    let mut i: usize = 0;
    proof {
        assert(all.skip(0) =~= all);
        assert(kept.deep_view() =~= Seq::empty());
        assert(target =~= kept.deep_view() + kept_texts(all.skip(0), true, max_inline_bytes as nat));
    }
    while i < values.len()
        invariant_except_break
            kept.len() == i,
            target == kept.deep_view() + kept_texts(
                all.skip(i as int),
                i == 0,
                (max_inline_bytes - used) as nat,
            ),
        invariant
            i <= values.len(),
            all == values.deep_view(),
            used == list_bytes(kept.deep_view()),
            used <= max_inline_bytes,
        ensures
            target == kept.deep_view(),
            used == list_bytes(kept.deep_view()),
            used <= max_inline_bytes,
        decreases values.len() - i,
    {
        let ghost tail = all.skip(i as int);
        proof {
            assert(tail[0] == values[i as int]@);
            assert(tail.drop_first() =~= all.skip(i + 1));
        }
        let separator: usize = if i > 0 {
            1
        } else {
            0
        };
        let ghost before = kept.deep_view();
        if max_inline_bytes - used <= separator {
            assert(before + Seq::<Seq<char>>::empty() =~= before);
            break;
        }
        let remaining: usize = max_inline_bytes - used - separator;
        let value = values[i].as_str();
        let bytes: usize = byte_len(value);
        if bytes <= remaining {
            kept.push(value.to_owned());
            proof {
                assert(kept.deep_view() =~= before.push(value@));
                lemma_list_bytes_push(before, value@);
                let rest = kept_texts(all.skip(i + 1), false, (remaining - bytes) as nat);
                assert(before + (seq![value@] + rest) =~= before.push(value@) + rest);
            }
            used = used + separator + bytes;
            i += 1;
            continue;
        }
        let part = byte_prefix(value, remaining);
        proof {
            crate::text::lemma_byte_prefix(value@, remaining as nat);
        }
        if !part.is_empty() {
            let part_bytes: usize = byte_len(part);
            kept.push(part.to_owned());
            proof {
                assert(kept.deep_view() =~= before.push(part@));
                lemma_list_bytes_push(before, part@);
                assert(before + seq![part@] =~= before.push(part@));
            }
            used = used + separator + part_bytes;
        } else {
            assert(before + Seq::<Seq<char>>::empty() =~= before);
        }
        break;
    }
    (kept, used)
}

/// A value cut down to the limit, where it is over it.
pub open spec fn truncated_value(value: StructuredValueModel, max: usize) -> StructuredValueModel {
    match value {
        StructuredValueModel::String(text) => StructuredValueModel::String(
            crate::text::byte_prefix_of(text, max as nat),
        ),
        StructuredValueModel::StringList(texts) => StructuredValueModel::StringList(
            truncated_list(texts, max as nat),
        ),
        _ => value,
    }
}

pub open spec fn truncated_field(field: ToolResultFieldModel, max: usize) -> ToolResultFieldModel {
    if oversize(field, max) is Some {
        ToolResultFieldModel { value: truncated_value(field.value, max), ..field }
    } else {
        field
    }
}

pub open spec fn truncated_fields(fields: Seq<ToolResultFieldModel>, max: usize) -> Seq<
    ToolResultFieldModel,
> {
    Seq::new(fields.len(), |i: int| truncated_field(fields[i], max))
}

/// What was cut from how many fields.
#[derive(Debug, Clone, Copy, PartialEq, Eq, Structural)]
pub struct ToolResultTruncationReport {
    pub fields: usize,
    pub original_bytes: u64,
    pub retained_bytes: u64,
}

impl DeepView for ToolResultTruncationReport {
    type V = ToolResultTruncationReport;

    open spec fn deep_view(&self) -> ToolResultTruncationReport {
        *self
    }
}

impl Record for ToolResultTruncationReport {
    fn duplicate(&self) -> (r: Self) {
        *self
    }

    fn same(&self, other: &Self) -> (r: bool) {
        *self == *other
    }
}

impl ToolResultTruncationReport {
    pub open spec fn nothing() -> ToolResultTruncationReport {
        ToolResultTruncationReport { fields: 0, original_bytes: 0, retained_bytes: 0 }
    }
}

/// The report on the truncation of some fields.
pub open spec fn truncation_report(fields: Seq<ToolResultFieldModel>, max: usize) ->
    ToolResultTruncationReport
    decreases fields.len(),
{
    if fields.len() == 0 {
        ToolResultTruncationReport::nothing()
    } else {
        let others = truncation_report(fields.drop_last(), max);
        let field = fields.last();
        match oversize(field, max) {
            Some(size) => ToolResultTruncationReport {
                fields: (others.fields + 1) as usize,
                original_bytes: crate::spillover::capped_sum(others.original_bytes, size as int),
                retained_bytes: crate::spillover::capped_sum(
                    others.retained_bytes,
                    value_bytes(truncated_value(field.value, max))->0 as int,
                ),
            },
            None => others,
        }
    }
}

/// A value cut down to the limit, and the bytes that it takes then.
fn truncate_value(value: &StructuredValue, max: usize) -> (r: (StructuredValue, usize))
    requires
        value_bytes(value@) is Some,
    ensures
        r.0@ == truncated_value(value@, max),
        value_bytes(r.0@) == Some(r.1 as nat),
        r.1 <= max,
{
    match value {
        StructuredValue::String(text) => {
            let part = byte_prefix(text.as_str(), max);
            proof {
                crate::text::lemma_byte_prefix(text@, max as nat);
            }
            (StructuredValue::String(part.to_owned()), byte_len(part))
        },
        StructuredValue::StringList(texts) => {
            let (kept, used) = truncate_string_list(texts, max);
            (StructuredValue::StringList(kept), used)
        },
        StructuredValue::Null | StructuredValue::Bool(_) | StructuredValue::Integer(_) => {
            assert(false);
            (StructuredValue::Null, 0)
        },
    }
}

/// Cuts the fields of a result down to the limit, and reports on it where there was any
/// to cut.
pub fn truncate_oversized_tool_result_fields(
    result: &mut ToolResult,
    max_inline_bytes: usize,
) -> (r: Option<ToolResultTruncationReport>)
    ensures
        final(result)@ == (ToolResultModel {
            fields: truncated_fields(old(result)@.fields, max_inline_bytes),
            ..old(result)@
        }),
        r == (if truncation_report(old(result)@.fields, max_inline_bytes).fields == 0 {
            None
        } else {
            Some(truncation_report(old(result)@.fields, max_inline_bytes))
        }),
{
    let ghost all = result@.fields;
    let ghost before = result@;
    let max: usize = max_inline_bytes;
    let mut report = ToolResultTruncationReport { fields: 0, original_bytes: 0, retained_bytes: 0 };
    let mut fields: Vec<ToolResultField> = Vec::new();
    let mut i: usize = 0;
    assert(fields.deep_view() =~= truncated_fields(all, max).take(0));
    while i < result.fields.len()
        invariant
            i <= result.fields.len(),
            result@ == before,
            all == result.fields.deep_view(),
            all == before.fields,
            report == truncation_report(all.take(i as int), max),
            report.fields <= i,
            fields.deep_view() == truncated_fields(all, max).take(i as int),
        decreases result.fields.len() - i,
    {
        proof {
            assert(all.take(i + 1).drop_last() =~= all.take(i as int));
            assert(all.take(i + 1).last() == result.fields[i as int]@);
            let list = truncated_fields(all, max);
            assert(list.take(i + 1) =~= list.take(i as int).push(list[i as int]));
        }
        let mut field = result.fields[i].clone();
        match oversized_field_bytes(&field, max) {
            Some(size) => {
                let (value, retained) = truncate_value(&field.value, max);
                field.value = value;
                report = ToolResultTruncationReport {
                    fields: report.fields + 1,
                    original_bytes: capped_add(report.original_bytes, size as u64),
                    retained_bytes: capped_add(report.retained_bytes, retained as u64),
                };
            },
            None => {},
        }
        let ghost done = fields.deep_view();
        fields.push(field);
        assert(fields.deep_view() =~= done.push(field@));
        i += 1;
    }
    proof {
        assert(all.take(i as int) =~= all);
        let list = truncated_fields(all, max);
        assert(list.take(i as int) =~= list);
    }
    result.fields = fields;
    if report.fields == 0 {
        None
    } else {
        Some(report)
    }
}

/// A result whose fields over the limit are cut, with what was cut written down.
pub open spec fn truncated_result(result: ToolResultModel, max: usize) -> ToolResultModel {
    let report = truncation_report(result.fields, max);
    if report.fields == 0 {
        result
    } else {
        ToolResultModel {
            fields: truncated_fields(result.fields, max),
            truncation: Some(
                crate::spillover::merged_truncation(
                    result.truncation,
                    report.original_bytes,
                    report.retained_bytes,
                    "runtime truncate_with_metadata"@,
                ),
            ),
            ..result
        }
    }
}

/// Where nothing is reported, nothing was cut.
pub proof fn lemma_no_report_no_cut(fields: Seq<ToolResultFieldModel>, max: usize)
    requires
        fields.len() <= usize::MAX,
    ensures
        truncation_report(fields, max).fields <= fields.len(),
        truncation_report(fields, max).fields == 0 <==> forall|i: int|
            0 <= i < fields.len() ==> oversize(#[trigger] fields[i], max) is None,
        truncation_report(fields, max).fields == 0 ==> truncated_fields(fields, max) == fields,
    decreases fields.len(),
{
    if fields.len() > 0 {
        let front = fields.drop_last();
        lemma_no_report_no_cut(front, max);
        let last = fields.len() - 1;
        if truncation_report(fields, max).fields == 0 {
            assert forall|i: int| 0 <= i < fields.len() implies oversize(
                #[trigger] fields[i],
                max,
            ) is None by {
                if i < last {
                    assert(oversize(front[i], max) is None);
                }
            }
        } else {
            if truncation_report(front, max).fields == 0 {
                assert(oversize(fields[last], max) is Some);
            } else {
                let i = choose|i: int| 0 <= i < front.len() && oversize(#[trigger] front[i], max)
                    is Some;
                assert(oversize(fields[i], max) is Some);
            }
        }
    }
    if truncation_report(fields, max).fields == 0 {
        assert(truncated_fields(fields, max) =~= fields);
    }
}

/// Cuts the fields of a result down to the limit and writes down what was cut; says
/// whether there was anything to cut.
pub fn truncate_with_metadata(result: &mut ToolResult, max_inline_bytes: usize) -> (r: bool)
    ensures
        final(result)@ == truncated_result(old(result)@, max_inline_bytes),
        r == (truncation_report(old(result)@.fields, max_inline_bytes).fields > 0),
{
    proof {
        assert(result@.fields.len() == result.fields.len());
        lemma_no_report_no_cut(result@.fields, max_inline_bytes);
    }
    match truncate_oversized_tool_result_fields(result, max_inline_bytes) {
        Some(report) => {
            let truncation = merge_truncation(
                &result.truncation,
                report.original_bytes,
                report.retained_bytes,
                "runtime truncate_with_metadata",
            );
            result.truncation = Some(truncation);
            true
        },
        None => false,
    }
}

/// No field is over the limit.
pub open spec fn all_inline(fields: Seq<ToolResultFieldModel>, max: usize) -> bool {
    forall|i: int| 0 <= i < fields.len() ==> oversize(#[trigger] fields[i], max) is None
}

pub proof fn lemma_kept_texts_fit(texts: Seq<Seq<char>>, first: bool, room: nat)
    ensures
        ({
            let kept = kept_texts(texts, first, room);
            list_bytes(kept) + (if !first && kept.len() > 0 {
                1nat
            } else {
                0
            }) <= room
        }),
    decreases texts.len(),
{
    let separator: nat = if first {
        0
    } else {
        1
    };
    if texts.len() > 0 && room > separator {
        let remaining = (room - separator) as nat;
        let bytes = crate::text::utf8_len(texts[0]);
        let part = crate::text::byte_prefix_of(texts[0], remaining);
        crate::text::lemma_byte_prefix(texts[0], remaining);
        if bytes <= remaining {
            let rest = kept_texts(texts.drop_first(), false, (remaining - bytes) as nat);
            lemma_kept_texts_fit(texts.drop_first(), false, (remaining - bytes) as nat);
            lemma_list_bytes_front(texts[0], rest);
        } else if part.len() > 0 {
            assert(seq![part].drop_last() =~= Seq::empty());
            assert(list_bytes(seq![part].drop_last()) == 0);
            assert(seq![part].last() == part);
        }
    }
}

pub proof fn lemma_list_bytes_front(text: Seq<char>, rest: Seq<Seq<char>>)
    ensures
        list_bytes(seq![text] + rest) == crate::text::utf8_len(text) + list_bytes(rest) + (
        if rest.len() > 0 {
            1nat
        } else {
            0
        }),
    decreases rest.len(),
{
    let all = seq![text] + rest;
    if rest.len() == 0 {
        assert(all.drop_last() =~= Seq::empty());
        assert(list_bytes(all.drop_last()) == 0);
        assert(all.last() == text);
    } else {
        lemma_list_bytes_front(text, rest.drop_last());
        assert(all.drop_last() =~= seq![text] + rest.drop_last());
    }
}

/// After truncation no field is over the limit, every field keeps its key, and fields
/// that were within the limit are as they were.
pub proof fn law_truncation_fits_the_limit(result: ToolResultModel, max: usize)
    requires
        result.fields.len() <= usize::MAX,
    ensures
        all_inline(truncated_result(result, max).fields, max),
        truncated_result(result, max).fields.len() == result.fields.len(),
        forall|i: int|
            0 <= i < result.fields.len() ==> {
                &&& (#[trigger] truncated_result(result, max).fields[i]).key
                    == result.fields[i].key
                &&& oversize(result.fields[i], max) is None ==> truncated_result(
                    result,
                    max,
                ).fields[i] == result.fields[i]
            },
{
    lemma_no_report_no_cut(result.fields, max);
    let cut = truncated_fields(result.fields, max);
    assert forall|i: int| 0 <= i < cut.len() implies oversize(#[trigger] cut[i], max) is None by {
        let field = result.fields[i];
        if oversize(field, max) is Some {
            match field.value {
                StructuredValueModel::String(text) => {
                    crate::text::lemma_byte_prefix(text, max as nat);
                },
                StructuredValueModel::StringList(texts) => {
                    lemma_kept_texts_fit(texts, true, max as nat);
                },
                _ => {},
            }
        }
    }
    if truncation_report(result.fields, max).fields == 0 {
        assert(cut == result.fields);
    }
}

} // verus!
