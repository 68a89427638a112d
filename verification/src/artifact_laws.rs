//! Laws of artifact names, indexes, expiry and spillover.
use vstd::prelude::*;

use crate::artifacts;
use crate::artifacts::{ArtifactTombstoneModel, LocalArtifactRecordModel};
use crate::domain::{OutputRefModel, StructuredValueModel, ToolResultModel};
use crate::expiry;
use crate::spillover;
use crate::text_map;

verus! {

/// Every character of a text can stand in a name.
pub open spec fn only_name_chars(text: Seq<char>) -> bool {
    forall|i: int| 0 <= i < text.len() ==> artifacts::is_name_char(#[trigger] text[i])
}

/// No underscore stands at either end of a text.
pub open spec fn bare_ends(text: Seq<char>) -> bool {
    text.len() > 0 ==> text[0] != '_' && text.last() != '_'
}

proof fn lemma_after_underscores(text: Seq<char>)
    ensures
        only_name_chars(text) ==> only_name_chars(artifacts::after_underscores(text)),
        artifacts::after_underscores(text).len() > 0 ==> artifacts::after_underscores(text)[0]
            != '_',
    decreases text.len(),
{
    if text.len() > 0 && text[0] == '_' {
        let rest = text.drop_first();
        lemma_after_underscores(rest);
        if only_name_chars(text) {
            assert forall|i: int| 0 <= i < rest.len() implies artifacts::is_name_char(
                #[trigger] rest[i],
            ) by {
                assert(artifacts::is_name_char(text[i + 1]));
            }
        }
    }
}

proof fn lemma_before_underscores(text: Seq<char>)
    ensures
        only_name_chars(text) ==> only_name_chars(artifacts::before_underscores(text)),
        artifacts::before_underscores(text).len() > 0 ==> {
            &&& artifacts::before_underscores(text).last() != '_'
            &&& artifacts::before_underscores(text)[0] == text[0]
        },
    decreases text.len(),
{
    if text.len() > 0 && text.last() == '_' {
        let rest = text.drop_last();
        lemma_before_underscores(rest);
        if only_name_chars(text) {
            assert forall|i: int| 0 <= i < rest.len() implies artifacts::is_name_char(
                #[trigger] rest[i],
            ) by {
                assert(artifacts::is_name_char(text[i]));
            }
        }
    }
}

/// The name that a label gives holds nothing but letters, digits, `-`, `_` and `.`, has
/// no underscore at either end, and gives itself as a name.
pub proof fn law_names_are_safe(label: Seq<char>)
    ensures
        only_name_chars(artifacts::safe_name(label)),
        bare_ends(artifacts::safe_name(label)),
        artifacts::safe_name(artifacts::safe_name(label)) == artifacts::safe_name(label),
{
    let mapped = label.map_values(|c: char| artifacts::safe_char(c));
    assert forall|i: int| 0 <= i < mapped.len() implies artifacts::is_name_char(
        #[trigger] mapped[i],
    ) by {
        assert(mapped[i] == artifacts::safe_char(label[i]));
    }
    let rest = artifacts::after_underscores(mapped);
    lemma_after_underscores(mapped);
    lemma_before_underscores(rest);
    let name = artifacts::safe_name(label);
    let again = name.map_values(|c: char| artifacts::safe_char(c));
    assert(again =~= name);
}

/// The directory of a scope is the directory of its own name, lies right under the root,
/// and is neither of the two that every directory has.
pub proof fn law_scope_directories_are_canonical(scope: Seq<char>)
    requires
        artifacts::segment_of(scope) is Some,
    ensures
        ({
            let name = artifacts::segment_of(scope)->0;
            &&& artifacts::segment_of(name) == Some(name)
            &&& name.len() > 0
            &&& name != "."@
            &&& name != ".."@
            &&& !name.contains('/')
            &&& !name.contains('\\')
        }),
{
    law_names_are_safe(scope);
    let name = artifacts::segment_of(scope)->0;
    assert forall|i: int| 0 <= i < name.len() implies #[trigger] name[i] != '/' && name[i]
        != '\\' by {
        assert(artifacts::is_name_char(name[i]));
    }
}

/// No record comes before one that stands in front of it.
pub open spec fn in_index_order(records: Seq<LocalArtifactRecordModel>) -> bool {
    forall|i: int, j: int|
        0 <= i < j < records.len() ==> !artifacts::earlier(
            #[trigger] records[j],
            #[trigger] records[i],
        )
}

proof fn lemma_not_earlier_is_transitive(
    a: LocalArtifactRecordModel,
    b: LocalArtifactRecordModel,
    c: LocalArtifactRecordModel,
)
    requires
        !artifacts::earlier(b, a),
        !artifacts::earlier(c, b),
    ensures
        !artifacts::earlier(c, a),
{
    crate::text::lemma_order_is_total(a.id, b.id);
    crate::text::lemma_order_is_total(b.id, c.id);
    if !crate::text::text_before(b.id, a.id) && !crate::text::text_before(c.id, b.id) {
        crate::text::lemma_order_is_transitive(a.id, b.id, c.id);
    }
}

proof fn lemma_earlier_is_strict(a: LocalArtifactRecordModel, b: LocalArtifactRecordModel)
    requires
        artifacts::earlier(a, b),
    ensures
        !artifacts::earlier(b, a),
{
    crate::text::lemma_order_is_total(a.id, b.id);
}

proof fn lemma_placed(records: Seq<LocalArtifactRecordModel>, record: LocalArtifactRecordModel)
    requires
        in_index_order(records),
    ensures
        in_index_order(artifacts::placed(records, record)),
        artifacts::placed(records, record).to_multiset() =~= records.to_multiset().insert(record),
        artifacts::placed(records, record).len() == records.len() + 1,
        forall|x: LocalArtifactRecordModel| #[trigger]
            artifacts::placed(records, record).contains(x) ==> x == record || records.contains(x),
    decreases records.len(),
{
    broadcast use vstd::seq_lib::group_to_multiset_ensures;

    let result = artifacts::placed(records, record);
    if records.len() > 0 && artifacts::earlier(record, records.last()) {
        let front = records.drop_last();
        let last = records.last();
        assert forall|i: int, j: int| 0 <= i < j < front.len() implies !artifacts::earlier(
            #[trigger] front[j],
            #[trigger] front[i],
        ) by {
            assert(!artifacts::earlier(records[j], records[i]));
        }
        lemma_placed(front, record);
        let inner = artifacts::placed(front, record);
        assert(records =~= front.push(last));
        assert forall|i: int, j: int| 0 <= i < j < result.len() implies !artifacts::earlier(
            #[trigger] result[j],
            #[trigger] result[i],
        ) by {
            if j < inner.len() {
                assert(!artifacts::earlier(inner[j], inner[i]));
            } else {
                assert(inner.contains(inner[i]));
                if inner[i] == record {
                    lemma_earlier_is_strict(record, last);
                } else {
                    let k = choose|k: int| 0 <= k < front.len() && front[k] == inner[i];
                    assert(records[k] == inner[i]);
                    assert(!artifacts::earlier(records[records.len() - 1], records[k]));
                }
            }
        }
        assert forall|x: LocalArtifactRecordModel| #[trigger] result.contains(x) implies x
            == record || records.contains(x) by {
            let at = choose|at: int| 0 <= at < result.len() && result[at] == x;
            if at < inner.len() {
                assert(inner.contains(inner[at]));
                if x != record {
                    let k = choose|k: int| 0 <= k < front.len() && front[k] == x;
                    assert(records[k] == x);
                }
            } else {
                assert(records[records.len() - 1] == x);
            }
        }
    } else {
        assert forall|i: int, j: int| 0 <= i < j < result.len() implies !artifacts::earlier(
            #[trigger] result[j],
            #[trigger] result[i],
        ) by {
            if j < records.len() {
                assert(!artifacts::earlier(records[j], records[i]));
            } else if i < records.len() - 1 {
                assert(!artifacts::earlier(records[records.len() - 1], records[i]));
                lemma_not_earlier_is_transitive(records[i], records.last(), record);
            }
        }
        assert forall|x: LocalArtifactRecordModel| #[trigger] result.contains(x) implies x
            == record || records.contains(x) by {
            let at = choose|at: int| 0 <= at < result.len() && result[at] == x;
            if at < records.len() {
                assert(records[at] == x);
            }
        }
    }
}

/// An index holds exactly the records it was made of, by time of creation and then by id.
pub proof fn law_index_is_in_order(records: Seq<LocalArtifactRecordModel>)
    ensures
        in_index_order(artifacts::ordered(records)),
        artifacts::ordered(records).to_multiset() =~= records.to_multiset(),
        artifacts::ordered(records).len() == records.len(),
    decreases records.len(),
{
    broadcast use vstd::seq_lib::group_to_multiset_ensures;

    if records.len() > 0 {
        law_index_is_in_order(records.drop_last());
        lemma_placed(artifacts::ordered(records.drop_last()), records.last());
        assert(records =~= records.drop_last().push(records.last()));
    } else {
        assert(records =~= Seq::empty());
    }
}

/// A record that is taken out of the index is not in it any more; all others stay, in
/// their order.
pub proof fn law_removed_record_is_gone(records: Seq<LocalArtifactRecordModel>, id: Seq<char>)
    ensures
        forall|i: int|
            0 <= i < artifacts::without(records, id).len() ==> (#[trigger] artifacts::without(
                records,
                id,
            )[i]).id != id,
        (forall|i: int| 0 <= i < records.len() ==> (#[trigger] records[i]).id != id)
            ==> artifacts::without(records, id) == records,
    decreases records.len(),
{
    if records.len() > 0 {
        let front = records.drop_last();
        law_removed_record_is_gone(front, id);
        if forall|i: int| 0 <= i < records.len() ==> (#[trigger] records[i]).id != id {
            assert forall|i: int| 0 <= i < front.len() implies (#[trigger] front[i]).id != id by {
                assert(records[i].id != id);
            }
            assert(records[records.len() - 1].id != id);
            assert(front.push(records.last()) =~= records);
        }
    } else {
        assert(artifacts::without(records, id) =~= records);
    }
}

/// Marking records twice does what marking them once does, and marks none anew.
pub proof fn law_marking_again_changes_nothing(
    records: Seq<LocalArtifactRecordModel>,
    targets: Seq<Seq<char>>,
    first: ArtifactTombstoneModel,
    second: ArtifactTombstoneModel,
)
    ensures
        expiry::all_buried(expiry::all_buried(records, targets, first), targets, second)
            == expiry::all_buried(records, targets, first),
        expiry::newly_buried(expiry::all_buried(records, targets, first), targets) == 0,
{
    let marked = expiry::all_buried(records, targets, first);
    assert(expiry::all_buried(marked, targets, second) =~= marked);
    lemma_none_newly_buried(marked, targets);
}

proof fn lemma_none_newly_buried(
    records: Seq<LocalArtifactRecordModel>,
    targets: Seq<Seq<char>>,
)
    requires
        forall|i: int|
            0 <= i < records.len() ==> !(targets.contains((#[trigger] records[i]).id)
                && records[i].tombstone is None),
    ensures
        expiry::newly_buried(records, targets) == 0,
    decreases records.len(),
{
    if records.len() > 0 {
        let front = records.drop_last();
        assert forall|i: int| 0 <= i < front.len() implies !(targets.contains(
            (#[trigger] front[i]).id,
        ) && front[i].tombstone is None) by {
            assert(front[i] == records[i]);
        }
        lemma_none_newly_buried(front, targets);
        assert(records[records.len() - 1] == records.last());
    }
}

/// Expiring keeps every record: those that are not targeted as they are, the targeted ones
/// but for the tombstone, which a record keeps once it has one.
pub proof fn law_expiry_keeps_records(
    records: Seq<LocalArtifactRecordModel>,
    targets: Seq<Seq<char>>,
    tombstone: ArtifactTombstoneModel,
    i: int,
)
    requires
        0 <= i < records.len(),
    ensures
        ({
            let marked = expiry::all_buried(records, targets, tombstone);
            &&& marked.len() == records.len()
            &&& marked[i] == (LocalArtifactRecordModel {
                tombstone: marked[i].tombstone,
                ..records[i]
            })
            &&& !targets.contains(records[i].id) ==> marked[i] == records[i]
            &&& records[i].tombstone is Some ==> marked[i] == records[i]
            &&& targets.contains(records[i].id) ==> marked[i].tombstone is Some
        }),
{
}

/// Only files of targeted records are deleted, and only those whose path is known to be
/// their own.
pub proof fn law_only_owned_files_are_deleted(
    records: Seq<LocalArtifactRecordModel>,
    targets: Seq<Seq<char>>,
    owned: Seq<bool>,
    deleted: OutputRefModel,
)
    requires
        records.len() == owned.len(),
        expiry::deletions(records, targets, owned).contains(deleted),
    ensures
        exists|i: int|
            {
                &&& 0 <= i < records.len()
                &&& owned[i]
                &&& targets.contains((#[trigger] records[i]).id)
                &&& deleted == expiry::deletion_of(records[i])
            },
    decreases records.len(),
{
    if records.len() > 0 {
        let n = records.len() - 1;
        let front = records.drop_last();
        let others = expiry::deletions(front, targets, owned);
        let all = expiry::deletions(records, targets, owned);
        lemma_deletions_ignore_rest(front, targets, owned, owned.drop_last());
        let at = choose|at: int| 0 <= at < all.len() && all[at] == deleted;
        if at < others.len() {
            assert(others[at] == deleted);
            assert(expiry::deletions(front, targets, owned.drop_last()).contains(deleted));
            law_only_owned_files_are_deleted(front, targets, owned.drop_last(), deleted);
            let i = choose|i: int|
                {
                    &&& 0 <= i < front.len()
                    &&& owned.drop_last()[i]
                    &&& targets.contains((#[trigger] front[i]).id)
                    &&& deleted == expiry::deletion_of(front[i])
                };
            assert(records[i] == front[i]);
        } else {
            assert(targets.contains(records[n].id));
        }
    }
}

proof fn lemma_deletions_ignore_rest(
    records: Seq<LocalArtifactRecordModel>,
    targets: Seq<Seq<char>>,
    a: Seq<bool>,
    b: Seq<bool>,
)
    requires
        forall|i: int| 0 <= i < records.len() ==> #[trigger] a[i] == b[i],
    ensures
        expiry::deletions(records, targets, a) == expiry::deletions(records, targets, b),
    decreases records.len(),
{
    if records.len() > 0 {
        lemma_deletions_ignore_rest(records.drop_last(), targets, a, b);
        assert(a[records.len() - 1] == b[records.len() - 1]);
    }
}

/// An id is a target in a scope just where it is asked for and a record of that scope
/// has it.
pub proof fn law_targets_are_found_under_their_scope(
    records: Seq<LocalArtifactRecordModel>,
    ids: Seq<Seq<char>>,
    scope: Seq<char>,
    id: Seq<char>,
)
    ensures
        expiry::ids_under(expiry::by_scope(records, ids), scope).contains(id) <==> ids.contains(
            id,
        ) && exists|i: int|
            0 <= i < records.len() && (#[trigger] records[i]).scope == scope && records[i].id
                == id,
    decreases records.len(),
{
    let targets = expiry::by_scope(records, ids);
    if records.len() == 0 {
        text_map::lemma_value_has_place(targets, scope);
        assert(expiry::ids_under(targets, scope) =~= Seq::empty());
    } else {
        let front = records.drop_last();
        let record = records.last();
        let before = expiry::by_scope(front, ids);
        law_targets_are_found_under_their_scope(front, ids, scope, id);
        let n = records.len() - 1;
        assert(records[n] == record);
        assert((exists|i: int|
            0 <= i < records.len() && (#[trigger] records[i]).scope == scope && records[i].id
                == id) <==> ((exists|i: int|
            0 <= i < front.len() && (#[trigger] front[i]).scope == scope && front[i].id == id) || (
        record.scope == scope && record.id == id))) by {
            if exists|i: int|
                0 <= i < records.len() && (#[trigger] records[i]).scope == scope && records[i].id
                    == id {
                let i = choose|i: int|
                    0 <= i < records.len() && (#[trigger] records[i]).scope == scope
                        && records[i].id == id;
                if i < n {
                    assert(front[i].scope == scope);
                }
            }
            if exists|i: int|
                0 <= i < front.len() && (#[trigger] front[i]).scope == scope && front[i].id == id {
                let i = choose|i: int|
                    0 <= i < front.len() && (#[trigger] front[i]).scope == scope && front[i].id
                        == id;
                assert(records[i].scope == scope);
            }
        }
        if ids.contains(record.id) {
            let under = expiry::pushed_once(expiry::ids_under(before, record.scope), record.id);
            text_map::law_insert_then_get(before, record.scope, under, scope);
            if record.scope == scope {
                lemma_pushed_once(expiry::ids_under(before, scope), record.id, id);
            }
        }
    }
}

proof fn lemma_pushed_once(texts: Seq<Seq<char>>, text: Seq<char>, other: Seq<char>)
    ensures
        expiry::pushed_once(texts, text).contains(other) <==> texts.contains(other) || other
            == text,
{
    let result = expiry::pushed_once(texts, text);
    if texts.contains(other) {
        let i = choose|i: int| 0 <= i < texts.len() && texts[i] == other;
        assert(result[i] == other);
    }
    if other == text && !texts.contains(text) {
        assert(result[texts.len() as int] == other);
    }
    if result.contains(other) && !texts.contains(text) {
        let i = choose|i: int| 0 <= i < result.len() && result[i] == other;
        if i < texts.len() {
            assert(texts[i] == other);
        }
    }
}

/// Moving fields to artifacts keeps every field's key and place, leaves the fields alone
/// that are small enough, and only adds references at the end.
pub proof fn law_spilling_touches_large_fields_only(
    result: ToolResultModel,
    plan: Seq<Option<OutputRefModel>>,
    max_inline_bytes: nat,
    i: int,
)
    requires
        spillover::plan_fits(plan, result.fields, max_inline_bytes),
        0 <= i < result.fields.len(),
    ensures
        ({
            let after = spillover::spilled(result, plan);
            &&& after.fields.len() == result.fields.len()
            &&& after.fields[i].key == result.fields[i].key
            &&& !spillover::is_oversized(result.fields[i], max_inline_bytes) ==> after.fields[i]
                == result.fields[i]
            &&& after.output_refs.take(result.output_refs.len() as int) == result.output_refs
            &&& after.id == result.id && after.invocation_id == result.invocation_id
                && after.status == result.status
        }),
{
    let after = spillover::spilled(result, plan);
    assert(after.output_refs.take(result.output_refs.len() as int) =~= result.output_refs);
}

/// The size of a field is the same whether the field is truncated, rejected or moved to an
/// artifact: that of the text that an artifact would hold.
pub proof fn law_fields_are_measured_alike(value: StructuredValueModel)
    ensures
        crate::truncation::value_bytes(value) == (match spillover::spillable(value) {
            Some(text) => Some(crate::text::utf8_len(text)),
            None => None,
        }),
{
    if let StructuredValueModel::StringList(texts) = value {
        lemma_joined_bytes(texts);
    }
}

pub proof fn lemma_joined_bytes(texts: Seq<Seq<char>>)
    ensures
        crate::text::utf8_len(crate::text::joined_by(texts, "\n"@))
            == crate::truncation::list_bytes(texts),
    decreases texts.len(),
{
    if texts.len() == 1 {
        assert(crate::truncation::list_bytes(texts.drop_last()) == 0);
    } else if texts.len() > 1 {
        let front = crate::text::joined_by(texts.drop_last(), "\n"@);
        lemma_joined_bytes(texts.drop_last());
        reveal_strlit("\n");
        assert(crate::text::utf8_len("\n"@) == 1) by {
            assert("\n"@ =~= Seq::<char>::empty().push('\n'));
            crate::text::lemma_utf8_len_push(Seq::empty(), '\n');
        }
        crate::text::lemma_utf8_len_concat(front, "\n"@);
        crate::text::lemma_utf8_len_concat(front + "\n"@, texts.last());
    }
}

} // verus!
