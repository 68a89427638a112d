//! How artifacts are named, how long they are kept, and what expiring them does.
use vstd::prelude::*;

use crate::artifacts;
use crate::artifacts::{
    ArtifactErrorModel, ArtifactPlacementModel, ArtifactRetentionPolicy, ArtifactTombstoneModel,
    ArtifactWriteMetadataModel, LocalArtifactRecordModel,
};
use crate::domain::{LedgerTimestamp, OutputRefModel};
use crate::expiry;
use crate::expiry::ArtifactExpiryModel;
use crate::ids::OutputRefId;

verus! {

/// A character that a file name keeps.
pub open spec fn keeps(c: char) -> bool {
    ||| 'a' <= c <= 'z'
    ||| 'A' <= c <= 'Z'
    ||| '0' <= c <= '9'
    ||| c == '-'
    ||| c == '_'
    ||| c == '.'
}

/// A character that becomes an underscore, or is one.
pub open spec fn blurs(c: char) -> bool {
    c == '_' || !keeps(c)
}

/// A name is what is left of a label: from the first to the last character that does not
/// become an underscore, with underscores for what a name does not keep.
pub open spec fn is_left_of(name: Seq<char>, label: Seq<char>, from: int) -> bool {
    &&& 0 <= from <= from + name.len() <= label.len()
    &&& forall|i: int| 0 <= i < from ==> blurs(#[trigger] label[i])
    &&& forall|i: int| from + name.len() <= i < label.len() ==> blurs(#[trigger] label[i])
    &&& forall|i: int|
        0 <= i < name.len() ==> #[trigger] name[i] == if keeps(label[from + i]) {
            label[from + i]
        } else {
            '_'
        }
    &&& name.len() > 0 ==> !blurs(label[from]) && !blurs(label[from + name.len() - 1])
}

/// Names are made of labels.
pub proof fn law_names_are_what_is_left_of_labels(label: Seq<char>)
    ensures
        exists|from: int| #[trigger] is_left_of(artifacts::safe_name(label), label, from),
{
    let mapped = label.map_values(|c: char| artifacts::safe_char(c));
    let (from, rest) = lemma_after_underscores(mapped);
    let name = lemma_before_underscores(rest);
    assert forall|i: int| 0 <= i < from implies blurs(#[trigger] label[i]) by {
        assert(mapped[i] == '_');
    }
    assert forall|i: int| from + name.len() <= i < label.len() implies blurs(
        #[trigger] label[i],
    ) by {
        assert(rest[i - from] == '_');
        assert(mapped[i] == '_');
    }
    assert forall|i: int| 0 <= i < name.len() implies #[trigger] name[i] == if keeps(
        label[from + i],
    ) {
        label[from + i]
    } else {
        '_'
    } by {
        assert(name[i] == rest[i]);
        assert(rest[i] == mapped[from + i]);
    }
    if name.len() > 0 {
        assert(name[0] == rest[0] == mapped[from]);
        assert(name[name.len() - 1] == rest[name.len() - 1] == mapped[from + name.len() - 1]);
    }
    assert(artifacts::safe_name(label) == artifacts::before_underscores(
        artifacts::after_underscores(mapped),
    ));
    assert(is_left_of(artifacts::safe_name(label), label, from));
}

proof fn lemma_after_underscores(text: Seq<char>) -> (r: (int, Seq<char>))
    ensures
        r.1 == artifacts::after_underscores(text),
        0 <= r.0 <= text.len(),
        r.1 == text.skip(r.0),
        forall|i: int| 0 <= i < r.0 ==> #[trigger] text[i] == '_',
        r.0 < text.len() ==> text[r.0] != '_',
    decreases text.len(),
{
    if text.len() > 0 && text[0] == '_' {
        let rest = text.drop_first();
        let (n, left) = lemma_after_underscores(rest);
        assert(left =~= text.skip(n + 1));
        assert forall|i: int| 0 <= i < n + 1 implies #[trigger] text[i] == '_' by {
            if i > 0 {
                assert(rest[i - 1] == '_');
            }
        }
        if n < rest.len() {
            assert(rest[n] == text[n + 1]);
        }
        (n + 1, left)
    } else {
        assert(text.skip(0) =~= text);
        (0, text)
    }
}

proof fn lemma_before_underscores(text: Seq<char>) -> (r: Seq<char>)
    ensures
        r == artifacts::before_underscores(text),
        r.len() <= text.len(),
        r == text.take(r.len() as int),
        forall|i: int| r.len() <= i < text.len() ==> #[trigger] text[i] == '_',
        r.len() > 0 ==> r.last() != '_',
    decreases text.len(),
{
    if text.len() > 0 && text.last() == '_' {
        let rest = text.drop_last();
        let left = lemma_before_underscores(rest);
        assert(left =~= text.take(left.len() as int));
        assert forall|i: int| left.len() <= i < text.len() implies #[trigger] text[i] == '_' by {
            if i < rest.len() {
                assert(rest[i] == '_');
            }
        }
        left
    } else {
        assert(text.take(text.len() as int) =~= text);
        text
    }
}

/// A scope has a directory exactly where something is left of it that is neither of the two
/// names that every directory has; that name is the directory's.
pub proof fn law_scopes_have_directories_where_a_name_is_left(scope: Seq<char>)
    ensures
        ({
            let name = artifacts::safe_name(scope);
            &&& artifacts::segment_of(scope) is Some <==> name.len() > 0 && name != "."@ && name
                != ".."@
            &&& artifacts::segment_of(scope) is Some ==> artifacts::segment_of(scope)->0 == name
        }),
{
}

/// The file of an artifact is named by its identifier and what is left of its label.
pub proof fn law_files_are_named_by_id_and_label(id: Seq<char>, label: Seq<char>)
    ensures
        artifacts::file_name_of(id, label) == id + "-"@ + artifacts::safe_name(label)
            + ".artifact"@,
{
}

/// A file can be a record's where it is not the index and its name begins with the record's
/// identifier.
pub proof fn law_files_belong_to_records_by_name(file: &str, id: &OutputRefId, r: bool)
    requires
        call_ensures(artifacts::names_record_file, (file, id), r),
    ensures
        r <==> {
            &&& file@ != "index.json"@
            &&& id@.len() <= file@.len()
            &&& forall|i: int| 0 <= i < id@.len() ==> #[trigger] file@[i] == id@[i]
        },
{
    if crate::text::has_prefix(file@, id@) {
        assert forall|i: int| 0 <= i < id@.len() implies #[trigger] file@[i] == id@[i] by {
            assert(file@.take(id@.len() as int)[i] == file@[i]);
        }
    }
    if id@.len() <= file@.len() && forall|i: int|
        0 <= i < id@.len() ==> #[trigger] file@[i] == id@[i] {
        assert(file@.take(id@.len() as int) =~= id@);
    }
}

/// What the index and a reference say of a placed artifact.
pub proof fn law_placed_artifacts_are_described(
    place: ArtifactPlacementModel,
    uri: Seq<char>,
    label: Seq<char>,
    media_type: Seq<char>,
    at: LedgerTimestamp,
    metadata: ArtifactWriteMetadataModel,
)
    ensures
        ({
            let record = place.record(uri, label, media_type, at, metadata);
            &&& record.id == place.id
            &&& record.scope == place.scope_dir
            &&& record.project_id == metadata.project_id
            &&& record.repository_id == metadata.repository_id
            &&& record.path == uri
            &&& record.uri == uri
            &&& record.media_type == media_type
            &&& record.label == Some(label)
            &&& record.created_at == at
            &&& record.original_bytes == metadata.original_bytes
            &&& record.retained_bytes == metadata.retained_bytes
            &&& record.tombstone is None
        }),
        ({
            let output_ref = place.output_ref(uri, label, media_type);
            &&& output_ref.id == place.id
            &&& output_ref.uri == uri
            &&& output_ref.media_type == media_type
            &&& output_ref.label == Some(label)
            &&& output_ref.digest is None
        }),
{
}

/// An artifact's time is up once it is as old as the retention; within the range of times.
pub proof fn law_artifacts_are_kept_for_their_retention(
    policy: ArtifactRetentionPolicy,
    now: LedgerTimestamp,
    created_at: LedgerTimestamp,
)
    requires
        policy.max_retention_millis <= i64::MAX,
        now.unix_millis - policy.max_retention_millis >= i64::MIN,
    ensures
        created_at.unix_millis <= policy.cutoff(now) <==> now.unix_millis - created_at.unix_millis
            >= policy.max_retention_millis,
{
}

/// A retention beyond the range of times is the longest that there is, and no time is before
/// the first.
pub proof fn law_long_retentions_are_capped(policy: ArtifactRetentionPolicy, now: LedgerTimestamp)
    ensures
        policy.max_retention_millis > i64::MAX && now.unix_millis >= 0 ==> policy.cutoff(now)
            == now.unix_millis - i64::MAX,
        now.unix_millis - policy.max_retention_millis < i64::MIN ==> policy.cutoff(now)
            == i64::MIN || now.unix_millis - i64::MAX == policy.cutoff(now),
        i64::MIN <= policy.cutoff(now) <= now.unix_millis,
{
}

/// The record is due: it is old enough, and it has no tombstone yet or its file is still there.
pub open spec fn is_due(record: LocalArtifactRecordModel, present: bool, cutoff: int) -> bool {
    &&& record.created_at.unix_millis <= cutoff
    &&& record.tombstone is Some ==> present
}

/// Some record is the one given, and is due.
pub open spec fn is_one_due(
    records: Seq<LocalArtifactRecordModel>,
    present: Seq<bool>,
    cutoff: int,
    record: LocalArtifactRecordModel,
) -> bool {
    exists|i: int|
        {
            &&& 0 <= i < records.len()
            &&& #[trigger] records[i] == record
            &&& is_due(record, present[i], cutoff)
        }
}

/// Expiry takes just the records that are due.
pub proof fn law_expiry_takes_what_is_due(
    records: Seq<LocalArtifactRecordModel>,
    present: Seq<bool>,
    cutoff: int,
)
    requires
        records.len() == present.len(),
    ensures
        ({
            let taken = artifacts::expired(records, present, cutoff);
            &&& forall|k: int|
                0 <= k < taken.len() ==> is_one_due(records, present, cutoff, #[trigger] taken[k])
            &&& forall|i: int|
                0 <= i < records.len() && is_due(#[trigger] records[i], present[i], cutoff)
                    ==> taken.contains(records[i])
            &&& taken.len() <= records.len()
        }),
    decreases records.len(),
{
    let taken = artifacts::expired(records, present, cutoff);
    if records.len() > 0 {
        let n = records.len() - 1;
        let front = records.drop_last();
        let before = artifacts::expired(front, present, cutoff);
        lemma_expired_ignores_rest(front, present, present.drop_last(), cutoff);
        law_expiry_takes_what_is_due(front, present.drop_last(), cutoff);
        assert forall|k: int| 0 <= k < taken.len() implies is_one_due(
            records,
            present,
            cutoff,
            #[trigger] taken[k],
        ) by {
            if k < before.len() {
                assert(taken[k] == before[k]);
                assert(is_one_due(front, present.drop_last(), cutoff, before[k]));
                let i = choose|i: int|
                    {
                        &&& 0 <= i < front.len()
                        &&& #[trigger] front[i] == before[k]
                        &&& is_due(before[k], present.drop_last()[i], cutoff)
                    };
                assert(records[i] == taken[k]);
            } else {
                assert(records[n] == taken[k]);
            }
        }
        assert forall|i: int|
            0 <= i < records.len() && is_due(
                #[trigger] records[i],
                present[i],
                cutoff,
            ) implies taken.contains(records[i]) by {
            if i < n {
                assert(is_due(front[i], present.drop_last()[i], cutoff));
                let k = choose|k: int| 0 <= k < before.len() && before[k] == front[i];
                assert(taken[k] == records[i]);
            } else {
                assert(taken[taken.len() - 1] == records[i]);
            }
        }
    }
}

proof fn lemma_expired_ignores_rest(
    records: Seq<LocalArtifactRecordModel>,
    a: Seq<bool>,
    b: Seq<bool>,
    cutoff: int,
)
    requires
        forall|i: int| 0 <= i < records.len() ==> #[trigger] a[i] == b[i],
    ensures
        artifacts::expired(records, a, cutoff) == artifacts::expired(records, b, cutoff),
    decreases records.len(),
{
    if records.len() > 0 {
        lemma_expired_ignores_rest(records.drop_last(), a, b, cutoff);
        assert(a[records.len() - 1] == b[records.len() - 1]);
    }
}

/// An index stands in the order of creation, artifacts of one moment in that of their
/// identifiers.
pub proof fn law_indexes_stand_in_order_of_creation(
    records: Seq<LocalArtifactRecordModel>,
    i: int,
    j: int,
)
    requires
        0 <= i < j < records.len(),
    ensures
        ({
            let a = artifacts::ordered(records)[i];
            let b = artifacts::ordered(records)[j];
            &&& a.created_at.unix_millis <= b.created_at.unix_millis
            &&& a.created_at.unix_millis == b.created_at.unix_millis ==> a.id == b.id
                || crate::text::text_before(a.id, b.id)
        }),
{
    crate::artifact_laws::law_index_is_in_order(records);
    let a = artifacts::ordered(records)[i];
    let b = artifacts::ordered(records)[j];
    assert(!artifacts::earlier(b, a));
    crate::text::lemma_order_is_total(a.id, b.id);
}

/// Taking a record out leaves exactly the records of other identifiers.
pub proof fn law_removal_takes_one_identifier(
    records: Seq<LocalArtifactRecordModel>,
    id: Seq<char>,
    record: LocalArtifactRecordModel,
)
    ensures
        artifacts::without(records, id).contains(record) <==> records.contains(record) && record.id
            != id,
    decreases records.len(),
{
    let left = artifacts::without(records, id);
    if records.len() > 0 {
        let front = records.drop_last();
        let before = artifacts::without(front, id);
        law_removal_takes_one_identifier(front, id, record);
        if records.contains(record) && record.id != id {
            let i = choose|i: int| 0 <= i < records.len() && records[i] == record;
            if i < front.len() {
                assert(front[i] == record);
                let k = choose|k: int| 0 <= k < before.len() && before[k] == record;
                assert(left[k] == record);
            } else {
                assert(left[left.len() - 1] == record);
            }
        }
        if left.contains(record) {
            let k = choose|k: int| 0 <= k < left.len() && left[k] == record;
            if k < before.len() {
                assert(before[k] == record);
                let i = choose|i: int| 0 <= i < front.len() && front[i] == record;
                assert(records[i] == record);
            } else {
                assert(records[records.len() - 1] == record);
            }
        }
    }
}

/// The byte counts of the first record of an identifier are set as far as they are given; all
/// else stays.
pub proof fn law_byte_counts_are_set_where_given(
    records: Seq<LocalArtifactRecordModel>,
    id: Seq<char>,
    original: Option<u64>,
    retained: Option<u64>,
    at: int,
)
    requires
        0 <= at < records.len(),
        records[at].id == id,
        forall|i: int| 0 <= i < at ==> (#[trigger] records[i]).id != id,
    ensures
        ({
            let after = artifacts::with_bytes(records, id, original, retained);
            &&& after.len() == records.len()
            &&& original is Some ==> after[at].original_bytes == original
            &&& original is None ==> after[at].original_bytes == records[at].original_bytes
            &&& retained is Some ==> after[at].retained_bytes == retained
            &&& retained is None ==> after[at].retained_bytes == records[at].retained_bytes
            &&& after[at] == (LocalArtifactRecordModel {
                original_bytes: after[at].original_bytes,
                retained_bytes: after[at].retained_bytes,
                ..records[at]
            })
            &&& forall|i: int|
                0 <= i < records.len() && i != at ==> #[trigger] after[i] == records[i]
        }),
{
    lemma_place_of_id(records, id, at);
}

proof fn lemma_place_of_id(records: Seq<LocalArtifactRecordModel>, id: Seq<char>, at: int)
    requires
        0 <= at < records.len(),
        records[at].id == id,
        forall|i: int| 0 <= i < at ==> (#[trigger] records[i]).id != id,
    ensures
        artifacts::place_of_id(records, id) == at,
    decreases at,
{
    if at > 0 {
        let rest = records.drop_first();
        assert(records[0].id != id);
        assert forall|i: int| 0 <= i < at - 1 implies (#[trigger] rest[i]).id != id by {
            assert(rest[i] == records[i + 1]);
        }
        lemma_place_of_id(rest, id, at - 1);
    }
}

/// Records are in order exactly where each names a canonical scope and, where one is expected,
/// that one; the first that does not is refused by its scope.
pub proof fn law_records_name_their_scope(
    records: Seq<LocalArtifactRecordModel>,
    expected: Option<Seq<char>>,
)
    ensures
        artifacts::scope_problem(records, expected) is None <==> forall|i: int|
            0 <= i < records.len() ==> {
                &&& artifacts::segment_of((#[trigger] records[i]).scope) == Some(records[i].scope)
                &&& expected is Some ==> records[i].scope == expected->0
            },
        artifacts::scope_problem(records, expected) matches Some(error) ==> exists|i: int|
            {
                &&& 0 <= i < records.len()
                &&& error == (ArtifactErrorModel::InvalidScope {
                    scope: (#[trigger] records[i]).scope,
                })
            },
{
    let checks = artifacts::scope_checks(records, expected);
    crate::checks::lemma_no_problem(checks, records.len() as int);
    assert forall|i: int| 0 <= i < records.len() implies (#[trigger] checks(i) is None <==> {
        &&& artifacts::segment_of(records[i].scope) == Some(records[i].scope)
        &&& expected is Some ==> records[i].scope == expected->0
    }) by {}
    if artifacts::scope_problem(records, expected) is None {
        assert forall|i: int| 0 <= i < records.len() implies {
            &&& artifacts::segment_of((#[trigger] records[i]).scope) == Some(records[i].scope)
            &&& expected is Some ==> records[i].scope == expected->0
        } by {
            assert(checks(i) is None);
        }
    } else {
        lemma_objection(records, expected, records.len() as int);
    }
}

proof fn lemma_objection(
    records: Seq<LocalArtifactRecordModel>,
    expected: Option<Seq<char>>,
    n: int,
)
    requires
        0 <= n <= records.len(),
        crate::checks::first_problem(artifacts::scope_checks(records, expected), n) is Some,
    ensures
        exists|i: int|
            {
                &&& 0 <= i < records.len()
                &&& crate::checks::first_problem(artifacts::scope_checks(records, expected), n)
                    == Some(
                    ArtifactErrorModel::InvalidScope { scope: (#[trigger] records[i]).scope },
                )
            },
    decreases n,
{
    let checks = artifacts::scope_checks(records, expected);
    if crate::checks::first_problem(checks, n - 1) is Some {
        lemma_objection(records, expected, n - 1);
    } else {
        assert(checks(n - 1) == Some(
            ArtifactErrorModel::InvalidScope { scope: records[n - 1].scope },
        ));
    }
}

/// How many records satisfy a condition.
pub open spec fn count(
    records: Seq<LocalArtifactRecordModel>,
    condition: spec_fn(LocalArtifactRecordModel) -> bool,
) -> nat {
    records.filter(condition).len()
}

proof fn lemma_count(
    records: Seq<LocalArtifactRecordModel>,
    condition: spec_fn(LocalArtifactRecordModel) -> bool,
)
    requires
        records.len() > 0,
    ensures
        count(records, condition) == count(records.drop_last(), condition) + if condition(
            records.last(),
        ) {
            1nat
        } else {
            0
        },
{
    reveal(Seq::filter);
}

/// An expiry begins with the number of different identifiers that were asked for, and with
/// that of the records that have one of them; nothing has happened yet.
pub proof fn law_expiries_begin_with_what_is_asked_for(
    records: Seq<LocalArtifactRecordModel>,
    ids: Seq<Seq<char>>,
    tombstone: ArtifactTombstoneModel,
)
    requires
        ids.len() <= usize::MAX,
        records.len() <= usize::MAX,
    ensures
        ({
            let begun = ArtifactExpiryModel::begun(records, ids, tombstone);
            &&& begun.report.requested == ids.to_set().len()
            &&& begun.report.matched == count(
                records,
                |r: LocalArtifactRecordModel| ids.contains(r.id),
            )
            &&& begun.report.tombstoned == 0
            &&& begun.report.deleted_files == 0
            &&& begun.report.missing_files == 0
            &&& begun.deletions.len() == 0
            &&& begun.done == 0
            &&& begun.tombstone == tombstone
        }),
{
    lemma_distinct(ids);
    lemma_matches(records, ids);
    if ids.len() == 0 {
        lemma_nothing_matches(records, ids);
    }
}

proof fn lemma_nothing_matches(records: Seq<LocalArtifactRecordModel>, ids: Seq<Seq<char>>)
    requires
        ids.len() == 0,
    ensures
        expiry::matches(records, ids) == 0,
    decreases records.len(),
{
    if records.len() > 0 {
        lemma_nothing_matches(records.drop_last(), ids);
    }
}

proof fn lemma_distinct(texts: Seq<Seq<char>>)
    ensures
        expiry::distinct(texts).len() == texts.to_set().len(),
        expiry::distinct(texts).len() <= texts.len(),
        texts.to_set().finite(),
        forall|text: Seq<char>|
            expiry::distinct(texts).contains(text) <==> #[trigger] texts.contains(text),
    decreases texts.len(),
{
    let once = expiry::distinct(texts);
    if texts.len() == 0 {
        assert(texts.to_set() =~= Set::empty());
        assert(once =~= Seq::empty());
        assert(texts =~= Seq::empty());
    } else {
        let front = texts.drop_last();
        let last = texts.last();
        let before = expiry::distinct(front);
        lemma_distinct(front);
        assert(texts =~= front.push(last));
        assert forall|text: Seq<char>| #[trigger] texts.contains(text) <==> front.contains(text)
            || text == last by {
            if front.contains(text) {
                let i = choose|i: int| 0 <= i < front.len() && front[i] == text;
                assert(texts[i] == text);
            }
            if text == last {
                assert(texts[texts.len() - 1] == text);
            }
            if texts.contains(text) {
                let i = choose|i: int| 0 <= i < texts.len() && texts[i] == text;
                if i < front.len() {
                    assert(front[i] == text);
                }
            }
        }
        assert(texts.to_set() =~= front.to_set().insert(last));
        assert(before.contains(last) <==> front.contains(last));
        if !before.contains(last) {
            assert(once == before.push(last));
            assert forall|text: Seq<char>| once.contains(text) <==> #[trigger] texts.contains(
                text,
            ) by {
                if before.contains(text) {
                    let i = choose|i: int| 0 <= i < before.len() && before[i] == text;
                    assert(once[i] == text);
                }
                if text == last {
                    assert(once[once.len() - 1] == text);
                }
                if once.contains(text) {
                    let i = choose|i: int| 0 <= i < once.len() && once[i] == text;
                    if i < before.len() {
                        assert(before[i] == text);
                    }
                }
                assert(before.contains(text) <==> front.contains(text));
            }
        } else {
            assert forall|text: Seq<char>| once.contains(text) <==> #[trigger] texts.contains(
                text,
            ) by {
                assert(before.contains(text) <==> front.contains(text));
            }
            assert(front.to_set().insert(last) =~= front.to_set());
        }
    }
}

proof fn lemma_matches(records: Seq<LocalArtifactRecordModel>, ids: Seq<Seq<char>>)
    ensures
        expiry::matches(records, ids) == count(
            records,
            |r: LocalArtifactRecordModel| ids.contains(r.id),
        ),
        expiry::matches(records, ids) <= records.len(),
    decreases records.len(),
{
    let condition = |r: LocalArtifactRecordModel| ids.contains(r.id);
    if records.len() > 0 {
        lemma_matches(records.drop_last(), ids);
        lemma_count(records, condition);
    } else {
        reveal(Seq::filter);
    }
}

proof fn lemma_newly_buried(records: Seq<LocalArtifactRecordModel>, targets: Seq<Seq<char>>)
    ensures
        expiry::newly_buried(records, targets) == count(
            records,
            |r: LocalArtifactRecordModel| targets.contains(r.id) && r.tombstone is None,
        ),
        expiry::newly_buried(records, targets) <= records.len(),
    decreases records.len(),
{
    let condition = |r: LocalArtifactRecordModel| targets.contains(r.id) && r.tombstone is None;
    if records.len() > 0 {
        lemma_newly_buried(records.drop_last(), targets);
        lemma_count(records, condition);
    } else {
        reveal(Seq::filter);
    }
}

/// Each step of an expiry goes on to the next scope, counts the records that it marks anew,
/// and has the files of its targets deleted that are their own.
pub proof fn law_expiries_go_scope_by_scope(
    e: ArtifactExpiryModel,
    records: Seq<LocalArtifactRecordModel>,
    owned: Seq<bool>,
)
    requires
        e.done < e.targets.len() <= usize::MAX,
        records.len() == owned.len(),
        e.report.tombstoned + records.len() <= usize::MAX,
    ensures
        e.next() == Some(e.targets[e.done as int].0),
        ({
            let targets = e.targets[e.done as int].1;
            let after = e.advanced(records, owned);
            &&& after.done == e.done + 1
            &&& after.report.tombstoned == e.report.tombstoned + count(
                records,
                |r: LocalArtifactRecordModel| targets.contains(r.id) && r.tombstone is None,
            )
            &&& after.report.requested == e.report.requested
            &&& after.report.matched == e.report.matched
            &&& after.report.deleted_files == e.report.deleted_files
            &&& after.report.missing_files == e.report.missing_files
            &&& after.targets == e.targets
            &&& after.tombstone == e.tombstone
            &&& forall|i: int|
                0 <= i < records.len() && targets.contains((#[trigger] records[i]).id) && owned[i]
                    ==> exists|k: int|
                    0 <= k < after.deletions.len() && names_file_of(
                        #[trigger] after.deletions[k],
                        records[i],
                    )
        }),
{
    let targets = e.targets[e.done as int].1;
    let after = e.advanced(records, owned);
    lemma_newly_buried(records, targets);
    assert forall|i: int|
        0 <= i < records.len() && targets.contains((#[trigger] records[i]).id)
            && owned[i] implies exists|k: int|
        0 <= k < after.deletions.len() && names_file_of(
            #[trigger] after.deletions[k],
            records[i],
        ) by {
        lemma_deleted(records, targets, owned, i);
        let all = expiry::deletions(records, targets, owned);
        let k = choose|k: int| 0 <= k < all.len() && names_file_of(#[trigger] all[k], records[i]);
        assert(names_file_of(after.deletions[k], records[i]));
    }
}

/// The reference names the file that the record has.
pub open spec fn names_file_of(output_ref: OutputRefModel, record: LocalArtifactRecordModel) -> bool {
    &&& output_ref.id == record.id
    &&& output_ref.uri == record.path
    &&& output_ref.media_type == record.media_type
    &&& output_ref.label == record.label
    &&& output_ref.digest is None
}

proof fn lemma_deleted(
    records: Seq<LocalArtifactRecordModel>,
    targets: Seq<Seq<char>>,
    owned: Seq<bool>,
    i: int,
)
    requires
        0 <= i < records.len(),
        targets.contains(records[i].id),
        owned[i],
    ensures
        exists|k: int|
            0 <= k < expiry::deletions(records, targets, owned).len() && names_file_of(
                #[trigger] expiry::deletions(records, targets, owned)[k],
                records[i],
            ),
    decreases records.len(),
{
    let all = expiry::deletions(records, targets, owned);
    if i < records.len() - 1 {
        let front = records.drop_last();
        let before = expiry::deletions(front, targets, owned);
        lemma_deleted(front, targets, owned, i);
        let k = choose|k: int|
            0 <= k < before.len() && names_file_of(#[trigger] before[k], front[i]);
        assert(names_file_of(all[k], records[i]));
    } else {
        assert(names_file_of(all[all.len() - 1], records[i]));
    }
}

/// Only files of targets that are their own are deleted, by their own names.
pub proof fn law_deletions_name_owned_files(
    records: Seq<LocalArtifactRecordModel>,
    targets: Seq<Seq<char>>,
    owned: Seq<bool>,
    deleted: OutputRefModel,
)
    requires
        records.len() == owned.len(),
        expiry::deletions(records, targets, owned).contains(deleted),
    ensures
        exists|i: int|
            {
                &&& 0 <= i < records.len()
                &&& owned[i]
                &&& targets.contains((#[trigger] records[i]).id)
                &&& names_file_of(deleted, records[i])
            },
{
    crate::artifact_laws::law_only_owned_files_are_deleted(records, targets, owned, deleted);
}

/// The marked records carry the expiry's tombstone where they had none.
pub proof fn law_targets_get_the_tombstone(
    records: Seq<LocalArtifactRecordModel>,
    targets: Seq<Seq<char>>,
    tombstone: ArtifactTombstoneModel,
    i: int,
)
    requires
        0 <= i < records.len(),
        targets.contains(records[i].id),
    ensures
        expiry::all_buried(records, targets, tombstone)[i].tombstone == (
        if records[i].tombstone is None {
            Some(tombstone)
        } else {
            records[i].tombstone
        }),
{
}

/// A file that was there and is gone was deleted; one that was not there and is not is missing;
/// one that is still there counts as neither.
pub proof fn law_deletions_are_counted_by_what_happened(
    e: ArtifactExpiryModel,
    existed: bool,
    still_exists: bool,
)
    requires
        e.report.deleted_files < usize::MAX,
        e.report.missing_files < usize::MAX,
    ensures
        ({
            let after = e.counting(existed, still_exists);
            &&& after.report.deleted_files == e.report.deleted_files + if existed
                && !still_exists {
                1int
            } else {
                0
            }
            &&& after.report.missing_files == e.report.missing_files + if !existed
                && !still_exists {
                1int
            } else {
                0
            }
            &&& after.report.requested == e.report.requested
            &&& after.report.matched == e.report.matched
            &&& after.report.tombstoned == e.report.tombstoned
            &&& after.targets == e.targets
            &&& after.done == e.done
            &&& after.deletions == e.deletions
            &&& after.tombstone == e.tombstone
        }),
{
}

} // verus!
