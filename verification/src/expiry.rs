//! Expiring artifacts, scope by scope. The host reads the index of a scope, has the
//! targeted records marked, writes the index back, and only then deletes the files.
use vstd::prelude::*;

use crate::artifacts;
use crate::artifacts::{
    ArtifactExpirationReport, ArtifactResult, ArtifactTombstone, ArtifactTombstoneModel,
    LocalArtifactRecord, LocalArtifactRecordModel, check_record_scopes,
};
use crate::domain::{LedgerTimestamp, OutputRef, OutputRefModel};
use crate::ids::OutputRefId;
use crate::record::Record;
use crate::text::holds_text;
use crate::text_map;
use crate::text_map::TextMap;

verus! {

/// A list with a text at its end that it did not hold yet.
pub open spec fn pushed_once(texts: Seq<Seq<char>>, text: Seq<char>) -> Seq<Seq<char>> {
    if texts.contains(text) {
        texts
    } else {
        texts.push(text)
    }
}

/// Each of the texts once.
pub open spec fn distinct(texts: Seq<Seq<char>>) -> Seq<Seq<char>>
    decreases texts.len(),
{
    if texts.len() == 0 {
        Seq::empty()
    } else {
        pushed_once(distinct(texts.drop_last()), texts.last())
    }
}

/// How many of the records are asked for.
pub open spec fn matches(records: Seq<LocalArtifactRecordModel>, ids: Seq<Seq<char>>) -> nat
    decreases records.len(),
{
    if records.len() == 0 {
        0
    } else {
        matches(records.drop_last(), ids) + if ids.contains(records.last().id) {
            1nat
        } else {
            0
        }
    }
}

/// The ids under a scope.
pub open spec fn ids_under(
    targets: Seq<(Seq<char>, Seq<Seq<char>>)>,
    scope: Seq<char>,
) -> Seq<Seq<char>> {
    match text_map::value_of(targets, scope) {
        Some(ids) => ids,
        None => Seq::empty(),
    }
}

/// The records that are asked for, by scope: to each scope the ids found there.
pub open spec fn by_scope(records: Seq<LocalArtifactRecordModel>, ids: Seq<Seq<char>>) -> Seq<
    (Seq<char>, Seq<Seq<char>>),
>
    decreases records.len(),
{
    if records.len() == 0 {
        Seq::empty()
    } else {
        let targets = by_scope(records.drop_last(), ids);
        let record = records.last();
        if ids.contains(record.id) {
            text_map::inserted(
                targets,
                record.scope,
                pushed_once(ids_under(targets, record.scope), record.id),
            )
        } else {
            targets
        }
    }
}

/// A targeted record with a tombstone: its own, where it had one already.
pub open spec fn buried(
    record: LocalArtifactRecordModel,
    targets: Seq<Seq<char>>,
    tombstone: ArtifactTombstoneModel,
) -> LocalArtifactRecordModel {
    if targets.contains(record.id) && record.tombstone is None {
        LocalArtifactRecordModel { tombstone: Some(tombstone), ..record }
    } else {
        record
    }
}

/// The records of a scope with the targeted ones marked.
pub open spec fn all_buried(
    records: Seq<LocalArtifactRecordModel>,
    targets: Seq<Seq<char>>,
    tombstone: ArtifactTombstoneModel,
) -> Seq<LocalArtifactRecordModel> {
    Seq::new(records.len(), |i: int| buried(records[i], targets, tombstone))
}

/// How many records are marked anew.
pub open spec fn newly_buried(
    records: Seq<LocalArtifactRecordModel>,
    targets: Seq<Seq<char>>,
) -> nat
    decreases records.len(),
{
    if records.len() == 0 {
        0
    } else {
        newly_buried(records.drop_last(), targets) + if targets.contains(records.last().id)
            && records.last().tombstone is None {
            1nat
        } else {
            0
        }
    }
}

/// The reference by which the file of a record is deleted.
pub open spec fn deletion_of(record: LocalArtifactRecordModel) -> OutputRefModel {
    OutputRefModel {
        id: record.id,
        uri: record.path,
        media_type: record.media_type,
        label: record.label,
        digest: None,
    }
}

/// The files to delete: those of targeted records whose path is known to be their own.
pub open spec fn deletions(
    records: Seq<LocalArtifactRecordModel>,
    targets: Seq<Seq<char>>,
    owned: Seq<bool>,
) -> Seq<OutputRefModel>
    decreases records.len(),
{
    if records.len() == 0 {
        Seq::empty()
    } else {
        let n = records.len() - 1;
        let others = deletions(records.drop_last(), targets, owned);
        if targets.contains(records[n].id) && owned[n] {
            others.push(deletion_of(records[n]))
        } else {
            others
        }
    }
}

pub open spec fn capped_sum(a: usize, b: int) -> usize {
    if a + b > usize::MAX {
        usize::MAX
    } else {
        (a + b) as usize
    }
}

fn capped_add(a: usize, b: usize) -> (r: usize)
    ensures
        r == capped_sum(a, b as int),
{
    if a > usize::MAX - b {
        usize::MAX
    } else {
        a + b
    }
}

/// Where an expiry stands: the scopes with their targets, how many of them are done, the
/// files of the last one that are to go, and what has happened so far.
#[derive(Debug, PartialEq, Eq)]
pub struct ArtifactExpiry {
    targets: TextMap<Vec<String>>,
    done: usize,
    deletions: Vec<OutputRef>,
    tombstone: ArtifactTombstone,
    report: ArtifactExpirationReport,
}

/// What a [`ArtifactExpiry`] holds.
pub struct ArtifactExpiryModel {
    pub targets: Seq<(Seq<char>, Seq<Seq<char>>)>,
    pub done: usize,
    pub deletions: Seq<OutputRefModel>,
    pub tombstone: ArtifactTombstoneModel,
    pub report: ArtifactExpirationReport,
}

impl DeepView for ArtifactExpiry {
    type V = ArtifactExpiryModel;

    closed spec fn deep_view(&self) -> ArtifactExpiryModel {
        ArtifactExpiryModel {
            targets: self.targets.deep_view(),
            done: self.done.deep_view(),
            deletions: self.deletions.deep_view(),
            tombstone: self.tombstone.deep_view(),
            report: self.report.deep_view(),
        }
    }
}

impl View for ArtifactExpiry {
    type V = ArtifactExpiryModel;

    #[verifier::inline]
    open spec fn view(&self) -> ArtifactExpiryModel {
        self.deep_view()
    }
}

impl Record for ArtifactExpiry {
    fn duplicate(&self) -> (r: Self) {
        ArtifactExpiry {
            targets: self.targets.duplicate(),
            done: self.done.duplicate(),
            deletions: self.deletions.duplicate(),
            tombstone: self.tombstone.duplicate(),
            report: self.report.duplicate(),
        }
    }

    fn same(&self, other: &Self) -> (r: bool) {
        self.targets.same(&other.targets)
            && self.done.same(&other.done)
            && self.deletions.same(&other.deletions)
            && self.tombstone.same(&other.tombstone)
            && self.report.same(&other.report)
    }
}

impl Clone for ArtifactExpiry {
    fn clone(&self) -> (r: Self)
        ensures
            r.deep_view() == self.deep_view(),
    {
        self.duplicate()
    }
}

impl ArtifactExpiryModel {
    /// An expiry before its first scope.
    pub open spec fn begun(
        records: Seq<LocalArtifactRecordModel>,
        ids: Seq<Seq<char>>,
        tombstone: ArtifactTombstoneModel,
    ) -> ArtifactExpiryModel {
        let some = ids.len() > 0;
        ArtifactExpiryModel {
            targets: if some {
                by_scope(records, ids)
            } else {
                Seq::empty()
            },
            done: 0,
            deletions: Seq::empty(),
            tombstone,
            report: ArtifactExpirationReport {
                requested: distinct(ids).len() as usize,
                matched: if some {
                    matches(records, ids) as usize
                } else {
                    0
                },
                tombstoned: 0,
                deleted_files: 0,
                missing_files: 0,
            },
        }
    }

    /// The scope that is next.
    pub open spec fn next(self) -> Option<Seq<char>> {
        if self.done < self.targets.len() {
            Some(self.targets[self.done as int].0)
        } else {
            None
        }
    }

    /// The targets in the scope that is next.
    pub open spec fn next_targets(self) -> Seq<Seq<char>> {
        self.targets[self.done as int].1
    }

    /// The expiry once the records of the next scope are marked.
    pub open spec fn advanced(
        self,
        records: Seq<LocalArtifactRecordModel>,
        owned: Seq<bool>,
    ) -> ArtifactExpiryModel {
        ArtifactExpiryModel {
            done: (self.done + 1) as usize,
            deletions: deletions(records, self.next_targets(), owned),
            report: ArtifactExpirationReport {
                tombstoned: capped_sum(
                    self.report.tombstoned,
                    newly_buried(records, self.next_targets()) as int,
                ),
                ..self.report
            },
            ..self
        }
    }

    /// The expiry once it is known what became of a file.
    pub open spec fn counting(self, existed: bool, still_exists: bool) -> ArtifactExpiryModel {
        ArtifactExpiryModel {
            report: ArtifactExpirationReport {
                deleted_files: if existed && !still_exists {
                    capped_sum(self.report.deleted_files, 1)
                } else {
                    self.report.deleted_files
                },
                missing_files: if !existed && !still_exists {
                    capped_sum(self.report.missing_files, 1)
                } else {
                    self.report.missing_files
                },
                ..self.report
            },
            ..self
        }
    }
}

fn distinct_ids(ids: &Vec<OutputRefId>) -> (r: Vec<String>)
    ensures
        r.deep_view() == distinct(ids.deep_view()),
{
    let ghost all = ids.deep_view();
    let mut once: Vec<String> = Vec::new();
    let mut i: usize = 0;
    assert(once.deep_view() =~= distinct(all.take(0)));
    while i < ids.len()
        invariant
            i <= ids.len(),
            all == ids.deep_view(),
            once.deep_view() == distinct(all.take(i as int)),
        decreases ids.len() - i,
    {
        proof {
            assert(all.take(i + 1).drop_last() =~= all.take(i as int));
            assert(all.take(i + 1).last() == ids[i as int]@);
        }
        push_unseen(&mut once, ids[i].as_str());
        i += 1;
    }
    assert(all.take(i as int) =~= all);
    once
}

fn push_unseen(texts: &mut Vec<String>, text: &str)
    ensures
        final(texts).deep_view() == pushed_once(old(texts).deep_view(), text@),
{
    if !holds_text(texts, text) {
        let ghost all = texts.deep_view();
        texts.push(text.to_owned());
        assert(texts.deep_view() =~= all.push(text@));
    }
}

proof fn lemma_distinct_holds_all(texts: Seq<Seq<char>>)
    ensures
        forall|text: Seq<char>| #[trigger]
            distinct(texts).contains(text) <==> texts.contains(text),
    decreases texts.len(),
{
    if texts.len() > 0 {
        let earlier = texts.drop_last();
        let last = texts.last();
        lemma_distinct_holds_all(earlier);
        assert forall|text: Seq<char>| #[trigger]
            distinct(texts).contains(text) <==> texts.contains(text) by {
            let once = distinct(earlier);
            assert(texts =~= earlier.push(last));
            if texts.contains(text) {
                let i = choose|i: int| 0 <= i < texts.len() && texts[i] == text;
                if i < earlier.len() {
                    assert(earlier[i] == text);
                    assert(once.contains(text));
                    let j = choose|j: int| 0 <= j < once.len() && once[j] == text;
                    assert(distinct(texts)[j] == text);
                } else if !once.contains(last) {
                    assert(distinct(texts)[once.len() as int] == text);
                }
            }
            if distinct(texts).contains(text) {
                let j = choose|j: int| 0 <= j < distinct(texts).len() && distinct(texts)[j] == text;
                if once.contains(last) || j < once.len() {
                    assert(once[j] == text);
                    assert(once.contains(text));
                    assert(earlier.contains(text));
                    let i = choose|i: int| 0 <= i < earlier.len() && earlier[i] == text;
                    assert(texts[i] == text);
                } else {
                    assert(texts[texts.len() - 1] == text);
                }
            }
        }
    }
}

proof fn lemma_same_ids_same_targets(
    records: Seq<LocalArtifactRecordModel>,
    a: Seq<Seq<char>>,
    b: Seq<Seq<char>>,
)
    requires
        forall|text: Seq<char>| #[trigger] a.contains(text) <==> b.contains(text),
    ensures
        by_scope(records, a) == by_scope(records, b),
        matches(records, a) == matches(records, b),
        matches(records, a) <= records.len(),
    decreases records.len(),
{
    if records.len() > 0 {
        lemma_same_ids_same_targets(records.drop_last(), a, b);
        assert(a.contains(records.last().id) <==> b.contains(records.last().id));
    }
}

impl ArtifactExpiry {
    /// Plans which records are to expire. `scope` is the one that all records must lie in,
    /// where the expiry is confined to one.
    pub fn begin(
        records: &Vec<LocalArtifactRecord>,
        scope: &Option<String>,
        record_ids: &Vec<OutputRefId>,
        now: LedgerTimestamp,
        reason: String,
    ) -> (r: ArtifactResult<Self>)
        ensures
            match r {
                Ok(expiry) => {
                    &&& record_ids.deep_view().len() == 0 || artifacts::scope_problem(
                        records.deep_view(),
                        scope.deep_view(),
                    ) is None
                    &&& expiry@ == ArtifactExpiryModel::begun(
                        records.deep_view(),
                        record_ids.deep_view(),
                        ArtifactTombstoneModel { at: now, reason: reason@ },
                    )
                },
                Err(error) => {
                    &&& record_ids.deep_view().len() > 0
                    &&& artifacts::scope_problem(records.deep_view(), scope.deep_view()) == Some(
                        error@,
                    )
                },
            },
    {
        let ghost all = records.deep_view();
        let ids = distinct_ids(record_ids);
        let ghost asked = ids.deep_view();
        proof {
            lemma_distinct_holds_all(record_ids.deep_view());
            lemma_same_ids_same_targets(all, asked, record_ids.deep_view());
            if record_ids.deep_view().len() > 0 {
                assert(record_ids.deep_view().contains(record_ids.deep_view()[0]));
                assert(asked.contains(record_ids.deep_view()[0]));
            } else {
                assert(asked.len() == 0);
            }
            assert(ids.len() == asked.len());
        }
        let mut report = ArtifactExpirationReport::new(ids.len());
        let tombstone = ArtifactTombstone { at: now, reason };
        let mut targets: TextMap<Vec<String>> = TextMap::new();
        let mut matched: usize = 0;
        if ids.len() > 0 {
            check_record_scopes(records, scope)?;
            let mut i: usize = 0;
            assert(targets@ =~= by_scope(all.take(0), asked));
            while i < records.len()
                invariant
                    i <= records.len(),
                    all == records.deep_view(),
                    asked == ids.deep_view(),
                    targets@ == by_scope(all.take(i as int), asked),
                    matched == matches(all.take(i as int), asked),
                    matched <= i,
                decreases records.len() - i,
            {
                proof {
                    assert(all.take(i + 1).drop_last() =~= all.take(i as int));
                    assert(all.take(i + 1).last() == records[i as int]@);
                }
                let record = &records[i];
                if holds_text(&ids, record.id.as_str()) {
                    matched += 1;
                    let mut under = match targets.get(record.scope.as_str()) {
                        Some(found) => found.duplicate(),
                        None => Vec::new(),
                    };
                    assert(under.deep_view() =~= ids_under(targets@, record.scope@));
                    push_unseen(&mut under, record.id.as_str());
                    targets.insert(record.scope.clone(), under);
                }
                i += 1;
            }
            assert(all.take(i as int) =~= all);
        }
        report.matched = matched;
        let expiry = ArtifactExpiry { targets, done: 0, deletions: Vec::new(), tombstone, report };
        assert(expiry@.deletions =~= Seq::empty());
        Ok(expiry)
    }

    /// The scope whose index is to be read next.
    pub fn next_scope(&self) -> (r: Option<&str>)
        ensures
            r.deep_view() == self@.next(),
    {
        if self.done < self.targets.len() {
            Some(self.targets.key_at(self.done))
        } else {
            None
        }
    }

    /// Marks the targeted ones among the records of the next scope, and gives the records
    /// to be written down. `owned` says of each record whether its path is its own.
    pub fn tombstone_scope(&mut self, records: &Vec<LocalArtifactRecord>, owned: &Vec<bool>) -> (r:
        Vec<LocalArtifactRecord>)
        requires
            old(self)@.next() is Some,
            records.len() == owned.len(),
        ensures
            final(self)@ == old(self)@.advanced(records.deep_view(), owned@),
            r.deep_view() == all_buried(
                records.deep_view(),
                old(self)@.next_targets(),
                old(self)@.tombstone,
            ),
    {
        let ghost all = records.deep_view();
        let ghost before = self@;
        let scopes: usize = self.targets.len();
        let targets = self.targets.value_at(self.done).duplicate();
        let ghost ids = targets.deep_view();
        let mut marked: Vec<LocalArtifactRecord> = Vec::new();
        let mut refs: Vec<OutputRef> = Vec::new();
        let mut count: usize = 0;
        let mut i: usize = 0;
        assert(marked.deep_view() =~= all_buried(all, ids, before.tombstone).take(0));
        assert(refs.deep_view() =~= deletions(all.take(0), ids, owned@));
        while i < records.len()
            invariant
                i <= records.len() == owned.len(),
                all == records.deep_view(),
                ids == targets.deep_view(),
                self@ == before,
                marked.deep_view() == all_buried(all, ids, before.tombstone).take(i as int),
                refs.deep_view() == deletions(all.take(i as int), ids, owned@),
                count == newly_buried(all.take(i as int), ids),
                count <= i,
            decreases records.len() - i,
        {
            proof {
                assert(all.take(i + 1).drop_last() =~= all.take(i as int));
                assert(all.take(i + 1)[i as int] == records[i as int]@);
                let list = all_buried(all, ids, before.tombstone);
                assert(list.take(i + 1) =~= list.take(i as int).push(list[i as int]));
            }
            let mut record = records[i].clone();
            if holds_text(&targets, record.id.as_str()) {
                if owned[i] {
                    let ghost sofar = refs.deep_view();
                    let output_ref = OutputRef {
                        id: record.id.clone(),
                        uri: record.path.clone(),
                        media_type: record.media_type.clone(),
                        label: record.label.duplicate(),
                        digest: None,
                    };
                    refs.push(output_ref);
                    assert(refs.deep_view() =~= sofar.push(output_ref@));
                }
                if record.tombstone.is_none() {
                    count += 1;
                    record.tombstone = Some(self.tombstone.clone());
                }
            }
            let ghost sofar = marked.deep_view();
            marked.push(record);
            assert(marked.deep_view() =~= sofar.push(record@));
            i += 1;
        }
        proof {
            assert(all.take(i as int) =~= all);
            let list = all_buried(all, ids, before.tombstone);
            assert(list.take(i as int) =~= list);
        }
        self.report.tombstoned = capped_add(self.report.tombstoned, count);
        self.deletions = refs;
        assert(self.done < scopes);
        self.done = self.done + 1;
        marked
    }

    /// The files that are to be deleted once the index of the scope is written.
    pub fn pending_deletions(&self) -> (r: Vec<OutputRef>)
        ensures
            r.deep_view() == self@.deletions,
    {
        self.deletions.duplicate()
    }

    /// Counts what became of a file that was to be deleted.
    pub fn count_deletion(&mut self, existed: bool, still_exists: bool)
        ensures
            final(self)@ == old(self)@.counting(existed, still_exists),
    {
        if existed && !still_exists {
            self.report.deleted_files = capped_add(self.report.deleted_files, 1);
        } else if !existed && !still_exists {
            self.report.missing_files = capped_add(self.report.missing_files, 1);
        }
    }

    pub fn report(&self) -> (r: ArtifactExpirationReport)
        ensures
            r == self@.report,
    {
        self.report
    }
}

} // verus!
