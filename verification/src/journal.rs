//! The journal of published changes.
use crate::runtime_types::{ChangeModel, DeltaModel, RuntimeChange, RuntimeDelta};
use crate::semantic::json_size;
use crate::session_update::saturating_sum;
use crate::table::Duplicate;
use crate::text::same_text;
use crate::wire::Wire;
use vstd::prelude::*;

verus! {

/// The number after a revision or a sequence number. Zero is never used, so
/// that the numbers start over with one.
pub open spec fn bumped(number: u64) -> u64 {
    if number == u64::MAX {
        1
    } else {
        (number + 1) as u64
    }
}

/// The number after a revision or a sequence number.
pub fn bump(number: u64) -> (next: u64)
    ensures
        next == bumped(number),
{
    if number == u64::MAX {
        1
    } else {
        number + 1
    }
}

/// A published change and the size of its JSON form, so that the size need not
/// be taken again when the change leaves the journal.
#[derive(Debug)]
pub struct JournalDelta {
    pub delta: RuntimeDelta,
    pub bytes: usize,
}

#[verifier::ext_equal]
pub struct EntryModel {
    pub delta: DeltaModel,
    pub bytes: usize,
}

impl View for JournalDelta {
    type V = EntryModel;

    open spec fn view(&self) -> EntryModel {
        EntryModel { delta: self.delta@, bytes: self.bytes }
    }
}

/// The published changes that may still be asked for.
#[derive(Debug)]
pub struct RuntimeJournal {
    seq: u64,
    deltas: Vec<JournalDelta>,
    bytes: usize,
}

#[verifier::ext_equal]
pub struct JournalModel {
    pub seq: u64,
    pub deltas: Seq<EntryModel>,
    pub bytes: usize,
}

/// The models of journal entries.
pub open spec fn journal_entries(entries: Seq<JournalDelta>) -> Seq<EntryModel> {
    Seq::new(entries.len(), |i: int| entries[i]@)
}

impl View for RuntimeJournal {
    type V = JournalModel;

    closed spec fn view(&self) -> JournalModel {
        JournalModel { seq: self.seq, deltas: journal_entries(self.deltas@), bytes: self.bytes }
    }
}

/// The journal in which nothing has been published.
pub open spec fn empty_journal() -> JournalModel {
    JournalModel { seq: 0, deltas: Seq::empty(), bytes: 0 }
}

/// The size of the JSON form of a change.
pub open spec fn delta_size(delta: DeltaModel) -> nat {
    json_size(<RuntimeDelta as Wire>::wire(delta))
}

/// The journal after one more change.
pub open spec fn journal_committed(
    journal: JournalModel,
    epoch: Seq<char>,
    scope_revision: Option<u64>,
    change: ChangeModel,
) -> JournalModel {
    let delta = DeltaModel { epoch, seq: bumped(journal.seq), scope_revision, change };
    JournalModel {
        seq: bumped(journal.seq),
        deltas: journal.deltas.push(EntryModel { delta, bytes: delta_size(delta) as usize }),
        bytes: saturating_sum(journal.bytes, delta_size(delta)),
    }
}

/// The number of entries at the start with a sequence number up to the given
/// one.
pub open spec fn covered(entries: Seq<EntryModel>, seq: u64) -> nat
    decreases entries.len(),
{
    if entries.len() > 0 && entries[0].delta.seq <= seq {
        1 + covered(entries.drop_first(), seq)
    } else {
        0
    }
}

/// A size less the sizes of some entries; it does not go below zero.
pub open spec fn bytes_without(bytes: usize, entries: Seq<EntryModel>) -> usize
    decreases entries.len(),
{
    if entries.len() == 0 {
        bytes
    } else {
        let rest = bytes_without(bytes, entries.drop_last());
        if rest >= entries.last().bytes {
            (rest - entries.last().bytes) as usize
        } else {
            0
        }
    }
}

/// The journal without the changes that a publication covered.
pub open spec fn journal_released(journal: JournalModel, seq: u64) -> JournalModel {
    let count = covered(journal.deltas, seq) as int;
    JournalModel {
        deltas: journal.deltas.skip(count),
        bytes: bytes_without(journal.bytes, journal.deltas.take(count)),
        ..journal
    }
}

/// Whether a change may hold the payload of a turn.
pub open spec fn owns_payload(
    change: ChangeModel,
    session_id: Seq<char>,
    incarnation: u64,
    operation_id: Seq<char>,
) -> bool {
    match change {
        ChangeModel::SessionUpsert { session } => session.session_id == session_id
            && session.incarnation == incarnation,
        ChangeModel::TurnUpdateAppended {
            session_id: id,
            incarnation: inc,
            operation_id: operation,
            ..
        } => (id == session_id && inc == incarnation) || operation == operation_id,
        _ => false,
    }
}

/// The largest sequence number among the entries that may hold the payload of
/// a turn.
pub open spec fn last_payload(
    entries: Seq<EntryModel>,
    session_id: Seq<char>,
    incarnation: u64,
    operation_id: Seq<char>,
) -> Option<u64>
    decreases entries.len(),
{
    if entries.len() == 0 {
        None
    } else {
        let before = last_payload(entries.drop_last(), session_id, incarnation, operation_id);
        let last = entries.last().delta;
        if owns_payload(last.change, session_id, incarnation, operation_id) {
            match before {
                Some(seq) => if seq > last.seq {
                    Some(seq)
                } else {
                    Some(last.seq)
                },
                None => Some(last.seq),
            }
        } else {
            before
        }
    }
}

/// The sum of the sizes of entries; it stops at the largest machine integer.
pub open spec fn total_bytes(entries: Seq<EntryModel>) -> usize
    decreases entries.len(),
{
    if entries.len() == 0 {
        0
    } else {
        saturating_sum(total_bytes(entries.drop_last()), entries.last().bytes as nat)
    }
}

/// The journal after a turn has been retired: all entries up to the last one
/// that may hold its payload are gone, so that what is left has no holes.
pub open spec fn journal_retired(
    journal: JournalModel,
    session_id: Seq<char>,
    incarnation: u64,
    operation_id: Seq<char>,
) -> JournalModel {
    let rest = match last_payload(journal.deltas, session_id, incarnation, operation_id) {
        Some(seq) => journal.deltas.skip(covered(journal.deltas, seq) as int),
        None => journal.deltas,
    };
    JournalModel { deltas: rest, bytes: total_bytes(rest), ..journal }
}

/// The changes after a sequence number.
pub open spec fn changes_after(entries: Seq<EntryModel>, seq: u64) -> Seq<DeltaModel>
    decreases entries.len(),
{
    if entries.len() == 0 {
        Seq::empty()
    } else {
        let before = changes_after(entries.drop_last(), seq);
        if entries.last().delta.seq > seq {
            before.push(entries.last().delta)
        } else {
            before
        }
    }
}

/// What the journal answers to a request for the changes after a sequence
/// number: nothing where the number lies in the future or where changes after
/// it have left the journal.
pub open spec fn journal_suffix(journal: JournalModel, seq: u64) -> Option<Seq<DeltaModel>> {
    let first = if journal.deltas.len() > 0 {
        journal.deltas[0].delta.seq as int
    } else {
        journal.seq + 1
    };
    if seq > journal.seq || (seq < u64::MAX && seq + 1 < first) {
        None
    } else {
        Some(changes_after(journal.deltas, seq))
    }
}

/// The models of a list of changes.
pub open spec fn deltas_model(deltas: Seq<RuntimeDelta>) -> Seq<DeltaModel> {
    Seq::new(deltas.len(), |i: int| deltas[i]@)
}

/// No more entries are covered than there are.
pub proof fn lemma_covered_bound(entries: Seq<EntryModel>, seq: u64)
    ensures
        covered(entries, seq) <= entries.len(),
    decreases entries.len(),
{
    if entries.len() > 0 && entries[0].delta.seq <= seq {
        lemma_covered_bound(entries.drop_first(), seq);
    }
}

impl RuntimeJournal {
    /// The journal in which nothing has been published.
    pub fn new() -> (journal: Self)
        ensures
            journal@ == empty_journal(),
    {
        let journal = RuntimeJournal { seq: 0, deltas: Vec::new(), bytes: 0 };
        assert(journal@ =~= empty_journal());
        journal
    }

    /// The sequence number of the last change.
    pub fn through_seq(&self) -> (seq: u64)
        ensures
            seq == self@.seq,
    {
        self.seq
    }

    /// The size of the changes in the journal.
    pub fn size(&self) -> (bytes: usize)
        ensures
            bytes == self@.bytes,
    {
        self.bytes
    }

    /// The number of changes in the journal.
    pub fn len(&self) -> (len: usize)
        ensures
            len == self@.deltas.len(),
    {
        self.deltas.len()
    }

    /// The changes after a sequence number.
    pub fn deltas_after(&self, seq: u64) -> (deltas: Option<Vec<RuntimeDelta>>)
        requires
            self@.seq < u64::MAX || self@.deltas.len() > 0,
        ensures
            match deltas {
                Some(deltas) => journal_suffix(self@, seq) == Some(deltas_model(deltas@)),
                None => journal_suffix(self@, seq) is None,
            },
    {
        if seq > self.seq {
            return None;
        }
        let first: u64 = if self.deltas.len() > 0 {
            self.deltas[0].delta.seq
        } else {
            self.seq + 1
        };
        if seq.saturating_add(1) < first {
            return None;
        }
        let ghost entries = self@.deltas;
        let mut deltas: Vec<RuntimeDelta> = Vec::new();
        let mut i: usize = 0;
        assert(deltas_model(deltas@) =~= changes_after(entries.take(0), seq));
        while i < self.deltas.len()
            invariant
                i <= self.deltas@.len(),
                entries == journal_entries(self.deltas@),
                deltas_model(deltas@) == changes_after(entries.take(i as int), seq),
            decreases self.deltas.len() - i,
        {
            assert(entries.take(i + 1).drop_last() =~= entries.take(i as int));
            if self.deltas[i].delta.seq > seq {
                let ghost before = deltas_model(deltas@);
                deltas.push(self.deltas[i].delta.duplicate());
                assert(deltas_model(deltas@) =~= before.push(entries[i as int].delta));
            }
            i += 1;
        }
        assert(entries.take(i as int) =~= entries);
        Some(deltas)
    }

    /// Adds a change.
    pub fn commit(&mut self, epoch: &str, scope_revision: Option<u64>, change: RuntimeChange)
        ensures
            final(self)@ == journal_committed(old(self)@, epoch@, scope_revision, change@),
    {
        self.seq = bump(self.seq);
        let delta = RuntimeDelta { epoch: epoch.to_string(), seq: self.seq, scope_revision, change };
        let bytes: usize = delta.to_json().to_text().as_str().as_bytes().len();
        self.bytes = self.bytes.saturating_add(bytes);
        self.deltas.push(JournalDelta { delta, bytes });
        assert(self@ =~= journal_committed(old(self)@, epoch@, scope_revision, change@));
    }

    fn covered_prefix(&self, seq: u64) -> (count: usize)
        ensures
            count == covered(self@.deltas, seq),
            count <= self.deltas@.len(),
    {
        let ghost entries = self@.deltas;
        assert(entries.skip(0) =~= entries);
        let mut i: usize = 0;
        while i < self.deltas.len() && self.deltas[i].delta.seq <= seq
            invariant
                i <= self.deltas@.len(),
                entries == journal_entries(self.deltas@),
                covered(entries, seq) == i + covered(entries.skip(i as int), seq),
            decreases self.deltas.len() - i,
        {
            assert(entries.skip(i as int).drop_first() =~= entries.skip(i + 1));
            i += 1;
        }
        i
    }

    fn drop_prefix(&mut self, count: usize)
        requires
            count <= old(self)@.deltas.len(),
        ensures
            final(self)@ == (JournalModel {
                deltas: old(self)@.deltas.skip(count as int),
                ..old(self)@
            }),
    {
        let ghost entries = self.deltas@;
        let rest = self.deltas.split_off(count);
        self.deltas = rest;
        assert(self@.deltas =~= journal_entries(entries).skip(count as int));
    }

    /// Drops the prefix that a publication covered. What has not been
    /// published stays, so that a later publication can still deliver it.
    pub fn release_through(&mut self, seq: u64)
        ensures
            final(self)@ == journal_released(old(self)@, seq),
    {
        let count = self.covered_prefix(seq);
        let ghost entries = self@.deltas;
        let ghost before = self.bytes;
        let mut i: usize = 0;
        assert(entries.take(0) =~= Seq::<EntryModel>::empty());
        while i < count
            invariant
                i <= count <= self.deltas@.len(),
                entries == journal_entries(self.deltas@),
                self.deltas@ == old(self).deltas@,
                self.seq == old(self).seq,
                before == old(self).bytes,
                self.bytes == bytes_without(before, entries.take(i as int)),
            decreases count - i,
        {
            assert(entries.take(i + 1).drop_last() =~= entries.take(i as int));
            self.bytes = self.bytes.saturating_sub(self.deltas[i].bytes);
            i += 1;
        }
        self.drop_prefix(count);
    }

    /// Drops all that may hold the payload of a turn.
    pub fn retire_turn_payload(&mut self, session_id: &str, incarnation: u64, operation_id: &str)
        ensures
            final(self)@ == journal_retired(old(self)@, session_id@, incarnation, operation_id@),
    {
        let ghost entries = self@.deltas;
        let mut last: Option<u64> = None;
        let mut i: usize = 0;
        assert(entries.take(0) =~= Seq::<EntryModel>::empty());
        while i < self.deltas.len()
            invariant
                i <= self.deltas@.len(),
                *self == *old(self),
                entries == journal_entries(self.deltas@),
                last == last_payload(
                    entries.take(i as int),
                    session_id@,
                    incarnation,
                    operation_id@,
                ),
            decreases self.deltas.len() - i,
        {
            assert(entries.take(i + 1).drop_last() =~= entries.take(i as int));
            let delta = &self.deltas[i].delta;
            let owns = match &delta.change {
                RuntimeChange::SessionUpsert { session } => session.incarnation == incarnation
                    && same_text(session.session_id.as_str(), session_id),
                RuntimeChange::TurnUpdateAppended {
                    session_id: id,
                    incarnation: inc,
                    operation_id: operation,
                    ..
                } => (*inc == incarnation && same_text(id.as_str(), session_id)) || same_text(
                    operation.as_str(),
                    operation_id,
                ),
                RuntimeChange::SessionControlUpdated { .. }
                | RuntimeChange::TerminalUpdated { .. }
                | RuntimeChange::ConnectionUpsert { .. }
                | RuntimeChange::SessionRemoved { .. } => false,
            };
            if owns {
                last = match last {
                    Some(seq) => if seq > delta.seq {
                        Some(seq)
                    } else {
                        Some(delta.seq)
                    },
                    None => Some(delta.seq),
                };
            }
            i += 1;
        }
        assert(entries.take(i as int) =~= entries);
        match last {
            Some(seq) => {
                let count = self.covered_prefix(seq);
                self.drop_prefix(count);
            },
            None => {},
        }
        let ghost rest = self@.deltas;
        let ghost seq = self.seq;
        let mut total: usize = 0;
        let mut k: usize = 0;
        assert(rest.take(0) =~= Seq::<EntryModel>::empty());
        while k < self.deltas.len()
            invariant
                k <= self.deltas@.len(),
                rest == journal_entries(self.deltas@),
                self.seq == seq,
                total == total_bytes(rest.take(k as int)),
            decreases self.deltas.len() - k,
        {
            assert(rest.take(k + 1).drop_last() =~= rest.take(k as int));
            total = total.saturating_add(self.deltas[k].bytes);
            k += 1;
        }
        assert(rest.take(k as int) =~= rest);
        self.bytes = total;
    }
}

/// Whether the entries of a journal follow one another without a hole, up to
/// the last sequence number.
pub open spec fn contiguous(journal: JournalModel) -> bool {
    forall|i: int|
        0 <= i < journal.deltas.len() ==> (#[trigger] journal.deltas[i]).delta.seq + (
        journal.deltas.len() - 1 - i) == journal.seq
}

/// A journal stays without holes when a change is added, as long as the
/// sequence numbers do not start over.
pub proof fn law_commit_keeps_contiguous(
    journal: JournalModel,
    epoch: Seq<char>,
    scope_revision: Option<u64>,
    change: ChangeModel,
)
    requires
        contiguous(journal),
        journal.seq < u64::MAX,
    ensures
        contiguous(journal_committed(journal, epoch, scope_revision, change)),
{
    let after = journal_committed(journal, epoch, scope_revision, change);
    assert forall|i: int| 0 <= i < after.deltas.len() implies (#[trigger] after.deltas[i]).delta.seq
        + (after.deltas.len() - 1 - i) == after.seq by {
        if i < journal.deltas.len() {
            assert(after.deltas[i] == journal.deltas[i]);
        }
    }
}

/// A journal stays without holes when published changes are released and when
/// a turn is retired.
pub proof fn law_release_and_retirement_keep_contiguous(
    journal: JournalModel,
    seq: u64,
    session_id: Seq<char>,
    incarnation: u64,
    operation_id: Seq<char>,
)
    requires
        contiguous(journal),
    ensures
        contiguous(journal_released(journal, seq)),
        contiguous(journal_retired(journal, session_id, incarnation, operation_id)),
{
    lemma_skip_contiguous(journal, seq);
    match last_payload(journal.deltas, session_id, incarnation, operation_id) {
        Some(last) => {
            lemma_skip_contiguous(journal, last);
        },
        None => {},
    }
}

proof fn lemma_skip_contiguous(journal: JournalModel, seq: u64)
    requires
        contiguous(journal),
    ensures
        ({
            let rest = journal.deltas.skip(covered(journal.deltas, seq) as int);
            forall|i: int|
                0 <= i < rest.len() ==> (#[trigger] rest[i]).delta.seq + (rest.len() - 1 - i)
                    == journal.seq
        }),
{
    lemma_covered_bound(journal.deltas, seq);
    let count = covered(journal.deltas, seq) as int;
    let rest = journal.deltas.skip(count);
    assert forall|i: int| 0 <= i < rest.len() implies (#[trigger] rest[i]).delta.seq + (rest.len()
        - 1 - i) == journal.seq by {
        assert(rest[i] == journal.deltas[count + i]);
    }
}

/// Of a journal without holes, the entries that a sequence number covers are
/// those with a number up to it.
proof fn lemma_covered_all(entries: Seq<EntryModel>, seq: u64)
    requires
        forall|i: int, j: int|
            0 <= i < j < entries.len() ==> (#[trigger] entries[i]).delta.seq < (
            #[trigger] entries[j]).delta.seq,
    ensures
        covered(entries, seq) <= entries.len(),
        forall|i: int|
            0 <= i < entries.len() ==> ((#[trigger] entries[i]).delta.seq <= seq <==> i < covered(
                entries,
                seq,
            )),
    decreases entries.len(),
{
    if entries.len() > 0 {
        if entries[0].delta.seq <= seq {
            let rest = entries.drop_first();
            assert forall|i: int, j: int| 0 <= i < j < rest.len() implies (
            #[trigger] rest[i]).delta.seq < (#[trigger] rest[j]).delta.seq by {
                assert(rest[i] == entries[i + 1]);
                assert(rest[j] == entries[j + 1]);
            }
            lemma_covered_all(rest, seq);
            assert forall|i: int| 0 <= i < entries.len() implies ((#[trigger] entries[i]).delta.seq
                <= seq <==> i < covered(entries, seq)) by {
                if i > 0 {
                    assert(entries[i] == rest[i - 1]);
                }
            }
        } else {
            assert forall|i: int| 0 <= i < entries.len() implies (#[trigger] entries[i]).delta.seq
                > seq by {
                if i > 0 {
                    assert(entries[0].delta.seq < entries[i].delta.seq);
                }
            }
        }
    }
}

proof fn lemma_contiguous_ordered(journal: JournalModel)
    requires
        contiguous(journal),
    ensures
        forall|i: int, j: int|
            0 <= i < j < journal.deltas.len() ==> (#[trigger] journal.deltas[i]).delta.seq < (
            #[trigger] journal.deltas[j]).delta.seq,
{
}

proof fn lemma_last_payload_bounds(
    entries: Seq<EntryModel>,
    session_id: Seq<char>,
    incarnation: u64,
    operation_id: Seq<char>,
)
    ensures
        forall|i: int|
            0 <= i < entries.len() && owns_payload(
                (#[trigger] entries[i]).delta.change,
                session_id,
                incarnation,
                operation_id,
            ) ==> (last_payload(entries, session_id, incarnation, operation_id) matches Some(seq)
                && entries[i].delta.seq <= seq),
    decreases entries.len(),
{
    if entries.len() > 0 {
        lemma_last_payload_bounds(entries.drop_last(), session_id, incarnation, operation_id);
        assert forall|i: int|
            0 <= i < entries.len() && owns_payload(
                (#[trigger] entries[i]).delta.change,
                session_id,
                incarnation,
                operation_id,
            ) implies (last_payload(entries, session_id, incarnation, operation_id) matches Some(
            seq,
        ) && entries[i].delta.seq <= seq) by {
            if i < entries.len() - 1 {
                assert(entries.drop_last()[i] == entries[i]);
            }
        }
    }
}

/// After a turn has been retired, no entry of a journal without holes may hold
/// its payload.
pub proof fn law_retirement_drops_payload(
    journal: JournalModel,
    session_id: Seq<char>,
    incarnation: u64,
    operation_id: Seq<char>,
)
    requires
        contiguous(journal),
    ensures
        forall|i: int|
            #![trigger journal_retired(journal, session_id, incarnation, operation_id).deltas[i]]
            0 <= i < journal_retired(journal, session_id, incarnation, operation_id).deltas.len()
                ==> !owns_payload(
                journal_retired(
                    journal,
                    session_id,
                    incarnation,
                    operation_id,
                ).deltas[i].delta.change,
                session_id,
                incarnation,
                operation_id,
            ),
{
    let rest = journal_retired(journal, session_id, incarnation, operation_id).deltas;
    lemma_last_payload_bounds(journal.deltas, session_id, incarnation, operation_id);
    lemma_contiguous_ordered(journal);
    match last_payload(journal.deltas, session_id, incarnation, operation_id) {
        Some(seq) => {
            lemma_covered_all(journal.deltas, seq);
            let count = covered(journal.deltas, seq) as int;
            assert forall|i: int| 0 <= i < rest.len() implies !owns_payload(
                (#[trigger] rest[i]).delta.change,
                session_id,
                incarnation,
                operation_id,
            ) by {
                assert(rest[i] == journal.deltas[count + i]);
            }
        },
        None => {},
    }
}

proof fn lemma_changes_after(journal: JournalModel, seq: u64)
    requires
        contiguous(journal),
    ensures
        changes_after(journal.deltas, seq) == Seq::new(
            (journal.deltas.len() - covered(journal.deltas, seq)) as nat,
            |i: int| journal.deltas[covered(journal.deltas, seq) + i].delta,
        ),
{
    lemma_contiguous_ordered(journal);
    lemma_covered_all(journal.deltas, seq);
    lemma_changes_of_ordered(journal.deltas, seq, covered(journal.deltas, seq) as int);
}

proof fn lemma_changes_of_ordered(entries: Seq<EntryModel>, seq: u64, count: int)
    requires
        0 <= count <= entries.len(),
        forall|i: int|
            0 <= i < entries.len() ==> ((#[trigger] entries[i]).delta.seq <= seq <==> i < count),
    ensures
        changes_after(entries, seq) == Seq::new(
            (entries.len() - count) as nat,
            |i: int| entries[count + i].delta,
        ),
    decreases entries.len(),
{
    let target = Seq::new((entries.len() - count) as nat, |i: int| entries[count + i].delta);
    if entries.len() == 0 {
        assert(changes_after(entries, seq) =~= target);
    } else {
        let before = entries.drop_last();
        if count == entries.len() {
            assert(entries[entries.len() - 1].delta.seq <= seq);
            lemma_changes_of_ordered(before, seq, count - 1);
        } else {
            assert(entries[entries.len() - 1].delta.seq > seq);
            lemma_changes_of_ordered(before, seq, count);
        }
        assert(changes_after(entries, seq) =~= target);
    }
}

/// Resuming from a sequence number gives the changes with the numbers after
/// it, one by one, up to the last one; or nothing at all.
pub proof fn law_suffix_is_complete(journal: JournalModel, seq: u64)
    requires
        contiguous(journal),
    ensures
        journal_suffix(journal, seq) matches Some(changes) ==> changes.len() == journal.seq - seq
            && forall|i: int|
            0 <= i < changes.len() ==> (#[trigger] changes[i]).seq == seq + 1 + i,
{
    if let Some(changes) = journal_suffix(journal, seq) {
        lemma_changes_after(journal, seq);
        lemma_contiguous_ordered(journal);
        lemma_covered_all(journal.deltas, seq);
        let count = covered(journal.deltas, seq) as int;
        if journal.deltas.len() > 0 {
            assert(journal.deltas[0].delta.seq + (journal.deltas.len() - 1) == journal.seq);
            if count < journal.deltas.len() {
                assert(journal.deltas[count].delta.seq > seq);
                assert(journal.deltas[count].delta.seq + (journal.deltas.len() - 1 - count)
                    == journal.seq);
                if count > 0 {
                    assert(journal.deltas[count - 1].delta.seq <= seq);
                    assert(journal.deltas[count - 1].delta.seq + (journal.deltas.len() - count)
                        == journal.seq);
                }
            } else {
                assert(journal.deltas[count - 1].delta.seq <= seq);
                assert(journal.deltas[count - 1].delta.seq == journal.seq);
            }
        }
        assert forall|i: int| 0 <= i < changes.len() implies (#[trigger] changes[i]).seq == seq + 1
            + i by {
            assert(changes[i] == journal.deltas[count + i].delta);
            assert(journal.deltas[count + i].delta.seq + (journal.deltas.len() - 1 - (count + i))
                == journal.seq);
        }
    }
}

/// Of a journal without holes, what is answered are its last entries, and it
/// is answered as long as they are there.
pub proof fn lemma_suffix_content(journal: JournalModel, seq: u64)
    requires
        contiguous(journal),
    ensures
        journal_suffix(journal, seq) is Some <==> seq <= journal.seq && journal.seq - seq
            <= journal.deltas.len(),
        journal_suffix(journal, seq) matches Some(changes) ==> changes == Seq::new(
            (journal.seq - seq) as nat,
            |i: int| journal.deltas[journal.deltas.len() - (journal.seq - seq) + i].delta,
        ),
{
    law_suffix_is_complete(journal, seq);
    if journal.deltas.len() > 0 {
        assert(journal.deltas[0].delta.seq + (journal.deltas.len() - 1) == journal.seq);
    }
    if let Some(changes) = journal_suffix(journal, seq) {
        lemma_changes_after(journal, seq);
        let count = covered(journal.deltas, seq) as int;
        lemma_covered_bound(journal.deltas, seq);
        assert(changes.len() == journal.deltas.len() - count);
        assert(changes =~= Seq::new(
            (journal.seq - seq) as nat,
            |i: int| journal.deltas[journal.deltas.len() - (journal.seq - seq) + i].delta,
        ));
    }
}

} // verus!
