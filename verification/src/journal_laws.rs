//! What the journal keeps, what it lets go, and how large it is.
use crate::journal::{
    bytes_without, contiguous, covered, delta_size, journal_committed, journal_released,
    journal_retired, last_payload, lemma_covered_bound, total_bytes, EntryModel, JournalModel,
};
use crate::runtime_types::ChangeModel;
use vstd::prelude::*;

verus! {

/// The size of some entries together.
pub open spec fn size_together(entries: Seq<EntryModel>) -> nat
    decreases entries.len(),
{
    if entries.len() == 0 {
        0
    } else {
        entries[0].bytes as nat + size_together(entries.drop_first())
    }
}

proof fn lemma_size_of_two(a: Seq<EntryModel>, b: Seq<EntryModel>)
    ensures
        size_together(a + b) == size_together(a) + size_together(b),
    decreases a.len(),
{
    if a.len() == 0 {
        assert(a + b =~= b);
    } else {
        assert((a + b).drop_first() =~= a.drop_first() + b);
        lemma_size_of_two(a.drop_first(), b);
    }
}

proof fn lemma_size_of_one_more(entries: Seq<EntryModel>, entry: EntryModel)
    ensures
        size_together(entries.push(entry)) == size_together(entries) + entry.bytes,
{
    assert(entries.push(entry) =~= entries + seq![entry]);
    lemma_size_of_two(entries, seq![entry]);
    assert(seq![entry].drop_first() =~= Seq::empty());
    assert(size_together(seq![entry].drop_first()) == 0);
}

proof fn lemma_without(bytes: usize, entries: Seq<EntryModel>)
    requires
        size_together(entries) <= bytes,
    ensures
        bytes_without(bytes, entries) == bytes - size_together(entries),
    decreases entries.len(),
{
    if entries.len() > 0 {
        assert(entries =~= entries.drop_last().push(entries.last()));
        lemma_size_of_one_more(entries.drop_last(), entries.last());
        lemma_without(bytes, entries.drop_last());
    }
}

proof fn lemma_total(entries: Seq<EntryModel>)
    requires
        size_together(entries) <= usize::MAX,
    ensures
        total_bytes(entries) == size_together(entries),
    decreases entries.len(),
{
    if entries.len() > 0 {
        assert(entries =~= entries.drop_last().push(entries.last()));
        lemma_size_of_one_more(entries.drop_last(), entries.last());
        lemma_total(entries.drop_last());
    }
}

/// A change that is published is kept last, under the next sequence number and
/// with its own size; what was kept stays as it was.
pub proof fn law_published_change_is_kept(
    journal: JournalModel,
    epoch: Seq<char>,
    scope_revision: Option<u64>,
    change: ChangeModel,
)
    ensures
        ({
            let next = journal_committed(journal, epoch, scope_revision, change);
            let last = next.deltas.last();
            &&& next.deltas.len() == journal.deltas.len() + 1
            &&& forall|i: int|
                0 <= i < journal.deltas.len() ==> #[trigger] next.deltas[i] == journal.deltas[i]
            &&& last.delta.epoch == epoch
            &&& last.delta.scope_revision == scope_revision
            &&& last.delta.change == change
            &&& last.delta.seq == next.seq
            &&& journal.seq < u64::MAX ==> next.seq == journal.seq + 1
            &&& journal.seq == u64::MAX ==> next.seq == 1
            &&& delta_size(last.delta) <= usize::MAX ==> last.bytes == delta_size(last.delta)
        }),
{
}

/// A journal that knows the size of all that it keeps knows it again after a
/// change was published, after changes were released, and after a turn was retired.
pub proof fn law_journal_knows_its_size(
    journal: JournalModel,
    epoch: Seq<char>,
    scope_revision: Option<u64>,
    change: ChangeModel,
    seq: u64,
    session_id: Seq<char>,
    incarnation: u64,
    operation_id: Seq<char>,
)
    requires
        journal.bytes == size_together(journal.deltas),
    ensures
        ({
            let next = journal_committed(journal, epoch, scope_revision, change);
            journal.bytes + delta_size(next.deltas.last().delta) <= usize::MAX ==> next.bytes
                == size_together(next.deltas)
        }),
        ({
            let next = journal_released(journal, seq);
            next.bytes == size_together(next.deltas)
        }),
        ({
            let next = journal_retired(journal, session_id, incarnation, operation_id);
            next.bytes == size_together(next.deltas)
        }),
{
    let committed = journal_committed(journal, epoch, scope_revision, change);
    lemma_size_of_one_more(journal.deltas, committed.deltas.last());
    lemma_cut(journal.deltas, seq);
    lemma_covered_bound(journal.deltas, seq);
    lemma_without(journal.bytes, journal.deltas.take(covered(journal.deltas, seq) as int));
    match last_payload(journal.deltas, session_id, incarnation, operation_id) {
        Some(last) => {
            lemma_cut(journal.deltas, last);
            lemma_total(journal.deltas.skip(covered(journal.deltas, last) as int));
        },
        None => {
            lemma_total(journal.deltas);
        },
    }
}

proof fn lemma_cut(entries: Seq<EntryModel>, seq: u64)
    ensures
        ({
            let count = covered(entries, seq) as int;
            &&& 0 <= count <= entries.len()
            &&& size_together(entries) == size_together(entries.take(count)) + size_together(
                entries.skip(count),
            )
        }),
{
    lemma_covered_bound(entries, seq);
    let count = covered(entries, seq) as int;
    assert(entries =~= entries.take(count) + entries.skip(count));
    lemma_size_of_two(entries.take(count), entries.skip(count));
}

proof fn lemma_covered_ends(entries: Seq<EntryModel>, seq: u64)
    ensures
        covered(entries, seq) <= entries.len(),
        forall|i: int| 0 <= i < covered(entries, seq) ==> (#[trigger] entries[i]).delta.seq <= seq,
        covered(entries, seq) < entries.len() ==> entries[covered(entries, seq) as int].delta.seq
            > seq,
    decreases entries.len(),
{
    if entries.len() > 0 && entries[0].delta.seq <= seq {
        let rest = entries.drop_first();
        lemma_covered_ends(rest, seq);
        assert forall|i: int| 0 <= i < covered(entries, seq) implies (
        #[trigger] entries[i]).delta.seq <= seq by {
            if i > 0 {
                assert(entries[i] == rest[i - 1]);
            }
        }
        let at = covered(entries, seq) as int;
        if at < entries.len() {
            assert(entries[at] == rest[at - 1]);
        }
    }
}

/// Of a journal without holes, exactly the changes up to a sequence number are
/// released; the later ones stay in order, and the journal keeps its number.
pub proof fn law_released_changes_are_gone(journal: JournalModel, seq: u64, i: int)
    requires
        contiguous(journal),
        0 <= i < journal.deltas.len(),
    ensures
        ({
            let next = journal_released(journal, seq);
            let gone = journal.deltas.len() - next.deltas.len();
            &&& next.seq == journal.seq
            &&& 0 <= gone <= journal.deltas.len()
            &&& journal.deltas[i].delta.seq <= seq <==> i < gone
            &&& i >= gone ==> next.deltas[i - gone] == journal.deltas[i]
        }),
{
    lemma_covered_ends(journal.deltas, seq);
    let count = covered(journal.deltas, seq) as int;
    if i >= count {
        assert(journal.deltas[count].delta.seq > seq);
        assert(journal.deltas[i].delta.seq >= journal.deltas[count].delta.seq);
    }
}

/// Whether a change tells of a session, or of the turn that ran in it.
pub open spec fn tells_of_turn(
    change: ChangeModel,
    session_id: Seq<char>,
    incarnation: u64,
    operation_id: Seq<char>,
) -> bool {
    ||| change matches ChangeModel::SessionUpsert { session } && session.session_id == session_id
        && session.incarnation == incarnation
    ||| change matches ChangeModel::TurnUpdateAppended {
        session_id: named,
        incarnation: number,
        operation_id: turn,
        ..
    } && (turn == operation_id || named == session_id && number == incarnation)
}

proof fn lemma_last_tells(
    entries: Seq<EntryModel>,
    session_id: Seq<char>,
    incarnation: u64,
    operation_id: Seq<char>,
)
    ensures
        last_payload(entries, session_id, incarnation, operation_id) matches Some(seq)
            ==> exists|i: int|
            0 <= i < entries.len() && (#[trigger] entries[i]).delta.seq == seq && tells_of_turn(
                entries[i].delta.change,
                session_id,
                incarnation,
                operation_id,
            ),
        forall|i: int|
            0 <= i < entries.len() && tells_of_turn(
                (#[trigger] entries[i]).delta.change,
                session_id,
                incarnation,
                operation_id,
            ) ==> (last_payload(entries, session_id, incarnation, operation_id) matches Some(seq)
                && entries[i].delta.seq <= seq),
    decreases entries.len(),
{
    if entries.len() > 0 {
        let rest = entries.drop_last();
        lemma_last_tells(rest, session_id, incarnation, operation_id);
        if let Some(seq) = last_payload(rest, session_id, incarnation, operation_id) {
            let i = choose|i: int|
                0 <= i < rest.len() && (#[trigger] rest[i]).delta.seq == seq && tells_of_turn(
                    rest[i].delta.change,
                    session_id,
                    incarnation,
                    operation_id,
                );
            assert(entries[i] == rest[i]);
        }
        assert(entries[entries.len() - 1] == entries.last());
        assert forall|i: int|
            0 <= i < entries.len() && tells_of_turn(
                (#[trigger] entries[i]).delta.change,
                session_id,
                incarnation,
                operation_id,
            ) implies (last_payload(entries, session_id, incarnation, operation_id) matches Some(
            seq,
        ) && entries[i].delta.seq <= seq) by {
            if i < rest.len() {
                assert(entries[i] == rest[i]);
            }
        }
    }
}

/// When a turn is retired, a journal without holes lets go of its changes up to the
/// last one that tells of the turn or of its session, and of no later one.
pub proof fn law_retired_turn_is_forgotten(
    journal: JournalModel,
    session_id: Seq<char>,
    incarnation: u64,
    operation_id: Seq<char>,
)
    requires
        contiguous(journal),
    ensures
        ({
            let next = journal_retired(journal, session_id, incarnation, operation_id);
            let gone = journal.deltas.len() - next.deltas.len();
            &&& next.seq == journal.seq
            &&& 0 <= gone <= journal.deltas.len()
            &&& forall|i: int|
                gone <= i < journal.deltas.len() ==> next.deltas[i - gone]
                    == #[trigger] journal.deltas[i] && !tells_of_turn(
                    journal.deltas[i].delta.change,
                    session_id,
                    incarnation,
                    operation_id,
                )
            &&& gone > 0 ==> tells_of_turn(
                journal.deltas[gone - 1].delta.change,
                session_id,
                incarnation,
                operation_id,
            )
        }),
{
    lemma_last_tells(journal.deltas, session_id, incarnation, operation_id);
    if let Some(seq) = last_payload(journal.deltas, session_id, incarnation, operation_id) {
        lemma_covered_ends(journal.deltas, seq);
        let count = covered(journal.deltas, seq) as int;
        let at = choose|i: int|
            0 <= i < journal.deltas.len() && (#[trigger] journal.deltas[i]).delta.seq == seq
                && tells_of_turn(
                journal.deltas[i].delta.change,
                session_id,
                incarnation,
                operation_id,
            );
        if count <= at {
            assert(journal.deltas[count].delta.seq <= journal.deltas[at].delta.seq);
        }
        if at < count - 1 {
            assert(journal.deltas[at].delta.seq < journal.deltas[count - 1].delta.seq);
        }
        assert(at == count - 1);
        assert forall|i: int| count <= i < journal.deltas.len() implies !tells_of_turn(
            (#[trigger] journal.deltas[i]).delta.change,
            session_id,
            incarnation,
            operation_id,
        ) by {
            assert(journal.deltas[count].delta.seq <= journal.deltas[i].delta.seq);
        }
    }
}

} // verus!
