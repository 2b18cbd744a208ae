//! Whoever holds what was published can take in every change that follows.
use crate::journal::{
    changes_after, contiguous, journal_suffix, lemma_covered_bound, EntryModel, JournalModel,
};
use crate::laws::{
    consistent, has_room, is_end, law_snapshot_plus_changes_is_state,
    law_transitions_keep_consistency, lemma_release, lemma_transition_moves, outcome, replayed, run,
    stays_in_room, tells, Transition,
};
use crate::projection::{applied, foldable, readable, RuntimeEventModel};
use crate::registry::{empty_registry, published, RegistryModel};
use crate::runtime_types::{DeltaModel, SnapshotModel};
use crate::steps::lemma_transition_steps;
use vstd::prelude::*;

verus! {

/// Whether all changes of a journal can be folded.
pub open spec fn all_foldable(journal: JournalModel) -> bool {
    forall|i: int| 0 <= i < journal.deltas.len() ==> foldable((#[trigger] journal.deltas[i]).delta)
}

/// Whether a terminal that a transition brings is an object or absent.
pub open spec fn brings_object(t: Transition) -> bool {
    t matches Transition::UpsertTerminal { terminal, .. } ==> terminal is Object || terminal is Null
}

/// Whether nothing was published, or a change that can be folded.
pub open spec fn tells_foldable(r: RegistryModel, next: RegistryModel) -> bool {
    next.journal == r.journal || foldable(next.journal.deltas.last().delta)
}

proof fn lemma_end_is_foldable(journal: JournalModel, entries: Seq<EntryModel>)
    requires
        all_foldable(journal),
        is_end(entries, journal.deltas),
    ensures
        forall|i: int| 0 <= i < entries.len() ==> foldable((#[trigger] entries[i]).delta),
{
    let start = journal.deltas.len() - entries.len();
    assert forall|i: int| 0 <= i < entries.len() implies foldable(
        (#[trigger] entries[i]).delta,
    ) by {
        assert(entries[i] == journal.deltas[start + i]);
    }
}

/// Every change that is kept in a journal can be folded: so it is in an empty
/// registry, and no transition changes that.
pub proof fn law_journal_stays_foldable(r: RegistryModel, t: Transition)
    requires
        consistent(r),
        has_room(r),
        brings_object(t),
        all_foldable(r.journal),
    ensures
        all_foldable(outcome(r, t).state.journal),
        forall|epoch: Seq<char>| all_foldable((#[trigger] empty_registry(epoch)).journal),
{
    let next = outcome(r, t).state;
    if t is Release {
        lemma_release(r, t);
        lemma_covered_bound(r.journal.deltas, t->Release_seq);
        lemma_end_is_foldable(r.journal, next.journal.deltas);
    } else {
        lemma_transition_moves(r, t);
        lemma_transition_steps(r, t);
        if next.journal != r.journal {
            assert(tells(r, next, next.journal.deltas.last().delta));
            lemma_end_is_foldable(r.journal, next.journal.deltas.drop_last());
            assert forall|i: int| 0 <= i < next.journal.deltas.len() implies foldable(
                (#[trigger] next.journal.deltas[i]).delta,
            ) by {
                if i < next.journal.deltas.len() - 1 {
                    assert(next.journal.deltas[i] == next.journal.deltas.drop_last()[i]);
                }
            }
        }
    }
}

proof fn lemma_series_stays_foldable(r: RegistryModel, ts: Seq<Transition>)
    requires
        consistent(r),
        stays_in_room(r, ts),
        forall|i: int| 0 <= i < ts.len() ==> brings_object(#[trigger] ts[i]),
        all_foldable(r.journal),
    ensures
        consistent(run(r, ts)),
        all_foldable(run(r, ts).journal),
    decreases ts.len(),
{
    if ts.len() > 0 {
        let rest = ts.drop_last();
        assert forall|i: int| 0 <= i < rest.len() implies brings_object(#[trigger] rest[i]) by {
            assert(rest[i] == ts[i]);
        }
        assert(ts.last() == ts[ts.len() - 1]);
        lemma_series_stays_foldable(r, rest);
        law_transitions_keep_consistency(run(r, rest), ts.last());
        law_journal_stays_foldable(run(r, rest), ts.last());
    }
}

proof fn lemma_changes_are_foldable(entries: Seq<EntryModel>, seq: u64)
    requires
        forall|i: int| 0 <= i < entries.len() ==> foldable((#[trigger] entries[i]).delta),
    ensures
        forall|i: int|
            0 <= i < changes_after(entries, seq).len() ==> foldable(
                #[trigger] changes_after(entries, seq)[i],
            ),
    decreases entries.len(),
{
    if entries.len() > 0 {
        let rest = entries.drop_last();
        assert forall|i: int| 0 <= i < rest.len() implies foldable((#[trigger] rest[i]).delta) by {
            assert(rest[i] == entries[i]);
        }
        assert(entries.last() == entries[entries.len() - 1]);
        lemma_changes_are_foldable(rest, seq);
        let before = changes_after(rest, seq);
        let changes = changes_after(entries, seq);
        assert forall|i: int| 0 <= i < changes.len() implies foldable(#[trigger] changes[i]) by {
            if i < before.len() {
                assert(changes[i] == before[i]);
            }
        }
    }
}

proof fn lemma_part_is_replayed(snapshot: SnapshotModel, changes: Seq<DeltaModel>, count: int)
    requires
        replayed(snapshot, changes) is Some,
        0 <= count <= changes.len(),
    ensures
        replayed(snapshot, changes.take(count)) is Some,
        count < changes.len() ==> applied(
            replayed(snapshot, changes.take(count))->0,
            changes[count],
        ) is Some,
    decreases changes.len(),
{
    if changes.len() > 0 {
        if count == changes.len() {
            assert(changes.take(count) =~= changes);
        } else {
            let rest = changes.drop_last();
            lemma_part_is_replayed(snapshot, rest, count);
            assert(rest.take(count) =~= changes.take(count));
            if count == rest.len() {
                assert(rest.take(count) =~= rest);
            }
        }
    } else {
        assert(changes.take(count) =~= changes);
    }
}

/// Whoever holds what was published and takes in, one by one, the changes that
/// are kept since then, can take in each of them, finds that each fits, and
/// holds what is published now at the end.
pub proof fn law_every_kept_change_can_be_taken_in(r: RegistryModel, ts: Seq<Transition>, i: int)
    requires
        consistent(r),
        contiguous(r.journal),
        all_foldable(r.journal),
        stays_in_room(r, ts),
        forall|k: int| 0 <= k < ts.len() ==> brings_object(#[trigger] ts[k]),
        journal_suffix(run(r, ts).journal, r.journal.seq) is Some,
        0 <= i < journal_suffix(run(r, ts).journal, r.journal.seq)->0.len(),
    ensures
        ({
            let changes = journal_suffix(run(r, ts).journal, r.journal.seq)->0;
            &&& replayed(published(r), changes.take(i)) matches Some(held)
            &&& readable(Some(held), RuntimeEventModel::Delta(Some(changes[i])))
            &&& applied(held, changes[i]) is Some
            &&& replayed(published(r), changes) == Some(published(run(r, ts)))
        }),
{
    law_snapshot_plus_changes_is_state(r, ts);
    lemma_series_stays_foldable(r, ts);
    lemma_changes_are_foldable(run(r, ts).journal.deltas, r.journal.seq);
    let changes = journal_suffix(run(r, ts).journal, r.journal.seq)->0;
    lemma_part_is_replayed(published(r), changes, i);
}

} // verus!
