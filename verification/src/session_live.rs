//! Transitions of one session. They touch neither other sessions nor the
//! journal.
use crate::fold::{terminal_released, RuntimeStateError};
use crate::json::{json_equal, same_json, Json, JsonModel};
use crate::runtime_types::{
    effects_model, optional, EffectModel, InteractionModel, InteractionResolution,
    InteractionResponseStart, InteractionUpsert, LiveModel, OperationModel, OverlayModel,
    OwnerModel, PendingInteraction, RuntimeEffect, SessionLifecycle, SessionLiveState,
    SessionOperationKind, SessionOperationState, SessionState, UrlFlow, UrlFlowModel, UrlFlowStatus,
};
use crate::semantic::{has_text, texts};
use crate::session_update::optional_text;
use crate::table::{chosen, lemma_chosen, sorted_keys, Table};
use crate::text::same_text;
use vstd::prelude::*;

verus! {

/// Whether an optional text is the given one.
pub fn is_some_text(value: &Option<String>, expected: &str) -> (same: bool)
    ensures
        same == (optional_text(*value) == Some(expected@)),
{
    match value {
        Some(text) => same_text(text.as_str(), expected),
        None => false,
    }
}

/// Whether two optional texts are equal.
pub fn same_optional(a: &Option<String>, b: &Option<String>) -> (same: bool)
    ensures
        same == (optional_text(*a) == optional_text(*b)),
{
    match (a, b) {
        (Some(a), Some(b)) => same_text(a.as_str(), b.as_str()),
        (None, None) => true,
        _ => false,
    }
}

/// Adds an identifier to a list of those that are settled.
pub fn remember_resolved_interaction(resolved: &mut Vec<String>, interaction_id: &str)
    ensures
        texts(final(resolved)@) == texts(old(resolved)@).push(interaction_id@),
{
    resolved.push(interaction_id.to_string());
    assert(texts(resolved@) =~= texts(old(resolved)@).push(interaction_id@));
}

/// What becomes of a question that is asked.
pub enum UpsertModel<T> {
    Inserted { table: Map<Seq<char>, T> },
    Duplicate,
    AlreadyResolved,
    Collision,
}

/// Asks a question. A settled one stays settled; asking the same again changes
/// nothing; another question under the same identifier is refused.
pub open spec fn interaction_asked(
    pending: Map<Seq<char>, InteractionModel>,
    resolved: Seq<Seq<char>>,
    interaction_id: Seq<char>,
    request: JsonModel,
    operation: Option<Seq<char>>,
) -> UpsertModel<InteractionModel> {
    if resolved.contains(interaction_id) {
        UpsertModel::AlreadyResolved
    } else if pending.contains_key(interaction_id) {
        if json_equal(pending[interaction_id].request, request)
            && pending[interaction_id].operation_id == operation {
            UpsertModel::Duplicate
        } else {
            UpsertModel::Collision
        }
    } else {
        UpsertModel::Inserted {
            table: pending.insert(
                interaction_id,
                InteractionModel {
                    interaction_id,
                    request,
                    operation_id: operation,
                    responding_operation_id: None,
                },
            ),
        }
    }
}

/// The result that the outcome of asking a question gives.
pub open spec fn upsert_result<T>(outcome: UpsertModel<T>) -> Result<
    InteractionUpsert,
    RuntimeStateError,
> {
    match outcome {
        UpsertModel::Inserted { .. } => Ok(InteractionUpsert::Inserted),
        UpsertModel::Duplicate => Ok(InteractionUpsert::Duplicate),
        UpsertModel::AlreadyResolved => Ok(InteractionUpsert::AlreadyResolved),
        UpsertModel::Collision => Err(RuntimeStateError::InteractionCollision),
    }
}

/// Asks a question.
pub fn ask_interaction(
    pending: &mut Table<PendingInteraction>,
    resolved: &Vec<String>,
    interaction_id: &str,
    request: &Json,
    operation: &Option<String>,
) -> (result: Result<InteractionUpsert, RuntimeStateError>)
    ensures
        ({
            let outcome = interaction_asked(
                old(pending)@,
                texts(resolved@),
                interaction_id@,
                request@,
                optional_text(*operation),
            );
            &&& result == upsert_result(outcome)
            &&& final(pending)@ == match outcome {
                UpsertModel::Inserted { table } => table,
                _ => old(pending)@,
            }
        }),
{
    if has_text(resolved, interaction_id) {
        return Ok(InteractionUpsert::AlreadyResolved);
    }
    match pending.get(interaction_id) {
        Some(existing) => {
            if same_json(&existing.request, request) && same_optional(
                &existing.operation_id,
                operation,
            ) {
                return Ok(InteractionUpsert::Duplicate);
            } else {
                return Err(RuntimeStateError::InteractionCollision);
            }
        },
        None => {},
    }
    pending.insert(
        interaction_id,
        PendingInteraction {
            interaction_id: interaction_id.to_string(),
            request: request.clone(),
            operation_id: operation.clone(),
            responding_operation_id: None,
        },
    );
    Ok(InteractionUpsert::Inserted)
}

/// What becomes of a response to a question that is begun.
pub open spec fn response_begun(
    pending: Map<Seq<char>, InteractionModel>,
    interaction_id: Seq<char>,
    operation_id: Seq<char>,
    operation_in_use: bool,
) -> Result<InteractionResponseStart, RuntimeStateError> {
    if !pending.contains_key(interaction_id) {
        Err(RuntimeStateError::UnknownInteraction)
    } else {
        match pending[interaction_id].responding_operation_id {
            Some(existing) => if existing == operation_id {
                Ok(InteractionResponseStart::Duplicate)
            } else {
                Err(RuntimeStateError::InteractionCollision)
            },
            None => if operation_in_use {
                Err(RuntimeStateError::OperationCollision)
            } else {
                Ok(InteractionResponseStart::Applied)
            },
        }
    }
}

/// The questions when one of them is being answered.
pub open spec fn with_responder(
    pending: Map<Seq<char>, InteractionModel>,
    interaction_id: Seq<char>,
    operation_id: Seq<char>,
) -> Map<Seq<char>, InteractionModel> {
    pending.insert(
        interaction_id,
        InteractionModel {
            responding_operation_id: Some(operation_id),
            ..pending[interaction_id]
        },
    )
}

/// Begins the response to a question. One question has one responder.
pub fn begin_response(
    pending: &mut Table<PendingInteraction>,
    interaction_id: &str,
    operation_id: &str,
    operation_in_use: bool,
) -> (result: Result<InteractionResponseStart, RuntimeStateError>)
    ensures
        result == response_begun(
            old(pending)@,
            interaction_id@,
            operation_id@,
            operation_in_use,
        ),
        final(pending)@ == if result == Ok::<_, RuntimeStateError>(
            InteractionResponseStart::Applied,
        ) {
            with_responder(old(pending)@, interaction_id@, operation_id@)
        } else {
            old(pending)@
        },
{
    match pending.get(interaction_id) {
        Some(existing) => {
            match &existing.responding_operation_id {
                Some(responder) => {
                    if same_text(responder.as_str(), operation_id) {
                        return Ok(InteractionResponseStart::Duplicate);
                    } else {
                        return Err(RuntimeStateError::InteractionCollision);
                    }
                },
                None => {},
            }
        },
        None => {
            return Err(RuntimeStateError::UnknownInteraction);
        },
    }
    if operation_in_use {
        return Err(RuntimeStateError::OperationCollision);
    }
    match pending.remove(interaction_id) {
        Some(mut interaction) => {
            interaction.responding_operation_id = Some(operation_id.to_string());
            pending.insert(interaction_id, interaction);
            assert(pending@ =~= with_responder(old(pending)@, interaction_id@, operation_id@));
            Ok(InteractionResponseStart::Applied)
        },
        None => Err(RuntimeStateError::UnknownInteraction),
    }
}

/// What becomes of a question that is settled.
pub open spec fn resolution(
    pending: Map<Seq<char>, InteractionModel>,
    resolved: Seq<Seq<char>>,
    interaction_id: Seq<char>,
) -> Result<InteractionResolution, RuntimeStateError> {
    if resolved.contains(interaction_id) {
        Ok(InteractionResolution::AlreadyResolved)
    } else if !pending.contains_key(interaction_id) {
        Err(RuntimeStateError::UnknownInteraction)
    } else {
        Ok(InteractionResolution::Applied)
    }
}

/// What becomes of a question whose response has been delivered: only the
/// operation that answers it may settle it.
pub open spec fn response_completed(
    pending: Map<Seq<char>, InteractionModel>,
    resolved: Seq<Seq<char>>,
    interaction_id: Seq<char>,
    operation_id: Seq<char>,
) -> Result<InteractionResolution, RuntimeStateError> {
    match resolution(pending, resolved, interaction_id) {
        Ok(InteractionResolution::Applied) => if pending[interaction_id].responding_operation_id
            == Some(operation_id) {
            Ok(InteractionResolution::Applied)
        } else {
            Err(RuntimeStateError::OperationMismatch)
        },
        other => other,
    }
}

/// What would become of a question that is settled.
pub fn check_resolution(
    pending: &Table<PendingInteraction>,
    resolved: &Vec<String>,
    interaction_id: &str,
) -> (result: Result<InteractionResolution, RuntimeStateError>)
    ensures
        result == resolution(pending@, texts(resolved@), interaction_id@),
{
    if has_text(resolved, interaction_id) {
        Ok(InteractionResolution::AlreadyResolved)
    } else if !pending.contains_key(interaction_id) {
        Err(RuntimeStateError::UnknownInteraction)
    } else {
        Ok(InteractionResolution::Applied)
    }
}

/// What would become of a question whose response has been delivered.
pub fn check_response(
    pending: &Table<PendingInteraction>,
    resolved: &Vec<String>,
    interaction_id: &str,
    operation_id: &str,
) -> (result: Result<InteractionResolution, RuntimeStateError>)
    ensures
        result == response_completed(
            pending@,
            texts(resolved@),
            interaction_id@,
            operation_id@,
        ),
{
    if has_text(resolved, interaction_id) {
        return Ok(InteractionResolution::AlreadyResolved);
    }
    match pending.get(interaction_id) {
        Some(interaction) => if is_some_text(&interaction.responding_operation_id, operation_id) {
            Ok(InteractionResolution::Applied)
        } else {
            Err(RuntimeStateError::OperationMismatch)
        },
        None => Err(RuntimeStateError::UnknownInteraction),
    }
}

/// Settles a question and gives it back.
pub fn settle_interaction(
    pending: &mut Table<PendingInteraction>,
    resolved: &mut Vec<String>,
    interaction_id: &str,
) -> (settled: Option<PendingInteraction>)
    ensures
        final(pending)@ == old(pending)@.remove(interaction_id@),
        texts(final(resolved)@) == texts(old(resolved)@).push(interaction_id@),
        match settled {
            Some(interaction) => old(pending)@.contains_key(interaction_id@)
                && old(pending)@[interaction_id@] == interaction@,
            None => !old(pending)@.contains_key(interaction_id@),
        },
{
    remember_resolved_interaction(resolved, interaction_id);
    pending.remove(interaction_id)
}

/// A list of texts without one of them.
pub open spec fn others(list: Seq<Seq<char>>, text: Seq<char>) -> Seq<Seq<char>>
    decreases list.len(),
{
    if list.len() == 0 {
        Seq::empty()
    } else {
        let before = others(list.drop_last(), text);
        if list.last() == text {
            before
        } else {
            before.push(list.last())
        }
    }
}

/// Takes a text out of a list.
pub fn forget_text(list: &mut Vec<String>, text: &str)
    ensures
        texts(final(list)@) == others(texts(old(list)@), text@),
{
    let ghost before = texts(list@);
    let mut kept: Vec<String> = Vec::new();
    let mut i: usize = 0;
    assert(texts(kept@) =~= others(before.take(0), text@));
    while i < list.len()
        invariant
            i <= list@.len(),
            before == texts(list@),
            texts(kept@) == others(before.take(i as int), text@),
        decreases list.len() - i,
    {
        assert(before.take(i + 1).drop_last() =~= before.take(i as int));
        if !same_text(list[i].as_str(), text) {
            let ghost so_far = texts(kept@);
            kept.push(list[i].clone());
            assert(texts(kept@) =~= so_far.push(before[i as int]));
        }
        i += 1;
    }
    assert(before.take(i as int) =~= before);
    *list = kept;
}

/// Whether an operation answers one of the questions.
pub open spec fn responds(pending: Map<Seq<char>, InteractionModel>, operation_id: Seq<char>) -> bool {
    exists|key: Seq<char>| #[trigger]
        pending.contains_key(key) && pending[key].responding_operation_id == Some(operation_id)
}

/// Whether an operation answers one of the questions.
pub fn is_responding(pending: &Table<PendingInteraction>, operation_id: &str) -> (found: bool)
    ensures
        found == responds(pending@, operation_id@),
{
    let len = pending.len();
    let ghost keys = sorted_keys(pending@);
    let mut i: usize = 0;
    while i < len
        invariant
            i <= len,
            keys == sorted_keys(pending@),
            len == keys.len(),
            keys.to_set() == pending@.dom(),
            forall|j: int|
                0 <= j < i ==> pending@[#[trigger] keys[j]].responding_operation_id != Some(
                    operation_id@,
                ),
        decreases len - i,
    {
        let interaction = pending.value(i);
        if is_some_text(&interaction.responding_operation_id, operation_id) {
            assert(pending@.contains_key(keys[i as int]));
            return true;
        }
        i += 1;
    }
    proof {
        assert forall|key: Seq<char>| #[trigger] pending@.contains_key(key) implies pending@[key].responding_operation_id
            != Some(operation_id@) by {
            assert(keys.to_set().contains(key));
            let j = choose|j: int| 0 <= j < keys.len() && keys[j] == key;
            assert(pending@[keys[j]].responding_operation_id != Some(operation_id@));
        }
    }
    false
}

/// The questions that belong to an operation.
pub open spec fn owned_by(
    pending: Map<Seq<char>, InteractionModel>,
    operation_id: Seq<char>,
) -> Seq<Seq<char>> {
    chosen(
        sorted_keys(pending),
        |key: Seq<char>| pending[key].operation_id == Some(operation_id),
    )
}

/// The questions that do not belong to an operation.
pub open spec fn not_owned_by(
    pending: Map<Seq<char>, InteractionModel>,
    operation_id: Seq<char>,
) -> Map<Seq<char>, InteractionModel> {
    Map::new(
        |key: Seq<char>|
            pending.contains_key(key) && pending[key].operation_id != Some(operation_id),
        |key: Seq<char>| pending[key],
    )
}

/// Settles the questions that belong to an operation and gives their
/// identifiers.
fn settle_owned(
    pending: &mut Table<PendingInteraction>,
    resolved: &mut Vec<String>,
    operation_id: &str,
) -> (settled: Vec<String>)
    ensures
        texts(settled@) == owned_by(old(pending)@, operation_id@),
        final(pending)@ == not_owned_by(old(pending)@, operation_id@),
        texts(final(resolved)@) == texts(old(resolved)@) + owned_by(old(pending)@, operation_id@),
{
    let ghost before = pending@;
    let ghost keys = sorted_keys(before);
    let ghost wanted = |key: Seq<char>| before[key].operation_id == Some(operation_id@);
    let mut settled: Vec<String> = Vec::new();
    let len = pending.len();
    let mut i: usize = 0;
    assert(texts(settled@) =~= chosen(keys.take(0), wanted));
    while i < len
        invariant
            i <= len,
            pending@ == before,
            keys == sorted_keys(before),
            len == keys.len(),
            keys.to_set() == before.dom(),
            wanted == (|key: Seq<char>| before[key].operation_id == Some(operation_id@)),
            texts(settled@) == chosen(keys.take(i as int), wanted),
        decreases len - i,
    {
        assert(keys.take(i + 1).drop_last() =~= keys.take(i as int));
        if is_some_text(&pending.value(i).operation_id, operation_id) {
            let ghost so_far = texts(settled@);
            let key = pending.key(i);
            settled.push(key.to_string());
            assert(texts(settled@) =~= so_far.push(key@));
        }
        i += 1;
    }
    assert(keys.take(i as int) =~= keys);
    let ghost ids = texts(settled@);
    let ghost resolved_before = texts(resolved@);
    let mut k: usize = 0;
    assert(ids.take(0) =~= Seq::<Seq<char>>::empty());
    assert(resolved_before + ids.take(0) =~= resolved_before);
    while k < settled.len()
        invariant
            k <= settled@.len(),
            ids == texts(settled@),
            forall|key: Seq<char>| #[trigger]
                pending@.dom().contains(key) <==> before.contains_key(key) && !ids.take(
                    k as int,
                ).contains(key),
            forall|key: Seq<char>| #[trigger]
                pending@.dom().contains(key) ==> pending@[key] == before[key],
            texts(resolved@) == resolved_before + ids.take(k as int),
        decreases settled.len() - k,
    {
        let id = settled[k].as_str();
        proof {
            let now = ids.take(k as int);
            let next = ids.take(k + 1);
            assert(next =~= now.push(id@));
            assert forall|key: Seq<char>| next.contains(key) == (now.contains(key) || key == id@) by {
                if now.contains(key) {
                    let j = choose|j: int| 0 <= j < now.len() && now[j] == key;
                    assert(next[j] == key);
                }
                assert(next[k as int] == id@);
                if next.contains(key) {
                    let j = choose|j: int| 0 <= j < next.len() && next[j] == key;
                    if j < k {
                        assert(now[j] == key);
                    }
                }
            }
        }
        pending.remove(id);
        remember_resolved_interaction(resolved, id);
        assert(texts(resolved@) =~= resolved_before + ids.take(k + 1));
        k += 1;
    }
    proof {
        assert(ids.take(k as int) =~= ids);
        assert forall|key: Seq<char>| #[trigger] pending@.dom().contains(key) == not_owned_by(
            before,
            operation_id@,
        ).dom().contains(key) by {
            lemma_chosen(keys, wanted, key);
            assert(keys.to_set().contains(key) == keys.contains(key));
        }
        assert(pending@ =~= not_owned_by(before, operation_id@));
    }
    settled
}

/// What sealing a turn does to its session.
#[verifier::ext_equal]
pub struct TurnSealed {
    pub owner: OwnerModel,
    pub permissions: Seq<Seq<char>>,
    pub elicitations: Seq<Seq<char>>,
}

/// Seals the turn of a session: its execution ends and its questions are
/// settled.
pub open spec fn turn_sealed(
    owner: OwnerModel,
    operation_id: Seq<char>,
    lifecycle: Option<SessionLifecycle>,
) -> Result<TurnSealed, RuntimeStateError> {
    match owner.live {
        None => Err(RuntimeStateError::UnknownSession),
        Some(live) => match owner.execution() {
            None => Err(RuntimeStateError::NoActiveTurn),
            Some(execution) => if execution.rpc_operation_id != operation_id {
                Err(RuntimeStateError::OperationMismatch)
            } else {
                let permissions = owned_by(live.permissions, operation_id);
                let elicitations = owned_by(live.elicitations, operation_id);
                Ok(
                    TurnSealed {
                        owner: OwnerModel {
                            live: Some(
                                LiveModel {
                                    lifecycle: match lifecycle {
                                        Some(lifecycle) => lifecycle,
                                        None => live.lifecycle,
                                    },
                                    permissions: not_owned_by(live.permissions, operation_id),
                                    resolved_permissions: live.resolved_permissions + permissions,
                                    elicitations: not_owned_by(live.elicitations, operation_id),
                                    resolved_elicitations: live.resolved_elicitations
                                        + elicitations,
                                    ..live
                                },
                            ),
                            active_turn: Some(
                                OverlayModel { execution: None, ..owner.active_turn->0 },
                            ),
                            ..owner
                        },
                        permissions,
                        elicitations,
                    },
                )
            },
        },
    }
}

/// The identifiers of the questions that sealing a turn settled.
pub struct TurnRetirement {
    pub permissions: Vec<String>,
    pub elicitations: Vec<String>,
}

/// Seals the turn of a session.
pub fn seal_turn(
    owner: &mut SessionState,
    operation_id: &str,
    lifecycle: Option<SessionLifecycle>,
) -> (result: Result<TurnRetirement, RuntimeStateError>)
    ensures
        match result {
            Ok(retired) => turn_sealed(old(owner)@, operation_id@, lifecycle) == Ok::<
                TurnSealed,
                RuntimeStateError,
            >(
                TurnSealed {
                    owner: final(owner)@,
                    permissions: texts(retired.permissions@),
                    elicitations: texts(retired.elicitations@),
                },
            ),
            Err(error) => turn_sealed(old(owner)@, operation_id@, lifecycle) == Err::<
                TurnSealed,
                RuntimeStateError,
            >(error) && final(owner)@ == old(owner)@,
        },
{
    if owner.live.is_none() {
        return Err(RuntimeStateError::UnknownSession);
    }
    match owner.turn_execution() {
        Some(execution) => {
            if !same_text(execution.rpc_operation_id.as_str(), operation_id) {
                return Err(RuntimeStateError::OperationMismatch);
            }
        },
        None => {
            return Err(RuntimeStateError::NoActiveTurn);
        },
    }
    match (owner.live.take(), owner.active_turn.take()) {
        (Some(mut live), Some(mut turn)) => {
            turn.execution = None;
            match lifecycle {
                Some(lifecycle) => {
                    live.lifecycle = lifecycle;
                },
                None => {},
            }
            let permissions = settle_owned(
                &mut live.permissions,
                &mut live.resolved_permissions,
                operation_id,
            );
            let elicitations = settle_owned(
                &mut live.elicitations,
                &mut live.resolved_elicitations,
                operation_id,
            );
            owner.live = Some(live);
            owner.active_turn = Some(turn);
            Ok(TurnRetirement { permissions, elicitations })
        },
        _ => Err(RuntimeStateError::UnknownSession),
    }
}

/// Whether an operation in a stage may be taken up by a kind under an
/// identifier: only the reservation of that very operation may.
pub open spec fn blocks(
    operation: Option<OperationModel>,
    operation_id: Seq<char>,
    kind: SessionOperationKind,
) -> bool {
    operation matches Some(operation) && (operation.operation_id != operation_id || operation.kind
        != kind || operation.stage != "reserved"@)
}

/// Whether an operation blocks another one.
pub fn is_blocked(
    operation: &Option<SessionOperationState>,
    operation_id: &str,
    kind: SessionOperationKind,
) -> (blocked: bool)
    ensures
        blocked == blocks(optional(*operation), operation_id@, kind),
{
    match operation {
        Some(operation) => !same_text(operation.operation_id.as_str(), operation_id)
            || operation.kind != kind || !same_text(operation.stage.as_str(), "reserved"),
        None => false,
    }
}

/// The lifecycle of a session in which an operation has started.
pub open spec fn started_lifecycle(
    lifecycle: SessionLifecycle,
    kind: SessionOperationKind,
    stage: Seq<char>,
) -> SessionLifecycle {
    match kind {
        SessionOperationKind::Close => SessionLifecycle::Closing,
        SessionOperationKind::Delete => if lifecycle == SessionLifecycle::Closed || stage
            == "deleting_active"@ {
            SessionLifecycle::Deleting
        } else {
            SessionLifecycle::ClosingForDelete
        },
        _ => lifecycle,
    }
}

/// Starts an exclusive operation. Whether the history of the session admits it
/// is decided before; closing and changing controls may run beside a turn.
pub open spec fn operation_started(
    owner: OwnerModel,
    operation_id: Seq<char>,
    kind: SessionOperationKind,
    stage: Seq<char>,
    history_admits: bool,
) -> Result<OwnerModel, RuntimeStateError> {
    if owner.operation is None && !history_admits {
        Err(RuntimeStateError::BusySession)
    } else {
        match owner.live {
            None => Err(RuntimeStateError::UnknownSession),
            Some(live) => if !(live.lifecycle == SessionLifecycle::Active || (kind
                == SessionOperationKind::Delete && live.lifecycle == SessionLifecycle::Closed)) {
                Err(RuntimeStateError::SessionNotActive)
            } else if blocks(owner.operation, operation_id, kind) || (owner.execution() is Some && !(
            kind == SessionOperationKind::Close || kind == SessionOperationKind::SetMode || kind
                == SessionOperationKind::SetConfig)) {
                Err(RuntimeStateError::BusySession)
            } else {
                Ok(
                    OwnerModel {
                        operation: Some(
                            OperationModel { operation_id, kind, stage, uncertainty_reason: None },
                        ),
                        live: Some(
                            LiveModel {
                                lifecycle: started_lifecycle(live.lifecycle, kind, stage),
                                ..live
                            },
                        ),
                        ..owner
                    },
                )
            },
        }
    }
}

/// Starts an exclusive operation.
pub fn start_operation(
    owner: &mut SessionState,
    operation_id: &str,
    kind: SessionOperationKind,
    stage: &str,
    history_admits: bool,
) -> (result: Result<(), RuntimeStateError>)
    ensures
        match result {
            Ok(_) => operation_started(old(owner)@, operation_id@, kind, stage@, history_admits)
                == Ok::<OwnerModel, RuntimeStateError>(final(owner)@),
            Err(error) => operation_started(
                old(owner)@,
                operation_id@,
                kind,
                stage@,
                history_admits,
            ) == Err::<OwnerModel, RuntimeStateError>(error) && final(owner)@ == old(owner)@,
        },
{
    if owner.operation.is_none() && !history_admits {
        return Err(RuntimeStateError::BusySession);
    }
    let lifecycle = match &owner.live {
        Some(live) => live.lifecycle,
        None => {
            return Err(RuntimeStateError::UnknownSession);
        },
    };
    if !(lifecycle == SessionLifecycle::Active || (kind == SessionOperationKind::Delete && lifecycle
        == SessionLifecycle::Closed)) {
        return Err(RuntimeStateError::SessionNotActive);
    }
    let beside_turn = matches!(
        kind,
        SessionOperationKind::Close | SessionOperationKind::SetMode | SessionOperationKind::SetConfig
    );
    if is_blocked(&owner.operation, operation_id, kind) || (owner.turn_execution().is_some()
        && !beside_turn) {
        return Err(RuntimeStateError::BusySession);
    }
    let next = match kind {
        SessionOperationKind::Close => SessionLifecycle::Closing,
        SessionOperationKind::Delete => if lifecycle == SessionLifecycle::Closed || same_text(
            stage,
            "deleting_active",
        ) {
            SessionLifecycle::Deleting
        } else {
            SessionLifecycle::ClosingForDelete
        },
        _ => lifecycle,
    };
    owner.operation = Some(
        SessionOperationState {
            operation_id: operation_id.to_string(),
            kind,
            stage: stage.to_string(),
            uncertainty_reason: None,
        },
    );
    match owner.live.take() {
        Some(mut live) => {
            live.lifecycle = next;
            owner.live = Some(live);
        },
        None => {},
    }
    Ok(())
}

/// The live session without its questions, flows and terminals.
pub open spec fn live_drained(live: LiveModel) -> LiveModel {
    LiveModel {
        permissions: Map::empty(),
        elicitations: Map::empty(),
        url_flows: Map::empty(),
        terminals: Map::empty(),
        ..live
    }
}

/// The effects of cancelling the responders to permission requests.
pub open spec fn permission_effects(
    session_id: Seq<char>,
    incarnation: u64,
    ids: Seq<Seq<char>>,
) -> Seq<EffectModel> {
    Seq::new(
        ids.len(),
        |i: int|
            EffectModel::CancelPermissionResponder {
                session_id,
                incarnation,
                interaction_id: ids[i],
            },
    )
}

/// The effects of cancelling the responders to questions of a session.
pub open spec fn elicitation_effects(
    session_id: Seq<char>,
    incarnation: u64,
    ids: Seq<Seq<char>>,
) -> Seq<EffectModel> {
    Seq::new(
        ids.len(),
        |i: int|
            EffectModel::CancelElicitationResponder {
                session_id: Some(session_id),
                incarnation: Some(incarnation),
                interaction_id: ids[i],
            },
    )
}

/// The flows that are waiting.
pub open spec fn waiting_flows(flows: Map<Seq<char>, UrlFlowModel>) -> Seq<Seq<char>> {
    chosen(
        sorted_keys(flows),
        |key: Seq<char>| flows[key].status == UrlFlowStatus::Waiting,
    )
}

/// The effects of aborting flows.
pub open spec fn flow_effects(
    session_id: Seq<char>,
    incarnation: u64,
    flows: Map<Seq<char>, UrlFlowModel>,
    ids: Seq<Seq<char>>,
) -> Seq<EffectModel> {
    Seq::new(
        ids.len(),
        |i: int|
            EffectModel::AbortUrlFlow {
                session_id: Some(session_id),
                incarnation: Some(incarnation),
                elicitation_id: ids[i],
                registration_id: flows[ids[i]].registration_id,
            },
    )
}

/// The terminals that have not been released.
pub open spec fn held_terminals(terminals: Map<Seq<char>, JsonModel>) -> Seq<Seq<char>> {
    chosen(sorted_keys(terminals), |key: Seq<char>| !terminals[key].true_at("released"@))
}

/// The effects of releasing terminals.
pub open spec fn terminal_effects(session_id: Seq<char>, ids: Seq<Seq<char>>) -> Seq<EffectModel> {
    Seq::new(
        ids.len(),
        |i: int| EffectModel::ReleaseTerminal { session_id, terminal_id: ids[i] },
    )
}

/// The effects of taking all resources from a live session: every responder,
/// waiting flow and held terminal once.
pub open spec fn drain_effects(
    session_id: Seq<char>,
    incarnation: u64,
    live: LiveModel,
) -> Seq<EffectModel> {
    permission_effects(session_id, incarnation, sorted_keys(live.permissions))
        + elicitation_effects(session_id, incarnation, sorted_keys(live.elicitations))
        + flow_effects(session_id, incarnation, live.url_flows, waiting_flows(live.url_flows))
        + terminal_effects(session_id, held_terminals(live.terminals))
}

/// Adds the effects of cancelling the responders to permission requests.
pub fn push_permission_effects(
    effects: &mut Vec<RuntimeEffect>,
    session_id: &str,
    incarnation: u64,
    ids: &Vec<String>,
)
    ensures
        effects_model(final(effects)@) == effects_model(old(effects)@) + permission_effects(
            session_id@,
            incarnation,
            texts(ids@),
        ),
{
    let ghost before = effects_model(effects@);
    let ghost all = permission_effects(session_id@, incarnation, texts(ids@));
    let mut i: usize = 0;
    assert(before + all.take(0) =~= before);
    while i < ids.len()
        invariant
            i <= ids@.len(),
            all == permission_effects(session_id@, incarnation, texts(ids@)),
            effects_model(effects@) == before + all.take(i as int),
        decreases ids.len() - i,
    {
        let ghost so_far = effects_model(effects@);
        effects.push(
            RuntimeEffect::CancelPermissionResponder {
                session_id: session_id.to_string(),
                incarnation,
                interaction_id: ids[i].clone(),
            },
        );
        assert(effects_model(effects@) =~= so_far.push(all[i as int]));
        assert(all.take(i + 1) =~= all.take(i as int).push(all[i as int]));
        assert(effects_model(effects@) =~= before + all.take(i + 1));
        i += 1;
    }
    assert(all.take(i as int) =~= all);
}

/// Adds the effects of cancelling the responders to questions of a session.
pub fn push_elicitation_effects(
    effects: &mut Vec<RuntimeEffect>,
    session_id: &str,
    incarnation: u64,
    ids: &Vec<String>,
)
    ensures
        effects_model(final(effects)@) == effects_model(old(effects)@) + elicitation_effects(
            session_id@,
            incarnation,
            texts(ids@),
        ),
{
    let ghost before = effects_model(effects@);
    let ghost all = elicitation_effects(session_id@, incarnation, texts(ids@));
    let mut i: usize = 0;
    assert(before + all.take(0) =~= before);
    while i < ids.len()
        invariant
            i <= ids@.len(),
            all == elicitation_effects(session_id@, incarnation, texts(ids@)),
            effects_model(effects@) == before + all.take(i as int),
        decreases ids.len() - i,
    {
        let ghost so_far = effects_model(effects@);
        effects.push(
            RuntimeEffect::CancelElicitationResponder {
                session_id: Some(session_id.to_string()),
                incarnation: Some(incarnation),
                interaction_id: ids[i].clone(),
            },
        );
        assert(effects_model(effects@) =~= so_far.push(all[i as int]));
        assert(all.take(i + 1) =~= all.take(i as int).push(all[i as int]));
        assert(effects_model(effects@) =~= before + all.take(i + 1));
        i += 1;
    }
    assert(all.take(i as int) =~= all);
}

/// The keys of a table, in their order.
pub fn keys_of<V: View>(table: &Table<V>) -> (keys: Vec<String>)
    ensures
        texts(keys@) == sorted_keys(table@),
{
    let mut keys: Vec<String> = Vec::new();
    let len = table.len();
    let mut i: usize = 0;
    while i < len
        invariant
            i <= len,
            len == sorted_keys(table@).len(),
            keys@.len() == i,
            forall|j: int| 0 <= j < i ==> (#[trigger] keys@[j])@ == sorted_keys(table@)[j],
        decreases len - i,
    {
        keys.push(table.key(i).to_string());
        i += 1;
    }
    assert(texts(keys@) =~= sorted_keys(table@));
    keys
}

/// Adds the effects of aborting the waiting flows.
fn push_flow_effects(
    effects: &mut Vec<RuntimeEffect>,
    session_id: &str,
    incarnation: u64,
    flows: &Table<UrlFlow>,
)
    ensures
        effects_model(final(effects)@) == effects_model(old(effects)@) + flow_effects(
            session_id@,
            incarnation,
            flows@,
            waiting_flows(flows@),
        ),
{
    let ghost before = effects_model(effects@);
    let ghost keys = sorted_keys(flows@);
    let ghost wanted = |key: Seq<char>| flows@[key].status == UrlFlowStatus::Waiting;
    let len = flows.len();
    let mut i: usize = 0;
    assert(before + flow_effects(session_id@, incarnation, flows@, chosen(keys.take(0), wanted))
        =~= before);
    while i < len
        invariant
            i <= len,
            keys == sorted_keys(flows@),
            len == keys.len(),
            wanted == (|key: Seq<char>| flows@[key].status == UrlFlowStatus::Waiting),
            effects_model(effects@) == before + flow_effects(
                session_id@,
                incarnation,
                flows@,
                chosen(keys.take(i as int), wanted),
            ),
        decreases len - i,
    {
        assert(keys.take(i + 1).drop_last() =~= keys.take(i as int));
        let flow = flows.value(i);
        if flow.status == UrlFlowStatus::Waiting {
            let ghost so_far = effects_model(effects@);
            let ghost ids = chosen(keys.take(i as int), wanted);
            let key = flows.key(i);
            effects.push(
                RuntimeEffect::AbortUrlFlow {
                    session_id: Some(session_id.to_string()),
                    incarnation: Some(incarnation),
                    elicitation_id: key.to_string(),
                    registration_id: flow.registration_id.clone(),
                },
            );
            proof {
                let effect = effects@.last()@;
                assert(effects_model(effects@) =~= so_far.push(effect));
                assert(flow_effects(session_id@, incarnation, flows@, ids.push(key@))
                    =~= flow_effects(session_id@, incarnation, flows@, ids).push(effect));
                assert(chosen(keys.take(i + 1), wanted) == ids.push(key@));
                assert(effects_model(effects@) =~= before + flow_effects(
                    session_id@,
                    incarnation,
                    flows@,
                    ids.push(key@),
                ));
            }
        }
        i += 1;
    }
    assert(keys.take(i as int) =~= keys);
}

/// Adds the effects of releasing the terminals that are held.
fn push_terminal_effects(
    effects: &mut Vec<RuntimeEffect>,
    session_id: &str,
    terminals: &Table<Json>,
)
    ensures
        effects_model(final(effects)@) == effects_model(old(effects)@) + terminal_effects(
            session_id@,
            held_terminals(terminals@),
        ),
{
    let ghost before = effects_model(effects@);
    let ghost keys = sorted_keys(terminals@);
    let ghost wanted = |key: Seq<char>| !terminals@[key].true_at("released"@);
    let len = terminals.len();
    let mut i: usize = 0;
    assert(before + terminal_effects(session_id@, chosen(keys.take(0), wanted)) =~= before);
    while i < len
        invariant
            i <= len,
            keys == sorted_keys(terminals@),
            len == keys.len(),
            wanted == (|key: Seq<char>| !terminals@[key].true_at("released"@)),
            effects_model(effects@) == before + terminal_effects(
                session_id@,
                chosen(keys.take(i as int), wanted),
            ),
        decreases len - i,
    {
        assert(keys.take(i + 1).drop_last() =~= keys.take(i as int));
        if !terminal_released(terminals.value(i)) {
            let ghost so_far = effects_model(effects@);
            let ghost ids = chosen(keys.take(i as int), wanted);
            let key = terminals.key(i);
            effects.push(
                RuntimeEffect::ReleaseTerminal {
                    session_id: session_id.to_string(),
                    terminal_id: key.to_string(),
                },
            );
            proof {
                let effect = effects@.last()@;
                assert(effects_model(effects@) =~= so_far.push(effect));
                assert(terminal_effects(session_id@, ids.push(key@)) =~= terminal_effects(
                    session_id@,
                    ids,
                ).push(effect));
                assert(chosen(keys.take(i + 1), wanted) == ids.push(key@));
                assert(effects_model(effects@) =~= before + terminal_effects(
                    session_id@,
                    ids.push(key@),
                ));
            }
        }
        i += 1;
    }
    assert(keys.take(i as int) =~= keys);
}

/// Takes all resources from a live session and adds the effects of it.
pub fn drain_session_liveness(
    session_id: &str,
    incarnation: u64,
    live: &mut SessionLiveState,
    effects: &mut Vec<RuntimeEffect>,
)
    ensures
        final(live)@ == live_drained(old(live)@),
        effects_model(final(effects)@) == effects_model(old(effects)@) + drain_effects(
            session_id@,
            incarnation,
            old(live)@,
        ),
{
    let ghost before = effects_model(effects@);
    push_permission_effects(effects, session_id, incarnation, &keys_of(&live.permissions));
    push_elicitation_effects(effects, session_id, incarnation, &keys_of(&live.elicitations));
    push_flow_effects(effects, session_id, incarnation, &live.url_flows);
    push_terminal_effects(effects, session_id, &live.terminals);
    assert(effects_model(effects@) =~= before + drain_effects(session_id@, incarnation, live@));
    live.permissions = Table::new();
    live.elicitations = Table::new();
    live.url_flows = Table::new();
    live.terminals = Table::new();
}

} // verus!
