//! The queues of those who read events, and who of them is left when an event
//! is handed out.
use crate::bootstrap::total_size;
use crate::semantic::texts;
use crate::text::same_text;
use vstd::prelude::*;
use vstd::utf8::*;

verus! {

/// The largest number of events in a queue.
pub const SUBSCRIBER_QUEUE_CAPACITY: usize = 64;

/// The largest size of a queue, in bytes.
pub const SUBSCRIBER_QUEUE_BYTE_CAPACITY: usize = 8_388_608;

/// Whether a queue takes an event.
pub open spec fn fits(queue: Seq<Seq<char>>, event: Seq<char>) -> bool {
    queue.len() < SUBSCRIBER_QUEUE_CAPACITY && total_size(queue) + encode_utf8(event).len()
        <= SUBSCRIBER_QUEUE_BYTE_CAPACITY
}

/// A queue that was offered an event.
pub open spec fn offered(queue: Seq<Seq<char>>, event: Seq<char>) -> Seq<Seq<char>> {
    if fits(queue, event) {
        queue.push(event)
    } else {
        queue
    }
}

/// A queue that was offered events, one after the other.
pub open spec fn offered_all(queue: Seq<Seq<char>>, events: Seq<Seq<char>>) -> Seq<Seq<char>>
    decreases events.len(),
{
    if events.len() == 0 {
        queue
    } else {
        offered(offered_all(queue, events.drop_last()), events.last())
    }
}

/// Whether a queue takes all of some events.
pub open spec fn all_fit(queue: Seq<Seq<char>>, events: Seq<Seq<char>>) -> bool
    decreases events.len(),
{
    events.len() == 0 || (all_fit(queue, events.drop_last()) && fits(
        offered_all(queue, events.drop_last()),
        events.last(),
    ))
}

proof fn lemma_size_step(events: Seq<Seq<char>>, i: int)
    requires
        0 <= i < events.len(),
    ensures
        total_size(events.skip(i)) == encode_utf8(events[i]).len() + total_size(events.skip(i + 1)),
{
    assert(events.skip(i).drop_first() =~= events.skip(i + 1));
}

/// Whether a queue takes an event.
pub fn has_room(queue: &Vec<String>, event: &str) -> (room: bool)
    ensures
        room == fits(texts(queue@), event@),
{
    let ghost all = texts(queue@);
    if queue.len() >= SUBSCRIBER_QUEUE_CAPACITY {
        return false;
    }
    let wanted = event.as_bytes().len();
    if wanted > SUBSCRIBER_QUEUE_BYTE_CAPACITY {
        return false;
    }
    let mut left: usize = SUBSCRIBER_QUEUE_BYTE_CAPACITY - wanted;
    let mut i: usize = 0;
    assert(all.skip(0) =~= all);
    while i < queue.len()
        invariant
            i <= queue@.len(),
            all == texts(queue@),
            queue@.len() < SUBSCRIBER_QUEUE_CAPACITY,
            wanted == encode_utf8(event@).len(),
            fits(all, event@) == (total_size(all.skip(i as int)) <= left),
        decreases queue.len() - i,
    {
        proof {
            lemma_size_step(all, i as int);
        }
        let size = queue[i].as_str().as_bytes().len();
        if size > left {
            return false;
        }
        left = left - size;
        i += 1;
    }
    assert(all.skip(i as int).len() == 0);
    true
}

/// Offers a queue an event and tells whether it took it.
pub fn offer(queue: &mut Vec<String>, event: &str) -> (taken: bool)
    ensures
        texts(final(queue)@) == offered(texts(old(queue)@), event@),
        taken == fits(texts(old(queue)@), event@),
{
    if has_room(queue, event) {
        let ghost before = texts(queue@);
        queue.push(event.to_string());
        assert(texts(queue@) =~= before.push(event@));
        true
    } else {
        false
    }
}

/// Offers a queue events, one after the other, and tells whether it took all.
pub fn offer_all(queue: &mut Vec<String>, events: &Vec<String>) -> (taken: bool)
    ensures
        texts(final(queue)@) == offered_all(texts(old(queue)@), texts(events@)),
        taken == all_fit(texts(old(queue)@), texts(events@)),
{
    let ghost before = texts(queue@);
    let ghost all = texts(events@);
    let mut taken = true;
    let mut i: usize = 0;
    assert(all.take(0).len() == 0);
    while i < events.len()
        invariant
            i <= events@.len(),
            all == texts(events@),
            texts(queue@) == offered_all(before, all.take(i as int)),
            taken == all_fit(before, all.take(i as int)),
        decreases events.len() - i,
    {
        assert(all.take(i + 1).drop_last() =~= all.take(i as int));
        assert(all.take(i + 1).last() == events@[i as int]@);
        let took = offer(queue, events[i].as_str());
        taken = taken && took;
        i += 1;
    }
    assert(all.take(i as int) =~= all);
    taken
}

/// Takes the first event out of a queue.
pub fn take_first(queue: &mut Vec<String>) -> (event: Option<String>)
    ensures
        match event {
            Some(event) => texts(old(queue)@).len() > 0 && event@ == texts(old(queue)@)[0] && texts(
                final(queue)@,
            ) == texts(old(queue)@).drop_first(),
            None => texts(old(queue)@).len() == 0 && final(queue)@ == old(queue)@,
        },
{
    if queue.len() == 0 {
        return None;
    }
    let ghost before = texts(queue@);
    let event = queue.remove(0);
    assert(texts(queue@) =~= before.drop_first());
    Some(event)
}

/// One who reads events.
#[derive(Debug)]
pub struct Subscriber {
    pub id: u64,
    pub queue: Vec<String>,
}

#[verifier::ext_equal]
pub struct SubscriberModel {
    pub id: u64,
    pub queue: Seq<Seq<char>>,
}

impl View for Subscriber {
    type V = SubscriberModel;

    open spec fn view(&self) -> SubscriberModel {
        SubscriberModel { id: self.id, queue: texts(self.queue@) }
    }
}

/// The models of some readers.
pub open spec fn readers(list: Seq<Subscriber>) -> Seq<SubscriberModel> {
    Seq::new(list.len(), |i: int| list[i]@)
}

/// Where a reader stands in a list; before its start where it is not there.
pub open spec fn reader_at(list: Seq<SubscriberModel>, id: u64) -> int
    decreases list.len(),
{
    if list.len() == 0 {
        -1
    } else if list.last().id == id {
        list.len() - 1
    } else {
        reader_at(list.drop_last(), id)
    }
}

/// Where a reader stands in a list.
pub fn find_reader(list: &Vec<Subscriber>, id: u64) -> (at: Option<usize>)
    ensures
        match at {
            Some(at) => at == reader_at(readers(list@), id) && at < list@.len(),
            None => reader_at(readers(list@), id) == -1,
        },
{
    let ghost all = readers(list@);
    let mut i: usize = list.len();
    assert(all.take(i as int) =~= all);
    while i > 0
        invariant
            i <= list@.len(),
            all == readers(list@),
            reader_at(all, id) == reader_at(all.take(i as int), id),
        decreases i,
    {
        assert(all.take(i as int).drop_last() =~= all.take(i - 1));
        assert(all.take(i as int).last() == list@[i - 1]@);
        if list[i - 1].id == id {
            return Some(i - 1);
        }
        i -= 1;
    }
    None
}

/// What is found is a reader with that number.
pub proof fn lemma_reader_at(list: Seq<SubscriberModel>, id: u64)
    ensures
        -1 <= reader_at(list, id) < list.len(),
        reader_at(list, id) >= 0 ==> list[reader_at(list, id)].id == id,
    decreases list.len(),
{
    if list.len() > 0 && list.last().id != id {
        lemma_reader_at(list.drop_last(), id);
    }
}

/// A list without a reader.
pub open spec fn without_reader(list: Seq<SubscriberModel>, id: u64) -> Seq<SubscriberModel> {
    if reader_at(list, id) >= 0 {
        list.remove(reader_at(list, id))
    } else {
        list
    }
}

/// Takes a reader out of a list.
pub fn remove_reader(list: &mut Vec<Subscriber>, id: u64) -> (removed: Option<Subscriber>)
    ensures
        readers(final(list)@) == without_reader(readers(old(list)@), id),
        match removed {
            Some(reader) => reader_at(readers(old(list)@), id) >= 0 && reader@ == readers(
                old(list)@,
            )[reader_at(readers(old(list)@), id)],
            None => reader_at(readers(old(list)@), id) < 0,
        },
{
    let ghost before = readers(list@);
    match find_reader(list, id) {
        Some(at) => {
            let removed = list.remove(at);
            assert(readers(list@) =~= before.remove(at as int));
            Some(removed)
        },
        None => None,
    }
}

/// Who is left of some readers, and who is not, after an event was handed out.
#[verifier::ext_equal]
pub struct Delivered {
    pub kept: Seq<SubscriberModel>,
    pub lost: Seq<SubscriberModel>,
}

/// Hands events to readers. One whose queue does not take all of them is lost;
/// what its queue did take stays in it.
pub open spec fn delivered(list: Seq<SubscriberModel>, events: Seq<Seq<char>>) -> Delivered
    decreases list.len(),
{
    if list.len() == 0 {
        Delivered { kept: Seq::empty(), lost: Seq::empty() }
    } else {
        let rest = delivered(list.drop_last(), events);
        let reader = SubscriberModel {
            id: list.last().id,
            queue: offered_all(list.last().queue, events),
        };
        if all_fit(list.last().queue, events) {
            Delivered { kept: rest.kept.push(reader), lost: rest.lost }
        } else {
            Delivered { kept: rest.kept, lost: rest.lost.push(reader) }
        }
    }
}

/// Hands events to readers; those who are lost go to another list.
pub fn deliver(list: &mut Vec<Subscriber>, events: &Vec<String>, lost: &mut Vec<Subscriber>)
    ensures
        readers(final(list)@) == delivered(readers(old(list)@), texts(events@)).kept,
        readers(final(lost)@) == readers(old(lost)@) + delivered(
            readers(old(list)@),
            texts(events@),
        ).lost,
{
    let ghost all = readers(list@);
    let ghost before = readers(lost@);
    let ghost given = texts(events@);
    let mut kept: Vec<Subscriber> = Vec::new();
    let count = list.len();
    let mut i: usize = 0;
    assert(all.take(0).len() == 0);
    assert(readers(kept@) =~= Seq::empty());
    assert(before + Seq::<SubscriberModel>::empty() =~= before);
    assert(all.skip(0) =~= all);
    while i < count
        invariant
            i <= count,
            count == all.len(),
            given == texts(events@),
            readers(list@) == all.skip(i as int),
            readers(kept@) == delivered(all.take(i as int), given).kept,
            readers(lost@) == before + delivered(all.take(i as int), given).lost,
        decreases count - i,
    {
        assert(all.take(i + 1).drop_last() =~= all.take(i as int));
        assert(all.take(i + 1).last() == all[i as int]);
        let ghost here = readers(list@);
        assert(here.len() == list@.len());
        let ghost raw = list@;
        let mut reader = list.remove(0);
        assert forall|j: int| 0 <= j < list@.len() implies readers(list@)[j] == all.skip(i + 1)[j] by {
            assert(list@[j] == raw[j + 1]);
            assert(here[j + 1] == all.skip(i as int)[j + 1]);
        }
        assert(readers(list@) =~= all.skip(i + 1));
        assert(here[0] == all[i as int]);
        assert(reader@ == here[0]);
        let ghost kept_before = readers(kept@);
        let ghost lost_before = readers(lost@);
        if offer_all(&mut reader.queue, events) {
            kept.push(reader);
            assert(readers(kept@) =~= kept_before.push(reader@));
        } else {
            lost.push(reader);
            assert(readers(lost@) =~= lost_before.push(reader@));
            assert(readers(lost@) =~= before + delivered(all.take(i + 1), given).lost);
        }
        i += 1;
    }
    assert(all.take(i as int) =~= all);
    *list = kept;
}

/// One who observes a session. A lease lets it be cancelled; its owner is known
/// once the place is fixed from which on it is sent events.
#[derive(Debug)]
pub struct Observer {
    pub id: u64,
    pub session_id: String,
    pub queue: Vec<String>,
    pub leased: bool,
    pub cancelled: bool,
    pub owner: Option<(String, u64)>,
}

#[verifier::ext_equal]
pub struct ObserverModel {
    pub id: u64,
    pub session_id: Seq<char>,
    pub queue: Seq<Seq<char>>,
    pub leased: bool,
    pub cancelled: bool,
    pub owner: Option<(Seq<char>, u64)>,
}

/// The model of an owner.
pub open spec fn owner_model(owner: Option<(String, u64)>) -> Option<(Seq<char>, u64)> {
    match owner {
        Some((epoch, incarnation)) => Some((epoch@, incarnation)),
        None => None,
    }
}

impl View for Observer {
    type V = ObserverModel;

    open spec fn view(&self) -> ObserverModel {
        ObserverModel {
            id: self.id,
            session_id: self.session_id@,
            queue: texts(self.queue@),
            leased: self.leased,
            cancelled: self.cancelled,
            owner: owner_model(self.owner),
        }
    }
}

/// The models of some observers.
pub open spec fn observers(list: Seq<Observer>) -> Seq<ObserverModel> {
    Seq::new(list.len(), |i: int| list[i]@)
}

/// Where an observer stands in a list; before its start where it is not there.
pub open spec fn observer_at(list: Seq<ObserverModel>, id: u64) -> int
    decreases list.len(),
{
    if list.len() == 0 {
        -1
    } else if list.last().id == id {
        list.len() - 1
    } else {
        observer_at(list.drop_last(), id)
    }
}

/// Where an observer stands in a list.
pub fn find_observer(list: &Vec<Observer>, id: u64) -> (at: Option<usize>)
    ensures
        match at {
            Some(at) => at == observer_at(observers(list@), id) && at < list@.len(),
            None => observer_at(observers(list@), id) == -1,
        },
{
    let ghost all = observers(list@);
    let mut i: usize = list.len();
    assert(all.take(i as int) =~= all);
    while i > 0
        invariant
            i <= list@.len(),
            all == observers(list@),
            observer_at(all, id) == observer_at(all.take(i as int), id),
        decreases i,
    {
        assert(all.take(i as int).drop_last() =~= all.take(i - 1));
        assert(all.take(i as int).last() == list@[i - 1]@);
        if list[i - 1].id == id {
            return Some(i - 1);
        }
        i -= 1;
    }
    None
}

/// What is found is an observer with that number.
pub proof fn lemma_observer_at(list: Seq<ObserverModel>, id: u64)
    ensures
        -1 <= observer_at(list, id) < list.len(),
        observer_at(list, id) >= 0 ==> list[observer_at(list, id)].id == id,
    decreases list.len(),
{
    if list.len() > 0 && list.last().id != id {
        lemma_observer_at(list.drop_last(), id);
    }
}

/// What becomes of an observer when an event of a session is handed out.
pub enum Reception {
    /// It stays as it is.
    Stays,
    /// It gets the event.
    Gets,
    /// It is lost.
    Lost,
}

/// What becomes of an observer when an event of a session is handed out. One
/// whose place is not fixed yet gets nothing: its reset stands for what came
/// before. One that is cancelled, that belongs to another owner or whose queue
/// is full is lost.
pub open spec fn reception(
    observer: ObserverModel,
    session_id: Seq<char>,
    event: Seq<char>,
    owner: Option<(Seq<char>, u64)>,
) -> Reception {
    if observer.session_id != session_id {
        Reception::Stays
    } else if observer.leased && observer.cancelled {
        Reception::Lost
    } else if observer.leased && observer.owner is None {
        Reception::Stays
    } else if observer.owner is Some && observer.owner != owner {
        Reception::Lost
    } else if fits(observer.queue, event) {
        Reception::Gets
    } else {
        Reception::Lost
    }
}

fn same_owner(a: &Option<(String, u64)>, b: &Option<(String, u64)>) -> (same: bool)
    ensures
        same == (owner_model(*a) == owner_model(*b)),
{
    match (a, b) {
        (Some((epoch, incarnation)), Some((other, number))) => *incarnation == *number && same_text(
            epoch.as_str(),
            other.as_str(),
        ),
        (None, None) => true,
        _ => false,
    }
}

/// What becomes of an observer when an event of a session is handed out.
pub fn receive(
    observer: &Observer,
    session_id: &str,
    event: &str,
    owner: &Option<(String, u64)>,
) -> (outcome: Reception)
    ensures
        outcome == reception(observer@, session_id@, event@, owner_model(*owner)),
{
    if !same_text(observer.session_id.as_str(), session_id) {
        Reception::Stays
    } else if observer.leased && observer.cancelled {
        Reception::Lost
    } else if observer.leased && observer.owner.is_none() {
        Reception::Stays
    } else if observer.owner.is_some() && !same_owner(&observer.owner, owner) {
        Reception::Lost
    } else if has_room(&observer.queue, event) {
        Reception::Gets
    } else {
        Reception::Lost
    }
}

/// Who is left of some observers, and who is not, after an event was handed
/// out.
#[verifier::ext_equal]
pub struct Observed {
    pub kept: Seq<ObserverModel>,
    pub lost: Seq<ObserverModel>,
}

/// Hands an event of a session to observers.
pub open spec fn observed(
    list: Seq<ObserverModel>,
    session_id: Seq<char>,
    event: Seq<char>,
    owner: Option<(Seq<char>, u64)>,
) -> Observed
    decreases list.len(),
{
    if list.len() == 0 {
        Observed { kept: Seq::empty(), lost: Seq::empty() }
    } else {
        let rest = observed(list.drop_last(), session_id, event, owner);
        let observer = list.last();
        match reception(observer, session_id, event, owner) {
            Reception::Stays => Observed { kept: rest.kept.push(observer), lost: rest.lost },
            Reception::Gets => Observed {
                kept: rest.kept.push(
                    ObserverModel { queue: observer.queue.push(event), ..observer },
                ),
                lost: rest.lost,
            },
            Reception::Lost => Observed { kept: rest.kept, lost: rest.lost.push(observer) },
        }
    }
}

/// Hands an event of a session to observers and gives those who are lost.
pub fn observe_event(
    list: &mut Vec<Observer>,
    session_id: &str,
    event: &str,
    owner: &Option<(String, u64)>,
) -> (lost: Vec<Observer>)
    ensures
        (Observed { kept: observers(final(list)@), lost: observers(lost@) }) == observed(
            observers(old(list)@),
            session_id@,
            event@,
            owner_model(*owner),
        ),
{
    let ghost all = observers(list@);
    let ghost known = owner_model(*owner);
    let mut kept: Vec<Observer> = Vec::new();
    let mut lost: Vec<Observer> = Vec::new();
    let count = list.len();
    let mut i: usize = 0;
    assert(all.take(0).len() == 0);
    assert(observers(kept@) =~= Seq::empty());
    assert(observers(lost@) =~= Seq::empty());
    assert(all.skip(0) =~= all);
    while i < count
        invariant
            i <= count,
            count == all.len(),
            known == owner_model(*owner),
            observers(list@) == all.skip(i as int),
            observers(kept@) == observed(all.take(i as int), session_id@, event@, known).kept,
            observers(lost@) == observed(all.take(i as int), session_id@, event@, known).lost,
        decreases count - i,
    {
        assert(all.take(i + 1).drop_last() =~= all.take(i as int));
        assert(all.take(i + 1).last() == all[i as int]);
        let ghost here = observers(list@);
        assert(here.len() == list@.len());
        let ghost raw = list@;
        let mut observer = list.remove(0);
        assert forall|j: int| 0 <= j < list@.len() implies observers(list@)[j] == all.skip(i + 1)[j] by {
            assert(list@[j] == raw[j + 1]);
            assert(here[j + 1] == all.skip(i as int)[j + 1]);
        }
        assert(observers(list@) =~= all.skip(i + 1));
        assert(here[0] == all[i as int]);
        assert(observer@ == here[0]);
        let ghost kept_before = observers(kept@);
        let ghost lost_before = observers(lost@);
        match receive(&observer, session_id, event, owner) {
            Reception::Stays => {
                kept.push(observer);
                assert(observers(kept@) =~= kept_before.push(observer@));
            },
            Reception::Gets => {
                let ghost queue = texts(observer.queue@);
                observer.queue.push(event.to_string());
                assert(texts(observer.queue@) =~= queue.push(event@));
                kept.push(observer);
                assert(observers(kept@) =~= kept_before.push(observer@));
            },
            Reception::Lost => {
                lost.push(observer);
                assert(observers(lost@) =~= lost_before.push(observer@));
            },
        }
        i += 1;
    }
    assert(all.take(i as int) =~= all);
    *list = kept;
    lost
}

} // verus!
