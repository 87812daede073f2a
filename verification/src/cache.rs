//! The resource cache: one slot per trigger key, fetched on first
//! observation, with at most one fetch in flight per key.
//!
//! The cache decides when a fetch is due; whoever owns it performs the fetch
//! and hands what it came to back through [`ResourceCache::complete`].

use crate::codec::{decode_spec, NodeRecord, RecordModel};
use crate::outcome::{
    interpret_listing, listing_spec, Failure, FailureModel, HttpOutcome, OutcomeModel, HTTP_OK,
};
use crate::registry::Protocol;
use crate::text::same_text;
use vstd::prelude::*;
use vstd::string::*;

verus! {

/// What an observer sees of a fetch.
#[derive(Clone, Debug, PartialEq, Eq)]
pub enum FetchState<T> {
    /// The fetch has not resolved yet.
    Pending,
    /// The fetch succeeded with this value.
    Ready(T),
    /// The fetch failed; the failure stays until the slot is invalidated.
    Failed(Failure),
}

/// A fetch state over the model of its value.
pub enum FetchModel<V> {
    Pending,
    Ready(V),
    Failed(FailureModel),
}

impl<T: DeepView> DeepView for FetchState<T> {
    type V = FetchModel<T::V>;

    open spec fn deep_view(&self) -> FetchModel<T::V> {
        match *self {
            FetchState::Pending => FetchModel::Pending,
            FetchState::Ready(value) => FetchModel::Ready(value.deep_view()),
            FetchState::Failed(failure) => FetchModel::Failed(failure@),
        }
    }
}

/// What the cache holds for one trigger key.
pub enum SlotModel {
    /// A fetch is in flight. A slot that was invalidated meanwhile is
    /// superseded: the response, when it arrives, is discarded.
    InFlight { superseded: bool },
    Ready(Seq<RecordModel>),
    Failed(FailureModel),
}

/// What an observer sees of a slot.
pub open spec fn observed(s: SlotModel) -> FetchModel<Seq<RecordModel>> {
    match s {
        SlotModel::InFlight { .. } => FetchModel::Pending,
        SlotModel::Ready(records) => FetchModel::Ready(records),
        SlotModel::Failed(failure) => FetchModel::Failed(failure),
    }
}

/// The slot that a resolved fetch fills.
pub open spec fn resolved_slot(result: Result<Seq<RecordModel>, FailureModel>) -> SlotModel {
    match result {
        Ok(records) => SlotModel::Ready(records),
        Err(failure) => SlotModel::Failed(failure),
    }
}

/// Whether a fetch for `key` is in flight.
pub open spec fn fetching(c: Map<Seq<char>, SlotModel>, key: Seq<char>) -> bool {
    c.contains_key(key) && c[key] is InFlight
}

/// Observing `key`. A key without a slot gets one, in flight, and a fetch is
/// to be issued; a key with a slot shows it as it is, and nothing is issued.
pub open spec fn get_spec(c: Map<Seq<char>, SlotModel>, key: Seq<char>) -> (
    Map<Seq<char>, SlotModel>,
    FetchModel<Seq<RecordModel>>,
    bool,
) {
    if c.contains_key(key) {
        (c, observed(c[key]), false)
    } else {
        (c.insert(key, SlotModel::InFlight { superseded: false }), FetchModel::Pending, true)
    }
}

/// Invalidating `key`. A resolved slot is dropped, so that the next
/// observation fetches again. A slot in flight stays, superseded: no second
/// fetch starts beside the first.
pub open spec fn invalidate_spec(c: Map<Seq<char>, SlotModel>, key: Seq<char>) -> Map<
    Seq<char>,
    SlotModel,
> {
    if !c.contains_key(key) {
        c
    } else if c[key] is InFlight {
        c.insert(key, SlotModel::InFlight { superseded: true })
    } else {
        c.remove(key)
    }
}

/// The fetch for `key` resolved. A slot in flight takes the result, unless
/// it is superseded: then the late result is discarded and the slot dropped.
/// Without a slot in flight nothing changes.
pub open spec fn complete_spec(
    c: Map<Seq<char>, SlotModel>,
    key: Seq<char>,
    result: Result<Seq<RecordModel>, FailureModel>,
) -> Map<Seq<char>, SlotModel> {
    if c.contains_key(key) && c[key] is InFlight {
        if c[key]->superseded {
            c.remove(key)
        } else {
            c.insert(key, resolved_slot(result))
        }
    } else {
        c
    }
}

enum SlotState {
    InFlight { superseded: bool },
    Ready(Vec<NodeRecord>),
    Failed(Failure),
}

impl View for SlotState {
    type V = SlotModel;

    closed spec fn view(&self) -> SlotModel {
        match *self {
            SlotState::InFlight { superseded } => SlotModel::InFlight { superseded },
            SlotState::Ready(records) => SlotModel::Ready(records.deep_view()),
            SlotState::Failed(failure) => SlotModel::Failed(failure@),
        }
    }
}

struct Slot {
    key: String,
    state: SlotState,
}

spec fn key_at(slots: Seq<Slot>, i: int) -> Seq<char> {
    slots[i].key@
}

spec fn distinct_keys(slots: Seq<Slot>) -> bool {
    forall|i: int, j: int|
        0 <= i < j < slots.len() ==> #[trigger] key_at(slots, i) != #[trigger] key_at(slots, j)
}

spec fn has_key(slots: Seq<Slot>, key: Seq<char>) -> bool {
    exists|i: int| 0 <= i < slots.len() && #[trigger] key_at(slots, i) == key
}

spec fn index_of(slots: Seq<Slot>, key: Seq<char>) -> int {
    choose|i: int| 0 <= i < slots.len() && #[trigger] key_at(slots, i) == key
}

spec fn model_of(slots: Seq<Slot>) -> Map<Seq<char>, SlotModel> {
    Map::new(
        |key: Seq<char>| has_key(slots, key),
        |key: Seq<char>| slots[index_of(slots, key)].state@,
    )
}

proof fn lemma_slot_at(slots: Seq<Slot>, i: int)
    requires
        distinct_keys(slots),
        0 <= i < slots.len(),
    ensures
        has_key(slots, key_at(slots, i)),
        index_of(slots, key_at(slots, i)) == i,
        model_of(slots).contains_key(key_at(slots, i)),
        model_of(slots)[key_at(slots, i)] == slots[i].state@,
{
    let key = key_at(slots, i);
    let j = index_of(slots, key);
    assert(key_at(slots, j) == key);
    if j < i {
        assert(key_at(slots, j) != key_at(slots, i));
    } else if i < j {
        assert(key_at(slots, i) != key_at(slots, j));
    }
}

proof fn lemma_slot_added(slots: Seq<Slot>, slot: Slot)
    requires
        distinct_keys(slots),
        !has_key(slots, slot.key@),
    ensures
        distinct_keys(slots.push(slot)),
        model_of(slots.push(slot)) == model_of(slots).insert(slot.key@, slot.state@),
{
    let next = slots.push(slot);
    assert forall|i: int, j: int| 0 <= i < j < next.len() implies #[trigger] key_at(next, i)
        != #[trigger] key_at(next, j) by {
        assert(key_at(next, i) == key_at(slots, i));
        if j < slots.len() {
            assert(key_at(next, j) == key_at(slots, j));
        }
    }
    assert(key_at(next, slots.len() as int) == slot.key@);
    lemma_slot_at(next, slots.len() as int);
    assert forall|key: Seq<char>| #[trigger]
        model_of(next).contains_key(key) == model_of(slots).insert(
            slot.key@,
            slot.state@,
        ).contains_key(key) by {
        if has_key(slots, key) {
            let i = index_of(slots, key);
            assert(key_at(next, i) == key);
        }
        if has_key(next, key) {
            let i = index_of(next, key);
            if i < slots.len() {
                assert(key_at(slots, i) == key);
            }
        }
    }
    assert forall|key: Seq<char>| #[trigger] model_of(next).contains_key(key) implies model_of(
        next,
    )[key] == model_of(slots).insert(slot.key@, slot.state@)[key] by {
        if key != slot.key@ {
            let i = index_of(slots, key);
            assert(key_at(next, i) == key);
            lemma_slot_at(slots, i);
            lemma_slot_at(next, i);
        }
    }
    assert(model_of(next) =~= model_of(slots).insert(slot.key@, slot.state@));
}

proof fn lemma_slot_replaced(slots: Seq<Slot>, i: int, slot: Slot)
    requires
        distinct_keys(slots),
        0 <= i < slots.len(),
        slot.key@ == key_at(slots, i),
    ensures
        distinct_keys(slots.update(i, slot)),
        model_of(slots.update(i, slot)) == model_of(slots).insert(slot.key@, slot.state@),
{
    let next = slots.update(i, slot);
    assert forall|j: int| 0 <= j < slots.len() implies #[trigger] key_at(next, j) == key_at(
        slots,
        j,
    ) by {}
    assert forall|a: int, b: int| 0 <= a < b < next.len() implies #[trigger] key_at(next, a)
        != #[trigger] key_at(next, b) by {
        assert(key_at(slots, a) != key_at(slots, b));
    }
    lemma_slot_at(next, i);
    assert forall|key: Seq<char>| #[trigger]
        model_of(next).contains_key(key) == model_of(slots).insert(
            slot.key@,
            slot.state@,
        ).contains_key(key) by {
        if has_key(slots, key) {
            let j = index_of(slots, key);
            assert(key_at(next, j) == key);
        }
        if has_key(next, key) {
            let j = index_of(next, key);
            assert(key_at(slots, j) == key);
        }
    }
    assert forall|key: Seq<char>| #[trigger] model_of(next).contains_key(key) implies model_of(
        next,
    )[key] == model_of(slots).insert(slot.key@, slot.state@)[key] by {
        if key != slot.key@ {
            let j = index_of(next, key);
            assert(key_at(slots, j) == key);
            lemma_slot_at(slots, j);
            lemma_slot_at(next, j);
        }
    }
    assert(model_of(next) =~= model_of(slots).insert(slot.key@, slot.state@));
}

proof fn lemma_slot_removed(slots: Seq<Slot>, i: int)
    requires
        distinct_keys(slots),
        0 <= i < slots.len(),
    ensures
        distinct_keys(slots.remove(i)),
        model_of(slots.remove(i)) == model_of(slots).remove(key_at(slots, i)),
{
    let next = slots.remove(i);
    let gone = key_at(slots, i);
    assert forall|j: int| 0 <= j < next.len() implies #[trigger] key_at(next, j) == key_at(
        slots,
        if j < i {
            j
        } else {
            j + 1
        },
    ) by {}
    assert forall|a: int, b: int| 0 <= a < b < next.len() implies #[trigger] key_at(next, a)
        != #[trigger] key_at(next, b) by {
        let a0 = if a < i {
            a
        } else {
            a + 1
        };
        let b0 = if b < i {
            b
        } else {
            b + 1
        };
        assert(key_at(slots, a0) != key_at(slots, b0));
    }
    assert forall|key: Seq<char>| #[trigger]
        model_of(next).contains_key(key) == model_of(slots).remove(gone).contains_key(key) by {
        if has_key(slots, key) && key != gone {
            let j = index_of(slots, key);
            let j1 = if j < i {
                j
            } else {
                j - 1
            };
            assert(key_at(next, j1) == key);
        }
        if has_key(next, key) {
            let j = index_of(next, key);
            let j0 = if j < i {
                j
            } else {
                j + 1
            };
            assert(key_at(slots, j0) == key);
            if j0 < i {
                assert(key_at(slots, j0) != key_at(slots, i));
            } else {
                assert(key_at(slots, i) != key_at(slots, j0));
            }
        }
    }
    assert forall|key: Seq<char>| #[trigger] model_of(next).contains_key(key) implies model_of(
        next,
    )[key] == model_of(slots).remove(gone)[key] by {
        let j = index_of(next, key);
        let j0 = if j < i {
            j
        } else {
            j + 1
        };
        assert(key_at(slots, j0) == key);
        lemma_slot_at(slots, j0);
        lemma_slot_at(next, j);
    }
    assert(model_of(next) =~= model_of(slots).remove(gone));
}

fn duplicate_record(record: &NodeRecord) -> (r: NodeRecord)
    ensures
        r@ == record@,
{
    match record {
        NodeRecord::Generic { uid, name, value, rw_direction, last_update } => NodeRecord::Generic {
            uid: uid.clone(),
            name: name.clone(),
            value: value.clone(),
            rw_direction: *rw_direction,
            last_update: *last_update,
        },
        NodeRecord::ModbusMapping { locked_to_uid, ip, port, register, rw_direction } => {
            NodeRecord::ModbusMapping {
                locked_to_uid: locked_to_uid.clone(),
                ip: ip.clone(),
                port: *port,
                register: *register,
                rw_direction: *rw_direction,
            }
        },
        NodeRecord::MqttMapping { locked_to_uid, ip, topic, topic_modifier, rw_direction } => {
            NodeRecord::MqttMapping {
                locked_to_uid: locked_to_uid.clone(),
                ip: ip.clone(),
                topic: topic.clone(),
                topic_modifier: topic_modifier.clone(),
                rw_direction: *rw_direction,
            }
        },
    }
}

fn duplicate_records(records: &Vec<NodeRecord>) -> (r: Vec<NodeRecord>)
    ensures
        r.deep_view() == records.deep_view(),
{
    let mut r: Vec<NodeRecord> = Vec::new();
    let mut i: usize = 0;
    while i < records.len()
        invariant
            0 <= i <= records.len(),
            r.len() == i,
            forall|j: int| 0 <= j < i ==> (#[trigger] r[j])@ == records[j]@,
        decreases records.len() - i,
    {
        r.push(duplicate_record(&records[i]));
        i = i + 1;
    }
    assert(r.deep_view() =~= records.deep_view());
    r
}

/// What one observation gives: the state of the slot, and whether a fetch is
/// to be issued for it now.
#[derive(Clone, Debug, PartialEq, Eq)]
pub struct Observation {
    pub state: FetchState<Vec<NodeRecord>>,
    /// `true` exactly where this observation created the slot: the caller
    /// issues one fetch and reports it with `complete`.
    pub issue: bool,
}

/// The cache of listings, keyed by trigger key.
pub struct ResourceCache {
    slots: Vec<Slot>,
}

impl View for ResourceCache {
    type V = Map<Seq<char>, SlotModel>;

    closed spec fn view(&self) -> Map<Seq<char>, SlotModel> {
        model_of(self.slots@)
    }
}

impl ResourceCache {
    #[verifier::type_invariant]
    spec fn well_formed(self) -> bool {
        distinct_keys(self.slots@)
    }

    /// A cache without slots.
    pub fn new() -> (cache: ResourceCache)
        ensures
            cache@ == Map::<Seq<char>, SlotModel>::empty(),
    {
        let cache = ResourceCache { slots: Vec::new() };
        assert(cache@ =~= Map::<Seq<char>, SlotModel>::empty());
        cache
    }

    fn take_slots(&mut self) -> (slots: Vec<Slot>)
        ensures
            slots@ == old(self).slots@,
            final(self).slots@ == Seq::<Slot>::empty(),
    {
        let mut slots: Vec<Slot> = Vec::new();
        core::mem::swap(&mut self.slots, &mut slots);
        slots
    }

    fn find(&self, key: &str) -> (r: Option<usize>)
        ensures
            match r {
                Some(i) => i < self.slots.len() && key_at(self.slots@, i as int) == key@,
                None => !has_key(self.slots@, key@),
            },
    {
        let mut i: usize = 0;
        while i < self.slots.len()
            invariant
                0 <= i <= self.slots.len(),
                forall|j: int| 0 <= j < i ==> #[trigger] key_at(self.slots@, j) != key@,
            decreases self.slots.len() - i,
        {
            if same_text(self.slots[i].key.as_str(), key) {
                return Some(i);
            }
            i = i + 1;
        }
        None
    }

    /// The state of the slot of `key`, `None` where the key has none.
    /// Nothing is fetched on this account.
    pub fn peek(&self, key: &str) -> (r: Option<FetchState<Vec<NodeRecord>>>)
        ensures
            r.deep_view() == (if self@.contains_key(key@) {
                Some(observed(self@[key@]))
            } else {
                None
            }),
    {
        proof {
            use_type_invariant(self);
        }
        match self.find(key) {
            Some(i) => {
                proof {
                    lemma_slot_at(self.slots@, i as int);
                }
                Some(
                    match &self.slots[i].state {
                        SlotState::InFlight { superseded: _ } => FetchState::Pending,
                        SlotState::Ready(records) => FetchState::Ready(duplicate_records(records)),
                        SlotState::Failed(failure) => FetchState::Failed(failure.duplicate()),
                    },
                )
            },
            None => None,
        }
    }

    /// Observes `key`. The first observation of a key creates its slot and
    /// asks for exactly one fetch; every later one, while the slot stands,
    /// shows the slot and asks for none.
    pub fn get(&mut self, key: &str) -> (r: Observation)
        ensures
            (final(self)@, r.state.deep_view(), r.issue) == get_spec(old(self)@, key@),
    {
        proof {
            use_type_invariant(&*self);
        }
        match self.peek(key) {
            Some(state) => Observation { state, issue: false },
            None => {
                let slot = Slot {
                    key: key.to_owned(),
                    state: SlotState::InFlight { superseded: false },
                };
                proof {
                    lemma_slot_added(self.slots@, slot);
                }
                let mut slots = self.take_slots();
                slots.push(slot);
                self.slots = slots;
                Observation { state: FetchState::Pending, issue: true }
            },
        }
    }

    /// Invalidates `key`: the next observation of a resolved slot fetches
    /// again; a fetch in flight is superseded, not doubled.
    pub fn invalidate(&mut self, key: &str)
        ensures
            final(self)@ == invalidate_spec(old(self)@, key@),
    {
        proof {
            use_type_invariant(&*self);
        }
        match self.find(key) {
            Some(i) => {
                proof {
                    lemma_slot_at(self.slots@, i as int);
                }
                let in_flight = match &self.slots[i].state {
                    SlotState::InFlight { superseded: _ } => true,
                    _ => false,
                };
                if in_flight {
                    let slot = Slot {
                        key: self.slots[i].key.clone(),
                        state: SlotState::InFlight { superseded: true },
                    };
                    proof {
                        lemma_slot_replaced(self.slots@, i as int, slot);
                    }
                    let mut slots = self.take_slots();
                    slots.set(i, slot);
                    self.slots = slots;
                } else {
                    proof {
                        lemma_slot_removed(self.slots@, i as int);
                    }
                    let mut slots = self.take_slots();
                    slots.remove(i);
                    self.slots = slots;
                }
            },
            None => {
                assert(!self@.contains_key(key@));
            },
        }
    }

    /// Reports what the fetch for `key` came to. The result fills the slot
    /// that is in flight; a late result, for a slot that is superseded or no
    /// longer in flight, is discarded.
    pub fn complete(&mut self, key: &str, result: Result<Vec<NodeRecord>, Failure>)
        ensures
            final(self)@ == complete_spec(
                old(self)@,
                key@,
                match result {
                    Ok(records) => Ok(records.deep_view()),
                    Err(failure) => Err(failure@),
                },
            ),
    {
        proof {
            use_type_invariant(&*self);
        }
        match self.find(key) {
            Some(i) => {
                proof {
                    lemma_slot_at(self.slots@, i as int);
                }
                match &self.slots[i].state {
                    SlotState::InFlight { superseded } => {
                        if *superseded {
                            proof {
                                lemma_slot_removed(self.slots@, i as int);
                            }
                            let mut slots = self.take_slots();
                            slots.remove(i);
                            self.slots = slots;
                        } else {
                            let slot = Slot {
                                key: self.slots[i].key.clone(),
                                state: match result {
                                    Ok(records) => SlotState::Ready(records),
                                    Err(failure) => SlotState::Failed(failure),
                                },
                            };
                            proof {
                                lemma_slot_replaced(self.slots@, i as int, slot);
                            }
                            let mut slots = self.take_slots();
                            slots.set(i, slot);
                            self.slots = slots;
                        }
                    },
                    _ => {},
                }
            },
            None => {
                assert(!self@.contains_key(key@));
            },
        }
    }

    /// Reports the outcome of the listing call of protocol `p` for `key`:
    /// the outcome is read and the result completes the slot.
    pub fn resolve(&mut self, key: &str, p: Protocol, outcome: &HttpOutcome)
        ensures
            final(self)@ == complete_spec(old(self)@, key@, listing_spec(p, outcome@)),
    {
        let result = interpret_listing(p, outcome);
        self.complete(key, result);
    }
}

/// Coalescing: of two observations of one key in a row, the second never
/// asks for a fetch and sees what the first saw. So a key without a slot is
/// fetched exactly once, by the first observation, and a key whose fetch is
/// in flight is not fetched again.
pub proof fn lemma_coalescing(c: Map<Seq<char>, SlotModel>, key: Seq<char>)
    ensures
        ({
            let first = get_spec(c, key);
            let second = get_spec(first.0, key);
            &&& first.2 <==> !c.contains_key(key)
            &&& !second.2
            &&& second.0 == first.0
            &&& second.1 == first.1
            &&& first.2 ==> first.1 is Pending
            &&& c.contains_key(key) && c[key] is InFlight ==> !first.2 && first.1 is Pending
        }),
{
}

/// At most one fetch per key is in flight: a fetch is asked for only where
/// the key has no slot, the slot that it creates is in flight, and while a
/// slot is in flight neither an observation nor an invalidation followed by
/// an observation asks for another.
pub proof fn lemma_one_fetch_in_flight(c: Map<Seq<char>, SlotModel>, key: Seq<char>)
    ensures
        get_spec(c, key).2 ==> !c.contains_key(key) && get_spec(c, key).0[key] is InFlight,
        c.contains_key(key) && c[key] is InFlight ==> {
            &&& !get_spec(c, key).2
            &&& invalidate_spec(c, key).contains_key(key)
            &&& invalidate_spec(c, key)[key] is InFlight
            &&& !get_spec(invalidate_spec(c, key), key).2
        },
{
}

/// The account of fetches in flight, step by step: an observation starts a
/// fetch only where none is in flight for the key, and then one is; an
/// invalidation neither starts nor ends one; a completion ends the one that
/// is in flight and starts none.
pub proof fn lemma_fetch_account(
    c: Map<Seq<char>, SlotModel>,
    key: Seq<char>,
    result: Result<Seq<RecordModel>, FailureModel>,
)
    ensures
        get_spec(c, key).2 ==> !fetching(c, key) && fetching(get_spec(c, key).0, key),
        !get_spec(c, key).2 ==> fetching(get_spec(c, key).0, key) == fetching(c, key),
        fetching(invalidate_spec(c, key), key) == fetching(c, key),
        !fetching(complete_spec(c, key, result), key),
{
}

/// No retry and no expiry: a resolved slot, ready or failed, is shown as it
/// is by every observation, and none of them asks for a fetch.
pub proof fn lemma_resolved_slot_stays(c: Map<Seq<char>, SlotModel>, key: Seq<char>)
    requires
        c.contains_key(key),
        !(c[key] is InFlight),
    ensures
        get_spec(c, key) == (c, observed(c[key]), false),
        !(observed(c[key]) is Pending),
{
}

/// Fetching again takes an invalidation: once a resolved slot is
/// invalidated, the next observation asks for a fetch.
pub proof fn lemma_invalidate_refetches(c: Map<Seq<char>, SlotModel>, key: Seq<char>)
    requires
        c.contains_key(key),
        !(c[key] is InFlight),
    ensures
        !invalidate_spec(c, key).contains_key(key),
        get_spec(invalidate_spec(c, key), key).2,
{
}

/// The stale-response guard: a result that arrives for a superseded slot, or
/// for a key with no slot in flight, is applied to no slot. A result for a
/// slot in flight that is not superseded is what observers see next.
pub proof fn lemma_late_result_discarded(
    c: Map<Seq<char>, SlotModel>,
    key: Seq<char>,
    result: Result<Seq<RecordModel>, FailureModel>,
)
    ensures
        !(c.contains_key(key) && c[key] is InFlight) ==> complete_spec(c, key, result) == c,
        c.contains_key(key) && c[key] == (SlotModel::InFlight { superseded: true })
            ==> !complete_spec(c, key, result).contains_key(key),
        c.contains_key(key) && c[key] == (SlotModel::InFlight { superseded: false }) ==> get_spec(
            complete_spec(c, key, result),
            key,
        ).1 == observed(resolved_slot(result)) && !get_spec(complete_spec(c, key, result), key).2,
{
}

/// Failures become state: whatever a listing call of protocol `p` came to,
/// the slot that was waiting for it is resolved, ready with the records or
/// failed with the reason. A response with status 200 whose body is no
/// listing of the protocol leaves the slot failed with that decoding error.
pub proof fn lemma_failures_become_state(
    c: Map<Seq<char>, SlotModel>,
    key: Seq<char>,
    p: Protocol,
    o: OutcomeModel,
)
    requires
        c.contains_key(key),
        c[key] == (SlotModel::InFlight { superseded: false }),
    ensures
        complete_spec(c, key, listing_spec(p, o)).contains_key(key),
        complete_spec(c, key, listing_spec(p, o))[key] == resolved_slot(listing_spec(p, o)),
        !(complete_spec(c, key, listing_spec(p, o))[key] is InFlight),
        o matches OutcomeModel::Response { status, body } ==> (status == HTTP_OK ==> (decode_spec(
            p,
            body,
        ) matches Err(e) ==> complete_spec(c, key, listing_spec(p, o))[key] == SlotModel::Failed(
            FailureModel::Decode(e),
        ))),
{
}

/// Slots are independent: what is done under one key leaves the slot of
/// every other key as it was.
pub proof fn lemma_other_keys_untouched(
    c: Map<Seq<char>, SlotModel>,
    key: Seq<char>,
    other: Seq<char>,
    result: Result<Seq<RecordModel>, FailureModel>,
)
    requires
        other != key,
    ensures
        get_spec(c, key).0.contains_key(other) == c.contains_key(other),
        invalidate_spec(c, key).contains_key(other) == c.contains_key(other),
        complete_spec(c, key, result).contains_key(other) == c.contains_key(other),
        c.contains_key(other) ==> {
            &&& get_spec(c, key).0[other] == c[other]
            &&& invalidate_spec(c, key)[other] == c[other]
            &&& complete_spec(c, key, result)[other] == c[other]
        },
{
}

} // verus!
