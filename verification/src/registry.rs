//! Handler registry: an ordered set of uniquely-identified registrations per
//! event type. Ids are assigned monotonically and never reused; removal goes
//! through a secondary id-to-type index, so it never scans other types;
//! lookup by type returns the ids in registration order.
use vstd::prelude::*;
use vstd::seq_lib::*;
use std::collections::HashMap;
use crate::types::{EventType, NUM_EVENT_TYPES, type_index};

verus! {

broadcast use vstd::std_specs::hash::group_hash_axioms;

/// Mathematical state of a registry: the next fresh id, the id-to-type-slot
/// index, and one id sequence per type slot, in registration order.
#[verifier::ext_equal]
pub struct RegistryModel {
    pub next: u64,
    pub owner: Map<u64, usize>,
    pub lists: Seq<Seq<u64>>,
}

/// The set of ids with a live registration.
pub open spec fn active(m: RegistryModel) -> Set<u64> {
    m.owner.dom()
}

/// The ids registered for one event type, in registration order.
pub open spec fn list_for(m: RegistryModel, t: EventType) -> Seq<u64> {
    m.lists[type_index(t)]
}

/// Well-formedness: one list per type; every listed id is below the next
/// fresh id; each list is strictly increasing (so in registration order and
/// duplicate-free); and the id index and the lists agree exactly.
pub open spec fn reg_wf(m: RegistryModel) -> bool {
    &&& m.lists.len() == NUM_EVENT_TYPES
    &&& forall|k: int, i: int|
        0 <= k < m.lists.len() && 0 <= i < m.lists[k].len() ==> #[trigger] m.lists[k][i] < m.next
    &&& forall|k: int, i: int, j: int|
        0 <= k < m.lists.len() && 0 <= i < j < m.lists[k].len() ==> #[trigger] m.lists[k][i]
            < #[trigger] m.lists[k][j]
    &&& forall|k: int, i: int|
        0 <= k < m.lists.len() && 0 <= i < m.lists[k].len() ==> m.owner.contains_key(
            #[trigger] m.lists[k][i],
        ) && m.owner[m.lists[k][i]] == k
    &&& forall|id: u64|
        #[trigger] m.owner.contains_key(id) ==> 0 <= m.owner[id] < m.lists.len()
            && m.lists[m.owner[id] as int].contains(id)
}

/// The fresh registry: nothing registered, ids starting at zero.
pub open spec fn empty_model() -> RegistryModel {
    RegistryModel {
        next: 0,
        owner: Map::empty(),
        lists: Seq::new(NUM_EVENT_TYPES as nat, |k: int| Seq::empty()),
    }
}

/// What registering for type `t` does to the model: the next fresh id is
/// appended to `t`'s list, recorded in the index, and consumed.
pub open spec fn register_step(m: RegistryModel, t: EventType) -> (RegistryModel, u64)
    recommends
        m.next < u64::MAX,
{
    let k = type_index(t);
    (
        RegistryModel {
            next: (m.next + 1) as u64,
            owner: m.owner.insert(m.next, k as usize),
            lists: m.lists.update(k, m.lists[k].push(m.next)),
        },
        m.next,
    )
}

/// What removing `id` does to the model: a no-op reporting `false` when `id`
/// is not active; otherwise `id` leaves its list and the index, and `true`
/// is reported.
pub open spec fn remove_step(m: RegistryModel, id: u64) -> (RegistryModel, bool) {
    if m.owner.contains_key(id) {
        let k = m.owner[id] as int;
        (
            RegistryModel {
                next: m.next,
                owner: m.owner.remove(id),
                lists: m.lists.update(k, m.lists[k].remove_value(id)),
            },
            true,
        )
    } else {
        (m, false)
    }
}

/// Registry of event handlers, keyed by event type, with a secondary
/// id-to-slot index for removal.
pub struct HandlerRegistry {
    next_handler_id: u64,
    lists: Vec<Vec<u64>>,
    owner: HashMap<u64, usize>,
}

impl View for HandlerRegistry {
    type V = RegistryModel;

    closed spec fn view(&self) -> RegistryModel {
        RegistryModel {
            next: self.next_handler_id,
            owner: self.owner@,
            lists: Seq::new(self.lists@.len(), |k: int| self.lists@[k]@),
        }
    }
}

impl HandlerRegistry {
    /// The registry's invariant.
    pub open spec fn wf(&self) -> bool {
        reg_wf(self@)
    }

    /// Creates an empty registry.
    pub fn new() -> (r: HandlerRegistry)
        ensures
            r.wf(),
            r@ == empty_model(),
    {
        let mut lists: Vec<Vec<u64>> = Vec::new();
        while lists.len() < NUM_EVENT_TYPES
            invariant
                lists@.len() <= NUM_EVENT_TYPES,
                forall|k: int| 0 <= k < lists@.len() ==> #[trigger] lists@[k]@ == Seq::<u64>::empty(),
            decreases NUM_EVENT_TYPES - lists@.len(),
        {
            lists.push(Vec::new());
        }
        let r = HandlerRegistry { next_handler_id: 0, lists, owner: HashMap::new() };
        proof {
            assert(r@ =~~= empty_model());
        }
        r
    }

    /// Registers a handler for `t` and returns its fresh id. Never fails;
    /// the id space is monotone, so each id is handed out at most once.
    pub fn register(&mut self, t: EventType) -> (id: u64)
        requires
            old(self).wf(),
            old(self)@.next < u64::MAX,
        ensures
            final(self).wf(),
            final(self)@ == register_step(old(self)@, t).0,
            id == register_step(old(self)@, t).1,
    {
        let k = t.slot();
        let id = self.next_handler_id;
        self.lists[k].push(id);
        self.owner.insert(id, k);
        self.next_handler_id = id + 1;
        proof {
            assert(self@ =~~= register_step(old(self)@, t).0);
            lemma_wf_after_register(old(self)@, t);
        }
        id
    }

    /// Removes the registration with the given id. Returns `true` exactly
    /// when such a registration was active; removing an unknown or already
    /// removed id is a no-op that returns `false`.
    pub fn remove(&mut self, id: u64) -> (removed: bool)
        requires
            old(self).wf(),
        ensures
            final(self).wf(),
            final(self)@ == remove_step(old(self)@, id).0,
            removed == remove_step(old(self)@, id).1,
    {
        let ghost m0 = self@;
        match self.owner.remove(&id) {
            Some(k) => {
                proof {
                    assert(m0.owner.contains_key(id));
                    assert(m0.lists[k as int].contains(id));
                }
                let ghost row0 = m0.lists[k as int];
                let mut i: usize = 0;
                while i < self.lists[k].len() && self.lists[k][i] != id
                    invariant
                        k < self.lists@.len(),
                        self.lists@[k as int]@ == row0,
                        i <= row0.len(),
                        row0.contains(id),
                        forall|j: int| 0 <= j < i ==> row0[j] != id,
                    decreases row0.len() - i,
                {
                    i = i + 1;
                }
                proof {
                    let w = choose|w: int| 0 <= w < row0.len() && row0[w] == id;
                    assert(i < row0.len());
                }
                self.lists[k].remove(i);
                proof {
                    row0.index_of_first_ensures(id);
                    let fi = row0.index_of_first(id)->Some_0;
                    assert(fi <= i) by {
                        if i < fi {
                            assert(row0[i as int] != id);
                        }
                    }
                    assert(fi == i);
                    assert(row0.remove_value(id) == row0.remove(i as int));
                    let target = remove_step(m0, id).0;
                    assert(self@ =~~= target);
                    assert(reg_wf(self@)) by {
                        lemma_wf_after_remove(m0, id);
                    }
                }
                true
            },
            None => {
                proof {
                    assert(self@ =~~= m0);
                }
                false
            },
        }
    }

    /// The ids registered for `t`, in registration order.
    pub fn targets(&self, t: EventType) -> (ids: Vec<u64>)
        requires
            self.wf(),
        ensures
            ids@ == list_for(self@, t),
    {
        let k = t.slot();
        let ids = self.lists[k].clone();
        proof {
            assert(ids@ =~= list_for(self@, t));
        }
        ids
    }

    /// The next id that `register` would hand out.
    pub fn next_id(&self) -> (id: u64)
        ensures
            id == self@.next,
    {
        self.next_handler_id
    }
}

/// One registry operation, as a caller issues them.
pub enum RegOp {
    Register(EventType),
    Remove(u64),
}

/// The model after one operation.
pub open spec fn op_step(m: RegistryModel, op: RegOp) -> RegistryModel {
    match op {
        RegOp::Register(t) => register_step(m, t).0,
        RegOp::Remove(id) => remove_step(m, id).0,
    }
}

/// The model after a whole operation sequence.
pub open spec fn run_ops(m: RegistryModel, ops: Seq<RegOp>) -> RegistryModel
    decreases ops.len(),
{
    if ops.len() == 0 {
        m
    } else {
        run_ops(op_step(m, ops[0]), ops.drop_first())
    }
}

/// How many registrations a sequence performs.
pub open spec fn n_registers(ops: Seq<RegOp>) -> nat
    decreases ops.len(),
{
    if ops.len() == 0 {
        0
    } else {
        match ops[0] {
            RegOp::Register(_) => 1 + n_registers(ops.drop_first()),
            RegOp::Remove(_) => n_registers(ops.drop_first()),
        }
    }
}

/// The ids the registrations in `ops` hand out, in order.
pub open spec fn issued_ids(m: RegistryModel, ops: Seq<RegOp>) -> Seq<u64>
    decreases ops.len(),
{
    if ops.len() == 0 {
        Seq::empty()
    } else {
        match ops[0] {
            RegOp::Register(t) => seq![register_step(m, t).1] + issued_ids(
                op_step(m, ops[0]),
                ops.drop_first(),
            ),
            RegOp::Remove(_) => issued_ids(op_step(m, ops[0]), ops.drop_first()),
        }
    }
}

/// The ids that `ops` removes successfully, that is while they were active.
pub open spec fn removed_ids(m: RegistryModel, ops: Seq<RegOp>) -> Set<u64>
    decreases ops.len(),
{
    if ops.len() == 0 {
        Set::empty()
    } else {
        let rest = removed_ids(op_step(m, ops[0]), ops.drop_first());
        match ops[0] {
            RegOp::Register(_) => rest,
            RegOp::Remove(id) => if remove_step(m, id).1 {
                rest.insert(id)
            } else {
                rest
            },
        }
    }
}

/// Every active id is below the next fresh id.
proof fn lemma_active_bound(m: RegistryModel)
    requires
        reg_wf(m),
    ensures
        forall|id: u64| active(m).contains(id) ==> id < m.next,
{
    assert forall|id: u64| active(m).contains(id) implies id < m.next by {
        let k = m.owner[id] as int;
        let w = choose|w: int| 0 <= w < m.lists[k].len() && m.lists[k][w] == id;
        assert(m.lists[k][w] < m.next);
    }
}

/// Main induction behind the registry laws: over any operation sequence the
/// invariant is preserved, the active set is the initial one plus the issued
/// ids minus the successfully removed ones, and the issued ids climb
/// strictly from the initial fresh id to the final one.
proof fn lemma_run_ops(m: RegistryModel, ops: Seq<RegOp>)
    requires
        reg_wf(m),
        m.next + n_registers(ops) <= u64::MAX,
    ensures
        reg_wf(run_ops(m, ops)),
        run_ops(m, ops).next == m.next + n_registers(ops),
        active(run_ops(m, ops)) =~= active(m).union(issued_ids(m, ops).to_set()).difference(
            removed_ids(m, ops),
        ),
        issued_ids(m, ops).len() == n_registers(ops),
        forall|i: int|
            0 <= i < issued_ids(m, ops).len() ==> m.next <= #[trigger] issued_ids(m, ops)[i]
                < run_ops(m, ops).next,
        forall|i: int, j: int|
            0 <= i < j < issued_ids(m, ops).len() ==> #[trigger] issued_ids(m, ops)[i]
                < #[trigger] issued_ids(m, ops)[j],
    decreases ops.len(),
{
    lemma_active_bound(m);
    if ops.len() == 0 {
    } else {
        let m1 = op_step(m, ops[0]);
        let rest = ops.drop_first();
        match ops[0] {
            RegOp::Register(t) => {
                lemma_wf_after_register(m, t);
                lemma_run_ops(m1, rest);
                let issued = issued_ids(m, ops);
                assert(issued == seq![m.next] + issued_ids(m1, rest));
                assert(issued[0] == m.next);
                assert(forall|i: int|
                    1 <= i < issued.len() ==> issued[i] == issued_ids(m1, rest)[i - 1]);
                assert forall|x: u64|
                    active(run_ops(m, ops)).contains(x) <==> (active(m).contains(x)
                        || issued.to_set().contains(x)) && !removed_ids(m, ops).contains(x) by {
                    assert(issued.to_set().contains(x) <==> issued.contains(x));
                    assert(issued_ids(m1, rest).to_set().contains(x) <==> issued_ids(
                        m1,
                        rest,
                    ).contains(x));
                    if issued.contains(x) {
                        let w = choose|w: int| 0 <= w < issued.len() && issued[w] == x;
                        if w == 0 {
                            assert(x == m.next);
                        } else {
                            assert(issued_ids(m1, rest)[w - 1] == x);
                        }
                    }
                    if issued_ids(m1, rest).contains(x) {
                        let w = choose|w: int|
                            0 <= w < issued_ids(m1, rest).len() && issued_ids(m1, rest)[w] == x;
                        assert(issued[w + 1] == x);
                    }
                    assert(active(m1) == active(m).insert(m.next));
                }
            },
            RegOp::Remove(id) => {
                lemma_wf_after_remove_total(m, id);
                lemma_run_ops(m1, rest);
                assert forall|x: u64|
                    active(run_ops(m, ops)).contains(x) <==> (active(m).contains(x)
                        || issued_ids(m, ops).to_set().contains(x)) && !removed_ids(
                        m,
                        ops,
                    ).contains(x) by {
                    assert(issued_ids(m, ops) == issued_ids(m1, rest));
                    assert(issued_ids(m1, rest).to_set().contains(x) <==> issued_ids(
                        m1,
                        rest,
                    ).contains(x));
                    if x == id && active(m).contains(id) {
                        // a removed id cannot come back: every later issued id is fresher
                        assert(id < m.next);
                        if issued_ids(m1, rest).contains(id) {
                            let w = choose|w: int|
                                0 <= w < issued_ids(m1, rest).len() && issued_ids(m1, rest)[w]
                                    == id;
                            assert(issued_ids(m1, rest)[w] >= m1.next);
                        }
                        assert(!active(m1).contains(id));
                    }
                }
            },
        }
    }
}

/// Removal preserves the invariant also when the id was not active.
proof fn lemma_wf_after_remove_total(m: RegistryModel, id: u64)
    requires
        reg_wf(m),
    ensures
        reg_wf(remove_step(m, id).0),
        remove_step(m, id).0.next == m.next,
        active(remove_step(m, id).0) == active(m).remove(id),
{
    if m.owner.contains_key(id) {
        lemma_wf_after_remove(m, id);
    } else {
        assert(active(m).remove(id) =~= active(m));
    }
    assert(active(remove_step(m, id).0) =~= active(m).remove(id));
}

/// Law: over any sequence of register and remove operations starting from
/// the fresh registry, the set of active handler ids is exactly the ids the
/// registrations issued minus the ids removed while active; and removing an
/// id that was never issued, or was already removed, reports `false` and
/// changes nothing (see `remove_step`).
pub proof fn lemma_active_is_registered_minus_removed(ops: Seq<RegOp>)
    requires
        n_registers(ops) <= u64::MAX,
    ensures
        reg_wf(run_ops(empty_model(), ops)),
        active(run_ops(empty_model(), ops)) == issued_ids(empty_model(), ops).to_set().difference(
            removed_ids(empty_model(), ops),
        ),
{
    lemma_empty_model_wf();
    lemma_run_ops(empty_model(), ops);
    assert(active(run_ops(empty_model(), ops)) =~= issued_ids(
        empty_model(),
        ops,
    ).to_set().difference(removed_ids(empty_model(), ops)));
}

/// Law: within one registry's lifetime the issued handler ids climb
/// strictly, whatever registrations and removals are interleaved; in
/// particular an id is never issued twice, even after its removal.
pub proof fn lemma_ids_strictly_increasing(ops: Seq<RegOp>)
    requires
        n_registers(ops) <= u64::MAX,
    ensures
        forall|i: int, j: int|
            0 <= i < j < issued_ids(empty_model(), ops).len() ==> #[trigger] issued_ids(
                empty_model(),
                ops,
            )[i] < #[trigger] issued_ids(empty_model(), ops)[j],
{
    lemma_empty_model_wf();
    lemma_run_ops(empty_model(), ops);
}

/// The fresh registry is well formed.
proof fn lemma_empty_model_wf()
    ensures
        reg_wf(empty_model()),
{
}

/// Law: a transient registration leaks nothing. Registering a handler and
/// then removing it by the returned id succeeds and leaves the id index and
/// every per-type list exactly as they were; only the fresh-id counter has
/// advanced, because ids are never reused.
pub proof fn lemma_transient_handler_cleanup(m: RegistryModel, t: EventType)
    requires
        reg_wf(m),
        m.next < u64::MAX,
    ensures
        ({
            let (m1, id) = register_step(m, t);
            let (m2, removed) = remove_step(m1, id);
            removed && m2.owner == m.owner && m2.lists == m.lists && active(m2) == active(m)
        }),
{
    lemma_active_bound(m);
    let k = type_index(t);
    let (m1, id) = register_step(m, t);
    let row = m.lists[k];
    let row1 = row.push(id);
    assert(!row.contains(id)) by {
        if row.contains(id) {
            let w = choose|w: int| 0 <= w < row.len() && row[w] == id;
            assert(m.owner.contains_key(row[w]));
        }
    }
    assert(m1.owner.contains_key(id));
    let (m2, removed) = remove_step(m1, id);
    assert(m2.owner =~= m.owner) by {
        assert(!m.owner.contains_key(id));
    }
    assert(row1.contains(id)) by {
        assert(row1[row.len() as int] == id);
    }
    row1.index_of_first_ensures(id);
    assert(row1.index_of_first(id) is Some);
    let fi = row1.index_of_first(id)->Some_0;
    assert(0 <= fi < row1.len());
    assert(fi == row.len()) by {
        if fi < row.len() {
            assert(row1[fi] == row[fi]);
            assert(row.contains(id));
        }
    }
    assert(row1.remove_value(id) =~= row);
    assert(m2.lists =~~= m.lists);
    assert(active(m2) =~= active(m));
}

/// Law: handlers dispatch in registration order. Registering `n` handlers
/// for type `t`, one after the other, appends their ids to `t`'s list in
/// exactly the order they were issued; `targets` and `dispatch` walk that
/// list front to back.
pub proof fn lemma_dispatch_order(m: RegistryModel, t: EventType, n: nat)
    requires
        reg_wf(m),
        m.next + n <= u64::MAX,
    ensures
        reg_wf(register_n(m, t, n)),
        register_n(m, t, n).next == m.next + n,
        list_for(register_n(m, t, n), t) == list_for(m, t) + Seq::new(
            n,
            |i: int| (m.next + i) as u64,
        ),
    decreases n,
{
    if n == 0 {
        assert(list_for(m, t) + Seq::new(0, |i: int| (m.next + i) as u64) =~= list_for(m, t));
    } else {
        let m1 = register_step(m, t).0;
        lemma_wf_after_register(m, t);
        lemma_dispatch_order(m1, t, (n - 1) as nat);
        assert(list_for(m1, t) == list_for(m, t).push(m.next));
        assert(list_for(m, t).push(m.next) + Seq::new(
            (n - 1) as nat,
            |i: int| (m1.next + i) as u64,
        ) =~= list_for(m, t) + Seq::new(n, |i: int| (m.next + i) as u64));
    }
}

/// `n` registrations for the same type, one after the other.
pub open spec fn register_n(m: RegistryModel, t: EventType, n: nat) -> RegistryModel
    decreases n,
{
    if n == 0 {
        m
    } else {
        register_n(register_step(m, t).0, t, (n - 1) as nat)
    }
}

/// Registration preserves the registry invariant.
proof fn lemma_wf_after_register(m: RegistryModel, t: EventType)
    requires
        reg_wf(m),
        m.next < u64::MAX,
    ensures
        reg_wf(register_step(m, t).0),
{
    let k = type_index(t);
    let m1 = register_step(m, t).0;
    let row1 = m1.lists[k];
    assert(row1 == m.lists[k].push(m.next));
    assert(forall|i: int| 0 <= i < row1.len() - 1 ==> row1[i] == m.lists[k][i]);
    assert(row1[row1.len() - 1] == m.next);
    assert forall|k2: int, i: int|
        0 <= k2 < m1.lists.len() && 0 <= i < m1.lists[k2].len() implies m1.owner.contains_key(
        #[trigger] m1.lists[k2][i],
    ) && m1.owner[m1.lists[k2][i]] == k2 by {
        if k2 == k && i == m1.lists[k2].len() - 1 {
        } else {
            assert(m1.lists[k2][i] == m.lists[k2][i]);
            assert(m.lists[k2][i] < m.next);
        }
    }
    assert forall|id2: u64| #[trigger] m1.owner.contains_key(id2) implies 0 <= m1.owner[id2]
        < m1.lists.len() && m1.lists[m1.owner[id2] as int].contains(id2) by {
        if id2 == m.next {
            assert(row1[row1.len() - 1] == id2);
        } else {
            let k2 = m.owner[id2] as int;
            let w = choose|w: int| 0 <= w < m.lists[k2].len() && m.lists[k2][w] == id2;
            assert(m1.lists[k2][w] == id2);
        }
    }
}

/// Removal preserves the registry invariant.
proof fn lemma_wf_after_remove(m: RegistryModel, id: u64)
    requires
        reg_wf(m),
        m.owner.contains_key(id),
    ensures
        reg_wf(remove_step(m, id).0),
{
    let k = m.owner[id] as int;
    let row = m.lists[k];
    row.index_of_first_ensures(id);
    let fi = row.index_of_first(id)->Some_0;
    let row1 = row.remove(fi);
    let m1 = remove_step(m, id).0;
    assert(m1.lists[k] == row1);
    // every id in the shrunk row keeps its former relative order and owner
    assert forall|i: int| 0 <= i < row1.len() implies #[trigger] row1[i] == if i < fi {
        row[i]
    } else {
        row[i + 1]
    } by {}
    // the removed id appears nowhere else, so the index stays exact
    assert forall|k2: int, i: int|
        0 <= k2 < m1.lists.len() && 0 <= i < m1.lists[k2].len() implies m1.owner.contains_key(
        #[trigger] m1.lists[k2][i],
    ) && m1.owner[m1.lists[k2][i]] == k2 by {
        if k2 == k {
            assert(m.owner[row1[i]] == k2);
            assert(row1[i] != id) by {
                if i < fi {
                } else {
                    assert(row[i + 1] != row[fi]);
                }
            }
        } else {
            assert(m.lists[k2][i] != id) by {
                if m.lists[k2][i] == id {
                    assert(m.owner[id] == k2);
                }
            }
        }
    }
    assert forall|id2: u64| #[trigger] m1.owner.contains_key(id2) implies 0 <= m1.owner[id2]
        < m1.lists.len() && m1.lists[m1.owner[id2] as int].contains(id2) by {
        let k2 = m.owner[id2] as int;
        if k2 == k {
            let w = choose|w: int| 0 <= w < row.len() && row[w] == id2;
            if w < fi {
                assert(row1[w] == id2);
            } else if w == fi {
                assert(id2 == id);
            } else {
                assert(row1[w - 1] == id2);
            }
        } else {
            assert(m.lists[k2].contains(id2));
        }
    }
}

} // verus!
