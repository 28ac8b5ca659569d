//! The slot maps (of the `slotmap` crate) that hold the content pane's
//! tasks, their edit states and their input handles. A key travels as its
//! 64-bit form (`KeyData::as_ffi`): version in the high half, slot index in
//! the low half.
use vstd::prelude::*;
use slotmap::{DefaultKey, Key, KeyData, SecondaryMap, SlotMap};
use crate::edit::EditState;
use crate::model::{Task, TaskView};

verus! {

/// The slot map of the content pane's tasks.
#[verifier::external_body]
pub struct TaskSlots {
    map: SlotMap<DefaultKey, Task>,
}

/// The secondary map of the tasks' edit states.
#[verifier::external_body]
pub struct EditSlots {
    map: SecondaryMap<DefaultKey, EditState>,
}

/// The secondary map of the tasks' input handles.
#[verifier::external_body]
pub struct InputSlots {
    map: SecondaryMap<DefaultKey, u64>,
}

/// Version half of a key.
pub open spec fn key_version(k: u64) -> int {
    k as int / 0x1_0000_0000
}

/// Slot-index half of a key.
pub open spec fn key_index(k: u64) -> int {
    k as int % 0x1_0000_0000
}

/// The key that a 64-bit value stands for (`KeyData::from_ffi`): the same
/// slot, with the version made odd.
pub open spec fn slot_key(v: u64) -> u64 {
    if key_version(v) % 2 == 1 {
        v
    } else {
        (v + 0x1_0000_0000) as u64
    }
}

/// Index of the null key, which no map ever holds.
pub open spec fn null_index() -> int {
    0xffff_ffff
}

/// Keys of a map as a slot map holds them: finitely many, each the key of
/// its own form, in a slot other than the reserved first one and the null
/// index, no two in one slot.
pub open spec fn keys_ok<V>(m: Map<u64, V>) -> bool {
    &&& m.dom().finite()
    &&& forall|k: u64| #[trigger] m.dom().contains(k) ==> slot_key(k) == k && 1 <= key_index(k) < null_index()
    &&& forall|a: u64, b: u64|
        #[trigger] m.dom().contains(a) && #[trigger] m.dom().contains(b) && key_index(a) == key_index(b) ==> a == b
}

/// Keys of a map as a secondary map holds them: finitely many, each the key
/// of its own form, none with the null index, no two in one slot.
pub open spec fn secondary_keys_ok<V>(m: Map<u64, V>) -> bool {
    &&& m.dom().finite()
    &&& forall|k: u64| #[trigger] m.dom().contains(k) ==> slot_key(k) == k && key_index(k) != null_index()
    &&& forall|a: u64, b: u64|
        #[trigger] m.dom().contains(a) && #[trigger] m.dom().contains(b) && key_index(a) == key_index(b) ==> a == b
}

/// `slot_key` gives a key of its own form, in the same slot.
pub proof fn lemma_slot_key(v: u64)
    ensures
        slot_key(slot_key(v)) == slot_key(v),
        key_index(slot_key(v)) == key_index(v),
{
    let x = v as int;
    let y = x + 0x1_0000_0000;
    assert(y / 0x1_0000_0000 == x / 0x1_0000_0000 + 1 && y % 0x1_0000_0000 == x % 0x1_0000_0000) by (nonlinear_arith)
        requires
            y == x + 0x1_0000_0000,
            x >= 0,
    {
        vstd::arithmetic::div_mod::lemma_mod_add_multiples_vanish(x, 0x1_0000_0000);
        vstd::arithmetic::div_mod::lemma_div_plus_one(x, 0x1_0000_0000);
    }
}

/// Inserting into a secondary map keeps its keys well formed.
pub proof fn lemma_secondary_insert_ok<V>(m: Map<u64, V>, key: u64, v: V)
    requires
        secondary_keys_ok(m),
    ensures
        secondary_keys_ok(secondary_insert(m, key, v)),
{
    lemma_slot_key(key);
    let k = slot_key(key);
    let r = secondary_insert(m, key, v);
    if key_index(k) == null_index() {
    } else if exists|e: u64| #[trigger] m.dom().contains(e) && key_index(e) == key_index(k) && e != k {
        let e = choose|e: u64| #[trigger] m.dom().contains(e) && key_index(e) == key_index(k) && e != k;
        if !older_version(key_version(k), key_version(e)) {
            assert forall|a: u64, b: u64|
                #[trigger] r.dom().contains(a) && #[trigger] r.dom().contains(b) && key_index(a) == key_index(b) implies a == b by {
                if a != k && b != k {
                } else if a == k && b != k {
                    assert(m.dom().contains(b) && b != e);
                } else if a != k && b == k {
                    assert(m.dom().contains(a) && a != e);
                }
            }
        }
    } else {
        assert forall|a: u64, b: u64|
            #[trigger] r.dom().contains(a) && #[trigger] r.dom().contains(b) && key_index(a) == key_index(b) implies a == b by {
            if a != k && b == k {
                assert(m.dom().contains(a));
            } else if a == k && b != k {
                assert(m.dom().contains(b));
            }
        }
    }
}

/// Inserting a key whose slot no held key occupies just adds it.
pub proof fn lemma_secondary_insert_fresh<V>(m: Map<u64, V>, key: u64, v: V)
    requires
        slot_key(key) == key,
        key_index(key) != null_index(),
        forall|e: u64| #[trigger] m.dom().contains(e) ==> key_index(e) != key_index(key),
    ensures
        secondary_insert(m, key, v) == m.insert(key, v),
{
}

/// `a` is an older version than `b`, counting versions round modulo 2^32.
pub open spec fn older_version(a: int, b: int) -> bool {
    (a - b) % 0x1_0000_0000 >= 0x8000_0000
}

/// What `SecondaryMap::insert(key, v)` leaves: a null key changes nothing;
/// an entry of the same slot with a newer version stays; otherwise the key
/// takes the slot, replacing what it held.
pub open spec fn secondary_insert<V>(m: Map<u64, V>, key: u64, v: V) -> Map<u64, V> {
    let k = slot_key(key);
    if key_index(k) == null_index() {
        m
    } else if exists|e: u64| #[trigger] m.dom().contains(e) && key_index(e) == key_index(k) && e != k {
        let e = choose|e: u64| #[trigger] m.dom().contains(e) && key_index(e) == key_index(k) && e != k;
        if older_version(key_version(k), key_version(e)) {
            m
        } else {
            m.remove(e).insert(k, v)
        }
    } else {
        m.insert(k, v)
    }
}

/// The key of slot `i` at version `v`.
pub open spec fn make_key(i: int, v: int) -> u64 {
    (v * 0x1_0000_0000 + i) as u64
}

/// A key is made of its slot index and its version.
pub proof fn lemma_make_key(k: u64)
    ensures
        0 <= key_index(k) < 0x1_0000_0000,
        0 <= key_version(k) < 0x1_0000_0000,
        make_key(key_index(k), key_version(k)) == k,
{
    let x = k as int;
    assert(x == (x / 0x1_0000_0000) * 0x1_0000_0000 + x % 0x1_0000_0000 && 0 <= x / 0x1_0000_0000 < 0x1_0000_0000)
        by (nonlinear_arith)
        requires
            0 <= x < 0x1_0000_0000_0000_0000,
    ;
}

/// The slot index and version of a made key are the ones it was made of.
pub proof fn lemma_key_parts(i: int, v: int)
    requires
        0 <= i < 0x1_0000_0000,
        0 <= v < 0x1_0000_0000,
    ensures
        key_index(make_key(i, v)) == i,
        key_version(make_key(i, v)) == v,
{
    let x = v * 0x1_0000_0000 + i;
    assert(0 <= x < 0x1_0000_0000_0000_0000 && x / 0x1_0000_0000 == v && x % 0x1_0000_0000 == i) by (nonlinear_arith)
        requires
            x == v * 0x1_0000_0000 + i,
            0 <= i < 0x1_0000_0000,
            0 <= v < 0x1_0000_0000,
    {
        vstd::arithmetic::div_mod::lemma_fundamental_div_mod_converse(x, 0x1_0000_0000, v, i);
    }
}

/// The slot versions `s` (by index) agree with the held keys of `m`: a held
/// key's slot has its (odd) version, and a slot with an odd version holds
/// the key of that version.
pub open spec fn versions_agree<V>(m: Map<u64, V>, s: Map<u64, u64>) -> bool {
    &&& forall|k: u64|
        #[trigger] m.dom().contains(k) ==> key_version(k) % 2 == 1 && s.dom().contains(key_index(k) as u64)
            && s[key_index(k) as u64] == key_version(k)
    &&& forall|i: u64|
        #[trigger] s.dom().contains(i) ==> 1 <= i < 0x1_0000_0000 && s[i] < 0x1_0000_0000 && (s[i] % 2 == 1
            ==> m.dom().contains(make_key(i as int, s[i] as int)))
}

/// Every entry of the secondary map `m` is a key of a slot of `s`, of the
/// slot's version or of the one before it.
pub open spec fn trails<V>(m: Map<u64, V>, s: Map<u64, u64>) -> bool {
    forall|e: u64|
        #[trigger] m.dom().contains(e) ==> key_version(e) % 2 == 1 && s.dom().contains(key_index(e) as u64) && (
        s[key_index(e) as u64] == key_version(e) || s[key_index(e) as u64] == (key_version(e) + 1) % 0x1_0000_0000)
}

/// The map with whatever it holds in `k`'s slot replaced by `k` and `v`.
pub open spec fn replace_in_slot<V>(m: Map<u64, V>, k: u64, v: V) -> Map<u64, V> {
    m.restrict(m.dom().filter(|e: u64| key_index(e) != key_index(k))).insert(k, v)
}

/// Slot versions after every held key is removed: odd versions step on.
pub open spec fn vacated(s: Map<u64, u64>) -> Map<u64, u64> {
    Map::new(
        |i: u64| s.dom().contains(i),
        |i: u64| if s[i] % 2 == 1 { ((s[i] + 1) % 0x1_0000_0000) as u64 } else { s[i] },
    )
}

/// The entries of `m` in slot 0.
pub open spec fn slot_zero_part<V>(m: Map<u64, V>) -> Map<u64, V> {
    m.restrict(m.dom().filter(|e: u64| key_index(e) == 0))
}

/// No entry of `m` is in slot 0.
pub open spec fn off_slot_zero<V>(m: Map<u64, V>) -> bool {
    forall|e: u64| #[trigger] m.dom().contains(e) ==> key_index(e) != 0
}

/// A map with no entry in slot 0 keeps nothing when cleared.
pub proof fn lemma_slot_zero_part_empty<V>(m: Map<u64, V>)
    requires
        off_slot_zero(m),
    ensures
        slot_zero_part(m) == Map::<u64, V>::empty(),
{
    assert(slot_zero_part(m) =~= Map::<u64, V>::empty());
}

/// Inserting under a key outside slot 0 keeps a map off slot 0.
pub proof fn lemma_insert_off_slot_zero<V>(m: Map<u64, V>, key: u64, v: V)
    requires
        off_slot_zero(m),
        key_index(key) != 0,
    ensures
        off_slot_zero(secondary_insert(m, key, v)),
{
    lemma_slot_key(key);
    let r = secondary_insert(m, key, v);
    assert forall|e: u64| #[trigger] r.dom().contains(e) implies key_index(e) != 0 by {
        if e != slot_key(key) {
            assert(m.dom().contains(e));
        }
    }
}

/// The version a new key gets in slot `i` of slot versions `s`: the
/// slot's version made odd, or 1 for a new slot.
pub open spec fn next_version(s: Map<u64, u64>, i: int) -> int {
    if s.dom().contains(i as u64) {
        if s[i as u64] % 2 == 0 { s[i as u64] + 1 } else { s[i as u64] as int }
    } else {
        1
    }
}

/// Inserting a key into the task map: the slot versions still agree, and a
/// secondary map that trailed the versions takes the key in place of its
/// slot's entry and trails the new versions.
pub proof fn lemma_insert_agrees<V, W>(m: Map<u64, V>, s: Map<u64, u64>, k: u64, t: V, sec: Map<u64, W>, w: W)
    requires
        versions_agree(m, s),
        keys_ok(m),
        secondary_keys_ok(sec),
        trails(sec, s),
        !m.dom().contains(k),
        slot_key(k) == k,
        1 <= key_index(k) < null_index(),
        forall|e: u64| #[trigger] m.dom().contains(e) ==> key_index(e) != key_index(k),
        key_version(k) == next_version(s, key_index(k)),
    ensures
        versions_agree(m.insert(k, t), s.insert(key_index(k) as u64, key_version(k) as u64)),
        secondary_insert(sec, k, w) == replace_in_slot(sec, k, w),
        trails(replace_in_slot(sec, k, w), s.insert(key_index(k) as u64, key_version(k) as u64)),
        secondary_keys_ok(replace_in_slot(sec, k, w)),
{
    let i = key_index(k) as u64;
    let vk = key_version(k);
    let s2 = s.insert(i, vk as u64);
    let m2 = m.insert(k, t);
    lemma_make_key(k);
    if s.dom().contains(i) && s[i] % 2 == 1 {
        let held = make_key(i as int, s[i] as int);
        assert(m.dom().contains(held));
        lemma_key_parts(i as int, s[i] as int);
        assert(false);
    }
    assert(vk % 2 == 1);
    assert forall|k2: u64| #[trigger] m2.dom().contains(k2) implies key_version(k2) % 2 == 1 && s2.dom().contains(
        key_index(k2) as u64,
    ) && s2[key_index(k2) as u64] == key_version(k2) by {
        if k2 != k {
            assert(m.dom().contains(k2));
            lemma_make_key(k2);
        }
    }
    assert forall|j: u64| #[trigger] s2.dom().contains(j) implies 1 <= j < 0x1_0000_0000 && s2[j] < 0x1_0000_0000 && (s2[j]
        % 2 == 1 ==> m2.dom().contains(make_key(j as int, s2[j] as int))) by {
        if j != i {
            assert(s.dom().contains(j));
        }
    }
    let r = replace_in_slot(sec, k, w);
    if exists|e: u64| #[trigger] sec.dom().contains(e) && key_index(e) == key_index(slot_key(k)) && e != slot_key(k) {
        let e = choose|e: u64| #[trigger] sec.dom().contains(e) && key_index(e) == key_index(slot_key(k)) && e != slot_key(k);
        lemma_make_key(e);
        assert(s.dom().contains(i));
        assert(s[i] == (key_version(e) + 1) % 0x1_0000_0000);
        assert((vk - key_version(e)) % 0x1_0000_0000 == 2) by {
            if key_version(e) + 1 == 0x1_0000_0000 {
                assert(vk == 1);
            } else {
                assert(vk == key_version(e) + 2);
            }
        }
        assert(!older_version(vk, key_version(e)));
        assert(secondary_insert(sec, k, w) =~= r) by {
            assert forall|x: u64| sec.dom().contains(x) && key_index(x) == key_index(k) implies x == e by {}
        }
    } else {
        assert(secondary_insert(sec, k, w) =~= r);
    }
    assert forall|e: u64| #[trigger] r.dom().contains(e) implies key_version(e) % 2 == 1 && s2.dom().contains(
        key_index(e) as u64,
    ) && (s2[key_index(e) as u64] == key_version(e) || s2[key_index(e) as u64] == (key_version(e) + 1) % 0x1_0000_0000) by {
        if e != k {
            assert(sec.dom().contains(e));
            lemma_make_key(e);
        }
    }
    assert forall|a: u64, b: u64|
        #[trigger] r.dom().contains(a) && #[trigger] r.dom().contains(b) && key_index(a) == key_index(b) implies a == b by {
        if a != k {
            assert(sec.dom().contains(a));
        }
        if b != k {
            assert(sec.dom().contains(b));
        }
    }
    assert forall|x: u64| #[trigger] r.dom().contains(x) implies slot_key(x) == x && key_index(x) != null_index() by {
        if x != k {
            assert(sec.dom().contains(x));
        }
    }
}

/// Removing a held key from the task map steps its slot's version on; the
/// versions still agree, and a secondary map that held the key and trailed
/// the versions still trails them.
pub proof fn lemma_remove_agrees<V, W>(m: Map<u64, V>, s: Map<u64, u64>, k: u64, sec: Map<u64, W>)
    requires
        versions_agree(m, s),
        keys_ok(m),
        secondary_keys_ok(sec),
        trails(sec, s),
        m.dom().contains(k),
        sec.dom().contains(k),
    ensures
        versions_agree(
            m.remove(k),
            s.insert(key_index(k) as u64, ((s[key_index(k) as u64] + 1) % 0x1_0000_0000) as u64),
        ),
        trails(sec, s.insert(key_index(k) as u64, ((s[key_index(k) as u64] + 1) % 0x1_0000_0000) as u64)),
{
    let i = key_index(k) as u64;
    let s2 = s.insert(i, ((s[i] + 1) % 0x1_0000_0000) as u64);
    let m2 = m.remove(k);
    lemma_make_key(k);
    assert forall|k2: u64| #[trigger] m2.dom().contains(k2) implies key_version(k2) % 2 == 1 && s2.dom().contains(
        key_index(k2) as u64,
    ) && s2[key_index(k2) as u64] == key_version(k2) by {
        assert(m.dom().contains(k2));
        lemma_make_key(k2);
    }
    assert forall|j: u64| #[trigger] s2.dom().contains(j) implies 1 <= j < 0x1_0000_0000 && s2[j] < 0x1_0000_0000 && (s2[j]
        % 2 == 1 ==> m2.dom().contains(make_key(j as int, s2[j] as int))) by {
        if j != i {
            assert(s.dom().contains(j));
            if s2[j] % 2 == 1 {
                let held = make_key(j as int, s[j] as int);
                lemma_key_parts(j as int, s[j] as int);
                assert(m.dom().contains(held));
                assert(held != k);
            }
        }
    }
    assert forall|e: u64| #[trigger] sec.dom().contains(e) implies key_version(e) % 2 == 1 && s2.dom().contains(
        key_index(e) as u64,
    ) && (s2[key_index(e) as u64] == key_version(e) || s2[key_index(e) as u64] == (key_version(e) + 1) % 0x1_0000_0000) by {
        lemma_make_key(e);
        if key_index(e) == key_index(k) {
            assert(e == k);
        }
    }
}

/// After every held key is removed, the versions agree with an empty map.
pub proof fn lemma_vacated_agrees<V>(m: Map<u64, V>, s: Map<u64, u64>, e: Map<u64, V>)
    requires
        versions_agree(m, s),
        e.dom() == Set::<u64>::empty(),
    ensures
        versions_agree(e, vacated(s)),
{
    let s2 = vacated(s);
    assert forall|j: u64| #[trigger] s2.dom().contains(j) implies 1 <= j < 0x1_0000_0000 && s2[j] < 0x1_0000_0000 && (s2[j]
        % 2 == 1 ==> e.dom().contains(make_key(j as int, s2[j] as int))) by {
        assert(s.dom().contains(j));
    }
}

/// Views of what a slot map of tasks holds, by key.
pub uninterp spec fn task_slots(m: TaskSlots) -> Map<u64, TaskView>;

/// The version of each slot of a slot map of tasks, by slot index (the
/// reserved first slot left out): odd while the slot holds a task.
pub uninterp spec fn slot_versions(m: TaskSlots) -> Map<u64, u64>;

/// Edit states held by a secondary map, by key.
pub uninterp spec fn edit_slots(m: EditSlots) -> Map<u64, EditState>;

/// Input handles held by a secondary map, by key.
pub uninterp spec fn input_slots(m: InputSlots) -> Map<u64, u64>;

/// `SlotMap::new`: an empty map.
#[verifier::external_body]
pub fn tasks_new() -> (r: TaskSlots)
    ensures
        task_slots(r).dom() == Set::<u64>::empty(),
        slot_versions(r).dom() == Set::<u64>::empty(),
{
    TaskSlots { map: SlotMap::new() }
}

/// `SlotMap::insert`: stores `t` under a key new to the map, in a slot that
/// no held key occupies, whose version becomes odd (`version | 1`), or in a
/// new slot at version 1; the map panics when full, hence the bound.
#[verifier::external_body]
pub fn tasks_insert(m: &mut TaskSlots, t: Task) -> (k: u64)
    requires
        task_slots(*old(m)).dom().len() + 1 < 0xffff_ffff,
    ensures
        !task_slots(*old(m)).dom().contains(k),
        slot_key(k) == k,
        1 <= key_index(k) < null_index(),
        forall|e: u64| #[trigger] task_slots(*old(m)).dom().contains(e) ==> key_index(e) != key_index(k),
        task_slots(*final(m)) == task_slots(*old(m)).insert(k, t@),
        key_version(k) == next_version(slot_versions(*old(m)), key_index(k)),
        slot_versions(*final(m)) == slot_versions(*old(m)).insert(key_index(k) as u64, key_version(k) as u64),
{
    m.map.insert(t).data().as_ffi()
}

/// `SlotMap::len`: how many tasks the map holds.
#[verifier::external_body]
pub fn tasks_len(m: &TaskSlots) -> (r: usize)
    ensures
        r == task_slots(*m).dom().len(),
{
    m.map.len()
}

/// `SlotMap::get` of the key that `k` stands for.
#[verifier::external_body]
pub fn tasks_get(m: &TaskSlots, k: u64) -> (r: Option<&Task>)
    ensures
        r is Some == task_slots(*m).dom().contains(slot_key(k)),
        r matches Some(t) ==> t@ == task_slots(*m)[slot_key(k)],
{
    m.map.get(KeyData::from_ffi(k).into())
}

/// `SlotMap::get_mut` of the key that `k` stands for.
#[verifier::external_body]
pub fn tasks_get_mut(m: &mut TaskSlots, k: u64) -> (r: Option<&mut Task>)
    ensures
        r is Some == task_slots(*old(m)).dom().contains(slot_key(k)),
        match r {
            Some(t) => (*t)@ == task_slots(*old(m))[slot_key(k)] && task_slots(*final(m)) == task_slots(*old(m)).insert(slot_key(k), (*final(t))@),
            None => task_slots(*final(m)) == task_slots(*old(m)),
        },
        slot_versions(*final(m)) == slot_versions(*old(m)),
{
    m.map.get_mut(KeyData::from_ffi(k).into())
}

/// `SlotMap::remove` of the key that `k` stands for; a removed key's slot
/// version steps on (wrapping).
#[verifier::external_body]
pub fn tasks_remove(m: &mut TaskSlots, k: u64) -> (r: Option<Task>)
    ensures
        r is Some == task_slots(*old(m)).dom().contains(slot_key(k)),
        r matches Some(t) ==> t@ == task_slots(*old(m))[slot_key(k)],
        task_slots(*final(m)) == task_slots(*old(m)).remove(slot_key(k)),
        slot_versions(*final(m)) == if task_slots(*old(m)).dom().contains(slot_key(k)) {
            slot_versions(*old(m)).insert(
                key_index(k) as u64,
                ((slot_versions(*old(m))[key_index(k) as u64] + 1) % 0x1_0000_0000) as u64,
            )
        } else {
            slot_versions(*old(m))
        },
{
    m.map.remove(KeyData::from_ffi(k).into())
}

/// `SlotMap::clear`: empties the map, removing each held key (so every
/// odd slot version steps on).
#[verifier::external_body]
pub fn tasks_clear(m: &mut TaskSlots)
    ensures
        task_slots(*final(m)).dom() == Set::<u64>::empty(),
        slot_versions(*final(m)) == vacated(slot_versions(*old(m))),
{
    m.map.clear()
}

/// `SlotMap::keys`: every held key once, by ascending slot index.
#[verifier::external_body]
pub fn tasks_keys(m: &TaskSlots) -> (r: Vec<u64>)
    ensures
        forall|i: int| 0 <= i < r@.len() ==> task_slots(*m).dom().contains(#[trigger] r@[i]),
        forall|k: u64| task_slots(*m).dom().contains(k) ==> r@.contains(k),
        forall|i: int, j: int| 0 <= i < j < r@.len() ==> key_index(#[trigger] r@[i]) < key_index(#[trigger] r@[j]),
{
    m.map.keys().map(|k| k.data().as_ffi()).collect()
}

/// `SecondaryMap::new`: an empty map.
#[verifier::external_body]
pub fn edits_new() -> (r: EditSlots)
    ensures
        edit_slots(r).dom() == Set::<u64>::empty(),
{
    EditSlots { map: SecondaryMap::new() }
}

/// `SecondaryMap::get` of the key that `k` stands for.
#[verifier::external_body]
pub fn edits_get(m: &EditSlots, k: u64) -> (r: Option<EditState>)
    ensures
        r == edit_slots(*m).get(slot_key(k)),
{
    m.map.get(KeyData::from_ffi(k).into()).copied()
}

/// `SecondaryMap::insert` under the key that `k` stands for.
#[verifier::external_body]
pub fn edits_insert(m: &mut EditSlots, k: u64, v: EditState)
    ensures
        edit_slots(*final(m)) == secondary_insert(edit_slots(*old(m)), k, v),
{
    m.map.insert(KeyData::from_ffi(k).into(), v);
}

/// `SecondaryMap::clear`: empties every slot past the reserved first one
/// (its drain starts at slot 1, so an entry in slot 0 stays).
#[verifier::external_body]
pub fn edits_clear(m: &mut EditSlots)
    ensures
        edit_slots(*final(m)) == slot_zero_part(edit_slots(*old(m))),
{
    m.map.clear()
}

/// `SecondaryMap::new`: an empty map.
#[verifier::external_body]
pub fn inputs_new() -> (r: InputSlots)
    ensures
        input_slots(r).dom() == Set::<u64>::empty(),
{
    InputSlots { map: SecondaryMap::new() }
}

/// `SecondaryMap::get` of the key that `k` stands for.
#[verifier::external_body]
pub fn inputs_get(m: &InputSlots, k: u64) -> (r: Option<u64>)
    ensures
        r == input_slots(*m).get(slot_key(k)),
{
    m.map.get(KeyData::from_ffi(k).into()).copied()
}

/// `SecondaryMap::insert` under the key that `k` stands for.
#[verifier::external_body]
pub fn inputs_insert(m: &mut InputSlots, k: u64, v: u64)
    ensures
        input_slots(*final(m)) == secondary_insert(input_slots(*old(m)), k, v),
{
    m.map.insert(KeyData::from_ffi(k).into(), v);
}

/// `SecondaryMap::clear`: empties every slot past the reserved first one
/// (its drain starts at slot 1, so an entry in slot 0 stays).
#[verifier::external_body]
pub fn inputs_clear(m: &mut InputSlots)
    ensures
        input_slots(*final(m)) == slot_zero_part(input_slots(*old(m))),
{
    m.map.clear()
}

} // verus!
