//! Source map for readable decompilation: library names, function selector
//! names, local slot names and kinds, parameter names and const literals.

use vstd::prelude::*;
use crate::text::str_eq;
use std::collections::{HashMap, HashSet};

verus! {

broadcast use vstd::std_specs::hash::group_hash_axioms;

/// How a local slot was declared.
#[derive(Debug, Clone, Copy, PartialEq, Eq, Structural)]
pub enum SlotKind {
    Param,
    Var,
    Let,
}

/// A call that changes how a slot is classed: a registration or a mutation.
pub enum SlotCall {
    Register(u8),
    Mutate(u8),
}

/// The slot a call names.
pub open spec fn slot_of(c: SlotCall) -> u8 {
    match c {
        SlotCall::Register(s) => s,
        SlotCall::Mutate(s) => s,
    }
}

/// The `let` and `var` slot sets after one call: a registration makes the
/// slot `let` and not `var`; a mutation of a slot not yet `var` moves it from
/// `let` to `var`, and of one already `var` changes nothing.
pub open spec fn slot_step(c: (Set<u8>, Set<u8>), call: SlotCall) -> (Set<u8>, Set<u8>) {
    match call {
        SlotCall::Register(s) => (c.0.insert(s), c.1.remove(s)),
        SlotCall::Mutate(s) => if c.1.contains(s) { c } else { (c.0.remove(s), c.1.insert(s)) },
    }
}

/// The `let` and `var` slot sets after the calls in order, from a new map.
pub open spec fn slot_run(calls: Seq<SlotCall>) -> (Set<u8>, Set<u8>)
    decreases calls.len(),
{
    if calls.len() == 0 {
        (Set::empty(), Set::empty())
    } else {
        slot_step(slot_run(calls.drop_last()), calls.last())
    }
}

/// The last of the calls that names `slot`, if any does.
pub open spec fn last_call_on(calls: Seq<SlotCall>, slot: u8) -> Option<SlotCall>
    decreases calls.len(),
{
    if calls.len() == 0 {
        None
    } else if slot_of(calls.last()) == slot {
        Some(calls.last())
    } else {
        last_call_on(calls.drop_last(), slot)
    }
}

/// From a new map, after any registrations and mutations, a slot is never
/// both `let` and `var`: it is `var` exactly when the last call that named it
/// was a mutation, and `let` exactly when it was a registration.
pub proof fn lemma_slot_follows_last_call(calls: Seq<SlotCall>, slot: u8)
    ensures
        !(slot_run(calls).0.contains(slot) && slot_run(calls).1.contains(slot)),
        slot_run(calls).1.contains(slot) <==> last_call_on(calls, slot) == Some(SlotCall::Mutate(slot)),
        slot_run(calls).0.contains(slot) <==> last_call_on(calls, slot) == Some(SlotCall::Register(slot)),
    decreases calls.len(),
{
    if calls.len() > 0 {
        lemma_slot_follows_last_call(calls.drop_last(), slot);
    }
}

/// The same law over the slot sets of real maps: a map with no `let` and no
/// `var` slot (as `SourceMap::default` gives), followed by maps each of which
/// one call of `register_slot` or `mark_slot_mutated` made from the one
/// before (their contracts state the step), ends with the sets that the
/// calls give, so the law above holds of the last map.
pub proof fn lemma_slot_history(sets: Seq<(Set<u8>, Set<u8>)>, calls: Seq<SlotCall>, slot: u8)
    requires
        sets.len() == calls.len() + 1,
        sets[0] == (Set::<u8>::empty(), Set::<u8>::empty()),
        forall|k: int| 0 <= k < calls.len() ==> #[trigger] sets[k + 1] == slot_step(sets[k], calls[k]),
    ensures
        sets.last() == slot_run(calls),
        !(sets.last().0.contains(slot) && sets.last().1.contains(slot)),
        sets.last().1.contains(slot) <==> last_call_on(calls, slot) == Some(SlotCall::Mutate(slot)),
        sets.last().0.contains(slot) <==> last_call_on(calls, slot) == Some(SlotCall::Register(slot)),
    decreases calls.len(),
{
    if calls.len() > 0 {
        let n = calls.len() - 1;
        let s0 = sets.drop_last();
        let c0 = calls.drop_last();
        assert forall|k: int| 0 <= k < c0.len() implies #[trigger] s0[k + 1] == slot_step(s0[k], c0[k]) by {
            assert(sets[k + 1] == slot_step(sets[k], calls[k]));
        }
        lemma_slot_history(s0, c0, slot);
        assert(sets[n + 1] == slot_step(sets[n], calls[n]));
    }
    lemma_slot_follows_last_call(calls, slot);
}

/// A linked library: its name and, if known, its address.
#[derive(Debug)]
pub struct LibInfo {
    pub name: String,
    pub address: Option<Vec<u8>>,
}

/// The model of a library entry.
pub type LibModel = (Seq<char>, Option<Seq<u8>>);

pub open spec fn lib_model(l: LibInfo) -> LibModel {
    (l.name@, match l.address { Some(a) => Some(a@), None => None })
}

impl LibInfo {
    /// A copy of this entry.
    pub fn dup(&self) -> (r: LibInfo)
        ensures
            lib_model(r) == lib_model(*self),
    {
        let address = match &self.address {
            Some(a) => Some(a.clone()),
            None => None,
        };
        LibInfo { name: self.name.clone(), address }
    }
}

/// The value of the last entry with key `k`.
pub open spec fn assoc_get<K, V>(s: Seq<(K, V)>, k: K) -> Option<V>
    decreases s.len(),
{
    if s.len() == 0 {
        None
    } else if s.last().0 == k {
        Some(s.last().1)
    } else {
        assoc_get(s.drop_last(), k)
    }
}

/// The map that a list of entries stands for: a later entry overrides an
/// earlier one with the same key.
pub open spec fn assoc_map<K, V>(s: Seq<(K, V)>) -> Map<K, V> {
    Map::new(|k: K| assoc_get(s, k) is Some, |k: K| assoc_get(s, k).unwrap())
}

/// Appending an entry inserts it into the map.
pub proof fn lemma_assoc_push<K, V>(s: Seq<(K, V)>, k: K, v: V)
    ensures
        assoc_map(s.push((k, v))) == assoc_map(s).insert(k, v),
{
    assert(s.push((k, v)).drop_last() =~= s);
    assert forall|q: K| #[trigger] assoc_get(s.push((k, v)), q) == (if q == k { Some(v) } else { assoc_get(s, q) }) by {
        assert(s.push((k, v)).drop_last() =~= s);
    }
    assert(assoc_map(s.push((k, v))) =~= assoc_map(s).insert(k, v));
}

/// The last index at or below `n` whose key is `k`.
proof fn lemma_assoc_at<K, V>(s: Seq<(K, V)>, i: int, k: K)
    requires
        0 <= i < s.len(),
        s[i].0 == k,
        forall|j: int| i < j < s.len() ==> s[j].0 != k,
    ensures
        assoc_get(s, k) == Some(s[i].1),
    decreases s.len(),
{
    if i < s.len() - 1 {
        lemma_assoc_at(s.drop_last(), i, k);
    }
}

proof fn lemma_assoc_none<K, V>(s: Seq<(K, V)>, k: K)
    requires
        forall|j: int| 0 <= j < s.len() ==> s[j].0 != k,
    ensures
        assoc_get(s, k) is None,
    decreases s.len(),
{
    if s.len() > 0 {
        lemma_assoc_none(s.drop_last(), k);
    }
}

/// The entries of a map keyed by `u8`, in ascending key order, for keys below `upto`.
pub open spec fn sorted_entries<V>(m: Map<u8, V>, upto: int) -> Seq<(u8, V)>
    decreases upto,
{
    if upto <= 0 {
        Seq::empty()
    } else {
        let k = (upto - 1) as u8;
        let before = sorted_entries(m, upto - 1);
        if m.dom().contains(k) { before.push((k, m[k])) } else { before }
    }
}

/// Source map of one decompilation.
#[derive(Debug)]
pub struct SourceMap {
    libs: HashMap<u8, LibInfo>,
    funcs: Vec<([u8; 4], String)>,
    slots: HashMap<u8, String>,
    params: Vec<String>,
    param_prelude_count: Option<u8>,
    lets: HashSet<u8>,
    vars: HashSet<u8>,
    consts: Vec<(String, String)>,
}

pub open spec fn libs_view(v: Seq<(u8, LibInfo)>) -> Seq<(u8, LibModel)> {
    Seq::new(v.len(), |i: int| (v[i].0, lib_model(v[i].1)))
}

pub open spec fn funcs_view(v: Seq<([u8; 4], String)>) -> Seq<(Seq<u8>, Seq<char>)> {
    Seq::new(v.len(), |i: int| (v[i].0@, v[i].1@))
}

pub open spec fn names_view(v: Seq<String>) -> Seq<Seq<char>> {
    Seq::new(v.len(), |i: int| v[i]@)
}

/// Const entries as (name, literal).
pub open spec fn consts_by_name(v: Seq<(String, String)>) -> Seq<(Seq<char>, Seq<char>)> {
    Seq::new(v.len(), |i: int| (v[i].0@, v[i].1@))
}

/// Const entries as (literal, name).
pub open spec fn consts_by_value(v: Seq<(String, String)>) -> Seq<(Seq<char>, Seq<char>)> {
    Seq::new(v.len(), |i: int| (v[i].1@, v[i].0@))
}

impl SourceMap {
    /// Libraries by index.
    pub closed spec fn libs_map(&self) -> Map<u8, LibModel> {
        self.libs@.map_values(|l: LibInfo| lib_model(l))
    }

    /// Function names by selector.
    pub closed spec fn funcs_map(&self) -> Map<Seq<u8>, Seq<char>> {
        assoc_map(funcs_view(self.funcs@))
    }

    /// Slot names by slot.
    pub closed spec fn slots_map(&self) -> Map<u8, Seq<char>> {
        self.slots@.map_values(|n: String| n@)
    }

    /// Parameter names.
    pub closed spec fn params_seq(&self) -> Seq<Seq<char>> {
        names_view(self.params@)
    }

    /// Parameter prelude count.
    pub closed spec fn prelude(&self) -> Option<u8> {
        self.param_prelude_count
    }

    /// Slots declared `let`.
    pub closed spec fn lets_set(&self) -> Set<u8> {
        self.lets@
    }

    /// Slots declared `var`.
    pub closed spec fn vars_set(&self) -> Set<u8> {
        self.vars@
    }

    /// Const literals by name.
    pub closed spec fn const_values(&self) -> Map<Seq<char>, Seq<char>> {
        assoc_map(consts_by_name(self.consts@))
    }

    /// Const names by literal.
    pub closed spec fn const_names(&self) -> Map<Seq<char>, Seq<char>> {
        assoc_map(consts_by_value(self.consts@))
    }

    /// An empty source map.
    pub fn new() -> (r: SourceMap)
        ensures
            r.libs_map() == Map::<u8, LibModel>::empty(),
            r.funcs_map() == Map::<Seq<u8>, Seq<char>>::empty(),
            r.slots_map() == Map::<u8, Seq<char>>::empty(),
            r.params_seq() == Seq::<Seq<char>>::empty(),
            r.prelude() is None,
            r.lets_set() == Set::<u8>::empty(),
            r.vars_set() == Set::<u8>::empty(),
            r.const_values() == Map::<Seq<char>, Seq<char>>::empty(),
            r.const_names() == Map::<Seq<char>, Seq<char>>::empty(),
    {
        let r = SourceMap {
            libs: HashMap::new(),
            funcs: Vec::new(),
            slots: HashMap::new(),
            params: Vec::new(),
            param_prelude_count: None,
            lets: HashSet::new(),
            vars: HashSet::new(),
            consts: Vec::new(),
        };
        assert(r.libs_map() =~= Map::<u8, LibModel>::empty());
        assert(r.funcs_map() =~= Map::<Seq<u8>, Seq<char>>::empty());
        assert(r.slots_map() =~= Map::<u8, Seq<char>>::empty());
        assert(r.params_seq() =~= Seq::<Seq<char>>::empty());
        assert(r.lets_set() =~= Set::<u8>::empty());
        assert(r.vars_set() =~= Set::<u8>::empty());
        assert(r.const_values() =~= Map::<Seq<char>, Seq<char>>::empty());
        assert(r.const_names() =~= Map::<Seq<char>, Seq<char>>::empty());
        r
    }

    /// Record a library; an index already recorded is an error.
    pub fn register_lib(&mut self, idx: u8, name: String, address: Option<Vec<u8>>) -> (r: Result<(), String>)
        ensures
            old(self).libs_map().dom().contains(idx) ==> r is Err && final(self).libs_map() == old(self).libs_map(),
            !old(self).libs_map().dom().contains(idx) ==> r is Ok
                && final(self).libs_map() == old(self).libs_map().insert(idx, lib_model(LibInfo { name, address })),
            final(self).funcs_map() == old(self).funcs_map(),
            final(self).slots_map() == old(self).slots_map(),
            final(self).lets_set() == old(self).lets_set(),
            final(self).vars_set() == old(self).vars_set(),
    {
        if self.libs.contains_key(&idx) {
            return Err("lib index already in source map".to_owned());
        }
        let info = LibInfo { name, address };
        let ghost m = lib_model(info);
        let ghost l0 = self.libs@;
        self.libs.insert(idx, info);
        assert(self.libs@.map_values(|l: LibInfo| lib_model(l)) =~= l0.map_values(|l: LibInfo| lib_model(l)).insert(idx, m));
        Ok(())
    }

    /// Name a function selector.
    pub fn register_func(&mut self, sig: [u8; 4], name: String) -> (r: Result<(), String>)
        ensures
            r is Ok,
            final(self).funcs_map() == old(self).funcs_map().insert(sig@, name@),
            final(self).libs_map() == old(self).libs_map(),
            final(self).slots_map() == old(self).slots_map(),
            final(self).lets_set() == old(self).lets_set(),
            final(self).vars_set() == old(self).vars_set(),
    {
        let ghost s = funcs_view(self.funcs@);
        let ghost n = name@;
        self.funcs.push((sig, name));
        proof {
            assert(funcs_view(self.funcs@) =~= s.push((sig@, n)));
            lemma_assoc_push(s, sig@, n);
        }
        Ok(())
    }

    /// Name a local slot; it starts as `let` until a mutation is seen.
    pub fn register_slot(&mut self, slot: u8, name: String) -> (r: Result<(), String>)
        ensures
            r is Ok,
            final(self).slots_map() == old(self).slots_map().insert(slot, name@),
            (final(self).lets_set(), final(self).vars_set()) == slot_step((old(self).lets_set(), old(self).vars_set()), SlotCall::Register(slot)),
            final(self).libs_map() == old(self).libs_map(),
            final(self).funcs_map() == old(self).funcs_map(),
    {
        let ghost n = name@;
        let ghost s0 = self.slots@;
        self.slots.insert(slot, name);
        assert(self.slots@.map_values(|x: String| x@) =~= s0.map_values(|x: String| x@).insert(slot, n));
        self.vars.remove(&slot);
        self.lets.insert(slot);
        Ok(())
    }

    /// Record a const literal under a name (both directions).
    pub fn register_const(&mut self, name: String, value: String) -> (r: Result<(), String>)
        ensures
            r is Ok,
            final(self).const_values() == old(self).const_values().insert(name@, value@),
            final(self).const_names() == old(self).const_names().insert(value@, name@),
            final(self).libs_map() == old(self).libs_map(),
            final(self).funcs_map() == old(self).funcs_map(),
            final(self).slots_map() == old(self).slots_map(),
            final(self).lets_set() == old(self).lets_set(),
            final(self).vars_set() == old(self).vars_set(),
    {
        let ghost a = consts_by_name(self.consts@);
        let ghost b = consts_by_value(self.consts@);
        let ghost (n, v) = (name@, value@);
        self.consts.push((name, value));
        proof {
            assert(consts_by_name(self.consts@) =~= a.push((n, v)));
            assert(consts_by_value(self.consts@) =~= b.push((v, n)));
            lemma_assoc_push(a, n, v);
            lemma_assoc_push(b, v, n);
        }
        Ok(())
    }

    /// The name of a const literal.
    pub fn get_const_name(&self, value: &str) -> (r: Option<&String>)
        ensures
            match r {
                Some(s) => self.const_names().dom().contains(value@) && s@ == self.const_names()[value@],
                None => !self.const_names().dom().contains(value@),
            },
    {
        let ghost s = consts_by_value(self.consts@);
        let mut i = self.consts.len();
        while i > 0
            invariant
                i <= self.consts@.len(),
                s == consts_by_value(self.consts@),
                forall|j: int| i <= j < s.len() ==> s[j].0 != value@,
            decreases i,
        {
            i = i - 1;
            if str_eq(self.consts[i].1.as_str(), value) {
                proof {
                    lemma_assoc_at(s, i as int, value@);
                }
                return Some(&self.consts[i].0);
            }
        }
        proof {
            lemma_assoc_none(s, value@);
        }
        None
    }

    /// The literal of a named const.
    pub fn get_const_value(&self, name: &str) -> (r: Option<&String>)
        ensures
            match r {
                Some(s) => self.const_values().dom().contains(name@) && s@ == self.const_values()[name@],
                None => !self.const_values().dom().contains(name@),
            },
    {
        let ghost s = consts_by_name(self.consts@);
        let mut i = self.consts.len();
        while i > 0
            invariant
                i <= self.consts@.len(),
                s == consts_by_name(self.consts@),
                forall|j: int| i <= j < s.len() ==> s[j].0 != name@,
            decreases i,
        {
            i = i - 1;
            if str_eq(self.consts[i].0.as_str(), name) {
                proof {
                    lemma_assoc_at(s, i as int, name@);
                }
                return Some(&self.consts[i].1);
            }
        }
        proof {
            lemma_assoc_none(s, name@);
        }
        None
    }

    /// Record the parameter names.
    pub fn register_param_names(&mut self, names: Vec<String>) -> (r: Result<(), String>)
        ensures
            r is Ok,
            final(self).params_seq() == names_view(names@),
            final(self).libs_map() == old(self).libs_map(),
            final(self).funcs_map() == old(self).funcs_map(),
            final(self).slots_map() == old(self).slots_map(),
            final(self).lets_set() == old(self).lets_set(),
            final(self).vars_set() == old(self).vars_set(),
    {
        self.params = names;
        Ok(())
    }

    /// Record how many leading locals are parameters.
    pub fn register_param_prelude_count(&mut self, count: u8) -> (r: Result<(), String>)
        ensures
            r is Ok,
            final(self).prelude() == Some(count),
            final(self).libs_map() == old(self).libs_map(),
            final(self).funcs_map() == old(self).funcs_map(),
            final(self).slots_map() == old(self).slots_map(),
            final(self).lets_set() == old(self).lets_set(),
            final(self).vars_set() == old(self).vars_set(),
    {
        self.param_prelude_count = Some(count);
        Ok(())
    }

    /// How many leading locals are parameters, if recorded.
    pub fn param_prelude_count(&self) -> (r: Option<u8>)
        ensures
            r == self.prelude(),
    {
        self.param_prelude_count
    }

    /// The parameter names, if any were recorded.
    pub fn param_names(&self) -> (r: Option<&Vec<String>>)
        ensures
            self.params_seq().len() == 0 ==> r is None,
            self.params_seq().len() > 0 ==> (r matches Some(v) && names_view(v@) == self.params_seq()),
    {
        if self.params.len() == 0 {
            None
        } else {
            Some(&self.params)
        }
    }

    /// The library at an index.
    pub fn lib(&self, idx: u8) -> (r: Option<&LibInfo>)
        ensures
            match r {
                Some(l) => self.libs_map().dom().contains(idx) && lib_model(*l) == self.libs_map()[idx],
                None => !self.libs_map().dom().contains(idx),
            },
    {
        self.libs.get(&idx)
    }

    /// The name of a function selector.
    pub fn func(&self, sig: &[u8; 4]) -> (r: Option<&String>)
        ensures
            match r {
                Some(s) => self.funcs_map().dom().contains(sig@) && s@ == self.funcs_map()[sig@],
                None => !self.funcs_map().dom().contains(sig@),
            },
    {
        let ghost s = funcs_view(self.funcs@);
        let mut i = self.funcs.len();
        while i > 0
            invariant
                i <= self.funcs@.len(),
                s == funcs_view(self.funcs@),
                forall|j: int| i <= j < s.len() ==> s[j].0 != sig@,
            decreases i,
        {
            i = i - 1;
            let k = &self.funcs[i].0;
            if k[0] == sig[0] && k[1] == sig[1] && k[2] == sig[2] && k[3] == sig[3] {
                proof {
                    assert(k@ =~= sig@);
                    lemma_assoc_at(s, i as int, sig@);
                }
                return Some(&self.funcs[i].1);
            }
            assert(k@[0] != sig@[0] || k@[1] != sig@[1] || k@[2] != sig@[2] || k@[3] != sig@[3]);
        }
        proof {
            lemma_assoc_none(s, sig@);
        }
        None
    }

    /// The name of a slot.
    pub fn slot(&self, slot: u8) -> (r: Option<&String>)
        ensures
            match r {
                Some(s) => self.slots_map().dom().contains(slot) && s@ == self.slots_map()[slot],
                None => !self.slots_map().dom().contains(slot),
            },
    {
        self.slots.get(&slot)
    }

    /// Copies of the library entries in ascending index order.
    pub fn lib_entries(&self) -> (r: Vec<(u8, LibInfo)>)
        ensures
            libs_view(r@) == sorted_entries(self.libs_map(), 256),
    {
        let mut out: Vec<(u8, LibInfo)> = Vec::new();
        let mut k: u16 = 0;
        while k < 256
            invariant
                k <= 256,
                libs_view(out@) == sorted_entries(self.libs_map(), k as int),
            decreases 256 - k,
        {
            let ghost before = libs_view(out@);
            match self.libs.get(&(k as u8)) {
                Some(info) => {
                    let e = info.dup();
                    out.push((k as u8, e));
                    proof {
                        assert(libs_view(out@) =~= before.push((k as u8, lib_model(e))));
                    }
                },
                None => {},
            }
            k = k + 1;
        }
        out
    }

    /// A slot is written after its declaration: it becomes `var`.
    pub fn mark_slot_mutated(&mut self, slot: u8)
        ensures
            (final(self).lets_set(), final(self).vars_set()) == slot_step((old(self).lets_set(), old(self).vars_set()), SlotCall::Mutate(slot)),
            final(self).slots_map() == old(self).slots_map(),
    {
        if self.vars.contains(&slot) {
            return;
        }
        self.lets.remove(&slot);
        self.vars.insert(slot);
    }

    /// Is the slot `var`.
    pub fn slot_is_var(&self, slot: u8) -> (r: bool)
        ensures
            r == self.vars_set().contains(slot),
    {
        self.vars.contains(&slot)
    }

    /// Is the slot `let`.
    pub fn slot_is_let(&self, slot: u8) -> (r: bool)
        ensures
            r == self.lets_set().contains(slot),
    {
        self.lets.contains(&slot)
    }
}

impl Default for SourceMap {
    fn default() -> (r: SourceMap)
        ensures
            r.libs_map() == Map::<u8, LibModel>::empty(),
            r.slots_map() == Map::<u8, Seq<char>>::empty(),
            r.lets_set() == Set::<u8>::empty(),
            r.vars_set() == Set::<u8>::empty(),
    {
        SourceMap::new()
    }
}

/// What a sequence with one more element contains.
pub proof fn lemma_push_contains<A>(s: Seq<A>, a: A, y: A)
    ensures
        s.push(a).contains(y) <==> (s.contains(y) || y == a),
{
    if s.push(a).contains(y) {
        let j = choose|j: int| 0 <= j < s.push(a).len() && s.push(a)[j] == y;
        if j < s.len() {
            assert(s[j] == y);
        }
    }
    if s.contains(y) {
        let j = choose|j: int| 0 <= j < s.len() && s[j] == y;
        assert(s.push(a)[j] == y);
    }
    if y == a {
        assert(s.push(a)[s.len() as int] == y);
    }
}

} // verus!
