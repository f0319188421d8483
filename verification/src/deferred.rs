//! Deferred cleanup hooks: contracts register them during a transaction,
//! each at most once, and they run last-registered first.

use vstd::prelude::*;
use crate::error::{ItrErr, ItrErrCode, VmrtErr};

verus! {

/// A contract address.
pub type ContractAddress = [u8; 21];

/// The intent a hook settles: none, or the intent with an id.
pub type IntentScope = Option<Option<usize>>;

/// A registered hook: the contract and the intent scope it settles.
#[derive(Debug, Clone, Copy)]
pub struct DeferredEntry {
    pub addr: ContractAddress,
    pub intent_scope: IntentScope,
}

/// The model of a hook.
pub type EntryModel = (Seq<u8>, IntentScope);

pub open spec fn entry_model(e: DeferredEntry) -> EntryModel {
    (e.addr@, e.intent_scope)
}

pub open spec fn entries_model(v: Seq<DeferredEntry>) -> Seq<EntryModel> {
    Seq::new(v.len(), |i: int| entry_model(v[i]))
}

/// The model of a registry: who may register now, the pending hooks in
/// registration order, and every hook registered since the last clear.
pub type RegistryModel = (Option<Seq<u8>>, Seq<EntryModel>, Set<EntryModel>);

/// Registering a hook for `caller`: only the contract currently authorized
/// may register, and a hook already registered since the last clear may not
/// be registered again.
pub open spec fn spec_register(m: RegistryModel, caller: Seq<u8>, scope: IntentScope) -> Result<RegistryModel, ItrErrCode> {
    if m.0 != Some(caller) {
        Err(ItrErrCode::DeferredError)
    } else if m.2.contains((caller, scope)) {
        Err(ItrErrCode::DeferredError)
    } else {
        Ok((m.0, m.1.push((caller, scope)), m.2.insert((caller, scope))))
    }
}

/// Registered hooks and the authorization to register more.
#[derive(Debug)]
pub struct DeferredRegistry {
    defer_auth: Option<ContractAddress>,
    entries: Vec<DeferredEntry>,
    seen: Vec<DeferredEntry>,
}

fn addr_eq(a: &ContractAddress, b: &ContractAddress) -> (r: bool)
    ensures
        r == (a@ == b@),
{
    let mut i: usize = 0;
    while i < 21
        invariant
            i <= 21,
            forall|j: int| 0 <= j < i ==> a@[j] == b@[j],
        decreases 21 - i,
    {
        if a[i] != b[i] {
            return false;
        }
        i = i + 1;
    }
    assert(a@ =~= b@);
    true
}

fn scope_eq(a: IntentScope, b: IntentScope) -> (r: bool)
    ensures
        r == (a == b),
{
    match (a, b) {
        (None, None) => true,
        (Some(None), Some(None)) => true,
        (Some(Some(x)), Some(Some(y))) => x == y,
        _ => false,
    }
}

fn entry_eq(a: &DeferredEntry, b: &DeferredEntry) -> (r: bool)
    ensures
        r == (entry_model(*a) == entry_model(*b)),
{
    addr_eq(&a.addr, &b.addr) && scope_eq(a.intent_scope, b.intent_scope)
}

impl DeferredRegistry {
    /// The model of this registry.
    pub closed spec fn model(&self) -> RegistryModel {
        (
            match self.defer_auth { Some(a) => Some(a@), None => None },
            entries_model(self.entries@),
            entries_model(self.seen@).to_set(),
        )
    }

    /// An empty registry with no authorized contract.
    pub fn new() -> (r: DeferredRegistry)
        ensures
            r.model() == (None::<Seq<u8>>, Seq::<EntryModel>::empty(), Set::<EntryModel>::empty()),
    {
        let r = DeferredRegistry { defer_auth: None, entries: Vec::new(), seen: Vec::new() };
        assert(entries_model(r.entries@) =~= Seq::<EntryModel>::empty());
        assert(entries_model(r.seen@).to_set() =~= Set::<EntryModel>::empty());
        r
    }

    /// Forget everything.
    pub fn clear(&mut self)
        ensures
            final(self).model() == (None::<Seq<u8>>, Seq::<EntryModel>::empty(), Set::<EntryModel>::empty()),
    {
        self.defer_auth = None;
        self.entries.clear();
        self.seen.clear();
        assert(entries_model(self.entries@) =~= Seq::<EntryModel>::empty());
        assert(entries_model(self.seen@).to_set() =~= Set::<EntryModel>::empty());
    }

    /// Set which contract may register hooks, returning the one before.
    pub fn replace_defer_auth(&mut self, auth: Option<ContractAddress>) -> (r: Option<ContractAddress>)
        ensures
            (match r { Some(a) => Some(a@), None => None }) == old(self).model().0,
            final(self).model() == (match auth { Some(a) => Some(a@), None => None::<Seq<u8>> }, old(self).model().1, old(self).model().2),
    {
        let prev = self.defer_auth;
        self.defer_auth = auth;
        prev
    }

    fn seen_contains(&self, e: &DeferredEntry) -> (r: bool)
        ensures
            r == self.model().2.contains(entry_model(*e)),
    {
        let ghost s = entries_model(self.seen@);
        let mut i: usize = 0;
        while i < self.seen.len()
            invariant
                i <= self.seen@.len(),
                s == entries_model(self.seen@),
                forall|j: int| 0 <= j < i ==> s[j] != entry_model(*e),
            decreases self.seen@.len() - i,
        {
            if entry_eq(&self.seen[i], e) {
                assert(s[i as int] == entry_model(*e));
                return true;
            }
            i = i + 1;
        }
        assert(!s.contains(entry_model(*e)));
        false
    }

    /// Register a hook for the calling contract over an intent scope.
    pub fn register_current(&mut self, caller: &ContractAddress, intent_scope: IntentScope) -> (r: VmrtErr)
        ensures
            match spec_register(old(self).model(), caller@, intent_scope) {
                Ok(m) => r is Ok && final(self).model() == m,
                Err(c) => (r matches Err(e) && e.0 == c) && final(self).model() == old(self).model(),
            },
            old(self).model().0 != Some(caller@) ==> (r matches Err(e)
                && e.1@ == "defer can only be registered from authorized entries"@),
            old(self).model().0 == Some(caller@) && old(self).model().2.contains((caller@, intent_scope))
                ==> (r matches Err(e) && e.1@ == "duplicate deferred cleanup hook registration"@),
    {
        let authorized = match &self.defer_auth {
            Some(a) => addr_eq(a, caller),
            None => false,
        };
        if !authorized {
            return Err(ItrErr::new(ItrErrCode::DeferredError, "defer can only be registered from authorized entries"));
        }
        let entry = DeferredEntry { addr: *caller, intent_scope };
        if self.seen_contains(&entry) {
            return Err(ItrErr::new(ItrErrCode::DeferredError, "duplicate deferred cleanup hook registration"));
        }
        let ghost s0 = entries_model(self.seen@);
        let ghost e0 = entries_model(self.entries@);
        self.seen.push(entry);
        self.entries.push(entry);
        proof {
            assert(entries_model(self.seen@) =~= s0.push(entry_model(entry)));
            assert(entries_model(self.entries@) =~= e0.push(entry_model(entry)));
            assert forall|x: EntryModel| #[trigger] s0.push(entry_model(entry)).contains(x) <==> (s0.contains(x) || x == entry_model(entry)) by {
                crate::sourcemap::lemma_push_contains(s0, entry_model(entry), x);
            }
            assert(s0.push(entry_model(entry)).to_set() =~= s0.to_set().insert(entry_model(entry)));
        }
        Ok(())
    }

    /// Take the pending hooks, last registered first. Hooks taken stay
    /// registered: the same hook cannot be registered again until a clear.
    pub fn drain_lifo(&mut self) -> (r: Vec<DeferredEntry>)
        ensures
            entries_model(r@) == old(self).model().1.reverse(),
            final(self).model() == (old(self).model().0, Seq::<EntryModel>::empty(), old(self).model().2),
    {
        let ghost e = entries_model(self.entries@);
        let mut out: Vec<DeferredEntry> = Vec::new();
        while self.entries.len() > 0
            invariant
                self.entries@.len() <= e.len(),
                entries_model(self.entries@) == e.subrange(0, self.entries@.len() as int),
                entries_model(out@) == e.subrange(self.entries@.len() as int, e.len() as int).reverse(),
                self.seen@ == old(self).seen@,
                self.defer_auth == old(self).defer_auth,
            decreases self.entries@.len(),
        {
            let ghost n = self.entries@.len();
            let ghost l0 = self.entries@;
            let x = self.entries.pop().unwrap();
            let ghost o0 = entries_model(out@);
            out.push(x);
            proof {
                assert(x == l0[n - 1]);
                assert(entries_model(l0) == e.subrange(0, n as int));
                assert(entries_model(l0)[n - 1] == entry_model(l0[n - 1]));
                assert(e.subrange(0, n as int)[n - 1] == e[n - 1]);
                assert(self.entries@ =~= l0.subrange(0, n - 1));
                assert(entries_model(self.entries@) =~= e.subrange(0, n - 1));
                assert(entries_model(out@) =~= o0.push(entry_model(x)));
                assert(entry_model(x) == e[n - 1]);
                assert(e.subrange(n - 1, e.len() as int).reverse() =~= e.subrange(n as int, e.len() as int).reverse().push(e[n - 1]));
            }
        }
        assert(e.subrange(0, e.len() as int) =~= e);
        assert(entries_model(self.entries@) =~= Seq::<EntryModel>::empty());
        out
    }
}

impl Default for DeferredRegistry {
    fn default() -> (r: DeferredRegistry)
        ensures
            r.model() == (None::<Seq<u8>>, Seq::<EntryModel>::empty(), Set::<EntryModel>::empty()),
    {
        DeferredRegistry::new()
    }
}

/// A hook registered once cannot be registered again before a clear, also
/// after the pending hooks were taken.
pub proof fn lemma_register_at_most_once(m: RegistryModel, caller: Seq<u8>, scope: IntentScope)
    requires
        spec_register(m, caller, scope) is Ok,
    ensures
        spec_register(spec_register(m, caller, scope).unwrap(), caller, scope) == Err::<RegistryModel, ItrErrCode>(ItrErrCode::DeferredError),
        spec_register((m.0, Seq::empty(), spec_register(m, caller, scope).unwrap().2), caller, scope) == Err::<RegistryModel, ItrErrCode>(ItrErrCode::DeferredError),
{
}

} // verus!
