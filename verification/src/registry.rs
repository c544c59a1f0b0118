//! The participant registry: who has ever bid, in order of first bid.

use vstd::prelude::*;
use crate::account::AccountId;

verus! {

/// An insertion-ordered sequence of identities in which nothing occurs twice.
pub struct Registry {
    members: Vec<AccountId>,
}

impl View for Registry {
    type V = Seq<AccountId>;

    closed spec fn view(&self) -> Seq<AccountId> {
        self.members@
    }
}

impl Registry {
    /// No identity is registered twice.
    pub open spec fn wf(&self) -> bool {
        self@.no_duplicates()
    }

    /// The empty registry.
    pub fn new() -> (r: Registry)
        ensures
            r@ == Seq::<AccountId>::empty(),
            r.wf(),
    {
        Registry { members: Vec::new() }
    }

    /// The number of registered identities.
    pub fn len(&self) -> (n: usize)
        ensures
            n == self@.len(),
    {
        self.members.len()
    }

    /// The identity registered at position `i`.
    pub fn get(&self, i: usize) -> (id: AccountId)
        requires
            i < self@.len(),
        ensures
            id == self@[i as int],
    {
        self.members[i]
    }

    /// The position at which `id` is registered, if it is.
    pub fn position(&self, id: &AccountId) -> (r: Option<usize>)
        ensures
            match r {
                Some(i) => i < self@.len() && self@[i as int] == *id && forall|k: int|
                    0 <= k < i ==> self@[k] != *id,
                None => !self@.contains(*id),
            },
    {
        let mut i: usize = 0;
        while i < self.members.len()
            invariant
                i <= self.members@.len(),
                forall|k: int| 0 <= k < i ==> self.members@[k] != *id,
            decreases self.members@.len() - i,
        {
            if self.members[i].same(id) {
                return Some(i);
            }
            i += 1;
        }
        None
    }

    /// Whether `id` is registered.
    pub fn contains(&self, id: &AccountId) -> (r: bool)
        ensures
            r == self@.contains(*id),
    {
        self.position(id).is_some()
    }

    /// Registers `id` behind all earlier identities unless it is registered
    /// already; says whether it was new.
    pub fn register(&mut self, id: AccountId) -> (added: bool)
        requires
            old(self).wf(),
        ensures
            final(self).wf(),
            added == !old(self)@.contains(id),
            final(self)@ == if added {
                old(self)@.push(id)
            } else {
                old(self)@
            },
    {
        if self.contains(&id) {
            false
        } else {
            self.members.push(id);
            true
        }
    }

    /// The registered identities, in order of registration.
    pub fn to_vec(&self) -> (v: Vec<AccountId>)
        ensures
            v@ == self@,
    {
        let mut v: Vec<AccountId> = Vec::new();
        let mut i: usize = 0;
        while i < self.members.len()
            invariant
                i <= self.members@.len(),
                v@ == self.members@.take(i as int),
            decreases self.members@.len() - i,
        {
            v.push(self.members[i]);
            assert(self.members@.take(i + 1) =~= self.members@.take(i as int).push(
                self.members@[i as int],
            ));
            i += 1;
        }
        assert(self.members@.take(i as int) =~= self.members@);
        v
    }
}

} // verus!
