//! The set of outbound block requests that still wait for an answer.

use libp2p::request_response::OutboundRequestId;
use vstd::prelude::*;

use crate::outside::same_request;

verus! {

/// Identifiers of outbound block requests that were neither answered nor reported as failed.
///
/// The view is the set of these identifiers; each of them is stored once.
pub struct OutboundRequests {
    ids: Vec<OutboundRequestId>,
}

impl View for OutboundRequests {
    type V = Set<OutboundRequestId>;

    closed spec fn view(&self) -> Set<OutboundRequestId> {
        self.ids@.to_set()
    }
}

impl OutboundRequests {
    #[verifier::type_invariant]
    spec fn stored_once(self) -> bool {
        self.ids@.no_duplicates()
    }

    /// An empty set.
    pub fn new() -> (requests: Self)
        ensures
            requests@ == Set::<OutboundRequestId>::empty(),
    {
        let requests = OutboundRequests { ids: Vec::new() };
        assert(requests@ =~= Set::<OutboundRequestId>::empty());
        requests
    }

    /// Position of `id`, if it is stored.
    fn position(&self, id: &OutboundRequestId) -> (found: Option<usize>)
        ensures
            match found {
                Some(i) => i < self.ids@.len() && self.ids@[i as int] == *id,
                None => !self.ids@.contains(*id),
            },
    {
        let mut i: usize = 0;
        while i < self.ids.len()
            invariant
                i <= self.ids@.len(),
                forall|j: int| 0 <= j < i ==> self.ids@[j] != *id,
            decreases self.ids@.len() - i,
        {
            if same_request(&self.ids[i], id) {
                return Some(i);
            }
            i = i + 1;
        }
        None
    }

    /// Adds `id`.
    pub fn insert(&mut self, id: OutboundRequestId)
        ensures
            final(self)@ == old(self)@.insert(id),
    {
        proof {
            use_type_invariant(&*self);
        }
        match self.position(&id) {
            Some(i) => {
                assert(self.ids@.contains(self.ids@[i as int]));
                assert(self@ =~= self@.insert(id));
            },
            None => {
                let mut ids: Vec<OutboundRequestId> = Vec::new();
                std::mem::swap(&mut self.ids, &mut ids);
                let ghost before = ids@;
                ids.push(id);
                proof {
                    lemma_push_to_set(before, id);
                }
                self.ids = ids;
            },
        }
    }

    /// Removes `id` and says whether it was there.
    pub fn remove(&mut self, id: &OutboundRequestId) -> (removed: bool)
        ensures
            removed == old(self)@.contains(*id),
            final(self)@ == old(self)@.remove(*id),
    {
        proof {
            use_type_invariant(&*self);
        }
        match self.position(id) {
            Some(i) => {
                let mut ids: Vec<OutboundRequestId> = Vec::new();
                std::mem::swap(&mut self.ids, &mut ids);
                let ghost before = ids@;
                let _ = ids.swap_remove(i);
                proof {
                    assert(before.contains(before[i as int]));
                    lemma_swap_remove(before, i as int);
                    assert(ids@ =~= swap_removed(before, i as int));
                }
                self.ids = ids;
                true
            },
            None => {
                assert(self@ =~= self@.remove(*id));
                false
            },
        }
    }
}

/// `s` with its last element moved to position `i` in place of the element there.
spec fn swap_removed(s: Seq<OutboundRequestId>, i: int) -> Seq<OutboundRequestId> {
    s.update(i, s.last()).drop_last()
}

/// Appending a new element keeps elements distinct and adds it to the set of elements.
proof fn lemma_push_to_set(s: Seq<OutboundRequestId>, id: OutboundRequestId)
    requires
        s.no_duplicates(),
        !s.contains(id),
    ensures
        s.push(id).no_duplicates(),
        s.push(id).to_set() == s.to_set().insert(id),
{
    assert forall|x: OutboundRequestId| s.push(id).contains(x) == (s.contains(x) || x == id) by {
        if s.contains(x) {
            let j = choose|j: int| 0 <= j < s.len() && s[j] == x;
            assert(s.push(id)[j] == x);
        }
        if x == id {
            assert(s.push(id)[s.len() as int] == x);
        }
    }
    assert(s.push(id).to_set() =~= s.to_set().insert(id));
}

/// Replacing an element by the last one keeps elements distinct and takes just that element out
/// of the set of elements.
proof fn lemma_swap_remove(s: Seq<OutboundRequestId>, i: int)
    requires
        s.no_duplicates(),
        0 <= i < s.len(),
    ensures
        swap_removed(s, i).no_duplicates(),
        swap_removed(s, i).to_set() == s.to_set().remove(s[i]),
{
    let t = swap_removed(s, i);
    assert forall|x: OutboundRequestId| t.contains(x) == (s.contains(x) && x != s[i]) by {
        if s.contains(x) && x != s[i] {
            let j = choose|j: int| 0 <= j < s.len() && s[j] == x;
            if j == s.len() - 1 {
                assert(t[i] == x);
            } else {
                assert(t[j] == x);
            }
        }
        if t.contains(x) {
            let j = choose|j: int| 0 <= j < t.len() && t[j] == x;
            if j == i {
                assert(s[s.len() - 1] == x);
            } else {
                assert(s[j] == x);
            }
        }
    }
    assert(t.to_set() =~= s.to_set().remove(s[i]));
}

} // verus!
