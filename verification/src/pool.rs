use vstd::prelude::*;

use crate::handle::clone_waker;
use crate::handle::wake_by_ref;

verus! {

/// Capacity of the wake-context pool: the number of deadlines that may be
/// pending at once. Fixed so that memory use is bounded deterministically.
pub const MAX_TIMERS: usize = 128;

/// One wake-context record: a resumption handle for a suspended task and a
/// flag that the timer callback sets when the deadline has fired. The slot
/// holding the record may be reused only after `done` is true.
pub struct WakeContext {
    pub waker: core::task::Waker,
    pub done: bool,
}

/// Whether the slot at index `i` may be handed out: it is either empty or
/// holds a context whose deadline has already fired.
pub open spec fn reusable_at(s: Seq<Option<WakeContext>>, i: int) -> bool {
    match s[i] {
        None => true,
        Some(c) => c.done,
    }
}

/// Whether the slot at index `i` holds a still-pending context, one whose
/// deadline has not fired yet. A pending slot must never be handed out.
pub open spec fn pending_at(s: Seq<Option<WakeContext>>, i: int) -> bool {
    s[i] matches Some(c) && !c.done
}

/// Whether no slot at all may be handed out: every slot still holds a
/// pending context, so allocation deterministically fails.
pub open spec fn exhausted(s: Seq<Option<WakeContext>>) -> bool {
    forall|j: int| 0 <= j < s.len() ==> !reusable_at(s, j)
}

/// Whether no slot below index `i` may be handed out; allocation always
/// picks the first qualifying slot.
pub open spec fn no_reusable_before(s: Seq<Option<WakeContext>>, i: int) -> bool {
    forall|j: int| 0 <= j < i ==> !reusable_at(s, j)
}

/// A fixed-capacity allocator of wake-context records. Slots are scanned in
/// index order; the first empty or fired slot is overwritten with a fresh
/// pending context for a new deadline.
pub struct ContextAllocator {
    items: Vec<Option<WakeContext>>,
}

impl View for ContextAllocator {
    type V = Seq<Option<WakeContext>>;

    closed spec fn view(&self) -> Seq<Option<WakeContext>> {
        self.items@
    }
}

impl ContextAllocator {
    /// The pool always holds exactly `MAX_TIMERS` slots.
    pub open spec fn wf(self) -> bool {
        self@.len() == MAX_TIMERS
    }

    pub fn new() -> (a: ContextAllocator)
        ensures
            a.wf(),
            forall|j: int| 0 <= j < a@.len() ==> a@[j] is None,
    {
        let mut items: Vec<Option<WakeContext>> = Vec::new();
        let mut i: usize = 0;
        while i < MAX_TIMERS
            invariant
                i <= MAX_TIMERS,
                items@.len() == i,
                forall|j: int| 0 <= j < i ==> items@[j] is None,
            decreases MAX_TIMERS - i,
        {
            items.push(None);
            i = i + 1;
        }
        ContextAllocator { items }
    }

    /// Scan the slots in index order for the first one that is empty or
    /// whose occupant has fired. Returns its index, or nothing when every
    /// slot still holds a pending context.
    pub fn next_available(&self) -> (r: Option<usize>)
        requires
            self.wf(),
        ensures
            r matches Some(i) ==> i < MAX_TIMERS && reusable_at(self@, i as int)
                && no_reusable_before(self@, i as int),
            r is None <==> exhausted(self@),
    {
        let n = self.items.len();
        let mut i: usize = 0;
        while i < n
            invariant
                self.wf(),
                n == self@.len(),
                i <= n,
                no_reusable_before(self@, i as int),
            decreases n - i,
        {
            let free = match &self.items[i] {
                None => true,
                Some(c) => c.done,
            };
            if free {
                proof {
                    assert(reusable_at(self@, i as int));
                    assert(!exhausted(self@));
                }
                return Some(i);
            }
            i = i + 1;
        }
        None
    }

    /// Allocate a slot for a new deadline: pick the first empty or fired
    /// slot, overwrite it with a fresh pending context holding a clone of
    /// the caller's resumption handle, and return its index. Fails exactly
    /// when all slots are pending; the pool is then left unchanged.
    pub fn allocate_event(&mut self, waker: &core::task::Waker) -> (r: Option<usize>)
        requires
            old(self).wf(),
        ensures
            final(self).wf(),
            r matches Some(i) ==> {
                &&& i < MAX_TIMERS
                &&& reusable_at(old(self)@, i as int)
                &&& no_reusable_before(old(self)@, i as int)
                &&& final(self)@[i as int] matches Some(c) && !c.done
                &&& final(self)@ == old(self)@.update(i as int, final(self)@[i as int])
            },
            r is None <==> exhausted(old(self)@),
            r is None ==> final(self)@ == old(self)@,
    {
        match self.next_available() {
            Some(i) => {
                let ctx = WakeContext { waker: clone_waker(waker), done: false };
                self.items.set(i, Some(ctx));
                proof {
                    assert(self@ =~= old(self)@.update(i as int, self@[i as int]));
                }
                Some(i)
            },
            None => None,
        }
    }

    /// The callback path: resume the task whose deadline has fired and mark
    /// its slot reclaimable. The occupant's handle is woken exactly once and
    /// only its `done` flag changes; every other slot is untouched.
    pub fn fire_slot(&mut self, i: usize)
        requires
            old(self).wf(),
            i < old(self)@.len(),
            old(self)@[i as int] is Some,
        ensures
            final(self).wf(),
            final(self)@[i as int] matches Some(c) && c.done && c.waker == old(self)@[i as int]->0.waker,
            final(self)@ == old(self)@.update(i as int, final(self)@[i as int]),
    {
        let c = self.items.remove(i).unwrap();
        wake_by_ref(&c.waker);
        self.items.insert(i, Some(WakeContext { waker: c.waker, done: true }));
        proof {
            assert(self@ =~= old(self)@.update(i as int, self@[i as int]));
        }
    }

    /// How many slots the pool holds.
    pub fn capacity(&self) -> (n: usize)
        ensures
            n == self@.len(),
    {
        self.items.len()
    }

    /// Whether the slot at index `i` holds a still-pending context.
    pub fn slot_is_pending(&self, i: usize) -> (b: bool)
        requires
            i < self@.len(),
        ensures
            b == pending_at(self@, i as int),
    {
        match &self.items[i] {
            None => false,
            Some(c) => !c.done,
        }
    }

    /// Whether the slot at index `i` holds a context whose deadline fired.
    pub fn slot_is_done(&self, i: usize) -> (b: bool)
        requires
            i < self@.len(),
        ensures
            b == (self@[i as int] matches Some(c) && c.done),
    {
        match &self.items[i] {
            None => false,
            Some(c) => c.done,
        }
    }
}

/// A slot holding a distinct still-pending context is never handed out:
/// being pending excludes being reusable, so by `allocate_event`'s contract
/// the returned index can never point at such a slot.
pub proof fn lemma_pending_slot_not_reusable(s: Seq<Option<WakeContext>>, i: int)
    requires
        0 <= i < s.len(),
        pending_at(s, i),
    ensures
        !reusable_at(s, i),
{
}

/// Once a context has fired, its exact slot is eligible for reuse: if every
/// slot below it is still pending, `allocate_event` must return precisely
/// this index.
pub proof fn lemma_fired_slot_reused(s: Seq<Option<WakeContext>>, i: int)
    requires
        0 <= i < s.len(),
        s[i] matches Some(c) && c.done,
        forall|j: int| 0 <= j < i ==> pending_at(s, j),
    ensures
        reusable_at(s, i),
        no_reusable_before(s, i),
        forall|k: int|
            0 <= k < s.len() && reusable_at(s, k) && no_reusable_before(s, k) ==> k == i,
{
    assert forall|j: int| 0 <= j < i implies !reusable_at(s, j) by {
        assert(pending_at(s, j));
    }
    assert forall|k: int|
        0 <= k < s.len() && reusable_at(s, k) && no_reusable_before(s, k) implies k == i by {
        if k < i {
            assert(pending_at(s, k));
        }
        if k > i {
            assert(!reusable_at(s, i));
        }
    }
}

/// With every slot pending, allocation deterministically fails: no slot is
/// reusable, so `allocate_event` returns nothing and reports exhaustion.
pub proof fn lemma_full_pool_exhausted(s: Seq<Option<WakeContext>>)
    requires
        forall|j: int| 0 <= j < s.len() ==> pending_at(s, j),
    ensures
        exhausted(s),
{
    assert forall|j: int| 0 <= j < s.len() implies !reusable_at(s, j) by {
        assert(pending_at(s, j));
    }
}

} // verus!
