use vstd::prelude::*;

verus! {

/// Opaque generational reference into a [`HandleRegistry`]: a slot index plus the
/// generation that slot had when the value was inserted.
#[derive(Clone, Copy, PartialEq, Eq, Structural, Debug, Hash)]
pub struct Handle {
    pub index: usize,
    pub generation: u64,
}

/// One slot of a registry. A vacant slot keeps its generation so that handles issued
/// for earlier occupants stay detectable as stale.
pub struct Slot<T> {
    pub generation: u64,
    pub value: Option<T>,
}

/// Generational arena for one category of objects.
///
/// Insertion reuses the lowest vacant slot and bumps its generation; a slot whose
/// generation has reached `u64::MAX` is retired and never reused, so a handle can
/// never come to resolve to a later occupant of its slot.
pub struct HandleRegistry<T> {
    slots: Vec<Slot<T>>,
}

/// `h` designates a live value of the registry whose slots are `s`.
pub open spec fn resolves<T>(s: Seq<Slot<T>>, h: Handle) -> bool {
    &&& h.index < s.len()
    &&& s[h.index as int].value is Some
    &&& s[h.index as int].generation == h.generation
}

/// The value that `h` designates, if it is live.
pub open spec fn lookup<T>(s: Seq<Slot<T>>, h: Handle) -> Option<T> {
    if resolves(s, h) {
        s[h.index as int].value
    } else {
        None
    }
}

/// `h` was issued for an earlier occupant of its slot, or for one that has been removed:
/// no later insertion or removal can make it resolve again.
pub open spec fn retired<T>(s: Seq<Slot<T>>, h: Handle) -> bool {
    &&& h.index < s.len()
    &&& (s[h.index as int].generation > h.generation || (s[h.index as int].generation
        == h.generation && s[h.index as int].value is None))
}

/// A slot that an insertion may take over.
pub open spec fn reusable<T>(slot: Slot<T>) -> bool {
    slot.value is None && slot.generation < u64::MAX
}

/// `i` is the lowest reusable slot of `s`.
pub open spec fn lowest_reusable<T>(s: Seq<Slot<T>>, i: int) -> bool {
    &&& 0 <= i < s.len()
    &&& reusable(s[i])
    &&& forall|j: int| 0 <= j < i ==> !reusable(#[trigger] s[j])
}

pub open spec fn has_reusable<T>(s: Seq<Slot<T>>) -> bool {
    exists|i: int| 0 <= i < s.len() && reusable(#[trigger] s[i])
}

/// `post` is `pre` after inserting `value`, which was given handle `h`.
pub open spec fn inserted<T>(pre: Seq<Slot<T>>, post: Seq<Slot<T>>, value: T, h: Handle) -> bool {
    if has_reusable(pre) {
        &&& lowest_reusable(pre, h.index as int)
        &&& h.generation == pre[h.index as int].generation + 1
        &&& post == pre.update(h.index as int, Slot { generation: h.generation, value: Some(value) })
    } else {
        &&& h.index == pre.len()
        &&& h.generation == 0
        &&& post == pre.push(Slot { generation: 0, value: Some(value) })
    }
}

/// `post` is `pre` after removing `h`, which handed back `r`.
pub open spec fn removed<T>(pre: Seq<Slot<T>>, post: Seq<Slot<T>>, h: Handle, r: Option<T>) -> bool {
    &&& r == lookup(pre, h)
    &&& if resolves(pre, h) {
        post == pre.update(h.index as int, Slot { generation: h.generation, value: None })
    } else {
        post == pre
    }
}

/// `post` follows from `pre` by one insertion or one removal.
pub open spec fn step<T>(pre: Seq<Slot<T>>, post: Seq<Slot<T>>) -> bool {
    (exists|v: T, h: Handle| inserted(pre, post, v, h)) || (exists|h: Handle, r: Option<T>|
        removed(pre, post, h, r))
}

/// Each state of `states` follows from the one before by an insertion or a removal.
pub open spec fn is_history<T>(states: Seq<Seq<Slot<T>>>) -> bool {
    forall|i: int| 0 <= i < states.len() - 1 ==> step(#[trigger] states[i], states[i + 1])
}

/// `post` follows from `pre` by a removal that took out the live value of `h`.
pub open spec fn removes_handle<T>(pre: Seq<Slot<T>>, post: Seq<Slot<T>>, h: Handle) -> bool {
    resolves(pre, h) && exists|r: Option<T>| removed(pre, post, h, r)
}

/// An insertion keeps every live handle designating the same value and every retired handle
/// retired; the new handle designates the inserted value and was not live before.
pub proof fn lemma_insert_effect<T>(
    pre: Seq<Slot<T>>,
    post: Seq<Slot<T>>,
    value: T,
    h_new: Handle,
    h: Handle,
)
    requires
        inserted(pre, post, value, h_new),
    ensures
        lookup(post, h_new) == Some(value),
        !resolves(pre, h_new),
        resolves(pre, h) ==> lookup(post, h) == lookup(pre, h) && h != h_new,
        retired(pre, h) ==> retired(post, h) && h != h_new,
{
}

/// A removal of `h_rm` retires `h_rm` if it was live, keeps every other live handle
/// designating the same value, and keeps every retired handle retired.
pub proof fn lemma_remove_effect<T>(
    pre: Seq<Slot<T>>,
    post: Seq<Slot<T>>,
    h_rm: Handle,
    r: Option<T>,
    h: Handle,
)
    requires
        removed(pre, post, h_rm, r),
    ensures
        resolves(pre, h_rm) ==> retired(post, h_rm),
        resolves(pre, h) && h != h_rm ==> lookup(post, h) == lookup(pre, h),
        retired(pre, h) ==> retired(post, h),
{
}

/// A retired handle never resolves.
pub proof fn lemma_retired_never_resolves<T>(s: Seq<Slot<T>>, h: Handle)
    requires
        retired(s, h),
    ensures
        lookup(s, h) is None,
{
}

proof fn lemma_step_keeps_live<T>(pre: Seq<Slot<T>>, post: Seq<Slot<T>>, h: Handle)
    requires
        step(pre, post),
        resolves(pre, h),
        !removes_handle(pre, post, h),
    ensures
        lookup(post, h) == lookup(pre, h),
{
    if exists|v: T, hn: Handle| inserted(pre, post, v, hn) {
        let (v, hn) = choose|v: T, hn: Handle| inserted(pre, post, v, hn);
        lemma_insert_effect(pre, post, v, hn, h);
    } else {
        let (hr, r) = choose|hr: Handle, r: Option<T>| removed(pre, post, hr, r);
        if hr == h {
            assert(removes_handle(pre, post, h));
        }
        lemma_remove_effect(pre, post, hr, r, h);
    }
}

proof fn lemma_step_keeps_retired<T>(pre: Seq<Slot<T>>, post: Seq<Slot<T>>, h: Handle)
    requires
        step(pre, post),
        retired(pre, h),
    ensures
        retired(post, h),
{
    if exists|v: T, hn: Handle| inserted(pre, post, v, hn) {
        let (v, hn) = choose|v: T, hn: Handle| inserted(pre, post, v, hn);
        lemma_insert_effect(pre, post, v, hn, h);
    } else {
        let (hr, r) = choose|hr: Handle, r: Option<T>| removed(pre, post, hr, r);
        lemma_remove_effect(pre, post, hr, r, h);
    }
}

/// Over any history of insertions and removals, a handle that is live at the start keeps
/// designating the same value in every state, as long as no step removes it.
pub proof fn lemma_live_until_removed<T>(states: Seq<Seq<Slot<T>>>, h: Handle, j: int)
    requires
        is_history(states),
        0 <= j < states.len(),
        resolves(states[0], h),
        forall|i: int|
            0 <= i < states.len() - 1 ==> !removes_handle(#[trigger] states[i], states[i + 1], h),
    ensures
        lookup(states[j], h) == lookup(states[0], h),
    decreases j,
{
    if j > 0 {
        lemma_live_until_removed(states, h, j - 1);
        assert(step(states[j - 1], states[j - 1 + 1]));
        lemma_step_keeps_live(states[j - 1], states[j], h);
    }
}

/// Over any history of insertions and removals, a handle that has been removed (or whose
/// slot was reused) never resolves again.
pub proof fn lemma_never_resolves_after_removal<T>(states: Seq<Seq<Slot<T>>>, h: Handle, j: int)
    requires
        is_history(states),
        0 <= j < states.len(),
        retired(states[0], h),
    ensures
        retired(states[j], h),
        lookup(states[j], h) is None,
    decreases j,
{
    if j > 0 {
        lemma_never_resolves_after_removal(states, h, j - 1);
        assert(step(states[j - 1], states[j - 1 + 1]));
        lemma_step_keeps_retired(states[j - 1], states[j], h);
    }
}

/// Over any history of insertions and removals in which step `j` removes `h`: `h` keeps
/// designating its value in every state up to that removal, and resolves in no state after
/// it, whatever is inserted into its slot later.
pub proof fn lemma_handle_lifetime<T>(states: Seq<Seq<Slot<T>>>, h: Handle, j: int)
    requires
        is_history(states),
        0 <= j < states.len() - 1,
        resolves(states[0], h),
        removes_handle(states[j], states[j + 1], h),
        forall|i: int| 0 <= i < j ==> !removes_handle(#[trigger] states[i], states[i + 1], h),
    ensures
        forall|k: int| 0 <= k <= j ==> lookup(#[trigger] states[k], h) == lookup(states[0], h),
        forall|k: int| j < k < states.len() ==> lookup(#[trigger] states[k], h) is None,
{
    let before = states.subrange(0, j + 1);
    assert forall|i: int| 0 <= i < before.len() - 1 implies step(#[trigger] before[i], before[i + 1]) by {
        assert(step(states[i], states[i + 1]));
    }
    assert forall|i: int| 0 <= i < before.len() - 1 implies !removes_handle(#[trigger] before[i], before[i + 1], h) by {
        assert(!removes_handle(states[i], states[i + 1], h));
    }
    assert forall|k: int| 0 <= k <= j implies lookup(#[trigger] states[k], h) == lookup(states[0], h) by {
        lemma_live_until_removed(before, h, k);
        assert(before[k] == states[k]);
    }
    assert(removed(states[j], states[j + 1], h, lookup(states[j], h)));
    lemma_remove_effect(states[j], states[j + 1], h, lookup(states[j], h), h);
    let after = states.subrange(j + 1, states.len() as int);
    assert forall|i: int| 0 <= i < after.len() - 1 implies step(#[trigger] after[i], after[i + 1]) by {
        assert(step(states[j + 1 + i], states[j + 1 + i + 1]));
    }
    assert forall|k: int| j < k < states.len() implies lookup(#[trigger] states[k], h) is None by {
        lemma_never_resolves_after_removal(after, h, k - j - 1);
        assert(after[k - j - 1] == states[k]);
    }
}

impl<T> View for HandleRegistry<T> {
    type V = Seq<Slot<T>>;

    closed spec fn view(&self) -> Seq<Slot<T>> {
        self.slots@
    }
}

impl<T> HandleRegistry<T> {
    /// An empty registry.
    pub fn new() -> (r: Self)
        ensures
            r@ == Seq::<Slot<T>>::empty(),
    {
        HandleRegistry { slots: Vec::new() }
    }

    /// Number of slots ever used, vacant ones included.
    pub fn capacity(&self) -> (r: usize)
        ensures
            r == self@.len(),
    {
        self.slots.len()
    }

    /// Whether `h` designates a live value.
    pub fn contains(&self, h: Handle) -> (r: bool)
        ensures
            r == resolves(self@, h),
    {
        h.index < self.slots.len() && self.slots[h.index].value.is_some()
            && self.slots[h.index].generation == h.generation
    }

    /// The value that `h` designates; `None` if its slot is vacant or was reused.
    pub fn get(&self, h: Handle) -> (r: Option<&T>)
        ensures
            match r {
                Some(v) => lookup(self@, h) == Some(*v),
                None => lookup(self@, h) is None,
            },
    {
        if h.index < self.slots.len() && self.slots[h.index].generation == h.generation {
            self.slots[h.index].value.as_ref()
        } else {
            None
        }
    }

    /// Mutable access to the value that `h` designates; `None` if its slot is vacant or was
    /// reused. Only that value can change through the returned reference.
    pub fn get_mut(&mut self, h: Handle) -> (r: Option<&mut T>)
        ensures
            match r {
                Some(v) => {
                    &&& lookup(old(self)@, h) == Some(*v)
                    &&& final(self)@ == old(self)@.update(
                        h.index as int,
                        Slot { generation: h.generation, value: Some(*final(v)) },
                    )
                },
                None => lookup(old(self)@, h) is None && final(self)@ == old(self)@,
            },
    {
        if h.index < self.slots.len() && self.slots[h.index].generation == h.generation
            && self.slots[h.index].value.is_some() {
            let slot = &mut self.slots[h.index];
            slot.value.as_mut()
        } else {
            None
        }
    }

    /// Every live handle, by increasing slot index.
    pub fn live_handles(&self) -> (r: Vec<Handle>)
        ensures
            forall|k: int| 0 <= k < r@.len() ==> resolves(self@, #[trigger] r@[k]),
            forall|h: Handle| resolves(self@, h) ==> r@.contains(h),
            forall|a: int, b: int| 0 <= a < b < r@.len() ==> r@[a].index < r@[b].index,
    {
        let mut r: Vec<Handle> = Vec::new();
        let mut i: usize = 0;
        while i < self.slots.len()
            invariant
                i <= self.slots@.len(),
                forall|k: int| 0 <= k < r@.len() ==> resolves(self@, #[trigger] r@[k]) && r@[k].index < i,
                forall|h: Handle| resolves(self@, h) && h.index < i ==> r@.contains(h),
                forall|a: int, b: int| 0 <= a < b < r@.len() ==> r@[a].index < r@[b].index,
            decreases self.slots@.len() - i,
        {
            if self.slots[i].value.is_some() {
                let h = Handle { index: i, generation: self.slots[i].generation };
                let ghost pre = r@;
                r.push(h);
                proof {
                    assert forall|g: Handle| resolves(self@, g) && g.index < i + 1 implies r@.contains(g) by {
                        if g.index < i {
                            assert(pre.contains(g));
                            let k = choose|k: int| 0 <= k < pre.len() && pre[k] == g;
                            assert(r@[k] == g);
                        } else {
                            assert(r@[r@.len() - 1] == g);
                        }
                    }
                }
            }
            i = i + 1;
        }
        r
    }

    /// Stores `value` in the lowest reusable slot, bumping that slot's generation, or in a
    /// fresh slot when none is reusable; returns the handle that now designates it.
    pub fn insert(&mut self, value: T) -> (h: Handle)
        requires
            old(self)@.len() < usize::MAX,
        ensures
            inserted(old(self)@, final(self)@, value, h),
    {
        let n = self.slots.len();
        let mut i: usize = 0;
        while i < n
            invariant
                self.slots@ == old(self).slots@,
                n == self.slots@.len(),
                i <= n,
                forall|j: int| 0 <= j < i ==> !reusable(#[trigger] self.slots@[j]),
            decreases n - i,
        {
            if self.slots[i].value.is_none() && self.slots[i].generation < u64::MAX {
                let generation = self.slots[i].generation + 1;
                let ghost pre = self.slots@;
                self.slots.set(i, Slot { generation, value: Some(value) });
                let h = Handle { index: i, generation };
                assert(lowest_reusable(pre, i as int));
                assert(has_reusable(pre)) by {
                    assert(reusable(pre[i as int]));
                }
                return h;
            }
            i = i + 1;
        }
        self.slots.push(Slot { generation: 0, value: Some(value) });
        Handle { index: n, generation: 0 }
    }

    /// Inserts each of `values` in order and returns their handles in the same order.
    /// Values that were live before stay live and unchanged.
    pub fn insert_all(&mut self, values: Vec<T>) -> (hs: Vec<Handle>)
        requires
            old(self)@.len() + values@.len() < usize::MAX,
        ensures
            hs@.len() == values@.len(),
            forall|i: int| 0 <= i < hs@.len() ==> lookup(final(self)@, #[trigger] hs@[i]) == Some(values@[i]),
            forall|i: int| 0 <= i < hs@.len() ==> !resolves(old(self)@, #[trigger] hs@[i]),
            forall|i: int, j: int| 0 <= i < j < hs@.len() ==> hs@[i] != hs@[j],
            forall|h: Handle| resolves(old(self)@, h) ==> lookup(final(self)@, h) == lookup(old(self)@, h),
    {
        let ghost orig = values@;
        let mut rest = values;
        let mut hs: Vec<Handle> = Vec::new();
        while rest.len() > 0
            invariant
                rest@ == orig.subrange(hs@.len() as int, orig.len() as int),
                hs@.len() <= orig.len(),
                self@.len() <= old(self)@.len() + hs@.len(),
                old(self)@.len() + orig.len() < usize::MAX,
                forall|i: int| 0 <= i < hs@.len() ==> lookup(self@, #[trigger] hs@[i]) == Some(orig[i]),
                forall|i: int| 0 <= i < hs@.len() ==> !resolves(old(self)@, #[trigger] hs@[i]),
                forall|i: int, j: int| 0 <= i < j < hs@.len() ==> hs@[i] != hs@[j],
                forall|h: Handle| resolves(old(self)@, h) ==> lookup(self@, h) == lookup(old(self)@, h),
            decreases rest@.len(),
        {
            let v = rest.remove(0);
            let ghost pre = self@;
            let h = self.insert(v);
            proof {
                assert forall|i: int| 0 <= i < hs@.len() implies lookup(self@, #[trigger] hs@[i]) == Some(orig[i]) by {
                    lemma_insert_effect(pre, self@, v, h, hs@[i]);
                }
                assert forall|g: Handle| resolves(old(self)@, g) implies lookup(self@, g) == lookup(old(self)@, g) by {
                    lemma_insert_effect(pre, self@, v, h, g);
                }
                lemma_insert_effect(pre, self@, v, h, h);
                assert forall|i: int| 0 <= i < hs@.len() implies hs@[i] != h by {
                    assert(lookup(pre, hs@[i]) == Some(orig[i]));
                }
                if resolves(old(self)@, h) {
                    assert(lookup(pre, h) == lookup(old(self)@, h));
                }
            }
            hs.push(h);
        }
        hs
    }

    /// Takes out the value that `h` designates and vacates its slot; does nothing when `h`
    /// does not resolve.
    pub fn remove(&mut self, h: Handle) -> (r: Option<T>)
        ensures
            removed(old(self)@, final(self)@, h, r),
    {
        if h.index < self.slots.len() && self.slots[h.index].generation == h.generation
            && self.slots[h.index].value.is_some() {
            let mut slot = Slot { generation: h.generation, value: None };
            std::mem::swap(&mut slot, &mut self.slots[h.index]);
            slot.value
        } else {
            None
        }
    }
}

} // verus!
