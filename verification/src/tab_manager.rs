//! The selection manager: the full ordered collection as loaded, the
//! filtered working view over it, and a wrap-around selection cursor.
//!
//! The working view is kept as indices into the stored collection, so origin
//! and working view never alias mutable state and filtering never copies a
//! record.

use vstd::prelude::*;

use crate::filters::{keeps_pred, Filter};

verus! {

/// The abstract state of a manager: the collection as loaded, the visible
/// working view, and the selection index into the working view.
pub struct TabView<T> {
    pub origin: Seq<T>,
    pub working: Seq<T>,
    pub selected: nat,
}

/// Where a downward step moves the selection: one past, wrapping to the top
/// from the last index; nowhere on an empty view.
pub open spec fn next_sel(p: nat, len: nat) -> nat {
    if len == 0 {
        p
    } else if p + 1 == len {
        0
    } else {
        p + 1
    }
}

/// Where an upward step moves the selection: one back, wrapping to the last
/// index from the top; nowhere on an empty view.
pub open spec fn prev_sel(p: nat, len: nat) -> nat {
    if len == 0 {
        p
    } else if p == 0 {
        (len - 1) as nat
    } else {
        (p - 1) as nat
    }
}

/// How one application of a filter relates the states before and after: the
/// collection is untouched, the working view becomes exactly the records of
/// the collection the filter keeps, in collection order, and the selection
/// resets to the top.
pub open spec fn filter_applied<T, F: Filter<T>>(pre: TabView<T>, post: TabView<T>, f: F) -> bool {
    &&& post.origin == pre.origin
    &&& post.working == pre.origin.filter(keeps_pred(f))
    &&& post.selected == 0
}

/// Law (invariant): the selection index is always valid — zero on an empty
/// working view, strictly within bounds otherwise. Every constructor and
/// mutator states it of the state it leaves behind.
pub open spec fn valid_selection<T>(v: TabView<T>) -> bool {
    if v.working.len() == 0 {
        v.selected == 0
    } else {
        v.selected < v.working.len()
    }
}

/// Owns one list: the records as loaded and the filtered view the caller
/// navigates.
pub struct TabManager<T> {
    origin: Vec<T>,
    items: Vec<usize>,
    selected: usize,
}

impl<T> View for TabManager<T> {
    type V = TabView<T>;

    closed spec fn view(&self) -> TabView<T> {
        let o = self.origin@;
        TabView {
            origin: o,
            working: self.items@.map_values(|i: usize| o[i as int]),
            selected: self.selected as nat,
        }
    }
}

impl<T> TabManager<T> {
    #[verifier::type_invariant]
    spec fn wf(self) -> bool {
        &&& forall|k: int| 0 <= k < self.items@.len() ==> (#[trigger] self.items@[k]) < self.origin@.len()
        &&& if self.items@.len() == 0 {
            self.selected == 0
        } else {
            (self.selected as int) < self.items@.len()
        }
    }

    /// Takes ownership of the loaded records; the working view starts as the
    /// whole collection and the selection at the top.
    pub fn new(items: Vec<T>) -> (m: TabManager<T>)
        ensures
            m@.origin == items@,
            m@.working == items@,
            m@.selected == 0,
            valid_selection(m@),
    {
        let n = items.len();
        let mut idx: Vec<usize> = Vec::new();
        let mut i: usize = 0;
        while i < n
            invariant
                i <= n,
                idx@.len() == i,
                forall|k: int| 0 <= k < i ==> (#[trigger] idx@[k]) == k,
            decreases n - i,
        {
            idx.push(i);
            i += 1;
        }
        let m = TabManager { origin: items, items: idx, selected: 0 };
        proof {
            assert(m@.working =~= m@.origin);
        }
        m
    }

    /// Moves the selection one item down, wrapping from the bottom to the
    /// top; an empty working view leaves it untouched.
    pub fn select_down(&mut self)
        ensures
            final(self)@.origin == old(self)@.origin,
            final(self)@.working == old(self)@.working,
            final(self)@.selected == next_sel(old(self)@.selected, old(self)@.working.len()),
            valid_selection(final(self)@),
    {
        proof {
            use_type_invariant(&*self);
        }
        if self.items.len() == 0 {
            return ;
        }
        if self.selected == self.items.len() - 1 {
            self.selected = 0;
            return ;
        }
        self.selected = self.selected + 1;
    }

    /// Moves the selection one item up, wrapping from the top to the bottom;
    /// an empty working view leaves it untouched.
    pub fn select_up(&mut self)
        ensures
            final(self)@.origin == old(self)@.origin,
            final(self)@.working == old(self)@.working,
            final(self)@.selected == prev_sel(old(self)@.selected, old(self)@.working.len()),
            valid_selection(final(self)@),
    {
        proof {
            use_type_invariant(&*self);
        }
        if self.items.len() == 0 {
            return ;
        }
        if self.selected == 0 {
            self.selected = self.items.len() - 1;
            return ;
        }
        self.selected = self.selected - 1;
    }

    /// Puts the selection back at the top.
    pub fn reset_selection(&mut self)
        ensures
            final(self)@.origin == old(self)@.origin,
            final(self)@.working == old(self)@.working,
            final(self)@.selected == 0,
            valid_selection(final(self)@),
    {
        proof {
            use_type_invariant(&*self);
        }
        self.selected = 0;
    }

    /// The record the selection rests on, if the working view shows any.
    pub fn get_selected(&self) -> (r: Option<&T>)
        ensures
            match r {
                Some(t) => self@.working.len() > 0 && *t == self@.working[self@.selected as int],
                None => self@.working.len() == 0,
            },
    {
        proof {
            use_type_invariant(&*self);
        }
        if self.items.len() == 0 {
            None
        } else {
            Some(&self.origin[self.items[self.selected]])
        }
    }

    /// The current selection index.
    pub fn get_position(&self) -> (r: usize)
        ensures
            r == self@.selected,
    {
        self.selected
    }

    /// How many records the working view shows.
    pub fn len(&self) -> (r: usize)
        ensures
            r == self@.working.len(),
    {
        self.items.len()
    }

    /// Recomputes the working view from the full collection, keeping exactly
    /// the records the filter keeps, in collection order, and resets the
    /// selection. Always a full recompute: only the latest filter is ever in
    /// effect.
    pub fn with_filter<F: Filter<T>>(&mut self, f: &F)
        ensures
            filter_applied(old(self)@, final(self)@, *f),
            valid_selection(final(self)@),
    {
        proof {
            use_type_invariant(&*self);
        }
        let ghost orig = self.origin@;
        let ghost p = keeps_pred(*f);
        let mut kept: Vec<usize> = Vec::new();
        let n = self.origin.len();
        let mut i: usize = 0;
        proof {
            assert(orig.take(0).filter(p) =~= Seq::<T>::empty());
        }
        while i < n
            invariant
                i <= n,
                n == self.origin@.len(),
                orig == self.origin@,
                p == keeps_pred(*f),
                forall|k: int| 0 <= k < kept@.len() ==> (#[trigger] kept@[k]) < i,
                kept@.map_values(|j: usize| orig[j as int]) == orig.take(i as int).filter(p),
            decreases n - i,
        {
            let ghost kept_pre = kept@;
            if f.keep(&self.origin[i]) {
                kept.push(i);
            }
            proof {
                assert(orig.take(i + 1) =~= orig.take(i as int).push(orig[i as int]));
                crate::seq_util::lemma_filter_push(orig.take(i as int), orig[i as int], p);
                if p(orig[i as int]) {
                    assert(kept@.map_values(|j: usize| orig[j as int]) =~= kept_pre.map_values(
                        |j: usize| orig[j as int],
                    ).push(orig[i as int]));
                }
            }
            i += 1;
        }
        proof {
            assert(orig.take(n as int) =~= orig);
        }
        self.selected = 0;
        self.items = kept;
    }

    /// The working view as ascending `(index, record)` pairs.
    pub fn iter(&self) -> (r: Vec<(usize, &T)>)
        ensures
            r@.len() == self@.working.len(),
            forall|k: int|
                0 <= k < r@.len() ==> (#[trigger] r@[k]).0 == k && *r@[k].1 == self@.working[k],
    {
        proof {
            use_type_invariant(&*self);
        }
        let mut out: Vec<(usize, &T)> = Vec::new();
        let n = self.items.len();
        let mut k: usize = 0;
        while k < n
            invariant
                k <= n,
                n == self.items@.len(),
                out@.len() == k,
                forall|j: int| 0 <= j < n ==> (#[trigger] self.items@[j]) < self.origin@.len(),
                forall|j: int|
                    0 <= j < k ==> (#[trigger] out@[j]).0 == j && *out@[j].1 == self@.working[j],
            decreases n - k,
        {
            out.push((k, &self.origin[self.items[k]]));
            k += 1;
        }
        out
    }
}

impl<T> Default for TabManager<T> {
    /// A manager over nothing: empty collection, empty working view.
    fn default() -> (r: TabManager<T>)
        ensures
            r@.origin == Seq::<T>::empty(),
            r@.working == Seq::<T>::empty(),
            r@.selected == 0,
    {
        let m = TabManager { origin: Vec::new(), items: Vec::new(), selected: 0 };
        proof {
            assert(m@.origin =~= Seq::<T>::empty());
            assert(m@.working =~= Seq::<T>::empty());
        }
        m
    }
}

/// The selection after `k` downward steps on a working view of length `len`.
pub open spec fn iterated_next_sel(p: nat, len: nat, k: nat) -> nat
    decreases k,
{
    if k == 0 {
        p
    } else {
        next_sel(iterated_next_sel(p, len, (k - 1) as nat), len)
    }
}

/// The selection after `k` upward steps on a working view of length `len`.
pub open spec fn iterated_prev_sel(p: nat, len: nat, k: nat) -> nat
    decreases k,
{
    if k == 0 {
        p
    } else {
        prev_sel(iterated_prev_sel(p, len, (k - 1) as nat), len)
    }
}

proof fn lemma_iterated_next_sel(p: nat, len: nat, k: nat)
    requires
        p < len,
        k <= len,
    ensures
        iterated_next_sel(p, len, k) == if p + k < len {
            (p + k) as int
        } else {
            p + k - len
        },
    decreases k,
{
    if k > 0 {
        lemma_iterated_next_sel(p, len, (k - 1) as nat);
    }
}

proof fn lemma_iterated_prev_sel(p: nat, len: nat, k: nat)
    requires
        p < len,
        k <= len,
    ensures
        iterated_prev_sel(p, len, k) == if k <= p {
            p - k
        } else {
            p + len - k
        },
    decreases k,
{
    if k > 0 {
        lemma_iterated_prev_sel(p, len, (k - 1) as nat);
    }
}

/// Law: on a non-empty working view of length `len`, stepping the selection
/// down once per item brings it back to its starting position; likewise
/// stepping it up.
pub proof fn lemma_full_cycle_returns(p: nat, len: nat)
    requires
        0 < len,
        p < len,
    ensures
        iterated_next_sel(p, len, len) == p,
        iterated_prev_sel(p, len, len) == p,
{
    lemma_iterated_next_sel(p, len, len);
    lemma_iterated_prev_sel(p, len, len);
}

/// Law: on an empty working view, navigation steps never move the selection.
pub proof fn lemma_empty_view_never_moves(p: nat)
    ensures
        next_sel(p, 0) == p,
        prev_sel(p, 0) == p,
{
}

/// Law: applying the same filter twice in a row yields the identical working
/// view both times, and resets the selection to the top both times; the
/// second application changes nothing further.
pub proof fn lemma_filter_idempotent<T, F: Filter<T>>(
    m0: TabView<T>,
    m1: TabView<T>,
    m2: TabView<T>,
    f: F,
)
    requires
        filter_applied(m0, m1, f),
        filter_applied(m1, m2, f),
    ensures
        m2.working == m1.working,
        m1.selected == 0,
        m2.selected == 0,
{
}

} // verus!
