//! Stacking (z) order of the windows of a workspace, bottom to top: the
//! first window is painted first and the last one is on top.

use vstd::prelude::*;

verus! {

/// Identifies a window. Two windows are the same window exactly when
/// their identifiers are equal.
pub type WindowId = u64;

/// Index of the first occurrence of `w` in `s`.
pub open spec fn first_index(s: Seq<WindowId>, w: WindowId) -> Option<int>
    decreases s.len(),
{
    if s.len() == 0 {
        None
    } else if s[0] == w {
        Some(0)
    } else {
        match first_index(s.drop_first(), w) {
            Some(i) => Some(i + 1),
            None => None,
        }
    }
}

/// `s` without any occurrence of `w`, the others in their order.
pub open spec fn without(s: Seq<WindowId>, w: WindowId) -> Seq<WindowId> {
    s.filter(other_than(w))
}

/// Holds of every window but `w`.
pub open spec fn other_than(w: WindowId) -> spec_fn(WindowId) -> bool {
    |x: WindowId| x != w
}

/// `s` with the first occurrence of `w` moved to the top (unchanged when
/// `w` does not occur).
pub open spec fn raised(s: Seq<WindowId>, w: WindowId) -> Seq<WindowId> {
    match first_index(s, w) {
        Some(i) => s.remove(i).push(w),
        None => s,
    }
}

/// `s` with the first occurrence of `w` moved to the bottom (unchanged
/// when `w` does not occur).
pub open spec fn lowered(s: Seq<WindowId>, w: WindowId) -> Seq<WindowId> {
    match first_index(s, w) {
        Some(i) => seq![w] + s.remove(i),
        None => s,
    }
}

proof fn lemma_first_index(s: Seq<WindowId>, w: WindowId)
    ensures
        match first_index(s, w) {
            Some(i) => 0 <= i < s.len() && s[i] == w && forall|j: int| 0 <= j < i ==> s[j] != w,
            None => !s.contains(w),
        },
    decreases s.len(),
{
    if s.len() > 0 {
        lemma_first_index(s.drop_first(), w);
        if s[0] != w {
            assert(forall|j: int| 0 < j < s.len() ==> s[j] == s.drop_first()[j - 1]);
            if !s.drop_first().contains(w) {
                assert forall|j: int| 0 <= j < s.len() implies s[j] != w by {
                    if j > 0 {
                        assert(s[j] == s.drop_first()[j - 1]);
                    }
                }
            }
        }
    }
}

/// Raising a window that is in the stack makes it the topmost window and
/// keeps the same windows, each as often as before; raising a window that
/// is not in the stack changes nothing.
pub proof fn law_raise_brings_to_top(s: Seq<WindowId>, w: WindowId)
    ensures
        s.contains(w) ==> raised(s, w).last() == w,
        raised(s, w).to_multiset() =~= s.to_multiset(),
        !s.contains(w) ==> raised(s, w) == s,
{
    lemma_first_index(s, w);
    s.to_multiset_ensures();
    if let Some(i) = first_index(s, w) {
        s.remove(i).to_multiset_ensures();
        assert(s.to_multiset().remove(w).insert(w) =~= s.to_multiset());
    }
}

/// Lowering a window that is in the stack makes it the bottom window and
/// keeps the same windows, each as often as before; lowering a window that
/// is not in the stack changes nothing.
pub proof fn law_lower_sends_to_bottom(s: Seq<WindowId>, w: WindowId)
    ensures
        s.contains(w) ==> lowered(s, w)[0] == w,
        lowered(s, w).to_multiset() =~= s.to_multiset(),
        !s.contains(w) ==> lowered(s, w) == s,
{
    lemma_first_index(s, w);
    s.to_multiset_ensures();
    if let Some(i) = first_index(s, w) {
        let r = s.remove(i);
        let l = seq![w] + r;
        assert(l =~= r.insert(0, w));
        vstd::seq_lib::to_multiset_insert(r, 0, w);
        assert(s.to_multiset().remove(w).insert(w) =~= s.to_multiset());
    }
}

/// Raising a window moves only that window: with `i` the first place of
/// `w` in `s`, the windows below it stay where they are, those above it
/// each move down one place in their order, and `w` ends on top.
pub proof fn law_raise_keeps_others_in_order(s: Seq<WindowId>, w: WindowId, i: int)
    requires
        0 <= i < s.len(),
        s[i] == w,
        forall|j: int| 0 <= j < i ==> s[j] != w,
    ensures
        raised(s, w).len() == s.len(),
        raised(s, w)[s.len() - 1] == w,
        forall|j: int| 0 <= j < i ==> #[trigger] raised(s, w)[j] == s[j],
        forall|j: int| i <= j < s.len() - 1 ==> #[trigger] raised(s, w)[j] == s[j + 1],
{
    lemma_first_index(s, w);
    lemma_first_index_unique(s, w, i);
}

/// Lowering a window moves only that window: with `i` the first place of
/// `w` in `s`, `w` ends at the bottom, the windows below it each move up
/// one place in their order, and those above it stay where they are.
pub proof fn law_lower_keeps_others_in_order(s: Seq<WindowId>, w: WindowId, i: int)
    requires
        0 <= i < s.len(),
        s[i] == w,
        forall|j: int| 0 <= j < i ==> s[j] != w,
    ensures
        lowered(s, w).len() == s.len(),
        lowered(s, w)[0] == w,
        forall|j: int| 0 <= j < i ==> #[trigger] lowered(s, w)[j + 1] == s[j],
        forall|j: int| i < j < s.len() ==> #[trigger] lowered(s, w)[j] == s[j],
{
    lemma_first_index(s, w);
    lemma_first_index_unique(s, w, i);
}

proof fn lemma_first_index_unique(s: Seq<WindowId>, w: WindowId, i: int)
    requires
        0 <= i < s.len(),
        s[i] == w,
        forall|j: int| 0 <= j < i ==> s[j] != w,
    ensures
        first_index(s, w) == Some(i),
{
    lemma_first_index(s, w);
    match first_index(s, w) {
        Some(k) => {
            if k < i {
                assert(s[k] != w);
            } else if k > i {
                assert(s[i] != w);
            }
        },
        None => {
            assert(s.contains(w)) by {
                assert(s[i] == w);
            }
        },
    }
}

/// Removing a window that is not in the stack changes nothing, and
/// removal goes window by window: on a stack with one more window on top,
/// the result is that of the lower stack, with the top window kept on top
/// unless it is the removed one.
pub proof fn law_remove_keeps_others_in_order(s: Seq<WindowId>, w: WindowId, x: WindowId)
    ensures
        !s.contains(w) ==> without(s, w) == s,
        without(s.push(x), w) == (if x == w {
            without(s, w)
        } else {
            without(s, w).push(x)
        }),
{
    reveal_with_fuel(Seq::<_>::filter, 1);
    assert(s.push(x).drop_last() =~= s);
    if !s.contains(w) {
        lemma_without_absent(s, w);
    }
}

proof fn lemma_without_absent(s: Seq<WindowId>, w: WindowId)
    requires
        !s.contains(w),
    ensures
        without(s, w) == s,
    decreases s.len(),
{
    reveal_with_fuel(Seq::<_>::filter, 1);
    if s.len() > 0 {
        let t = s.drop_last();
        assert(!t.contains(w)) by {
            if t.contains(w) {
                let k = choose|k: int| 0 <= k < t.len() && t[k] == w;
                assert(s[k] == w);
            }
        }
        lemma_without_absent(t, w);
        assert(s.last() != w) by {
            assert(s[s.len() - 1] == s.last());
        }
        assert(t.push(s.last()) =~= s);
    }
}

/// After removing a window it is no longer in the stack, and every other
/// window is in the stack exactly when it was before.
pub proof fn law_remove_only_removes(s: Seq<WindowId>, w: WindowId)
    ensures
        !without(s, w).contains(w),
        forall|x: WindowId| x != w ==> (without(s, w).contains(x) <==> s.contains(x)),
{
    broadcast use vstd::seq_lib::group_filter_ensures;

    if without(s, w).contains(w) {
        let k = choose|k: int| 0 <= k < without(s, w).len() && without(s, w)[k] == w;
        s.lemma_filter_pred(other_than(w), k);
    }
    assert forall|x: WindowId| x != w implies (without(s, w).contains(x) <==> s.contains(x)) by {
        if s.contains(x) {
            let k = choose|k: int| 0 <= k < s.len() && s[k] == x;
            s.lemma_filter_contains(other_than(w), k);
        }
        if without(s, w).contains(x) {
            s.lemma_filter_contains_rev(other_than(w), x);
        }
    }
}

/// The z-order of the windows on a workspace.
#[derive(Debug, Clone)]
pub struct StackingOrder {
    stack: Vec<WindowId>,
}

impl View for StackingOrder {
    type V = Seq<WindowId>;

    /// The windows, bottom first.
    closed spec fn view(&self) -> Seq<WindowId> {
        self.stack@
    }
}

impl StackingOrder {
    /// Creates an empty stacking order.
    pub fn new() -> (res: Self)
        ensures
            res@ == Seq::<WindowId>::empty(),
    {
        StackingOrder { stack: Vec::new() }
    }

    /// Puts `window` on top of the stack.
    pub fn push(&mut self, window: WindowId)
        ensures
            final(self)@ == old(self)@.push(window),
    {
        self.stack.push(window);
    }

    /// Removes every occurrence of `window`.
    pub fn remove(&mut self, window: &WindowId)
        ensures
            final(self)@ == without(old(self)@, *window),
    {
        let w = *window;
        let ghost s = self.stack@;
        let mut kept: Vec<WindowId> = Vec::new();
        let mut i: usize = 0;
        while i < self.stack.len()
            invariant
                self.stack@ == s,
                i <= s.len(),
                kept@ == without(s.take(i as int), w),
            decreases s.len() - i,
        {
            proof {
                reveal_with_fuel(Seq::<_>::filter, 1);
                assert(s.take(i + 1).drop_last() =~= s.take(i as int));
            }
            if self.stack[i] != w {
                kept.push(self.stack[i]);
            }
            i = i + 1;
        }
        proof {
            assert(s.take(s.len() as int) =~= s);
        }
        self.stack = kept;
    }

    fn position(&self, window: WindowId) -> (res: Option<usize>)
        ensures
            match res {
                Some(i) => first_index(self@, window) == Some(i as int),
                None => first_index(self@, window) is None,
            },
    {
        let mut i: usize = 0;
        proof {
            assert(self.stack@.skip(0) =~= self.stack@);
        }
        while i < self.stack.len()
            invariant
                i <= self.stack@.len(),
                first_index(self.stack@, window) == match first_index(
                    self.stack@.skip(i as int),
                    window,
                ) {
                    Some(j) => Some(j + i),
                    None => None,
                },
            decreases self.stack@.len() - i,
        {
            proof {
                assert(self.stack@.skip(i as int).drop_first() =~= self.stack@.skip(i + 1));
            }
            if self.stack[i] == window {
                return Some(i);
            }
            i = i + 1;
        }
        None
    }

    /// Moves `window` to the top of the stack; no effect when it is not in
    /// the stack.
    pub fn raise(&mut self, window: &WindowId)
        ensures
            final(self)@ == raised(old(self)@, *window),
    {
        proof {
            assert(self.stack@.skip(0) =~= self.stack@);
            lemma_first_index(self.stack@, *window);
        }
        if let Some(pos) = self.position(*window) {
            let w = self.stack.remove(pos);
            self.stack.push(w);
        }
    }

    /// Moves `window` to the bottom of the stack; no effect when it is not
    /// in the stack.
    pub fn lower(&mut self, window: &WindowId)
        ensures
            final(self)@ == lowered(old(self)@, *window),
    {
        proof {
            assert(self.stack@.skip(0) =~= self.stack@);
            lemma_first_index(self.stack@, *window);
        }
        if let Some(pos) = self.position(*window) {
            let w = self.stack.remove(pos);
            self.stack.insert(0, w);
            proof {
                assert(self.stack@ =~= seq![*window] + old(self).stack@.remove(pos as int));
            }
        }
    }

    /// The windows bottom to top (render order).
    pub fn iter(&self) -> (res: Vec<WindowId>)
        ensures
            res@ == self@,
    {
        self.stack.clone()
    }

    /// The windows top to bottom (hit-test order).
    pub fn iter_rev(&self) -> (res: Vec<WindowId>)
        ensures
            res@ == self@.reverse(),
    {
        let mut res: Vec<WindowId> = Vec::new();
        let mut i = self.stack.len();
        while i > 0
            invariant
                i <= self.stack@.len(),
                res@ == self.stack@.skip(i as int).reverse(),
            decreases i,
        {
            i = i - 1;
            res.push(self.stack[i]);
            proof {
                assert(res@ =~= self.stack@.skip(i as int).reverse());
            }
        }
        proof {
            assert(self.stack@.skip(0) =~= self.stack@);
        }
        res
    }

    /// The topmost window, if any.
    pub fn top(&self) -> (res: Option<WindowId>)
        ensures
            res == (if self@.len() == 0 {
                None
            } else {
                Some(self@.last())
            }),
    {
        if self.stack.len() == 0 {
            None
        } else {
            Some(self.stack[self.stack.len() - 1])
        }
    }

    /// Whether `window` is in the stack.
    pub fn contains(&self, window: &WindowId) -> (res: bool)
        ensures
            res == self@.contains(*window),
    {
        proof {
            assert(self.stack@.skip(0) =~= self.stack@);
            lemma_first_index(self.stack@, *window);
        }
        self.position(*window).is_some()
    }

    /// The number of windows in the stack.
    pub fn len(&self) -> (res: usize)
        ensures
            res == self@.len(),
    {
        self.stack.len()
    }

    /// Whether the stack holds no window.
    pub fn is_empty(&self) -> (res: bool)
        ensures
            res == (self@.len() == 0),
    {
        self.stack.len() == 0
    }
}

} // verus!
