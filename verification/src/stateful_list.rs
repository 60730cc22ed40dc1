//! A list with a cursor that wraps around at both ends.

use vstd::arithmetic::div_mod::{
    lemma_add_mod_noop_right, lemma_mod_add_multiples_vanish, lemma_mod_pos_bound,
    lemma_mod_self_0, lemma_small_mod,
};
use vstd::prelude::*;
use crate::text::{
    lemma_lex_lt_total, lemma_lex_lt_transitive, lex_lt, str_lt, strictly_sorted, views,
};

verus! {

/// The index that follows `cur` in a list of `len` items, wrapping to the
/// first item after the last one. An unselected list gets index 0.
pub open spec fn next_index(len: int, cur: Option<int>) -> int {
    match cur {
        None => 0,
        Some(i) => if len == 0 {
            0
        } else {
            (i + 1) % len
        },
    }
}

/// The index that precedes `cur` in a list of `len` items, wrapping to the
/// last item before the first one. An unselected list gets index 0.
pub open spec fn previous_index(len: int, cur: Option<int>) -> int {
    match cur {
        None => 0,
        Some(i) => if len == 0 {
            0
        } else {
            (i - 1 + len) % len
        },
    }
}

/// The cursor after `steps` moves forward from `cur`.
pub open spec fn next_times(len: int, cur: Option<int>, steps: nat) -> Option<int>
    decreases steps,
{
    if steps == 0 {
        cur
    } else {
        next_times(len, Some(next_index(len, cur)), (steps - 1) as nat)
    }
}

/// A cursor is valid for a list of `len` items when it is absent, points at
/// an item, or rests at 0 on an empty list.
pub open spec fn cursor_ok(len: int, cur: Option<int>) -> bool {
    match cur {
        None => true,
        Some(i) => 0 <= i < len || (len == 0 && i == 0),
    }
}

/// After `steps` moves forward from item `start`, the cursor is `steps`
/// items further on, counted around the list.
pub proof fn lemma_next_times(len: int, start: int, steps: nat)
    requires
        0 <= start < len,
    ensures
        next_times(len, Some(start), steps) == Some((start + steps) % len),
    decreases steps,
{
    if steps == 0 {
        lemma_small_mod(start as nat, len as nat);
    } else {
        let moved = (start + 1) % len;
        lemma_mod_pos_bound(start + 1, len);
        lemma_next_times(len, moved, (steps - 1) as nat);
        lemma_add_mod_noop_right(steps - 1, start + 1, len);
        assert((steps - 1) + (start + 1) == start + steps);
        assert(moved + (steps - 1) == (steps - 1) + moved);
    }
}

/// Moving forward once for every item of the list brings the cursor back to
/// the item it started from.
pub proof fn lemma_next_full_cycle(len: int, start: int)
    requires
        0 <= start < len,
    ensures
        next_times(len, Some(start), len as nat) == Some(start),
{
    lemma_next_times(len, start, len as nat);
    lemma_mod_add_multiples_vanish(start, len);
    lemma_small_mod(start as nat, len as nat);
    assert(start + len == len + start);
}

/// Moving back from the first item lands on the last one.
pub proof fn lemma_previous_from_first(len: int)
    requires
        0 < len,
    ensures
        previous_index(len, Some(0)) == len - 1,
{
    lemma_small_mod((len - 1) as nat, len as nat);
}

/// A move forward and a move back cancel each other.
pub proof fn lemma_previous_undoes_next(len: int, start: int)
    requires
        0 <= start < len,
    ensures
        previous_index(len, Some(next_index(len, Some(start)))) == start,
        next_index(len, Some(previous_index(len, Some(start)))) == start,
{
    lemma_small_mod(start as nat, len as nat);
    lemma_mod_self_0(len);
    if start + 1 < len {
        lemma_small_mod((start + 1) as nat, len as nat);
        lemma_mod_add_multiples_vanish(start, len);
        assert(start + 1 - 1 + len == len + start);
    } else {
        lemma_small_mod((len - 1) as nat, len as nat);
    }
    if start > 0 {
        lemma_mod_add_multiples_vanish(start - 1, len);
        lemma_small_mod((start - 1) as nat, len as nat);
        assert(start - 1 + len == len + (start - 1));
    } else {
        lemma_small_mod((len - 1) as nat, len as nat);
    }
}

/// Both moves keep a valid cursor valid, and on a list with items they put
/// the cursor on an item.
pub proof fn lemma_moves_stay_in_bounds(len: int, cur: Option<int>)
    requires
        0 <= len,
        cursor_ok(len, cur),
    ensures
        cursor_ok(len, Some(next_index(len, cur))),
        cursor_ok(len, Some(previous_index(len, cur))),
        len > 0 ==> 0 <= next_index(len, cur) < len && 0 <= previous_index(len, cur) < len,
{
    if len > 0 {
        match cur {
            Some(i) => {
                lemma_mod_pos_bound(i + 1, len);
                lemma_mod_pos_bound(i - 1 + len, len);
            },
            None => {},
        }
    }
}

/// An ordered sequence of items with an optional selected index.
pub struct StatefulList<T> {
    items: Vec<T>,
    selected: Option<usize>,
}

impl<T> StatefulList<T> {
    /// The items, in order.
    pub closed spec fn items(&self) -> Seq<T> {
        self.items@
    }

    /// The selected index, if any.
    pub closed spec fn cursor(&self) -> Option<int> {
        match self.selected {
            None => None,
            Some(i) => Some(i as int),
        }
    }

    /// The cursor is valid for the items.
    pub open spec fn wf(&self) -> bool {
        cursor_ok(self.items().len() as int, self.cursor())
    }

    /// Builds an unselected list from items that are already in order.
    pub fn with_vec(items: Vec<T>) -> (list: StatefulList<T>)
        ensures
            list.wf(),
            list.items() == items@,
            list.cursor() is None,
    {
        StatefulList { items, selected: None }
    }

    /// Number of items.
    pub fn len(&self) -> (n: usize)
        ensures
            n == self.items().len(),
    {
        self.items.len()
    }

    /// The selected index, if any.
    pub fn selected(&self) -> (cur: Option<usize>)
        ensures
            self.cursor() == match cur {
                None => None::<int>,
                Some(i) => Some(i as int),
            },
    {
        self.selected
    }

    /// The item at `index`.
    pub fn get(&self, index: usize) -> (item: &T)
        requires
            index < self.items().len(),
        ensures
            *item == self.items()[index as int],
    {
        &self.items[index]
    }

    /// Moves the cursor to `index`.
    pub fn select(&mut self, index: usize)
        requires
            cursor_ok(old(self).items().len() as int, Some(index as int)),
        ensures
            final(self).wf(),
            final(self).items() == old(self).items(),
            final(self).cursor() == Some(index as int),
    {
        self.selected = Some(index);
    }

    /// Replaces the items and puts the cursor on the first one.
    pub fn reset(&mut self, items: Vec<T>)
        ensures
            final(self).wf(),
            final(self).items() == items@,
            final(self).cursor() == Some(0int),
    {
        self.items = items;
        self.selected = Some(0);
    }

    /// Moves the cursor one item forward, from the last item to the first.
    pub fn next(&mut self)
        requires
            old(self).wf(),
        ensures
            final(self).wf(),
            final(self).items() == old(self).items(),
            final(self).cursor() == Some(
                next_index(old(self).items().len() as int, old(self).cursor()),
            ),
    {
        let n: usize = self.items.len();
        let i: usize = match self.selected {
            Some(i) => {
                if n == 0 || i >= n - 1 {
                    proof {
                        if n != 0 {
                            assert((i + 1) % (n as int) == 0) by (nonlinear_arith)
                                requires
                                    i + 1 == n,
                                    n > 0,
                            ;
                        }
                    }
                    0
                } else {
                    proof {
                        assert((i + 1) % (n as int) == i + 1) by (nonlinear_arith)
                            requires
                                0 <= i + 1 < n,
                        ;
                    }
                    i + 1
                }
            },
            None => 0,
        };
        self.selected = Some(i);
    }

    /// Moves the cursor one item back, from the first item to the last.
    pub fn previous(&mut self)
        requires
            old(self).wf(),
        ensures
            final(self).wf(),
            final(self).items() == old(self).items(),
            final(self).cursor() == Some(
                previous_index(old(self).items().len() as int, old(self).cursor()),
            ),
    {
        let n: usize = self.items.len();
        let i: usize = match self.selected {
            Some(i) => {
                if i == 0 {
                    if n == 0 {
                        0
                    } else {
                        proof {
                            assert((0 - 1 + n) % (n as int) == n - 1) by (nonlinear_arith)
                                requires
                                    n > 0,
                            ;
                        }
                        n - 1
                    }
                } else {
                    proof {
                        assert((i - 1 + n) % (n as int) == i - 1) by (nonlinear_arith)
                            requires
                                0 < i < n,
                        ;
                    }
                    i - 1
                }
            },
            None => 0,
        };
        self.selected = Some(i);
    }
}

impl StatefulList<String> {
    /// A copy of the names, in order.
    pub fn names(&self) -> (copy: Vec<String>)
        ensures
            views(copy@) == views(self.items()),
    {
        let mut copy: Vec<String> = Vec::new();
        let mut i: usize = 0;
        while i < self.items.len()
            invariant
                i <= self.items.len(),
                copy.len() == i,
                forall|k: int| 0 <= k < i ==> copy[k]@ == self.items[k]@,
            decreases self.items.len() - i,
        {
            copy.push(self.items[i].clone());
            i += 1;
        }
        assert(views(copy@) =~= views(self.items()));
        copy
    }

    /// Builds an unselected list from names in any order: each name is kept
    /// once, and the names are put in ascending order.
    pub fn with_hs(items: Vec<String>) -> (list: StatefulList<String>)
        ensures
            list.wf(),
            list.cursor() is None,
            strictly_sorted(views(list.items())),
            forall|name: Seq<char>|
                views(list.items()).contains(name) <==> views(items@).contains(name),
    {
        let mut sorted: Vec<String> = Vec::new();
        let mut k: usize = 0;
        while k < items.len()
            invariant
                k <= items.len(),
                strictly_sorted(views(sorted@)),
                forall|i: int|
                    0 <= i < sorted.len() ==> views(items@.take(k as int)).contains(
                        #[trigger] sorted[i]@,
                    ),
                forall|j: int|
                    0 <= j < k ==> views(sorted@).contains(#[trigger] items[j]@),
            decreases items.len() - k,
        {
            let name = items[k].clone();
            let ghost before = sorted@;
            let mut at: usize = 0;
            while at < sorted.len() && str_lt(sorted[at].as_str(), name.as_str())
                invariant
                    at <= sorted.len(),
                    forall|i: int| 0 <= i < at ==> lex_lt(#[trigger] sorted[i]@, name@),
                decreases sorted.len() - at,
            {
                at += 1;
            }
            let present = at < sorted.len() && sorted[at] == name;
            if !present {
                proof {
                    assert forall|i: int| at <= i < before.len() implies lex_lt(
                        name@,
                        #[trigger] before[i]@,
                    ) by {
                        lemma_lex_lt_total(before[at as int]@, name@);
                        if i > at {
                            assert(lex_lt(views(before)[at as int], views(before)[i]));
                            lemma_lex_lt_transitive(name@, before[at as int]@, before[i]@);
                        }
                    }
                }
                sorted.insert(at, name);
                proof {
                    let after = sorted@;
                    assert forall|i: int, j: int| 0 <= i < j < after.len() implies lex_lt(
                        #[trigger] views(after)[i],
                        #[trigger] views(after)[j],
                    ) by {
                        if j < at {
                            assert(lex_lt(views(before)[i], views(before)[j]));
                        } else if j == at {
                        } else if i < at {
                            assert(lex_lt(views(before)[i], views(before)[j - 1]));
                        } else if i == at {
                        } else {
                            assert(lex_lt(views(before)[i - 1], views(before)[j - 1]));
                        }
                    }
                    assert forall|j: int| 0 <= j < k + 1 implies views(after).contains(
                        #[trigger] items[j]@,
                    ) by {
                        if j < k {
                            let i = choose|i: int|
                                0 <= i < before.len() && views(before)[i] == items[j]@;
                            if i < at {
                                assert(views(after)[i] == items[j]@);
                            } else {
                                assert(views(after)[i + 1] == items[j]@);
                            }
                        } else {
                            assert(views(after)[at as int] == items[j]@);
                        }
                    }
                }
            } else {
                proof {
                    assert(views(sorted@)[at as int] == items[k as int]@);
                }
            }
            proof {
                let after = sorted@;
                assert forall|i: int| 0 <= i < after.len() implies views(
                    items@.take(k + 1),
                ).contains(#[trigger] after[i]@) by {
                    if !present && i == at {
                        assert(views(items@.take(k + 1))[k as int] == after[i]@);
                    } else {
                        let b = if !present && i > at {
                            before[i - 1]
                        } else {
                            before[i]
                        };
                        assert(b@ == after[i]@);
                        let j = choose|j: int|
                            0 <= j < k && views(items@.take(k as int))[j] == b@;
                        assert(views(items@.take(k + 1))[j] == b@);
                    }
                }
            }
            k += 1;
        }
        proof {
            assert(items@.take(k as int) =~= items@);
            assert forall|name: Seq<char>| views(sorted@).contains(name) implies views(
                items@,
            ).contains(name) by {
                let i = choose|i: int| 0 <= i < sorted.len() && views(sorted@)[i] == name;
                assert(views(items@).contains(sorted[i]@));
            }
            assert forall|name: Seq<char>| views(items@).contains(name) implies views(
                sorted@,
            ).contains(name) by {
                let j = choose|j: int| 0 <= j < items.len() && views(items@)[j] == name;
                assert(views(sorted@).contains(items[j]@));
            }
        }
        StatefulList { items: sorted, selected: None }
    }
}

} // verus!
