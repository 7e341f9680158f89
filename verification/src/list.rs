//! An ordered list with a movable selection.

use vstd::prelude::*;

verus! {

/// Items in display order, and the index that is selected, if any.
///
/// Nothing is sorted: the order in which items were put in is the order in
/// which they are shown.
#[derive(Debug)]
pub struct StatefulList<T> {
    pub selected_num: Option<usize>,
    pub items: Vec<T>,
}

/// The index that follows `selected` in a list of `len` items, wrapping to
/// the first item behind the last one. With nothing selected it is the first
/// item.
pub open spec fn spec_next_index(selected: Option<usize>, len: nat) -> int {
    match selected {
        Some(i) => if i + 1 < len {
            i + 1
        } else {
            0
        },
        None => 0,
    }
}

/// The index that precedes `selected` in a list of `len` items, wrapping to
/// the last item before the first one. With nothing selected it is the first
/// item.
pub open spec fn spec_previous_index(selected: Option<usize>, len: nat) -> int {
    match selected {
        Some(i) => if i == 0 {
            len - 1
        } else {
            i - 1
        },
        None => 0,
    }
}

/// A selection as it stands after the list changed to `len` items: kept
/// where it still points into the list, dropped where it does not.
pub open spec fn spec_revalidated(selected: Option<usize>, len: nat) -> Option<usize> {
    match selected {
        Some(i) => if i < len {
            Some(i)
        } else {
            None
        },
        None => None,
    }
}

/// Whether the item at `index` is flagged: an item without a flag is not.
pub open spec fn spec_flagged(keep: Seq<bool>, index: int) -> bool {
    0 <= index < keep.len() && keep[index]
}

/// The flagged items from `from` on, in their order.
pub open spec fn spec_retain_from<T>(items: Seq<T>, keep: Seq<bool>, from: int) -> Seq<T>
    decreases items.len() - from,
{
    if from < 0 || from >= items.len() {
        Seq::empty()
    } else if spec_flagged(keep, from) {
        seq![items[from]] + spec_retain_from(items, keep, from + 1)
    } else {
        spec_retain_from(items, keep, from + 1)
    }
}

/// The flagged items, in their order.
pub open spec fn spec_retain<T>(items: Seq<T>, keep: Seq<bool>) -> Seq<T> {
    spec_retain_from(items, keep, 0)
}

/// Stepping forward inside a list moves the selection by one modulo the
/// length, and so does stepping back.
pub proof fn lemma_steps_wrap_modulo_length(i: usize, len: nat)
    requires
        i < len,
    ensures
        spec_next_index(Some(i), len) == (i + 1) % (len as int),
        spec_previous_index(Some(i), len) == (i + len - 1) % (len as int),
{
    let n = len as int;
    if i + 1 < n {
        assert((i + 1) % n == i + 1) by (nonlinear_arith)
            requires
                0 <= i + 1 < n,
        ;
    } else {
        assert((i + 1) % n == 0) by (nonlinear_arith)
            requires
                i + 1 == n,
                n > 0,
        ;
    }
    if i == 0 {
        assert((i + n - 1) % n == n - 1) by (nonlinear_arith)
            requires
                i == 0,
                n > 0,
        ;
    } else {
        assert((i + n - 1) % n == i - 1) by (nonlinear_arith)
            requires
                0 < i < n,
        ;
    }
}

/// Inside a list, a step forward and a step back undo each other.
pub proof fn lemma_steps_are_inverse(i: usize, len: nat)
    requires
        i < len,
        len <= usize::MAX,
    ensures
        spec_previous_index(Some(spec_next_index(Some(i), len) as usize), len) == i,
        spec_next_index(Some(spec_previous_index(Some(i), len) as usize), len) == i,
{
}

/// Retaining keeps no more than there was, keeps every item where every
/// item is flagged, and keeps nothing that was not there.
pub proof fn lemma_retain_bounds<T>(items: Seq<T>, keep: Seq<bool>)
    ensures
        spec_retain(items, keep).len() <= items.len(),
        (forall|i: int| 0 <= i < items.len() ==> spec_flagged(keep, i)) ==> spec_retain(
            items,
            keep,
        ) == items,
        forall|k: int|
            0 <= k < spec_retain(items, keep).len() ==> items.contains(
                #[trigger] spec_retain(items, keep)[k],
            ),
{
    lemma_retain_from_bounds(items, keep, 0);
    assert(items.subrange(0, items.len() as int) =~= items);
}

/// [`lemma_retain_bounds`] for the items from `from` on.
proof fn lemma_retain_from_bounds<T>(items: Seq<T>, keep: Seq<bool>, from: int)
    requires
        0 <= from <= items.len(),
    ensures
        spec_retain_from(items, keep, from).len() <= items.len() - from,
        (forall|i: int| from <= i < items.len() ==> spec_flagged(keep, i)) ==> spec_retain_from(
            items,
            keep,
            from,
        ) == items.subrange(from, items.len() as int),
        forall|k: int|
            0 <= k < spec_retain_from(items, keep, from).len() ==> items.contains(
                #[trigger] spec_retain_from(items, keep, from)[k],
            ),
    decreases items.len() - from,
{
    if from < items.len() {
        let rest = spec_retain_from(items, keep, from + 1);
        lemma_retain_from_bounds(items, keep, from + 1);
        if forall|i: int| from <= i < items.len() ==> spec_flagged(keep, i) {
            assert(seq![items[from]] + items.subrange(from + 1, items.len() as int)
                =~= items.subrange(from, items.len() as int));
        }
        assert forall|k: int|
            0 <= k < spec_retain_from(items, keep, from).len() implies items.contains(
            #[trigger] spec_retain_from(items, keep, from)[k],
        ) by {
            if spec_flagged(keep, from) && k > 0 {
                assert(items.contains(rest[k - 1]));
            } else if !spec_flagged(keep, from) {
                assert(items.contains(rest[k]));
            }
        }
    } else {
        assert(items.subrange(from, items.len() as int) =~= Seq::<T>::empty());
    }
}

impl<T> StatefulList<T> {
    /// A selection, where there is one, points at an item of the list.
    pub open spec fn wf(&self) -> bool {
        self.selected_num matches Some(i) ==> i < self.items@.len()
    }

    /// The selected index, if there is one.
    pub fn get_selected_num(&self) -> (selected: Option<usize>)
        ensures
            selected == self.selected_num,
    {
        self.selected_num
    }

    /// Selects the item at `num`. The list is well formed afterwards exactly
    /// if `num` is the index of an item.
    pub fn set_selected_num(&mut self, num: usize)
        ensures
            final(self).selected_num == Some(num),
            final(self).items == old(self).items,
            final(self).wf() <==> num < old(self).items@.len(),
    {
        self.selected_num = Some(num);
    }

    /// A list of the given items with nothing selected.
    pub fn with_items(items: Vec<T>) -> (list: StatefulList<T>)
        ensures
            list.items == items,
            list.selected_num.is_none(),
            list.wf(),
    {
        StatefulList { selected_num: None, items }
    }

    /// Moves the selection one item forward, from the last item to the
    /// first. With nothing selected, selects the first item.
    pub fn next(&mut self)
        requires
            old(self).items@.len() > 0,
        ensures
            final(self).selected_num == Some(
                spec_next_index(old(self).selected_num, old(self).items@.len()) as usize,
            ),
            final(self).items == old(self).items,
            final(self).wf(),
    {
        let i: usize = match self.selected_num {
            Some(i) => {
                if i >= self.items.len() - 1 {
                    0
                } else {
                    i + 1
                }
            },
            None => 0,
        };
        self.set_selected_num(i);
    }

    /// Moves the selection one item back, from the first item to the last.
    /// With nothing selected, selects the first item.
    pub fn previous(&mut self)
        requires
            old(self).items@.len() > 0,
        ensures
            final(self).selected_num == Some(
                spec_previous_index(old(self).selected_num, old(self).items@.len()) as usize,
            ),
            final(self).items == old(self).items,
            old(self).wf() ==> final(self).wf(),
    {
        let i: usize = match self.selected_num {
            Some(i) => {
                if i == 0 {
                    self.items.len() - 1
                } else {
                    i - 1
                }
            },
            None => 0,
        };
        self.set_selected_num(i);
    }

    /// Takes the item at `index` out of the list. The selection stays as it
    /// was, so it is for the caller to point it at an item again where it
    /// pointed at the last one.
    pub fn delete(&mut self, index: usize)
        requires
            index < old(self).items@.len(),
        ensures
            final(self).items@ == old(self).items@.remove(index as int),
            final(self).selected_num == old(self).selected_num,
            final(self).wf() <==> spec_revalidated(
                old(self).selected_num,
                (old(self).items@.len() - 1) as nat,
            ) == old(self).selected_num,
    {
        self.items.remove(index);
    }

    /// Drops the selection and leaves the items as they are.
    pub fn unselect(&mut self)
        ensures
            final(self).selected_num.is_none(),
            final(self).items == old(self).items,
            final(self).wf(),
    {
        self.selected_num = None;
    }

    /// Puts other items in the place of the list's own. A selection that
    /// no longer points at an item is dropped.
    pub fn replace_items(&mut self, items: Vec<T>)
        ensures
            final(self).items == items,
            final(self).selected_num == spec_revalidated(old(self).selected_num, items@.len()),
            final(self).wf(),
    {
        self.items = items;
        self.revalidate();
    }

    /// Keeps the items whose flag is set, in their order, and drops the
    /// others; an item without a flag is dropped. A selection that no
    /// longer points at an item is dropped.
    pub fn retain_flagged(&mut self, keep: &Vec<bool>)
        ensures
            final(self).items@ == spec_retain(old(self).items@, keep@),
            final(self).selected_num == spec_revalidated(
                old(self).selected_num,
                final(self).items@.len(),
            ),
            final(self).wf(),
    {
        let ghost before = self.items@;
        let len: usize = self.items.len();
        let mut i: usize = len;
        assert(before.subrange(0, len as int) =~= before);
        while i > 0
            invariant
                i <= len,
                len == before.len(),
                self.selected_num == old(self).selected_num,
                self.items@ == before.subrange(0, i as int) + spec_retain_from(
                    before,
                    keep@,
                    i as int,
                ),
            decreases i,
        {
            i = i - 1;
            assert(before.subrange(0, i + 1) =~= before.subrange(0, i as int).push(
                before[i as int],
            ));
            if i >= keep.len() || !keep[i] {
                self.items.remove(i);
            }
            assert(self.items@ =~= before.subrange(0, i as int) + spec_retain_from(
                before,
                keep@,
                i as int,
            ));
        }
        assert(self.items@ =~= spec_retain(before, keep@));
        self.revalidate();
    }

    /// Drops a selection that points at no item.
    fn revalidate(&mut self)
        ensures
            final(self).items == old(self).items,
            final(self).selected_num == spec_revalidated(
                old(self).selected_num,
                old(self).items@.len(),
            ),
            final(self).wf(),
    {
        match self.selected_num {
            Some(i) => {
                if i >= self.items.len() {
                    self.selected_num = None;
                }
            },
            None => {},
        }
    }
}

} // verus!
