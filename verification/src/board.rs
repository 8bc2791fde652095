//! The board: an ordered sequence of items, an optional selection cursor
//! indexing the full (unfiltered) sequence, and the active column.

use vstd::prelude::*;

verus! {

/// Lifecycle state of a work item; also names the three rendered columns.
#[derive(Clone, Copy, Debug, PartialEq, Eq, Structural)]
pub enum Status {
    ToDo,
    UpNext,
    InProgress,
}

/// The forward column cycle: ToDo -> UpNext -> InProgress -> ToDo.
pub open spec fn next_status_spec(s: Status) -> Status {
    match s {
        Status::ToDo => Status::UpNext,
        Status::UpNext => Status::InProgress,
        Status::InProgress => Status::ToDo,
    }
}

/// The backward column cycle: ToDo -> InProgress -> UpNext -> ToDo.
pub open spec fn prev_status_spec(s: Status) -> Status {
    match s {
        Status::ToDo => Status::InProgress,
        Status::InProgress => Status::UpNext,
        Status::UpNext => Status::ToDo,
    }
}

pub fn next_status(s: Status) -> (r: Status)
    ensures
        r == next_status_spec(s),
{
    match s {
        Status::ToDo => Status::UpNext,
        Status::UpNext => Status::InProgress,
        Status::InProgress => Status::ToDo,
    }
}

pub fn prev_status(s: Status) -> (r: Status)
    ensures
        r == prev_status_spec(s),
{
    match s {
        Status::ToDo => Status::InProgress,
        Status::InProgress => Status::UpNext,
        Status::UpNext => Status::ToDo,
    }
}

/// Cycling forward three times is the identity, and one forward step
/// composed with one backward step (in either order) is the identity.
pub proof fn lemma_status_cycle(s: Status)
    ensures
        next_status_spec(next_status_spec(next_status_spec(s))) == s,
        prev_status_spec(next_status_spec(s)) == s,
        next_status_spec(prev_status_spec(s)) == s,
{
}

/// A work item: a label, a positive weight (how much detail the renderer
/// draws for it), and its lifecycle state.
pub struct Item {
    pub label: String,
    pub weight: usize,
    pub status: Status,
}

/// Mathematical image of an `Item`.
pub ghost struct ItemView {
    pub label: Seq<char>,
    pub weight: int,
    pub status: Status,
}

impl View for Item {
    type V = ItemView;

    open spec fn view(&self) -> ItemView {
        ItemView { label: self.label@, weight: self.weight as int, status: self.status }
    }
}

impl DeepView for Item {
    type V = ItemView;

    open spec fn deep_view(&self) -> ItemView {
        self@
    }
}

impl Clone for Item {
    fn clone(&self) -> (r: Self)
        ensures
            r == *self,
    {
        Item { label: self.label.clone(), weight: self.weight, status: self.status }
    }
}

/// Mathematical image of a `Board`.
pub ghost struct BoardView {
    pub items: Seq<ItemView>,
    pub selected: Option<int>,
    pub active_column: Status,
}

/// Where the cursor lands after one "select next" step: with no selection it
/// lands on index 0, otherwise it advances with wraparound over the full
/// sequence. On an empty sequence the step is a no-op.
pub open spec fn next_sel(sel: Option<int>, len: int) -> Option<int> {
    if len <= 0 {
        sel
    } else {
        match sel {
            None => Some(0int),
            Some(i) => if i >= len - 1 {
                Some(0int)
            } else {
                Some(i + 1)
            },
        }
    }
}

/// Where the cursor lands after one "select previous" step: the exact mirror
/// of `next_sel`.
pub open spec fn prev_sel(sel: Option<int>, len: int) -> Option<int> {
    if len <= 0 {
        sel
    } else {
        match sel {
            None => Some(0int),
            Some(i) => if i == 0 {
                Some(len - 1)
            } else {
                Some(i - 1)
            },
        }
    }
}

/// Where the cursor lands after deleting the item at `i` from a sequence that
/// had `old_len` items: the previous index, clamped at 0, or no selection
/// once the sequence is empty.
pub open spec fn delete_sel(old_len: int, i: int) -> Option<int> {
    if old_len <= 1 {
        None
    } else if i > 0 {
        Some(i - 1)
    } else {
        Some(0int)
    }
}

/// The cursor after `k` successive "select next" steps over a sequence of
/// length `len`.
pub open spec fn next_sel_iter(sel: Option<int>, len: int, k: nat) -> Option<int>
    decreases k,
{
    if k == 0 {
        sel
    } else {
        next_sel(next_sel_iter(sel, len, (k - 1) as nat), len)
    }
}

proof fn lemma_next_sel_iter_offset(i: int, len: int, k: nat)
    requires
        0 <= i < len,
        k <= len,
    ensures
        next_sel_iter(Some(i), len, k) == Some(
            if i + k < len {
                i + k
            } else {
                i + k - len
            },
        ),
    decreases k,
{
    if k > 0 {
        lemma_next_sel_iter_offset(i, len, (k - 1) as nat);
    }
}

/// The cursor steps form a cycle of order `len`: from any selected index,
/// applying "select next" exactly `len` times returns the cursor to where it
/// started.
pub proof fn lemma_select_next_cycle(sel: Option<int>, len: int)
    requires
        0 < len,
        sel matches Some(i) && 0 <= i < len,
    ensures
        next_sel_iter(sel, len, len as nat) == sel,
{
    lemma_next_sel_iter_offset(sel->Some_0, len, len as nat);
}

/// "Select previous" is the exact inverse of "select next": from any state
/// with a selection, applying one after the other (in either order) restores
/// the prior cursor.
pub proof fn lemma_select_prev_inverts_next(sel: Option<int>, len: int)
    requires
        0 < len,
        sel matches Some(i) && 0 <= i < len,
    ensures
        prev_sel(next_sel(sel, len), len) == sel,
        next_sel(prev_sel(sel, len), len) == sel,
{
}

/// Deleting the selected item re-selects the previous index, clamped at 0,
/// and clears the selection exactly when the sequence becomes empty.
pub proof fn lemma_delete_reselects(len: int, i: int)
    requires
        0 <= i < len,
    ensures
        len == 1 ==> delete_sel(len, i) is None,
        i > 0 ==> delete_sel(len, i) == Some(i - 1),
        len > 1 && i == 0 ==> delete_sel(len, i) == Some(0int),
{
}

/// The fixed set of items every fresh board starts from: ten ToDo, eleven
/// InProgress and three UpNext items, in this order.
pub open spec fn seed_items() -> Seq<ItemView> {
    seq![
        ItemView { label: "Item0"@, weight: 1, status: Status::ToDo },
        ItemView { label: "Item1"@, weight: 2, status: Status::ToDo },
        ItemView { label: "Item2"@, weight: 1, status: Status::ToDo },
        ItemView { label: "Item3"@, weight: 3, status: Status::ToDo },
        ItemView { label: "Item4"@, weight: 1, status: Status::ToDo },
        ItemView { label: "Item5"@, weight: 4, status: Status::ToDo },
        ItemView { label: "Item6"@, weight: 1, status: Status::ToDo },
        ItemView { label: "Item7"@, weight: 3, status: Status::ToDo },
        ItemView { label: "Item8"@, weight: 1, status: Status::ToDo },
        ItemView { label: "Item9"@, weight: 6, status: Status::ToDo },
        ItemView { label: "Item10"@, weight: 1, status: Status::InProgress },
        ItemView { label: "Item11"@, weight: 3, status: Status::InProgress },
        ItemView { label: "Item12"@, weight: 1, status: Status::InProgress },
        ItemView { label: "Item13"@, weight: 2, status: Status::InProgress },
        ItemView { label: "Item14"@, weight: 1, status: Status::InProgress },
        ItemView { label: "Item15"@, weight: 1, status: Status::InProgress },
        ItemView { label: "Item16"@, weight: 4, status: Status::InProgress },
        ItemView { label: "Item17"@, weight: 1, status: Status::InProgress },
        ItemView { label: "Item18"@, weight: 5, status: Status::InProgress },
        ItemView { label: "Item19"@, weight: 4, status: Status::InProgress },
        ItemView { label: "Item20"@, weight: 1, status: Status::InProgress },
        ItemView { label: "Item21"@, weight: 2, status: Status::UpNext },
        ItemView { label: "Item22"@, weight: 1, status: Status::UpNext },
        ItemView { label: "Item23"@, weight: 3, status: Status::UpNext },
    ]
}

/// The board: one ordered backing sequence of items (the columns are filtered
/// views of it, not containers), a cursor into that full sequence, and the
/// active column.
pub struct Board {
    items: Vec<Item>,
    selected: Option<usize>,
    active_column: Status,
}

impl View for Board {
    type V = BoardView;

    closed spec fn view(&self) -> BoardView {
        BoardView {
            items: self.items.deep_view(),
            selected: match self.selected {
                Some(i) => Some(i as int),
                None => None,
            },
            active_column: self.active_column,
        }
    }
}

impl Board {
    /// Well-formedness: the cursor, when present, is in bounds of the full
    /// backing sequence, and every weight is positive.
    pub open spec fn wf(&self) -> bool {
        &&& match self@.selected {
            Some(i) => 0 <= i < self@.items.len(),
            None => true,
        }
        &&& forall|j: int| 0 <= j < self@.items.len() ==> #[trigger] self@.items[j].weight >= 1
    }

    /// A fresh board holding the seed item set: no selection, active column
    /// ToDo.
    pub fn new() -> (r: Board)
        ensures
            r.wf(),
            r@.items == seed_items(),
            r@.selected is None,
            r@.active_column == Status::ToDo,
    {
        let mut items: Vec<Item> = Vec::new();
        items.push(Item { label: "Item0".to_owned(), weight: 1, status: Status::ToDo });
        items.push(Item { label: "Item1".to_owned(), weight: 2, status: Status::ToDo });
        items.push(Item { label: "Item2".to_owned(), weight: 1, status: Status::ToDo });
        items.push(Item { label: "Item3".to_owned(), weight: 3, status: Status::ToDo });
        items.push(Item { label: "Item4".to_owned(), weight: 1, status: Status::ToDo });
        items.push(Item { label: "Item5".to_owned(), weight: 4, status: Status::ToDo });
        items.push(Item { label: "Item6".to_owned(), weight: 1, status: Status::ToDo });
        items.push(Item { label: "Item7".to_owned(), weight: 3, status: Status::ToDo });
        items.push(Item { label: "Item8".to_owned(), weight: 1, status: Status::ToDo });
        items.push(Item { label: "Item9".to_owned(), weight: 6, status: Status::ToDo });
        items.push(Item { label: "Item10".to_owned(), weight: 1, status: Status::InProgress });
        items.push(Item { label: "Item11".to_owned(), weight: 3, status: Status::InProgress });
        items.push(Item { label: "Item12".to_owned(), weight: 1, status: Status::InProgress });
        items.push(Item { label: "Item13".to_owned(), weight: 2, status: Status::InProgress });
        items.push(Item { label: "Item14".to_owned(), weight: 1, status: Status::InProgress });
        items.push(Item { label: "Item15".to_owned(), weight: 1, status: Status::InProgress });
        items.push(Item { label: "Item16".to_owned(), weight: 4, status: Status::InProgress });
        items.push(Item { label: "Item17".to_owned(), weight: 1, status: Status::InProgress });
        items.push(Item { label: "Item18".to_owned(), weight: 5, status: Status::InProgress });
        items.push(Item { label: "Item19".to_owned(), weight: 4, status: Status::InProgress });
        items.push(Item { label: "Item20".to_owned(), weight: 1, status: Status::InProgress });
        items.push(Item { label: "Item21".to_owned(), weight: 2, status: Status::UpNext });
        items.push(Item { label: "Item22".to_owned(), weight: 1, status: Status::UpNext });
        items.push(Item { label: "Item23".to_owned(), weight: 3, status: Status::UpNext });
        proof {
            assert(items.deep_view() =~= seed_items());
        }
        Board { items, selected: None, active_column: Status::ToDo }
    }

    /// A fresh board over the given items: no selection, active column ToDo.
    pub fn with_items(items: Vec<Item>) -> (r: Board)
        requires
            forall|j: int| 0 <= j < items.deep_view().len() ==> #[trigger] items.deep_view()[j].weight >= 1,
        ensures
            r.wf(),
            r@.items == items.deep_view(),
            r@.selected is None,
            r@.active_column == Status::ToDo,
    {
        Board { items, selected: None, active_column: Status::ToDo }
    }

    /// Move the cursor one step forward with wraparound; selects index 0 when
    /// nothing was selected; no-op on an empty board.
    pub fn select_next(&mut self)
        requires
            old(self).wf(),
        ensures
            final(self).wf(),
            final(self)@.items == old(self)@.items,
            final(self)@.active_column == old(self)@.active_column,
            final(self)@.selected == next_sel(old(self)@.selected, old(self)@.items.len() as int),
    {
        if self.items.len() == 0 {
            return;
        }
        let i: usize = match self.selected {
            Some(i) => if i >= self.items.len() - 1 {
                0
            } else {
                i + 1
            },
            None => 0,
        };
        self.selected = Some(i);
    }

    /// Move the cursor one step backward with wraparound; selects index 0
    /// when nothing was selected; no-op on an empty board.
    pub fn select_previous(&mut self)
        requires
            old(self).wf(),
        ensures
            final(self).wf(),
            final(self)@.items == old(self)@.items,
            final(self)@.active_column == old(self)@.active_column,
            final(self)@.selected == prev_sel(old(self)@.selected, old(self)@.items.len() as int),
    {
        if self.items.len() == 0 {
            return;
        }
        let i: usize = match self.selected {
            Some(i) => if i == 0 {
                self.items.len() - 1
            } else {
                i - 1
            },
            None => 0,
        };
        self.selected = Some(i);
    }

    /// Clear the selection. Idempotent.
    pub fn unselect(&mut self)
        requires
            old(self).wf(),
        ensures
            final(self).wf(),
            final(self)@.items == old(self)@.items,
            final(self)@.active_column == old(self)@.active_column,
            final(self)@.selected is None,
    {
        self.selected = None;
    }

    /// Remove the selected item from the backing sequence (permanently), then
    /// re-select the previous index clamped at 0, or clear the selection if
    /// the sequence became empty. No-op when nothing is selected.
    pub fn delete_selected(&mut self)
        requires
            old(self).wf(),
        ensures
            final(self).wf(),
            final(self)@.active_column == old(self)@.active_column,
            match old(self)@.selected {
                None => final(self)@ == old(self)@,
                Some(i) => {
                    &&& final(self)@.items == old(self)@.items.remove(i)
                    &&& final(self)@.selected == delete_sel(old(self)@.items.len() as int, i)
                },
            },
    {
        if let Some(i) = self.selected {
            self.items.remove(i);
            proof {
                assert(self.items.deep_view() =~= old(self).items.deep_view().remove(i as int));
            }
            if self.items.len() == 0 {
                self.selected = None;
            } else if i > 0 {
                self.selected = Some(i - 1);
            } else {
                self.selected = Some(0);
            }
        }
    }

    /// Move the active column one step forward in the cycle.
    pub fn cycle_active_column_forward(&mut self)
        requires
            old(self).wf(),
        ensures
            final(self).wf(),
            final(self)@.items == old(self)@.items,
            final(self)@.selected == old(self)@.selected,
            final(self)@.active_column == next_status_spec(old(self)@.active_column),
    {
        self.active_column = next_status(self.active_column);
    }

    /// The items of one rendered column: the full backing sequence filtered
    /// by status, in backing order. Recomputed per draw; the cursor still
    /// addresses the full sequence, not this filtered view.
    #[verifier::loop_isolation(false)]
    pub fn column_items(&self, status: Status) -> (r: Vec<Item>)
        ensures
            r.deep_view() == self@.items.filter(|iv: ItemView| iv.status == status),
    {
        let ghost pred = |iv: ItemView| iv.status == status;
        let mut r: Vec<Item> = Vec::new();
        let mut k: usize = 0;
        proof {
            reveal(Seq::filter);
            assert(r.deep_view() =~= self@.items.subrange(0, 0).filter(pred));
        }
        while k < self.items.len()
            invariant
                k <= self.items.len(),
                r.deep_view() == self@.items.subrange(0, k as int).filter(pred),
            decreases self.items.len() - k,
        {
            let ghost prev = r.deep_view();
            proof {
                let prefix = self@.items.subrange(0, k as int);
                assert(self@.items.subrange(0, k + 1) =~= prefix.push(self@.items[k as int]));
                prefix.lemma_filter_push(self@.items[k as int], pred);
            }
            if self.items[k].status == status {
                r.push(self.items[k].clone());
                proof {
                    assert(r.deep_view() =~= prev.push(self@.items[k as int]));
                }
            }
            k = k + 1;
        }
        proof {
            assert(self@.items.subrange(0, self@.items.len() as int) =~= self@.items);
        }
        r
    }

    /// How many items the backing sequence holds.
    pub fn items_len(&self) -> (r: usize)
        ensures
            r == self@.items.len(),
    {
        self.items.len()
    }

    /// The current cursor, as an index into the full backing sequence.
    pub fn selected(&self) -> (r: Option<usize>)
        ensures
            match r {
                Some(i) => self@.selected == Some(i as int),
                None => self@.selected is None,
            },
    {
        self.selected
    }

    /// The currently emphasized column.
    pub fn active_column(&self) -> (r: Status)
        ensures
            r == self@.active_column,
    {
        self.active_column
    }

    /// Read access to the full backing sequence.
    pub fn items(&self) -> (r: &Vec<Item>)
        ensures
            r.deep_view() == self@.items,
    {
        &self.items
    }

    /// Move the active column one step backward in the cycle.
    pub fn cycle_active_column_backward(&mut self)
        requires
            old(self).wf(),
        ensures
            final(self).wf(),
            final(self)@.items == old(self)@.items,
            final(self)@.selected == old(self)@.selected,
            final(self)@.active_column == prev_status_spec(old(self)@.active_column),
    {
        self.active_column = prev_status(self.active_column);
    }
}

} // verus!
