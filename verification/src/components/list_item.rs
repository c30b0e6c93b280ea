//! One seat in the seat panel: it knows whether it is the selected seat, and
//! secondary seats offer to be deleted.
use vstd::prelude::*;

use crate::text::text_eq;
use crate::utils::{Seat, SeatVariant};

verus! {

/// A seat row of the seat panel.
pub struct ListItemModel {
    pub seat: Seat,
    pub is_selected: bool,
}

/// What a seat row is told: which seat is now selected.
pub enum ListItemInput {
    UpdateSelection(String),
}

/// What a seat row reports: it was clicked, or its deletion was confirmed.
pub enum ListItemOutput {
    SelectSeat(String, SeatVariant),
    DeleteSeat(String),
}

/// The contents of a seat row.
pub struct ListItemView {
    pub id: Seq<char>,
    pub path: Seq<char>,
    pub name: Seq<char>,
    pub variant: SeatVariant,
    pub is_selected: bool,
}

impl View for ListItemModel {
    type V = ListItemView;

    open spec fn view(&self) -> ListItemView {
        ListItemView {
            id: self.seat.path.id@,
            path: self.seat.path.path@,
            name: self.seat.name@,
            variant: self.seat.variant,
            is_selected: self.is_selected,
        }
    }
}

/// The contents of a list of seat rows.
pub open spec fn items_view(items: Seq<ListItemModel>) -> Seq<ListItemView> {
    items.map_values(|i: ListItemModel| i@)
}

/// The row for a seat, selected when it is `seat0`.
pub open spec fn item_for(seat: Seat) -> ListItemView {
    ListItemView {
        id: seat.path.id@,
        path: seat.path.path@,
        name: seat.name@,
        variant: seat.variant,
        is_selected: seat.path.id@ == "seat0"@,
    }
}

/// A row after being told that `selected` is the selected seat.
pub open spec fn with_selection(item: ListItemView, selected: Seq<char>) -> ListItemView {
    ListItemView { is_selected: item.id == selected, ..item }
}

/// Rows after being told that `selected` is the selected seat.
pub open spec fn rows_with_selection(items: Seq<ListItemView>, selected: Seq<char>) -> Seq<ListItemView> {
    items.map_values(|i: ListItemView| with_selection(i, selected))
}

impl ListItemModel {
    /// The row for a seat; `seat0` starts out selected.
    pub fn new(seat: Seat) -> (r: ListItemModel)
        ensures
            r@ == item_for(seat),
    {
        let is_selected = text_eq(seat.path.id(), "seat0");
        ListItemModel { seat, is_selected }
    }

    /// Takes note of the selected seat.
    pub fn update(&mut self, msg: ListItemInput)
        ensures
            final(self)@ == with_selection(old(self)@, match msg {
                ListItemInput::UpdateSelection(id) => id@,
            }),
    {
        match msg {
            ListItemInput::UpdateSelection(selected_id) => {
                self.is_selected = text_eq(self.seat.path.id(), selected_id.as_str());
            },
        }
    }

    /// What the row reports when clicked: its seat and kind.
    pub fn clicked(&self) -> (r: ListItemOutput)
        ensures
            r matches ListItemOutput::SelectSeat(id, v) && id@ == self.seat.path.id@ && v
                == self.seat.variant,
    {
        ListItemOutput::SelectSeat(self.seat.path.id.clone(), self.seat.variant)
    }

    /// Only secondary seats can be deleted from their row.
    pub fn has_delete_menu(&self) -> (r: bool)
        ensures
            r == (self.seat.variant == SeatVariant::Secondary),
    {
        match self.seat.variant {
            SeatVariant::Secondary => true,
            SeatVariant::Primary => false,
        }
    }

    /// What the row reports once deleting its seat is confirmed; primary
    /// seats have no delete menu and report nothing.
    pub fn delete_confirmed(&self) -> (r: Option<ListItemOutput>)
        ensures
            self.seat.variant == SeatVariant::Secondary ==> (r matches Some(
                ListItemOutput::DeleteSeat(id),
            ) && id@ == self.seat.path.id@),
            self.seat.variant == SeatVariant::Primary ==> r is None,
    {
        if self.has_delete_menu() {
            Some(ListItemOutput::DeleteSeat(self.seat.path.id.clone()))
        } else {
            None
        }
    }
}

/// Tells every row which seat is selected.
pub fn broadcast_selection(items: &mut Vec<ListItemModel>, selected: &str)
    ensures
        items_view(final(items)@) == rows_with_selection(items_view(old(items)@), selected@),
{
    let ghost before = items_view(items@);
    let n = items.len();
    let mut i: usize = 0;
    while i < n
        invariant
            n == items@.len(),
            i <= n,
            before.len() == n,
            forall|j: int| 0 <= j < i ==> #[trigger] items@[j]@ == with_selection(before[j], selected@),
            forall|j: int| i <= j < n ==> #[trigger] items@[j]@ == before[j],
        decreases n - i,
    {
        let is_selected = text_eq(items[i].seat.path.id(), selected);
        let ghost prev = items@;
        let mut item = items.remove(i);
        item.is_selected = is_selected;
        items.insert(i, item);
        assert(items@ =~= prev.update(i as int, item));
        assert(prev[i as int]@ == before[i as int]);
        assert(item.seat == prev[i as int].seat);
        assert(is_selected == (item.seat.path.id@ == selected@));
        assert(item@ == with_selection(before[i as int], selected@));
        assert(items@[i as int]@ == with_selection(before[i as int], selected@));
        i = i + 1;
    }
    assert(items_view(items@) =~= rows_with_selection(before, selected@));
}

/// Makes a row for each seat, in order.
pub fn rows_for(seats: Vec<Seat>) -> (r: Vec<ListItemModel>)
    ensures
        items_view(r@) == seats@.map_values(|s: Seat| item_for(s)),
{
    let ghost all = seats@;
    let total = seats.len();
    let mut rest = seats;
    let mut rows: Vec<ListItemModel> = Vec::new();
    let mut k: usize = 0;
    while rest.len() > 0
        invariant
            k + rest@.len() == all.len(),
            total == all.len(),
            rows@.len() == k,
            rest@ == all.subrange(k as int, all.len() as int),
            items_view(rows@) == all.subrange(0, k as int).map_values(|s: Seat| item_for(s)),
        decreases rest.len(),
    {
        let seat = rest.remove(0);
        assert(seat == all[k as int]);
        let ghost prev = rows@;
        let ghost prev_view = items_view(rows@);
        let row = ListItemModel::new(seat);
        assert(row@ == item_for(all[k as int]));
        rows.push(row);
        assert forall|j: int| 0 <= j < k + 1 implies #[trigger] items_view(rows@)[j] == all.subrange(
            0,
            k + 1,
        ).map_values(|s: Seat| item_for(s))[j] by {
            if j < k {
                assert(rows@[j] == prev[j]);
                assert(prev_view[j] == all.subrange(0, k as int).map_values(|s: Seat| item_for(s))[j]);
            }
        }
        assert(items_view(rows@) =~= all.subrange(0, k + 1).map_values(|s: Seat| item_for(s)));
        k = k + 1;
        assert(rest@ =~= all.subrange(k as int, all.len() as int));
    }
    assert(all.subrange(0, k as int) =~= all);
    rows
}

} // verus!
