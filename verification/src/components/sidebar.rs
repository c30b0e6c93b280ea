//! The seat panel: the primary and secondary seats, which one is selected,
//! and what happens when a seat is selected, deleted or the list refreshed.
use vstd::prelude::*;

use crate::components::list_item::{
    broadcast_selection, item_for, items_view, rows_for, rows_with_selection, ListItemModel,
    ListItemView,
};
use crate::utils::{Seat, SeatVariant};
use crate::DEFAULT_SEAT;

verus! {

/// What the seat panel is told.
pub enum SidebarInput {
    SelectSeat(String, SeatVariant),
    DeleteSeat(String),
    RefreshSeats,
    ResetToDefault,
    OpenIdentifyDialog,
}

/// What the seat panel tells the window.
pub enum SidebarOutput {
    SelectSeat(String),
    OpenIdentifyDialog,
    SeatDeleted(bool, String),
}

/// What the seat panel asks its surroundings to do.
pub enum SidebarEffect {
    /// Tell the window.
    Output(SidebarOutput),
    /// Delete this seat by moving its devices to the default seat, then
    /// report the outcome with `seat_deleted`.
    DeleteSeat(String),
    /// List the seats again and hand them to `seats_listed`.
    ListSeats,
    /// Give logind this many milliseconds to settle.
    Wait(u64),
    /// Send `RefreshSeats` to the panel itself.
    RefreshSeats,
}

/// The contents of an effect.
pub enum SidebarEffectView {
    SelectSeat(Seq<char>),
    OpenIdentifyDialog,
    SeatDeleted(bool, Seq<char>),
    DeleteSeat(Seq<char>),
    ListSeats,
    Wait(u64),
    RefreshSeats,
}

impl View for SidebarEffect {
    type V = SidebarEffectView;

    open spec fn view(&self) -> SidebarEffectView {
        match self {
            SidebarEffect::Output(SidebarOutput::SelectSeat(s)) => SidebarEffectView::SelectSeat(s@),
            SidebarEffect::Output(SidebarOutput::OpenIdentifyDialog) => SidebarEffectView::OpenIdentifyDialog,
            SidebarEffect::Output(SidebarOutput::SeatDeleted(ok, s)) => SidebarEffectView::SeatDeleted(*ok, s@),
            SidebarEffect::DeleteSeat(s) => SidebarEffectView::DeleteSeat(s@),
            SidebarEffect::ListSeats => SidebarEffectView::ListSeats,
            SidebarEffect::Wait(ms) => SidebarEffectView::Wait(*ms),
            SidebarEffect::RefreshSeats => SidebarEffectView::RefreshSeats,
        }
    }
}

/// The contents of a list of effects.
pub open spec fn sidebar_effects_view(effects: Seq<SidebarEffect>) -> Seq<SidebarEffectView> {
    effects.map_values(|e: SidebarEffect| e@)
}

/// The seat panel.
pub struct SidebarModel {
    pub selected_seat_id: String,
    pub has_secondary_seats: bool,
    pub primary_seats: Vec<ListItemModel>,
    pub secondary_seats: Vec<ListItemModel>,
}

/// The contents of the seat panel.
pub struct SidebarView {
    pub selected_seat_id: Seq<char>,
    pub has_secondary_seats: bool,
    pub primary_seats: Seq<ListItemView>,
    pub secondary_seats: Seq<ListItemView>,
}

impl View for SidebarModel {
    type V = SidebarView;

    open spec fn view(&self) -> SidebarView {
        SidebarView {
            selected_seat_id: self.selected_seat_id@,
            has_secondary_seats: self.has_secondary_seats,
            primary_seats: items_view(self.primary_seats@),
            secondary_seats: items_view(self.secondary_seats@),
        }
    }
}

/// The panel with `seat` selected: every row is told the selection.
pub open spec fn select(panel: SidebarView, seat: Seq<char>) -> SidebarView {
    SidebarView {
        selected_seat_id: seat,
        primary_seats: rows_with_selection(panel.primary_seats, seat),
        secondary_seats: rows_with_selection(panel.secondary_seats, seat),
        ..panel
    }
}

/// How the panel answers a message: its next contents and the effects.
pub open spec fn sidebar_step(panel: SidebarView, msg: SidebarInput) -> (SidebarView, Seq<SidebarEffectView>) {
    match msg {
        SidebarInput::SelectSeat(target, _) => (
            select(panel, target@),
            seq![SidebarEffectView::SelectSeat(target@)],
        ),
        SidebarInput::DeleteSeat(id) => (panel, seq![SidebarEffectView::DeleteSeat(id@)]),
        SidebarInput::RefreshSeats => (panel, seq![SidebarEffectView::ListSeats]),
        SidebarInput::ResetToDefault => (
            select(panel, DEFAULT_SEAT@),
            seq![
                SidebarEffectView::SelectSeat(DEFAULT_SEAT@),
                SidebarEffectView::Wait(100),
                SidebarEffectView::RefreshSeats,
            ],
        ),
        SidebarInput::OpenIdentifyDialog => (panel, seq![SidebarEffectView::OpenIdentifyDialog]),
    }
}

/// How the panel answers the outcome of deleting a seat: the outcome is
/// reported; on success the default seat is selected and the seats are
/// listed again, on failure nothing else changes.
pub open spec fn deleted_step(panel: SidebarView, success: bool, id: Seq<char>) -> (SidebarView, Seq<SidebarEffectView>) {
    if success {
        (
            select(panel, DEFAULT_SEAT@),
            seq![
                SidebarEffectView::SeatDeleted(true, id),
                SidebarEffectView::SelectSeat(DEFAULT_SEAT@),
                SidebarEffectView::RefreshSeats,
            ],
        )
    } else {
        (panel, seq![SidebarEffectView::SeatDeleted(false, id)])
    }
}

/// The panel after the seats were listed again: the secondary rows are
/// rebuilt from the secondary seats, and there are secondary seats when
/// more than one seat is listed. The primary rows stay as they are.
pub open spec fn listed_step(panel: SidebarView, seats: Seq<Seat>) -> SidebarView {
    SidebarView {
        has_secondary_seats: seats.len() > 1,
        secondary_seats: seats.filter(|s: Seat| s.variant == SeatVariant::Secondary).map_values(
            |s: Seat| item_for(s),
        ),
        ..panel
    }
}

/// Splits seats by kind, moving them.
fn split_by_variant(seats: Vec<Seat>) -> (r: (Vec<Seat>, Vec<Seat>))
    ensures
        r.0@ == seats@.filter(|s: Seat| s.variant == SeatVariant::Primary),
        r.1@ == seats@.filter(|s: Seat| s.variant == SeatVariant::Secondary),
{
    let ghost all = seats@;
    let total = seats.len();
    let mut rest = seats;
    let mut primary: Vec<Seat> = Vec::new();
    let mut secondary: Vec<Seat> = Vec::new();
    let mut k: usize = 0;
    while rest.len() > 0
        invariant
            k + rest@.len() == all.len(),
            total == all.len(),
            rest@ == all.subrange(k as int, all.len() as int),
            primary@ == all.subrange(0, k as int).filter(|s: Seat| s.variant == SeatVariant::Primary),
            secondary@ == all.subrange(0, k as int).filter(
                |s: Seat| s.variant == SeatVariant::Secondary,
            ),
        decreases rest.len(),
    {
        let seat = rest.remove(0);
        proof {
            reveal(Seq::filter);
            assert(all.subrange(0, k + 1).drop_last() =~= all.subrange(0, k as int));
            assert(all.subrange(0, k + 1).last() == seat);
        }
        match seat.variant {
            SeatVariant::Primary => primary.push(seat),
            SeatVariant::Secondary => secondary.push(seat),
        }
        k = k + 1;
        assert(rest@ =~= all.subrange(k as int, all.len() as int));
    }
    assert(all.subrange(0, k as int) =~= all);
    (primary, secondary)
}

impl SidebarModel {
    /// The panel for the listed seats, with the default seat selected.
    pub fn init(seats: Vec<Seat>) -> (r: SidebarModel)
        ensures
            r@.selected_seat_id == DEFAULT_SEAT@,
            r@.has_secondary_seats == (seats@.len() > 1),
            r@.primary_seats == seats@.filter(|s: Seat| s.variant == SeatVariant::Primary).map_values(
                |s: Seat| item_for(s),
            ),
            r@.secondary_seats == seats@.filter(
                |s: Seat| s.variant == SeatVariant::Secondary,
            ).map_values(|s: Seat| item_for(s)),
    {
        let has_secondary_seats = seats.len() > 1;
        let (primary, secondary) = split_by_variant(seats);
        SidebarModel {
            selected_seat_id: DEFAULT_SEAT.to_owned(),
            has_secondary_seats,
            primary_seats: rows_for(primary),
            secondary_seats: rows_for(secondary),
        }
    }

    /// Selects a seat in the panel and in each of its rows.
    fn select_seat(&mut self, seat: &str)
        ensures
            final(self)@ == select(old(self)@, seat@),
    {
        self.selected_seat_id = seat.to_owned();
        broadcast_selection(&mut self.primary_seats, seat);
        broadcast_selection(&mut self.secondary_seats, seat);
    }

    /// Answers a message.
    pub fn update(&mut self, msg: SidebarInput) -> (r: Vec<SidebarEffect>)
        ensures
            (final(self)@, sidebar_effects_view(r@)) == sidebar_step(old(self)@, msg),
    {
        let ghost before = self@;
        let ghost m = msg;
        let mut effects: Vec<SidebarEffect> = Vec::new();
        match msg {
            SidebarInput::SelectSeat(target_seat, _seat_variant) => {
                self.select_seat(target_seat.as_str());
                effects.push(SidebarEffect::Output(SidebarOutput::SelectSeat(target_seat)));
            },
            SidebarInput::DeleteSeat(seat_id) => {
                effects.push(SidebarEffect::DeleteSeat(seat_id));
            },
            SidebarInput::RefreshSeats => {
                effects.push(SidebarEffect::ListSeats);
            },
            SidebarInput::ResetToDefault => {
                self.select_seat(DEFAULT_SEAT);
                effects.push(
                    SidebarEffect::Output(SidebarOutput::SelectSeat(DEFAULT_SEAT.to_owned())),
                );
                effects.push(SidebarEffect::Wait(100));
                effects.push(SidebarEffect::RefreshSeats);
            },
            SidebarInput::OpenIdentifyDialog => {
                effects.push(SidebarEffect::Output(SidebarOutput::OpenIdentifyDialog));
            },
        }
        assert(sidebar_effects_view(effects@) =~= sidebar_step(before, m).1);
        effects
    }

    /// Answers the outcome of deleting a seat.
    pub fn seat_deleted(&mut self, success: bool, seat_id: String) -> (r: Vec<SidebarEffect>)
        ensures
            (final(self)@, sidebar_effects_view(r@)) == deleted_step(old(self)@, success, seat_id@),
    {
        let ghost before = self@;
        let ghost id = seat_id@;
        let mut effects: Vec<SidebarEffect> = Vec::new();
        effects.push(SidebarEffect::Output(SidebarOutput::SeatDeleted(success, seat_id)));
        if success {
            self.select_seat(DEFAULT_SEAT);
            effects.push(SidebarEffect::Output(SidebarOutput::SelectSeat(DEFAULT_SEAT.to_owned())));
            effects.push(SidebarEffect::RefreshSeats);
        }
        assert(sidebar_effects_view(effects@) =~= deleted_step(before, success, id).1);
        effects
    }

    /// Rebuilds the secondary rows from the seats that were listed again.
    pub fn seats_listed(&mut self, seats: Vec<Seat>)
        ensures
            final(self)@ == listed_step(old(self)@, seats@),
    {
        self.has_secondary_seats = seats.len() > 1;
        let (_primary, secondary) = split_by_variant(seats);
        self.secondary_seats = rows_for(secondary);
    }
}

/// Whatever the panel is told, every seat it reports to the window as
/// selected is the seat it now has selected, and whenever its selection
/// changes it reports the new one; resetting selects `seat0`.
pub proof fn lemma_reported_selection_is_the_panels(panel: SidebarView, msg: SidebarInput)
    ensures
        ({
            let (next, effects) = sidebar_step(panel, msg);
            &&& forall|i: int|
                0 <= i < effects.len() ==> ((#[trigger] effects[i]) matches SidebarEffectView::SelectSeat(s)
                    ==> s == next.selected_seat_id)
            &&& next.selected_seat_id != panel.selected_seat_id ==> effects.contains(
                SidebarEffectView::SelectSeat(next.selected_seat_id),
            )
        }),
        msg is ResetToDefault ==> sidebar_step(panel, msg).0.selected_seat_id == "seat0"@,
        msg matches SidebarInput::SelectSeat(t, _) ==> sidebar_step(panel, msg).0.selected_seat_id
            == t@,
{
    let (next, effects) = sidebar_step(panel, msg);
    assert(effects.len() > 0 ==> effects[0] == effects[0]);
    match msg {
        SidebarInput::SelectSeat(t, _) => {
            assert(effects[0] == SidebarEffectView::SelectSeat(t@));
        },
        SidebarInput::ResetToDefault => {
            assert(effects[0] == SidebarEffectView::SelectSeat(next.selected_seat_id));
        },
        _ => {},
    }
}

/// After a deletion, every seat reported as selected is the panel's
/// selected seat, which a successful deletion makes `seat0`.
pub proof fn lemma_deletion_reports_the_panels_selection(panel: SidebarView, success: bool, id: Seq<char>)
    ensures
        ({
            let (next, effects) = deleted_step(panel, success, id);
            &&& forall|i: int|
                0 <= i < effects.len() ==> ((#[trigger] effects[i]) matches SidebarEffectView::SelectSeat(s)
                    ==> s == next.selected_seat_id)
            &&& next.selected_seat_id != panel.selected_seat_id ==> effects.contains(
                SidebarEffectView::SelectSeat(next.selected_seat_id),
            )
            &&& success ==> next.selected_seat_id == "seat0"@
        }),
{
    let (next, effects) = deleted_step(panel, success, id);
    if success {
        assert(effects[1] == SidebarEffectView::SelectSeat(next.selected_seat_id));
    }
}

/// After a seat is selected, exactly the rows of that seat are marked as
/// selected, in both lists.
pub proof fn lemma_selection_marks_only_that_seat(panel: SidebarView, target: String, v: SeatVariant)
    ensures
        ({
            let next = sidebar_step(panel, SidebarInput::SelectSeat(target, v)).0;
            &&& next.selected_seat_id == target@
            &&& forall|i: int|
                0 <= i < next.primary_seats.len() ==> (#[trigger] next.primary_seats[i]).is_selected
                    == (next.primary_seats[i].id == target@)
            &&& forall|i: int|
                0 <= i < next.secondary_seats.len() ==> (
                #[trigger] next.secondary_seats[i]).is_selected == (next.secondary_seats[i].id
                    == target@)
        }),
{
}

/// A failed deletion leaves the panel as it was; a successful one selects
/// the default seat.
pub proof fn lemma_failed_delete_changes_nothing(panel: SidebarView, id: Seq<char>)
    ensures
        deleted_step(panel, false, id).0 == panel,
        deleted_step(panel, true, id).0.selected_seat_id == DEFAULT_SEAT@,
{
}

} // verus!
