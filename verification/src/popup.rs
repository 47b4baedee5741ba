//! The popup ledger: which popups and menus are mapped, as far as their
//! creates and closes tell, and which surface requests may pass.
//!
//! The tooltip and a dropdown menu are children of the same popup, and only
//! the topmost child may be destroyed. So while a menu is believed to be
//! mapped no tooltip request passes, and the tooltip is destroyed before a
//! menu is created and after it is destroyed. Destroying a tooltip that is
//! not mapped does nothing.

use vstd::prelude::*;
use crate::effect::{Effect, SurfaceAction, Task, TaskView, TOOLTIP_ID};

verus! {

/// A popup of ours whose destroy was requested and whose close is still
/// outstanding.
#[derive(Clone, Copy, Debug, PartialEq, Eq, Structural)]
pub struct ClosingPopup {
    /// The popup's own id, the only thing that settles this entry.
    pub id: u64,
    /// Menu closes the session this popup ended still owes. They are
    /// anonymous, and die with this entry: a teardown announces every child
    /// before the popup itself, so what is still owed by then never existed.
    pub menus_owed: u32,
}

/// The popup ledger.
#[derive(Clone, Debug, PartialEq, Eq)]
pub struct PopupLedger {
    /// The open popup's id.
    pub popup: Option<u64>,
    /// How many dropdown menus are believed to be mapped. A menu's id is
    /// never visible here, so creates and closes are paired by counting; the
    /// count is biased towards "open", since a spurious zero would let a
    /// tooltip arm beside a mapped menu.
    pub dropdowns_open: u32,
    /// Menu closes still owed by a session that a compositor dismissal ended.
    /// They are discarded when the next popup is adopted.
    pub stale_menu_closes: u32,
    /// Our own popups whose destroy was requested and not announced yet.
    pub closing_popups: Vec<ClosingPopup>,
}

/// The popup ledger with its entries as a sequence.
pub struct PopupView {
    pub popup: Option<u64>,
    pub dropdowns_open: u32,
    pub stale_menu_closes: u32,
    pub closing_popups: Seq<ClosingPopup>,
}

impl View for PopupLedger {
    type V = PopupView;

    open spec fn view(&self) -> PopupView {
        PopupView {
            popup: self.popup,
            dropdowns_open: self.dropdowns_open,
            stale_menu_closes: self.stale_menu_closes,
            closing_popups: self.closing_popups@,
        }
    }
}

impl Default for PopupLedger {
    fn default() -> (ledger: PopupLedger)
        ensures
            ledger@ == (PopupView {
                popup: None,
                dropdowns_open: 0,
                stale_menu_closes: 0,
                closing_popups: Seq::empty(),
            }),
    {
        PopupLedger {
            popup: None,
            dropdowns_open: 0,
            stale_menu_closes: 0,
            closing_popups: Vec::new(),
        }
    }
}

/// The first place from `from` on that holds the popup `id`, or the end.
pub open spec fn place_of(closing: Seq<ClosingPopup>, id: u64, from: int) -> int
    decreases closing.len() - from,
{
    if from >= closing.len() {
        closing.len() as int
    } else if closing[from].id == id {
        from
    } else {
        place_of(closing, id, from + 1)
    }
}

/// The first place from `from` on whose popup owes a menu close, or the end.
pub open spec fn owing_place(closing: Seq<ClosingPopup>, from: int) -> int
    decreases closing.len() - from,
{
    if from >= closing.len() {
        closing.len() as int
    } else if closing[from].menus_owed > 0 {
        from
    } else {
        owing_place(closing, from + 1)
    }
}

/// A number grown by another, as far as it goes.
pub open spec fn grown(count: u32, by: u32) -> u32 {
    if count + by > u32::MAX {
        u32::MAX
    } else {
        (count + by) as u32
    }
}

/// A number lowered by one, but not below zero.
pub open spec fn lowered(count: u32) -> u32 {
    if count == 0 {
        0
    } else {
        (count - 1) as u32
    }
}

/// The request that destroys the shared tooltip surface.
pub open spec fn tooltip_destroy() -> TaskView {
    TaskView::effect(Effect::Surface(SurfaceAction::DestroyPopup(TOOLTIP_ID)))
}

/// A destroy for the shared tooltip surface. It may be issued whenever a
/// tooltip might be mapped.
pub fn destroy_tooltip() -> (task: Task)
    ensures
        task@ == tooltip_destroy(),
{
    Task::effect(Effect::Surface(SurfaceAction::DestroyPopup(TOOLTIP_ID)))
}

impl PopupView {
    /// The ledger after a surface other than the tooltip closed. In this
    /// order: our own popup ends the session and leaves its menus owed; a
    /// popup already taken settles its own entry; a menu owed by a dismissed
    /// session pays that debt; a menu owed by a closing popup pays that one;
    /// anything else is a menu of the current session.
    pub open spec fn closed(self, id: u64) -> PopupView {
        let place = place_of(self.closing_popups, id, 0);
        let owing = owing_place(self.closing_popups, 0);
        if self.popup == Some(id) {
            PopupView {
                popup: None,
                stale_menu_closes: grown(self.stale_menu_closes, self.dropdowns_open),
                dropdowns_open: 0,
                ..self
            }
        } else if place < self.closing_popups.len() {
            PopupView { closing_popups: self.closing_popups.remove(place), ..self }
        } else if self.stale_menu_closes > 0 {
            PopupView { stale_menu_closes: (self.stale_menu_closes - 1) as u32, ..self }
        } else if owing < self.closing_popups.len() {
            let entry = self.closing_popups[owing];
            PopupView {
                closing_popups: self.closing_popups.update(
                    owing,
                    ClosingPopup { menus_owed: (entry.menus_owed - 1) as u32, ..entry },
                ),
                ..self
            }
        } else {
            PopupView { dropdowns_open: lowered(self.dropdowns_open), ..self }
        }
    }

    /// A popup surface closed.
    pub open spec fn on_popup_closed(self, id: u64) -> (PopupView, TaskView) {
        if id == TOOLTIP_ID {
            (self, TaskView::none())
        } else {
            (self.closed(id), tooltip_destroy())
        }
    }

    /// A fresh popup id is adopted; one it displaces is booked as closing.
    pub open spec fn adopt_popup(self, new_id: u64) -> PopupView {
        PopupView {
            popup: Some(new_id),
            stale_menu_closes: 0,
            closing_popups: match self.popup {
                Some(displaced) => self.closing_popups.push(
                    ClosingPopup { id: displaced, menus_owed: 0 },
                ),
                None => self.closing_popups,
            },
            ..self
        }
    }

    /// The open popup is taken, and its close booked together with those of
    /// the menus that die with it.
    pub open spec fn take_popup(self, id: u64) -> (PopupView, TaskView) {
        (
            PopupView {
                popup: None,
                closing_popups: self.closing_popups.push(
                    ClosingPopup { id, menus_owed: self.dropdowns_open },
                ),
                dropdowns_open: 0,
                ..self
            },
            TaskView::effect(Effect::Surface(SurfaceAction::DestroyPopup(id))),
        )
    }

    /// A tooltip's request passes only while no menu is believed mapped.
    pub open spec fn on_tooltip_surface(self, action: SurfaceAction) -> TaskView {
        if self.dropdowns_open > 0 {
            TaskView::none()
        } else {
            TaskView::effect(Effect::Surface(action))
        }
    }

    /// A menu's request passes with the tooltip's destroy on the right side
    /// of it, and a create is counted.
    pub open spec fn on_dropdown_surface(self, action: SurfaceAction) -> (PopupView, TaskView) {
        let forward = TaskView::effect(Effect::Surface(action));
        match action {
            SurfaceAction::Popup(_) => (
                PopupView { dropdowns_open: grown(self.dropdowns_open, 1), ..self },
                tooltip_destroy().and(forward),
            ),
            SurfaceAction::AppPopup(_) => (
                PopupView { dropdowns_open: grown(self.dropdowns_open, 1), ..self },
                tooltip_destroy().and(forward),
            ),
            SurfaceAction::DestroyPopup(_) => (self, forward.and(tooltip_destroy())),
            SurfaceAction::Other(_) => (self, forward),
        }
    }
}

impl PopupLedger {
    /// Whether a dropdown menu is believed to be mapped.
    pub fn dropdown_open(&self) -> (open: bool)
        ensures
            open == (self@.dropdowns_open > 0),
    {
        self.dropdowns_open > 0
    }

    /// The place of the closing popup `id`.
    fn closing_place(&self, id: u64) -> (place: Option<usize>)
        ensures
            match place {
                Some(at) => at < self@.closing_popups.len() && at == place_of(
                    self@.closing_popups,
                    id,
                    0,
                ),
                None => place_of(self@.closing_popups, id, 0) == self@.closing_popups.len(),
            },
    {
        let mut at: usize = 0;
        while at < self.closing_popups.len()
            invariant
                at <= self.closing_popups.len(),
                place_of(self@.closing_popups, id, 0) == place_of(
                    self@.closing_popups,
                    id,
                    at as int,
                ),
            decreases self.closing_popups.len() - at,
        {
            if self.closing_popups[at].id == id {
                return Some(at);
            }
            at = at + 1;
        }
        None
    }

    /// The place of the first closing popup that owes a menu close.
    fn first_owing(&self) -> (place: Option<usize>)
        ensures
            match place {
                Some(at) => {
                    &&& at < self@.closing_popups.len()
                    &&& at == owing_place(self@.closing_popups, 0)
                    &&& self@.closing_popups[at as int].menus_owed > 0
                },
                None => owing_place(self@.closing_popups, 0) == self@.closing_popups.len(),
            },
    {
        let mut at: usize = 0;
        while at < self.closing_popups.len()
            invariant
                at <= self.closing_popups.len(),
                owing_place(self@.closing_popups, 0) == owing_place(
                    self@.closing_popups,
                    at as int,
                ),
            decreases self.closing_popups.len() - at,
        {
            if self.closing_popups[at].menus_owed > 0 {
                return Some(at);
            }
            at = at + 1;
        }
        None
    }

    /// A popup surface closed: ours, the tooltip's, or a dropdown menu's. A
    /// menu is known by elimination only, its id being minted in the widget.
    pub fn on_popup_closed(&mut self, id: u64) -> (task: Task)
        ensures
            final(self)@ == old(self)@.on_popup_closed(id).0,
            task@ == old(self)@.on_popup_closed(id).1,
    {
        if id == TOOLTIP_ID {
            return Task::none();
        }
        let ours: bool = match self.popup {
            Some(popup) => popup == id,
            None => false,
        };
        if ours {
            self.popup = None;
            self.stale_menu_closes = self.stale_menu_closes.saturating_add(self.dropdowns_open);
            self.dropdowns_open = 0;
        } else if let Some(place) = self.closing_place(id) {
            self.closing_popups.remove(place);
        } else if self.stale_menu_closes > 0 {
            self.stale_menu_closes = self.stale_menu_closes - 1;
        } else if let Some(place) = self.first_owing() {
            let entry: ClosingPopup = self.closing_popups[place];
            self.closing_popups.set(
                place,
                ClosingPopup { id: entry.id, menus_owed: entry.menus_owed - 1 },
            );
        } else {
            self.dropdowns_open = self.dropdowns_open.saturating_sub(1);
        }
        destroy_tooltip()
    }

    /// Adopts a freshly minted popup id. Two clicks handled in one round both
    /// take the create branch, and the second create displaces the first
    /// popup: that one is booked by name, so that its close is never charged
    /// to the menus of the new session. The menu count stays, since every
    /// menu that dies with the displaced popup still announces its own close.
    pub fn adopt_popup(&mut self, new_id: u64)
        ensures
            final(self)@ == old(self)@.adopt_popup(new_id),
    {
        self.stale_menu_closes = 0;
        if let Some(displaced) = self.popup {
            self.closing_popups.push(ClosingPopup { id: displaced, menus_owed: 0 });
        }
        self.popup = Some(new_id);
    }

    /// Takes the open popup and requests its destroy. Its close comes back
    /// long after, so the ledger is reset here, and what is still to be
    /// announced is booked under the popup's own id.
    pub fn take_popup(&mut self, id: u64) -> (task: Task)
        ensures
            final(self)@ == old(self)@.take_popup(id).0,
            task@ == old(self)@.take_popup(id).1,
    {
        self.popup = None;
        self.closing_popups.push(ClosingPopup { id, menus_owed: self.dropdowns_open });
        self.dropdowns_open = 0;
        Task::effect(Effect::Surface(SurfaceAction::DestroyPopup(id)))
    }

    /// A surface request of the tooltip widget. While a menu is mapped every
    /// one is dropped: a create would map a second child, a destroy would not
    /// hit the topmost one. The menu's own close repeats the destroy.
    pub fn on_tooltip_surface(&self, action: SurfaceAction) -> (task: Task)
        ensures
            task@ == self@.on_tooltip_surface(action),
    {
        if self.dropdown_open() {
            return Task::none();
        }
        Task::effect(Effect::Surface(action))
    }

    /// A surface request of a dropdown menu. A create destroys the tooltip
    /// first, while that is still topmost; a destroy destroys it after. A
    /// destroy request is no evidence that the menu is gone, so only a create
    /// moves the count.
    pub fn on_dropdown_surface(&mut self, action: SurfaceAction) -> (task: Task)
        ensures
            final(self)@ == old(self)@.on_dropdown_surface(action).0,
            task@ == old(self)@.on_dropdown_surface(action).1,
    {
        let forward: Task = Task::effect(Effect::Surface(action));
        match action {
            SurfaceAction::Popup(_) => {
                self.dropdowns_open = self.dropdowns_open.saturating_add(1);
                destroy_tooltip().and(forward)
            },
            SurfaceAction::AppPopup(_) => {
                self.dropdowns_open = self.dropdowns_open.saturating_add(1);
                destroy_tooltip().and(forward)
            },
            SurfaceAction::DestroyPopup(_) => forward.and(destroy_tooltip()),
            SurfaceAction::Other(_) => forward,
        }
    }
}

/// The menu closes the closing popups owe.
pub open spec fn owed_by(closing: Seq<ClosingPopup>) -> int
    decreases closing.len(),
{
    if closing.len() == 0 {
        0
    } else {
        owed_by(closing.drop_last()) + closing.last().menus_owed
    }
}

impl PopupView {
    /// The menu closes still expected: of the menus believed mapped, of a
    /// dismissed session, and of the popups being closed.
    pub open spec fn expected_menu_closes(self) -> int {
        self.dropdowns_open + self.stale_menu_closes + owed_by(self.closing_popups)
    }
}

proof fn owed_by_an_update(closing: Seq<ClosingPopup>, at: int, entry: ClosingPopup)
    requires
        0 <= at < closing.len(),
    ensures
        owed_by(closing.update(at, entry)) == owed_by(closing) - closing[at].menus_owed
            + entry.menus_owed,
    decreases closing.len(),
{
    let updated = closing.update(at, entry);
    if at == closing.len() - 1 {
        assert(updated.drop_last() == closing.drop_last());
    } else {
        owed_by_an_update(closing.drop_last(), at, entry);
        assert(updated.drop_last() == closing.drop_last().update(at, entry));
    }
}

proof fn owed_by_a_removal(closing: Seq<ClosingPopup>, at: int)
    requires
        0 <= at < closing.len(),
    ensures
        owed_by(closing.remove(at)) == owed_by(closing) - closing[at].menus_owed,
    decreases closing.len(),
{
    let removed = closing.remove(at);
    if at == closing.len() - 1 {
        assert(removed == closing.drop_last());
    } else {
        owed_by_a_removal(closing.drop_last(), at);
        assert(removed.drop_last() == closing.drop_last().remove(at));
        assert(removed.last() == closing.last());
    }
}

proof fn owed_is_never_negative(closing: Seq<ClosingPopup>)
    ensures
        owed_by(closing) >= 0,
    decreases closing.len(),
{
    if closing.len() > 0 {
        owed_is_never_negative(closing.drop_last());
    }
}

proof fn owed_by_nobody(closing: Seq<ClosingPopup>, from: int)
    requires
        0 <= from <= closing.len(),
        owing_place(closing, from) == closing.len(),
    ensures
        forall|i: int| from <= i < closing.len() ==> (#[trigger] closing[i]).menus_owed == 0,
    decreases closing.len() - from,
{
    if from < closing.len() {
        owed_by_nobody(closing, from + 1);
    }
}

proof fn nothing_owed(closing: Seq<ClosingPopup>)
    requires
        forall|i: int| 0 <= i < closing.len() ==> (#[trigger] closing[i]).menus_owed == 0,
    ensures
        owed_by(closing) == 0,
    decreases closing.len(),
{
    if closing.len() > 0 {
        nothing_owed(closing.drop_last());
    }
}

proof fn owing_place_owes(closing: Seq<ClosingPopup>, from: int)
    requires
        0 <= from <= closing.len(),
    ensures
        from <= owing_place(closing, from) <= closing.len(),
        owing_place(closing, from) < closing.len() ==> closing[owing_place(
            closing,
            from,
        )].menus_owed > 0,
    decreases closing.len() - from,
{
    if from < closing.len() {
        owing_place_owes(closing, from + 1);
    }
}

proof fn place_of_holds(closing: Seq<ClosingPopup>, id: u64, from: int)
    requires
        0 <= from <= closing.len(),
    ensures
        from <= place_of(closing, id, from) <= closing.len(),
        place_of(closing, id, from) < closing.len() ==> closing[place_of(closing, id, from)].id
            == id,
    decreases closing.len() - from,
{
    if from < closing.len() {
        place_of_holds(closing, id, from + 1);
    }
}

/// The close of one of our own popups settles its own entry and nothing else:
/// the menus of the current session, the debts of a dismissed one and the
/// other entries stay as they are.
pub proof fn a_popups_close_touches_no_count(ledger: PopupView, id: u64)
    requires
        ledger.popup != Some(id),
        place_of(ledger.closing_popups, id, 0) < ledger.closing_popups.len(),
    ensures
        ledger.closed(id).popup == ledger.popup,
        ledger.closed(id).dropdowns_open == ledger.dropdowns_open,
        ledger.closed(id).stale_menu_closes == ledger.stale_menu_closes,
        ledger.closed(id).closing_popups.len() == ledger.closing_popups.len() - 1,
        owed_by(ledger.closed(id).closing_popups) == owed_by(ledger.closing_popups)
            - ledger.closing_popups[place_of(ledger.closing_popups, id, 0)].menus_owed,
{
    place_of_holds(ledger.closing_popups, id, 0);
    owed_by_a_removal(ledger.closing_popups, place_of(ledger.closing_popups, id, 0));
}

/// The close of a menu pays exactly one expected close, if any is expected:
/// first what earlier sessions owe, and only then a menu of the current one.
pub proof fn a_menus_close_pays_one_debt(ledger: PopupView, id: u64)
    requires
        ledger.popup != Some(id),
        place_of(ledger.closing_popups, id, 0) == ledger.closing_popups.len(),
    ensures
        ledger.closed(id).popup == ledger.popup,
        ledger.expected_menu_closes() > 0 ==> ledger.closed(id).expected_menu_closes()
            == ledger.expected_menu_closes() - 1,
        ledger.expected_menu_closes() == 0 ==> ledger.closed(id) == ledger,
        ledger.stale_menu_closes > 0 || owed_by(ledger.closing_popups) > 0 ==> ledger.closed(
            id,
        ).dropdowns_open == ledger.dropdowns_open,
{
    let owing = owing_place(ledger.closing_popups, 0);
    owing_place_owes(ledger.closing_popups, 0);
    if owing < ledger.closing_popups.len() {
        let entry = ledger.closing_popups[owing];
        owed_by_a_removal(ledger.closing_popups, owing);
        owed_is_never_negative(ledger.closing_popups.remove(owing));
        owed_by_an_update(
            ledger.closing_popups,
            owing,
            ClosingPopup { menus_owed: (entry.menus_owed - 1) as u32, ..entry },
        );
    } else {
        owed_by_nobody(ledger.closing_popups, 0);
        nothing_owed(ledger.closing_popups);
    }
}

/// The end of a session moves the closes its menus still owe, and loses none:
/// whether the compositor dismissed the popup, or we took it. No menu of the
/// ended session counts as open afterwards.
pub proof fn a_sessions_end_moves_its_debts(ledger: PopupView, id: u64)
    requires
        ledger.popup == Some(id),
        ledger.stale_menu_closes + ledger.dropdowns_open <= u32::MAX,
    ensures
        ledger.closed(id).expected_menu_closes() == ledger.expected_menu_closes(),
        ledger.closed(id).dropdowns_open == 0,
        ledger.closed(id).popup is None,
        ledger.take_popup(id).0.expected_menu_closes() == ledger.expected_menu_closes(),
        ledger.take_popup(id).0.dropdowns_open == 0,
        ledger.take_popup(id).0.popup is None,
{
    let entry = ClosingPopup { id, menus_owed: ledger.dropdowns_open };
    assert(ledger.closing_popups.push(entry).drop_last() == ledger.closing_popups);
}

/// A new popup discards what a dismissed session owes, and keeps what the
/// popups being closed owe: those are settled by their own closes.
pub proof fn a_new_popup_keeps_the_keyed_debts(ledger: PopupView, id: u64)
    ensures
        ledger.adopt_popup(id).popup == Some(id),
        ledger.adopt_popup(id).expected_menu_closes() == ledger.expected_menu_closes()
            - ledger.stale_menu_closes,
        ledger.adopt_popup(id).dropdowns_open == ledger.dropdowns_open,
        owed_by(ledger.adopt_popup(id).closing_popups) == owed_by(ledger.closing_popups),
{
    if let Some(displaced) = ledger.popup {
        let entry = ClosingPopup { id: displaced, menus_owed: 0 };
        assert(ledger.closing_popups.push(entry).drop_last() == ledger.closing_popups);
    }
}

/// While a menu is believed to be mapped no tooltip request passes; otherwise
/// every one does.
pub proof fn tooltips_yield_to_menus(ledger: PopupView, action: SurfaceAction)
    ensures
        ledger.dropdowns_open > 0 ==> ledger.on_tooltip_surface(action) == TaskView::none(),
        ledger.dropdowns_open == 0 ==> ledger.on_tooltip_surface(action).effects == seq![
            Effect::Surface(action),
        ],
{
}

/// A menu is created with the tooltip already destroyed and counted as open
/// from then on, and the tooltip is destroyed again only after the menu is:
/// at every step the surface destroyed is the topmost one.
pub proof fn menus_are_stacked_above_the_tooltip(ledger: PopupView, action: SurfaceAction)
    ensures
        action is Popup || action is AppPopup ==> {
            &&& ledger.on_dropdown_surface(action).1.effects == seq![
                Effect::Surface(SurfaceAction::DestroyPopup(TOOLTIP_ID)),
                Effect::Surface(action),
            ]
            &&& ledger.on_dropdown_surface(action).0.dropdowns_open > 0
        },
        action is DestroyPopup ==> {
            &&& ledger.on_dropdown_surface(action).1.effects == seq![
                Effect::Surface(action),
                Effect::Surface(SurfaceAction::DestroyPopup(TOOLTIP_ID)),
            ]
            &&& ledger.on_dropdown_surface(action).0 == ledger
        },
{
}

/// A tooltip closing is nobody's business: its close changes nothing.
pub proof fn a_tooltips_close_is_ignored(ledger: PopupView)
    ensures
        ledger.on_popup_closed(TOOLTIP_ID) == (ledger, TaskView::none()),
{
}

/// The menus that are really on screen, as no ledger can know them: those of
/// the current session, and those of ended sessions whose close has not been
/// announced yet.
pub struct Screen {
    pub live: nat,
    pub ended: nat,
}

impl PopupView {
    /// The ledger covers the screen: it counts every live menu as open, and
    /// expects every close that is still to come.
    pub open spec fn covers(self, screen: Screen) -> bool {
        &&& screen.live <= self.dropdowns_open
        &&& screen.live + screen.ended <= self.expected_menu_closes()
    }
}

/// Over a ledger that covers the screen no tooltip request passes while a
/// menu is mapped, whatever closes are late.
pub proof fn no_tooltip_beside_a_menu(ledger: PopupView, screen: Screen, action: SurfaceAction)
    requires
        ledger.covers(screen),
        ledger.on_tooltip_surface(action) != TaskView::none(),
    ensures
        screen.live == 0,
{
}

/// A menu that is created is covered, short of the counter's limit.
pub proof fn a_created_menu_is_covered(ledger: PopupView, screen: Screen, action: SurfaceAction)
    requires
        ledger.covers(screen),
        action is Popup || action is AppPopup,
        ledger.dropdowns_open < u32::MAX,
    ensures
        ledger.on_dropdown_surface(action).0.covers(
            Screen { live: screen.live + 1, ended: screen.ended },
        ),
{
}

/// Whichever menu's close is announced, and however late, the screen stays
/// covered: that of a live menu, or that of a menu of an ended session.
pub proof fn a_closed_menu_stays_covered(ledger: PopupView, screen: Screen, id: u64)
    requires
        ledger.covers(screen),
        ledger.popup != Some(id),
        place_of(ledger.closing_popups, id, 0) == ledger.closing_popups.len(),
    ensures
        screen.live > 0 ==> ledger.closed(id).covers(
            Screen { live: (screen.live - 1) as nat, ended: screen.ended },
        ),
        screen.ended > 0 ==> ledger.closed(id).covers(
            Screen { live: screen.live, ended: (screen.ended - 1) as nat },
        ),
{
    a_menus_close_pays_one_debt(ledger, id);
    owing_place_owes(ledger.closing_popups, 0);
    let owing = owing_place(ledger.closing_popups, 0);
    if owing < ledger.closing_popups.len() {
        owed_by_a_removal(ledger.closing_popups, owing);
        owed_is_never_negative(ledger.closing_popups.remove(owing));
    } else {
        owed_by_nobody(ledger.closing_popups, 0);
        nothing_owed(ledger.closing_popups);
    }
}

/// The end of a session, either way, leaves its menus covered as those of an
/// ended one.
pub proof fn an_ended_session_stays_covered(ledger: PopupView, screen: Screen, id: u64)
    requires
        ledger.covers(screen),
        ledger.popup == Some(id),
        ledger.stale_menu_closes + ledger.dropdowns_open <= u32::MAX,
    ensures
        ledger.closed(id).covers(Screen { live: 0, ended: screen.live + screen.ended }),
        ledger.take_popup(id).0.covers(Screen { live: 0, ended: screen.live + screen.ended }),
{
    a_sessions_end_moves_its_debts(ledger, id);
}

/// The close of a popup we took, and the adoption of a new one, drop debts
/// that nobody will pay: the screen stays covered if every close of the
/// session in question has been announced by then.
pub proof fn dropped_debts_stay_covered(ledger: PopupView, screen: Screen, id: u64)
    requires
        ledger.covers(screen),
        ledger.popup != Some(id),
    ensures
        place_of(ledger.closing_popups, id, 0) < ledger.closing_popups.len() && screen.live
            + screen.ended <= ledger.expected_menu_closes() - ledger.closing_popups[place_of(
            ledger.closing_popups,
            id,
            0,
        )].menus_owed ==> ledger.closed(id).covers(screen),
        screen.live + screen.ended <= ledger.expected_menu_closes() - ledger.stale_menu_closes
            ==> ledger.adopt_popup(id).covers(screen),
{
    if place_of(ledger.closing_popups, id, 0) < ledger.closing_popups.len() {
        a_popups_close_touches_no_count(ledger, id);
    }
    a_new_popup_keeps_the_keyed_debts(ledger, id);
}

} // verus!
