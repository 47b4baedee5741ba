use daymural::effect::{Effect, SurfaceAction, Task, TOOLTIP_ID};
use daymural::message::Message;
use daymural::popup::{destroy_tooltip, ClosingPopup, PopupLedger};
use daymural::window::Window;

/// What a task hands to the compositor.
#[derive(Clone, Copy, Debug, PartialEq, Eq)]
enum Emitted {
    Arm,
    Create,
    DestroyTooltip,
    DestroyOther,
}

fn emitted(task: Task) -> Vec<Emitted> {
    task.effects
        .iter()
        .filter_map(|effect| match effect {
            Effect::Surface(SurfaceAction::DestroyPopup(id)) if *id == TOOLTIP_ID => {
                Some(Emitted::DestroyTooltip)
            }
            Effect::Surface(SurfaceAction::DestroyPopup(_)) => Some(Emitted::DestroyOther),
            Effect::Surface(SurfaceAction::Popup(_)) => Some(Emitted::Create),
            Effect::Surface(SurfaceAction::AppPopup(_)) => Some(Emitted::Create),
            Effect::Surface(SurfaceAction::Other(_)) => Some(Emitted::Arm),
            _ => None,
        })
        .collect()
}

fn dropdown_create() -> SurfaceAction {
    SurfaceAction::Popup(500)
}

fn app_dropdown_create() -> SurfaceAction {
    SurfaceAction::AppPopup(501)
}

fn dropdown_destroy() -> SurfaceAction {
    SurfaceAction::DestroyPopup(502)
}

fn tooltip_arm() -> SurfaceAction {
    SurfaceAction::Other(503)
}

fn tooltip_destroy() -> SurfaceAction {
    SurfaceAction::DestroyPopup(TOOLTIP_ID)
}

/// Ids the shell hands out, never the tooltip's.
struct Ids(u64);

impl Ids {
    fn unique(&mut self) -> u64 {
        self.0 += 1;
        self.0
    }
}

fn ids() -> Ids {
    Ids(1_000)
}

fn send(window: &mut Window, message: Message) -> Vec<Emitted> {
    emitted(window.update(message, 0))
}

fn keyed(id: u64, menus_owed: u32) -> ClosingPopup {
    ClosingPopup { id, menus_owed }
}

#[test]
fn popup_closed_for_our_popup_clears_the_ledger_and_sweeps_the_tooltip() {
    let mut window = Window::default();
    let ours = ids().unique();
    window.popups.popup = Some(ours);
    window.popups.dropdowns_open = 1;

    let task = send(&mut window, Message::PopupClosed(ours));

    assert_eq!(window.popups.popup, None);
    assert!(!window.popups.dropdown_open());
    assert_eq!(
        window.popups.stale_menu_closes, 1,
        "the menu still owes a close; our popup's is this very event"
    );
    assert!(
        window.popups.closing_popups.is_empty(),
        "our popup was closed for us, so there is nothing left to await"
    );
    assert_eq!(task, vec![Emitted::DestroyTooltip]);
}

#[test]
fn popup_closed_for_the_tooltip_surface_changes_nothing() {
    let mut window = Window::default();
    let ours = ids().unique();
    window.popups.popup = Some(ours);
    window.popups.dropdowns_open = 1;

    let task = send(&mut window, Message::PopupClosed(TOOLTIP_ID));

    assert_eq!(window.popups.popup, Some(ours), "a tooltip close it is, not ours");
    assert!(window.popups.dropdown_open(), "a dropdown close it is not");
    assert!(task.is_empty(), "nothing to destroy");
}

#[test]
fn popup_closed_for_an_unknown_surface_decrements_the_dropdown_count() {
    let mut ids = ids();
    let mut window = Window::default();
    let ours = ids.unique();
    window.popups.popup = Some(ours);
    window.popups.dropdowns_open = 1;

    let task = send(&mut window, Message::PopupClosed(ids.unique()));

    assert_eq!(window.popups.popup, Some(ours), "another surface is not ours");
    assert!(!window.popups.dropdown_open());
    assert_eq!(
        task,
        vec![Emitted::DestroyTooltip],
        "the menu is gone, so a tooltip under it is topmost again"
    );
}

#[test]
fn a_close_for_an_earlier_menu_leaves_a_newer_one_recorded() {
    let mut ids = ids();
    let mut window = Window::default();
    window.popups.popup = Some(ids.unique());

    send(&mut window, Message::DropdownSurface(dropdown_create()));
    send(&mut window, Message::DropdownSurface(dropdown_create()));
    assert_eq!(window.popups.dropdowns_open, 2, "two creates, two menus");

    let task = send(&mut window, Message::PopupClosed(ids.unique()));
    assert_eq!(task, vec![Emitted::DestroyTooltip]);
    assert!(
        window.popups.dropdown_open(),
        "the older menu's close says nothing about the newer one"
    );

    send(&mut window, Message::PopupClosed(ids.unique()));
    assert!(!window.popups.dropdown_open(), "now every menu is accounted for");

    send(&mut window, Message::PopupClosed(ids.unique()));
    assert_eq!(window.popups.dropdowns_open, 0, "the count saturates at zero");
}

#[test]
fn a_late_close_for_a_popup_we_already_took_is_harmless() {
    let mut window = Window::default();
    let ours = ids().unique();
    window.popups.popup = Some(ours);
    send(&mut window, Message::TogglePopup);
    assert_eq!(window.popups.popup, None, "taken before the destroy is emitted");
    assert_eq!(
        window.popups.closing_popups,
        vec![keyed(ours, 0)],
        "our popup still owes its own, and it is owed by name"
    );
    assert_eq!(window.popups.stale_menu_closes, 0, "no menu was mapped");

    let task = send(&mut window, Message::PopupClosed(ours));

    assert_eq!(window.popups.popup, None);
    assert!(!window.popups.dropdown_open());
    assert!(window.popups.closing_popups.is_empty(), "the debt is settled");
    assert_eq!(task, vec![Emitted::DestroyTooltip]);
}

#[test]
fn a_popup_that_never_mapped_owes_a_debt_no_live_close_can_pay() {
    let mut ids = ids();
    let mut window = Window::default();
    // A create whose surface was never produced.
    let phantom = ids.unique();
    window.popups.popup = Some(phantom);
    send(&mut window, Message::TogglePopup);
    assert_eq!(
        window.popups.closing_popups,
        vec![keyed(phantom, 0)],
        "owed by name, so no other close can settle it"
    );

    // Reopened, with a menu of its own.
    send(&mut window, Message::TogglePopup);
    window.popups.popup = Some(ids.unique());
    send(&mut window, Message::DropdownSurface(dropdown_create()));
    assert!(window.popups.dropdown_open(), "a live menu is mapped");

    // The live menu closes.
    send(&mut window, Message::PopupClosed(ids.unique()));

    assert!(
        !window.popups.dropdown_open(),
        "the live menu is gone, so tooltips must be un-paused"
    );
    assert_eq!(
        window.popups.closing_popups,
        vec![keyed(phantom, 0)],
        "the unpayable debt is still outstanding, and cost nothing"
    );
}

#[test]
fn a_second_toggle_in_one_drain_books_the_popup_it_displaces() {
    let mut ids = ids();
    let mut window = Window::default();

    send(&mut window, Message::TogglePopup);
    send(&mut window, Message::TogglePopup);
    assert_eq!(
        window.popups.popup, None,
        "both toggles take the create branch: no id was handed out yet"
    );

    let first = ids.unique();
    let second = ids.unique();
    send(&mut window, Message::PopupOpened(first));
    send(&mut window, Message::PopupOpened(second));

    assert_eq!(window.popups.popup, Some(second), "the later create wins");
    assert_eq!(
        window.popups.closing_popups,
        vec![keyed(first, 0)],
        "the displaced popup is owed by name, not dropped on the floor"
    );

    send(&mut window, Message::DropdownSurface(dropdown_create()));
    assert_eq!(window.popups.dropdowns_open, 1, "the live session's menu");

    send(&mut window, Message::PopupClosed(first));

    assert!(
        window.popups.dropdown_open(),
        "the displaced popup's close must not decrement a live menu"
    );
    assert!(window.popups.closing_popups.is_empty(), "the debt is settled");
}

#[test]
fn a_displaced_popup_leaves_its_menus_counted() {
    let mut ids = ids();
    let mut window = Window::default();
    let first = ids.unique();
    window.popups.popup = Some(first);
    send(&mut window, Message::DropdownSurface(dropdown_create()));
    assert_eq!(window.popups.dropdowns_open, 1, "a menu is up under the first");

    window.popups.adopt_popup(ids.unique());
    assert_eq!(
        window.popups.dropdowns_open, 1,
        "the menu is still mapped and still owes its close"
    );
    assert_eq!(
        window.popups.stale_menu_closes, 0,
        "nothing was subtracted, so nothing is owed anonymously"
    );

    send(&mut window, Message::PopupClosed(ids.unique()));
    assert!(!window.popups.dropdown_open(), "every menu is accounted for");
    send(&mut window, Message::PopupClosed(first));
    assert!(window.popups.closing_popups.is_empty(), "and so is the popup");
}

#[test]
fn late_closes_from_an_ended_session_never_decrement_a_reopened_one() {
    let mut ids = ids();
    let mut window = Window::default();
    let first = ids.unique();
    window.popups.popup = Some(first);
    send(&mut window, Message::DropdownSurface(dropdown_create()));
    assert_eq!(window.popups.dropdowns_open, 1, "a menu is up in the first session");

    send(&mut window, Message::TogglePopup);
    assert_eq!(
        window.popups.closing_popups,
        vec![keyed(first, 1)],
        "our popup by name, its menu anonymously on the same entry"
    );

    // Reopened and a new menu opened before those closes arrive.
    send(&mut window, Message::TogglePopup);
    window.popups.adopt_popup(ids.unique());
    send(&mut window, Message::DropdownSurface(dropdown_create()));
    assert_eq!(window.popups.dropdowns_open, 1, "the second session's menu");
    assert_eq!(
        window.popups.closing_popups[0].menus_owed, 1,
        "a new session discards no debt that is still keyed to a popup"
    );

    // Now the first session's two closes arrive.
    send(&mut window, Message::PopupClosed(ids.unique()));
    send(&mut window, Message::PopupClosed(first));

    assert!(
        window.popups.dropdown_open(),
        "the live menu is still mapped, so tooltips stay paused"
    );
    assert!(
        window.popups.closing_popups.is_empty(),
        "the menu debt is paid and ours is settled"
    );

    // And the live menu's own close still lands normally.
    send(&mut window, Message::PopupClosed(ids.unique()));
    assert!(!window.popups.dropdown_open(), "now every menu is accounted for");
}

#[test]
fn a_dropped_menu_create_owes_nothing_past_the_session_that_leaked_it() {
    let mut ids = ids();
    let mut window = Window::default();
    window.popups.adopt_popup(ids.unique());

    // A create that is silently dropped; the ledger cannot know.
    send(&mut window, Message::DropdownSurface(dropdown_create()));
    assert!(window.popups.dropdown_open(), "counted optimistically, as designed");

    for session in 2..=3 {
        let ended = window.popups.popup.expect("a session is open");
        send(&mut window, Message::TogglePopup);

        send(&mut window, Message::PopupClosed(ended));
        assert!(
            window.popups.closing_popups.is_empty(),
            "session {session}: the phantom cannot be owed to anyone"
        );

        send(&mut window, Message::TogglePopup);
        window.popups.adopt_popup(ids.unique());
        send(&mut window, Message::DropdownSurface(dropdown_create()));
        assert!(window.popups.dropdown_open(), "session {session}: a live menu");

        send(&mut window, Message::PopupClosed(ids.unique()));
        assert!(
            !window.popups.dropdown_open(),
            "session {session}: the live menu's close must reach the count"
        );
    }
}

#[test]
fn a_dismissed_session_owes_no_menu_closes_once_the_next_popup_opens() {
    let mut ids = ids();
    let mut window = Window::default();
    let ours = ids.unique();
    window.popups.adopt_popup(ours);
    send(&mut window, Message::DropdownSurface(dropdown_create()));

    // Clicked outside: the compositor closes our popup itself.
    send(&mut window, Message::PopupClosed(ours));
    assert_eq!(
        window.popups.stale_menu_closes, 1,
        "the menu's close is still owed, anonymously"
    );

    window.popups.adopt_popup(ids.unique());
    assert_eq!(
        window.popups.stale_menu_closes, 0,
        "by now the dismissal's closes have all been delivered"
    );

    send(&mut window, Message::DropdownSurface(dropdown_create()));
    assert!(window.popups.dropdown_open());
    send(&mut window, Message::PopupClosed(ids.unique()));
    assert!(
        !window.popups.dropdown_open(),
        "the live close must decrement, not pay off a dead session's debt"
    );
}

#[test]
fn tooltip_actions_are_forwarded_when_no_dropdown_is_open() {
    let mut window = Window::default();
    window.popups.popup = Some(ids().unique());

    for (action, expected) in [
        (tooltip_arm(), Emitted::Arm),
        (tooltip_destroy(), Emitted::DestroyTooltip),
        (dropdown_create(), Emitted::Create),
    ] {
        let task = send(&mut window, Message::TooltipSurface(action));
        assert_eq!(task, vec![expected]);
        assert!(!window.popups.dropdown_open(), "the tooltip route never opens one");
    }
}

#[test]
fn every_tooltip_action_is_dropped_while_a_dropdown_is_open() {
    let mut window = Window::default();
    window.popups.popup = Some(ids().unique());
    window.popups.dropdowns_open = 1;

    for action in [tooltip_arm(), tooltip_destroy(), dropdown_create()] {
        let task = send(&mut window, Message::TooltipSurface(action));
        assert!(task.is_empty(), "nothing may pass under an open menu");
        assert!(window.popups.dropdown_open());
    }
}

#[test]
fn a_dropdown_create_destroys_the_tooltip_first() {
    for create in [dropdown_create(), app_dropdown_create()] {
        let mut window = Window::default();
        window.popups.popup = Some(ids().unique());

        let task = send(&mut window, Message::DropdownSurface(create));

        assert!(window.popups.dropdown_open());
        assert_eq!(
            task,
            vec![Emitted::DestroyTooltip, Emitted::Create],
            "the destroy must precede the create"
        );
    }
}

#[test]
fn a_dropdown_create_over_an_open_menu_still_interlocks() {
    let mut window = Window::default();
    window.popups.popup = Some(ids().unique());
    window.popups.dropdowns_open = 1;

    let task = send(&mut window, Message::DropdownSurface(dropdown_create()));

    assert!(window.popups.dropdown_open());
    assert_eq!(task, vec![Emitted::DestroyTooltip, Emitted::Create]);
}

#[test]
fn an_unclassified_dropdown_action_is_forwarded_untouched() {
    let mut window = Window::default();
    window.popups.popup = Some(ids().unique());

    let task = send(&mut window, Message::DropdownSurface(tooltip_arm()));

    assert!(!window.popups.dropdown_open(), "no create, no menu");
    assert_eq!(task, vec![Emitted::Arm]);
}

#[test]
fn a_dropdown_destroy_sweeps_the_tooltip_afterwards() {
    let mut window = Window::default();
    window.popups.popup = Some(ids().unique());
    window.popups.dropdowns_open = 1;

    let task = send(&mut window, Message::DropdownSurface(dropdown_destroy()));

    assert!(
        window.popups.dropdown_open(),
        "the request is not the close; only a close decrements the count"
    );
    assert_eq!(
        task,
        vec![Emitted::DestroyOther, Emitted::DestroyTooltip],
        "the menu goes first; only then is the tooltip topmost"
    );
}

#[test]
fn a_stale_destroy_after_a_create_leaves_the_menu_recorded() {
    let mut window = Window::default();
    window.popups.popup = Some(ids().unique());

    let task = send(&mut window, Message::DropdownSurface(dropdown_create()));
    assert_eq!(task, vec![Emitted::DestroyTooltip, Emitted::Create]);

    let task = send(&mut window, Message::DropdownSurface(dropdown_destroy()));
    assert_eq!(task, vec![Emitted::DestroyOther, Emitted::DestroyTooltip]);

    assert!(
        window.popups.dropdown_open(),
        "the menu the create mapped is still up, so tooltips stay paused"
    );
}

#[test]
fn closing_our_own_popup_clears_the_ledger() {
    let mut window = Window::default();
    let ours = ids().unique();
    window.popups.popup = Some(ours);
    window.popups.dropdowns_open = 1;

    let task = send(&mut window, Message::TogglePopup);

    assert_eq!(window.popups.popup, None);
    assert!(
        !window.popups.dropdown_open(),
        "a stale dropdown would pause tooltips for the rest of the session"
    );
    assert_eq!(
        window.popups.stale_menu_closes, 0,
        "a self-initiated ending keys its menu debt to the popup it closed"
    );
    assert_eq!(
        window.popups.closing_popups,
        vec![keyed(ours, 1)],
        "ours is owed by name, its menu's close counted on the same entry"
    );
    assert_eq!(
        task,
        vec![Emitted::DestroyOther],
        "our own popup, not the tooltip surface"
    );
}

#[test]
fn the_hover_then_menu_sequence_never_emits_an_illegal_destroy() {
    let mut ids = ids();
    let mut window = Window::default();
    window.popups.popup = Some(ids.unique());

    let task = send(&mut window, Message::TooltipSurface(tooltip_arm()));
    assert_eq!(task, vec![Emitted::Arm]);

    let task = send(&mut window, Message::DropdownSurface(dropdown_create()));
    assert_eq!(task, vec![Emitted::DestroyTooltip, Emitted::Create]);

    // The pointer leaves while the menu is up: this destroy is dropped.
    let task = send(&mut window, Message::TooltipSurface(tooltip_destroy()));
    assert!(task.is_empty());

    let task = send(&mut window, Message::DropdownSurface(dropdown_destroy()));
    assert_eq!(
        task,
        vec![Emitted::DestroyOther, Emitted::DestroyTooltip],
        "the dropped destroy is re-emitted once it is legal"
    );
    assert!(window.popups.dropdown_open(), "the request is not yet the close");

    let task = send(&mut window, Message::PopupClosed(ids.unique()));
    assert_eq!(task, vec![Emitted::DestroyTooltip]);
    assert!(!window.popups.dropdown_open());
}

#[test]
fn the_counts_stop_at_their_limits() {
    let mut ledger = PopupLedger::default();
    ledger.dropdowns_open = u32::MAX;
    ledger.on_dropdown_surface(dropdown_create());
    assert_eq!(ledger.dropdowns_open, u32::MAX);
    ledger.popup = Some(7);
    ledger.stale_menu_closes = 3;
    ledger.on_popup_closed(7);
    assert_eq!(ledger.stale_menu_closes, u32::MAX);
    assert_eq!(ledger.dropdowns_open, 0);
    assert_eq!(emitted(destroy_tooltip()), vec![Emitted::DestroyTooltip]);
}

#[test]
fn a_menus_close_pays_the_oldest_debt_first() {
    let mut ledger = PopupLedger::default();
    ledger.closing_popups = vec![keyed(1, 0), keyed(2, 2), keyed(3, 1)];
    ledger.stale_menu_closes = 1;
    ledger.dropdowns_open = 1;
    ledger.on_popup_closed(99);
    assert_eq!(ledger.stale_menu_closes, 0, "a dismissed session comes first");
    ledger.on_popup_closed(99);
    assert_eq!(ledger.closing_popups[1].menus_owed, 1);
    ledger.on_popup_closed(2);
    assert_eq!(ledger.closing_popups, vec![keyed(1, 0), keyed(3, 1)]);
    ledger.on_popup_closed(99);
    assert_eq!(ledger.closing_popups[1].menus_owed, 0);
    assert_eq!(ledger.dropdowns_open, 1);
    ledger.on_popup_closed(99);
    assert_eq!(ledger.dropdowns_open, 0);
}

#[test]
fn a_close_request_closes_the_popup() {
    let window = Window::default();
    assert_eq!(window.on_close_requested(12), Some(Message::PopupClosed(12)));
}
