//! What the popups, the controls, the settings and the links are for, said of
//! single operations in terms of what goes in and what comes out.

use vstd::prelude::*;
use crate::accent_laws::toggle_stays_quiet;
use crate::controls::persists;
use crate::effect::{ApplyReason, Call, Effect, LiveUse, SurfaceAction, TaskView};
use crate::identity::{has_prefix, is_web_link};
use crate::message::Message;
use crate::paths::absolute_path;
use crate::popup::{owing_place, place_of, ClosingPopup, PopupView};
use crate::settings::{
    adopted, normalized, normalizing_gives_supported_settings, write_if, AppletConfig,
    AppletSetting, ChoicesView, ConfigWrite,
};
use crate::terms::{called_if, leads, roomy, started_if};
use crate::window::{Role, SettingsView, WindowView};
use std::path::PathBuf;

verus! {

proof fn the_first_place_is_found(closing: Seq<ClosingPopup>, id: u64, from: int, at: int)
    requires
        0 <= from <= at < closing.len(),
        closing[at].id == id,
        forall|i: int| from <= i < at ==> (#[trigger] closing[i]).id != id,
    ensures
        place_of(closing, id, from) == at,
    decreases at - from,
{
    if from < at {
        the_first_place_is_found(closing, id, from + 1, at);
    }
}

proof fn no_place_is_found(closing: Seq<ClosingPopup>, id: u64, from: int)
    requires
        0 <= from <= closing.len(),
        forall|i: int| from <= i < closing.len() ==> (#[trigger] closing[i]).id != id,
    ensures
        place_of(closing, id, from) == closing.len(),
    decreases closing.len() - from,
{
    if from < closing.len() {
        no_place_is_found(closing, id, from + 1);
    }
}

proof fn the_first_debtor_is_found(closing: Seq<ClosingPopup>, from: int, at: int)
    requires
        0 <= from <= at < closing.len(),
        closing[at].menus_owed > 0,
        forall|i: int| from <= i < at ==> (#[trigger] closing[i]).menus_owed == 0,
    ensures
        owing_place(closing, from) == at,
    decreases at - from,
{
    if from < at {
        the_first_debtor_is_found(closing, from + 1, at);
    }
}

proof fn no_debtor_is_found(closing: Seq<ClosingPopup>, from: int)
    requires
        0 <= from <= closing.len(),
        forall|i: int| from <= i < closing.len() ==> (#[trigger] closing[i]).menus_owed == 0,
    ensures
        owing_place(closing, from) == closing.len(),
    decreases closing.len() - from,
{
    if from < closing.len() {
        no_debtor_is_found(closing, from + 1);
    }
}

/// The close of any surface but the tooltip's own is followed by a destroy of
/// the tooltip, and by nothing else; the tooltip's own close by nothing.
pub proof fn a_close_takes_the_tooltip_along(ledger: PopupView, id: u64)
    ensures
        id == 0 ==> ledger.on_popup_closed(id) == (ledger, TaskView::none()),
        id != 0 ==> {
            &&& ledger.on_popup_closed(id).1.calls.len() == 0
            &&& ledger.on_popup_closed(id).1.effects == seq![
                Effect::Surface(SurfaceAction::DestroyPopup(0)),
            ]
        },
{
}

/// The close of the open popup ends its session: none is open, none of its
/// menus is, and their closes are still to come.
pub proof fn our_popups_close_ends_the_session(ledger: PopupView, id: u64)
    requires
        id != 0,
        ledger.popup == Some(id),
        ledger.stale_menu_closes + ledger.dropdowns_open <= u32::MAX,
    ensures
        ledger.on_popup_closed(id).0 == (PopupView {
            popup: None,
            dropdowns_open: 0,
            stale_menu_closes: (ledger.stale_menu_closes + ledger.dropdowns_open) as u32,
            closing_popups: ledger.closing_popups,
        }),
{
}

/// The close of a popup we took ourselves settles its own entry, the first one
/// under its id, and touches nothing else.
pub proof fn a_taken_popups_close_settles_its_entry(ledger: PopupView, at: int)
    requires
        0 <= at < ledger.closing_popups.len(),
        ledger.closing_popups[at].id != 0,
        ledger.popup != Some(ledger.closing_popups[at].id),
        forall|i: int|
            0 <= i < at ==> (#[trigger] ledger.closing_popups[i]).id
                != ledger.closing_popups[at].id,
    ensures
        ledger.on_popup_closed(ledger.closing_popups[at].id).0 == (PopupView {
            closing_popups: ledger.closing_popups.remove(at),
            ..ledger
        }),
{
    the_first_place_is_found(ledger.closing_popups, ledger.closing_popups[at].id, 0, at);
}

/// Any other close is a menu's. It pays a debt of a dismissed session first,
/// then one of the popup taken longest ago that owes any, and only then does
/// it count as a menu of the open session.
pub proof fn a_menus_close_is_paid_in_order(ledger: PopupView, id: u64, at: int)
    requires
        id != 0,
        ledger.popup != Some(id),
        forall|i: int|
            0 <= i < ledger.closing_popups.len() ==> (#[trigger] ledger.closing_popups[i]).id != id,
    ensures
        ledger.stale_menu_closes > 0 ==> ledger.on_popup_closed(id).0 == (PopupView {
            stale_menu_closes: (ledger.stale_menu_closes - 1) as u32,
            ..ledger
        }),
        ledger.stale_menu_closes == 0 && 0 <= at < ledger.closing_popups.len()
            && ledger.closing_popups[at].menus_owed > 0 && (forall|i: int|
            0 <= i < at ==> (#[trigger] ledger.closing_popups[i]).menus_owed == 0)
            ==> ledger.on_popup_closed(id).0 == (PopupView {
            closing_popups: ledger.closing_popups.update(
                at,
                ClosingPopup {
                    id: ledger.closing_popups[at].id,
                    menus_owed: (ledger.closing_popups[at].menus_owed - 1) as u32,
                },
            ),
            ..ledger
        }),
        ledger.stale_menu_closes == 0 && (forall|i: int|
            0 <= i < ledger.closing_popups.len()
                ==> (#[trigger] ledger.closing_popups[i]).menus_owed == 0)
            ==> ledger.on_popup_closed(id).0 == (PopupView {
            dropdowns_open: if ledger.dropdowns_open == 0 {
                0
            } else {
                (ledger.dropdowns_open - 1) as u32
            },
            ..ledger
        }),
{
    no_place_is_found(ledger.closing_popups, id, 0);
    if 0 <= at < ledger.closing_popups.len() && ledger.closing_popups[at].menus_owed > 0 && (
    forall|i: int| 0 <= i < at ==> (#[trigger] ledger.closing_popups[i]).menus_owed == 0) {
        the_first_debtor_is_found(ledger.closing_popups, 0, at);
    }
    if forall|i: int|
        0 <= i < ledger.closing_popups.len() ==> (#[trigger] ledger.closing_popups[i]).menus_owed
            == 0 {
        no_debtor_is_found(ledger.closing_popups, 0);
    }
}

/// A popup that opened is the open one. What it displaces is expected to
/// close, and what a dismissed session owed is forgotten.
pub proof fn an_opened_popup_is_the_open_one(ledger: PopupView, id: u64)
    ensures
        ledger.adopt_popup(id) == (PopupView {
            popup: Some(id),
            dropdowns_open: ledger.dropdowns_open,
            stale_menu_closes: 0,
            closing_popups: match ledger.popup {
                Some(displaced) => ledger.closing_popups.push(
                    ClosingPopup { id: displaced, menus_owed: 0 },
                ),
                None => ledger.closing_popups,
            },
        }),
{
}

/// The panel icon closes the open popup: its destroy is requested, and its
/// close and those of its menus are expected. With none open it opens one,
/// and a process without the lock, waiting for nothing, reads its state anew
/// beside that.
pub proof fn the_icon_toggles_the_popup(window: WindowView)
    ensures
        ({
            let (after, task) = window.toggle_popup();
            let idle = !window.role.leadership.leader && !window.peers.peer_refresh_write_pending
                && window.peers.requested_peer_refresh is None && !window.work.refresh_pending;
            &&& task.calls.len() == 0
            &&& window.popups.popup matches Some(id) ==> {
                &&& task.effects == seq![Effect::Surface(SurfaceAction::DestroyPopup(id))]
                &&& after == (WindowView {
                    popups: PopupView {
                        popup: None,
                        dropdowns_open: 0,
                        stale_menu_closes: window.popups.stale_menu_closes,
                        closing_popups: window.popups.closing_popups.push(
                            ClosingPopup { id, menus_owed: window.popups.dropdowns_open },
                        ),
                    },
                    ..window
                })
            }
            &&& window.popups.popup is None ==> {
                &&& task.effects == seq![Effect::OpenPopup] + started_if(
                    idle,
                    Effect::Reload { generation: after.peers.non_leader_reload_generation },
                )
                &&& !idle ==> after == window
                &&& idle ==> after.peers.non_leader_reload_generation
                    != window.peers.non_leader_reload_generation
                    && after.peers.non_leader_reload_repairs
                &&& after.popups == window.popups && after.gallery == window.gallery
            }
        }),
{
}

/// A menu's create is counted and comes after the tooltip's destroy, a menu's
/// destroy before it; any other request passes as it is.
pub proof fn a_menus_requests_pass(ledger: PopupView, which: u64)
    requires
        ledger.dropdowns_open < u32::MAX,
    ensures
        ({
            let tooltip = Effect::Surface(SurfaceAction::DestroyPopup(0));
            let more = PopupView {
                dropdowns_open: (ledger.dropdowns_open + 1) as u32,
                ..ledger
            };
            let popup = ledger.on_dropdown_surface(SurfaceAction::Popup(which));
            let app = ledger.on_dropdown_surface(SurfaceAction::AppPopup(which));
            let gone = ledger.on_dropdown_surface(SurfaceAction::DestroyPopup(which));
            let other = ledger.on_dropdown_surface(SurfaceAction::Other(which));
            &&& popup.0 == more && app.0 == more && gone.0 == ledger && other.0 == ledger
            &&& popup.1.effects == seq![tooltip, Effect::Surface(SurfaceAction::Popup(which))]
            &&& app.1.effects == seq![tooltip, Effect::Surface(SurfaceAction::AppPopup(which))]
            &&& gone.1.effects == seq![
                Effect::Surface(SurfaceAction::DestroyPopup(which)),
                tooltip,
            ]
            &&& other.1.effects == seq![Effect::Surface(SurfaceAction::Other(which))]
            &&& popup.1.calls.len() == 0 && app.1.calls.len() == 0 && gone.1.calls.len() == 0
                && other.1.calls.len() == 0
        }),
{
}

/// A web address is `https://` or `http://` and anything after it.
pub proof fn a_web_address_is_told_by_its_beginning(link: Seq<char>, rest: Seq<char>)
    ensures
        is_web_link("https://"@ + rest),
        is_web_link("http://"@ + rest),
        is_web_link(link) ==> link == "https://"@ + link.skip("https://"@.len() as int) || link
            == "http://"@ + link.skip("http://"@.len() as int),
        has_prefix(link, rest) <==> exists|end: Seq<char>| link == #[trigger] (rest + end),
{
    let secure = "https://"@;
    let plain = "http://"@;
    assert((secure + rest).subrange(0, secure.len() as int) == secure);
    assert((plain + rest).subrange(0, plain.len() as int) == plain);
    if has_prefix(link, secure) {
        assert(link == secure + link.skip(secure.len() as int));
    }
    if has_prefix(link, plain) {
        assert(link == plain + link.skip(plain.len() as int));
    }
    if has_prefix(link, rest) {
        assert(link == rest + link.skip(rest.len() as int));
    }
    if exists|end: Seq<char>| link == #[trigger] (rest + end) {
        let end = choose|end: Seq<char>| link == #[trigger] (rest + end);
        assert((rest + end).subrange(0, rest.len() as int) == rest);
    }
}

/// A setting that is taken over changes its own field to its own value, and no
/// other; settings are told apart by their slots.
pub proof fn a_setting_changes_its_own_field(
    config: AppletConfig,
    flag: bool,
    seconds: u32,
    days: u16,
)
    ensures
        adopted(config, AppletSetting::ShuffleEnabled(flag)) == (AppletConfig {
            shuffle_enabled: flag,
            ..config
        }),
        adopted(config, AppletSetting::ShuffleInterval(seconds)) == (AppletConfig {
            shuffle_interval_secs: seconds,
            ..config
        }),
        adopted(config, AppletSetting::Retention(days)) == (AppletConfig {
            retention_days: days,
            ..config
        }),
        adopted(config, AppletSetting::AccentEnabled(flag)) == (AppletConfig {
            accent_enabled: flag,
            ..config
        }),
        AppletSetting::ShuffleEnabled(flag).persist_spec() == ConfigWrite::ShuffleEnabled(flag),
        AppletSetting::ShuffleInterval(seconds).persist_spec() == ConfigWrite::ShuffleInterval(
            seconds,
        ),
        AppletSetting::Retention(days).persist_spec() == ConfigWrite::Retention(days),
        AppletSetting::AccentEnabled(flag).persist_spec() == ConfigWrite::AccentEnabled(flag),
        AppletSetting::ShuffleEnabled(flag).slot_spec() == 0,
        AppletSetting::ShuffleInterval(seconds).slot_spec() == 1,
        AppletSetting::Retention(days).slot_spec() == 2,
        AppletSetting::AccentEnabled(flag).slot_spec() == 3,
{
}

/// What stands at a place of a dropdown is what picking that place gives.
pub proof fn a_dropdown_gives_what_it_shows(choices: ChoicesView, index: int)
    ensures
        0 <= index < choices.intervals.len() ==> choices.interval_at(index)
            == choices.intervals[index],
        0 <= index < choices.retentions.len() ==> choices.retention_at(index)
            == choices.retentions[index],
{
}

proof fn one_more_persist(writes: Seq<ConfigWrite>, changed: bool, write: ConfigWrite)
    ensures
        persists(writes + write_if(changed, write)).calls == persists(writes).calls + called_if(
            changed,
            Call::Persist(write),
        ),
        persists(Seq::empty()).calls == Seq::<Call>::empty(),
{
    assert(persists(writes + write_if(changed, write)).calls =~= persists(writes).calls + called_if(
        changed,
        Call::Persist(write),
    ));
}

/// A leader that takes settings over persists each key that changed, with its
/// new value, and no other; without a store it takes them over all the same.
pub proof fn changed_settings_are_persisted(window: WindowView, config: AppletConfig)
    requires
        leads(window),
    ensures
        ({
            let (after, task) = window.set_config(config);
            let held = window.settings.config;
            let calls = if window.settings.config_context {
                called_if(
                    held.shuffle_enabled != config.shuffle_enabled,
                    Call::Persist(ConfigWrite::ShuffleEnabled(config.shuffle_enabled)),
                ) + called_if(
                    held.shuffle_interval_secs != config.shuffle_interval_secs,
                    Call::Persist(ConfigWrite::ShuffleInterval(config.shuffle_interval_secs)),
                ) + called_if(
                    held.retention_days != config.retention_days,
                    Call::Persist(ConfigWrite::Retention(config.retention_days)),
                ) + called_if(
                    held.accent_enabled != config.accent_enabled,
                    Call::Persist(ConfigWrite::AccentEnabled(config.accent_enabled)),
                ) + called_if(
                    held.accent_snapshot != config.accent_snapshot,
                    Call::Persist(ConfigWrite::AccentSnapshot(config.accent_snapshot)),
                ) + called_if(
                    held.accent_last_written != config.accent_last_written,
                    Call::Persist(ConfigWrite::AccentLastWritten(config.accent_last_written)),
                )
            } else {
                Seq::empty()
            };
            &&& after == (WindowView {
                settings: SettingsView { config, ..window.settings },
                ..window
            })
            &&& task.effects.len() == 0
            &&& task.calls == calls
        }),
{
    let held = window.settings.config;
    let w1 = ConfigWrite::ShuffleEnabled(config.shuffle_enabled);
    let w2 = ConfigWrite::ShuffleInterval(config.shuffle_interval_secs);
    let w3 = ConfigWrite::Retention(config.retention_days);
    let w4 = ConfigWrite::AccentEnabled(config.accent_enabled);
    let w5 = ConfigWrite::AccentSnapshot(config.accent_snapshot);
    let w6 = ConfigWrite::AccentLastWritten(config.accent_last_written);
    let s1 = write_if(held.shuffle_enabled != config.shuffle_enabled, w1);
    let s2 = s1 + write_if(held.shuffle_interval_secs != config.shuffle_interval_secs, w2);
    let s3 = s2 + write_if(held.retention_days != config.retention_days, w3);
    let s4 = s3 + write_if(held.accent_enabled != config.accent_enabled, w4);
    let s5 = s4 + write_if(held.accent_snapshot != config.accent_snapshot, w5);
    one_more_persist(Seq::empty(), held.shuffle_enabled != config.shuffle_enabled, w1);
    assert(Seq::<ConfigWrite>::empty() + s1 == s1);
    one_more_persist(s1, held.shuffle_interval_secs != config.shuffle_interval_secs, w2);
    one_more_persist(s2, held.retention_days != config.retention_days, w3);
    one_more_persist(s3, held.accent_enabled != config.accent_enabled, w4);
    one_more_persist(s4, held.accent_snapshot != config.accent_snapshot, w5);
    one_more_persist(s5, held.accent_last_written != config.accent_last_written, w6);
}

/// Settings that a process which does not lead hands over are dropped: neither
/// memory nor disk changes.
pub proof fn only_a_leader_sets_the_settings(window: WindowView, config: AppletConfig)
    requires
        !leads(window),
    ensures
        window.set_config(config) == (window, TaskView::none()),
{
}

/// A setting of the user's: without a store it holds at once, except that the
/// accent feature is not switched on; with one it is written as a key of its
/// own, in its turn, and holds at once in a leader and not yet in a follower.
pub proof fn a_users_setting_is_written_in_turn(window: WindowView, setting: AppletSetting)
    requires
        window.settings.setting_write_generations.len() == 4,
    ensures
        ({
            let (after, task) = window.set_applet_setting(setting);
            let context = window.settings.config_context;
            let slot = setting.slot_spec();
            let generation = after.settings.setting_write_generations[slot];
            let queue = window.settings.setting_write_queue.push((generation, setting));
            &&& task.calls.len() == 0
            &&& !context && setting == AppletSetting::AccentEnabled(true) ==> (after, task) == (
                window,
                TaskView::none(),
            )
            &&& !context && setting != AppletSetting::AccentEnabled(true) ==> task.effects.len()
                == 0 && after.settings == (SettingsView {
                config: adopted(window.settings.config, setting),
                ..window.settings
            })
            &&& context ==> {
                &&& after.settings.config == (if leads(window) {
                    adopted(window.settings.config, setting)
                } else {
                    window.settings.config
                })
                &&& generation != window.settings.setting_write_generations[slot]
                &&& forall|other: int|
                    0 <= other < 4 && other != slot
                        ==> #[trigger] after.settings.setting_write_generations[other]
                        == window.settings.setting_write_generations[other]
                &&& after.settings.setting_write_inflight
                &&& window.settings.setting_write_inflight ==> task.effects.len() == 0
                    && after.settings.setting_write_queue == queue
                &&& !window.settings.setting_write_inflight ==> task.effects == seq![
                    Effect::WriteSetting { generation: queue[0].0, setting: queue[0].1 },
                ] && after.settings.setting_write_queue == queue.subrange(1, queue.len() as int)
            }
            &&& after == (WindowView { settings: after.settings, ..window })
        }),
{
}

/// A shuffle control of a leader starts the countdown over by the new setting;
/// a follower's starts nothing.
pub proof fn a_shuffle_control_restarts_the_countdown(
    window: WindowView,
    enabled: bool,
    seconds: u32,
)
    requires
        roomy(window),
        window.settings.setting_write_generations.len() == 4,
    ensures
        ({
            let two = window.gallery.images.len() >= 2;
            let generation = (window.timers.shuffle_generation + 1) as u64;
            let (w1, t1) = window.set_shuffle(AppletSetting::ShuffleEnabled(enabled));
            let (w2, t2) = window.set_shuffle(AppletSetting::ShuffleInterval(seconds));
            let p1 = window.set_applet_setting(AppletSetting::ShuffleEnabled(enabled)).1;
            let p2 = window.set_applet_setting(AppletSetting::ShuffleInterval(seconds)).1;
            &&& t1.calls == p1.calls && t2.calls == p2.calls
            &&& t1.effects == p1.effects + started_if(
                leads(window) && enabled && two,
                Effect::ShuffleTimer {
                    generation,
                    interval_secs: window.settings.config.shuffle_interval_secs,
                },
            )
            &&& t2.effects == p2.effects + started_if(
                leads(window) && window.settings.config.shuffle_enabled && two,
                Effect::ShuffleTimer { generation, interval_secs: seconds },
            )
            &&& leads(window) ==> w1.timers.shuffle_armed == (enabled && two)
                && w1.settings.config.shuffle_enabled == enabled
            &&& leads(window) ==> w2.timers.shuffle_armed == (
            window.settings.config.shuffle_enabled && two)
                && w2.settings.config.shuffle_interval_secs == seconds
            &&& !leads(window) ==> w1.timers == window.timers && w2.timers == window.timers
        }),
{
}

/// A retention control of a leader that keeps less prunes at once; one that
/// keeps as much or more, and a follower's, deletes nothing.
pub proof fn a_retention_control_prunes_what_is_over(window: WindowView, index: int)
    requires
        0 <= index < window.settings.choices.retentions.len(),
        window.settings.setting_write_generations.len() == 4,
    ensures
        ({
            let days = window.settings.choices.retentions[index];
            let held = window.settings.config.retention_days;
            let (after, task) = window.set_retention(index);
            let persist = window.set_applet_setting(AppletSetting::Retention(days));
            &&& after == persist.0
            &&& task.effects == persist.1.effects
            &&& task.calls == called_if(
                leads(window) && days != 0 && (held == 0 || days < held),
                Call::ReadLive(LiveUse::Prune { shuffle_changed: false, accent_flip: None }),
            )
        }),
{
}

/// Settings that changed on disk outdate a takeover's reading, and otherwise
/// are read from disk where that can be done, for the role the process has
/// now; where it cannot, what was announced counts.
pub proof fn changed_settings_are_read_again(window: WindowView, payload: AppletConfig)
    ensures
        ({
            let (after, task) = window.config_updated(payload);
            let taking_over = window.role.leadership.leader && window.role.leader_readiness
                is Hydrating;
            let generation = after.settings.config_confirmation_generation;
            let seen = WindowView {
                role: Role {
                    leadership_state_generation: after.role.leadership_state_generation,
                    ..window.role
                },
                ..window
            };
            let asked = WindowView {
                settings: SettingsView {
                    config_confirmation_generation: generation,
                    ..window.settings
                },
                ..seen
            };
            &&& after.role.leadership_state_generation != window.role.leadership_state_generation
            &&& taking_over ==> (after, task) == (seen, TaskView::none())
            &&& !taking_over ==> generation != window.settings.config_confirmation_generation
            &&& !taking_over && window.settings.config_context ==> {
                &&& after == asked
                &&& task.calls.len() == 0 && task.effects.len() == 1
                &&& task.effects[0] matches Effect::ConfirmConfig {
                    generation: asked_for,
                    was_active_leader,
                    payload: announced,
                } && asked_for == generation && was_active_leader == leads(window)
                    && announced.shuffle_enabled == payload.shuffle_enabled
                    && announced.shuffle_interval_secs == payload.shuffle_interval_secs
                    && announced.accent_enabled == payload.accent_enabled
            }
            &&& !taking_over && !window.settings.config_context ==> (after, task)
                == asked.finish_config_confirmation(generation, leads(window), payload)
        }),
{
    let w = window.watcher_event().confirming();
    let normal = normalized(payload, window.settings.choices);
    normalizing_gives_supported_settings(payload, window.settings.choices);
    assert(w.finish_config_confirmation(
        w.settings.config_confirmation_generation,
        leads(window),
        normal,
    ) == w.finish_config_confirmation(
        w.settings.config_confirmation_generation,
        leads(window),
        payload,
    ));
}

/// Confirmed settings with a supported retention, in a follower: everything
/// but the records of the accent feature is taken over, and nothing started.
pub proof fn a_follower_takes_confirmed_settings_over(window: WindowView, config: AppletConfig)
    requires
        !leads(window),
        window.settings.choices.retentions.contains(config.retention_days),
    ensures
        ({
            let (after, task) = window.finish_config_confirmation(
                window.settings.config_confirmation_generation,
                false,
                config,
            );
            &&& task == TaskView::none()
            &&& after == (WindowView {
                settings: SettingsView {
                    config: AppletConfig {
                        accent_snapshot: window.settings.config.accent_snapshot,
                        accent_last_written: window.settings.config.accent_last_written,
                        ..config
                    },
                    ..window.settings
                },
                ..window
            })
        }),
{
}

/// Confirmed settings with a supported retention, in a leader: the shuffle's
/// and the retention's are taken over at once, a retention that keeps less
/// prunes and hands the rest along, a changed shuffle starts its countdown
/// over, and a flip of the accent flag is a toggle, except during a flight.
pub proof fn a_leader_acts_on_confirmed_settings(window: WindowView, config: AppletConfig)
    requires
        leads(window),
        roomy(window),
        window.settings.choices.retentions.contains(config.retention_days),
    ensures
        ({
            let (after, task) = window.finish_config_confirmation(
                window.settings.config_confirmation_generation,
                true,
                config,
            );
            let held = window.settings.config;
            let changed = config.shuffle_enabled != held.shuffle_enabled
                || config.shuffle_interval_secs != held.shuffle_interval_secs;
            let flips = window.accent.accent_inflight is None && config.accent_enabled
                != held.accent_enabled;
            let less = config.retention_days != 0 && (held.retention_days == 0
                || config.retention_days < held.retention_days);
            let rotates = config.shuffle_enabled && window.gallery.images.len() >= 2;
            let taken = WindowView {
                settings: SettingsView {
                    config: AppletConfig {
                        shuffle_enabled: config.shuffle_enabled,
                        shuffle_interval_secs: config.shuffle_interval_secs,
                        retention_days: config.retention_days,
                        ..held
                    },
                    ..window.settings
                },
                ..window
            };
            let restart = started_if(
                changed && rotates,
                Effect::ShuffleTimer {
                    generation: (window.timers.shuffle_generation + 1) as u64,
                    interval_secs: config.shuffle_interval_secs,
                },
            );
            &&& after.settings.config.shuffle_enabled == config.shuffle_enabled
            &&& after.settings.config.shuffle_interval_secs == config.shuffle_interval_secs
            &&& after.settings.config.retention_days == config.retention_days
            &&& after.settings.config.accent_snapshot == held.accent_snapshot
            &&& less ==> after == taken && task.effects.len() == 0 && task.calls == seq![
                Call::ReadLive(
                    LiveUse::Prune {
                        shuffle_changed: changed,
                        accent_flip: if flips {
                            Some(config.accent_enabled)
                        } else {
                            None
                        },
                    },
                ),
            ]
            &&& !less && !flips ==> {
                &&& task.calls.len() == 0 && task.effects == restart
                &&& changed ==> after.timers.shuffle_armed == rotates
                &&& !changed ==> after == taken
                &&& after.settings == taken.settings
            }
            &&& !less && flips ==> {
                let flipped = WindowView { timers: after.timers, ..taken }.set_accent_enabled(
                    config.accent_enabled,
                    false,
                );
                &&& after == flipped.0
                &&& task.calls == flipped.1.calls
                &&& task.effects == restart + flipped.1.effects
                &&& changed ==> after.timers.shuffle_armed == rotates
                &&& !changed ==> after.timers == window.timers
            }
        }),
{
    let taken = window.with_config(window.leader_config(config));
    toggle_stays_quiet(taken, config.accent_enabled, false);
    toggle_stays_quiet(
        taken.sync_shuffle(true).0,
        config.accent_enabled,
        false,
    );
    assert(taken.sync_shuffle(true).0 == (WindowView {
        timers: taken.sync_shuffle(true).0.timers,
        ..taken
    }));
}

/// Every message leads to the reaction it is meant for.
pub proof fn every_message_reaches_its_reaction(window: WindowView, message: Message, now: u64)
    ensures
        match message {
            Message::TogglePopup => window.update(message, now) == window.toggle_popup(),
            Message::PopupOpened(id) => window.update(message, now) == (
                WindowView { popups: window.popups.adopt_popup(id), ..window },
                TaskView::none(),
            ),
            Message::PopupClosed(id) => window.update(message, now) == (
                WindowView { popups: window.popups.on_popup_closed(id).0, ..window },
                window.popups.on_popup_closed(id).1,
            ),
            Message::TooltipSurface(action) => window.update(message, now) == (
                window,
                window.popups.on_tooltip_surface(action),
            ),
            Message::DropdownSurface(action) => window.update(message, now) == (
                WindowView { popups: window.popups.on_dropdown_surface(action).0, ..window },
                window.popups.on_dropdown_surface(action).1,
            ),
            Message::ConfigUpdated(config) => window.update(message, now)
                == window.config_updated(config),
            Message::ConfigConfirmed { generation, was_active_leader, config } => window.update(
                message,
                now,
            ) == window.finish_config_confirmation(generation, was_active_leader, config),
            Message::CoordinationUpdated(incoming) => window.update(message, now)
                == window.coordination_updated(incoming, now),
            Message::PeerRefreshLiveRead { request, live } => window.update(message, now)
                == window.finish_peer_refresh_live_read(request, live),
            Message::LeadershipTick(generation) => window.update(message, now)
                == window.on_leadership_tick(generation),
            Message::LeadershipTried(taken) => window.update(message, now)
                == window.leadership_tried(taken),
            Message::LeadershipHydrated { generation, state_generation, result } => window.update(
                message,
                now,
            ) == window.finish_leadership_hydration(generation, state_generation, result),
            Message::NonLeaderReloaded { generation, result } => window.update(message, now)
                == window.finish_non_leader_reload(generation, result),
            Message::AppletSettingWritten { generation, setting, result } => window.update(
                message,
                now,
            ) == window.finish_applet_setting_write(generation, setting, result is Ok),
            Message::RefreshDue(generation) => window.update(message, now) == (
                window,
                window.refresh_due(generation),
            ),
            Message::LiveRead { purpose, live } => window.update(message, now)
                == window.live_read(purpose, live),
            Message::RefreshFinished { result, live } => window.update(message, now)
                == window.finish_refresh_over(result, live),
            Message::Merged { images, tail } => window.update(message, now)
                == window.finish_merge(images@, tail),
            Message::Pruned { images, tail } => window.update(message, now)
                == window.finish_prune(images@, tail, now),
            Message::PeerRefreshRequested(result) => window.update(message, now)
                == window.finish_peer_refresh_request(result, now),
            Message::PeerRefreshCompletionWritten { completion, result } => window.update(
                message,
                now,
            ) == (window.completion_written(completion, result), TaskView::none()),
            Message::PeerRefreshTimeout { generation, request } => window.update(message, now)
                == window.timeout_peer_refresh(generation, request),
            Message::PeerApplyNoticeWritten(result) => window.update(message, now) == (
                window.notice_written(result),
                TaskView::none(),
            ),
            Message::PeerApplyValidated { generation, live } => window.update(message, now)
                == window.finish_peer_apply_validation(generation, live),
            Message::ThumbnailsReady(live) => window.update(message, now)
                == window.thumbnails_ready(live),
            Message::ApplyImage(path) => window.update(message, now) == (
                window,
                TaskView {
                    calls: seq![Call::Apply { path, why: ApplyReason::Manual }],
                    effects: Seq::empty(),
                },
            ),
            Message::Applied { path, why, outcome } => window.update(message, now)
                == window.applied(path, why, outcome),
            Message::RefreshNow => window.update(message, now) == window.refresh_now(),
            Message::OpenUrl(url) => window.update(message, now) == (
                window,
                TaskView {
                    calls: called_if(is_web_link(url@), Call::OpenUrl(url)),
                    effects: Seq::empty(),
                },
            ),
            Message::OpenFile(path) => window.update(message, now) == (
                window,
                TaskView {
                    calls: called_if(absolute_path(path), Call::OpenFile(path)),
                    effects: Seq::empty(),
                },
            ),
            Message::ShuffleDue(generation) => window.update(message, now)
                == window.shuffle_due(generation),
            Message::ShufflePicked(pick) => window.update(message, now)
                == window.shuffle_picked(pick),
            Message::SetShuffleEnabled(enabled) => window.update(message, now)
                == window.set_shuffle(AppletSetting::ShuffleEnabled(enabled)),
            Message::SetShuffleInterval(index) => window.update(message, now)
                == window.set_shuffle(
                AppletSetting::ShuffleInterval(window.settings.choices.interval_at(index as int)),
            ),
            Message::SetRetention(index) => window.update(message, now) == window.set_retention(
                index as int,
            ),
            Message::SetAccentEnabled(enabled) => window.update(message, now)
                == window.set_accent_enabled(enabled, false),
            Message::AccentComputed { source, hue } => window.update(message, now)
                == window.finish_accent_compute(source, hue),
            Message::AccentPlanned { action, builders } => window.update(message, now)
                == window.execute_accent_action(action, builders),
            Message::AccentsRead { accents, after } => window.update(message, now)
                == window.snapshot_for_enable(accents, after),
            Message::AccentPersisted { step, landed } => window.update(message, now)
                == window.accent_persisted(step, landed),
            Message::AccentBaseline(enabled) => window.update(message, now) == (
                window.note_accent_baseline(enabled),
                TaskView::none(),
            ),
            Message::AccentWriteFinished { generation, success, disk_enabled } => window.update(
                message,
                now,
            ) == window.finish_accent_task(generation, success, disk_enabled),
            Message::LockEvent(_) => window.update(message, now) == window.arm_lock_pokes(),
            Message::LockPokeDue(generation) => window.update(message, now) == (
                window,
                window.lock_poke_due(generation),
            ),
            Message::LockPokeFinished(_) => window.update(message, now) == (
                window,
                TaskView::none(),
            ),
        },
{
}

/// A write that completed frees the line for the next one. A follower takes
/// the setting over if it landed and nothing newer was asked for; a leader has
/// done so before.
pub proof fn a_completed_write_frees_the_line(
    window: WindowView,
    generation: u64,
    setting: AppletSetting,
    landed: bool,
)
    ensures
        ({
            let (after, task) = window.finish_applet_setting_write(generation, setting, landed);
            let queue = window.settings.setting_write_queue;
            let goes_on = window.settings.config_context && queue.len() > 0;
            let takes = !leads(window) && landed && generation
                == window.settings.setting_write_generations[setting.slot_spec()];
            &&& task.calls.len() == 0
            &&& task.effects == (if goes_on {
                seq![Effect::WriteSetting { generation: queue[0].0, setting: queue[0].1 }]
            } else {
                Seq::empty()
            })
            &&& after == (WindowView {
                settings: SettingsView {
                    config: if takes {
                        adopted(window.settings.config, setting)
                    } else {
                        window.settings.config
                    },
                    setting_write_inflight: goes_on,
                    setting_write_queue: if goes_on {
                        queue.subrange(1, queue.len() as int)
                    } else {
                        queue
                    },
                    ..window.settings
                },
                ..window
            })
        }),
{
}

/// An offered retention is kept, any other becomes eight days, and nothing
/// else is touched. A place a dropdown does not have gives the default too.
pub proof fn only_the_retention_is_put_right(
    config: AppletConfig,
    choices: ChoicesView,
    index: int,
)
    ensures
        choices.retentions.contains(config.retention_days) ==> normalized(config, choices)
            == config,
        !choices.retentions.contains(config.retention_days) ==> normalized(config, choices) == (
        AppletConfig { retention_days: 8, ..config }),
        index >= choices.retentions.len() ==> choices.retention_at(index) == 8,
        index >= choices.intervals.len() ==> choices.interval_at(index) == 86_400,
{
}

} // verus!
