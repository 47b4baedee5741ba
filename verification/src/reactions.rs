//! The reaction to every message, group by group: where the laws of the applet
//! as a whole and those of its gallery come together.

use vstd::prelude::*;
use crate::gallery_laws::{
    accent_messages_keep_the_gallery, announcements_keep_the_gallery, answers_keep_the_gallery,
    applies_keep_the_gallery, completions_keep_the_gallery, confirmations_keep_the_gallery,
    keeps_the_gallery, merges_keep_the_gallery, peer_messages_keep_the_gallery,
    prunes_keep_the_gallery, refresh_messages_keep_the_gallery,
    setting_messages_keep_the_gallery, shuffle_messages_keep_the_gallery,
    surface_messages_keep_the_gallery, takeover_messages_keep_the_gallery,
    toggles_keep_the_gallery,
};
use crate::laws::{
    accent_messages_are_lawful, announcements_are_lawful, answers_are_lawful,
    applies_are_lawful, completions_are_lawful, confirmations_are_lawful, lawful, may_arrive,
    merges_are_lawful, peer_messages_are_lawful, prunes_are_lawful, refresh_messages_are_lawful,
    setting_messages_are_lawful, shuffle_messages_are_lawful, surface_messages_are_lawful,
    takeover_messages_are_lawful, toggles_are_lawful,
};
use crate::message::Message;
use crate::window::WindowView;

verus! {

/// Messages whose reactions are reasoned about together.
pub enum Group {
    /// Popups, menus, tooltips, links, and the lock screen.
    Surfaces,
    /// What passes between the processes, and the refresh button.
    Peers,
    /// The leader lock and the state behind it.
    Takeover,
    /// The refresh timer, the display, a finished fetch or pass.
    Refresh,
    /// The shuffle timer and its pick.
    Shuffle,
    /// A merged catalogue.
    Merges,
    /// An answered apply.
    Applies,
    /// The shuffle and retention controls, and their writes.
    Controls,
    /// Settings that changed on disk.
    Announcements,
    /// Settings read for a change.
    Confirmations,
    /// A pruned catalogue.
    Prunes,
    /// The accent toggler.
    Toggles,
    /// An extracted accent on its way to the themes.
    AccentSteps,
    /// An answered persist of the accent feature.
    AccentAnswers,
    /// A theme task that completed.
    AccentCompletions,
}

/// The group of a message.
pub open spec fn group_of(message: Message) -> Group {
    match message {
        Message::TogglePopup | Message::PopupOpened(_) | Message::PopupClosed(_)
        | Message::TooltipSurface(_) | Message::DropdownSurface(_) | Message::OpenUrl(_)
        | Message::OpenFile(_) | Message::ApplyImage(_) | Message::LockEvent(_)
        | Message::LockPokeDue(_) | Message::LockPokeFinished(_) => Group::Surfaces,
        Message::CoordinationUpdated(_) | Message::PeerRefreshLiveRead { .. }
        | Message::PeerRefreshRequested(_) | Message::PeerRefreshCompletionWritten { .. }
        | Message::PeerRefreshTimeout { .. } | Message::PeerApplyNoticeWritten(_)
        | Message::PeerApplyValidated { .. } | Message::NonLeaderReloaded { .. }
        | Message::RefreshNow => Group::Peers,
        Message::LeadershipTick(_) | Message::LeadershipTried(_)
        | Message::LeadershipHydrated { .. } => Group::Takeover,
        Message::RefreshDue(_) | Message::LiveRead { .. } | Message::RefreshFinished { .. }
        | Message::ThumbnailsReady(_) => Group::Refresh,
        Message::ShuffleDue(_) | Message::ShufflePicked(_) => Group::Shuffle,
        Message::Merged { .. } => Group::Merges,
        Message::Applied { .. } => Group::Applies,
        Message::SetShuffleEnabled(_) | Message::SetShuffleInterval(_) | Message::SetRetention(_)
        | Message::AppletSettingWritten { .. } => Group::Controls,
        Message::ConfigUpdated(_) => Group::Announcements,
        Message::ConfigConfirmed { .. } => Group::Confirmations,
        Message::Pruned { .. } => Group::Prunes,
        Message::SetAccentEnabled(_) => Group::Toggles,
        Message::AccentComputed { .. } | Message::AccentPlanned { .. }
        | Message::AccentsRead { .. } | Message::AccentBaseline(_) => Group::AccentSteps,
        Message::AccentPersisted { .. } => Group::AccentAnswers,
        Message::AccentWriteFinished { .. } => Group::AccentCompletions,
    }
}

/// The reaction to a message keeps every law of the applet.
pub open spec fn in_order(window: WindowView, message: Message, now: u64) -> bool {
    let (after, task) = window.update(message, now);
    &&& lawful(window, message, after, task)
    &&& keeps_the_gallery(window, message, after, task)
}

/// Whatever message arrives, the reaction is in order.
pub proof fn every_message_is_in_order(window: WindowView, message: Message, now: u64)
    requires
        window.has_headroom(),
        may_arrive(window, message),
    ensures
        in_order(window, message, now),
{
    match group_of(message) {
        Group::Surfaces => {
            surface_messages_are_lawful(window, message, now);
            surface_messages_keep_the_gallery(window, message, now);
        },
        Group::Peers => {
            peer_messages_are_lawful(window, message, now);
            peer_messages_keep_the_gallery(window, message, now);
        },
        Group::Takeover => {
            takeover_messages_are_lawful(window, message, now);
            takeover_messages_keep_the_gallery(window, message, now);
        },
        Group::Refresh => {
            refresh_messages_are_lawful(window, message, now);
            refresh_messages_keep_the_gallery(window, message, now);
        },
        Group::Shuffle => {
            shuffle_messages_are_lawful(window, message, now);
            shuffle_messages_keep_the_gallery(window, message, now);
        },
        Group::Merges => {
            merges_are_lawful(window, message, now);
            merges_keep_the_gallery(window, message, now);
        },
        Group::Applies => {
            applies_are_lawful(window, message, now);
            applies_keep_the_gallery(window, message, now);
        },
        Group::Controls => {
            setting_messages_are_lawful(window, message, now);
            setting_messages_keep_the_gallery(window, message, now);
        },
        Group::Announcements => {
            announcements_are_lawful(window, message, now);
            announcements_keep_the_gallery(window, message, now);
        },
        Group::Confirmations => {
            confirmations_are_lawful(window, message, now);
            confirmations_keep_the_gallery(window, message, now);
        },
        Group::Prunes => {
            prunes_are_lawful(window, message, now);
            prunes_keep_the_gallery(window, message, now);
        },
        Group::Toggles => {
            toggles_are_lawful(window, message, now);
            toggles_keep_the_gallery(window, message, now);
        },
        Group::AccentSteps => {
            accent_messages_are_lawful(window, message, now);
            accent_messages_keep_the_gallery(window, message, now);
        },
        Group::AccentAnswers => {
            answers_are_lawful(window, message, now);
            answers_keep_the_gallery(window, message, now);
        },
        Group::AccentCompletions => {
            completions_are_lawful(window, message, now);
            completions_keep_the_gallery(window, message, now);
        },
    }
}

} // verus!
