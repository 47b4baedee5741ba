//! The applet's whole state, and its mathematical view.

use vstd::prelude::*;
use crate::accent::AccentInflight;
use crate::catalogue::{Catalogue, ImageEntry, Provenance};
use crate::coordination::{empty_mailbox, CoordinationConfig};
use crate::fetch::{RefreshError, RefreshErrorView};
use crate::popup::{PopupLedger, PopupView};
use crate::settings::{
    default_choices, default_config, AppletConfig, AppletSetting, Choices, ChoicesView,
};
use crate::wallpaper::{ColdStart, CurrentWallpaper};
use std::collections::VecDeque;
use std::path::PathBuf;

verus! {

/// Whether this process holds the lock that makes it the leader.
#[derive(Clone, Copy, Debug, PartialEq, Eq, Structural)]
pub struct Leadership {
    pub leader: bool,
}

impl Leadership {
    /// A leadership known to be held, or known not to be.
    pub fn forced(leader: bool) -> (leadership: Leadership)
        ensures
            leadership == (Leadership { leader }),
    {
        Leadership { leader }
    }

    /// Whether the lock is held.
    pub fn is_leader(&self) -> (leader: bool)
        ensures
            leader == self.leader,
    {
        self.leader
    }
}

/// Whether a leader has read the state it took over.
#[derive(Clone, Copy, Debug, PartialEq, Eq, Structural)]
pub enum LeaderReadiness {
    Ready,
    /// The lock is held, the state written by the former leader is still
    /// being read.
    Hydrating,
}

/// Which role this process plays.
#[derive(Clone, Copy, Debug, PartialEq, Eq, Structural)]
pub struct Role {
    pub leadership: Leadership,
    pub leader_readiness: LeaderReadiness,
    /// Generation of the leadership retry timer.
    pub leadership_generation: u64,
    /// Generation of the takeover snapshot.
    pub leadership_hydration_generation: u64,
    /// Bumped by every watcher event; an older takeover snapshot is stale.
    pub leadership_state_generation: u64,
}

/// The settings and their writes.
#[derive(Clone, Debug, PartialEq, Eq)]
pub struct Settings {
    pub config: AppletConfig,
    /// What the dropdowns offer, and so which values are supported.
    pub choices: Choices,
    /// Settings can be persisted.
    pub config_context: bool,
    /// Per setting, the generation of its newest write.
    pub setting_write_generations: [u64; 4],
    /// Setting writes waiting for their turn, oldest first.
    pub setting_write_queue: VecDeque<(u64, AppletSetting)>,
    /// A setting write is in flight.
    pub setting_write_inflight: bool,
    /// Generation of the newest settings confirmation.
    pub config_confirmation_generation: u64,
}

/// The settings and their writes, with collections as sequences.
pub struct SettingsView {
    pub config: AppletConfig,
    pub choices: ChoicesView,
    pub config_context: bool,
    pub setting_write_generations: Seq<u64>,
    pub setting_write_queue: Seq<(u64, AppletSetting)>,
    pub setting_write_inflight: bool,
    pub config_confirmation_generation: u64,
}

impl View for Settings {
    type V = SettingsView;

    open spec fn view(&self) -> SettingsView {
        SettingsView {
            config: self.config,
            choices: self.choices@,
            config_context: self.config_context,
            setting_write_generations: self.setting_write_generations@,
            setting_write_queue: self.setting_write_queue@,
            setting_write_inflight: self.setting_write_inflight,
            config_confirmation_generation: self.config_confirmation_generation,
        }
    }
}

/// What passes between this process and its peers.
#[derive(Clone, Debug, PartialEq, Eq)]
pub struct Peers {
    pub coordination: CoordinationConfig,
    /// The mailbox can be written.
    pub coordination_context: bool,
    /// Newest peer request reserved for the current or next fetch.
    pub peer_refresh_request: Option<u64>,
    /// Highest peer request covered by a fetch that finished here.
    pub peer_refresh_covered: u64,
    /// The one wallpaper reading that is to start a peer's refresh.
    pub peer_refresh_live_read: Option<u64>,
    /// The request this follower waits for the leader to cover.
    pub requested_peer_refresh: Option<u64>,
    /// A request is being written to the mailbox.
    pub peer_refresh_write_pending: bool,
    /// Generation of the acknowledgement timeout.
    pub peer_refresh_timeout_generation: u64,
    /// Generation of the newest follower reload.
    pub non_leader_reload_generation: u64,
    /// The reload in flight may ask the leader for a repair.
    pub non_leader_reload_repairs: bool,
    /// Newest apply notice observed.
    pub peer_apply_notice_generation: u64,
}

/// The images and the one that is applied.
#[derive(Clone, Debug, PartialEq, Eq)]
pub struct Gallery {
    pub catalogue: Catalogue,
    /// The applied wallpaper, as far as it is known.
    pub current: Option<PathBuf>,
    pub cold_start: ColdStart,
    /// The out-of-retention image the last refresh downloaded, spared by the
    /// prune until it is applied or the next refresh selects anew.
    pub protected_fallback: Option<PathBuf>,
    /// The catalogue was rebuilt and its entries want their descriptions.
    pub metadata_repair_due: bool,
}

/// The images and the one that is applied, with the catalogue as a sequence.
pub struct GalleryView {
    pub images: Seq<ImageEntry>,
    pub current: Option<PathBuf>,
    pub cold_start: ColdStart,
    pub protected_fallback: Option<PathBuf>,
    pub metadata_repair_due: bool,
}

impl View for Gallery {
    type V = GalleryView;

    open spec fn view(&self) -> GalleryView {
        GalleryView {
            images: self.catalogue.images@,
            current: self.current,
            cold_start: self.cold_start,
            protected_fallback: self.protected_fallback,
            metadata_repair_due: self.metadata_repair_due,
        }
    }
}

/// The refresh and the thumbnail pass.
#[derive(Clone, Debug, PartialEq, Eq)]
pub struct Work {
    /// A fetch is running, or a follower waits for one.
    pub refresh_pending: bool,
    /// A thumbnail pass is running.
    pub thumbnail_pass_pending: bool,
    /// A refresh left its thumbnails to a pass that is still to be armed.
    pub thumbnails_owed: bool,
    /// When the last successful fetch completed, in seconds since the epoch.
    pub last_updated: Option<u64>,
    /// The last fetch error, cleared by a success.
    pub last_error: Option<RefreshError>,
}

/// The refresh and the thumbnail pass, with the error's message as a sequence.
pub struct WorkView {
    pub refresh_pending: bool,
    pub thumbnail_pass_pending: bool,
    pub thumbnails_owed: bool,
    pub last_updated: Option<u64>,
    pub last_error: Option<RefreshErrorView>,
}

/// The view of an optional refresh error.
pub open spec fn error_view(error: Option<RefreshError>) -> Option<RefreshErrorView> {
    match error {
        Some(error) => Some(error@),
        None => None,
    }
}

impl View for Work {
    type V = WorkView;

    open spec fn view(&self) -> WorkView {
        WorkView {
            refresh_pending: self.refresh_pending,
            thumbnail_pass_pending: self.thumbnail_pass_pending,
            thumbnails_owed: self.thumbnails_owed,
            last_updated: self.last_updated,
            last_error: error_view(self.last_error),
        }
    }
}

/// The timers a newer arming replaces.
#[derive(Clone, Copy, Debug, PartialEq, Eq, Structural)]
pub struct Timers {
    /// Generation of the refresh timer.
    pub timer_generation: u64,
    /// Generation of the shuffle timer.
    pub shuffle_generation: u64,
    /// A shuffle tick is scheduled.
    pub shuffle_armed: bool,
    /// Generation of the lock-poke ladder.
    pub lock_poke_generation: u64,
    /// The desktop's wallpaper state can be poked.
    pub poke_config: bool,
}

/// The accent-from-wallpaper feature's running state.
#[derive(Clone, Copy, Debug, PartialEq, Eq, Structural)]
pub struct Accent {
    /// The theme configuration could be opened.
    pub accent_handles: bool,
    /// Generation of the accent tasks.
    pub accent_write_generation: u64,
    /// The accent task in flight: at most one ever is.
    pub accent_inflight: Option<AccentInflight>,
    /// An accent result arrived during a task and was dropped.
    pub accent_recompute_queued: bool,
    /// A toggle requested during a task.
    pub accent_flip_requested: Option<bool>,
    /// The accent flag on disk when the flight started.
    pub accent_disk_enabled_at_spawn: Option<bool>,
}

/// The applet's state.
#[derive(Clone, Debug, PartialEq, Eq)]
pub struct Window {
    pub popups: PopupLedger,
    pub role: Role,
    pub settings: Settings,
    pub peers: Peers,
    pub gallery: Gallery,
    pub work: Work,
    pub timers: Timers,
    pub accent: Accent,
}

/// The applet's state with its collections as sequences.
pub struct WindowView {
    pub popups: PopupView,
    pub role: Role,
    pub settings: SettingsView,
    pub peers: Peers,
    pub gallery: GalleryView,
    pub work: WorkView,
    pub timers: Timers,
    pub accent: Accent,
}

impl View for Window {
    type V = WindowView;

    open spec fn view(&self) -> WindowView {
        WindowView {
            popups: self.popups@,
            role: self.role,
            settings: self.settings@,
            peers: self.peers,
            gallery: self.gallery@,
            work: self.work@,
            timers: self.timers,
            accent: self.accent,
        }
    }
}

/// State read after a follower took the leader lock.
#[derive(Clone, Debug, PartialEq, Eq)]
pub struct LeadershipHydration {
    /// A settings context is open now.
    pub config_context: bool,
    /// A mailbox context is open now.
    pub coordination_context: bool,
    pub config: AppletConfig,
    pub coordination: CoordinationConfig,
    pub catalogue: Catalogue,
    pub provenance: Provenance,
    pub live: CurrentWallpaper,
}

impl WindowView {
    /// A ready leader over nothing at all.
    pub open spec fn blank() -> WindowView {
        WindowView {
            popups: PopupView {
                popup: None,
                dropdowns_open: 0,
                stale_menu_closes: 0,
                closing_popups: Seq::empty(),
            },
            role: Role {
                leadership: Leadership { leader: true },
                leader_readiness: LeaderReadiness::Ready,
                leadership_generation: 0,
                leadership_hydration_generation: 0,
                leadership_state_generation: 0,
            },
            settings: SettingsView {
                config: default_config(),
                choices: default_choices(),
                config_context: false,
                setting_write_generations: seq![0u64, 0, 0, 0],
                setting_write_queue: Seq::empty(),
                setting_write_inflight: false,
                config_confirmation_generation: 0,
            },
            peers: Peers {
                coordination: empty_mailbox(),
                coordination_context: false,
                peer_refresh_request: None,
                peer_refresh_covered: 0,
                peer_refresh_live_read: None,
                requested_peer_refresh: None,
                peer_refresh_write_pending: false,
                peer_refresh_timeout_generation: 0,
                non_leader_reload_generation: 0,
                non_leader_reload_repairs: false,
                peer_apply_notice_generation: 0,
            },
            gallery: GalleryView {
                images: Seq::empty(),
                current: None,
                cold_start: ColdStart::Done,
                protected_fallback: None,
                metadata_repair_due: false,
            },
            work: WorkView {
                refresh_pending: false,
                thumbnail_pass_pending: false,
                thumbnails_owed: false,
                last_updated: None,
                last_error: None,
            },
            timers: Timers {
                timer_generation: 0,
                shuffle_generation: 0,
                shuffle_armed: false,
                lock_poke_generation: 0,
                poke_config: false,
            },
            accent: Accent {
                accent_handles: false,
                accent_write_generation: 0,
                accent_inflight: None,
                accent_recompute_queued: false,
                accent_flip_requested: None,
                accent_disk_enabled_at_spawn: None,
            },
        }
    }

    /// The lock is held and the state behind it has been read: only then may
    /// the process do shared work.
    pub open spec fn is_active_leader(self) -> bool {
        self.role.leadership.leader && self.role.leader_readiness is Ready
    }

    /// The lock is held, the state behind it is still being read.
    pub open spec fn is_hydrating(self) -> bool {
        self.role.leadership.leader && self.role.leader_readiness is Hydrating
    }

    /// The counters that a message may bump, and that never wrap round, have
    /// room for it.
    pub open spec fn has_headroom(self) -> bool {
        &&& self.timers.timer_generation < u64::MAX
        &&& self.timers.shuffle_generation < u64::MAX - 1
        &&& self.timers.lock_poke_generation < u64::MAX
        &&& self.accent.accent_write_generation < u64::MAX
    }
}

impl Default for Window {
    fn default() -> (window: Window)
        ensures
            window@ == WindowView::blank(),
    {
        Window {
            popups: PopupLedger::default(),
            role: Role {
                leadership: Leadership { leader: true },
                leader_readiness: LeaderReadiness::Ready,
                leadership_generation: 0,
                leadership_hydration_generation: 0,
                leadership_state_generation: 0,
            },
            settings: Settings {
                config: AppletConfig::default(),
                choices: Choices::default(),
                config_context: false,
                setting_write_generations: [0, 0, 0, 0],
                setting_write_queue: VecDeque::new(),
                setting_write_inflight: false,
                config_confirmation_generation: 0,
            },
            peers: Peers {
                coordination: CoordinationConfig::default(),
                coordination_context: false,
                peer_refresh_request: None,
                peer_refresh_covered: 0,
                peer_refresh_live_read: None,
                requested_peer_refresh: None,
                peer_refresh_write_pending: false,
                peer_refresh_timeout_generation: 0,
                non_leader_reload_generation: 0,
                non_leader_reload_repairs: false,
                peer_apply_notice_generation: 0,
            },
            gallery: Gallery {
                catalogue: Catalogue::default(),
                current: None,
                cold_start: ColdStart::Done,
                protected_fallback: None,
                metadata_repair_due: false,
            },
            work: Work {
                refresh_pending: false,
                thumbnail_pass_pending: false,
                thumbnails_owed: false,
                last_updated: None,
                last_error: None,
            },
            timers: Timers {
                timer_generation: 0,
                shuffle_generation: 0,
                shuffle_armed: false,
                lock_poke_generation: 0,
                poke_config: false,
            },
            accent: Accent {
                accent_handles: false,
                accent_write_generation: 0,
                accent_inflight: None,
                accent_recompute_queued: false,
                accent_flip_requested: None,
                accent_disk_enabled_at_spawn: None,
            },
        }
    }
}

impl Window {
    /// Whether this process may do shared work.
    pub fn is_active_leader(&self) -> (active: bool)
        ensures
            active == self@.is_active_leader(),
    {
        self.role.leadership.is_leader() && self.role.leader_readiness == LeaderReadiness::Ready
    }

    /// Whether this process holds the lock but has not read the state yet.
    pub fn is_hydrating(&self) -> (hydrating: bool)
        ensures
            hydrating == self@.is_hydrating(),
    {
        self.role.leadership.is_leader() && self.role.leader_readiness
            == LeaderReadiness::Hydrating
    }

    /// Whether the counters have room for one more message.
    pub fn has_headroom(&self) -> (room: bool)
        ensures
            room == self@.has_headroom(),
    {
        self.timers.timer_generation < u64::MAX && self.timers.shuffle_generation < u64::MAX - 1
            && self.timers.lock_poke_generation < u64::MAX && self.accent.accent_write_generation
            < u64::MAX
    }
}

} // verus!
