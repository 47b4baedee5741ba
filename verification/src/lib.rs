//! The decision core of the Daymural panel applet: one state machine that
//! takes messages and answers with the work the shell around it has to do.

pub mod accent;
pub mod accent_laws;
pub mod accent_promises;
pub mod backfill;
pub mod catalogue;
pub mod controls;
pub mod coordination;
pub mod effect;
pub mod fetch;
pub mod fetch_promises;
pub mod gallery_laws;
pub mod identity;
pub mod laws;
pub mod lifecycle;
pub mod message;
pub mod paths;
pub mod peer_promises;
pub mod peers;
pub mod popup;
pub mod reactions;
pub mod refresh;
pub mod refresh_promises;
pub mod schedule;
pub mod settings;
pub mod surface_promises;
pub mod takeover;
pub mod terms;
pub mod timer_promises;
pub mod timers;
pub mod update;
pub mod wallpaper;
pub mod window;
