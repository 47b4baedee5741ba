# daymural

The decisions of a panel applet that puts the daily Microsoft Bing image on
the COSMIC desktop, as a verified library.

Several processes of the applet may run at once, one per panel. One of them
holds a lock and is the leader: it fetches images, prunes them, applies them,
shuffles them, and keeps the theme accents in step with the wallpaper. The
others follow, ask the leader through a mailbox, and take over when it exits.

The whole applet is one state machine. `window::Window` is its state, and
`Window::update` its reaction to a `message::Message`: the state moves on, and
the `effect::Task` returned says what the shell has to do. A task holds calls,
which the shell does at once and answers before anything else, and effects,
which it starts in the background. Every function says in its contract exactly
which state and which task come out, over `WindowView`, the state with its
collections as sequences.

| module | what it decides |
| --- | --- |
| `update` | the reaction to every message |
| `refresh` | fetches, merges, prunes, applies, thumbnail passes |
| `peers`, `coordination` | the mailbox between leader and followers |
| `takeover` | startup, and becoming the leader |
| `lifecycle`, `accent` | accents taken from the wallpaper |
| `controls`, `settings` | the popup's controls, which values are supported, and their persistence |
| `popup` | which surface requests may reach the compositor |
| `timers`, `schedule` | one-shot timers and when they fire |
| `fetch`, `catalogue`, `backfill`, `wallpaper` | what is downloaded, applied, decoded and spared |
| `laws`, `gallery_laws`, `accent_laws`, `reactions` | what holds whatever message arrives |

`app/` is the shell: the message loop, the slow work, and the interface it
needs of the desktop. `tests/` runs the library.
