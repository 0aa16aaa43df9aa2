//! The decisions of a polkit authentication agent, verified.
//!
//! Polkit asks an agent to authenticate a user. The agent calls polkit's helper, which runs the
//! PAM stack, and stands between the helper and a window in which the user types. `dbus` is the
//! agent's side, a state machine for one authentication; `ui` is the window's side; `events` is
//! what the two tell each other; `helper` is the helper's line protocol. `laws` states what holds
//! of whole authentications, `conversation` what holds of their steps, `window` what holds of the
//! window, `joint` what holds of the two together.
//! `legible` states that the printed forms of the events tell them apart, as far as the quoting of
//! strings is unambiguous.

pub mod conversation;
pub mod dbus;
pub mod debug;
pub mod events;
pub mod helper;
pub mod joint;
pub mod laws;
pub mod legible;
pub mod locale;
pub mod text;
pub mod ui;
pub mod users;
pub mod window;
pub mod wipe;
