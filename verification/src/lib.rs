//! Pomodorust: the logic of a Pomodoro timer that lives in the system tray.
//!
//! The library holds everything that decides: the timer state machine, the
//! presets and their bookkeeping, the notification sound choice, the texts
//! shown in the tray and in notifications, the behaviour of the break toast,
//! the tray menu's identifiers and the autostart entry.
pub mod actions;
pub mod autostart;
pub mod config;
pub mod display;
pub mod icon;
pub mod menu;
pub mod osd;
pub mod sound;
pub mod text;
pub mod timer;
pub mod timer_laws;
