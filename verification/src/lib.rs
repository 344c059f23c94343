//! Decision and text-processing core of a small collection of desktop
//! utilities: brightness and volume controls, a dropdown terminal toggle,
//! an audio-visualiser formatter, a storage notifier, a weather widget and
//! a captive-portal watcher.  Processes, files, locks, D-Bus and the
//! network belong to the companion binary, which performs what this crate
//! decides; this crate works out what to do and produces the exact text
//! and commands that are shown or sent.  The one outside library it calls
//! is chrono, for local clock times.
pub mod brightness;
pub mod control;
pub mod dropdown;
pub mod number;
pub mod portal;
pub mod storage;
pub mod terminal;
pub mod text;
pub mod visualizer;
pub mod weather;
pub mod volume;
