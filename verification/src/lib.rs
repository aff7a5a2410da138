//! The rules of the SnapPretty desktop backend, kept apart from the window
//! system and the file system that carry them out.
//!
//! The host program performs every effect itself: it registers plugins with
//! the application framework, touches the main window and writes files. What
//! it should do, and what it tells the user interface afterwards, is decided
//! here, on plain values.

pub mod save;
pub mod startup;
