//! Platform shim for ToyOS: terminal mode control, window-size queries,
//! resize-event polling, and standard directory lookups.
//!
//! ToyOS has no termios, no signals, and no standard directory layout, so
//! most operations here are permanent no-ops with exact contracts saying so.
//! The one real computation is decoding the packed 64-bit word that the
//! screen-size system call returns; the call itself is issued by the
//! surrounding application, which hands the raw word to [`get_window_size`].

pub mod dirs;
pub mod error;
pub mod paths;
pub mod term;
pub mod winsize;

pub use dirs::conf_dirs;
pub use dirs::data_dirs;
pub use error::Error;
pub use paths::path;
pub use term::enable_raw_mode;
pub use term::has_window_size_changed;
pub use term::register_winsize_change_signal_handler;
pub use term::set_term_mode;
pub use term::TermMode;
pub use winsize::get_window_size;
