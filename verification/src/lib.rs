//! Fixed configuration of the desktop shell and the rule that says which parts
//! of a window's state are kept across restarts.

pub mod config;
pub mod window_state;

pub use config::updater_enabled;
pub use config::DEFAULT_SERVER_URL_KEY;
pub use config::MAX_LOG_ENTRIES;
pub use config::SETTINGS_STORE;
pub use window_state::window_state_flags;
pub use window_state::StateFlags;
pub use window_state::WindowAttribute;
