//! What a platform provides to the daemon: typing, secrets, a global
//! hotkey, the focused application, autostart and the overlay.
use vstd::prelude::*;
use crate::error::Result;
use crate::models::{ActionCommand, ActiveAppContext, DaemonStatus};
use crate::typing::TextPatch;

verus! {

/// Types text and performs key actions.
pub trait TypingEngine: Send {
    fn emit_patch(&mut self, patch: &TextPatch) -> Result<()>;

    fn emit_actions(&mut self, actions: &[ActionCommand]) -> Result<()>;
}

/// Stores the API keys.
pub trait SecretStoreBackend: Send + Sync {
    fn get_api_key_blocking(&self) -> Result<Option<String>>;

    fn set_api_key_blocking(&self, api_key: &str) -> Result<()>;

    fn get_llm_api_key_blocking(&self) -> Result<Option<String>>;

    fn set_llm_api_key_blocking(&self, api_key: &str) -> Result<()>;
}

/// A global shortcut that toggles dictation.
pub trait GlobalHotkey: Send + Sync {
    fn is_ready(&self) -> bool;
}

/// Tells which application has keyboard focus.
pub trait ActiveAppContextProvider: Send + Sync {
    fn detect_active_app_blocking(&self) -> Option<ActiveAppContext>;
}

/// Starts the daemon with the session.
pub trait ServiceManager: Send + Sync {
    fn install_autostart(&self) -> Result<String>;
}

/// Shows the daemon's status.
pub trait OverlayPresenter: Send + Sync {
    fn push_status(&self, status: DaemonStatus);
}

} // verus!
