//! Verified core of the Wispr dictation tool.
pub mod text;
pub mod models;
pub mod error;
pub mod config;
pub mod shortcuts;
pub mod typing;
pub mod transcript;
pub mod llm;
pub mod app_context;
pub mod audio;
pub mod whisper;
pub mod session;
pub mod status;
pub mod stream;
pub mod segmenter;
pub mod keyboard;
pub mod ipc;
pub mod platform;
pub mod overlay;
pub mod reports;
pub mod secrets;
pub mod install;
pub mod deepgram;
pub mod payload;
pub mod writing;
pub mod daemon;
pub mod settings;
