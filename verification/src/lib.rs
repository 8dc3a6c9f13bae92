//! The rules of a desktop shell that runs the harness engine (`dsh web`) as a
//! managed child process and shows its web UI in a native window.
//!
//! The library decides and the application acts. `engine` holds the state of
//! the one engine and answers every request and observation with what to
//! publish, log and do next. The other modules hold the rules that it draws
//! on. `answers` and `lifecycle` state what each operation is for, and `laws` what
//! holds of the whole.

pub mod ansi;
pub mod answers;
pub mod engine;
pub mod laws;
pub mod lifecycle;
pub mod local_url;
pub mod menu;
pub mod plan;
pub mod process;
pub mod settings;
pub mod setup;
pub mod source;
pub mod state;
pub mod text;
pub mod webview;
