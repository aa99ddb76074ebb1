//! Safe, verified core of a remote-control library for the Voicemeeter
//! audio mixing engine.
//!
//! The crate models the engine-facing data layout and decision logic:
//! the per-variant channel index tables, the per-invocation audio buffer
//! views with their bulk-copy helper, the parameter-name builders, and
//! the interpretation of every status code the engine's native calls
//! return. The native calls themselves (loading the remote library,
//! logging in, registering the audio callback) live outside this crate;
//! callers hand the returned codes and values to the functions here.

pub mod callback;
pub mod decimal;
pub mod interface;
pub mod laws;
pub mod parameters;
pub mod types;

pub use callback::commands::CallbackCommand;
pub use callback::register::AudioCallbackMode;
pub use interface::VoicemeeterRemote;
