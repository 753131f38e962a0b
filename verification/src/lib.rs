//! Session core of an input-method style text composition engine.
//!
//! A host editing platform drives this library through callbacks: key
//! events, focus changes, edit-completion notifications, composition
//! termination.  The engine turns eaten keystrokes into provisional
//! composition text, mediates all mutation through host-granted edit
//! sessions, keeps a style tag synchronized with the composition, and
//! keeps its subscriptions symmetric across activation and deactivation.
//!
//! Everything the host itself does — issuing cookies, granting sessions,
//! owning documents and compartments — appears here as plain response
//! values handed into the callbacks and as action values handed back out,
//! so that every decision of the engine is stated and proved over them.

pub mod attribute;
pub mod composition;
pub mod context;
pub mod editsession;
pub mod factory;
pub mod globals;
pub mod keyevent;
pub mod keyhandler;
pub mod languagebar;
pub mod range;
pub mod service;
