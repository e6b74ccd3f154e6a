//! Selected-text capture: the clipboard transaction, the keystroke plans it
//! rides on, the per-platform strategy choice and the guard domains that keep
//! concurrent automation from interfering with itself.
//!
//! The library decides and never touches the operating system. Each engine is
//! a state machine that names the next action and takes its outcome back; the
//! program around it reads the clipboard, sends the keystrokes and waits.
//!
//! - [`text`], [`clipboard`], [`protocol`]: the values that pass between the
//!   engines and their driver.
//! - [`keys`]: what each keyboard operation sends on each platform.
//! - [`guard`]: the guard domains and their coordinator.
//! - [`transaction`]: the clipboard transaction.
//! - [`script`]: reading the answer of a helper script.
//! - [`selector`]: the entry point, which picks the strategy.
//! - [`desktop`], [`session`], [`concurrency`]: a model of the desktop, and
//!   the proofs of what a capture does to it, alone and beside another.
//! - [`config`], [`placement`]: the settings, and where the window goes.

pub mod text;
pub mod clipboard;
pub mod protocol;
pub mod keys;
pub mod guard;
pub mod transaction;
pub mod script;
pub mod selector;
pub mod desktop;
pub mod session;
pub mod concurrency;
pub mod config;
pub mod placement;
