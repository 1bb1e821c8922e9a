//! A cross-platform screen and window capture facade.
//!
//! One uniform API starts and stops continuous frame capture and hands frames
//! to the consumer one at a time, while a platform adapter behind the engine
//! boundary does the native capture work. The core of the crate is the
//! capture lifecycle: an engine state machine (`Created` → `Running` →
//! `Stopped`), a first-in-first-out frame channel that decouples the
//! producer's cadence from consumer polling, and the [`capturer::Capturer`]
//! facade that owns both.

pub mod capturer;
pub mod channel;
pub mod display;
pub mod engine;
pub mod frame;
