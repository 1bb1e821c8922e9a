use crate::capturer::Options;
use vstd::prelude::*;

verus! {

/// Lifecycle of an engine: `Created` (backend configured, not capturing),
/// `Running` (backend pushing frames), `Stopped` (backend released;
/// terminal — restarting capture means building a new engine).
#[derive(Clone, Copy, Debug, PartialEq, Eq, Structural)]
pub enum EngineState {
    Created,
    Running,
    Stopped,
}

/// An error reported by a capture-control operation.
#[derive(Clone, Copy, Debug, PartialEq, Eq, Structural)]
pub enum CaptureError {
    /// Capture was started while already running.
    AlreadyStarted,
    /// Capture was started on a stopped engine, which is terminal.
    AlreadyStopped,
    /// The configuration is one no backend accepts: a zero frame rate, or a
    /// crop region without positive size.
    InvalidConfiguration,
}

/// The engine: owns the configured backend and its lifecycle.
///
/// It is built once from an [`Options`] value, starts the backend's capture
/// loop on demand, and releases it on stop. The engine is exclusively owned
/// by its capturer.
pub struct Engine {
    state: EngineState,
    options: Options,
}

impl Engine {
    /// The engine's position in its lifecycle.
    pub closed spec fn spec_state(&self) -> EngineState {
        self.state
    }

    /// The configuration the engine was built with.
    pub closed spec fn spec_config(&self) -> Options {
        self.options
    }

    /// Selects and configures a backend for the given options; no frames flow
    /// yet. Every configuration is accepted here — violations surface at
    /// start time, not at construction.
    pub fn new(options: Options) -> (e: Engine)
        ensures
            e.spec_state() is Created,
            e.spec_config() == options,
    {
        Engine { state: EngineState::Created, options }
    }

    /// Starts the backend's capture loop.
    ///
    /// Succeeds exactly once, from `Created` with a valid configuration; a
    /// start while running or after a stop is a reported error, and never
    /// corrupts the engine's state.
    pub fn start(&mut self) -> (r: Result<(), CaptureError>)
        ensures
            final(self).spec_config() == old(self).spec_config(),
            r is Ok <==> (old(self).spec_state() is Created
                && old(self).spec_config().is_valid_config()),
            r is Ok ==> final(self).spec_state() is Running,
            r is Err ==> final(self).spec_state() == old(self).spec_state(),
            old(self).spec_state() is Running ==> r == Err::<(), CaptureError>(
                CaptureError::AlreadyStarted,
            ),
            old(self).spec_state() is Stopped ==> r == Err::<(), CaptureError>(
                CaptureError::AlreadyStopped,
            ),
            (old(self).spec_state() is Created && !old(self).spec_config().is_valid_config())
                ==> r == Err::<(), CaptureError>(CaptureError::InvalidConfiguration),
    {
        match self.state {
            EngineState::Running => Err(CaptureError::AlreadyStarted),
            EngineState::Stopped => Err(CaptureError::AlreadyStopped),
            EngineState::Created => {
                if self.options.check_valid() {
                    self.state = EngineState::Running;
                    Ok(())
                } else {
                    Err(CaptureError::InvalidConfiguration)
                }
            },
        }
    }

    /// Releases the backend's capture session: a running engine moves to
    /// `Stopped`, which is terminal. On an engine that never started, or one
    /// already stopped, there is no session to release, so this is a true
    /// no-op — the engine is left exactly as it was, and no error is
    /// reported.
    pub fn stop(&mut self)
        ensures
            old(self).spec_state() is Running ==> final(self).spec_state() is Stopped,
            !(old(self).spec_state() is Running) ==> final(self).spec_state() == old(
                self,
            ).spec_state(),
            final(self).spec_config() == old(self).spec_config(),
    {
        if matches!(self.state, EngineState::Running) {
            self.state = EngineState::Stopped;
        }
    }

    /// Whether the backend is actively producing frames.
    pub fn is_running(&self) -> (r: bool)
        ensures
            r <==> self.spec_state() is Running,
    {
        matches!(self.state, EngineState::Running)
    }
}

} // verus!
