use vstd::prelude::*;

use crate::setup::LogSetup;

verus! {

/// The process-wide subscriber slot.
///
/// It is written once: from `Uninitialized` an install moves it to
/// `Initialized`, and there it stays. `exporter_live` is true while a remote
/// span exporter holds spans that a shutdown must flush.
#[derive(Clone, Copy, Debug, PartialEq, Eq)]
pub enum TelemetryState {
    Uninitialized,
    Initialized { exporter_live: bool },
}

/// Why an install was refused.
#[derive(Clone, Copy, Debug, PartialEq, Eq)]
pub enum InitError {
    /// A subscriber is already the global default.
    AlreadyInitialized,
}

/// The slot after installing a subscriber with or without a remote exporter,
/// or `None` where the install is refused.
pub open spec fn installed(s: TelemetryState, exports: bool) -> Option<TelemetryState> {
    match s {
        TelemetryState::Uninitialized => Some(TelemetryState::Initialized { exporter_live: exports }),
        TelemetryState::Initialized { .. } => None,
    }
}

/// The slot after a shutdown, and whether that shutdown flushes an exporter.
pub open spec fn shut_down(s: TelemetryState) -> (TelemetryState, bool) {
    match s {
        TelemetryState::Initialized { exporter_live: true } => (
            TelemetryState::Initialized { exporter_live: false },
            true,
        ),
        _ => (s, false),
    }
}

impl TelemetryState {
    /// A slot that holds no subscriber yet.
    pub fn new() -> (s: TelemetryState)
        ensures
            s == TelemetryState::Uninitialized,
    {
        TelemetryState::Uninitialized
    }

    /// Whether a subscriber has been installed.
    pub fn is_initialized(&self) -> (r: bool)
        ensures
            r == (*self is Initialized),
    {
        match self {
            TelemetryState::Initialized { .. } => true,
            TelemetryState::Uninitialized => false,
        }
    }

    /// Claims the slot for the subscriber that `setup` describes.
    ///
    /// Succeeds only on an empty slot; a second install is refused and
    /// leaves the slot as it was.
    pub fn install(&mut self, setup: &LogSetup) -> (r: Result<(), InitError>)
        ensures
            match installed(*old(self), setup.exports_spans()) {
                Some(t) => r is Ok && *final(self) == t,
                None => r == Err::<(), InitError>(InitError::AlreadyInitialized) && *final(self)
                    == *old(self),
            },
    {
        match self {
            TelemetryState::Uninitialized => {
                *self = TelemetryState::Initialized { exporter_live: setup.has_exporter() };
                Ok(())
            },
            TelemetryState::Initialized { .. } => Err(InitError::AlreadyInitialized),
        }
    }

    /// Releases the remote exporter, if one is live.
    ///
    /// Returns whether the caller must flush it; with no live exporter this
    /// changes nothing.
    pub fn shutdown(&mut self) -> (flush: bool)
        ensures
            (*final(self), flush) == shut_down(*old(self)),
    {
        match self {
            TelemetryState::Initialized { exporter_live: true } => {
                *self = TelemetryState::Initialized { exporter_live: false };
                true
            },
            _ => false,
        }
    }
}

/// Once a subscriber is installed, every later install is refused, whatever
/// it would install and whether or not a shutdown came in between.
pub proof fn lemma_install_only_once(s: TelemetryState, first: bool, second: bool, shutdowns: nat)
    requires
        installed(s, first) is Some,
    ensures
        installed(installed(s, first)->0, second) is None,
        installed(shut_down_n(installed(s, first)->0, shutdowns), second) is None,
    decreases shutdowns,
{
    if shutdowns > 0 {
        lemma_install_only_once(s, first, second, (shutdowns - 1) as nat);
    }
}

/// The slot after `n` shutdowns in a row.
pub open spec fn shut_down_n(s: TelemetryState, n: nat) -> TelemetryState
    decreases n,
{
    if n == 0 {
        s
    } else {
        shut_down(shut_down_n(s, (n - 1) as nat)).0
    }
}

/// A shutdown with no live remote exporter is a no-op: the slot is unchanged
/// and nothing is flushed.
pub proof fn lemma_shutdown_without_exporter_is_noop(s: TelemetryState)
    requires
        !(s matches TelemetryState::Initialized { exporter_live: true }),
    ensures
        shut_down(s) == (s, false),
{
}

/// After an install with a remote exporter, the first shutdown flushes it
/// and a second shutdown is a no-op.
pub proof fn lemma_shutdown_flushes_once(s: TelemetryState)
    requires
        installed(s, true) is Some,
    ensures
        shut_down(installed(s, true)->0).1,
        shut_down(shut_down(installed(s, true)->0).0) == (shut_down(installed(s, true)->0).0, false),
{
}

} // verus!
