//! The state of the engine's one-time initialization.
//!
//! The engine is initialized once for the whole process. The state below is what the
//! process-wide lock guards: whether that has happened, and the sample rate that the
//! engine then reported. Whoever holds the lock asks the state first and calls the
//! engine only where no rate has been established.

use vstd::prelude::*;

verus! {

/// The engine could not be initialized.
#[derive(Debug, PartialEq, Eq, Clone, Copy, Structural)]
pub enum InitError {
    /// The engine reported this in place of a sample rate.
    Engine(i32),
}

/// Whether the engine has been initialized, and with which sample rate.
pub struct EngineState {
    sample_rate: Option<u32>,
}

/// What `initialized` returns for a state and a report: an established rate stands,
/// whatever is reported; otherwise a report that is not negative is the rate.
pub open spec fn init_outcome(established: Option<u32>, reported: i32) -> Result<u32, InitError> {
    match established {
        Some(rate) => Ok(rate),
        None => if reported >= 0 {
            Ok(reported as u32)
        } else {
            Err(InitError::Engine(reported))
        },
    }
}

impl EngineState {
    /// The sample rate in Hz that the engine reported when it was initialized, or
    /// `None` where it has not been.
    pub closed spec fn rate(&self) -> Option<u32> {
        self.sample_rate
    }

    /// The state of a process that has not initialized the engine.
    pub fn new() -> (state: EngineState)
        ensures
            state.rate() is None,
    {
        EngineState { sample_rate: None }
    }

    /// The established sample rate. `None` says that the engine is to be initialized.
    pub fn established(&self) -> (rate: Option<u32>)
        ensures
            rate == self.rate(),
    {
        self.sample_rate
    }

    /// Records what the engine's initialization reported, and returns the sample rate
    /// of the process. A rate that was established before stands, so that every call
    /// after the first success returns the same rate. A negative report establishes
    /// nothing.
    pub fn initialized(&mut self, reported: i32) -> (outcome: Result<u32, InitError>)
        ensures
            outcome == init_outcome(old(self).rate(), reported),
            final(self).rate() == match outcome {
                Ok(rate) => Some(rate),
                Err(_) => None,
            },
    {
        match self.sample_rate {
            Some(rate) => Ok(rate),
            None => {
                if reported >= 0 {
                    let rate: u32 = reported as u32;
                    self.sample_rate = Some(rate);
                    Ok(rate)
                } else {
                    Err(InitError::Engine(reported))
                }
            },
        }
    }
}

} // verus!
