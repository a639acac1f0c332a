//! The synthesis worker: what it does in which order, and what its callback hands
//! to the stream.
//!
//! The worker holds the engine for one request. It selects the voice, registers the
//! callback, applies the parameters and starts the synthesis, in this order, and it
//! gives up where the engine does not know the voice. The engine then calls back
//! with each chunk of audio and its list of native events.

use vstd::prelude::*;
use crate::event::{translatable, translate_events, translated, Event, NativeEvent};

verus! {

/// One call into the engine.
#[derive(Debug, PartialEq, Eq, Clone, Copy, Structural)]
pub enum WorkerAction {
    SelectVoice,
    RegisterCallback,
    ApplyParams,
    Synthesize,
}

/// How far the worker has come.
#[derive(Debug, PartialEq, Eq, Clone, Copy, Structural)]
pub enum WorkerStage {
    Idle,
    VoiceSelected,
    CallbackRegistered,
    ParamsApplied,
    Finished,
}

impl WorkerStage {
    /// The call to make at this stage, if any is left.
    pub open spec fn action(self) -> Option<WorkerAction> {
        match self {
            WorkerStage::Idle => Some(WorkerAction::SelectVoice),
            WorkerStage::VoiceSelected => Some(WorkerAction::RegisterCallback),
            WorkerStage::CallbackRegistered => Some(WorkerAction::ApplyParams),
            WorkerStage::ParamsApplied => Some(WorkerAction::Synthesize),
            WorkerStage::Finished => None,
        }
    }

    /// The stage after the call of this stage has returned. Only a failed selection
    /// of the voice ends the work early.
    pub open spec fn after(self, succeeded: bool) -> WorkerStage {
        match self {
            WorkerStage::Idle => if succeeded {
                WorkerStage::VoiceSelected
            } else {
                WorkerStage::Finished
            },
            WorkerStage::VoiceSelected => WorkerStage::CallbackRegistered,
            WorkerStage::CallbackRegistered => WorkerStage::ParamsApplied,
            WorkerStage::ParamsApplied => WorkerStage::Finished,
            WorkerStage::Finished => WorkerStage::Finished,
        }
    }

    /// The number of calls that are left at most.
    pub open spec fn calls_left(self) -> nat {
        match self {
            WorkerStage::Idle => 4,
            WorkerStage::VoiceSelected => 3,
            WorkerStage::CallbackRegistered => 2,
            WorkerStage::ParamsApplied => 1,
            WorkerStage::Finished => 0,
        }
    }

    /// The calls that the worker makes from this stage on, where `succeeds` says of
    /// each call whether the engine accepts it.
    pub open spec fn calls(self, succeeds: spec_fn(WorkerAction) -> bool) -> Seq<WorkerAction>
        decreases self.calls_left(),
    {
        match self.action() {
            Some(action) => seq![action] + self.after(succeeds(action)).calls(succeeds),
            None => Seq::empty(),
        }
    }

    /// The call to make next, or `None` where the work is over.
    pub fn next_action(&self) -> (action: Option<WorkerAction>)
        ensures
            action == self.action(),
    {
        match self {
            WorkerStage::Idle => Some(WorkerAction::SelectVoice),
            WorkerStage::VoiceSelected => Some(WorkerAction::RegisterCallback),
            WorkerStage::CallbackRegistered => Some(WorkerAction::ApplyParams),
            WorkerStage::ParamsApplied => Some(WorkerAction::Synthesize),
            WorkerStage::Finished => None,
        }
    }

    /// The stage to go on from once the call has returned.
    pub fn advance(&self, succeeded: bool) -> (next: WorkerStage)
        ensures
            next == self.after(succeeded),
            next.calls_left() < self.calls_left() || *self == WorkerStage::Finished,
    {
        match self {
            WorkerStage::Idle => if succeeded {
                WorkerStage::VoiceSelected
            } else {
                WorkerStage::Finished
            },
            WorkerStage::VoiceSelected => WorkerStage::CallbackRegistered,
            WorkerStage::CallbackRegistered => WorkerStage::ParamsApplied,
            WorkerStage::ParamsApplied => WorkerStage::Finished,
            WorkerStage::Finished => WorkerStage::Finished,
        }
    }
}

/// A worker makes all four calls in order where the engine knows the voice, and
/// stops after the first where it does not: nothing is synthesized with a voice that
/// was not selected.
pub proof fn lemma_worker_calls(succeeds: spec_fn(WorkerAction) -> bool)
    ensures
        WorkerStage::Idle.calls(succeeds) == if succeeds(WorkerAction::SelectVoice) {
            seq![
                WorkerAction::SelectVoice,
                WorkerAction::RegisterCallback,
                WorkerAction::ApplyParams,
                WorkerAction::Synthesize,
            ]
        } else {
            seq![WorkerAction::SelectVoice]
        },
{
    reveal_with_fuel(WorkerStage::calls, 6);
    assert(WorkerStage::Idle.calls(succeeds) =~= if succeeds(WorkerAction::SelectVoice) {
        seq![
            WorkerAction::SelectVoice,
            WorkerAction::RegisterCallback,
            WorkerAction::ApplyParams,
            WorkerAction::Synthesize,
        ]
    } else {
        seq![WorkerAction::SelectVoice]
    });
}

/// What the callback tells the engine.
#[derive(Debug, PartialEq, Eq, Clone, Copy, Structural)]
pub enum CallbackSignal {
    /// Go on with the synthesis.
    Continue,
    /// Stop the synthesis.
    Abort,
}

/// The samples of a native buffer: none where the engine passed no buffer.
pub open spec fn chunk_of(wav: Option<Vec<i16>>) -> Seq<i16> {
    match wav {
        Some(wav) => wav@,
        None => Seq::empty(),
    }
}

/// Packs one invocation of the callback into the unit that goes down the channel:
/// the chunk of samples and the landmarks of the native events.
pub fn synth_callback(wav: Option<Vec<i16>>, events: &Vec<NativeEvent>) -> (unit: (
    Vec<i16>,
    Vec<(u32, Event)>,
))
    requires
        translatable(events@),
    ensures
        unit.0@ == chunk_of(wav),
        unit.1@ == translated(events@),
{
    let events_vec = translate_events(events);
    let wav_vec = match wav {
        Some(wav) => wav,
        None => Vec::new(),
    };
    (wav_vec, events_vec)
}

/// The signal to return to the engine once the unit has been sent: the synthesis
/// goes on as long as the stream takes what is sent, and is aborted when it is gone.
pub fn signal_after_send(delivered: bool) -> (signal: CallbackSignal)
    ensures
        signal == if delivered {
            CallbackSignal::Continue
        } else {
            CallbackSignal::Abort
        },
{
    if delivered {
        CallbackSignal::Continue
    } else {
        CallbackSignal::Abort
    }
}

} // verus!
