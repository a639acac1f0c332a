//! The stream cursor: a pull-based sequence of samples with the landmarks that fall
//! due at each of them.
//!
//! The cursor does no waiting of its own. Whoever owns the channel asks the cursor
//! whether it wants a delivery, hands it the next unit or tells it that the channel
//! is closed, and then pulls. Every step is a function of the cursor's state alone,
//! and [`SourceView`] says what each of them does.

use vstd::prelude::*;
use crate::event::Event;

verus! {

/// The first sample index at which a landmark at `position_ms` milliseconds of audio
/// may be handed out: the position scaled to samples, rounded down.
pub open spec fn due_sample(position_ms: u32, sample_rate: u32) -> nat {
    ((position_ms as nat * sample_rate as nat) / 1000) as nat
}

/// How many landmarks at the head of `pending` are due at sample `index`. The scan
/// stops at the first landmark that is not due yet.
pub open spec fn due_count(pending: Seq<(u32, Event)>, sample_rate: u32, index: nat) -> nat
    decreases pending.len(),
{
    if pending.len() > 0 && due_sample(pending[0].0, sample_rate) <= index {
        1 + due_count(pending.drop_first(), sample_rate, index)
    } else {
        0
    }
}

/// The landmarks of a timestamped batch, without their positions.
pub open spec fn landmarks(stamped: Seq<(u32, Event)>) -> Seq<Event> {
    stamped.map_values(|s: (u32, Event)| s.1)
}

/// What the cursor is, to a caller.
pub struct SourceView {
    /// Samples per second, fixed for the whole stream.
    pub sample_rate: u32,
    /// Every sample delivered so far, in arrival order.
    pub samples: Seq<i16>,
    /// The landmarks delivered and not handed out yet, in arrival order.
    pub pending: Seq<(u32, Event)>,
    /// Index of the next sample to hand out; `None` once the stream is over.
    pub position: Option<nat>,
}

/// The outcome of one step of the cursor.
pub struct Step {
    /// The cursor after the step.
    pub next: SourceView,
    /// The sample handed out, if any.
    pub sample: Option<i16>,
    /// The landmarks handed out with it, in the order in which they were delivered.
    pub events: Seq<Event>,
}

impl SourceView {
    /// A cursor that has received nothing and stands at the first sample.
    pub open spec fn start(sample_rate: u32) -> SourceView {
        SourceView {
            sample_rate,
            samples: Seq::empty(),
            pending: Seq::empty(),
            position: Some(0nat),
        }
    }

    /// Whether the stream is over.
    pub open spec fn is_terminal(self) -> bool {
        self.position is None
    }

    /// Whether the next sample has not been delivered yet.
    pub open spec fn wants_delivery(self) -> bool {
        match self.position {
            Some(index) => index >= self.samples.len(),
            None => false,
        }
    }

    /// The cursor after one unit has arrived. A stream that is over takes nothing.
    pub open spec fn deliver(self, wav: Seq<i16>, events: Seq<(u32, Event)>) -> SourceView {
        if self.is_terminal() {
            self
        } else {
            SourceView { samples: self.samples + wav, pending: self.pending + events, ..self }
        }
    }

    /// The channel is closed: the stream ends, with one `End` landmark and no sample.
    /// A stream that is over already stays as it is and hands out nothing.
    pub open spec fn disconnect(self) -> Step {
        if self.is_terminal() {
            Step { next: self, sample: None, events: Seq::empty() }
        } else {
            Step {
                next: SourceView { position: None, ..self },
                sample: None,
                events: seq![Event::End],
            }
        }
    }

    /// One pull. A stream that is over hands out nothing. Otherwise the landmarks at
    /// the head of the queue that are due at the current index leave the queue, and
    /// the sample at that index, if it has been delivered, is handed out and the
    /// index moves on by one.
    pub open spec fn pull(self) -> Step {
        match self.position {
            None => Step { next: self, sample: None, events: Seq::empty() },
            Some(index) => {
                let due = due_count(self.pending, self.sample_rate, index) as int;
                let pending = self.pending.skip(due);
                let events = landmarks(self.pending.take(due));
                if index < self.samples.len() {
                    Step {
                        next: SourceView { pending, position: Some(index + 1), ..self },
                        sample: Some(self.samples[index as int]),
                        events,
                    }
                } else {
                    Step { next: SourceView { pending, ..self }, sample: None, events }
                }
            },
        }
    }
}

/// The landmarks of an optional batch: none for `None`.
pub open spec fn batch(events: Option<Vec<Event>>) -> Seq<Event> {
    match events {
        Some(events) => events@,
        None => Seq::empty(),
    }
}

/// Whether what a step of the cursor returned is what `step` says. An empty batch of
/// landmarks is returned as `None`.
pub open spec fn returns_step(out: (Option<i16>, Option<Vec<Event>>), step: Step) -> bool {
    &&& out.0 == step.sample
    &&& batch(out.1) == step.events
    &&& out.1 is Some <==> step.events.len() > 0
}

/// Computes `due_sample`.
pub fn due_at(position_ms: u32, sample_rate: u32) -> (at: u64)
    ensures
        at == due_sample(position_ms, sample_rate),
{
    assert(position_ms as nat * sample_rate as nat <= 0xffff_ffff * 0xffff_ffff)
        by (nonlinear_arith)
        requires
            position_ms <= 0xffff_ffff,
            sample_rate <= 0xffff_ffff,
    ;
    (position_ms as u64) * (sample_rate as u64) / 1000
}

/// The stream cursor. Mono, signed 16-bit samples.
pub struct SpeakerSource {
    sample_rate: u32,
    data: Vec<i16>,
    events: Vec<(u32, Event)>,
    iter_index: Option<usize>,
}

impl View for SpeakerSource {
    type V = SourceView;

    closed spec fn view(&self) -> SourceView {
        SourceView {
            sample_rate: self.sample_rate,
            samples: self.data@,
            pending: self.events@,
            position: match self.iter_index {
                Some(index) => Some(index as nat),
                None => None,
            },
        }
    }
}

impl SpeakerSource {
    /// A cursor for a stream of the given sample rate, before anything has arrived.
    pub fn new(sample_rate: u32) -> (source: SpeakerSource)
        ensures
            source@ == SourceView::start(sample_rate),
    {
        SpeakerSource { sample_rate, data: Vec::new(), events: Vec::new(), iter_index: Some(0) }
    }

    /// Whether the next pull needs a delivery first.
    pub fn wants_delivery(&self) -> (wants: bool)
        ensures
            wants == self@.wants_delivery(),
    {
        match self.iter_index {
            Some(index) => index >= self.data.len(),
            None => false,
        }
    }

    /// Takes one unit from the channel: a chunk of samples and its landmarks.
    pub fn deliver(&mut self, wav: Vec<i16>, events: Vec<(u32, Event)>)
        ensures
            final(self)@ == old(self)@.deliver(wav@, events@),
    {
        if self.iter_index.is_some() {
            let mut wav = wav;
            let mut events = events;
            self.data.append(&mut wav);
            self.events.append(&mut events);
        }
    }

    /// The channel is closed and nothing more will arrive. This is for a cursor that
    /// wants a delivery: samples that are still buffered are not handed out after it.
    pub fn disconnect(&mut self) -> (out: (Option<i16>, Option<Vec<Event>>))
        ensures
            final(self)@ == old(self)@.disconnect().next,
            returns_step(out, old(self)@.disconnect()),
    {
        if self.iter_index.is_none() {
            (None, None)
        } else {
            self.iter_index = None;
            let mut events: Vec<Event> = Vec::new();
            events.push(Event::End);
            assert(events@ =~= seq![Event::End]);
            (None, Some(events))
        }
    }

    /// Hands out the next sample, if it has been delivered, with the landmarks that
    /// are due at it.
    pub fn next_sample_and_events(&mut self) -> (out: (Option<i16>, Option<Vec<Event>>))
        ensures
            final(self)@ == old(self)@.pull().next,
            returns_step(out, old(self)@.pull()),
    {
        match self.iter_index {
            None => (None, None),
            Some(index) => {
                let ghost before = self.events@;
                let ghost rate = self.sample_rate;
                let mut events: Vec<Event> = Vec::new();
                assert(before.skip(0) =~= before);
                assert(landmarks(before.take(0)) =~= events@);
                while self.events.len() > 0 && due_at(self.events[0].0, self.sample_rate)
                    <= index as u64
                    invariant
                        self.sample_rate == rate,
                        self.data == old(self).data,
                        self.iter_index == old(self).iter_index,
                        events@.len() <= before.len(),
                        self.events@ == before.skip(events@.len() as int),
                        events@ == landmarks(before.take(events@.len() as int)),
                        events@.len() + due_count(self.events@, rate, index as nat) == due_count(
                            before,
                            rate,
                            index as nat,
                        ),
                    decreases self.events.len(),
                {
                    let ghost taken = events@.len() as int;
                    let (_, event) = self.events.remove(0);
                    events.push(event);
                    assert(self.events@ =~= before.skip(taken + 1));
                    assert(before.skip(taken).drop_first() =~= before.skip(taken + 1));
                    assert(events@ =~= landmarks(before.take(taken + 1)));
                }
                let sample = if index < self.data.len() {
                    self.iter_index = Some(index + 1);
                    Some(self.data[index])
                } else {
                    None
                };
                (
                    sample,
                    if events.len() == 0 {
                        None
                    } else {
                        Some(events)
                    },
                )
            },
        }
    }

    /// Samples per second of the stream.
    pub fn sample_rate(&self) -> (rate: u32)
        ensures
            rate == self@.sample_rate,
    {
        self.sample_rate
    }

    /// The stream has one channel.
    pub fn channels(&self) -> (channels: u16)
        ensures
            channels == 1,
    {
        1
    }

    /// The stream is one frame of unknown length.
    pub fn current_frame_len(&self) -> (len: Option<usize>)
        ensures
            len is None,
    {
        None
    }

    /// The duration is known only once the stream has been consumed.
    pub fn total_duration(&self) -> (duration: Option<std::time::Duration>)
        ensures
            duration is None,
    {
        None
    }

    /// Nothing is known ahead of how many samples are left.
    pub fn size_hint(&self) -> (hint: (usize, Option<usize>))
        ensures
            hint == (0usize, None::<usize>),
    {
        (0, None)
    }
}

} // verus!
