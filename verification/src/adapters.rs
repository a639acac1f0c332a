//! Two ways to watch the landmarks of a stream while its samples are pulled.
//!
//! Both wrap the stream cursor and pass every step through to it: neither buffers
//! anything of its own, and neither changes which samples come out.

use vstd::prelude::*;
use crate::event::Event;
use crate::source::{batch, SourceView, SpeakerSource};

verus! {

/// A stream that hands each sample out together with the landmarks due at it.
pub struct IterAudioAndEvents {
    inner: SpeakerSource,
}

impl View for IterAudioAndEvents {
    type V = SourceView;

    closed spec fn view(&self) -> SourceView {
        self.inner@
    }
}

/// Whether `item` is the sample of `sample` with the landmarks `events`. Where there
/// is no sample there is no item, and an empty batch of landmarks is `None`.
pub open spec fn is_item(
    item: Option<(i16, Option<Vec<Event>>)>,
    sample: Option<i16>,
    events: Seq<Event>,
) -> bool {
    match sample {
        None => item is None,
        Some(sample) => match item {
            Some((out, landmarks)) => {
                &&& out == sample
                &&& batch(landmarks) == events
                &&& landmarks is Some <==> events.len() > 0
            },
            None => false,
        },
    }
}

impl IterAudioAndEvents {
    /// Whether the next pull needs a delivery first.
    pub fn wants_delivery(&self) -> (wants: bool)
        ensures
            wants == self@.wants_delivery(),
    {
        self.inner.wants_delivery()
    }

    /// Takes one unit from the channel.
    pub fn deliver(&mut self, wav: Vec<i16>, events: Vec<(u32, Event)>)
        ensures
            final(self)@ == old(self)@.deliver(wav@, events@),
    {
        self.inner.deliver(wav, events);
    }

    /// The channel is closed. The stream is over, and there is no item left.
    pub fn disconnect(&mut self) -> (item: Option<(i16, Option<Vec<Event>>)>)
        ensures
            final(self)@ == old(self)@.disconnect().next,
            item is None,
    {
        let _ = self.inner.disconnect();
        None
    }

    /// The next sample with the landmarks due at it, or `None` where no sample can
    /// be handed out.
    pub fn next(&mut self) -> (item: Option<(i16, Option<Vec<Event>>)>)
        ensures
            final(self)@ == old(self)@.pull().next,
            is_item(item, old(self)@.pull().sample, old(self)@.pull().events),
    {
        let (sample, events) = self.inner.next_sample_and_events();
        match sample {
            None => None,
            Some(sample) => Some((sample, events)),
        }
    }

    /// Nothing is known ahead of how many items are left.
    pub fn size_hint(&self) -> (hint: (usize, Option<usize>))
        ensures
            hint == (0usize, None::<usize>),
    {
        self.inner.size_hint()
    }
}

/// A stream of samples that calls a handler with each landmark as it falls due.
pub struct SpeakerSourceWithCallback<F: FnMut(Event)> {
    inner: SpeakerSource,
    callback: F,
}

impl<F: FnMut(Event)> View for SpeakerSourceWithCallback<F> {
    type V = SourceView;

    closed spec fn view(&self) -> SourceView {
        self.inner@
    }
}

impl<F: FnMut(Event)> SpeakerSourceWithCallback<F> {
    /// Whether the handler can be called with every landmark. This holds of every
    /// stream that `with_callback` made, and every step keeps it.
    pub closed spec fn handler_takes_all(&self) -> bool {
        forall|event: Event| call_requires(self.callback, (event,))
    }

    fn dispatch(&mut self, events: Option<Vec<Event>>)
        requires
            old(self).handler_takes_all(),
        ensures
            final(self)@ == old(self)@,
            final(self).handler_takes_all(),
            forall|n: int|
                0 <= n < batch(events).len() ==> final(self).has_handled(
                    #[trigger] batch(events)[n],
                ),
    {
        match events {
            None => (),
            Some(events) => {
                let mut i: usize = 0;
                while i < events.len()
                    invariant
                        i <= events.len(),
                        self.inner == old(self).inner,
                        forall|event: Event| call_requires(self.callback, (event,)),
                        forall|n: int|
                            0 <= n < i ==> call_ensures(self.callback, (#[trigger] events@[n],), ()),
                    decreases events.len() - i,
                {
                    (self.callback)(events[i]);
                    i += 1;
                }
            },
        }
    }

    /// Whether the handler has run on `event`: a call of it with `event` has
    /// returned, so that what the handler ensures of such a call holds.
    pub closed spec fn has_handled(&self, event: Event) -> bool {
        call_ensures(self.callback, (event,), ())
    }

    /// Whether the next pull needs a delivery first.
    pub fn wants_delivery(&self) -> (wants: bool)
        ensures
            wants == self@.wants_delivery(),
    {
        self.inner.wants_delivery()
    }

    /// Takes one unit from the channel.
    pub fn deliver(&mut self, wav: Vec<i16>, events: Vec<(u32, Event)>)
        ensures
            final(self)@ == old(self)@.deliver(wav@, events@),
            old(self).handler_takes_all() ==> final(self).handler_takes_all(),
    {
        self.inner.deliver(wav, events);
    }

    /// The channel is closed. The handler hears of the end, once, and no sample is
    /// left.
    pub fn disconnect(&mut self) -> (sample: Option<i16>)
        requires
            old(self).handler_takes_all(),
        ensures
            final(self)@ == old(self)@.disconnect().next,
            final(self).handler_takes_all(),
            sample is None,
            forall|n: int|
                0 <= n < old(self)@.disconnect().events.len() ==> final(self).has_handled(
                    #[trigger] old(self)@.disconnect().events[n],
                ),
    {
        let (sample, events) = self.inner.disconnect();
        self.dispatch(events);
        sample
    }

    /// Calls the handler with each landmark due at the next sample, in the order in
    /// which they fell due, and hands out the sample: the same sample that the
    /// cursor alone would hand out.
    pub fn next(&mut self) -> (sample: Option<i16>)
        requires
            old(self).handler_takes_all(),
        ensures
            final(self)@ == old(self)@.pull().next,
            final(self).handler_takes_all(),
            sample == old(self)@.pull().sample,
            forall|n: int|
                0 <= n < old(self)@.pull().events.len() ==> final(self).has_handled(
                    #[trigger] old(self)@.pull().events[n],
                ),
    {
        let (sample, events) = self.inner.next_sample_and_events();
        self.dispatch(events);
        sample
    }

    /// Samples per second of the stream.
    pub fn sample_rate(&self) -> (rate: u32)
        ensures
            rate == self@.sample_rate,
    {
        self.inner.sample_rate()
    }

    /// The stream has one channel.
    pub fn channels(&self) -> (channels: u16)
        ensures
            channels == 1,
    {
        self.inner.channels()
    }

    /// The stream is one frame of unknown length.
    pub fn current_frame_len(&self) -> (len: Option<usize>)
        ensures
            len is None,
    {
        self.inner.current_frame_len()
    }

    /// The duration is known only once the stream has been consumed.
    pub fn total_duration(&self) -> (duration: Option<std::time::Duration>)
        ensures
            duration is None,
    {
        self.inner.total_duration()
    }

    /// Nothing is known ahead of how many samples are left.
    pub fn size_hint(&self) -> (hint: (usize, Option<usize>))
        ensures
            hint == (0usize, None::<usize>),
    {
        self.inner.size_hint()
    }
}

impl SpeakerSource {
    /// The same stream, with `callback` called for each landmark as it falls due.
    pub fn with_callback<F: FnMut(Event)>(self, callback: F) -> (source:
        SpeakerSourceWithCallback<F>)
        requires
            forall|event: Event| call_requires(callback, (event,)),
        ensures
            source@ == self@,
            source.handler_takes_all(),
    {
        SpeakerSourceWithCallback { inner: self, callback }
    }

    /// The same stream, with the landmarks handed out beside each sample.
    pub fn iter_audio_and_events(self) -> (source: IterAudioAndEvents)
        ensures
            source@ == self@,
    {
        IterAudioAndEvents { inner: self }
    }
}

} // verus!
