//! A whole stream, from the first pull to the end.
//!
//! A consumer pulls until no sample comes. Before each pull, as long as the cursor
//! wants a delivery, it hands the cursor the next unit of the channel, or tells it
//! that the channel is closed once the units have run out. `consume` is that
//! protocol over the cursor's model, for the units that the channel will carry, and
//! the lemmas below say what the consumer gets to hear.

use vstd::prelude::*;
use crate::event::Event;
use crate::source::{due_count, due_sample, landmarks, SourceView, Step};

verus! {

/// The samples of all units, in arrival order.
pub open spec fn chunks(feed: Seq<(Seq<i16>, Seq<(u32, Event)>)>) -> Seq<i16>
    decreases feed.len(),
{
    if feed.len() == 0 {
        Seq::empty()
    } else {
        feed[0].0 + chunks(feed.drop_first())
    }
}

/// The timestamped landmarks of all units, in arrival order.
pub open spec fn batches(feed: Seq<(Seq<i16>, Seq<(u32, Event)>)>) -> Seq<(u32, Event)>
    decreases feed.len(),
{
    if feed.len() == 0 {
        Seq::empty()
    } else {
        feed[0].1 + batches(feed.drop_first())
    }
}

/// The landmarks that arrive while samples are still to come: those of every unit up
/// to the last one that carries a sample. What arrives behind the last sample is
/// never handed out.
pub open spec fn audible(feed: Seq<(Seq<i16>, Seq<(u32, Event)>)>) -> Seq<(u32, Event)>
    decreases feed.len(),
{
    if feed.len() == 0 || chunks(feed).len() == 0 {
        Seq::empty()
    } else {
        feed[0].1 + audible(feed.drop_first())
    }
}

/// Whether the cursor stands within what it has received.
pub open spec fn in_bounds(source: SourceView) -> bool {
    match source.position {
        Some(index) => index <= source.samples.len(),
        None => true,
    }
}

/// The samples that the cursor has received and not handed out.
pub open spec fn buffered(source: SourceView) -> Seq<i16> {
    match source.position {
        Some(index) => source.samples.skip(index as int),
        None => Seq::empty(),
    }
}

/// The steps of a consumer that pulls the stream to its end while the channel
/// carries `feed` and is then closed: one step for each pull that the consumer
/// makes, the last of them the one that brings no sample.
pub open spec fn consume(source: SourceView, feed: Seq<(Seq<i16>, Seq<(u32, Event)>)>) -> Seq<Step>
    decreases feed.len(), buffered(source).len(),
{
    if source.is_terminal() {
        seq![source.pull()]
    } else if source.wants_delivery() {
        if feed.len() == 0 {
            seq![source.disconnect()]
        } else {
            consume(source.deliver(feed[0].0, feed[0].1), feed.drop_first())
        }
    } else {
        seq![source.pull()] + consume(source.pull().next, feed)
    }
}

/// The samples that a run of steps handed out, in order.
pub open spec fn heard_samples(steps: Seq<Step>) -> Seq<i16>
    decreases steps.len(),
{
    if steps.len() == 0 {
        Seq::empty()
    } else {
        match steps[0].sample {
            Some(sample) => seq![sample] + heard_samples(steps.drop_first()),
            None => heard_samples(steps.drop_first()),
        }
    }
}

/// The landmarks that a run of steps handed out, in order.
pub open spec fn heard_events(steps: Seq<Step>) -> Seq<Event>
    decreases steps.len(),
{
    if steps.len() == 0 {
        Seq::empty()
    } else {
        steps[0].events + heard_events(steps.drop_first())
    }
}

/// A pull hands out no more landmarks than are waiting.
pub proof fn lemma_due_count_bound(pending: Seq<(u32, Event)>, sample_rate: u32, index: nat)
    ensures
        due_count(pending, sample_rate, index) <= pending.len(),
    decreases pending.len(),
{
    if pending.len() > 0 && due_sample(pending[0].0, sample_rate) <= index {
        lemma_due_count_bound(pending.drop_first(), sample_rate, index);
    }
}

/// No landmark is handed out before its sample: every landmark that a pull at
/// `index` hands out is due at `index`, and the first that stays behind is not.
pub proof fn lemma_due_landmarks(pending: Seq<(u32, Event)>, sample_rate: u32, index: nat)
    ensures
        forall|k: int|
            0 <= k < due_count(pending, sample_rate, index) ==> due_sample(
                (#[trigger] pending[k]).0,
                sample_rate,
            ) <= index,
        due_count(pending, sample_rate, index) < pending.len() ==> due_sample(
            pending[due_count(pending, sample_rate, index) as int].0,
            sample_rate,
        ) > index,
    decreases pending.len(),
{
    if pending.len() > 0 && due_sample(pending[0].0, sample_rate) <= index {
        let rest = pending.drop_first();
        lemma_due_landmarks(rest, sample_rate, index);
        lemma_due_count_bound(pending, sample_rate, index);
        assert forall|k: int| 0 <= k < due_count(pending, sample_rate, index) implies due_sample(
            (#[trigger] pending[k]).0,
            sample_rate,
        ) <= index by {
            if k > 0 {
                assert(pending[k] == rest[k - 1]);
            }
        }
        if due_count(pending, sample_rate, index) < pending.len() {
            assert(pending[due_count(pending, sample_rate, index) as int] == rest[due_count(
                rest,
                sample_rate,
                index,
            ) as int]);
        }
    }
}

/// Where the positions of the waiting landmarks do not decrease, a pull hands out
/// exactly those that are due: none that is due stays behind another.
pub proof fn lemma_due_landmarks_sorted(pending: Seq<(u32, Event)>, sample_rate: u32, index: nat)
    requires
        forall|i: int, j: int| 0 <= i <= j < pending.len() ==> pending[i].0 <= pending[j].0,
    ensures
        forall|k: int|
            due_count(pending, sample_rate, index) <= k < pending.len() ==> due_sample(
                (#[trigger] pending[k]).0,
                sample_rate,
            ) > index,
{
    lemma_due_landmarks(pending, sample_rate, index);
    lemma_due_count_bound(pending, sample_rate, index);
    let due = due_count(pending, sample_rate, index) as int;
    assert forall|k: int| due <= k < pending.len() implies due_sample(
        (#[trigger] pending[k]).0,
        sample_rate,
    ) > index by {
        let first = pending[due].0;
        let later = pending[k].0;
        assert(first <= later);
        assert(first as nat * sample_rate as nat <= later as nat * sample_rate as nat)
            by (nonlinear_arith)
            requires
                first <= later,
        ;
    }
}

/// A stream that is over stays over: it takes no delivery and hands out nothing.
pub proof fn lemma_over_stays_over(source: SourceView, wav: Seq<i16>, events: Seq<(u32, Event)>)
    requires
        source.is_terminal(),
    ensures
        source.deliver(wav, events) == source,
        !source.wants_delivery(),
        source.pull() == (Step { next: source, sample: None, events: Seq::empty() }),
        source.disconnect() == (Step { next: source, sample: None, events: Seq::empty() }),
{
}

/// The sample rate of a stream is fixed: no step changes it.
pub proof fn lemma_sample_rate_is_fixed(
    source: SourceView,
    wav: Seq<i16>,
    events: Seq<(u32, Event)>,
)
    ensures
        source.deliver(wav, events).sample_rate == source.sample_rate,
        source.pull().next.sample_rate == source.sample_rate,
        source.disconnect().next.sample_rate == source.sample_rate,
{
}

/// Every step keeps the cursor within what it has received.
pub proof fn lemma_steps_stay_in_bounds(
    source: SourceView,
    wav: Seq<i16>,
    events: Seq<(u32, Event)>,
)
    requires
        in_bounds(source),
    ensures
        in_bounds(SourceView::start(source.sample_rate)),
        in_bounds(source.deliver(wav, events)),
        in_bounds(source.pull().next),
        in_bounds(source.disconnect().next),
{
}

proof fn lemma_landmarks_concat(a: Seq<(u32, Event)>, b: Seq<(u32, Event)>)
    ensures
        landmarks(a + b) == landmarks(a) + landmarks(b),
{
    assert(landmarks(a + b) =~= landmarks(a) + landmarks(b));
}

proof fn lemma_consume_samples(source: SourceView, feed: Seq<(Seq<i16>, Seq<(u32, Event)>)>)
    requires
        in_bounds(source),
    ensures
        heard_samples(consume(source, feed)) == if source.is_terminal() {
            Seq::empty()
        } else {
            buffered(source) + chunks(feed)
        },
        consume(source, feed).len() >= 1,
        consume(source, feed).last().sample is None,
        consume(source, feed).last().next.is_terminal(),
        forall|n: int|
            0 <= n < consume(source, feed).len() - 1 ==> (#[trigger] consume(
                source,
                feed,
            )[n]).sample is Some,
    decreases feed.len(), buffered(source).len(),
{
    let steps = consume(source, feed);
    if source.is_terminal() {
        assert(steps.drop_first() =~= Seq::empty());
        assert(heard_samples(steps.drop_first()) =~= Seq::empty());
    } else if source.wants_delivery() {
        if feed.len() == 0 {
            assert(steps.drop_first() =~= Seq::empty());
            assert(heard_samples(steps.drop_first()) =~= Seq::empty());
            assert(buffered(source) + chunks(feed) =~= Seq::empty());
        } else {
            let next = source.deliver(feed[0].0, feed[0].1);
            lemma_consume_samples(next, feed.drop_first());
            assert(buffered(next) + chunks(feed.drop_first()) =~= buffered(source) + chunks(feed));
        }
    } else {
        let step = source.pull();
        let rest = consume(step.next, feed);
        lemma_consume_samples(step.next, feed);
        assert(steps.drop_first() =~= rest);
        assert(seq![step.sample->0] + (buffered(step.next) + chunks(feed)) =~= buffered(source)
            + chunks(feed));
        assert forall|n: int| 0 <= n < steps.len() - 1 implies (#[trigger] steps[n]).sample
            is Some by {
            if n > 0 {
                assert(steps[n] == rest[n - 1]);
            }
        }
    }
}

proof fn lemma_consume_events(
    source: SourceView,
    feed: Seq<(Seq<i16>, Seq<(u32, Event)>)>,
) -> (heard: nat)
    requires
        !source.is_terminal(),
    ensures
        heard <= (source.pending + batches(feed)).len(),
        heard_events(consume(source, feed)) == landmarks(
            (source.pending + batches(feed)).take(heard as int),
        ).push(Event::End),
    decreases feed.len(), buffered(source).len(),
{
    let steps = consume(source, feed);
    let all = source.pending + batches(feed);
    if source.wants_delivery() {
        if feed.len() == 0 {
            assert(steps.drop_first() =~= Seq::empty());
            assert(heard_events(steps.drop_first()) =~= Seq::empty());
            assert(heard_events(steps) =~= landmarks(all.take(0)).push(Event::End));
            0
        } else {
            let next = source.deliver(feed[0].0, feed[0].1);
            let heard = lemma_consume_events(next, feed.drop_first());
            assert(next.pending + batches(feed.drop_first()) =~= all);
            heard
        }
    } else {
        let step = source.pull();
        let rest = consume(step.next, feed);
        let index = source.position->0;
        let due = due_count(source.pending, source.sample_rate, index);
        lemma_due_count_bound(source.pending, source.sample_rate, index);
        let later = lemma_consume_events(step.next, feed);
        let all_next = step.next.pending + batches(feed);
        assert(steps.drop_first() =~= rest);
        assert(all.take((due + later) as int) =~= source.pending.take(due as int) + all_next.take(
            later as int,
        ));
        lemma_landmarks_concat(source.pending.take(due as int), all_next.take(later as int));
        assert(step.events + landmarks(all_next.take(later as int)).push(Event::End) =~= landmarks(
            all.take((due + later) as int),
        ).push(Event::End));
        due + later
    }
}

proof fn lemma_due_later(
    pending: Seq<(u32, Event)>,
    more: Seq<(u32, Event)>,
    sample_rate: u32,
    index: nat,
    later: nat,
)
    requires
        index <= later,
    ensures
        due_count(pending + more, sample_rate, later) == due_count(pending, sample_rate, index)
            + due_count(
            pending.skip(due_count(pending, sample_rate, index) as int) + more,
            sample_rate,
            later,
        ),
    decreases pending.len(),
{
    if pending.len() > 0 && due_sample(pending[0].0, sample_rate) <= index {
        let rest = pending.drop_first();
        let due = due_count(rest, sample_rate, index);
        lemma_due_later(rest, more, sample_rate, index, later);
        lemma_due_count_bound(rest, sample_rate, index);
        assert((pending + more).drop_first() =~= rest + more);
        assert(pending.skip(due as int + 1) =~= rest.skip(due as int));
    } else {
        assert(pending.skip(0) =~= pending);
    }
}

proof fn lemma_consume_heard(source: SourceView, feed: Seq<(Seq<i16>, Seq<(u32, Event)>)>)
    requires
        !source.is_terminal(),
        in_bounds(source),
    ensures
        heard_events(consume(source, feed)) == if buffered(source).len() + chunks(feed).len() == 0 {
            seq![Event::End]
        } else {
            let waiting = source.pending + audible(feed);
            let last = (source.samples.len() + chunks(feed).len() - 1) as nat;
            landmarks(waiting.take(due_count(waiting, source.sample_rate, last) as int)).push(
                Event::End,
            )
        },
    decreases feed.len(), buffered(source).len(),
{
    let steps = consume(source, feed);
    let rate = source.sample_rate;
    if source.wants_delivery() {
        if feed.len() == 0 {
            assert(steps.drop_first() =~= Seq::empty());
            assert(heard_events(steps.drop_first()) =~= Seq::empty());
            assert(heard_events(steps) =~= seq![Event::End]);
        } else {
            let next = source.deliver(feed[0].0, feed[0].1);
            let rest = feed.drop_first();
            lemma_consume_heard(next, rest);
            if chunks(feed).len() > 0 {
                assert(next.pending + audible(rest) =~= source.pending + audible(feed));
            }
        }
    } else {
        let step = source.pull();
        let rest = consume(step.next, feed);
        let index = source.position->0;
        let due = due_count(source.pending, rate, index);
        let last = (source.samples.len() + chunks(feed).len() - 1) as nat;
        let waiting = source.pending + audible(feed);
        lemma_due_count_bound(source.pending, rate, index);
        lemma_consume_heard(step.next, feed);
        assert(steps.drop_first() =~= rest);
        lemma_due_later(source.pending, audible(feed), rate, index, last);
        if buffered(step.next).len() + chunks(feed).len() == 0 {
            assert(audible(feed) =~= Seq::empty());
            assert(waiting =~= source.pending);
            assert(step.events + seq![Event::End] =~= landmarks(
                waiting.take(due_count(waiting, rate, last) as int),
            ).push(Event::End));
        } else {
            let waiting_next = step.next.pending + audible(feed);
            let later = due_count(waiting_next, rate, last);
            lemma_due_count_bound(waiting_next, rate, last);
            assert(waiting.take((due + later) as int) =~= source.pending.take(due as int)
                + waiting_next.take(later as int));
            lemma_landmarks_concat(
                source.pending.take(due as int),
                waiting_next.take(later as int),
            );
            assert(step.events + landmarks(waiting_next.take(later as int)).push(Event::End)
                =~= landmarks(waiting.take((due + later) as int)).push(Event::End));
        }
    }
}

/// Which landmarks are heard over a whole stream: of those that arrive while samples
/// are still to come, the ones at the head that are due by the last sample, in
/// arrival order, followed by one `End`. A stream without a sample brings the `End`
/// alone.
pub proof fn lemma_heard_landmarks(sample_rate: u32, feed: Seq<(Seq<i16>, Seq<(u32, Event)>)>)
    ensures
        heard_events(consume(SourceView::start(sample_rate), feed)) == if chunks(feed).len() == 0 {
            seq![Event::End]
        } else {
            landmarks(
                audible(feed).take(
                    due_count(audible(feed), sample_rate, (chunks(feed).len() - 1) as nat) as int,
                ),
            ).push(Event::End)
        },
{
    let start = SourceView::start(sample_rate);
    lemma_consume_heard(start, feed);
    assert(start.pending + audible(feed) =~= audible(feed));
}

proof fn lemma_all_due(pending: Seq<(u32, Event)>, sample_rate: u32, index: nat)
    requires
        forall|k: int|
            0 <= k < pending.len() ==> due_sample((#[trigger] pending[k]).0, sample_rate) <= index,
    ensures
        due_count(pending, sample_rate, index) == pending.len(),
    decreases pending.len(),
{
    if pending.len() > 0 {
        let rest = pending.drop_first();
        assert(due_sample(pending[0].0, sample_rate) <= index);
        assert forall|k: int| 0 <= k < rest.len() implies due_sample(
            (#[trigger] rest[k]).0,
            sample_rate,
        ) <= index by {
            assert(rest[k] == pending[k + 1]);
        }
        lemma_all_due(rest, sample_rate, index);
    }
}

/// Where every landmark that arrives while samples are still to come is due within
/// the audio, all of them are heard, in arrival order, and then the `End`.
pub proof fn lemma_all_landmarks_heard(sample_rate: u32, feed: Seq<(Seq<i16>, Seq<(u32, Event)>)>)
    requires
        forall|k: int|
            0 <= k < audible(feed).len() ==> due_sample(
                (#[trigger] audible(feed)[k]).0,
                sample_rate,
            ) < chunks(feed).len(),
    ensures
        heard_events(consume(SourceView::start(sample_rate), feed)) == landmarks(
            audible(feed),
        ).push(Event::End),
{
    lemma_heard_landmarks(sample_rate, feed);
    if chunks(feed).len() == 0 {
        assert(audible(feed) =~= Seq::empty());
        assert(landmarks(audible(feed)).push(Event::End) =~= seq![Event::End]);
    } else {
        lemma_all_due(audible(feed), sample_rate, (chunks(feed).len() - 1) as nat);
        assert(audible(feed).take(audible(feed).len() as int) =~= audible(feed));
    }
}

/// The samples pulled one at a time are the chunks of the channel put end to end: as
/// many pulls bring a sample as there are samples in the chunks, each the next of
/// them, and one more pull brings none and ends the stream.
pub proof fn lemma_round_trip(sample_rate: u32, feed: Seq<(Seq<i16>, Seq<(u32, Event)>)>)
    ensures
        heard_samples(consume(SourceView::start(sample_rate), feed)) == chunks(feed),
        consume(SourceView::start(sample_rate), feed).len() == chunks(feed).len() + 1,
        forall|n: int|
            0 <= n < chunks(feed).len() ==> (#[trigger] consume(
                SourceView::start(sample_rate),
                feed,
            )[n]).sample == Some(chunks(feed)[n]),
        consume(SourceView::start(sample_rate), feed).last().sample is None,
        consume(SourceView::start(sample_rate), feed).last().next.is_terminal(),
{
    let start = SourceView::start(sample_rate);
    let steps = consume(start, feed);
    lemma_consume_samples(start, feed);
    assert(buffered(start) + chunks(feed) =~= chunks(feed));
    lemma_heard_samples_index(steps);
}

proof fn lemma_heard_samples_index(steps: Seq<Step>)
    requires
        steps.len() >= 1,
        steps.last().sample is None,
        forall|n: int| 0 <= n < steps.len() - 1 ==> (#[trigger] steps[n]).sample is Some,
    ensures
        heard_samples(steps).len() == steps.len() - 1,
        forall|n: int|
            0 <= n < steps.len() - 1 ==> (#[trigger] steps[n]).sample == Some(
                heard_samples(steps)[n],
            ),
    decreases steps.len(),
{
    if steps.len() == 1 {
        assert(heard_samples(steps.drop_first()) =~= Seq::empty());
    } else {
        let rest = steps.drop_first();
        assert(rest.last() == steps.last());
        assert forall|n: int| 0 <= n < rest.len() - 1 implies (#[trigger] rest[n]).sample
            is Some by {
            assert(rest[n] == steps[n + 1]);
        }
        lemma_heard_samples_index(rest);
        assert forall|n: int| 0 <= n < steps.len() - 1 implies (#[trigger] steps[n]).sample
            == Some(heard_samples(steps)[n]) by {
            if n > 0 {
                assert(steps[n] == rest[n - 1]);
            }
        }
    }
}

/// The landmarks heard over a whole stream are those that the channel carried, in
/// arrival order and up to some point, followed by one `End`: none is heard twice,
/// out of order, or after the end.
pub proof fn lemma_events_in_order(sample_rate: u32, feed: Seq<(Seq<i16>, Seq<(u32, Event)>)>)
    ensures
        exists|heard: int|
            0 <= heard <= batches(feed).len() && heard_events(
                consume(SourceView::start(sample_rate), feed),
            ) == landmarks(#[trigger] batches(feed).take(heard)).push(Event::End),
{
    let start = SourceView::start(sample_rate);
    let heard = lemma_consume_events(start, feed);
    assert(start.pending + batches(feed) =~= batches(feed));
    assert(heard_events(consume(start, feed)) == landmarks(batches(feed).take(heard as int)).push(
        Event::End,
    ));
}

} // verus!
