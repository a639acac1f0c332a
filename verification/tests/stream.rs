use espeak_rs::engine::EngineState;
use espeak_rs::event::{NativeEvent, NativeEventKind};
use espeak_rs::source::due_at;
use espeak_rs::worker::{signal_after_send, synth_callback, CallbackSignal};
use espeak_rs::{Event, Speaker, SpeakerSource};
use std::cell::{Cell, RefCell};
use std::sync::mpsc::{channel, Receiver};

type Unit = (Vec<i16>, Vec<(u32, Event)>);

fn within(left: usize, right: usize, range: usize) -> bool {
    left <= right.saturating_add(range) && left >= right.saturating_sub(range)
}

/// A channel that already holds every unit of `feed` and is closed behind them.
fn closed_channel(feed: Vec<Unit>) -> Receiver<Unit> {
    let (tx, rx) = channel::<Unit>();
    for unit in feed {
        tx.send(unit).unwrap();
    }
    rx
}

/// One pull of a consumer: receive while the cursor wants a delivery, then pull.
fn pull(source: &mut SpeakerSource, rx: &Receiver<Unit>) -> (Option<i16>, Option<Vec<Event>>) {
    while source.wants_delivery() {
        match rx.recv() {
            Ok((wav, events)) => source.deliver(wav, events),
            Err(_) => return source.disconnect(),
        }
    }
    source.next_sample_and_events()
}

/// Pulls the stream to its end. Returns the samples, and each landmark with the
/// number of samples pulled before it was handed out.
fn drain(source: &mut SpeakerSource, rx: &Receiver<Unit>) -> (Vec<i16>, Vec<(usize, Event)>) {
    let mut samples = Vec::new();
    let mut heard = Vec::new();
    loop {
        let (sample, events) = pull(source, rx);
        for event in events.unwrap_or_default() {
            heard.push((samples.len(), event));
        }
        match sample {
            Some(sample) => samples.push(sample),
            None => return (samples, heard),
        }
    }
}

fn ramp(from: usize, len: usize) -> Vec<i16> {
    (from..from + len).map(|n| (n % 30000) as i16).collect()
}

fn native(kind: NativeEventKind, text_position: i32, length: i32, audio_position: i32) -> NativeEvent {
    NativeEvent { kind, text_position, length, audio_position }
}

fn terminator() -> NativeEvent {
    native(NativeEventKind::ListTerminated, 0, 0, 0)
}

/// A feed of `total` samples in chunks of half a second, as an utterance without
/// landmarks would arrive.
fn plain_feed(total: usize) -> Vec<Unit> {
    let mut feed = Vec::new();
    let mut sent = 0;
    while sent < total {
        let len = (total - sent).min(11025);
        feed.push((ramp(sent, len), Vec::new()));
        sent += len;
    }
    feed.push((Vec::new(), Vec::new()));
    feed
}

#[test]
fn source_iterates() {
    let mut speaker = Speaker::new();
    let (request, mut source) = speaker.speak("Hello, world", 22050);
    assert_eq!(request.text, "Hello, world");
    assert_eq!(request.params.rate, None);
    let rx = closed_channel(plain_feed(21748));
    let (samples, _) = drain(&mut source, &rx);
    assert!(within(samples.len(), 21748usize, 500));

    speaker.params.rate = Some(400);
    let (request, mut source) = speaker.speak("Hello, world", 22050);
    assert_eq!(request.params.rate, Some(400));
    let rx = closed_channel(plain_feed(6902));
    let (samples, _) = drain(&mut source, &rx);
    assert!(within(samples.len(), 6902usize, 500));
}

#[test]
fn synth_twice_without_crashing() {
    let speaker = Speaker::new();
    let (_, mut source) = speaker.speak("Hello, world", 22050);
    let rx = closed_channel(plain_feed(21748));
    let (first, _) = drain(&mut source, &rx);
    assert!(within(first.len(), 21748usize, 500));
    let (_, mut source) = speaker.speak("Goodbye", 22050);
    let rx = closed_channel(plain_feed(11888));
    let (second, _) = drain(&mut source, &rx);
    assert!(within(second.len(), 11888usize, 500));
    assert_eq!(first, ramp(0, 21748));
    assert_eq!(second, ramp(0, 11888));
}

#[test]
fn has_samplerate() {
    let mut engine = EngineState::new();
    let sample_rate = engine.initialized(22050).unwrap();
    let speaker = Speaker::new();
    let (_, source) = speaker.speak("Hello, world", sample_rate);
    assert_eq!(22050, source.sample_rate());
}

#[test]
fn callbacks_called() {
    let text = "Hello world. Goodbye world";
    let calls: Vec<(Option<Vec<i16>>, Vec<NativeEvent>)> = vec![
        (
            Some(ramp(0, 11025)),
            vec![
                native(NativeEventKind::SampleRate, 0, 0, 0),
                native(NativeEventKind::Sentence, 1, 0, 0),
                native(NativeEventKind::Word, 1, 5, 0),
                native(NativeEventKind::Word, 7, 5, 307),
                terminator(),
            ],
        ),
        (Some(ramp(11025, 11650)), vec![native(NativeEventKind::Other, 12, 0, 1000), terminator()]),
        (
            Some(ramp(22675, 8680)),
            vec![
                native(NativeEventKind::Sentence, 14, 0, 1028),
                native(NativeEventKind::Word, 14, 7, 1028),
                terminator(),
            ],
        ),
        (
            Some(ramp(31355, 9431)),
            vec![
                native(NativeEventKind::Word, 22, 5, 1422),
                native(NativeEventKind::Other, 26, 0, 1849),
                terminator(),
            ],
        ),
        (None, vec![native(NativeEventKind::Other, 0, 0, 1849), terminator()]),
    ];
    let (tx, rx) = channel::<Unit>();
    for (wav, events) in calls {
        let unit = synth_callback(wav, &events);
        assert_eq!(signal_after_send(tx.send(unit).is_ok()), CallbackSignal::Continue);
    }
    drop(tx);

    let events = RefCell::new(Vec::<(usize, Event)>::new());
    let current_sample: Cell<usize> = Cell::new(0);
    let cb = |evt| {
        events.borrow_mut().push((current_sample.get(), evt));
    };
    let speaker = Speaker::new();
    let (_, source) = speaker.speak(text, 22050);
    let mut source = source.with_callback(cb);
    loop {
        let mut sample = None;
        let mut closed = false;
        while source.wants_delivery() {
            match rx.recv() {
                Ok((wav, events)) => source.deliver(wav, events),
                Err(_) => {
                    sample = source.disconnect();
                    closed = true;
                    break;
                }
            }
        }
        if !closed {
            sample = source.next();
        }
        match sample {
            Some(_) => current_sample.set(current_sample.get() + 1),
            None => break,
        }
    }
    let events = events.into_inner();
    let expected = [
        (0usize, Event::Start),
        (0usize, Event::Sentence(0)),
        (0usize, Event::Word(0, 5)),
        (6769usize, Event::Word(6, 5)),
        (22675usize, Event::Sentence(13)),
        (22675usize, Event::Word(13, 7)),
        (31355usize, Event::Word(21, 5)),
        (40786usize, Event::End),
    ];

    assert_eq!(events.len(), expected.len());
    for (i, (at_sample, event)) in events.iter().enumerate() {
        assert_eq!(*event, expected[i].1);
        assert!(within(*at_sample, expected[i].0, 25));
    }
    assert_eq!(&text[6..6 + 5], "world");
    assert_eq!(&text[13..13 + 7], "Goodbye");
}

#[test]
fn a_new_cursor_wants_a_delivery() {
    let source = SpeakerSource::new(22050);
    assert!(source.wants_delivery());
    assert_eq!(source.sample_rate(), 22050);
    assert_eq!(source.channels(), 1);
    assert_eq!(source.current_frame_len(), None);
    assert_eq!(source.total_duration(), None);
    assert_eq!(source.size_hint(), (0, None));
}

#[test]
fn samples_come_out_as_the_chunks_put_end_to_end() {
    let feed: Vec<Unit> = vec![
        (vec![1, 2, 3], vec![]),
        (vec![], vec![]),
        (vec![-4], vec![]),
        (vec![5, 6], vec![]),
        (vec![], vec![]),
    ];
    let rx = closed_channel(feed);
    let mut source = SpeakerSource::new(8000);
    let (samples, heard) = drain(&mut source, &rx);
    assert_eq!(samples, vec![1, 2, 3, -4, 5, 6]);
    assert_eq!(heard, vec![(6, Event::End)]);
}

#[test]
fn an_empty_stream_ends_at_once() {
    let rx = closed_channel(vec![]);
    let mut source = SpeakerSource::new(22050);
    assert_eq!(pull(&mut source, &rx), (None, Some(vec![Event::End])));
    assert!(!source.wants_delivery());
}

#[test]
fn a_stream_that_is_over_stays_over() {
    let rx = closed_channel(vec![(vec![7], vec![(0, Event::Start)])]);
    let mut source = SpeakerSource::new(22050);
    assert_eq!(pull(&mut source, &rx), (Some(7), Some(vec![Event::Start])));
    assert_eq!(pull(&mut source, &rx), (None, Some(vec![Event::End])));
    for _ in 0..3 {
        assert_eq!(pull(&mut source, &rx), (None, None));
        assert_eq!(source.next_sample_and_events(), (None, None));
        assert_eq!(source.disconnect(), (None, None));
    }
    source.deliver(vec![1, 2], vec![(0, Event::Start)]);
    assert!(!source.wants_delivery());
    assert_eq!(source.next_sample_and_events(), (None, None));
}

#[test]
fn a_landmark_waits_for_its_sample() {
    // 1 ms at 2000 Hz is sample 2; 2 ms is sample 4.
    let rx = closed_channel(vec![(
        vec![10, 11, 12, 13, 14, 15],
        vec![(0, Event::Start), (1, Event::Word(0, 2)), (1, Event::Word(3, 1)), (2, Event::Sentence(5))],
    )]);
    let mut source = SpeakerSource::new(2000);
    let (samples, heard) = drain(&mut source, &rx);
    assert_eq!(samples, vec![10, 11, 12, 13, 14, 15]);
    assert_eq!(
        heard,
        vec![
            (0, Event::Start),
            (2, Event::Word(0, 2)),
            (2, Event::Word(3, 1)),
            (4, Event::Sentence(5)),
            (6, Event::End),
        ]
    );
}

#[test]
fn a_landmark_that_arrives_late_is_handed_out_at_once() {
    let rx = closed_channel(vec![
        (vec![1, 2, 3, 4], vec![]),
        (vec![5, 6], vec![(0, Event::Start), (1, Event::Word(0, 1))]),
    ]);
    let mut source = SpeakerSource::new(1000);
    let (_, heard) = drain(&mut source, &rx);
    assert_eq!(heard, vec![(4, Event::Start), (4, Event::Word(0, 1)), (6, Event::End)]);
}

#[test]
fn landmarks_behind_the_last_sample_are_dropped() {
    let rx = closed_channel(vec![
        (vec![1, 2], vec![(0, Event::Start), (2, Event::Word(0, 1))]),
        (vec![], vec![(0, Event::Sentence(0))]),
    ]);
    let mut source = SpeakerSource::new(1000);
    let (samples, heard) = drain(&mut source, &rx);
    assert_eq!(samples, vec![1, 2]);
    assert_eq!(heard, vec![(0, Event::Start), (2, Event::End)]);
}

#[test]
fn a_landmark_that_is_not_due_holds_back_those_behind_it() {
    let rx = closed_channel(vec![(
        vec![1, 2, 3],
        vec![(2, Event::Word(0, 1)), (0, Event::Start)],
    )]);
    let mut source = SpeakerSource::new(1000);
    let (_, heard) = drain(&mut source, &rx);
    assert_eq!(heard, vec![(2, Event::Word(0, 1)), (2, Event::Start), (3, Event::End)]);
}

#[test]
fn a_pull_without_a_delivery_brings_no_sample() {
    let mut source = SpeakerSource::new(1000);
    assert_eq!(source.next_sample_and_events(), (None, None));
    source.deliver(vec![], vec![(0, Event::Start), (5, Event::Word(0, 1))]);
    assert!(source.wants_delivery());
    assert_eq!(source.next_sample_and_events(), (None, Some(vec![Event::Start])));
    source.deliver(vec![9], vec![]);
    assert!(!source.wants_delivery());
    assert_eq!(source.next_sample_and_events(), (Some(9), None));
    assert!(source.wants_delivery());
}

#[test]
fn a_delivery_ahead_of_the_cursor_is_kept() {
    let mut source = SpeakerSource::new(1000);
    source.deliver(vec![1], vec![]);
    source.deliver(vec![2, 3], vec![(1, Event::Sentence(0))]);
    assert_eq!(source.next_sample_and_events(), (Some(1), None));
    assert_eq!(source.next_sample_and_events(), (Some(2), Some(vec![Event::Sentence(0)])));
    assert_eq!(source.next_sample_and_events(), (Some(3), None));
    assert_eq!(source.disconnect(), (None, Some(vec![Event::End])));
}

#[test]
fn due_sample_is_the_position_scaled_and_rounded_down() {
    assert_eq!(due_at(0, 22050), 0);
    assert_eq!(due_at(307, 22050), 6769);
    assert_eq!(due_at(1028, 22050), 22667);
    assert_eq!(due_at(1422, 22050), 31355);
    assert_eq!(due_at(999, 1), 0);
    assert_eq!(due_at(1000, 1), 1);
    assert_eq!(due_at(7, 0), 0);
    // Four minutes into the audio the product no longer fits in 32 bits.
    assert_eq!(due_at(240_000, 22050), 5_292_000);
    assert_eq!(due_at(u32::MAX, u32::MAX), 18_446_744_065_119_617);
}

#[test]
fn a_landmark_far_into_the_audio_is_not_early() {
    let mut source = SpeakerSource::new(48000);
    source.deliver(vec![1, 2], vec![(100_000, Event::Word(0, 1))]);
    assert_eq!(source.next_sample_and_events(), (Some(1), None));
    assert_eq!(source.next_sample_and_events(), (Some(2), None));
}

#[test]
fn items_carry_the_landmarks_of_their_sample() {
    let rx = closed_channel(vec![(vec![4, 5, 6], vec![(0, Event::Start), (2, Event::Word(0, 3))])]);
    let mut source = SpeakerSource::new(1000).iter_audio_and_events();
    let mut items = Vec::new();
    loop {
        let mut item = None;
        let mut closed = false;
        while source.wants_delivery() {
            match rx.recv() {
                Ok((wav, events)) => source.deliver(wav, events),
                Err(_) => {
                    item = source.disconnect();
                    closed = true;
                    break;
                }
            }
        }
        if !closed {
            item = source.next();
        }
        match item {
            Some(item) => items.push(item),
            None => break,
        }
    }
    assert_eq!(
        items,
        vec![(4, Some(vec![Event::Start])), (5, None), (6, Some(vec![Event::Word(0, 3)]))]
    );
    assert_eq!(source.next(), None);
    assert_eq!(source.size_hint(), (0, None));
}

#[test]
fn the_handler_hears_of_the_end_once() {
    let heard = RefCell::new(Vec::new());
    let mut source = SpeakerSource::new(1000).with_callback(|event| heard.borrow_mut().push(event));
    assert_eq!(source.sample_rate(), 1000);
    assert_eq!(source.channels(), 1);
    assert_eq!(source.current_frame_len(), None);
    assert_eq!(source.total_duration(), None);
    assert_eq!(source.size_hint(), (0, None));
    source.deliver(vec![3], vec![(0, Event::Start)]);
    assert_eq!(source.next(), Some(3));
    assert!(source.wants_delivery());
    assert_eq!(source.disconnect(), None);
    assert_eq!(source.disconnect(), None);
    assert_eq!(source.next(), None);
    drop(source);
    assert_eq!(heard.into_inner(), vec![Event::Start, Event::End]);
}

#[test]
fn the_callback_aborts_when_the_stream_is_gone() {
    let (tx, rx) = channel::<Unit>();
    drop(rx);
    let unit = synth_callback(Some(vec![1, 2]), &vec![terminator()]);
    assert_eq!(signal_after_send(tx.send(unit).is_ok()), CallbackSignal::Abort);
}
