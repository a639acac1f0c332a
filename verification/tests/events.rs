use espeak_rs::event::{check_translatable, translate_events, NativeEvent, NativeEventKind};
use espeak_rs::Event;

fn native(kind: NativeEventKind, text_position: i32, length: i32, audio_position: i32) -> NativeEvent {
    NativeEvent { kind, text_position, length, audio_position }
}

fn terminator() -> NativeEvent {
    native(NativeEventKind::ListTerminated, 0, 0, 0)
}

#[test]
fn each_kept_kind_gives_its_landmark() {
    let start = native(NativeEventKind::SampleRate, 9, 9, 0);
    let word = native(NativeEventKind::Word, 7, 5, 307);
    let sentence = native(NativeEventKind::Sentence, 14, 3, 1028);
    assert_eq!(start.translate(), Some((0, Event::Start)));
    assert_eq!(word.translate(), Some((307, Event::Word(6, 5))));
    assert_eq!(sentence.translate(), Some((1028, Event::Sentence(13))));
    assert_eq!(native(NativeEventKind::Other, 3, 4, 5).translate(), None);
    assert_eq!(terminator().translate(), None);
}

#[test]
fn a_text_position_of_zero_stays_zero() {
    assert_eq!(native(NativeEventKind::Word, 0, 2, 10).translate(), Some((10, Event::Word(0, 2))));
    assert_eq!(native(NativeEventKind::Word, 1, 2, 10).translate(), Some((10, Event::Word(0, 2))));
    assert_eq!(native(NativeEventKind::Sentence, 0, 0, 0).translate(), Some((0, Event::Sentence(0))));
    assert_eq!(
        native(NativeEventKind::Word, i32::MAX, i32::MAX, i32::MAX).translate(),
        Some((2147483647, Event::Word(2147483646, 2147483647)))
    );
}

#[test]
fn a_list_is_read_up_to_its_terminator() {
    let list = vec![
        native(NativeEventKind::SampleRate, 0, 0, 0),
        native(NativeEventKind::Sentence, 1, 0, 0),
        native(NativeEventKind::Other, 1, 0, 0),
        native(NativeEventKind::Word, 1, 5, 0),
        native(NativeEventKind::Other, 6, 0, 300),
        native(NativeEventKind::Word, 7, 5, 307),
        terminator(),
        native(NativeEventKind::Word, 13, 1, 400),
        terminator(),
    ];
    assert!(check_translatable(&list));
    assert_eq!(
        translate_events(&list),
        vec![
            (0, Event::Start),
            (0, Event::Sentence(0)),
            (0, Event::Word(0, 5)),
            (307, Event::Word(6, 5)),
        ]
    );
}

#[test]
fn a_list_without_landmarks_gives_none() {
    assert_eq!(translate_events(&vec![]), vec![]);
    assert_eq!(translate_events(&vec![terminator()]), vec![]);
    assert_eq!(translate_events(&vec![native(NativeEventKind::Other, 1, 1, 1), terminator()]), vec![]);
}

#[test]
fn a_list_without_a_terminator_is_read_to_its_end() {
    let list = vec![native(NativeEventKind::Sentence, 3, 0, 20), native(NativeEventKind::Word, 3, 2, 20)];
    assert!(check_translatable(&list));
    assert_eq!(translate_events(&list), vec![(20, Event::Sentence(2)), (20, Event::Word(2, 2))]);
}

#[test]
fn a_negative_field_that_is_read_cannot_be_converted() {
    assert!(!native(NativeEventKind::Word, -1, 5, 0).convertible());
    assert!(!native(NativeEventKind::Word, 1, -5, 0).convertible());
    assert!(!native(NativeEventKind::Word, 1, 5, -1).convertible());
    assert!(!native(NativeEventKind::Sentence, -1, 0, 0).convertible());
    assert!(!native(NativeEventKind::Sentence, 1, 0, -7).convertible());
    assert!(!native(NativeEventKind::SampleRate, 0, 0, -1).convertible());
    assert!(native(NativeEventKind::Sentence, 1, -1, 0).convertible());
    assert!(native(NativeEventKind::SampleRate, -1, -1, 0).convertible());
    assert!(native(NativeEventKind::Other, -1, -1, -1).convertible());
    assert!(native(NativeEventKind::ListTerminated, -1, -1, -1).convertible());
}

#[test]
fn only_what_stands_before_the_terminator_is_tested() {
    let bad = native(NativeEventKind::Word, -1, 5, 0);
    assert!(!check_translatable(&vec![bad, terminator()]));
    assert!(!check_translatable(&vec![native(NativeEventKind::Word, 1, 1, 0), bad]));
    assert!(check_translatable(&vec![native(NativeEventKind::Word, 1, 1, 0), terminator(), bad]));
    assert!(check_translatable(&vec![native(NativeEventKind::Other, -3, -3, -3), terminator()]));
    assert!(check_translatable(&vec![]));
}
