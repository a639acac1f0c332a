use espeak_rs::speaker::TextMode;
use espeak_rs::voice::NativeVoice;
use espeak_rs::{Speaker, Voice};

fn voice(name: &str) -> Voice {
    Voice::from_espeak_voice(&NativeVoice {
        name: Some(name.to_string()),
        identifier: Some("inc/hi".to_string()),
        age: 0,
        gender: 1,
        languages: None,
    })
}

#[test]
fn a_speaker_without_a_voice_asks_for_en() {
    let speaker = Speaker::new();
    let (request, source) = speaker.speak("Hello, world!", 22050);
    assert_eq!(request.text, "Hello, world!");
    assert_eq!(request.voice_name, "en");
    assert_eq!(request.mode, TextMode::Plain);
    assert_eq!(request.params.rate, None);
    assert!(source.wants_delivery());
    assert_eq!(source.sample_rate(), 22050);
}

#[test]
fn a_speaker_asks_for_the_voice_it_was_given() {
    let mut speaker = Speaker::new();
    speaker.set_voice(&voice("Hindi"));
    assert_eq!(speaker.speak("x", 22050).0.voice_name, "Hindi");
    speaker.set_voice(&voice("Arabic"));
    assert_eq!(speaker.speak("x", 22050).0.voice_name, "Arabic");
    speaker.set_voice(&voice(""));
    assert_eq!(speaker.speak("x", 22050).0.voice_name, "en");
}

#[test]
fn a_request_holds_the_parameters_of_its_time() {
    let mut speaker = Speaker::new();
    speaker.params.pitch = Some(400);
    speaker.params.rate = Some(80);
    speaker.params.is_ssml = true;
    let (request, _) = speaker.speak("<speak>Hi</speak>", 16000);
    speaker.params.rate = Some(280);
    speaker.params.is_ssml = false;
    assert_eq!(request.params.pitch, Some(400));
    assert_eq!(request.params.rate, Some(80));
    assert_eq!(request.mode, TextMode::Markup);
    assert_eq!(request.text, "<speak>Hi</speak>");
    let (request, _) = speaker.speak("Hi", 16000);
    assert_eq!(request.params.rate, Some(280));
    assert_eq!(request.mode, TextMode::Plain);
}

#[test]
fn setting_a_voice_keeps_the_parameters() {
    let mut speaker = Speaker::new();
    speaker.params.volume = Some(30);
    speaker.set_voice(&voice("Hindi"));
    assert_eq!(speaker.params.volume, Some(30));
    assert_eq!(speaker.speak("", 8000).0.text, "");
}
