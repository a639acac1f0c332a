//! The speaker: a voice and a parameter set, from which requests are made.

use vstd::prelude::*;
use crate::params::SpeakerParams;
use crate::source::{SourceView, SpeakerSource};
use crate::voice::Voice;

verus! {

/// How the engine is to read the text.
#[derive(Debug, PartialEq, Eq, Clone, Copy, Structural)]
pub enum TextMode {
    /// Plain text; the engine finds out its encoding.
    Plain,
    /// Text with markup elements.
    Markup,
}

/// Everything the worker needs for one request.
#[derive(Debug)]
pub struct SynthRequest {
    pub text: String,
    /// The voice to select; never empty.
    pub voice_name: String,
    pub mode: TextMode,
    pub params: SpeakerParams,
}

/// A voice and a parameter set. Each request takes both as they are when it is made.
pub struct Speaker {
    pub params: SpeakerParams,
    /// The name of the voice that was set, empty where none was.
    pub voice_name: String,
}

/// The name by which the engine is asked for a voice. The engine takes no empty
/// name, so a speaker without a voice asks for `en`.
pub open spec fn selector(voice_name: Seq<char>) -> Seq<char> {
    if voice_name.len() == 0 {
        "en"@
    } else {
        voice_name
    }
}

/// The way to read a text that is marked up, or is not.
pub open spec fn mode_of(is_ssml: bool) -> TextMode {
    if is_ssml {
        TextMode::Markup
    } else {
        TextMode::Plain
    }
}

impl Speaker {
    /// A speaker with the engine's defaults and no voice of its own.
    pub fn new() -> (speaker: Speaker)
        ensures
            speaker.voice_name@.len() == 0,
            speaker.params == SpeakerParams::unset(),
    {
        Speaker { params: SpeakerParams::new(), voice_name: String::new() }
    }

    /// Makes the request for one text, and the cursor of the stream that will carry
    /// its audio. The request holds the parameters as they are now: what is changed
    /// on the speaker afterwards does not reach it.
    pub fn speak(&self, text: &str, sample_rate: u32) -> (out: (SynthRequest, SpeakerSource))
        ensures
            out.0.text@ == text@,
            out.0.voice_name@ == selector(self.voice_name@),
            out.0.mode == mode_of(self.params.is_ssml),
            out.0.params == self.params,
            out.1@ == SourceView::start(sample_rate),
    {
        let voice_name = if self.voice_name.as_str().is_empty() {
            "en".to_owned()
        } else {
            self.voice_name.clone()
        };
        let mode = if self.params.is_ssml {
            TextMode::Markup
        } else {
            TextMode::Plain
        };
        (
            SynthRequest { text: text.to_owned(), voice_name, mode, params: self.params },
            SpeakerSource::new(sample_rate),
        )
    }

    /// Takes the voice for the requests to come.
    pub fn set_voice(&mut self, voice: &Voice)
        ensures
            final(self).voice_name@ == voice.name@,
            final(self).params == old(self).params,
    {
        self.voice_name = voice.name.clone();
    }
}

} // verus!
