//! Speech landmark events, and how they are read off the engine's native records.
//!
//! The engine reports what it has synthesized as a list of native records. Only three
//! kinds of record carry a landmark; the rest are dropped. A list ends at its first
//! terminator record, and everything behind that record is ignored.

use vstd::prelude::*;

verus! {

/// A speech landmark. Offsets and lengths count bytes of the input text.
#[derive(Debug, PartialEq, Eq, Clone, Copy, Structural)]
pub enum Event {
    /// The utterance starts.
    Start,
    /// A word begins: byte offset into the text, and byte length.
    Word(usize, usize),
    /// A sentence begins at the given byte offset.
    Sentence(usize),
    /// The utterance is over.
    End,
}

/// The kind of a native engine record, as far as the translation tells kinds apart.
#[derive(Debug, PartialEq, Eq, Clone, Copy, Structural)]
pub enum NativeEventKind {
    /// Marks the end of a list of records.
    ListTerminated,
    /// A word starts.
    Word,
    /// A sentence starts.
    Sentence,
    /// The engine announces its sample rate; this is the first record of an utterance.
    SampleRate,
    /// Any other kind of record. It carries no landmark.
    Other,
}

/// One record of the engine's event list, with the fields that the translation reads.
#[derive(Debug, PartialEq, Eq, Clone, Copy, Structural)]
pub struct NativeEvent {
    pub kind: NativeEventKind,
    /// One-based position in the text, as the engine counts it.
    pub text_position: i32,
    /// Length of the word, for a word record.
    pub length: i32,
    /// Milliseconds of audio synthesized before this record.
    pub audio_position: i32,
}

/// The engine counts text positions from one; landmarks count from zero. A position
/// of zero stays zero.
pub open spec fn zero_based(text_position: int) -> int {
    if text_position >= 1 {
        text_position - 1
    } else {
        0
    }
}

impl NativeEvent {
    /// Whether this record ends the list.
    pub open spec fn is_terminator(self) -> bool {
        self.kind is ListTerminated
    }

    /// Whether this record carries a landmark.
    pub open spec fn is_kept(self) -> bool {
        self.kind is Word || self.kind is Sentence || self.kind is SampleRate
    }

    /// Whether every field that the translation of this record reads is non-negative.
    /// A record that carries no landmark has no such field.
    pub open spec fn is_convertible(self) -> bool {
        match self.kind {
            NativeEventKind::Word => self.text_position >= 0 && self.length >= 0
                && self.audio_position >= 0,
            NativeEventKind::Sentence => self.text_position >= 0 && self.audio_position >= 0,
            NativeEventKind::SampleRate => self.audio_position >= 0,
            _ => true,
        }
    }

    /// The landmark of a kept record, with its audio position in milliseconds.
    pub open spec fn stamped(self) -> (u32, Event) {
        (
            self.audio_position as u32,
            match self.kind {
                NativeEventKind::Word => Event::Word(
                    zero_based(self.text_position as int) as usize,
                    self.length as usize,
                ),
                NativeEventKind::Sentence => Event::Sentence(
                    zero_based(self.text_position as int) as usize,
                ),
                _ => Event::Start,
            },
        )
    }

    /// Tests whether the record can be translated.
    pub fn convertible(&self) -> (ok: bool)
        ensures
            ok == self.is_convertible(),
    {
        match self.kind {
            NativeEventKind::Word => self.text_position >= 0 && self.length >= 0
                && self.audio_position >= 0,
            NativeEventKind::Sentence => self.text_position >= 0 && self.audio_position >= 0,
            NativeEventKind::SampleRate => self.audio_position >= 0,
            _ => true,
        }
    }

    /// Translates one record: a kept record gives its landmark and audio position,
    /// any other record gives nothing.
    pub fn translate(&self) -> (out: Option<(u32, Event)>)
        requires
            self.is_convertible(),
        ensures
            out == if self.is_kept() {
                Some(self.stamped())
            } else {
                None
            },
    {
        match self.kind {
            NativeEventKind::SampleRate => Some((self.audio_position as u32, Event::Start)),
            NativeEventKind::Word => {
                let text_position: usize = self.text_position as usize;
                let length: usize = self.length as usize;
                let offset: usize = text_position.saturating_sub(1);
                Some((self.audio_position as u32, Event::Word(offset, length)))
            },
            NativeEventKind::Sentence => {
                let text_position: usize = self.text_position as usize;
                let offset: usize = text_position.saturating_sub(1);
                Some((self.audio_position as u32, Event::Sentence(offset)))
            },
            _ => None,
        }
    }
}

/// Whether every record before the first terminator can be translated.
pub open spec fn translatable(events: Seq<NativeEvent>) -> bool
    decreases events.len(),
{
    if events.len() == 0 || events[0].is_terminator() {
        true
    } else {
        events[0].is_convertible() && translatable(events.drop_first())
    }
}

/// The landmarks of a native list: those of the kept records before the first
/// terminator, in the order of the list. A list without a terminator ends at its end.
pub open spec fn translated(events: Seq<NativeEvent>) -> Seq<(u32, Event)>
    decreases events.len(),
{
    if events.len() == 0 || events[0].is_terminator() {
        Seq::empty()
    } else if events[0].is_kept() {
        seq![events[0].stamped()] + translated(events.drop_first())
    } else {
        translated(events.drop_first())
    }
}

/// Tests whether a native list can be translated.
pub fn check_translatable(events: &Vec<NativeEvent>) -> (ok: bool)
    ensures
        ok == translatable(events@),
{
    let mut i: usize = 0;
    assert(events@.skip(0) =~= events@);
    while i < events.len() && events[i].kind != NativeEventKind::ListTerminated
        invariant
            i <= events.len(),
            translatable(events@) == translatable(events@.skip(i as int)),
        decreases events.len() - i,
    {
        assert(events@.skip(i as int).drop_first() =~= events@.skip(i + 1));
        if !events[i].convertible() {
            return false;
        }
        i += 1;
    }
    true
}

/// Translates a native list into timestamped landmarks.
pub fn translate_events(events: &Vec<NativeEvent>) -> (out: Vec<(u32, Event)>)
    requires
        translatable(events@),
    ensures
        out@ == translated(events@),
{
    let mut out: Vec<(u32, Event)> = Vec::new();
    let mut i: usize = 0;
    assert(events@.skip(0) =~= events@);
    assert(Seq::<(u32, Event)>::empty() + translated(events@) =~= translated(events@));
    while i < events.len() && events[i].kind != NativeEventKind::ListTerminated
        invariant
            i <= events.len(),
            translatable(events@.skip(i as int)),
            out@ + translated(events@.skip(i as int)) == translated(events@),
        decreases events.len() - i,
    {
        let ghost rest = events@.skip(i as int);
        assert(rest.drop_first() =~= events@.skip(i + 1));
        let ghost before = out@;
        match events[i].translate() {
            Some(stamped) => {
                out.push(stamped);
                assert(out@ + translated(rest.drop_first()) =~= before + translated(rest));
            },
            None => {},
        }
        i += 1;
    }
    assert(out@ + Seq::<(u32, Event)>::empty() =~= out@);
    out
}

} // verus!
