//! The voice catalog: voices as the engine lists them, turned into values of this
//! library.
//!
//! A native record may lack any of its fields, and its list of languages is a packed
//! byte buffer that is taken as far as it is well formed: a voice is always returned,
//! with the languages that could be read.

use vstd::prelude::*;
use vstd::utf8::{decode_utf8, valid_utf8};

verus! {

/// The gender of a voice.
#[derive(Debug, PartialEq, Eq, Clone, Copy, Structural)]
pub enum Gender {
    Female,
    Male,
    NonBinary,
}

/// A language that a voice speaks. A lower priority number is a stronger preference.
#[derive(Debug)]
pub struct Language {
    pub priority: i8,
    pub name: String,
}

/// A voice of the engine.
#[derive(Debug)]
pub struct Voice {
    pub name: String,
    pub identifier: String,
    pub age: u8,
    pub gender: Gender,
    /// In the engine's order, most preferred first.
    pub languages: Vec<Language>,
}

/// A voice as the engine's table holds it.
#[derive(Debug)]
pub struct NativeVoice {
    pub name: Option<String>,
    pub identifier: Option<String>,
    pub age: u8,
    /// 1 is male, 2 is female.
    pub gender: u8,
    /// Entries of one priority byte and a name that a zero byte ends; a zero
    /// priority byte ends the list.
    pub languages: Option<Vec<u8>>,
}

/// A language, with its name as characters.
pub struct LanguageView {
    pub priority: i8,
    pub name: Seq<char>,
}

/// A voice, with its strings as characters and its languages as views.
pub struct VoiceView {
    pub name: Seq<char>,
    pub identifier: Seq<char>,
    pub age: u8,
    pub gender: Gender,
    pub languages: Seq<LanguageView>,
}

impl View for Language {
    type V = LanguageView;

    open spec fn view(&self) -> LanguageView {
        LanguageView { priority: self.priority, name: self.name@ }
    }
}

/// The views of a list of languages, in order.
pub open spec fn language_views(languages: Seq<Language>) -> Seq<LanguageView> {
    languages.map_values(|language: Language| language@)
}

impl View for Voice {
    type V = VoiceView;

    open spec fn view(&self) -> VoiceView {
        VoiceView {
            name: self.name@,
            identifier: self.identifier@,
            age: self.age,
            gender: self.gender,
            languages: language_views(self.languages@),
        }
    }
}

/// The gender that a native code stands for.
pub open spec fn gender_of(code: u8) -> Gender {
    if code == 1 {
        Gender::Male
    } else if code == 2 {
        Gender::Female
    } else {
        Gender::NonBinary
    }
}

/// A priority byte read as a signed number.
pub open spec fn priority_of(byte: u8) -> i8 {
    if byte < 128 {
        byte as i8
    } else {
        (byte - 256) as i8
    }
}

/// The number of bytes before the first zero byte, or the length where there is none.
pub open spec fn name_len(bytes: Seq<u8>) -> nat
    decreases bytes.len(),
{
    if bytes.len() == 0 || bytes[0] == 0 {
        0
    } else {
        1 + name_len(bytes.drop_first())
    }
}

/// The languages that a packed buffer holds. Reading stops at a zero priority byte,
/// at the end of the buffer, at a name that no zero byte ends, and at a name that is
/// not UTF-8; what was read before that stands.
pub open spec fn languages_of(packed: Seq<u8>) -> Seq<LanguageView>
    decreases packed.len(),
{
    if packed.len() == 0 || packed[0] == 0 {
        Seq::empty()
    } else {
        let rest = packed.skip(1);
        let len = name_len(rest) as int;
        if len >= rest.len() || !valid_utf8(rest.take(len)) {
            Seq::empty()
        } else {
            let language = LanguageView {
                priority: priority_of(packed[0]),
                name: decode_utf8(rest.take(len)),
            };
            seq![language] + languages_of(rest.skip(len + 1))
        }
    }
}

/// The characters of an optional string: none where it is absent.
pub open spec fn chars_or_empty(text: Option<String>) -> Seq<char> {
    match text {
        Some(text) => text@,
        None => Seq::empty(),
    }
}

impl NativeVoice {
    /// The voice that this record describes.
    pub open spec fn voice(self) -> VoiceView {
        VoiceView {
            name: chars_or_empty(self.name),
            identifier: chars_or_empty(self.identifier),
            age: self.age,
            gender: gender_of(self.gender),
            languages: match self.languages {
                Some(packed) => languages_of(packed@),
                None => Seq::empty(),
            },
        }
    }
}

/// `String::from_utf8` of std: the string that the bytes encode, or nothing where
/// they are not UTF-8.
#[verifier::external_body]
fn string_from_utf8(bytes: Vec<u8>) -> (decoded: Option<String>)
    ensures
        decoded is Some <==> valid_utf8(bytes@),
        decoded is Some ==> decoded->0@ == decode_utf8(bytes@),
{
    String::from_utf8(bytes).ok()
}

proof fn lemma_name_len_step(bytes: Seq<u8>, scanned: int)
    requires
        0 <= scanned < bytes.len(),
        bytes[scanned] != 0,
        name_len(bytes) == scanned + name_len(bytes.skip(scanned)),
    ensures
        name_len(bytes) == scanned + 1 + name_len(bytes.skip(scanned + 1)),
{
    assert(bytes.skip(scanned).drop_first() =~= bytes.skip(scanned + 1));
}

fn own_or_empty(text: &Option<String>) -> (owned: String)
    ensures
        owned@ == chars_or_empty(*text),
{
    match text {
        Some(text) => text.clone(),
        None => String::new(),
    }
}

/// Reads the languages of a packed buffer.
pub fn parse_languages(packed: &Vec<u8>) -> (languages: Vec<Language>)
    ensures
        language_views(languages@) == languages_of(packed@),
{
    let mut languages: Vec<Language> = Vec::new();
    let mut at: usize = 0;
    assert(packed@.skip(0) =~= packed@);
    assert(language_views(languages@) + languages_of(packed@) =~= languages_of(packed@));
    while at < packed.len() && packed[at] != 0
        invariant
            at <= packed.len(),
            language_views(languages@) + languages_of(packed@.skip(at as int)) == languages_of(
                packed@,
            ),
        decreases packed.len() - at,
    {
        let byte: u8 = packed[at];
        let priority: i8 = if byte < 128 {
            byte as i8
        } else {
            (byte as i16 - 256) as i8
        };
        let ghost entry = packed@.skip(at as int);
        let ghost rest = entry.skip(1);
        assert(rest =~= packed@.skip(at + 1));
        let start: usize = at + 1;
        let mut end: usize = start;
        let mut name: Vec<u8> = Vec::new();
        assert(rest.skip(0) =~= rest);
        assert(rest.take(0) =~= name@);
        while end < packed.len() && packed[end] != 0
            invariant
                start == at + 1,
                start <= end <= packed.len(),
                rest == packed@.skip(start as int),
                name@ == rest.take(end - start),
                name_len(rest) == (end - start) + name_len(rest.skip(end - start)),
            decreases packed.len() - end,
        {
            proof {
                lemma_name_len_step(rest, end - start);
            }
            name.push(packed[end]);
            end += 1;
            assert(name@ =~= rest.take(end - start));
        }
        let ghost len = (end - start) as int;
        assert(name_len(rest) == len) by {
            if end < packed.len() {
                assert(rest.skip(len)[0] == packed[end as int]);
            }
        }
        if end >= packed.len() {
            assert(languages_of(entry) =~= Seq::empty());
            assert(language_views(languages@) + Seq::<LanguageView>::empty() =~= language_views(
                languages@,
            ));
            return languages;
        }
        match string_from_utf8(name) {
            None => {
                assert(languages_of(entry) =~= Seq::empty());
                assert(language_views(languages@) + Seq::<LanguageView>::empty()
                    =~= language_views(languages@));
                return languages;
            },
            Some(name) => {
                let ghost before = language_views(languages@);
                let language = Language { priority, name };
                let ghost view = language@;
                languages.push(language);
                at = end + 1;
                assert(rest.skip(len + 1) =~= packed@.skip(at as int));
                assert(language_views(languages@) =~= before.push(view));
                assert(language_views(languages@) + languages_of(packed@.skip(at as int))
                    =~= before + languages_of(entry));
            },
        }
    }
    assert(languages_of(packed@.skip(at as int)) =~= Seq::empty());
    assert(language_views(languages@) + Seq::<LanguageView>::empty() =~= language_views(
        languages@,
    ));
    languages
}

impl Voice {
    /// The voice that a native record describes. An absent name or identifier gives
    /// an empty string, an absent buffer of languages gives none.
    pub fn from_espeak_voice(v: &NativeVoice) -> (voice: Voice)
        ensures
            voice@ == v.voice(),
    {
        let gender = match v.gender {
            1 => Gender::Male,
            2 => Gender::Female,
            _ => Gender::NonBinary,
        };
        let languages = match &v.languages {
            Some(packed) => parse_languages(packed),
            None => Vec::new(),
        };
        assert(v.languages is None ==> language_views(languages@) =~= Seq::empty());
        Voice {
            name: own_or_empty(&v.name),
            identifier: own_or_empty(&v.identifier),
            age: v.age,
            gender,
            languages,
        }
    }
}

/// The views of a list of voices, in order.
pub open spec fn voice_views(voices: Seq<Voice>) -> Seq<VoiceView> {
    voices.map_values(|voice: Voice| voice@)
}

/// The voices that a list of native records describes, in order.
pub open spec fn voices_of(records: Seq<NativeVoice>) -> Seq<VoiceView> {
    records.map_values(|record: NativeVoice| record.voice())
}

/// Turns the engine's voice table into voices, one for each record and in the
/// table's order.
pub fn list_voices(records: &Vec<NativeVoice>) -> (voices: Vec<Voice>)
    ensures
        voice_views(voices@) == voices_of(records@),
{
    let mut voices: Vec<Voice> = Vec::new();
    let mut i: usize = 0;
    while i < records.len()
        invariant
            i <= records.len(),
            voices@.len() == i,
            forall|k: int| 0 <= k < i ==> (#[trigger] voices@[k])@ == records@[k].voice(),
        decreases records.len() - i,
    {
        let voice = Voice::from_espeak_voice(&records[i]);
        voices.push(voice);
        i += 1;
    }
    assert(voice_views(voices@) =~= voices_of(records@));
    voices
}

} // verus!
