//! Verified core of a text-to-speech streaming library built on the eSpeak NG engine.
//!
//! The library holds what is decided between a text and its audio, and leaves to its
//! caller what touches the engine, the threads and the channel:
//!
//! - [`engine`]: the state of the engine's one-time initialization;
//! - [`voice`]: the voice catalog, read from the engine's native records;
//! - [`params`]: the parameter set of a request and the writes that apply it;
//! - [`speaker`]: the speaker, which makes requests;
//! - [`worker`]: the order of the worker's calls, and what its callback packs;
//! - [`event`]: the landmarks, read off the engine's native events;
//! - [`source`]: the stream cursor, which hands out samples and due landmarks;
//! - [`adapters`]: the two ways to watch the landmarks of a stream;
//! - [`session`]: what a consumer hears over a whole stream.

pub mod adapters;
pub mod engine;
pub mod event;
pub mod params;
pub mod session;
pub mod source;
pub mod speaker;
pub mod voice;
pub mod worker;

pub use crate::adapters::{IterAudioAndEvents, SpeakerSourceWithCallback};
pub use crate::event::Event;
pub use crate::params::SpeakerParams;
pub use crate::source::SpeakerSource;
pub use crate::speaker::Speaker;
pub use crate::voice::{list_voices, Gender, Language, Voice};
