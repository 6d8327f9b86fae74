//! Typed values exchanged on the edges of an audio-processing node graph, and
//! a registry that hands out dense integer handles to live audio sources.

pub mod graph_types;
pub mod sound_queue;

pub use graph_types::{DataType, InputParameter, InputValueConfig, Output, ValueType};
pub use sound_queue::{clear, clone_sound, push_sound, SoundQueue};
