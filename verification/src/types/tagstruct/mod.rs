//! A "tagstruct" is PulseAudio's central IPC data structure.
//!
//! A tagstruct is a sequence of type-tagged `Value`s. This module provides parsers for the format
//! and writers to easily create tagstruct byte streams.

pub mod grammar;
pub mod laws;
pub mod reader;
pub mod sequence;
pub mod writer;

pub use self::reader::{FromTagStruct, TagStructReader, Value};
pub use self::writer::{TagStructWriter, ToTagStruct, VersionIndependent};
