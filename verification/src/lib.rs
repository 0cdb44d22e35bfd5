//! Wire-compatible implementation of the PulseAudio native protocol: packet framing, the
//! tagstruct codec, the command catalog and the server-side connection state machine.

pub mod buffer;
pub mod command;
pub mod cookie;
pub mod error;
pub mod framing;
pub mod idxset;
pub mod lex;
pub mod packet;
pub mod paths;
pub mod server;
pub mod sink;
pub mod stream;
pub mod string;
pub mod time;
pub mod trace;
pub mod types;
pub mod wire;

pub use error::{Error, ErrorKind, PulseError};
pub use types::channel_map::{ChannelMap, ChannelPosition};
pub use types::cvolume::{CVolume, Volume};
pub use types::format_info::{FormatEncoding, FormatInfo, InvalidEncodingError};
pub use types::proplist::{Prop, PropList};
pub use types::sample_spec::{SampleFormat, SampleSpec};
pub use types::tagstruct::{
    FromTagStruct, TagStructReader, TagStructWriter, ToTagStruct, Value, VersionIndependent,
};
pub use types::{channel_map, cvolume, format_info, proplist, sample_spec, tagstruct};
