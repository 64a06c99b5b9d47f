//! Extraction of embedded streaming audio from a tag-structured container,
//! exposed through a pull-based decoding surface.
//!
//! The demuxer walks the container's length-prefixed tags and concatenates
//! the payloads of its streaming-sound blocks, each with its four-byte
//! block header stripped, into one lazy byte sequence.  `IterRead` adapts
//! that sequence to a bounded buffered-read contract, and the `Decoder` /
//! `SeekableDecoder` traits state what every codec backend guarantees the
//! playback engine: ordered frames, terminal end-of-stream, and a seek
//! observably identical to rewinding and discarding.

pub mod decoder;
pub mod demux;
pub mod frame;
pub mod source;

pub use decoder::Decoder;
pub use decoder::MemoryDecoder;
pub use decoder::SeekableDecoder;
pub use demux::stream_tag_reader;
pub use demux::StreamTagDemuxer;
pub use frame::AudioFrame;
pub use source::ByteSource;
pub use source::IterRead;
