//! Reading and writing of ISO base media ("MP4") boxes over in-memory byte
//! buffers.
//!
//! A box is a header, which names its kind and declares its size, and a
//! body of that size. Every box type of this crate states its layout twice,
//! as functions on byte sequences: the bytes that writing emits, and what
//! reading makes of any bytes. The executable `read_box` and `write_box` are
//! proved against the two, and where reading takes back what writing emits,
//! a law beside the type says so.
//!
//! - `endian`: big-endian integers as bytes, converted by `byteorder`;
//! - `reader`: a cursor over a byte slice;
//! - `boxtype`: the registry of box kinds and their tags;
//! - `fixed`: fixed-point numbers in their raw form;
//! - `types`: stream descriptions from which sample entries are made;
//! - `text`: decimal numerals for the summaries;
//! - `mp4box`: the header, the trait that every box type implements, and the
//!   box types.

pub mod boxtype;
pub mod endian;
pub mod error;
pub mod fixed;
pub mod mp4box;
pub mod reader;
pub mod text;
pub mod types;

pub use boxtype::BoxType;
pub use error::Error;
pub use fixed::{FixedPointU16, FixedPointU8};
pub use reader::Reader;
pub use types::{ChannelConfig, HevcConfig, OpusConfig, SampleFreqIndex};
