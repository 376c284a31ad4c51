//! The boxes: the header that every box starts with, and the box types.

pub mod codec;
pub mod edts;
pub mod header;
pub mod hev1;
pub mod mdia;
pub mod opus;
pub mod raw;
pub mod tfdt;
pub mod tkhd;
pub mod trak;

pub use codec::Mp4Box;
pub use edts::EdtsBox;
pub use header::{
    box_body, read_box_header_ext, skip_box, skip_bytes, skip_bytes_to, write_box_header_ext,
    write_zeros, BoxHeader, HEADER_EXT_SIZE, HEADER_SIZE,
};
pub use hev1::{Hev1Box, HvcCBox, NalUnit};
pub use mdia::MdiaBox;
pub use opus::{ChannelMappingTable, DopsBox, OpusBox};
pub use tfdt::TfdtBox;
pub use tkhd::TkhdBox;
pub use trak::TrakBox;
