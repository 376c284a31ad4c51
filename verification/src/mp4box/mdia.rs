//! `mdia`: the media information of a track.

use crate::boxtype::BoxType;
use crate::error::Error;
use crate::mp4box::codec::Mp4Box;
use crate::mp4box::raw::{
    lemma_raw_len, raw_size, read_raw, spec_raw_box, spec_raw_size, write_raw,
};
use crate::reader::Reader;
use vstd::prelude::*;

verus! {

/// `mdia`: the media information of a track. The box is carried as it is: `body` is
/// everything between its header and its end.
#[derive(Debug, Clone, PartialEq, Eq)]
pub struct MdiaBox {
    pub body: Vec<u8>,
}

impl View for MdiaBox {
    type V = Seq<u8>;

    open spec fn view(&self) -> Seq<u8> {
        self.body@
    }
}

impl Default for MdiaBox {
    fn default() -> (b: MdiaBox)
        ensures
            b@ == Seq::<u8>::empty(),
    {
        MdiaBox { body: Vec::new() }
    }
}

impl MdiaBox {
    /// The bytes of the whole box with the body `body`.
    pub open spec fn spec_encode(body: Seq<u8>) -> Seq<u8> {
        spec_raw_box(BoxType::MdiaBox, body)
    }
}

impl Mp4Box for MdiaBox {
    type Content = Seq<u8>;

    open spec fn content(&self) -> Seq<u8> {
        self@
    }

    open spec fn spec_box_type() -> BoxType {
        BoxType::MdiaBox
    }

    open spec fn spec_box_size(content: Seq<u8>) -> nat {
        spec_raw_size(content)
    }

    open spec fn spec_box_bytes(content: Seq<u8>) -> Seq<u8> {
        content
    }

    open spec fn spec_writable(content: Seq<u8>) -> bool {
        true
    }

    open spec fn spec_from_body(body: Seq<u8>) -> Result<Seq<u8>, Error> {
        Ok(body)
    }

    open spec fn spec_box_summary(content: Seq<u8>) -> Seq<char> {
        Seq::empty()
    }

    /// The kind of this box.
    fn box_type(&self) -> (t: BoxType) {
        BoxType::MdiaBox
    }

    /// The size of the whole box.
    fn box_size(&self) -> (n: u64) {
        raw_size(&self.body)
    }

    /// A one-line description, which for this box is empty.
    fn summary(&self) -> (r: Result<String, Error>) {
        Ok(String::new())
    }

    /// Reads the box whose header has just been read and declared `size`
    /// bytes. On success the reader stands at the end of the box; on failure
    /// it has not moved. What is read is stated with `Mp4Box::read_box`: here
    /// the body is kept as it is.
    fn read_box(reader: &mut Reader, size: u64) -> (r: Result<MdiaBox, Error>) {
        let body = read_raw(reader, size)?;
        Ok(MdiaBox { body })
    }

    /// Appends the box to `writer` and returns its size. What is appended is
    /// stated with `Mp4Box::write_box`: it is `MdiaBox::spec_encode`.
    fn write_box(&self, writer: &mut Vec<u8>) -> (r: Result<u64, Error>) {
        proof {
            lemma_raw_len(BoxType::MdiaBox, self@);
        }
        write_raw(BoxType::MdiaBox, &self.body, writer)
    }
}

} // verus!
