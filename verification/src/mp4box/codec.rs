//! What every box type offers, and what it promises.

use crate::boxtype::BoxType;
use crate::error::Error;
use crate::mp4box::header::{spec_box, spec_box_body, HEADER_SIZE};
use crate::reader::Reader;
use vstd::prelude::*;

verus! {

/// A box type: it knows its kind, computes its size without writing,
/// writes itself in exactly that size, and reads itself from the bytes that
/// its header announces.
pub trait Mp4Box: Sized {
    /// What a box of this type holds, as the contracts speak of it.
    type Content;

    /// What this box holds.
    spec fn content(&self) -> Self::Content;

    /// The kind of the boxes of this type.
    spec fn spec_box_type() -> BoxType;

    /// The size of the whole box, header included, as the header declares
    /// it.
    spec fn spec_box_size(content: Self::Content) -> nat;

    /// The bytes that `write_box` puts after the header.
    spec fn spec_box_bytes(content: Self::Content) -> Seq<u8>;

    /// Whether every field fits the width that the layout gives it, so that
    /// `write_box` can emit the box.
    spec fn spec_writable(content: Self::Content) -> bool;

    /// What `read_box` makes of the bytes between the header of a box and
    /// its end.
    spec fn spec_from_body(body: Seq<u8>) -> Result<Self::Content, Error>;

    /// The one-line description of the box.
    spec fn spec_box_summary(content: Self::Content) -> Seq<char>;

    /// The kind of this box.
    fn box_type(&self) -> (t: BoxType)
        ensures
            t == Self::spec_box_type(),
    ;

    /// The size of the whole box: the number that its header declares.
    fn box_size(&self) -> (n: u64)
        requires
            Self::spec_box_size(self.content()) <= usize::MAX,
        ensures
            n == Self::spec_box_size(self.content()),
    ;

    /// A one-line description of the box.
    fn summary(&self) -> (r: Result<String, Error>)
        ensures
            r matches Ok(s) && s@ == Self::spec_box_summary(self.content()),
    ;

    /// Reads the box whose header has just been read and declared `size`
    /// bytes: the bytes that the header announces are the body, and whatever
    /// stands in them after the last thing that the box type takes is passed
    /// over. On success the reader stands at the end of the box; on failure
    /// it has not moved.
    fn read_box(reader: &mut Reader, size: u64) -> (r: Result<Self, Error>)
        ensures
            match spec_box_body(old(reader).bytes(), old(reader).pos(), size) {
                Ok(body) => match r {
                    Ok(b) => Self::spec_from_body(body) == Ok::<Self::Content, Error>(b.content())
                        && final(reader).advanced_from(*old(reader), size - HEADER_SIZE),
                    Err(e) => Self::spec_from_body(body) == Err::<Self::Content, Error>(e)
                        && *final(reader) == *old(reader),
                },
                Err(e) => r matches Err(e1) && e1 == e && *final(reader) == *old(reader),
            },
    ;

    /// Appends the box to `writer` and returns its size: the header, which
    /// declares that size, then the body. The size is the number of bytes
    /// appended, unless it is more than 32 bits hold: then the header takes
    /// eight bytes more than the size counts.
    fn write_box(&self, writer: &mut Vec<u8>) -> (r: Result<u64, Error>)
        requires
            Self::spec_box_size(self.content()) <= usize::MAX,
            Self::spec_writable(self.content()),
        ensures
            final(writer)@ == old(writer)@ + spec_box(
                Self::spec_box_type(),
                Self::spec_box_size(self.content()),
                Self::spec_box_bytes(self.content()),
            ),
            r == Ok::<u64, Error>(Self::spec_box_size(self.content()) as u64),
            Self::spec_box_size(self.content()) <= u32::MAX ==> final(writer)@.len() == old(
                writer,
            )@.len() + Self::spec_box_size(self.content()),
    ;
}

} // verus!
