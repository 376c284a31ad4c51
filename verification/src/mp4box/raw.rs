//! Boxes that are carried as they are: the bytes of the body are kept and
//! written back, and nothing in them is interpreted.

use crate::boxtype::BoxType;
use crate::error::Error;
use crate::mp4box::header::{
    box_body, lemma_box_frame, spec_box, spec_box_body, BoxHeader, HEADER_SIZE,
};
use crate::reader::Reader;
use vstd::prelude::*;

verus! {

/// The length of a whole box whose body is `body`.
pub open spec fn spec_raw_size(body: Seq<u8>) -> nat {
    HEADER_SIZE as nat + body.len()
}

/// The bytes of a whole box of kind `name` whose body is `body`.
pub open spec fn spec_raw_box(name: BoxType, body: Seq<u8>) -> Seq<u8> {
    spec_box(name, spec_raw_size(body), body)
}

/// The size of a whole box whose body is `body`.
pub fn raw_size(body: &Vec<u8>) -> (n: u64)
    requires
        spec_raw_size(body@) <= usize::MAX,
    ensures
        n == spec_raw_size(body@),
{
    HEADER_SIZE + body.len() as u64
}

/// Reads the body of the box whose header has just been read and declared
/// `size` bytes. On success the reader stands at the end of the box; on
/// failure it has not moved.
pub fn read_raw(reader: &mut Reader, size: u64) -> (r: Result<Vec<u8>, Error>)
    ensures
        match r {
            Ok(body) => spec_box_body(old(reader).bytes(), old(reader).pos(), size) == Ok::<
                Seq<u8>,
                Error,
            >(body@) && final(reader).advanced_from(*old(reader), size - HEADER_SIZE),
            Err(e) => spec_box_body(old(reader).bytes(), old(reader).pos(), size) == Err::<
                Seq<u8>,
                Error,
            >(e) && *final(reader) == *old(reader),
        },
{
    let mut cur = *reader;
    let mut window = box_body(&mut cur, size)?;
    let len = window.remaining_len();
    let body = window.read_bytes(len)?;
    assert(body@ =~= window.bytes());
    *reader = cur;
    Ok(body)
}

/// Appends a whole box of kind `name` with the body `body` to `writer` and
/// returns its size.
pub fn write_raw(name: BoxType, body: &Vec<u8>, writer: &mut Vec<u8>) -> (r: Result<u64, Error>)
    requires
        spec_raw_size(body@) <= usize::MAX,
    ensures
        final(writer)@ == old(writer)@ + spec_raw_box(name, body@),
        r == Ok::<u64, Error>(spec_raw_size(body@) as u64),
{
    let size = raw_size(body);
    let _ = BoxHeader::new(name, size).write(writer);
    writer.extend_from_slice(body.as_slice());
    assert(writer@ =~= old(writer)@ + spec_raw_box(name, body@));
    Ok(size)
}

/// A box that fits the short form of the header is as long as its size
/// says.
pub proof fn lemma_raw_len(name: BoxType, body: Seq<u8>)
    ensures
        spec_raw_size(body) <= u32::MAX ==> spec_raw_box(name, body).len() == spec_raw_size(body),
{
}

/// A box that was written reads back with the body it had, whatever bytes
/// stand before and after it, if it fits the short form of the header.
pub proof fn lemma_raw_round_trip(name: BoxType, body: Seq<u8>, pre: Seq<u8>, post: Seq<u8>)
    requires
        name.is_canonical(),
        spec_raw_size(body) <= u32::MAX,
    ensures
        spec_raw_box(name, body).len() == spec_raw_size(body),
        BoxHeader::spec_read(pre + spec_raw_box(name, body) + post, pre.len() as int) == Ok::<
            (BoxHeader, int),
            Error,
        >((BoxHeader { name, size: spec_raw_size(body) as u64 }, 8)),
        spec_box_body(
            pre + spec_raw_box(name, body) + post,
            pre.len() + HEADER_SIZE,
            spec_raw_size(body) as u64,
        ) == Ok::<Seq<u8>, Error>(body),
{
    lemma_box_frame(name, body, pre, post);
}

} // verus!
