//! `tfdt`: the decode time at which a track fragment starts.

use crate::boxtype::BoxType;
use crate::endian::{be32, lemma_u24_round_trip, lemma_u32_round_trip, put_u32, u24_at, u32_at};
use crate::error::Error;
use crate::mp4box::codec::Mp4Box;
use crate::mp4box::header::{
    box_body, lemma_box_frame, read_box_header_ext, spec_box, spec_box_body, spec_header_ext,
    write_box_header_ext, BoxHeader, HEADER_EXT_SIZE, HEADER_SIZE,
};
use crate::reader::Reader;
use vstd::prelude::*;

verus! {

/// `tfdt`: the decode time of the first sample of a track fragment, after a
/// version and 24 bits of flags.
#[derive(Debug, Clone, PartialEq, Eq, Structural)]
pub struct TfdtBox {
    pub version: u8,
    pub flags: u32,
    pub base_media_decode_time: u32,
}

impl Default for TfdtBox {
    fn default() -> (b: TfdtBox)
        ensures
            b == (TfdtBox { version: 0, flags: 0, base_media_decode_time: 0 }),
    {
        TfdtBox { version: 0, flags: 0, base_media_decode_time: 0 }
    }
}

impl TfdtBox {
    /// The flags fit the 24 bits that the layout gives them.
    pub open spec fn wf(self) -> bool {
        self.flags < 0x100_0000
    }

    /// The length of the whole box: header, extension and the time.
    pub open spec fn spec_size(self) -> nat {
        16
    }

    /// The bytes after the header: version and flags, then the time.
    pub open spec fn spec_body(self) -> Seq<u8> {
        spec_header_ext(self.version, self.flags) + be32(self.base_media_decode_time)
    }

    /// The bytes of the whole box.
    pub open spec fn spec_encode(self) -> Seq<u8> {
        spec_box(BoxType::TfdtBox, self.spec_size(), self.spec_body())
    }

    /// The box whose body is `body`. Bytes after the time are not looked at.
    pub open spec fn spec_read_body(body: Seq<u8>) -> Result<TfdtBox, Error> {
        if body.len() < 8 {
            Err(Error::UnexpectedEof)
        } else {
            Ok(
                TfdtBox {
                    version: body[0],
                    flags: u24_at(body, 1),
                    base_media_decode_time: u32_at(body, 4),
                },
            )
        }
    }

    /// The box of declared size `size` whose header ends at offset `pos` of
    /// `bytes`.
    pub open spec fn spec_read_box(bytes: Seq<u8>, pos: int, size: u64) -> Result<TfdtBox, Error> {
        match spec_box_body(bytes, pos, size) {
            Ok(body) => Self::spec_read_body(body),
            Err(e) => Err(e),
        }
    }

    /// The kind of this box.
    pub fn get_type(&self) -> (t: BoxType)
        ensures
            t == BoxType::TfdtBox,
    {
        BoxType::TfdtBox
    }

    /// The size of the whole box.
    pub fn get_size(&self) -> (n: u64)
        ensures
            n == self.spec_size(),
    {
        HEADER_SIZE + HEADER_EXT_SIZE + 4
    }

    /// What `write_box` emits, `read_box` reads back as the same box, whatever
    /// bytes stand before and after it.
    pub proof fn lemma_read_write_round_trip(self, pre: Seq<u8>, post: Seq<u8>)
        requires
            self.wf(),
        ensures
            self.spec_encode().len() == self.spec_size(),
            BoxHeader::spec_read(pre + self.spec_encode() + post, pre.len() as int) == Ok::<
                (BoxHeader, int),
                Error,
            >((BoxHeader { name: BoxType::TfdtBox, size: self.spec_size() as u64 }, 8)),
            Self::spec_read_box(
                pre + self.spec_encode() + post,
                pre.len() + HEADER_SIZE,
                self.spec_size() as u64,
            ) == Ok::<TfdtBox, Error>(self),
    {
        let body = self.spec_body();
        lemma_box_frame(BoxType::TfdtBox, body, pre, post);
        lemma_u24_round_trip(seq![self.version], self.flags, be32(self.base_media_decode_time));
        lemma_u32_round_trip(
            spec_header_ext(self.version, self.flags),
            self.base_media_decode_time,
            Seq::empty(),
        );
        assert(body =~= spec_header_ext(self.version, self.flags) + be32(
            self.base_media_decode_time,
        ) + Seq::empty());
    }
}

impl Mp4Box for TfdtBox {
    type Content = TfdtBox;

    open spec fn content(&self) -> TfdtBox {
        *self
    }

    open spec fn spec_box_type() -> BoxType {
        BoxType::TfdtBox
    }

    open spec fn spec_box_size(content: TfdtBox) -> nat {
        content.spec_size()
    }

    open spec fn spec_box_bytes(content: TfdtBox) -> Seq<u8> {
        content.spec_body()
    }

    open spec fn spec_writable(content: TfdtBox) -> bool {
        content.wf()
    }

    open spec fn spec_from_body(body: Seq<u8>) -> Result<TfdtBox, Error> {
        TfdtBox::spec_read_body(body)
    }

    open spec fn spec_box_summary(content: TfdtBox) -> Seq<char> {
        Seq::empty()
    }

    /// The kind of this box.
    fn box_type(&self) -> (t: BoxType) {
        self.get_type()
    }

    /// The size of the whole box.
    fn box_size(&self) -> (n: u64) {
        self.get_size()
    }

    /// A one-line description, which for this box is empty.
    fn summary(&self) -> (r: Result<String, Error>) {
        Ok(String::new())
    }

    /// Reads the box whose header has just been read and declared `size`
    /// bytes. On success the reader stands at the end of the box; on failure
    /// it has not moved. What is read is stated with `Mp4Box::read_box`: it is
    /// `TfdtBox::spec_read_body` of the bytes that the header announces.
    fn read_box(reader: &mut Reader, size: u64) -> (r: Result<TfdtBox, Error>)
        ensures
            r matches Ok(b) ==> b.wf(),
    {
        let mut cur = *reader;
        let mut body = box_body(&mut cur, size)?;
        let (version, flags) = read_box_header_ext(&mut body)?;
        let base_media_decode_time = body.read_u32()?;
        *reader = cur;
        Ok(TfdtBox { version, flags, base_media_decode_time })
    }

    /// Appends the box to `writer` and returns its size. What is appended is
    /// stated with `Mp4Box::write_box`: it is `TfdtBox::spec_encode`.
    fn write_box(&self, writer: &mut Vec<u8>) -> (r: Result<u64, Error>) {
        let size = self.box_size();
        let _ = BoxHeader::new(self.box_type(), size).write(writer);
        let _ = write_box_header_ext(writer, self.version, self.flags);
        put_u32(writer, self.base_media_decode_time);
        Ok(size)
    }
}

} // verus!
