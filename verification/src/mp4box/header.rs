//! The box header, the version-and-flags extension that many boxes carry after
//! it, and the helpers that every box shares.

use crate::boxtype::BoxType;
use crate::endian::{be24, be32, be64, put_u24, put_u32, put_u64, put_u8};
use crate::endian::{lemma_u32_round_trip, lemma_u64_round_trip, u24_at, u32_at, u64_at};
use crate::error::Error;
use crate::reader::Reader;
use vstd::prelude::*;

verus! {

/// The length of a box header in its short form: a 32-bit size and the tag.
pub const HEADER_SIZE: u64 = 8;

/// The length of the version-and-flags extension.
pub const HEADER_EXT_SIZE: u64 = 4;

/// The 32-bit size that announces that a 64-bit size follows the tag.
pub const LARGE_SIZE_MARK: u32 = 1;

/// What a box starts with: its kind, and its size in bytes, this header
/// included.
#[derive(Debug, Clone, Copy, PartialEq, Eq, Structural)]
pub struct BoxHeader {
    pub name: BoxType,
    pub size: u64,
}

impl BoxHeader {
    /// The bytes of this header: size then tag, where the size fits 32 bits;
    /// else the mark, the tag and the size in 64 bits.
    pub open spec fn spec_encode(self) -> Seq<u8> {
        if self.size > u32::MAX {
            be32(LARGE_SIZE_MARK) + be32(self.name.spec_tag()) + be64(self.size)
        } else {
            be32(self.size as u32) + be32(self.name.spec_tag())
        }
    }

    /// The number of bytes of `spec_encode`.
    pub open spec fn spec_len(self) -> int {
        if self.size > u32::MAX {
            16
        } else {
            8
        }
    }

    /// The header that starts at offset `pos` of `bytes`, with the number of
    /// bytes it takes.
    pub open spec fn spec_read(bytes: Seq<u8>, pos: int) -> Result<(BoxHeader, int), Error> {
        if pos + 8 > bytes.len() {
            Err(Error::UnexpectedEof)
        } else if u32_at(bytes, pos) != LARGE_SIZE_MARK {
            Ok(
                (
                    BoxHeader {
                        name: BoxType::spec_from_tag(u32_at(bytes, pos + 4)),
                        size: u32_at(bytes, pos) as u64,
                    },
                    8,
                ),
            )
        } else if pos + 16 > bytes.len() {
            Err(Error::UnexpectedEof)
        } else {
            Ok(
                (
                    BoxHeader {
                        name: BoxType::spec_from_tag(u32_at(bytes, pos + 4)),
                        size: u64_at(bytes, pos + 8),
                    },
                    16,
                ),
            )
        }
    }

    /// The header of a box of kind `name` that is `size` bytes long.
    pub fn new(name: BoxType, size: u64) -> (h: BoxHeader)
        ensures
            h == (BoxHeader { name, size }),
    {
        BoxHeader { name, size }
    }

    /// Reads a header. On failure the reader has not moved.
    pub fn read(reader: &mut Reader) -> (r: Result<BoxHeader, Error>)
        ensures
            match r {
                Ok(h) => {
                    &&& Self::spec_read(old(reader).bytes(), old(reader).pos()) matches Ok(
                        (h0, n),
                    )
                    &&& h == h0
                    &&& final(reader).advanced_from(*old(reader), n)
                },
                Err(e) => Self::spec_read(old(reader).bytes(), old(reader).pos()) == Err::<
                    (BoxHeader, int),
                    Error,
                >(e) && *final(reader) == *old(reader),
            },
    {
        let mut cur = *reader;
        let size = cur.read_u32()?;
        let tag = cur.read_u32()?;
        if size == LARGE_SIZE_MARK {
            let large_size = cur.read_u64()?;
            *reader = cur;
            Ok(BoxHeader { name: BoxType::from_tag(tag), size: large_size })
        } else {
            *reader = cur;
            Ok(BoxHeader { name: BoxType::from_tag(tag), size: size as u64 })
        }
    }

    /// Appends this header to `writer` and returns the number of bytes it took.
    pub fn write(&self, writer: &mut Vec<u8>) -> (r: Result<u64, Error>)
        ensures
            final(writer)@ == old(writer)@ + self.spec_encode(),
            r == Ok::<u64, Error>(self.spec_len() as u64),
            self.spec_encode().len() == self.spec_len(),
    {
        if self.size > u32::MAX as u64 {
            put_u32(writer, LARGE_SIZE_MARK);
            put_u32(writer, self.name.tag());
            put_u64(writer, self.size);
            Ok(16)
        } else {
            put_u32(writer, self.size as u32);
            put_u32(writer, self.name.tag());
            Ok(8)
        }
    }

    /// A header that was written reads back as itself, whatever surrounds its
    /// bytes, in the short form and in the 64-bit form alike. Left out are
    /// the size 1, which on the wire is the mark of the 64-bit form, and an
    /// `UnknownBox` that carries a known tag, which reads back as that kind.
    pub proof fn lemma_read_write_round_trip(self, pre: Seq<u8>, post: Seq<u8>)
        requires
            self.name.is_canonical(),
            self.size != LARGE_SIZE_MARK,
        ensures
            self.spec_encode().len() == self.spec_len(),
            Self::spec_read(pre + self.spec_encode() + post, pre.len() as int) == Ok::<
                (BoxHeader, int),
                Error,
            >((self, self.spec_len())),
    {
        let tag = self.name.spec_tag();
        if self.size > u32::MAX {
            let s = pre + (be32(LARGE_SIZE_MARK) + be32(tag) + be64(self.size)) + post;
            assert(s =~= pre + be32(LARGE_SIZE_MARK) + (be32(tag) + be64(self.size) + post));
            lemma_u32_round_trip(pre, LARGE_SIZE_MARK, be32(tag) + be64(self.size) + post);
            assert(s =~= (pre + be32(LARGE_SIZE_MARK)) + be32(tag) + (be64(self.size) + post));
            lemma_u32_round_trip(pre + be32(LARGE_SIZE_MARK), tag, be64(self.size) + post);
            assert(s =~= (pre + be32(LARGE_SIZE_MARK) + be32(tag)) + be64(self.size) + post);
            lemma_u64_round_trip(pre + be32(LARGE_SIZE_MARK) + be32(tag), self.size, post);
        } else {
            let size = self.size as u32;
            let s = pre + (be32(size) + be32(tag)) + post;
            assert(s =~= pre + be32(size) + (be32(tag) + post));
            lemma_u32_round_trip(pre, size, be32(tag) + post);
            assert(s =~= (pre + be32(size)) + be32(tag) + post);
            lemma_u32_round_trip(pre + be32(size), tag, post);
        }
    }
}

/// The bytes of a version-and-flags extension: the version, then the flags
/// in 24 bits.
pub open spec fn spec_header_ext(version: u8, flags: u32) -> Seq<u8> {
    seq![version] + be24(flags)
}

/// Reads a version-and-flags extension. On failure the reader has not moved.
pub fn read_box_header_ext(reader: &mut Reader) -> (r: Result<(u8, u32), Error>)
    ensures
        match r {
            Ok((version, flags)) => {
                &&& old(reader).has(4)
                &&& version == old(reader).bytes()[old(reader).pos()]
                &&& flags == u24_at(old(reader).bytes(), old(reader).pos() + 1)
                &&& flags < 0x100_0000
                &&& final(reader).advanced_from(*old(reader), 4)
            },
            Err(e) => !old(reader).has(4) && e == Error::UnexpectedEof && *final(reader) == *old(reader),
        },
{
    let mut cur = *reader;
    let version = cur.read_u8()?;
    let flags = cur.read_u24()?;
    *reader = cur;
    Ok((version, flags))
}

/// Appends a version-and-flags extension and returns its length. The flags
/// field is 24 bits wide.
pub fn write_box_header_ext(writer: &mut Vec<u8>, version: u8, flags: u32) -> (r: Result<
    u64,
    Error,
>)
    requires
        flags < 0x100_0000,
    ensures
        final(writer)@ == old(writer)@ + spec_header_ext(version, flags),
        r == Ok::<u64, Error>(HEADER_EXT_SIZE),
{
    put_u8(writer, version);
    put_u24(writer, flags);
    Ok(HEADER_EXT_SIZE)
}

/// The bytes between the header of a box and its end, for a box of the
/// declared size `size` whose header ends at offset `pos` of `bytes`. The
/// header is taken to be `HEADER_SIZE` long.
pub open spec fn spec_box_body(bytes: Seq<u8>, pos: int, size: u64) -> Result<Seq<u8>, Error> {
    if size < HEADER_SIZE {
        Err(Error::InvalidData("box size smaller than its header"))
    } else if pos + (size - HEADER_SIZE) > bytes.len() {
        Err(Error::UnexpectedEof)
    } else {
        Ok(bytes.subrange(pos, pos + (size - HEADER_SIZE)))
    }
}

/// The bytes of the header of a box of kind `name` that declares `size`
/// bytes.
pub open spec fn spec_box_header(name: BoxType, size: nat) -> Seq<u8> {
    (BoxHeader { name, size: size as u64 }).spec_encode()
}

/// The bytes of a whole box of kind `name` with the body `body`: a header
/// that declares `size` bytes, then the body.
pub open spec fn spec_box(name: BoxType, size: nat, body: Seq<u8>) -> Seq<u8> {
    spec_box_header(name, size) + body
}

/// In the bytes of a box that declares its true length and fits the short
/// form of the header, the header reads back as written, and the bytes it
/// announces are the body.
pub proof fn lemma_box_frame(name: BoxType, body: Seq<u8>, pre: Seq<u8>, post: Seq<u8>)
    requires
        name.is_canonical(),
        HEADER_SIZE + body.len() <= u32::MAX,
    ensures
        spec_box(name, HEADER_SIZE as nat + body.len(), body).len() == HEADER_SIZE + body.len(),
        BoxHeader::spec_read(
            pre + spec_box(name, HEADER_SIZE as nat + body.len(), body) + post,
            pre.len() as int,
        ) == Ok::<(BoxHeader, int), Error>(
            (BoxHeader { name, size: (HEADER_SIZE + body.len()) as u64 }, 8),
        ),
        spec_box_body(
            pre + spec_box(name, HEADER_SIZE as nat + body.len(), body) + post,
            pre.len() + HEADER_SIZE,
            (HEADER_SIZE + body.len()) as u64,
        ) == Ok::<Seq<u8>, Error>(body),
{
    let h = BoxHeader { name, size: (HEADER_SIZE + body.len()) as u64 };
    let s = pre + spec_box(name, HEADER_SIZE as nat + body.len(), body) + post;
    h.lemma_read_write_round_trip(pre, body + post);
    assert(s =~= pre + h.spec_encode() + (body + post));
    assert(s.subrange(pre.len() + HEADER_SIZE, pre.len() + HEADER_SIZE + body.len()) =~= body);
}

/// Writing a header, then fields, then what follows them, after `before`,
/// appends the box that is made of the three.
pub proof fn lemma_append_box(
    before: Seq<u8>,
    name: BoxType,
    size: nat,
    fields: Seq<u8>,
    rest: Seq<u8>,
)
    ensures
        before + spec_box_header(name, size) + fields + rest == before + spec_box(
            name,
            size,
            fields + rest,
        ),
{
    let header = spec_box_header(name, size);
    assert(before + header + fields + rest =~= before + (header + (fields + rest)));
}

/// Splits off the body of a box whose header has just been read: the next
/// `size - HEADER_SIZE` bytes, as a reader of their own. The reader is moved
/// to the end of the box; on failure it has not moved.
pub fn box_body<'a>(reader: &mut Reader<'a>, size: u64) -> (r: Result<Reader<'a>, Error>)
    ensures
        match r {
            Ok(body) => {
                &&& spec_box_body(old(reader).bytes(), old(reader).pos(), size) == Ok::<
                    Seq<u8>,
                    Error,
                >(body.bytes())
                &&& body.pos() == 0
                &&& final(reader).advanced_from(*old(reader), size - HEADER_SIZE)
            },
            Err(e) => spec_box_body(old(reader).bytes(), old(reader).pos(), size) == Err::<
                Seq<u8>,
                Error,
            >(e) && *final(reader) == *old(reader),
        },
{
    if size < HEADER_SIZE {
        return Err(Error::InvalidData("box size smaller than its header"));
    }
    reader.take(size - HEADER_SIZE)
}

/// Steps over the body of a box whose header has just been read, without
/// looking at it. On failure the reader has not moved.
pub fn skip_box(reader: &mut Reader, size: u64) -> (r: Result<(), Error>)
    ensures
        match r {
            Ok(_) => spec_box_body(old(reader).bytes(), old(reader).pos(), size) is Ok
                && final(reader).advanced_from(*old(reader), size - HEADER_SIZE),
            Err(e) => spec_box_body(old(reader).bytes(), old(reader).pos(), size) == Err::<
                Seq<u8>,
                Error,
            >(e) && *final(reader) == *old(reader),
        },
{
    if size < HEADER_SIZE {
        return Err(Error::InvalidData("box size smaller than its header"));
    }
    reader.skip(size - HEADER_SIZE)
}

/// Moves the reader forward by `n` bytes. On failure it has not moved.
pub fn skip_bytes(reader: &mut Reader, n: u64) -> (r: Result<(), Error>)
    ensures
        match r {
            Ok(_) => old(reader).has(n as int) && final(reader).advanced_from(
                *old(reader),
                n as int,
            ),
            Err(e) => !old(reader).has(n as int) && e == Error::UnexpectedEof && *final(reader)
                == *old(reader),
        },
{
    reader.skip(n)
}

/// Moves the reader forward to the position `target`. On failure it has not
/// moved.
pub fn skip_bytes_to(reader: &mut Reader, target: u64) -> (r: Result<(), Error>)
    ensures
        match r {
            Ok(_) => old(reader).pos() <= target <= old(reader).bytes().len() && final(reader).advanced_from(*old(reader), target - old(reader).pos()),
            Err(e) => *final(reader) == *old(reader) && if target < old(reader).pos() {
                e == Error::InvalidData("cannot skip backwards")
            } else {
                target > old(reader).bytes().len() && e == Error::UnexpectedEof
            },
        },
{
    reader.skip_to(target)
}

/// `n` zero bytes.
pub open spec fn zeros(n: nat) -> Seq<u8> {
    Seq::new(n, |i: int| 0u8)
}

/// Appends `n` zero bytes.
pub fn write_zeros(writer: &mut Vec<u8>, n: u64) -> (r: Result<(), Error>)
    ensures
        final(writer)@ == old(writer)@ + zeros(n as nat),
        r is Ok,
{
    let mut i: u64 = 0;
    while i < n
        invariant
            i <= n,
            writer@ == old(writer)@ + zeros(i as nat),
        decreases n - i,
    {
        put_u8(writer, 0);
        i = i + 1;
    }
    Ok(())
}

} // verus!
