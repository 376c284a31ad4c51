//! `trak`: a track, the container of a track header, an optional edit list
//! and the media information.

use crate::boxtype::BoxType;
use crate::endian::{be32, put_u32, put_u8};
use crate::error::Error;
use crate::mp4box::edts::EdtsBox;
use crate::mp4box::codec::Mp4Box;
use crate::mp4box::header::{
    box_body, lemma_append_box, lemma_box_frame, skip_box, spec_box, spec_box_body, spec_box_header,
    spec_header_ext, write_box_header_ext, BoxHeader, HEADER_EXT_SIZE, HEADER_SIZE,
};
use crate::mp4box::mdia::MdiaBox;
use crate::mp4box::raw::{lemma_raw_round_trip, spec_raw_box, spec_raw_size};
use crate::mp4box::tkhd::TkhdBox;
use crate::reader::Reader;
use vstd::prelude::*;

verus! {

/// The length of the user data that `write_box` puts after the children.
pub const USER_DATA_SIZE: u64 = 61;

/// The handler kind `mhlr` of the metadata handler in the user data.
pub const HANDLER_KIND_MHLR: u32 = 0x6d686c72;

/// The handler type `mdir` of the metadata handler in the user data.
pub const HANDLER_TYPE_MDIR: u32 = 0x6d646972;

/// `trak`: a track.
#[derive(Debug, Clone, PartialEq, Eq)]
pub struct TrakBox {
    pub tkhd: TkhdBox,
    pub edts: Option<EdtsBox>,
    pub mdia: MdiaBox,
}

/// What a `TrakBox` holds: the body of each child.
pub struct TrakView {
    pub tkhd: Seq<u8>,
    pub edts: Option<Seq<u8>>,
    pub mdia: Seq<u8>,
}

/// The children that have been found in the body of a track so far: for
/// each kind the body of the last child of that kind, if there was one.
pub struct TrakChildren {
    pub tkhd: Option<Seq<u8>>,
    pub edts: Option<Seq<u8>>,
    pub mdia: Option<Seq<u8>>,
}

impl View for TrakBox {
    type V = TrakView;

    open spec fn view(&self) -> TrakView {
        TrakView {
            tkhd: self.tkhd@,
            edts: match self.edts {
                Some(edts) => Some(edts@),
                None => None,
            },
            mdia: self.mdia@,
        }
    }
}

impl Default for TrakBox {
    fn default() -> (b: TrakBox)
        ensures
            b@ == (TrakView { tkhd: Seq::empty(), edts: None, mdia: Seq::empty() }),
    {
        TrakBox { tkhd: TkhdBox::default(), edts: None, mdia: MdiaBox::default() }
    }
}

impl TrakChildren {
    /// No child found yet.
    pub open spec fn none() -> TrakChildren {
        TrakChildren { tkhd: None, edts: None, mdia: None }
    }

    /// The children after one more child, of kind `name` and with the body
    /// `body`: it takes the place of an earlier one of its kind, and a child
    /// of any other kind than the three leaves no trace.
    pub open spec fn with(self, name: BoxType, body: Seq<u8>) -> TrakChildren {
        match name {
            BoxType::TkhdBox => TrakChildren { tkhd: Some(body), ..self },
            BoxType::EdtsBox => TrakChildren { edts: Some(body), ..self },
            BoxType::MdiaBox => TrakChildren { mdia: Some(body), ..self },
            _ => self,
        }
    }

    /// The track that the children make: the track header and the media
    /// information must be among them.
    pub open spec fn finish(self) -> Result<TrakView, Error> {
        if self.tkhd is None {
            Err(Error::BoxNotFound(BoxType::TkhdBox))
        } else if self.mdia is None {
            Err(Error::BoxNotFound(BoxType::MdiaBox))
        } else {
            Ok(TrakView { tkhd: self.tkhd->0, edts: self.edts, mdia: self.mdia->0 })
        }
    }

    /// The children that are found from offset `pos` of `body` on, after
    /// `self`: child after child, each by its header and as long as its
    /// header declares, until the end of `body` is reached.
    pub open spec fn scan(self, body: Seq<u8>, pos: int) -> Result<TrakChildren, Error>
        decreases body.len() - pos,
    {
        if pos >= body.len() {
            Ok(self)
        } else {
            match BoxHeader::spec_read(body, pos) {
                Err(e) => Err(e),
                Ok((header, n)) => match spec_box_body(body, pos + n, header.size) {
                    Err(e) => Err(e),
                    Ok(child) => self.with(header.name, child).scan(
                        body,
                        pos + n + (header.size - HEADER_SIZE),
                    ),
                },
            }
        }
    }
}

/// What the three children hold that `read_box` keeps while it walks the
/// body of a track.
pub open spec fn children_of(
    tkhd: Option<TkhdBox>,
    edts: Option<EdtsBox>,
    mdia: Option<MdiaBox>,
) -> TrakChildren {
    TrakChildren {
        tkhd: match tkhd {
            Some(b) => Some(b@),
            None => None,
        },
        edts: match edts {
            Some(b) => Some(b@),
            None => None,
        },
        mdia: match mdia {
            Some(b) => Some(b@),
            None => None,
        },
    }
}

/// The handler box inside the user data: kind `mhlr`, type `mdir`, no name.
pub open spec fn spec_meta_handler() -> Seq<u8> {
    spec_box_header(BoxType::HdlrBox, 33) + spec_header_ext(0, 0) + be32(HANDLER_KIND_MHLR) + be32(
        HANDLER_TYPE_MDIR,
    ) + be32(0) + be32(0) + be32(0) + seq![0u8]
}

/// What the user data box holds: a metadata box with the handler and an
/// empty item list.
pub open spec fn spec_user_data_body() -> Seq<u8> {
    spec_box_header(BoxType::MetaBox, 53) + spec_header_ext(0, 0) + spec_meta_handler()
        + spec_box_header(BoxType::IlstBox, 8)
}

/// The 61 bytes that `write_box` puts after the children: a user data box
/// with empty metadata. They are the same for every track.
pub open spec fn spec_user_data() -> Seq<u8> {
    spec_box_header(BoxType::UdtaBox, 61) + spec_user_data_body()
}

/// Appends the handler box of the user data.
fn write_meta_handler(writer: &mut Vec<u8>)
    ensures
        final(writer)@ == old(writer)@ + spec_meta_handler(),
{
    let _ = BoxHeader::new(BoxType::HdlrBox, HEADER_SIZE + HEADER_EXT_SIZE + 21).write(writer);
    let _ = write_box_header_ext(writer, 0, 0);
    put_u32(writer, HANDLER_KIND_MHLR);
    put_u32(writer, HANDLER_TYPE_MDIR);
    put_u32(writer, 0);
    put_u32(writer, 0);
    put_u32(writer, 0);
    put_u8(writer, 0);
    assert(writer@ =~= old(writer)@ + spec_meta_handler());
}

/// Appends the user data.
fn write_user_data(writer: &mut Vec<u8>)
    ensures
        final(writer)@ == old(writer)@ + spec_user_data(),
        spec_user_data().len() == USER_DATA_SIZE,
{
    let udta_size: u64 = 53;
    let _ = BoxHeader::new(BoxType::UdtaBox, HEADER_SIZE + udta_size).write(writer);
    let meta_size: u64 = 41;
    let _ = BoxHeader::new(BoxType::MetaBox, HEADER_SIZE + HEADER_EXT_SIZE + meta_size).write(
        writer,
    );
    let _ = write_box_header_ext(writer, 0, 0);
    write_meta_handler(writer);
    let _ = BoxHeader::new(BoxType::IlstBox, HEADER_SIZE).write(writer);
    assert(writer@ =~= old(writer)@ + spec_user_data());
}

impl TrakView {
    /// The length of the edit list box, if there is one.
    pub open spec fn spec_edts_size(self) -> nat {
        match self.edts {
            Some(edts) => spec_raw_size(edts),
            None => 0,
        }
    }

    /// The bytes of the edit list box, if there is one.
    pub open spec fn spec_edts(self) -> Seq<u8> {
        match self.edts {
            Some(edts) => EdtsBox::spec_encode(edts),
            None => Seq::empty(),
        }
    }

    /// The length of the whole box: the header, the children, and the user
    /// data.
    pub open spec fn spec_size(self) -> nat {
        HEADER_SIZE as nat + spec_raw_size(self.tkhd) + self.spec_edts_size() + spec_raw_size(
            self.mdia,
        ) + USER_DATA_SIZE as nat
    }

    /// The children as `write_box` emits them: the track header, the edit
    /// list if there is one, and the media information.
    pub open spec fn spec_children(self) -> Seq<u8> {
        TkhdBox::spec_encode(self.tkhd) + self.spec_edts() + MdiaBox::spec_encode(self.mdia)
    }

    /// The bytes after the header: the children, then the user data.
    pub open spec fn spec_body(self) -> Seq<u8> {
        self.spec_children() + spec_user_data()
    }

    /// The bytes of the whole box.
    pub open spec fn spec_encode(self) -> Seq<u8> {
        spec_box(BoxType::TrakBox, self.spec_size(), self.spec_body())
    }
}

impl TrakBox {
    /// What the box whose body is `body` holds: the children that a walk
    /// over the whole of `body` finds.
    pub open spec fn spec_read_body(body: Seq<u8>) -> Result<TrakView, Error> {
        match TrakChildren::none().scan(body, 0) {
            Err(e) => Err(e),
            Ok(children) => children.finish(),
        }
    }

    /// What the box of declared size `size` holds whose header ends at
    /// offset `pos` of `bytes`.
    pub open spec fn spec_read_box(bytes: Seq<u8>, pos: int, size: u64) -> Result<TrakView, Error> {
        match spec_box_body(bytes, pos, size) {
            Ok(body) => Self::spec_read_body(body),
            Err(e) => Err(e),
        }
    }

    /// The track made of the children that were found, if the two that a
    /// track must have are among them.
    pub fn from_children(
        tkhd: Option<TkhdBox>,
        edts: Option<EdtsBox>,
        mdia: Option<MdiaBox>,
    ) -> (r: Result<TrakBox, Error>)
        ensures
            match r {
                Ok(b) => children_of(tkhd, edts, mdia).finish() == Ok::<TrakView, Error>(b@),
                Err(e) => children_of(tkhd, edts, mdia).finish() == Err::<TrakView, Error>(e),
            },
    {
        if tkhd.is_none() {
            return Err(Error::BoxNotFound(BoxType::TkhdBox));
        }
        if mdia.is_none() {
            return Err(Error::BoxNotFound(BoxType::MdiaBox));
        }
        Ok(TrakBox { tkhd: tkhd.unwrap(), edts, mdia: mdia.unwrap() })
    }

    /// The kind of this box.
    pub fn get_type(&self) -> (t: BoxType)
        ensures
            t == BoxType::TrakBox,
    {
        BoxType::TrakBox
    }

    /// The size of the whole box.
    pub fn get_size(&self) -> (n: u64)
        requires
            self@.spec_size() <= usize::MAX,
        ensures
            n == self@.spec_size(),
    {
        let mut size: u64 = HEADER_SIZE;
        size += self.tkhd.box_size();
        if let Some(ref edts) = self.edts {
            size += edts.box_size();
        }
        size += self.mdia.box_size();
        size += USER_DATA_SIZE;
        size
    }
}

impl Mp4Box for TrakBox {
    type Content = TrakView;

    open spec fn content(&self) -> TrakView {
        self@
    }

    open spec fn spec_box_type() -> BoxType {
        BoxType::TrakBox
    }

    open spec fn spec_box_size(content: TrakView) -> nat {
        content.spec_size()
    }

    open spec fn spec_box_bytes(content: TrakView) -> Seq<u8> {
        content.spec_body()
    }

    open spec fn spec_writable(content: TrakView) -> bool {
        true
    }

    open spec fn spec_from_body(body: Seq<u8>) -> Result<TrakView, Error> {
        TrakBox::spec_read_body(body)
    }

    open spec fn spec_box_summary(content: TrakView) -> Seq<char> {
        Seq::empty()
    }

    /// The kind of this box.
    fn box_type(&self) -> (t: BoxType) {
        self.get_type()
    }

    /// The size of the whole box.
    fn box_size(&self) -> (n: u64) {
        self.get_size()
    }

    /// A one-line description, which for this box is empty.
    fn summary(&self) -> (r: Result<String, Error>) {
        Ok(String::new())
    }

    /// Reads the box whose header has just been read and declared `size`
    /// bytes. On success the reader stands at the end of the box; on failure
    /// it has not moved. What is read is stated with `Mp4Box::read_box`: it is
    /// `TrakBox::spec_read_body` of the bytes that the header announces.
    fn read_box(reader: &mut Reader, size: u64) -> (r: Result<TrakBox, Error>) {
        let mut cur = *reader;
        let mut body = box_body(&mut cur, size)?;
        let ghost bytes = body.bytes();
        let ghost whole = TrakChildren::none().scan(bytes, 0);

        let mut tkhd: Option<TkhdBox> = None;
        let mut edts: Option<EdtsBox> = None;
        let mut mdia: Option<MdiaBox> = None;

        while body.remaining_len() > 0
            invariant
                *reader == *old(reader),
                spec_box_body(old(reader).bytes(), old(reader).pos(), size) == Ok::<Seq<u8>, Error>(
                    bytes,
                ),
                whole == TrakChildren::none().scan(bytes, 0),
                body.bytes() == bytes,
                0 <= body.pos() <= bytes.len(),
                whole == children_of(tkhd, edts, mdia).scan(bytes, body.pos()),
            decreases bytes.len() - body.pos(),
        {
            let header = BoxHeader::read(&mut body)?;
            match header.name {
                BoxType::TkhdBox => {
                    tkhd = Some(TkhdBox::read_box(&mut body, header.size)?);
                },
                BoxType::EdtsBox => {
                    edts = Some(EdtsBox::read_box(&mut body, header.size)?);
                },
                BoxType::MdiaBox => {
                    mdia = Some(MdiaBox::read_box(&mut body, header.size)?);
                },
                _ => {
                    skip_box(&mut body, header.size)?;
                },
            }
        }
        let b = Self::from_children(tkhd, edts, mdia)?;
        *reader = cur;
        Ok(b)
    }

    /// Appends the box to `writer` and returns its size. What is appended is
    /// stated with `Mp4Box::write_box`: it is `TrakView::spec_encode`.
    fn write_box(&self, writer: &mut Vec<u8>) -> (r: Result<u64, Error>) {
        let size = self.box_size();
        let _ = BoxHeader::new(self.box_type(), size).write(writer);
        let ghost start = writer@;
        let _ = self.tkhd.write_box(writer);
        if let Some(ref edts) = self.edts {
            let _ = edts.write_box(writer);
        }
        let _ = self.mdia.write_box(writer);
        assert(writer@ =~= start + self@.spec_children());
        write_user_data(writer);
        proof {
            lemma_append_box(
                old(writer)@,
                BoxType::TrakBox,
                self@.spec_size(),
                self@.spec_children(),
                spec_user_data(),
            );
        }
        Ok(size)
    }
}

/// A walk that stands at the start of a whole child goes on after it, with
/// that child among the children found.
pub proof fn lemma_scan_child(
    children: TrakChildren,
    pre: Seq<u8>,
    name: BoxType,
    child: Seq<u8>,
    post: Seq<u8>,
)
    requires
        name.is_canonical(),
        spec_raw_size(child) <= u32::MAX,
    ensures
        children.scan(pre + spec_raw_box(name, child) + post, pre.len() as int) == children.with(
            name,
            child,
        ).scan(pre + spec_raw_box(name, child) + post, pre.len() as int + spec_raw_size(child)),
{
    lemma_raw_round_trip(name, child, pre, post);
}

/// The user data is a whole box of its own, which a walk steps over.
pub proof fn lemma_user_data_is_box()
    ensures
        spec_user_data() == spec_raw_box(BoxType::UdtaBox, spec_user_data_body()),
        spec_user_data_body().len() == 53,
        spec_user_data().len() == USER_DATA_SIZE,
{
}

impl TrakView {
    /// `spec_encode` is as long as `spec_size` says, if that fits 32 bits.
    pub proof fn lemma_encode_len(self)
        requires
            self.spec_size() <= u32::MAX,
        ensures
            self.spec_body().len() == self.spec_size() - HEADER_SIZE,
            self.spec_encode().len() == self.spec_size(),
    {
        lemma_user_data_is_box();
    }

    /// A walk over the body that `write_box` emits finds the children of
    /// the track, and no others.
    pub proof fn lemma_scan_body(self)
        requires
            self.spec_size() <= u32::MAX,
        ensures
            TrakChildren::none().scan(self.spec_body(), 0) == Ok::<TrakChildren, Error>(
                TrakChildren { tkhd: Some(self.tkhd), edts: self.edts, mdia: Some(self.mdia) },
            ),
    {
        let body = self.spec_body();
        let t = TkhdBox::spec_encode(self.tkhd);
        let e = self.spec_edts();
        let m = MdiaBox::spec_encode(self.mdia);
        let u = spec_user_data();
        let none = Seq::<u8>::empty();
        lemma_user_data_is_box();
        lemma_raw_round_trip(BoxType::TkhdBox, self.tkhd, none, none);
        lemma_raw_round_trip(BoxType::MdiaBox, self.mdia, none, none);

        let c0 = TrakChildren::none();
        let c1 = c0.with(BoxType::TkhdBox, self.tkhd);
        lemma_scan_child(c0, none, BoxType::TkhdBox, self.tkhd, e + m + u);
        assert(body =~= none + t + (e + m + u));
        assert(c0.scan(body, 0) == c1.scan(body, t.len() as int));

        let c2 = match self.edts {
            Some(edts) => c1.with(BoxType::EdtsBox, edts),
            None => c1,
        };
        match self.edts {
            Some(edts) => {
                lemma_raw_round_trip(BoxType::EdtsBox, edts, none, none);
                lemma_scan_child(c1, t, BoxType::EdtsBox, edts, m + u);
                assert(body =~= t + e + (m + u));
            },
            None => {
                assert(t + e =~= t);
            },
        }
        assert(c1.scan(body, t.len() as int) == c2.scan(body, (t + e).len() as int));

        let c3 = c2.with(BoxType::MdiaBox, self.mdia);
        lemma_scan_child(c2, t + e, BoxType::MdiaBox, self.mdia, u);
        assert(body =~= (t + e) + m + u);
        assert(c2.scan(body, (t + e).len() as int) == c3.scan(body, (t + e + m).len() as int));

        lemma_scan_child(c3, t + e + m, BoxType::UdtaBox, spec_user_data_body(), none);
        assert(body =~= (t + e + m) + u + none);
        assert(c3.scan(body, (t + e + m).len() as int) == c3.scan(body, body.len() as int));
    }

    /// What `write_box` emits, `read_box` reads back as the same track,
    /// whatever bytes stand before and after it: the user data that was
    /// written is stepped over. A track of more than 32 bits of length is
    /// left out: its header is written in the 64-bit form, which the size it
    /// declares does not count.
    pub proof fn lemma_read_write_round_trip(self, pre: Seq<u8>, post: Seq<u8>)
        requires
            self.spec_size() <= u32::MAX,
        ensures
            self.spec_encode().len() == self.spec_size(),
            BoxHeader::spec_read(pre + self.spec_encode() + post, pre.len() as int) == Ok::<
                (BoxHeader, int),
                Error,
            >((BoxHeader { name: BoxType::TrakBox, size: self.spec_size() as u64 }, 8)),
            TrakBox::spec_read_box(
                pre + self.spec_encode() + post,
                pre.len() + HEADER_SIZE,
                self.spec_size() as u64,
            ) == Ok::<TrakView, Error>(self),
    {
        self.lemma_encode_len();
        self.lemma_scan_body();
        lemma_box_frame(BoxType::TrakBox, self.spec_body(), pre, post);
    }
}

/// A child of a kind that a track does not keep, between the track header
/// and the media information, is stepped over: the track reads as if the
/// child were not there.
pub proof fn lemma_unknown_child_skipped(
    tkhd: Seq<u8>,
    name: BoxType,
    unknown: Seq<u8>,
    mdia: Seq<u8>,
)
    requires
        name.is_canonical(),
        name != BoxType::TkhdBox,
        name != BoxType::EdtsBox,
        name != BoxType::MdiaBox,
        spec_raw_size(tkhd) <= u32::MAX,
        spec_raw_size(unknown) <= u32::MAX,
        spec_raw_size(mdia) <= u32::MAX,
    ensures
        TrakBox::spec_read_body(
            TkhdBox::spec_encode(tkhd) + spec_raw_box(name, unknown) + MdiaBox::spec_encode(mdia),
        ) == Ok::<TrakView, Error>(TrakView { tkhd, edts: None, mdia }),
{
    let t = TkhdBox::spec_encode(tkhd);
    let x = spec_raw_box(name, unknown);
    let m = MdiaBox::spec_encode(mdia);
    let body = t + x + m;
    let none = Seq::<u8>::empty();
    lemma_raw_round_trip(BoxType::TkhdBox, tkhd, none, none);
    lemma_raw_round_trip(name, unknown, none, none);
    lemma_raw_round_trip(BoxType::MdiaBox, mdia, none, none);
    let c0 = TrakChildren::none();
    let c1 = c0.with(BoxType::TkhdBox, tkhd);
    let c2 = c1.with(BoxType::MdiaBox, mdia);
    lemma_scan_child(c0, none, BoxType::TkhdBox, tkhd, x + m);
    assert(body =~= none + t + (x + m));
    assert(c0.scan(body, 0) == c1.scan(body, t.len() as int));
    lemma_scan_child(c1, t, name, unknown, m);
    assert(c1.with(name, unknown) == c1);
    assert(c1.scan(body, t.len() as int) == c1.scan(body, (t + x).len() as int));
    lemma_scan_child(c1, t + x, BoxType::MdiaBox, mdia, none);
    assert(body =~= (t + x) + m + none);
    assert(c1.scan(body, (t + x).len() as int) == c2.scan(body, body.len() as int));
}

/// A track body without a track header does not read: whatever else it
/// holds, the error names the track header. So it is for one that has the
/// track header and no media information.
pub proof fn lemma_missing_child(body: Seq<u8>, found: TrakChildren)
    requires
        TrakChildren::none().scan(body, 0) == Ok::<TrakChildren, Error>(found),
    ensures
        found.tkhd is None ==> TrakBox::spec_read_body(body) == Err::<TrakView, Error>(
            Error::BoxNotFound(BoxType::TkhdBox),
        ),
        found.tkhd is Some && found.mdia is None ==> TrakBox::spec_read_body(body) == Err::<
            TrakView,
            Error,
        >(Error::BoxNotFound(BoxType::MdiaBox)),
        found.tkhd is Some && found.mdia is Some ==> TrakBox::spec_read_body(body) is Ok,
{
}

} // verus!
