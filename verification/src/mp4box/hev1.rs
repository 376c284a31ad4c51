//! `hev1`: the sample entry of an HEVC video track, `hvcC`, the decoder
//! configuration that it holds, and the parameter sets inside that.

use crate::boxtype::BoxType;
use crate::endian::{
    be16, be16_signed, be32, be48, be64, lemma_u16_round_trip, lemma_u32_round_trip, put_i16, put_u16, put_u32, put_u48, put_u64, put_u8,
    u16_at, u32_at,
};
use crate::fixed::FixedPointU16;
use crate::error::Error;
use crate::mp4box::codec::Mp4Box;
use crate::mp4box::header::{
    box_body, lemma_append_box, skip_bytes, spec_box, spec_box_body, write_zeros, zeros, BoxHeader, HEADER_SIZE,
};
use crate::mp4box::raw::{lemma_raw_round_trip, spec_raw_box, spec_raw_size};
use crate::reader::Reader;
use crate::text::{append_decimal, spec_decimal};
use crate::types::HevcConfig;
use vstd::prelude::*;
use vstd::slice::slice_to_vec;
use vstd::std_specs::convert::FromSpecImpl;
use vstd::string::StringExecFns;

verus! {

/// One parameter set: a NAL unit, kept as the bytes it is made of.
#[derive(Debug, Clone, PartialEq, Eq)]
pub struct NalUnit {
    pub bytes: Vec<u8>,
}

impl View for NalUnit {
    type V = Seq<u8>;

    open spec fn view(&self) -> Seq<u8> {
        self.bytes@
    }
}

impl Default for NalUnit {
    fn default() -> (n: NalUnit)
        ensures
            n@ == Seq::<u8>::empty(),
    {
        NalUnit { bytes: Vec::new() }
    }
}

impl<'a> From<&'a [u8]> for NalUnit {
    fn from(bytes: &'a [u8]) -> (n: NalUnit)
        ensures
            n@ == bytes@,
    {
        NalUnit::new(bytes)
    }
}

impl<'a> FromSpecImpl<&'a [u8]> for NalUnit {
    open spec fn obeys_from_spec() -> bool {
        false
    }

    open spec fn from_spec(bytes: &'a [u8]) -> NalUnit {
        arbitrary()
    }
}

impl NalUnit {
    /// The bytes of a unit on the wire: its length in 16 bits, then its bytes.
    /// A length that does not fit 16 bits is cut to its low 16 bits.
    pub open spec fn spec_encode(bytes: Seq<u8>) -> Seq<u8> {
        be16((bytes.len() % 0x1_0000) as u16) + bytes
    }

    /// The unit that starts at offset `pos` of `bytes`, with the offset at
    /// which it ends.
    pub open spec fn spec_read(bytes: Seq<u8>, pos: int) -> Result<(Seq<u8>, int), Error> {
        if pos + 2 > bytes.len() {
            Err(Error::UnexpectedEof)
        } else if pos + 2 + u16_at(bytes, pos) > bytes.len() {
            Err(Error::UnexpectedEof)
        } else {
            Ok((bytes.subrange(pos + 2, pos + 2 + u16_at(bytes, pos)), pos + 2 + u16_at(bytes, pos)))
        }
    }

    /// The unit made of a copy of `bytes`.
    pub fn new(bytes: &[u8]) -> (n: NalUnit)
        ensures
            n@ == bytes@,
    {
        NalUnit { bytes: slice_to_vec(bytes) }
    }

    /// The number of bytes that the unit takes on the wire.
    pub fn size(&self) -> (n: usize)
        requires
            2 + self@.len() <= usize::MAX,
        ensures
            n == 2 + self@.len(),
    {
        2 + self.bytes.len()
    }

    /// Reads a unit. On failure the reader has not moved.
    pub fn read(reader: &mut Reader) -> (r: Result<NalUnit, Error>)
        ensures
            match r {
                Ok(n) => {
                    &&& Self::spec_read(old(reader).bytes(), old(reader).pos()) matches Ok(
                        (bytes, end),
                    )
                    &&& n@ == bytes
                    &&& final(reader).advanced_from(*old(reader), end - old(reader).pos())
                },
                Err(e) => Self::spec_read(old(reader).bytes(), old(reader).pos()) == Err::<
                    (Seq<u8>, int),
                    Error,
                >(e) && *final(reader) == *old(reader),
            },
    {
        proof {
            reader.lemma_pos_in_bounds();
        }
        let mut cur = *reader;
        let length = cur.read_u16()? as usize;
        let bytes = cur.read_bytes(length)?;
        *reader = cur;
        Ok(NalUnit { bytes })
    }

    /// Appends the unit to `writer` and returns the number of bytes it took.
    pub fn write(&self, writer: &mut Vec<u8>) -> (r: Result<u64, Error>)
        requires
            2 + self@.len() <= usize::MAX,
        ensures
            final(writer)@ == old(writer)@ + Self::spec_encode(self@),
            r == Ok::<u64, Error>((2 + self@.len()) as u64),
    {
        put_u16(writer, count_field(self.bytes.len()));
        writer.extend_from_slice(self.bytes.as_slice());
        assert(writer@ =~= old(writer)@ + Self::spec_encode(self@));
        Ok(self.size() as u64)
    }

    /// A unit of at most 65535 bytes that was written reads back as itself,
    /// whatever bytes stand before and after it.
    pub proof fn lemma_read_write_round_trip(bytes: Seq<u8>, pre: Seq<u8>, post: Seq<u8>)
        requires
            bytes.len() <= 0xFFFF,
        ensures
            Self::spec_read(pre + Self::spec_encode(bytes) + post, pre.len() as int) == Ok::<
                (Seq<u8>, int),
                Error,
            >((bytes, pre.len() as int + 2 + bytes.len())),
    {
        let s = pre + Self::spec_encode(bytes) + post;
        let len = (bytes.len() % 0x1_0000) as u16;
        crate::endian::lemma_u16_round_trip(pre, len, bytes + post);
        assert(s =~= pre + be16(len) + (bytes + post));
        let start = pre.len() as int + 2;
        assert(s.subrange(start, start + bytes.len()) =~= bytes);
    }
}

/// The NAL unit type of a video parameter set.
pub const VPS_NAL_TYPE: u8 = 32;

/// The NAL unit type of a sequence parameter set.
pub const SPS_NAL_TYPE: u8 = 33;

/// The NAL unit type of a picture parameter set.
pub const PPS_NAL_TYPE: u8 = 34;

/// The byte that opens a written array of units of type `nal_type`: the
/// type in the low six bits, under the bit that calls the array complete.
pub open spec fn spec_array_header(nal_type: u8) -> u8 {
    (0x80 + nal_type % 0x40) as u8
}

/// The byte that opens a written array of units of type `nal_type`.
fn array_header(nal_type: u8) -> (h: u8)
    ensures
        h == spec_array_header(nal_type),
{
    let array_completeness: u8 = 1;
    assert((array_completeness << 7 | nal_type & 0x3f) == 0x80 + nal_type % 0x40) by (bit_vector)
        requires
            array_completeness == 1,
    ;
    array_completeness << 7 | nal_type & 0x3f
}

/// The low 16 bits of a count, as the width of a count field allows.
fn count_field(count: usize) -> (c: u16)
    ensures
        c == count % 0x1_0000,
{
    assert(count as u16 == count % 0x1_0000) by (bit_vector);
    #[verifier::truncate]
    (count as u16)
}

/// What a list of units holds: the bytes of each.
pub open spec fn nal_views(list: Seq<NalUnit>) -> Seq<Seq<u8>> {
    list.map_values(|n: NalUnit| n@)
}

/// The units of `list` on the wire, one after the other.
pub open spec fn spec_nals(list: Seq<Seq<u8>>) -> Seq<u8>
    decreases list.len(),
{
    if list.len() == 0 {
        Seq::empty()
    } else {
        spec_nals(list.drop_last()) + NalUnit::spec_encode(list.last())
    }
}

/// The number of bytes that the units of `list` take on the wire: for each
/// its length and two more.
pub open spec fn spec_nals_size(list: Seq<Seq<u8>>) -> nat
    decreases list.len(),
{
    if list.len() == 0 {
        0
    } else {
        spec_nals_size(list.drop_last()) + 2 + list.last().len()
    }
}

/// A written array: the byte that opens it, the number of its units in 16
/// bits (cut to its low 16 bits), and the units.
pub open spec fn spec_array(nal_type: u8, list: Seq<Seq<u8>>) -> Seq<u8> {
    seq![spec_array_header(nal_type)] + be16((list.len() % 0x1_0000) as u16) + spec_nals(list)
}

/// `count` units that start at offset `pos` of `bytes`, with the offset at
/// which the last one ends.
pub open spec fn spec_read_nals(bytes: Seq<u8>, pos: int, count: nat) -> Result<
    (Seq<Seq<u8>>, int),
    Error,
>
    decreases count,
{
    if count == 0 {
        Ok((Seq::empty(), pos))
    } else {
        match NalUnit::spec_read(bytes, pos) {
            Err(e) => Err(e),
            Ok((unit, next)) => spec_after(
                seq![unit],
                spec_read_nals(bytes, next, (count - 1) as nat),
            ),
        }
    }
}

/// The outcome `rest` of reading more units, after the units `done`.
pub open spec fn spec_after(done: Seq<Seq<u8>>, rest: Result<(Seq<Seq<u8>>, int), Error>) -> Result<
    (Seq<Seq<u8>>, int),
    Error,
> {
    match rest {
        Err(e) => Err(e),
        Ok((more, end)) => Ok((done + more, end)),
    }
}

/// The units of `list` take as many bytes as `spec_nals_size` says.
pub proof fn lemma_nals_len(list: Seq<Seq<u8>>)
    ensures
        spec_nals(list).len() == spec_nals_size(list),
    decreases list.len(),
{
    if list.len() > 0 {
        lemma_nals_len(list.drop_last());
    }
}

proof fn lemma_nals_step(list: Seq<Seq<u8>>, i: int)
    requires
        0 <= i < list.len(),
    ensures
        spec_nals(list.take(i + 1)) == spec_nals(list.take(i)) + NalUnit::spec_encode(list[i]),
        spec_nals_size(list.take(i + 1)) == spec_nals_size(list.take(i)) + 2 + list[i].len(),
{
    assert(list.take(i + 1).drop_last() =~= list.take(i));
}

proof fn lemma_nals_size_prefix(list: Seq<Seq<u8>>, i: int)
    requires
        0 <= i <= list.len(),
    ensures
        spec_nals_size(list.take(i)) <= spec_nals_size(list),
    decreases list.len() - i,
{
    if i < list.len() {
        lemma_nals_step(list, i);
        lemma_nals_size_prefix(list, i + 1);
    } else {
        assert(list.take(i) =~= list);
    }
}

proof fn lemma_after_after(
    done: Seq<Seq<u8>>,
    unit: Seq<u8>,
    rest: Result<(Seq<Seq<u8>>, int), Error>,
)
    ensures
        spec_after(done, spec_after(seq![unit], rest)) == spec_after(done.push(unit), rest),
{
    match rest {
        Err(e) => {},
        Ok((more, end)) => {
            assert(done + (seq![unit] + more) =~= done.push(unit) + more);
        },
    }
}

/// The number of bytes that `list` takes on the wire.
fn nals_size(list: &Vec<NalUnit>) -> (n: u64)
    requires
        spec_nals_size(nal_views(list@)) <= usize::MAX,
    ensures
        n == spec_nals_size(nal_views(list@)),
{
    let ghost views = nal_views(list@);
    let mut size: u64 = 0;
    let mut i: usize = 0;
    while i < list.len()
        invariant
            i <= list.len(),
            views == nal_views(list@),
            spec_nals_size(views) <= usize::MAX,
            size == spec_nals_size(views.take(i as int)),
        decreases list.len() - i,
    {
        proof {
            lemma_nals_step(views, i as int);
            lemma_nals_size_prefix(views, i + 1);
        }
        size += list[i].size() as u64;
        i += 1;
    }
    assert(views.take(i as int) =~= views);
    size
}

/// Appends the units of `list` to `writer`.
fn write_nals(list: &Vec<NalUnit>, writer: &mut Vec<u8>)
    requires
        spec_nals_size(nal_views(list@)) <= usize::MAX,
    ensures
        final(writer)@ == old(writer)@ + spec_nals(nal_views(list@)),
{
    let ghost views = nal_views(list@);
    let mut i: usize = 0;
    while i < list.len()
        invariant
            i <= list.len(),
            views == nal_views(list@),
            spec_nals_size(views) <= usize::MAX,
            writer@ == old(writer)@ + spec_nals(views.take(i as int)),
        decreases list.len() - i,
    {
        proof {
            lemma_nals_step(views, i as int);
            lemma_nals_size_prefix(views, i + 1);
        }
        let _ = list[i].write(writer);
        i += 1;
    }
    assert(views.take(i as int) =~= views);
}

/// Appends `list` as an array of units of type `nal_type`.
fn write_array(nal_type: u8, list: &Vec<NalUnit>, writer: &mut Vec<u8>)
    requires
        spec_nals_size(nal_views(list@)) <= usize::MAX,
    ensures
        final(writer)@ == old(writer)@ + spec_array(nal_type, nal_views(list@)),
{
    put_u8(writer, array_header(nal_type));
    put_u16(writer, count_field(list.len()));
    write_nals(list, writer);
    assert(writer@ =~= old(writer)@ + spec_array(nal_type, nal_views(list@)));
}

/// Reads `count` units.
fn read_nals(reader: &mut Reader, count: u8) -> (r: Result<Vec<NalUnit>, Error>)
    ensures
        final(reader).bytes() == old(reader).bytes(),
        match r {
            Ok(list) => {
                &&& spec_read_nals(old(reader).bytes(), old(reader).pos(), count as nat) matches Ok(
                    (units, end),
                )
                &&& nal_views(list@) == units
                &&& final(reader).pos() == end
            },
            Err(e) => spec_read_nals(old(reader).bytes(), old(reader).pos(), count as nat) == Err::<
                (Seq<Seq<u8>>, int),
                Error,
            >(e),
        },
{
    let ghost whole = spec_read_nals(reader.bytes(), reader.pos(), count as nat);
    let mut list: Vec<NalUnit> = Vec::with_capacity(count as usize);
    let mut i: u8 = 0;
    assert(nal_views(list@) =~= Seq::empty());
    assert(spec_after(Seq::empty(), whole) == whole) by {
        match whole {
            Err(e) => {},
            Ok((more, end)) => {
                assert(Seq::<Seq<u8>>::empty() + more =~= more);
            },
        }
    }
    while i < count
        invariant
            i <= count,
            reader.bytes() == old(reader).bytes(),
            whole == spec_read_nals(old(reader).bytes(), old(reader).pos(), count as nat),
            whole == spec_after(
                nal_views(list@),
                spec_read_nals(reader.bytes(), reader.pos(), (count - i) as nat),
            ),
        decreases count - i,
    {
        let ghost done = nal_views(list@);
        let ghost here = spec_read_nals(reader.bytes(), reader.pos(), (count - i) as nat);
        assert(here == match NalUnit::spec_read(reader.bytes(), reader.pos()) {
            Err(e) => Err(e),
            Ok((unit, next)) => spec_after(
                seq![unit],
                spec_read_nals(reader.bytes(), next, (count - i - 1) as nat),
            ),
        });
        match NalUnit::read(reader) {
            Err(e) => {
                return Err(e);
            },
            Ok(nal) => {
                proof {
                    lemma_after_after(
                        done,
                        nal@,
                        spec_read_nals(reader.bytes(), reader.pos(), (count - i - 1) as nat),
                    );
                }
                list.push(nal);
                i += 1;
                assert(nal_views(list@) =~= done.push(nal@));
            },
        }
    }
    proof {
        assert(nal_views(list@) + Seq::<Seq<u8>>::empty() =~= nal_views(list@));
    }
    Ok(list)
}

/// `hvcC`: the HEVC decoder configuration, as far as this crate keeps it:
/// its version and the three lists of parameter sets.
#[derive(Debug, Clone, PartialEq, Eq)]
pub struct HvcCBox {
    pub configuration_version: u8,
    pub sequence_parameter_sets: Vec<NalUnit>,
    pub picture_parameter_sets: Vec<NalUnit>,
    pub video_parameter_sets: Vec<NalUnit>,
}

/// What an `HvcCBox` holds.
pub struct HvcCView {
    pub configuration_version: u8,
    pub sequence_parameter_sets: Seq<Seq<u8>>,
    pub picture_parameter_sets: Seq<Seq<u8>>,
    pub video_parameter_sets: Seq<Seq<u8>>,
}

impl View for HvcCBox {
    type V = HvcCView;

    open spec fn view(&self) -> HvcCView {
        HvcCView {
            configuration_version: self.configuration_version,
            sequence_parameter_sets: nal_views(self.sequence_parameter_sets@),
            picture_parameter_sets: nal_views(self.picture_parameter_sets@),
            video_parameter_sets: nal_views(self.video_parameter_sets@),
        }
    }
}

impl Default for HvcCBox {
    fn default() -> (b: HvcCBox)
        ensures
            b@ == (HvcCView {
                configuration_version: 0,
                sequence_parameter_sets: Seq::empty(),
                picture_parameter_sets: Seq::empty(),
                video_parameter_sets: Seq::empty(),
            }),
    {
        let b = HvcCBox {
            configuration_version: 0,
            sequence_parameter_sets: Vec::new(),
            picture_parameter_sets: Vec::new(),
            video_parameter_sets: Vec::new(),
        };
        assert(nal_views(b.sequence_parameter_sets@) =~= Seq::empty());
        assert(nal_views(b.picture_parameter_sets@) =~= Seq::empty());
        assert(nal_views(b.video_parameter_sets@) =~= Seq::empty());
        b
    }
}

impl HvcCView {
    /// The length of the whole box: the header, 32 bytes of fields and array
    /// openings, and the units of the three lists.
    pub open spec fn spec_size(self) -> nat {
        8 + 32 + spec_nals_size(self.video_parameter_sets) + spec_nals_size(
            self.sequence_parameter_sets,
        ) + spec_nals_size(self.picture_parameter_sets)
    }

    /// The 23 bytes that `write_box` puts before the arrays: the version,
    /// then profile, level and format fields with fixed values, then the
    /// number of arrays, which is three.
    pub open spec fn spec_fields(self) -> Seq<u8> {
        seq![self.configuration_version, 0] + be32(0) + be48(0) + seq![0] + be16(0xf000)
            + seq![0xfc, 0xfc, 0xfa, 0xfa] + be16(0) + seq![0x0f, 3]
    }

    /// The bytes after the header, as `write_box` emits them: the fields,
    /// then the video, sequence and picture parameter sets, each list as an
    /// array.
    pub open spec fn spec_body(self) -> Seq<u8> {
        self.spec_fields() + spec_array(VPS_NAL_TYPE, self.video_parameter_sets) + spec_array(
            SPS_NAL_TYPE,
            self.sequence_parameter_sets,
        ) + spec_array(PPS_NAL_TYPE, self.picture_parameter_sets)
    }

    /// The bytes of the whole box.
    pub open spec fn spec_encode(self) -> Seq<u8> {
        spec_box(BoxType::HvcCBox, self.spec_size(), self.spec_body())
    }

    /// `spec_encode` is as long as `spec_size` says, unless that is more than
    /// 32 bits hold: then the header is written in its 64-bit form, which is
    /// eight bytes longer than `spec_size` counts.
    pub proof fn lemma_encode_len(self)
        requires
            self.spec_size() <= u64::MAX,
        ensures
            self.spec_body().len() == self.spec_size() - 8,
            self.spec_encode().len() == if self.spec_size() > u32::MAX {
                self.spec_size() + 8
            } else {
                self.spec_size()
            },
    {
        lemma_nals_len(self.video_parameter_sets);
        lemma_nals_len(self.sequence_parameter_sets);
        lemma_nals_len(self.picture_parameter_sets);
    }

    /// What `summary` returns.
    pub open spec fn spec_summary(self) -> Seq<char> {
        "configuration_version="@ + spec_decimal(self.configuration_version as nat)
    }
}

impl HvcCBox {
    /// What the box whose body is `body` holds. `read_box` takes the first
    /// byte as the version, passes over 22 bytes, and then reads three lists
    /// in the order video, sequence, picture: one byte that counts the units
    /// (for the sequence parameter sets its low five bits only), then the
    /// units. Bytes after the third list are not looked at.
    pub open spec fn spec_read_body(body: Seq<u8>) -> Result<HvcCView, Error> {
        if body.len() < 24 {
            Err(Error::UnexpectedEof)
        } else {
            match spec_read_nals(body, 24, body[23] as nat) {
                Err(e) => Err(e),
                Ok((vps, sps_at)) => if sps_at >= body.len() {
                    Err(Error::UnexpectedEof)
                } else {
                    match spec_read_nals(body, sps_at + 1, (body[sps_at] & 0x1F) as nat) {
                        Err(e) => Err(e),
                        Ok((sps, pps_at)) => if pps_at >= body.len() {
                            Err(Error::UnexpectedEof)
                        } else {
                            match spec_read_nals(body, pps_at + 1, body[pps_at] as nat) {
                                Err(e) => Err(e),
                                Ok((pps, end)) => Ok(
                                    HvcCView {
                                        configuration_version: body[0],
                                        sequence_parameter_sets: sps,
                                        picture_parameter_sets: pps,
                                        video_parameter_sets: vps,
                                    },
                                ),
                            }
                        },
                    }
                },
            }
        }
    }

    /// What the box of declared size `size` holds whose header ends at
    /// offset `pos` of `bytes`.
    pub open spec fn spec_read_box(bytes: Seq<u8>, pos: int, size: u64) -> Result<HvcCView, Error> {
        match spec_box_body(bytes, pos, size) {
            Ok(body) => Self::spec_read_body(body),
            Err(e) => Err(e),
        }
    }

    /// The configuration with version 1 and one parameter set of each kind.
    pub fn new(sps: &[u8], pps: &[u8], vps: &[u8]) -> (b: HvcCBox)
        ensures
            b@ == (HvcCView {
                configuration_version: 1,
                sequence_parameter_sets: seq![sps@],
                picture_parameter_sets: seq![pps@],
                video_parameter_sets: seq![vps@],
            }),
    {
        let mut sequence_parameter_sets: Vec<NalUnit> = Vec::new();
        sequence_parameter_sets.push(NalUnit::from(sps));
        let mut picture_parameter_sets: Vec<NalUnit> = Vec::new();
        picture_parameter_sets.push(NalUnit::from(pps));
        let mut video_parameter_sets: Vec<NalUnit> = Vec::new();
        video_parameter_sets.push(NalUnit::from(vps));
        assert(nal_views(sequence_parameter_sets@) =~= seq![sps@]);
        assert(nal_views(picture_parameter_sets@) =~= seq![pps@]);
        assert(nal_views(video_parameter_sets@) =~= seq![vps@]);
        HvcCBox {
            configuration_version: 1,
            sequence_parameter_sets,
            picture_parameter_sets,
            video_parameter_sets,
        }
    }

    /// Appends the fields that stand before the arrays.
    fn write_fields(&self, writer: &mut Vec<u8>)
        ensures
            final(writer)@ == old(writer)@ + self@.spec_fields(),
    {
        put_u8(writer, self.configuration_version);
        put_u8(writer, 0);
        put_u32(writer, 0);
        put_u48(writer, 0);
        put_u8(writer, 0);
        put_u16(writer, 0xf000);
        put_u8(writer, 0xfc);
        put_u8(writer, 0xfc);
        put_u8(writer, 0xfa);
        put_u8(writer, 0xfa);
        put_u16(writer, 0);
        put_u8(writer, 0x0f);
        put_u8(writer, 3);
        assert(writer@ =~= old(writer)@ + self@.spec_fields());
    }
}

impl Mp4Box for HvcCBox {
    type Content = HvcCView;

    open spec fn content(&self) -> HvcCView {
        self@
    }

    open spec fn spec_box_type() -> BoxType {
        BoxType::HvcCBox
    }

    open spec fn spec_box_size(content: HvcCView) -> nat {
        content.spec_size()
    }

    open spec fn spec_box_bytes(content: HvcCView) -> Seq<u8> {
        content.spec_body()
    }

    open spec fn spec_writable(content: HvcCView) -> bool {
        true
    }

    open spec fn spec_from_body(body: Seq<u8>) -> Result<HvcCView, Error> {
        HvcCBox::spec_read_body(body)
    }

    open spec fn spec_box_summary(content: HvcCView) -> Seq<char> {
        content.spec_summary()
    }

    /// The kind of this box.
    fn box_type(&self) -> (t: BoxType) {
        BoxType::HvcCBox
    }

    /// The size of the whole box.
    fn box_size(&self) -> (n: u64) {
        let mut size: u64 = HEADER_SIZE + 32;
        size += nals_size(&self.video_parameter_sets);
        size += nals_size(&self.sequence_parameter_sets);
        size += nals_size(&self.picture_parameter_sets);
        size
    }

    /// A one-line description: the version.
    fn summary(&self) -> (r: Result<String, Error>) {
        let mut s = String::from_str("configuration_version=");
        append_decimal(&mut s, self.configuration_version as u64);
        Ok(s)
    }

    /// Reads the box whose header has just been read and declared `size`
    /// bytes. On success the reader stands at the end of the box; on failure
    /// it has not moved. What is read is stated with `Mp4Box::read_box`: it is
    /// `HvcCBox::spec_read_body` of the bytes that the header announces.
    fn read_box(reader: &mut Reader, size: u64) -> (r: Result<HvcCBox, Error>) {
        let mut cur = *reader;
        let mut body = box_body(&mut cur, size)?;
        let configuration_version = body.read_u8()?;
        let _ = body.read_u8()?;
        let _ = body.read_u32()?;
        let _ = body.read_u48()?;
        let _ = body.read_u8()?;
        let _ = body.read_u16()?;
        let _ = body.read_u8()?;
        let _ = body.read_u8()?;
        let _ = body.read_u8()?;
        let _ = body.read_u8()?;
        let _ = body.read_u16()?;
        let _ = body.read_u8()?;
        let _num_arrays = body.read_u8()?;
        let num_of_vpss = body.read_u8()?;
        let video_parameter_sets = read_nals(&mut body, num_of_vpss)?;
        let num_of_spss = body.read_u8()? & 0x1F;
        let sequence_parameter_sets = read_nals(&mut body, num_of_spss)?;
        let num_of_ppss = body.read_u8()?;
        let picture_parameter_sets = read_nals(&mut body, num_of_ppss)?;
        *reader = cur;
        Ok(
            HvcCBox {
                configuration_version,
                sequence_parameter_sets,
                picture_parameter_sets,
                video_parameter_sets,
            },
        )
    }

    /// Appends the box to `writer` and returns its size. What is appended is
    /// stated with `Mp4Box::write_box`: it is `HvcCView::spec_encode`.
    fn write_box(&self, writer: &mut Vec<u8>) -> (r: Result<u64, Error>) {
        proof {
            self@.lemma_encode_len();
        }
        let size = self.box_size();
        let _ = BoxHeader::new(self.box_type(), size).write(writer);
        self.write_fields(writer);
        write_array(VPS_NAL_TYPE, &self.video_parameter_sets, writer);
        write_array(SPS_NAL_TYPE, &self.sequence_parameter_sets, writer);
        write_array(PPS_NAL_TYPE, &self.picture_parameter_sets, writer);
        assert(writer@ =~= old(writer)@ + self@.spec_encode());
        Ok(size)
    }
}

/// `hev1`: the sample entry of an HEVC track.
#[derive(Debug, Clone, PartialEq, Eq)]
pub struct Hev1Box {
    pub data_reference_index: u16,
    pub width: u16,
    pub height: u16,
    pub horizresolution: FixedPointU16,
    pub vertresolution: FixedPointU16,
    pub frame_count: u16,
    pub depth: u16,
    pub hvcc: HvcCBox,
}

/// What a `Hev1Box` holds.
pub struct Hev1View {
    pub data_reference_index: u16,
    pub width: u16,
    pub height: u16,
    pub horizresolution: FixedPointU16,
    pub vertresolution: FixedPointU16,
    pub frame_count: u16,
    pub depth: u16,
    pub hvcc: HvcCView,
}

impl View for Hev1Box {
    type V = Hev1View;

    open spec fn view(&self) -> Hev1View {
        Hev1View {
            data_reference_index: self.data_reference_index,
            width: self.width,
            height: self.height,
            horizresolution: self.horizresolution,
            vertresolution: self.vertresolution,
            frame_count: self.frame_count,
            depth: self.depth,
            hvcc: self.hvcc@,
        }
    }
}

impl Default for Hev1Box {
    fn default() -> (b: Hev1Box)
        ensures
            b@ == (Hev1View {
                data_reference_index: 0,
                width: 0,
                height: 0,
                horizresolution: FixedPointU16 { raw: 0x48_0000 },
                vertresolution: FixedPointU16 { raw: 0x48_0000 },
                frame_count: 1,
                depth: 0x0018,
                hvcc: HvcCView {
                    configuration_version: 0,
                    sequence_parameter_sets: Seq::empty(),
                    picture_parameter_sets: Seq::empty(),
                    video_parameter_sets: Seq::empty(),
                },
            }),
    {
        Hev1Box {
            data_reference_index: 0,
            width: 0,
            height: 0,
            horizresolution: FixedPointU16::new(0x48),
            vertresolution: FixedPointU16::new(0x48),
            frame_count: 1,
            depth: 0x0018,
            hvcc: HvcCBox::default(),
        }
    }
}

impl Hev1View {
    /// The length of the whole box: the header, 78 bytes of fields, and the
    /// configuration.
    pub open spec fn spec_size(self) -> nat {
        8 + 8 + 70 + self.hvcc.spec_size()
    }

    /// The fields between the header and the configuration.
    #[verifier::opaque]
    pub open spec fn spec_fields(self) -> Seq<u8> {
        be32(0) + be16(0) + be16(self.data_reference_index) + be32(0) + be64(0) + be32(0) + be16(
            self.width,
        ) + be16(self.height) + be32(self.horizresolution.raw) + be32(self.vertresolution.raw)
            + be32(0) + be16(self.frame_count) + zeros(32) + be16(self.depth) + be16_signed(-1i16)
    }

    /// The bytes after the header: the fields, then the configuration box.
    pub open spec fn spec_body(self) -> Seq<u8> {
        self.spec_fields() + self.hvcc.spec_encode()
    }

    /// The bytes of the whole box.
    pub open spec fn spec_encode(self) -> Seq<u8> {
        spec_box(BoxType::Hev1Box, self.spec_size(), self.spec_body())
    }

    /// `spec_encode` is as long as `spec_size` says, unless a header in it is
    /// written in the 64-bit form, which is eight bytes longer than
    /// `spec_size` counts.
    pub proof fn lemma_encode_len(self)
        requires
            self.spec_size() <= u64::MAX,
        ensures
            self.spec_fields().len() == 78,
            self.spec_size() <= u32::MAX ==> self.spec_encode().len() == self.spec_size(),
    {
        reveal(Hev1View::spec_fields);
        self.hvcc.lemma_encode_len();
    }

    /// What `summary` returns.
    pub open spec fn spec_summary(self) -> Seq<char> {
        "data_reference_index="@ + spec_decimal(self.data_reference_index as nat) + " width="@
            + spec_decimal(self.width as nat) + " height="@ + spec_decimal(self.height as nat)
            + " frame_count="@ + spec_decimal(self.frame_count as nat)
    }
}

impl Hev1Box {
    /// What the box whose body is `body` holds: 78 bytes of fields, then a
    /// box that must be an `hvcC`. Bytes after that box are not looked at.
    pub open spec fn spec_read_body(body: Seq<u8>) -> Result<Hev1View, Error> {
        if body.len() < 78 {
            Err(Error::UnexpectedEof)
        } else {
            match BoxHeader::spec_read(body, 78) {
                Err(e) => Err(e),
                Ok((header, n)) => if header.name != BoxType::HvcCBox {
                    Err(Error::InvalidData("hvcc not found"))
                } else {
                    match HvcCBox::spec_read_box(body, 78 + n, header.size) {
                        Err(e) => Err(e),
                        Ok(hvcc) => Ok(
                            Hev1View {
                                data_reference_index: u16_at(body, 6),
                                width: u16_at(body, 24),
                                height: u16_at(body, 26),
                                horizresolution: FixedPointU16 { raw: u32_at(body, 28) },
                                vertresolution: FixedPointU16 { raw: u32_at(body, 32) },
                                frame_count: u16_at(body, 40),
                                depth: u16_at(body, 74),
                                hvcc,
                            },
                        ),
                    }
                },
            }
        }
    }

    /// What the box of declared size `size` holds whose header ends at
    /// offset `pos` of `bytes`.
    pub open spec fn spec_read_box(bytes: Seq<u8>, pos: int, size: u64) -> Result<Hev1View, Error> {
        match spec_box_body(bytes, pos, size) {
            Ok(body) => Self::spec_read_body(body),
            Err(e) => Err(e),
        }
    }

    /// The sample entry of a stream: its picture size, 72 dpi, one frame per
    /// sample, 24 bits of depth, and one parameter set of each kind.
    pub fn new(config: &HevcConfig) -> (b: Hev1Box)
        ensures
            b@ == (Hev1View {
                data_reference_index: 1,
                width: config.width,
                height: config.height,
                horizresolution: FixedPointU16 { raw: 0x48_0000 },
                vertresolution: FixedPointU16 { raw: 0x48_0000 },
                frame_count: 1,
                depth: 0x0018,
                hvcc: HvcCView {
                    configuration_version: 1,
                    sequence_parameter_sets: seq![config.seq_param_set@],
                    picture_parameter_sets: seq![config.pic_param_set@],
                    video_parameter_sets: seq![config.vid_param_set@],
                },
            }),
    {
        Hev1Box {
            data_reference_index: 1,
            width: config.width,
            height: config.height,
            horizresolution: FixedPointU16::new(0x48),
            vertresolution: FixedPointU16::new(0x48),
            frame_count: 1,
            depth: 0x0018,
            hvcc: HvcCBox::new(
                config.seq_param_set.as_slice(),
                config.pic_param_set.as_slice(),
                config.vid_param_set.as_slice(),
            ),
        }
    }

    /// The kind of this box.
    pub fn get_type(&self) -> (t: BoxType)
        ensures
            t == BoxType::Hev1Box,
    {
        BoxType::Hev1Box
    }

    /// The size of the whole box.
    pub fn get_size(&self) -> (n: u64)
        requires
            self@.spec_size() <= usize::MAX,
        ensures
            n == self@.spec_size(),
    {
        HEADER_SIZE + 8 + 70 + self.hvcc.box_size()
    }

    /// Appends the fields that stand before the configuration.
    fn write_fields(&self, writer: &mut Vec<u8>)
        ensures
            final(writer)@ == old(writer)@ + self@.spec_fields(),
    {
        put_u32(writer, 0);
        put_u16(writer, 0);
        put_u16(writer, self.data_reference_index);
        put_u32(writer, 0);
        put_u64(writer, 0);
        put_u32(writer, 0);
        put_u16(writer, self.width);
        put_u16(writer, self.height);
        put_u32(writer, self.horizresolution.raw_value());
        put_u32(writer, self.vertresolution.raw_value());
        put_u32(writer, 0);
        put_u16(writer, self.frame_count);
        let _ = write_zeros(writer, 32);
        put_u16(writer, self.depth);
        put_i16(writer, -1);
        reveal(Hev1View::spec_fields);
        assert(writer@ =~= old(writer)@ + self@.spec_fields());
    }
}

impl Mp4Box for Hev1Box {
    type Content = Hev1View;

    open spec fn content(&self) -> Hev1View {
        self@
    }

    open spec fn spec_box_type() -> BoxType {
        BoxType::Hev1Box
    }

    open spec fn spec_box_size(content: Hev1View) -> nat {
        content.spec_size()
    }

    open spec fn spec_box_bytes(content: Hev1View) -> Seq<u8> {
        content.spec_body()
    }

    open spec fn spec_writable(content: Hev1View) -> bool {
        true
    }

    open spec fn spec_from_body(body: Seq<u8>) -> Result<Hev1View, Error> {
        Hev1Box::spec_read_body(body)
    }

    open spec fn spec_box_summary(content: Hev1View) -> Seq<char> {
        content.spec_summary()
    }

    /// The kind of this box.
    fn box_type(&self) -> (t: BoxType) {
        self.get_type()
    }

    /// The size of the whole box.
    fn box_size(&self) -> (n: u64) {
        self.get_size()
    }

    /// A one-line description: the data reference index, the picture size
    /// and the frame count.
    fn summary(&self) -> (r: Result<String, Error>) {
        let mut s = String::from_str("data_reference_index=");
        append_decimal(&mut s, self.data_reference_index as u64);
        s.append(" width=");
        append_decimal(&mut s, self.width as u64);
        s.append(" height=");
        append_decimal(&mut s, self.height as u64);
        s.append(" frame_count=");
        append_decimal(&mut s, self.frame_count as u64);
        Ok(s)
    }

    /// Reads the box whose header has just been read and declared `size`
    /// bytes. On success the reader stands at the end of the box; on failure
    /// it has not moved. What is read is stated with `Mp4Box::read_box`: it is
    /// `Hev1Box::spec_read_body` of the bytes that the header announces.
    fn read_box(reader: &mut Reader, size: u64) -> (r: Result<Hev1Box, Error>) {
        let mut cur = *reader;
        let mut body = box_body(&mut cur, size)?;
        let _ = body.read_u32()?;
        let _ = body.read_u16()?;
        let data_reference_index = body.read_u16()?;
        let _ = body.read_u32()?;
        let _ = body.read_u64()?;
        let _ = body.read_u32()?;
        let width = body.read_u16()?;
        let height = body.read_u16()?;
        let horizresolution = FixedPointU16::new_raw(body.read_u32()?);
        let vertresolution = FixedPointU16::new_raw(body.read_u32()?);
        let _ = body.read_u32()?;
        let frame_count = body.read_u16()?;
        skip_bytes(&mut body, 32)?;
        let depth = body.read_u16()?;
        let _ = body.read_i16()?;
        let header = BoxHeader::read(&mut body)?;
        if header.name != BoxType::HvcCBox {
            return Err(Error::InvalidData("hvcc not found"));
        }
        let hvcc = HvcCBox::read_box(&mut body, header.size)?;
        *reader = cur;
        Ok(
            Hev1Box {
                data_reference_index,
                width,
                height,
                horizresolution,
                vertresolution,
                frame_count,
                depth,
                hvcc,
            },
        )
    }

    /// Appends the box to `writer` and returns its size. What is appended is
    /// stated with `Mp4Box::write_box`: it is `Hev1View::spec_encode`.
    fn write_box(&self, writer: &mut Vec<u8>) -> (r: Result<u64, Error>) {
        proof {
            self@.lemma_encode_len();
        }
        let size = self.box_size();
        let _ = BoxHeader::new(self.box_type(), size).write(writer);
        self.write_fields(writer);
        let _ = self.hvcc.write_box(writer);
        proof {
            lemma_append_box(
                old(writer)@,
                BoxType::Hev1Box,
                self@.spec_size(),
                self@.spec_fields(),
                self@.hvcc.spec_encode(),
            );
        }
        Ok(size)
    }
}

/// Every unit of `list` is short enough for its length to fit the 16 bits
/// that the wire gives it.
pub open spec fn nals_fit(list: Seq<Seq<u8>>) -> bool {
    forall|i: int| 0 <= i < list.len() ==> (#[trigger] list[i]).len() <= 0xFFFF
}

proof fn lemma_nals_head(list: Seq<Seq<u8>>)
    requires
        list.len() > 0,
    ensures
        spec_nals(list) == NalUnit::spec_encode(list[0]) + spec_nals(list.skip(1)),
        spec_nals_size(list) == 2 + list[0].len() + spec_nals_size(list.skip(1)),
    decreases list.len(),
{
    if list.len() == 1 {
        assert(list.drop_last() =~= Seq::<Seq<u8>>::empty());
        assert(list.skip(1) =~= Seq::<Seq<u8>>::empty());
        assert(spec_nals(list) =~= NalUnit::spec_encode(list[0]) + spec_nals(list.skip(1)));
    } else {
        lemma_nals_head(list.drop_last());
        assert(list.drop_last().skip(1) =~= list.skip(1).drop_last());
        assert(spec_nals(list) =~= NalUnit::spec_encode(list[0]) + spec_nals(list.skip(1)));
    }
}

/// Units that stand on the wire one after the other, each short enough for
/// its length field, read back as themselves, whatever bytes stand before
/// and after them.
pub proof fn lemma_read_nals_round_trip(list: Seq<Seq<u8>>, pre: Seq<u8>, post: Seq<u8>)
    requires
        nals_fit(list),
    ensures
        spec_read_nals(pre + spec_nals(list) + post, pre.len() as int, list.len()) == Ok::<
            (Seq<Seq<u8>>, int),
            Error,
        >((list, pre.len() as int + spec_nals_size(list))),
    decreases list.len(),
{
    let s = pre + spec_nals(list) + post;
    if list.len() > 0 {
        let first = NalUnit::spec_encode(list[0]);
        let rest = list.skip(1);
        lemma_nals_head(list);
        NalUnit::lemma_read_write_round_trip(list[0], pre, spec_nals(rest) + post);
        assert(s =~= pre + first + (spec_nals(rest) + post));
        assert(nals_fit(rest)) by {
            assert forall|i: int| 0 <= i < rest.len() implies (#[trigger] rest[i]).len()
                <= 0xFFFF by {
                assert(rest[i] == list[i + 1]);
            }
        }
        lemma_read_nals_round_trip(rest, pre + first, post);
        assert(s =~= (pre + first) + spec_nals(rest) + post);
        assert(seq![list[0]] + rest =~= list);
    } else {
        assert(list =~= Seq::<Seq<u8>>::empty());
    }
}

impl HvcCView {
    /// The bytes of a body in the layout that `read_box` takes: `fields`,
    /// then each list after one byte that counts its units, in the order
    /// video, sequence, picture, then `tail`. The byte before the sequence
    /// parameter sets is `sps_count`.
    pub open spec fn spec_counted_body(self, fields: Seq<u8>, sps_count: u8, tail: Seq<u8>) -> Seq<
        u8,
    > {
        fields + seq![self.video_parameter_sets.len() as u8] + spec_nals(self.video_parameter_sets)
            + seq![sps_count] + spec_nals(self.sequence_parameter_sets) + seq![
            self.picture_parameter_sets.len() as u8,
        ] + spec_nals(self.picture_parameter_sets) + tail
    }

    /// `read_box` reads a body in its own layout as what the body was made
    /// of: the first of the 23 bytes of fields is the version, and the rest
    /// of them as well as every byte after the third list are passed over.
    /// Of the byte that counts the sequence parameter sets only the low five
    /// bits count.
    pub proof fn lemma_read_counted_body(self, fields: Seq<u8>, sps_count: u8, tail: Seq<u8>)
        requires
            fields.len() == 23,
            fields[0] == self.configuration_version,
            self.video_parameter_sets.len() <= 0xFF,
            self.picture_parameter_sets.len() <= 0xFF,
            sps_count & 0x1F == self.sequence_parameter_sets.len(),
            nals_fit(self.video_parameter_sets),
            nals_fit(self.sequence_parameter_sets),
            nals_fit(self.picture_parameter_sets),
        ensures
            HvcCBox::spec_read_body(self.spec_counted_body(fields, sps_count, tail)) == Ok::<
                HvcCView,
                Error,
            >(self),
    {
        let body = self.spec_counted_body(fields, sps_count, tail);
        let vps = self.video_parameter_sets;
        let sps = self.sequence_parameter_sets;
        let pps = self.picture_parameter_sets;
        let nv = seq![vps.len() as u8];
        let ns = seq![sps_count];
        let np = seq![pps.len() as u8];
        lemma_nals_len(vps);
        lemma_nals_len(sps);
        lemma_nals_len(pps);

        let pre_v = fields + nv;
        lemma_read_nals_round_trip(vps, pre_v, ns + spec_nals(sps) + np + spec_nals(pps) + tail);
        assert(body =~= pre_v + spec_nals(vps) + (ns + spec_nals(sps) + np + spec_nals(pps) + tail));
        assert(body[23] == vps.len() as u8);

        let pre_s = pre_v + spec_nals(vps) + ns;
        lemma_read_nals_round_trip(sps, pre_s, np + spec_nals(pps) + tail);
        assert(body =~= pre_s + spec_nals(sps) + (np + spec_nals(pps) + tail));
        assert(body[pre_s.len() - 1] == sps_count);

        let pre_p = pre_s + spec_nals(sps) + np;
        lemma_read_nals_round_trip(pps, pre_p, tail);
        assert(body =~= pre_p + spec_nals(pps) + tail);
        assert(body[pre_p.len() - 1] == pps.len() as u8);
    }
}

/// Reading `count` units gives `count` units, if it gives any.
pub proof fn lemma_read_nals_count(bytes: Seq<u8>, pos: int, count: nat)
    ensures
        spec_read_nals(bytes, pos, count) matches Ok((units, end)) ==> units.len() == count,
    decreases count,
{
    if count > 0 {
        match NalUnit::spec_read(bytes, pos) {
            Err(e) => {},
            Ok((unit, next)) => {
                lemma_read_nals_count(bytes, next, (count - 1) as nat);
            },
        }
    }
}

impl HvcCView {
    /// The layout that `write_box` emits is not the one that `read_box`
    /// takes: where `read_box` takes the number of video parameter sets
    /// stands the byte that opens the first written array, which is 160. So
    /// whatever reading a written body gives holds 160 video parameter sets,
    /// and a box that holds another number of them is not read back as
    /// itself.
    pub proof fn lemma_read_of_written_body(self)
        ensures
            HvcCBox::spec_read_body(self.spec_body()) matches Ok(read)
                ==> read.video_parameter_sets.len() == 160,
            self.video_parameter_sets.len() != 160 ==> HvcCBox::spec_read_body(self.spec_body())
                != Ok::<HvcCView, Error>(self),
    {
        let body = self.spec_body();
        let arrays = spec_array(VPS_NAL_TYPE, self.video_parameter_sets) + spec_array(
            SPS_NAL_TYPE,
            self.sequence_parameter_sets,
        ) + spec_array(PPS_NAL_TYPE, self.picture_parameter_sets);
        assert(body =~= self.spec_fields() + arrays);
        assert(self.spec_fields().len() == 23);
        assert(body[23] == spec_array_header(VPS_NAL_TYPE));
        lemma_read_nals_count(body, 24, 160);
    }
}

impl Hev1View {
    /// The fields that `write_box` emits read back as they were written,
    /// whatever follows them.
    pub proof fn lemma_read_fields(self, rest: Seq<u8>)
        ensures
            self.spec_fields().len() == 78,
            u16_at(self.spec_fields() + rest, 6) == self.data_reference_index,
            u16_at(self.spec_fields() + rest, 24) == self.width,
            u16_at(self.spec_fields() + rest, 26) == self.height,
            u32_at(self.spec_fields() + rest, 28) == self.horizresolution.raw,
            u32_at(self.spec_fields() + rest, 32) == self.vertresolution.raw,
            u16_at(self.spec_fields() + rest, 40) == self.frame_count,
            u16_at(self.spec_fields() + rest, 74) == self.depth,
    {
        reveal(Hev1View::spec_fields);
        let body = self.spec_fields() + rest;
        let a = be32(0) + be16(0);
        let b = be16(self.data_reference_index);
        let c = be32(0) + be64(0) + be32(0);
        let d = be16(self.width);
        let e = be16(self.height);
        let f = be32(self.horizresolution.raw);
        let g = be32(self.vertresolution.raw);
        let h = be32(0);
        let i = be16(self.frame_count);
        let j = zeros(32);
        let k = be16(self.depth);
        let l = be16_signed(-1i16) + rest;
        lemma_u16_round_trip(a, self.data_reference_index, c + d + e + f + g + h + i + j + k + l);
        assert(body =~= a + b + (c + d + e + f + g + h + i + j + k + l));
        lemma_u16_round_trip(a + b + c, self.width, e + f + g + h + i + j + k + l);
        assert(body =~= (a + b + c) + d + (e + f + g + h + i + j + k + l));
        lemma_u16_round_trip(a + b + c + d, self.height, f + g + h + i + j + k + l);
        assert(body =~= (a + b + c + d) + e + (f + g + h + i + j + k + l));
        lemma_u32_round_trip(a + b + c + d + e, self.horizresolution.raw, g + h + i + j + k + l);
        assert(body =~= (a + b + c + d + e) + f + (g + h + i + j + k + l));
        lemma_u32_round_trip(a + b + c + d + e + f, self.vertresolution.raw, h + i + j + k + l);
        assert(body =~= (a + b + c + d + e + f) + g + (h + i + j + k + l));
        lemma_u16_round_trip(a + b + c + d + e + f + g + h, self.frame_count, j + k + l);
        assert(body =~= (a + b + c + d + e + f + g + h) + i + (j + k + l));
        lemma_u16_round_trip(a + b + c + d + e + f + g + h + i + j, self.depth, l);
        assert(body =~= (a + b + c + d + e + f + g + h + i + j) + k + l);
    }

    /// `read_box` reads the fields that `write_box` emits, followed by a
    /// configuration box whose body is in the layout that `read_box` takes,
    /// as what they were made of. Bytes after the configuration box are
    /// passed over.
    pub proof fn lemma_read_counted_body(
        self,
        config_fields: Seq<u8>,
        sps_count: u8,
        config_tail: Seq<u8>,
        tail: Seq<u8>,
    )
        requires
            config_fields.len() == 23,
            config_fields[0] == self.hvcc.configuration_version,
            self.hvcc.video_parameter_sets.len() <= 0xFF,
            self.hvcc.picture_parameter_sets.len() <= 0xFF,
            sps_count & 0x1F == self.hvcc.sequence_parameter_sets.len(),
            nals_fit(self.hvcc.video_parameter_sets),
            nals_fit(self.hvcc.sequence_parameter_sets),
            nals_fit(self.hvcc.picture_parameter_sets),
            HEADER_SIZE + self.hvcc.spec_counted_body(config_fields, sps_count, config_tail).len()
                <= u32::MAX,
        ensures
            Hev1Box::spec_read_body(
                self.spec_fields() + spec_raw_box(
                    BoxType::HvcCBox,
                    self.hvcc.spec_counted_body(config_fields, sps_count, config_tail),
                ) + tail,
            ) == Ok::<Hev1View, Error>(self),
    {
        let config = self.hvcc.spec_counted_body(config_fields, sps_count, config_tail);
        let child = spec_raw_box(BoxType::HvcCBox, config);
        self.lemma_read_fields(child + tail);
        assert(self.spec_fields() + child + tail =~= self.spec_fields() + (child + tail));
        lemma_raw_round_trip(BoxType::HvcCBox, config, self.spec_fields(), tail);
        self.hvcc.lemma_read_counted_body(config_fields, sps_count, config_tail);
    }
}

/// A sample entry whose fields are followed by a box of another kind than
/// `hvcC` does not read, whatever that box holds.
pub proof fn lemma_wrong_configuration_kind(
    fields: Seq<u8>,
    name: BoxType,
    child: Seq<u8>,
    tail: Seq<u8>,
)
    requires
        fields.len() == 78,
        name.is_canonical(),
        name != BoxType::HvcCBox,
        spec_raw_size(child) <= u32::MAX,
    ensures
        Hev1Box::spec_read_body(fields + spec_raw_box(name, child) + tail) == Err::<
            Hev1View,
            Error,
        >(Error::InvalidData("hvcc not found")),
{
    lemma_raw_round_trip(name, child, fields, tail);
}

} // verus!
