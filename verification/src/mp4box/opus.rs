//! `Opus`: the sample entry of an Opus audio track, and `dOps`, the decoder
//! configuration that it holds.

use crate::boxtype::BoxType;
use crate::endian::{
    be16, be16_signed, be32, be64, i16_at, lemma_i16_round_trip, lemma_u16_round_trip,
    lemma_u32_round_trip, put_i16, put_u16, put_u32, put_u64, put_u8, u16_at, u32_at,
};
use crate::error::Error;
use crate::fixed::FixedPointU16;
use crate::mp4box::codec::Mp4Box;
use crate::mp4box::header::{
    box_body, lemma_box_frame, spec_box, spec_box_body, BoxHeader, HEADER_SIZE,
};
use crate::mp4box::raw::{lemma_raw_round_trip, spec_raw_box, spec_raw_size};
use crate::reader::Reader;
use crate::text::{append_decimal, spec_decimal};
use crate::types::OpusConfig;
use vstd::prelude::*;
use vstd::string::StringExecFns;

verus! {

/// How the coded channels map to output channels. The layout of `dOps` in
/// this crate has no place for it: it is neither read nor written.
#[derive(Debug, Clone, PartialEq, Eq)]
pub struct ChannelMappingTable {
    pub stream_count: u8,
    pub coupled_count: u8,
    pub channel_mapping: Vec<u8>,
}

impl Default for ChannelMappingTable {
    fn default() -> (t: ChannelMappingTable)
        ensures
            t.stream_count == 0,
            t.coupled_count == 0,
            t.channel_mapping@ == Seq::<u8>::empty(),
    {
        ChannelMappingTable { stream_count: 0, coupled_count: 0, channel_mapping: Vec::new() }
    }
}

/// `dOps`: the Opus decoder configuration.
#[derive(Debug, Clone, PartialEq, Eq)]
pub struct DopsBox {
    pub version: u8,
    pub channel_count: u8,
    pub pre_skip: u16,
    /// The sample rate of the input, for information. It is read and written
    /// most significant byte first, like every other field.
    pub sample_rate: u32,
    /// The gain to apply when decoding, in dB as a signed 7.8 fixed-point
    /// number.
    pub output_gain: i16,
    pub channel_mapping_family: u8,
    /// Never read and never written: see `ChannelMappingTable`.
    pub channel_mapping_table: Option<ChannelMappingTable>,
}

impl Default for DopsBox {
    fn default() -> (b: DopsBox)
        ensures
            b == (DopsBox {
                version: 0,
                channel_count: 0,
                pre_skip: 0,
                sample_rate: 0,
                output_gain: 0,
                channel_mapping_family: 0,
                channel_mapping_table: None,
            }),
    {
        DopsBox {
            version: 0,
            channel_count: 0,
            pre_skip: 0,
            sample_rate: 0,
            output_gain: 0,
            channel_mapping_family: 0,
            channel_mapping_table: None,
        }
    }
}

impl DopsBox {
    /// The length of the whole box: the header and eleven bytes of fields.
    pub open spec fn spec_size(self) -> nat {
        19
    }

    /// The bytes after the header.
    pub open spec fn spec_body(self) -> Seq<u8> {
        seq![self.version, self.channel_count] + be16(self.pre_skip) + be32(self.sample_rate)
            + be16_signed(self.output_gain) + seq![self.channel_mapping_family]
    }

    /// The bytes of the whole box.
    pub open spec fn spec_encode(self) -> Seq<u8> {
        spec_box(BoxType::DopsBox, self.spec_size(), self.spec_body())
    }

    /// The box whose body is `body`. Bytes after the eleven that the fields
    /// take are not looked at.
    pub open spec fn spec_read_body(body: Seq<u8>) -> Result<DopsBox, Error> {
        if body.len() < 11 {
            Err(Error::UnexpectedEof)
        } else {
            Ok(
                DopsBox {
                    version: body[0],
                    channel_count: body[1],
                    pre_skip: u16_at(body, 2),
                    sample_rate: u32_at(body, 4),
                    output_gain: i16_at(body, 8),
                    channel_mapping_family: body[10],
                    channel_mapping_table: None,
                },
            )
        }
    }

    /// The box of declared size `size` whose header ends at offset `pos` of
    /// `bytes`.
    pub open spec fn spec_read_box(bytes: Seq<u8>, pos: int, size: u64) -> Result<DopsBox, Error> {
        match spec_box_body(bytes, pos, size) {
            Ok(body) => Self::spec_read_body(body),
            Err(e) => Err(e),
        }
    }

    /// The configuration of a stream: version 0, no gain, mapping family 0.
    pub fn new(config: &OpusConfig) -> (b: DopsBox)
        ensures
            b == (DopsBox {
                version: 0,
                channel_count: config.chan_conf.spec_value(),
                pre_skip: config.pre_skip,
                sample_rate: config.freq_index.spec_freq(),
                output_gain: 0,
                channel_mapping_family: 0,
                channel_mapping_table: None,
            }),
    {
        DopsBox {
            version: 0,
            channel_count: config.chan_conf.value(),
            pre_skip: config.pre_skip,
            sample_rate: config.freq_index.freq(),
            output_gain: 0,
            channel_mapping_family: 0,
            channel_mapping_table: None,
        }
    }

    /// What `write_box` emits, `read_box` reads back as the same box, whatever
    /// bytes stand before and after it. A box with a channel mapping table is
    /// left out: the table is not written.
    pub proof fn lemma_read_write_round_trip(self, pre: Seq<u8>, post: Seq<u8>)
        requires
            self.channel_mapping_table is None,
        ensures
            self.spec_encode().len() == self.spec_size(),
            BoxHeader::spec_read(pre + self.spec_encode() + post, pre.len() as int) == Ok::<
                (BoxHeader, int),
                Error,
            >((BoxHeader { name: BoxType::DopsBox, size: self.spec_size() as u64 }, 8)),
            Self::spec_read_box(
                pre + self.spec_encode() + post,
                pre.len() + HEADER_SIZE,
                self.spec_size() as u64,
            ) == Ok::<DopsBox, Error>(self),
    {
        let body = self.spec_body();
        lemma_box_frame(BoxType::DopsBox, body, pre, post);
        let a = seq![self.version, self.channel_count];
        let b = be16(self.pre_skip);
        let c = be32(self.sample_rate);
        let d = be16_signed(self.output_gain);
        let e = seq![self.channel_mapping_family];
        lemma_u16_round_trip(a, self.pre_skip, c + d + e);
        assert(body =~= a + b + (c + d + e));
        lemma_u32_round_trip(a + b, self.sample_rate, d + e);
        assert(body =~= (a + b) + c + (d + e));
        lemma_i16_round_trip(a + b + c, self.output_gain, e);
    }
}

impl Mp4Box for DopsBox {
    type Content = DopsBox;

    open spec fn content(&self) -> DopsBox {
        *self
    }

    open spec fn spec_box_type() -> BoxType {
        BoxType::DopsBox
    }

    open spec fn spec_box_size(content: DopsBox) -> nat {
        content.spec_size()
    }

    open spec fn spec_box_bytes(content: DopsBox) -> Seq<u8> {
        content.spec_body()
    }

    open spec fn spec_writable(content: DopsBox) -> bool {
        true
    }

    open spec fn spec_from_body(body: Seq<u8>) -> Result<DopsBox, Error> {
        DopsBox::spec_read_body(body)
    }

    open spec fn spec_box_summary(content: DopsBox) -> Seq<char> {
        Seq::empty()
    }

    /// The kind of this box.
    fn box_type(&self) -> (t: BoxType) {
        BoxType::DopsBox
    }

    /// The size of the whole box.
    fn box_size(&self) -> (n: u64) {
        HEADER_SIZE + 11
    }

    /// A one-line description, which for this box is empty.
    fn summary(&self) -> (r: Result<String, Error>) {
        Ok(String::new())
    }

    /// Reads the box whose header has just been read and declared `size`
    /// bytes. On success the reader stands at the end of the box; on failure
    /// it has not moved. What is read is stated with `Mp4Box::read_box`: it is
    /// `DopsBox::spec_read_body` of the bytes that the header announces.
    fn read_box(reader: &mut Reader, size: u64) -> (r: Result<DopsBox, Error>) {
        let mut cur = *reader;
        let mut body = box_body(&mut cur, size)?;
        let version = body.read_u8()?;
        let channel_count = body.read_u8()?;
        let pre_skip = body.read_u16()?;
        let sample_rate = body.read_u32()?;
        let output_gain = body.read_i16()?;
        let channel_mapping_family = body.read_u8()?;
        *reader = cur;
        Ok(
            DopsBox {
                version,
                channel_count,
                pre_skip,
                sample_rate,
                output_gain,
                channel_mapping_family,
                channel_mapping_table: None,
            },
        )
    }

    /// Appends the box to `writer` and returns its size. What is appended is
    /// stated with `Mp4Box::write_box`: it is `DopsBox::spec_encode`.
    fn write_box(&self, writer: &mut Vec<u8>) -> (r: Result<u64, Error>) {
        let size = self.box_size();
        let _ = BoxHeader::new(self.box_type(), size).write(writer);
        put_u8(writer, self.version);
        put_u8(writer, self.channel_count);
        put_u16(writer, self.pre_skip);
        put_u32(writer, self.sample_rate);
        put_i16(writer, self.output_gain);
        put_u8(writer, self.channel_mapping_family);
        Ok(size)
    }
}

/// `Opus`: the sample entry of an Opus track.
#[derive(Debug, Clone, PartialEq, Eq)]
pub struct OpusBox {
    pub data_reference_index: u16,
    pub channelcount: u16,
    pub samplesize: u16,
    pub samplerate: FixedPointU16,
    pub dops: DopsBox,
}

impl Default for OpusBox {
    fn default() -> (b: OpusBox)
        ensures
            b == (OpusBox {
                data_reference_index: 0,
                channelcount: 2,
                samplesize: 16,
                samplerate: FixedPointU16 { raw: 0xBB80_0000 },
                dops: DopsBox {
                    version: 0,
                    channel_count: 0,
                    pre_skip: 0,
                    sample_rate: 0,
                    output_gain: 0,
                    channel_mapping_family: 0,
                    channel_mapping_table: None,
                },
            }),
    {
        OpusBox {
            data_reference_index: 0,
            channelcount: 2,
            samplesize: 16,
            samplerate: FixedPointU16::new(48000),
            dops: DopsBox::default(),
        }
    }
}

impl OpusBox {
    /// The length of the whole box: the header, 28 bytes of fields, and the
    /// configuration.
    pub open spec fn spec_size(self) -> nat {
        8 + 8 + 20 + self.dops.spec_size()
    }

    /// The fields between the header and the configuration.
    pub open spec fn spec_fields(self) -> Seq<u8> {
        be32(0) + be16(0) + be16(self.data_reference_index) + be64(0) + be16(self.channelcount)
            + be16(self.samplesize) + be32(0) + be32(self.samplerate.raw)
    }

    /// The bytes after the header: the fields, then the configuration box.
    pub open spec fn spec_body(self) -> Seq<u8> {
        self.spec_fields() + self.dops.spec_encode()
    }

    /// The bytes of the whole box.
    pub open spec fn spec_encode(self) -> Seq<u8> {
        spec_box(BoxType::OpusBox, self.spec_size(), self.spec_body())
    }

    /// The box whose body is `body`: 28 bytes of fields, then a box that
    /// must be a `dOps`. Bytes after that box are not looked at.
    pub open spec fn spec_read_body(body: Seq<u8>) -> Result<OpusBox, Error> {
        if body.len() < 28 {
            Err(Error::UnexpectedEof)
        } else {
            match BoxHeader::spec_read(body, 28) {
                Err(e) => Err(e),
                Ok((header, n)) => if header.name != BoxType::DopsBox {
                    Err(Error::InvalidData("dops not found"))
                } else {
                    match DopsBox::spec_read_box(body, 28 + n, header.size) {
                        Err(e) => Err(e),
                        Ok(dops) => Ok(
                            OpusBox {
                                data_reference_index: u16_at(body, 6),
                                channelcount: u16_at(body, 16),
                                samplesize: u16_at(body, 18),
                                samplerate: FixedPointU16 { raw: u32_at(body, 24) },
                                dops,
                            },
                        ),
                    }
                },
            }
        }
    }

    /// The box of declared size `size` whose header ends at offset `pos` of
    /// `bytes`.
    pub open spec fn spec_read_box(bytes: Seq<u8>, pos: int, size: u64) -> Result<OpusBox, Error> {
        match spec_box_body(bytes, pos, size) {
            Ok(body) => Self::spec_read_body(body),
            Err(e) => Err(e),
        }
    }

    /// The sample entry of a stream: 16-bit samples, and the frequency of
    /// the stream, cut to its low 16 bits, as the sample rate.
    pub fn new(config: &OpusConfig) -> (b: OpusBox)
        ensures
            b == (OpusBox {
                data_reference_index: 1,
                channelcount: config.chan_conf.spec_value() as u16,
                samplesize: 16,
                samplerate: FixedPointU16 {
                    raw: ((config.freq_index.spec_freq() % 0x1_0000) * 0x1_0000) as u32,
                },
                dops: DopsBox {
                    version: 0,
                    channel_count: config.chan_conf.spec_value(),
                    pre_skip: config.pre_skip,
                    sample_rate: config.freq_index.spec_freq(),
                    output_gain: 0,
                    channel_mapping_family: 0,
                    channel_mapping_table: None,
                },
            }),
    {
        let freq = config.freq_index.freq();
        assert(freq as u16 == freq % 0x1_0000) by (bit_vector);
        OpusBox {
            data_reference_index: 1,
            channelcount: config.chan_conf.value() as u16,
            samplesize: 16,
            samplerate: FixedPointU16::new(#[verifier::truncate] (freq as u16)),
            dops: DopsBox::new(config),
        }
    }

    /// The kind of this box.
    pub fn get_type(&self) -> (t: BoxType)
        ensures
            t == BoxType::OpusBox,
    {
        BoxType::OpusBox
    }

    /// The size of the whole box.
    pub fn get_size(&self) -> (n: u64)
        ensures
            n == self.spec_size(),
    {
        let mut size: u64 = HEADER_SIZE + 8 + 20;
        size += self.dops.box_size();
        size
    }

    /// What `summary` returns.
    pub open spec fn spec_summary(self) -> Seq<char> {
        "channel_count="@ + spec_decimal(self.channelcount as nat) + " sample_size="@
            + spec_decimal(self.samplesize as nat) + " sample_rate="@ + spec_decimal(
            self.samplerate.spec_value() as nat,
        )
    }

    /// What `write_box` emits, `read_box` reads back as the same box, whatever
    /// bytes stand before and after it. A box with a channel mapping table is
    /// left out: the table is not written.
    pub proof fn lemma_read_write_round_trip(self, pre: Seq<u8>, post: Seq<u8>)
        requires
            self.dops.channel_mapping_table is None,
        ensures
            self.spec_encode().len() == self.spec_size(),
            BoxHeader::spec_read(pre + self.spec_encode() + post, pre.len() as int) == Ok::<
                (BoxHeader, int),
                Error,
            >((BoxHeader { name: BoxType::OpusBox, size: self.spec_size() as u64 }, 8)),
            Self::spec_read_box(
                pre + self.spec_encode() + post,
                pre.len() + HEADER_SIZE,
                self.spec_size() as u64,
            ) == Ok::<OpusBox, Error>(self),
    {
        let body = self.spec_body();
        let fields = self.spec_fields();
        let child = self.dops.spec_encode();
        self.dops.lemma_read_write_round_trip(fields, Seq::empty());
        assert(body =~= fields + child + Seq::empty());
        lemma_box_frame(BoxType::OpusBox, body, pre, post);
        let f0 = be32(0) + be16(0);
        let f1 = be64(0);
        let f2 = be32(0);
        lemma_u16_round_trip(
            f0,
            self.data_reference_index,
            f1 + be16(self.channelcount) + be16(self.samplesize) + f2 + be32(self.samplerate.raw)
                + child,
        );
        assert(body =~= f0 + be16(self.data_reference_index) + (f1 + be16(self.channelcount) + be16(
            self.samplesize,
        ) + f2 + be32(self.samplerate.raw) + child));
        let g0 = f0 + be16(self.data_reference_index) + f1;
        lemma_u16_round_trip(
            g0,
            self.channelcount,
            be16(self.samplesize) + f2 + be32(self.samplerate.raw) + child,
        );
        assert(body =~= g0 + be16(self.channelcount) + (be16(self.samplesize) + f2 + be32(
            self.samplerate.raw,
        ) + child));
        let g1 = g0 + be16(self.channelcount);
        lemma_u16_round_trip(g1, self.samplesize, f2 + be32(self.samplerate.raw) + child);
        assert(body =~= g1 + be16(self.samplesize) + (f2 + be32(self.samplerate.raw) + child));
        let g2 = g1 + be16(self.samplesize) + f2;
        lemma_u32_round_trip(g2, self.samplerate.raw, child);
        assert(body =~= g2 + be32(self.samplerate.raw) + child);
    }
}

impl Mp4Box for OpusBox {
    type Content = OpusBox;

    open spec fn content(&self) -> OpusBox {
        *self
    }

    open spec fn spec_box_type() -> BoxType {
        BoxType::OpusBox
    }

    open spec fn spec_box_size(content: OpusBox) -> nat {
        content.spec_size()
    }

    open spec fn spec_box_bytes(content: OpusBox) -> Seq<u8> {
        content.spec_body()
    }

    open spec fn spec_writable(content: OpusBox) -> bool {
        true
    }

    open spec fn spec_from_body(body: Seq<u8>) -> Result<OpusBox, Error> {
        OpusBox::spec_read_body(body)
    }

    open spec fn spec_box_summary(content: OpusBox) -> Seq<char> {
        content.spec_summary()
    }

    /// The kind of this box.
    fn box_type(&self) -> (t: BoxType) {
        self.get_type()
    }

    /// The size of the whole box.
    fn box_size(&self) -> (n: u64) {
        self.get_size()
    }

    /// A one-line description: the channel count, the sample size and the
    /// integer part of the sample rate.
    fn summary(&self) -> (r: Result<String, Error>) {
        let mut s = String::from_str("channel_count=");
        append_decimal(&mut s, self.channelcount as u64);
        s.append(" sample_size=");
        append_decimal(&mut s, self.samplesize as u64);
        s.append(" sample_rate=");
        append_decimal(&mut s, self.samplerate.value() as u64);
        Ok(s)
    }

    /// Reads the box whose header has just been read and declared `size`
    /// bytes. On success the reader stands at the end of the box; on failure
    /// it has not moved. What is read is stated with `Mp4Box::read_box`: it is
    /// `OpusBox::spec_read_body` of the bytes that the header announces.
    fn read_box(reader: &mut Reader, size: u64) -> (r: Result<OpusBox, Error>) {
        let mut cur = *reader;
        let mut body = box_body(&mut cur, size)?;
        let _ = body.read_u32()?;
        let _ = body.read_u16()?;
        let data_reference_index = body.read_u16()?;
        let _ = body.read_u16()?;
        let _ = body.read_u16()?;
        let _ = body.read_u32()?;
        let channelcount = body.read_u16()?;
        let samplesize = body.read_u16()?;
        let _ = body.read_u32()?;
        let samplerate = FixedPointU16::new_raw(body.read_u32()?);
        let header = BoxHeader::read(&mut body)?;
        if header.name != BoxType::DopsBox {
            return Err(Error::InvalidData("dops not found"));
        }
        let dops = DopsBox::read_box(&mut body, header.size)?;
        *reader = cur;
        Ok(OpusBox { data_reference_index, channelcount, samplesize, samplerate, dops })
    }

    /// Appends the box to `writer` and returns its size. What is appended is
    /// stated with `Mp4Box::write_box`: it is `OpusBox::spec_encode`.
    fn write_box(&self, writer: &mut Vec<u8>) -> (r: Result<u64, Error>) {
        let size = self.box_size();
        let _ = BoxHeader::new(self.box_type(), size).write(writer);
        put_u32(writer, 0);
        put_u16(writer, 0);
        put_u16(writer, self.data_reference_index);
        put_u64(writer, 0);
        put_u16(writer, self.channelcount);
        put_u16(writer, self.samplesize);
        put_u32(writer, 0);
        put_u32(writer, self.samplerate.raw_value());
        let _ = self.dops.write_box(writer);
        Ok(size)
    }
}

/// A sample entry whose fields are followed by a box of another kind than
/// `dOps` does not read, whatever that box holds.
pub proof fn lemma_wrong_configuration_kind(
    fields: Seq<u8>,
    name: BoxType,
    child: Seq<u8>,
    tail: Seq<u8>,
)
    requires
        fields.len() == 28,
        name.is_canonical(),
        name != BoxType::DopsBox,
        spec_raw_size(child) <= u32::MAX,
    ensures
        OpusBox::spec_read_body(fields + spec_raw_box(name, child) + tail) == Err::<
            OpusBox,
            Error,
        >(Error::InvalidData("dops not found")),
{
    lemma_raw_round_trip(name, child, fields, tail);
}

} // verus!
