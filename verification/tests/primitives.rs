use mp4::mp4box::{
    box_body, read_box_header_ext, skip_box, skip_bytes, skip_bytes_to, write_box_header_ext,
    write_zeros, BoxHeader, HEADER_EXT_SIZE, HEADER_SIZE,
};
use mp4::text::append_decimal;
use mp4::{
    BoxType, ChannelConfig, Error, FixedPointU16, FixedPointU8, Reader, SampleFreqIndex,
};

#[test]
fn reader_reads_big_endian_integers_of_every_width() {
    let data: Vec<u8> = (1u8..=32).collect();
    let mut reader = Reader::new(&data);
    assert_eq!(reader.read_u8(), Ok(0x01));
    assert_eq!(reader.read_u16(), Ok(0x0203));
    assert_eq!(reader.read_u24(), Ok(0x0004_0506));
    assert_eq!(reader.read_u32(), Ok(0x0708_090a));
    assert_eq!(reader.read_u48(), Ok(0x0b0c_0d0e_0f10));
    assert_eq!(reader.read_u64(), Ok(0x1112_1314_1516_1718));
    assert_eq!(reader.read_i16(), Ok(0x191a));
    assert_eq!(reader.position(), 26);
    assert_eq!(reader.remaining_len(), 6);
    assert_eq!(reader.read_bytes(3), Ok(vec![0x1b, 0x1c, 0x1d]));
    assert_eq!(reader.position(), 29);
}

#[test]
fn reader_reads_negative_sixteen_bit_values() {
    let data = [0xff, 0xff, 0x80, 0x00, 0xff, 0x00];
    let mut reader = Reader::new(&data);
    assert_eq!(reader.read_i16(), Ok(-1));
    assert_eq!(reader.read_i16(), Ok(i16::MIN));
    assert_eq!(reader.read_i16(), Ok(-256));
}

#[test]
fn reader_fails_without_moving_when_bytes_run_out() {
    let data = [0xaa, 0xbb, 0xcc];
    let mut reader = Reader::new(&data);
    assert_eq!(reader.read_u32(), Err(Error::UnexpectedEof));
    assert_eq!(reader.read_u48(), Err(Error::UnexpectedEof));
    assert_eq!(reader.read_u64(), Err(Error::UnexpectedEof));
    assert_eq!(reader.read_bytes(4), Err(Error::UnexpectedEof));
    assert_eq!(reader.position(), 0);
    assert_eq!(reader.read_u24(), Ok(0x00aa_bbcc));
    assert_eq!(reader.read_u8(), Err(Error::UnexpectedEof));
    assert_eq!(reader.read_u16(), Err(Error::UnexpectedEof));
    assert_eq!(reader.read_i16(), Err(Error::UnexpectedEof));
    assert_eq!(reader.read_u24(), Err(Error::UnexpectedEof));
    assert_eq!(reader.read_bytes(0), Ok(vec![]));
    assert_eq!(reader.position(), 3);
}

#[test]
fn reader_take_splits_off_a_window() {
    let data = [1u8, 2, 3, 4, 5, 6];
    let mut reader = Reader::new(&data);
    assert_eq!(reader.read_u8(), Ok(1));
    let mut window = reader.take(3).unwrap();
    assert_eq!(reader.position(), 4);
    assert_eq!(window.position(), 0);
    assert_eq!(window.remaining_len(), 3);
    assert_eq!(window.read_u16(), Ok(0x0203));
    assert_eq!(window.read_u16(), Err(Error::UnexpectedEof));
    assert_eq!(window.read_u8(), Ok(4));
    assert_eq!(reader.read_u16(), Ok(0x0506));
    assert!(reader.take(1).is_err());
    assert!(reader.take(0).is_ok());
}

#[test]
fn skip_helpers_move_forward_only_and_within_the_bytes() {
    let data = [0u8; 10];
    let mut reader = Reader::new(&data);
    assert_eq!(skip_bytes(&mut reader, 4), Ok(()));
    assert_eq!(reader.position(), 4);
    assert_eq!(skip_bytes(&mut reader, 7), Err(Error::UnexpectedEof));
    assert_eq!(reader.position(), 4);
    assert_eq!(skip_bytes_to(&mut reader, 9), Ok(()));
    assert_eq!(reader.position(), 9);
    assert_eq!(
        skip_bytes_to(&mut reader, 3),
        Err(Error::InvalidData("cannot skip backwards"))
    );
    assert_eq!(skip_bytes_to(&mut reader, 11), Err(Error::UnexpectedEof));
    assert_eq!(skip_bytes_to(&mut reader, 10), Ok(()));
    assert_eq!(reader.position(), 10);
    assert_eq!(skip_bytes(&mut reader, 0), Ok(()));
    assert_eq!(skip_bytes(&mut reader, u64::MAX), Err(Error::UnexpectedEof));
}

#[test]
fn write_zeros_appends_zero_bytes() {
    let mut buf = vec![7u8];
    assert_eq!(write_zeros(&mut buf, 3), Ok(()));
    assert_eq!(buf, vec![7, 0, 0, 0]);
    assert_eq!(write_zeros(&mut buf, 0), Ok(()));
    assert_eq!(buf.len(), 4);
}

#[test]
fn header_is_size_then_tag() {
    let mut buf = Vec::new();
    let header = BoxHeader::new(BoxType::TrakBox, 0x0102_0304);
    assert_eq!(header.write(&mut buf), Ok(8));
    assert_eq!(buf, vec![0x01, 0x02, 0x03, 0x04, b't', b'r', b'a', b'k']);
    let mut reader = Reader::new(&buf);
    assert_eq!(BoxHeader::read(&mut reader), Ok(header));
    assert_eq!(reader.position(), 8);
}

#[test]
fn header_round_trips_in_the_extended_form() {
    let size = u32::MAX as u64 + 1;
    let header = BoxHeader::new(BoxType::MdiaBox, size);
    let mut buf = Vec::new();
    assert_eq!(header.write(&mut buf), Ok(16));
    assert_eq!(
        buf,
        vec![0, 0, 0, 1, b'm', b'd', b'i', b'a', 0, 0, 0, 1, 0, 0, 0, 0]
    );
    let mut reader = Reader::new(&buf);
    assert_eq!(BoxHeader::read(&mut reader), Ok(header));
    assert_eq!(reader.position(), 16);

    let largest = BoxHeader::new(BoxType::UnknownBox(0xdead_beef), u64::MAX);
    let mut buf = Vec::new();
    assert_eq!(largest.write(&mut buf), Ok(16));
    assert_eq!(BoxHeader::read(&mut Reader::new(&buf)), Ok(largest));
}

#[test]
fn header_of_the_largest_short_size_stays_short() {
    let header = BoxHeader::new(BoxType::Hev1Box, u32::MAX as u64);
    let mut buf = Vec::new();
    assert_eq!(header.write(&mut buf), Ok(8));
    assert_eq!(buf, vec![0xff, 0xff, 0xff, 0xff, b'h', b'e', b'v', b'1']);
    assert_eq!(BoxHeader::read(&mut Reader::new(&buf)), Ok(header));
}

#[test]
fn header_of_size_one_reads_as_the_extended_form() {
    let mut buf = Vec::new();
    BoxHeader::new(BoxType::TfdtBox, 1).write(&mut buf).unwrap();
    assert_eq!(buf.len(), 8);
    assert_eq!(
        BoxHeader::read(&mut Reader::new(&buf)),
        Err(Error::UnexpectedEof)
    );
    buf.extend_from_slice(&[0, 0, 0, 0, 0, 0, 0, 24]);
    assert_eq!(
        BoxHeader::read(&mut Reader::new(&buf)),
        Ok(BoxHeader::new(BoxType::TfdtBox, 24))
    );
}

#[test]
fn truncated_header_fails_without_moving() {
    let buf = [0u8, 0, 0, 16, b't', b'f', b'd'];
    let mut reader = Reader::new(&buf);
    assert_eq!(BoxHeader::read(&mut reader), Err(Error::UnexpectedEof));
    assert_eq!(reader.position(), 0);

    let large = [0u8, 0, 0, 1, b't', b'f', b'd', b't', 0, 0, 0];
    let mut reader = Reader::new(&large);
    assert_eq!(BoxHeader::read(&mut reader), Err(Error::UnexpectedEof));
    assert_eq!(reader.position(), 0);
}

#[test]
fn unknown_tag_is_kept() {
    let buf = [0u8, 0, 0, 8, b'f', b'r', b'e', b'e'];
    let header = BoxHeader::read(&mut Reader::new(&buf)).unwrap();
    assert_eq!(header.name, BoxType::UnknownBox(0x6672_6565));
    assert_eq!(header.size, 8);
    let mut out = Vec::new();
    header.write(&mut out).unwrap();
    assert_eq!(out, buf);
}

#[test]
fn header_extension_is_version_then_flags() {
    assert_eq!(HEADER_EXT_SIZE, 4);
    let mut buf = Vec::new();
    assert_eq!(write_box_header_ext(&mut buf, 1, 0x00ab_cdef), Ok(4));
    assert_eq!(buf, vec![0x01, 0xab, 0xcd, 0xef]);
    let mut reader = Reader::new(&buf);
    assert_eq!(read_box_header_ext(&mut reader), Ok((1, 0x00ab_cdef)));
    assert_eq!(reader.position(), 4);

    let short = [1u8, 2, 3];
    let mut reader = Reader::new(&short);
    assert_eq!(read_box_header_ext(&mut reader), Err(Error::UnexpectedEof));
    assert_eq!(reader.position(), 0);
}

#[test]
fn box_body_is_bounded_by_the_declared_size() {
    assert_eq!(HEADER_SIZE, 8);
    let data = [1u8, 2, 3, 4, 5];
    let mut reader = Reader::new(&data);
    let mut body = box_body(&mut reader, 11).unwrap();
    assert_eq!(reader.position(), 3);
    assert_eq!(body.read_bytes(3), Ok(vec![1, 2, 3]));
    assert_eq!(body.read_u8(), Err(Error::UnexpectedEof));

    assert_eq!(
        box_body(&mut reader, 7).err(),
        Some(Error::InvalidData("box size smaller than its header"))
    );
    assert_eq!(box_body(&mut reader, 11).err(), Some(Error::UnexpectedEof));
    assert_eq!(reader.position(), 3);
    assert!(box_body(&mut reader, 8).is_ok());
    assert_eq!(reader.position(), 3);
    assert!(box_body(&mut reader, 10).is_ok());
    assert_eq!(reader.position(), 5);
}

#[test]
fn skip_box_steps_over_the_body() {
    let data = [9u8; 12];
    let mut reader = Reader::new(&data);
    assert_eq!(skip_box(&mut reader, 18), Ok(()));
    assert_eq!(reader.position(), 10);
    assert_eq!(skip_box(&mut reader, 11), Err(Error::UnexpectedEof));
    assert_eq!(
        skip_box(&mut reader, 0),
        Err(Error::InvalidData("box size smaller than its header"))
    );
    assert_eq!(reader.position(), 10);
}

#[test]
fn registry_maps_tags_to_kinds_and_back() {
    let known = [
        (BoxType::Hev1Box, *b"hev1"),
        (BoxType::HvcCBox, *b"hvcC"),
        (BoxType::OpusBox, *b"Opus"),
        (BoxType::DopsBox, *b"dOps"),
        (BoxType::TfdtBox, *b"tfdt"),
        (BoxType::TrakBox, *b"trak"),
        (BoxType::TkhdBox, *b"tkhd"),
        (BoxType::EdtsBox, *b"edts"),
        (BoxType::MdiaBox, *b"mdia"),
        (BoxType::UdtaBox, *b"udta"),
        (BoxType::MetaBox, *b"meta"),
        (BoxType::HdlrBox, *b"hdlr"),
        (BoxType::IlstBox, *b"ilst"),
    ];
    for (kind, name) in known {
        let tag = u32::from_be_bytes(name);
        assert_eq!(kind.tag(), tag);
        assert_eq!(BoxType::from_tag(tag), kind);
        assert_eq!(BoxType::from(tag), kind);
        assert_eq!(u32::from(kind), tag);
    }
    assert_eq!(BoxType::from_tag(0), BoxType::UnknownBox(0));
    assert_eq!(BoxType::UnknownBox(0x1234_5678).tag(), 0x1234_5678);
    assert_eq!(
        BoxType::from_tag(BoxType::UnknownBox(0x7472_616b).tag()),
        BoxType::TrakBox
    );
}

#[test]
fn fixed_point_keeps_the_raw_form() {
    let f = FixedPointU16::new(0x48);
    assert_eq!(f.raw_value(), 0x0048_0000);
    assert_eq!(f.value(), 0x48);
    let g = FixedPointU16::new_raw(0x0001_8000);
    assert_eq!(g.raw_value(), 0x0001_8000);
    assert_eq!(g.value(), 1);
    assert_eq!(FixedPointU16::new(u16::MAX).raw_value(), 0xffff_0000);
    assert_eq!(FixedPointU16::new_raw(u32::MAX).value(), u16::MAX);
    assert_eq!(FixedPointU16::new(48000), FixedPointU16::new_raw(48000 << 16));
    assert_ne!(FixedPointU16::new_raw(1), FixedPointU16::new_raw(0));

    let h = FixedPointU8::new(1);
    assert_eq!(h.raw_value(), 0x0100);
    assert_eq!(h.value(), 1);
    assert_eq!(FixedPointU8::new_raw(0x02ff).value(), 2);
    assert_eq!(FixedPointU8::new_raw(0x02ff).raw_value(), 0x02ff);
    assert_eq!(FixedPointU8::new(u8::MAX).raw_value(), 0xff00);
}

#[test]
fn decimal_numerals() {
    let cases: [(u64, &str); 7] = [
        (0, "0"),
        (7, "7"),
        (10, "10"),
        (109, "109"),
        (48000, "48000"),
        (1234567890, "1234567890"),
        (u64::MAX, "18446744073709551615"),
    ];
    for (v, expected) in cases {
        let mut s = String::from("n=");
        append_decimal(&mut s, v);
        assert_eq!(s, format!("n={}", expected));
    }
}

#[test]
fn frequencies_and_channel_layouts() {
    let freqs = [
        (SampleFreqIndex::Freq96000, 96000),
        (SampleFreqIndex::Freq88200, 88200),
        (SampleFreqIndex::Freq64000, 64000),
        (SampleFreqIndex::Freq48000, 48000),
        (SampleFreqIndex::Freq44100, 44100),
        (SampleFreqIndex::Freq32000, 32000),
        (SampleFreqIndex::Freq24000, 24000),
        (SampleFreqIndex::Freq22050, 22050),
        (SampleFreqIndex::Freq16000, 16000),
        (SampleFreqIndex::Freq12000, 12000),
        (SampleFreqIndex::Freq11025, 11025),
        (SampleFreqIndex::Freq8000, 8000),
        (SampleFreqIndex::Freq7350, 7350),
    ];
    for (index, hz) in freqs {
        assert_eq!(index.freq(), hz);
    }
    let layouts = [
        (ChannelConfig::Mono, 1),
        (ChannelConfig::Stereo, 2),
        (ChannelConfig::Three, 3),
        (ChannelConfig::Four, 4),
        (ChannelConfig::Five, 5),
        (ChannelConfig::FiveOne, 6),
        (ChannelConfig::SevenOne, 7),
    ];
    for (layout, n) in layouts {
        assert_eq!(layout.value(), n);
    }
}
