use mp4::mp4box::{BoxHeader, ChannelMappingTable, DopsBox, Mp4Box, OpusBox, TfdtBox};
use mp4::{BoxType, ChannelConfig, Error, FixedPointU16, OpusConfig, Reader, SampleFreqIndex};

fn sample_dops() -> DopsBox {
    DopsBox {
        version: 0,
        channel_count: 2,
        pre_skip: 312,
        sample_rate: 48000,
        output_gain: -256,
        channel_mapping_family: 1,
        channel_mapping_table: None,
    }
}

#[test]
fn tfdt_is_sixteen_bytes_and_reads_back() {
    let src = TfdtBox {
        version: 0,
        flags: 0,
        base_media_decode_time: 6000,
    };
    assert_eq!(src.get_size(), 16);
    assert_eq!(src.box_size(), 16);
    assert_eq!(src.get_type(), BoxType::TfdtBox);
    assert_eq!(src.box_type(), BoxType::TfdtBox);
    let mut buf = Vec::new();
    assert_eq!(src.write_box(&mut buf), Ok(16));
    assert_eq!(
        buf,
        vec![0, 0, 0, 16, b't', b'f', b'd', b't', 0, 0, 0, 0, 0, 0, 0x17, 0x70]
    );
    let mut reader = Reader::new(&buf);
    let header = BoxHeader::read(&mut reader).unwrap();
    assert_eq!(header, BoxHeader::new(BoxType::TfdtBox, 16));
    assert_eq!(TfdtBox::read_box(&mut reader, header.size), Ok(src));
    assert_eq!(reader.position(), 16);
    assert_eq!(reader.remaining_len(), 0);
}

#[test]
fn tfdt_with_version_and_flags_reads_back() {
    let src = TfdtBox {
        version: 0xfe,
        flags: 0x00ff_ffff,
        base_media_decode_time: u32::MAX,
    };
    let mut buf = vec![0xeeu8; 3];
    assert_eq!(src.write_box(&mut buf), Ok(16));
    assert_eq!(buf.len(), 19);
    assert_eq!(&buf[..3], &[0xee, 0xee, 0xee]);
    assert_eq!(&buf[11..], &[0xfe, 0xff, 0xff, 0xff, 0xff, 0xff, 0xff, 0xff]);
    buf.push(0x55);
    let mut reader = Reader::new(&buf);
    reader.skip(3).unwrap();
    let header = BoxHeader::read(&mut reader).unwrap();
    assert_eq!(TfdtBox::read_box(&mut reader, header.size), Ok(src));
    assert_eq!(reader.position(), 19);
    assert_eq!(reader.read_u8(), Ok(0x55));
}

#[test]
fn tfdt_default_is_all_zero() {
    let b = TfdtBox::default();
    assert_eq!(
        b,
        TfdtBox {
            version: 0,
            flags: 0,
            base_media_decode_time: 0
        }
    );
    assert_eq!(b.summary(), Ok(String::new()));
    let mut buf = Vec::new();
    b.write_box(&mut buf).unwrap();
    let mut reader = Reader::new(&buf);
    let header = BoxHeader::read(&mut reader).unwrap();
    assert_eq!(TfdtBox::read_box(&mut reader, header.size), Ok(b));
}

#[test]
fn tfdt_passes_over_bytes_that_follow_its_fields() {
    let body = [1u8, 0, 0, 2, 0, 0, 0, 3, 0xaa, 0xbb, 0xcc];
    let mut reader = Reader::new(&body);
    assert_eq!(
        TfdtBox::read_box(&mut reader, 8 + 11),
        Ok(TfdtBox {
            version: 1,
            flags: 2,
            base_media_decode_time: 3
        })
    );
    assert_eq!(reader.position(), 11);
}

#[test]
fn tfdt_fails_on_a_body_that_is_too_short() {
    let body = [1u8, 0, 0, 2, 0, 0, 0, 3, 0xaa];
    let mut reader = Reader::new(&body);
    assert_eq!(TfdtBox::read_box(&mut reader, 15), Err(Error::UnexpectedEof));
    assert_eq!(reader.position(), 0);
    assert_eq!(TfdtBox::read_box(&mut reader, 18), Err(Error::UnexpectedEof));
    assert_eq!(reader.position(), 0);
    assert_eq!(
        TfdtBox::read_box(&mut reader, 7),
        Err(Error::InvalidData("box size smaller than its header"))
    );
    assert_eq!(TfdtBox::read_box(&mut reader, 8), Err(Error::UnexpectedEof));
    assert_eq!(reader.position(), 0);
    assert!(TfdtBox::read_box(&mut reader, 16).is_ok());
    assert_eq!(reader.position(), 8);
}

#[test]
fn dops_layout() {
    let src = sample_dops();
    assert_eq!(src.box_type(), BoxType::DopsBox);
    assert_eq!(src.box_size(), 19);
    assert_eq!(src.summary(), Ok(String::new()));
    let mut buf = Vec::new();
    assert_eq!(src.write_box(&mut buf), Ok(19));
    assert_eq!(
        buf,
        vec![
            0, 0, 0, 19, b'd', b'O', b'p', b's', 0, 2, 0x01, 0x38, 0x00, 0x00, 0xbb, 0x80, 0xff,
            0x00, 1
        ]
    );
    let mut reader = Reader::new(&buf);
    let header = BoxHeader::read(&mut reader).unwrap();
    assert_eq!(header, BoxHeader::new(BoxType::DopsBox, 19));
    assert_eq!(DopsBox::read_box(&mut reader, header.size), Ok(src));
    assert_eq!(reader.position(), 19);
}

#[test]
fn dops_neither_writes_nor_reads_a_mapping_table() {
    let mut src = sample_dops();
    src.channel_mapping_table = Some(ChannelMappingTable {
        stream_count: 1,
        coupled_count: 1,
        channel_mapping: vec![0, 1],
    });
    let mut with_table = Vec::new();
    assert_eq!(src.write_box(&mut with_table), Ok(19));
    let mut without = Vec::new();
    sample_dops().write_box(&mut without).unwrap();
    assert_eq!(with_table, without);

    let mut reader = Reader::new(&with_table);
    let header = BoxHeader::read(&mut reader).unwrap();
    assert_eq!(
        DopsBox::read_box(&mut reader, header.size),
        Ok(sample_dops())
    );
    assert_eq!(
        ChannelMappingTable::default(),
        ChannelMappingTable {
            stream_count: 0,
            coupled_count: 0,
            channel_mapping: vec![]
        }
    );
}

#[test]
fn dops_default_and_new() {
    assert_eq!(
        DopsBox::default(),
        DopsBox {
            version: 0,
            channel_count: 0,
            pre_skip: 0,
            sample_rate: 0,
            output_gain: 0,
            channel_mapping_family: 0,
            channel_mapping_table: None,
        }
    );
    let config = OpusConfig {
        bitrate: 64000,
        freq_index: SampleFreqIndex::Freq44100,
        chan_conf: ChannelConfig::FiveOne,
        pre_skip: 3840,
    };
    assert_eq!(
        DopsBox::new(&config),
        DopsBox {
            version: 0,
            channel_count: 6,
            pre_skip: 3840,
            sample_rate: 44100,
            output_gain: 0,
            channel_mapping_family: 0,
            channel_mapping_table: None,
        }
    );
}

#[test]
fn dops_fails_on_a_short_body() {
    let body = [0u8; 10];
    let mut reader = Reader::new(&body);
    assert_eq!(DopsBox::read_box(&mut reader, 18), Err(Error::UnexpectedEof));
    assert_eq!(reader.position(), 0);
}

#[test]
fn opus_layout() {
    let src = OpusBox {
        data_reference_index: 1,
        channelcount: 2,
        samplesize: 16,
        samplerate: FixedPointU16::new(48000),
        dops: sample_dops(),
    };
    assert_eq!(src.get_type(), BoxType::OpusBox);
    assert_eq!(src.box_type(), BoxType::OpusBox);
    assert_eq!(src.get_size(), 8 + 8 + 20 + 19);
    assert_eq!(src.box_size(), 55);
    let mut buf = Vec::new();
    assert_eq!(src.write_box(&mut buf), Ok(55));
    let mut expected = vec![0, 0, 0, 55, b'O', b'p', b'u', b's'];
    expected.extend_from_slice(&[0, 0, 0, 0, 0, 0, 0, 1]);
    expected.extend_from_slice(&[0, 0, 0, 0, 0, 0, 0, 0]);
    expected.extend_from_slice(&[0, 2, 0, 16, 0, 0, 0, 0, 0xbb, 0x80, 0, 0]);
    expected.extend_from_slice(&[
        0, 0, 0, 19, b'd', b'O', b'p', b's', 0, 2, 0x01, 0x38, 0, 0, 0xbb, 0x80, 0xff, 0, 1,
    ]);
    assert_eq!(buf, expected);

    let mut reader = Reader::new(&buf);
    let header = BoxHeader::read(&mut reader).unwrap();
    let dst = OpusBox::read_box(&mut reader, header.size).unwrap();
    assert_eq!(dst, src);
    assert_eq!(reader.position(), 55);
}

#[test]
fn opus_default_new_and_summary() {
    let d = OpusBox::default();
    assert_eq!(
        d,
        OpusBox {
            data_reference_index: 0,
            channelcount: 2,
            samplesize: 16,
            samplerate: FixedPointU16::new(48000),
            dops: DopsBox::default(),
        }
    );
    assert_eq!(
        d.summary(),
        Ok(String::from("channel_count=2 sample_size=16 sample_rate=48000"))
    );

    let config = OpusConfig {
        bitrate: 0,
        freq_index: SampleFreqIndex::Freq48000,
        chan_conf: ChannelConfig::Stereo,
        pre_skip: 312,
    };
    let b = OpusBox::new(&config);
    assert_eq!(b.data_reference_index, 1);
    assert_eq!(b.channelcount, 2);
    assert_eq!(b.samplesize, 16);
    assert_eq!(b.samplerate, FixedPointU16::new(48000));
    assert_eq!(b.dops, DopsBox::new(&config));

    let fast = OpusConfig {
        bitrate: 0,
        freq_index: SampleFreqIndex::Freq96000,
        chan_conf: ChannelConfig::Mono,
        pre_skip: 0,
    };
    let b = OpusBox::new(&fast);
    assert_eq!(b.samplerate.value(), (96000u32 - 65536) as u16);
    assert_eq!(b.samplerate.raw_value(), 30464 << 16);
    assert_eq!(b.dops.sample_rate, 96000);
    assert_eq!(b.channelcount, 1);
    assert_eq!(
        b.summary(),
        Ok(String::from("channel_count=1 sample_size=16 sample_rate=30464"))
    );
}

#[test]
fn opus_rejects_a_configuration_box_of_another_kind() {
    let src = OpusBox::default();
    let mut buf = Vec::new();
    src.write_box(&mut buf).unwrap();
    assert_eq!(&buf[40..44], b"dOps");
    buf[40..44].copy_from_slice(b"hvcC");
    let mut reader = Reader::new(&buf);
    let header = BoxHeader::read(&mut reader).unwrap();
    assert_eq!(
        OpusBox::read_box(&mut reader, header.size),
        Err(Error::InvalidData("dops not found"))
    );
    assert_eq!(reader.position(), 8);

    buf[40..44].copy_from_slice(b"zzzz");
    let mut reader = Reader::new(&buf);
    let header = BoxHeader::read(&mut reader).unwrap();
    assert_eq!(
        OpusBox::read_box(&mut reader, header.size),
        Err(Error::InvalidData("dops not found"))
    );
}

#[test]
fn opus_fails_when_the_configuration_overruns_the_entry() {
    let src = OpusBox::default();
    let mut buf = Vec::new();
    src.write_box(&mut buf).unwrap();
    // the configuration declares one byte more than the entry holds
    buf[39] = 20;
    buf.push(0);
    let mut reader = Reader::new(&buf);
    let header = BoxHeader::read(&mut reader).unwrap();
    assert_eq!(
        OpusBox::read_box(&mut reader, header.size),
        Err(Error::UnexpectedEof)
    );
    assert_eq!(reader.position(), 8);
    // with the entry one byte longer it fits
    buf[3] = 56;
    let mut reader = Reader::new(&buf);
    let header = BoxHeader::read(&mut reader).unwrap();
    assert_eq!(OpusBox::read_box(&mut reader, header.size), Ok(src));
    assert_eq!(reader.position(), 56);
}

#[test]
fn opus_fails_on_truncated_fields() {
    let src = OpusBox::default();
    let mut buf = Vec::new();
    src.write_box(&mut buf).unwrap();
    for len in 8..buf.len() {
        let mut reader = Reader::new(&buf[..len]);
        let header = BoxHeader::read(&mut reader).unwrap();
        assert_eq!(
            OpusBox::read_box(&mut reader, header.size),
            Err(Error::UnexpectedEof)
        );
        assert_eq!(reader.position(), 8);
    }
}

#[test]
fn box_with_a_sixteen_byte_header_is_taken_to_end_eight_bytes_later() {
    let mut buf = vec![0, 0, 0, 1, b't', b'f', b'd', b't', 0, 0, 0, 0, 0, 0, 0, 24];
    buf.extend_from_slice(&[1, 0, 0, 2, 0, 0, 0, 3]);
    buf.extend_from_slice(&[0xaa; 8]);
    let mut reader = Reader::new(&buf);
    let header = BoxHeader::read(&mut reader).unwrap();
    assert_eq!(header, BoxHeader::new(BoxType::TfdtBox, 24));
    assert_eq!(reader.position(), 16);
    assert_eq!(
        TfdtBox::read_box(&mut reader, header.size),
        Ok(TfdtBox {
            version: 1,
            flags: 2,
            base_media_decode_time: 3
        })
    );
    assert_eq!(reader.position(), 32);

    let mut reader = Reader::new(&buf[..24]);
    let header = BoxHeader::read(&mut reader).unwrap();
    assert_eq!(
        TfdtBox::read_box(&mut reader, header.size),
        Err(Error::UnexpectedEof)
    );
}
