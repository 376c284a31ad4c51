use mp4::mp4box::{BoxHeader, EdtsBox, MdiaBox, Mp4Box, TkhdBox, TrakBox, HEADER_SIZE};
use mp4::{BoxType, Error, Reader};

fn raw_box(tag: &[u8; 4], body: &[u8]) -> Vec<u8> {
    let mut out = (8 + body.len() as u32).to_be_bytes().to_vec();
    out.extend_from_slice(tag);
    out.extend_from_slice(body);
    out
}

fn sample_track(edts: bool) -> TrakBox {
    TrakBox {
        tkhd: TkhdBox {
            body: vec![1, 2, 3, 4, 5],
        },
        edts: if edts {
            Some(EdtsBox { body: vec![6, 7] })
        } else {
            None
        },
        mdia: MdiaBox {
            body: vec![8, 9, 10],
        },
    }
}

fn read_track(body: &[u8]) -> Result<TrakBox, Error> {
    let mut reader = Reader::new(body);
    let r = TrakBox::read_box(&mut reader, HEADER_SIZE + body.len() as u64);
    match &r {
        Ok(_) => assert_eq!(reader.position(), body.len() as u64),
        Err(_) => assert_eq!(reader.position(), 0),
    }
    r
}

const USER_DATA: [u8; 61] = [
    0, 0, 0, 61, b'u', b'd', b't', b'a', 0, 0, 0, 53, b'm', b'e', b't', b'a', 0, 0, 0, 0, 0, 0, 0,
    33, b'h', b'd', b'l', b'r', 0, 0, 0, 0, b'm', b'h', b'l', b'r', b'm', b'd', b'i', b'r', 0, 0,
    0, 0, 0, 0, 0, 0, 0, 0, 0, 0, 0, 0, 0, 0, 8, b'i', b'l', b's', b't',
];

#[test]
fn opaque_children_keep_their_bodies() {
    let t = TkhdBox {
        body: vec![0xaa, 0xbb],
    };
    assert_eq!(t.box_type(), BoxType::TkhdBox);
    assert_eq!(t.box_size(), 10);
    let mut buf = Vec::new();
    assert_eq!(t.write_box(&mut buf), Ok(10));
    assert_eq!(buf, raw_box(b"tkhd", &[0xaa, 0xbb]));
    let mut reader = Reader::new(&buf);
    let header = BoxHeader::read(&mut reader).unwrap();
    assert_eq!(header, BoxHeader::new(BoxType::TkhdBox, 10));
    assert_eq!(TkhdBox::read_box(&mut reader, header.size), Ok(t));

    let e = EdtsBox { body: vec![1] };
    assert_eq!(e.box_type(), BoxType::EdtsBox);
    assert_eq!(e.box_size(), 9);
    let mut buf = Vec::new();
    assert_eq!(e.write_box(&mut buf), Ok(9));
    assert_eq!(buf, raw_box(b"edts", &[1]));
    let mut reader = Reader::new(&buf[8..]);
    assert_eq!(EdtsBox::read_box(&mut reader, 9), Ok(e));

    let m = MdiaBox::default();
    assert_eq!(m.box_type(), BoxType::MdiaBox);
    assert_eq!(m.box_size(), 8);
    let mut buf = Vec::new();
    assert_eq!(m.write_box(&mut buf), Ok(8));
    assert_eq!(buf, raw_box(b"mdia", &[]));
    let mut reader = Reader::new(&[]);
    assert_eq!(MdiaBox::read_box(&mut reader, 8), Ok(m));
    assert_eq!(
        MdiaBox::read_box(&mut reader, 9),
        Err(Error::UnexpectedEof)
    );
    assert_eq!(
        TkhdBox::read_box(&mut reader, 7),
        Err(Error::InvalidData("box size smaller than its header"))
    );
    assert_eq!(EdtsBox::default().body, Vec::<u8>::new());
    assert_eq!(TkhdBox::default().body, Vec::<u8>::new());
}

#[test]
fn track_written_layout() {
    let t = sample_track(true);
    assert_eq!(t.get_type(), BoxType::TrakBox);
    assert_eq!(t.box_type(), BoxType::TrakBox);
    let size = 8 + 13 + 10 + 11 + 61;
    assert_eq!(t.get_size(), size);
    assert_eq!(t.box_size(), size);
    assert_eq!(t.summary(), Ok(String::new()));
    let mut buf = Vec::new();
    assert_eq!(t.write_box(&mut buf), Ok(size));
    let mut expected = vec![0, 0, 0, size as u8, b't', b'r', b'a', b'k'];
    expected.extend(raw_box(b"tkhd", &[1, 2, 3, 4, 5]));
    expected.extend(raw_box(b"edts", &[6, 7]));
    expected.extend(raw_box(b"mdia", &[8, 9, 10]));
    expected.extend_from_slice(&USER_DATA);
    assert_eq!(buf, expected);
}

#[test]
fn track_without_edit_list_is_shorter() {
    let t = sample_track(false);
    assert_eq!(t.get_size(), 8 + 13 + 11 + 61);
    let mut buf = Vec::new();
    assert_eq!(t.write_box(&mut buf), Ok(93));
    assert_eq!(buf.len(), 93);
    assert_eq!(&buf[32..], &USER_DATA);
}

#[test]
fn track_reads_back_what_it_wrote() {
    for edts in [false, true] {
        let t = sample_track(edts);
        let mut buf = Vec::new();
        let size = t.write_box(&mut buf).unwrap();
        assert_eq!(buf.len() as u64, size);
        buf.extend_from_slice(&[0x99; 5]);
        let mut reader = Reader::new(&buf);
        let header = BoxHeader::read(&mut reader).unwrap();
        assert_eq!(header, BoxHeader::new(BoxType::TrakBox, size));
        assert_eq!(TrakBox::read_box(&mut reader, header.size), Ok(t));
        assert_eq!(reader.position(), size);
    }
    let d = TrakBox::default();
    assert_eq!(d.tkhd, TkhdBox::default());
    assert_eq!(d.edts, None);
    assert_eq!(d.mdia, MdiaBox::default());
    let mut buf = Vec::new();
    assert_eq!(d.write_box(&mut buf), Ok(8 + 8 + 8 + 61));
    assert_eq!(read_track(&buf[8..]), Ok(d));
}

#[test]
fn track_steps_over_a_child_of_unknown_kind() {
    let mut body = raw_box(b"tkhd", &[1, 2, 3, 4, 5]);
    body.extend(raw_box(b"zzzz", &[0xde, 0xad, 0xbe, 0xef, 0, 0, 0, 8, b't', b'k', b'h', b'd']));
    body.extend(raw_box(b"mdia", &[8, 9, 10]));
    assert_eq!(read_track(&body), Ok(sample_track(false)));
}

#[test]
fn track_steps_over_a_child_of_a_known_kind_that_it_does_not_keep() {
    let mut body = raw_box(b"tfdt", &[0; 8]);
    body.extend(raw_box(b"mdia", &[8, 9, 10]));
    body.extend(raw_box(b"hev1", &[]));
    body.extend(raw_box(b"edts", &[6, 7]));
    body.extend(raw_box(b"tkhd", &[1, 2, 3, 4, 5]));
    body.extend(raw_box(b"udta", &[1]));
    assert_eq!(read_track(&body), Ok(sample_track(true)));
}

#[test]
fn track_keeps_the_last_child_of_a_kind() {
    let mut body = raw_box(b"tkhd", &[0xff]);
    body.extend(raw_box(b"mdia", &[0xfe]));
    body.extend(raw_box(b"edts", &[0xfd]));
    body.extend(raw_box(b"mdia", &[8, 9, 10]));
    body.extend(raw_box(b"edts", &[6, 7]));
    body.extend(raw_box(b"tkhd", &[1, 2, 3, 4, 5]));
    assert_eq!(read_track(&body), Ok(sample_track(true)));
}

#[test]
fn track_without_track_header_is_not_found() {
    let mut body = raw_box(b"edts", &[6, 7]);
    body.extend(raw_box(b"mdia", &[8, 9, 10]));
    assert_eq!(
        read_track(&body),
        Err(Error::BoxNotFound(BoxType::TkhdBox))
    );
    assert_eq!(read_track(&[]), Err(Error::BoxNotFound(BoxType::TkhdBox)));
    assert_eq!(
        read_track(&USER_DATA),
        Err(Error::BoxNotFound(BoxType::TkhdBox))
    );
}

#[test]
fn track_without_media_information_is_not_found() {
    let mut body = raw_box(b"tkhd", &[1, 2, 3, 4, 5]);
    body.extend(raw_box(b"edts", &[6, 7]));
    assert_eq!(
        read_track(&body),
        Err(Error::BoxNotFound(BoxType::MdiaBox))
    );
}

#[test]
fn from_children_asks_for_the_two_required_children() {
    let t = sample_track(true);
    assert_eq!(
        TrakBox::from_children(Some(t.tkhd.clone()), t.edts.clone(), Some(t.mdia.clone())),
        Ok(t.clone())
    );
    assert_eq!(
        TrakBox::from_children(None, t.edts.clone(), Some(t.mdia.clone())),
        Err(Error::BoxNotFound(BoxType::TkhdBox))
    );
    assert_eq!(
        TrakBox::from_children(Some(t.tkhd.clone()), t.edts.clone(), None),
        Err(Error::BoxNotFound(BoxType::MdiaBox))
    );
    assert_eq!(
        TrakBox::from_children(None, None, None),
        Err(Error::BoxNotFound(BoxType::TkhdBox))
    );
    assert_eq!(
        TrakBox::from_children(Some(t.tkhd.clone()), None, Some(t.mdia.clone())),
        Ok(sample_track(false))
    );
}

#[test]
fn track_fails_on_a_child_that_overruns_it() {
    let mut body = raw_box(b"tkhd", &[1, 2, 3, 4, 5]);
    body.extend(raw_box(b"mdia", &[8, 9, 10]));
    let last = body.len() - 11;
    body[last + 3] = 12;
    assert_eq!(read_track(&body), Err(Error::UnexpectedEof));

    // the child would fit the bytes that follow, but not the track
    let mut buf = body.clone();
    buf.push(0);
    let mut reader = Reader::new(&buf);
    assert_eq!(
        TrakBox::read_box(&mut reader, HEADER_SIZE + body.len() as u64),
        Err(Error::UnexpectedEof)
    );
    assert_eq!(reader.position(), 0);
}

#[test]
fn track_fails_on_a_child_smaller_than_a_header() {
    let mut body = raw_box(b"tkhd", &[1, 2, 3, 4, 5]);
    body.extend_from_slice(&[0, 0, 0, 0, b'f', b'r', b'e', b'e']);
    body.extend(raw_box(b"mdia", &[8, 9, 10]));
    assert_eq!(
        read_track(&body),
        Err(Error::InvalidData("box size smaller than its header"))
    );
    let mut body = raw_box(b"tkhd", &[1, 2, 3, 4, 5]);
    body.extend_from_slice(&[0, 0, 0, 7, b'm', b'd', b'i', b'a']);
    assert_eq!(
        read_track(&body),
        Err(Error::InvalidData("box size smaller than its header"))
    );
}

#[test]
fn track_fails_on_a_truncated_child_header() {
    let mut body = raw_box(b"tkhd", &[1, 2, 3, 4, 5]);
    body.extend(raw_box(b"mdia", &[8, 9, 10]));
    body.extend_from_slice(&[0, 0, 0]);
    assert_eq!(read_track(&body), Err(Error::UnexpectedEof));
}

#[test]
fn track_fails_when_it_declares_more_than_there_is() {
    let mut body = raw_box(b"tkhd", &[1, 2, 3, 4, 5]);
    body.extend(raw_box(b"mdia", &[8, 9, 10]));
    let mut reader = Reader::new(&body);
    assert_eq!(
        TrakBox::read_box(&mut reader, HEADER_SIZE + body.len() as u64 + 1),
        Err(Error::UnexpectedEof)
    );
    assert_eq!(
        TrakBox::read_box(&mut reader, 5),
        Err(Error::InvalidData("box size smaller than its header"))
    );
    assert_eq!(reader.position(), 0);
}
