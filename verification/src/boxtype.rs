//! The registry of box kinds: which four-character tag names which kind.

use vstd::prelude::*;
use vstd::std_specs::convert::FromSpecImpl;

verus! {

/// The kind of a box. A tag that the registry does not know is kept, as
/// `UnknownBox`, so that a box of a later format revision can be stepped over.
#[derive(Debug, Clone, Copy, PartialEq, Eq, Structural)]
pub enum BoxType {
    /// `hev1`: HEVC sample entry.
    Hev1Box,
    /// `hvcC`: HEVC decoder configuration.
    HvcCBox,
    /// `Opus`: Opus sample entry.
    OpusBox,
    /// `dOps`: Opus decoder configuration.
    DopsBox,
    /// `tfdt`: track fragment decode time.
    TfdtBox,
    /// `trak`: track.
    TrakBox,
    /// `tkhd`: track header.
    TkhdBox,
    /// `edts`: edit list container.
    EdtsBox,
    /// `mdia`: media information.
    MdiaBox,
    /// `udta`: user data.
    UdtaBox,
    /// `meta`: metadata.
    MetaBox,
    /// `hdlr`: handler reference.
    HdlrBox,
    /// `ilst`: metadata item list.
    IlstBox,
    /// Any other tag, kept as the 32-bit number it was read as.
    UnknownBox(u32),
}

impl BoxType {
    /// The kind that the tag `tag` names.
    pub open spec fn spec_from_tag(tag: u32) -> BoxType {
        if tag == 0x68657631 {
            BoxType::Hev1Box
        } else if tag == 0x68766343 {
            BoxType::HvcCBox
        } else if tag == 0x4f707573 {
            BoxType::OpusBox
        } else if tag == 0x644f7073 {
            BoxType::DopsBox
        } else if tag == 0x74666474 {
            BoxType::TfdtBox
        } else if tag == 0x7472616b {
            BoxType::TrakBox
        } else if tag == 0x746b6864 {
            BoxType::TkhdBox
        } else if tag == 0x65647473 {
            BoxType::EdtsBox
        } else if tag == 0x6d646961 {
            BoxType::MdiaBox
        } else if tag == 0x75647461 {
            BoxType::UdtaBox
        } else if tag == 0x6d657461 {
            BoxType::MetaBox
        } else if tag == 0x68646c72 {
            BoxType::HdlrBox
        } else if tag == 0x696c7374 {
            BoxType::IlstBox
        } else {
            BoxType::UnknownBox(tag)
        }
    }

    /// The tag of this kind: its four characters as one big-endian number.
    pub open spec fn spec_tag(self) -> u32 {
        match self {
            BoxType::Hev1Box => 0x68657631,
            BoxType::HvcCBox => 0x68766343,
            BoxType::OpusBox => 0x4f707573,
            BoxType::DopsBox => 0x644f7073,
            BoxType::TfdtBox => 0x74666474,
            BoxType::TrakBox => 0x7472616b,
            BoxType::TkhdBox => 0x746b6864,
            BoxType::EdtsBox => 0x65647473,
            BoxType::MdiaBox => 0x6d646961,
            BoxType::UdtaBox => 0x75647461,
            BoxType::MetaBox => 0x6d657461,
            BoxType::HdlrBox => 0x68646c72,
            BoxType::IlstBox => 0x696c7374,
            BoxType::UnknownBox(tag) => tag,
        }
    }

    /// A kind is canonical when it is the one that its own tag names: every
    /// known kind is, and `UnknownBox(t)` is unless `t` is a known tag.
    pub open spec fn is_canonical(self) -> bool {
        Self::spec_from_tag(self.spec_tag()) == self
    }

    /// The kind that the tag `tag` names; `UnknownBox(tag)` if none does.
    pub fn from_tag(tag: u32) -> (t: BoxType)
        ensures
            t == Self::spec_from_tag(tag),
    {
        if tag == 0x68657631 {
            BoxType::Hev1Box
        } else if tag == 0x68766343 {
            BoxType::HvcCBox
        } else if tag == 0x4f707573 {
            BoxType::OpusBox
        } else if tag == 0x644f7073 {
            BoxType::DopsBox
        } else if tag == 0x74666474 {
            BoxType::TfdtBox
        } else if tag == 0x7472616b {
            BoxType::TrakBox
        } else if tag == 0x746b6864 {
            BoxType::TkhdBox
        } else if tag == 0x65647473 {
            BoxType::EdtsBox
        } else if tag == 0x6d646961 {
            BoxType::MdiaBox
        } else if tag == 0x75647461 {
            BoxType::UdtaBox
        } else if tag == 0x6d657461 {
            BoxType::MetaBox
        } else if tag == 0x68646c72 {
            BoxType::HdlrBox
        } else if tag == 0x696c7374 {
            BoxType::IlstBox
        } else {
            BoxType::UnknownBox(tag)
        }
    }

    /// The tag of this kind.
    pub fn tag(&self) -> (tag: u32)
        ensures
            tag == self.spec_tag(),
    {
        match self {
            BoxType::Hev1Box => 0x68657631,
            BoxType::HvcCBox => 0x68766343,
            BoxType::OpusBox => 0x4f707573,
            BoxType::DopsBox => 0x644f7073,
            BoxType::TfdtBox => 0x74666474,
            BoxType::TrakBox => 0x7472616b,
            BoxType::TkhdBox => 0x746b6864,
            BoxType::EdtsBox => 0x65647473,
            BoxType::MdiaBox => 0x6d646961,
            BoxType::UdtaBox => 0x75647461,
            BoxType::MetaBox => 0x6d657461,
            BoxType::HdlrBox => 0x68646c72,
            BoxType::IlstBox => 0x696c7374,
            BoxType::UnknownBox(tag) => *tag,
        }
    }

    /// Every tag names a kind whose tag it is: no tag is lost in the registry.
    pub proof fn lemma_tag_of_from_tag(tag: u32)
        ensures
            Self::spec_from_tag(tag).spec_tag() == tag,
            Self::spec_from_tag(tag).is_canonical(),
    {
    }
}

impl From<u32> for BoxType {
    fn from(tag: u32) -> (t: BoxType) {
        BoxType::from_tag(tag)
    }
}

impl FromSpecImpl<u32> for BoxType {
    open spec fn obeys_from_spec() -> bool {
        true
    }

    open spec fn from_spec(tag: u32) -> BoxType {
        BoxType::spec_from_tag(tag)
    }
}

impl From<BoxType> for u32 {
    fn from(t: BoxType) -> (tag: u32) {
        t.tag()
    }
}

impl FromSpecImpl<BoxType> for u32 {
    open spec fn obeys_from_spec() -> bool {
        true
    }

    open spec fn from_spec(t: BoxType) -> u32 {
        t.spec_tag()
    }
}

} // verus!
