//! What a caller says of a stream when it asks for a sample entry.

use vstd::prelude::*;

verus! {

/// The sampling frequencies that can be named by an index.
#[derive(Debug, Clone, Copy, PartialEq, Eq, Structural)]
pub enum SampleFreqIndex {
    Freq96000,
    Freq88200,
    Freq64000,
    Freq48000,
    Freq44100,
    Freq32000,
    Freq24000,
    Freq22050,
    Freq16000,
    Freq12000,
    Freq11025,
    Freq8000,
    Freq7350,
}

impl SampleFreqIndex {
    /// The frequency in Hz.
    pub open spec fn spec_freq(self) -> u32 {
        match self {
            SampleFreqIndex::Freq96000 => 96000,
            SampleFreqIndex::Freq88200 => 88200,
            SampleFreqIndex::Freq64000 => 64000,
            SampleFreqIndex::Freq48000 => 48000,
            SampleFreqIndex::Freq44100 => 44100,
            SampleFreqIndex::Freq32000 => 32000,
            SampleFreqIndex::Freq24000 => 24000,
            SampleFreqIndex::Freq22050 => 22050,
            SampleFreqIndex::Freq16000 => 16000,
            SampleFreqIndex::Freq12000 => 12000,
            SampleFreqIndex::Freq11025 => 11025,
            SampleFreqIndex::Freq8000 => 8000,
            SampleFreqIndex::Freq7350 => 7350,
        }
    }

    /// The frequency in Hz.
    pub fn freq(&self) -> (f: u32)
        ensures
            f == self.spec_freq(),
    {
        match self {
            SampleFreqIndex::Freq96000 => 96000,
            SampleFreqIndex::Freq88200 => 88200,
            SampleFreqIndex::Freq64000 => 64000,
            SampleFreqIndex::Freq48000 => 48000,
            SampleFreqIndex::Freq44100 => 44100,
            SampleFreqIndex::Freq32000 => 32000,
            SampleFreqIndex::Freq24000 => 24000,
            SampleFreqIndex::Freq22050 => 22050,
            SampleFreqIndex::Freq16000 => 16000,
            SampleFreqIndex::Freq12000 => 12000,
            SampleFreqIndex::Freq11025 => 11025,
            SampleFreqIndex::Freq8000 => 8000,
            SampleFreqIndex::Freq7350 => 7350,
        }
    }
}

/// The channel layouts that can be named by a number.
#[derive(Debug, Clone, Copy, PartialEq, Eq, Structural)]
pub enum ChannelConfig {
    Mono,
    Stereo,
    Three,
    Four,
    Five,
    FiveOne,
    SevenOne,
}

impl ChannelConfig {
    /// The number of the layout, from 1 for mono to 7 for 7.1.
    pub open spec fn spec_value(self) -> u8 {
        match self {
            ChannelConfig::Mono => 1,
            ChannelConfig::Stereo => 2,
            ChannelConfig::Three => 3,
            ChannelConfig::Four => 4,
            ChannelConfig::Five => 5,
            ChannelConfig::FiveOne => 6,
            ChannelConfig::SevenOne => 7,
        }
    }

    /// The number of the layout.
    pub fn value(&self) -> (v: u8)
        ensures
            v == self.spec_value(),
    {
        match self {
            ChannelConfig::Mono => 1,
            ChannelConfig::Stereo => 2,
            ChannelConfig::Three => 3,
            ChannelConfig::Four => 4,
            ChannelConfig::Five => 5,
            ChannelConfig::FiveOne => 6,
            ChannelConfig::SevenOne => 7,
        }
    }
}

/// An Opus stream, as far as its sample entry describes it.
#[derive(Debug, Clone, PartialEq, Eq, Structural)]
pub struct OpusConfig {
    pub bitrate: u32,
    pub freq_index: SampleFreqIndex,
    pub chan_conf: ChannelConfig,
    pub pre_skip: u16,
}

/// An HEVC stream, as far as its sample entry describes it: the picture
/// size and one parameter set of each kind.
#[derive(Debug, Clone, PartialEq, Eq)]
pub struct HevcConfig {
    pub width: u16,
    pub height: u16,
    pub seq_param_set: Vec<u8>,
    pub pic_param_set: Vec<u8>,
    pub vid_param_set: Vec<u8>,
}

} // verus!
