//! Plain-value stand-ins for the codec library's format and picture-type
//! discriminants. Each wraps the numeric value that the native library uses,
//! so that frame state can be modelled and checked without touching native
//! code.

use vstd::prelude::*;

verus! {

/// A pixel format discriminant.
#[derive(Debug, Clone, Copy, PartialEq, Eq, Structural)]
pub struct AVPixelFormat(pub i32);

impl AVPixelFormat {
    /// No pixel format specified.
    pub fn unspecified() -> (r: AVPixelFormat)
        ensures
            r.0 == -1,
    {
        AVPixelFormat(-1)
    }

    /// Planar YUV 4:2:0.
    pub fn yuv420p() -> (r: AVPixelFormat)
        ensures
            r.0 == 0,
    {
        AVPixelFormat(0)
    }

    /// Packed RGB, 8 bits per sample.
    pub fn rgb24() -> (r: AVPixelFormat)
        ensures
            r.0 == 2,
    {
        AVPixelFormat(2)
    }
}

impl From<AVPixelFormat> for i32 {
    fn from(value: AVPixelFormat) -> (r: i32) {
        value.0
    }
}

impl vstd::std_specs::convert::FromSpecImpl<AVPixelFormat> for i32 {
    open spec fn obeys_from_spec() -> bool {
        true
    }

    open spec fn from_spec(value: AVPixelFormat) -> i32 {
        value.0
    }
}

/// An audio sample format discriminant.
#[derive(Debug, Clone, Copy, PartialEq, Eq, Structural)]
pub struct AVSampleFormat(pub i32);

impl AVSampleFormat {
    /// No sample format specified.
    pub fn unspecified() -> (r: AVSampleFormat)
        ensures
            r.0 == -1,
    {
        AVSampleFormat(-1)
    }

    /// Unsigned 8-bit samples, interleaved.
    pub fn u8_interleaved() -> (r: AVSampleFormat)
        ensures
            r.0 == 0,
    {
        AVSampleFormat(0)
    }

    /// Signed 16-bit samples, interleaved.
    pub fn s16() -> (r: AVSampleFormat)
        ensures
            r.0 == 1,
    {
        AVSampleFormat(1)
    }

    /// Signed 32-bit samples, interleaved.
    pub fn s32() -> (r: AVSampleFormat)
        ensures
            r.0 == 2,
    {
        AVSampleFormat(2)
    }
}

impl From<AVSampleFormat> for i32 {
    fn from(value: AVSampleFormat) -> (r: i32) {
        value.0
    }
}

impl vstd::std_specs::convert::FromSpecImpl<AVSampleFormat> for i32 {
    open spec fn obeys_from_spec() -> bool {
        true
    }

    open spec fn from_spec(value: AVSampleFormat) -> i32 {
        value.0
    }
}

/// A picture type discriminant.
#[derive(Debug, Clone, Copy, PartialEq, Eq, Structural)]
pub struct AVPictureType(pub i32);

impl AVPictureType {
    /// Undefined or unknown picture type.
    pub fn unspecified() -> (r: AVPictureType)
        ensures
            r.0 == 0,
    {
        AVPictureType(0)
    }

    /// Intra-coded picture.
    pub fn intra() -> (r: AVPictureType)
        ensures
            r.0 == 1,
    {
        AVPictureType(1)
    }

    /// Predicted picture.
    pub fn predicted() -> (r: AVPictureType)
        ensures
            r.0 == 2,
    {
        AVPictureType(2)
    }

    /// Bi-directionally predicted picture.
    pub fn bi_predicted() -> (r: AVPictureType)
        ensures
            r.0 == 3,
    {
        AVPictureType(3)
    }
}

/// A channel-order discriminant for audio channel layouts.
#[derive(Debug, Clone, Copy, PartialEq, Eq, Structural)]
pub struct AVChannelOrder(pub i32);

impl AVChannelOrder {
    /// Only the channel count is known.
    pub fn unspec() -> (r: AVChannelOrder)
        ensures
            r.0 == 0,
    {
        AVChannelOrder(0)
    }

    /// Channels are ordered by the bits of a channel mask.
    pub fn native() -> (r: AVChannelOrder)
        ensures
            r.0 == 1,
    {
        AVChannelOrder(1)
    }
}

} // verus!
