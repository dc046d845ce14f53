//! Plain-value models of decoded media frames.
//!
//! The native codec library keeps a frame's state in a C struct behind a
//! pointer. This module keeps the same state as plain fields, so that every
//! accessor's effect is stated and checked. Whatever only the native library
//! can compute (buffer allocation geometry, default channel masks) is
//! modelled by the simple rules documented on each method.

use vstd::prelude::*;

use crate::av_formats::AVPictureType;
use crate::av_formats::AVPixelFormat;
use crate::rational::Rational;

verus! {

/// The sentinel stored in a timestamp field that carries no value.
pub const AV_NOPTS_VALUE: i64 = i64::MIN;

/// An error from a frame operation.
#[derive(Debug, Clone, Copy, PartialEq, Eq, Structural)]
pub enum FfmpegError {
    /// An allocation failed.
    Alloc,
    /// An argument was rejected.
    Arguments,
}

/// An audio channel layout: the order discriminant, the channel count, and
/// the channel mask.
#[derive(Debug, Clone, Copy, PartialEq, Eq, Structural)]
pub struct AVChannelLayout {
    /// The channel-order discriminant.
    pub order: i32,
    /// The number of channels.
    pub nb_channels: i32,
    /// The channel mask, one bit per channel position.
    pub mask: u64,
}

/// The timestamp stored for an optional value: the value itself, or the
/// no-value sentinel.
pub open spec fn spec_or_nopts(v: Option<i64>) -> i64 {
    match v {
        Some(x) => x,
        None => i64::MIN,
    }
}

/// The optional value read back from a stored timestamp.
pub open spec fn spec_opt_ts(v: i64) -> Option<i64> {
    if v == i64::MIN {
        None
    } else {
        Some(v)
    }
}

/// The layout that `AudioChannelLayout::new` builds for a given channel
/// count: native order with the low `channels` mask bits for counts below
/// 64, otherwise only the count.
pub open spec fn spec_default_layout(channels: i32) -> AVChannelLayout {
    if 1 <= channels < 64 {
        (AVChannelLayout { order: 1, nb_channels: channels, mask: ((1u64 << channels as u64) - 1) as u64 })
    } else {
        (AVChannelLayout { order: 0, nb_channels: channels, mask: 0 })
    }
}

/// An owned audio channel layout.
#[derive(Debug, Clone, Copy, PartialEq, Eq, Structural)]
pub struct AudioChannelLayout(pub AVChannelLayout);

impl Default for AudioChannelLayout {
    /// An all-zero layout, as the native library's zeroed struct.
    fn default() -> (r: Self)
        ensures
            r.0 == (AVChannelLayout { order: 0, nb_channels: 0, mask: 0 }),
    {
        AudioChannelLayout(AVChannelLayout { order: 0, nb_channels: 0, mask: 0 })
    }
}

impl AudioChannelLayout {
    /// Builds the default layout for `channels` channels; a non-positive
    /// count is rejected.
    pub fn new(channels: i32) -> (r: Result<Self, FfmpegError>)
        ensures
            channels > 0 ==> r == Ok::<Self, FfmpegError>(
                AudioChannelLayout(spec_default_layout(channels)),
            ),
            channels <= 0 ==> r == Err::<Self, FfmpegError>(FfmpegError::Arguments),
    {
        let layout = if channels >= 1 && channels < 64 {
            let c = channels as u64;
            proof {
                assert(1 <= c < 64 ==> 1u64 << c >= 1) by (bit_vector);
            }
            AVChannelLayout { order: 1, nb_channels: channels, mask: (1u64 << c) - 1 }
        } else {
            AVChannelLayout { order: 0, nb_channels: channels, mask: 0 }
        };
        let wrapped = AudioChannelLayout(layout);
        match wrapped.validate() {
            Ok(_) => Ok(wrapped),
            Err(e) => Err(e),
        }
    }

    /// Accepts the layout when it holds at least one channel.
    pub fn validate(&self) -> (r: Result<(), FfmpegError>)
        ensures
            self.0.nb_channels > 0 ==> r == Ok::<(), FfmpegError>(()),
            self.0.nb_channels <= 0 ==> r == Err::<(), FfmpegError>(FfmpegError::Arguments),
    {
        if self.0.nb_channels <= 0 {
            return Err(FfmpegError::Arguments);
        }
        Ok(())
    }

    /// Takes ownership of a bare layout value.
    pub fn wrap(layout: AVChannelLayout) -> (r: Self)
        ensures
            r.0 == layout,
    {
        AudioChannelLayout(layout)
    }

    /// The number of channels in the layout.
    pub fn channel_count(&self) -> (r: i32)
        ensures
            r == self.0.nb_channels,
    {
        self.0.nb_channels
    }

    /// Consumes the wrapper and returns the bare layout.
    pub fn into_inner(self) -> (r: AVChannelLayout)
        ensures
            r == self.0,
    {
        self.0
    }

    /// Moves this layout into `layout`.
    pub(crate) fn apply(self, layout: &mut AVChannelLayout)
        ensures
            *final(layout) == self.0,
    {
        *layout = self.0;
    }
}

/// A decoded frame, audio or video.
#[derive(Debug, Clone)]
pub struct GenericFrame {
    /// The presentation timestamp, or the no-value sentinel.
    pub pts: i64,
    /// The decoding timestamp of the packet the frame came from, or the
    /// no-value sentinel.
    pub pkt_dts: i64,
    /// The best-effort presentation timestamp, or the no-value sentinel.
    pub best_effort_timestamp: i64,
    /// The duration, or the no-value sentinel.
    pub duration: i64,
    /// The time base that the timestamps count in.
    pub time_base: Rational,
    /// The pixel or sample format discriminant; negative when unset.
    pub format: i32,
    /// The picture width in pixels; zero for audio.
    pub width: i32,
    /// The picture height in pixels; zero for audio.
    pub height: i32,
    /// The sample aspect ratio of the picture.
    pub sample_aspect_ratio: Rational,
    /// Nonzero when the frame is a keyframe.
    pub key_frame: i32,
    /// The picture-type discriminant.
    pub pict_type: i32,
    /// The number of audio samples per channel; zero for video.
    pub nb_samples: i32,
    /// The audio sample rate; zero for video.
    pub sample_rate: i32,
    /// The audio channel layout.
    pub ch_layout: AVChannelLayout,
    /// The number of bytes per line of each data plane.
    pub linesize: Vec<i32>,
}

/// The number of data planes a frame describes.
pub const FRAME_PLANES: usize = 8;

impl GenericFrame {
    /// A frame is well formed when it describes exactly the fixed number of
    /// data planes.
    pub open spec fn wf(&self) -> bool {
        self.linesize@.len() == FRAME_PLANES
    }

    /// Creates a fresh frame with every field unset.
    pub fn new() -> (r: Result<GenericFrame, FfmpegError>)
        ensures
            r matches Ok(f) && f.wf(),
            r matches Ok(f) ==> {
                &&& f.pts == AV_NOPTS_VALUE
                &&& f.pkt_dts == AV_NOPTS_VALUE
                &&& f.best_effort_timestamp == AV_NOPTS_VALUE
                &&& f.duration == 0
                &&& f.time_base == (Rational { numerator: 0, denominator: 1 })
                &&& f.format == -1
                &&& f.width == 0
                &&& f.height == 0
                &&& f.sample_aspect_ratio == (Rational { numerator: 0, denominator: 1 })
                &&& f.key_frame == 0
                &&& f.pict_type == 0
                &&& f.nb_samples == 0
                &&& f.sample_rate == 0
                &&& f.ch_layout == (AVChannelLayout { order: 0, nb_channels: 0, mask: 0 })
                &&& f.linesize@ =~= Seq::new(FRAME_PLANES as nat, |i: int| 0i32)
            },
    {
        let mut linesize: Vec<i32> = Vec::new();
        let mut i: usize = 0;
        while i < FRAME_PLANES
            invariant
                i <= FRAME_PLANES,
                linesize@ =~= Seq::new(i as nat, |j: int| 0i32),
            decreases FRAME_PLANES - i,
        {
            linesize.push(0);
            i = i + 1;
        }
        Ok(GenericFrame {
            pts: AV_NOPTS_VALUE,
            pkt_dts: AV_NOPTS_VALUE,
            best_effort_timestamp: AV_NOPTS_VALUE,
            duration: 0,
            time_base: Rational { numerator: 0, denominator: 1 },
            format: -1,
            width: 0,
            height: 0,
            sample_aspect_ratio: Rational { numerator: 0, denominator: 1 },
            key_frame: 0,
            pict_type: 0,
            nb_samples: 0,
            sample_rate: 0,
            ch_layout: AVChannelLayout { order: 0, nb_channels: 0, mask: 0 },
            linesize,
        })
    }

    /// Makes this frame a video frame.
    pub fn video(self) -> (r: VideoFrame)
        ensures
            r.0 == self,
    {
        VideoFrame(self)
    }

    /// Makes this frame an audio frame.
    pub fn audio(self) -> (r: AudioFrame)
        ensures
            r.0 == self,
    {
        AudioFrame(self)
    }

    /// The presentation timestamp, when one is set.
    pub fn pts(&self) -> (r: Option<i64>)
        ensures
            r == spec_opt_ts(self.pts),
    {
        if self.pts == AV_NOPTS_VALUE {
            None
        } else {
            Some(self.pts)
        }
    }

    /// Sets the presentation timestamp, and the best-effort timestamp with
    /// it.
    pub fn set_pts(&mut self, pts: Option<i64>)
        ensures
            *final(self) == (GenericFrame {
                pts: spec_or_nopts(pts),
                best_effort_timestamp: spec_or_nopts(pts),
                ..*old(self)
            }),
    {
        let v = match pts {
            Some(x) => x,
            None => AV_NOPTS_VALUE,
        };
        self.pts = v;
        self.best_effort_timestamp = v;
    }

    /// The duration, when one is set.
    pub fn duration(&self) -> (r: Option<i64>)
        ensures
            r == spec_opt_ts(self.duration),
    {
        if self.duration == AV_NOPTS_VALUE {
            None
        } else {
            Some(self.duration)
        }
    }

    /// Sets the duration.
    pub fn set_duration(&mut self, duration: Option<i64>)
        ensures
            *final(self) == (GenericFrame { duration: spec_or_nopts(duration), ..*old(self) }),
    {
        self.duration = match duration {
            Some(x) => x,
            None => AV_NOPTS_VALUE,
        };
    }

    /// The best-effort presentation timestamp, when one is set.
    pub fn best_effort_timestamp(&self) -> (r: Option<i64>)
        ensures
            r == spec_opt_ts(self.best_effort_timestamp),
    {
        if self.best_effort_timestamp == AV_NOPTS_VALUE {
            None
        } else {
            Some(self.best_effort_timestamp)
        }
    }

    /// The decoding timestamp, when one is set.
    pub fn dts(&self) -> (r: Option<i64>)
        ensures
            r == spec_opt_ts(self.pkt_dts),
    {
        if self.pkt_dts == AV_NOPTS_VALUE {
            None
        } else {
            Some(self.pkt_dts)
        }
    }

    /// Sets the decoding timestamp.
    pub fn set_dts(&mut self, dts: Option<i64>)
        ensures
            *final(self) == (GenericFrame { pkt_dts: spec_or_nopts(dts), ..*old(self) }),
    {
        self.pkt_dts = match dts {
            Some(x) => x,
            None => AV_NOPTS_VALUE,
        };
    }

    /// The time base of the frame.
    pub fn time_base(&self) -> (r: Rational)
        ensures
            r == self.time_base,
    {
        self.time_base
    }

    /// Sets the time base of the frame.
    pub fn set_time_base(&mut self, time_base: Rational)
        ensures
            *final(self) == (GenericFrame { time_base: time_base, ..*old(self) }),
    {
        self.time_base = time_base;
    }

    /// The format discriminant of the frame.
    pub fn format(&self) -> (r: i32)
        ensures
            r == self.format,
    {
        self.format
    }

    /// Sets the format discriminant of the frame.
    pub fn set_format(&mut self, format: i32)
        ensures
            *final(self) == (GenericFrame { format: format, ..*old(self) }),
    {
        self.format = format;
    }

    /// True when the frame carries audio: its channel layout names channels.
    pub fn is_audio(&self) -> (r: bool)
        ensures
            r == (self.ch_layout.nb_channels != 0),
    {
        self.ch_layout.nb_channels != 0
    }

    /// True when the frame carries video: it has a width.
    pub fn is_video(&self) -> (r: bool)
        ensures
            r == (self.width != 0),
    {
        self.width != 0
    }

    /// The line size of the plane at `index`, when the index is in range.
    pub fn linesize(&self, index: usize) -> (r: Option<i32>)
        ensures
            index < self.linesize@.len() ==> r == Some(self.linesize@[index as int]),
            index >= self.linesize@.len() ==> r is None,
    {
        if index >= self.linesize.len() {
            return None;
        }
        Some(self.linesize[index])
    }

    /// Attaches a data buffer to the frame.
    ///
    /// The model keeps the geometry only: a video frame gets its width as
    /// the first line size; a negative alignment is rejected, as is a frame
    /// with neither video geometry nor audio geometry.
    pub fn alloc_frame_buffer(&mut self, alignment: Option<i32>) -> (r: Result<(), FfmpegError>)
        requires
            old(self).wf(),
        ensures
            final(self).wf(),
            ({
                let align_ok = match alignment {
                    Some(a) => a >= 0,
                    None => true,
                };
                let video_ok = old(self).width > 0 && old(self).height > 0 && old(self).format
                    >= 0;
                let audio_ok = old(self).nb_samples > 0 && old(self).ch_layout.nb_channels > 0
                    && old(self).format >= 0;
                if align_ok && video_ok {
                    r == Ok::<(), FfmpegError>(()) && *final(self) == (GenericFrame {
                        linesize: final(self).linesize,
                        ..*old(self)
                    }) && final(self).linesize@ == old(self).linesize@.update(
                        0,
                        old(self).width,
                    )
                } else if align_ok && audio_ok {
                    r == Ok::<(), FfmpegError>(()) && *final(self) == *old(self)
                } else {
                    r == Err::<(), FfmpegError>(FfmpegError::Arguments) && *final(self) == *old(self)
                }
            }),
    {
        let align_ok = match alignment {
            Some(a) => a >= 0,
            None => true,
        };
        if !align_ok {
            return Err(FfmpegError::Arguments);
        }
        if self.width > 0 && self.height > 0 && self.format >= 0 {
            let w = self.width;
            self.linesize.set(0, w);
            return Ok(());
        }
        if self.nb_samples > 0 && self.ch_layout.nb_channels > 0 && self.format >= 0 {
            return Ok(());
        }
        Err(FfmpegError::Arguments)
    }
}

/// A video frame: a frame read through its video properties.
#[derive(Debug, Clone)]
pub struct VideoFrame(pub GenericFrame);

impl VideoFrame {
    /// Creates a fresh video frame.
    pub fn new() -> (r: Result<VideoFrame, FfmpegError>)
        ensures
            r matches Ok(f) && f.0.wf(),
            r matches Ok(f) ==> f.0.width == 0 && f.0.height == 0 && f.0.format == -1
                && f.0.pict_type == 0 && f.0.key_frame == 0,
    {
        let frame = match GenericFrame::new() {
            Ok(f) => f,
            Err(e) => {
                return Err(e);
            },
        };
        Ok(VideoFrame(frame))
    }

    /// The width of the frame.
    pub fn width(&self) -> (r: usize)
        ensures
            r == self.0.width as usize,
    {
        self.0.width as usize
    }

    /// The height of the frame.
    pub fn height(&self) -> (r: usize)
        ensures
            r == self.0.height as usize,
    {
        self.0.height as usize
    }

    /// The sample aspect ratio of the frame.
    pub fn sample_aspect_ratio(&self) -> (r: Rational)
        ensures
            r == self.0.sample_aspect_ratio,
    {
        self.0.sample_aspect_ratio
    }

    /// Sets the sample aspect ratio of the frame.
    pub fn set_sample_aspect_ratio(&mut self, sample_aspect_ratio: Rational)
        ensures
            final(self).0 == (GenericFrame {
                sample_aspect_ratio: sample_aspect_ratio,
                ..old(self).0
            }),
    {
        self.0.sample_aspect_ratio = sample_aspect_ratio;
    }

    /// Sets the width of the frame.
    pub fn set_width(&mut self, width: usize)
        ensures
            final(self).0 == (GenericFrame { width: width as i32, ..old(self).0 }),
    {
        self.0.width = width as i32;
    }

    /// Sets the height of the frame.
    pub fn set_height(&mut self, height: usize)
        ensures
            final(self).0 == (GenericFrame { height: height as i32, ..old(self).0 }),
    {
        self.0.height = height as i32;
    }

    /// True when the frame is a keyframe.
    pub fn is_keyframe(&self) -> (r: bool)
        ensures
            r == (self.0.key_frame != 0),
    {
        self.0.key_frame != 0
    }

    /// The picture type of the frame.
    pub fn pict_type(&self) -> (r: AVPictureType)
        ensures
            r.0 == self.0.pict_type,
    {
        AVPictureType(self.0.pict_type)
    }

    /// Sets the picture type of the frame.
    pub fn set_pict_type(&mut self, pict_type: AVPictureType)
        ensures
            final(self).0 == (GenericFrame { pict_type: pict_type.0, ..old(self).0 }),
    {
        self.0.pict_type = pict_type.0;
    }

    /// The pixel format of the frame.
    pub fn format(&self) -> (r: AVPixelFormat)
        ensures
            r.0 == self.0.format,
    {
        AVPixelFormat(self.0.format)
    }

    /// Sets the format discriminant of the underlying frame.
    pub fn set_format(&mut self, format: i32)
        ensures
            final(self).0 == (GenericFrame { format: format, ..old(self).0 }),
    {
        self.0.set_format(format);
    }

    /// Sets the presentation timestamp of the underlying frame.
    pub fn set_pts(&mut self, pts: Option<i64>)
        ensures
            final(self).0 == (GenericFrame {
                pts: spec_or_nopts(pts),
                best_effort_timestamp: spec_or_nopts(pts),
                ..old(self).0
            }),
    {
        self.0.set_pts(pts);
    }

    /// Sets the decoding timestamp of the underlying frame.
    pub fn set_dts(&mut self, dts: Option<i64>)
        ensures
            final(self).0 == (GenericFrame { pkt_dts: spec_or_nopts(dts), ..old(self).0 }),
    {
        self.0.set_dts(dts);
    }

    /// Sets the duration of the underlying frame.
    pub fn set_duration(&mut self, duration: Option<i64>)
        ensures
            final(self).0 == (GenericFrame { duration: spec_or_nopts(duration), ..old(self).0 }),
    {
        self.0.set_duration(duration);
    }

    /// Sets the time base of the underlying frame.
    pub fn set_time_base(&mut self, time_base: Rational)
        ensures
            final(self).0 == (GenericFrame { time_base: time_base, ..old(self).0 }),
    {
        self.0.set_time_base(time_base);
    }

    /// The line size of the plane at `index`, when the index is in range.
    pub fn linesize(&self, index: usize) -> (r: Option<i32>)
        ensures
            index < self.0.linesize@.len() ==> r == Some(self.0.linesize@[index as int]),
            index >= self.0.linesize@.len() ==> r is None,
    {
        self.0.linesize(index)
    }

    /// Attaches a data buffer to the underlying frame.
    pub fn alloc_frame_buffer(&mut self, alignment: Option<i32>) -> (r: Result<(), FfmpegError>)
        requires
            old(self).0.wf(),
        ensures
            final(self).0.wf(),
    {
        self.0.alloc_frame_buffer(alignment)
    }
}

/// An audio frame: a frame read through its audio properties.
#[derive(Debug, Clone)]
pub struct AudioFrame(pub GenericFrame);

impl AudioFrame {
    /// Replaces the channel layout with the default layout for
    /// `channel_count` channels; a count that does not name a positive
    /// 32-bit number of channels is rejected.
    pub fn set_channel_layout_default(&mut self, channel_count: usize) -> (r: Result<
        (),
        FfmpegError,
    >)
        ensures
            channel_count as i32 > 0 ==> r == Ok::<(), FfmpegError>(()) && final(self).0 == (
            GenericFrame {
                ch_layout: spec_default_layout(channel_count as i32),
                ..old(self).0
            }),
            channel_count as i32 <= 0 ==> r == Err::<(), FfmpegError>(FfmpegError::Arguments)
                && *final(self) == *old(self),
    {
        let layout = match AudioChannelLayout::new(channel_count as i32) {
            Ok(l) => l,
            Err(e) => {
                return Err(e);
            },
        };
        layout.apply(&mut self.0.ch_layout);
        Ok(())
    }

    /// Replaces the channel layout with a custom layout, after validating
    /// it.
    pub fn set_channel_layout_custom(&mut self, custom_layout: AudioChannelLayout) -> (r: Result<
        (),
        FfmpegError,
    >)
        ensures
            custom_layout.0.nb_channels > 0 ==> r == Ok::<(), FfmpegError>(()) && final(self).0
                == (GenericFrame { ch_layout: custom_layout.0, ..old(self).0 }),
            custom_layout.0.nb_channels <= 0 ==> r == Err::<(), FfmpegError>(
                FfmpegError::Arguments,
            ) && *final(self) == *old(self),
    {
        match custom_layout.validate() {
            Ok(_) => {},
            Err(e) => {
                return Err(e);
            },
        }
        custom_layout.apply(&mut self.0.ch_layout);
        Ok(())
    }

    /// The channel layout of the frame.
    pub fn channel_layout(&self) -> (r: AVChannelLayout)
        ensures
            r == self.0.ch_layout,
    {
        self.0.ch_layout
    }

    /// The channel count of the frame.
    pub fn channel_count(&self) -> (r: usize)
        ensures
            r == self.0.ch_layout.nb_channels as usize,
    {
        self.0.ch_layout.nb_channels as usize
    }

    /// The number of samples per channel in the frame.
    pub fn nb_samples(&self) -> (r: i32)
        ensures
            r == self.0.nb_samples,
    {
        self.0.nb_samples
    }

    /// Sets the number of samples per channel in the frame.
    pub fn set_nb_samples(&mut self, nb_samples: usize)
        ensures
            final(self).0 == (GenericFrame { nb_samples: nb_samples as i32, ..old(self).0 }),
    {
        self.0.nb_samples = nb_samples as i32;
    }

    /// The sample rate of the frame.
    pub fn sample_rate(&self) -> (r: i32)
        ensures
            r == self.0.sample_rate,
    {
        self.0.sample_rate
    }

    /// Sets the sample rate of the frame.
    pub fn set_sample_rate(&mut self, sample_rate: usize)
        ensures
            final(self).0 == (GenericFrame { sample_rate: sample_rate as i32, ..old(self).0 }),
    {
        self.0.sample_rate = sample_rate as i32;
    }

    /// True when the frame carries audio.
    pub fn is_audio(&self) -> (r: bool)
        ensures
            r == (self.0.ch_layout.nb_channels != 0),
    {
        self.0.is_audio()
    }

    /// True when the frame carries video.
    pub fn is_video(&self) -> (r: bool)
        ensures
            r == (self.0.width != 0),
    {
        self.0.is_video()
    }

    /// Sets the format discriminant of the underlying frame.
    pub fn set_format(&mut self, format: i32)
        ensures
            final(self).0 == (GenericFrame { format: format, ..old(self).0 }),
    {
        self.0.set_format(format);
    }

    /// Sets the presentation timestamp of the underlying frame.
    pub fn set_pts(&mut self, pts: Option<i64>)
        ensures
            final(self).0 == (GenericFrame {
                pts: spec_or_nopts(pts),
                best_effort_timestamp: spec_or_nopts(pts),
                ..old(self).0
            }),
    {
        self.0.set_pts(pts);
    }

    /// Sets the decoding timestamp of the underlying frame.
    pub fn set_dts(&mut self, dts: Option<i64>)
        ensures
            final(self).0 == (GenericFrame { pkt_dts: spec_or_nopts(dts), ..old(self).0 }),
    {
        self.0.set_dts(dts);
    }

    /// Sets the duration of the underlying frame.
    pub fn set_duration(&mut self, duration: Option<i64>)
        ensures
            final(self).0 == (GenericFrame { duration: spec_or_nopts(duration), ..old(self).0 }),
    {
        self.0.set_duration(duration);
    }

    /// Sets the time base of the underlying frame.
    pub fn set_time_base(&mut self, time_base: Rational)
        ensures
            final(self).0 == (GenericFrame { time_base: time_base, ..old(self).0 }),
    {
        self.0.set_time_base(time_base);
    }

    /// Attaches a data buffer to the underlying frame.
    pub fn alloc_frame_buffer(&mut self, alignment: Option<i32>) -> (r: Result<(), FfmpegError>)
        requires
            old(self).0.wf(),
        ensures
            final(self).0.wf(),
            ({
                let align_ok = match alignment {
                    Some(a) => a >= 0,
                    None => true,
                };
                let audio_ok = old(self).0.nb_samples > 0 && old(self).0.ch_layout.nb_channels
                    > 0 && old(self).0.format >= 0;
                let video_ok = old(self).0.width > 0 && old(self).0.height > 0
                    && old(self).0.format >= 0;
                &&& !(align_ok && (audio_ok || video_ok)) ==> r == Err::<(), FfmpegError>(
                    FfmpegError::Arguments,
                ) && *final(self) == *old(self)
                &&& align_ok && audio_ok && !video_ok ==> r == Ok::<(), FfmpegError>(()) && *final(self) == *old(self)
            }),
    {
        self.0.alloc_frame_buffer(alignment)
    }
}

} // verus!
