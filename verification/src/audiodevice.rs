//! The chunked audio data model and the device descriptors.
//!
//! An [`AudioChunk`] is the unit passed between pipeline stages: a
//! fixed-shape multi-channel buffer with level and timing metadata. The
//! device descriptors are the static configuration handed to a concrete
//! capture or playback backend; building one from a validated configuration
//! is pure dispatch and is verified here, while the backend itself performs
//! the I/O outside this library.

use vstd::prelude::*;

use crate::PrcFmt;
use crate::config::Device;
use crate::config::Devices;
use crate::config::SampleFormat;

verus! {

/// Chunk timestamps come from the system's monotonic clock.
#[verifier::external_type_specification]
#[verifier::external_body]
pub struct ExInstant(std::time::Instant);

/// Relies on std::time::Instant::now. The value depends on the clock, so
/// nothing is promised of it; timestamps serve diagnostics only and never
/// ordering decisions.
#[verifier::external_body]
fn now_instant() -> std::time::Instant {
    std::time::Instant::now()
}

/// A message on the audio data path: either one chunk of audio, or the
/// marker that no further chunk will follow.
pub enum AudioMessage {
    Audio(AudioChunk),
    EndOfStream,
}

/// Main container of audio data: `channels` sample sequences of `frames`
/// samples each, of which the first `valid_frames` hold real data.
pub struct AudioChunk {
    pub frames: usize,
    pub channels: usize,
    pub maxval: PrcFmt,
    pub minval: PrcFmt,
    pub timestamp: std::time::Instant,
    pub valid_frames: usize,
    pub waveforms: Vec<Vec<PrcFmt>>,
}

impl AudioChunk {
    /// The chunk invariant: the channel count equals the number of
    /// waveforms, every waveform holds exactly `frames` samples, and the
    /// valid prefix fits in the buffer.
    pub open spec fn well_formed(self) -> bool {
        &&& self.channels == self.waveforms@.len()
        &&& forall|i: int|
            0 <= i < self.waveforms@.len() ==> (#[trigger] self.waveforms@[i])@.len()
                == self.frames
        &&& self.valid_frames <= self.frames
    }

    /// Build a chunk from per-channel sample sequences and explicit level
    /// and validity metadata. Frame and channel counts are derived from the
    /// waveforms, so the channel collection must be non-empty and uniform.
    pub fn new(
        waveforms: Vec<Vec<PrcFmt>>,
        maxval: PrcFmt,
        minval: PrcFmt,
        valid_frames: usize,
    ) -> (chunk: Self)
        requires
            waveforms@.len() > 0,
            forall|i: int|
                0 <= i < waveforms@.len() ==> (#[trigger] waveforms@[i])@.len()
                    == waveforms@[0]@.len(),
            valid_frames <= waveforms@[0]@.len(),
        ensures
            chunk.well_formed(),
            chunk.channels == waveforms@.len(),
            chunk.frames == waveforms@[0]@.len(),
            chunk.maxval == maxval,
            chunk.minval == minval,
            chunk.valid_frames == valid_frames,
            chunk.waveforms == waveforms,
    {
        let timestamp = now_instant();
        let channels = waveforms.len();
        let frames = waveforms[0].len();
        AudioChunk { frames, channels, maxval, minval, timestamp, valid_frames, waveforms }
    }

    /// Build a sibling chunk that keeps another chunk's timing, validity and
    /// level metadata but carries new waveform data, as a filter or mixer
    /// does. The channel count is recomputed from the new waveforms; the
    /// frame count is inherited, so each new waveform must match it.
    pub fn from(chunk: &AudioChunk, waveforms: Vec<Vec<PrcFmt>>) -> (derived: Self)
        requires
            chunk.valid_frames <= chunk.frames,
            forall|i: int|
                0 <= i < waveforms@.len() ==> (#[trigger] waveforms@[i])@.len() == chunk.frames,
        ensures
            derived.well_formed(),
            derived.timestamp == chunk.timestamp,
            derived.maxval == chunk.maxval,
            derived.minval == chunk.minval,
            derived.frames == chunk.frames,
            derived.valid_frames == chunk.valid_frames,
            derived.channels == waveforms@.len(),
            derived.waveforms == waveforms,
    {
        let timestamp = chunk.timestamp;
        let maxval = chunk.maxval;
        let minval = chunk.minval;
        let frames = chunk.frames;
        let valid_frames = chunk.valid_frames;
        let channels = waveforms.len();
        AudioChunk { frames, channels, maxval, minval, timestamp, valid_frames, waveforms }
    }
}

/// Every sample of every waveform lies between `lo` and `hi`.
pub open spec fn spec_samples_within(waveforms: Seq<Vec<PrcFmt>>, lo: int, hi: int) -> bool {
    forall|i: int, j: int|
        0 <= i < waveforms.len() && 0 <= j < (#[trigger] waveforms[i])@.len() ==> lo
            <= #[trigger] waveforms[i]@[j] <= hi
}

/// Some waveform holds the sample value `v`.
pub open spec fn spec_some_sample_is(waveforms: Seq<Vec<PrcFmt>>, v: int) -> bool {
    exists|i: int, j: int|
        0 <= i < waveforms.len() && 0 <= j < (#[trigger] waveforms[i])@.len()
            && #[trigger] waveforms[i]@[j] == v
}

/// The extreme sample values observed across a set of waveforms, maximum
/// first: the level metadata a chunk carries. With no samples at all both
/// extremes are zero.
pub fn find_extremes(waveforms: &Vec<Vec<PrcFmt>>) -> (extremes: (PrcFmt, PrcFmt))
    ensures
        spec_samples_within(waveforms@, extremes.1 as int, extremes.0 as int),
        spec_some_sample_is(waveforms@, extremes.0 as int) || (extremes.0 == 0 && extremes.1 == 0
            && !spec_some_sample_is(waveforms@, extremes.0 as int)),
        spec_some_sample_is(waveforms@, extremes.0 as int) ==> spec_some_sample_is(
            waveforms@,
            extremes.1 as int,
        ),
{
    let mut maxval: PrcFmt = 0;
    let mut minval: PrcFmt = 0;
    let mut found = false;
    let mut i: usize = 0;
    while i < waveforms.len()
        invariant
            i <= waveforms@.len(),
            !found ==> maxval == 0 && minval == 0,
            !found ==> forall|k: int|
                0 <= k < i ==> (#[trigger] waveforms@[k])@.len() == 0,
            found ==> spec_some_sample_is(waveforms@, maxval as int),
            found ==> spec_some_sample_is(waveforms@, minval as int),
            forall|k: int, j: int|
                0 <= k < i && 0 <= j < (#[trigger] waveforms@[k])@.len() ==> minval
                    <= #[trigger] waveforms@[k]@[j] <= maxval,
        decreases waveforms@.len() - i,
    {
        let waveform = &waveforms[i];
        let mut j: usize = 0;
        while j < waveform.len()
            invariant
                0 <= i < waveforms@.len(),
                waveform == waveforms@[i as int],
                j <= waveform@.len(),
                !found ==> maxval == 0 && minval == 0,
                !found ==> forall|k: int|
                    0 <= k < i ==> (#[trigger] waveforms@[k])@.len() == 0,
                !found ==> j == 0,
                found ==> spec_some_sample_is(waveforms@, maxval as int),
                found ==> spec_some_sample_is(waveforms@, minval as int),
                forall|k: int, l: int|
                    0 <= k < i && 0 <= l < (#[trigger] waveforms@[k])@.len() ==> minval
                        <= #[trigger] waveforms@[k]@[l] <= maxval,
                forall|l: int| 0 <= l < j ==> minval <= #[trigger] waveform@[l] <= maxval,
            decreases waveform@.len() - j,
        {
            let sample = waveform[j];
            if !found {
                maxval = sample;
                minval = sample;
                found = true;
            } else {
                if sample > maxval {
                    maxval = sample;
                }
                if sample < minval {
                    minval = sample;
                }
            }
            proof {
                assert(waveforms@[i as int]@[j as int] == sample);
            }
            j += 1;
        }
        i += 1;
    }
    (maxval, minval)
}

/// A status report from a device thread to the orchestrator: lifecycle
/// events, transient conditions, and fatal device errors with a description.
pub enum StatusMessage {
    PlaybackReady,
    CaptureReady,
    PlaybackError { message: String },
    CaptureError { message: String },
    PlaybackDone,
    CaptureDone,
    SilenceDetected,
}

/// A command from the orchestrator into the capture thread. A stop request
/// must be honored within one chunk period.
pub enum CommandMessage {
    Stop,
}

/// Static configuration for one playback endpoint, tagged by backend kind.
/// The concrete backend that performs the I/O is built from this outside
/// the library.
#[derive(Clone, Debug, PartialEq)]
pub enum PlaybackDeviceDescriptor {
    Alsa {
        devname: String,
        samplerate: usize,
        bufferlength: usize,
        channels: usize,
        format: SampleFormat,
        target_level: usize,
        adjust_period: usize,
    },
    Pulse {
        devname: String,
        samplerate: usize,
        bufferlength: usize,
        channels: usize,
        format: SampleFormat,
    },
    File {
        filename: String,
        samplerate: usize,
        bufferlength: usize,
        channels: usize,
        format: SampleFormat,
    },
}

/// Static configuration for one capture endpoint, tagged by backend kind.
#[derive(Clone, Debug, PartialEq)]
pub enum CaptureDeviceDescriptor {
    Alsa {
        devname: String,
        samplerate: usize,
        bufferlength: usize,
        channels: usize,
        format: SampleFormat,
        silence_threshold: PrcFmt,
        silence_timeout: u64,
    },
    Pulse {
        devname: String,
        samplerate: usize,
        bufferlength: usize,
        channels: usize,
        format: SampleFormat,
        silence_threshold: PrcFmt,
        silence_timeout: u64,
    },
    File {
        filename: String,
        samplerate: usize,
        bufferlength: usize,
        channels: usize,
        format: SampleFormat,
        silence_threshold: PrcFmt,
        silence_timeout: u64,
    },
}

/// Describe the playback device of a validated configuration: dispatch on
/// the backend kind and collect the endpoint's identity, shape and tuning
/// into one descriptor.
pub fn get_playback_device(conf: Devices) -> (d: PlaybackDeviceDescriptor)
    ensures
        d == match conf.playback {
            Device::Alsa { channels, device, format } => (PlaybackDeviceDescriptor::Alsa {
                devname: device,
                samplerate: conf.samplerate,
                bufferlength: conf.chunksize,
                channels,
                format,
                target_level: conf.target_level,
                adjust_period: conf.adjust_period,
            }),
            Device::Pulse { channels, device, format } => (PlaybackDeviceDescriptor::Pulse {
                devname: device,
                samplerate: conf.samplerate,
                bufferlength: conf.chunksize,
                channels,
                format,
            }),
            Device::File { channels, filename, format } => (PlaybackDeviceDescriptor::File {
                filename,
                samplerate: conf.samplerate,
                bufferlength: conf.chunksize,
                channels,
                format,
            }),
        },
{
    match conf.playback {
        Device::Alsa { channels, device, format } => PlaybackDeviceDescriptor::Alsa {
            devname: device,
            samplerate: conf.samplerate,
            bufferlength: conf.chunksize,
            channels,
            format,
            target_level: conf.target_level,
            adjust_period: conf.adjust_period,
        },
        Device::Pulse { channels, device, format } => PlaybackDeviceDescriptor::Pulse {
            devname: device,
            samplerate: conf.samplerate,
            bufferlength: conf.chunksize,
            channels,
            format,
        },
        Device::File { channels, filename, format } => PlaybackDeviceDescriptor::File {
            filename,
            samplerate: conf.samplerate,
            bufferlength: conf.chunksize,
            channels,
            format,
        },
    }
}

/// Describe the capture device of a validated configuration: dispatch on
/// the backend kind and collect the endpoint's identity, shape and silence
/// tuning into one descriptor.
pub fn get_capture_device(conf: Devices) -> (d: CaptureDeviceDescriptor)
    ensures
        d == match conf.capture {
            Device::Alsa { channels, device, format } => (CaptureDeviceDescriptor::Alsa {
                devname: device,
                samplerate: conf.samplerate,
                bufferlength: conf.chunksize,
                channels,
                format,
                silence_threshold: conf.silence_threshold,
                silence_timeout: conf.silence_timeout,
            }),
            Device::Pulse { channels, device, format } => (CaptureDeviceDescriptor::Pulse {
                devname: device,
                samplerate: conf.samplerate,
                bufferlength: conf.chunksize,
                channels,
                format,
                silence_threshold: conf.silence_threshold,
                silence_timeout: conf.silence_timeout,
            }),
            Device::File { channels, filename, format } => (CaptureDeviceDescriptor::File {
                filename,
                samplerate: conf.samplerate,
                bufferlength: conf.chunksize,
                channels,
                format,
                silence_threshold: conf.silence_threshold,
                silence_timeout: conf.silence_timeout,
            }),
        },
{
    match conf.capture {
        Device::Alsa { channels, device, format } => CaptureDeviceDescriptor::Alsa {
            devname: device,
            samplerate: conf.samplerate,
            bufferlength: conf.chunksize,
            channels,
            format,
            silence_threshold: conf.silence_threshold,
            silence_timeout: conf.silence_timeout,
        },
        Device::Pulse { channels, device, format } => CaptureDeviceDescriptor::Pulse {
            devname: device,
            samplerate: conf.samplerate,
            bufferlength: conf.chunksize,
            channels,
            format,
            silence_threshold: conf.silence_threshold,
            silence_timeout: conf.silence_timeout,
        },
        Device::File { channels, filename, format } => CaptureDeviceDescriptor::File {
            filename,
            samplerate: conf.samplerate,
            bufferlength: conf.chunksize,
            channels,
            format,
            silence_threshold: conf.silence_threshold,
            silence_timeout: conf.silence_timeout,
        },
    }
}

} // verus!
