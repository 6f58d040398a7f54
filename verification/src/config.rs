//! Configuration model and its validator.
//!
//! A [`Configuration`] describes the two devices, the named mixers and
//! filters, and the ordered pipeline of steps. [`validate_config`] walks the
//! pipeline once, threading a running channel count, and either accepts the
//! whole configuration or reports the first violation with enough context to
//! fix it: the step index, the offending name or channel, and the expected
//! versus actual channel count.

use vstd::prelude::*;
use vstd::string::StringExecFns;

use crate::PrcFmt;
use crate::text::decimal_string;
use crate::text::spec_decimal;

verus! {

/// A configuration error carrying a human-readable description.
pub struct ConfigError {
    desc: String,
}

impl ConfigError {
    /// The error's text.
    pub closed spec fn text(self) -> Seq<char> {
        self.desc@
    }

    pub fn new(desc: &str) -> (e: Self)
        ensures
            e.text() == desc@,
    {
        ConfigError { desc: desc.to_owned() }
    }

    /// The error's text, for the caller to log or display.
    pub fn description(&self) -> (r: &str)
        ensures
            r@ == self.text(),
    {
        self.desc.as_str()
    }
}

/// Wire sample format of a device.
#[derive(Clone, Copy, Debug, PartialEq, Eq, Structural)]
pub enum SampleFormat {
    S16LE,
    S24LE,
    S32LE,
}

/// One capture or playback endpoint, tagged by backend kind.
#[derive(Clone, Debug, PartialEq)]
pub enum Device {
    Alsa { channels: usize, device: String, format: SampleFormat },
    Pulse { channels: usize, device: String, format: SampleFormat },
    File { channels: usize, filename: String, format: SampleFormat },
}

impl Device {
    /// The endpoint's channel count.
    pub open spec fn spec_channels(self) -> usize {
        match self {
            Device::Alsa { channels, .. } => channels,
            Device::Pulse { channels, .. } => channels,
            Device::File { channels, .. } => channels,
        }
    }

    pub fn channels(&self) -> (n: usize)
        ensures
            n == self.spec_channels(),
    {
        match self {
            Device::Alsa { channels, .. } => *channels,
            Device::Pulse { channels, .. } => *channels,
            Device::File { channels, .. } => *channels,
        }
    }
}

/// The device section of a configuration: both endpoints and their tuning.
///
/// `silence_threshold` is an amplitude in the sample scale (see
/// [`crate::PrcFmt`]); `silence_timeout` is in milliseconds;
/// `adjust_period` is in seconds; `target_level` is in frames.
#[derive(Clone, Debug, PartialEq)]
pub struct Devices {
    pub samplerate: usize,
    pub chunksize: usize,
    pub target_level: usize,
    pub adjust_period: usize,
    pub silence_threshold: PrcFmt,
    pub silence_timeout: u64,
    pub capture: Device,
    pub playback: Device,
}

/// The four kinds of filter a configuration can name.
#[derive(Clone, Copy, Debug, PartialEq, Eq, Structural)]
pub enum FilterType {
    Biquad,
    Conv,
    Gain,
    Delay,
}

/// A per-channel filter definition. Filters never change the channel count.
#[derive(Clone, Debug, PartialEq)]
pub enum Filter {
    Conv { parameters: ConvParameters },
    Biquad { parameters: BiquadParameters },
    Delay { parameters: DelayParameters },
    Gain { parameters: GainParameters },
}

impl Filter {
    /// The kind tag of this filter.
    pub open spec fn spec_filter_type(self) -> FilterType {
        match self {
            Filter::Conv { .. } => FilterType::Conv,
            Filter::Biquad { .. } => FilterType::Biquad,
            Filter::Delay { .. } => FilterType::Delay,
            Filter::Gain { .. } => FilterType::Gain,
        }
    }

    pub fn filter_type(&self) -> (t: FilterType)
        ensures
            t == self.spec_filter_type(),
    {
        match self {
            Filter::Conv { .. } => FilterType::Conv,
            Filter::Biquad { .. } => FilterType::Biquad,
            Filter::Delay { .. } => FilterType::Delay,
            Filter::Gain { .. } => FilterType::Gain,
        }
    }
}

/// Coefficients for a convolution filter: inline values, or a reference to
/// an external coefficient file (whose existence only the I/O layer can
/// check).
#[derive(Clone, Debug, PartialEq)]
pub enum ConvParameters {
    File { filename: String },
    Values { values: Vec<PrcFmt> },
}

/// A biquad section: free-form coefficients or a named design.
///
/// Frequencies, Q values, slopes and gains use the fixed-point sample scale.
#[derive(Clone, Debug, PartialEq)]
pub enum BiquadParameters {
    Free { a1: PrcFmt, a2: PrcFmt, b0: PrcFmt, b1: PrcFmt, b2: PrcFmt },
    Highpass { freq: PrcFmt, q: PrcFmt },
    Lowpass { freq: PrcFmt, q: PrcFmt },
    Peaking { freq: PrcFmt, gain: PrcFmt, q: PrcFmt },
    Highshelf { freq: PrcFmt, slope: PrcFmt, gain: PrcFmt },
    Lowshelf { freq: PrcFmt, slope: PrcFmt, gain: PrcFmt },
}

/// A fixed gain, optionally sign-inverting.
#[derive(Clone, Debug, PartialEq)]
pub struct GainParameters {
    pub gain: PrcFmt,
    pub inverted: bool,
}

/// A fixed delay, in the caller's time unit.
#[derive(Clone, Debug, PartialEq)]
pub struct DelayParameters {
    pub delay: PrcFmt,
}

/// Declared input and output channel counts of a mixer.
#[derive(Clone, Copy, Debug, PartialEq, Eq, Structural)]
pub struct MixerChannels {
    pub in_count: usize,
    pub out_count: usize,
}

/// One weighted, optionally inverted contribution to an output channel.
#[derive(Clone, Debug, PartialEq)]
pub struct MixerSource {
    pub channel: usize,
    pub gain: PrcFmt,
    pub inverted: bool,
}

/// All contributions to one output channel.
#[derive(Clone, Debug, PartialEq)]
pub struct MixerMapping {
    pub dest: usize,
    pub sources: Vec<MixerSource>,
}

/// A channel mixer: declared channel counts plus the per-output mapping.
#[derive(Clone, Debug, PartialEq)]
pub struct Mixer {
    pub channels: MixerChannels,
    pub mapping: Vec<MixerMapping>,
}

impl Mixer {
    /// The mixer's own invariant: every mapped destination lies below the
    /// declared output count and every source channel below the declared
    /// input count.
    pub open spec fn spec_valid(self) -> bool {
        forall|i: int|
            0 <= i < self.mapping@.len() ==> {
                let m = #[trigger] self.mapping@[i];
                &&& m.dest < self.channels.out_count
                &&& forall|j: int|
                    0 <= j < m.sources@.len() ==> (#[trigger] m.sources@[j]).channel
                        < self.channels.in_count
            }
    }

    /// Check the mixer's own invariant.
    pub fn is_valid(&self) -> (r: bool)
        ensures
            r == self.spec_valid(),
    {
        let mut i: usize = 0;
        while i < self.mapping.len()
            invariant
                i <= self.mapping@.len(),
                forall|k: int|
                    0 <= k < i ==> {
                        let m = #[trigger] self.mapping@[k];
                        &&& m.dest < self.channels.out_count
                        &&& forall|j: int|
                            0 <= j < m.sources@.len() ==> (#[trigger] m.sources@[j]).channel
                                < self.channels.in_count
                    },
            decreases self.mapping@.len() - i,
        {
            let m = &self.mapping[i];
            if m.dest >= self.channels.out_count {
                proof {
                    assert(self.mapping@[i as int].dest >= self.channels.out_count);
                }
                return false;
            }
            let mut j: usize = 0;
            while j < m.sources.len()
                invariant
                    0 <= i < self.mapping@.len(),
                    m == self.mapping@[i as int],
                    j <= m.sources@.len(),
                    forall|k: int|
                        0 <= k < j ==> (#[trigger] m.sources@[k]).channel
                            < self.channels.in_count,
                decreases m.sources@.len() - j,
            {
                if m.sources[j].channel >= self.channels.in_count {
                    proof {
                        assert(self.mapping@[i as int].sources@[j as int].channel
                            >= self.channels.in_count);
                    }
                    return false;
                }
                j += 1;
            }
            i += 1;
        }
        true
    }
}

/// One stage of the configured processing sequence: apply a named mixer, or
/// apply named filters to one channel.
#[derive(Clone, Debug, PartialEq)]
pub enum PipelineStep {
    Mixer { name: String },
    Filter { channel: usize, names: Vec<String> },
}

/// A whole configuration: devices, named mixers and filters, and the
/// ordered pipeline. Names are kept as ordered (name, definition) pairs;
/// lookup takes the first pair with a matching name.
#[derive(Clone, Debug, PartialEq)]
pub struct Configuration {
    pub devices: Devices,
    pub mixers: Vec<(String, Mixer)>,
    pub filters: Vec<(String, Filter)>,
    pub pipeline: Vec<PipelineStep>,
}

/// First definition bound to `name`, if any.
pub open spec fn find_def<T>(defs: Seq<(String, T)>, name: Seq<char>) -> Option<T>
    decreases defs.len(),
{
    if defs.len() == 0 {
        None
    } else if defs[0].0@ == name {
        Some(defs[0].1)
    } else {
        find_def(defs.drop_first(), name)
    }
}

/// Look a name up among the (name, definition) pairs.
fn lookup_def<'a, T>(defs: &'a Vec<(String, T)>, name: &String) -> (r: Option<&'a T>)
    ensures
        match r {
            Some(d) => find_def(defs@, name@) == Some(*d),
            None => find_def(defs@, name@) is None,
        },
{
    proof {
        assert(defs@.skip(0) =~= defs@);
    }
    let mut i: usize = 0;
    while i < defs.len()
        invariant
            i <= defs@.len(),
            find_def(defs@, name@) == find_def(defs@.skip(i as int), name@),
        decreases defs@.len() - i,
    {
        proof {
            assert(defs@.skip(i as int).drop_first() =~= defs@.skip(i as int + 1));
        }
        if defs[i].0 == *name {
            return Some(&defs[i].1);
        }
        i += 1;
    }
    None
}

/// A filter definition's own parameters are internally consistent: a named
/// biquad design has positive frequency and positive Q or slope, a
/// convolution filter names a non-empty coefficient source, a delay is not
/// negative. Whether a referenced coefficient file exists is for the I/O
/// layer to check.
pub open spec fn spec_filter_valid(f: Filter) -> bool {
    match f {
        Filter::Conv { parameters } => match parameters {
            ConvParameters::File { filename } => filename@.len() > 0,
            ConvParameters::Values { values } => values@.len() > 0,
        },
        Filter::Biquad { parameters } => match parameters {
            BiquadParameters::Free { .. } => true,
            BiquadParameters::Highpass { freq, q } => freq > 0 && q > 0,
            BiquadParameters::Lowpass { freq, q } => freq > 0 && q > 0,
            BiquadParameters::Peaking { freq, gain, q } => freq > 0 && q > 0,
            BiquadParameters::Highshelf { freq, slope, gain } => freq > 0 && slope > 0,
            BiquadParameters::Lowshelf { freq, slope, gain } => freq > 0 && slope > 0,
        },
        Filter::Delay { parameters } => parameters.delay >= 0,
        Filter::Gain { .. } => true,
    }
}

/// Check one filter definition's own parameters.
pub fn validate_filter(f: &Filter) -> (r: bool)
    ensures
        r == spec_filter_valid(*f),
{
    match f {
        Filter::Conv { parameters } => match parameters {
            ConvParameters::File { filename } => !filename.as_str().is_empty(),
            ConvParameters::Values { values } => values.len() > 0,
        },
        Filter::Biquad { parameters } => match parameters {
            BiquadParameters::Free { .. } => true,
            BiquadParameters::Highpass { freq, q } => *freq > 0 && *q > 0,
            BiquadParameters::Lowpass { freq, q } => *freq > 0 && *q > 0,
            BiquadParameters::Peaking { freq, gain: _, q } => *freq > 0 && *q > 0,
            BiquadParameters::Highshelf { freq, slope, gain: _ } => *freq > 0 && *slope > 0,
            BiquadParameters::Lowshelf { freq, slope, gain: _ } => *freq > 0 && *slope > 0,
        },
        Filter::Delay { parameters } => parameters.delay >= 0,
        Filter::Gain { .. } => true,
    }
}

/// Whether one pipeline step is consistent at a point where `chans`
/// channels flow in: a mixer step must name a defined mixer whose declared
/// input count equals `chans`; a filter step must address a channel below
/// `chans` and name only defined, internally consistent filters.
pub open spec fn spec_step_ok(
    mixers: Seq<(String, Mixer)>,
    filters: Seq<(String, Filter)>,
    step: PipelineStep,
    chans: int,
) -> bool {
    match step {
        PipelineStep::Mixer { name } => match find_def(mixers, name@) {
            Some(m) => m.channels.in_count as int == chans,
            None => false,
        },
        PipelineStep::Filter { channel, names } => {
            &&& (channel as int) < chans
            &&& forall|j: int|
                0 <= j < names@.len() ==> match find_def(filters, (#[trigger] names@[j])@) {
                    Some(f) => spec_filter_valid(f),
                    None => false,
                }
        },
    }
}

/// Channel count flowing out of a step that `chans` channels flow into. A
/// mixer step replaces the count with its declared output count; a filter
/// step leaves it unchanged. (For a mixer name with no definition the count
/// is left unchanged; such a step is never consistent.)
pub open spec fn spec_step_out(mixers: Seq<(String, Mixer)>, step: PipelineStep, chans: int) -> int {
    match step {
        PipelineStep::Mixer { name } => match find_def(mixers, name@) {
            Some(m) => m.channels.out_count as int,
            None => chans,
        },
        PipelineStep::Filter { .. } => chans,
    }
}

/// Channel count after the first `n` pipeline steps, starting from
/// `chans_in` channels out of the capture device.
pub open spec fn spec_channels_after(
    mixers: Seq<(String, Mixer)>,
    steps: Seq<PipelineStep>,
    chans_in: int,
    n: int,
) -> int
    decreases n,
{
    if n <= 0 {
        chans_in
    } else {
        spec_step_out(mixers, steps[n - 1], spec_channels_after(mixers, steps, chans_in, n - 1))
    }
}

/// The first `n` pipeline steps are consistent when walked from `chans_in`
/// channels.
pub open spec fn spec_prefix_ok(
    mixers: Seq<(String, Mixer)>,
    filters: Seq<(String, Filter)>,
    steps: Seq<PipelineStep>,
    chans_in: int,
    n: int,
) -> bool
    decreases n,
{
    n <= 0 || {
        &&& spec_prefix_ok(mixers, filters, steps, chans_in, n - 1)
        &&& spec_step_ok(
            mixers,
            filters,
            steps[n - 1],
            spec_channels_after(mixers, steps, chans_in, n - 1),
        )
    }
}

/// A consistent prefix stays consistent when shortened.
///
/// This carries the validator's soundness: once some step violates the walk,
/// no consistent walk of the whole pipeline exists, because a consistent
/// whole would make every prefix — in particular the one ending at the
/// violating step — consistent too.
pub proof fn lemma_prefix_ok_monotone(
    mixers: Seq<(String, Mixer)>,
    filters: Seq<(String, Filter)>,
    steps: Seq<PipelineStep>,
    chans_in: int,
    i: int,
    n: int,
)
    requires
        i <= n,
        spec_prefix_ok(mixers, filters, steps, chans_in, n),
    ensures
        spec_prefix_ok(mixers, filters, steps, chans_in, i),
    decreases n - i,
{
    if i < n {
        lemma_prefix_ok_monotone(mixers, filters, steps, chans_in, i, n - 1);
    }
}

/// Validator soundness at a mixer step: in any configuration whose pipeline
/// walk is consistent up to step `i`, if the mixer step at `i` names a
/// defined mixer whose declared input count differs from the channel count
/// running at that point, then no consistent walk of the whole pipeline
/// exists — so validation, which accepts exactly the consistent
/// configurations, must fail, and by [`validate_pipeline`]'s contract the
/// reported violation identifies a step.
pub proof fn lemma_mixer_mismatch_invalidates(conf: Configuration, i: int)
    requires
        0 <= i < conf.pipeline@.len(),
        conf.prefix_ok(i),
        match conf.pipeline@[i] {
            PipelineStep::Mixer { name } => match find_def(conf.mixers@, name@) {
                Some(m) => m.channels.in_count as int != conf.channels_after(i),
                None => false,
            },
            _ => false,
        },
    ensures
        !conf.spec_valid(),
{
    if conf.spec_valid() {
        lemma_prefix_ok_monotone(
            conf.mixers@,
            conf.filters@,
            conf.pipeline@,
            conf.capture_channels(),
            i + 1,
            conf.pipeline@.len() as int,
        );
    }
}

impl Configuration {
    /// Channel count delivered by the capture device.
    pub open spec fn capture_channels(self) -> int {
        self.devices.capture.spec_channels() as int
    }

    /// Channel count the playback device expects.
    pub open spec fn playback_channels(self) -> int {
        self.devices.playback.spec_channels() as int
    }

    /// Channel count after the first `n` pipeline steps.
    pub open spec fn channels_after(self, n: int) -> int {
        spec_channels_after(self.mixers@, self.pipeline@, self.capture_channels(), n)
    }

    /// The first `n` pipeline steps are consistent.
    pub open spec fn prefix_ok(self, n: int) -> bool {
        spec_prefix_ok(self.mixers@, self.filters@, self.pipeline@, self.capture_channels(), n)
    }

    /// The whole configuration is channel-count-consistent end to end:
    /// every step is consistent in the walk from the capture channel count,
    /// and the count after the last step equals the playback channel count.
    pub open spec fn spec_valid(self) -> bool {
        &&& self.prefix_ok(self.pipeline@.len() as int)
        &&& self.channels_after(self.pipeline@.len() as int) == self.playback_channels()
    }
}

/// The first violation the validator finds, with the context needed to fix
/// the configuration: the step index, the offending name or channel, and
/// the expected versus actual channel counts.
#[derive(Clone, Debug, PartialEq)]
pub enum ValidationError {
    /// A mixer step names a mixer with no definition.
    MissingMixer { step: usize, name: String },
    /// A mixer step's declared input count differs from the channel count
    /// flowing into it.
    MixerInputMismatch { step: usize, name: String, expected: usize, found: usize },
    /// A filter step addresses a channel at or above the running count.
    ChannelOutOfRange { step: usize, channel: usize, channels: usize },
    /// A filter step names a filter with no definition.
    MissingFilter { step: usize, name: String },
    /// A named filter's own parameters are inconsistent.
    InvalidFilter { step: usize, name: String },
    /// The count after the last step differs from the playback count.
    ChannelsOutMismatch { pipeline: usize, playback: usize },
}

impl ValidationError {
    /// The error points at the first violation in the pipeline walk: all
    /// steps before it are consistent, and the named step, name or channel
    /// violates the walk exactly as the variant says.
    pub open spec fn identifies(self, conf: Configuration) -> bool {
        let mixers = conf.mixers@;
        let filters = conf.filters@;
        let steps = conf.pipeline@;
        match self {
            ValidationError::MissingMixer { step, name } => {
                &&& step < steps.len()
                &&& conf.prefix_ok(step as int)
                &&& match steps[step as int] {
                    PipelineStep::Mixer { name: n } => {
                        &&& n@ == name@
                        &&& find_def(mixers, n@) is None
                    },
                    _ => false,
                }
            },
            ValidationError::MixerInputMismatch { step, name, expected, found } => {
                &&& step < steps.len()
                &&& conf.prefix_ok(step as int)
                &&& expected as int == conf.channels_after(step as int)
                &&& match steps[step as int] {
                    PipelineStep::Mixer { name: n } => {
                        &&& n@ == name@
                        &&& match find_def(mixers, n@) {
                            Some(m) => m.channels.in_count == found && found != expected,
                            None => false,
                        }
                    },
                    _ => false,
                }
            },
            ValidationError::ChannelOutOfRange { step, channel, channels } => {
                &&& step < steps.len()
                &&& conf.prefix_ok(step as int)
                &&& channels as int == conf.channels_after(step as int)
                &&& match steps[step as int] {
                    PipelineStep::Filter { channel: c, .. } => c == channel && c >= channels,
                    _ => false,
                }
            },
            ValidationError::MissingFilter { step, name } => {
                &&& step < steps.len()
                &&& conf.prefix_ok(step as int)
                &&& match steps[step as int] {
                    PipelineStep::Filter { channel: c, names } => {
                        &&& (c as int) < conf.channels_after(step as int)
                        &&& exists|j: int|
                            {
                                &&& 0 <= j < names@.len()
                                &&& (#[trigger] names@[j])@ == name@
                                &&& find_def(filters, names@[j]@) is None
                                &&& forall|k: int|
                                    0 <= k < j ==> match find_def(
                                        filters,
                                        (#[trigger] names@[k])@,
                                    ) {
                                        Some(f) => spec_filter_valid(f),
                                        None => false,
                                    }
                            }
                    },
                    _ => false,
                }
            },
            ValidationError::InvalidFilter { step, name } => {
                &&& step < steps.len()
                &&& conf.prefix_ok(step as int)
                &&& match steps[step as int] {
                    PipelineStep::Filter { channel: c, names } => {
                        &&& (c as int) < conf.channels_after(step as int)
                        &&& exists|j: int|
                            {
                                &&& 0 <= j < names@.len()
                                &&& (#[trigger] names@[j])@ == name@
                                &&& match find_def(filters, names@[j]@) {
                                    Some(f) => !spec_filter_valid(f),
                                    None => false,
                                }
                                &&& forall|k: int|
                                    0 <= k < j ==> match find_def(
                                        filters,
                                        (#[trigger] names@[k])@,
                                    ) {
                                        Some(f) => spec_filter_valid(f),
                                        None => false,
                                    }
                            }
                    },
                    _ => false,
                }
            },
            ValidationError::ChannelsOutMismatch { pipeline, playback } => {
                &&& conf.prefix_ok(steps.len() as int)
                &&& pipeline as int == conf.channels_after(steps.len() as int)
                &&& playback as int == conf.playback_channels()
                &&& pipeline != playback
            },
        }
    }

    /// The error's message text.
    pub open spec fn spec_message(self) -> Seq<char> {
        match self {
            ValidationError::MissingMixer { step, name } => "Use of missing mixer '"@ + name@
                + "'"@,
            ValidationError::MixerInputMismatch { step, name, expected, found } => "Mixer '"@
                + name@ + "' has wrong number of input channels. Expected "@ + spec_decimal(
                expected as int,
            ) + ", found "@ + spec_decimal(found as int) + "."@,
            ValidationError::ChannelOutOfRange { step, channel, channels } =>
                "Use of non existing channel "@ + spec_decimal(channel as int),
            ValidationError::MissingFilter { step, name } => "Use of missing filter '"@ + name@
                + "'"@,
            ValidationError::InvalidFilter { step, name } => "Invalid parameters in filter '"@
                + name@ + "'"@,
            ValidationError::ChannelsOutMismatch { pipeline, playback } => "Pipeline outputs "@
                + spec_decimal(pipeline as int) + " channels, playback device has "@
                + spec_decimal(playback as int) + "."@,
        }
    }

    /// Render the violation as a configuration error with its message text.
    pub fn describe(&self) -> (e: ConfigError)
        ensures
            e.text() == self.spec_message(),
    {
        match self {
            ValidationError::MissingMixer { step: _, name } => {
                let mut s = "Use of missing mixer '".to_owned();
                s.append(name.as_str());
                s.append("'");
                proof {
                    assert(s@ =~= self.spec_message());
                }
                ConfigError::new(s.as_str())
            },
            ValidationError::MixerInputMismatch { step: _, name, expected, found } => {
                let mut s = "Mixer '".to_owned();
                s.append(name.as_str());
                s.append("' has wrong number of input channels. Expected ");
                let expected_text = decimal_string(*expected);
                s.append(expected_text.as_str());
                s.append(", found ");
                let found_text = decimal_string(*found);
                s.append(found_text.as_str());
                s.append(".");
                proof {
                    assert(s@ =~= self.spec_message());
                }
                ConfigError::new(s.as_str())
            },
            ValidationError::ChannelOutOfRange { step: _, channel, channels: _ } => {
                let mut s = "Use of non existing channel ".to_owned();
                let channel_text = decimal_string(*channel);
                s.append(channel_text.as_str());
                proof {
                    assert(s@ =~= self.spec_message());
                }
                ConfigError::new(s.as_str())
            },
            ValidationError::MissingFilter { step: _, name } => {
                let mut s = "Use of missing filter '".to_owned();
                s.append(name.as_str());
                s.append("'");
                proof {
                    assert(s@ =~= self.spec_message());
                }
                ConfigError::new(s.as_str())
            },
            ValidationError::InvalidFilter { step: _, name } => {
                let mut s = "Invalid parameters in filter '".to_owned();
                s.append(name.as_str());
                s.append("'");
                proof {
                    assert(s@ =~= self.spec_message());
                }
                ConfigError::new(s.as_str())
            },
            ValidationError::ChannelsOutMismatch { pipeline, playback } => {
                let mut s = "Pipeline outputs ".to_owned();
                let pipeline_text = decimal_string(*pipeline);
                s.append(pipeline_text.as_str());
                s.append(" channels, playback device has ");
                let playback_text = decimal_string(*playback);
                s.append(playback_text.as_str());
                s.append(".");
                proof {
                    assert(s@ =~= self.spec_message());
                }
                ConfigError::new(s.as_str())
            },
        }
    }
}

/// Validate a configuration before any thread starts: walk the pipeline
/// once, threading a running channel count from the capture device; a mixer
/// step must match and replaces the count, a filter step must stay within
/// it and name only defined, consistent filters; the final count must equal
/// the playback device's. Validation accepts exactly the consistent
/// configurations and otherwise stops at the first violation, identifying
/// it.
pub fn validate_pipeline(conf: &Configuration) -> (r: Result<(), ValidationError>)
    ensures
        r is Ok <==> conf.spec_valid(),
        r matches Err(e) ==> e.identifies(*conf),
{
    let ghost mixers = conf.mixers@;
    let ghost filters = conf.filters@;
    let ghost steps = conf.pipeline@;
    let ghost cap = conf.capture_channels();
    let mut num_channels: usize = conf.devices.capture.channels();
    let mut i: usize = 0;
    while i < conf.pipeline.len()
        invariant
            mixers == conf.mixers@,
            filters == conf.filters@,
            steps == conf.pipeline@,
            cap == conf.capture_channels(),
            i <= steps.len(),
            conf.prefix_ok(i as int),
            num_channels as int == conf.channels_after(i as int),
        decreases steps.len() - i,
    {
        match &conf.pipeline[i] {
            PipelineStep::Mixer { name } => {
                match lookup_def(&conf.mixers, name) {
                    None => {
                        proof {
                            if conf.spec_valid() {
                                lemma_prefix_ok_monotone(
                                    mixers,
                                    filters,
                                    steps,
                                    cap,
                                    i as int + 1,
                                    steps.len() as int,
                                );
                            }
                        }
                        return Err(ValidationError::MissingMixer { step: i, name: name.clone() });
                    },
                    Some(m) => {
                        if m.channels.in_count != num_channels {
                            proof {
                                if conf.spec_valid() {
                                    lemma_prefix_ok_monotone(
                                        mixers,
                                        filters,
                                        steps,
                                        cap,
                                        i as int + 1,
                                        steps.len() as int,
                                    );
                                }
                            }
                            return Err(ValidationError::MixerInputMismatch {
                                step: i,
                                name: name.clone(),
                                expected: num_channels,
                                found: m.channels.in_count,
                            });
                        }
                        num_channels = m.channels.out_count;
                    },
                }
            },
            PipelineStep::Filter { channel, names } => {
                if *channel >= num_channels {
                    proof {
                        if conf.spec_valid() {
                            lemma_prefix_ok_monotone(
                                mixers,
                                filters,
                                steps,
                                cap,
                                i as int + 1,
                                steps.len() as int,
                            );
                        }
                    }
                    return Err(ValidationError::ChannelOutOfRange {
                        step: i,
                        channel: *channel,
                        channels: num_channels,
                    });
                }
                let mut j: usize = 0;
                while j < names.len()
                    invariant
                        mixers == conf.mixers@,
                        filters == conf.filters@,
                        steps == conf.pipeline@,
                        cap == conf.capture_channels(),
                        i < steps.len(),
                        conf.prefix_ok(i as int),
                        num_channels as int == conf.channels_after(i as int),
                        steps[i as int] matches PipelineStep::Filter { channel: c, names: ns }
                            && c == channel && ns == names && (c as int) < conf.channels_after(
                            i as int,
                        ),
                        j <= names@.len(),
                        forall|k: int|
                            0 <= k < j ==> match find_def(filters, (#[trigger] names@[k])@) {
                                Some(f) => spec_filter_valid(f),
                                None => false,
                            },
                    decreases names@.len() - j,
                {
                    match lookup_def(&conf.filters, &names[j]) {
                        None => {
                            proof {
                                if conf.spec_valid() {
                                    lemma_prefix_ok_monotone(
                                        mixers,
                                        filters,
                                        steps,
                                        cap,
                                        i as int + 1,
                                        steps.len() as int,
                                    );
                                }
                            }
                            return Err(ValidationError::MissingFilter {
                                step: i,
                                name: names[j].clone(),
                            });
                        },
                        Some(f) => {
                            if !validate_filter(f) {
                                proof {
                                    if conf.spec_valid() {
                                        lemma_prefix_ok_monotone(
                                            mixers,
                                            filters,
                                            steps,
                                            cap,
                                            i as int + 1,
                                            steps.len() as int,
                                        );
                                    }
                                }
                                return Err(ValidationError::InvalidFilter {
                                    step: i,
                                    name: names[j].clone(),
                                });
                            }
                        },
                    }
                    j += 1;
                }
            },
        }
        i += 1;
    }
    let playback = conf.devices.playback.channels();
    if num_channels != playback {
        return Err(ValidationError::ChannelsOutMismatch {
            pipeline: num_channels,
            playback,
        });
    }
    Ok(())
}

/// Validate a configuration and report a violation as a described
/// configuration error. Validation succeeds on exactly the consistent
/// configurations (see [`Configuration::spec_valid`]); on the first
/// violation it stops with the message of the [`ValidationError`] that
/// identifies it.
pub fn validate_config(conf: &Configuration) -> (r: Result<(), ConfigError>)
    ensures
        r is Ok <==> conf.spec_valid(),
        r matches Err(e) ==> exists|v: ValidationError|
            #[trigger] v.identifies(*conf) && e.text() == v.spec_message(),
{
    match validate_pipeline(conf) {
        Ok(()) => Ok(()),
        Err(v) => {
            let e = v.describe();
            proof {
                assert(v.identifies(*conf) && e.text() == v.spec_message());
            }
            Err(e)
        },
    }
}

} // verus!
