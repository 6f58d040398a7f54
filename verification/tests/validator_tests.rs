use camilladsp::config::BiquadParameters;
use camilladsp::config::ConfigError;
use camilladsp::config::Configuration;
use camilladsp::config::ConvParameters;
use camilladsp::config::DelayParameters;
use camilladsp::config::Device;
use camilladsp::config::Devices;
use camilladsp::config::Filter;
use camilladsp::config::FilterType;
use camilladsp::config::GainParameters;
use camilladsp::config::Mixer;
use camilladsp::config::MixerChannels;
use camilladsp::config::MixerMapping;
use camilladsp::config::MixerSource;
use camilladsp::config::PipelineStep;
use camilladsp::config::SampleFormat;
use camilladsp::config::ValidationError;
use camilladsp::config::validate_config;
use camilladsp::config::validate_filter;
use camilladsp::config::validate_pipeline;

fn file_device(channels: usize, filename: &str) -> Device {
    Device::File {
        channels,
        filename: filename.to_string(),
        format: SampleFormat::S16LE,
    }
}

fn devices(capture_channels: usize, playback_channels: usize) -> Devices {
    Devices {
        samplerate: 44100,
        chunksize: 1024,
        target_level: 1024,
        adjust_period: 3,
        silence_threshold: 0,
        silence_timeout: 0,
        capture: file_device(capture_channels, "capture.raw"),
        playback: file_device(playback_channels, "playback.raw"),
    }
}

fn gain_filter() -> Filter {
    Filter::Gain {
        parameters: GainParameters {
            gain: 1000,
            inverted: false,
        },
    }
}

fn mixer_2_to_1() -> Mixer {
    Mixer {
        channels: MixerChannels {
            in_count: 2,
            out_count: 1,
        },
        mapping: vec![MixerMapping {
            dest: 0,
            sources: vec![
                MixerSource {
                    channel: 0,
                    gain: 500,
                    inverted: false,
                },
                MixerSource {
                    channel: 1,
                    gain: 500,
                    inverted: true,
                },
            ],
        }],
    }
}

fn two_step_config(playback_channels: usize) -> Configuration {
    Configuration {
        devices: devices(2, playback_channels),
        mixers: vec![("m2to1".to_string(), mixer_2_to_1())],
        filters: vec![("gain1".to_string(), gain_filter())],
        pipeline: vec![
            PipelineStep::Mixer {
                name: "m2to1".to_string(),
            },
            PipelineStep::Filter {
                channel: 0,
                names: vec!["gain1".to_string()],
            },
        ],
    }
}

#[test]
fn validator_accepts_consistent_pipeline() {
    let conf = two_step_config(1);
    assert!(validate_pipeline(&conf).is_ok());
    assert!(validate_config(&conf).is_ok());
}

#[test]
fn validator_reports_final_mismatch() {
    let conf = two_step_config(2);
    let err = validate_pipeline(&conf).unwrap_err();
    assert_eq!(
        err,
        ValidationError::ChannelsOutMismatch {
            pipeline: 1,
            playback: 2,
        }
    );
    let described = validate_config(&conf).unwrap_err();
    assert_eq!(
        described.description(),
        "Pipeline outputs 1 channels, playback device has 2."
    );
}

#[test]
fn missing_mixer_is_named() {
    let conf = Configuration {
        devices: devices(2, 2),
        mixers: vec![],
        filters: vec![],
        pipeline: vec![PipelineStep::Mixer {
            name: "missing".to_string(),
        }],
    };
    let err = validate_pipeline(&conf).unwrap_err();
    assert_eq!(
        err,
        ValidationError::MissingMixer {
            step: 0,
            name: "missing".to_string(),
        }
    );
    let described = validate_config(&conf).unwrap_err();
    assert_eq!(described.description(), "Use of missing mixer 'missing'");
}

#[test]
fn mixer_input_mismatch_reports_counts() {
    let mut conf = two_step_config(1);
    conf.devices.capture = file_device(3, "capture.raw");
    let err = validate_pipeline(&conf).unwrap_err();
    assert_eq!(
        err,
        ValidationError::MixerInputMismatch {
            step: 0,
            name: "m2to1".to_string(),
            expected: 3,
            found: 2,
        }
    );
    let described = validate_config(&conf).unwrap_err();
    assert_eq!(
        described.description(),
        "Mixer 'm2to1' has wrong number of input channels. Expected 3, found 2."
    );
}

#[test]
fn filter_channel_out_of_range() {
    let conf = Configuration {
        devices: devices(2, 2),
        mixers: vec![],
        filters: vec![("gain1".to_string(), gain_filter())],
        pipeline: vec![PipelineStep::Filter {
            channel: 2,
            names: vec!["gain1".to_string()],
        }],
    };
    let err = validate_pipeline(&conf).unwrap_err();
    assert_eq!(
        err,
        ValidationError::ChannelOutOfRange {
            step: 0,
            channel: 2,
            channels: 2,
        }
    );
    let described = validate_config(&conf).unwrap_err();
    assert_eq!(described.description(), "Use of non existing channel 2");
}

#[test]
fn missing_filter_is_named() {
    let conf = Configuration {
        devices: devices(2, 2),
        mixers: vec![],
        filters: vec![("gain1".to_string(), gain_filter())],
        pipeline: vec![PipelineStep::Filter {
            channel: 1,
            names: vec!["gain1".to_string(), "nope".to_string()],
        }],
    };
    let err = validate_pipeline(&conf).unwrap_err();
    assert_eq!(
        err,
        ValidationError::MissingFilter {
            step: 0,
            name: "nope".to_string(),
        }
    );
    let described = validate_config(&conf).unwrap_err();
    assert_eq!(described.description(), "Use of missing filter 'nope'");
}

#[test]
fn inconsistent_filter_is_named() {
    let bad = Filter::Biquad {
        parameters: BiquadParameters::Lowpass { freq: 0, q: 700 },
    };
    let conf = Configuration {
        devices: devices(2, 2),
        mixers: vec![],
        filters: vec![("lp".to_string(), bad)],
        pipeline: vec![PipelineStep::Filter {
            channel: 0,
            names: vec!["lp".to_string()],
        }],
    };
    let err = validate_pipeline(&conf).unwrap_err();
    assert_eq!(
        err,
        ValidationError::InvalidFilter {
            step: 0,
            name: "lp".to_string(),
        }
    );
    let described = validate_config(&conf).unwrap_err();
    assert_eq!(described.description(), "Invalid parameters in filter 'lp'");
}

#[test]
fn empty_pipeline_needs_matching_devices() {
    let same = Configuration {
        devices: devices(2, 2),
        mixers: vec![],
        filters: vec![],
        pipeline: vec![],
    };
    assert!(validate_pipeline(&same).is_ok());
    let different = Configuration {
        devices: devices(2, 1),
        mixers: vec![],
        filters: vec![],
        pipeline: vec![],
    };
    assert!(validate_pipeline(&different).is_err());
}

#[test]
fn filter_parameter_checks() {
    assert!(validate_filter(&gain_filter()));
    assert!(validate_filter(&Filter::Delay {
        parameters: DelayParameters { delay: 0 },
    }));
    assert!(!validate_filter(&Filter::Delay {
        parameters: DelayParameters { delay: -1 },
    }));
    assert!(validate_filter(&Filter::Biquad {
        parameters: BiquadParameters::Free {
            a1: 0,
            a2: 0,
            b0: 1,
            b1: 0,
            b2: 0,
        },
    }));
    assert!(!validate_filter(&Filter::Biquad {
        parameters: BiquadParameters::Highpass { freq: 1000, q: 0 },
    }));
    assert!(!validate_filter(&Filter::Biquad {
        parameters: BiquadParameters::Highshelf {
            freq: 1000,
            slope: 0,
            gain: 3,
        },
    }));
    assert!(validate_filter(&Filter::Biquad {
        parameters: BiquadParameters::Peaking {
            freq: 1000,
            gain: -3,
            q: 500,
        },
    }));
    assert!(validate_filter(&Filter::Conv {
        parameters: ConvParameters::Values { values: vec![1] },
    }));
    assert!(!validate_filter(&Filter::Conv {
        parameters: ConvParameters::Values { values: vec![] },
    }));
    assert!(!validate_filter(&Filter::Conv {
        parameters: ConvParameters::File {
            filename: "".to_string(),
        },
    }));
    assert!(validate_filter(&Filter::Conv {
        parameters: ConvParameters::File {
            filename: "coeffs.raw".to_string(),
        },
    }));
}

#[test]
fn filter_type_tags() {
    assert_eq!(gain_filter().filter_type(), FilterType::Gain);
    assert_eq!(
        Filter::Delay {
            parameters: DelayParameters { delay: 1 },
        }
        .filter_type(),
        FilterType::Delay
    );
    assert_eq!(
        Filter::Conv {
            parameters: ConvParameters::Values { values: vec![1] },
        }
        .filter_type(),
        FilterType::Conv
    );
    assert_eq!(
        Filter::Biquad {
            parameters: BiquadParameters::Highpass { freq: 100, q: 700 },
        }
        .filter_type(),
        FilterType::Biquad
    );
}

#[test]
fn mixer_mapping_invariant() {
    assert!(mixer_2_to_1().is_valid());
    let mut bad_dest = mixer_2_to_1();
    bad_dest.mapping[0].dest = 1;
    assert!(!bad_dest.is_valid());
    let mut bad_source = mixer_2_to_1();
    bad_source.mapping[0].sources[1].channel = 2;
    assert!(!bad_source.is_valid());
}

#[test]
fn config_error_keeps_text() {
    let e = ConfigError::new("something is off");
    assert_eq!(e.description(), "something is off");
}
