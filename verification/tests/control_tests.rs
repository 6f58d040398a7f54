use camilladsp::audiodevice::AudioChunk;
use camilladsp::audiodevice::AudioMessage;
use camilladsp::audiodevice::CommandMessage;
use camilladsp::rate::RateAdjustment;
use camilladsp::rate::RateController;
use camilladsp::silence::SilencePolicy;
use camilladsp::silence::timeout_in_chunks;
use camilladsp::stream::CaptureAction;
use camilladsp::stream::PlaybackAction;
use camilladsp::stream::PlaybackEvent;
use camilladsp::stream::capture_next;
use camilladsp::stream::playback_next;
use camilladsp::text::decimal_string;

/// A chunk whose samples, and hence observed extremes, stay at `peak`.
fn chunk_with_peak(peak: i64) -> AudioChunk {
    AudioChunk::new(vec![vec![peak, -peak]], peak, -peak, 2)
}

#[test]
fn decimal_rendering() {
    assert_eq!(decimal_string(0), "0");
    assert_eq!(decimal_string(7), "7");
    assert_eq!(decimal_string(10), "10");
    assert_eq!(decimal_string(12345), "12345");
    assert_eq!(decimal_string(1000001), "1000001");
}

#[test]
fn silence_timeout_in_chunks_rounds_up() {
    // 2.0 seconds at 44100 Hz in chunks of 4410 frames: exactly 20 chunks.
    assert_eq!(timeout_in_chunks(2000, 44100, 4410), 20);
    // 2.0 seconds in chunks of 4000 frames: 22.05 chunks, rounded up to 23.
    assert_eq!(timeout_in_chunks(2000, 44100, 4000), 23);
    assert_eq!(timeout_in_chunks(0, 44100, 4410), 0);
}

#[test]
fn silence_event_fires_once_at_the_mark() {
    // Threshold 0.001 of full scale and a 2.0 second timeout, with one
    // million units of full scale and chunks of 0.1 seconds.
    let threshold = 1000;
    let chunks = timeout_in_chunks(2000, 44100, 4410);
    assert_eq!(chunks, 20);
    let mut policy = SilencePolicy::new(threshold, chunks);
    let silent = chunk_with_peak(500);
    let loud = chunk_with_peak(1500);
    for _ in 0..19 {
        assert!(!policy.update(&silent));
    }
    // The 20th consecutive silent chunk reaches the 2.0 second mark.
    assert!(policy.update(&silent));
    // Staying silent does not repeat the event.
    assert!(!policy.update(&silent));
    assert_eq!(policy.counter, 20);
    // A loud chunk resets the counter immediately.
    assert!(!policy.update(&loud));
    assert_eq!(policy.counter, 0);
    // After a reset the run starts over.
    assert!(!policy.update(&silent));
    assert_eq!(policy.counter, 1);
}

#[test]
fn silence_threshold_is_strict() {
    let mut policy = SilencePolicy::new(1000, 1);
    // A peak exactly at the threshold is not below it: the counter resets.
    assert!(!policy.update(&chunk_with_peak(1000)));
    assert_eq!(policy.counter, 0);
    // A peak just below the threshold counts as silent.
    assert!(policy.update(&chunk_with_peak(999)));
    assert_eq!(policy.counter, 1);
}

#[test]
fn zero_timeout_never_fires() {
    let mut policy = SilencePolicy::new(1000, 0);
    assert!(!policy.update(&chunk_with_peak(0)));
    assert!(!policy.update(&chunk_with_peak(0)));
    assert_eq!(policy.counter, 0);
}

#[test]
fn rate_controller_holds_between_adjustments() {
    let mut c = RateController::new(1024, 3, 50);
    assert!(matches!(c.tick(9999), RateAdjustment::Hold));
    assert!(matches!(c.tick(9999), RateAdjustment::Hold));
    // Third tick ends the period: far above target, capped at max_step.
    match c.tick(1100) {
        RateAdjustment::SlowDown { amount } => assert_eq!(amount, 50),
        _ => panic!("expected a slow-down"),
    }
}

#[test]
fn rate_correction_tracks_the_target() {
    let c = RateController::new(1024, 1, 50);
    assert!(matches!(c.correction(1024), RateAdjustment::Hold));
    match c.correction(1030) {
        RateAdjustment::SlowDown { amount } => assert_eq!(amount, 6),
        _ => panic!("expected a slow-down"),
    }
    match c.correction(1000) {
        RateAdjustment::SpeedUp { amount } => assert_eq!(amount, 24),
        _ => panic!("expected a speed-up"),
    }
    match c.correction(0) {
        RateAdjustment::SpeedUp { amount } => assert_eq!(amount, 50),
        _ => panic!("expected a capped speed-up"),
    }
}

#[test]
fn rate_period_restarts_after_adjustment() {
    let mut c = RateController::new(100, 2, 10);
    assert!(matches!(c.tick(0), RateAdjustment::Hold));
    assert!(matches!(c.tick(0), RateAdjustment::SpeedUp { amount: 10 }));
    // A fresh period follows.
    assert!(matches!(c.tick(0), RateAdjustment::Hold));
    assert!(matches!(c.tick(100), RateAdjustment::Hold));
}

#[test]
fn playback_exits_on_end_of_stream() {
    let action = playback_next(PlaybackEvent::Message(AudioMessage::EndOfStream));
    assert!(matches!(action, PlaybackAction::Exit));
    let action = playback_next(PlaybackEvent::ChannelClosed);
    assert!(matches!(action, PlaybackAction::Exit));
}

#[test]
fn playback_writes_audio_chunks() {
    let chunk = chunk_with_peak(5);
    match playback_next(PlaybackEvent::Message(AudioMessage::Audio(chunk))) {
        PlaybackAction::Write(c) => {
            assert_eq!(c.frames, 2);
            assert_eq!(c.maxval, 5);
        }
        PlaybackAction::Exit => panic!("audio must be written, not dropped"),
    }
}

#[test]
fn capture_stops_on_command_or_exhaustion() {
    let mut policy = SilencePolicy::new(1000, 2);
    let action = capture_next(
        Some(CommandMessage::Stop),
        Some(chunk_with_peak(0)),
        &mut policy,
    );
    assert!(matches!(action, CaptureAction::SendEndOfStream));
    assert_eq!(policy.counter, 0);
    let action = capture_next(None, None, &mut policy);
    assert!(matches!(action, CaptureAction::SendEndOfStream));
}

#[test]
fn capture_passes_chunks_in_order_with_silence_flag() {
    let mut policy = SilencePolicy::new(1000, 2);
    match capture_next(None, Some(chunk_with_peak(0)), &mut policy) {
        CaptureAction::Send { chunk, silence } => {
            assert_eq!(chunk.frames, 2);
            assert!(!silence);
        }
        CaptureAction::SendEndOfStream => panic!("a read chunk must be sent on"),
    }
    match capture_next(None, Some(chunk_with_peak(0)), &mut policy) {
        CaptureAction::Send { silence, .. } => assert!(silence),
        CaptureAction::SendEndOfStream => panic!("a read chunk must be sent on"),
    }
    assert_eq!(policy.counter, 2);
}
