//! Control-plane decisions of the capture and playback loops.
//!
//! The threads themselves — device I/O, the bounded chunk channel, the
//! rendezvous barrier — live outside this library. Each loop iteration
//! hands its observations (a polled command, a read result, a received
//! message) to a decision function here and performs the returned action:
//! sending, writing, reporting, or exiting. The decisions are what make
//! shutdown cooperative: a stop command or an exhausted source turns into
//! an end-of-stream marker that propagates downstream, and the playback
//! loop exits exactly when the stream ends.

use vstd::prelude::*;

use crate::audiodevice::AudioChunk;
use crate::audiodevice::AudioMessage;
use crate::audiodevice::CommandMessage;
use crate::silence::SilencePolicy;

verus! {

/// What the playback loop sees at the top of one iteration: a message from
/// the chunk channel, or the channel reported closed.
pub enum PlaybackEvent {
    Message(AudioMessage),
    ChannelClosed,
}

/// What the playback loop must do with it: write one chunk to the sink and
/// continue, or terminate the loop.
pub enum PlaybackAction {
    Write(AudioChunk),
    Exit,
}

/// Decide one iteration of the playback loop. The loop terminates exactly
/// when the stream ends — on `EndOfStream` or on a closed channel — and
/// never on an audio chunk, so end-of-stream propagates without a further
/// blocking receive.
pub fn playback_next(event: PlaybackEvent) -> (action: PlaybackAction)
    ensures
        match event {
            PlaybackEvent::Message(msg) => match msg {
                AudioMessage::Audio(chunk) => action matches PlaybackAction::Write(c) && c
                    == chunk,
                AudioMessage::EndOfStream => action == PlaybackAction::Exit,
            },
            PlaybackEvent::ChannelClosed => action == PlaybackAction::Exit,
        },
{
    match event {
        PlaybackEvent::Message(msg) => match msg {
            AudioMessage::Audio(chunk) => PlaybackAction::Write(chunk),
            AudioMessage::EndOfStream => PlaybackAction::Exit,
        },
        PlaybackEvent::ChannelClosed => PlaybackAction::Exit,
    }
}

/// What the capture loop must do after one iteration's observations: send
/// the end-of-stream marker and exit the thread, or send one chunk onward,
/// reporting the silence transition first when it fires.
pub enum CaptureAction {
    SendEndOfStream,
    Send { chunk: AudioChunk, silence: bool },
}

/// Decide one iteration of the capture loop from what it observed: the
/// command polled from the orchestrator (if any) and the chunk read from
/// the source (`None` when the source is exhausted). A stop command or an
/// exhausted source ends the stream; otherwise the chunk is passed on
/// unchanged, in order, with the silence policy advanced by exactly this
/// chunk.
pub fn capture_next(
    command: Option<CommandMessage>,
    read: Option<AudioChunk>,
    policy: &mut SilencePolicy,
) -> (action: CaptureAction)
    requires
        old(policy).wf(),
    ensures
        final(policy).wf(),
        final(policy).threshold == old(policy).threshold,
        final(policy).timeout_chunks == old(policy).timeout_chunks,
        command is Some || read is None ==> action == CaptureAction::SendEndOfStream
            && *final(policy) == *old(policy),
        command is None ==> match read {
            Some(chunk) => {
                &&& action matches CaptureAction::Send { chunk: c, silence } && c == chunk
                    && silence == old(policy).spec_fires(chunk)
                &&& final(policy).counter == old(policy).spec_next_counter(chunk)
            },
            None => true,
        },
{
    match command {
        Some(CommandMessage::Stop) => CaptureAction::SendEndOfStream,
        None => match read {
            None => CaptureAction::SendEndOfStream,
            Some(chunk) => {
                let silence = policy.update(&chunk);
                CaptureAction::Send { chunk, silence }
            },
        },
    }
}

} // verus!
