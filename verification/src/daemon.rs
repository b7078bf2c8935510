//! The decisions of a running dictation session. The daemon's loop waits
//! for the next event (a stop request, the audio stream, the transcription
//! backend, the end of the grace period), hands it to the session, and
//! carries out the action it gets back: typing an edit, publishing a status
//! update, asking the interpreter about a finalized segment, shutting the
//! inputs down, or leaving the loop.
use vstd::prelude::*;
use crate::audio::{chosen_device, resolve_selected_device};
use crate::config::{AppConfig, IntelligenceConfig};
use crate::error::{error_message, error_prefix, invalid_state, is_invalid_state, Result, WisprError};
use crate::models::{
    action_views, device_view, DeviceChoice, FormatKind, GenerationRequest, RewriteScope,
    SegmentDecision, SegmentDecisionRequest, DecisionKind,
};
use crate::session::{
    clipboard_matches, closes_block, generation_request, FinalDeduper, TextEdit, TranscriptState,
};
use crate::shortcuts::{resolve_actions, resolve_all, ResolvedActions};
use crate::status::{
    empty_update, ended_view, failed_view, session_ended_update, session_failed_update,
    StatusUpdate, UpdateView,
};
use crate::text::trim;
use crate::transcript::{
    append_block_spec, clipboard_text_for_decision, next_block_raw_spec, render_committed_spec, render_segment_spec,
};
use crate::writing::{
    interpreter_failed_update, interpreter_failed_view, resolution_failed_update,
    resolution_failed_view, WritingRun,
};

verus! {

/// What happened, as the daemon's loop hands it to the session. A final
/// transcript comes with the key that tells a repeated delivery apart.
pub enum LoopEvent {
    StopRequested,
    AudioFailed(String),
    AudioEnded,
    BackendState(String),
    Partial(String),
    Final(String, String),
    TurnEnded,
    TurnEndedWithTranscript(String, String),
    Warning(String),
    BackendClosed,
    GraceElapsed,
}

/// What the loop does next: nothing; publish an update; type an edit (and
/// copy text to the clipboard); ask the interpreter about a finalized
/// segment; stop the audio and close the backend, then wait a grace period;
/// or publish an update and leave the loop (`true`: the session is also
/// forgotten, as it ended by itself).
pub enum LoopAction {
    Ignore,
    Publish(StatusUpdate),
    Type(TextEdit, Option<String>),
    Interpret(String),
    ShutDown,
    Finish(StatusUpdate, bool),
}

/// The state of a running session: its transcript, the final transcripts
/// already handled, and whether it is shutting down.
pub struct DictationLoop {
    pub transcript: TranscriptState,
    pub finals: FinalDeduper,
    pub shutting_down: bool,
}

/// The message published when the audio stream ends on its own.
pub open spec fn audio_ended_msg() -> Seq<char> {
    "Audio stream ended unexpectedly"@
}

/// The end of a turn that no final transcript resolved: nothing for a blank
/// turn, else its words typed literally.
pub open spec fn turn_end_ok(old_t: TranscriptState, new_t: TranscriptState, r: LoopAction) -> bool {
    &&& new_t.active_turn@.len() == 0
    &&& trim(old_t.active_turn@).len() == 0 ==> {
        &&& r is Ignore
        &&& new_t.committed_prefix@ == old_t.committed_prefix@
        &&& new_t.active_block == old_t.active_block
    }
    &&& trim(old_t.active_turn@).len() > 0 ==> (r matches LoopAction::Type(edit, clip) && {
        &&& edit.previous@ == old_t.rendered()
        &&& edit.next@ == render_segment_spec(
            old_t.committed_prefix@,
            old_t.active_block,
            old_t.active_turn@,
            FormatKind::Plain,
        )
        &&& new_t.committed_prefix@ == edit.next@
        &&& new_t.active_block is None
        &&& clipboard_matches(clip, old_t.active_turn@)
    })
}

impl DictationLoop {
    /// A session that has heard nothing yet.
    pub fn new() -> (r: Self)
        ensures
            !r.shutting_down,
            r.finals.keys().len() == 0,
            r.transcript.rendered().len() == 0,
    {
        DictationLoop { transcript: TranscriptState::new(), finals: FinalDeduper::new(), shutting_down: false }
    }

    /// Handles one event. While shutting down, the audio is no longer read
    /// and a second stop request changes nothing; the grace period only
    /// ends a session that is shutting down.
    pub fn on_event(&mut self, event: LoopEvent) -> (r: LoopAction)
        ensures
            final(self).shutting_down == (old(self).shutting_down || event is StopRequested),
            match event {
                LoopEvent::StopRequested => {
                    &&& old(self).shutting_down ==> r is Ignore
                    &&& !old(self).shutting_down ==> r is ShutDown
                    &&& final(self).transcript == old(self).transcript
                },
                LoopEvent::AudioFailed(e) => {
                    &&& old(self).shutting_down ==> r is Ignore
                    &&& !old(self).shutting_down ==> (r matches LoopAction::Finish(u, true) && u@ == failed_view(e@, true))
                    &&& final(self).transcript == old(self).transcript
                },
                LoopEvent::AudioEnded => {
                    &&& old(self).shutting_down ==> r is Ignore
                    &&& !old(self).shutting_down ==> (r matches LoopAction::Finish(u, true) && u@ == failed_view(audio_ended_msg(), false))
                    &&& final(self).transcript == old(self).transcript
                },
                LoopEvent::BackendState(m) => {
                    &&& r matches LoopAction::Publish(u) && u@ == (UpdateView {
                        transcription_state: Some(Some(m@)),
                        ..empty_update()
                    })
                    &&& final(self).transcript == old(self).transcript
                },
                LoopEvent::Partial(t) => {
                    &&& r matches LoopAction::Type(edit, clip) && clip is None
                        && edit.previous@ == old(self).transcript.rendered()
                        && edit.next@ == final(self).transcript.rendered()
                    &&& final(self).transcript.committed_prefix@ == old(self).transcript.committed_prefix@
                    &&& final(self).transcript.active_block == old(self).transcript.active_block
                    &&& final(self).transcript.active_turn@ == t@
                },
                LoopEvent::Final(t, key) => {
                    &&& !old(self).finals.keys().contains(key@) ==> (r matches LoopAction::Interpret(s) && s@ == t@)
                    &&& old(self).finals.keys().contains(key@) ==> r is Ignore
                    &&& final(self).finals.keys().contains(key@)
                    &&& final(self).transcript == old(self).transcript
                },
                LoopEvent::TurnEnded => turn_end_ok(old(self).transcript, final(self).transcript, r),
                LoopEvent::TurnEndedWithTranscript(t, key) => {
                    &&& !old(self).finals.keys().contains(key@) ==> (r matches LoopAction::Interpret(s) && s@ == t@
                        && final(self).transcript == old(self).transcript)
                    &&& old(self).finals.keys().contains(key@) ==> turn_end_ok(
                        old(self).transcript,
                        final(self).transcript,
                        r,
                    )
                    &&& final(self).finals.keys().contains(key@)
                },
                LoopEvent::Warning(m) => {
                    &&& r matches LoopAction::Publish(u) && u@ == failed_view(m@, true)
                    &&& final(self).transcript == old(self).transcript
                },
                LoopEvent::BackendClosed => {
                    &&& r matches LoopAction::Finish(u, true) && u@ == ended_view()
                    &&& final(self).transcript == old(self).transcript
                },
                LoopEvent::GraceElapsed => {
                    &&& old(self).shutting_down ==> (r matches LoopAction::Finish(u, false) && u@ == ended_view())
                    &&& !old(self).shutting_down ==> r is Ignore
                    &&& final(self).transcript == old(self).transcript
                },
            },
    {
        match event {
            LoopEvent::StopRequested => {
                if self.shutting_down {
                    LoopAction::Ignore
                } else {
                    self.shutting_down = true;
                    LoopAction::ShutDown
                }
            },
            LoopEvent::AudioFailed(e) => {
                if self.shutting_down {
                    LoopAction::Ignore
                } else {
                    LoopAction::Finish(session_failed_update(e.as_str(), true), true)
                }
            },
            LoopEvent::AudioEnded => {
                if self.shutting_down {
                    LoopAction::Ignore
                } else {
                    LoopAction::Finish(session_failed_update("Audio stream ended unexpectedly", false), true)
                }
            },
            LoopEvent::BackendState(m) => {
                let mut u = StatusUpdate::none();
                u.transcription_state = Some(Some(m));
                LoopAction::Publish(u)
            },
            LoopEvent::Partial(t) => {
                let edit = self.transcript.show_partial(t.as_str());
                LoopAction::Type(edit, None)
            },
            LoopEvent::Final(t, key) => {
                if self.finals.insert(key.as_str()) {
                    LoopAction::Interpret(t)
                } else {
                    LoopAction::Ignore
                }
            },
            LoopEvent::TurnEnded => self.end_turn(),
            LoopEvent::TurnEndedWithTranscript(t, key) => {
                if self.finals.insert(key.as_str()) {
                    LoopAction::Interpret(t)
                } else {
                    self.end_turn()
                }
            },
            LoopEvent::Warning(m) => LoopAction::Publish(session_failed_update(m.as_str(), true)),
            LoopEvent::BackendClosed => LoopAction::Finish(session_ended_update(), true),
            LoopEvent::GraceElapsed => {
                if self.shutting_down {
                    LoopAction::Finish(session_ended_update(), false)
                } else {
                    LoopAction::Ignore
                }
            },
        }
    }

    /// Ends the current turn without a final transcript.
    fn end_turn(&mut self) -> (r: LoopAction)
        ensures
            turn_end_ok(old(self).transcript, final(self).transcript, r),
            final(self).finals == old(self).finals,
            final(self).shutting_down == old(self).shutting_down,
    {
        match self.transcript.finalize_unresolved_turn() {
            Some((edit, clip)) => LoopAction::Type(edit, clip),
            None => LoopAction::Ignore,
        }
    }
}


/// What to do with a finalized segment once the interpreter answered: type
/// the spoken words literally (and copy them, and publish the update, if
/// any); type the decision's text (and copy it when it is pure literal
/// text), then carry out the resolved actions; or take the turn off the
/// screen and write autonomously for the request.
pub enum SegmentPlan {
    Literal(TextEdit, Option<String>, Option<StatusUpdate>),
    Apply(TextEdit, Option<String>, ResolvedActions),
    Write(TextEdit, GenerationRequest, WritingRun),
}

/// A literal commit of `spoken` from the transcript `old_t` to `new_t`,
/// with the edit `edit` and the clipboard text `clip`.
pub open spec fn literal_ok(
    old_t: TranscriptState,
    new_t: TranscriptState,
    spoken: Seq<char>,
    edit: TextEdit,
    clip: Option<String>,
) -> bool {
    &&& edit.previous@ == old_t.rendered()
    &&& edit.next@ == render_segment_spec(old_t.committed_prefix@, old_t.active_block, spoken, FormatKind::Plain)
    &&& new_t.committed_prefix@ == edit.next@
    &&& new_t.active_block is None
    &&& new_t.active_turn@.len() == 0
    &&& clipboard_matches(clip, spoken)
}

/// Whether a generation decision can be carried out: generation is enabled
/// and the decision gives a prompt that is not blank.
pub open spec fn can_write(config: IntelligenceConfig, d: SegmentDecision) -> bool {
    config.generation_enabled && (d.generation_prompt matches Some(p) && trim(p@).len() > 0)
}

/// Carrying out the decision `d` for `spoken`, whose resolved actions are
/// `vs`: the edit from the old screen to the new one, the new transcript,
/// and the clipboard.
pub open spec fn applied_ok(
    old_t: TranscriptState,
    new_t: TranscriptState,
    spoken: Seq<char>,
    d: SegmentDecision,
    closes: bool,
    edit: TextEdit,
    clip: Option<String>,
) -> bool {
    &&& edit.previous@ == old_t.rendered()
    &&& edit.next@ == new_t.rendered()
    &&& new_t.active_turn@.len() == 0
    &&& d.kind == DecisionKind::Literal ==> clipboard_matches(clip, d.text_to_emit@)
    &&& d.kind != DecisionKind::Literal ==> clip is None
    &&& d.rewrite_scope == RewriteScope::CurrentBlock ==> {
        &&& edit.next@ == append_block_spec(old_t.committed_prefix@, d.text_to_emit@, d.format_kind)
        &&& closes ==> new_t.committed_prefix@ == edit.next@ && new_t.active_block is None
        &&& !closes ==> new_t.committed_prefix@ == old_t.committed_prefix@
        &&& !closes ==> (new_t.active_block matches Some(b) && b.raw_text@ == next_block_raw_spec(
            old_t.active_block,
            spoken,
        ) && b.rendered_text@ == d.text_to_emit@ && b.format_kind == d.format_kind)
    }
    &&& d.rewrite_scope == RewriteScope::Segment ==> {
        &&& edit.next@ == render_segment_spec(
            old_t.committed_prefix@,
            old_t.active_block,
            d.text_to_emit@,
            d.format_kind,
        )
        &&& new_t.committed_prefix@ == edit.next@
        &&& new_t.active_block is None
    }
}

impl DictationLoop {
    /// Types a finalized segment literally, when there is no interpreter.
    pub fn literal_segment(&mut self, spoken_text: &str) -> (r: (TextEdit, Option<String>))
        ensures
            literal_ok(old(self).transcript, final(self).transcript, spoken_text@, r.0, r.1),
            final(self).finals == old(self).finals,
            final(self).shutting_down == old(self).shutting_down,
    {
        let previous = self.transcript.render();
        let commit = self.transcript.commit_literal(spoken_text);
        (TextEdit { previous, next: commit.next }, commit.clipboard)
    }

    /// Decides what a finalized segment does, given what the interpreter
    /// answered for `request`: its validated decision, or why it failed. A
    /// failure, a generation decision that cannot be carried out, or
    /// actions that cannot be resolved make the spoken words typed
    /// literally; a generation decision starts autonomous writing after the
    /// committed text; any other decision is typed and its actions resolved.
    pub fn plan_segment(
        &mut self,
        config: &IntelligenceConfig,
        request: &SegmentDecisionRequest,
        outcome: std::result::Result<SegmentDecision, String>,
    ) -> (r: SegmentPlan)
        ensures
            final(self).finals == old(self).finals,
            final(self).shutting_down == old(self).shutting_down,
            match outcome {
                Err(e) => r matches SegmentPlan::Literal(edit, clip, Some(u)) && literal_ok(
                    old(self).transcript,
                    final(self).transcript,
                    request.finalized_text@,
                    edit,
                    clip,
                ) && u@ == interpreter_failed_view(e@),
                Ok(d) => if d.kind == DecisionKind::Generation {
                    if can_write(*config, d) {
                        r matches SegmentPlan::Write(edit, g, run) && {
                            &&& edit.previous@ == old(self).transcript.rendered()
                            &&& edit.next@ == render_committed_spec(
                                old(self).transcript.committed_prefix@,
                                old(self).transcript.active_block,
                            )
                            &&& run.wf() && run.prefix@ == edit.next@ && run.generated@.len() == 0
                            &&& g.request_text@ == request.finalized_text@
                            &&& (d.generation_prompt matches Some(p) && g.generation_prompt@ == p@)
                            &&& g.recent_text@ == request.recent_text@
                            &&& final(self).transcript == old(self).transcript
                        }
                    } else {
                        r matches SegmentPlan::Literal(edit, clip, None) && literal_ok(
                            old(self).transcript,
                            final(self).transcript,
                            request.finalized_text@,
                            edit,
                            clip,
                        )
                    }
                } else {
                    match resolve_all(*config, action_views(d.actions@)) {
                        Err(m) => r matches SegmentPlan::Literal(edit, clip, Some(u)) && literal_ok(
                            old(self).transcript,
                            final(self).transcript,
                            request.finalized_text@,
                            edit,
                            clip,
                        ) && u@ == resolution_failed_view("invalid state: "@ + m),
                        Ok(vs) => r matches SegmentPlan::Apply(edit, clip, ra) && action_views(ra.actions@) == vs
                            && applied_ok(
                            old(self).transcript,
                            final(self).transcript,
                            request.finalized_text@,
                            d,
                            vs.len() > 0 || !d.keep_block_open,
                            edit,
                            clip,
                        ),
                    }
                },
            },
    {
        let d = match outcome {
            Err(e) => {
                let (edit, clip) = self.literal_segment(request.finalized_text.as_str());
                return SegmentPlan::Literal(edit, clip, Some(interpreter_failed_update(e.as_str())));
            },
            Ok(d) => d,
        };
        if d.kind == DecisionKind::Generation {
            return match generation_request(config.generation_enabled, &d, request.finalized_text.as_str(), request) {
                Some(g) => {
                    let previous = self.transcript.render();
                    let prefix = self.transcript.generation_prefix();
                    let run = WritingRun::start(prefix.as_str());
                    SegmentPlan::Write(TextEdit { previous, next: prefix }, g, run)
                },
                None => {
                    let (edit, clip) = self.literal_segment(request.finalized_text.as_str());
                    SegmentPlan::Literal(edit, clip, None)
                },
            };
        }
        match resolve_actions(config, d.actions.as_slice(), request.active_app.as_ref()) {
            Err(e) => {
                let text = e.text();
                let (edit, clip) = self.literal_segment(request.finalized_text.as_str());
                SegmentPlan::Literal(edit, clip, Some(resolution_failed_update(text.as_str())))
            },
            Ok(resolved) => {
                let closes = closes_block(&resolved, &d);
                let clip = clipboard_text_for_decision(&d);
                let previous = self.transcript.render();
                let next = self.transcript.apply_decision(&d, request.finalized_text.as_str(), closes);
                SegmentPlan::Apply(TextEdit { previous, next }, clip, resolved)
            },
        }
    }
}


/// The reply to a start request while a session is already running.
pub open spec fn already_active_msg() -> Seq<char> {
    "Dictation is already active"@
}

/// The microphone a new session captures from, or the error that tells the
/// user to choose one.
pub fn session_microphone(config: &AppConfig, available: &Vec<DeviceChoice>) -> (r: Result<DeviceChoice>)
    ensures
        match chosen_device(config.selected_device, available@) {
            Some(i) => r matches Ok(d) && 0 <= i < available@.len() && device_view(d) == device_view(available@[i]),
            None => r matches Err(e) && is_invalid_state(
                e,
                "No valid microphone is selected. Open wispr-settings and choose a microphone."@,
            ),
        },
{
    match resolve_selected_device(config, available) {
        Some(d) => Ok(d),
        None => Err(invalid_state("No valid microphone is selected. Open wispr-settings and choose a microphone.")),
    }
}

/// The error when the virtual keyboard cannot be opened, with why.
pub fn keyboard_open_error(detail: &str) -> (e: WisprError)
    ensures
        is_invalid_state(e, "Typing engine failed to open /dev/uinput: "@ + detail@),
{
    WisprError::InvalidState(crate::text::concat2("Typing engine failed to open /dev/uinput: ", detail))
}

/// The reply to a toggle, start or stop request: what the request did,
/// given whether a session was running.
pub fn request_reply(starting: bool, was_running: bool) -> (r: &'static str)
    ensures
        starting && was_running ==> r@ == already_active_msg(),
        starting && !was_running ==> r@ == "Started dictation"@,
        !starting && was_running ==> r@ == "Stopped dictation"@,
        !starting && !was_running ==> r@ == "Dictation is not active"@,
{
    if starting {
        if was_running {
            "Dictation is already active"
        } else {
            "Started dictation"
        }
    } else if was_running {
        "Stopped dictation"
    } else {
        "Dictation is not active"
    }
}


/// The Deepgram key a cloud session needs, or the error that sends the user
/// to the settings.
pub fn deepgram_key(stored: Option<String>) -> (r: Result<String>)
    ensures
        match stored {
            Some(k) => r matches Ok(s) && s@ == k@,
            None => r matches Err(e) && is_invalid_state(
                e,
                "No Deepgram API key is stored yet. Open wispr-settings first."@,
            ),
        },
{
    match stored {
        Some(k) => Ok(k),
        None => Err(invalid_state("No Deepgram API key is stored yet. Open wispr-settings first.")),
    }
}

/// The error when audio can no longer be handed to the transcription
/// backend: the cloud stream's sender is closed (`cloud`), or the local
/// session stopped taking audio.
pub fn audio_forward_error(cloud: bool) -> (e: WisprError)
    ensures
        cloud ==> is_invalid_state(e, "Failed to forward audio to Deepgram"@),
        !cloud ==> is_invalid_state(e, "local Whisper session is no longer accepting audio"@),
{
    if cloud {
        invalid_state("Failed to forward audio to Deepgram")
    } else {
        invalid_state("local Whisper session is no longer accepting audio")
    }
}

/// The answer of the D-Bus service to a request: the message when it
/// succeeded, else how the error reads.
pub fn bus_reply(outcome: Result<String>) -> (r: String)
    ensures
        match outcome {
            Ok(m) => r@ == m@,
            Err(e) => error_message(e) matches Some(m) ==> r@ == error_prefix(e) + m,
        },
{
    match outcome {
        Ok(m) => m,
        Err(e) => e.text(),
    }
}

/// The answer to a request to open the settings, given whether the settings
/// program could be started (and why not).
pub fn settings_reply(started: std::result::Result<(), String>) -> (r: String)
    ensures
        match started {
            Ok(_) => r@ == "Opened settings"@,
            Err(m) => r@ == "Failed to open settings: "@ + m@,
        },
{
    match started {
        Ok(_) => crate::text::owned("Opened settings"),
        Err(m) => crate::text::concat2("Failed to open settings: ", m.as_str()),
    }
}


/// The error shown when the desktop portal could not bind the dictation
/// shortcut.
pub fn portal_failure_message() -> (r: &'static str)
    ensures
        r@ == "Portal shortcut binding failed. Use a GNOME custom shortcut that runs `wisprctl toggle`."@,
{
    "Portal shortcut binding failed. Use a GNOME custom shortcut that runs `wisprctl toggle`."
}

} // verus!
