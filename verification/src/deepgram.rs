//! The cloud transcription protocol: what each message of the Deepgram
//! stream means for the session.
use vstd::prelude::*;
use crate::models::opt_view;
use crate::text::{concat2, owned, str_eq};

verus! {

/// The streaming endpoint and its options.
pub const DEEPGRAM_URL: &'static str = "wss://api.deepgram.com/v1/listen?model=nova-3&language=en&encoding=linear16&sample_rate=16000&interim_results=true&smart_format=true&punctuate=true&dictation=true&utterance_end_ms=1500&tag=wispr";
/// The message that keeps the connection open.
pub const KEEP_ALIVE_MESSAGE: &'static str = "{\"type\":\"KeepAlive\"}";
/// The message that ends the stream.
pub const CLOSE_STREAM_MESSAGE: &'static str = "{\"type\":\"CloseStream\"}";

/// The authorization header's value for an API key.
pub fn authorization_value(api_key: &str) -> (r: String)
    ensures
        r@ == "Token "@ + api_key@,
{
    concat2("Token ", api_key)
}

/// What the session reads of a message of the stream: its type, the
/// transcript of the first alternative of its channel (empty when there is
/// none), its finality flags (false when missing), the error texts, the turn
/// event, and the turn transcript (empty when missing).
#[derive(Clone, Debug)]
pub struct DeepgramFields {
    pub kind: Option<String>,
    pub alternative: String,
    pub is_final: bool,
    pub speech_final: bool,
    pub description: Option<String>,
    pub message: Option<String>,
    pub error: Option<String>,
    pub event: Option<String>,
    pub transcript: String,
}

/// What a message means for the session: a partial or final transcript of
/// the current turn, the end of the turn (with its final transcript or
/// without), or a warning.
#[derive(Debug)]
pub enum SpeechEvent {
    Partial(String),
    Final(String),
    TurnEnded,
    TurnEndedWithTranscript(String),
    Warning(String),
}

/// A speech event as plain values: its variant (0 partial, 1 final, 2 turn
/// ended, 3 turn ended with a transcript, 4 warning) and its text.
pub open spec fn speech_view(e: SpeechEvent) -> (int, Seq<char>) {
    match e {
        SpeechEvent::Partial(t) => (0, t@),
        SpeechEvent::Final(t) => (1, t@),
        SpeechEvent::TurnEnded => (2, Seq::empty()),
        SpeechEvent::TurnEndedWithTranscript(t) => (3, t@),
        SpeechEvent::Warning(t) => (4, t@),
    }
}

/// The warning text of an error message: its description, else its
/// message, else its error, else a fixed sentence.
pub open spec fn error_text(description: Option<Seq<char>>, message: Option<Seq<char>>, error: Option<Seq<char>>) -> Seq<char> {
    match description {
        Some(d) => d,
        None => match message {
            Some(m) => m,
            None => match error {
                Some(e) => e,
                None => "Deepgram returned an unspecified error"@,
            },
        },
    }
}

/// What a message means: `Results` give a final transcript when final or
/// at the end of speech, else a partial one (nothing when empty);
/// `UtteranceEnd` ends the turn; `TurnInfo` gives a partial transcript on
/// updates, ends the turn on `EndOfTurn` (with its transcript when there is
/// one), and on other events ends the turn when the transcript is empty,
/// else gives it as partial; `Error` warns; other types warn that they are
/// not handled; `SpeechStarted`, `StartOfTurn`, `Connected`, `Metadata`
/// and untyped messages mean nothing.
pub open spec fn speech_spec(f: DeepgramFields) -> Option<(int, Seq<char>)> {
    match opt_view(f.kind) {
        None => None,
        Some(k) => if k == "Results"@ {
            if f.alternative@.len() == 0 {
                None
            } else if f.is_final || f.speech_final {
                Some((1, f.alternative@))
            } else {
                Some((0, f.alternative@))
            }
        } else if k == "UtteranceEnd"@ {
            Some((2, Seq::empty()))
        } else if k == "SpeechStarted"@ {
            None
        } else if k == "TurnInfo"@ {
            let t = f.transcript@;
            match opt_view(f.event) {
                Some(ev) => if ev == "Update"@ || ev == "EagerEndOfTurn"@ || ev == "TurnResumed"@ {
                    if t.len() == 0 {
                        None
                    } else {
                        Some((0, t))
                    }
                } else if ev == "EndOfTurn"@ {
                    if t.len() == 0 {
                        Some((2, Seq::empty()))
                    } else {
                        Some((3, t))
                    }
                } else if ev == "StartOfTurn"@ {
                    None
                } else if t.len() == 0 {
                    Some((2, Seq::empty()))
                } else {
                    Some((0, t))
                },
                None => if t.len() == 0 {
                    Some((2, Seq::empty()))
                } else {
                    Some((0, t))
                },
            }
        } else if k == "Connected"@ || k == "Metadata"@ {
            None
        } else if k == "Error"@ {
            Some((4, error_text(opt_view(f.description), opt_view(f.message), opt_view(f.error))))
        } else {
            Some((4, "Unhandled Deepgram message: "@ + k))
        },
    }
}

/// What a turn event means, for its transcript.
fn turn_event(event: &Option<String>, transcript: String) -> (r: Option<SpeechEvent>)
    ensures
        match r {
            Some(e) => Some(speech_view(e)),
            None => None,
        } == (match opt_view(*event) {
            Some(ev) => if ev == "Update"@ || ev == "EagerEndOfTurn"@ || ev == "TurnResumed"@ {
                if transcript@.len() == 0 {
                    None
                } else {
                    Some((0int, transcript@))
                }
            } else if ev == "EndOfTurn"@ {
                if transcript@.len() == 0 {
                    Some((2int, Seq::<char>::empty()))
                } else {
                    Some((3int, transcript@))
                }
            } else if ev == "StartOfTurn"@ {
                None
            } else if transcript@.len() == 0 {
                Some((2int, Seq::<char>::empty()))
            } else {
                Some((0int, transcript@))
            },
            None => if transcript@.len() == 0 {
                Some((2int, Seq::<char>::empty()))
            } else {
                Some((0int, transcript@))
            },
        }),
{
    let empty = transcript.as_str().unicode_len() == 0;
    match event {
        Some(ev) => {
            let e = ev.as_str();
            if str_eq(e, "Update") || str_eq(e, "EagerEndOfTurn") || str_eq(e, "TurnResumed") {
                if empty {
                    None
                } else {
                    Some(SpeechEvent::Partial(transcript))
                }
            } else if str_eq(e, "EndOfTurn") {
                if empty {
                    Some(SpeechEvent::TurnEnded)
                } else {
                    Some(SpeechEvent::TurnEndedWithTranscript(transcript))
                }
            } else if str_eq(e, "StartOfTurn") {
                None
            } else if empty {
                Some(SpeechEvent::TurnEnded)
            } else {
                Some(SpeechEvent::Partial(transcript))
            }
        },
        None => {
            if empty {
                Some(SpeechEvent::TurnEnded)
            } else {
                Some(SpeechEvent::Partial(transcript))
            }
        },
    }
}

/// What a message of the stream means for the session.
pub fn into_event(fields: DeepgramFields) -> (r: Option<SpeechEvent>)
    ensures
        match r {
            Some(e) => Some(speech_view(e)),
            None => None,
        } == speech_spec(fields),
{
    let kind = match &fields.kind {
        Some(k) => owned(k.as_str()),
        None => return None,
    };
    let k = kind.as_str();
    if str_eq(k, "Results") {
        if fields.alternative.as_str().unicode_len() == 0 {
            return None;
        }
        if fields.is_final || fields.speech_final {
            return Some(SpeechEvent::Final(fields.alternative));
        }
        return Some(SpeechEvent::Partial(fields.alternative));
    }
    if str_eq(k, "UtteranceEnd") {
        return Some(SpeechEvent::TurnEnded);
    }
    if str_eq(k, "SpeechStarted") {
        return None;
    }
    if str_eq(k, "TurnInfo") {
        return turn_event(&fields.event, fields.transcript);
    }
    if str_eq(k, "Connected") || str_eq(k, "Metadata") {
        return None;
    }
    if str_eq(k, "Error") {
        let text = match fields.description {
            Some(d) => d,
            None => match fields.message {
                Some(m) => m,
                None => match fields.error {
                    Some(e) => e,
                    None => owned("Deepgram returned an unspecified error"),
                },
            },
        };
        return Some(SpeechEvent::Warning(text));
    }
    Some(SpeechEvent::Warning(concat2("Unhandled Deepgram message: ", k)))
}

/// The events that the local transcription of an utterance produces: the
/// backend is busy; then, when it succeeded, the transcript as final with
/// the end of the turn (when the transcript is not empty) and the backend
/// listening again; when it failed, a warning.
pub open spec fn local_transcription_spec(outcome: std::result::Result<Seq<char>, Seq<char>>) -> Seq<(int, Seq<char>)> {
    seq![(5int, "Transcribing locally"@)] + match outcome {
        Ok(t) => (if t.len() > 0 {
            seq![(1int, t), (2int, Seq::<char>::empty())]
        } else {
            Seq::empty()
        }) + seq![(5int, "Listening (local)"@)],
        Err(e) => seq![(4int, "Local Whisper transcription failed: "@ + e)],
    }
}

/// A session event as plain values: the speech events, and 5 for a change
/// of the backend's status line.
pub open spec fn session_event_view(e: SessionEvent) -> (int, Seq<char>) {
    match e {
        SessionEvent::Speech(s) => speech_view(s),
        SessionEvent::BackendState(t) => (5, t@),
    }
}

/// An event of a transcription backend: speech, or a new status line.
#[derive(Debug)]
pub enum SessionEvent {
    Speech(SpeechEvent),
    BackendState(String),
}

/// The events of a local transcription; `outcome` is the transcript or the
/// failure's message.
pub fn local_transcription_events(outcome: std::result::Result<String, String>) -> (r: Vec<SessionEvent>)
    ensures
        r@.map_values(|e: SessionEvent| session_event_view(e)) == local_transcription_spec(match outcome {
            Ok(t) => Ok(t@),
            Err(e) => Err(e@),
        }),
{
    let mut r: Vec<SessionEvent> = Vec::new();
    r.push(SessionEvent::BackendState(owned("Transcribing locally")));
    let ghost o = match &outcome {
        Ok(t) => Ok::<Seq<char>, Seq<char>>(t@),
        Err(e) => Err::<Seq<char>, Seq<char>>(e@),
    };
    match outcome {
        Ok(text) => {
            if text.as_str().unicode_len() > 0 {
                r.push(SessionEvent::Speech(SpeechEvent::Final(text)));
                r.push(SessionEvent::Speech(SpeechEvent::TurnEnded));
            }
            r.push(SessionEvent::BackendState(owned("Listening (local)")));
        },
        Err(e) => {
            r.push(SessionEvent::Speech(SpeechEvent::Warning(concat2("Local Whisper transcription failed: ", e.as_str()))));
        },
    }
    assert(r@.map_values(|e: SessionEvent| session_event_view(e)) =~= local_transcription_spec(o));
    r
}

} // verus!
