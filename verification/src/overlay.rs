//! What the on-screen overlay shows for a daemon status: a title, a short
//! message, the provider badge, the indicator's look, an optional detail
//! line, and whether the overlay is visible at all.
use vstd::prelude::*;
use crate::models::{opt_view, DaemonStatus, DictationState, TranscriptionProvider};
use crate::text::{
    chars_of, concat2, join, join_chars, owned, slice_to_vec, string_of, words, words_of,
};

verus! {

/// The title of the overlay.
pub open spec fn title_spec(state: DictationState, provider: TranscriptionProvider) -> Seq<char> {
    match state {
        DictationState::Idle => "Idle"@,
        DictationState::Listening => match provider {
            TranscriptionProvider::Deepgram => "Listening"@,
            TranscriptionProvider::WhisperLocal => "Listening locally"@,
        },
        DictationState::Error => "Transcription issue"@,
    }
}

/// The title of the overlay.
pub fn primary_title(status: &DaemonStatus) -> (r: &'static str)
    ensures
        r@ == title_spec(status.state, status.transcription_provider),
{
    match status.state {
        DictationState::Idle => "Idle",
        DictationState::Listening => match status.transcription_provider {
            TranscriptionProvider::Deepgram => "Listening",
            TranscriptionProvider::WhisperLocal => "Listening locally",
        },
        DictationState::Error => "Transcription issue",
    }
}

/// The provider badge.
pub fn provider_badge(provider: TranscriptionProvider) -> (r: &'static str)
    ensures
        r@ == match provider {
            TranscriptionProvider::Deepgram => "Cloud"@,
            TranscriptionProvider::WhisperLocal => "Local"@,
        },
{
    match provider {
        TranscriptionProvider::Deepgram => "Cloud",
        TranscriptionProvider::WhisperLocal => "Local",
    }
}

/// A text with its runs of whitespace turned into single spaces and its
/// ends trimmed.
pub open spec fn compact_spec(text: Seq<char>) -> Seq<char> {
    join(words(text), " "@)
}

/// Collapses the whitespace of a text.
pub fn compact_text(text: &str) -> (r: String)
    ensures
        r@ == compact_spec(text@),
{
    let cs = chars_of(text);
    let ws = words_of(&cs);
    let sep = chars_of(" ");
    let joined = join_chars(&ws, &sep);
    string_of(&joined)
}

/// The last `max_chars` characters of a text, marked with `'…'` when some
/// were cut.
pub open spec fn clip_spec(text: Seq<char>, max_chars: nat) -> Seq<char> {
    if text.len() <= max_chars {
        text
    } else {
        seq!['…'] + text.skip(text.len() - max_chars)
    }
}

/// Keeps the end of a text that is too long.
pub fn clip_tail(text: &str, max_chars: usize) -> (r: String)
    ensures
        r@ == clip_spec(text@, max_chars as nat),
{
    let cs = chars_of(text);
    if cs.len() <= max_chars {
        return owned(text);
    }
    let tail = slice_to_vec(&cs, cs.len() - max_chars, cs.len());
    assert(tail@ =~= text@.skip(text@.len() - max_chars));
    let t = string_of(&tail);
    proof {
        reveal_strlit("…");
        assert("…"@ =~= seq!['…']);
    }
    concat2("…", t.as_str())
}

/// A compacted text, unless it is empty.
pub open spec fn nonempty_compact(t: Option<Seq<char>>) -> Option<Seq<char>> {
    match t {
        Some(x) => if compact_spec(x).len() > 0 {
            Some(compact_spec(x))
        } else {
            None
        },
        None => None,
    }
}

/// The overlay's message: the partial transcript, else the transcription
/// status line (each compacted and clipped to 110 characters), else the
/// microphone, else a prompt.
pub open spec fn message_spec(
    partial: Option<Seq<char>>,
    transcription_state: Option<Seq<char>>,
    mic_name: Option<Seq<char>>,
) -> Seq<char> {
    match nonempty_compact(partial) {
        Some(t) => clip_spec(t, 110),
        None => match nonempty_compact(transcription_state) {
            Some(t) => clip_spec(t, 110),
            None => match mic_name {
                Some(n) => "Mic: "@ + n,
                None => "Waiting for speech"@,
            },
        },
    }
}

/// A compacted text, unless it is empty.
fn compact_nonempty(t: &Option<String>) -> (r: Option<String>)
    ensures
        opt_view(r) == nonempty_compact(opt_view(*t)),
{
    match t {
        Some(x) => {
            let c = compact_text(x.as_str());
            if c.as_str().unicode_len() > 0 {
                Some(c)
            } else {
                None
            }
        },
        None => None,
    }
}

/// The overlay's message.
pub fn compact_message(status: &DaemonStatus) -> (r: String)
    ensures
        r@ == message_spec(
            opt_view(status.partial_transcript),
            opt_view(status.transcription_state),
            match status.current_mic {
                Some(m) => Some(m.display_name@),
                None => None,
            },
        ),
{
    if let Some(t) = compact_nonempty(&status.partial_transcript) {
        return clip_tail(t.as_str(), 110);
    }
    if let Some(t) = compact_nonempty(&status.transcription_state) {
        return clip_tail(t.as_str(), 110);
    }
    match &status.current_mic {
        Some(m) => concat2("Mic: ", m.display_name.as_str()),
        None => owned("Waiting for speech"),
    }
}

/// The overlay's detail line: the transcription error, else the last
/// error (compacted, clipped to 140 characters); a hint in the error state;
/// else nothing.
pub open spec fn detail_spec(
    transcription_error: Option<Seq<char>>,
    last_error: Option<Seq<char>>,
    state: DictationState,
) -> Seq<char> {
    let chosen = match transcription_error {
        Some(e) => Some(e),
        None => last_error,
    };
    match nonempty_compact(chosen) {
        Some(t) => clip_spec(t, 140),
        None => if state == DictationState::Error {
            "Check transcription backend readiness."@
        } else {
            Seq::empty()
        },
    }
}

/// The overlay's detail line.
pub fn detail_text(status: &DaemonStatus) -> (r: String)
    ensures
        r@ == detail_spec(
            opt_view(status.last_transcription_error),
            opt_view(status.last_error),
            status.state,
        ),
{
    let chosen = match &status.last_transcription_error {
        Some(e) => compact_nonempty(&Some(owned(e.as_str()))),
        None => compact_nonempty(&crate::models::copy_opt_string(&status.last_error)),
    };
    match chosen {
        Some(t) => clip_tail(t.as_str(), 140),
        None => {
            if status.state == DictationState::Error {
                owned("Check transcription backend readiness.")
            } else {
                String::new()
            }
        },
    }
}

/// How the overlay's indicator looks.
#[derive(Clone, Copy, Debug, PartialEq, Eq, Structural)]
pub enum Indicator {
    Idle,
    Live,
    Error,
}

/// Everything the overlay shows for a status.
#[derive(Debug)]
pub struct OverlayView {
    pub title: String,
    pub message: String,
    pub provider_badge: String,
    pub indicator: Indicator,
    pub card_error: bool,
    pub detail: String,
    pub detail_visible: bool,
    pub visible: bool,
}

/// What the overlay shows for a status: it is hidden when idle; the
/// indicator follows the state and the card is marked in the error state;
/// the detail line shows when it is not empty.
pub fn overlay_view(status: &DaemonStatus) -> (r: OverlayView)
    ensures
        r.title@ == title_spec(status.state, status.transcription_provider),
        r.message@ == message_spec(
            opt_view(status.partial_transcript),
            opt_view(status.transcription_state),
            match status.current_mic {
                Some(m) => Some(m.display_name@),
                None => None,
            },
        ),
        r.provider_badge@ == match status.transcription_provider {
            TranscriptionProvider::Deepgram => "Cloud"@,
            TranscriptionProvider::WhisperLocal => "Local"@,
        },
        r.indicator == match status.state {
            DictationState::Idle => Indicator::Idle,
            DictationState::Listening => Indicator::Live,
            DictationState::Error => Indicator::Error,
        },
        r.card_error == (status.state == DictationState::Error),
        r.detail@ == detail_spec(opt_view(status.last_transcription_error), opt_view(status.last_error), status.state),
        r.detail_visible == (r.detail@.len() > 0),
        r.visible == (status.state != DictationState::Idle),
{
    let detail = detail_text(status);
    let detail_visible = detail.as_str().unicode_len() > 0;
    OverlayView {
        title: owned(primary_title(status)),
        message: compact_message(status),
        provider_badge: owned(provider_badge(status.transcription_provider)),
        indicator: match status.state {
            DictationState::Idle => Indicator::Idle,
            DictationState::Listening => Indicator::Live,
            DictationState::Error => Indicator::Error,
        },
        card_error: status.state == DictationState::Error,
        detail,
        detail_visible,
        visible: status.state != DictationState::Idle,
    }
}

} // verus!
