//! Cutting microphone audio into utterances for local Whisper: frames of
//! 30 ms are classified as voice or silence, an utterance starts after two
//! voiced frames, ends after enough silence or when it grows too long, and
//! is dropped when it is too short.
use vstd::prelude::*;
use crate::error::{invalid_state, Result};

verus! {

/// Samples per second of the captured audio.
pub const SAMPLE_RATE_HZ: u32 = 16_000;
/// Samples per 30 ms frame.
pub const FRAME_SAMPLES: usize = 480;
/// Bytes per frame of 16-bit little-endian samples.
pub const FRAME_BYTES: usize = 960;
/// Voiced frames in a row that start an utterance.
pub const START_VOICED_FRAMES: usize = 2;
/// Silent frames in a row that end an utterance.
pub const END_SILENCE_FRAMES: usize = 27;
/// Frames below which an utterance is dropped as noise.
pub const MIN_UTTERANCE_FRAMES: usize = 10;
/// Frames at which an utterance is cut even while the user speaks.
pub const MAX_UTTERANCE_FRAMES: usize = 1500;
/// The number of frames after which frame positions, in samples, would no
/// longer fit in 64 bits.
pub const MAX_FRAMES_SEEN: u64 = 38_430_716_820_228_232;

#[verifier::external_type_specification]
#[verifier::external_body]
pub struct ExVad(webrtc_vad::Vad);

/// A voice activity detector for 16 kHz audio in its aggressive mode
/// (`webrtc_vad::Vad::new_with_rate_and_mode`). Nothing is stated of it.
#[verifier::external_body]
fn new_vad() -> (r: webrtc_vad::Vad) {
    webrtc_vad::Vad::new_with_rate_and_mode(webrtc_vad::SampleRate::Rate16kHz, webrtc_vad::VadMode::Aggressive)
}

/// The segmenter's voice activity detector, and the frames it has been
/// given so far, oldest first. Its detector is made only by `new`, through
/// `new_vad`, at 16 kHz; nothing changes its rate afterwards.
struct SpeechDetector {
    vad: webrtc_vad::Vad,
    given: Ghost<Seq<Seq<i16>>>,
}

impl SpeechDetector {
    /// The frames given to the detector so far.
    closed spec fn frames_given(&self) -> Seq<Seq<i16>> {
        self.given@
    }

    /// A fresh detector that has been given nothing.
    fn new() -> (r: Self)
        ensures
            r.frames_given().len() == 0,
    {
        SpeechDetector { vad: new_vad(), given: Ghost(Seq::empty()) }
    }
}

/// Whether a frame holds voice (`webrtc_vad::Vad::is_voice_segment`), which
/// is recorded as given to the detector. The detector answers `Err` only
/// for a frame length it does not take; at 16 kHz it takes 10, 20 and 30 ms
/// frames, of 160, 320 and 480 samples. Which answer comes otherwise depends
/// on the detector's history and is not stated. The frame must not be
/// empty, where the detector would panic.
#[verifier::external_body]
fn vad_is_voice(detector: &mut SpeechDetector, samples: &[i16]) -> (r: std::result::Result<bool, ()>)
    requires
        samples@.len() > 0,
    ensures
        final(detector).frames_given() == old(detector).frames_given().push(samples@),
        samples@.len() == 160 || samples@.len() == 320 || samples@.len() == 480 ==> r is Ok,
{
    detector.vad.is_voice_segment(samples)
}

/// A stretch of speech to transcribe, and the position of its first sample
/// in the session's audio.
pub struct WhisperUtterance {
    pub samples: Vec<i16>,
    pub start_sample: u64,
}

/// An utterance as plain values.
pub open spec fn utterance_view(u: WhisperUtterance) -> (Seq<i16>, u64) {
    (u.samples@, u.start_sample)
}

/// The utterances of a list as plain values.
pub open spec fn utterance_views(v: Seq<WhisperUtterance>) -> Seq<(Seq<i16>, u64)> {
    v.map_values(|u: WhisperUtterance| utterance_view(u))
}

/// The segmenter's state, frame by frame: the voiced frames waiting to
/// start an utterance and the position of the first; the samples of the
/// utterance under way and its start; how many frames it has, and how many
/// of the last ones were silent.
#[verifier::ext_equal]
pub ghost struct SegState {
    pub pending_frames: Seq<Seq<i16>>,
    pub pending_start: Option<u64>,
    pub current: Seq<i16>,
    pub current_start: Option<u64>,
    pub frame_count: nat,
    pub silence: nat,
}

/// The frames of a list, one after the other.
pub open spec fn concat_frames(fs: Seq<Seq<i16>>) -> Seq<i16>
    decreases fs.len(),
{
    if fs.len() == 0 {
        Seq::empty()
    } else {
        concat_frames(fs.drop_last()) + fs.last()
    }
}

/// The state that the segmenter keeps between frames.
pub open spec fn seg_wf(s: SegState) -> bool {
    &&& s.pending_frames.len() < START_VOICED_FRAMES
    &&& (s.pending_start is Some <==> s.pending_frames.len() > 0)
    &&& s.current_start is None ==> s.current.len() == 0 && s.frame_count == 0 && s.silence == 0
    &&& s.current_start is Some ==> s.pending_frames.len() == 0 && s.pending_start is None
    &&& s.frame_count < MAX_UTTERANCE_FRAMES
    &&& s.silence < END_SILENCE_FRAMES
    &&& s.silence <= s.frame_count
}

/// The segmenter with nothing pending and no utterance under way.
pub open spec fn idle_state() -> SegState {
    SegState {
        pending_frames: Seq::empty(),
        pending_start: None,
        current: Seq::empty(),
        current_start: None,
        frame_count: 0,
        silence: 0,
    }
}

/// Ends the utterance under way, if any: with `keep_trailing_silence`
/// false, its trailing silent frames are cut off. The segmenter becomes
/// idle; the utterance is returned unless it has fewer than
/// `MIN_UTTERANCE_FRAMES` frames or no sample.
pub open spec fn finalize_spec(s: SegState, keep_trailing_silence: bool) -> (SegState, Option<(Seq<i16>, u64)>) {
    match s.current_start {
        None => (s, None),
        Some(start) => {
            let trailing = s.silence * FRAME_SAMPLES;
            let kept = if !keep_trailing_silence && s.silence > 0 {
                if s.current.len() >= trailing {
                    (s.current.len() - trailing) as nat
                } else {
                    0nat
                }
            } else {
                s.current.len()
            };
            let samples = s.current.take(kept as int);
            let frames = if !keep_trailing_silence && s.silence > 0 {
                kept / (FRAME_SAMPLES as nat)
            } else {
                s.frame_count
            };
            if frames < MIN_UTTERANCE_FRAMES || samples.len() == 0 {
                (idle_state(), None)
            } else {
                (idle_state(), Some((samples, start)))
            }
        },
    }
}

/// What one frame does to the segmenter, and the utterance it completes.
/// With no utterance under way, a voiced frame waits (with the position of
/// the first waiting frame) until `START_VOICED_FRAMES` are waiting, which
/// then start the utterance; a silent frame drops the waiting ones. During
/// an utterance every frame is added; enough silence ends it without its
/// trailing silence, and `MAX_UTTERANCE_FRAMES` frames cut it as it is.
pub open spec fn frame_step(s: SegState, samples: Seq<i16>, is_voice: bool, start: u64) -> (SegState, Option<(Seq<i16>, u64)>) {
    if s.current_start is None {
        if is_voice {
            let ps = if s.pending_start is None {
                Some(start)
            } else {
                s.pending_start
            };
            let pf = s.pending_frames.push(samples);
            if pf.len() >= START_VOICED_FRAMES {
                (
                    SegState {
                        pending_frames: Seq::empty(),
                        pending_start: None,
                        current: s.current + concat_frames(pf),
                        current_start: ps,
                        frame_count: s.frame_count + pf.len(),
                        silence: s.silence,
                    },
                    None,
                )
            } else {
                (SegState { pending_frames: pf, pending_start: ps, ..s }, None)
            }
        } else {
            (SegState { pending_frames: Seq::empty(), pending_start: None, ..s }, None)
        }
    } else {
        let s2 = SegState {
            current: s.current + samples,
            frame_count: s.frame_count + 1,
            silence: if is_voice {
                0
            } else {
                s.silence + 1
            },
            ..s
        };
        if s2.silence >= END_SILENCE_FRAMES {
            finalize_spec(s2, false)
        } else if s2.frame_count >= MAX_UTTERANCE_FRAMES {
            finalize_spec(s2, true)
        } else {
            (s2, None)
        }
    }
}

/// Every frame keeps the segmenter's state well formed: in particular no
/// utterance grows to `MAX_UTTERANCE_FRAMES` frames without being cut.
pub proof fn law_frame_step_keeps_state(s: SegState, samples: Seq<i16>, is_voice: bool, start: u64)
    requires
        seg_wf(s),
    ensures
        seg_wf(frame_step(s, samples, is_voice, start).0),
{
}

/// An utterance handed out is never empty, and the segmenter is idle after
/// it.
pub proof fn law_emitted_utterance(s: SegState, samples: Seq<i16>, is_voice: bool, start: u64)
    requires
        seg_wf(s),
        frame_step(s, samples, is_voice, start).1 is Some,
    ensures
        frame_step(s, samples, is_voice, start).1 matches Some(u) && u.0.len() > 0,
        frame_step(s, samples, is_voice, start).0 == idle_state(),
{
}

/// Waiting voiced frames never make an utterance by themselves: a frame
/// that does not belong to an utterance under way completes none.
pub proof fn law_no_utterance_without_start(s: SegState, samples: Seq<i16>, is_voice: bool, start: u64)
    requires
        s.current_start is None,
    ensures
        frame_step(s, samples, is_voice, start).1 is None,
{
}

/// During an utterance a voiced frame clears the count of trailing silent
/// frames, and a silent frame that does not end the utterance adds one to
/// it.
pub proof fn law_voice_clears_silence(s: SegState, samples: Seq<i16>, is_voice: bool, start: u64)
    requires
        seg_wf(s),
        s.current_start is Some,
    ensures
        is_voice ==> frame_step(s, samples, is_voice, start).0.silence == 0,
        !is_voice && frame_step(s, samples, is_voice, start).0.current_start is Some ==> frame_step(
            s,
            samples,
            is_voice,
            start,
        ).0.silence == s.silence + 1,
{
}

/// When silence ends an utterance, what is handed out is the utterance
/// with exactly its `END_SILENCE_FRAMES` trailing silent frames cut off.
pub proof fn law_silence_cut_is_the_silence(s: SegState, samples: Seq<i16>, start: u64)
    requires
        seg_wf(s),
        s.current_start is Some,
        s.silence + 1 == END_SILENCE_FRAMES,
        s.current.len() + samples.len() >= END_SILENCE_FRAMES * FRAME_SAMPLES,
    ensures
        frame_step(s, samples, false, start).0 == idle_state(),
        frame_step(s, samples, false, start).1 matches Some(u) ==> {
            &&& u.0.is_prefix_of(s.current + samples)
            &&& (s.current + samples).len() - u.0.len() == END_SILENCE_FRAMES * FRAME_SAMPLES
            &&& u.1 == s.current_start->0
        },
{
}

/// How many of the last classifications are silence, in a row.
pub open spec fn trailing_unvoiced(voices: Seq<bool>) -> nat
    decreases voices.len(),
{
    if voices.len() == 0 || voices.last() {
        0
    } else {
        1 + trailing_unvoiced(voices.drop_last())
    }
}

/// After any run of frames, an utterance still under way counts as silence
/// exactly the frames at the end of the run that were silent, in a row
/// (added to the silence it already had when the whole run was silent).
/// So silence ends an utterance only after `END_SILENCE_FRAMES` silent
/// frames in a row, and what it cuts off is that silence.
pub proof fn law_silence_is_the_trailing_unvoiced_run(
    s: SegState,
    first: u64,
    frames: Seq<Seq<i16>>,
    voices: Seq<bool>,
)
    requires
        seg_wf(s),
        frames.len() == voices.len(),
    ensures
        seg_wf(run_frames(s, first, frames, voices).0),
        run_frames(s, first, frames, voices).0.current_start is Some ==> run_frames(
            s,
            first,
            frames,
            voices,
        ).0.silence == trailing_unvoiced(voices) + if trailing_unvoiced(voices) == voices.len() {
            s.silence
        } else {
            0
        },
    decreases frames.len(),
{
    if frames.len() > 0 {
        let prev = run_frames(s, first, frames.drop_last(), voices.drop_last());
        law_silence_is_the_trailing_unvoiced_run(s, first, frames.drop_last(), voices.drop_last());
        law_frame_step_keeps_state(
            prev.0,
            frames.last(),
            voices.last(),
            ((first + frames.len() - 1) * FRAME_SAMPLES) as u64,
        );
    }
}

/// A 16-bit little-endian sample from its two bytes.
pub open spec fn le_sample(lo: u8, hi: u8) -> int {
    let v = lo + 256 * hi;
    if v >= 32768 {
        v - 65536
    } else {
        v
    }
}

/// The samples of one frame of bytes.
pub open spec fn decode_frame(bytes: Seq<u8>) -> Seq<i16> {
    Seq::new(FRAME_SAMPLES as nat, |i: int| le_sample(bytes[2 * i], bytes[2 * i + 1]) as i16)
}

/// The whole frames in a byte sequence, in order; bytes after the last
/// whole frame are left out.
pub open spec fn byte_frames(bytes: Seq<u8>) -> Seq<Seq<i16>> {
    Seq::new(
        bytes.len() / (FRAME_BYTES as nat),
        |k: int| decode_frame(bytes.subrange(FRAME_BYTES * k, FRAME_BYTES * k + FRAME_BYTES)),
    )
}

/// The frames run through the segmenter one by one, the `k`-th starting at
/// sample `(first + k) * FRAME_SAMPLES` and classified by `voices[k]`: the
/// final state, and the utterances completed, in order.
pub open spec fn run_frames(s: SegState, first: u64, frames: Seq<Seq<i16>>, voices: Seq<bool>) -> (SegState, Seq<(Seq<i16>, u64)>)
    decreases frames.len(),
{
    if frames.len() == 0 {
        (s, Seq::empty())
    } else {
        let prev = run_frames(s, first, frames.drop_last(), voices.drop_last());
        let step = frame_step(
            prev.0,
            frames.last(),
            voices.last(),
            ((first + frames.len() - 1) * FRAME_SAMPLES) as u64,
        );
        (step.0, match step.1 {
            Some(u) => prev.1.push(u),
            None => prev.1,
        })
    }
}

/// The samples of one frame of bytes.
fn decode_samples(bytes: &[u8]) -> (r: Vec<i16>)
    requires
        bytes@.len() == FRAME_BYTES,
    ensures
        r@ == decode_frame(bytes@),
{
    let mut out: Vec<i16> = Vec::new();
    for i in 0..FRAME_SAMPLES
        invariant
            bytes@.len() == FRAME_BYTES,
            out@.len() == i,
            forall|j: int| 0 <= j < i ==> out@[j] == le_sample(bytes@[2 * j], bytes@[2 * j + 1]) as i16,
    {
        let lo = bytes[2 * i] as i32;
        let hi = bytes[2 * i + 1] as i32;
        let v = lo + hi * 256;
        let sample: i16 = if v >= 32768 {
            (v - 65536) as i16
        } else {
            v as i16
        };
        out.push(sample);
    }
    assert(out@ =~= decode_frame(bytes@));
    out
}

/// Splits voice from silence in the session's audio.
pub struct WhisperSegmenter {
    vad: SpeechDetector,
    pending_bytes: Vec<u8>,
    pending_voice_frames: Vec<Vec<i16>>,
    pending_voice_start_sample: Option<u64>,
    current_samples: Vec<i16>,
    current_start_sample: Option<u64>,
    current_frame_count: usize,
    silence_frames: usize,
    frames_seen: u64,
}

/// The samples of a list of frames.
pub open spec fn frame_views(v: Seq<Vec<i16>>) -> Seq<Seq<i16>> {
    v.map_values(|f: Vec<i16>| f@)
}

impl WhisperSegmenter {
    /// The segmenter's state.
    pub closed spec fn state(&self) -> SegState {
        SegState {
            pending_frames: frame_views(self.pending_voice_frames@),
            pending_start: self.pending_voice_start_sample,
            current: self.current_samples@,
            current_start: self.current_start_sample,
            frame_count: self.current_frame_count as nat,
            silence: self.silence_frames as nat,
        }
    }

    /// Bytes received that do not make a whole frame yet.
    pub closed spec fn pending_bytes(&self) -> Seq<u8> {
        self.pending_bytes@
    }

    /// How many frames were classified so far.
    pub closed spec fn frames_seen(&self) -> u64 {
        self.frames_seen
    }

    /// The frames handed to the voice activity detector so far, oldest
    /// first.
    pub closed spec fn frames_given(&self) -> Seq<Seq<i16>> {
        self.vad.frames_given()
    }

    /// The segmenter's invariant.
    pub open spec fn wf(&self) -> bool {
        &&& seg_wf(self.state())
        &&& self.pending_bytes().len() < FRAME_BYTES
        &&& self.frames_seen() <= MAX_FRAMES_SEEN
    }

    /// A segmenter that has heard nothing.
    pub fn new() -> (r: Self)
        ensures
            r.wf(),
            r.state() == idle_state(),
            r.pending_bytes().len() == 0,
            r.frames_seen() == 0,
            r.frames_given().len() == 0,
    {
        let r = WhisperSegmenter {
            vad: SpeechDetector::new(),
            pending_bytes: Vec::new(),
            pending_voice_frames: Vec::new(),
            pending_voice_start_sample: None,
            current_samples: Vec::new(),
            current_start_sample: None,
            current_frame_count: 0,
            silence_frames: 0,
            frames_seen: 0,
        };
        assert(r.state() =~= idle_state());
        r
    }

    /// Resets everything but the received bytes and the frame count.
    fn reset(&mut self)
        ensures
            final(self).state() == idle_state(),
            final(self).pending_bytes() == old(self).pending_bytes(),
            final(self).frames_seen() == old(self).frames_seen(),
            final(self).frames_given() == old(self).frames_given(),
    {
        self.current_samples = Vec::new();
        self.current_start_sample = None;
        self.current_frame_count = 0;
        self.silence_frames = 0;
        self.pending_voice_frames = Vec::new();
        self.pending_voice_start_sample = None;
        assert(self.state() =~= idle_state());
    }

    /// Ends the utterance under way, if any; with `keep_trailing_silence`
    /// false its trailing silent frames are cut off.
    fn finalize_current(&mut self, keep_trailing_silence: bool) -> (r: Option<WhisperUtterance>)
        requires
            old(self).state().silence < END_SILENCE_FRAMES + 1,
        ensures
            (final(self).state(), match r {
                Some(u) => Some(utterance_view(u)),
                None => None,
            }) == finalize_spec(old(self).state(), keep_trailing_silence),
            final(self).pending_bytes() == old(self).pending_bytes(),
            final(self).frames_seen() == old(self).frames_seen(),
            final(self).frames_given() == old(self).frames_given(),
    {
        let start = match self.current_start_sample {
            Some(s) => s,
            None => return None,
        };
        let mut samples = Vec::new();
        std::mem::swap(&mut samples, &mut self.current_samples);
        let mut frame_count = self.current_frame_count;
        let ghost all = samples@;
        if !keep_trailing_silence && self.silence_frames > 0 {
            let trailing = self.silence_frames * FRAME_SAMPLES;
            let kept = if samples.len() >= trailing {
                samples.len() - trailing
            } else {
                0
            };
            samples.truncate(kept);
            frame_count = samples.len() / FRAME_SAMPLES;
        } else {
            assert(all.take(all.len() as int) =~= all);
        }
        self.reset();
        if frame_count < MIN_UTTERANCE_FRAMES || samples.len() == 0 {
            return None;
        }
        Some(WhisperUtterance { samples, start_sample: start })
    }

    /// Ends the utterance under way, keeping its trailing silence: used when
    /// the audio stops.
    pub fn flush(&mut self) -> (r: Option<WhisperUtterance>)
        requires
            old(self).wf(),
        ensures
            final(self).wf(),
            (final(self).state(), match r {
                Some(u) => Some(utterance_view(u)),
                None => None,
            }) == finalize_spec(old(self).state(), true),
            final(self).pending_bytes() == old(self).pending_bytes(),
            final(self).frames_seen() == old(self).frames_seen(),
            final(self).frames_given() == old(self).frames_given(),
    {
        self.finalize_current(true)
    }

    /// Adds one classified frame that starts at sample `frame_start_sample`,
    /// and returns the utterance it completes, if any.
    pub fn push_frame(&mut self, samples: Vec<i16>, is_voice: bool, frame_start_sample: u64) -> (r: Option<WhisperUtterance>)
        requires
            seg_wf(old(self).state()),
        ensures
            seg_wf(final(self).state()),
            (final(self).state(), match r {
                Some(u) => Some(utterance_view(u)),
                None => None,
            }) == frame_step(old(self).state(), samples@, is_voice, frame_start_sample),
            final(self).pending_bytes() == old(self).pending_bytes(),
            final(self).frames_seen() == old(self).frames_seen(),
            final(self).frames_given() == old(self).frames_given(),
    {
        proof {
            law_frame_step_keeps_state(self.state(), samples@, is_voice, frame_start_sample);
        }
        let ghost target = frame_step(self.state(), samples@, is_voice, frame_start_sample).0;
        if self.current_start_sample.is_none() {
            if is_voice {
                if self.pending_voice_start_sample.is_none() {
                    self.pending_voice_start_sample = Some(frame_start_sample);
                }
                let ghost before = frame_views(self.pending_voice_frames@);
                self.pending_voice_frames.push(samples);
                assert(frame_views(self.pending_voice_frames@) =~= before.push(samples@));
                if self.pending_voice_frames.len() >= START_VOICED_FRAMES {
                    self.current_start_sample = self.pending_voice_start_sample;
                    self.pending_voice_start_sample = None;
                    let mut frames: Vec<Vec<i16>> = Vec::new();
                    std::mem::swap(&mut frames, &mut self.pending_voice_frames);
                    let ghost fv = frame_views(frames@);
                    let ghost base = self.current_samples@;
                    assert(target.current == base + concat_frames(fv));
                    let n = frames.len();
                    for i in 0..n
                        invariant
                            n == frames@.len(),
                            n == 2,
                            fv == frame_views(frames@),
                            self.current_samples@ == base + concat_frames(fv.take(i as int)),
                            self.current_frame_count == i,
                            target.current == base + concat_frames(fv),
                            target.current_start == self.current_start_sample,
                            target.pending_start is None,
                            target.pending_frames.len() == 0,
                            target.frame_count == 2,
                            target.silence == self.silence_frames,
                            self.pending_voice_start_sample is None,
                            self.pending_voice_frames@.len() == 0,
                            self.pending_bytes@ == old(self).pending_bytes@,
                            self.frames_seen == old(self).frames_seen,
                            self.frames_given() == old(self).frames_given(),
                    {
                        self.current_samples.extend_from_slice(frames[i].as_slice());
                        assert(fv.take(i + 1).drop_last() =~= fv.take(i as int));
                        assert(fv[i as int] == frames@[i as int]@);
                        assert(self.current_samples@ =~= base + concat_frames(fv.take(i + 1)));
                        self.current_frame_count = self.current_frame_count + 1;
                    }
                    assert(fv.take(n as int) =~= fv);
                    assert(frame_views(self.pending_voice_frames@) =~= Seq::<Seq<i16>>::empty());
                    assert(self.state() =~= target);
                } else {
                    assert(self.state() =~= frame_step(old(self).state(), samples@, is_voice, frame_start_sample).0);
                }
            } else {
                self.pending_voice_frames = Vec::new();
                self.pending_voice_start_sample = None;
                assert(self.state() =~= frame_step(old(self).state(), samples@, is_voice, frame_start_sample).0);
            }
            return None;
        }
        self.current_samples.extend_from_slice(samples.as_slice());
        self.current_frame_count = self.current_frame_count + 1;
        if is_voice {
            self.silence_frames = 0;
        } else {
            self.silence_frames = self.silence_frames + 1;
        }
        if self.silence_frames >= END_SILENCE_FRAMES {
            return self.finalize_current(false);
        }
        if self.current_frame_count >= MAX_UTTERANCE_FRAMES {
            return self.finalize_current(true);
        }
        None
    }

    /// Takes in received audio bytes, hands every whole frame they complete
    /// to the detector, in order, and adds it with the detector's answer;
    /// returns the utterances completed, in order. The detector takes every
    /// 30 ms frame, so this succeeds; which frames it finds voiced is its
    /// own.
    pub fn push_bytes(&mut self, bytes: &[u8]) -> (r: Result<Vec<WhisperUtterance>>)
        requires
            old(self).wf(),
            old(self).frames_seen() + (old(self).pending_bytes().len() + bytes@.len()) / (FRAME_BYTES as nat)
                <= MAX_FRAMES_SEEN,
        ensures
            final(self).wf(),
            r is Ok,
            final(self).frames_given() == old(self).frames_given() + byte_frames(old(self).pending_bytes() + bytes@),
            r matches Ok(us) ==> exists|voices: Seq<bool>| {
                &&& voices.len() == byte_frames(old(self).pending_bytes() + bytes@).len()
                &&& (final(self).state(), utterance_views(us@)) == #[trigger] run_frames(
                    old(self).state(),
                    old(self).frames_seen(),
                    byte_frames(old(self).pending_bytes() + bytes@),
                    voices,
                )
                &&& final(self).pending_bytes() == (old(self).pending_bytes() + bytes@).skip(
                    FRAME_BYTES * byte_frames(old(self).pending_bytes() + bytes@).len(),
                )
                &&& final(self).frames_seen() == old(self).frames_seen() + byte_frames(
                    old(self).pending_bytes() + bytes@,
                ).len()
            },
    {
        self.pending_bytes.extend_from_slice(bytes);
        let ghost all = self.pending_bytes@;
        let ghost frames = byte_frames(all);
        let ghost s0 = self.state();
        let ghost n0 = self.frames_seen;
        let ghost mut voices: Seq<bool> = Seq::empty();
        let ghost mut k: int = 0;
        let mut utterances: Vec<WhisperUtterance> = Vec::new();
        assert(all.skip(0) =~= all);
        assert(frames.take(0) =~= Seq::<Seq<i16>>::empty());
        assert(utterance_views(utterances@) =~= Seq::<(Seq<i16>, u64)>::empty());
        while self.pending_bytes.len() >= FRAME_BYTES
            invariant
                seg_wf(self.state()),
                all == old(self).pending_bytes@ + bytes@,
                frames == byte_frames(all),
                s0 == old(self).state(),
                n0 == old(self).frames_seen,
                n0 + frames.len() <= MAX_FRAMES_SEEN,
                voices.len() == k,
                0 <= k <= frames.len(),
                self.pending_bytes@ == all.skip(FRAME_BYTES * k),
                self.frames_seen == n0 + k,
                self.frames_given() == old(self).frames_given() + frames.take(k),
                (self.state(), utterance_views(utterances@)) == run_frames(s0, n0, frames.take(k), voices),
            decreases self.pending_bytes@.len(),
        {
            proof {
                assert(k + 1 <= all.len() / 960) by (nonlinear_arith)
                    requires
                        960 * k + 960 <= all.len(),
                        k >= 0,
                ;
            }
            let mut frame_bytes = self.pending_bytes.split_off(FRAME_BYTES);
            std::mem::swap(&mut frame_bytes, &mut self.pending_bytes);
            proof {
                assert(frame_bytes@ =~= all.subrange(FRAME_BYTES * k, FRAME_BYTES * k + FRAME_BYTES));
                assert(self.pending_bytes@ =~= all.skip(FRAME_BYTES * (k + 1)));
            }
            let samples = decode_samples(frame_bytes.as_slice());
            assert(samples@ == frames[k]);
            let frame_start = self.frames_seen * 480;
            let voice = match vad_is_voice(&mut self.vad, samples.as_slice()) {
                Ok(v) => v,
                Err(_) => {
                    return Err(invalid_state("invalid audio frame passed to VAD"));
                },
            };
            let ghost prev_views = utterance_views(utterances@);
            let u = self.push_frame(samples, voice, frame_start);
            proof {
                law_frame_step_keeps_state(run_frames(s0, n0, frames.take(k), voices).0, frames[k], voice, frame_start);
            }
            match u {
                Some(x) => {
                    utterances.push(x);
                    assert(utterance_views(utterances@) =~= prev_views.push(utterance_view(x)));
                },
                None => {},
            }
            self.frames_seen = self.frames_seen + 1;
            proof {
                assert(frames.take(k + 1) =~= frames.take(k).push(frames[k]));
                assert(frames.take(k + 1).drop_last() =~= frames.take(k));
                assert(voices.push(voice).drop_last() =~= voices);
                voices = voices.push(voice);
                k = k + 1;
            }
        }
        proof {
            assert(all.len() / 960 == k) by (nonlinear_arith)
                requires
                    960 * k <= all.len(),
                    all.len() < 960 * k + 960,
                    k >= 0,
            ;
            assert(frames.take(k) =~= frames);
        }
        Ok(utterances)
    }
}

} // verus!
