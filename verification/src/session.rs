//! The transcript of a dictation session: the committed text, the block
//! being formatted, and the turn still being spoken. Each event of a session
//! moves it on and says what the screen must show next.
use vstd::prelude::*;
use crate::config::IntelligenceConfig;
use crate::models::{
    copy_app_context, decision_kind_label, opt_app_view, ActiveAppContext, CorrectionScope,
    FormatKind, FormattingTriggerPolicy, GenerationRequest, GenerationStyle, PreferredListStyle,
    RewriteScope, SegmentDecision, SegmentDecisionRequest,
};
use crate::shortcuts::ResolvedActions;
use crate::text::{concat2, is_blank_str, owned, str_eq, trim};
use crate::transcript::{
    append_block_spec, clipboard_spec, lemma_append_block_keeps_prefix, lemma_append_empty_turn,
    lemma_render_segment_keeps_prefix, next_block_raw, next_block_raw_spec,
    normalized_literal_clipboard_text, recent_text_window, recent_window_spec, render_committed,
    render_committed_spec, render_segment_spec, render_transcript, render_transcript_spec,
    render_with_segment_decision, FormattingBlock,
};

verus! {

/// A change of the text on screen, from `previous` to `next`.
pub struct TextEdit {
    pub previous: String,
    pub next: String,
}

/// What committing spoken words as plain text produced: the new screen text,
/// and what goes to the clipboard, if anything.
pub struct LiteralCommit {
    pub next: String,
    pub clipboard: Option<String>,
}

/// `clip` is what the clipboard is given for the literal text `text`.
pub open spec fn clipboard_matches(clip: Option<String>, text: Seq<char>) -> bool {
    match clipboard_spec(text) {
        Some(c) => clip matches Some(s) && s@ == c,
        None => clip is None,
    }
}

/// The transcript of a running session.
pub struct TranscriptState {
    pub committed_prefix: String,
    pub active_block: Option<FormattingBlock>,
    pub active_turn: String,
}

impl TranscriptState {
    /// Everything on screen for this state.
    pub open spec fn rendered(&self) -> Seq<char> {
        render_transcript_spec(self.committed_prefix@, self.active_block, self.active_turn@)
    }

    /// The transcript of a session that has heard nothing yet.
    pub fn new() -> (r: Self)
        ensures
            r.committed_prefix@.len() == 0,
            r.active_block is None,
            r.active_turn@.len() == 0,
            r.rendered().len() == 0,
    {
        let r = TranscriptState {
            committed_prefix: String::new(),
            active_block: None,
            active_turn: String::new(),
        };
        proof {
            lemma_append_empty_turn(r.committed_prefix@);
            assert(r.active_turn@ =~= Seq::<char>::empty());
        }
        r
    }

    /// Everything on screen.
    pub fn render(&self) -> (r: String)
        ensures
            r@ == self.rendered(),
    {
        render_transcript(
            self.committed_prefix.as_str(),
            self.active_block.as_ref(),
            self.active_turn.as_str(),
        )
    }

    /// The committed text and the active block, without the current turn:
    /// where generated text starts.
    pub fn generation_prefix(&self) -> (r: String)
        ensures
            r@ == render_committed_spec(self.committed_prefix@, self.active_block),
    {
        let r = render_transcript(self.committed_prefix.as_str(), self.active_block.as_ref(), "");
        proof {
            reveal_strlit("");
            assert(""@ =~= Seq::<char>::empty());
            lemma_append_empty_turn(render_committed_spec(self.committed_prefix@, self.active_block));
        }
        r
    }

    /// Shows a partial transcript of the current turn.
    pub fn show_partial(&mut self, text: &str) -> (r: TextEdit)
        ensures
            r.previous@ == old(self).rendered(),
            r.next@ == final(self).rendered(),
            final(self).committed_prefix@ == old(self).committed_prefix@,
            final(self).active_block == old(self).active_block,
            final(self).active_turn@ == text@,
    {
        let previous = self.render();
        let next = render_transcript(self.committed_prefix.as_str(), self.active_block.as_ref(), text);
        self.active_turn = owned(text);
        TextEdit { previous, next }
    }

    /// Commits spoken words as plain text after the committed text and the
    /// active block, which is closed; the current turn is dropped.
    pub fn commit_literal(&mut self, literal_text: &str) -> (r: LiteralCommit)
        ensures
            r.next@ == render_segment_spec(
                old(self).committed_prefix@,
                old(self).active_block,
                literal_text@,
                FormatKind::Plain,
            ),
            final(self).committed_prefix@ == r.next@,
            final(self).active_block is None,
            final(self).active_turn@.len() == 0,
            final(self).rendered() == r.next@,
            old(self).committed_prefix@.is_prefix_of(final(self).committed_prefix@),
            clipboard_matches(r.clipboard, literal_text@),
    {
        let next = render_with_segment_decision(
            self.committed_prefix.as_str(),
            self.active_block.as_ref(),
            literal_text,
            &FormatKind::Plain,
        );
        let clipboard = normalized_literal_clipboard_text(literal_text);
        proof {
            lemma_render_segment_keeps_prefix(
                self.committed_prefix@,
                self.active_block,
                literal_text@,
                FormatKind::Plain,
            );
            lemma_append_empty_turn(next@);
        }
        self.committed_prefix = owned(next.as_str());
        self.active_block = None;
        self.active_turn = String::new();
        assert(self.active_turn@ =~= Seq::<char>::empty());
        LiteralCommit { next, clipboard }
    }

    /// At the end of a turn that no final transcript resolved: a blank turn
    /// is dropped; otherwise its words are committed as plain text, and the
    /// edit from the screen with the turn to the committed text is returned.
    pub fn finalize_unresolved_turn(&mut self) -> (r: Option<(TextEdit, Option<String>)>)
        ensures
            trim(old(self).active_turn@).len() == 0 ==> {
                &&& r is None
                &&& final(self).committed_prefix@ == old(self).committed_prefix@
                &&& final(self).active_block == old(self).active_block
                &&& final(self).active_turn@.len() == 0
            },
            trim(old(self).active_turn@).len() > 0 ==> (r matches Some((edit, clip)) && {
                &&& edit.previous@ == old(self).rendered()
                &&& edit.next@ == render_segment_spec(
                    old(self).committed_prefix@,
                    old(self).active_block,
                    old(self).active_turn@,
                    FormatKind::Plain,
                )
                &&& final(self).committed_prefix@ == edit.next@
                &&& final(self).active_block is None
                &&& final(self).active_turn@.len() == 0
                &&& clipboard_matches(clip, old(self).active_turn@)
            }),
            old(self).committed_prefix@.is_prefix_of(final(self).committed_prefix@),
    {
        if is_blank_str(self.active_turn.as_str()) {
            self.active_turn = String::new();
            assert(self.active_turn@ =~= Seq::<char>::empty());
            proof {
                assert(self.committed_prefix@.is_prefix_of(self.committed_prefix@));
            }
            return None;
        }
        let previous = self.render();
        let literal = owned(self.active_turn.as_str());
        let commit = self.commit_literal(literal.as_str());
        Some((TextEdit { previous, next: commit.next }, commit.clipboard))
    }

    /// Applies the interpreter's decision on a finalized segment and returns
    /// the new screen text. A `current_block` decision replaces the active
    /// block with its text (the raw words of the block grow by the segment);
    /// the block stays open unless `closes_block`, else it is committed. A
    /// `segment` decision appends its text after the committed text and the
    /// active block, and commits both. The current turn is dropped.
    pub fn apply_decision(
        &mut self,
        decision: &SegmentDecision,
        finalized_text: &str,
        closes_block: bool,
    ) -> (next: String)
        ensures
            final(self).rendered() == next@,
            final(self).active_turn@.len() == 0,
            old(self).committed_prefix@.is_prefix_of(final(self).committed_prefix@),
            decision.rewrite_scope == RewriteScope::CurrentBlock ==> {
                &&& next@ == append_block_spec(
                    old(self).committed_prefix@,
                    decision.text_to_emit@,
                    decision.format_kind,
                )
                &&& closes_block ==> final(self).committed_prefix@ == next@
                    && final(self).active_block is None
                &&& !closes_block ==> final(self).committed_prefix@ == old(self).committed_prefix@
                &&& !closes_block ==> (final(self).active_block matches Some(b) && b.raw_text@
                    == next_block_raw_spec(old(self).active_block, finalized_text@)
                    && b.rendered_text@ == decision.text_to_emit@ && b.format_kind
                    == decision.format_kind)
            },
            decision.rewrite_scope == RewriteScope::Segment ==> {
                &&& next@ == render_segment_spec(
                    old(self).committed_prefix@,
                    old(self).active_block,
                    decision.text_to_emit@,
                    decision.format_kind,
                )
                &&& final(self).committed_prefix@ == next@
                &&& final(self).active_block is None
            },
    {
        match decision.rewrite_scope {
            RewriteScope::CurrentBlock => {
                let raw = next_block_raw(self.active_block.as_ref(), finalized_text);
                let block = FormattingBlock {
                    raw_text: raw,
                    rendered_text: owned(decision.text_to_emit.as_str()),
                    format_kind: decision.format_kind,
                };
                let next = render_transcript(self.committed_prefix.as_str(), Some(&block), "");
                proof {
                    reveal_strlit("");
                    assert(""@ =~= Seq::<char>::empty());
                    lemma_append_empty_turn(render_committed_spec(self.committed_prefix@, Some(block)));
                    lemma_append_block_keeps_prefix(
                        self.committed_prefix@,
                        decision.text_to_emit@,
                        decision.format_kind,
                    );
                    lemma_append_empty_turn(next@);
                    assert(self.committed_prefix@.is_prefix_of(self.committed_prefix@));
                }
                if closes_block {
                    self.committed_prefix = render_committed(self.committed_prefix.as_str(), Some(&block));
                    self.active_block = None;
                } else {
                    self.active_block = Some(block);
                }
                self.active_turn = String::new();
                assert(self.active_turn@ =~= Seq::<char>::empty());
                next
            },
            RewriteScope::Segment => {
                let next = render_with_segment_decision(
                    self.committed_prefix.as_str(),
                    self.active_block.as_ref(),
                    decision.text_to_emit.as_str(),
                    &decision.format_kind,
                );
                proof {
                    lemma_render_segment_keeps_prefix(
                        self.committed_prefix@,
                        self.active_block,
                        decision.text_to_emit@,
                        decision.format_kind,
                    );
                    lemma_append_empty_turn(next@);
                }
                self.committed_prefix = owned(next.as_str());
                self.active_block = None;
                self.active_turn = String::new();
                assert(self.active_turn@ =~= Seq::<char>::empty());
                next
            },
        }
    }

    /// Commits what generation typed: `rendered` becomes the committed text,
    /// the block is closed and the turn dropped.
    pub fn commit_rendered(&mut self, rendered: &str)
        ensures
            final(self).committed_prefix@ == rendered@,
            final(self).active_block is None,
            final(self).active_turn@.len() == 0,
            final(self).rendered() == rendered@,
    {
        self.committed_prefix = owned(rendered);
        self.active_block = None;
        self.active_turn = String::new();
        proof {
            assert(self.active_turn@ =~= Seq::<char>::empty());
            lemma_append_empty_turn(rendered@);
        }
    }

    /// The request that asks the interpreter about a finalized segment.
    pub fn decision_request(
        &self,
        config: &IntelligenceConfig,
        finalized_text: &str,
        segment_id: String,
        active_app: Option<ActiveAppContext>,
    ) -> (r: SegmentDecisionRequest)
        ensures
            r.segment_id@ == segment_id@,
            r.finalized_text@ == finalized_text@,
            r.literal_text@ == finalized_text@,
            r.recent_text@ == recent_window_spec(self.committed_prefix@, config.max_recent_chars as nat),
            r.active_block_raw@ == match self.active_block {
                Some(b) => b.raw_text@,
                None => Seq::<char>::empty(),
            },
            r.active_block_rendered@ == match self.active_block {
                Some(b) => b.rendered_text@,
                None => Seq::<char>::empty(),
            },
            r.action_scope == config.action_scope,
            r.command_mode == config.command_mode,
            r.text_output_mode == config.text_output_mode,
            r.preferred_list_style == PreferredListStyle::Numbered,
            r.formatting_trigger_policy == FormattingTriggerPolicy::ClearStructureOnly,
            r.correction_scope == CorrectionScope::CurrentBlockOnly,
            r.active_app == active_app,
    {
        let (raw, rendered) = match &self.active_block {
            Some(b) => (owned(b.raw_text.as_str()), owned(b.rendered_text.as_str())),
            None => (String::new(), String::new()),
        };
        assert(self.active_block is None ==> raw@ =~= Seq::<char>::empty() && rendered@
            =~= Seq::<char>::empty());
        SegmentDecisionRequest {
            segment_id,
            finalized_text: owned(finalized_text),
            literal_text: owned(finalized_text),
            recent_text: recent_text_window(self.committed_prefix.as_str(), config.max_recent_chars),
            active_block_raw: raw,
            active_block_rendered: rendered,
            action_scope: config.action_scope,
            command_mode: config.command_mode,
            text_output_mode: config.text_output_mode,
            preferred_list_style: PreferredListStyle::Numbered,
            formatting_trigger_policy: FormattingTriggerPolicy::ClearStructureOnly,
            correction_scope: CorrectionScope::CurrentBlockOnly,
            active_app,
        }
    }
}

/// Whether a decision closes the active block: it does when actions were
/// resolved for it, or when it does not ask to keep the block open.
pub fn closes_block(resolved: &ResolvedActions, decision: &SegmentDecision) -> (r: bool)
    ensures
        r == (resolved.actions@.len() > 0 || !decision.keep_block_open),
{
    resolved.actions.len() > 0 || !decision.keep_block_open
}

/// The status line after a decision was applied.
pub fn decision_state_label(decision: &SegmentDecision) -> (r: String)
    ensures
        decision.rewrite_scope == RewriteScope::CurrentBlock ==> r@ == "Formatting current block"@,
        decision.rewrite_scope == RewriteScope::Segment ==> r@ == "Decision: "@
            + decision_kind_label(decision.kind),
{
    match decision.rewrite_scope {
        RewriteScope::CurrentBlock => owned("Formatting current block"),
        RewriteScope::Segment => concat2("Decision: ", decision.kind.as_label()),
    }
}

/// The writing request for a generation decision, or `None` (the words are
/// then typed literally) when generation is disabled or the decision gives
/// no prompt, or only a blank one. The style defaults to generic.
pub fn generation_request(
    generation_enabled: bool,
    decision: &SegmentDecision,
    spoken_text: &str,
    request: &SegmentDecisionRequest,
) -> (r: Option<GenerationRequest>)
    ensures
        (!generation_enabled || decision.generation_prompt is None || (decision.generation_prompt
            matches Some(p) && trim(p@).len() == 0)) ==> r is None,
        generation_enabled ==> (decision.generation_prompt matches Some(p) ==> (trim(p@).len() > 0
            ==> (r matches Some(g) && {
            &&& g.request_text@ == spoken_text@
            &&& g.generation_prompt@ == p@
            &&& g.generation_style == match decision.generation_style {
                Some(s) => s,
                None => GenerationStyle::Generic,
            }
            &&& g.recent_text@ == request.recent_text@
            &&& opt_app_view(g.active_app) == opt_app_view(request.active_app)
        }))),
{
    if !generation_enabled {
        return None;
    }
    let prompt = match &decision.generation_prompt {
        Some(p) => {
            if is_blank_str(p.as_str()) {
                return None;
            }
            owned(p.as_str())
        },
        None => return None,
    };
    let style = match decision.generation_style {
        Some(s) => s,
        None => GenerationStyle::Generic,
    };
    Some(GenerationRequest {
        request_text: owned(spoken_text),
        generation_prompt: prompt,
        generation_style: style,
        recent_text: owned(request.recent_text.as_str()),
        active_app: copy_app_context(&request.active_app),
    })
}

// ---------------------------------------------------------------------------
// Final transcripts already handled
// ---------------------------------------------------------------------------

/// The keys of the final transcripts already handled in a session, so that
/// a final delivered twice is handled once.
///
/// The keys are strings, kept in a `Vec` that is searched in order and
/// never holds one twice. vstd's specification of `HashSet` gives
/// membership facts only for key types it takes to obey its hashing model
/// (integers, `bool`, and boxes of them); for `String` keys that would have
/// to be assumed, and `insert`'s contract would rest on it.
pub struct FinalDeduper {
    seen: Vec<String>,
}

impl FinalDeduper {
    /// The keys seen so far.
    pub closed spec fn keys(&self) -> Seq<Seq<char>> {
        self.seen@.map_values(|s: String| s@)
    }

    /// No key has been seen.
    pub fn new() -> (r: Self)
        ensures
            r.keys().len() == 0,
    {
        let r = FinalDeduper { seen: Vec::new() };
        assert(r.keys() =~= Seq::<Seq<char>>::empty());
        r
    }

    /// Records `key`; true when it had not been seen before.
    pub fn insert(&mut self, key: &str) -> (fresh: bool)
        ensures
            fresh == !old(self).keys().contains(key@),
            final(self).keys().contains(key@),
            forall|k: Seq<char>| old(self).keys().contains(k) ==> final(self).keys().contains(k),
            forall|k: Seq<char>| #[trigger] final(self).keys().contains(k) ==> k == key@ || old(
                self,
            ).keys().contains(k),
    {
        let n = self.seen.len();
        for i in 0..n
            invariant
                n == self.seen@.len(),
                forall|j: int| 0 <= j < i ==> self.keys()[j] != key@,
        {
            if str_eq(self.seen[i].as_str(), key) {
                assert(self.keys()[i as int] == key@);
                return false;
            }
        }
        proof {
            if self.keys().contains(key@) {
                let j = choose|j: int| 0 <= j < self.keys().len() && self.keys()[j] == key@;
                assert(self.keys()[j] != key@);
            }
        }
        let ghost before = self.keys();
        self.seen.push(owned(key));
        assert(self.keys() =~= before.push(key@));
        proof {
            assert(self.keys()[before.len() as int] == key@);
            assert forall|k: Seq<char>| before.contains(k) implies self.keys().contains(k) by {
                let j = choose|j: int| 0 <= j < before.len() && before[j] == k;
                assert(self.keys()[j] == k);
            }
        }
        true
    }
}

// ---------------------------------------------------------------------------
// Audio for the cloud backend
// ---------------------------------------------------------------------------

/// The chunks of a list, one after the other.
pub open spec fn concat_chunks(chunks: Seq<Seq<u8>>) -> Seq<u8>
    decreases chunks.len(),
{
    if chunks.len() == 0 {
        Seq::empty()
    } else {
        concat_chunks(chunks.drop_last()) + chunks.last()
    }
}

/// The bytes of a list of chunks.
pub open spec fn chunk_views(chunks: Seq<Vec<u8>>) -> Seq<Seq<u8>> {
    chunks.map_values(|c: Vec<u8>| c@)
}

/// The size of the audio chunks sent to the cloud backend.
pub const CLOUD_FRAME_BYTES: usize = 1280;

/// Audio received from the microphone and not yet sent to the cloud backend,
/// which takes it in chunks of exactly `CLOUD_FRAME_BYTES` bytes.
pub struct AudioChunker {
    pending: Vec<u8>,
}

impl AudioChunker {
    /// The bytes not yet sent.
    pub closed spec fn pending(&self) -> Seq<u8> {
        self.pending@
    }

    /// Nothing is pending.
    pub fn new() -> (r: Self)
        ensures
            r.pending().len() == 0,
    {
        AudioChunker { pending: Vec::new() }
    }

    /// Takes in `frame` and hands out every full chunk, in order; fewer than
    /// `CLOUD_FRAME_BYTES` bytes stay pending.
    pub fn push(&mut self, frame: &[u8]) -> (chunks: Vec<Vec<u8>>)
        ensures
            final(self).pending().len() < CLOUD_FRAME_BYTES,
            forall|i: int| 0 <= i < chunks@.len() ==> #[trigger] chunks@[i]@.len() == CLOUD_FRAME_BYTES,
            concat_chunks(chunk_views(chunks@))
                + final(self).pending() == old(self).pending() + frame@,
    {
        let ghost all = self.pending@ + frame@;
        let mut buf = Vec::new();
        let n = self.pending.len();
        for i in 0..n
            invariant
                n == self.pending@.len(),
                buf@ == self.pending@.take(i as int),
        {
            buf.push(self.pending[i]);
            assert(self.pending@.take(i + 1) =~= self.pending@.take(i as int).push(self.pending@[i as int]));
        }
        let m = frame.len();
        for i in 0..m
            invariant
                m == frame@.len(),
                buf@ == self.pending@.take(n as int) + frame@.take(i as int),
        {
            buf.push(frame[i]);
            assert(frame@.take(i + 1) =~= frame@.take(i as int).push(frame@[i as int]));
        }
        assert(self.pending@.take(n as int) =~= self.pending@);
        assert(frame@.take(m as int) =~= frame@);
        assert(buf@ =~= all);
        let total = buf.len();
        let mut chunks: Vec<Vec<u8>> = Vec::new();
        let mut start: usize = 0;
        while total - start >= CLOUD_FRAME_BYTES
            invariant
                total == buf@.len(),
                buf@ == all,
                start <= total,
                forall|i: int| 0 <= i < chunks@.len() ==> #[trigger] chunks@[i]@.len() == CLOUD_FRAME_BYTES,
                concat_chunks(chunk_views(chunks@))
                    == all.take(start as int),
            decreases total - start,
        {
            let mut chunk: Vec<u8> = Vec::new();
            for k in 0..CLOUD_FRAME_BYTES
                invariant
                    start + CLOUD_FRAME_BYTES <= total,
                    total == buf@.len(),
                    chunk@ == buf@.subrange(start as int, start + k),
            {
                chunk.push(buf[start + k]);
                assert(buf@.subrange(start as int, start + k + 1) =~= buf@.subrange(start as int, start + k).push(buf@[start + k]));
            }
            let ghost before = chunk_views(chunks@);
            chunks.push(chunk);
            proof {
                let after = chunk_views(chunks@);
                assert(after =~= before.push(chunk@));
                assert(before.push(chunk@).drop_last() =~= before);
                assert(concat_chunks(after) == concat_chunks(before) + chunk@);
                assert(all.take(start + CLOUD_FRAME_BYTES) =~= all.take(start as int) + buf@.subrange(
                    start as int,
                    start + CLOUD_FRAME_BYTES,
                ));
            }
            start = start + CLOUD_FRAME_BYTES;
        }
        let mut rest: Vec<u8> = Vec::new();
        let mut j: usize = start;
        while j < total
            invariant
                start <= j <= total,
                total == buf@.len(),
                rest@ == buf@.subrange(start as int, j as int),
            decreases total - j,
        {
            rest.push(buf[j]);
            assert(buf@.subrange(start as int, j + 1) =~= buf@.subrange(start as int, j as int).push(buf@[j as int]));
            j = j + 1;
        }
        self.pending = rest;
        assert(all.take(start as int) + buf@.subrange(start as int, total as int) =~= all);
        chunks
    }

    /// Hands out what is pending, which leaves nothing pending.
    pub fn take_rest(&mut self) -> (r: Vec<u8>)
        ensures
            r@ == old(self).pending(),
            final(self).pending().len() == 0,
    {
        let mut other: Vec<u8> = Vec::new();
        std::mem::swap(&mut other, &mut self.pending);
        other
    }
}

} // verus!
