//! What a finalized segment does to the status line, and a run of
//! autonomous writing: the generated text streams onto the screen after the
//! committed text, and the run ends complete, failed or stopped.
use vstd::prelude::*;
use crate::models::{opt_app_view, opt_view, ActiveAppContext, DecisionKind, SegmentDecision};
use crate::session::{clipboard_matches, decision_state_label, TextEdit, TranscriptState};
use crate::shortcuts::ResolvedActions;
use crate::status::{empty_update, StatusUpdate, UpdateView};
use crate::text::{concat2, owned};
use crate::transcript::{render_generated_output, render_generated_spec, render_segment_spec};
use crate::models::FormatKind;

verus! {

// ---------------------------------------------------------------------------
// The status while a segment is resolved
// ---------------------------------------------------------------------------

/// The update published when the interpreter starts on a segment.
pub fn resolving_update() -> (r: StatusUpdate)
    ensures
        r@ == (UpdateView {
            intelligence_state: Some(Some("Resolving segment"@)),
            last_llm_error: Some(None),
            ..empty_update()
        }),
{
    let mut u = StatusUpdate::none();
    u.intelligence_state = Some(Some(owned("Resolving segment")));
    u.last_llm_error = Some(None);
    u
}

/// The update published with the focus context of a segment's request.
pub fn focus_update(active_app: &Option<ActiveAppContext>) -> (r: StatusUpdate)
    ensures
        r@ == (UpdateView {
            active_app: Some(opt_app_view(*active_app)),
            last_resolution: Some(None),
            ..empty_update()
        }),
{
    let mut u = StatusUpdate::none();
    u.active_app = Some(crate::models::copy_app_context(active_app));
    u.last_resolution = Some(None);
    u
}

/// The update published when the interpreter failed with `error` and the
/// words are typed literally.
pub open spec fn interpreter_failed_view(error: Seq<char>) -> UpdateView {
    UpdateView {
        last_llm_error: Some(Some(error)),
        last_decision_kind: Some(None),
        intelligence_state: Some(Some("Literal fallback"@)),
        ..empty_update()
    }
}

/// The update published when the decision's actions could not be resolved
/// and the words are typed literally.
pub open spec fn resolution_failed_view(error: Seq<char>) -> UpdateView {
    UpdateView { last_resolution: Some(None), ..interpreter_failed_view(error) }
}

/// The update published when the interpreter failed with `error` and the
/// words are typed literally.
pub fn interpreter_failed_update(error: &str) -> (r: StatusUpdate)
    ensures
        r@ == interpreter_failed_view(error@),
{
    let mut u = StatusUpdate::none();
    u.last_llm_error = Some(Some(owned(error)));
    u.last_decision_kind = Some(None);
    u.intelligence_state = Some(Some(owned("Literal fallback")));
    u
}

/// The update published when the decision's actions could not be resolved
/// (`error`) and the words are typed literally.
pub fn resolution_failed_update(error: &str) -> (r: StatusUpdate)
    ensures
        r@ == resolution_failed_view(error@),
{
    let mut u = interpreter_failed_update(error);
    u.last_resolution = Some(None);
    u
}

/// The update published when typing the decision's actions failed.
pub fn actions_failed_update(error: &str) -> (r: StatusUpdate)
    ensures
        r@ == (UpdateView {
            last_llm_error: Some(Some("Action execution failed: "@ + error@)),
            intelligence_state: Some(Some("Action execution failed"@)),
            last_resolution: Some(None),
            ..empty_update()
        }),
{
    let mut u = StatusUpdate::none();
    u.last_llm_error = Some(Some(concat2("Action execution failed: ", error)));
    u.intelligence_state = Some(Some(owned("Action execution failed")));
    u.last_resolution = Some(None);
    u
}

/// The update published when a decision was carried out: its kind, the
/// line that describes it, and the summary of its actions.
pub fn decision_applied_update(decision: &SegmentDecision, resolved: &ResolvedActions) -> (r: StatusUpdate)
    ensures
        r@ == (UpdateView {
            last_llm_error: Some(None),
            last_decision_kind: Some(Some(decision.kind)),
            intelligence_state: Some(Some(
                if decision.rewrite_scope == crate::models::RewriteScope::CurrentBlock {
                    "Formatting current block"@
                } else {
                    "Decision: "@ + crate::models::decision_kind_label(decision.kind)
                },
            )),
            last_resolution: Some(opt_view(resolved.description)),
            ..empty_update()
        }),
{
    let mut u = StatusUpdate::none();
    u.last_llm_error = Some(None);
    u.last_decision_kind = Some(Some(decision.kind));
    u.intelligence_state = Some(Some(decision_state_label(decision)));
    u.last_resolution = Some(crate::models::copy_opt_string(&resolved.description));
    u
}

// ---------------------------------------------------------------------------
// A run of autonomous writing
// ---------------------------------------------------------------------------

/// The update published when autonomous writing starts for a request made
/// in `active_app`.
pub fn writing_started_update(active_app: &Option<ActiveAppContext>) -> (r: StatusUpdate)
    ensures
        r@ == (UpdateView {
            last_decision_kind: Some(Some(DecisionKind::Generation)),
            last_llm_error: Some(None),
            last_generation_error: Some(None),
            intelligence_state: Some(Some("Generating reply"@)),
            generation_active: Some(true),
            generation_state: Some(Some("Generating reply"@)),
            active_app: Some(opt_app_view(*active_app)),
            last_resolution: Some(Some("Autonomous writing"@)),
            ..empty_update()
        }),
{
    let mut u = StatusUpdate::none();
    u.last_decision_kind = Some(Some(DecisionKind::Generation));
    u.last_llm_error = Some(None);
    u.last_generation_error = Some(None);
    u.intelligence_state = Some(Some(owned("Generating reply")));
    u.generation_active = Some(true);
    u.generation_state = Some(Some(owned("Generating reply")));
    u.active_app = Some(crate::models::copy_app_context(active_app));
    u.last_resolution = Some(Some(owned("Autonomous writing")));
    u
}

/// A run of autonomous writing: the text after which the generated text
/// goes, what is on screen, and what was generated so far.
pub struct WritingRun {
    pub prefix: String,
    pub rendered: String,
    pub generated: String,
}

impl WritingRun {
    /// What is on screen is the prefix followed by the generated text.
    pub open spec fn wf(&self) -> bool {
        self.rendered@ == render_generated_spec(self.prefix@, self.generated@)
    }

    /// A run that starts after `prefix`, with nothing generated yet.
    pub fn start(prefix: &str) -> (r: Self)
        ensures
            r.wf(),
            r.prefix@ == prefix@,
            r.generated@.len() == 0,
            r.rendered@ == prefix@,
    {
        let r = WritingRun { prefix: owned(prefix), rendered: owned(prefix), generated: String::new() };
        assert(r.generated@ =~= Seq::<char>::empty());
        proof {
            if r.prefix@.len() == 0 {
                assert(r.generated@ =~= r.prefix@);
            }
        }
        r
    }

    /// Adds a piece of generated text and returns the edit that shows it;
    /// an empty piece changes nothing.
    pub fn push_delta(&mut self, delta: &str) -> (r: Option<TextEdit>)
        requires
            old(self).wf(),
        ensures
            final(self).wf(),
            final(self).prefix@ == old(self).prefix@,
            delta@.len() == 0 ==> r is None && final(self).generated@ == old(self).generated@
                && final(self).rendered@ == old(self).rendered@,
            delta@.len() > 0 ==> (r matches Some(edit) && edit.previous@ == old(self).rendered@
                && edit.next@ == final(self).rendered@ && final(self).generated@ == old(self).generated@
                + delta@),
    {
        if delta.is_empty() {
            proof {
                reveal_strlit("");
            }
            return None;
        }
        let generated = concat2(self.generated.as_str(), delta);
        let next = render_generated_output(self.prefix.as_str(), generated.as_str());
        let previous = owned(self.rendered.as_str());
        self.generated = generated;
        self.rendered = owned(next.as_str());
        Some(TextEdit { previous, next })
    }
}

/// How a run of autonomous writing ended: the stream finished, failed with
/// a message, or the session was stopped.
pub enum WritingEnd {
    Complete,
    Failed(String),
    Stopped,
}

/// What the end of a run does: the edit that types the spoken words
/// instead, when nothing was generated (with what goes to the clipboard),
/// and the status update.
pub struct WritingOutcome {
    pub fallback: Option<(TextEdit, Option<String>)>,
    pub update: StatusUpdate,
}

/// The status update at the end of a run.
pub open spec fn writing_end_update(end: WritingEnd, generated_nothing: bool) -> UpdateView {
    match end {
        WritingEnd::Complete => UpdateView {
            generation_active: Some(false),
            generation_state: Some(Some("Generation complete"@)),
            last_generation_error: Some(None),
            intelligence_state: Some(Some("Generation complete"@)),
            ..empty_update()
        },
        WritingEnd::Failed(e) => {
            let line = if generated_nothing {
                "Literal fallback"@
            } else {
                "Generation failed"@
            };
            UpdateView {
                generation_active: Some(false),
                generation_state: Some(Some(line)),
                last_generation_error: Some(Some(e@)),
                intelligence_state: Some(Some(line)),
                ..empty_update()
            }
        },
        WritingEnd::Stopped => UpdateView {
            generation_active: Some(false),
            generation_state: Some(Some("Generation stopped"@)),
            intelligence_state: Some(Some("Generation stopped"@)),
            ..empty_update()
        },
    }
}

/// Ends a run. When it failed or was stopped before anything was
/// generated, the spoken words `spoken_text` are typed literally in place
/// of the prefix; otherwise what is on screen is committed. The transcript
/// is closed either way.
pub fn finish_writing(run: &WritingRun, transcript: &mut TranscriptState, end: WritingEnd, spoken_text: &str) -> (r: WritingOutcome)
    requires
        run.wf(),
    ensures
        r.update@ == writing_end_update(end, run.generated@.len() == 0),
        final(transcript).active_block is None,
        final(transcript).active_turn@.len() == 0,
        (run.generated@.len() == 0 && !(end is Complete)) ==> (r.fallback matches Some((edit, clip)) && {
            &&& edit.previous@ == run.rendered@
            &&& edit.next@ == render_segment_spec(
                old(transcript).committed_prefix@,
                old(transcript).active_block,
                spoken_text@,
                FormatKind::Plain,
            )
            &&& final(transcript).committed_prefix@ == edit.next@
            &&& clipboard_matches(clip, spoken_text@)
        }),
        (run.generated@.len() > 0 || end is Complete) ==> (r.fallback is None
            && final(transcript).committed_prefix@ == run.rendered@),
{
    let nothing = run.generated.as_str().is_empty();
    proof {
        reveal_strlit("");
    }
    let mut u = StatusUpdate::none();
    u.generation_active = Some(false);
    let literal = match &end {
        WritingEnd::Complete => false,
        _ => nothing,
    };
    match end {
        WritingEnd::Complete => {
            u.generation_state = Some(Some(owned("Generation complete")));
            u.last_generation_error = Some(None);
            u.intelligence_state = Some(Some(owned("Generation complete")));
        },
        WritingEnd::Failed(e) => {
            let line = if nothing {
                "Literal fallback"
            } else {
                "Generation failed"
            };
            u.generation_state = Some(Some(owned(line)));
            u.last_generation_error = Some(Some(e));
            u.intelligence_state = Some(Some(owned(line)));
        },
        WritingEnd::Stopped => {
            u.generation_state = Some(Some(owned("Generation stopped")));
            u.intelligence_state = Some(Some(owned("Generation stopped")));
        },
    }
    if literal {
        let previous = owned(run.rendered.as_str());
        let commit = transcript.commit_literal(spoken_text);
        let next = commit.next;
        WritingOutcome { fallback: Some((TextEdit { previous, next }, commit.clipboard)), update: u }
    } else {
        transcript.commit_rendered(run.rendered.as_str());
        WritingOutcome { fallback: None, update: u }
    }
}

} // verus!
