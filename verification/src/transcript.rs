//! How the text typed so far is rendered: committed text, the formatting
//! block being built, and the turn still being spoken.
use vstd::prelude::*;

use crate::models::{DecisionKind, FormatKind, SegmentDecision};
use crate::text::{
    append_chars, chars_of, is_whitespace, is_ws, lemma_trim_idempotent, owned, string_of, trim,
    trim_chars,
};

verus! {

/// The block of formatted text (a list, a note) that the user is still
/// building: what was said, and how it is rendered.
#[derive(Clone, Debug, PartialEq, Eq)]
pub struct FormattingBlock {
    pub raw_text: String,
    pub rendered_text: String,
    pub format_kind: FormatKind,
}

/// Characters that attach to the word before them.
pub open spec fn is_closing_punct(c: char) -> bool {
    c == '.' || c == ',' || c == '!' || c == '?' || c == ':' || c == ';' || c == ')' || c == ']'
        || c == '}'
}

/// Characters that the next word attaches to.
pub open spec fn is_opening_punct(c: char) -> bool {
    c == '(' || c == '[' || c == '{' || c == '/' || c == '-' || c == '\n'
}

/// Whether a space goes between `left` and `right` when they are joined.
pub open spec fn needs_sep(left: Seq<char>, right: Seq<char>) -> bool {
    &&& left.len() > 0
    &&& right.len() > 0
    &&& !is_ws(left.last())
    &&& !is_ws(right[0])
    &&& !is_closing_punct(right[0])
    &&& !is_opening_punct(left.last())
}

/// `committed` followed by the trimmed `turn`, with a space between them
/// where words would otherwise run together.
pub open spec fn append_turn_spec(committed: Seq<char>, turn: Seq<char>) -> Seq<char> {
    let t = trim(turn);
    if t.len() == 0 {
        committed
    } else if committed.len() == 0 {
        t
    } else if needs_sep(committed, t) {
        committed + seq![' '] + t
    } else {
        committed + t
    }
}

/// `committed` followed by the trimmed block: on a new line for lists and
/// multi-line blocks, else like a spoken turn.
pub open spec fn append_block_spec(committed: Seq<char>, block: Seq<char>, kind: FormatKind) -> Seq<
    char,
> {
    let b = trim(block);
    if b.len() == 0 {
        committed
    } else if committed.len() == 0 {
        b
    } else if kind == FormatKind::NumberedList || kind == FormatKind::BulletList || b.contains(
        '\n',
    ) {
        if committed.last() == '\n' {
            committed + b
        } else {
            committed + seq!['\n'] + b
        }
    } else {
        append_turn_spec(committed, b)
    }
}

/// The committed text with the active block, if any, appended.
pub open spec fn render_committed_spec(prefix: Seq<char>, block: Option<FormattingBlock>) -> Seq<
    char,
> {
    match block {
        Some(b) => append_block_spec(prefix, b.rendered_text@, b.format_kind),
        None => prefix,
    }
}

/// Everything on screen: committed text, active block, and current turn.
pub open spec fn render_transcript_spec(
    prefix: Seq<char>,
    block: Option<FormattingBlock>,
    turn: Seq<char>,
) -> Seq<char> {
    append_turn_spec(render_committed_spec(prefix, block), turn)
}

/// Committed text and active block with a decided segment appended.
pub open spec fn render_segment_spec(
    prefix: Seq<char>,
    block: Option<FormattingBlock>,
    segment: Seq<char>,
    kind: FormatKind,
) -> Seq<char> {
    append_block_spec(render_committed_spec(prefix, block), segment, kind)
}

/// Committed text followed by generated text, which is kept as it came.
pub open spec fn render_generated_spec(prefix: Seq<char>, generated: Seq<char>) -> Seq<char> {
    if prefix.len() == 0 {
        generated
    } else if generated.len() == 0 {
        prefix
    } else if generated[0] == '\n' {
        prefix + generated
    } else if needs_sep(prefix, generated) {
        prefix + seq![' '] + generated
    } else {
        prefix + generated
    }
}

/// Whether a space goes between `left` and `right`.
pub fn needs_separator(left: &[char], right: &[char]) -> (r: bool)
    ensures
        r == needs_sep(left@, right@),
{
    if left.len() == 0 || right.len() == 0 {
        return false;
    }
    let l = left[left.len() - 1];
    let c = right[0];
    !is_whitespace(l) && !is_whitespace(c) && !(c == '.' || c == ',' || c == '!' || c == '?' || c
        == ':' || c == ';' || c == ')' || c == ']' || c == '}') && !(l == '(' || l == '[' || l
        == '{' || l == '/' || l == '-' || l == '\n')
}

/// `committed` followed by the trimmed `turn`, on characters.
fn append_turn_chars(committed: &[char], turn: &[char]) -> (r: Vec<char>)
    ensures
        r@ == append_turn_spec(committed@, turn@),
{
    let t = trim_chars(turn);
    let mut out: Vec<char> = Vec::new();
    append_chars(&mut out, committed);
    if t.len() == 0 {
        return out;
    }
    if committed.len() == 0 {
        return t;
    }
    if needs_separator(committed, &t) {
        out.push(' ');
    }
    append_chars(&mut out, &t);
    proof {
        if needs_sep(committed@, t@) {
            assert(out@ =~= committed@ + seq![' '] + t@);
        }
    }
    out
}

/// `committed` followed by the trimmed block, on characters.
fn append_block_chars(committed: &[char], block: &[char], kind: FormatKind) -> (r: Vec<char>)
    ensures
        r@ == append_block_spec(committed@, block@, kind),
{
    let b = trim_chars(block);
    if b.len() == 0 {
        let mut out: Vec<char> = Vec::new();
        append_chars(&mut out, committed);
        return out;
    }
    if committed.len() == 0 {
        return b;
    }
    let is_list = match kind {
        FormatKind::NumberedList | FormatKind::BulletList => true,
        FormatKind::Plain => false,
    };
    if is_list || crate::text::contains_char(&b, '\n') {
        let mut out: Vec<char> = Vec::new();
        append_chars(&mut out, committed);
        if committed[committed.len() - 1] != '\n' {
            out.push('\n');
        }
        append_chars(&mut out, &b);
        proof {
            if committed@.last() != '\n' {
                assert(out@ =~= committed@ + seq!['\n'] + b@);
            }
        }
        out
    } else {
        proof {
            lemma_trim_idempotent(block@);
        }
        append_turn_chars(committed, &b)
    }
}

/// `committed` followed by the trimmed `turn`.
pub fn append_turn(committed: &str, turn: &str) -> (r: String)
    ensures
        r@ == append_turn_spec(committed@, turn@),
{
    let c = chars_of(committed);
    let t = chars_of(turn);
    let r = append_turn_chars(&c, &t);
    string_of(&r)
}

/// `committed` followed by the trimmed block.
pub fn append_block(committed: &str, block_text: &str, format_kind: &FormatKind) -> (r: String)
    ensures
        r@ == append_block_spec(committed@, block_text@, *format_kind),
{
    let c = chars_of(committed);
    let b = chars_of(block_text);
    let r = append_block_chars(&c, &b, *format_kind);
    string_of(&r)
}

/// The committed text with the active block, if any, appended.
pub fn render_committed(committed_prefix: &str, active_block: Option<&FormattingBlock>) -> (r:
    String)
    ensures
        r@ == render_committed_spec(
            committed_prefix@,
            match active_block {
                Some(b) => Some(*b),
                None => None,
            },
        ),
{
    match active_block {
        Some(block) => append_block(
            committed_prefix,
            block.rendered_text.as_str(),
            &block.format_kind,
        ),
        None => owned(committed_prefix),
    }
}

/// Everything on screen: committed text, active block, and current turn.
pub fn render_transcript(
    committed_prefix: &str,
    active_block: Option<&FormattingBlock>,
    active_turn: &str,
) -> (r: String)
    ensures
        r@ == render_transcript_spec(
            committed_prefix@,
            match active_block {
                Some(b) => Some(*b),
                None => None,
            },
            active_turn@,
        ),
{
    let committed = render_committed(committed_prefix, active_block);
    append_turn(committed.as_str(), active_turn)
}

/// Committed text and active block with a decided segment appended.
pub fn render_with_segment_decision(
    committed_prefix: &str,
    active_block: Option<&FormattingBlock>,
    segment_text: &str,
    format_kind: &FormatKind,
) -> (r: String)
    ensures
        r@ == render_segment_spec(
            committed_prefix@,
            match active_block {
                Some(b) => Some(*b),
                None => None,
            },
            segment_text@,
            *format_kind,
        ),
{
    let base = render_committed(committed_prefix, active_block);
    append_block(base.as_str(), segment_text, format_kind)
}

/// Committed text and active block with the spoken words appended as plain
/// text.
pub fn render_literal_fallback(
    committed_prefix: &str,
    active_block: Option<&FormattingBlock>,
    literal_text: &str,
) -> (r: String)
    ensures
        r@ == render_segment_spec(
            committed_prefix@,
            match active_block {
                Some(b) => Some(*b),
                None => None,
            },
            literal_text@,
            FormatKind::Plain,
        ),
{
    render_with_segment_decision(committed_prefix, active_block, literal_text, &FormatKind::Plain)
}

/// Committed text followed by generated text, which is kept as it came.
pub fn render_generated_output(committed_prefix: &str, generated_text: &str) -> (r: String)
    ensures
        r@ == render_generated_spec(committed_prefix@, generated_text@),
{
    let p = chars_of(committed_prefix);
    let g = chars_of(generated_text);
    if p.len() == 0 {
        return owned(generated_text);
    }
    if g.len() == 0 {
        return owned(committed_prefix);
    }
    let mut out: Vec<char> = Vec::new();
    append_chars(&mut out, &p);
    if g[0] != '\n' && needs_separator(&p, &g) {
        out.push(' ');
    }
    append_chars(&mut out, &g);
    proof {
        if g@[0] != '\n' && needs_sep(p@, g@) {
            assert(out@ =~= p@ + seq![' '] + g@);
        }
    }
    string_of(&out)
}

/// What the active block was built from, with a new finalized segment.
pub open spec fn next_block_raw_spec(block: Option<FormattingBlock>, finalized: Seq<char>) -> Seq<
    char,
> {
    match block {
        Some(b) => append_turn_spec(b.raw_text@, finalized),
        None => trim(finalized),
    }
}

/// What the active block was built from, with a new finalized segment.
pub fn next_block_raw(active_block: Option<&FormattingBlock>, finalized_text: &str) -> (r: String)
    ensures
        r@ == next_block_raw_spec(
            match active_block {
                Some(b) => Some(*b),
                None => None,
            },
            finalized_text@,
        ),
{
    match active_block {
        Some(block) => append_turn(block.raw_text.as_str(), finalized_text),
        None => crate::text::trim_str(finalized_text),
    }
}

/// The last `max_chars` characters of `text` (all of it when shorter).
pub open spec fn recent_window_spec(text: Seq<char>, max_chars: nat) -> Seq<char> {
    if max_chars >= text.len() {
        text
    } else {
        text.skip(text.len() - max_chars)
    }
}

/// The recent context handed to the interpreter.
pub fn recent_text_window(text: &str, max_chars: usize) -> (r: String)
    ensures
        r@ == recent_window_spec(text@, max_chars as nat),
{
    if max_chars == 0 {
        let r = String::new();
        assert(r@ =~= recent_window_spec(text@, 0));
        return r;
    }
    let cs = chars_of(text);
    let start = if cs.len() > max_chars {
        cs.len() - max_chars
    } else {
        0
    };
    let tail = crate::text::slice_to_vec(&cs, start, cs.len());
    assert(cs@.skip(0) =~= cs@);
    assert(tail@ =~= recent_window_spec(text@, max_chars as nat));
    string_of(&tail)
}

/// What is copied to the clipboard for spoken text: the text trimmed, when
/// anything is left.
pub open spec fn clipboard_spec(text: Seq<char>) -> Option<Seq<char>> {
    if trim(text).len() > 0 {
        Some(trim(text))
    } else {
        None
    }
}

/// What is copied to the clipboard for spoken text.
pub fn normalized_literal_clipboard_text(text: &str) -> (r: Option<String>)
    ensures
        match clipboard_spec(text@) {
            Some(c) => r matches Some(s) && s@ == c,
            None => r is None,
        },
{
    let rendered = append_block("", text, &FormatKind::Plain);
    proof {
        reveal_strlit("");
    }
    if !rendered.as_str().is_empty() {
        Some(rendered)
    } else {
        None
    }
}

/// What a decision copies to the clipboard: only pure literal text.
pub fn clipboard_text_for_decision(decision: &SegmentDecision) -> (r: Option<String>)
    ensures
        decision.kind == DecisionKind::Literal ==> match clipboard_spec(decision.text_to_emit@) {
            Some(c) => r matches Some(s) && s@ == c,
            None => r is None,
        },
        decision.kind != DecisionKind::Literal ==> r is None,
{
    if decision.kind == DecisionKind::Literal {
        normalized_literal_clipboard_text(decision.text_to_emit.as_str())
    } else {
        None
    }
}

// ---------------------------------------------------------------------------
// Appending never rewrites what came before
// ---------------------------------------------------------------------------

/// Appending a turn keeps the committed text as a prefix.
pub proof fn lemma_append_turn_keeps_prefix(committed: Seq<char>, turn: Seq<char>)
    ensures
        committed.is_prefix_of(append_turn_spec(committed, turn)),
{
    let t = trim(turn);
    if t.len() == 0 {
        assert(committed.is_prefix_of(committed));
    } else if committed.len() == 0 {
    } else if needs_sep(committed, t) {
        assert((committed + seq![' '] + t).subrange(0, committed.len() as int) =~= committed);
    } else {
        assert((committed + t).subrange(0, committed.len() as int) =~= committed);
    }
}

/// Appending a block keeps the committed text as a prefix.
pub proof fn lemma_append_block_keeps_prefix(committed: Seq<char>, block: Seq<char>, kind: FormatKind)
    ensures
        committed.is_prefix_of(append_block_spec(committed, block, kind)),
{
    let b = trim(block);
    if b.len() == 0 {
        assert(committed.is_prefix_of(committed));
    } else if committed.len() == 0 {
    } else if kind == FormatKind::NumberedList || kind == FormatKind::BulletList || b.contains('\n') {
        if committed.last() == '\n' {
            assert((committed + b).subrange(0, committed.len() as int) =~= committed);
        } else {
            assert((committed + seq!['\n'] + b).subrange(0, committed.len() as int) =~= committed);
        }
    } else {
        lemma_append_turn_keeps_prefix(committed, b);
    }
}

/// Rendering the active block after the committed text keeps it as a prefix.
pub proof fn lemma_render_committed_keeps_prefix(prefix: Seq<char>, block: Option<FormattingBlock>)
    ensures
        prefix.is_prefix_of(render_committed_spec(prefix, block)),
{
    match block {
        Some(b) => lemma_append_block_keeps_prefix(prefix, b.rendered_text@, b.format_kind),
        None => assert(prefix.is_prefix_of(prefix)),
    }
}

/// A decided segment is rendered after the committed text.
pub proof fn lemma_render_segment_keeps_prefix(
    prefix: Seq<char>,
    block: Option<FormattingBlock>,
    segment: Seq<char>,
    kind: FormatKind,
)
    ensures
        prefix.is_prefix_of(render_segment_spec(prefix, block, segment, kind)),
{
    let base = render_committed_spec(prefix, block);
    lemma_render_committed_keeps_prefix(prefix, block);
    lemma_append_block_keeps_prefix(base, segment, kind);
    assert(render_segment_spec(prefix, block, segment, kind).subrange(0, prefix.len() as int)
        =~= base.subrange(0, prefix.len() as int));
}

/// Appending an empty turn changes nothing.
pub proof fn lemma_append_empty_turn(committed: Seq<char>)
    ensures
        append_turn_spec(committed, Seq::<char>::empty()) == committed,
{
    assert(trim(Seq::<char>::empty()) =~= Seq::<char>::empty());
}

/// What is copied to the clipboard for spoken text is exactly what typing
/// that text as a segment of its own would show.
pub proof fn law_clipboard_matches_segment_emission(text: Seq<char>)
    requires
        trim(text).len() > 0,
    ensures
        clipboard_spec(text) == Some(render_segment_spec(Seq::<char>::empty(), None, text, FormatKind::Plain)),
{
}

} // verus!
