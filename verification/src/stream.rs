//! Reading the interpreter's responses: the server-sent event streams of a
//! decision and of a generation, and the plain JSON bodies used when
//! streaming is not available.
use serde_json::Value;
use vstd::prelude::*;
use vstd::string::StringSliceAdditionalSpecFns;
use crate::error::{is_invalid_state, Result, WisprError};
use crate::llm::{
    body_can_be_cut, body_cut_ok, extract_sse_data, pop_frame_spec, pop_sse_frame, sse_data_spec,
    truncate_for_error, truncated_body,
};
use crate::models::opt_view;
use crate::text::{
    concat2, concat3, first_index, has_substr, is_blank_str, lemma_first_at_exists, occurs_at,
    owned, str_eq, trim,
};

verus! {

// ---------------------------------------------------------------------------
// The fields of a JSON event or body
// ---------------------------------------------------------------------------

/// The text fields that the decoders read from a JSON event or response
/// body: `type`, `delta`, `text`, `message`, `message` inside `error`, the
/// `text` of the first item of the `content` array of the first item of the
/// `output` array inside `response`, the same at the top level, and
/// `output_text`. A field is `None` when it is missing or not a string, or
/// when an `output` or `content` on its way is not a non-empty array.
#[derive(Debug)]
pub struct JsonFields {
    pub kind: Option<String>,
    pub delta: Option<String>,
    pub text: Option<String>,
    pub message: Option<String>,
    pub error_message: Option<String>,
    pub completed_text: Option<String>,
    pub output_text: Option<String>,
    pub top_output_text: Option<String>,
}

/// The fields of a JSON text as plain values, in the order of `JsonFields`.
pub type FieldsView = (
    Option<Seq<char>>,
    Option<Seq<char>>,
    Option<Seq<char>>,
    Option<Seq<char>>,
    Option<Seq<char>>,
    Option<Seq<char>>,
    Option<Seq<char>>,
    Option<Seq<char>>,
);

/// The fields as plain values.
pub open spec fn fields_view(f: JsonFields) -> FieldsView {
    (
        opt_view(f.kind),
        opt_view(f.delta),
        opt_view(f.text),
        opt_view(f.message),
        opt_view(f.error_message),
        opt_view(f.completed_text),
        opt_view(f.output_text),
        opt_view(f.top_output_text),
    )
}

/// What `serde_json` makes of a text: its fields as listed for
/// `JsonFields`, or the parser's error message.
pub uninterp spec fn json_fields(text: Seq<char>) -> std::result::Result<FieldsView, Seq<char>>;

/// A parse result as plain values: the fields, or the error's message.
pub open spec fn parsed_view(r: std::result::Result<JsonFields, String>) -> std::result::Result<FieldsView, Seq<char>> {
    match r {
        Ok(f) => Ok(fields_view(f)),
        Err(m) => Err(m@),
    }
}

/// Parses `text` as JSON with `serde_json::from_str` and picks the fields
/// that the decoders read, each a string or nothing: `type`, `delta`,
/// `text`, `message`, `message` inside `error`, `output_text`, and the
/// `text` of the first `content` item of the first `output` item, at the
/// top and inside `response`; on a parse failure, the error's message. They
/// are reached by indexing the `Value`: a string key reads only an object,
/// a number only an array, and a missing key or item gives `Null`. The
/// result is named, not stated.
#[verifier::external_body]
fn parse_json_fields(text: &str) -> (r: std::result::Result<JsonFields, String>)
    ensures
        json_fields(text@) == parsed_view(r),
{
    let v: Value = serde_json::from_str(text).map_err(|e| e.to_string())?;
    let s = |o: &Value| o.as_str().map(str::to_owned);
    Ok(JsonFields {
        kind: s(&v["type"]),
        delta: s(&v["delta"]),
        text: s(&v["text"]),
        message: s(&v["message"]),
        error_message: s(&v["error"]["message"]),
        completed_text: s(&v["response"]["output"][0]["content"][0]["text"]),
        output_text: s(&v["output"][0]["content"][0]["text"]),
        top_output_text: s(&v["output_text"]),
    })
}

/// The message of a failed event: its `message`, else its
/// `error.message`, else `default`.
pub open spec fn failure_message(f: FieldsView, default: Seq<char>) -> Seq<char> {
    match f.3 {
        Some(m) => m,
        None => match f.4 {
            Some(m) => m,
            None => default,
        },
    }
}

/// The message of a failed event.
fn failure_text(f: &JsonFields, default: &str) -> (r: String)
    ensures
        r@ == failure_message(fields_view(*f), default@),
{
    match &f.message {
        Some(m) => owned(m.as_str()),
        None => match &f.error_message {
            Some(m) => owned(m.as_str()),
            None => owned(default),
        },
    }
}

/// `e` is an HTTP error carrying `msg`.
pub open spec fn is_http(e: WisprError, msg: Seq<char>) -> bool {
    e matches WisprError::Http(m) && m@ == msg
}

/// An optional completion as plain values.
pub open spec fn completion_view(c: Option<Option<String>>) -> Option<Option<Seq<char>>> {
    match c {
        Some(t) => Some(opt_view(t)),
        None => None,
    }
}

/// The event data of a frame, unless the frame has none or is the `[DONE]`
/// marker.
pub open spec fn frame_payload(frame: Seq<char>) -> Option<Seq<char>> {
    match sse_data_spec(frame) {
        Some(data) => if trim(data) == "[DONE]"@ {
            None
        } else {
            Some(data)
        },
        None => None,
    }
}

/// The event data of a frame, unless the frame has none or is the `[DONE]`
/// marker.
fn payload_of(frame: &str) -> (r: Option<String>)
    ensures
        opt_view(r) == frame_payload(frame@),
{
    match extract_sse_data(frame) {
        Some(data) => {
            let t = crate::text::trim_str(data.as_str());
            if str_eq(t.as_str(), "[DONE]") {
                None
            } else {
                Some(data)
            }
        },
        None => None,
    }
}

/// A frame whose event data is not JSON: handling it raises an error that
/// quotes the raw stream.
pub open spec fn quoting_frame(frame: Seq<char>) -> bool {
    frame_payload(frame) matches Some(d) && json_fields(d) is Err
}

/// A frame that reports a failure of the request: handling it raises an
/// error that does not quote the raw stream.
pub open spec fn failure_frame(frame: Seq<char>) -> bool {
    frame_payload(frame) matches Some(d) && json_fields(d) matches Ok(f) && (f.0 == Some("error"@) || f.0
        == Some("response.failed"@))
}

/// Whether handling the complete frames of `buffer`, in order, stops at a
/// frame whose error quotes the raw stream.
pub open spec fn drain_quotes(buffer: Seq<char>) -> bool
    decreases buffer.len(),
{
    match pop_frame_spec(buffer).0 {
        None => false,
        Some(frame) => {
            proof {
                lemma_pop_frame_shrinks(buffer);
            }
            if quoting_frame(frame) {
                true
            } else if failure_frame(frame) {
                false
            } else {
                drain_quotes(pop_frame_spec(buffer).1)
            }
        },
    }
}

/// Handling the frames of `buffer` can quote the raw stream `raw` only if
/// its cut for an error message falls between characters.
pub open spec fn quote_safe(buffer: Seq<char>, raw: Seq<char>) -> bool {
    drain_quotes(buffer) ==> body_cut_ok(raw)
}

/// Whether handling the complete frames of `buffer` stops at a frame whose
/// error quotes the raw stream.
fn quotes_raw(buffer: &str) -> (r: bool)
    ensures
        r == drain_quotes(buffer@),
{
    let mut b = owned(buffer);
    loop
        invariant
            drain_quotes(b@) == drain_quotes(buffer@),
        decreases b@.len(),
    {
        let ghost before = b@;
        proof {
            lemma_pop_frame_shrinks(before);
        }
        match pop_sse_frame(&mut b) {
            None => {
                return false;
            },
            Some(frame) => {
                assert(pop_frame_spec(before).0 == Some(frame@));
                match payload_of(frame.as_str()) {
                    None => {},
                    Some(data) => match parse_json_fields(data.as_str()) {
                        Err(_) => {
                            return true;
                        },
                        Ok(f) => {
                            if opt_is(&f.kind, "error") || opt_is(&f.kind, "response.failed") {
                                return false;
                            }
                        },
                    },
                }
            },
        }
    }
}

/// Whether the raw stream `raw` followed by `text` could be quoted after
/// handling the frames of `buffer` followed by `text`.
fn push_is_safe(buffer: &str, raw: &str, text: &str) -> (r: bool)
    requires
        vstd::utf8::encode_utf8(raw@ + text@).len() <= usize::MAX,
    ensures
        r == quote_safe(buffer@ + text@, raw@ + text@),
{
    let all = concat2(raw, text);
    if body_can_be_cut(all.as_str()) {
        return true;
    }
    let pending = concat2(buffer, text);
    !quotes_raw(pending.as_str())
}

// ---------------------------------------------------------------------------
// Decision streams
// ---------------------------------------------------------------------------

/// What one frame of a decision stream does to the text streamed so far
/// and to the completion (the output text of a `response.completed` event,
/// once one arrived): the new pair and whether the frame carried structured
/// output, or the error it raises.
pub open spec fn decision_frame(
    frame: Seq<char>,
    streamed: Seq<char>,
    completion: Option<Option<Seq<char>>>,
    raw: Seq<char>,
) -> std::result::Result<(bool, Seq<char>, Option<Option<Seq<char>>>), Seq<char>> {
    match frame_payload(frame) {
        None => Ok((false, streamed, completion)),
        Some(data) => match json_fields(data) {
            Err(e) => Err("failed to parse streamed response event: "@ + e + "; body="@ + truncated_body(raw)),
            Ok(f) => if f.0 == Some("response.output_text.delta"@) {
                match f.1 {
                    Some(d) => Ok((true, streamed + d, completion)),
                    None => Ok((false, streamed, completion)),
                }
            } else if f.0 == Some("response.output_text.done"@) {
                let s2 = if streamed.len() == 0 && f.2 is Some {
                    streamed + f.2->0
                } else {
                    streamed
                };
                Ok((s2.len() > 0, s2, completion))
            } else if f.0 == Some("response.completed"@) {
                Ok((true, streamed, Some(f.5)))
            } else if f.0 == Some("error"@) || f.0 == Some("response.failed"@) {
                Err(failure_message(f, "LLM request failed"@))
            } else {
                Ok((false, streamed, completion))
            },
        },
    }
}

/// Whether an optional text equals `lit`.
fn opt_is(x: &Option<String>, lit: &str) -> (r: bool)
    ensures
        r == (opt_view(*x) == Some(lit@)),
{
    match x {
        Some(v) => str_eq(v.as_str(), lit),
        None => false,
    }
}

/// Handles one frame of a decision stream; the raw stream so far is quoted
/// in the error raised by an event that is not JSON.
pub fn process_sse_frame(
    frame: &str,
    streamed_text: &mut String,
    completion: &mut Option<Option<String>>,
    raw_stream: &str,
) -> (r: Result<bool>)
    requires
        raw_stream.spec_bytes().len() <= usize::MAX,
        quoting_frame(frame@) ==> body_cut_ok(raw_stream@),
    ensures
        match decision_frame(frame@, old(streamed_text)@, completion_view(*old(completion)), raw_stream@) {
            Ok((saw, s, c)) => r matches Ok(b) && b == saw && final(streamed_text)@ == s
                && completion_view(*final(completion)) == c,
            Err(m) => r matches Err(e) && is_http(e, m),
        },
{
    let data = match payload_of(frame) {
        Some(d) => d,
        None => return Ok(false),
    };
    let f = match parse_json_fields(data.as_str()) {
        Ok(f) => f,
        Err(e) => {
            let head = concat3("failed to parse streamed response event: ", e.as_str(), "; body=");
            let body = truncate_for_error(raw_stream);
            return Err(WisprError::Http(concat2(head.as_str(), body.as_str())));
        },
    };
    if opt_is(&f.kind, "response.output_text.delta") {
        match &f.delta {
            Some(d) => {
                streamed_text.append(d.as_str());
                return Ok(true);
            },
            None => return Ok(false),
        }
    }
    if opt_is(&f.kind, "response.output_text.done") {
        if streamed_text.as_str().unicode_len() == 0 {
            if let Some(t) = &f.text {
                streamed_text.append(t.as_str());
            }
        }
        return Ok(streamed_text.as_str().unicode_len() > 0);
    }
    if opt_is(&f.kind, "response.completed") {
        *completion = Some(f.completed_text);
        return Ok(true);
    }
    if opt_is(&f.kind, "error") || opt_is(&f.kind, "response.failed") {
        return Err(WisprError::Http(failure_text(&f, "LLM request failed")));
    }
    Ok(false)
}

/// Taking a frame off a buffer shortens it.
pub proof fn lemma_pop_frame_shrinks(b: Seq<char>)
    ensures
        pop_frame_spec(b).0 is Some ==> pop_frame_spec(b).1.len() < b.len(),
{
    if has_substr(b, "\r\n\r\n"@) {
        let k = choose|k: int| occurs_at(b, "\r\n\r\n"@, k);
        lemma_first_at_exists(b, "\r\n\r\n"@, k);
        reveal_strlit("\r\n\r\n");
        assert("\r\n\r\n"@.len() == 4);
    } else if has_substr(b, "\n\n"@) {
        let k = choose|k: int| occurs_at(b, "\n\n"@, k);
        lemma_first_at_exists(b, "\n\n"@, k);
        reveal_strlit("\n\n");
        assert("\n\n"@.len() == 2);
    }
}

/// Handles every complete frame at the front of a decision stream's buffer,
/// in order: what is left of the buffer, the text streamed, the completion,
/// and whether structured output was seen; or the first error raised.
pub open spec fn drain_decision(
    buffer: Seq<char>,
    streamed: Seq<char>,
    completion: Option<Option<Seq<char>>>,
    saw: bool,
    raw: Seq<char>,
) -> std::result::Result<(Seq<char>, Seq<char>, Option<Option<Seq<char>>>, bool), Seq<char>>
    decreases buffer.len(),
{
    match pop_frame_spec(buffer).0 {
        None => Ok((buffer, streamed, completion, saw)),
        Some(frame) => {
            proof {
                lemma_pop_frame_shrinks(buffer);
            }
            match decision_frame(frame, streamed, completion, raw) {
                Err(m) => Err(m),
                Ok((s, st, c)) => drain_decision(pop_frame_spec(buffer).1, st, c, saw || s, raw),
            }
        }
    }
}

/// An error that a decoder reports: an HTTP error or an invalid state, with
/// its message.
pub open spec fn reports_error(e: WisprError, http: bool, msg: Seq<char>) -> bool {
    if http {
        is_http(e, msg)
    } else {
        is_invalid_state(e, msg)
    }
}

/// `r` is what the outcome `o` describes: the text, or the error.
pub open spec fn yields_text(r: Result<String>, o: std::result::Result<Seq<char>, (bool, Seq<char>)>) -> bool {
    match o {
        Ok(t) => r matches Ok(s) && s@ == t,
        Err((http, m)) => r matches Err(e) && reports_error(e, http, m),
    }
}

/// The structured output of a finished decision stream: an error raised by
/// a last frame; an HTTP error when the response failed with an empty
/// stream; else the streamed text, or the completion's output text when
/// nothing was streamed; an error when that is blank too.
pub open spec fn decision_outcome(
    drained: std::result::Result<(Seq<char>, Seq<char>, Option<Option<Seq<char>>>, bool), Seq<char>>,
    raw: Seq<char>,
    status_ok: bool,
    status_text: Seq<char>,
) -> std::result::Result<Seq<char>, (bool, Seq<char>)> {
    match drained {
        Err(m) => Err((true, m)),
        Ok((_, st, c, _)) => if !status_ok && trim(raw).len() == 0 {
            Err((true, "HTTP "@ + status_text + " from LLM backend with empty event stream"@))
        } else {
            let text = if trim(st).len() == 0 && c matches Some(Some(t)) {
                c->0->0
            } else {
                st
            };
            if trim(text).len() == 0 {
                Err((false, "LLM interpreter returned no structured output"@))
            } else {
                Ok(text)
            }
        },
    }
}

/// The decoder of a streamed decision: the raw stream so far, the text
/// streamed, the completion, the bytes not yet split into frames, and
/// whether structured output was seen.
pub struct DecisionStream {
    raw: String,
    streamed: String,
    completion: Option<Option<String>>,
    buffer: String,
    saw: bool,
}

impl DecisionStream {
    /// Everything received so far.
    pub closed spec fn raw(&self) -> Seq<char> {
        self.raw@
    }

    /// The structured output streamed so far.
    pub closed spec fn streamed(&self) -> Seq<char> {
        self.streamed@
    }

    /// The completion received, if any.
    pub closed spec fn completion(&self) -> Option<Option<Seq<char>>> {
        completion_view(self.completion)
    }

    /// What has not been split into frames yet.
    pub closed spec fn buffer(&self) -> Seq<char> {
        self.buffer@
    }

    /// Whether structured output was seen.
    pub closed spec fn saw(&self) -> bool {
        self.saw
    }

    /// The raw stream fits in memory.
    pub open spec fn wf(&self) -> bool {
        vstd::utf8::encode_utf8(self.raw()).len() <= usize::MAX
    }

    /// A decoder that has received nothing.
    pub fn new() -> (r: Self)
        ensures
            r.raw().len() == 0,
            r.streamed().len() == 0,
            r.completion() is None,
            r.buffer().len() == 0,
            !r.saw(),
            r.wf(),
    {
        let r = DecisionStream {
            raw: String::new(),
            streamed: String::new(),
            completion: None,
            buffer: String::new(),
            saw: false,
        };
        proof {
            assert(r.raw@ =~= Seq::<char>::empty());
            assert(vstd::utf8::encode_utf8(r.raw@) =~= Seq::<u8>::empty());
        }
        r
    }

    /// Whether, when the connection fails, what was received is kept: it is
    /// when structured output or a completion arrived.
    pub fn keeps_partial_output(&self) -> (r: bool)
        ensures
            r == (self.saw() || self.completion() is Some),
    {
        self.saw || self.completion.is_some()
    }

    /// Whether the chunk `text` can be taken in: an error raised while
    /// handling the frames it completes would quote the raw stream only
    /// where its cut for the message falls between characters.
    pub fn accepts(&self, text: &str) -> (r: bool)
        requires
            vstd::utf8::encode_utf8(self.raw() + text@).len() <= usize::MAX,
        ensures
            r == quote_safe(self.buffer() + text@, self.raw() + text@),
    {
        push_is_safe(self.buffer.as_str(), self.raw.as_str(), text)
    }

    /// Whether the frames left in the buffer can be handled, in the same
    /// sense as `accepts`.
    pub fn can_drain(&self) -> (r: bool)
        requires
            self.wf(),
        ensures
            r == quote_safe(self.buffer(), self.raw()),
    {
        body_can_be_cut(self.raw.as_str()) || !quotes_raw(self.buffer.as_str())
    }

    /// Handles every complete frame in the buffer.
    fn drain(&mut self) -> (r: Result<()>)
        requires
            old(self).wf(),
            quote_safe(old(self).buffer(), old(self).raw()),
        ensures
            final(self).raw() == old(self).raw(),
            final(self).wf(),
            match drain_decision(old(self).buffer(), old(self).streamed(), old(self).completion(), old(self).saw(), old(self).raw()) {
                Ok((b, st, c, saw)) => r is Ok && final(self).buffer() == b && final(self).streamed() == st
                    && final(self).completion() == c && final(self).saw() == saw,
                Err(m) => r matches Err(e) && is_http(e, m),
            },
    {
        let ghost target = drain_decision(self.buffer@, self.streamed@, completion_view(self.completion), self.saw, self.raw@);
        loop
            invariant
                self.wf(),
                self.raw@ == old(self).raw@,
                quote_safe(self.buffer@, self.raw@),
                drain_decision(self.buffer@, self.streamed@, completion_view(self.completion), self.saw, self.raw@) == target,
                target == drain_decision(old(self).buffer@, old(self).streamed@, completion_view(old(self).completion), old(self).saw, old(self).raw@),
            decreases self.buffer@.len(),
        {
            let ghost before = self.buffer@;
            let ghost st0 = self.streamed@;
            let ghost c0 = completion_view(self.completion);
            let ghost saw0 = self.saw;
            proof {
                lemma_pop_frame_shrinks(before);
            }
            match pop_sse_frame(&mut self.buffer) {
                None => {
                    assert(drain_decision(before, st0, c0, saw0, self.raw@) == Ok::<
                        (Seq<char>, Seq<char>, Option<Option<Seq<char>>>, bool),
                        Seq<char>,
                    >((before, st0, c0, saw0)));
                    assert(self.buffer@ == before);
                    assert(target == Ok::<
                        (Seq<char>, Seq<char>, Option<Option<Seq<char>>>, bool),
                        Seq<char>,
                    >((self.buffer@, self.streamed@, completion_view(self.completion), self.saw)));
                    return Ok(());
                },
                Some(frame) => {
                    assert(pop_frame_spec(before).0 == Some(frame@));
                    let s = process_sse_frame(frame.as_str(), &mut self.streamed, &mut self.completion, self.raw.as_str());
                    match s {
                        Ok(b) => {
                            proof {
                                assert(decision_frame(frame@, st0, c0, self.raw@) is Ok);
                                reveal_strlit("error");
                                reveal_strlit("response.failed");
                                reveal_strlit("response.output_text.delta");
                                reveal_strlit("response.output_text.done");
                                reveal_strlit("response.completed");
                                assert("error"@.len() == 5);
                                assert("response.failed"@.len() == 15);
                                assert("response.completed"@.len() == 18);
                                assert("response.output_text.done"@.len() == 25);
                                assert("response.output_text.delta"@.len() == 26);
                                assert(!quoting_frame(frame@));
                                assert(!failure_frame(frame@));
                                assert(drain_quotes(before) == drain_quotes(self.buffer@));
                            }
                            self.saw = self.saw || b;
                            assert(drain_decision(before, st0, c0, saw0, self.raw@) == drain_decision(
                                self.buffer@,
                                self.streamed@,
                                completion_view(self.completion),
                                self.saw,
                                self.raw@,
                            ));
                        },
                        Err(e) => {
                            assert(decision_frame(frame@, st0, c0, self.raw@) is Err);
                            assert(drain_decision(before, st0, c0, saw0, self.raw@) == Err::<
                                (Seq<char>, Seq<char>, Option<Option<Seq<char>>>, bool),
                                Seq<char>,
                            >(decision_frame(frame@, st0, c0, self.raw@)->Err_0));
                            return Err(e);
                        },
                    }
                },
            }
        }
    }

    /// Takes in the text of a received chunk and handles every frame it
    /// completes; the first frame that raises an error stops the decoding.
    pub fn push_chunk(&mut self, text: &str) -> (r: Result<()>)
        requires
            old(self).wf(),
            vstd::utf8::encode_utf8(old(self).raw() + text@).len() <= usize::MAX,
            quote_safe(old(self).buffer() + text@, old(self).raw() + text@),
        ensures
            final(self).raw() == old(self).raw() + text@,
            final(self).wf(),
            match drain_decision(old(self).buffer() + text@, old(self).streamed(), old(self).completion(), old(self).saw(), old(self).raw() + text@) {
                Ok((b, st, c, saw)) => r is Ok && final(self).buffer() == b && final(self).streamed() == st
                    && final(self).completion() == c && final(self).saw() == saw,
                Err(m) => r matches Err(e) && is_http(e, m),
            },
    {
        self.raw.append(text);
        self.buffer.append(text);
        self.drain()
    }

    /// Finishes the stream once the connection ended, given whether the
    /// response status was a success and how it reads; returns the
    /// structured output to parse.
    pub fn finish(&mut self, status_ok: bool, status_text: &str) -> (r: Result<String>)
        requires
            old(self).wf(),
            quote_safe(old(self).buffer(), old(self).raw()),
        ensures
            yields_text(r, decision_outcome(
                drain_decision(old(self).buffer(), old(self).streamed(), old(self).completion(), old(self).saw(), old(self).raw()),
                old(self).raw(),
                status_ok,
                status_text@,
            )),
    {
        let drained = self.drain();
        if let Err(e) = drained {
            return Err(e);
        }
        if !status_ok && is_blank_str(self.raw.as_str()) {
            let head = concat3("HTTP ", status_text, " from LLM backend with empty event stream");
            return Err(WisprError::Http(head));
        }
        let mut text = owned(self.streamed.as_str());
        if is_blank_str(text.as_str()) {
            if let Some(Some(t)) = &self.completion {
                text = owned(t.as_str());
            }
        }
        if is_blank_str(text.as_str()) {
            return Err(WisprError::InvalidState(owned("LLM interpreter returned no structured output")));
        }
        Ok(text)
    }
}

// ---------------------------------------------------------------------------
// Generation streams
// ---------------------------------------------------------------------------

/// What one frame of a generation stream does to the text generated so far
/// and to the completion: the text to type now (a delta, or the whole text
/// when it only arrives at the end), and the new pair; or the error.
pub open spec fn generation_frame(
    frame: Seq<char>,
    fallback: Seq<char>,
    completion: Option<Option<Seq<char>>>,
    raw: Seq<char>,
) -> std::result::Result<(Option<Seq<char>>, Seq<char>, Option<Option<Seq<char>>>), Seq<char>> {
    match frame_payload(frame) {
        None => Ok((None, fallback, completion)),
        Some(data) => match json_fields(data) {
            Err(e) => Err("failed to parse streamed generation event: "@ + e + "; body="@ + truncated_body(raw)),
            Ok(f) => if f.0 == Some("response.output_text.delta"@) {
                match f.1 {
                    Some(d) => Ok((Some(d), fallback + d, completion)),
                    None => Ok((None, fallback, completion)),
                }
            } else if f.0 == Some("response.output_text.done"@) {
                if fallback.len() == 0 && f.2 is Some {
                    Ok((f.2, fallback + f.2->0, completion))
                } else {
                    Ok((None, fallback, completion))
                }
            } else if f.0 == Some("response.completed"@) {
                Ok((None, fallback, Some(f.5)))
            } else if f.0 == Some("error"@) || f.0 == Some("response.failed"@) {
                Err(failure_message(f, "LLM generation request failed"@))
            } else {
                Ok((None, fallback, completion))
            },
        },
    }
}

/// Handles one frame of a generation stream; returns the text to type, if
/// any.
pub fn process_generation_sse_frame(
    frame: &str,
    fallback_text: &mut String,
    completion: &mut Option<Option<String>>,
    raw_stream: &str,
) -> (r: Result<Option<String>>)
    requires
        raw_stream.spec_bytes().len() <= usize::MAX,
        quoting_frame(frame@) ==> body_cut_ok(raw_stream@),
    ensures
        match generation_frame(frame@, old(fallback_text)@, completion_view(*old(completion)), raw_stream@) {
            Ok((d, fb, c)) => r matches Ok(x) && opt_view(x) == d && final(fallback_text)@ == fb
                && completion_view(*final(completion)) == c,
            Err(m) => r matches Err(e) && is_http(e, m),
        },
{
    let data = match payload_of(frame) {
        Some(d) => d,
        None => return Ok(None),
    };
    let f = match parse_json_fields(data.as_str()) {
        Ok(f) => f,
        Err(e) => {
            let head = concat3("failed to parse streamed generation event: ", e.as_str(), "; body=");
            let body = truncate_for_error(raw_stream);
            return Err(WisprError::Http(concat2(head.as_str(), body.as_str())));
        },
    };
    if opt_is(&f.kind, "response.output_text.delta") {
        match &f.delta {
            Some(d) => {
                fallback_text.append(d.as_str());
                return Ok(Some(owned(d.as_str())));
            },
            None => return Ok(None),
        }
    }
    if opt_is(&f.kind, "response.output_text.done") {
        if fallback_text.as_str().unicode_len() == 0 {
            if let Some(t) = &f.text {
                fallback_text.append(t.as_str());
                return Ok(Some(owned(t.as_str())));
            }
        }
        return Ok(None);
    }
    if opt_is(&f.kind, "response.completed") {
        *completion = Some(f.completed_text);
        return Ok(None);
    }
    if opt_is(&f.kind, "error") || opt_is(&f.kind, "response.failed") {
        return Err(WisprError::Http(failure_text(&f, "LLM generation request failed")));
    }
    Ok(None)
}

/// Handles every complete frame at the front of a generation stream's
/// buffer, in order: the texts to type, and either the new state (buffer
/// left, generated text, completion, whether anything was typed) or the
/// error raised by a frame, after the texts of the frames before it.
pub open spec fn drain_generation(
    buffer: Seq<char>,
    fallback: Seq<char>,
    completion: Option<Option<Seq<char>>>,
    emitted: bool,
    raw: Seq<char>,
) -> (Seq<Seq<char>>, std::result::Result<(Seq<char>, Seq<char>, Option<Option<Seq<char>>>, bool), Seq<char>>)
    decreases buffer.len(),
{
    match pop_frame_spec(buffer).0 {
        None => (Seq::empty(), Ok((buffer, fallback, completion, emitted))),
        Some(frame) => {
            proof {
                lemma_pop_frame_shrinks(buffer);
            }
            match generation_frame(frame, fallback, completion, raw) {
                Err(m) => (Seq::empty(), Err(m)),
                Ok((d, fb, c)) => {
                    let rest = drain_generation(pop_frame_spec(buffer).1, fb, c, emitted || d is Some, raw);
                    match d {
                        Some(t) => (seq![t] + rest.0, rest.1),
                        None => rest,
                    }
                },
            }
        },
    }
}

/// The texts to type from a chunk, and the error that stopped the decoding,
/// if one did.
pub struct ChunkOutcome {
    pub deltas: Vec<String>,
    pub error: Option<WisprError>,
}

/// How a generation stream ends once every frame was handled: nothing more
/// to do, a whole text to type, or a retry without streaming.
pub enum GenerationEnd {
    Done,
    Send(String),
    RetryNonStreaming,
}

/// The end of a generation stream: an HTTP error when the response failed
/// and nothing was generated; when nothing was typed, the completion's
/// output text, else the generated text, else a retry without streaming.
pub open spec fn generation_end(
    fallback: Seq<char>,
    completion: Option<Option<Seq<char>>>,
    emitted: bool,
    status_ok: bool,
    status_text: Seq<char>,
) -> std::result::Result<Option<Option<Seq<char>>>, Seq<char>> {
    if !status_ok && !emitted && trim(fallback).len() == 0 {
        Err("HTTP "@ + status_text + " from LLM backend with empty generation stream"@)
    } else if emitted {
        Ok(None)
    } else if completion matches Some(Some(t)) && t.len() > 0 {
        Ok(Some(Some(completion->0->0)))
    } else if fallback.len() > 0 {
        Ok(Some(Some(fallback)))
    } else {
        Ok(Some(None))
    }
}

/// The decoder of a streamed generation.
pub struct GenerationStream {
    raw: String,
    fallback: String,
    completion: Option<Option<String>>,
    buffer: String,
    emitted: bool,
}

/// The texts of a list of strings.
pub open spec fn texts(v: Seq<String>) -> Seq<Seq<char>> {
    v.map_values(|s: String| s@)
}

impl GenerationStream {
    /// Everything received so far.
    pub closed spec fn raw(&self) -> Seq<char> {
        self.raw@
    }

    /// The text generated so far.
    pub closed spec fn fallback(&self) -> Seq<char> {
        self.fallback@
    }

    /// The completion received, if any.
    pub closed spec fn completion(&self) -> Option<Option<Seq<char>>> {
        completion_view(self.completion)
    }

    /// What has not been split into frames yet.
    pub closed spec fn buffer(&self) -> Seq<char> {
        self.buffer@
    }

    /// Whether some text was handed out to be typed.
    pub closed spec fn emitted(&self) -> bool {
        self.emitted
    }

    /// The raw stream fits in memory.
    pub open spec fn wf(&self) -> bool {
        vstd::utf8::encode_utf8(self.raw()).len() <= usize::MAX
    }

    /// A decoder that has received nothing.
    pub fn new() -> (r: Self)
        ensures
            r.raw().len() == 0,
            r.fallback().len() == 0,
            r.completion() is None,
            r.buffer().len() == 0,
            !r.emitted(),
            r.wf(),
    {
        let r = GenerationStream {
            raw: String::new(),
            fallback: String::new(),
            completion: None,
            buffer: String::new(),
            emitted: false,
        };
        proof {
            assert(r.raw@ =~= Seq::<char>::empty());
            assert(vstd::utf8::encode_utf8(r.raw@) =~= Seq::<u8>::empty());
        }
        r
    }

    /// Whether, when the connection fails, what was received is kept: it is
    /// when text was typed or generated, or a completion arrived.
    pub fn keeps_partial_output(&self) -> (r: bool)
        ensures
            r == (self.emitted() || trim(self.fallback()).len() > 0 || self.completion() is Some),
    {
        self.emitted || !is_blank_str(self.fallback.as_str()) || self.completion.is_some()
    }

    /// Whether the chunk `text` can be taken in: an error raised while
    /// handling the frames it completes would quote the raw stream only
    /// where its cut for the message falls between characters.
    pub fn accepts(&self, text: &str) -> (r: bool)
        requires
            vstd::utf8::encode_utf8(self.raw() + text@).len() <= usize::MAX,
        ensures
            r == quote_safe(self.buffer() + text@, self.raw() + text@),
    {
        push_is_safe(self.buffer.as_str(), self.raw.as_str(), text)
    }

    /// Whether the frames left in the buffer can be handled, in the same
    /// sense as `accepts`.
    pub fn can_drain(&self) -> (r: bool)
        requires
            self.wf(),
        ensures
            r == quote_safe(self.buffer(), self.raw()),
    {
        body_can_be_cut(self.raw.as_str()) || !quotes_raw(self.buffer.as_str())
    }

    /// Handles every complete frame in the buffer.
    pub fn drain(&mut self) -> (r: ChunkOutcome)
        requires
            old(self).wf(),
            quote_safe(old(self).buffer(), old(self).raw()),
        ensures
            final(self).raw() == old(self).raw(),
            final(self).wf(),
            texts(r.deltas@) == drain_generation(old(self).buffer(), old(self).fallback(), old(self).completion(), old(self).emitted(), old(self).raw()).0,
            match drain_generation(old(self).buffer(), old(self).fallback(), old(self).completion(), old(self).emitted(), old(self).raw()).1 {
                Ok((b, fb, c, em)) => r.error is None && final(self).buffer() == b && final(self).fallback() == fb
                    && final(self).completion() == c && final(self).emitted() == em,
                Err(m) => r.error matches Some(e) && is_http(e, m),
            },
    {
        let ghost target = drain_generation(self.buffer@, self.fallback@, completion_view(self.completion), self.emitted, self.raw@);
        let mut deltas: Vec<String> = Vec::new();
        loop
            invariant
                self.wf(),
                self.raw@ == old(self).raw@,
                quote_safe(self.buffer@, self.raw@),
                target == drain_generation(old(self).buffer@, old(self).fallback@, completion_view(old(self).completion), old(self).emitted, old(self).raw@),
                texts(deltas@) + drain_generation(self.buffer@, self.fallback@, completion_view(self.completion), self.emitted, self.raw@).0 == target.0,
                drain_generation(self.buffer@, self.fallback@, completion_view(self.completion), self.emitted, self.raw@).1 == target.1,
            decreases self.buffer@.len(),
        {
            let ghost before = self.buffer@;
            let ghost fb0 = self.fallback@;
            let ghost c0 = completion_view(self.completion);
            let ghost em0 = self.emitted;
            let ghost cur = drain_generation(before, fb0, c0, em0, self.raw@);
            proof {
                lemma_pop_frame_shrinks(before);
            }
            match pop_sse_frame(&mut self.buffer) {
                None => {
                    assert(cur.0 =~= Seq::<Seq<char>>::empty());
                    assert(texts(deltas@) + cur.0 =~= texts(deltas@));
                    return ChunkOutcome { deltas, error: None };
                },
                Some(frame) => {
                    assert(pop_frame_spec(before).0 == Some(frame@));
                    let s = process_generation_sse_frame(frame.as_str(), &mut self.fallback, &mut self.completion, self.raw.as_str());
                    match s {
                        Ok(d) => {
                            proof {
                                assert(generation_frame(frame@, fb0, c0, self.raw@) is Ok);
                                reveal_strlit("error");
                                reveal_strlit("response.failed");
                                reveal_strlit("response.output_text.delta");
                                reveal_strlit("response.output_text.done");
                                reveal_strlit("response.completed");
                                assert("error"@.len() == 5);
                                assert("response.failed"@.len() == 15);
                                assert("response.completed"@.len() == 18);
                                assert("response.output_text.done"@.len() == 25);
                                assert("response.output_text.delta"@.len() == 26);
                                assert(!quoting_frame(frame@));
                                assert(!failure_frame(frame@));
                                assert(drain_quotes(before) == drain_quotes(self.buffer@));
                            }
                            let ghost next = drain_generation(self.buffer@, self.fallback@, completion_view(self.completion), self.emitted || d is Some, self.raw@);
                            self.emitted = self.emitted || d.is_some();
                            match d {
                                Some(t) => {
                                    let ghost old_deltas = texts(deltas@);
                                    deltas.push(t);
                                    assert(texts(deltas@) =~= old_deltas.push(t@));
                                    assert(cur.0 == seq![t@] + next.0);
                                    assert(old_deltas.push(t@) + next.0 =~= old_deltas + (seq![t@] + next.0));
                                },
                                None => {
                                    assert(cur == next);
                                },
                            }
                        },
                        Err(e) => {
                            assert(cur.0 =~= Seq::<Seq<char>>::empty());
                            assert(texts(deltas@) + cur.0 =~= texts(deltas@));
                            return ChunkOutcome { deltas, error: Some(e) };
                        },
                    }
                },
            }
        }
    }

    /// Takes in the text of a received chunk and handles every frame it
    /// completes.
    pub fn push_chunk(&mut self, text: &str) -> (r: ChunkOutcome)
        requires
            old(self).wf(),
            vstd::utf8::encode_utf8(old(self).raw() + text@).len() <= usize::MAX,
            quote_safe(old(self).buffer() + text@, old(self).raw() + text@),
        ensures
            final(self).raw() == old(self).raw() + text@,
            final(self).wf(),
            texts(r.deltas@) == drain_generation(old(self).buffer() + text@, old(self).fallback(), old(self).completion(), old(self).emitted(), old(self).raw() + text@).0,
            match drain_generation(old(self).buffer() + text@, old(self).fallback(), old(self).completion(), old(self).emitted(), old(self).raw() + text@).1 {
                Ok((b, fb, c, em)) => r.error is None && final(self).buffer() == b && final(self).fallback() == fb
                    && final(self).completion() == c && final(self).emitted() == em,
                Err(m) => r.error matches Some(e) && is_http(e, m),
            },
    {
        self.raw.append(text);
        self.buffer.append(text);
        self.drain()
    }

    /// How the stream ends, once every frame was handled and the response
    /// status is known.
    pub fn conclude(&self, status_ok: bool, status_text: &str) -> (r: Result<GenerationEnd>)
        ensures
            match generation_end(self.fallback(), self.completion(), self.emitted(), status_ok, status_text@) {
                Err(m) => r matches Err(e) && is_http(e, m),
                Ok(None) => r matches Ok(GenerationEnd::Done),
                Ok(Some(Some(t))) => r matches Ok(GenerationEnd::Send(s)) && s@ == t,
                Ok(Some(None)) => r matches Ok(GenerationEnd::RetryNonStreaming),
            },
    {
        if !status_ok && !self.emitted && is_blank_str(self.fallback.as_str()) {
            return Err(WisprError::Http(concat3("HTTP ", status_text, " from LLM backend with empty generation stream")));
        }
        if self.emitted {
            return Ok(GenerationEnd::Done);
        }
        if let Some(Some(t)) = &self.completion {
            if t.as_str().unicode_len() > 0 {
                return Ok(GenerationEnd::Send(owned(t.as_str())));
            }
        }
        if self.fallback.as_str().unicode_len() > 0 {
            return Ok(GenerationEnd::Send(owned(self.fallback.as_str())));
        }
        Ok(GenerationEnd::RetryNonStreaming)
    }
}

// ---------------------------------------------------------------------------
// Plain JSON responses
// ---------------------------------------------------------------------------

/// The output text of a response body: the first content text of its first
/// output item, else its `output_text`.
pub open spec fn body_output(f: FieldsView) -> Option<Seq<char>> {
    match f.6 {
        Some(t) => Some(t),
        None => f.7,
    }
}

/// What a plain JSON response yields: its output text; an HTTP error
/// quoting the body when the status failed or the body is not JSON; an
/// invalid state when it has no output text. `generation` tells the
/// messages of a generation from those of a decision.
pub open spec fn body_outcome(
    status_ok: bool,
    status_text: Seq<char>,
    body: Seq<char>,
    generation: bool,
) -> std::result::Result<Seq<char>, (bool, Seq<char>)> {
    if !status_ok {
        Err((true, "HTTP "@ + status_text + " from LLM backend: "@ + truncated_body(body)))
    } else {
        match json_fields(body) {
            Err(e) => Err((
                true,
                (if generation {
                    "failed to parse non-streaming generation response body: "@
                } else {
                    "failed to parse non-streaming response body: "@
                }) + e + "; body="@ + truncated_body(body),
            )),
            Ok(f) => match body_output(f) {
                Some(t) => Ok(t),
                None => Err((
                    false,
                    if generation {
                        "LLM backend returned a generation response without output text"@
                    } else {
                        "LLM backend returned a response without structured output text"@
                    },
                )),
            },
        }
    }
}

/// The output text of a plain JSON response to a decision (`generation`
/// false) or a generation request.
pub fn response_output_text(status_ok: bool, status_text: &str, body: &str, generation: bool) -> (r: Result<String>)
    requires
        body.spec_bytes().len() <= usize::MAX,
        !status_ok || json_fields(body@) is Err ==> body_cut_ok(body@),
    ensures
        yields_text(r, body_outcome(status_ok, status_text@, body@, generation)),
{
    if !status_ok {
        let head = concat3("HTTP ", status_text, " from LLM backend: ");
        let quoted = truncate_for_error(body);
        return Err(WisprError::Http(concat2(head.as_str(), quoted.as_str())));
    }
    match parse_json_fields(body) {
        Err(e) => {
            let lead = if generation {
                "failed to parse non-streaming generation response body: "
            } else {
                "failed to parse non-streaming response body: "
            };
            let head = concat3(lead, e.as_str(), "; body=");
            let quoted = truncate_for_error(body);
            Err(WisprError::Http(concat2(head.as_str(), quoted.as_str())))
        },
        Ok(f) => {
            let text = match f.output_text {
                Some(t) => Some(t),
                None => f.top_output_text,
            };
            match text {
                Some(t) => Ok(t),
                None => {
                    if generation {
                        Err(WisprError::InvalidState(owned("LLM backend returned a generation response without output text")))
                    } else {
                        Err(WisprError::InvalidState(owned("LLM backend returned a response without structured output text")))
                    }
                },
            }
        },
    }
}


/// Whether a plain response body can be read by `response_output_text`: an
/// error quoting it arises only where its cut for the message falls between
/// characters.
pub fn body_is_readable(status_ok: bool, body: &str) -> (r: bool)
    requires
        body.spec_bytes().len() <= usize::MAX,
    ensures
        r == (!status_ok || json_fields(body@) is Err ==> body_cut_ok(body@)),
{
    if body_can_be_cut(body) {
        return true;
    }
    status_ok && parse_json_fields(body).is_ok()
}


/// The output text of a plain JSON response, read only where that is
/// possible: `None` when an error message would have to quote the body cut
/// inside a character.
pub fn read_response_output_text(status_ok: bool, status_text: &str, body: &str, generation: bool) -> (r: Option<
    Result<String>,
>)
    requires
        body.spec_bytes().len() <= usize::MAX,
    ensures
        r is None <==> !(!status_ok || json_fields(body@) is Err ==> body_cut_ok(body@)),
        r matches Some(x) ==> yields_text(x, body_outcome(status_ok, status_text@, body@, generation)),
{
    if body_is_readable(status_ok, body) {
        Some(response_output_text(status_ok, status_text, body, generation))
    } else {
        None
    }
}

/// The error for a response body that could not be read.
pub fn body_read_error(detail: &str) -> (e: WisprError)
    ensures
        is_http(e, "error decoding response body: "@ + detail@),
{
    WisprError::Http(concat2("error decoding response body: ", detail))
}

/// Taking a frame off a buffer loses nothing: the buffer was the frame, the
/// blank line after it, and what is left.
pub proof fn law_pop_frame_reassembles(b: Seq<char>)
    ensures
        pop_frame_spec(b).0 matches Some(f) ==> (b == f + "\r\n\r\n"@ + pop_frame_spec(b).1 || b == f
            + "\n\n"@ + pop_frame_spec(b).1),
        pop_frame_spec(b).0 is None ==> pop_frame_spec(b).1 == b,
{
    if has_substr(b, "\r\n\r\n"@) {
        let k = choose|k: int| occurs_at(b, "\r\n\r\n"@, k);
        lemma_first_at_exists(b, "\r\n\r\n"@, k);
        let i = first_index(b, "\r\n\r\n"@);
        reveal_strlit("\r\n\r\n");
        assert(b =~= b.take(i) + "\r\n\r\n"@ + b.skip(i + 4));
    } else if has_substr(b, "\n\n"@) {
        let k = choose|k: int| occurs_at(b, "\n\n"@, k);
        lemma_first_at_exists(b, "\n\n"@, k);
        let i = first_index(b, "\n\n"@);
        reveal_strlit("\n\n");
        assert(b =~= b.take(i) + "\n\n"@ + b.skip(i + 2));
    }
}

} // verus!
