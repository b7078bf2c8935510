//! The JSON bodies of the requests to the interpreter, and the settings
//! summary, written as JSON text. Object keys come in sorted order and
//! strings are escaped as `serde_json` writes them: `"` and `\` with a
//! backslash, the control characters by their short escapes or as `\u00XX`.
use vstd::prelude::*;
use crate::config::{AppConfig, IntelligenceConfig};
use crate::llm::{
    developer_prompt, developer_prompt_spec, generation_prompt, generation_prompt_spec,
};
use crate::models::{GenerationRequest, TranscriptionProvider};
use crate::text::{chars_of, is_blank, is_blank_str, push_char};

verus! {

/// The lower-case hexadecimal digit of `d`, for `0 <= d < 16`.
pub open spec fn hex_digit(d: int) -> char {
    seq!['0', '1', '2', '3', '4', '5', '6', '7', '8', '9', 'a', 'b', 'c', 'd', 'e', 'f'][d]
}

/// How a character is written inside a JSON string.
pub open spec fn escape_char(c: char) -> Seq<char> {
    if c == '"' {
        seq!['\\', '"']
    } else if c == '\\' {
        seq!['\\', '\\']
    } else if c == '\n' {
        seq!['\\', 'n']
    } else if c == '\r' {
        seq!['\\', 'r']
    } else if c == '\t' {
        seq!['\\', 't']
    } else if c == '\u{8}' {
        seq!['\\', 'b']
    } else if c == '\u{c}' {
        seq!['\\', 'f']
    } else if (c as int) < 32 {
        seq!['\\', 'u', '0', '0', hex_digit((c as int) / 16), hex_digit((c as int) % 16)]
    } else {
        seq![c]
    }
}

/// The escaped characters of a text.
pub open spec fn escape(s: Seq<char>) -> Seq<char>
    decreases s.len(),
{
    if s.len() == 0 {
        Seq::empty()
    } else {
        escape(s.drop_last()) + escape_char(s.last())
    }
}

/// A text as a JSON string.
pub open spec fn json_string(s: Seq<char>) -> Seq<char> {
    seq!['"'] + escape(s) + seq!['"']
}

/// A truth value in JSON.
pub open spec fn json_bool(b: bool) -> Seq<char> {
    if b {
        "true"@
    } else {
        "false"@
    }
}

/// The digit of `d`.
fn hex_digit_char(d: u32) -> (c: char)
    requires
        d < 16,
    ensures
        c == hex_digit(d as int),
{
    let digits = ['0', '1', '2', '3', '4', '5', '6', '7', '8', '9', 'a', 'b', 'c', 'd', 'e', 'f'];
    assert(digits@ =~= seq!['0', '1', '2', '3', '4', '5', '6', '7', '8', '9', 'a', 'b', 'c', 'd', 'e', 'f']);
    digits[d as usize]
}

/// Appends a character as written inside a JSON string.
fn push_escaped(out: &mut String, c: char)
    ensures
        final(out)@ == old(out)@ + escape_char(c),
{
    let ghost before = out@;
    if c == '"' || c == '\\' || c == '\n' || c == '\r' || c == '\t' || c == '\u{8}' || c == '\u{c}' {
        let e = if c == '"' {
            '"'
        } else if c == '\\' {
            '\\'
        } else if c == '\n' {
            'n'
        } else if c == '\r' {
            'r'
        } else if c == '\t' {
            't'
        } else if c == '\u{8}' {
            'b'
        } else {
            'f'
        };
        push_char(out, '\\');
        push_char(out, e);
        assert(out@ =~= before + escape_char(c));
    } else if (c as u32) < 32 {
        let v = c as u32;
        push_char(out, '\\');
        push_char(out, 'u');
        push_char(out, '0');
        push_char(out, '0');
        push_char(out, hex_digit_char(v / 16));
        push_char(out, hex_digit_char(v % 16));
        assert(out@ =~= before + escape_char(c));
    } else {
        push_char(out, c);
        assert(out@ =~= before + escape_char(c));
    }
}

/// Appends a text as a JSON string.
pub fn push_json_string(out: &mut String, s: &str)
    ensures
        final(out)@ == old(out)@ + json_string(s@),
{
    let ghost before = out@;
    push_char(out, '"');
    let cs = chars_of(s);
    let n = cs.len();
    for i in 0..n
        invariant
            n == cs@.len(),
            cs@ == s@,
            out@ == before + seq!['"'] + escape(cs@.take(i as int)),
    {
        assert(cs@.take(i + 1).drop_last() =~= cs@.take(i as int));
        push_escaped(out, cs[i]);
    }
    assert(cs@.take(n as int) =~= s@);
    push_char(out, '"');
    assert(out@ =~= before + json_string(s@));
}

/// A text as a JSON string.
pub fn json_string_text(s: &str) -> (r: String)
    ensures
        r@ == json_string(s@),
{
    let mut out = String::new();
    push_json_string(&mut out, s);
    out
}

/// The JSON schema that a segment decision must follow, with its keys in
/// sorted order.
pub const DECISION_SCHEMA: &'static str = "{\"additionalProperties\":false,\"properties\":{\"actions\":{\"items\":{\"additionalProperties\":false,\"properties\":{\"command_id\":{\"anyOf\":[{\"enum\":[\"new_tab\",\"close_tab\",\"reopen_closed_tab\",\"refresh\",\"find\",\"save\",\"copy\",\"paste\",\"cut\",\"undo\",\"redo\",\"focus_address_bar\",\"next_tab\",\"previous_tab\"],\"type\":\"string\"},{\"type\":\"null\"}]},\"key\":{\"anyOf\":[{\"enum\":[\"Space\",\"Enter\",\"Tab\",\"Escape\",\"Backspace\",\"Delete\",\"Insert\",\"Left\",\"Right\",\"Up\",\"Down\",\"Home\",\"End\",\"PageUp\",\"PageDown\",\"A\",\"B\",\"C\",\"D\",\"E\",\"F\",\"G\",\"H\",\"I\",\"J\",\"K\",\"L\",\"M\",\"N\",\"O\",\"P\",\"Q\",\"R\",\"S\",\"T\",\"U\",\"V\",\"W\",\"X\",\"Y\",\"Z\",\"Digit0\",\"Digit1\",\"Digit2\",\"Digit3\",\"Digit4\",\"Digit5\",\"Digit6\",\"Digit7\",\"Digit8\",\"Digit9\",\"F1\",\"F2\",\"F3\",\"F4\",\"F5\",\"F6\",\"F7\",\"F8\",\"F9\",\"F10\",\"F11\",\"F12\"],\"type\":\"string\"},{\"type\":\"null\"}]},\"modifiers\":{\"items\":{\"enum\":[\"Ctrl\",\"Shift\",\"Alt\",\"Super\"],\"type\":\"string\"},\"type\":\"array\"},\"repeat\":{\"maximum\":12,\"minimum\":1,\"type\":\"integer\"},\"target_app\":{\"anyOf\":[{\"enum\":[\"browser\",\"editor\",\"terminal\",\"generic\"],\"type\":\"string\"},{\"type\":\"null\"}]},\"type\":{\"enum\":[\"key\",\"shortcut\",\"semantic_command\"],\"type\":\"string\"}},\"required\":[\"type\",\"key\",\"modifiers\",\"repeat\",\"command_id\",\"target_app\"],\"type\":\"object\"},\"type\":\"array\"},\"format_kind\":{\"enum\":[\"plain\",\"numbered_list\",\"bullet_list\"],\"type\":\"string\"},\"generation_prompt\":{\"anyOf\":[{\"type\":\"string\"},{\"type\":\"null\"}]},\"generation_style\":{\"anyOf\":[{\"enum\":[\"generic\",\"plain_text\",\"email\",\"essay\"],\"type\":\"string\"},{\"type\":\"null\"}]},\"keep_block_open\":{\"type\":\"boolean\"},\"kind\":{\"enum\":[\"literal\",\"action\",\"literal_and_action\",\"generation\"],\"type\":\"string\"},\"replace_current_segment\":{\"type\":\"boolean\"},\"rewrite_scope\":{\"enum\":[\"segment\",\"current_block\"],\"type\":\"string\"},\"text_to_emit\":{\"type\":\"string\"}},\"required\":[\"kind\",\"rewrite_scope\",\"format_kind\",\"text_to_emit\",\"keep_block_open\",\"actions\",\"generation_prompt\",\"generation_style\",\"replace_current_segment\"],\"type\":\"object\"}";

/// The JSON schema that a segment decision must follow.
pub fn decision_schema() -> (r: &'static str)
    ensures
        r@ == DECISION_SCHEMA@,
{
    DECISION_SCHEMA
}

/// The body of a decision request: the developer instructions, the request
/// as the user message (`request_json`, the request serialized as JSON),
/// and the strict decision schema as the output format.
pub open spec fn request_body_spec(model: Seq<char>, stream: bool, request_json: Seq<char>) -> Seq<char> {
    "{\"input\":[{\"content\":[{\"text\":"@ + json_string(developer_prompt_spec())
        + ",\"type\":\"input_text\"}],\"role\":\"developer\"},{\"content\":[{\"text\":"@
        + json_string(request_json) + ",\"type\":\"input_text\"}],\"role\":\"user\"}],\"model\":"@
        + json_string(model) + ",\"stream\":"@ + json_bool(stream)
        + ",\"text\":{\"format\":{\"name\":\"wispr_segment_decision\",\"schema\":"@ + DECISION_SCHEMA@
        + ",\"strict\":true,\"type\":\"json_schema\"}}}"@
}

/// A truth value in JSON.
fn json_bool_text(b: bool) -> (r: &'static str)
    ensures
        r@ == json_bool(b),
{
    if b {
        "true"
    } else {
        "false"
    }
}

/// The body of a decision request for a segment; `request_json` is the
/// request serialized as JSON.
pub fn build_request_body(config: &IntelligenceConfig, request_json: &str, stream: bool) -> (r: String)
    ensures
        r@ == request_body_spec(config.model@, stream, request_json@),
{
    let mut out = String::new();
    out.append("{\"input\":[{\"content\":[{\"text\":");
    push_json_string(&mut out, developer_prompt());
    out.append(",\"type\":\"input_text\"}],\"role\":\"developer\"},{\"content\":[{\"text\":");
    push_json_string(&mut out, request_json);
    out.append(",\"type\":\"input_text\"}],\"role\":\"user\"}],\"model\":");
    push_json_string(&mut out, config.model.as_str());
    out.append(",\"stream\":");
    out.append(json_bool_text(stream));
    out.append(",\"text\":{\"format\":{\"name\":\"wispr_segment_decision\",\"schema\":");
    out.append(DECISION_SCHEMA);
    out.append(",\"strict\":true,\"type\":\"json_schema\"}}}");
    out
}

/// The body of a generation request: the instructions of the request's
/// style, and the request as the user message (`request_json`, the request
/// serialized as JSON).
pub open spec fn generation_body_spec(
    model: Seq<char>,
    stream: bool,
    prompt: Seq<char>,
    request_json: Seq<char>,
) -> Seq<char> {
    "{\"input\":[{\"content\":[{\"text\":"@ + json_string(prompt)
        + ",\"type\":\"input_text\"}],\"role\":\"developer\"},{\"content\":[{\"text\":"@
        + json_string(request_json) + ",\"type\":\"input_text\"}],\"role\":\"user\"}],\"model\":"@
        + json_string(model) + ",\"stream\":"@ + json_bool(stream) + "}"@
}

/// The body of a generation request; `request_json` is `request`
/// serialized as JSON.
pub fn build_generation_request_body(
    config: &IntelligenceConfig,
    request: &GenerationRequest,
    request_json: &str,
    stream: bool,
) -> (r: String)
    ensures
        r@ == generation_body_spec(
            config.model@,
            stream,
            generation_prompt_spec(request.generation_style),
            request_json@,
        ),
{
    let mut out = String::new();
    out.append("{\"input\":[{\"content\":[{\"text\":");
    push_json_string(&mut out, generation_prompt(request.generation_style));
    out.append(",\"type\":\"input_text\"}],\"role\":\"developer\"},{\"content\":[{\"text\":");
    push_json_string(&mut out, request_json);
    out.append(",\"type\":\"input_text\"}],\"role\":\"user\"}],\"model\":");
    push_json_string(&mut out, config.model.as_str());
    out.append(",\"stream\":");
    out.append(json_bool_text(stream));
    out.append("}");
    out
}

/// Whether a stored key is set: present and not blank.
pub fn key_configured(value: Option<&str>) -> (r: bool)
    ensures
        r == (value matches Some(v) && !is_blank(v@)),
{
    match value {
        Some(v) => !is_blank_str(v),
        None => false,
    }
}

/// The settings summary that the command line prints for scripts.
pub open spec fn settings_spec(config: AppConfig, deepgram_key: bool, llm_key: bool) -> Seq<char> {
    "{\"deepgram_key_configured\":"@ + json_bool(deepgram_key) + ",\"intelligence_enabled\":"@
        + json_bool(config.intelligence.enabled) + ",\"llm_base_url\":"@
        + json_string(config.intelligence.base_url@) + ",\"llm_key_configured\":"@ + json_bool(llm_key)
        + ",\"llm_model\":"@ + json_string(config.intelligence.model@) + ",\"provider\":"@
        + json_string(
        match config.transcription.provider {
            TranscriptionProvider::Deepgram => "deepgram"@,
            TranscriptionProvider::WhisperLocal => "whisper_local"@,
        },
    ) + ",\"whisper_model\":"@ + json_string(config.transcription.whisper_local.model@) + "}"@
}

/// The settings summary: the provider, the Whisper model, the interpreter's
/// address and model, whether it is enabled, and whether each key is set.
pub fn settings_json(config: &AppConfig, deepgram_key_configured: bool, llm_key_configured: bool) -> (r: String)
    ensures
        r@ == settings_spec(*config, deepgram_key_configured, llm_key_configured),
{
    let provider = match config.transcription.provider {
        TranscriptionProvider::Deepgram => "deepgram",
        TranscriptionProvider::WhisperLocal => "whisper_local",
    };
    let mut out = String::new();
    out.append("{\"deepgram_key_configured\":");
    out.append(json_bool_text(deepgram_key_configured));
    out.append(",\"intelligence_enabled\":");
    out.append(json_bool_text(config.intelligence.enabled));
    out.append(",\"llm_base_url\":");
    push_json_string(&mut out, config.intelligence.base_url.as_str());
    out.append(",\"llm_key_configured\":");
    out.append(json_bool_text(llm_key_configured));
    out.append(",\"llm_model\":");
    push_json_string(&mut out, config.intelligence.model.as_str());
    out.append(",\"provider\":");
    push_json_string(&mut out, provider);
    out.append(",\"whisper_model\":");
    push_json_string(&mut out, config.transcription.whisper_local.model.as_str());
    out.append("}");
    out
}

} // verus!
