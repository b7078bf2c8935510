//! The data model shared by the daemon, the CLI and the settings app.
use vstd::prelude::*;

use crate::text::owned;

verus! {

/// Whether the daemon is dictating.
#[derive(Clone, Copy, Debug, PartialEq, Eq, Hash, Structural)]
pub enum DictationState {
    Idle,
    Listening,
    Error,
}

/// How spoken commands are recognised.
#[derive(Clone, Copy, Debug, PartialEq, Eq, Hash, Structural)]
pub enum CommandMode {
    AlwaysInfer,
}

impl Default for CommandMode {
    fn default() -> (r: Self)
        ensures
            r == CommandMode::AlwaysInfer,
    {
        CommandMode::AlwaysInfer
    }
}

/// How recognised text is emitted.
#[derive(Clone, Copy, Debug, PartialEq, Eq, Hash, Structural)]
pub enum TextOutputMode {
    Literal,
}

impl Default for TextOutputMode {
    fn default() -> (r: Self)
        ensures
            r == TextOutputMode::Literal,
    {
        TextOutputMode::Literal
    }
}

/// Which keyboard actions the interpreter may request.
#[derive(Clone, Copy, Debug, PartialEq, Eq, Hash, Structural)]
pub enum ActionScope {
    EditingOnly,
}

impl Default for ActionScope {
    fn default() -> (r: Self)
        ensures
            r == ActionScope::EditingOnly,
    {
        ActionScope::EditingOnly
    }
}

/// What the interpreter decided to do with a segment.
#[derive(Clone, Copy, Debug, PartialEq, Eq, Hash, Structural)]
pub enum DecisionKind {
    Literal,
    Action,
    LiteralAndAction,
    Generation,
}

/// The snake-case label of a decision kind.
pub open spec fn decision_kind_label(v: DecisionKind) -> Seq<char> {
    match v {
        DecisionKind::Literal => "literal"@,
        DecisionKind::Action => "action"@,
        DecisionKind::LiteralAndAction => "literal_and_action"@,
        DecisionKind::Generation => "generation"@,
    }
}

impl DecisionKind {
    /// The snake-case label of the decision kind.
    pub fn as_label(&self) -> (r: &'static str)
        ensures
            r@ == decision_kind_label(*self),
    {
        match self {
            DecisionKind::Literal => "literal",
            DecisionKind::Action => "action",
            DecisionKind::LiteralAndAction => "literal_and_action",
            DecisionKind::Generation => "generation",
        }
    }
}

/// The kind of text that autonomous writing produces.
#[derive(Clone, Copy, Debug, PartialEq, Eq, Hash, Structural)]
pub enum GenerationStyle {
    Generic,
    PlainText,
    Email,
    Essay,
}

impl Default for GenerationStyle {
    fn default() -> (r: Self)
        ensures
            r == GenerationStyle::Generic,
    {
        GenerationStyle::Generic
    }
}

/// When autonomous writing may start.
#[derive(Clone, Copy, Debug, PartialEq, Eq, Hash, Structural)]
pub enum GenerationTriggerMode {
    ExplicitRequests,
}

impl Default for GenerationTriggerMode {
    fn default() -> (r: Self)
        ensures
            r == GenerationTriggerMode::ExplicitRequests,
    {
        GenerationTriggerMode::ExplicitRequests
    }
}

/// Where generated text goes.
#[derive(Clone, Copy, Debug, PartialEq, Eq, Hash, Structural)]
pub enum GenerationInsertMode {
    ReplaceRequest,
}

impl Default for GenerationInsertMode {
    fn default() -> (r: Self)
        ensures
            r == GenerationInsertMode::ReplaceRequest,
    {
        GenerationInsertMode::ReplaceRequest
    }
}

/// Which fields generated text may be written to.
#[derive(Clone, Copy, Debug, PartialEq, Eq, Hash, Structural)]
pub enum GenerationTargetScope {
    AnyTextField,
}

impl Default for GenerationTargetScope {
    fn default() -> (r: Self)
        ensures
            r == GenerationTargetScope::AnyTextField,
    {
        GenerationTargetScope::AnyTextField
    }
}

/// The kind of a keyboard action.
#[derive(Clone, Copy, Debug, PartialEq, Eq, Hash, Structural)]
pub enum ActionType {
    Key,
    Shortcut,
    SemanticCommand,
}

/// A keyboard modifier.
#[derive(Clone, Copy, Debug, PartialEq, Eq, Hash, Structural)]
pub enum ModifierKey {
    Ctrl,
    Shift,
    Alt,
    Super,
}

/// The display label of a modifier.
pub open spec fn modifier_label(v: ModifierKey) -> Seq<char> {
    match v {
        ModifierKey::Ctrl => "Ctrl"@,
        ModifierKey::Shift => "Shift"@,
        ModifierKey::Alt => "Alt"@,
        ModifierKey::Super => "Super"@,
    }
}

impl ModifierKey {
    /// The display label of the modifier.
    pub fn as_label(&self) -> (r: &'static str)
        ensures
            r@ == modifier_label(*self),
    {
        match self {
            ModifierKey::Ctrl => "Ctrl",
            ModifierKey::Shift => "Shift",
            ModifierKey::Alt => "Alt",
            ModifierKey::Super => "Super",
        }
    }
}

/// A key that an action may press.
#[derive(Clone, Copy, Debug, PartialEq, Eq, Hash, Structural)]
pub enum ActionKey {
    Space,
    Enter,
    Tab,
    Escape,
    Backspace,
    Delete,
    Insert,
    Left,
    Right,
    Up,
    Down,
    Home,
    End,
    PageUp,
    PageDown,
    A,
    B,
    C,
    D,
    E,
    F,
    G,
    H,
    I,
    J,
    K,
    L,
    M,
    N,
    O,
    P,
    Q,
    R,
    S,
    T,
    U,
    V,
    W,
    X,
    Y,
    Z,
    Digit0,
    Digit1,
    Digit2,
    Digit3,
    Digit4,
    Digit5,
    Digit6,
    Digit7,
    Digit8,
    Digit9,
    F1,
    F2,
    F3,
    F4,
    F5,
    F6,
    F7,
    F8,
    F9,
    F10,
    F11,
    F12,
}

/// The variant name of a key.
pub open spec fn action_key_name_spec(v: ActionKey) -> Seq<char> {
    match v {
        ActionKey::Space => "Space"@,
        ActionKey::Enter => "Enter"@,
        ActionKey::Tab => "Tab"@,
        ActionKey::Escape => "Escape"@,
        ActionKey::Backspace => "Backspace"@,
        ActionKey::Delete => "Delete"@,
        ActionKey::Insert => "Insert"@,
        ActionKey::Left => "Left"@,
        ActionKey::Right => "Right"@,
        ActionKey::Up => "Up"@,
        ActionKey::Down => "Down"@,
        ActionKey::Home => "Home"@,
        ActionKey::End => "End"@,
        ActionKey::PageUp => "PageUp"@,
        ActionKey::PageDown => "PageDown"@,
        ActionKey::A => "A"@,
        ActionKey::B => "B"@,
        ActionKey::C => "C"@,
        ActionKey::D => "D"@,
        ActionKey::E => "E"@,
        ActionKey::F => "F"@,
        ActionKey::G => "G"@,
        ActionKey::H => "H"@,
        ActionKey::I => "I"@,
        ActionKey::J => "J"@,
        ActionKey::K => "K"@,
        ActionKey::L => "L"@,
        ActionKey::M => "M"@,
        ActionKey::N => "N"@,
        ActionKey::O => "O"@,
        ActionKey::P => "P"@,
        ActionKey::Q => "Q"@,
        ActionKey::R => "R"@,
        ActionKey::S => "S"@,
        ActionKey::T => "T"@,
        ActionKey::U => "U"@,
        ActionKey::V => "V"@,
        ActionKey::W => "W"@,
        ActionKey::X => "X"@,
        ActionKey::Y => "Y"@,
        ActionKey::Z => "Z"@,
        ActionKey::Digit0 => "Digit0"@,
        ActionKey::Digit1 => "Digit1"@,
        ActionKey::Digit2 => "Digit2"@,
        ActionKey::Digit3 => "Digit3"@,
        ActionKey::Digit4 => "Digit4"@,
        ActionKey::Digit5 => "Digit5"@,
        ActionKey::Digit6 => "Digit6"@,
        ActionKey::Digit7 => "Digit7"@,
        ActionKey::Digit8 => "Digit8"@,
        ActionKey::Digit9 => "Digit9"@,
        ActionKey::F1 => "F1"@,
        ActionKey::F2 => "F2"@,
        ActionKey::F3 => "F3"@,
        ActionKey::F4 => "F4"@,
        ActionKey::F5 => "F5"@,
        ActionKey::F6 => "F6"@,
        ActionKey::F7 => "F7"@,
        ActionKey::F8 => "F8"@,
        ActionKey::F9 => "F9"@,
        ActionKey::F10 => "F10"@,
        ActionKey::F11 => "F11"@,
        ActionKey::F12 => "F12"@,
    }
}

/// The variant name of a key, as `{:?}` prints it.
pub fn action_key_name(v: &ActionKey) -> (r: &'static str)
    ensures
        r@ == action_key_name_spec(*v),
{
    match v {
        ActionKey::Space => "Space",
        ActionKey::Enter => "Enter",
        ActionKey::Tab => "Tab",
        ActionKey::Escape => "Escape",
        ActionKey::Backspace => "Backspace",
        ActionKey::Delete => "Delete",
        ActionKey::Insert => "Insert",
        ActionKey::Left => "Left",
        ActionKey::Right => "Right",
        ActionKey::Up => "Up",
        ActionKey::Down => "Down",
        ActionKey::Home => "Home",
        ActionKey::End => "End",
        ActionKey::PageUp => "PageUp",
        ActionKey::PageDown => "PageDown",
        ActionKey::A => "A",
        ActionKey::B => "B",
        ActionKey::C => "C",
        ActionKey::D => "D",
        ActionKey::E => "E",
        ActionKey::F => "F",
        ActionKey::G => "G",
        ActionKey::H => "H",
        ActionKey::I => "I",
        ActionKey::J => "J",
        ActionKey::K => "K",
        ActionKey::L => "L",
        ActionKey::M => "M",
        ActionKey::N => "N",
        ActionKey::O => "O",
        ActionKey::P => "P",
        ActionKey::Q => "Q",
        ActionKey::R => "R",
        ActionKey::S => "S",
        ActionKey::T => "T",
        ActionKey::U => "U",
        ActionKey::V => "V",
        ActionKey::W => "W",
        ActionKey::X => "X",
        ActionKey::Y => "Y",
        ActionKey::Z => "Z",
        ActionKey::Digit0 => "Digit0",
        ActionKey::Digit1 => "Digit1",
        ActionKey::Digit2 => "Digit2",
        ActionKey::Digit3 => "Digit3",
        ActionKey::Digit4 => "Digit4",
        ActionKey::Digit5 => "Digit5",
        ActionKey::Digit6 => "Digit6",
        ActionKey::Digit7 => "Digit7",
        ActionKey::Digit8 => "Digit8",
        ActionKey::Digit9 => "Digit9",
        ActionKey::F1 => "F1",
        ActionKey::F2 => "F2",
        ActionKey::F3 => "F3",
        ActionKey::F4 => "F4",
        ActionKey::F5 => "F5",
        ActionKey::F6 => "F6",
        ActionKey::F7 => "F7",
        ActionKey::F8 => "F8",
        ActionKey::F9 => "F9",
        ActionKey::F10 => "F10",
        ActionKey::F11 => "F11",
        ActionKey::F12 => "F12",
    }
}

/// The class of the focused application.
#[derive(Clone, Copy, Debug, PartialEq, Eq, Hash, Structural)]
pub enum ActiveAppClass {
    Browser,
    Editor,
    Terminal,
    Generic,
}

impl Default for ActiveAppClass {
    fn default() -> (r: Self)
        ensures
            r == ActiveAppClass::Generic,
    {
        ActiveAppClass::Generic
    }
}

/// The variant name of an application class.
pub open spec fn app_class_name_spec(v: ActiveAppClass) -> Seq<char> {
    match v {
        ActiveAppClass::Browser => "Browser"@,
        ActiveAppClass::Editor => "Editor"@,
        ActiveAppClass::Terminal => "Terminal"@,
        ActiveAppClass::Generic => "Generic"@,
    }
}

/// The variant name of an application class, as `{:?}` prints it.
pub fn app_class_name(v: &ActiveAppClass) -> (r: &'static str)
    ensures
        r@ == app_class_name_spec(*v),
{
    match v {
        ActiveAppClass::Browser => "Browser",
        ActiveAppClass::Editor => "Editor",
        ActiveAppClass::Terminal => "Terminal",
        ActiveAppClass::Generic => "Generic",
    }
}

/// A high-level editing or browsing intent.
#[derive(Clone, Copy, Debug, PartialEq, Eq, Hash, Structural)]
pub enum SemanticCommandId {
    NewTab,
    CloseTab,
    ReopenClosedTab,
    Refresh,
    Find,
    Save,
    Copy,
    Paste,
    Cut,
    Undo,
    Redo,
    FocusAddressBar,
    NextTab,
    PreviousTab,
}

/// The variant name of a semantic command.
pub open spec fn semantic_command_name_spec(v: SemanticCommandId) -> Seq<char> {
    match v {
        SemanticCommandId::NewTab => "NewTab"@,
        SemanticCommandId::CloseTab => "CloseTab"@,
        SemanticCommandId::ReopenClosedTab => "ReopenClosedTab"@,
        SemanticCommandId::Refresh => "Refresh"@,
        SemanticCommandId::Find => "Find"@,
        SemanticCommandId::Save => "Save"@,
        SemanticCommandId::Copy => "Copy"@,
        SemanticCommandId::Paste => "Paste"@,
        SemanticCommandId::Cut => "Cut"@,
        SemanticCommandId::Undo => "Undo"@,
        SemanticCommandId::Redo => "Redo"@,
        SemanticCommandId::FocusAddressBar => "FocusAddressBar"@,
        SemanticCommandId::NextTab => "NextTab"@,
        SemanticCommandId::PreviousTab => "PreviousTab"@,
    }
}

/// The variant name of a semantic command, as `{:?}` prints it.
pub fn semantic_command_name(v: &SemanticCommandId) -> (r: &'static str)
    ensures
        r@ == semantic_command_name_spec(*v),
{
    match v {
        SemanticCommandId::NewTab => "NewTab",
        SemanticCommandId::CloseTab => "CloseTab",
        SemanticCommandId::ReopenClosedTab => "ReopenClosedTab",
        SemanticCommandId::Refresh => "Refresh",
        SemanticCommandId::Find => "Find",
        SemanticCommandId::Save => "Save",
        SemanticCommandId::Copy => "Copy",
        SemanticCommandId::Paste => "Paste",
        SemanticCommandId::Cut => "Cut",
        SemanticCommandId::Undo => "Undo",
        SemanticCommandId::Redo => "Redo",
        SemanticCommandId::FocusAddressBar => "FocusAddressBar",
        SemanticCommandId::NextTab => "NextTab",
        SemanticCommandId::PreviousTab => "PreviousTab",
    }
}

/// The built-in set of forbidden shortcuts.
#[derive(Clone, Copy, Debug, PartialEq, Eq, Hash, Structural)]
pub enum ShortcutDenylistProfile {
    Minimal,
}

impl Default for ShortcutDenylistProfile {
    fn default() -> (r: Self)
        ensures
            r == ShortcutDenylistProfile::Minimal,
    {
        ShortcutDenylistProfile::Minimal
    }
}

/// How much text a decision replaces.
#[derive(Clone, Copy, Debug, PartialEq, Eq, Hash, Structural)]
pub enum RewriteScope {
    Segment,
    CurrentBlock,
}

impl Default for RewriteScope {
    fn default() -> (r: Self)
        ensures
            r == RewriteScope::Segment,
    {
        RewriteScope::Segment
    }
}

/// The structure of emitted text.
#[derive(Clone, Copy, Debug, PartialEq, Eq, Hash, Structural)]
pub enum FormatKind {
    Plain,
    NumberedList,
    BulletList,
}

impl Default for FormatKind {
    fn default() -> (r: Self)
        ensures
            r == FormatKind::Plain,
    {
        FormatKind::Plain
    }
}

/// The list style preferred for sequential speech.
#[derive(Clone, Copy, Debug, PartialEq, Eq, Hash, Structural)]
pub enum PreferredListStyle {
    Numbered,
}

impl Default for PreferredListStyle {
    fn default() -> (r: Self)
        ensures
            r == PreferredListStyle::Numbered,
    {
        PreferredListStyle::Numbered
    }
}

/// When formatting may be applied.
#[derive(Clone, Copy, Debug, PartialEq, Eq, Hash, Structural)]
pub enum FormattingTriggerPolicy {
    ClearStructureOnly,
}

impl Default for FormattingTriggerPolicy {
    fn default() -> (r: Self)
        ensures
            r == FormattingTriggerPolicy::ClearStructureOnly,
    {
        FormattingTriggerPolicy::ClearStructureOnly
    }
}

/// Which text spoken corrections may rewrite.
#[derive(Clone, Copy, Debug, PartialEq, Eq, Hash, Structural)]
pub enum CorrectionScope {
    CurrentBlockOnly,
}

impl Default for CorrectionScope {
    fn default() -> (r: Self)
        ensures
            r == CorrectionScope::CurrentBlockOnly,
    {
        CorrectionScope::CurrentBlockOnly
    }
}

/// Which speech-to-text backend is used.
#[derive(Clone, Copy, Debug, PartialEq, Eq, Hash, Structural)]
pub enum TranscriptionProvider {
    Deepgram,
    WhisperLocal,
}

impl Default for TranscriptionProvider {
    fn default() -> (r: Self)
        ensures
            r == TranscriptionProvider::Deepgram,
    {
        TranscriptionProvider::Deepgram
    }
}

/// The global shortcut that toggles dictation.
#[derive(Clone, Debug, PartialEq, Eq)]
pub struct HotkeyBinding {
    pub id: String,
    pub description: String,
    pub preferred_trigger: String,
    pub trigger_description: Option<String>,
}

impl Default for HotkeyBinding {
    fn default() -> (r: Self)
        ensures
            r.id@ == "toggle-dictation"@,
            r.description@ == "Toggle Wispr dictation"@,
            r.preferred_trigger@ == "<Super>d"@,
            r.trigger_description is None,
    {
        HotkeyBinding {
            id: owned("toggle-dictation"),
            description: owned("Toggle Wispr dictation"),
            preferred_trigger: owned("<Super>d"),
            trigger_description: None,
        }
    }
}

/// A microphone that capture can be started on.
#[derive(Clone, Debug, PartialEq, Eq)]
pub struct DeviceChoice {
    pub node_name: String,
    pub display_name: String,
    pub fallback_description: String,
}

/// The application that has keyboard focus.
#[derive(Clone, Debug, PartialEq, Eq)]
pub struct ActiveAppContext {
    pub app_class: ActiveAppClass,
    pub app_id: Option<String>,
}

impl Default for ActiveAppContext {
    fn default() -> (r: Self)
        ensures
            r.app_class == ActiveAppClass::Generic,
            r.app_id is None,
    {
        ActiveAppContext { app_class: ActiveAppClass::Generic, app_id: None }
    }
}

/// One keyboard action requested by the interpreter.
#[derive(Clone, Debug, PartialEq, Eq)]
pub struct ActionCommand {
    pub action_type: ActionType,
    pub key: Option<ActionKey>,
    pub modifiers: Vec<ModifierKey>,
    pub repeat: u8,
    pub command_id: Option<SemanticCommandId>,
    pub target_app: Option<ActiveAppClass>,
}

/// The mathematical value of an action: its fields, the modifier list as a
/// sequence.
pub ghost struct ActionView {
    pub action_type: ActionType,
    pub key: Option<ActionKey>,
    pub modifiers: Seq<ModifierKey>,
    pub repeat: u8,
    pub command_id: Option<SemanticCommandId>,
    pub target_app: Option<ActiveAppClass>,
}

impl View for ActionCommand {
    type V = ActionView;

    open spec fn view(&self) -> ActionView {
        ActionView {
            action_type: self.action_type,
            key: self.key,
            modifiers: self.modifiers@,
            repeat: self.repeat,
            command_id: self.command_id,
            target_app: self.target_app,
        }
    }
}

/// The views of a list of actions.
pub open spec fn action_views(v: Seq<ActionCommand>) -> Seq<ActionView> {
    v.map_values(|a: ActionCommand| a@)
}

/// The repeat count of an action that does not give one.
pub fn default_repeat() -> (r: u8)
    ensures
        r == 1,
{
    1
}

/// A copy of a modifier list.
pub fn copy_modifiers(m: &Vec<ModifierKey>) -> (r: Vec<ModifierKey>)
    ensures
        r@ == m@,
{
    let mut r: Vec<ModifierKey> = Vec::new();
    let n = m.len();
    for i in 0..n
        invariant
            n == m@.len(),
            r@ == m@.take(i as int),
    {
        r.push(m[i]);
        assert(m@.take(i + 1) =~= m@.take(i as int).push(m@[i as int]));
    }
    assert(m@.take(n as int) =~= m@);
    r
}

/// Element-wise equality of two modifier lists.
pub fn modifiers_eq(a: &Vec<ModifierKey>, b: &Vec<ModifierKey>) -> (r: bool)
    ensures
        r == (a@ == b@),
{
    if a.len() != b.len() {
        return false;
    }
    let n = a.len();
    for i in 0..n
        invariant
            n == a@.len(),
            n == b@.len(),
            forall|j: int| 0 <= j < i ==> a@[j] == b@[j],
    {
        if a[i] != b[i] {
            return false;
        }
    }
    assert(a@ =~= b@);
    true
}

/// Equality of two optional keys.
pub fn key_opt_eq(a: &Option<ActionKey>, b: &Option<ActionKey>) -> (r: bool)
    ensures
        r == (*a == *b),
{
    match (a, b) {
        (Some(x), Some(y)) => *x == *y,
        (None, None) => true,
        _ => false,
    }
}

/// Equality of two optional semantic commands.
pub fn command_opt_eq(a: &Option<SemanticCommandId>, b: &Option<SemanticCommandId>) -> (r: bool)
    ensures
        r == (*a == *b),
{
    match (a, b) {
        (Some(x), Some(y)) => *x == *y,
        (None, None) => true,
        _ => false,
    }
}

/// Two actions agree field for field (the modifier lists by their elements).
pub open spec fn same_action(a: ActionCommand, b: ActionCommand) -> bool {
    &&& a.action_type == b.action_type
    &&& a.key == b.key
    &&& a.modifiers@ == b.modifiers@
    &&& a.repeat == b.repeat
    &&& a.command_id == b.command_id
    &&& a.target_app == b.target_app
}

/// A field-for-field copy of an action.
pub fn copy_action(a: &ActionCommand) -> (r: ActionCommand)
    ensures
        same_action(r, *a),
{
    let modifiers = copy_modifiers(&a.modifiers);
    assert(modifiers@ == a.modifiers@);
    let r = ActionCommand {
        action_type: a.action_type,
        key: a.key,
        modifiers,
        repeat: a.repeat,
        command_id: a.command_id,
        target_app: a.target_app,
    };
    assert(r.modifiers@ =~= a.modifiers@);
    r
}

/// What the interpreter decided for one finalized segment.
#[derive(Clone, Debug, PartialEq, Eq)]
pub struct SegmentDecision {
    pub kind: DecisionKind,
    pub rewrite_scope: RewriteScope,
    pub format_kind: FormatKind,
    pub text_to_emit: String,
    pub keep_block_open: bool,
    pub actions: Vec<ActionCommand>,
    pub generation_prompt: Option<String>,
    pub generation_style: Option<GenerationStyle>,
    pub replace_current_segment: bool,
}

/// The mathematical value of a decision: its fields, texts as character
/// sequences, actions by their views.
pub ghost struct DecisionView {
    pub kind: DecisionKind,
    pub rewrite_scope: RewriteScope,
    pub format_kind: FormatKind,
    pub text_to_emit: Seq<char>,
    pub keep_block_open: bool,
    pub actions: Seq<ActionView>,
    pub generation_prompt: Option<Seq<char>>,
    pub generation_style: Option<GenerationStyle>,
    pub replace_current_segment: bool,
}

/// The view of an optional string.
pub open spec fn opt_view(s: Option<String>) -> Option<Seq<char>> {
    match s {
        Some(x) => Some(x@),
        None => None,
    }
}

impl View for SegmentDecision {
    type V = DecisionView;

    open spec fn view(&self) -> DecisionView {
        DecisionView {
            kind: self.kind,
            rewrite_scope: self.rewrite_scope,
            format_kind: self.format_kind,
            text_to_emit: self.text_to_emit@,
            keep_block_open: self.keep_block_open,
            actions: action_views(self.actions@),
            generation_prompt: opt_view(self.generation_prompt),
            generation_style: self.generation_style,
            replace_current_segment: self.replace_current_segment,
        }
    }
}

/// The plain literal decision that emits `text`.
pub open spec fn literal_view(text: Seq<char>) -> DecisionView {
    DecisionView {
        kind: DecisionKind::Literal,
        rewrite_scope: RewriteScope::Segment,
        format_kind: FormatKind::Plain,
        text_to_emit: text,
        keep_block_open: false,
        actions: Seq::<ActionView>::empty(),
        generation_prompt: None,
        generation_style: None,
        replace_current_segment: false,
    }
}

/// `d` is the plain literal decision that emits `text`.
pub open spec fn is_literal_decision(d: SegmentDecision, text: Seq<char>) -> bool {
    &&& d.kind == DecisionKind::Literal
    &&& d.rewrite_scope == RewriteScope::Segment
    &&& d.format_kind == FormatKind::Plain
    &&& d.text_to_emit@ == text
    &&& !d.keep_block_open
    &&& d.actions@.len() == 0
    &&& d.generation_prompt is None
    &&& d.generation_style is None
    &&& !d.replace_current_segment
}

impl SegmentDecision {
    /// The decision that types `text` unchanged.
    pub fn literal(text: &str) -> (r: Self)
        ensures
            is_literal_decision(r, text@),
            r@ == literal_view(text@),
    {
        let r = SegmentDecision {
            kind: DecisionKind::Literal,
            rewrite_scope: RewriteScope::Segment,
            format_kind: FormatKind::Plain,
            text_to_emit: owned(text),
            keep_block_open: false,
            actions: Vec::new(),
            generation_prompt: None,
            generation_style: None,
            replace_current_segment: false,
        };
        assert(action_views(r.actions@) =~= Seq::<ActionView>::empty());
        r
    }
}

/// A request for autonomous writing.
#[derive(Clone, Debug, PartialEq, Eq)]
pub struct GenerationRequest {
    pub request_text: String,
    pub generation_prompt: String,
    pub generation_style: GenerationStyle,
    pub recent_text: String,
    pub active_app: Option<ActiveAppContext>,
}

/// Everything the interpreter is told about one finalized segment.
#[derive(Clone, Debug, PartialEq, Eq)]
pub struct SegmentDecisionRequest {
    pub segment_id: String,
    pub finalized_text: String,
    pub literal_text: String,
    pub recent_text: String,
    pub active_block_raw: String,
    pub active_block_rendered: String,
    pub action_scope: ActionScope,
    pub command_mode: CommandMode,
    pub text_output_mode: TextOutputMode,
    pub preferred_list_style: PreferredListStyle,
    pub formatting_trigger_policy: FormattingTriggerPolicy,
    pub correction_scope: CorrectionScope,
    pub active_app: Option<ActiveAppContext>,
}

/// Settings of the local Whisper backend.
#[derive(Clone, Debug, PartialEq, Eq)]
pub struct WhisperLocalConfig {
    pub model: String,
    pub model_dir: String,
}

/// Which transcription backend is used, and how.
#[derive(Clone, Debug, PartialEq, Eq)]
pub struct TranscriptionConfig {
    pub provider: TranscriptionProvider,
    pub whisper_local: WhisperLocalConfig,
}

/// The daemon's status as shown by the overlay, the CLI and the settings app.
/// `updated_at_ms` is the time of the last change, in milliseconds since the
/// Unix epoch.
#[derive(Clone, Debug, PartialEq, Eq)]
pub struct DaemonStatus {
    pub state: DictationState,
    pub mic_ready: bool,
    pub typing_ready: bool,
    pub hotkey_ready: bool,
    pub transcription_provider: TranscriptionProvider,
    pub transcription_ready: bool,
    pub transcription_state: Option<String>,
    pub selected_whisper_model: Option<String>,
    pub last_transcription_error: Option<String>,
    pub intelligence_ready: bool,
    pub llm_ready: bool,
    pub current_mic: Option<DeviceChoice>,
    pub partial_transcript: Option<String>,
    pub last_error: Option<String>,
    pub last_llm_error: Option<String>,
    pub last_decision_kind: Option<DecisionKind>,
    pub intelligence_state: Option<String>,
    pub active_app: Option<ActiveAppContext>,
    pub last_resolution: Option<String>,
    pub generation_active: bool,
    pub generation_ready: bool,
    pub last_generation_error: Option<String>,
    pub generation_state: Option<String>,
    pub updated_at_ms: i64,
}

impl DaemonStatus {
    /// The status of an idle daemon that knows nothing yet, stamped `now_ms`.
    pub fn initial(now_ms: i64) -> (r: Self)
        ensures
            r.state == DictationState::Idle,
            !r.mic_ready && !r.typing_ready && !r.hotkey_ready,
            r.transcription_provider == TranscriptionProvider::Deepgram,
            !r.transcription_ready,
            r.transcription_state is None,
            r.selected_whisper_model is None,
            r.last_transcription_error is None,
            !r.intelligence_ready && !r.llm_ready,
            r.current_mic is None,
            r.partial_transcript is None,
            r.last_error is None,
            r.last_llm_error is None,
            r.last_decision_kind is None,
            r.intelligence_state is None,
            r.active_app is None,
            r.last_resolution is None,
            !r.generation_active && !r.generation_ready,
            r.last_generation_error is None,
            r.generation_state is None,
            r.updated_at_ms == now_ms,
    {
        DaemonStatus {
            state: DictationState::Idle,
            mic_ready: false,
            typing_ready: false,
            hotkey_ready: false,
            transcription_provider: TranscriptionProvider::Deepgram,
            transcription_ready: false,
            transcription_state: None,
            selected_whisper_model: None,
            last_transcription_error: None,
            intelligence_ready: false,
            llm_ready: false,
            current_mic: None,
            partial_transcript: None,
            last_error: None,
            last_llm_error: None,
            last_decision_kind: None,
            intelligence_state: None,
            active_app: None,
            last_resolution: None,
            generation_active: false,
            generation_ready: false,
            last_generation_error: None,
            generation_state: None,
            updated_at_ms: now_ms,
        }
    }
}

// ---------------------------------------------------------------------------
// Plain views and copies of the small records
// ---------------------------------------------------------------------------

/// A copy of an optional string.
pub fn copy_opt_string(s: &Option<String>) -> (r: Option<String>)
    ensures
        opt_view(r) == opt_view(*s),
{
    match s {
        Some(x) => Some(owned(x.as_str())),
        None => None,
    }
}

/// A device as the three texts it carries.
pub open spec fn device_view(d: DeviceChoice) -> (Seq<char>, Seq<char>, Seq<char>) {
    (d.node_name@, d.display_name@, d.fallback_description@)
}

/// An optional device as plain values.
pub open spec fn opt_device_view(d: Option<DeviceChoice>) -> Option<(Seq<char>, Seq<char>, Seq<char>)> {
    match d {
        Some(x) => Some(device_view(x)),
        None => None,
    }
}

/// A copy of a device.
pub fn copy_device(d: &DeviceChoice) -> (r: DeviceChoice)
    ensures
        device_view(r) == device_view(*d),
{
    DeviceChoice {
        node_name: owned(d.node_name.as_str()),
        display_name: owned(d.display_name.as_str()),
        fallback_description: owned(d.fallback_description.as_str()),
    }
}

/// A copy of an optional device.
pub fn copy_opt_device(d: &Option<DeviceChoice>) -> (r: Option<DeviceChoice>)
    ensures
        opt_device_view(r) == opt_device_view(*d),
{
    match d {
        Some(x) => Some(copy_device(x)),
        None => None,
    }
}

/// A focus context as plain values.
pub open spec fn app_view(c: ActiveAppContext) -> (ActiveAppClass, Option<Seq<char>>) {
    (c.app_class, opt_view(c.app_id))
}

/// An optional focus context as plain values.
pub open spec fn opt_app_view(c: Option<ActiveAppContext>) -> Option<(ActiveAppClass, Option<Seq<char>>)> {
    match c {
        Some(x) => Some(app_view(x)),
        None => None,
    }
}

/// A copy of an optional focus context.
pub fn copy_app_context(c: &Option<ActiveAppContext>) -> (r: Option<ActiveAppContext>)
    ensures
        opt_app_view(r) == opt_app_view(*c),
{
    match c {
        Some(x) => Some(ActiveAppContext { app_class: x.app_class, app_id: copy_opt_string(&x.app_id) }),
        None => None,
    }
}

/// The mathematical value of a daemon status: its fields, texts as character
/// sequences, the microphone and the focus context as plain values.
pub ghost struct StatusView {
    pub state: DictationState,
    pub mic_ready: bool,
    pub typing_ready: bool,
    pub hotkey_ready: bool,
    pub transcription_provider: TranscriptionProvider,
    pub transcription_ready: bool,
    pub transcription_state: Option<Seq<char>>,
    pub selected_whisper_model: Option<Seq<char>>,
    pub last_transcription_error: Option<Seq<char>>,
    pub intelligence_ready: bool,
    pub llm_ready: bool,
    pub current_mic: Option<(Seq<char>, Seq<char>, Seq<char>)>,
    pub partial_transcript: Option<Seq<char>>,
    pub last_error: Option<Seq<char>>,
    pub last_llm_error: Option<Seq<char>>,
    pub last_decision_kind: Option<DecisionKind>,
    pub intelligence_state: Option<Seq<char>>,
    pub active_app: Option<(ActiveAppClass, Option<Seq<char>>)>,
    pub last_resolution: Option<Seq<char>>,
    pub generation_active: bool,
    pub generation_ready: bool,
    pub last_generation_error: Option<Seq<char>>,
    pub generation_state: Option<Seq<char>>,
    pub updated_at_ms: i64,
}

impl View for DaemonStatus {
    type V = StatusView;

    open spec fn view(&self) -> StatusView {
        StatusView {
            state: self.state,
            mic_ready: self.mic_ready,
            typing_ready: self.typing_ready,
            hotkey_ready: self.hotkey_ready,
            transcription_provider: self.transcription_provider,
            transcription_ready: self.transcription_ready,
            transcription_state: opt_view(self.transcription_state),
            selected_whisper_model: opt_view(self.selected_whisper_model),
            last_transcription_error: opt_view(self.last_transcription_error),
            intelligence_ready: self.intelligence_ready,
            llm_ready: self.llm_ready,
            current_mic: opt_device_view(self.current_mic),
            partial_transcript: opt_view(self.partial_transcript),
            last_error: opt_view(self.last_error),
            last_llm_error: opt_view(self.last_llm_error),
            last_decision_kind: self.last_decision_kind,
            intelligence_state: opt_view(self.intelligence_state),
            active_app: opt_app_view(self.active_app),
            last_resolution: opt_view(self.last_resolution),
            generation_active: self.generation_active,
            generation_ready: self.generation_ready,
            last_generation_error: opt_view(self.last_generation_error),
            generation_state: opt_view(self.generation_state),
            updated_at_ms: self.updated_at_ms,
        }
    }
}

} // verus!
