//! The event state machine: one discrete input event at a time is mapped to
//! a handler that applies a deterministic sequence of mutations to the
//! buffer, the screen cursor and the suggestion state, and returns the
//! intents the host loop should carry out (render instructions, collaborator
//! calls) together with a continue/terminate signal.

use vstd::prelude::*;

use crate::buffer::Buffer;
use crate::buffer::col_of;
use crate::buffer::lemma_at_line_start_iff;
use crate::buffer::lemma_insert_mid;
use crate::buffer::lemma_line_start_bounds;
use crate::buffer::lemma_line_start_prefix;
use crate::buffer::lemma_row_bounds;
use crate::buffer::lemma_row_prefix;
use crate::buffer::line_start_index;
use crate::buffer::line_start_of;
use crate::buffer::row_of;
use crate::chars::CharClass;
use crate::chars::char_class;
use crate::chars::class_of;
use crate::chars::str_to_chars;
use crate::detect::cmd_or_shell_spec;
use crate::detect::incomplete_input;
use crate::detect::incomplete_spec;
use crate::detect::input_is_cmd_or_shell;
use crate::cursor::ScreenCursor;
use crate::suggestion::CycleDirection;
use crate::suggestion::SuggestionState;

verus! {

/// One discrete input event, already decoded from the terminal.
#[derive(Clone, Copy, PartialEq, Eq, Structural, Debug)]
pub enum InputEvent {
    /// A printable character (plain or shifted).
    Character(char),
    /// Enter: submit, or continue the input if it looks incomplete.
    Enter,
    /// Alt+Enter: always insert a literal newline.
    AltEnter,
    /// Ctrl+E: submit unconditionally, bypassing the continuation heuristic.
    ForceEnter,
    /// Tab: literal indentation at a line start, completion cycling elsewhere.
    Tab,
    /// Shift+Tab: cycle completions backwards.
    BackTab,
    Left,
    Right,
    /// Ctrl+Left: jump to the previous word boundary.
    CtrlLeft,
    /// Ctrl+Right: jump to the next word boundary.
    CtrlRight,
    /// Up: history recall, owned by the history collaborator.
    Up,
    /// Down: history recall, owned by the history collaborator.
    Down,
    Backspace,
    Delete,
    Home,
    End,
    /// Ctrl+C: interrupt the current input.
    CtrlC,
    /// Ctrl+D: end of input; asks for exit confirmation on an empty buffer.
    CtrlD,
    /// Ctrl+Z: suspend the process, where the platform supports it.
    CtrlZ,
    /// Ctrl+L: clear the screen and redraw an empty prompt.
    CtrlL,
    /// Ctrl+R: history search, owned by the history collaborator.
    CtrlR,
    /// The terminal was resized to the given width and height.
    Resize(u16, u16),
    /// Ctrl+Alt+character: platform compatibility, treated as the character.
    CtrlAltChar(char),
    /// Any other combination: ignored.
    Other,
}

/// A render or collaborator intent the host loop should carry out, in order.
/// The core never writes to the terminal itself.
#[derive(Clone, Copy, PartialEq, Eq, Structural, Debug)]
pub enum EffectKind {
    /// Re-print the (highlighted) input from the prompt.
    PrintInput,
    /// Write a literal newline to the transcript.
    WriteNewline,
    /// Hide the terminal cursor.
    HideCursor,
    /// Show the terminal cursor.
    ShowCursor,
    /// Print the input prompt, if one is configured.
    PrintPrompt,
    /// Re-derive the input prompt from the prompt provider.
    UpdatePrompt,
    /// Print the pending evaluation output.
    PrintOutput,
    /// Clear the terminal from the cursor down.
    ClearFromCursorDown,
    /// Clear the whole screen.
    ClearScreen,
    /// Print the exit-confirmation question.
    WriteConfirmPrompt,
    /// Display the active suggestion inline after the cursor.
    ShowSuggestion,
    /// Send the stop signal to the process.
    Suspend,
    /// Cancel any in-progress history recall.
    UnlockHistory,
    /// Recall the previous history entry.
    HistoryUp,
    /// Recall the next history entry.
    HistoryDown,
    /// Open the interactive history search.
    HistorySearch,
}

/// What the host loop should do after a handled event.
#[derive(Clone, Copy, PartialEq, Eq, Structural, Debug)]
pub enum Signal {
    /// Keep reading events.
    Continue,
    /// Terminate the session.
    Exit,
}

/// The dispatcher's top-level state: editing, or waiting for the user to
/// confirm exit after Ctrl+D on an empty buffer.
#[derive(Clone, Copy, PartialEq, Eq, Structural, Debug)]
pub enum Mode {
    Editing,
    ConfirmingExit,
}

/// Everything a handled event asks of the host loop: ordered intents, at
/// most one submission to the evaluator, at most one history push, at most
/// one completion query, and the continue/terminate signal.
pub struct Outcome {
    pub effects: Vec<EffectKind>,
    /// Full buffer text to hand to the evaluator.
    pub submission: Option<String>,
    /// Raw input to offer the history store (its policy decides the push).
    pub history_push: Option<String>,
    /// The completion provider should be queried, then
    /// `apply_completions` called with this cycle direction.
    pub query_completion: Option<CycleDirection>,
    pub signal: Signal,
}

/// The event state machine over buffer, cursor and suggestion state.
pub struct InputDispatcher {
    pub buffer: Buffer,
    pub cursor: ScreenCursor,
    pub suggestions: SuggestionState,
    pub mode: Mode,
    /// Incremented once per evaluation that produced output; prompt
    /// providers may depend on it.
    pub op_count: u64,
    /// Whether the platform supports suspending the process.
    pub suspend_supported: bool,
}

/// The outcome asks nothing of the collaborators and continues the session.
pub open spec fn quiet(out: Outcome) -> bool {
    &&& out.submission is None
    &&& out.history_push is None
    &&& out.query_completion is None
    &&& out.signal == Signal::Continue
}

/// The parts of the state no editing event may change.
pub open spec fn config_kept(pre: InputDispatcher, post: InputDispatcher) -> bool {
    &&& post.cursor.start_column == pre.cursor.start_column
    &&& post.cursor.width == pre.cursor.width
    &&& post.cursor.height == pre.cursor.height
    &&& post.op_count == pre.op_count
    &&& post.suspend_supported == pre.suspend_supported
    &&& post.mode == pre.mode
}

/// The suggestion state is exactly as before.
pub open spec fn suggestions_kept(pre: InputDispatcher, post: InputDispatcher) -> bool {
    &&& post.suggestions.candidates@ == pre.suggestions.candidates@
    &&& post.suggestions.next_idx == pre.suggestions.next_idx
    &&& post.suggestions.active == pre.suggestions.active
    &&& post.suggestions.locked == pre.suggestions.locked
    &&& post.suggestions.snapshot@ == pre.suggestions.snapshot@
}

/// The displayed suggestion is dropped and the next provider query allowed;
/// candidates and cycle index survive.
pub open spec fn suggestions_invalidated(pre: InputDispatcher, post: InputDispatcher) -> bool {
    &&& post.suggestions.active is None
    &&& !post.suggestions.locked
    &&& post.suggestions.candidates@ == pre.suggestions.candidates@
    &&& post.suggestions.next_idx == pre.suggestions.next_idx
    &&& post.suggestions.snapshot@ == pre.suggestions.snapshot@
}

/// Nothing changed and nothing was asked.
pub open spec fn ignored(pre: InputDispatcher, post: InputDispatcher, out: Outcome) -> bool {
    &&& post == pre
    &&& quiet(out)
    &&& out.effects@ =~= Seq::<EffectKind>::empty()
}

/// The literal inserted by Tab at a line start: a fixed 4-column
/// whitespace run.
pub open spec fn tab_text() -> Seq<char> {
    seq![' ', ' ', ' ', '\t']
}

/// The cycle index one step in the given direction, wrapping at the ends.
pub open spec fn step_idx(idx: int, len: int, dir: CycleDirection) -> int {
    if dir == CycleDirection::Down {
        if idx + 1 == len {
            0
        } else {
            idx + 1
        }
    } else {
        if idx == 0 {
            len - 1
        } else {
            idx - 1
        }
    }
}

/// The candidate at the cycle index became the displayed suggestion and
/// the index stepped in the given direction; with no candidates, nothing
/// changed.
pub open spec fn cycled(pre: InputDispatcher, post: InputDispatcher, dir: CycleDirection) -> bool {
    &&& post.suggestions.candidates@ == pre.suggestions.candidates@
    &&& post.suggestions.locked == pre.suggestions.locked
    &&& post.suggestions.snapshot@ == pre.suggestions.snapshot@
    &&& if pre.suggestions.candidates@.len() == 0 {
        &&& post.suggestions.active == pre.suggestions.active
        &&& post.suggestions.next_idx == pre.suggestions.next_idx
    } else {
        &&& (post.suggestions.active matches Some(a) && a@ == pre.suggestions.candidates@[pre.suggestions.next_idx as int]@)
        &&& post.suggestions.next_idx == step_idx(
            pre.suggestions.next_idx as int,
            pre.suggestions.candidates@.len() as int,
            dir,
        )
    }
}

/// Tab: a literal 4-column indentation at a line start; elsewhere, cycle
/// the locked suggestion forward, or ask for a fresh provider query.
pub open spec fn tab_post(pre: InputDispatcher, post: InputDispatcher, out: Outcome) -> bool {
    &&& config_kept(pre, post)
    &&& if pre.buffer.spec_at_line_start() {
        &&& post.buffer@ == pre.buffer@.subrange(0, pre.buffer.pos as int) + tab_text()
            + pre.buffer@.subrange(pre.buffer.pos as int, pre.buffer@.len() as int)
        &&& post.buffer.pos == pre.buffer.pos + 4
        &&& suggestions_invalidated(pre, post)
        &&& quiet(out)
        &&& out.effects@ =~= seq![EffectKind::PrintInput]
    } else if pre.suggestions.locked {
        &&& post.buffer@ == pre.buffer@
        &&& post.buffer.pos == pre.buffer.pos
        &&& cycled(pre, post, CycleDirection::Down)
        &&& quiet(out)
        &&& out.effects@ =~= if pre.suggestions.candidates@.len() > 0 {
            seq![EffectKind::ShowSuggestion]
        } else {
            Seq::<EffectKind>::empty()
        }
    } else {
        &&& post == pre
        &&& out.query_completion == Some(CycleDirection::Down)
        &&& out.submission is None
        &&& out.history_push is None
        &&& out.signal == Signal::Continue
        &&& out.effects@ =~= Seq::<EffectKind>::empty()
    }
}

/// Shift+Tab: cycle the locked suggestion backward, or ask for a fresh
/// provider query; never inserts indentation.
pub open spec fn back_tab_post(pre: InputDispatcher, post: InputDispatcher, out: Outcome) -> bool {
    &&& config_kept(pre, post)
    &&& if pre.suggestions.locked {
        &&& post.buffer@ == pre.buffer@
        &&& post.buffer.pos == pre.buffer.pos
        &&& cycled(pre, post, CycleDirection::Up)
        &&& quiet(out)
        &&& out.effects@ =~= if pre.suggestions.candidates@.len() > 0 {
            seq![EffectKind::ShowSuggestion]
        } else {
            Seq::<EffectKind>::empty()
        }
    } else {
        &&& post == pre
        &&& out.query_completion == Some(CycleDirection::Up)
        &&& out.submission is None
        &&& out.history_push is None
        &&& out.signal == Signal::Continue
        &&& out.effects@ =~= Seq::<EffectKind>::empty()
    }
}

/// Enter: with an incomplete, non-command buffer and no forced submit, a
/// literal newline is inserted instead; otherwise the whole text is handed
/// to the evaluator and offered to the history store, and the buffer and
/// cursor reset for the next prompt.
pub open spec fn enter_post(
    pre: InputDispatcher,
    post: InputDispatcher,
    out: Outcome,
    force_eval: bool,
) -> bool {
    &&& config_kept(pre, post)
    &&& if !force_eval && !cmd_or_shell_spec(pre.buffer@) && incomplete_spec(pre.buffer@) {
        &&& post.buffer@ == pre.buffer@.insert(pre.buffer.pos as int, '\n')
        &&& post.buffer.pos == pre.buffer.pos + 1
        &&& suggestions_invalidated(pre, post)
        &&& quiet(out)
        &&& out.effects@ =~= seq![EffectKind::UnlockHistory, EffectKind::PrintInput]
    } else {
        &&& post.buffer@ == Seq::<char>::empty()
        &&& post.buffer.pos == 0
        &&& post.cursor.row == 0
        &&& post.cursor.column == post.cursor.start_column
        &&& suggestions_invalidated(pre, post)
        &&& (out.submission matches Some(t) && t@ == pre.buffer@)
        &&& (out.history_push matches Some(t) && t@ == pre.buffer@)
        &&& out.query_completion is None
        &&& out.signal == Signal::Continue
        &&& out.effects@ =~= seq![
            EffectKind::UnlockHistory,
            EffectKind::HideCursor,
            EffectKind::WriteNewline,
        ]
    }
}

/// Ctrl+D: a no-op on a non-empty buffer; on an empty one, asks the
/// confirmation question and waits for the answer.
pub open spec fn ctrl_d_post(pre: InputDispatcher, post: InputDispatcher, out: Outcome) -> bool {
    if pre.buffer@.len() > 0 {
        ignored(pre, post, out)
    } else {
        &&& post.buffer@ == pre.buffer@
        &&& post.buffer.pos == pre.buffer.pos
        &&& post.cursor == pre.cursor
        &&& suggestions_kept(pre, post)
        &&& post.mode == Mode::ConfirmingExit
        &&& post.op_count == pre.op_count
        &&& post.suspend_supported == pre.suspend_supported
        &&& quiet(out)
        &&& out.effects@ =~= seq![EffectKind::WriteNewline, EffectKind::WriteConfirmPrompt]
    }
}

/// While awaiting exit confirmation: `y`/`Y`, a repeated Ctrl+D or Enter
/// confirm exit; any other character declines and reprints the prompt;
/// anything else leaves the question pending.
pub open spec fn confirm_post(
    pre: InputDispatcher,
    post: InputDispatcher,
    out: Outcome,
    ev: InputEvent,
) -> bool {
    &&& post.buffer@ == pre.buffer@
    &&& post.buffer.pos == pre.buffer.pos
    &&& post.cursor == pre.cursor
    &&& suggestions_kept(pre, post)
    &&& post.op_count == pre.op_count
    &&& post.suspend_supported == pre.suspend_supported
    &&& out.submission is None
    &&& out.history_push is None
    &&& out.query_completion is None
    &&& match ev {
        InputEvent::Character(c) => {
            if c == 'y' || c == 'Y' {
                &&& post.mode == Mode::Editing
                &&& out.signal == Signal::Exit
                &&& out.effects@ =~= Seq::<EffectKind>::empty()
            } else {
                &&& post.mode == Mode::Editing
                &&& out.signal == Signal::Continue
                &&& out.effects@ =~= seq![
                    EffectKind::WriteNewline,
                    EffectKind::WriteNewline,
                    EffectKind::PrintPrompt,
                ]
            }
        },
        InputEvent::CtrlD | InputEvent::Enter => {
            &&& post.mode == Mode::Editing
            &&& out.signal == Signal::Exit
            &&& out.effects@ =~= Seq::<EffectKind>::empty()
        },
        _ => {
            &&& post.mode == pre.mode
            &&& out.signal == Signal::Continue
            &&& out.effects@ =~= Seq::<EffectKind>::empty()
        },
    }
}

/// Resize: record the new dimensions, then clear and redraw exactly as the
/// interrupt handler does (in-progress multi-line state is discarded, not
/// reflowed).
pub open spec fn resize_post(
    pre: InputDispatcher,
    post: InputDispatcher,
    out: Outcome,
    width: u16,
    height: u16,
) -> bool {
    &&& post.buffer@ == Seq::<char>::empty()
    &&& post.buffer.pos == 0
    &&& post.cursor.row == 0
    &&& post.cursor.column == post.cursor.start_column
    &&& post.cursor.start_column == pre.cursor.start_column
    &&& post.cursor.width == width
    &&& post.cursor.height == height
    &&& suggestions_invalidated(pre, post)
    &&& post.mode == pre.mode
    &&& post.op_count == pre.op_count
    &&& post.suspend_supported == pre.suspend_supported
    &&& quiet(out)
    &&& out.effects@ =~= seq![
        EffectKind::UnlockHistory,
        EffectKind::PrintPrompt,
        EffectKind::ClearFromCursorDown,
        EffectKind::PrintInput,
    ]
}

/// A history recall or search event: delegated entirely to the history
/// collaborator, nothing in the core changes.
pub open spec fn history_post(
    pre: InputDispatcher,
    post: InputDispatcher,
    out: Outcome,
    e: EffectKind,
) -> bool {
    &&& post == pre
    &&& quiet(out)
    &&& out.effects@ =~= seq![e]
}

impl InputDispatcher {
    /// The cursor's visual position always agrees with the edit position:
    /// its row counts the newlines before `pos`, its column is the prompt
    /// width plus the distance from the start of the current logical line.
    pub open spec fn synced(self) -> bool {
        &&& self.cursor.row == row_of(self.buffer@, self.buffer.pos as int)
        &&& self.cursor.column == self.cursor.start_column + col_of(
            self.buffer@,
            self.buffer.pos as int,
        )
    }

    /// A suggestion may only be displayed (or the provider lock held) for
    /// the buffer content it was computed against.
    pub open spec fn suggestion_fresh(self) -> bool {
        (self.suggestions.locked || self.suggestions.active is Some)
            ==> self.suggestions.snapshot@ == self.buffer@
    }

    /// The dispatcher's invariant, preserved by every handled event.
    pub open spec fn wf(self) -> bool {
        &&& self.buffer.wf()
        &&& self.suggestions.wf()
        &&& self.synced()
        &&& self.suggestion_fresh()
    }

    /// There is room to grow the buffer by `n` characters without the
    /// cursor column leaving `usize`.
    pub open spec fn can_grow(self, n: nat) -> bool {
        self.cursor.start_column + self.buffer@.len() + n <= usize::MAX
    }

    /// A fresh editing session: empty buffer, cursor at the prompt.
    pub fn new(start_column: usize, width: u16, height: u16, suspend_supported: bool) -> (r:
        InputDispatcher)
        ensures
            r.wf(),
            r.buffer@ == Seq::<char>::empty(),
            r.buffer.pos == 0,
            r.cursor.start_column == start_column,
            r.cursor.width == width,
            r.cursor.height == height,
            r.suggestions.active is None,
            !r.suggestions.locked,
            r.mode == Mode::Editing,
            r.op_count == 0,
            r.suspend_supported == suspend_supported,
    {
        InputDispatcher {
            buffer: Buffer::new(),
            cursor: ScreenCursor::new(start_column, width, height),
            suggestions: SuggestionState::new(),
            mode: Mode::Editing,
            op_count: 0,
            suspend_supported,
        }
    }

    /// Insert one character at the edit position, keep the cursor in
    /// lockstep, and invalidate any displayed suggestion.
    fn insert_char(&mut self, c: char)
        requires
            old(self).wf(),
            old(self).can_grow(1),
        ensures
            final(self).wf(),
            final(self).can_grow(0),
            final(self).buffer@ == old(self).buffer@.insert(old(self).buffer.pos as int, c),
            final(self).buffer.pos == old(self).buffer.pos + 1,
            suggestions_invalidated(*old(self), *final(self)),
            config_kept(*old(self), *final(self)),
    {
        let ghost s0 = self.buffer@;
        let ghost p0: int = self.buffer.pos as int;
        self.buffer.insert(c);
        proof {
            let s1 = s0.insert(p0, c);
            s0.insert_ensures(p0, c);
            lemma_line_start_prefix(s1, s0, p0);
            lemma_row_prefix(s1, s0, p0);
            lemma_line_start_bounds(s0, p0);
            lemma_row_bounds(s0, p0);
        }
        if c == '\n' {
            self.cursor.move_down_to_start();
        } else {
            self.cursor.move_right();
        }
        self.suggestions.invalidate();
    }

    /// Move the edit position one step forward and the cursor with it.
    fn step_forward(&mut self)
        requires
            old(self).wf(),
            old(self).can_grow(0),
            old(self).buffer.pos < old(self).buffer@.len(),
        ensures
            final(self).wf(),
            final(self).buffer@ == old(self).buffer@,
            final(self).buffer.pos == old(self).buffer.pos + 1,
            suggestions_kept(*old(self), *final(self)),
            config_kept(*old(self), *final(self)),
    {
        let ghost s0 = self.buffer@;
        let ghost p0: int = self.buffer.pos as int;
        proof {
            lemma_line_start_bounds(s0, p0);
            lemma_row_bounds(s0, p0);
        }
        let crossing = self.buffer.chars[self.buffer.pos] == '\n';
        self.buffer.move_forward();
        if crossing {
            self.cursor.move_down_to_start();
        } else {
            self.cursor.move_right();
        }
    }

    /// Move the edit position one step backward and the cursor with it;
    /// crossing a newline lands at the end of the previous line.
    fn step_backward(&mut self)
        requires
            old(self).wf(),
            old(self).can_grow(0),
            old(self).buffer.pos > 0,
        ensures
            final(self).wf(),
            final(self).buffer@ == old(self).buffer@,
            final(self).buffer.pos == old(self).buffer.pos - 1,
            suggestions_kept(*old(self), *final(self)),
            config_kept(*old(self), *final(self)),
    {
        let ghost s0 = self.buffer@;
        let ghost p0: int = self.buffer.pos as int;
        proof {
            lemma_line_start_bounds(s0, p0);
            lemma_row_bounds(s0, p0);
            lemma_line_start_bounds(s0, p0 - 1);
            lemma_row_bounds(s0, p0 - 1);
        }
        let crossing = self.buffer.chars[self.buffer.pos - 1] == '\n';
        self.buffer.move_backward();
        if crossing {
            let ls: usize = line_start_index(&self.buffer.chars, self.buffer.pos);
            let target: usize = self.cursor.start_column + (self.buffer.pos - ls);
            self.cursor.move_up_to(target);
        } else {
            self.cursor.move_left();
        }
    }
}

impl Outcome {
    /// An outcome that only asks for the given intents.
    fn of_effects(effects: Vec<EffectKind>) -> (r: Outcome)
        ensures
            r.effects == effects,
            quiet(r),
    {
        Outcome {
            effects,
            submission: None,
            history_push: None,
            query_completion: None,
            signal: Signal::Continue,
        }
    }

    /// An outcome that asks nothing at all.
    fn empty() -> (r: Outcome)
        ensures
            quiet(r),
            r.effects@ =~= Seq::<EffectKind>::empty(),
    {
        Outcome {
            effects: Vec::new(),
            submission: None,
            history_push: None,
            query_completion: None,
            signal: Signal::Continue,
        }
    }
}

/// The buffer obtained by typing the characters of `t` one at a time at
/// position `p`: each keystroke inserts one character and advances.
pub open spec fn typed_chars(s: Seq<char>, p: int, t: Seq<char>) -> Seq<char>
    decreases t.len(),
{
    if t.len() == 0 {
        s
    } else {
        typed_chars(s.insert(p, t[0]), p + 1, t.subrange(1, t.len() as int))
    }
}

/// Round trip: accepting a suggestion is the same as typing it manually.
/// Replaying the suggestion's characters one at a time through the ordinary
/// insertion path produces exactly the buffer with the suggestion text
/// spliced in at the edit position — no privileged bulk-insert exists.
pub proof fn lemma_accept_is_manual_typing(s: Seq<char>, p: int, t: Seq<char>)
    requires
        0 <= p <= s.len(),
    ensures
        typed_chars(s, p, t) == s.subrange(0, p) + t + s.subrange(p, s.len() as int),
    decreases t.len(),
{
    if t.len() == 0 {
        assert(s.subrange(0, p) + t + s.subrange(p, s.len() as int) =~= s);
    } else {
        let s1 = s.insert(p, t[0]);
        let t1 = t.subrange(1, t.len() as int);
        s.insert_ensures(p, t[0]);
        lemma_accept_is_manual_typing(s1, p + 1, t1);
        assert(s1.subrange(0, p + 1) =~= s.subrange(0, p).push(t[0]));
        assert(s1.subrange(p + 1, s1.len() as int) =~= s.subrange(p, s.len() as int));
        assert(s.subrange(0, p).push(t[0]) + t1 + s.subrange(p, s.len() as int) =~= s.subrange(0, p)
            + t + s.subrange(p, s.len() as int));
    }
}

/// Where a leftward word jump from position `q` ends: keep stepping left
/// while the character before the position stays in class `cls`.
pub open spec fn scan_left(s: Seq<char>, q: int, cls: CharClass) -> int
    decreases q,
{
    if q <= 0 {
        0
    } else if q - 1 < s.len() && class_of(s[q - 1]) == cls {
        scan_left(s, q - 1, cls)
    } else {
        q
    }
}

/// Where a rightward word jump from position `q` ends: keep stepping right
/// while the character at the position stays in class `cls`.
pub open spec fn scan_right(s: Seq<char>, q: int, cls: CharClass) -> int
    decreases s.len() - q,
{
    if q < 0 || q >= s.len() {
        q
    } else if class_of(s[q]) == cls {
        scan_right(s, q + 1, cls)
    } else {
        q
    }
}

/// The end of the logical line containing `p`: the next newline at or
/// after `p`, or the end of the buffer.
pub open spec fn line_end_of(s: Seq<char>, p: int) -> int
    decreases s.len() - p,
{
    if p < 0 || p >= s.len() {
        p
    } else if s[p] == '\n' {
        p
    } else {
        line_end_of(s, p + 1)
    }
}

/// A printable character was typed: inserted at the edit position, the
/// cursor advanced, history recall cancelled, any suggestion invalidated.
pub open spec fn character_post(
    pre: InputDispatcher,
    post: InputDispatcher,
    out: Outcome,
    c: char,
) -> bool {
    &&& post.buffer@ == pre.buffer@.insert(pre.buffer.pos as int, c)
    &&& post.buffer.pos == pre.buffer.pos + 1
    &&& suggestions_invalidated(pre, post)
    &&& config_kept(pre, post)
    &&& quiet(out)
    &&& out.effects@ =~= seq![EffectKind::PrintInput, EffectKind::UnlockHistory]
}

/// Alt+Enter: a literal newline, never a submission.
pub open spec fn alt_enter_post(pre: InputDispatcher, post: InputDispatcher, out: Outcome) -> bool {
    &&& post.buffer@ == pre.buffer@.insert(pre.buffer.pos as int, '\n')
    &&& post.buffer.pos == pre.buffer.pos + 1
    &&& suggestions_invalidated(pre, post)
    &&& config_kept(pre, post)
    &&& quiet(out)
    &&& out.effects@ =~= seq![EffectKind::PrintInput]
}

/// Forward delete: removes the character at the edit position when the
/// buffer is non-empty; a no-op on an empty buffer.
pub open spec fn del_post(pre: InputDispatcher, post: InputDispatcher, out: Outcome) -> bool {
    &&& post.buffer.pos == pre.buffer.pos
    &&& config_kept(pre, post)
    &&& quiet(out)
    &&& if pre.buffer@.len() == 0 {
        &&& post.buffer@ == pre.buffer@
        &&& suggestions_kept(pre, post)
        &&& out.effects@ =~= Seq::<EffectKind>::empty()
    } else {
        &&& post.buffer@ == if pre.buffer.pos < pre.buffer@.len() {
            pre.buffer@.remove(pre.buffer.pos as int)
        } else {
            pre.buffer@
        }
        &&& suggestions_invalidated(pre, post)
        &&& out.effects@ =~= seq![EffectKind::PrintInput, EffectKind::UnlockHistory]
    }
}

/// Backspace: moves back over the previous character and deletes it; a
/// no-op at the start of the buffer.
pub open spec fn backspace_post(pre: InputDispatcher, post: InputDispatcher, out: Outcome) -> bool {
    &&& config_kept(pre, post)
    &&& quiet(out)
    &&& if pre.buffer.pos == 0 {
        &&& post.buffer@ == pre.buffer@
        &&& post.buffer.pos == 0
        &&& suggestions_kept(pre, post)
        &&& out.effects@ =~= Seq::<EffectKind>::empty()
    } else {
        &&& post.buffer@ == pre.buffer@.remove(pre.buffer.pos - 1)
        &&& post.buffer.pos == pre.buffer.pos - 1
        &&& suggestions_invalidated(pre, post)
        &&& out.effects@ =~= seq![EffectKind::PrintInput, EffectKind::UnlockHistory]
    }
}

/// Left arrow: drops any displayed suggestion (re-rendering without it),
/// then moves one step backward unless already at the start.
pub open spec fn left_post(pre: InputDispatcher, post: InputDispatcher, out: Outcome) -> bool {
    &&& post.buffer@ == pre.buffer@
    &&& post.buffer.pos == if pre.buffer.pos > 0 {
        pre.buffer.pos - 1
    } else {
        0int
    }
    &&& suggestions_invalidated_keeping_lock(pre, post)
    &&& config_kept(pre, post)
    &&& quiet(out)
    &&& out.effects@ =~= if pre.suggestions.active is Some {
        seq![EffectKind::PrintInput]
    } else {
        Seq::<EffectKind>::empty()
    }
}

/// The displayed suggestion is taken away; the provider lock, candidates
/// and cycle index survive.
pub open spec fn suggestions_invalidated_keeping_lock(
    pre: InputDispatcher,
    post: InputDispatcher,
) -> bool {
    &&& post.suggestions.active is None
    &&& post.suggestions.locked == pre.suggestions.locked
    &&& post.suggestions.candidates@ == pre.suggestions.candidates@
    &&& post.suggestions.next_idx == pre.suggestions.next_idx
    &&& post.suggestions.snapshot@ == pre.suggestions.snapshot@
}

/// Right arrow: accepts the displayed suggestion by replaying it through
/// the character-insertion path; with no suggestion, one step forward
/// unless already at the end.
pub open spec fn right_post(pre: InputDispatcher, post: InputDispatcher, out: Outcome) -> bool {
    &&& config_kept(pre, post)
    &&& quiet(out)
    &&& if pre.suggestions.active is Some {
        &&& post.buffer@ == pre.buffer@.subrange(0, pre.buffer.pos as int) + pre.active_text()
            + pre.buffer@.subrange(pre.buffer.pos as int, pre.buffer@.len() as int)
        &&& post.buffer@ == typed_chars(pre.buffer@, pre.buffer.pos as int, pre.active_text())
        &&& post.buffer.pos == pre.buffer.pos + pre.active_text().len()
        &&& post.suggestions.active is None
        &&& post.suggestions.locked == (if pre.active_text().len() == 0 {
            pre.suggestions.locked
        } else {
            false
        })
        &&& post.suggestions.candidates@ == pre.suggestions.candidates@
        &&& post.suggestions.next_idx == pre.suggestions.next_idx
        &&& post.suggestions.snapshot@ == pre.suggestions.snapshot@
        &&& forall|i: int|
            0 <= i < out.effects@.len() ==> (out.effects@[i] == EffectKind::PrintInput
                || out.effects@[i] == EffectKind::UnlockHistory)
    } else {
        &&& post.buffer@ == pre.buffer@
        &&& post.buffer.pos == if pre.buffer.pos < pre.buffer@.len() {
            pre.buffer.pos + 1
        } else {
            pre.buffer.pos as int
        }
        &&& suggestions_kept(pre, post)
        &&& out.effects@ =~= Seq::<EffectKind>::empty()
    }
}

/// Home: step left (with Left's suggestion-clearing side effect) until the
/// cursor reports the start of the logical line; already there, a no-op.
pub open spec fn home_post(pre: InputDispatcher, post: InputDispatcher, out: Outcome) -> bool {
    &&& post.buffer@ == pre.buffer@
    &&& post.buffer.pos == line_start_of(pre.buffer@, pre.buffer.pos as int)
    &&& post.buffer.spec_at_line_start()
    &&& config_kept(pre, post)
    &&& quiet(out)
    &&& post.suggestions.locked == pre.suggestions.locked
    &&& post.suggestions.candidates@ == pre.suggestions.candidates@
    &&& post.suggestions.next_idx == pre.suggestions.next_idx
    &&& post.suggestions.snapshot@ == pre.suggestions.snapshot@
    &&& if col_of(pre.buffer@, pre.buffer.pos as int) == 0 {
        &&& post == pre
        &&& out.effects@ =~= Seq::<EffectKind>::empty()
    } else {
        &&& post.suggestions.active is None
        &&& out.effects@ =~= if pre.suggestions.active is Some {
            seq![EffectKind::PrintInput]
        } else {
            Seq::<EffectKind>::empty()
        }
    }
}

/// End: move forward to the end of the logical line, then accept any
/// displayed suggestion exactly as the Right arrow does; at the line end
/// with no suggestion, a no-op.
pub open spec fn end_post(pre: InputDispatcher, post: InputDispatcher, out: Outcome) -> bool {
    &&& config_kept(pre, post)
    &&& quiet(out)
    &&& {
        let e: int = line_end_of(pre.buffer@, pre.buffer.pos as int);
        if pre.suggestions.active is Some {
            &&& post.buffer@ == pre.buffer@.subrange(0, e) + pre.active_text()
                + pre.buffer@.subrange(e, pre.buffer@.len() as int)
            &&& post.buffer.pos == e + pre.active_text().len()
            &&& post.suggestions.active is None
            &&& forall|i: int|
                0 <= i < out.effects@.len() ==> (out.effects@[i] == EffectKind::PrintInput
                    || out.effects@[i] == EffectKind::UnlockHistory)
        } else {
            &&& post.buffer@ == pre.buffer@
            &&& post.buffer.pos == e
            &&& suggestions_kept(pre, post)
            &&& out.effects@ =~= Seq::<EffectKind>::empty()
            &&& (pre.buffer.spec_at_line_end() ==> post == pre)
        }
    }
}

/// Ctrl+Left: one ordinary left step, then keep stepping left while the
/// character before the position stays in the class of the character the
/// first step landed on (space run, identifier run, or punctuation run).
pub open spec fn ctrl_left_post(pre: InputDispatcher, post: InputDispatcher, out: Outcome) -> bool {
    &&& post.buffer@ == pre.buffer@
    &&& post.buffer.pos == if pre.buffer.pos == 0 {
        0int
    } else {
        scan_left(pre.buffer@, pre.buffer.pos - 1, class_of(pre.buffer@[pre.buffer.pos - 1]))
    }
    &&& suggestions_invalidated_keeping_lock(pre, post)
    &&& config_kept(pre, post)
    &&& quiet(out)
    &&& out.effects@ =~= if pre.suggestions.active is Some {
        seq![EffectKind::PrintInput]
    } else {
        Seq::<EffectKind>::empty()
    }
}

/// Ctrl+Right: one ordinary right step (which may accept a suggestion),
/// then keep stepping right while the character at the position stays in
/// the class of the character the first step landed on.
pub open spec fn ctrl_right_post(pre: InputDispatcher, post: InputDispatcher, out: Outcome) -> bool {
    &&& config_kept(pre, post)
    &&& quiet(out)
    &&& {
        let s1 = if pre.suggestions.active is Some {
            pre.buffer@.subrange(0, pre.buffer.pos as int) + pre.active_text()
                + pre.buffer@.subrange(pre.buffer.pos as int, pre.buffer@.len() as int)
        } else {
            pre.buffer@
        };
        let p1: int = if pre.suggestions.active is Some {
            pre.buffer.pos + pre.active_text().len()
        } else if pre.buffer.pos < pre.buffer@.len() {
            pre.buffer.pos + 1 as int
        } else {
            pre.buffer.pos as int
        };
        &&& post.buffer@ == s1
        &&& post.buffer.pos == if p1 < s1.len() {
            scan_right(s1, p1, class_of(s1[p1]))
        } else {
            p1
        }
        &&& if pre.suggestions.active is Some {
            &&& post.suggestions.active is None
            &&& forall|i: int|
                0 <= i < out.effects@.len() ==> (out.effects@[i] == EffectKind::PrintInput
                    || out.effects@[i] == EffectKind::UnlockHistory)
        } else {
            &&& suggestions_kept(pre, post)
            &&& out.effects@ =~= Seq::<EffectKind>::empty()
        }
    }
}

/// Ctrl+C: the buffer is cleared unconditionally, the cursor returns to
/// the prompt start, history recall is cancelled and the suggestion
/// invalidated; the prompt and the (empty) input are re-rendered.
pub open spec fn ctrl_c_post(pre: InputDispatcher, post: InputDispatcher, out: Outcome) -> bool {
    &&& post.buffer@ == Seq::<char>::empty()
    &&& post.buffer.pos == 0
    &&& post.cursor.row == 0
    &&& post.cursor.column == post.cursor.start_column
    &&& suggestions_invalidated(pre, post)
    &&& config_kept(pre, post)
    &&& quiet(out)
    &&& out.effects@ =~= seq![
        EffectKind::UnlockHistory,
        EffectKind::PrintPrompt,
        EffectKind::ClearFromCursorDown,
        EffectKind::PrintInput,
    ]
}

/// Ctrl+L: clear buffer and screen, redraw an empty prompt.
pub open spec fn ctrl_l_post(pre: InputDispatcher, post: InputDispatcher, out: Outcome) -> bool {
    &&& post.buffer@ == Seq::<char>::empty()
    &&& post.buffer.pos == 0
    &&& post.cursor.row == 0
    &&& post.cursor.column == post.cursor.start_column
    &&& suggestions_invalidated(pre, post)
    &&& config_kept(pre, post)
    &&& quiet(out)
    &&& out.effects@ =~= seq![
        EffectKind::ClearScreen,
        EffectKind::PrintPrompt,
        EffectKind::PrintInput,
    ]
}

/// Ctrl+Z: where the platform supports it, clear the screen, suspend, and
/// redraw an empty prompt on resume; elsewhere a no-op.
pub open spec fn ctrl_z_post(pre: InputDispatcher, post: InputDispatcher, out: Outcome) -> bool {
    if pre.suspend_supported {
        &&& post.buffer@ == Seq::<char>::empty()
        &&& post.buffer.pos == 0
        &&& post.cursor.row == 0
        &&& post.cursor.column == post.cursor.start_column
        &&& suggestions_invalidated(pre, post)
        &&& config_kept(pre, post)
        &&& quiet(out)
        &&& out.effects@ =~= seq![
            EffectKind::ClearScreen,
            EffectKind::Suspend,
            EffectKind::ClearScreen,
            EffectKind::PrintPrompt,
            EffectKind::PrintInput,
        ]
    } else {
        ignored(pre, post, out)
    }
}

impl InputDispatcher {
    /// Handle a printable character.
    pub fn handle_character(&mut self, c: char) -> (out: Outcome)
        requires
            old(self).wf(),
            old(self).can_grow(1),
        ensures
            final(self).wf(),
            character_post(*old(self), *final(self), out, c),
    {
        self.insert_char(c);
        let mut effects: Vec<EffectKind> = Vec::new();
        effects.push(EffectKind::PrintInput);
        effects.push(EffectKind::UnlockHistory);
        Outcome::of_effects(effects)
    }

    /// Handle Alt+Enter: always insert a literal newline.
    pub fn handle_alt_enter(&mut self) -> (out: Outcome)
        requires
            old(self).wf(),
            old(self).can_grow(1),
        ensures
            final(self).wf(),
            alt_enter_post(*old(self), *final(self), out),
    {
        self.insert_char('\n');
        let mut effects: Vec<EffectKind> = Vec::new();
        effects.push(EffectKind::PrintInput);
        Outcome::of_effects(effects)
    }

    /// Handle the Delete key.
    pub fn handle_del(&mut self) -> (out: Outcome)
        requires
            old(self).wf(),
        ensures
            final(self).wf(),
            del_post(*old(self), *final(self), out),
    {
        if self.buffer.is_empty() {
            return Outcome::empty();
        }
        let ghost s0 = self.buffer@;
        let ghost p0: int = self.buffer.pos as int;
        self.buffer.remove_current_char();
        proof {
            if p0 < s0.len() {
                lemma_line_start_prefix(s0.remove(p0), s0, p0);
                lemma_row_prefix(s0.remove(p0), s0, p0);
            }
        }
        self.suggestions.invalidate();
        let mut effects: Vec<EffectKind> = Vec::new();
        effects.push(EffectKind::PrintInput);
        effects.push(EffectKind::UnlockHistory);
        Outcome::of_effects(effects)
    }

    /// Handle Backspace.
    pub fn handle_backspace(&mut self) -> (out: Outcome)
        requires
            old(self).wf(),
            old(self).can_grow(0),
        ensures
            final(self).wf(),
            backspace_post(*old(self), *final(self), out),
    {
        if self.buffer.is_at_start() {
            return Outcome::empty();
        }
        self.step_backward();
        let ghost s0 = self.buffer@;
        let ghost p0: int = self.buffer.pos as int;
        self.buffer.remove_current_char();
        proof {
            lemma_line_start_prefix(s0.remove(p0), s0, p0);
            lemma_row_prefix(s0.remove(p0), s0, p0);
        }
        self.suggestions.invalidate();
        let mut effects: Vec<EffectKind> = Vec::new();
        effects.push(EffectKind::PrintInput);
        effects.push(EffectKind::UnlockHistory);
        Outcome::of_effects(effects)
    }

    /// Take away any displayed suggestion and, if one was displayed, ask
    /// for a re-render without it.
    pub fn remove_racer_sugesstion_and_reprint(&mut self) -> (out: Outcome)
        requires
            old(self).wf(),
        ensures
            final(self).wf(),
            final(self).buffer@ == old(self).buffer@,
            final(self).buffer.pos == old(self).buffer.pos,
            final(self).cursor == old(self).cursor,
            suggestions_invalidated_keeping_lock(*old(self), *final(self)),
            config_kept(*old(self), *final(self)),
            quiet(out),
            out.effects@ =~= if old(self).suggestions.active is Some {
                seq![EffectKind::PrintInput]
            } else {
                Seq::<EffectKind>::empty()
            },
    {
        let taken = self.suggestions.take_active();
        let mut effects: Vec<EffectKind> = Vec::new();
        if taken.is_some() {
            effects.push(EffectKind::PrintInput);
        }
        Outcome::of_effects(effects)
    }

    /// Handle the Left arrow.
    pub fn handle_left(&mut self) -> (out: Outcome)
        requires
            old(self).wf(),
            old(self).can_grow(0),
        ensures
            final(self).wf(),
            left_post(*old(self), *final(self), out),
    {
        let out = self.remove_racer_sugesstion_and_reprint();
        if !self.buffer.is_at_start() && !self.buffer.is_empty() {
            self.step_backward();
        }
        out
    }

    /// Handle Ctrl+C: interrupt the current input.
    pub fn handle_ctrl_c(&mut self) -> (out: Outcome)
        requires
            old(self).wf(),
        ensures
            final(self).wf(),
            ctrl_c_post(*old(self), *final(self), out),
    {
        self.buffer.clear();
        self.suggestions.invalidate();
        self.cursor.goto_start();
        let mut effects: Vec<EffectKind> = Vec::new();
        effects.push(EffectKind::UnlockHistory);
        effects.push(EffectKind::PrintPrompt);
        effects.push(EffectKind::ClearFromCursorDown);
        effects.push(EffectKind::PrintInput);
        Outcome::of_effects(effects)
    }

    /// Handle Ctrl+L: clear buffer and screen, redraw an empty prompt.
    pub fn handle_ctrl_l(&mut self) -> (out: Outcome)
        requires
            old(self).wf(),
        ensures
            final(self).wf(),
            ctrl_l_post(*old(self), *final(self), out),
    {
        self.buffer.clear();
        self.buffer.goto_start();
        self.suggestions.invalidate();
        self.cursor.goto_start();
        let mut effects: Vec<EffectKind> = Vec::new();
        effects.push(EffectKind::ClearScreen);
        effects.push(EffectKind::PrintPrompt);
        effects.push(EffectKind::PrintInput);
        Outcome::of_effects(effects)
    }

    /// The text of the displayed suggestion, empty when none is displayed.
    pub open spec fn active_text(self) -> Seq<char> {
        match self.suggestions.active {
            Some(v) => v@,
            None => Seq::<char>::empty(),
        }
    }

    /// Accept the displayed suggestion by replaying its characters through
    /// the ordinary character-insertion path, so that cursor sync, history
    /// unlocking and suggestion invalidation apply exactly as for typed
    /// text; there is no privileged bulk-insert path.
    fn accept_active_suggestion(&mut self) -> (out_effects: Vec<EffectKind>)
        requires
            old(self).wf(),
            old(self).suggestions.active is Some,
            old(self).can_grow(old(self).active_text().len()),
        ensures
            final(self).wf(),
            final(self).buffer@ == old(self).buffer@.subrange(0, old(self).buffer.pos as int)
                + old(self).active_text() + old(self).buffer@.subrange(
                old(self).buffer.pos as int,
                old(self).buffer@.len() as int,
            ),
            final(self).buffer@ == typed_chars(
                old(self).buffer@,
                old(self).buffer.pos as int,
                old(self).active_text(),
            ),
            final(self).buffer.pos == old(self).buffer.pos + old(self).active_text().len(),
            final(self).suggestions.active is None,
            final(self).suggestions.locked == (if old(self).active_text().len() == 0 {
                old(self).suggestions.locked
            } else {
                false
            }),
            final(self).suggestions.candidates@ == old(self).suggestions.candidates@,
            final(self).suggestions.next_idx == old(self).suggestions.next_idx,
            final(self).suggestions.snapshot@ == old(self).suggestions.snapshot@,
            config_kept(*old(self), *final(self)),
            forall|i: int|
                0 <= i < out_effects@.len() ==> (out_effects@[i] == EffectKind::PrintInput
                    || out_effects@[i] == EffectKind::UnlockHistory),
    {
        let sug = self.suggestions.take_active().unwrap();
        let ghost orig = *self;
        let ghost pre_sub0 = orig.buffer@.subrange(0, orig.buffer.pos as int);
        let ghost pre_sub1 = orig.buffer@.subrange(orig.buffer.pos as int, orig.buffer@.len() as int);
        let mut effects: Vec<EffectKind> = Vec::new();
        let mut i: usize = 0;
        proof {
            assert(pre_sub0 + sug@.subrange(0, 0) + pre_sub1 =~= orig.buffer@);
        }
        while i < sug.len()
            invariant
                i <= sug@.len(),
                self.wf(),
                sug@ == old(self).active_text(),
                self.buffer@ == pre_sub0 + sug@.subrange(0, i as int) + pre_sub1,
                self.buffer@.len() == orig.buffer@.len() + i,
                self.buffer.pos == orig.buffer.pos + i,
                pre_sub0.len() == orig.buffer.pos,
                orig.buffer.pos <= orig.buffer@.len(),
                orig.can_grow(sug@.len() as nat),
                self.suggestions.active is None,
                self.suggestions.locked == (if i == 0 {
                    orig.suggestions.locked
                } else {
                    false
                }),
                self.suggestions.candidates@ == orig.suggestions.candidates@,
                self.suggestions.next_idx == orig.suggestions.next_idx,
                self.suggestions.snapshot@ == orig.suggestions.snapshot@,
                config_kept(orig, *self),
                forall|k: int|
                    0 <= k < effects@.len() ==> (effects@[k] == EffectKind::PrintInput
                        || effects@[k] == EffectKind::UnlockHistory),
            decreases sug@.len() - i,
        {
            let c = sug[i];
            let mut o = self.handle_character(c);
            effects.append(&mut o.effects);
            proof {
                lemma_insert_mid(pre_sub0, sug@.subrange(0, i as int), pre_sub1, sug@[i as int]);
                assert(sug@.subrange(0, i as int).push(sug@[i as int]) =~= sug@.subrange(
                    0,
                    i as int + 1,
                ));
            }
            i = i + 1;
        }
        proof {
            assert(sug@.subrange(0, sug@.len() as int) =~= sug@);
            lemma_accept_is_manual_typing(orig.buffer@, orig.buffer.pos as int, sug@);
        }
        effects
    }

    /// True when a character precedes the edit position and is of class `cls`.
    fn prev_in_class(&self, cls: CharClass) -> (r: bool)
        requires
            self.buffer.wf(),
        ensures
            r == (self.buffer.pos > 0 && class_of(self.buffer@[self.buffer.pos - 1]) == cls),
    {
        match self.buffer.previous_char() {
            Some(pc) => char_class(pc) == cls,
            None => false,
        }
    }

    /// True when a character sits at the edit position and is of class `cls`.
    fn curr_in_class(&self, cls: CharClass) -> (r: bool)
        requires
            self.buffer.wf(),
        ensures
            r == (self.buffer.pos < self.buffer@.len() && class_of(
                self.buffer@[self.buffer.pos as int],
            ) == cls),
    {
        match self.buffer.current_char() {
            Some(cc) => char_class(cc) == cls,
            None => false,
        }
    }

    /// Handle the Right arrow: accept the displayed suggestion, or move one
    /// step forward.
    pub fn handle_right(&mut self) -> (out: Outcome)
        requires
            old(self).wf(),
            old(self).can_grow(old(self).active_text().len()),
        ensures
            final(self).wf(),
            final(self).can_grow(0),
            right_post(*old(self), *final(self), out),
    {
        if self.suggestions.active.is_some() {
            let effects = self.accept_active_suggestion();
            Outcome::of_effects(effects)
        } else if !self.buffer.is_at_end() {
            self.step_forward();
            Outcome::empty()
        } else {
            Outcome::empty()
        }
    }

    /// Handle the Home key: repeat the Left handler until the cursor
    /// reports the start of the line.
    pub fn handle_home_key(&mut self) -> (out: Outcome)
        requires
            old(self).wf(),
            old(self).can_grow(0),
        ensures
            final(self).wf(),
            home_post(*old(self), *final(self), out),
    {
        let ghost orig = *self;
        let mut effects: Vec<EffectKind> = Vec::new();
        while !self.cursor.is_at_line_start()
            invariant
                self.wf(),
                self.buffer@ == orig.buffer@,
                config_kept(orig, *self),
                orig.can_grow(0),
                self.buffer.pos <= orig.buffer.pos,
                line_start_of(self.buffer@, self.buffer.pos as int) == line_start_of(
                    orig.buffer@,
                    orig.buffer.pos as int,
                ),
                self.suggestions.locked == orig.suggestions.locked,
                self.suggestions.candidates@ == orig.suggestions.candidates@,
                self.suggestions.next_idx == orig.suggestions.next_idx,
                self.suggestions.snapshot@ == orig.suggestions.snapshot@,
                self.buffer.pos == orig.buffer.pos ==> *self == orig && effects@
                    =~= Seq::<EffectKind>::empty(),
                self.buffer.pos < orig.buffer.pos ==> self.suggestions.active is None && (effects@
                    =~= if orig.suggestions.active is Some {
                    seq![EffectKind::PrintInput]
                } else {
                    Seq::<EffectKind>::empty()
                }),
            decreases self.buffer.pos,
        {
            proof {
                lemma_line_start_bounds(self.buffer@, self.buffer.pos as int);
                lemma_at_line_start_iff(self.buffer@, self.buffer.pos as int);
            }
            let mut o = self.handle_left();
            effects.append(&mut o.effects);
        }
        proof {
            lemma_line_start_bounds(self.buffer@, self.buffer.pos as int);
            lemma_at_line_start_iff(self.buffer@, self.buffer.pos as int);
            lemma_at_line_start_iff(orig.buffer@, orig.buffer.pos as int);
        }
        Outcome::of_effects(effects)
    }

    /// Handle the End key: move forward to the end of the logical line,
    /// then accept any displayed suggestion as the Right arrow does.
    pub fn handle_end_key(&mut self) -> (out: Outcome)
        requires
            old(self).wf(),
            old(self).can_grow(old(self).active_text().len()),
        ensures
            final(self).wf(),
            end_post(*old(self), *final(self), out),
    {
        let ghost orig = *self;
        while !self.buffer.is_empty() && !self.buffer.is_at_line_end()
            invariant
                self.wf(),
                self.buffer@ == orig.buffer@,
                orig.buffer.pos <= self.buffer.pos,
                config_kept(orig, *self),
                suggestions_kept(orig, *self),
                orig.can_grow(orig.active_text().len()),
                line_end_of(self.buffer@, self.buffer.pos as int) == line_end_of(
                    orig.buffer@,
                    orig.buffer.pos as int,
                ),
                orig.buffer.pos == self.buffer.pos ==> *self == orig,
            decreases self.buffer@.len() - self.buffer.pos,
        {
            self.step_forward();
        }
        if self.suggestions.active.is_some() {
            let effects = self.accept_active_suggestion();
            Outcome::of_effects(effects)
        } else {
            Outcome::empty()
        }
    }

    /// Handle Ctrl+Left: a word jump to the left.
    pub fn handle_ctrl_left(&mut self) -> (out: Outcome)
        requires
            old(self).wf(),
            old(self).can_grow(0),
        ensures
            final(self).wf(),
            ctrl_left_post(*old(self), *final(self), out),
    {
        let ghost orig = *self;
        let out = self.handle_left();
        let ghost p1: int = self.buffer.pos as int;
        match self.buffer.current_char() {
            Some(c) => {
                let cls = char_class(c);
                while self.prev_in_class(cls)
                    invariant
                        self.wf(),
                        self.buffer@ == orig.buffer@,
                        config_kept(orig, *self),
                        orig.can_grow(0),
                        suggestions_invalidated_keeping_lock(orig, *self),
                        self.buffer.pos <= p1,
                        0 <= p1 < orig.buffer@.len(),
                        cls == class_of(orig.buffer@[p1]),
                        scan_left(self.buffer@, self.buffer.pos as int, cls) == scan_left(
                            orig.buffer@,
                            p1,
                            cls,
                        ),
                    decreases self.buffer.pos,
                {
                    self.step_backward();
                }
            },
            None => {},
        }
        out
    }

    /// Handle Ctrl+Right: a word jump to the right.
    pub fn handle_ctrl_right(&mut self) -> (out: Outcome)
        requires
            old(self).wf(),
            old(self).can_grow(old(self).active_text().len()),
        ensures
            final(self).wf(),
            ctrl_right_post(*old(self), *final(self), out),
    {
        let ghost orig = *self;
        let out = self.handle_right();
        let ghost mid = *self;
        match self.buffer.current_char() {
            Some(c) => {
                let cls = char_class(c);
                while self.curr_in_class(cls)
                    invariant
                        self.wf(),
                        self.can_grow(0),
                        self.buffer@ == mid.buffer@,
                        mid.buffer.pos <= self.buffer.pos,
                        mid.buffer.pos < mid.buffer@.len(),
                        config_kept(mid, *self),
                        suggestions_kept(mid, *self),
                        cls == class_of(mid.buffer@[mid.buffer.pos as int]),
                        scan_right(self.buffer@, self.buffer.pos as int, cls) == scan_right(
                            mid.buffer@,
                            mid.buffer.pos as int,
                            cls,
                        ),
                    decreases self.buffer@.len() - self.buffer.pos,
                {
                    self.step_forward();
                }
            },
            None => {},
        }
        out
    }

    /// Handle Ctrl+Z: suspend where supported, then redraw like Ctrl+L.
    pub fn handle_ctrl_z(&mut self) -> (out: Outcome)
        requires
            old(self).wf(),
        ensures
            final(self).wf(),
            ctrl_z_post(*old(self), *final(self), out),
    {
        if !self.suspend_supported {
            return Outcome::empty();
        }
        let mut effects: Vec<EffectKind> = Vec::new();
        effects.push(EffectKind::ClearScreen);
        effects.push(EffectKind::Suspend);
        let mut redraw = self.handle_ctrl_l();
        effects.append(&mut redraw.effects);
        Outcome::of_effects(effects)
    }

    /// Insert a run of characters at the edit position, one `insert_char`
    /// at a time.
    fn insert_run(&mut self, text: &Vec<char>)
        requires
            old(self).wf(),
            old(self).can_grow(text@.len()),
            text@.len() > 0,
        ensures
            final(self).wf(),
            final(self).buffer@ == old(self).buffer@.subrange(0, old(self).buffer.pos as int)
                + text@ + old(self).buffer@.subrange(
                old(self).buffer.pos as int,
                old(self).buffer@.len() as int,
            ),
            final(self).buffer.pos == old(self).buffer.pos + text@.len(),
            suggestions_invalidated(*old(self), *final(self)),
            config_kept(*old(self), *final(self)),
    {
        let ghost orig = *self;
        let ghost pre_sub0 = orig.buffer@.subrange(0, orig.buffer.pos as int);
        let ghost pre_sub1 = orig.buffer@.subrange(orig.buffer.pos as int, orig.buffer@.len() as int);
        let mut i: usize = 0;
        proof {
            assert(pre_sub0 + text@.subrange(0, 0) + pre_sub1 =~= orig.buffer@);
        }
        while i < text.len()
            invariant
                i <= text@.len(),
                0 < text@.len(),
                self.wf(),
                self.buffer@ == pre_sub0 + text@.subrange(0, i as int) + pre_sub1,
                self.buffer@.len() == orig.buffer@.len() + i,
                self.buffer.pos == orig.buffer.pos + i,
                pre_sub0.len() == orig.buffer.pos,
                orig.buffer.pos <= orig.buffer@.len(),
                orig.can_grow(text@.len() as nat),
                i > 0 ==> suggestions_invalidated(orig, *self),
                i == 0 ==> suggestions_kept(orig, *self),
                config_kept(orig, *self),
            decreases text@.len() - i,
        {
            let c = text[i];
            self.insert_char(c);
            proof {
                lemma_insert_mid(pre_sub0, text@.subrange(0, i as int), pre_sub1, text@[i as int]);
                assert(text@.subrange(0, i as int).push(text@[i as int]) =~= text@.subrange(
                    0,
                    i as int + 1,
                ));
            }
            i = i + 1;
        }
        proof {
            assert(text@.subrange(0, text@.len() as int) =~= text@);
        }
    }

    /// Handle Tab: literal indentation at a line start; otherwise cycle the
    /// locked suggestion forward or ask the host to query the provider.
    pub fn handle_tab(&mut self) -> (out: Outcome)
        requires
            old(self).wf(),
            old(self).can_grow(4),
        ensures
            final(self).wf(),
            tab_post(*old(self), *final(self), out),
    {
        if self.buffer.is_at_string_line_start() {
            let mut tab: Vec<char> = Vec::new();
            tab.push(' ');
            tab.push(' ');
            tab.push(' ');
            tab.push('\t');
            proof {
                assert(tab@ =~= tab_text());
            }
            self.insert_run(&tab);
            let mut effects: Vec<EffectKind> = Vec::new();
            effects.push(EffectKind::PrintInput);
            return Outcome::of_effects(effects);
        }
        if self.suggestions.locked {
            let shown = self.suggestions.cycle(CycleDirection::Down);
            let mut effects: Vec<EffectKind> = Vec::new();
            if shown {
                effects.push(EffectKind::ShowSuggestion);
            }
            Outcome::of_effects(effects)
        } else {
            Outcome {
                effects: Vec::new(),
                submission: None,
                history_push: None,
                query_completion: Some(CycleDirection::Down),
                signal: Signal::Continue,
            }
        }
    }

    /// Handle Shift+Tab: cycle the locked suggestion backward or ask the
    /// host to query the provider; never inserts indentation.
    pub fn handle_back_tab(&mut self) -> (out: Outcome)
        requires
            old(self).wf(),
        ensures
            final(self).wf(),
            back_tab_post(*old(self), *final(self), out),
    {
        if self.suggestions.locked {
            let shown = self.suggestions.cycle(CycleDirection::Up);
            let mut effects: Vec<EffectKind> = Vec::new();
            if shown {
                effects.push(EffectKind::ShowSuggestion);
            }
            Outcome::of_effects(effects)
        } else {
            Outcome {
                effects: Vec::new(),
                submission: None,
                history_push: None,
                query_completion: Some(CycleDirection::Up),
                signal: Signal::Continue,
            }
        }
    }

    /// Install the provider's answer to a completion query (unless a locked
    /// candidate list is already displayed), lock further queries out, and
    /// cycle to the first suggestion in the given direction.
    pub fn apply_completions(&mut self, candidates: Vec<String>, direction: CycleDirection) -> (out:
        Outcome)
        requires
            old(self).wf(),
        ensures
            final(self).wf(),
            final(self).buffer@ == old(self).buffer@,
            final(self).buffer.pos == old(self).buffer.pos,
            final(self).cursor == old(self).cursor,
            config_kept(*old(self), *final(self)),
            final(self).suggestions.locked,
            quiet(out),
            final(self).suggestions.snapshot@ == if old(self).suggestions.locked {
                old(self).suggestions.snapshot@
            } else {
                old(self).buffer@
            },
            ({
                let views = if old(self).suggestions.locked {
                    Seq::new(old(self).suggestions.candidates@.len(), |i: int| old(self).suggestions.candidates@[i]@)
                } else {
                    Seq::new(candidates@.len(), |i: int| candidates@[i]@)
                };
                let start: int = if old(self).suggestions.locked {
                    old(self).suggestions.next_idx as int
                } else {
                    0int
                };
                &&& final(self).suggestions.candidates@.len() == views.len()
                &&& (forall|i: int|
                    0 <= i < views.len() ==> final(self).suggestions.candidates@[i]@ == views[i])
                &&& if views.len() == 0 {
                    &&& final(self).suggestions.active == old(self).suggestions.active
                    &&& out.effects@ =~= Seq::<EffectKind>::empty()
                } else {
                    &&& (final(self).suggestions.active matches Some(a) && a@ == views[start])
                    &&& final(self).suggestions.next_idx == step_idx(
                        start,
                        views.len() as int,
                        direction,
                    )
                    &&& out.effects@ =~= seq![EffectKind::ShowSuggestion]
                }
            }),
    {
        if !self.suggestions.locked {
            let mut conv: Vec<Vec<char>> = Vec::new();
            let mut i: usize = 0;
            while i < candidates.len()
                invariant
                    i <= candidates@.len(),
                    conv@.len() == i,
                    forall|j: int| 0 <= j < i ==> conv@[j]@ == candidates@[j]@,
                decreases candidates@.len() - i,
            {
                conv.push(str_to_chars(candidates[i].as_str()));
                i = i + 1;
            }
            let snap = self.buffer.chars.clone();
            proof {
                assert(snap@ =~= self.buffer.chars@);
            }
            self.suggestions.candidates = conv;
            self.suggestions.next_idx = 0;
            self.suggestions.snapshot = snap;
        }
        self.suggestions.locked = true;
        let shown = self.suggestions.cycle(direction);
        let mut effects: Vec<EffectKind> = Vec::new();
        if shown {
            effects.push(EffectKind::ShowSuggestion);
        }
        Outcome::of_effects(effects)
    }

    /// Handle Enter: insert a newline while the input looks incomplete,
    /// otherwise submit the buffer to the evaluator.
    pub fn handle_enter(&mut self, force_eval: bool) -> (out: Outcome)
        requires
            old(self).wf(),
            old(self).can_grow(1),
        ensures
            final(self).wf(),
            enter_post(*old(self), *final(self), out, force_eval),
    {
        let is_cmd = input_is_cmd_or_shell(&self.buffer.chars);
        let incomplete = incomplete_input(&self.buffer.chars);
        if !force_eval && !is_cmd && incomplete {
            self.insert_char('\n');
            let mut effects: Vec<EffectKind> = Vec::new();
            effects.push(EffectKind::UnlockHistory);
            effects.push(EffectKind::PrintInput);
            return Outcome::of_effects(effects);
        }
        let text = self.buffer.to_string();
        let for_history = self.buffer.to_string();
        self.buffer.clear();
        self.cursor.goto_start();
        self.suggestions.invalidate();
        let mut effects: Vec<EffectKind> = Vec::new();
        effects.push(EffectKind::UnlockHistory);
        effects.push(EffectKind::HideCursor);
        effects.push(EffectKind::WriteNewline);
        Outcome {
            effects,
            submission: Some(text),
            history_push: Some(for_history),
            query_completion: None,
            signal: Signal::Continue,
        }
    }

    /// Handle Ctrl+E: submit unconditionally.
    pub fn handle_ctrl_e(&mut self) -> (out: Outcome)
        requires
            old(self).wf(),
            old(self).can_grow(1),
        ensures
            final(self).wf(),
            enter_post(*old(self), *final(self), out, true),
    {
        self.handle_enter(true)
    }

    /// Record the result of an evaluation the host carried out after a
    /// submission: count it and refresh the prompts when it produced
    /// output, then show the cursor again.
    pub fn record_evaluation(&mut self, had_output: bool) -> (out: Outcome)
        requires
            old(self).wf(),
            old(self).op_count < u64::MAX,
        ensures
            final(self).wf(),
            final(self).buffer@ == old(self).buffer@,
            final(self).buffer.pos == old(self).buffer.pos,
            final(self).cursor == old(self).cursor,
            suggestions_kept(*old(self), *final(self)),
            final(self).mode == old(self).mode,
            final(self).suspend_supported == old(self).suspend_supported,
            final(self).op_count == old(self).op_count + (if had_output {
                1int
            } else {
                0int
            }),
            quiet(out),
            out.effects@ =~= if had_output {
                seq![
                    EffectKind::ClearFromCursorDown,
                    EffectKind::PrintOutput,
                    EffectKind::UpdatePrompt,
                    EffectKind::PrintPrompt,
                    EffectKind::ShowCursor,
                ]
            } else {
                seq![EffectKind::PrintPrompt, EffectKind::ShowCursor]
            },
    {
        let mut effects: Vec<EffectKind> = Vec::new();
        if had_output {
            self.op_count = self.op_count + 1;
            effects.push(EffectKind::ClearFromCursorDown);
            effects.push(EffectKind::PrintOutput);
            effects.push(EffectKind::UpdatePrompt);
        }
        effects.push(EffectKind::PrintPrompt);
        effects.push(EffectKind::ShowCursor);
        Outcome::of_effects(effects)
    }

    /// Handle Ctrl+D: ask for exit confirmation on an empty buffer.
    pub fn handle_ctrl_d(&mut self) -> (out: Outcome)
        requires
            old(self).wf(),
        ensures
            final(self).wf(),
            ctrl_d_post(*old(self), *final(self), out),
    {
        if !self.buffer.is_empty() {
            return Outcome::empty();
        }
        self.mode = Mode::ConfirmingExit;
        let mut effects: Vec<EffectKind> = Vec::new();
        effects.push(EffectKind::WriteNewline);
        effects.push(EffectKind::WriteConfirmPrompt);
        Outcome::of_effects(effects)
    }

    /// Resolve the pending exit confirmation with the next event.
    pub fn handle_confirmation(&mut self, ev: InputEvent) -> (out: Outcome)
        requires
            old(self).wf(),
            old(self).mode == Mode::ConfirmingExit,
        ensures
            final(self).wf(),
            confirm_post(*old(self), *final(self), out, ev),
    {
        match ev {
            InputEvent::Character(c) => {
                self.mode = Mode::Editing;
                if c == 'y' || c == 'Y' {
                    Outcome {
                        effects: Vec::new(),
                        submission: None,
                        history_push: None,
                        query_completion: None,
                        signal: Signal::Exit,
                    }
                } else {
                    let mut effects: Vec<EffectKind> = Vec::new();
                    effects.push(EffectKind::WriteNewline);
                    effects.push(EffectKind::WriteNewline);
                    effects.push(EffectKind::PrintPrompt);
                    Outcome::of_effects(effects)
                }
            },
            InputEvent::CtrlD | InputEvent::Enter => {
                self.mode = Mode::Editing;
                Outcome {
                    effects: Vec::new(),
                    submission: None,
                    history_push: None,
                    query_completion: None,
                    signal: Signal::Exit,
                }
            },
            _ => Outcome::empty(),
        }
    }

    /// Handle a resize: record the dimensions, then redraw as Ctrl+C does.
    pub fn handle_resize(&mut self, width: u16, height: u16) -> (out: Outcome)
        requires
            old(self).wf(),
        ensures
            final(self).wf(),
            resize_post(*old(self), *final(self), out, width, height),
    {
        self.cursor.update_dimensions(width, height);
        self.handle_ctrl_c()
    }

    /// Map one decoded input event to its handler.
    pub fn handle_input_event(&mut self, ev: InputEvent) -> (out: Outcome)
        requires
            old(self).wf(),
            old(self).can_grow(4 + old(self).active_text().len()),
        ensures
            final(self).wf(),
            old(self).mode == Mode::ConfirmingExit ==> confirm_post(
                *old(self),
                *final(self),
                out,
                ev,
            ),
            old(self).mode == Mode::Editing ==> match ev {
                InputEvent::Character(c) => character_post(*old(self), *final(self), out, c),
                InputEvent::Enter => enter_post(*old(self), *final(self), out, false),
                InputEvent::ForceEnter => enter_post(*old(self), *final(self), out, true),
                InputEvent::AltEnter => alt_enter_post(*old(self), *final(self), out),
                InputEvent::Tab => tab_post(*old(self), *final(self), out),
                InputEvent::BackTab => back_tab_post(*old(self), *final(self), out),
                InputEvent::Left => left_post(*old(self), *final(self), out),
                InputEvent::Right => right_post(*old(self), *final(self), out),
                InputEvent::CtrlLeft => ctrl_left_post(*old(self), *final(self), out),
                InputEvent::CtrlRight => ctrl_right_post(*old(self), *final(self), out),
                InputEvent::Up => history_post(*old(self), *final(self), out, EffectKind::HistoryUp),
                InputEvent::Down => history_post(
                    *old(self),
                    *final(self),
                    out,
                    EffectKind::HistoryDown,
                ),
                InputEvent::CtrlR => history_post(
                    *old(self),
                    *final(self),
                    out,
                    EffectKind::HistorySearch,
                ),
                InputEvent::Backspace => backspace_post(*old(self), *final(self), out),
                InputEvent::Delete => del_post(*old(self), *final(self), out),
                InputEvent::Home => home_post(*old(self), *final(self), out),
                InputEvent::End => end_post(*old(self), *final(self), out),
                InputEvent::CtrlC => ctrl_c_post(*old(self), *final(self), out),
                InputEvent::CtrlD => ctrl_d_post(*old(self), *final(self), out),
                InputEvent::CtrlZ => ctrl_z_post(*old(self), *final(self), out),
                InputEvent::CtrlL => ctrl_l_post(*old(self), *final(self), out),
                InputEvent::Resize(w, h) => resize_post(*old(self), *final(self), out, w, h),
                InputEvent::CtrlAltChar(c) => character_post(*old(self), *final(self), out, c),
                InputEvent::Other => ignored(*old(self), *final(self), out),
            },
    {
        if matches!(self.mode, Mode::ConfirmingExit) {
            return self.handle_confirmation(ev);
        }
        match ev {
            InputEvent::Character(c) => self.handle_character(c),
            InputEvent::Enter => self.handle_enter(false),
            InputEvent::ForceEnter => self.handle_ctrl_e(),
            InputEvent::AltEnter => self.handle_alt_enter(),
            InputEvent::Tab => self.handle_tab(),
            InputEvent::BackTab => self.handle_back_tab(),
            InputEvent::Left => self.handle_left(),
            InputEvent::Right => self.handle_right(),
            InputEvent::CtrlLeft => self.handle_ctrl_left(),
            InputEvent::CtrlRight => self.handle_ctrl_right(),
            InputEvent::Up => {
                let mut effects: Vec<EffectKind> = Vec::new();
                effects.push(EffectKind::HistoryUp);
                Outcome::of_effects(effects)
            },
            InputEvent::Down => {
                let mut effects: Vec<EffectKind> = Vec::new();
                effects.push(EffectKind::HistoryDown);
                Outcome::of_effects(effects)
            },
            InputEvent::CtrlR => {
                let mut effects: Vec<EffectKind> = Vec::new();
                effects.push(EffectKind::HistorySearch);
                Outcome::of_effects(effects)
            },
            InputEvent::Backspace => self.handle_backspace(),
            InputEvent::Delete => self.handle_del(),
            InputEvent::Home => self.handle_home_key(),
            InputEvent::End => self.handle_end_key(),
            InputEvent::CtrlC => self.handle_ctrl_c(),
            InputEvent::CtrlD => self.handle_ctrl_d(),
            InputEvent::CtrlZ => self.handle_ctrl_z(),
            InputEvent::CtrlL => self.handle_ctrl_l(),
            InputEvent::Resize(w, h) => self.handle_resize(w, h),
            InputEvent::CtrlAltChar(c) => self.handle_character(c),
            InputEvent::Other => Outcome::empty(),
        }
    }
}

/// The output prompt: the scripting hook's answer when it gives one, the
/// configured fallback otherwise.
pub fn get_output_prompt(script_prompt: Option<String>, fallback: String) -> (r: String)
    ensures
        r@ == match script_prompt {
            Some(p) => p@,
            None => fallback@,
        },
{
    match script_prompt {
        Some(p) => p,
        None => fallback,
    }
}

} // verus!
