use irust_core::dispatch::get_output_prompt;
use irust_core::dispatch::EffectKind;
use irust_core::dispatch::InputDispatcher;
use irust_core::dispatch::InputEvent;
use irust_core::dispatch::Mode;
use irust_core::dispatch::Signal;
use irust_core::suggestion::CycleDirection;

const PROMPT: usize = 4;

fn session() -> InputDispatcher {
    InputDispatcher::new(PROMPT, 80, 24, true)
}

fn type_str(d: &mut InputDispatcher, s: &str) {
    for c in s.chars() {
        d.handle_input_event(InputEvent::Character(c));
    }
}

fn session_with(s: &str) -> InputDispatcher {
    let mut d = session();
    type_str(&mut d, s);
    d
}

fn content(d: &InputDispatcher) -> String {
    d.buffer.chars.iter().collect()
}

#[test]
fn typing_keeps_cursor_in_lockstep() {
    let mut d = session();
    type_str(&mut d, "ab");
    assert_eq!(d.cursor.column, PROMPT + 2);
    assert_eq!(d.cursor.row, 0);
    d.handle_input_event(InputEvent::AltEnter);
    assert_eq!(d.cursor.row, 1);
    assert_eq!(d.cursor.column, PROMPT);
    type_str(&mut d, "cd");
    assert_eq!(d.cursor.column, PROMPT + 2);
    assert_eq!(content(&d), "ab\ncd");
    assert_eq!(d.buffer.pos, 5);
}

#[test]
fn left_and_right_cross_newlines() {
    let mut d = session_with("ab");
    d.handle_input_event(InputEvent::AltEnter);
    type_str(&mut d, "c");
    // back across 'c' and the newline
    d.handle_input_event(InputEvent::Left);
    d.handle_input_event(InputEvent::Left);
    assert_eq!(d.buffer.pos, 2);
    assert_eq!(d.cursor.row, 0);
    assert_eq!(d.cursor.column, PROMPT + 2);
    // forward across the newline again
    d.handle_input_event(InputEvent::Right);
    assert_eq!(d.buffer.pos, 3);
    assert_eq!(d.cursor.row, 1);
    assert_eq!(d.cursor.column, PROMPT);
}

#[test]
fn ctrl_c_clears_buffer_and_returns_cursor() {
    let mut d = session_with("foo");
    d.handle_input_event(InputEvent::AltEnter);
    type_str(&mut d, "bar");
    let out = d.handle_input_event(InputEvent::CtrlC);
    assert_eq!(content(&d), "");
    assert_eq!(d.buffer.pos, 0);
    assert_eq!(d.cursor.row, 0);
    assert_eq!(d.cursor.column, PROMPT);
    assert_eq!(out.signal, Signal::Continue);
    assert!(out.effects.contains(&EffectKind::UnlockHistory));
    assert!(out.effects.contains(&EffectKind::PrintInput));
}

#[test]
fn home_is_a_no_op_at_line_start() {
    let mut d = session_with("ab");
    d.handle_input_event(InputEvent::Home);
    assert_eq!(d.buffer.pos, 0);
    assert_eq!(d.cursor.column, PROMPT);
    let before = content(&d);
    let out = d.handle_input_event(InputEvent::Home);
    assert_eq!(content(&d), before);
    assert_eq!(d.buffer.pos, 0);
    assert!(out.effects.is_empty());
}

#[test]
fn end_is_a_no_op_at_line_end() {
    let mut d = session_with("ab");
    let out = d.handle_input_event(InputEvent::End);
    assert_eq!(d.buffer.pos, 2);
    assert!(out.effects.is_empty());
}

#[test]
fn home_and_end_stay_within_the_logical_line() {
    let mut d = session_with("ab");
    d.handle_input_event(InputEvent::AltEnter);
    type_str(&mut d, "cde");
    d.handle_input_event(InputEvent::Home);
    assert_eq!(d.buffer.pos, 3);
    assert_eq!(d.cursor.column, PROMPT);
    d.handle_input_event(InputEvent::Left);
    d.handle_input_event(InputEvent::Home);
    assert_eq!(d.buffer.pos, 0);
    d.handle_input_event(InputEvent::End);
    assert_eq!(d.buffer.pos, 2);
    assert_eq!(d.cursor.column, PROMPT + 2);
}

#[test]
fn word_jumps_left_move_by_runs() {
    let mut d = session_with("foo  bar.baz");
    assert_eq!(d.buffer.pos, 12);
    d.handle_input_event(InputEvent::CtrlLeft);
    // lands at the start of "baz"
    assert_eq!(d.buffer.pos, 9);
    d.handle_input_event(InputEvent::CtrlLeft);
    // the "." is a punctuation run of its own
    assert_eq!(d.buffer.pos, 8);
    d.handle_input_event(InputEvent::CtrlLeft);
    // lands at the start of "bar"
    assert_eq!(d.buffer.pos, 5);
    d.handle_input_event(InputEvent::CtrlLeft);
    // skips the space run
    assert_eq!(d.buffer.pos, 3);
    d.handle_input_event(InputEvent::CtrlLeft);
    assert_eq!(d.buffer.pos, 0);
}

#[test]
fn word_jumps_right_move_by_runs() {
    let mut d = session_with("foo  bar");
    d.handle_input_event(InputEvent::Home);
    d.handle_input_event(InputEvent::CtrlRight);
    // through the rest of "foo"
    assert_eq!(d.buffer.pos, 3);
    d.handle_input_event(InputEvent::CtrlRight);
    // past the space run
    assert_eq!(d.buffer.pos, 5);
    d.handle_input_event(InputEvent::CtrlRight);
    assert_eq!(d.buffer.pos, 8);
}

#[test]
fn eof_confirmation_declined_continues() {
    let mut d = session();
    let out = d.handle_input_event(InputEvent::CtrlD);
    assert_eq!(out.signal, Signal::Continue);
    assert_eq!(d.mode, Mode::ConfirmingExit);
    assert!(out.effects.contains(&EffectKind::WriteConfirmPrompt));
    let out = d.handle_input_event(InputEvent::Character('n'));
    assert_eq!(out.signal, Signal::Continue);
    assert_eq!(d.mode, Mode::Editing);
    assert_eq!(content(&d), "");
    assert!(out.effects.contains(&EffectKind::PrintPrompt));
}

#[test]
fn eof_confirmation_accepted_terminates() {
    let mut d = session();
    d.handle_input_event(InputEvent::CtrlD);
    let out = d.handle_input_event(InputEvent::Character('y'));
    assert_eq!(out.signal, Signal::Exit);
}

#[test]
fn eof_confirmation_repeat_and_enter_terminate() {
    let mut d = session();
    d.handle_input_event(InputEvent::CtrlD);
    let out = d.handle_input_event(InputEvent::CtrlD);
    assert_eq!(out.signal, Signal::Exit);

    let mut d = session();
    d.handle_input_event(InputEvent::CtrlD);
    let out = d.handle_input_event(InputEvent::Enter);
    assert_eq!(out.signal, Signal::Exit);
}

#[test]
fn eof_confirmation_ignores_other_keys() {
    let mut d = session();
    d.handle_input_event(InputEvent::CtrlD);
    let out = d.handle_input_event(InputEvent::Tab);
    assert_eq!(out.signal, Signal::Continue);
    assert_eq!(d.mode, Mode::ConfirmingExit);
    let out = d.handle_input_event(InputEvent::Character('q'));
    assert_eq!(out.signal, Signal::Continue);
    assert_eq!(d.mode, Mode::Editing);
}

#[test]
fn ctrl_d_on_nonempty_buffer_does_nothing() {
    let mut d = session_with("x");
    let out = d.handle_input_event(InputEvent::CtrlD);
    assert_eq!(out.signal, Signal::Continue);
    assert_eq!(d.mode, Mode::Editing);
    assert_eq!(content(&d), "x");
    assert!(out.effects.is_empty());
}

#[test]
fn incomplete_input_gets_a_newline_instead_of_submission() {
    let mut d = session_with("fn main() {");
    let out = d.handle_input_event(InputEvent::Enter);
    assert!(out.submission.is_none());
    assert_eq!(content(&d), "fn main() {\n");
    assert_eq!(d.cursor.row, 1);
}

#[test]
fn complete_input_is_submitted_and_buffer_cleared() {
    let mut d = session_with("1 + 1");
    let out = d.handle_input_event(InputEvent::Enter);
    assert_eq!(out.submission.as_deref(), Some("1 + 1"));
    assert_eq!(out.history_push.as_deref(), Some("1 + 1"));
    assert_eq!(content(&d), "");
    assert_eq!(d.buffer.pos, 0);
    assert_eq!(d.cursor.column, PROMPT);
    assert!(out.effects.contains(&EffectKind::HideCursor));
}

#[test]
fn force_enter_bypasses_the_heuristic() {
    let mut d = session_with("let x =");
    let out = d.handle_input_event(InputEvent::ForceEnter);
    assert_eq!(out.submission.as_deref(), Some("let x ="));
    assert_eq!(content(&d), "");
}

#[test]
fn command_input_bypasses_the_heuristic() {
    let mut d = session_with(":type x =");
    let out = d.handle_input_event(InputEvent::Enter);
    assert_eq!(out.submission.as_deref(), Some(":type x ="));
}

#[test]
fn alt_enter_never_submits() {
    let mut d = session_with("1 + 1");
    let out = d.handle_input_event(InputEvent::AltEnter);
    assert!(out.submission.is_none());
    assert_eq!(content(&d), "1 + 1\n");
}

#[test]
fn tab_at_line_start_indents() {
    let mut d = session();
    let out = d.handle_input_event(InputEvent::Tab);
    assert_eq!(content(&d), "   \t");
    assert_eq!(d.buffer.pos, 4);
    assert_eq!(d.cursor.column, PROMPT + 4);
    assert!(out.query_completion.is_none());
}

#[test]
fn tab_mid_line_asks_for_completions() {
    let mut d = session_with("ab");
    let out = d.handle_input_event(InputEvent::Tab);
    assert_eq!(out.query_completion, Some(CycleDirection::Down));
    assert_eq!(content(&d), "ab");
    assert!(!d.suggestions.locked);
}

#[test]
fn completion_cycling_wraps_around() {
    let mut d = session_with("ab");
    d.handle_input_event(InputEvent::Tab);
    let out = d.apply_completions(
        vec![String::from("cd"), String::from("ef")],
        CycleDirection::Down,
    );
    assert!(d.suggestions.locked);
    assert_eq!(d.suggestions.active.as_ref().unwrap(), &vec!['c', 'd']);
    assert!(out.effects.contains(&EffectKind::ShowSuggestion));
    // a locked suggestion cycles without a fresh query
    let out = d.handle_input_event(InputEvent::Tab);
    assert!(out.query_completion.is_none());
    assert_eq!(d.suggestions.active.as_ref().unwrap(), &vec!['e', 'f']);
    let out = d.handle_input_event(InputEvent::Tab);
    assert!(out.query_completion.is_none());
    assert_eq!(d.suggestions.active.as_ref().unwrap(), &vec!['c', 'd']);
}

#[test]
fn back_tab_cycles_backwards() {
    let mut d = session_with("ab");
    let out = d.handle_input_event(InputEvent::BackTab);
    assert_eq!(out.query_completion, Some(CycleDirection::Up));
    d.apply_completions(
        vec![String::from("x"), String::from("y"), String::from("z")],
        CycleDirection::Up,
    );
    assert_eq!(d.suggestions.active.as_ref().unwrap(), &vec!['x']);
    // wrapped backwards from index 0
    assert_eq!(d.suggestions.next_idx, 2);
}

#[test]
fn right_accepts_suggestion_like_manual_typing() {
    let mut d = session_with("ab");
    d.handle_input_event(InputEvent::Tab);
    d.apply_completions(vec![String::from("xy")], CycleDirection::Down);
    d.handle_input_event(InputEvent::Right);
    assert_eq!(content(&d), "abxy");
    assert_eq!(d.buffer.pos, 4);
    assert!(d.suggestions.active.is_none());

    // the same buffer as typing the characters one at a time
    let manual = session_with("abxy");
    assert_eq!(content(&d), content(&manual));
    assert_eq!(d.buffer.pos, manual.buffer.pos);
    assert_eq!(d.cursor.column, manual.cursor.column);
    assert_eq!(d.cursor.row, manual.cursor.row);
}

#[test]
fn end_accepts_suggestion_at_line_end() {
    let mut d = session_with("ab");
    d.handle_input_event(InputEvent::Tab);
    d.apply_completions(vec![String::from("z")], CycleDirection::Down);
    d.handle_input_event(InputEvent::End);
    assert_eq!(content(&d), "abz");
    assert!(d.suggestions.active.is_none());
}

#[test]
fn left_drops_the_suggestion() {
    let mut d = session_with("ab");
    d.handle_input_event(InputEvent::Tab);
    d.apply_completions(vec![String::from("xy")], CycleDirection::Down);
    let out = d.handle_input_event(InputEvent::Left);
    assert!(d.suggestions.active.is_none());
    assert_eq!(content(&d), "ab");
    assert_eq!(d.buffer.pos, 1);
    assert_eq!(out.effects, vec![EffectKind::PrintInput]);
}

#[test]
fn typing_invalidates_the_suggestion() {
    let mut d = session_with("ab");
    d.handle_input_event(InputEvent::Tab);
    d.apply_completions(vec![String::from("xy")], CycleDirection::Down);
    assert!(d.suggestions.locked);
    d.handle_input_event(InputEvent::Character('c'));
    assert!(d.suggestions.active.is_none());
    assert!(!d.suggestions.locked);
    assert_eq!(content(&d), "abc");
}

#[test]
fn backspace_deletes_backwards() {
    let mut d = session_with("abc");
    let out = d.handle_input_event(InputEvent::Backspace);
    assert_eq!(content(&d), "ab");
    assert_eq!(d.buffer.pos, 2);
    assert!(out.effects.contains(&EffectKind::UnlockHistory));
    // at the start it is a no-op
    let mut d = session_with("a");
    d.handle_input_event(InputEvent::Home);
    let out = d.handle_input_event(InputEvent::Backspace);
    assert_eq!(content(&d), "a");
    assert!(out.effects.is_empty());
}

#[test]
fn delete_removes_under_the_cursor() {
    let mut d = session_with("ab");
    d.handle_input_event(InputEvent::Home);
    d.handle_input_event(InputEvent::Delete);
    assert_eq!(content(&d), "b");
    assert_eq!(d.buffer.pos, 0);
    // empty buffer: nothing at all happens
    let mut d = session();
    let out = d.handle_input_event(InputEvent::Delete);
    assert!(out.effects.is_empty());
}

#[test]
fn ctrl_l_redraws_an_empty_prompt() {
    let mut d = session_with("abc");
    let out = d.handle_input_event(InputEvent::CtrlL);
    assert_eq!(content(&d), "");
    assert_eq!(d.cursor.column, PROMPT);
    assert_eq!(
        out.effects,
        vec![
            EffectKind::ClearScreen,
            EffectKind::PrintPrompt,
            EffectKind::PrintInput
        ]
    );
}

#[test]
fn resize_updates_dimensions_and_clears() {
    let mut d = session_with("abc");
    d.handle_input_event(InputEvent::Resize(100, 50));
    assert_eq!(d.cursor.width, 100);
    assert_eq!(d.cursor.height, 50);
    assert_eq!(content(&d), "");
    assert_eq!(d.cursor.column, PROMPT);
}

#[test]
fn ctrl_z_depends_on_platform_support() {
    let mut d = InputDispatcher::new(PROMPT, 80, 24, false);
    type_str(&mut d, "x");
    let out = d.handle_input_event(InputEvent::CtrlZ);
    assert!(out.effects.is_empty());
    assert_eq!(content(&d), "x");

    let mut d = session_with("x");
    let out = d.handle_input_event(InputEvent::CtrlZ);
    assert!(out.effects.contains(&EffectKind::Suspend));
    assert_eq!(content(&d), "");
}

#[test]
fn history_events_are_delegated() {
    let mut d = session();
    let out = d.handle_input_event(InputEvent::Up);
    assert_eq!(out.effects, vec![EffectKind::HistoryUp]);
    let out = d.handle_input_event(InputEvent::Down);
    assert_eq!(out.effects, vec![EffectKind::HistoryDown]);
    let out = d.handle_input_event(InputEvent::CtrlR);
    assert_eq!(out.effects, vec![EffectKind::HistorySearch]);
}

#[test]
fn unmapped_events_are_ignored() {
    let mut d = session_with("ab");
    let out = d.handle_input_event(InputEvent::Other);
    assert!(out.effects.is_empty());
    assert_eq!(content(&d), "ab");
}

#[test]
fn altgr_characters_insert_like_plain_ones() {
    let mut d = session();
    d.handle_input_event(InputEvent::CtrlAltChar('@'));
    assert_eq!(content(&d), "@");
}

#[test]
fn evaluation_with_output_advances_the_counter() {
    let mut d = session_with("1 + 1");
    d.handle_input_event(InputEvent::Enter);
    assert_eq!(d.op_count, 0);
    let out = d.record_evaluation(true);
    assert_eq!(d.op_count, 1);
    assert!(out.effects.contains(&EffectKind::PrintOutput));
    assert!(out.effects.contains(&EffectKind::ShowCursor));
    let out = d.record_evaluation(false);
    assert_eq!(d.op_count, 1);
    assert!(!out.effects.contains(&EffectKind::PrintOutput));
}

#[test]
fn output_prompt_falls_back_to_the_configured_one() {
    let r = get_output_prompt(Some(String::from("s> ")), String::from("Out: "));
    assert_eq!(r, "s> ");
    let r = get_output_prompt(None, String::from("Out: "));
    assert_eq!(r, "Out: ");
}
