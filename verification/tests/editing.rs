use irust_core::buffer::Buffer;
use irust_core::detect::incomplete_input;
use irust_core::detect::input_is_cmd_or_shell;
use irust_core::detect::unmatched_brackets;

fn chars_of(s: &str) -> Vec<char> {
    s.chars().collect()
}

fn buffer_with(s: &str) -> Buffer {
    let mut b = Buffer::new();
    for c in s.chars() {
        b.insert(c);
    }
    b
}

#[test]
fn insert_tracks_position() {
    let mut b = Buffer::new();
    assert!(b.is_empty());
    assert!(b.is_at_start());
    assert!(b.is_at_end());
    b.insert('a');
    b.insert('b');
    assert_eq!(b.chars, vec!['a', 'b']);
    assert_eq!(b.pos, 2);
    b.move_backward();
    b.insert('x');
    assert_eq!(b.chars, vec!['a', 'x', 'b']);
    assert_eq!(b.pos, 2);
}

#[test]
fn insert_str_advances_by_its_length() {
    let mut b = buffer_with("ad");
    b.move_backward();
    b.insert_str("bc");
    assert_eq!(b.to_string(), "abcd");
    assert_eq!(b.pos, 3);
}

#[test]
fn remove_current_char_is_forward_delete() {
    let mut b = buffer_with("abc");
    b.move_backward();
    b.remove_current_char();
    assert_eq!(b.to_string(), "ab");
    assert_eq!(b.pos, 2);
    // at the end the removal is a no-op
    b.remove_current_char();
    assert_eq!(b.to_string(), "ab");
    assert_eq!(b.pos, 2);
}

#[test]
fn moves_saturate_at_the_boundaries() {
    let mut b = buffer_with("ab");
    b.move_forward();
    assert_eq!(b.pos, 2);
    b.move_backward();
    b.move_backward();
    b.move_backward();
    assert_eq!(b.pos, 0);
    assert!(b.is_at_start());
}

#[test]
fn char_lookups_return_none_at_boundaries() {
    let mut b = buffer_with("ab");
    assert_eq!(b.current_char(), None);
    assert_eq!(b.previous_char(), Some('b'));
    assert_eq!(b.next_char(), None);
    b.move_backward();
    b.move_backward();
    assert_eq!(b.current_char(), Some('a'));
    assert_eq!(b.previous_char(), None);
    assert_eq!(b.next_char(), Some('b'));
}

#[test]
fn clear_resets_to_empty() {
    let mut b = buffer_with("abc");
    b.clear();
    assert!(b.is_empty());
    assert_eq!(b.pos, 0);
    assert_eq!(b.to_string(), "");
}

#[test]
fn line_start_predicate_follows_newlines() {
    let mut b = buffer_with("ab\ncd");
    assert!(!b.is_at_string_line_start());
    b.move_backward();
    b.move_backward();
    // pos 3: just after the newline
    assert!(b.is_at_string_line_start());
    b.move_backward();
    // pos 2: at the newline, not a line start
    assert!(!b.is_at_string_line_start());
    b.move_backward();
    b.move_backward();
    assert!(b.is_at_string_line_start());
}

#[test]
fn line_end_predicate_follows_newlines() {
    let mut b = buffer_with("ab\ncd");
    assert!(b.is_at_line_end());
    b.move_backward();
    assert!(!b.is_at_line_end());
    b.move_backward();
    b.move_backward();
    // pos 2: at the newline counts as a line end
    assert!(b.is_at_line_end());
}

#[test]
fn unmatched_brace_is_incomplete() {
    assert!(incomplete_input(&chars_of("fn main() {")));
}

#[test]
fn trailing_equals_is_incomplete() {
    assert!(incomplete_input(&chars_of("let x =")));
}

#[test]
fn plain_expression_is_complete() {
    assert!(!incomplete_input(&chars_of("1 + 1")));
}

#[test]
fn balanced_braces_are_complete() {
    assert!(!incomplete_input(&chars_of("{1}")));
}

#[test]
fn trailing_continuation_ignores_whitespace() {
    assert!(incomplete_input(&chars_of("foo.  ")));
    assert!(incomplete_input(&chars_of("impl T:\t")));
    assert!(!incomplete_input(&chars_of("foo()  ")));
}

#[test]
fn extra_closers_do_not_go_negative() {
    // the leading closers are ignored; the trailing opens still count
    assert!(unmatched_brackets(&chars_of("))((")));
    assert!(!unmatched_brackets(&chars_of("())")));
    assert!(unmatched_brackets(&chars_of("([{")));
    assert!(!unmatched_brackets(&chars_of("([{}])")));
}

#[test]
fn command_inputs_are_detected() {
    assert!(input_is_cmd_or_shell(&chars_of(":help")));
    assert!(input_is_cmd_or_shell(&chars_of("::ls")));
    assert!(!input_is_cmd_or_shell(&chars_of("1 + 1")));
    assert!(!input_is_cmd_or_shell(&chars_of("")));
}
