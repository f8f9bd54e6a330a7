//! The continuation heuristic: decides whether a submitted buffer is likely
//! incomplete (so Enter inserts a newline instead of evaluating), and whether
//! it is a meta command that bypasses the heuristic.

use vstd::prelude::*;

use crate::chars::char_is_whitespace;
use crate::chars::whitespace;

verus! {

/// Bracket nesting depth after reading `s`, counting `(`, `[`, `{` against
/// their closers and never going below zero.
pub open spec fn bracket_depth(s: Seq<char>) -> int
    decreases s.len(),
{
    if s.len() == 0 {
        0
    } else {
        let d: int = bracket_depth(s.drop_last());
        let c = s.last();
        if c == '(' || c == '[' || c == '{' {
            d + 1
        } else if c == ')' || c == ']' || c == '}' {
            if d > 0 {
                d - 1
            } else {
                0
            }
        } else {
            d
        }
    }
}

/// Some opening bracket is left unclosed.
pub open spec fn unmatched_brackets_spec(s: Seq<char>) -> bool {
    bracket_depth(s) > 0
}

/// After trimming trailing whitespace, the text ends in `:`, `.` or `=`.
pub open spec fn trailing_continuation(s: Seq<char>) -> bool
    decreases s.len(),
{
    if s.len() == 0 {
        false
    } else if whitespace(s.last()) {
        trailing_continuation(s.drop_last())
    } else {
        s.last() == ':' || s.last() == '.' || s.last() == '='
    }
}

/// The buffer likely continues: unbalanced brackets, or a trailing
/// continuation character.  A heuristic, not a parser.
pub open spec fn incomplete_spec(s: Seq<char>) -> bool {
    unmatched_brackets_spec(s) || trailing_continuation(s)
}

/// The buffer is a shell or meta command: it starts with `:`.
pub open spec fn cmd_or_shell_spec(s: Seq<char>) -> bool {
    s.len() > 0 && s[0] == ':'
}

/// The bracket depth never exceeds the number of characters read.
proof fn lemma_bracket_depth_bound(s: Seq<char>)
    ensures
        0 <= bracket_depth(s) <= s.len(),
    decreases s.len(),
{
    if s.len() > 0 {
        lemma_bracket_depth_bound(s.drop_last());
    }
}

/// Executable form of `unmatched_brackets_spec`.
pub fn unmatched_brackets(buffer: &Vec<char>) -> (r: bool)
    ensures
        r == unmatched_brackets_spec(buffer@),
{
    let mut depth: usize = 0;
    let mut i: usize = 0;
    while i < buffer.len()
        invariant
            i <= buffer@.len(),
            depth == bracket_depth(buffer@.subrange(0, i as int)),
        decreases buffer@.len() - i,
    {
        proof {
            assert(buffer@.subrange(0, i as int + 1).drop_last() =~= buffer@.subrange(0, i as int));
            assert(buffer@.subrange(0, i as int + 1).last() == buffer@[i as int]);
            lemma_bracket_depth_bound(buffer@.subrange(0, i as int));
        }
        let c = buffer[i];
        if c == '(' || c == '[' || c == '{' {
            depth = depth + 1;
        } else if (c == ')' || c == ']' || c == '}') && depth > 0 {
            depth = depth - 1;
        }
        i = i + 1;
    }
    proof {
        assert(buffer@.subrange(0, buffer@.len() as int) =~= buffer@);
    }
    depth > 0
}

/// Executable form of `trailing_continuation`.
pub fn ends_in_continuation(buffer: &Vec<char>) -> (r: bool)
    ensures
        r == trailing_continuation(buffer@),
{
    let mut j: usize = buffer.len();
    proof {
        assert(buffer@.subrange(0, buffer@.len() as int) =~= buffer@);
    }
    while j > 0
        invariant
            j <= buffer@.len(),
            trailing_continuation(buffer@.subrange(0, j as int)) == trailing_continuation(buffer@),
        decreases j,
    {
        proof {
            assert(buffer@.subrange(0, j as int).drop_last() =~= buffer@.subrange(0, j as int - 1));
            assert(buffer@.subrange(0, j as int).last() == buffer@[j as int - 1]);
        }
        let c = buffer[j - 1];
        if char_is_whitespace(c) {
            j = j - 1;
        } else {
            return c == ':' || c == '.' || c == '=';
        }
    }
    proof {
        assert(buffer@.subrange(0, 0) =~= Seq::<char>::empty());
    }
    false
}

/// The Enter handler's continuation test: unmatched brackets, or trailing
/// `:`, `.` or `=` after trimming whitespace on the right.
pub fn incomplete_input(buffer: &Vec<char>) -> (r: bool)
    ensures
        r == incomplete_spec(buffer@),
{
    unmatched_brackets(buffer) || ends_in_continuation(buffer)
}

/// True when the buffer starts with `:`: shell and meta commands are
/// submitted as they are, without the continuation heuristic.
pub fn input_is_cmd_or_shell(buffer: &Vec<char>) -> (r: bool)
    ensures
        r == cmd_or_shell_spec(buffer@),
{
    buffer.len() > 0 && buffer[0] == ':'
}

} // verus!
