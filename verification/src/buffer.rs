//! The multi-line input buffer: an ordered sequence of characters (newlines
//! included) together with an edit position `pos`, kept inside the text at
//! all times.  All operations are total: boundary cases are no-ops, never
//! errors.

use vstd::prelude::*;

use crate::chars::chars_to_string;
use crate::chars::str_to_chars;

verus! {

/// Index of the first character of the logical line containing position `p`:
/// the position just after the last newline strictly before `p` (0 if none).
pub open spec fn line_start_of(s: Seq<char>, p: int) -> int
    decreases p,
{
    if p <= 0 {
        0
    } else if s[p - 1] == '\n' {
        p
    } else {
        line_start_of(s, p - 1)
    }
}

/// Column of position `p`, measured from the start of its logical line.
pub open spec fn col_of(s: Seq<char>, p: int) -> int {
    p - line_start_of(s, p)
}

/// Row of position `p`: the number of newlines before it.
pub open spec fn row_of(s: Seq<char>, p: int) -> int
    decreases p,
{
    if p <= 0 {
        0
    } else {
        row_of(s, p - 1) + if s[p - 1] == '\n' {
            1int
        } else {
            0int
        }
    }
}

/// `line_start_of` stays within `[0, p]`.
pub proof fn lemma_line_start_bounds(s: Seq<char>, p: int)
    requires
        0 <= p,
    ensures
        0 <= line_start_of(s, p) <= p,
    decreases p,
{
    if p > 0 && s[p - 1] != '\n' {
        lemma_line_start_bounds(s, p - 1);
    }
}

/// `row_of` stays within `[0, p]`.
pub proof fn lemma_row_bounds(s: Seq<char>, p: int)
    requires
        0 <= p,
    ensures
        0 <= row_of(s, p) <= p,
    decreases p,
{
    if p > 0 {
        lemma_row_bounds(s, p - 1);
    }
}

/// `line_start_of` at `p` depends only on the characters before `p`.
pub proof fn lemma_line_start_prefix(s1: Seq<char>, s2: Seq<char>, p: int)
    requires
        0 <= p <= s1.len(),
        p <= s2.len(),
        forall|i: int| 0 <= i < p ==> s1[i] == s2[i],
    ensures
        line_start_of(s1, p) == line_start_of(s2, p),
    decreases p,
{
    if p > 0 && s1[p - 1] != '\n' {
        lemma_line_start_prefix(s1, s2, p - 1);
    }
}

/// `row_of` at `p` depends only on the characters before `p`.
pub proof fn lemma_row_prefix(s1: Seq<char>, s2: Seq<char>, p: int)
    requires
        0 <= p <= s1.len(),
        p <= s2.len(),
        forall|i: int| 0 <= i < p ==> s1[i] == s2[i],
    ensures
        row_of(s1, p) == row_of(s2, p),
    decreases p,
{
    if p > 0 {
        lemma_row_prefix(s1, s2, p - 1);
    }
}

/// Position `p` has column 0 exactly when it is 0 or follows a newline.
pub proof fn lemma_at_line_start_iff(s: Seq<char>, p: int)
    requires
        0 <= p <= s.len(),
    ensures
        col_of(s, p) == 0 <==> (p == 0 || s[p - 1] == '\n'),
{
    if p > 0 && s[p - 1] != '\n' {
        lemma_line_start_bounds(s, p - 1);
    }
}

/// Inserting one more character at the end of an already-inserted run
/// extends the run: the step case of replaying a string one character at
/// a time.
pub proof fn lemma_insert_mid(a: Seq<char>, b: Seq<char>, c_rest: Seq<char>, x: char)
    ensures
        (a + b + c_rest).insert(a.len() + b.len() as int, x) == a + b.push(x) + c_rest,
{
    let whole = a + b + c_rest;
    let i: int = a.len() + b.len() as int;
    assert(whole.subrange(0, i as int) =~= a + b);
    assert(whole.subrange(i as int, whole.len() as int) =~= c_rest);
    assert((a + b).push(x) =~= a + b.push(x));
    assert(whole.insert(i as int, x) =~= a + b.push(x) + c_rest);
}

/// Index of the first character of the logical line containing position `p`:
/// executable form of `line_start_of`.
pub fn line_start_index(chars: &Vec<char>, p: usize) -> (r: usize)
    requires
        p <= chars@.len(),
    ensures
        r == line_start_of(chars@, p as int),
{
    let mut q: usize = p;
    while q > 0
        invariant
            q <= p <= chars@.len(),
            line_start_of(chars@, p as int) == line_start_of(chars@, q as int),
        decreases q,
    {
        if chars[q - 1] == '\n' {
            return q;
        }
        q = q - 1;
    }
    0
}

/// The text being composed, with its edit position.
pub struct Buffer {
    pub chars: Vec<char>,
    pub pos: usize,
}

impl View for Buffer {
    type V = Seq<char>;

    open spec fn view(&self) -> Seq<char> {
        self.chars@
    }
}

impl Buffer {
    /// The edit position never leaves the text: `0 <= pos <= length`.
    pub open spec fn wf(self) -> bool {
        self.pos <= self.chars@.len()
    }

    /// `pos` sits at column 0 of its logical line.
    pub open spec fn spec_at_line_start(self) -> bool {
        self.pos == 0 || self.chars@[self.pos - 1] == '\n'
    }

    /// `pos` sits at the end of its logical line.
    pub open spec fn spec_at_line_end(self) -> bool {
        self.pos == self.chars@.len() || self.chars@[self.pos as int] == '\n'
    }

    /// A fresh, empty buffer.
    pub fn new() -> (r: Buffer)
        ensures
            r.wf(),
            r@ == Seq::<char>::empty(),
            r.pos == 0,
    {
        Buffer { chars: Vec::new(), pos: 0 }
    }

    /// Insert `c` at the edit position and advance past it.
    pub fn insert(&mut self, c: char)
        requires
            old(self).wf(),
            old(self)@.len() < usize::MAX,
        ensures
            final(self).wf(),
            final(self)@ == old(self)@.insert(old(self).pos as int, c),
            final(self).pos == old(self).pos + 1,
    {
        self.chars.insert(self.pos, c);
        self.pos = self.pos + 1;
    }

    /// Insert a literal string at the edit position and advance past it.
    pub fn insert_str(&mut self, s: &str)
        requires
            old(self).wf(),
            old(self)@.len() + s@.len() <= usize::MAX,
        ensures
            final(self).wf(),
            final(self)@ == old(self)@.subrange(0, old(self).pos as int) + s@ + old(self)@.subrange(
                old(self).pos as int,
                old(self)@.len() as int,
            ),
            final(self).pos == old(self).pos + s@.len(),
    {
        let mut add = str_to_chars(s);
        let added: usize = add.len();
        let mut tail = self.chars.split_off(self.pos);
        self.chars.append(&mut add);
        self.chars.append(&mut tail);
        self.pos = self.pos + added;
    }

    /// Forward-delete the character at the edit position; no-op at the end.
    pub fn remove_current_char(&mut self)
        requires
            old(self).wf(),
        ensures
            final(self).wf(),
            final(self).pos == old(self).pos,
            old(self).pos < old(self)@.len() ==> final(self)@ == old(self)@.remove(
                old(self).pos as int,
            ),
            old(self).pos == old(self)@.len() ==> final(self)@ == old(self)@,
    {
        if self.pos < self.chars.len() {
            self.chars.remove(self.pos);
        }
    }

    /// Saturating move of the edit position one step forward.
    pub fn move_forward(&mut self)
        requires
            old(self).wf(),
        ensures
            final(self).wf(),
            final(self)@ == old(self)@,
            final(self).pos == if old(self).pos < old(self)@.len() {
                old(self).pos + 1
            } else {
                old(self).pos as int
            },
    {
        if self.pos < self.chars.len() {
            self.pos = self.pos + 1;
        }
    }

    /// Saturating move of the edit position one step backward.
    pub fn move_backward(&mut self)
        requires
            old(self).wf(),
        ensures
            final(self).wf(),
            final(self)@ == old(self)@,
            final(self).pos == if old(self).pos > 0 {
                old(self).pos - 1
            } else {
                0int
            },
    {
        if self.pos > 0 {
            self.pos = self.pos - 1;
        }
    }

    /// The character at the edit position, if any.
    pub fn current_char(&self) -> (r: Option<char>)
        requires
            self.wf(),
        ensures
            r == if self.pos < self@.len() {
                Some(self@[self.pos as int])
            } else {
                None::<char>
            },
    {
        if self.pos < self.chars.len() {
            Some(self.chars[self.pos])
        } else {
            None
        }
    }

    /// The character just before the edit position, if any.
    pub fn previous_char(&self) -> (r: Option<char>)
        requires
            self.wf(),
        ensures
            r == if self.pos > 0 {
                Some(self@[self.pos - 1])
            } else {
                None::<char>
            },
    {
        if self.pos > 0 {
            Some(self.chars[self.pos - 1])
        } else {
            None
        }
    }

    /// The character just after the edit position, if any.
    pub fn next_char(&self) -> (r: Option<char>)
        requires
            self.wf(),
        ensures
            r == if self.pos + 1 < self@.len() {
                Some(self@[self.pos + 1])
            } else {
                None::<char>
            },
    {
        if self.pos < self.chars.len() && self.pos + 1 < self.chars.len() {
            Some(self.chars[self.pos + 1])
        } else {
            None
        }
    }

    /// Reset to the empty buffer.
    pub fn clear(&mut self)
        ensures
            final(self).wf(),
            final(self)@ == Seq::<char>::empty(),
            final(self).pos == 0,
    {
        self.chars.clear();
        self.pos = 0;
    }

    /// Move the edit position to the start of the buffer.
    pub fn goto_start(&mut self)
        ensures
            final(self).wf(),
            final(self)@ == old(self)@,
            final(self).pos == 0,
    {
        self.pos = 0;
    }

    /// Materialize the full content for submission.
    pub fn to_string(&self) -> (r: String)
        ensures
            r@ == self@,
    {
        chars_to_string(&self.chars)
    }

    pub fn is_at_start(&self) -> (r: bool)
        ensures
            r == (self.pos == 0),
    {
        self.pos == 0
    }

    pub fn is_at_end(&self) -> (r: bool)
        ensures
            r == (self.pos == self@.len()),
    {
        self.pos == self.chars.len()
    }

    pub fn is_empty(&self) -> (r: bool)
        ensures
            r == (self@.len() == 0),
    {
        self.chars.len() == 0
    }

    /// True when the edit position sits at column 0 of its logical line.
    pub fn is_at_string_line_start(&self) -> (r: bool)
        requires
            self.wf(),
        ensures
            r == self.spec_at_line_start(),
    {
        self.pos == 0 || self.chars[self.pos - 1] == '\n'
    }

    /// True when the edit position sits at the end of its logical line.
    pub fn is_at_line_end(&self) -> (r: bool)
        requires
            self.wf(),
        ensures
            r == self.spec_at_line_end(),
    {
        self.pos == self.chars.len() || self.chars[self.pos] == '\n'
    }
}

} // verus!
