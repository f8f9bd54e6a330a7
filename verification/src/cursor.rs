//! The screen cursor: a visual (row, column) projection of the buffer's edit
//! position, plus the known terminal dimensions.  Columns are logical and
//! unbounded (the render layer handles wrapping past the visible width);
//! every line of input starts at `start_column`, the width of the prompt.

use vstd::prelude::*;

verus! {

/// Visual cursor position and terminal dimensions.
pub struct ScreenCursor {
    /// Row of the cursor inside the current input frame, 0 at the prompt row.
    pub row: usize,
    /// Column of the cursor; `start_column` at the start of every line.
    pub column: usize,
    /// Column where input starts on each line (the prompt width).
    pub start_column: usize,
    /// Terminal width, updated on resize events.
    pub width: u16,
    /// Terminal height, updated on resize events.
    pub height: u16,
}

impl ScreenCursor {
    /// A cursor at the prompt start of an empty input frame.
    pub fn new(start_column: usize, width: u16, height: u16) -> (r: ScreenCursor)
        ensures
            r.row == 0,
            r.column == start_column,
            r.start_column == start_column,
            r.width == width,
            r.height == height,
    {
        ScreenCursor { row: 0, column: start_column, start_column, width, height }
    }

    /// One step right within the current line.
    pub fn move_right(&mut self)
        requires
            old(self).column < usize::MAX,
        ensures
            *final(self) == (ScreenCursor { column: (old(self).column + 1) as usize, ..*old(self) }),
    {
        self.column = self.column + 1;
    }

    /// One step left within the current line.
    pub fn move_left(&mut self)
        requires
            old(self).column > 0,
        ensures
            *final(self) == (ScreenCursor { column: (old(self).column - 1) as usize, ..*old(self) }),
    {
        self.column = self.column - 1;
    }

    /// Down to the start of the next line: crossing a newline forward.
    pub fn move_down_to_start(&mut self)
        requires
            old(self).row < usize::MAX,
        ensures
            *final(self) == (ScreenCursor {
                row: (old(self).row + 1) as usize,
                column: old(self).start_column,
                ..*old(self)
            }),
    {
        self.row = self.row + 1;
        self.column = self.start_column;
    }

    /// Up to the given column of the previous line: crossing a newline
    /// backward lands at the end of that line.
    pub fn move_up_to(&mut self, column: usize)
        requires
            old(self).row > 0,
        ensures
            *final(self) == (ScreenCursor { row: (old(self).row - 1) as usize, column, ..*old(self) }),
    {
        self.row = self.row - 1;
        self.column = column;
    }

    /// Back to the prompt start of the input frame.
    pub fn goto_start(&mut self)
        ensures
            *final(self) == (ScreenCursor { row: 0, column: old(self).start_column, ..*old(self) }),
    {
        self.row = 0;
        self.column = self.start_column;
    }

    /// Record the new terminal dimensions after a resize event.
    pub fn update_dimensions(&mut self, width: u16, height: u16)
        ensures
            *final(self) == (ScreenCursor { width, height, ..*old(self) }),
    {
        self.width = width;
        self.height = height;
    }

    /// True when the cursor sits at the start column of its line.
    pub fn is_at_line_start(&self) -> (r: bool)
        ensures
            r == (self.column == self.start_column),
    {
        self.column == self.start_column
    }
}

} // verus!
