//! An editable text box: a caret, a selection, and the text model they act
//! on.
//!
//! Everything font- and pixel-dependent — blink timing, glyph metrics,
//! hit-testing a pointer position against rendered lines, drawing — belongs
//! to the host's rendering layer; it hands this model plain positions and
//! characters and reads plain positions back.

use vstd::prelude::*;

use crate::formatted_text::FormattedText;
use crate::formatted_text::TextLine;

verus! {

/// The direction of a horizontal caret movement or a removal.
#[derive(Clone, Copy, PartialEq, Eq, Structural, Debug)]
pub enum HorizontalDirection {
    /// Toward the beginning of the text.
    Left,
    /// Toward the end of the text.
    Right,
}

/// The direction of a vertical caret movement.
#[derive(Clone, Copy, PartialEq, Eq, Structural, Debug)]
pub enum VerticalDirection {
    /// Toward the last line.
    Down,
    /// Toward the first line.
    Up,
}

/// A caret position: a line and a character offset on it.
#[derive(Clone, Copy, PartialEq, Eq, Structural, Debug)]
pub struct Position {
    /// The line index.
    pub line: usize,
    /// The character offset on the line.
    pub offset: usize,
}

/// A selected span of text, from where the selection started to where it
/// currently ends.
#[derive(Clone, Copy, PartialEq, Eq, Structural, Debug)]
pub struct SelectionRange {
    /// Where the selection started.
    pub begin: Position,
    /// Where the selection currently ends.
    pub end: Position,
}

/// The editing keys a text box reacts to.
#[derive(Clone, Copy, PartialEq, Eq, Structural, Debug)]
pub enum TextBoxKey {
    /// Move the caret one line up.
    Up,
    /// Move the caret one line down.
    Down,
    /// Move the caret one step left.
    Left,
    /// Move the caret one step right.
    Right,
    /// Remove the character after the caret.
    Delete,
    /// Remove the character before the caret.
    Back,
}

/// Where the caret stands after `steps` left movements: each step moves one
/// offset left, wraps to the end of the previous line at an offset of zero,
/// and stops at the very beginning of the text.
pub open spec fn spec_caret_after_left(
    lines: Seq<TextLine>,
    line: int,
    offset: int,
    steps: int,
) -> (int, int)
    decreases steps,
{
    if steps <= 0 {
        (line, offset)
    } else if offset > 0 {
        spec_caret_after_left(lines, line, offset - 1, steps - 1)
    } else if line > 0 && line <= lines.len() {
        spec_caret_after_left(lines, line - 1, lines[line - 1].spec_len(), steps - 1)
    } else {
        (line, 0)
    }
}

/// Where the caret stands after `steps` right movements: each step moves
/// one offset right, wraps to the start of the next line at the end of a
/// line, and stops at the very end of the text.
pub open spec fn spec_caret_after_right(
    lines: Seq<TextLine>,
    line: int,
    offset: int,
    steps: int,
) -> (int, int)
    decreases steps,
{
    if steps <= 0 || !(0 <= line < lines.len()) {
        (line, offset)
    } else if offset < lines[line].spec_len() {
        spec_caret_after_right(lines, line, offset + 1, steps - 1)
    } else if line < lines.len() - 1 {
        spec_caret_after_right(lines, line + 1, 0, steps - 1)
    } else {
        (line, lines[line].spec_len())
    }
}

/// Where the caret stands after the layout changed: back on the last line
/// when its line no longer exists, at the origin when no line is left.
pub open spec fn spec_clamp_caret(lines: Seq<TextLine>, line: int, offset: int) -> (int, int) {
    if lines.len() == 0 {
        (0, 0)
    } else if line >= lines.len() {
        (lines.len() - 1, offset)
    } else {
        (line, offset)
    }
}

/// An editable text box: the text model, the caret, and the selection.
pub struct TextBox {
    formatted_text: FormattedText,
    caret_line: usize,
    caret_offset: usize,
    caret_visible: bool,
    selection_range: Option<SelectionRange>,
    selecting: bool,
}

impl TextBox {
    /// The raw characters.
    pub closed spec fn spec_text(self) -> Seq<char> {
        self.formatted_text.spec_text()
    }

    /// The laid-out lines.
    pub closed spec fn spec_lines(self) -> Seq<TextLine> {
        self.formatted_text.spec_lines()
    }

    /// The caret position, as a line index and an offset on it.
    pub closed spec fn spec_caret(self) -> (int, int) {
        (self.caret_line as int, self.caret_offset as int)
    }

    /// Whether the caret is currently shown.
    pub closed spec fn spec_caret_visible(self) -> bool {
        self.caret_visible
    }

    /// The current selection.
    pub closed spec fn spec_selection(self) -> Option<SelectionRange> {
        self.selection_range
    }

    /// Whether a pointer-driven selection is in progress.
    pub closed spec fn spec_selecting(self) -> bool {
        self.selecting
    }

    /// The lines lay the text out, and the caret stands on an existing line
    /// (or at the origin while there is no text at all).
    pub closed spec fn wf(self) -> bool {
        &&& self.formatted_text.wf()
        &&& if self.spec_lines().len() == 0 {
            self.caret_line == 0 && self.caret_offset == 0
        } else {
            self.caret_line < self.spec_lines().len()
        }
    }

    /// What well-formedness gives a caller: the caret of a well-formed box
    /// stands on an existing line (or at the origin of an empty text), and
    /// its absolute position lies within the text.
    pub proof fn lemma_wf_bounds(&self)
        requires
            self.wf(),
        ensures
            self.spec_lines().len() == 0 ==> self.spec_caret() == (0int, 0int)
                && self.spec_text().len() == 0,
            self.spec_lines().len() > 0 ==> 0 <= self.spec_caret().0 < self.spec_lines().len(),
            match self.spec_absolute_position() {
                Some(position) => 0 <= position <= self.spec_text().len(),
                None => self.spec_lines().len() == 0,
            },
    {
    }

    /// An empty text box with the caret at the origin.
    pub fn new() -> (text_box: Self)
        ensures
            text_box.wf(),
            text_box.spec_text() == Seq::<char>::empty(),
            text_box.spec_selection() is None,
            text_box.spec_caret() == (0int, 0int),
    {
        TextBox {
            formatted_text: FormattedText::new(),
            caret_line: 0,
            caret_offset: 0,
            caret_visible: true,
            selection_range: None,
            selecting: false,
        }
    }

    /// The number of raw characters in the text.
    pub fn get_text_len(&self) -> (length: usize)
        ensures
            length == self.spec_text().len(),
    {
        self.formatted_text.text_len()
    }

    /// The text model.
    pub fn formatted_text(&self) -> (formatted: &FormattedText)
        ensures
            formatted.spec_text() == self.spec_text(),
            formatted.spec_lines() == self.spec_lines(),
    {
        &self.formatted_text
    }

    /// The current selection, if any.
    pub fn selection_range(&self) -> (selection: Option<SelectionRange>)
        ensures
            selection == self.spec_selection(),
    {
        self.selection_range
    }

    /// The caret position.
    pub fn caret_position(&self) -> (position: Position)
        ensures
            (position.line as int, position.offset as int) == self.spec_caret(),
    {
        Position { line: self.caret_line, offset: self.caret_offset }
    }

    /// Whether the caret is currently shown; the host's blink timer toggles
    /// it while the box idles.
    pub fn caret_visible(&self) -> (visible: bool)
        ensures
            visible == self.spec_caret_visible(),
    {
        self.caret_visible
    }

    /// Shows or hides the caret; driven by the host's blink timer.
    pub fn set_caret_visible(&mut self, visible: bool)
        ensures
            final(self).spec_caret_visible() == visible,
            final(self).spec_text() == old(self).spec_text(),
            final(self).spec_lines() == old(self).spec_lines(),
            final(self).spec_caret() == old(self).spec_caret(),
            final(self).spec_selection() == old(self).spec_selection(),
            final(self).spec_selecting() == old(self).spec_selecting(),
            final(self).wf() == old(self).wf(),
    {
        self.caret_visible = visible;
    }

    /// Makes the caret visible again, as every caret movement does; the
    /// host restarts its blink timer alongside.
    fn reset_blink(&mut self)
        ensures
            final(self).spec_caret_visible(),
            final(self).spec_text() == old(self).spec_text(),
            final(self).spec_lines() == old(self).spec_lines(),
            final(self).spec_caret() == old(self).spec_caret(),
            final(self).spec_selection() == old(self).spec_selection(),
            final(self).spec_selecting() == old(self).spec_selecting(),
            final(self).wf() == old(self).wf(),
    {
        self.caret_visible = true;
    }

    /// Moves the caret `offset` steps left or right, across line ends,
    /// stopping at the beginning or the end of the text; the selection is
    /// cleared and the caret made visible.
    pub fn move_caret_x(&mut self, offset: usize, direction: HorizontalDirection)
        requires
            old(self).wf(),
        ensures
            final(self).wf(),
            final(self).spec_text() == old(self).spec_text(),
            final(self).spec_lines() == old(self).spec_lines(),
            final(self).spec_selection() is None,
            final(self).spec_caret_visible(),
            final(self).spec_selecting() == old(self).spec_selecting(),
            old(self).spec_lines().len() == 0 ==> final(self).spec_caret() == (0int, 0int),
            old(self).spec_lines().len() > 0 ==> final(self).spec_caret() == match direction {
                HorizontalDirection::Left => spec_caret_after_left(
                    old(self).spec_lines(),
                    old(self).spec_caret().0,
                    old(self).spec_caret().1,
                    offset as int,
                ),
                HorizontalDirection::Right => spec_caret_after_right(
                    old(self).spec_lines(),
                    old(self).spec_caret().0,
                    old(self).spec_caret().1,
                    offset as int,
                ),
            },
    {
        self.selection_range = None;
        self.reset_blink();
        let line_count = self.formatted_text.get_lines().len();
        if line_count == 0 {
            self.caret_offset = 0;
            self.caret_line = 0;
            return ;
        }
        let mut remaining = offset;
        let ghost start_text = self.spec_text();
        let ghost start_lines = self.spec_lines();
        let ghost start_caret = self.spec_caret();
        let ghost start_selecting = self.spec_selecting();
        match direction {
            HorizontalDirection::Left => {
                while remaining > 0
                    invariant
                        direction is Left,
                        self.wf(),
                        self.spec_lines().len() > 0,
                        start_text == old(self).spec_text(),
                        start_lines == old(self).spec_lines(),
                        start_caret == old(self).spec_caret(),
                        self.spec_text() == start_text,
                        self.spec_lines() == start_lines,
                        self.spec_selection() is None,
                        self.spec_caret_visible(),
                        start_selecting == old(self).spec_selecting(),
                        self.spec_selecting() == start_selecting,
                        spec_caret_after_left(
                            start_lines,
                            start_caret.0,
                            start_caret.1,
                            offset as int,
                        ) == spec_caret_after_left(
                            self.spec_lines(),
                            self.spec_caret().0,
                            self.spec_caret().1,
                            remaining as int,
                        ),
                    decreases remaining,
                {
                    if self.caret_offset > 0 {
                        self.caret_offset = self.caret_offset - 1;
                    } else if self.caret_line > 0 {
                        self.caret_line = self.caret_line - 1;
                        let line = self.formatted_text.get_lines()[self.caret_line];
                        self.caret_offset = line.len();
                    } else {
                        self.caret_offset = 0;
                        return ;
                    }
                    remaining = remaining - 1;
                }
            },
            HorizontalDirection::Right => {
                while remaining > 0
                    invariant
                        direction is Right,
                        self.wf(),
                        self.spec_lines().len() > 0,
                        start_text == old(self).spec_text(),
                        start_lines == old(self).spec_lines(),
                        start_caret == old(self).spec_caret(),
                        self.spec_text() == start_text,
                        self.spec_lines() == start_lines,
                        self.spec_selection() is None,
                        self.spec_caret_visible(),
                        start_selecting == old(self).spec_selecting(),
                        self.spec_selecting() == start_selecting,
                        spec_caret_after_right(
                            start_lines,
                            start_caret.0,
                            start_caret.1,
                            offset as int,
                        ) == spec_caret_after_right(
                            self.spec_lines(),
                            self.spec_caret().0,
                            self.spec_caret().1,
                            remaining as int,
                        ),
                    decreases remaining,
                {
                    let line = self.formatted_text.get_lines()[self.caret_line];
                    let line_len = line.len();
                    if self.caret_offset < line_len {
                        self.caret_offset = self.caret_offset + 1;
                    } else if self.caret_line < self.formatted_text.get_lines().len() - 1 {
                        self.caret_line = self.caret_line + 1;
                        self.caret_offset = 0;
                    } else {
                        self.caret_offset = line_len;
                        return ;
                    }
                    remaining = remaining - 1;
                }
            },
        }
    }

    /// Moves the caret `offset` lines down or up, stopping at the last or
    /// the first line; the offset on the line is kept.
    pub fn move_caret_y(&mut self, offset: usize, direction: VerticalDirection)
        requires
            old(self).wf(),
        ensures
            final(self).wf(),
            final(self).spec_text() == old(self).spec_text(),
            final(self).spec_lines() == old(self).spec_lines(),
            final(self).spec_caret().1 == old(self).spec_caret().1,
            final(self).spec_selection() == old(self).spec_selection(),
            final(self).spec_caret_visible() == old(self).spec_caret_visible(),
            final(self).spec_selecting() == old(self).spec_selecting(),
            old(self).spec_lines().len() == 0 ==> final(self).spec_caret() == old(
                self,
            ).spec_caret(),
            old(self).spec_lines().len() > 0 ==> final(self).spec_caret().0 == match direction {
                VerticalDirection::Down => {
                    if old(self).spec_caret().0 + offset >= old(self).spec_lines().len() {
                        old(self).spec_lines().len() - 1
                    } else {
                        old(self).spec_caret().0 + offset
                    }
                },
                VerticalDirection::Up => {
                    if old(self).spec_caret().0 > offset {
                        old(self).spec_caret().0 - offset
                    } else {
                        0
                    }
                },
            },
    {
        let line_count = self.formatted_text.get_lines().len();
        if line_count == 0 {
            return ;
        }
        match direction {
            VerticalDirection::Down => {
                if offset >= line_count - self.caret_line {
                    self.caret_line = line_count - 1;
                } else {
                    self.caret_line = self.caret_line + offset;
                }
            },
            VerticalDirection::Up => {
                if self.caret_line > offset {
                    self.caret_line = self.caret_line - offset;
                } else {
                    self.caret_line = 0;
                }
            },
        }
    }

    /// The caret position counted in characters from the start of the
    /// text: the caret's line start plus its offset, capped at the line
    /// length. Nothing while the caret stands on no line.
    pub open spec fn spec_absolute_position(self) -> Option<int> {
        if 0 <= self.spec_caret().0 < self.spec_lines().len() {
            let line = self.spec_lines()[self.spec_caret().0];
            if self.spec_caret().1 <= line.spec_len() {
                Some(line.begin + self.spec_caret().1)
            } else {
                Some(line.begin + line.spec_len())
            }
        } else {
            None
        }
    }

    /// Returns the caret position counted in characters from the start of
    /// the text.
    pub fn get_absolute_position(&self) -> (position: Option<usize>)
        requires
            self.wf(),
        ensures
            match position {
                Some(p) => Some(p as int) == self.spec_absolute_position(),
                None => self.spec_absolute_position() is None,
            },
    {
        let lines = self.formatted_text.get_lines();
        if self.caret_line < lines.len() {
            let line = lines[self.caret_line];
            let line_len = line.len();
            let capped = if self.caret_offset <= line_len {
                self.caret_offset
            } else {
                line_len
            };
            Some(line.begin + capped)
        } else {
            None
        }
    }

    /// True of the characters that never enter the text: the control
    /// characters, which drive editing instead.
    pub open spec fn spec_is_control(character: char) -> bool {
        (character as u32) < 32 || (127 <= (character as u32) && (character as u32) <= 159)
    }

    /// Inserts `character` at the caret and moves the caret one step right.
    /// Control characters are ignored.
    pub fn insert_char(&mut self, character: char)
        requires
            old(self).wf(),
        ensures
            final(self).wf(),
            Self::spec_is_control(character) ==> *final(self) == *old(self),
            !Self::spec_is_control(character) ==> {
                let clamped = spec_clamp_caret(
                    final(self).spec_lines(),
                    old(self).spec_caret().0,
                    old(self).spec_caret().1,
                );
                &&& final(self).spec_text() == old(self).spec_text().insert(
                    match old(self).spec_absolute_position() {
                        Some(p) => p,
                        None => 0,
                    },
                    character,
                )
                &&& final(self).spec_selection() is None
                &&& final(self).spec_caret_visible()
                &&& final(self).spec_selecting() == old(self).spec_selecting()
                &&& final(self).spec_caret() == spec_caret_after_right(
                    final(self).spec_lines(),
                    clamped.0,
                    clamped.1,
                    1,
                )
            },
    {
        if !is_control_char(character) {
            let position = match self.get_absolute_position() {
                Some(p) => p,
                None => 0,
            };
            self.formatted_text.insert_char(character, position);
            self.formatted_text.build();
            self.clamp_caret();
            self.move_caret_x(1, HorizontalDirection::Right);
        }
    }

    /// Removes the character before (`Left`) or after (`Right`) the caret's
    /// absolute position, if there is one; after a removal to the left the
    /// caret moves one step left.
    pub fn remove_char(&mut self, direction: HorizontalDirection)
        requires
            old(self).wf(),
        ensures
            final(self).wf(),
            match old(self).spec_absolute_position() {
                None => *final(self) == *old(self),
                Some(position) => {
                    let text = old(self).spec_text();
                    let clamped = spec_clamp_caret(
                        final(self).spec_lines(),
                        old(self).spec_caret().0,
                        old(self).spec_caret().1,
                    );
                    match direction {
                        HorizontalDirection::Left => {
                            if text.len() == 0 || position == 0 {
                                *final(self) == *old(self)
                            } else {
                                &&& final(self).spec_text() == text.remove(position - 1)
                                &&& final(self).spec_selection() is None
                                &&& final(self).spec_caret_visible()
                                &&& final(self).spec_selecting() == old(self).spec_selecting()
                                &&& final(self).spec_caret() == spec_caret_after_left(
                                    final(self).spec_lines(),
                                    clamped.0,
                                    clamped.1,
                                    1,
                                )
                            }
                        },
                        HorizontalDirection::Right => {
                            if text.len() == 0 || position >= text.len() {
                                *final(self) == *old(self)
                            } else {
                                &&& final(self).spec_text() == text.remove(position)
                                &&& final(self).spec_selection() == old(self).spec_selection()
                                &&& final(self).spec_caret_visible() == old(
                                    self,
                                ).spec_caret_visible()
                                &&& final(self).spec_selecting() == old(self).spec_selecting()
                                &&& final(self).spec_caret() == clamped
                            }
                        },
                    }
                },
            },
    {
        if let Some(position) = self.get_absolute_position() {
            let text_len = self.get_text_len();
            if text_len != 0 {
                let removal_position = match direction {
                    HorizontalDirection::Left => {
                        if position == 0 {
                            return ;
                        }
                        position - 1
                    },
                    HorizontalDirection::Right => {
                        if position >= text_len {
                            return ;
                        }
                        position
                    },
                };
                proof {
                    let line = self.spec_lines()[self.spec_caret().0];
                    assert(position <= line.end);
                    assert(line.end <= self.spec_text().len());
                }
                self.formatted_text.remove_at(removal_position);
                self.formatted_text.build();
                self.clamp_caret();
                if direction == HorizontalDirection::Left {
                    self.move_caret_x(1, direction);
                }
            }
        }
    }

    /// Feeds one typed character into the box: exactly an
    /// [`TextBox::insert_char`] of it.
    pub fn handle_text(&mut self, symbol: char)
        requires
            old(self).wf(),
        ensures
            final(self).wf(),
            Self::spec_is_control(symbol) ==> *final(self) == *old(self),
            !Self::spec_is_control(symbol) ==> {
                let clamped = spec_clamp_caret(
                    final(self).spec_lines(),
                    old(self).spec_caret().0,
                    old(self).spec_caret().1,
                );
                &&& final(self).spec_text() == old(self).spec_text().insert(
                    match old(self).spec_absolute_position() {
                        Some(p) => p,
                        None => 0,
                    },
                    symbol,
                )
                &&& final(self).spec_selection() is None
                &&& final(self).spec_caret_visible()
                &&& final(self).spec_caret() == spec_caret_after_right(
                    final(self).spec_lines(),
                    clamped.0,
                    clamped.1,
                    1,
                )
            },
    {
        self.insert_char(symbol);
    }

    /// Feeds one editing key into the box: the arrow keys move the caret
    /// one step, delete and backspace remove around it.
    pub fn handle_key(&mut self, key: TextBoxKey)
        requires
            old(self).wf(),
        ensures
            final(self).wf(),
            key is Up || key is Down ==> {
                &&& final(self).spec_text() == old(self).spec_text()
                &&& final(self).spec_selection() == old(self).spec_selection()
                &&& final(self).spec_caret().1 == old(self).spec_caret().1
                &&& (old(self).spec_lines().len() == 0 ==> final(self).spec_caret() == old(
                    self,
                ).spec_caret())
            },
            key is Up && old(self).spec_lines().len() > 0 ==> final(self).spec_caret().0 == (
            if old(self).spec_caret().0 > 1 {
                old(self).spec_caret().0 - 1
            } else {
                0int
            }),
            key is Down && old(self).spec_lines().len() > 0 ==> final(self).spec_caret().0 == (
            if old(self).spec_caret().0 + 1 >= old(self).spec_lines().len() {
                old(self).spec_lines().len() - 1
            } else {
                old(self).spec_caret().0 + 1
            }),
            key is Left || key is Right ==> {
                &&& final(self).spec_text() == old(self).spec_text()
                &&& final(self).spec_selection() is None
                &&& final(self).spec_caret_visible()
            },
            key is Left && old(self).spec_lines().len() > 0 ==> final(self).spec_caret()
                == spec_caret_after_left(
                old(self).spec_lines(),
                old(self).spec_caret().0,
                old(self).spec_caret().1,
                1,
            ),
            key is Right && old(self).spec_lines().len() > 0 ==> final(self).spec_caret()
                == spec_caret_after_right(
                old(self).spec_lines(),
                old(self).spec_caret().0,
                old(self).spec_caret().1,
                1,
            ),
            key is Delete ==> match old(self).spec_absolute_position() {
                None => *final(self) == *old(self),
                Some(position) => {
                    if old(self).spec_text().len() == 0 || position >= old(
                        self,
                    ).spec_text().len() {
                        *final(self) == *old(self)
                    } else {
                        final(self).spec_text() == old(self).spec_text().remove(position)
                    }
                },
            },
            key is Back ==> match old(self).spec_absolute_position() {
                None => *final(self) == *old(self),
                Some(position) => {
                    if old(self).spec_text().len() == 0 || position == 0 {
                        *final(self) == *old(self)
                    } else {
                        final(self).spec_text() == old(self).spec_text().remove(position - 1)
                    }
                },
            },
    {
        match key {
            TextBoxKey::Up => self.move_caret_y(1, VerticalDirection::Up),
            TextBoxKey::Down => self.move_caret_y(1, VerticalDirection::Down),
            TextBoxKey::Left => self.move_caret_x(1, HorizontalDirection::Left),
            TextBoxKey::Right => self.move_caret_x(1, HorizontalDirection::Right),
            TextBoxKey::Delete => self.remove_char(HorizontalDirection::Right),
            TextBoxKey::Back => self.remove_char(HorizontalDirection::Left),
        }
    }

    /// The pointer was pressed: any selection is cleared, selecting begins,
    /// and when the press hit text, the caret moves there and an empty
    /// selection starts at that position. A position on no line is ignored.
    pub fn press_at(&mut self, position: Option<Position>)
        requires
            old(self).wf(),
        ensures
            final(self).wf(),
            final(self).spec_selecting(),
            final(self).spec_text() == old(self).spec_text(),
            final(self).spec_lines() == old(self).spec_lines(),
            match position {
                Some(p) => {
                    if p.line < old(self).spec_lines().len() {
                        &&& final(self).spec_caret() == (p.line as int, p.offset as int)
                        &&& final(self).spec_selection() == Some(
                            SelectionRange { begin: p, end: p },
                        )
                    } else {
                        final(self).spec_selection() is None
                    }
                },
                None => final(self).spec_selection() is None,
            },
    {
        self.selection_range = None;
        self.selecting = true;
        if let Some(hit) = position {
            if hit.line < self.formatted_text.get_lines().len() {
                self.caret_line = hit.line;
                self.caret_offset = hit.offset;
                self.selection_range = Some(SelectionRange { begin: hit, end: hit });
            }
        }
    }

    /// The pointer moved: while selecting with a selection started, a hit
    /// on text drags the selection's end there.
    pub fn drag_to(&mut self, position: Option<Position>)
        requires
            old(self).wf(),
        ensures
            final(self).wf(),
            final(self).spec_text() == old(self).spec_text(),
            final(self).spec_lines() == old(self).spec_lines(),
            final(self).spec_caret() == old(self).spec_caret(),
            match (old(self).spec_selecting(), old(self).spec_selection(), position) {
                (true, Some(selection), Some(p)) => final(self).spec_selection() == Some(
                    SelectionRange { begin: selection.begin, end: p },
                ),
                _ => final(self).spec_selection() == old(self).spec_selection(),
            },
    {
        if self.selecting {
            if let Some(hit) = position {
                if let Some(selection) = self.selection_range {
                    self.selection_range = Some(SelectionRange { begin: selection.begin, end: hit });
                }
            }
        }
    }

    /// The pointer was released: selecting ends; the selection stays as it
    /// is.
    pub fn release_pointer(&mut self)
        requires
            old(self).wf(),
        ensures
            final(self).wf(),
            !final(self).spec_selecting(),
            final(self).spec_text() == old(self).spec_text(),
            final(self).spec_lines() == old(self).spec_lines(),
            final(self).spec_caret() == old(self).spec_caret(),
            final(self).spec_selection() == old(self).spec_selection(),
    {
        self.selecting = false;
    }

    /// Puts the caret back onto an existing line after the layout changed.
    fn clamp_caret(&mut self)
        requires
            old(self).formatted_text.wf(),
        ensures
            final(self).wf(),
            final(self).spec_text() == old(self).spec_text(),
            final(self).spec_lines() == old(self).spec_lines(),
            final(self).spec_selection() == old(self).spec_selection(),
            final(self).spec_caret_visible() == old(self).spec_caret_visible(),
            final(self).spec_selecting() == old(self).spec_selecting(),
            final(self).spec_caret() == spec_clamp_caret(
                old(self).spec_lines(),
                old(self).spec_caret().0,
                old(self).spec_caret().1,
            ),
    {
        let line_count = self.formatted_text.get_lines().len();
        if line_count == 0 {
            self.caret_line = 0;
            self.caret_offset = 0;
        } else if self.caret_line >= line_count {
            self.caret_line = line_count - 1;
        }
    }
}

/// True of the control characters, which never enter the text.
fn is_control_char(character: char) -> (control: bool)
    ensures
        control == TextBox::spec_is_control(character),
{
    let code = character as u32;
    code < 32 || (127 <= code && code <= 159)
}

/// A builder for text boxes: the initial text, and the font the host will
/// render the box with, named by the host's font key.
pub struct TextBoxBuilder {
    font: Option<u64>,
    text: String,
}

impl TextBoxBuilder {
    /// A builder with no font and empty text.
    pub fn new() -> (builder: Self)
        ensures
            builder.spec_font() is None,
            builder.spec_text() == Seq::<char>::empty(),
    {
        TextBoxBuilder { font: None, text: String::new() }
    }

    /// The font key the built box will carry.
    pub closed spec fn spec_font(self) -> Option<u64> {
        self.font
    }

    /// The initial text.
    pub closed spec fn spec_text(self) -> Seq<char> {
        self.text@
    }

    /// Sets the font, named by the host's font key.
    pub fn with_font(self, font: u64) -> (builder: Self)
        ensures
            builder.spec_font() == Some(font),
            builder.spec_text() == self.spec_text(),
    {
        TextBoxBuilder { font: Some(font), ..self }
    }

    /// Sets the initial text.
    pub fn with_text(self, text: String) -> (builder: Self)
        ensures
            builder.spec_font() == self.spec_font(),
            builder.spec_text() == text@,
    {
        TextBoxBuilder { text, ..self }
    }

    /// Builds the text box: the initial text laid out, the caret at the
    /// origin, nothing selected. The chosen font key is handed back beside
    /// it for the host's rendering layer.
    pub fn build(self) -> (built: (TextBox, Option<u64>))
        ensures
            built.0.wf(),
            built.0.spec_text() == self.spec_text(),
            built.0.spec_selection() is None,
            built.0.spec_caret() == (0int, 0int),
            built.0.spec_caret_visible(),
            !built.0.spec_selecting(),
            built.1 == self.spec_font(),
    {
        let TextBoxBuilder { font, text } = self;
        let length = text.as_str().unicode_len();
        let mut characters: Vec<char> = Vec::new();
        let mut position: usize = 0;
        while position < length
            invariant
                position <= length,
                length == text@.len(),
                characters@ == text@.subrange(0, position as int),
            decreases length - position,
        {
            characters.push(text.as_str().get_char(position));
            proof {
                assert(characters@ =~= text@.subrange(0, position as int + 1));
            }
            position += 1;
        }
        proof {
            assert(characters@ =~= text@);
        }
        let mut formatted_text = FormattedText::new();
        formatted_text.set_text(characters);
        formatted_text.build();
        let text_box = TextBox {
            formatted_text,
            caret_line: 0,
            caret_offset: 0,
            caret_visible: true,
            selection_range: None,
            selecting: false,
        };
        (text_box, font)
    }
}

} // verus!
