//! The text model a text box edits: the raw characters and their layout
//! into lines.
//!
//! Layout here is the plain, font-independent part: lines are the maximal
//! newline-free runs of the text. Pixel positioning of lines and glyphs is
//! the host's rendering concern and never feeds back into the text model.

use vstd::prelude::*;

verus! {

/// One laid-out line: the half-open range of character positions it covers.
#[derive(Clone, Copy, PartialEq, Eq, Structural, Debug)]
pub struct TextLine {
    /// Position of the line's first character.
    pub begin: usize,
    /// Position one past the line's last character.
    pub end: usize,
}

impl TextLine {
    /// The number of characters on the line.
    pub open spec fn spec_len(self) -> int {
        self.end - self.begin
    }

    /// Returns the number of characters on the line.
    pub fn len(&self) -> (length: usize)
        requires
            self.begin <= self.end,
        ensures
            length == self.spec_len(),
    {
        self.end - self.begin
    }
}

/// The lines of a layout partition the text into its maximal newline-free
/// runs: consecutive lines are separated by exactly one newline character,
/// the first line starts at the beginning, the last ends at the end, and no
/// line contains a newline. Empty text has no lines.
pub open spec fn spec_is_layout(text: Seq<char>, lines: Seq<TextLine>) -> bool {
    if text.len() == 0 {
        lines.len() == 0
    } else {
        &&& lines.len() > 0
        &&& lines[0].begin == 0
        &&& lines[lines.len() - 1].end == text.len()
        &&& forall|i: int| 0 <= i < lines.len() ==> (#[trigger] lines[i]).begin <= lines[i].end <= text.len()
        &&& forall|i: int|
            0 <= i < lines.len() - 1 ==> lines[i].end < text.len() && (#[trigger] lines[i + 1].begin)
                == lines[i].end + 1 && text[lines[i].end as int] == '\n'
        &&& forall|i: int, j: int|
            0 <= i < lines.len() && (#[trigger] lines[i]).begin <= j < lines[i].end ==> (
            #[trigger] text[j]) != '\n'
    }
}

/// The partially built layout of the prefix `text[..begin]`: the lines seen
/// so far, each followed by its newline, with the next line starting at
/// `begin`.
pub open spec fn spec_is_partial_layout(text: Seq<char>, lines: Seq<TextLine>, begin: int) -> bool {
    &&& if lines.len() == 0 {
        begin == 0
    } else {
        &&& lines[0].begin == 0
        &&& lines[lines.len() - 1].end + 1 == begin
        &&& forall|i: int|
            0 <= i < lines.len() ==> lines[i].end < text.len() && text[lines[i].end as int] == '\n'
        &&& forall|i: int|
            0 <= i < lines.len() - 1 ==> (#[trigger] lines[i + 1].begin) == lines[i].end + 1
    }
    &&& forall|i: int| 0 <= i < lines.len() ==> (#[trigger] lines[i]).begin <= lines[i].end <= text.len()
    &&& forall|i: int, j: int|
        0 <= i < lines.len() && (#[trigger] lines[i]).begin <= j < lines[i].end ==> (
        #[trigger] text[j]) != '\n'
}

/// The raw text of a text box and its layout into lines.
pub struct FormattedText {
    text: Vec<char>,
    lines: Vec<TextLine>,
}

impl FormattedText {
    /// The raw characters.
    pub closed spec fn spec_text(self) -> Seq<char> {
        self.text@
    }

    /// The laid-out lines.
    pub closed spec fn spec_lines(self) -> Seq<TextLine> {
        self.lines@
    }

    /// The lines are a layout of the text.
    pub open spec fn wf(self) -> bool {
        spec_is_layout(self.spec_text(), self.spec_lines())
    }

    /// An empty text with no lines.
    pub fn new() -> (formatted: Self)
        ensures
            formatted.wf(),
            formatted.spec_text() == Seq::<char>::empty(),
            formatted.spec_lines() == Seq::<TextLine>::empty(),
    {
        FormattedText { text: Vec::new(), lines: Vec::new() }
    }

    /// The raw characters, in order.
    pub fn get_raw_text(&self) -> (text: &Vec<char>)
        ensures
            text@ == self.spec_text(),
    {
        &self.text
    }

    /// The number of raw characters.
    pub fn text_len(&self) -> (length: usize)
        ensures
            length == self.spec_text().len(),
    {
        self.text.len()
    }

    /// The laid-out lines, in order.
    pub fn get_lines(&self) -> (lines: &Vec<TextLine>)
        ensures
            lines@ == self.spec_lines(),
    {
        &self.lines
    }

    /// Inserts `character` at `position` in the raw text. The layout is
    /// stale until the next [`FormattedText::build`].
    pub fn insert_char(&mut self, character: char, position: usize)
        requires
            position <= old(self).spec_text().len(),
        ensures
            final(self).spec_text() == old(self).spec_text().insert(position as int, character),
            final(self).spec_lines() == old(self).spec_lines(),
    {
        self.text.insert(position, character);
    }

    /// Removes the character at `position` from the raw text. The layout is
    /// stale until the next [`FormattedText::build`].
    pub fn remove_at(&mut self, position: usize)
        requires
            position < old(self).spec_text().len(),
        ensures
            final(self).spec_text() == old(self).spec_text().remove(position as int),
            final(self).spec_lines() == old(self).spec_lines(),
    {
        self.text.remove(position);
    }

    /// Replaces the raw text wholesale. The layout is stale until the next
    /// [`FormattedText::build`].
    pub fn set_text(&mut self, text: Vec<char>)
        ensures
            final(self).spec_text() == text@,
            final(self).spec_lines() == old(self).spec_lines(),
    {
        self.text = text;
    }

    /// Recomputes the layout: the lines become the maximal newline-free
    /// runs of the text.
    pub fn build(&mut self)
        ensures
            final(self).spec_text() == old(self).spec_text(),
            final(self).wf(),
    {
        let mut lines: Vec<TextLine> = Vec::new();
        let length = self.text.len();
        if length == 0 {
            self.lines = lines;
            return ;
        }
        let mut begin: usize = 0;
        let mut position: usize = 0;
        while position < length
            invariant
                begin <= position <= length,
                length == self.text@.len(),
                length > 0,
                spec_is_partial_layout(self.text@, lines@, begin as int),
                forall|j: int| begin <= j < position ==> self.text@[j] != '\n',
            decreases length - position,
        {
            if self.text[position] == '\n' {
                lines.push(TextLine { begin, end: position });
                begin = position + 1;
            }
            position += 1;
        }
        lines.push(TextLine { begin, end: length });
        self.lines = lines;
    }
}

} // verus!
