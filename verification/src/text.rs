//! The truncatable text, its model and its operations.

use crate::laws::lemma_cut_text_preserves_content;
use crate::laws::lemma_cut_text_shows_marker;
use crate::laws::lemma_truncate_is_render;
use crate::layout::Layout;
use vstd::prelude::*;

verus! {

/// Which end of a text survives a cut.
#[derive(Clone, Copy, Debug, PartialEq, Eq)]
pub enum Direction {
    /// The beginning is kept and the marker follows it.
    LeftToRight,
    /// The end is kept and the marker leads it.
    RightToLeft,
}

/// What a [`Truncatable`] stands for: three plain values.
pub struct Content {
    /// The text, whole.
    pub value: Seq<char>,
    /// The continuation marker.
    pub marker: Seq<char>,
    /// The end of the text that is kept.
    pub direction: Direction,
}

/// The marker of a text that was given none: three full stops.
pub open spec fn default_marker() -> Seq<char> {
    seq!['.', '.', '.']
}

impl Content {
    /// A text as it is first made: default marker, left to right.
    pub open spec fn fresh(value: Seq<char>) -> Content {
        Content { value, marker: default_marker(), direction: Direction::LeftToRight }
    }

    /// The same text under another marker.
    pub open spec fn with_marker(self, marker: Seq<char>) -> Content {
        Content { marker, ..self }
    }

    /// The same text read in another direction.
    pub open spec fn with_direction(self, direction: Direction) -> Content {
        Content { direction, ..self }
    }

    /// Whether a limit of `length` characters cuts the text.
    pub open spec fn cuts(self, length: nat) -> bool {
        length < self.value.len()
    }

    /// The `length` characters that a cut leaves: the first ones when read
    /// left to right, the last ones when read right to left.
    pub open spec fn kept(self, length: nat) -> Seq<char>
        recommends
            self.cuts(length),
    {
        match self.direction {
            Direction::LeftToRight => self.value.take(length as int),
            Direction::RightToLeft => self.value.skip(self.value.len() - length),
        }
    }

    /// `shown` with the marker set against the cut.
    pub open spec fn marked(self, shown: Seq<char>) -> Seq<char> {
        match self.direction {
            Direction::LeftToRight => shown + self.marker,
            Direction::RightToLeft => self.marker + shown,
        }
    }

    /// The text cut to `length` characters: untouched where it fits, else
    /// the kept characters with the marker beside them.
    pub open spec fn truncated(self, length: nat) -> Seq<char> {
        if self.cuts(length) {
            self.marked(self.kept(length))
        } else {
            self.value
        }
    }

    /// The text written out under `layout`. Where the precision cuts it, the
    /// kept characters are padded and the marker stands outside the padding;
    /// where it does not, the whole text is padded and there is no marker.
    pub open spec fn rendered(self, layout: Layout) -> Seq<char> {
        match layout.precision {
            Some(p) if self.cuts(p as nat) => self.marked(layout.padded(self.kept(p as nat))),
            _ => layout.padded(self.value),
        }
    }
}

/// A text with the marker and the direction by which it is cut.
#[derive(Debug)]
pub struct Truncatable {
    value: String,
    marker: String,
    direction: Direction,
}

impl View for Truncatable {
    type V = Content;

    closed spec fn view(&self) -> Content {
        Content { value: self.value@, marker: self.marker@, direction: self.direction }
    }
}

impl Clone for Truncatable {
    fn clone(&self) -> (out: Self)
        ensures
            out@ == self@,
    {
        Truncatable {
            value: self.value.clone(),
            marker: self.marker.clone(),
            direction: self.direction,
        }
    }
}

impl From<String> for Truncatable {
    /// The same as [`Truncatable::new`].
    fn from(value: String) -> (out: Self)
        ensures
            out@ == Content::fresh(value@),
    {
        Truncatable::new(value)
    }
}

impl<'a> From<&'a str> for Truncatable {
    /// The same as [`Truncatable::new`] on a copy of `value`.
    fn from(value: &'a str) -> (out: Self)
        ensures
            out@ == Content::fresh(value@),
    {
        Truncatable::new(value.to_owned())
    }
}

/// No string can be written down in a specification, so neither conversion
/// is stated as an equation between texts: what `from` returns is stated by
/// its own `ensures`, over the view.
impl vstd::std_specs::convert::FromSpecImpl<String> for Truncatable {
    open spec fn obeys_from_spec() -> bool {
        false
    }

    open spec fn from_spec(value: String) -> Self {
        arbitrary()
    }
}

impl<'a> vstd::std_specs::convert::FromSpecImpl<&'a str> for Truncatable {
    open spec fn obeys_from_spec() -> bool {
        false
    }

    open spec fn from_spec(value: &'a str) -> Self {
        arbitrary()
    }
}

impl Truncatable {
    /// Wraps `value` as it is, with the default marker `"..."`, read left to
    /// right.
    pub fn new(value: String) -> (out: Self)
        ensures
            out@ == Content::fresh(value@),
    {
        proof {
            reveal_strlit("...");
        }
        let marker = "...".to_owned();
        assert(marker@ =~= default_marker());
        Truncatable { value, marker, direction: Direction::LeftToRight }
    }

    /// The text, whole, as it was given.
    pub fn value(&self) -> (out: &str)
        ensures
            out@ == self@.value,
    {
        self.value.as_str()
    }

    /// The continuation marker.
    pub fn marker(&self) -> (out: &str)
        ensures
            out@ == self@.marker,
    {
        self.marker.as_str()
    }

    /// The end of the text that a cut keeps.
    pub fn direction(&self) -> (out: Direction)
        ensures
            out == self@.direction,
    {
        self.direction
    }

    /// Replaces the marker. Any text will do, the empty one too.
    pub fn truncator(self, truncator: String) -> (out: Self)
        ensures
            out@ == self@.with_marker(truncator@),
    {
        Truncatable { value: self.value, marker: truncator, direction: self.direction }
    }

    /// Keeps the beginning of the text from now on.
    pub fn ltr(self) -> (out: Self)
        ensures
            out@ == self@.with_direction(Direction::LeftToRight),
    {
        Truncatable { value: self.value, marker: self.marker, direction: Direction::LeftToRight }
    }

    /// Keeps the end of the text from now on.
    pub fn rtl(self) -> (out: Self)
        ensures
            out@ == self@.with_direction(Direction::RightToLeft),
    {
        Truncatable { value: self.value, marker: self.marker, direction: Direction::RightToLeft }
    }

    /// Cuts the text to `length` characters. A text of no more than `length`
    /// characters comes back as it is. A longer one gives its first `length`
    /// characters followed by the marker or, read right to left, the marker
    /// followed by its last `length` characters. The marker comes on top of
    /// the characters kept.
    pub fn truncate(&self, length: usize) -> (out: String)
        ensures
            out@ == self@.truncated(length as nat),
            length >= self@.value.len() ==> out@ == self@.value,
            length < self@.value.len() ==> out@.len() == length + self@.marker.len(),
            length < self@.value.len() ==> match self@.direction {
                Direction::LeftToRight => {
                    &&& self@.marker.is_suffix_of(out@)
                    &&& out@.take(out@.len() - self@.marker.len()) == self@.value.take(
                        length as int,
                    )
                },
                Direction::RightToLeft => {
                    &&& self@.marker.is_prefix_of(out@)
                    &&& out@.skip(self@.marker.len() as int) == self@.value.skip(
                        self@.value.len() - length,
                    )
                },
            },
    {
        proof {
            lemma_truncate_is_render(self@, length);
            if length < self@.value.len() {
                lemma_cut_text_shows_marker(self@, length as nat);
                lemma_cut_text_preserves_content(self@, length as nat);
            }
        }
        let layout = Layout { precision: Some(length), width: None, align: None, fill: None };
        self.render(&layout)
    }

    /// Writes the text out under `layout`. A precision below the number of
    /// characters of the text cuts it as [`Truncatable::truncate`] does; width,
    /// alignment and fill then pad the kept characters, and the marker is set
    /// outside the padded field, so that no directive can hide it. Without a
    /// precision, or with one that the text fits, the whole text is padded
    /// and no marker appears.
    pub fn render(&self, layout: &Layout) -> (out: String)
        ensures
            out@ == self@.rendered(*layout),
            layout.precision is None ==> out@ == layout.padded(self@.value),
    {
        let text = self.value.as_str();
        let len: usize = text.unicode_len();
        if let Some(p) = layout.precision {
            if p < len {
                return match self.direction {
                    Direction::LeftToRight => {
                        let mut out = layout.pad(text.substring_char(0, p));
                        out.append(self.marker.as_str());
                        out
                    },
                    Direction::RightToLeft => {
                        let shown = layout.pad(text.substring_char(len - p, len));
                        let mut out = self.marker.clone();
                        out.append(shown.as_str());
                        out
                    },
                };
            }
        }
        layout.pad(text)
    }
}

} // verus!
