//! Padding a text to a minimum width.

use vstd::prelude::*;

verus! {

/// Where a text stands inside a field wider than itself.
#[derive(Clone, Copy, Debug, PartialEq, Eq)]
pub enum Alignment {
    /// The text comes first, the fill follows it.
    Left,
    /// The fill comes first, the text follows it.
    Right,
    /// The fill is split around the text; an odd character goes behind it.
    Center,
}

/// Directives for writing a text out. Each one may be left unset.
#[derive(Clone, Copy, Debug)]
pub struct Layout {
    /// The largest number of characters of the text that are written.
    pub precision: Option<usize>,
    /// The smallest number of characters that the padded text takes.
    pub width: Option<usize>,
    /// Where the text stands in the field; unset means `Left`.
    pub align: Option<Alignment>,
    /// The character that fills the field; unset means a space.
    pub fill: Option<char>,
}

/// `count` copies of `fill`.
pub open spec fn repeated(fill: char, count: nat) -> Seq<char> {
    Seq::new(count, |i: int| fill)
}

/// `String::from` of the standard library, given one character, makes the
/// string that holds that character and nothing else.
pub assume_specification[ <String as From<char>>::from ](c: char) -> (unit: String)
    ensures
        unit@ == seq![c],
;

impl Default for Layout {
    /// The layout that asks for nothing.
    fn default() -> (out: Self)
        ensures
            out == (Layout { precision: None, width: None, align: None, fill: None }),
    {
        Layout { precision: None, width: None, align: None, fill: None }
    }
}

impl Layout {
    /// The character that fills the field.
    pub open spec fn filler(self) -> char {
        match self.fill {
            Some(c) => c,
            None => ' ',
        }
    }

    /// How many fill characters a text of `len` characters needs.
    pub open spec fn gap(self, len: nat) -> nat {
        match self.width {
            Some(w) => if w > len { (w - len) as nat } else { 0 },
            None => 0,
        }
    }

    /// How many of them stand in front of the text.
    pub open spec fn lead(self, len: nat) -> nat {
        match self.align {
            Some(Alignment::Right) => self.gap(len),
            Some(Alignment::Center) => self.gap(len) / 2,
            _ => 0,
        }
    }

    /// The text brought to the width of the layout. The precision plays no
    /// part here.
    pub open spec fn padded(self, text: Seq<char>) -> Seq<char> {
        let lead = self.lead(text.len());
        let trail = (self.gap(text.len()) - lead) as nat;
        repeated(self.filler(), lead) + text + repeated(self.filler(), trail)
    }

    /// Pads `text` to the width of the layout, with its fill character and
    /// alignment. A text that is as long as the width, or longer, comes back
    /// as it is: nothing is ever cut here.
    pub fn pad(&self, text: &str) -> (out: String)
        ensures
            out@ == self.padded(text@),
    {
        let len: usize = text.unicode_len();
        let gap: usize = match self.width {
            Some(w) => if w > len { w - len } else { 0 },
            None => 0,
        };
        let lead: usize = match self.align {
            Some(Alignment::Right) => gap,
            Some(Alignment::Center) => gap / 2,
            _ => 0,
        };
        let fill: char = match self.fill {
            Some(c) => c,
            None => ' ',
        };
        let mut out = String::new();
        push_repeated(&mut out, fill, lead);
        out.append(text);
        push_repeated(&mut out, fill, gap - lead);
        out
    }
}

/// Appends `count` copies of `fill` to `out`.
fn push_repeated(out: &mut String, fill: char, count: usize)
    ensures
        final(out)@ == old(out)@ + repeated(fill, count as nat),
{
    let unit = String::from(fill);
    let mut done: usize = 0;
    while done < count
        invariant
            done <= count,
            unit@ == seq![fill],
            out@ == old(out)@ + repeated(fill, done as nat),
        decreases count - done,
    {
        out.append(unit.as_str());
        done = done + 1;
    }
}

} // verus!
