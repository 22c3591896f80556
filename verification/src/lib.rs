//! Text that announces its own truncation.
//!
//! A [`Truncatable`] holds a text, a continuation marker and a direction.
//! Cut to a number of characters it keeps one end of the text and sets the
//! marker against the cut: `"Hello World!"` cut to five characters with the
//! marker `"~~"` reads `"Hello~~"`. Lengths are counted in characters.
//!
//! Width, alignment and fill are the business of [`Layout`]; they act on the
//! characters that are kept and never on the marker.

pub mod laws;
pub mod layout;
pub mod text;

pub use crate::layout::Alignment;
pub use crate::layout::Layout;
pub use crate::text::Content;
pub use crate::text::Direction;
pub use crate::text::Truncatable;
