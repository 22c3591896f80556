//! What holds of every truncatable text, proved over its model.

use crate::layout::Layout;
use crate::text::Content;
use crate::text::Direction;
use vstd::prelude::*;

verus! {

/// A text that fits the limit is returned unchanged, without a marker.
pub proof fn lemma_fitting_text_is_unchanged(content: Content, length: nat)
    requires
        length >= content.value.len(),
    ensures
        content.truncated(length) == content.value,
{
}

/// A text that is cut shows the marker whole: at its end when read left to
/// right, at its start when read right to left.
pub proof fn lemma_cut_text_shows_marker(content: Content, length: nat)
    requires
        length < content.value.len(),
    ensures
        content.direction == Direction::LeftToRight ==> content.marker.is_suffix_of(
            content.truncated(length),
        ),
        content.direction == Direction::RightToLeft ==> content.marker.is_prefix_of(
            content.truncated(length),
        ),
        content.truncated(length).len() == length + content.marker.len(),
{
    let out = content.truncated(length);
    match content.direction {
        Direction::LeftToRight => {
            assert(out.skip(out.len() - content.marker.len()) =~= content.marker);
        },
        Direction::RightToLeft => {
            assert(out.take(content.marker.len() as int) =~= content.marker);
        },
    }
}

/// Beside the marker a cut text holds exactly `length` characters of the
/// whole text, unchanged: before the marker its first ones when read left to
/// right, after the marker its last ones when read right to left.
pub proof fn lemma_cut_text_preserves_content(content: Content, length: nat)
    requires
        length < content.value.len(),
    ensures
        content.direction == Direction::LeftToRight ==> content.truncated(length).take(
            content.truncated(length).len() - content.marker.len(),
        ) == content.value.take(length as int),
        content.direction == Direction::RightToLeft ==> content.truncated(length).skip(
            content.marker.len() as int,
        ) == content.value.skip(content.value.len() - length),
{
    let out = content.truncated(length);
    match content.direction {
        Direction::LeftToRight => {
            assert(out.take(out.len() - content.marker.len()) =~= content.value.take(
                length as int,
            ));
        },
        Direction::RightToLeft => {
            assert(out.skip(content.marker.len() as int) =~= content.value.skip(
                content.value.len() - length,
            ));
        },
    }
}

/// Marker and direction are set independently: neither setting touches the
/// other or the text, and the two may be made in either order.
pub proof fn lemma_settings_are_independent(
    content: Content,
    marker: Seq<char>,
    direction: Direction,
)
    ensures
        content.with_marker(marker).direction == content.direction,
        content.with_marker(marker).value == content.value,
        content.with_direction(direction).marker == content.marker,
        content.with_direction(direction).value == content.value,
        content.with_marker(marker).with_direction(direction) == content.with_direction(
            direction,
        ).with_marker(marker),
{
}

/// Of two settings of the same kind the later one stands, so to repeat a
/// setting changes nothing.
pub proof fn lemma_last_setting_stands(
    content: Content,
    first_marker: Seq<char>,
    marker: Seq<char>,
    first_direction: Direction,
    direction: Direction,
)
    ensures
        content.with_marker(first_marker).with_marker(marker) == content.with_marker(marker),
        content.with_marker(marker).with_marker(marker) == content.with_marker(marker),
        content.with_direction(first_direction).with_direction(direction)
            == content.with_direction(direction),
        content.with_direction(direction).with_direction(direction) == content.with_direction(
            direction,
        ),
{
}

/// Padding never cuts: a text that fills the width comes back as it is, and
/// a shorter one is brought to the width exactly, around the text in place.
pub proof fn lemma_padding_fills_to_width(layout: Layout, text: Seq<char>)
    ensures
        layout.gap(text.len()) == 0 ==> layout.padded(text) == text,
        layout.padded(text).len() == text.len() + layout.gap(text.len()),
        layout.lead(text.len()) <= layout.gap(text.len()),
        layout.padded(text).subrange(
            layout.lead(text.len()) as int,
            (layout.lead(text.len()) + text.len()) as int,
        ) == text,
{
    let lead = layout.lead(text.len());
    assert(layout.padded(text).subrange(lead as int, (lead + text.len()) as int) =~= text);
    if layout.gap(text.len()) == 0 {
        assert(layout.padded(text) =~= text);
    }
}

/// Without a precision a truncatable text is written out exactly as its
/// plain text is padded, whatever marker and direction it has.
pub proof fn lemma_render_without_precision_is_padding(content: Content, layout: Layout)
    requires
        layout.precision is None,
    ensures
        content.rendered(layout) == layout.padded(content.value),
{
}

/// A precision that the text fits leaves no trace either.
pub proof fn lemma_render_of_fitting_text_is_padding(content: Content, layout: Layout)
    requires
        layout.precision matches Some(p) && p >= content.value.len(),
    ensures
        content.rendered(layout) == layout.padded(content.value),
{
}

/// To truncate is to write the text out with a precision and nothing else.
pub proof fn lemma_truncate_is_render(content: Content, length: usize)
    ensures
        content.truncated(length as nat) == content.rendered(
            Layout { precision: Some(length), width: None, align: None, fill: None },
        ),
{
    let layout = Layout { precision: Some(length), width: None, align: None, fill: None };
    if content.cuts(length as nat) {
        let shown = content.kept(length as nat);
        assert(layout.padded(shown) =~= shown);
    } else {
        assert(layout.padded(content.value) =~= content.value);
    }
}

/// Where the precision cuts the text, width, alignment and fill act on the
/// kept characters alone: the marker stands whole outside the padded field,
/// after it when read left to right and before it when read right to left.
pub proof fn lemma_marker_stands_outside_padding(content: Content, layout: Layout)
    requires
        layout.precision matches Some(p) && p < content.value.len(),
    ensures
        content.direction == Direction::LeftToRight ==> content.rendered(layout) == layout.padded(
            content.value.take(layout.precision->0 as int),
        ) + content.marker,
        content.direction == Direction::RightToLeft ==> content.rendered(layout)
            == content.marker + layout.padded(
            content.value.skip(content.value.len() - layout.precision->0),
        ),
{
}

} // verus!
