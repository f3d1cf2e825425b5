//! How much room preview content takes in a viewport, and the scroll offsets it allows.

use crate::display_text::{text_line_count, text_line_width, text_line_widths};
use crate::preview::{InteractionView, PreviewInteractionState};
use ratatui::text::Text;
use vstd::prelude::*;

verus! {

/// The columns left for content once `reserved` columns of the viewport are set aside.
pub open spec fn usable_columns(viewport_width: u16, reserved: u16) -> nat {
    if viewport_width > reserved {
        (viewport_width - reserved) as nat
    } else {
        0
    }
}

/// The rows one line of display width `width` takes: a wrapped line that is wider than a
/// non-empty viewport takes one row per started run of `usable` columns; any other line one row.
pub open spec fn line_rows(width: usize, usable: nat, wrap: bool) -> nat {
    if wrap && usable > 0 && width > usable {
        (width as nat / usable + if width as nat % usable == 0 { 0nat } else { 1nat }) as nat
    } else {
        1
    }
}

/// The rows taken by lines of the given display widths.
pub open spec fn content_rows(widths: Seq<usize>, usable: nat, wrap: bool) -> nat
    decreases widths.len(),
{
    if widths.len() == 0 {
        0
    } else {
        content_rows(widths.drop_last(), usable, wrap) + line_rows(widths.last(), usable, wrap)
    }
}

/// The display width of the widest of the lines.
pub open spec fn widest(widths: Seq<usize>) -> nat
    decreases widths.len(),
{
    if widths.len() == 0 {
        0
    } else if widest(widths.drop_last()) >= widths.last() {
        widest(widths.drop_last())
    } else {
        widths.last() as nat
    }
}

/// A row count as a `usize`, held at `usize::MAX` when it is larger.
pub open spec fn saturated(count: nat) -> usize {
    if count < usize::MAX {
        count as usize
    } else {
        usize::MAX
    }
}

/// The rows that content of the given line widths takes in this interaction's viewport.
pub open spec fn displayed_rows(
    interaction: InteractionView,
    widths: Seq<usize>,
    wrap: bool,
    reserved: u16,
) -> nat {
    content_rows(widths, usable_columns(interaction.viewport_width, reserved), wrap)
}

/// The largest vertical offset that still fills the viewport: zero when everything fits.
pub open spec fn max_vertical_scroll(rows: nat, viewport_height: u16) -> nat {
    if rows > viewport_height {
        (rows - viewport_height) as nat
    } else {
        0
    }
}

/// The largest horizontal offset: none for wrapped content, else how far the widest line
/// overhangs the usable columns.
pub open spec fn max_horizontal_scroll(widths: Seq<usize>, usable: nat, wrap: bool) -> nat {
    if wrap || widest(widths) <= usable {
        0
    } else {
        (widest(widths) - usable) as nat
    }
}

/// The smaller of an offset and its limit.
pub open spec fn clamp_offset(offset: u16, limit: nat) -> u16 {
    if offset <= limit {
        offset
    } else {
        limit as u16
    }
}

/// The interaction with both offsets held within what its viewport allows for the content;
/// everything else unchanged.
pub open spec fn clamped(
    interaction: InteractionView,
    widths: Seq<usize>,
    wrap: bool,
    reserved: u16,
) -> InteractionView {
    InteractionView {
        vertical_scroll: clamp_offset(
            interaction.vertical_scroll,
            max_vertical_scroll(
                displayed_rows(interaction, widths, wrap, reserved),
                interaction.viewport_height,
            ),
        ),
        horizontal_scroll: clamp_offset(
            interaction.horizontal_scroll,
            max_horizontal_scroll(
                widths,
                usable_columns(interaction.viewport_width, reserved),
                wrap,
            ),
        ),
        viewport_width: interaction.viewport_width,
        viewport_height: interaction.viewport_height,
        search: interaction.search,
    }
}

/// Clamping offsets that are already clamped changes nothing, and never raises an offset.
pub proof fn clamping_is_stable(
    interaction: InteractionView,
    widths: Seq<usize>,
    wrap: bool,
    reserved: u16,
)
    ensures
        clamped(clamped(interaction, widths, wrap, reserved), widths, wrap, reserved) == clamped(
            interaction,
            widths,
            wrap,
            reserved,
        ),
        clamped(interaction, widths, wrap, reserved).vertical_scroll
            <= interaction.vertical_scroll,
        clamped(interaction, widths, wrap, reserved).horizontal_scroll
            <= interaction.horizontal_scroll,
{
}

/// The usable columns are the viewport's width less the reserved columns, and none when the
/// reserved columns take the whole width.
pub proof fn usable_columns_leave_out_the_reserved(viewport_width: u16, reserved: u16)
    ensures
        usable_columns(viewport_width, reserved) + reserved == viewport_width || (usable_columns(
            viewport_width,
            reserved,
        ) == 0 && viewport_width <= reserved),
        usable_columns(viewport_width, 0) == viewport_width,
{
}

/// Every line takes at least one row, wrapped or not, so content takes at least as many rows as
/// it has lines; unwrapped, it takes exactly one row per line.
pub proof fn every_line_takes_a_row(widths: Seq<usize>, usable: nat, wrap: bool)
    ensures
        content_rows(widths, usable, wrap) >= widths.len(),
        !wrap ==> content_rows(widths, usable, false) == widths.len(),
    decreases widths.len(),
{
    if widths.len() > 0 {
        every_line_takes_a_row(widths.drop_last(), usable, wrap);
        let width = widths.last();
        if wrap && usable > 0 && width > usable {
            assert(width as nat / usable >= 1) by (nonlinear_arith)
                requires
                    usable > 0,
                    width > usable,
            ;
        }
    }
}

/// A wrapped line of display width `width` adds `k` rows to the content before it, where `k` is
/// the least number of `usable`-column runs that hold the line, and at least one: `k >= 1`,
/// `k * usable >= width`, and one run fewer would not hold it.
pub proof fn wrapped_line_takes_its_runs(widths: Seq<usize>, width: usize, usable: nat)
    requires
        usable > 0,
    ensures
        content_rows(widths.push(width), usable, true) >= content_rows(widths, usable, true) + 1,
        ({
            let k = content_rows(widths.push(width), usable, true) - content_rows(
                widths,
                usable,
                true,
            );
            &&& k * usable >= width
            &&& k == 1 || (k - 1) * usable < width
        }),
{
    assert(widths.push(width).drop_last() =~= widths);
    let k = line_rows(width, usable, true);
    assert(content_rows(widths.push(width), usable, true) == content_rows(widths, usable, true)
        + k);
    if width > usable {
        let w = width as int;
        let u = usable as int;
        let q = w / u;
        let r = w % u;
        vstd::arithmetic::div_mod::lemma_fundamental_div_mod(w, u);
        assert(0 <= r < u);
        assert(q >= 1) by (nonlinear_arith)
            requires
                w == u * q + r,
                0 <= r < u,
                w > u,
        ;
        if r == 0 {
            assert(k == q);
            assert(k * u >= w && (k - 1) * u < w) by (nonlinear_arith)
                requires
                    k == q,
                    w == u * q,
                    u > 0,
            ;
        } else {
            assert(k == q + 1);
            assert(k * u >= w && (k - 1) * u < w) by (nonlinear_arith)
                requires
                    k == q + 1,
                    w == u * q + r,
                    0 < r < u,
            ;
        }
    } else {
        assert(k == 1);
    }
}

/// No line is wider than the widest, and some line is that wide when there is any line.
pub proof fn widest_is_the_widest_line(widths: Seq<usize>)
    ensures
        forall|j: int| 0 <= j < widths.len() ==> #[trigger] widths[j] <= widest(widths),
        widths.len() > 0 ==> exists|j: int| 0 <= j < widths.len() && widths[j] == widest(widths),
        widths.len() == 0 ==> widest(widths) == 0,
    decreases widths.len(),
{
    if widths.len() > 0 {
        let rest = widths.drop_last();
        widest_is_the_widest_line(rest);
        assert forall|j: int| 0 <= j < widths.len() implies #[trigger] widths[j] <= widest(
            widths,
        ) by {
            if j < rest.len() {
                assert(widths[j] == rest[j]);
            }
        }
        if rest.len() == 0 {
            assert(widths[0] == widest(widths));
        } else if widest(rest) >= widths.last() {
            let j = choose|j: int| 0 <= j < rest.len() && rest[j] == widest(rest);
            assert(widths[j] == rest[j]);
        } else {
            assert(widths[widths.len() - 1] == widest(widths));
        }
    }
}

/// Clamping keeps the viewport and search, and holds each offset within what the viewport
/// allows: a vertical offset with a full viewport of rows below it (rows counted as displayed,
/// wrapped lines by their runs) is kept, and a larger one is moved so the last row sits at the
/// bottom; wrapped content has no horizontal offset, and unwrapped content keeps a horizontal
/// offset that leaves the usable columns within the widest line, and otherwise moves it so the
/// widest line ends at the right edge. No offset grows.
pub proof fn clamping_keeps_what_fits(
    interaction: InteractionView,
    widths: Seq<usize>,
    wrap: bool,
    reserved: u16,
)
    ensures
        ({
            let after = clamped(interaction, widths, wrap, reserved);
            let rows = displayed_rows(interaction, widths, wrap, reserved);
            let usable = usable_columns(interaction.viewport_width, reserved);
            &&& after.viewport_width == interaction.viewport_width
            &&& after.viewport_height == interaction.viewport_height
            &&& after.search == interaction.search
            &&& after.vertical_scroll <= interaction.vertical_scroll
            &&& after.horizontal_scroll <= interaction.horizontal_scroll
            &&& interaction.vertical_scroll + interaction.viewport_height <= rows
                ==> after.vertical_scroll == interaction.vertical_scroll
            &&& after.vertical_scroll != interaction.vertical_scroll ==> after.vertical_scroll
                + interaction.viewport_height == rows || (after.vertical_scroll == 0
                && rows <= interaction.viewport_height)
            &&& wrap ==> after.horizontal_scroll == 0
            &&& !wrap && interaction.horizontal_scroll + usable <= widest(widths)
                ==> after.horizontal_scroll == interaction.horizontal_scroll
            &&& !wrap && after.horizontal_scroll != interaction.horizontal_scroll
                ==> after.horizontal_scroll + usable == widest(widths) || (after.horizontal_scroll
                == 0 && widest(widths) <= usable)
        }),
{
}

/// The number of rows `text` takes in the interaction's viewport, `reserved` columns set aside.
pub fn rendered_rows(
    interaction: &PreviewInteractionState,
    text: &Text<'static>,
    wrap: bool,
    reserved: u16,
) -> (rows: usize)
    ensures
        rows == saturated(displayed_rows(interaction@, text_line_widths(*text), wrap, reserved)),
    no_unwind
{
    let ghost widths = text_line_widths(*text);
    let usable: usize = if interaction.viewport_width > reserved {
        (interaction.viewport_width - reserved) as usize
    } else {
        0
    };
    let count = text_line_count(text);
    let mut rows: usize = 0;
    let mut index: usize = 0;
    assert(widths.take(0) =~= Seq::<usize>::empty());
    while index < count
        invariant
            index <= count,
            count == widths.len(),
            widths == text_line_widths(*text),
            usable as nat == usable_columns(interaction.viewport_width, reserved),
            rows == saturated(content_rows(widths.take(index as int), usable as nat, wrap)),
        decreases count - index,
    {
        let width = text_line_width(text, index);
        let line: usize = if wrap && usable > 0 && width > usable {
            if width % usable == 0 {
                width / usable
            } else {
                assert(width / usable < usize::MAX) by (nonlinear_arith)
                    requires
                        usable > 0,
                        width % usable != 0,
                ;
                width / usable + 1
            }
        } else {
            1
        };
        assert(line as nat == line_rows(width, usable as nat, wrap));
        assert(widths.take(index + 1).drop_last() =~= widths.take(index as int));
        rows = if rows > usize::MAX - line {
            usize::MAX
        } else {
            rows + line
        };
        index = index + 1;
    }
    assert(widths.take(count as int) =~= widths);
    rows
}

/// The display width of the widest line of `text`.
fn widest_line(text: &Text<'static>) -> (width: usize)
    ensures
        width as nat == widest(text_line_widths(*text)),
    no_unwind
{
    let ghost widths = text_line_widths(*text);
    let count = text_line_count(text);
    let mut width: usize = 0;
    let mut index: usize = 0;
    assert(widths.take(0) =~= Seq::<usize>::empty());
    while index < count
        invariant
            index <= count,
            count == widths.len(),
            widths == text_line_widths(*text),
            width as nat == widest(widths.take(index as int)),
        decreases count - index,
    {
        let line = text_line_width(text, index);
        assert(widths.take(index + 1).drop_last() =~= widths.take(index as int));
        if line > width {
            width = line;
        }
        index = index + 1;
    }
    assert(widths.take(count as int) =~= widths);
    width
}

/// Hold the interaction's offsets within what its viewport allows for `text`: the vertical
/// offset at most the rows that do not fit, the horizontal offset at most the overhang of the
/// widest line (none when wrapping).
pub fn clamp_offsets(
    interaction: &mut PreviewInteractionState,
    text: &Text<'static>,
    wrap: bool,
    reserved: u16,
)
    ensures
        final(interaction)@ == clamped(old(interaction)@, text_line_widths(*text), wrap, reserved),
    no_unwind
{
    let ghost widths = text_line_widths(*text);
    let rows = rendered_rows(interaction, text, wrap, reserved);
    let height = interaction.viewport_height;
    let max_vertical: usize = if rows > height as usize {
        rows - height as usize
    } else {
        0
    };
    if interaction.vertical_scroll as usize > max_vertical {
        interaction.vertical_scroll = max_vertical as u16;
    }
    let usable: usize = if interaction.viewport_width > reserved {
        (interaction.viewport_width - reserved) as usize
    } else {
        0
    };
    let widest_width = widest_line(text);
    let max_horizontal: usize = if wrap || widest_width <= usable {
        0
    } else {
        widest_width - usable
    };
    if interaction.horizontal_scroll as usize > max_horizontal {
        interaction.horizontal_scroll = max_horizontal as u16;
    }
}

} // verus!
