use vstd::prelude::*;
use crate::blocks::Block;
use crate::geometry::DrawAlignment;
use crate::markdown_to_slides::{
    LinePlan, SlidePlan, boxes_view, heading_size, is_code_block_at, is_runnable_code, split_fold, split_slides,
};
use crate::theme::Theme;
use crate::measure::{line_matches, metric_widths, partial_matches};
use crate::geometry::TextMetrics;
use crate::slider::{next_index, prev_index};
use crate::sums::{seq_max, seq_sum, lemma_max_bounds};
use crate::textbox::{
    line_commands, line_heights, line_offsets, line_widths, partial_heights, partial_offsets,
    partial_widths, TextBox,
};
use crate::transitioner::{after_update, TRANSITIONING_TIME};

verus! {

/// Two lines measured from the same planned line with the same measures have
/// the same size.
proof fn lemma_line_size_determined(l1: crate::textbox::TextLine, l2: crate::textbox::TextLine, plan: crate::markdown_to_slides::LineView, ms: Seq<TextMetrics>)
    requires
        line_matches(l1, plan, ms),
        line_matches(l2, plan, ms),
    ensures
        l1.width == l2.width,
        l1.height == l2.height,
        l1.offset_y == l2.offset_y,
{
    assert forall|k: int| 0 <= k < l1.partials@.len() implies partial_widths(l1.partials@)[k]
        == partial_widths(l2.partials@)[k] && partial_heights(l1.partials@)[k] == partial_heights(
        l2.partials@,
    )[k] && partial_offsets(l1.partials@)[k] == partial_offsets(l2.partials@)[k] by {
        assert(partial_matches(l1.partials@[k], plan.runs[k], ms[k]));
        assert(partial_matches(l2.partials@[k], plan.runs[k], ms[k]));
    }
    assert(partial_widths(l1.partials@) =~= partial_widths(l2.partials@));
    assert(partial_heights(l1.partials@) =~= partial_heights(l2.partials@));
    assert(partial_offsets(l1.partials@) =~= partial_offsets(l2.partials@));
}

/// Layout is a function of its input: two text boxes built from the same
/// planned lines, measured alike and with the same margin, have the same
/// width, height and margin.
pub proof fn lemma_layout_idempotent(
    b1: TextBox,
    b2: TextBox,
    lines: Seq<LinePlan>,
    metrics: Seq<Vec<TextMetrics>>,
)
    requires
        b1.wf(),
        b2.wf(),
        b1.margin == b2.margin,
        b1.lines@.len() == lines.len(),
        b2.lines@.len() == lines.len(),
        metrics.len() == lines.len(),
        forall|j: int| 0 <= j < lines.len() ==> #[trigger] line_matches(b1.lines@[j], lines[j]@, metrics[j]@),
        forall|j: int| 0 <= j < lines.len() ==> #[trigger] line_matches(b2.lines@[j], lines[j]@, metrics[j]@),
    ensures
        b1.width == b2.width,
        b1.height == b2.height,
        b1.margin == b2.margin,
        b1.width_with_padding_spec() == b2.width_with_padding_spec(),
        b1.height_with_margin_spec() == b2.height_with_margin_spec(),
{
    assert forall|j: int| 0 <= j < lines.len() implies line_widths(b1.lines@)[j] == line_widths(
        b2.lines@,
    )[j] && line_heights(b1.lines@)[j] == line_heights(b2.lines@)[j] && line_offsets(b1.lines@)[j]
        == line_offsets(b2.lines@)[j] by {
        assert(line_matches(b1.lines@[j], lines[j]@, metrics[j]@));
        assert(line_matches(b2.lines@[j], lines[j]@, metrics[j]@));
        lemma_line_size_determined(b1.lines@[j], b2.lines@[j], lines[j]@, metrics[j]@);
    }
    assert(line_widths(b1.lines@) =~= line_widths(b2.lines@));
    assert(line_heights(b1.lines@) =~= line_heights(b2.lines@));
}

/// The number of horizontal rules among `tokens`.
pub open spec fn hr_count(tokens: Seq<Block>) -> nat
    decreases tokens.len(),
{
    if tokens.len() == 0 {
        0
    } else {
        hr_count(tokens.drop_last()) + if tokens.last() is Hr {
            1nat
        } else {
            0nat
        }
    }
}

proof fn lemma_closed_groups(tokens: Seq<Block>)
    ensures
        split_fold(tokens).0.len() == hr_count(tokens),
        tokens.len() > 0 && !(tokens.last() is Hr) ==> split_fold(tokens).1.len() > 0,
    decreases tokens.len(),
{
    if tokens.len() > 0 {
        lemma_closed_groups(tokens.drop_last());
    }
}

/// A document with `k` horizontal rules makes `k` slides, one more when
/// content follows the last rule; in particular `k + 1` when the document
/// does not end with a rule.
pub proof fn lemma_slide_count(tokens: Seq<Block>)
    ensures
        split_slides(tokens).len() == hr_count(tokens) + if split_fold(tokens).1.len() > 0 {
            1nat
        } else {
            0nat
        },
        tokens.len() > 0 && !(tokens.last() is Hr) ==> split_slides(tokens).len() == hr_count(tokens)
            + 1,
{
    lemma_closed_groups(tokens);
}

/// The slide shown after `k` requests for the next one.
pub open spec fn after_nexts(active: int, n: int, k: nat) -> int
    decreases k,
{
    if k == 0 {
        active
    } else {
        next_index(after_nexts(active, n, (k - 1) as nat), n)
    }
}

/// The slide shown after `k` requests for the previous one.
pub open spec fn after_prevs(active: int, k: nat) -> int
    decreases k,
{
    if k == 0 {
        active
    } else {
        prev_index(after_prevs(active, (k - 1) as nat))
    }
}

/// Asking again and again for the next slide of a deck of `n` stops at the
/// last one, `n - 1`, and never wraps to the first.
pub proof fn lemma_next_stops_at_last(active: int, n: int, k: nat)
    requires
        0 <= active < n,
    ensures
        after_nexts(active, n, k) == if active + k < n - 1 {
            active + k
        } else {
            n - 1
        },
    decreases k,
{
    if k > 0 {
        lemma_next_stops_at_last(active, n, (k - 1) as nat);
    }
}

/// Asking again and again for the previous slide stops at the first one.
pub proof fn lemma_prev_stops_at_first(active: int, k: nat)
    requires
        0 <= active,
    ensures
        after_prevs(active, k) == if active - k > 0 {
            active - k
        } else {
            0
        },
    decreases k,
{
    if k > 0 {
        lemma_prev_stops_at_first(active, (k - 1) as nat);
    }
}

/// A line is as wide as its partials together; a text box is as wide as its
/// widest line, so no line is wider than the box, and as high as its lines
/// together.
pub proof fn lemma_box_sizing(b: TextBox)
    requires
        b.wf(),
    ensures
        forall|j: int| 0 <= j < b.lines@.len() ==> #[trigger] b.lines@[j].width == seq_sum(
            partial_widths(b.lines@[j].partials@),
        ),
        forall|j: int| 0 <= j < b.lines@.len() ==> #[trigger] b.lines@[j].width <= b.width,
        b.width == seq_max(line_widths(b.lines@)),
        b.height == seq_sum(line_heights(b.lines@)),
{
    assert forall|j: int| 0 <= j < b.lines@.len() implies #[trigger] b.lines@[j].width <= b.width by {
        lemma_max_bounds(line_widths(b.lines@), j);
    }
    assert forall|j: int| 0 <= j < b.lines@.len() implies #[trigger] b.lines@[j].width == seq_sum(
        partial_widths(b.lines@[j].partials@),
    ) by {
        assert(b.lines@[j].wf());
    }
}

/// Where a line of a text box starts: at the box's inner left edge when it
/// is aligned left, at the inner right edge less its width when aligned
/// right, and at the inner midpoint less half its width when centered. Its
/// first partial is drawn there.
pub proof fn lemma_alignment(b: TextBox, hpos: int, y: int, j: int)
    requires
        b.wf(),
        0 <= j < b.lines@.len(),
    ensures
        ({
            let line = b.lines@[j];
            let inner = hpos + b.padding;
            let x = b.line_hpos(inner, line);
            &&& line.align == DrawAlignment::Left ==> x == inner
            &&& line.align == DrawAlignment::Right ==> x == inner + b.width - line.width
            &&& line.align == DrawAlignment::Center ==> x == inner + b.width / 2 - line.width / 2
            &&& line.partials@.len() > 0 ==> (line_commands(line, x, y)[0] matches crate::geometry::DrawCommand::Text { x: cx, .. } && cx == x as i128)
        }),
{
    let line = b.lines@[j];
    if line.partials@.len() > 0 {
        assert(partial_widths(line.partials@).take(0) =~= Seq::<int>::empty());
    }
}

/// A transition's progress never exceeds its duration: past it, progress
/// drops to 0 and the transition ends.
pub proof fn lemma_transition_bounded(transitioning: bool, progress: int, delta: int)
    requires
        0 <= progress <= TRANSITIONING_TIME,
        0 <= delta,
    ensures
        0 <= after_update(transitioning, progress, delta).1 <= TRANSITIONING_TIME,
        transitioning && progress + 2 * delta > TRANSITIONING_TIME ==> after_update(
            transitioning,
            progress,
            delta,
        ) == (false, 0int),
{
}

/// Building a slide twice from the same blocks and theme gives the same
/// boxes and the same code block.
pub proof fn lemma_build_slide_deterministic(theme: Theme, blocks: Seq<Block>, s1: SlidePlan, s2: SlidePlan)
    requires
        s1.laid_out_from(theme, blocks),
        s2.laid_out_from(theme, blocks),
    ensures
        boxes_view(s1.boxes@) == boxes_view(s2.boxes@),
        s1.code_block == s2.code_block,
{
    match (s1.code_block, s2.code_block) {
        (Some(c1), Some(c2)) => {
            let k1 = choose|k: int|
                0 <= k < blocks.len() && (forall|j: int| 0 <= j < k ==> !is_runnable_code(#[trigger] blocks[j]))
                    && #[trigger] is_code_block_at(blocks, k, c1);
            let k2 = choose|k: int|
                0 <= k < blocks.len() && (forall|j: int| 0 <= j < k ==> !is_runnable_code(#[trigger] blocks[j]))
                    && #[trigger] is_code_block_at(blocks, k, c2);
            assert(is_runnable_code(blocks[k1]));
            assert(is_runnable_code(blocks[k2]));
            assert(k1 == k2);
        },
        (Some(c1), None) => {
            let k1 = choose|k: int|
                0 <= k < blocks.len() && (forall|j: int| 0 <= j < k ==> !is_runnable_code(#[trigger] blocks[j]))
                    && #[trigger] is_code_block_at(blocks, k, c1);
            assert(is_runnable_code(blocks[k1]));
        },
        (None, Some(c2)) => {
            let k2 = choose|k: int|
                0 <= k < blocks.len() && (forall|j: int| 0 <= j < k ==> !is_runnable_code(#[trigger] blocks[j]))
                    && #[trigger] is_code_block_at(blocks, k, c2);
            assert(is_runnable_code(blocks[k2]));
        },
        (None, None) => {},
    }
}

/// Deeper headings are set no larger, and strictly smaller until the
/// smallest size is reached; none is larger than the theme's size for slide
/// headings.
pub proof fn lemma_heading_sizes_shrink(theme: Theme, a: usize, b: usize)
    requires
        2 <= a < b,
    ensures
        heading_size(theme, b) <= heading_size(theme, a),
        heading_size(theme, b) > 1 ==> heading_size(theme, b) < heading_size(theme, a),
        theme.font_size_header_slides >= 1 ==> heading_size(theme, a) <= theme.font_size_header_slides,
        heading_size(theme, b) >= 1,
{
    assert((a - 2) * 10 < (b - 2) * 10);
}

} // verus!
