use vstd::prelude::*;
use crate::geometry::{Color, TextMetrics};
use crate::imagebox::ImageBox;
use crate::markdown_to_slides::{LinePlan, LineView, MarkdownToSlides, RunView, TextRun};
use crate::sums::{seq_max, seq_sum, lemma_take_next, lemma_prefix_sum_bounded, lemma_max_attained, lemma_max_nonneg};
use crate::textbox::{
    line_height_of, line_heights, line_widths, lines_wf, partial_heights, partial_widths,
    TextBox, TextBoxStyle, TextLine, TextPartial, BOX_PADDING,
};

verus! {

pub open spec fn metric_widths(ms: Seq<TextMetrics>) -> Seq<int> {
    ms.map_values(|m: TextMetrics| m.width as int)
}

pub open spec fn run_heights(runs: Seq<RunView>) -> Seq<int> {
    runs.map_values(|r: RunView| line_height_of(r.font_size, r.line_height))
}

/// `p` is run `r` measured as `m`.
pub open spec fn partial_matches(p: TextPartial, r: RunView, m: TextMetrics) -> bool {
    &&& p.text@ == r.text
    &&& p.font == r.font
    &&& p.font_size == r.font_size
    &&& p.color == r.color
    &&& p.width == m.width
    &&& p.offset_y == m.offset_y
    &&& p.height == line_height_of(r.font_size, r.line_height)
}

/// `line` is the planned line measured run by run as `ms`.
pub open spec fn line_matches(line: TextLine, plan: LineView, ms: Seq<TextMetrics>) -> bool {
    &&& line.wf()
    &&& line.align == plan.align
    &&& line.partials@.len() == plan.runs.len()
    &&& forall|k: int|
        0 <= k < plan.runs.len() ==> #[trigger] partial_matches(line.partials@[k], plan.runs[k], ms[k])
}

/// The width of each planned line, as measured.
pub open spec fn plan_widths(metrics: Seq<Vec<TextMetrics>>) -> Seq<int> {
    Seq::new(metrics.len(), |j: int| seq_sum(metric_widths(metrics[j]@)))
}

/// The height of each planned line: its highest run.
pub open spec fn plan_heights(lines: Seq<LinePlan>) -> Seq<int> {
    Seq::new(lines.len(), |j: int| seq_max(run_heights(lines[j]@.runs)))
}

/// A measure for each run of each line, and sizes that fit in a `u32` once
/// the box adds its padding and margin.
pub open spec fn box_fits(lines: Seq<LinePlan>, metrics: Seq<Vec<TextMetrics>>, margin: u32) -> bool {
    &&& metrics.len() == lines.len()
    &&& forall|j: int| 0 <= j < lines.len() ==> #[trigger] metrics[j]@.len() == lines[j].runs@.len()
    &&& forall|j: int|
        0 <= j < lines.len() ==> #[trigger] seq_sum(metric_widths(metrics[j]@)) + 2 * BOX_PADDING
            <= u32::MAX
    &&& seq_sum(Seq::new(lines.len(), |j: int| seq_max(run_heights(lines[j]@.runs)))) + 2
        * BOX_PADDING + margin <= u32::MAX
}

impl TextPartial {
    pub fn from_run(run: &TextRun, metrics: TextMetrics) -> (p: TextPartial)
        ensures
            partial_matches(p, run@, metrics),
    {
        TextPartial::new(
            run.text.as_str(),
            run.font,
            run.font_size,
            run.color,
            run.line_height,
            metrics,
        )
    }
}

impl TextLine {
    /// The planned line with each run measured; `None` when the measures do
    /// not match the runs one for one or the line is wider than a `u32`.
    pub fn from_plan(plan: &LinePlan, metrics: &Vec<TextMetrics>) -> (r: Option<TextLine>)
        ensures
            r is Some <==> (metrics@.len() == plan.runs@.len() && seq_sum(metric_widths(metrics@))
                <= u32::MAX),
            r matches Some(line) ==> line_matches(line, plan@, metrics@),
            r matches Some(line) ==> line.width == seq_sum(metric_widths(metrics@)),
            r matches Some(line) ==> line.height == seq_max(run_heights(plan@.runs)),
    {
        if metrics.len() != plan.runs.len() {
            return None;
        }
        let mut partials: Vec<TextPartial> = Vec::new();
        let mut total: u64 = 0;
        let mut i: usize = 0;
        while i < metrics.len()
            invariant
                metrics@.len() == plan.runs@.len(),
                0 <= i <= metrics@.len(),
                total == seq_sum(metric_widths(metrics@).take(i as int)),
                total <= u32::MAX,
                partials@.len() == i,
                forall|k: int| 0 <= k < i ==> #[trigger] partial_matches(partials@[k], plan@.runs[k], metrics@[k]),
            decreases metrics@.len() - i,
        {
            proof {
                lemma_take_next(metric_widths(metrics@), i as int);
            }
            total = total + metrics[i].width as u64;
            if total > 0xFFFF_FFFF {
                proof {
                    assert forall|k: int| 0 <= k < metrics@.len() implies #[trigger] metric_widths(metrics@)[k] >= 0 by {}
                    lemma_prefix_sum_bounded(metric_widths(metrics@), i + 1);
                }
                return None;
            }
            partials.push(TextPartial::from_run(&plan.runs[i], metrics[i]));
            i = i + 1;
        }
        proof {
            assert(metric_widths(metrics@).take(i as int) =~= metric_widths(metrics@));
            assert forall|k: int| 0 <= k < partials@.len() implies partial_widths(partials@)[k]
                == metric_widths(metrics@)[k] by {
                assert(partial_matches(partials@[k], plan@.runs[k], metrics@[k]));
            }
            assert(partial_widths(partials@) =~= metric_widths(metrics@));
            assert forall|k: int| 0 <= k < partials@.len() implies partial_heights(partials@)[k]
                == run_heights(plan@.runs)[k] by {
                assert(partial_matches(partials@[k], plan@.runs[k], metrics@[k]));
            }
            assert(partial_heights(partials@) =~= run_heights(plan@.runs));
        }
        let line = TextLine::new(plan.align, partials);
        proof {
            assert(line.partials@ == partials@);
        }
        Some(line)
    }
}

impl TextBox {
    /// The planned lines measured into a box; `None` when the measures do
    /// not match the runs one for one or the box would not fit in a `u32`.
    pub fn from_plan(
        lines: &Vec<LinePlan>,
        metrics: &Vec<Vec<TextMetrics>>,
        margin: u32,
        background_color: Option<Color>,
        style: TextBoxStyle,
    ) -> (r: Option<TextBox>)
        ensures
            r is Some <==> box_fits(lines@, metrics@, margin),
            r matches Some(b) ==> {
                &&& b.wf()
                &&& b.margin == margin
                &&& b.background_color == background_color
                &&& b.style == style
                &&& b.lines@.len() == lines@.len()
                &&& b.width == seq_max(plan_widths(metrics@))
                &&& b.height == seq_sum(plan_heights(lines@))
                &&& forall|j: int|
                    0 <= j < lines@.len() ==> #[trigger] line_matches(b.lines@[j], lines@[j]@, metrics@[j]@)
            },
    {
        let ghost heights = Seq::new(lines@.len(), |j: int| seq_max(run_heights(lines@[j]@.runs)));
        if metrics.len() != lines.len() {
            return None;
        }
        if margin > 0xFFFF_FFFF - 2 * BOX_PADDING {
            proof {
                assert forall|k: int| 0 <= k < heights.len() implies #[trigger] heights[k] >= 0 by {
                    lemma_max_nonneg(run_heights(lines@[k]@.runs));
                }
                lemma_prefix_sum_bounded(heights, 0);
            }
            return None;
        }
        let mut built: Vec<TextLine> = Vec::new();
        let mut total: u64 = 0;
        let mut j: usize = 0;
        while j < lines.len()
            invariant
                metrics@.len() == lines@.len(),
                heights == Seq::new(lines@.len(), |j: int| seq_max(run_heights(lines@[j]@.runs))),
                0 <= j <= lines@.len(),
                built@.len() == j,
                total == seq_sum(heights.take(j as int)),
                total + 2 * BOX_PADDING + margin <= u32::MAX,
                forall|i: int| 0 <= i < j ==> #[trigger] metrics@[i]@.len() == lines@[i].runs@.len(),
                forall|i: int|
                    0 <= i < j ==> #[trigger] seq_sum(metric_widths(metrics@[i]@)) + 2 * BOX_PADDING
                        <= u32::MAX,
                forall|i: int| 0 <= i < j ==> #[trigger] line_matches(built@[i], lines@[i]@, metrics@[i]@),
                forall|i: int| 0 <= i < j ==> (#[trigger] built@[i]).width == seq_sum(metric_widths(metrics@[i]@)),
                forall|i: int| 0 <= i < j ==> (#[trigger] built@[i]).height == heights[i],
            decreases lines@.len() - j,
        {
            proof {
                lemma_take_next(heights, j as int);
            }
            let line = match TextLine::from_plan(&lines[j], &metrics[j]) {
                Some(line) => line,
                None => {
                    return None;
                },
            };
            if line.width > 0xFFFF_FFFF - 2 * BOX_PADDING {
                return None;
            }
            total = total + line.height as u64;
            if total + 2 * (BOX_PADDING as u64) + margin as u64 > 0xFFFF_FFFF {
                proof {
                    assert forall|k: int| 0 <= k < heights.len() implies #[trigger] heights[k] >= 0 by {
                        lemma_max_nonneg(run_heights(lines@[k]@.runs));
                    }
                    lemma_prefix_sum_bounded(heights, j + 1);
                }
                return None;
            }
            built.push(line);
            j = j + 1;
        }
        proof {
            assert(heights.take(j as int) =~= heights);
            assert(line_heights(built@) =~= heights);
            assert(heights =~= plan_heights(lines@));
            assert(line_widths(built@) =~= plan_widths(metrics@));
            assert forall|i: int| 0 <= i < built@.len() implies line_widths(built@)[i] + 2 * BOX_PADDING <= u32::MAX by {}
            if built@.len() > 0 {
                lemma_max_attained(line_widths(built@));
            }
            assert(lines_wf(built@)) by {
                assert forall|i: int| 0 <= i < built@.len() implies #[trigger] built@[i].wf() by {
                    assert(line_matches(built@[i], lines@[i]@, metrics@[i]@));
                }
            }
        }
        let b = TextBox::new(built, margin, background_color, style);
        proof {
            assert(b.lines@ == built@);
        }
        Some(b)
    }
}

impl MarkdownToSlides {
    /// A planned text box, measured, with the theme's vertical offset as its
    /// margin; `None` when the measures do not match the runs or the box is
    /// too large.
    pub fn build_text_box(
        &self,
        lines: &Vec<LinePlan>,
        metrics: &Vec<Vec<TextMetrics>>,
        background_color: Option<Color>,
        style: TextBoxStyle,
    ) -> (r: Option<TextBox>)
        ensures
            r is Some <==> box_fits(lines@, metrics@, self.theme.vertical_offset),
            r matches Some(b) ==> {
                &&& b.wf()
                &&& b.margin == self.theme.vertical_offset
                &&& b.background_color == background_color
                &&& b.style == style
                &&& b.lines@.len() == lines@.len()
                &&& b.width == seq_max(plan_widths(metrics@))
                &&& b.height == seq_sum(plan_heights(lines@))
                &&& forall|j: int|
                    0 <= j < lines@.len() ==> #[trigger] line_matches(b.lines@[j], lines@[j]@, metrics@[j]@)
            },
    {
        TextBox::from_plan(lines, metrics, self.theme.vertical_offset, background_color, style)
    }

    /// A planned image: no margin and no background, sized once the image is
    /// loaded.
    pub fn build_image_box(&self, path: &str) -> (b: ImageBox)
        ensures
            b.wf(),
            b.path@ == path@,
            b.margin == 0,
            b.background_color is None,
            b.image is None,
    {
        ImageBox::new(path, 0, None)
    }
}

} // verus!
