use vstd::prelude::*;
use crate::geometry::{Color, DrawAlignment, DrawCommand, FontKind, Pos, POS_LIMIT, TextMetrics};
use crate::sums::{all_nonneg, seq_max, seq_sum, lemma_take_next, lemma_max_bounds, lemma_max_nonneg, lemma_prefix_sum_bounded};

verus! {

/// Padding around the lines of a text box, on each side.
pub const BOX_PADDING: u32 = 20;

/// The smallest styled run of text, measured.
#[derive(Clone, Debug)]
pub struct TextPartial {
    pub width: u32,
    pub height: u32,
    pub color: Color,
    pub font: FontKind,
    pub font_size: u16,
    pub offset_y: u32,
    pub text: String,
}

/// The height of a line of text set at `font_size` with a line height given
/// in percent of the font size.
pub open spec fn line_height_of(font_size: u16, line_height: u16) -> int {
    (font_size as int * line_height as int) / 100
}

impl TextPartial {
    /// A run of `text`, measured as `metrics`, whose height is its font size
    /// scaled by `line_height` percent.
    pub fn new(
        text: &str,
        font: FontKind,
        font_size: u16,
        color: Color,
        line_height: u16,
        metrics: TextMetrics,
    ) -> (p: TextPartial)
        ensures
            p.width == metrics.width,
            p.offset_y == metrics.offset_y,
            p.height == line_height_of(font_size, line_height),
            p.color == color,
            p.font == font,
            p.font_size == font_size,
            p.text@ == text@,
    {
        proof {
            assert((font_size as int) * (line_height as int) <= 65535 * 65535) by (nonlinear_arith)
                requires
                    font_size as int <= 65535,
                    line_height as int <= 65535,
                    0 <= font_size as int,
                    0 <= line_height as int,
            ;
        }
        let product: u32 = (font_size as u32) * (line_height as u32);
        TextPartial {
            width: metrics.width,
            height: product / 100,
            color,
            font,
            font_size,
            offset_y: metrics.offset_y,
            text: text.to_owned(),
        }
    }
}

pub open spec fn partial_widths(ps: Seq<TextPartial>) -> Seq<int> {
    ps.map_values(|p: TextPartial| p.width as int)
}

pub open spec fn partial_heights(ps: Seq<TextPartial>) -> Seq<int> {
    ps.map_values(|p: TextPartial| p.height as int)
}

pub open spec fn partial_offsets(ps: Seq<TextPartial>) -> Seq<int> {
    ps.map_values(|p: TextPartial| p.offset_y as int)
}

/// Partials that share one baseline, drawn left to right.
#[derive(Clone, Debug)]
pub struct TextLine {
    pub width: u32,
    pub height: u32,
    pub offset_y: u32,
    pub align: DrawAlignment,
    pub partials: Vec<TextPartial>,
}

impl TextLine {
    /// A line is as wide as its partials together, as high as the highest,
    /// and its baseline sits as low as the lowest one's.
    pub open spec fn wf(&self) -> bool {
        &&& self.width == seq_sum(partial_widths(self.partials@))
        &&& self.height == seq_max(partial_heights(self.partials@))
        &&& self.offset_y == seq_max(partial_offsets(self.partials@))
    }

    pub fn new(align: DrawAlignment, partials: Vec<TextPartial>) -> (l: TextLine)
        requires
            seq_sum(partial_widths(partials@)) <= u32::MAX,
        ensures
            l.wf(),
            l.align == align,
            l.partials@ == partials@,
    {
        let mut width: u32 = 0;
        let mut height: u32 = 0;
        let mut offset_y: u32 = 0;
        let mut i: usize = 0;
        while i < partials.len()
            invariant
                0 <= i <= partials@.len(),
                seq_sum(partial_widths(partials@)) <= u32::MAX,
                width == seq_sum(partial_widths(partials@).take(i as int)),
                height == seq_max(partial_heights(partials@).take(i as int)),
                offset_y == seq_max(partial_offsets(partials@).take(i as int)),
            decreases partials@.len() - i,
        {
            proof {
                lemma_take_next(partial_widths(partials@), i as int);
                lemma_take_next(partial_heights(partials@), i as int);
                lemma_take_next(partial_offsets(partials@), i as int);
                crate::sums::lemma_prefix_sum_bounded(partial_widths(partials@), i as int + 1);
            }
            let partial = &partials[i];
            width = width + partial.width;
            if partial.height > height {
                height = partial.height;
            }
            if partial.offset_y > offset_y {
                offset_y = partial.offset_y;
            }
            i = i + 1;
        }
        proof {
            assert(partial_widths(partials@).take(i as int) =~= partial_widths(partials@));
            assert(partial_heights(partials@).take(i as int) =~= partial_heights(partials@));
            assert(partial_offsets(partials@).take(i as int) =~= partial_offsets(partials@));
        }
        TextLine { width, height, offset_y, align, partials }
    }
}

} // verus!

verus! {

/// How a text box is placed and decorated.
#[derive(Clone, Copy, Debug, PartialEq, Eq, Structural)]
pub enum TextBoxStyle {
    Standard,
    /// Centered vertically on the screen, wherever the cursor stands.
    Title,
    /// Framed by two quotation marks of the given size, font and color.
    Blockquote { size: u16, font: FontKind, color: Color },
    Code,
}

pub open spec fn line_widths(ls: Seq<TextLine>) -> Seq<int> {
    ls.map_values(|l: TextLine| l.width as int)
}

pub open spec fn line_heights(ls: Seq<TextLine>) -> Seq<int> {
    ls.map_values(|l: TextLine| l.height as int)
}

pub open spec fn line_offsets(ls: Seq<TextLine>) -> Seq<int> {
    ls.map_values(|l: TextLine| l.offset_y as int)
}

pub open spec fn lines_wf(ls: Seq<TextLine>) -> bool {
    forall|j: int| 0 <= j < ls.len() ==> #[trigger] ls[j].wf()
}

/// A box of text lines, sized once from its lines.
#[derive(Clone, Debug)]
pub struct TextBox {
    pub width: u32,
    pub height: u32,
    pub margin: u32,
    pub padding: u32,
    pub offset_y: u32,
    pub background_color: Option<Color>,
    pub style: TextBoxStyle,
    pub lines: Vec<TextLine>,
}

impl TextBox {
    /// As wide as its widest line, as high as its lines together; its sizes
    /// with padding and margin fit in a `u32`.
    pub open spec fn wf(&self) -> bool {
        &&& lines_wf(self.lines@)
        &&& self.width == seq_max(line_widths(self.lines@))
        &&& self.height == seq_sum(line_heights(self.lines@))
        &&& self.offset_y == seq_max(line_offsets(self.lines@))
        &&& self.padding == BOX_PADDING
        &&& self.width + 2 * self.padding <= u32::MAX
        &&& self.height + 2 * self.padding + self.margin <= u32::MAX
    }

    pub fn new(
        lines: Vec<TextLine>,
        margin: u32,
        background_color: Option<Color>,
        style: TextBoxStyle,
    ) -> (b: TextBox)
        requires
            lines_wf(lines@),
            seq_max(line_widths(lines@)) + 2 * BOX_PADDING <= u32::MAX,
            seq_sum(line_heights(lines@)) + 2 * BOX_PADDING + margin <= u32::MAX,
        ensures
            b.wf(),
            b.lines@ == lines@,
            b.margin == margin,
            b.background_color == background_color,
            b.style == style,
    {
        let mut width: u32 = 0;
        let mut height: u32 = 0;
        let mut offset_y: u32 = 0;
        let mut i: usize = 0;
        while i < lines.len()
            invariant
                0 <= i <= lines@.len(),
                seq_sum(line_heights(lines@)) + 2 * BOX_PADDING + margin <= u32::MAX,
                width == seq_max(line_widths(lines@).take(i as int)),
                height == seq_sum(line_heights(lines@).take(i as int)),
                offset_y == seq_max(line_offsets(lines@).take(i as int)),
            decreases lines@.len() - i,
        {
            proof {
                lemma_take_next(line_widths(lines@), i as int);
                lemma_take_next(line_heights(lines@), i as int);
                lemma_take_next(line_offsets(lines@), i as int);
                crate::sums::lemma_prefix_sum_bounded(line_heights(lines@), i as int + 1);
            }
            let line = &lines[i];
            if line.width > width {
                width = line.width;
            }
            height = height + line.height;
            if line.offset_y > offset_y {
                offset_y = line.offset_y;
            }
            i = i + 1;
        }
        proof {
            assert(line_widths(lines@).take(i as int) =~= line_widths(lines@));
            assert(line_heights(lines@).take(i as int) =~= line_heights(lines@));
            assert(line_offsets(lines@).take(i as int) =~= line_offsets(lines@));
        }
        TextBox {
            width,
            height,
            margin,
            padding: BOX_PADDING,
            offset_y,
            background_color,
            style,
            lines,
        }
    }

    pub fn background_color(&self) -> (c: Option<Color>)
        ensures
            c == self.background_color,
    {
        self.background_color
    }

    pub open spec fn width_with_padding_spec(&self) -> int {
        self.width + 2 * self.padding
    }

    pub open spec fn height_with_margin_spec(&self) -> int {
        self.height + 2 * self.padding + self.margin
    }

    pub fn width(&self) -> (w: u32)
        ensures
            w == self.width,
    {
        self.width
    }

    pub fn width_with_padding(&self) -> (w: u32)
        requires
            self.wf(),
        ensures
            w == self.width + 2 * self.padding,
    {
        self.width + self.padding * 2
    }

    pub fn height(&self) -> (h: u32)
        ensures
            h == self.height,
    {
        self.height
    }

    pub fn height_with_padding(&self) -> (h: u32)
        requires
            self.wf(),
        ensures
            h == self.height + 2 * self.padding,
    {
        self.height + self.padding * 2
    }

    pub fn height_with_margin(&self) -> (h: u32)
        requires
            self.wf(),
        ensures
            h == self.height + 2 * self.padding + self.margin,
    {
        self.height_with_padding() + self.margin
    }
}

} // verus!

verus! {

/// The command that draws partial `p` with its left edge at `x`.
pub open spec fn partial_command(p: TextPartial, x: int, y: int) -> DrawCommand {
    DrawCommand::Text {
        text: p.text,
        x: x as i128,
        y: y as i128,
        font: p.font,
        font_size: p.font_size,
        color: p.color,
    }
}

/// The partials of a line side by side from `x`, each starting where the
/// ones before it end.
pub open spec fn line_commands(line: TextLine, x: int, y: int) -> Seq<DrawCommand> {
    Seq::new(
        line.partials@.len(),
        |k: int| partial_command(line.partials@[k], x + seq_sum(partial_widths(line.partials@).take(k)), y),
    )
}

proof fn lemma_widths_nonneg(ps: Seq<TextPartial>)
    ensures
        all_nonneg(partial_widths(ps)),
{
}

proof fn lemma_heights_nonneg(ls: Seq<TextLine>)
    ensures
        all_nonneg(line_heights(ls)),
{
}

impl TextLine {
    /// Draws the line's partials from `hpos`, their tops at `vpos + offset_y`,
    /// and returns the vertical position below the line.
    pub fn draw(&self, hpos: Pos, vpos: Pos, offset_y: u32, out: &mut Vec<DrawCommand>) -> (next: Pos)
        requires
            self.wf(),
            -4 * POS_LIMIT <= hpos <= 4 * POS_LIMIT,
            -4 * POS_LIMIT <= vpos <= 4 * POS_LIMIT,
        ensures
            final(out)@ == old(out)@ + line_commands(*self, hpos as int, vpos + offset_y),
            next == vpos + self.height,
    {
        let ghost start = out@;
        let y: Pos = vpos + offset_y as i128;
        let mut x: Pos = hpos;
        let mut k: usize = 0;
        while k < self.partials.len()
            invariant
                self.wf(),
                -4 * POS_LIMIT <= hpos <= 4 * POS_LIMIT,
                0 <= k <= self.partials@.len(),
                y == vpos + offset_y,
                x == hpos + seq_sum(partial_widths(self.partials@).take(k as int)),
                out@ == start + Seq::new(
                    k as nat,
                    |j: int| partial_command(self.partials@[j], hpos + seq_sum(partial_widths(self.partials@).take(j)), y as int),
                ),
            decreases self.partials@.len() - k,
        {
            proof {
                lemma_widths_nonneg(self.partials@);
                lemma_take_next(partial_widths(self.partials@), k as int);
                lemma_prefix_sum_bounded(partial_widths(self.partials@), k as int + 1);
            }
            let partial = &self.partials[k];
            out.push(DrawCommand::Text {
                text: partial.text.clone(),
                x,
                y,
                font: partial.font,
                font_size: partial.font_size,
                color: partial.color,
            });
            x = x + partial.width as i128;
            k = k + 1;
            proof {
                assert(out@ =~= start + Seq::new(
                    k as nat,
                    |j: int| partial_command(self.partials@[j], hpos + seq_sum(partial_widths(self.partials@).take(j)), y as int),
                ));
            }
        }
        proof {
            assert(out@ =~= start + line_commands(*self, hpos as int, vpos + offset_y));
        }
        vpos + self.height as i128
    }
}

impl TextBox {
    /// Where the box's top stands: a title is centered on the screen, any
    /// other box stands at the cursor.
    pub open spec fn top_position(&self, vpos: int, screen_height: u32) -> int {
        match self.style {
            TextBoxStyle::Title => screen_height / 2 - self.height / 2 - self.margin - self.padding
                - self.offset_y,
            _ => vpos,
        }
    }

    /// The left edge of `line` in a box whose inner left edge is `inner`.
    pub open spec fn line_hpos(&self, inner: int, line: TextLine) -> int {
        match line.align {
            DrawAlignment::Left => inner,
            DrawAlignment::Right => inner + self.width - line.width,
            DrawAlignment::Center => inner + self.width / 2 - line.width / 2,
        }
    }

    /// The top of line `j` when the box's top is at `top`.
    pub open spec fn line_top(&self, top: int, j: int) -> int {
        top + self.padding + self.margin + seq_sum(line_heights(self.lines@).take(j))
    }

    pub open spec fn lines_commands(&self, hpos: int, top: int, k: nat) -> Seq<DrawCommand>
        decreases k,
    {
        if k == 0 {
            Seq::empty()
        } else {
            self.lines_commands(hpos, top, (k - 1) as nat) + line_commands(
                self.lines@[k - 1],
                self.line_hpos(hpos + self.padding, self.lines@[k - 1]),
                self.line_top(top, k - 1) + self.offset_y,
            )
        }
    }

    /// The background rectangle, if the box has a background, with its top
    /// left corner at (`hpos`, `y`).
    pub open spec fn background_at(&self, hpos: int, y: int) -> Seq<DrawCommand> {
        match self.background_color {
            Some(color) => seq![
                DrawCommand::Rect {
                    x: hpos as i128,
                    y: y as i128,
                    width: (self.width + 2 * self.padding) as u32,
                    height: (self.height + 2 * self.padding) as u32,
                    color,
                },
            ],
            None => Seq::empty(),
        }
    }

    pub open spec fn background_commands(&self, hpos: int, top: int) -> Seq<DrawCommand> {
        self.background_at(hpos, top + self.margin)
    }

    pub fn draw_background(&self, hpos: Pos, vpos: Pos, out: &mut Vec<DrawCommand>)
        requires
            self.wf(),
        ensures
            final(out)@ == old(out)@ + self.background_at(hpos as int, vpos as int),
    {
        let ghost start = out@;
        if let Some(color) = self.background_color {
            out.push(DrawCommand::Rect {
                x: hpos,
                y: vpos,
                width: self.width_with_padding(),
                height: self.height_with_padding(),
                color,
            });
        }
        proof {
            assert(out@ =~= start + self.background_at(hpos as int, vpos as int));
        }
    }

    pub open spec fn style_commands(&self, hpos: int, top: int) -> Seq<DrawCommand> {
        match self.style {
            TextBoxStyle::Blockquote { size, font, color } => seq![
                DrawCommand::Quote {
                    opening: true,
                    x: hpos as i128,
                    y: (top + size) as i128,
                    font,
                    font_size: size,
                    color,
                },
                DrawCommand::Quote {
                    opening: false,
                    x: (hpos + self.width + 2 * self.padding) as i128,
                    y: (top + self.height + 2 * self.padding + self.margin) as i128,
                    font,
                    font_size: size,
                    color,
                },
            ],
            _ => Seq::empty(),
        }
    }

    /// Everything the box draws: its background, its decoration, then its
    /// lines top to bottom.
    pub open spec fn commands(&self, hpos: int, vpos: int, screen_height: u32) -> Seq<DrawCommand> {
        let top = self.top_position(vpos, screen_height);
        self.background_commands(hpos, top) + self.style_commands(hpos, top) + self.lines_commands(
            hpos,
            top,
            self.lines@.len(),
        )
    }

    fn top_position_exec(&self, vpos: Pos, screen_height: u32) -> (top: Pos)
        requires
            self.wf(),
        ensures
            top == self.top_position(vpos as int, screen_height),
    {
        match self.style {
            TextBoxStyle::Title => (screen_height / 2) as i128 - (self.height / 2) as i128
                - self.margin as i128 - self.padding as i128 - self.offset_y as i128,
            _ => vpos,
        }
    }

    /// Draws the box with its left edge at `hpos` and the cursor at `vpos`;
    /// returns the cursor below the box.
    pub fn draw(&self, hpos: Pos, vpos: Pos, screen_height: u32, out: &mut Vec<DrawCommand>) -> (next: Pos)
        requires
            self.wf(),
            -2 * POS_LIMIT <= hpos <= 2 * POS_LIMIT,
            -2 * POS_LIMIT <= vpos <= 2 * POS_LIMIT,
        ensures
            final(out)@ == old(out)@ + self.commands(hpos as int, vpos as int, screen_height),
            next == self.top_position(vpos as int, screen_height) + self.height + 2 * self.padding
                + self.margin,
    {
        let ghost start = out@;
        let top = self.top_position_exec(vpos, screen_height);
        self.draw_background(hpos, top + self.margin as i128, out);
        if let TextBoxStyle::Blockquote { size, font, color } = self.style {
            out.push(DrawCommand::Quote {
                opening: true,
                x: hpos,
                y: top + size as i128,
                font,
                font_size: size,
                color,
            });
            out.push(DrawCommand::Quote {
                opening: false,
                x: hpos + self.width_with_padding() as i128,
                y: top + self.height_with_margin() as i128,
                font,
                font_size: size,
                color,
            });
        }
        proof {
            assert(out@ =~= start + self.background_commands(hpos as int, top as int)
                + self.style_commands(hpos as int, top as int));
        }
        let ghost head = out@;
        let inner_hpos: Pos = hpos + self.padding as i128;
        let mut line_top: Pos = top + self.padding as i128 + self.margin as i128;
        let mut j: usize = 0;
        while j < self.lines.len()
            invariant
                self.wf(),
                -2 * POS_LIMIT <= hpos <= 2 * POS_LIMIT,
                -2 * POS_LIMIT <= vpos <= 2 * POS_LIMIT,
                top == self.top_position(vpos as int, screen_height),
                inner_hpos == hpos + self.padding,
                0 <= j <= self.lines@.len(),
                line_top == self.line_top(top as int, j as int),
                out@ == head + self.lines_commands(hpos as int, top as int, j as nat),
            decreases self.lines@.len() - j,
        {
            let line = &self.lines[j];
            proof {
                lemma_heights_nonneg(self.lines@);
                lemma_take_next(line_heights(self.lines@), j as int);
                lemma_prefix_sum_bounded(line_heights(self.lines@), j as int + 1);
                lemma_max_bounds(line_widths(self.lines@), j as int);
                assert(self.lines@[j as int].wf());
            }
            let line_hpos: Pos = match line.align {
                DrawAlignment::Left => inner_hpos,
                DrawAlignment::Right => inner_hpos + self.width as i128 - line.width as i128,
                DrawAlignment::Center => inner_hpos + (self.width / 2) as i128 - (line.width / 2) as i128,
            };
            line_top = line.draw(line_hpos, line_top, self.offset_y, out);
            j = j + 1;
        }
        proof {
            assert(head == start + self.background_commands(hpos as int, top as int)
                + self.style_commands(hpos as int, top as int));
            assert(out@ =~= start + self.commands(hpos as int, vpos as int, screen_height));
        }
        top + self.height_with_margin() as i128
    }
}

} // verus!
