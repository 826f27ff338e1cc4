use vstd::prelude::*;
use vstd::string::StringExecFns;
use crate::blocks::{Block, ListItem, Span};
use crate::executable_code::{ExecutableCode, is_supported_language};
use crate::geometry::{Color, DrawAlignment, FontKind};
use crate::text::{decimal, to_decimal};
use crate::textbox::TextBoxStyle;
use crate::theme::Theme;

verus! {

/// A run of text to be measured and drawn. Line height is in percent of the
/// font size.
#[derive(Clone, Debug)]
pub struct TextRun {
    pub text: String,
    pub font: FontKind,
    pub font_size: u16,
    pub color: Color,
    pub line_height: u16,
}

pub struct RunView {
    pub text: Seq<char>,
    pub font: FontKind,
    pub font_size: u16,
    pub color: Color,
    pub line_height: u16,
}

impl View for TextRun {
    type V = RunView;

    open spec fn view(&self) -> RunView {
        RunView {
            text: self.text@,
            font: self.font,
            font_size: self.font_size,
            color: self.color,
            line_height: self.line_height,
        }
    }
}

/// The runs of one line of text, before measuring.
#[derive(Clone, Debug)]
pub struct LinePlan {
    pub align: DrawAlignment,
    pub runs: Vec<TextRun>,
}

pub struct LineView {
    pub align: DrawAlignment,
    pub runs: Seq<RunView>,
}

pub open spec fn runs_view(s: Seq<TextRun>) -> Seq<RunView> {
    s.map_values(|r: TextRun| r@)
}

impl View for LinePlan {
    type V = LineView;

    open spec fn view(&self) -> LineView {
        LineView { align: self.align, runs: runs_view(self.runs@) }
    }
}

pub open spec fn lines_view(s: Seq<LinePlan>) -> Seq<LineView> {
    s.map_values(|l: LinePlan| l@)
}

/// A draw box as the layout decides it, before its text is measured.
#[derive(Clone, Debug)]
pub enum BoxPlan {
    Text { lines: Vec<LinePlan>, background_color: Option<Color>, style: TextBoxStyle },
    Image { path: String },
    Code { language: Option<String>, code: String },
}

pub enum BoxView {
    Text { lines: Seq<LineView>, background_color: Option<Color>, style: TextBoxStyle },
    Image { path: Seq<char> },
    Code { language: Option<Seq<char>>, code: Seq<char> },
}

pub open spec fn opt_view(s: Option<String>) -> Option<Seq<char>> {
    match s {
        Some(t) => Some(t@),
        None => None,
    }
}

impl View for BoxPlan {
    type V = BoxView;

    open spec fn view(&self) -> BoxView {
        match self {
            BoxPlan::Text { lines, background_color, style } => BoxView::Text {
                lines: lines_view(lines@),
                background_color: *background_color,
                style: *style,
            },
            BoxPlan::Image { path } => BoxView::Image { path: path@ },
            BoxPlan::Code { language, code } => BoxView::Code {
                language: opt_view(*language),
                code: code@,
            },
        }
    }
}

pub open spec fn boxes_view(s: Seq<BoxPlan>) -> Seq<BoxView> {
    s.map_values(|b: BoxPlan| b@)
}

/// The runs that spans become: text in the given font, code spans in the code
/// font and the body color, emphasis in italics and strong text in bold;
/// other spans give nothing.
pub open spec fn spans_runs(
    theme: Theme,
    spans: Seq<Span>,
    font: FontKind,
    font_size: u16,
    color: Color,
) -> Seq<RunView>
    decreases spans,
{
    if spans.len() == 0 {
        Seq::empty()
    } else {
        spans_runs(theme, spans.drop_last(), font, font_size, color) + match spans.last() {
            Span::Text(t) => seq![
                RunView { text: t@, font, font_size, color, line_height: theme.line_height },
            ],
            Span::Code(t) => seq![
                RunView {
                    text: t@,
                    font: FontKind::Code,
                    font_size,
                    color: theme.text_color,
                    line_height: theme.line_height,
                },
            ],
            Span::Emphasis(inner) => spans_runs(theme, inner@, FontKind::Italic, font_size, color),
            Span::Strong(inner) => spans_runs(theme, inner@, FontKind::Bold, font_size, color),
            _ => Seq::empty(),
        }
    }
}

} // verus!

verus! {

/// The run that starts list item `index`: the theme's bullet, or the item's
/// number from 1 followed by a period and a space.
pub open spec fn bullet_run(theme: Theme, index: int, bullet: Option<Seq<char>>) -> RunView {
    RunView {
        text: match bullet {
            Some(b) => b,
            None => decimal((index + 1) as nat) + ". "@,
        },
        font: FontKind::Text,
        font_size: theme.font_size_text,
        color: theme.text_color,
        line_height: theme.line_height,
    }
}

/// One left-aligned line per simple list item, its bullet before its text;
/// items that hold paragraphs are left out.
pub open spec fn list_lines(theme: Theme, items: Seq<ListItem>, bullet: Option<Seq<char>>) -> Seq<LineView>
    decreases items.len(),
{
    if items.len() == 0 {
        Seq::empty()
    } else {
        list_lines(theme, items.drop_last(), bullet) + match items.last() {
            ListItem::Simple(spans) => seq![
                LineView {
                    align: DrawAlignment::Left,
                    runs: seq![bullet_run(theme, items.len() - 1, bullet)] + spans_runs(
                        theme,
                        spans@,
                        FontKind::Text,
                        theme.font_size_text,
                        theme.text_color,
                    ),
                },
            ],
            _ => Seq::empty(),
        }
    }
}

/// The boxes so far, with the pending lines closed into a text box if there
/// are any.
pub open spec fn flush(
    boxes: Seq<BoxView>,
    lines: Seq<LineView>,
    bg: Option<Color>,
    style: TextBoxStyle,
) -> Seq<BoxView> {
    if lines.len() > 0 {
        boxes.push(BoxView::Text { lines, background_color: bg, style })
    } else {
        boxes
    }
}

/// A paragraph whose only span is an image.
pub open spec fn is_image(spans: Seq<Span>) -> bool {
    spans.len() == 1 && spans[0] is Image
}

/// How much smaller each heading level below the second is set.
pub const HEADER_SIZE_STEP: u16 = 10;

/// How many levels a heading lies below the second.
pub open spec fn heading_depth(level: usize) -> int {
    if level <= 2 {
        0
    } else {
        level - 2
    }
}

/// The font size of a heading below the top level: the theme's size for
/// slide headings, one step smaller for each level deeper, and never below 1.
pub open spec fn heading_size(theme: Theme, level: usize) -> u16 {
    if heading_depth(level) * HEADER_SIZE_STEP < theme.font_size_header_slides {
        (theme.font_size_header_slides - heading_depth(level) * HEADER_SIZE_STEP) as u16
    } else {
        1
    }
}

pub open spec fn image_path(spans: Seq<Span>) -> Seq<char> {
    match spans[0] {
        Span::Image(_, path, _) => path@,
        _ => Seq::empty(),
    }
}

/// The blockquote style: quotation marks twice the title size, in the text
/// font and color.
pub open spec fn quote_style(theme: Theme) -> TextBoxStyle {
    TextBoxStyle::Blockquote {
        size: if theme.font_size_header_title <= 32767 {
            (2 * theme.font_size_header_title) as u16
        } else {
            u16::MAX
        },
        font: FontKind::Text,
        color: theme.text_color,
    }
}

/// Lays out `blocks` in order: the finished boxes and the lines still
/// pending. Headings below the top level, paragraphs and lists add lines; a
/// title, an image, a blockquote or a code block closes the pending lines
/// into a box and stands as a box of its own.
pub open spec fn layout_fold(
    theme: Theme,
    blocks: Seq<Block>,
    bg: Option<Color>,
    style: TextBoxStyle,
) -> (Seq<BoxView>, Seq<LineView>)
    decreases blocks,
{
    if blocks.len() == 0 {
        (Seq::empty(), Seq::empty())
    } else {
        let (boxes, lines) = layout_fold(theme, blocks.drop_last(), bg, style);
        match blocks.last() {
            Block::Header(spans, level) => if level == 1 {
                (
                    flush(boxes, lines, bg, style).push(
                        BoxView::Text {
                            lines: seq![
                                LineView {
                                    align: theme.align,
                                    runs: spans_runs(
                                        theme,
                                        spans@,
                                        FontKind::Text,
                                        theme.font_size_header_title,
                                        theme.heading_color,
                                    ),
                                },
                            ],
                            background_color: bg,
                            style: TextBoxStyle::Title,
                        },
                    ),
                    Seq::empty(),
                )
            } else {
                (
                    boxes,
                    lines.push(
                        LineView {
                            align: theme.align,
                            runs: spans_runs(
                                theme,
                                spans@,
                                FontKind::Text,
                                heading_size(theme, level),
                                theme.heading_color,
                            ),
                        },
                    ),
                )
            },
            Block::Paragraph(spans) => if is_image(spans@) {
                (
                    flush(boxes, lines, bg, style).push(BoxView::Image { path: image_path(spans@) }),
                    Seq::empty(),
                )
            } else {
                (
                    boxes,
                    lines.push(
                        LineView {
                            align: theme.align,
                            runs: spans_runs(
                                theme,
                                spans@,
                                FontKind::Text,
                                theme.font_size_text,
                                theme.text_color,
                            ),
                        },
                    ),
                )
            },
            Block::UnorderedList(items) => (boxes, lines + list_lines(theme, items@, Some(theme.bullet@))),
            Block::OrderedList(items, _) => (boxes, lines + list_lines(theme, items@, None)),
            Block::Blockquote(inner) => {
                let (inner_boxes, inner_lines) = layout_fold(
                    theme,
                    inner@,
                    Some(theme.blockquote_background_color),
                    quote_style(theme),
                );
                (
                    flush(boxes, lines, bg, style) + flush(
                        inner_boxes,
                        inner_lines,
                        Some(theme.blockquote_background_color),
                        quote_style(theme),
                    ),
                    Seq::empty(),
                )
            },
            Block::CodeBlock(language, code) => (
                flush(boxes, lines, bg, style).push(
                    BoxView::Code { language: opt_view(language), code: code@ },
                ),
                Seq::empty(),
            ),
            _ => (boxes, lines),
        }
    }
}

/// The boxes that `blocks` lay out into.
pub open spec fn layout_blocks(
    theme: Theme,
    blocks: Seq<Block>,
    bg: Option<Color>,
    style: TextBoxStyle,
) -> Seq<BoxView> {
    let (boxes, lines) = layout_fold(theme, blocks, bg, style);
    flush(boxes, lines, bg, style)
}

} // verus!

verus! {

proof fn lemma_runs_view_push(s: Seq<TextRun>, r: TextRun)
    ensures
        runs_view(s.push(r)) == runs_view(s).push(r@),
{
    assert(runs_view(s.push(r)) =~= runs_view(s).push(r@));
}

proof fn lemma_runs_view_add(s: Seq<TextRun>, t: Seq<TextRun>)
    ensures
        runs_view(s + t) == runs_view(s) + runs_view(t),
{
    assert(runs_view(s + t) =~= runs_view(s) + runs_view(t));
}

proof fn lemma_lines_view_push(s: Seq<LinePlan>, l: LinePlan)
    ensures
        lines_view(s.push(l)) == lines_view(s).push(l@),
{
    assert(lines_view(s.push(l)) =~= lines_view(s).push(l@));
}

proof fn lemma_lines_view_add(s: Seq<LinePlan>, t: Seq<LinePlan>)
    ensures
        lines_view(s + t) == lines_view(s) + lines_view(t),
{
    assert(lines_view(s + t) =~= lines_view(s) + lines_view(t));
}

proof fn lemma_boxes_view_push(s: Seq<BoxPlan>, b: BoxPlan)
    ensures
        boxes_view(s.push(b)) == boxes_view(s).push(b@),
{
    assert(boxes_view(s.push(b)) =~= boxes_view(s).push(b@));
}

proof fn lemma_boxes_view_add(s: Seq<BoxPlan>, t: Seq<BoxPlan>)
    ensures
        boxes_view(s + t) == boxes_view(s) + boxes_view(t),
{
    assert(boxes_view(s + t) =~= boxes_view(s) + boxes_view(t));
}

pub open spec fn opt_ref_view(s: Option<&String>) -> Option<Seq<char>> {
    match s {
        Some(t) => Some(t@),
        None => None,
    }
}

/// Turns the blocks of a Markdown document into slides.
pub struct MarkdownToSlides {
    pub theme: Theme,
}

impl MarkdownToSlides {
    pub fn new(theme: Theme) -> (m: MarkdownToSlides)
        ensures
            m.theme == theme,
    {
        MarkdownToSlides { theme }
    }

    pub fn spans_to_text_partials(
        &self,
        spans: &Vec<Span>,
        font: FontKind,
        font_size: u16,
        color: Color,
    ) -> (r: Vec<TextRun>)
        ensures
            runs_view(r@) == spans_runs(self.theme, spans@, font, font_size, color),
        decreases spans,
    {
        let mut partials: Vec<TextRun> = Vec::new();
        let mut i: usize = 0;
        while i < spans.len()
            invariant
                0 <= i <= spans@.len(),
                runs_view(partials@) == spans_runs(self.theme, spans@.take(i as int), font, font_size, color),
            decreases spans@.len() - i,
        {
            proof {
                assert(spans@.take(i + 1).drop_last() =~= spans@.take(i as int));
            }
            let ghost before = partials@;
            match &spans[i] {
                Span::Text(text) => {
                    partials.push(TextRun {
                        text: text.clone(),
                        font,
                        font_size,
                        color,
                        line_height: self.theme.line_height,
                    });
                    proof {
                        lemma_runs_view_push(before, partials@.last());
                    }
                },
                Span::Code(text) => {
                    partials.push(TextRun {
                        text: text.clone(),
                        font: FontKind::Code,
                        font_size,
                        color: self.theme.text_color,
                        line_height: self.theme.line_height,
                    });
                    proof {
                        lemma_runs_view_push(before, partials@.last());
                    }
                },
                Span::Emphasis(inner) => {
                    let mut more = self.spans_to_text_partials(inner, FontKind::Italic, font_size, color);
                    let ghost added = more@;
                    partials.append(&mut more);
                    proof {
                        lemma_runs_view_add(before, added);
                    }
                },
                Span::Strong(inner) => {
                    let mut more = self.spans_to_text_partials(inner, FontKind::Bold, font_size, color);
                    let ghost added = more@;
                    partials.append(&mut more);
                    proof {
                        lemma_runs_view_add(before, added);
                    }
                },
                _ => {
                    proof {
                        assert(partials@ =~= before);
                        assert(runs_view(partials@) =~= runs_view(before) + Seq::<RunView>::empty());
                    }
                },
            }
            i = i + 1;
        }
        proof {
            assert(spans@.take(i as int) =~= spans@);
        }
        partials
    }

    pub fn build_bullet_partial(&self, index: usize, bullet: Option<&String>) -> (r: TextRun)
        requires
            index < usize::MAX,
        ensures
            r@ == bullet_run(self.theme, index as int, opt_ref_view(bullet)),
    {
        let item_bullet = match bullet {
            Some(b) => b.clone(),
            None => to_decimal(index + 1).concat(". "),
        };
        TextRun {
            text: item_bullet,
            font: FontKind::Text,
            font_size: self.theme.font_size_text,
            color: self.theme.text_color,
            line_height: self.theme.line_height,
        }
    }

    pub fn build_list_box(&self, items: &Vec<ListItem>, bullet: Option<&String>) -> (r: Vec<LinePlan>)
        ensures
            lines_view(r@) == list_lines(self.theme, items@, opt_ref_view(bullet)),
    {
        let mut lines: Vec<LinePlan> = Vec::new();
        let mut i: usize = 0;
        while i < items.len()
            invariant
                0 <= i <= items@.len(),
                lines_view(lines@) == list_lines(self.theme, items@.take(i as int), opt_ref_view(bullet)),
            decreases items@.len() - i,
        {
            proof {
                assert(items@.take(i + 1).drop_last() =~= items@.take(i as int));
            }
            let ghost before = lines@;
            if let ListItem::Simple(spans) = &items[i] {
                let mut partials: Vec<TextRun> = Vec::new();
                partials.push(self.build_bullet_partial(i, bullet));
                let ghost first = partials@;
                let mut rest = self.spans_to_text_partials(
                    spans,
                    FontKind::Text,
                    self.theme.font_size_text,
                    self.theme.text_color,
                );
                let ghost added = rest@;
                partials.append(&mut rest);
                proof {
                    lemma_runs_view_add(first, added);
                    assert(runs_view(first) =~= seq![first[0]@]);
                }
                lines.push(LinePlan { align: DrawAlignment::Left, runs: partials });
                proof {
                    lemma_lines_view_push(before, lines@.last());
                }
            } else {
                proof {
                    assert(list_lines(self.theme, items@.take(i + 1), opt_ref_view(bullet)) =~= list_lines(
                        self.theme,
                        items@.take(i as int),
                        opt_ref_view(bullet),
                    ) + Seq::<LineView>::empty());
                }
            }
            i = i + 1;
        }
        proof {
            assert(items@.take(i as int) =~= items@);
        }
        lines
    }
}

} // verus!

verus! {

/// Closes the pending lines, if any, into a text box.
fn flush_lines(
    draw_boxes: &mut Vec<BoxPlan>,
    text_lines: &mut Vec<LinePlan>,
    background_color: Option<Color>,
    style: TextBoxStyle,
)
    ensures
        boxes_view(final(draw_boxes)@) == flush(
            boxes_view(old(draw_boxes)@),
            lines_view(old(text_lines)@),
            background_color,
            style,
        ),
        final(text_lines)@.len() == 0,
{
    if text_lines.len() > 0 {
        let ghost before = draw_boxes@;
        let mut lines: Vec<LinePlan> = Vec::new();
        std::mem::swap(&mut lines, text_lines);
        draw_boxes.push(BoxPlan::Text { lines, background_color, style });
        proof {
            lemma_boxes_view_push(before, draw_boxes@.last());
        }
    }
}

impl MarkdownToSlides {
    pub fn is_image(&self, spans: &Vec<Span>) -> (r: bool)
        ensures
            r == is_image(spans@),
    {
        if spans.len() == 1 {
            if let Span::Image(_, _, _) = &spans[0] {
                return true;
            }
        }
        false
    }

    pub fn heading_size(&self, level: usize) -> (s: u16)
        ensures
            s == heading_size(self.theme, level),
    {
        let depth: usize = if level <= 2 {
            0
        } else {
            level - 2
        };
        let base = self.theme.font_size_header_slides;
        if depth > 6553 {
            return 1;
        }
        let decrement: u16 = depth as u16 * HEADER_SIZE_STEP;
        if decrement < base {
            base - decrement
        } else {
            1
        }
    }

    fn quote_style(&self) -> (s: TextBoxStyle)
        ensures
            s == quote_style(self.theme),
    {
        let title = self.theme.font_size_header_title;
        let size: u16 = if title <= 32767 {
            2 * title
        } else {
            u16::MAX
        };
        TextBoxStyle::Blockquote { size, font: FontKind::Text, color: self.theme.text_color }
    }

    /// Lays out `blocks` into boxes; the text boxes take `background_color`
    /// and `style`.
    pub fn blocks_to_draw_boxes(
        &self,
        blocks: &Vec<Block>,
        background_color: Option<Color>,
        style: TextBoxStyle,
    ) -> (r: Vec<BoxPlan>)
        ensures
            boxes_view(r@) == layout_blocks(self.theme, blocks@, background_color, style),
        decreases blocks,
    {
        let mut draw_boxes: Vec<BoxPlan> = Vec::new();
        let mut text_lines: Vec<LinePlan> = Vec::new();
        let mut i: usize = 0;
        while i < blocks.len()
            invariant
                0 <= i <= blocks@.len(),
                (boxes_view(draw_boxes@), lines_view(text_lines@)) == layout_fold(
                    self.theme,
                    blocks@.take(i as int),
                    background_color,
                    style,
                ),
            decreases blocks@.len() - i,
        {
            proof {
                assert(blocks@.take(i + 1).drop_last() =~= blocks@.take(i as int));
            }
            let ghost boxes_before = draw_boxes@;
            let ghost lines_before = text_lines@;
            match &blocks[i] {
                Block::Header(spans, level) => {
                    if *level == 1 {
                        flush_lines(&mut draw_boxes, &mut text_lines, background_color, style);
                        let ghost flushed = draw_boxes@;
                        let runs = self.spans_to_text_partials(
                            spans,
                            FontKind::Text,
                            self.theme.font_size_header_title,
                            self.theme.heading_color,
                        );
                        let mut title_lines: Vec<LinePlan> = Vec::new();
                        title_lines.push(LinePlan { align: self.theme.align, runs });
                        draw_boxes.push(BoxPlan::Text {
                            lines: title_lines,
                            background_color,
                            style: TextBoxStyle::Title,
                        });
                        proof {
                            lemma_boxes_view_push(flushed, draw_boxes@.last());
                            assert(lines_view(title_lines@) =~= seq![title_lines@[0]@]);
                            assert(lines_view(text_lines@) =~= Seq::<LineView>::empty());
                        }
                    } else {
                        let size = self.heading_size(*level);
                        let runs = self.spans_to_text_partials(
                            spans,
                            FontKind::Text,
                            size,
                            self.theme.heading_color,
                        );
                        text_lines.push(LinePlan { align: self.theme.align, runs });
                        proof {
                            lemma_lines_view_push(lines_before, text_lines@.last());
                        }
                    }
                },
                Block::Paragraph(spans) => {
                    if self.is_image(spans) {
                        flush_lines(&mut draw_boxes, &mut text_lines, background_color, style);
                        let ghost flushed = draw_boxes@;
                        if let Span::Image(_title, path, _) = &spans[0] {
                            draw_boxes.push(BoxPlan::Image { path: path.clone() });
                        }
                        proof {
                            lemma_boxes_view_push(flushed, draw_boxes@.last());
                            assert(lines_view(text_lines@) =~= Seq::<LineView>::empty());
                        }
                    } else {
                        let runs = self.spans_to_text_partials(
                            spans,
                            FontKind::Text,
                            self.theme.font_size_text,
                            self.theme.text_color,
                        );
                        text_lines.push(LinePlan { align: self.theme.align, runs });
                        proof {
                            lemma_lines_view_push(lines_before, text_lines@.last());
                        }
                    }
                },
                Block::UnorderedList(items) => {
                    let mut more = self.build_list_box(items, Some(&self.theme.bullet));
                    let ghost added = more@;
                    text_lines.append(&mut more);
                    proof {
                        lemma_lines_view_add(lines_before, added);
                    }
                },
                Block::OrderedList(items, _) => {
                    let mut more = self.build_list_box(items, None);
                    let ghost added = more@;
                    text_lines.append(&mut more);
                    proof {
                        lemma_lines_view_add(lines_before, added);
                    }
                },
                Block::Blockquote(inner) => {
                    flush_lines(&mut draw_boxes, &mut text_lines, background_color, style);
                    let ghost flushed = draw_boxes@;
                    let mut quoted = self.blocks_to_draw_boxes(
                        inner,
                        Some(self.theme.blockquote_background_color),
                        self.quote_style(),
                    );
                    let ghost added = quoted@;
                    draw_boxes.append(&mut quoted);
                    proof {
                        lemma_boxes_view_add(flushed, added);
                        assert(lines_view(text_lines@) =~= Seq::<LineView>::empty());
                    }
                },
                Block::CodeBlock(language, code) => {
                    flush_lines(&mut draw_boxes, &mut text_lines, background_color, style);
                    let ghost flushed = draw_boxes@;
                    let language_copy: Option<String> = match language {
                        Some(l) => Some(l.clone()),
                        None => None,
                    };
                    draw_boxes.push(BoxPlan::Code { language: language_copy, code: code.clone() });
                    proof {
                        lemma_boxes_view_push(flushed, draw_boxes@.last());
                        assert(lines_view(text_lines@) =~= Seq::<LineView>::empty());
                    }
                },
                _ => {},
            }
            i = i + 1;
        }
        proof {
            assert(blocks@.take(i as int) =~= blocks@);
        }
        flush_lines(&mut draw_boxes, &mut text_lines, background_color, style);
        draw_boxes
    }
}

} // verus!

verus! {

/// A fenced block tagged with a language that can be run.
pub open spec fn is_runnable_code(b: Block) -> bool {
    b matches Block::CodeBlock(Some(l), _) && is_supported_language(l@)
}

/// `c` is the code block of block `k`, a fenced block tagged with a
/// language that can be run.
pub open spec fn is_code_block_at(blocks: Seq<Block>, k: int, c: ExecutableCode) -> bool {
    blocks[k] matches Block::CodeBlock(Some(l), code) && is_supported_language(l@) && c.made_from(
        l@,
        code,
    )
}

/// `c` is the code block of the first fenced block tagged with a language
/// that can be run; untagged blocks and other languages are passed over.
pub open spec fn is_first_code_block(blocks: Seq<Block>, c: ExecutableCode) -> bool {
    exists|k: int|
        0 <= k < blocks.len() && (forall|j: int| 0 <= j < k ==> !is_runnable_code(#[trigger] blocks[j]))
            && #[trigger] is_code_block_at(blocks, k, c)
}

/// The code block of a slide: the first fenced block in a language that can
/// be run, if any.
pub open spec fn code_block_of(blocks: Seq<Block>, r: Option<ExecutableCode>) -> bool {
    match r {
        None => forall|j: int| 0 <= j < blocks.len() ==> !is_runnable_code(#[trigger] blocks[j]),
        Some(c) => is_first_code_block(blocks, c),
    }
}

/// Groups the blocks between horizontal rules: the groups closed by a rule,
/// and the blocks after the last rule.
pub open spec fn split_fold(tokens: Seq<Block>) -> (Seq<Seq<Block>>, Seq<Block>)
    decreases tokens.len(),
{
    if tokens.len() == 0 {
        (Seq::empty(), Seq::empty())
    } else {
        let (done, current) = split_fold(tokens.drop_last());
        if tokens.last() is Hr {
            (done.push(current), Seq::empty())
        } else {
            (done, current.push(tokens.last()))
        }
    }
}

/// The blocks of each slide: every rule closes a slide, even an empty one;
/// what follows the last rule is a slide when it is not empty.
pub open spec fn split_slides(tokens: Seq<Block>) -> Seq<Seq<Block>> {
    let (done, current) = split_fold(tokens);
    if current.len() > 0 {
        done.push(current)
    } else {
        done
    }
}

pub open spec fn groups_view(s: Seq<Vec<Block>>) -> Seq<Seq<Block>> {
    s.map_values(|v: Vec<Block>| v@)
}

/// A slide as the layout decides it, before its text is measured.
#[derive(Debug)]
pub struct SlidePlan {
    pub boxes: Vec<BoxPlan>,
    pub code_block: Option<ExecutableCode>,
}

impl SlidePlan {
    pub open spec fn laid_out_from(&self, theme: Theme, blocks: Seq<Block>) -> bool {
        &&& boxes_view(self.boxes@) == layout_blocks(theme, blocks, None, TextBoxStyle::Standard)
        &&& code_block_of(blocks, self.code_block)
    }
}

impl MarkdownToSlides {
    pub fn find_first_code_block(&self, blocks: &Vec<Block>) -> (r: Option<ExecutableCode>)
        ensures
            code_block_of(blocks@, r),
    {
        let mut i: usize = 0;
        while i < blocks.len()
            invariant
                0 <= i <= blocks@.len(),
                forall|j: int| 0 <= j < i ==> !is_runnable_code(#[trigger] blocks@[j]),
            decreases blocks@.len() - i,
        {
            if let Block::CodeBlock(Some(language), code) = &blocks[i] {
                if ExecutableCode::is_supported(language.as_str()) {
                    let found = ExecutableCode::from(language.as_str(), code);
                    proof {
                        assert(is_code_block_at(blocks@, i as int, found->0));
                        assert(is_first_code_block(blocks@, found->0));
                    }
                    return found;
                }
            }
            i = i + 1;
        }
        None
    }

    pub fn split_tokens_into_slides(&self, tokens: Vec<Block>) -> (r: Vec<Vec<Block>>)
        ensures
            groups_view(r@) == split_slides(tokens@),
    {
        let ghost all = tokens@;
        let mut rest = tokens;
        let mut slides: Vec<Vec<Block>> = Vec::new();
        let mut blocks: Vec<Block> = Vec::new();
        let mut i: usize = 0;
        let n = rest.len();
        while i < n
            invariant
                n == all.len(),
                0 <= i <= n,
                rest@ == all.skip(i as int),
                (groups_view(slides@), blocks@) == split_fold(all.take(i as int)),
            decreases n - i,
        {
            proof {
                assert(all.take(i + 1).drop_last() =~= all.take(i as int));
                assert(rest@[0] == all[i as int]);
            }
            let ghost slides_before = slides@;
            let block = rest.remove(0);
            match block {
                Block::Hr => {
                    let mut finished: Vec<Block> = Vec::new();
                    std::mem::swap(&mut finished, &mut blocks);
                    slides.push(finished);
                    proof {
                        assert(groups_view(slides@) =~= groups_view(slides_before).push(slides@.last()@));
                        assert(blocks@ =~= Seq::<Block>::empty());
                    }
                },
                other => {
                    blocks.push(other);
                },
            }
            proof {
                assert(rest@ =~= all.skip(i + 1));
            }
            i = i + 1;
        }
        proof {
            assert(all.take(i as int) =~= all);
        }
        if blocks.len() > 0 {
            let ghost slides_before = slides@;
            slides.push(blocks);
            proof {
                assert(groups_view(slides@) =~= groups_view(slides_before).push(slides@.last()@));
            }
        }
        slides
    }

    pub fn build_slide(&self, blocks: &Vec<Block>) -> (r: SlidePlan)
        ensures
            r.laid_out_from(self.theme, blocks@),
    {
        SlidePlan {
            boxes: self.blocks_to_draw_boxes(blocks, None, TextBoxStyle::Standard),
            code_block: self.find_first_code_block(blocks),
        }
    }

    pub fn build_slides(&self, slide_blocks: &Vec<Vec<Block>>) -> (r: Vec<SlidePlan>)
        ensures
            r@.len() == slide_blocks@.len(),
            forall|k: int| 0 <= k < r@.len() ==> #[trigger] r@[k].laid_out_from(self.theme, slide_blocks@[k]@),
    {
        let mut slides: Vec<SlidePlan> = Vec::new();
        let mut i: usize = 0;
        while i < slide_blocks.len()
            invariant
                0 <= i <= slide_blocks@.len(),
                slides@.len() == i,
                forall|k: int| 0 <= k < i ==> #[trigger] slides@[k].laid_out_from(self.theme, slide_blocks@[k]@),
            decreases slide_blocks@.len() - i,
        {
            slides.push(self.build_slide(&slide_blocks[i]));
            i = i + 1;
        }
        slides
    }

    /// The slides of a document given as its blocks.
    pub fn parse(&self, tokens: Vec<Block>) -> (r: Vec<SlidePlan>)
        ensures
            r@.len() == split_slides(tokens@).len(),
            forall|k: int| 0 <= k < r@.len() ==> #[trigger] r@[k].laid_out_from(self.theme, split_slides(tokens@)[k]),
    {
        let groups = self.split_tokens_into_slides(tokens);
        let slides = self.build_slides(&groups);
        proof {
            assert forall|k: int| 0 <= k < slides@.len() implies #[trigger] slides@[k].laid_out_from(self.theme, split_slides(tokens@)[k]) by {
                assert(groups_view(groups@)[k] == groups@[k]@);
            }
        }
        slides
    }
}

} // verus!
