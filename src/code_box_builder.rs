use vstd::prelude::*;
use vstd::string::{StrSliceExecFns, StringExecFns};
use crate::codebox::{CodeBox, CHROME_CORNER_RADIUS, TITLE_BAR_HEIGHT};
use crate::geometry::{Color, DrawAlignment, FontKind, TextMetrics};
use crate::markdown_to_slides::{LinePlan, LineView, RunView, TextRun, runs_view, lines_view};
use crate::measure::{box_fits, plan_heights, plan_widths};
use crate::sums::{seq_max, seq_sum};
use crate::textbox::{TextBox, TextBoxStyle};
use crate::theme::Theme;

verus! {

/// A token of highlighted code: its text, color and font style.
#[derive(Clone, Debug)]
pub struct HighlightedRun {
    pub text: String,
    pub color: Color,
    pub bold: bool,
    pub italic: bool,
}

/// `t` without the line breaks at its end.
pub open spec fn trim_newlines(t: Seq<char>) -> Seq<char>
    decreases t.len(),
{
    if t.len() > 0 && t.last() == '\n' {
        trim_newlines(t.drop_last())
    } else {
        t
    }
}

/// `t` with each tab replaced by `tab`.
pub open spec fn expand_tabs(t: Seq<char>, tab: Seq<char>) -> Seq<char>
    decreases t.len(),
{
    if t.len() == 0 {
        Seq::empty()
    } else {
        expand_tabs(t.drop_last(), tab) + if t.last() == '\t' {
            tab
        } else {
            seq![t.last()]
        }
    }
}

/// The font of a token: bold or italic alone pick those fonts, anything
/// else the code font.
pub open spec fn token_font(bold: bool, italic: bool) -> FontKind {
    if bold && !italic {
        FontKind::Bold
    } else if italic && !bold {
        FontKind::Italic
    } else {
        FontKind::Code
    }
}

/// Builds the boxes that show code.
#[derive(Clone, Debug)]
pub struct CodeBoxBuilder {
    pub font_size: u16,
    pub line_height: u16,
    pub background_color: Color,
    pub tab_spaces: String,
    pub margin: u32,
}

/// `n` spaces.
pub open spec fn spaces(n: nat) -> Seq<char> {
    Seq::new(n, |i: int| ' ')
}

impl CodeBoxBuilder {
    pub fn new(theme: &Theme) -> (b: CodeBoxBuilder)
        ensures
            b.font_size == theme.font_code_size,
            b.line_height == theme.code_line_height,
            b.background_color == theme.code_background_color,
            b.tab_spaces@ == spaces(theme.code_tab_width as nat),
            b.margin == theme.vertical_offset,
    {
        let mut tab_spaces = String::new();
        let mut i: usize = 0;
        while i < theme.code_tab_width
            invariant
                0 <= i <= theme.code_tab_width,
                tab_spaces@ == spaces(i as nat),
            decreases theme.code_tab_width - i,
        {
            tab_spaces.append(" ");
            i = i + 1;
            proof {
                reveal_strlit(" ");
                assert(tab_spaces@ =~= spaces(i as nat));
            }
        }
        CodeBoxBuilder {
            font_size: theme.font_code_size,
            line_height: theme.code_line_height,
            background_color: theme.code_background_color,
            tab_spaces,
            margin: theme.vertical_offset,
        }
    }

    /// The runs of one line of code: each non-empty token, its line break
    /// dropped and its tabs expanded.
    pub open spec fn code_runs(&self, tokens: Seq<HighlightedRun>) -> Seq<RunView>
        decreases tokens.len(),
    {
        if tokens.len() == 0 {
            Seq::empty()
        } else {
            let t = tokens.last();
            let text = expand_tabs(trim_newlines(t.text@), self.tab_spaces@);
            self.code_runs(tokens.drop_last()) + if text.len() == 0 {
                Seq::empty()
            } else {
                seq![
                    RunView {
                        text,
                        font: token_font(t.bold, t.italic),
                        font_size: self.font_size,
                        color: t.color,
                        line_height: self.line_height,
                    },
                ]
            }
        }
    }

    pub open spec fn code_lines(&self, highlighted: Seq<Vec<HighlightedRun>>) -> Seq<LineView> {
        Seq::new(
            highlighted.len(),
            |j: int| LineView { align: DrawAlignment::Left, runs: self.code_runs(highlighted[j]@) },
        )
    }

    fn clean_token(&self, text: &str) -> (r: String)
        ensures
            r@ == expand_tabs(trim_newlines(text@), self.tab_spaces@),
    {
        let mut end = text.unicode_len();
        proof {
            assert(text@.take(end as int) =~= text@);
        }
        while end > 0 && text.get_char(end - 1) == '\n'
            invariant
                0 <= end <= text@.len(),
                trim_newlines(text@) == trim_newlines(text@.take(end as int)),
            decreases end,
        {
            proof {
                assert(text@.take(end as int).drop_last() =~= text@.take(end - 1));
            }
            end = end - 1;
        }
        proof {
            assert(trim_newlines(text@.take(end as int)) == text@.take(end as int));
        }
        let mut out = String::new();
        let mut i: usize = 0;
        while i < end
            invariant
                0 <= i <= end <= text@.len(),
                out@ == expand_tabs(text@.take(i as int), self.tab_spaces@),
            decreases end - i,
        {
            proof {
                assert(text@.take(i + 1).drop_last() =~= text@.take(i as int));
            }
            if text.get_char(i) == '\t' {
                out.append(self.tab_spaces.as_str());
            } else {
                out.append(text.substring_char(i, i + 1));
            }
            i = i + 1;
        }
        proof {
            assert(text@.take(end as int).take(end as int) =~= text@.take(end as int));
        }
        out
    }

    /// One left-aligned line of runs per line of highlighted code.
    pub fn build_text_lines(&self, highlighted: &Vec<Vec<HighlightedRun>>) -> (r: Vec<LinePlan>)
        ensures
            lines_view(r@) == self.code_lines(highlighted@),
    {
        let mut text_lines: Vec<LinePlan> = Vec::new();
        let mut j: usize = 0;
        while j < highlighted.len()
            invariant
                0 <= j <= highlighted@.len(),
                lines_view(text_lines@) == self.code_lines(highlighted@).take(j as int),
            decreases highlighted@.len() - j,
        {
            let tokens = &highlighted[j];
            let mut partials: Vec<TextRun> = Vec::new();
            let mut k: usize = 0;
            while k < tokens.len()
                invariant
                    0 <= k <= tokens@.len(),
                    runs_view(partials@) == self.code_runs(tokens@.take(k as int)),
                decreases tokens@.len() - k,
            {
                proof {
                    assert(tokens@.take(k + 1).drop_last() =~= tokens@.take(k as int));
                }
                let token = &tokens[k];
                let text = self.clean_token(token.text.as_str());
                let ghost before = partials@;
                if text.unicode_len() > 0 {
                    let font = if token.bold && !token.italic {
                        FontKind::Bold
                    } else if token.italic && !token.bold {
                        FontKind::Italic
                    } else {
                        FontKind::Code
                    };
                    partials.push(TextRun {
                        text,
                        font,
                        font_size: self.font_size,
                        color: token.color,
                        line_height: self.line_height,
                    });
                    proof {
                        assert(runs_view(partials@) =~= runs_view(before).push(partials@.last()@));
                    }
                } else {
                    proof {
                        assert(runs_view(partials@) =~= runs_view(before) + Seq::<RunView>::empty());
                    }
                }
                k = k + 1;
            }
            proof {
                assert(tokens@.take(k as int) =~= tokens@);
            }
            let ghost lines_before = text_lines@;
            text_lines.push(LinePlan { align: DrawAlignment::Left, runs: partials });
            j = j + 1;
            proof {
                assert(lines_view(text_lines@) =~= lines_view(lines_before).push(text_lines@.last()@));
                assert(lines_view(text_lines@) =~= self.code_lines(highlighted@).take(j as int));
            }
        }
        proof {
            assert(self.code_lines(highlighted@).take(j as int) =~= self.code_lines(highlighted@));
        }
        text_lines
    }

    /// The measured lines in a code box with the code background; `None`
    /// when the measures do not match the runs or the box is too large.
    pub fn build_draw_box(&self, lines: &Vec<LinePlan>, metrics: &Vec<Vec<TextMetrics>>) -> (r: Option<CodeBox>)
        ensures
            r matches Some(c) ==> {
                &&& c.wf()
                &&& c.margin == self.margin
                &&& c.background_color == Some(self.background_color)
                &&& c.textbox.margin == 0
                &&& c.textbox.style == TextBoxStyle::Code
                &&& c.textbox.background_color == Some(self.background_color)
                &&& c.textbox.lines@.len() == lines@.len()
                &&& forall|j: int| 0 <= j < lines@.len() ==> #[trigger] crate::measure::line_matches(
                    c.textbox.lines@[j],
                    lines@[j]@,
                    metrics@[j]@,
                )
            },
            r is Some <==> (box_fits(lines@, metrics@, 0) && seq_max(plan_widths(metrics@)) + 2
                * crate::textbox::BOX_PADDING + 2 * CHROME_CORNER_RADIUS <= u32::MAX && seq_sum(
                plan_heights(lines@),
            ) + 2 * crate::textbox::BOX_PADDING + TITLE_BAR_HEIGHT + CHROME_CORNER_RADIUS + 2
                * self.margin <= u32::MAX),
    {
        let textbox = match TextBox::from_plan(lines, metrics, 0, Some(self.background_color), TextBoxStyle::Code) {
            Some(b) => b,
            None => {
                return None;
            },
        };
        if textbox.width > 0xFFFF_FFFF - 2 * textbox.padding - 2 * CHROME_CORNER_RADIUS {
            return None;
        }
        let extra: u64 = TITLE_BAR_HEIGHT as u64 + CHROME_CORNER_RADIUS as u64 + 2 * (self.margin as u64);
        if textbox.height_with_margin() as u64 + extra > 0xFFFF_FFFF {
            return None;
        }
        Some(CodeBox::new(textbox, self.margin, Some(self.background_color)))
    }
}

} // verus!
