use vstd::prelude::*;
use crate::geometry::{Color, DrawCommand, FontKind, Pos};

verus! {

pub const HELP_MARGIN: u32 = 60;
pub const HELP_FONT_SIZE: u16 = 70;
pub const HELP_LINE_OFFSET: u32 = 10;

pub open spec fn help_background() -> Color {
    Color { r: 26, g: 26, b: 26, a: 128 }
}

/// The overlay that lists the keys.
#[derive(Clone, Copy, Debug, PartialEq, Eq, Structural)]
pub struct ShowHelp {
    pub showing: bool,
}

impl Default for ShowHelp {
    fn default() -> (h: ShowHelp)
        ensures
            !h.showing,
    {
        ShowHelp::new()
    }
}

/// The top of help line `k`: below the margin by one line, and one line
/// (font size and line offset, 80) further for each line before it.
pub open spec fn help_line_y(k: int) -> int {
    140 + 80 * k
}

impl ShowHelp {
    pub fn new() -> (h: ShowHelp)
        ensures
            !h.showing,
    {
        ShowHelp { showing: false }
    }

    pub fn toggle_show(&mut self)
        ensures
            final(self).showing == !old(self).showing,
    {
        self.showing = !self.showing
    }

    /// A dimmed panel inside the screen's margin with one line of text under
    /// another; nothing while hidden.
    pub open spec fn commands(&self, lines: Seq<String>, screen_width: u32, screen_height: u32) -> Seq<DrawCommand> {
        if !self.showing {
            Seq::empty()
        } else {
            seq![
                DrawCommand::Rect {
                    x: HELP_MARGIN as i128,
                    y: HELP_MARGIN as i128,
                    width: if screen_width >= 2 * HELP_MARGIN { (screen_width - 2 * HELP_MARGIN) as u32 } else { 0 },
                    height: if screen_height >= 2 * HELP_MARGIN { (screen_height - 2 * HELP_MARGIN) as u32 } else { 0 },
                    color: help_background(),
                },
            ] + Seq::new(
                lines.len(),
                |k: int| DrawCommand::Text {
                    text: lines[k],
                    x: (2 * HELP_MARGIN) as i128,
                    y: help_line_y(k) as i128,
                    font: FontKind::Text,
                    font_size: HELP_FONT_SIZE,
                    color: Color { r: 255, g: 255, b: 255, a: 255 },
                },
            )
        }
    }

    pub fn draw(&self, lines: &Vec<String>, screen_width: u32, screen_height: u32, out: &mut Vec<DrawCommand>)
        requires
            lines@.len() < 0x1_0000_0000,
        ensures
            final(out)@ == old(out)@ + self.commands(lines@, screen_width, screen_height),
    {
        if !self.showing {
            proof {
                assert(out@ =~= old(out)@ + self.commands(lines@, screen_width, screen_height));
            }
            return;
        }
        let ghost start = out@;
        let width: u32 = if screen_width >= 2 * HELP_MARGIN { screen_width - 2 * HELP_MARGIN } else { 0 };
        let height: u32 = if screen_height >= 2 * HELP_MARGIN { screen_height - 2 * HELP_MARGIN } else { 0 };
        out.push(DrawCommand::Rect {
            x: HELP_MARGIN as i128,
            y: HELP_MARGIN as i128,
            width,
            height,
            color: Color { r: 26, g: 26, b: 26, a: 128 },
        });
        let ghost head = out@;
        let step: Pos = (HELP_FONT_SIZE as u32 + HELP_LINE_OFFSET) as i128;
        let mut offset_y: Pos = (HELP_MARGIN + HELP_FONT_SIZE as u32 + HELP_LINE_OFFSET) as i128;
        let mut k: usize = 0;
        while k < lines.len()
            invariant
                lines@.len() < 0x1_0000_0000,
                0 <= k <= lines@.len(),
                step == HELP_FONT_SIZE + HELP_LINE_OFFSET,
                offset_y == help_line_y(k as int),
                out@ == head + Seq::new(
                    k as nat,
                    |j: int| DrawCommand::Text {
                        text: lines@[j],
                        x: (2 * HELP_MARGIN) as i128,
                        y: help_line_y(j) as i128,
                        font: FontKind::Text,
                        font_size: HELP_FONT_SIZE,
                        color: Color { r: 255, g: 255, b: 255, a: 255 },
                    },
                ),
            decreases lines@.len() - k,
        {
            out.push(DrawCommand::Text {
                text: lines[k].clone(),
                x: (2 * HELP_MARGIN) as i128,
                y: offset_y,
                font: FontKind::Text,
                font_size: HELP_FONT_SIZE,
                color: Color { r: 255, g: 255, b: 255, a: 255 },
            });
            offset_y = offset_y + step;
            k = k + 1;
            proof {
                assert(out@ =~= head + Seq::new(
                    k as nat,
                    |j: int| DrawCommand::Text {
                        text: lines@[j],
                        x: (2 * HELP_MARGIN) as i128,
                        y: help_line_y(j) as i128,
                        font: FontKind::Text,
                        font_size: HELP_FONT_SIZE,
                        color: Color { r: 255, g: 255, b: 255, a: 255 },
                    },
                ));
            }
        }
        proof {
            assert(out@ =~= start + self.commands(lines@, screen_width, screen_height));
        }
    }
}

} // verus!
