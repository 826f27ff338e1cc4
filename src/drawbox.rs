use vstd::prelude::*;
use crate::codebox::{CodeBox, CHROME_CORNER_RADIUS};
use crate::geometry::{DrawCommand, Pos, within_limit};
use crate::imagebox::ImageBox;
use crate::textbox::TextBox;

verus! {

/// One unit of slide content, sized once when it is built.
#[derive(Clone, Debug)]
pub enum DrawBox {
    Image(ImageBox),
    Text(TextBox),
    Code(CodeBox),
}

impl DrawBox {
    pub open spec fn wf(&self) -> bool {
        match self {
            DrawBox::Image(b) => b.wf(),
            DrawBox::Text(b) => b.wf(),
            DrawBox::Code(b) => b.wf(),
        }
    }

    pub open spec fn spec_width_with_padding(&self) -> int {
        match self {
            DrawBox::Image(b) => b.spec_width() + 2 * b.padding,
            DrawBox::Text(b) => b.width + 2 * b.padding,
            DrawBox::Code(b) => b.width + 2 * CHROME_CORNER_RADIUS,
        }
    }

    pub open spec fn commands(&self, hpos: int, vpos: int, screen_height: u32) -> Seq<DrawCommand> {
        match self {
            DrawBox::Image(b) => b.commands(hpos, vpos),
            DrawBox::Text(b) => b.commands(hpos, vpos, screen_height),
            DrawBox::Code(b) => b.commands(hpos, vpos, screen_height),
        }
    }

    /// The cursor below the box when it is drawn at `vpos`.
    pub open spec fn next_vpos(&self, vpos: int, screen_height: u32) -> int {
        match self {
            DrawBox::Image(b) => vpos + b.spec_height() + 2 * b.padding + b.margin,
            DrawBox::Text(b) => b.top_position(vpos, screen_height) + b.height + 2 * b.padding
                + b.margin,
            DrawBox::Code(b) => b.textbox.top_position(
                vpos + b.margin + crate::codebox::TITLE_BAR_HEIGHT,
                screen_height,
            ) + b.height + b.margin,
        }
    }

    pub fn draw(&self, hpos: Pos, vpos: Pos, screen_height: u32, out: &mut Vec<DrawCommand>) -> (next: Pos)
        requires
            self.wf(),
            within_limit(hpos as int),
            within_limit(vpos as int),
        ensures
            final(out)@ == old(out)@ + self.commands(hpos as int, vpos as int, screen_height),
            next == self.next_vpos(vpos as int, screen_height),
    {
        match self {
            DrawBox::Image(b) => b.draw(hpos, vpos, out),
            DrawBox::Text(b) => b.draw(hpos, vpos, screen_height, out),
            DrawBox::Code(b) => b.draw(hpos, vpos, screen_height, out),
        }
    }

    pub fn width_with_padding(&self) -> (w: u32)
        requires
            self.wf(),
        ensures
            w == self.spec_width_with_padding(),
    {
        match self {
            DrawBox::Image(b) => b.width_with_padding(),
            DrawBox::Text(b) => b.width_with_padding(),
            DrawBox::Code(b) => b.width_with_padding(),
        }
    }
}

} // verus!
