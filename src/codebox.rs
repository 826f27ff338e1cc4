use vstd::prelude::*;
use crate::geometry::{Color, DrawCommand, Pos, POS_LIMIT, within_limit};
use crate::textbox::TextBox;

verus! {

pub const TITLE_BAR_HEIGHT: u32 = 30;
pub const CHROME_CORNER_RADIUS: u32 = 8;
pub const CHROME_CIRCLE_DISTANCE: u32 = 10;
pub const CHROME_CIRCLE_RADIUS: u32 = 8;

pub open spec fn default_title_bar_color() -> Color {
    Color { r: 246, g: 245, b: 245, a: 255 }
}

/// The three window buttons of the chrome, left to right: fill and outline.
pub open spec fn chrome_button_colors(i: int) -> (Color, Color) {
    if i == 0 {
        (Color { r: 254, g: 95, b: 88, a: 255 }, Color { r: 220, g: 58, b: 55, a: 255 })
    } else if i == 1 {
        (Color { r: 254, g: 188, b: 44, a: 255 }, Color { r: 220, g: 151, b: 28, a: 255 })
    } else {
        (Color { r: 40, g: 200, b: 64, a: 255 }, Color { r: 27, g: 163, b: 39, a: 255 })
    }
}

fn button_colors(i: u32) -> (c: (Color, Color))
    ensures
        c == chrome_button_colors(i as int),
{
    if i == 0 {
        (Color { r: 254, g: 95, b: 88, a: 255 }, Color { r: 220, g: 58, b: 55, a: 255 })
    } else if i == 1 {
        (Color { r: 254, g: 188, b: 44, a: 255 }, Color { r: 220, g: 151, b: 28, a: 255 })
    } else {
        (Color { r: 40, g: 200, b: 64, a: 255 }, Color { r: 27, g: 163, b: 39, a: 255 })
    }
}

/// A rectangle with rounded corners: four corner circles and two crossing
/// rectangles.
pub open spec fn rounded_rectangle(x: int, y: int, w: int, h: int, r: int, color: Color) -> Seq<DrawCommand> {
    seq![
        DrawCommand::Circle { x: (x + r) as i128, y: (y + r) as i128, radius: r as u32, color },
        DrawCommand::Circle { x: (x + w - r) as i128, y: (y + r) as i128, radius: r as u32, color },
        DrawCommand::Rect { x: x as i128, y: (y + r) as i128, width: w as u32, height: (h - 2 * r) as u32, color },
        DrawCommand::Rect { x: (x + r) as i128, y: y as i128, width: (w - 2 * r) as u32, height: h as u32, color },
        DrawCommand::Circle { x: (x + r) as i128, y: (y + h - r) as i128, radius: r as u32, color },
        DrawCommand::Circle { x: (x + w - r) as i128, y: (y + h - r) as i128, radius: r as u32, color },
    ]
}

/// Window button `i` of a title bar whose top left corner is at (`x`, `y`).
pub open spec fn button_commands(x: int, y: int, i: int) -> Seq<DrawCommand> {
    let cx = x + CHROME_CIRCLE_DISTANCE * (i + 1) + CHROME_CIRCLE_RADIUS * (2 * i + 1);
    let cy = y + TITLE_BAR_HEIGHT / 2;
    seq![
        DrawCommand::Circle { x: cx as i128, y: cy as i128, radius: CHROME_CIRCLE_RADIUS, color: chrome_button_colors(i).0 },
        DrawCommand::CircleOutline { x: cx as i128, y: cy as i128, radius: CHROME_CIRCLE_RADIUS, color: chrome_button_colors(i).1 },
    ]
}

/// A box of code drawn inside a window-like frame with a title bar.
#[derive(Clone, Debug)]
pub struct CodeBox {
    pub width: u32,
    pub height: u32,
    pub margin: u32,
    pub background_color: Option<Color>,
    pub textbox: TextBox,
}

impl CodeBox {
    pub open spec fn wf(&self) -> bool {
        &&& self.textbox.wf()
        &&& self.width == self.textbox.width + 2 * self.textbox.padding
        &&& self.height == self.textbox.height + 2 * self.textbox.padding + self.textbox.margin
        &&& self.width + 2 * CHROME_CORNER_RADIUS <= u32::MAX
        &&& self.height + TITLE_BAR_HEIGHT + CHROME_CORNER_RADIUS + 2 * self.margin <= u32::MAX
    }

    pub fn new(textbox: TextBox, margin: u32, background_color: Option<Color>) -> (c: CodeBox)
        requires
            textbox.wf(),
            textbox.width + 2 * textbox.padding + 2 * CHROME_CORNER_RADIUS <= u32::MAX,
            textbox.height + 2 * textbox.padding + textbox.margin + TITLE_BAR_HEIGHT
                + CHROME_CORNER_RADIUS + 2 * margin <= u32::MAX,
        ensures
            c.wf(),
            c.textbox == textbox,
            c.margin == margin,
            c.background_color == background_color,
    {
        CodeBox {
            width: textbox.width_with_padding(),
            height: textbox.height_with_margin(),
            margin,
            background_color,
            textbox,
        }
    }

    /// The frame: the rounded background with room for the title bar, then
    /// the three window buttons.
    pub open spec fn chrome_commands(&self, hpos: int, top: int) -> Seq<DrawCommand> {
        let color = match self.background_color {
            Some(c) => c,
            None => default_title_bar_color(),
        };
        rounded_rectangle(
            hpos,
            top,
            self.width + CHROME_CORNER_RADIUS,
            self.height + TITLE_BAR_HEIGHT + CHROME_CORNER_RADIUS,
            CHROME_CORNER_RADIUS as int,
            color,
        ) + button_commands(hpos, top, 0) + button_commands(hpos, top, 1) + button_commands(hpos, top, 2)
    }

    pub open spec fn commands(&self, hpos: int, vpos: int, screen_height: u32) -> Seq<DrawCommand> {
        let top = vpos + self.margin;
        self.chrome_commands(hpos, top) + self.textbox.commands(hpos, top + TITLE_BAR_HEIGHT, screen_height)
    }

    /// Draws the frame and the code below its title bar; returns the cursor
    /// below the box and its bottom margin.
    pub fn draw(&self, hpos: Pos, vpos: Pos, screen_height: u32, out: &mut Vec<DrawCommand>) -> (next: Pos)
        requires
            self.wf(),
            within_limit(hpos as int),
            within_limit(vpos as int),
        ensures
            final(out)@ == old(out)@ + self.commands(hpos as int, vpos as int, screen_height),
            next == self.textbox.top_position(vpos + self.margin + TITLE_BAR_HEIGHT, screen_height)
                + self.height + self.margin,
    {
        let ghost start = out@;
        let top: Pos = vpos + self.margin as i128;
        let color = match self.background_color {
            Some(c) => c,
            None => Color { r: 246, g: 245, b: 245, a: 255 },
        };
        let w: Pos = (self.width + CHROME_CORNER_RADIUS) as i128;
        let h: Pos = (self.height + TITLE_BAR_HEIGHT + CHROME_CORNER_RADIUS) as i128;
        let r: Pos = CHROME_CORNER_RADIUS as i128;
        out.push(DrawCommand::Circle { x: hpos + r, y: top + r, radius: CHROME_CORNER_RADIUS, color });
        out.push(DrawCommand::Circle { x: hpos + w - r, y: top + r, radius: CHROME_CORNER_RADIUS, color });
        out.push(DrawCommand::Rect { x: hpos, y: top + r, width: w as u32, height: (h - 2 * r) as u32, color });
        out.push(DrawCommand::Rect { x: hpos + r, y: top, width: (w - 2 * r) as u32, height: h as u32, color });
        out.push(DrawCommand::Circle { x: hpos + r, y: top + h - r, radius: CHROME_CORNER_RADIUS, color });
        out.push(DrawCommand::Circle { x: hpos + w - r, y: top + h - r, radius: CHROME_CORNER_RADIUS, color });
        let mut i: u32 = 0;
        while i < 3
            invariant
                0 <= i <= 3,
                within_limit(hpos as int),
                within_limit(vpos as int),
                top == vpos + self.margin,
                self.wf(),
                out@ == start + rounded_rectangle(
                    hpos as int,
                    top as int,
                    self.width + CHROME_CORNER_RADIUS,
                    self.height + TITLE_BAR_HEIGHT + CHROME_CORNER_RADIUS,
                    CHROME_CORNER_RADIUS as int,
                    color,
                ) + buttons_up_to(hpos as int, top as int, i as int),
            decreases 3 - i,
        {
            let (fill, outline) = button_colors(i);
            let cx: Pos = hpos + (CHROME_CIRCLE_DISTANCE * (i + 1) + CHROME_CIRCLE_RADIUS * (2 * i + 1)) as i128;
            let cy: Pos = top + (TITLE_BAR_HEIGHT / 2) as i128;
            out.push(DrawCommand::Circle { x: cx, y: cy, radius: CHROME_CIRCLE_RADIUS, color: fill });
            out.push(DrawCommand::CircleOutline { x: cx, y: cy, radius: CHROME_CIRCLE_RADIUS, color: outline });
            i = i + 1;
        }
        proof {
            reveal_with_fuel(buttons_up_to, 4);
            assert(buttons_up_to(hpos as int, top as int, 1) =~= button_commands(hpos as int, top as int, 0));
            assert(buttons_up_to(hpos as int, top as int, 3) =~= button_commands(hpos as int, top as int, 0)
                + button_commands(hpos as int, top as int, 1) + button_commands(hpos as int, top as int, 2));
            assert(out@ =~= start + self.chrome_commands(hpos as int, top as int));
        }
        let inner_next = self.textbox.draw(hpos, top + TITLE_BAR_HEIGHT as i128, screen_height, out);
        proof {
            assert(out@ =~= start + self.commands(hpos as int, vpos as int, screen_height));
        }
        inner_next + self.margin as i128
    }

    pub fn width(&self) -> (w: u32)
        ensures
            w == self.width,
    {
        self.width
    }

    pub fn width_with_padding(&self) -> (w: u32)
        requires
            self.wf(),
        ensures
            w == self.width + 2 * CHROME_CORNER_RADIUS,
    {
        self.width + CHROME_CORNER_RADIUS * 2
    }

    pub fn height(&self) -> (h: u32)
        ensures
            h == self.height,
    {
        self.height
    }

    pub fn height_with_padding(&self) -> (h: u32)
        requires
            self.wf(),
        ensures
            h == self.height + CHROME_CORNER_RADIUS,
    {
        self.height + CHROME_CORNER_RADIUS
    }

    pub fn height_with_margin(&self) -> (h: u32)
        requires
            self.wf(),
        ensures
            h == self.height + self.margin,
    {
        self.height + self.margin
    }
}

/// The first `i` window buttons.
pub open spec fn buttons_up_to(x: int, y: int, i: int) -> Seq<DrawCommand>
    decreases i,
{
    if i <= 0 {
        Seq::empty()
    } else {
        buttons_up_to(x, y, i - 1) + button_commands(x, y, i - 1)
    }
}

} // verus!
