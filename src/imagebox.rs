use vstd::prelude::*;
use crate::geometry::{Color, DrawCommand, Pos, within_limit};

verus! {

pub const IMAGE_PADDING: u32 = 20;

/// An image from a file, sized by the image once it is loaded.
#[derive(Clone, Debug)]
pub struct ImageBox {
    pub margin: u32,
    pub padding: u32,
    pub background_color: Option<Color>,
    pub path: String,
    /// Width and height of the loaded image; `None` until it is loaded.
    pub image: Option<(u32, u32)>,
}

impl ImageBox {
    pub open spec fn spec_width(&self) -> int {
        match self.image {
            Some((w, _)) => w as int,
            None => 0,
        }
    }

    pub open spec fn spec_height(&self) -> int {
        match self.image {
            Some((_, h)) => h as int,
            None => 0,
        }
    }

    pub open spec fn wf(&self) -> bool {
        &&& self.padding == IMAGE_PADDING
        &&& self.spec_width() + 2 * self.padding <= u32::MAX
        &&& self.spec_height() + 2 * self.padding + self.margin <= u32::MAX
    }

    pub fn new(path: &str, margin: u32, background_color: Option<Color>) -> (b: ImageBox)
        requires
            margin + 2 * IMAGE_PADDING <= u32::MAX,
        ensures
            b.wf(),
            b.path@ == path@,
            b.margin == margin,
            b.background_color == background_color,
            b.image is None,
    {
        ImageBox { margin, padding: IMAGE_PADDING, background_color, path: path.to_owned(), image: None }
    }

    pub open spec fn commands(&self, hpos: int, vpos: int) -> Seq<DrawCommand> {
        match self.image {
            Some((w, h)) => seq![
                DrawCommand::Image {
                    path: self.path,
                    x: hpos as i128,
                    y: (vpos + self.padding + self.margin) as i128,
                    width: w,
                    height: h,
                },
            ],
            None => Seq::empty(),
        }
    }

    /// Draws the image, if loaded, below the margin and padding; returns the
    /// cursor below the box.
    pub fn draw(&self, hpos: Pos, vpos: Pos, out: &mut Vec<DrawCommand>) -> (next: Pos)
        requires
            self.wf(),
            within_limit(hpos as int),
            within_limit(vpos as int),
        ensures
            final(out)@ == old(out)@ + self.commands(hpos as int, vpos as int),
            next == vpos + self.spec_height() + 2 * self.padding + self.margin,
    {
        let ghost start = out@;
        if let Some((w, h)) = self.image {
            out.push(DrawCommand::Image {
                path: self.path.clone(),
                x: hpos,
                y: vpos + self.padding as i128 + self.margin as i128,
                width: w,
                height: h,
            });
        }
        proof {
            assert(out@ =~= start + self.commands(hpos as int, vpos as int));
        }
        vpos + self.height_with_margin() as i128
    }

    pub fn draw_background(&self, hpos: Pos, vpos: Pos, out: &mut Vec<DrawCommand>)
        requires
            self.wf(),
        ensures
            final(out)@ == old(out)@ + match self.background_color {
                Some(color) => seq![
                    DrawCommand::Rect {
                        x: hpos,
                        y: vpos,
                        width: (self.spec_width() + 2 * self.padding) as u32,
                        height: (self.spec_height() + 2 * self.padding) as u32,
                        color,
                    },
                ],
                None => Seq::<DrawCommand>::empty(),
            },
    {
        let ghost start = out@;
        if let Some(color) = self.background_color {
            out.push(DrawCommand::Rect {
                x: hpos,
                y: vpos,
                width: self.width_with_padding(),
                height: self.height_with_padding(),
                color,
            });
        }
        proof {
            assert(out@ =~= start + match self.background_color {
                Some(color) => seq![
                    DrawCommand::Rect {
                        x: hpos,
                        y: vpos,
                        width: (self.spec_width() + 2 * self.padding) as u32,
                        height: (self.spec_height() + 2 * self.padding) as u32,
                        color,
                    },
                ],
                None => Seq::<DrawCommand>::empty(),
            });
        }
    }

    pub fn path(&self) -> (p: Option<String>)
        ensures
            p == Some(self.path),
    {
        Some(self.path.clone())
    }

    /// Records the size of the loaded image.
    pub fn set_image(&mut self, width: u32, height: u32)
        requires
            old(self).wf(),
            width + 2 * IMAGE_PADDING <= u32::MAX,
            height + 2 * IMAGE_PADDING + old(self).margin <= u32::MAX,
        ensures
            final(self).wf(),
            *final(self) == (ImageBox { image: Some((width, height)), ..*old(self) }),
    {
        self.image = Some((width, height));
    }

    pub fn background_color(&self) -> (c: Option<Color>)
        ensures
            c == self.background_color,
    {
        self.background_color
    }

    pub fn width(&self) -> (w: u32)
        requires
            self.wf(),
        ensures
            w == self.spec_width(),
    {
        match self.image {
            Some((w, _)) => w,
            None => 0,
        }
    }

    pub fn width_with_padding(&self) -> (w: u32)
        requires
            self.wf(),
        ensures
            w == self.spec_width() + 2 * self.padding,
    {
        self.width() + self.padding * 2
    }

    pub fn height(&self) -> (h: u32)
        requires
            self.wf(),
        ensures
            h == self.spec_height(),
    {
        match self.image {
            Some((_, h)) => h,
            None => 0,
        }
    }

    pub fn height_with_padding(&self) -> (h: u32)
        requires
            self.wf(),
        ensures
            h == self.spec_height() + 2 * self.padding,
    {
        self.height() + self.padding * 2
    }

    pub fn height_with_margin(&self) -> (h: u32)
        requires
            self.wf(),
        ensures
            h == self.spec_height() + 2 * self.padding + self.margin,
    {
        self.height_with_padding() + self.margin
    }
}

} // verus!
