use vstd::prelude::*;
use crate::codebox::CodeBox;
use crate::drawbox::DrawBox;
use crate::executable_code::ExecutableCode;
use crate::geometry::{DrawAlignment, DrawCommand, Pos, POS_LIMIT};
use crate::textbox::TextBox;
use crate::transitioner::Transitioner;

verus! {

/// How far one box can move the cursor: more than any box of `u32` size.
pub const CURSOR_STEP: i128 = 0x4_0000_0000;

pub open spec fn boxes_wf(boxes: Seq<DrawBox>) -> bool {
    forall|k: int| 0 <= k < boxes.len() ==> #[trigger] boxes[k].wf()
}

/// One slide: its boxes top to bottom, the code it can run, and how its
/// boxes are aligned.
#[derive(Debug)]
pub struct Slide {
    pub draw_boxes: Vec<DrawBox>,
    pub code_block: Option<ExecutableCode>,
    pub align: DrawAlignment,
    pub horizontal_offset: u32,
    pub background_path: Option<String>,
}

/// What a slide shows behind its boxes.
#[derive(Clone, Copy, Debug, PartialEq, Eq, Structural)]
pub enum Background {
    /// The slide's own image.
    Own,
    /// The deck's image.
    Deck,
    /// Only the theme's background color.
    Plain,
}

impl Slide {
    pub open spec fn wf(&self) -> bool {
        boxes_wf(self.draw_boxes@)
    }

    pub fn new(
        draw_boxes: Vec<DrawBox>,
        code_block: Option<ExecutableCode>,
        align: DrawAlignment,
        horizontal_offset: u32,
        background_path: Option<String>,
    ) -> (s: Slide)
        ensures
            boxes_wf(draw_boxes@) ==> s.wf(),
            s.draw_boxes@ == draw_boxes@,
            s.code_block == code_block,
            s.align == align,
            s.horizontal_offset == horizontal_offset,
            s.background_path == background_path,
    {
        Slide { draw_boxes, code_block, align, horizontal_offset, background_path }
    }

    pub fn empty(align: DrawAlignment, horizontal_offset: u32) -> (s: Slide)
        ensures
            s.wf(),
            s.draw_boxes@.len() == 0,
            s.code_block is None,
            s.align == align,
            s.horizontal_offset == horizontal_offset,
            s.background_path is None,
    {
        Slide {
            draw_boxes: Vec::new(),
            code_block: None,
            align,
            horizontal_offset,
            background_path: None,
        }
    }

    /// The slide's own image when it names one and it loaded, else the
    /// deck's image when there is one.
    pub fn background(&self, own_loaded: bool, deck_has_image: bool) -> (b: Background)
        ensures
            self.background_path is Some && own_loaded ==> b == Background::Own,
            !(self.background_path is Some && own_loaded) && deck_has_image ==> b == Background::Deck,
            !(self.background_path is Some && own_loaded) && !deck_has_image ==> b == Background::Plain,
    {
        if self.background_path.is_some() && own_loaded {
            Background::Own
        } else if deck_has_image {
            Background::Deck
        } else {
            Background::Plain
        }
    }

    /// The left edge of a box `width` wide: at the offset from the left edge,
    /// at the offset from the right edge, or centered.
    pub open spec fn spec_horizontal_position(&self, width: int, screen_width: u32) -> int {
        match self.align {
            DrawAlignment::Left => self.horizontal_offset as int,
            DrawAlignment::Right => screen_width - self.horizontal_offset - width,
            DrawAlignment::Center => screen_width / 2 - width / 2,
        }
    }

    pub fn horizontal_position(&self, width: u32, screen_width: u32) -> (h: Pos)
        ensures
            h == self.spec_horizontal_position(width as int, screen_width),
    {
        match self.align {
            DrawAlignment::Left => self.horizontal_offset as i128,
            DrawAlignment::Right => screen_width as i128 - self.horizontal_offset as i128 - width as i128,
            DrawAlignment::Center => (screen_width / 2) as i128 - (width / 2) as i128,
        }
    }

    /// What the first `k` boxes draw, each below the one before, and the
    /// cursor after them.
    pub open spec fn boxes_commands(&self, screen_width: u32, screen_height: u32, k: nat) -> (Seq<DrawCommand>, int)
        decreases k,
    {
        if k == 0 {
            (Seq::empty(), 0)
        } else {
            let (commands, vpos) = self.boxes_commands(screen_width, screen_height, (k - 1) as nat);
            let b = self.draw_boxes@[k - 1];
            let hpos = self.spec_horizontal_position(b.spec_width_with_padding(), screen_width);
            (commands + b.commands(hpos, vpos, screen_height), b.next_vpos(vpos, screen_height))
        }
    }

    pub open spec fn commands(&self, screen_width: u32, screen_height: u32) -> Seq<DrawCommand> {
        self.boxes_commands(screen_width, screen_height, self.draw_boxes@.len()).0
    }

    /// Draws the boxes top to bottom from the top of the screen.
    pub fn draw(&self, screen_width: u32, screen_height: u32, out: &mut Vec<DrawCommand>)
        requires
            self.wf(),
        ensures
            final(out)@ == old(out)@ + self.commands(screen_width, screen_height),
    {
        let ghost start = out@;
        let mut new_position: Pos = 0;
        let mut k: usize = 0;
        let n = self.draw_boxes.len();
        while k < n
            invariant
                n == self.draw_boxes@.len(),
                self.wf(),
                0 <= k <= n,
                -(k + 1) * CURSOR_STEP <= new_position <= (k + 1) * CURSOR_STEP,
                (out@, new_position as int) == {
                    let (c, v) = self.boxes_commands(screen_width, screen_height, k as nat);
                    (start + c, v)
                },
            decreases n - k,
        {
            proof {
                assert((k as int) < 0x1_0000_0000_0000_0000);
                vstd::arithmetic::mul::lemma_mul_inequality(k + 1, 0x1_0000_0000_0000_0000, CURSOR_STEP as int);
                assert(CURSOR_STEP == 0x4_0000_0000);
                assert(POS_LIMIT == 0x4000_0000_0000_0000_0000_0000_0000);
                assert(0x1_0000_0000_0000_0000int * 0x4_0000_0000int == 0x4_0000_0000_0000_0000_0000_0000int) by (nonlinear_arith);
                vstd::arithmetic::mul::lemma_mul_is_distributive_add_other_way(CURSOR_STEP as int, k + 1, 1);
            }
            let draw_box = &self.draw_boxes[k];
            proof {
                assert(draw_box.wf());
            }
            let hpos = self.horizontal_position(draw_box.width_with_padding(), screen_width);
            let ghost before = out@;
            new_position = draw_box.draw(hpos, new_position, screen_height, out);
            k = k + 1;
            proof {
                assert(out@ =~= start + self.boxes_commands(screen_width, screen_height, k as nat).0);
            }
        }
    }

    /// Appends the box that shows what running the slide's code gave.
    pub fn add_code_box(&mut self, draw_box: CodeBox)
        requires
            old(self).wf(),
            draw_box.wf(),
        ensures
            final(self).wf(),
            final(self).draw_boxes@ == old(self).draw_boxes@.push(DrawBox::Code(draw_box)),
            final(self).code_block == old(self).code_block,
            final(self).align == old(self).align,
            final(self).horizontal_offset == old(self).horizontal_offset,
    {
        self.draw_boxes.push(DrawBox::Code(draw_box));
    }

    pub fn add_text_box(&mut self, draw_box: TextBox)
        requires
            old(self).wf(),
            draw_box.wf(),
        ensures
            final(self).wf(),
            final(self).draw_boxes@ == old(self).draw_boxes@.push(DrawBox::Text(draw_box)),
            final(self).code_block == old(self).code_block,
            final(self).align == old(self).align,
            final(self).horizontal_offset == old(self).horizontal_offset,
    {
        self.draw_boxes.push(DrawBox::Text(draw_box));
    }
}

} // verus!

verus! {

/// The slide after `active` in a deck of `n`; the last one stays.
pub open spec fn next_index(active: int, n: int) -> int {
    if active + 1 < n {
        active + 1
    } else {
        active
    }
}

/// The slide before `active`; the first one stays.
pub open spec fn prev_index(active: int) -> int {
    if active > 0 {
        active - 1
    } else {
        active
    }
}

/// The deck: its slides, the one shown, and the clock that advances it.
/// Times are in milliseconds.
#[derive(Debug)]
pub struct Slides {
    pub slides: Vec<Slide>,
    /// Time after which the next slide is shown; 0 never advances.
    pub automatic: u64,
    pub active_slide: usize,
    /// Time since the slide was shown.
    pub time: u64,
    pub demo_transitions: bool,
    pub transitioner: Option<Transitioner>,
}

impl Slides {
    pub open spec fn wf(&self) -> bool {
        &&& (self.slides@.len() > 0 ==> self.active_slide < self.slides@.len())
        &&& (self.slides@.len() == 0 ==> self.active_slide == 0)
        &&& forall|k: int| 0 <= k < self.slides@.len() ==> #[trigger] self.slides@[k].wf()
        &&& (self.transitioner matches Some(t) ==> t.wf())
    }

    /// A deck showing slide `number`, counted from 1 and kept within the
    /// deck.
    pub fn from_slides(
        slides: Vec<Slide>,
        automatic: u64,
        demo_transitions: bool,
        transitioner: Option<Transitioner>,
        number: usize,
    ) -> (d: Slides)
        requires
            forall|k: int| 0 <= k < slides@.len() ==> #[trigger] slides@[k].wf(),
            transitioner matches Some(t) ==> t.wf(),
        ensures
            d.wf(),
            d.slides@ == slides@,
            d.automatic == automatic,
            d.time == 0,
            d.demo_transitions == demo_transitions,
            d.transitioner == transitioner,
            d.active_slide == if number == 0 || slides@.len() == 0 {
                0
            } else if number > slides@.len() {
                slides@.len() - 1
            } else {
                number - 1
            },
    {
        let n = slides.len();
        let capped = if number < n {
            number
        } else {
            n
        };
        let active_slide = if capped < 1 {
            0
        } else {
            capped - 1
        };
        Slides { slides, automatic, active_slide, time: 0, demo_transitions, transitioner }
    }

    pub open spec fn same_but_position(&self, other: &Slides) -> bool {
        &&& self.slides == other.slides
        &&& self.automatic == other.automatic
        &&& self.demo_transitions == other.demo_transitions
    }

    /// The transitioner after a slide change: the next mask when every slide
    /// shows another one, and running.
    pub open spec fn started(t: Transitioner, demo: bool) -> Transitioner {
        let picked = if demo {
            Transitioner {
                transition: t.transitions@[t.current_transition as int],
                current_transition: if t.current_transition + 1 == t.transitions@.len() {
                    0
                } else {
                    (t.current_transition + 1) as usize
                },
                ..t
            }
        } else {
            t
        };
        Transitioner { transitioning: true, ..picked }
    }

    /// The deck after showing slide `index`.
    pub open spec fn shown(&self, index: int) -> Slides {
        Slides {
            active_slide: index as usize,
            time: 0,
            transitioner: match self.transitioner {
                Some(t) => Some(Slides::started(t, self.demo_transitions)),
                None => None,
            },
            ..*self
        }
    }

    fn start_transition(&mut self)
        requires
            old(self).wf(),
        ensures
            final(self).wf(),
            *final(self) == (Slides {
                transitioner: match old(self).transitioner {
                    Some(t) => Some(Slides::started(t, old(self).demo_transitions)),
                    None => None,
                },
                ..*old(self)
            }),
    {
        let demo = self.demo_transitions;
        if let Some(transitioner) = &mut self.transitioner {
            if demo {
                let current = transitioner.current_transition().unwrap();
                transitioner.set_transition(current);
                transitioner.next_transition();
            }
            transitioner.start();
        }
    }

    fn set_active_slide(&mut self, active_slide: usize)
        requires
            old(self).wf(),
            active_slide < old(self).slides@.len(),
        ensures
            final(self).wf(),
            *final(self) == old(self).shown(active_slide as int),
    {
        self.active_slide = active_slide;
        self.time = 0;
        self.start_transition();
    }

    /// Shows the next slide, unless the last one is shown. Returns whether
    /// the slide changed, so that the frame shown so far can be kept for the
    /// transition.
    pub fn next(&mut self) -> (changed: bool)
        requires
            old(self).wf(),
        ensures
            final(self).wf(),
            changed == (old(self).active_slide + 1 < old(self).slides@.len()),
            changed ==> *final(self) == old(self).shown(old(self).active_slide + 1),
            !changed ==> *final(self) == *old(self),
            final(self).active_slide == next_index(old(self).active_slide as int, old(self).slides@.len() as int),
    {
        let n = self.slides.len();
        if self.active_slide + 1 < n {
            self.set_active_slide(self.active_slide + 1);
            true
        } else {
            false
        }
    }

    /// Shows the previous slide, unless the first one is shown.
    pub fn prev(&mut self) -> (changed: bool)
        requires
            old(self).wf(),
        ensures
            final(self).wf(),
            changed == (old(self).active_slide > 0),
            changed ==> *final(self) == old(self).shown(old(self).active_slide - 1),
            !changed ==> *final(self) == *old(self),
            final(self).active_slide == prev_index(old(self).active_slide as int),
    {
        if self.active_slide > 0 {
            self.set_active_slide(self.active_slide - 1);
            true
        } else {
            false
        }
    }

    /// Shows the first slide.
    pub fn first(&mut self) -> (changed: bool)
        requires
            old(self).wf(),
        ensures
            final(self).wf(),
            changed == (old(self).active_slide > 0),
            changed ==> *final(self) == old(self).shown(0),
            !changed ==> *final(self) == *old(self),
            final(self).active_slide == 0,
    {
        if self.active_slide > 0 {
            self.set_active_slide(0);
            true
        } else {
            false
        }
    }

    /// Shows the last slide.
    pub fn last(&mut self) -> (changed: bool)
        requires
            old(self).wf(),
        ensures
            final(self).wf(),
            changed == (old(self).active_slide + 1 < old(self).slides@.len()),
            changed ==> *final(self) == old(self).shown(old(self).slides@.len() - 1),
            !changed ==> *final(self) == *old(self),
            old(self).slides@.len() > 0 ==> final(self).active_slide == old(self).slides@.len() - 1,
    {
        let n = self.slides.len();
        if self.active_slide + 1 < n {
            self.set_active_slide(n - 1);
            true
        } else {
            false
        }
    }

    /// Lets `delta` milliseconds pass: past the automatic interval the next
    /// slide is shown, else the clock runs on; a transition advances either
    /// way. Returns whether the slide changed.
    pub fn update(&mut self, delta: u64) -> (changed: bool)
        requires
            old(self).wf(),
        ensures
            final(self).wf(),
            ({
                let advance = old(self).automatic > 0 && old(self).time > old(self).automatic;
                let moved = if advance {
                    if old(self).active_slide + 1 < old(self).slides@.len() {
                        old(self).shown(old(self).active_slide + 1)
                    } else {
                        *old(self)
                    }
                } else {
                    Slides {
                        time: if old(self).time + delta > u64::MAX {
                            u64::MAX
                        } else {
                            (old(self).time + delta) as u64
                        },
                        ..*old(self)
                    }
                };
                &&& changed == (advance && old(self).active_slide + 1 < old(self).slides@.len())
                &&& final(self).slides == moved.slides
                &&& final(self).active_slide == moved.active_slide
                &&& final(self).time == moved.time
                &&& final(self).automatic == moved.automatic
                &&& final(self).demo_transitions == moved.demo_transitions
                &&& match (moved.transitioner, final(self).transitioner) {
                    (None, None) => true,
                    (Some(m), Some(f)) => {
                        &&& (f.transitioning, f.transition_progress as int) == crate::transitioner::after_update(
                            m.transitioning,
                            m.transition_progress as int,
                            delta as int,
                        )
                        &&& f.transitions == m.transitions
                        &&& f.current_transition == m.current_transition
                        &&& f.transition == m.transition
                    },
                    _ => false,
                }
            }),
    {
        let mut changed = false;
        if self.automatic > 0 && self.time > self.automatic {
            changed = self.next();
        } else {
            self.time = self.time.saturating_add(delta);
        }
        if let Some(transitioner) = &mut self.transitioner {
            transitioner.update(delta);
        }
        changed
    }

    pub fn current_slide(&self) -> (s: Option<&Slide>)
        ensures
            self.active_slide < self.slides@.len() ==> s == Some(&self.slides@[self.active_slide as int]),
            self.active_slide >= self.slides@.len() ==> s is None,
    {
        if self.active_slide < self.slides.len() {
            Some(&self.slides[self.active_slide])
        } else {
            None
        }
    }

    /// The code of the slide shown, if it has any.
    pub fn current_code_block(&self) -> (c: Option<&ExecutableCode>)
        ensures
            self.active_slide < self.slides@.len() ==> c == match self.slides@[self.active_slide as int].code_block {
                Some(code) => Some(&code),
                None => None::<&ExecutableCode>,
            },
            self.active_slide >= self.slides@.len() ==> c is None,
    {
        match self.current_slide() {
            Some(slide) => match &slide.code_block {
                Some(code) => Some(code),
                None => None,
            },
            None => None,
        }
    }

    /// The code to copy: that of the slide shown, if it has any.
    pub fn copy_codeblock(&self) -> (c: Option<String>)
        ensures
            self.active_slide < self.slides@.len() ==> c == match self.slides@[self.active_slide as int].code_block {
                Some(code) => Some(code.spec_code()),
                None => None::<String>,
            },
            self.active_slide >= self.slides@.len() ==> c is None,
    {
        match self.current_code_block() {
            Some(code) => Some(code.code()),
            None => None,
        }
    }

    /// Draws the slide shown; nothing for an empty deck.
    pub fn draw(&self, screen_width: u32, screen_height: u32, out: &mut Vec<DrawCommand>)
        requires
            self.wf(),
        ensures
            self.slides@.len() > 0 ==> final(out)@ == old(out)@ + self.slides@[self.active_slide as int].commands(
                screen_width,
                screen_height,
            ),
            self.slides@.len() == 0 ==> final(out)@ == old(out)@,
    {
        if let Some(slide) = self.current_slide() {
            slide.draw(screen_width, screen_height, out);
        }
    }

    /// Appends the box that shows what running its code gave to the slide
    /// shown, if that slide has code; the other slides stay as they are.
    pub fn run_code_block(&mut self, output: CodeBox)
        requires
            old(self).wf(),
            output.wf(),
        ensures
            final(self).wf(),
            final(self).active_slide == old(self).active_slide,
            final(self).slides@.len() == old(self).slides@.len(),
            forall|k: int|
                0 <= k < old(self).slides@.len() && (k != old(self).active_slide
                    || old(self).slides@[k].code_block is None) ==> #[trigger] final(self).slides@[k]
                    == old(self).slides@[k],
            old(self).active_slide < old(self).slides@.len() && old(self).slides@[old(self).active_slide as int].code_block is Some
                ==> final(self).slides@[old(self).active_slide as int].draw_boxes@ == old(self).slides@[old(self).active_slide as int].draw_boxes@.push(DrawBox::Code(output)),
    {
        let active = self.active_slide;
        if active < self.slides.len() {
            if self.slides[active].code_block.is_some() {
                let mut slide = self.slides.remove(active);
                proof {
                    assert(slide.wf());
                }
                slide.add_code_box(output);
                self.slides.insert(active, slide);
                proof {
                    assert forall|k: int| 0 <= k < self.slides@.len() implies #[trigger] self.slides@[k].wf() by {
                        if k != active {
                            assert(self.slides@[k] == old(self).slides@[k]);
                        }
                    }
                }
            }
        }
    }
}

} // verus!
