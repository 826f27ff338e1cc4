use vstd::prelude::*;
use vstd::string::StringExecFns;
use crate::geometry::{Color, DrawAlignment};
use crate::transitioning::Transitioning;

verus! {

/// The look of a slideshow: colors, fonts, sizes and spacing. Line heights
/// are in percent of the font size.
#[derive(Clone, Debug)]
pub struct Theme {
    pub background_image: Option<String>,
    pub background_color: Color,
    pub heading_color: Color,
    pub text_color: Color,
    pub align: DrawAlignment,
    pub font: String,
    pub font_bold: String,
    pub font_italic: String,
    pub font_size_header_title: u16,
    pub font_size_header_slides: u16,
    pub font_size_text: u16,
    pub vertical_offset: u32,
    pub horizontal_offset: u32,
    pub line_height: u16,
    pub blockquote_background_color: Color,
    pub blockquote_padding: u32,
    pub blockquote_left_quote: String,
    pub blockquote_right_quote: String,
    pub font_code: String,
    pub font_code_size: u16,
    pub code_line_height: u16,
    pub code_background_color: Color,
    pub code_theme: String,
    pub code_tab_width: usize,
    pub bullet: String,
    pub shader: bool,
    pub transition: Option<Transitioning>,
}

impl Theme {
    /// The built-in values, used where no theme file is found.
    pub open spec fn is_default(&self) -> bool {
        &&& self.background_image is None
        &&& self.background_color == Color { r: 48, g: 25, b: 52, a: 255 }
        &&& self.heading_color == Color { r: 177, g: 156, b: 217, a: 255 }
        &&& self.text_color == Color { r: 255, g: 255, b: 255, a: 255 }
        &&& self.align == DrawAlignment::Center
        &&& self.font@ == "assets/Amble-Regular.ttf"@
        &&& self.font_bold@ == "assets/Amble-Bold.ttf"@
        &&& self.font_italic@ == "assets/Amble-Italic.ttf"@
        &&& self.font_size_header_title == 100
        &&& self.font_size_header_slides == 80
        &&& self.font_size_text == 40
        &&& self.vertical_offset == 20
        &&& self.horizontal_offset == 20
        &&& self.line_height == 200
        &&& self.blockquote_background_color == Color { r: 51, g: 51, b: 51, a: 255 }
        &&& self.blockquote_padding == 20
        &&& self.blockquote_left_quote@ == "\u{201c}"@
        &&& self.blockquote_right_quote@ == "\u{201e}"@
        &&& self.font_code@ == "assets/Hack-Regular.ttf"@
        &&& self.font_code_size == 20
        &&& self.code_line_height == 120
        &&& self.code_background_color == Color { r: 0, g: 43, b: 54, a: 255 }
        &&& self.code_theme@ == "Solarized (dark)"@
        &&& self.code_tab_width == 4
        &&& self.bullet@ == "\u{2022} "@
        &&& self.shader
        &&& self.transition is None
    }
}

impl Default for Theme {
    fn default() -> (t: Theme)
        ensures
            t.is_default(),
    {
        Theme {
            background_image: None,
            background_color: Color { r: 48, g: 25, b: 52, a: 255 },
            heading_color: Color { r: 177, g: 156, b: 217, a: 255 },
            text_color: Color { r: 255, g: 255, b: 255, a: 255 },
            align: DrawAlignment::Center,
            font: String::from_str("assets/Amble-Regular.ttf"),
            font_bold: String::from_str("assets/Amble-Bold.ttf"),
            font_italic: String::from_str("assets/Amble-Italic.ttf"),
            font_size_header_title: 100,
            font_size_header_slides: 80,
            font_size_text: 40,
            vertical_offset: 20,
            horizontal_offset: 20,
            line_height: 200,
            blockquote_background_color: Color { r: 51, g: 51, b: 51, a: 255 },
            blockquote_padding: 20,
            blockquote_left_quote: String::from_str("\u{201c}"),
            blockquote_right_quote: String::from_str("\u{201e}"),
            font_code: String::from_str("assets/Hack-Regular.ttf"),
            font_code_size: 20,
            code_line_height: 120,
            code_background_color: Color { r: 0, g: 43, b: 54, a: 255 },
            code_theme: String::from_str("Solarized (dark)"),
            code_tab_width: 4,
            bullet: String::from_str("\u{2022} "),
            shader: true,
            transition: None,
        }
    }
}

/// What to do with the theme file that was looked for.
#[derive(Clone, Copy, Debug, PartialEq, Eq, Structural)]
pub enum ThemeSource {
    /// Use the built-in theme.
    Defaults,
    /// Parse the file's contents; malformed contents are fatal.
    Parse,
}

/// A missing theme file, or an empty one, gives the built-in theme; any
/// other contents are parsed, and malformed ones are fatal.
pub fn theme_source(contents: Option<&str>) -> (s: ThemeSource)
    ensures
        contents is None ==> s == ThemeSource::Defaults,
        contents matches Some(c) ==> (s == ThemeSource::Defaults <==> c@.len() == 0),
{
    match contents {
        None => ThemeSource::Defaults,
        Some(c) => if c.is_empty() {
            ThemeSource::Defaults
        } else {
            ThemeSource::Parse
        },
    }
}

} // verus!
