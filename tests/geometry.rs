use rusty_slider::code_box_builder::{CodeBoxBuilder, HighlightedRun};
use rusty_slider::codebox::CodeBox;
use rusty_slider::drawbox::DrawBox;
use rusty_slider::geometry::{Color, DrawAlignment, DrawCommand, FontKind, TextMetrics};
use rusty_slider::hex_color::HexColor;
use rusty_slider::imagebox::ImageBox;
use rusty_slider::markdown_to_slides::{LinePlan, TextRun};
use rusty_slider::slider::{Slide, Slides};
use rusty_slider::textbox::{TextBox, TextBoxStyle, TextLine, TextPartial};
use rusty_slider::theme::Theme;

fn partial(text: &str, width: u32, font_size: u16, offset_y: u32) -> TextPartial {
    TextPartial::new(text, FontKind::Text, font_size, Color::white(), 200, TextMetrics { width, offset_y })
}

fn line(align: DrawAlignment, widths: &[u32]) -> TextLine {
    TextLine::new(align, widths.iter().map(|w| partial("w", *w, 20, 5)).collect())
}

fn text_xs(out: &[DrawCommand]) -> Vec<(i128, i128)> {
    out.iter()
        .filter_map(|c| match c {
            DrawCommand::Text { x, y, .. } => Some((*x, *y)),
            _ => None,
        })
        .collect()
}

#[test]
fn partial_height_scales_font_size() {
    let p = TextPartial::new("x", FontKind::Code, 20, Color::white(), 120, TextMetrics { width: 11, offset_y: 4 });
    assert_eq!(p.height, 24);
    assert_eq!(p.width, 11);
    assert_eq!(p.offset_y, 4);
}

#[test]
fn line_width_is_sum_of_partials() {
    let l = TextLine::new(
        DrawAlignment::Left,
        vec![partial("a", 10, 20, 3), partial("b", 25, 30, 9), partial("c", 5, 10, 1)],
    );
    assert_eq!(l.width, 40);
    assert_eq!(l.height, 60);
    assert_eq!(l.offset_y, 9);
    let empty = TextLine::new(DrawAlignment::Left, vec![]);
    assert_eq!((empty.width, empty.height, empty.offset_y), (0, 0, 0));
}

#[test]
fn box_width_is_widest_line_and_height_the_sum() {
    let b = TextBox::new(
        vec![line(DrawAlignment::Left, &[10, 20]), line(DrawAlignment::Left, &[50]), line(DrawAlignment::Left, &[])],
        20,
        None,
        TextBoxStyle::Standard,
    );
    assert_eq!(b.width(), 50);
    assert_eq!(b.height(), 80);
    assert_eq!(b.width_with_padding(), 90);
    assert_eq!(b.height_with_padding(), 120);
    assert_eq!(b.height_with_margin(), 140);
}

#[test]
fn lines_align_inside_box() {
    let b = TextBox::new(
        vec![
            line(DrawAlignment::Left, &[20]),
            line(DrawAlignment::Right, &[20]),
            line(DrawAlignment::Center, &[20, 10]),
            line(DrawAlignment::Left, &[100]),
        ],
        0,
        None,
        TextBoxStyle::Standard,
    );
    let mut out = vec![];
    let next = b.draw(100, 0, 600, &mut out);
    let xs = text_xs(&out);
    // inner left edge is 120, the box is 100 wide
    assert_eq!(xs[0], (120, 20 + 5));
    assert_eq!(xs[1], (120 + 100 - 20, 60 + 5));
    assert_eq!(xs[2], (120 + 50 - 15, 100 + 5));
    assert_eq!(xs[3], (120 + 50 - 15 + 20, 100 + 5));
    assert_eq!(xs[4], (120, 140 + 5));
    assert_eq!(next, 160 + 40);
}

#[test]
fn title_is_centered_vertically() {
    let b = TextBox::new(vec![line(DrawAlignment::Center, &[30])], 20, None, TextBoxStyle::Title);
    let mut out = vec![];
    let next = b.draw(0, 999, 600, &mut out);
    // 300 - 40/2 - 20 - 20 - 5
    let top = 300 - 20 - 20 - 20 - 5;
    assert_eq!(next, top + 40 + 40 + 20);
    assert_eq!(text_xs(&out)[0].1, top + 20 + 20 + 5);
}

#[test]
fn background_and_quotes_are_drawn_first() {
    let grey = Color::rgba(51, 51, 51, 255);
    let b = TextBox::new(
        vec![line(DrawAlignment::Left, &[30])],
        10,
        Some(grey),
        TextBoxStyle::Blockquote { size: 200, font: FontKind::Text, color: Color::white() },
    );
    let mut out = vec![];
    b.draw(5, 100, 600, &mut out);
    assert_eq!(out[0], DrawCommand::Rect { x: 5, y: 110, width: 70, height: 80, color: grey });
    assert!(matches!(out[1], DrawCommand::Quote { opening: true, x: 5, y: 300, .. }));
    assert!(matches!(out[2], DrawCommand::Quote { opening: false, x: 75, y: 190, .. }));
    assert_eq!(out.len(), 4);
}

#[test]
fn code_box_frames_its_text() {
    let inner = TextBox::new(vec![line(DrawAlignment::Left, &[60])], 0, None, TextBoxStyle::Code);
    let c = CodeBox::new(inner, 20, None);
    assert_eq!(c.width(), 100);
    assert_eq!(c.height(), 80);
    assert_eq!(c.width_with_padding(), 116);
    assert_eq!(c.height_with_padding(), 88);
    assert_eq!(c.height_with_margin(), 100);
    let mut out = vec![];
    let next = c.draw(0, 0, 600, &mut out);
    assert_eq!(next, 20 + 30 + 80 + 20);
    assert_eq!(out.len(), 6 + 6 + 1);
    let title_bar = Color::rgba(246, 245, 245, 255);
    assert_eq!(out[0], DrawCommand::Circle { x: 8, y: 28, radius: 8, color: title_bar });
    assert_eq!(out[3], DrawCommand::Rect { x: 8, y: 20, width: 92, height: 118, color: title_bar });
    assert!(matches!(out[6], DrawCommand::Circle { x: 18, y: 35, .. }));
    assert!(matches!(out[8], DrawCommand::Circle { x: 44, y: 35, .. }));
    assert!(matches!(out[10], DrawCommand::Circle { x: 70, y: 35, .. }));
    assert_eq!(text_xs(&out)[0], (20, 20 + 30 + 20 + 5));
}

#[test]
fn image_box_sizes_from_image() {
    let mut i = ImageBox::new("pic.png", 10, None);
    assert_eq!(i.width(), 0);
    assert_eq!(i.height_with_margin(), 50);
    let mut out = vec![];
    assert_eq!(i.draw(0, 0, &mut out), 50);
    assert!(out.is_empty());
    i.set_image(300, 200);
    assert_eq!(i.width_with_padding(), 340);
    assert_eq!(i.height_with_padding(), 240);
    assert_eq!(i.path(), Some("pic.png".to_string()));
    let next = i.draw(7, 100, &mut out);
    assert_eq!(next, 100 + 250);
    assert_eq!(
        out[0],
        DrawCommand::Image { path: "pic.png".to_string(), x: 7, y: 130, width: 300, height: 200 }
    );
    let mut bg = vec![];
    i.draw_background(1, 2, &mut bg);
    assert!(bg.is_empty());
}

#[test]
fn slide_places_boxes_by_alignment() {
    let boxes = || {
        vec![
            DrawBox::Text(TextBox::new(vec![line(DrawAlignment::Left, &[60])], 0, None, TextBoxStyle::Standard)),
            DrawBox::Text(TextBox::new(vec![line(DrawAlignment::Left, &[160])], 0, None, TextBoxStyle::Standard)),
        ]
    };
    let left = Slide::new(boxes(), None, DrawAlignment::Left, 20, None);
    let mut out = vec![];
    left.draw(1000, 600, &mut out);
    let xs = text_xs(&out);
    assert_eq!(xs[0], (40, 20 + 5));
    assert_eq!(xs[1], (40, 80 + 20 + 5));

    let right = Slide::new(boxes(), None, DrawAlignment::Right, 20, None);
    let mut out = vec![];
    right.draw(1000, 600, &mut out);
    let xs = text_xs(&out);
    assert_eq!(xs[0].0, 1000 - 20 - 100 + 20);
    assert_eq!(xs[1].0, 1000 - 20 - 200 + 20);

    let center = Slide::new(boxes(), None, DrawAlignment::Center, 20, None);
    assert_eq!(center.horizontal_position(100, 1000), 450);
    assert_eq!(DrawBox::Text(TextBox::new(vec![], 0, None, TextBoxStyle::Standard)).width_with_padding(), 40);
}

#[test]
fn slide_grows_by_output_boxes() {
    let mut s = Slide::empty(DrawAlignment::Center, 0);
    s.add_text_box(TextBox::new(vec![line(DrawAlignment::Left, &[1])], 0, None, TextBoxStyle::Standard));
    s.add_code_box(CodeBox::new(TextBox::new(vec![], 0, None, TextBoxStyle::Code), 0, None));
    assert_eq!(s.draw_boxes.len(), 2);
    assert!(matches!(s.draw_boxes[1], DrawBox::Code(_)));
}

#[test]
fn measure_mismatch_is_rejected() {
    let plan = LinePlan {
        align: DrawAlignment::Left,
        runs: vec![TextRun { text: "a".to_string(), font: FontKind::Text, font_size: 10, color: Color::white(), line_height: 100 }],
    };
    assert!(TextLine::from_plan(&plan, &vec![]).is_none());
    let l = TextLine::from_plan(&plan, &vec![TextMetrics { width: 7, offset_y: 2 }]).unwrap();
    assert_eq!((l.width, l.height, l.offset_y), (7, 10, 2));
    let huge = vec![TextMetrics { width: u32::MAX, offset_y: 0 }];
    assert!(TextLine::from_plan(&plan, &huge).is_some());
    assert!(TextBox::from_plan(&vec![plan.clone()], &vec![huge], 0, None, TextBoxStyle::Standard).is_none());
    assert!(TextBox::from_plan(&vec![plan], &vec![], 0, None, TextBoxStyle::Standard).is_none());
}

#[test]
fn code_lines_expand_tabs_and_drop_breaks() {
    let theme = Theme::default();
    let builder = CodeBoxBuilder::new(&theme);
    assert_eq!(builder.tab_spaces, "    ");
    let run = |t: &str, bold: bool, italic: bool| HighlightedRun { text: t.to_string(), color: Color::white(), bold, italic };
    let highlighted = vec![
        vec![run("\tlet", true, false), run(" x", false, true), run("\n", false, false)],
        vec![run("", false, false)],
        vec![run("y;\n\n", true, true)],
    ];
    let lines = builder.build_text_lines(&highlighted);
    assert_eq!(lines.len(), 3);
    assert_eq!(lines[0].runs.len(), 2);
    assert_eq!(lines[0].runs[0].text, "    let");
    assert_eq!(lines[0].runs[0].font, FontKind::Bold);
    assert_eq!(lines[0].runs[1].font, FontKind::Italic);
    assert_eq!(lines[0].runs[1].font_size, 20);
    assert_eq!(lines[0].runs[1].line_height, 120);
    assert!(lines[1].runs.is_empty());
    assert_eq!(lines[2].runs[0].text, "y;");
    assert_eq!(lines[2].runs[0].font, FontKind::Code);
    let metrics = vec![vec![TextMetrics { width: 40, offset_y: 5 }; 2], vec![], vec![TextMetrics { width: 10, offset_y: 5 }]];
    let c = builder.build_draw_box(&lines, &metrics).unwrap();
    assert_eq!(c.margin, 20);
    assert_eq!(c.background_color, Some(Color::rgba(0, 43, 54, 255)));
    assert_eq!(c.textbox.width, 80);
    assert_eq!(c.textbox.height, 24 + 0 + 24);
}

#[test]
fn hex_colors_parse() {
    assert_eq!(HexColor("#ff8000".to_string()).to_color(), Color::rgba(255, 128, 0, 255));
    assert_eq!(HexColor("#B19CD9".to_string()).to_color(), Color::rgba(177, 156, 217, 255));
    assert_eq!(HexColor("not a color".to_string()).to_color(), Color::white());
    assert_eq!(HexColor("#123".to_string()).as_str(), "#123");
    assert_eq!(HexColor("#123".to_string()).to_color(), Color::rgba(0x11, 0x22, 0x33, 255));
    assert_eq!(HexColor("ff8000".to_string()).to_color(), Color::rgba(255, 128, 0, 255));
    assert_eq!(HexColor("#12345".to_string()).to_color(), Color::white());
}

#[test]
fn comments_and_front_matter_are_removed() {
    let text = "---\ntitle: Deck\n---\n# A <!-- note -->\n\nB<!--\nmulti\n-- >\n".to_string();
    assert_eq!(Slides::strip_comments(text.clone()), "---\ntitle: Deck\n---\n# A \n\nB\n");
    assert_eq!(Slides::strip_yaml_header("---\ntitle: Deck\n---\n# A\n".to_string()), "# A\n");
    assert_eq!(Slides::sanitize_markdown(text), "# A \n\nB\n");
}

#[test]
fn plain_text_survives_sanitizing() {
    let plain = "# Title\n\nBody text\n\n---\n\n## Slide 2\n\n- item one\n- item two".to_string();
    let once = Slides::sanitize_markdown(plain.clone());
    assert_eq!(once, plain);
    assert_eq!(Slides::sanitize_markdown(once), plain);
}

#[test]
fn front_matter_only_at_start() {
    let inside = "# A\n\n---\ntitle: Deck\n---\nB\n".to_string();
    assert_eq!(Slides::strip_yaml_header(inside.clone()), inside);
    let deck = "# A\n\n---\n\n# B: two\n\n<!-- unfinished -- \n".to_string();
    assert_eq!(Slides::sanitize_markdown(deck.clone()), deck);
}
