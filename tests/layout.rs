use rusty_slider::blocks::{Block, ListItem, Span};
use rusty_slider::geometry::{Color, DrawAlignment, FontKind, TextMetrics};
use rusty_slider::markdown_to_slides::{BoxPlan, MarkdownToSlides};
use rusty_slider::executable_code::ExecutableCode;
use rusty_slider::textbox::TextBoxStyle;
use rusty_slider::theme::Theme;

fn text(s: &str) -> Span {
    Span::Text(s.to_string())
}

fn converter() -> MarkdownToSlides {
    MarkdownToSlides::new(Theme::default())
}

fn basic_deck_tokens() -> Vec<Block> {
    vec![
        Block::Header(vec![text("Title")], 1),
        Block::Paragraph(vec![text("Body text")]),
        Block::Hr,
        Block::Header(vec![text("Slide 2")], 2),
        Block::UnorderedList(vec![
            ListItem::Simple(vec![text("item one")]),
            ListItem::Simple(vec![text("item two")]),
        ]),
    ]
}

#[test]
fn basic_deck_scenario() {
    let slides = converter().parse(basic_deck_tokens());
    assert_eq!(slides.len(), 2);

    let first = &slides[0].boxes;
    assert_eq!(first.len(), 2);
    match &first[0] {
        BoxPlan::Text { lines, style, .. } => {
            assert_eq!(*style, TextBoxStyle::Title);
            assert_eq!(lines.len(), 1);
            assert_eq!(lines[0].runs[0].text, "Title");
            assert_eq!(lines[0].runs[0].font_size, 100);
        }
        other => panic!("expected a title box, got {:?}", other),
    }
    match &first[1] {
        BoxPlan::Text { lines, style, .. } => {
            assert_eq!(*style, TextBoxStyle::Standard);
            assert_eq!(lines.len(), 1);
            assert_eq!(lines[0].runs[0].text, "Body text");
        }
        other => panic!("expected a text box, got {:?}", other),
    }

    let second = &slides[1].boxes;
    assert_eq!(second.len(), 1);
    match &second[0] {
        BoxPlan::Text { lines, style, .. } => {
            assert_eq!(*style, TextBoxStyle::Standard);
            assert_eq!(lines.len(), 3);
            assert_eq!(lines[0].runs[0].text, "Slide 2");
            assert_eq!(lines[0].runs[0].font_size, 80);
            for (line, item) in lines[1..].iter().zip(["item one", "item two"]) {
                assert_eq!(line.align, DrawAlignment::Left);
                assert_eq!(line.runs[0].text, "\u{2022} ");
                assert_eq!(line.runs[1].text, item);
            }
        }
        other => panic!("expected a text box, got {:?}", other),
    }
}

#[test]
fn slide_count_follows_rules() {
    let m = converter();
    let tokens = vec![
        Block::Paragraph(vec![text("a")]),
        Block::Hr,
        Block::Paragraph(vec![text("b")]),
        Block::Hr,
        Block::Paragraph(vec![text("c")]),
    ];
    assert_eq!(m.parse(tokens).len(), 3);

    let trailing = vec![Block::Paragraph(vec![text("a")]), Block::Hr];
    assert_eq!(m.parse(trailing).len(), 1);

    let leading = vec![Block::Hr, Block::Paragraph(vec![text("a")])];
    let slides = m.parse(leading);
    assert_eq!(slides.len(), 2);
    assert!(slides[0].boxes.is_empty());

    assert_eq!(m.parse(vec![]).len(), 0);
}

#[test]
fn layout_twice_gives_same_plan() {
    let m = converter();
    let a = m.parse(basic_deck_tokens());
    let b = m.parse(basic_deck_tokens());
    assert_eq!(format!("{:?}", a), format!("{:?}", b));
}

#[test]
fn spans_pick_fonts() {
    let m = converter();
    let spans = vec![
        text("plain "),
        Span::Emphasis(vec![text("slanted")]),
        Span::Strong(vec![text("heavy"), Span::Code("x".to_string())]),
        Span::Link("l".to_string(), "u".to_string(), None),
        Span::Break,
    ];
    let white = Color::white();
    let runs = m.spans_to_text_partials(&spans, FontKind::Text, 40, white);
    assert_eq!(runs.len(), 4);
    assert_eq!(runs[0].font, FontKind::Text);
    assert_eq!(runs[1].font, FontKind::Italic);
    assert_eq!(runs[1].text, "slanted");
    assert_eq!(runs[2].font, FontKind::Bold);
    assert_eq!(runs[3].font, FontKind::Code);
    assert_eq!(runs[3].line_height, 200);
}

#[test]
fn ordered_list_numbers_items() {
    let m = converter();
    let items = vec![
        ListItem::Simple(vec![text("one")]),
        ListItem::Paragraph(vec![]),
        ListItem::Simple(vec![text("three")]),
    ];
    let lines = m.build_list_box(&items, None);
    assert_eq!(lines.len(), 2);
    assert_eq!(lines[0].runs[0].text, "1. ");
    assert_eq!(lines[1].runs[0].text, "3. ");
    assert_eq!(lines[1].runs[1].text, "three");
    let bullet = "- ".to_string();
    let bulleted = m.build_list_box(&items, Some(&bullet));
    assert_eq!(bulleted[0].runs[0].text, "- ");
    let ten = m.build_bullet_partial(9, None);
    assert_eq!(ten.text, "10. ");
}

#[test]
fn special_blocks_close_pending_lines() {
    let m = converter();
    let blocks = vec![
        Block::Paragraph(vec![text("before")]),
        Block::Paragraph(vec![Span::Image("alt".to_string(), "pic.png".to_string(), None)]),
        Block::Blockquote(vec![Block::Paragraph(vec![text("quoted")])]),
        Block::CodeBlock(Some("rust".to_string()), "fn main() {}".to_string()),
        Block::Raw("<b>".to_string()),
        Block::OrderedList(vec![ListItem::Simple(vec![text("x")])], "1".to_string()),
    ];
    let boxes = m.blocks_to_draw_boxes(&blocks, None, TextBoxStyle::Standard);
    assert_eq!(boxes.len(), 5);
    assert!(matches!(&boxes[0], BoxPlan::Text { lines, .. } if lines.len() == 1));
    assert!(matches!(&boxes[1], BoxPlan::Image { path } if path == "pic.png"));
    match &boxes[2] {
        BoxPlan::Text { background_color, style, .. } => {
            assert_eq!(*background_color, Some(Color::rgba(51, 51, 51, 255)));
            assert_eq!(
                *style,
                TextBoxStyle::Blockquote { size: 200, font: FontKind::Text, color: Color::white() }
            );
        }
        other => panic!("expected a quote, got {:?}", other),
    }
    assert!(matches!(&boxes[3], BoxPlan::Code { language: Some(l), code } if l == "rust" && code == "fn main() {}"));
    assert!(matches!(&boxes[4], BoxPlan::Text { lines, .. } if lines[0].runs[0].text == "1. "));
    assert!(m.is_image(&vec![Span::Image("a".to_string(), "b".to_string(), None)]));
    assert!(!m.is_image(&vec![text("a")]));
}

#[test]
fn empty_block_sequence_gives_blank_slide() {
    let m = converter();
    assert!(m.blocks_to_draw_boxes(&vec![], None, TextBoxStyle::Standard).is_empty());
    let slide = m.build_slide(&vec![]);
    assert!(slide.boxes.is_empty());
    assert!(slide.code_block.is_none());
}

#[test]
fn first_tagged_code_block_is_kept() {
    let m = converter();
    let blocks = vec![
        Block::CodeBlock(None, "untagged".to_string()),
        Block::CodeBlock(Some("python".to_string()), "print(1)".to_string()),
        Block::CodeBlock(Some("bash".to_string()), "echo 2".to_string()),
    ];
    match m.find_first_code_block(&blocks) {
        Some(ExecutableCode::Python(code)) => assert_eq!(code, "print(1)"),
        other => panic!("expected python code, got {:?}", other),
    }
    assert!(m.find_first_code_block(&vec![Block::CodeBlock(None, "x".to_string())]).is_none());
}

#[test]
fn split_keeps_blocks_in_order() {
    let m = converter();
    let groups = m.split_tokens_into_slides(vec![
        Block::Paragraph(vec![text("a")]),
        Block::Paragraph(vec![text("b")]),
        Block::Hr,
        Block::Hr,
        Block::Raw("c".to_string()),
    ]);
    assert_eq!(groups.len(), 3);
    assert_eq!(groups[0].len(), 2);
    assert_eq!(groups[1].len(), 0);
    assert!(matches!(&groups[2][0], Block::Raw(r) if r == "c"));
}

#[test]
fn measured_metrics_follow_runs() {
    let m = converter();
    let slides = m.parse(basic_deck_tokens());
    if let BoxPlan::Text { lines, .. } = &slides[1].boxes[0] {
        let metrics: Vec<Vec<TextMetrics>> = lines
            .iter()
            .map(|l| l.runs.iter().map(|_| TextMetrics { width: 10, offset_y: 3 }).collect())
            .collect();
        let tb = rusty_slider::textbox::TextBox::from_plan(lines, &metrics, 20, None, TextBoxStyle::Standard)
            .expect("fits");
        assert_eq!(tb.width, 20);
        assert_eq!(tb.height, 80 + 80 + 160);
    } else {
        panic!("expected a text box");
    }
}

#[test]
fn deeper_headings_get_smaller() {
    let m = converter();
    let blocks = vec![
        Block::Header(vec![text("two")], 2),
        Block::Header(vec![text("three")], 3),
        Block::Header(vec![text("four")], 4),
        Block::Header(vec![text("deep")], 100),
    ];
    let boxes = m.blocks_to_draw_boxes(&blocks, None, TextBoxStyle::Standard);
    match &boxes[0] {
        BoxPlan::Text { lines, .. } => {
            let sizes: Vec<u16> = lines.iter().map(|l| l.runs[0].font_size).collect();
            assert_eq!(sizes, vec![80, 70, 60, 1]);
        }
        other => panic!("expected a text box, got {:?}", other),
    }
    assert_eq!(m.heading_size(9), 10);
    assert_eq!(m.heading_size(10), 1);
}

#[test]
fn image_with_text_is_a_text_line() {
    let m = converter();
    let blocks = vec![Block::Paragraph(vec![
        Span::Image("alt".to_string(), "pic.png".to_string(), None),
        text(" caption"),
    ])];
    let boxes = m.blocks_to_draw_boxes(&blocks, None, TextBoxStyle::Standard);
    assert_eq!(boxes.len(), 1);
    assert!(matches!(&boxes[0], BoxPlan::Text { lines, .. } if lines[0].runs.len() == 1 && lines[0].runs[0].text == " caption"));
}

#[test]
fn unsupported_code_block_is_passed_over() {
    let m = converter();
    let blocks = vec![
        Block::CodeBlock(Some("haskell".to_string()), "main = pure ()".to_string()),
        Block::CodeBlock(Some("bash".to_string()), "echo hi".to_string()),
    ];
    match m.find_first_code_block(&blocks) {
        Some(ExecutableCode::Bash(code)) => assert_eq!(code, "echo hi"),
        other => panic!("expected bash code, got {:?}", other),
    }
    let only = vec![Block::CodeBlock(Some("haskell".to_string()), "x".to_string())];
    assert!(m.find_first_code_block(&only).is_none());
    assert!(ExecutableCode::is_supported("sh"));
    assert!(!ExecutableCode::is_supported("haskell"));
}

#[test]
fn built_boxes_take_theme_margins() {
    let m = converter();
    let slides = m.parse(basic_deck_tokens());
    if let BoxPlan::Text { lines, background_color, style } = &slides[0].boxes[0] {
        let metrics: Vec<Vec<TextMetrics>> =
            lines.iter().map(|l| l.runs.iter().map(|_| TextMetrics { width: 5, offset_y: 1 }).collect()).collect();
        let b = m.build_text_box(lines, &metrics, *background_color, *style).unwrap();
        assert_eq!(b.margin, 20);
        assert_eq!(b.style, TextBoxStyle::Title);
    } else {
        panic!("expected a title box");
    }
    let image = m.build_image_box("pic.png");
    assert_eq!(image.margin, 0);
    assert!(image.background_color.is_none());
}
