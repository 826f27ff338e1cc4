use rusty_slider::code_box_builder::{CodeBoxBuilder, HighlightedRun};
use rusty_slider::drawbox::DrawBox;
use rusty_slider::executable_code::{
    command_outcome, output_text, CommandOutput, ExecutableCode, ExecutionError, Invocation,
};
use rusty_slider::geometry::{Color, DrawAlignment, TextMetrics};
use rusty_slider::show_help::ShowHelp;
use rusty_slider::slider::{Background, Slide, Slides};
use rusty_slider::theme::{theme_source, Theme, ThemeSource};
use rusty_slider::transitioner::{Transitioner, TRANSITIONING_TIME};
use rusty_slider::transitioning::Transitioning;

fn deck(n: usize, automatic: u64, transitioner: Option<Transitioner>) -> Slides {
    let slides = (0..n).map(|_| Slide::empty(DrawAlignment::Left, 0)).collect();
    Slides::from_slides(slides, automatic, false, transitioner, 1)
}

#[test]
fn next_stops_at_last_slide() {
    let mut d = deck(3, 0, None);
    assert!(d.next());
    assert!(d.next());
    assert!(!d.next());
    assert!(!d.next());
    assert_eq!(d.active_slide, 2);
}

#[test]
fn prev_stops_at_first_slide() {
    let mut d = deck(3, 0, None);
    assert!(!d.prev());
    assert_eq!(d.active_slide, 0);
    assert!(d.last());
    assert_eq!(d.active_slide, 2);
    assert!(d.prev());
    assert!(d.prev());
    assert!(!d.prev());
    assert_eq!(d.active_slide, 0);
    assert!(d.last());
    assert!(d.first());
    assert_eq!(d.active_slide, 0);
}

#[test]
fn empty_deck_ignores_navigation() {
    let mut d = deck(0, 0, None);
    assert!(!d.next());
    assert!(!d.last());
    assert!(!d.prev());
    assert!(d.current_slide().is_none());
}

#[test]
fn start_number_is_clamped() {
    let slides = (0..3).map(|_| Slide::empty(DrawAlignment::Left, 0)).collect();
    assert_eq!(Slides::from_slides(slides, 0, false, None, 7).active_slide, 2);
    let slides = (0..3).map(|_| Slide::empty(DrawAlignment::Left, 0)).collect();
    assert_eq!(Slides::from_slides(slides, 0, false, None, 2).active_slide, 1);
    let slides = (0..3).map(|_| Slide::empty(DrawAlignment::Left, 0)).collect();
    assert_eq!(Slides::from_slides(slides, 0, false, None, 0).active_slide, 0);
}

#[test]
fn automatic_advance_after_interval() {
    let mut d = deck(2, 1000, None);
    assert!(!d.update(600));
    assert!(!d.update(600));
    assert_eq!(d.time, 1200);
    assert!(d.update(16));
    assert_eq!(d.active_slide, 1);
    assert_eq!(d.time, 0);
    let mut manual = deck(2, 0, None);
    assert!(!manual.update(5000));
    assert_eq!(manual.time, 5000);
    assert_eq!(manual.active_slide, 0);
}

#[test]
fn slide_change_starts_transition() {
    let mut d = deck(2, 0, Some(Transitioner::load(Transitioning::Fan)));
    d.next();
    let t = d.transitioner.as_ref().unwrap();
    assert!(t.transitioning);
    d.update(300);
    assert_eq!(d.transitioner.as_ref().unwrap().transition_progress, 600);
    d.update(300);
    let t = d.transitioner.as_ref().unwrap();
    assert!(!t.transitioning);
    assert_eq!(t.transition_progress, 0);
}

#[test]
fn demo_transitions_cycle_masks() {
    let slides = (0..3).map(|_| Slide::empty(DrawAlignment::Left, 0)).collect();
    let mut d = Slides::from_slides(slides, 0, true, Some(Transitioner::load(Transitioning::Fan)), 1);
    d.next();
    let t = d.transitioner.as_ref().unwrap();
    assert_eq!(t.transition, Transitioning::Bignoise);
    assert_eq!(t.current_transition, 1);
    d.next();
    assert_eq!(d.transitioner.as_ref().unwrap().transition, Transitioning::Blobs);
}

#[test]
fn transition_progress_is_bounded() {
    let mut t = Transitioner::load(Transitioning::Split);
    t.update(100);
    assert_eq!(t.transition_progress, 0);
    t.start();
    for _ in 0..10 {
        t.update(70);
        assert!(t.transition_progress <= TRANSITIONING_TIME);
    }
    assert!(!t.transitioning);
    t.start();
    t.update(u64::MAX);
    assert_eq!(t.transition_progress, 0);
    assert!(!t.transitioning);
}

#[test]
fn next_transition_wraps() {
    let mut t = Transitioner::load(Transitioning::Split);
    for _ in 0..31 {
        t.next_transition();
    }
    assert_eq!(t.current_transition(), Some(Transitioning::Zebra));
    t.next_transition();
    assert_eq!(t.current_transition(), Some(Transitioning::Bignoise));
    t.set_transition(Transitioning::Maze);
    assert_eq!(t.transition, Transitioning::Maze);
}

#[test]
fn transition_names_and_files() {
    assert_eq!(Transitioning::all().len(), 32);
    assert_eq!(Transitioning::Curtainsopen.name(), "curtainsopen");
    assert_eq!(Transitioning::Zebra.filename(), "transitions/zebra.png");
    assert_eq!(Transitioning::default(), Transitioning::Split);
}

fn highlighted(text: &str) -> Vec<Vec<HighlightedRun>> {
    vec![vec![HighlightedRun { text: text.to_string(), color: Color::white(), bold: false, italic: false }]]
}

#[test]
fn code_execution_failure_shows_stderr() {
    let code = ExecutableCode::from("bash", &"exit 3".to_string()).unwrap();
    match code.invocation() {
        Ok(Invocation::Interpret { program, args }) => {
            assert_eq!(program, "bash");
            assert_eq!(args, vec!["-".to_string()]);
        }
        other => panic!("unexpected invocation {:?}", other),
    }
    let result = command_outcome(CommandOutput {
        success: false,
        stdout: String::new(),
        stderr: "bash: line 1: oops: command not found\n".to_string(),
    });
    assert!(matches!(&result, Err(ExecutionError::Compile(_))));
    let shown = output_text(result);
    assert_eq!(shown, "bash: line 1: oops: command not found\n");

    let theme = Theme::default();
    let builder = CodeBoxBuilder::new(&theme);
    let lines = builder.build_text_lines(&highlighted(&shown));
    let metrics = vec![vec![TextMetrics { width: 300, offset_y: 15 }]];
    let output_box = builder.build_draw_box(&lines, &metrics).unwrap();

    let mut slide = Slide::empty(DrawAlignment::Left, 0);
    slide.code_block = Some(code);
    let mut d = Slides::from_slides(vec![slide], 0, false, None, 1);
    d.run_code_block(output_box);
    let boxes = &d.slides[0].draw_boxes;
    assert_eq!(boxes.len(), 1);
    match &boxes[0] {
        DrawBox::Code(c) => {
            assert_eq!(c.textbox.lines[0].partials[0].text, "bash: line 1: oops: command not found");
        }
        other => panic!("expected a code box, got {:?}", other),
    }
}

#[test]
fn run_code_block_needs_code() {
    let theme = Theme::default();
    let builder = CodeBoxBuilder::new(&theme);
    let lines = builder.build_text_lines(&highlighted("out"));
    let output_box = builder.build_draw_box(&lines, &vec![vec![TextMetrics { width: 30, offset_y: 2 }]]).unwrap();
    let mut d = deck(1, 0, None);
    d.run_code_block(output_box);
    assert!(d.slides[0].draw_boxes.is_empty());
}

#[test]
fn successful_run_shows_output() {
    let r = command_outcome(CommandOutput { success: true, stdout: "hi\n".to_string(), stderr: "warn".to_string() });
    assert_eq!(output_text(r), "hi\n");
}

#[test]
fn execution_error_messages() {
    assert_eq!(ExecutionError::Execute("no such file".to_string()).message(), "Execution error: no such file");
    assert_eq!(ExecutionError::InputOutput.message(), "Couldn't read Std I/O");
    assert_eq!(ExecutionError::CreateTempFile("full".to_string()).message(), "Creating build file: full");
    assert_eq!(ExecutionError::Compile("bad".to_string()).message(), "Compile error: bad");
    assert_eq!(ExecutionError::UnknownLanguage("cobol".to_string()).message(), "Don't know how to compile cobol");
    assert_eq!(output_text(Err(ExecutionError::InputOutput)), "Couldn't read Std I/O");
}

#[test]
fn languages_map_to_interpreters() {
    let code = "x".to_string();
    assert!(matches!(ExecutableCode::from("sh", &code), Some(ExecutableCode::Bash(_))));
    assert!(matches!(ExecutableCode::from("python", &code), Some(ExecutableCode::Python(_))));
    assert!(matches!(ExecutableCode::from("ruby", &code), Some(ExecutableCode::Ruby(_))));
    assert!(matches!(ExecutableCode::from("perl", &code), Some(ExecutableCode::Perl(_))));
    assert!(matches!(ExecutableCode::from("rust", &code), Some(ExecutableCode::Rust(_))));
    let unknown = ExecutableCode::from("cobol", &code).unwrap();
    assert_eq!(unknown.code(), "x");
    assert_eq!(unknown.language_name(), "unknown: cobol");
    match unknown.invocation() {
        Err(ExecutionError::UnknownLanguage(l)) => assert_eq!(l, "cobol"),
        other => panic!("unexpected {:?}", other),
    }
    let py = ExecutableCode::from("python", &code).unwrap();
    assert!(matches!(py.invocation(), Ok(Invocation::Interpret { program, .. }) if program == "python3"));
    let rs = ExecutableCode::from("rust", &code).unwrap();
    assert!(matches!(rs.invocation(), Ok(Invocation::CompileRust)));
    assert_eq!(rs.language_name(), "rust");
}

#[test]
fn empty_theme_file_gives_defaults() {
    assert_eq!(theme_source(Some("")), ThemeSource::Defaults);
    assert_eq!(theme_source(Some(" \n")), ThemeSource::Parse);
    assert_eq!(theme_source(None), ThemeSource::Defaults);
    assert_eq!(theme_source(Some("{}")), ThemeSource::Parse);
    let t = Theme::default();
    assert_eq!(t.background_color, Color::rgba(48, 25, 52, 255));
    assert_eq!(t.align, DrawAlignment::Center);
    assert_eq!(t.font, "assets/Amble-Regular.ttf");
    assert_eq!(t.font_size_header_title, 100);
    assert_eq!(t.font_size_text, 40);
    assert_eq!(t.line_height, 200);
    assert_eq!(t.code_line_height, 120);
    assert_eq!(t.code_theme, "Solarized (dark)");
    assert_eq!(t.bullet, "\u{2022} ");
    assert_eq!(t.code_tab_width, 4);
    assert!(t.shader);
}

#[test]
fn help_overlay_toggles() {
    let mut h = ShowHelp::new();
    let lines = vec!["a".to_string(), "b".to_string()];
    let mut out = vec![];
    h.draw(&lines, 800, 600, &mut out);
    assert!(out.is_empty());
    h.toggle_show();
    assert!(h.showing);
    h.draw(&lines, 800, 600, &mut out);
    assert_eq!(out.len(), 3);
    assert!(matches!(out[0], rusty_slider::geometry::DrawCommand::Rect { width: 680, height: 480, .. }));
    assert!(matches!(&out[2], rusty_slider::geometry::DrawCommand::Text { y: 220, x: 120, .. }));
    h.toggle_show();
    assert!(!h.showing);
    assert!(!ShowHelp::default().showing);
}

#[test]
fn copy_takes_code_of_slide_shown() {
    let mut with_code = Slide::empty(DrawAlignment::Left, 0);
    with_code.code_block = ExecutableCode::from("ruby", &"puts 1".to_string());
    let slides = vec![Slide::empty(DrawAlignment::Left, 0), with_code];
    let mut d = Slides::from_slides(slides, 0, false, None, 1);
    assert_eq!(d.copy_codeblock(), None);
    d.next();
    assert_eq!(d.copy_codeblock(), Some("puts 1".to_string()));
    let mut out = vec![];
    d.draw(800, 600, &mut out);
    assert!(out.is_empty());
}

#[test]
fn start_from_idle_begins_at_zero() {
    let mut t = Transitioner::load(Transitioning::Split);
    t.start();
    assert!(t.transitioning);
    assert_eq!(t.transition_progress, 0);
    t.update(100);
    t.start();
    assert_eq!(t.transition_progress, 200);
}

#[test]
fn slide_background_prefers_own_image() {
    let mut s = Slide::empty(DrawAlignment::Left, 0);
    assert_eq!(s.background(true, true), Background::Deck);
    assert_eq!(s.background(false, false), Background::Plain);
    s.background_path = Some("bg.png".to_string());
    assert_eq!(s.background(true, true), Background::Own);
    assert_eq!(s.background(false, true), Background::Deck);
}
