//! Slideshow layout: Markdown blocks become slides of measured, positioned
//! draw boxes; a deck pages through them and a transition state machine
//! blends from one slide to the next.

pub mod geometry;
pub mod sums;
pub mod text;
pub mod executable_code;
pub mod textbox;
pub mod codebox;
pub mod imagebox;
pub mod drawbox;
pub mod transitioning;
pub mod transitioner;
pub mod theme;
pub mod blocks;
pub mod markdown_to_slides;
pub mod measure;
pub mod code_box_builder;
pub mod slider;
pub mod sanitize;
pub mod hex_color;
pub mod show_help;
pub mod laws;
