use vstd::prelude::*;

verus! {

/// Inline Markdown content.
#[derive(Debug)]
pub enum Span {
    Break,
    Text(String),
    Code(String),
    /// Text, target and title.
    Link(String, String, Option<String>),
    /// Alternative text, path and title.
    Image(String, String, Option<String>),
    Emphasis(Vec<Span>),
    Strong(Vec<Span>),
}

/// One item of a Markdown list.
#[derive(Debug)]
pub enum ListItem {
    Simple(Vec<Span>),
    Paragraph(Vec<Block>),
}

/// A block of a Markdown document.
#[derive(Debug)]
pub enum Block {
    /// Spans and level, 1 for the top level.
    Header(Vec<Span>, usize),
    Paragraph(Vec<Span>),
    Blockquote(Vec<Block>),
    /// Language tag, if any, and the code.
    CodeBlock(Option<String>, String),
    /// Items and the kind of numbering.
    OrderedList(Vec<ListItem>, String),
    UnorderedList(Vec<ListItem>),
    Raw(String),
    /// A horizontal rule, which separates slides.
    Hr,
}

} // verus!
