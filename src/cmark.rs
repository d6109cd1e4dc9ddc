use pulldown_cmark::Event::{Code, End, HardBreak, SoftBreak, Start, Text};
use pulldown_cmark::Tag::{Emphasis, Heading, Item, Link, List, Paragraph, Strikethrough, Strong};
use pulldown_cmark::{Options, Parser};
use vstd::prelude::*;

verus! {

/// A block or inline element of a markdown document, as the renderer sees it.
pub enum MdTag {
    Heading,
    Paragraph,
    List,
    Item,
    Emphasis,
    Strong,
    Strikethrough,
    /// A hyperlink, with its destination.
    Link(String),
    /// Any element that the renderer gives no layout of its own.
    Other,
}

/// One token of a markdown document, in document order.
pub enum MdEvent {
    Start(MdTag),
    End(MdTag),
    Text(String),
    Code(String),
    SoftBreak,
    HardBreak,
    /// Any token that the renderer ignores.
    Other,
}

/// The token stream that a CommonMark tokenizer (with strikethrough enabled)
/// produces for a document; it depends on the document's characters alone.
pub uninterp spec fn markdown_events_of(content: Seq<char>) -> Seq<MdEvent>;

/// Relies on pulldown_cmark::Parser::new_ext: tokenizes `content` as CommonMark
/// with strikethrough; start and end tokens come balanced.
#[verifier::external_body]
pub(crate) fn markdown_events(content: &str) -> (r: Vec<MdEvent>)
    ensures
        r@ == markdown_events_of(content@),
{
    let tag = |t| match t {
        Heading(..) => MdTag::Heading, Paragraph => MdTag::Paragraph,
        List(_) => MdTag::List, Item => MdTag::Item,
        Emphasis => MdTag::Emphasis, Strong => MdTag::Strong,
        Strikethrough => MdTag::Strikethrough,
        Link(_, url, _) => MdTag::Link(url.to_string()), _ => MdTag::Other,
    };
    let parser = Parser::new_ext(content, Options::ENABLE_STRIKETHROUGH);
    parser.map(|e| match e {
        Start(t) => MdEvent::Start(tag(t)), End(t) => MdEvent::End(tag(t)),
        Text(s) => MdEvent::Text(s.to_string()), Code(s) => MdEvent::Code(s.to_string()),
        SoftBreak => MdEvent::SoftBreak, HardBreak => MdEvent::HardBreak,
        _ => MdEvent::Other,
    }).collect()
}

} // verus!
