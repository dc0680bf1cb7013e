//! Markdown documents as sequences of parser events.
//!
//! The parser is `pulldown_cmark`. Its events are matched directly; contracts speak of
//! their model, in which every text is a sequence of characters.
use pulldown_cmark::{Alignment, CodeBlockKind, CowStr, Event, HeadingLevel, LinkType, Options};
use pulldown_cmark::{Parser, Tag};
use vstd::prelude::*;

verus! {

/// `pulldown_cmark::Event`, with its variants.
#[verifier::external_type_specification]
pub struct ExEvent<'a>(Event<'a>);

/// `pulldown_cmark::Tag`, with its variants.
#[verifier::external_type_specification]
pub struct ExTag<'a>(Tag<'a>);

/// `pulldown_cmark::CodeBlockKind`, with its variants.
#[verifier::external_type_specification]
pub struct ExCodeBlockKind<'a>(CodeBlockKind<'a>);

/// `pulldown_cmark::CowStr`, a text; see `cow_text`.
#[verifier::external_type_specification]
#[verifier::external_body]
pub struct ExCowStr<'a>(CowStr<'a>);

/// `pulldown_cmark::HeadingLevel`, carried through.
#[verifier::external_type_specification]
#[verifier::external_body]
pub struct ExHeadingLevel(HeadingLevel);

/// `pulldown_cmark::LinkType`, carried through.
#[verifier::external_type_specification]
#[verifier::external_body]
pub struct ExLinkType(LinkType);

/// `pulldown_cmark::Alignment`, carried through.
#[verifier::external_type_specification]
#[verifier::external_body]
pub struct ExAlignment(Alignment);

/// The characters that a `pulldown_cmark::CowStr` holds.
pub uninterp spec fn cow_text(text: CowStr<'_>) -> Seq<char>;

/// The events of a Markdown document with every extension of `pulldown_cmark` enabled.
pub uninterp spec fn markdown_events(markdown: Seq<char>) -> Seq<EventModel>;

/// `CowStr::to_string` gives the characters that the text holds.
#[verifier::external_body]
pub(crate) fn cow_string(text: &CowStr<'_>) -> (res: String)
    ensures
        res@ == cow_text(*text),
{
    text.to_string()
}

/// `Parser::new_ext` with `Options::all()`, run to its end: the events, in their order,
/// are a function of the document alone.
#[verifier::external_body]
pub(crate) fn parse_markdown(markdown: &str) -> (res: Vec<Event<'_>>)
    ensures
        models(res@) == markdown_events(markdown@),
{
    Parser::new_ext(markdown, Options::all()).collect()
}

/// What a tag says, without what no reader of it uses.
pub enum TagModel {
    Paragraph,
    Heading,
    BlockQuote,
    CodeBlock(Option<Seq<char>>),
    List(Option<u64>),
    Item,
    FootnoteDefinition,
    Table,
    TableHead,
    TableRow,
    TableCell,
    Emphasis,
    Strong,
    Strikethrough,
    Link(Seq<char>),
    Image(Seq<char>),
}

/// What an event says.
pub enum EventModel {
    Start(TagModel),
    End(TagModel),
    Text(Seq<char>),
    Code(Seq<char>),
    Html(Seq<char>),
    FootnoteReference(Seq<char>),
    SoftBreak,
    HardBreak,
    Rule,
    TaskListMarker(bool),
}

/// The model of a tag: a code block has its language where it is fenced, a link and an
/// image have their destination.
pub open spec fn tag_model(tag: Tag<'_>) -> TagModel {
    match tag {
        Tag::Paragraph => TagModel::Paragraph,
        Tag::Heading(_, _, _) => TagModel::Heading,
        Tag::BlockQuote => TagModel::BlockQuote,
        Tag::CodeBlock(CodeBlockKind::Indented) => TagModel::CodeBlock(None),
        Tag::CodeBlock(CodeBlockKind::Fenced(language)) => TagModel::CodeBlock(
            Some(cow_text(language)),
        ),
        Tag::List(start) => TagModel::List(start),
        Tag::Item => TagModel::Item,
        Tag::FootnoteDefinition(_) => TagModel::FootnoteDefinition,
        Tag::Table(_) => TagModel::Table,
        Tag::TableHead => TagModel::TableHead,
        Tag::TableRow => TagModel::TableRow,
        Tag::TableCell => TagModel::TableCell,
        Tag::Emphasis => TagModel::Emphasis,
        Tag::Strong => TagModel::Strong,
        Tag::Strikethrough => TagModel::Strikethrough,
        Tag::Link(_, url, _) => TagModel::Link(cow_text(url)),
        Tag::Image(_, url, _) => TagModel::Image(cow_text(url)),
    }
}

/// The model of an event.
pub open spec fn event_model(event: Event<'_>) -> EventModel {
    match event {
        Event::Start(tag) => EventModel::Start(tag_model(tag)),
        Event::End(tag) => EventModel::End(tag_model(tag)),
        Event::Text(text) => EventModel::Text(cow_text(text)),
        Event::Code(text) => EventModel::Code(cow_text(text)),
        Event::Html(text) => EventModel::Html(cow_text(text)),
        Event::FootnoteReference(label) => EventModel::FootnoteReference(cow_text(label)),
        Event::SoftBreak => EventModel::SoftBreak,
        Event::HardBreak => EventModel::HardBreak,
        Event::Rule => EventModel::Rule,
        Event::TaskListMarker(checked) => EventModel::TaskListMarker(checked),
    }
}

/// The models of the events in a list.
pub open spec fn models(events: Seq<Event<'_>>) -> Seq<EventModel> {
    events.map_values(|event: Event<'_>| event_model(event))
}

/// The model of an event tells what the event is: each kind of element and of event has a model of
/// its own, with the texts that the event holds.
pub proof fn law_models_tell_events_apart(event: Event<'_>)
    ensures
        event_model(event) == EventModel::Start(TagModel::Emphasis) <==> event == Event::Start(
            Tag::Emphasis,
        ),
        event_model(event) == EventModel::End(TagModel::Emphasis) <==> event == Event::End(
            Tag::Emphasis,
        ),
        event_model(event) == EventModel::Start(TagModel::Strong) <==> event == Event::Start(
            Tag::Strong,
        ),
        event_model(event) == EventModel::End(TagModel::Strong) <==> event == Event::End(
            Tag::Strong,
        ),
        event_model(event) == EventModel::Start(TagModel::Strikethrough) <==> event
            == Event::Start(Tag::Strikethrough),
        event_model(event) == EventModel::End(TagModel::Strikethrough) <==> event == Event::End(
            Tag::Strikethrough,
        ),
        event_model(event) == EventModel::Start(TagModel::Paragraph) <==> event == Event::Start(
            Tag::Paragraph,
        ),
        event_model(event) == EventModel::Start(TagModel::Item) <==> event == Event::Start(
            Tag::Item,
        ),
        event_model(event) == EventModel::Start(TagModel::BlockQuote) <==> event == Event::Start(
            Tag::BlockQuote,
        ),
        event_model(event) == EventModel::Start(TagModel::TableHead) <==> event == Event::Start(
            Tag::TableHead,
        ),
        event_model(event) == EventModel::Start(TagModel::TableRow) <==> event == Event::Start(
            Tag::TableRow,
        ),
        event_model(event) == EventModel::Start(TagModel::TableCell) <==> event == Event::Start(
            Tag::TableCell,
        ),
        event matches Event::Text(body) ==> event_model(event) == EventModel::Text(cow_text(body)),
        event matches Event::Code(body) ==> event_model(event) == EventModel::Code(cow_text(body)),
        event matches Event::Html(body) ==> event_model(event) == EventModel::Html(cow_text(body)),
        event matches Event::FootnoteReference(label) ==> event_model(event)
            == EventModel::FootnoteReference(cow_text(label)),
        event matches Event::TaskListMarker(checked) ==> event_model(event)
            == EventModel::TaskListMarker(checked),
        event is SoftBreak <==> event_model(event) is SoftBreak,
        event is HardBreak <==> event_model(event) is HardBreak,
        event is Rule <==> event_model(event) is Rule,
{
}

/// A list keeps the number that it begins with, a link and an image where they lead, and a code
/// block its language where it is fenced.
pub proof fn law_models_keep_what_a_tag_says(tag: Tag<'_>)
    ensures
        tag matches Tag::List(start) ==> tag_model(tag) == TagModel::List(start),
        tag matches Tag::Link(_, url, _) ==> tag_model(tag) == TagModel::Link(cow_text(url)),
        tag matches Tag::Image(_, url, _) ==> tag_model(tag) == TagModel::Image(cow_text(url)),
        tag matches Tag::CodeBlock(CodeBlockKind::Fenced(language)) ==> tag_model(tag)
            == TagModel::CodeBlock(Some(cow_text(language))),
        tag matches Tag::CodeBlock(CodeBlockKind::Indented) ==> tag_model(tag)
            == TagModel::CodeBlock(None),
        tag is Heading <==> tag_model(tag) is Heading,
        tag is Table <==> tag_model(tag) is Table,
        tag is FootnoteDefinition <==> tag_model(tag) is FootnoteDefinition,
{
}

} // verus!
