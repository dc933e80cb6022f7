//! Display payloads the core produces: opaque, serializable values that
//! the rendering layer interprets. The core only assembles them and never
//! reads them back.

use vstd::prelude::*;

verus! {

/// Icon that a block type advertises for itself.
#[derive(Clone, Copy, PartialEq, Eq, Structural, Debug)]
pub enum Icon {
    Folder,
    TaskComplete,
    Message,
    Box,
    Type,
    Feed,
}

/// Icon choices a card header may carry.
#[derive(Clone, Copy, PartialEq, Eq, Structural, Debug)]
pub enum CardIcon {
    Folder,
    TaskComplete,
    Message,
    Box,
    Type,
    Feed,
}

/// A piece of text, optionally colored with a hex code.
#[derive(Debug)]
pub struct TextComponent {
    pub text: String,
    pub color: Option<String>,
}

impl TextComponent {
    /// A plain, uncolored text component.
    pub fn new(text: String) -> (r: TextComponent)
        ensures
            r.text@ == text@,
            r.color is None,
    {
        TextComponent { text, color: None }
    }
}

/// Header line of a card: a title, an optional icon, and the id of the
/// block the card stands for, if any.
#[derive(Debug)]
pub struct CardHeader {
    pub title: String,
    pub icon: Option<CardIcon>,
    pub block_id: Option<String>,
}

/// A framed component with a header and inner content.
#[derive(Debug)]
pub struct CardComponent {
    pub color: Option<String>,
    pub content: Box<DisplayComponent>,
    pub header: CardHeader,
}

/// A display component the core can hand to the rendering layer.
#[derive(Debug)]
pub enum DisplayComponent {
    Text(TextComponent),
    Card(CardComponent),
}

/// Whether a card is the error-styled card built around the given text.
pub open spec fn spec_is_error_card(card: CardComponent, text: Seq<char>) -> bool {
    &&& card.color matches Some(c) && c@ == "#ff0000"@
    &&& card.header.title@ == "Error"@
    &&& card.header.icon is None
    &&& card.header.block_id is None
    &&& *card.content matches DisplayComponent::Text(t) && t.text@ == text && t.color is None
}

impl CardComponent {
    /// The component identifier the rendering layer dispatches on.
    pub fn cid(&self) -> (r: &str)
        ensures
            r@ == "card"@,
    {
        "card"
    }

    /// An error-styled card holding the given text.
    pub fn error_card(text: String) -> (r: CardComponent)
        ensures
            spec_is_error_card(r, text@),
    {
        CardComponent {
            color: Some(String::from_str("#ff0000")),
            content: Box::new(DisplayComponent::Text(TextComponent::new(text))),
            header: CardHeader {
                title: String::from_str("Error"),
                icon: None,
                block_id: None,
            },
        }
    }
}

/// A whole page of display content.
#[derive(Debug)]
pub struct DisplayObject {
    pub display: DisplayComponent,
}

impl DisplayObject {
    /// Wraps a component as a page.
    pub fn new(component: DisplayComponent) -> (r: DisplayObject)
        ensures
            r.display == component,
    {
        DisplayObject { display: component }
    }
}

/// The display a block type offers for creating a new block of its kind.
#[derive(Debug)]
pub struct CreationObject {
    pub component: DisplayComponent,
}

} // verus!
