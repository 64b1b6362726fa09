//! Styled messages, as the bot hands them to the chat platform.

use vstd::prelude::*;

verus! {

/// Colour of an embed that informs.
pub const ORANGE: u32 = 0xE67E22;

/// Colour of an embed that reports a failure.
pub const RED: u32 = 0xE74C3C;

/// One named entry of an embed.
#[derive(Clone, Debug, PartialEq, Eq)]
pub struct EmbedField {
    pub name: String,
    pub value: String,
    pub inline: bool,
}

/// An embed field as a mathematical value.
pub ghost struct EmbedFieldView {
    pub name: Seq<char>,
    pub value: Seq<char>,
    pub inline: bool,
}

impl View for EmbedField {
    type V = EmbedFieldView;

    open spec fn view(&self) -> EmbedFieldView {
        EmbedFieldView { name: self.name@, value: self.value@, inline: self.inline }
    }
}

impl DeepView for EmbedField {
    type V = EmbedFieldView;

    open spec fn deep_view(&self) -> EmbedFieldView {
        self@
    }
}

/// A styled message: what is set is sent, what is `None` is left out.
#[derive(Clone, Debug, PartialEq, Eq)]
pub struct Embed {
    pub title: String,
    pub description: Option<String>,
    pub colour: u32,
    pub thumbnail: Option<String>,
    pub fields: Vec<EmbedField>,
    pub footer_text: String,
    pub footer_icon: Option<String>,
}

/// An embed as a mathematical value.
pub ghost struct EmbedView {
    pub title: Seq<char>,
    pub description: Option<Seq<char>>,
    pub colour: u32,
    pub thumbnail: Option<Seq<char>>,
    pub fields: Seq<EmbedFieldView>,
    pub footer_text: Seq<char>,
    pub footer_icon: Option<Seq<char>>,
}

impl View for Embed {
    type V = EmbedView;

    open spec fn view(&self) -> EmbedView {
        EmbedView {
            title: self.title@,
            description: self.description.deep_view(),
            colour: self.colour,
            thumbnail: self.thumbnail.deep_view(),
            fields: self.fields.deep_view(),
            footer_text: self.footer_text@,
            footer_icon: self.footer_icon.deep_view(),
        }
    }
}

} // verus!
