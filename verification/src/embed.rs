//! What the bot shows: buttons and the card that carries one prompt. These
//! are plain descriptions; turning them into the chat platform's own
//! messages is left to the caller.

use vstd::prelude::*;
use crate::cursor::{cursor_text, encode_cursor, Direction};
use crate::menu_type::MenuType;
use crate::questions::{Question, QuestionType};

verus! {

/// How a button is drawn.
#[derive(Clone, Copy, Debug, PartialEq, Eq, Structural)]
pub enum ButtonStyle {
    Primary,
    Secondary,
    Danger,
}

/// A button: the identifier it reports when pressed, its caption and style.
#[derive(Clone, Debug, PartialEq, Eq)]
pub struct Button {
    pub id: String,
    pub label: String,
    pub style: ButtonStyle,
}

/// A button by its texts.
pub struct ButtonModel {
    pub id: Seq<char>,
    pub label: Seq<char>,
    pub style: ButtonStyle,
}

impl View for Button {
    type V = ButtonModel;

    open spec fn view(&self) -> ButtonModel {
        ButtonModel { id: self.id@, label: self.label@, style: self.style }
    }
}

/// The card that shows one prompt.
#[derive(Clone, Debug, PartialEq, Eq)]
pub struct Embed {
    pub title: String,
    pub description: String,
    pub footer: String,
}

/// A card by its texts.
pub struct EmbedModel {
    pub title: Seq<char>,
    pub description: Seq<char>,
    pub footer: Seq<char>,
}

impl View for Embed {
    type V = EmbedModel;

    open spec fn view(&self) -> EmbedModel {
        EmbedModel { title: self.title@, description: self.description@, footer: self.footer@ }
    }
}

/// The button that asks for a truth.
pub open spec fn truth_button_model() -> ButtonModel {
    ButtonModel { id: "truth"@, label: "Truth"@, style: ButtonStyle::Primary }
}

/// The button that asks for a dare.
pub open spec fn dare_button_model() -> ButtonModel {
    ButtonModel { id: "dare"@, label: "Dare"@, style: ButtonStyle::Danger }
}

/// The control under page `page` that leads one page back. It carries the
/// number below the page shown: the reader of the cursor shows the page
/// after the number it finds for a step forward, and the number itself for
/// a step back.
pub open spec fn previous_button_model(page: nat, scope: MenuType) -> ButtonModel {
    ButtonModel {
        id: cursor_text(Direction::Previous, page, scope),
        label: "Previous Page"@,
        style: ButtonStyle::Secondary,
    }
}

/// The control that leads one page on from page `page`.
pub open spec fn next_button_model(page: nat, scope: MenuType) -> ButtonModel {
    ButtonModel {
        id: cursor_text(Direction::Next, page, scope),
        label: "Next Page"@,
        style: ButtonStyle::Secondary,
    }
}

/// The title over a prompt of the kind that was asked for: `Truth` for a
/// truth, `Dare` for anything else.
pub open spec fn embed_title(asked: QuestionType) -> Seq<char> {
    if asked == QuestionType::TRUTH {
        "Truth"@
    } else {
        "Dare"@
    }
}

/// The line under a prompt: its rating and its identity.
pub open spec fn embed_footer(question: Question) -> Seq<char> {
    "Rating: "@ + question.rating@ + " | UID: "@ + question.uid@
}

/// The card for `question`, asked for as `asked`.
pub open spec fn embed_model(asked: QuestionType, question: Question) -> EmbedModel {
    EmbedModel {
        title: embed_title(asked),
        description: question.prompt@,
        footer: embed_footer(question),
    }
}

fn make_button(id: String, label: &str, style: ButtonStyle) -> (button: Button)
    ensures
        button@ == (ButtonModel { id: id@, label: label@, style }),
{
    Button { id, label: label.to_owned(), style }
}

/// The button that asks for a truth.
pub fn truth_button() -> (button: Button)
    ensures
        button@ == truth_button_model(),
{
    make_button("truth".to_owned(), "Truth", ButtonStyle::Primary)
}

/// The button that asks for a dare.
pub fn dare_button() -> (button: Button)
    ensures
        button@ == dare_button_model(),
{
    make_button("dare".to_owned(), "Dare", ButtonStyle::Danger)
}

/// The control that leads back; `page_number` is what its cursor carries.
pub fn previous_page_button(page_number: usize, menu_type: MenuType) -> (button: Button)
    ensures
        button@ == previous_button_model(page_number as nat, menu_type),
{
    make_button(
        encode_cursor(Direction::Previous, page_number, menu_type),
        "Previous Page",
        ButtonStyle::Secondary,
    )
}

/// The control that leads on; `page_number` is what its cursor carries.
pub fn next_page_button(page_number: usize, menu_type: MenuType) -> (button: Button)
    ensures
        button@ == next_button_model(page_number as nat, menu_type),
{
    make_button(
        encode_cursor(Direction::Next, page_number, menu_type),
        "Next Page",
        ButtonStyle::Secondary,
    )
}

/// The card that shows `question` to someone who asked for a prompt of the
/// kind `asked`.
pub fn embed_text(asked: QuestionType, question: &Question) -> (embed: Embed)
    ensures
        embed@ == embed_model(asked, *question),
{
    let title = match asked {
        QuestionType::TRUTH => "Truth",
        _ => "Dare",
    };
    let mut footer = "Rating: ".to_owned();
    footer.append(question.rating.as_str());
    footer.append(" | UID: ");
    footer.append(question.uid.as_str());
    Embed { title: title.to_owned(), description: question.prompt.clone(), footer }
}

} // verus!
