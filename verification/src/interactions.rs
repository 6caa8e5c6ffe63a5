//! Routing of what comes in: chat messages, button presses and command
//! names. Each function here says which handler an input belongs to, or
//! what a handler is to show; none of them talks to the platform.

use vstd::prelude::*;
use crate::cursor::{
    cursor_text, decode_cursor, lemma_cursor_round_trip, parse_cursor, CursorError, Direction,
};
use crate::embed::{
    dare_button_model, next_button_model, previous_button_model, truth_button_model,
};
use crate::menu_type::{menu_tag, MenuType};
use crate::pagination::{normalized_page, render, total_pages, PageModel};
use crate::questions::{Question, QuestionType};
use crate::text::{
    chars_of, contains_text, decimal, has_text, is_digit, lemma_decimal, occurs_at, same_text,
};
use crate::unicode::{trim, trimmed};

verus! {

/// The handler that a button press belongs to.
#[derive(Clone, Copy, Debug, PartialEq, Eq, Structural)]
pub enum ComponentRoute {
    /// One of the two buttons under a prompt.
    TruthOrDare,
    /// The control that leads one page on.
    NextPage,
    /// The control that leads one page back.
    PreviousPage,
    /// Nothing this bot has sent.
    Unknown,
}

/// The handler that a command belongs to.
#[derive(Clone, Copy, Debug, PartialEq, Eq, Structural)]
pub enum CommandRoute {
    SetRating,
    AddQuestion,
    ListQuestions,
    ListCustomQuestions,
    SetQuestionPermissions,
    RemoveQuestion,
    /// A command that no handler is bound to: it gets no response.
    Unbound,
}

/// The page that a press on a page control asks for.
#[derive(Clone, Copy, Debug, PartialEq, Eq, Structural)]
pub struct PageRequest {
    pub page_number: usize,
    pub menu_type: MenuType,
}

/// The kind of prompt that a chat message asks for, given the message
/// without the whitespace around it.
pub open spec fn trigger_kind(content: Seq<char>) -> Option<QuestionType> {
    if content == "!truth"@ {
        Some(QuestionType::TRUTH)
    } else if content == "!dare"@ {
        Some(QuestionType::DARE)
    } else {
        None
    }
}

/// The kind of prompt that a button under a prompt asks for.
pub open spec fn action_kind(action: Seq<char>) -> QuestionType {
    if action == "truth"@ {
        QuestionType::TRUTH
    } else if action == "dare"@ {
        QuestionType::DARE
    } else {
        QuestionType::NONE
    }
}

/// The handler for the button that reports `custom_id`. The page controls
/// are known by the direction word and its dash anywhere in the
/// identifier; where both words occur, the identifier counts as a step on.
pub open spec fn component_route(custom_id: Seq<char>) -> ComponentRoute {
    if custom_id == "truth"@ || custom_id == "dare"@ {
        ComponentRoute::TruthOrDare
    } else if has_text(custom_id, "next_page-"@) {
        ComponentRoute::NextPage
    } else if has_text(custom_id, "previous_page-"@) {
        ComponentRoute::PreviousPage
    } else {
        ComponentRoute::Unknown
    }
}

/// The handler for the command called `name`.
pub open spec fn command_route(name: Seq<char>) -> CommandRoute {
    if name == "set_rating"@ {
        CommandRoute::SetRating
    } else if name == "add_question"@ {
        CommandRoute::AddQuestion
    } else if name == "list_questions"@ {
        CommandRoute::ListQuestions
    } else if name == "list_custom_questions"@ {
        CommandRoute::ListCustomQuestions
    } else if name == "set_question_permissions"@ {
        CommandRoute::SetQuestionPermissions
    } else if name == "remove_question"@ {
        CommandRoute::RemoveQuestion
    } else {
        CommandRoute::Unbound
    }
}

/// The page that a step on from the control `interaction` leads to: the
/// page after the number in the cursor. From the largest number there is
/// no step on; the request stays there, which is past the end of every
/// catalog just as the next number would be.
pub open spec fn next_request(interaction: Seq<char>) -> Result<PageRequest, CursorError> {
    match parse_cursor(interaction) {
        Ok((page, menu_type)) => Ok(
            PageRequest {
                page_number: if page < usize::MAX {
                    (page + 1) as usize
                } else {
                    page
                },
                menu_type,
            },
        ),
        Err(error) => Err(error),
    }
}

/// The page that a step back from the control `interaction` leads to: the
/// very number in the cursor, which was written one below the page shown.
pub open spec fn previous_request(interaction: Seq<char>) -> Result<PageRequest, CursorError> {
    match parse_cursor(interaction) {
        Ok((page, menu_type)) => Ok(PageRequest { page_number: page, menu_type }),
        Err(error) => Err(error),
    }
}

/// The kind of prompt that a trimmed chat message asks for, if any.
pub fn trigger_of(content: &str) -> (kind: Option<QuestionType>)
    ensures
        kind == trigger_kind(content@),
{
    if same_text(content, "!truth") {
        Some(QuestionType::TRUTH)
    } else if same_text(content, "!dare") {
        Some(QuestionType::DARE)
    } else {
        None
    }
}

/// The kind of prompt that a chat message asks for, if any: `!truth` or
/// `!dare`, whatever whitespace stands around it. Any other message is
/// not for the bot.
pub fn message_trigger(content: &str) -> (kind: Option<QuestionType>)
    ensures
        kind == trigger_kind(trimmed(content@)),
{
    trigger_of(trim(content))
}

/// The kind of prompt that the button `action` asks for.
pub fn truth_or_dare(action: &str) -> (kind: QuestionType)
    ensures
        kind == action_kind(action@),
{
    if same_text(action, "truth") {
        QuestionType::TRUTH
    } else if same_text(action, "dare") {
        QuestionType::DARE
    } else {
        QuestionType::NONE
    }
}

/// Routes a button press by the identifier it reports.
pub fn route_component(custom_id: &str) -> (route: ComponentRoute)
    ensures
        route == component_route(custom_id@),
{
    if same_text(custom_id, "truth") || same_text(custom_id, "dare") {
        return ComponentRoute::TruthOrDare;
    }
    let id = chars_of(custom_id);
    if contains_text(&id, &chars_of("next_page-")) {
        ComponentRoute::NextPage
    } else if contains_text(&id, &chars_of("previous_page-")) {
        ComponentRoute::PreviousPage
    } else {
        ComponentRoute::Unknown
    }
}

/// Routes a command by its name.
pub fn route_command(name: &str) -> (route: CommandRoute)
    ensures
        route == command_route(name@),
{
    if same_text(name, "set_rating") {
        CommandRoute::SetRating
    } else if same_text(name, "add_question") {
        CommandRoute::AddQuestion
    } else if same_text(name, "list_questions") {
        CommandRoute::ListQuestions
    } else if same_text(name, "list_custom_questions") {
        CommandRoute::ListCustomQuestions
    } else if same_text(name, "set_question_permissions") {
        CommandRoute::SetQuestionPermissions
    } else if same_text(name, "remove_question") {
        CommandRoute::RemoveQuestion
    } else {
        CommandRoute::Unbound
    }
}

/// What a press on an identifier of neither kind is answered with.
pub fn unknown_component_reply() -> (reply: &'static str)
    ensures
        reply@ == "Uh, you shouldn't have seen this..."@,
{
    "Uh, you shouldn't have seen this..."
}

/// Reads the control `interaction` as a step on.
pub fn next_page(interaction: &str) -> (request: Result<PageRequest, CursorError>)
    ensures
        request == next_request(interaction@),
{
    match decode_cursor(interaction) {
        Ok((page, menu_type)) => {
            let page_number = if page < usize::MAX {
                page + 1
            } else {
                page
            };
            Ok(PageRequest { page_number, menu_type })
        },
        Err(error) => Err(error),
    }
}

/// Reads the control `interaction` as a step back.
pub fn previous_page(interaction: &str) -> (request: Result<PageRequest, CursorError>)
    ensures
        request == previous_request(interaction@),
{
    match decode_cursor(interaction) {
        Ok((page, menu_type)) => Ok(PageRequest { page_number: page, menu_type }),
        Err(error) => Err(error),
    }
}

/// The controls under a page lead to its neighbours: read as a step on,
/// the cursor of the next control asks for the page after the one shown;
/// read as a step back, the cursor of the previous control asks for the
/// page before it. Past either end the request wraps around when it is
/// rendered.
pub proof fn lemma_controls_lead_to_neighbours(
    page: int,
    catalog: Seq<Question>,
    scope: MenuType,
)
    requires
        0 < catalog.len() <= usize::MAX,
    ensures
        ({
            let shown = normalized_page(page, total_pages(catalog.len()));
            &&& render(page, catalog, scope) matches PageModel::Page { previous, next, .. }
            &&& next_request(next.id) == Ok::<PageRequest, CursorError>(
                PageRequest { page_number: (shown + 1) as usize, menu_type: scope },
            )
            &&& previous_request(previous.id) == Ok::<PageRequest, CursorError>(
                PageRequest { page_number: (shown - 1) as usize, menu_type: scope },
            )
        }),
{
    let shown = normalized_page(page, total_pages(catalog.len()));
    lemma_cursor_round_trip(Direction::Next, shown as usize, scope);
    lemma_cursor_round_trip(Direction::Previous, (shown - 1) as usize, scope);
}

/// A step on from the largest number a cursor can carry is shown like a
/// step to the number after it: both lie past the end of the catalog and
/// lead to the first page.
pub proof fn lemma_far_step_wraps(catalog: Seq<Question>, scope: MenuType)
    requires
        catalog.len() <= usize::MAX,
    ensures
        render(usize::MAX as int, catalog, scope) == render(usize::MAX + 1, catalog, scope),
{
}

/// Every button that the bot sends finds its handler: the two buttons
/// under a prompt, and each page control by its direction, whatever page
/// and scope its cursor carries.
pub proof fn lemma_buttons_find_their_handlers(page: nat, scope: MenuType)
    ensures
        component_route(truth_button_model().id) == ComponentRoute::TruthOrDare,
        component_route(dare_button_model().id) == ComponentRoute::TruthOrDare,
        component_route(next_button_model(page, scope).id) == ComponentRoute::NextPage,
        component_route(previous_button_model(page, scope).id) == ComponentRoute::PreviousPage,
{
    reveal_strlit("truth");
    reveal_strlit("dare");
    reveal_strlit("next_page");
    reveal_strlit("previous_page");
    reveal_strlit("next_page-");
    reveal_strlit("previous_page-");
    reveal_strlit("CUSTOM");
    reveal_strlit("DEFAULT");
    lemma_decimal(page);
    let numeral = decimal(page);
    let tag = menu_tag(scope);

    let on = cursor_text(Direction::Next, page, scope);
    assert(on =~= "next_page"@ + seq!['-'] + numeral + seq![':'] + tag);
    assert(on.len() >= 10);
    assert(on[0] != 't' && on[0] != 'd');
    assert(on.subrange(0, 10) =~= "next_page-"@);
    assert(occurs_at(on, "next_page-"@, 0));

    let back = cursor_text(Direction::Previous, page, scope);
    assert(back =~= "previous_page"@ + seq!['-'] + numeral + seq![':'] + tag);
    assert(back.len() >= 14);
    assert(back[0] != 't' && back[0] != 'd');
    assert(back.subrange(0, 14) =~= "previous_page-"@);
    assert(occurs_at(back, "previous_page-"@, 0));
    assert forall|at: int| !occurs_at(back, "next_page-"@, at) by {
        if occurs_at(back, "next_page-"@, at) {
            assert(back[at] == back.subrange(at, at + 10)[0]);
            assert(back[at] == 'n');
            if at < 13 {
                assert(back[at] == "previous_page"@[at]);
            } else if at == 13 {
            } else if at < 14 + numeral.len() {
                assert(back[at] == numeral[at - 14]);
                assert(is_digit(numeral[at - 14]));
            } else if at == 14 + numeral.len() {
            } else {
                assert(back[at] == tag[at - 15 - numeral.len()]);
            }
        }
    }
}

} // verus!
