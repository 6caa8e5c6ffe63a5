//! The pagination engine: which page of a catalog a request lands on, which
//! prompts that page lists, and the view that shows them.

use vstd::prelude::*;
use crate::embed::{
    next_button_model, next_page_button, previous_button_model, previous_page_button, Button,
    ButtonModel,
};
use crate::menu_type::MenuType;
use crate::questions::{kind_name, Question};
use crate::text::{append_decimal, decimal, has_text, occurs_at};

verus! {

/// How many prompts one page lists.
pub const PAGE_SIZE: usize = 10;

/// One page of a catalog, or the note that stands in for an empty catalog.
#[derive(Clone, Debug, PartialEq, Eq)]
pub enum PageView {
    /// The catalog holds nothing: a single message and no controls.
    Empty { message: String },
    /// A page: its title, one line for each prompt on it, in catalog order,
    /// a footer, and the two controls that lead to its neighbours.
    Page { title: String, lines: Vec<String>, footer: String, previous: Button, next: Button },
}

/// A page view by its texts: what `PageView` is in contracts.
pub enum PageModel {
    Empty { message: Seq<char> },
    Page {
        title: Seq<char>,
        lines: Seq<Seq<char>>,
        footer: Seq<char>,
        previous: ButtonModel,
        next: ButtonModel,
    },
}

/// The texts of a list of strings.
pub open spec fn texts(lines: Seq<String>) -> Seq<Seq<char>> {
    Seq::new(lines.len(), |i: int| lines[i]@)
}

impl View for PageView {
    type V = PageModel;

    open spec fn view(&self) -> PageModel {
        match self {
            PageView::Empty { message } => PageModel::Empty { message: message@ },
            PageView::Page { title, lines, footer, previous, next } => PageModel::Page {
                title: title@,
                lines: texts(lines@),
                footer: footer@,
                previous: previous@,
                next: next@,
            },
        }
    }
}

/// Lines set one under the other: joined by line feeds, none after the
/// last.
pub open spec fn joined(lines: Seq<Seq<char>>) -> Seq<char>
    decreases lines.len(),
{
    if lines.len() == 0 {
        Seq::<char>::empty()
    } else if lines.len() == 1 {
        lines[0]
    } else {
        joined(lines.drop_last()) + seq!['\n'] + lines.last()
    }
}

/// The body of a view: the note, or the lines of the page set one under
/// the other.
pub open spec fn description_text(view: PageModel) -> Seq<char> {
    match view {
        PageModel::Empty { message } => message,
        PageModel::Page { lines, .. } => joined(lines),
    }
}

/// The number of pages that `items` prompts fill: the quotient by the page
/// size, rounded up.
pub open spec fn total_pages(items: nat) -> nat {
    items / (PAGE_SIZE as nat) + if items % (PAGE_SIZE as nat) > 0 {
        1nat
    } else {
        0nat
    }
}

/// The page that a request for `page` lands on among `pages` pages: a
/// number past the end leads to the first page, a number before the first
/// page leads to the last.
pub open spec fn normalized_page(page: int, pages: nat) -> int {
    if page > pages {
        1
    } else if page < 1 {
        pages as int
    } else {
        page
    }
}

/// The catalog position of the first prompt on `page`.
pub open spec fn page_start(page: int) -> int {
    (page - 1) * PAGE_SIZE
}

/// The catalog position after the last prompt on `page`.
pub open spec fn page_end(page: int, items: nat) -> int {
    if page_start(page) + PAGE_SIZE <= items {
        page_start(page) + PAGE_SIZE
    } else {
        items as int
    }
}

/// The line that lists `question`. The identity is appended in the custom
/// scope only.
pub open spec fn line_text(question: Question, scope: MenuType) -> Seq<char> {
    let listed = question.prompt@ + " ("@ + kind_name(question.question_type) + " - "@
        + question.rating@ + ")"@;
    match scope {
        MenuType::CUSTOM => listed + " UID: "@ + question.uid@,
        MenuType::DEFAULT => listed,
    }
}

/// The lines of `page`: one for each catalog position from `page_start` up
/// to `page_end`, in that order.
pub open spec fn page_lines(page: int, catalog: Seq<Question>, scope: MenuType) -> Seq<Seq<char>> {
    Seq::new(
        (page_end(page, catalog.len()) - page_start(page)) as nat,
        |i: int| line_text(catalog[page_start(page) + i], scope),
    )
}

/// The title of `page` among `pages`.
pub open spec fn page_title(page: nat, pages: nat) -> Seq<char> {
    "Page "@ + decimal(page) + "/"@ + decimal(pages)
}

/// The view that a request for `page` of `catalog` gets.
pub open spec fn render(page: int, catalog: Seq<Question>, scope: MenuType) -> PageModel {
    if catalog.len() == 0 {
        PageModel::Empty { message: "No questions found..."@ }
    } else {
        let pages = total_pages(catalog.len());
        let shown = normalized_page(page, pages);
        PageModel::Page {
            title: page_title(shown as nat, pages),
            lines: page_lines(shown, catalog, scope),
            footer: "List of Questions"@,
            previous: previous_button_model((shown - 1) as nat, scope),
            next: next_button_model(shown as nat, scope),
        }
    }
}

impl PageView {
    /// The body of this view as one text.
    pub fn description(&self) -> (text: String)
        ensures
            text@ == description_text(self@),
    {
        match self {
            PageView::Empty { message } => message.clone(),
            PageView::Page { lines, .. } => {
                let mut text = String::new();
                let mut at: usize = 0;
                while at < lines.len()
                    invariant
                        at <= lines.len(),
                        text@ == joined(texts(lines@).take(at as int)),
                    decreases lines.len() - at,
                {
                    proof {
                        reveal_strlit("\n");
                        let before = texts(lines@).take(at as int);
                        let after = texts(lines@).take(at + 1);
                        assert(after.drop_last() =~= before);
                    }
                    if at > 0 {
                        text.append("\n");
                    }
                    text.append(lines[at].as_str());
                    at += 1;
                }
                assert(texts(lines@).take(at as int) =~= texts(lines@));
                text
            },
        }
    }
}

/// The line that lists `question`.
pub fn question_line(question: &Question, menu_type: MenuType) -> (line: String)
    ensures
        line@ == line_text(*question, menu_type),
{
    let mut line = question.prompt.clone();
    line.append(" (");
    line.append(question.question_type.as_str());
    line.append(" - ");
    line.append(question.rating.as_str());
    line.append(")");
    match menu_type {
        MenuType::CUSTOM => {
            line.append(" UID: ");
            line.append(question.uid.as_str());
        },
        MenuType::DEFAULT => {},
    }
    line
}

/// The number of pages that a catalog of `items` prompts fills.
pub fn count_pages(items: usize) -> (pages: usize)
    ensures
        pages == total_pages(items as nat),
{
    items / PAGE_SIZE + if items % PAGE_SIZE > 0 {
        1
    } else {
        0
    }
}

/// Shows the page of `questions` that a request for `page_number` lands on.
/// An empty catalog gets the note, whatever the number.
pub fn send_page(
    page_number: usize,
    questions: Vec<Question>,
    menu_type: MenuType,
) -> (view: PageView)
    ensures
        view@ == render(page_number as int, questions@, menu_type),
{
    if questions.len() == 0 {
        return PageView::Empty { message: "No questions found...".to_owned() };
    }
    let pages = count_pages(questions.len());
    let shown = if page_number > pages {
        1
    } else if page_number < 1 {
        pages
    } else {
        page_number
    };
    let start = (shown - 1) * PAGE_SIZE;
    let end = if questions.len() - start >= PAGE_SIZE {
        start + PAGE_SIZE
    } else {
        questions.len()
    };
    let mut lines: Vec<String> = Vec::new();
    let mut at = start;
    while at < end
        invariant
            start <= at <= end <= questions.len(),
            lines.len() == at - start,
            forall|i: int|
                0 <= i < lines.len()
                    ==> (#[trigger] lines@[i])@ == line_text(questions@[start + i], menu_type),
        decreases end - at,
    {
        lines.push(question_line(&questions[at], menu_type));
        at += 1;
    }
    let mut title = "Page ".to_owned();
    append_decimal(&mut title, shown);
    title.append("/");
    append_decimal(&mut title, pages);
    let view = PageView::Page {
        title,
        lines,
        footer: "List of Questions".to_owned(),
        previous: previous_page_button(shown - 1, menu_type),
        next: next_page_button(shown, menu_type),
    };
    proof {
        assert(view@->Page_lines =~= page_lines(shown as int, questions@, menu_type));
    }
    view
}

/// An empty catalog gets the note and no controls, whatever page is asked
/// for and in whatever scope.
pub proof fn lemma_empty_catalog(page: int, scope: MenuType)
    ensures
        render(page, Seq::<Question>::empty(), scope) == (PageModel::Empty {
            message: "No questions found..."@,
        }),
{
}

/// The page shown always lies among the pages that exist, and a number
/// that lies among them is shown as it is.
pub proof fn lemma_normalized_page(page: int, items: nat)
    requires
        items > 0,
    ensures
        1 <= normalized_page(page, total_pages(items)) <= total_pages(items),
        1 <= page <= total_pages(items) ==> normalized_page(page, total_pages(items)) == page,
{
}

/// Wraparound: a request past the last page gets what a request for the
/// first page gets, and a request before the first page gets what a request
/// for the last page gets.
pub proof fn lemma_page_wraps(page: int, catalog: Seq<Question>, scope: MenuType)
    ensures
        page > total_pages(catalog.len())
            ==> render(page, catalog, scope) == render(1, catalog, scope),
        page < 1
            ==> render(page, catalog, scope)
                == render(total_pages(catalog.len()) as int, catalog, scope),
{
}

/// Slicing: every page but the last lists exactly ten prompts, the last
/// lists what is left, at least one, and line `i` of a page lists the
/// prompt at catalog position `(page - 1) * 10 + i`.
pub proof fn lemma_page_slice(page: int, catalog: Seq<Question>, scope: MenuType)
    requires
        1 <= page <= total_pages(catalog.len()),
    ensures
        page < total_pages(catalog.len()) ==> page_lines(page, catalog, scope).len() == 10,
        page == total_pages(catalog.len()) ==> page_lines(page, catalog, scope).len()
            == catalog.len() - 10 * (page - 1),
        1 <= page_lines(page, catalog, scope).len() <= 10,
        forall|i: int|
            0 <= i < page_lines(page, catalog, scope).len()
                ==> #[trigger] page_lines(page, catalog, scope)[i]
                    == line_text(catalog[(page - 1) * 10 + i], scope),
{
}

/// Every prompt of the catalog is listed: the one at position `k` stands
/// on page `k / 10 + 1`, in line `k % 10`.
pub proof fn lemma_item_is_listed(k: int, catalog: Seq<Question>, scope: MenuType)
    requires
        0 <= k < catalog.len(),
    ensures
        1 <= k / 10 + 1 <= total_pages(catalog.len()),
        k % 10 < page_lines(k / 10 + 1, catalog, scope).len(),
        page_lines(k / 10 + 1, catalog, scope)[k % 10] == line_text(catalog[k], scope),
{
}

/// In the custom scope every line shows the identity of its prompt,
/// introduced by `UID:`.
pub proof fn lemma_custom_line_shows_identity(question: Question)
    ensures
        has_text(line_text(question, MenuType::CUSTOM), "UID:"@),
        has_text(line_text(question, MenuType::CUSTOM), question.uid@),
{
    reveal_strlit("UID:");
    reveal_strlit(" UID: ");
    let line = line_text(question, MenuType::CUSTOM);
    let head = question.prompt@ + " ("@ + kind_name(question.question_type) + " - "@
        + question.rating@ + ")"@;
    let h = head.len() as int;
    assert(line =~= head + " UID: "@ + question.uid@);
    assert(line.subrange(h + 1, h + 5) =~= "UID:"@);
    assert(occurs_at(line, "UID:"@, h + 1));
    assert(line.subrange(h + 6, h + 6 + question.uid@.len()) =~= question.uid@);
    assert(occurs_at(line, question.uid@, h + 6));
}

/// In the default scope a line does not depend on the identity of its
/// prompt: two prompts that differ in nothing else get the same line.
pub proof fn lemma_default_line_ignores_identity(one: Question, other: Question)
    requires
        one.prompt@ == other.prompt@,
        one.question_type == other.question_type,
        one.rating@ == other.rating@,
    ensures
        line_text(one, MenuType::DEFAULT) == line_text(other, MenuType::DEFAULT),
{
}

/// In the default scope a line holds `UID:` only where the prompt brings
/// it along: exactly when the text or the rating of the prompt holds it.
pub proof fn lemma_default_line_hides_identity(question: Question)
    ensures
        has_text(line_text(question, MenuType::DEFAULT), "UID:"@)
            <==> has_text(question.prompt@, "UID:"@) || has_text(question.rating@, "UID:"@),
{
    reveal_strlit("UID:");
    reveal_strlit(" (");
    reveal_strlit(" - ");
    reveal_strlit(")");
    reveal_strlit("TRUTH");
    reveal_strlit("DARE");
    reveal_strlit("NONE");
    let mark = "UID:"@;
    let prompt = question.prompt@;
    let kind = kind_name(question.question_type);
    let rating = question.rating@;
    let line = line_text(question, MenuType::DEFAULT);
    let p = prompt.len() as int;
    let k = kind.len() as int;
    let r = rating.len() as int;
    assert(line =~= prompt + " ("@ + kind + " - "@ + rating + ")"@);
    if has_text(prompt, mark) {
        let at = choose|at: int| occurs_at(prompt, mark, at);
        assert(line.subrange(at, at + 4) =~= prompt.subrange(at, at + 4));
        assert(occurs_at(line, mark, at));
    } else if has_text(rating, mark) {
        let at = choose|at: int| occurs_at(rating, mark, at);
        assert(line.subrange(p + 5 + k + at, p + 5 + k + at + 4) =~= rating.subrange(at, at + 4));
        assert(occurs_at(line, mark, p + 5 + k + at));
    } else {
        assert forall|at: int| !occurs_at(line, mark, at) by {
            if occurs_at(line, mark, at) {
                let window = line.subrange(at, at + 4);
                assert forall|x: int| at <= x < at + 4 implies line[x] == 'U' || line[x] == 'I'
                    || line[x] == 'D' || line[x] == ':' by {
                    assert(line[x] == window[x - at]);
                }
                assert(line[at] == window[0]);
                assert(line[p] == ' ');
                assert(line[p + 1] == '(');
                assert(line[p + 2 + k] == ' ');
                assert(line[p + 3 + k] == '-');
                assert(line[p + 4 + k] == ' ');
                assert(line[p + 5 + k + r] == ')');
                if at + 4 <= p {
                    assert(prompt.subrange(at, at + 4) =~= window);
                    assert(occurs_at(prompt, mark, at));
                } else if at >= p + 5 + k {
                    assert(rating.subrange(at - (p + 5 + k), at - (p + 5 + k) + 4) =~= window);
                    assert(occurs_at(rating, mark, at - (p + 5 + k)));
                } else {
                    assert(p + 2 <= at && at + 4 <= p + 2 + k);
                    assert(line[at] == kind[at - (p + 2)]);
                }
            }
        }
    }
}

/// A view in the custom scope shows `UID:` in every line, whatever page
/// was asked for.
pub proof fn lemma_custom_view_shows_identities(page: int, catalog: Seq<Question>)
    ensures
        render(page, catalog, MenuType::CUSTOM) matches PageModel::Page { lines, .. }
            ==> forall|i: int| 0 <= i < lines.len() ==> has_text(#[trigger] lines[i], "UID:"@),
{
    if catalog.len() > 0 {
        let shown = normalized_page(page, total_pages(catalog.len()));
        let lines = page_lines(shown, catalog, MenuType::CUSTOM);
        assert forall|i: int| 0 <= i < lines.len() implies has_text(
            #[trigger] lines[i],
            "UID:"@,
        ) by {
            lemma_custom_line_shows_identity(catalog[page_start(shown) + i]);
        }
    }
}

/// A view in the default scope shows `UID:` in no line, whatever page was
/// asked for, unless a prompt on the page shown holds one in its own text
/// or rating.
pub proof fn lemma_default_view_hides_identities(page: int, catalog: Seq<Question>)
    requires
        ({
            let shown = normalized_page(page, total_pages(catalog.len()));
            forall|k: int|
                page_start(shown) <= k < page_end(shown, catalog.len())
                    ==> !has_text((#[trigger] catalog[k]).prompt@, "UID:"@)
                        && !has_text(catalog[k].rating@, "UID:"@)
        }),
    ensures
        render(page, catalog, MenuType::DEFAULT) matches PageModel::Page { lines, .. }
            ==> forall|i: int| 0 <= i < lines.len() ==> !has_text(#[trigger] lines[i], "UID:"@),
{
    if catalog.len() > 0 {
        let shown = normalized_page(page, total_pages(catalog.len()));
        let lines = page_lines(shown, catalog, MenuType::DEFAULT);
        assert forall|i: int| 0 <= i < lines.len() implies !has_text(
            #[trigger] lines[i],
            "UID:"@,
        ) by {
            let k = page_start(shown) + i;
            assert(!has_text(catalog[k].prompt@, "UID:"@));
            lemma_default_line_hides_identity(catalog[k]);
        }
    }
}

} // verus!
