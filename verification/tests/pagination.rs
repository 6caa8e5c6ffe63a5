use truth_or_dare_bot::commands::{list_custom_questions, list_questions};
use truth_or_dare_bot::embed::ButtonStyle;
use truth_or_dare_bot::menu_type::MenuType;
use truth_or_dare_bot::pagination::{count_pages, question_line, send_page, PageView, PAGE_SIZE};
use truth_or_dare_bot::questions::{Question, QuestionType};

fn catalog(items: usize) -> Vec<Question> {
    (0..items)
        .map(|i| Question {
            guild_id: if i % 2 == 0 { None } else { Some(77) },
            prompt: format!("prompt {i}"),
            question_type: if i % 3 == 0 { QuestionType::TRUTH } else { QuestionType::DARE },
            rating: if i % 5 == 0 { "PG-13".to_string() } else { "PG".to_string() },
            uid: format!("uid-{i}"),
        })
        .collect()
}

fn lines_of(view: &PageView) -> Vec<String> {
    match view {
        PageView::Page { lines, .. } => lines.clone(),
        PageView::Empty { .. } => panic!("the catalog is not empty"),
    }
}

#[test]
fn page_past_the_end_shows_the_first_page() {
    for scope in [MenuType::DEFAULT, MenuType::CUSTOM] {
        assert_eq!(send_page(4, catalog(23), scope), send_page(1, catalog(23), scope));
        assert_eq!(send_page(usize::MAX, catalog(23), scope), send_page(1, catalog(23), scope));
    }
}

#[test]
fn page_zero_shows_the_last_page() {
    for scope in [MenuType::DEFAULT, MenuType::CUSTOM] {
        assert_eq!(send_page(0, catalog(23), scope), send_page(3, catalog(23), scope));
    }
}

#[test]
fn pages_slice_the_catalog_in_tens() {
    let all = catalog(23);
    let expect = |from: usize, to: usize| -> Vec<String> {
        all[from..to].iter().map(|q| question_line(q, MenuType::DEFAULT)).collect()
    };
    let first = lines_of(&send_page(1, catalog(23), MenuType::DEFAULT));
    let second = lines_of(&send_page(2, catalog(23), MenuType::DEFAULT));
    let third = lines_of(&send_page(3, catalog(23), MenuType::DEFAULT));
    assert_eq!(first.len(), 10);
    assert_eq!(second.len(), 10);
    assert_eq!(third.len(), 3);
    assert_eq!(first, expect(0, 10));
    assert_eq!(second, expect(10, 20));
    assert_eq!(third, expect(20, 23));
    assert_eq!(third[0], "prompt 20 (DARE - PG-13)");
    assert_eq!(third[2], "prompt 22 (DARE - PG)");
}

#[test]
fn a_full_last_page_has_ten_lines() {
    let second = lines_of(&send_page(2, catalog(20), MenuType::CUSTOM));
    assert_eq!(second.len(), 10);
    assert_eq!(second[9], "prompt 19 (DARE - PG) UID: uid-19");
    assert_eq!(send_page(3, catalog(20), MenuType::CUSTOM), send_page(1, catalog(20), MenuType::CUSTOM));
}

#[test]
fn empty_catalog_shows_the_note_whatever_the_page() {
    for page in [0, 1, 2, 10, usize::MAX] {
        for scope in [MenuType::DEFAULT, MenuType::CUSTOM] {
            assert_eq!(
                send_page(page, Vec::new(), scope),
                PageView::Empty { message: "No questions found...".to_string() }
            );
        }
    }
}

#[test]
fn default_scope_never_shows_an_identity() {
    for page in 1..=3 {
        for line in lines_of(&send_page(page, catalog(23), MenuType::DEFAULT)) {
            assert!(!line.contains("UID:"), "{line}");
        }
    }
}

#[test]
fn custom_scope_shows_the_identity_on_every_line() {
    for page in 1..=3 {
        let lines = lines_of(&send_page(page, catalog(23), MenuType::CUSTOM));
        for (i, line) in lines.iter().enumerate() {
            let at = (page - 1) * 10 + i;
            assert!(line.contains("UID:"), "{line}");
            assert!(line.ends_with(&format!(" UID: uid-{at}")), "{line}");
        }
    }
}

#[test]
fn a_prompt_that_spells_the_marker_shows_it_in_the_default_scope() {
    let odd = Question::new(
        1,
        "What is your UID: ?".to_string(),
        QuestionType::TRUTH,
        "PG".to_string(),
        "secret".to_string(),
    );
    let line = question_line(&odd, MenuType::DEFAULT);
    assert_eq!(line, "What is your UID: ? (TRUTH - PG)");
    assert!(!line.contains("secret"));
}

#[test]
fn line_format() {
    let question = Question::new(
        3,
        "Tell a secret".to_string(),
        QuestionType::TRUTH,
        "PG-13".to_string(),
        "9f8e".to_string(),
    );
    assert_eq!(question_line(&question, MenuType::DEFAULT), "Tell a secret (TRUTH - PG-13)");
    assert_eq!(
        question_line(&question, MenuType::CUSTOM),
        "Tell a secret (TRUTH - PG-13) UID: 9f8e"
    );
    let none = Question::new(3, "".to_string(), QuestionType::NONE, "".to_string(), "".to_string());
    assert_eq!(question_line(&none, MenuType::DEFAULT), " (NONE - )");
    assert_eq!(question_line(&none, MenuType::CUSTOM), " (NONE - ) UID: ");
}

#[test]
fn page_view_fields() {
    match send_page(2, catalog(23), MenuType::CUSTOM) {
        PageView::Page { title, lines, footer, previous, next } => {
            assert_eq!(title, "Page 2/3");
            assert_eq!(lines.len(), 10);
            assert_eq!(footer, "List of Questions");
            assert_eq!(previous.id, "previous_page-1:CUSTOM");
            assert_eq!(previous.label, "Previous Page");
            assert_eq!(previous.style, ButtonStyle::Secondary);
            assert_eq!(next.id, "next_page-2:CUSTOM");
            assert_eq!(next.label, "Next Page");
            assert_eq!(next.style, ButtonStyle::Secondary);
        }
        PageView::Empty { .. } => panic!("the catalog is not empty"),
    }
}

#[test]
fn first_page_controls() {
    match send_page(1, catalog(5), MenuType::DEFAULT) {
        PageView::Page { title, lines, previous, next, .. } => {
            assert_eq!(title, "Page 1/1");
            assert_eq!(lines.len(), 5);
            assert_eq!(previous.id, "previous_page-0:DEFAULT");
            assert_eq!(next.id, "next_page-1:DEFAULT");
        }
        PageView::Empty { .. } => panic!("the catalog is not empty"),
    }
}

#[test]
fn page_counts() {
    assert_eq!(PAGE_SIZE, 10);
    assert_eq!(count_pages(0), 0);
    assert_eq!(count_pages(1), 1);
    assert_eq!(count_pages(9), 1);
    assert_eq!(count_pages(10), 1);
    assert_eq!(count_pages(11), 2);
    assert_eq!(count_pages(20), 2);
    assert_eq!(count_pages(23), 3);
    assert_eq!(count_pages(usize::MAX), usize::MAX / 10 + 1);
}

#[test]
fn title_with_many_pages() {
    match send_page(101, catalog(1234), MenuType::DEFAULT) {
        PageView::Page { title, lines, .. } => {
            assert_eq!(title, "Page 101/124");
            assert_eq!(lines[0], "prompt 1000 (DARE - PG-13)");
        }
        PageView::Empty { .. } => panic!("the catalog is not empty"),
    }
    match send_page(124, catalog(1234), MenuType::DEFAULT) {
        PageView::Page { title, lines, .. } => {
            assert_eq!(title, "Page 124/124");
            assert_eq!(lines.len(), 4);
        }
        PageView::Empty { .. } => panic!("the catalog is not empty"),
    }
}

#[test]
fn listing_starts_at_the_first_page() {
    assert_eq!(list_questions(catalog(23)), send_page(1, catalog(23), MenuType::DEFAULT));
    assert_eq!(list_custom_questions(catalog(23)), send_page(1, catalog(23), MenuType::CUSTOM));
    assert_eq!(
        list_questions(Vec::new()),
        PageView::Empty { message: "No questions found...".to_string() }
    );
}

#[test]
fn description_sets_the_lines_one_under_the_other() {
    assert_eq!(
        send_page(1, catalog(3), MenuType::DEFAULT).description(),
        "prompt 0 (TRUTH - PG-13)\nprompt 1 (DARE - PG)\nprompt 2 (DARE - PG)"
    );
    assert_eq!(
        send_page(3, catalog(21), MenuType::CUSTOM).description(),
        "prompt 20 (DARE - PG-13) UID: uid-20"
    );
    assert_eq!(send_page(1, Vec::new(), MenuType::CUSTOM).description(), "No questions found...");
}
