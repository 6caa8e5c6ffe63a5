use truth_or_dare_bot::cursor::{decode_cursor, encode_cursor, CursorError, Direction};
use truth_or_dare_bot::embed::{next_page_button, previous_page_button};
use truth_or_dare_bot::interactions::{next_page, previous_page, PageRequest};
use truth_or_dare_bot::menu_type::{MenuToStr, MenuType};

#[test]
fn cursor_round_trip() {
    for direction in [Direction::Next, Direction::Previous] {
        for page in [0usize, 1, 42] {
            for scope in [MenuType::DEFAULT, MenuType::CUSTOM] {
                let identifier = encode_cursor(direction, page, scope);
                assert_eq!(decode_cursor(&identifier), Ok((page, scope)), "{identifier}");
            }
        }
    }
}

#[test]
fn cursor_round_trip_at_the_limits() {
    for page in [9usize, 10, 99, 100, 1_000_000, usize::MAX - 1, usize::MAX] {
        let identifier = encode_cursor(Direction::Next, page, MenuType::CUSTOM);
        assert_eq!(decode_cursor(&identifier), Ok((page, MenuType::CUSTOM)));
    }
}

#[test]
fn cursor_texts() {
    assert_eq!(encode_cursor(Direction::Next, 3, MenuType::CUSTOM), "next_page-3:CUSTOM");
    assert_eq!(encode_cursor(Direction::Previous, 0, MenuType::DEFAULT), "previous_page-0:DEFAULT");
    assert_eq!(encode_cursor(Direction::Previous, 42, MenuType::CUSTOM), "previous_page-42:CUSTOM");
    assert_eq!(Direction::Next.as_str(), "next_page");
    assert_eq!(Direction::Previous.as_str(), "previous_page");
    assert_eq!(MenuType::CUSTOM.to_str(), "CUSTOM");
    assert_eq!(MenuType::DEFAULT.to_str(), "DEFAULT");
}

#[test]
fn buttons_carry_the_cursor() {
    assert_eq!(previous_page_button(6, MenuType::DEFAULT).id, "previous_page-6:DEFAULT");
    assert_eq!(next_page_button(7, MenuType::CUSTOM).id, "next_page-7:CUSTOM");
}

#[test]
fn decode_reads_plain_identifiers() {
    assert_eq!(decode_cursor("next_page-12:DEFAULT"), Ok((12, MenuType::DEFAULT)));
    assert_eq!(decode_cursor("previous_page-0:CUSTOM"), Ok((0, MenuType::CUSTOM)));
    assert_eq!(decode_cursor("previous_page-007:CUSTOM"), Ok((7, MenuType::CUSTOM)));
    assert_eq!(decode_cursor("-5:DEFAULT"), Ok((5, MenuType::DEFAULT)));
    assert_eq!(decode_cursor("next_page-12abc:CUSTOM"), Ok((12, MenuType::CUSTOM)));
    assert_eq!(decode_cursor("a:b-3-4:DEFAULT"), Ok((3, MenuType::DEFAULT)));
    assert_eq!(
        decode_cursor("next_page-0000000000000000000000000000000000000042:CUSTOM"),
        Ok((42, MenuType::CUSTOM))
    );
}

#[test]
fn decode_without_a_dash_fails() {
    assert_eq!(decode_cursor(""), Err(CursorError::MissingDash));
    assert_eq!(decode_cursor("next_page"), Err(CursorError::MissingDash));
    assert_eq!(decode_cursor("next_page3:CUSTOM"), Err(CursorError::MissingDash));
}

#[test]
fn decode_without_digits_fails() {
    assert_eq!(decode_cursor("next_page-:CUSTOM"), Err(CursorError::EmptyPage));
    assert_eq!(decode_cursor("next_page-"), Err(CursorError::EmptyPage));
    assert_eq!(decode_cursor("next_page-x1:CUSTOM"), Err(CursorError::EmptyPage));
    assert_eq!(decode_cursor("next_page--1:CUSTOM"), Err(CursorError::EmptyPage));
    assert_eq!(decode_cursor("next_page-+1:CUSTOM"), Err(CursorError::EmptyPage));
    assert_eq!(decode_cursor("next_page-\u{0663}:CUSTOM"), Err(CursorError::EmptyPage));
}

#[test]
fn decode_of_a_page_too_large_fails() {
    let too_large = format!("next_page-{}0:CUSTOM", usize::MAX);
    assert_eq!(decode_cursor(&too_large), Err(CursorError::PageOverflow));
    let too_large = format!("next_page-{}:CUSTOM", usize::MAX as u128 + 1);
    assert_eq!(decode_cursor(&too_large), Err(CursorError::PageOverflow));
    assert_eq!(
        decode_cursor("previous_page-99999999999999999999999999999999999999:DEFAULT"),
        Err(CursorError::PageOverflow)
    );
}

#[test]
fn decode_with_an_unknown_scope_fails() {
    assert_eq!(decode_cursor("next_page-1:OTHER"), Err(CursorError::UnknownScope));
    assert_eq!(decode_cursor("next_page-1:custom"), Err(CursorError::UnknownScope));
    assert_eq!(decode_cursor("next_page-1:CUSTOM "), Err(CursorError::UnknownScope));
    assert_eq!(decode_cursor("next_page-1:"), Err(CursorError::UnknownScope));
    assert_eq!(decode_cursor("next_page-1"), Err(CursorError::UnknownScope));
    assert_eq!(decode_cursor("next_page-1CUSTOM"), Err(CursorError::UnknownScope));
    assert_eq!(decode_cursor("next_page-1::CUSTOM"), Err(CursorError::UnknownScope));
}

#[test]
fn next_shows_the_page_after_the_cursor() {
    assert_eq!(
        next_page("next_page-2:CUSTOM"),
        Ok(PageRequest { page_number: 3, menu_type: MenuType::CUSTOM })
    );
    assert_eq!(
        next_page("next_page-0:DEFAULT"),
        Ok(PageRequest { page_number: 1, menu_type: MenuType::DEFAULT })
    );
}

#[test]
fn previous_shows_the_page_in_the_cursor() {
    assert_eq!(
        previous_page("previous_page-2:CUSTOM"),
        Ok(PageRequest { page_number: 2, menu_type: MenuType::CUSTOM })
    );
    assert_eq!(
        previous_page("previous_page-0:DEFAULT"),
        Ok(PageRequest { page_number: 0, menu_type: MenuType::DEFAULT })
    );
}

#[test]
fn malformed_cursors_fail_the_step() {
    assert_eq!(next_page("next_page-:CUSTOM"), Err(CursorError::EmptyPage));
    assert_eq!(previous_page("previous_page-4:NOPE"), Err(CursorError::UnknownScope));
    assert_eq!(next_page("nothing"), Err(CursorError::MissingDash));
    let last = format!("next_page-{}:CUSTOM", usize::MAX);
    assert_eq!(
        next_page(&last),
        Ok(PageRequest { page_number: usize::MAX, menu_type: MenuType::CUSTOM })
    );
    let past = format!("next_page-{}0:CUSTOM", usize::MAX);
    assert_eq!(next_page(&past), Err(CursorError::PageOverflow));
    assert_eq!(
        previous_page(&last.replace("next", "previous")),
        Ok(PageRequest { page_number: usize::MAX, menu_type: MenuType::CUSTOM })
    );
}
