//! The cursor codec: the identifier that a page control carries, written as
//! `<direction>-<page>:<scope>`, and its reading back.

use vstd::prelude::*;
use crate::menu_type::{menu_tag, MenuToStr, MenuType};
use crate::text::{
    append_decimal, chars_of, decimal, digit_run, digits_end, digits_number, digits_value,
    find_char, first_index, is_digit, lemma_decimal, lemma_digit_run, lemma_digit_run_digits,
    lemma_first_index, tail_is,
};

verus! {

/// The way a page control moves.
#[derive(Clone, Copy, Debug, PartialEq, Eq, Structural)]
pub enum Direction {
    Next,
    Previous,
}

/// Why an identifier is no cursor.
#[derive(Clone, Copy, Debug, PartialEq, Eq, Structural)]
pub enum CursorError {
    /// The identifier holds no `-`.
    MissingDash,
    /// No digit follows the first `-`.
    EmptyPage,
    /// The digits after the first `-` denote a number too large for a page.
    PageOverflow,
    /// What follows the `:` is neither `DEFAULT` nor `CUSTOM`, or there is
    /// no `:` after the first `-`.
    UnknownScope,
}

/// The word a direction is written as.
pub open spec fn direction_tag(direction: Direction) -> Seq<char> {
    match direction {
        Direction::Next => "next_page"@,
        Direction::Previous => "previous_page"@,
    }
}

/// The scope that a tag stands for.
pub open spec fn scope_of_tag(tag: Seq<char>) -> Option<MenuType> {
    if tag == "CUSTOM"@ {
        Some(MenuType::CUSTOM)
    } else if tag == "DEFAULT"@ {
        Some(MenuType::DEFAULT)
    } else {
        None
    }
}

/// The identifier of the control that moves in `direction` and carries
/// `page` and `scope`.
pub open spec fn cursor_text(direction: Direction, page: nat, scope: MenuType) -> Seq<char> {
    direction_tag(direction) + seq!['-'] + decimal(page) + seq![':'] + menu_tag(scope)
}

/// What an identifier decodes to. The page is the run of digits right after
/// the first `-`; the scope is named by everything after the first `:` that
/// follows that `-`.
pub open spec fn parse_cursor(identifier: Seq<char>) -> Result<(usize, MenuType), CursorError> {
    let dash = first_index(identifier, '-') as int;
    let rest = identifier.skip(dash + 1);
    let digits = rest.take(digit_run(rest) as int);
    let colon = first_index(rest, ':') as int;
    if dash >= identifier.len() {
        Err(CursorError::MissingDash)
    } else if digits.len() == 0 {
        Err(CursorError::EmptyPage)
    } else if digits_value(digits) > usize::MAX {
        Err(CursorError::PageOverflow)
    } else if colon >= rest.len() {
        Err(CursorError::UnknownScope)
    } else {
        match scope_of_tag(rest.skip(colon + 1)) {
            Some(scope) => Ok((digits_value(digits) as usize, scope)),
            None => Err(CursorError::UnknownScope),
        }
    }
}

impl Direction {
    /// The word this direction is written as.
    pub fn as_str(self) -> (tag: &'static str)
        ensures
            tag@ == direction_tag(self),
    {
        match self {
            Direction::Next => "next_page",
            Direction::Previous => "previous_page",
        }
    }
}

/// Writes the identifier of a page control.
pub fn encode_cursor(direction: Direction, page: usize, scope: MenuType) -> (identifier: String)
    ensures
        identifier@ == cursor_text(direction, page as nat, scope),
{
    let mut identifier = direction.as_str().to_owned();
    identifier.append("-");
    append_decimal(&mut identifier, page);
    identifier.append(":");
    identifier.append(scope.to_str());
    proof {
        reveal_strlit("-");
        reveal_strlit(":");
    }
    identifier
}

/// Reads an identifier back. It fails on anything that `encode_cursor`
/// cannot have written far enough to tell page and scope.
pub fn decode_cursor(identifier: &str) -> (decoded: Result<(usize, MenuType), CursorError>)
    ensures
        decoded == parse_cursor(identifier@),
{
    let chars = chars_of(identifier);
    let dash = find_char(&chars, 0, '-');
    assert(chars@.skip(0) =~= chars@);
    if dash >= chars.len() {
        return Err(CursorError::MissingDash);
    }
    let start = dash + 1;
    let ghost rest = chars@.skip(start as int);
    let end = digits_end(&chars, start);
    assert(rest.take(end - start) =~= chars@.subrange(start as int, end as int));
    if end == start {
        return Err(CursorError::EmptyPage);
    }
    proof {
        lemma_digit_run_digits(rest);
        assert forall|j: int| start <= j < end implies is_digit(chars@[j]) by {
            assert(chars@[j] == rest[j - start]);
        }
    }
    let page = match digits_number(&chars, start, end) {
        Some(page) => page,
        None => {
            return Err(CursorError::PageOverflow);
        },
    };
    let colon = find_char(&chars, start, ':');
    if colon >= chars.len() {
        return Err(CursorError::UnknownScope);
    }
    assert(rest.skip(colon - start + 1) =~= chars@.skip(colon + 1));
    if tail_is(&chars, colon + 1, "CUSTOM") {
        Ok((page, MenuType::CUSTOM))
    } else if tail_is(&chars, colon + 1, "DEFAULT") {
        Ok((page, MenuType::DEFAULT))
    } else {
        Err(CursorError::UnknownScope)
    }
}

/// Decoding is the inverse of encoding: whatever direction, page and scope
/// a control was written with, reading its identifier gives back that page
/// and that scope.
pub proof fn lemma_cursor_round_trip(direction: Direction, page: usize, scope: MenuType)
    ensures
        parse_cursor(cursor_text(direction, page as nat, scope)) == Ok::<
            (usize, MenuType),
            CursorError,
        >((page, scope)),
{
    let word = direction_tag(direction);
    let numeral = decimal(page as nat);
    let tag = menu_tag(scope);
    let identifier = cursor_text(direction, page as nat, scope);
    reveal_strlit("next_page");
    reveal_strlit("previous_page");
    reveal_strlit("CUSTOM");
    reveal_strlit("DEFAULT");
    lemma_decimal(page as nat);

    assert forall|j: int| 0 <= j < word.len() implies identifier[j] != '-' by {
        assert(identifier[j] == word[j]);
    }
    assert(identifier[word.len() as int] == '-');
    lemma_first_index(identifier, '-', word.len() as int);

    let rest = identifier.skip(word.len() as int + 1);
    assert(rest =~= numeral + seq![':'] + tag);
    assert forall|j: int| 0 <= j < numeral.len() implies is_digit(rest[j]) && rest[j] != ':' by {
        assert(rest[j] == numeral[j]);
    }
    assert(rest[numeral.len() as int] == ':');
    lemma_digit_run(rest, numeral.len() as int);
    lemma_first_index(rest, ':', numeral.len() as int);
    assert(rest.take(numeral.len() as int) =~= numeral);
    assert(rest.skip(numeral.len() as int + 1) =~= tag);
}

} // verus!
