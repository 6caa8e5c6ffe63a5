//! The scope a catalog page is drawn from, and its wire tag.

use vstd::prelude::*;

verus! {

/// Which catalog a page shows: the community's own prompts only, or the
/// global prompts together with the community's.
#[derive(Clone, Copy, Debug, PartialEq, Eq, Structural)]
pub enum MenuType {
    CUSTOM,
    DEFAULT,
}

/// The tag a scope carries inside a cursor.
pub open spec fn menu_tag(menu_type: MenuType) -> Seq<char> {
    match menu_type {
        MenuType::CUSTOM => "CUSTOM"@,
        MenuType::DEFAULT => "DEFAULT"@,
    }
}

/// Conversion of a scope into its tag.
pub trait MenuToStr {
    spec fn tag(self) -> Seq<char>;

    fn to_str<'a>(self) -> (tag: &'a str)
        ensures
            tag@ == self.tag(),
    ;
}

impl MenuToStr for MenuType {
    open spec fn tag(self) -> Seq<char> {
        menu_tag(self)
    }

    fn to_str<'a>(self) -> (tag: &'a str) {
        match self {
            MenuType::CUSTOM => "CUSTOM",
            MenuType::DEFAULT => "DEFAULT",
        }
    }
}

} // verus!
