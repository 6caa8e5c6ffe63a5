//! The settings of a community, with the defaults that hold where nothing
//! is on record.

use vstd::prelude::*;
use crate::rating::{policy_of_text, RatingPolicy};

verus! {

/// The settings of one community: its rating policy, as stored, and
/// whether only administrators may add prompts. `guild_id` is `None`
/// outside of any community.
#[derive(Clone, Debug, PartialEq, Eq)]
pub struct GuildSettings {
    pub guild_id: Option<i64>,
    pub rating: String,
    pub permissions: bool,
}

/// The stored rating, or `PG` where none is stored.
pub open spec fn rating_on_record(rating: Option<String>) -> Seq<char> {
    match rating {
        Some(text) => text@,
        None => "PG"@,
    }
}

/// Whether the stored flag restricts adding prompts to administrators:
/// only a stored `1` does.
pub open spec fn admin_on_record(admin: Option<i64>) -> bool {
    admin == Some(1i64)
}

impl GuildSettings {
    /// The settings that hold for a community given what the store has on
    /// it. A missing rating counts as `PG`, a missing flag as `false`: the
    /// absence of a record is never a failure.
    pub fn on_record(
        guild_id: Option<i64>,
        rating: Option<String>,
        admin: Option<i64>,
    ) -> (settings: GuildSettings)
        ensures
            settings.guild_id == guild_id,
            settings.rating@ == rating_on_record(rating),
            settings.permissions == admin_on_record(admin),
    {
        let rating = match rating {
            Some(text) => text,
            None => "PG".to_owned(),
        };
        let permissions = match admin {
            Some(flag) => flag == 1,
            None => false,
        };
        GuildSettings { guild_id, rating, permissions }
    }

    /// The rating policy that these settings stand for.
    pub fn policy(&self) -> (policy: RatingPolicy)
        ensures
            policy == policy_of_text(self.rating@),
    {
        RatingPolicy::from_text(self.rating.as_str())
    }
}

/// A community with nothing on record is served at `PG`, and anyone in it
/// may add prompts.
pub proof fn lemma_defaults()
    ensures
        policy_of_text(rating_on_record(None)) == RatingPolicy::PG,
        !admin_on_record(None),
{
    reveal_strlit("PG");
    reveal_strlit("ALL");
    reveal_strlit("PG-13");
    assert("PG"@.len() == 2 && "ALL"@.len() == 3 && "PG-13"@.len() == 5);
}

} // verus!
