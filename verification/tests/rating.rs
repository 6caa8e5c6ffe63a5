use truth_or_dare_bot::guild_settings::GuildSettings;
use truth_or_dare_bot::rating::{resolve_rating, resolve_with, Rating, RatingPolicy};

#[test]
fn pg_policy_always_resolves_to_pg() {
    for _ in 0..1000 {
        assert_eq!(resolve_rating(RatingPolicy::from_text("PG")).as_str(), "PG");
    }
}

#[test]
fn pg13_policy_always_resolves_to_pg13() {
    for _ in 0..1000 {
        assert_eq!(resolve_rating(RatingPolicy::from_text("PG-13")).as_str(), "PG-13");
    }
}

#[test]
fn all_policy_resolves_to_either_rating_about_evenly() {
    let mut pg13 = 0;
    for _ in 0..1000 {
        match resolve_rating(RatingPolicy::from_text("ALL")) {
            Rating::PG13 => pg13 += 1,
            Rating::PG => {}
        }
    }
    assert!(pg13 >= 400, "PG-13 came up {pg13} times in 1000");
    assert!(pg13 <= 600, "PG-13 came up {pg13} times in 1000");
}

#[test]
fn policy_texts_are_read_exactly() {
    assert_eq!(RatingPolicy::from_text("ALL"), RatingPolicy::ALL);
    assert_eq!(RatingPolicy::from_text("PG-13"), RatingPolicy::PG13);
    assert_eq!(RatingPolicy::from_text("PG"), RatingPolicy::PG);
    assert_eq!(RatingPolicy::from_text("all"), RatingPolicy::PG);
    assert_eq!(RatingPolicy::from_text("pg-13"), RatingPolicy::PG);
    assert_eq!(RatingPolicy::from_text(""), RatingPolicy::PG);
    assert_eq!(RatingPolicy::from_text("R"), RatingPolicy::PG);
}

#[test]
fn resolve_with_follows_the_coin_only_for_all() {
    assert_eq!(resolve_with(RatingPolicy::ALL, true), Rating::PG13);
    assert_eq!(resolve_with(RatingPolicy::ALL, false), Rating::PG);
    assert_eq!(resolve_with(RatingPolicy::PG, true), Rating::PG);
    assert_eq!(resolve_with(RatingPolicy::PG, false), Rating::PG);
    assert_eq!(resolve_with(RatingPolicy::PG13, true), Rating::PG13);
    assert_eq!(resolve_with(RatingPolicy::PG13, false), Rating::PG13);
}

#[test]
fn rating_texts() {
    assert_eq!(Rating::PG.as_str(), "PG");
    assert_eq!(Rating::PG13.as_str(), "PG-13");
}

#[test]
fn absent_settings_fall_back_to_defaults() {
    let settings = GuildSettings::on_record(Some(7), None, None);
    assert_eq!(settings.guild_id, Some(7));
    assert_eq!(settings.rating, "PG");
    assert!(!settings.permissions);
    assert_eq!(settings.policy(), RatingPolicy::PG);
}

#[test]
fn stored_settings_are_kept() {
    let settings = GuildSettings::on_record(Some(7), Some("ALL".to_string()), Some(1));
    assert_eq!(settings.rating, "ALL");
    assert!(settings.permissions);
    assert_eq!(settings.policy(), RatingPolicy::ALL);

    let settings = GuildSettings::on_record(None, Some("PG-13".to_string()), Some(0));
    assert_eq!(settings.guild_id, None);
    assert_eq!(settings.policy(), RatingPolicy::PG13);
    assert!(!settings.permissions);

    let settings = GuildSettings::on_record(Some(1), Some("whatever".to_string()), Some(2));
    assert_eq!(settings.rating, "whatever");
    assert_eq!(settings.policy(), RatingPolicy::PG);
    assert!(!settings.permissions);
}
