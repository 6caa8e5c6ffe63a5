use truth_or_dare_bot::commands::{
    add_question, admin_choice, new_question, option_or, remove_question, set_question_permissions,
    set_rating, submission_reply, Removal, Submission,
};
use truth_or_dare_bot::questions::QuestionType;

fn is_uid(text: &str) -> bool {
    text.len() == 36
        && text.char_indices().all(|(i, c)| match i {
            8 | 13 | 18 | 23 => c == '-',
            _ => c.is_ascii_digit() || ('a'..='f').contains(&c),
        })
}

#[test]
fn anyone_may_add_where_the_community_allows_it() {
    let submission =
        add_question(false, false, Some("Sing a song"), Some("Dare"), Some("PG-13"), 99);
    match &submission {
        Submission::Accepted(question) => {
            assert_eq!(question.guild_id, Some(99));
            assert_eq!(question.prompt, "Sing a song");
            assert_eq!(question.question_type, QuestionType::DARE);
            assert_eq!(question.rating, "PG-13");
            assert!(is_uid(&question.uid), "{}", question.uid);
        }
        other => panic!("not accepted: {other:?}"),
    }
    assert_eq!(submission_reply(&submission), "Question added: Sing a song");
}

#[test]
fn administrators_may_always_add() {
    for admin_only in [false, true] {
        let submission = add_question(true, admin_only, Some("x"), Some("TRUTH"), None, 1);
        match submission {
            Submission::Accepted(question) => {
                assert_eq!(question.question_type, QuestionType::TRUTH);
                assert_eq!(question.rating, "PG");
            }
            other => panic!("not accepted: {other:?}"),
        }
    }
}

#[test]
fn others_are_denied_under_the_restriction() {
    let submission = add_question(false, true, Some("x"), Some("TRUTH"), Some("PG"), 1);
    assert_eq!(submission, Submission::Denied);
    assert_eq!(submission_reply(&submission), "You must be an admin to run this command");
    assert_eq!(add_question(false, true, None, None, None, 1), Submission::Denied);
}

#[test]
fn empty_text_is_rejected() {
    let submission = add_question(true, true, Some(""), Some("TRUTH"), Some("PG"), 1);
    assert_eq!(submission, Submission::Empty);
    assert_eq!(submission_reply(&submission), "Question cannot be empty.");
    assert_eq!(add_question(false, false, None, Some("TRUTH"), Some("PG"), 1), Submission::Empty);
}

#[test]
fn every_new_prompt_gets_its_own_identity() {
    let uid = |submission: Submission| match submission {
        Submission::Accepted(question) => question.uid,
        other => panic!("not accepted: {other:?}"),
    };
    let first = uid(add_question(true, false, Some("x"), None, None, 1));
    let second = uid(add_question(true, false, Some("x"), None, None, 1));
    assert!(is_uid(&first));
    assert!(is_uid(&second));
    assert_ne!(first, second);
    assert_ne!(first, "x");
}

#[test]
fn stored_prompt_from_options() {
    let question = new_question(Some("Why?"), Some("truth"), Some("PG"), -3, "id".to_string());
    assert_eq!(question.guild_id, Some(-3));
    assert_eq!(question.prompt, "Why?");
    assert_eq!(question.question_type, QuestionType::TRUTH);
    assert_eq!(question.rating, "PG");
    assert_eq!(question.uid, "id");

    let question = new_question(None, None, None, 0, String::new());
    assert_eq!(question.prompt, "");
    assert_eq!(question.question_type, QuestionType::NONE);
    assert_eq!(question.rating, "PG");
    assert_eq!(question.uid, "");

    let question = new_question(Some("?"), Some("riddle"), Some("R"), 0, "1".to_string());
    assert_eq!(question.question_type, QuestionType::NONE);
    assert_eq!(question.rating, "R");
}

#[test]
fn option_defaults() {
    assert_eq!(option_or(Some("ALL"), "PG"), "ALL");
    assert_eq!(option_or(None, "PG"), "PG");
    assert_eq!(option_or(Some(""), "PG"), "");
}

#[test]
fn removal_replies() {
    assert_eq!(
        remove_question("abc", &Removal::NotOwned),
        "You can't remove a question outside of your server!"
    );
    assert_eq!(
        remove_question("abc", &Removal::Removed),
        "Question with uid: abc has been removed."
    );
    assert_eq!(
        remove_question("abc", &Removal::Failed("database is locked".to_string())),
        "database is locked"
    );
}

#[test]
fn rating_replies() {
    assert_eq!(set_rating("PG-13", true), "Rating set to PG-13.");
    assert_eq!(set_rating("ALL", true), "Rating set to ALL.");
    assert_eq!(set_rating("PG", false), "Failed to set rating.");
}

#[test]
fn permission_replies() {
    assert!(admin_choice("true"));
    assert!(!admin_choice("false"));
    assert!(!admin_choice("True"));
    assert!(!admin_choice(""));
    assert_eq!(set_question_permissions(true, true), "Admin only set to true");
    assert_eq!(set_question_permissions(false, true), "Admin only set to false");
    assert_eq!(set_question_permissions(true, false), "Error setting permissions.");
    assert_eq!(set_question_permissions(false, false), "Error setting permissions.");
}
