//! The decisions behind the commands: who may add a prompt, what is stored
//! for it, and what each command answers. Reading the options out of a
//! command and writing to the store are the caller's part.

use vstd::prelude::*;
use crate::chance::{fresh_uid, is_uid_text};
use crate::menu_type::MenuType;
use crate::pagination::{render, send_page, PageView};
use crate::questions::{kind_of_name, Question, QuestionType};
use crate::text::same_text;
use crate::unicode::{to_uppercase, uppercase};

verus! {

/// What becomes of a prompt that someone hands in.
#[derive(Clone, Debug, PartialEq, Eq)]
pub enum Submission {
    /// The community lets only administrators add prompts, and the sender
    /// is none. Nothing is stored.
    Denied,
    /// The text is empty. Nothing is stored.
    Empty,
    /// The prompt to store.
    Accepted(Question),
}

/// How the removal of a prompt went.
#[derive(Clone, Debug, PartialEq, Eq)]
pub enum Removal {
    /// The community owns no prompt of that identity: nothing was deleted.
    NotOwned,
    /// The prompt is gone.
    Removed,
    /// The store failed, with this message.
    Failed(String),
}

/// The text of an option, or `default` where the command has none.
pub open spec fn option_text(option: Option<&str>, default: Seq<char>) -> Seq<char> {
    match option {
        Some(text) => text@,
        None => default,
    }
}

/// The kind that the option `question_type` of a command names: the option
/// is put in upper case, then read as `QuestionType::from_str` reads it.
/// Without the option the kind is `NONE`.
pub open spec fn submitted_kind(option: Option<&str>) -> QuestionType {
    match option {
        Some(text) => kind_of_name(uppercase(uppercase(text@))),
        None => QuestionType::NONE,
    }
}

/// Whether a sender may add prompts: always where the community has not
/// restricted it, else only as an administrator.
pub open spec fn may_submit(is_admin: bool, admin_only: bool) -> bool {
    is_admin || !admin_only
}

/// Whether `question` is what gets stored for a command with these
/// options, in the community `guild_id`, under the identity `uid`.
pub open spec fn is_submitted(
    question: Question,
    text: Option<&str>,
    question_type: Option<&str>,
    rating: Option<&str>,
    guild_id: i64,
    uid: Seq<char>,
) -> bool {
    &&& question.guild_id == Some(guild_id)
    &&& question.prompt@ == option_text(text, Seq::<char>::empty())
    &&& question.question_type == submitted_kind(question_type)
    &&& question.rating@ == option_text(rating, "PG"@)
    &&& question.uid@ == uid
}

/// What the sender of a prompt is told.
pub open spec fn submission_text(submission: Submission) -> Seq<char> {
    match submission {
        Submission::Denied => "You must be an admin to run this command"@,
        Submission::Empty => "Question cannot be empty."@,
        Submission::Accepted(question) => "Question added: "@ + question.prompt@,
    }
}

/// What is answered once the removal of the prompt `uid` went as
/// `removal` says. A failure of the store is passed on in its own words.
pub open spec fn removal_text(uid: Seq<char>, removal: Removal) -> Seq<char> {
    match removal {
        Removal::NotOwned => "You can't remove a question outside of your server!"@,
        Removal::Removed => "Question with uid: "@ + uid + " has been removed."@,
        Removal::Failed(message) => message@,
    }
}

/// What is answered to a change of the rating policy.
pub open spec fn rating_reply_text(rating: Seq<char>, stored: bool) -> Seq<char> {
    if stored {
        "Rating set to "@ + rating + "."@
    } else {
        "Failed to set rating."@
    }
}

/// What is answered to a change of the permission policy.
pub open spec fn permissions_reply_text(admin: bool, stored: bool) -> Seq<char> {
    if !stored {
        "Error setting permissions."@
    } else if admin {
        "Admin only set to true"@
    } else {
        "Admin only set to false"@
    }
}

/// The text of an option, or `default` where the command has none.
pub fn option_or<'a>(option: Option<&'a str>, default: &'a str) -> (text: &'a str)
    ensures
        text@ == option_text(option, default@),
{
    match option {
        Some(text) => text,
        None => default,
    }
}

/// The prompt that is stored for a command with these options under the
/// identity `uid`. A missing text is empty, a missing rating is `PG`.
pub fn new_question(
    text: Option<&str>,
    question_type: Option<&str>,
    rating: Option<&str>,
    guild_id: i64,
    uid: String,
) -> (question: Question)
    ensures
        is_submitted(question, text, question_type, rating, guild_id, uid@),
{
    proof {
        reveal_strlit("");
        assert(""@ =~= Seq::<char>::empty());
    }
    let kind = match question_type {
        Some(name) => {
            let upper = to_uppercase(name);
            match QuestionType::from_str(upper.as_str()) {
                Ok(kind) => kind,
                Err(_) => QuestionType::NONE,
            }
        },
        None => QuestionType::NONE,
    };
    Question::new(
        guild_id,
        option_or(text, "").to_owned(),
        kind,
        option_or(rating, "PG").to_owned(),
        uid,
    )
}

/// Decides on a prompt that was handed in. The sender's standing is
/// checked first, then the text; a prompt that passes both gets a fresh
/// random identity.
pub fn add_question(
    is_admin: bool,
    admin_only: bool,
    text: Option<&str>,
    question_type: Option<&str>,
    rating: Option<&str>,
    guild_id: i64,
) -> (submission: Submission)
    ensures
        !may_submit(is_admin, admin_only) ==> submission is Denied,
        may_submit(is_admin, admin_only) && option_text(text, Seq::<char>::empty()).len() == 0
            ==> submission is Empty,
        may_submit(is_admin, admin_only) && option_text(text, Seq::<char>::empty()).len() > 0
            ==> ({
            &&& submission matches Submission::Accepted(question)
            &&& is_uid_text(question.uid@)
            &&& is_submitted(question, text, question_type, rating, guild_id, question.uid@)
        }),
{
    proof {
        reveal_strlit("");
    }
    if !(is_admin || !admin_only) {
        Submission::Denied
    } else if option_or(text, "").is_empty() {
        Submission::Empty
    } else {
        Submission::Accepted(new_question(text, question_type, rating, guild_id, fresh_uid()))
    }
}

/// What the sender of a prompt is told.
pub fn submission_reply(submission: &Submission) -> (reply: String)
    ensures
        reply@ == submission_text(*submission),
{
    match submission {
        Submission::Denied => "You must be an admin to run this command".to_owned(),
        Submission::Empty => "Question cannot be empty.".to_owned(),
        Submission::Accepted(question) => {
            let mut reply = "Question added: ".to_owned();
            reply.append(question.prompt.as_str());
            reply
        },
    }
}

/// What is answered to the removal of the prompt `question_uid`.
pub fn remove_question(question_uid: &str, removal: &Removal) -> (reply: String)
    ensures
        reply@ == removal_text(question_uid@, *removal),
{
    match removal {
        Removal::NotOwned => "You can't remove a question outside of your server!".to_owned(),
        Removal::Removed => {
            let mut reply = "Question with uid: ".to_owned();
            reply.append(question_uid);
            reply.append(" has been removed.");
            reply
        },
        Removal::Failed(message) => message.clone(),
    }
}

/// What is answered to a change of the rating policy to `rating`; `stored`
/// says that the store took it.
pub fn set_rating(rating: &str, stored: bool) -> (reply: String)
    ensures
        reply@ == rating_reply_text(rating@, stored),
{
    if stored {
        let mut reply = "Rating set to ".to_owned();
        reply.append(rating);
        reply.append(".");
        reply
    } else {
        "Failed to set rating.".to_owned()
    }
}

/// Whether the option `admin` of a command asks for the restriction: only
/// the text `true` does.
pub fn admin_choice(value: &str) -> (admin: bool)
    ensures
        admin == (value@ == "true"@),
{
    same_text(value, "true")
}

/// What is answered to a change of the permission policy to `admin`;
/// `stored` says that the store took it.
pub fn set_question_permissions(admin: bool, stored: bool) -> (reply: String)
    ensures
        reply@ == permissions_reply_text(admin, stored),
{
    if !stored {
        "Error setting permissions.".to_owned()
    } else if admin {
        "Admin only set to true".to_owned()
    } else {
        "Admin only set to false".to_owned()
    }
}

/// The first page of everything the community sees.
pub fn list_questions(questions: Vec<Question>) -> (view: PageView)
    ensures
        view@ == render(1, questions@, MenuType::DEFAULT),
{
    send_page(1, questions, MenuType::DEFAULT)
}

/// The first page of the community's own prompts.
pub fn list_custom_questions(questions: Vec<Question>) -> (view: PageView)
    ensures
        view@ == render(1, questions@, MenuType::CUSTOM),
{
    send_page(1, questions, MenuType::CUSTOM)
}

} // verus!
