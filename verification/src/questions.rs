//! Prompts and their kinds.

use vstd::prelude::*;
use crate::text::same_text;
use crate::unicode::{to_uppercase, uppercase};

verus! {

/// The kind of a prompt. `NONE` marks the placeholder that stands in when no
/// prompt could be found, and any kind name that is not recognised.
#[derive(Clone, Copy, Debug, PartialEq, Eq, Structural)]
pub enum QuestionType {
    TRUTH,
    DARE,
    NONE,
}

/// A prompt as the store holds it. `guild_id` is `None` for a global prompt,
/// which every community sees; otherwise it names the one community that
/// owns and sees the prompt.
#[derive(Clone, Debug, PartialEq, Eq)]
pub struct Question {
    pub guild_id: Option<i64>,
    pub prompt: String,
    pub question_type: QuestionType,
    pub rating: String,
    pub uid: String,
}

/// The printed name of a kind.
pub open spec fn kind_name(question_type: QuestionType) -> Seq<char> {
    match question_type {
        QuestionType::TRUTH => "TRUTH"@,
        QuestionType::DARE => "DARE"@,
        QuestionType::NONE => "NONE"@,
    }
}

/// The kind that an upper-case name stands for.
pub open spec fn kind_of_name(name: Seq<char>) -> QuestionType {
    if name == "TRUTH"@ {
        QuestionType::TRUTH
    } else if name == "DARE"@ {
        QuestionType::DARE
    } else {
        QuestionType::NONE
    }
}

impl QuestionType {
    /// The printed name: `TRUTH`, `DARE` or `NONE`.
    pub fn as_str(self) -> (name: &'static str)
        ensures
            name@ == kind_name(self),
    {
        match self {
            QuestionType::TRUTH => "TRUTH",
            QuestionType::DARE => "DARE",
            QuestionType::NONE => "NONE",
        }
    }

    /// The printed name as an owned string.
    pub fn to_string(&self) -> (name: String)
        ensures
            name@ == kind_name(*self),
    {
        self.as_str().to_owned()
    }

    /// The kind that `name` stands for: exactly `TRUTH` and `DARE` are
    /// recognised, everything else is `NONE`.
    pub fn from_name(name: &str) -> (question_type: QuestionType)
        ensures
            question_type == kind_of_name(name@),
    {
        if same_text(name, "TRUTH") {
            QuestionType::TRUTH
        } else if same_text(name, "DARE") {
            QuestionType::DARE
        } else {
            QuestionType::NONE
        }
    }

    /// Reads a kind whatever the case of its letters. It never fails: a
    /// text that is no kind's name reads as `NONE`.
    pub fn from_str(input: &str) -> (parsed: Result<QuestionType, String>)
        ensures
            parsed == Ok::<QuestionType, String>(kind_of_name(uppercase(input@))),
    {
        let upper = to_uppercase(input);
        Ok(QuestionType::from_name(upper.as_str()))
    }
}

impl Question {
    /// A prompt owned by the community `guild_id`.
    pub fn new(
        guild_id: i64,
        prompt: String,
        question_type: QuestionType,
        rating: String,
        uid: String,
    ) -> (question: Question)
        ensures
            question.guild_id == Some(guild_id),
            question.prompt == prompt,
            question.question_type == question_type,
            question.rating == rating,
            question.uid == uid,
    {
        Question { guild_id: Some(guild_id), prompt, question_type, rating, uid }
    }

    /// Whether the community `guild_id` sees this prompt: it does when the
    /// prompt is global or its own.
    pub fn visible_to(&self, guild_id: i64) -> (visible: bool)
        ensures
            visible == (self.guild_id is None || self.guild_id == Some(guild_id)),
    {
        match self.guild_id {
            None => true,
            Some(owner) => owner == guild_id,
        }
    }
}

} // verus!
