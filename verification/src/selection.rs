//! The random selection engine, as a state machine. The store is asked by
//! the caller; this module decides what to ask, counts the misses, and
//! says when to stop. A request ends after at most five queries.

use vstd::prelude::*;
use crate::questions::{Question, QuestionType};
use crate::rating::{resolve_rating, resolve_with, resolved, Rating, RatingPolicy};

verus! {

/// How many times the store is asked before the placeholder is served.
pub const MAX_ATTEMPTS: u8 = 5;

/// A selection under way: what was asked for, the query that is now due,
/// and how many queries have already come back without a prompt.
#[derive(Clone, Copy, Debug, PartialEq, Eq, Structural)]
pub struct Selection {
    pub question_type: QuestionType,
    pub policy: RatingPolicy,
    pub guild_id: Option<i64>,
    /// The rating that the query now due asks for.
    pub rating: Rating,
    pub misses: u8,
}

/// What came back from the store for one query.
#[derive(Clone, Debug, PartialEq, Eq)]
pub enum StoreReply {
    /// An eligible prompt, drawn by the store.
    Found(Question),
    /// No prompt is eligible at the rating asked for.
    NotFound,
    /// The store failed, or what it returned could not be read.
    Failed,
}

/// What to do next.
#[derive(Clone, Debug, PartialEq, Eq)]
pub enum Step {
    /// Ask the store the query that this selection now holds.
    Ask(Selection),
    /// Serve this prompt.
    Found(Question),
    /// Every attempt is spent: serve the placeholder.
    Exhausted,
}

/// The selection that a request starts with, when the coin shows `coin`.
pub open spec fn begun(
    question_type: QuestionType,
    policy: RatingPolicy,
    guild_id: Option<i64>,
    coin: bool,
) -> Selection {
    Selection { question_type, policy, guild_id, rating: resolved(policy, coin), misses: 0 }
}

/// The step that follows `reply`, when the coin for the next query shows
/// `coin`. A prompt that was found is served. A miss of either sort uses up
/// one attempt; while attempts are left the rating is resolved afresh for
/// the next query.
pub open spec fn advanced(selection: Selection, reply: StoreReply, coin: bool) -> Step {
    match reply {
        StoreReply::Found(question) => Step::Found(question),
        _ => if selection.misses + 1 >= MAX_ATTEMPTS {
            Step::Exhausted
        } else {
            Step::Ask(
                Selection {
                    rating: resolved(selection.policy, coin),
                    misses: (selection.misses + 1) as u8,
                    ..selection
                },
            )
        },
    }
}

/// Where a selection stands after the store has given `replies` in turn,
/// the coin showing `coins[i]` after reply `i`. Replies that come after the
/// selection has ended are not looked at.
pub open spec fn run(selection: Selection, replies: Seq<StoreReply>, coins: Seq<bool>) -> Step
    decreases replies.len(),
{
    if replies.len() == 0 {
        Step::Ask(selection)
    } else {
        match advanced(selection, replies[0], coins[0]) {
            Step::Ask(next) => run(next, replies.drop_first(), coins.drop_first()),
            ended => ended,
        }
    }
}

/// Whether none of the first `count` replies holds a prompt.
pub open spec fn all_missed(replies: Seq<StoreReply>, count: int) -> bool {
    forall|i: int| 0 <= i < count ==> !(#[trigger] replies[i] is Found)
}

/// Whether `question` is the placeholder served when no prompt was found.
pub open spec fn is_sentinel(question: Question) -> bool {
    &&& question.guild_id == Some(-1i64)
    &&& question.prompt@ == "N/A"@
    &&& question.question_type == QuestionType::NONE
    &&& question.rating@ == "PG-13"@
    &&& question.uid@ == "0"@
}

/// Whether `question` is what an ended selection serves: the prompt that
/// was found, or the placeholder once every attempt is spent. A selection
/// that still asks serves nothing.
pub open spec fn serves(step: Step, question: Question) -> bool {
    match step {
        Step::Ask(_) => false,
        Step::Found(found) => question == found,
        Step::Exhausted => is_sentinel(question),
    }
}

impl Selection {
    /// Starts a selection with a coin that has already been flipped.
    pub fn begin_with(
        question_type: QuestionType,
        policy: RatingPolicy,
        guild_id: Option<i64>,
        coin: bool,
    ) -> (selection: Selection)
        ensures
            selection == begun(question_type, policy, guild_id, coin),
    {
        Selection { question_type, policy, guild_id, rating: resolve_with(policy, coin), misses: 0 }
    }

    /// Starts a selection: no miss yet, and a first query at a rating that
    /// the policy resolves to.
    pub fn begin(
        question_type: QuestionType,
        policy: RatingPolicy,
        guild_id: Option<i64>,
    ) -> (selection: Selection)
        ensures
            selection == begun(question_type, policy, guild_id, true)
                || selection == begun(question_type, policy, guild_id, false),
    {
        Selection { question_type, policy, guild_id, rating: resolve_rating(policy), misses: 0 }
    }

    /// Whether one more miss spends the last attempt.
    fn on_last_attempt(&self) -> (last: bool)
        ensures
            last == (self.misses + 1 >= MAX_ATTEMPTS),
    {
        self.misses >= MAX_ATTEMPTS - 1
    }

    /// This selection after one more miss, about to ask at `rating`.
    fn retry_at(self, rating: Rating) -> (next: Selection)
        requires
            self.misses + 1 < MAX_ATTEMPTS,
        ensures
            next == (Selection { rating, misses: (self.misses + 1) as u8, ..self }),
    {
        Selection {
            question_type: self.question_type,
            policy: self.policy,
            guild_id: self.guild_id,
            rating,
            misses: self.misses + 1,
        }
    }

    /// Takes the store's reply to the query that was due, with a coin that
    /// has already been flipped for the query after it.
    pub fn advance_with(self, reply: StoreReply, coin: bool) -> (step: Step)
        ensures
            step == advanced(self, reply, coin),
    {
        match reply {
            StoreReply::Found(question) => Step::Found(question),
            _ => {
                if self.on_last_attempt() {
                    Step::Exhausted
                } else {
                    Step::Ask(self.retry_at(resolve_with(self.policy, coin)))
                }
            },
        }
    }

    /// Takes the store's reply to the query that was due and says what to
    /// do next. The rating is resolved again only where another query
    /// follows.
    pub fn advance(self, reply: StoreReply) -> (step: Step)
        ensures
            step == advanced(self, reply, true) || step == advanced(self, reply, false),
    {
        match reply {
            StoreReply::Found(question) => Step::Found(question),
            _ => {
                if self.on_last_attempt() {
                    Step::Exhausted
                } else {
                    Step::Ask(self.retry_at(resolve_rating(self.policy)))
                }
            },
        }
    }
}

impl Step {
    /// What this step serves, or the selection to go on with.
    pub fn served(self) -> (outcome: Result<Question, Selection>)
        ensures
            match outcome {
                Ok(question) => serves(self, question),
                Err(selection) => self == Step::Ask(selection),
            },
    {
        match self {
            Step::Ask(selection) => Err(selection),
            Step::Found(question) => Ok(question),
            Step::Exhausted => Ok(sentinel()),
        }
    }
}

/// The placeholder that is served when every attempt came back empty. It
/// is never stored.
pub fn sentinel() -> (question: Question)
    ensures
        is_sentinel(question),
{
    Question::new(-1, "N/A".to_owned(), QuestionType::NONE, "PG-13".to_owned(), "0".to_owned())
}

/// Each miss brings the end nearer: the selection that follows a miss has
/// one miss more, stays below the limit, and asks for the same kind of
/// prompt for the same community under the same policy.
pub proof fn lemma_miss_is_counted(selection: Selection, reply: StoreReply, coin: bool)
    ensures
        advanced(selection, reply, coin) matches Step::Ask(next) ==> {
            &&& reply !is Found
            &&& next.misses == selection.misses + 1
            &&& next.misses < MAX_ATTEMPTS
            &&& next.question_type == selection.question_type
            &&& next.policy == selection.policy
            &&& next.guild_id == selection.guild_id
            &&& next.rating == resolved(selection.policy, coin)
        },
{
}

/// A selection ends within the attempts it has left, whatever the store
/// replies and however the coin falls: after five replies a fresh selection
/// no longer asks. Where none of those replies held a prompt, it ends
/// exhausted.
pub proof fn lemma_selection_ends(selection: Selection, replies: Seq<StoreReply>, coins: Seq<bool>)
    requires
        selection.misses < MAX_ATTEMPTS,
        replies.len() >= MAX_ATTEMPTS - selection.misses,
    ensures
        run(selection, replies, coins) !is Ask,
        all_missed(replies, MAX_ATTEMPTS - selection.misses)
            ==> run(selection, replies, coins) is Exhausted,
    decreases replies.len(),
{
    match advanced(selection, replies[0], coins[0]) {
        Step::Ask(next) => {
            let later = replies.drop_first();
            lemma_selection_ends(next, later, coins.drop_first());
            if all_missed(replies, MAX_ATTEMPTS - selection.misses) {
                assert(all_missed(later, MAX_ATTEMPTS - next.misses)) by {
                    assert forall|i: int| 0 <= i < MAX_ATTEMPTS - next.misses implies !(
                        #[trigger] later[i] is Found
                    ) by {
                        assert(later[i] == replies[i + 1]);
                    }
                }
            }
        },
        _ => {},
    }
}

/// While the store keeps missing and attempts are left, the selection keeps
/// asking: it takes all five misses to exhaust a fresh selection.
pub proof fn lemma_selection_keeps_asking(
    selection: Selection,
    replies: Seq<StoreReply>,
    coins: Seq<bool>,
)
    requires
        selection.misses + replies.len() < MAX_ATTEMPTS,
        all_missed(replies, replies.len() as int),
    ensures
        run(selection, replies, coins) matches Step::Ask(last)
            && last.misses == selection.misses + replies.len(),
    decreases replies.len(),
{
    if replies.len() > 0 {
        match advanced(selection, replies[0], coins[0]) {
            Step::Ask(next) => {
                let later = replies.drop_first();
                assert(all_missed(later, later.len() as int)) by {
                    assert forall|i: int| 0 <= i < later.len() implies !(
                        #[trigger] later[i] is Found
                    ) by {
                        assert(later[i] == replies[i + 1]);
                    }
                }
                lemma_selection_keeps_asking(next, later, coins.drop_first());
            },
            _ => {},
        }
    }
}

/// On a store that holds nothing eligible a request ends with its fifth
/// query, and not before: a fresh selection still asks after up to four
/// misses and is exhausted by the fifth.
pub proof fn lemma_empty_store(
    question_type: QuestionType,
    policy: RatingPolicy,
    guild_id: Option<i64>,
    coin: bool,
    replies: Seq<StoreReply>,
    coins: Seq<bool>,
)
    requires
        all_missed(replies, replies.len() as int),
    ensures
        replies.len() < MAX_ATTEMPTS
            ==> run(begun(question_type, policy, guild_id, coin), replies, coins) is Ask,
        replies.len() >= MAX_ATTEMPTS
            ==> run(begun(question_type, policy, guild_id, coin), replies, coins) is Exhausted,
{
    let fresh = begun(question_type, policy, guild_id, coin);
    if replies.len() < MAX_ATTEMPTS {
        lemma_selection_keeps_asking(fresh, replies, coins);
    } else {
        lemma_selection_ends(fresh, replies, coins);
    }
}

/// Under a policy that names a rating, every query of a request asks for
/// that rating, however the coin falls.
pub proof fn lemma_fixed_policy_asks_one_rating(
    selection: Selection,
    replies: Seq<StoreReply>,
    coins: Seq<bool>,
)
    requires
        selection.policy != RatingPolicy::ALL,
        selection.rating == resolved(selection.policy, true),
    ensures
        run(selection, replies, coins) matches Step::Ask(last) ==> last.policy == selection.policy
            && last.rating == selection.rating,
    decreases replies.len(),
{
    if replies.len() > 0 {
        match advanced(selection, replies[0], coins[0]) {
            Step::Ask(next) => {
                lemma_fixed_policy_asks_one_rating(next, replies.drop_first(), coins.drop_first());
            },
            _ => {},
        }
    }
}

} // verus!
