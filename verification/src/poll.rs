//! Discord Poll Object structures.
use vstd::prelude::*;
use vstd::std_specs::convert::IntoSpec;
use crate::builder::poll::PollBuilder;

use crate::TitanString;

verus! {

/// A poll object.
#[derive(Debug, Clone)]
pub struct Poll<'a> {
    /// The question of the poll.
    pub question: PollMedia<'a>,

    /// Each of the answers available in the poll.
    pub answers: Vec<PollAnswer<'a>>,

    /// The expiration date of the poll.
    pub expiry: Option<TitanString<'a>>,

    /// Whether the poll allows multiple selections.
    pub allow_multiselect: bool,

    /// The layout type of the poll.
    pub layout_type: Option<u8>,

    /// The results of the poll.
    pub results: Option<PollResults>,
}

/// A poll media object (question text/emoji).
#[derive(Debug, Clone)]
pub struct PollMedia<'a> {
    /// The text of the field.
    pub text: Option<TitanString<'a>>,

    /// The emoji of the field.
    pub emoji: Option<crate::member::Emoji<'a>>,
}

/// A poll answer object.
#[derive(Debug, Clone)]
pub struct PollAnswer<'a> {
    /// The ID of the answer.
    pub answer_id: Option<u32>,

    /// The data of the answer.
    pub poll_media: PollMedia<'a>,
}

/// The results of a poll.
#[derive(Debug, Clone)]
pub struct PollResults {
    /// Whether the poll is finalized.
    pub is_finalized: bool,

    /// The counts for each answer.
    pub answer_counts: Vec<PollAnswerCount>,
}

/// Count for a specific answer.
#[derive(Debug, Clone)]
pub struct PollAnswerCount {
    /// The ID of the answer.
    pub id: u32,

    /// The number of votes.
    pub count: u32,

    /// Whether the current user voted for this answer.
    pub me_voted: bool,
}

impl<'a> Poll<'a> {
    /// A builder for a poll with this question and no answers.
    pub fn builder<T: Into<TitanString<'a>>>(question: T) -> (r: PollBuilder<'a>)
        ensures
            T::obeys_into_spec() ==> r@.question == (PollMedia { text: Some(question.into_spec()), emoji: None }),
            r@.question.text is Some && r@.question.emoji is None,
            r@.answers@.len() == 0,
            r@.expiry is None,
            !r@.allow_multiselect,
            r@.layout_type is None,
            r@.results is None,
    {
        PollBuilder::new(question)
    }
}

} // verus!
