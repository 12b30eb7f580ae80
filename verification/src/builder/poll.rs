//! The poll builder.
use vstd::prelude::*;
use vstd::std_specs::convert::IntoSpec;
use crate::poll::{Poll, PollAnswer, PollMedia};
use crate::TitanString;

verus! {

/// Builder for creating a Poll.
#[derive(Debug, Clone)]
pub struct PollBuilder<'a> {
    poll: Poll<'a>,
}

impl<'a> View for PollBuilder<'a> {
    type V = Poll<'a>;

    /// The poll built so far.
    closed spec fn view(&self) -> Poll<'a> {
        self.poll
    }
}

impl<'a> PollBuilder<'a> {
    /// Create a poll with a question and no answers.
    pub fn new<T: Into<TitanString<'a>>>(question: T) -> (r: Self)
        ensures
            T::obeys_into_spec() ==> r@.question == (PollMedia { text: Some(question.into_spec()), emoji: None }),
            r@.question.text is Some && r@.question.emoji is None,
            r@.answers@.len() == 0,
            r@.expiry is None,
            !r@.allow_multiselect,
            r@.layout_type is None,
            r@.results is None,
    {
        PollBuilder {
            poll: Poll {
                question: PollMedia { text: Some(question.into()), emoji: None },
                answers: Vec::new(),
                expiry: None,
                allow_multiselect: false,
                layout_type: None,
                results: None,
            },
        }
    }

    /// Add an answer.
    pub fn answer<T: Into<PollAnswer<'a>>>(self, answer: T) -> (r: Self)
        ensures
            T::obeys_into_spec() ==> r@.answers@ == self@.answers@.push(answer.into_spec()),
            r@.answers@.len() == self@.answers@.len() + 1,
            r@.answers@.drop_last() == self@.answers@,
            r@ == (Poll { answers: r@.answers, ..self@ }),
    {
        let mut b = self;
        b.poll.answers.push(answer.into());
        b
    }

    /// Set expiry.
    pub fn expiry<T: Into<TitanString<'a>>>(self, expiry: T) -> (r: Self)
        ensures
            T::obeys_into_spec() ==> r@ == (Poll { expiry: Some(expiry.into_spec()), ..self@ }),
            r@ == (Poll { expiry: r@.expiry, ..self@ }),
            r@.expiry is Some,
    {
        let mut b = self;
        b.poll.expiry = Some(expiry.into());
        b
    }

    /// Allow multiselect.
    pub fn allow_multiselect(self, allow: bool) -> (r: Self)
        ensures
            r@ == (Poll { allow_multiselect: allow, ..self@ }),
    {
        let mut b = self;
        b.poll.allow_multiselect = allow;
        b
    }

    /// Build the Poll.
    pub fn build(self) -> (r: Poll<'a>)
        ensures
            r == self@,
    {
        self.poll
    }
}

} // verus!
