//! The vocabulary of the knowledge engine.
//!
//! The engine generates, evaluates and corrects knowledge. It is a
//! collaborator outside this library; these are the values that go into it and
//! come out of it.

use vstd::prelude::*;

verus! {

/// A [`Topic`] as a mathematical value.
pub struct TopicView {
    pub title: Seq<char>,
    pub explanation: Option<Seq<char>>,
}

/// A unit of knowledge: a title and, once the engine has worked on it, the
/// text that explains it.
#[derive(Clone, Debug, PartialEq, Eq)]
pub struct Topic {
    pub title: String,
    pub explanation: Option<String>,
}

impl View for Topic {
    type V = TopicView;

    open spec fn view(&self) -> TopicView {
        TopicView { title: self.title@, explanation: self.explanation.deep_view() }
    }
}

impl DeepView for Topic {
    type V = TopicView;

    open spec fn deep_view(&self) -> TopicView {
        self@
    }
}

/// A [`Thematic`] as a mathematical value.
pub struct ThematicView {
    pub title: Seq<char>,
    pub topics: Seq<TopicView>,
}

/// Topics grouped under one subject, in the order the caller gave them.
#[derive(Clone, Debug, PartialEq, Eq)]
pub struct Thematic {
    pub title: String,
    pub topics: Vec<Topic>,
}

impl View for Thematic {
    type V = ThematicView;

    open spec fn view(&self) -> ThematicView {
        ThematicView { title: self.title@, topics: self.topics.deep_view() }
    }
}

impl DeepView for Thematic {
    type V = ThematicView;

    open spec fn deep_view(&self) -> ThematicView {
        self@
    }
}

/// An [`Answer`] as a mathematical value.
pub struct AnswerView {
    pub score: nat,
    pub explanation: Seq<char>,
}

/// The engine's judgement of a learner's answer.
#[derive(Clone, Debug, PartialEq, Eq)]
pub struct Answer {
    pub score: u8,
    pub explanation: String,
}

impl View for Answer {
    type V = AnswerView;

    open spec fn view(&self) -> AnswerView {
        AnswerView { score: self.score as nat, explanation: self.explanation@ }
    }
}

impl DeepView for Answer {
    type V = AnswerView;

    open spec fn deep_view(&self) -> AnswerView {
        self@
    }
}

/// A failed engine invocation, reduced to the text that describes it.
#[derive(Clone, Debug, PartialEq, Eq)]
pub struct EngineError {
    pub detail: String,
}

impl View for EngineError {
    type V = Seq<char>;

    open spec fn view(&self) -> Seq<char> {
        self.detail@
    }
}

impl DeepView for EngineError {
    type V = Seq<char>;

    open spec fn deep_view(&self) -> Seq<char> {
        self@
    }
}

} // verus!
