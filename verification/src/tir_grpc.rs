//! The messages that cross the network, and their mapping to and from the
//! engine's vocabulary.

use vstd::prelude::*;
use vstd::std_specs::convert::FromSpec;
use crate::engine;
use crate::status::{internal, invalid_argument, outcome, Code, Status, StatusView};

verus! {

/// A [`Topic`] as a mathematical value.
pub struct TopicView {
    pub title: Seq<char>,
    pub explanation: Option<Seq<char>>,
}

/// A topic as a caller sends or receives it. The explanation may be left out
/// on the wire; a request that needs one is refused without it.
#[derive(Clone, Debug, PartialEq, Eq)]
pub struct Topic {
    pub title: String,
    pub explanation: Option<String>,
}

impl View for Topic {
    type V = TopicView;

    open spec fn view(&self) -> TopicView {
        TopicView { title: self.title@, explanation: self.explanation.deep_view() }
    }
}

impl DeepView for Topic {
    type V = TopicView;

    open spec fn deep_view(&self) -> TopicView {
        self@
    }
}

/// A [`Thematic`] as a mathematical value.
pub struct ThematicView {
    pub title: Seq<char>,
    pub topics: Seq<TopicView>,
}

/// Topics grouped under one subject. Their order is the caller's and is kept.
#[derive(Clone, Debug, PartialEq, Eq)]
pub struct Thematic {
    pub title: String,
    pub topics: Vec<Topic>,
}

impl View for Thematic {
    type V = ThematicView;

    open spec fn view(&self) -> ThematicView {
        ThematicView { title: self.title@, topics: self.topics.deep_view() }
    }
}

impl DeepView for Thematic {
    type V = ThematicView;

    open spec fn deep_view(&self) -> ThematicView {
        self@
    }
}

/// The reply to a request for knowledge: a list that holds the one thematic
/// that was asked for.
#[derive(Clone, Debug, PartialEq, Eq)]
pub struct Thematics {
    pub thematics: Vec<Thematic>,
}

impl View for Thematics {
    type V = Seq<ThematicView>;

    open spec fn view(&self) -> Seq<ThematicView> {
        self.thematics.deep_view()
    }
}

impl DeepView for Thematics {
    type V = Seq<ThematicView>;

    open spec fn deep_view(&self) -> Seq<ThematicView> {
        self@
    }
}

/// An [`Answer`] as a mathematical value.
pub struct AnswerView {
    pub score: nat,
    pub explanation: Seq<char>,
}

/// The judgement of a learner's answer, as the caller receives it.
#[derive(Clone, Debug, PartialEq, Eq)]
pub struct Answer {
    pub score: u32,
    pub explanation: String,
}

impl View for Answer {
    type V = AnswerView;

    open spec fn view(&self) -> AnswerView {
        AnswerView { score: self.score as nat, explanation: self.explanation@ }
    }
}

impl DeepView for Answer {
    type V = AnswerView;

    open spec fn deep_view(&self) -> AnswerView {
        self@
    }
}

/// Asks for the topics of a thematic to be explained.
#[derive(Clone, Debug, PartialEq, Eq)]
pub struct GenerateKnowledgeRequest {
    pub thematic: Option<Thematic>,
}

/// Asks for a learner's answer to be judged against a topic.
#[derive(Clone, Debug, PartialEq, Eq)]
pub struct EvaluateRequest {
    pub answer: String,
    pub topic: Option<Topic>,
}

/// Asks for the explanation of a topic to be corrected.
#[derive(Clone, Debug, PartialEq, Eq)]
pub struct CorrectionRequest {
    pub correction: String,
    pub topic: Option<Topic>,
}

/// Acknowledges a call that has nothing to return.
#[derive(Clone, Copy, Debug, PartialEq, Eq)]
pub struct EmptyResponse {}

impl View for EmptyResponse {
    type V = ();

    open spec fn view(&self) -> () {
        ()
    }
}

impl DeepView for EmptyResponse {
    type V = ();

    open spec fn deep_view(&self) -> () {
        ()
    }
}

/// What a caller is told when a request carries no topic.
pub const MISSING_TOPIC: &'static str = "missing topic";

/// What a caller is told when a topic of a request has no explanation.
pub const MISSING_EXPLANATION: &'static str = "missing explanation";

/// What a caller is told when the engine returned a topic without an
/// explanation.
pub const EXPLANATION_MISSING: &'static str = "explanation missing";

/// The status for a request that carries no topic.
pub open spec fn missing_topic() -> StatusView {
    invalid_argument(MISSING_TOPIC@)
}

/// The status for a topic that a caller sent without an explanation.
pub open spec fn missing_explanation() -> StatusView {
    invalid_argument(MISSING_EXPLANATION@)
}

/// The status for a topic that the engine returned without an explanation.
pub open spec fn explanation_missing() -> StatusView {
    internal(EXPLANATION_MISSING@)
}

/// What [`to_engine_topic`] returns: the same title and explanation in the
/// engine's vocabulary, or the reason why the topic cannot reach the engine.
pub open spec fn to_engine_topic_spec(topic: Option<TopicView>) -> Result<
    engine::TopicView,
    StatusView,
> {
    match topic {
        None => Err(missing_topic()),
        Some(topic) => match topic.explanation {
            None => Err(missing_explanation()),
            Some(explanation) => Ok(
                engine::TopicView { title: topic.title, explanation: Some(explanation) },
            ),
        },
    }
}

/// Turns a topic of a request into a topic for the engine.
///
/// Fails when the request carried no topic, or a topic without an
/// explanation. A topic that is returned always has its explanation.
pub fn to_engine_topic(topic: Option<Topic>) -> (r: Result<engine::Topic, Status>)
    ensures
        outcome(r) == to_engine_topic_spec(topic.deep_view()),
{
    match topic {
        None => Err(Status::invalid_argument(MISSING_TOPIC.to_owned())),
        Some(topic) => match topic.explanation {
            None => Err(Status::invalid_argument(MISSING_EXPLANATION.to_owned())),
            Some(explanation) => Ok(
                engine::Topic { title: topic.title, explanation: Some(explanation) },
            ),
        },
    }
}

/// What [`to_engine_topics`] returns: every topic in the engine's vocabulary,
/// in the order given, unless one of them has no explanation.
pub open spec fn to_engine_topics_spec(topics: Seq<TopicView>) -> Result<
    Seq<engine::TopicView>,
    StatusView,
> {
    if forall|i: int| 0 <= i < topics.len() ==> (#[trigger] topics[i]).explanation is Some {
        Ok(
            Seq::new(
                topics.len(),
                |i: int| engine::TopicView { title: topics[i].title, explanation: topics[i].explanation },
            ),
        )
    } else {
        Err(missing_explanation())
    }
}

/// Turns the topics of a thematic into topics for the engine, keeping their
/// order. One topic without an explanation fails the whole list.
pub fn to_engine_topics(topics: Vec<Topic>) -> (r: Result<Vec<engine::Topic>, Status>)
    ensures
        outcome(r) == to_engine_topics_spec(topics.deep_view()),
{
    let mut converted: Vec<engine::Topic> = Vec::new();
    for topic in it: topics.into_iter()
        invariant
            it.seq() == topics@,
            converted.len() == it.index(),
            forall|i: int|
                0 <= i < it.index() ==> to_engine_topic_spec(Some(#[trigger] topics[i]@)) == Ok::<
                    engine::TopicView,
                    StatusView,
                >(converted[i]@),
    {
        match to_engine_topic(Some(topic)) {
            Ok(topic) => converted.push(topic),
            Err(status) => {
                assert(topics.deep_view()[it.index()].explanation is None);
                return Err(status);
            },
        }
    }
    assert(converted.deep_view() =~= to_engine_topics_spec(topics.deep_view())->Ok_0);
    Ok(converted)
}

/// What [`to_engine_thematic`] returns: the same title over the converted
/// topics, or the failure of the topics.
pub open spec fn to_engine_thematic_spec(thematic: ThematicView) -> Result<
    engine::ThematicView,
    StatusView,
> {
    match to_engine_topics_spec(thematic.topics) {
        Ok(topics) => Ok(engine::ThematicView { title: thematic.title, topics }),
        Err(status) => Err(status),
    }
}

/// Turns a thematic of a request into a thematic for the engine. No part of
/// it is returned when one of its topics is refused.
pub fn to_engine_thematic(thematic: Thematic) -> (r: Result<engine::Thematic, Status>)
    ensures
        outcome(r) == to_engine_thematic_spec(thematic@),
{
    match to_engine_topics(thematic.topics) {
        Ok(topics) => Ok(engine::Thematic { title: thematic.title, topics }),
        Err(status) => Err(status),
    }
}

/// What [`Topic::try_from`] returns: the same title and explanation in the
/// wire's vocabulary, or the internal failure that stands for an engine
/// topic without an explanation.
pub open spec fn to_wire_topic_spec(topic: engine::TopicView) -> Result<TopicView, StatusView> {
    match topic.explanation {
        None => Err(explanation_missing()),
        Some(explanation) => Ok(TopicView { title: topic.title, explanation: Some(explanation) }),
    }
}

impl Topic {
    /// Turns a topic that the engine returned into a topic for the caller.
    ///
    /// The engine promises an explanation on every topic it returns. One
    /// without is no fault of the caller, so the failure is an internal one.
    pub fn try_from(value: engine::Topic) -> (r: Result<Topic, Status>)
        ensures
            outcome(r) == to_wire_topic_spec(value@),
    {
        match value.explanation {
            None => Err(Status::internal(EXPLANATION_MISSING.to_owned())),
            Some(explanation) => Ok(Topic { title: value.title, explanation: Some(explanation) }),
        }
    }
}

/// What [`to_wire_topics`] returns: every topic in the wire's vocabulary, in
/// the order given, unless the engine left one without an explanation.
pub open spec fn to_wire_topics_spec(topics: Seq<engine::TopicView>) -> Result<
    Seq<TopicView>,
    StatusView,
> {
    if forall|i: int| 0 <= i < topics.len() ==> (#[trigger] topics[i]).explanation is Some {
        Ok(
            Seq::new(
                topics.len(),
                |i: int| TopicView { title: topics[i].title, explanation: topics[i].explanation },
            ),
        )
    } else {
        Err(explanation_missing())
    }
}

/// Turns the topics that the engine returned into topics for the caller,
/// keeping their order.
pub fn to_wire_topics(topics: Vec<engine::Topic>) -> (r: Result<Vec<Topic>, Status>)
    ensures
        outcome(r) == to_wire_topics_spec(topics.deep_view()),
{
    let mut converted: Vec<Topic> = Vec::new();
    for topic in it: topics.into_iter()
        invariant
            it.seq() == topics@,
            converted.len() == it.index(),
            forall|i: int|
                0 <= i < it.index() ==> to_wire_topic_spec(#[trigger] topics[i]@) == Ok::<
                    TopicView,
                    StatusView,
                >(converted[i]@),
    {
        match Topic::try_from(topic) {
            Ok(topic) => converted.push(topic),
            Err(status) => {
                assert(topics.deep_view()[it.index()].explanation is None);
                return Err(status);
            },
        }
    }
    assert(converted.deep_view() =~= to_wire_topics_spec(topics.deep_view())->Ok_0);
    Ok(converted)
}

/// What `Answer::from` returns: the same score in the wider type, and the
/// same explanation.
pub open spec fn to_wire_answer_spec(answer: engine::AnswerView) -> AnswerView {
    AnswerView { score: answer.score, explanation: answer.explanation }
}

impl From<engine::Answer> for Answer {
    /// Widens the engine's score to the wire's integer. Every score fits, so
    /// none is changed or refused.
    fn from(value: engine::Answer) -> (answer: Answer)
        ensures
            answer@ == to_wire_answer_spec(value@),
    {
        Answer { score: value.score as u32, explanation: value.explanation }
    }
}

impl vstd::std_specs::convert::FromSpecImpl<engine::Answer> for Answer {
    open spec fn obeys_from_spec() -> bool {
        true
    }

    open spec fn from_spec(value: engine::Answer) -> Answer {
        Answer { score: value.score as u32, explanation: value.explanation }
    }
}

/// A topic that a caller sent with an explanation reaches the engine with
/// the same title and explanation, and comes back as it was sent.
pub proof fn lemma_wire_topic_round_trip(topic: TopicView)
    requires
        topic.explanation is Some,
    ensures
        to_engine_topic_spec(Some(topic)) matches Ok(sent) && sent.title == topic.title
            && sent.explanation == topic.explanation && to_wire_topic_spec(sent) == Ok::<
            TopicView,
            StatusView,
        >(topic),
{
}

/// A topic that a caller sent without an explanation is refused as the
/// caller's fault.
pub proof fn lemma_unexplained_topic_is_refused(topic: TopicView)
    requires
        topic.explanation is None,
    ensures
        to_engine_topic_spec(Some(topic)) matches Err(status) && status.code
            == Code::InvalidArgument,
{
}

/// A topic that the engine returned with an explanation reaches the caller
/// with the same title and explanation, and would reach the engine again as
/// it was returned.
pub proof fn lemma_engine_topic_round_trip(topic: engine::TopicView)
    requires
        topic.explanation is Some,
    ensures
        to_wire_topic_spec(topic) matches Ok(received) && received.title == topic.title
            && received.explanation == topic.explanation && to_engine_topic_spec(Some(received))
            == Ok::<engine::TopicView, StatusView>(topic),
{
}

/// A topic that the engine returned without an explanation is an internal
/// failure, which is not the kind that blames the caller.
pub proof fn lemma_unexplained_engine_topic_is_internal(topic: engine::TopicView)
    requires
        topic.explanation is None,
    ensures
        to_wire_topic_spec(topic) matches Err(status) && status.code == Code::Internal
            && status.code != Code::InvalidArgument,
{
}

/// A list of topics is converted topic by topic: when it succeeds, each
/// topic stands at its place as [`to_engine_topic`] would return it; when it
/// fails, it fails as one of its topics does.
pub proof fn lemma_topics_reach_engine_one_by_one(topics: Seq<TopicView>)
    ensures
        match to_engine_topics_spec(topics) {
            Ok(converted) => {
                &&& converted.len() == topics.len()
                &&& forall|i: int|
                    0 <= i < topics.len() ==> to_engine_topic_spec(Some(#[trigger] topics[i]))
                        == Ok::<engine::TopicView, StatusView>(converted[i])
            },
            Err(status) => exists|i: int|
                0 <= i < topics.len() && to_engine_topic_spec(Some(#[trigger] topics[i])) == Err::<
                    engine::TopicView,
                    StatusView,
                >(status),
        },
{
}

/// A list of engine topics is converted topic by topic, in the same way.
pub proof fn lemma_topics_reach_caller_one_by_one(topics: Seq<engine::TopicView>)
    ensures
        match to_wire_topics_spec(topics) {
            Ok(converted) => {
                &&& converted.len() == topics.len()
                &&& forall|i: int|
                    0 <= i < topics.len() ==> to_wire_topic_spec(#[trigger] topics[i]) == Ok::<
                        TopicView,
                        StatusView,
                    >(converted[i])
            },
            Err(status) => exists|i: int|
                0 <= i < topics.len() && to_wire_topic_spec(#[trigger] topics[i]) == Err::<
                    TopicView,
                    StatusView,
                >(status),
        },
{
}

/// A thematic whose topics all have an explanation passes into the engine's
/// vocabulary and back unchanged: same title, same topics, same order.
pub proof fn lemma_thematic_round_trip(thematic: ThematicView)
    requires
        forall|i: int|
            0 <= i < thematic.topics.len() ==> (#[trigger] thematic.topics[i]).explanation is Some,
    ensures
        to_engine_thematic_spec(thematic) matches Ok(sent) && sent.title == thematic.title
            && to_wire_topics_spec(sent.topics) == Ok::<Seq<TopicView>, StatusView>(
            thematic.topics,
        ),
{
    let sent = to_engine_thematic_spec(thematic)->Ok_0;
    assert(to_wire_topics_spec(sent.topics)->Ok_0 =~= thematic.topics);
}

/// Widening keeps every score: the largest one the engine can give is still
/// itself on the wire.
pub proof fn lemma_score_is_kept(answer: engine::Answer)
    ensures
        Answer::from_spec(answer).score == answer.score,
        Answer::from_spec(answer).explanation == answer.explanation,
        Answer::from_spec(answer)@ == to_wire_answer_spec(answer@),
{
}

} // verus!
