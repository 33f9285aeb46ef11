//! The three operations of the service.
//!
//! Each operation validates its request, invokes the engine, and turns what
//! the engine returned into a reply. The invocation waits on the network and
//! is made by the caller of this module. So each operation stands here as two
//! steps: `begin_*` takes the request and yields what to hand to the engine,
//! or the status that ends the call before the engine is reached; `finish_*`
//! takes what the engine returned and yields the reply, or the status that
//! reports the failure.

use vstd::prelude::*;
use crate::engine;
use crate::engine::EngineError;
use crate::status::{invalid_argument, outcome, unavailable, Code, Status, StatusView};
use crate::tir_grpc::{
    to_engine_thematic,
    to_engine_thematic_spec,
    to_engine_topic,
    to_engine_topic_spec,
    to_wire_answer_spec,
    to_wire_topics,
    to_wire_topics_spec,
    Answer,
    AnswerView,
    CorrectionRequest,
    EmptyResponse,
    EvaluateRequest,
    GenerateKnowledgeRequest,
    Thematic,
    ThematicView,
    Thematics,
    TopicView,
};

verus! {

/// What a caller is told when a request for knowledge carries no thematic.
pub const MISSING_THEMATIC: &'static str = "missing thematic";

/// How the report of a failed generation of knowledge begins.
pub const GENERATE_KNOWLEDGE_FAILED: &'static str =
    "tir engine failed to generate knowledge, details:\n";

/// How the report of a failed evaluation begins.
pub const EVALUATE_ANSWER_FAILED: &'static str =
    "tir engine failed to evaluate answer, details:\n";

/// How the report of a failed correction begins.
pub const CORRECT_EXPLANATION_FAILED: &'static str =
    "tir engine failed to generate correct explanation, details:\n";

/// The status for a request for knowledge that carries no thematic.
pub open spec fn missing_thematic() -> StatusView {
    invalid_argument(MISSING_THEMATIC@)
}

/// The status for a failed engine invocation: of kind `Unavailable`, with the
/// operation's opening words followed by the failure's own text.
pub open spec fn engine_failure(opening: Seq<char>, detail: Seq<char>) -> StatusView {
    unavailable(opening + detail)
}

/// Reports a failed engine invocation to the caller.
fn report_engine_failure(opening: &str, error: EngineError) -> (status: Status)
    ensures
        status@ == engine_failure(opening@, error@),
{
    Status::unavailable(opening.to_owned().concat(error.detail.as_str()))
}

/// What [`begin_generate_knowledge`] returns, over the thematic of the request.
pub open spec fn begin_generate_knowledge_spec(thematic: Option<ThematicView>) -> Result<
    engine::ThematicView,
    StatusView,
> {
    match thematic {
        None => Err(missing_thematic()),
        Some(thematic) => to_engine_thematic_spec(thematic),
    }
}

/// First step of generating knowledge: the thematic to hand to the engine.
///
/// Fails, before the engine is reached, when the request carries no thematic
/// or a topic of it has no explanation.
pub fn begin_generate_knowledge(request: GenerateKnowledgeRequest) -> (r: Result<
    engine::Thematic,
    Status,
>)
    ensures
        outcome(r) == begin_generate_knowledge_spec(request.thematic.deep_view()),
{
    match request.thematic {
        None => Err(Status::invalid_argument(MISSING_THEMATIC.to_owned())),
        Some(thematic) => to_engine_thematic(thematic),
    }
}

/// What [`finish_generate_knowledge`] returns, over what the engine returned.
pub open spec fn finish_generate_knowledge_spec(
    generated: Result<engine::ThematicView, Seq<char>>,
) -> Result<Seq<ThematicView>, StatusView> {
    match generated {
        Err(detail) => Err(engine_failure(GENERATE_KNOWLEDGE_FAILED@, detail)),
        Ok(thematic) => match to_wire_topics_spec(thematic.topics) {
            Err(status) => Err(status),
            Ok(topics) => Ok(seq![ThematicView { title: thematic.title, topics }]),
        },
    }
}

/// Last step of generating knowledge: the reply for the thematic that the
/// engine has worked on.
///
/// The reply holds exactly one thematic, with the engine's title and topics
/// in the engine's order. A failure of the engine is reported as
/// `Unavailable`; a topic that the engine left without an explanation as an
/// internal failure. Either way no part of the thematic is returned.
pub fn finish_generate_knowledge(generated: Result<engine::Thematic, EngineError>) -> (r: Result<
    Thematics,
    Status,
>)
    ensures
        outcome(r) == finish_generate_knowledge_spec(outcome(generated)),
{
    match generated {
        Err(error) => Err(report_engine_failure(GENERATE_KNOWLEDGE_FAILED, error)),
        Ok(thematic) => match to_wire_topics(thematic.topics) {
            Err(status) => Err(status),
            Ok(topics) => {
                let mut thematics: Vec<Thematic> = Vec::new();
                thematics.push(Thematic { title: thematic.title, topics });
                let reply = Thematics { thematics };
                assert(reply@ =~= finish_generate_knowledge_spec(outcome(generated))->Ok_0);
                Ok(reply)
            },
        },
    }
}

/// What [`begin_evaluate_answer`] returns, over the fields of the request.
pub open spec fn begin_evaluate_answer_spec(answer: Seq<char>, topic: Option<TopicView>) -> Result<
    (Seq<char>, engine::TopicView),
    StatusView,
> {
    match to_engine_topic_spec(topic) {
        Err(status) => Err(status),
        Ok(topic) => Ok((answer, topic)),
    }
}

/// First step of evaluating an answer: the answer, unchanged, and the topic
/// to judge it against, for the engine.
///
/// Fails, before the engine is reached, when the request carries no topic or
/// the topic has no explanation.
pub fn begin_evaluate_answer(request: EvaluateRequest) -> (r: Result<
    (String, engine::Topic),
    Status,
>)
    ensures
        outcome(r) == begin_evaluate_answer_spec(request.answer@, request.topic.deep_view()),
{
    match to_engine_topic(request.topic) {
        Err(status) => Err(status),
        Ok(topic) => Ok((request.answer, topic)),
    }
}

/// What [`finish_evaluate_answer`] returns, over what the engine returned.
pub open spec fn finish_evaluate_answer_spec(
    evaluated: Result<engine::AnswerView, Seq<char>>,
) -> Result<AnswerView, StatusView> {
    match evaluated {
        Err(detail) => Err(engine_failure(EVALUATE_ANSWER_FAILED@, detail)),
        Ok(answer) => Ok(to_wire_answer_spec(answer)),
    }
}

/// Last step of evaluating an answer: the engine's judgement for the caller,
/// with the score it gave, or the failure of the engine as `Unavailable`.
pub fn finish_evaluate_answer(evaluated: Result<engine::Answer, EngineError>) -> (r: Result<
    Answer,
    Status,
>)
    ensures
        outcome(r) == finish_evaluate_answer_spec(outcome(evaluated)),
{
    match evaluated {
        Err(error) => Err(report_engine_failure(EVALUATE_ANSWER_FAILED, error)),
        Ok(answer) => Ok(Answer::from(answer)),
    }
}

/// What [`begin_correct_explanation`] returns, over the fields of the request.
pub open spec fn begin_correct_explanation_spec(
    correction: Seq<char>,
    topic: Option<TopicView>,
) -> Result<(Seq<char>, engine::TopicView), StatusView> {
    match to_engine_topic_spec(topic) {
        Err(status) => Err(status),
        Ok(topic) => Ok((correction, topic)),
    }
}

/// First step of correcting an explanation: the correction, unchanged, and
/// the topic to correct, for the engine.
///
/// Fails, before the engine is reached, when the request carries no topic or
/// the topic has no explanation.
pub fn begin_correct_explanation(request: CorrectionRequest) -> (r: Result<
    (String, engine::Topic),
    Status,
>)
    ensures
        outcome(r) == begin_correct_explanation_spec(
            request.correction@,
            request.topic.deep_view(),
        ),
{
    match to_engine_topic(request.topic) {
        Err(status) => Err(status),
        Ok(topic) => Ok((request.correction, topic)),
    }
}

/// What [`finish_correct_explanation`] returns, over what the engine returned.
pub open spec fn finish_correct_explanation_spec(corrected: Result<(), Seq<char>>) -> Result<
    (),
    StatusView,
> {
    match corrected {
        Err(detail) => Err(engine_failure(CORRECT_EXPLANATION_FAILED@, detail)),
        Ok(()) => Ok(()),
    }
}

/// Last step of correcting an explanation: an empty acknowledgement, or the
/// failure of the engine as `Unavailable`. The corrected topic is not sent
/// back.
pub fn finish_correct_explanation(corrected: Result<(), EngineError>) -> (r: Result<
    EmptyResponse,
    Status,
>)
    ensures
        outcome(r) == finish_correct_explanation_spec(outcome(corrected)),
{
    match corrected {
        Err(error) => Err(report_engine_failure(CORRECT_EXPLANATION_FAILED, error)),
        Ok(()) => Ok(EmptyResponse {}),
    }
}

/// Whether `part` stands in `text` from position `start` on.
pub open spec fn occurs_at(text: Seq<char>, part: Seq<char>, start: int) -> bool {
    0 <= start && start + part.len() <= text.len() && text.subrange(start, start + part.len())
        == part
}

/// Whether `part` occurs somewhere in `text`, as one run of characters.
pub open spec fn contains(text: Seq<char>, part: Seq<char>) -> bool {
    exists|start: int| occurs_at(text, part, start)
}

/// Whether `r` is a failure of kind `Unavailable` whose text contains `detail`.
pub open spec fn is_unavailable_with<T>(r: Result<T, StatusView>, detail: Seq<char>) -> bool {
    r matches Err(status) && status.code == Code::Unavailable && contains(status.message, detail)
}

/// Whether `r` is a failure of kind `InvalidArgument`.
pub open spec fn is_invalid_argument<T>(r: Result<T, StatusView>) -> bool {
    r matches Err(status) && status.code == Code::InvalidArgument
}

/// The report of a failed engine invocation contains the failure's own text.
pub proof fn lemma_engine_failure_holds_detail(opening: Seq<char>, detail: Seq<char>)
    ensures
        engine_failure(opening, detail).code == Code::Unavailable,
        contains(engine_failure(opening, detail).message, detail),
{
    let text = opening + detail;
    let start = opening.len() as int;
    assert(text.subrange(start, start + detail.len()) =~= detail);
    assert(occurs_at(text, detail, start));
}

/// Whichever operation it was, a failure of the engine reaches the caller as
/// `Unavailable`, with a text that contains the failure's own.
pub proof fn lemma_engine_failure_is_unavailable(detail: Seq<char>)
    ensures
        is_unavailable_with(finish_generate_knowledge_spec(Err(detail)), detail),
        is_unavailable_with(finish_evaluate_answer_spec(Err(detail)), detail),
        is_unavailable_with(finish_correct_explanation_spec(Err(detail)), detail),
{
    lemma_engine_failure_holds_detail(GENERATE_KNOWLEDGE_FAILED@, detail);
    lemma_engine_failure_holds_detail(EVALUATE_ANSWER_FAILED@, detail);
    lemma_engine_failure_holds_detail(CORRECT_EXPLANATION_FAILED@, detail);
}

/// A request without its topic or thematic ends as the caller's fault, with
/// nothing to hand to the engine.
pub proof fn lemma_absent_message_is_refused(text: Seq<char>)
    ensures
        is_invalid_argument(begin_generate_knowledge_spec(None)),
        is_invalid_argument(begin_evaluate_answer_spec(text, None)),
        is_invalid_argument(begin_correct_explanation_spec(text, None)),
{
}

/// A request whose topic has no explanation ends as the caller's fault, with
/// nothing to hand to the engine.
pub proof fn lemma_unexplained_topic_ends_call(text: Seq<char>, topic: TopicView)
    requires
        topic.explanation is None,
    ensures
        is_invalid_argument(begin_evaluate_answer_spec(text, Some(topic))),
        is_invalid_argument(begin_correct_explanation_spec(text, Some(topic))),
{
}

/// A request for knowledge ends as the caller's fault, with nothing to hand
/// to the engine, as soon as one topic of its thematic has no explanation.
pub proof fn lemma_unexplained_topic_ends_generation(thematic: ThematicView, i: int)
    requires
        0 <= i < thematic.topics.len(),
        thematic.topics[i].explanation is None,
    ensures
        is_invalid_argument(begin_generate_knowledge_spec(Some(thematic))),
{
}

/// A request whose topic has an explanation reaches the engine: the text is
/// handed on unchanged, and the topic with its title and explanation.
pub proof fn lemma_explained_topic_reaches_engine(text: Seq<char>, topic: TopicView)
    requires
        topic.explanation is Some,
    ensures
        begin_evaluate_answer_spec(text, Some(topic)) == Ok::<
            (Seq<char>, engine::TopicView),
            StatusView,
        >((text, engine::TopicView { title: topic.title, explanation: topic.explanation })),
        begin_correct_explanation_spec(text, Some(topic)) == begin_evaluate_answer_spec(
            text,
            Some(topic),
        ),
{
}

/// When the engine has explained every topic, the reply holds exactly one
/// thematic, and in it the engine's topics, each at the place where the
/// engine left it.
pub proof fn lemma_generated_topics_keep_order(generated: engine::ThematicView)
    requires
        forall|i: int|
            0 <= i < generated.topics.len() ==> (#[trigger] generated.topics[i]).explanation
                is Some,
    ensures
        finish_generate_knowledge_spec(Ok(generated)) matches Ok(thematics) && {
            &&& thematics.len() == 1
            &&& thematics[0].title == generated.title
            &&& thematics[0].topics.len() == generated.topics.len()
            &&& forall|i: int|
                0 <= i < generated.topics.len() ==> {
                    &&& (#[trigger] thematics[0].topics[i]).title == generated.topics[i].title
                    &&& thematics[0].topics[i].explanation == generated.topics[i].explanation
                }
        },
{
}

/// With an engine that returns the thematic as it received it, the caller
/// gets back the thematic that was sent, alone in the reply.
pub proof fn lemma_untouched_thematic_comes_back(thematic: ThematicView)
    requires
        forall|i: int|
            0 <= i < thematic.topics.len() ==> (#[trigger] thematic.topics[i]).explanation is Some,
    ensures
        begin_generate_knowledge_spec(Some(thematic)) matches Ok(sent)
            && finish_generate_knowledge_spec(Ok(sent)) == Ok::<Seq<ThematicView>, StatusView>(
            seq![thematic],
        ),
{
    crate::tir_grpc::lemma_thematic_round_trip(thematic);
}

/// The engine's judgement reaches the caller with the score it gave and the
/// explanation it wrote.
pub proof fn lemma_judgement_is_kept(answer: engine::AnswerView)
    ensures
        finish_evaluate_answer_spec(Ok(answer)) matches Ok(reply) && reply.score == answer.score
            && reply.explanation == answer.explanation,
{
}

} // verus!
