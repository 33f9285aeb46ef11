use tir_engine_grpc::engine;
use tir_engine_grpc::engine::EngineError;
use tir_engine_grpc::service::{
    begin_correct_explanation, begin_evaluate_answer, begin_generate_knowledge,
    finish_correct_explanation, finish_evaluate_answer, finish_generate_knowledge,
    CORRECT_EXPLANATION_FAILED, EVALUATE_ANSWER_FAILED, GENERATE_KNOWLEDGE_FAILED,
    MISSING_THEMATIC,
};
use tir_engine_grpc::status::{Code, Status};
use tir_engine_grpc::tir_grpc::{
    Answer, CorrectionRequest, EmptyResponse, EvaluateRequest, GenerateKnowledgeRequest,
    Thematic, Thematics, Topic,
};

fn topic(title: &str, explanation: &str) -> Topic {
    Topic { title: title.to_string(), explanation: Some(explanation.to_string()) }
}

fn failure(detail: &str) -> EngineError {
    EngineError { detail: detail.to_string() }
}

/// An engine for the tests: counts how often it is invoked, enriches
/// explanations in a fixed way, and fails where it is told to.
struct SpyEngine {
    calls: usize,
    fails_with: Option<String>,
}

impl SpyEngine {
    fn working() -> Self {
        SpyEngine { calls: 0, fails_with: None }
    }

    fn failing(detail: &str) -> Self {
        SpyEngine { calls: 0, fails_with: Some(detail.to_string()) }
    }

    fn outcome(&mut self) -> Result<(), EngineError> {
        self.calls += 1;
        match &self.fails_with {
            Some(detail) => Err(failure(detail)),
            None => Ok(()),
        }
    }

    fn generate_knowledge(
        &mut self,
        mut thematic: engine::Thematic,
    ) -> Result<engine::Thematic, EngineError> {
        self.outcome()?;
        for topic in thematic.topics.iter_mut() {
            let hint = topic.explanation.take().unwrap_or_default();
            topic.explanation = Some(format!("{} ({})", hint, topic.title));
        }
        Ok(thematic)
    }

    fn evaluate_answer(
        &mut self,
        _answer: String,
        _topic: engine::Topic,
    ) -> Result<engine::Answer, EngineError> {
        self.outcome()?;
        Ok(engine::Answer { score: 200, explanation: "correct".to_string() })
    }

    fn correct_explanation(
        &mut self,
        correction: String,
        topic: &mut engine::Topic,
    ) -> Result<(), EngineError> {
        self.outcome()?;
        topic.explanation = Some(correction);
        Ok(())
    }
}

fn generate_knowledge(
    spy: &mut SpyEngine,
    request: GenerateKnowledgeRequest,
) -> Result<Thematics, Status> {
    let thematic = begin_generate_knowledge(request)?;
    finish_generate_knowledge(spy.generate_knowledge(thematic))
}

fn evaluate_answer(spy: &mut SpyEngine, request: EvaluateRequest) -> Result<Answer, Status> {
    let (answer, topic) = begin_evaluate_answer(request)?;
    finish_evaluate_answer(spy.evaluate_answer(answer, topic))
}

fn correct_explanation(
    spy: &mut SpyEngine,
    request: CorrectionRequest,
) -> Result<EmptyResponse, Status> {
    let (correction, mut topic) = begin_correct_explanation(request)?;
    finish_correct_explanation(spy.correct_explanation(correction, &mut topic))
}

#[test]
fn generate_knowledge_returns_one_thematic_in_input_order() {
    let mut spy = SpyEngine::working();
    let request = GenerateKnowledgeRequest {
        thematic: Some(Thematic {
            title: "Geography".to_string(),
            topics: vec![topic("T1", "E1"), topic("T2", "E2")],
        }),
    };
    let reply = generate_knowledge(&mut spy, request).unwrap();
    assert_eq!(spy.calls, 1);
    assert_eq!(reply.thematics.len(), 1);
    assert_eq!(
        reply,
        Thematics {
            thematics: vec![Thematic {
                title: "Geography".to_string(),
                topics: vec![topic("T1", "E1 (T1)"), topic("T2", "E2 (T2)")],
            }],
        }
    );
}

#[test]
fn generate_knowledge_hands_thematic_to_engine_unchanged() {
    let request = GenerateKnowledgeRequest {
        thematic: Some(Thematic {
            title: "Geography".to_string(),
            topics: vec![topic("T1", "E1"), topic("T2", "E2")],
        }),
    };
    let sent = begin_generate_knowledge(request).unwrap();
    assert_eq!(sent.title, "Geography");
    assert_eq!(sent.topics.len(), 2);
    assert_eq!(sent.topics[0].title, "T1");
    assert_eq!(sent.topics[0].explanation.as_deref(), Some("E1"));
    assert_eq!(sent.topics[1].title, "T2");
    assert_eq!(sent.topics[1].explanation.as_deref(), Some("E2"));
}

#[test]
fn generate_knowledge_with_no_topics_returns_one_empty_thematic() {
    let mut spy = SpyEngine::working();
    let request = GenerateKnowledgeRequest {
        thematic: Some(Thematic { title: "Empty".to_string(), topics: Vec::new() }),
    };
    let reply = generate_knowledge(&mut spy, request).unwrap();
    assert_eq!(
        reply.thematics,
        vec![Thematic { title: "Empty".to_string(), topics: Vec::new() }]
    );
}

#[test]
fn generate_knowledge_without_thematic_is_invalid_argument() {
    let mut spy = SpyEngine::working();
    let refused =
        generate_knowledge(&mut spy, GenerateKnowledgeRequest { thematic: None }).unwrap_err();
    assert_eq!(refused.code, Code::InvalidArgument);
    assert!(refused.message.contains("thematic"));
    assert_eq!(refused.message, "missing thematic");
    assert_eq!(refused.message, MISSING_THEMATIC);
    assert_eq!(spy.calls, 0);
}

#[test]
fn generate_knowledge_with_unexplained_topic_never_reaches_engine() {
    let mut spy = SpyEngine::working();
    let request = GenerateKnowledgeRequest {
        thematic: Some(Thematic {
            title: "Geography".to_string(),
            topics: vec![topic("T1", "E1"), Topic { title: "T2".to_string(), explanation: None }],
        }),
    };
    let refused = generate_knowledge(&mut spy, request).unwrap_err();
    assert_eq!(refused, Status::invalid_argument("missing explanation".to_string()));
    assert_eq!(spy.calls, 0);
}

#[test]
fn generate_knowledge_reports_unexplained_engine_topic_as_internal() {
    let generated = engine::Thematic {
        title: "Geography".to_string(),
        topics: vec![
            engine::Topic { title: "T1".to_string(), explanation: Some("E1".to_string()) },
            engine::Topic { title: "T2".to_string(), explanation: None },
        ],
    };
    let failed = finish_generate_knowledge(Ok(generated)).unwrap_err();
    assert_eq!(failed, Status::internal("explanation missing".to_string()));
    assert_ne!(failed.code, Code::InvalidArgument);
    assert_ne!(failed.code, Code::Unavailable);
}

#[test]
fn evaluate_answer_returns_engine_judgement() {
    let mut spy = SpyEngine::working();
    let request = EvaluateRequest {
        answer: "Paris".to_string(),
        topic: Some(topic("Capitals", "France's capital is Paris")),
    };
    let reply = evaluate_answer(&mut spy, request).unwrap();
    assert_eq!(reply, Answer { score: 200u32, explanation: "correct".to_string() });
    assert_eq!(spy.calls, 1);
}

#[test]
fn evaluate_answer_hands_answer_and_topic_to_engine_unchanged() {
    let request = EvaluateRequest {
        answer: "Paris".to_string(),
        topic: Some(topic("Capitals", "France's capital is Paris")),
    };
    let (answer, sent) = begin_evaluate_answer(request).unwrap();
    assert_eq!(answer, "Paris");
    assert_eq!(
        sent,
        engine::Topic {
            title: "Capitals".to_string(),
            explanation: Some("France's capital is Paris".to_string()),
        }
    );
}

#[test]
fn evaluate_answer_without_topic_is_invalid_argument() {
    let mut spy = SpyEngine::working();
    let request = EvaluateRequest { answer: "Paris".to_string(), topic: None };
    let refused = evaluate_answer(&mut spy, request).unwrap_err();
    assert_eq!(refused.code, Code::InvalidArgument);
    assert_eq!(refused.message, "missing topic");
    assert_eq!(spy.calls, 0);
}

#[test]
fn evaluate_answer_without_explanation_never_reaches_engine() {
    let mut spy = SpyEngine::working();
    let request = EvaluateRequest {
        answer: "Paris".to_string(),
        topic: Some(Topic { title: "Capitals".to_string(), explanation: None }),
    };
    let refused = evaluate_answer(&mut spy, request).unwrap_err();
    assert_eq!(refused.code, Code::InvalidArgument);
    assert_eq!(refused.message, "missing explanation");
    assert_eq!(spy.calls, 0);
}

#[test]
fn evaluate_answer_widens_largest_score() {
    let reply = finish_evaluate_answer(Ok(engine::Answer {
        score: 255,
        explanation: "flawless".to_string(),
    }));
    assert_eq!(reply, Ok(Answer { score: 255u32, explanation: "flawless".to_string() }));
}

#[test]
fn correct_explanation_returns_empty_acknowledgement() {
    let mut spy = SpyEngine::working();
    let request = CorrectionRequest {
        correction: "Mention the Seine".to_string(),
        topic: Some(topic("Capitals", "France's capital is Paris")),
    };
    assert_eq!(correct_explanation(&mut spy, request), Ok(EmptyResponse {}));
    assert_eq!(spy.calls, 1);
}

#[test]
fn correct_explanation_hands_correction_and_topic_to_engine_unchanged() {
    let request = CorrectionRequest {
        correction: "Mention the Seine".to_string(),
        topic: Some(topic("Capitals", "France's capital is Paris")),
    };
    let (correction, sent) = begin_correct_explanation(request).unwrap();
    assert_eq!(correction, "Mention the Seine");
    assert_eq!(sent.title, "Capitals");
    assert_eq!(sent.explanation.as_deref(), Some("France's capital is Paris"));
}

#[test]
fn correct_explanation_without_topic_is_invalid_argument() {
    let mut spy = SpyEngine::working();
    let request = CorrectionRequest { correction: "fix".to_string(), topic: None };
    let refused = correct_explanation(&mut spy, request).unwrap_err();
    assert_eq!(refused, Status::invalid_argument("missing topic".to_string()));
    assert_eq!(spy.calls, 0);
}

#[test]
fn correct_explanation_without_explanation_never_reaches_engine() {
    let mut spy = SpyEngine::working();
    let request = CorrectionRequest {
        correction: "fix".to_string(),
        topic: Some(Topic { title: "Capitals".to_string(), explanation: None }),
    };
    let refused = correct_explanation(&mut spy, request).unwrap_err();
    assert_eq!(refused, Status::invalid_argument("missing explanation".to_string()));
    assert_eq!(spy.calls, 0);
}

#[test]
fn failed_generation_is_unavailable_with_detail() {
    let mut spy = SpyEngine::failing("rate limit exceeded");
    let request = GenerateKnowledgeRequest {
        thematic: Some(Thematic { title: "Geography".to_string(), topics: vec![topic("T1", "E1")] }),
    };
    let failed = generate_knowledge(&mut spy, request).unwrap_err();
    assert_eq!(spy.calls, 1);
    assert_eq!(failed.code, Code::Unavailable);
    assert!(failed.message.contains("rate limit exceeded"));
    assert_eq!(
        failed.message,
        "tir engine failed to generate knowledge, details:\nrate limit exceeded"
    );
    assert!(failed.message.starts_with(GENERATE_KNOWLEDGE_FAILED));
}

#[test]
fn failed_evaluation_is_unavailable_with_detail() {
    let mut spy = SpyEngine::failing("malformed output");
    let request =
        EvaluateRequest { answer: "Paris".to_string(), topic: Some(topic("Capitals", "Paris")) };
    let failed = evaluate_answer(&mut spy, request).unwrap_err();
    assert_eq!(spy.calls, 1);
    assert_eq!(failed.code, Code::Unavailable);
    assert!(failed.message.contains("malformed output"));
    assert_eq!(failed.message, "tir engine failed to evaluate answer, details:\nmalformed output");
    assert!(failed.message.starts_with(EVALUATE_ANSWER_FAILED));
}

#[test]
fn failed_correction_is_unavailable_with_detail() {
    let mut spy = SpyEngine::failing("connection reset");
    let request =
        CorrectionRequest { correction: "fix".to_string(), topic: Some(topic("Capitals", "Paris")) };
    let failed = correct_explanation(&mut spy, request).unwrap_err();
    assert_eq!(spy.calls, 1);
    assert_eq!(failed.code, Code::Unavailable);
    assert!(failed.message.contains("connection reset"));
    assert_eq!(
        failed.message,
        "tir engine failed to generate correct explanation, details:\nconnection reset"
    );
    assert!(failed.message.starts_with(CORRECT_EXPLANATION_FAILED));
}

#[test]
fn failure_with_empty_detail_is_still_unavailable() {
    let failed = finish_correct_explanation(Err(failure(""))).unwrap_err();
    assert_eq!(failed, Status::unavailable(CORRECT_EXPLANATION_FAILED.to_string()));
}
