use conversational_agent::agent::ConversationalAgent;
use conversational_agent::binding::{BindingRole, ModelBinding};
use conversational_agent::history::{ConversationHistory, Speaker};
use conversational_agent::intent::{normalize_intent, IntentLabel};
use conversational_agent::message::{FieldKind, FieldName};
use conversational_agent::orchestrator::{create_session, end_session, TurnError, TurnPhase, TurnState};

fn test_agent() -> ConversationalAgent {
    let classifier_binding = ModelBinding::new(
        "gpt-4o-mini".to_string(),
        0,
        "SECRET-REDACTED".to_string(),
    );
    let synthesis_binding = ModelBinding::new(
        "gpt-4o".to_string(),
        70,
        "SECRET-REDACTED".to_string(),
    );
    ConversationalAgent::new(classifier_binding, synthesis_binding)
}

#[test]
fn normalize_exact_token_upper() {
    assert_eq!(normalize_intent("SEARCH"), IntentLabel::Search);
}

#[test]
fn normalize_embedded_search() {
    assert_eq!(normalize_intent("Search needed"), IntentLabel::Search);
    assert_eq!(normalize_intent("please search"), IntentLabel::Search);
}

#[test]
fn normalize_chat_output() {
    assert_eq!(normalize_intent("hello there"), IntentLabel::Chat);
    assert_eq!(normalize_intent(""), IntentLabel::Chat);
}

#[test]
fn normalize_is_lenient_not_exact() {
    assert_eq!(normalize_intent("I think a web SeArCh would help"), IntentLabel::Search);
    assert_eq!(normalize_intent("chat"), IntentLabel::Chat);
    assert_eq!(normalize_intent("searc"), IntentLabel::Chat);
}

#[test]
fn chat_turn_never_invokes_retrieval() {
    let mut retrieval_calls: usize = 0;
    let mut turn = TurnState::begin("hi!".to_string());
    turn.on_classified(Some("chat".to_string()));
    if matches!(turn.phase, TurnPhase::Searching) {
        // the spy: only a turn standing at Searching ever reaches the tool
        retrieval_calls += 1;
        turn.on_retrieved(None);
    }
    assert_eq!(retrieval_calls, 0);
    match &turn.phase {
        TurnPhase::Synthesizing { context } => assert_eq!(context, ""),
        _ => panic!("chat turn must stand at synthesis"),
    }
}

#[test]
fn classifier_failure_degrades_to_synthesis() {
    let mut session = create_session();
    let mut turn = TurnState::begin("hello?".to_string());
    turn.on_classified(None);
    match &turn.phase {
        TurnPhase::Synthesizing { context } => assert_eq!(context, ""),
        _ => panic!("classifier failure must route to synthesis"),
    }
    turn.on_synthesized(Some("Hi! How can I help?".to_string()));
    let r = session.finish_turn(turn);
    assert_eq!(r, Ok("Hi! How can I help?".to_string()));
    assert_eq!(session.history().len(), 2);
}

#[test]
fn retrieval_failure_degrades_to_empty_context() {
    let agent = test_agent();
    let mut session = create_session();
    let mut turn = TurnState::begin("search for rust verifiers".to_string());
    turn.on_classified(Some("search".to_string()));
    assert!(matches!(turn.phase, TurnPhase::Searching));
    turn.on_retrieved(None);
    let input = agent.synthesis_input(&turn, session.history());
    assert_eq!(
        input.get_value(FieldName::SearchResults),
        Some("".to_string())
    );
    turn.on_synthesized(Some("I could not look that up, sorry.".to_string()));
    let r = session.finish_turn(turn);
    assert_eq!(r, Ok("I could not look that up, sorry.".to_string()));
}

#[test]
fn synthesis_failure_fails_turn_and_leaves_no_trace() {
    let mut session = create_session();

    let mut first = TurnState::begin("hi".to_string());
    first.on_classified(Some("chat".to_string()));
    first.on_synthesized(Some("hello!".to_string()));
    assert!(session.finish_turn(first).is_ok());
    assert_eq!(session.history().len(), 2);

    let mut second = TurnState::begin("and now?".to_string());
    second.on_classified(Some("chat".to_string()));
    second.on_synthesized(None);
    let r = session.finish_turn(second);
    assert_eq!(r, Err(TurnError::SynthesisFailed));
    assert_eq!(session.history().len(), 2);
}

#[test]
fn history_alternates_after_three_turns() {
    let mut session = create_session();
    let exchanges = [("a", "1"), ("b", "2"), ("c", "3")];
    for (user, reply) in exchanges.iter() {
        let mut turn = TurnState::begin(user.to_string());
        turn.on_classified(Some("chat".to_string()));
        turn.on_synthesized(Some(reply.to_string()));
        assert!(session.finish_turn(turn).is_ok());
    }
    let history = session.history();
    assert_eq!(history.len(), 6);
    for i in 0..6 {
        let turn = history.turn_at(i);
        if i % 2 == 0 {
            assert_eq!(turn.speaker, Speaker::User);
            assert_eq!(turn.text, exchanges[i / 2].0);
        } else {
            assert_eq!(turn.speaker, Speaker::Assistant);
            assert_eq!(turn.text, exchanges[i / 2].1);
        }
    }
}

#[test]
fn chat_end_to_end() {
    let agent = test_agent();
    let mut session = create_session();
    let mut retrieval_calls: usize = 0;

    let mut turn = TurnState::begin("What is 2+2?".to_string());
    turn.on_classified(Some("chat".to_string()));
    if matches!(turn.phase, TurnPhase::Searching) {
        retrieval_calls += 1;
        turn.on_retrieved(None);
    }
    assert_eq!(retrieval_calls, 0);

    let input = agent.synthesis_input(&turn, session.history());
    assert_eq!(input.get_value(FieldName::SearchResults), Some("".to_string()));
    assert_eq!(
        input.get_value(FieldName::UserMessage),
        Some("What is 2+2?".to_string())
    );

    turn.on_synthesized(Some("4".to_string()));
    let r = session.finish_turn(turn);
    assert_eq!(r, Ok("4".to_string()));

    let history = session.history();
    assert_eq!(history.len(), 2);
    assert_eq!(history.turn_at(0).speaker, Speaker::User);
    assert_eq!(history.turn_at(0).text, "What is 2+2?");
    assert_eq!(history.turn_at(1).speaker, Speaker::Assistant);
    assert_eq!(history.turn_at(1).text, "4");
    end_session(session);
}

#[test]
fn search_end_to_end() {
    let agent = test_agent();
    let mut session = create_session();
    let retrieved = "Trump is currently the president in 2025";

    let mut turn = TurnState::begin("Who is the current US president?".to_string());
    turn.on_classified(Some("search".to_string()));
    assert!(matches!(turn.phase, TurnPhase::Searching));

    // the mocked retrieval tool: an extracted query, then the retrieved text
    turn.on_retrieved(Some(("current US president".to_string(), retrieved.to_string())));

    let input = agent.synthesis_input(&turn, session.history());
    assert_eq!(
        input.get_value(FieldName::SearchResults),
        Some(retrieved.to_string())
    );

    let reply = format!("According to the search results, {}.", retrieved);
    turn.on_synthesized(Some(reply.clone()));
    let r = session.finish_turn(turn);
    assert_eq!(r, Ok(reply.clone()));
    assert!(r.unwrap().contains(retrieved));
    assert_eq!(session.history().len(), 2);
}

#[test]
fn render_formats_one_line_per_turn() {
    let mut history = ConversationHistory::new();
    assert_eq!(history.render(), "");
    history.push_exchange("hi".to_string(), "hello!".to_string());
    assert_eq!(history.render(), "User: hi\nAssistant: hello!");
    history.push_exchange("how are you?".to_string(), "fine".to_string());
    assert_eq!(
        history.render(),
        "User: hi\nAssistant: hello!\nUser: how are you?\nAssistant: fine"
    );
}

#[test]
fn synthesis_input_carries_rendered_history() {
    let agent = test_agent();
    let mut session = create_session();

    let mut first = TurnState::begin("hi".to_string());
    first.on_classified(Some("chat".to_string()));
    first.on_synthesized(Some("hello!".to_string()));
    assert!(session.finish_turn(first).is_ok());

    let mut second = TurnState::begin("what did I just say?".to_string());
    second.on_classified(Some("just chatting".to_string()));
    let input = agent.synthesis_input(&second, session.history());
    assert_eq!(
        input.get_value(FieldName::ConversationHistory),
        Some("User: hi\nAssistant: hello!".to_string())
    );
}

#[test]
fn schemas_accept_their_inputs() {
    let agent = test_agent();
    let classification = agent.classifier.input_for("hello");
    assert!(agent.classifier.schema.accepts(&classification));
    assert!(classification.has_input_field(FieldName::UserMessage));
    assert_eq!(classification.get_value(FieldName::UserMessage), Some("hello".to_string()));
    assert_eq!(classification.get_value(FieldName::Intent), None);

    let extraction = agent.search_tool.input_for("who won?");
    assert!(agent.search_tool.schema.accepts(&extraction));
    assert!(!agent.classifier.schema.accepts(&extraction));

    let mut turn = TurnState::begin("who won?".to_string());
    turn.on_classified(Some("search".to_string()));
    turn.on_retrieved(Some(("winners".to_string(), "results here".to_string())));
    let session = create_session();
    let synthesis = agent.synthesis_input(&turn, session.history());
    assert!(agent.personality.schema.accepts(&synthesis));
    assert!(!agent.personality.schema.accepts(&classification));
}

#[test]
fn bindings_stay_per_role() {
    let agent = test_agent();
    let classifier = agent.binding_for(BindingRole::Classifier);
    assert_eq!(classifier.model, "gpt-4o-mini");
    assert_eq!(classifier.temperature_centi, 0);
    let synthesizer = agent.binding_for(BindingRole::Synthesizer);
    assert_eq!(synthesizer.model, "gpt-4o");
    assert_eq!(synthesizer.temperature_centi, 70);
    assert_eq!(agent.classifier.role, BindingRole::Classifier);
    assert_eq!(agent.search_tool.role, BindingRole::Classifier);
    assert_eq!(agent.personality.role, BindingRole::Synthesizer);
}

#[test]
fn schema_fields_declare_direction() {
    let agent = test_agent();
    let schema = &agent.personality.schema;
    assert_eq!(schema.fields.len(), 4);
    assert_eq!(schema.fields[0].name, FieldName::ConversationHistory);
    assert_eq!(schema.fields[0].kind, FieldKind::Input);
    assert_eq!(schema.fields[3].name, FieldName::Response);
    assert_eq!(schema.fields[3].kind, FieldKind::Output);
}
