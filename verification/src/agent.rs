//! The predictors and the agent that composes them. Each component declares
//! the schema of the one structured-prediction call it makes and the binding
//! role it runs under; the call itself is an opaque asynchronous collaborator
//! performed at the boundary, so each component's verified work is building
//! the structured input for its call. The agent wires the components to
//! explicit model bindings — no implicit process-wide default — with the
//! search tool reusing the classifier's binding and synthesis on its own.

use vstd::prelude::*;
use crate::binding::{BindingRole, ModelBinding};
use crate::history::{ConversationHistory, spec_render};
use crate::message::{
    FieldKind, FieldName, MessageField, Schema, SchemaField, StructuredMessage, names_unique,
    spec_input_conforms,
};
use crate::orchestrator::{TurnPhase, TurnState};

verus! {

/// The lightweight intent-detection predictor: one call that maps the raw
/// user message to free-text intent output, run under the classifier
/// binding so it stays cheap and fast.
pub struct IntentClassifier {
    pub schema: Schema,
    pub role: BindingRole,
}

impl IntentClassifier {
    /// The classifier declares exactly one input (the user message) and one
    /// output (the intent text), and runs under the classifier binding.
    pub open spec fn wf(&self) -> bool {
        &&& self.role == BindingRole::Classifier
        &&& self.schema.fields@.len() == 2
        &&& self.schema.fields@[0] == (SchemaField {
            name: FieldName::UserMessage,
            kind: FieldKind::Input,
        })
        &&& self.schema.fields@[1] == (SchemaField {
            name: FieldName::Intent,
            kind: FieldKind::Output,
        })
    }

    pub fn new() -> (c: IntentClassifier)
        ensures
            c.wf(),
    {
        let mut fields: Vec<SchemaField> = Vec::new();
        fields.push(SchemaField { name: FieldName::UserMessage, kind: FieldKind::Input });
        fields.push(SchemaField { name: FieldName::Intent, kind: FieldKind::Output });
        IntentClassifier { schema: Schema { fields }, role: BindingRole::Classifier }
    }

    /// The structured input for one classification call: the raw message.
    pub fn input_for(&self, message: &str) -> (m: StructuredMessage)
        ensures
            m.fields@.len() == 1,
            m.fields@[0].name == FieldName::UserMessage,
            m.fields@[0].kind == FieldKind::Input,
            m.fields@[0].value@ == message@,
            names_unique(m.fields@),
            self.wf() ==> spec_input_conforms(self.schema.fields@, m.fields@),
    {
        let mut fields: Vec<MessageField> = Vec::new();
        fields.push(
            MessageField {
                name: FieldName::UserMessage,
                kind: FieldKind::Input,
                value: message.to_owned(),
            },
        );
        StructuredMessage { fields }
    }
}

/// The two-stage retrieval tool: a predictor extracts a concise query from
/// the raw message, then an external retrieval function is invoked with that
/// query. The extraction call reuses the classifier's binding.
pub struct SearchTool {
    pub schema: Schema,
    pub role: BindingRole,
}

impl SearchTool {
    /// Query extraction declares one input (the user's question) and one
    /// output (the extracted search query), under the classifier binding.
    pub open spec fn wf(&self) -> bool {
        &&& self.role == BindingRole::Classifier
        &&& self.schema.fields@.len() == 2
        &&& self.schema.fields@[0] == (SchemaField {
            name: FieldName::UserQuestion,
            kind: FieldKind::Input,
        })
        &&& self.schema.fields@[1] == (SchemaField {
            name: FieldName::SearchQuery,
            kind: FieldKind::Output,
        })
    }

    pub fn new() -> (t: SearchTool)
        ensures
            t.wf(),
    {
        let mut fields: Vec<SchemaField> = Vec::new();
        fields.push(SchemaField { name: FieldName::UserQuestion, kind: FieldKind::Input });
        fields.push(SchemaField { name: FieldName::SearchQuery, kind: FieldKind::Output });
        SearchTool { schema: Schema { fields }, role: BindingRole::Classifier }
    }

    /// The structured input for one query-extraction call: the question.
    pub fn input_for(&self, user_question: &str) -> (m: StructuredMessage)
        ensures
            m.fields@.len() == 1,
            m.fields@[0].name == FieldName::UserQuestion,
            m.fields@[0].kind == FieldKind::Input,
            m.fields@[0].value@ == user_question@,
            names_unique(m.fields@),
            self.wf() ==> spec_input_conforms(self.schema.fields@, m.fields@),
    {
        let mut fields: Vec<MessageField> = Vec::new();
        fields.push(
            MessageField {
                name: FieldName::UserQuestion,
                kind: FieldKind::Input,
                value: user_question.to_owned(),
            },
        );
        StructuredMessage { fields }
    }
}

/// The response synthesizer: one call that consumes the rendered
/// conversation history, the current message and the retrieved context, and
/// produces the final reply, under the synthesis binding.
pub struct PersonalityChat {
    pub schema: Schema,
    pub role: BindingRole,
}

impl PersonalityChat {
    /// Synthesis declares three inputs — the rendered history, the user
    /// message and the search results — and one output, the response, under
    /// the synthesis binding.
    pub open spec fn wf(&self) -> bool {
        &&& self.role == BindingRole::Synthesizer
        &&& self.schema.fields@.len() == 4
        &&& self.schema.fields@[0] == (SchemaField {
            name: FieldName::ConversationHistory,
            kind: FieldKind::Input,
        })
        &&& self.schema.fields@[1] == (SchemaField {
            name: FieldName::UserMessage,
            kind: FieldKind::Input,
        })
        &&& self.schema.fields@[2] == (SchemaField {
            name: FieldName::SearchResults,
            kind: FieldKind::Input,
        })
        &&& self.schema.fields@[3] == (SchemaField {
            name: FieldName::Response,
            kind: FieldKind::Output,
        })
    }

    pub fn new() -> (p: PersonalityChat)
        ensures
            p.wf(),
    {
        let mut fields: Vec<SchemaField> = Vec::new();
        fields.push(SchemaField { name: FieldName::ConversationHistory, kind: FieldKind::Input });
        fields.push(SchemaField { name: FieldName::UserMessage, kind: FieldKind::Input });
        fields.push(SchemaField { name: FieldName::SearchResults, kind: FieldKind::Input });
        fields.push(SchemaField { name: FieldName::Response, kind: FieldKind::Output });
        PersonalityChat { schema: Schema { fields }, role: BindingRole::Synthesizer }
    }
}

/// The conversational agent: the classifier, the retrieval tool and the
/// synthesizer, each constructed with an explicit model binding.
pub struct ConversationalAgent {
    pub classifier: IntentClassifier,
    pub search_tool: SearchTool,
    pub personality: PersonalityChat,
    pub classifier_binding: ModelBinding,
    pub synthesis_binding: ModelBinding,
}

impl ConversationalAgent {
    pub open spec fn wf(&self) -> bool {
        &&& self.classifier.wf()
        &&& self.search_tool.wf()
        &&& self.personality.wf()
    }

    /// Wire the pipeline: the classifier and the search tool share the
    /// classifier binding, synthesis gets its own, so a slow synthesis call
    /// never blocks classification and vice versa.
    pub fn new(classifier_binding: ModelBinding, synthesis_binding: ModelBinding) -> (a:
        ConversationalAgent)
        ensures
            a.wf(),
            a.classifier_binding == classifier_binding,
            a.synthesis_binding == synthesis_binding,
    {
        ConversationalAgent {
            classifier: IntentClassifier::new(),
            search_tool: SearchTool::new(),
            personality: PersonalityChat::new(),
            classifier_binding,
            synthesis_binding,
        }
    }

    /// The binding a role's calls go through.
    pub fn binding_for(&self, role: BindingRole) -> (b: &ModelBinding)
        ensures
            role == BindingRole::Classifier ==> *b == self.classifier_binding,
            role == BindingRole::Synthesizer ==> *b == self.synthesis_binding,
    {
        match role {
            BindingRole::Classifier => &self.classifier_binding,
            BindingRole::Synthesizer => &self.synthesis_binding,
        }
    }

    /// The structured input for the synthesis call of a turn that stands at
    /// synthesis: the rendered history, the turn's message, and the turn's
    /// retrieved context — verbatim, empty when retrieval was skipped or
    /// failed.
    pub fn synthesis_input(&self, turn: &TurnState, history: &ConversationHistory) -> (m:
        StructuredMessage)
        requires
            turn.phase@ is Synthesizing,
        ensures
            m.fields@.len() == 3,
            m.fields@[0].name == FieldName::ConversationHistory,
            m.fields@[0].kind == FieldKind::Input,
            m.fields@[0].value@ == spec_render(history@),
            m.fields@[1].name == FieldName::UserMessage,
            m.fields@[1].kind == FieldKind::Input,
            m.fields@[1].value@ == turn.message@,
            m.fields@[2].name == FieldName::SearchResults,
            m.fields@[2].kind == FieldKind::Input,
            m.fields@[2].value@ == turn.phase@->context,
            names_unique(m.fields@),
            self.wf() ==> spec_input_conforms(self.personality.schema.fields@, m.fields@),
    {
        let rendered = history.render();
        let context: String = match &turn.phase {
            TurnPhase::Synthesizing { context } => context.clone(),
            _ => {
                proof {
                    assert(false);
                }
                String::new()
            },
        };
        let mut fields: Vec<MessageField> = Vec::new();
        fields.push(
            MessageField {
                name: FieldName::ConversationHistory,
                kind: FieldKind::Input,
                value: rendered,
            },
        );
        fields.push(
            MessageField {
                name: FieldName::UserMessage,
                kind: FieldKind::Input,
                value: turn.message.clone(),
            },
        );
        fields.push(
            MessageField { name: FieldName::SearchResults, kind: FieldKind::Input, value: context },
        );
        StructuredMessage { fields }
    }
}

} // verus!
