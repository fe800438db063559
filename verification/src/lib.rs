//! A conversational orchestration pipeline: a user message is routed through
//! an intent classifier, a retrieval tool is invoked when (and only when) the
//! intent calls for it, and a response synthesizer produces the final reply,
//! aware of the conversation history. The language-model calls themselves are
//! opaque collaborators; this library holds the routing decisions, the
//! structured payloads handed to each predictor, and the history bookkeeping.

pub mod agent;
pub mod binding;
pub mod history;
pub mod intent;
pub mod message;
pub mod orchestrator;
