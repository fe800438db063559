//! The orchestrator's state machine for one turn: classify the message,
//! retrieve context when (and only when) the intent asks for it, synthesize
//! the reply, and log the completed exchange. A turn degrades gracefully:
//! classification failure routes straight to synthesis, retrieval failure
//! empties the context, and only synthesis failure fails the turn — the one
//! stage that produces the user-visible output has no fallback. The stages
//! themselves suspend on outside calls, so each stage's outcome is handed to
//! the machine as a plain value and the machine decides the next state.

use vstd::prelude::*;
use crate::intent::{IntentLabel, intent_of, normalize_intent};
use crate::history::{ConversationHistory, ConversationTurn, Speaker, well_formed};

verus! {

/// Where one turn stands in the pipeline.
pub enum TurnPhase {
    /// Waiting for the intent classifier's outcome.
    Classifying,
    /// The intent called for retrieval; waiting for the retrieval tool.
    Searching,
    /// Waiting for the response synthesizer, with the retrieved context
    /// (empty when retrieval was skipped or failed).
    Synthesizing { context: String },
    /// The synthesizer produced the final reply.
    Done { response: String },
    /// Synthesis failed; the turn failed.
    Failed,
}

/// The mathematical shadow of `TurnPhase`, with text as character sequences.
pub enum PhaseView {
    Classifying,
    Searching,
    Synthesizing { context: Seq<char> },
    Done { response: Seq<char> },
    Failed,
}

impl View for TurnPhase {
    type V = PhaseView;

    open spec fn view(&self) -> PhaseView {
        match self {
            TurnPhase::Classifying => PhaseView::Classifying,
            TurnPhase::Searching => PhaseView::Searching,
            TurnPhase::Synthesizing { context } => PhaseView::Synthesizing { context: context@ },
            TurnPhase::Done { response } => PhaseView::Done { response: response@ },
            TurnPhase::Failed => PhaseView::Failed,
        }
    }
}

/// The one error a turn can surface: synthesis failed. Classification and
/// retrieval failures are recovered inside the turn and never reach the
/// caller as errors.
#[derive(Clone, Copy, Debug, PartialEq, Eq, Structural)]
pub enum TurnError {
    SynthesisFailed,
}

/// The outcome of a stage whose collaborator returns text, as a sequence:
/// the text on success, nothing on failure.
pub open spec fn text_outcome(o: Option<String>) -> Option<Seq<char>> {
    match o {
        Some(s) => Some(s@),
        None => None,
    }
}

/// The outcome of the two-stage retrieval tool, as sequences: the extracted
/// query and the retrieved text on success, nothing on failure at either
/// sub-stage.
pub open spec fn retrieval_outcome(o: Option<(String, String)>) -> Option<(Seq<char>, Seq<char>)> {
    match o {
        Some(qr) => Some((qr.0@, qr.1@)),
        None => None,
    }
}

/// A turn's result, as sequences.
pub open spec fn turn_result(r: Result<String, TurnError>) -> Result<Seq<char>, TurnError> {
    match r {
        Ok(s) => Ok(s@),
        Err(e) => Err(e),
    }
}

/// The classifier outcome called for retrieval: the call succeeded and its
/// output normalizes to `Search`.
pub open spec fn said_search(outcome: Option<Seq<char>>) -> bool {
    match outcome {
        Some(raw) => intent_of(raw) == IntentLabel::Search,
        None => false,
    }
}

/// Where classification sends the turn: to retrieval exactly when the
/// classifier asked for it, otherwise straight to synthesis with empty
/// context — a failed classifier call degrades, it does not abort the turn.
pub open spec fn classify_step(outcome: Option<Seq<char>>) -> PhaseView {
    if said_search(outcome) {
        PhaseView::Searching
    } else {
        PhaseView::Synthesizing { context: Seq::empty() }
    }
}

/// Where retrieval sends the turn: always to synthesis, with the retrieved
/// text verbatim as context on success and empty context on failure.
pub open spec fn retrieve_step(outcome: Option<(Seq<char>, Seq<char>)>) -> PhaseView {
    match outcome {
        Some(qr) => PhaseView::Synthesizing { context: qr.1 },
        None => PhaseView::Synthesizing { context: Seq::empty() },
    }
}

/// Where synthesis sends the turn: done with the response, or failed — the
/// one stage without a fallback.
pub open spec fn synthesize_step(outcome: Option<Seq<char>>) -> PhaseView {
    match outcome {
        Some(r) => PhaseView::Done { response: r },
        None => PhaseView::Failed,
    }
}

/// What a finished turn returns to the caller.
pub open spec fn turn_outcome(phase: PhaseView) -> Result<Seq<char>, TurnError> {
    match phase {
        PhaseView::Done { response } => Ok(response),
        _ => Err(TurnError::SynthesisFailed),
    }
}

/// One turn in flight: the user's message and where the pipeline stands.
/// Stages run strictly in sequence; each `on_*` step consumes one stage
/// outcome and moves the phase forward.
pub struct TurnState {
    pub message: String,
    pub phase: TurnPhase,
}

impl TurnState {
    /// Accept a user message; the turn starts by classifying it.
    pub fn begin(message: String) -> (t: TurnState)
        ensures
            t.message == message,
            t.phase@ == PhaseView::Classifying,
    {
        TurnState { message, phase: TurnPhase::Classifying }
    }

    /// Consume the classifier's outcome: its raw output on success, nothing
    /// if the call failed. The turn enters retrieval exactly when the output
    /// normalizes to `Search`; any other output, and a failed call, route
    /// straight to synthesis with empty context.
    pub fn on_classified(&mut self, outcome: Option<String>)
        requires
            old(self).phase@ == PhaseView::Classifying,
        ensures
            final(self).message == old(self).message,
            final(self).phase@ == classify_step(text_outcome(outcome)),
            final(self).phase@ == PhaseView::Searching <==> said_search(text_outcome(outcome)),
    {
        match outcome {
            Some(raw) => {
                match normalize_intent(raw.as_str()) {
                    IntentLabel::Search => {
                        self.phase = TurnPhase::Searching;
                    },
                    IntentLabel::Chat => {
                        self.phase = TurnPhase::Synthesizing { context: String::new() };
                    },
                }
            },
            None => {
                self.phase = TurnPhase::Synthesizing { context: String::new() };
            },
        }
    }

    /// Consume the retrieval tool's outcome: the extracted query and the
    /// retrieved text on success, nothing if either sub-stage failed. Either
    /// way the turn proceeds to synthesis — on success with the retrieved
    /// text verbatim as context, on failure with empty context.
    pub fn on_retrieved(&mut self, outcome: Option<(String, String)>)
        requires
            old(self).phase@ == PhaseView::Searching,
        ensures
            final(self).message == old(self).message,
            final(self).phase@ == retrieve_step(retrieval_outcome(outcome)),
    {
        match outcome {
            Some(qr) => {
                self.phase = TurnPhase::Synthesizing { context: qr.1 };
            },
            None => {
                self.phase = TurnPhase::Synthesizing { context: String::new() };
            },
        }
    }

    /// Consume the synthesizer's outcome: the final reply on success,
    /// nothing on failure. Synthesis is the one stage whose failure fails
    /// the turn.
    pub fn on_synthesized(&mut self, outcome: Option<String>)
        requires
            old(self).phase@ is Synthesizing,
        ensures
            final(self).message == old(self).message,
            final(self).phase@ == synthesize_step(text_outcome(outcome)),
    {
        match outcome {
            Some(r) => {
                self.phase = TurnPhase::Done { response: r };
            },
            None => {
                self.phase = TurnPhase::Failed;
            },
        }
    }
}

/// One conversation session: its history, owned exclusively, mutated only
/// when a turn completes and discarded when the session ends.
pub struct Session {
    history: ConversationHistory,
}

impl View for Session {
    type V = Seq<ConversationTurn>;

    closed spec fn view(&self) -> Seq<ConversationTurn> {
        self.history@
    }
}

impl Session {
    /// Read the session's history, e.g. to render it for synthesis.
    pub fn history(&self) -> (h: &ConversationHistory)
        ensures
            h@ == self@,
    {
        &self.history
    }

    /// Settle a finished turn. A completed turn appends exactly one
    /// User/Assistant exchange to the history and returns the response; a
    /// failed turn returns the error and leaves no trace in the history.
    pub fn finish_turn(&mut self, turn: TurnState) -> (r: Result<String, TurnError>)
        requires
            turn.phase@ is Done || turn.phase@ is Failed,
        ensures
            turn_result(r) == turn_outcome(turn.phase@),
            turn.phase@ matches PhaseView::Done { response } ==> {
                &&& final(self)@.len() == old(self)@.len() + 2
                &&& forall|i: int| 0 <= i < old(self)@.len() ==> final(self)@[i] == old(self)@[i]
                &&& final(self)@[old(self)@.len() as int].speaker == Speaker::User
                &&& final(self)@[old(self)@.len() as int].text@ == turn.message@
                &&& final(self)@[old(self)@.len() as int + 1].speaker == Speaker::Assistant
                &&& final(self)@[old(self)@.len() as int + 1].text@ == response
            },
            turn.phase@ is Failed ==> final(self)@ == old(self)@ && r == Err::<
                String,
                TurnError,
            >(TurnError::SynthesisFailed),
            well_formed(old(self)@) ==> well_formed(final(self)@),
    {
        match turn.phase {
            TurnPhase::Done { response } => {
                let reply = response.clone();
                self.history.push_exchange(turn.message, response);
                Ok(reply)
            },
            TurnPhase::Failed => Err(TurnError::SynthesisFailed),
            _ => {
                proof {
                    assert(false);
                }
                Err(TurnError::SynthesisFailed)
            },
        }
    }

    /// End the session: the history is discarded, nothing persists.
    pub fn end(self) {
    }
}

/// Open a session with an empty, well-formed history.
pub fn create_session() -> (s: Session)
    ensures
        s@.len() == 0,
        well_formed(s@),
{
    Session { history: ConversationHistory::new() }
}

/// Close a session, discarding its history.
pub fn end_session(s: Session) {
    s.end();
}

/// A turn whose classifier outcome does not normalize to `Search` — Chat
/// output, or a failed classifier call — never enters retrieval: it routes
/// straight to synthesis with empty context. Retrieval is entered exactly
/// when the classifier said so.
pub proof fn lemma_chat_never_retrieves(outcome: Option<Seq<char>>)
    ensures
        classify_step(outcome) == PhaseView::Searching <==> said_search(outcome),
        !said_search(outcome) ==> classify_step(outcome) == (PhaseView::Synthesizing {
            context: Seq::<char>::empty(),
        }),
{
}

/// When retrieval succeeds, the context handed to synthesis is the
/// retrieval function's output, verbatim.
pub proof fn lemma_retrieval_context_verbatim(query: Seq<char>, retrieved: Seq<char>)
    ensures
        retrieve_step(Some((query, retrieved))) == (PhaseView::Synthesizing {
            context: retrieved,
        }),
{
}

/// A failed classifier call alone never fails the turn: it routes to
/// synthesis with empty context, and whenever synthesis succeeds the turn
/// completes with the synthesized response.
pub proof fn lemma_classifier_failure_recovered(response: Seq<char>)
    ensures
        classify_step(None) == (PhaseView::Synthesizing { context: Seq::<char>::empty() }),
        turn_outcome(synthesize_step(Some(response))) == Ok::<Seq<char>, TurnError>(response),
{
}

/// A failed retrieval (either sub-stage) never fails the turn: synthesis
/// proceeds with empty context, and whenever synthesis succeeds the turn
/// completes with the synthesized response.
pub proof fn lemma_retrieval_failure_recovered(response: Seq<char>)
    ensures
        retrieve_step(None) == (PhaseView::Synthesizing { context: Seq::<char>::empty() }),
        turn_outcome(synthesize_step(Some(response))) == Ok::<Seq<char>, TurnError>(response),
{
}

/// A failed synthesis fails the whole turn: the caller sees the error, and
/// (by `Session::finish_turn`) the history shows no new entries.
pub proof fn lemma_synthesis_failure_fatal()
    ensures
        synthesize_step(None) == PhaseView::Failed,
        turn_outcome(PhaseView::Failed) == Err::<Seq<char>, TurnError>(TurnError::SynthesisFailed),
{
}

} // verus!
