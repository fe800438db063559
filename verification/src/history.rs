//! The conversation history store: an ordered, append-only log of prior
//! turns, owned by one conversation session. The orchestrator appends one
//! User turn and one Assistant turn after each completed exchange, so a
//! well-formed history always alternates speakers and has even length. The
//! structured log is the source of truth; it is rendered to flat text (one
//! "Speaker: text" line per turn) only at the synthesizer call boundary.

use vstd::prelude::*;
use vstd::string::*;

verus! {

/// Who produced a turn of the conversation.
#[derive(Clone, Copy, Debug, PartialEq, Eq, Structural)]
pub enum Speaker {
    User,
    Assistant,
}

/// One utterance of the conversation: who spoke, and what was said.
#[derive(Clone, Debug)]
pub struct ConversationTurn {
    pub speaker: Speaker,
    pub text: String,
}

/// An ordered, append-only log of conversation turns.
pub struct ConversationHistory {
    turns: Vec<ConversationTurn>,
}

impl View for ConversationHistory {
    type V = Seq<ConversationTurn>;

    closed spec fn view(&self) -> Seq<ConversationTurn> {
        self.turns@
    }
}

/// Speakers alternate, starting with the user.
pub open spec fn alternating(h: Seq<ConversationTurn>) -> bool {
    forall|i: int|
        0 <= i < h.len() ==> h[i].speaker == (if i % 2 == 0 {
            Speaker::User
        } else {
            Speaker::Assistant
        })
}

/// Every entry belongs to a completed exchange: the log pairs a User turn
/// with the Assistant turn that answered it, in chronological order.
pub open spec fn well_formed(h: Seq<ConversationTurn>) -> bool {
    h.len() % 2 == 0 && alternating(h)
}

/// The text a speaker renders to.
pub open spec fn spec_speaker_text(s: Speaker) -> Seq<char> {
    match s {
        Speaker::User => "User"@,
        Speaker::Assistant => "Assistant"@,
    }
}

/// The line one turn renders to: "Speaker: text".
pub open spec fn spec_render_turn(t: ConversationTurn) -> Seq<char> {
    spec_speaker_text(t.speaker) + ": "@ + t.text@
}

/// The flat text a whole history renders to: one line per turn, joined by
/// newlines, empty for an empty history.
pub open spec fn spec_render(h: Seq<ConversationTurn>) -> Seq<char>
    decreases h.len(),
{
    if h.len() == 0 {
        Seq::empty()
    } else if h.len() == 1 {
        spec_render_turn(h[0])
    } else {
        spec_render(h.drop_last()) + "\n"@ + spec_render_turn(h.last())
    }
}

/// An empty history is well formed.
pub proof fn lemma_empty_well_formed()
    ensures
        well_formed(Seq::<ConversationTurn>::empty()),
{
}

/// Appending one completed exchange (a User turn, then the Assistant turn
/// that answered it) keeps a history well formed and grows it by exactly two
/// entries; so after N successful turns a history built from empty holds
/// exactly 2N entries, alternating User, Assistant, in call order.
pub proof fn lemma_exchange_preserves_well_formed(
    h: Seq<ConversationTurn>,
    u: ConversationTurn,
    a: ConversationTurn,
)
    requires
        well_formed(h),
        u.speaker == Speaker::User,
        a.speaker == Speaker::Assistant,
    ensures
        well_formed(h.push(u).push(a)),
        h.push(u).push(a).len() == h.len() + 2,
{
    let h2 = h.push(u).push(a);
    assert forall|i: int| 0 <= i < h2.len() implies h2[i].speaker == (if i % 2 == 0 {
        Speaker::User
    } else {
        Speaker::Assistant
    }) by {
        if i < h.len() {
            assert(h2[i] == h[i]);
        } else if i == h.len() {
            assert(h2[i] == u);
        } else {
            assert(h2[i] == a);
        }
    }
}

/// The static label a speaker renders to.
fn speaker_label(s: Speaker) -> (l: &'static str)
    ensures
        l@ == spec_speaker_text(s),
{
    match s {
        Speaker::User => "User",
        Speaker::Assistant => "Assistant",
    }
}

/// Rendering a one-longer prefix appends a separator (after the first line)
/// and the next turn's line.
proof fn lemma_render_step(s: Seq<ConversationTurn>, i: int)
    requires
        0 <= i < s.len(),
    ensures
        spec_render(s.take(i + 1)) == if i == 0 {
            spec_render_turn(s[0])
        } else {
            spec_render(s.take(i)) + "\n"@ + spec_render_turn(s[i])
        },
{
    let t = s.take(i + 1);
    if i == 0 {
        assert(t.len() == 1);
        assert(t[0] == s[0]);
    } else {
        assert(t.drop_last() =~= s.take(i));
        assert(t.last() == s[i]);
    }
}

impl ConversationHistory {
    /// A fresh, empty history.
    pub fn new() -> (h: ConversationHistory)
        ensures
            h@.len() == 0,
            well_formed(h@),
    {
        ConversationHistory { turns: Vec::new() }
    }

    /// How many turns the history holds.
    pub fn len(&self) -> (n: usize)
        ensures
            n == self@.len(),
    {
        self.turns.len()
    }

    /// Read one turn of the log.
    pub fn turn_at(&self, i: usize) -> (t: &ConversationTurn)
        requires
            i < self@.len(),
        ensures
            *t == self@[i as int],
    {
        &self.turns[i]
    }

    /// Append one completed exchange: the user's message, then the
    /// assistant's response. Nothing already logged changes.
    pub fn push_exchange(&mut self, user_text: String, assistant_text: String)
        ensures
            final(self)@.len() == old(self)@.len() + 2,
            forall|i: int| 0 <= i < old(self)@.len() ==> final(self)@[i] == old(self)@[i],
            final(self)@[old(self)@.len() as int].speaker == Speaker::User,
            final(self)@[old(self)@.len() as int].text == user_text,
            final(self)@[old(self)@.len() as int + 1].speaker == Speaker::Assistant,
            final(self)@[old(self)@.len() as int + 1].text == assistant_text,
            well_formed(old(self)@) ==> well_formed(final(self)@),
    {
        let u = ConversationTurn { speaker: Speaker::User, text: user_text };
        let a = ConversationTurn { speaker: Speaker::Assistant, text: assistant_text };
        proof {
            if well_formed(self.turns@) {
                lemma_exchange_preserves_well_formed(self.turns@, u, a);
            }
        }
        self.turns.push(u);
        self.turns.push(a);
    }

    /// Render the history to flat text, one "Speaker: text" line per turn,
    /// newest last, for the synthesizer call boundary.
    pub fn render(&self) -> (out: String)
        ensures
            out@ == spec_render(self@),
    {
        let mut out = String::new();
        let mut i: usize = 0;
        while i < self.turns.len()
            invariant
                i <= self.turns@.len(),
                out@ == spec_render(self.turns@.take(i as int)),
            decreases self.turns@.len() - i,
        {
            if i > 0 {
                out.append("\n");
            }
            let turn = &self.turns[i];
            out.append(speaker_label(turn.speaker));
            out.append(": ");
            out.append(turn.text.as_str());
            proof {
                lemma_render_step(self.turns@, i as int);
                assert(out@ =~= spec_render(self.turns@.take(i as int + 1)));
            }
            i = i + 1;
        }
        proof {
            assert(self.turns@.take(self.turns@.len() as int) =~= self.turns@);
        }
        out
    }
}

} // verus!
