//! Conversation orchestration: the ordered, append-only message history,
//! the per-call request message list, and the consumer-side bookkeeping of
//! one streamed turn.
//!
//! The history mutates at exactly two points: the user's turn is appended
//! before the call, and the assistant's turn — the accumulated response —
//! after stream completion. A terminal error commits nothing.

use vstd::prelude::*;
use crate::error::GenerationError;
use crate::message::{Message, Role};

verus! {

/// One token forwarded to the UI boundary.
#[derive(Debug, Clone)]
pub struct StreamEvent {
    pub token: String,
}

/// A terminal error forwarded to the UI boundary; the call is over.
#[derive(Debug, Clone)]
pub struct ErrorEvent {
    pub error: String,
}

/// The completion event: the stream ended without error.
#[derive(Debug, Clone)]
pub struct DoneEvent {}

/// The ordered conversation history, owned by the orchestrator. It grows by
/// one user turn before each call and one assistant turn after a completed
/// stream; it is never reordered, rewritten or truncated here.
pub struct ConversationState {
    pub history: Vec<Message>,
}

impl Default for ConversationState {
    /// An empty history.
    fn default() -> (c: Self)
        ensures
            c.history@ == Seq::<Message>::empty(),
    {
        ConversationState { history: Vec::new() }
    }
}

impl ConversationState {
    pub fn new() -> (c: ConversationState)
        ensures
            c.history@ == Seq::<Message>::empty(),
    {
        ConversationState { history: Vec::new() }
    }

    /// Appends the user's turn: the sole history mutation before a call.
    pub fn record_user(&mut self, content: String)
        ensures
            final(self).history@ == old(self).history@.push(
                Message { role: Role::User, content },
            ),
    {
        self.history.push(Message { role: Role::User, content });
    }

    /// The request message list of one call: the system prompt as the first
    /// message, then the full history in order, verbatim.
    pub fn request_messages(&self, system_prompt: String) -> (ms: Vec<Message>)
        ensures
            ms@ == seq![Message { role: Role::System, content: system_prompt }] + self.history@,
    {
        let mut ms: Vec<Message> = Vec::new();
        ms.push(Message { role: Role::System, content: system_prompt });
        let n = self.history.len();
        let mut i: usize = 0;
        while i < n
            invariant
                n == self.history@.len(),
                i <= n,
                ms@ == seq![Message { role: Role::System, content: system_prompt }]
                    + self.history@.take(i as int),
            decreases n - i,
        {
            let m = self.history[i].duplicate();
            ms.push(m);
            proof {
                assert(self.history@.take(i + 1) =~= self.history@.take(i as int).push(
                    self.history@[i as int],
                ));
                assert(ms@ =~= seq![Message { role: Role::System, content: system_prompt }]
                    + self.history@.take(i + 1));
            }
            i = i + 1;
        }
        proof {
            assert(self.history@.take(n as int) =~= self.history@);
        }
        ms
    }

    /// Appends the assistant's turn: the sole history mutation after a call.
    pub fn commit_assistant(&mut self, content: String)
        ensures
            final(self).history@ == old(self).history@.push(
                Message { role: Role::Assistant, content },
            ),
    {
        self.history.push(Message { role: Role::Assistant, content });
    }
}

/// Consumer-side bookkeeping of one streamed call: each fragment is turned
/// into the token event forwarded to the UI boundary and appended to the
/// accumulator; a completed stream commits the accumulator as the
/// assistant's turn.
pub struct ChatTurn {
    acc: String,
    frags: Ghost<Seq<Seq<char>>>,
}

impl ChatTurn {
    /// The accumulated response.
    pub closed spec fn spec_acc(&self) -> Seq<char> {
        self.acc@
    }

    /// The fragments consumed so far, in order.
    pub closed spec fn spec_frags(&self) -> Seq<Seq<char>> {
        self.frags@
    }

    /// The accumulator is always exactly the concatenation of the fragments
    /// consumed so far.
    pub open spec fn wf(&self) -> bool {
        self.spec_acc() == self.spec_frags().flatten()
    }

    pub fn new() -> (t: ChatTurn)
        ensures
            t.wf(),
            t.spec_frags() == Seq::<Seq<char>>::empty(),
            t.spec_acc() == Seq::<char>::empty(),
    {
        let t = ChatTurn { acc: String::new(), frags: Ghost(Seq::empty()) };
        proof {
            assert(t.spec_frags().flatten() =~= Seq::<char>::empty());
        }
        t
    }

    /// Consumes one fragment: appends it to the accumulator and returns the
    /// token event to forward, carrying the fragment verbatim.
    pub fn on_fragment(&mut self, fragment: &str) -> (ev: StreamEvent)
        requires
            old(self).wf(),
        ensures
            final(self).wf(),
            final(self).spec_frags() == old(self).spec_frags().push(fragment@),
            final(self).spec_acc() == old(self).spec_acc() + fragment@,
            ev.token@ == fragment@,
    {
        self.acc.append(fragment);
        proof {
            self.frags@ = self.frags@.push(fragment@);
            old(self).spec_frags().lemma_flatten_push(fragment@);
        }
        StreamEvent { token: fragment.to_owned() }
    }

    /// Ends a completed stream: commits the accumulated response as the
    /// assistant's turn and returns the completion event. On a terminal
    /// error this is never called, and the history stays as it was.
    pub fn finish(self, conv: &mut ConversationState) -> (ev: DoneEvent)
        ensures
            final(conv).history@.len() == old(conv).history@.len() + 1,
            final(conv).history@.drop_last() == old(conv).history@,
            final(conv).history@.last().role == Role::Assistant,
            final(conv).history@.last().content@ == self.spec_acc(),
    {
        conv.commit_assistant(self.acc);
        proof {
            assert(conv.history@.drop_last() =~= old(conv).history@);
        }
        DoneEvent {}
    }
}

/// The error event of a terminal error, carrying its rendered message.
pub fn error_event(e: &GenerationError) -> (ev: ErrorEvent)
    ensures
        ev.error@ == e.spec_message(),
{
    ErrorEvent { error: e.message() }
}

/// The accumulated response of a turn reconstructs its fragments exactly:
/// what the history receives is the concatenation, in order, of the
/// fragments the consumer saw.
pub proof fn lemma_turn_reconstructs(t: ChatTurn)
    requires
        t.wf(),
    ensures
        t.spec_acc() == t.spec_frags().flatten(),
{
}

/// End to end over a local call: a turn that consumed exactly the fragments
/// a generation session handed out accumulates exactly the session's
/// generated text — the kept token texts in order, end tags excluded.
pub proof fn lemma_call_reconstructs(s: crate::local::GenerationSession, t: ChatTurn)
    requires
        s.wf(),
        t.wf(),
        t.spec_frags() == s.spec_emitted(),
    ensures
        t.spec_acc() == s.generated_text(),
{
}

} // verus!
