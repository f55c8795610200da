//! Local generation engine: the per-call logic of driving a natively loaded
//! model through an autoregressive decode loop.
//!
//! The native backend (model loading, tokenization, decoding, sampling) runs
//! outside this crate on a dedicated worker thread. What is decided here, and
//! proved: the model path is probed before any backend work; the prompt is a
//! fixed, deterministic rendering of the message list; the sampler mode is
//! chosen once per call by the epsilon rule; and each sampled token passes
//! through `GenerationSession::step`, which bounds the call's length, swallows
//! end tags, and accounts for every fragment that may be emitted.

use vstd::prelude::*;
use crate::error::GenerationError;
use crate::message::{Message, Role, Temperature};
use crate::paths::path_exists;

verus! {

/// Token capacity of the generation context allocated for one call; a prompt
/// that does not fit is a fatal error for the call, never silently truncated.
pub const CONTEXT_WINDOW_TOKENS: usize = 2048;

/// Token capacity of one decode batch.
pub const BATCH_CAPACITY_TOKENS: usize = 512;

/// Upper bound on the tokens generated in one call.
pub const MAX_GENERATION_TOKENS: u32 = 512;

/// Capacity of the bounded queue between the generation worker and the async
/// consumer; a full queue stalls the producer, which is the backpressure.
pub const STREAM_CHANNEL_CAPACITY: usize = 32;

/// A local completion provider: the path of the model file. Each call loads
/// its own backend, model and context; nothing is kept across calls.
#[derive(Debug, Clone)]
pub struct LocalLLMProvider {
    pub model_path: String,
}

impl LocalLLMProvider {
    /// Probes the model path before any backend work, so a missing file
    /// fails fast: a provider is returned only for a path that was present.
    pub fn new(model_path: &str) -> (r: Result<LocalLLMProvider, GenerationError>)
        ensures
            r matches Ok(p) ==> p.model_path@ == model_path@,
            r matches Err(e) ==> e matches GenerationError::ModelLoadError { message } && message@
                == spec_missing_model_message(model_path@),
    {
        if path_exists(model_path) {
            Ok(LocalLLMProvider { model_path: model_path.to_owned() })
        } else {
            let mut message = "Model file not found: ".to_owned();
            message.append(model_path);
            proof {
                assert(message@ =~= spec_missing_model_message(model_path@));
            }
            Err(GenerationError::ModelLoadError { message })
        }
    }
}

/// The message reported for a model path with nothing on disk behind it.
pub open spec fn spec_missing_model_message(path: Seq<char>) -> Seq<char> {
    "Model file not found: "@ + path
}

/// One message rendered in the fixed chat template.
pub open spec fn spec_render_message(m: Message) -> Seq<char> {
    match m.role {
        Role::System => "<start_of_turn>user\nSystem instruction: "@ + m.content@
            + "<end_of_turn>\n"@,
        Role::User => "<start_of_turn>user\n"@ + m.content@ + "<end_of_turn>\n"@,
        Role::Assistant => "<start_of_turn>model\n"@ + m.content@ + "<end_of_turn>\n"@,
    }
}

/// The messages rendered in order.
pub open spec fn spec_rendered(ms: Seq<Message>) -> Seq<char>
    decreases ms.len(),
{
    if ms.len() == 0 {
        Seq::empty()
    } else {
        spec_rendered(ms.drop_last()) + spec_render_message(ms.last())
    }
}

/// The whole prompt: every message rendered in order, closed by an open
/// model turn that signals the model to generate.
pub open spec fn spec_chat_prompt(ms: Seq<Message>) -> Seq<char> {
    spec_rendered(ms) + "<start_of_turn>model\n"@
}

/// Renders the ordered message list into the model's prompt, a pure function
/// of the list: a labeled instruction turn for a system message, user and
/// model turns otherwise, and a trailing open model turn.
pub fn format_chat_prompt(messages: &[Message]) -> (p: String)
    ensures
        p@ == spec_chat_prompt(messages@),
{
    let mut p = String::new();
    let n = messages.len();
    let mut i: usize = 0;
    while i < n
        invariant
            n == messages@.len(),
            i <= n,
            p@ == spec_rendered(messages@.take(i as int)),
        decreases n - i,
    {
        let m = vstd::slice::slice_index_get(messages, i);
        match m.role {
            Role::System => {
                p.append("<start_of_turn>user\nSystem instruction: ");
                p.append(m.content.as_str());
                p.append("<end_of_turn>\n");
            },
            Role::User => {
                p.append("<start_of_turn>user\n");
                p.append(m.content.as_str());
                p.append("<end_of_turn>\n");
            },
            Role::Assistant => {
                p.append("<start_of_turn>model\n");
                p.append(m.content.as_str());
                p.append("<end_of_turn>\n");
            },
        }
        proof {
            assert(messages@.take(i + 1).drop_last() =~= messages@.take(i as int));
            assert(messages@.take(i + 1).last() == messages@[i as int]);
            assert(p@ =~= spec_rendered(messages@.take(i + 1)));
        }
        i = i + 1;
    }
    proof {
        assert(messages@.take(n as int) =~= messages@);
    }
    p.append("<start_of_turn>model\n");
    p
}

/// `t` occurs in `s` starting at position `i`.
pub open spec fn spec_match_at(s: Seq<char>, t: Seq<char>, i: int) -> bool {
    0 <= i && i + t.len() <= s.len() && s.subrange(i, i + t.len()) == t
}

/// `t` occurs somewhere in `s`.
pub open spec fn spec_contains_text(s: Seq<char>, t: Seq<char>) -> bool {
    exists|i: int| spec_match_at(s, t, i)
}

/// Substring search, proved against `spec_contains_text`.
pub fn contains_text(s: &str, t: &str) -> (b: bool)
    ensures
        b == spec_contains_text(s@, t@),
{
    let n = s.unicode_len();
    let m = t.unicode_len();
    if m > n {
        return false;
    }
    let mut i: usize = 0;
    while i <= n - m
        invariant
            m <= n,
            n == s@.len(),
            m == t@.len(),
            i <= n - m + 1,
            forall|j: int| 0 <= j < i ==> !spec_match_at(s@, t@, j),
        decreases n - m + 1 - i,
    {
        let mut k: usize = 0;
        let mut matched = true;
        while matched && k < m
            invariant
                k <= m,
                i + m <= n,
                n == s@.len(),
                m == t@.len(),
                matched ==> forall|l: int| 0 <= l < k ==> s@[i + l] == t@[l],
                !matched ==> exists|l: int| 0 <= l < m && s@[i + l] != t@[l],
            decreases m - k,
        {
            if s.get_char(i + k) != t.get_char(k) {
                matched = false;
            }
            k = k + 1;
        }
        if matched {
            proof {
                assert(s@.subrange(i as int, i + m) =~= t@);
                assert(spec_match_at(s@, t@, i as int));
            }
            return true;
        }
        proof {
            let l = choose|l: int| 0 <= l < m && s@[i + l] != t@[l];
            if s@.subrange(i as int, i + m) == t@ {
                assert(s@.subrange(i as int, i + m)[l] == s@[i + l]);
            }
            assert(!spec_match_at(s@, t@, i as int));
        }
        i = i + 1;
    }
    proof {
        assert forall|j: int| 0 <= j && j + t@.len() <= s@.len() implies !spec_match_at(
            s@,
            t@,
            j,
        ) by {
            assert(j < i);
        }
    }
    false
}

/// Whether a decoded token text carries a model end tag. Such a token ends
/// generation, and its text is swallowed rather than emitted.
pub open spec fn spec_has_stop_tag(s: Seq<char>) -> bool {
    spec_contains_text(s, "<end_of_turn>"@) || spec_contains_text(s, "<eos>"@)
}

/// Tests a decoded token text for the model's textual end tags.
pub fn has_stop_tag(s: &str) -> (b: bool)
    ensures
        b == spec_has_stop_tag(s@),
{
    contains_text(s, "<end_of_turn>") || contains_text(s, "<eos>")
}

/// How one call samples: chosen once per call, never per token.
#[derive(Clone, Copy, Debug, PartialEq, Eq, Structural)]
pub enum SamplerMode {
    /// Deterministic: the most probable token, always.
    Greedy,
    /// Temperature-scaled stochastic sampling.
    TemperatureSampling,
}

/// The epsilon rule: below `TEMPERATURE_EPSILON_MILLI` the call is greedy.
pub open spec fn spec_sampler_mode(t: Temperature) -> SamplerMode {
    if t.spec_is_deterministic() {
        SamplerMode::Greedy
    } else {
        SamplerMode::TemperatureSampling
    }
}

/// Selects the sampling mode for one call from its temperature. A
/// temperature below the epsilon selects greedy sampling, which is
/// deterministic: the same prompt and model state yield the same output.
pub fn sampler_mode(t: Temperature) -> (m: SamplerMode)
    ensures
        m == spec_sampler_mode(t),
{
    if t.is_deterministic() {
        SamplerMode::Greedy
    } else {
        SamplerMode::TemperatureSampling
    }
}

/// Whether a tokenized prompt fits the generation context; one that does not
/// is a fatal error for the call.
pub fn prompt_fits(n_tokens: usize) -> (b: bool)
    ensures
        b == (n_tokens <= CONTEXT_WINDOW_TOKENS),
{
    n_tokens <= CONTEXT_WINDOW_TOKENS
}

/// What the driver does with one sampled token.
#[derive(Debug)]
pub enum StepOutcome {
    /// Deliver this fragment to the consumer, then decode the token.
    Emit(String),
    /// Nothing to deliver; decode the token and continue.
    Advance,
    /// Generation is over; deliver nothing further.
    Finished,
}

/// The per-call decision state of the autoregressive loop. The worker that
/// drives the native backend asks it what to do with each sampled token; the
/// session bounds the call's length, swallows end tags, decides what is
/// emitted, and accounts for the whole of the call's output.
pub struct GenerationSession {
    produced: u32,
    done: bool,
    tokens: Ghost<Seq<Seq<char>>>,
    emitted: Ghost<Seq<Seq<char>>>,
}

impl GenerationSession {
    /// Sampled tokens processed so far.
    pub closed spec fn spec_produced(&self) -> nat {
        self.produced as nat
    }

    /// Whether the call is over (end marker, end tag, or cancellation).
    pub closed spec fn spec_done(&self) -> bool {
        self.done
    }

    /// The kept token texts, in order: every sampled token that did not end
    /// generation, including empty ones.
    pub closed spec fn spec_tokens(&self) -> Seq<Seq<char>> {
        self.tokens@
    }

    /// The fragments handed out for delivery, in order.
    pub closed spec fn spec_emitted(&self) -> Seq<Seq<char>> {
        self.emitted@
    }

    /// The model's generated text: the kept token texts concatenated.
    pub open spec fn generated_text(&self) -> Seq<char> {
        self.spec_tokens().flatten()
    }

    /// Invariant of every session: the call is bounded, and the emitted
    /// fragments are exactly the nonempty kept token texts — their
    /// concatenation is the generated text, and none carries an end tag.
    pub open spec fn wf(&self) -> bool {
        &&& self.spec_produced() <= MAX_GENERATION_TOKENS
        &&& self.spec_tokens().len() <= self.spec_produced()
        &&& self.spec_emitted().len() <= self.spec_tokens().len()
        &&& self.spec_emitted().flatten() == self.generated_text()
        &&& forall|i: int|
            0 <= i < self.spec_emitted().len() ==> !spec_has_stop_tag(
                #[trigger] self.spec_emitted()[i],
            ) && self.spec_emitted()[i].len() > 0
        &&& forall|i: int|
            0 <= i < self.spec_tokens().len() ==> !spec_has_stop_tag(
                #[trigger] self.spec_tokens()[i],
            )
    }

    /// Whether the loop may take another iteration.
    pub open spec fn spec_live(&self) -> bool {
        !self.spec_done() && self.spec_produced() < MAX_GENERATION_TOKENS
    }

    pub fn new() -> (s: GenerationSession)
        ensures
            s.wf(),
            s.spec_live(),
            s.spec_produced() == 0,
            s.spec_tokens() == Seq::<Seq<char>>::empty(),
            s.spec_emitted() == Seq::<Seq<char>>::empty(),
    {
        let s = GenerationSession {
            produced: 0,
            done: false,
            tokens: Ghost(Seq::empty()),
            emitted: Ghost(Seq::empty()),
        };
        proof {
            assert(s.spec_emitted().flatten() =~= s.generated_text());
        }
        s
    }

    /// Whether to sample another token: the loop's sole continuation test,
    /// so a call never exceeds the configured maximum token count.
    pub fn live(&self) -> (b: bool)
        ensures
            b == self.spec_live(),
    {
        !self.done && self.produced < MAX_GENERATION_TOKENS
    }

    /// Decides one iteration, given the sampled token's backend end-marker
    /// flag and its decoded text. An end marker or a text carrying an end
    /// tag finishes the call with nothing emitted; an empty text advances
    /// silently; anything else is emitted verbatim.
    pub fn step(&mut self, is_eog: bool, text: String) -> (o: StepOutcome)
        requires
            old(self).wf(),
            old(self).spec_live(),
        ensures
            final(self).wf(),
            ({
                if is_eog || spec_has_stop_tag(text@) {
                    &&& o is Finished
                    &&& final(self).spec_done()
                    &&& final(self).spec_tokens() == old(self).spec_tokens()
                    &&& final(self).spec_emitted() == old(self).spec_emitted()
                    &&& final(self).spec_produced() == old(self).spec_produced()
                } else if text@.len() == 0 {
                    &&& o is Advance
                    &&& !final(self).spec_done()
                    &&& final(self).spec_tokens() == old(self).spec_tokens().push(text@)
                    &&& final(self).spec_emitted() == old(self).spec_emitted()
                    &&& final(self).spec_produced() == old(self).spec_produced() + 1
                } else {
                    &&& o == StepOutcome::Emit(text)
                    &&& !final(self).spec_done()
                    &&& final(self).spec_tokens() == old(self).spec_tokens().push(text@)
                    &&& final(self).spec_emitted() == old(self).spec_emitted().push(text@)
                    &&& final(self).spec_produced() == old(self).spec_produced() + 1
                }
            }),
    {
        if is_eog || has_stop_tag(text.as_str()) {
            self.done = true;
            StepOutcome::Finished
        } else if text.as_str().is_empty() {
            self.produced = self.produced + 1;
            proof {
                self.tokens@ = self.tokens@.push(text@);
            }
            proof {
                old(self).spec_tokens().lemma_flatten_push(text@);
                assert(old(self).spec_tokens().flatten() + text@ =~= old(
                    self,
                ).spec_tokens().flatten());
            }
            StepOutcome::Advance
        } else {
            self.produced = self.produced + 1;
            proof {
                self.tokens@ = self.tokens@.push(text@);
                self.emitted@ = self.emitted@.push(text@);
            }
            proof {
                old(self).spec_tokens().lemma_flatten_push(text@);
                old(self).spec_emitted().lemma_flatten_push(text@);
            }
            StepOutcome::Emit(text)
        }
    }

    /// Notes that a fragment could not be delivered because the consumer
    /// went away: the sole cancellation mechanism, observed once per
    /// generated token. The session is terminal afterwards, so the loop
    /// stops within one token-generation step and emits nothing further.
    pub fn cancel(&mut self)
        requires
            old(self).wf(),
        ensures
            final(self).wf(),
            final(self).spec_done(),
            final(self).spec_tokens() == old(self).spec_tokens(),
            final(self).spec_emitted() == old(self).spec_emitted(),
            final(self).spec_produced() == old(self).spec_produced(),
    {
        self.done = true;
    }
}

/// Concatenating all fragments of a call reconstructs exactly the model's
/// generated text, with end tags excluded and never leaked into any
/// fragment.
pub proof fn lemma_fragments_reconstruct(s: GenerationSession)
    requires
        s.wf(),
    ensures
        s.spec_emitted().flatten() == s.generated_text(),
        forall|i: int|
            0 <= i < s.spec_emitted().len() ==> !spec_has_stop_tag(#[trigger] s.spec_emitted()[i]),
{
}

/// Generation is bounded: a session never processes more sampled tokens, nor
/// hands out more fragments, than the configured maximum per call.
pub proof fn lemma_generation_bounded(s: GenerationSession)
    requires
        s.wf(),
    ensures
        s.spec_tokens().len() <= MAX_GENERATION_TOKENS,
        s.spec_emitted().len() <= MAX_GENERATION_TOKENS,
{
}

} // verus!
