//! The universal input unit of a completion request: a role/content record,
//! plus the fixed-point temperature carried alongside a request.

use vstd::prelude::*;

verus! {

/// Role of a single chat message.
#[derive(Clone, Copy, Debug, PartialEq, Eq, Structural)]
pub enum Role {
    System,
    User,
    Assistant,
}

/// Canonical wire name of a role, as the remote chat endpoint expects it.
pub open spec fn spec_role_name(r: Role) -> Seq<char> {
    match r {
        Role::System => "system"@,
        Role::User => "user"@,
        Role::Assistant => "assistant"@,
    }
}

/// Returns the canonical wire name of a role.
pub fn role_name(r: Role) -> (s: &'static str)
    ensures
        s@ == spec_role_name(r),
{
    match r {
        Role::System => "system",
        Role::User => "user",
        Role::Assistant => "assistant",
    }
}

/// A chat message: immutable once constructed; the ordering of messages
/// within a request is the literal conversation context given to the model.
#[derive(Debug, Clone)]
pub struct Message {
    pub role: Role,
    pub content: String,
}

impl Message {
    pub fn new(role: Role, content: String) -> (m: Message)
        ensures
            m.role == role,
            m.content == content,
    {
        Message { role, content }
    }

    /// A field-for-field copy whose equality with the original is known to
    /// the verifier (a derived `Clone` promises nothing).
    pub fn duplicate(&self) -> (m: Message)
        ensures
            m == *self,
    {
        Message { role: self.role, content: self.content.clone() }
    }
}

/// Role/content record in the wire shape of the remote chat endpoint,
/// and the shape in which the UI boundary hands turns around.
#[derive(Debug, Clone)]
pub struct ChatMessage {
    pub role: String,
    pub content: String,
}

/// Sampling temperatures are carried in thousandths, so that the exact
/// epsilon rule for greedy sampling is a plain integer comparison.
pub const TEMPERATURE_EPSILON_MILLI: u32 = 10;

/// Upper bound of the accepted temperature range (2.0).
pub const TEMPERATURE_MAX_MILLI: u32 = 2000;

/// Sampling temperature in thousandths: `milli == 900` stands for 0.9.
#[derive(Clone, Copy, Debug, PartialEq, Eq, Structural)]
pub struct Temperature {
    pub milli: u32,
}

impl Temperature {
    /// The accepted range of a temperature.
    pub open spec fn wf(self) -> bool {
        self.milli <= TEMPERATURE_MAX_MILLI
    }

    /// Below the epsilon the engine selects greedy (deterministic) sampling.
    pub open spec fn spec_is_deterministic(self) -> bool {
        self.milli < TEMPERATURE_EPSILON_MILLI
    }

    pub fn from_milli(milli: u32) -> (t: Temperature)
        requires
            milli <= TEMPERATURE_MAX_MILLI,
        ensures
            t.milli == milli,
            t.wf(),
    {
        Temperature { milli }
    }

    /// Builds a temperature from an arbitrary count of thousandths, clamping
    /// into the accepted range.
    pub fn from_milli_clamped(milli: u32) -> (t: Temperature)
        ensures
            t.wf(),
            milli <= TEMPERATURE_MAX_MILLI ==> t.milli == milli,
            milli > TEMPERATURE_MAX_MILLI ==> t.milli == TEMPERATURE_MAX_MILLI,
    {
        if milli <= TEMPERATURE_MAX_MILLI {
            Temperature { milli }
        } else {
            Temperature { milli: TEMPERATURE_MAX_MILLI }
        }
    }

    pub fn is_deterministic(&self) -> (b: bool)
        ensures
            b == self.spec_is_deterministic(),
    {
        self.milli < TEMPERATURE_EPSILON_MILLI
    }
}

/// The temperature used when the configuration names none (0.9).
pub fn default_temperature() -> (t: Temperature)
    ensures
        t.milli == 900,
        t.wf(),
{
    Temperature { milli: 900 }
}

} // verus!
