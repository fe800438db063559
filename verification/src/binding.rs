//! Model bindings: a configured, reusable handle to one language-model
//! endpoint (model name, sampling temperature, credentials), immutable after
//! construction. One binding is created per logical role at startup and
//! shared by every predictor assigned that role; calls against one binding
//! are serialized at the call boundary, so two roles must use distinct
//! bindings for a slow call in one role never to block the other.

use vstd::prelude::*;

verus! {

/// The logical roles a binding can serve. The search tool reuses the
/// classifier's binding; response synthesis has a binding of its own.
#[derive(Clone, Copy, Debug, PartialEq, Eq, Structural)]
pub enum BindingRole {
    Classifier,
    Synthesizer,
}

/// A configured language-model endpoint: which model, how much sampling
/// temperature (in hundredths, so the configuration stays exact), and the
/// credential the transport presents.
pub struct ModelBinding {
    pub model: String,
    pub temperature_centi: u32,
    pub api_key: String,
}

impl ModelBinding {
    /// Configure a binding. The fields never change afterwards.
    pub fn new(model: String, temperature_centi: u32, api_key: String) -> (b: ModelBinding)
        ensures
            b.model == model,
            b.temperature_centi == temperature_centi,
            b.api_key == api_key,
    {
        ModelBinding { model, temperature_centi, api_key }
    }
}

} // verus!
