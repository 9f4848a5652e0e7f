//! Fixed per-request configuration for the completion endpoint.

use vstd::prelude::*;
use vstd::string::StringExecFns;

verus! {

/// Configuration bundle sent with every completion request.  Streaming is
/// always disabled in this core, so no field for it exists: the encoder
/// writes `"stream":false` unconditionally.
pub struct RequestParams {
    /// Target model identifier.
    pub model: String,
    /// Sampling temperature.
    pub temperature: i32,
    /// Maximum output tokens; `-1` means unconstrained by this core's
    /// convention.
    pub max_tokens: i32,
    /// Random seed.
    pub seed: i32,
    /// Nucleus-sampling top-p.
    pub top_p: i32,
}

/// Mathematical model of [`RequestParams`].
pub struct ParamsView {
    pub model: Seq<char>,
    pub temperature: int,
    pub max_tokens: int,
    pub seed: int,
    pub top_p: int,
}

impl View for RequestParams {
    type V = ParamsView;

    open spec fn view(&self) -> ParamsView {
        ParamsView {
            model: self.model@,
            temperature: self.temperature as int,
            max_tokens: self.max_tokens as int,
            seed: self.seed as int,
            top_p: self.top_p as int,
        }
    }
}

impl Default for RequestParams {
    /// The deployment's stock configuration.
    fn default() -> (p: Self)
        ensures
            p@.model == "llama3.1-8b"@,
            p@.temperature == 0,
            p@.max_tokens == -1,
            p@.seed == 0,
            p@.top_p == 1,
    {
        RequestParams {
            model: String::from_str("llama3.1-8b"),
            temperature: 0,
            max_tokens: -1,
            seed: 0,
            top_p: 1,
        }
    }
}

/// The provider endpoint the request body is posted to.
pub fn completions_endpoint() -> (s: &'static str)
    ensures
        s@ == "https://api.cerebras.ai/v1/chat/completions"@,
{
    "https://api.cerebras.ai/v1/chat/completions"
}

} // verus!
