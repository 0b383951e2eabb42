//! Variants of a function: one way of answering it, with the weight by which
//! it is sampled.

use vstd::prelude::*;

verus! {

/// How a variant asks for JSON output.
#[derive(Debug, Clone, Copy, PartialEq, Eq, Structural)]
pub enum JsonMode {
    Off,
    On,
    Strict,
    ImplicitTool,
}

/// The limits on the time that a variant may take, in milliseconds.
#[derive(Debug, Clone, Copy, PartialEq, Eq, Structural)]
pub struct TimeoutsConfig {
    pub non_streaming_total_ms: Option<u64>,
    pub streaming_ttft_ms: Option<u64>,
}

/// A variant that makes one chat completion call.
#[derive(Debug, Clone, PartialEq)]
pub struct ChatCompletionConfig {
    /// The relative weight of the variant; absent stands for none.
    pub weight: Option<u32>,
    pub model: String,
    pub json_mode: Option<JsonMode>,
}

/// The configuration of a variant, by kind.
#[derive(Debug, Clone, PartialEq)]
pub enum VariantConfig {
    ChatCompletion(ChatCompletionConfig),
}

/// A variant with the limits on its time.
#[derive(Debug, Clone, PartialEq)]
pub struct VariantInfo {
    pub inner: VariantConfig,
    pub timeouts: TimeoutsConfig,
}

impl Default for TimeoutsConfig {
    fn default() -> (r: TimeoutsConfig)
        ensures
            r == (TimeoutsConfig { non_streaming_total_ms: None, streaming_ttft_ms: None }),
    {
        TimeoutsConfig { non_streaming_total_ms: None, streaming_ttft_ms: None }
    }
}

impl Default for ChatCompletionConfig {
    fn default() -> (r: ChatCompletionConfig)
        ensures
            r.weight is None,
            r.model@ == Seq::<char>::empty(),
            r.json_mode is None,
    {
        ChatCompletionConfig { weight: None, model: String::new(), json_mode: None }
    }
}

impl VariantConfig {
    /// The weight of the variant, as it is configured.
    pub open spec fn configured_weight(self) -> Option<u32> {
        match self {
            VariantConfig::ChatCompletion(c) => c.weight,
        }
    }

    /// The weight of the variant, as it is configured.
    pub fn weight(&self) -> (w: Option<u32>)
        ensures
            w == self.configured_weight(),
    {
        match self {
            VariantConfig::ChatCompletion(c) => c.weight,
        }
    }
}

impl VariantInfo {
    /// The weight by which the variant is sampled: nothing where none is configured.
    pub open spec fn weight_value(self) -> nat {
        match self.inner.configured_weight() {
            Some(w) => w as nat,
            None => 0,
        }
    }

    /// The weight by which the variant is sampled: nothing where none is configured.
    pub fn weight_or_zero(&self) -> (w: u32)
        ensures
            w == self.weight_value(),
    {
        match self.inner.weight() {
            Some(w) => w,
            None => 0,
        }
    }
}

} // verus!
