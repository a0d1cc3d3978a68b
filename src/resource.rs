use vstd::prelude::*;
use vstd::string::*;
use candle_core::{Device, Tensor};
use candle_transformers::models::gemma::{Config, Model};
use std::collections::HashMap;
use tokenizers::Tokenizer;
use crate::engine::{EngineState, LoadError, LoadFailure, ModelLifecycle};

verus! {

#[verifier::external_type_specification]
#[verifier::external_body]
pub struct ExGemmaConfig(Config);

#[verifier::external_type_specification]
#[verifier::external_body]
pub struct ExGemmaModel(Model);

#[verifier::external_type_specification]
#[verifier::external_body]
pub struct ExTokenizer(Tokenizer);

#[verifier::external_type_specification]
#[verifier::external_body]
pub struct ExTensor(Tensor);

#[verifier::external_type_specification]
#[verifier::external_body]
pub struct ExDevice(Device);

#[verifier::external_type_specification]
#[verifier::external_body]
pub struct ExCandleError(candle_core::Error);

#[verifier::external_type_specification]
#[verifier::external_body]
pub struct ExJsonError(serde_json::Error);

/// Whether `serde_json::from_str` reads a Gemma configuration from text with
/// these characters.
pub uninterp spec fn config_accepted(text: Seq<char>) -> bool;

/// Relies on `serde_json::from_str`: reads a Gemma configuration from JSON
/// text; whether it succeeds depends on the text alone.
#[verifier::external_body]
fn config_from_json(text: &str) -> (r: Result<Config, serde_json::Error>)
    ensures
        r is Ok == config_accepted(text@),
{
    serde_json::from_str(text)
}

/// Relies on the `Display` impl of `serde_json::Error`: its message.
#[verifier::external_body]
fn json_error_text(e: &serde_json::Error) -> (r: String) {
    e.to_string()
}

/// The attention head count, the key-value head count and the head size of a
/// configuration.
pub uninterp spec fn head_counts(config: Config) -> (usize, usize, usize);

/// Relies on the public fields `num_attention_heads`, `num_key_value_heads`
/// and `head_dim` of `gemma::Config`: copies them out.
#[verifier::external_body]
fn config_head_counts(config: &Config) -> (r: (usize, usize, usize))
    ensures
        r == head_counts(*config),
{
    (config.num_attention_heads, config.num_key_value_heads, config.head_dim)
}

/// Head counts that `gemma::Model::new` can build from without panicking: it
/// divides by the key-value head count and multiplies each head count by the
/// head size.
pub open spec fn heads_buildable(h: (usize, usize, usize)) -> bool {
    &&& h.1 > 0
    &&& h.0 * h.2 <= usize::MAX
    &&& h.1 * h.2 <= usize::MAX
}

/// Whether `gemma::Model::new` builds a model from this configuration and
/// these weights, taken as f32 on this device.
pub uninterp spec fn model_builds(
    config: Config,
    tensors: HashMap<String, Tensor>,
    device: Device,
) -> bool;

/// Relies on `candle_nn::VarBuilder::from_tensors` and
/// `candle_transformers::models::gemma::Model::new`: builds the model, without
/// flash attention, from f32 weights on `device`. `Model::new` divides by the
/// key-value head count and multiplies the head counts by the head size, so
/// those are required to be safe.
#[verifier::external_body]
fn gemma_from_tensors(config: &Config, tensors: HashMap<String, Tensor>, device: &Device) -> (r:
    Result<Model, candle_core::Error>)
    requires
        heads_buildable(head_counts(*config)),
    ensures
        r is Ok == model_builds(*config, tensors, *device),
{
    let vb = candle_nn::VarBuilder::from_tensors(tensors, candle_core::DType::F32, device);
    Model::new(false, config, vb)
}

/// Relies on the `Display` impl of `candle_core::Error`: its message.
#[verifier::external_body]
fn candle_error_text(e: &candle_core::Error) -> (r: String) {
    e.to_string()
}

/// Whether a device is the CPU.
pub uninterp spec fn on_cpu(device: Device) -> bool;

/// Relies on `candle_core::Device::Cpu`: the CPU device.
#[verifier::external_body]
fn cpu_device() -> (r: Device)
    ensures
        on_cpu(r),
{
    Device::Cpu
}

/// Relies on `candle_core::Device::is_cpu`: whether the device is `Cpu`.
pub assume_specification[ Device::is_cpu ](device: &Device) -> (r: bool)
    ensures
        r == on_cpu(*device),
;

/// `text` begins with `prefix`.
pub open spec fn starts_with(text: Seq<char>, prefix: Seq<char>) -> bool {
    prefix.len() <= text.len() && text.subrange(0, prefix.len() as int) == prefix
}

/// `prefix` followed by `rest`.
fn prefixed(prefix: &str, rest: &str) -> (r: String)
    ensures
        r@ == prefix@ + rest@,
        starts_with(r@, prefix@),
{
    let mut r = String::from_str(prefix);
    r.append(rest);
    assert(r@.subrange(0, prefix@.len() as int) =~= prefix@);
    r
}

/// Parses the model configuration; the error says that parsing failed and
/// why.
pub fn parse_config(text: &str) -> (r: Result<Config, String>)
    ensures
        r is Ok == config_accepted(text@),
        r is Err ==> starts_with(r->Err_0@, "Failed to parse config: "@),
{
    match config_from_json(text) {
        Ok(config) => Ok(config),
        Err(e) => Err(prefixed("Failed to parse config: ", json_error_text(&e).as_str())),
    }
}

/// Builds the model from its configuration and weights. Head counts that the
/// model cannot be built from are refused before construction; the error says
/// that construction failed and why.
pub fn construct_model(config: &Config, tensors: HashMap<String, Tensor>, device: &Device) -> (r:
    Result<Model, String>)
    ensures
        r is Ok == (heads_buildable(head_counts(*config)) && model_builds(
            *config,
            tensors,
            *device,
        )),
        r is Err ==> starts_with(r->Err_0@, "Failed to create Gemma model: "@),
{
    let (heads, kv_heads, head_dim) = config_head_counts(config);
    if kv_heads == 0 {
        return Err(
            prefixed("Failed to create Gemma model: ", "the key-value head count is zero"),
        );
    }
    if heads.checked_mul(head_dim).is_none() || kv_heads.checked_mul(head_dim).is_none() {
        return Err(prefixed("Failed to create Gemma model: ", "the attention size overflows"));
    }
    match gemma_from_tensors(config, tensors, device) {
        Ok(model) => Ok(model),
        Err(e) => Err(prefixed("Failed to create Gemma model: ", candle_error_text(&e).as_str())),
    }
}

/// The engine: its lifecycle state, the resources of a completed load, and
/// the device it runs on.
pub struct AIEngine {
    lifecycle: ModelLifecycle,
    model: Option<Model>,
    tokenizer: Option<Tokenizer>,
    device: Device,
}

impl AIEngine {
    pub closed spec fn spec_state(&self) -> EngineState {
        self.lifecycle.spec_state()
    }

    /// Whether a model and a tokenizer are installed.
    pub closed spec fn holds_resources(&self) -> bool {
        self.model is Some && self.tokenizer is Some
    }

    /// Whether neither a model nor a tokenizer is installed.
    pub closed spec fn holds_nothing(&self) -> bool {
        self.model is None && self.tokenizer is None
    }

    pub closed spec fn spec_device(&self) -> Device {
        self.device
    }

    /// Resources are installed exactly when the engine is `Ready`, and then
    /// both of them; otherwise neither.
    pub closed spec fn wf(&self) -> bool {
        if self.lifecycle.spec_state() is Ready {
            self.model is Some && self.tokenizer is Some
        } else {
            self.model is None && self.tokenizer is None
        }
    }

    pub fn new() -> (r: Self)
        ensures
            r.wf(),
            r.spec_state() is Unloaded,
            r.holds_nothing(),
            on_cpu(r.spec_device()),
    {
        AIEngine {
            lifecycle: ModelLifecycle::new(),
            model: None,
            tokenizer: None,
            device: cpu_device(),
        }
    }

    /// Whether generation may proceed.
    pub fn status(&self) -> (r: bool)
        requires
            self.wf(),
        ensures
            r == (self.spec_state() is Ready),
            r == self.holds_resources(),
    {
        self.lifecycle.status()
    }

    /// The device that loads and inference run on.
    pub fn device(&self) -> (r: &Device)
        ensures
            *r == self.spec_device(),
    {
        &self.device
    }

    /// Whether the engine runs on the CPU.
    pub fn runs_on_cpu(&self) -> (r: bool)
        ensures
            r == on_cpu(self.spec_device()),
    {
        self.device.is_cpu()
    }

    /// Starts a load: rejected with `Busy` while another runs; otherwise the
    /// state becomes `Loading` and the resources of an earlier load are
    /// released. The device is kept.
    pub fn begin_load(&mut self) -> (r: Result<(), LoadError>)
        requires
            old(self).wf(),
        ensures
            final(self).wf(),
            final(self).spec_device() == old(self).spec_device(),
            old(self).spec_state() is Loading ==> r is Err && r->Err_0 is Busy
                && final(self).spec_state() is Loading,
            !(old(self).spec_state() is Loading) ==> r is Ok && final(self).spec_state() is Loading
                && final(self).holds_nothing(),
    {
        let r = self.lifecycle.begin_load();
        if r.is_ok() {
            self.model = None;
            self.tokenizer = None;
        }
        r
    }

    /// Ends the load in progress. On success the new model and tokenizer are
    /// installed together and the engine is `Ready`; on failure nothing is
    /// installed, the engine is `Failed`, and the failure is handed back. The
    /// device is kept.
    pub fn finish_load(&mut self, outcome: Result<(Model, Tokenizer), LoadFailure>) -> (r: Result<
        (),
        LoadError,
    >)
        requires
            old(self).wf(),
            old(self).spec_state() is Loading,
        ensures
            final(self).wf(),
            final(self).spec_device() == old(self).spec_device(),
            outcome is Ok ==> r is Ok && final(self).spec_state() is Ready
                && final(self).holds_resources(),
            outcome is Err ==> r == Err::<(), LoadError>(LoadError::Failed(outcome->Err_0))
                && final(self).spec_state() == EngineState::Failed(outcome->Err_0)
                && final(self).holds_nothing(),
    {
        match outcome {
            Ok((model, tokenizer)) => {
                self.model = Some(model);
                self.tokenizer = Some(tokenizer);
                self.lifecycle.finish_load(Ok(()))
            },
            Err(failure) => {
                self.model = None;
                self.tokenizer = None;
                self.lifecycle.finish_load(Err(failure))
            },
        }
    }
}

} // verus!
