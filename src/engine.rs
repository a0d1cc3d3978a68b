use vstd::prelude::*;

verus! {

/// The steps of a model load, in the order they run.
#[derive(Clone, Copy, Debug, PartialEq, Eq, Structural)]
pub enum LoadStage {
    /// Finding the model directory.
    Locate,
    /// Parsing the tokenizer definition.
    Tokenizer,
    /// Reading and parsing the model configuration.
    Config,
    /// Loading the serialized weights.
    Weights,
    /// Building the model from the parsed artifacts.
    Construct,
}

/// A failed load: the step that failed and what went wrong.
#[derive(Debug)]
pub struct LoadFailure {
    pub stage: LoadStage,
    pub detail: String,
}

/// Why a load request did not succeed.
#[derive(Debug)]
pub enum LoadError {
    /// Another load is in progress; concurrent loads are rejected, not queued.
    Busy,
    /// The lock around the engine state could not be taken.
    Lock(String),
    /// A step of the load failed.
    Failed(LoadFailure),
}

/// The state of the single model resource.
#[derive(Debug)]
pub enum EngineState {
    Unloaded,
    Loading,
    Ready,
    Failed(LoadFailure),
}

/// What a running load does next.
#[derive(Debug)]
pub enum LoadStep {
    /// Run this step.
    Perform(LoadStage),
    /// The load is over, with this outcome.
    Finish(Result<(), LoadFailure>),
}

pub open spec fn next_stage(stage: LoadStage) -> Option<LoadStage> {
    match stage {
        LoadStage::Locate => Some(LoadStage::Tokenizer),
        LoadStage::Tokenizer => Some(LoadStage::Config),
        LoadStage::Config => Some(LoadStage::Weights),
        LoadStage::Weights => Some(LoadStage::Construct),
        LoadStage::Construct => None,
    }
}

/// After `stage` ended with `result`: a failure ends the load at once;
/// a success moves on to the next step, or ends the load after the last.
pub open spec fn step_after(stage: LoadStage, result: Result<(), String>) -> LoadStep {
    match result {
        Err(detail) => LoadStep::Finish(Err(LoadFailure { stage, detail })),
        Ok(()) => match next_stage(stage) {
            Some(next) => LoadStep::Perform(next),
            None => LoadStep::Finish(Ok(())),
        },
    }
}

/// The state after a load in progress ends with `outcome`.
pub open spec fn state_after_finish(outcome: Result<(), LoadFailure>) -> EngineState {
    match outcome {
        Ok(()) => EngineState::Ready,
        Err(f) => EngineState::Failed(f),
    }
}

/// The first step of every load.
pub fn first_stage() -> (r: LoadStage)
    ensures
        r == LoadStage::Locate,
{
    LoadStage::Locate
}

/// Decides what a load does after `stage` ended with `result`.
pub fn advance(stage: LoadStage, result: Result<(), String>) -> (r: LoadStep)
    ensures
        r == step_after(stage, result),
{
    match result {
        Err(detail) => LoadStep::Finish(Err(LoadFailure { stage, detail })),
        Ok(()) => match stage {
            LoadStage::Locate => LoadStep::Perform(LoadStage::Tokenizer),
            LoadStage::Tokenizer => LoadStep::Perform(LoadStage::Config),
            LoadStage::Config => LoadStep::Perform(LoadStage::Weights),
            LoadStage::Weights => LoadStep::Perform(LoadStage::Construct),
            LoadStage::Construct => LoadStep::Finish(Ok(())),
        },
    }
}

/// Owner of the engine state: the only thing that changes it, and only by
/// whole-state transitions that always pass through `Loading`.
pub struct ModelLifecycle {
    state: EngineState,
}

impl ModelLifecycle {
    pub closed spec fn spec_state(&self) -> EngineState {
        self.state
    }

    pub fn new() -> (r: Self)
        ensures
            r.spec_state() is Unloaded,
    {
        ModelLifecycle { state: EngineState::Unloaded }
    }

    pub fn state(&self) -> (r: &EngineState)
        ensures
            *r == self.spec_state(),
    {
        &self.state
    }

    /// Whether a model is loaded and ready; never fails.
    pub fn status(&self) -> (r: bool)
        ensures
            r == (self.spec_state() is Ready),
    {
        match self.state {
            EngineState::Ready => true,
            _ => false,
        }
    }

    /// Whether a load is in progress.
    pub fn is_loading(&self) -> (r: bool)
        ensures
            r == (self.spec_state() is Loading),
    {
        match self.state {
            EngineState::Loading => true,
            _ => false,
        }
    }

    /// Starts a load: rejected with `Busy` while another is in progress, else
    /// the state becomes `Loading` and any earlier model is released.
    pub fn begin_load(&mut self) -> (r: Result<(), LoadError>)
        ensures
            old(self).spec_state() is Loading ==> r is Err && r->Err_0 is Busy
                && final(self).spec_state() is Loading,
            !(old(self).spec_state() is Loading) ==> r is Ok && final(self).spec_state() is Loading,
    {
        if self.is_loading() {
            return Err(LoadError::Busy);
        }
        self.state = EngineState::Loading;
        Ok(())
    }

    /// Ends the load in progress: `Ready` on success, `Failed` with the
    /// failure otherwise.
    pub fn finish_load(&mut self, outcome: Result<(), LoadFailure>) -> (r: Result<(), LoadError>)
        requires
            old(self).spec_state() is Loading,
        ensures
            final(self).spec_state() == state_after_finish(outcome),
            outcome is Ok ==> r is Ok,
            outcome is Err ==> r == Err::<(), LoadError>(LoadError::Failed(outcome->Err_0)),
    {
        match outcome {
            Ok(()) => {
                self.state = EngineState::Ready;
                Ok(())
            },
            Err(failure) => {
                let detail = failure.detail.clone();
                let stage = failure.stage;
                self.state = EngineState::Failed(failure);
                Err(LoadError::Failed(LoadFailure { stage, detail }))
            },
        }
    }
}

/// A load whose tokenizer, configuration or weights step fails ends at once,
/// and finishing it lands in `Failed`, naming that step, never in `Ready`.
pub proof fn lemma_missing_artifact_fails(stage: LoadStage, detail: String)
    requires
        stage == LoadStage::Tokenizer || stage == LoadStage::Config || stage
            == LoadStage::Weights,
    ensures
        step_after(stage, Err(detail)) is Finish,
        ({
            let outcome = step_after(stage, Err(detail))->Finish_0;
            &&& state_after_finish(outcome) == EngineState::Failed(
                LoadFailure { stage, detail },
            )
            &&& !(state_after_finish(outcome) is Ready)
        }),
{
}

/// Finishing a load reaches `Ready` exactly when the load succeeded.
pub proof fn lemma_ready_only_after_success(outcome: Result<(), LoadFailure>)
    ensures
        (state_after_finish(outcome) is Ready) <==> outcome is Ok,
{
}

} // verus!
