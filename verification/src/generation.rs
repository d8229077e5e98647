//! The decisions behind the app's commands: whether a generation may start
//! and with what, which generation is current, what a finished generation
//! reports, and how the provider's state is shown.
use vstd::prelude::*;

use crate::cancellation::Cancellation;
use crate::prompt::{
    is_prompt, prompt_error_text, user_content, PromptBuilder, PromptIntent, PromptRequest,
};
use crate::provider::ollama::{ollama_base_url, provider_address};
use crate::provider::{provider_error_text, GenerationRequest, ModelInfo, ProviderError};
use crate::settings::SettingsSnapshot;
use crate::text::owned;

verus! {

// ---------------------------------------------------------------------------
// Which generation is current
// ---------------------------------------------------------------------------

/// The generation that is running.
pub struct ActiveGeneration {
    pub request_id: u64,
    pub cancellation: Cancellation,
}

/// Tracks the current generation. Starting one cancels the previous one;
/// only the current one may report its result.
pub struct GenerationState {
    next_request_id: u64,
    active: Option<ActiveGeneration>,
}

/// The current generation, if any, is the latest one started.
pub open spec fn current_is_latest(state: GenerationState) -> bool {
    state.active_id() matches Some(current) ==> current == state.issued()
}

impl GenerationState {
    #[verifier::type_invariant]
    spec fn well_formed(&self) -> bool {
        match self.active {
            Some(a) => a.request_id == self.next_request_id,
            None => true,
        }
    }

    /// The id of the latest generation started (0 before the first).
    pub closed spec fn issued(&self) -> u64 {
        self.next_request_id
    }

    /// The id of the current generation, if one is running.
    pub closed spec fn active_id(&self) -> Option<u64> {
        match self.active {
            Some(a) => Some(a.request_id),
            None => None,
        }
    }

    /// The cancellation handle of the current generation (meaningful while
    /// one is running).
    pub closed spec fn current_cancellation(&self) -> Cancellation {
        self.active->Some_0.cancellation
    }

    pub fn new() -> (r: Self)
        ensures
            r.issued() == 0,
            r.active_id() is None,
            current_is_latest(r),
    {
        GenerationState { next_request_id: 0, active: None }
    }

    /// Whether another generation can be given an id.
    pub fn can_begin(&self) -> (r: bool)
        ensures
            r == (self.issued() < u64::MAX),
    {
        self.next_request_id < u64::MAX
    }

    /// Starts a generation: signals the cancellation of the current one, if
    /// any, and hands its handle back; makes a new generation with the next
    /// id current, and returns its id and a handle to its token.
    pub fn begin(&mut self) -> (r: (u64, Cancellation, Option<Cancellation>))
        requires
            old(self).issued() < u64::MAX,
        ensures
            r.0 == old(self).issued() + 1,
            final(self).issued() == r.0,
            final(self).active_id() == Some(r.0),
            current_is_latest(*final(self)),
            !final(self).current_cancellation().is_signalled(),
            !r.1.is_signalled(),
            r.1.origin() == final(self).current_cancellation().origin(),
            match old(self).active_id() {
                Some(previous) => previous < r.0 && (r.2 matches Some(c) && c.is_signalled()
                    && c.origin() == old(self).current_cancellation().origin()),
                None => r.2 is None,
            },
    {
        proof {
            use_type_invariant(&*self);
        }
        let mut earlier: Option<ActiveGeneration> = None;
        std::mem::swap(&mut earlier, &mut self.active);
        let previous = match earlier {
            Some(generation) => {
                let mut cancellation = generation.cancellation;
                cancellation.signal();
                Some(cancellation)
            },
            None => None,
        };
        let request_id = self.next_request_id + 1;
        self.next_request_id = request_id;
        let cancellation = Cancellation::new();
        let handle = cancellation.share();
        self.active = Some(ActiveGeneration { request_id, cancellation });
        (request_id, handle, previous)
    }

    /// Signals the cancellation of the current generation, if any. It stays
    /// current until it finishes.
    pub fn cancel(&mut self)
        ensures
            final(self).issued() == old(self).issued(),
            final(self).active_id() == old(self).active_id(),
            current_is_latest(*final(self)),
            old(self).active_id() is Some ==> final(self).current_cancellation().is_signalled()
                && final(self).current_cancellation().origin()
                == old(self).current_cancellation().origin(),
    {
        proof {
            use_type_invariant(&*self);
        }
        let mut current: Option<ActiveGeneration> = None;
        std::mem::swap(&mut current, &mut self.active);
        match current {
            Some(generation) => {
                let mut cancellation = generation.cancellation;
                cancellation.signal();
                self.active = Some(ActiveGeneration { request_id: generation.request_id, cancellation });
            },
            None => {},
        }
    }

    /// Whether `request_id` is the current generation. Only the latest
    /// generation started can be.
    pub fn is_active(&self, request_id: u64) -> (r: bool)
        ensures
            r == (self.active_id() == Some(request_id)),
            r ==> request_id == self.issued(),
            current_is_latest(*self),
    {
        proof {
            use_type_invariant(self);
        }
        match &self.active {
            Some(active) => active.request_id == request_id,
            None => false,
        }
    }

    /// Ends `request_id` if it is the current generation, and tells whether
    /// it was; a superseded generation changes nothing.
    pub fn finish(&mut self, request_id: u64) -> (r: bool)
        ensures
            r == (old(self).active_id() == Some(request_id)),
            r ==> request_id == old(self).issued(),
            final(self).active_id() == (if r {
                None
            } else {
                old(self).active_id()
            }),
            final(self).issued() == old(self).issued(),
            current_is_latest(*final(self)),
    {
        proof {
            use_type_invariant(&*self);
        }
        let current = match &self.active {
            Some(active) => active.request_id == request_id,
            None => false,
        };
        if current {
            self.active = None;
        }
        current
    }
}

/// A superseded generation never becomes current again: every operation
/// keeps the current generation the latest one started and never lowers
/// that id, so an id below it is never current, and `finish` on it reports
/// `false` (its result is never shown).
pub proof fn superseded_generation_is_inactive(state: GenerationState, older: u64)
    requires
        current_is_latest(state),
        older < state.issued(),
    ensures
        state.active_id() != Some(older),
{
}

// ---------------------------------------------------------------------------
// What a generation reports
// ---------------------------------------------------------------------------

/// How a generation that was still current ended.
#[derive(Debug, PartialEq, Eq)]
pub enum GenerationOutcome {
    Finished,
    Cancelled,
    Failed { message: String },
}

/// What to report once the provider is done with a generation: nothing when
/// the generation is no longer current, else its completion, cancellation,
/// or failure with the error's user message.
pub fn generation_outcome(still_current: bool, result: Result<(), ProviderError>) -> (r: Option<
    GenerationOutcome,
>)
    ensures
        !still_current ==> r is None,
        still_current ==> match result {
            Ok(()) => r == Some(GenerationOutcome::Finished),
            Err(ProviderError::Cancelled) => r == Some(GenerationOutcome::Cancelled),
            Err(error) => r matches Some(GenerationOutcome::Failed { message }) && message@
                == provider_error_text(error),
        },
{
    if !still_current {
        return None;
    }
    match result {
        Ok(()) => Some(GenerationOutcome::Finished),
        Err(ProviderError::Cancelled) => Some(GenerationOutcome::Cancelled),
        Err(error) => Some(GenerationOutcome::Failed { message: error.user_message() }),
    }
}

// ---------------------------------------------------------------------------
// Relaying a generation's progress
// ---------------------------------------------------------------------------

/// Relays one generation's progress to the user interface: its deltas while
/// it is current, then at most one outcome.
pub struct GenerationRelay {
    request_id: u64,
    forwarding: bool,
}

impl GenerationRelay {
    /// The generation relayed.
    pub closed spec fn request_id(&self) -> u64 {
        self.request_id
    }

    /// Whether deltas are still shown.
    pub closed spec fn forwarding(&self) -> bool {
        self.forwarding
    }

    /// The relay of the generation `request_id`, just started.
    pub fn new(request_id: u64) -> (r: Self)
        ensures
            r.request_id() == request_id,
            r.forwarding(),
    {
        GenerationRelay { request_id, forwarding: true }
    }

    /// The chunk to show for `delta`: the delta itself while the generation
    /// is current; once it is not, this delta and every later one is dropped.
    pub fn relay_delta(&mut self, state: &GenerationState, delta: String) -> (r: Option<String>)
        ensures
            final(self).request_id() == old(self).request_id(),
            final(self).forwarding() == (old(self).forwarding() && state.active_id() == Some(
                old(self).request_id(),
            )),
            r is Some == final(self).forwarding(),
            r matches Some(text) ==> text@ == delta@,
            old(self).request_id() < state.issued() ==> r is None,
    {
        proof {
            use_type_invariant(state);
        }
        if self.forwarding && state.is_active(self.request_id) {
            Some(delta)
        } else {
            self.forwarding = false;
            None
        }
    }

    /// Ends the relay once the provider is done with `result`: the
    /// generation is finished in `state`, and its outcome is what is
    /// reported, only when it was still current. A superseded generation
    /// reports nothing. Consuming the relay, this happens at most once.
    pub fn conclude(self, state: &mut GenerationState, result: Result<(), ProviderError>) -> (r:
        Option<GenerationOutcome>)
        ensures
            final(state).issued() == old(state).issued(),
            final(state).active_id() == (if old(state).active_id() == Some(self.request_id()) {
                None
            } else {
                old(state).active_id()
            }),
            current_is_latest(*final(state)),
            old(state).active_id() != Some(self.request_id()) ==> r is None,
            old(state).active_id() == Some(self.request_id()) ==> match result {
                Ok(()) => r == Some(GenerationOutcome::Finished),
                Err(ProviderError::Cancelled) => r == Some(GenerationOutcome::Cancelled),
                Err(error) => r matches Some(GenerationOutcome::Failed { message }) && message@
                    == provider_error_text(error),
            },
            self.request_id() < old(state).issued() ==> r is None,
    {
        proof {
            use_type_invariant(&*state);
        }
        let still_current = state.finish(self.request_id);
        generation_outcome(still_current, result)
    }
}

// ---------------------------------------------------------------------------
// Starting a generation
// ---------------------------------------------------------------------------

/// A generation that may start: where to send it and what to ask.
pub struct PreparedGeneration {
    pub base_url: String,
    pub request: GenerationRequest,
}

pub open spec fn missing_model_message() -> Seq<char> {
    "Choose an Ollama model in Settings before generating."@
}

/// The prompt request for selected text and an intent, without an image or
/// context.
pub open spec fn selection_request(selected_text: String, intent: PromptIntent) -> PromptRequest {
    PromptRequest { selected_text: Some(selected_text), has_image: false, intent, context: None }
}

/// Checks that a generation may start, in this order: a model is in
/// effect, the prompt can be built, and the Ollama address is usable. The
/// error is the message shown to the user.
pub fn prepare_generation(
    snapshot: SettingsSnapshot,
    selected_text: String,
    intent: PromptIntent,
) -> (r: Result<PreparedGeneration, String>)
    ensures
        match snapshot.effective_model {
            None => r matches Err(m) && m@ == missing_model_message(),
            Some(model) => match user_content(selection_request(selected_text, intent)) {
                Err(e) => r matches Err(m) && m@ == prompt_error_text(e),
                Ok(content) => match provider_address(snapshot.config.ollama_base_url@) {
                    Err(message) => r matches Err(m) && m@ == message,
                    Ok(address) => r matches Ok(prepared) && prepared.base_url@ == address
                        && prepared.request.model == model && is_prompt(
                        prepared.request.messages@,
                        content,
                    ) && prepared.request.thinking == snapshot.config.thinking,
                },
            },
        },
{
    let model = match snapshot.effective_model {
        Some(model) => model,
        None => {
            return Err(owned("Choose an Ollama model in Settings before generating."));
        },
    };
    let messages = match PromptBuilder::build(
        PromptRequest { selected_text: Some(selected_text), has_image: false, intent, context: None },
    ) {
        Ok(messages) => messages,
        Err(error) => {
            return Err(owned(error.user_message()));
        },
    };
    let base_url = match ollama_base_url(snapshot.config.ollama_base_url.as_str()) {
        Ok(base_url) => base_url,
        Err(error) => {
            return Err(error.user_message());
        },
    };
    Ok(
        PreparedGeneration {
            base_url,
            request: GenerationRequest { model, messages, thinking: snapshot.config.thinking },
        },
    )
}

// ---------------------------------------------------------------------------
// Provider state
// ---------------------------------------------------------------------------

/// What the settings screen shows about the provider.
#[derive(Debug, PartialEq, Eq)]
pub enum ProviderStatus {
    Ready { models: Vec<ModelInfo> },
    Unavailable { message: String },
    ModelNotConfigured { models: Vec<ModelInfo> },
    ModelMissing { model: String, models: Vec<ModelInfo> },
}

/// `model` is among the installed `models`.
pub open spec fn is_installed(models: Seq<ModelInfo>, model: Seq<char>) -> bool {
    exists|i: int| 0 <= i < models.len() && #[trigger] models[i].name@ == model
}

/// A model listed at any position counts as installed, so the provider is
/// ready for it.
pub proof fn listed_model_is_installed(models: Seq<ModelInfo>, model: Seq<char>, i: int)
    requires
        0 <= i < models.len(),
        models[i].name@ == model,
    ensures
        is_installed(models, model),
{
}

/// A model that no entry of the list names is not installed.
pub proof fn unlisted_model_is_missing(models: Seq<ModelInfo>, model: Seq<char>)
    requires
        forall|i: int| 0 <= i < models.len() ==> #[trigger] models[i].name@ != model,
    ensures
        !is_installed(models, model),
{
}

fn installed(models: &Vec<ModelInfo>, model: &String) -> (r: bool)
    ensures
        r == is_installed(models@, model@),
{
    let mut i: usize = 0;
    while i < models.len()
        invariant
            i <= models.len(),
            forall|j: int| 0 <= j < i ==> #[trigger] models@[j].name@ != model@,
        decreases models.len() - i,
    {
        if models[i].name == *model {
            return true;
        }
        i = i + 1;
    }
    false
}

/// The provider's state from the list of installed models (or the error
/// that listing them gave) and the model in effect.
pub fn provider_status(
    listing: Result<Vec<ModelInfo>, ProviderError>,
    effective_model: Option<String>,
) -> (r: ProviderStatus)
    ensures
        match listing {
            Err(error) => r matches ProviderStatus::Unavailable { message } && message@
                == provider_error_text(error),
            Ok(models) => match effective_model {
                None => r == ProviderStatus::ModelNotConfigured { models },
                Some(model) => if is_installed(models@, model@) {
                    r == ProviderStatus::Ready { models }
                } else {
                    r == ProviderStatus::ModelMissing { model, models }
                },
            },
        },
{
    match listing {
        Err(error) => ProviderStatus::Unavailable { message: error.user_message() },
        Ok(models) => match effective_model {
            None => ProviderStatus::ModelNotConfigured { models },
            Some(model) => {
                if installed(&models, &model) {
                    ProviderStatus::Ready { models }
                } else {
                    ProviderStatus::ModelMissing { model, models }
                }
            },
        },
    }
}

} // verus!
