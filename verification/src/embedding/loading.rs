//! How far the embedding model has got while loading.

use vstd::prelude::*;
use super::config::ModelType;

verus! {

/// Loading phase, for progress reports.
#[derive(Clone, Copy, Debug, PartialEq, Eq, Structural)]
pub enum LoadingPhase {
    Starting,
    FetchingConfig,
    FetchingTokenizer,
    FetchingWeights,
    LoadingModel,
    WarmingUp,
}

impl LoadingPhase {
    /// The phase as shown to people (its `Display` text).
    pub fn message(&self) -> (r: &'static str)
        ensures
            r@ == match self {
                LoadingPhase::Starting => "Starting..."@,
                LoadingPhase::FetchingConfig => "Fetching config..."@,
                LoadingPhase::FetchingTokenizer => "Fetching tokenizer..."@,
                LoadingPhase::FetchingWeights => "Fetching model weights..."@,
                LoadingPhase::LoadingModel => "Loading model into memory..."@,
                LoadingPhase::WarmingUp => "Warming up model..."@,
            },
    {
        match self {
            LoadingPhase::Starting => "Starting...",
            LoadingPhase::FetchingConfig => "Fetching config...",
            LoadingPhase::FetchingTokenizer => "Fetching tokenizer...",
            LoadingPhase::FetchingWeights => "Fetching model weights...",
            LoadingPhase::LoadingModel => "Loading model into memory...",
            LoadingPhase::WarmingUp => "Warming up model...",
        }
    }

    /// The phase's serialized name (snake case).
    pub fn name(&self) -> (r: &'static str)
        ensures
            r@ == match self {
                LoadingPhase::Starting => "starting"@,
                LoadingPhase::FetchingConfig => "fetching_config"@,
                LoadingPhase::FetchingTokenizer => "fetching_tokenizer"@,
                LoadingPhase::FetchingWeights => "fetching_weights"@,
                LoadingPhase::LoadingModel => "loading_model"@,
                LoadingPhase::WarmingUp => "warming_up"@,
            },
    {
        match self {
            LoadingPhase::Starting => "starting",
            LoadingPhase::FetchingConfig => "fetching_config",
            LoadingPhase::FetchingTokenizer => "fetching_tokenizer",
            LoadingPhase::FetchingWeights => "fetching_weights",
            LoadingPhase::LoadingModel => "loading_model",
            LoadingPhase::WarmingUp => "warming_up",
        }
    }
}

/// The message of a service that could not load its model and kept no
/// reason: `Unknown error`.
pub fn load_error_message(stored: Option<String>) -> (r: String)
    ensures
        r@ == match stored {
            Some(m) => m@,
            None => "Unknown error"@,
        },
{
    match stored {
        Some(m) => m,
        None => String::from_str("Unknown error"),
    }
}

/// Where the service is with its model.
#[derive(Clone, Copy, Debug, PartialEq, Eq, Structural)]
pub enum ServiceState {
    Loading,
    Ready,
    Error,
}

/// The code the service keeps for a loading model.
pub const STATUS_LOADING: u8 = 0;
/// The code the service keeps once the model is ready.
pub const STATUS_READY: u8 = 1;
/// The code the service keeps after the model failed to load.
pub const STATUS_ERROR: u8 = 2;

/// The state a stored status code stands for: loading, ready, and any
/// other code an error.
pub fn service_state(code: u8) -> (r: ServiceState)
    ensures
        r == (if code == STATUS_LOADING {
            ServiceState::Loading
        } else if code == STATUS_READY {
            ServiceState::Ready
        } else {
            ServiceState::Error
        }),
{
    if code == STATUS_LOADING {
        ServiceState::Loading
    } else if code == STATUS_READY {
        ServiceState::Ready
    } else {
        ServiceState::Error
    }
}

/// The phase after `p` while loading goes well: configuration, tokenizer,
/// weights, building the model, warming it up; `None` after warming up,
/// when the model is ready.
pub open spec fn phase_after(p: LoadingPhase) -> Option<LoadingPhase> {
    match p {
        LoadingPhase::Starting => Some(LoadingPhase::FetchingConfig),
        LoadingPhase::FetchingConfig => Some(LoadingPhase::FetchingTokenizer),
        LoadingPhase::FetchingTokenizer => Some(LoadingPhase::FetchingWeights),
        LoadingPhase::FetchingWeights => Some(LoadingPhase::LoadingModel),
        LoadingPhase::LoadingModel => Some(LoadingPhase::WarmingUp),
        LoadingPhase::WarmingUp => None,
    }
}

/// Where loading the model stands: the status code the service reports,
/// the phase while loading, and the message of a failure.
pub struct ModelLoading {
    pub status: u8,
    pub phase: LoadingPhase,
    pub error_message: Option<String>,
}

impl ModelLoading {
    /// Starts loading `model`: the mock model is ready at once; any other
    /// is loading, in the starting phase.
    pub fn start(model: ModelType) -> (r: ModelLoading)
        ensures
            r.status == (if model == ModelType::Mock { STATUS_READY } else { STATUS_LOADING }),
            r.phase == LoadingPhase::Starting,
            r.error_message is None,
    {
        let status = match model {
            ModelType::Mock => STATUS_READY,
            _ => STATUS_LOADING,
        };
        ModelLoading { status, phase: LoadingPhase::Starting, error_message: None }
    }

    /// The current phase is done: loading moves to the next phase, or the
    /// model is ready after warming up.  Nothing changes unless loading.
    pub fn advance(&mut self)
        ensures
            old(self).status != STATUS_LOADING ==> *final(self) == *old(self),
            old(self).status == STATUS_LOADING ==> match phase_after(old(self).phase) {
                Some(p) => final(self).phase == p && final(self).status == STATUS_LOADING,
                None => final(self).phase == old(self).phase && final(self).status == STATUS_READY,
            },
            final(self).error_message == old(self).error_message,
    {
        if self.status != STATUS_LOADING {
            return;
        }
        match self.phase {
            LoadingPhase::Starting => self.phase = LoadingPhase::FetchingConfig,
            LoadingPhase::FetchingConfig => self.phase = LoadingPhase::FetchingTokenizer,
            LoadingPhase::FetchingTokenizer => self.phase = LoadingPhase::FetchingWeights,
            LoadingPhase::FetchingWeights => self.phase = LoadingPhase::LoadingModel,
            LoadingPhase::LoadingModel => self.phase = LoadingPhase::WarmingUp,
            LoadingPhase::WarmingUp => self.status = STATUS_READY,
        }
    }

    /// Loading failed with `message`: the service is in error and keeps
    /// the message.  Nothing changes unless loading.
    pub fn fail(&mut self, message: String)
        ensures
            old(self).status != STATUS_LOADING ==> *final(self) == *old(self),
            old(self).status == STATUS_LOADING ==> {
                &&& final(self).status == STATUS_ERROR
                &&& final(self).phase == old(self).phase
                &&& final(self).error_message == Some(message)
            },
    {
        if self.status == STATUS_LOADING {
            self.status = STATUS_ERROR;
            self.error_message = Some(message);
        }
    }
}

/// The phase reached after `n` phases were done, starting from `p` (`None`
/// once past warming up).
pub open spec fn phases_done(p: LoadingPhase, n: nat) -> Option<LoadingPhase>
    decreases n,
{
    if n == 0 {
        Some(p)
    } else {
        match phases_done(p, (n - 1) as nat) {
            Some(q) => phase_after(q),
            None => None,
        }
    }
}

/// Loading goes through the six phases in order: from the start, five
/// phases done lead to warming up, and the sixth makes the model ready.
pub proof fn lemma_phases_in_order()
    ensures
        phases_done(LoadingPhase::Starting, 1) == Some(LoadingPhase::FetchingConfig),
        phases_done(LoadingPhase::Starting, 2) == Some(LoadingPhase::FetchingTokenizer),
        phases_done(LoadingPhase::Starting, 3) == Some(LoadingPhase::FetchingWeights),
        phases_done(LoadingPhase::Starting, 4) == Some(LoadingPhase::LoadingModel),
        phases_done(LoadingPhase::Starting, 5) == Some(LoadingPhase::WarmingUp),
        phases_done(LoadingPhase::Starting, 6) is None,
{
    reveal_with_fuel(phases_done, 7);
}

} // verus!
