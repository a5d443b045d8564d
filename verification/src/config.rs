//! What is configured for a model.

use vstd::prelude::*;
use crate::prompt::ChatTemplate;

verus! {

/// The context window of a model that configures none.
pub const DEFAULT_CONTEXT_WINDOW: u32 = 4096;

/// The context window that the model list reports for a model that
/// configures none.
pub const DEFAULT_REPORTED_WINDOW: u32 = 2048;

/// The integer and boolean options of a model.
#[derive(Clone, Copy, Debug)]
pub struct ModelConfig {
    pub is_embedding_model: bool,
    pub mirostat: Option<i32>,
    pub use_gpu: Option<bool>,
    pub num_ctx: Option<i32>,
    pub num_gqa: Option<i32>,
    pub main_gpu: Option<i32>,
    pub use_mem_lock: Option<bool>,
    pub num_thread: Option<i32>,
    pub repeat_last_n: Option<i32>,
    pub seed: Option<i32>,
    pub num_predict: Option<i32>,
    pub top_k: Option<i32>,
}

/// A model as the configuration file names it.
#[derive(Clone, Debug)]
pub struct ModelDefinition {
    pub path: String,
    pub name: String,
    pub config: ModelConfig,
    pub chat_template: ChatTemplate,
}

/// How a model's weights are to be loaded.
#[derive(Clone, Copy, Debug, PartialEq, Eq, Structural)]
pub struct LoadPlan {
    /// Lock the weights in memory.
    pub use_mlock: bool,
    /// The GPU that holds the model, where one is configured.
    pub main_gpu: Option<i32>,
    /// Put the layers on the GPU, where the backend has one.
    pub offload_to_gpu: bool,
}

impl ModelConfig {
    /// The context window that is configured: a negative number configures
    /// none.
    pub open spec fn configured_window(self) -> Option<u32> {
        match self.num_ctx {
            Some(n) => if n >= 0 {
                Some(n as u32)
            } else {
                None
            },
            None => None,
        }
    }

    /// The context window of the model: the configured one, or 4096.
    pub open spec fn spec_context_window(self) -> u32 {
        match self.configured_window() {
            Some(n) => n,
            None => 4096,
        }
    }

    /// The context window of the model.
    pub fn context_window(&self) -> (r: u32)
        ensures
            r == self.spec_context_window(),
    {
        match self.num_ctx {
            Some(n) => if n >= 0 {
                n as u32
            } else {
                DEFAULT_CONTEXT_WINDOW
            },
            None => DEFAULT_CONTEXT_WINDOW,
        }
    }

    /// The context window that the model list reports: the configured one,
    /// or 2048.
    pub fn reported_window(&self) -> (r: u32)
        ensures
            r == (match self.configured_window() {
                Some(n) => n,
                None => 2048,
            }),
    {
        match self.num_ctx {
            Some(n) => if n >= 0 {
                n as u32
            } else {
                DEFAULT_REPORTED_WINDOW
            },
            None => DEFAULT_REPORTED_WINDOW,
        }
    }
}

/// How a model's weights are to be loaded: locked in memory and on the
/// GPU unless configured otherwise, on the configured GPU where one is
/// named.
pub fn load_model(model_config: &ModelConfig) -> (r: LoadPlan)
    ensures
        r.use_mlock == (match model_config.use_mem_lock {
            Some(b) => b,
            None => true,
        }),
        r.main_gpu == model_config.main_gpu,
        r.offload_to_gpu == (match model_config.use_gpu {
            Some(b) => b,
            None => true,
        }),
{
    LoadPlan {
        use_mlock: match model_config.use_mem_lock {
            Some(b) => b,
            None => true,
        },
        main_gpu: model_config.main_gpu,
        offload_to_gpu: match model_config.use_gpu {
            Some(b) => b,
            None => true,
        },
    }
}

impl Default for ModelConfig {
    /// The options of a model that configures nothing.
    fn default() -> (r: Self)
        ensures
            !r.is_embedding_model,
            r.mirostat == Some(0i32),
            r.use_gpu == Some(true),
            r.num_ctx == Some(2048i32),
            r.num_gqa is None,
            r.main_gpu is None,
            r.use_mem_lock == Some(true),
            r.num_thread is None,
            r.repeat_last_n == Some(64i32),
            r.seed == Some(0i32),
            r.num_predict == Some(128i32),
            r.top_k == Some(40i32),
    {
        ModelConfig {
            is_embedding_model: false,
            mirostat: Some(0),
            use_gpu: Some(true),
            num_ctx: Some(2048),
            num_gqa: None,
            main_gpu: None,
            use_mem_lock: Some(true),
            num_thread: None,
            repeat_last_n: Some(64),
            seed: Some(0),
            num_predict: Some(128),
            top_k: Some(40),
        }
    }
}

} // verus!
