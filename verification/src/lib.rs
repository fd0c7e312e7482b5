//! The verified core of a local-first meeting recorder and dictation tool: the rules
//! behind its recordings, transcription and summary queues, speech-model preparation,
//! notes assistant, dictation paste box and settings. Work that touches the disk, the
//! database, the network or other processes is done by the caller, which hands the
//! outcome back to these functions.
use vstd::prelude::*;

pub mod text;
pub mod json_text;
pub mod chunking;
pub mod prompts;
pub mod workspace;
pub mod assistant;
pub mod devices;
pub mod pipeline;
pub mod sorting;
pub mod note_roots;
pub mod sidecar_requests;
pub mod sidecar_output;
pub mod assistant_replies;
pub mod llm_exchange;
pub mod queue_jobs;
pub mod settings;
pub mod outbox;
pub mod dictation;
pub mod paste_delivery;
pub mod ax_helper;
pub mod runtime;
pub mod asr_worker;
pub mod recording;
pub mod notes;
pub mod window;
pub mod models;
pub mod summary;
pub mod model_status;
pub mod model_preparation;
pub mod auxiliary_models;
pub mod templates;
pub mod voice_stats;
pub mod transcription_run;
pub mod summary_run;

verus! {
} // verus!
